pub mod local_log;
