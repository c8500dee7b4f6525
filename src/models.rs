pub mod cardinality;
pub mod parser;
pub mod parser_traits;
pub mod state;
