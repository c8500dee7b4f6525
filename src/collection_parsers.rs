pub mod choice_parser;
pub mod many_one_parser;
pub mod many_parser;
pub mod sep_by_one_parser;
pub mod sep_by_parser;
pub mod sequence_of_parser;
