pub mod between_parser;
pub mod char_class;
pub mod digits_parser;
pub mod letters_parser;
pub mod ref_parser;
pub mod str_parser;
