//! Parser combinators over text: small parsers (literals, digit runs, letter
//! runs) composed into larger ones (sequences, choices, repetitions, separated
//! lists, bracketing), each proved against a specification of what it returns.
pub mod collection_parsers;
pub mod models;
pub mod parser_helpers;
pub mod parsers;
pub mod utility;
pub mod laws;
