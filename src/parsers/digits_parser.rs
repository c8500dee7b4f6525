use vstd::prelude::*;
use crate::models::parser_traits::Parse;
use crate::models::state::{State, StateView};
use super::char_class::{class_transform, match_class};

verus! {

/// Parses the longest run of ASCII digits at the current offset.
#[derive(Clone, Debug)]
pub struct Digits {}

impl Digits {
    /// The digit-run matcher.
    pub fn new() -> (r: Self)
        ensures
            r == (Digits {}),
    {
        Digits {}
    }
}

impl Default for Digits {
    fn default() -> (r: Self)
        ensures
            r == (Digits {}),
    {
        Self::new()
    }
}

impl Parse<String, String> for Digits {
    open spec fn wf(&self) -> bool {
        true
    }

    open spec fn spec_transform(&self, s: StateView<Seq<char>>) -> StateView<Seq<char>> {
        class_transform(true, s)
    }

    fn transform(&self, state: State<String>) -> (r: State<String>) {
        match_class(true, state)
    }
}

} // verus!
