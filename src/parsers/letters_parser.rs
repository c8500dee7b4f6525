use vstd::prelude::*;
use crate::models::parser_traits::Parse;
use crate::models::state::{State, StateView};
use super::char_class::{class_transform, match_class};

verus! {

/// Parses the longest run of ASCII letters at the current offset.
#[derive(Clone, Debug)]
pub struct Letters {}

impl Letters {
    /// The letter-run matcher.
    pub fn new() -> (r: Self)
        ensures
            r == (Letters {}),
    {
        Letters {}
    }
}

impl Default for Letters {
    fn default() -> (r: Self)
        ensures
            r == (Letters {}),
    {
        Self::new()
    }
}

impl Parse<String, String> for Letters {
    open spec fn wf(&self) -> bool {
        true
    }

    open spec fn spec_transform(&self, s: StateView<Seq<char>>) -> StateView<Seq<char>> {
        class_transform(false, s)
    }

    fn transform(&self, state: State<String>) -> (r: State<String>) {
        match_class(false, state)
    }
}

} // verus!
