use vstd::prelude::*;
use crate::models::cardinality::{absorb, views, Cardinality};
use crate::models::parser_traits::Parse;
use crate::models::state::{failure, seed, share, State, StateView};
use super::many_parser::{repeat, repeated};

verus! {

/// Applies a parser one or more times, until it fails; fails if the first
/// attempt fails.
pub struct ManyOne<P> {
    pub parser: P,
}

impl<P> ManyOne<P> {
    /// One-or-more repetition of `parser`.
    pub fn new(parser: P) -> (r: Self)
        ensures
            r.parser == parser,
    {
        Self { parser }
    }
}

impl<R1: View, R2: View, P: Parse<R1, R2>> Parse<R1, R2> for ManyOne<P> {
    open spec fn wf(&self) -> bool {
        self.parser.wf()
    }

    /// A failure passes through; a failure at the original offset if the first
    /// attempt does not succeed; otherwise all values of the repetition.
    open spec fn spec_transform(&self, s: StateView<R1::V>) -> StateView<R2::V> {
        if s.is_error() {
            s.forward()
        } else if !self.parser.spec_transform(seed(s.target, s.index)).is_ok() {
            failure(s.target, s.index, "ManyOne: Unable to match any input using parser @ index"@)
        } else {
            repeated(self.parser, s.target, s.index)
        }
    }

    fn transform(&self, state: State<R1>) -> (r: State<R2>) {
        if state.is_error() {
            return State::from_err_state(state);
        }
        let start = state.index;
        let n = state.target.as_str().unicode_len();
        let first = self.parser.transform(State { index: start, target: share(&state.target), result: None });
        let mut results: Vec<R2> = Vec::new();
        assert(views(results@) =~= Seq::empty());
        match first.result {
            Some(Ok(c)) => {
                absorb(&mut results, c);
                if start < first.index && first.index <= n {
                    repeat(&self.parser, state.target, first.index, results)
                } else {
                    State { index: first.index, target: state.target, result: Some(Ok(Cardinality::Many(results))) }
                }
            },
            _ => State {
                index: start,
                target: state.target,
                result: Some(Err("ManyOne: Unable to match any input using parser @ index".to_owned())),
            },
        }
    }
}

} // verus!
