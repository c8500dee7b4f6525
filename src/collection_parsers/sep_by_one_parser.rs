use vstd::prelude::*;
use crate::models::cardinality::{absorb, views, Cardinality};
use crate::models::parser_traits::Parse;
use crate::models::state::{failure, seed, share, State, StateView};
use super::sep_by_parser::{separate, separated_list};

verus! {

/// Parses at least one value, with a `separator` between values; fails if the
/// first value does not parse.
pub struct SepByOne<S, V> {
    pub separator: S,
    pub separated: V,
}

impl<S, V> SepByOne<S, V> {
    /// A non-empty list of `separated` values with `separator` between them.
    pub fn new(separator: S, separated: V) -> (r: Self)
        ensures
            r.separator == separator,
            r.separated == separated,
    {
        Self { separator, separated }
    }
}

impl<R1: View, R2: View, S: Parse<R1, R2>, V: Parse<R1, R2>> Parse<R1, R2> for SepByOne<S, V> {
    open spec fn wf(&self) -> bool {
        self.separator.wf() && self.separated.wf()
    }

    /// A failure passes through; a failure at the original offset if the first
    /// value does not parse; otherwise the values of the separated list.
    open spec fn spec_transform(&self, s: StateView<R1::V>) -> StateView<R2::V> {
        if s.is_error() {
            s.forward()
        } else if !self.separated.spec_transform(seed(s.target, s.index)).is_ok() {
            failure(s.target, s.index, "SepByOne: Unable to match any input using parser @ index"@)
        } else {
            separated_list(self.separator, self.separated, s.target, s.index)
        }
    }

    fn transform(&self, state: State<R1>) -> (r: State<R2>) {
        if state.is_error() {
            return State::from_err_state(state);
        }
        let start = state.index;
        let n = state.target.as_str().unicode_len();
        let value = self.separated.transform(State { index: start, target: share(&state.target), result: None });
        let mut results: Vec<R2> = Vec::new();
        assert(views(results@) =~= Seq::empty());
        match value.result {
            Some(Ok(c)) => {
                absorb(&mut results, c);
            },
            _ => {
                return State {
                    index: start,
                    target: state.target,
                    result: Some(Err("SepByOne: Unable to match any input using parser @ index".to_owned())),
                };
            },
        }
        let next = self.separator.transform(State { index: value.index, target: share(&state.target), result: None });
        if !next.is_ok() {
            return State { index: value.index, target: state.target, result: Some(Ok(Cardinality::Many(results))) };
        }
        if start < next.index && next.index <= n {
            separate(&self.separator, &self.separated, state.target, next.index, results)
        } else {
            State { index: next.index, target: state.target, result: Some(Ok(Cardinality::Many(results))) }
        }
    }
}

} // verus!
