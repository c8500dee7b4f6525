use vstd::prelude::*;
use crate::models::parser_traits::Parse;
use crate::models::state::{failure, seed, share, State, StateView};

verus! {

/// Tries `ps[k..]` in order, each from `index` with no result: the first
/// success is the outcome; if none succeeds, a failure at `index`.
pub open spec fn choice_from<R1: View, R2: View, P: Parse<R1, R2>>(
    ps: Seq<P>,
    k: int,
    target: Seq<char>,
    index: int,
) -> StateView<R2::V>
    decreases ps.len() - k,
{
    if 0 <= k < ps.len() {
        let r = ps[k].spec_transform(seed(target, index));
        if r.is_ok() {
            r
        } else {
            choice_from(ps, k + 1, target, index)
        }
    } else {
        failure(target, index, "Choice: Failed to parse any of the provided choices"@)
    }
}

/// Goes through the provided parsers and completes as soon as one of them
/// parses successfully; fails if none of them does.
pub struct Choice<P> {
    pub parsers: Vec<P>,
}

impl<P> Choice<P> {
    /// A choice among `parsers`, tried in order.
    pub fn new(parsers: Vec<P>) -> (r: Self)
        ensures
            r.parsers@ == parsers@,
    {
        Self { parsers }
    }

    /// Adds `parser` as the last alternative.
    pub fn push_parser(&mut self, parser: P)
        ensures
            final(self).parsers@ == old(self).parsers@.push(parser),
    {
        self.parsers.push(parser);
    }
}

impl<R1: View, R2: View, P: Parse<R1, R2>> Parse<R1, R2> for Choice<P> {
    open spec fn wf(&self) -> bool {
        forall|i: int| 0 <= i < self.parsers@.len() ==> #[trigger] self.parsers@[i].wf()
    }

    /// A failure passes through; otherwise the state of the first alternative
    /// that succeeds from the original offset, or a failure at that offset.
    open spec fn spec_transform(&self, s: StateView<R1::V>) -> StateView<R2::V> {
        if s.is_error() {
            s.forward()
        } else {
            choice_from(self.parsers@, 0, s.target, s.index)
        }
    }

    fn transform(&self, state: State<R1>) -> (r: State<R2>) {
        if state.is_error() {
            return State::from_err_state(state);
        }
        let ghost s = state@;
        let n = self.parsers.len();
        let mut i: usize = 0;
        while i < n
            invariant
                n == self.parsers@.len(),
                0 <= i <= n,
                self.wf(),
                s == state@,
                !s.is_error(),
                choice_from(self.parsers@, 0, s.target, s.index)
                    == choice_from(self.parsers@, i as int, s.target, s.index),
            decreases n - i,
        {
            let next = self.parsers[i].transform(
                State { index: state.index, target: share(&state.target), result: None },
            );
            if next.is_ok() {
                return next;
            }
            i = i + 1;
        }
        State {
            index: state.index,
            target: state.target,
            result: Some(Err("Choice: Failed to parse any of the provided choices".to_owned())),
        }
    }
}

} // verus!
