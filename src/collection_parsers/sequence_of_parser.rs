use vstd::prelude::*;
use crate::models::cardinality::{absorb, views, Cardinality, CardinalityView};
use crate::models::parser_traits::Parse;
use crate::models::state::{seed, share, success, State, StateView};

verus! {

/// Runs `ps[k..]` one after another from `index`, each starting with no result,
/// with `acc` produced so far: the first state that does not succeed is the
/// outcome; if all succeed, their values in order, at the last offset.
pub open spec fn sequence_from<R1: View, R2: View, P: Parse<R1, R2>>(
    ps: Seq<P>,
    k: int,
    target: Seq<char>,
    index: int,
    acc: Seq<R2::V>,
) -> StateView<R2::V>
    decreases ps.len() - k,
{
    if 0 <= k < ps.len() {
        let r = ps[k].spec_transform(seed(target, index));
        if r.is_ok() {
            sequence_from(ps, k + 1, target, r.index, acc + r.items())
        } else {
            r
        }
    } else {
        success(target, index, CardinalityView::Many(acc))
    }
}

/// Runs a list of parsers one after another; the first failure is the result.
pub struct SequenceOf<P> {
    pub parsers: Vec<P>,
}

impl<P> SequenceOf<P> {
    /// A sequence of `parsers`, which must not be empty.
    pub fn new(parsers: Vec<P>) -> (r: Self)
        requires
            parsers@.len() > 0,
        ensures
            r.parsers@ == parsers@,
    {
        Self { parsers }
    }

    /// Adds `parser` at the end of the sequence.
    pub fn push_parser(&mut self, parser: P)
        ensures
            final(self).parsers@ == old(self).parsers@.push(parser),
    {
        self.parsers.push(parser);
    }
}

impl<R1: View, R2: View, P: Parse<R1, R2>> Parse<R1, R2> for SequenceOf<P> {
    open spec fn wf(&self) -> bool {
        forall|i: int| 0 <= i < self.parsers@.len() ==> #[trigger] self.parsers@[i].wf()
    }

    /// A failure passes through; otherwise the children run in order and the
    /// values of all of them, flattened, are produced.
    open spec fn spec_transform(&self, s: StateView<R1::V>) -> StateView<R2::V> {
        if s.is_error() {
            s.forward()
        } else {
            sequence_from(self.parsers@, 0, s.target, s.index, Seq::empty())
        }
    }

    fn transform(&self, state: State<R1>) -> (r: State<R2>) {
        if state.is_error() {
            return State::from_err_state(state);
        }
        let ghost s = state@;
        let target = state.target;
        let mut results: Vec<R2> = Vec::new();
        let mut index = state.index;
        let n = self.parsers.len();
        let mut i: usize = 0;
        assert(views(results@) =~= Seq::empty());
        while i < n
            invariant
                n == self.parsers@.len(),
                0 <= i <= n,
                self.wf(),
                target@ == s.target,
                s == state@,
                !s.is_error(),
                sequence_from(self.parsers@, 0, s.target, s.index, Seq::empty())
                    == sequence_from(self.parsers@, i as int, s.target, index as int, views(results@)),
            decreases n - i,
        {
            let start = State { index, target: share(&target), result: None };
            let next = self.parsers[i].transform(start);
            match next.result {
                Some(Ok(c)) => {
                    absorb(&mut results, c);
                    index = next.index;
                },
                other => {
                    return State { index: next.index, target: next.target, result: other };
                },
            }
            i = i + 1;
        }
        State { index, target, result: Some(Ok(Cardinality::Many(results))) }
    }
}

} // verus!
