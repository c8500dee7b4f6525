use vstd::prelude::*;
use crate::models::cardinality::{absorb, views, Cardinality, CardinalityView};
use crate::models::parser_traits::Parse;
use crate::models::state::{seed, share, success, State, StateView};

verus! {

/// Parses the value(s) between two other parsers: `left`, then `value`, then
/// `right`, as a sequence; the result is what `value` produced, or the failure
/// of the first of the three that fails.
pub struct Between<L, Rt, V> {
    pub left: L,
    pub right: Rt,
    pub value: V,
}

impl<L, Rt, V> Between<L, Rt, V> {
    /// `value` bracketed by `left` and `right`.
    pub fn new(left: L, right: Rt, value: V) -> (r: Self)
        ensures
            r.left == left,
            r.right == right,
            r.value == value,
    {
        Self { left, right, value }
    }
}

impl<R1: View, R2: View, L: Parse<R1, R2>, Rt: Parse<R1, R2>, V: Parse<R1, R2>> Parse<R1, R2> for Between<L, Rt, V> {
    open spec fn wf(&self) -> bool {
        self.left.wf() && self.right.wf() && self.value.wf()
    }

    /// A failure passes through; otherwise the three parsers run in order, each
    /// from where the previous one stopped, and the first state that does not
    /// succeed is the result; if all succeed, the values of `value`, at the
    /// offset where `right` stopped.
    open spec fn spec_transform(&self, s: StateView<R1::V>) -> StateView<R2::V> {
        if s.is_error() {
            s.forward()
        } else {
            let l = self.left.spec_transform(seed(s.target, s.index));
            let v = self.value.spec_transform(seed(s.target, l.index));
            let r = self.right.spec_transform(seed(s.target, v.index));
            if !l.is_ok() {
                l
            } else if !v.is_ok() {
                v
            } else if !r.is_ok() {
                r
            } else {
                success(s.target, r.index, CardinalityView::Many(v.items()))
            }
        }
    }

    fn transform(&self, state: State<R1>) -> (r: State<R2>) {
        if state.is_error() {
            return State::from_err_state(state);
        }
        let target = state.target;
        let l = self.left.transform(State { index: state.index, target: share(&target), result: None });
        if !l.is_ok() {
            return l;
        }
        let v = self.value.transform(State { index: l.index, target: share(&target), result: None });
        let payload = match v.result {
            Some(Ok(c)) => c,
            other => {
                return State { index: v.index, target: v.target, result: other };
            },
        };
        let r = self.right.transform(State { index: v.index, target: share(&target), result: None });
        if !r.is_ok() {
            return r;
        }
        let mut results: Vec<R2> = Vec::new();
        absorb(&mut results, payload);
        assert(views(results@) =~= payload@.items());
        State { index: r.index, target, result: Some(Ok(Cardinality::Many(results))) }
    }
}

} // verus!
