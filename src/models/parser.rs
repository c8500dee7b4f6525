use std::marker::PhantomData;
use vstd::prelude::*;
use super::parser_traits::Parse;
use super::state::{State, StateView};

verus! {

/// A parser whose transform is a function from state to state.
pub struct Parser<R1, R2, F> {
    pub transformer_fn: F,
    pub marker: PhantomData<(R1, R2)>,
}

impl<R1, R2, F: Fn(State<R1>) -> State<R2>> Parser<R1, R2, F> {
    /// A parser that applies `transformer_fn` to the state it is given.
    pub fn new(transformer_fn: F) -> (r: Self)
        ensures
            r.transformer_fn == transformer_fn,
    {
        Parser { transformer_fn, marker: PhantomData }
    }
}

impl<R1: View, R2: View, F: Fn(State<R1>) -> State<R2>> Parser<R1, R2, F> {
    /// The function accepts every state, and states with equal views give
    /// results with equal views.
    pub open spec fn deterministic(f: F) -> bool {
        &&& forall|s: State<R1>| #[trigger] f.requires((s,))
        &&& forall|s1: State<R1>, s2: State<R1>, r1: State<R2>, r2: State<R2>|
            s1@ == s2@ && #[trigger] f.ensures((s1,), r1) && #[trigger] f.ensures((s2,), r2)
                ==> r1@ == r2@
    }
}

impl<R1: View, R2: View, F: Fn(State<R1>) -> State<R2>> Parse<R1, R2> for Parser<R1, R2, F> {
    open spec fn wf(&self) -> bool {
        Self::deterministic(self.transformer_fn)
    }

    open spec fn spec_transform(&self, s: StateView<R1::V>) -> StateView<R2::V> {
        (choose|p: (State<R1>, State<R2>)|
            p.0@ == s && #[trigger] self.transformer_fn.ensures((p.0,), p.1)).1@
    }

    fn transform(&self, state: State<R1>) -> (r: State<R2>) {
        let ghost s = state;
        let r = (self.transformer_fn)(state);
        proof {
            assert(self.transformer_fn.ensures(((s, r).0,), (s, r).1));
        }
        r
    }
}

} // verus!
