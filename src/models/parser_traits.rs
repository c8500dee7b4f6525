use std::rc::Rc;
use vstd::prelude::*;
use super::state::{initial, State, StateView};

verus! {

/// The capability every parser has: a pure transform from one [`State`] to the
/// next, described exactly by `spec_transform`.
pub trait Parse<R1: View, R2: View> {
    /// The conditions under which the parser's transform is determined by
    /// `spec_transform` (what its parts, such as closures, must satisfy).
    spec fn wf(&self) -> bool;

    /// The state that `transform` returns on a state with this view.
    spec fn spec_transform(&self, s: StateView<R1::V>) -> StateView<R2::V>;

    /// Runs the parsing logic on a [`State`].
    fn transform(&self, state: State<R1>) -> (r: State<R2>)
        requires
            self.wf(),
        ensures
            r@ == self.spec_transform(state@),
    ;

    /// Parses `target` from offset 0, starting with no result.
    fn run(&self, target: &str) -> (r: State<R2>)
        requires
            self.wf(),
        ensures
            r@ == self.spec_transform(initial(target@)),
    {
        let initial_state = State { target: Rc::new(target.to_owned()), index: 0, result: None };
        self.transform(initial_state)
    }
}

impl<R1: View, R2: View, P: Parse<R1, R2>> Parse<R1, R2> for Box<P> {
    open spec fn wf(&self) -> bool {
        (**self).wf()
    }

    open spec fn spec_transform(&self, s: StateView<R1::V>) -> StateView<R2::V> {
        (**self).spec_transform(s)
    }

    fn transform(&self, state: State<R1>) -> (r: State<R2>) {
        (**self).transform(state)
    }
}

} // verus!
