use vstd::prelude::*;
use crate::models::parser_traits::Parse;
use crate::models::state::{State, StateView};

verus! {

/// A parser that refers to another one through a function that builds it when
/// the parser runs. A grammar rule can thereby contain a reference to itself:
/// the builder of the rule returns a parser that holds a `RefParser` with that
/// same builder.
pub struct RefParser<F> {
    pub reference: F,
}

impl<F> RefParser<F> {
    /// A parser that delegates to what `reference` builds.
    pub fn new(reference: F) -> (r: Self)
        ensures
            r.reference == reference,
    {
        RefParser { reference }
    }
}

/// The builder can always be called, builds parsers that can run, and all the
/// parsers it builds behave alike.
pub open spec fn builds_alike<R1: View, R2: View, P: Parse<R1, R2>, F: Fn() -> P>(reference: F) -> bool {
    &&& reference.requires(())
    &&& forall|p: P| #[trigger] reference.ensures((), p) ==> p.wf()
    &&& forall|p1: P, p2: P|
        #[trigger] reference.ensures((), p1) && #[trigger] reference.ensures((), p2)
            ==> forall|st: StateView<R1::V>| #[trigger] p1.spec_transform(st) == p2.spec_transform(st)
}

impl<R1: View, R2: View, P: Parse<R1, R2>, F: Fn() -> P> Parse<R1, R2> for RefParser<F> {
    open spec fn wf(&self) -> bool {
        builds_alike::<R1, R2, P, F>(self.reference)
    }

    /// What a parser that the builder returns gives.
    open spec fn spec_transform(&self, s: StateView<R1::V>) -> StateView<R2::V> {
        (choose|p: P| #[trigger] self.reference.ensures((), p)).spec_transform(s)
    }

    fn transform(&self, state: State<R1>) -> (r: State<R2>) {
        let parser = (self.reference)();
        parser.transform(state)
    }
}

} // verus!
