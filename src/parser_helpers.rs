use std::marker::PhantomData;
use vstd::prelude::*;
use crate::models::parser_traits::Parse;
use crate::models::state::{result_view, ParserResult, ResultView, State, StateView};

verus! {

/// A parser that runs `parser` and then maps its result with `map_fn`.
pub struct MapResult<R2, P, F> {
    pub parser: P,
    pub map_fn: F,
    pub marker: PhantomData<R2>,
}

/// Maps the result of `parser`: the new parser runs `parser` and returns a state
/// at the same offset, on the same input, with the mapped result.
pub fn map_result<R1, R2, S, P, F>(parser: P, map_fn: F) -> (r: MapResult<R2, P, F>)
    where
        P: Parse<R1, R2>,
        F: Fn(ParserResult<R2>) -> ParserResult<S>,
        R1: View,
        R2: View,
        S: View,
    ensures
        r.parser == parser,
        r.map_fn == map_fn,
{
    MapResult { parser, map_fn, marker: PhantomData }
}

impl<R2: View, S: View, P, F: Fn(ParserResult<R2>) -> ParserResult<S>> MapResult<R2, P, F> {
    /// `map_fn` accepts every result, and results with equal views map to
    /// results with equal views.
    pub open spec fn deterministic(map_fn: F) -> bool {
        &&& forall|x: ParserResult<R2>| #[trigger] map_fn.requires((x,))
        &&& forall|x1: ParserResult<R2>, x2: ParserResult<R2>, y1: ParserResult<S>, y2: ParserResult<S>|
            result_view(x1) == result_view(x2) && #[trigger] map_fn.ensures((x1,), y1)
                && #[trigger] map_fn.ensures((x2,), y2) ==> result_view(y1) == result_view(y2)
    }

    /// The view of what `map_fn` returns on a result with view `v`.
    pub open spec fn mapped(map_fn: F, v: ResultView<R2::V>) -> ResultView<S::V> {
        result_view(
            (choose|p: (ParserResult<R2>, ParserResult<S>)|
                result_view(p.0) == v && #[trigger] map_fn.ensures((p.0,), p.1)).1,
        )
    }
}

impl<R1: View, R2: View, S: View, P: Parse<R1, R2>, F: Fn(ParserResult<R2>) -> ParserResult<S>> Parse<
    R1,
    S,
> for MapResult<R2, P, F> {
    open spec fn wf(&self) -> bool {
        self.parser.wf() && Self::deterministic(self.map_fn)
    }

    open spec fn spec_transform(&self, s: StateView<R1::V>) -> StateView<S::V> {
        let next = self.parser.spec_transform(s);
        StateView { index: next.index, target: next.target, result: Self::mapped(self.map_fn, next.result) }
    }

    fn transform(&self, state: State<R1>) -> (r: State<S>) {
        let next = self.parser.transform(state);
        let ghost x = next.result;
        let result = (self.map_fn)(next.result);
        proof {
            assert(self.map_fn.ensures(((x, result).0,), (x, result).1));
        }
        State { index: next.index, target: next.target, result }
    }
}

/// A parser that runs `parser`, picks the next parser with `chain_fn` from its
/// result, and runs that parser on the state `parser` returned.
pub struct ChainParser<R2, P, F> {
    pub parser: P,
    pub chain_fn: F,
    pub marker: PhantomData<R2>,
}

/// Chains two parsers through `chain_fn`, which takes the result of `parser` and
/// returns the parser to run next.
pub fn chain_parser<R1, R2, S, P, F, Q>(parser: P, chain_fn: F) -> (r: ChainParser<R2, P, F>)
    where
        P: Parse<R1, R2>,
        F: Fn(&ParserResult<R2>) -> Q,
        Q: Parse<R2, S>,
        R1: View,
        R2: View,
        S: View,
    ensures
        r.parser == parser,
        r.chain_fn == chain_fn,
{
    ChainParser { parser, chain_fn, marker: PhantomData }
}

/// `chain_fn` accepts every result and returns parsers that can run, and on
/// results with equal views returns parsers that behave alike.
pub open spec fn chain_deterministic<R2: View, S: View, Q: Parse<R2, S>, F: Fn(&ParserResult<R2>) -> Q>(
    chain_fn: F,
) -> bool {
        &&& forall|x: ParserResult<R2>| #[trigger] chain_fn.requires((&x,))
        &&& forall|x: ParserResult<R2>, q: Q| #[trigger] chain_fn.ensures((&x,), q) ==> q.wf()
        &&& forall|x1: ParserResult<R2>, x2: ParserResult<R2>, q1: Q, q2: Q|
            result_view(x1) == result_view(x2) && #[trigger] chain_fn.ensures((&x1,), q1)
                && #[trigger] chain_fn.ensures((&x2,), q2) ==> forall|st: StateView<R2::V>|
                #[trigger] q1.spec_transform(st) == q2.spec_transform(st)
}

/// A parser that `chain_fn` returns on a result with view `v`.
pub open spec fn next_parser<R2: View, Q, F: Fn(&ParserResult<R2>) -> Q>(chain_fn: F, v: ResultView<R2::V>) -> Q {
    (choose|p: (ParserResult<R2>, Q)| result_view(p.0) == v && #[trigger] chain_fn.ensures((&p.0,), p.1)).1
}

impl<R1: View, R2: View, S: View, P: Parse<R1, R2>, Q: Parse<R2, S>, F: Fn(&ParserResult<R2>) -> Q> Parse<
    R1,
    S,
> for ChainParser<R2, P, F> {
    open spec fn wf(&self) -> bool {
        self.parser.wf() && chain_deterministic::<R2, S, Q, F>(self.chain_fn)
    }

    open spec fn spec_transform(&self, s: StateView<R1::V>) -> StateView<S::V> {
        let next = self.parser.spec_transform(s);
        next_parser::<R2, Q, F>(self.chain_fn, next.result).spec_transform(next)
    }

    fn transform(&self, state: State<R1>) -> (r: State<S>) {
        let next = self.parser.transform(state);
        let next_parser = (self.chain_fn)(&next.result);
        proof {
            assert(self.chain_fn.ensures((&(next.result, next_parser).0,), (next.result, next_parser).1));
        }
        next_parser.transform(next)
    }
}

} // verus!
