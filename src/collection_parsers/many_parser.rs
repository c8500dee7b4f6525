use std::rc::Rc;
use vstd::prelude::*;
use crate::models::cardinality::{absorb, views, Cardinality, CardinalityView};
use crate::models::parser_traits::Parse;
use crate::models::state::{seed, share, success, State, StateView};

verus! {

/// Applies `p` repeatedly from `index`, each attempt starting with no result,
/// with `acc` produced so far. Stops at the first attempt that does not
/// succeed, keeping the offset of the last success; a success that does not
/// move forward within the input is kept and ends the repetition. Gives the
/// final offset and all values produced, in order.
pub open spec fn repeat_from<R1: View, R2: View, P: Parse<R1, R2>>(
    p: P,
    target: Seq<char>,
    index: int,
    acc: Seq<R2::V>,
) -> (int, Seq<R2::V>)
    decreases target.len() - index,
{
    let r = p.spec_transform(seed(target, index));
    if r.is_ok() {
        if index < r.index <= target.len() {
            repeat_from(p, target, r.index, acc + r.items())
        } else {
            (r.index, acc + r.items())
        }
    } else {
        (index, acc)
    }
}

/// The state that zero-or-more repetition of `p` gives from `index`.
pub open spec fn repeated<R1: View, R2: View, P: Parse<R1, R2>>(
    p: P,
    target: Seq<char>,
    index: int,
) -> StateView<R2::V> {
    let (end, items) = repeat_from(p, target, index, Seq::empty());
    success(target, end, CardinalityView::Many(items))
}

/// Continues the repetition of `p` from `index` on `target`, with `results`
/// produced so far.
pub fn repeat<R1: View, R2: View, P: Parse<R1, R2>>(
    p: &P,
    target: Rc<String>,
    index: usize,
    results: Vec<R2>,
) -> (r: State<R2>)
    requires
        p.wf(),
    ensures
        ({
            let (end, items) = repeat_from(*p, target@, index as int, views(results@));
            r@ == success(target@, end, CardinalityView::Many(items))
        }),
{
    let ghost t = target@;
    let ghost outcome = repeat_from(*p, t, index as int, views(results@));
    let n = target.as_str().unicode_len();
    let mut results = results;
    let mut index = index;
    loop
        invariant_except_break
            outcome == repeat_from(*p, t, index as int, views(results@)),
        invariant
            p.wf(),
            target@ == t,
            n == t.len(),
        ensures
            outcome == (index as int, views(results@)),
        decreases n - index,
    {
        let next = p.transform(State { index, target: share(&target), result: None });
        match next.result {
            Some(Ok(c)) => {
                absorb(&mut results, c);
                let moved = index < next.index && next.index <= n;
                index = next.index;
                if !moved {
                    break;
                }
            },
            _ => {
                break;
            },
        }
    }
    State { index, target, result: Some(Ok(Cardinality::Many(results))) }
}

/// Applies a parser zero or more times, until it fails; never fails itself.
pub struct Many<P> {
    pub parser: P,
}

impl<P> Many<P> {
    /// Zero-or-more repetition of `parser`.
    pub fn new(parser: P) -> (r: Self)
        ensures
            r.parser == parser,
    {
        Self { parser }
    }
}

impl<R1: View, R2: View, P: Parse<R1, R2>> Parse<R1, R2> for Many<P> {
    open spec fn wf(&self) -> bool {
        self.parser.wf()
    }

    /// A failure passes through; otherwise all values of the repetition.
    open spec fn spec_transform(&self, s: StateView<R1::V>) -> StateView<R2::V> {
        if s.is_error() {
            s.forward()
        } else {
            repeated(self.parser, s.target, s.index)
        }
    }

    fn transform(&self, state: State<R1>) -> (r: State<R2>) {
        if state.is_error() {
            return State::from_err_state(state);
        }
        let results: Vec<R2> = Vec::new();
        assert(views(results@) =~= Seq::empty());
        repeat(&self.parser, state.target, state.index, results)
    }
}

} // verus!
