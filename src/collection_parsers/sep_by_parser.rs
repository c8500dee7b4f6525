use std::rc::Rc;
use vstd::prelude::*;
use crate::models::cardinality::{absorb, views, Cardinality, CardinalityView};
use crate::models::parser_traits::Parse;
use crate::models::state::{seed, share, success, State, StateView};

verus! {

/// The separated list from `index`, with `acc` produced so far: a value, then a
/// separator, then again a value, and so on, each attempt starting with no
/// result. A value that does not succeed ends the list at `index`; a separator
/// that does not succeed ends it after the value. The separators' values are
/// dropped. A value and separator that together do not move forward within the
/// input end the list after the separator. Gives the final offset and the
/// values, in order.
pub open spec fn separated_from<R1: View, R2: View, S: Parse<R1, R2>, V: Parse<R1, R2>>(
    separator: S,
    separated: V,
    target: Seq<char>,
    index: int,
    acc: Seq<R2::V>,
) -> (int, Seq<R2::V>)
    decreases target.len() - index,
{
    let v = separated.spec_transform(seed(target, index));
    if !v.is_ok() {
        (index, acc)
    } else {
        let sep = separator.spec_transform(seed(target, v.index));
        if !sep.is_ok() {
            (v.index, acc + v.items())
        } else if index < sep.index <= target.len() {
            separated_from(separator, separated, target, sep.index, acc + v.items())
        } else {
            (sep.index, acc + v.items())
        }
    }
}

/// The state that the separated list gives from `index`.
pub open spec fn separated_list<R1: View, R2: View, S: Parse<R1, R2>, V: Parse<R1, R2>>(
    separator: S,
    separated: V,
    target: Seq<char>,
    index: int,
) -> StateView<R2::V> {
    let (end, items) = separated_from(separator, separated, target, index, Seq::empty());
    success(target, end, CardinalityView::Many(items))
}

/// Continues the separated list from `index` on `target`, with `results`
/// produced so far.
pub fn separate<R1: View, R2: View, S: Parse<R1, R2>, V: Parse<R1, R2>>(
    separator: &S,
    separated: &V,
    target: Rc<String>,
    index: usize,
    results: Vec<R2>,
) -> (r: State<R2>)
    requires
        separator.wf(),
        separated.wf(),
    ensures
        ({
            let (end, items) = separated_from(*separator, *separated, target@, index as int, views(results@));
            r@ == success(target@, end, CardinalityView::Many(items))
        }),
{
    let ghost t = target@;
    let ghost outcome = separated_from(*separator, *separated, t, index as int, views(results@));
    let n = target.as_str().unicode_len();
    let mut results = results;
    let mut index = index;
    loop
        invariant_except_break
            outcome == separated_from(*separator, *separated, t, index as int, views(results@)),
        invariant
            separator.wf(),
            separated.wf(),
            target@ == t,
            n == t.len(),
        ensures
            outcome == (index as int, views(results@)),
        decreases n - index,
    {
        let value = separated.transform(State { index, target: share(&target), result: None });
        match value.result {
            Some(Ok(c)) => {
                absorb(&mut results, c);
            },
            _ => {
                break;
            },
        }
        let next = separator.transform(State { index: value.index, target: share(&target), result: None });
        if !next.is_ok() {
            index = value.index;
            break;
        }
        let moved = index < next.index && next.index <= n;
        index = next.index;
        if !moved {
            break;
        }
    }
    State { index, target, result: Some(Ok(Cardinality::Many(results))) }
}

/// Parses zero or more values separated by a `separator`; never fails.
pub struct SepBy<S, V> {
    pub separator: S,
    pub separated: V,
}

impl<S, V> SepBy<S, V> {
    /// A list of `separated` values with `separator` between them.
    pub fn new(separator: S, separated: V) -> (r: Self)
        ensures
            r.separator == separator,
            r.separated == separated,
    {
        Self { separator, separated }
    }
}

impl<R1: View, R2: View, S: Parse<R1, R2>, V: Parse<R1, R2>> Parse<R1, R2> for SepBy<S, V> {
    open spec fn wf(&self) -> bool {
        self.separator.wf() && self.separated.wf()
    }

    /// A failure passes through; otherwise the values of the separated list.
    open spec fn spec_transform(&self, s: StateView<R1::V>) -> StateView<R2::V> {
        if s.is_error() {
            s.forward()
        } else {
            separated_list(self.separator, self.separated, s.target, s.index)
        }
    }

    fn transform(&self, state: State<R1>) -> (r: State<R2>) {
        if state.is_error() {
            return State::from_err_state(state);
        }
        let results: Vec<R2> = Vec::new();
        assert(views(results@) =~= Seq::empty());
        separate(&self.separator, &self.separated, state.target, state.index, results)
    }
}

} // verus!
