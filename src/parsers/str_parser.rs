use vstd::prelude::*;
use crate::models::cardinality::{Cardinality, CardinalityView};
use crate::models::parser_traits::Parse;
use crate::models::state::{failure, success, State, StateView};

verus! {

/// A state whose result type is text.
pub type StringState = State<String>;

/// `lit` occurs in `text` at offset `index`.
pub open spec fn starts_at(text: Seq<char>, index: int, lit: Seq<char>) -> bool {
    &&& 0 <= index
    &&& index + lit.len() <= text.len()
    &&& text.subrange(index, index + lit.len()) == lit
}

/// Whether `lit` occurs in `text` at offset `index`.
pub fn matches_at(text: &str, index: usize, lit: &str) -> (r: bool)
    requires
        index + lit@.len() <= text@.len(),
    ensures
        r == starts_at(text@, index as int, lit@),
{
    let m = lit.unicode_len();
    let n = text.unicode_len();
    let mut k: usize = 0;
    while k < m
        invariant
            m == lit@.len(),
            n == text@.len(),
            index + m <= n,
            0 <= k <= m,
            forall|j: int| 0 <= j < k ==> text@[index + j] == lit@[j],
        decreases m - k,
    {
        if text.get_char(index + k) != lit.get_char(k) {
            assert(text@.subrange(index as int, index + m)[k as int] != lit@[k as int]);
            return false;
        }
        k = k + 1;
    }
    assert(text@.subrange(index as int, index + m) =~= lit@);
    true
}

/// Parses a specific string in the target.
#[derive(Clone, Debug)]
pub struct Str {
    pub to_match: String,
}

impl Str {
    /// A parser that matches exactly `to_match`.
    pub fn new(to_match: String) -> (r: Self)
        ensures
            r.to_match@ == to_match@,
    {
        Self { to_match }
    }
}

impl Parse<String, String> for Str {
    open spec fn wf(&self) -> bool {
        true
    }

    /// A failure passes through unchanged; at the end of the input, or where the
    /// residual input does not start with the literal, the state fails at its
    /// offset; otherwise the offset moves past the literal, which is produced.
    open spec fn spec_transform(&self, s: StateView<Seq<char>>) -> StateView<Seq<char>> {
        let lit = self.to_match@;
        if s.is_error() {
            s
        } else if s.index >= s.target.len() {
            failure(s.target, s.index, "Str: Unexpected end of input"@)
        } else if starts_at(s.target, s.index, lit) {
            success(s.target, s.index + lit.len(), CardinalityView::One(lit))
        } else {
            failure(s.target, s.index, "Str: Tried to match "@ + lit + ", but got "@ + s.target)
        }
    }

    fn transform(&self, state: StringState) -> (r: StringState) {
        if state.is_error() {
            return state;
        }
        let start_index = state.index;
        let text = state.target.as_str();
        let n = text.unicode_len();
        if start_index >= n {
            return State {
                index: start_index,
                target: state.target,
                result: Some(Err("Str: Unexpected end of input".to_owned())),
            };
        }
        let lit = self.to_match.as_str();
        let m = lit.unicode_len();
        if m <= n - start_index && matches_at(text, start_index, lit) {
            return State {
                index: start_index + m,
                target: state.target,
                result: Some(Ok(Cardinality::One(self.to_match.clone()))),
            };
        }
        let mut msg = "Str: Tried to match ".to_owned();
        msg.append(lit);
        msg.append(", but got ");
        msg.append(text);
        State { index: start_index, target: state.target, result: Some(Err(msg)) }
    }
}

} // verus!
