use vstd::prelude::*;
use crate::models::cardinality::{Cardinality, CardinalityView};
use crate::models::state::{failure, success, State, StateView};

verus! {

/// An ASCII decimal digit.
pub open spec fn is_digit(c: char) -> bool {
    '0' <= c <= '9'
}

/// An ASCII letter.
pub open spec fn is_letter(c: char) -> bool {
    ('A' <= c <= 'Z') || ('a' <= c <= 'z')
}

/// The length of the longest prefix of `s` whose characters are all in `class`.
pub open spec fn class_run(s: Seq<char>, class: spec_fn(char) -> bool) -> nat
    decreases s.len(),
{
    if s.len() > 0 && class(s[0]) {
        1 + class_run(s.drop_first(), class)
    } else {
        0
    }
}

/// A run never extends past the end of the text.
pub proof fn lemma_class_run_bounded(s: Seq<char>, class: spec_fn(char) -> bool)
    ensures
        class_run(s, class) <= s.len(),
    decreases s.len(),
{
    if s.len() > 0 && class(s[0]) {
        lemma_class_run_bounded(s.drop_first(), class);
    }
}

/// The end of an anchored match of a run of length `k`: none for an empty run.
pub open spec fn match_end(k: nat) -> Option<usize> {
    if k > 0 {
        Some(k as usize)
    } else {
        None
    }
}

/// The pattern of a run of ASCII digits at the start of the text.
pub const DIGITS_PATTERN: &'static str = "^[0-9]+";

/// The pattern of a run of ASCII letters at the start of the text.
pub const LETTERS_PATTERN: &'static str = "^[A-Za-z]+";

/// Relies on `regex::Regex::new`, `regex::Regex::find` and `regex::Match::end`:
/// both patterns compile; `^` anchors the match at the start of the text, and
/// the greedy `+` makes it the longest run of characters of the class, so the
/// match ends after that run (its length in bytes, one per ASCII character);
/// there is no match when the run is empty.
#[verifier::external_body]
fn anchored_match_end(pattern: &str, text: &str) -> (r: Option<usize>)
    requires
        pattern@ == DIGITS_PATTERN@ || pattern@ == LETTERS_PATTERN@,
    ensures
        pattern@ == DIGITS_PATTERN@ ==> r == match_end(class_run(text@, |c: char| is_digit(c))),
        pattern@ == LETTERS_PATTERN@ ==> r == match_end(class_run(text@, |c: char| is_letter(c))),
{
    match regex::Regex::new(pattern) {
        Ok(re) => match re.find(text) {
            Some(m) => Some(m.end()),
            None => None,
        },
        Err(_) => None,
    }
}

/// The decimal digit character of `d`, which is below 10.
pub open spec fn digit_char(d: nat) -> char {
    seq!['0', '1', '2', '3', '4', '5', '6', '7', '8', '9'][d as int]
}

/// The decimal notation of `n`, without sign or leading zeros.
pub open spec fn decimal(n: nat) -> Seq<char>
    decreases n,
{
    if n < 10 {
        seq![digit_char(n)]
    } else {
        decimal(n / 10).push(digit_char(n % 10))
    }
}

/// Relies on `usize`'s `Display`, through `to_string`: the decimal notation.
#[verifier::external_body]
fn decimal_text(n: usize) -> (r: String)
    ensures
        r@ == decimal(n as nat),
{
    n.to_string()
}

/// The characters that the digit matcher (`digits`) or the letter matcher accepts.
pub open spec fn class_of(digits: bool) -> spec_fn(char) -> bool {
    if digits {
        |c: char| is_digit(c)
    } else {
        |c: char| is_letter(c)
    }
}

/// The name of the digit matcher (`digits`) or the letter matcher, in messages.
pub open spec fn name_of(digits: bool) -> Seq<char> {
    if digits {
        "Digits"@
    } else {
        "Letters"@
    }
}

/// What the digit matcher (`digits`) or the letter matcher looks for, in messages.
pub open spec fn what_of(digits: bool) -> Seq<char> {
    if digits {
        "digits"@
    } else {
        "letters"@
    }
}

/// What the digit matcher (`digits`) or the letter matcher gives on `s`: a
/// failure passes through; at the end of the input, or where no character of
/// the class stands at the offset, a failure at the offset; otherwise the
/// offset moves past the longest run of the class, which is produced.
pub open spec fn class_transform(digits: bool, s: StateView<Seq<char>>) -> StateView<Seq<char>> {
    let t = s.target;
    let name = name_of(digits);
    let k = class_run(t.subrange(s.index, t.len() as int), class_of(digits));
    if s.is_error() {
        s
    } else if s.index >= t.len() {
        failure(t, s.index, name + ": Unexpected end of input"@)
    } else if k == 0 {
        failure(t, s.index, name + ": No "@ + what_of(digits) + " were matched at index: "@ + decimal(s.index as nat))
    } else {
        success(t, s.index + k, CardinalityView::One(t.subrange(s.index, s.index + k)))
    }
}

/// Runs the digit matcher (`digits`) or the letter matcher on `state`.
pub fn match_class(digits: bool, state: State<String>) -> (r: State<String>)
    ensures
        r@ == class_transform(digits, state@),
{
    if state.is_error() {
        return state;
    }
    let (pattern, name, what) = if digits {
        (DIGITS_PATTERN, "Digits", "digits")
    } else {
        (LETTERS_PATTERN, "Letters", "letters")
    };
    let index = state.index;
    let text = state.target.as_str();
    let n = text.unicode_len();
    if index >= n {
        let mut msg = name.to_owned();
        msg.append(": Unexpected end of input");
        return State { index, target: state.target, result: Some(Err(msg)) };
    }
    let rest = text.substring_char(index, n);
    match anchored_match_end(pattern, rest) {
        Some(k) => {
            proof {
                lemma_class_run_bounded(rest@, class_of(digits));
            }
            let matched = rest.substring_char(0, k).to_owned();
            assert(matched@ =~= text@.subrange(index as int, index + k));
            State { index: index + k, target: state.target, result: Some(Ok(Cardinality::One(matched))) }
        },
        None => {
            let mut msg = name.to_owned();
            msg.append(": No ");
            msg.append(what);
            msg.append(" were matched at index: ");
            let number = decimal_text(index);
            msg.append(number.as_str());
            State { index, target: state.target, result: Some(Err(msg)) }
        },
    }
}

} // verus!
