use vstd::prelude::*;
use crate::collection_parsers::choice_parser::{choice_from, Choice};
use crate::collection_parsers::many_one_parser::ManyOne;
use crate::collection_parsers::many_parser::Many;
use crate::collection_parsers::sep_by_parser::{separated_from, SepBy};
use crate::collection_parsers::sequence_of_parser::{sequence_from, SequenceOf};
use crate::models::parser_traits::Parse;
use crate::models::state::{initial, seed, StateView};
use crate::parsers::between_parser::Between;
use crate::parsers::str_parser::Str;

verus! {

/// A literal matched at offset `i` of `t`, where the residual input `t[i..]` or
/// the literal is not empty, succeeds exactly when the residual input starts
/// with the literal, and then the offset advances by exactly the literal's
/// length.
pub proof fn literal_matches_iff_prefix(l: Str, t: Seq<char>, i: int)
    requires
        0 <= i <= t.len(),
        i < t.len() || l.to_match@.len() > 0,
    ensures
        l.spec_transform(seed(t, i)).is_ok() <==> l.to_match@.is_prefix_of(t.subrange(i, t.len() as int)),
        l.spec_transform(seed(t, i)).is_ok() ==> l.spec_transform(seed(t, i)).index == i + l.to_match@.len(),
{
    let lit = l.to_match@;
    let rest = t.subrange(i, t.len() as int);
    if lit.len() <= rest.len() {
        assert(rest.subrange(0, lit.len() as int) =~= t.subrange(i, i + lit.len()));
    }
}

/// Zero-or-more repetition never fails on a state that holds no failure.
pub proof fn many_never_fails<R1: View, R2: View, P: Parse<R1, R2>>(m: Many<P>, s: StateView<R1::V>)
    requires
        !s.is_error(),
    ensures
        m.spec_transform(s).is_ok(),
{
}

/// One-or-more repetition, on a state that holds no failure, fails exactly when
/// the first attempt of the repeated parser does not succeed.
pub proof fn many_one_fails_iff_first_fails<R1: View, R2: View, P: Parse<R1, R2>>(
    m: ManyOne<P>,
    s: StateView<R1::V>,
)
    requires
        !s.is_error(),
    ensures
        m.spec_transform(s).is_error() <==> !m.parser.spec_transform(seed(s.target, s.index)).is_ok(),
{
}

proof fn lemma_choice_skips_failures<R1: View, R2: View, P: Parse<R1, R2>>(
    ps: Seq<P>,
    j: int,
    k: int,
    target: Seq<char>,
    index: int,
)
    requires
        0 <= j <= k < ps.len(),
        ps[k].spec_transform(seed(target, index)).is_ok(),
        forall|m: int| j <= m < k ==> !(#[trigger] ps[m].spec_transform(seed(target, index))).is_ok(),
    ensures
        choice_from(ps, j, target, index) == ps[k].spec_transform(seed(target, index)),
    decreases k - j,
{
    if j < k {
        lemma_choice_skips_failures(ps, j + 1, k, target, index);
    }
}

/// Choice keeps the order of its alternatives: when alternative `k` succeeds
/// from the state's offset and every earlier one does not, the result is the
/// state of alternative `k` run alone from that offset, whatever the later
/// alternatives would do. In particular the first alternative wins whenever it
/// succeeds.
pub proof fn choice_first_success_wins<R1: View, R2: View, P: Parse<R1, R2>>(
    c: Choice<P>,
    s: StateView<R1::V>,
    k: int,
)
    requires
        !s.is_error(),
        0 <= k < c.parsers@.len(),
        c.parsers@[k].spec_transform(seed(s.target, s.index)).is_ok(),
        forall|j: int|
            0 <= j < k ==> !(#[trigger] c.parsers@[j].spec_transform(seed(s.target, s.index))).is_ok(),
    ensures
        c.spec_transform(s) == c.parsers@[k].spec_transform(seed(s.target, s.index)),
{
    lemma_choice_skips_failures(c.parsers@, 0, k, s.target, s.index);
}

/// The offset reached when `ps[k..j]` all succeed in order from `index`, each
/// from where the previous one stopped; none if one of them does not succeed.
pub open spec fn offset_after<R1: View, R2: View, P: Parse<R1, R2>>(
    ps: Seq<P>,
    k: int,
    j: int,
    target: Seq<char>,
    index: int,
) -> Option<int>
    decreases j - k,
{
    if k < j {
        let r = ps[k].spec_transform(seed(target, index));
        if r.is_ok() {
            offset_after(ps, k + 1, j, target, r.index)
        } else {
            None
        }
    } else {
        Some(index)
    }
}

proof fn lemma_sequence_failure<R1: View, R2: View, P: Parse<R1, R2>>(
    ps: Seq<P>,
    k0: int,
    target: Seq<char>,
    index: int,
    acc: Seq<R2::V>,
) -> (w: (int, int))
    requires
        0 <= k0,
        !sequence_from(ps, k0, target, index, acc).is_ok(),
    ensures
        k0 <= w.0 < ps.len(),
        offset_after(ps, k0, w.0, target, index) == Some(w.1),
        !ps[w.0].spec_transform(seed(target, w.1)).is_ok(),
        sequence_from(ps, k0, target, index, acc) == ps[w.0].spec_transform(seed(target, w.1)),
    decreases ps.len() - k0,
{
    let r = ps[k0].spec_transform(seed(target, index));
    if r.is_ok() {
        let w = lemma_sequence_failure(ps, k0 + 1, target, r.index, acc + r.items());
        w
    } else {
        (k0, index)
    }
}

/// A sequence is fail-fast and forwards the failing child's offset: when it
/// does not succeed on a state without a failure, there is a child `k` such that
/// the children before it succeed one after another from the state's offset up
/// to some offset `at`, child `k` does not succeed from `at`, and the sequence's
/// result is exactly child `k`'s state, with the offset where that child failed.
pub proof fn sequence_fails_at_failing_child<R1: View, R2: View, P: Parse<R1, R2>>(
    sq: SequenceOf<P>,
    s: StateView<R1::V>,
)
    requires
        !s.is_error(),
        !sq.spec_transform(s).is_ok(),
    ensures
        exists|k: int, at: int|
            0 <= k < sq.parsers@.len() && offset_after(sq.parsers@, 0, k, s.target, s.index) == Some(at)
                && !sq.parsers@[k].spec_transform(seed(s.target, at)).is_ok() && sq.spec_transform(s)
                == #[trigger] sq.parsers@[k].spec_transform(seed(s.target, at)),
{
    let w = lemma_sequence_failure(sq.parsers@, 0, s.target, s.index, Seq::empty());
    assert(sq.spec_transform(s) == sq.parsers@[w.0].spec_transform(seed(s.target, w.1)));
}

/// Bracketing round trip, for literal delimiters and a literal value with
/// non-empty value and right texts: on `left + value + right` the payload is
/// what the value literal yields alone on its own text, and the whole text is
/// consumed.
pub proof fn between_round_trip(b: Between<Str, Str, Str>)
    requires
        b.value.to_match@.len() > 0,
        b.right.to_match@.len() > 0,
    ensures
        ({
            let (lt, vt, rt) = (b.left.to_match@, b.value.to_match@, b.right.to_match@);
            let whole = b.spec_transform(initial(lt + vt + rt));
            let alone = b.value.spec_transform(initial(vt));
            &&& whole.is_ok()
            &&& alone.is_ok()
            &&& whole.items() == alone.items()
            &&& whole.index == lt.len() + vt.len() + rt.len()
        }),
{
    let (lt, vt, rt) = (b.left.to_match@, b.value.to_match@, b.right.to_match@);
    let t = lt + vt + rt;
    assert(t.subrange(0, lt.len() as int) =~= lt);
    let (a, b2, c) = (lt.len() as int, vt.len() as int, rt.len() as int);
    assert(t.subrange(a, a + b2) =~= vt);
    assert(t.subrange(a + b2, a + b2 + c) =~= rt);
    assert(vt.subrange(0, vt.len() as int) =~= vt);
}

proof fn lemma_separated_acc<R1: View, R2: View, S: Parse<R1, R2>, V: Parse<R1, R2>>(
    separator: S,
    separated: V,
    target: Seq<char>,
    index: int,
    acc: Seq<R2::V>,
)
    ensures
        ({
            let (end, items) = separated_from(separator, separated, target, index, Seq::empty());
            separated_from(separator, separated, target, index, acc) == (end, acc + items)
        }),
    decreases target.len() - index,
{
    let v = separated.spec_transform(seed(target, index));
    if v.is_ok() {
        let sep = separator.spec_transform(seed(target, v.index));
        assert(Seq::<R2::V>::empty() + v.items() =~= v.items());
        if sep.is_ok() && index < sep.index <= target.len() {
            lemma_separated_acc(separator, separated, target, sep.index, acc + v.items());
            lemma_separated_acc(separator, separated, target, sep.index, v.items());
            let (end, items) = separated_from(separator, separated, target, sep.index, Seq::empty());
            assert(acc + v.items() + items =~= acc + (v.items() + items));
        }
    } else {
        assert(acc + Seq::<R2::V>::empty() =~= acc);
    }
}

/// Resuming a separated list: when its first value and the separator after it
/// succeed and move forward within the input, the list from `i` ends where the
/// list run again from the separator's end ends, and yields that value's items
/// followed by what the second run yields.
pub proof fn sep_by_resume<R1: View, R2: View, S: Parse<R1, R2>, V: Parse<R1, R2>>(
    p: SepBy<S, V>,
    t: Seq<char>,
    i: int,
)
    requires
        p.separated.spec_transform(seed(t, i)).is_ok(),
        p.separator.spec_transform(seed(t, p.separated.spec_transform(seed(t, i)).index)).is_ok(),
        i < p.separator.spec_transform(seed(t, p.separated.spec_transform(seed(t, i)).index)).index <= t.len(),
    ensures
        ({
            let v = p.separated.spec_transform(seed(t, i));
            let k = p.separator.spec_transform(seed(t, v.index)).index;
            &&& p.spec_transform(seed(t, i)).index == p.spec_transform(seed(t, k)).index
            &&& p.spec_transform(seed(t, i)).items() == v.items() + p.spec_transform(seed(t, k)).items()
        }),
{
    let v = p.separated.spec_transform(seed(t, i));
    let k = p.separator.spec_transform(seed(t, v.index)).index;
    lemma_separated_acc(p.separator, p.separated, t, k, Seq::empty() + v.items());
    assert(Seq::<R2::V>::empty() + v.items() =~= v.items());
}

} // verus!
