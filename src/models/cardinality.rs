use vstd::prelude::*;

verus! {

/// Either exactly one produced value ([`Cardinality::One`]) or an ordered
/// sequence of produced values ([`Cardinality::Many`]).
#[derive(Clone, Debug)]
pub enum Cardinality<R> {
    /// A single value of type `R`
    One(R),
    /// Zero or more values of type `R`
    Many(Vec<R>),
}

/// The mathematical value of a [`Cardinality`]: produced values seen through their views.
pub ghost enum CardinalityView<V> {
    One(V),
    Many(Seq<V>),
}

impl<V> CardinalityView<V> {
    /// The produced values in order: one for `One`, all of them for `Many`.
    pub open spec fn items(self) -> Seq<V> {
        match self {
            CardinalityView::One(v) => seq![v],
            CardinalityView::Many(vs) => vs,
        }
    }
}

/// The views of a sequence of values, in order.
pub open spec fn views<R: View>(s: Seq<R>) -> Seq<R::V> {
    s.map_values(|x: R| x@)
}

impl<R: View> View for Cardinality<R> {
    type V = CardinalityView<R::V>;

    open spec fn view(&self) -> CardinalityView<R::V> {
        match self {
            Cardinality::One(x) => CardinalityView::One(x@),
            Cardinality::Many(xs) => CardinalityView::Many(views(xs@)),
        }
    }
}

impl<R> Cardinality<R> {
    /// The single value; calling it on `Many` is a contract violation.
    pub fn unwrap_one(self) -> (r: R)
        requires
            self is One,
        ensures
            self == Cardinality::<R>::One(r),
    {
        match self {
            Cardinality::One(item) => item,
            Cardinality::Many(_) => unreached(),
        }
    }

    /// The values of `Many`; calling it on `One` is a contract violation.
    pub fn unwrap_many(self) -> (r: Vec<R>)
        requires
            self is Many,
        ensures
            self == Cardinality::<R>::Many(r),
    {
        match self {
            Cardinality::One(_) => unreached(),
            Cardinality::Many(items) => items,
        }
    }
}

/// Appends the values of `c` to `acc`: one value for `One`, all of them, in
/// order, for `Many`.
pub fn absorb<R: View>(acc: &mut Vec<R>, c: Cardinality<R>)
    ensures
        views(final(acc)@) == views(old(acc)@) + c@.items(),
{
    match c {
        Cardinality::One(x) => {
            acc.push(x);
            assert(views(final(acc)@) =~= views(old(acc)@) + seq![x@]);
        },
        Cardinality::Many(mut xs) => {
            let ghost xs0 = xs@;
            acc.append(&mut xs);
            assert(views(final(acc)@) =~= views(old(acc)@) + views(xs0));
        },
    }
}

} // verus!
