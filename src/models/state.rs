use std::rc::Rc;
use vstd::prelude::*;
use super::cardinality::{Cardinality, CardinalityView};

verus! {

/// What a parser produced: `None` before any attempt, then either the produced
/// values or a message that says why parsing failed.
pub type ParserResult<R> = Option<Result<Cardinality<R>, String>>;

/// The mathematical value of a [`ParserResult`].
pub type ResultView<V> = Option<Result<CardinalityView<V>, Seq<char>>>;

/// The parsing cursor: the next unconsumed offset (counted in characters), the
/// shared input, and the result of the most recent step.
#[derive(Clone, Debug)]
pub struct State<R> {
    /// The offset where the next parser will start from
    pub index: usize,
    /// The input being parsed, shared by every parser of a composition
    pub target: Rc<String>,
    /// The result of the most recent step
    pub result: ParserResult<R>,
}

/// The mathematical value of a [`State`].
pub ghost struct StateView<V> {
    pub index: int,
    pub target: Seq<char>,
    pub result: ResultView<V>,
}

/// The view of a [`ParserResult`]: produced values and message seen through their views.
pub open spec fn result_view<R: View>(r: ParserResult<R>) -> ResultView<R::V> {
    match r {
        None => None,
        Some(Ok(c)) => Some(Ok(c@)),
        Some(Err(e)) => Some(Err(e@)),
    }
}

impl<R: View> View for State<R> {
    type V = StateView<R::V>;

    open spec fn view(&self) -> StateView<R::V> {
        StateView { index: self.index as int, target: self.target@, result: result_view(self.result) }
    }
}

impl<V> StateView<V> {
    /// The state holds a failure.
    pub open spec fn is_error(self) -> bool {
        self.result matches Some(Err(_))
    }

    /// The state holds produced values.
    pub open spec fn is_ok(self) -> bool {
        self.result matches Some(Ok(_))
    }

    /// The failure message of a failed state.
    pub open spec fn message(self) -> Seq<char> {
        match self.result {
            Some(Err(e)) => e,
            _ => Seq::empty(),
        }
    }

    /// The produced values of a successful state, in order.
    pub open spec fn items(self) -> Seq<V> {
        match self.result {
            Some(Ok(c)) => c.items(),
            _ => Seq::empty(),
        }
    }

    /// The same failure, carried over to a state of another result type.
    pub open spec fn forward<W>(self) -> StateView<W> {
        failure(self.target, self.index, self.message())
    }
}

/// A state at `index` on `target` that holds no result yet.
pub open spec fn seed<V>(target: Seq<char>, index: int) -> StateView<V> {
    StateView { index, target, result: None }
}

/// The state that `run` starts from: offset 0 and no result.
pub open spec fn initial<V>(target: Seq<char>) -> StateView<V> {
    seed(target, 0)
}

/// A failed state at `index` with message `msg`.
pub open spec fn failure<V>(target: Seq<char>, index: int, msg: Seq<char>) -> StateView<V> {
    StateView { index, target, result: Some(Err(msg)) }
}

/// A successful state at `index` that produced `c`.
pub open spec fn success<V>(target: Seq<char>, index: int, c: CardinalityView<V>) -> StateView<V> {
    StateView { index, target, result: Some(Ok(c)) }
}

/// Relies on `Rc::clone`: the copy points to the same input.
#[verifier::external_body]
pub(crate) fn share(target: &Rc<String>) -> (r: Rc<String>)
    ensures
        r@ == target@,
{
    Rc::clone(target)
}

impl<R: View> State<R> {
    /// A failed state at the same offset and on the same input, holding `err`.
    pub fn new_err<R2: View>(self, err: String) -> (r: State<R2>)
        ensures
            r@ == failure::<R2::V>(self@.target, self@.index, err@),
    {
        State { index: self.index, target: self.target, result: Some(Err(err)) }
    }

    /// The failure of `state`, carried over to this state type; `state` must hold
    /// a failure.
    pub fn from_err_state<R2: View>(state: State<R2>) -> (r: Self)
        requires
            state@.is_error(),
        ensures
            r@ == state@.forward::<R::V>(),
    {
        match state.result {
            Some(Err(err)) => State { index: state.index, target: state.target, result: Some(Err(err)) },
            _ => unreached(),
        }
    }

    /// Whether the result holds produced values.
    pub fn is_ok(&self) -> (r: bool)
        ensures
            r == self@.is_ok(),
    {
        match &self.result {
            Some(Ok(_)) => true,
            _ => false,
        }
    }

    /// Whether the result is a failure; `false` for a success or no result.
    pub fn is_error(&self) -> (r: bool)
        ensures
            r == self@.is_error(),
    {
        match &self.result {
            Some(Err(_)) => true,
            _ => false,
        }
    }
}

} // verus!
