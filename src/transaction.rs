use vstd::prelude::*;

use crate::completion::{polled, polled_as, resolved, woken, Completion, CompletionView, PollState};

verus! {

/// How a transaction ended: committed, aborted, or failed with an error.
#[derive(Debug, PartialEq, Eq)]
pub enum IdbTransactionResult<E> {
    Success,
    Abort,
    Error(E),
}

/// `b` is a clone of `a`: the same outcome, with a cloned error payload.
pub open spec fn outcome_cloned<E: Clone>(a: IdbTransactionResult<E>, b: IdbTransactionResult<E>) -> bool {
    match (a, b) {
        (IdbTransactionResult::Success, IdbTransactionResult::Success) => true,
        (IdbTransactionResult::Abort, IdbTransactionResult::Abort) => true,
        (IdbTransactionResult::Error(x), IdbTransactionResult::Error(y)) => cloned(x, y),
        _ => false,
    }
}

impl<E: Clone> Clone for IdbTransactionResult<E> {
    fn clone(&self) -> (r: Self)
        ensures
            outcome_cloned(*self, r),
    {
        match self {
            IdbTransactionResult::Success => IdbTransactionResult::Success,
            IdbTransactionResult::Abort => IdbTransactionResult::Abort,
            IdbTransactionResult::Error(e) => IdbTransactionResult::Error(e.clone()),
        }
    }
}

/// The state behind a transaction's three outcome listeners (complete, abort,
/// error): the first listener to fire decides the outcome and wakes the
/// waiting poll; every later one is ignored.
pub struct IdbTransactionListeners<E, W> {
    state: Completion<IdbTransactionResult<E>, W>,
}

impl<E, W> View for IdbTransactionListeners<E, W> {
    type V = CompletionView<IdbTransactionResult<E>, W>;

    closed spec fn view(&self) -> CompletionView<IdbTransactionResult<E>, W> {
        self.state@
    }
}

impl<E, W> IdbTransactionListeners<E, W> {
    /// Listeners that have seen nothing yet, with no poll waiting.
    pub fn new() -> (r: Self)
        ensures
            r@ == (None::<IdbTransactionResult<E>>, None::<W>),
    {
        IdbTransactionListeners { state: Completion::new() }
    }

    /// The transaction completed. Returns the handle to wake, if any.
    pub fn on_success(&mut self) -> (wake: Option<W>)
        ensures
            final(self)@ == resolved(old(self)@, IdbTransactionResult::Success),
            wake == woken(old(self)@),
    {
        self.state.resolve(IdbTransactionResult::Success)
    }

    /// The transaction was aborted. Returns the handle to wake, if any.
    pub fn on_abort(&mut self) -> (wake: Option<W>)
        ensures
            final(self)@ == resolved(old(self)@, IdbTransactionResult::Abort),
            wake == woken(old(self)@),
    {
        self.state.resolve(IdbTransactionResult::Abort)
    }

    /// The transaction reported an error, with the payload taken from the
    /// error event. An event with no payload is ignored.
    pub fn on_error(&mut self, payload: Option<E>) -> (wake: Option<W>)
        ensures
            match payload {
                Some(e) => {
                    &&& final(self)@ == resolved(old(self)@, IdbTransactionResult::Error(e))
                    &&& wake == woken(old(self)@)
                },
                None => {
                    &&& final(self)@ == old(self)@
                    &&& wake is None
                },
            },
    {
        match payload {
            Some(e) => self.state.resolve(IdbTransactionResult::Error(e)),
            None => None,
        }
    }
}

impl<E: Clone, W> IdbTransactionListeners<E, W> {
    /// Reports the outcome once a listener has fired; otherwise keeps
    /// `handle` to be woken and reports `Pending`.
    pub fn do_poll(&mut self, handle: W) -> (r: PollState<IdbTransactionResult<E>>)
        ensures
            final(self)@ == polled(old(self)@, handle),
            polled_as(r, old(self)@.0),
    {
        self.state.poll(handle)
    }
}

} // verus!
