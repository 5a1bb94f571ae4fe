use vstd::prelude::*;

use crate::completion::{polled, resolved, woken, Completion, CompletionView, PollState};

verus! {

/// `b` is a clone of `a`: the same variant, with a cloned payload.
pub open spec fn result_cloned<T: Clone, E: Clone>(a: Result<T, E>, b: Result<T, E>) -> bool {
    match (a, b) {
        (Ok(x), Ok(y)) => cloned(x, y),
        (Err(x), Err(y)) => cloned(x, y),
        _ => false,
    }
}

/// `r` is what a poll of a request reports when its stored result is `cur`.
pub open spec fn request_polled_as<T: Clone, E: Clone>(
    r: PollState<Result<T, E>>,
    cur: Option<Result<T, E>>,
) -> bool {
    match cur {
        Some(v) => r is Ready && result_cloned(v, r->Ready_0),
        None => r is Pending,
    }
}

fn clone_result<T: Clone, E: Clone>(r: &Result<T, E>) -> (c: Result<T, E>)
    ensures
        result_cloned(*r, c),
{
    match r {
        Ok(v) => Ok(v.clone()),
        Err(e) => Err(e.clone()),
    }
}

/// The state behind a single request's success and error listeners: the
/// first to fire stores the request's result and wakes the waiting poll.
pub struct IdbRequestFuture<T, E, W> {
    state: Completion<Result<T, E>, W>,
}

impl<T, E, W> View for IdbRequestFuture<T, E, W> {
    type V = CompletionView<Result<T, E>, W>;

    closed spec fn view(&self) -> CompletionView<Result<T, E>, W> {
        self.state@
    }
}

impl<T, E, W> IdbRequestFuture<T, E, W> {
    /// A request that has not settled, with no poll waiting.
    pub fn new() -> (r: Self)
        ensures
            r@ == (None::<Result<T, E>>, None::<W>),
    {
        IdbRequestFuture { state: Completion::new() }
    }

    /// The request succeeded with `value`. Returns the handle to wake, if any.
    pub fn on_success(&mut self, value: T) -> (wake: Option<W>)
        ensures
            final(self)@ == resolved(old(self)@, Ok(value)),
            wake == woken(old(self)@),
    {
        self.state.resolve(Ok(value))
    }

    /// The request failed with `error`. Returns the handle to wake, if any.
    pub fn on_error(&mut self, error: E) -> (wake: Option<W>)
        ensures
            final(self)@ == resolved(old(self)@, Err(error)),
            wake == woken(old(self)@),
    {
        self.state.resolve(Err(error))
    }
}

impl<T: Clone, E: Clone, W> IdbRequestFuture<T, E, W> {
    /// Reports the request's result once it settled; otherwise keeps `handle`
    /// to be woken and reports `Pending`.
    pub fn do_poll(&mut self, handle: W) -> (r: PollState<Result<T, E>>)
        ensures
            final(self)@ == polled(old(self)@, handle),
            request_polled_as(r, old(self)@.0),
    {
        match self.state.result() {
            Some(v) => PollState::Ready(clone_result(v)),
            None => {
                self.state.wait(handle);
                PollState::Pending
            },
        }
    }
}

} // verus!
