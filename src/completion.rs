use vstd::prelude::*;

use crate::result_cell::{write_once, ResultCell};
use crate::wake_relay::WakeRelay;

verus! {

/// What a poll hands back: the result, or word that it is not there yet.
#[derive(Debug, PartialEq, Eq)]
pub enum PollState<T> {
    Ready(T),
    Pending,
}

/// The state that a bridged operation's callbacks and its poller share: the
/// result written so far and the wake handle of the latest pending poll.
pub type CompletionView<T, W> = (Option<T>, Option<W>);

/// State after a callback delivers `v`: the first delivery is stored and takes
/// the armed handle out; a later one changes nothing.
pub open spec fn resolved<T, W>(s: CompletionView<T, W>, v: T) -> CompletionView<T, W> {
    if s.0 is None {
        (write_once(s.0, v), None)
    } else {
        s
    }
}

/// The handle that a delivery on state `s` hands out to be woken.
pub open spec fn woken<T, W>(s: CompletionView<T, W>) -> Option<W> {
    if s.0 is None {
        s.1
    } else {
        None
    }
}

/// State after a poll that offers `handle`: it is armed only while no result
/// is there.
pub open spec fn polled<T, W>(s: CompletionView<T, W>, handle: W) -> CompletionView<T, W> {
    if s.0 is None {
        (s.0, Some(handle))
    } else {
        s
    }
}

/// `r` is what a poll reports when the stored result is `cur`: `Ready` with a
/// clone of the result, or `Pending` when there is none.
pub open spec fn polled_as<T: Clone>(r: PollState<T>, cur: Option<T>) -> bool {
    match cur {
        Some(v) => r is Ready && cloned(v, r->Ready_0),
        None => r is Pending,
    }
}

/// A write-once result cell paired with the wake relay of its poller.
pub struct Completion<T, W> {
    result: ResultCell<T>,
    waker: WakeRelay<W>,
}

impl<T, W> View for Completion<T, W> {
    type V = CompletionView<T, W>;

    closed spec fn view(&self) -> CompletionView<T, W> {
        (self.result@, self.waker@)
    }
}

impl<T, W> Completion<T, W> {
    /// No result and no handle.
    pub fn new() -> (c: Self)
        ensures
            c@ == (None::<T>, None::<W>),
    {
        Completion { result: ResultCell::new(), waker: WakeRelay::new() }
    }

    /// Delivers `v`. Returns the handle to wake when this delivery is the one
    /// that stored the result and a poll is waiting.
    pub fn resolve(&mut self, v: T) -> (wake: Option<W>)
        ensures
            final(self)@ == resolved(old(self)@, v),
            wake == woken(old(self)@),
    {
        if self.result.try_write(v) {
            self.waker.fire()
        } else {
            None
        }
    }

    /// The stored result, if any.
    pub fn result(&self) -> (r: Option<&T>)
        ensures
            r is Some <==> self@.0 is Some,
            r is Some ==> *r.unwrap() == self@.0.unwrap(),
    {
        self.result.read()
    }

    /// The pending half of a poll: arms `handle` unless a result is stored.
    pub fn wait(&mut self, handle: W)
        ensures
            final(self)@ == polled(old(self)@, handle),
    {
        if self.result.read().is_none() {
            self.waker.arm(handle);
        }
    }
}

impl<T: Clone, W> Completion<T, W> {
    /// Reports the stored result, or arms `handle` and reports `Pending`.
    pub fn poll(&mut self, handle: W) -> (r: PollState<T>)
        ensures
            final(self)@ == polled(old(self)@, handle),
            polled_as(r, old(self)@.0),
    {
        match self.result.read() {
            Some(v) => PollState::Ready(v.clone()),
            None => {
                self.waker.arm(handle);
                PollState::Pending
            },
        }
    }
}

/// No lost wakeup: a result delivered before any poll is what the first poll
/// reports, `Ready` with that value.
pub proof fn lemma_no_lost_wakeup<T: Clone, W>(s: CompletionView<T, W>, v: T, r: PollState<T>)
    requires
        s.0 is None,
        polled_as(r, resolved(s, v).0),
    ensures
        r is Ready,
        cloned(v, r->Ready_0),
{
}

/// Wake then resolve: a poll that finds nothing arms its handle; the delivery
/// that follows stores the result and hands out exactly that handle, after
/// which no delivery hands out any handle again, and the next poll reports
/// `Ready` with the delivered value.
pub proof fn lemma_wake_then_resolve<T: Clone, W>(
    s: CompletionView<T, W>,
    handle: W,
    v: T,
    later: T,
    r: PollState<T>,
)
    requires
        s.0 is None,
        polled_as(r, resolved(polled(s, handle), v).0),
    ensures
        polled(s, handle) == (None::<T>, Some(handle)),
        woken(polled(s, handle)) == Some(handle),
        resolved(polled(s, handle), v) == (Some(v), None::<W>),
        woken(resolved(polled(s, handle), v)) is None,
        resolved(resolved(polled(s, handle), v), later) == resolved(polled(s, handle), v),
        r is Ready,
        cloned(v, r->Ready_0),
{
}

/// Late deliveries are idle: once a result is stored, another delivery leaves
/// the state as it is and hands out no handle, and a poll arms nothing.
pub proof fn lemma_late_delivery<T, W>(s: CompletionView<T, W>, v: T, handle: W)
    requires
        s.0 is Some,
    ensures
        resolved(s, v) == s,
        woken(s) is None,
        polled(s, handle) == s,
{
}

} // verus!
