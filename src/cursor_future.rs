use vstd::prelude::*;

use std::rc::Rc;

use crate::completion::{polled, PollState};
use crate::request_future::IdbRequestFuture;

verus! {

/// A cursor yielded by an [`IdbCursorFuture`]: the raw cursor, the query
/// source (store or index) it was opened on, and a share of the request it
/// advances through, which stays alive as long as the cursor does.
pub struct Cursor<'a, S, C, R> {
    cursor: C,
    source: &'a S,
    req: Rc<R>,
}

impl<'a, S, C, R> Cursor<'a, S, C, R> {
    /// The query source.
    pub closed spec fn source_view(&self) -> S {
        *self.source
    }

    /// The raw cursor.
    pub closed spec fn raw(&self) -> C {
        self.cursor
    }

    /// The request this cursor shares.
    pub closed spec fn handle(&self) -> R {
        *self.req
    }

    /// The raw cursor.
    pub fn cursor(&self) -> (r: &C)
        ensures
            *r == self.raw(),
    {
        &self.cursor
    }

    /// The shared request.
    pub fn request(&self) -> (r: &Rc<R>)
        ensures
            **r == self.handle(),
    {
        &self.req
    }

    /// The query source the cursor was opened on.
    pub fn source(&self) -> (r: &'a S)
        ensures
            *r == self.source_view(),
    {
        self.source
    }
}

/// `out` is the mapping of the raw result `res` onto cursors over `source`
/// and `handle`: an error passes through, the "no value" sentinel (`None`)
/// gives no cursor, and any other value gives a cursor over it that keeps
/// `source` and shares `handle`.
pub open spec fn cursor_of<'a, S, C, E, R>(
    res: Result<Option<C>, E>,
    out: Result<Option<Cursor<'a, S, C, R>>, E>,
    source: S,
    handle: R,
) -> bool {
    match (res, out) {
        (Err(x), Err(y)) => x == y,
        (Ok(None), Ok(None)) => true,
        (Ok(Some(c)), Ok(Some(cur))) => cur.raw() == c && cur.source_view() == source && cur.handle() == handle,
        _ => false,
    }
}

/// As [`cursor_of`], for a result that was cloned on the way out.
pub open spec fn cursor_cloned_of<'a, S, C: Clone, E: Clone, R>(
    res: Result<Option<C>, E>,
    out: Result<Option<Cursor<'a, S, C, R>>, E>,
    source: S,
    handle: R,
) -> bool {
    match (res, out) {
        (Err(x), Err(y)) => cloned(x, y),
        (Ok(None), Ok(None)) => true,
        (Ok(Some(c)), Ok(Some(cur))) => cloned(c, cur.raw()) && cur.source_view() == source
            && cur.handle() == handle,
        _ => false,
    }
}

/// A future for a cursor request. The request is a single-result request
/// ([`IdbRequestFuture`]) whose raw value is either a cursor or the "no value"
/// sentinel; this future reads that request's state when polled and hands
/// the query source and a share of the request to every cursor it yields.
/// The request's state is passed in rather than owned, since the request's
/// listeners write to it too.
pub struct IdbCursorFuture<'a, S, R> {
    source: &'a S,
    req: Rc<R>,
}

impl<'a, S, R> IdbCursorFuture<'a, S, R> {
    /// The query source the cursor request runs on.
    pub closed spec fn source_view(&self) -> S {
        *self.source
    }

    /// The request this future shares with its cursors.
    pub closed spec fn handle(&self) -> R {
        *self.req
    }

    /// A future over the request `req` on `source`.
    pub fn new(req: Rc<R>, source: &'a S) -> (r: Self)
        ensures
            r.handle() == *req,
            r.source_view() == *source,
    {
        IdbCursorFuture { source, req }
    }

    /// The query source.
    pub fn source(&self) -> (r: &'a S)
        ensures
            *r == self.source_view(),
    {
        self.source
    }

    /// The shared request.
    pub fn request(&self) -> (r: &Rc<R>)
        ensures
            **r == self.handle(),
    {
        &self.req
    }

    /// Maps a settled raw result onto cursors over the source and the shared
    /// request.
    pub fn on_ready<C, E>(&self, res: Result<Option<C>, E>) -> (r: Result<
        Option<Cursor<'a, S, C, R>>,
        E,
    >)
        ensures
            cursor_of(res, r, self.source_view(), self.handle()),
    {
        match res {
            Err(e) => Err(e),
            Ok(None) => Ok(None),
            Ok(Some(c)) => Ok(Some(Cursor { cursor: c, source: self.source, req: Rc::clone(&self.req) })),
        }
    }

    /// Polls the request's state `inner`: reports the next cursor, no cursor,
    /// or the request's error once the request settled; otherwise keeps
    /// `handle` to be woken and reports `Pending`.
    pub fn do_poll<C: Clone, E: Clone, W>(
        &self,
        inner: &mut IdbRequestFuture<Option<C>, E, W>,
        handle: W,
    ) -> (r: PollState<Result<Option<Cursor<'a, S, C, R>>, E>>)
        ensures
            final(inner)@ == polled(old(inner)@, handle),
            match old(inner)@.0 {
                Some(res) => r is Ready && cursor_cloned_of(
                    res,
                    r->Ready_0,
                    self.source_view(),
                    self.handle(),
                ),
                None => r is Pending,
            },
    {
        match inner.do_poll(handle) {
            PollState::Ready(res) => PollState::Ready(self.on_ready(res)),
            PollState::Pending => PollState::Pending,
        }
    }
}

} // verus!
