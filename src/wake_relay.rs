use vstd::prelude::*;

verus! {

/// A slot for the wake handle of the latest poll that found no result.
pub struct WakeRelay<W> {
    handle: Option<W>,
}

impl<W> View for WakeRelay<W> {
    type V = Option<W>;

    closed spec fn view(&self) -> Option<W> {
        self.handle
    }
}

impl<W> WakeRelay<W> {
    /// A relay with no handle stored.
    pub fn new() -> (r: Self)
        ensures
            r@ is None,
    {
        WakeRelay { handle: None }
    }

    /// Stores `handle`, replacing any handle stored before.
    pub fn arm(&mut self, handle: W)
        ensures
            final(self)@ == Some(handle),
    {
        self.handle = Some(handle);
    }

    /// Takes the stored handle out, for the caller to invoke; the relay is
    /// then empty.
    pub fn fire(&mut self) -> (r: Option<W>)
        ensures
            r == old(self)@,
            final(self)@ is None,
    {
        self.handle.take()
    }
}

} // verus!
