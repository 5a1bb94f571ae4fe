use vstd::prelude::*;

verus! {

/// What a cell holds after a write of `v` is attempted on a cell holding `cur`:
/// the first value written stays for good.
pub open spec fn write_once<T>(cur: Option<T>, v: T) -> Option<T> {
    if cur is None {
        Some(v)
    } else {
        cur
    }
}

/// What a cell holding `cur` holds after writes of `vals` are attempted in order.
pub open spec fn write_all<T>(cur: Option<T>, vals: Seq<T>) -> Option<T>
    decreases vals.len(),
{
    if vals.len() == 0 {
        cur
    } else {
        write_all(write_once(cur, vals[0]), vals.drop_first())
    }
}

/// What each of those attempts reports: whether it performed the write.
pub open spec fn write_reports<T>(cur: Option<T>, vals: Seq<T>) -> Seq<bool>
    decreases vals.len(),
{
    if vals.len() == 0 {
        Seq::empty()
    } else {
        seq![cur is None].add(write_reports(write_once(cur, vals[0]), vals.drop_first()))
    }
}

/// A slot that holds at most one terminal value, written by whichever writer
/// comes first and never changed afterwards.
pub struct ResultCell<T> {
    slot: Option<T>,
}

impl<T> View for ResultCell<T> {
    type V = Option<T>;

    closed spec fn view(&self) -> Option<T> {
        self.slot
    }
}

impl<T> ResultCell<T> {
    /// An empty cell.
    pub fn new() -> (c: Self)
        ensures
            c@ is None,
    {
        ResultCell { slot: None }
    }

    /// Stores `v` if the cell is empty. Returns whether this call wrote it.
    pub fn try_write(&mut self, v: T) -> (wrote: bool)
        ensures
            wrote == (old(self)@ is None),
            final(self)@ == write_once(old(self)@, v),
    {
        if self.slot.is_none() {
            self.slot = Some(v);
            true
        } else {
            false
        }
    }

    /// The stored value, if any, left in place.
    pub fn read(&self) -> (r: Option<&T>)
        ensures
            r is Some <==> self@ is Some,
            r is Some ==> *r.unwrap() == self@.unwrap(),
    {
        self.slot.as_ref()
    }
}

/// Write-once: of any run of write attempts on one cell, only the first on an
/// empty cell reports a write, every other one reports none, and the cell ends
/// holding the value of that first writer (or what it already held).
pub proof fn lemma_write_once<T>(cur: Option<T>, vals: Seq<T>)
    ensures
        write_reports(cur, vals).len() == vals.len(),
        forall|i: int|
            0 <= i < vals.len() ==> (#[trigger] write_reports(cur, vals)[i] <==> (i == 0
                && cur is None)),
        write_all(cur, vals) == (if cur is None && vals.len() > 0 {
            Some(vals[0])
        } else {
            cur
        }),
    decreases vals.len(),
{
    if vals.len() > 0 {
        let next = write_once(cur, vals[0]);
        lemma_write_once(next, vals.drop_first());
        assert(next is Some);
        assert forall|i: int| 0 <= i < vals.len() implies (#[trigger] write_reports(cur, vals)[i]
            <==> (i == 0 && cur is None)) by {
            if i > 0 {
                assert(write_reports(cur, vals)[i] == write_reports(next, vals.drop_first())[i
                    - 1]);
            }
        }
    }
}

} // verus!
