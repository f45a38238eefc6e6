//! The injection handoff: a single-slot cell that carries the confirmed
//! selection from the query phase to the injection phase.
//!
//! The slot holds at most one pending selection. `set` overwrites it
//! unconditionally (last write wins, earlier values are replaced, never
//! queued), and `take` reads and clears it, so a value is consumed at most
//! once.

use vstd::prelude::*;

verus! {

/// A single-slot cell holding the selection that is pending injection.
pub struct Handoff {
    slot: Option<String>,
}

/// The view of an optional string as an optional character sequence.
pub open spec fn opt_str_view(v: Option<String>) -> Option<Seq<char>> {
    match v {
        Some(s) => Some(s@),
        None => None,
    }
}

impl Handoff {
    /// What is currently pending, if anything.
    pub closed spec fn pending(&self) -> Option<Seq<char>> {
        opt_str_view(self.slot)
    }

    /// A fresh handoff starts with nothing pending.
    pub fn new() -> (h: Handoff)
        ensures
            h.pending() is None,
    {
        Handoff { slot: None }
    }

    /// Overwrite the slot. The previous value, if any, is discarded:
    /// the last write before `take` wins.
    pub fn set(&mut self, v: Option<String>)
        ensures
            final(self).pending() == opt_str_view(v),
    {
        self.slot = v;
    }

    /// Read and clear the slot. Returns exactly what was pending, and
    /// leaves nothing pending, so a second `take` returns `None`.
    pub fn take(&mut self) -> (r: Option<String>)
        ensures
            opt_str_view(r) == old(self).pending(),
            final(self).pending() is None,
    {
        self.slot.take()
    }
}

} // verus!
