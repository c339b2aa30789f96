//! The single place where the live child-process handle is kept.
//!
//! The slot holds at most one handle. Storing hands ownership to the slot;
//! taking hands it to the caller, who then terminates the process outside
//! any lock that guards the slot.

use vstd::prelude::*;

verus! {

/// Storage for at most one process handle of type `H`.
#[derive(Debug)]
pub struct ProcessSlot<H> {
    handle: Option<H>,
}

impl<H> View for ProcessSlot<H> {
    type V = Option<H>;

    closed spec fn view(&self) -> Option<H> {
        self.handle
    }
}

impl<H> ProcessSlot<H> {
    /// An empty slot.
    pub fn new() -> (slot: ProcessSlot<H>)
        ensures
            slot@ is None,
    {
        ProcessSlot { handle: None }
    }

    /// Whether no handle is held.
    pub fn is_empty(&self) -> (empty: bool)
        ensures
            empty == (self@ is None),
    {
        self.handle.is_none()
    }

    /// Puts `handle` into the slot. The slot then holds exactly that handle;
    /// a handle that was held before is handed back to the caller.
    pub fn store(&mut self, handle: H) -> (displaced: Option<H>)
        ensures
            final(self)@ == Some(handle),
            displaced == old(self)@,
    {
        let displaced = self.handle.take();
        self.handle = Some(handle);
        displaced
    }

    /// Empties the slot and hands what it held to the caller. On an empty
    /// slot this does nothing and returns `None`.
    pub fn take(&mut self) -> (taken: Option<H>)
        ensures
            final(self)@ is None,
            taken == old(self)@,
    {
        self.handle.take()
    }
}

} // verus!
