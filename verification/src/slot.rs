//! The pending-request slot: a cell that holds at most one waiter.

use vstd::prelude::*;

verus! {

/// A cell for the waiter of the one request that may be outstanding.
///
/// A waiter enters an empty slot only, and leaves it by [`PendingSlot::take`]
/// alone. A full slot refuses a second waiter: that is the whole of the
/// single-flight rule.
pub struct PendingSlot<W> {
    waiter: Option<W>,
}

impl<W> View for PendingSlot<W> {
    type V = Option<W>;

    /// The waiter in the slot, if there is one.
    closed spec fn view(&self) -> Option<W> {
        self.waiter
    }
}

impl<W> Default for PendingSlot<W> {
    /// An empty slot.
    fn default() -> (slot: Self)
        ensures
            slot@ is None,
    {
        PendingSlot::new()
    }
}

impl<W> PendingSlot<W> {
    /// An empty slot.
    pub fn new() -> (slot: Self)
        ensures
            slot@ is None,
    {
        PendingSlot { waiter: None }
    }

    /// Whether a waiter is in the slot.
    pub fn is_occupied(&self) -> (occupied: bool)
        ensures
            occupied == (self@ is Some),
    {
        self.waiter.is_some()
    }

    /// Puts `waiter` into the slot if the slot is empty. A full slot is left
    /// as it is and `waiter` is handed back.
    pub fn try_reserve(&mut self, waiter: W) -> (res: Result<(), W>)
        ensures
            old(self)@ is None ==> res is Ok && final(self)@ == Some(waiter),
            old(self)@ is Some ==> res == Err::<(), W>(waiter) && *final(self) == *old(self),
    {
        if self.is_occupied() {
            Err(waiter)
        } else {
            self.fill(waiter);
            Ok(())
        }
    }

    /// Puts `waiter` into a slot that is known to be empty.
    pub(crate) fn fill(&mut self, waiter: W)
        requires
            old(self)@ is None,
        ensures
            final(self)@ == Some(waiter),
    {
        self.waiter = Some(waiter);
    }

    /// Removes the waiter from the slot and returns it. The slot is empty
    /// afterwards, whatever it held; an empty slot is left as it is.
    pub fn take(&mut self) -> (waiter: Option<W>)
        ensures
            waiter == old(self)@,
            final(self)@ is None,
            old(self)@ is None ==> *final(self) == *old(self),
    {
        self.waiter.take()
    }
}

} // verus!
