//! The one place that can hold the handle of the backend process.
//!
//! The host keeps a single `ProcessStore` behind its lock and passes it to
//! every operation.  Each method is one critical section: it reads and
//! updates the slot in a single step, so a caller that has exclusive access
//! for the length of a call sees the slot move from one `Slot` to the next
//! and never anything in between.

use vstd::prelude::*;

verus! {

/// What the store holds.
pub enum Slot<H> {
    /// Nothing, and nothing was ever stored or removed.
    Unused,
    /// The handle of the one process that was started.
    Occupied(H),
    /// Nothing: the handle was removed, or a removal was asked for while
    /// the slot was empty.
    Released,
}

impl<H> Slot<H> {
    /// The handles held, in a sequence: never more than one.
    pub open spec fn handles(self) -> Seq<H> {
        match self {
            Slot::Occupied(handle) => seq![handle],
            _ => Seq::empty(),
        }
    }

    /// The slot after an attempt to store `handle`: an occupied slot keeps
    /// what it has.
    pub open spec fn after_set(self, handle: H) -> Slot<H> {
        match self {
            Slot::Occupied(_) => self,
            _ => Slot::Occupied(handle),
        }
    }

    /// The handle that an attempt to store `handle` gives back.
    pub open spec fn rejected_by_set(self, handle: H) -> Option<H> {
        match self {
            Slot::Occupied(_) => Some(handle),
            _ => None,
        }
    }

    /// The handle that a removal hands out.
    pub open spec fn taken(self) -> Option<H> {
        match self {
            Slot::Occupied(handle) => Some(handle),
            _ => None,
        }
    }
}

/// Holder of at most one process handle of type `H`.
pub struct ProcessStore<H> {
    handle: Option<H>,
    released: bool,
}

impl<H> View for ProcessStore<H> {
    type V = Slot<H>;

    closed spec fn view(&self) -> Slot<H> {
        match self.handle {
            Some(handle) => Slot::Occupied(handle),
            None => if self.released {
                Slot::Released
            } else {
                Slot::Unused
            },
        }
    }
}

impl<H> ProcessStore<H> {
    /// An unused store.
    pub fn new() -> (store: Self)
        ensures
            store@ == Slot::<H>::Unused,
    {
        ProcessStore { handle: None, released: false }
    }

    /// Whether a handle is held.
    pub fn is_occupied(&self) -> (occupied: bool)
        ensures
            occupied == (self@ is Occupied),
    {
        self.handle.is_some()
    }

    /// Whether nothing was ever stored or removed.
    pub fn is_unused(&self) -> (unused: bool)
        ensures
            unused == (self@ is Unused),
    {
        self.handle.is_none() && !self.released
    }

    /// Stores `handle` if the slot is empty.  If a handle is already held,
    /// the slot keeps it and `handle` comes back to the caller.
    pub fn set(&mut self, handle: H) -> (rejected: Option<H>)
        ensures
            final(self)@ == old(self)@.after_set(handle),
            rejected == old(self)@.rejected_by_set(handle),
    {
        if self.handle.is_some() {
            Some(handle)
        } else {
            self.handle = Some(handle);
            None
        }
    }

    /// Removes the handle and hands it out, leaving the slot released.
    pub fn take(&mut self) -> (taken: Option<H>)
        ensures
            final(self)@ == Slot::<H>::Released,
            taken == old(self)@.taken(),
    {
        self.released = true;
        self.handle.take()
    }

    /// The handle held, left in place.
    pub fn peek(&self) -> (held: Option<&H>)
        ensures
            held is Some <==> self@ is Occupied,
            held matches Some(handle) ==> self@ == Slot::Occupied(*handle),
    {
        self.handle.as_ref()
    }

    /// The handle held, left in place, for a probe that needs to write to
    /// it.  What the probe leaves in the handle is what the slot then holds.
    pub fn peek_mut(&mut self) -> (held: Option<&mut H>)
        ensures
            match old(self)@ {
                Slot::Occupied(handle) => {
                    &&& held matches Some(borrowed)
                    &&& *borrowed == handle
                    &&& final(self)@ == Slot::Occupied(*final(borrowed))
                },
                _ => held is None && final(self)@ == old(self)@,
            },
    {
        self.handle.as_mut()
    }
}

} // verus!
