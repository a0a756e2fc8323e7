//! A one-slot hand-off between two components that run in turn.

use vstd::prelude::*;

verus! {

/// A message path that holds at most one message: publishing replaces a
/// message that was not taken, so the receiver only ever sees the latest.
pub struct Slot<T> {
    message: Option<T>,
}

impl<T> View for Slot<T> {
    type V = Option<T>;

    closed spec fn view(&self) -> Option<T> {
        self.message
    }
}

impl<T> Slot<T> {
    /// A slot with no message.
    pub fn new() -> (slot: Self)
        ensures
            slot@ is None,
    {
        Slot { message: None }
    }

    /// Whether a message waits to be taken.
    pub fn is_pending(&self) -> (pending: bool)
        ensures
            pending == (self@ is Some),
    {
        self.message.is_some()
    }

    /// Leaves `message` in the slot, in place of any message still there.
    pub fn publish(&mut self, message: T)
        ensures
            final(self)@ == Some(message),
    {
        self.message = Some(message);
    }

    /// Takes the waiting message, if there is one, and leaves the slot empty.
    pub fn take(&mut self) -> (message: Option<T>)
        ensures
            message == old(self)@,
            final(self)@ is None,
    {
        let mut taken: Option<T> = None;
        std::mem::swap(&mut self.message, &mut taken);
        taken
    }
}

} // verus!
