//! The slot in which a credential waits between the check of the login and
//! the start of the session.

use vstd::prelude::*;

verus! {

/// A slot for at most one credential. The credential is of any type: the
/// slot does not read it, and storing and taking move it.
#[derive(Clone, Debug)]
pub struct CredentialHandoff<C> {
    slot: Option<C>,
}

/// The slot after `credential` was stored in it, whatever it held.
pub open spec fn stored<C>(slot: Option<C>, credential: C) -> Option<C> {
    Some(credential)
}

/// Taking from the slot: the slot afterwards, and what is handed out. The
/// slot is left empty, and what it held is handed out.
pub open spec fn taken<C>(slot: Option<C>) -> (Option<C>, Option<C>) {
    (None, slot)
}

impl<C> View for CredentialHandoff<C> {
    type V = Option<C>;

    closed spec fn view(&self) -> Option<C> {
        self.slot
    }
}

impl<C> CredentialHandoff<C> {
    /// An empty slot.
    pub fn new() -> (handoff: Self)
        ensures
            handoff@ is None,
    {
        CredentialHandoff { slot: None }
    }

    /// Puts `credential` in the slot, in place of what the slot held.
    pub fn store(&mut self, credential: C)
        ensures
            final(self)@ == stored(old(self)@, credential),
    {
        self.slot = Some(credential);
    }

    /// Empties the slot and hands out what it held.
    pub fn take(&mut self) -> (credential: Option<C>)
        ensures
            (final(self)@, credential) == taken(old(self)@),
    {
        self.slot.take()
    }

    /// Whether the slot holds nothing.
    pub fn is_empty(&self) -> (empty: bool)
        ensures
            empty == (self@ is None),
    {
        self.slot.is_none()
    }
}

/// What was taken cannot be taken again: after a take, the next take hands
/// out nothing, unless something was stored in between.
pub proof fn law_delivered_at_most_once<C>(slot: Option<C>)
    ensures
        taken(taken(slot).0).1 is None,
{
}

/// What is stored is what the next take hands out, once.
pub proof fn law_take_delivers_what_was_stored<C>(slot: Option<C>, credential: C)
    ensures
        taken(stored(slot, credential)).1 == Some(credential),
        taken(taken(stored(slot, credential)).0).1 is None,
{
}

} // verus!
