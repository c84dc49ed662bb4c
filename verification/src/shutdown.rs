//! The shutdown signal.
//!
//! A bounded, capacity-one signal: the supervisor owns the receiving side
//! and publishes a clonable sending side for an external signal handler.
//! Sending is non-blocking; a second send while one is pending is a no-op
//! surfaced as a warning, and leaves the signal unchanged.

use vstd::prelude::*;

verus! {

/// What a non-blocking send of the shutdown signal reported.
#[derive(Clone, Copy, Debug, PartialEq, Eq, Structural)]
pub enum SendOutcome {
    /// The signal slot was empty and now holds the shutdown signal.
    Accepted,
    /// A signal is already pending; nothing changed. Surface as a warning.
    AlreadyPending,
}

/// The single-slot state of the signal, and the outcome its sender sees:
/// a send fills the slot if it was empty, and is a no-op otherwise.
pub open spec fn spec_send(pending: bool) -> (bool, SendOutcome) {
    if pending {
        (true, SendOutcome::AlreadyPending)
    } else {
        (true, SendOutcome::Accepted)
    }
}

/// The capacity-one shutdown signal.
pub struct ShutdownChannel {
    pending: bool,
}

impl ShutdownChannel {
    /// Whether a shutdown signal is pending, not yet observed.
    pub closed spec fn is_pending(&self) -> bool {
        self.pending
    }

    /// A fresh signal: nothing pending.
    pub fn new() -> (c: ShutdownChannel)
        ensures
            !c.is_pending(),
    {
        ShutdownChannel { pending: false }
    }

    /// Non-blocking send. The first send fills the slot; any further send
    /// while the signal is pending changes nothing and reports so.
    pub fn try_send(&mut self) -> (r: SendOutcome)
        ensures
            (final(self).is_pending(), r) == spec_send(old(self).is_pending()),
            old(self).is_pending() ==> *final(self) == *old(self),
    {
        if self.pending {
            SendOutcome::AlreadyPending
        } else {
            self.pending = true;
            SendOutcome::Accepted
        }
    }

    /// Observe the signal: reports whether a shutdown was pending and
    /// empties the slot.
    pub fn observe(&mut self) -> (signaled: bool)
        ensures
            signaled == old(self).is_pending(),
            !final(self).is_pending(),
    {
        let was = self.pending;
        self.pending = false;
        was
    }
}

/// A second send while one is pending is a no-op: the state after two
/// sends is the state after one, and a send onto a pending signal reports
/// the warning and changes nothing.
pub proof fn lemma_second_send_is_noop(pending: bool)
    ensures
        spec_send(spec_send(pending).0).0 == spec_send(pending).0,
        spec_send(true) == (true, SendOutcome::AlreadyPending),
{
}

} // verus!
