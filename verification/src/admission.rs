//! Bounded-concurrency admission for a single scheduler.
//!
//! Each scheduler owns one `ConnectionSlots` counter. A connection driver
//! holds one slot for its whole lifetime; the slot is released on the
//! driver's unique terminal event. Because every task on a scheduler runs
//! on the one thread that owns the counter, no locking is involved.

use vstd::prelude::*;

verus! {

/// The per-scheduler admission counter: `available` capacity tokens out of
/// a fixed `max_connections`. The number of in-flight connection drivers is
/// `max_connections - available`.
pub struct ConnectionSlots {
    available: usize,
    max_connections: usize,
}

impl ConnectionSlots {
    /// The configured bound on concurrent connection drivers.
    pub closed spec fn capacity(&self) -> nat {
        self.max_connections as nat
    }

    /// How many admission slots are currently free.
    pub closed spec fn available_slots(&self) -> nat {
        self.available as nat
    }

    /// The counter never hands out more slots than it was created with.
    pub open spec fn wf(&self) -> bool {
        self.available_slots() <= self.capacity()
    }

    /// The number of connection drivers currently holding a slot.
    pub open spec fn inflight(&self) -> int {
        self.capacity() - self.available_slots()
    }

    /// A fresh counter: no connection is in flight, all capacity is free.
    pub fn new(max_connections: usize) -> (s: Self)
        ensures
            s.wf(),
            s.capacity() == max_connections,
            s.available_slots() == max_connections,
            s.inflight() == 0,
    {
        ConnectionSlots { available: max_connections, max_connections }
    }

    /// Non-blocking admission: takes one slot if any is free.
    ///
    /// Returns whether the connection was admitted; on rejection the
    /// counter is unchanged.
    pub fn try_acquire(&mut self) -> (admitted: bool)
        requires
            old(self).wf(),
        ensures
            final(self).wf(),
            final(self).capacity() == old(self).capacity(),
            admitted <==> old(self).available_slots() > 0,
            admitted ==> final(self).available_slots() == old(self).available_slots() - 1,
            admitted ==> final(self).inflight() == old(self).inflight() + 1,
            !admitted ==> *final(self) == *old(self),
    {
        if self.available > 0 {
            self.available = self.available - 1;
            true
        } else {
            false
        }
    }

    /// Returns the slot held by a finished connection driver.
    pub fn release(&mut self)
        requires
            old(self).wf(),
            old(self).inflight() >= 1,
        ensures
            final(self).wf(),
            final(self).capacity() == old(self).capacity(),
            final(self).available_slots() == old(self).available_slots() + 1,
            final(self).inflight() == old(self).inflight() - 1,
    {
        self.available = self.available + 1;
    }

    /// How many slots are currently free.
    pub fn available(&self) -> (n: usize)
        ensures
            n == self.available_slots(),
    {
        self.available
    }

    /// The configured bound on concurrent connection drivers.
    pub fn max_connections(&self) -> (n: usize)
        ensures
            n == self.capacity(),
    {
        self.max_connections
    }

    /// How many connection drivers currently hold a slot.
    pub fn inflight_count(&self) -> (n: usize)
        requires
            self.wf(),
        ensures
            n == self.inflight(),
    {
        self.max_connections - self.available
    }
}

/// The number of in-flight connection drivers on a scheduler never exceeds
/// the configured maximum, and is never negative.
pub proof fn lemma_inflight_bounded(s: ConnectionSlots)
    requires
        s.wf(),
    ensures
        0 <= s.inflight() <= s.capacity(),
{
}

/// The set of live connection drivers on a scheduler has exactly
/// `max_connections - available` members: one per held slot.
pub proof fn lemma_live_drivers_match_held_slots(s: ConnectionSlots)
    requires
        s.wf(),
    ensures
        s.inflight() == s.capacity() - s.available_slots(),
{
}

} // verus!
