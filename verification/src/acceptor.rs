//! The per-scheduler acceptor: a state machine from observed events to
//! required actions.
//!
//! One acceptor runs on each scheduler. It binds a listening socket,
//! accepts connections sequentially, admits up to `max_connections`
//! concurrent connection drivers through its `ConnectionSlots` counter, and
//! drains on shutdown. The surrounding accept loop performs the socket
//! work; every decision it takes is a call to [`Acceptor::step`], whose
//! behaviour is fixed by the mathematical transition function
//! [`spec_step`].

use vstd::prelude::*;

use crate::admission::ConnectionSlots;

verus! {

/// The phases an acceptor moves through:
/// `Idle -> Bound -> Accepting <-> Draining -> Terminated`, with the two
/// failure shortcuts (a refused bind, a fatal accept error) leading
/// straight to `Terminated`.
#[derive(Clone, Copy, Debug, PartialEq, Eq, Structural)]
pub enum AcceptorPhase {
    /// Constructed, not yet bound to an address.
    Idle,
    /// The listening socket is bound.
    Bound,
    /// Accepting connections and serving the admitted ones.
    Accepting,
    /// Shutdown observed: no longer accepting, waiting for the in-flight
    /// drivers' terminal events.
    Draining,
    /// The acceptor has stopped for good.
    Terminated,
}

/// What the surrounding accept loop observed since the last step.
#[derive(Clone, Copy, Debug, PartialEq, Eq, Structural)]
pub enum AcceptorEvent {
    /// The listening socket was bound successfully.
    BindCompleted,
    /// The OS refused the listening socket.
    BindRefused,
    /// The accept loop is in place and ready for connections.
    AcceptLoopReady,
    /// A new connection arrived.
    ConnectionArrived,
    /// A connection driver reached its terminal event: completion, error,
    /// or cancellation.
    DriverFinished,
    /// Accepting failed transiently (per-connection descriptor exhaustion,
    /// peer reset during handshake).
    TransientAcceptFailure,
    /// Accepting failed fatally (the listener is gone).
    FatalAcceptFailure,
    /// The shutdown signal was observed.
    ShutdownObserved,
}

/// What the accept loop must do in response to an event.
#[derive(Clone, Copy, Debug, PartialEq, Eq, Structural)]
pub enum AcceptorAction {
    /// Nothing beyond continuing the loop.
    Proceed,
    /// Report a bind failure to the supervisor.
    ReportBindError,
    /// Spawn a connection driver for the arrived connection; it holds the
    /// slot just acquired until its terminal event.
    SpawnDriver,
    /// Reject the arrived connection: log at error level with the peer
    /// address and drop the stream, closing it.
    RejectConnection,
    /// Log the transient accept failure and continue accepting.
    LogTransientError,
    /// Cancel the in-flight connection drivers.
    CancelLiveDrivers,
    /// The event does not apply in the current phase; ignore it.
    IgnoreEvent,
}

/// How an attempt to accept a connection failed.
#[derive(Clone, Copy, Debug, PartialEq, Eq, Structural)]
pub enum AcceptFailure {
    /// This connection could not get a file descriptor.
    DescriptorExhausted,
    /// The peer reset the connection during the handshake.
    PeerResetDuringHandshake,
    /// The listening socket itself is gone.
    ListenerClosed,
}

/// Classify an accept failure into the event the acceptor steps on:
/// per-connection failures are transient — logged, and the loop continues
/// accepting — while a lost listener is fatal and terminates the acceptor.
pub fn classify_accept_failure(f: AcceptFailure) -> (e: AcceptorEvent)
    ensures
        e is TransientAcceptFailure <==> (f is DescriptorExhausted
            || f is PeerResetDuringHandshake),
        e is FatalAcceptFailure <==> f is ListenerClosed,
{
    match f {
        AcceptFailure::DescriptorExhausted => AcceptorEvent::TransientAcceptFailure,
        AcceptFailure::PeerResetDuringHandshake => AcceptorEvent::TransientAcceptFailure,
        AcceptFailure::ListenerClosed => AcceptorEvent::FatalAcceptFailure,
    }
}

/// A mathematical snapshot of an acceptor: its phase, the configured
/// connection bound, and the free admission slots.
pub struct AcceptorModel {
    pub phase: AcceptorPhase,
    pub capacity: int,
    pub available: int,
}

impl AcceptorModel {
    /// The slot count stays between zero and the configured bound.
    pub open spec fn wf(self) -> bool {
        0 <= self.available <= self.capacity
    }

    /// The number of connection drivers currently holding a slot.
    pub open spec fn inflight(self) -> int {
        self.capacity - self.available
    }
}

/// The transition function of the acceptor: from a state and an observed
/// event to the next state and the action the accept loop must take.
///
/// Admission is a non-blocking try-acquire: an arriving connection is
/// admitted exactly when a slot is free, and rejected otherwise. With
/// `capacity == 0` (a configuration error) every connection is refused.
/// A driver's terminal event returns exactly one slot. Once shutdown is
/// observed, no connection is admitted again, and the acceptor terminates
/// when the last in-flight driver finishes.
pub open spec fn spec_step(m: AcceptorModel, e: AcceptorEvent) -> (AcceptorModel, AcceptorAction) {
    match m.phase {
        AcceptorPhase::Idle => match e {
            AcceptorEvent::BindCompleted => (
                AcceptorModel { phase: AcceptorPhase::Bound, ..m },
                AcceptorAction::Proceed,
            ),
            AcceptorEvent::BindRefused => (
                AcceptorModel { phase: AcceptorPhase::Terminated, ..m },
                AcceptorAction::ReportBindError,
            ),
            _ => (m, AcceptorAction::IgnoreEvent),
        },
        AcceptorPhase::Bound => match e {
            AcceptorEvent::AcceptLoopReady => (
                AcceptorModel { phase: AcceptorPhase::Accepting, ..m },
                AcceptorAction::Proceed,
            ),
            _ => (m, AcceptorAction::IgnoreEvent),
        },
        AcceptorPhase::Accepting => match e {
            AcceptorEvent::ConnectionArrived => if m.available > 0 {
                (
                    AcceptorModel { available: m.available - 1, ..m },
                    AcceptorAction::SpawnDriver,
                )
            } else {
                (m, AcceptorAction::RejectConnection)
            },
            AcceptorEvent::DriverFinished => if m.inflight() > 0 {
                (
                    AcceptorModel { available: m.available + 1, ..m },
                    AcceptorAction::Proceed,
                )
            } else {
                (m, AcceptorAction::IgnoreEvent)
            },
            AcceptorEvent::TransientAcceptFailure => (m, AcceptorAction::LogTransientError),
            AcceptorEvent::FatalAcceptFailure => (
                AcceptorModel { phase: AcceptorPhase::Terminated, ..m },
                AcceptorAction::Proceed,
            ),
            AcceptorEvent::ShutdownObserved => if m.inflight() > 0 {
                (
                    AcceptorModel { phase: AcceptorPhase::Draining, ..m },
                    AcceptorAction::CancelLiveDrivers,
                )
            } else {
                (
                    AcceptorModel { phase: AcceptorPhase::Terminated, ..m },
                    AcceptorAction::Proceed,
                )
            },
            _ => (m, AcceptorAction::IgnoreEvent),
        },
        AcceptorPhase::Draining => match e {
            AcceptorEvent::DriverFinished => if m.inflight() > 1 {
                (
                    AcceptorModel { available: m.available + 1, ..m },
                    AcceptorAction::Proceed,
                )
            } else if m.inflight() == 1 {
                (
                    AcceptorModel {
                        phase: AcceptorPhase::Terminated,
                        available: m.available + 1,
                        ..m
                    },
                    AcceptorAction::Proceed,
                )
            } else {
                (m, AcceptorAction::IgnoreEvent)
            },
            AcceptorEvent::ConnectionArrived => (m, AcceptorAction::RejectConnection),
            _ => (m, AcceptorAction::IgnoreEvent),
        },
        AcceptorPhase::Terminated => (m, AcceptorAction::IgnoreEvent),
    }
}

/// The acceptor owned by one scheduler: the phase of its accept loop and
/// its admission counter. The counter is created full at construction;
/// binding and entering the loop change the phase only.
pub struct Acceptor {
    phase: AcceptorPhase,
    slots: ConnectionSlots,
}

impl View for Acceptor {
    type V = AcceptorModel;

    closed spec fn view(&self) -> AcceptorModel {
        AcceptorModel {
            phase: self.phase,
            capacity: self.slots.capacity() as int,
            available: self.slots.available_slots() as int,
        }
    }
}

impl Acceptor {
    /// A fresh acceptor for a scheduler configured with `max_connections`.
    pub fn new(max_connections: usize) -> (a: Acceptor)
        ensures
            a@.wf(),
            a@.phase is Idle,
            a@.capacity == max_connections,
            a@.available == max_connections,
            a@.inflight() == 0,
    {
        Acceptor { phase: AcceptorPhase::Idle, slots: ConnectionSlots::new(max_connections) }
    }

    /// The phase the acceptor is currently in.
    pub fn phase(&self) -> (p: AcceptorPhase)
        ensures
            p == self@.phase,
    {
        self.phase
    }

    /// How many connection drivers currently hold a slot.
    pub fn inflight_count(&self) -> (n: usize)
        requires
            self@.wf(),
        ensures
            n == self@.inflight(),
    {
        self.slots.inflight_count()
    }

    /// Apply one observed event; returns the action the accept loop must
    /// take. The state change and the action are exactly those of
    /// [`spec_step`].
    pub fn step(&mut self, event: AcceptorEvent) -> (action: AcceptorAction)
        requires
            old(self)@.wf(),
        ensures
            final(self)@ == spec_step(old(self)@, event).0,
            action == spec_step(old(self)@, event).1,
            final(self)@.wf(),
    {
        match self.phase {
            AcceptorPhase::Idle => match event {
                AcceptorEvent::BindCompleted => {
                    self.phase = AcceptorPhase::Bound;
                    AcceptorAction::Proceed
                },
                AcceptorEvent::BindRefused => {
                    self.phase = AcceptorPhase::Terminated;
                    AcceptorAction::ReportBindError
                },
                _ => AcceptorAction::IgnoreEvent,
            },
            AcceptorPhase::Bound => match event {
                AcceptorEvent::AcceptLoopReady => {
                    self.phase = AcceptorPhase::Accepting;
                    AcceptorAction::Proceed
                },
                _ => AcceptorAction::IgnoreEvent,
            },
            AcceptorPhase::Accepting => match event {
                AcceptorEvent::ConnectionArrived => {
                    if self.slots.try_acquire() {
                        AcceptorAction::SpawnDriver
                    } else {
                        AcceptorAction::RejectConnection
                    }
                },
                AcceptorEvent::DriverFinished => {
                    if self.slots.inflight_count() > 0 {
                        self.slots.release();
                        AcceptorAction::Proceed
                    } else {
                        AcceptorAction::IgnoreEvent
                    }
                },
                AcceptorEvent::TransientAcceptFailure => AcceptorAction::LogTransientError,
                AcceptorEvent::FatalAcceptFailure => {
                    self.phase = AcceptorPhase::Terminated;
                    AcceptorAction::Proceed
                },
                AcceptorEvent::ShutdownObserved => {
                    if self.slots.inflight_count() > 0 {
                        self.phase = AcceptorPhase::Draining;
                        AcceptorAction::CancelLiveDrivers
                    } else {
                        self.phase = AcceptorPhase::Terminated;
                        AcceptorAction::Proceed
                    }
                },
                _ => AcceptorAction::IgnoreEvent,
            },
            AcceptorPhase::Draining => match event {
                AcceptorEvent::DriverFinished => {
                    if self.slots.inflight_count() > 0 {
                        self.slots.release();
                        if self.slots.inflight_count() == 0 {
                            self.phase = AcceptorPhase::Terminated;
                        }
                        AcceptorAction::Proceed
                    } else {
                        AcceptorAction::IgnoreEvent
                    }
                },
                AcceptorEvent::ConnectionArrived => AcceptorAction::RejectConnection,
                _ => AcceptorAction::IgnoreEvent,
            },
            AcceptorPhase::Terminated => AcceptorAction::IgnoreEvent,
        }
    }
}

/// Every step keeps the state well formed and never changes the configured
/// capacity.
pub proof fn lemma_step_preserves_wf(m: AcceptorModel, e: AcceptorEvent)
    requires
        m.wf(),
    ensures
        spec_step(m, e).0.wf(),
        spec_step(m, e).0.capacity == m.capacity,
{
}

/// The acceptor state after a whole sequence of observed events.
pub open spec fn run(m: AcceptorModel, events: Seq<AcceptorEvent>) -> AcceptorModel
    decreases events.len(),
{
    if events.len() == 0 {
        m
    } else {
        run(spec_step(m, events[0]).0, events.drop_first())
    }
}

/// At every instant — that is, after every sequence of observed events —
/// the number of in-flight connection drivers on a scheduler stays between
/// zero and `max_connections`.
pub proof fn lemma_inflight_always_bounded(m: AcceptorModel, events: Seq<AcceptorEvent>)
    requires
        m.wf(),
    ensures
        run(m, events).wf(),
        0 <= run(m, events).inflight() <= run(m, events).capacity,
        run(m, events).capacity == m.capacity,
    decreases events.len(),
{
    if events.len() > 0 {
        lemma_step_preserves_wf(m, events[0]);
        lemma_inflight_always_bounded(spec_step(m, events[0]).0, events.drop_first());
    }
}

/// One step changes the slot count by at most one, and in exactly the two
/// sanctioned directions: a slot is taken exactly when a connection is
/// admitted (the step's action is to spawn its driver), and a slot is
/// returned exactly when a driver reaches its terminal event while at
/// least one driver is in flight. No event both takes and returns a slot,
/// so each driver's slot is released exactly once, on its unique terminal
/// event, and never anywhere else.
pub proof fn lemma_slot_accounting(m: AcceptorModel, e: AcceptorEvent)
    requires
        m.wf(),
    ensures
        spec_step(m, e).0.available == m.available - 1 <==> spec_step(
            m,
            e,
        ).1 is SpawnDriver,
        spec_step(m, e).0.available == m.available + 1 <==> (e is DriverFinished
            && m.inflight() > 0 && (m.phase is Accepting || m.phase is Draining)),
        spec_step(m, e).1 is SpawnDriver ==> e is ConnectionArrived && m.phase is Accepting
            && m.available > 0,
        m.available - 1 <= spec_step(m, e).0.available <= m.available + 1,
{
}

/// How many connections a sequence of events admits (each admission spawns
/// one driver).
pub open spec fn admitted_count(m: AcceptorModel, events: Seq<AcceptorEvent>) -> int
    decreases events.len(),
{
    if events.len() == 0 {
        0
    } else {
        (if spec_step(m, events[0]).1 is SpawnDriver {
            1int
        } else {
            0int
        }) + admitted_count(spec_step(m, events[0]).0, events.drop_first())
    }
}

/// How many admission slots a sequence of events returns (one per driver
/// terminal event that finds a driver in flight).
pub open spec fn released_count(m: AcceptorModel, events: Seq<AcceptorEvent>) -> int
    decreases events.len(),
{
    if events.len() == 0 {
        0
    } else {
        (if spec_step(m, events[0]).0.available == m.available + 1 {
            1int
        } else {
            0int
        }) + released_count(spec_step(m, events[0]).0, events.drop_first())
    }
}

/// The books balance: after any sequence of events, the in-flight driver
/// count equals the starting count plus the admissions minus the slot
/// releases — the live connection drivers biject with the held slots, and
/// their cardinality is `max_connections - available`.
pub proof fn lemma_live_drivers_accounting(m: AcceptorModel, events: Seq<AcceptorEvent>)
    requires
        m.wf(),
    ensures
        run(m, events).inflight() == m.inflight() + admitted_count(m, events) - released_count(
            m,
            events,
        ),
        run(m, events).inflight() == run(m, events).capacity - run(m, events).available,
        released_count(m, events) <= m.inflight() + admitted_count(m, events),
    decreases events.len(),
{
    if events.len() > 0 {
        lemma_step_preserves_wf(m, events[0]);
        lemma_slot_accounting(m, events[0]);
        lemma_live_drivers_accounting(spec_step(m, events[0]).0, events.drop_first());
        lemma_inflight_always_bounded(spec_step(m, events[0]).0, events.drop_first());
    }
}

/// Once shutdown has been observed the acceptor never admits another
/// connection, and it can only stay draining or terminate.
pub proof fn lemma_no_admission_after_shutdown(m: AcceptorModel, e: AcceptorEvent)
    requires
        m.phase is Draining || m.phase is Terminated,
    ensures
        !(spec_step(m, e).1 is SpawnDriver),
        spec_step(m, e).0.phase is Draining || spec_step(m, e).0.phase is Terminated,
{
}

/// A sequence of driver terminal events.
pub open spec fn drain_events(k: nat) -> Seq<AcceptorEvent> {
    Seq::new(k, |i| AcceptorEvent::DriverFinished)
}

/// A draining acceptor terminates after exactly as many driver terminal
/// events as it has drivers in flight: together with the two lemmas above,
/// once `terminate` has been observed the acceptor reaches `Terminated`
/// within a bounded number of events — at most one terminal event per
/// in-flight connection.
pub proof fn lemma_draining_terminates(m: AcceptorModel)
    requires
        m.wf(),
        m.phase is Draining,
        m.inflight() > 0,
    ensures
        run(m, drain_events(m.inflight() as nat)).phase is Terminated,
    decreases m.inflight(),
{
    let k = m.inflight() as nat;
    let next = spec_step(m, AcceptorEvent::DriverFinished).0;
    assert(drain_events(k)[0] == AcceptorEvent::DriverFinished);
    assert(drain_events(k).drop_first() =~= drain_events((k - 1) as nat));
    if m.inflight() == 1 {
        assert(next.phase is Terminated);
        assert(run(next, drain_events(0)) == next);
    } else {
        lemma_draining_terminates(next);
    }
}

/// Once the shutdown signal is observed while accepting, the acceptor
/// terminates after at most one terminal event per then-in-flight driver:
/// serving returns within a time bounded by the longest connection
/// lifetime plus its cancellation latency.
pub proof fn lemma_shutdown_terminates_in_bounded_events(m: AcceptorModel)
    requires
        m.wf(),
        m.phase is Accepting,
    ensures
        run(
            m,
            seq![AcceptorEvent::ShutdownObserved] + drain_events(m.inflight() as nat),
        ).phase is Terminated,
{
    let events = seq![AcceptorEvent::ShutdownObserved] + drain_events(m.inflight() as nat);
    let next = spec_step(m, AcceptorEvent::ShutdownObserved).0;
    assert(events[0] == AcceptorEvent::ShutdownObserved);
    assert(events.drop_first() =~= drain_events(m.inflight() as nat));
    if m.inflight() == 0 {
        assert(next.phase is Terminated);
        assert(run(next, drain_events(0)) == next);
    } else {
        assert(next.phase is Draining && next.inflight() == m.inflight());
        lemma_draining_terminates(next);
    }
}

} // verus!
