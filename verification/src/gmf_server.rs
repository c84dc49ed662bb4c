//! The server handle: the user's service, the admission bound, and the
//! shutdown signal.
//!
//! `GmfServer` is what a consumer constructs: it carries the request
//! handler, the per-scheduler connection bound, and the supervisor's
//! shutdown signal. Serving binds one acceptor per physical CPU around
//! these values; that wiring — thread spawning, sockets, the HTTP/2
//! engine — happens outside the library, driven by the contracts here.

use vstd::prelude::*;

use crate::shutdown::{SendOutcome, ShutdownChannel, spec_send};
use crate::supervisor::SchedulerPlacement;

verus! {

/// A configuration the server refuses at `serve` entry.
#[derive(Clone, Copy, Debug, PartialEq, Eq, Structural)]
pub enum ConfigError {
    /// `max_connections` is zero: the server would refuse every
    /// connection.
    ZeroMaxConnections,
}

/// How the HTTP/2 engine reported the end of one connection.
#[derive(Clone, Copy, Debug, PartialEq, Eq, Structural)]
pub enum EngineResult {
    /// The connection closed cleanly.
    CleanClose,
    /// The peer went away without a graceful goodbye.
    IncompleteMessage,
    /// The engine reported a protocol failure.
    ProtocolError,
    /// The engine reported an I/O failure.
    IoFailure,
}

/// The terminal outcome of a connection driver. It never propagates
/// beyond the connection task; logging is the only side channel.
#[derive(Clone, Copy, Debug, PartialEq, Eq, Structural)]
pub enum DriverOutcome {
    /// The connection is done; nothing to report.
    Success,
    /// The failure was logged and the connection counts as reset.
    ConnectionReset,
}

/// Classify the engine's report on one finished connection: a clean close
/// succeeds, and so does an unclean one — peers routinely drop without a
/// goodbye. Protocol and I/O failures are logged and map to a
/// connection-reset outcome.
pub fn classify_engine_result(r: EngineResult) -> (o: DriverOutcome)
    ensures
        o is Success <==> (r is CleanClose || r is IncompleteMessage),
        o is ConnectionReset <==> (r is ProtocolError || r is IoFailure),
{
    match r {
        EngineResult::CleanClose => DriverOutcome::Success,
        EngineResult::IncompleteMessage => DriverOutcome::Success,
        EngineResult::ProtocolError => DriverOutcome::ConnectionReset,
        EngineResult::IoFailure => DriverOutcome::ConnectionReset,
    }
}

/// A server: the request handler, the per-scheduler bound on concurrent
/// connections, and the shutdown signal that ends serving.
pub struct GmfServer<S> {
    service: S,
    max_connections: usize,
    placement: SchedulerPlacement,
    shutdown: ShutdownChannel,
}

impl<S> GmfServer<S> {
    /// The request handler the server was built with.
    pub closed spec fn spec_service(&self) -> S {
        self.service
    }

    /// The configured bound on concurrent connections per scheduler.
    pub closed spec fn spec_max_connections(&self) -> nat {
        self.max_connections as nat
    }

    /// Whether a shutdown signal is pending, not yet observed.
    pub open spec fn shutdown_pending(&self) -> bool {
        self.shutdown_channel().is_pending()
    }

    /// The shutdown signal's state.
    pub closed spec fn shutdown_channel(&self) -> ShutdownChannel {
        self.shutdown
    }

    /// Where the server places its schedulers.
    pub closed spec fn spec_placement(&self) -> SchedulerPlacement {
        self.placement
    }

    /// A new server around `service`, admitting at most `max_connections`
    /// concurrent connections per scheduler, serving on every physical CPU
    /// unless placed otherwise, with no shutdown pending.
    pub fn new(service: S, max_connections: usize) -> (s: Self)
        ensures
            s.spec_service() == service,
            s.spec_max_connections() == max_connections,
            s.spec_placement() == SchedulerPlacement::AllPhysicalCpus,
            !s.shutdown_pending(),
    {
        GmfServer {
            service,
            max_connections,
            placement: SchedulerPlacement::AllPhysicalCpus,
            shutdown: ShutdownChannel::new(),
        }
    }

    /// Choose where the schedulers are placed; everything else is kept.
    pub fn with_placement(self, placement: SchedulerPlacement) -> (s: Self)
        ensures
            s.spec_placement() == placement,
            s.spec_service() == self.spec_service(),
            s.spec_max_connections() == self.spec_max_connections(),
            s.shutdown_pending() == self.shutdown_pending(),
    {
        GmfServer { placement, ..self }
    }

    /// Where the server places its schedulers.
    pub fn placement(&self) -> (p: SchedulerPlacement)
        ensures
            p == self.spec_placement(),
    {
        self.placement
    }

    /// The configured bound on concurrent connections per scheduler.
    pub fn max_connections(&self) -> (n: usize)
        ensures
            n == self.spec_max_connections(),
    {
        self.max_connections
    }

    /// A reference to the request handler, for cloning into a scheduler.
    pub fn service(&self) -> (s: &S)
        ensures
            *s == self.spec_service(),
    {
        &self.service
    }

    /// The check `serve` makes before it builds any scheduler: a zero
    /// connection bound is refused immediately.
    pub fn validate(&self) -> (r: Result<(), ConfigError>)
        ensures
            r is Ok <==> self.spec_max_connections() >= 1,
            r is Err ==> r == Result::<(), ConfigError>::Err(ConfigError::ZeroMaxConnections),
    {
        if self.max_connections == 0 {
            Err(ConfigError::ZeroMaxConnections)
        } else {
            Ok(())
        }
    }

    /// Publish the shutdown signal. The first call fills the signal slot;
    /// a call while one is pending is a no-op reported as a warning, and
    /// neither changes the service nor the connection bound.
    pub fn terminate(&mut self) -> (r: SendOutcome)
        ensures
            (final(self).shutdown_pending(), r) == spec_send(old(self).shutdown_pending()),
            old(self).shutdown_pending() ==> *final(self) == *old(self),
            final(self).spec_service() == old(self).spec_service(),
            final(self).spec_max_connections() == old(self).spec_max_connections(),
            final(self).spec_placement() == old(self).spec_placement(),
    {
        self.shutdown.try_send()
    }

    /// Observe the shutdown signal, as each scheduler's supervisor arm
    /// does: reports whether a shutdown was pending and empties the slot.
    pub fn observe_shutdown(&mut self) -> (signaled: bool)
        ensures
            signaled == old(self).shutdown_pending(),
            !final(self).shutdown_pending(),
            final(self).spec_service() == old(self).spec_service(),
            final(self).spec_max_connections() == old(self).spec_max_connections(),
            final(self).spec_placement() == old(self).spec_placement(),
    {
        self.shutdown.observe()
    }
}

} // verus!
