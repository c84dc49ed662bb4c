use gmf::acceptor::{
    classify_accept_failure, AcceptFailure, Acceptor, AcceptorAction, AcceptorEvent, AcceptorPhase,
};
use gmf::admission::ConnectionSlots;

#[test]
fn fresh_counter_is_full() {
    let slots = ConnectionSlots::new(3);
    assert_eq!(slots.available(), 3);
    assert_eq!(slots.max_connections(), 3);
    assert_eq!(slots.inflight_count(), 0);
}

#[test]
fn admission_cap_of_two_rejects_third() {
    let mut slots = ConnectionSlots::new(2);
    assert!(slots.try_acquire());
    assert!(slots.try_acquire());
    assert!(!slots.try_acquire());
    assert_eq!(slots.inflight_count(), 2);
    assert_eq!(slots.available(), 0);
}

#[test]
fn slot_release_restores_capacity() {
    let mut slots = ConnectionSlots::new(2);
    assert!(slots.try_acquire());
    assert!(slots.try_acquire());
    slots.release();
    assert_eq!(slots.inflight_count(), 1);
    assert!(slots.try_acquire());
    assert!(!slots.try_acquire());
}

#[test]
fn zero_capacity_admits_nothing() {
    let mut slots = ConnectionSlots::new(0);
    assert!(!slots.try_acquire());
    assert_eq!(slots.inflight_count(), 0);
}

fn accepting_acceptor(max_connections: usize) -> Acceptor {
    let mut a = Acceptor::new(max_connections);
    assert_eq!(a.step(AcceptorEvent::BindCompleted), AcceptorAction::Proceed);
    assert_eq!(a.step(AcceptorEvent::AcceptLoopReady), AcceptorAction::Proceed);
    assert_eq!(a.phase(), AcceptorPhase::Accepting);
    a
}

#[test]
fn single_slot_admits_one_and_rejects_the_concurrent_second() {
    let mut a = accepting_acceptor(1);
    assert_eq!(a.step(AcceptorEvent::ConnectionArrived), AcceptorAction::SpawnDriver);
    assert_eq!(a.step(AcceptorEvent::ConnectionArrived), AcceptorAction::RejectConnection);
    assert_eq!(a.inflight_count(), 1);
    assert_eq!(a.step(AcceptorEvent::DriverFinished), AcceptorAction::Proceed);
    assert_eq!(a.inflight_count(), 0);
    assert_eq!(a.step(AcceptorEvent::ConnectionArrived), AcceptorAction::SpawnDriver);
}

#[test]
fn cap_of_two_completes_two_prefaces_and_closes_the_third() {
    let mut a = accepting_acceptor(2);
    assert_eq!(a.step(AcceptorEvent::ConnectionArrived), AcceptorAction::SpawnDriver);
    assert_eq!(a.step(AcceptorEvent::ConnectionArrived), AcceptorAction::SpawnDriver);
    assert_eq!(a.step(AcceptorEvent::ConnectionArrived), AcceptorAction::RejectConnection);
    assert_eq!(a.inflight_count(), 2);
}

#[test]
fn zero_max_connections_refuses_all_connections() {
    let mut a = accepting_acceptor(0);
    assert_eq!(a.step(AcceptorEvent::ConnectionArrived), AcceptorAction::RejectConnection);
    assert_eq!(a.step(AcceptorEvent::ConnectionArrived), AcceptorAction::RejectConnection);
    assert_eq!(a.inflight_count(), 0);
}

#[test]
fn bind_refused_terminates_without_touching_other_schedulers() {
    let mut failing = Acceptor::new(4);
    assert_eq!(failing.step(AcceptorEvent::BindRefused), AcceptorAction::ReportBindError);
    assert_eq!(failing.phase(), AcceptorPhase::Terminated);

    // Each scheduler owns its acceptor; another one keeps serving.
    let mut serving = accepting_acceptor(4);
    assert_eq!(serving.step(AcceptorEvent::ConnectionArrived), AcceptorAction::SpawnDriver);
    assert_eq!(serving.phase(), AcceptorPhase::Accepting);
}

#[test]
fn transient_accept_failure_keeps_accepting() {
    let mut a = accepting_acceptor(2);
    assert_eq!(a.step(AcceptorEvent::TransientAcceptFailure), AcceptorAction::LogTransientError);
    assert_eq!(a.phase(), AcceptorPhase::Accepting);
    assert_eq!(a.step(AcceptorEvent::ConnectionArrived), AcceptorAction::SpawnDriver);
}

#[test]
fn per_connection_failures_are_transient_and_a_lost_listener_is_fatal() {
    assert_eq!(
        classify_accept_failure(AcceptFailure::DescriptorExhausted),
        AcceptorEvent::TransientAcceptFailure
    );
    assert_eq!(
        classify_accept_failure(AcceptFailure::PeerResetDuringHandshake),
        AcceptorEvent::TransientAcceptFailure
    );
    assert_eq!(
        classify_accept_failure(AcceptFailure::ListenerClosed),
        AcceptorEvent::FatalAcceptFailure
    );
}

#[test]
fn fatal_accept_failure_terminates() {
    let mut a = accepting_acceptor(2);
    assert_eq!(a.step(AcceptorEvent::FatalAcceptFailure), AcceptorAction::Proceed);
    assert_eq!(a.phase(), AcceptorPhase::Terminated);
}

#[test]
fn shutdown_drains_inflight_then_terminates() {
    let mut a = accepting_acceptor(2);
    assert_eq!(a.step(AcceptorEvent::ConnectionArrived), AcceptorAction::SpawnDriver);
    assert_eq!(a.step(AcceptorEvent::ConnectionArrived), AcceptorAction::SpawnDriver);
    assert_eq!(a.step(AcceptorEvent::ShutdownObserved), AcceptorAction::CancelLiveDrivers);
    assert_eq!(a.phase(), AcceptorPhase::Draining);
    // No admission after shutdown.
    assert_eq!(a.step(AcceptorEvent::ConnectionArrived), AcceptorAction::RejectConnection);
    // One terminal event per in-flight driver, then the acceptor is done.
    assert_eq!(a.step(AcceptorEvent::DriverFinished), AcceptorAction::Proceed);
    assert_eq!(a.phase(), AcceptorPhase::Draining);
    assert_eq!(a.step(AcceptorEvent::DriverFinished), AcceptorAction::Proceed);
    assert_eq!(a.phase(), AcceptorPhase::Terminated);
}

#[test]
fn shutdown_with_nothing_inflight_terminates_at_once() {
    let mut a = accepting_acceptor(2);
    assert_eq!(a.step(AcceptorEvent::ShutdownObserved), AcceptorAction::Proceed);
    assert_eq!(a.phase(), AcceptorPhase::Terminated);
}

#[test]
fn terminated_acceptor_ignores_everything() {
    let mut a = Acceptor::new(1);
    a.step(AcceptorEvent::BindRefused);
    assert_eq!(a.step(AcceptorEvent::ConnectionArrived), AcceptorAction::IgnoreEvent);
    assert_eq!(a.step(AcceptorEvent::ShutdownObserved), AcceptorAction::IgnoreEvent);
    assert_eq!(a.phase(), AcceptorPhase::Terminated);
}
