use gmf::gmf_server::GmfServer;
use gmf::supervisor::{
    aggregate_exits, decimal_bytes, placement_plan, plans_for_cpus, startup_plan, task_queue_name,
    thread_name, SchedulerExit, SchedulerPlacement,
};

#[test]
fn decimal_bytes_exact_values() {
    assert_eq!(decimal_bytes(0), b"0".to_vec());
    assert_eq!(decimal_bytes(7), b"7".to_vec());
    assert_eq!(decimal_bytes(10), b"10".to_vec());
    assert_eq!(decimal_bytes(509), b"509".to_vec());
    assert_eq!(decimal_bytes(1234567890), b"1234567890".to_vec());
}

#[test]
fn names_carry_the_cpu_number() {
    assert_eq!(thread_name(0), b"gmf_server0".to_vec());
    assert_eq!(thread_name(12), b"gmf_server12".to_vec());
    assert_eq!(task_queue_name(0), b"rpc_server_tq0".to_vec());
    assert_eq!(task_queue_name(7), b"rpc_server_tq7".to_vec());
}

#[test]
fn one_plan_per_cpu_in_cpu_order() {
    let plans = plans_for_cpus(4);
    assert_eq!(plans.len(), 4);
    for (i, plan) in plans.iter().enumerate() {
        assert_eq!(plan.cpu, i);
        assert_eq!(plan.thread_name, thread_name(i));
        assert_eq!(plan.task_queue_name, task_queue_name(i));
    }
}

#[test]
fn startup_plan_covers_at_least_one_cpu() {
    let plans = startup_plan();
    assert!(plans.len() >= 1);
    for (i, plan) in plans.iter().enumerate() {
        assert_eq!(plan.cpu, i);
        assert_eq!(plan.thread_name, thread_name(i));
        assert_eq!(plan.task_queue_name, task_queue_name(i));
    }
}

#[test]
fn fixed_placement_builds_one_pinned_scheduler() {
    let plans = placement_plan(SchedulerPlacement::FixedCpu(3));
    assert_eq!(plans.len(), 1);
    assert_eq!(plans[0].cpu, 3);
    assert!(plans[0].pinned);
    assert_eq!(plans[0].thread_name, b"gmf_server3".to_vec());
    assert_eq!(plans[0].task_queue_name, b"rpc_server_tq3".to_vec());
}

#[test]
fn unbound_placement_builds_one_unpinned_scheduler() {
    let plans = placement_plan(SchedulerPlacement::Unbound);
    assert_eq!(plans.len(), 1);
    assert!(!plans[0].pinned);
    assert_eq!(plans[0].thread_name, b"gmf_server0".to_vec());
}

#[test]
fn all_physical_cpus_placement_covers_each_core() {
    let plans = placement_plan(SchedulerPlacement::AllPhysicalCpus);
    assert!(plans.len() >= 1);
    for (i, plan) in plans.iter().enumerate() {
        assert_eq!(plan.cpu, i);
        assert!(plan.pinned);
    }
}

#[test]
fn placement_defaults_to_all_physical_cpus() {
    assert_eq!(SchedulerPlacement::default(), SchedulerPlacement::AllPhysicalCpus);
    let server = GmfServer::new((), 4);
    assert_eq!(server.placement(), SchedulerPlacement::AllPhysicalCpus);
    let server = server.with_placement(SchedulerPlacement::FixedCpu(1));
    assert_eq!(server.placement(), SchedulerPlacement::FixedCpu(1));
    assert_eq!(server.max_connections(), 4);
}

#[test]
fn all_schedulers_completed_is_a_clean_exit() {
    let exits = vec![SchedulerExit::Completed, SchedulerExit::Completed];
    assert_eq!(aggregate_exits(&exits), Ok(()));
    assert_eq!(aggregate_exits(&Vec::new()), Ok(()));
}

#[test]
fn first_failure_is_propagated_after_joining_all() {
    let exits = vec![
        SchedulerExit::Completed,
        SchedulerExit::BindFailed,
        SchedulerExit::Panicked,
    ];
    assert_eq!(aggregate_exits(&exits), Err(SchedulerExit::BindFailed));
}

#[test]
fn one_bind_failure_does_not_hide_the_other_schedulers() {
    // The second scheduler lost the bind race; the others served and
    // completed, and their exits are all joined before the error returns.
    let exits = vec![
        SchedulerExit::Completed,
        SchedulerExit::BindFailed,
        SchedulerExit::Completed,
        SchedulerExit::Completed,
    ];
    assert_eq!(aggregate_exits(&exits), Err(SchedulerExit::BindFailed));
}

#[test]
fn a_panicked_scheduler_surfaces_as_the_serve_error() {
    let exits = vec![SchedulerExit::Panicked];
    assert_eq!(aggregate_exits(&exits), Err(SchedulerExit::Panicked));
}

#[test]
fn a_spawn_failure_surfaces_as_the_serve_error() {
    let exits = vec![SchedulerExit::Completed, SchedulerExit::SpawnFailed];
    assert_eq!(aggregate_exits(&exits), Err(SchedulerExit::SpawnFailed));
}
