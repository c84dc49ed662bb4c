//! The supervisor's planning and join logic.
//!
//! The supervisor spins up one pinned single-threaded scheduler per
//! physical CPU. This module computes that plan — which CPU each scheduler
//! is pinned to, the scheduler thread's name, and the name of its task
//! queue — and aggregates the scheduler exits after all of them have been
//! joined, propagating the first failure. The thread spawning, pinning and
//! joining themselves are scheduler work outside the library.

use vstd::prelude::*;
use vstd::slice::slice_to_vec;
use vstd::string::StringSliceAdditionalSpecFns;

verus! {

/// Relies on num_cpus::get_physical: the count of physical CPU cores on
/// the machine, documented to always be at least 1.
#[verifier::external_body]
fn physical_cpu_count() -> (n: usize)
    ensures
        1 <= n,
{
    num_cpus::get_physical()
}

/// The decimal digits of `n`, most significant first, as ASCII bytes.
pub open spec fn spec_decimal(n: nat) -> Seq<u8>
    decreases n,
{
    if n < 10 {
        seq![(n + 48) as u8]
    } else {
        spec_decimal(n / 10) + seq![(n % 10 + 48) as u8]
    }
}

/// `n` written in decimal, as ASCII bytes, most significant digit first.
pub fn decimal_bytes(n: usize) -> (v: Vec<u8>)
    ensures
        v@ == spec_decimal(n as nat),
    decreases n,
{
    if n < 10 {
        let mut v: Vec<u8> = Vec::new();
        v.push((n as u8) + 48);
        proof {
            assert(v@ =~= spec_decimal(n as nat));
        }
        v
    } else {
        let mut v = decimal_bytes(n / 10);
        v.push((n % 10) as u8 + 48);
        proof {
            assert(v@ =~= spec_decimal(n as nat));
        }
        v
    }
}

/// The name of the scheduler thread pinned to CPU `cpu`.
pub open spec fn spec_thread_name(cpu: nat) -> Seq<u8> {
    "gmf_server".spec_bytes() + spec_decimal(cpu)
}

/// The name of the task queue of the scheduler pinned to CPU `cpu`.
pub open spec fn spec_task_queue_name(cpu: nat) -> Seq<u8> {
    "rpc_server_tq".spec_bytes() + spec_decimal(cpu)
}

/// The scheduler thread name for CPU `cpu`: the fixed prefix followed by
/// the CPU number in decimal, as bytes of a UTF-8 string.
pub fn thread_name(cpu: usize) -> (name: Vec<u8>)
    ensures
        name@ == spec_thread_name(cpu as nat),
{
    let mut name = slice_to_vec("gmf_server".as_bytes());
    let mut digits = decimal_bytes(cpu);
    name.append(&mut digits);
    name
}

/// The task queue name for CPU `cpu`: the fixed prefix followed by the
/// CPU number in decimal, as bytes of a UTF-8 string.
pub fn task_queue_name(cpu: usize) -> (name: Vec<u8>)
    ensures
        name@ == spec_task_queue_name(cpu as nat),
{
    let mut name = slice_to_vec("rpc_server_tq".as_bytes());
    let mut digits = decimal_bytes(cpu);
    name.append(&mut digits);
    name
}

/// Where the supervisor places its schedulers.
#[derive(Clone, Copy, Debug, PartialEq, Eq, Structural)]
pub enum SchedulerPlacement {
    /// One scheduler, pinned to the given CPU.
    FixedCpu(usize),
    /// One scheduler, not pinned to any CPU.
    Unbound,
    /// One pinned scheduler per physical CPU.
    AllPhysicalCpus,
}

impl Default for SchedulerPlacement {
    /// Unless the builder says otherwise, every physical CPU serves.
    fn default() -> (d: Self)
        ensures
            d == SchedulerPlacement::AllPhysicalCpus,
    {
        SchedulerPlacement::AllPhysicalCpus
    }
}

/// One scheduler to build: its pinning, and its thread and task queue,
/// named after the scheduler's index. The task queue is created with
/// default shares and a latency-insensitive classification.
pub struct SchedulerPlan {
    /// The index of this scheduler; for a pinned scheduler, the physical
    /// CPU it is pinned to.
    pub cpu: usize,
    /// Whether the scheduler thread is pinned to that CPU.
    pub pinned: bool,
    /// The scheduler thread's name, as UTF-8 bytes.
    pub thread_name: Vec<u8>,
    /// The name of the scheduler's task queue, as UTF-8 bytes.
    pub task_queue_name: Vec<u8>,
}

impl SchedulerPlan {
    /// The plan names this CPU's scheduler and task queue after the CPU.
    pub open spec fn wf(&self) -> bool {
        &&& self.thread_name@ == spec_thread_name(self.cpu as nat)
        &&& self.task_queue_name@ == spec_task_queue_name(self.cpu as nat)
    }
}

/// The plans for `cpu_count` schedulers, one pinned per CPU, in CPU order.
pub fn plans_for_cpus(cpu_count: usize) -> (plans: Vec<SchedulerPlan>)
    ensures
        plans@.len() == cpu_count,
        forall|i: int| 0 <= i < cpu_count ==> (#[trigger] plans@[i]).cpu == i,
        forall|i: int| 0 <= i < cpu_count ==> (#[trigger] plans@[i]).pinned,
        forall|i: int| 0 <= i < cpu_count ==> (#[trigger] plans@[i]).wf(),
{
    let mut plans: Vec<SchedulerPlan> = Vec::new();
    let mut cpu: usize = 0;
    while cpu < cpu_count
        invariant
            cpu <= cpu_count,
            plans@.len() == cpu,
            forall|i: int| 0 <= i < cpu ==> (#[trigger] plans@[i]).cpu == i,
            forall|i: int| 0 <= i < cpu ==> (#[trigger] plans@[i]).pinned,
            forall|i: int| 0 <= i < cpu ==> (#[trigger] plans@[i]).wf(),
        decreases cpu_count - cpu,
    {
        let plan = SchedulerPlan {
            cpu,
            pinned: true,
            thread_name: thread_name(cpu),
            task_queue_name: task_queue_name(cpu),
        };
        plans.push(plan);
        cpu = cpu + 1;
    }
    plans
}

/// The startup plan for a placement: a fixed placement builds one pinned
/// scheduler on the chosen CPU; an unbound one builds one unpinned
/// scheduler; the default covers every physical CPU of this machine, in
/// CPU order. There is always at least one scheduler.
pub fn placement_plan(placement: SchedulerPlacement) -> (plans: Vec<SchedulerPlan>)
    ensures
        plans@.len() >= 1,
        forall|i: int| 0 <= i < plans@.len() ==> (#[trigger] plans@[i]).wf(),
        placement matches SchedulerPlacement::FixedCpu(cpu) ==> plans@.len() == 1
            && plans@[0].cpu == cpu && plans@[0].pinned,
        placement is Unbound ==> plans@.len() == 1 && plans@[0].cpu == 0 && !plans@[0].pinned,
        placement is AllPhysicalCpus ==> forall|i: int|
            0 <= i < plans@.len() ==> (#[trigger] plans@[i]).cpu == i && plans@[i].pinned,
{
    match placement {
        SchedulerPlacement::FixedCpu(cpu) => {
            let mut plans: Vec<SchedulerPlan> = Vec::new();
            plans.push(
                SchedulerPlan {
                    cpu,
                    pinned: true,
                    thread_name: thread_name(cpu),
                    task_queue_name: task_queue_name(cpu),
                },
            );
            plans
        },
        SchedulerPlacement::Unbound => {
            let mut plans: Vec<SchedulerPlan> = Vec::new();
            plans.push(
                SchedulerPlan {
                    cpu: 0,
                    pinned: false,
                    thread_name: thread_name(0),
                    task_queue_name: task_queue_name(0),
                },
            );
            plans
        },
        SchedulerPlacement::AllPhysicalCpus => {
            let cpus = physical_cpu_count();
            plans_for_cpus(cpus)
        },
    }
}

/// The default startup plan: one pinned scheduler per physical CPU of
/// this machine, in CPU order. There is always at least one.
pub fn startup_plan() -> (plans: Vec<SchedulerPlan>)
    ensures
        plans@.len() >= 1,
        forall|i: int| 0 <= i < plans@.len() ==> (#[trigger] plans@[i]).cpu == i,
        forall|i: int| 0 <= i < plans@.len() ==> (#[trigger] plans@[i]).pinned,
        forall|i: int| 0 <= i < plans@.len() ==> (#[trigger] plans@[i]).wf(),
{
    let cpus = physical_cpu_count();
    plans_for_cpus(cpus)
}

/// How one scheduler ended, as seen by the supervisor when joining it.
#[derive(Clone, Copy, Debug, PartialEq, Eq, Structural)]
pub enum SchedulerExit {
    /// The scheduler ran to completion.
    Completed,
    /// The OS refused the scheduler's listening socket.
    BindFailed,
    /// The scheduler thread could not be spawned.
    SpawnFailed,
    /// The scheduler thread panicked.
    Panicked,
}

/// Aggregate the exits of all schedulers after every one of them has been
/// joined: success exactly when every scheduler completed, and otherwise
/// the first failure in CPU order.
pub fn aggregate_exits(exits: &Vec<SchedulerExit>) -> (r: Result<(), SchedulerExit>)
    ensures
        r is Ok <==> forall|i: int|
            0 <= i < exits@.len() ==> (#[trigger] exits@[i]) is Completed,
        r matches Err(e) ==> exists|i: int|
            0 <= i < exits@.len() && (#[trigger] exits@[i]) == e && !(e is Completed) && (
            forall|j: int| 0 <= j < i ==> (#[trigger] exits@[j]) is Completed),
{
    let mut i: usize = 0;
    while i < exits.len()
        invariant
            i <= exits@.len(),
            forall|j: int| 0 <= j < i ==> (#[trigger] exits@[j]) is Completed,
        decreases exits@.len() - i,
    {
        let e = exits[i];
        if !matches!(e, SchedulerExit::Completed) {
            return Err(e);
        }
        i = i + 1;
    }
    Ok(())
}

} // verus!
