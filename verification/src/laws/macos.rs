//! Attempts on macOS: membership, usage, plans, launches, the guardian's custody and
//! retirement.

use vstd::prelude::*;

use crate::evidence::{ChildTermination, Error, RunOutcome};
use crate::macos_attempt::{
    authorization_offset, child_number, close_attempt, force_received, may_begin, may_let_go, owner,
    plan, runtime, startup_end, startup_error, OwnerIdentity, RetirementEvidence, RuntimeEvidence,
    RuntimeFacts, StartupEnd,
};
use crate::macos_deadline::{add, continuous_nanos, remaining_retirement};
use crate::macos_guardian::{
    reserve, stop_signal, take_on, Admission, Custody, CustodyPlan, LauncherEvent, LauncherStep,
};
use crate::macos_inventory::{
    current, decode_pid_inventory, is_closed, kept, metric_name, process_snapshot, process_usage,
    reconcile_inventory, record_snapshot, sample_native, signal_member, usage_sum, BsdInfo,
    Identities, Inventory, ProcessIdentity, ProcessSnapshot, UsageReading, UsageSource,
};
use crate::macos_launch::{
    GuardianEnd, ReleaseEvidence, Startup, StartupCleanup, StartupError, StartupStage,
};
use crate::macos_protocol::{Channel, Frame, Message, Refusal};
use crate::macos_retire::{Answer, Members, RetireAction, RetireStage, Retirement};
use crate::macos_watchdog::Plan;
use crate::model::{CleanupSummary, Fault, FaultKind};
use crate::policy::{BoundaryRequirement, Enforcement, Metric, Policy};
use crate::time::Duration;

verus! {

/// Who belongs to a workload stays in it: whoever is in the root's group or has a parent in
/// the workload is a member, and so is the root itself.
pub proof fn kin_belong_to_the_workload(
    root: i32,
    known: &mut Identities,
    inventory: &Inventory,
    relevant: &Vec<i32>,
    r: Result<Vec<ProcessSnapshot>, String>,
    i: int,
)
    requires
        call_ensures(reconcile_inventory, (root, known, inventory, relevant), r),
        0 <= i < inventory.snapshots@.len(),
    ensures
        inventory.snapshots@[i].process_group == root ==> final(known)@.contains(
            inventory.snapshots@[i].identity,
        ),
        (exists|x: ProcessIdentity|
            final(known)@.contains(x) && #[trigger] x.pid == inventory.snapshots@[i].parent_pid)
            ==> final(known)@.contains(inventory.snapshots@[i].identity),
        current(inventory.snapshots@, root) matches Some(s) ==> final(known)@.contains(s.identity),
{
    let set = final(known)@;
    let snapshot = inventory.snapshots@[i];
    assert(is_closed(root, inventory.snapshots@, set));
    if exists|x: ProcessIdentity| set.contains(x) && #[trigger] x.pid == snapshot.parent_pid {
        assert(crate::macos_inventory::has_number(set, snapshot.parent_pid));
        assert(crate::macos_inventory::drawn_in(root, set, snapshot));
    }
    if snapshot.process_group == root {
        assert(crate::macos_inventory::drawn_in(root, set, snapshot));
    }
}

/// Nobody else is drawn in: a process that was not known, is not the root, is not in its
/// group and has no other member for a parent stays out.
pub proof fn strangers_stay_out(
    root: i32,
    known: &mut Identities,
    inventory: &Inventory,
    relevant: &Vec<i32>,
    r: Result<Vec<ProcessSnapshot>, String>,
    x: ProcessIdentity,
)
    requires
        call_ensures(reconcile_inventory, (root, known, inventory, relevant), r),
        !old(known)@.contains(x),
        current(inventory.snapshots@, root) matches Some(s) ==> s.identity != x,
        forall|i: int|
            0 <= i < inventory.snapshots@.len() && (#[trigger] inventory.snapshots@[i]).identity
                == x ==> inventory.snapshots@[i].process_group != root && forall|y: ProcessIdentity|
                final(known)@.contains(y) && y != x ==> #[trigger] y.pid
                    != inventory.snapshots@[i].parent_pid,
    ensures
        !final(known)@.contains(x),
{
    let set = final(known)@;
    let other = set.remove(x);
    let start = kept(root, old(known)@, inventory.snapshots@, inventory.unresolved@);
    assert(!start.contains(x));
    assert(start.subset_of(other));
    assert(is_closed(root, inventory.snapshots@, other)) by {
        assert forall|i: int|
            0 <= i < inventory.snapshots@.len() && crate::macos_inventory::drawn_in(
                root,
                other,
                #[trigger] inventory.snapshots@[i],
            ) implies other.contains(inventory.snapshots@[i].identity) by {
            let snapshot = inventory.snapshots@[i];
            if snapshot.process_group != root {
                let y = choose|y: ProcessIdentity|
                    other.contains(y) && #[trigger] y.pid == snapshot.parent_pid;
                assert(set.contains(y) && y.pid == snapshot.parent_pid);
                assert(crate::macos_inventory::has_number(set, snapshot.parent_pid));
            }
            assert(crate::macos_inventory::drawn_in(root, set, snapshot));
            assert(set.contains(snapshot.identity));
        }
    }
}

/// Members that are gone are forgotten: who is a member is either listed or was known and
/// cannot be looked at.
pub proof fn gone_members_are_forgotten(
    root: i32,
    known: &mut Identities,
    inventory: &Inventory,
    relevant: &Vec<i32>,
    r: Result<Vec<ProcessSnapshot>, String>,
    x: ProcessIdentity,
)
    requires
        call_ensures(reconcile_inventory, (root, known, inventory, relevant), r),
        final(known)@.contains(x),
    ensures
        (old(known)@.contains(x) && inventory.unresolved@.contains(x.pid)) || exists|i: int|
            0 <= i < inventory.snapshots@.len() && (#[trigger] inventory.snapshots@[i]).identity
                == x,
{
    let snapshots = inventory.snapshots@;
    let start = kept(root, old(known)@, snapshots, inventory.unresolved@);
    let listed = Set::new(
        |y: ProcessIdentity|
            exists|i: int| 0 <= i < snapshots.len() && (#[trigger] snapshots[i]).identity == y,
    );
    let other = listed.union(
        old(known)@.filter(|y: ProcessIdentity| inventory.unresolved@.contains(y.pid)),
    );
    assert(start.subset_of(other)) by {
        assert forall|y: ProcessIdentity| start.contains(y) implies other.contains(y) by {
            current_is_listed(snapshots, root);
            current_is_listed(snapshots, y.pid);
        }
    }
    assert(is_closed(root, snapshots, other)) by {
        assert forall|i: int|
            0 <= i < snapshots.len() && crate::macos_inventory::drawn_in(
                root,
                other,
                #[trigger] snapshots[i],
            ) implies other.contains(snapshots[i].identity) by {
            assert(listed.contains(snapshots[i].identity));
        }
    }
    assert(other.contains(x));
}

proof fn current_is_listed(snapshots: Seq<ProcessSnapshot>, pid: i32)
    ensures
        current(snapshots, pid) matches Some(s) ==> s.identity.pid == pid && exists|i: int|
            0 <= i < snapshots.len() && #[trigger] snapshots[i] == s,
    decreases snapshots.len(),
{
    if snapshots.len() > 0 {
        if snapshots.last().identity.pid == pid {
            assert(snapshots[snapshots.len() - 1] == snapshots.last());
        } else {
            current_is_listed(snapshots.drop_last(), pid);
            if current(snapshots, pid) is Some {
                let s = current(snapshots, pid)->0;
                let i = choose|i: int|
                    0 <= i < snapshots.drop_last().len() && #[trigger] snapshots.drop_last()[i]
                        == s;
                assert(snapshots[i] == s);
            }
        }
    }
}

/// The members that are listed are the workload's processes that still run; where a member's
/// state is unclear nobody is said to be gone.
pub proof fn the_living_are_listed(
    root: i32,
    known: &mut Identities,
    inventory: &Inventory,
    relevant: &Vec<i32>,
    r: Result<Vec<ProcessSnapshot>, String>,
    i: int,
)
    requires
        call_ensures(reconcile_inventory, (root, known, inventory, relevant), r),
        0 <= i < inventory.snapshots@.len(),
    ensures
        r matches Ok(list) ==> (list@.contains(inventory.snapshots@[i])
            <==> !inventory.snapshots@[i].zombie && final(known)@.contains(
            inventory.snapshots@[i].identity,
        )),
        r is Err <==> exists|k: int|
            0 <= k < inventory.unresolved@.len() && (relevant@.contains(
                #[trigger] inventory.unresolved@[k],
            ) || exists|x: ProcessIdentity|
                final(known)@.contains(x) && #[trigger] x.pid == inventory.unresolved@[k]),
{
    living_are_members(inventory.snapshots@, final(known)@, inventory.snapshots@[i]);
    let unresolved = inventory.unresolved@;
    let set = final(known)@;
    if exists|k: int|
        0 <= k < unresolved.len() && (relevant@.contains(#[trigger] unresolved[k]) || exists|
            x: ProcessIdentity,
        |
            set.contains(x) && #[trigger] x.pid == unresolved[k]) {
        let k = choose|k: int|
            0 <= k < unresolved.len() && (relevant@.contains(#[trigger] unresolved[k]) || exists|
                x: ProcessIdentity,
            |
                set.contains(x) && #[trigger] x.pid == unresolved[k]);
        assert(relevant@.contains(unresolved[k]) || crate::macos_inventory::has_number(
            set,
            unresolved[k],
        ));
    }
}

proof fn living_are_members(
    snapshots: Seq<ProcessSnapshot>,
    set: Set<ProcessIdentity>,
    s: ProcessSnapshot,
)
    ensures
        crate::macos_inventory::living(snapshots, set).contains(s) <==> snapshots.contains(s)
            && !s.zombie && set.contains(s.identity),
    decreases snapshots.len(),
{
    if snapshots.len() > 0 {
        let front = snapshots.drop_last();
        let last = snapshots.last();
        living_are_members(front, set, s);
        let rest = crate::macos_inventory::living(front, set);
        assert(snapshots =~= front.push(last));
        if snapshots.contains(s) {
            let i = choose|i: int| 0 <= i < snapshots.len() && snapshots[i] == s;
            if i < front.len() {
                assert(front[i] == s);
            }
        }
        if front.contains(s) {
            let i = choose|i: int| 0 <= i < front.len() && front[i] == s;
            assert(snapshots[i] == s);
        }
        if s == last {
            assert(snapshots[snapshots.len() - 1] == s);
        }
        if rest.contains(s) {
            let i = choose|i: int| 0 <= i < rest.len() && rest[i] == s;
            assert(rest.push(last)[i] == s);
        }
        if rest.push(last).contains(s) {
            let i = choose|i: int| 0 <= i < rest.push(last).len() && rest.push(last)[i] == s;
            if i < rest.len() {
                assert(rest[i] == s);
            }
        }
        assert(rest.push(last)[rest.len() as int] == last);
    }
}

/// What a list of readings comes to together; a member that is gone uses nothing.
pub open spec fn together(readings: Seq<UsageReading>) -> nat
    decreases readings.len(),
{
    if readings.len() == 0 {
        0
    } else {
        together(readings.drop_first()) + match readings[0].usage {
            Ok(bytes) => bytes as nat,
            Err(_) => 0,
        }
    }
}

proof fn together_ends(readings: Seq<UsageReading>)
    requires
        readings.len() > 0,
    ensures
        together(readings) == together(readings.drop_last()) + match readings.last().usage {
            Ok(bytes) => bytes as nat,
            Err(_) => 0,
        },
    decreases readings.len(),
{
    if readings.len() > 1 {
        together_ends(readings.drop_first());
        assert(readings.drop_first().drop_last() =~= readings.drop_last().drop_first());
    } else {
        assert(readings.drop_last() =~= Seq::empty());
        assert(readings.drop_first() =~= Seq::empty());
    }
}

proof fn sums_are_told(readings: Seq<UsageReading>)
    ensures
        (forall|i: int|
            0 <= i < readings.len() ==> ((#[trigger] readings[i]).usage is Ok
                || readings[i].usage->Err_0.os_code == Some(3i32))) ==> (usage_sum(
            readings,
        ) matches Ok(total) && total == if together(readings) <= u64::MAX {
            together(readings)
        } else {
            u64::MAX as nat
        }),
        (exists|i: int|
            0 <= i < readings.len() && (#[trigger] readings[i]).usage is Err
                && readings[i].usage->Err_0.os_code != Some(3i32)) ==> usage_sum(readings) is Err,
    decreases readings.len(),
{
    if readings.len() > 0 {
        let front = readings.drop_last();
        sums_are_told(front);
        together_ends(readings);
        assert(readings.last() == readings[readings.len() - 1]);
        if exists|i: int|
            0 <= i < readings.len() && (#[trigger] readings[i]).usage is Err
                && readings[i].usage->Err_0.os_code != Some(3i32) {
            let i = choose|i: int|
                0 <= i < readings.len() && (#[trigger] readings[i]).usage is Err
                    && readings[i].usage->Err_0.os_code != Some(3i32);
            if i < front.len() {
                assert(front[i] == readings[i]);
            }
        } else {
            assert forall|i: int| 0 <= i < front.len() implies ((#[trigger] front[i]).usage is Ok
                || front[i].usage->Err_0.os_code == Some(3i32)) by {
                assert(front[i] == readings[i]);
            }
        }
    }
}

/// A workload's usage is the sum over its members, at most the largest number there is;
/// members that are gone count for nothing, and one that cannot be read is a fault.
pub proof fn usages_are_summed(readings: &Vec<UsageReading>, r: Result<u64, String>)
    requires
        call_ensures(sample_native, (readings,), r),
    ensures
        (forall|i: int|
            0 <= i < readings@.len() ==> ((#[trigger] readings@[i]).usage is Ok
                || readings@[i].usage->Err_0.os_code == Some(3i32))) ==> (r matches Ok(total)
            && total == if together(readings@) <= u64::MAX {
            together(readings@)
        } else {
            u64::MAX as nat
        }),
        (exists|i: int|
            0 <= i < readings@.len() && (#[trigger] readings@[i]).usage is Err
                && readings@[i].usage->Err_0.os_code != Some(3i32)) ==> r is Err,
{
    sums_are_told(readings@);
}

/// Each metric is read from its own source and is called by its own name.
pub proof fn metrics_are_read_at_their_source(metric: Metric, r: UsageSource, name: &'static str)
    requires
        call_ensures(process_usage, (metric,), r),
        call_ensures(metric_name, (metric,), name),
    ensures
        metric == Metric::Rss <==> r == UsageSource::ResidentSize,
        metric == Metric::Virtual <==> r == UsageSource::VirtualSize,
        metric == Metric::Rss ==> name == "rss-sum",
        metric == Metric::Virtual ==> name == "virtual-size-sum",
        metric == Metric::Native || metric == Metric::PhysicalFootprint ==> r
            == UsageSource::PhysicalFootprint && name == "physical-footprint-sum",
{
}

/// A member is signalled only while the process of its number is the one that was listed.
pub proof fn only_the_listed_process_is_signalled(
    listed: ProcessSnapshot,
    now: Result<ProcessSnapshot, Fault>,
    r: Result<bool, String>,
)
    requires
        call_ensures(signal_member, (listed, now), r),
    ensures
        r == Ok::<bool, String>(true) ==> (now matches Ok(s) && s.identity.pid
            == listed.identity.pid && s.identity.start_seconds == listed.identity.start_seconds
            && s.identity.start_microseconds == listed.identity.start_microseconds),
        (now matches Ok(s) && s.identity == listed.identity) ==> r == Ok::<bool, String>(true),
        (now matches Err(fault) && fault.os_code == Some(3i32)) ==> r == Ok::<bool, String>(false),
        (now matches Err(fault) && fault.os_code != Some(3i32)) ==> r is Err,
{
}

/// A process is described by its own facts, and its end by its status; a reply of the wrong
/// size describes nobody.
pub proof fn processes_are_described_by_their_facts(
    pid: i32,
    read: i32,
    size: i32,
    info: BsdInfo,
    error: Fault,
    r: Result<ProcessSnapshot, Fault>,
)
    requires
        call_ensures(process_snapshot, (pid, read, size, info, error), r),
    ensures
        r is Ok <==> read == size,
        r matches Ok(s) ==> s.identity.pid == pid && s.identity.start_seconds == info.start_seconds
            && s.identity.start_microseconds == info.start_microseconds && (s.zombie
            <==> info.status == 5) && (info.ppid <= i32::MAX ==> s.parent_pid == info.ppid) && (
        info.pgid <= i32::MAX ==> s.process_group == info.pgid),
{
}

/// A process that could not be described is unresolved unless it is gone.
pub proof fn undescribed_processes_are_unresolved(
    inventory: &mut Inventory,
    pid: i32,
    found: Result<ProcessSnapshot, Fault>,
)
    requires
        call_ensures(record_snapshot, (inventory, pid, found), ()),
    ensures
        found matches Ok(s) ==> final(inventory).snapshots@ == old(inventory).snapshots@.push(s)
            && final(inventory).unresolved@ == old(inventory).unresolved@,
        (found matches Err(fault) && fault.os_code == Some(3i32)) ==> final(inventory).unresolved@
            == old(inventory).unresolved@ && final(inventory).snapshots@ == old(
            inventory).snapshots@,
        (found matches Err(fault) && fault.os_code != Some(3i32)) ==> final(inventory).unresolved@
            == old(inventory).unresolved@.push(pid),
{
}

/// A listing that filled its buffer may be cut short, and is refused.
pub proof fn full_listings_are_refused(
    kind: u32,
    pids: &Vec<i32>,
    filled: i32,
    error: &Fault,
    r: Result<Vec<i32>, String>,
)
    requires
        call_ensures(decode_pid_inventory, (kind, pids, filled, error), r),
    ensures
        r is Ok ==> 0 <= filled < 4 * pids@.len() && filled % 4 == 0,
        filled < 0 || filled >= 4 * pids@.len() || filled % 4 != 0 ==> r is Err,
        kind == 1 && filled == 0 ==> r is Err,
{
}

/// An attempt begins only without inspections that are still out, not with hard enforcement,
/// and not in a sealed boundary.
pub proof fn attempts_begin_where_they_may(obligations: usize, policy: &Policy, r: Result<(), Error>)
    requires
        call_ensures(may_begin, (obligations, policy), r),
    ensures
        r is Ok ==> obligations == 0 && policy.enforcement != Enforcement::Hard && policy.boundary
            == BoundaryRequirement::Standard,
        r matches Err(error) ==> (obligations != 0 && error.code == "MCSETUP-INSPECTION-PENDING"
            || obligations == 0 && policy.enforcement == Enforcement::Hard && error.code
            == "MCSETUP-HARD-UNAVAILABLE" || obligations == 0 && policy.enforcement
            != Enforcement::Hard && policy.boundary == BoundaryRequirement::Sealed && error.code
            == "MCBOUNDARY-UNSUPPORTED"),
{
}

/// A first attempt counts from the run's origin and a later one from its own; its work ends
/// when it was told to, else when its deadline's duration is over; its start may take five
/// seconds, and never longer than its work.
pub proof fn plans_follow_the_policy(
    policy: &Policy,
    restart_attempt: u32,
    run_origin: Option<u64>,
    work_expires: Option<u64>,
    tick: u64,
    r: Result<Plan, Error>,
)
    requires
        call_ensures(plan, (policy, restart_attempt, run_origin, work_expires, tick), r),
        r is Ok,
    ensures
        ({
            let p = r->Ok_0;
            &&& restart_attempt == 0 && run_origin is Some ==> p.attempt_origin == run_origin->0
            &&& restart_attempt == 0 && run_origin is None ==> p.attempt_origin == tick
            &&& restart_attempt != 0 ==> p.attempt_origin == tick
            &&& work_expires is Some ==> p.work_expiry == work_expires
            &&& work_expires is None && policy.deadline is None ==> p.work_expiry is None
            &&& work_expires is None && policy.deadline is Some ==> (p.work_expiry matches Some(end)
                && end == p.attempt_origin + policy.deadline->0.duration@)
            &&& p.work_expiry is None ==> p.startup_expiry == p.attempt_origin + 5_000_000_000
            &&& p.work_expiry matches Some(end) ==> p.startup_expiry <= end && p.startup_expiry
                <= p.attempt_origin + 5_000_000_000 && (p.startup_expiry == end || p.startup_expiry
                == p.attempt_origin + 5_000_000_000 || p.startup_expiry == u64::MAX)
        }),
{
}

/// A workload is called retired only where it is proved gone in time and its release is
/// known; its retirement has three seconds from the moment of force, and its word one more.
pub proof fn retirements_are_in_time(
    plan: Plan,
    facts: RuntimeFacts,
    retired: Result<u64, Fault>,
    r: Result<RuntimeEvidence, Error>,
)
    requires
        call_ensures(runtime, (plan, facts, retired), r),
    ensures
        retired is Err ==> r is Err,
        r matches Ok(evidence) ==> {
            &&& evidence.force_expires == facts.force
            &&& evidence.retirement_expires == facts.force + 3_000_000_000
            &&& evidence.delivery_expires == evidence.retirement_expires + 1_000_000_000
            &&& evidence.terminal_observed == facts.terminal && evidence.target_pid
                == facts.target_pid && evidence.release == facts.release
            &&& evidence.attempt_origin == plan.attempt_origin && evidence.work_expires
                == plan.work_expiry
            &&& facts.run_origin is Some ==> evidence.run_origin == facts.run_origin->0
            &&& facts.run_origin is None ==> evidence.run_origin == plan.attempt_origin
            &&& facts.complete && facts.release != ReleaseEvidence::Unknown && retired->Ok_0
                <= evidence.retirement_expires ==> evidence.retirement == (
            RetirementEvidence::Complete { at: retired->Ok_0 })
            &&& !facts.complete || facts.release == ReleaseEvidence::Unknown || retired->Ok_0
                > evidence.retirement_expires ==> evidence.retirement == (
            RetirementEvidence::Unconfirmed { last_owner: facts.owner })
        },
{
}

/// A guardian's word of its force moves the end to the earlier of the two.
pub proof fn force_is_told_once(evidence: RuntimeEvidence, receipt: u64, r: RuntimeEvidence)
    requires
        call_ensures(force_received, (evidence, receipt), r),
    ensures
        receipt == 0 ==> r.force_requested is None && r.terminal_observed
            == evidence.terminal_observed,
        receipt != 0 ==> r.force_requested == Some(receipt) && r.terminal_observed <= receipt
            && r.terminal_observed <= evidence.terminal_observed && (r.terminal_observed == receipt
            || r.terminal_observed == evidence.terminal_observed),
        r.retirement == evidence.retirement && r.force_expires == evidence.force_expires,
{
}

/// A start that ran out of time ended by its deadline just where that had fallen; else a
/// signal ended it, or it failed.
pub proof fn starts_end_by_what_ended_them(
    policy: &Policy,
    work_expiry: Option<u64>,
    kind: FaultKind,
    interruption: Option<i32>,
    observed: Option<u64>,
    clock: &Result<u64, Fault>,
    r: Option<StartupEnd>,
)
    requires
        call_ensures(
            startup_end,
            (policy, work_expiry, kind, interruption, observed, clock),
            r,
        ),
    ensures
        r matches Some(StartupEnd::Expired(deadline)) ==> policy.deadline == Some(deadline) && (
        work_expiry matches Some(expiry) && (observed matches Some(at) ==> at >= expiry) && (
        observed is None ==> (clock matches Ok(tick) && *tick >= expiry))) && (kind
            == FaultKind::TimedOut || interruption is Some),
        r matches Some(StartupEnd::Interrupted(signal)) ==> interruption == Some(signal),
        interruption is None && kind != FaultKind::TimedOut ==> r is None,
        interruption is Some ==> r is Some,
        (policy.deadline is Some && kind == FaultKind::TimedOut && (work_expiry matches Some(expiry)
            && (observed matches Some(at) && at >= expiry))) ==> (r matches Some(
            StartupEnd::Expired(_),
        )),
{
}

/// An attempt that is over lets its child go only where the workload is empty and no
/// inspection is out; else the guardian keeps it, and that is a finding.
pub proof fn nothing_is_let_go_before_it_is_empty(
    outcome: &mut RunOutcome,
    settled: bool,
    reaped: Result<(), Fault>,
    disarmed: Result<(), Fault>,
    r: crate::evidence::BackendCleanupFacts,
    cleanup: &CleanupSummary,
    go: bool,
)
    requires
        call_ensures(close_attempt, (outcome, settled, reaped, disarmed), r),
        call_ensures(may_let_go, (cleanup, settled), go),
        cleanup@ == old(outcome).cleaned(),
    ensures
        go <==> cleanup.workload_empty == Some(true) && settled,
        r.direct_child_reaped <==> go && reaped is Ok,
        r.helpers_reaped <==> go && disarmed is Ok,
        r.workload_empty == cleanup.workload_empty,
        !r.containment_removed,
        final(outcome)@ == old(outcome)@,
        !go || reaped is Err || disarmed is Err ==> r.errors@.len() > 0,
{
    assert(crate::model::texts(r.errors@).len() == r.errors@.len());
    assert(crate::model::lines_of(final(outcome).cleaned().errors).len() == final(
        outcome).cleaned().errors.len());
}

/// Who owns an attempt is its guardian by number and birth; nobody without a number does.
pub proof fn owners_are_named_by_birth(pid: u32, identity: ProcessIdentity, r: Option<OwnerIdentity>)
    requires
        call_ensures(owner, (pid, identity), r),
    ensures
        r matches Some(o) ==> o.pid == pid && pid != 0 && o.start_identity
            == identity.start_seconds * 1_000_000 + identity.start_microseconds,
        pid == 0 ==> r is None,
        pid != 0 && identity.start_seconds <= 1_000_000_000_000 && identity.start_microseconds
            < 1_000_000 ==> r is Some,
{
}

/// Ticks are nanoseconds by the clock's own ratio, and instants add up or are refused.
pub proof fn instants_add_up(
    origin: u64,
    span: Duration,
    sum: Result<u64, Fault>,
    force: u64,
    observed: u64,
    reserve: Duration,
    left: Result<Duration, Fault>,
    ticks: u64,
    nanos: Result<u64, Fault>,
)
    requires
        call_ensures(add, (origin, span), sum),
        call_ensures(remaining_retirement, (force, observed, reserve), left),
        call_ensures(continuous_nanos, (0i32, ticks, 1u32, 1u32), nanos),
    ensures
        sum is Ok <==> origin + span@ <= u64::MAX,
        sum matches Ok(end) ==> end == origin + span@,
        left is Ok <==> force + reserve@ <= u64::MAX,
        left matches Ok(span) ==> (observed <= force + reserve@ ==> observed + span@ == force
            + reserve@) && (observed > force + reserve@ ==> span@ == 0),
        nanos == Ok::<u64, Fault>(ticks),
{
    assert((ticks as nat * 1) / 1 == ticks);
}

/// A start that failed says whether its target was released, and what is left of it: nothing
/// only where its guardian is gone.
pub proof fn failed_starts_say_what_was_released(
    startup: Startup,
    error: Fault,
    end: GuardianEnd,
    r: StartupError,
)
    requires
        call_ensures(Startup::fail, (startup, error, end), r),
    ensures
        r.release == startup.release,
        r.release_sent <==> (startup.release matches ReleaseEvidence::Issued { .. }),
        r.exec_confirmed <==> (startup.release matches ReleaseEvidence::Issued {
            exec_confirmed,
            ..
        } && exec_confirmed),
        r.error == error && r.phase == startup.phase && r.launcher_pid == startup.launcher_pid,
        end is Unreaped ==> r.cleanup == StartupCleanup::Incomplete,
        (end matches GuardianEnd::Reaped { success } && (success || !startup.configured))
            ==> r.cleanup == StartupCleanup::Complete,
        (end matches GuardianEnd::Reaped { success } && !success && startup.configured)
            ==> r.cleanup == StartupCleanup::Unknown,
{
}

/// A release is unknown from when it is asked for until its receipt; the receipt tells the
/// instant, and the target runs only once that is confirmed.
pub proof fn releases_are_known_by_their_receipt(
    a: &mut Startup,
    b: &mut Startup,
    came: Option<Message>,
    receipt: Result<(), Fault>,
    c: &mut Startup,
    runs: Result<u64, Refusal>,
)
    requires
        call_ensures(Startup::release_sent, (a,), ()),
        call_ensures(Startup::release_receipt, (b, came), receipt),
        call_ensures(Startup::target_runs, (c, came), runs),
    ensures
        final(a).release == ReleaseEvidence::Unknown,
        receipt is Ok <==> (came matches Some(Message::ReleaseIssued { .. })),
        (came matches Some(Message::ReleaseIssued { at })) ==> final(b).release == (
        ReleaseEvidence::Issued { at: came->0->ReleaseIssued_at, exec_confirmed: false }),
        receipt is Err ==> final(b).release == old(b).release,
        runs is Ok <==> (came matches Some(Message::Released)),
        runs matches Ok(at) ==> final(c).stage == StartupStage::Running && final(c).release == (
        ReleaseEvidence::Issued { at, exec_confirmed: true }),
        (came matches Some(Message::Failure { errno })) ==> runs == Err::<u64, Refusal>(
            Refusal::Native(came->0->Failure_errno),
        ),
{
}

/// A start that failed at its target is a spawn failure, any other one of the guardian's
/// setup; it may be alive unless its cleanup is complete.
pub proof fn start_errors_name_the_failure(
    startup: &StartupError,
    helper: &str,
    cwd: &str,
    tick: u64,
    evidence: Option<RuntimeEvidence>,
    r: Error,
)
    requires
        call_ensures(startup_error, (startup, helper, cwd, tick, evidence), r),
    ensures
        ({
            let target = startup.phase == crate::macos_launch::StartupPhase::TargetExec;
            &&& !target ==> r.code == "MCSETUP-GUARDIAN"
            &&& target && startup.error.kind == FaultKind::NotFound ==> r.code
                == "MCSPAWN-NOT-FOUND"
            &&& target && startup.error.kind == FaultKind::PermissionDenied ==> r.code
                == "MCSPAWN-NOT-EXECUTABLE"
            &&& r.os_code == startup.error.os_code && r.target_pid == startup.launcher_pid
            &&& r.target_released == startup.release_sent
            &&& r.workload_may_be_alive <==> startup.cleanup != StartupCleanup::Complete
            &&& r.restart_safety is Some <==> startup.cleanup == StartupCleanup::Complete
            &&& startup.release matches ReleaseEvidence::Issued { at, .. } ==> (
            r.authorization_offset matches Some(offset) && (at >= tick ==> tick + offset@ == at))
            &&& !(startup.release matches ReleaseEvidence::Issued { .. })
                ==> r.authorization_offset is None
        }),
{
    assert(r@.restart_safety is Some <==> r.restart_safety is Some);
}

/// A guardian takes on a start only before its startup and its work have expired, and only
/// with room for the retirement behind them.
pub proof fn guardians_start_in_time(
    plan: CustodyPlan,
    now: u64,
    r: Admission,
    reserved: Result<(), Fault>,
)
    requires
        call_ensures(take_on, (plan, now), r),
        call_ensures(reserve, (plan,), reserved),
    ensures
        r == Admission::Admitted <==> now < plan.startup && (plan.work matches Some(work) ==> now
            < work),
        plan.work matches Some(work) ==> (reserved is Ok <==> work + plan.grace + 4_000_000_000
            <= u64::MAX),
        plan.work is None ==> (reserved is Ok <==> plan.startup + plan.grace + 4_000_000_000
            <= u64::MAX),
{
}

/// A guardian ends a released workload when its work expires, gives it the plan's grace, and
/// ends one that is not released when the start expires, without any; a frontend that is
/// silent for two seconds ends it too.
pub proof fn guardians_mind_the_clock(c: &mut Custody, now: u64, r: Result<bool, Fault>)
    requires
        old(c).state.wf(),
        call_ensures(Custody::clock, (c, now), r),
        old(c).state.terminal is None && !old(c).state.timer_disabled,
        now >= old(c).state.last_control,
    ensures
        old(c).state.released && now - old(c).state.last_control >= 2_000_000_000 ==> final(
            c).state.terminal == Some(now) && final(c).state.force_at == Some(now),
        old(c).state.released && now - old(c).state.last_control < 2_000_000_000 ==> match old(
            c).plan.work {
            Some(work) => if now < work {
                final(c).state.terminal is None
            } else {
                work + old(c).plan.grace <= u64::MAX ==> final(c).state.terminal == Some(work)
                    && final(c).state.force_at == Some((work + old(c).plan.grace) as u64)
            },
            None => final(c).state.terminal is None,
        },
        !old(c).state.released && now < old(c).plan.startup ==> final(c).state.terminal is None,
        !old(c).state.released && now >= old(c).plan.startup ==> final(c).state.terminal == Some(
            old(c).plan.startup,
        ) && final(c).state.force_at == Some(old(c).plan.startup),
{
}

/// Force is used from the instant at which it is due, and not before.
pub proof fn force_is_used_when_due(c: &mut Custody, now: u64, clock: u64, r: bool)
    requires
        old(c).state.wf(),
        call_ensures(Custody::force, (c, now, clock), r),
    ensures
        r <==> old(c).state.target && (old(c).state.force_at matches Some(at) && now >= at),
        r && old(c).state.force_requested is None ==> final(c).state.force_requested == Some(clock),
        !(old(c).state.force_at matches Some(at) && now >= at) ==> final(c).state == old(c).state,
{
}

/// Signals that end a workload are the five that ask for it.
pub proof fn stops_are_asked_for_by_name(signal: i32, r: bool)
    requires
        call_ensures(stop_signal, (signal,), r),
    ensures
        r <==> signal == 9 || signal == 15 || signal == 2 || signal == 1 || signal == 3,
{
}

/// A launcher's word is heeded in its turn: it is prepared once, gone when it closes before
/// its release, and its failure is passed on.
pub proof fn launchers_are_heard_in_turn(
    c: &mut Custody,
    event: LauncherEvent,
    now: u64,
    r: LauncherStep,
)
    requires
        old(c).state.wf(),
        old(c).state.launcher,
        call_ensures(Custody::launcher_said, (c, event, now), r),
    ensures
        event is Ready && !old(c).state.prepared && old(c).state.terminal is None ==> r
            == LauncherStep::SendPrepared && final(c).state.prepared,
        event is Closed && old(c).state.released && !old(c).state.confirmed ==> r
            == LauncherStep::ConfirmExec,
        event is Closed && !old(c).state.released ==> r == LauncherStep::Nothing && final(
            c).state.terminal is Some && !final(c).state.launcher,
        event matches LauncherEvent::Failure(errno) ==> r == LauncherStep::SendFailure(errno)
            && final(c).state.terminal is Some,
        event is Nothing ==> final(c).state == old(c).state,
{
}

/// A message counts only with this run's number and as the next one; it is then taken off
/// the input whole.
pub proof fn messages_come_in_order(
    channel: &mut Channel,
    frame: Frame,
    r: Result<Message, Fault>,
)
    requires
        old(channel).input@.len() >= 2,
        call_ensures(Channel::accept, (channel, Ok::<Frame, Fault>(frame)), r),
        old(channel).received < u64::MAX,
    ensures
        r is Ok <==> frame.version == 2 && frame.run == old(channel).run && frame.sequence == old(
            channel).received,
        r matches Ok(message) ==> message == frame.message && final(channel).received == old(
            channel).received + 1 && final(channel).input@ == old(channel).input@.skip(
            2 + old(channel).input@[0] * 256 + old(channel).input@[1],
        ),
        r is Err ==> *final(channel) == *old(channel),
{
}

/// A retirement stops the workload first, and looks whether it is empty until it is or its
/// time is over; only an inventory that shows it empty makes it so.
pub proof fn retirements_look_until_empty(
    t: &mut Retirement,
    members: Members,
    now: Duration,
    r: RetireAction,
    u: &mut Retirement,
    next: RetireAction,
)
    requires
        old(t).wf(),
        old(t).stage == RetireStage::Inventory,
        call_ensures(Retirement::listed, (t, Ok::<Option<Members>, String>(Some(members)), now), r),
        old(u).wf(),
        old(u).stage == RetireStage::Next,
        call_ensures(Retirement::next, (u, now), next),
    ensures
        members.empty ==> final(t).empty && r == RetireAction::Look,
        !members.empty ==> !final(t).empty && r is Pause && (final(t).forced <==> old(t).forced
            || (now@ >= old(t).started@ + old(t).grace@ || old(t).grace@ == 0)),
        now@ < old(u).deadline@ ==> (next is Poll || next is Ask) && final(u).empty == old(u).empty,
        now@ >= old(u).deadline@ ==> next == RetireAction::Look && final(u).empty == old(u).empty
            && (!old(u).empty && old(u).errors@.len() == 0 ==> final(u).errors@.len() == 1),
{
    let listed = Ok::<Option<Members>, String>(Some(members));
    let answer = choose|answer: Answer| #[trigger]
        crate::macos_retire::answered(listed, now@, old(t).deadline@, answer);
}

/// What a retirement gives back: an empty workload only where it was shown, force only where
/// it was used.
pub proof fn retirements_tell_what_they_did(t: Retirement, r: CleanupSummary)
    requires
        t.wf(),
        t.stage == RetireStage::Over,
        call_ensures(Retirement::summary, (t,), r),
    ensures
        t.empty ==> r.workload_empty == Some(true),
        !t.empty ==> r.workload_empty is None,
        r.graceful_attempted <==> t.stops && t.signal != 9,
        r.force_attempted <==> t.stops && t.forced,
        !r.direct_child_reaped,
        r.errors@.len() == t.errors@.len() + (if t.exit_error is Some {
            1int
        } else {
            0
        }),
{
}

/// A retirement by a signal is graceful, one by the killing signal forced from the start.
pub proof fn retirements_begin_as_asked(
    signal: i32,
    grace: Duration,
    deadline: Duration,
    query: Option<u64>,
    stored: Option<ChildTermination>,
    now: Duration,
    r: (Retirement, RetireAction),
)
    requires
        call_ensures(Retirement::begin, (signal, grace, deadline, query, stored, now), r),
    ensures
        r.1 == (RetireAction::Stop { signal, grace, deadline, abandon: query }),
        r.0.graceful <==> signal != 9,
        r.0.forced <==> signal == 9,
        r.0.stored == stored && !r.0.empty && r.0.started == now,
{
}

/// Numbers that no native call can name are refused.
pub proof fn child_numbers_fit(pid: u32, r: Result<i32, Error>)
    requires
        call_ensures(child_number, (pid,), r),
    ensures
        r is Ok <==> pid <= i32::MAX,
        r matches Ok(n) ==> n == pid,
        r matches Err(error) ==> error.code == "MCSPAWN-PID-RANGE",
{
}

} // verus!
