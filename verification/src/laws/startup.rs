//! How attempts on macOS start, are looked into, and are retired.

use vstd::prelude::*;

use crate::backend::BackendInfo;
use crate::evidence::{
    BackendCleanupFacts, BoundaryMechanismEvidence, ChildTermination, DeadlineEvidence, Error,
    LaunchEvidence, RestartSafetyProof, RunOutcome,
};
use crate::macos_attempt::{
    authorization_offset, cancelled_runtime, failed_runtime, gated_execution_evidence,
    launch_deadlines, startup_cleanup, startup_evidence, startup_facts, startup_outcome,
    Cancellation, RuntimeFacts, StandardLaunchFacts, StartupEnd,
};
use crate::macos_discovery::{Discovery, DiscoveryStage, DiscoveryStep};
use crate::macos_inventory::{Identities, Inventory};
use crate::macos_launch::{ReleaseEvidence, StartupCleanup, StartupError};
use crate::macos_retire::{
    inspected, left_empty, may_offer, offered, worker_runs, InspectionAdmission, Members, Offer,
    OfferStep, RetireAction, RetireStage, Retirement,
};
use crate::macos_watchdog::Plan;
use crate::model::{CleanupSummary, Fault};
use crate::policy::{AttemptContext, Deadline, Policy};
use crate::time::Duration;

verus! {

/// A launch gets five seconds at the most, and no more than the policy, the supervision or
/// the work's own end leave it; its cleanup has a fixed time behind that.
pub proof fn launches_are_bounded(
    context: AttemptContext,
    policy: &Policy,
    work_expiry: Option<u64>,
    tick: u64,
    now: Duration,
    r: (Duration, Duration),
    other: Option<u64>,
    t: (Duration, Duration),
)
    requires
        call_ensures(launch_deadlines, (context, policy, work_expiry, tick, now), r),
        call_ensures(launch_deadlines, (context, policy, other, tick, now), t),
    ensures
        r.0@ <= 5_000_000_000,
        policy.deadline matches Some(deadline) ==> r.0@ <= deadline.duration@,
        context.supervision_deadline_remaining matches Some(left) ==> r.0@ <= left@,
        work_expiry matches Some(expiry) ==> r.0@ <= now@ + (if expiry > tick {
            expiry - tick
        } else {
            0
        }),
        policy.deadline is None && context.supervision_deadline_remaining is None && work_expiry
            is None ==> r.0@ == 5_000_000_000,
        r.1@ > r.0@ && r.1@ - r.0@ == t.1@ - t.0@,
        work_expiry is None ==> t.0@ <= r.0@,
{
}

/// A failed launch left nothing just where its cleanup is complete and it is known whether
/// the target was released; else something is found.
pub proof fn failed_launches_are_cleared_or_found(startup: &StartupError, r: CleanupSummary)
    requires
        call_ensures(startup_cleanup, (startup,), r),
    ensures
        r.direct_child_reaped <==> startup.cleanup == StartupCleanup::Complete && startup.release
            != ReleaseEvidence::Unknown,
        r.workload_empty == Some(true) <==> r.direct_child_reaped,
        r.workload_empty is None || r.workload_empty == Some(true),
        !r.direct_child_reaped ==> r.errors@.len() > 0,
        startup.cleanup_errors@.len() > 0 ==> r.errors@.len() == startup.cleanup_errors@.len(),
        r.direct_child_reaped && startup.cleanup_errors@.len() == 0 ==> r.errors@.len() == 0,
        !r.graceful_attempted && !r.force_attempted,
{
    assert(r@.direct_child_reaped == r.direct_child_reaped);
    assert(r@.workload_empty == r.workload_empty);
    assert(r@.graceful_attempted == r.graceful_attempted && r@.force_attempted
        == r.force_attempted);
}

/// What is told of a launch is what is known of its release.
pub proof fn launches_tell_their_release(
    gated: StandardLaunchFacts,
    released: StandardLaunchFacts,
    startup: &StartupError,
    r: StandardLaunchFacts,
)
    requires
        call_ensures(StandardLaunchFacts::gated_target, (), gated),
        call_ensures(StandardLaunchFacts::released_target, (), released),
        call_ensures(StandardLaunchFacts::of_startup, (startup,), r),
    ensures
        !gated.authorization_released && !gated.containment_before_authorization
            && !gated.guardian_spawn_completed,
        released.authorization_released && released.containment_before_authorization
            && released.guardian_spawn_completed,
        r.authorization_released == startup.release_sent && r.containment_before_authorization
            == startup.release_sent && r.guardian_spawn_completed == startup.guardian_ready,
{
}

/// A launch on macOS is never told to have had a sealed boundary.
pub proof fn gated_launches_are_standard(
    backend: &BackendInfo,
    launch: StandardLaunchFacts,
    facts: BackendCleanupFacts,
    r: (LaunchEvidence, RestartSafetyProof, BoundaryMechanismEvidence),
)
    requires
        call_ensures(gated_execution_evidence, (backend, launch, facts), r),
    ensures
        r.0.target_released == launch.authorization_released,
        r.0.containment_verified_before_authorization == launch.containment_before_authorization,
        r.0.guardian_started_before_authorization == launch.guardian_spawn_completed,
        !r.0.boundary_assignment_verified && !r.0.boundary_reconfiguration_denied
            && !r.0.inherited_resources_restricted,
        r.0.boundary_effective == crate::policy::BoundaryClass::Standard,
        r.1.direct_child_reaped == facts.direct_child_reaped,
        r.1.workload_empty == facts.workload_empty,
        r.2 is Standard,
{
    assert(r.0@.target_released == r.0.target_released);
    assert(r.1@.direct_child_reaped == r.1.direct_child_reaped);
    assert(r.1@.workload_empty == r.1.workload_empty);
    assert(r.2@ is Standard);
}

/// The evidence of an end before the start names the deadline's own span, and that it came
/// before the spawn; no grace was used.
pub proof fn early_ends_name_their_deadline(
    policy: &Policy,
    context: AttemptContext,
    plan: Plan,
    deadline: Deadline,
    tick: u64,
    r: DeadlineEvidence,
)
    requires
        call_ensures(startup_evidence, (policy, context, plan, deadline, tick), r),
    ensures
        deadline.duration@ / 1_000_000 <= u64::MAX ==> r.duration_ms == deadline.duration@
            / 1_000_000,
        r.scope == deadline.scope && r.origin == "pre-spawn",
        r.grace_used_ms == 0 && r.graceful_action is None && r.forced_action is None,
        policy.limit_grace@ / 1_000_000 <= u64::MAX ==> r.grace_ms == policy.limit_grace@
            / 1_000_000,
        tick >= plan.attempt_origin && (context.supervision_offset@ + (tick - plan.attempt_origin))
            / 1_000_000 <= u64::MAX ==> r.observed_ms == (context.supervision_offset@ + (tick
            - plan.attempt_origin)) / 1_000_000,
        (plan.work_expiry matches Some(expiry) && expiry >= plan.attempt_origin && (
        context.supervision_offset@ + (expiry - plan.attempt_origin)) / 1_000_000 <= u64::MAX)
            ==> r.expires_ms == (context.supervision_offset@ + (plan.work_expiry->0
            - plan.attempt_origin)) / 1_000_000,
{
}

/// A launch that a signal ended is interrupted by that signal; one that its time ended has
/// exceeded its deadline, where the clock can be read and the evidence holds.
pub proof fn early_ends_are_told(
    policy: &Policy,
    context: AttemptContext,
    plan: Plan,
    signal: i32,
    cleanup: CleanupSummary,
    clock: Result<u64, Fault>,
    accepted: Result<(), String>,
    r: Result<RunOutcome, Error>,
    deadline: Deadline,
    t: Result<RunOutcome, Error>,
)
    requires
        call_ensures(
            startup_outcome,
            (policy, context, plan, StartupEnd::Interrupted(signal), cleanup, clock, accepted),
            r,
        ),
        call_ensures(
            startup_outcome,
            (policy, context, plan, StartupEnd::Expired(deadline), cleanup, clock, accepted),
            t,
        ),
    ensures
        r is Ok && r->Ok_0@ == (crate::evidence::OutcomeView::Interrupted {
            signal,
            child_after_termination: None,
        }),
        t is Ok <==> clock is Ok && accepted is Ok,
        t is Ok ==> t->Ok_0@ is DeadlineExceeded && t->Ok_0@->DeadlineExceeded_deadline.scope
            == deadline.scope,
        t matches Err(error) ==> error@.code == (if clock is Err {
            "MCMONITOR-CLOCK"
        } else {
            "MCLIMIT-DEADLINE-EVIDENCE"
        }),
{
}

/// What a failed launch proves is what its cleanup proves, and never that its containment
/// was taken away.
pub proof fn failed_launches_prove_their_cleanup(cleanup: &CleanupSummary, r: BackendCleanupFacts)
    requires
        call_ensures(startup_facts, (cleanup,), r),
    ensures
        r.direct_child_reaped == cleanup.direct_child_reaped && r.helpers_reaped
            == cleanup.direct_child_reaped && r.workload_empty == cleanup.workload_empty,
        !r.containment_removed,
        r.containment_incapable_of_live_members == cleanup.direct_child_reaped,
        r.errors@.len() == cleanup.errors@.len(),
{
    assert(crate::model::texts(r.errors@).len() == r.errors@.len());
}

/// A launch that was called off ended when that was seen, or now; one that expired was
/// forced at its expiry, another when force was used, or now.
pub proof fn cancelled_launches_end_when_seen(
    startup: &StartupError,
    plan: Plan,
    run_origin: Option<u64>,
    expired: bool,
    cancelled: &Cancellation,
    tick: u64,
    r: RuntimeFacts,
    f: RuntimeFacts,
)
    requires
        call_ensures(
            cancelled_runtime,
            (startup, plan, run_origin, expired, cancelled, tick),
            r,
        ),
        call_ensures(failed_runtime, (startup, run_origin, tick), f),
    ensures
        r.run_origin == run_origin && r.release == startup.release && r.owner is None,
        cancelled.observed matches Some(at) ==> r.terminal == at,
        cancelled.observed is None ==> r.terminal == tick,
        !expired ==> (cancelled.force matches Some(at) ==> r.force == at),
        !expired && cancelled.force is None ==> r.force == tick,
        expired ==> (plan.work_expiry matches Some(expiry) ==> r.force == expiry),
        expired && plan.work_expiry is None ==> r.force == plan.startup_expiry,
        r.complete <==> startup.cleanup == StartupCleanup::Complete && startup.release
            != ReleaseEvidence::Unknown,
        f.terminal == tick && f.force == tick && f.run_origin == run_origin && f.release
            == startup.release,
        f.complete <==> startup.cleanup == StartupCleanup::Complete,
        startup.launcher_pid matches Some(pid) ==> (pid > 0 ==> r.target_pid == Some(pid)
            && f.target_pid == Some(pid)),
        startup.launcher_pid == Some(0u32) || startup.launcher_pid is None ==> r.target_pid is None
            && f.target_pid is None,
{
}

/// The start of the target is told as the time from the attempt's own to its release, where
/// that was issued.
pub proof fn authorizations_are_told_where_issued(
    at: u64,
    confirmed: bool,
    tick: u64,
    r: Option<Duration>,
    n: Option<Duration>,
    u: Option<Duration>,
)
    requires
        call_ensures(
            authorization_offset,
            (ReleaseEvidence::Issued { at, exec_confirmed: confirmed }, tick),
            r,
        ),
        call_ensures(authorization_offset, (ReleaseEvidence::NotIssued, tick), n),
        call_ensures(authorization_offset, (ReleaseEvidence::Unknown, tick), u),
    ensures
        at >= tick ==> r is Some && r->0@ == at - tick,
        at < tick ==> r is Some && r->0@ == 0,
        n is None && u is None,
{
}

/// A search for the unresolved begins with what is known, and is over at once where nothing
/// is unresolved.
pub proof fn searches_begin_with_the_known(
    root_pid: i32,
    known: &Identities,
    inventory: &Inventory,
    r: (Discovery, DiscoveryStep),
)
    requires
        call_ensures(Discovery::begin, (root_pid, known, inventory), r),
    ensures
        inventory.unresolved@.len() == 0 ==> r.1 == DiscoveryStep::Reconcile && r.0.stage
            == DiscoveryStage::Over,
        inventory.unresolved@.len() > 0 && root_pid >= 0 ==> r.1 == DiscoveryStep::ListGroup(
            root_pid as u32,
        ),
        inventory.unresolved@.len() > 0 && root_pid < 0 ==> r.1 is Failed,
        r.0.relevant@.contains(root_pid),
        inventory.unresolved@.len() > 0 ==> forall|i: int|
            0 <= i < inventory.snapshots@.len() && ((
            #[trigger] inventory.snapshots@[i]).process_group == root_pid
                || r.0.relevant@.contains(inventory.snapshots@[i].parent_pid))
                ==> r.0.relevant@.contains(inventory.snapshots@[i].identity.pid),
{
    let start = set![root_pid].union(crate::macos_discovery::numbers_in(known@));
    assert(start.contains(root_pid));
    assert(r.0.found().contains(root_pid));
    if inventory.unresolved@.len() > 0 {
        assert forall|i: int|
            0 <= i < inventory.snapshots@.len() && ((
            #[trigger] inventory.snapshots@[i]).process_group == root_pid
                || r.0.relevant@.contains(inventory.snapshots@[i].parent_pid)) implies r.0.relevant@.contains(
            inventory.snapshots@[i].identity.pid) by {
            assert(r.0.found().contains(inventory.snapshots@[i].parent_pid)
                == r.0.relevant@.contains(inventory.snapshots@[i].parent_pid));
            assert(r.0.found().contains(inventory.snapshots@[i].identity.pid));
        }
    }
}

/// A search adds all that is listed and forgets nothing; it goes through the parents one by
/// one until none is left.
pub proof fn searches_go_through_all_parents(
    a: &mut Discovery,
    group: &Vec<i32>,
    r: DiscoveryStep,
    b: &mut Discovery,
    children: &Vec<i32>,
    t: DiscoveryStep,
    pid: i32,
)
    requires
        old(a).stage == DiscoveryStage::Group,
        call_ensures(Discovery::group_listed, (a, group), r),
        old(b).stage == DiscoveryStage::Children && old(b).next < old(b).parents@.len(),
        call_ensures(Discovery::children_listed, (b, children), t),
    ensures
        final(a).relevant@.contains(pid) <==> old(a).relevant@.contains(pid) || group@.contains(pid),
        final(a).parents@ == final(a).relevant@ && final(a).next == 0,
        final(b).relevant@.contains(pid) <==> old(b).relevant@.contains(pid) || children@.contains(
            pid,
        ),
        final(b).parents@ == old(b).parents@ && final(b).next == old(b).next + 1,
        t == DiscoveryStep::Reconcile <==> final(b).next == final(b).parents@.len(),
        final(b).next < final(b).parents@.len() && final(b).parents@[final(b).next as int] >= 0
            ==> t == DiscoveryStep::ListChildren(
            final(b).parents@[final(b).next as int] as u32,
        ),
        final(b).next < final(b).parents@.len() && final(b).parents@[final(b).next as int] < 0 ==> t
            is Failed,
{
    assert(final(a).found().contains(pid) == final(a).relevant@.contains(pid));
    assert(old(a).found().contains(pid) == old(a).relevant@.contains(pid));
    assert(crate::macos_discovery::listed(group@).contains(pid) == group@.contains(pid));
    assert(final(b).found().contains(pid) == final(b).relevant@.contains(pid));
    assert(old(b).found().contains(pid) == old(b).relevant@.contains(pid));
    assert(crate::macos_discovery::listed(children@).contains(pid) == children@.contains(pid));
}

/// After the command's end its leftovers are looked for, three seconds at the most and within
/// the deadline, and killed.
pub proof fn leftovers_are_looked_for(
    deadline: Duration,
    query: Option<u64>,
    stored: Option<ChildTermination>,
    now: Duration,
    r: (Retirement, RetireAction),
)
    requires
        call_ensures(Retirement::after_exit, (deadline, query, stored, now), r),
    ensures
        r.0.look_deadline@ <= deadline@ && r.0.look_deadline@ <= now@ + 3_000_000_000 && (
        r.0.look_deadline@ == deadline@ || r.0.look_deadline@ == now@ + 3_000_000_000),
        r.0.signal == 9 && r.0.forced && !r.0.graceful && !r.0.empty && r.0.grace@ == 0,
        r.0.stored == stored && r.0.deadline == deadline,
        query matches Some(q) ==> r.1 == RetireAction::Poll(q),
        query is None ==> r.1 is Ask,
{
}

/// Nothing is stopped just where nobody is left but the command; an answer that does not
/// come in time, or fails, has everything stopped.
pub proof fn leftovers_are_stopped(
    t: &mut Retirement,
    members: Members,
    now: Duration,
    r: RetireAction,
    u: &mut Retirement,
    missing: RetireAction,
    v: &mut Retirement,
    text: String,
    failed: RetireAction,
)
    requires
        old(t).wf() && old(t).stage == RetireStage::Discovery,
        call_ensures(
            Retirement::discovered,
            (t, Ok::<Option<Members>, String>(Some(members)), now),
            r,
        ),
        old(u).wf() && old(u).stage == RetireStage::Discovery,
        call_ensures(
            Retirement::discovered,
            (u, Ok::<Option<Members>, String>(None), now),
            missing,
        ),
        old(v).wf() && old(v).stage == RetireStage::Discovery,
        call_ensures(
            Retirement::discovered,
            (v, Err::<Option<Members>, String>(text), now),
            failed,
        ),
    ensures
        r == RetireAction::Finish <==> members.only_root,
        final(t).empty == (members.only_root || old(t).empty),
        !members.only_root ==> r is Stop && final(t).stops,
        now@ < old(u).look_deadline@ ==> missing is PausePoll && *final(u) == *old(u),
        now@ >= old(u).look_deadline@ ==> missing is Stop && final(u).stops && final(u).query
            == old(u).query && final(u).exit_error is Some,
        failed is Stop && final(v).stops && final(v).exit_error is Some && final(v).query is None,
{
    let got = Ok::<Option<Members>, String>(Some(members));
    let a = choose|answer: crate::macos_retire::Answer| #[trigger]
        crate::macos_retire::answered(got, now@, old(t).look_deadline@, answer);
    assert(crate::macos_retire::answered(
        got,
        now@,
        old(t).look_deadline@,
        crate::macos_retire::Answer::Got(members),
    ));
}

/// A stop that could not be sent is found; the command's own end is waited for until the
/// deadline, and that it did not come is found.
pub proof fn commands_are_waited_for(
    a: &mut Retirement,
    sent: Result<(), Fault>,
    r: RetireAction,
    b: &mut Retirement,
    now: Duration,
    due: RetireAction,
    c: &mut Retirement,
    observed: Result<Option<ChildTermination>, Fault>,
    t: RetireAction,
)
    requires
        old(a).wf() && old(a).stage == RetireStage::Stop,
        call_ensures(Retirement::stopped, (a, sent), r),
        old(b).wf() && old(b).stage == RetireStage::Child,
        call_ensures(Retirement::child_due, (b, now), due),
        old(c).wf() && old(c).stage == RetireStage::Observe && old(c).stored is None,
        call_ensures(Retirement::observed, (c, observed, now), t),
    ensures
        r == RetireAction::Look,
        sent is Ok ==> final(a).errors@ == old(a).errors@ && final(a).query is None,
        sent is Err ==> final(a).errors@.len() == old(a).errors@.len() + 1,
        due is Observe <==> old(b).stored is None && now@ < old(b).deadline@,
        !(due is Observe) ==> due == RetireAction::Finish,
        old(b).stored is None && now@ >= old(b).deadline@ ==> final(b).errors@.len() == old(
            b).errors@.len() + 1,
        old(b).stored is Some ==> final(b).errors@ == old(b).errors@,
        (observed matches Ok(Some(status)) ==> final(c).stored == Some(status)),
        observed == Ok::<Option<ChildTermination>, Fault>(None) <==> t is Pause,
        observed is Err ==> t == RetireAction::Finish && final(c).stored is None && final(
            c).errors@.len() > old(c).errors@.len(),
{
}

/// An inspection is asked for only before its deadline; one that finds the inspector busy
/// either fails at once or tries again shortly, as it was asked to.
pub proof fn inspections_wait_for_their_turn(
    admission: InspectionAdmission,
    now: Duration,
    deadline: Duration,
    may: Result<(), &'static str>,
    taken: Result<OfferStep, &'static str>,
    full: Result<OfferStep, &'static str>,
    gone: Result<OfferStep, &'static str>,
    runs: bool,
    left: CleanupSummary,
)
    requires
        call_ensures(may_offer, (now, deadline), may),
        call_ensures(offered, (admission, Offer::Taken, now, deadline), taken),
        call_ensures(offered, (admission, Offer::Full, now, deadline), full),
        call_ensures(offered, (admission, Offer::Disconnected, now, deadline), gone),
        call_ensures(worker_runs, (now, deadline), runs),
        call_ensures(left_empty, (), left),
    ensures
        may is Ok <==> now@ < deadline@,
        runs <==> now@ < deadline@,
        (taken matches Ok(OfferStep::Await(wait)) && (now@ <= deadline@ ==> now@ + wait@
            == deadline@)),
        full is Err <==> admission == InspectionAdmission::Immediate,
        full is Ok ==> (full matches Ok(OfferStep::Retry(wait)) && wait@ <= 1_000_000 && (now@
            <= deadline@ ==> now@ + wait@ <= deadline@)),
        gone is Err,
        left.workload_empty == Some(true) && left.errors@.len() == 0,
{
    assert(left@.workload_empty == left.workload_empty);
    assert(left@.errors == left.errors@);
}

/// An inspection that came is taken as it came; one that did not has failed.
pub proof fn inspections_are_taken_as_they_came(
    result: Result<u64, String>,
    r: Result<u64, String>,
    missing: Result<u64, String>,
)
    requires
        call_ensures(inspected::<u64>, (Some(result),), r),
        call_ensures(inspected::<u64>, (None::<Result<u64, String>>,), missing),
    ensures
        r == result,
        missing is Err,
{
}

} // verus!
