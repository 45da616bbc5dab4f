//! Launching into a Linux control group, and emptying one.

use vstd::prelude::*;

use crate::evidence::{ChildTermination, Error, InitialSpawnFailure, RunOutcome};
use crate::linux_cgroup::{
    configure, create_cgroup, decode_launcher_status, has_memory_controller, has_own_name,
    is_delegate_marker, is_stale_candidate, key_values, memory_events, populated, probe_result,
    read_back, termination, verify_member, ControlWrite, LauncherStatus, MemoryEvents, StaleEntry,
};
use crate::linux_cleanup::{
    close_reap, kill_round, members_first, members_looked, members_next, members_pause, reap_next,
    reaped, KillRound, MembersAction, ReapAction,
};
use crate::linux_delegation::{
    check_probe_cgroup, has_systemd_delegate_marker, Delegation, DelegationAction, ProbeAction,
    ProbeEvent,
};
use crate::linux_launch::{
    classify_spawn, launcher_end, launcher_exec, launcher_ready, status_timeout, status_turn,
    ExecReply, Launch, LaunchAction, LaunchFault, LaunchPhase, ReadyReply, StatusEvent, StatusStep,
};
use crate::linux_monitor::{Monitor, MonitorStage};
use crate::model::{CleanupErrorRecord, CleanupSummary, Fault, FaultKind};
use crate::policy::{AttemptContext, BoundaryRequirement, Enforcement, Policy, SwapPolicy};
use crate::scan::{lines_of_text, trimmed, words_of};
use crate::text::decimal;
use crate::time::Duration;

verus! {

/// A memory limit is written as its number of bytes, with the swap that the policy gives,
/// and after the group is made to die as one; without a limit nothing is written.
pub proof fn limits_are_written(
    policy: &Policy,
    has_oom_group: bool,
    has_swap: bool,
    r: (Vec<ControlWrite>, Result<(), Fault>),
)
    requires
        call_ensures(configure, (policy, has_oom_group, has_swap), r),
    ensures
        policy.memory is None ==> r.0@.len() == 0 && r.1 is Ok,
        policy.memory matches Some(limit) ==> exists|i: int|
            0 <= i < r.0@.len() && (#[trigger] r.0@[i]).file == "memory.max" && r.0@[i].content@
                == decimal(limit as nat) + "\n"@,
        policy.memory is Some && has_oom_group ==> r.0@[0].file == "memory.oom.group"
            && r.0@[0].content@ == "1\n"@,
        policy.memory is Some && (policy.swap matches SwapPolicy::Bytes(_)) && !has_swap
            ==> r.1 is Err,
        r.1 is Err ==> policy.memory is Some && (policy.swap matches SwapPolicy::Bytes(_))
            && !has_swap,
        policy.memory is Some && has_swap ==> (policy.swap matches SwapPolicy::Bytes(bytes)
            ==> r.0@.last().file == "memory.swap.max" && r.0@.last().content@ == decimal(
            bytes as nat,
        ) + "\n"@),
        policy.memory is Some && policy.swap == SwapPolicy::Unlimited ==> r.0@.last().file
            == "memory.swap.max" && r.0@.last().content@ == "max\n"@,
        policy.memory is Some && policy.swap == SwapPolicy::Host ==> r.0@.last().file
            == "memory.max",
{
    let views = crate::linux_cgroup::writes_of(r.0@);
    assert(views.len() == r.0@.len());
    assert forall|i: int| 0 <= i < r.0@.len() implies views[i] == (#[trigger] r.0@[i])@ by {}
    if policy.memory is Some {
        let at: int = if has_oom_group {
            1
        } else {
            0
        };
        assert(views[at].file == "memory.max");
        assert(r.0@[at].file == "memory.max");
        assert(views[0] == r.0@[0]@);
        assert(views[views.len() - 1] == r.0@.last()@);
    }
}

/// What the kernel's counters say is what is read, and a counter that is not there is
/// nought; a group has members just where it says so.
pub proof fn counters_are_read(
    input: &str,
    events: Result<MemoryEvents, Fault>,
    members: Result<bool, Fault>,
)
    requires
        call_ensures(memory_events, (input,), events),
        call_ensures(populated, (input,), members),
    ensures
        events is Ok <==> key_values(input@) is Ok,
        members is Ok <==> key_values(input@) is Ok,
        key_values(input@) matches Ok(counters) ==> {
            &&& counters.dom().contains("max"@) ==> events->Ok_0.max == counters["max"@]
            &&& !counters.dom().contains("max"@) ==> events->Ok_0.max == 0
            &&& counters.dom().contains("oom"@) ==> events->Ok_0.oom == counters["oom"@]
            &&& counters.dom().contains("oom_kill"@) ==> events->Ok_0.oom_kill
                == counters["oom_kill"@]
            &&& counters.dom().contains("oom_group_kill"@) ==> events->Ok_0.oom_group_kill
                == counters["oom_group_kill"@]
            &&& counters.dom().contains("populated"@) ==> (members->Ok_0
                <==> counters["populated"@] > 0)
            &&& !counters.dom().contains("populated"@) ==> !members->Ok_0
        },
{
}

/// A launcher is in its group just where one line of the members is its number.
pub proof fn members_are_listed(members: &str, pid: u32, r: Result<(), Fault>)
    requires
        call_ensures(verify_member, (members, pid), r),
    ensures
        r is Ok <==> exists|i: int|
            0 <= i < lines_of_text(members@).len() && trimmed(
                #[trigger] lines_of_text(members@)[i],
            ) == decimal(pid as nat),
{
    if exists|i: int|
        0 <= i < lines_of_text(members@).len() && trimmed(#[trigger] lines_of_text(members@)[i])
            == decimal(pid as nat) {
        let i = choose|i: int|
            0 <= i < lines_of_text(members@).len() && trimmed(#[trigger] lines_of_text(members@)[i])
                == decimal(pid as nat);
        assert(crate::linux_cgroup::names_member(lines_of_text(members@)[i], pid as nat));
    }
}

/// A launcher's status begins with its letters and its version; a launcher that is ready
/// reports no error, one that failed a positive one, low byte first on such a machine.
pub proof fn statuses_are_read(record: &[u8], r: Result<LauncherStatus, Fault>)
    requires
        call_ensures(decode_launcher_status, (record, false), r),
        record@.len() == 12,
    ensures
        ({
            let n = record@[8] + 256 * record@[9] + 65536 * record@[10] + 16777216 * record@[11];
            let framed = record@[0] == 77 && record@[1] == 67 && record@[2] == 76 && record@[3]
                == 83 && record@[4] == 1 && record@[6] == 0 && record@[7] == 0;
            &&& r is Ok <==> framed && (record@[5] == 1 && n == 0 || record@[5] == 2 && 0 < n
                <= i32::MAX)
            &&& framed && record@[5] == 1 && n == 0 ==> r == Ok::<LauncherStatus, Fault>(
                LauncherStatus::Ready,
            )
            &&& framed && record@[5] == 2 && 0 < n <= i32::MAX ==> (r matches Ok(
                LauncherStatus::Error(errno),
            ) && errno == n)
        }),
{
}

/// A command that left tells its exit code, else the signal that ended it.
pub proof fn terminations_are_told(
    code: Option<i32>,
    signal: Option<i32>,
    r: ChildTermination,
)
    requires
        call_ensures(termination, (code, signal), r),
    ensures
        code matches Some(n) ==> r == (ChildTermination::ExitCode { code: n }),
        code is None ==> (signal matches Some(n) ==> r == (ChildTermination::UnixSignal {
            signal: n,
        })),
        code is None && signal is None ==> r == ChildTermination::Unavailable,
{
}

/// A group's name carries its owner's number, so its owner finds it again; no other
/// user does.
pub proof fn groups_bear_their_owners_name(
    uid: u32,
    pid: u32,
    nonce: u128,
    name: String,
    told: &str,
    own: bool,
)
    requires
        call_ensures(create_cgroup, (uid, pid, nonce), name),
        call_ensures(has_own_name, (told, uid), own),
        told@ == name@,
    ensures
        own,
        ("memcordon-"@ + decimal(uid as nat) + "-"@ + decimal(pid as nat) + "-"@).is_prefix_of(
            name@,
        ),
{
    let start = "memcordon-"@ + decimal(uid as nat) + "-"@;
    let longer = start + decimal(pid as nat) + "-"@;
    assert(name@.take(start.len() as int) =~= start);
    assert(start =~= name@.subrange(0, start.len() as int));
    assert(longer =~= name@.subrange(0, longer.len() as int));
}

/// A control file holds what was written just where it reads so without the white space
/// round it; a delegated group is marked by a single one; controllers are words.
pub proof fn control_files_are_compared(
    content: &str,
    wanted: &str,
    same: bool,
    value: &[u8],
    marker: bool,
    memory: bool,
)
    requires
        call_ensures(read_back, (content, wanted), same),
        call_ensures(is_delegate_marker, (value,), marker),
        call_ensures(has_memory_controller, (content,), memory),
    ensures
        same <==> trimmed(content@) == wanted@,
        marker <==> value@.len() == 1 && value@[0] == 49,
        memory <==> exists|i: int|
            0 <= i < words_of(content@).len() && words_of(content@)[i] == "memory"@,
{
    if marker {
        assert(value@ =~= seq![49u8]);
    }
    if value@.len() == 1 && value@[0] == 49 {
        assert(value@ =~= seq![49u8]);
    }
}

/// A probe succeeds only where its controls work and its group could be removed; each
/// complaint is kept.
pub proof fn probes_need_both(
    controls: Result<(), String>,
    removal: Result<(), String>,
    r: Result<(), String>,
)
    requires
        call_ensures(probe_result, (controls, removal), r),
    ensures
        r is Ok <==> controls is Ok && removal is Ok,
        controls is Err && removal is Ok ==> r->Err_0@ == controls->Err_0@,
        controls is Ok && removal is Err ==> r->Err_0@ == removal->Err_0@,
        controls is Err && removal is Err ==> r->Err_0@ == controls->Err_0@ + "; "@
            + removal->Err_0@,
{
}

/// A stale group is a directory with this library's name and a control group's files.
pub proof fn stale_groups_are_whole(entry: StaleEntry, r: bool)
    requires
        call_ensures(is_stale_candidate, (entry,), r),
    ensures
        r <==> entry.own_name && entry.directory && entry.has_procs && entry.has_events
            && entry.has_kill,
{
}

/// A launch begins by looking for the delegated parent, and needs its memory controller
/// just for a memory limit; a sealed policy or a watchdog's starts nothing.
pub proof fn launches_begin_with_their_parent(
    policy: Policy,
    context: AttemptContext,
    r: (Launch, LaunchAction),
)
    requires
        call_ensures(Launch::start, (policy, context), r),
    ensures
        policy.enforcement == Enforcement::Watchdog ==> (r.1 matches LaunchAction::Fail(error)
            && error.code == "MCUNSUPPORTED-LINUX-WATCHDOG"),
        policy.enforcement != Enforcement::Watchdog && policy.boundary
            == BoundaryRequirement::Sealed ==> (r.1 matches LaunchAction::Fail(error) && error.code
            == "MCBOUNDARY-UNSUPPORTED"),
        policy.enforcement != Enforcement::Watchdog && policy.boundary
            == BoundaryRequirement::Standard ==> (r.1 matches LaunchAction::FindParent {
            require_memory,
        } && (require_memory <==> policy.memory is Some)),
{
}

/// Every step of a launch waits for the one before, and a step that fails starts nothing
/// more: the group is made, configured, its counters read where memory is limited, and only
/// then is the launcher spawned.
pub proof fn groups_are_ready_before_the_launcher(
    a: &mut Launch,
    found: Result<(), String>,
    after_parent: LaunchAction,
    b: &mut Launch,
    made: Result<(), Fault>,
    after_made: LaunchAction,
    c: &mut Launch,
    configured: Result<(), Fault>,
    after_configured: LaunchAction,
    d: &mut Launch,
    events: Result<MemoryEvents, Fault>,
    after_baseline: LaunchAction,
)
    requires
        call_ensures(Launch::parent_found, (a, found), after_parent),
        call_ensures(Launch::created, (b, made), after_made),
        call_ensures(Launch::configured, (c, configured), after_configured),
        call_ensures(Launch::baseline_read, (d, events), after_baseline),
    ensures
        found is Ok ==> after_parent == LaunchAction::CreateCgroup,
        found is Err ==> (after_parent matches LaunchAction::Fail(error) && error.code
            == "MCSETUP-CGROUP-NOT-DELEGATED" && error.message@ == found->Err_0@),
        made is Ok ==> after_made == LaunchAction::Configure,
        made is Err ==> (after_made matches LaunchAction::Fail(error) && error.code
            == "MCSETUP-CGROUP" && error.os_code == made->Err_0.os_code),
        configured is Ok && old(c).policy.memory is Some ==> after_configured
            == LaunchAction::ReadBaseline,
        configured is Ok && old(c).policy.memory is None ==> after_configured
            == LaunchAction::Spawn,
        configured is Err ==> (after_configured matches LaunchAction::Fail(error) && error.code
            == "MCSETUP-CGROUP"),
        events is Ok ==> after_baseline == LaunchAction::Spawn && final(d).baseline == Some(
            events->Ok_0,
        ),
        events is Err ==> (after_baseline matches LaunchAction::Fail(error) && error.code
            == "MCSETUP-CGROUP"),
{
}

/// The target is released only once its launcher is ready, sits in the group and has its
/// guardian; its time counts from the guardian's start.
pub proof fn targets_are_released_last(
    a: &mut Launch,
    pid: u32,
    at_spawn: Duration,
    after_spawn: LaunchAction,
    b: &mut Launch,
    ready: Result<(), Fault>,
    until: Duration,
    at_ready: Duration,
    after_ready: LaunchAction,
    c: &mut Launch,
    assigned: Result<(), Fault>,
    at_assigned: Duration,
    after_assigned: LaunchAction,
    d: &mut Launch,
    guarded: Result<(), Fault>,
    at_guarded: Duration,
    after_guarded: LaunchAction,
)
    requires
        call_ensures(Launch::spawned, (a, Ok::<u32, Error>(pid), at_spawn), after_spawn),
        call_ensures(Launch::ready, (b, ready, until, at_ready), after_ready),
        call_ensures(Launch::assigned, (c, assigned, at_assigned), after_assigned),
        call_ensures(Launch::guarded, (d, guarded, at_guarded), after_guarded),
    ensures
        pid <= i32::MAX ==> (after_spawn matches LaunchAction::AwaitReady { deadline } && (old(
            a).context.supervision_deadline_remaining is None && at_spawn@ + 10_000_000_000
            <= u64::MAX ==> deadline@ == at_spawn@ + 10_000_000_000)) && final(a).pid == pid,
        pid > i32::MAX ==> after_spawn is Abort && final(a).fault == Some(LaunchFault::PidRange),
        ready is Ok ==> after_ready == (LaunchAction::Assign { pid: old(b).pid }),
        ready is Err ==> after_ready is Abort && (final(b).fault matches Some(
            LaunchFault::Ready { fault, supervision_expired },
        ) && fault == ready->Err_0 && (supervision_expired <==> fault.kind == FaultKind::TimedOut && (
        old(b).context.supervision_deadline_remaining matches Some(left) && left@ <= until@))),
        assigned is Ok ==> after_assigned == (LaunchAction::StartGuardian { pid: old(c).pid }),
        assigned is Err ==> after_assigned is Abort && final(c).fault == Some(
            LaunchFault::Assign { fault: assigned->Err_0 },
        ),
        guarded is Ok ==> after_guarded == LaunchAction::Release && final(d).authorized
            == at_guarded,
        guarded is Err ==> after_guarded is Abort && final(d).fault == Some(
            LaunchFault::Guardian { fault: guarded->Err_0 },
        ),
{
}

/// A target that was released is watched once it runs, and unwound where it did not start:
/// by force just where nothing is known of it.
pub proof fn released_targets_are_watched_or_unwound(
    a: &mut Launch,
    released: Result<(), Fault>,
    at_release: Duration,
    after_release: LaunchAction,
    b: &mut Launch,
    report: Result<Option<Fault>, Fault>,
    until: Duration,
    now: Duration,
    after_exec: LaunchAction,
)
    requires
        call_ensures(Launch::released, (a, released, at_release), after_release),
        call_ensures(Launch::executed, (b, report, until, now), after_exec),
    ensures
        released is Ok ==> after_release is AwaitExec,
        released is Err ==> after_release is AbortAndDisarm && final(a).fault == Some(
            LaunchFault::Release { fault: released->Err_0 },
        ),
        report matches Ok(None) ==> after_exec == LaunchAction::Watch && final(b).phase
            == LaunchPhase::Running,
        report matches Ok(Some(fault)) ==> (after_exec matches LaunchAction::Unwind { force, .. }
            && !force) && final(b).fault == Some(LaunchFault::Exec { fault }),
        report matches Err(fault) ==> (after_exec matches LaunchAction::Unwind { force, .. }
            && force) && (final(b).phase == LaunchPhase::Expired <==> fault.kind
            == FaultKind::TimedOut && (old(
            b).context.supervision_deadline_remaining matches Some(left) && left@ <= until@)),
{
}

/// The watch begins with the launch's policy, counters and moment of authorization, and with
/// nothing seen yet.
pub proof fn watches_begin_where_launches_end(launch: Launch, r: Monitor)
    requires
        call_ensures(Launch::into_monitor, (launch,), r),
    ensures
        r.policy == launch.policy && r.context == launch.context && r.authorized
            == launch.authorized && r.baseline == launch.baseline,
        r.stored is None && r.peak == 0 && r.ending is None && r.pending_signal is None && r.stage
            == MonitorStage::Cycle,
{
}

/// An aborted launch never released its target; its error names the step that failed.
pub proof fn aborted_launches_released_nothing(
    launch: Launch,
    helper: &str,
    cleanup: CleanupSummary,
    may_live: bool,
    guardian: Option<(Vec<CleanupErrorRecord>, bool)>,
    r: Error,
)
    requires
        launch.phase == LaunchPhase::Aborting,
        launch.fault is Some && launch.fault->0 !is Exec && launch.fault->0 !is Protocol,
        call_ensures(Launch::aborted, (launch, helper, cleanup, may_live, guardian), r),
    ensures
        !r.target_released && r.authorization_offset is None,
        r.workload_may_be_alive <==> may_live || (guardian is Some && (guardian->0).1),
        launch.fault->0 is PidRange ==> r.code == "MCSPAWN-PID-RANGE",
        launch.fault->0 is Assign ==> r.launch_phase == Some("cgroup-assignment")
            && r.target_pid == Some(launch.pid) && !r.cgroup_verified_before_release,
        launch.fault->0 is Guardian ==> r.code == "MCSETUP-MEMCORDON-GUARDIAN" && r.launch_phase
            == Some("guardian-start") && r.cgroup_verified_before_release,
        launch.fault->0 is Release ==> r.launch_phase == Some("launcher-release")
            && r.cgroup_verified_before_release,
        (launch.fault->0 matches LaunchFault::Ready { supervision_expired, .. }
            && supervision_expired) ==> r.code == "MCSUPERVISION-DEADLINE-BEFORE-AUTHORIZATION",
        (launch.fault->0 matches LaunchFault::Ready { supervision_expired, .. }
            && !supervision_expired) ==> r.code == "MCSETUP-MEMCORDON-LAUNCHER-PROTOCOL",
        r.restart_safety matches Some(proof) && proof.direct_child_reaped
            == cleanup.direct_child_reaped && proof.workload_empty == cleanup.workload_empty
            && !proof.containment_removed && (proof.helpers_reaped <==> !(guardian is Some && (
        guardian->0).1)),
{
    assert(r@.restart_safety is Some);
}

/// A launch that was unwound had released its target at the moment that is told; a program
/// that could not be started is named by why.
pub proof fn unwound_launches_were_released(
    launch: Launch,
    helper: &str,
    program: &str,
    cleanup: CleanupSummary,
    disarm: Result<(), Fault>,
    removal: Result<(), Fault>,
    r: Error,
)
    requires
        launch.phase == LaunchPhase::Unwinding,
        launch.fault is Some && (launch.fault->0 is Exec || launch.fault->0 is Protocol),
        call_ensures(Launch::unwound, (launch, helper, program, cleanup, disarm, removal), r),
    ensures
        r.target_released && r.authorization_offset == Some(launch.authorized) && r.target_pid
            == Some(launch.pid) && r.cgroup_verified_before_release,
        launch.fault->0 is Protocol ==> r.code == "MCSETUP-MEMCORDON-LAUNCHER-PROTOCOL"
            && r.launch_phase == Some("launcher-exec-status"),
        launch.fault->0 matches LaunchFault::Exec { fault } ==> r.launch_phase == Some(
            "target-spawn-failed",
        ) && (fault.os_code == Some(2i32) ==> r.code == "MCSPAWN-NOT-FOUND") && (fault.os_code
            == Some(13i32) ==> r.code == "MCSPAWN-NOT-EXECUTABLE") && (fault.os_code is None
            ==> r.code == "MCSPAWN-FAILED"),
        r.restart_safety matches Some(proof) && (proof.helpers_reaped <==> disarm is Ok) && (
        proof.containment_removed <==> removal is Ok) && proof.direct_child_reaped
            == cleanup.direct_child_reaped,
{
    assert(r@.restart_safety is Some);
}

/// A launch that the supervision cut off after its release ends by that deadline; without
/// accepted evidence there is no outcome.
pub proof fn expired_launches_end_by_the_deadline(
    launch: Launch,
    cleanup: CleanupSummary,
    stored: Option<ChildTermination>,
    now: Duration,
    accepted: bool,
    r: Result<RunOutcome, Error>,
)
    requires
        call_ensures(Launch::expired_outcome, (launch, cleanup, stored, now, accepted), r),
        launch.policy.deadline is Some,
        launch.context.supervision_deadline_remaining is Some,
        launch.context.supervision_offset@ + launch.context.supervision_deadline_remaining->0@
            <= u64::MAX,
    ensures
        r is Ok <==> accepted,
        r matches Ok(outcome) ==> (outcome matches RunOutcome::DeadlineExceeded {
            deadline,
            child_after_termination,
            ..
        } && child_after_termination == stored && deadline.scope
            == launch.policy.deadline->0.scope && deadline.expires_ms as nat == (
        launch.context.supervision_offset@ + launch.context.supervision_deadline_remaining->0@)
            / 1_000_000 && deadline.forced_action == Some("cgroup-kill")),
{
}

/// Why a program could not be started: it is not there, or it cannot be run, by the system's
/// number.
pub proof fn spawn_failures_are_classified(os_code: Option<i32>, r: Option<InitialSpawnFailure>)
    requires
        call_ensures(classify_spawn, (os_code,), r),
    ensures
        r == Some(InitialSpawnFailure::NotFound) <==> os_code == Some(2i32) || os_code == Some(
            20i32,
        ),
        r == Some(InitialSpawnFailure::NotExecutable) <==> os_code == Some(13i32) || os_code
            == Some(1i32) || os_code == Some(8i32) || os_code == Some(21i32),
{
}

/// A wait for the launcher lasts the milliseconds that are left, at least one while any time
/// is left, and none once it is over.
pub proof fn status_waits_are_in_time(remaining: Duration, r: i32)
    requires
        call_ensures(status_timeout, (remaining,), r),
    ensures
        remaining@ == 0 ==> r == 0,
        0 < remaining@ < 2_000_000 ==> r == 1,
        1_000_000 <= remaining@ <= 2_000_000_000_000_000 ==> r * 1_000_000 <= remaining@ < (r + 1)
            * 1_000_000,
        r >= 0,
{
}

/// A launcher that closes its pipe before a status said nothing; within one, its status is
/// cut; the pieces of a status come together in their order.
pub proof fn statuses_come_together(
    record: &mut Vec<u8>,
    event: StatusEvent,
    now: Duration,
    deadline: Duration,
    r: StatusStep,
)
    requires
        old(record)@.len() < 12,
        call_ensures(status_turn, (record, event, now, deadline), r),
    ensures
        event is Closed && old(record)@.len() == 0 ==> r == StatusStep::Record(None),
        event is Closed && old(record)@.len() > 0 ==> (r matches StatusStep::Failed(fault)
            && fault.kind == FaultKind::UnexpectedEof),
        event matches StatusEvent::Bytes(bytes) ==> (old(record)@.len() + bytes@.len() == 12 ==> (
        r matches StatusStep::Record(Some(all)) && all@ == old(record)@ + bytes@)) && (old(
            record)@.len() + bytes@.len() < 12 ==> r == StatusStep::More && final(record)@ == old(
            record)@ + bytes@),
        (event matches StatusEvent::WaitFailed(fault) && fault.kind == FaultKind::Interrupted) ==> r
            == StatusStep::More,
        (event matches StatusEvent::WaitFailed(fault) && fault.kind != FaultKind::Interrupted)
            ==> r is Failed,
        (event matches StatusEvent::ReadFailed { fault, ready } && fault.kind
            == FaultKind::WouldBlock && (!ready || now@ >= deadline@)) ==> (
        r matches StatusStep::Failed(fault) && fault.kind == FaultKind::TimedOut),
        (event matches StatusEvent::ReadFailed { fault, ready } && fault.kind
            == FaultKind::WouldBlock && ready && now@ < deadline@) ==> r == StatusStep::More,
{
}

/// The pipe's end is readiness to no one: it means that a launcher at its gate is gone, and
/// that a released one has become its target.
pub proof fn a_closed_pipe_means_execution(
    ready: ReadyReply,
    exec: ExecReply,
    end: Result<(), Fault>,
    big_endian: bool,
)
    requires
        call_ensures(launcher_ready, (Ok::<Option<Vec<u8>>, Fault>(None), big_endian), ready),
        call_ensures(launcher_exec, (Ok::<Option<Vec<u8>>, Fault>(None), big_endian), exec),
        call_ensures(launcher_end, (Ok::<Option<Vec<u8>>, Fault>(None),), end),
    ensures
        ready matches ReadyReply::Failed(fault) && fault.kind == FaultKind::UnexpectedEof,
        exec == ExecReply::Started,
        end is Ok,
{
}

/// A status means what its kind says at each place: readiness before the release alone, an error
/// before or after it, and neither behind the end.
pub proof fn statuses_mean_what_they_say(
    record: Vec<u8>,
    bytes: &[u8],
    status: Result<LauncherStatus, Fault>,
    big_endian: bool,
    ready: ReadyReply,
    exec: ExecReply,
    end: Result<(), Fault>,
)
    requires
        record@.len() == 12,
        call_ensures(decode_launcher_status, (bytes, big_endian), status),
        bytes@ == record@,
        call_ensures(launcher_ready, (Ok::<Option<Vec<u8>>, Fault>(Some(record)), big_endian), ready),
        call_ensures(launcher_exec, (Ok::<Option<Vec<u8>>, Fault>(Some(record)), big_endian), exec),
        call_ensures(launcher_end, (Ok::<Option<Vec<u8>>, Fault>(Some(record)),), end),
    ensures
        status matches Ok(LauncherStatus::Ready) ==> ready == ReadyReply::Ready && exec is Failed,
        status matches Ok(LauncherStatus::Error(errno)) ==> ready == ReadyReply::ErrorThenEnd(errno)
            && exec == ExecReply::ErrorThenEnd(errno),
        status is Err ==> ready is Failed && exec is Failed,
        end is Err,
{
}

/// A group is killed until it is empty or the time is over, and only an empty one is called
/// empty.
pub proof fn groups_are_killed_until_empty(
    a: &mut CleanupSummary,
    seen: Result<bool, Fault>,
    first: MembersAction,
    b: &mut CleanupSummary,
    looked: MembersAction,
    c: &mut CleanupSummary,
    now: Duration,
    deadline: Duration,
    next: MembersAction,
    d: &mut CleanupSummary,
    pause: MembersAction,
)
    requires
        call_ensures(members_first, (a, seen), first),
        call_ensures(members_looked, (b, seen), looked),
        call_ensures(members_next, (c, now, deadline), next),
        call_ensures(members_pause, (d, now, deadline), pause),
    ensures
        seen matches Ok(true) ==> first == MembersAction::KillThenNext && final(a).force_attempted
            && looked == MembersAction::KillThenPause && final(b).workload_empty == old(
            b).workload_empty,
        seen matches Ok(false) ==> first is PauseThenNext && final(a).force_attempted == old(
            a).force_attempted && looked == MembersAction::Over && final(b).workload_empty == Some(
            true,
        ),
        seen is Err ==> first == MembersAction::KillThenNext && looked == MembersAction::Over
            && final(b).workload_empty == Some(false) && final(b).errors@.len() == old(
            b).errors@.len() + 1,
        now@ < deadline@ ==> next == MembersAction::Look && final(c).workload_empty == old(
            c).workload_empty && pause is PauseThenNext,
        now@ >= deadline@ ==> next == MembersAction::Over && final(c).workload_empty == Some(false)
            && pause == MembersAction::Over && final(d).workload_empty == Some(false),
{
    assert(final(b)@.errors == final(b).errors@ && old(b)@.errors == old(b).errors@);
}

/// A child is waited for until it is reaped or the time is over; one that was not is a
/// finding.
pub proof fn children_are_reaped_in_time(
    stored: Option<ChildTermination>,
    now: Duration,
    deadline: Duration,
    next: ReapAction,
    a: &mut CleanupSummary,
    s: &mut Option<ChildTermination>,
    reap: Result<Option<ChildTermination>, Fault>,
    after: ReapAction,
    b: &mut CleanupSummary,
)
    requires
        call_ensures(reap_next, (stored, now, deadline), next),
        call_ensures(reaped, (a, s, reap, now, deadline), after),
        call_ensures(close_reap, (b, stored), ()),
    ensures
        next == ReapAction::TryWait <==> stored is None && now@ < deadline@,
        next == ReapAction::Over <==> stored is Some || now@ >= deadline@,
        reap matches Ok(status) ==> *final(s) == status && after is Pause,
        reap is Err ==> after == ReapAction::Over && *final(s) is None && final(a).errors@.len()
            == old(a).errors@.len() + 1,
        final(b).direct_child_reaped <==> stored is Some,
        stored is None ==> final(b).errors@.len() == old(b).errors@.len() + 1,
        stored is Some ==> final(b).errors@ == old(b).errors@,
{
    assert(final(a)@.errors == final(a).errors@ && old(a)@.errors == old(a).errors@);
    assert(final(b)@.errors == final(b).errors@ && old(b)@.errors == old(b).errors@);
}

/// A round of kills goes on while time is left and the group lists members.
pub proof fn kill_rounds_go_on_while_members_are_listed(
    summary: &mut CleanupSummary,
    members: Result<String, Fault>,
    now: Duration,
    deadline: Duration,
    r: KillRound,
)
    requires
        call_ensures(kill_round, (summary, members, now, deadline), r),
    ensures
        r is Kill <==> now@ < deadline@ && (members matches Ok(text) && trimmed(text@).len() > 0),
        members is Err && now@ < deadline@ ==> final(summary).errors@.len() == old(
            summary).errors@.len() + 1,
        members is Ok || now@ >= deadline@ ==> final(summary).errors@ == old(summary).errors@,
{
    assert(final(summary)@.errors == final(summary).errors@ && old(summary)@.errors == old(
        summary).errors@);
}

/// The search for a delegated group goes up one group at a time from the process's own and
/// takes the first that is marked.
pub proof fn the_nearest_marked_group_is_taken(
    d: &mut Delegation,
    marked: Result<bool, String>,
    r: Result<DelegationAction, String>,
)
    requires
        old(d).wf(),
        old(d).stage is Marker,
        call_ensures(Delegation::marked, (d, marked), r),
    ensures
        marked matches Ok(true) ==> r == Ok::<DelegationAction, String>(
            DelegationAction::ReadMembers,
        ) && final(d).candidate == old(d).candidate,
        marked matches Ok(false) ==> (r == Ok::<DelegationAction, String>(
            DelegationAction::ReadMarker,
        ) && final(d).count + 1 == old(d).count && final(d).current == old(d).current || r is Err
            && old(d).count <= 4),
        (marked matches Ok(false) && old(d).count > 4) ==> r is Ok,
        marked is Err ==> r is Err,
{
}

/// A marked group serves only where it holds no processes, and for a memory limit only where
/// the memory controller is delegated, enabled and stays so.
pub proof fn delegated_groups_are_checked(
    a: &mut Delegation,
    members: Result<String, String>,
    after_members: Result<DelegationAction, String>,
    b: &mut Delegation,
    text: Result<String, String>,
    after_controllers: Result<DelegationAction, String>,
    c: &mut Delegation,
    after_enabled: Result<DelegationAction, String>,
    d: &mut Delegation,
    after_verified: Result<DelegationAction, String>,
)
    requires
        call_ensures(Delegation::members, (a, members), after_members),
        call_ensures(Delegation::controllers, (b, text), after_controllers),
        call_ensures(Delegation::enabled, (c, text), after_enabled),
        call_ensures(Delegation::verified, (d, text), after_verified),
    ensures
        after_members is Ok <==> (members matches Ok(listed) && trimmed(listed@).len() == 0),
        after_members matches Ok(action) ==> (if old(a).require_memory {
            action == DelegationAction::ReadControllers
        } else {
            action == DelegationAction::Prepared
        }),
        after_controllers is Ok <==> (text matches Ok(list) && words_of(list@).contains(
            "memory"@,
        )),
        after_controllers matches Ok(action) ==> action == DelegationAction::ReadEnabled,
        after_enabled is Ok <==> text is Ok,
        after_enabled matches Ok(action) ==> (words_of(text->Ok_0@).contains("memory"@) <==> action
            == DelegationAction::ReadEnabled) && (!words_of(text->Ok_0@).contains("memory"@)
            <==> action == DelegationAction::EnableMemory),
        after_verified is Ok <==> (text matches Ok(list) && words_of(list@).contains("memory"@)),
        after_verified matches Ok(action) ==> action == DelegationAction::Prepared,
{
}

/// A group without a mark is no delegated one, and a mark that cannot be read is a fault.
pub proof fn marks_are_read(path: &str, value: Result<Vec<u8>, Fault>, r: Result<bool, String>)
    requires
        call_ensures(has_systemd_delegate_marker, (path, value), r),
    ensures
        value matches Ok(bytes) ==> (r matches Ok(marked) && (marked <==> bytes@ == seq![49u8])),
        value matches Err(fault) ==> (fault.os_code == Some(61i32) ==> r == Ok::<bool, String>(
            false,
        )) && (fault.os_code != Some(61i32) ==> r is Err),
{
}

/// A probed group must have its files, read, be written, and hold what was written.
pub proof fn probed_groups_hold_what_is_written(
    action: ProbeAction,
    event: &ProbeEvent,
    path: &str,
    r: Result<(), String>,
)
    requires
        call_ensures(check_probe_cgroup, (action, event, path), r),
    ensures
        action is Exists && *event is Missing ==> r is Err,
        action is Exists && *event is Done ==> r is Ok,
        (action is Read || action is Write || action is ReadBack) && *event is Failed ==> r is Err,
        (action matches ProbeAction::ReadBack(_, wanted) && (*event matches ProbeEvent::Content {
            text,
            ..
        })) ==> (r is Ok <==> trimmed((*event)->text@) == action->ReadBack_1@),
{
}

} // verus!
