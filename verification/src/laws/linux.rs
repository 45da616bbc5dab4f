//! The watch of a running attempt in a Linux control group.

use vstd::prelude::*;

use crate::evidence::{BackendCleanupFacts, ChildTermination, Error, RunOutcome};
use crate::laws::watchdog::same_cleanup;
use crate::linux_cgroup::{limit_delta, LimitDelta, MemoryEvents};
use crate::linux_monitor::{
    close_outcome, left_by_itself, Ending, Monitor, MonitorAction, MonitorFault, MonitorStage,
};
use crate::model::{CleanupSummary, Fault};
use crate::policy::{Deadline, Lifetime};
use crate::time::Duration;

verus! {

/// Whether any counter of the memory limit is higher in `b` than in `a`.
pub open spec fn rose(a: MemoryEvents, b: MemoryEvents) -> bool {
    b.max > a.max || b.oom > a.oom || b.oom_kill > a.oom_kill || b.oom_group_kill
        > a.oom_group_kill
}

/// The kernel reported the memory limit just where one of its counters rose; the rise that
/// is told is one of them, with what it was before and what it is now.
pub proof fn limits_are_rises(a: MemoryEvents, b: MemoryEvents, r: Option<LimitDelta>)
    requires
        call_ensures(limit_delta, (a, b), r),
    ensures
        r is Some <==> rose(a, b),
        r matches Some(delta) ==> delta.to > delta.from && (delta.key == "max" && delta.from
            == a.max && delta.to == b.max || delta.key == "oom" && delta.from == a.oom && delta.to
            == b.oom || delta.key == "oom_kill" && delta.from == a.oom_kill && delta.to
            == b.oom_kill || delta.key == "oom_group_kill" && delta.from == a.oom_group_kill
            && delta.to == b.oom_group_kill),
        b.max > a.max ==> (r matches Some(delta) && delta.key == "max"),
{
}

/// `memory.events` ends an attempt just where a counter rose above what it was before the
/// target ran: the ending then names the policy's limit, and the usage is read next.
pub proof fn risen_counters_end_the_attempt(
    m: &mut Monitor,
    seen: MemoryEvents,
    now: Duration,
    r: MonitorAction,
    limit: u64,
    baseline: MemoryEvents,
)
    requires
        old(m).wf(),
        old(m).stage == MonitorStage::Events,
        call_ensures(Monitor::events, (m, Ok::<MemoryEvents, Fault>(seen), now), r),
        old(m).policy.memory == Some(limit),
        old(m).baseline == Some(baseline),
    ensures
        rose(baseline, seen) ==> (final(m).ending matches Some(Ending::Limit { limit: told, delta, .. })
            && told == limit && delta.to > delta.from) && r == MonitorAction::ReadCurrent && final(
            m).stage == MonitorStage::LimitCurrent,
        !rose(baseline, seen) ==> !(final(m).ending matches Some(Ending::Limit { .. })),
        !rose(baseline, seen) && old(m).cycle_fault is None ==> final(m).ending is None && r
            == MonitorAction::ReadCurrent && final(m).stage == MonitorStage::Current,
{
}

/// Counters that cannot be read end the attempt by force.
pub proof fn unread_counters_end_the_attempt(
    m: &mut Monitor,
    fault: Fault,
    now: Duration,
    r: MonitorAction,
)
    requires
        call_ensures(Monitor::events, (m, Err::<MemoryEvents, Fault>(fault), now), r),
    ensures
        final(m).ending == Some(Ending::Failed { fault: MonitorFault::MemoryEvents(fault) }),
        r matches MonitorAction::Cleanup { force, .. } && force,
{
}

/// The usage at a reported limit is told with it and counts towards the peak; the workload
/// is asked to end where the policy gives it a grace.
pub proof fn limits_are_told_with_their_usage(
    m: &mut Monitor,
    current: Result<u64, Fault>,
    now: Duration,
    r: MonitorAction,
    limit: u64,
    delta: LimitDelta,
    before: Result<u64, Fault>,
)
    requires
        call_ensures(Monitor::limit_current, (m, current, now), r),
        old(m).ending == Some(Ending::Limit { limit, delta, current: before }),
    ensures
        final(m).ending == Some(Ending::Limit { limit, delta, current }),
        current matches Ok(usage) ==> final(m).peak >= usage && final(m).peak >= old(m).peak && (
        final(m).peak == usage || final(m).peak == old(m).peak),
        current is Err ==> final(m).peak == old(m).peak,
        old(m).policy.limit_grace@ == 0 ==> r == MonitorAction::TakeDuringGrace,
        old(m).policy.limit_grace@ > 0 ==> (r matches MonitorAction::TerminateAndWait(wait)
            && wait@ <= old(m).policy.limit_grace@ && (old(
            m).context.supervision_deadline_remaining is None ==> wait@ == old(
            m).policy.limit_grace@)),
        final(m).stage == MonitorStage::Grace,
{
}

/// Usages raise the peak, and never lower it.
pub proof fn peaks_only_rise(m: &mut Monitor, usage: u64, now: Duration, r: MonitorAction)
    requires
        call_ensures(Monitor::current, (m, Ok::<u64, Fault>(usage), now), r),
    ensures
        final(m).peak >= usage && final(m).peak >= old(m).peak,
        final(m).peak == usage || final(m).peak == old(m).peak,
        r == MonitorAction::TakeSignal && final(m).stage == MonitorStage::Signal,
        final(m).ending == old(m).ending && final(m).stored == old(m).stored,
{
}

/// A usage that cannot be read ends the attempt by force.
pub proof fn unread_usages_end_the_attempt(
    m: &mut Monitor,
    fault: Fault,
    now: Duration,
    r: MonitorAction,
)
    requires
        call_ensures(Monitor::current, (m, Err::<u64, Fault>(fault), now), r),
    ensures
        final(m).ending == Some(Ending::Failed { fault: MonitorFault::MemoryCurrent(fault) }),
        r matches MonitorAction::Cleanup { force, .. } && force,
{
}

/// An attempt's deadline counts from its authorization: it ends the attempt from the
/// instant at which its duration is over, and not before. Without a supervision the whole
/// grace of the policy follows.
pub proof fn durations_that_are_over_end_the_attempt(
    m: &mut Monitor,
    reap: Result<Option<ChildTermination>, Fault>,
    now: Duration,
    r: MonitorAction,
    deadline: Deadline,
)
    requires
        old(m).wf(),
        old(m).stage == MonitorStage::Cycle,
        call_ensures(Monitor::cycle, (m, reap, None::<MemoryEvents>, now), r),
        old(m).policy.deadline == Some(deadline),
        old(m).context.supervision_deadline_remaining is None,
        now@ >= old(m).authorized@,
    ensures
        now@ - old(m).authorized@ >= deadline.duration@ ==> {
            &&& final(m).ending matches Some(
                Ending::Deadline { deadline: told, grace_started, effective_grace },
            )
            &&& told == deadline && grace_started == now && effective_grace@ == old(
                m).policy.limit_grace@
            &&& old(m).policy.limit_grace@ == 0 ==> r == MonitorAction::TakeDuringGrace
            &&& old(m).policy.limit_grace@ > 0 ==> r == MonitorAction::TerminateAndWait(
                effective_grace,
            )
        },
        now@ - old(m).authorized@ < deadline.duration@ ==> !(final(m).ending matches Some(
            Ending::Deadline { .. },
        )),
{
}

/// Within a supervision, what it has left bounds the attempt and its grace.
pub proof fn supervisions_bound_the_attempt(
    m: &mut Monitor,
    reap: Result<Option<ChildTermination>, Fault>,
    now: Duration,
    r: MonitorAction,
    deadline: Deadline,
    left: Duration,
)
    requires
        old(m).wf(),
        old(m).stage == MonitorStage::Cycle,
        call_ensures(Monitor::cycle, (m, reap, None::<MemoryEvents>, now), r),
        old(m).policy.deadline == Some(deadline),
        old(m).context.supervision_deadline_remaining == Some(left),
        now@ >= old(m).authorized@,
    ensures
        (final(m).ending matches Some(Ending::Deadline { .. })) <==> now@ - old(m).authorized@
            >= left@,
        final(m).ending matches Some(Ending::Deadline { effective_grace, .. })
            ==> effective_grace@ <= old(m).policy.limit_grace@ && (now@ >= left@
            ==> effective_grace@ == 0) && (now@ < left@ ==> now@ + effective_grace@ <= left@),
{
}

/// A reported memory limit goes before a deadline that passed.
pub proof fn limits_go_before_deadlines(
    m: &mut Monitor,
    reap: Result<Option<ChildTermination>, Fault>,
    seen: MemoryEvents,
    now: Duration,
    r: MonitorAction,
)
    requires
        old(m).wf(),
        old(m).stage == MonitorStage::Cycle,
        call_ensures(Monitor::cycle, (m, reap, Some(seen), now), r),
        old(m).baseline matches Some(baseline) && rose(baseline, seen),
    ensures
        r == MonitorAction::ReadEvents,
        final(m).ending is None,
{
}

/// Without a deadline no cycle ends the attempt by one.
pub proof fn no_deadline_no_expiry(
    m: &mut Monitor,
    reap: Result<Option<ChildTermination>, Fault>,
    due: Option<MemoryEvents>,
    now: Duration,
    r: MonitorAction,
)
    requires
        old(m).wf(),
        old(m).stage == MonitorStage::Cycle,
        call_ensures(Monitor::cycle, (m, reap, due, now), r),
        old(m).policy.deadline is None,
    ensures
        old(m).policy.memory is Some ==> r == MonitorAction::ReadEvents && final(m).ending is None,
        old(m).policy.memory is None && (old(m).stored is Some || reap is Ok) ==> r
            == MonitorAction::TakeSignal && final(m).ending is None,
        old(m).policy.memory is None && old(m).stored is None && reap is Err ==> final(m).ending
            == Some(Ending::Failed { fault: MonitorFault::ChildWait(reap->Err_0) }) && (
        r matches MonitorAction::Cleanup { force, .. } && force),
{
}

/// What a wait on the child tells is kept, the first time it tells of an end.
pub proof fn child_ends_are_kept(
    m: &mut Monitor,
    reap: Result<Option<ChildTermination>, Fault>,
    due: Option<MemoryEvents>,
    now: Duration,
    r: MonitorAction,
)
    requires
        call_ensures(Monitor::cycle, (m, reap, due, now), r),
    ensures
        old(m).stored is Some ==> final(m).stored == old(m).stored,
        old(m).stored is None ==> match reap {
            Ok(status) => final(m).stored == status,
            Err(_) => final(m).stored is None,
        },
        final(m).peak == old(m).peak && final(m).pending_signal == old(m).pending_signal,
{
}

/// A signal that is pending, or else the one that was taken, ends the attempt and is passed
/// on; the policy's grace for signals follows.
pub proof fn signals_interrupt_the_attempt(
    m: &mut Monitor,
    taken: Option<i32>,
    now: Duration,
    r: MonitorAction,
    signal: i32,
)
    requires
        call_ensures(Monitor::signal, (m, taken, now), r),
        old(m).pending_signal == Some(signal) || old(m).pending_signal is None && taken == Some(
            signal,
        ),
    ensures
        final(m).ending == Some(Ending::Interrupted { signal }),
        final(m).pending_signal is None,
        final(m).stage == MonitorStage::Signalled,
        old(m).policy.signal_grace@ == 0 ==> r == (MonitorAction::Forward { signal }),
        old(m).policy.signal_grace@ > 0 ==> (r matches MonitorAction::ForwardAndWait {
            signal: told,
            wait,
        } && told == signal && wait@ <= old(m).policy.signal_grace@ && (old(
            m).context.supervision_deadline_remaining is None ==> wait@ == old(
            m).policy.signal_grace@)),
{
}

/// Without a signal a cycle ends nothing: a child that left is looked into, and one that
/// runs is waited for, no longer than the poll interval.
pub proof fn quiet_cycles_go_on(m: &mut Monitor, now: Duration, r: MonitorAction)
    requires
        call_ensures(Monitor::signal, (m, None::<i32>, now), r),
        old(m).pending_signal is None,
    ensures
        final(m).ending == old(m).ending,
        old(m).stored is Some ==> r == MonitorAction::ReadPopulated && final(m).stage
            == MonitorStage::Populated,
        old(m).stored is None ==> (r matches MonitorAction::Wait(wait) && wait@ <= old(
            m).policy.poll_interval@ && (old(m).exit_grace_started is None ==> wait@ == old(
            m).policy.poll_interval@)) && final(m).stage == MonitorStage::Waiting,
{
}

/// A command that left ends the attempt with its own end: at once where no member is left
/// of its workload. Members that are left are cleared up once the policy's grace for them
/// is over; a policy for the whole workload waits until no member is left.
pub proof fn ended_commands_end_the_attempt(
    m: &mut Monitor,
    members: bool,
    now: Duration,
    r: MonitorAction,
    child: ChildTermination,
)
    requires
        call_ensures(Monitor::populated, (m, Ok::<bool, Fault>(members), now), r),
        old(m).wf(),
        old(m).stage == MonitorStage::Populated,
        old(m).stored == Some(child),
    ensures
        ({
            let whole = old(m).policy.lifetime == Lifetime::Workload;
            let grace = old(m).policy.command_exit_grace@;
            let over = old(m).exit_grace_started matches Some(started) && now@ >= started@ + grace;
            let ends = !members || (!whole && (grace == 0 || over));
            &&& ends ==> final(m).ending == Some(Ending::Exited { child, workload_empty: !members })
            &&& !members ==> r == MonitorAction::Finish && final(m).stage == MonitorStage::Over
            &&& ends && members ==> (r matches MonitorAction::Cleanup { force, .. } && !force)
            &&& !ends ==> final(m).ending is None && (r matches MonitorAction::Wait(wait) && wait@
                <= old(m).policy.poll_interval@)
            &&& !ends && whole ==> final(m).exit_grace_started == old(m).exit_grace_started
            &&& !ends && !whole ==> final(m).exit_grace_started == Some(
                match old(m).exit_grace_started {
                    Some(started) => started,
                    None => now,
                },
            )
        }),
{
}

/// Members that cannot be looked for end the attempt by force.
pub proof fn unread_members_end_the_attempt(
    m: &mut Monitor,
    fault: Fault,
    now: Duration,
    r: MonitorAction,
)
    requires
        call_ensures(Monitor::populated, (m, Err::<bool, Fault>(fault), now), r),
    ensures
        final(m).ending == Some(Ending::Failed { fault: MonitorFault::CgroupEvents(fault) }),
        r matches MonitorAction::Cleanup { force, .. } && force,
{
}

/// A signal during a grace takes the place of what had ended the attempt; without one the
/// workload is then killed.
pub proof fn graces_end_in_force(
    m: &mut Monitor,
    interrupted: Option<i32>,
    now: Duration,
    r: MonitorAction,
)
    requires
        call_ensures(Monitor::graced, (m, interrupted, now), r),
    ensures
        interrupted matches Some(signal) ==> final(m).ending == Some(
            Ending::Interrupted { signal },
        ) && r == (MonitorAction::Forward { signal }),
        interrupted is None ==> final(m).ending == old(m).ending && (
        r matches MonitorAction::Cleanup { force, deadline } && force && (old(
            m).context.supervision_deadline_remaining is None && now@ + 5_000_000_000
            <= u64::MAX ==> deadline@ == now@ + 5_000_000_000) && (old(
            m).context.supervision_deadline_remaining matches Some(left) ==> deadline@ <= left@)),
{
}

/// A workload that was given its signal is then killed.
pub proof fn signals_end_in_force(m: &mut Monitor, now: Duration, r: MonitorAction)
    requires
        call_ensures(Monitor::signalled, (m, now), r),
    ensures
        final(m).ending == old(m).ending && final(m).stage == MonitorStage::Cleanup,
        r matches MonitorAction::Cleanup { force, .. } && force,
{
}

/// A wait leads to the next cycle with the signal that came during it.
pub proof fn waits_lead_to_the_next_cycle(m: &mut Monitor, signal: Option<i32>, r: MonitorAction)
    requires
        call_ensures(Monitor::waited, (m, signal), r),
    ensures
        r == MonitorAction::StartCycle && final(m).stage == MonitorStage::Cycle,
        final(m).pending_signal == signal,
        final(m).stored == old(m).stored && final(m).peak == old(m).peak && final(m).ending == old(
            m).ending,
{
}

/// What the cleanup learned of the child's end is kept, and ends the attempt.
pub proof fn cleanups_end_the_attempt(
    m: &mut Monitor,
    stored: Option<ChildTermination>,
    r: MonitorAction,
)
    requires
        call_ensures(Monitor::cleaned, (m, stored), r),
    ensures
        r == MonitorAction::Finish && final(m).stage == MonitorStage::Over,
        final(m).stored == stored && final(m).ending == old(m).ending && final(m).peak == old(
            m).peak,
{
}

/// The outcome is the ending: how the child really ended, the limit with its usage and a
/// peak that is never below what was seen, the signal, or the fault's words; what was
/// given back is passed on.
pub proof fn outcomes_tell_the_ending(
    m: Monitor,
    cleanup: CleanupSummary,
    kernel_peak: Option<u64>,
    now: Duration,
    accepted: bool,
    r: Result<RunOutcome, Error>,
)
    requires
        m.wf(),
        m.stage == MonitorStage::Over,
        call_ensures(Monitor::conclude, (m, cleanup, kernel_peak, now, accepted), r),
        !(m.ending matches Some(Ending::Deadline { .. })),
    ensures
        r is Ok,
        m.ending matches Some(Ending::Exited { child, .. }) ==> (r->Ok_0 matches RunOutcome::Exited {
            child: told,
            peak,
            cleanup: back,
        } && told == child && (peak is Some <==> m.policy.memory is Some) && (peak matches Some(
            bytes,
        ) ==> is_peak(bytes, kernel_peak, m.peak)) && same_cleanup(back, cleanup)),
        m.ending matches Some(Ending::Limit { limit, delta, current }) ==> (
        r->Ok_0 matches RunOutcome::LimitExceeded {
            limit: told,
            observed,
            peak,
            evidence,
            child_after_termination,
            cleanup: back,
        } && told == limit && observed == (match current {
            Ok(usage) => Some(usage),
            Err(_) => None,
        }) && (peak matches Some(bytes) && is_peak(bytes, kernel_peak, m.peak))
            && child_after_termination == m.stored && evidence.backend@ == "linux-cgroup-v2"@
            && evidence.metric@ == "linux-cgroup-memory"@ && same_cleanup(back, cleanup)),
        m.ending matches Some(Ending::Interrupted { signal }) ==> (
        r->Ok_0 matches RunOutcome::Interrupted {
            signal: told,
            child_after_termination,
            cleanup: back,
        } && told == signal && child_after_termination == m.stored && same_cleanup(back, cleanup)),
        m.ending matches Some(Ending::Failed { fault }) ==> (
        r->Ok_0 matches RunOutcome::MonitorFailed {
            error,
            child_after_termination,
            cleanup: back,
        } && child_after_termination == m.stored && same_cleanup(back, cleanup) && (
        fault matches MonitorFault::ChildWait(f) ==> error@ == "direct-child wait failed: "@
            + f.text.chars()) && (fault matches MonitorFault::MemoryEvents(f) ==> error@
            == "memory.events read failed: "@ + f.text.chars())),
{
}

/// Whether a peak is the higher of the kernel's, where it has one, and the one seen.
pub open spec fn is_peak(bytes: u64, kernel: Option<u64>, seen: u64) -> bool {
    bytes >= seen && match kernel {
        Some(peak) => bytes >= peak && (bytes == peak || bytes == seen),
        None => bytes == seen,
    }
}

/// A deadline that ended the attempt is told with its duration and scope and with the times
/// at which it fell and was seen, counted from the supervision's start in whole
/// milliseconds; without accepted evidence there is no outcome.
pub proof fn deadlines_are_told_with_their_times(
    m: Monitor,
    cleanup: CleanupSummary,
    kernel_peak: Option<u64>,
    now: Duration,
    accepted: bool,
    r: Result<RunOutcome, Error>,
    deadline: Deadline,
    grace_started: Duration,
    effective_grace: Duration,
)
    requires
        call_ensures(Monitor::conclude, (m, cleanup, kernel_peak, now, accepted), r),
        m.ending == Some(Ending::Deadline { deadline, grace_started, effective_grace }),
        m.context.supervision_deadline_remaining is None,
        m.context.supervision_offset@ + deadline.duration@ <= u64::MAX,
        m.context.supervision_offset@ + now@ <= u64::MAX,
        m.policy.limit_grace@ <= u64::MAX,
        now@ >= m.authorized@,
        now@ >= grace_started@,
    ensures
        !accepted ==> (r matches Err(error) && error.code == "MCLIMIT-DEADLINE-EVIDENCE"),
        accepted ==> (r matches Ok(
            RunOutcome::DeadlineExceeded { deadline: told, child_after_termination, peak, .. },
        ) && {
            &&& told.scope == deadline.scope
            &&& told.duration_ms == deadline.duration@ / 1_000_000
            &&& told.expires_ms as nat == (m.context.supervision_offset@ + deadline.duration@)
                / 1_000_000
            &&& told.observed_ms as nat == (m.context.supervision_offset@ + (now@
                - m.authorized@)) as nat / 1_000_000
            &&& told.grace_ms == m.policy.limit_grace@ / 1_000_000
            &&& now@ - grace_started@ <= effective_grace@ ==> told.grace_used_ms as nat == (now@
                - grace_started@) as nat / 1_000_000
            &&& told.graceful_action is Some <==> m.policy.limit_grace@ > 0
            &&& told.forced_action == Some("cgroup-kill")
            &&& child_after_termination == m.stored
            &&& peak == if m.policy.memory is Some {
                Some(m.peak)
            } else {
                None
            }
        }),
{
}

/// Closing an outcome changes nothing of what happened: it adds a finding for a guardian and
/// for a control group that could not be given back, and says of each whether it was.
pub proof fn closing_adds_findings_only(
    outcome: &mut RunOutcome,
    disarm: Result<(), Fault>,
    removal: Result<(), Fault>,
    r: BackendCleanupFacts,
)
    requires
        call_ensures(close_outcome, (outcome, disarm, removal), r),
        *old(outcome) matches RunOutcome::Exited { .. },
    ensures
        *old(outcome) matches RunOutcome::Exited { child, peak, cleanup } && (
        *final(outcome) matches RunOutcome::Exited { child: c, peak: p, cleanup: back } && c == child
            && p == peak && back.direct_child_reaped == cleanup.direct_child_reaped
            && back.workload_empty == cleanup.workload_empty && back.errors@.len()
            == cleanup.errors@.len() + (if disarm is Err {
            1int
        } else {
            0
        }) + (if removal is Err {
            1int
        } else {
            0
        }) && back.errors@.take(cleanup.errors@.len() as int) =~= cleanup.errors@
            && r.direct_child_reaped == cleanup.direct_child_reaped && r.workload_empty
            == cleanup.workload_empty && r.errors@.len() == back.errors@.len()),
        r.helpers_reaped <==> disarm is Ok,
        r.containment_removed <==> removal is Ok,
{
    assert(crate::model::texts(r.errors@).len() == r.errors@.len());
}

/// A workload that left by itself left nothing behind.
pub proof fn workloads_that_left_are_gone(r: CleanupSummary)
    requires
        call_ensures(left_by_itself, (), r),
    ensures
        r.direct_child_reaped && r.workload_empty == Some(true),
        !r.graceful_attempted && !r.force_attempted && r.errors@.len() == 0,
{
}

} // verus!
