//! The watch of a running attempt on macOS.

use vstd::prelude::*;

use crate::evidence::{ChildTermination, Error, RunOutcome};
use crate::macos_watchdog::{
    watchdog_turn_wait, Reading, WatchAction, WatchEnding, WatchStage, Watchdog,
};
use crate::model::{CleanupSummary, Fault, SIGKILL, SIGTERM, Text};
use crate::policy::{Deadline, Lifetime};
use crate::time::Duration;

verus! {

/// With memory limited, a turn that read the usage of a workload with members ends the
/// attempt just where the usage is not below the limit: it is then retired, by force at
/// once where it gets no grace, and the ending names the limit and the usage.
pub proof fn usages_not_below_the_limit_end_the_attempt(
    w: &mut Watchdog,
    now: Duration,
    clock: Result<u64, Fault>,
    r: Result<WatchAction, Error>,
    limit: u64,
    usage: u64,
)
    requires
        old(w).wf(),
        old(w).stage == WatchStage::Decide,
        call_ensures(Watchdog::decide, (w, now, clock), r),
        old(w).policy.memory == Some(limit),
        old(w).turn.reading == Some(Reading::Members { empty: false, sample: Some(Ok(usage)) }),
        clock matches Ok(tick) && tick + old(w).policy.limit_grace@ <= u64::MAX,
    ensures
        usage >= limit ==> {
            &&& final(w).ending == Some(WatchEnding::Limit { limit, usage })
            &&& final(w).stage == WatchStage::Retire
            &&& r matches Ok(WatchAction::Retire { signal, grace, deadline })
            &&& signal == SIGKILL <==> old(w).policy.limit_grace@ == 0
            &&& signal == SIGTERM <==> old(w).policy.limit_grace@ > 0
            &&& grace == old(w).policy.limit_grace
            &&& deadline@ == now@ + grace@ + 3_000_000_000
            &&& final(w).terminal == Some(clock->Ok_0)
            &&& final(w).force matches Some(force) && force == clock->Ok_0 + grace@
        },
        usage < limit ==> !(final(w).ending matches Some(WatchEnding::Limit { .. })),
        r is Ok ==> final(w).peak >= usage && final(w).peak >= old(w).peak && (final(w).peak
            == usage || final(w).peak == old(w).peak),
{
}

/// A usage ends the attempt only where it was read of members and memory is limited: an
/// empty workload, a missing sample and a policy without a limit never do.
pub proof fn only_read_usages_reach_the_limit(
    w: &mut Watchdog,
    now: Duration,
    clock: Result<u64, Fault>,
    r: Result<WatchAction, Error>,
)
    requires
        old(w).wf(),
        old(w).stage == WatchStage::Decide,
        call_ensures(Watchdog::decide, (w, now, clock), r),
        final(w).ending matches Some(WatchEnding::Limit { .. }),
    ensures
        final(w).ending matches Some(WatchEnding::Limit { limit, usage }) && old(w).policy.memory
            == Some(limit) && usage >= limit && old(w).turn.reading == Some(
            Reading::Members { empty: false, sample: Some(Ok(usage)) },
        ),
{
}

/// Where no usage reaches the limit, the instant at which the deadline falls decides: at
/// or after it the attempt ends with the deadline, and before it does not. What is left
/// of the grace counts from that instant, not from when it was noticed.
pub proof fn instants_not_before_the_expiry_end_the_attempt(
    w: &mut Watchdog,
    now: Duration,
    tick: u64,
    r: Result<WatchAction, Error>,
    deadline: Deadline,
    expiry: u64,
)
    requires
        old(w).wf(),
        old(w).stage == WatchStage::Decide,
        call_ensures(Watchdog::decide, (w, now, Ok::<u64, Fault>(tick)), r),
        old(w).policy.deadline == Some(deadline),
        old(w).plan.work_expiry == Some(expiry),
        old(w).policy.memory is None || (old(w).turn.reading matches Some(
            Reading::Members { empty: false, sample: Some(Ok(usage)) },
        ) ==> usage < old(w).policy.memory->0),
        expiry + old(w).policy.limit_grace@ + 3_000_000_000 <= u64::MAX,
    ensures
        tick >= expiry ==> {
            &&& final(w).stage == WatchStage::Retire
            &&& final(w).terminal == Some(tick)
            &&& final(w).ending matches Some(
                WatchEnding::Deadline {
                    deadline: named,
                    expiry: at,
                    observed,
                    grace_started,
                    effective_grace,
                },
            )
            &&& named == deadline && at == expiry && observed == tick && grace_started@ == now@
            &&& r matches Ok(WatchAction::Retire { signal, grace, deadline: until })
            &&& grace@ == effective_grace@
            &&& tick >= expiry + old(w).policy.limit_grace@ ==> grace@ == 0 && signal == SIGKILL
            &&& tick < expiry + old(w).policy.limit_grace@ ==> tick + grace@ == expiry
                + old(w).policy.limit_grace@ && signal == SIGTERM
            &&& tick <= expiry + old(w).policy.limit_grace@ + 3_000_000_000 ==> until@ + tick
                == now@ + expiry + old(w).policy.limit_grace@ + 3_000_000_000
        },
        tick < expiry ==> !(final(w).ending matches Some(WatchEnding::Deadline { .. })),
{
}

/// A turn in which nothing ends the attempt asks for a signal next, keeps what is known
/// of the child and leaves no ending.
pub proof fn quiet_turns_go_on(
    w: &mut Watchdog,
    now: Duration,
    tick: u64,
    r: Result<WatchAction, Error>,
)
    requires
        old(w).wf(),
        old(w).stage == WatchStage::Decide,
        call_ensures(Watchdog::decide, (w, now, Ok::<u64, Fault>(tick)), r),
        old(w).policy.memory is None || (old(w).turn.reading matches Some(
            Reading::Members { empty, sample },
        ) ==> empty || (sample matches Some(Ok(usage)) && usage < old(w).policy.memory->0)),
        old(w).policy.deadline is Some ==> tick < old(w).plan.work_expiry->0,
        old(w).turn.fault is None,
        !(old(w).turn.reading matches Some(Reading::Failed(_))),
    ensures
        final(w).ending is None,
        final(w).stage == WatchStage::Signal,
        final(w).stored == old(w).stored,
        final(w).pending_signal == old(w).pending_signal,
        r == Ok::<WatchAction, Error>(WatchAction::TakeSignal) || r == Ok::<WatchAction, Error>(
            WatchAction::KnownSignal,
        ),
        r == Ok::<WatchAction, Error>(WatchAction::KnownSignal) <==> old(w).pending_signal is Some,
        old(w).turn.reading matches Some(Reading::Members { empty, .. }) ==> final(w).turn.empty
            == empty,
{
}

/// A fault of the watch ends an attempt that nothing else ends, with the fault's words
/// and by force.
pub proof fn faults_end_the_attempt_by_force(
    w: &mut Watchdog,
    now: Duration,
    tick: u64,
    r: Result<WatchAction, Error>,
    text: Text,
)
    requires
        old(w).wf(),
        old(w).stage == WatchStage::Decide,
        call_ensures(Watchdog::decide, (w, now, Ok::<u64, Fault>(tick)), r),
        old(w).policy.deadline is Some ==> tick < old(w).plan.work_expiry->0,
        old(w).turn.fault is None && old(w).turn.reading == Some(Reading::Failed(text)) || (
        old(w).turn.fault == Some(text) && old(w).turn.reading is None),
    ensures
        final(w).ending matches Some(WatchEnding::Failed { text: said }) && said.chars()
            == text.chars(),
        r matches Ok(WatchAction::Retire { signal, grace, .. }) && signal == SIGKILL && grace@ == 0,
        final(w).stage == WatchStage::Retire,
{
}

/// An attempt whose memory is limited is not watched blindly: where members were found
/// and their usage could not be read, that is a fault of the watch.
pub proof fn unread_usages_are_faults(
    w: &mut Watchdog,
    now: Duration,
    tick: u64,
    r: Result<WatchAction, Error>,
    sample: Option<Result<u64, String>>,
)
    requires
        old(w).wf(),
        old(w).stage == WatchStage::Decide,
        call_ensures(Watchdog::decide, (w, now, Ok::<u64, Fault>(tick)), r),
        old(w).policy.memory is Some,
        old(w).policy.deadline is Some ==> tick < old(w).plan.work_expiry->0,
        old(w).turn.reading == Some(Reading::Members { empty: false, sample }),
        !(sample matches Some(Ok(_))),
    ensures
        final(w).ending matches Some(WatchEnding::Failed { text }) && (sample matches Some(
            Err(said),
        ) ==> text.chars() == said@) && (sample is None ==> text.chars()
            == "guardian sample response missing"@),
{
}

/// A clock that is needed and cannot be read fails the attempt.
pub proof fn unread_clocks_fail_the_attempt(
    w: &mut Watchdog,
    now: Duration,
    fault: Fault,
    r: Result<WatchAction, Error>,
)
    requires
        call_ensures(Watchdog::decide, (w, now, Err::<u64, Fault>(fault)), r),
        old(w).policy.deadline is Some || (old(w).policy.memory matches Some(limit) && old(w).turn.reading matches Some(
            Reading::Members { empty: false, sample: Some(Ok(usage)) },
        ) && usage >= limit),
    ensures
        r matches Err(error) && error.code == "MCMONITOR-CLOCK" && error.message@
            == fault.text.chars() && !error.target_released,
{
}

/// A signal that is pending, or else the one that was taken, ends the attempt: it is
/// passed on, and the policy's grace for signals follows.
pub proof fn signals_end_the_attempt(
    w: &mut Watchdog,
    taken: Option<i32>,
    now: Duration,
    tick: u64,
    r: Result<WatchAction, Error>,
    signal: i32,
)
    requires
        call_ensures(Watchdog::signal, (w, taken, now, Ok::<u64, Fault>(tick)), r),
        old(w).pending_signal == Some(signal) || (old(w).pending_signal is None && taken == Some(
            signal,
        )),
        tick + old(w).policy.signal_grace@ <= u64::MAX,
    ensures
        final(w).ending == Some(WatchEnding::Interrupted { signal }),
        final(w).pending_signal is None,
        r matches Ok(WatchAction::Retire { signal: passed_on, grace, deadline }) && passed_on
            == signal && grace == old(w).policy.signal_grace && deadline@ == now@ + grace@
            + 3_000_000_000,
        final(w).terminal == Some(tick),
        final(w).force matches Some(force) && force == tick + old(w).policy.signal_grace@,
        final(w).stored == old(w).stored,
{
}

/// Without a signal an attempt ends with its command's own end, once the command left and
/// no inventory is awaited: at once where nothing is left of the workload, where the
/// policy gives what is left no grace or where that grace is over; a policy for the whole
/// workload waits until nothing is left.
pub proof fn ended_commands_end_the_attempt(
    w: &mut Watchdog,
    now: Duration,
    clock: Result<u64, Fault>,
    r: Result<WatchAction, Error>,
    child: ChildTermination,
    started: Duration,
)
    requires
        call_ensures(Watchdog::signal, (w, None::<i32>, now, clock), r),
        old(w).wf(),
        old(w).stage == WatchStage::Signal,
        old(w).pending_signal is None,
        old(w).stored == Some(child),
        old(w).turn.completion,
        old(w).query is None,
        old(w).exit_grace_started == Some(started),
    ensures
        ({
            let left = !old(w).turn.empty;
            let whole = old(w).policy.lifetime == Lifetime::Workload;
            let grace = old(w).policy.command_exit_grace@;
            let ends = !left || (!whole && (grace == 0 || now@ >= started@ + grace));
            &&& ends ==> final(w).ending == Some(
                WatchEnding::Exited { child, empty: old(w).turn.empty },
            )
            &&& ends && !left ==> r == Ok::<WatchAction, Error>(WatchAction::Finish) && final(w).stage == WatchStage::Over
            &&& ends && left ==> (r matches Ok(WatchAction::RetireAfterExit { deadline }) && final(w).cleanup_expiry == Some(deadline) && (old(w).cleanup_expiry is None ==> deadline@
                == now@ + 3_000_000_000))
            &&& !ends ==> final(w).ending is None && (r matches Ok(WatchAction::WaitSignal(_)))
        }),
{
}

/// A command that has not left is waited for: no turn without a signal ends the attempt,
/// and no wait outlasts the poll interval or the deadline.
pub proof fn running_commands_are_waited_for(
    w: &mut Watchdog,
    now: Duration,
    clock: Result<u64, Fault>,
    r: Result<WatchAction, Error>,
)
    requires
        call_ensures(Watchdog::signal, (w, None::<i32>, now, clock), r),
        old(w).wf(),
        old(w).stage == WatchStage::Signal,
        old(w).pending_signal is None,
        old(w).stored is None,
        old(w).exit_grace_started is None,
        old(w).query is None,
    ensures
        final(w).ending is None,
        final(w).stage == WatchStage::Wait,
        r matches Ok(WatchAction::WaitExit(wait)) && wait@ <= old(w).policy.poll_interval@
            && wait@ <= 20_000_000 && (old(w).policy.deadline matches Some(deadline) ==> (old(w).context.supervision_deadline_remaining is None && now@ <= deadline.duration@ ==> now@
            + wait@ <= deadline.duration@)) && (old(w).policy.deadline is None ==> wait@ == old(w).policy.poll_interval@ || wait@ == 20_000_000),
{
}

/// What a wait on the child tells is kept, the first time it tells of an end, and a
/// command's grace begins then.
pub proof fn ends_are_kept(
    w: &mut Watchdog,
    reap: Result<Option<ChildTermination>, Fault>,
    now: Duration,
    r: WatchAction,
)
    requires
        call_ensures(Watchdog::reaped, (w, reap, now), r),
        old(w).wf(),
    ensures
        old(w).stored is Some ==> final(w).stored == old(w).stored,
        old(w).stored is None ==> match reap {
            Ok(status) => final(w).stored == status && final(w).turn.fault is None,
            Err(fault) => final(w).stored is None && (final(w).turn.fault matches Some(text)
                && text.chars() == "direct-child wait failed: "@ + fault.text.chars()),
        },
        final(w).turn.completion <==> final(w).stored is Some && old(w).policy.lifetime
            == Lifetime::Command,
        final(w).turn.completion ==> final(w).exit_grace_started == if old(w).exit_grace_started is None {
            Some(now)
        } else {
            old(w).exit_grace_started
        },
        final(w).turn.reading is None,
        old(w).query matches Some(query) ==> r == WatchAction::Poll(query),
        old(w).query is None ==> r == WatchAction::SendAlive,
{
}

/// An inventory that came is what the turn reads, and is no longer awaited; one that did
/// not come stays awaited.
pub proof fn inventories_are_read_once(
    w: &mut Watchdog,
    polled: Result<Option<Reading>, String>,
    now: Duration,
    r: WatchAction,
)
    requires
        call_ensures(Watchdog::polled, (w, polled, now), r),
    ensures
        match polled {
            Ok(Some(reading)) => final(w).turn.reading == Some(reading) && final(w).query is None
                && r == WatchAction::ReadClock,
            Err(text) => (final(w).turn.reading matches Some(Reading::Failed(said)) && said.chars()
                == text@) && final(w).query is None && r == WatchAction::ReadClock,
            Ok(None) => final(w).turn.reading == old(w).turn.reading && final(w).query == old(w).query && (r == WatchAction::SendAlive <==> now@ >= old(w).next_heartbeat@),
        },
{
}

/// The same of an inventory that was just asked for.
pub proof fn inventories_just_asked_for_are_read(
    w: &mut Watchdog,
    polled: Result<Option<Reading>, String>,
    r: WatchAction,
)
    requires
        call_ensures(Watchdog::polled_again, (w, polled), r),
    ensures
        r == WatchAction::ReadClock && final(w).stage == WatchStage::Decide,
        match polled {
            Ok(Some(reading)) => final(w).turn.reading == Some(reading) && final(w).query is None,
            Err(text) => (final(w).turn.reading matches Some(Reading::Failed(said)) && said.chars()
                == text@) && final(w).query is None,
            Ok(None) => final(w).turn.reading == old(w).turn.reading && final(w).query == old(w).query,
        },
{
}

/// A workload's usage is asked for just where its memory is limited, by the policy's
/// metric, and an inventory that is awaited is not asked for again.
pub proof fn usages_are_asked_for_where_limited(
    w: &mut Watchdog,
    sent: Result<(), Fault>,
    now: Duration,
    r: WatchAction,
)
    requires
        call_ensures(Watchdog::alive_sent, (w, sent, now), r),
    ensures
        old(w).query is Some ==> r == WatchAction::ReadClock,
        old(w).query is None ==> (r matches WatchAction::BeginInventory { metric } && (old(w).policy.memory is Some ==> metric == Some(old(w).policy.metric)) && (old(w).policy.memory is None ==> metric is None)),
        final(w).next_heartbeat@ == now@ + 500_000_000,
        sent matches Err(fault) ==> final(w).turn.fault matches Some(text) && text.chars()
            == fault.text.chars(),
{
}

/// A wait that is over leads to the next turn with the signal that came during it; one
/// that failed ends the attempt by force.
pub proof fn waits_lead_to_the_next_turn(
    w: &mut Watchdog,
    waited: Result<Option<i32>, Fault>,
    now: Duration,
    clock: Result<u64, Fault>,
    r: WatchAction,
)
    requires
        call_ensures(Watchdog::waited, (w, waited, now, clock), r),
    ensures
        match waited {
            Ok(signal) => r == WatchAction::Reap && final(w).pending_signal == signal && final(w).ending == old(w).ending && final(w).stored == old(w).stored && final(w).stage
                == WatchStage::Reap,
            Err(fault) => (r matches WatchAction::Retire { signal, grace, .. } && signal == SIGKILL
                && grace@ == 0) && (final(w).ending matches Some(WatchEnding::Failed { text })
                && text.chars() == "kqueue wait failed: "@ + fault.text.chars()),
        },
{
}

/// The outcome is the ending: how the child really ended, the limit with the usage that
/// reached it, the signal, or the fault's words; the peak is told where memory is
/// limited, and what was given back is passed on.
pub proof fn outcomes_tell_the_ending(
    w: Watchdog,
    cleanup: CleanupSummary,
    now: Duration,
    accepted: bool,
    r: Result<RunOutcome, Error>,
)
    requires
        w.wf(),
        w.stage == WatchStage::Over,
        call_ensures(Watchdog::conclude, (w, cleanup, now, accepted), r),
        !(w.ending matches Some(WatchEnding::Deadline { .. })),
    ensures
        r is Ok,
        w.ending matches Some(WatchEnding::Exited { child, .. }) ==> r->Ok_0 matches
            RunOutcome::Exited { child: told, peak, cleanup: back } && told == child && peak == if w.policy.memory is Some {
            Some(w.peak)
        } else {
            None
        } && same_cleanup(back, cleanup),
        w.ending matches Some(WatchEnding::Limit { limit, usage }) ==> r->Ok_0 matches
            RunOutcome::LimitExceeded {
            limit: told,
            observed,
            peak,
            evidence,
            child_after_termination,
            cleanup: back,
        } && told == limit && observed == Some(usage) && peak == Some(w.peak)
            && child_after_termination == w.stored && evidence.backend@ == "macos-watchdog"@
            && same_cleanup(back, cleanup),
        w.ending matches Some(WatchEnding::Interrupted { signal }) ==> r->Ok_0 matches
            RunOutcome::Interrupted { signal: told, child_after_termination, cleanup: back }
            && told == signal && child_after_termination == w.stored && same_cleanup(back, cleanup),
        w.ending matches Some(WatchEnding::Failed { text }) ==> r->Ok_0 matches
            RunOutcome::MonitorFailed { error, child_after_termination, cleanup: back } && error@
            == text.chars() && child_after_termination == w.stored && same_cleanup(back, cleanup),
{
}

/// Whether two summaries say the same.
pub open spec fn same_cleanup(a: CleanupSummary, b: CleanupSummary) -> bool {
    a.graceful_attempted == b.graceful_attempted && a.force_attempted == b.force_attempted
        && a.direct_child_reaped == b.direct_child_reaped && a.workload_empty == b.workload_empty
        && a.errors@ == b.errors@
}

/// A deadline that ended the attempt is told with its duration and scope and with the
/// times at which it fell and was seen, counted from the supervision's start in whole
/// milliseconds; without accepted evidence there is no outcome.
pub proof fn deadlines_are_told_with_their_times(
    w: Watchdog,
    cleanup: CleanupSummary,
    now: Duration,
    accepted: bool,
    r: Result<RunOutcome, Error>,
    deadline: Deadline,
    expiry: u64,
    observed: u64,
    grace_started: Duration,
    effective_grace: Duration,
)
    requires
        call_ensures(Watchdog::conclude, (w, cleanup, now, accepted), r),
        w.ending == Some(
            WatchEnding::Deadline { deadline, expiry, observed, grace_started, effective_grace },
        ),
        expiry >= w.plan.attempt_origin,
        observed >= w.plan.attempt_origin,
        w.context.supervision_offset@ + expiry <= u64::MAX,
        w.context.supervision_offset@ + observed <= u64::MAX,
        deadline.duration@ <= u64::MAX,
        w.policy.limit_grace@ <= u64::MAX,
        now@ >= grace_started@,
    ensures
        !accepted ==> (r matches Err(error) && error.code == "MCLIMIT-DEADLINE-EVIDENCE"),
        accepted ==> (r matches Ok(
            RunOutcome::DeadlineExceeded { deadline: told, child_after_termination, peak, .. },
        ) && {
            let origin = w.plan.attempt_origin;
            &&& told.scope == deadline.scope
            &&& told.duration_ms == deadline.duration@ / 1_000_000
            &&& told.expires_ms as nat == (w.context.supervision_offset@ + (expiry - origin)) as nat
                / 1_000_000
            &&& told.observed_ms as nat == (w.context.supervision_offset@ + (observed - origin))
                as nat / 1_000_000
            &&& told.grace_ms == w.policy.limit_grace@ / 1_000_000
            &&& told.grace_used_ms <= effective_grace@ / 1_000_000
            &&& now@ - grace_started@ <= effective_grace@ && effective_grace@ <= u64::MAX
                ==> told.grace_used_ms as nat == (now@ - grace_started@) as nat / 1_000_000
            &&& told.graceful_action is Some <==> w.policy.limit_grace@ > 0
            &&& told.forced_action == Some("sigkill-process-group")
            &&& child_after_termination == w.stored
            &&& peak is Some <==> w.policy.memory is Some
        }),
{
}

/// A turn that awaits an inventory waits at least a millisecond, one that does not waits
/// no longer than the poll interval and what is left of the grace; none waits longer than
/// twenty milliseconds, and none is cut shorter than these ask.
pub proof fn waits_are_as_asked(poll: Duration, left: Option<Duration>, pending: bool, r: Duration)
    requires
        call_ensures(watchdog_turn_wait, (poll, left, pending), r),
    ensures
        r@ <= 20_000_000,
        pending ==> r@ >= 1_000_000 && (r@ == poll@ || r@ == 1_000_000 && poll@ < 1_000_000 || r@
            == 20_000_000 && poll@ > 20_000_000),
        !pending ==> r@ <= poll@ && (left matches Some(rest) ==> r@ <= rest@) && (r@ == poll@
            || r@ == 20_000_000 || (left matches Some(rest) && r@ == rest@)),
{
}

} // verus!
