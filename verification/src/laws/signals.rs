//! Signals that call off a run, the shutting down of guardians, and spans of time.

use vstd::prelude::*;

use crate::guardian::{
    bounded_pause, poll_pause, poll_shutdown, process_group, DisarmAction, Guardian,
    GuardianShutdown, Operations, Proofs, ShutdownAction, ShutdownStage,
};
use crate::model::{CleanupErrorRecord, Fault, FaultKind};
use crate::signal::{
    committed, interruption, is_call_off, poll_failed, recorded, renewed, Admission,
    CallerSignalSnapshot, CancellationHandle, SignalSource, SignalWait,
};
use crate::time::Duration;

verus! {

/// Three signals call a run off: the interrupt, the request to end and the hang-up.
pub proof fn three_signals_call_a_run_off(signal: i32, r: bool)
    requires
        call_ensures(is_call_off, (signal,), r),
    ensures
        r <==> signal == 2 || signal == 15 || signal == 1,
{
}

/// The first signal is remembered and stays; a run that was called off is not begun, and one
/// that has begun is not begun again.
pub proof fn the_first_signal_is_remembered(
    word: u32,
    signal: i32,
    next: Option<u32>,
    told: Option<i32>,
    begun: Result<u32, Fault>,
    after: u32,
    still: Option<i32>,
)
    requires
        call_ensures(recorded, (word, signal), next),
        next is Some ==> call_ensures(interruption, (next->0,), told),
        call_ensures(committed, (word,), begun),
        call_ensures(renewed, (word,), after),
        call_ensures(interruption, (after,), still),
    ensures
        next is Some ==> told == Some(signal),
        next is Some ==> signal == 2 || signal == 15 || signal == 1,
        begun is Ok <==> word == 0,
        word % 2147483648 == 0 <==> still is None,
        still matches Some(n) ==> n == word % 2147483648,
{
}

/// A handle serves one run; an interruption of it is taken just where it calls off.
pub proof fn handles_serve_one_run_each(
    a: &mut Admission,
    r: Result<(), Fault>,
    b: &mut CancellationHandle,
    signal: i32,
    told: Result<(), Fault>,
    c: &mut Admission,
    checked: Result<(), Fault>,
    now: u64,
)
    requires
        call_ensures(Admission::claim, (a,), r),
        call_ensures(CancellationHandle::interrupt, (b, signal), told),
        call_ensures(Admission::check, (c, Ok::<u64, Fault>(now)), checked),
    ensures
        r is Ok <==> !old(a).used,
        final(a).used,
        told is Ok <==> signal == 2 || signal == 15 || signal == 1,
        checked is Ok <==> old(c).word % 2147483648 == 0,
        checked is Err ==> final(c).observed != 0 || now == 0,
{
}

/// A signal that is taken is no longer pending unless it sticks; a wait ends with a signal or
/// with its time.
pub proof fn waits_end_with_a_signal_or_their_time(
    sticky: bool,
    word: u32,
    r: (Option<i32>, u32),
    taken: Option<i32>,
    now: Duration,
    deadline: Duration,
    wait: SignalWait,
    fault: Fault,
    failed: Result<(), Fault>,
)
    requires
        call_ensures(SignalSource::take, (sticky, word), r),
        call_ensures(SignalSource::wait, (taken, now, deadline), wait),
        call_ensures(poll_failed, (fault,), failed),
    ensures
        r.0 is Some <==> word % 2147483648 != 0,
        sticky ==> r.1 == word,
        !sticky ==> r.1 == 0,
        taken is Some ==> wait == SignalWait::Over(taken),
        taken is None && now@ >= deadline@ ==> wait == SignalWait::Over(None),
        taken is None && now@ < deadline@ ==> (wait matches SignalWait::Poll(ms) && 0 <= ms <= 10
            && now@ + ms * 1_000_000 <= deadline@),
        failed is Ok <==> fault.kind == FaultKind::Interrupted,
{
}

/// The handlers that were put in place are taken away in the opposite order, and their
/// session is free again just where all of them were.
pub proof fn handlers_are_taken_away_again(
    s: &mut SignalSource,
    r: Vec<i32>,
    t: &mut SignalSource,
    failures: &Vec<String>,
    done: (Result<(), Fault>, bool),
)
    requires
        old(s).wf(),
        call_ensures(SignalSource::restoring, (s,), r),
        old(t).wf(),
        call_ensures(SignalSource::finish, (t, failures), done),
    ensures
        r@.len() == old(s).installed@.len(),
        forall|i: int|
            0 <= i < r@.len() ==> #[trigger] r@[i] == old(s).installed@[r@.len() - 1 - i],
        final(s).installed@.len() == 0,
        done.0 is Ok <==> failures@.len() == 0,
        done.1 <==> old(t).owned && failures@.len() == 0,
{
}

/// A caller's ignored signals are the ones that read so, but for the two that nobody can
/// ignore.
pub proof fn ignored_signals_are_captured(
    mask: u32,
    readings: &[bool],
    r: Result<CallerSignalSnapshot, Fault>,
    signal: i32,
)
    requires
        readings@.len() == 31,
        call_ensures(CallerSignalSnapshot::capture, (Ok::<u32, Fault>(mask), readings), r),
        1 <= signal <= 31,
    ensures
        r matches Ok(snapshot) && snapshot.mask == mask && (snapshot.ignored@.contains(signal)
            <==> readings@[signal - 1] && signal != 9 && signal != 17),
{
    ignored_so_far(readings@, signal);
}

proof fn ignored_so_far(readings: Seq<bool>, signal: i32)
    requires
        readings.len() <= 31,
        signal >= 1,
    ensures
        crate::signal::ignored_in(readings).contains(signal) <==> signal <= readings.len()
            && readings[signal - 1] && signal != 9 && signal != 17,
    decreases readings.len(),
{
    if readings.len() > 0 {
        let front = readings.drop_last();
        ignored_so_far(front, signal);
        let before = crate::signal::ignored_in(front);
        let last = readings.len() as i32;
        let more = before.push(last);
        if before.contains(signal) {
            let i = choose|i: int| 0 <= i < before.len() && before[i] == signal;
            assert(more[i] == signal);
        }
        if more.contains(signal) {
            let i = choose|i: int| 0 <= i < more.len() && more[i] == signal;
            if i < before.len() {
                assert(before[i] == signal);
            }
        }
        assert(more[before.len() as int] == last);
    }
}

/// A look proves a child gone that was reaped and a group gone that nothing names, and
/// nothing it cannot prove; what failed is a finding.
pub proof fn looks_prove_what_they_see(
    proofs: Proofs,
    ops: Operations,
    child: Result<bool, Fault>,
    group: Result<(), Fault>,
    errors: &mut Vec<CleanupErrorRecord>,
    r: Proofs,
)
    requires
        call_ensures(poll_shutdown, (proofs, ops, child, group, errors), r),
        !proofs.child_reaped && !proofs.reap_failed && !proofs.group_absent
            && !proofs.group_check_failed,
    ensures
        r.child_reaped <==> child == Ok::<bool, Fault>(true),
        r.reap_failed <==> child is Err,
        r.group_absent <==> (group matches Err(fault) && fault.os_code == Some(3i32)),
        r.group_check_failed <==> (group matches Err(fault) && fault.os_code != Some(3i32)),
        final(errors)@.len() == old(errors)@.len() + (if child is Err {
            1int
        } else {
            0
        }) + (if group matches Err(fault) && fault.os_code != Some(3i32) {
            1int
        } else {
            0
        }),
{
}

/// A guardian is given a tenth of a second to leave by itself, then it is killed; it is over
/// only once it is reaped.
pub proof fn guardians_are_killed_when_late(
    g: &mut Guardian,
    look: Result<bool, Fault>,
    now: Duration,
    r: Result<DisarmAction, Fault>,
    h: &mut Guardian,
    killed: Result<(), Fault>,
    after: Result<DisarmAction, Fault>,
)
    requires
        old(g).stage is Leaving || old(g).stage is Killed,
        call_ensures(Guardian::looked, (g, look, now), r),
        call_ensures(Guardian::killed, (h, killed, now), after),
    ensures
        look == Ok::<bool, Fault>(true) <==> r == Ok::<DisarmAction, Fault>(DisarmAction::Done),
        look == Ok::<bool, Fault>(false) && now@ < old(g).deadline@ ==> (r matches Ok(
            DisarmAction::Pause(pause),
        ) && pause@ <= 10_000_000 && now@ + pause@ <= old(g).deadline@),
        look == Ok::<bool, Fault>(false) && now@ >= old(g).deadline@ && old(g).stage is Leaving ==> r
            == Ok::<DisarmAction, Fault>(DisarmAction::Kill),
        look == Ok::<bool, Fault>(false) && now@ >= old(g).deadline@ && old(g).stage is Killed
            ==> r is Err,
        killed is Ok && now@ <= u64::MAX ==> final(h).stage is Killed && final(h).deadline@ == now@
            + 100_000_000,
        killed is Err ==> after is Err,
{
}

/// A guardian's shutdown ends with proof or with a finding: it may be alive just where its
/// own end or its group's was not proved.
pub proof fn shutdowns_end_with_proof_or_a_finding(
    s: &mut GuardianShutdown,
    child: Result<bool, Fault>,
    group: Result<(), Fault>,
    now: Duration,
    r: ShutdownAction,
    before: &GuardianShutdown,
    alive: bool,
)
    requires
        old(s)@.stage == ShutdownStage::Graceful || old(s)@.stage == ShutdownStage::Last,
        old(s)@.accounted(),
        call_ensures(GuardianShutdown::looked, (s, child, group, now), r),
        *before == *final(s),
        call_ensures(GuardianShutdown::may_be_alive, (before,), alive),
    ensures
        alive <==> !(final(s)@.proofs.child_reaped && final(s)@.proofs.group_absent),
        r == ShutdownAction::Finish && alive ==> final(s)@.errors.len() > 0,
        child == Ok::<bool, Fault>(true) && !old(s)@.proofs.reap_failed ==> final(
            s)@.proofs.child_reaped,
        child == Ok::<bool, Fault>(false) && !old(s)@.proofs.child_reaped ==> !final(
            s)@.proofs.child_reaped,
        final(s)@.errors.len() >= old(s)@.errors.len(),
{
}

/// A number names a process group where native calls can hold it; pauses are bounded.
pub proof fn pauses_are_bounded(
    pid: u32,
    r: Option<i32>,
    deadline: Duration,
    now: Duration,
    pause: Duration,
    span: Duration,
    ms: i32,
)
    requires
        call_ensures(process_group, (pid,), r),
        call_ensures(poll_pause, (deadline, now), pause),
        call_ensures(bounded_pause, (span,), ms),
    ensures
        r is Some <==> 0 < pid <= i32::MAX,
        r matches Some(n) ==> n == pid,
        pause@ <= 10_000_000,
        now@ <= deadline@ ==> now@ + pause@ <= deadline@,
        now@ + 10_000_000 <= deadline@ ==> pause@ == 10_000_000,
        span@ <= 2_000_000_000_000_000 ==> ms * 1_000_000 <= span@ < (ms + 1) * 1_000_000,
{
}

/// Spans add, subtract and compare as their nanoseconds do: what is taken away from a span
/// and what is left make it up, and the lesser of two is one of them.
pub proof fn spans_are_their_nanoseconds(
    a: &Duration,
    b: Duration,
    left: Duration,
    less: Duration,
    sum: Option<Duration>,
    ms: u64,
    whole: u128,
    before: bool,
    zero: bool,
    n: u64,
    from_ms: Duration,
    from_s: Duration,
)
    requires
        call_ensures(Duration::saturating_sub, (a, b), left),
        call_ensures(Duration::min, (a, b), less),
        call_ensures(Duration::checked_add, (a, b), sum),
        call_ensures(Duration::millis, (a,), ms),
        call_ensures(Duration::as_nanos, (a,), whole),
        call_ensures(Duration::is_less_than, (a, b), before),
        call_ensures(Duration::is_zero, (a,), zero),
        call_ensures(Duration::from_millis, (n,), from_ms),
        call_ensures(Duration::from_secs, (n,), from_s),
    ensures
        b@ <= a@ ==> left@ + b@ == a@,
        b@ > a@ ==> left@ == 0,
        less@ <= a@ && less@ <= b@ && (less@ == a@ || less@ == b@),
        sum matches Some(s) ==> s@ == a@ + b@,
        a@ + b@ <= 1_000_000_000_000_000_000_000 ==> sum is Some,
        a@ <= u64::MAX ==> ms * 1_000_000 <= a@ < (ms + 1) * 1_000_000,
        whole == a@,
        before <==> a@ < b@,
        zero <==> a@ == 0,
        from_ms@ == n * 1_000_000 && from_s@ == 1000 * from_ms@,
{
}

} // verus!
