//! Emptying a Linux control group within a deadline, and aborting a launcher
//! that still waits at its gate.

use vstd::prelude::*;

use crate::evidence::ChildTermination;
use crate::guardian::{
    after_looks, group_of, is_gone, look_findings, names_nothing, pause_before, poll_pause,
    poll_shutdown, process_group, ChildLook, GroupLook, Operations, Proofs,
};
use crate::linux_monitor::Reap;
use crate::model::{
    cleanup_error, cleanup_record, CleanupErrorRecord, CleanupSummary, CleanupView, Fault,
    FaultKind,
};
use crate::scan::{integer_in, lines_of_text, parse_i32, pieces, split_lines, trim, trimmed};
use crate::text::chars_of;
use crate::time::Duration;

verus! {

/// How often the members of a group are killed one by one before it is given up.
pub const KILL_ROUNDS: u32 = 20;

/// The process numbers that the first `n` lines of `cgroup.procs` hold; lines
/// that hold none are passed over.
pub open spec fn pids_in(lines: Seq<Seq<char>>) -> Seq<i32>
    decreases lines.len(),
{
    if lines.len() == 0 {
        Seq::empty()
    } else {
        let before = pids_in(lines.drop_last());
        match integer_in(trimmed(lines.last()), i32::MAX as nat) {
            Ok(pid) => before.push(pid as i32),
            Err(_) => before,
        }
    }
}

/// Reads the process numbers of `cgroup.procs`.
pub fn member_pids(members: &str) -> (r: Vec<i32>)
    ensures
        r@ == pids_in(lines_of_text(members@)),
{
    let chars = chars_of(members);
    let lines = split_lines(chars.as_slice());
    let ghost all = lines_of_text(members@);
    let mut pids: Vec<i32> = Vec::new();
    let mut i: usize = 0;
    assert(all.take(0) =~= Seq::empty());
    while i < lines.len()
        invariant
            i <= lines.len(),
            pieces(lines@) == all,
            pids@ == pids_in(all.take(i as int)),
        decreases lines.len() - i,
    {
        assert(all.take(i + 1).drop_last() =~= all.take(i as int));
        assert(pieces(lines@)[i as int] == lines@[i as int]@);
        let inner = trim(lines[i].as_slice());
        if let Ok(pid) = parse_i32(inner.as_slice()) {
            pids.push(pid);
        }
        i += 1;
    }
    assert(all.take(i as int) =~= all);
    pids
}

/// What one round of killing members one by one asks for.
#[derive(Debug)]
pub enum KillRound {
    /// Kill these processes, pause so long, and go on with the next round.
    Kill { pids: Vec<i32>, pause: Duration },
    /// The round's work is over.
    Stop,
}

/// Takes in the write that kills a whole control group at once.
pub fn group_killed(summary: &mut CleanupSummary, write: Result<(), Fault>)
    ensures
        final(summary)@ == (CleanupView {
            errors: match write {
                Err(fault) => old(summary)@.errors.push(cleanup_record("cgroup.kill", fault)),
                Ok(_) => old(summary)@.errors,
            },
            ..old(summary)@
        }),
{
    if let Err(fault) = write {
        summary.errors.push(cleanup_error("cgroup.kill", fault));
    }
}

/// One round of killing the members of a control group one by one, where the
/// group cannot be killed at once: over when the deadline passed, the members
/// cannot be read, or none is left.
pub fn kill_round(
    summary: &mut CleanupSummary,
    members: Result<String, Fault>,
    now: Duration,
    deadline: Duration,
) -> (r: KillRound)
    ensures
        final(summary)@ == (CleanupView {
            errors: match members {
                Err(fault) if now@ < deadline@ => old(summary)@.errors.push(
                    cleanup_record("read-cgroup.procs", fault),
                ),
                _ => old(summary)@.errors,
            },
            ..old(summary)@
        }),
        match members {
            Ok(text) if now@ < deadline@ && trimmed(text@).len() > 0 => {
                r matches KillRound::Kill { pids, pause } && pids@ == pids_in(
                    lines_of_text(text@),
                ) && pause@ == pause_before(deadline@, now@)
            },
            _ => r == KillRound::Stop,
        },
{
    if !now.is_less_than(deadline) {
        return KillRound::Stop;
    }
    match members {
        Err(fault) => {
            summary.errors.push(cleanup_error("read-cgroup.procs", fault));
            KillRound::Stop
        },
        Ok(text) => {
            let chars = chars_of(text.as_str());
            let inner = trim(chars.as_slice());
            if inner.len() == 0 {
                return KillRound::Stop;
            }
            KillRound::Kill { pids: member_pids(text.as_str()), pause: poll_pause(deadline, now) }
        },
    }
}

/// What emptying a control group asks for next.
#[derive(Clone, Copy, Debug, PartialEq, Eq, Structural)]
pub enum MembersAction {
    /// Kill the members, then ask for the next look.
    KillThenNext,
    /// Kill the members, then ask for the pause.
    KillThenPause,
    /// Read whether the group has members.
    Look,
    /// Pause, then ask for the next look.
    PauseThenNext(Duration),
    /// The group is empty, or is given up.
    Over,
}

/// The first look at a control group: members, or a look that failed, mean that
/// they are killed.
pub fn members_first(summary: &mut CleanupSummary, populated: Result<bool, Fault>) -> (r:
    MembersAction)
    ensures
        match populated {
            Ok(false) => final(summary)@ == old(summary)@ && r == MembersAction::PauseThenNext(
                r->PauseThenNext_0,
            ) && r->PauseThenNext_0@ == 0,
            _ => final(summary)@ == (CleanupView { force_attempted: true, ..old(summary)@ }) && r
                == MembersAction::KillThenNext,
        },
{
    if let Ok(false) = populated {
        return MembersAction::PauseThenNext(Duration::zero());
    }
    summary.force_attempted = true;
    MembersAction::KillThenNext
}

/// Whether the control group is looked at again: not once the deadline passed,
/// which leaves it not proved empty.
pub fn members_next(summary: &mut CleanupSummary, now: Duration, deadline: Duration) -> (r:
    MembersAction)
    ensures
        if now@ < deadline@ {
            final(summary)@ == old(summary)@ && r == MembersAction::Look
        } else {
            final(summary)@ == (CleanupView { workload_empty: Some(false), ..old(summary)@ }) && r
                == MembersAction::Over
        },
{
    if now.is_less_than(deadline) {
        MembersAction::Look
    } else {
        summary.workload_empty = Some(false);
        MembersAction::Over
    }
}

/// Takes in a look at the control group.
pub fn members_looked(summary: &mut CleanupSummary, populated: Result<bool, Fault>) -> (r:
    MembersAction)
    ensures
        match populated {
            Ok(true) => final(summary)@ == old(summary)@ && r == MembersAction::KillThenPause,
            Ok(false) => final(summary)@ == (CleanupView {
                workload_empty: Some(true),
                ..old(summary)@
            }) && r == MembersAction::Over,
            Err(fault) => final(summary)@ == (CleanupView {
                workload_empty: Some(false),
                errors: old(summary)@.errors.push(cleanup_record("verify-cgroup-empty", fault)),
                ..old(summary)@
            }) && r == MembersAction::Over,
        },
{
    match populated {
        Ok(true) => MembersAction::KillThenPause,
        Ok(false) => {
            summary.workload_empty = Some(true);
            MembersAction::Over
        },
        Err(fault) => {
            summary.errors.push(cleanup_error("verify-cgroup-empty", fault));
            summary.workload_empty = Some(false);
            MembersAction::Over
        },
    }
}

/// The pause before the next look, unless the deadline passed.
pub fn members_pause(summary: &mut CleanupSummary, now: Duration, deadline: Duration) -> (r:
    MembersAction)
    ensures
        if now@ < deadline@ {
            final(summary)@ == old(summary)@ && (r matches MembersAction::PauseThenNext(pause)
                && pause@ == pause_before(deadline@, now@))
        } else {
            final(summary)@ == (CleanupView { workload_empty: Some(false), ..old(summary)@ }) && r
                == MembersAction::Over
        },
{
    if now.is_less_than(deadline) {
        MembersAction::PauseThenNext(poll_pause(deadline, now))
    } else {
        summary.workload_empty = Some(false);
        MembersAction::Over
    }
}

/// What reaping the direct child asks for next.
#[derive(Clone, Copy, Debug, PartialEq, Eq, Structural)]
pub enum ReapAction {
    /// Wait on the child without blocking.
    TryWait,
    /// Pause, then ask again.
    Pause(Duration),
    Over,
}

/// Whether the direct child is waited for: not once its end is known, nor once
/// the deadline passed.
pub fn reap_next(stored: Option<ChildTermination>, now: Duration, deadline: Duration) -> (r:
    ReapAction)
    ensures
        r == if stored is None && now@ < deadline@ {
            ReapAction::TryWait
        } else {
            ReapAction::Over
        },
{
    if stored.is_none() && now.is_less_than(deadline) {
        ReapAction::TryWait
    } else {
        ReapAction::Over
    }
}

/// Takes in a wait on the direct child.
pub fn reaped(
    summary: &mut CleanupSummary,
    stored: &mut Option<ChildTermination>,
    reap: Reap,
    now: Duration,
    deadline: Duration,
) -> (r: ReapAction)
    requires
        *old(stored) is None,
    ensures
        match reap {
            Ok(Some(status)) => final(summary)@ == old(summary)@ && *final(stored) == Some(status)
                && r == ReapAction::Pause(r->Pause_0) && r->Pause_0@ == 0,
            Ok(None) => final(summary)@ == old(summary)@ && *final(stored) is None && (
            r matches ReapAction::Pause(pause) && pause@ == pause_before(deadline@, now@)),
            Err(fault) => final(summary)@ == (CleanupView {
                errors: old(summary)@.errors.push(cleanup_record("reap-direct-child", fault)),
                ..old(summary)@
            }) && *final(stored) is None && r == ReapAction::Over,
        },
{
    match reap {
        Ok(Some(status)) => {
            *stored = Some(status);
            ReapAction::Pause(Duration::zero())
        },
        Ok(None) => ReapAction::Pause(poll_pause(deadline, now)),
        Err(fault) => {
            summary.errors.push(cleanup_error("reap-direct-child", fault));
            ReapAction::Over
        },
    }
}

/// Closes the cleanup of a workload: whether the child was reaped, and a finding
/// where it was not.
pub fn close_reap(summary: &mut CleanupSummary, stored: Option<ChildTermination>)
    ensures
        final(summary)@ == (CleanupView {
            direct_child_reaped: stored is Some,
            errors: if stored is None {
                old(summary)@.errors.push(
                    cleanup_record(
                        "reap-direct-child",
                        Fault::found(FaultKind::TimedOut, "cleanup deadline expired"),
                    ),
                )
            } else {
                old(summary)@.errors
            },
            ..old(summary)@
        }),
{
    if stored.is_none() {
        summary.errors.push(
            cleanup_error(
                "reap-direct-child",
                Fault::new(FaultKind::TimedOut, "cleanup deadline expired"),
            ),
        );
    }
    summary.direct_child_reaped = stored.is_some();
}

/// What aborting a gated launcher asks for next.
#[derive(Clone, Copy, Debug, PartialEq, Eq, Structural)]
pub enum AbortAction {
    Look,
    Pause(Duration),
    /// Remove the control group.
    Remove,
}

/// The abort of a launcher that still waits at its gate.
#[derive(Debug)]
pub struct GatedAbort {
    cleanup: CleanupSummary,
    proofs: Proofs,
    group: Option<i32>,
    deadline: Duration,
    settled: bool,
}

/// The state of an abort.
pub struct AbortView {
    pub cleanup: CleanupView,
    pub proofs: Proofs,
    pub group: Option<i32>,
    pub deadline: Duration,
    pub settled: bool,
}

impl View for GatedAbort {
    type V = AbortView;

    closed spec fn view(&self) -> AbortView {
        AbortView {
            cleanup: self.cleanup@,
            proofs: self.proofs,
            group: self.group,
            deadline: self.deadline,
            settled: self.settled,
        }
    }
}

/// The operations of an abort.
pub open spec fn abort_operations() -> Operations {
    Operations { reap: "reap-direct-child", verify_group: "verify-launcher-process-group-empty" }
}

/// The findings of killing the launcher: that it was already gone is none.
pub open spec fn abort_kills(pid: u32, group: GroupLook, child: GroupLook) -> Seq<
    CleanupErrorRecord,
> {
    (if group_of(pid) is None {
        seq![
            cleanup_record(
                "identify-launcher-process-group",
                Fault::found(
                    FaultKind::Other,
                    "child PID cannot identify a native process group",
                ),
            ),
        ]
    } else {
        match group {
            Err(error) if !names_nothing(error) => seq![
                cleanup_record("terminate-launcher-process-group", error),
            ],
            _ => Seq::empty(),
        }
    }) + (match child {
        Err(error) if !names_nothing(error) => seq![cleanup_record("terminate-launcher", error)],
        _ => Seq::empty(),
    })
}

/// The findings with which the looks of an abort end.
pub open spec fn abort_timeouts(p: Proofs) -> Seq<CleanupErrorRecord> {
    (if p.child_open() {
        seq![
            cleanup_record(
                "reap-direct-child",
                Fault::found(
                    FaultKind::TimedOut,
                    "direct child did not exit before the cleanup deadline",
                ),
            ),
        ]
    } else {
        Seq::empty()
    }) + (if p.group_open() {
        seq![
            cleanup_record(
                "verify-launcher-process-group-empty",
                Fault::found(
                    FaultKind::TimedOut,
                    "launcher process group remained live after the cleanup deadline",
                ),
            ),
        ]
    } else {
        Seq::empty()
    })
}

impl AbortView {
    /// The state after one look at the launcher and one at its group.
    pub open spec fn looked(self, child: ChildLook, group: GroupLook, now: nat) -> AbortView {
        let proofs = after_looks(self.proofs, child, group);
        let errors = self.cleanup.errors + look_findings(
            self.proofs,
            abort_operations(),
            child,
            group,
        );
        if proofs.settled() || now >= self.deadline@ {
            AbortView {
                cleanup: CleanupView {
                    direct_child_reaped: proofs.child_reaped,
                    errors: errors + abort_timeouts(proofs),
                    ..self.cleanup
                },
                proofs,
                settled: true,
                ..self
            }
        } else {
            AbortView { cleanup: CleanupView { errors, ..self.cleanup }, proofs, ..self }
        }
    }

    /// Whether anything of the launcher may still live.
    pub open spec fn may_live(self) -> bool {
        !self.proofs.complete() || self.cleanup.workload_empty != Some(true)
    }

    /// Every check that failed has a finding.
    pub open spec fn accounted(self) -> bool {
        &&& self.proofs.reap_failed ==> self.cleanup.errors.len() > 0
        &&& self.proofs.group_check_failed ==> self.cleanup.errors.len() > 0
        &&& self.settled && !self.proofs.complete() ==> self.cleanup.errors.len() > 0
    }
}

impl GatedAbort {
    /// Starts an abort once the launcher `pid` was killed, its group first where
    /// it has one.
    pub fn begin(
        pid: u32,
        group_kill: Result<(), Fault>,
        child_kill: Result<(), Fault>,
        deadline: Duration,
    ) -> (r: GatedAbort)
        ensures
            r@ == (AbortView {
                cleanup: CleanupView {
                    graceful_attempted: false,
                    force_attempted: true,
                    direct_child_reaped: false,
                    workload_empty: None,
                    errors: abort_kills(pid, group_kill, child_kill),
                },
                proofs: Proofs {
                    child_reaped: false,
                    reap_failed: false,
                    group_absent: false,
                    group_check_failed: group_of(pid) is None,
                },
                group: group_of(pid),
                deadline,
                settled: false,
            }),
            r@.accounted(),
    {
        let mut errors: Vec<CleanupErrorRecord> = Vec::new();
        let group = process_group(pid);
        let unknown = group.is_none();
        if unknown {
            errors.push(
                cleanup_error(
                    "identify-launcher-process-group",
                    Fault::new(
                        FaultKind::Other,
                        "child PID cannot identify a native process group",
                    ),
                ),
            );
        } else if let Err(error) = group_kill {
            if !is_gone(&error) {
                errors.push(cleanup_error("terminate-launcher-process-group", error));
            }
        }
        if let Err(error) = child_kill {
            if !is_gone(&error) {
                errors.push(cleanup_error("terminate-launcher", error));
            }
        }
        assert(errors@ =~= abort_kills(pid, group_kill, child_kill));
        GatedAbort {
            cleanup: CleanupSummary {
                graceful_attempted: false,
                force_attempted: true,
                direct_child_reaped: false,
                workload_empty: None,
                errors,
            },
            proofs: Proofs {
                child_reaped: false,
                reap_failed: false,
                group_absent: false,
                group_check_failed: unknown,
            },
            group,
            deadline,
            settled: false,
        }
    }

    /// Takes the summary out while the control group is emptied.
    pub fn take_summary(&mut self) -> (r: CleanupSummary)
        ensures
            r@ == old(self)@.cleanup,
            final(self)@.proofs == old(self)@.proofs,
            final(self)@.group == old(self)@.group,
            final(self)@.deadline == old(self)@.deadline,
            final(self)@.settled == old(self)@.settled,
    {
        let mut out = CleanupSummary::default();
        std::mem::swap(&mut out, &mut self.cleanup);
        out
    }

    /// Puts the summary back once the control group was emptied, or given up.
    pub fn put_summary(&mut self, summary: CleanupSummary)
        ensures
            final(self)@ == (AbortView { cleanup: summary@, ..old(self)@ }),
    {
        self.cleanup = summary;
    }

    /// Takes in one look at the launcher and one at its group, made at `now`.
    pub fn looked(&mut self, child: ChildLook, group: GroupLook, now: Duration) -> (r: AbortAction)
        requires
            !old(self)@.settled,
            old(self)@.accounted(),
        ensures
            final(self)@ == old(self)@.looked(child, group, now@),
            final(self)@.accounted(),
            if final(self)@.settled {
                r == AbortAction::Remove
            } else {
                r matches AbortAction::Pause(pause) && pause@ == pause_before(
                    old(self)@.deadline@,
                    now@,
                )
            },
    {
        let ghost start = self@;
        let ops = Operations {
            reap: "reap-direct-child",
            verify_group: "verify-launcher-process-group-empty",
        };
        self.proofs = poll_shutdown(self.proofs, ops, child, group, &mut self.cleanup.errors);
        let ghost seen = self@.cleanup.errors;
        if !self.proofs.is_settled() && now.is_less_than(self.deadline) {
            return AbortAction::Pause(poll_pause(self.deadline, now));
        }
        if !self.proofs.child_reaped && !self.proofs.reap_failed {
            self.cleanup.errors.push(
                cleanup_error(
                    "reap-direct-child",
                    Fault::new(
                        FaultKind::TimedOut,
                        "direct child did not exit before the cleanup deadline",
                    ),
                ),
            );
        }
        if !self.proofs.group_absent && !self.proofs.group_check_failed {
            self.cleanup.errors.push(
                cleanup_error(
                    "verify-launcher-process-group-empty",
                    Fault::new(
                        FaultKind::TimedOut,
                        "launcher process group remained live after the cleanup deadline",
                    ),
                ),
            );
        }
        assert(self.cleanup.errors@ =~= seen + abort_timeouts(self.proofs));
        self.cleanup.direct_child_reaped = self.proofs.child_reaped;
        self.settled = true;
        AbortAction::Remove
    }

    /// Ends an abort with the removal of the control group: what was given back,
    /// and whether anything may still live.
    pub fn removed(self, removal: Result<(), Fault>) -> (r: (CleanupSummary, bool))
        requires
            self@.settled,
        ensures
            r.0@ == (CleanupView {
                errors: match removal {
                    Err(fault) => self@.cleanup.errors.push(
                        cleanup_record("remove-cgroup", fault),
                    ),
                    Ok(_) => self@.cleanup.errors,
                },
                ..self@.cleanup
            }),
            r.1 == self@.may_live(),
    {
        let mut cleanup = self.cleanup;
        if let Err(fault) = removal {
            cleanup.errors.push(cleanup_error("remove-cgroup", fault));
        }
        let empty = match cleanup.workload_empty {
            Some(empty) => empty,
            None => false,
        };
        (cleanup, !self.proofs.child_reaped || !self.proofs.group_absent || !empty)
    }
}

/// An abort that is over claims that nothing lives only if the launcher was
/// reaped, its group is absent and the control group is empty; where the
/// launcher or its group stayed unproved, a finding says so.
pub proof fn abort_is_never_silent(end: AbortView)
    requires
        end.accounted(),
        end.settled,
    ensures
        !end.may_live() <==> end.proofs.child_reaped && end.proofs.group_absent
            && end.cleanup.workload_empty == Some(true),
        end.cleanup.errors.len() == 0 ==> end.proofs.complete(),
{
}

} // verus!
