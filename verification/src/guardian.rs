//! Shutting a guardian process down: a bounded exchange that ends with proof
//! that the guardian and its process group are gone, or with a finding for
//! every fact that stayed unproved.

use vstd::prelude::*;

use crate::model::{
    cleanup_error, cleanup_record, texts, CleanupErrorRecord, Fault, FaultKind, ESRCH,
};
use crate::text::{signed_decimal, signed_text};
use crate::time::{least, floor_sub, Duration, MAX_NANOS};

verus! {

/// How long a guardian that took its disarm marker may take to leave.
pub const SHUTDOWN_GRACE_MILLIS: u64 = 100;

/// The longest pause between two looks at a guardian.
pub const SHUTDOWN_POLL_MILLIS: u64 = 10;

/// The milliseconds to hand to a native wait: at most `i32::MAX`.
pub fn bounded_pause(duration: Duration) -> (r: i32)
    ensures
        r == least(duration@ / 1_000_000, i32::MAX as nat),
{
    let whole: u128 = duration.as_millis();
    if whole <= i32::MAX as u128 {
        whole as i32
    } else {
        i32::MAX
    }
}

/// The native process group that a child leads, where its process number can
/// name one.
pub open spec fn group_of(pid: u32) -> Option<i32> {
    if 0 < pid <= i32::MAX {
        Some(pid as i32)
    } else {
        None
    }
}

/// The native process group that a child leads.
pub fn process_group(pid: u32) -> (r: Option<i32>)
    ensures
        r == group_of(pid),
{
    if 0 < pid && pid <= i32::MAX as u32 {
        Some(pid as i32)
    } else {
        None
    }
}

/// What is proved so far of a child and of the process group it led.
#[derive(Clone, Copy, Debug, PartialEq, Eq, Structural)]
pub struct Proofs {
    pub child_reaped: bool,
    pub reap_failed: bool,
    pub group_absent: bool,
    pub group_check_failed: bool,
}

impl Proofs {
    /// Nothing more can be learned.
    pub open spec fn settled(self) -> bool {
        &&& self.child_reaped || self.reap_failed
        &&& self.group_absent || self.group_check_failed
    }

    /// Whether a look at the child can still tell something.
    pub open spec fn child_open(self) -> bool {
        !self.child_reaped && !self.reap_failed
    }

    /// Whether a look at the group can still tell something.
    pub open spec fn group_open(self) -> bool {
        !self.group_absent && !self.group_check_failed
    }

    /// Both the child and its group are known to be gone.
    pub open spec fn complete(self) -> bool {
        self.child_reaped && self.group_absent
    }

    /// Nothing more can be learned.
    pub fn is_settled(self) -> (r: bool)
        ensures
            r == self.settled(),
    {
        (self.child_reaped || self.reap_failed) && (self.group_absent || self.group_check_failed)
    }
}

/// The names under which the findings of one exchange are filed.
#[derive(Clone, Copy, Debug)]
pub struct Operations {
    pub reap: &'static str,
    pub verify_group: &'static str,
}

/// What a wait on the child told: `true` once it left.
pub type ChildLook = Result<bool, Fault>;

/// What asking for the group told: it answered, or the call failed.
pub type GroupLook = Result<(), Fault>;

/// The proofs after a look at the child.
pub open spec fn after_child(p: Proofs, look: ChildLook) -> Proofs {
    if !p.child_open() {
        p
    } else {
        match look {
            Ok(left) => Proofs { child_reaped: left, ..p },
            Err(_) => Proofs { reap_failed: true, ..p },
        }
    }
}

/// The findings that a look at the child adds.
pub open spec fn child_findings(p: Proofs, ops: Operations, look: ChildLook) -> Seq<
    CleanupErrorRecord,
> {
    match look {
        Err(error) if p.child_open() => seq![cleanup_record(ops.reap, error)],
        _ => Seq::empty(),
    }
}

/// Whether a failed call says that no such process or group exists.
pub open spec fn names_nothing(error: Fault) -> bool {
    error.os_code == Some(ESRCH)
}

/// The proofs after a look at the group.
pub open spec fn after_group(p: Proofs, look: GroupLook) -> Proofs {
    if !p.group_open() {
        p
    } else {
        match look {
            Ok(_) => p,
            Err(error) => if names_nothing(error) {
                Proofs { group_absent: true, ..p }
            } else {
                Proofs { group_check_failed: true, ..p }
            },
        }
    }
}

/// The findings that a look at the group adds.
pub open spec fn group_findings(p: Proofs, ops: Operations, look: GroupLook) -> Seq<
    CleanupErrorRecord,
> {
    match look {
        Err(error) if p.group_open() && !names_nothing(error) => seq![
            cleanup_record(ops.verify_group, error),
        ],
        _ => Seq::empty(),
    }
}

/// The proofs after one look at each.
pub open spec fn after_looks(p: Proofs, child: ChildLook, group: GroupLook) -> Proofs {
    after_group(after_child(p, child), group)
}

/// The findings of one look at each.
pub open spec fn look_findings(
    p: Proofs,
    ops: Operations,
    child: ChildLook,
    group: GroupLook,
) -> Seq<CleanupErrorRecord> {
    child_findings(p, ops, child) + group_findings(p, ops, group)
}

/// Takes in one look at the child and one at its group; a look whose answer is
/// already known counts for nothing.
pub fn poll_shutdown(
    proofs: Proofs,
    ops: Operations,
    child: ChildLook,
    group: GroupLook,
    errors: &mut Vec<CleanupErrorRecord>,
) -> (r: Proofs)
    ensures
        r == after_looks(proofs, child, group),
        final(errors)@ == old(errors)@ + look_findings(proofs, ops, child, group),
{
    let ghost before = errors@;
    let mut p = proofs;
    if !p.child_reaped && !p.reap_failed {
        match child {
            Ok(left) => {
                p.child_reaped = left;
            },
            Err(error) => {
                errors.push(cleanup_error(ops.reap, error));
                p.reap_failed = true;
            },
        }
    }
    assert(errors@ =~= before + child_findings(proofs, ops, child));
    if !p.group_absent && !p.group_check_failed {
        match group {
            Ok(_) => {},
            Err(error) => {
                let gone = match error.os_code {
                    Some(code) => code == ESRCH,
                    None => false,
                };
                if gone {
                    p.group_absent = true;
                } else {
                    errors.push(cleanup_error(ops.verify_group, error));
                    p.group_check_failed = true;
                }
            },
        }
    }
    assert(errors@ =~= before + look_findings(proofs, ops, child, group));
    p
}

/// The pause before the next look: the poll interval, cut at the deadline.
pub open spec fn pause_before(deadline: nat, now: nat) -> nat {
    least(10_000_000, floor_sub(deadline, now))
}

/// The pause before the next look.
pub fn poll_pause(deadline: Duration, now: Duration) -> (r: Duration)
    ensures
        r@ == pause_before(deadline@, now@),
{
    Duration::from_millis(SHUTDOWN_POLL_MILLIS).min(deadline.saturating_sub(now))
}

/// Where a guardian's shutdown stands.
#[derive(Clone, Copy, Debug, PartialEq, Eq, Structural)]
pub enum ShutdownStage {
    /// The guardian may leave on its own.
    Graceful,
    /// A forced termination was asked for.
    Escalating,
    /// The last looks, up to the caller's deadline.
    Last,
    /// Nothing is left to do.
    Done,
}

/// What the caller does next.
#[derive(Clone, Copy, Debug, PartialEq, Eq, Structural)]
pub enum ShutdownAction {
    /// Look at the child and at its group.
    Look,
    /// Pause, then look.
    Pause(Duration),
    /// Kill the child, after its group where one is named.
    Terminate { group: Option<i32> },
    /// Read the result.
    Finish,
}

/// One guardian's shutdown.
#[derive(Debug)]
pub struct GuardianShutdown {
    stage: ShutdownStage,
    group: Option<i32>,
    proofs: Proofs,
    graceful_deadline: Duration,
    deadline: Duration,
    errors: Vec<CleanupErrorRecord>,
}

/// The state of a shutdown.
pub struct ShutdownView {
    pub stage: ShutdownStage,
    pub group: Option<i32>,
    pub proofs: Proofs,
    pub graceful_deadline: Duration,
    pub deadline: Duration,
    pub errors: Seq<CleanupErrorRecord>,
}

/// The operations of a guardian's shutdown.
pub open spec fn guardian_operations() -> Operations {
    Operations { reap: "reap-guardian", verify_group: "verify-guardian-process-group-empty" }
}

impl ShutdownView {
    /// The deadline of the looks of this stage.
    pub open spec fn looks_until(self) -> nat {
        if self.stage == ShutdownStage::Graceful {
            self.graceful_deadline@
        } else {
            self.deadline@
        }
    }

    /// The findings of a shutdown that ends with these proofs.
    pub open spec fn closing_findings(p: Proofs) -> Seq<CleanupErrorRecord> {
        (if p.child_open() {
            seq![
                cleanup_record(
                    "reap-guardian",
                    Fault::found(
                        FaultKind::TimedOut,
                        "guardian did not exit before the cleanup deadline",
                    ),
                ),
            ]
        } else {
            Seq::empty()
        }) + (if p.group_open() {
            seq![
                cleanup_record(
                    "verify-guardian-process-group-empty",
                    Fault::found(
                        FaultKind::TimedOut,
                        "guardian process group remained live after the cleanup deadline",
                    ),
                ),
            ]
        } else {
            Seq::empty()
        })
    }

    /// The finding where force cannot be used safely: the child's number, or
    /// that of its group, may have passed to somebody else.
    pub open spec fn unsafe_force(p: Proofs) -> CleanupErrorRecord {
        if p.reap_failed {
            cleanup_record(
                "terminate-guardian",
                Fault::found(
                    FaultKind::Other,
                    "guardian reap failed before its process identity could be proven live",
                ),
            )
        } else {
            cleanup_record(
                "terminate-guardian-process-group",
                Fault::found(
                    FaultKind::Other,
                    "guardian leader was reaped before process-group absence was proven",
                ),
            )
        }
    }

    /// The state that the looks of this stage leave behind once they are over.
    pub open spec fn stage_over(self) -> ShutdownView {
        if self.stage != ShutdownStage::Graceful || self.proofs.complete() {
            ShutdownView {
                stage: ShutdownStage::Done,
                errors: self.errors + Self::closing_findings(self.proofs),
                ..self
            }
        } else if self.proofs.child_open() {
            ShutdownView { stage: ShutdownStage::Escalating, ..self }
        } else {
            ShutdownView {
                stage: ShutdownStage::Last,
                proofs: Proofs { group_check_failed: true, ..self.proofs },
                errors: self.errors.push(Self::unsafe_force(self.proofs)),
                ..self
            }
        }
    }

    /// The state after one look at the child and one at its group.
    pub open spec fn looked(self, child: ChildLook, group: GroupLook, now: nat) -> ShutdownView {
        let seen = ShutdownView {
            proofs: after_looks(self.proofs, child, group),
            errors: self.errors + look_findings(
                self.proofs,
                guardian_operations(),
                child,
                group,
            ),
            ..self
        };
        if seen.proofs.settled() || now >= self.looks_until() {
            seen.stage_over()
        } else {
            seen
        }
    }

    /// What a caller in this state does next, right after a look at time `now`.
    pub open spec fn next_action(self, looks_went_on: bool, now: nat) -> spec_fn(
        ShutdownAction,
    ) -> bool {
        |a: ShutdownAction|
            match self.stage {
                ShutdownStage::Done => a == ShutdownAction::Finish,
                ShutdownStage::Escalating => a == (ShutdownAction::Terminate {
                    group: if self.proofs.group_absent {
                        None
                    } else {
                        self.group
                    },
                }),
                _ => if looks_went_on {
                    a matches ShutdownAction::Pause(pause) && pause@ == pause_before(
                        self.looks_until(),
                        now,
                    )
                } else {
                    a == ShutdownAction::Look
                },
            }
    }

    /// Every failed check has a finding, and a finished shutdown that did not
    /// prove everything has one too.
    pub open spec fn accounted(self) -> bool {
        &&& self.proofs.reap_failed ==> self.errors.len() > 0
        &&& self.proofs.group_check_failed ==> self.errors.len() > 0
        &&& self.group is None ==> self.proofs.group_check_failed
        &&& self.stage == ShutdownStage::Done && !self.proofs.complete() ==> self.errors.len() > 0
    }
}

impl View for GuardianShutdown {
    type V = ShutdownView;

    closed spec fn view(&self) -> ShutdownView {
        ShutdownView {
            stage: self.stage,
            group: self.group,
            proofs: self.proofs,
            graceful_deadline: self.graceful_deadline,
            deadline: self.deadline,
            errors: self.errors@,
        }
    }
}

/// The findings with which a shutdown starts.
pub open spec fn opening_findings(delivered: GroupLook, pid: u32) -> Seq<CleanupErrorRecord> {
    (match delivered {
        Err(error) => seq![cleanup_record("guardian-disarm", error)],
        Ok(_) => Seq::empty(),
    }) + (if group_of(pid) is None {
        seq![
            cleanup_record(
                "identify-guardian-process-group",
                Fault::found(
                    FaultKind::Other,
                    "guardian PID cannot identify a native process group",
                ),
            ),
        ]
    } else {
        Seq::empty()
    })
}

impl GuardianShutdown {
    /// Starts the shutdown of the guardian `pid` after its disarm marker was
    /// written, or could not be. A guardian that did not get the marker has no
    /// time of its own to leave.
    pub fn begin(delivered: Result<(), Fault>, pid: u32, now: Duration, deadline: Duration) -> (r:
        GuardianShutdown)
        ensures
            r@.stage == ShutdownStage::Graceful,
            r@.group == group_of(pid),
            r@.proofs == (Proofs {
                child_reaped: false,
                reap_failed: false,
                group_absent: false,
                group_check_failed: group_of(pid) is None,
            }),
            r@.deadline == deadline,
            r@.graceful_deadline@ == if delivered is Ok {
                least(deadline@, now@ + 100_000_000)
            } else {
                now@
            },
            r@.errors == opening_findings(delivered, pid),
            r@.accounted(),
    {
        let mut errors: Vec<CleanupErrorRecord> = Vec::new();
        let graceful_deadline = match delivered {
            Ok(_) => {
                deadline.min_sum(now, Duration::from_millis(SHUTDOWN_GRACE_MILLIS))
            },
            Err(error) => {
                errors.push(cleanup_error("guardian-disarm", error));
                now
            },
        };
        let group = process_group(pid);
        let unknown = group.is_none();
        if unknown {
            errors.push(
                cleanup_error(
                    "identify-guardian-process-group",
                    Fault::new(
                        FaultKind::Other,
                        "guardian PID cannot identify a native process group",
                    ),
                ),
            );
        }
        assert(errors@ =~= opening_findings(delivered, pid));
        GuardianShutdown {
            stage: ShutdownStage::Graceful,
            group,
            proofs: Proofs {
                child_reaped: false,
                reap_failed: false,
                group_absent: false,
                group_check_failed: unknown,
            },
            graceful_deadline,
            deadline,
            errors,
        }
    }

    /// Takes in one look at the guardian and one at its group, made at `now`.
    pub fn looked(&mut self, child: ChildLook, group: GroupLook, now: Duration) -> (r:
        ShutdownAction)
        requires
            old(self)@.stage == ShutdownStage::Graceful || old(self)@.stage == ShutdownStage::Last,
            old(self)@.accounted(),
        ensures
            final(self)@ == old(self)@.looked(child, group, now@),
            final(self)@.accounted(),
            (final(self)@.next_action(
                final(self)@.stage == old(self)@.stage,
                now@,
            ))(r),
    {
        let ghost start = self@;
        let ops = Operations {
            reap: "reap-guardian",
            verify_group: "verify-guardian-process-group-empty",
        };
        let limit = if self.stage == ShutdownStage::Graceful {
            self.graceful_deadline
        } else {
            self.deadline
        };
        self.proofs = poll_shutdown(self.proofs, ops, child, group, &mut self.errors);
        let ghost seen = self@;
        assert(seen.errors == start.errors + look_findings(
            start.proofs,
            guardian_operations(),
            child,
            group,
        ));
        if !self.proofs.is_settled() && now.is_less_than(limit) {
            return ShutdownAction::Pause(poll_pause(limit, now));
        }
        if self.stage == ShutdownStage::Graceful && !(self.proofs.child_reaped
            && self.proofs.group_absent) {
            if !self.proofs.child_reaped && !self.proofs.reap_failed {
                self.stage = ShutdownStage::Escalating;
                let group = if self.proofs.group_absent {
                    None
                } else {
                    self.group
                };
                return ShutdownAction::Terminate { group };
            }
            let record = if self.proofs.reap_failed {
                cleanup_error(
                    "terminate-guardian",
                    Fault::new(
                        FaultKind::Other,
                        "guardian reap failed before its process identity could be proven live",
                    ),
                )
            } else {
                cleanup_error(
                    "terminate-guardian-process-group",
                    Fault::new(
                        FaultKind::Other,
                        "guardian leader was reaped before process-group absence was proven",
                    ),
                )
            };
            self.errors.push(record);
            self.proofs.group_check_failed = true;
            self.stage = ShutdownStage::Last;
            return ShutdownAction::Look;
        }
        if !self.proofs.child_reaped && !self.proofs.reap_failed {
            self.errors.push(
                cleanup_error(
                    "reap-guardian",
                    Fault::new(
                        FaultKind::TimedOut,
                        "guardian did not exit before the cleanup deadline",
                    ),
                ),
            );
        }
        if !self.proofs.group_absent && !self.proofs.group_check_failed {
            self.errors.push(
                cleanup_error(
                    "verify-guardian-process-group-empty",
                    Fault::new(
                        FaultKind::TimedOut,
                        "guardian process group remained live after the cleanup deadline",
                    ),
                ),
            );
        }
        self.stage = ShutdownStage::Done;
        assert(self@.errors =~= seen.errors + ShutdownView::closing_findings(seen.proofs));
        ShutdownAction::Finish
    }

    /// Takes in how the forced termination went: the call on the group, where
    /// one was made, and the call on the child. That either was already gone is
    /// no finding.
    pub fn terminated(&mut self, group: Option<Result<(), Fault>>, child: Result<(), Fault>) -> (r:
        ShutdownAction)
        requires
            old(self)@.stage == ShutdownStage::Escalating,
            old(self)@.accounted(),
        ensures
            final(self)@ == (ShutdownView {
                stage: ShutdownStage::Last,
                errors: old(self)@.errors + force_findings(group, child),
                ..old(self)@
            }),
            final(self)@.accounted(),
            r == ShutdownAction::Look,
    {
        let ghost before = self.errors@;
        if let Some(Err(error)) = group {
            if !is_gone(&error) {
                self.errors.push(cleanup_error("terminate-guardian-process-group", error));
            }
        }
        if let Err(error) = child {
            if !is_gone(&error) {
                self.errors.push(cleanup_error("terminate-guardian", error));
            }
        }
        assert(self.errors@ =~= before + force_findings(group, child));
        self.stage = ShutdownStage::Last;
        ShutdownAction::Look
    }

    /// Whether anything of the guardian may still live.
    pub fn may_be_alive(&self) -> (r: bool)
        ensures
            r == !self@.proofs.complete(),
    {
        !self.proofs.child_reaped || !self.proofs.group_absent
    }

    /// The findings of the shutdown.
    pub fn into_errors(self) -> (r: Vec<CleanupErrorRecord>)
        ensures
            r@ == self@.errors,
    {
        self.errors
    }
}

/// Whether a failed call says that no such process or group exists.
pub fn is_gone(error: &Fault) -> (r: bool)
    ensures
        r == names_nothing(*error),
{
    match error.os_code {
        Some(code) => code == ESRCH,
        None => false,
    }
}

/// The findings of a forced termination.
pub open spec fn force_findings(group: Option<GroupLook>, child: GroupLook) -> Seq<
    CleanupErrorRecord,
> {
    (match group {
        Some(Err(error)) if !names_nothing(error) => seq![
            cleanup_record("terminate-guardian-process-group", error),
        ],
        _ => Seq::empty(),
    }) + (match child {
        Err(error) if !names_nothing(error) => seq![cleanup_record("terminate-guardian", error)],
        _ => Seq::empty(),
    })
}

/// A shutdown that is over either proved that the guardian and its group are
/// gone, or left a finding that says what was not proved.
pub proof fn shutdown_is_never_silent(end: ShutdownView)
    requires
        end.accounted(),
        end.stage == ShutdownStage::Done,
    ensures
        end.errors.len() == 0 ==> end.proofs.complete(),
{
}

/// A fact that a look proved is never taken back, and neither is a finding.
pub proof fn looks_only_add(s: ShutdownView, child: ChildLook, group: GroupLook, now: nat)
    ensures
        s.proofs.child_reaped ==> s.looked(child, group, now).proofs.child_reaped,
        s.proofs.group_absent ==> s.looked(child, group, now).proofs.group_absent,
        s.errors.is_prefix_of(s.looked(child, group, now).errors),
{
}

/// The child is only killed while a look can still prove it alive: neither
/// reaped nor lost to a failed wait.
pub proof fn force_spares_reaped_children(
    s: ShutdownView,
    child: ChildLook,
    group: GroupLook,
    now: nat,
)
    requires
        s.stage != ShutdownStage::Escalating,
        s.looked(child, group, now).stage == ShutdownStage::Escalating,
    ensures
        s.stage == ShutdownStage::Graceful,
        !s.looked(child, group, now).proofs.child_reaped,
        !s.looked(child, group, now).proofs.reap_failed,
{
}

/// Where the disarming of a guardian stands.
#[derive(Clone, Copy, Debug, PartialEq, Eq, Structural)]
pub enum DisarmStage {
    /// The guardian has its marker and may leave on its own.
    Leaving,
    /// The guardian is to be killed.
    Killing,
    /// The guardian was killed.
    Killed,
    /// The guardian was reaped, or could not be.
    Over,
}

/// What the caller does next with a guardian that is disarmed.
#[derive(Clone, Copy, Debug, PartialEq, Eq, Structural)]
pub enum DisarmAction {
    /// Look whether the guardian has ended.
    Look,
    /// Pause, then look.
    Pause(Duration),
    Kill,
    Done,
}

/// A guardian process that is disarmed: it gets until a deadline to leave, is then
/// killed, and must be reaped shortly after.
#[derive(Clone, Copy, Debug, PartialEq, Eq, Structural)]
pub struct Guardian {
    pub stage: DisarmStage,
    pub deadline: Duration,
}

impl Guardian {
    /// The arguments of a guardian that watches over a process group and reads its
    /// marker from a descriptor.
    pub fn spawn(descriptor: i32, process_group: i32) -> (r: Vec<String>)
        ensures
            texts(r@) == seq![
                "__guardian"@,
                signed_decimal(descriptor as int),
                signed_decimal(process_group as int),
            ],
    {
        let mut arguments: Vec<String> = Vec::new();
        arguments.push("__guardian".to_owned());
        arguments.push(signed_text(descriptor));
        arguments.push(signed_text(process_group));
        assert(texts(arguments@) =~= seq![
            "__guardian"@,
            signed_decimal(descriptor as int),
            signed_decimal(process_group as int),
        ]);
        arguments
    }

    /// Starts to disarm a guardian once its marker was written, or could not be.
    pub fn disarm(marker: Result<(), Fault>, deadline: Duration) -> (r: Result<Guardian, Fault>)
        ensures
            r == match marker {
                Ok(_) => Ok(Guardian { stage: DisarmStage::Leaving, deadline }),
                Err(fault) => Err(fault),
            },
    {
        match marker {
            Ok(_) => Ok(Guardian { stage: DisarmStage::Leaving, deadline }),
            Err(fault) => Err(fault),
        }
    }

    /// Takes in a look at the guardian, made at `now`: true where it has ended. A
    /// failed look ends the disarming.
    pub fn looked(&mut self, look: Result<bool, Fault>, now: Duration) -> (r: Result<
        DisarmAction,
        Fault,
    >)
        requires
            old(self).stage is Leaving || old(self).stage is Killed,
        ensures
            final(self).deadline == old(self).deadline,
            match look {
                Err(fault) => final(self).stage is Over && r == Err::<DisarmAction, Fault>(fault),
                Ok(true) => final(self).stage is Over && r == Ok::<DisarmAction, Fault>(
                    DisarmAction::Done,
                ),
                Ok(false) => if now@ < old(self).deadline@ {
                    &&& final(self).stage == old(self).stage
                    &&& r matches Ok(DisarmAction::Pause(pause))
                    &&& pause@ == pause_before(old(self).deadline@, now@)
                } else if old(self).stage is Leaving {
                    final(self).stage is Killing && r == Ok::<DisarmAction, Fault>(
                        DisarmAction::Kill,
                    )
                } else {
                    final(self).stage is Over && r == Err::<DisarmAction, Fault>(
                        Fault::found(
                            FaultKind::TimedOut,
                            "guardian could not be reaped after forced termination",
                        ),
                    )
                },
            },
    {
        match look {
            Err(fault) => {
                self.stage = DisarmStage::Over;
                return Err(fault);
            },
            Ok(ended) => if ended {
                self.stage = DisarmStage::Over;
                return Ok(DisarmAction::Done);
            },
        }
        if now.is_less_than(self.deadline) {
            return Ok(DisarmAction::Pause(poll_pause(self.deadline, now)));
        }
        match self.stage {
            DisarmStage::Leaving => {
                self.stage = DisarmStage::Killing;
                Ok(DisarmAction::Kill)
            },
            _ => {
                self.stage = DisarmStage::Over;
                Err(
                    Fault::new(
                        FaultKind::TimedOut,
                        "guardian could not be reaped after forced termination",
                    ),
                )
            },
        }
    }

    /// Takes in the kill, made at `now`. The killed guardian must be reaped within the
    /// shutdown grace.
    pub fn killed(&mut self, killed: Result<(), Fault>, now: Duration) -> (r: Result<
        DisarmAction,
        Fault,
    >)
        requires
            old(self).stage is Killing,
        ensures
            match killed {
                Err(fault) => final(self).stage is Over && r == Err::<DisarmAction, Fault>(fault),
                Ok(_) => {
                    &&& final(self).stage is Killed
                    &&& final(self).deadline@ == if now@ + 100_000_000 <= MAX_NANOS {
                        now@ + 100_000_000
                    } else {
                        now@
                    }
                    &&& r == Ok::<DisarmAction, Fault>(DisarmAction::Look)
                },
            },
    {
        match killed {
            Err(fault) => {
                self.stage = DisarmStage::Over;
                Err(fault)
            },
            Ok(_) => {
                self.stage = DisarmStage::Killed;
                self.deadline = match now.checked_add(Duration::from_millis(SHUTDOWN_GRACE_MILLIS)) {
                    Some(deadline) => deadline,
                    None => now,
                };
                Ok(DisarmAction::Look)
            },
        }
    }
}

} // verus!
