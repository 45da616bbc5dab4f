//! Launching an attempt on a Linux control group: the target is released only
//! once its launcher waits at its barrier, sits in the control group and has a
//! guardian. Every failure on the way ends with the error that says how far the
//! launch came and what was given back.

use vstd::prelude::*;
use vstd::string::*;

use crate::evidence::{
    bare_error, refused_deadline_evidence, refused_evidence, ChildTermination, DeadlineEvidence,
    Error, ErrorCategory, ErrorView, InitialSpawnFailure, OutcomeView, RestartSafetyProof, RunOutcome, SafetyView,
};
use crate::linux_cgroup::{decode_launcher_status, status_fault, status_of, LauncherStatus,
    MemoryEvents, LAUNCHER_STATUS_LENGTH};
use crate::linux_monitor::{Monitor, MonitorStage};
use crate::model::{
    cleanup_error, lines_of, render_all, CleanupErrorRecord, CleanupSummary, CleanupView, Fault,
    FaultKind, EACCES, EISDIR, ENOENT, ENOEXEC, ENOTDIR, EPERM,
};
use crate::policy::{AttemptContext, BoundaryRequirement, Enforcement, Policy};
use crate::supervisor::{unresolved_sealed, unresolved_sealed_error};
use crate::text::join3;
use crate::time::{capped_millis, floor_sub, Duration};

verus! {

/// How long a launcher may take to report.
pub const LAUNCHER_STATUS_SECS: u64 = 10;

/// The error of a failed native call on the control group.
pub fn setup_io(fault: &Fault) -> (r: Error)
    ensures
        r@ == setup_error(*fault),
{
    Error::of_fault(ErrorCategory::Setup, "MCSETUP-CGROUP", fault)
}

/// The error of a failed native call on the control group.
pub open spec fn setup_error(fault: Fault) -> ErrorView {
    ErrorView {
        os_code: fault.os_code,
        ..bare_error(ErrorCategory::Setup, "MCSETUP-CGROUP", fault.text.chars())
    }
}

/// The error of a helper that could not be used.
pub open spec fn helper_error(code: &'static str, executable: Seq<char>, fault: Fault) -> ErrorView {
    ErrorView {
        os_code: fault.os_code,
        ..bare_error(
            ErrorCategory::Setup,
            code,
            "could not execute installed MemCordon helper "@ + executable + ": "@
                + fault.text.chars(),
        )
    }
}

/// The error of a helper that could not be used.
pub fn helper_setup_error(code: &'static str, executable: &str, fault: &Fault) -> (r: Error)
    ensures
        r@ == helper_error(code, executable@, *fault),
{
    let mut message = join3("could not execute installed MemCordon helper ", executable, ": ");
    let text = fault.text.render();
    message.append(text.as_str());
    let mut error = Error::new(ErrorCategory::Setup, code, message);
    error.os_code = fault.os_code;
    error
}

/// What a native error number says of a command that did not start.
pub open spec fn spawn_failure(os_code: Option<i32>) -> Option<InitialSpawnFailure> {
    match os_code {
        Some(code) => if code == ENOENT || code == ENOTDIR {
            Some(InitialSpawnFailure::NotFound)
        } else if code == EACCES || code == EPERM || code == ENOEXEC || code == EISDIR {
            Some(InitialSpawnFailure::NotExecutable)
        } else {
            None
        },
        None => None,
    }
}

/// The code of a command that did not start.
pub open spec fn spawn_code(failure: Option<InitialSpawnFailure>) -> &'static str {
    match failure {
        Some(InitialSpawnFailure::NotFound) => "MCSPAWN-NOT-FOUND",
        Some(InitialSpawnFailure::NotExecutable) => "MCSPAWN-NOT-EXECUTABLE",
        None => "MCSPAWN-FAILED",
    }
}

/// Tells from a native error number why a command did not start.
pub fn classify_spawn(os_code: Option<i32>) -> (r: Option<InitialSpawnFailure>)
    ensures
        r == spawn_failure(os_code),
{
    match os_code {
        Some(code) => if code == ENOENT || code == ENOTDIR {
            Some(InitialSpawnFailure::NotFound)
        } else if code == EACCES || code == EPERM || code == ENOEXEC || code == EISDIR {
            Some(InitialSpawnFailure::NotExecutable)
        } else {
            None
        },
        None => None,
    }
}

/// The error of a command that did not start.
pub open spec fn gated_spawn_error(program: Seq<char>, fault: Fault) -> ErrorView {
    ErrorView {
        os_code: fault.os_code,
        initial_spawn_failure: spawn_failure(fault.os_code),
        ..bare_error(
            ErrorCategory::Spawn,
            spawn_code(spawn_failure(fault.os_code)),
            "could not launch gated command "@ + program + ": "@ + fault.text.chars(),
        )
    }
}

/// The error of a command that did not start.
pub fn spawn_error(fault: &Fault, program: &str) -> (r: Error)
    ensures
        r@ == gated_spawn_error(program@, *fault),
{
    let failure = classify_spawn(fault.os_code);
    let code = match failure {
        Some(InitialSpawnFailure::NotFound) => "MCSPAWN-NOT-FOUND",
        Some(InitialSpawnFailure::NotExecutable) => "MCSPAWN-NOT-EXECUTABLE",
        None => "MCSPAWN-FAILED",
    };
    let mut message = join3("could not launch gated command ", program, ": ");
    let text = fault.text.render();
    message.append(text.as_str());
    let mut error = Error::new(ErrorCategory::Spawn, code, message);
    error.os_code = fault.os_code;
    error.initial_spawn_failure = failure;
    error
}

/// What a cleanup proves towards a restart.
pub open spec fn safety_of(
    cleanup: CleanupView,
    helpers_reaped: bool,
    containment_removed: bool,
) -> SafetyView {
    SafetyView {
        direct_child_reaped: cleanup.direct_child_reaped,
        workload_empty: cleanup.workload_empty,
        helpers_reaped,
        containment_removed,
        containment_incapable_of_live_members: cleanup.workload_empty == Some(true),
        sealed_boundary_retired: false,
        errors: lines_of(cleanup.errors),
    }
}

/// Records in an error what was given back.
pub fn record_failure_cleanup(
    failure: &mut Error,
    cleanup: CleanupSummary,
    helpers_reaped: bool,
    containment_removed: bool,
)
    ensures
        final(failure)@ == (ErrorView {
            restart_safety: Some(safety_of(cleanup@, helpers_reaped, containment_removed)),
            cleanup: cleanup@,
            ..old(failure)@
        }),
{
    let inert = match cleanup.workload_empty {
        Some(empty) => empty,
        None => false,
    };
    failure.restart_safety = Some(
        RestartSafetyProof {
            direct_child_reaped: cleanup.direct_child_reaped,
            workload_empty: cleanup.workload_empty,
            helpers_reaped,
            containment_removed,
            containment_incapable_of_live_members: inert,
            sealed_boundary_retired: false,
            errors: render_all(&cleanup.errors),
        },
    );
    failure.cleanup = cleanup;
}

/// The milliseconds to wait for a launcher's status: none once the time is up,
/// and else at least one.
pub fn status_timeout(remaining: Duration) -> (r: i32)
    ensures
        r == if remaining@ == 0 {
            0int
        } else if remaining@ / 1_000_000 < 1 {
            1
        } else if remaining@ / 1_000_000 > i32::MAX {
            i32::MAX as int
        } else {
            (remaining@ / 1_000_000) as int
        },
{
    if remaining.is_zero() {
        return 0;
    }
    let whole: u128 = remaining.as_millis();
    if whole < 1 {
        1
    } else if whole > i32::MAX as u128 {
        i32::MAX
    } else {
        whole as i32
    }
}

/// What one turn of reading a status record brought.
#[derive(Debug)]
pub enum StatusEvent {
    /// The wait for the descriptor failed.
    WaitFailed(Fault),
    /// The other side closed.
    Closed,
    /// The read failed; `ready` says that the wait had named the descriptor.
    ReadFailed { fault: Fault, ready: bool },
    /// Bytes came.
    Bytes(Vec<u8>),
}

/// What follows.
#[derive(Debug)]
pub enum StatusStep {
    /// Go on reading.
    More,
    /// The whole record, or none where the other side closed before it.
    Record(Option<Vec<u8>>),
    Failed(Fault),
}

/// Takes in one turn of reading a status record of which `record` was read
/// before.
pub fn status_turn(record: &mut Vec<u8>, event: StatusEvent, now: Duration, deadline: Duration) -> (r:
    StatusStep)
    requires
        old(record).len() < LAUNCHER_STATUS_LENGTH,
        event matches StatusEvent::Bytes(bytes) ==> old(record).len() + bytes.len()
            <= LAUNCHER_STATUS_LENGTH,
    ensures
        event !is Bytes ==> final(record)@ == old(record)@,
        match event {
            StatusEvent::WaitFailed(fault) => if fault.kind == FaultKind::Interrupted {
                r == StatusStep::More
            } else {
                r == StatusStep::Failed(fault)
            },
            StatusEvent::Closed => if old(record).len() == 0 {
                r == StatusStep::Record(None)
            } else {
                r == StatusStep::Failed(
                    Fault::found(
                        FaultKind::UnexpectedEof,
                        "MemCordon launcher status record was truncated",
                    ),
                )
            },
            StatusEvent::ReadFailed { fault, ready } => if fault.kind == FaultKind::Interrupted {
                r == StatusStep::More
            } else if fault.kind == FaultKind::WouldBlock {
                if !ready || now@ >= deadline@ {
                    r == StatusStep::Failed(
                        Fault::found(
                            FaultKind::TimedOut,
                            "timed out waiting for MemCordon launcher status",
                        ),
                    )
                } else {
                    r == StatusStep::More
                }
            } else {
                r == StatusStep::Failed(fault)
            },
            StatusEvent::Bytes(bytes) => if old(record).len() + bytes.len()
                == LAUNCHER_STATUS_LENGTH {
                r matches StatusStep::Record(Some(whole)) && whole@ == old(record)@ + bytes@
            } else {
                r == StatusStep::More && final(record)@ == old(record)@ + bytes@
            },
        },
{
    match event {
        StatusEvent::WaitFailed(fault) => {
            if fault.kind == FaultKind::Interrupted {
                StatusStep::More
            } else {
                StatusStep::Failed(fault)
            }
        },
        StatusEvent::Closed => {
            if record.len() == 0 {
                StatusStep::Record(None)
            } else {
                StatusStep::Failed(
                    Fault::new(
                        FaultKind::UnexpectedEof,
                        "MemCordon launcher status record was truncated",
                    ),
                )
            }
        },
        StatusEvent::ReadFailed { fault, ready } => {
            if fault.kind == FaultKind::Interrupted {
                StatusStep::More
            } else if fault.kind == FaultKind::WouldBlock {
                if !ready || !now.is_less_than(deadline) {
                    StatusStep::Failed(
                        Fault::new(
                            FaultKind::TimedOut,
                            "timed out waiting for MemCordon launcher status",
                        ),
                    )
                } else {
                    StatusStep::More
                }
            } else {
                StatusStep::Failed(fault)
            }
        },
        StatusEvent::Bytes(bytes) => {
            let mut bytes = bytes;
            record.append(&mut bytes);
            if record.len() == LAUNCHER_STATUS_LENGTH {
                let mut whole: Vec<u8> = Vec::new();
                whole.append(record);
                assert(whole@ =~= old(record)@ + event->Bytes_0@);
                StatusStep::Record(Some(whole))
            } else {
                StatusStep::More
            }
        },
    }
}

/// A status record that was read, or its absence.
pub type StatusRead = Result<Option<Vec<u8>>, Fault>;

/// Whether a read brought nothing or a whole record.
pub open spec fn whole(read: StatusRead) -> bool {
    read matches Ok(Some(record)) ==> record.len() == LAUNCHER_STATUS_LENGTH
}

/// What the launcher's first report means.
#[derive(Debug)]
pub enum ReadyReply {
    Ready,
    /// It reports this native error, and must close without saying more.
    ErrorThenEnd(i32),
    Failed(Fault),
}

/// Takes in the launcher's first report.
pub fn launcher_ready(read: StatusRead, big_endian: bool) -> (r: ReadyReply)
    requires
        whole(read),
    ensures
        match read {
            Err(fault) => r == ReadyReply::Failed(fault),
            Ok(None) => r == ReadyReply::Failed(
                Fault::found(
                    FaultKind::UnexpectedEof,
                    "MemCordon launcher exited before its readiness record",
                ),
            ),
            Ok(Some(record)) => match status_of(record@, big_endian) {
                Ok(LauncherStatus::Ready) => r == ReadyReply::Ready,
                Ok(LauncherStatus::Error(errno)) => r == ReadyReply::ErrorThenEnd(errno),
                Err(text) => r == ReadyReply::Failed(status_fault(text)),
            },
        },
{
    match read {
        Err(fault) => ReadyReply::Failed(fault),
        Ok(None) => ReadyReply::Failed(
            Fault::new(
                FaultKind::UnexpectedEof,
                "MemCordon launcher exited before its readiness record",
            ),
        ),
        Ok(Some(record)) => match decode_launcher_status(record.as_slice(), big_endian) {
            Ok(LauncherStatus::Ready) => ReadyReply::Ready,
            Ok(LauncherStatus::Error(errno)) => ReadyReply::ErrorThenEnd(errno),
            Err(fault) => ReadyReply::Failed(fault),
        },
    }
}

/// What the launcher's report after its release means.
#[derive(Debug)]
pub enum ExecReply {
    /// It closed: the target runs.
    Started,
    /// It reports this native error, and must close without saying more.
    ErrorThenEnd(i32),
    Failed(Fault),
}

/// Takes in the launcher's report after its release.
pub fn launcher_exec(read: StatusRead, big_endian: bool) -> (r: ExecReply)
    requires
        whole(read),
    ensures
        match read {
            Err(fault) => r == ExecReply::Failed(fault),
            Ok(None) => r == ExecReply::Started,
            Ok(Some(record)) => match status_of(record@, big_endian) {
                Ok(LauncherStatus::Error(errno)) => r == ExecReply::ErrorThenEnd(errno),
                Ok(LauncherStatus::Ready) => r == ExecReply::Failed(
                    status_fault("MemCordon launcher sent readiness more than once"),
                ),
                Err(text) => r == ExecReply::Failed(status_fault(text)),
            },
        },
{
    match read {
        Err(fault) => ExecReply::Failed(fault),
        Ok(None) => ExecReply::Started,
        Ok(Some(record)) => match decode_launcher_status(record.as_slice(), big_endian) {
            Ok(LauncherStatus::Error(errno)) => ExecReply::ErrorThenEnd(errno),
            Ok(LauncherStatus::Ready) => ExecReply::Failed(
                Fault::new(
                    FaultKind::InvalidData,
                    "MemCordon launcher sent readiness more than once",
                ),
            ),
            Err(fault) => ExecReply::Failed(fault),
        },
    }
}

/// Checks that a launcher that reported an error closed without saying more.
pub fn launcher_end(read: StatusRead) -> (r: Result<(), Fault>)
    ensures
        match read {
            Err(fault) => r == Err::<(), Fault>(fault),
            Ok(None) => r is Ok,
            Ok(Some(_)) => r == Err::<(), Fault>(
                status_fault("MemCordon launcher sent trailing status data"),
            ),
        },
{
    match read {
        Err(fault) => Err(fault),
        Ok(None) => Ok(()),
        Ok(Some(_)) => Err(
            Fault::new(FaultKind::InvalidData, "MemCordon launcher sent trailing status data"),
        ),
    }
}

/// How far a launch has come.
#[derive(Clone, Copy, Debug, PartialEq, Eq, Structural)]
pub enum LaunchPhase {
    Parent,
    Create,
    Configure,
    Baseline,
    Spawn,
    Ready,
    Assign,
    Guardian,
    Release,
    Exec,
    /// The target runs.
    Running,
    /// The launcher is being aborted at its gate.
    Aborting,
    /// The released launcher is being cleaned up.
    Unwinding,
    /// The supervision's deadline passed before the target ran.
    Expired,
    Failed,
}

/// What made a launch fail.
#[derive(Debug)]
pub enum LaunchFault {
    PidRange,
    Ready { fault: Fault, supervision_expired: bool },
    Assign { fault: Fault },
    Guardian { fault: Fault },
    Release { fault: Fault },
    /// The target could not be executed.
    Exec { fault: Fault },
    /// The launcher broke its protocol after the release.
    Protocol { fault: Fault },
}

/// What the caller does next.
#[derive(Debug)]
pub enum LaunchAction {
    FindParent { require_memory: bool },
    CreateCgroup,
    Configure,
    ReadBaseline,
    Spawn,
    AwaitReady { deadline: Duration },
    Assign { pid: u32 },
    StartGuardian { pid: u32 },
    Release,
    AwaitExec { deadline: Duration },
    /// The target runs: watch it.
    Watch,
    /// Abort the launcher at its gate, until the given time.
    Abort { deadline: Duration },
    /// Abort the launcher, then shut its guardian down, until the given time.
    AbortAndDisarm { deadline: Duration },
    /// Clean the workload up, disarm the guardian and remove the control group.
    Unwind { force: bool, deadline: Duration },
    /// Nothing was spawned; this is the error.
    Fail(Error),
}

/// One launch. Times are spans since the attempt started.
#[derive(Debug)]
pub struct Launch {
    pub policy: Policy,
    pub context: AttemptContext,
    pub phase: LaunchPhase,
    pub baseline: Option<MemoryEvents>,
    pub pid: u32,
    pub authorized: Duration,
    pub fault: Option<LaunchFault>,
}

impl Launch {
    /// The state with another phase.
    pub open spec fn at(self, phase: LaunchPhase) -> Launch {
        Launch { phase, ..self }
    }

    /// The state once a fault is known that the launcher has to be aborted for.
    pub open spec fn aborting(self, fault: LaunchFault) -> Launch {
        Launch { phase: LaunchPhase::Aborting, fault: Some(fault), ..self }
    }

    /// The state once a fault is known after the release.
    pub open spec fn unwinding(self, fault: LaunchFault) -> Launch {
        Launch { phase: LaunchPhase::Unwinding, fault: Some(fault), ..self }
    }

    /// The deadline of a cleanup that starts at `now`.
    pub open spec fn cleanup_until(self, now: nat) -> nat {
        self.context.clamped(now, 5_000_000_000)
    }

    /// The deadline of a launcher's report asked for at `now`.
    pub open spec fn status_until(self, now: nat) -> nat {
        self.context.clamped(now, 10_000_000_000)
    }

    /// Whether a report that did not come by `until` means that the supervision's
    /// deadline passed.
    pub open spec fn expired_by(self, fault: Fault, until: nat) -> bool {
        fault.kind == FaultKind::TimedOut && self.context.supervision_deadline_remaining is Some
            && self.context.supervision_deadline_remaining->0@ <= until
    }

    fn cleanup_deadline(&self, now: Duration) -> (r: Duration)
        ensures
            r@ == self.cleanup_until(now@),
    {
        self.context.clamp_deadline(now, Duration::from_secs(5))
    }

    fn status_deadline(&self, now: Duration) -> (r: Duration)
        ensures
            r@ == self.status_until(now@),
    {
        self.context.clamp_deadline(now, Duration::from_secs(LAUNCHER_STATUS_SECS))
    }

    fn is_expired(&self, fault: &Fault, until: Duration) -> (r: bool)
        ensures
            r == self.expired_by(*fault, until@),
    {
        match self.context.supervision_deadline_remaining {
            Some(remaining) => fault.kind == FaultKind::TimedOut && !until.is_less_than(remaining),
            None => false,
        }
    }

    /// Starts a launch. A sampled watchdog is refused before anything exists, and so is a
    /// sealed boundary, which this backend does not have.
    pub fn start(policy: Policy, context: AttemptContext) -> (r: (Launch, LaunchAction))
        ensures
            r.0.policy == policy,
            r.0.context == context,
            r.0.baseline is None,
            r.0.fault is None,
            r.0.pid == 0 && r.0.authorized@ == 0,
            if policy.enforcement == Enforcement::Watchdog {
                r.0.phase == LaunchPhase::Failed && (r.1 matches LaunchAction::Fail(error)
                    && error@ == bare_error(
                    ErrorCategory::Unsupported,
                    "MCUNSUPPORTED-LINUX-WATCHDOG",
                    "the Linux sampled watchdog is not enabled; no target was launched"@,
                ))
            } else if policy.boundary == BoundaryRequirement::Sealed {
                r.0.phase == LaunchPhase::Failed && (r.1 matches LaunchAction::Fail(error)
                    && error@ == unresolved_sealed_error())
            } else {
                r.0.phase == LaunchPhase::Parent && r.1 == (LaunchAction::FindParent {
                    require_memory: policy.memory is Some,
                })
            },
    {
        let mut launch = Launch {
            policy,
            context,
            phase: LaunchPhase::Parent,
            baseline: None,
            pid: 0,
            authorized: Duration::zero(),
            fault: None,
        };
        if policy.enforcement == Enforcement::Watchdog {
            launch.phase = LaunchPhase::Failed;
            return (
                launch,
                LaunchAction::Fail(
                    Error::fixed(
                        ErrorCategory::Unsupported,
                        "MCUNSUPPORTED-LINUX-WATCHDOG",
                        "the Linux sampled watchdog is not enabled; no target was launched",
                    ),
                ),
            );
        }
        if policy.boundary == BoundaryRequirement::Sealed {
            launch.phase = LaunchPhase::Failed;
            return (launch, LaunchAction::Fail(unresolved_sealed()));
        }
        let require_memory = policy.memory.is_some();
        (launch, LaunchAction::FindParent { require_memory })
    }

    /// Takes in the search for a delegated parent.
    pub fn parent_found(&mut self, found: Result<(), String>) -> (r: LaunchAction)
        requires
            old(self).phase == LaunchPhase::Parent,
        ensures
            follows(old(self).phase, final(self).phase),
            match found {
                Ok(_) => *final(self) == old(self).at(LaunchPhase::Create) && r
                    == LaunchAction::CreateCgroup,
                Err(message) => *final(self) == old(self).at(LaunchPhase::Failed) && (
                r matches LaunchAction::Fail(error) && error@ == bare_error(
                    ErrorCategory::Setup,
                    "MCSETUP-CGROUP-NOT-DELEGATED",
                    message@,
                )),
            },
    {
        match found {
            Ok(_) => {
                self.phase = LaunchPhase::Create;
                LaunchAction::CreateCgroup
            },
            Err(message) => {
                self.phase = LaunchPhase::Failed;
                LaunchAction::Fail(
                    Error::new(ErrorCategory::Setup, "MCSETUP-CGROUP-NOT-DELEGATED", message),
                )
            },
        }
    }

    fn fail_setup(&mut self, fault: &Fault) -> (r: LaunchAction)
        ensures
            *final(self) == old(self).at(LaunchPhase::Failed),
            r matches LaunchAction::Fail(error) && error@ == setup_error(*fault),
    {
        self.phase = LaunchPhase::Failed;
        LaunchAction::Fail(setup_io(fault))
    }

    /// Takes in the creation of the control group.
    pub fn created(&mut self, created: Result<(), Fault>) -> (r: LaunchAction)
        requires
            old(self).phase == LaunchPhase::Create,
        ensures
            follows(old(self).phase, final(self).phase),
            match created {
                Ok(_) => *final(self) == old(self).at(LaunchPhase::Configure) && r
                    == LaunchAction::Configure,
                Err(fault) => *final(self) == old(self).at(LaunchPhase::Failed) && (
                r matches LaunchAction::Fail(error) && error@ == setup_error(fault)),
            },
    {
        match created {
            Ok(_) => {
                self.phase = LaunchPhase::Configure;
                LaunchAction::Configure
            },
            Err(fault) => self.fail_setup(&fault),
        }
    }

    /// Takes in the setting of the limits. The counters are read first where
    /// memory is limited.
    pub fn configured(&mut self, configured: Result<(), Fault>) -> (r: LaunchAction)
        requires
            old(self).phase == LaunchPhase::Configure,
        ensures
            follows(old(self).phase, final(self).phase),
            match configured {
                Ok(_) => if old(self).policy.memory is Some {
                    *final(self) == old(self).at(LaunchPhase::Baseline) && r
                        == LaunchAction::ReadBaseline
                } else {
                    *final(self) == old(self).at(LaunchPhase::Spawn) && r == LaunchAction::Spawn
                },
                Err(fault) => *final(self) == old(self).at(LaunchPhase::Failed) && (
                r matches LaunchAction::Fail(error) && error@ == setup_error(fault)),
            },
    {
        match configured {
            Ok(_) => {
                if self.policy.memory.is_some() {
                    self.phase = LaunchPhase::Baseline;
                    LaunchAction::ReadBaseline
                } else {
                    self.phase = LaunchPhase::Spawn;
                    LaunchAction::Spawn
                }
            },
            Err(fault) => self.fail_setup(&fault),
        }
    }

    /// Takes in the counters before the target runs.
    pub fn baseline_read(&mut self, events: Result<MemoryEvents, Fault>) -> (r: LaunchAction)
        requires
            old(self).phase == LaunchPhase::Baseline,
        ensures
            follows(old(self).phase, final(self).phase),
            match events {
                Ok(baseline) => *final(self) == (Launch {
                    baseline: Some(baseline),
                    ..old(self).at(LaunchPhase::Spawn)
                }) && r == LaunchAction::Spawn,
                Err(fault) => *final(self) == old(self).at(LaunchPhase::Failed) && (
                r matches LaunchAction::Fail(error) && error@ == setup_error(fault)),
            },
    {
        match events {
            Ok(baseline) => {
                self.baseline = Some(baseline);
                self.phase = LaunchPhase::Spawn;
                LaunchAction::Spawn
            },
            Err(fault) => self.fail_setup(&fault),
        }
    }

    /// Takes in the spawned launcher, or the error of not spawning it.
    pub fn spawned(&mut self, spawned: Result<u32, Error>, now: Duration) -> (r: LaunchAction)
        requires
            old(self).phase == LaunchPhase::Spawn,
        ensures
            follows(old(self).phase, final(self).phase),
            match spawned {
                Err(error) => *final(self) == old(self).at(LaunchPhase::Failed) && r
                    == LaunchAction::Fail(error),
                Ok(pid) => if pid <= i32::MAX {
                    *final(self) == (Launch { pid, ..old(self).at(LaunchPhase::Ready) }) && (
                    r matches LaunchAction::AwaitReady { deadline } && deadline@ == old(
                        self,
                    ).status_until(now@))
                } else {
                    *final(self) == (Launch { pid, ..old(self).aborting(LaunchFault::PidRange) })
                        && (r matches LaunchAction::Abort { deadline } && deadline@ == old(
                        self,
                    ).cleanup_until(now@))
                },
            },
    {
        match spawned {
            Err(error) => {
                self.phase = LaunchPhase::Failed;
                LaunchAction::Fail(error)
            },
            Ok(pid) => {
                self.pid = pid;
                if pid <= i32::MAX as u32 {
                    self.phase = LaunchPhase::Ready;
                    LaunchAction::AwaitReady { deadline: self.status_deadline(now) }
                } else {
                    self.phase = LaunchPhase::Aborting;
                    self.fault = Some(LaunchFault::PidRange);
                    LaunchAction::Abort { deadline: self.cleanup_deadline(now) }
                }
            },
        }
    }

    /// Takes in that the launcher waits at its gate, or why it does not;
    /// `until` is the time it was given.
    pub fn ready(&mut self, ready: Result<(), Fault>, until: Duration, now: Duration) -> (r:
        LaunchAction)
        requires
            old(self).phase == LaunchPhase::Ready,
        ensures
            follows(old(self).phase, final(self).phase),
            match ready {
                Ok(_) => *final(self) == old(self).at(LaunchPhase::Assign) && r
                    == (LaunchAction::Assign { pid: old(self).pid }),
                Err(fault) => *final(self) == old(self).aborting(
                    LaunchFault::Ready {
                        fault,
                        supervision_expired: old(self).expired_by(fault, until@),
                    },
                ) && (r matches LaunchAction::Abort { deadline } && deadline@ == old(
                    self,
                ).cleanup_until(now@)),
            },
    {
        match ready {
            Ok(_) => {
                self.phase = LaunchPhase::Assign;
                LaunchAction::Assign { pid: self.pid }
            },
            Err(fault) => {
                let supervision_expired = self.is_expired(&fault, until);
                self.phase = LaunchPhase::Aborting;
                self.fault = Some(LaunchFault::Ready { fault, supervision_expired });
                LaunchAction::Abort { deadline: self.cleanup_deadline(now) }
            },
        }
    }

    /// Takes in that the launcher was put into the control group and stayed there.
    pub fn assigned(&mut self, assigned: Result<(), Fault>, now: Duration) -> (r: LaunchAction)
        requires
            old(self).phase == LaunchPhase::Assign,
        ensures
            follows(old(self).phase, final(self).phase),
            match assigned {
                Ok(_) => *final(self) == old(self).at(LaunchPhase::Guardian) && r
                    == (LaunchAction::StartGuardian { pid: old(self).pid }),
                Err(fault) => *final(self) == old(self).aborting(LaunchFault::Assign { fault })
                    && (r matches LaunchAction::Abort { deadline } && deadline@ == old(
                    self,
                ).cleanup_until(now@)),
            },
    {
        match assigned {
            Ok(_) => {
                self.phase = LaunchPhase::Guardian;
                LaunchAction::StartGuardian { pid: self.pid }
            },
            Err(fault) => {
                self.phase = LaunchPhase::Aborting;
                self.fault = Some(LaunchFault::Assign { fault });
                LaunchAction::Abort { deadline: self.cleanup_deadline(now) }
            },
        }
    }

    /// Takes in that the guardian runs. The release comes next: its time is the
    /// attempt's authorization.
    pub fn guarded(&mut self, guarded: Result<(), Fault>, now: Duration) -> (r: LaunchAction)
        requires
            old(self).phase == LaunchPhase::Guardian,
        ensures
            follows(old(self).phase, final(self).phase),
            match guarded {
                Ok(_) => *final(self) == (Launch {
                    authorized: now,
                    ..old(self).at(LaunchPhase::Release)
                }) && r == LaunchAction::Release,
                Err(fault) => *final(self) == old(self).aborting(LaunchFault::Guardian { fault })
                    && (r matches LaunchAction::Abort { deadline } && deadline@ == old(
                    self,
                ).cleanup_until(now@)),
            },
    {
        match guarded {
            Ok(_) => {
                self.authorized = now;
                self.phase = LaunchPhase::Release;
                LaunchAction::Release
            },
            Err(fault) => {
                self.phase = LaunchPhase::Aborting;
                self.fault = Some(LaunchFault::Guardian { fault });
                LaunchAction::Abort { deadline: self.cleanup_deadline(now) }
            },
        }
    }

    /// Takes in the release of the launcher.
    pub fn released(&mut self, released: Result<(), Fault>, now: Duration) -> (r: LaunchAction)
        requires
            old(self).phase == LaunchPhase::Release,
        ensures
            follows(old(self).phase, final(self).phase),
            match released {
                Ok(_) => *final(self) == old(self).at(LaunchPhase::Exec) && (
                r matches LaunchAction::AwaitExec { deadline } && deadline@ == old(
                    self,
                ).status_until(now@)),
                Err(fault) => *final(self) == old(self).aborting(LaunchFault::Release { fault })
                    && (r matches LaunchAction::AbortAndDisarm { deadline } && deadline@ == old(
                    self,
                ).cleanup_until(now@)),
            },
    {
        match released {
            Ok(_) => {
                self.phase = LaunchPhase::Exec;
                LaunchAction::AwaitExec { deadline: self.status_deadline(now) }
            },
            Err(fault) => {
                self.phase = LaunchPhase::Aborting;
                self.fault = Some(LaunchFault::Release { fault });
                LaunchAction::AbortAndDisarm { deadline: self.cleanup_deadline(now) }
            },
        }
    }

    /// Takes in the launcher's report after its release: the target runs, could
    /// not be executed, or the report did not come; `until` is the time it was
    /// given.
    pub fn executed(
        &mut self,
        report: Result<Option<Fault>, Fault>,
        until: Duration,
        now: Duration,
    ) -> (r: LaunchAction)
        requires
            old(self).phase == LaunchPhase::Exec,
        ensures
            follows(old(self).phase, final(self).phase),
            match report {
                Ok(None) => *final(self) == old(self).at(LaunchPhase::Running) && r
                    == LaunchAction::Watch,
                Ok(Some(fault)) => *final(self) == old(self).unwinding(LaunchFault::Exec { fault })
                    && (r matches LaunchAction::Unwind { force, deadline } && !force && deadline@
                    == old(self).cleanup_until(now@)),
                Err(fault) => {
                    &&& *final(self) == if old(self).expired_by(fault, until@) {
                        old(self).at(LaunchPhase::Expired)
                    } else {
                        old(self).unwinding(LaunchFault::Protocol { fault })
                    }
                    &&& r matches LaunchAction::Unwind { force, deadline } && force && deadline@
                        == old(self).cleanup_until(now@)
                },
            },
    {
        match report {
            Ok(None) => {
                self.phase = LaunchPhase::Running;
                LaunchAction::Watch
            },
            Ok(Some(fault)) => {
                self.phase = LaunchPhase::Unwinding;
                self.fault = Some(LaunchFault::Exec { fault });
                LaunchAction::Unwind { force: false, deadline: self.cleanup_deadline(now) }
            },
            Err(fault) => {
                if self.is_expired(&fault, until) {
                    self.phase = LaunchPhase::Expired;
                } else {
                    self.phase = LaunchPhase::Unwinding;
                    self.fault = Some(LaunchFault::Protocol { fault });
                }
                LaunchAction::Unwind { force: true, deadline: self.cleanup_deadline(now) }
            },
        }
    }

    /// The error that a fault at its barrier comes to, before what was given back is
    /// recorded in it.
    pub open spec fn gate_error(self, fault: LaunchFault, helper: Seq<char>) -> ErrorView {
        match fault {
            LaunchFault::Ready { fault, supervision_expired } => ErrorView {
                target_pid: Some(self.pid),
                launch_phase: Some("launcher-ready"),
                ..helper_error(
                    if supervision_expired {
                        "MCSUPERVISION-DEADLINE-BEFORE-AUTHORIZATION"
                    } else {
                        "MCSETUP-MEMCORDON-LAUNCHER-PROTOCOL"
                    },
                    helper,
                    fault,
                )
            },
            LaunchFault::Assign { fault } => ErrorView {
                target_pid: Some(self.pid),
                launch_phase: Some("cgroup-assignment"),
                ..setup_error(fault)
            },
            LaunchFault::Guardian { fault } => ErrorView {
                target_pid: Some(self.pid),
                launch_phase: Some("guardian-start"),
                cgroup_verified_before_release: true,
                ..helper_error("MCSETUP-MEMCORDON-GUARDIAN", helper, fault)
            },
            LaunchFault::Release { fault } => ErrorView {
                target_pid: Some(self.pid),
                launch_phase: Some("launcher-release"),
                cgroup_verified_before_release: true,
                ..setup_error(fault)
            },
            _ => ErrorView {
                launch_phase: Some("launcher-spawned"),
                ..bare_error(
                    ErrorCategory::Spawn,
                    "MCSPAWN-PID-RANGE",
                    "child PID cannot be represented by native APIs"@,
                )
            },
        }
    }

    /// Ends a launch that was aborted at its barrier: the error with what was given
    /// back. `guardian` is the shutdown of the guardian where one ran: its
    /// findings, and whether it may still live.
    pub fn aborted(
        self,
        helper: &str,
        cleanup: CleanupSummary,
        may_be_alive: bool,
        guardian: Option<(Vec<CleanupErrorRecord>, bool)>,
    ) -> (r: Error)
        requires
            self.phase == LaunchPhase::Aborting,
            self.fault is Some,
            self.fault->0 !is Exec && self.fault->0 !is Protocol,
        ensures
            ({
                let findings = match guardian {
                    Some((errors, _)) => errors@,
                    None => Seq::empty(),
                };
                let guardian_alive = guardian is Some && (guardian->0).1;
                let summary = CleanupView { errors: cleanup@.errors + findings, ..cleanup@ };
                r@ == (ErrorView {
                    workload_may_be_alive: may_be_alive || guardian_alive,
                    restart_safety: Some(safety_of(summary, !guardian_alive, false)),
                    cleanup: summary,
                    ..self.gate_error(self.fault->0, helper@)
                })
            }),
    {
        let pid = self.pid;
        let mut failure = match self.fault.unwrap() {
            LaunchFault::Ready { fault, supervision_expired } => {
                let code = if supervision_expired {
                    "MCSUPERVISION-DEADLINE-BEFORE-AUTHORIZATION"
                } else {
                    "MCSETUP-MEMCORDON-LAUNCHER-PROTOCOL"
                };
                let mut failure = helper_setup_error(code, helper, &fault);
                failure.target_pid = Some(pid);
                failure.launch_phase = Some("launcher-ready");
                failure
            },
            LaunchFault::Assign { fault } => {
                let mut failure = setup_io(&fault);
                failure.target_pid = Some(pid);
                failure.launch_phase = Some("cgroup-assignment");
                failure
            },
            LaunchFault::Guardian { fault } => {
                let mut failure = helper_setup_error("MCSETUP-MEMCORDON-GUARDIAN", helper, &fault);
                failure.target_pid = Some(pid);
                failure.launch_phase = Some("guardian-start");
                failure.cgroup_verified_before_release = true;
                failure
            },
            LaunchFault::Release { fault } => {
                let mut failure = setup_io(&fault);
                failure.target_pid = Some(pid);
                failure.launch_phase = Some("launcher-release");
                failure.cgroup_verified_before_release = true;
                failure
            },
            _ => {
                let mut failure = Error::fixed(
                    ErrorCategory::Spawn,
                    "MCSPAWN-PID-RANGE",
                    "child PID cannot be represented by native APIs",
                );
                failure.launch_phase = Some("launcher-spawned");
                failure
            },
        };
        let ghost before = cleanup@;
        let mut cleanup = cleanup;
        let mut guardian_alive = false;
        match guardian {
            Some((errors, alive)) => {
                let mut errors = errors;
                guardian_alive = alive;
                cleanup.errors.append(&mut errors);
            },
            None => {
                assert(before.errors + Seq::empty() =~= before.errors);
            },
        }
        failure.workload_may_be_alive = may_be_alive || guardian_alive;
        record_failure_cleanup(&mut failure, cleanup, !guardian_alive, false);
        failure
    }

    /// The error that a fault after the release comes to, before what was given
    /// back is recorded in it.
    pub open spec fn released_error(
        self,
        fault: LaunchFault,
        helper: Seq<char>,
        program: Seq<char>,
    ) -> ErrorView {
        match fault {
            LaunchFault::Exec { fault } => ErrorView {
                target_pid: Some(self.pid),
                launch_phase: Some("target-spawn-failed"),
                target_released: true,
                authorization_offset: Some(self.authorized),
                cgroup_verified_before_release: true,
                ..gated_spawn_error(program, fault)
            },
            LaunchFault::Protocol { fault } => ErrorView {
                target_pid: Some(self.pid),
                launch_phase: Some("launcher-exec-status"),
                target_released: true,
                authorization_offset: Some(self.authorized),
                cgroup_verified_before_release: true,
                ..helper_error("MCSETUP-MEMCORDON-LAUNCHER-PROTOCOL", helper, fault)
            },
            _ => self.gate_error(fault, helper),
        }
    }

    /// Ends a launch that failed after the release: the error with what was given
    /// back, the guardian and the control group included.
    pub fn unwound(
        self,
        helper: &str,
        program: &str,
        cleanup: CleanupSummary,
        disarm: Result<(), Fault>,
        removal: Result<(), Fault>,
    ) -> (r: Error)
        requires
            self.phase == LaunchPhase::Unwinding,
            self.fault is Some,
            self.fault->0 is Exec || self.fault->0 is Protocol,
        ensures
            ({
                let summary = CleanupView {
                    errors: cleanup@.errors + crate::linux_monitor::closing_errors(
                        disarm,
                        removal,
                    ),
                    ..cleanup@
                };
                r@ == (ErrorView {
                    restart_safety: Some(safety_of(summary, disarm is Ok, removal is Ok)),
                    cleanup: summary,
                    ..self.released_error(self.fault->0, helper@, program@)
                })
            }),
    {
        let ghost before = cleanup@;
        let mut cleanup = cleanup;
        let helpers_reaped = disarm.is_ok();
        if let Err(fault) = disarm {
            cleanup.errors.push(cleanup_error("guardian-disarm", fault));
        }
        let containment_removed = removal.is_ok();
        if let Err(fault) = removal {
            cleanup.errors.push(cleanup_error("remove-cgroup", fault));
        }
        assert(cleanup.errors@ =~= before.errors + crate::linux_monitor::closing_errors(
            disarm,
            removal,
        ));
        let mut failure = match self.fault.unwrap() {
            LaunchFault::Exec { fault } => {
                let mut failure = spawn_error(&fault, program);
                failure.launch_phase = Some("target-spawn-failed");
                failure
            },
            LaunchFault::Protocol { fault } => {
                let mut failure = helper_setup_error(
                    "MCSETUP-MEMCORDON-LAUNCHER-PROTOCOL",
                    helper,
                    &fault,
                );
                failure.launch_phase = Some("launcher-exec-status");
                failure
            },
            _ => {
                assert(false);
                Error::fixed(ErrorCategory::Setup, "MCSETUP-CGROUP", "")
            },
        };
        failure.target_pid = Some(self.pid);
        failure.target_released = true;
        failure.authorization_offset = Some(self.authorized);
        failure.cgroup_verified_before_release = true;
        record_failure_cleanup(&mut failure, cleanup, helpers_reaped, containment_removed);
        failure
    }
}

impl Launch {
    /// The attempt once its target runs.
    pub fn into_monitor(self) -> (r: Monitor)
        requires
            self.phase == LaunchPhase::Running,
            self.baseline is Some <==> self.policy.memory is Some,
        ensures
            r.wf(),
            r == (Monitor {
                policy: self.policy,
                context: self.context,
                authorized: self.authorized,
                baseline: self.baseline,
                stored: None,
                peak: 0,
                pending_signal: None,
                exit_grace_started: None,
                cycle_fault: None,
                ending: None,
                stage: MonitorStage::Cycle,
            }),
    {
        Monitor {
            policy: self.policy,
            context: self.context,
            authorized: self.authorized,
            baseline: self.baseline,
            stored: None,
            peak: 0,
            pending_signal: None,
            exit_grace_started: None,
            cycle_fault: None,
            ending: None,
            stage: MonitorStage::Cycle,
        }
    }

    /// The evidence of the supervision's deadline that passed during the launch.
    pub open spec fn evidence_at(self, now: nat) -> DeadlineEvidence {
        DeadlineEvidence {
            duration_ms: capped_millis(self.policy.deadline->0.duration@),
            scope: self.policy.deadline->0.scope,
            origin: "installed-cli-release-byte",
            expires_ms: capped_millis(
                self.context.supervision_offset@ + self.context.supervision_deadline_remaining->0@,
            ),
            observed_ms: capped_millis(
                self.context.supervision_offset@ + floor_sub(now, self.authorized@),
            ),
            grace_ms: capped_millis(self.policy.limit_grace@),
            grace_used_ms: 0,
            graceful_action: None,
            forced_action: Some("cgroup-kill"),
        }
    }

    /// The evidence of the supervision's deadline that passed during the launch, read off
    /// at `now`.
    pub fn expired_evidence(&self, now: Duration) -> (r: DeadlineEvidence)
        requires
            self.policy.deadline is Some,
            self.context.supervision_deadline_remaining is Some,
        ensures
            r == self.evidence_at(now@),
    {
        let deadline = self.policy.deadline.unwrap();
        let active = self.context.supervision_deadline_remaining.unwrap();
        let offset = self.context.supervision_offset;
        DeadlineEvidence {
            duration_ms: deadline.duration.millis(),
            scope: deadline.scope,
            origin: "installed-cli-release-byte",
            expires_ms: offset.sum_millis(active),
            observed_ms: offset.sum_millis(now.saturating_sub(self.authorized)),
            grace_ms: self.policy.limit_grace.millis(),
            grace_used_ms: 0,
            graceful_action: None,
            forced_action: Some("cgroup-kill"),
        }
    }

    /// The outcome of a launch during which the supervision's deadline passed:
    /// the released launcher was killed before its target was known to run. There is
    /// none where the evidence of the deadline was not accepted.
    pub fn expired_outcome(
        self,
        cleanup: CleanupSummary,
        stored: Option<ChildTermination>,
        now: Duration,
        accepted: bool,
    ) -> (r: Result<RunOutcome, Error>)
        requires
            self.phase == LaunchPhase::Expired,
            self.policy.deadline is Some,
            self.context.supervision_deadline_remaining is Some,
        ensures
            match r {
                Ok(outcome) => accepted && outcome.cleaned() == cleanup@ && outcome@ == (
                OutcomeView::DeadlineExceeded {
                    deadline: self.evidence_at(now@),
                    child_after_termination: stored,
                    peak: if self.policy.memory is Some {
                        Some(0)
                    } else {
                        None
                    },
                }),
                Err(error) => !accepted && error@ == refused_evidence(),
            },
    {
        if !accepted {
            return Err(refused_deadline_evidence());
        }
        Ok(
            RunOutcome::DeadlineExceeded {
                deadline: self.expired_evidence(now),
                child_after_termination: stored,
                peak: if self.policy.memory.is_some() {
                    Some(0)
                } else {
                    None
                },
                cleanup,
            },
        )
    }
}

/// Which phase can come right after which.
pub open spec fn follows(a: LaunchPhase, b: LaunchPhase) -> bool {
    match a {
        LaunchPhase::Parent => b is Create || b is Failed,
        LaunchPhase::Create => b is Configure || b is Failed,
        LaunchPhase::Configure => b is Baseline || b is Spawn || b is Failed,
        LaunchPhase::Baseline => b is Spawn || b is Failed,
        LaunchPhase::Spawn => b is Ready || b is Aborting || b is Failed,
        LaunchPhase::Ready => b is Assign || b is Aborting,
        LaunchPhase::Assign => b is Guardian || b is Aborting,
        LaunchPhase::Guardian => b is Release || b is Aborting,
        LaunchPhase::Release => b is Exec || b is Aborting,
        LaunchPhase::Exec => b is Running || b is Unwinding || b is Expired,
        _ => false,
    }
}

/// Whether the phase at place `i` of a course can come after the one before it.
pub open spec fn linked(course: Seq<LaunchPhase>, i: int) -> bool {
    follows(course[i - 1], course[i])
}

/// A launch's phases, one after the other, from its start.
pub open spec fn is_course(course: Seq<LaunchPhase>) -> bool {
    &&& course.len() > 0
    &&& course[0] == LaunchPhase::Parent
    &&& forall|i: int| 0 < i < course.len() ==> #[trigger] linked(course, i)
}

/// Whether a launch has come past the release of its launcher.
pub open spec fn past_release(phase: LaunchPhase) -> bool {
    phase is Exec || phase is Running || phase is Unwinding || phase is Expired
}

/// Whether a course, from place `i` on, has the launcher wait at its gate, get
/// verified in the control group, get its guardian, and only then be released.
pub open spec fn gated_from(course: Seq<LaunchPhase>, i: int) -> bool {
    &&& 0 <= i && i + 4 < course.len()
    &&& course[i] == LaunchPhase::Ready
    &&& course[i + 1] == LaunchPhase::Assign
    &&& course[i + 2] == LaunchPhase::Guardian
    &&& course[i + 3] == LaunchPhase::Release
    &&& course[i + 4] == LaunchPhase::Exec
}

/// The target is released only behind its barrier: every launch that came past the
/// release of its launcher had the launcher wait at its barrier, then verified it in
/// the control group, then started its guardian, in this order.
pub proof fn release_comes_last(course: Seq<LaunchPhase>)
    requires
        is_course(course),
        past_release(course.last()),
    ensures
        exists|i: int| gated_from(course, i),
{
    let n = course.len() as int;
    assert(linked(course, n - 1));
    let at = if course[n - 1] is Exec {
        n - 1
    } else {
        n - 2
    };
    assert(course[at] is Exec);
    assert(linked(course, at));
    assert(linked(course, at - 1));
    assert(linked(course, at - 2));
    assert(linked(course, at - 3));
    assert(gated_from(course, at - 4));
}

/// A launch that was aborted at its gate never claims that the target was
/// released, and one that failed after the release always says when.
pub proof fn release_claims_agree(l: Launch, fault: LaunchFault, helper: Seq<char>, program: Seq<char>)
    ensures
        fault !is Exec && fault !is Protocol ==> !l.gate_error(fault, helper).target_released
            && l.gate_error(fault, helper).authorization_offset is None,
        fault is Exec || fault is Protocol ==> l.released_error(
            fault,
            helper,
            program,
        ).target_released && l.released_error(fault, helper, program).authorization_offset == Some(
            l.authorized,
        ),
{
}

/// An error claims that the launcher sat in its control group only if the launch
/// came past its assignment.
pub proof fn containment_claims_are_earned(l: Launch, fault: LaunchFault, helper: Seq<char>)
    requires
        l.gate_error(fault, helper).cgroup_verified_before_release,
    ensures
        fault is Guardian || fault is Release,
{
}

} // verus!
