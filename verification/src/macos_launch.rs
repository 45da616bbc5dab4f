//! The launch of a workload on macOS. No code of the target runs before the guardian
//! stands, and what is said of the release is never more than is known.

use vstd::prelude::*;
use vstd::string::*;

use crate::macos_inventory::Identities;
use crate::macos_guardian::{is_stop_signal, stop_signal};
use crate::macos_lane::INVENTORY_FRAME_LIMIT;
use crate::macos_protocol::{expect, refusal, Expected, Message, Refusal};
use crate::model::{Fault, FaultKind};
use crate::time::Duration;

verus! {

/// Faults that a fixture can bring about during a launch.
#[derive(Clone, Copy, Debug, PartialEq, Eq, Structural)]
pub enum LaunchFault {
    GuardianBeforeArm,
    GuardianAfterArm,
    LauncherBeforeExec,
    NativeSpawnHeld,
    NativeSpawnHeldReleaseAfterCancel,
}

/// The steps of a launch.
#[derive(Clone, Copy, Debug, PartialEq, Eq, Structural)]
pub enum StartupPhase {
    GuardianSpawn,
    GuardianReadiness,
    LauncherSpawn,
    TargetRelease,
    TargetExec,
}

/// What is done in the steps of a launch.
#[derive(Clone, Copy, Debug, PartialEq, Eq, Structural)]
pub enum StartupOperation {
    SpawnGuardian,
    ReadGuardianReadiness,
    SpawnLauncher,
    ReleaseTarget,
    ConfirmTargetExec,
    ReapGuardian,
}

/// How far clearing up after a failed launch got.
#[derive(Clone, Copy, Debug, PartialEq, Eq, Structural)]
pub enum StartupCleanup {
    Unknown,
    Complete,
    Incomplete,
}

/// What is known of the target's release.
#[derive(Clone, Copy, Debug, PartialEq, Eq, Structural)]
pub enum ReleaseEvidence {
    NotIssued,
    Unknown,
    Issued { at: u64, exec_confirmed: bool },
}

/// The name of a step of a launch.
pub open spec fn phase_named(phase: StartupPhase) -> &'static str {
    match phase {
        StartupPhase::GuardianSpawn => "helper-spawn",
        StartupPhase::GuardianReadiness => "helper-ready",
        StartupPhase::LauncherSpawn => "launcher-spawn",
        StartupPhase::TargetRelease => "target-release",
        StartupPhase::TargetExec => "target-exec",
    }
}

/// The name of a step of a launch.
pub fn phase_name(phase: StartupPhase) -> (r: &'static str)
    ensures
        r == phase_named(phase),
{
    match phase {
        StartupPhase::GuardianSpawn => "helper-spawn",
        StartupPhase::GuardianReadiness => "helper-ready",
        StartupPhase::LauncherSpawn => "launcher-spawn",
        StartupPhase::TargetRelease => "target-release",
        StartupPhase::TargetExec => "target-exec",
    }
}

/// What is done in a step of a launch.
pub open spec fn operation_in(phase: StartupPhase) -> StartupOperation {
    match phase {
        StartupPhase::GuardianSpawn => StartupOperation::SpawnGuardian,
        StartupPhase::GuardianReadiness => StartupOperation::ReadGuardianReadiness,
        StartupPhase::LauncherSpawn => StartupOperation::SpawnLauncher,
        StartupPhase::TargetRelease => StartupOperation::ReleaseTarget,
        StartupPhase::TargetExec => StartupOperation::ConfirmTargetExec,
    }
}

fn operation_of(phase: StartupPhase) -> (r: StartupOperation)
    ensures
        r == operation_in(phase),
{
    match phase {
        StartupPhase::GuardianSpawn => StartupOperation::SpawnGuardian,
        StartupPhase::GuardianReadiness => StartupOperation::ReadGuardianReadiness,
        StartupPhase::LauncherSpawn => StartupOperation::SpawnLauncher,
        StartupPhase::TargetRelease => StartupOperation::ReleaseTarget,
        StartupPhase::TargetExec => StartupOperation::ConfirmTargetExec,
    }
}

/// What a launch waits for.
#[derive(Clone, Copy, Debug, PartialEq, Eq, Structural)]
pub enum StartupStage {
    /// The guardian process.
    Spawn,
    /// The guardian's greeting.
    Hello,
    /// That the plan has gone out.
    Configure,
    /// That the guardian stands.
    Ready,
    /// That a creation is held for a fixture.
    Held,
    /// That the launcher waits for its release.
    Prepared,
    /// That the release has gone out.
    Release,
    /// The receipt of the release.
    Receipt,
    /// That the target runs.
    Exec,
    /// Nothing: the target runs.
    Running,
}

/// A launch.
#[derive(Clone, Copy, Debug, PartialEq, Eq, Structural)]
pub struct Startup {
    pub fault: Option<LaunchFault>,
    pub stage: StartupStage,
    pub phase: StartupPhase,
    pub guardian_pid: Option<u32>,
    pub guardian_ready: bool,
    pub launcher_pid: Option<u32>,
    pub configured: bool,
    pub release: ReleaseEvidence,
}

/// What is to be sent ahead of the plan for a fixture.
#[derive(Clone, Copy, Debug, PartialEq, Eq, Structural)]
pub enum Hold {
    Spawn,
    SpawnReleaseAfterCancel,
}

/// What is to be done before the release for a fixture.
#[derive(Clone, Copy, Debug, PartialEq, Eq, Structural)]
pub struct Injection {
    pub kill_guardian: bool,
    pub send_stop: bool,
}

/// One thing that went wrong while clearing up after a failed launch.
#[derive(Debug)]
pub struct StartupCleanupError {
    pub operation: StartupOperation,
    pub native_errno: Option<i32>,
    pub detail: String,
}

/// What a failed launch leaves to be said.
#[derive(Debug)]
pub struct StartupError {
    pub phase: StartupPhase,
    pub operation: StartupOperation,
    pub error: Fault,
    pub native_errno: Option<i32>,
    pub guardian_pid: Option<u32>,
    pub guardian_ready: bool,
    pub launcher_pid: Option<u32>,
    pub release_sent: bool,
    pub exec_confirmed: bool,
    pub cleanup: StartupCleanup,
    pub cleanup_errors: Vec<StartupCleanupError>,
    pub release: ReleaseEvidence,
}

/// What became of a guardian after a failed launch.
#[derive(Debug)]
pub enum GuardianEnd {
    /// There was none.
    Missing,
    /// It is reaped; `success` tells whether it ended well.
    Reaped { success: bool },
    /// It could not be reaped in time.
    Unreaped(Fault),
}

/// Whether a fixture holds the creation.
pub open spec fn holds_spawn(fault: Option<LaunchFault>) -> bool {
    fault == Some(LaunchFault::NativeSpawnHeld) || fault == Some(
        LaunchFault::NativeSpawnHeldReleaseAfterCancel,
    )
}

/// Whether the release was issued.
pub open spec fn is_issued(release: ReleaseEvidence) -> bool {
    release is Issued
}

/// Whether the target is known to run.
pub open spec fn is_confirmed(release: ReleaseEvidence) -> bool {
    release matches ReleaseEvidence::Issued { exec_confirmed, .. } && exec_confirmed
}

impl Startup {
    /// What always holds of a launch.
    pub open spec fn wf(self) -> bool {
        &&& self.release == ReleaseEvidence::NotIssued <==> !(self.stage == StartupStage::Receipt
            || self.stage == StartupStage::Exec || self.stage == StartupStage::Running)
        &&& self.release == ReleaseEvidence::Unknown <==> self.stage == StartupStage::Receipt
        &&& is_confirmed(self.release) <==> self.stage == StartupStage::Running
        &&& self.release != ReleaseEvidence::NotIssued ==> self.guardian_ready && self.configured
            && self.launcher_pid is Some
    }

    /// Begins a launch, unless its time is over: then nothing is created.
    pub fn begin(fault: Option<LaunchFault>, expired: bool) -> (r: Result<Startup, StartupError>)
        ensures
            match r {
                Ok(startup) => !expired && startup == (Startup {
                    fault,
                    stage: StartupStage::Spawn,
                    phase: StartupPhase::GuardianSpawn,
                    guardian_pid: None,
                    guardian_ready: false,
                    launcher_pid: None,
                    configured: false,
                    release: ReleaseEvidence::NotIssued,
                }) && startup.wf(),
                Err(error) => expired && error.phase == StartupPhase::GuardianSpawn
                    && error.operation == StartupOperation::SpawnGuardian && error.error
                    == Fault::found(FaultKind::TimedOut, "startup expired before creation")
                    && error.native_errno is None && error.guardian_pid is None
                    && !error.guardian_ready && error.launcher_pid is None && !error.release_sent
                    && !error.exec_confirmed && error.cleanup == StartupCleanup::Complete
                    && error.cleanup_errors@.len() == 0 && error.release
                    == ReleaseEvidence::NotIssued,
            },
    {
        if expired {
            return Err(
                StartupError {
                    phase: StartupPhase::GuardianSpawn,
                    operation: StartupOperation::SpawnGuardian,
                    error: Fault::new(FaultKind::TimedOut, "startup expired before creation"),
                    native_errno: None,
                    guardian_pid: None,
                    guardian_ready: false,
                    launcher_pid: None,
                    release_sent: false,
                    exec_confirmed: false,
                    cleanup: StartupCleanup::Complete,
                    cleanup_errors: Vec::new(),
                    release: ReleaseEvidence::NotIssued,
                },
            );
        }
        Ok(
            Startup {
                fault,
                stage: StartupStage::Spawn,
                phase: StartupPhase::GuardianSpawn,
                guardian_pid: None,
                guardian_ready: false,
                launcher_pid: None,
                configured: false,
                release: ReleaseEvidence::NotIssued,
            },
        )
    }

    /// The guardian process is there.
    pub fn guardian_spawned(&mut self, pid: u32)
        requires
            old(self).wf(),
            old(self).stage == StartupStage::Spawn,
        ensures
            final(self).wf(),
            *final(self) == (Startup {
                stage: StartupStage::Hello,
                phase: StartupPhase::GuardianReadiness,
                guardian_pid: Some(pid),
                ..*old(self)
            }),
    {
        self.guardian_pid = Some(pid);
        self.phase = StartupPhase::GuardianReadiness;
        self.stage = StartupStage::Hello;
    }

    /// The guardian's greeting is due. What a fixture wants sent ahead of the plan, if
    /// anything.
    pub fn greeted(&mut self, came: Option<Message>) -> (r: Result<Option<Hold>, Refusal>)
        requires
            old(self).wf(),
            old(self).stage == StartupStage::Hello,
        ensures
            final(self).wf(),
            match refusal(came, Expected::Hello) {
                Some(why) => *final(self) == *old(self) && r == Err::<Option<Hold>, Refusal>(why),
                None => *final(self) == (Startup { stage: StartupStage::Configure, ..*old(self) })
                    && r == Ok::<Option<Hold>, Refusal>(
                    if old(self).fault == Some(LaunchFault::NativeSpawnHeld) {
                        Some(Hold::Spawn)
                    } else if old(self).fault == Some(
                        LaunchFault::NativeSpawnHeldReleaseAfterCancel,
                    ) {
                        Some(Hold::SpawnReleaseAfterCancel)
                    } else {
                        None
                    },
                ),
            },
    {
        match expect(came, Expected::Hello) {
            Ok(_) => {},
            Err(why) => {
                return Err(why);
            },
        }
        self.stage = StartupStage::Configure;
        match self.fault {
            Some(LaunchFault::NativeSpawnHeld) => Ok(Some(Hold::Spawn)),
            Some(LaunchFault::NativeSpawnHeldReleaseAfterCancel) => Ok(
                Some(Hold::SpawnReleaseAfterCancel),
            ),
            _ => Ok(None),
        }
    }

    /// The plan has gone out: from here on the guardian clears up by itself.
    pub fn plan_sent(&mut self)
        requires
            old(self).wf(),
            old(self).stage == StartupStage::Configure,
        ensures
            final(self).wf(),
            *final(self) == (Startup {
                stage: StartupStage::Ready,
                configured: true,
                ..*old(self)
            }),
    {
        self.configured = true;
        self.stage = StartupStage::Ready;
    }

    /// That the guardian stands is due. True where a fixture wants the guardian killed
    /// now.
    pub fn guardian_stands(&mut self, came: Option<Message>) -> (r: Result<bool, Refusal>)
        requires
            old(self).wf(),
            old(self).stage == StartupStage::Ready,
            old(self).configured,
        ensures
            final(self).wf(),
            match refusal(came, Expected::Ready) {
                Some(why) => *final(self) == *old(self) && r == Err::<bool, Refusal>(why),
                None => if holds_spawn(old(self).fault) {
                    *final(self) == (Startup {
                        stage: StartupStage::Held,
                        guardian_ready: true,
                        ..*old(self)
                    }) && r == Ok::<bool, Refusal>(false)
                } else {
                    *final(self) == (Startup {
                        stage: StartupStage::Prepared,
                        phase: StartupPhase::LauncherSpawn,
                        guardian_ready: true,
                        ..*old(self)
                    }) && r == Ok::<bool, Refusal>(
                        old(self).fault == Some(LaunchFault::GuardianBeforeArm),
                    )
                },
            },
    {
        match expect(came, Expected::Ready) {
            Ok(_) => {},
            Err(why) => {
                return Err(why);
            },
        }
        self.guardian_ready = true;
        let (held, before_arm) = match self.fault {
            Some(LaunchFault::NativeSpawnHeld) => (true, false),
            Some(LaunchFault::NativeSpawnHeldReleaseAfterCancel) => (true, false),
            Some(LaunchFault::GuardianBeforeArm) => (false, true),
            _ => (false, false),
        };
        if held {
            self.stage = StartupStage::Held;
            return Ok(false);
        }
        self.stage = StartupStage::Prepared;
        self.phase = StartupPhase::LauncherSpawn;
        Ok(before_arm)
    }

    /// That the creation is held is due. The launch ends there either way: the hold
    /// lasts beyond its time.
    pub fn spawn_held(&mut self, came: Option<Message>) -> (r: Fault)
        requires
            old(self).wf(),
            old(self).stage == StartupStage::Held,
        ensures
            final(self).wf(),
            if came matches Some(Message::SpawnHeld { pid }) && pid > 0 {
                *final(self) == (Startup {
                    launcher_pid: Some((came->0)->SpawnHeld_pid as u32),
                    ..*old(self)
                }) && r == Fault::found(
                    FaultKind::TimedOut,
                    "held native spawn publication expired",
                )
            } else {
                *final(self) == *old(self) && r == Fault::found(
                    FaultKind::Other,
                    "native spawn hold receipt missing",
                )
            },
    {
        match came {
            Some(Message::SpawnHeld { pid }) => {
                if pid > 0 {
                    self.launcher_pid = Some(pid as u32);
                    return Fault::new(FaultKind::TimedOut, "held native spawn publication expired");
                }
            },
            _ => {},
        }
        Fault::new(FaultKind::Other, "native spawn hold receipt missing")
    }

    /// That the launcher waits for its release is due. What a fixture wants done before
    /// the release.
    pub fn launcher_waits(&mut self, came: Option<Message>) -> (r: Result<Injection, Refusal>)
        requires
            old(self).wf(),
            old(self).stage == StartupStage::Prepared,
            old(self).guardian_ready && old(self).configured,
        ensures
            final(self).wf(),
            match came {
                Some(Message::Prepared { pid }) => if pid > 0 {
                    *final(self) == (Startup {
                        stage: StartupStage::Release,
                        phase: StartupPhase::TargetRelease,
                        launcher_pid: Some(pid as u32),
                        ..*old(self)
                    }) && r == Ok::<Injection, Refusal>(
                        Injection {
                            kill_guardian: old(self).fault == Some(LaunchFault::GuardianAfterArm),
                            send_stop: old(self).fault == Some(LaunchFault::LauncherBeforeExec),
                        },
                    )
                } else {
                    *final(self) == *old(self) && r == Err::<Injection, Refusal>(
                        Refusal::Found(
                            Fault::found(
                                FaultKind::Other,
                                "guardian preparation receipt invalid",
                            ),
                        ),
                    )
                },
                Some(Message::Failure { errno }) => *final(self) == *old(self) && r == Err::<
                    Injection,
                    Refusal,
                >(Refusal::Native(errno)),
                _ => *final(self) == *old(self) && r == Err::<Injection, Refusal>(
                    Refusal::Found(
                        Fault::found(FaultKind::Other, "guardian preparation receipt invalid"),
                    ),
                ),
            },
    {
        let pid: i32 = match came {
            Some(Message::Prepared { pid }) => pid,
            Some(Message::Failure { errno }) => {
                return Err(Refusal::Native(errno));
            },
            _ => 0,
        };
        if pid <= 0 {
            return Err(
                Refusal::Found(
                    Fault::new(FaultKind::Other, "guardian preparation receipt invalid"),
                ),
            );
        }
        self.launcher_pid = Some(pid as u32);
        self.phase = StartupPhase::TargetRelease;
        self.stage = StartupStage::Release;
        let (kill_guardian, send_stop) = match self.fault {
            Some(LaunchFault::GuardianAfterArm) => (true, false),
            Some(LaunchFault::LauncherBeforeExec) => (false, true),
            _ => (false, false),
        };
        Ok(Injection { kill_guardian, send_stop })
    }

    /// The release has gone out. Until its receipt comes, nothing is known of it.
    pub fn release_sent(&mut self)
        requires
            old(self).wf(),
            old(self).stage == StartupStage::Release,
            old(self).guardian_ready && old(self).configured && old(self).launcher_pid is Some,
        ensures
            final(self).wf(),
            *final(self) == (Startup {
                stage: StartupStage::Receipt,
                release: ReleaseEvidence::Unknown,
                ..*old(self)
            }),
    {
        self.release = ReleaseEvidence::Unknown;
        self.stage = StartupStage::Receipt;
    }

    /// The receipt of the release is due.
    pub fn release_receipt(&mut self, came: Option<Message>) -> (r: Result<(), Fault>)
        requires
            old(self).wf(),
            old(self).stage == StartupStage::Receipt,
        ensures
            final(self).wf(),
            match came {
                Some(Message::ReleaseIssued { at }) => r is Ok && *final(self) == (Startup {
                    stage: StartupStage::Exec,
                    phase: StartupPhase::TargetExec,
                    release: ReleaseEvidence::Issued { at, exec_confirmed: false },
                    ..*old(self)
                }),
                _ => *final(self) == *old(self) && r == Err::<(), Fault>(
                    Fault::found(FaultKind::Other, "guardian release receipt unavailable"),
                ),
            },
    {
        match came {
            Some(Message::ReleaseIssued { at }) => {
                self.release = ReleaseEvidence::Issued { at, exec_confirmed: false };
                self.phase = StartupPhase::TargetExec;
                self.stage = StartupStage::Exec;
                Ok(())
            },
            _ => Err(Fault::new(FaultKind::Other, "guardian release receipt unavailable")),
        }
    }

    /// That the target runs is due. When it was released.
    pub fn target_runs(&mut self, came: Option<Message>) -> (r: Result<u64, Refusal>)
        requires
            old(self).wf(),
            old(self).stage == StartupStage::Exec,
        ensures
            final(self).wf(),
            match refusal(came, Expected::Released) {
                Some(why) => *final(self) == *old(self) && r == Err::<u64, Refusal>(why),
                None => r == Ok::<u64, Refusal>(old(self).release->at) && *final(self) == (Startup {
                    stage: StartupStage::Running,
                    release: ReleaseEvidence::Issued {
                        at: old(self).release->at,
                        exec_confirmed: true,
                    },
                    ..*old(self)
                }),
            },
    {
        match expect(came, Expected::Released) {
            Ok(_) => {},
            Err(why) => {
                return Err(why);
            },
        }
        let at: u64 = match self.release {
            ReleaseEvidence::Issued { at, .. } => at,
            _ => 0,
        };
        self.release = ReleaseEvidence::Issued { at, exec_confirmed: true };
        self.stage = StartupStage::Running;
        Ok(at)
    }

    /// Whether a guardian is to be killed when the launch fails: only while it has no
    /// plan of its own to clear up by.
    pub fn kills_guardian(&self) -> (r: bool)
        ensures
            r == !self.configured,
    {
        !self.configured
    }

    /// How far clearing up got.
    pub open spec fn cleanup_after(self, error: Fault, end: GuardianEnd) -> StartupCleanup {
        match end {
            GuardianEnd::Missing => if error.kind != FaultKind::TimedOut {
                StartupCleanup::Complete
            } else {
                StartupCleanup::Unknown
            },
            GuardianEnd::Reaped { success } => if !self.configured || success {
                StartupCleanup::Complete
            } else {
                StartupCleanup::Unknown
            },
            GuardianEnd::Unreaped(_) => StartupCleanup::Incomplete,
        }
    }

    /// The launch failed with `error`, and this became of the guardian.
    pub fn fail(self, error: Fault, end: GuardianEnd) -> (r: StartupError)
        ensures
            r.phase == self.phase,
            r.operation == operation_in(self.phase),
            r.error == error,
            r.native_errno == error.os_code,
            r.guardian_pid == self.guardian_pid,
            r.guardian_ready == self.guardian_ready,
            r.launcher_pid == self.launcher_pid,
            r.release_sent == is_issued(self.release),
            r.exec_confirmed == is_confirmed(self.release),
            r.release == self.release,
            r.cleanup == self.cleanup_after(error, end),
            match end {
                GuardianEnd::Unreaped(fault) => r.cleanup_errors@.len() == 1
                    && r.cleanup_errors@[0].operation == StartupOperation::ReapGuardian
                    && r.cleanup_errors@[0].native_errno == fault.os_code
                    && r.cleanup_errors@[0].detail@ == fault.text.chars(),
                _ => r.cleanup_errors@.len() == 0,
            },
    {
        let mut cleanup_errors: Vec<StartupCleanupError> = Vec::new();
        let cleanup = match end {
            GuardianEnd::Missing => {
                let late = match error.kind {
                    FaultKind::TimedOut => true,
                    _ => false,
                };
                if late {
                    StartupCleanup::Unknown
                } else {
                    StartupCleanup::Complete
                }
            },
            GuardianEnd::Reaped { success } => {
                if !self.configured || success {
                    StartupCleanup::Complete
                } else {
                    StartupCleanup::Unknown
                }
            },
            GuardianEnd::Unreaped(fault) => {
                cleanup_errors.push(
                    StartupCleanupError {
                        operation: StartupOperation::ReapGuardian,
                        native_errno: fault.os_code,
                        detail: fault.text.render(),
                    },
                );
                StartupCleanup::Incomplete
            },
        };
        let (release_sent, exec_confirmed) = match self.release {
            ReleaseEvidence::Issued { exec_confirmed, .. } => (true, exec_confirmed),
            _ => (false, false),
        };
        StartupError {
            phase: self.phase,
            operation: operation_of(self.phase),
            native_errno: error.os_code,
            error,
            guardian_pid: self.guardian_pid,
            guardian_ready: self.guardian_ready,
            launcher_pid: self.launcher_pid,
            release_sent,
            exec_confirmed,
            cleanup,
            cleanup_errors,
            release: self.release,
        }
    }
}

/// A grace as it goes to a guardian, in nanoseconds.
pub fn plan_grace(grace: Duration) -> (r: Result<u64, Fault>)
    ensures
        r == if grace@ <= u64::MAX {
            Ok::<u64, Fault>(grace@ as u64)
        } else {
            Err(Fault::found(FaultKind::Other, "grace range exceeded"))
        },
{
    let nanos: u128 = grace.as_nanos();
    if nanos <= u64::MAX as u128 {
        Ok(nanos as u64)
    } else {
        Err(Fault::new(FaultKind::Other, "grace range exceeded"))
    }
}

/// A failed launch is never said to have released nothing once the release may have
/// gone out, and is never said to have released before the guardian stood.
pub proof fn release_claims_are_honest(startup: Startup)
    requires
        startup.wf(),
    ensures
        startup.stage == StartupStage::Receipt ==> startup.release == ReleaseEvidence::Unknown,
        startup.release != ReleaseEvidence::NotIssued ==> startup.guardian_ready
            && startup.launcher_pid is Some,
        is_confirmed(startup.release) ==> is_issued(startup.release),
{
}

/// The largest number of processes that an inspector is told of.
pub const MAX_KNOWN: usize = 32768;

/// Whether a request to an inspector is in order: of its run, next in the sequence,
/// about a process that can be one, with nobody impossible known and no signal but
/// those that end a process.
pub open spec fn request_fits(
    expected_run: u64,
    sequence: u64,
    run: u64,
    next: u64,
    root: i32,
    known: Identities,
    signal: Option<i32>,
) -> bool {
    &&& run == expected_run
    &&& sequence + 1 == next
    &&& root > 0
    &&& known.list@.len() <= MAX_KNOWN
    &&& forall|i: int| 0 <= i < known.list@.len() ==> (#[trigger] known.list@[i]).pid > 0
    &&& signal matches Some(number) ==> is_stop_signal(number)
}

/// Decides whether a request to an inspector is carried out. One that is not in order
/// makes the inspector leave with status 126.
pub fn inspector_request(
    expected_run: u64,
    sequence: u64,
    run: u64,
    next: u64,
    root: i32,
    known: &Identities,
    signal: Option<i32>,
) -> (r: bool)
    ensures
        r == request_fits(expected_run, sequence, run, next, root, *known, signal),
{
    if run != expected_run || sequence == u64::MAX || sequence + 1 != next || root <= 0
        || known.list.len() > MAX_KNOWN {
        return false;
    }
    let mut i: usize = 0;
    while i < known.list.len()
        invariant
            i <= known.list.len(),
            forall|k: int| 0 <= k < i ==> (#[trigger] known.list@[k]).pid > 0,
        decreases known.list.len() - i,
    {
        if known.list[i].pid <= 0 {
            assert(!(known.list@[i as int].pid > 0));
            return false;
        }
        i += 1;
    }
    match signal {
        Some(number) => stop_signal(number),
        None => true,
    }
}

/// Decides whether a request of this length is read; a longer one makes the inspector
/// leave with status 126.
pub fn inspector_length(length: usize) -> (r: bool)
    ensures
        r == (length <= INVENTORY_FRAME_LIMIT - 4),
{
    length <= INVENTORY_FRAME_LIMIT - 4
}

/// Decides whether a helper is started on an inherited descriptor: one above the
/// standard ones that is open.
pub fn helper_descriptor(descriptor: i32, open: bool) -> (r: Result<(), i32>)
    ensures
        r == if descriptor < 3 || !open {
            Err::<(), i32>(126)
        } else {
            Ok(())
        },
{
    if descriptor < 3 || !open {
        Err(126)
    } else {
        Ok(())
    }
}

/// Decides whether a launcher helper is started: a guardian is never started without
/// the caller's state.
pub fn helper(guardian: bool) -> (r: Result<(), i32>)
    ensures
        r == if guardian {
            Err::<(), i32>(126)
        } else {
            Ok(())
        },
{
    if guardian {
        Err(126)
    } else {
        Ok(())
    }
}

/// Decides whether a guardian is started on two inherited descriptors, and above which
/// number it puts what it receives.
pub fn enveloped_helper(descriptor: i32, envelope_descriptor: i32, open: bool) -> (r: Result<
    i32,
    i32,
>)
    ensures
        r == if envelope_descriptor < 3 || envelope_descriptor == descriptor || !open {
            Err::<i32, i32>(126)
        } else {
            let top = if descriptor > envelope_descriptor {
                descriptor
            } else {
                envelope_descriptor
            };
            Ok(
                if top == i32::MAX {
                    i32::MAX
                } else {
                    (top + 1) as i32
                },
            )
        },
{
    if envelope_descriptor < 3 || envelope_descriptor == descriptor || !open {
        return Err(126);
    }
    let top: i32 = if descriptor > envelope_descriptor {
        descriptor
    } else {
        envelope_descriptor
    };
    if top == i32::MAX {
        Ok(i32::MAX)
    } else {
        Ok(top + 1)
    }
}

/// The status of a launcher whose exec failed.
pub fn exec_status(kind: FaultKind) -> (r: i32)
    ensures
        r == if kind == FaultKind::NotFound {
            127i32
        } else {
            126
        },
{
    match kind {
        FaultKind::NotFound => 127,
        _ => 126,
    }
}

/// Where a launcher stands on its way to the target.
#[derive(Clone, Copy, Debug, PartialEq, Eq, Structural)]
pub enum GateStage {
    /// It waits for the signal settings of the caller.
    Settings,
    /// It takes them over.
    Restoring,
    /// It says that it is ready.
    Announcing,
    /// It waits to be released.
    Waiting,
    /// It becomes the target.
    Through,
    Over,
}

/// What happens to a launcher.
#[derive(Clone, Copy, Debug, PartialEq, Eq, Structural)]
pub enum GateEvent {
    Settings,
    Restored,
    Announced,
    Released,
    /// Anything else: another message, none in time, or a failure.
    Other,
}

/// What a launcher does next.
#[derive(Clone, Copy, Debug, PartialEq, Eq, Structural)]
pub enum GateStep {
    Restore,
    Announce,
    Wait,
    Exec,
    /// Leave with the status of a launch that failed.
    Leave,
}

/// How a launcher goes on.
pub open spec fn gate_after(stage: GateStage, event: GateEvent) -> (GateStage, GateStep) {
    match (stage, event) {
        (GateStage::Settings, GateEvent::Settings) => (GateStage::Restoring, GateStep::Restore),
        (GateStage::Restoring, GateEvent::Restored) => (GateStage::Announcing, GateStep::Announce),
        (GateStage::Announcing, GateEvent::Announced) => (GateStage::Waiting, GateStep::Wait),
        (GateStage::Waiting, GateEvent::Released) => (GateStage::Through, GateStep::Exec),
        _ => (GateStage::Over, GateStep::Leave),
    }
}

/// Decides how a launcher goes on.
pub fn launcher_turn(stage: GateStage, event: GateEvent) -> (r: (GateStage, GateStep))
    ensures
        r == gate_after(stage, event),
{
    match (stage, event) {
        (GateStage::Settings, GateEvent::Settings) => (GateStage::Restoring, GateStep::Restore),
        (GateStage::Restoring, GateEvent::Restored) => (GateStage::Announcing, GateStep::Announce),
        (GateStage::Announcing, GateEvent::Announced) => (GateStage::Waiting, GateStep::Wait),
        (GateStage::Waiting, GateEvent::Released) => (GateStage::Through, GateStep::Exec),
        _ => (GateStage::Over, GateStep::Leave),
    }
}

/// Where a launcher stands after what happened to it, from its beginning on.
pub open spec fn gate_stage(events: Seq<GateEvent>) -> GateStage
    decreases events.len(),
{
    if events.len() == 0 {
        GateStage::Settings
    } else {
        gate_after(gate_stage(events.drop_last()), events.last()).0
    }
}

/// What must happen to a launcher before it becomes the target, in order.
pub open spec fn gate_way() -> Seq<GateEvent> {
    seq![GateEvent::Settings, GateEvent::Restored, GateEvent::Announced, GateEvent::Released]
}

/// How many of the events on that way a stage stands behind.
pub open spec fn gate_depth(stage: GateStage) -> int {
    match stage {
        GateStage::Settings => 0,
        GateStage::Restoring => 1,
        GateStage::Announcing => 2,
        GateStage::Waiting => 3,
        GateStage::Through => 4,
        GateStage::Over => 5,
    }
}

/// No code of the target runs before the launcher took the caller's signal settings
/// over, said that it is ready and was then released: nothing else leads to the
/// execution.
pub proof fn targets_wait_for_their_release(events: Seq<GateEvent>, event: GateEvent)
    requires
        gate_after(gate_stage(events), event).1 == GateStep::Exec,
    ensures
        events.push(event) == gate_way(),
{
    gate_stages_count(events);
    assert(events.push(event) =~= gate_way());
}

proof fn gate_stages_count(events: Seq<GateEvent>)
    ensures
        gate_stage(events) != GateStage::Over ==> gate_depth(gate_stage(events)) == events.len()
            && events == gate_way().take(events.len() as int),
    decreases events.len(),
{
    if events.len() > 0 {
        gate_stages_count(events.drop_last());
        if gate_stage(events) != GateStage::Over {
            assert(events =~= events.drop_last().push(events.last()));
            assert(events =~= gate_way().take(events.len() as int));
        }
    } else {
        assert(events =~= gate_way().take(0));
    }
}

} // verus!
