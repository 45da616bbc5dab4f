//! The frame of an attempt on macOS: whether it may begin, the instants it is planned
//! by, what a failed launch amounts to, and the evidence of an attempt that is over.

use vstd::prelude::*;
use vstd::string::*;

use crate::backend::{info, is_macos_info, BackendInfo};
use crate::evidence::{
    bare_error, BackendCleanupFacts, BoundaryMechanismEvidence, DeadlineEvidence, Error,
    ErrorCategory, ErrorView, InitialSpawnFailure, LaunchEvidence, LaunchView, MechanismView,
    OutcomeView, RestartSafetyProof, RunOutcome, SafetyView,
};
use crate::macos_deadline::after;
use crate::macos_inventory::{metric_name, metric_named, ProcessIdentity};
use crate::macos_launch::{
    phase_name, phase_named, ReleaseEvidence, StartupCleanup, StartupError, StartupOperation, StartupPhase,
};
use crate::macos_watchdog::{clock_failed, clock_failure, is_near, Plan, RETIREMENT_NANOS};
use crate::model::{
    cleanup_error, cleanup_record, lines_of, no_cleanup, render_all, texts, CleanupErrorRecord,
    CleanupSummary, CleanupView, Fault, FaultKind, Text,
};
use crate::policy::{AttemptContext, BoundaryClass, BoundaryRequirement, Deadline, Enforcement, Policy};
use crate::supervisor::{unresolved_sealed, unresolved_sealed_error};
use crate::time::{capped_millis, floor_sub, later, least, Duration};

verus! {

/// Why an attempt may not begin, if it may not. None does while an inspection of an
/// earlier one is still owed, and none of a sealed request, which no provider stands
/// behind here.
pub open spec fn begin_error(obligations: usize, policy: Policy) -> Option<ErrorView> {
    if obligations != 0 {
        Some(
            bare_error(
                ErrorCategory::Setup,
                "MCSETUP-INSPECTION-PENDING",
                "a previous native inspection remains owned; new workload creation is refused"@,
            ),
        )
    } else if policy.enforcement == Enforcement::Hard {
        Some(
            bare_error(
                ErrorCategory::Unsupported,
                "MCSETUP-HARD-UNAVAILABLE",
                "hard enforcement is unavailable on macOS; select watchdog or auto"@,
            ),
        )
    } else if policy.boundary == BoundaryRequirement::Sealed {
        Some(unresolved_sealed_error())
    } else {
        None
    }
}

/// Decides whether an attempt may begin.
pub fn may_begin(obligations: usize, policy: &Policy) -> (r: Result<(), Error>)
    ensures
        match r {
            Ok(_) => obligations == 0 && policy.enforcement != Enforcement::Hard
                && policy.boundary == BoundaryRequirement::Standard,
            Err(error) => begin_error(obligations, *policy) == Some(error@),
        },
{
    if obligations != 0 {
        return Err(
            Error::fixed(
                ErrorCategory::Setup,
                "MCSETUP-INSPECTION-PENDING",
                "a previous native inspection remains owned; new workload creation is refused",
            ),
        );
    }
    if policy.enforcement == Enforcement::Hard {
        return Err(
            Error::fixed(
                ErrorCategory::Unsupported,
                "MCSETUP-HARD-UNAVAILABLE",
                "hard enforcement is unavailable on macOS; select watchdog or auto",
            ),
        );
    }
    if policy.boundary == BoundaryRequirement::Sealed {
        return Err(unresolved_sealed());
    }
    Ok(())
}

/// A sealed request is refused before its target is authorized, whatever else stands
/// in its way.
pub proof fn sealed_requests_do_not_begin(obligations: usize, policy: Policy)
    requires
        policy.boundary == BoundaryRequirement::Sealed,
    ensures
        begin_error(obligations, policy) matches Some(error) && !error.target_released
            && error.authorization_offset is None,
        forall|r: Result<(), Error>| #[trigger]
            call_ensures(may_begin, (obligations, &policy), r) ==> r is Err,
{
}

/// The error of a clock that fails before anything runs.
pub open spec fn setup_clock_failed(fault: Fault) -> ErrorView {
    bare_error(ErrorCategory::Setup, "MCSETUP-CLOCK", fault.text.chars())
}

/// The error of a clock that fails before anything runs.
pub fn setup_clock_failure(fault: Fault) -> (r: Error)
    ensures
        r@ == setup_clock_failed(fault),
{
    Error::new(ErrorCategory::Setup, "MCSETUP-CLOCK", fault.text.render())
}

/// The longest of the three graces.
pub open spec fn longest_grace(policy: Policy) -> nat {
    let a = policy.limit_grace@;
    let b = policy.signal_grace@;
    let c = policy.command_exit_grace@;
    let ab = if a >= b {
        a
    } else {
        b
    };
    if ab >= c {
        ab
    } else {
        c
    }
}

/// When an attempt counts as begun.
pub open spec fn origin_of(restart_attempt: u32, run_origin: Option<u64>, tick: u64) -> u64 {
    if restart_attempt == 0 {
        match run_origin {
            Some(origin) => origin,
            None => tick,
        }
    } else {
        tick
    }
}

/// When the work of an attempt is over.
pub open spec fn expiry_of(policy: Policy, work_expires: Option<u64>, origin: u64) -> Result<
    Option<u64>,
    Fault,
> {
    match work_expires {
        Some(expiry) => Ok(Some(expiry)),
        None => match policy.deadline {
            None => Ok(None),
            Some(deadline) => match after(origin, deadline.duration@) {
                Ok(expiry) => Ok(Some(expiry)),
                Err(fault) => Err(fault),
            },
        },
    }
}

/// The instants of an attempt, or what keeps them from being represented.
pub open spec fn planned(
    policy: Policy,
    restart_attempt: u32,
    run_origin: Option<u64>,
    work_expires: Option<u64>,
    tick: u64,
) -> Result<Plan, Fault> {
    let attempt_origin = origin_of(restart_attempt, run_origin, tick);
    match expiry_of(policy, work_expires, attempt_origin) {
        Err(fault) => Err(fault),
        Ok(work_expiry) => {
            let base = match work_expiry {
                Some(expiry) => expiry,
                None => attempt_origin,
            };
            match after(base, longest_grace(policy)) {
                Err(fault) => Err(fault),
                Ok(force) => match after(force, 4_000_000_000) {
                    Err(fault) => Err(fault),
                    Ok(_) => match work_expiry {
                        None => match after(attempt_origin, 5_000_000_000) {
                            Err(fault) => Err(fault),
                            Ok(startup_expiry) => Ok(
                                Plan { attempt_origin, work_expiry, startup_expiry },
                            ),
                        },
                        Some(expiry) => Ok(
                            Plan {
                                attempt_origin,
                                work_expiry,
                                startup_expiry: least(
                                    expiry as nat,
                                    least(attempt_origin as nat + 5_000_000_000, u64::MAX as nat),
                                ) as u64,
                            },
                        ),
                    },
                },
            }
        },
    }
}

/// The instants that an attempt is planned by. All that may have to be waited for
/// later must be representable now.
pub fn plan(
    policy: &Policy,
    restart_attempt: u32,
    run_origin: Option<u64>,
    work_expires: Option<u64>,
    tick: u64,
) -> (r: Result<Plan, Error>)
    ensures
        match planned(*policy, restart_attempt, run_origin, work_expires, tick) {
            Ok(plan) => r == Ok::<Plan, Error>(plan),
            Err(fault) => r matches Err(error) && error@ == setup_clock_failed(fault),
        },
{
    let attempt_origin: u64 = if restart_attempt == 0 {
        match run_origin {
            Some(origin) => origin,
            None => tick,
        }
    } else {
        tick
    };
    let work_expiry: Option<u64> = match work_expires {
        Some(expiry) => Some(expiry),
        None => match policy.deadline {
            None => None,
            Some(deadline) => match crate::macos_deadline::add(attempt_origin, deadline.duration) {
                Ok(expiry) => Some(expiry),
                Err(fault) => {
                    return Err(setup_clock_failure(fault));
                },
            },
        },
    };
    let base: u64 = match work_expiry {
        Some(expiry) => expiry,
        None => attempt_origin,
    };
    let mut grace = policy.limit_grace;
    if grace.is_less_than(policy.signal_grace) {
        grace = policy.signal_grace;
    }
    if grace.is_less_than(policy.command_exit_grace) {
        grace = policy.command_exit_grace;
    }
    let force: u64 = match crate::macos_deadline::add(base, grace) {
        Ok(force) => force,
        Err(fault) => {
            return Err(setup_clock_failure(fault));
        },
    };
    match crate::macos_deadline::add(force, Duration::from_secs(4)) {
        Ok(_) => {},
        Err(fault) => {
            return Err(setup_clock_failure(fault));
        },
    }
    let startup_expiry: u64 = match work_expiry {
        None => match crate::macos_deadline::add(attempt_origin, Duration::from_secs(5)) {
            Ok(expiry) => expiry,
            Err(fault) => {
                return Err(setup_clock_failure(fault));
            },
        },
        Some(expiry) => {
            let local: u64 = attempt_origin.saturating_add(5_000_000_000);
            if expiry <= local {
                expiry
            } else {
                local
            }
        },
    };
    Ok(Plan { attempt_origin, work_expiry, startup_expiry })
}

/// An attempt that could be planned has graces and a deadline that a watch can count
/// with.
pub proof fn plans_can_be_watched(
    policy: Policy,
    restart_attempt: u32,
    run_origin: Option<u64>,
    work_expires: Option<u64>,
    tick: u64,
)
    ensures
        planned(policy, restart_attempt, run_origin, work_expires, tick) matches Ok(plan) ==> {
            &&& policy.deadline is Some ==> plan.work_expiry is Some
            &&& is_near(policy.limit_grace@)
            &&& is_near(policy.signal_grace@)
            &&& plan.work_expiry matches Some(expiry) ==> plan.startup_expiry <= expiry
        },
{
}

/// Until when a launch may take, counted from the attempt's start: five seconds, unless
/// the supervision, the deadline or the end of the work comes first.
pub open spec fn launch_until(
    context: AttemptContext,
    policy: Policy,
    work_expiry: Option<u64>,
    tick: u64,
    now: nat,
) -> nat {
    let local = context.clamped(0, 5_000_000_000);
    let bounded = match policy.deadline {
        Some(deadline) => least(local, deadline.duration@),
        None => local,
    };
    match work_expiry {
        Some(expiry) => least(bounded, now + floor_sub(expiry as nat, tick as nat)),
        None => bounded,
    }
}

/// Until when a launch may take, and until when clearing up after it may.
pub fn launch_deadlines(
    context: AttemptContext,
    policy: &Policy,
    work_expiry: Option<u64>,
    tick: u64,
    now: Duration,
) -> (r: (Duration, Duration))
    ensures
        r.0@ == launch_until(context, *policy, work_expiry, tick, now@),
        r.1@ == r.0@ + RETIREMENT_NANOS,
{
    let local = context.clamp_deadline(Duration::zero(), Duration::from_secs(5));
    let bounded = match policy.deadline {
        Some(deadline) => local.min(deadline.duration),
        None => local,
    };
    let launch = match work_expiry {
        Some(expiry) => {
            let left: u64 = if expiry >= tick {
                expiry - tick
            } else {
                0
            };
            bounded.min_sum(now, Duration::from_nanos(left))
        },
        None => bounded,
    };
    (launch, later(launch, Duration::from_nanos(RETIREMENT_NANOS)))
}

/// Who was last known to be responsible for a workload.
#[derive(Clone, Copy, Debug, PartialEq, Eq, Structural)]
pub struct OwnerIdentity {
    pub pid: u32,
    pub start_identity: u64,
}

/// The identity of a guardian, where its start can be told in microseconds.
pub fn owner(guardian_pid: u32, identity: ProcessIdentity) -> (r: Option<OwnerIdentity>)
    ensures
        r == if guardian_pid == 0 || identity.start_seconds * 1_000_000
            + identity.start_microseconds > u64::MAX {
            None
        } else {
            Some(
                OwnerIdentity {
                    pid: guardian_pid,
                    start_identity: (identity.start_seconds * 1_000_000
                        + identity.start_microseconds) as u64,
                },
            )
        },
{
    let wide: u128 = identity.start_seconds as u128 * 1_000_000
        + identity.start_microseconds as u128;
    if guardian_pid == 0 || wide > u64::MAX as u128 {
        return None;
    }
    Some(OwnerIdentity { pid: guardian_pid, start_identity: wide as u64 })
}

/// What is known of a workload's retirement.
#[derive(Clone, Copy, Debug, PartialEq, Eq, Structural)]
pub enum RetirementEvidence {
    Complete { at: u64 },
    Unconfirmed { last_owner: Option<OwnerIdentity> },
}

/// The instants of an attempt that is over, on the continuous clock of its boot.
#[derive(Clone, Copy, Debug, PartialEq, Eq, Structural)]
pub struct RuntimeEvidence {
    pub run_origin: u64,
    pub attempt_origin: u64,
    pub work_expires: Option<u64>,
    pub startup_expires: u64,
    pub release: ReleaseEvidence,
    pub target_pid: Option<u32>,
    pub terminal_observed: u64,
    pub force_requested: Option<u64>,
    pub force_expires: u64,
    pub retirement_expires: u64,
    pub delivery_expires: u64,
    pub retirement: RetirementEvidence,
}

/// What is asked for of the evidence of an attempt.
#[derive(Clone, Copy, Debug, PartialEq, Eq, Structural)]
pub struct RuntimeFacts {
    pub run_origin: Option<u64>,
    pub release: ReleaseEvidence,
    pub target_pid: Option<u32>,
    pub terminal: u64,
    pub force: u64,
    pub complete: bool,
    pub owner: Option<OwnerIdentity>,
}

/// The evidence of an attempt, or what keeps it from being represented.
pub open spec fn runtime_of(plan: Plan, facts: RuntimeFacts, retired: Result<u64, Fault>) -> Result<
    RuntimeEvidence,
    Fault,
> {
    match retired {
        Err(fault) => Err(fault),
        Ok(at) => match after(facts.force, RETIREMENT_NANOS as nat) {
            Err(fault) => Err(fault),
            Ok(retire) => match after(retire, 1_000_000_000) {
                Err(fault) => Err(fault),
                Ok(delivery) => Ok(
                    RuntimeEvidence {
                        run_origin: match facts.run_origin {
                            Some(origin) => origin,
                            None => plan.attempt_origin,
                        },
                        attempt_origin: plan.attempt_origin,
                        work_expires: plan.work_expiry,
                        startup_expires: plan.startup_expiry,
                        release: facts.release,
                        target_pid: facts.target_pid,
                        terminal_observed: facts.terminal,
                        force_requested: None,
                        force_expires: facts.force,
                        retirement_expires: retire,
                        delivery_expires: delivery,
                        retirement: if facts.complete && facts.release != ReleaseEvidence::Unknown
                            && at <= retire {
                            RetirementEvidence::Complete { at }
                        } else {
                            RetirementEvidence::Unconfirmed { last_owner: facts.owner }
                        },
                    },
                ),
            },
        },
    }
}

/// The evidence of an attempt; `retired` is what the clock says now.
pub fn runtime(plan: Plan, facts: RuntimeFacts, retired: Result<u64, Fault>) -> (r: Result<
    RuntimeEvidence,
    Error,
>)
    ensures
        match runtime_of(plan, facts, retired) {
            Ok(evidence) => r == Ok::<RuntimeEvidence, Error>(evidence),
            Err(fault) => r matches Err(error) && error@ == clock_failed(fault),
        },
{
    let at: u64 = match retired {
        Ok(at) => at,
        Err(fault) => {
            return Err(clock_failure(fault));
        },
    };
    let retire: u64 = match crate::macos_deadline::add(
        facts.force,
        Duration::from_nanos(RETIREMENT_NANOS),
    ) {
        Ok(retire) => retire,
        Err(fault) => {
            return Err(clock_failure(fault));
        },
    };
    let delivery: u64 = match crate::macos_deadline::add(retire, Duration::from_secs(1)) {
        Ok(delivery) => delivery,
        Err(fault) => {
            return Err(clock_failure(fault));
        },
    };
    let run_origin: u64 = match facts.run_origin {
        Some(origin) => origin,
        None => plan.attempt_origin,
    };
    let complete = facts.complete && facts.release != ReleaseEvidence::Unknown && at <= retire;
    Ok(
        RuntimeEvidence {
            run_origin,
            attempt_origin: plan.attempt_origin,
            work_expires: plan.work_expiry,
            startup_expires: plan.startup_expiry,
            release: facts.release,
            target_pid: facts.target_pid,
            terminal_observed: facts.terminal,
            force_requested: None,
            force_expires: facts.force,
            retirement_expires: retire,
            delivery_expires: delivery,
            retirement: if complete {
                RetirementEvidence::Complete { at }
            } else {
                RetirementEvidence::Unconfirmed { last_owner: facts.owner }
            },
        },
    )
}

/// An attempt whose release is not known, or that was retired too late, is never said
/// to be retired completely.
pub proof fn late_retirement_is_unconfirmed(
    plan: Plan,
    facts: RuntimeFacts,
    at: u64,
)
    ensures
        runtime_of(plan, facts, Ok(at)) matches Ok(evidence) ==> {
            &&& evidence.retirement is Complete ==> at <= evidence.retirement_expires
                && facts.release != ReleaseEvidence::Unknown && facts.complete
            &&& evidence.force_expires <= evidence.retirement_expires < evidence.delivery_expires
        },
{
}

/// Adds the guardian's receipt of having forced the workload: zero stands for none. It
/// counts as seeing the end, where it came before that.
pub fn force_received(evidence: RuntimeEvidence, receipt: u64) -> (r: RuntimeEvidence)
    ensures
        r == if receipt == 0 {
            RuntimeEvidence { force_requested: None, ..evidence }
        } else {
            RuntimeEvidence {
                force_requested: Some(receipt),
                terminal_observed: least(evidence.terminal_observed as nat, receipt as nat) as u64,
                ..evidence
            }
        },
{
    let mut out = evidence;
    if receipt == 0 {
        out.force_requested = None;
    } else {
        out.force_requested = Some(receipt);
        if receipt < out.terminal_observed {
            out.terminal_observed = receipt;
        }
    }
    out
}

/// How a failed launch ends an attempt that is not an error.
#[derive(Clone, Copy, Debug, PartialEq, Eq, Structural)]
pub enum StartupEnd {
    Expired(Deadline),
    Interrupted(i32),
}

/// What is known of a launch that was called off.
#[derive(Debug)]
pub struct Cancellation {
    pub observed: Option<u64>,
    pub force: Option<u64>,
}

/// Whether a failed launch failed because the time was over: at the instant at which it
/// was called off, or now where it was not.
pub open spec fn startup_expired(
    policy: Policy,
    work_expiry: Option<u64>,
    kind: FaultKind,
    interruption: Option<i32>,
    observed: Option<u64>,
    clock: Result<u64, Fault>,
) -> bool {
    &&& policy.deadline is Some
    &&& kind == FaultKind::TimedOut || interruption is Some
    &&& work_expiry matches Some(expiry) && match observed {
        Some(at) => at >= expiry,
        None => clock matches Ok(tick) && tick >= expiry,
    }
}

/// How a failed launch ends the attempt: by its deadline, by a signal, or, with `None`,
/// as an error.
pub fn startup_end(
    policy: &Policy,
    work_expiry: Option<u64>,
    kind: FaultKind,
    interruption: Option<i32>,
    observed: Option<u64>,
    clock: &Result<u64, Fault>,
) -> (r: Option<StartupEnd>)
    ensures
        r == if startup_expired(*policy, work_expiry, kind, interruption, observed, *clock) {
            Some(StartupEnd::Expired(policy.deadline->0))
        } else {
            match interruption {
                Some(signal) => Some(StartupEnd::Interrupted(signal)),
                None => None,
            }
        },
{
    if let Some(deadline) = policy.deadline {
        if kind == FaultKind::TimedOut || interruption.is_some() {
            if let Some(expiry) = work_expiry {
                let passed = match observed {
                    Some(at) => at >= expiry,
                    None => match clock {
                        Ok(tick) => *tick >= expiry,
                        Err(_) => false,
                    },
                };
                if passed {
                    return Some(StartupEnd::Expired(deadline));
                }
            }
        }
    }
    match interruption {
        Some(signal) => Some(StartupEnd::Interrupted(signal)),
        None => None,
    }
}

/// The name of what is done in a step of a launch.
pub open spec fn operation_named(operation: StartupOperation) -> &'static str {
    match operation {
        StartupOperation::SpawnGuardian => "SpawnGuardian",
        StartupOperation::ReadGuardianReadiness => "ReadGuardianReadiness",
        StartupOperation::SpawnLauncher => "SpawnLauncher",
        StartupOperation::ReleaseTarget => "ReleaseTarget",
        StartupOperation::ConfirmTargetExec => "ConfirmTargetExec",
        StartupOperation::ReapGuardian => "ReapGuardian",
    }
}

fn operation_name(operation: StartupOperation) -> (r: &'static str)
    ensures
        r == operation_named(operation),
{
    match operation {
        StartupOperation::SpawnGuardian => "SpawnGuardian",
        StartupOperation::ReadGuardianReadiness => "ReadGuardianReadiness",
        StartupOperation::SpawnLauncher => "SpawnLauncher",
        StartupOperation::ReleaseTarget => "ReleaseTarget",
        StartupOperation::ConfirmTargetExec => "ConfirmTargetExec",
        StartupOperation::ReapGuardian => "ReapGuardian",
    }
}

/// Whether everything that a failed launch had created is gone.
pub open spec fn is_cleared(startup: StartupError) -> bool {
    startup.cleanup == StartupCleanup::Complete && startup.release != ReleaseEvidence::Unknown
}

/// The findings of clearing up after a failed launch.
pub open spec fn startup_findings(
    startup: StartupError,
    errors: Seq<CleanupErrorRecord>,
) -> bool {
    if !is_cleared(startup) && startup.cleanup_errors@.len() == 0 {
        errors =~= seq![
            CleanupErrorRecord {
                operation: "startup-cleanup",
                message: Text::Fixed(
                    "native startup cleanup remains an owned, unverified obligation",
                ),
            },
        ]
    } else {
        &&& errors.len() == startup.cleanup_errors@.len()
        &&& forall|i: int|
            0 <= i < errors.len() ==> {
                &&& (#[trigger] errors[i]).operation == operation_named(
                    startup.cleanup_errors@[i].operation,
                )
                &&& errors[i].message.chars() == startup.cleanup_errors@[i].detail@
            }
    }
}

/// What a failed launch gave back.
pub fn startup_cleanup(startup: &StartupError) -> (r: CleanupSummary)
    ensures
        r@ == (CleanupView {
            direct_child_reaped: is_cleared(*startup),
            workload_empty: if is_cleared(*startup) {
                Some(true)
            } else {
                None
            },
            errors: r.errors@,
            ..no_cleanup()
        }),
        startup_findings(*startup, r.errors@),
{
    let complete = startup.cleanup == StartupCleanup::Complete && startup.release
        != ReleaseEvidence::Unknown;
    let mut errors: Vec<CleanupErrorRecord> = Vec::new();
    let mut i: usize = 0;
    while i < startup.cleanup_errors.len()
        invariant
            i <= startup.cleanup_errors.len(),
            errors.len() == i,
            forall|k: int|
                0 <= k < i ==> {
                    &&& (#[trigger] errors@[k]).operation == operation_named(
                        startup.cleanup_errors@[k].operation,
                    )
                    &&& errors@[k].message.chars() == startup.cleanup_errors@[k].detail@
                },
        decreases startup.cleanup_errors.len() - i,
    {
        let error = &startup.cleanup_errors[i];
        errors.push(
            CleanupErrorRecord {
                operation: operation_name(error.operation),
                message: Text::Given(error.detail.clone()),
            },
        );
        i += 1;
    }
    if !complete && errors.len() == 0 {
        errors.push(
            CleanupErrorRecord {
                operation: "startup-cleanup",
                message: Text::Fixed(
                    "native startup cleanup remains an owned, unverified obligation",
                ),
            },
        );
    }
    CleanupSummary {
        graceful_attempted: false,
        force_attempted: false,
        direct_child_reaped: complete,
        workload_empty: if complete {
            Some(true)
        } else {
            None
        },
        errors,
    }
}

/// What is known of how a target was launched behind its gate.
#[derive(Clone, Copy, Debug, PartialEq, Eq, Structural)]
pub struct StandardLaunchFacts {
    pub containment_before_authorization: bool,
    pub guardian_spawn_completed: bool,
    pub authorization_released: bool,
}

impl StandardLaunchFacts {
    /// A target that waits behind its gate.
    pub fn gated_target() -> (r: StandardLaunchFacts)
        ensures
            r == (StandardLaunchFacts {
                containment_before_authorization: false,
                guardian_spawn_completed: false,
                authorization_released: false,
            }),
    {
        StandardLaunchFacts {
            containment_before_authorization: false,
            guardian_spawn_completed: false,
            authorization_released: false,
        }
    }

    /// A target that was released with its guardian standing.
    pub fn released_target() -> (r: StandardLaunchFacts)
        ensures
            r == (StandardLaunchFacts {
                containment_before_authorization: true,
                guardian_spawn_completed: true,
                authorization_released: true,
            }),
    {
        StandardLaunchFacts {
            containment_before_authorization: true,
            guardian_spawn_completed: true,
            authorization_released: true,
        }
    }

    /// What a failed launch had reached.
    pub fn of_startup(startup: &StartupError) -> (r: StandardLaunchFacts)
        ensures
            r == (StandardLaunchFacts {
                containment_before_authorization: startup.release_sent,
                guardian_spawn_completed: startup.guardian_ready,
                authorization_released: startup.release_sent,
            }),
    {
        let mut facts = StandardLaunchFacts::gated_target();
        if startup.guardian_ready {
            facts.guardian_spawn_completed = true;
        }
        if startup.release_sent {
            facts.containment_before_authorization = true;
            facts.authorization_released = true;
        }
        facts
    }
}

/// The evidence of an attempt whose target waited behind a gate: nothing is claimed of
/// the launch but what was seen of it.
pub fn gated_execution_evidence(
    backend: &BackendInfo,
    launch: StandardLaunchFacts,
    facts: BackendCleanupFacts,
) -> (r: (LaunchEvidence, RestartSafetyProof, BoundaryMechanismEvidence))
    ensures
        r.0@ == (LaunchView {
            mechanism: backend.boundary_support.standard.mechanism@,
            target_released: launch.authorization_released,
            containment_verified_before_authorization: launch.containment_before_authorization,
            guardian_started_before_authorization: launch.guardian_spawn_completed,
            target_spawn_error_reported: false,
            boundary_requested: BoundaryRequirement::Standard,
            boundary_effective: BoundaryClass::Standard,
            boundary_assignment_verified: false,
            boundary_reconfiguration_denied: false,
            inherited_resources_restricted: false,
            frontend_loss_cleanup_authority_verified: false,
        }),
        r.1@ == facts.as_proof(),
        r.2@ == (MechanismView::Standard { backend: backend.name@ }),
{
    let (evidence, safety, boundary) = crate::backend::standard_execution_evidence(backend, facts);
    let mut evidence = evidence;
    evidence.target_released = launch.authorization_released;
    evidence.containment_verified_before_authorization = launch.containment_before_authorization;
    evidence.guardian_started_before_authorization = launch.guardian_spawn_completed;
    (evidence, safety, boundary)
}

/// The backend of an attempt: its metric is the policy's.
pub fn attempt_backend(policy: &Policy) -> (r: BackendInfo)
    ensures
        is_macos_info(r, metric_named(policy.metric)),
{
    let mut backend = info();
    backend.metric = metric_name(policy.metric);
    backend
}

/// The evidence of a deadline that passed before a target ran.
pub open spec fn startup_deadline_evidence(
    policy: Policy,
    context: AttemptContext,
    plan: Plan,
    deadline: Deadline,
    tick: u64,
) -> DeadlineEvidence {
    let active = match plan.work_expiry {
        Some(expiry) => floor_sub(expiry as nat, plan.attempt_origin as nat),
        None => 0,
    };
    DeadlineEvidence {
        duration_ms: capped_millis(deadline.duration@),
        scope: deadline.scope,
        origin: "pre-spawn",
        expires_ms: capped_millis(context.supervision_offset@ + active),
        observed_ms: capped_millis(
            context.supervision_offset@ + floor_sub(tick as nat, plan.attempt_origin as nat),
        ),
        grace_ms: capped_millis(policy.limit_grace@),
        grace_used_ms: 0,
        graceful_action: None,
        forced_action: None,
    }
}

/// The evidence of a deadline that passed before a target ran; `tick` is what the clock
/// says now.
pub fn startup_evidence(
    policy: &Policy,
    context: AttemptContext,
    plan: Plan,
    deadline: Deadline,
    tick: u64,
) -> (r: DeadlineEvidence)
    ensures
        r == startup_deadline_evidence(*policy, context, plan, deadline, tick),
{
    let origin: u64 = plan.attempt_origin;
    let active: u64 = match plan.work_expiry {
        Some(expiry) => if expiry >= origin {
            expiry - origin
        } else {
            0
        },
        None => 0,
    };
    let seen: u64 = if tick >= origin {
        tick - origin
    } else {
        0
    };
    let offset = context.supervision_offset;
    DeadlineEvidence {
        duration_ms: deadline.duration.millis(),
        scope: deadline.scope,
        origin: "pre-spawn",
        expires_ms: offset.sum_millis(Duration::from_nanos(active)),
        observed_ms: offset.sum_millis(Duration::from_nanos(seen)),
        grace_ms: policy.limit_grace.millis(),
        grace_used_ms: 0,
        graceful_action: None,
        forced_action: None,
    }
}

/// The outcome of a launch that was called off by its deadline or by a signal. `accepted`
/// is what was made of the evidence of its deadline; where it was refused, that is the
/// error.
pub fn startup_outcome(
    policy: &Policy,
    context: AttemptContext,
    plan: Plan,
    end: StartupEnd,
    cleanup: CleanupSummary,
    clock: Result<u64, Fault>,
    accepted: Result<(), String>,
) -> (r: Result<RunOutcome, Error>)
    ensures
        match end {
            StartupEnd::Interrupted(signal) => r matches Ok(outcome) && outcome@
                == (OutcomeView::Interrupted { signal, child_after_termination: None })
                && outcome.cleaned() == cleanup@,
            StartupEnd::Expired(deadline) => match (clock, accepted) {
                (Err(fault), _) => r matches Err(error) && error@ == clock_failed(fault),
                (Ok(_), Err(text)) => r matches Err(error) && error@ == bare_error(
                    ErrorCategory::Monitor,
                    "MCLIMIT-DEADLINE-EVIDENCE",
                    text@,
                ),
                (Ok(tick), Ok(_)) => r matches Ok(outcome) && outcome@ == (
                OutcomeView::DeadlineExceeded {
                    deadline: startup_deadline_evidence(*policy, context, plan, deadline, tick),
                    child_after_termination: None,
                    peak: None,
                }) && outcome.cleaned() == cleanup@,
            },
        },
{
    match end {
        StartupEnd::Interrupted(signal) => Ok(
            RunOutcome::Interrupted { signal, child_after_termination: None, cleanup },
        ),
        StartupEnd::Expired(deadline) => {
            let tick: u64 = match clock {
                Ok(tick) => tick,
                Err(fault) => {
                    return Err(clock_failure(fault));
                },
            };
            if let Err(text) = accepted {
                return Err(
                    Error::new(ErrorCategory::Monitor, "MCLIMIT-DEADLINE-EVIDENCE", text),
                );
            }
            Ok(
                RunOutcome::DeadlineExceeded {
                    deadline: startup_evidence(policy, context, plan, deadline, tick),
                    child_after_termination: None,
                    peak: None,
                    cleanup,
                },
            )
        },
    }
}

/// The messages of several findings.
pub open spec fn messages_of(records: Seq<CleanupErrorRecord>) -> Seq<Seq<char>> {
    Seq::new(records.len(), |i: int| records[i].message.chars())
}

/// What a failed launch gave back, as far as it bears on a restart.
pub fn startup_facts(cleanup: &CleanupSummary) -> (r: BackendCleanupFacts)
    ensures
        r.direct_child_reaped == cleanup.direct_child_reaped,
        r.workload_empty == cleanup.workload_empty,
        r.helpers_reaped == cleanup.direct_child_reaped,
        !r.containment_removed,
        r.containment_incapable_of_live_members == cleanup.direct_child_reaped,
        texts(r.errors@) == messages_of(cleanup.errors@),
{
    let mut errors: Vec<String> = Vec::new();
    let mut i: usize = 0;
    while i < cleanup.errors.len()
        invariant
            i <= cleanup.errors.len(),
            errors.len() == i,
            forall|k: int| 0 <= k < i ==> (#[trigger] errors@[k])@ == cleanup.errors@[k].message.chars(),
        decreases cleanup.errors.len() - i,
    {
        errors.push(cleanup.errors[i].message.render());
        i += 1;
    }
    assert(texts(errors@) =~= messages_of(cleanup.errors@));
    BackendCleanupFacts {
        direct_child_reaped: cleanup.direct_child_reaped,
        workload_empty: cleanup.workload_empty,
        helpers_reaped: cleanup.direct_child_reaped,
        containment_removed: false,
        containment_incapable_of_live_members: cleanup.direct_child_reaped,
        errors,
    }
}

/// What a launch that was called off is told in evidence.
pub open spec fn startup_runtime_facts(
    startup: StartupError,
    plan: Plan,
    run_origin: Option<u64>,
    expired: bool,
    cancelled: Cancellation,
    tick: u64,
) -> RuntimeFacts {
    RuntimeFacts {
        run_origin,
        release: startup.release,
        target_pid: nonzero(startup.launcher_pid),
        terminal: match cancelled.observed {
            Some(at) => at,
            None => tick,
        },
        force: if expired {
            match plan.work_expiry {
                Some(expiry) => expiry,
                None => plan.startup_expiry,
            }
        } else {
            match cancelled.force {
                Some(at) => at,
                None => tick,
            }
        },
        complete: is_cleared(startup),
        owner: None,
    }
}

/// A process number that can be one.
pub open spec fn nonzero(pid: Option<u32>) -> Option<u32> {
    match pid {
        Some(pid) => if pid == 0 {
            None
        } else {
            Some(pid)
        },
        None => None,
    }
}

fn only_nonzero(pid: Option<u32>) -> (r: Option<u32>)
    ensures
        r == nonzero(pid),
{
    match pid {
        Some(pid) => if pid == 0 {
            None
        } else {
            Some(pid)
        },
        None => None,
    }
}

/// What a launch that was called off is told in evidence; `tick` is what the clock says
/// now.
pub fn cancelled_runtime(
    startup: &StartupError,
    plan: Plan,
    run_origin: Option<u64>,
    expired: bool,
    cancelled: &Cancellation,
    tick: u64,
) -> (r: RuntimeFacts)
    ensures
        r == startup_runtime_facts(*startup, plan, run_origin, expired, *cancelled, tick),
{
    let terminal: u64 = match cancelled.observed {
        Some(at) => at,
        None => tick,
    };
    let force: u64 = if expired {
        match plan.work_expiry {
            Some(expiry) => expiry,
            None => plan.startup_expiry,
        }
    } else {
        match cancelled.force {
            Some(at) => at,
            None => tick,
        }
    };
    RuntimeFacts {
        run_origin,
        release: startup.release,
        target_pid: only_nonzero(startup.launcher_pid),
        terminal,
        force,
        complete: startup.cleanup == StartupCleanup::Complete && startup.release
            != ReleaseEvidence::Unknown,
        owner: None,
    }
}

/// How long after `tick` a target was released, where it is known to have been.
pub open spec fn authorized_after(release: ReleaseEvidence, tick: u64) -> Option<nat> {
    match release {
        ReleaseEvidence::Issued { at, .. } => Some(floor_sub(at as nat, tick as nat)),
        _ => None,
    }
}

/// How long after `tick` a target was released, where it is known to have been.
pub fn authorization_offset(release: ReleaseEvidence, tick: u64) -> (r: Option<Duration>)
    ensures
        match authorized_after(release, tick) {
            Some(span) => r matches Some(offset) && offset@ == span,
            None => r is None,
        },
{
    match release {
        ReleaseEvidence::Issued { at, .. } => {
            let span: u64 = if at >= tick {
                at - tick
            } else {
                0
            };
            Some(Duration::from_nanos(span))
        },
        _ => None,
    }
}

/// What a failed launch with nothing left gave back.
pub open spec fn all_gone() -> SafetyView {
    SafetyView {
        direct_child_reaped: true,
        workload_empty: Some(true),
        helpers_reaped: true,
        containment_removed: false,
        containment_incapable_of_live_members: true,
        sealed_boundary_retired: false,
        errors: Seq::empty(),
    }
}

/// The words of a failed launch.
pub open spec fn startup_words(startup: StartupError, helper: Seq<char>, cwd: Seq<char>) -> Seq<char> {
    "native launch phase="@ + phase_named(startup.phase)@ + " helper="@ + helper + " cwd="@ + cwd
        + ": "@ + startup.error.text.chars()
}

/// Why a target could not be run at all.
pub open spec fn spawn_failure(kind: FaultKind) -> Option<InitialSpawnFailure> {
    match kind {
        FaultKind::NotFound => Some(InitialSpawnFailure::NotFound),
        FaultKind::PermissionDenied => Some(InitialSpawnFailure::NotExecutable),
        _ => None,
    }
}

/// The error of a failed launch.
pub open spec fn startup_failed(
    startup: StartupError,
    helper: Seq<char>,
    cwd: Seq<char>,
    offset: Option<Duration>,
    runtime: Option<RuntimeEvidence>,
) -> ErrorView {
    let target = startup.phase == StartupPhase::TargetExec;
    let alive = startup.cleanup != StartupCleanup::Complete;
    ErrorView {
        os_code: startup.error.os_code,
        launch_phase: if target {
            Some("target-spawn-failed")
        } else {
            Some(phase_named(startup.phase))
        },
        target_pid: startup.launcher_pid,
        target_released: startup.release_sent,
        authorization_offset: offset,
        workload_may_be_alive: alive,
        cgroup_verified_before_release: startup.release_sent,
        guardian_ready_before_release: startup.guardian_ready,
        initial_spawn_failure: if target {
            spawn_failure(startup.error.kind)
        } else {
            None
        },
        restart_safety: if alive {
            None
        } else {
            Some(all_gone())
        },
        runtime,
        ..bare_error(
            if target {
                ErrorCategory::Spawn
            } else {
                ErrorCategory::Setup
            },
            if !target {
                "MCSETUP-GUARDIAN"
            } else {
                match startup.error.kind {
                    FaultKind::NotFound => "MCSPAWN-NOT-FOUND",
                    FaultKind::PermissionDenied => "MCSPAWN-NOT-EXECUTABLE",
                    _ => "MCSPAWN-FAILED",
                }
            },
            startup_words(startup, helper, cwd),
        )
    }
}

/// The error of a failed launch. `helper` and `cwd` are how the helper's path and the
/// working directory are shown; `tick` is what the clock said when the attempt began, and
/// `runtime` what is known of its instants.
pub fn startup_error(
    startup: &StartupError,
    helper: &str,
    cwd: &str,
    tick: u64,
    runtime: Option<RuntimeEvidence>,
) -> (r: Error)
    ensures
        r@ == startup_failed(*startup, helper@, cwd@, r.authorization_offset, runtime),
        match authorized_after(startup.release, tick) {
            Some(span) => r.authorization_offset matches Some(offset) && offset@ == span,
            None => r.authorization_offset is None,
        },
{
    let mut message = "native launch phase=".to_owned();
    message.append(phase_name(startup.phase));
    message.append(" helper=");
    message.append(helper);
    message.append(" cwd=");
    message.append(cwd);
    message.append(": ");
    let detail = startup.error.text.render();
    message.append(detail.as_str());
    let mut failure = Error::new(ErrorCategory::Setup, "MCSETUP-GUARDIAN", message);
    failure.os_code = startup.error.os_code;
    failure.launch_phase = Some(phase_name(startup.phase));
    failure.target_released = startup.release_sent;
    failure.target_pid = startup.launcher_pid;
    failure.guardian_ready_before_release = startup.guardian_ready;
    failure.workload_may_be_alive = startup.cleanup != StartupCleanup::Complete;
    failure.authorization_offset = authorization_offset(startup.release, tick);
    failure.cgroup_verified_before_release = startup.release_sent;
    failure.runtime = runtime;
    if startup.cleanup == StartupCleanup::Complete {
        let proof = RestartSafetyProof {
            direct_child_reaped: true,
            workload_empty: Some(true),
            helpers_reaped: true,
            containment_removed: false,
            containment_incapable_of_live_members: true,
            sealed_boundary_retired: false,
            errors: Vec::new(),
        };
        assert(texts(proof.errors@) =~= Seq::<Seq<char>>::empty());
        failure.restart_safety = Some(proof);
    }
    if startup.phase == StartupPhase::TargetExec {
        failure.category = ErrorCategory::Spawn;
        failure.launch_phase = Some("target-spawn-failed");
        match startup.error.kind {
            FaultKind::NotFound => {
                failure.code = "MCSPAWN-NOT-FOUND";
                failure.initial_spawn_failure = Some(InitialSpawnFailure::NotFound);
            },
            FaultKind::PermissionDenied => {
                failure.code = "MCSPAWN-NOT-EXECUTABLE";
                failure.initial_spawn_failure = Some(InitialSpawnFailure::NotExecutable);
            },
            _ => {
                failure.code = "MCSPAWN-FAILED";
                failure.initial_spawn_failure = None;
            },
        }
    }
    failure
}

/// What an error of a failed launch is told in evidence.
pub fn failed_runtime(startup: &StartupError, run_origin: Option<u64>, tick: u64) -> (r:
    RuntimeFacts)
    ensures
        r == (RuntimeFacts {
            run_origin,
            release: startup.release,
            target_pid: nonzero(startup.launcher_pid),
            terminal: tick,
            force: tick,
            complete: startup.cleanup == StartupCleanup::Complete,
            owner: None,
        }),
{
    RuntimeFacts {
        run_origin,
        release: startup.release,
        target_pid: only_nonzero(startup.launcher_pid),
        terminal: tick,
        force: tick,
        complete: startup.cleanup == StartupCleanup::Complete,
        owner: None,
    }
}

/// The error of a child whose number no native call could take.
pub fn child_number(pid: u32) -> (r: Result<i32, Error>)
    ensures
        if pid <= i32::MAX {
            r == Ok::<i32, Error>(pid as i32)
        } else {
            r matches Err(error) && error@ == bare_error(
                ErrorCategory::Spawn,
                "MCSPAWN-PID-RANGE",
                "child PID cannot be represented by native process APIs"@,
            )
        },
{
    if pid <= i32::MAX as u32 {
        Ok(pid as i32)
    } else {
        Err(
            Error::fixed(
                ErrorCategory::Spawn,
                "MCSPAWN-PID-RANGE",
                "child PID cannot be represented by native process APIs",
            ),
        )
    }
}

/// Whether the child and the guardian may be let go of: only once the workload is known
/// to be empty and no inspection is owed.
pub open spec fn lets_go(cleaned: CleanupView, settled: bool) -> bool {
    cleaned.workload_empty == Some(true) && settled
}

/// Whether the child and the guardian may be let go of.
pub fn may_let_go(cleanup: &CleanupSummary, settled: bool) -> (r: bool)
    ensures
        r == lets_go(cleanup@, settled),
{
    match cleanup.workload_empty {
        Some(empty) => empty && settled,
        None => false,
    }
}

/// The findings of closing an attempt.
pub open spec fn closing_findings(
    go: bool,
    settled: bool,
    reaped: Result<(), Fault>,
    disarmed: Result<(), Fault>,
) -> Seq<CleanupErrorRecord> {
    (if !go {
        seq![
            CleanupErrorRecord {
                operation: "reap-direct-child",
                message: Text::Fixed(
                    "root identity retained until guardian emergency cleanup retires",
                ),
            },
        ]
    } else {
        match reaped {
            Err(fault) => seq![cleanup_record("reap-direct-child", fault)],
            Ok(_) => Seq::empty(),
        }
    }) + (if settled {
        Seq::empty()
    } else {
        seq![
            CleanupErrorRecord {
                operation: "retire-frontend-inspection",
                message: Text::Fixed(
                    "a queued or active native inspection remains runtime-owned",
                ),
            },
        ]
    }) + (if !go {
        seq![
            CleanupErrorRecord {
                operation: "guardian-disarm",
                message: Text::Fixed(
                    "workload cleanup is incomplete; guardian retains emergency cleanup responsibility",
                ),
            },
        ]
    } else {
        match disarmed {
            Err(fault) => seq![cleanup_record("guardian-disarm", fault)],
            Ok(_) => Seq::empty(),
        }
    })
}

/// Closes an attempt: adds what became of the child, of inspections that are owed and of
/// the guardian, and reads off what was given back. `reaped` and `disarmed` count only
/// where the two may be let go of.
pub fn close_attempt(
    outcome: &mut RunOutcome,
    settled: bool,
    reaped: Result<(), Fault>,
    disarmed: Result<(), Fault>,
) -> (r: BackendCleanupFacts)
    ensures
        ({
            let before = old(outcome).cleaned();
            let go = lets_go(before, settled);
            let now = final(outcome).cleaned();
            &&& final(outcome)@ == old(outcome)@
            &&& now == (CleanupView {
                direct_child_reaped: go && reaped is Ok,
                errors: before.errors + closing_findings(go, settled, reaped, disarmed),
                ..before
            })
            &&& r.direct_child_reaped == (go && reaped is Ok)
            &&& r.workload_empty == before.workload_empty
            &&& r.helpers_reaped == (go && disarmed is Ok)
            &&& !r.containment_removed
            &&& r.containment_incapable_of_live_members == (before.workload_empty == Some(true))
            &&& texts(r.errors@) == lines_of(now.errors)
        }),
{
    let ghost before = outcome.cleaned();
    let go = may_let_go(outcome.cleanup(), settled);
    outcome.set_reaped(go && reaped.is_ok());
    if !go {
        outcome.add_error(
            CleanupErrorRecord {
                operation: "reap-direct-child",
                message: Text::Fixed(
                    "root identity retained until guardian emergency cleanup retires",
                ),
            },
        );
    } else if let Err(fault) = reaped {
        outcome.add_error(cleanup_error("reap-direct-child", fault));
    }
    if !settled {
        outcome.add_error(
            CleanupErrorRecord {
                operation: "retire-frontend-inspection",
                message: Text::Fixed(
                    "a queued or active native inspection remains runtime-owned",
                ),
            },
        );
    }
    let helpers_reaped = go && disarmed.is_ok();
    if !go {
        outcome.add_error(
            CleanupErrorRecord {
                operation: "guardian-disarm",
                message: Text::Fixed(
                    "workload cleanup is incomplete; guardian retains emergency cleanup responsibility",
                ),
            },
        );
    } else if let Err(fault) = disarmed {
        outcome.add_error(cleanup_error("guardian-disarm", fault));
    }
    assert(outcome.cleaned().errors =~= before.errors + closing_findings(
        go,
        settled,
        reaped,
        disarmed,
    ));
    let cleanup = outcome.cleanup();
    let inert = match cleanup.workload_empty {
        Some(empty) => empty,
        None => false,
    };
    BackendCleanupFacts {
        direct_child_reaped: cleanup.direct_child_reaped,
        workload_empty: cleanup.workload_empty,
        helpers_reaped,
        containment_removed: false,
        containment_incapable_of_live_members: inert,
        errors: render_all(&cleanup.errors),
    }
}

/// An attempt whose workload is not known to be empty never gives back its child or its
/// guardian, and says so.
pub proof fn nobody_is_let_go_early(
    cleaned: CleanupView,
    settled: bool,
    reaped: Result<(), Fault>,
    disarmed: Result<(), Fault>,
)
    requires
        cleaned.workload_empty != Some(true),
    ensures
        !lets_go(cleaned, settled),
        closing_findings(false, settled, reaped, disarmed).len() >= 2,
{
}

} // verus!
