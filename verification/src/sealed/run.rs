//! A sealed run on Linux: what the provider's answer to a launch comes to.

use vstd::prelude::*;
use vstd::string::*;

use crate::backend::{BackendInfo, Execution};
use crate::bytes::same_bytes;
use crate::evidence::{
    bare_error, BoundaryMechanismEvidence, BoundarySetupFailure, BoundarySetupPhase,
    ChildTermination, CredentialTransitionDisposition, DeadlineEvidence, Error, ErrorCategory,
    ErrorView, InitialSpawnFailure, LaunchEvidence, LaunchView, LimitEvidence, LinuxSealedEvidence,
    LinuxSealedFacts, LinuxSealedView, MechanismView, OutcomeView, ProviderRejectionEvidence,
    RejectionView, RestartSafetyProof, RunOutcome, SafetyView, SetupFailureView,
};
use crate::model::{no_cleanup, texts, CleanupSummary, CleanupView};
use crate::policy::{BoundaryClass, BoundaryRequirement, Policy};
use crate::sealed::frame::{FrameView, WireFrame};
use crate::sealed::launch::wrapped_millis;
use crate::sealed::probe::ProbeReceipt;
use crate::sealed::terminal::{
    parse_terminal, terminal_of, PolicyEnforcement, PolicyReading, TerminalExecFailureClass,
    TerminalExecStatus, TerminalFacts, TerminalReceipt,
};
use crate::text::{join2, join3, signed_decimal, signed_text};
use crate::time::Duration;

verus! {

/// How a sealed boundary is kept on Linux.
pub const LINUX_MECHANISM: &'static str = "linux-pid-namespace-cgroup-v2";

/// Why a launch came to no terminal receipt.
#[derive(Debug)]
pub enum LaunchError {
    Transport(String),
    Rejected(ProviderRejectionEvidence),
}

/// The failure of the transaction itself.
pub open spec fn transport(error: LaunchError, text: Seq<char>) -> bool {
    error matches LaunchError::Transport(detail) && detail@ == text
}

/// What was found beside a provider's answer to a launch: the refusal in it, how
/// the policy was enforced, the boot, and whether the terminal receipt is bound to
/// this very attempt.
#[derive(Debug)]
pub struct LaunchReading {
    pub rejection: Result<ProviderRejectionEvidence, String>,
    pub policy: PolicyReading,
    pub boot: Result<(), String>,
    pub bound: bool,
}

/// Whether a result is what a launch comes to.
pub open spec fn is_launch_result(
    r: Result<TerminalReceipt, LaunchError>,
    frame: FrameView,
    nonce: Seq<u8>,
    attempt: Seq<u8>,
    limit: nat,
    reading: LaunchReading,
) -> bool {
    if frame.nonce != nonce || frame.attempt != attempt {
        r matches Err(error) && transport(error, "provider terminal receipt identity mismatch"@)
    } else if frame.kind == 106 {
        match reading.rejection {
            Ok(rejection) => r == Err::<TerminalReceipt, LaunchError>(
                LaunchError::Rejected(rejection),
            ),
            Err(fault) => r matches Err(error) && transport(
                error,
                "invalid provider rejection: "@ + fault@,
            ),
        }
    } else if frame.kind != 105 {
        r matches Err(error) && transport(error, "provider omitted terminal receipt"@)
    } else {
        match terminal_of(frame.payload, limit, reading.policy) {
            Err(fault) => r matches Err(error) && transport(error, fault),
            Ok(view) => match reading.boot {
                Err(fault) => r matches Err(error) && transport(error, fault@),
                Ok(_) => if reading.bound {
                    r matches Ok(receipt) && receipt@ == view
                } else {
                    r matches Err(error) && transport(
                        error,
                        "terminal workload native attempt binding differs"@,
                    )
                },
            },
        }
    }
}

/// Takes a provider's answer to a launch.
pub fn launch(
    frame: WireFrame,
    nonce: &[u8],
    attempt: &[u8],
    limit: usize,
    reading: LaunchReading,
) -> (r: Result<TerminalReceipt, LaunchError>)
    ensures
        is_launch_result(r, frame@, nonce@, attempt@, limit as nat, reading),
{
    if !same_bytes(frame.nonce.as_slice(), nonce) || !same_bytes(
        frame.attempt.as_slice(),
        attempt,
    ) {
        return Err(
            LaunchError::Transport("provider terminal receipt identity mismatch".to_owned()),
        );
    }
    if frame.kind == 106 {
        return match reading.rejection {
            Ok(rejection) => Err(LaunchError::Rejected(rejection)),
            Err(fault) => Err(
                LaunchError::Transport(join2("invalid provider rejection: ", fault.as_str())),
            ),
        };
    }
    if frame.kind != 105 {
        return Err(LaunchError::Transport("provider omitted terminal receipt".to_owned()));
    }
    let receipt = match parse_terminal(frame.payload.as_slice(), limit, &reading.policy) {
        Ok(receipt) => receipt,
        Err(fault) => {
            return Err(LaunchError::Transport(fault));
        },
    };
    if let Err(fault) = reading.boot {
        return Err(LaunchError::Transport(fault));
    }
    if !reading.bound {
        return Err(
            LaunchError::Transport("terminal workload native attempt binding differs".to_owned()),
        );
    }
    Ok(receipt)
}

/// The name of a step of a boundary's setup.
pub open spec fn phase_named(phase: BoundarySetupPhase) -> &'static str {
    match phase {
        BoundarySetupPhase::RequestValidation => "request-validation",
        BoundarySetupPhase::ProviderConnection => "provider-connection",
        BoundarySetupPhase::ProviderIdentity => "provider-identity",
        BoundarySetupPhase::CallerEnvelopeCapture => "caller-envelope-capture",
        BoundarySetupPhase::LauncherServiceAuthentication => "launcher-service-authentication",
        BoundarySetupPhase::CallerMountNamespaceAdoption => "caller-mount-namespace-adoption",
        BoundarySetupPhase::CallerCapabilityEnvelope => "caller-capability-envelope",
        BoundarySetupPhase::CredentialTransitionPolicy => "credential-transition-policy",
        BoundarySetupPhase::BoundaryCreation => "boundary-creation",
        BoundarySetupPhase::GuardianStartup => "guardian-startup",
        BoundarySetupPhase::TargetCreation => "target-creation",
        BoundarySetupPhase::AssignmentVerification => "assignment-verification",
        BoundarySetupPhase::ResourceVerification => "resource-verification",
        BoundarySetupPhase::Authorization => "authorization",
        BoundarySetupPhase::Monitoring => "monitoring",
        BoundarySetupPhase::Retirement => "retirement",
    }
}

/// The name of a step of a boundary's setup.
pub fn boundary_phase_name(phase: BoundarySetupPhase) -> (r: &'static str)
    ensures
        r == phase_named(phase),
{
    match phase {
        BoundarySetupPhase::RequestValidation => "request-validation",
        BoundarySetupPhase::ProviderConnection => "provider-connection",
        BoundarySetupPhase::ProviderIdentity => "provider-identity",
        BoundarySetupPhase::CallerEnvelopeCapture => "caller-envelope-capture",
        BoundarySetupPhase::LauncherServiceAuthentication => "launcher-service-authentication",
        BoundarySetupPhase::CallerMountNamespaceAdoption => "caller-mount-namespace-adoption",
        BoundarySetupPhase::CallerCapabilityEnvelope => "caller-capability-envelope",
        BoundarySetupPhase::CredentialTransitionPolicy => "credential-transition-policy",
        BoundarySetupPhase::BoundaryCreation => "boundary-creation",
        BoundarySetupPhase::GuardianStartup => "guardian-startup",
        BoundarySetupPhase::TargetCreation => "target-creation",
        BoundarySetupPhase::AssignmentVerification => "assignment-verification",
        BoundarySetupPhase::ResourceVerification => "resource-verification",
        BoundarySetupPhase::Authorization => "authorization",
        BoundarySetupPhase::Monitoring => "monitoring",
        BoundarySetupPhase::Retirement => "retirement",
    }
}

/// Whether the boundary and its guardian stood before this step was reached.
pub open spec fn comes_after_verification(phase: BoundarySetupPhase) -> bool {
    phase == BoundarySetupPhase::ResourceVerification || phase == BoundarySetupPhase::Authorization
        || phase == BoundarySetupPhase::Monitoring || phase == BoundarySetupPhase::Retirement
}

/// The failed setup that a refusal tells of.
pub open spec fn refused_setup(rejection: RejectionView) -> SetupFailureView {
    SetupFailureView {
        requested: BoundaryRequirement::Sealed,
        mechanism: Some(LINUX_MECHANISM@),
        phase: rejection.phase,
        target_created: rejection.target_created,
        target_released: rejection.target_released,
        cleanup_attempted: rejection.cleanup_attempted,
        restart_safety: rejection.restart_safety,
    }
}

/// The error that a refusal stands for. A target that was created and is not
/// known to be gone may live on.
pub open spec fn rejection_error_of(rejection: RejectionView) -> ErrorView {
    ErrorView {
        os_code: rejection.os_code,
        launch_phase: Some(phase_named(rejection.phase)),
        workload_may_be_alive: rejection.target_created && rejection.restart_safety.workload_empty
            != Some(true),
        cgroup_verified_before_release: comes_after_verification(rejection.phase),
        guardian_ready_before_release: comes_after_verification(rejection.phase),
        restart_safety: Some(rejection.restart_safety),
        provider_rejection: Some(rejection),
        boundary_setup_failure: Some(refused_setup(rejection)),
        ..bare_error(
            ErrorCategory::Setup,
            "MCSEALED-PROVIDER-REJECTION",
            "provider rejected launch ["@ + rejection.code + "]: "@ + rejection.detail,
        )
    }
}

/// The error that a failed launch stands for. `foreign` says that the refusal
/// tells of the admission of another request.
pub open spec fn launch_error_of(error: LaunchError, foreign: bool) -> ErrorView {
    match error {
        LaunchError::Transport(detail) => bare_error(
            ErrorCategory::Setup,
            "MCSEALED-PROVIDER-TRANSACTION",
            detail@,
        ),
        LaunchError::Rejected(rejection) => if foreign {
            bare_error(
                ErrorCategory::Monitor,
                "MCSEALED-WORKLOAD-REJECTION",
                "provider admission rejection belongs to another request"@,
            )
        } else {
            rejection_error_of(rejection@)
        },
    }
}

/// The error that a failed launch stands for.
pub fn launch_error(error: LaunchError, foreign: bool) -> (r: Error)
    ensures
        r@ == launch_error_of(error, foreign),
{
    let rejection = match error {
        LaunchError::Transport(detail) => {
            return Error::new(ErrorCategory::Setup, "MCSEALED-PROVIDER-TRANSACTION", detail);
        },
        LaunchError::Rejected(rejection) => rejection,
    };
    if foreign {
        return Error::fixed(
            ErrorCategory::Monitor,
            "MCSEALED-WORKLOAD-REJECTION",
            "provider admission rejection belongs to another request",
        );
    }
    let mut message = join3("provider rejected launch [", rejection.code.as_str(), "]: ");
    message.append(rejection.detail.as_str());
    let verified = match rejection.phase {
        BoundarySetupPhase::ResourceVerification => true,
        BoundarySetupPhase::Authorization => true,
        BoundarySetupPhase::Monitoring => true,
        BoundarySetupPhase::Retirement => true,
        _ => false,
    };
    let mut error = Error::new(ErrorCategory::Setup, "MCSEALED-PROVIDER-REJECTION", message);
    error.os_code = rejection.os_code;
    error.launch_phase = Some(boundary_phase_name(rejection.phase));
    error.workload_may_be_alive = rejection.target_created && match rejection.restart_safety.workload_empty {
        Some(empty) => !empty,
        None => true,
    };
    error.cgroup_verified_before_release = verified;
    error.guardian_ready_before_release = verified;
    error.restart_safety = Some(rejection.restart_safety.duplicate());
    error.boundary_setup_failure = Some(
        BoundarySetupFailure {
            requested: BoundaryRequirement::Sealed,
            mechanism: Some(LINUX_MECHANISM.to_owned()),
            phase: rejection.phase,
            target_created: rejection.target_created,
            target_released: rejection.target_released,
            cleanup_attempted: rejection.cleanup_attempted,
            restart_safety: rejection.restart_safety.duplicate(),
        },
    );
    error.provider_rejection = Some(rejection);
    error
}

/// What a terminal receipt says was given back.
pub open spec fn terminal_safety(facts: TerminalFacts) -> SafetyView {
    SafetyView {
        direct_child_reaped: facts.init_reaped,
        workload_empty: Some(facts.cgroup_empty),
        helpers_reaped: facts.init_reaped && facts.guardian_reaped,
        containment_removed: facts.boundary_retired,
        containment_incapable_of_live_members: facts.cgroup_empty,
        sealed_boundary_retired: facts.boundary_retired,
        errors: Seq::empty(),
    }
}

/// What a terminal receipt says was given back.
pub fn terminal_restart_safety(terminal: &TerminalReceipt) -> (r: RestartSafetyProof)
    ensures
        r@ == terminal_safety(terminal.facts),
{
    let facts = terminal.facts;
    let proof_of = RestartSafetyProof {
        direct_child_reaped: facts.init_reaped,
        workload_empty: Some(facts.cgroup_empty),
        helpers_reaped: facts.init_reaped && facts.guardian_reaped,
        containment_removed: facts.boundary_retired,
        containment_incapable_of_live_members: facts.cgroup_empty,
        sealed_boundary_retired: facts.boundary_retired,
        errors: Vec::new(),
    };
    assert(texts(proof_of.errors@) =~= Seq::empty());
    proof_of
}

/// Whether a receipt says that the boundary was verified before the release.
pub open spec fn verified_before_release(facts: TerminalFacts) -> bool {
    &&& facts.assignment_verified
    &&& facts.namespaces_verified
    &&& facts.target_initial_credentials_verified
    &&& facts.initial_provider_capabilities_absent
    &&& facts.target_no_new_privs_matched
    &&& facts.target_capability_bounding_set_matched
    &&& facts.target_mount_context_derived_from_caller
    &&& facts.descriptors_verified
    &&& facts.writable_ancestor_cgroup_denied
}

fn is_verified_before_release(facts: TerminalFacts) -> (r: bool)
    ensures
        r == verified_before_release(facts),
{
    facts.assignment_verified && facts.namespaces_verified
        && facts.target_initial_credentials_verified && facts.initial_provider_capabilities_absent
        && facts.target_no_new_privs_matched && facts.target_capability_bounding_set_matched
        && facts.target_mount_context_derived_from_caller && facts.descriptors_verified
        && facts.writable_ancestor_cgroup_denied
}

/// What a receipt says was cleaned up.
pub open spec fn terminal_cleanup(facts: TerminalFacts) -> CleanupView {
    CleanupView {
        direct_child_reaped: facts.init_reaped,
        workload_empty: Some(facts.cgroup_empty),
        ..no_cleanup()
    }
}

fn cleanup_of(facts: TerminalFacts) -> (r: CleanupSummary)
    ensures
        r@ == terminal_cleanup(facts),
{
    let mut cleanup = CleanupSummary::default();
    cleanup.direct_child_reaped = facts.init_reaped;
    cleanup.workload_empty = Some(facts.cgroup_empty);
    cleanup
}

/// The failed setup of a target that had been released.
pub open spec fn released_setup(phase: BoundarySetupPhase, safety: SafetyView) -> SetupFailureView {
    SetupFailureView {
        requested: BoundaryRequirement::Sealed,
        mechanism: Some(LINUX_MECHANISM@),
        phase,
        target_created: true,
        target_released: true,
        cleanup_attempted: true,
        restart_safety: safety,
    }
}

fn released_failure(phase: BoundarySetupPhase, safety: RestartSafetyProof) -> (r:
    BoundarySetupFailure)
    ensures
        r@ == released_setup(phase, safety@),
{
    BoundarySetupFailure {
        requested: BoundaryRequirement::Sealed,
        mechanism: Some(LINUX_MECHANISM.to_owned()),
        phase,
        target_created: true,
        target_released: true,
        cleanup_attempted: true,
        restart_safety: safety,
    }
}

/// An error about a target that had been released; `safe` says whether what was
/// given back is enough for a restart within a sealed boundary.
pub open spec fn released_error(base: ErrorView, terminal: TerminalReceipt, safe: bool) -> ErrorView {
    ErrorView {
        target_pid: Some(terminal.target_pid),
        target_released: true,
        cgroup_verified_before_release: verified_before_release(terminal.facts),
        guardian_ready_before_release: terminal.facts.guardian_ready,
        workload_may_be_alive: !safe,
        restart_safety: Some(terminal_safety(terminal.facts)),
        cleanup: terminal_cleanup(terminal.facts),
        ..base
    }
}

/// An offset of whole milliseconds.
pub open spec fn is_offset(o: Option<Duration>, millis: u64) -> bool {
    o matches Some(span) && span@ == millis * 1_000_000
}

/// Whether an error is the one of a revoked grant.
pub open spec fn is_revocation_error(error: ErrorView, terminal: TerminalReceipt, safe: bool) -> bool {
    &&& is_offset(error.authorization_offset, terminal.authorization_offset_millis)
    &&& error == released_error(
        ErrorView {
            launch_phase: Some("policy-revoked"),
            authorization_offset: error.authorization_offset,
            policy_enforcement: Some(terminal.policy_enforcement),
            boundary_setup_failure: Some(
                released_setup(BoundarySetupPhase::Retirement, terminal_safety(terminal.facts)),
            ),
            ..bare_error(
                ErrorCategory::Monitor,
                "MCSEALED-POLICY-DRIFT",
                "active grant revoked; workload retired without an observed child exit status"@,
            )
        },
        terminal,
        safe,
    )
}

/// The error of a revoked grant: the workload is gone, and no exit status was
/// seen.
pub fn terminal_revocation_error(terminal: &TerminalReceipt, safe: bool) -> (r: Error)
    ensures
        is_revocation_error(r@, *terminal, safe),
{
    let mut error = Error::fixed(
        ErrorCategory::Monitor,
        "MCSEALED-POLICY-DRIFT",
        "active grant revoked; workload retired without an observed child exit status",
    );
    error.boundary_setup_failure = Some(
        released_failure(BoundarySetupPhase::Retirement, terminal_restart_safety(terminal)),
    );
    error.target_pid = Some(terminal.target_pid);
    error.launch_phase = Some("policy-revoked");
    error.target_released = true;
    error.authorization_offset = Some(Duration::from_millis(terminal.authorization_offset_millis));
    error.policy_enforcement = Some(terminal.policy_enforcement);
    error.cgroup_verified_before_release = is_verified_before_release(terminal.facts);
    error.guardian_ready_before_release = terminal.facts.guardian_ready;
    error.workload_may_be_alive = !safe;
    error.cleanup = cleanup_of(terminal.facts);
    error.restart_safety = Some(terminal_restart_safety(terminal));
    error
}

/// The code of a target that could not be executed.
pub open spec fn spawn_code(class: TerminalExecFailureClass) -> &'static str {
    match class {
        TerminalExecFailureClass::NotFound => "MCSPAWN-NOT-FOUND",
        TerminalExecFailureClass::NotExecutable => "MCSPAWN-NOT-EXECUTABLE",
        TerminalExecFailureClass::Other => "MCSPAWN-FAILED",
    }
}

/// Why a target that could not be executed never started.
pub open spec fn spawn_failure(class: TerminalExecFailureClass) -> Option<InitialSpawnFailure> {
    match class {
        TerminalExecFailureClass::NotFound => Some(InitialSpawnFailure::NotFound),
        TerminalExecFailureClass::NotExecutable => Some(InitialSpawnFailure::NotExecutable),
        TerminalExecFailureClass::Other => None,
    }
}

/// What is said of a target that could not be executed.
pub open spec fn spawn_detail(os_code: int) -> Seq<char> {
    "sealed provider reported a verified target exec failure with native OS code "@
        + signed_decimal(os_code)
}

/// The refusal that a failed exec stands for.
pub open spec fn spawn_rejection(
    terminal: TerminalReceipt,
    class: TerminalExecFailureClass,
    os_code: i32,
) -> RejectionView {
    RejectionView {
        schema_version: 1,
        code: spawn_code(class)@,
        phase: BoundarySetupPhase::TargetCreation,
        detail: spawn_detail(os_code as int),
        os_code: Some(os_code),
        target_created: true,
        target_released: true,
        cleanup_attempted: true,
        restart_safety: terminal_safety(terminal.facts),
        terminal_ack_required: false,
    }
}

/// Whether an error is the one of a target that could not be executed.
pub open spec fn is_spawn_error(
    error: ErrorView,
    terminal: TerminalReceipt,
    class: TerminalExecFailureClass,
    os_code: i32,
    safe: bool,
) -> bool {
    &&& is_offset(error.authorization_offset, terminal.authorization_offset_millis)
    &&& error == released_error(
        ErrorView {
            os_code: Some(os_code),
            launch_phase: Some("target-spawn-failed"),
            authorization_offset: error.authorization_offset,
            initial_spawn_failure: spawn_failure(class),
            provider_rejection: Some(spawn_rejection(terminal, class, os_code)),
            boundary_setup_failure: Some(
                released_setup(BoundarySetupPhase::TargetCreation, terminal_safety(terminal.facts)),
            ),
            ..bare_error(ErrorCategory::Spawn, spawn_code(class), spawn_detail(os_code as int))
        },
        terminal,
        safe,
    )
}

/// The error of a target that could not be executed.
pub fn terminal_spawn_error(
    terminal: &TerminalReceipt,
    class: TerminalExecFailureClass,
    os_code: i32,
    safe: bool,
) -> (r: Error)
    ensures
        is_spawn_error(r@, *terminal, class, os_code, safe),
{
    let (code, failure) = match class {
        TerminalExecFailureClass::NotFound => (
            "MCSPAWN-NOT-FOUND",
            Some(InitialSpawnFailure::NotFound),
        ),
        TerminalExecFailureClass::NotExecutable => (
            "MCSPAWN-NOT-EXECUTABLE",
            Some(InitialSpawnFailure::NotExecutable),
        ),
        TerminalExecFailureClass::Other => ("MCSPAWN-FAILED", None),
    };
    let number = signed_text(os_code);
    let detail = join2(
        "sealed provider reported a verified target exec failure with native OS code ",
        number.as_str(),
    );
    let rejection = ProviderRejectionEvidence {
        schema_version: 1,
        code: code.to_owned(),
        phase: BoundarySetupPhase::TargetCreation,
        detail: detail.clone(),
        os_code: Some(os_code),
        target_created: true,
        target_released: true,
        cleanup_attempted: true,
        restart_safety: terminal_restart_safety(terminal),
        terminal_ack_required: false,
    };
    let mut error = Error::new(ErrorCategory::Spawn, code, detail);
    error.provider_rejection = Some(rejection);
    error.boundary_setup_failure = Some(
        released_failure(BoundarySetupPhase::TargetCreation, terminal_restart_safety(terminal)),
    );
    error.initial_spawn_failure = failure;
    error.os_code = Some(os_code);
    error.target_pid = Some(terminal.target_pid);
    error.launch_phase = Some("target-spawn-failed");
    error.target_released = true;
    error.authorization_offset = Some(Duration::from_millis(terminal.authorization_offset_millis));
    error.cgroup_verified_before_release = is_verified_before_release(terminal.facts);
    error.guardian_ready_before_release = terminal.facts.guardian_ready;
    error.workload_may_be_alive = !safe;
    error.cleanup = cleanup_of(terminal.facts);
    error.restart_safety = Some(terminal_restart_safety(terminal));
    error
}

/// What was found beside a terminal receipt: whether it is bound to the request,
/// whether the installed runtime is the one that it names, whether what was given
/// back is enough for a restart, and whether evidence of a passed deadline is
/// consistent.
#[derive(Debug)]
pub struct RunChecks {
    pub request_matches: bool,
    pub runtime: Result<(), String>,
    pub safe: bool,
    pub deadline_accepted: bool,
}

/// The evidence of the provider's own deadline.
pub open spec fn provider_deadline(policy: Policy) -> DeadlineEvidence {
    let millis = wrapped_millis(policy.deadline->0.duration@);
    DeadlineEvidence {
        duration_ms: millis,
        scope: policy.deadline->0.scope,
        origin: "provider-absolute-deadline",
        expires_ms: millis,
        observed_ms: millis,
        grace_ms: wrapped_millis(policy.limit_grace@),
        grace_used_ms: 0,
        graceful_action: None,
        forced_action: Some("cgroup.kill"),
    }
}

/// How a sealed attempt ended, or why that cannot be said.
pub open spec fn sealed_outcome(
    policy: Policy,
    status: i32,
    facts: TerminalFacts,
    deadline_accepted: bool,
) -> Result<OutcomeView, ErrorView> {
    let child = ChildTermination::ExitCode { code: status };
    if facts.memory_limit_exceeded {
        match policy.memory {
            None => Err(
                bare_error(
                    ErrorCategory::Monitor,
                    "MCSEALED-MEMORY-EVIDENCE",
                    "provider reported a memory limit without a configured limit"@,
                ),
            ),
            Some(limit) => Ok(
                OutcomeView::LimitExceeded {
                    limit,
                    observed: None,
                    peak: None,
                    backend: LINUX_MECHANISM@,
                    metric: "memory.current"@,
                    detail: "memory.events oom_kill incremented"@,
                    child_after_termination: Some(child),
                },
            ),
        }
    } else if facts.deadline_exceeded {
        if policy.deadline is None {
            Err(
                bare_error(
                    ErrorCategory::Monitor,
                    "MCSEALED-DEADLINE-EVIDENCE",
                    "provider reported a deadline without a configured deadline"@,
                ),
            )
        } else if !deadline_accepted {
            Err(
                bare_error(
                    ErrorCategory::Monitor,
                    "MCSEALED-DEADLINE-EVIDENCE",
                    "provider deadline evidence was inconsistent"@,
                ),
            )
        } else {
            Ok(
                OutcomeView::DeadlineExceeded {
                    deadline: provider_deadline(policy),
                    child_after_termination: Some(child),
                    peak: None,
                },
            )
        }
    } else {
        Ok(OutcomeView::Exited { child, peak: None })
    }
}

fn outcome_of(policy: &Policy, status: i32, facts: TerminalFacts, deadline_accepted: bool) -> (r:
    Result<RunOutcome, Error>)
    ensures
        match r {
            Ok(outcome) => sealed_outcome(*policy, status, facts, deadline_accepted) == Ok::<
                OutcomeView,
                ErrorView,
            >(outcome@) && outcome.cleaned() == terminal_cleanup(facts),
            Err(error) => sealed_outcome(*policy, status, facts, deadline_accepted) == Err::<
                OutcomeView,
                ErrorView,
            >(error@),
        },
{
    let child = ChildTermination::ExitCode { code: status };
    let cleanup = cleanup_of(facts);
    if facts.memory_limit_exceeded {
        return match policy.memory {
            None => Err(
                Error::fixed(
                    ErrorCategory::Monitor,
                    "MCSEALED-MEMORY-EVIDENCE",
                    "provider reported a memory limit without a configured limit",
                ),
            ),
            Some(limit) => Ok(
                RunOutcome::LimitExceeded {
                    limit,
                    observed: None,
                    peak: None,
                    evidence: LimitEvidence {
                        backend: LINUX_MECHANISM.to_owned(),
                        metric: "memory.current".to_owned(),
                        detail: "memory.events oom_kill incremented".to_owned(),
                    },
                    child_after_termination: Some(child),
                    cleanup,
                },
            ),
        };
    }
    if facts.deadline_exceeded {
        let configured = match policy.deadline {
            Some(configured) => configured,
            None => {
                return Err(
                    Error::fixed(
                        ErrorCategory::Monitor,
                        "MCSEALED-DEADLINE-EVIDENCE",
                        "provider reported a deadline without a configured deadline",
                    ),
                );
            },
        };
        if !deadline_accepted {
            return Err(
                Error::fixed(
                    ErrorCategory::Monitor,
                    "MCSEALED-DEADLINE-EVIDENCE",
                    "provider deadline evidence was inconsistent",
                ),
            );
        }
        let total: u128 = configured.duration.as_millis();
        let duration_ms: u64 = (total % 0x1_0000_0000_0000_0000) as u64;
        let grace: u128 = policy.limit_grace.as_millis();
        let grace_ms: u64 = (grace % 0x1_0000_0000_0000_0000) as u64;
        return Ok(
            RunOutcome::DeadlineExceeded {
                deadline: DeadlineEvidence {
                    duration_ms,
                    scope: configured.scope,
                    origin: "provider-absolute-deadline",
                    expires_ms: duration_ms,
                    observed_ms: duration_ms,
                    grace_ms,
                    grace_used_ms: 0,
                    graceful_action: None,
                    forced_action: Some("cgroup.kill"),
                },
                child_after_termination: Some(child),
                peak: None,
                cleanup,
            },
        );
    }
    Ok(RunOutcome::Exited { child, peak: None, cleanup })
}

/// What a terminal receipt verifies of a sealed attempt.
pub open spec fn sealed_facts(facts: TerminalFacts) -> LinuxSealedFacts {
    LinuxSealedFacts {
        cgroup_created: true,
        cgroup_owned_by_provider: true,
        memory_configuration_verified: true,
        init_created_into_cgroup: facts.assignment_verified,
        pid_namespace_created: facts.namespaces_verified,
        mount_namespace_created: facts.namespaces_verified,
        cgroup_namespace_created: facts.namespaces_verified,
        target_pidfd_verified: true,
        target_cgroup_membership_verified: facts.assignment_verified,
        target_pid_namespace_verified: facts.namespaces_verified,
        target_initial_credentials_verified: facts.target_initial_credentials_verified,
        initial_provider_capabilities_absent: facts.initial_provider_capabilities_absent,
        caller_no_new_privs_reproduced: facts.target_no_new_privs_matched,
        caller_capability_bounding_set_reproduced: facts.target_capability_bounding_set_matched,
        caller_mount_context_reproduced: facts.target_mount_context_derived_from_caller,
        boundary_independent_of_credentials: facts.boundary_independent_of_credentials,
        inherited_descriptors_verified: facts.descriptors_verified,
        writable_ancestor_cgroup_denied: facts.writable_ancestor_cgroup_denied,
        parent_namespace_handles_denied: facts.parent_namespace_handles_denied,
        recursive_provider_request_denied: facts.recursive_provider_request_denied,
        guardian_ready: facts.guardian_ready,
        target_released: true,
        cgroup_kill_invoked: facts.cgroup_kill,
        cgroup_empty_verified: facts.cgroup_empty,
        namespace_init_reaped: facts.init_reaped,
        guardian_reaped: facts.guardian_reaped,
        cgroup_removed: facts.boundary_retired,
        credential_transition_disposition: CredentialTransitionDisposition::PreserveCallerEnvelope,
    }
}

fn facts_of_attempt(facts: TerminalFacts) -> (r: LinuxSealedFacts)
    ensures
        r == sealed_facts(facts),
{
    LinuxSealedFacts {
        cgroup_created: true,
        cgroup_owned_by_provider: true,
        memory_configuration_verified: true,
        init_created_into_cgroup: facts.assignment_verified,
        pid_namespace_created: facts.namespaces_verified,
        mount_namespace_created: facts.namespaces_verified,
        cgroup_namespace_created: facts.namespaces_verified,
        target_pidfd_verified: true,
        target_cgroup_membership_verified: facts.assignment_verified,
        target_pid_namespace_verified: facts.namespaces_verified,
        target_initial_credentials_verified: facts.target_initial_credentials_verified,
        initial_provider_capabilities_absent: facts.initial_provider_capabilities_absent,
        caller_no_new_privs_reproduced: facts.target_no_new_privs_matched,
        caller_capability_bounding_set_reproduced: facts.target_capability_bounding_set_matched,
        caller_mount_context_reproduced: facts.target_mount_context_derived_from_caller,
        boundary_independent_of_credentials: facts.boundary_independent_of_credentials,
        inherited_descriptors_verified: facts.descriptors_verified,
        writable_ancestor_cgroup_denied: facts.writable_ancestor_cgroup_denied,
        parent_namespace_handles_denied: facts.parent_namespace_handles_denied,
        recursive_provider_request_denied: facts.recursive_provider_request_denied,
        guardian_ready: facts.guardian_ready,
        target_released: true,
        cgroup_kill_invoked: facts.cgroup_kill,
        cgroup_empty_verified: facts.cgroup_empty,
        namespace_init_reaped: facts.init_reaped,
        guardian_reaped: facts.guardian_reaped,
        cgroup_removed: facts.boundary_retired,
        credential_transition_disposition: CredentialTransitionDisposition::PreserveCallerEnvelope,
    }
}

/// How a terminal receipt says the target was launched.
pub open spec fn sealed_launch(terminal: TerminalReceipt) -> LaunchView {
    LaunchView {
        mechanism: LINUX_MECHANISM@,
        target_released: true,
        containment_verified_before_authorization: terminal.facts.assignment_verified
            && terminal.facts.namespaces_verified,
        guardian_started_before_authorization: terminal.facts.guardian_ready,
        target_spawn_error_reported: terminal.spawn_error_reported,
        boundary_requested: BoundaryRequirement::Sealed,
        boundary_effective: BoundaryClass::Sealed,
        boundary_assignment_verified: terminal.facts.assignment_verified,
        boundary_reconfiguration_denied: terminal.facts.writable_ancestor_cgroup_denied,
        inherited_resources_restricted: terminal.facts.descriptors_verified,
        frontend_loss_cleanup_authority_verified: terminal.facts.frontend_loss_authority,
    }
}

/// Who kept the attempt, and what was verified of it.
pub open spec fn sealed_detail(qualification: ProbeReceipt, facts: TerminalFacts) -> MechanismView {
    MechanismView::LinuxPidNamespaceCgroupV2(
        LinuxSealedView {
            schema_version: 2,
            provider_identity: qualification.provider_identity@,
            control_service_identity: qualification.control_service_identity@,
            launcher_service_identity: qualification.launcher_service_identity@,
            cgroup_identity_digest: qualification.receipt_digest@,
            facts: sealed_facts(facts),
        },
    )
}

/// The execution that a terminal receipt stands for.
pub open spec fn is_sealed_execution(
    execution: Execution,
    terminal: TerminalReceipt,
    qualification: ProbeReceipt,
    backend: BackendInfo,
    elapsed: Duration,
) -> bool {
    &&& execution.policy_enforcement == Some(terminal.policy_enforcement)
    &&& execution.outcome.cleaned() == terminal_cleanup(terminal.facts)
    &&& execution.backend == backend
    &&& execution.child_pid == if terminal.target_pid == 0 {
        None::<u32>
    } else {
        Some(terminal.target_pid)
    }
    &&& execution.duration == elapsed
    &&& is_offset(execution.authorization_offset, terminal.authorization_offset_millis)
    &&& execution.launch@ == sealed_launch(terminal)
    &&& execution.restart_safety@ == terminal_safety(terminal.facts)
    &&& execution.boundary_detail@ == sealed_detail(qualification, terminal.facts)
    &&& execution.runtime is None
}

/// The first thing about a terminal receipt that keeps it from being taken.
pub open spec fn binding_fault(terminal: TerminalReceipt, checks: RunChecks) -> Option<ErrorView> {
    if !checks.request_matches {
        Some(
            bare_error(
                ErrorCategory::Monitor,
                "MCSEALED-WORKLOAD-TERMINAL",
                "terminal workload binding differs from the exact request"@,
            ),
        )
    } else if terminal.policy_enforcement is Authorized && checks.runtime is Err {
        Some(
            bare_error(
                ErrorCategory::Monitor,
                "MCSEALED-WORKLOAD-TERMINAL",
                checks.runtime->Err_0@,
            ),
        )
    } else {
        None
    }
}

/// Whether a result is what a sealed run comes to.
pub open spec fn is_run_result(
    r: Result<Execution, Error>,
    policy: Policy,
    qualification: ProbeReceipt,
    terminal: TerminalReceipt,
    checks: RunChecks,
    backend: BackendInfo,
    elapsed: Duration,
) -> bool {
    if binding_fault(terminal, checks) is Some {
        r matches Err(error) && error@ == binding_fault(terminal, checks)->0
    } else if terminal.policy_revoked {
        r matches Err(error) && is_revocation_error(error@, terminal, checks.safe)
    } else {
        match terminal.exec_status {
            TerminalExecStatus::Failed { class, os_code } => r matches Err(error) && is_spawn_error(
                error@,
                terminal,
                class,
                os_code,
                checks.safe,
            ),
            TerminalExecStatus::Succeeded => match sealed_outcome(
                policy,
                terminal.status->0,
                terminal.facts,
                checks.deadline_accepted,
            ) {
                Err(view) => r matches Err(error) && error@ == view,
                Ok(outcome) => r matches Ok(execution) && execution.outcome@ == outcome
                    && is_sealed_execution(execution, terminal, qualification, backend, elapsed),
            },
        }
    }
}

/// What a sealed run comes to once the provider's terminal receipt is in.
pub fn run(
    policy: &Policy,
    qualification: &ProbeReceipt,
    terminal: &TerminalReceipt,
    checks: RunChecks,
    backend: BackendInfo,
    elapsed: Duration,
) -> (r: Result<Execution, Error>)
    requires
        !terminal.policy_revoked ==> terminal.status is Some,
    ensures
        is_run_result(r, *policy, *qualification, *terminal, checks, backend, elapsed),
{
    if !checks.request_matches {
        return Err(
            Error::fixed(
                ErrorCategory::Monitor,
                "MCSEALED-WORKLOAD-TERMINAL",
                "terminal workload binding differs from the exact request",
            ),
        );
    }
    match terminal.policy_enforcement {
        PolicyEnforcement::Authorized { .. } => match checks.runtime {
            Err(detail) => {
                return Err(
                    Error::new(ErrorCategory::Monitor, "MCSEALED-WORKLOAD-TERMINAL", detail),
                );
            },
            Ok(_) => {},
        },
        PolicyEnforcement::Other => {},
    }
    if terminal.policy_revoked {
        return Err(terminal_revocation_error(terminal, checks.safe));
    }
    match terminal.exec_status {
        TerminalExecStatus::Failed { class, os_code } => {
            return Err(terminal_spawn_error(terminal, class, os_code, checks.safe));
        },
        TerminalExecStatus::Succeeded => {},
    }
    let status: i32 = match terminal.status {
        Some(status) => status,
        None => 0,
    };
    let outcome = match outcome_of(policy, status, terminal.facts, checks.deadline_accepted) {
        Ok(outcome) => outcome,
        Err(error) => {
            return Err(error);
        },
    };
    let evidence = LinuxSealedEvidence {
        schema_version: 2,
        provider_identity: qualification.provider_identity.clone(),
        control_service_identity: qualification.control_service_identity.clone(),
        launcher_service_identity: qualification.launcher_service_identity.clone(),
        cgroup_identity_digest: qualification.receipt_digest.clone(),
        facts: facts_of_attempt(terminal.facts),
    };
    let child_pid: Option<u32> = if terminal.target_pid == 0 {
        None
    } else {
        Some(terminal.target_pid)
    };
    Ok(
        Execution {
            policy_enforcement: Some(terminal.policy_enforcement),
            outcome,
            backend,
            child_pid,
            duration: elapsed,
            authorization_offset: Some(
                Duration::from_millis(terminal.authorization_offset_millis),
            ),
            launch: LaunchEvidence {
                mechanism: LINUX_MECHANISM.to_owned(),
                target_released: true,
                containment_verified_before_authorization: terminal.facts.assignment_verified
                    && terminal.facts.namespaces_verified,
                guardian_started_before_authorization: terminal.facts.guardian_ready,
                target_spawn_error_reported: terminal.spawn_error_reported,
                boundary_requested: BoundaryRequirement::Sealed,
                boundary_effective: BoundaryClass::Sealed,
                boundary_assignment_verified: terminal.facts.assignment_verified,
                boundary_reconfiguration_denied: terminal.facts.writable_ancestor_cgroup_denied,
                inherited_resources_restricted: terminal.facts.descriptors_verified,
                frontend_loss_cleanup_authority_verified: terminal.facts.frontend_loss_authority,
            },
            restart_safety: terminal_restart_safety(terminal),
            boundary_detail: BoundaryMechanismEvidence::LinuxPidNamespaceCgroupV2(evidence),
            runtime: None,
        },
    )
}

/// The error of a provider that could not be qualified.
pub fn qualification_error(detail: String) -> (r: Error)
    ensures
        r@ == bare_error(ErrorCategory::Setup, "MCSEALED-PROVIDER-QUALIFICATION", detail@),
{
    Error::new(ErrorCategory::Setup, "MCSEALED-PROVIDER-QUALIFICATION", detail)
}

/// A refusal never claims that the target was released or authorized: whatever it
/// says of a target is in the failed setup that it is reported with.
pub proof fn rejections_claim_no_authorization(rejection: RejectionView)
    ensures
        rejection_error_of(rejection).authorization_offset is None,
        rejection_error_of(rejection).boundary_setup_failure == Some(refused_setup(rejection)),
        rejection_error_of(rejection).workload_may_be_alive ==> rejection.target_created,
{
}

/// A receipt that is refused for its binding yields no execution, however the
/// attempt ended.
pub proof fn unbound_receipts_yield_nothing(
    r: Result<Execution, Error>,
    policy: Policy,
    qualification: ProbeReceipt,
    terminal: TerminalReceipt,
    checks: RunChecks,
    backend: BackendInfo,
    elapsed: Duration,
)
    requires
        is_run_result(r, policy, qualification, terminal, checks, backend, elapsed),
        !checks.request_matches,
    ensures
        r is Err,
        r->Err_0@.code == "MCSEALED-WORKLOAD-TERMINAL",
{
}

} // verus!
