//! Evidence of an attempt: how it was launched, how it ended, what was given
//! back, and the error that stands in place of an outcome.

use vstd::prelude::*;
use vstd::string::*;

use crate::macos_attempt::RuntimeEvidence;
use crate::model::{texts, CleanupErrorRecord, CleanupSummary, CleanupView, Fault, no_cleanup};
use crate::policy::{BoundaryClass, BoundaryRequirement, DeadlineScope};
use crate::sealed::terminal::PolicyEnforcement;
use crate::time::Duration;

verus! {

/// The kinds of error.
#[derive(Clone, Copy, Debug, PartialEq, Eq, Structural)]
pub enum ErrorCategory {
    Usage,
    Unsupported,
    Setup,
    Spawn,
    Monitor,
    Wait,
}

impl ErrorCategory {
    /// The category's name in lower case.
    pub open spec fn named(self) -> &'static str {
        match self {
            ErrorCategory::Usage => "usage",
            ErrorCategory::Unsupported => "unsupported",
            ErrorCategory::Setup => "setup",
            ErrorCategory::Spawn => "spawn",
            ErrorCategory::Monitor => "monitor",
            ErrorCategory::Wait => "wait",
        }
    }

    /// The category's name in lower case.
    pub fn name(self) -> (r: &'static str)
        ensures
            r == self.named(),
    {
        match self {
            ErrorCategory::Usage => "usage",
            ErrorCategory::Unsupported => "unsupported",
            ErrorCategory::Setup => "setup",
            ErrorCategory::Spawn => "spawn",
            ErrorCategory::Monitor => "monitor",
            ErrorCategory::Wait => "wait",
        }
    }
}

/// Why a command could not be started at all.
#[derive(Clone, Copy, Debug, PartialEq, Eq, Structural)]
pub enum InitialSpawnFailure {
    NotFound,
    NotExecutable,
}

/// The steps in which a sealed boundary is set up.
#[derive(Clone, Copy, Debug, PartialEq, Eq, Structural)]
pub enum BoundarySetupPhase {
    RequestValidation,
    ProviderConnection,
    ProviderIdentity,
    CallerEnvelopeCapture,
    LauncherServiceAuthentication,
    CallerMountNamespaceAdoption,
    CallerCapabilityEnvelope,
    CredentialTransitionPolicy,
    BoundaryCreation,
    GuardianStartup,
    TargetCreation,
    AssignmentVerification,
    ResourceVerification,
    Authorization,
    Monitoring,
    Retirement,
}

/// How a direct child ended.
#[derive(Clone, Copy, Debug, PartialEq, Eq, Structural)]
pub enum ChildTermination {
    ExitCode { code: i32 },
    UnixSignal { signal: i32 },
    Unavailable,
}

/// What was given back, as far as it bears on whether a restart is safe.
#[derive(Debug)]
pub struct RestartSafetyProof {
    pub direct_child_reaped: bool,
    pub workload_empty: Option<bool>,
    pub helpers_reaped: bool,
    pub containment_removed: bool,
    pub containment_incapable_of_live_members: bool,
    pub sealed_boundary_retired: bool,
    pub errors: Vec<String>,
}

/// The facts of a `RestartSafetyProof`.
pub struct SafetyView {
    pub direct_child_reaped: bool,
    pub workload_empty: Option<bool>,
    pub helpers_reaped: bool,
    pub containment_removed: bool,
    pub containment_incapable_of_live_members: bool,
    pub sealed_boundary_retired: bool,
    pub errors: Seq<Seq<char>>,
}

impl View for RestartSafetyProof {
    type V = SafetyView;

    open spec fn view(&self) -> SafetyView {
        SafetyView {
            direct_child_reaped: self.direct_child_reaped,
            workload_empty: self.workload_empty,
            helpers_reaped: self.helpers_reaped,
            containment_removed: self.containment_removed,
            containment_incapable_of_live_members: self.containment_incapable_of_live_members,
            sealed_boundary_retired: self.sealed_boundary_retired,
            errors: texts(self.errors@),
        }
    }
}

/// Nothing is known to have been given back.
pub open spec fn nothing_proved() -> SafetyView {
    SafetyView {
        direct_child_reaped: false,
        workload_empty: None,
        helpers_reaped: false,
        containment_removed: false,
        containment_incapable_of_live_members: false,
        sealed_boundary_retired: false,
        errors: Seq::empty(),
    }
}

/// Copies a list of texts.
pub fn duplicate_texts(list: &Vec<String>) -> (r: Vec<String>)
    ensures
        texts(r@) == texts(list@),
{
    let mut out: Vec<String> = Vec::new();
    let mut i: usize = 0;
    while i < list.len()
        invariant
            i <= list.len(),
            out.len() == i,
            forall|k: int| 0 <= k < i ==> (#[trigger] out[k])@ == list[k]@,
        decreases list.len() - i,
    {
        out.push(list[i].clone());
        i += 1;
    }
    assert(texts(out@) =~= texts(list@));
    out
}

impl Default for RestartSafetyProof {
    fn default() -> (r: RestartSafetyProof)
        ensures
            r@ == nothing_proved(),
    {
        let r = RestartSafetyProof {
            direct_child_reaped: false,
            workload_empty: None,
            helpers_reaped: false,
            containment_removed: false,
            containment_incapable_of_live_members: false,
            sealed_boundary_retired: false,
            errors: Vec::new(),
        };
        assert(texts(r.errors@) =~= Seq::empty());
        r
    }
}

impl RestartSafetyProof {
    /// The same proof again.
    pub fn duplicate(&self) -> (r: RestartSafetyProof)
        ensures
            r@ == self@,
    {
        RestartSafetyProof {
            direct_child_reaped: self.direct_child_reaped,
            workload_empty: self.workload_empty,
            helpers_reaped: self.helpers_reaped,
            containment_removed: self.containment_removed,
            containment_incapable_of_live_members: self.containment_incapable_of_live_members,
            sealed_boundary_retired: self.sealed_boundary_retired,
            errors: duplicate_texts(&self.errors),
        }
    }
}

/// A sealed provider's refusal of a launch.
#[derive(Debug)]
pub struct ProviderRejectionEvidence {
    pub schema_version: u32,
    pub code: String,
    pub phase: BoundarySetupPhase,
    pub detail: String,
    pub os_code: Option<i32>,
    pub target_created: bool,
    pub target_released: bool,
    pub cleanup_attempted: bool,
    pub restart_safety: RestartSafetyProof,
    pub terminal_ack_required: bool,
}

/// The facts of a refusal.
pub struct RejectionView {
    pub schema_version: u32,
    pub code: Seq<char>,
    pub phase: BoundarySetupPhase,
    pub detail: Seq<char>,
    pub os_code: Option<i32>,
    pub target_created: bool,
    pub target_released: bool,
    pub cleanup_attempted: bool,
    pub restart_safety: SafetyView,
    pub terminal_ack_required: bool,
}

impl View for ProviderRejectionEvidence {
    type V = RejectionView;

    open spec fn view(&self) -> RejectionView {
        RejectionView {
            schema_version: self.schema_version,
            code: self.code@,
            phase: self.phase,
            detail: self.detail@,
            os_code: self.os_code,
            target_created: self.target_created,
            target_released: self.target_released,
            cleanup_attempted: self.cleanup_attempted,
            restart_safety: self.restart_safety@,
            terminal_ack_required: self.terminal_ack_required,
        }
    }
}

impl ProviderRejectionEvidence {
    /// The same refusal again.
    pub fn duplicate(&self) -> (r: ProviderRejectionEvidence)
        ensures
            r@ == self@,
    {
        ProviderRejectionEvidence {
            schema_version: self.schema_version,
            code: self.code.clone(),
            phase: self.phase,
            detail: self.detail.clone(),
            os_code: self.os_code,
            target_created: self.target_created,
            target_released: self.target_released,
            cleanup_attempted: self.cleanup_attempted,
            restart_safety: self.restart_safety.duplicate(),
            terminal_ack_required: self.terminal_ack_required,
        }
    }
}

/// How the setup of a boundary failed.
#[derive(Debug)]
pub struct BoundarySetupFailure {
    pub requested: BoundaryRequirement,
    pub mechanism: Option<String>,
    pub phase: BoundarySetupPhase,
    pub target_created: bool,
    pub target_released: bool,
    pub cleanup_attempted: bool,
    pub restart_safety: RestartSafetyProof,
}

/// The facts of a failed boundary setup.
pub struct SetupFailureView {
    pub requested: BoundaryRequirement,
    pub mechanism: Option<Seq<char>>,
    pub phase: BoundarySetupPhase,
    pub target_created: bool,
    pub target_released: bool,
    pub cleanup_attempted: bool,
    pub restart_safety: SafetyView,
}

/// The view of an optional text.
pub open spec fn opt_text(o: Option<String>) -> Option<Seq<char>> {
    match o {
        Some(text) => Some(text@),
        None => None,
    }
}

impl View for BoundarySetupFailure {
    type V = SetupFailureView;

    open spec fn view(&self) -> SetupFailureView {
        SetupFailureView {
            requested: self.requested,
            mechanism: opt_text(self.mechanism),
            phase: self.phase,
            target_created: self.target_created,
            target_released: self.target_released,
            cleanup_attempted: self.cleanup_attempted,
            restart_safety: self.restart_safety@,
        }
    }
}

/// Why an attempt, or a supervision, came to nothing.
#[derive(Debug)]
pub struct Error {
    pub category: ErrorCategory,
    pub code: &'static str,
    pub message: String,
    pub os_code: Option<i32>,
    pub launch_phase: Option<&'static str>,
    pub target_pid: Option<u32>,
    pub target_released: bool,
    pub authorization_offset: Option<Duration>,
    pub workload_may_be_alive: bool,
    pub cgroup_verified_before_release: bool,
    pub guardian_ready_before_release: bool,
    pub initial_spawn_failure: Option<InitialSpawnFailure>,
    pub policy_enforcement: Option<PolicyEnforcement>,
    pub restart_safety: Option<RestartSafetyProof>,
    pub provider_rejection: Option<ProviderRejectionEvidence>,
    pub boundary_setup_failure: Option<BoundarySetupFailure>,
    pub cleanup: CleanupSummary,
    /// The instants of an attempt that macOS watched; other platforms give none.
    pub runtime: Option<RuntimeEvidence>,
}

/// The facts of an error.
pub struct ErrorView {
    pub category: ErrorCategory,
    pub code: &'static str,
    pub message: Seq<char>,
    pub os_code: Option<i32>,
    pub launch_phase: Option<&'static str>,
    pub target_pid: Option<u32>,
    pub target_released: bool,
    pub authorization_offset: Option<Duration>,
    pub workload_may_be_alive: bool,
    pub cgroup_verified_before_release: bool,
    pub guardian_ready_before_release: bool,
    pub initial_spawn_failure: Option<InitialSpawnFailure>,
    pub policy_enforcement: Option<PolicyEnforcement>,
    pub restart_safety: Option<SafetyView>,
    pub provider_rejection: Option<RejectionView>,
    pub boundary_setup_failure: Option<SetupFailureView>,
    pub cleanup: CleanupView,
    pub runtime: Option<RuntimeEvidence>,
}

/// The view of an optional proof.
pub open spec fn opt_safety(o: Option<RestartSafetyProof>) -> Option<SafetyView> {
    match o {
        Some(proof) => Some(proof@),
        None => None,
    }
}

/// The view of an optional refusal.
pub open spec fn opt_rejection(o: Option<ProviderRejectionEvidence>) -> Option<RejectionView> {
    match o {
        Some(rejection) => Some(rejection@),
        None => None,
    }
}

/// The view of an optional setup failure.
pub open spec fn opt_failure(o: Option<BoundarySetupFailure>) -> Option<SetupFailureView> {
    match o {
        Some(failure) => Some(failure@),
        None => None,
    }
}

impl View for Error {
    type V = ErrorView;

    open spec fn view(&self) -> ErrorView {
        ErrorView {
            category: self.category,
            code: self.code,
            message: self.message@,
            os_code: self.os_code,
            launch_phase: self.launch_phase,
            target_pid: self.target_pid,
            target_released: self.target_released,
            authorization_offset: self.authorization_offset,
            workload_may_be_alive: self.workload_may_be_alive,
            cgroup_verified_before_release: self.cgroup_verified_before_release,
            guardian_ready_before_release: self.guardian_ready_before_release,
            initial_spawn_failure: self.initial_spawn_failure,
            policy_enforcement: self.policy_enforcement,
            restart_safety: opt_safety(self.restart_safety),
            provider_rejection: opt_rejection(self.provider_rejection),
            boundary_setup_failure: opt_failure(self.boundary_setup_failure),
            cleanup: self.cleanup@,
            runtime: self.runtime,
        }
    }
}

/// An error that claims nothing but its category, code and message.
pub open spec fn bare_error(
    category: ErrorCategory,
    code: &'static str,
    message: Seq<char>,
) -> ErrorView {
    ErrorView {
        category,
        code,
        message,
        os_code: None,
        launch_phase: None,
        target_pid: None,
        target_released: false,
        authorization_offset: None,
        workload_may_be_alive: false,
        cgroup_verified_before_release: false,
        guardian_ready_before_release: false,
        initial_spawn_failure: None,
        policy_enforcement: None,
        restart_safety: None,
        provider_rejection: None,
        boundary_setup_failure: None,
        cleanup: no_cleanup(),
        runtime: None,
    }
}

impl Error {
    /// An error that claims nothing but its category, code and message.
    pub fn new(category: ErrorCategory, code: &'static str, message: String) -> (r: Error)
        ensures
            r@ == bare_error(category, code, message@),
    {
        Error {
            category,
            code,
            message,
            os_code: None,
            launch_phase: None,
            target_pid: None,
            target_released: false,
            authorization_offset: None,
            workload_may_be_alive: false,
            cgroup_verified_before_release: false,
            guardian_ready_before_release: false,
            initial_spawn_failure: None,
            policy_enforcement: None,
            restart_safety: None,
            provider_rejection: None,
            boundary_setup_failure: None,
            cleanup: CleanupSummary::default(),
            runtime: None,
        }
    }

    /// An error with a fixed message.
    pub fn fixed(category: ErrorCategory, code: &'static str, message: &'static str) -> (r: Error)
        ensures
            r@ == bare_error(category, code, message@),
    {
        Error::new(category, code, message.to_owned())
    }

    /// An error with the message and the native number of a fault.
    pub fn of_fault(category: ErrorCategory, code: &'static str, fault: &Fault) -> (r: Error)
        ensures
            r@ == (ErrorView {
                os_code: fault.os_code,
                ..bare_error(category, code, fault.text.chars())
            }),
    {
        let mut error = Error::new(category, code, fault.text.render());
        error.os_code = fault.os_code;
        error
    }
}

/// Evidence that a deadline passed.
#[derive(Clone, Copy, Debug)]
pub struct DeadlineEvidence {
    pub duration_ms: u64,
    pub scope: DeadlineScope,
    pub origin: &'static str,
    pub expires_ms: u64,
    pub observed_ms: u64,
    pub grace_ms: u64,
    pub grace_used_ms: u64,
    pub graceful_action: Option<&'static str>,
    pub forced_action: Option<&'static str>,
}

/// The error of deadline evidence that was refused as contradictory.
pub open spec fn refused_evidence() -> ErrorView {
    bare_error(
        ErrorCategory::Monitor,
        "MCLIMIT-DEADLINE-EVIDENCE",
        "deadline evidence is inconsistent"@,
    )
}

/// The error of deadline evidence that was refused as contradictory.
pub fn refused_deadline_evidence() -> (r: Error)
    ensures
        r@ == refused_evidence(),
{
    Error::fixed(
        ErrorCategory::Monitor,
        "MCLIMIT-DEADLINE-EVIDENCE",
        "deadline evidence is inconsistent",
    )
}

/// How a target was launched.
#[derive(Debug)]
pub struct LaunchEvidence {
    pub mechanism: String,
    pub target_released: bool,
    pub containment_verified_before_authorization: bool,
    pub guardian_started_before_authorization: bool,
    pub target_spawn_error_reported: bool,
    pub boundary_requested: BoundaryRequirement,
    pub boundary_effective: BoundaryClass,
    pub boundary_assignment_verified: bool,
    pub boundary_reconfiguration_denied: bool,
    pub inherited_resources_restricted: bool,
    pub frontend_loss_cleanup_authority_verified: bool,
}

/// The facts of a launch.
pub struct LaunchView {
    pub mechanism: Seq<char>,
    pub target_released: bool,
    pub containment_verified_before_authorization: bool,
    pub guardian_started_before_authorization: bool,
    pub target_spawn_error_reported: bool,
    pub boundary_requested: BoundaryRequirement,
    pub boundary_effective: BoundaryClass,
    pub boundary_assignment_verified: bool,
    pub boundary_reconfiguration_denied: bool,
    pub inherited_resources_restricted: bool,
    pub frontend_loss_cleanup_authority_verified: bool,
}

impl View for LaunchEvidence {
    type V = LaunchView;

    open spec fn view(&self) -> LaunchView {
        LaunchView {
            mechanism: self.mechanism@,
            target_released: self.target_released,
            containment_verified_before_authorization:
                self.containment_verified_before_authorization,
            guardian_started_before_authorization: self.guardian_started_before_authorization,
            target_spawn_error_reported: self.target_spawn_error_reported,
            boundary_requested: self.boundary_requested,
            boundary_effective: self.boundary_effective,
            boundary_assignment_verified: self.boundary_assignment_verified,
            boundary_reconfiguration_denied: self.boundary_reconfiguration_denied,
            inherited_resources_restricted: self.inherited_resources_restricted,
            frontend_loss_cleanup_authority_verified: self.frontend_loss_cleanup_authority_verified,
        }
    }
}

impl LaunchEvidence {
    /// The same evidence again.
    pub fn duplicate(&self) -> (r: LaunchEvidence)
        ensures
            r@ == self@,
    {
        LaunchEvidence {
            mechanism: self.mechanism.clone(),
            target_released: self.target_released,
            containment_verified_before_authorization:
                self.containment_verified_before_authorization,
            guardian_started_before_authorization: self.guardian_started_before_authorization,
            target_spawn_error_reported: self.target_spawn_error_reported,
            boundary_requested: self.boundary_requested,
            boundary_effective: self.boundary_effective,
            boundary_assignment_verified: self.boundary_assignment_verified,
            boundary_reconfiguration_denied: self.boundary_reconfiguration_denied,
            inherited_resources_restricted: self.inherited_resources_restricted,
            frontend_loss_cleanup_authority_verified: self.frontend_loss_cleanup_authority_verified,
        }
    }
}

/// What becomes of the caller's credentials in a sealed attempt.
#[derive(Clone, Copy, Debug, PartialEq, Eq, Structural)]
pub enum CredentialTransitionDisposition {
    PreserveCallerEnvelope,
}

/// What was verified of a sealed attempt on Linux.
#[derive(Clone, Copy, Debug, PartialEq, Eq, Structural)]
pub struct LinuxSealedFacts {
    pub cgroup_created: bool,
    pub cgroup_owned_by_provider: bool,
    pub memory_configuration_verified: bool,
    pub init_created_into_cgroup: bool,
    pub pid_namespace_created: bool,
    pub mount_namespace_created: bool,
    pub cgroup_namespace_created: bool,
    pub target_pidfd_verified: bool,
    pub target_cgroup_membership_verified: bool,
    pub target_pid_namespace_verified: bool,
    pub target_initial_credentials_verified: bool,
    pub initial_provider_capabilities_absent: bool,
    pub caller_no_new_privs_reproduced: bool,
    pub caller_capability_bounding_set_reproduced: bool,
    pub caller_mount_context_reproduced: bool,
    pub boundary_independent_of_credentials: bool,
    pub inherited_descriptors_verified: bool,
    pub writable_ancestor_cgroup_denied: bool,
    pub parent_namespace_handles_denied: bool,
    pub recursive_provider_request_denied: bool,
    pub guardian_ready: bool,
    pub target_released: bool,
    pub cgroup_kill_invoked: bool,
    pub cgroup_empty_verified: bool,
    pub namespace_init_reaped: bool,
    pub guardian_reaped: bool,
    pub cgroup_removed: bool,
    pub credential_transition_disposition: CredentialTransitionDisposition,
}

/// Who kept a sealed attempt on Linux, and what was verified of it.
#[derive(Debug)]
pub struct LinuxSealedEvidence {
    pub schema_version: u32,
    pub provider_identity: String,
    pub control_service_identity: String,
    pub launcher_service_identity: String,
    pub cgroup_identity_digest: String,
    pub facts: LinuxSealedFacts,
}

/// The facts of a sealed attempt on Linux.
pub struct LinuxSealedView {
    pub schema_version: u32,
    pub provider_identity: Seq<char>,
    pub control_service_identity: Seq<char>,
    pub launcher_service_identity: Seq<char>,
    pub cgroup_identity_digest: Seq<char>,
    pub facts: LinuxSealedFacts,
}

impl View for LinuxSealedEvidence {
    type V = LinuxSealedView;

    open spec fn view(&self) -> LinuxSealedView {
        LinuxSealedView {
            schema_version: self.schema_version,
            provider_identity: self.provider_identity@,
            control_service_identity: self.control_service_identity@,
            launcher_service_identity: self.launcher_service_identity@,
            cgroup_identity_digest: self.cgroup_identity_digest@,
            facts: self.facts,
        }
    }
}

/// What shows how a boundary was, or was not, set up.
#[derive(Debug)]
pub enum BoundaryMechanismEvidence {
    Standard { backend: String },
    LinuxPidNamespaceCgroupV2(LinuxSealedEvidence),
    SetupFailure { provider_mechanism: String, requested: BoundaryRequirement },
}

/// The facts of a boundary's setup.
pub enum MechanismView {
    Standard { backend: Seq<char> },
    LinuxPidNamespaceCgroupV2(LinuxSealedView),
    SetupFailure { provider_mechanism: Seq<char>, requested: BoundaryRequirement },
}

impl View for BoundaryMechanismEvidence {
    type V = MechanismView;

    open spec fn view(&self) -> MechanismView {
        match self {
            BoundaryMechanismEvidence::Standard { backend } => MechanismView::Standard {
                backend: backend@,
            },
            BoundaryMechanismEvidence::LinuxPidNamespaceCgroupV2(evidence) =>
                MechanismView::LinuxPidNamespaceCgroupV2(evidence@),
            BoundaryMechanismEvidence::SetupFailure {
                provider_mechanism,
                requested,
            } => MechanismView::SetupFailure {
                provider_mechanism: provider_mechanism@,
                requested: *requested,
            },
        }
    }
}

/// What shows that a memory limit was reached.
#[derive(Debug)]
pub struct LimitEvidence {
    pub backend: String,
    pub metric: String,
    pub detail: String,
}

/// How an attempt that ran came to its end.
#[derive(Debug)]
pub enum RunOutcome {
    Exited { child: ChildTermination, peak: Option<u64>, cleanup: CleanupSummary },
    LimitExceeded {
        limit: u64,
        observed: Option<u64>,
        peak: Option<u64>,
        evidence: LimitEvidence,
        child_after_termination: Option<ChildTermination>,
        cleanup: CleanupSummary,
    },
    DeadlineExceeded {
        deadline: DeadlineEvidence,
        child_after_termination: Option<ChildTermination>,
        peak: Option<u64>,
        cleanup: CleanupSummary,
    },
    Interrupted {
        signal: i32,
        child_after_termination: Option<ChildTermination>,
        cleanup: CleanupSummary,
    },
    MonitorFailed {
        error: String,
        child_after_termination: Option<ChildTermination>,
        cleanup: CleanupSummary,
    },
}

/// What an outcome says, apart from its cleanup.
pub enum OutcomeView {
    Exited { child: ChildTermination, peak: Option<u64> },
    LimitExceeded {
        limit: u64,
        observed: Option<u64>,
        peak: Option<u64>,
        backend: Seq<char>,
        metric: Seq<char>,
        detail: Seq<char>,
        child_after_termination: Option<ChildTermination>,
    },
    DeadlineExceeded {
        deadline: DeadlineEvidence,
        child_after_termination: Option<ChildTermination>,
        peak: Option<u64>,
    },
    Interrupted { signal: i32, child_after_termination: Option<ChildTermination> },
    MonitorFailed { error: Seq<char>, child_after_termination: Option<ChildTermination> },
}

impl View for RunOutcome {
    type V = OutcomeView;

    open spec fn view(&self) -> OutcomeView {
        match self {
            RunOutcome::Exited { child, peak, .. } => OutcomeView::Exited {
                child: *child,
                peak: *peak,
            },
            RunOutcome::LimitExceeded {
                limit,
                observed,
                peak,
                evidence,
                child_after_termination,
                ..
            } => OutcomeView::LimitExceeded {
                limit: *limit,
                observed: *observed,
                peak: *peak,
                backend: evidence.backend@,
                metric: evidence.metric@,
                detail: evidence.detail@,
                child_after_termination: *child_after_termination,
            },
            RunOutcome::DeadlineExceeded { deadline, child_after_termination, peak, .. } =>
                OutcomeView::DeadlineExceeded {
                deadline: *deadline,
                child_after_termination: *child_after_termination,
                peak: *peak,
            },
            RunOutcome::Interrupted { signal, child_after_termination, .. } =>
                OutcomeView::Interrupted {
                signal: *signal,
                child_after_termination: *child_after_termination,
            },
            RunOutcome::MonitorFailed { error, child_after_termination, .. } =>
                OutcomeView::MonitorFailed {
                error: error@,
                child_after_termination: *child_after_termination,
            },
        }
    }
}

impl RunOutcome {
    /// What the attempt gave back.
    pub open spec fn cleaned(&self) -> CleanupView {
        match self {
            RunOutcome::Exited { cleanup, .. } => cleanup@,
            RunOutcome::LimitExceeded { cleanup, .. } => cleanup@,
            RunOutcome::DeadlineExceeded { cleanup, .. } => cleanup@,
            RunOutcome::Interrupted { cleanup, .. } => cleanup@,
            RunOutcome::MonitorFailed { cleanup, .. } => cleanup@,
        }
    }

    /// What the attempt gave back.
    pub fn cleanup(&self) -> (r: &CleanupSummary)
        ensures
            r@ == self.cleaned(),
    {
        match self {
            RunOutcome::Exited { cleanup, .. } => cleanup,
            RunOutcome::LimitExceeded { cleanup, .. } => cleanup,
            RunOutcome::DeadlineExceeded { cleanup, .. } => cleanup,
            RunOutcome::Interrupted { cleanup, .. } => cleanup,
            RunOutcome::MonitorFailed { cleanup, .. } => cleanup,
        }
    }

    /// Adds a finding to what the attempt gave back.
    pub fn add_error(&mut self, record: CleanupErrorRecord)
        ensures
            final(self)@ == old(self)@,
            final(self).cleaned() == (CleanupView {
                errors: old(self).cleaned().errors.push(record),
                ..old(self).cleaned()
            }),
    {
        match self {
            RunOutcome::Exited { cleanup, .. } => cleanup.errors.push(record),
            RunOutcome::LimitExceeded { cleanup, .. } => cleanup.errors.push(record),
            RunOutcome::DeadlineExceeded { cleanup, .. } => cleanup.errors.push(record),
            RunOutcome::Interrupted { cleanup, .. } => cleanup.errors.push(record),
            RunOutcome::MonitorFailed { cleanup, .. } => cleanup.errors.push(record),
        }
    }
}

impl RunOutcome {
    /// Sets whether the direct child was reaped.
    pub fn set_reaped(&mut self, reaped: bool)
        ensures
            final(self)@ == old(self)@,
            final(self).cleaned() == (CleanupView {
                direct_child_reaped: reaped,
                ..old(self).cleaned()
            }),
    {
        match self {
            RunOutcome::Exited { cleanup, .. } => cleanup.direct_child_reaped = reaped,
            RunOutcome::LimitExceeded { cleanup, .. } => cleanup.direct_child_reaped = reaped,
            RunOutcome::DeadlineExceeded { cleanup, .. } => cleanup.direct_child_reaped = reaped,
            RunOutcome::Interrupted { cleanup, .. } => cleanup.direct_child_reaped = reaped,
            RunOutcome::MonitorFailed { cleanup, .. } => cleanup.direct_child_reaped = reaped,
        }
    }
}

/// What a backend gave back after an attempt.
#[derive(Debug)]
pub struct BackendCleanupFacts {
    pub direct_child_reaped: bool,
    pub workload_empty: Option<bool>,
    pub helpers_reaped: bool,
    pub containment_removed: bool,
    pub containment_incapable_of_live_members: bool,
    pub errors: Vec<String>,
}

impl Default for BackendCleanupFacts {
    fn default() -> (r: BackendCleanupFacts)
        ensures
            r.direct_child_reaped == false,
            r.workload_empty is None,
            r.helpers_reaped == false,
            r.containment_removed == false,
            r.containment_incapable_of_live_members == false,
            r.errors@.len() == 0,
    {
        BackendCleanupFacts {
            direct_child_reaped: false,
            workload_empty: None,
            helpers_reaped: false,
            containment_removed: false,
            containment_incapable_of_live_members: false,
            errors: Vec::new(),
        }
    }
}

impl BackendCleanupFacts {
    /// The same facts as a proof about a boundary that was never sealed.
    pub open spec fn as_proof(&self) -> SafetyView {
        SafetyView {
            direct_child_reaped: self.direct_child_reaped,
            workload_empty: self.workload_empty,
            helpers_reaped: self.helpers_reaped,
            containment_removed: self.containment_removed,
            containment_incapable_of_live_members: self.containment_incapable_of_live_members,
            sealed_boundary_retired: false,
            errors: texts(self.errors@),
        }
    }
}

} // verus!
