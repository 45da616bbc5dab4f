//! The course of a supervision: one attempt after the other, each recorded, until
//! an outcome stands or the supervision's deadline passes between attempts.

use vstd::prelude::*;
use vstd::string::*;

use crate::backend::Platform;
use crate::evidence::{
    bare_error, opt_rejection, opt_text, BoundaryMechanismEvidence, BoundarySetupPhase,
    DeadlineEvidence, Error, ErrorCategory, ErrorView, InitialSpawnFailure, LaunchEvidence,
    LaunchView, MechanismView, ProviderRejectionEvidence, RestartSafetyProof, SafetyView,
    SetupFailureView,
};
use crate::model::texts;
use crate::policy::{
    AttemptContext, BoundaryClass, BoundaryRequirement, DeadlineScope, Policy,
};
use crate::supervisor::{
    backend_selection_matches, launch_mechanism, mechanism_of, opt_span, outside_deadline_evidence,
    outside_draft, outside_evidence, refused_outside, remaining_of, selection_matches,
    supervision_remaining, BackendCapabilityReport, ReportView, RestartCondition, SupervisionDeadlineEvidence,
    SupervisionPhase,
};
use crate::text::{join2, same_text};
use crate::time::{capped_millis, floor_sub, least, Duration, MAX_NANOS};

verus! {

fn same_proof(a: &RestartSafetyProof, b: &RestartSafetyProof) -> (r: bool)
    ensures
        r == (a@ == b@),
{
    if a.errors.len() != b.errors.len() {
        assert(texts(a.errors@).len() != texts(b.errors@).len());
        return false;
    }
    let mut i: usize = 0;
    while i < a.errors.len()
        invariant
            i <= a.errors.len(),
            a.errors.len() == b.errors.len(),
            forall|k: int| 0 <= k < i ==> (#[trigger] a.errors[k])@ == b.errors[k]@,
        decreases a.errors.len() - i,
    {
        if a.errors[i] != b.errors[i] {
            assert(texts(a.errors@)[i as int] != texts(b.errors@)[i as int]);
            return false;
        }
        i += 1;
    }
    assert(texts(a.errors@) =~= texts(b.errors@));
    let same_empty = match (a.workload_empty, b.workload_empty) {
        (Some(x), Some(y)) => x == y,
        (None, None) => true,
        _ => false,
    };
    a.direct_child_reaped == b.direct_child_reaped && same_empty && a.helpers_reaped
        == b.helpers_reaped && a.containment_removed == b.containment_removed
        && a.containment_incapable_of_live_members == b.containment_incapable_of_live_members
        && a.sealed_boundary_retired == b.sealed_boundary_retired
}

fn same_code(a: Option<i32>, b: Option<i32>) -> (r: bool)
    ensures
        r == (a == b),
{
    match (a, b) {
        (Some(x), Some(y)) => x == y,
        (None, None) => true,
        _ => false,
    }
}

/// Whether a sealed provider's refusal is the supervision's deadline in other
/// words: it refused to authorize the target in time, gave everything back, and
/// every piece of the evidence says the same. `safe` tells whether what was given
/// back allows a restart within a sealed boundary.
pub open spec fn rejection_is_deadline(
    policy: Policy,
    context: AttemptContext,
    error: ErrorView,
    safe: bool,
) -> bool {
    &&& policy.deadline is Some && policy.deadline->0.scope == DeadlineScope::Supervision
    &&& context.supervision_deadline_remaining is Some
    &&& error.category == ErrorCategory::Setup
    &&& error.code@ == "MCSEALED-PROVIDER-REJECTION"@
    &&& !error.target_released
    &&& error.authorization_offset is None
    &&& !error.workload_may_be_alive
    &&& error.launch_phase is Some && error.launch_phase->0@ == "authorization"@
    &&& error.provider_rejection is Some
    &&& error.boundary_setup_failure is Some
    &&& error.provider_rejection->0.schema_version == 1
    &&& error.provider_rejection->0.code == "MCSEALED-AUTHORIZATION"@
    &&& error.provider_rejection->0.phase == BoundarySetupPhase::Authorization
    &&& error.provider_rejection->0.target_created
    &&& !error.provider_rejection->0.target_released
    &&& error.provider_rejection->0.cleanup_attempted
    &&& safe
    &&& error.os_code == error.provider_rejection->0.os_code
    &&& error.restart_safety == Some(error.provider_rejection->0.restart_safety)
    &&& error.boundary_setup_failure->0 == (SetupFailureView {
        requested: BoundaryRequirement::Sealed,
        mechanism: Some("linux-pid-namespace-cgroup-v2"@),
        phase: error.provider_rejection->0.phase,
        target_created: error.provider_rejection->0.target_created,
        target_released: error.provider_rejection->0.target_released,
        cleanup_attempted: error.provider_rejection->0.cleanup_attempted,
        restart_safety: error.provider_rejection->0.restart_safety,
    })
}

/// Whether a sealed provider's refusal is the supervision's deadline in other
/// words.
pub fn sealed_deadline_rejection_is_outside_attempt(
    policy: &Policy,
    context: AttemptContext,
    error: &Error,
    safe: bool,
) -> (r: bool)
    ensures
        r == rejection_is_deadline(*policy, context, error@, safe),
{
    let supervised = match policy.deadline {
        Some(deadline) => deadline.scope == DeadlineScope::Supervision,
        None => false,
    };
    if !supervised || context.supervision_deadline_remaining.is_none() || error.category
        != ErrorCategory::Setup || !same_text(error.code, "MCSEALED-PROVIDER-REJECTION")
        || error.target_released || error.authorization_offset.is_some()
        || error.workload_may_be_alive {
        return false;
    }
    let at_authorization = match error.launch_phase {
        Some(phase) => same_text(phase, "authorization"),
        None => false,
    };
    if !at_authorization {
        return false;
    }
    match (&error.provider_rejection, &error.boundary_setup_failure) {
        (Some(rejection), Some(failure)) => {
            let same_safety = match &error.restart_safety {
                Some(proof) => same_proof(proof, &rejection.restart_safety),
                None => false,
            };
            let same_mechanism = match &failure.mechanism {
                Some(mechanism) => same_text(
                    mechanism.as_str(),
                    "linux-pid-namespace-cgroup-v2",
                ),
                None => false,
            };
            rejection.schema_version == 1 && same_text(
                rejection.code.as_str(),
                "MCSEALED-AUTHORIZATION",
            ) && rejection.phase == BoundarySetupPhase::Authorization && rejection.target_created
                && !rejection.target_released && rejection.cleanup_attempted && safe && same_code(
                error.os_code,
                rejection.os_code,
            ) && same_safety && failure.requested == BoundaryRequirement::Sealed && same_mechanism
                && failure.phase == rejection.phase && failure.target_created
                == rejection.target_created && failure.target_released
                == rejection.target_released && failure.cleanup_attempted
                == rejection.cleanup_attempted && same_proof(
                &failure.restart_safety,
                &rejection.restart_safety,
            )
        },
        _ => false,
    }
}

/// A refusal after the target was released is never taken for a deadline.
pub proof fn released_rejection_is_no_deadline(
    policy: Policy,
    context: AttemptContext,
    error: ErrorView,
    safe: bool,
)
    requires
        error.target_released || error.workload_may_be_alive || !safe,
    ensures
        !rejection_is_deadline(policy, context, error, safe),
{
}

/// How an attempt came about.
#[derive(Clone, Copy, Debug, PartialEq, Eq, Structural)]
pub enum AttemptKind {
    Initial,
    Restart,
    HalfOpen,
}

/// An error as a supervision records it.
#[derive(Debug)]
pub struct SupervisionErrorRecord {
    pub category: &'static str,
    pub code: &'static str,
    pub message: String,
    pub os_code: Option<i32>,
    pub attempt_number: Option<u64>,
    pub supervision_phase: SupervisionPhase,
    pub launch_phase: Option<&'static str>,
    pub target_released: bool,
    pub workload_may_be_alive: bool,
    pub initial_spawn_failure: Option<InitialSpawnFailure>,
    pub provider_rejection: Option<ProviderRejectionEvidence>,
}

/// Records an error. Only the first attempt of a supervision counts as a command
/// that could not be started at all.
pub fn error_record(
    error: &Error,
    attempt_number: Option<u64>,
    phase: SupervisionPhase,
    kind: AttemptKind,
) -> (r: SupervisionErrorRecord)
    ensures
        r.category == error.category.named(),
        r.code == error.code,
        r.message@ == error.message@,
        r.os_code == error.os_code,
        r.attempt_number == attempt_number,
        r.supervision_phase == phase,
        r.launch_phase == error.launch_phase,
        r.target_released == error.target_released,
        r.workload_may_be_alive == error.workload_may_be_alive,
        r.initial_spawn_failure == if kind == AttemptKind::Initial {
            error.initial_spawn_failure
        } else {
            None
        },
        opt_rejection(r.provider_rejection) == opt_rejection(error.provider_rejection),
{
    let provider_rejection = match &error.provider_rejection {
        Some(rejection) => Some(rejection.duplicate()),
        None => None,
    };
    SupervisionErrorRecord {
        category: error.category.name(),
        code: error.code,
        message: error.message.clone(),
        os_code: error.os_code,
        attempt_number,
        supervision_phase: phase,
        launch_phase: error.launch_phase,
        target_released: error.target_released,
        workload_may_be_alive: error.workload_may_be_alive,
        initial_spawn_failure: if kind == AttemptKind::Initial {
            error.initial_spawn_failure
        } else {
            None
        },
        provider_rejection,
    }
}

/// What an error proves towards a restart: what it says, and else nothing.
pub open spec fn proof_of(error: ErrorView) -> SafetyView {
    match error.restart_safety {
        Some(proof) => proof,
        None => SafetyView {
            direct_child_reaped: false,
            workload_empty: None,
            helpers_reaped: false,
            containment_removed: false,
            containment_incapable_of_live_members: false,
            sealed_boundary_retired: false,
            errors: seq![
                error.code@ + ": setup failure has no complete backend resource proof"@,
            ],
        },
    }
}

/// What an error proves towards a restart.
pub fn proof_from_error(error: &Error) -> (r: RestartSafetyProof)
    ensures
        r@ == proof_of(error@),
{
    match &error.restart_safety {
        Some(proof) => proof.duplicate(),
        None => {
            let mut errors: Vec<String> = Vec::new();
            errors.push(
                join2(error.code, ": setup failure has no complete backend resource proof"),
            );
            assert(texts(errors@) =~= proof_of(error@).errors);
            RestartSafetyProof {
                direct_child_reaped: false,
                workload_empty: None,
                helpers_reaped: false,
                containment_removed: false,
                containment_incapable_of_live_members: false,
                sealed_boundary_retired: false,
                errors,
            }
        },
    }
}

/// The mechanism of the backend, where one is known and has a name.
pub open spec fn known_mechanism(backend: Option<ReportView>) -> Option<Seq<char>> {
    match backend {
        Some(report) => if report.boundary.mechanism.len() > 0 {
            Some(report.boundary.mechanism)
        } else {
            None
        },
        None => None,
    }
}

/// The view of an optional report.
pub open spec fn opt_report(o: Option<BackendCapabilityReport>) -> Option<ReportView> {
    match o {
        Some(report) => Some(report@),
        None => None,
    }
}

/// How the target of a failed attempt was launched.
pub open spec fn launch_of(
    platform: Platform,
    error: ErrorView,
    requested: BoundaryRequirement,
    backend: Option<ReportView>,
) -> LaunchView {
    let sealed = requested == BoundaryRequirement::Sealed;
    LaunchView {
        mechanism: match known_mechanism(backend) {
            Some(mechanism) => mechanism,
            None => mechanism_of(platform)@,
        },
        target_released: error.target_released,
        containment_verified_before_authorization: error.cgroup_verified_before_release,
        guardian_started_before_authorization: error.guardian_ready_before_release,
        target_spawn_error_reported: error.launch_phase is Some && error.launch_phase->0@
            == "target-spawn-failed"@,
        boundary_requested: requested,
        boundary_effective: if error.target_released && sealed {
            BoundaryClass::Sealed
        } else if sealed {
            BoundaryClass::Unavailable
        } else {
            BoundaryClass::Standard
        },
        boundary_assignment_verified: sealed && error.cgroup_verified_before_release,
        boundary_reconfiguration_denied: sealed && error.cgroup_verified_before_release,
        inherited_resources_restricted: sealed && error.cgroup_verified_before_release,
        frontend_loss_cleanup_authority_verified: sealed && error.guardian_ready_before_release,
    }
}

fn mechanism_name(backend: &Option<BackendCapabilityReport>) -> (r: Option<String>)
    ensures
        opt_text(r) == known_mechanism(opt_report(*backend)),
{
    match backend {
        Some(report) => if report.boundary.mechanism.as_str().is_empty() {
            None
        } else {
            Some(report.boundary.mechanism.clone())
        },
        None => None,
    }
}

/// How the target of a failed attempt was launched.
pub fn launch_from_error(
    platform: Platform,
    error: &Error,
    requested: BoundaryRequirement,
    backend: &Option<BackendCapabilityReport>,
) -> (r: LaunchEvidence)
    ensures
        r@ == launch_of(platform, error@, requested, opt_report(*backend)),
{
    let mechanism = match mechanism_name(backend) {
        Some(mechanism) => mechanism,
        None => launch_mechanism(platform).to_owned(),
    };
    let sealed = requested == BoundaryRequirement::Sealed;
    let reported = match error.launch_phase {
        Some(phase) => same_text(phase, "target-spawn-failed"),
        None => false,
    };
    LaunchEvidence {
        mechanism,
        target_released: error.target_released,
        containment_verified_before_authorization: error.cgroup_verified_before_release,
        guardian_started_before_authorization: error.guardian_ready_before_release,
        target_spawn_error_reported: reported,
        boundary_requested: requested,
        boundary_effective: if error.target_released && sealed {
            BoundaryClass::Sealed
        } else if sealed {
            BoundaryClass::Unavailable
        } else {
            BoundaryClass::Standard
        },
        boundary_assignment_verified: sealed && error.cgroup_verified_before_release,
        boundary_reconfiguration_denied: sealed && error.cgroup_verified_before_release,
        inherited_resources_restricted: sealed && error.cgroup_verified_before_release,
        frontend_loss_cleanup_authority_verified: sealed && error.guardian_ready_before_release,
    }
}

/// A failed attempt claims an effective sealed boundary only where one was asked
/// for and the target was released into it.
pub proof fn sealed_claims_need_release(
    platform: Platform,
    error: ErrorView,
    requested: BoundaryRequirement,
    backend: Option<ReportView>,
)
    ensures
        launch_of(platform, error, requested, backend).boundary_effective == BoundaryClass::Sealed
            <==> requested == BoundaryRequirement::Sealed && error.target_released,
{
}

/// How the boundary of a failed attempt was, or was not, set up.
pub open spec fn failure_detail(
    error: ErrorView,
    requested: BoundaryRequirement,
    backend: Option<ReportView>,
) -> MechanismView {
    match error.boundary_setup_failure {
        Some(failure) => MechanismView::SetupFailure {
            provider_mechanism: match failure.mechanism {
                Some(mechanism) => mechanism,
                None => match backend {
                    Some(report) => report.boundary.mechanism,
                    None => "unresolved-boundary-setup"@,
                },
            },
            requested,
        },
        None => if requested == BoundaryRequirement::Sealed {
            MechanismView::SetupFailure {
                provider_mechanism: match known_mechanism(backend) {
                    Some(mechanism) => mechanism,
                    None => "unresolved-sealed-setup"@,
                },
                requested,
            }
        } else {
            MechanismView::Standard {
                backend: match backend {
                    Some(report) => report.name,
                    None => "setup-failed-before-selection"@,
                },
            }
        },
    }
}

/// How the boundary of a failed attempt was, or was not, set up.
pub fn boundary_failure_detail(
    error: &Error,
    requested: BoundaryRequirement,
    backend: &Option<BackendCapabilityReport>,
) -> (r: BoundaryMechanismEvidence)
    ensures
        r@ == failure_detail(error@, requested, opt_report(*backend)),
{
    if let Some(failure) = &error.boundary_setup_failure {
        let provider_mechanism = match &failure.mechanism {
            Some(mechanism) => mechanism.clone(),
            None => match backend {
                Some(report) => report.boundary.mechanism.clone(),
                None => "unresolved-boundary-setup".to_owned(),
            },
        };
        return BoundaryMechanismEvidence::SetupFailure { provider_mechanism, requested };
    }
    if requested == BoundaryRequirement::Sealed {
        let provider_mechanism = match mechanism_name(backend) {
            Some(mechanism) => mechanism,
            None => "unresolved-sealed-setup".to_owned(),
        };
        return BoundaryMechanismEvidence::SetupFailure { provider_mechanism, requested };
    }
    let backend = match backend {
        Some(report) => report.name.clone(),
        None => "setup-failed-before-selection".to_owned(),
    };
    BoundaryMechanismEvidence::Standard { backend }
}

/// Whether an attempt failed before it had an outcome.
#[derive(Clone, Copy, Debug, PartialEq, Eq, Structural)]
pub enum AttemptPhase {
    Failed,
    Completed,
}

/// The numbers of an attempt's record. Times are milliseconds since the
/// supervision started.
#[derive(Clone, Copy, Debug, PartialEq, Eq, Structural)]
pub struct AttemptRecord {
    pub number: u64,
    pub kind: AttemptKind,
    pub phase: AttemptPhase,
    pub target_pid: Option<u32>,
    pub started_offset_ms: u64,
    pub authorized_offset_ms: Option<u64>,
    pub terminal_offset_ms: Option<u64>,
    pub finished_offset_ms: u64,
}

/// What the restart controller asks for.
#[derive(Clone, Copy, Debug, PartialEq, Eq, Structural)]
pub enum RestartAction {
    Wait { duration: Duration, kind: RestartWaitKind },
    Launch { half_open: bool },
    Stop,
}

/// What a wait before a restart is for.
#[derive(Clone, Copy, Debug, PartialEq, Eq, Structural)]
pub enum RestartWaitKind {
    Backoff,
    CircuitCooldown,
}

/// How a wait before a restart ended.
#[derive(Clone, Copy, Debug, PartialEq, Eq, Structural)]
pub enum WaitCompletion {
    Completed,
    Interrupted,
    SupervisionDeadline,
}

/// What an attempt that had an outcome tells the supervision.
#[derive(Clone, Copy, Debug, PartialEq, Eq, Structural)]
pub struct AttemptFacts {
    pub authorization_offset: Option<Duration>,
    pub child_pid: u32,
    pub duration: Duration,
    pub trigger: Option<RestartCondition>,
}

/// Where a supervision stands.
#[derive(Clone, Copy, Debug, PartialEq, Eq, Structural)]
pub enum SupervisionStage {
    /// An attempt is to start.
    Ready,
    /// An attempt runs.
    Executing,
    /// The restart controller was asked.
    Asking,
    /// The wait before a restart runs.
    Waiting,
    /// The restart controller was told how the wait ended.
    Resuming,
    Over,
}

/// What ends a supervision.
#[derive(Clone, Copy, Debug)]
pub enum SupervisionEnd {
    /// The deadline passed outside an attempt.
    Deadline(SupervisionDeadlineEvidence),
    /// This attempt's outcome stands.
    Outcome { attempt_number: u64 },
    /// This attempt's error stands.
    Failed { attempt_number: u64 },
}

/// What the caller does next.
#[derive(Debug)]
pub enum SupervisionStep {
    Execute(AttemptContext),
    /// End, with nothing to record.
    EndOutside(SupervisionDeadlineEvidence),
    /// Record the failed attempt and end.
    EndFailed(AttemptRecord),
    /// Ask the restart controller.
    Ask(RestartCondition),
    /// Wait so long for an interruption.
    Wait(Duration),
    /// Tell the restart controller how the wait ended, how long it took and what
    /// is left of the supervision's deadline.
    Complete { completion: WaitCompletion, waited: Duration, remaining: Option<Duration> },
    /// Record the attempt and go on with the next one.
    RecordAndGoOn(AttemptRecord),
    /// Record the attempt and end.
    RecordAndEnd(AttemptRecord, SupervisionEnd),
    /// The restart controller asked for a wait after a wait.
    InvalidTransition,
    Fail(Error),
}

/// A supervision. Times are spans since it started.
#[derive(Debug)]
pub struct Supervision {
    pub platform: Platform,
    pub policy: Policy,
    pub restarts: bool,
    pub backend: Option<BackendCapabilityReport>,
    pub origin: Option<Duration>,
    pub kind: AttemptKind,
    pub total: u64,
    pub targets_authorized: u64,
    pub stage: SupervisionStage,
    pub attempt_started: Duration,
    pub facts: Option<AttemptFacts>,
    pub wait_kind: RestartWaitKind,
    pub wait_started: Duration,
    pub outside: Option<SupervisionDeadlineEvidence>,
}

/// The error of a counter that cannot be raised.
pub open spec fn counter_error() -> ErrorView {
    bare_error(
        ErrorCategory::Monitor,
        "MCRESTART-COUNTER-RANGE",
        "supervision counter exhausted"@,
    )
}

fn exhausted_counter() -> (r: Error)
    ensures
        r@ == counter_error(),
{
    Error::fixed(
        ErrorCategory::Monitor,
        "MCRESTART-COUNTER-RANGE",
        "supervision counter exhausted",
    )
}

/// The milliseconds of an offset within an attempt that started at `started`.
pub open spec fn opt_offset_ms(started: Duration, offset: Option<Duration>) -> Option<u64> {
    match offset {
        Some(offset) => Some(capped_millis(started@ + offset@)),
        None => None,
    }
}

fn offset_ms(started: Duration, offset: Option<Duration>) -> (r: Option<u64>)
    ensures
        r == opt_offset_ms(started, offset),
{
    match offset {
        Some(offset) => Some(started.sum_millis(offset)),
        None => None,
    }
}

impl Supervision {
    /// Whether an attempt is over and what follows it is not decided yet.
    pub open spec fn deciding(self) -> bool {
        self.stage is Asking || self.stage is Waiting || self.stage is Resuming
    }

    /// What the counters and the stage promise: no more targets were authorized
    /// than attempts made.
    pub open spec fn wf(self) -> bool {
        &&& self.deciding() ==> self.facts is Some && self.restarts && self.total < u64::MAX
        &&& !(self.stage is Over) ==> self.targets_authorized <= self.total + if self.deciding() {
            1int
        } else {
            0int
        }
    }

    /// Starts a supervision with the backend that was resolved for it.
    pub fn start(
        platform: Platform,
        policy: Policy,
        restarts: bool,
        backend: Option<BackendCapabilityReport>,
    ) -> (r: Supervision)
        ensures
            r.wf(),
            r.platform == platform && r.policy == policy && r.restarts == restarts && r.backend
                == backend,
            r.origin is None && r.facts is None && r.outside is None,
            r.kind == AttemptKind::Initial,
            r.total == 0 && r.targets_authorized == 0,
            r.stage == SupervisionStage::Ready,
    {
        Supervision {
            platform,
            policy,
            restarts,
            backend,
            origin: None,
            kind: AttemptKind::Initial,
            total: 0,
            targets_authorized: 0,
            stage: SupervisionStage::Ready,
            attempt_started: Duration::zero(),
            facts: None,
            wait_kind: RestartWaitKind::Backoff,
            wait_started: Duration::zero(),
            outside: None,
        }
    }

    /// What is left of the supervision's deadline at `now`.
    pub open spec fn remaining(self, now: nat) -> Option<nat> {
        remaining_of(self.policy, self.origin, now)
    }

    /// The context of an attempt that starts at `now`.
    pub open spec fn is_context(self, context: AttemptContext, now: Duration) -> bool {
        context.supervision_offset == now && opt_span(context.supervision_deadline_remaining)
            == self.remaining(now@)
    }

    fn context(&self, now: Duration) -> (r: AttemptContext)
        ensures
            self.is_context(r, now),
    {
        AttemptContext {
            supervision_offset: now,
            supervision_deadline_remaining: supervision_remaining(&self.policy, self.origin, now),
        }
    }

    /// The evidence that the supervision's deadline has passed by `now` outside an attempt,
    /// where it was counted, as it stands before it is accepted.
    pub fn outside_draft(&self, now: Duration) -> (r: Option<DeadlineEvidence>)
        ensures
            r == match outside_evidence(
                self.platform,
                self.policy,
                self.origin,
                now@,
                SupervisionPhase::Backoff,
            ) {
                Some(found) => Some(found.evidence),
                None => None,
            },
    {
        match outside_draft(
            self.platform,
            &self.policy,
            self.origin,
            now,
            SupervisionPhase::Backoff,
        ) {
            Some(found) => Some(found.evidence),
            None => None,
        }
    }

    /// Starts the next attempt, unless the supervision's deadline has passed. `accepted` is
    /// whether the evidence of that was accepted, where there is any.
    pub fn next_attempt(&mut self, now: Duration, accepted: bool) -> (r: SupervisionStep)
        requires
            old(self).wf(),
            old(self).stage == SupervisionStage::Ready,
        ensures
            final(self).wf(),
            if old(self).remaining(now@) == Some(0nat) {
                *final(self) == (Supervision { stage: SupervisionStage::Over, ..*old(self) })
                    && old(self).ends_outside(r, now@, SupervisionPhase::Backoff, accepted)
            } else {
                *final(self) == (Supervision {
                    stage: SupervisionStage::Executing,
                    attempt_started: now,
                    facts: None,
                    outside: None,
                    ..*old(self)
                }) && (r matches SupervisionStep::Execute(context) && old(self).is_context(
                    context,
                    now,
                ))
            },
    {
        let context = self.context(now);
        if let Some(remaining) = context.supervision_deadline_remaining {
            if remaining.is_zero() {
                match outside_deadline_evidence(
                    self.platform,
                    &self.policy,
                    self.origin,
                    now,
                    SupervisionPhase::Backoff,
                    accepted,
                ) {
                    Ok(Some(evidence)) => {
                        self.stage = SupervisionStage::Over;
                        return SupervisionStep::EndOutside(evidence);
                    },
                    Ok(None) => {},
                    Err(error) => {
                        self.stage = SupervisionStage::Over;
                        return SupervisionStep::Fail(error);
                    },
                }
            }
        }
        self.stage = SupervisionStage::Executing;
        self.attempt_started = now;
        self.facts = None;
        self.outside = None;
        SupervisionStep::Execute(context)
    }

    /// Whether a step ends the supervision because its deadline has passed by `now` outside
    /// an attempt: with the evidence of that, where it was accepted, and else with an error.
    pub open spec fn ends_outside(
        self,
        step: SupervisionStep,
        now: nat,
        phase: SupervisionPhase,
        accepted: bool,
    ) -> bool {
        if accepted {
            step matches SupervisionStep::EndOutside(evidence) && Some(evidence)
                == outside_evidence(self.platform, self.policy, self.origin, now, phase)
        } else {
            step matches SupervisionStep::Fail(error) && error@ == refused_outside()
        }
    }

    /// Whether a failed attempt was cut off by the supervision's deadline before
    /// its target was authorized.
    pub open spec fn cut_off(self, context: AttemptContext, error: ErrorView, safe: bool) -> bool {
        error.code@ == "MCSUPERVISION-DEADLINE-BEFORE-AUTHORIZATION"@ || rejection_is_deadline(
            self.policy,
            context,
            error,
            safe,
        )
    }

    /// The record of a failed attempt.
    pub open spec fn failed_record(self, error: ErrorView, now: nat) -> AttemptRecord {
        AttemptRecord {
            number: (self.total + 1) as u64,
            kind: self.kind,
            phase: AttemptPhase::Failed,
            target_pid: error.target_pid,
            started_offset_ms: capped_millis(self.attempt_started@),
            authorized_offset_ms: opt_offset_ms(self.attempt_started, error.authorization_offset),
            terminal_offset_ms: None,
            finished_offset_ms: capped_millis(now),
        }
    }

    /// Takes in that an attempt failed; `safe` tells whether what its refusal says
    /// was given back allows a restart within a sealed boundary. A failure ends
    /// the supervision. The claims that the target was released and when must
    /// agree. `accepted` is whether the evidence of a deadline that cut the attempt off
    /// was accepted.
    pub fn attempt_failed(&mut self, error: &Error, safe: bool, now: Duration, accepted: bool) -> (r:
        SupervisionStep)
        requires
            old(self).wf(),
            old(self).stage == SupervisionStage::Executing,
            old(self).policy.deadline is Some && old(self).origin is Some || error.code@
                != "MCSUPERVISION-DEADLINE-BEFORE-AUTHORIZATION"@,
        ensures
            final(self).wf(),
            final(self).stage == SupervisionStage::Over,
            exists|context: AttemptContext| #[trigger]
                old(self).is_context(context, old(self).attempt_started) && {
                    if old(self).cut_off(context, error@, safe) {
                        *final(self) == (Supervision {
                            stage: SupervisionStage::Over,
                            ..*old(self)
                        }) && old(self).ends_outside(
                            r,
                            now@,
                            SupervisionPhase::AttemptSetup,
                            accepted,
                        )
                    } else if old(self).total == u64::MAX {
                        r matches SupervisionStep::Fail(e) && e@ == counter_error()
                    } else if error.target_released != error.authorization_offset is Some {
                        r matches SupervisionStep::Fail(e) && e@ == bare_error(
                            ErrorCategory::Monitor,
                            "MCRESTART-AUTHORIZATION-EVIDENCE",
                            "target release and authorization offset evidence disagree"@,
                        )
                    } else if error.target_released && old(self).targets_authorized == u64::MAX {
                        r matches SupervisionStep::Fail(e) && e@ == counter_error()
                    } else {
                        *final(self) == (Supervision {
                            stage: SupervisionStage::Over,
                            total: (old(self).total + 1) as u64,
                            targets_authorized: if error.target_released {
                                (old(self).targets_authorized + 1) as u64
                            } else {
                                old(self).targets_authorized
                            },
                            ..*old(self)
                        }) && r == SupervisionStep::EndFailed(
                            old(self).failed_record(error@, now@),
                        )
                    }
                },
    {
        let context = self.context(self.attempt_started);
        assert(old(self).is_context(context, old(self).attempt_started));
        self.stage = SupervisionStage::Over;
        if same_text(error.code, "MCSUPERVISION-DEADLINE-BEFORE-AUTHORIZATION")
            || sealed_deadline_rejection_is_outside_attempt(&self.policy, context, error, safe) {
            match outside_deadline_evidence(
                self.platform,
                &self.policy,
                self.origin,
                now,
                SupervisionPhase::AttemptSetup,
                accepted,
            ) {
                Ok(Some(evidence)) => {
                    return SupervisionStep::EndOutside(evidence);
                },
                Ok(None) => {},
                Err(error) => {
                    return SupervisionStep::Fail(error);
                },
            }
        }
        if self.total == u64::MAX {
            return SupervisionStep::Fail(exhausted_counter());
        }
        if error.target_released != error.authorization_offset.is_some() {
            return SupervisionStep::Fail(
                Error::fixed(
                    ErrorCategory::Monitor,
                    "MCRESTART-AUTHORIZATION-EVIDENCE",
                    "target release and authorization offset evidence disagree",
                ),
            );
        }
        if error.target_released {
            if self.targets_authorized == u64::MAX {
                return SupervisionStep::Fail(exhausted_counter());
            }
            self.targets_authorized = self.targets_authorized + 1;
        }
        let number: u64 = self.total + 1;
        self.total = number;
        SupervisionStep::EndFailed(
            AttemptRecord {
                number,
                kind: self.kind,
                phase: AttemptPhase::Failed,
                target_pid: error.target_pid,
                started_offset_ms: self.attempt_started.millis(),
                authorized_offset_ms: offset_ms(self.attempt_started, error.authorization_offset),
                terminal_offset_ms: None,
                finished_offset_ms: now.millis(),
            },
        )
    }

    /// When the supervision's deadline starts to count: with the first attempt
    /// that was authorized.
    pub open spec fn origin_after(self, facts: AttemptFacts) -> Option<nat> {
        match self.origin {
            Some(origin) => Some(origin@),
            None => match facts.authorization_offset {
                Some(offset) => Some(self.attempt_started@ + offset@),
                None => None,
            },
        }
    }

    /// The record of an attempt that had an outcome.
    pub open spec fn completed_record(self, facts: AttemptFacts, now: nat) -> AttemptRecord {
        AttemptRecord {
            number: (self.total + 1) as u64,
            kind: self.kind,
            phase: AttemptPhase::Completed,
            target_pid: Some(facts.child_pid),
            started_offset_ms: capped_millis(self.attempt_started@),
            authorized_offset_ms: opt_offset_ms(self.attempt_started, facts.authorization_offset),
            terminal_offset_ms: Some(capped_millis(self.attempt_started@ + facts.duration@)),
            finished_offset_ms: capped_millis(now),
        }
    }

    fn record(&self, facts: AttemptFacts, now: Duration) -> (r: AttemptRecord)
        requires
            self.total < u64::MAX,
        ensures
            r == self.completed_record(facts, now@),
    {
        AttemptRecord {
            number: self.total + 1,
            kind: self.kind,
            phase: AttemptPhase::Completed,
            target_pid: Some(facts.child_pid),
            started_offset_ms: self.attempt_started.millis(),
            authorized_offset_ms: offset_ms(self.attempt_started, facts.authorization_offset),
            terminal_offset_ms: Some(self.attempt_started.sum_millis(facts.duration)),
            finished_offset_ms: now.millis(),
        }
    }

    /// Takes in that an attempt had an outcome, what it gave back, and what the backend
    /// that served reports of itself: it must be the one that was resolved.
    pub fn attempt_completed(
        &mut self,
        observed: BackendCapabilityReport,
        facts: AttemptFacts,
        given_back: &RestartSafetyProof,
        now: Duration,
    ) -> (r: SupervisionStep)
        requires
            old(self).wf(),
            old(self).stage == SupervisionStage::Executing,
            facts.authorization_offset matches Some(offset) ==> old(self).attempt_started@
                + offset@ <= MAX_NANOS,
        ensures
            final(self).wf(),
            ({
                let drifted = old(self).backend is Some && !selection_matches(
                    old(self).backend->0@,
                    observed@,
                    old(self).policy.metric,
                );
                let exhausted = old(self).targets_authorized == u64::MAX || old(self).total
                    == u64::MAX;
                if drifted {
                    final(self).stage == SupervisionStage::Over && (
                    r matches SupervisionStep::Fail(e) && e@ == (ErrorView {
                        restart_safety: Some(given_back@),
                        ..bare_error(
                            ErrorCategory::Monitor,
                            "MCBACKEND-SELECTION-DRIFT",
                            "runtime backend evidence disagrees with the resolved backend"@,
                        )
                    }))
                } else if exhausted {
                    final(self).stage == SupervisionStage::Over && (
                    r matches SupervisionStep::Fail(e) && e@ == counter_error())
                } else {
                    &&& opt_span(final(self).origin) == old(self).origin_after(facts)
                    &&& *final(self) == (Supervision {
                        origin: final(self).origin,
                        backend: Some(observed),
                        targets_authorized: (old(self).targets_authorized + 1) as u64,
                        facts: Some(facts),
                        stage: final(self).stage,
                        total: final(self).total,
                        ..*old(self)
                    })
                    &&& if old(self).restarts && facts.trigger is Some {
                        final(self).stage == SupervisionStage::Asking && final(self).total == old(
                            self,
                        ).total && r == SupervisionStep::Ask(facts.trigger->0)
                    } else {
                        let record = old(self).completed_record(facts, now@);
                        final(self).stage == SupervisionStage::Over && final(self).total
                            == record.number && r == SupervisionStep::RecordAndEnd(
                            record,
                            SupervisionEnd::Outcome { attempt_number: record.number },
                        )
                    }
                }
            }),
    {
        if let Some(selected) = &self.backend {
            if !backend_selection_matches(selected, &observed, self.policy.metric) {
                self.stage = SupervisionStage::Over;
                let mut error = Error::fixed(
                    ErrorCategory::Monitor,
                    "MCBACKEND-SELECTION-DRIFT",
                    "runtime backend evidence disagrees with the resolved backend",
                );
                error.restart_safety = Some(given_back.duplicate());
                return SupervisionStep::Fail(error);
            }
        }
        if self.targets_authorized == u64::MAX || self.total == u64::MAX {
            self.stage = SupervisionStage::Over;
            return SupervisionStep::Fail(exhausted_counter());
        }
        if self.origin.is_none() {
            if let Some(offset) = facts.authorization_offset {
                self.origin = self.attempt_started.checked_add(offset);
            }
        }
        self.backend = Some(observed);
        self.targets_authorized = self.targets_authorized + 1;
        self.facts = Some(facts);
        if self.restarts {
            if let Some(trigger) = facts.trigger {
                self.stage = SupervisionStage::Asking;
                return SupervisionStep::Ask(trigger);
            }
        }
        let record = self.record(facts, now);
        self.stage = SupervisionStage::Over;
        self.total = record.number;
        SupervisionStep::RecordAndEnd(
            record,
            SupervisionEnd::Outcome { attempt_number: record.number },
        )
    }

    /// The wait before a restart: what the controller asks for, cut at what is
    /// left of the supervision's deadline.
    pub open spec fn bounded_wait(self, duration: nat, now: nat) -> nat {
        match self.remaining(now) {
            Some(remaining) => least(duration, remaining),
            None => duration,
        }
    }

    /// Takes in the restart controller's answer. Anything but a wait ends the
    /// supervision with the attempt's outcome.
    pub fn answered(&mut self, action: RestartAction, now: Duration) -> (r: SupervisionStep)
        requires
            old(self).wf(),
            old(self).stage == SupervisionStage::Asking,
        ensures
            final(self).wf(),
            match action {
                RestartAction::Wait { duration, kind } => *final(self) == (Supervision {
                    stage: SupervisionStage::Waiting,
                    wait_kind: kind,
                    wait_started: now,
                    ..*old(self)
                }) && (r matches SupervisionStep::Wait(wait) && wait@ == old(self).bounded_wait(
                    duration@,
                    now@,
                )),
                _ => {
                    let record = old(self).completed_record(old(self).facts->0, now@);
                    *final(self) == (Supervision {
                        stage: SupervisionStage::Over,
                        total: record.number,
                        ..*old(self)
                    }) && r == SupervisionStep::RecordAndEnd(
                        record,
                        SupervisionEnd::Outcome { attempt_number: record.number },
                    )
                },
            },
    {
        match action {
            RestartAction::Wait { duration, kind } => {
                let bounded = match supervision_remaining(&self.policy, self.origin, now) {
                    Some(remaining) => duration.min(remaining),
                    None => duration,
                };
                self.stage = SupervisionStage::Waiting;
                self.wait_kind = kind;
                self.wait_started = now;
                SupervisionStep::Wait(bounded)
            },
            _ => {
                let record = self.record(self.facts.unwrap(), now);
                self.stage = SupervisionStage::Over;
                self.total = record.number;
                SupervisionStep::RecordAndEnd(
                    record,
                    SupervisionEnd::Outcome { attempt_number: record.number },
                )
            },
        }
    }

    /// How the wait before a restart ended at `now`.
    pub open spec fn completion(self, interrupted: bool, now: nat) -> WaitCompletion {
        if interrupted {
            WaitCompletion::Interrupted
        } else {
            match self.remaining(self.wait_started@) {
                Some(remaining) if floor_sub(now, self.wait_started@) >= remaining =>
                    WaitCompletion::SupervisionDeadline,
                _ => WaitCompletion::Completed,
            }
        }
    }

    /// What supervision was doing during the wait.
    pub open spec fn wait_phase(self) -> SupervisionPhase {
        if self.wait_kind == RestartWaitKind::CircuitCooldown {
            SupervisionPhase::Cooldown
        } else {
            SupervisionPhase::Backoff
        }
    }

    /// The evidence that the supervision's deadline passed during the wait, where it did.
    pub open spec fn wait_evidence(self, interrupted: bool, now: nat) -> Option<
        SupervisionDeadlineEvidence,
    > {
        if self.completion(interrupted, now) == WaitCompletion::SupervisionDeadline {
            outside_evidence(self.platform, self.policy, self.origin, now, self.wait_phase())
        } else {
            None
        }
    }

    /// Takes in the end of the wait before a restart. `accepted` is whether the evidence of
    /// a deadline that passed during it was accepted; where it was not, the supervision
    /// fails.
    pub fn waited(&mut self, interrupted: bool, now: Duration, accepted: bool) -> (r:
        SupervisionStep)
        requires
            old(self).wf(),
            old(self).stage == SupervisionStage::Waiting,
        ensures
            final(self).wf(),
            if old(self).wait_evidence(interrupted, now@) is Some && !accepted {
                *final(self) == (Supervision {
                    stage: SupervisionStage::Over,
                    outside: None,
                    ..*old(self)
                }) && (r matches SupervisionStep::Fail(error) && error@ == refused_outside())
            } else {
                *final(self) == (Supervision {
                    stage: SupervisionStage::Resuming,
                    outside: old(self).wait_evidence(interrupted, now@),
                    ..*old(self)
                }) && (r matches SupervisionStep::Complete { completion, waited, remaining }
                    && completion == old(self).completion(interrupted, now@) && waited@
                    == floor_sub(now@, old(self).wait_started@) && opt_span(remaining) == old(
                    self).remaining(now@))
            },
    {
        let waited = now.saturating_sub(self.wait_started);
        let at_start = supervision_remaining(&self.policy, self.origin, self.wait_started);
        let expired = match at_start {
            Some(remaining) => !waited.is_less_than(remaining),
            None => false,
        };
        self.outside = None;
        let completion = if interrupted {
            WaitCompletion::Interrupted
        } else if expired {
            let phase = if self.wait_kind == RestartWaitKind::CircuitCooldown {
                SupervisionPhase::Cooldown
            } else {
                SupervisionPhase::Backoff
            };
            match outside_deadline_evidence(
                self.platform,
                &self.policy,
                self.origin,
                now,
                phase,
                accepted,
            ) {
                Ok(evidence) => {
                    self.outside = evidence;
                },
                Err(error) => {
                    self.stage = SupervisionStage::Over;
                    return SupervisionStep::Fail(error);
                },
            }
            WaitCompletion::SupervisionDeadline
        } else {
            WaitCompletion::Completed
        };
        self.stage = SupervisionStage::Resuming;
        let remaining = supervision_remaining(&self.policy, self.origin, now);
        SupervisionStep::Complete { completion, waited, remaining }
    }

    /// How the next attempt comes about.
    pub open spec fn next_kind(self, half_open: bool) -> AttemptKind {
        if half_open || self.wait_kind == RestartWaitKind::CircuitCooldown {
            AttemptKind::HalfOpen
        } else {
            AttemptKind::Restart
        }
    }

    /// Takes in what the restart controller makes of the wait: another attempt,
    /// or the end. A wait after a wait is no answer.
    pub fn resumed(&mut self, after: RestartAction, now: Duration) -> (r: SupervisionStep)
        requires
            old(self).wf(),
            old(self).stage == SupervisionStage::Resuming,
        ensures
            final(self).wf(),
            ({
                let record = old(self).completed_record(old(self).facts->0, now@);
                match after {
                    RestartAction::Wait { .. } => *final(self) == (Supervision {
                        stage: SupervisionStage::Over,
                        ..*old(self)
                    }) && r == SupervisionStep::InvalidTransition,
                    RestartAction::Launch { half_open } => *final(self) == (Supervision {
                        stage: SupervisionStage::Ready,
                        kind: old(self).next_kind(half_open),
                        total: record.number,
                        ..*old(self)
                    }) && r == SupervisionStep::RecordAndGoOn(record),
                    RestartAction::Stop => *final(self) == (Supervision {
                        stage: SupervisionStage::Over,
                        total: record.number,
                        ..*old(self)
                    }) && r == SupervisionStep::RecordAndEnd(
                        record,
                        match old(self).outside {
                            Some(evidence) => SupervisionEnd::Deadline(evidence),
                            None => SupervisionEnd::Outcome { attempt_number: record.number },
                        },
                    ),
                }
            }),
    {
        match after {
            RestartAction::Wait { .. } => {
                self.stage = SupervisionStage::Over;
                SupervisionStep::InvalidTransition
            },
            RestartAction::Launch { half_open } => {
                let record = self.record(self.facts.unwrap(), now);
                self.total = record.number;
                self.kind = if half_open || self.wait_kind == RestartWaitKind::CircuitCooldown {
                    AttemptKind::HalfOpen
                } else {
                    AttemptKind::Restart
                };
                self.stage = SupervisionStage::Ready;
                SupervisionStep::RecordAndGoOn(record)
            },
            RestartAction::Stop => {
                let record = self.record(self.facts.unwrap(), now);
                self.total = record.number;
                self.stage = SupervisionStage::Over;
                let end = match self.outside {
                    Some(evidence) => SupervisionEnd::Deadline(evidence),
                    None => SupervisionEnd::Outcome { attempt_number: record.number },
                };
                SupervisionStep::RecordAndEnd(record, end)
            },
        }
    }
}

/// No attempt follows once the supervision's deadline has passed: the wait before
/// it ends as expired, and an attempt that would start then does not.
pub proof fn expired_supervision_starts_nothing(s: Supervision, now: nat)
    requires
        s.remaining(s.wait_started@) is Some,
        floor_sub(now, s.wait_started@) >= s.remaining(s.wait_started@)->0,
        now >= s.wait_started@ >= s.origin->0@,
    ensures
        s.completion(false, now) == WaitCompletion::SupervisionDeadline,
        s.remaining(now) == Some(0nat),
{
}

} // verus!
