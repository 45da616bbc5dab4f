//! The course of a supervision, and which backend serves it.

use vstd::prelude::*;

use crate::backend::{BackendInfo, BoundaryCapability, Platform, SealedAvailability};
use crate::evidence::{
    BoundaryMechanismEvidence, Error, ErrorCategory, LaunchEvidence, RestartSafetyProof, RunOutcome,
};
use crate::policy::{
    AttemptContext, BoundaryClass, BoundaryRequirement, DeadlineScope, Metric, Policy,
};
use crate::supervision::{
    boundary_failure_detail, error_record, launch_from_error, proof_from_error,
    sealed_deadline_rejection_is_outside_attempt, AttemptFacts, AttemptKind, AttemptPhase,
    RestartAction, RestartWaitKind, Supervision, SupervisionEnd, SupervisionErrorRecord,
    SupervisionStage, SupervisionStep, WaitCompletion,
};
use crate::supervisor::{
    backend_selection_matches, capabilities, capabilities_for, deadline_origin,
    outside_deadline_evidence, restart_condition, supervision_remaining, unsupported_capability,
    validate_resolved_backend, watchdog_metric, BackendCapabilityReport, RestartCondition,
    RestartConditions, SupervisionDeadlineEvidence, SupervisionPhase,
};
use crate::time::Duration;

verus! {

/// An attempt that went over its memory limit asks for a restart on that ground, one that
/// went over its own deadline on that one, and nothing else asks for any.
pub proof fn restarts_follow_limits_and_attempt_deadlines(
    outcome: &RunOutcome,
    r: Option<RestartCondition>,
)
    requires
        call_ensures(restart_condition, (outcome,), r),
    ensures
        r == Some(RestartCondition::MemoryLimit) <==> (*outcome matches RunOutcome::LimitExceeded {
            ..
        }),
        r == Some(RestartCondition::Deadline) <==> (*outcome matches RunOutcome::DeadlineExceeded {
            deadline,
            ..
        } && deadline.scope == DeadlineScope::Attempt),
        (*outcome matches RunOutcome::Exited { .. }) ==> r is None,
        (*outcome matches RunOutcome::Interrupted { .. }) ==> r is None,
        (*outcome matches RunOutcome::MonitorFailed { .. }) ==> r is None,
        (*outcome matches RunOutcome::DeadlineExceeded { deadline, .. } && deadline.scope
            == DeadlineScope::Supervision) ==> r is None,
{
}

/// Whether two boundaries are the same, fact by fact.
pub open spec fn same_boundary(a: BoundaryCapability, b: BoundaryCapability) -> bool {
    &&& a.class == b.class
    &&& a.mechanism@ == b.mechanism@
    &&& a.target_gated == b.target_gated
    &&& a.boundary_verified_before_authorization == b.boundary_verified_before_authorization
    &&& a.target_can_reconfigure_boundary == b.target_can_reconfigure_boundary
    &&& a.frontend_loss_cleanup_authority == b.frontend_loss_cleanup_authority
    &&& a.workload_empty_proof == b.workload_empty_proof
    &&& a.limitations@.len() == b.limitations@.len()
    &&& forall|i: int|
        0 <= i < a.limitations@.len() ==> (#[trigger] a.limitations@[i])@ == b.limitations@[i]@
}

/// A sealed request gets the boundary of the sealed provider where there is one, and the
/// report then passes for a sealed policy if that boundary is sealed.
pub proof fn sealed_requests_get_the_sealed_boundary(
    platform: Platform,
    info: &BackendInfo,
    capability: BoundaryCapability,
    r: BackendCapabilityReport,
    policy: &Policy,
    v: Result<(), Error>,
)
    requires
        call_ensures(capabilities_for, (platform, info, BoundaryRequirement::Sealed), r),
        info.boundary_support.sealed matches SealedAvailability::Available { capability: c, .. } && c
            == capability,
        call_ensures(validate_resolved_backend, (policy, &Some(r)), v),
        policy.boundary == BoundaryRequirement::Sealed,
    ensures
        same_boundary(r.boundary, capability),
        r.sealed_unavailable is None && r.boundary_qualification is Some,
        capability.class == BoundaryClass::Sealed && info.name@.len() > 0 ==> v is Ok,
        capability.class != BoundaryClass::Sealed ==> (v matches Err(error) && error.code
            == "MCBACKEND-SELECTION-MISMATCH"),
{
    same_views_same_boundaries(r.boundary, capability);
}

/// Boundaries with the same view are the same.
proof fn same_views_same_boundaries(a: BoundaryCapability, b: BoundaryCapability)
    requires
        a@ == b@,
    ensures
        same_boundary(a, b),
{
    assert(a@.limitations.len() == a.limitations@.len());
    assert(b@.limitations.len() == b.limitations@.len());
    assert forall|i: int| 0 <= i < a.limitations@.len() implies (#[trigger] a.limitations@[i])@
        == b.limitations@[i]@ by {
        assert(a@.limitations[i] == a.limitations@[i]@);
        assert(b@.limitations[i] == b.limitations@[i]@);
    }
}

/// A sealed request without a provider gets no boundary: the report says why, lists each
/// prerequisite, and does not pass for any policy.
pub proof fn sealed_requests_without_a_provider_get_none(
    platform: Platform,
    info: &BackendInfo,
    r: BackendCapabilityReport,
    policy: &Policy,
    v: Result<(), Error>,
)
    requires
        call_ensures(capabilities_for, (platform, info, BoundaryRequirement::Sealed), r),
        info.boundary_support.sealed is Unavailable,
        call_ensures(validate_resolved_backend, (policy, &Some(r)), v),
    ensures
        r.boundary.class == BoundaryClass::Unavailable,
        v is Err,
        info.boundary_support.sealed matches SealedAvailability::Unavailable {
            reason,
            prerequisites,
        } && {
            &&& r.boundary.limitations@.len() == 1 + prerequisites@.len()
            &&& r.boundary.limitations@[0]@ == reason@
            &&& forall|i: int|
                0 <= i < prerequisites@.len() ==> (#[trigger] r.boundary.limitations@[i + 1])@
                    == "prerequisite: "@ + prerequisites@[i]@
            &&& r.sealed_unavailable matches Some(report) && report.reason@ == reason@
            && report.prerequisites@.len() == prerequisites@.len()
        },
        r.boundary_qualification is None,
        !r.boundary.target_gated && !r.boundary.boundary_verified_before_authorization
            && !r.boundary.frontend_loss_cleanup_authority && !r.boundary.workload_empty_proof,
{
    let reason = info.boundary_support.sealed->reason;
    let prerequisites = info.boundary_support.sealed->prerequisites;
    assert(r@.boundary.limitations.len() == 1 + prerequisites@.len());
    assert(r@.boundary.limitations[0] == r.boundary.limitations@[0]@);
    assert forall|i: int| 0 <= i < prerequisites@.len() implies (
    #[trigger] r.boundary.limitations@[i + 1])@ == "prerequisite: "@ + prerequisites@[i]@ by {
        assert(r@.boundary.limitations[i + 1] == r.boundary.limitations@[i + 1]@);
    }
    let report = r.sealed_unavailable->0;
    assert(crate::model::texts(report.prerequisites@).len() == report.prerequisites@.len());
}

/// A standard request gets the standard boundary, sealed provider or not.
pub proof fn standard_requests_get_the_standard_boundary(
    platform: Platform,
    info: &BackendInfo,
    a: BackendCapabilityReport,
    b: BackendCapabilityReport,
    policy: &Policy,
    v: Result<(), Error>,
)
    requires
        call_ensures(capabilities_for, (platform, info, BoundaryRequirement::Standard), a),
        call_ensures(capabilities, (platform, info), b),
        call_ensures(validate_resolved_backend, (policy, &Some(a)), v),
        policy.boundary == BoundaryRequirement::Standard,
    ensures
        same_boundary(a.boundary, info.boundary_support.standard),
        same_boundary(b.boundary, info.boundary_support.standard),
        info.boundary_support.standard.class == BoundaryClass::Standard && info.name@.len() > 0
            ==> v is Ok,
{
    same_views_same_boundaries(a.boundary, info.boundary_support.standard);
    same_views_same_boundaries(b.boundary, info.boundary_support.standard);
}

/// A report names its backend, its memory limit's class and metric, both scopes of a
/// deadline and the moment from which it counts.
pub proof fn reports_tell_what_the_backend_can_do(
    platform: Platform,
    info: &BackendInfo,
    requirement: BoundaryRequirement,
    r: BackendCapabilityReport,
)
    requires
        call_ensures(capabilities_for, (platform, info, requirement), r),
    ensures
        r.name@ == info.name@,
        r.containment.supported == info.containment_supported,
        r.memory matches Some(memory) && memory.supported == info.memory_supported
            && memory.class@ == info.class@ && memory.metric@ == info.metric@,
        r.deadline.supported && r.restart.supported,
        r.deadline_scopes@.len() == 2 && r.deadline_scopes@[0] == DeadlineScope::Attempt
            && r.deadline_scopes@[1] == DeadlineScope::Supervision,
        r.restart_conditions == RestartConditions::Both,
        !r.persistent_restart_state,
        r.startup_containment@ == info.startup_containment@,
        r.limitations@.len() == info.limitations@.len(),
        forall|i: int|
            0 <= i < info.limitations@.len() ==> (#[trigger] r.limitations@[i])@
                == info.limitations@[i]@,
        r.deadline_origin matches Some(origin) && match platform {
            Platform::Linux => origin@ == "installed-cli-release-byte"@,
            Platform::MacOs => origin@ == "pre-spawn"@,
            Platform::Windows => origin@ == "suspended-thread-resume"@,
            _ => origin@ == "unsupported"@,
        },
        info.boundary_support.sealed matches SealedAvailability::Available { qualification, .. } ==> (
        r.boundary_qualification matches Some(told) && told.provider_identity@
            == qualification.provider_identity@ && told.receipt_digest@
            == qualification.receipt_digest@ && told.mechanism@ == qualification.mechanism@),
{
    assert(r@.limitations.len() == info.limitations@.len());
    assert forall|i: int| 0 <= i < info.limitations@.len() implies (#[trigger] r.limitations@[i])@
        == info.limitations@[i]@ by {
        assert(r@.limitations[i] == r.limitations@[i]@);
    }
}

/// A backend that is not known claims nothing, and passes for no policy.
pub proof fn unresolved_reports_claim_nothing(
    r: BackendCapabilityReport,
    policy: &Policy,
    v: Result<(), Error>,
)
    requires
        call_ensures(unsupported_capability, (), r),
        call_ensures(validate_resolved_backend, (policy, &Some(r)), v),
    ensures
        v is Err,
        !r.containment.supported && !r.deadline.supported && !r.restart.supported,
        r.memory is None && r.restart_conditions == RestartConditions::Neither,
        r.boundary.class == BoundaryClass::Unavailable,
{
}

/// A policy without a resolved backend runs just where it asks for a standard boundary; with
/// one, just where that backend has a name and the boundary that was asked for.
pub proof fn backends_must_have_the_requested_boundary(
    policy: &Policy,
    backend: BackendCapabilityReport,
    some: Result<(), Error>,
    none: Result<(), Error>,
)
    requires
        call_ensures(validate_resolved_backend, (policy, &Some(backend)), some),
        call_ensures(validate_resolved_backend, (policy, &None::<BackendCapabilityReport>), none),
    ensures
        none is Ok <==> policy.boundary == BoundaryRequirement::Standard,
        none matches Err(error) ==> error.code == "MCBOUNDARY-UNSUPPORTED" && !error.target_released,
        some is Ok <==> backend.name@.len() > 0 && (policy.boundary == BoundaryRequirement::Standard
            && backend.boundary.class == BoundaryClass::Standard || policy.boundary
            == BoundaryRequirement::Sealed && backend.boundary.class == BoundaryClass::Sealed),
        some matches Err(error) ==> error.code == "MCBACKEND-SELECTION-MISMATCH",
{
}

/// A backend that ran matches the selected one only where nothing differs but the metric of
/// a watchdog, which the policy may choose.
pub proof fn backends_may_differ_in_the_watchdog_metric_only(
    selected: &BackendCapabilityReport,
    observed: &BackendCapabilityReport,
    metric: Metric,
    r: bool,
)
    requires
        call_ensures(backend_selection_matches, (selected, observed, metric), r),
    ensures
        r ==> selected.name@ == observed.name@ && selected.boundary@ == observed.boundary@
            && selected.containment@ == observed.containment@ && selected.deadline@
            == observed.deadline@ && selected.restart@ == observed.restart@
            && selected.startup_containment@ == observed.startup_containment@
            && selected.restart_conditions == observed.restart_conditions
            && selected.deadline_scopes@ == observed.deadline_scopes@,
        r ==> (selected.memory is Some <==> observed.memory is Some),
        r && metric == Metric::Native && selected.memory is Some ==> selected.memory->0.metric@
            == observed.memory->0.metric@,
        r && metric == Metric::Rss && selected.memory is Some && selected.memory->0.class@
            == "watchdog"@ ==> observed.memory->0.metric@ == "rss-sum"@,
        r && metric == Metric::Virtual && selected.memory is Some && selected.memory->0.class@
            == "watchdog"@ ==> observed.memory->0.metric@ == "virtual-size-sum"@,
        r && selected.memory is Some ==> selected.memory->0.class@ == observed.memory->0.class@
            && selected.memory->0.supported == observed.memory->0.supported,
        selected@ == observed@ && metric == Metric::Native ==> r,
{
    if r {
        assert(selected@.name == observed@.name);
        assert(selected@.boundary == observed@.boundary);
        assert(selected@.deadline_scopes == observed@.deadline_scopes);
        assert(selected@.containment == observed@.containment);
        assert(selected@.deadline == observed@.deadline);
        assert(selected@.restart == observed@.restart);
        assert(selected@.startup_containment == observed@.startup_containment);
        assert(selected@.restart_conditions == observed@.restart_conditions);
        let o = observed@.memory;
        let s = selected@.memory;
        assert(crate::supervisor::expected_memory(s, metric) == o);
        if selected.memory is Some {
            assert(s == Some(selected.memory->0@));
            assert(o is Some);
            assert(o == Some(observed.memory->0@));
        }
    }
}

/// What the metrics of a watchdog are called.
pub proof fn metrics_are_named(metric: Metric, r: &'static str)
    requires
        call_ensures(watchdog_metric, (metric,), r),
    ensures
        metric == Metric::Rss ==> r == "rss-sum",
        metric == Metric::Virtual ==> r == "virtual-size-sum",
        metric == Metric::Native || metric == Metric::PhysicalFootprint ==> r
            == "physical-footprint-sum",
{
}

/// What a supervision's deadline leaves: nothing bounds one that has not begun or that has
/// no such deadline; else what was not used since it began, and never less than nothing.
pub proof fn what_is_left_and_what_was_used_add_up(
    policy: &Policy,
    origin: Option<Duration>,
    elapsed: Duration,
    r: Option<Duration>,
)
    requires
        call_ensures(supervision_remaining, (policy, origin, elapsed), r),
    ensures
        origin is None || policy.deadline is None ==> r is None,
        policy.deadline matches Some(deadline) && deadline.scope == DeadlineScope::Attempt
            ==> r is None,
        (origin matches Some(begun) && begun@ <= elapsed@) && (policy.deadline matches Some(
            deadline,
        ) && deadline.scope == DeadlineScope::Supervision) ==> (r matches Some(left) && {
            let used = elapsed@ - origin->0@;
            let whole = policy.deadline->0.duration@;
            &&& used <= whole ==> left@ + used == whole
            &&& used > whole ==> left@ == 0
        }),
{
}

/// An attempt starts just where the supervision has time left, and is told how much; where
/// none is left the supervision ends with evidence of it.
pub proof fn attempts_start_while_time_is_left(
    s: &mut Supervision,
    now: Duration,
    accepted: bool,
    r: SupervisionStep,
    left: Option<Duration>,
)
    requires
        old(s).wf(),
        old(s).stage == SupervisionStage::Ready,
        call_ensures(Supervision::next_attempt, (s, now, accepted), r),
        call_ensures(supervision_remaining, (&old(s).policy, old(s).origin, now), left),
    ensures
        (left is None || left->0@ > 0) ==> final(s).stage == SupervisionStage::Executing && final(
            s).attempt_started == now && (r matches SupervisionStep::Execute(context)
            && context.supervision_offset == now && (
        context.supervision_deadline_remaining is Some <==> left is Some) && (
        left matches Some(span) ==> context.supervision_deadline_remaining->0@ == span@)),
        (left matches Some(span) && span@ == 0) ==> final(s).stage == SupervisionStage::Over,
        (left matches Some(span) && span@ == 0) && accepted ==> (
        r matches SupervisionStep::EndOutside(evidence) && evidence.evidence.scope
            == DeadlineScope::Supervision && evidence.evidence.observed_ms
            >= evidence.evidence.expires_ms && evidence.terminal_phase
            == SupervisionPhase::Backoff),
        (left matches Some(span) && span@ == 0) && !accepted ==> (r matches SupervisionStep::Fail(
            error,
        ) && error.code == "MCSUPERVISION-DEADLINE-EVIDENCE"),
        final(s).total == old(s).total && final(s).kind == old(s).kind && final(
            s).targets_authorized == old(s).targets_authorized,
{
}

/// An attempt with a trigger asks the restart controller where the supervision restarts;
/// any other ends the supervision with its outcome. Either way the target counts as
/// authorized.
pub proof fn triggers_ask_for_restarts(
    s: &mut Supervision,
    observed: BackendCapabilityReport,
    facts: AttemptFacts,
    given_back: &RestartSafetyProof,
    now: Duration,
    r: SupervisionStep,
)
    requires
        old(s).wf(),
        old(s).stage == SupervisionStage::Executing,
        call_ensures(Supervision::attempt_completed, (s, observed, facts, given_back, now), r),
        old(s).backend is None,
        old(s).targets_authorized < u64::MAX && old(s).total < u64::MAX,
    ensures
        final(s).targets_authorized == old(s).targets_authorized + 1,
        old(s).restarts && facts.trigger is Some ==> r == SupervisionStep::Ask(facts.trigger->0)
            && final(s).stage == SupervisionStage::Asking && final(s).total == old(s).total,
        !old(s).restarts || facts.trigger is None ==> (r matches SupervisionStep::RecordAndEnd(
            record,
            SupervisionEnd::Outcome { attempt_number },
        ) && record.number == old(s).total + 1 && attempt_number == record.number && record.phase
            == AttemptPhase::Completed && record.kind == old(s).kind && record.target_pid == Some(
            facts.child_pid,
        )) && final(s).stage == SupervisionStage::Over && final(s).total == old(s).total + 1,
        final(s).backend == Some(observed),
        old(s).origin is Some ==> final(s).origin is Some && final(s).origin->0@ == old(
            s).origin->0@,
        old(s).origin is None && facts.authorization_offset is Some ==> (final(
            s).origin matches Some(begun) && begun@ == old(s).attempt_started@
            + facts.authorization_offset->0@),
        old(s).origin is None && facts.authorization_offset is None ==> final(s).origin is None,
{
}

/// A backend that differs from the selected one ends the supervision, and with it goes what
/// is known of the workload's end.
pub proof fn drifted_backends_end_the_supervision(
    s: &mut Supervision,
    observed: BackendCapabilityReport,
    facts: AttemptFacts,
    given_back: &RestartSafetyProof,
    now: Duration,
    r: SupervisionStep,
    matched: bool,
)
    requires
        old(s).wf(),
        old(s).stage == SupervisionStage::Executing,
        call_ensures(Supervision::attempt_completed, (s, observed, facts, given_back, now), r),
        old(s).backend is Some,
        call_ensures(
            backend_selection_matches,
            (&old(s).backend->0, &observed, old(s).policy.metric),
            matched,
        ),
    ensures
        !matched ==> final(s).stage == SupervisionStage::Over && (r matches SupervisionStep::Fail(
            error,
        ) && error.code == "MCBACKEND-SELECTION-DRIFT" && (error.restart_safety matches Some(proof)
            && proof@ == given_back@)),
        matched && old(s).targets_authorized < u64::MAX && old(s).total < u64::MAX
            ==> !(r is Fail) && final(s).targets_authorized == old(s).targets_authorized + 1,
{
}

/// The controller's wait is kept, cut to what the supervision has left; a controller that
/// does not wait ends the supervision with the attempt's outcome.
pub proof fn answers_are_kept(
    s: &mut Supervision,
    action: RestartAction,
    now: Duration,
    r: SupervisionStep,
    left: Option<Duration>,
)
    requires
        old(s).wf(),
        old(s).stage == SupervisionStage::Asking,
        call_ensures(Supervision::answered, (s, action, now), r),
        call_ensures(supervision_remaining, (&old(s).policy, old(s).origin, now), left),
    ensures
        action matches RestartAction::Wait { duration, kind } ==> final(s).stage
            == SupervisionStage::Waiting && final(s).wait_kind == kind && final(s).wait_started
            == now && final(s).total == old(s).total && (r matches SupervisionStep::Wait(wait)
            && wait@ <= duration@ && (left is None ==> wait@ == duration@) && (left matches Some(
            span,
        ) ==> wait@ <= span@ && (wait@ == duration@ || wait@ == span@))),
        !(action is Wait) ==> final(s).stage == SupervisionStage::Over && final(s).total == old(
            s).total + 1 && (r matches SupervisionStep::RecordAndEnd(
            record,
            SupervisionEnd::Outcome { attempt_number },
        ) && attempt_number == old(s).total + 1 && record.number == old(s).total + 1),
{
}

/// A wait is told as it went: interrupted, cut by the deadline, or done.
pub proof fn waits_are_told_as_they_went(
    s: &mut Supervision,
    interrupted: bool,
    now: Duration,
    accepted: bool,
    r: SupervisionStep,
    left: Option<Duration>,
)
    requires
        old(s).wf(),
        old(s).stage == SupervisionStage::Waiting,
        call_ensures(Supervision::waited, (s, interrupted, now, accepted), r),
        call_ensures(supervision_remaining, (&old(s).policy, old(s).origin, old(s).wait_started), left),
        now@ >= old(s).wait_started@,
    ensures
        ({
            let cut = left matches Some(span) && now@ - old(s).wait_started@ >= span@;
            &&& interrupted ==> (r matches SupervisionStep::Complete { completion, .. } && completion
                == WaitCompletion::Interrupted) && final(s).outside is None
            &&& !interrupted && !cut ==> (r matches SupervisionStep::Complete { completion, .. }
                && completion == WaitCompletion::Completed) && final(s).outside is None
            &&& !interrupted && cut && accepted ==> (r matches SupervisionStep::Complete {
                completion,
                ..
            } && completion == WaitCompletion::SupervisionDeadline) && (final(
                s).outside matches Some(evidence) && (evidence.terminal_phase
                == SupervisionPhase::Cooldown <==> old(s).wait_kind
                == RestartWaitKind::CircuitCooldown) && (evidence.terminal_phase
                == SupervisionPhase::Backoff <==> old(s).wait_kind == RestartWaitKind::Backoff))
            &&& !interrupted && cut && !accepted ==> (r matches SupervisionStep::Fail(error)
                && error.code == "MCSUPERVISION-DEADLINE-EVIDENCE") && final(s).stage
                == SupervisionStage::Over
            &&& r matches SupervisionStep::Complete { waited, .. } ==> waited@ == now@ - old(
                s).wait_started@ && final(s).stage == SupervisionStage::Resuming
        }),
{
}

/// After a wait a launch goes on with the next attempt, a stop ends the supervision, by its
/// deadline where that cut the wait; every attempt is recorded once, by the next number.
pub proof fn resumptions_go_on_or_end(
    s: &mut Supervision,
    after: RestartAction,
    now: Duration,
    r: SupervisionStep,
    facts: AttemptFacts,
)
    requires
        old(s).wf(),
        old(s).stage == SupervisionStage::Resuming,
        old(s).facts == Some(facts),
        call_ensures(Supervision::resumed, (s, after, now), r),
    ensures
        after matches RestartAction::Launch { half_open } ==> final(s).stage
            == SupervisionStage::Ready && final(s).total == old(s).total + 1 && (
        r matches SupervisionStep::RecordAndGoOn(record) && record.number == old(s).total + 1
            && record.kind == old(s).kind && record.phase == AttemptPhase::Completed
            && record.target_pid == Some(facts.child_pid)) && (final(s).kind
            == AttemptKind::HalfOpen <==> half_open || old(s).wait_kind
            == RestartWaitKind::CircuitCooldown) && (final(s).kind == AttemptKind::Restart
            <==> !half_open && old(s).wait_kind == RestartWaitKind::Backoff),
        after is Stop ==> final(s).stage == SupervisionStage::Over && final(s).total == old(s).total
            + 1 && (r matches SupervisionStep::RecordAndEnd(record, end) && record.number == old(
            s).total + 1 && (match old(s).outside {
            Some(evidence) => end == SupervisionEnd::Deadline(evidence),
            None => end == (SupervisionEnd::Outcome { attempt_number: record.number }),
        })),
        after is Wait ==> r == SupervisionStep::InvalidTransition && final(s).stage
            == SupervisionStage::Over,
        final(s).targets_authorized == old(s).targets_authorized && final(s).origin == old(
            s).origin,
{
}

/// A record tells when its attempt started, was authorized, ended and was done with, in whole
/// milliseconds since the supervision's start.
pub proof fn records_tell_the_times(
    s: &mut Supervision,
    now: Duration,
    r: SupervisionStep,
    facts: AttemptFacts,
)
    requires
        old(s).wf(),
        old(s).stage == SupervisionStage::Resuming,
        old(s).facts == Some(facts),
        call_ensures(Supervision::resumed, (s, RestartAction::Stop, now), r),
        old(s).attempt_started@ + facts.duration@ <= u64::MAX,
        now@ <= u64::MAX,
        facts.authorization_offset matches Some(offset) ==> old(s).attempt_started@ + offset@
            <= u64::MAX,
    ensures
        r matches SupervisionStep::RecordAndEnd(record, _) && {
            &&& record.started_offset_ms as nat == old(s).attempt_started@ / 1_000_000
            &&& record.terminal_offset_ms matches Some(end) && end as nat == (old(
                s).attempt_started@ + facts.duration@) / 1_000_000
            &&& record.finished_offset_ms as nat == now@ / 1_000_000
            &&& record.authorized_offset_ms is Some <==> facts.authorization_offset is Some
            &&& facts.authorization_offset matches Some(offset)
                ==> record.authorized_offset_ms->0 as nat == (old(s).attempt_started@ + offset@)
                / 1_000_000
        },
{
}

/// An attempt that failed ends the supervision with a record of it; its target counts as
/// authorized just where it was released.
pub proof fn failures_end_the_supervision(
    s: &mut Supervision,
    error: &Error,
    safe: bool,
    now: Duration,
    accepted: bool,
    r: SupervisionStep,
)
    requires
        old(s).wf(),
        old(s).stage == SupervisionStage::Executing,
        call_ensures(Supervision::attempt_failed, (s, error, safe, now, accepted), r),
        old(s).total < u64::MAX && old(s).targets_authorized < u64::MAX,
        error.code@ != "MCSUPERVISION-DEADLINE-BEFORE-AUTHORIZATION"@,
        error.provider_rejection is None,
    ensures
        final(s).stage == SupervisionStage::Over,
        error.target_released == error.authorization_offset is Some ==> (
        r matches SupervisionStep::EndFailed(record) && record.number == old(s).total + 1
            && record.phase == AttemptPhase::Failed && record.kind == old(s).kind
            && record.target_pid == error.target_pid && record.terminal_offset_ms is None)
            && final(s).total == old(s).total + 1 && (error.target_released ==> final(
            s).targets_authorized == old(s).targets_authorized + 1) && (!error.target_released
            ==> final(s).targets_authorized == old(s).targets_authorized),
        error.target_released != error.authorization_offset is Some ==> (
        r matches SupervisionStep::Fail(e) && e.code == "MCRESTART-AUTHORIZATION-EVIDENCE"),
{
}

/// An attempt that the supervision's deadline cut off before its target was authorized is
/// no failed attempt: the supervision ends by its deadline, and nothing is counted.
pub proof fn cut_off_attempts_are_not_counted(
    s: &mut Supervision,
    error: &Error,
    safe: bool,
    now: Duration,
    r: SupervisionStep,
)
    requires
        old(s).wf(),
        old(s).stage == SupervisionStage::Executing,
        call_ensures(Supervision::attempt_failed, (s, error, safe, now, true), r),
        error.code@ == "MCSUPERVISION-DEADLINE-BEFORE-AUTHORIZATION"@,
    ensures
        r matches SupervisionStep::EndOutside(evidence) && evidence.terminal_phase
            == SupervisionPhase::AttemptSetup && evidence.evidence.scope
            == DeadlineScope::Supervision,
        final(s).total == old(s).total && final(s).targets_authorized == old(s).targets_authorized,
{
}

/// A provider's rejection passes for the supervision's deadline only where that deadline
/// bounds the attempt, the provider refused to authorize, its target was never released and
/// everything is given back.
pub proof fn rejections_pass_for_deadlines_with_proof_only(
    policy: &Policy,
    context: AttemptContext,
    error: &Error,
    safe: bool,
    r: bool,
)
    requires
        call_ensures(
            sealed_deadline_rejection_is_outside_attempt,
            (policy, context, error, safe),
            r,
        ),
        r,
    ensures
        policy.deadline matches Some(deadline) && deadline.scope == DeadlineScope::Supervision,
        context.supervision_deadline_remaining is Some,
        safe && !error.target_released && !error.workload_may_be_alive,
        error.authorization_offset is None,
        error.code@ == "MCSEALED-PROVIDER-REJECTION"@,
        error.provider_rejection matches Some(rejection) && rejection.code@
            == "MCSEALED-AUTHORIZATION"@ && !rejection.target_released
            && rejection.cleanup_attempted && rejection.schema_version == 1 && error.os_code
            == rejection.os_code,
        error.boundary_setup_failure matches Some(failure) && failure.requested
            == BoundaryRequirement::Sealed && !failure.target_released,
{
    assert(error@.provider_rejection is Some);
    assert(error@.boundary_setup_failure is Some);
}

/// What an error says stays in its record; a spawn failure is told of the initial attempt
/// alone.
pub proof fn records_keep_the_error(
    error: &Error,
    attempt_number: Option<u64>,
    phase: SupervisionPhase,
    kind: AttemptKind,
    r: SupervisionErrorRecord,
)
    requires
        call_ensures(error_record, (error, attempt_number, phase, kind), r),
    ensures
        r.code == error.code && r.message@ == error.message@ && r.os_code == error.os_code,
        r.attempt_number == attempt_number && r.supervision_phase == phase,
        r.launch_phase == error.launch_phase && r.target_released == error.target_released,
        r.workload_may_be_alive == error.workload_may_be_alive,
        kind == AttemptKind::Initial ==> r.initial_spawn_failure == error.initial_spawn_failure,
        kind != AttemptKind::Initial ==> r.initial_spawn_failure is None,
        r.provider_rejection is Some <==> error.provider_rejection is Some,
        error.category == ErrorCategory::Usage ==> r.category == "usage",
        error.category == ErrorCategory::Unsupported ==> r.category == "unsupported",
        error.category == ErrorCategory::Setup ==> r.category == "setup",
        error.category == ErrorCategory::Monitor ==> r.category == "monitor",
{
    assert(crate::evidence::opt_rejection(r.provider_rejection) is Some
        <==> r.provider_rejection is Some);
    assert(crate::evidence::opt_rejection(error.provider_rejection) is Some
        <==> error.provider_rejection is Some);
}

/// What an error proved of the workload's end is what a restart goes by; without it nothing
/// is proved.
pub proof fn proofs_come_from_the_error(error: &Error, r: RestartSafetyProof)
    requires
        call_ensures(proof_from_error, (error,), r),
    ensures
        error.restart_safety matches Some(proof) ==> r.direct_child_reaped
            == proof.direct_child_reaped && r.workload_empty == proof.workload_empty
            && r.helpers_reaped == proof.helpers_reaped && r.containment_removed
            == proof.containment_removed && r.containment_incapable_of_live_members
            == proof.containment_incapable_of_live_members && r.sealed_boundary_retired
            == proof.sealed_boundary_retired && r.errors@.len() == proof.errors@.len(),
        error.restart_safety is None ==> !r.direct_child_reaped && r.workload_empty is None
            && !r.helpers_reaped && !r.containment_removed
            && !r.containment_incapable_of_live_members && !r.sealed_boundary_retired
            && r.errors@.len() == 1,
{
    assert(r@.errors.len() == r.errors@.len());
    if error.restart_safety is Some {
        assert(error.restart_safety->0@.errors.len() == error.restart_safety->0.errors@.len());
    }
}

/// A launch that failed claims a sealed boundary only where one was asked for and its target
/// was released, and nothing of a boundary where none was asked for.
pub proof fn failed_launches_claim_no_boundary(
    platform: Platform,
    error: &Error,
    requested: BoundaryRequirement,
    backend: &Option<BackendCapabilityReport>,
    r: LaunchEvidence,
)
    requires
        call_ensures(launch_from_error, (platform, error, requested, backend), r),
    ensures
        r.target_released == error.target_released,
        r.boundary_requested == requested,
        r.containment_verified_before_authorization == error.cgroup_verified_before_release,
        r.guardian_started_before_authorization == error.guardian_ready_before_release,
        r.boundary_effective == BoundaryClass::Sealed <==> requested == BoundaryRequirement::Sealed
            && error.target_released,
        r.boundary_effective == BoundaryClass::Standard <==> requested
            == BoundaryRequirement::Standard,
        r.boundary_assignment_verified <==> requested == BoundaryRequirement::Sealed
            && error.cgroup_verified_before_release,
        r.boundary_reconfiguration_denied <==> requested == BoundaryRequirement::Sealed
            && error.cgroup_verified_before_release,
        r.inherited_resources_restricted <==> requested == BoundaryRequirement::Sealed
            && error.cgroup_verified_before_release,
        r.frontend_loss_cleanup_authority_verified <==> requested == BoundaryRequirement::Sealed
            && error.guardian_ready_before_release,
        (backend matches Some(report) && report.boundary.mechanism@.len() > 0) ==> r.mechanism@
            == backend->0.boundary.mechanism@,
        backend is None && platform == Platform::Linux ==> r.mechanism@
            == "installed-cli-launcher-release-gate"@,
        backend is None && platform == Platform::MacOs ==> r.mechanism@
            == "process-group-pre-spawn"@,
        backend is None && platform == Platform::Windows ==> r.mechanism@
            == "suspended-process-job-assignment"@,
        r.target_spawn_error_reported <==> (error.launch_phase matches Some(phase) && phase@
            == "target-spawn-failed"@),
{
}

/// Evidence of a deadline that passed between attempts tells the policy's duration, when it
/// fell, and a moment of seeing it that is never before that; it forced nothing.
pub proof fn deadlines_outside_are_told_with_their_times(
    platform: Platform,
    policy: &Policy,
    origin: Option<Duration>,
    observed: Duration,
    phase: SupervisionPhase,
    accepted: bool,
    r: Result<Option<SupervisionDeadlineEvidence>, Error>,
)
    requires
        call_ensures(
            outside_deadline_evidence,
            (platform, policy, origin, observed, phase, accepted),
            r,
        ),
    ensures
        origin is None || policy.deadline is None ==> r == Ok::<
            Option<SupervisionDeadlineEvidence>,
            Error,
        >(None),
        (policy.deadline matches Some(deadline) && (origin matches Some(begun) && begun@
            + deadline.duration@ <= u64::MAX)) && observed@ <= u64::MAX && accepted ==> (
        r matches Ok(Some(told)) && {
            let whole = policy.deadline->0.duration@;
            let fell = origin->0@ + whole;
            &&& told.terminal_phase == phase
            &&& told.evidence.scope == DeadlineScope::Supervision
            &&& told.evidence.duration_ms as nat == whole / 1_000_000
            &&& told.evidence.expires_ms as nat == fell / 1_000_000
            &&& observed@ >= fell ==> told.evidence.observed_ms as nat == observed@ / 1_000_000
            &&& observed@ < fell ==> told.evidence.observed_ms == told.evidence.expires_ms
            &&& told.evidence.grace_used_ms == 0
            &&& told.evidence.graceful_action is None && told.evidence.forced_action is None
        }),
        policy.deadline is Some && origin is Some && !accepted ==> (r matches Err(error)
            && error.code == "MCSUPERVISION-DEADLINE-EVIDENCE"),
{
}

/// A boundary that could not be set up is named by the mechanism that failed, else by the
/// backend's.
pub proof fn boundary_failures_are_named(
    error: &Error,
    requested: BoundaryRequirement,
    backend: &Option<BackendCapabilityReport>,
    r: BoundaryMechanismEvidence,
)
    requires
        call_ensures(boundary_failure_detail, (error, requested, backend), r),
    ensures
        error.boundary_setup_failure is Some || requested == BoundaryRequirement::Sealed ==> (
        r matches BoundaryMechanismEvidence::SetupFailure { requested: told, .. } && told
            == requested),
        error.boundary_setup_failure is None && requested == BoundaryRequirement::Standard ==> (
        r matches BoundaryMechanismEvidence::Standard { .. }),
        (error.boundary_setup_failure matches Some(failure) && failure.mechanism is Some) ==> (
        r matches BoundaryMechanismEvidence::SetupFailure { provider_mechanism, .. }
            && provider_mechanism@ == error.boundary_setup_failure->0.mechanism->0@),
{
}

} // verus!
