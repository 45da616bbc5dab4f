use memcordon_platform::backend::{
    linux_info, standard_boundary_support, Execution, Platform,
};
use memcordon_platform::evidence::{
    BoundaryMechanismEvidence, BoundarySetupPhase, ChildTermination, Error, ErrorCategory,
    LaunchEvidence, ProviderRejectionEvidence, RestartSafetyProof, RunOutcome,
};
use memcordon_platform::model::{CleanupSummary, Fault, FaultKind, Text};
use memcordon_platform::policy::{
    AttemptContext, BoundaryClass, BoundaryRequirement, Deadline, DeadlineScope, Enforcement,
    Lifetime, Metric, Policy, SwapPolicy,
};
use memcordon_platform::supervise::{
    attempt_execution, attempt_route, controller_error, may_discover_workloads, may_plan_workload,
    may_supervise, model_error, supervise, wait_error, AttemptRoute, SupervisorRequest,
};
use memcordon_platform::supervision::{
    boundary_failure_detail, error_record, launch_from_error, proof_from_error,
    sealed_deadline_rejection_is_outside_attempt, AttemptFacts, AttemptKind, AttemptPhase,
    RestartAction, RestartWaitKind, Supervision, SupervisionEnd, SupervisionStage, SupervisionStep,
    WaitCompletion,
};
use memcordon_platform::supervisor::{
    backend_selection_matches, capabilities, capabilities_for, deadline_origin, launch_mechanism,
    outside_deadline_evidence, restart_condition, supervision_remaining, unsupported_capability,
    validate_resolved_backend, watchdog_metric, BackendCapabilityReport, RestartCondition,
    SupervisionPhase,
};
use memcordon_platform::time::Duration;

fn given_back() -> RestartSafetyProof {
    RestartSafetyProof { workload_empty: Some(true), ..RestartSafetyProof::default() }
}

fn ms(n: u64) -> Duration {
    Duration::from_millis(n)
}

fn policy(boundary: BoundaryRequirement, deadline: Option<u64>) -> Policy {
    Policy {
        memory: None,
        swap: SwapPolicy::Host,
        deadline: deadline
            .map(|n| Deadline { duration: ms(n), scope: DeadlineScope::Supervision }),
        lifetime: Lifetime::Command,
        enforcement: Enforcement::Auto,
        metric: Metric::Native,
        boundary,
        poll_interval: ms(50),
        signal_grace: Duration::zero(),
        command_exit_grace: Duration::zero(),
        limit_grace: ms(5),
    }
}

fn report() -> BackendCapabilityReport {
    let info = linux_info(standard_boundary_support("cgroup-v2", true, "none", &[]));
    capabilities(Platform::Linux, &info)
}

fn request(boundary: BoundaryRequirement) -> SupervisorRequest {
    SupervisorRequest {
        policy: policy(boundary, None),
        restarts: true,
        memcordon_executable: None,
        resolved_backend: None,
    }
}

#[test]
fn mechanisms_are_named() {
    assert_eq!(launch_mechanism(Platform::Linux), "installed-cli-launcher-release-gate");
    assert_eq!(launch_mechanism(Platform::MacOs), "process-group-pre-spawn");
    assert_eq!(launch_mechanism(Platform::Windows), "suspended-process-job-assignment");
    assert_eq!(deadline_origin(Platform::Linux), "installed-cli-release-byte");
    assert_eq!(watchdog_metric(Metric::Rss), "rss-sum");
}

#[test]
fn sealed_requests_need_a_resolved_backend() {
    let error =
        validate_resolved_backend(&policy(BoundaryRequirement::Sealed, None), &None).unwrap_err();
    assert_eq!(error.code, "MCBOUNDARY-UNSUPPORTED");
    let failure = error.boundary_setup_failure.unwrap();
    assert_eq!(failure.phase, BoundarySetupPhase::ProviderConnection);
    assert!(!failure.target_created && !failure.cleanup_attempted);
    assert!(validate_resolved_backend(&policy(BoundaryRequirement::Standard, None), &None).is_ok());
    let standard = policy(BoundaryRequirement::Standard, None);
    assert!(validate_resolved_backend(&standard, &Some(report())).is_ok());
    let sealed = policy(BoundaryRequirement::Sealed, None);
    assert_eq!(
        validate_resolved_backend(&sealed, &Some(report())).unwrap_err().code,
        "MCBACKEND-SELECTION-MISMATCH"
    );
    let mut nameless = report();
    nameless.name = String::new();
    assert!(validate_resolved_backend(&standard, &Some(nameless)).is_err());
}

#[test]
fn supervisions_start_or_say_why_not() {
    let standard = || request(BoundaryRequirement::Standard);
    let started = supervise(Platform::Linux, standard(), Ok(()), Ok(())).unwrap();
    assert_eq!(started.stage, SupervisionStage::Ready);
    let fault = || Fault {
        kind: FaultKind::Other,
        os_code: Some(22),
        text: Text::Given("invalid".to_string()),
    };
    let error = supervise(Platform::Linux, standard(), Err(fault()), Ok(())).unwrap_err();
    assert_eq!((error.code, error.os_code), ("MCSETUP-SIGNAL", Some(22)));
    let error = supervise(Platform::Windows, standard(), Err(fault()), Ok(())).unwrap_err();
    assert_eq!(error.code, "MCSETUP-CONSOLE");
    let error = supervise(Platform::Linux, standard(), Ok(()), Err("bad".into())).unwrap_err();
    assert_eq!((error.code, error.message.as_str()), ("MCRESTART-CONTROLLER", "bad"));
    let alone = SupervisorRequest { restarts: false, ..standard() };
    assert!(supervise(Platform::Linux, alone, Ok(()), Err("unused".into())).is_ok());
    assert_eq!(
        may_supervise(Platform::Other, &standard()).unwrap_err().code,
        "MCUNSUPPORTED-SUPERVISOR"
    );
    let sealed = request(BoundaryRequirement::Sealed);
    let error = supervise(Platform::Linux, sealed, Err(fault()), Ok(())).unwrap_err();
    assert_eq!(error.code, "MCBOUNDARY-UNSUPPORTED");
    assert_eq!(controller_error("x".into()).message, "x");
    assert_eq!(model_error("x".into()).code, "MCRESTART-MODEL");
    assert_eq!(wait_error(&fault()).os_code, Some(22));
}

#[test]
fn attempts_are_routed() {
    let with_helper = |boundary: BoundaryRequirement| SupervisorRequest {
        memcordon_executable: Some(b"/usr/bin/memcordon".to_vec()),
        ..request(boundary)
    };
    let standard = with_helper(BoundaryRequirement::Standard);
    let sealed = with_helper(BoundaryRequirement::Sealed);
    assert_eq!(attempt_route(Platform::Linux, &standard).unwrap(), AttemptRoute::LinuxCgroup);
    assert_eq!(attempt_route(Platform::Linux, &sealed).unwrap(), AttemptRoute::LinuxSealed);
    assert_eq!(attempt_route(Platform::MacOs, &standard).unwrap(), AttemptRoute::MacosWatchdog);
    assert_eq!(attempt_route(Platform::Windows, &sealed).unwrap(), AttemptRoute::WindowsSealed);
    assert_eq!(attempt_route(Platform::Windows, &standard).unwrap(), AttemptRoute::WindowsJob);
    let bare = request(BoundaryRequirement::Standard);
    assert_eq!(attempt_route(Platform::OtherUnix, &bare).unwrap(), AttemptRoute::UnixWatchdog);
    assert_eq!(
        attempt_route(Platform::Linux, &bare).unwrap_err().code,
        "MCUSAGE-MEMCORDON-EXECUTABLE"
    );
    for platform in [Platform::MacOs, Platform::OtherUnix] {
        let error = attempt_route(platform, &sealed).unwrap_err();
        assert_eq!(error.code, "MCBOUNDARY-UNSUPPORTED");
        assert!(!error.target_released && error.authorization_offset.is_none());
    }
    let bare = request(BoundaryRequirement::Sealed);
    assert_eq!(attempt_route(Platform::Linux, &bare).unwrap(), AttemptRoute::LinuxSealed);
}

#[test]
fn workloads_need_a_provider() {
    assert!(may_plan_workload(Platform::Linux).is_ok());
    assert_eq!(
        may_plan_workload(Platform::MacOs).unwrap_err(),
        "authenticated workload planning is unavailable on this platform"
    );
    assert!(may_discover_workloads(Platform::Windows).is_ok());
    assert_eq!(
        may_discover_workloads(Platform::Other).unwrap_err(),
        "authenticated sealed workload discovery is unsupported on this platform"
    );
}

fn launch_evidence() -> LaunchEvidence {
    LaunchEvidence {
        mechanism: "m".to_string(),
        target_released: true,
        containment_verified_before_authorization: true,
        guardian_started_before_authorization: true,
        target_spawn_error_reported: false,
        boundary_requested: BoundaryRequirement::Standard,
        boundary_effective: BoundaryClass::Standard,
        boundary_assignment_verified: true,
        boundary_reconfiguration_denied: false,
        inherited_resources_restricted: false,
        frontend_loss_cleanup_authority_verified: false,
    }
}

#[test]
fn contradictory_evidence_is_refused() {
    let execution = || Execution {
        policy_enforcement: None,
        outcome: RunOutcome::Exited {
            child: ChildTermination::ExitCode { code: 0 },
            peak: None,
            cleanup: CleanupSummary::default(),
        },
        backend: linux_info(standard_boundary_support("m", true, "r", &[])),
        child_pid: Some(7),
        duration: ms(9),
        authorization_offset: Some(ms(1)),
        launch: launch_evidence(),
        restart_safety: RestartSafetyProof::default(),
        boundary_detail: BoundaryMechanismEvidence::Standard { backend: "b".to_string() },
        runtime: None,
    };
    let attempt = attempt_execution(execution(), true).unwrap();
    assert!(attempt.launch.target_released && attempt.execution.launch.target_released);
    assert_eq!(attempt_execution(execution(), false).unwrap_err().code, "MCBOUNDARY-EVIDENCE");
}

#[test]
fn remaining_time_only_shrinks() {
    let bound = policy(BoundaryRequirement::Standard, Some(1000));
    assert_eq!(supervision_remaining(&bound, None, ms(5)), None);
    assert_eq!(supervision_remaining(&bound, Some(ms(100)), ms(300)), Some(ms(800)));
    assert_eq!(supervision_remaining(&bound, Some(ms(100)), ms(1100)), Some(Duration::zero()));
    assert_eq!(supervision_remaining(&bound, Some(ms(100)), ms(9000)), Some(Duration::zero()));
    let mut attempt = bound;
    attempt.deadline = Some(Deadline { duration: ms(1000), scope: DeadlineScope::Attempt });
    assert_eq!(supervision_remaining(&attempt, Some(ms(100)), ms(300)), None);
}

#[test]
fn outside_deadlines_have_evidence() {
    let bound = policy(BoundaryRequirement::Standard, Some(1000));
    let evidence = outside_deadline_evidence(
        Platform::Linux,
        &bound,
        Some(ms(100)),
        ms(900),
        SupervisionPhase::Cooldown,
        true,
    )
    .unwrap()
    .unwrap();
    assert_eq!(evidence.evidence.duration_ms, 1000);
    assert_eq!(evidence.evidence.expires_ms, 1100);
    assert_eq!(evidence.evidence.observed_ms, 1100);
    assert_eq!(evidence.evidence.grace_ms, 5);
    assert_eq!(evidence.terminal_phase, SupervisionPhase::Cooldown);
    assert!(outside_deadline_evidence(
        Platform::Linux,
        &bound,
        None,
        ms(900),
        SupervisionPhase::Backoff,
        false,
    )
    .unwrap()
    .is_none());
    refused_outside(
        outside_deadline_evidence(
            Platform::Linux,
            &bound,
            Some(ms(100)),
            ms(900),
            SupervisionPhase::Backoff,
            false,
        )
        .unwrap_err(),
    );
}

fn refused_outside(error: Error) {
    assert_eq!(error.category, ErrorCategory::Monitor);
    assert_eq!(error.code, "MCSUPERVISION-DEADLINE-EVIDENCE");
    assert_eq!(error.message, "supervision deadline evidence is inconsistent");
}

#[test]
fn refused_outside_evidence_fails_a_supervision() {
    let failed = |step: SupervisionStep| match step {
        SupervisionStep::Fail(error) => refused_outside(error),
        other => panic!("{other:?}"),
    };
    let trigger = facts(Some(RestartCondition::MemoryLimit));
    let wait = |duration: u64| RestartAction::Wait {
        duration: ms(duration),
        kind: RestartWaitKind::Backoff,
    };
    let waiting = |duration: u64| {
        let mut course = started(Some(1000), true);
        course.next_attempt(ms(0), false);
        course.attempt_completed(report(), trigger, &given_back(), ms(100));
        course.answered(wait(duration), ms(100));
        course
    };
    let mut course = waiting(5000);
    assert_eq!(course.outside_draft(ms(1010)).unwrap().expires_ms, 1010);
    failed(course.waited(false, ms(1010), false));
    assert_eq!(course.stage, SupervisionStage::Over);
    let mut course = waiting(1);
    assert!(matches!(course.waited(false, ms(101), false), SupervisionStep::Complete { .. }));
    course.resumed(RestartAction::Launch { half_open: false }, ms(101));
    failed(course.next_attempt(ms(1010), false));
    let mut course = waiting(1);
    course.waited(false, ms(101), true);
    course.resumed(RestartAction::Launch { half_open: false }, ms(101));
    course.next_attempt(ms(102), true);
    let late = Error::fixed(
        ErrorCategory::Setup,
        "MCSUPERVISION-DEADLINE-BEFORE-AUTHORIZATION",
        "late",
    );
    failed(course.attempt_failed(&late, false, ms(1020), false));
    assert!(started(None, true).outside_draft(ms(5)).is_none());
}

#[test]
fn only_limits_and_attempt_deadlines_restart() {
    let exited = RunOutcome::Exited {
        child: ChildTermination::ExitCode { code: 1 },
        peak: None,
        cleanup: CleanupSummary::default(),
    };
    assert_eq!(restart_condition(&exited), None);
    let interrupted = RunOutcome::Interrupted {
        signal: 2,
        child_after_termination: None,
        cleanup: CleanupSummary::default(),
    };
    assert_eq!(restart_condition(&interrupted), None);
}

fn facts(trigger: Option<RestartCondition>) -> AttemptFacts {
    AttemptFacts { authorization_offset: Some(ms(10)), child_pid: 7, duration: ms(90), trigger }
}

fn started(deadline: Option<u64>, restarts: bool) -> Supervision {
    Supervision::start(
        Platform::Linux,
        policy(BoundaryRequirement::Standard, deadline),
        restarts,
        None,
    )
}

#[test]
fn attempts_without_a_trigger_end_a_supervision() {
    let mut course = started(None, true);
    assert!(matches!(course.next_attempt(ms(0), true), SupervisionStep::Execute(_)));
    match course.attempt_completed(report(), facts(None), &given_back(), ms(100)) {
        SupervisionStep::RecordAndEnd(record, SupervisionEnd::Outcome { attempt_number }) => {
            assert_eq!((record.number, attempt_number), (1, 1));
            assert_eq!(record.authorized_offset_ms, Some(10));
            assert_eq!(record.terminal_offset_ms, Some(90));
            assert_eq!(record.finished_offset_ms, 100);
            assert_eq!(record.phase, AttemptPhase::Completed);
        }
        other => panic!("{other:?}"),
    }
    assert_eq!(course.stage, SupervisionStage::Over);
}

#[test]
fn limits_are_restarted_after_a_wait() {
    let mut course = started(Some(1000), true);
    course.next_attempt(ms(0), true);
    let trigger = Some(RestartCondition::MemoryLimit);
    assert!(matches!(
        course.attempt_completed(report(), facts(trigger), &given_back(), ms(100)),
        SupervisionStep::Ask(RestartCondition::MemoryLimit)
    ));
    let wait = RestartAction::Wait { duration: ms(50), kind: RestartWaitKind::Backoff };
    match course.answered(wait, ms(100)) {
        SupervisionStep::Wait(duration) => assert_eq!(duration, ms(50)),
        other => panic!("{other:?}"),
    }
    match course.waited(false, ms(150), true) {
        SupervisionStep::Complete { completion, waited, remaining } => {
            assert_eq!(completion, WaitCompletion::Completed);
            assert_eq!((waited, remaining), (ms(50), Some(ms(860))));
        }
        other => panic!("{other:?}"),
    }
    assert!(matches!(
        course.resumed(RestartAction::Launch { half_open: false }, ms(150)),
        SupervisionStep::RecordAndGoOn(_)
    ));
    assert_eq!(course.kind, AttemptKind::Restart);
    match course.next_attempt(ms(160), true) {
        SupervisionStep::Execute(context) => {
            assert_eq!(context.supervision_offset, ms(160));
            assert_eq!(context.supervision_deadline_remaining, Some(ms(850)));
        }
        other => panic!("{other:?}"),
    }
}

#[test]
fn passed_supervision_deadlines_start_nothing() {
    let mut course = started(Some(1000), true);
    course.next_attempt(ms(0), true);
    course.attempt_completed(report(), facts(Some(RestartCondition::MemoryLimit)), &given_back(), ms(100));
    let wait = RestartAction::Wait { duration: ms(5000), kind: RestartWaitKind::CircuitCooldown };
    match course.answered(wait, ms(100)) {
        SupervisionStep::Wait(duration) => assert_eq!(duration, ms(910)),
        other => panic!("{other:?}"),
    }
    match course.waited(false, ms(1010), true) {
        SupervisionStep::Complete { completion, .. } => {
            assert_eq!(completion, WaitCompletion::SupervisionDeadline);
        }
        other => panic!("{other:?}"),
    }
    match course.resumed(RestartAction::Stop, ms(1010)) {
        SupervisionStep::RecordAndEnd(_, SupervisionEnd::Deadline(evidence)) => {
            assert_eq!(evidence.terminal_phase, SupervisionPhase::Cooldown);
        }
        other => panic!("{other:?}"),
    }
}

#[test]
fn expired_supervisions_end_outside_an_attempt() {
    let mut course = started(Some(1000), true);
    course.next_attempt(ms(0), true);
    course.attempt_completed(report(), facts(Some(RestartCondition::MemoryLimit)), &given_back(), ms(100));
    course.answered(
        RestartAction::Wait { duration: ms(1), kind: RestartWaitKind::Backoff },
        ms(100),
    );
    course.waited(false, ms(101), true);
    course.resumed(RestartAction::Launch { half_open: true }, ms(101));
    assert_eq!(course.kind, AttemptKind::HalfOpen);
    assert!(matches!(course.next_attempt(ms(1010), true), SupervisionStep::EndOutside(_)));
}

#[test]
fn waits_after_waits_are_refused() {
    let mut course = started(None, true);
    course.next_attempt(ms(0), true);
    course.attempt_completed(report(), facts(Some(RestartCondition::MemoryLimit)), &given_back(), ms(100));
    let wait = RestartAction::Wait { duration: ms(1), kind: RestartWaitKind::Backoff };
    course.answered(wait, ms(100));
    course.waited(true, ms(100), true);
    assert!(matches!(course.resumed(wait, ms(100)), SupervisionStep::InvalidTransition));
}

#[test]
fn drifting_backends_are_refused() {
    let mut course = Supervision::start(
        Platform::Linux,
        policy(BoundaryRequirement::Standard, None),
        false,
        Some(report()),
    );
    course.next_attempt(ms(0), true);
    let mut other = report();
    other.name = "elsewhere".to_string();
    match course.attempt_completed(other, facts(None), &given_back(), ms(100)) {
        SupervisionStep::Fail(error) => {
            assert_eq!(error.code, "MCBACKEND-SELECTION-DRIFT");
            assert_eq!(error.restart_safety.unwrap().workload_empty, Some(true));
        }
        other => panic!("{other:?}"),
    }
    assert!(backend_selection_matches(&report(), &report(), Metric::Native));
    let info = linux_info(standard_boundary_support("m", true, "r", &["p"]));
    let standard = capabilities_for(Platform::Linux, &info, BoundaryRequirement::Standard);
    assert!(backend_selection_matches(&standard, &standard, Metric::Native));
    assert!(unsupported_capability().name.len() > 0);
}

#[test]
fn failures_end_a_supervision() {
    let mut course = started(None, true);
    course.next_attempt(ms(5), true);
    let error = Error::fixed(ErrorCategory::Setup, "MCSETUP-CGROUP", "no");
    match course.attempt_failed(&error, false, ms(50), true) {
        SupervisionStep::EndFailed(record) => {
            assert_eq!((record.number, record.started_offset_ms), (1, 5));
            assert_eq!(record.phase, AttemptPhase::Failed);
        }
        other => panic!("{other:?}"),
    }
    let mut course = started(None, true);
    course.next_attempt(ms(5), true);
    let mut odd = Error::fixed(ErrorCategory::Setup, "MCSETUP-CGROUP", "no");
    odd.target_released = true;
    match course.attempt_failed(&odd, false, ms(50), true) {
        SupervisionStep::Fail(error) => {
            assert_eq!(error.code, "MCRESTART-AUTHORIZATION-EVIDENCE");
        }
        other => panic!("{other:?}"),
    }
}

#[test]
fn errors_are_recorded_without_more_claims() {
    let error = Error::fixed(ErrorCategory::Spawn, "MCSPAWN-FAILED", "no");
    let record = error_record(&error, Some(3), SupervisionPhase::AttemptSetup, AttemptKind::Initial);
    assert_eq!((record.code, record.attempt_number), ("MCSPAWN-FAILED", Some(3)));
    assert_eq!(record.category, "spawn");
    assert!(record.provider_rejection.is_none());
    let mut refused = Error::fixed(ErrorCategory::Setup, "X", "no");
    refused.provider_rejection = Some(ProviderRejectionEvidence {
        schema_version: 2,
        code: "C".to_string(),
        phase: BoundarySetupPhase::RequestValidation,
        detail: "d".to_string(),
        os_code: Some(5),
        target_created: false,
        target_released: false,
        cleanup_attempted: true,
        restart_safety: RestartSafetyProof::default(),
        terminal_ack_required: true,
    });
    let kept = error_record(&refused, None, SupervisionPhase::AttemptSetup, AttemptKind::Restart);
    let kept = kept.provider_rejection.unwrap();
    assert_eq!((kept.code.as_str(), kept.detail.as_str(), kept.os_code), ("C", "d", Some(5)));
    assert!(kept.cleanup_attempted && kept.terminal_ack_required && !kept.target_created);
    let proof = proof_from_error(&error);
    assert!(!proof.sealed_boundary_retired);
    let launch = launch_from_error(Platform::Linux, &error, BoundaryRequirement::Sealed, &None);
    assert!(!launch.target_released);
    match boundary_failure_detail(&error, BoundaryRequirement::Sealed, &None) {
        BoundaryMechanismEvidence::SetupFailure { provider_mechanism, .. } => {
            assert_eq!(provider_mechanism, "unresolved-sealed-setup");
        }
        other => panic!("{other:?}"),
    }
    match boundary_failure_detail(&error, BoundaryRequirement::Standard, &None) {
        BoundaryMechanismEvidence::Standard { backend } => {
            assert_eq!(backend, "setup-failed-before-selection");
        }
        other => panic!("{other:?}"),
    }
}

#[test]
fn released_rejections_are_no_deadline() {
    let context = AttemptContext {
        supervision_offset: Duration::zero(),
        supervision_deadline_remaining: Some(ms(0)),
    };
    let mut error = Error::fixed(ErrorCategory::Setup, "X", "no");
    error.provider_rejection = Some(ProviderRejectionEvidence {
        schema_version: 1,
        code: "deadline".to_string(),
        phase: BoundarySetupPhase::Authorization,
        detail: "late".to_string(),
        os_code: None,
        target_created: true,
        target_released: true,
        cleanup_attempted: true,
        restart_safety: RestartSafetyProof::default(),
        terminal_ack_required: false,
    });
    assert!(!sealed_deadline_rejection_is_outside_attempt(
        &policy(BoundaryRequirement::Sealed, Some(10)),
        context,
        &error,
        true
    ));
}
