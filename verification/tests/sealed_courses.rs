use memcordon_platform::backend::info;
use memcordon_platform::evidence::{
    BoundaryMechanismEvidence, BoundarySetupPhase, ChildTermination, ProviderRejectionEvidence,
    RestartSafetyProof, RunOutcome,
};
use memcordon_platform::model::CleanupSummary;
use memcordon_platform::policy::{
    BoundaryRequirement, Deadline, DeadlineScope, Enforcement, Lifetime, Metric, Policy,
    SwapPolicy,
};
use memcordon_platform::sealed::digest::digest_bytes;
use memcordon_platform::sealed::frame::{read_frame, WireFrame};
use memcordon_platform::sealed::launch::PlanPrecondition;
use memcordon_platform::sealed::planned::{
    execute_private_v2, execute_private_v2_frozen_port_rejection,
    execute_private_v2_with_expected_plan, expected_result, PlannedLaunch, PlannedStage,
    SubmissionParts,
};
use memcordon_platform::sealed::private::{
    after_send, frozen_plan_holds, private_attempt_hex, private_launch_plannable,
    private_plan_exchange_v2, private_plan_request, private_plan_v2,
    private_response_disposition_for_test, receive_private_result, validate_private_service_report, PrivateContracts,
    PrivateExpectedResultV2, PrivateIndeterminateV11, PrivateLaunchErrorV2, PrivatePlanExchangeV2,
    PrivatePlanReading, PrivatePlanReceipt, PrivateReading, PrivateReleaseKnowledgeV2,
    PrivateReplayDispositionV2, PrivateReport, PrivateServiceResultV2, PrivateTerminalOutcome,
};
use memcordon_platform::sealed::probe::{
    discovery_request, plan_request, probe_request, zero_attempt, ProbeReceipt,
};
use memcordon_platform::sealed::reuse::{
    execute_private_v2_reuse_pair, reuse_between_attempts_barrier, reuse_launch_error,
    verify_reuse_barrier_peer, PeerFacts,
    RejectionWire, ReuseRequest, ReuseStage,
};
use memcordon_platform::sealed::run::{
    boundary_phase_name, launch, launch_error, qualification_error, run, terminal_restart_safety,
    terminal_revocation_error, terminal_spawn_error, LaunchError, LaunchReading, RunChecks,
};
use memcordon_platform::sealed::runtime::{
    verify, verify_binding, verify_private, ManifestReading, PrivateManifestReading,
    PrivatePlanRuntime, QualifiedNativeAbi, RuntimeComponent, RuntimeComponentRole, SealedRuntime,
};
use memcordon_platform::sealed::terminal::{
    PolicyEnforcement, PolicyReading, TerminalExecFailureClass, TerminalExecStatus, TerminalFacts,
    TerminalReceipt,
};
use memcordon_platform::sealed::windows::{
    run as run_windows, Claim, PreparedAnswer, ReconnectFault, RelayEvent, Response, RunAction,
    RunStage, WindowsRun, WindowsTerminal,
};
use memcordon_platform::sealed::windows_token::{
    token_group_storage_contains, token_user_storage_matches, validated_token_sid_range,
    SidReading,
};
use memcordon_platform::sealed::windows_wire::{
    broker_access, transport_error, undecodable, usage_error, FrameFailure, FramePhase,
};
use memcordon_platform::time::Duration;

fn ms(n: u64) -> Duration {
    Duration::from_millis(n)
}

fn policy() -> Policy {
    Policy {
        memory: Some(7),
        swap: SwapPolicy::Unlimited,
        deadline: Some(Deadline { duration: ms(90), scope: DeadlineScope::Attempt }),
        lifetime: Lifetime::Workload,
        enforcement: Enforcement::Hard,
        metric: Metric::Native,
        boundary: BoundaryRequirement::Sealed,
        poll_interval: ms(1),
        signal_grace: ms(2),
        command_exit_grace: ms(3),
        limit_grace: ms(4),
    }
}

fn rejection(phase: BoundarySetupPhase, created: bool) -> ProviderRejectionEvidence {
    ProviderRejectionEvidence {
        schema_version: 1,
        code: "X".to_string(),
        phase,
        detail: "d".to_string(),
        os_code: Some(5),
        target_created: created,
        target_released: false,
        cleanup_attempted: created,
        restart_safety: RestartSafetyProof::default(),
        terminal_ack_required: false,
    }
}

fn before(error: PrivateLaunchErrorV2) -> String {
    match error {
        PrivateLaunchErrorV2::BeforeSubmission(text) => text,
        PrivateLaunchErrorV2::AfterSubmission(failure) => panic!("{failure:?}"),
    }
}

fn after(error: PrivateLaunchErrorV2) -> (String, Option<Vec<u8>>) {
    match error {
        PrivateLaunchErrorV2::AfterSubmission(failure) => (failure.detail, failure.raw_response),
        PrivateLaunchErrorV2::BeforeSubmission(text) => panic!("{text}"),
    }
}

// Two launches under one plan.

fn reuse_request() -> ReuseRequest {
    ReuseRequest {
        barrier_descriptor: 4,
        barrier: Ok(()),
        contract: Ok(()),
        ordinary_contract: false,
        profile: "linux-tcp4-private-v1".to_string(),
        administrator_identity: true,
    }
}

fn refused() -> PrivateServiceResultV2 {
    PrivateServiceResultV2::Rejected {
        evidence: rejection(BoundarySetupPhase::Retirement, true),
        raw_response: b"raw".to_vec(),
        release_knowledge: PrivateReleaseKnowledgeV2::Released,
    }
}

fn incomplete() -> RejectionWire {
    RejectionWire {
        code: "MCSEALED-PRIVATE-REUSE-CLEANUP-INCOMPLETE".to_string(),
        phase: BoundarySetupPhase::Retirement,
        target_created: true,
        target_released: true,
        cleanup_attempted: true,
        sealed_boundary_retired: false,
        cleanup_errors: 1,
    }
}

fn blocked() -> RejectionWire {
    RejectionWire {
        code: "MCSEALED-PRIVATE-REUSE-BLOCKED".to_string(),
        phase: BoundarySetupPhase::RequestValidation,
        target_created: false,
        target_released: false,
        cleanup_attempted: false,
        sealed_boundary_retired: false,
        cleanup_errors: 0,
    }
}

#[test]
fn pairs_end_with_a_blocked_launch() {
    let mut pair = execute_private_v2_reuse_pair(&policy(), &reuse_request()).unwrap();
    pair.planned(Some(Ok(true))).unwrap();
    pair.first(refused(), Ok(incomplete())).unwrap();
    pair.passed(Ok(())).unwrap();
    let result = pair.second(refused(), Ok(blocked())).unwrap();
    assert!(matches!(result, PrivateServiceResultV2::Rejected { .. }));
    assert_eq!(pair.stage, ReuseStage::Over);
}

#[test]
fn pairs_are_refused_before_anything_is_submitted() {
    let said = |request: ReuseRequest| before(execute_private_v2_reuse_pair(&policy(), &request).unwrap_err());
    assert_eq!(
        said(ReuseRequest { barrier_descriptor: 5, ..reuse_request() }),
        "reuse barrier must be inherited FD4"
    );
    assert_eq!(said(ReuseRequest { barrier: Err("b".into()), ..reuse_request() }), "b");
    assert_eq!(said(ReuseRequest { contract: Err("c".into()), ..reuse_request() }), "c");
    assert_eq!(
        said(ReuseRequest { ordinary_contract: true, ..reuse_request() }),
        "reuse pair requires exact sealed private V2 contract"
    );
    let mut pair = execute_private_v2_reuse_pair(&policy(), &reuse_request()).unwrap();
    assert_eq!(
        before(pair.planned(Some(Ok(false))).unwrap_err()),
        "reuse plan differs from protected expected plan"
    );
    assert!(verify_reuse_barrier_peer(Some(1), Some(PeerFacts { pid: 2, uid: 0 }), 3).is_ok());
    assert!(verify_reuse_barrier_peer(Some(2), Some(PeerFacts { pid: 2, uid: 0 }), 3).is_err());
    assert!(verify_reuse_barrier_peer(Some(1), Some(PeerFacts { pid: 3, uid: 0 }), 3).is_err());
    assert!(verify_reuse_barrier_peer(Some(1), Some(PeerFacts { pid: 2, uid: 1 }), 3).is_err());
    assert!(reuse_between_attempts_barrier(71).is_ok());
    assert!(reuse_between_attempts_barrier(70).is_err());
}

#[test]
fn pairs_that_fail_say_what_came() {
    let first = || {
        let mut pair = execute_private_v2_reuse_pair(&policy(), &reuse_request()).unwrap();
        pair.planned(None).unwrap();
        pair
    };
    assert_eq!(
        after(first().first(refused(), Ok(blocked())).unwrap_err()),
        (
            "reuse first launch lacks protected CleanupIncomplete result".to_string(),
            Some(b"raw".to_vec())
        )
    );
    let lost = PrivateServiceResultV2::Indeterminate {
        attempt_id: vec![1],
        raw_response: b"i".to_vec(),
        reason_code: "r".to_string(),
    };
    assert_eq!(
        after(first().first(lost, Ok(incomplete())).unwrap_err()).0,
        "reuse first launch is indeterminate"
    );
    let mut pair = first();
    pair.first(refused(), Ok(incomplete())).unwrap();
    assert_eq!(after(pair.passed(Err("no".into())).unwrap_err()), ("no".to_string(), None));
    let mut pair = first();
    pair.first(refused(), Ok(incomplete())).unwrap();
    pair.passed(Ok(())).unwrap();
    assert_eq!(
        after(pair.second(refused(), Ok(incomplete())).unwrap_err()).0,
        "reuse second launch did not prove preallocation block"
    );
    let early = PrivateLaunchErrorV2::BeforeSubmission("x".to_string());
    assert_eq!(after(reuse_launch_error(early)), ("x".to_string(), None));
}

// Private plans and answers.

fn plan_frame(kind: u16) -> WireFrame {
    WireFrame { kind, nonce: vec![5; 16], attempt: zero_attempt(), payload: b"raw".to_vec() }
}

fn plan_reading(phase: BoundarySetupPhase, created: bool) -> PrivatePlanReading {
    PrivatePlanReading {
        receipt: Ok(PrivatePlanReceipt {
            source_commit: "c".to_string(),
            native_abi: 1,
            registry_digest: vec![1],
            runtime_manifest_sha256: vec![2],
            installed_qualification_sha256: vec![3],
        }),
        caller: Ok(()),
        runtime: Ok(()),
        rejection: Ok(rejection(phase, created)),
    }
}

#[test]
fn plans_are_exchanged() {
    let early = BoundarySetupPhase::RequestValidation;
    let exchange =
        |kind: u16, reading| private_plan_exchange_v2(plan_frame(kind), &[5; 16], reading);
    let receipt = private_plan_v2(exchange(111, plan_reading(early, false)).unwrap()).unwrap();
    assert_eq!(receipt.source_commit, "c");
    let refused = exchange(106, plan_reading(early, false)).unwrap();
    assert!(matches!(refused, PrivatePlanExchangeV2::Rejected { .. }));
    assert_eq!(private_plan_v2(refused).unwrap_err(), "private plan unavailable [X]: d");
    assert_eq!(
        exchange(106, plan_reading(BoundarySetupPhase::Retirement, true)).unwrap_err(),
        "private plan rejection claims a native attempt"
    );
    assert_eq!(
        exchange(105, plan_reading(early, false)).unwrap_err(),
        "provider omitted V2 private plan receipt"
    );
    assert_eq!(
        private_plan_exchange_v2(plan_frame(111), &[6; 16], plan_reading(early, false))
            .unwrap_err(),
        "private plan response identity differs"
    );
    assert!(plan_request(Ok(()), b"x", 1, &[5; 16]).is_ok());
    assert!(plan_request(Ok(()), b"xy", 1, &[5; 16]).is_err());
    assert_eq!(plan_request(Err("v".into()), b"x", 1, &[5; 16]).unwrap_err(), "v");
}

#[test]
fn launches_need_an_exact_contract() {
    let contracts = || PrivateContracts {
        plan: Ok(()),
        launch: Ok(()),
        ordinary_contract: false,
        profile: "linux-tcp4-private-v1".to_string(),
        administrator_identity: true,
    };
    assert!(private_launch_plannable(&policy(), &contracts()).is_ok());
    let open = PrivateContracts { administrator_identity: false, ..contracts() };
    assert_eq!(
        before(private_launch_plannable(&policy(), &open).unwrap_err()),
        "private preserve-caller execution identity is not available"
    );
    let other = PrivateContracts { profile: "p".to_string(), ..contracts() };
    assert!(private_launch_plannable(&policy(), &other).is_err());
    let broken = PrivateContracts { plan: Err("p".to_string()), ..contracts() };
    assert_eq!(before(private_launch_plannable(&policy(), &broken).unwrap_err()), "p");
    assert!(frozen_plan_holds(true).is_ok() && frozen_plan_holds(false).is_err());
    let frozen = |one_port: bool, caller: Result<(), String>| {
        execute_private_v2_frozen_port_rejection(&policy(), &contracts(), one_port, Ok(()), caller)
    };
    assert!(frozen(true, Ok(())).unwrap().frozen);
    assert_eq!(
        before(frozen(false, Ok(())).unwrap_err()),
        "frozen private contract is not exactly one approved-plan port change"
    );
    assert_eq!(before(frozen(true, Err("c".into())).unwrap_err()), "c");
    let plain = execute_private_v2(&policy(), &contracts()).unwrap();
    assert_eq!(plain.stage, PlannedStage::Planning);
    assert!(!plain.expected_plan && !plain.frozen && plain.plan.is_none());
    let open = Policy { boundary: BoundaryRequirement::Standard, ..policy() };
    assert_eq!(
        before(execute_private_v2(&open, &contracts()).unwrap_err()),
        "V2 private launch requires sealed boundary, private profile and no V1 contract"
    );
    let ordinary = PrivateContracts { ordinary_contract: true, ..contracts() };
    assert!(execute_private_v2_with_expected_plan(&policy(), &ordinary, true).is_err());
}

fn framed(bytes: &[u8], version: u8) -> WireFrame {
    assert_eq!(bytes[..2], [0, version]);
    read_frame(&bytes[..72], bytes[72..].to_vec()).unwrap()
}

#[test]
fn requests_that_carry_nothing_are_framed() {
    let probe = framed(&probe_request(&[5; 16]).unwrap(), 3);
    assert_eq!((probe.kind, probe.payload.len()), (1, 0));
    let discovery = framed(&discovery_request(&[5; 16]).unwrap(), 3);
    assert_eq!((discovery.kind, discovery.payload.len()), (9, 0));
    assert_eq!(discovery.nonce, vec![5; 16]);
    assert_eq!(discovery.attempt, zero_attempt());
    let plan = private_plan_request(Ok(()), Ok(b"contract".to_vec()), &[5; 16]).unwrap();
    let plan = framed(&plan, 4);
    assert_eq!((plan.kind, plan.payload.as_slice()), (13, &b"contract"[..]));
    assert_eq!(plan.attempt, zero_attempt());
    let invalid = private_plan_request(Err("v".into()), Ok(b"contract".to_vec()), &[5; 16]);
    assert_eq!(invalid.unwrap_err(), "v");
}

fn private_contracts() -> PrivateContracts {
    PrivateContracts {
        plan: Ok(()),
        launch: Ok(()),
        ordinary_contract: false,
        profile: "linux-tcp4-private-v1".to_string(),
        administrator_identity: true,
    }
}

fn asked(expected_plan: bool) -> PlannedLaunch {
    let mut launch =
        execute_private_v2_with_expected_plan(&policy(), &private_contracts(), expected_plan)
            .unwrap();
    launch.request_plan(Ok(b"contract".to_vec()), &[5; 16]).unwrap();
    assert_eq!(launch.stage, PlannedStage::Asked);
    launch
}

fn planned(expected_plan: bool) -> PlannedLaunch {
    let mut launch = asked(expected_plan);
    let reading = plan_reading(BoundarySetupPhase::RequestValidation, false);
    launch.planned(plan_frame(111), reading, false).unwrap();
    assert_eq!(launch.stage, PlannedStage::Planned);
    launch
}

fn submission_parts() -> SubmissionParts {
    SubmissionParts {
        precondition: Ok(PlanPrecondition {
            contract_digest: vec![7; 2],
            generation_digest: vec![8; 2],
        }),
        launch: Ok(vec![9]),
        contract: Ok(vec![10]),
        contract_digest: Ok(vec![11]),
    }
}

#[test]
fn launches_follow_their_plan() {
    let mut launch = planned(false);
    let frame = launch.submission(submission_parts(), &[6; 16], &[7; 16]).unwrap();
    let frame = framed(&frame, 4);
    assert_eq!(frame.kind, 10);
    assert_eq!(frame.payload, vec![0, 4, 1, 3, 11, 0, 0, 0, 1, 10, 0, 0, 0, 1, 9]);
    launch.sent(Ok(())).unwrap();
    let reading = PrivateReading {
        keys: Ok(()),
        report: Err("r".to_string()),
        rejection: Ok(rejection(BoundarySetupPhase::RequestValidation, false)),
        indeterminate: Err("i".to_string()),
    };
    let answer = WireFrame {
        kind: 106,
        nonce: vec![6; 16],
        attempt: vec![7; 16],
        payload: b"raw".to_vec(),
    };
    let result = launch.answered(Ok((answer, reading)), 11, 100).unwrap();
    assert_eq!(result.release_knowledge(), PrivateReleaseKnowledgeV2::NotReleased);
    assert_eq!(launch.stage, PlannedStage::Over);
    let mut held = planned(true);
    let frame = held.submission(submission_parts(), &[6; 16], &[7; 16]).unwrap();
    let payload = framed(&frame, 4).payload;
    assert_eq!(payload[..2], [0, 5]);
    assert_eq!(payload[payload.len() - 4..], [7, 7, 8, 8]);
}

#[test]
fn launches_without_a_plan_are_not_submitted() {
    let mut launch = asked(false);
    let reading = plan_reading(BoundarySetupPhase::RequestValidation, false);
    assert_eq!(
        before(launch.planned(plan_frame(106), reading, true).unwrap_err()),
        "private plan unavailable [X]: d"
    );
    assert_eq!(launch.stage, PlannedStage::Over);
    let mut frozen = execute_private_v2_frozen_port_rejection(
        &policy(),
        &private_contracts(),
        true,
        Ok(()),
        Ok(()),
    )
    .unwrap();
    frozen.request_plan(Ok(b"contract".to_vec()), &[5; 16]).unwrap();
    let reading = plan_reading(BoundarySetupPhase::RequestValidation, false);
    assert_eq!(
        before(frozen.planned(plan_frame(111), reading, false).unwrap_err()),
        "frozen private plan differs from freshly authenticated accepted plan"
    );
    let mut zero = planned(false);
    assert_eq!(
        before(zero.submission(submission_parts(), &[6; 16], &[0; 16]).unwrap_err()),
        "private attempt identity is zero"
    );
    let mut broken = planned(true);
    let parts = SubmissionParts { precondition: Err("p".to_string()), ..submission_parts() };
    assert_eq!(before(broken.submission(parts, &[6; 16], &[7; 16]).unwrap_err()), "p");
    let mut early = asked(false);
    assert_eq!(before(early.failed("lost".to_string())), "lost");
}

#[test]
fn sent_launches_are_not_sent_again() {
    let ready = || {
        let mut launch = planned(false);
        launch.submission(submission_parts(), &[6; 16], &[7; 16]).unwrap();
        launch
    };
    let mut launch = ready();
    let error = launch.sent(Err("short".to_string())).unwrap_err();
    assert_eq!(error.replay_disposition(), PrivateReplayDispositionV2::DoNotReplay);
    assert_eq!(after(error), ("short".to_string(), None));
    assert_eq!(launch.stage, PlannedStage::Over);
    let mut launch = ready();
    launch.sent(Ok(())).unwrap();
    let error = launch.answered(Err("gone".to_string()), 11, 100).unwrap_err();
    assert_eq!(after(error), ("gone".to_string(), None));
    let mut launch = ready();
    launch.sent(Ok(())).unwrap();
    assert_eq!(after(launch.failed("lost".to_string())), ("lost".to_string(), None));
    assert!(after_send(Ok(())).is_ok());
    assert_eq!(after(after_send(Err("x".into())).unwrap_err()), ("x".to_string(), None));
    let failure =
        receive_private_result(Err("x".into()), &[6; 16], &[7; 16], &private_expected(), 100)
            .unwrap_err();
    assert_eq!((failure.detail.as_str(), failure.raw_response), ("x", None));
    let receipt = plan_reading(BoundarySetupPhase::RequestValidation, false).receipt.unwrap();
    let expected = expected_result(&receipt, 11);
    assert_eq!((expected.source_commit.as_str(), expected.native_abi), ("c", 1));
    assert_eq!(expected.runtime_manifest_sha256, vec![2]);
    assert_eq!(expected.installed_qualification_sha256, vec![3]);
}

fn private_report(outcome: PrivateTerminalOutcome) -> PrivateReport {
    PrivateReport {
        schema_version: 11,
        source_commit: "c".to_string(),
        native_abi: 1,
        runtime_manifest_sha256: vec![1],
        installed_qualification_sha256: vec![2],
        attempt_id: private_attempt_hex(&[6; 16]),
        checkpoint: Ok(()),
        checkpoint_native_abi: 1,
        checkpoint_binding: vec![9],
        attempt_digest: Ok(vec![9]),
        retired: true,
        outcome,
    }
}

fn private_expected() -> PrivateExpectedResultV2 {
    PrivateExpectedResultV2 {
        report_schema: 11,
        source_commit: "c".to_string(),
        native_abi: 1,
        runtime_manifest_sha256: vec![1],
        installed_qualification_sha256: vec![2],
    }
}

#[test]
fn private_reports_are_bounded() {
    let check = |report: PrivateReport| {
        validate_private_service_report(&report, &[6; 16], &private_expected())
    };
    assert!(check(private_report(PrivateTerminalOutcome::Exited)).is_ok());
    let long = PrivateTerminalOutcome::Interrupted { reason: "x".repeat(5000) };
    assert_eq!(
        check(private_report(long)).unwrap_err(),
        "private terminal outcome violates V11 bound"
    );
    let mut other = private_report(PrivateTerminalOutcome::Exited);
    other.checkpoint = Err("late".to_string());
    assert_eq!(check(other).unwrap_err(), "late");
}

#[test]
fn unverified_ends_are_not_repeated() {
    let reading = || PrivateReading {
        keys: Ok(()),
        report: Ok(private_report(PrivateTerminalOutcome::Exited)),
        rejection: Ok(rejection(BoundarySetupPhase::RequestValidation, false)),
        indeterminate: Ok(PrivateIndeterminateV11 {
            schema_version: 11,
            attempt_id: private_attempt_hex(&[6; 16]),
            release_knowledge: "possibly-released".to_string(),
            retirement_knowledge: "unverified".to_string(),
            replay_disposition: "do-not-replay".to_string(),
            reason_code: "MCSEALED-PRIVATE-TERMINAL-UNVERIFIED".to_string(),
        }),
    };
    let judge = |kind: u16, safe: bool| {
        let frame =
            WireFrame { kind, nonce: vec![5; 16], attempt: vec![6; 16], payload: b"raw".to_vec() };
        private_response_disposition_for_test(
            frame,
            &[5; 16],
            &[6; 16],
            &private_expected(),
            100,
            reading(),
            safe,
        )
    };
    let (release, _, restart, raw) = judge(105, true).unwrap();
    assert!(restart && raw == b"raw");
    assert_eq!(release, PrivateReleaseKnowledgeV2::Released);
    assert!(!judge(105, false).unwrap().2);
    match judge(110, true) {
        Ok((release, replay, restart, _)) => {
            assert_eq!(release, PrivateReleaseKnowledgeV2::PossiblyReleased);
            assert_ne!(replay, PrivateReplayDispositionV2::NewAttemptWithFreshAdmission);
            assert!(!restart);
        }
        Err(failure) => assert_eq!(failure.raw_response, Some(b"raw".to_vec())),
    }
}

// Linux runs.

fn facts() -> TerminalFacts {
    TerminalFacts {
        assignment_verified: true,
        namespaces_verified: true,
        target_initial_credentials_verified: true,
        initial_provider_capabilities_absent: true,
        caller_no_new_privs: true,
        target_no_new_privs_matched: true,
        target_capability_bounding_set_matched: true,
        target_mount_context_derived_from_caller: true,
        boundary_independent_of_credentials: true,
        descriptors_verified: true,
        writable_ancestor_cgroup_denied: true,
        parent_namespace_handles_denied: true,
        recursive_provider_request_denied: true,
        guardian_ready: true,
        frontend_loss_authority: true,
        cgroup_kill: true,
        cgroup_empty: true,
        init_reaped: true,
        guardian_reaped: true,
        boundary_retired: true,
        memory_limit_exceeded: false,
        deadline_exceeded: false,
    }
}

fn receipt(facts: TerminalFacts) -> TerminalReceipt {
    TerminalReceipt {
        policy_enforcement: PolicyEnforcement::Other,
        schema_version: 2,
        mechanism: "linux-pid-namespace-cgroup-v2".to_string(),
        status: Some(3),
        policy_revoked: false,
        exec_status: TerminalExecStatus::Succeeded,
        spawn_error_reported: true,
        target_pid: 77,
        authorization_offset_millis: 12,
        caller_envelope_digest: String::new(),
        caller_capability_bounding_set_digest: String::new(),
        caller_mount_namespace_digest: String::new(),
        facts,
    }
}

fn qualified() -> ProbeReceipt {
    ProbeReceipt {
        version: "1".to_string(),
        provider_identity: "p".to_string(),
        control_service_identity: "c".to_string(),
        launcher_service_identity: "l".to_string(),
        receipt_digest: "d".to_string(),
        setid_transition_certification_digest: "s".to_string(),
        sudo_transition_certification_digest: "u".to_string(),
    }
}

fn checks() -> RunChecks {
    RunChecks { request_matches: true, runtime: Ok(()), safe: true, deadline_accepted: true }
}

#[test]
fn sealed_runs_end() {
    let end = |terminal: TerminalReceipt, checks: RunChecks| {
        run(&policy(), &qualified(), &terminal, checks, info(), ms(40))
    };
    let execution = end(receipt(facts()), checks()).unwrap();
    match execution.outcome {
        RunOutcome::Exited { child, .. } => {
            assert_eq!(child, ChildTermination::ExitCode { code: 3 });
        }
        other => panic!("{other:?}"),
    }
    assert_eq!(execution.authorization_offset, Some(ms(12)));
    assert!(execution.restart_safety.sealed_boundary_retired);
    let full = TerminalFacts { memory_limit_exceeded: true, ..facts() };
    assert!(matches!(
        end(receipt(full), checks()).unwrap().outcome,
        RunOutcome::LimitExceeded { limit: 7, .. }
    ));
    let late = TerminalFacts { deadline_exceeded: true, ..facts() };
    match end(receipt(late), checks()).unwrap().outcome {
        RunOutcome::DeadlineExceeded { deadline, .. } => {
            assert_eq!((deadline.expires_ms, deadline.grace_ms), (90, 4));
        }
        other => panic!("{other:?}"),
    }
    let odd = RunChecks { deadline_accepted: false, ..checks() };
    assert_eq!(end(receipt(late), odd).unwrap_err().code, "MCSEALED-DEADLINE-EVIDENCE");
    let foreign = RunChecks { request_matches: false, ..checks() };
    assert_eq!(end(receipt(facts()), foreign).unwrap_err().code, "MCSEALED-WORKLOAD-TERMINAL");
    let mut revoked = receipt(facts());
    revoked.policy_revoked = true;
    revoked.status = None;
    assert_eq!(end(revoked, checks()).unwrap_err().code, "MCSEALED-POLICY-DRIFT");
    let mut failed = receipt(facts());
    failed.exec_status =
        TerminalExecStatus::Failed { class: TerminalExecFailureClass::NotFound, os_code: 2 };
    let error = end(failed, checks()).unwrap_err();
    assert_eq!((error.code, error.os_code), ("MCSPAWN-NOT-FOUND", Some(2)));
}

#[test]
fn failed_sealed_runs_say_what_may_live() {
    let terminal = receipt(TerminalFacts { boundary_retired: false, ..facts() });
    assert!(!terminal_restart_safety(&terminal).sealed_boundary_retired);
    assert!(terminal_revocation_error(&terminal, false).workload_may_be_alive);
    let spawn = terminal_spawn_error(&terminal, TerminalExecFailureClass::Other, -1, true);
    assert_eq!(
        spawn.message,
        "sealed provider reported a verified target exec failure with native OS code -1"
    );
    assert!(!spawn.workload_may_be_alive);
    let refused = launch_error(
        LaunchError::Rejected(rejection(BoundarySetupPhase::GuardianStartup, true)),
        false,
    );
    assert_eq!(refused.message, "provider rejected launch [X]: d");
    assert_eq!(refused.launch_phase, Some("guardian-startup"));
    assert!(refused.workload_may_be_alive);
    let foreign = launch_error(
        LaunchError::Rejected(rejection(BoundarySetupPhase::GuardianStartup, true)),
        true,
    );
    assert_eq!(foreign.code, "MCSEALED-WORKLOAD-REJECTION");
    assert_eq!(boundary_phase_name(BoundarySetupPhase::Retirement), "retirement");
    assert!(qualification_error("why".to_string()).message.contains("why"));
}

#[test]
fn answers_to_launches_are_told_apart() {
    let answer = |kind: u16, reading: LaunchReading| {
        let frame =
            WireFrame { kind, nonce: vec![5; 16], attempt: vec![6; 16], payload: b"raw".to_vec() };
        launch(frame, &[5; 16], &[6; 16], 100, reading)
    };
    let reading = || LaunchReading {
        rejection: Ok(rejection(BoundarySetupPhase::Monitoring, true)),
        policy: PolicyReading {
            enforcement: PolicyEnforcement::Other,
            consistent: true,
            fault: None,
        },
        boot: Ok(()),
        bound: true,
    };
    assert!(matches!(answer(106, reading()), Err(LaunchError::Rejected(_))));
    let unread = LaunchReading { rejection: Err("bad".to_string()), ..reading() };
    match answer(106, unread) {
        Err(LaunchError::Transport(text)) => assert_eq!(text, "invalid provider rejection: bad"),
        other => panic!("{other:?}"),
    }
    match answer(104, reading()) {
        Err(LaunchError::Transport(text)) => assert_eq!(text, "provider omitted terminal receipt"),
        other => panic!("{other:?}"),
    }
    assert!(matches!(answer(105, reading()), Err(LaunchError::Transport(_))));
}

// Installed runtimes.

fn component(
    role: RuntimeComponentRole,
    id: &str,
    path: &str,
    bytes: &[u8],
) -> RuntimeComponent {
    RuntimeComponent {
        role,
        id: id.to_string(),
        path: path.to_string(),
        mode: 0o755,
        size: bytes.len() as u64,
        sha256: digest_bytes(bytes),
    }
}

#[test]
fn linux_runtimes_are_verified() {
    let manifest = ManifestReading {
        version: "1.0".to_string(),
        components: vec![
            component(RuntimeComponentRole::PublicCli, "public-cli", "memcordon", b"cli"),
            component(
                RuntimeComponentRole::SealedAgent,
                "sealed-agent",
                "memcordon-sealed-agent",
                b"agent",
            ),
        ],
        bound: Ok(true),
        supported: true,
    };
    assert!(verify(&manifest, "1.0", "x86_64", false, &Ok(b"agent".to_vec())).is_ok());
    assert!(verify(&manifest, "1.0", "x86_64", false, &Ok(b"agenT".to_vec())).is_err());
    assert_eq!(
        verify(&manifest, "1.0", "mips", false, &Ok(b"agent".to_vec())).unwrap_err(),
        "unsupported provider runtime target"
    );
}

#[test]
fn private_runtimes_are_verified() {
    let manifest = || PrivateManifestReading {
        bytes: b"manifest".to_vec(),
        source_commit: "c".to_string(),
        version: "1.0".to_string(),
        target: "x86_64-unknown-linux-gnu".to_string(),
        sealed: Some(SealedRuntime { agent_component: "a".to_string(), first_qualified: true }),
        components: vec![component(RuntimeComponentRole::SealedAgent, "a", "p", b"agent")],
    };
    let plan = PrivatePlanRuntime {
        runtime_manifest_sha256: digest_bytes(b"manifest"),
        source_commit: "c".to_string(),
        native_abi: QualifiedNativeAbi::X86_64LinuxGnu,
    };
    let check = |manifest: PrivateManifestReading, agent: &[u8]| {
        verify_private(&plan, &manifest, "1.0", "x86_64", &Ok(agent.to_vec()))
    };
    assert!(check(manifest(), b"agent").is_ok());
    assert_eq!(
        check(manifest(), b"other").unwrap_err(),
        "installed private provider bytes differ from runtime manifest"
    );
    assert_eq!(
        check(PrivateManifestReading { sealed: None, ..manifest() }, b"agent").unwrap_err(),
        "installed runtime has no Linux V2 sealed provider"
    );
    assert_eq!(
        check(PrivateManifestReading { bytes: vec![], ..manifest() }, b"agent").unwrap_err(),
        "private plan differs from installed runtime identity"
    );
}

#[test]
fn windows_runtimes_are_verified() {
    let manifest = |components| ManifestReading {
        version: "1.0".to_string(),
        components,
        bound: Ok(true),
        supported: true,
    };
    let found = vec![Ok(b"a".to_vec()), Ok(b"b".to_vec()), Ok(b"c".to_vec())];
    assert_eq!(
        verify_binding(&manifest(vec![]), "1.0", "x86_64", &found).unwrap_err(),
        "installed runtime binding differs from provider"
    );
    assert_eq!(
        verify_binding(&manifest(vec![]), "1.0", "mips", &found).unwrap_err(),
        "unsupported Windows provider architecture"
    );
    let cli = || component(RuntimeComponentRole::PublicCli, "public-cli", "memcordon.exe", b"p");
    let whole = || {
        vec![
            cli(),
            component(
                RuntimeComponentRole::SealedAgent,
                "sealed-agent",
                "memcordon-sealed-agent.exe",
                b"a",
            ),
            component(
                RuntimeComponentRole::DesktopBootstrap,
                "target-desktop-bootstrap",
                "memcordon-target-desktop-bootstrap.exe",
                b"b",
            ),
            component(
                RuntimeComponentRole::SessionBroker,
                "session-broker",
                "memcordon-session-broker.exe",
                b"c",
            ),
        ]
    };
    assert!(verify_binding(&manifest(whole()), "1.0", "x86_64", &found).is_ok());
    let swapped = vec![Ok(b"b".to_vec()), Ok(b"a".to_vec()), Ok(b"c".to_vec())];
    assert_eq!(
        verify_binding(&manifest(whole()), "1.0", "x86_64", &swapped).unwrap_err(),
        "installed runtime image differs from manifest"
    );
    let same = vec![cli(), cli(), cli(), cli()];
    assert_eq!(
        verify_binding(&manifest(same), "1.0", "x86_64", &found).unwrap_err(),
        "installed runtime role inventory differs"
    );
}

// Windows runs.

fn claim(attempt: &str) -> Claim {
    Claim {
        version: 1,
        attempt_id: attempt.to_string(),
        nonce: "n".to_string(),
        request_sha256: "r".to_string(),
    }
}

fn started() -> WindowsRun {
    WindowsRun::begin(PreparedAnswer::StreamsPrepared(claim("a")), 1, "n", "r").unwrap()
}

fn hear(run: &mut WindowsRun, response: Response) -> RunAction {
    assert_eq!(run.looked(Ok(true), ms(1)).unwrap(), RunAction::Read);
    run.respond(response, ms(1)).unwrap()
}

fn authorized() -> WindowsRun {
    let mut run = started();
    let event = RelayEvent::TargetAuthorized;
    assert_eq!(hear(&mut run, Response::TargetAuthorized(claim("a"))), RunAction::Advance(event));
    assert_eq!(run.advanced(event, Ok(()), false).unwrap(), RunAction::WaitSignal);
    assert_eq!(run.idled(Ok(None)).unwrap(), RunAction::Look);
    run
}

#[test]
fn windows_runs_end_acknowledged() {
    let mut run = authorized();
    let event = RelayEvent::TargetRetired;
    assert_eq!(hear(&mut run, Response::TargetRetired(claim("a"))), RunAction::Advance(event));
    assert_eq!(run.advanced(event, Ok(()), false).unwrap(), RunAction::RetireRelays);
    assert_eq!(run.relays_retired(&vec![]).unwrap(), RunAction::SendRelaysRetired);
    assert_eq!(
        run.retired_sent(Ok(())).unwrap(),
        RunAction::Advance(RelayEvent::RelaysRetired)
    );
    run.advanced(RelayEvent::RelaysRetired, Ok(()), false).unwrap();
    run.idled(Ok(None)).unwrap();
    let end = Response::Terminal { claim: claim("a"), bounded: true };
    assert_eq!(hear(&mut run, end), RunAction::Advance(RelayEvent::Terminal));
    assert_eq!(
        run.advanced(RelayEvent::Terminal, Ok(()), false).unwrap(),
        RunAction::Acknowledge
    );
    assert_eq!(run.acknowledged(Ok(())).unwrap(), RunAction::Finish);
    assert_eq!(run.stage, RunStage::Over);
}

#[test]
fn ends_are_asked_for_again_once() {
    let mut run = authorized();
    assert_eq!(
        run.looked(Err(undecodable("bad".to_string())), ms(1)).unwrap(),
        RunAction::ObserveFailure(FrameFailure::Protocol(FramePhase::Decode))
    );
    assert_eq!(run.observed(true, ms(2)).unwrap(), RunAction::RetireRelays);
    assert_eq!(run.lost_retired(&vec![], ms(3)).unwrap(), RunAction::Reconnect);
    assert_eq!(run.deadline, Some(ms(30_003)));
    assert_eq!(run.reconnected(Ok(())).unwrap(), RunAction::Look);
    assert_eq!(run.replay_looked(Ok(false), ms(4)).unwrap(), RunAction::PauseLook);
    assert_eq!(run.replay_looked(Ok(true), ms(5)).unwrap(), RunAction::Read);
    let end = Response::Terminal { claim: claim("a"), bounded: true };
    assert_eq!(run.respond(end, ms(6)).unwrap(), RunAction::Acknowledge);
    let mut lost = authorized();
    lost.looked(Ok(true), ms(1)).unwrap();
    lost.read_failed(undecodable("bad".to_string()));
    assert!(lost.observed(false, ms(2)).is_err());
    let mut gone = authorized();
    gone.looked(Err(undecodable("bad".to_string())), ms(1)).unwrap();
    gone.observed(true, ms(2)).unwrap();
    gone.lost_retired(&vec![], ms(3)).unwrap();
    let error = gone.reconnected(Err(ReconnectFault::Connect("x".to_string()))).unwrap_err();
    assert!(error.message.ends_with("; secondary terminal replay reconnect failure: x"));
}

#[test]
fn second_losses_are_told() {
    let mut run = authorized();
    run.looked(Err(undecodable("bad".to_string())), ms(1)).unwrap();
    run.observed(true, ms(2)).unwrap();
    run.lost_retired(&vec![], ms(3)).unwrap();
    run.reconnected(Ok(())).unwrap();
    assert_eq!(run.replay_looked(Ok(true), ms(5)).unwrap(), RunAction::Read);
    let worse = undecodable("worse".to_string());
    let told = worse.text();
    let error = run.replay_failed(worse);
    let end = format!("; secondary exact terminal replay failure: {told}");
    assert!(error.message.ends_with(&end));
}

#[test]
fn unready_ends_are_waited_for() {
    let pending = || Response::ReplayPending {
        bound: true,
        detail: "d".to_string(),
        state: "s".to_string(),
        cleanup_complete: false,
        outbox: "o".to_string(),
    };
    let mut run = authorized();
    assert_eq!(hear(&mut run, pending()), RunAction::AdmitPending);
    assert_eq!(run.pending_admitted(true, ms(2)).unwrap(), RunAction::RetireRelays);
    run.pending_retired(&vec![], ms(3)).unwrap();
    run.reconnected(Ok(())).unwrap();
    assert_eq!(hear(&mut run, pending()), RunAction::AskAgain);
    assert_eq!(run.pending_sent(Ok(())).unwrap(), RunAction::Look);
    run.looked(Ok(true), ms(40_000)).unwrap();
    let error = run.respond(pending(), ms(40_000)).unwrap_err();
    assert!(error.message.contains("state=s cleanup_complete=false outbox=o"));
    let mut refused = authorized();
    hear(&mut refused, pending());
    assert!(refused.pending_admitted(false, ms(2)).is_err());
}

#[test]
fn rejections_end_windows_runs() {
    let mut run = authorized();
    let response = Response::Reject {
        claim: claim("a"),
        consistent: true,
        terminal: None,
        rejection: rejection(BoundarySetupPhase::Monitoring, true),
    };
    assert_eq!(hear(&mut run, response), RunAction::Advance(RelayEvent::Reject));
    assert_eq!(
        run.advanced(RelayEvent::Reject, Ok(()), true).unwrap(),
        RunAction::Acknowledge
    );
    let error = run.acknowledged(Err("late".to_string())).unwrap_err();
    assert!(error.message.ends_with("; secondary terminal acknowledgment failure: late"));
    let mut kept = authorized();
    kept.looked(Ok(true), ms(1)).unwrap();
    let retained = Response::AttemptRetained {
        bound: true,
        relay_phase: "p".to_string(),
        cleanup_complete: true,
        terminal_replay_available: false,
        primary_detail: "x".to_string(),
        secondary_failures: vec!["y".to_string(), "z".to_string()],
    };
    assert_eq!(
        kept.respond(retained, ms(1)).unwrap_err().message,
        "MCSEALED-WINDOWS-ATTEMPT-RETAINED: relay_phase=p cleanup_complete=true \
         terminal_replay_available=false primary=x secondary=y | z"
    );
    assert_eq!(transport_error("t".to_string()).code, "MCSEALED-WINDOWS-TRANSPORT");
    assert_eq!(usage_error("t".to_string()).code, "MCSEALED-WINDOWS-REQUEST");
    assert_eq!(broker_access("S-1"), "D:P(A;;GA;;;SY)(A;;GA;;;S-1)(A;;0x00101040;;;RC)");
}

#[test]
fn windows_ends_are_checked() {
    let terminal = |version: u32| WindowsTerminal {
        schema_version: version,
        outcome: RunOutcome::Exited {
            child: ChildTermination::ExitCode { code: 0 },
            peak: None,
            cleanup: CleanupSummary::default(),
        },
        child_pid: Some(9),
        duration_millis: 5,
        authorization_offset_millis: 2,
        restart_safety: RestartSafetyProof::default(),
        boundary_detail: BoundaryMechanismEvidence::Standard { backend: "b".to_string() },
    };
    let execution = run_windows(terminal(1), info(), true, true).unwrap();
    assert_eq!((execution.duration, execution.child_pid), (ms(5), Some(9)));
    assert_eq!(
        run_windows(terminal(2), info(), true, true).unwrap_err().code,
        "MCSEALED-WINDOWS-TERMINAL-EVIDENCE"
    );
    assert_eq!(
        run_windows(terminal(1), info(), true, false).unwrap_err().code,
        "MCSEALED-WINDOWS-EVIDENCE"
    );
}

#[test]
fn token_groups_are_searched() {
    let mut storage = vec![0u8; 8 + 16 + 12];
    storage[0] = 1;
    storage[8..16].copy_from_slice(&(0x1000u64 + 24).to_le_bytes());
    storage[16..20].copy_from_slice(&4u32.to_le_bytes());
    storage[24] = 1;
    storage[25] = 1;
    let length = storage.len();
    let reading = |length: u32, expected: bool| SidReading { valid: true, length, expected };
    let search =
        |reading| token_group_storage_contains(&storage, length, 0x1000, &vec![reading]);
    assert_eq!(search(reading(12, true)), Ok(true));
    assert_eq!(search(reading(12, false)), Ok(false));
    assert!(search(reading(13, true)).is_err());
    assert!(validated_token_sid_range(
        &storage,
        length,
        0x1000,
        0x1000 + 24,
        SidReading { valid: false, length: 12, expected: true }
    )
    .is_err());
    let mut user = vec![0u8; 16 + 12];
    user[..8].copy_from_slice(&(0x1000u64 + 16).to_le_bytes());
    user[16] = 1;
    user[17] = 1;
    let matches = |expected| {
        token_user_storage_matches(&user, user.len(), 0x1000, reading(12, true), expected)
    };
    assert_eq!(matches(Ok(())), Ok(true));
    assert_eq!(matches(Err("other")), Err("other"));
}
