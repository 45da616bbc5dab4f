use memcordon_platform::evidence::{
    BoundarySetupPhase, ProviderRejectionEvidence, RestartSafetyProof,
};
use memcordon_platform::policy::{
    AttemptContext, BoundaryRequirement, Deadline, DeadlineScope, Enforcement, Lifetime, Metric,
    Policy, SwapPolicy,
};
use memcordon_platform::sealed::digest::{digest_bytes, valid_sha256};
use memcordon_platform::sealed::frame::{
    announced_payload, encoded_frame, encoded_frame_for_version, read_frame, write_frame, WireFrame,
    HEADER_LENGTH, MAX_FRAME, PRIVATE_VERSION, VERSION,
};
use memcordon_platform::sealed::launch::{
    effective_deadline_duration, encode_launch, encode_private_v2_with_plan, monotonic_millis,
    EnvironmentEntry, LaunchCommand, PlanPrecondition, PrivateBinding,
};
use memcordon_platform::sealed::private::{
    decode_private_frame, private_attempt_hex, run_private_v2, PrivateExpectedResultV2,
    PrivateIndeterminateV11, PrivateLaunchErrorV2, PrivateReading, PrivateReleaseKnowledgeV2,
    PrivateReplayDispositionV2, PrivateReport, PrivateServiceResultV2, PrivateTerminalOutcome,
};
use memcordon_platform::sealed::probe::{
    probe, provider_installation_error, validate_exact_provider_pairing, verify_endpoint,
    verify_peer, workload_discovery, workload_plan, zero_attempt, DiscoveryReading, FileFacts,
    PlanKind, PlanReading, QualificationFacts, QualificationReceipt,
};
use memcordon_platform::sealed::terminal::{
    classify_terminal_exec_error, parse_terminal, terminal_policy, PolicyEnforcement, PolicyReading,
    PolicyTerminal, TerminalExecFailureClass, TerminalExecStatus,
};
use memcordon_platform::time::Duration;

fn policy() -> Policy {
    Policy {
        memory: Some(7),
        swap: SwapPolicy::Unlimited,
        deadline: None,
        lifetime: Lifetime::Workload,
        enforcement: Enforcement::Hard,
        metric: Metric::Native,
        boundary: BoundaryRequirement::Sealed,
        poll_interval: Duration::from_millis(1),
        signal_grace: Duration::from_millis(2),
        command_exit_grace: Duration::from_millis(3),
        limit_grace: Duration::from_millis(4),
    }
}

fn digest() -> String {
    "0123456789abcdef".repeat(4)
}

#[test]
fn digests_are_those_of_sha_256() {
    assert_eq!(
        digest_bytes(b""),
        "e3b0c44298fc1c149afbf4c8996fb92427ae41e4649b934ca495991b7852b855"
    );
    assert_eq!(
        digest_bytes(b"abc"),
        "ba7816bf8f01cfea414140de5dae2223b00361a396177a9cb410ff61f20015ad"
    );
    let chars = |text: &str| text.chars().collect::<Vec<char>>();
    assert!(valid_sha256(&chars(&digest_bytes(b"x"))));
    assert!(!valid_sha256(&chars(&digest_bytes(b"x").to_uppercase())));
    assert!(!valid_sha256(&chars("ab")));
}

#[test]
fn frames_are_read_back_as_written() {
    let nonce = [3u8; 16];
    let attempt = [4u8; 16];
    let bytes = encoded_frame(9, &nonce, &attempt, b"payload").unwrap();
    assert_eq!(bytes.len(), HEADER_LENGTH + 7);
    assert_eq!(&bytes[0..2], &[0, 3]);
    let header = &bytes[..HEADER_LENGTH];
    assert_eq!(announced_payload(header, VERSION), Ok(7));
    let frame = read_frame(header, bytes[HEADER_LENGTH..].to_vec()).unwrap();
    assert_eq!((frame.kind, frame.payload.as_slice()), (9, b"payload".as_slice()));
    assert_eq!((frame.nonce, frame.attempt), (nonce.to_vec(), attempt.to_vec()));
    assert_eq!(
        announced_payload(header, PRIVATE_VERSION),
        Err("unsupported provider protocol")
    );
    assert_eq!(
        read_frame(header, b"payloaD".to_vec()).unwrap_err(),
        "provider payload digest mismatch"
    );
    let mut long = header.to_vec();
    long[4] = 0xff;
    assert_eq!(announced_payload(&long, VERSION), Err("invalid provider frame length"));
}

#[test]
fn frames_are_bounded() {
    let zero = [0u8; 16];
    let most = vec![0u8; MAX_FRAME - HEADER_LENGTH];
    assert!(write_frame(1, &zero, &zero, &most).is_ok());
    let over = vec![0u8; MAX_FRAME - HEADER_LENGTH + 1];
    assert_eq!(write_frame(1, &zero, &zero, &over), Err("frame too large"));
    assert_eq!(
        encoded_frame_for_version(4, 1, &zero, &zero, &over),
        Err("frame exceeds protocol limit")
    );
}

#[test]
fn launches_are_encoded_byte_for_byte() {
    let command = LaunchCommand {
        program: b"sh".to_vec(),
        arguments: vec![b"-c".to_vec()],
        environment: vec![EnvironmentEntry { name: b"A".to_vec(), value: b"b".to_vec() }],
    };
    let bytes = encode_launch(
        &policy(),
        &command,
        Some(Duration::from_millis(5)),
        2,
        Ok(100),
        Some(Ok(b"c".to_vec())),
    )
    .unwrap();
    let mut expected = vec![0, 3, 0, 0, 0, 0, 0, 0, 0, 2, 0, 0, 0, 2];
    expected.extend_from_slice(b"sh");
    expected.extend_from_slice(&[0, 0, 0, 1, 0, 0, 0, 2]);
    expected.extend_from_slice(b"-c");
    expected.extend_from_slice(&[0, 0, 0, 1, 0, 0, 0, 1]);
    expected.extend_from_slice(b"A");
    expected.extend_from_slice(&[0, 0, 0, 1]);
    expected.extend_from_slice(b"b");
    expected.push(1);
    expected.extend_from_slice(&7u64.to_be_bytes());
    expected.push(2);
    expected.push(1);
    expected.extend_from_slice(&105u64.to_be_bytes());
    expected.extend_from_slice(&[1, 2]);
    for n in 1..5u64 {
        expected.extend_from_slice(&n.to_be_bytes());
    }
    expected.extend_from_slice(&[0, 0, 0, 5, 1, 2, 3, 4, 5]);
    expected.extend_from_slice(&[1, 0, 0, 0, 1]);
    expected.extend_from_slice(b"c");
    assert_eq!(bytes, expected);
}

#[test]
fn launches_that_do_not_fit_are_refused() {
    let command = |arguments: Vec<Vec<u8>>| LaunchCommand {
        program: b"sh".to_vec(),
        arguments,
        environment: vec![],
    };
    let said = |command: LaunchCommand, budget: Option<Duration>, clock: Result<u64, String>| {
        encode_launch(&policy(), &command, budget, 0, clock, None).unwrap_err()
    };
    assert_eq!(
        said(command(vec![vec![]; 4097]), None, Ok(0)),
        "launch argument count exceeds protocol limit"
    );
    assert_eq!(
        said(command(vec![vec![0; 65537]]), None, Ok(0)),
        "launch native value exceeds protocol limit"
    );
    assert_eq!(said(command(vec![]), Some(Duration::zero()), Err("clock".into())), "clock");
    let broken = encode_launch(&policy(), &command(vec![]), None, 0, Ok(0), Some(Err("c".into())));
    assert_eq!(broken.unwrap_err(), "c");
    assert_eq!(monotonic_millis(2, 999_999_999), Ok(2999));
    assert!(monotonic_millis(-1, 0).is_err() && monotonic_millis(0, 1_000_000_000).is_err());
    assert_eq!(monotonic_millis(i64::MAX, 0), Ok(u64::MAX));
}

#[test]
fn setup_shortens_the_supervision_only() {
    let attempt = Policy {
        deadline: Some(Deadline {
            duration: Duration::from_millis(50),
            scope: DeadlineScope::Attempt,
        }),
        ..policy()
    };
    let context = AttemptContext {
        supervision_offset: Duration::zero(),
        supervision_deadline_remaining: Some(Duration::from_millis(30)),
    };
    let spent = Duration::from_millis(10);
    assert_eq!(
        effective_deadline_duration(&attempt, context, spent),
        Some(Duration::from_millis(50))
    );
    let supervised = Policy {
        deadline: Some(Deadline {
            duration: Duration::from_millis(50),
            scope: DeadlineScope::Supervision,
        }),
        ..policy()
    };
    assert_eq!(
        effective_deadline_duration(&supervised, context, spent),
        Some(Duration::from_millis(20))
    );
    assert_eq!(effective_deadline_duration(&policy(), context, spent), None);
}

#[test]
fn private_requests_carry_their_binding() {
    let binding = PrivateBinding {
        registry_digest: vec![1; 32],
        qualification_digest: vec![2; 32],
        contract_digest: vec![3; 32],
    };
    let plain = encode_private_v2_with_plan(&binding, b"k", b"l", &None).unwrap();
    assert_eq!(&plain[0..2], &[0, 4]);
    assert_eq!(&plain[98..], &[0, 0, 0, 1, b'k', 0, 0, 0, 1, b'l']);
    let plan = Some(PlanPrecondition { contract_digest: vec![8; 32], generation_digest: vec![9; 32] });
    let planned = encode_private_v2_with_plan(&binding, b"k", b"l", &plan).unwrap();
    assert_eq!(&planned[0..2], &[0, 5]);
    assert_eq!(planned.len(), plain.len() + 64);
    assert!(run_private_v2(&plain, &[0; 16], &[6; 16]).is_ok());
    assert!(run_private_v2(&plain, &[0; 16], &[0; 16]).is_err());
}

fn terminal(changes: &[(&str, Option<&str>)]) -> Vec<u8> {
    let mut fields: Vec<(String, String)> = vec![
        ("schema-version", "2".to_string()),
        ("mechanism", "linux-pid-namespace-cgroup-v2".to_string()),
        ("policy-enforcement", "{}".to_string()),
        ("status", "0".to_string()),
        ("exec-status", "success".to_string()),
        ("exec-os-code", "none".to_string()),
        ("spawn-error-reported", "true".to_string()),
        ("target-pid", "77".to_string()),
        ("authorization-offset-millis", "12".to_string()),
        ("caller-envelope-digest", digest()),
        ("caller-capability-bounding-set-digest", digest()),
        ("caller-mount-namespace-digest", digest()),
        ("credential-transition-disposition", "preserve-caller-envelope".to_string()),
    ]
    .into_iter()
    .map(|(name, value)| (name.to_string(), value))
    .collect();
    for name in [
        "assignment-verified",
        "namespaces-verified",
        "target-initial-credentials-verified",
        "initial-provider-capabilities-absent",
        "caller-no-new-privs",
        "target-no-new-privs-matched",
        "target-capability-bounding-set-matched",
        "target-mount-context-derived-from-caller",
        "boundary-independent-of-credentials",
        "descriptors-verified",
        "writable-ancestor-cgroup-denied",
        "parent-namespace-handles-denied",
        "recursive-provider-request-denied",
        "guardian-ready-before-authorization",
        "frontend-loss-authority-verified",
        "cgroup-kill-invoked",
        "cgroup-empty",
        "init-reaped",
        "guardian-reaped",
        "boundary-retired",
    ] {
        fields.push((name.to_string(), "true".to_string()));
    }
    fields.push(("memory-limit-exceeded".to_string(), "false".to_string()));
    fields.push(("deadline-exceeded".to_string(), "false".to_string()));
    for (name, value) in changes {
        fields.retain(|(field, _)| field != name);
        if let Some(value) = value {
            fields.push((name.to_string(), value.to_string()));
        }
    }
    let lines: Vec<String> =
        fields.iter().map(|(name, value)| format!("{name}={value}\n")).collect();
    lines.concat().into_bytes()
}

fn reading() -> PolicyReading {
    PolicyReading {
        enforcement: PolicyEnforcement::Authorized {
            terminal: PolicyTerminal::Retired {
                controls_preserved: true,
                provider_resources_closed: true,
            },
        },
        consistent: true,
        fault: None,
    }
}

#[test]
fn terminal_receipts_are_read() {
    let receipt = parse_terminal(&terminal(&[]), 65536, &reading()).unwrap();
    assert_eq!((receipt.status, receipt.target_pid), (Some(0), 77));
    assert_eq!(receipt.authorization_offset_millis, 12);
    assert_eq!(receipt.exec_status, TerminalExecStatus::Succeeded);
    assert!(receipt.facts.boundary_retired && !receipt.facts.deadline_exceeded);
    assert_eq!(terminal_policy(&terminal(&[]), 65536).unwrap(), "{}");
    let failed = terminal(&[
        ("status", Some("127")),
        ("exec-status", Some("not-found")),
        ("exec-os-code", Some("2")),
    ]);
    let receipt = parse_terminal(&failed, 65536, &reading()).unwrap();
    assert_eq!(
        receipt.exec_status,
        TerminalExecStatus::Failed { class: TerminalExecFailureClass::NotFound, os_code: 2 }
    );
    let revoked = terminal(&[("status", Some("none")), ("policy-revoked", Some("true"))]);
    assert!(parse_terminal(&revoked, 65536, &reading()).unwrap().policy_revoked);
}

#[test]
fn terminal_receipts_are_refused() {
    let said = |changes: &[(&str, Option<&str>)]| {
        parse_terminal(&terminal(changes), 65536, &reading()).unwrap_err()
    };
    assert_eq!(said(&[("extra", Some("1"))]), "terminal receipt contains unknown fields");
    assert_eq!(said(&[("status", None)]), "terminal field status missing");
    assert_eq!(said(&[("status", Some("x"))]), "terminal status invalid");
    assert_eq!(said(&[("cgroup-empty", Some("yes"))]), "terminal fact cgroup-empty invalid");
    assert_eq!(
        said(&[("schema-version", Some("3"))]),
        "terminal receipt schema or mechanism is incompatible"
    );
    assert_eq!(
        said(&[("status", Some("none"))]),
        "terminal revocation and observed child status disagree"
    );
    assert_eq!(
        said(&[("exec-status", Some("not-found"))]),
        "terminal exec status and OS code are contradictory"
    );
    assert_eq!(
        said(&[("exec-status", Some("not-found")), ("exec-os-code", Some("13"))]),
        "terminal exec errno classification mismatch"
    );
    assert_eq!(
        said(&[("exec-status", Some("not-found")), ("exec-os-code", Some("2"))]),
        "terminal exec failure and child status are contradictory"
    );
    assert_eq!(
        said(&[("spawn-error-reported", Some("false"))]),
        "terminal receipt omitted verified spawn-error reporting"
    );
    assert_eq!(
        said(&[("caller-envelope-digest", Some("ab"))]),
        "terminal caller-envelope digest is invalid"
    );
    assert_eq!(
        said(&[
            ("status", Some("none")),
            ("policy-revoked", Some("true")),
            ("cgroup-empty", Some("false"))
        ]),
        "terminal policy revocation lacks verified admission retirement"
    );
    let doubled = [terminal(&[]), b"status=0\n".to_vec()].concat();
    assert_eq!(
        parse_terminal(&doubled, 65536, &reading()).unwrap_err(),
        "terminal receipt contains an empty or duplicate field"
    );
    let malformed = [terminal(&[]), b"status\n".to_vec()].concat();
    assert_eq!(
        parse_terminal(&malformed, 65536, &reading()).unwrap_err(),
        "terminal receipt field is malformed"
    );
    assert!(parse_terminal(&[0xff], 65536, &reading()).is_err());
    assert!(parse_terminal(&terminal(&[]), 10, &reading()).is_err());
    let odd = PolicyReading { consistent: false, ..reading() };
    assert_eq!(
        parse_terminal(&terminal(&[]), 65536, &odd).unwrap_err(),
        "terminal policy enforcement differs"
    );
}

#[test]
fn execution_errors_are_classified() {
    assert_eq!(classify_terminal_exec_error(2), TerminalExecFailureClass::NotFound);
    assert_eq!(classify_terminal_exec_error(13), TerminalExecFailureClass::NotExecutable);
    assert_eq!(classify_terminal_exec_error(12), TerminalExecFailureClass::Other);
}

fn qualification() -> QualificationReceipt {
    QualificationReceipt {
        schema_version: 3,
        baseline_profile: true,
        version: "1.2.3".to_string(),
        mechanism: "linux-pid-namespace-cgroup-v2".to_string(),
        provider_identity: "memcordon-sealed-agent-v2".to_string(),
        control_service_identity: "memcordon-sealed-agent.service:v2".to_string(),
        launcher_service_identity: "memcordon-sealed-launcher.service:v2".to_string(),
        receipt_digest: digest(),
        credential_transition_disposition: "preserve-caller-envelope".to_string(),
        setid_transition_certification_digest: digest(),
        sudo_transition_certification_digest: digest(),
        facts: QualificationFacts {
            workload_profile_probe_verified: true,
            unified_cgroup_v2: true,
            private_cgroup_subtree: true,
            clone3: true,
            clone3_into_cgroup: true,
            pid_namespace: true,
            mount_namespace: true,
            cgroup_namespace: true,
            pidfd: true,
            close_range: true,
            guardian_outside_boundary: true,
            target_gated: true,
            assignment_verified: true,
            inherited_descriptors_verified: true,
            spawn_error_reporting_verified: true,
            frontend_loss_authority_verified: true,
            cgroup_kill: true,
            workload_empty: true,
            helpers_reaped: true,
            boundary_retired: true,
            recovery_complete: true,
            split_control_and_launcher_services: true,
            launcher_no_new_privs_disabled: true,
            caller_mount_namespace_reproduction_verified: true,
            caller_no_new_privs_reproduction_verified: true,
            caller_capability_bounding_set_reproduction_verified: true,
            initial_provider_capabilities_absent: true,
            post_transition_cgroup_membership_verified: true,
            post_transition_pid_namespace_verified: true,
            post_transition_cleanup_verified: true,
            recursive_provider_request_rejected: true,
        },
    }
}

fn answer(kind: u16, payload: &[u8]) -> WireFrame {
    WireFrame { kind, nonce: vec![5; 16], attempt: zero_attempt(), payload: payload.to_vec() }
}

#[test]
fn providers_are_probed() {
    let receipt = probe(&answer(101, b""), &[5; 16], Ok(qualification()), "1.2.3").unwrap();
    assert_eq!(receipt.version, "1.2.3");
    let said = |frame: WireFrame, reading: Result<QualificationReceipt, String>, version: &str| {
        probe(&frame, &[5; 16], reading, version).unwrap_err()
    };
    assert_eq!(
        said(answer(102, b""), Ok(qualification()), "1.2.3"),
        "provider probe receipt identity mismatch"
    );
    assert!(said(answer(101, b""), Ok(qualification()), "1.2.4").contains("version mismatch"));
    let mut partial = qualification();
    partial.facts.cgroup_kill = false;
    assert_eq!(
        said(answer(101, b""), Ok(partial), "1.2.3"),
        "provider qualification receipt is incomplete or incompatible"
    );
    assert_eq!(said(answer(101, b""), Err("bad".into()), "1.2.3"), "bad");
    assert!(validate_exact_provider_pairing("1", "1", "a", "b").is_ok());
    assert!(provider_installation_error("c", "e", "agent").starts_with(
        "sealed provider is not installed or reachable: c: e"
    ));
}

#[test]
fn endpoints_belong_to_root() {
    let socket =
        || Ok(FileFacts { is_socket: true, is_file: false, uid: 0, gid: 0, mode: 0o140600 });
    let agent = || Ok(FileFacts { is_socket: false, is_file: true, uid: 0, gid: 0, mode: 0o100755 });
    assert!(verify_endpoint(&socket(), &socket(), &agent(), "a").is_ok());
    let foreign =
        Ok(FileFacts { is_socket: true, is_file: false, uid: 5, gid: 0, mode: 0o140600 });
    assert_eq!(
        verify_endpoint(&foreign, &socket(), &agent(), "a").unwrap_err(),
        "provider endpoint is not a root-owned socket identity"
    );
    assert_eq!(
        verify_endpoint(&socket(), &foreign, &agent(), "a").unwrap_err(),
        "launcher endpoint is not a root-only socket identity"
    );
    let open = Ok(FileFacts { is_socket: false, is_file: true, uid: 0, gid: 0, mode: 0o100777 });
    assert_eq!(
        verify_endpoint(&socket(), &socket(), &open, "a").unwrap_err(),
        "provider executable identity or permissions are unsafe"
    );
    assert!(verify_peer(Some(0)).is_ok());
    assert!(verify_peer(Some(1)).is_err() && verify_peer(None).is_err());
}

#[test]
fn plans_are_bound_to_the_boot() {
    let found = |boot: &str| {
        Ok(DiscoveryReading {
            valid: true,
            runtime: Ok(()),
            boot: Ok(boot.to_string()),
            named_boot: "B".to_string(),
        })
    };
    assert!(workload_discovery(&answer(109, b"x"), &[5; 16], 10, found("B\n")).is_ok());
    assert_eq!(
        workload_discovery(&answer(109, b"x"), &[5; 16], 10, found("C")).unwrap_err(),
        "discovery boot differs"
    );
    let plan = |kind: PlanKind| Ok(PlanReading { valid: true, kind });
    let planned = PlanKind::Planned {
        runtime: Ok(()),
        boot: Ok("B\n".to_string()),
        named_boot: "B".to_string(),
    };
    assert!(workload_plan(&answer(108, b"x"), &[5; 16], 10, plan(planned)).is_ok());
    assert!(workload_plan(&answer(108, b"x"), &[5; 16], 10, plan(PlanKind::Rejected)).is_ok());
    assert_eq!(
        workload_plan(&answer(108, b"x"), &[5; 16], 10, plan(PlanKind::Executed)).unwrap_err(),
        "workload plan returned an execution state"
    );
    assert!(workload_plan(&answer(108, b"x"), &[5; 16], 0, plan(PlanKind::Rejected)).is_err());
}

fn expected() -> PrivateExpectedResultV2 {
    PrivateExpectedResultV2 {
        report_schema: 11,
        source_commit: "c".to_string(),
        native_abi: 1,
        runtime_manifest_sha256: vec![1],
        installed_qualification_sha256: vec![2],
    }
}

fn report() -> PrivateReport {
    PrivateReport {
        schema_version: 11,
        source_commit: "c".to_string(),
        native_abi: 1,
        runtime_manifest_sha256: vec![1],
        installed_qualification_sha256: vec![2],
        attempt_id: private_attempt_hex(&[6; 16]),
        checkpoint: Ok(()),
        checkpoint_native_abi: 1,
        checkpoint_binding: vec![9],
        attempt_digest: Ok(vec![9]),
        retired: true,
        outcome: PrivateTerminalOutcome::Exited,
    }
}

fn rejection(target_created: bool) -> ProviderRejectionEvidence {
    ProviderRejectionEvidence {
        schema_version: 1,
        code: "X".to_string(),
        phase: BoundarySetupPhase::BoundaryCreation,
        detail: "d".to_string(),
        os_code: None,
        target_created,
        target_released: false,
        cleanup_attempted: true,
        restart_safety: RestartSafetyProof::default(),
        terminal_ack_required: false,
    }
}

fn private_reading(report: PrivateReport, created: bool) -> PrivateReading {
    PrivateReading {
        keys: Ok(()),
        report: Ok(report),
        rejection: Ok(rejection(created)),
        indeterminate: Ok(PrivateIndeterminateV11 {
            schema_version: 11,
            attempt_id: private_attempt_hex(&[6; 16]),
            release_knowledge: "possibly-released".to_string(),
            retirement_knowledge: "x".to_string(),
            replay_disposition: "do-not-replay".to_string(),
            reason_code: "MCSEALED-PRIVATE-TERMINAL-UNVERIFIED".to_string(),
        }),
    }
}

fn private_answer(kind: u16) -> WireFrame {
    WireFrame { kind, nonce: vec![5; 16], attempt: vec![6; 16], payload: b"raw".to_vec() }
}

#[test]
fn private_answers_are_authenticated() {
    let decode = |frame: WireFrame, reading: PrivateReading| {
        decode_private_frame(frame, &[5; 16], &[6; 16], &expected(), 100, reading)
    };
    match decode(private_answer(105), private_reading(report(), false)).unwrap() {
        PrivateServiceResultV2::Complete(terminal) => {
            assert_eq!(terminal.raw_response(), b"raw");
            assert!(terminal.restart_safety().sealed_boundary_retired);
            assert!(terminal.report().retired);
        }
        other => panic!("{other:?}"),
    }
    let mut foreign = report();
    foreign.source_commit = "d".to_string();
    let failure = decode(private_answer(105), private_reading(foreign, false)).unwrap_err();
    assert_eq!(failure.detail, "private terminal differs from request or installed readback");
    assert_eq!(failure.raw_response, Some(b"raw".to_vec()));
    assert_eq!(failure.replay_disposition(), PrivateReplayDispositionV2::DoNotReplay);
    let mut unbound = report();
    unbound.retired = false;
    assert_eq!(
        decode(private_answer(105), private_reading(unbound, false)).unwrap_err().detail,
        "private terminal lacks bound checkpoint and retirement"
    );
    assert_eq!(
        decode(private_answer(104), private_reading(report(), false)).unwrap_err().detail,
        "private response kind differs from V4 protocol"
    );
    let mut other = private_answer(105);
    other.attempt = vec![7; 16];
    assert_eq!(
        decode(other, private_reading(report(), false)).unwrap_err().detail,
        "private response nonce or attempt differs"
    );
}

#[test]
fn refusals_tell_whether_a_target_may_run() {
    let decode = |created: bool| {
        decode_private_frame(
            private_answer(106),
            &[5; 16],
            &[6; 16],
            &expected(),
            100,
            private_reading(report(), created),
        )
        .unwrap()
    };
    assert_eq!(decode(false).release_knowledge(), PrivateReleaseKnowledgeV2::NotReleased);
    assert_eq!(decode(true).release_knowledge(), PrivateReleaseKnowledgeV2::PossiblyReleased);
    assert_ne!(
        decode(true).replay_disposition(),
        PrivateReplayDispositionV2::NewAttemptWithFreshAdmission
    );
    let before = PrivateLaunchErrorV2::BeforeSubmission("x".to_string());
    assert_eq!(before.release_knowledge(), PrivateReleaseKnowledgeV2::NotReleased);
    assert_eq!(
        before.replay_disposition(),
        PrivateReplayDispositionV2::NewAttemptWithFreshAdmission
    );
}
