use memcordon_platform::backend::SealedAvailability;
use memcordon_platform::evidence::{
    BoundarySetupPhase, ProviderRejectionEvidence, RestartSafetyProof,
};
use memcordon_platform::policy::{
    AttemptContext, BoundaryRequirement, Deadline, DeadlineScope, Enforcement, Lifetime, Metric,
    Policy, SwapPolicy,
};
use memcordon_platform::sealed::digest::digest_bytes;
use memcordon_platform::sealed::runtime::{
    linux_target, open_protected, protected, windows_boot_identity, AccessEntry, EntryFacts,
    WindowsFileReading,
};
use memcordon_platform::sealed::windows::{
    acknowledge_terminal_retirement, availability, certify_qualification_predicate_mutant,
    certify_windows_platform_mutant, probe, qualification_fields_are_advertisable,
    rejection_error, unqualified, windows_standard_route_selected, AckAnswer, Claim,
    PreparedAnswer, ProbeAnswer, Response, RunAction, WindowsMutantNativeObservation, WindowsRun,
    WindowsSealedMutant,
};
use memcordon_platform::sealed::windows_token::{
    checked_token_group_entries_range, checked_token_sid_range, token_group_entries,
    token_user_sid, SidReading,
};
use memcordon_platform::sealed::windows_wire::{
    adopt, all_pipes, announced_length, cancel_finding, connect_failed, encode_command,
    encode_environment, encode_policy, eq_but_case, frame_available, goes_to_provider,
    join_finding, launch_nonce, missing_provider_message, native_failure, peer_image, peer_service,
    read_step, relay_read, relay_wait, relay_wrote, signal_finding, start_relays, wait_verdict,
    write_frame, write_step, ConnectStep, FrameFailure, FramePhase, RelayStep, Relays,
    RemoteStream, StreamRole, ThreadEnd, ThreadWait, WaitVerdict, WindowsCommand,
    WindowsEnvironmentEntry,
};
use memcordon_platform::time::Duration;

fn ms(n: u64) -> Duration {
    Duration::from_millis(n)
}

#[test]
fn frames_announce_how_long_they_are() {
    let bytes = write_frame(b"abc", 100).unwrap();
    assert_eq!(bytes, vec![3, 0, 0, 0, b'a', b'b', b'c']);
    assert_eq!(announced_length(&bytes[..4], 100).unwrap(), 3);
    assert!(announced_length(&[101, 0, 0, 0], 100).is_err());
    assert!(write_frame(&[0; 101], 100).is_err());
    assert!(frame_available(4) && !frame_available(3));
    assert_eq!(read_step(5, 2, FramePhase::Payload).unwrap(), 3);
    assert!(read_step(5, 0, FramePhase::Payload).is_err());
    assert_eq!(write_step(5, 2).unwrap(), 3);
    assert!(write_step(5, 0).is_err());
    let closed = native_failure(Some(109), FramePhase::Length, "gone".to_string());
    assert!(matches!(closed.failure, FrameFailure::PeerClosed(FramePhase::Length)));
    let broken = native_failure(Some(5), FramePhase::Length, "gone".to_string());
    assert!(matches!(broken.failure, FrameFailure::Protocol(FramePhase::Length)));
}

#[test]
fn requests_hold_no_zero() {
    let command = |program: Vec<u16>| WindowsCommand { program, arguments: vec![vec![65]] };
    assert!(encode_command(command(vec![65])).is_ok());
    assert!(encode_command(command(vec![65, 0])).is_err());
    let entry = |name: Vec<u16>| WindowsEnvironmentEntry { name, value: vec![66] };
    assert!(encode_environment(vec![entry(vec![65])]).is_ok());
    assert!(encode_environment(vec![entry(vec![0])]).is_err());
}

fn policy() -> Policy {
    Policy {
        memory: Some(9),
        swap: SwapPolicy::Host,
        deadline: Some(Deadline { duration: ms(100), scope: DeadlineScope::Attempt }),
        lifetime: Lifetime::Command,
        enforcement: Enforcement::Hard,
        metric: Metric::Native,
        boundary: BoundaryRequirement::Sealed,
        poll_interval: ms(1),
        signal_grace: ms(2),
        command_exit_grace: ms(3),
        limit_grace: ms(4),
    }
}

#[test]
fn policies_are_encoded() {
    let encoded = encode_policy(&policy(), AttemptContext::unsupervised(), 1000).unwrap();
    assert_eq!(encoded.memory_limit_bytes, Some(9));
    assert_eq!(encoded.absolute_deadline_millis, Some(1100));
    assert_eq!(encoded.limit_grace_millis, 4);
    let free = Policy { deadline: None, ..policy() };
    assert_eq!(
        encode_policy(&free, AttemptContext::unsupervised(), 1000).unwrap().absolute_deadline_millis,
        None
    );
    let first = launch_nonce(1, 2, &[65]);
    assert_eq!(first, launch_nonce(1, 2, &[65]));
    assert_ne!(first, launch_nonce(2, 2, &[65]));
    assert_eq!(first.len(), 64);
}

#[test]
fn providers_are_connected_and_named() {
    assert!(matches!(connect_failed(Some(231), "busy".into(), 0), ConnectStep::WaitForPipe));
    assert!(matches!(connect_failed(Some(5), "denied".into(), 0), ConnectStep::GiveUp(_)));
    assert!(eq_but_case("Ab", "aB") && !eq_but_case("a", "b"));
    assert!(peer_image("C:\\X", "c:\\x").is_ok() && peer_image("C:\\Y", "c:\\x").is_err());
    assert!(peer_service(Ok(true), Ok(true), Ok(true)).is_ok());
    assert!(peer_service(Ok(false), Ok(true), Ok(true)).is_err());
    assert!(missing_provider_message("why").contains("why"));
    let error = unqualified("why");
    assert_eq!(error.code, "MCSEALED-WINDOWS-QUALIFICATION");
    assert_eq!(error.message, missing_provider_message("why"));
}

fn streams(handles: [u64; 3]) -> Vec<RemoteStream> {
    vec![
        RemoteStream { role: StreamRole::Stdin, handle: handles[0] },
        RemoteStream { role: StreamRole::Stdout, handle: handles[1] },
        RemoteStream { role: StreamRole::Stderr, handle: handles[2] },
    ]
}

#[test]
fn streams_are_adopted_once() {
    assert_eq!(adopt(&streams([1, 2, 3]), 4).len(), 4);
    assert_eq!(adopt(&streams([1, 1, 3]), 3).len(), 2);
    assert!(start_relays(&streams([1, 2, 3]), 4, Ok(())).is_ok());
    assert!(start_relays(&streams([1, 2, 3]), 3, Ok(())).is_err());
    assert!(start_relays(&streams([1, 2, 3]), 0, Ok(())).is_err());
    assert!(start_relays(&streams([1, 2, 3]), 4, Err("bad")).is_err());
    assert!(all_pipes(&[3, 3, 3]).is_ok() && all_pipes(&[3, 1, 3]).is_err());
    assert!(goes_to_provider(StreamRole::Stdin) && !goes_to_provider(StreamRole::Stdout));
}

#[test]
fn relays_end_with_what_was_found() {
    assert_eq!(cancel_finding(Some(1168), "none"), None);
    assert_eq!(
        cancel_finding(Some(5), "denied").unwrap(),
        "failed to cancel stream relay I/O: denied"
    );
    assert_eq!(relay_wait(ms(0), ms(7)), 7);
    assert!(matches!(wait_verdict(ThreadWait::Ended), WaitVerdict::Fine));
    assert!(matches!(wait_verdict(ThreadWait::TimedOut), WaitVerdict::Abort));
    assert!(matches!(wait_verdict(ThreadWait::Unknown(9)), WaitVerdict::Finding(_)));
    assert_eq!(join_finding(ThreadEnd::Ended), None);
    assert_eq!(join_finding(ThreadEnd::Failed("x".into())), Some("x".to_string()));
    assert_eq!(join_finding(ThreadEnd::Panicked).unwrap(), "stream relay thread panicked");
    assert_eq!(signal_finding(Ok(())), None);
    assert_eq!(
        signal_finding(Err("e".into())).unwrap(),
        "failed to signal relay retirement: e"
    );
    let mut relays = Relays { retired: false };
    assert!(relays.must_retire());
    assert_eq!(relays.retire(&vec!["a".into(), "b".into()]), Err("a; b".to_string()));
    assert!(!relays.must_retire());
    assert!(matches!(relay_read(Some(0)), RelayStep::Wait | RelayStep::End));
    assert!(matches!(relay_read(Some(5)), RelayStep::Write { from: 0 }));
    assert!(matches!(relay_read(None), RelayStep::End));
    assert!(matches!(relay_wrote(5, 0, Some(2)), Ok(RelayStep::Write { from: 2 })));
    assert!(matches!(relay_wrote(5, 3, Some(2)), Ok(RelayStep::Wait)));
}

#[test]
fn unqualified_providers_are_not_advertised() {
    assert!(qualification_fields_are_advertisable(true, true, None));
    assert!(!qualification_fields_are_advertisable(false, true, None));
    assert!(!windows_standard_route_selected(BoundaryRequirement::Sealed, None));
    assert!(windows_standard_route_selected(BoundaryRequirement::Standard, None));
    let mutant = WindowsSealedMutant::FallBackToStandard;
    assert!(windows_standard_route_selected(BoundaryRequirement::Sealed, Some(mutant)));
    match certify_windows_platform_mutant(mutant).unwrap() {
        WindowsMutantNativeObservation::PlatformRouteFallback {
            ordinary_route_sealed,
            mutant_route_standard,
        } => assert!(ordinary_route_sealed && mutant_route_standard),
        other => panic!("{other:?}"),
    }
    assert!(certify_windows_platform_mutant(WindowsSealedMutant::Other).is_none());
    match certify_qualification_predicate_mutant(WindowsSealedMutant::AdvertiseWithoutCertificate) {
        WindowsMutantNativeObservation::UnqualifiedAdvertisement {
            ordinary_advertised,
            mutant_advertised,
        } => assert!(!ordinary_advertised && mutant_advertised),
        other => panic!("{other:?}"),
    }
}

#[test]
fn qualified_providers_are_available() {
    let answer = |qualified: bool| ProbeAnswer::Probe {
        version: 1,
        qualified,
        consistent: true,
        provider_identity: "memcordon-sealed-agent-windows-v1:1.0".to_string(),
    };
    assert_eq!(probe(answer(true), 1, "1.0").unwrap(), "memcordon-sealed-agent-windows-v1:1.0");
    assert!(probe(answer(true), 1, "1.1").is_err());
    assert!(probe(answer(false), 1, "1.0").is_err());
    assert!(probe(answer(true), 2, "1.0").is_err());
    assert!(probe(ProbeAnswer::Other, 1, "1.0").is_err());
    match availability("p".to_string(), b"receipt") {
        SealedAvailability::Available { qualification, .. } => {
            assert_eq!(qualification.receipt_digest, digest_bytes(b"receipt"));
            assert_eq!(qualification.provider_identity, "p");
        }
        other => panic!("{other:?}"),
    }
}

fn claim(attempt: &str) -> Claim {
    Claim {
        version: 1,
        attempt_id: attempt.to_string(),
        nonce: "n".to_string(),
        request_sha256: "r".to_string(),
    }
}

fn started() -> WindowsRun {
    WindowsRun::begin(PreparedAnswer::StreamsPrepared(claim("a")), 1, "n", "r").unwrap()
}

fn rejection() -> ProviderRejectionEvidence {
    ProviderRejectionEvidence {
        schema_version: 1,
        code: "X".to_string(),
        phase: BoundarySetupPhase::BoundaryCreation,
        detail: "d".to_string(),
        os_code: Some(5),
        target_created: false,
        target_released: false,
        cleanup_attempted: true,
        restart_safety: RestartSafetyProof::default(),
        terminal_ack_required: false,
    }
}

#[test]
fn runs_are_bound_to_their_request() {
    assert!(WindowsRun::begin(PreparedAnswer::StreamsPrepared(claim("a")), 1, "m", "r").is_err());
    assert!(WindowsRun::begin(PreparedAnswer::StreamsPrepared(claim("a")), 2, "n", "r").is_err());
    assert!(WindowsRun::begin(PreparedAnswer::Other, 1, "n", "r").is_err());
    let refused = PreparedAnswer::Reject { claim: claim("a"), rejection: rejection() };
    assert!(WindowsRun::begin(refused, 1, "n", "r").is_err());
    let error = rejection_error(rejection());
    assert!(error.provider_rejection.is_some() && !error.target_released);
}

#[test]
fn runs_follow_their_provider() {
    let mut run = started();
    assert!(matches!(run.looked(Ok(true), ms(1)), Ok(RunAction::Read)));
    let authorized = Response::TargetAuthorized(claim("a"));
    assert!(matches!(run.respond(authorized, ms(2)), Ok(RunAction::Advance(_))));
    let mut run = started();
    run.looked(Ok(true), ms(1)).unwrap();
    assert!(run.respond(Response::TargetAuthorized(claim("b")), ms(2)).is_err());
    let mut run = started();
    assert!(matches!(run.looked(Ok(false), ms(1)), Ok(RunAction::WaitSignal)));
    assert!(matches!(run.idled(Ok(Some(2))), Ok(RunAction::SendCancel(2))));
    assert!(run.cancelled(Ok(())).is_ok());
}

#[test]
fn ends_are_acknowledged() {
    assert!(acknowledge_terminal_retirement(AckAnswer::TerminalRetired { bound: true }).is_ok());
    assert!(acknowledge_terminal_retirement(AckAnswer::TerminalRetired { bound: false }).is_err());
    assert!(acknowledge_terminal_retirement(AckAnswer::Other).is_err());
}

#[test]
fn token_entries_lie_within_their_response() {
    assert_eq!(checked_token_group_entries_range(40, 2), Ok((8, 40)));
    assert!(checked_token_group_entries_range(39, 2).is_err());
    assert!(checked_token_group_entries_range(usize::MAX, usize::MAX).is_err());
    let mut storage = vec![0u8; 8 + 16 + 12];
    storage[0] = 1;
    storage[8..16].copy_from_slice(&(0x1000u64 + 24).to_le_bytes());
    storage[16..20].copy_from_slice(&4u32.to_le_bytes());
    storage[24] = 1;
    storage[25] = 1;
    let entries = token_group_entries(&storage, storage.len(), 0x1000).unwrap();
    assert_eq!((entries[0].address, entries[0].attributes), (0x1000 + 24, 4));
    assert_eq!(
        checked_token_sid_range(&storage, storage.len(), 0x1000, 0x1000 + 24),
        Ok((24, 36))
    );
    assert!(checked_token_sid_range(&storage, storage.len(), 0x1000, 0x0fff).is_err());
    assert!(checked_token_sid_range(&storage, 35, 0x1000, 0x1000 + 24).is_err());
    let reading = SidReading { valid: true, length: 12, expected: true };
    assert!(token_user_sid(&storage[..4], 4, 0x1000, reading).is_err());
}

fn entry(directory: bool, uid: u32, mode: u32) -> Result<EntryFacts, String> {
    Ok(EntryFacts { directory, file: !directory, uid, mode, links: 1 })
}

#[test]
fn protected_files_have_protected_ancestors() {
    let good = vec![entry(true, 0, 0o40755)];
    assert!(protected(&good, &entry(false, 0, 0o100644)).is_ok());
    assert!(protected(&vec![entry(true, 5, 0o40755)], &entry(false, 0, 0o100644)).is_err());
    assert!(protected(&good, &entry(false, 0, 0o100666)).is_err());
    assert_eq!(linux_target("x86_64", false), Some("x86_64-unknown-linux-gnu"));
    assert_eq!(linux_target("mips", false), None);
}

#[test]
fn windows_files_are_privileged() {
    let reading = || WindowsFileReading {
        reparse: vec![false],
        regular: true,
        owner_privileged: true,
        access: Some(vec![AccessEntry { kind: 0, privileged: false, mask: 1 }]),
    };
    assert!(open_protected(&reading()).is_ok());
    let open = WindowsFileReading {
        access: Some(vec![AccessEntry { kind: 0, privileged: false, mask: 2 }]),
        ..reading()
    };
    assert!(open_protected(&open).is_err());
    assert!(open_protected(&WindowsFileReading { reparse: vec![true], ..reading() }).is_err());
    assert!(open_protected(&WindowsFileReading { access: None, ..reading() }).is_err());
    assert_eq!(windows_boot_identity(0, true, "b".to_string()), Ok("b".to_string()));
    assert!(windows_boot_identity(-1, true, "b".to_string()).is_err());
}
