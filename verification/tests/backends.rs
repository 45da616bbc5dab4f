use memcordon_platform::backend::{
    cleanup_stale, info, linux_info, owned_texts, probe, run, standard_boundary_support,
    standard_execution_evidence, BoundaryCapability, BoundaryQualification, BoundarySupport,
    Platform, ProbeReport, Route, SealedAvailability, StaleVerdict,
};
use memcordon_platform::evidence::{BackendCleanupFacts, BoundaryMechanismEvidence};
use memcordon_platform::linux_cgroup::StaleEntry;
use memcordon_platform::model::{Fault, FaultKind, Text};
use memcordon_platform::policy::{
    BoundaryClass, BoundaryRequirement, Enforcement, Lifetime, Metric, Policy, SwapPolicy,
};
use memcordon_platform::time::Duration;

fn policy(boundary: BoundaryRequirement, poll_ms: u64) -> Policy {
    Policy {
        memory: None,
        swap: SwapPolicy::Host,
        deadline: None,
        lifetime: Lifetime::Command,
        enforcement: Enforcement::Auto,
        metric: Metric::Native,
        boundary,
        poll_interval: Duration::from_millis(poll_ms),
        signal_grace: Duration::zero(),
        command_exit_grace: Duration::zero(),
        limit_grace: Duration::zero(),
    }
}

fn support(supported: bool) -> BoundarySupport {
    standard_boundary_support("cgroup-v2", supported, "not installed", &["provider"])
}

fn sealed_support() -> BoundarySupport {
    let capability = |class: BoundaryClass| BoundaryCapability {
        class,
        mechanism: "m".to_string(),
        target_gated: true,
        boundary_verified_before_authorization: true,
        target_can_reconfigure_boundary: false,
        frontend_loss_cleanup_authority: true,
        workload_empty_proof: true,
        limitations: vec![],
    };
    BoundarySupport {
        standard: capability(BoundaryClass::Standard),
        sealed: SealedAvailability::Available {
            capability: capability(BoundaryClass::Sealed),
            qualification: BoundaryQualification {
                provider_identity: "p".to_string(),
                receipt_digest: "d".to_string(),
                mechanism: "m".to_string(),
            },
        },
    }
}

#[test]
fn standard_support_names_what_is_missing() {
    let found = support(true);
    assert_eq!(found.standard.class, BoundaryClass::Standard);
    assert_eq!(found.standard.mechanism, "cgroup-v2");
    match found.sealed {
        SealedAvailability::Unavailable { reason, prerequisites } => {
            assert_eq!(reason, "not installed");
            assert_eq!(prerequisites, vec!["provider"]);
        }
        other => panic!("{other:?}"),
    }
    assert!(found.standard.target_gated && found.standard.target_can_reconfigure_boundary);
    let bare = support(false).standard;
    assert_eq!(bare.class, BoundaryClass::Standard);
    assert!(!bare.target_gated && !bare.workload_empty_proof);
    assert_eq!(bare.limitations, vec!["standard supervision is not a sealed boundary"]);
    assert_eq!(owned_texts(&["a", "b"]), vec!["a", "b"]);
}

#[test]
fn requests_get_a_backend_that_keeps_their_boundary() {
    let report = ProbeReport {
        selected: Some(linux_info(support(true))),
        available: vec![linux_info(support(true)), linux_info(sealed_support())],
        unavailable: vec![],
    };
    let standard = report.selected_for(BoundaryRequirement::Standard).unwrap();
    assert!(!standard.supports_boundary(BoundaryRequirement::Sealed));
    let sealed = report.selected_for(BoundaryRequirement::Sealed).unwrap();
    assert!(sealed.supports_boundary(BoundaryRequirement::Sealed));
}

#[test]
fn sealed_requests_do_not_fall_back() {
    let report = ProbeReport {
        selected: Some(linux_info(support(true))),
        available: vec![linux_info(support(true))],
        unavailable: vec![],
    };
    assert!(report.selected_for(BoundaryRequirement::Sealed).is_none());
    let mut nothing = support(false);
    nothing.standard.class = BoundaryClass::Unavailable;
    let nothing = ProbeReport {
        selected: Some(linux_info(nothing)),
        available: vec![],
        unavailable: vec![],
    };
    assert!(nothing.selected_for(BoundaryRequirement::Standard).is_none());
}

#[test]
fn runs_are_routed() {
    let standard = policy(BoundaryRequirement::Standard, 10);
    assert_eq!(run(Platform::Linux, &standard).unwrap(), Route::LinuxCgroup);
    assert_eq!(run(Platform::MacOs, &standard).unwrap(), Route::MacosWatchdog);
    assert_eq!(run(Platform::Windows, &standard).unwrap(), Route::WindowsJob);
    assert_eq!(
        run(Platform::Windows, &policy(BoundaryRequirement::Sealed, 10)).unwrap(),
        Route::WindowsSealed
    );
    assert_eq!(run(Platform::OtherUnix, &standard).unwrap(), Route::UnixWatchdog);
    assert_eq!(run(Platform::Other, &standard).unwrap_err().code, "MCUNSUPPORTED-PLATFORM");
    for platform in [Platform::Linux, Platform::MacOs, Platform::OtherUnix] {
        let error = run(platform, &policy(BoundaryRequirement::Sealed, 10)).unwrap_err();
        assert_eq!(error.code, "MCBOUNDARY-UNSUPPORTED");
        assert!(!error.target_released && error.authorization_offset.is_none());
    }
    let hasty = run(Platform::Other, &policy(BoundaryRequirement::Standard, 9)).unwrap_err();
    assert_eq!(hasty.code, "MCUSAGE-POLL-INTERVAL");
    assert_eq!(hasty.message, "watchdog poll interval must be at least 10ms");
}

#[test]
fn platforms_are_probed() {
    let none = ProbeReport::empty;
    let linux = probe(Platform::Linux, Ok(support(true)), none());
    assert_eq!(linux.selected.unwrap().name, "linux-cgroup-v2");
    assert_eq!(linux.available.len(), 1);
    assert_eq!(linux.available[0].class, "hard");
    assert_eq!(linux.available[0].metric, "linux-cgroup-memory");
    assert_eq!(linux.available[0].limitations.len(), 3);
    let broken = probe(Platform::Linux, Err("no delegation".to_string()), none());
    assert!(broken.selected.is_none() && broken.available.is_empty());
    assert_eq!(broken.unavailable[0].name, "linux-cgroup-v2");
    assert_eq!(broken.unavailable[0].reason, "no delegation");
    let macos = probe(Platform::MacOs, Err("ignored".to_string()), none());
    assert_eq!(macos.available[0].class, "watchdog");
    assert!(!macos.available[0].hard_limit && macos.available[0].memory_supported);
    assert_eq!(macos.selected.unwrap().metric, "physical-footprint-sum");
    assert_eq!(macos.unavailable[0].name, "kernel-backed");
    for platform in [Platform::Windows, Platform::OtherUnix] {
        let own = ProbeReport { selected: Some(info()), available: vec![], unavailable: vec![] };
        let found = probe(platform, Err("ignored".to_string()), own);
        assert_eq!(found.selected.unwrap().name, "macos-watchdog");
        assert!(found.unavailable.is_empty());
    }
    let other = probe(Platform::Other, Ok(support(true)), none());
    assert!(other.selected.is_none());
    assert_eq!(other.unavailable[0].reason, "this target is not supported");
    assert_eq!(info().limitations.len(), 3);
}

#[test]
fn standard_runs_claim_what_they_proved() {
    let facts = BackendCleanupFacts {
        direct_child_reaped: true,
        workload_empty: Some(true),
        helpers_reaped: true,
        containment_removed: false,
        containment_incapable_of_live_members: true,
        errors: vec!["remove-cgroup: busy".to_string()],
    };
    let (launch, safety, detail) = standard_execution_evidence(&linux_info(support(true)), facts);
    assert!(launch.target_released);
    assert_eq!(launch.boundary_effective, BoundaryClass::Standard);
    assert!(safety.direct_child_reaped && !safety.containment_removed);
    assert!(!safety.sealed_boundary_retired);
    assert_eq!(safety.errors, vec!["remove-cgroup: busy"]);
    match detail {
        BoundaryMechanismEvidence::Standard { backend } => assert_eq!(backend, "linux-cgroup-v2"),
        other => panic!("{other:?}"),
    }
}

fn own() -> StaleEntry {
    StaleEntry { own_name: true, directory: true, has_procs: true, has_events: true, has_kill: true }
}

#[test]
fn live_groups_are_never_removed() {
    let live = Ok("populated 1\nfrozen 0\n".to_string());
    assert_eq!(cleanup_stale(Platform::Linux, false, own(), live).unwrap(), StaleVerdict::Keep);
    let dead = || Ok("populated 0\n".to_string());
    assert_eq!(cleanup_stale(Platform::Linux, false, own(), dead()).unwrap(), StaleVerdict::Remove);
    assert_eq!(cleanup_stale(Platform::Linux, true, own(), dead()).unwrap(), StaleVerdict::List);
    assert_eq!(cleanup_stale(Platform::MacOs, false, own(), dead()).unwrap(), StaleVerdict::Keep);
    let foreign = StaleEntry { own_name: false, ..own() };
    assert_eq!(cleanup_stale(Platform::Linux, false, foreign, dead()).unwrap(), StaleVerdict::Keep);
}

#[test]
fn unreadable_groups_stop_the_cleanup() {
    let fault =
        Fault { kind: FaultKind::NotFound, os_code: Some(2), text: Text::Given("gone".to_string()) };
    let error = cleanup_stale(Platform::Linux, false, own(), Err(fault)).unwrap_err();
    assert_eq!((error.code, error.os_code), ("MCSETUP-CGROUP", Some(2)));
    let error =
        cleanup_stale(Platform::Linux, false, own(), Ok("populated x".to_string())).unwrap_err();
    assert_eq!(error.message, "invalid cgroup counter: invalid digit found in string");
    let error = cleanup_stale(Platform::Linux, false, own(), Ok("populated".to_string())).unwrap_err();
    assert_eq!(error.message, "missing cgroup counter value");
}
