//! The sealed provider: what it must show before it is trusted, and what its answers to
//! private launches allow.

use vstd::prelude::*;

use crate::backend::Platform;
use crate::evidence::{BoundarySetupPhase, Error};
use crate::model::Fault;
use crate::policy::{BoundaryRequirement, Policy};
use crate::scan::trimmed;
use crate::sealed::digest::{digest_bytes, sha256_of, valid_sha256};
use crate::sealed::frame::WireFrame;
use crate::sealed::planned::{
    execute_private_v2, execute_private_v2_with_expected_plan, PlannedLaunch, PlannedStage,
};
use crate::sealed::private::{
    after_send, decode_private_frame, private_launch_plannable, private_plan_exchange_v2,
    validate_private_service_report, PrivateContracts, PrivateExpectedResultV2,
    PrivateLaunchErrorV2, PrivatePlanExchangeV2, PrivatePlanReading, PrivatePlanReceipt,
    PrivateReading, PrivateReleaseKnowledgeV2, PrivateReplayDispositionV2, PrivateReport,
    PrivateResponseFailureV2, PrivateServiceResultV2,
};
use crate::sealed::probe::{
    parse_qualification, probe, validate_exact_provider_pairing, verify_endpoint, verify_peer,
    workload_discovery, workload_plan, DiscoveryReading, FileFacts, PlanKind, PlanReading,
    ProbeReceipt, QualificationReceipt,
};
use crate::sealed::reuse::{
    reuse_between_attempts_barrier, verify_reuse_barrier_peer, PeerFacts, RejectionWire, ReusePair,
    ReuseStage,
};
use crate::sealed::runtime::{
    open_protected, protected, verify, EntryFacts, ManifestReading, RuntimeComponent,
    RuntimeComponentRole, WindowsFileReading,
};
use crate::supervise::{
    attempt_route, may_discover_workloads, may_plan_workload, may_supervise, supervise,
    AttemptRoute, SupervisorRequest,
};
use crate::supervision::{AttemptKind, Supervision, SupervisionStage};
use crate::text::hex;

verus! {

/// A provider is trusted only where its probe answers this request, its qualification is
/// complete, its identities are the known ones and its version is the caller's.
pub proof fn probed_providers_are_qualified(
    frame: &WireFrame,
    nonce: &[u8],
    reading: Result<QualificationReceipt, String>,
    version: &str,
    r: Result<ProbeReceipt, String>,
)
    requires
        call_ensures(probe, (frame, nonce, reading, version), r),
    ensures
        r matches Ok(receipt) ==> {
            let q = reading->Ok_0;
            &&& frame.kind == 101 && frame.nonce@ == nonce@ && frame.attempt@.len() == 16
            &&& forall|i: int| 0 <= i < 16 ==> frame.attempt@[i] == 0
            &&& reading is Ok && q.version@ == version@ && q.schema_version == 3
                && q.baseline_profile
            &&& q.mechanism@ == "linux-pid-namespace-cgroup-v2"@ && q.provider_identity@
                == "memcordon-sealed-agent-v2"@
            &&& receipt.version@ == version@ && receipt.provider_identity@
                == "memcordon-sealed-agent-v2"@ && receipt.control_service_identity@
                == "memcordon-sealed-agent.service:v2"@ && receipt.launcher_service_identity@
                == "memcordon-sealed-launcher.service:v2"@
            &&& receipt.receipt_digest == q.receipt_digest
            &&& receipt.setid_transition_certification_digest
                == q.setid_transition_certification_digest
                && receipt.sudo_transition_certification_digest
                == q.sudo_transition_certification_digest
            &&& q.facts.unified_cgroup_v2 && q.facts.private_cgroup_subtree && q.facts.clone3
                && q.facts.clone3_into_cgroup && q.facts.pid_namespace && q.facts.mount_namespace
                && q.facts.cgroup_namespace && q.facts.pidfd && q.facts.close_range
            &&& q.facts.guardian_outside_boundary && q.facts.target_gated
                && q.facts.assignment_verified && q.facts.inherited_descriptors_verified
                && q.facts.spawn_error_reporting_verified
                && q.facts.frontend_loss_authority_verified && q.facts.cgroup_kill
                && q.facts.workload_empty && q.facts.helpers_reaped && q.facts.boundary_retired
                && q.facts.recovery_complete
            &&& q.facts.split_control_and_launcher_services
                && q.facts.launcher_no_new_privs_disabled
                && q.facts.caller_mount_namespace_reproduction_verified
                && q.facts.caller_no_new_privs_reproduction_verified
                && q.facts.caller_capability_bounding_set_reproduction_verified
                && q.facts.initial_provider_capabilities_absent
                && q.facts.post_transition_cgroup_membership_verified
                && q.facts.post_transition_pid_namespace_verified
                && q.facts.post_transition_cleanup_verified
                && q.facts.recursive_provider_request_rejected
                && q.facts.workload_profile_probe_verified
        },
        frame.kind != 101 || frame.nonce@ != nonce@ ==> r is Err,
        (reading matches Ok(q) && q.version@ != version@) ==> r is Err,
{
}

/// A qualification that is complete passes as it is.
pub proof fn complete_qualifications_pass(
    receipt: QualificationReceipt,
    complete: bool,
    r: Result<QualificationReceipt, String>,
)
    requires
        call_ensures(QualificationReceipt::is_complete, (&receipt,), complete),
        call_ensures(parse_qualification, (Ok::<QualificationReceipt, String>(receipt),), r),
    ensures
        complete <==> r is Ok,
        r matches Ok(told) ==> told == receipt,
        complete ==> receipt.credential_transition_disposition@ == "preserve-caller-envelope"@
            && receipt.receipt_digest@.len() == 64,
{
}

/// A provider of another version is refused.
pub proof fn versions_must_agree(
    own: &str,
    provider: &str,
    own_channel: &str,
    channel: &str,
    r: Result<(), String>,
)
    requires
        call_ensures(validate_exact_provider_pairing, (own, provider, own_channel, channel), r),
    ensures
        r is Ok <==> own@ == provider@,
{
}

/// The provider's sockets belong to root and are closed to others; its executable is root's
/// and nobody else writes it; its peer is root.
pub proof fn endpoints_belong_to_root(
    provider: &Result<FileFacts, String>,
    launcher: &Result<FileFacts, String>,
    executable: &Result<FileFacts, String>,
    agent: &str,
    r: Result<(), String>,
    uid: Option<u32>,
    peer: Result<(), &'static str>,
)
    requires
        call_ensures(verify_endpoint, (provider, launcher, executable, agent), r),
        call_ensures(verify_peer, (uid,), peer),
    ensures
        r is Ok <==> {
            &&& provider matches Ok(p) && p.is_socket && p.uid == 0 && p.mode % 8 == 0
            &&& launcher matches Ok(l) && l.is_socket && l.uid == 0 && l.gid == 0 && l.mode % 512
                == 384
            &&& executable matches Ok(e) && e.is_file && e.uid == 0 && e.mode / 2 % 2 == 0 && e.mode
                / 16 % 2 == 0
        },
        peer is Ok <==> uid == Some(0u32),
{
}

/// Discovery and plans count only as answers to this request, within their size, valid, and
/// of this boot; a plan never tells of an execution.
pub proof fn plans_belong_to_this_boot(
    frame: &WireFrame,
    nonce: &[u8],
    limit: usize,
    found: Result<DiscoveryReading, String>,
    discovered: Result<(), String>,
    plan: Result<PlanReading, String>,
    planned: Result<(), String>,
)
    requires
        call_ensures(workload_discovery, (frame, nonce, limit, found), discovered),
        call_ensures(workload_plan, (frame, nonce, limit, plan), planned),
    ensures
        discovered is Ok ==> frame.kind == 109 && frame.nonce@ == nonce@ && frame.payload@.len()
            <= limit && found is Ok && found->Ok_0.valid && found->Ok_0.runtime is Ok
            && found->Ok_0.boot is Ok && trimmed(found->Ok_0.boot->Ok_0@)
            == found->Ok_0.named_boot@,
        planned is Ok ==> frame.kind == 108 && frame.nonce@ == nonce@ && frame.payload@.len()
            <= limit && plan is Ok && plan->Ok_0.valid && !(plan->Ok_0.kind is Executed) && (
        plan->Ok_0.kind matches PlanKind::Planned { runtime, boot, named_boot } ==> runtime is Ok
            && boot is Ok && trimmed(boot->Ok_0@) == named_boot@),
{
}

/// A private report is taken only where it is of this attempt and of the installed runtime,
/// bound to its checkpoint, and its workload is retired.
pub proof fn private_reports_belong_to_their_attempt(
    report: &PrivateReport,
    attempt: &[u8],
    expected: &PrivateExpectedResultV2,
    r: Result<(), String>,
)
    requires
        call_ensures(validate_private_service_report, (report, attempt, expected), r),
        r is Ok,
    ensures
        report.attempt_id@ == hex(attempt@),
        report.schema_version == expected.report_schema && report.native_abi == expected.native_abi,
        report.source_commit@ == expected.source_commit@,
        report.runtime_manifest_sha256@ == expected.runtime_manifest_sha256@,
        report.installed_qualification_sha256@ == expected.installed_qualification_sha256@,
        report.checkpoint is Ok && report.checkpoint_native_abi == report.native_abi,
        report.attempt_digest matches Ok(digest) && report.checkpoint_binding@ == digest@,
        report.retired,
{
}

/// What a private answer is worth: a terminal says that the target ran and is gone, a
/// rejection that nothing was released only where no target was created, anything else that
/// it may have been. Only what was surely not released is tried anew.
pub proof fn private_answers_allow_what_they_prove(
    frame: WireFrame,
    nonce: &[u8],
    attempt: &[u8],
    expected: &PrivateExpectedResultV2,
    limit: usize,
    reading: PrivateReading,
    result: PrivateServiceResultV2,
    knowledge: PrivateReleaseKnowledgeV2,
    disposition: PrivateReplayDispositionV2,
)
    requires
        call_ensures(
            decode_private_frame,
            (frame, nonce, attempt, expected, limit, reading),
            Ok::<PrivateServiceResultV2, PrivateResponseFailureV2>(result),
        ),
        call_ensures(PrivateServiceResultV2::release_knowledge, (&result,), knowledge),
        call_ensures(PrivateServiceResultV2::replay_disposition, (&result,), disposition),
    ensures
        frame.nonce@ == nonce@ && frame.attempt@ == attempt@ && frame.payload@.len() <= limit,
        frame.kind == 105 || frame.kind == 106 || frame.kind == 110,
        frame.kind == 105 ==> knowledge == PrivateReleaseKnowledgeV2::Released && disposition
            == PrivateReplayDispositionV2::QuerySameAttemptOnly && reading.report is Ok
            && reading.report->Ok_0.retired && reading.report->Ok_0.attempt_id@ == hex(attempt@),
        frame.kind == 106 ==> (reading.rejection matches Ok(rejection) && (
        !rejection.target_created ==> knowledge == PrivateReleaseKnowledgeV2::NotReleased
            && disposition == PrivateReplayDispositionV2::NewAttemptWithFreshAdmission) && (
        rejection.target_created ==> knowledge == PrivateReleaseKnowledgeV2::PossiblyReleased
            && disposition == PrivateReplayDispositionV2::DoNotReplay)),
        frame.kind == 110 ==> knowledge == PrivateReleaseKnowledgeV2::PossiblyReleased
            && disposition == PrivateReplayDispositionV2::DoNotReplay && (
        result matches PrivateServiceResultV2::Indeterminate { attempt_id, .. } && attempt_id@
            == attempt@),
{
}

/// An answer that is not taken leaves it open whether the target was released; so does a
/// request that could not be sent whole. Before that, nothing was released.
pub proof fn unsubmitted_requests_may_start_anew(
    error: &PrivateLaunchErrorV2,
    knowledge: PrivateReleaseKnowledgeV2,
    disposition: PrivateReplayDispositionV2,
    sent: Result<(), String>,
    r: Result<(), PrivateLaunchErrorV2>,
    failure: &PrivateResponseFailureV2,
    after: PrivateReleaseKnowledgeV2,
    replay: PrivateReplayDispositionV2,
)
    requires
        call_ensures(PrivateLaunchErrorV2::release_knowledge, (error,), knowledge),
        call_ensures(PrivateLaunchErrorV2::replay_disposition, (error,), disposition),
        call_ensures(after_send, (sent,), r),
        call_ensures(PrivateResponseFailureV2::release_knowledge, (failure,), after),
        call_ensures(PrivateResponseFailureV2::replay_disposition, (failure,), replay),
    ensures
        *error is BeforeSubmission ==> knowledge == PrivateReleaseKnowledgeV2::NotReleased
            && disposition == PrivateReplayDispositionV2::NewAttemptWithFreshAdmission,
        *error is AfterSubmission ==> knowledge == PrivateReleaseKnowledgeV2::PossiblyReleased
            && disposition == PrivateReplayDispositionV2::DoNotReplay,
        r is Ok <==> sent is Ok,
        r matches Err(failed) ==> failed is AfterSubmission,
        after == PrivateReleaseKnowledgeV2::PossiblyReleased && replay
            == PrivateReplayDispositionV2::DoNotReplay,
{
}

/// A private launch is planned only for a sealed boundary, under the private profile and the
/// administrator's identity, with contracts that hold.
pub proof fn private_launches_are_sealed(
    policy: &Policy,
    contracts: &PrivateContracts,
    r: Result<(), PrivateLaunchErrorV2>,
    plain: Result<PlannedLaunch, PrivateLaunchErrorV2>,
    expected_plan: bool,
    held: Result<PlannedLaunch, PrivateLaunchErrorV2>,
)
    requires
        call_ensures(private_launch_plannable, (policy, contracts), r),
        call_ensures(execute_private_v2, (policy, contracts), plain),
        call_ensures(
            execute_private_v2_with_expected_plan,
            (policy, contracts, expected_plan),
            held,
        ),
    ensures
        ({
            let may = policy.boundary == BoundaryRequirement::Sealed && contracts.plan is Ok
                && contracts.launch is Ok && !contracts.ordinary_contract && contracts.profile@
                == "linux-tcp4-private-v1"@ && contracts.administrator_identity;
            &&& r is Ok <==> may
            &&& plain is Ok <==> may
            &&& held is Ok <==> may
        }),
        plain matches Ok(launch) ==> launch.stage == PlannedStage::Planning && !launch.expected_plan
            && !launch.frozen && launch.plan is None,
        held matches Ok(launch) ==> launch.stage == PlannedStage::Planning && launch.expected_plan
            == expected_plan && launch.plan is None,
        r matches Err(error) ==> error is BeforeSubmission,
{
}

/// A plan is taken only from an answer to this request, and a frozen one only where it is
/// still the same.
pub proof fn plans_are_fresh(
    launch: &mut PlannedLaunch,
    frame: WireFrame,
    reading: PrivatePlanReading,
    same_plan: bool,
    r: Result<(), PrivateLaunchErrorV2>,
)
    requires
        old(launch).stage == PlannedStage::Asked,
        call_ensures(PlannedLaunch::planned, (launch, frame, reading, same_plan), r),
    ensures
        r is Ok ==> frame.nonce@ == old(launch).nonce@ && frame.kind == 111 && reading.receipt is Ok
            && reading.caller is Ok && reading.runtime is Ok && final(launch).plan == Some(
            reading.receipt->Ok_0,
        ) && final(launch).stage == PlannedStage::Planned && (old(launch).frozen ==> same_plan),
        frame.nonce@ == old(launch).nonce@ && frame.attempt@ == Seq::new(16, |i: int| 0u8)
            && frame.kind == 111 && reading.receipt is Ok && reading.caller is Ok
            && reading.runtime is Ok && (old(launch).frozen ==> same_plan) ==> r is Ok,
        r matches Err(error) ==> error is BeforeSubmission && final(launch).stage
            == PlannedStage::Over,
{
    assert(crate::sealed::probe::no_attempt() == Seq::new(16, |i: int| 0u8));
}

/// A submitted launch is judged by its answer alone: what fails before it is sent may start
/// anew, what fails after may not.
pub proof fn failures_tell_whether_it_was_sent(
    launch: &mut PlannedLaunch,
    detail: String,
    r: PrivateLaunchErrorV2,
    other: &mut PlannedLaunch,
    sent: Result<(), String>,
    after: Result<(), PrivateLaunchErrorV2>,
)
    requires
        call_ensures(PlannedLaunch::failed, (launch, detail), r),
        call_ensures(PlannedLaunch::sent, (other, sent), after),
    ensures
        old(launch).stage == PlannedStage::Sent <==> r is AfterSubmission,
        final(launch).stage == PlannedStage::Over,
        sent is Ok ==> after is Ok && final(other).stage == PlannedStage::Sent,
        sent is Err ==> (after matches Err(error) && error is AfterSubmission) && final(
            other).stage == PlannedStage::Over,
{
}

/// A plan's exchange is available or refused, and a refusal that claims an attempt is none.
pub proof fn plan_refusals_claim_nothing(
    frame: WireFrame,
    nonce: &[u8],
    reading: PrivatePlanReading,
    r: Result<PrivatePlanExchangeV2, String>,
)
    requires
        call_ensures(private_plan_exchange_v2, (frame, nonce, reading), r),
    ensures
        r matches Ok(PrivatePlanExchangeV2::Available { receipt, raw_response }) ==> frame.kind
            == 111 && frame.nonce@ == nonce@ && Ok::<PrivatePlanReceipt, String>(receipt)
            == reading.receipt && raw_response == frame.payload,
        r matches Ok(PrivatePlanExchangeV2::Rejected { evidence, .. }) ==> frame.kind == 106
            && frame.nonce@ == nonce@ && !evidence.target_created && !evidence.target_released
            && !evidence.cleanup_attempted && evidence.phase
            == BoundarySetupPhase::RequestValidation,
{
}

/// A pair of launches proves that reuse is blocked: the first must leave its cleanup
/// incomplete, the second must be refused before anything is allocated.
pub proof fn reuse_is_blocked_in_between(
    a: &mut ReusePair,
    first: PrivateServiceResultV2,
    first_wire: Result<RejectionWire, String>,
    after_first: Result<(), PrivateLaunchErrorV2>,
    b: &mut ReusePair,
    second: PrivateServiceResultV2,
    second_wire: Result<RejectionWire, String>,
    after_second: Result<PrivateServiceResultV2, PrivateLaunchErrorV2>,
)
    requires
        old(a).stage == ReuseStage::First,
        old(b).stage == ReuseStage::Second,
        call_ensures(ReusePair::first, (a, first, first_wire), after_first),
        call_ensures(ReusePair::second, (b, second, second_wire), after_second),
    ensures
        after_first is Ok <==> first is Rejected && (first_wire matches Ok(w) && w.code@
            == "MCSEALED-PRIVATE-REUSE-CLEANUP-INCOMPLETE"@ && w.phase
            == BoundarySetupPhase::Retirement && w.target_created && w.target_released
            && w.cleanup_attempted && !w.sealed_boundary_retired && w.cleanup_errors > 0),
        after_second is Ok <==> second is Rejected && (second_wire matches Ok(w) && w.code@
            == "MCSEALED-PRIVATE-REUSE-BLOCKED"@ && w.phase == BoundarySetupPhase::RequestValidation
            && !w.target_created && !w.target_released && !w.cleanup_attempted),
        after_second matches Ok(result) ==> result == second,
        after_first is Ok ==> final(a).stage == ReuseStage::Barrier,
        final(b).stage == ReuseStage::Over,
{
}

/// The barrier between the two is a stream to another root process, and opens by one byte.
pub proof fn the_barrier_is_roots(
    socket_type: Option<i32>,
    peer: Option<PeerFacts>,
    own: i32,
    r: Result<(), &'static str>,
    byte: u8,
    released: Result<(), &'static str>,
)
    requires
        call_ensures(verify_reuse_barrier_peer, (socket_type, peer, own), r),
        call_ensures(reuse_between_attempts_barrier, (byte,), released),
    ensures
        r is Ok <==> socket_type == Some(1i32) && (peer matches Some(p) && p.pid > 0 && p.uid == 0
            && p.pid != own),
        released is Ok <==> byte == 71,
{
}

/// A component of the runtime is protected only where root alone can write it and every
/// directory above it.
pub proof fn runtimes_are_writable_by_root_only(
    ancestors: &Vec<Result<EntryFacts, String>>,
    file: &Result<EntryFacts, String>,
    r: Result<(), String>,
)
    requires
        call_ensures(protected, (ancestors, file), r),
    ensures
        r is Ok <==> {
            &&& forall|i: int|
                0 <= i < ancestors@.len() ==> ((#[trigger] ancestors@[i]) matches Ok(a)
                    && a.directory && a.uid == 0 && a.mode / 2 % 2 == 0 && a.mode / 16 % 2 == 0)
            &&& file matches Ok(f) && f.file && f.uid == 0 && f.mode / 2 % 2 == 0 && f.mode / 16 % 2
                == 0 && f.links == 1
        },
{
    ancestors_are_sound(ancestors@);
}

proof fn ancestors_are_sound(ancestors: Seq<Result<EntryFacts, String>>)
    ensures
        crate::sealed::runtime::ancestors_fault(ancestors) is None <==> forall|i: int|
            0 <= i < ancestors.len() ==> ((#[trigger] ancestors[i]) matches Ok(a) && a.directory
                && a.uid == 0 && a.mode / 2 % 2 == 0 && a.mode / 16 % 2 == 0),
    decreases ancestors.len(),
{
    if ancestors.len() > 0 {
        let before = ancestors.drop_last();
        ancestors_are_sound(before);
        let last = ancestors[ancestors.len() - 1];
        assert(last == ancestors.last());
        if crate::sealed::runtime::ancestors_fault(ancestors) is None {
            assert forall|i: int| 0 <= i < ancestors.len() implies ((
            #[trigger] ancestors[i]) matches Ok(a) && a.directory && a.uid == 0 && a.mode / 2 % 2
                == 0 && a.mode / 16 % 2 == 0) by {
                if i < before.len() {
                    assert(before[i] == ancestors[i]);
                }
            }
        } else if forall|i: int|
            0 <= i < ancestors.len() ==> ((#[trigger] ancestors[i]) matches Ok(a) && a.directory
                && a.uid == 0 && a.mode / 2 % 2 == 0 && a.mode / 16 % 2 == 0) {
            assert forall|i: int| 0 <= i < before.len() implies ((
            #[trigger] before[i]) matches Ok(a) && a.directory && a.uid == 0 && a.mode / 2 % 2 == 0
                && a.mode / 16 % 2 == 0) by {
                assert(before[i] == ancestors[i]);
            }
        }
    }
}

/// An installed agent passes only where the manifest of this version names it with its size
/// and digest.
pub proof fn agents_match_their_manifest(
    manifest: &ManifestReading,
    version: &str,
    arch: &str,
    musl: bool,
    agent: &Result<Vec<u8>, String>,
    r: Result<(), String>,
)
    requires
        call_ensures(verify, (manifest, version, arch, musl, agent), r),
        r is Ok,
    ensures
        manifest.version@ == version@ && manifest.supported && manifest.bound == Ok::<bool, String>(
            true,
        ),
        manifest.components@.len() == 2,
        arch@ == "x86_64"@ || arch@ == "aarch64"@,
        agent matches Ok(bytes) && exists|i: int|
            0 <= i < 2 && (#[trigger] manifest.components@[i]).role
                == RuntimeComponentRole::SealedAgent && manifest.components@[i].id@
                == "sealed-agent"@ && manifest.components@[i].size == bytes@.len()
                && manifest.components@[i].sha256@ == hex(sha256_of(bytes@)),
        exists|i: int|
            0 <= i < 2 && (#[trigger] manifest.components@[i]).role
                == RuntimeComponentRole::PublicCli && manifest.components@[i].path@
                == "memcordon"@,
{
    let components = manifest.components@;
    first_has_its_role(components, RuntimeComponentRole::SealedAgent, 0);
    first_has_its_role(components, RuntimeComponentRole::PublicCli, 0);
    let a = crate::sealed::runtime::first_with(components, RuntimeComponentRole::SealedAgent, 0);
    let p = crate::sealed::runtime::first_with(components, RuntimeComponentRole::PublicCli, 0);
    assert(components[a].role == RuntimeComponentRole::SealedAgent);
    assert(components[p].role == RuntimeComponentRole::PublicCli);
}

proof fn first_has_its_role(
    components: Seq<RuntimeComponent>,
    role: RuntimeComponentRole,
    from: int,
)
    requires
        0 <= from <= components.len(),
    ensures
        ({
            let i = crate::sealed::runtime::first_with(components, role, from);
            &&& from <= i <= components.len()
            &&& i < components.len() ==> components[i].role == role
        }),
    decreases components.len() - from,
{
    if from < components.len() && components[from].role != role {
        first_has_its_role(components, role, from + 1);
    }
}

/// A Windows runtime file passes only behind no reparse point, owned by a privileged
/// identity, with an access list that grants no change to any other.
pub proof fn windows_files_are_protected(
    reading: &WindowsFileReading,
    r: Result<(), &'static str>,
)
    requires
        call_ensures(open_protected, (reading,), r),
        r is Ok,
    ensures
        reading.regular && reading.owner_privileged && reading.access is Some,
        forall|i: int| 0 <= i < reading.reparse@.len() ==> !(#[trigger] reading.reparse@[i]),
        forall|i: int|
            0 <= i < reading.access->0@.len() ==> (#[trigger] reading.access->0@[i]).kind == 0 && (
            !reading.access->0@[i].privileged ==> reading.access->0@[i].mask & 0x500d0156 == 0),
{
    accesses_are_sound(reading.access->0@, 0);
}

proof fn accesses_are_sound(entries: Seq<crate::sealed::runtime::AccessEntry>, from: int)
    requires
        0 <= from <= entries.len(),
        crate::sealed::runtime::access_fault(entries, from) is None,
    ensures
        forall|i: int|
            from <= i < entries.len() ==> (#[trigger] entries[i]).kind == 0 && (
            !entries[i].privileged ==> entries[i].mask & 0x500d0156 == 0),
    decreases entries.len() - from,
{
    if from < entries.len() {
        accesses_are_sound(entries, from + 1);
    }
}

/// A supervision begins only on a platform that has one and with a backend that serves its
/// boundary, and it begins at nothing.
pub proof fn supervisions_begin_at_nothing(
    platform: Platform,
    request: SupervisorRequest,
    installed: Result<(), Fault>,
    controller: Result<(), String>,
    may: Result<(), Error>,
    r: Result<Supervision, Error>,
)
    requires
        call_ensures(may_supervise, (platform, &request), may),
        call_ensures(supervise, (platform, request, installed, controller), r),
    ensures
        r is Ok <==> may is Ok && installed is Ok && (request.restarts ==> controller is Ok),
        platform == Platform::Other ==> (may matches Err(error) && error.code
            == "MCUNSUPPORTED-SUPERVISOR"),
        platform != Platform::Other && request.resolved_backend is None ==> (may is Ok
            <==> request.policy.boundary == BoundaryRequirement::Standard),
        r matches Ok(s) ==> s.stage == SupervisionStage::Ready && s.total == 0
            && s.targets_authorized == 0 && s.kind == AttemptKind::Initial && s.policy
            == request.policy && s.restarts == request.restarts && s.backend
            == request.resolved_backend && s.origin is None,
        may is Ok && installed is Err ==> (r matches Err(error) && error.os_code
            == installed->Err_0.os_code && (platform == Platform::Windows ==> error.code
            == "MCSETUP-CONSOLE") && (platform != Platform::Windows ==> error.code
            == "MCSETUP-SIGNAL")),
        may is Ok && installed is Ok && request.restarts && controller is Err ==> (r matches Err(
            error,
        ) && error.code == "MCRESTART-CONTROLLER"),
{
}

/// An attempt goes to its platform's backend for the boundary that was asked for; the ones
/// with a helper need its path.
pub proof fn attempts_go_to_their_backend(
    platform: Platform,
    request: &SupervisorRequest,
    r: Result<AttemptRoute, Error>,
)
    requires
        platform != Platform::Other,
        call_ensures(attempt_route, (platform, request), r),
    ensures
        ({
            let sealed = request.policy.boundary == BoundaryRequirement::Sealed;
            let helper = request.memcordon_executable is Some;
            &&& platform == Platform::Linux && sealed ==> r == Ok::<AttemptRoute, Error>(
                AttemptRoute::LinuxSealed,
            )
            &&& platform == Platform::Linux && !sealed && helper ==> r == Ok::<AttemptRoute, Error>(
                AttemptRoute::LinuxCgroup,
            )
            &&& platform == Platform::MacOs && !sealed && helper ==> r == Ok::<AttemptRoute, Error>(
                AttemptRoute::MacosWatchdog,
            )
            &&& (platform == Platform::Linux || platform == Platform::MacOs) && !sealed && !helper
                ==> (r matches Err(error) && error.code == "MCUSAGE-MEMCORDON-EXECUTABLE")
            &&& (platform == Platform::MacOs || platform == Platform::OtherUnix) && sealed ==> (
            r matches Err(error) && error.code == "MCBOUNDARY-UNSUPPORTED")
            &&& platform == Platform::OtherUnix && !sealed ==> r == Ok::<AttemptRoute, Error>(
                AttemptRoute::UnixWatchdog,
            )
            &&& platform == Platform::Windows && sealed ==> r == Ok::<AttemptRoute, Error>(
                AttemptRoute::WindowsSealed,
            )
            &&& platform == Platform::Windows && !sealed ==> r == Ok::<AttemptRoute, Error>(
                AttemptRoute::WindowsJob,
            )
        }),
{
}

/// Workloads are planned and discovered where there is a provider.
pub proof fn planning_needs_a_provider(
    platform: Platform,
    plan: Result<(), String>,
    discover: Result<(), String>,
)
    requires
        call_ensures(may_plan_workload, (platform,), plan),
        call_ensures(may_discover_workloads, (platform,), discover),
    ensures
        plan is Ok <==> platform == Platform::Linux || platform == Platform::Windows,
        discover is Ok <==> platform == Platform::Linux || platform == Platform::Windows,
{
}

/// A digest is sixty-four lower hexadecimal digits, two for each byte, the higher half first.
pub proof fn digests_are_hexadecimal(bytes: &[u8], r: String, value: &[char], valid: bool)
    requires
        call_ensures(digest_bytes, (bytes,), r),
        call_ensures(valid_sha256, (value,), valid),
    ensures
        r@.len() == 2 * sha256_of(bytes@).len(),
        forall|i: int|
            0 <= i < sha256_of(bytes@).len() ==> nibble(r@[2 * i]) * 16 + nibble(r@[2 * i + 1])
                == #[trigger] sha256_of(bytes@)[i],
        valid <==> value@.len() == 64 && forall|i: int|
            0 <= i < 64 ==> ('0' <= (#[trigger] value@[i]) <= '9' || 'a' <= value@[i] <= 'f'),
{
    let d = sha256_of(bytes@);
    assert forall|i: int| 0 <= i < d.len() implies nibble(r@[2 * i]) * 16 + nibble(r@[2 * i + 1])
        == #[trigger] d[i] by {
        assert((2 * i) / 2 == i && (2 * i) % 2 == 0 && (2 * i + 1) / 2 == i && (2 * i + 1) % 2
            == 1);
        let high = (d[i] / 16) as nat;
        let low = (d[i] % 16) as nat;
        assert(r@[2 * i] == crate::text::hex_char(high));
        assert(r@[2 * i + 1] == crate::text::hex_char(low));
    }
}

/// What a hexadecimal digit is worth.
pub open spec fn nibble(c: char) -> int {
    if '0' <= c <= '9' {
        c as int - '0' as int
    } else {
        c as int - 'a' as int + 10
    }
}

} // verus!
