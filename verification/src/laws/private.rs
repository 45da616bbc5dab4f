//! What private launches send, what they take for an answer, and the runtimes they trust.

use vstd::prelude::*;

use crate::evidence::{Error, InitialSpawnFailure};
use crate::policy::{BoundaryRequirement, Policy};
use crate::sealed::digest::sha256_of;
use crate::sealed::frame::{frame_bytes, is_frame, FrameView, WireFrame};
use crate::sealed::planned::{
    execute_private_v2_frozen_port_rejection, planned_request, PlannedLaunch, PlannedStage,
    SubmissionParts,
};
use crate::sealed::private::{
    frozen_plan_holds, private_plan_request, receive_private_result, run_private_v2,
    PrivateContracts, PrivateExpectedResultV2, PrivateLaunchErrorV2, PrivatePlanReceipt,
    PrivateReading, PrivateResponseFailureV2, PrivateServiceResultV2,
};
use crate::sealed::probe::{discovery_request, plan_request, probe_request, zero_attempt};
use crate::sealed::reuse::{
    execute_private_v2_reuse_pair, reuse_launch_error, ReusePair, ReuseRequest, ReuseStage,
};
use crate::sealed::run::{terminal_revocation_error, terminal_spawn_error};
use crate::sealed::runtime::{
    check_manifest, first_agent, first_with, linux_target, verify, verify_private,
    windows_boot_identity, ManifestReading, PrivateManifestReading, PrivatePlanRuntime,
    QualifiedNativeAbi, RuntimeComponent, RuntimeComponentRole,
};
use crate::sealed::terminal::{TerminalExecFailureClass, TerminalReceipt};
use crate::text::hex;

verus! {

/// Whether bytes are a frame: version, kind and length stand first, then nonce, attempt,
/// digest and payload.
pub open spec fn says(
    s: Seq<u8>,
    version: int,
    kind: int,
    nonce: Seq<u8>,
    attempt: Seq<u8>,
    payload: Seq<u8>,
) -> bool {
    &&& s.len() == 72 + payload.len()
    &&& s[0] * 256 + s[1] == version
    &&& s[2] * 256 + s[3] == kind
    &&& s.subrange(8, 24) == nonce
    &&& s.subrange(24, 40) == attempt
    &&& s.subrange(40, 72) == sha256_of(payload)
    &&& s.skip(72) == payload
}

proof fn frames_say(s: Seq<u8>, version: u16, frame: FrameView)
    requires
        is_frame(s, version, frame),
        frame.nonce.len() == 16 && frame.attempt.len() == 16,
    ensures
        says(s, version as int, frame.kind as int, frame.nonce, frame.attempt, frame.payload),
{
    let v = crate::bytes::be16(version);
    let k = crate::bytes::be16(frame.kind);
    crate::bytes::be16_round(version);
    crate::bytes::be16_round(frame.kind);
    assert(s == frame_bytes(version, frame));
    assert(s[0] == v[0] && s[1] == v[1] && s[2] == k[0] && s[3] == k[1]);
    assert(sha256_of(frame.payload).len() == 32);
    assert(s.subrange(8, 24) =~= frame.nonce);
    assert(s.subrange(24, 40) =~= frame.attempt);
    assert(s.subrange(40, 72) =~= sha256_of(frame.payload));
}

/// A probe, a discovery and a plan are asked for under the request's nonce and no attempt,
/// the first two with nothing more to say.
pub proof fn questions_bear_their_nonce(
    nonce: &[u8],
    probe: Result<Vec<u8>, &'static str>,
    discovery: Result<Vec<u8>, &'static str>,
    valid: Result<(), String>,
    payload: &[u8],
    limit: usize,
    plan: Result<Vec<u8>, String>,
    none: Vec<u8>,
)
    requires
        nonce@.len() == 16,
        call_ensures(probe_request, (nonce,), probe),
        call_ensures(discovery_request, (nonce,), discovery),
        call_ensures(plan_request, (valid, payload, limit, nonce), plan),
        call_ensures(zero_attempt, (), none),
    ensures
        none@.len() == 16 && forall|i: int| 0 <= i < 16 ==> #[trigger] none@[i] == 0,
        probe matches Ok(bytes) && says(bytes@, 3, 1, nonce@, none@, Seq::empty()),
        discovery matches Ok(bytes) && says(bytes@, 3, 9, nonce@, none@, Seq::empty()),
        plan matches Ok(bytes) ==> says(bytes@, 3, 8, nonce@, none@, payload@),
        plan is Ok <==> valid is Ok && payload@.len() <= limit && payload@.len() + 72 <= 1_048_576,
{
    frames_say(
        probe->Ok_0@,
        3,
        FrameView { kind: 1, nonce: nonce@, attempt: none@, payload: Seq::empty() },
    );
    frames_say(
        discovery->Ok_0@,
        3,
        FrameView { kind: 9, nonce: nonce@, attempt: none@, payload: Seq::empty() },
    );
    if plan is Ok {
        frames_say(
            plan->Ok_0@,
            3,
            FrameView { kind: 8, nonce: nonce@, attempt: none@, payload: payload@ },
        );
    }
}

/// A private launch goes out under its nonce and its attempt, which is not zero; what cannot
/// go out was not submitted.
pub proof fn private_launches_bear_their_attempt(
    request: &[u8],
    nonce: &[u8],
    attempt: &[u8],
    r: Result<Vec<u8>, PrivateLaunchErrorV2>,
    valid: Result<(), String>,
    contract: Result<Vec<u8>, String>,
    none: Vec<u8>,
    plan: Result<Vec<u8>, String>,
)
    requires
        nonce@.len() == 16 && attempt@.len() == 16,
        call_ensures(run_private_v2, (request, nonce, attempt), r),
        call_ensures(zero_attempt, (), none),
        call_ensures(private_plan_request, (valid, contract, nonce), plan),
    ensures
        r is Ok <==> request@.len() + 72 <= 1_048_576 && exists|i: int|
            0 <= i < 16 && #[trigger] attempt@[i] != 0,
        r matches Ok(bytes) ==> says(bytes@, 4, 10, nonce@, attempt@, request@),
        r matches Err(error) ==> error is BeforeSubmission,
        plan is Ok <==> valid is Ok && contract is Ok && contract->Ok_0@.len() + 72 <= 1_048_576,
        plan matches Ok(bytes) ==> says(bytes@, 4, 13, nonce@, none@, contract->Ok_0@),
{
    let zeros = crate::sealed::probe::no_attempt();
    if attempt@ != zeros {
        if forall|i: int| 0 <= i < 16 ==> attempt@[i] == 0 {
            assert(attempt@ =~= zeros);
        }
    } else {
        assert forall|i: int| 0 <= i < 16 implies #[trigger] attempt@[i] == 0 by {}
    }
    if r is Ok {
        frames_say(
            r->Ok_0@,
            4,
            FrameView { kind: 10, nonce: nonce@, attempt: attempt@, payload: request@ },
        );
    }
    if plan is Ok {
        frames_say(
            plan->Ok_0@,
            4,
            FrameView { kind: 13, nonce: nonce@, attempt: none@, payload: contract->Ok_0@ },
        );
    }
}

/// A planned launch asks for its plan, then submits under the attempt it was given, then
/// takes one answer; nothing counts as submitted before.
pub proof fn planned_launches_go_in_order(
    a: &mut PlannedLaunch,
    contract: Result<Vec<u8>, String>,
    nonce: &[u8],
    none: Vec<u8>,
    asked: Result<Vec<u8>, PrivateLaunchErrorV2>,
    b: &mut PlannedLaunch,
    parts: SubmissionParts,
    attempt: &[u8],
    request: Result<Vec<u8>, String>,
    sent: Result<Vec<u8>, PrivateLaunchErrorV2>,
)
    requires
        nonce@.len() == 16 && attempt@.len() == 16,
        call_ensures(zero_attempt, (), none),
        old(a).stage == PlannedStage::Planning,
        call_ensures(PlannedLaunch::request_plan, (a, contract, nonce), asked),
        old(b).wf() && old(b).stage == PlannedStage::Planned && old(b).plan is Some,
        call_ensures(planned_request, (&old(b).plan->0, old(b).expected_plan, parts), request),
        call_ensures(PlannedLaunch::submission, (b, parts, nonce, attempt), sent),
    ensures
        asked is Ok ==> contract is Ok && says(
            asked->Ok_0@,
            4,
            13,
            nonce@,
            none@,
            contract->Ok_0@,
        ) && final(a).stage == PlannedStage::Asked && final(a).nonce@ == nonce@,
        asked matches Err(error) ==> error is BeforeSubmission && final(a).stage
            == PlannedStage::Over,
        contract is Ok && contract->Ok_0@.len() + 72 <= 1_048_576 ==> asked is Ok,
        sent is Ok ==> request is Ok && says(
            sent->Ok_0@,
            4,
            10,
            nonce@,
            attempt@,
            request->Ok_0@,
        ) && final(b).stage == PlannedStage::Ready && final(b).attempt@ == attempt@,
        sent matches Err(error) ==> error is BeforeSubmission && final(b).stage
            == PlannedStage::Over,
        request is Err ==> sent is Err,
{
    if asked is Ok {
        frames_say(
            asked->Ok_0@,
            4,
            FrameView { kind: 13, nonce: nonce@, attempt: none@, payload: contract->Ok_0@ },
        );
    }
    if sent is Ok {
        frames_say(
            sent->Ok_0@,
            4,
            FrameView { kind: 10, nonce: nonce@, attempt: attempt@, payload: request->Ok_0@ },
        );
    }
}

/// A request is made only of parts that are all there; a plan that was agreed on must come
/// with its precondition.
pub proof fn requests_need_all_their_parts(
    plan: &PrivatePlanReceipt,
    expected_plan: bool,
    parts: SubmissionParts,
    r: Result<Vec<u8>, String>,
)
    requires
        call_ensures(planned_request, (plan, expected_plan, parts), r),
    ensures
        r is Ok ==> parts.launch is Ok && parts.contract is Ok && parts.contract_digest is Ok && (
        expected_plan ==> parts.precondition is Ok),
        parts.launch is Ok && parts.contract is Ok && parts.contract_digest is Ok && (expected_plan
            ==> parts.precondition is Ok) && parts.launch->Ok_0@.len() <= 1_000
            && parts.contract->Ok_0@.len() <= 1_000 ==> r is Ok,
{
}

/// An answer to a private launch is taken only under its nonce and its attempt, within its
/// size and with keys that hold; any other is kept as it came, as a failure after the
/// submission.
pub proof fn private_answers_belong_to_their_attempt(
    frame: WireFrame,
    reading: PrivateReading,
    nonce: &[u8],
    attempt: &[u8],
    expected: &PrivateExpectedResultV2,
    limit: usize,
    r: Result<PrivateServiceResultV2, PrivateResponseFailureV2>,
    detail: String,
    lost: Result<PrivateServiceResultV2, PrivateResponseFailureV2>,
)
    requires
        call_ensures(
            receive_private_result,
            (Ok::<(WireFrame, PrivateReading), String>((frame, reading)), nonce, attempt, expected, limit),
            r,
        ),
        call_ensures(
            receive_private_result,
            (Err::<(WireFrame, PrivateReading), String>(detail), nonce, attempt, expected, limit),
            lost,
        ),
    ensures
        r is Ok ==> frame.nonce@ == nonce@ && frame.attempt@ == attempt@ && frame.payload@.len()
            <= limit && reading.keys is Ok && (frame.kind == 105 || frame.kind == 106 || frame.kind
            == 110),
        r matches Ok(result) ==> (result is Complete <==> frame.kind == 105) && (result is Rejected
            <==> frame.kind == 106) && (result is Indeterminate <==> frame.kind == 110),
        r matches Err(failure) ==> failure.raw_response == Some(frame.payload),
        frame.kind == 106 && frame.nonce@ == nonce@ && frame.attempt@ == attempt@
            && frame.payload@.len() <= limit && reading.keys is Ok && reading.rejection is Ok ==> r
            is Ok,
        lost matches Err(failure) && failure.raw_response is None && failure.detail@ == detail@,
{
}

/// The frozen port is tried only where the contract differs in one port, all of it can be
/// read, and the policy is sealed and private; the plan must be the one that was frozen.
pub proof fn frozen_launches_are_sealed(
    policy: &Policy,
    contracts: &PrivateContracts,
    one_port: bool,
    contract: Result<(), String>,
    caller: Result<(), String>,
    r: Result<PlannedLaunch, PrivateLaunchErrorV2>,
    same: bool,
    held: Result<(), PrivateLaunchErrorV2>,
)
    requires
        call_ensures(
            execute_private_v2_frozen_port_rejection,
            (policy, contracts, one_port, contract, caller),
            r,
        ),
        call_ensures(frozen_plan_holds, (same,), held),
    ensures
        r is Ok <==> one_port && contract is Ok && caller is Ok && contracts.plan is Ok
            && contracts.launch is Ok && policy.boundary == BoundaryRequirement::Sealed
            && !contracts.ordinary_contract && contracts.profile@ == "linux-tcp4-private-v1"@
            && contracts.administrator_identity,
        r matches Ok(launch) ==> launch.stage == PlannedStage::Planning && launch.expected_plan
            && launch.frozen && launch.plan is None,
        r matches Err(error) ==> error is BeforeSubmission,
        held is Ok <==> same,
        held matches Err(error) ==> error is BeforeSubmission,
{
}

/// A pair is reused only over descriptor four, with a barrier and a contract that hold, under
/// a sealed private policy; its plan must be the expected one, and its barrier is passed
/// before the second launch.
pub proof fn pairs_are_sealed_and_barred(
    policy: &Policy,
    request: &ReuseRequest,
    r: Result<ReusePair, PrivateLaunchErrorV2>,
    a: &mut ReusePair,
    expected: Option<Result<bool, String>>,
    planned: Result<(), PrivateLaunchErrorV2>,
    b: &mut ReusePair,
    barrier: Result<(), String>,
    passed: Result<(), PrivateLaunchErrorV2>,
    text: String,
    late: PrivateLaunchErrorV2,
)
    requires
        call_ensures(execute_private_v2_reuse_pair, (policy, request), r),
        old(a).stage == ReuseStage::Planning,
        call_ensures(ReusePair::planned, (a, expected), planned),
        old(b).stage == ReuseStage::Barrier,
        call_ensures(ReusePair::passed, (b, barrier), passed),
        call_ensures(reuse_launch_error, (PrivateLaunchErrorV2::BeforeSubmission(text),), late),
    ensures
        r is Ok <==> request.barrier_descriptor == 4 && request.barrier is Ok && request.contract
            is Ok && policy.boundary == BoundaryRequirement::Sealed && !request.ordinary_contract
            && request.profile@ == "linux-tcp4-private-v1"@ && request.administrator_identity,
        r matches Ok(pair) ==> pair.stage == ReuseStage::Planning,
        planned is Ok <==> expected is None || expected == Some(Ok::<bool, String>(true)),
        planned is Ok <==> final(a).stage == ReuseStage::First,
        passed is Ok <==> barrier is Ok,
        passed is Ok <==> final(b).stage == ReuseStage::Second,
        passed matches Err(error) ==> error is AfterSubmission,
        late is AfterSubmission,
{
}

/// The error of a revoked grant, and that of a target that could not be started, tell that
/// the target was released, and whether it may live; the latter names why.
pub proof fn released_targets_are_told(
    terminal: &TerminalReceipt,
    safe: bool,
    r: Error,
    class: TerminalExecFailureClass,
    os_code: i32,
    s: Error,
)
    requires
        call_ensures(terminal_revocation_error, (terminal, safe), r),
        call_ensures(terminal_spawn_error, (terminal, class, os_code, safe), s),
    ensures
        r.target_released && s.target_released,
        r.workload_may_be_alive <==> !safe,
        s.workload_may_be_alive <==> !safe,
        r.code == "MCSEALED-POLICY-DRIFT" && r.os_code is None,
        s.os_code == Some(os_code),
        class == TerminalExecFailureClass::NotFound ==> s.code == "MCSPAWN-NOT-FOUND"
            && s.initial_spawn_failure == Some(InitialSpawnFailure::NotFound),
        class == TerminalExecFailureClass::NotExecutable ==> s.code == "MCSPAWN-NOT-EXECUTABLE"
            && s.initial_spawn_failure == Some(InitialSpawnFailure::NotExecutable),
        class == TerminalExecFailureClass::Other ==> s.code == "MCSPAWN-FAILED"
            && s.initial_spawn_failure is None,
        r.target_pid == Some(terminal.target_pid) && s.target_pid == Some(terminal.target_pid),
        (r.authorization_offset matches Some(at) && at@ == terminal.authorization_offset_millis
            * 1_000_000),
{
    assert(r@.target_released == r.target_released && s@.target_released == s.target_released);
    assert(r@.workload_may_be_alive == r.workload_may_be_alive);
    assert(s@.workload_may_be_alive == s.workload_may_be_alive);
    assert(r@.code == r.code && s@.code == s.code);
    assert(r@.os_code == r.os_code && s@.os_code == s.os_code);
    assert(s@.initial_spawn_failure == s.initial_spawn_failure);
    assert(r@.target_pid == r.target_pid && s@.target_pid == s.target_pid);
    assert(r@.authorization_offset == r.authorization_offset);
}

/// A runtime is for one of two architectures, with or without musl.
pub proof fn targets_are_known(arch: &str, musl: bool, r: Option<&'static str>)
    requires
        call_ensures(linux_target, (arch, musl), r),
    ensures
        r is Some <==> arch@ == "x86_64"@ || arch@ == "aarch64"@,
        arch@ == "x86_64"@ ==> r == Some(if musl {
            "x86_64-unknown-linux-musl"
        } else {
            "x86_64-unknown-linux-gnu"
        }),
        arch@ == "aarch64"@ && arch@ != "x86_64"@ ==> r == Some(if musl {
            "aarch64-unknown-linux-musl"
        } else {
            "aarch64-unknown-linux-gnu"
        }),
{
}

/// A manifest of this version that is bound and supported, and whose two components are the
/// agent and the command under their names, passes, and with it the agent whose size and
/// digest it names.
pub proof fn complete_manifests_pass(
    manifest: &ManifestReading,
    version: &str,
    arch: &str,
    musl: bool,
    agent: Vec<u8>,
    checked: Result<usize, String>,
    r: Result<(), String>,
    a: int,
    b: int,
)
    requires
        call_ensures(check_manifest, (manifest, version, arch, musl), checked),
        call_ensures(verify, (manifest, version, arch, musl, &Ok::<Vec<u8>, String>(agent)), r),
        manifest.version@ == version@ && manifest.supported && manifest.bound == Ok::<bool, String>(
            true,
        ),
        arch@ == "x86_64"@ || arch@ == "aarch64"@,
        manifest.components@.len() == 2 && (a == 0 && b == 1 || a == 1 && b == 0),
        manifest.components@[a].role == RuntimeComponentRole::SealedAgent
            && manifest.components@[a].id@ == "sealed-agent"@ && manifest.components@[a].path@
            == "memcordon-sealed-agent"@ && manifest.components@[a].mode == 0o755,
        manifest.components@[b].role == RuntimeComponentRole::PublicCli
            && manifest.components@[b].id@ == "public-cli"@ && manifest.components@[b].path@
            == "memcordon"@ && manifest.components@[b].mode == 0o755,
    ensures
        checked == Ok::<usize, String>(a as usize),
        r is Ok <==> manifest.components@[a].size == agent@.len() && manifest.components@[a].sha256@
            == hex(sha256_of(agent@)),
{
    let components = manifest.components@;
    reveal_with_fuel(first_with, 3);
    assert(first_with(components, RuntimeComponentRole::SealedAgent, 0) == a);
    assert(first_with(components, RuntimeComponentRole::PublicCli, 0) == b);
}

proof fn first_agent_is_the_first(components: Seq<RuntimeComponent>, id: Seq<char>, from: int, at: int)
    requires
        0 <= from <= at < components.len(),
        components[at].id@ == id && components[at].role == RuntimeComponentRole::SealedAgent,
        forall|i: int|
            from <= i < at ==> !((#[trigger] components[i]).id@ == id && components[i].role
                == RuntimeComponentRole::SealedAgent),
    ensures
        first_agent(components, id, from) == at,
    decreases at - from,
{
    if from < at {
        assert(!(components[from].id@ == id && components[from].role
            == RuntimeComponentRole::SealedAgent));
        first_agent_is_the_first(components, id, from + 1, at);
    }
}

/// A private runtime passes just where its manifest is the plan's by digest, source, version
/// and target, its profile is qualified, and the agent that it names has the size and digest
/// of the installed one.
pub proof fn private_runtimes_match_their_plan(
    plan: &PrivatePlanRuntime,
    manifest: &PrivateManifestReading,
    version: &str,
    arch: &str,
    agent: Vec<u8>,
    r: Result<(), String>,
    at: int,
)
    requires
        call_ensures(
            verify_private,
            (plan, manifest, version, arch, &Ok::<Vec<u8>, String>(agent)),
            r,
        ),
        manifest.sealed is Some,
        0 <= at < manifest.components@.len(),
        manifest.components@[at].id@ == manifest.sealed->0.agent_component@
            && manifest.components@[at].role == RuntimeComponentRole::SealedAgent,
        forall|i: int|
            0 <= i < at ==> !((#[trigger] manifest.components@[i]).id@
                == manifest.sealed->0.agent_component@ && manifest.components@[i].role
                == RuntimeComponentRole::SealedAgent),
    ensures
        r is Ok ==> hex(sha256_of(manifest.bytes@)) == plan.runtime_manifest_sha256@
            && manifest.source_commit@ == plan.source_commit@ && manifest.version@ == version@
            && manifest.sealed->0.first_qualified && manifest.components@[at].size == agent@.len()
            && manifest.components@[at].sha256@ == hex(sha256_of(agent@)),
        hex(sha256_of(manifest.bytes@)) == plan.runtime_manifest_sha256@ && manifest.source_commit@
            == plan.source_commit@ && manifest.version@ == version@
            && manifest.sealed->0.first_qualified && manifest.components@[at].size == agent@.len()
            && manifest.components@[at].sha256@ == hex(sha256_of(agent@)) && (plan.native_abi
            == QualifiedNativeAbi::X86_64LinuxGnu && manifest.target@
            == "x86_64-unknown-linux-gnu"@ && arch@ == "x86_64"@ || plan.native_abi
            == QualifiedNativeAbi::Aarch64LinuxGnu && manifest.target@
            == "aarch64-unknown-linux-gnu"@ && arch@ == "aarch64"@) ==> r is Ok,
        r is Ok && plan.native_abi == QualifiedNativeAbi::X86_64LinuxGnu ==> manifest.target@
            == "x86_64-unknown-linux-gnu"@ && arch@ == "x86_64"@,
        r is Ok && plan.native_abi == QualifiedNativeAbi::Aarch64LinuxGnu ==> manifest.target@
            == "aarch64-unknown-linux-gnu"@ && arch@ == "aarch64"@,
{
    first_agent_is_the_first(
        manifest.components@,
        manifest.sealed->0.agent_component@,
        0,
        at,
    );
}

/// A boot on Windows is known just where the system told all of it.
pub proof fn windows_boots_are_told_whole(
    status: i32,
    complete: bool,
    shown: String,
    r: Result<String, &'static str>,
)
    requires
        call_ensures(windows_boot_identity, (status, complete, shown), r),
    ensures
        r is Ok <==> status >= 0 && complete,
        r matches Ok(text) ==> text == shown,
{
}

} // verus!
