//! What a sealed provider shows for itself before it is trusted with a launch.

use vstd::prelude::*;
use vstd::string::*;

use crate::bytes::same_bytes;
use crate::scan::{same_chars, trim, trimmed};
use crate::sealed::digest::{is_digest, valid_sha256};
use crate::sealed::frame::{
    frame_fault, is_frame, write_frame, FrameFault, FrameView, WireFrame, VERSION,
};
use crate::text::{chars_of, join3, same_text};

verus! {

/// What a provider is known by once it has been probed.
#[derive(Debug)]
pub struct ProbeReceipt {
    pub version: String,
    pub provider_identity: String,
    pub control_service_identity: String,
    pub launcher_service_identity: String,
    pub receipt_digest: String,
    pub setid_transition_certification_digest: String,
    pub sudo_transition_certification_digest: String,
}

/// What a provider verified of itself.
#[derive(Clone, Copy, Debug, PartialEq, Eq, Structural)]
pub struct QualificationFacts {
    pub workload_profile_probe_verified: bool,
    pub unified_cgroup_v2: bool,
    pub private_cgroup_subtree: bool,
    pub clone3: bool,
    pub clone3_into_cgroup: bool,
    pub pid_namespace: bool,
    pub mount_namespace: bool,
    pub cgroup_namespace: bool,
    pub pidfd: bool,
    pub close_range: bool,
    pub guardian_outside_boundary: bool,
    pub target_gated: bool,
    pub assignment_verified: bool,
    pub inherited_descriptors_verified: bool,
    pub spawn_error_reporting_verified: bool,
    pub frontend_loss_authority_verified: bool,
    pub cgroup_kill: bool,
    pub workload_empty: bool,
    pub helpers_reaped: bool,
    pub boundary_retired: bool,
    pub recovery_complete: bool,
    pub split_control_and_launcher_services: bool,
    pub launcher_no_new_privs_disabled: bool,
    pub caller_mount_namespace_reproduction_verified: bool,
    pub caller_no_new_privs_reproduction_verified: bool,
    pub caller_capability_bounding_set_reproduction_verified: bool,
    pub initial_provider_capabilities_absent: bool,
    pub post_transition_cgroup_membership_verified: bool,
    pub post_transition_pid_namespace_verified: bool,
    pub post_transition_cleanup_verified: bool,
    pub recursive_provider_request_rejected: bool,
}

impl QualificationFacts {
    /// Whether every fact holds.
    pub open spec fn all(self) -> bool {
        &&& self.workload_profile_probe_verified
        &&& self.unified_cgroup_v2
        &&& self.private_cgroup_subtree
        &&& self.clone3
        &&& self.clone3_into_cgroup
        &&& self.pid_namespace
        &&& self.mount_namespace
        &&& self.cgroup_namespace
        &&& self.pidfd
        &&& self.close_range
        &&& self.guardian_outside_boundary
        &&& self.target_gated
        &&& self.assignment_verified
        &&& self.inherited_descriptors_verified
        &&& self.spawn_error_reporting_verified
        &&& self.frontend_loss_authority_verified
        &&& self.cgroup_kill
        &&& self.workload_empty
        &&& self.helpers_reaped
        &&& self.boundary_retired
        &&& self.recovery_complete
        &&& self.split_control_and_launcher_services
        &&& self.launcher_no_new_privs_disabled
        &&& self.caller_mount_namespace_reproduction_verified
        &&& self.caller_no_new_privs_reproduction_verified
        &&& self.caller_capability_bounding_set_reproduction_verified
        &&& self.initial_provider_capabilities_absent
        &&& self.post_transition_cgroup_membership_verified
        &&& self.post_transition_pid_namespace_verified
        &&& self.post_transition_cleanup_verified
        &&& self.recursive_provider_request_rejected
    }

    fn hold(self) -> (r: bool)
        ensures
            r == self.all(),
    {
        self.workload_profile_probe_verified && self.unified_cgroup_v2
            && self.private_cgroup_subtree && self.clone3 && self.clone3_into_cgroup
            && self.pid_namespace && self.mount_namespace && self.cgroup_namespace && self.pidfd
            && self.close_range && self.guardian_outside_boundary && self.target_gated
            && self.assignment_verified && self.inherited_descriptors_verified
            && self.spawn_error_reporting_verified && self.frontend_loss_authority_verified
            && self.cgroup_kill && self.workload_empty && self.helpers_reaped
            && self.boundary_retired && self.recovery_complete
            && self.split_control_and_launcher_services && self.launcher_no_new_privs_disabled
            && self.caller_mount_namespace_reproduction_verified
            && self.caller_no_new_privs_reproduction_verified
            && self.caller_capability_bounding_set_reproduction_verified
            && self.initial_provider_capabilities_absent
            && self.post_transition_cgroup_membership_verified
            && self.post_transition_pid_namespace_verified && self.post_transition_cleanup_verified
            && self.recursive_provider_request_rejected
    }
}

/// A provider's qualification receipt. `baseline_profile` says whether the
/// workload profile that it names is the baseline one.
#[derive(Debug)]
pub struct QualificationReceipt {
    pub schema_version: u32,
    pub baseline_profile: bool,
    pub version: String,
    pub mechanism: String,
    pub provider_identity: String,
    pub control_service_identity: String,
    pub launcher_service_identity: String,
    pub receipt_digest: String,
    pub credential_transition_disposition: String,
    pub setid_transition_certification_digest: String,
    pub sudo_transition_certification_digest: String,
    pub facts: QualificationFacts,
}

fn is_digest_text(text: &str) -> (r: bool)
    ensures
        r == is_digest(text@),
{
    let chars = chars_of(text);
    valid_sha256(chars.as_slice())
}

impl QualificationReceipt {
    /// Whether the receipt is of the kind that this client takes, and nothing is
    /// left unverified.
    pub open spec fn complete(&self) -> bool {
        &&& self.schema_version == 3
        &&& self.baseline_profile
        &&& self.mechanism@ == "linux-pid-namespace-cgroup-v2"@
        &&& self.provider_identity@ == "memcordon-sealed-agent-v2"@
        &&& self.control_service_identity@ == "memcordon-sealed-agent.service:v2"@
        &&& self.launcher_service_identity@ == "memcordon-sealed-launcher.service:v2"@
        &&& is_digest(self.receipt_digest@)
        &&& self.credential_transition_disposition@ == "preserve-caller-envelope"@
        &&& is_digest(self.setid_transition_certification_digest@)
        &&& is_digest(self.sudo_transition_certification_digest@)
        &&& self.facts.all()
    }

    /// Whether the receipt is complete.
    pub fn is_complete(&self) -> (r: bool)
        ensures
            r == self.complete(),
    {
        self.schema_version == 3 && self.baseline_profile && same_text(
            self.mechanism.as_str(),
            "linux-pid-namespace-cgroup-v2",
        ) && same_text(self.provider_identity.as_str(), "memcordon-sealed-agent-v2") && same_text(
            self.control_service_identity.as_str(),
            "memcordon-sealed-agent.service:v2",
        ) && same_text(
            self.launcher_service_identity.as_str(),
            "memcordon-sealed-launcher.service:v2",
        ) && is_digest_text(self.receipt_digest.as_str()) && same_text(
            self.credential_transition_disposition.as_str(),
            "preserve-caller-envelope",
        ) && is_digest_text(self.setid_transition_certification_digest.as_str()) && is_digest_text(
            self.sudo_transition_certification_digest.as_str(),
        ) && self.facts.hold()
    }
}

/// Takes a receipt that could be read, if it is complete.
pub fn parse_qualification(reading: Result<QualificationReceipt, String>) -> (r: Result<
    QualificationReceipt,
    String,
>)
    ensures
        match reading {
            Err(fault) => r == Err::<QualificationReceipt, String>(fault),
            Ok(receipt) => if receipt.complete() {
                r == Ok::<QualificationReceipt, String>(receipt)
            } else {
                r matches Err(text) && text@
                    == "provider qualification receipt is incomplete or incompatible"@
            },
        },
{
    match reading {
        Err(fault) => Err(fault),
        Ok(receipt) => if receipt.is_complete() {
            Ok(receipt)
        } else {
            Err("provider qualification receipt is incomplete or incompatible".to_owned())
        },
    }
}

/// What is said when client and provider are of different versions.
pub open spec fn pairing_fault(
    cli_version: Seq<char>,
    provider_version: Seq<char>,
    cli_channel: Seq<char>,
    provider_channel: Seq<char>,
) -> Seq<char> {
    "sealed provider version mismatch before target authorization: "@ + cli_channel + " version "@
        + cli_version + "; "@ + provider_channel + " version "@ + provider_version
        + "; install the matching memcordon package version and rerun package upgrade"@
}

/// Client and provider must be of the same version.
pub fn validate_exact_provider_pairing(
    cli_version: &str,
    provider_version: &str,
    cli_channel: &str,
    provider_channel: &str,
) -> (r: Result<(), String>)
    ensures
        match r {
            Ok(_) => provider_version@ == cli_version@,
            Err(text) => provider_version@ != cli_version@ && text@ == pairing_fault(
                cli_version@,
                provider_version@,
                cli_channel@,
                provider_channel@,
            ),
        },
{
    if !same_text(provider_version, cli_version) {
        let mut text = join3(
            "sealed provider version mismatch before target authorization: ",
            cli_channel,
            " version ",
        );
        text.append(cli_version);
        text.append("; ");
        text.append(provider_channel);
        text.append(" version ");
        text.append(provider_version);
        text.append("; install the matching memcordon package version and rerun package upgrade");
        return Err(text);
    }
    Ok(())
}

/// What is said when the provider cannot be reached.
pub open spec fn installation_fault(context: Seq<char>, error: Seq<char>, agent: Seq<char>) -> Seq<
    char,
> {
    "sealed provider is not installed or reachable: "@ + context + ": "@ + error
        + "\n\nCargo installation:\n  install the matching memcordon package version, then run:\n  "@
        + agent
        + " package install\n\nNative archive:\n  run the memcordon-sealed-agent included beside this executable"@
}

/// What is said when the provider cannot be reached; `agent` is where its
/// installer is expected.
pub fn provider_installation_error(context: &str, error: &str, agent: &str) -> (r: String)
    ensures
        r@ == installation_fault(context@, error@, agent@),
{
    let mut text = join3("sealed provider is not installed or reachable: ", context, ": ");
    text.append(error);
    text.append(
        "\n\nCargo installation:\n  install the matching memcordon package version, then run:\n  ",
    );
    text.append(agent);
    text.append(
        " package install\n\nNative archive:\n  run the memcordon-sealed-agent included beside this executable",
    );
    text
}

/// What a file's metadata says.
#[derive(Clone, Copy, Debug, PartialEq, Eq, Structural)]
pub struct FileFacts {
    pub is_socket: bool,
    pub is_file: bool,
    pub uid: u32,
    pub gid: u32,
    pub mode: u32,
}

/// The places that are looked at before the provider is spoken to.
#[derive(Clone, Copy, Debug, PartialEq, Eq, Structural)]
pub enum EndpointPart {
    Provider,
    Launcher,
    Executable,
}

/// Whether a part of the endpoint is as it must be.
pub open spec fn part_is_sound(part: EndpointPart, facts: FileFacts) -> bool {
    match part {
        EndpointPart::Provider => facts.is_socket && facts.uid == 0 && facts.mode % 8 == 0,
        EndpointPart::Launcher => facts.is_socket && facts.uid == 0 && facts.gid == 0 && facts.mode
            % 512 == 0o600,
        EndpointPart::Executable => facts.is_file && facts.uid == 0 && facts.mode / 2 % 2 == 0
            && facts.mode / 16 % 2 == 0,
    }
}

/// What is wrong with a part of the endpoint.
pub open spec fn part_fault(part: EndpointPart) -> &'static str {
    match part {
        EndpointPart::Provider => "provider endpoint is not a root-owned socket identity",
        EndpointPart::Launcher => "launcher endpoint is not a root-only socket identity",
        EndpointPart::Executable => "provider executable identity or permissions are unsafe",
    }
}

/// What could not be looked at.
pub open spec fn part_context(part: EndpointPart) -> &'static str {
    match part {
        EndpointPart::Provider => "provider endpoint unavailable",
        EndpointPart::Launcher => "launcher endpoint unavailable",
        EndpointPart::Executable => "provider executable unavailable",
    }
}

/// What is wrong with one part of the endpoint, if anything.
pub open spec fn part_verdict(
    part: EndpointPart,
    found: Result<FileFacts, String>,
    agent: Seq<char>,
) -> Option<Seq<char>> {
    match found {
        Err(error) => Some(installation_fault(part_context(part)@, error@, agent)),
        Ok(facts) => if part_is_sound(part, facts) {
            None
        } else {
            Some(part_fault(part)@)
        },
    }
}

/// Looks at one part of the endpoint.
pub fn verify_part(part: EndpointPart, found: &Result<FileFacts, String>, agent: &str) -> (r: Result<
    (),
    String,
>)
    ensures
        match r {
            Ok(_) => part_verdict(part, *found, agent@) is None,
            Err(text) => part_verdict(part, *found, agent@) == Some(text@),
        },
{
    let (context, fault) = match part {
        EndpointPart::Provider => (
            "provider endpoint unavailable",
            "provider endpoint is not a root-owned socket identity",
        ),
        EndpointPart::Launcher => (
            "launcher endpoint unavailable",
            "launcher endpoint is not a root-only socket identity",
        ),
        EndpointPart::Executable => (
            "provider executable unavailable",
            "provider executable identity or permissions are unsafe",
        ),
    };
    let facts = match found {
        Err(error) => {
            return Err(provider_installation_error(context, error.as_str(), agent));
        },
        Ok(facts) => *facts,
    };
    let sound = match part {
        EndpointPart::Provider => facts.is_socket && facts.uid == 0 && facts.mode % 8 == 0,
        EndpointPart::Launcher => facts.is_socket && facts.uid == 0 && facts.gid == 0 && facts.mode
            % 512 == 384,
        EndpointPart::Executable => facts.is_file && facts.uid == 0 && facts.mode / 2 % 2 == 0
            && facts.mode / 16 % 2 == 0,
    };
    if sound {
        Ok(())
    } else {
        Err(fault.to_owned())
    }
}

/// What is wrong with the endpoint, if anything: the first of its parts that is
/// not as it must be.
pub open spec fn endpoint_verdict(
    provider: Result<FileFacts, String>,
    launcher: Result<FileFacts, String>,
    executable: Result<FileFacts, String>,
    agent: Seq<char>,
) -> Option<Seq<char>> {
    if part_verdict(EndpointPart::Provider, provider, agent) is Some {
        part_verdict(EndpointPart::Provider, provider, agent)
    } else if part_verdict(EndpointPart::Launcher, launcher, agent) is Some {
        part_verdict(EndpointPart::Launcher, launcher, agent)
    } else {
        part_verdict(EndpointPart::Executable, executable, agent)
    }
}

/// Looks at the whole endpoint: the provider's socket, the launcher's socket and
/// the provider's executable.
pub fn verify_endpoint(
    provider: &Result<FileFacts, String>,
    launcher: &Result<FileFacts, String>,
    executable: &Result<FileFacts, String>,
    agent: &str,
) -> (r: Result<(), String>)
    ensures
        match r {
            Ok(_) => endpoint_verdict(*provider, *launcher, *executable, agent@) is None,
            Err(text) => endpoint_verdict(*provider, *launcher, *executable, agent@) == Some(text@),
        },
{
    if let Err(text) = verify_part(EndpointPart::Provider, provider, agent) {
        return Err(text);
    }
    if let Err(text) = verify_part(EndpointPart::Launcher, launcher, agent) {
        return Err(text);
    }
    verify_part(EndpointPart::Executable, executable, agent)
}

/// The user at the other end of the connection, where that could be asked, must
/// be root.
pub fn verify_peer(uid: Option<u32>) -> (r: Result<(), &'static str>)
    ensures
        r == if uid == Some(0u32) {
            Ok::<(), &'static str>(())
        } else {
            Err("connected provider peer is not root-owned")
        },
{
    match uid {
        Some(0) => Ok(()),
        _ => Err("connected provider peer is not root-owned"),
    }
}

/// Sixteen zero bytes: the attempt of a request that starts none.
pub open spec fn no_attempt() -> Seq<u8> {
    Seq::new(16, |i: int| 0u8)
}

/// Sixteen zero bytes.
pub fn zero_attempt() -> (r: Vec<u8>)
    ensures
        r@ == no_attempt(),
{
    let mut out: Vec<u8> = Vec::new();
    while out.len() < 16
        invariant
            out.len() <= 16,
            forall|k: int| 0 <= k < out.len() ==> out[k] == 0,
        decreases 16 - out.len(),
    {
        out.push(0);
    }
    assert(out@ =~= no_attempt());
    out
}

/// Whether a frame answers a request that starts no attempt.
pub open spec fn answers(frame: FrameView, kind: u16, nonce: Seq<u8>) -> bool {
    frame.kind == kind && frame.nonce == nonce && frame.attempt == no_attempt()
}

fn is_answer(frame: &WireFrame, kind: u16, nonce: &[u8]) -> (r: bool)
    ensures
        r == answers(frame@, kind, nonce@),
{
    let zero = zero_attempt();
    frame.kind == kind && same_bytes(frame.nonce.as_slice(), nonce) && same_bytes(
        frame.attempt.as_slice(),
        zero.as_slice(),
    )
}

/// Whether a receipt carries over what the qualification says.
pub open spec fn keeps(receipt: ProbeReceipt, qualification: QualificationReceipt) -> bool {
    &&& receipt.version == qualification.version
    &&& receipt.provider_identity == qualification.provider_identity
    &&& receipt.control_service_identity == qualification.control_service_identity
    &&& receipt.launcher_service_identity == qualification.launcher_service_identity
    &&& receipt.receipt_digest == qualification.receipt_digest
    &&& receipt.setid_transition_certification_digest
        == qualification.setid_transition_certification_digest
    &&& receipt.sudo_transition_certification_digest
        == qualification.sudo_transition_certification_digest
}

/// Why a provider's answer to a probe is refused, if it is.
pub open spec fn probe_fault(
    frame: FrameView,
    nonce: Seq<u8>,
    reading: Result<QualificationReceipt, String>,
    cli_version: Seq<char>,
) -> Option<Seq<char>> {
    if !answers(frame, 101, nonce) {
        Some("provider probe receipt identity mismatch"@)
    } else {
        match reading {
            Err(fault) => Some(fault@),
            Ok(receipt) => if !receipt.complete() {
                Some("provider qualification receipt is incomplete or incompatible"@)
            } else if receipt.version@ != cli_version {
                Some(pairing_fault(cli_version, receipt.version@, "CLI"@, "installed provider"@))
            } else {
                None
            },
        }
    }
}

/// Takes a provider's answer to a probe. `reading` is what the answer's payload
/// was read as.
pub fn probe(
    frame: &WireFrame,
    nonce: &[u8],
    reading: Result<QualificationReceipt, String>,
    cli_version: &str,
) -> (r: Result<ProbeReceipt, String>)
    ensures
        match r {
            Ok(receipt) => probe_fault(frame@, nonce@, reading, cli_version@) is None && keeps(
                receipt,
                reading->Ok_0,
            ),
            Err(text) => probe_fault(frame@, nonce@, reading, cli_version@) == Some(text@),
        },
{
    if !is_answer(frame, 101, nonce) {
        return Err("provider probe receipt identity mismatch".to_owned());
    }
    let receipt = match parse_qualification(reading) {
        Ok(receipt) => receipt,
        Err(text) => {
            return Err(text);
        },
    };
    match validate_exact_provider_pairing(
        cli_version,
        receipt.version.as_str(),
        "CLI",
        "installed provider",
    ) {
        Ok(_) => {},
        Err(text) => {
            return Err(text);
        },
    }
    Ok(
        ProbeReceipt {
            version: receipt.version,
            provider_identity: receipt.provider_identity,
            control_service_identity: receipt.control_service_identity,
            launcher_service_identity: receipt.launcher_service_identity,
            receipt_digest: receipt.receipt_digest,
            setid_transition_certification_digest: receipt.setid_transition_certification_digest,
            sudo_transition_certification_digest: receipt.sudo_transition_certification_digest,
        },
    )
}

/// What was read from a provider's description of the workloads it takes: whether
/// it is valid for the baseline profile, whether the installed runtime is the one
/// it names, and the boot that it names beside the current one.
#[derive(Debug)]
pub struct DiscoveryReading {
    pub valid: bool,
    pub runtime: Result<(), String>,
    pub boot: Result<String, String>,
    pub named_boot: String,
}

/// Why a description of workloads is refused, if it is.
pub open spec fn discovery_fault(
    frame: FrameView,
    nonce: Seq<u8>,
    limit: nat,
    reading: Result<DiscoveryReading, String>,
) -> Option<Seq<char>> {
    if !answers(frame, 109, nonce) || frame.payload.len() > limit {
        Some("discovery receipt identity or size differs"@)
    } else {
        match reading {
            Err(fault) => Some(fault@),
            Ok(found) => if !found.valid {
                Some("discovery profile differs"@)
            } else {
                match (found.runtime, found.boot) {
                    (Err(fault), _) => Some(fault@),
                    (Ok(_), Err(fault)) => Some(fault@),
                    (Ok(_), Ok(boot)) => if trimmed(boot@) != found.named_boot@ {
                        Some("discovery boot differs"@)
                    } else {
                        None
                    },
                }
            },
        }
    }
}

fn same_boot(boot: &str, named: &str) -> (r: bool)
    ensures
        r == (trimmed(boot@) == named@),
{
    let chars = chars_of(boot);
    let inner = trim(chars.as_slice());
    let wanted = chars_of(named);
    same_chars(inner.as_slice(), wanted.as_slice())
}

/// Takes a provider's description of the workloads it takes.
pub fn workload_discovery(
    frame: &WireFrame,
    nonce: &[u8],
    limit: usize,
    reading: Result<DiscoveryReading, String>,
) -> (r: Result<(), String>)
    ensures
        match r {
            Ok(_) => discovery_fault(frame@, nonce@, limit as nat, reading) is None,
            Err(text) => discovery_fault(frame@, nonce@, limit as nat, reading) == Some(text@),
        },
{
    if !is_answer(frame, 109, nonce) || frame.payload.len() > limit {
        return Err("discovery receipt identity or size differs".to_owned());
    }
    let found = match reading {
        Err(fault) => {
            return Err(fault);
        },
        Ok(found) => found,
    };
    if !found.valid {
        return Err("discovery profile differs".to_owned());
    }
    if let Err(fault) = found.runtime {
        return Err(fault);
    }
    match found.boot {
        Err(fault) => Err(fault),
        Ok(boot) => if !same_boot(boot.as_str(), found.named_boot.as_str()) {
            Err("discovery boot differs".to_owned())
        } else {
            Ok(())
        },
    }
}

/// What a provider's answer to a plan request is.
#[derive(Debug)]
pub enum PlanKind {
    Planned { runtime: Result<(), String>, boot: Result<String, String>, named_boot: String },
    Rejected,
    Unavailable,
    Executed,
}

/// What was read from a provider's answer to a plan request.
#[derive(Debug)]
pub struct PlanReading {
    pub valid: bool,
    pub kind: PlanKind,
}

/// The bytes of a plan request, or why there are none. `valid` is what the contract's
/// validation came to; of an invalid one nothing is sent.
pub fn plan_request(valid: Result<(), String>, payload: &[u8], limit: usize, nonce: &[u8]) -> (r:
    Result<Vec<u8>, String>)
    requires
        nonce.len() == 16,
    ensures
        if valid is Err {
            r == Err::<Vec<u8>, String>(valid->Err_0)
        } else if payload@.len() > limit {
            r matches Err(text) && text@ == "encoded workload request exceeds limit"@
        } else {
            match r {
                Ok(bytes) => frame_fault(payload@.len()) is None && is_frame(
                    bytes@,
                    VERSION,
                    FrameView {
                        kind: 8,
                        nonce: nonce@,
                        attempt: no_attempt(),
                        payload: payload@,
                    },
                ),
                Err(text) => frame_fault(payload@.len()) matches Some(fault) && text@ == match fault {
                    FrameFault::Overflow => "frame length overflow"@,
                    FrameFault::TooLong => "frame too large"@,
                },
            }
        },
{
    if let Err(fault) = valid {
        return Err(fault);
    }
    if payload.len() > limit {
        return Err("encoded workload request exceeds limit".to_owned());
    }
    let attempt = zero_attempt();
    match write_frame(8, nonce, attempt.as_slice(), payload) {
        Ok(bytes) => Ok(bytes),
        Err(text) => Err(text.to_owned()),
    }
}

/// Whether bytes are a request of a kind that carries nothing.
pub open spec fn is_bare_request(bytes: Seq<u8>, kind: u16, nonce: Seq<u8>) -> bool {
    is_frame(
        bytes,
        VERSION,
        FrameView { kind, nonce, attempt: no_attempt(), payload: Seq::empty() },
    )
}

fn bare_request(kind: u16, nonce: &[u8]) -> (r: Result<Vec<u8>, &'static str>)
    requires
        nonce.len() == 16,
    ensures
        r matches Ok(bytes) && is_bare_request(bytes@, kind, nonce@),
{
    let attempt = zero_attempt();
    let payload: Vec<u8> = Vec::new();
    assert(payload@ =~= Seq::<u8>::empty());
    write_frame(kind, nonce, attempt.as_slice(), payload.as_slice())
}

/// The bytes that ask the provider who it is.
pub fn probe_request(nonce: &[u8]) -> (r: Result<Vec<u8>, &'static str>)
    requires
        nonce.len() == 16,
    ensures
        r matches Ok(bytes) && is_bare_request(bytes@, 1, nonce@),
{
    bare_request(1, nonce)
}

/// The bytes that ask the provider what the caller may run here.
pub fn discovery_request(nonce: &[u8]) -> (r: Result<Vec<u8>, &'static str>)
    requires
        nonce.len() == 16,
    ensures
        r matches Ok(bytes) && is_bare_request(bytes@, 9, nonce@),
{
    bare_request(9, nonce)
}

/// Why a provider's answer to a plan request is refused, if it is.
pub open spec fn plan_fault(
    frame: FrameView,
    nonce: Seq<u8>,
    limit: nat,
    reading: Result<PlanReading, String>,
) -> Option<Seq<char>> {
    if !answers(frame, 108, nonce) || frame.payload.len() > limit {
        Some("workload plan receipt identity or size differs"@)
    } else {
        match reading {
            Err(fault) => Some(fault@),
            Ok(found) => if !found.valid {
                Some("workload plan request or effective binding differs"@)
            } else {
                match found.kind {
                    PlanKind::Planned { runtime, boot, named_boot } => match (runtime, boot) {
                        (Err(fault), _) => Some(fault@),
                        (Ok(_), Err(fault)) => Some(fault@),
                        (Ok(_), Ok(boot)) => if trimmed(boot@) != named_boot@ {
                            Some("workload plan boot binding differs"@)
                        } else {
                            None
                        },
                    },
                    PlanKind::Rejected => None,
                    PlanKind::Unavailable => None,
                    PlanKind::Executed => Some("workload plan returned an execution state"@),
                }
            },
        }
    }
}

/// Takes a provider's answer to a plan request.
pub fn workload_plan(
    frame: &WireFrame,
    nonce: &[u8],
    limit: usize,
    reading: Result<PlanReading, String>,
) -> (r: Result<(), String>)
    ensures
        match r {
            Ok(_) => plan_fault(frame@, nonce@, limit as nat, reading) is None,
            Err(text) => plan_fault(frame@, nonce@, limit as nat, reading) == Some(text@),
        },
{
    if !is_answer(frame, 108, nonce) || frame.payload.len() > limit {
        return Err("workload plan receipt identity or size differs".to_owned());
    }
    let found = match reading {
        Err(fault) => {
            return Err(fault);
        },
        Ok(found) => found,
    };
    if !found.valid {
        return Err("workload plan request or effective binding differs".to_owned());
    }
    match found.kind {
        PlanKind::Planned { runtime, boot, named_boot } => {
            if let Err(fault) = runtime {
                return Err(fault);
            }
            match boot {
                Err(fault) => Err(fault),
                Ok(boot) => if !same_boot(boot.as_str(), named_boot.as_str()) {
                    Err("workload plan boot binding differs".to_owned())
                } else {
                    Ok(())
                },
            }
        },
        PlanKind::Rejected => Ok(()),
        PlanKind::Unavailable => Ok(()),
        PlanKind::Executed => Err("workload plan returned an execution state".to_owned()),
    }
}

/// No provider of another version is ever taken, whatever it says of itself.
pub proof fn versions_are_paired(
    frame: FrameView,
    nonce: Seq<u8>,
    receipt: QualificationReceipt,
    cli_version: Seq<char>,
)
    requires
        receipt.version@ != cli_version,
    ensures
        probe_fault(frame, nonce, Ok::<QualificationReceipt, String>(receipt), cli_version) is Some,
{
}

} // verus!
