//! Private launches: what is known of a target's release, whether an attempt may
//! be repeated, and what a provider's answer comes to.

use vstd::prelude::*;
use vstd::string::*;

use crate::bytes::{put, same_bytes};
use crate::evidence::{
    BoundarySetupPhase, ProviderRejectionEvidence, RestartSafetyProof, SafetyView,
};
use crate::model::texts;
use crate::policy::{BoundaryRequirement, Policy};
use crate::sealed::frame::{
    encoded_frame_for_version, frame_fault, is_frame, FrameFault, FrameView, WireFrame,
    PRIVATE_VERSION,
};
use crate::sealed::probe::{no_attempt, zero_attempt};
use crate::text::{byte_len, byte_length, hex, hex_text, join3, same_text};

verus! {

/// The kinds of private frame.
pub const PRIVATE_LAUNCH_KIND: u16 = 10;

pub const PRIVATE_PLAN_KIND: u16 = 13;

pub const PRIVATE_TERMINAL_KIND: u16 = 105;

pub const PRIVATE_REJECTION_KIND: u16 = 106;

pub const PRIVATE_INDETERMINATE_KIND: u16 = 110;

pub const PRIVATE_PLAN_RECEIPT_KIND: u16 = 111;

/// What is known of a target's release. These are states of knowledge, not
/// requests to release again.
#[derive(Clone, Copy, Debug, PartialEq, Eq, Structural)]
pub enum PrivateReleaseKnowledgeV2 {
    NotReleased,
    PossiblyReleased,
    Released,
}

/// Whether, and how, a failed request may be followed up.
#[derive(Clone, Copy, Debug, PartialEq, Eq, Structural)]
pub enum PrivateReplayDispositionV2 {
    /// The request allocated no target. A later launch needs fresh admission.
    NewAttemptWithFreshAdmission,
    /// The receipt of this very attempt may be asked for; it is never launched
    /// again.
    QuerySameAttemptOnly,
    /// Neither a retry nor a second release is authorized.
    DoNotReplay,
}

/// What an answer must agree with. These values come from the installed runtime,
/// not from the answer.
#[derive(Debug)]
pub struct PrivateExpectedResultV2 {
    pub report_schema: u32,
    pub source_commit: String,
    pub native_abi: u32,
    pub runtime_manifest_sha256: Vec<u8>,
    pub installed_qualification_sha256: Vec<u8>,
}

/// How a private target ended.
#[derive(Debug)]
pub enum PrivateTerminalOutcome {
    Exited,
    NativeFailure { phase: String, detail: String },
    Interrupted { reason: String },
}

impl PrivateTerminalOutcome {
    /// Whether its texts are present and short enough.
    pub open spec fn bounded(&self) -> bool {
        match self {
            PrivateTerminalOutcome::Exited => true,
            PrivateTerminalOutcome::NativeFailure { phase, detail } => phase@.len() > 0
                && detail@.len() > 0 && byte_length(phase@) <= 128 && byte_length(detail@) <= 1024,
            PrivateTerminalOutcome::Interrupted { reason } => reason@.len() > 0 && byte_length(
                reason@,
            ) <= 128,
        }
    }

    fn is_bounded(&self) -> (r: bool)
        ensures
            r == self.bounded(),
    {
        match self {
            PrivateTerminalOutcome::Exited => true,
            PrivateTerminalOutcome::NativeFailure { phase, detail } => !phase.as_str().is_empty()
                && !detail.as_str().is_empty() && byte_len(phase.as_str()) <= 128 && byte_len(
                detail.as_str(),
            ) <= 1024,
            PrivateTerminalOutcome::Interrupted { reason } => !reason.as_str().is_empty()
                && byte_len(reason.as_str()) <= 128,
        }
    }
}

/// What was read from a private execution report. `checkpoint` is what the
/// checkpoint's own validation came to, `attempt_digest` the digest of the attempt
/// that the report describes, and `retired` whether its retirement completes the
/// checkpoint.
#[derive(Debug)]
pub struct PrivateReport {
    pub schema_version: u32,
    pub source_commit: String,
    pub native_abi: u32,
    pub runtime_manifest_sha256: Vec<u8>,
    pub installed_qualification_sha256: Vec<u8>,
    pub attempt_id: String,
    pub checkpoint: Result<(), String>,
    pub checkpoint_native_abi: u32,
    pub checkpoint_binding: Vec<u8>,
    pub attempt_digest: Result<Vec<u8>, String>,
    pub retired: bool,
    pub outcome: PrivateTerminalOutcome,
}

/// An attempt's identity in hexadecimal.
pub fn private_attempt_hex(attempt: &[u8]) -> (r: String)
    ensures
        r@ == hex(attempt@),
{
    hex_text(attempt)
}

/// Whether a report is about this request and the installed runtime.
pub open spec fn report_belongs(
    report: PrivateReport,
    attempt: Seq<u8>,
    expected: PrivateExpectedResultV2,
) -> bool {
    &&& report.schema_version == expected.report_schema
    &&& report.source_commit@ == expected.source_commit@
    &&& report.native_abi == expected.native_abi
    &&& report.runtime_manifest_sha256@ == expected.runtime_manifest_sha256@
    &&& report.installed_qualification_sha256@ == expected.installed_qualification_sha256@
    &&& report.attempt_id@ == hex(attempt)
}

/// Why a report is refused, if it is.
pub open spec fn report_fault(
    report: PrivateReport,
    attempt: Seq<u8>,
    expected: PrivateExpectedResultV2,
) -> Option<Seq<char>> {
    if !report_belongs(report, attempt, expected) {
        Some("private terminal differs from request or installed readback"@)
    } else if report.checkpoint is Err {
        Some(report.checkpoint->Err_0@)
    } else if report.checkpoint_native_abi != report.native_abi {
        Some("private terminal lacks bound checkpoint and retirement"@)
    } else {
        match report.attempt_digest {
            Err(fault) => Some(fault@),
            Ok(digest) => if report.checkpoint_binding@ != digest@ || !report.retired {
                Some("private terminal lacks bound checkpoint and retirement"@)
            } else if !report.outcome.bounded() {
                Some("private terminal outcome violates V11 bound"@)
            } else {
                None
            },
        }
    }
}

/// Holds a report against the request and the installed runtime.
pub fn validate_private_service_report(
    report: &PrivateReport,
    expected_attempt: &[u8],
    expected: &PrivateExpectedResultV2,
) -> (r: Result<(), String>)
    ensures
        match r {
            Ok(_) => report_fault(*report, expected_attempt@, *expected) is None,
            Err(text) => report_fault(*report, expected_attempt@, *expected) == Some(text@),
        },
{
    let identity = private_attempt_hex(expected_attempt);
    if report.schema_version != expected.report_schema || !same_text(
        report.source_commit.as_str(),
        expected.source_commit.as_str(),
    ) || report.native_abi != expected.native_abi || !same_bytes(
        report.runtime_manifest_sha256.as_slice(),
        expected.runtime_manifest_sha256.as_slice(),
    ) || !same_bytes(
        report.installed_qualification_sha256.as_slice(),
        expected.installed_qualification_sha256.as_slice(),
    ) || !same_text(report.attempt_id.as_str(), identity.as_str()) {
        return Err("private terminal differs from request or installed readback".to_owned());
    }
    match &report.checkpoint {
        Err(fault) => {
            return Err(fault.clone());
        },
        Ok(_) => {},
    }
    if report.checkpoint_native_abi != report.native_abi {
        return Err("private terminal lacks bound checkpoint and retirement".to_owned());
    }
    match &report.attempt_digest {
        Err(fault) => {
            return Err(fault.clone());
        },
        Ok(digest) => {
            if !same_bytes(report.checkpoint_binding.as_slice(), digest.as_slice())
                || !report.retired {
                return Err("private terminal lacks bound checkpoint and retirement".to_owned());
            }
        },
    }
    if !report.outcome.is_bounded() {
        return Err("private terminal outcome violates V11 bound".to_owned());
    }
    Ok(())
}

/// Everything was given back, within a boundary that was retired.
pub open spec fn everything_retired() -> SafetyView {
    SafetyView {
        direct_child_reaped: true,
        workload_empty: Some(true),
        helpers_reaped: true,
        containment_removed: true,
        containment_incapable_of_live_members: true,
        sealed_boundary_retired: true,
        errors: Seq::empty(),
    }
}

/// What a report that was held against the request, the installed runtime and its
/// own checkpoint says was given back. No other report yields this proof.
fn private_terminal_restart_safety(report: &PrivateReport) -> (r: RestartSafetyProof)
    requires
        report.retired,
    ensures
        r@ == everything_retired(),
{
    let safety = RestartSafetyProof {
        direct_child_reaped: true,
        workload_empty: Some(true),
        helpers_reaped: true,
        containment_removed: true,
        containment_incapable_of_live_members: true,
        sealed_boundary_retired: true,
        errors: Vec::new(),
    };
    assert(texts(safety.errors@) =~= Seq::empty());
    safety
}

/// A private attempt that ended, as the provider's authenticated answer tells.
#[derive(Debug)]
pub struct PrivateAuthenticatedTerminalV2 {
    pub(crate) report: PrivateReport,
    pub(crate) raw_response: Vec<u8>,
    pub(crate) restart_safety: RestartSafetyProof,
}

impl PrivateAuthenticatedTerminalV2 {
    /// The report.
    pub closed spec fn said(&self) -> PrivateReport {
        self.report
    }

    /// The answer, byte for byte.
    pub closed spec fn answer(&self) -> Seq<u8> {
        self.raw_response@
    }

    /// What was given back.
    pub closed spec fn given_back(&self) -> SafetyView {
        self.restart_safety@
    }

    /// The report.
    pub fn report(&self) -> (r: &PrivateReport)
        ensures
            *r == self.said(),
    {
        &self.report
    }

    /// The answer, byte for byte.
    pub fn raw_response(&self) -> (r: &[u8])
        ensures
            r@ == self.answer(),
    {
        self.raw_response.as_slice()
    }

    /// What was given back.
    pub fn restart_safety(&self) -> (r: &RestartSafetyProof)
        ensures
            r@ == self.given_back(),
    {
        &self.restart_safety
    }
}

/// What a provider's answer to a private launch comes to.
#[derive(Debug)]
pub enum PrivateServiceResultV2 {
    Complete(PrivateAuthenticatedTerminalV2),
    Rejected {
        evidence: ProviderRejectionEvidence,
        raw_response: Vec<u8>,
        release_knowledge: PrivateReleaseKnowledgeV2,
    },
    Indeterminate { attempt_id: Vec<u8>, raw_response: Vec<u8>, reason_code: String },
}

impl PrivateServiceResultV2 {
    /// What is known of the target's release.
    pub open spec fn knowledge(&self) -> PrivateReleaseKnowledgeV2 {
        match self {
            PrivateServiceResultV2::Complete(_) => PrivateReleaseKnowledgeV2::Released,
            PrivateServiceResultV2::Rejected { release_knowledge, .. } => *release_knowledge,
            PrivateServiceResultV2::Indeterminate { .. } =>
                PrivateReleaseKnowledgeV2::PossiblyReleased,
        }
    }

    /// Whether, and how, the request may be followed up.
    pub open spec fn disposition(&self) -> PrivateReplayDispositionV2 {
        match self {
            PrivateServiceResultV2::Complete(_) => PrivateReplayDispositionV2::QuerySameAttemptOnly,
            PrivateServiceResultV2::Rejected { release_knowledge, .. } => if *release_knowledge
                == PrivateReleaseKnowledgeV2::NotReleased {
                PrivateReplayDispositionV2::NewAttemptWithFreshAdmission
            } else {
                PrivateReplayDispositionV2::DoNotReplay
            },
            PrivateServiceResultV2::Indeterminate { .. } => PrivateReplayDispositionV2::DoNotReplay,
        }
    }

    /// The answer, byte for byte.
    pub open spec fn answer(&self) -> Seq<u8> {
        match self {
            PrivateServiceResultV2::Complete(terminal) => terminal.answer(),
            PrivateServiceResultV2::Rejected { raw_response, .. } => raw_response@,
            PrivateServiceResultV2::Indeterminate { raw_response, .. } => raw_response@,
        }
    }

    /// What is known of the target's release.
    pub fn release_knowledge(&self) -> (r: PrivateReleaseKnowledgeV2)
        ensures
            r == self.knowledge(),
    {
        match self {
            PrivateServiceResultV2::Complete(_) => PrivateReleaseKnowledgeV2::Released,
            PrivateServiceResultV2::Rejected { release_knowledge, .. } => *release_knowledge,
            PrivateServiceResultV2::Indeterminate { .. } =>
                PrivateReleaseKnowledgeV2::PossiblyReleased,
        }
    }

    /// Whether, and how, the request may be followed up.
    pub fn replay_disposition(&self) -> (r: PrivateReplayDispositionV2)
        ensures
            r == self.disposition(),
    {
        match self {
            PrivateServiceResultV2::Complete(_) => PrivateReplayDispositionV2::QuerySameAttemptOnly,
            PrivateServiceResultV2::Rejected { release_knowledge, .. } => if *release_knowledge
                == PrivateReleaseKnowledgeV2::NotReleased {
                PrivateReplayDispositionV2::NewAttemptWithFreshAdmission
            } else {
                PrivateReplayDispositionV2::DoNotReplay
            },
            PrivateServiceResultV2::Indeterminate { .. } => PrivateReplayDispositionV2::DoNotReplay,
        }
    }

    fn answer_bytes(&self) -> (r: Vec<u8>)
        ensures
            r@ == self.answer(),
    {
        match self {
            PrivateServiceResultV2::Complete(terminal) => copy(terminal.raw_response()),
            PrivateServiceResultV2::Rejected { raw_response, .. } => copy(raw_response.as_slice()),
            PrivateServiceResultV2::Indeterminate { raw_response, .. } => copy(
                raw_response.as_slice(),
            ),
        }
    }
}

fn copy(bytes: &[u8]) -> (r: Vec<u8>)
    ensures
        r@ == bytes@,
{
    let mut out: Vec<u8> = Vec::new();
    put(&mut out, bytes);
    assert(out@ =~= bytes@);
    out
}

/// An answer that failed to come, or failed to be taken, after the request was
/// submitted: it cannot show that nothing was released. The answer is kept where
/// there was one.
#[derive(Debug)]
pub struct PrivateResponseFailureV2 {
    pub detail: String,
    pub raw_response: Option<Vec<u8>>,
}

impl PrivateResponseFailureV2 {
    /// What is known of the target's release.
    pub fn release_knowledge(&self) -> (r: PrivateReleaseKnowledgeV2)
        ensures
            r == PrivateReleaseKnowledgeV2::PossiblyReleased,
    {
        PrivateReleaseKnowledgeV2::PossiblyReleased
    }

    /// Whether, and how, the request may be followed up.
    pub fn replay_disposition(&self) -> (r: PrivateReplayDispositionV2)
        ensures
            r == PrivateReplayDispositionV2::DoNotReplay,
    {
        PrivateReplayDispositionV2::DoNotReplay
    }
}

/// Why a private launch came to no answer.
#[derive(Debug)]
pub enum PrivateLaunchErrorV2 {
    /// Nothing of the request was submitted.
    BeforeSubmission(String),
    /// The request may have reached the provider; no further release is safe.
    AfterSubmission(PrivateResponseFailureV2),
}

impl PrivateLaunchErrorV2 {
    /// What is known of the target's release.
    pub open spec fn knowledge(&self) -> PrivateReleaseKnowledgeV2 {
        match self {
            PrivateLaunchErrorV2::BeforeSubmission(_) => PrivateReleaseKnowledgeV2::NotReleased,
            PrivateLaunchErrorV2::AfterSubmission(_) => PrivateReleaseKnowledgeV2::PossiblyReleased,
        }
    }

    /// Whether, and how, the request may be followed up.
    pub open spec fn disposition(&self) -> PrivateReplayDispositionV2 {
        match self {
            PrivateLaunchErrorV2::BeforeSubmission(_) =>
                PrivateReplayDispositionV2::NewAttemptWithFreshAdmission,
            PrivateLaunchErrorV2::AfterSubmission(_) => PrivateReplayDispositionV2::DoNotReplay,
        }
    }

    /// What is known of the target's release.
    pub fn release_knowledge(&self) -> (r: PrivateReleaseKnowledgeV2)
        ensures
            r == self.knowledge(),
    {
        match self {
            PrivateLaunchErrorV2::BeforeSubmission(_) => PrivateReleaseKnowledgeV2::NotReleased,
            PrivateLaunchErrorV2::AfterSubmission(failure) => failure.release_knowledge(),
        }
    }

    /// Whether, and how, the request may be followed up.
    pub fn replay_disposition(&self) -> (r: PrivateReplayDispositionV2)
        ensures
            r == self.disposition(),
    {
        match self {
            PrivateLaunchErrorV2::BeforeSubmission(_) =>
                PrivateReplayDispositionV2::NewAttemptWithFreshAdmission,
            PrivateLaunchErrorV2::AfterSubmission(failure) => failure.replay_disposition(),
        }
    }
}

/// The envelope of an attempt whose end the provider does not know.
#[derive(Debug)]
pub struct PrivateIndeterminateV11 {
    pub schema_version: u32,
    pub attempt_id: String,
    pub release_knowledge: String,
    pub retirement_knowledge: String,
    pub replay_disposition: String,
    pub reason_code: String,
}

impl PrivateIndeterminateV11 {
    /// Whether the envelope says what the protocol lets it say.
    pub open spec fn conforms(&self, attempt: Seq<u8>) -> bool {
        &&& self.schema_version == 11
        &&& self.attempt_id@ == hex(attempt)
        &&& self.release_knowledge@ == "possibly-released"@
        &&& self.retirement_knowledge@ == "unverified"@
        &&& self.replay_disposition@ == "do-not-replay"@
        &&& self.reason_code@ == "MCSEALED-PRIVATE-TERMINAL-UNVERIFIED"@
    }

    fn is_conforming(&self, attempt: &[u8]) -> (r: bool)
        ensures
            r == self.conforms(attempt@),
    {
        let identity = private_attempt_hex(attempt);
        self.schema_version == 11 && same_text(self.attempt_id.as_str(), identity.as_str())
            && same_text(self.release_knowledge.as_str(), "possibly-released") && same_text(
            self.retirement_knowledge.as_str(),
            "unverified",
        ) && same_text(self.replay_disposition.as_str(), "do-not-replay") && same_text(
            self.reason_code.as_str(),
            "MCSEALED-PRIVATE-TERMINAL-UNVERIFIED",
        )
    }
}

/// What an answer's payload was read as: whether any key in it occurs twice, and
/// what it is as a report, as a refusal and as the envelope of an unknown end.
#[derive(Debug)]
pub struct PrivateReading {
    pub keys: Result<(), String>,
    pub report: Result<PrivateReport, String>,
    pub rejection: Result<ProviderRejectionEvidence, String>,
    pub indeterminate: Result<PrivateIndeterminateV11, String>,
}

/// What a refusal says of the release: a target that was allocated may already
/// have been released.
pub open spec fn rejection_knowledge(target_created: bool) -> PrivateReleaseKnowledgeV2 {
    if target_created {
        PrivateReleaseKnowledgeV2::PossiblyReleased
    } else {
        PrivateReleaseKnowledgeV2::NotReleased
    }
}

/// Why an answer to a private launch is refused, if it is.
pub open spec fn private_fault(
    frame: FrameView,
    nonce: Seq<u8>,
    attempt: Seq<u8>,
    expected: PrivateExpectedResultV2,
    limit: nat,
    reading: PrivateReading,
) -> Option<Seq<char>> {
    if frame.nonce != nonce || frame.attempt != attempt {
        Some("private response nonce or attempt differs"@)
    } else if frame.payload.len() > limit {
        Some("private response exceeds byte bound"@)
    } else if reading.keys is Err {
        Some(reading.keys->Err_0@)
    } else if frame.kind == PRIVATE_TERMINAL_KIND {
        match reading.report {
            Err(fault) => Some(fault@),
            Ok(report) => report_fault(report, attempt, expected),
        }
    } else if frame.kind == PRIVATE_REJECTION_KIND {
        match reading.rejection {
            Err(fault) => Some(fault@),
            Ok(_) => None,
        }
    } else if frame.kind == PRIVATE_INDETERMINATE_KIND {
        match reading.indeterminate {
            Err(fault) => Some(fault@),
            Ok(envelope) => if envelope.conforms(attempt) {
                None
            } else {
                Some("private indeterminate envelope differs from protocol"@)
            },
        }
    } else {
        Some("private response kind differs from V4 protocol"@)
    }
}

/// Whether a result is what an answer that was taken says.
pub open spec fn is_private_result(
    result: PrivateServiceResultV2,
    frame: FrameView,
    attempt: Seq<u8>,
    reading: PrivateReading,
) -> bool {
    &&& result.answer() == frame.payload
    &&& match result {
        PrivateServiceResultV2::Complete(terminal) => frame.kind == PRIVATE_TERMINAL_KIND
            && terminal.said() == reading.report->Ok_0 && terminal.given_back()
            == everything_retired(),
        PrivateServiceResultV2::Rejected { evidence, release_knowledge, .. } => frame.kind
            == PRIVATE_REJECTION_KIND && evidence == reading.rejection->Ok_0 && release_knowledge
            == rejection_knowledge(evidence.target_created),
        PrivateServiceResultV2::Indeterminate { attempt_id, reason_code, .. } => frame.kind
            == PRIVATE_INDETERMINATE_KIND && attempt_id@ == attempt && reason_code
            == reading.indeterminate->Ok_0.reason_code,
    }
}

fn refuse(detail: String, payload: Vec<u8>) -> (r: Result<
    PrivateServiceResultV2,
    PrivateResponseFailureV2,
>)
    ensures
        r matches Err(failure) && failure.detail == detail && failure.raw_response == Some(payload),
{
    Err(PrivateResponseFailureV2 { detail, raw_response: Some(payload) })
}

/// Takes an answer to a private launch. An answer that is refused is kept, byte
/// for byte, beside the reason.
pub fn decode_private_frame(
    frame: WireFrame,
    expected_nonce: &[u8],
    expected_attempt: &[u8],
    expected: &PrivateExpectedResultV2,
    limit: usize,
    reading: PrivateReading,
) -> (r: Result<PrivateServiceResultV2, PrivateResponseFailureV2>)
    ensures
        match r {
            Ok(result) => private_fault(
                frame@,
                expected_nonce@,
                expected_attempt@,
                *expected,
                limit as nat,
                reading,
            ) is None && is_private_result(result, frame@, expected_attempt@, reading),
            Err(failure) => private_fault(
                frame@,
                expected_nonce@,
                expected_attempt@,
                *expected,
                limit as nat,
                reading,
            ) == Some(failure.detail@) && failure.raw_response == Some(frame.payload),
        },
{
    let ghost whole = frame@;
    if !same_bytes(frame.nonce.as_slice(), expected_nonce) || !same_bytes(
        frame.attempt.as_slice(),
        expected_attempt,
    ) {
        return refuse("private response nonce or attempt differs".to_owned(), frame.payload);
    }
    if frame.payload.len() > limit {
        return refuse("private response exceeds byte bound".to_owned(), frame.payload);
    }
    if let Err(fault) = reading.keys {
        return refuse(fault, frame.payload);
    }
    if frame.kind == PRIVATE_TERMINAL_KIND {
        let report = match reading.report {
            Ok(report) => report,
            Err(fault) => {
                return refuse(fault, frame.payload);
            },
        };
        match validate_private_service_report(&report, expected_attempt, expected) {
            Ok(_) => {},
            Err(fault) => {
                return refuse(fault, frame.payload);
            },
        }
        let restart_safety = private_terminal_restart_safety(&report);
        return Ok(
            PrivateServiceResultV2::Complete(
                PrivateAuthenticatedTerminalV2 {
                    report,
                    raw_response: frame.payload,
                    restart_safety,
                },
            ),
        );
    }
    if frame.kind == PRIVATE_REJECTION_KIND {
        let evidence = match reading.rejection {
            Ok(evidence) => evidence,
            Err(fault) => {
                return refuse(fault, frame.payload);
            },
        };
        let release_knowledge = if evidence.target_created {
            PrivateReleaseKnowledgeV2::PossiblyReleased
        } else {
            PrivateReleaseKnowledgeV2::NotReleased
        };
        return Ok(
            PrivateServiceResultV2::Rejected {
                evidence,
                raw_response: frame.payload,
                release_knowledge,
            },
        );
    }
    if frame.kind == PRIVATE_INDETERMINATE_KIND {
        let envelope = match reading.indeterminate {
            Ok(envelope) => envelope,
            Err(fault) => {
                return refuse(fault, frame.payload);
            },
        };
        if !envelope.is_conforming(expected_attempt) {
            return refuse(
                "private indeterminate envelope differs from protocol".to_owned(),
                frame.payload,
            );
        }
        return Ok(
            PrivateServiceResultV2::Indeterminate {
                attempt_id: copy(expected_attempt),
                raw_response: frame.payload,
                reason_code: envelope.reason_code,
            },
        );
    }
    refuse("private response kind differs from V4 protocol".to_owned(), frame.payload)
}

/// What an answer says of release, replay and restart. `safe` is whether a proof
/// that everything was retired is enough for a restart; only an attempt that ended
/// yields such a proof.
pub fn private_response_disposition_for_test(
    frame: WireFrame,
    expected_nonce: &[u8],
    expected_attempt: &[u8],
    expected: &PrivateExpectedResultV2,
    limit: usize,
    reading: PrivateReading,
    safe: bool,
) -> (r: Result<
    (PrivateReleaseKnowledgeV2, PrivateReplayDispositionV2, bool, Vec<u8>),
    PrivateResponseFailureV2,
>)
    ensures
        match r {
            Ok((knowledge, disposition, restart_safe, raw)) => {
                &&& private_fault(
                    frame@,
                    expected_nonce@,
                    expected_attempt@,
                    *expected,
                    limit as nat,
                    reading,
                ) is None
                &&& exists|result: PrivateServiceResultV2|
                    #![trigger result.answer()]
                    is_private_result(result, frame@, expected_attempt@, reading) && knowledge
                        == result.knowledge() && disposition == result.disposition()
                        && restart_safe == (result is Complete && safe) && raw@ == result.answer()
            },
            Err(failure) => private_fault(
                frame@,
                expected_nonce@,
                expected_attempt@,
                *expected,
                limit as nat,
                reading,
            ) == Some(failure.detail@) && failure.raw_response == Some(frame.payload),
        },
{
    let result = match decode_private_frame(
        frame,
        expected_nonce,
        expected_attempt,
        expected,
        limit,
        reading,
    ) {
        Ok(result) => result,
        Err(failure) => {
            return Err(failure);
        },
    };
    let complete = match &result {
        PrivateServiceResultV2::Complete(_) => true,
        _ => false,
    };
    Ok(
        (
            result.release_knowledge(),
            result.replay_disposition(),
            complete && safe,
            result.answer_bytes(),
        ),
    )
}

/// Whether an error is the one of a request that was never submitted.
pub open spec fn unsubmitted(error: PrivateLaunchErrorV2, text: Seq<char>) -> bool {
    error matches PrivateLaunchErrorV2::BeforeSubmission(detail) && detail@ == text
}

/// Whether an error is the one of a request that may have been submitted.
pub open spec fn submitted(
    error: PrivateLaunchErrorV2,
    text: Seq<char>,
    raw: Option<Seq<u8>>,
) -> bool {
    error matches PrivateLaunchErrorV2::AfterSubmission(failure) && failure.detail@ == text && match (
        failure.raw_response,
        raw,
    ) {
        (Some(kept), Some(wanted)) => kept@ == wanted,
        (None, None) => true,
        _ => false,
    }
}

/// Why a private request of so many bytes is not framed, if it is not.
pub open spec fn private_frame_fault(length: nat) -> Option<&'static str> {
    match frame_fault(length) {
        Some(FrameFault::Overflow) => Some("frame overflow"),
        Some(FrameFault::TooLong) => Some("frame exceeds protocol limit"),
        None => None,
    }
}

/// Why a private launch request of so many bytes is not submitted, if it is not.
pub open spec fn run_fault(length: nat, attempt: Seq<u8>) -> Option<&'static str> {
    if attempt == no_attempt() {
        Some("private attempt identity is zero")
    } else {
        private_frame_fault(length)
    }
}

/// The bytes that submit a private launch, or why there are none. An attempt whose
/// identity is zero is never submitted.
pub fn run_private_v2(encoded_request: &[u8], nonce: &[u8], attempt: &[u8]) -> (r: Result<
    Vec<u8>,
    PrivateLaunchErrorV2,
>)
    requires
        nonce.len() == 16,
        attempt.len() == 16,
    ensures
        match r {
            Ok(bytes) => run_fault(encoded_request@.len(), attempt@) is None && is_frame(
                bytes@,
                PRIVATE_VERSION,
                FrameView {
                    kind: PRIVATE_LAUNCH_KIND,
                    nonce: nonce@,
                    attempt: attempt@,
                    payload: encoded_request@,
                },
            ),
            Err(error) => run_fault(encoded_request@.len(), attempt@) matches Some(text)
                && unsubmitted(error, text@),
        },
{
    let zero = zero_attempt();
    if same_bytes(attempt, zero.as_slice()) {
        return Err(
            PrivateLaunchErrorV2::BeforeSubmission("private attempt identity is zero".to_owned()),
        );
    }
    match encoded_frame_for_version(
        PRIVATE_VERSION,
        PRIVATE_LAUNCH_KIND,
        nonce,
        attempt,
        encoded_request,
    ) {
        Ok(bytes) => Ok(bytes),
        Err(text) => Err(PrivateLaunchErrorV2::BeforeSubmission(text.to_owned())),
    }
}

/// Decides whether a launch that was handed to the provider is waited for. A send that
/// failed may still have reached it.
pub fn after_send(sent: Result<(), String>) -> (r: Result<(), PrivateLaunchErrorV2>)
    ensures
        match sent {
            Ok(_) => r is Ok,
            Err(detail) => r matches Err(error) && submitted(error, detail@, None),
        },
{
    match sent {
        Ok(_) => Ok(()),
        Err(detail) => Err(
            PrivateLaunchErrorV2::AfterSubmission(
                PrivateResponseFailureV2 { detail, raw_response: None },
            ),
        ),
    }
}

/// Takes the answer to a private launch that was sent, with what it was read as; where
/// none could be had, nothing of it is kept.
pub fn receive_private_result(
    answer: Result<(WireFrame, PrivateReading), String>,
    nonce: &[u8],
    attempt: &[u8],
    expected: &PrivateExpectedResultV2,
    limit: usize,
) -> (r: Result<PrivateServiceResultV2, PrivateResponseFailureV2>)
    ensures
        match answer {
            Err(detail) => r matches Err(failure) && failure.detail@ == detail@
                && failure.raw_response is None,
            Ok((frame, reading)) => match r {
                Ok(result) => private_fault(
                    frame@,
                    nonce@,
                    attempt@,
                    *expected,
                    limit as nat,
                    reading,
                ) is None && is_private_result(result, frame@, attempt@, reading),
                Err(failure) => private_fault(
                    frame@,
                    nonce@,
                    attempt@,
                    *expected,
                    limit as nat,
                    reading,
                ) == Some(failure.detail@) && failure.raw_response == Some(frame.payload),
            },
        },
{
    match answer {
        Ok((frame, reading)) => decode_private_frame(
            frame,
            nonce,
            attempt,
            expected,
            limit,
            reading,
        ),
        Err(detail) => Err(PrivateResponseFailureV2 { detail, raw_response: None }),
    }
}

/// What a plan binds a private launch to.
#[derive(Debug)]
pub struct PrivatePlanReceipt {
    pub source_commit: String,
    pub native_abi: u32,
    pub registry_digest: Vec<u8>,
    pub runtime_manifest_sha256: Vec<u8>,
    pub installed_qualification_sha256: Vec<u8>,
}

/// One authenticated exchange about a plan. Neither answer authorizes a release.
#[derive(Debug)]
pub enum PrivatePlanExchangeV2 {
    Available { receipt: PrivatePlanReceipt, raw_response: Vec<u8> },
    Rejected { evidence: ProviderRejectionEvidence, raw_response: Vec<u8> },
}

/// What was read from an answer about a plan: the plan for the contract in
/// question, whether it is the caller's, whether it names the installed runtime,
/// or the refusal.
#[derive(Debug)]
pub struct PrivatePlanReading {
    pub receipt: Result<PrivatePlanReceipt, String>,
    pub caller: Result<(), String>,
    pub runtime: Result<(), String>,
    pub rejection: Result<ProviderRejectionEvidence, String>,
}

/// Whether a refusal tells of no attempt at all.
pub open spec fn claims_no_attempt(rejection: ProviderRejectionEvidence) -> bool {
    rejection.phase == BoundarySetupPhase::RequestValidation && !rejection.target_created
        && !rejection.target_released && !rejection.cleanup_attempted
}

/// Whether bytes ask for the plan of a contract.
pub open spec fn is_plan_request(bytes: Seq<u8>, nonce: Seq<u8>, payload: Seq<u8>) -> bool {
    is_frame(
        bytes,
        PRIVATE_VERSION,
        FrameView { kind: PRIVATE_PLAN_KIND, nonce, attempt: no_attempt(), payload },
    )
}

/// The bytes that ask for the plan of a contract, or why there are none. `valid` is what
/// the contract's validation came to, and `contract` the contract as it is encoded; of an
/// invalid one nothing is sent.
pub fn private_plan_request(
    valid: Result<(), String>,
    contract: Result<Vec<u8>, String>,
    nonce: &[u8],
) -> (r: Result<Vec<u8>, String>)
    requires
        nonce.len() == 16,
    ensures
        if valid is Err {
            r == Err::<Vec<u8>, String>(valid->Err_0)
        } else {
            match contract {
                Err(fault) => r == Err::<Vec<u8>, String>(fault),
                Ok(payload) => match r {
                    Ok(bytes) => private_frame_fault(payload@.len()) is None && is_plan_request(
                        bytes@,
                        nonce@,
                        payload@,
                    ),
                    Err(text) => private_frame_fault(payload@.len()) matches Some(fault) && text@
                        == fault@,
                },
            }
        },
{
    if let Err(fault) = valid {
        return Err(fault);
    }
    let payload = match contract {
        Ok(payload) => payload,
        Err(fault) => {
            return Err(fault);
        },
    };
    let zero = zero_attempt();
    match encoded_frame_for_version(
        PRIVATE_VERSION,
        PRIVATE_PLAN_KIND,
        nonce,
        zero.as_slice(),
        payload.as_slice(),
    ) {
        Ok(bytes) => Ok(bytes),
        Err(text) => Err(text.to_owned()),
    }
}

/// Why an answer about a plan is refused, if it is.
pub open spec fn private_plan_fault(
    frame: FrameView,
    nonce: Seq<u8>,
    reading: PrivatePlanReading,
) -> Option<Seq<char>> {
    if frame.nonce != nonce || frame.attempt != no_attempt() {
        Some("private plan response identity differs"@)
    } else if frame.kind == PRIVATE_PLAN_RECEIPT_KIND {
        if reading.receipt is Err {
            Some(reading.receipt->Err_0@)
        } else if reading.caller is Err {
            Some(reading.caller->Err_0@)
        } else if reading.runtime is Err {
            Some(reading.runtime->Err_0@)
        } else {
            None
        }
    } else if frame.kind == PRIVATE_REJECTION_KIND {
        match reading.rejection {
            Err(fault) => Some(fault@),
            Ok(rejection) => if claims_no_attempt(rejection) {
                None
            } else {
                Some("private plan rejection claims a native attempt"@)
            },
        }
    } else {
        Some("provider omitted V2 private plan receipt"@)
    }
}

/// Takes an answer about a plan.
pub fn private_plan_exchange_v2(frame: WireFrame, nonce: &[u8], reading: PrivatePlanReading) -> (r:
    Result<PrivatePlanExchangeV2, String>)
    ensures
        match r {
            Err(text) => private_plan_fault(frame@, nonce@, reading) == Some(text@),
            Ok(PrivatePlanExchangeV2::Available { receipt, raw_response }) => private_plan_fault(
                frame@,
                nonce@,
                reading,
            ) is None && frame.kind == PRIVATE_PLAN_RECEIPT_KIND && receipt == reading.receipt->Ok_0
                && raw_response == frame.payload,
            Ok(PrivatePlanExchangeV2::Rejected { evidence, raw_response }) => private_plan_fault(
                frame@,
                nonce@,
                reading,
            ) is None && frame.kind == PRIVATE_REJECTION_KIND && evidence
                == reading.rejection->Ok_0 && raw_response == frame.payload,
        },
{
    let zero = zero_attempt();
    if !same_bytes(frame.nonce.as_slice(), nonce) || !same_bytes(
        frame.attempt.as_slice(),
        zero.as_slice(),
    ) {
        return Err("private plan response identity differs".to_owned());
    }
    if frame.kind == PRIVATE_PLAN_RECEIPT_KIND {
        let receipt = match reading.receipt {
            Ok(receipt) => receipt,
            Err(fault) => {
                return Err(fault);
            },
        };
        if let Err(fault) = reading.caller {
            return Err(fault);
        }
        if let Err(fault) = reading.runtime {
            return Err(fault);
        }
        return Ok(PrivatePlanExchangeV2::Available { receipt, raw_response: frame.payload });
    }
    if frame.kind == PRIVATE_REJECTION_KIND {
        let rejection = match reading.rejection {
            Ok(rejection) => rejection,
            Err(fault) => {
                return Err(fault);
            },
        };
        let early = match rejection.phase {
            BoundarySetupPhase::RequestValidation => true,
            _ => false,
        };
        if !early || rejection.target_created || rejection.target_released
            || rejection.cleanup_attempted {
            return Err("private plan rejection claims a native attempt".to_owned());
        }
        return Ok(
            PrivatePlanExchangeV2::Rejected { evidence: rejection, raw_response: frame.payload },
        );
    }
    Err("provider omitted V2 private plan receipt".to_owned())
}

/// The plan of an exchange that yielded one.
pub fn private_plan_v2(exchange: PrivatePlanExchangeV2) -> (r: Result<PrivatePlanReceipt, String>)
    ensures
        match exchange {
            PrivatePlanExchangeV2::Available { receipt, .. } => r == Ok::<
                PrivatePlanReceipt,
                String,
            >(receipt),
            PrivatePlanExchangeV2::Rejected { evidence, .. } => r matches Err(text) && text@
                == "private plan unavailable ["@ + evidence.code@ + "]: "@ + evidence.detail@,
        },
{
    match exchange {
        PrivatePlanExchangeV2::Available { receipt, .. } => Ok(receipt),
        PrivatePlanExchangeV2::Rejected { evidence, .. } => {
            let mut text = join3("private plan unavailable [", evidence.code.as_str(), "]: ");
            text.append(evidence.detail.as_str());
            Err(text)
        },
    }
}

/// What is known of the contracts of a private launch before anything is asked:
/// what their validation came to, whether the policy also has an ordinary contract,
/// which profile the plan's contract is for, and whether it asks for an
/// administrator's identity.
#[derive(Debug)]
pub struct PrivateContracts {
    pub plan: Result<(), String>,
    pub launch: Result<(), String>,
    pub ordinary_contract: bool,
    pub profile: String,
    pub administrator_identity: bool,
}

/// Why a private launch is not even planned, if it is not.
pub open spec fn unplannable(policy: Policy, contracts: PrivateContracts) -> Option<Seq<char>> {
    if contracts.plan is Err {
        Some(contracts.plan->Err_0@)
    } else if contracts.launch is Err {
        Some(contracts.launch->Err_0@)
    } else if policy.boundary != BoundaryRequirement::Sealed || contracts.ordinary_contract
        || contracts.profile@ != "linux-tcp4-private-v1"@ {
        Some("V2 private launch requires sealed boundary, private profile and no V1 contract"@)
    } else if !contracts.administrator_identity {
        Some("private preserve-caller execution identity is not available"@)
    } else {
        None
    }
}

/// Decides whether a private launch may be planned.
pub fn private_launch_plannable(policy: &Policy, contracts: &PrivateContracts) -> (r: Result<
    (),
    PrivateLaunchErrorV2,
>)
    ensures
        match r {
            Ok(_) => unplannable(*policy, *contracts) is None,
            Err(error) => unplannable(*policy, *contracts) matches Some(text) && unsubmitted(
                error,
                text,
            ),
        },
{
    if let Err(fault) = &contracts.plan {
        return Err(PrivateLaunchErrorV2::BeforeSubmission(fault.clone()));
    }
    if let Err(fault) = &contracts.launch {
        return Err(PrivateLaunchErrorV2::BeforeSubmission(fault.clone()));
    }
    if policy.boundary != BoundaryRequirement::Sealed || contracts.ordinary_contract || !same_text(
        contracts.profile.as_str(),
        "linux-tcp4-private-v1",
    ) {
        return Err(
            PrivateLaunchErrorV2::BeforeSubmission(
                "V2 private launch requires sealed boundary, private profile and no V1 contract".to_owned(),
            ),
        );
    }
    if !contracts.administrator_identity {
        return Err(
            PrivateLaunchErrorV2::BeforeSubmission(
                "private preserve-caller execution identity is not available".to_owned(),
            ),
        );
    }
    Ok(())
}

/// Decides whether a launch that is held to an earlier plan may use a fresh one:
/// the two must be the same.
pub fn frozen_plan_holds(same_plan: bool) -> (r: Result<(), PrivateLaunchErrorV2>)
    ensures
        r is Ok <==> same_plan,
        r matches Err(error) ==> unsubmitted(
            error,
            "frozen private plan differs from freshly authenticated accepted plan"@,
        ),
{
    if same_plan {
        Ok(())
    } else {
        Err(
            PrivateLaunchErrorV2::BeforeSubmission(
                "frozen private plan differs from freshly authenticated accepted plan".to_owned(),
            ),
        )
    }
}

/// A request that may have reached the provider is never repeated, and only a
/// request of which nothing was released is followed by a new attempt.
pub proof fn released_requests_are_not_repeated(
    error: PrivateLaunchErrorV2,
    result: PrivateServiceResultV2,
)
    ensures
        error.disposition() == PrivateReplayDispositionV2::NewAttemptWithFreshAdmission
            <==> error.knowledge() == PrivateReleaseKnowledgeV2::NotReleased,
        error.knowledge() != PrivateReleaseKnowledgeV2::NotReleased ==> error.disposition()
            == PrivateReplayDispositionV2::DoNotReplay,
        result.disposition() == PrivateReplayDispositionV2::NewAttemptWithFreshAdmission
            ==> result.knowledge() == PrivateReleaseKnowledgeV2::NotReleased,
        result.knowledge() == PrivateReleaseKnowledgeV2::PossiblyReleased ==> result.disposition()
            == PrivateReplayDispositionV2::DoNotReplay,
{
}

/// An answer that was taken leads to a new attempt only where it is a refusal that
/// tells of no allocated target.
pub proof fn only_unallocated_refusals_start_anew(
    result: PrivateServiceResultV2,
    frame: FrameView,
    attempt: Seq<u8>,
    reading: PrivateReading,
)
    requires
        is_private_result(result, frame, attempt, reading),
    ensures
        result.disposition() == PrivateReplayDispositionV2::NewAttemptWithFreshAdmission <==> (
        frame.kind == PRIVATE_REJECTION_KIND && !reading.rejection->Ok_0.target_created),
{
}

} // verus!
