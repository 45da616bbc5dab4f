//! A sealed run on Windows: who the provider shows itself to be, and the conversation
//! about one attempt, which survives the loss of the pipe exactly once.

use vstd::prelude::*;
use vstd::string::*;

use crate::backend::{
    BackendInfo, BoundaryCapability, BoundaryQualification, CapabilityView, Execution,
    QualificationView, SealedAvailability, SealedView,
};
use crate::evidence::{
    bare_error, BoundaryMechanismEvidence, BoundarySetupFailure, Error, ErrorCategory, ErrorView,
    InitialSpawnFailure, LaunchEvidence, LaunchView, ProviderRejectionEvidence, RejectionView,
    RestartSafetyProof, RunOutcome, SetupFailureView,
};
use crate::model::texts;
use crate::policy::{BoundaryClass, BoundaryRequirement};
use crate::sealed::digest::{digest_bytes, sha256_of};
use crate::sealed::run::{boundary_phase_name, phase_named};
use crate::sealed::windows_wire::{
    missing_provider, missing_provider_message, transport_error, FrameFailure, PublicFrameError,
    Relays,
};
use crate::text::{hex, join2, join3, join_texts, joined, same_text};
use crate::time::{later, Duration};

verus! {

/// How a sealed boundary is kept on Windows.
pub const WINDOWS_MECHANISM: &'static str = "windows-job-object-v2";

/// Defects that are put in on purpose, to see that they are noticed.
#[derive(Clone, Copy, Debug, PartialEq, Eq, Structural)]
pub enum WindowsSealedMutant {
    FallBackToStandard,
    AdvertiseWithoutCertificate,
    Other,
}

/// What a defect that was put in changed.
#[derive(Clone, Copy, Debug, PartialEq, Eq, Structural)]
pub enum WindowsMutantNativeObservation {
    PlatformRouteFallback { ordinary_route_sealed: bool, mutant_route_standard: bool },
    UnqualifiedAdvertisement { ordinary_advertised: bool, mutant_advertised: bool },
}

/// Decides whether a provider's qualification is passed on.
pub fn qualification_fields_are_advertisable(
    qualified: bool,
    consistent: bool,
    mutant: Option<WindowsSealedMutant>,
) -> (r: bool)
    ensures
        r == ((qualified || mutant == Some(WindowsSealedMutant::AdvertiseWithoutCertificate))
            && consistent),
{
    let defective = match mutant {
        Some(WindowsSealedMutant::AdvertiseWithoutCertificate) => true,
        _ => false,
    };
    (qualified || defective) && consistent
}

/// Decides whether a run goes without a sealed boundary.
pub fn windows_standard_route_selected(
    boundary: BoundaryRequirement,
    mutant: Option<WindowsSealedMutant>,
) -> (r: bool)
    ensures
        r == (boundary != BoundaryRequirement::Sealed || mutant == Some(
            WindowsSealedMutant::FallBackToStandard,
        )),
{
    let defective = match mutant {
        Some(WindowsSealedMutant::FallBackToStandard) => true,
        _ => false,
    };
    boundary != BoundaryRequirement::Sealed || defective
}

/// Shows what a defect that is put in changes: a sealed run that falls back, or a
/// provider that is passed on without its certificate.
pub fn certify_windows_platform_mutant(mutant: WindowsSealedMutant) -> (r: Option<
    WindowsMutantNativeObservation,
>)
    ensures
        r == match mutant {
            WindowsSealedMutant::FallBackToStandard => Some(
                WindowsMutantNativeObservation::PlatformRouteFallback {
                    ordinary_route_sealed: true,
                    mutant_route_standard: true,
                },
            ),
            WindowsSealedMutant::AdvertiseWithoutCertificate => Some(
                WindowsMutantNativeObservation::UnqualifiedAdvertisement {
                    ordinary_advertised: false,
                    mutant_advertised: true,
                },
            ),
            WindowsSealedMutant::Other => None,
        },
{
    match mutant {
        WindowsSealedMutant::FallBackToStandard => Some(
            WindowsMutantNativeObservation::PlatformRouteFallback {
                ordinary_route_sealed: !windows_standard_route_selected(
                    BoundaryRequirement::Sealed,
                    None,
                ),
                mutant_route_standard: windows_standard_route_selected(
                    BoundaryRequirement::Sealed,
                    Some(mutant),
                ),
            },
        ),
        WindowsSealedMutant::AdvertiseWithoutCertificate => Some(
            certify_qualification_predicate_mutant(mutant),
        ),
        WindowsSealedMutant::Other => None,
    }
}

/// Shows what a defect changes of whether an unqualified provider is passed on.
pub fn certify_qualification_predicate_mutant(mutant: WindowsSealedMutant) -> (r:
    WindowsMutantNativeObservation)
    ensures
        r == (WindowsMutantNativeObservation::UnqualifiedAdvertisement {
            ordinary_advertised: false,
            mutant_advertised: mutant == WindowsSealedMutant::AdvertiseWithoutCertificate,
        }),
{
    WindowsMutantNativeObservation::UnqualifiedAdvertisement {
        ordinary_advertised: qualification_fields_are_advertisable(false, true, None),
        mutant_advertised: qualification_fields_are_advertisable(false, true, Some(mutant)),
    }
}

/// What a provider answers when asked who it is.
#[derive(Debug)]
pub enum ProbeAnswer {
    Probe { version: u32, qualified: bool, consistent: bool, provider_identity: String },
    Reject { code: String, detail: String },
    Other,
}

/// Decides whether a provider is talked to; its identity.
pub fn probe(answer: ProbeAnswer, version: u32, package: &str) -> (r: Result<String, String>)
    ensures
        match answer {
            ProbeAnswer::Probe { version: given, qualified, consistent, provider_identity } =>
                if given == version && qualified && consistent && provider_identity@
                == "memcordon-sealed-agent-windows-v1:"@ + package@ {
                r == Ok::<String, String>(provider_identity)
            } else {
                r matches Err(text) && text@
                    == "Windows sealed provider returned an invalid qualification receipt"@
            },
            ProbeAnswer::Reject { code, detail } => r matches Err(text) && text@ == code@ + ": "@
                + detail@,
            ProbeAnswer::Other => r matches Err(text) && text@
                == "Windows sealed provider returned an invalid qualification receipt"@,
        },
{
    match answer {
        ProbeAnswer::Probe { version: given, qualified, consistent, provider_identity } => {
            let expected = join2("memcordon-sealed-agent-windows-v1:", package);
            if given == version && qualification_fields_are_advertisable(
                qualified,
                consistent,
                None,
            ) && same_text(provider_identity.as_str(), expected.as_str()) {
                return Ok(provider_identity);
            }
            Err("Windows sealed provider returned an invalid qualification receipt".to_owned())
        },
        ProbeAnswer::Reject { code, detail } => Err(join3(code.as_str(), ": ", detail.as_str())),
        ProbeAnswer::Other => Err(
            "Windows sealed provider returned an invalid qualification receipt".to_owned(),
        ),
    }
}

/// The sealed boundary of a provider.
pub open spec fn windows_capability() -> CapabilityView {
    CapabilityView {
        class: BoundaryClass::Sealed,
        mechanism: WINDOWS_MECHANISM@,
        target_gated: true,
        boundary_verified_before_authorization: true,
        target_can_reconfigure_boundary: false,
        frontend_loss_cleanup_authority: true,
        workload_empty_proof: true,
        limitations: seq![
            "standard streams are provider-owned pipes rather than direct console handles"@,
            "interactive console and desktop semantics are not certified"@,
            "AppContainer caller tokens are not supported by Windows sealed v2"@,
        ],
    }
}

/// The sealed boundary of a provider that showed this receipt.
pub fn availability(provider_identity: String, receipt: &[u8]) -> (r: SealedAvailability)
    ensures
        r@ == (SealedView::Available {
            capability: windows_capability(),
            qualification: QualificationView {
                provider_identity: provider_identity@,
                receipt_digest: hex(sha256_of(receipt@)),
                mechanism: WINDOWS_MECHANISM@,
            },
        }),
{
    let mut limitations: Vec<String> = Vec::new();
    limitations.push(
        "standard streams are provider-owned pipes rather than direct console handles".to_owned(),
    );
    limitations.push("interactive console and desktop semantics are not certified".to_owned());
    limitations.push(
        "AppContainer caller tokens are not supported by Windows sealed v2".to_owned(),
    );
    assert(texts(limitations@) =~= windows_capability().limitations);
    SealedAvailability::Available {
        capability: BoundaryCapability {
            class: BoundaryClass::Sealed,
            mechanism: WINDOWS_MECHANISM.to_owned(),
            target_gated: true,
            boundary_verified_before_authorization: true,
            target_can_reconfigure_boundary: false,
            frontend_loss_cleanup_authority: true,
            workload_empty_proof: true,
            limitations,
        },
        qualification: BoundaryQualification {
            provider_identity,
            receipt_digest: digest_bytes(receipt),
            mechanism: WINDOWS_MECHANISM.to_owned(),
        },
    }
}

/// What tells one attempt from any other.
#[derive(Debug)]
pub struct Claim {
    pub version: u32,
    pub attempt_id: String,
    pub nonce: String,
    pub request_sha256: String,
}

impl Claim {
    /// Whether two messages are about the same attempt.
    pub open spec fn about(&self, other: Claim) -> bool {
        self.attempt_id@ == other.attempt_id@ && self.same_request(other)
    }

    /// Whether two messages are about the same request.
    pub open spec fn same_request(&self, other: Claim) -> bool {
        self.nonce@ == other.nonce@ && self.request_sha256@ == other.request_sha256@
    }

    /// Whether two messages are about the same attempt, in the same version.
    pub open spec fn agrees(&self, other: Claim) -> bool {
        self.version == other.version && self.about(other)
    }

    fn is_same_request(&self, other: &Claim) -> (r: bool)
        ensures
            r == self.same_request(*other),
    {
        same_text(self.nonce.as_str(), other.nonce.as_str()) && same_text(
            self.request_sha256.as_str(),
            other.request_sha256.as_str(),
        )
    }

    fn is_about(&self, other: &Claim) -> (r: bool)
        ensures
            r == self.about(*other),
    {
        same_text(self.attempt_id.as_str(), other.attempt_id.as_str()) && self.is_same_request(
            other,
        )
    }

    fn does_agree(&self, other: &Claim) -> (r: bool)
        ensures
            r == self.agrees(*other),
    {
        self.version == other.version && self.is_about(other)
    }
}

/// What a conversation that failed says.
pub open spec fn broken<T>(r: Result<T, Error>, text: Seq<char>) -> bool {
    r matches Err(error) && error@ == bare_error(
        ErrorCategory::Setup,
        "MCSEALED-WINDOWS-TRANSPORT",
        text,
    )
}

/// The error that a refusal stands for.
pub open spec fn rejection_error_of(rejection: RejectionView) -> ErrorView {
    let failure = if rejection.code == "MCSPAWN-NOT-FOUND"@ {
        Some(InitialSpawnFailure::NotFound)
    } else if rejection.code == "MCSPAWN-NOT-EXECUTABLE"@ {
        Some(InitialSpawnFailure::NotExecutable)
    } else {
        None
    };
    let spawn = failure is Some || rejection.code == "MCSPAWN-FAILED"@;
    ErrorView {
        os_code: rejection.os_code,
        launch_phase: if spawn {
            Some("target-spawn-failed")
        } else {
            Some(phase_named(rejection.phase))
        },
        initial_spawn_failure: failure,
        workload_may_be_alive: rejection.target_created && rejection.restart_safety.workload_empty
            != Some(true),
        restart_safety: Some(rejection.restart_safety),
        provider_rejection: Some(rejection),
        boundary_setup_failure: Some(
            SetupFailureView {
                requested: BoundaryRequirement::Sealed,
                mechanism: Some(WINDOWS_MECHANISM@),
                phase: rejection.phase,
                target_created: rejection.target_created,
                target_released: rejection.target_released,
                cleanup_attempted: rejection.cleanup_attempted,
                restart_safety: rejection.restart_safety,
            },
        ),
        ..bare_error(
            if spawn {
                ErrorCategory::Spawn
            } else {
                ErrorCategory::Setup
            },
            if rejection.code == "MCSPAWN-NOT-FOUND"@ {
                "MCSPAWN-NOT-FOUND"
            } else if rejection.code == "MCSPAWN-NOT-EXECUTABLE"@ {
                "MCSPAWN-NOT-EXECUTABLE"
            } else if rejection.code == "MCSPAWN-FAILED"@ {
                "MCSPAWN-FAILED"
            } else {
                "MCSEALED-PROVIDER-REJECTION"
            },
            "provider rejected launch ["@ + rejection.code + "]: "@ + rejection.detail,
        )
    }
}

/// The error that a refusal stands for.
pub fn rejection_error(rejection: ProviderRejectionEvidence) -> (r: Error)
    ensures
        r@ == rejection_error_of(rejection@),
{
    let code_text = rejection.code.as_str();
    let (category, code, failure, phase) = if same_text(code_text, "MCSPAWN-NOT-FOUND") {
        (
            ErrorCategory::Spawn,
            "MCSPAWN-NOT-FOUND",
            Some(InitialSpawnFailure::NotFound),
            "target-spawn-failed",
        )
    } else if same_text(code_text, "MCSPAWN-NOT-EXECUTABLE") {
        (
            ErrorCategory::Spawn,
            "MCSPAWN-NOT-EXECUTABLE",
            Some(InitialSpawnFailure::NotExecutable),
            "target-spawn-failed",
        )
    } else if same_text(code_text, "MCSPAWN-FAILED") {
        (ErrorCategory::Spawn, "MCSPAWN-FAILED", None, "target-spawn-failed")
    } else {
        (
            ErrorCategory::Setup,
            "MCSEALED-PROVIDER-REJECTION",
            None,
            boundary_phase_name(rejection.phase),
        )
    };
    let mut message = join3("provider rejected launch [", code_text, "]: ");
    message.append(rejection.detail.as_str());
    let mut error = Error::new(category, code, message);
    error.os_code = rejection.os_code;
    error.launch_phase = Some(phase);
    error.initial_spawn_failure = failure;
    error.workload_may_be_alive = rejection.target_created && match rejection.restart_safety.workload_empty {
        Some(empty) => !empty,
        None => true,
    };
    error.restart_safety = Some(rejection.restart_safety.duplicate());
    error.boundary_setup_failure = Some(
        BoundarySetupFailure {
            requested: BoundaryRequirement::Sealed,
            mechanism: Some(WINDOWS_MECHANISM.to_owned()),
            phase: rejection.phase,
            target_created: rejection.target_created,
            target_released: rejection.target_released,
            cleanup_attempted: rejection.cleanup_attempted,
            restart_safety: rejection.restart_safety.duplicate(),
        },
    );
    error.provider_rejection = Some(rejection);
    error
}

/// What a provider answers to a launch.
#[derive(Debug)]
pub enum PreparedAnswer {
    StreamsPrepared(Claim),
    Reject { claim: Claim, rejection: ProviderRejectionEvidence },
    Other,
}

/// What a provider says of an attempt that is under way.
#[derive(Debug)]
pub enum Response {
    ReplayPending {
        /// It is about this attempt, in its present phase.
        bound: bool,
        detail: String,
        state: String,
        cleanup_complete: bool,
        outbox: String,
    },
    TargetAuthorized(Claim),
    TargetRetired(Claim),
    RelaysAbort(Claim),
    Terminal {
        claim: Claim,
        /// The list of processes in it is within its bounds.
        bounded: bool,
    },
    Reject {
        claim: Claim,
        /// The refusal does not contradict itself.
        consistent: bool,
        terminal: Option<Claim>,
        rejection: ProviderRejectionEvidence,
    },
    AttemptRetained {
        bound: bool,
        relay_phase: String,
        cleanup_complete: bool,
        terminal_replay_available: bool,
        primary_detail: String,
        secondary_failures: Vec<String>,
    },
    Other,
}

/// What the phase of the relays is told.
#[derive(Clone, Copy, Debug, PartialEq, Eq, Structural)]
pub enum RelayEvent {
    TargetAuthorized,
    TargetRetired,
    RelaysAbort,
    RelaysRetired,
    Terminal,
    Reject,
}

/// What a run waits to be told.
#[derive(Clone, Copy, Debug, PartialEq, Eq, Structural)]
pub enum RunStage {
    /// Whether a message is there.
    Look,
    /// The message.
    Read,
    /// Whether the loss of the pipe is one after which the end is asked for again.
    Lost,
    /// That the relays are retired, after a loss.
    LostRetire,
    /// That the provider was reached again, after a loss.
    LostReconnect,
    /// Whether the answer is there, after a loss.
    ReplayLook,
    /// The answer, after a loss.
    ReplayRead,
    /// Whether the end may be asked for again, because it is not ready.
    PendingAdmit,
    /// That the relays are retired, because the end is not ready.
    PendingRetire,
    /// That the provider was reached again, because the end is not ready.
    PendingReconnect,
    /// That the end was asked for once more.
    PendingSend,
    /// That the relays' phase went on.
    Advance(RelayEvent),
    /// That the relays are retired.
    Retire,
    /// That the provider was told so.
    SendRetired,
    /// That the end was acknowledged.
    Acknowledge,
    /// That the refusal was acknowledged.
    AcknowledgeReject,
    /// Whether a signal came.
    Idle,
    /// That the provider was told of the signal.
    Cancel,
    /// Nothing: the end is known.
    Over,
}

/// What the caller does next.
#[derive(Clone, Copy, Debug, PartialEq, Eq, Structural)]
pub enum RunAction {
    Look,
    Read,
    /// Ask whether after this loss the end is asked for again.
    ObserveFailure(FrameFailure),
    RetireRelays,
    /// Reach the provider again and ask for the end.
    Reconnect,
    /// Wait ten milliseconds, then look.
    PauseLook,
    AdmitPending,
    /// Wait twenty-five milliseconds, then ask for the end once more.
    AskAgain,
    Advance(RelayEvent),
    SendRelaysRetired,
    Acknowledge,
    /// Wait ten milliseconds for a signal.
    WaitSignal,
    /// Wait ten milliseconds.
    Pause,
    SendCancel(i32),
    Finish,
}

/// Where reaching the provider again failed.
#[derive(Debug)]
pub enum ReconnectFault {
    Connect(String),
    Authenticate(String),
    Request(String),
}

/// What is said where reaching the provider again failed.
pub open spec fn reconnect_words(primary: Seq<char>, fault: ReconnectFault) -> Seq<char> {
    match fault {
        ReconnectFault::Connect(text) => primary
            + "; secondary terminal replay reconnect failure: "@ + text@,
        ReconnectFault::Authenticate(text) => primary
            + "; secondary terminal replay authentication failure: "@ + text@,
        ReconnectFault::Request(text) => primary
            + "; secondary exact terminal replay request failure: "@ + text@,
    }
}

fn reconnect_failure(primary: &str, fault: ReconnectFault) -> (r: String)
    ensures
        r@ == reconnect_words(primary@, fault),
{
    match fault {
        ReconnectFault::Connect(text) => join3(
            primary,
            "; secondary terminal replay reconnect failure: ",
            text.as_str(),
        ),
        ReconnectFault::Authenticate(text) => join3(
            primary,
            "; secondary terminal replay authentication failure: ",
            text.as_str(),
        ),
        ReconnectFault::Request(text) => join3(
            primary,
            "; secondary exact terminal replay request failure: ",
            text.as_str(),
        ),
    }
}

/// A run that is under way.
#[derive(Debug)]
pub struct WindowsRun {
    pub binding: Claim,
    pub authorized: bool,
    pub retired: bool,
    pub cancel_sent: bool,
    /// The end was asked for again; that happens once.
    pub replay_consumed: bool,
    pub relays: Relays,
    pub deadline: Option<Duration>,
    pub primary: Option<String>,
    pub lost: Option<PublicFrameError>,
    pub pending_detail: Option<String>,
    pub rejection: Option<Error>,
    pub stage: RunStage,
}

/// The text of an optional one, or another where there is none.
pub open spec fn text_or(text: Option<String>, other: &'static str) -> Seq<char> {
    match text {
        Some(text) => text@,
        None => other@,
    }
}

fn text_or_other(text: &Option<String>, other: &'static str) -> (r: String)
    ensures
        r@ == text_or(*text, other),
{
    match text {
        Some(text) => text.clone(),
        None => other.to_owned(),
    }
}

/// Whether a deadline that is set has passed.
pub open spec fn is_past(deadline: Option<Duration>, now: nat) -> bool {
    deadline matches Some(end) && now >= end@
}

fn past(deadline: Option<Duration>, now: Duration) -> (r: bool)
    ensures
        r == is_past(deadline, now@),
{
    match deadline {
        Some(end) => !now.is_less_than(end),
        None => false,
    }
}

fn half_minute_after(now: Duration) -> (r: Duration)
    requires
        now@ <= u64::MAX,
    ensures
        r@ == now@ + 30_000_000_000,
{
    later(now, Duration::from_secs(30))
}

impl WindowsRun {
    /// What always holds of a run.
    pub open spec fn wf(self) -> bool {
        &&& self.replay_consumed && self.stage != RunStage::LostRetire && self.stage
            != RunStage::PendingRetire ==> self.primary is Some && self.deadline is Some
        &&& self.stage == RunStage::LostRetire ==> self.primary is Some
        &&& self.stage == RunStage::Lost ==> self.lost is Some
        &&& self.stage == RunStage::PendingRetire || self.stage == RunStage::PendingAdmit
            ==> self.pending_detail is Some
        &&& self.stage == RunStage::LostReconnect || self.stage == RunStage::PendingReconnect
            || self.stage == RunStage::ReplayLook || self.stage == RunStage::ReplayRead
            ==> self.replay_consumed
        &&& self.stage == RunStage::Advance(RelayEvent::Reject) || self.stage
            == RunStage::AcknowledgeReject ==> self.rejection is Some
        &&& self.stage == RunStage::Retire || self.stage == RunStage::LostRetire || self.stage
            == RunStage::PendingRetire ==> !self.relays.retired
    }

    /// A run with nothing done yet.
    pub open spec fn fresh(binding: Claim) -> WindowsRun {
        WindowsRun {
            binding,
            authorized: false,
            retired: false,
            cancel_sent: false,
            replay_consumed: false,
            relays: Relays { retired: false },
            deadline: None,
            primary: None,
            lost: None,
            pending_detail: None,
            rejection: None,
            stage: RunStage::Look,
        }
    }

    /// Begins a run with the provider's answer to the launch: it must be about this very
    /// request, and name an attempt.
    pub fn begin(answer: PreparedAnswer, version: u32, nonce: &str, request_sha256: &str) -> (r:
        Result<WindowsRun, Error>)
        ensures
            match answer {
                PreparedAnswer::StreamsPrepared(claim) => if claim.version == version
                    && claim.nonce@ == nonce@ && claim.request_sha256@ == request_sha256@ {
                    r == Ok::<WindowsRun, Error>(WindowsRun::fresh(claim))
                } else {
                    broken(r, "provider omitted stream preparation"@)
                },
                PreparedAnswer::Reject { claim, rejection } => if claim.version == version
                    && claim.attempt_id@.len() > 0 && claim.nonce@ == nonce@
                    && claim.request_sha256@ == request_sha256@ {
                    r matches Err(error) && error@ == rejection_error_of(rejection@)
                } else {
                    broken(r, "provider omitted stream preparation"@)
                },
                PreparedAnswer::Other => broken(r, "provider omitted stream preparation"@),
            },
            r matches Ok(run) ==> run.wf(),
    {
        match answer {
            PreparedAnswer::StreamsPrepared(claim) => {
                if claim.version == version && same_text(claim.nonce.as_str(), nonce) && same_text(
                    claim.request_sha256.as_str(),
                    request_sha256,
                ) {
                    return Ok(
                        WindowsRun {
                            binding: claim,
                            authorized: false,
                            retired: false,
                            cancel_sent: false,
                            replay_consumed: false,
                            relays: Relays { retired: false },
                            deadline: None,
                            primary: None,
                            lost: None,
                            pending_detail: None,
                            rejection: None,
                            stage: RunStage::Look,
                        },
                    );
                }
            },
            PreparedAnswer::Reject { claim, rejection } => {
                let empty = same_text(claim.attempt_id.as_str(), "");
                proof {
                    reveal_strlit("");
                    assert(claim.attempt_id@.len() == 0 ==> claim.attempt_id@ =~= ""@);
                }
                if claim.version == version && !empty && same_text(claim.nonce.as_str(), nonce)
                    && same_text(claim.request_sha256.as_str(), request_sha256) {
                    return Err(rejection_error(rejection));
                }
            },
            PreparedAnswer::Other => {},
        }
        Err(transport_error("provider omitted stream preparation".to_owned()))
    }

    /// What a run does where nothing is there.
    pub open spec fn idling(self) -> RunAction {
        if self.cancel_sent {
            RunAction::Pause
        } else {
            RunAction::WaitSignal
        }
    }

    fn go_idle(&mut self) -> (r: RunAction)
        ensures
            *final(self) == (WindowsRun { stage: RunStage::Idle, ..*old(self) }),
            r == old(self).idling(),
    {
        self.stage = RunStage::Idle;
        if self.cancel_sent {
            RunAction::Pause
        } else {
            RunAction::WaitSignal
        }
    }

    /// A message failed: whether the end is asked for again has to be decided.
    pub open spec fn losing(self, error: PublicFrameError) -> WindowsRun {
        WindowsRun { lost: Some(error), stage: RunStage::Lost, ..self }
    }

    fn lose(&mut self, error: PublicFrameError) -> (r: RunAction)
        ensures
            *final(self) == old(self).losing(error),
            r == RunAction::ObserveFailure(error.failure),
    {
        let failure = error.failure;
        self.lost = Some(error);
        self.stage = RunStage::Lost;
        RunAction::ObserveFailure(failure)
    }

    /// Takes in whether a message is there.
    pub fn looked(&mut self, available: Result<bool, PublicFrameError>, now: Duration) -> (r:
        Result<RunAction, Error>)
        requires
            old(self).wf(),
            old(self).stage == RunStage::Look,
        ensures
            r is Ok ==> final(self).wf(),
            match available {
                Err(error) => r == Ok::<RunAction, Error>(
                    RunAction::ObserveFailure(error.failure),
                ) && *final(self) == old(self).losing(error),
                Ok(true) => r == Ok::<RunAction, Error>(RunAction::Read) && *final(self) == (
                WindowsRun { stage: RunStage::Read, ..*old(self) }),
                Ok(false) => if old(self).replay_consumed && is_past(old(self).deadline, now@) {
                    broken(
                        r,
                        text_or(old(self).primary, "terminal replay")
                            + "; secondary terminal replay response deadline expired"@,
                    )
                } else {
                    r == Ok::<RunAction, Error>(old(self).idling()) && *final(self) == (
                    WindowsRun { stage: RunStage::Idle, ..*old(self) })
                },
            },
    {
        match available {
            Err(error) => Ok(self.lose(error)),
            Ok(there) => {
                if there {
                    self.stage = RunStage::Read;
                    return Ok(RunAction::Read);
                }
                if self.replay_consumed && past(self.deadline, now) {
                    let primary = text_or_other(&self.primary, "terminal replay");
                    return Err(
                        transport_error(
                            join2(
                                primary.as_str(),
                                "; secondary terminal replay response deadline expired",
                            ),
                        ),
                    );
                }
                Ok(self.go_idle())
            },
        }
    }

    /// A message could not be read.
    pub fn read_failed(&mut self, error: PublicFrameError) -> (r: RunAction)
        requires
            old(self).wf(),
            old(self).stage == RunStage::Read,
        ensures
            final(self).wf(),
            r == RunAction::ObserveFailure(error.failure),
            *final(self) == old(self).losing(error),
    {
        self.lose(error)
    }

    /// Takes in whether the end is asked for again after a loss. Where it is not, the
    /// run fails with the loss; where it is, the relays are retired first.
    pub fn observed(&mut self, once: bool, now: Duration) -> (r: Result<RunAction, Error>)
        requires
            old(self).wf(),
            old(self).stage == RunStage::Lost,
            now@ <= u64::MAX,
        ensures
            r is Ok ==> final(self).wf(),
            if !once {
                broken(r, old(self).lost->0.says())
            } else {
                &&& final(self).primary matches Some(text) && text@ == old(self).lost->0.says()
                &&& if old(self).relays.retired {
                    r == Ok::<RunAction, Error>(RunAction::Reconnect) && (final(
                        self
                    ).deadline matches Some(end) && end@ == now@ + 30_000_000_000)
                        && *final(self) == (WindowsRun {
                        replay_consumed: true,
                        primary: final(self).primary,
                        lost: None,
                        deadline: final(self).deadline,
                        stage: RunStage::LostReconnect,
                        ..*old(self)
                    })
                } else {
                    r == Ok::<RunAction, Error>(RunAction::RetireRelays) && *final(self) == (
                    WindowsRun {
                        replay_consumed: true,
                        primary: final(self).primary,
                        lost: None,
                        stage: RunStage::LostRetire,
                        ..*old(self)
                    })
                }
            },
    {
        let text = match self.lost.take() {
            Some(error) => error.text(),
            None => String::new(),
        };
        if !once {
            return Err(transport_error(text));
        }
        self.replay_consumed = true;
        self.primary = Some(text);
        if self.relays.retired {
            self.deadline = Some(half_minute_after(now));
            self.stage = RunStage::LostReconnect;
            Ok(RunAction::Reconnect)
        } else {
            self.stage = RunStage::LostRetire;
            Ok(RunAction::RetireRelays)
        }
    }

    /// The relays are retired after a loss, or that failed.
    pub fn lost_retired(&mut self, findings: &Vec<String>, now: Duration) -> (r: Result<
        RunAction,
        Error,
    >)
        requires
            old(self).wf(),
            old(self).stage == RunStage::LostRetire,
            old(self).replay_consumed,
            now@ <= u64::MAX,
        ensures
            r is Ok ==> final(self).wf(),
            if findings@.len() > 0 {
                broken(
                    r,
                    old(self).primary->0@ + "; secondary relay retirement failure: "@ + joined(
                        texts(findings@),
                        "; "@,
                    ),
                )
            } else {
                &&& r == Ok::<RunAction, Error>(RunAction::Reconnect)
                &&& final(self).deadline matches Some(end) && end@ == now@ + 30_000_000_000
                &&& *final(self) == (WindowsRun {
                    relays: Relays { retired: true },
                    deadline: final(self).deadline,
                    stage: RunStage::LostReconnect,
                    ..*old(self)
                })
            },
    {
        match self.relays.retire(findings) {
            Err(text) => {
                let primary = text_or_other(&self.primary, "");
                Err(
                    transport_error(
                        join3(
                            primary.as_str(),
                            "; secondary relay retirement failure: ",
                            text.as_str(),
                        ),
                    ),
                )
            },
            Ok(_) => {
                self.deadline = Some(half_minute_after(now));
                self.stage = RunStage::LostReconnect;
                Ok(RunAction::Reconnect)
            },
        }
    }

    /// The provider was reached again, or that failed.
    pub fn reconnected(&mut self, result: Result<(), ReconnectFault>) -> (r: Result<
        RunAction,
        Error,
    >)
        requires
            old(self).wf(),
            old(self).stage == RunStage::LostReconnect || old(self).stage
                == RunStage::PendingReconnect,
        ensures
            r is Ok ==> final(self).wf(),
            match result {
                Err(fault) => broken(r, reconnect_words(old(self).primary->0@, fault)),
                Ok(_) => r == Ok::<RunAction, Error>(RunAction::Look) && *final(self) == (
                WindowsRun {
                    stage: if old(self).stage == RunStage::LostReconnect {
                        RunStage::ReplayLook
                    } else {
                        RunStage::Look
                    },
                    ..*old(self)
                }),
            },
    {
        match result {
            Err(fault) => {
                let primary = text_or_other(&self.primary, "");
                Err(transport_error(reconnect_failure(primary.as_str(), fault)))
            },
            Ok(_) => {
                let lost = match self.stage {
                    RunStage::LostReconnect => true,
                    _ => false,
                };
                self.stage = if lost {
                    RunStage::ReplayLook
                } else {
                    RunStage::Look
                };
                Ok(RunAction::Look)
            },
        }
    }

    /// Takes in whether the answer is there after a loss. Nothing but this answer is
    /// waited for, and not beyond the deadline.
    pub fn replay_looked(&mut self, available: Result<bool, PublicFrameError>, now: Duration) -> (r:
        Result<RunAction, Error>)
        requires
            old(self).wf(),
            old(self).stage == RunStage::ReplayLook,
        ensures
            r is Ok ==> final(self).wf(),
            if is_past(old(self).deadline, now@) {
                broken(
                    r,
                    old(self).primary->0@
                        + "; secondary exact terminal replay response deadline expired"@,
                )
            } else {
                match available {
                    Ok(true) => r == Ok::<RunAction, Error>(RunAction::Read) && *final(self) == (
                    WindowsRun { stage: RunStage::ReplayRead, ..*old(self) }),
                    Ok(false) => r == Ok::<RunAction, Error>(RunAction::PauseLook) && *final(self)
                        == *old(self),
                    Err(error) => broken(
                        r,
                        old(self).primary->0@
                            + "; secondary exact terminal replay availability failure: "@
                            + error.says(),
                    ),
                }
            },
    {
        if past(self.deadline, now) {
            let primary = text_or_other(&self.primary, "");
            return Err(
                transport_error(
                    join2(
                        primary.as_str(),
                        "; secondary exact terminal replay response deadline expired",
                    ),
                ),
            );
        }
        match available {
            Ok(there) => {
                if there {
                    self.stage = RunStage::ReplayRead;
                    Ok(RunAction::Read)
                } else {
                    Ok(RunAction::PauseLook)
                }
            },
            Err(error) => {
                let primary = text_or_other(&self.primary, "");
                let text = error.text();
                Err(
                    transport_error(
                        join3(
                            primary.as_str(),
                            "; secondary exact terminal replay availability failure: ",
                            text.as_str(),
                        ),
                    ),
                )
            },
        }
    }

    /// The answer after a loss could not be read.
    pub fn replay_failed(&self, error: PublicFrameError) -> (r: Error)
        requires
            self.wf(),
            self.stage == RunStage::ReplayRead,
        ensures
            broken(
                Err::<(), Error>(r),
                self.primary->0@ + "; secondary exact terminal replay failure: "@ + error.says(),
            ),
    {
        let primary = text_or_other(&self.primary, "");
        let text = error.text();
        transport_error(
            join3(
                primary.as_str(),
                "; secondary exact terminal replay failure: ",
                text.as_str(),
            ),
        )
    }

    /// What is said where the end is not ready in time.
    pub open spec fn late_words(
        self,
        state: Seq<char>,
        cleanup_complete: bool,
        outbox: Seq<char>,
    ) -> Seq<char> {
        text_or(self.primary, "terminal replay pending")
            + "; secondary terminal replay deadline expired at state="@ + state
            + " cleanup_complete="@ + flag_text(cleanup_complete) + " outbox="@ + outbox
    }

    /// Whether an end counts: it is about this attempt, and comes after the target was
    /// authorized and retired, unless it was asked for again.
    pub open spec fn ends_with(self, claim: Claim, bounded: bool) -> bool {
        claim.about(self.binding) && ((self.authorized && self.retired) || self.replay_consumed)
            && bounded
    }

    /// Whether a refusal counts.
    pub open spec fn refused_with(self, claim: Claim, consistent: bool, terminal: Option<Claim>) -> bool {
        claim.agrees(self.binding) && consistent && (terminal matches Some(end) ==> end.about(
            claim,
        ))
    }

    /// What a message makes of a run.
    pub open spec fn responds(
        self,
        after_it: WindowsRun,
        r: Result<RunAction, Error>,
        response: Response,
        now: nat,
    ) -> bool {
        let mismatch = broken(r, "provider response identity or phase mismatch"@);
        match response {
            Response::ReplayPending { bound, detail, state, cleanup_complete, outbox } => if !bound {
                mismatch
            } else if !self.replay_consumed {
                r == Ok::<RunAction, Error>(RunAction::AdmitPending) && after_it == (WindowsRun {
                    pending_detail: Some(detail),
                    stage: RunStage::PendingAdmit,
                    ..self
                })
            } else if self.deadline is None || is_past(self.deadline, now) {
                broken(r, self.late_words(state@, cleanup_complete, outbox@))
            } else {
                r == Ok::<RunAction, Error>(RunAction::AskAgain) && after_it == (WindowsRun {
                    stage: RunStage::PendingSend,
                    ..self
                })
            },
            Response::TargetAuthorized(claim) => if claim.agrees(self.binding) && !self.authorized
                && !self.retired {
                self.advancing(after_it, r, RelayEvent::TargetAuthorized)
            } else {
                mismatch
            },
            Response::TargetRetired(claim) => if claim.agrees(self.binding) && self.authorized
                && !self.retired {
                self.advancing(after_it, r, RelayEvent::TargetRetired)
            } else {
                mismatch
            },
            Response::RelaysAbort(claim) => if claim.agrees(self.binding) && !self.authorized
                && !self.retired {
                self.advancing(after_it, r, RelayEvent::RelaysAbort)
            } else {
                mismatch
            },
            Response::Terminal { claim, bounded } => if !self.ends_with(claim, bounded) {
                mismatch
            } else if self.replay_consumed {
                r == Ok::<RunAction, Error>(RunAction::Acknowledge) && after_it == (WindowsRun {
                    stage: RunStage::Acknowledge,
                    ..self
                })
            } else {
                self.advancing(after_it, r, RelayEvent::Terminal)
            },
            Response::Reject { claim, consistent, terminal, rejection } => if self.refused_with(
                claim,
                consistent,
                terminal,
            ) {
                &&& after_it.rejection matches Some(error) && error@ == rejection_error_of(
                    rejection@,
                )
                &&& r == Ok::<RunAction, Error>(RunAction::Advance(RelayEvent::Reject))
                &&& after_it == (WindowsRun {
                    rejection: after_it.rejection,
                    stage: RunStage::Advance(RelayEvent::Reject),
                    ..self
                })
            } else {
                mismatch
            },
            Response::AttemptRetained {
                bound,
                relay_phase,
                cleanup_complete,
                terminal_replay_available,
                primary_detail,
                secondary_failures,
            } => if bound {
                broken(
                    r,
                    "MCSEALED-WINDOWS-ATTEMPT-RETAINED: relay_phase="@ + relay_phase@
                        + " cleanup_complete="@ + flag_text(cleanup_complete)
                        + " terminal_replay_available="@ + flag_text(terminal_replay_available)
                        + " primary="@ + primary_detail@ + " secondary="@ + joined(
                        texts(secondary_failures@),
                        " | "@,
                    ),
                )
            } else {
                mismatch
            },
            Response::Other => mismatch,
        }
    }

    /// The relays' phase is asked to go on.
    pub open spec fn advancing(
        self,
        after_it: WindowsRun,
        r: Result<RunAction, Error>,
        event: RelayEvent,
    ) -> bool {
        r == Ok::<RunAction, Error>(RunAction::Advance(event)) && after_it == (WindowsRun {
            stage: RunStage::Advance(event),
            ..self
        })
    }

    fn go_advance(&mut self, event: RelayEvent) -> (r: Result<RunAction, Error>)
        ensures
            old(self).advancing(*final(self), r, event),
    {
        self.stage = RunStage::Advance(event);
        Ok(RunAction::Advance(event))
    }

    fn mismatch() -> (r: Result<RunAction, Error>)
        ensures
            broken(r, "provider response identity or phase mismatch"@),
    {
        Err(transport_error("provider response identity or phase mismatch".to_owned()))
    }

    /// Takes in a message.
    pub fn respond(&mut self, response: Response, now: Duration) -> (r: Result<RunAction, Error>)
        requires
            old(self).wf(),
            old(self).stage == RunStage::Read || old(self).stage == RunStage::ReplayRead,
        ensures
            r is Ok ==> final(self).wf(),
            old(self).responds(*final(self), r, response, now@),
    {
        match response {
            Response::ReplayPending { bound, detail, state, cleanup_complete, outbox } => {
                if !bound {
                    return Self::mismatch();
                }
                if !self.replay_consumed {
                    self.pending_detail = Some(detail);
                    self.stage = RunStage::PendingAdmit;
                    return Ok(RunAction::AdmitPending);
                }
                if self.deadline.is_none() || past(self.deadline, now) {
                    let mut text = text_or_other(&self.primary, "terminal replay pending");
                    text.append("; secondary terminal replay deadline expired at state=");
                    text.append(state.as_str());
                    text.append(" cleanup_complete=");
                    text.append(flag(cleanup_complete));
                    text.append(" outbox=");
                    text.append(outbox.as_str());
                    return Err(transport_error(text));
                }
                self.stage = RunStage::PendingSend;
                Ok(RunAction::AskAgain)
            },
            Response::TargetAuthorized(claim) => {
                if claim.does_agree(&self.binding) && !self.authorized && !self.retired {
                    self.go_advance(RelayEvent::TargetAuthorized)
                } else {
                    Self::mismatch()
                }
            },
            Response::TargetRetired(claim) => {
                if claim.does_agree(&self.binding) && self.authorized && !self.retired {
                    self.go_advance(RelayEvent::TargetRetired)
                } else {
                    Self::mismatch()
                }
            },
            Response::RelaysAbort(claim) => {
                if claim.does_agree(&self.binding) && !self.authorized && !self.retired {
                    self.go_advance(RelayEvent::RelaysAbort)
                } else {
                    Self::mismatch()
                }
            },
            Response::Terminal { claim, bounded } => {
                if !(claim.is_about(&self.binding) && ((self.authorized && self.retired)
                    || self.replay_consumed) && bounded) {
                    return Self::mismatch();
                }
                if self.replay_consumed {
                    self.stage = RunStage::Acknowledge;
                    Ok(RunAction::Acknowledge)
                } else {
                    self.go_advance(RelayEvent::Terminal)
                }
            },
            Response::Reject { claim, consistent, terminal, rejection } => {
                let own = match &terminal {
                    Some(end) => end.is_about(&claim),
                    None => true,
                };
                if !(claim.does_agree(&self.binding) && consistent && own) {
                    return Self::mismatch();
                }
                self.rejection = Some(rejection_error(rejection));
                self.stage = RunStage::Advance(RelayEvent::Reject);
                Ok(RunAction::Advance(RelayEvent::Reject))
            },
            Response::AttemptRetained {
                bound,
                relay_phase,
                cleanup_complete,
                terminal_replay_available,
                primary_detail,
                secondary_failures,
            } => {
                if !bound {
                    return Self::mismatch();
                }
                let mut text = join2(
                    "MCSEALED-WINDOWS-ATTEMPT-RETAINED: relay_phase=",
                    relay_phase.as_str(),
                );
                text.append(" cleanup_complete=");
                text.append(flag(cleanup_complete));
                text.append(" terminal_replay_available=");
                text.append(flag(terminal_replay_available));
                text.append(" primary=");
                text.append(primary_detail.as_str());
                text.append(" secondary=");
                let secondary = join_texts(&secondary_failures, " | ");
                text.append(secondary.as_str());
                Err(transport_error(text))
            },
            Response::Other => Self::mismatch(),
        }
    }

    /// Takes in whether the end, which is not ready, may be asked for again.
    pub fn pending_admitted(&mut self, admitted: bool, now: Duration) -> (r: Result<
        RunAction,
        Error,
    >)
        requires
            old(self).wf(),
            old(self).stage == RunStage::PendingAdmit,
            now@ <= u64::MAX,
        ensures
            r is Ok ==> final(self).wf(),
            if !admitted {
                broken(r, "bound terminal replay pending response was not admissible"@)
            } else if old(self).relays.retired {
                old(self).waits_pending(*final(self), r, now@)
            } else {
                r == Ok::<RunAction, Error>(RunAction::RetireRelays) && *final(self) == (
                WindowsRun {
                    replay_consumed: true,
                    stage: RunStage::PendingRetire,
                    ..*old(self)
                })
            },
    {
        if !admitted {
            return Err(
                transport_error(
                    "bound terminal replay pending response was not admissible".to_owned(),
                ),
            );
        }
        self.replay_consumed = true;
        if self.relays.retired {
            Ok(self.wait_pending(now))
        } else {
            self.stage = RunStage::PendingRetire;
            Ok(RunAction::RetireRelays)
        }
    }

    /// The end is asked for again because it was not ready.
    pub open spec fn waits_pending(
        self,
        after_it: WindowsRun,
        r: Result<RunAction, Error>,
        now: nat,
    ) -> bool {
        &&& r == Ok::<RunAction, Error>(RunAction::Reconnect)
        &&& after_it.deadline matches Some(end) && end@ == now + 30_000_000_000
        &&& after_it.primary matches Some(text) && text@
            == "typed replay pending before durable outbox: "@ + self.pending_detail->0@
        &&& after_it == (WindowsRun {
            replay_consumed: true,
            relays: Relays { retired: true },
            deadline: after_it.deadline,
            primary: after_it.primary,
            pending_detail: None,
            stage: RunStage::PendingReconnect,
            ..self
        })
    }

    fn wait_pending(&mut self, now: Duration) -> (r: RunAction)
        requires
            old(self).pending_detail is Some,
            old(self).relays.retired,
            old(self).replay_consumed,
            now@ <= u64::MAX,
        ensures
            old(self).waits_pending(*final(self), Ok(r), now@),
    {
        let detail = match self.pending_detail.take() {
            Some(detail) => detail,
            None => String::new(),
        };
        self.deadline = Some(half_minute_after(now));
        self.primary = Some(
            join2("typed replay pending before durable outbox: ", detail.as_str()),
        );
        self.stage = RunStage::PendingReconnect;
        RunAction::Reconnect
    }

    /// The relays are retired because the end was not ready, or that failed.
    pub fn pending_retired(&mut self, findings: &Vec<String>, now: Duration) -> (r: Result<
        RunAction,
        Error,
    >)
        requires
            old(self).wf(),
            old(self).stage == RunStage::PendingRetire,
            old(self).replay_consumed,
            now@ <= u64::MAX,
        ensures
            r is Ok ==> final(self).wf(),
            if findings@.len() > 0 {
                broken(r, joined(texts(findings@), "; "@))
            } else {
                old(self).waits_pending(*final(self), r, now@)
            },
    {
        match self.relays.retire(findings) {
            Err(text) => Err(transport_error(text)),
            Ok(_) => Ok(self.wait_pending(now)),
        }
    }

    /// The end was asked for once more, or that failed.
    pub fn pending_sent(&mut self, sent: Result<(), String>) -> (r: Result<RunAction, Error>)
        requires
            old(self).wf(),
            old(self).stage == RunStage::PendingSend,
        ensures
            r is Ok ==> final(self).wf(),
            match sent {
                Err(text) => broken(r, text@),
                Ok(_) => r == Ok::<RunAction, Error>(RunAction::Look) && *final(self) == (
                WindowsRun { stage: RunStage::Look, ..*old(self) }),
            },
    {
        match sent {
            Err(text) => Err(transport_error(text)),
            Ok(_) => {
                self.stage = RunStage::Look;
                Ok(RunAction::Look)
            },
        }
    }

    /// What follows once the relays' phase went on.
    pub open spec fn advances(
        self,
        after_it: WindowsRun,
        r: Result<RunAction, Error>,
        event: RelayEvent,
        ack_required: bool,
    ) -> bool {
        match event {
            RelayEvent::TargetAuthorized => r == Ok::<RunAction, Error>(self.idling()) && after_it
                == (WindowsRun { authorized: true, stage: RunStage::Idle, ..self }),
            RelayEvent::RelaysRetired => r == Ok::<RunAction, Error>(self.idling()) && after_it == (
            WindowsRun { retired: true, stage: RunStage::Idle, ..self }),
            RelayEvent::Terminal => r == Ok::<RunAction, Error>(RunAction::Acknowledge) && after_it
                == (WindowsRun { stage: RunStage::Acknowledge, ..self }),
            RelayEvent::Reject => if ack_required {
                r == Ok::<RunAction, Error>(RunAction::Acknowledge) && after_it == (WindowsRun {
                    stage: RunStage::AcknowledgeReject,
                    ..self
                })
            } else {
                r matches Err(error) && error@ == self.rejection->0@
            },
            _ => if self.relays.retired {
                r == Ok::<RunAction, Error>(RunAction::SendRelaysRetired) && after_it == (
                WindowsRun { stage: RunStage::SendRetired, ..self })
            } else {
                r == Ok::<RunAction, Error>(RunAction::RetireRelays) && after_it == (WindowsRun {
                    stage: RunStage::Retire,
                    ..self
                })
            },
        }
    }

    /// The relays' phase went on, or could not. `ack_required` tells whether the
    /// provider waits for its refusal to be acknowledged.
    pub fn advanced(&mut self, event: RelayEvent, advanced: Result<(), String>, ack_required: bool) -> (r:
        Result<RunAction, Error>)
        requires
            old(self).wf(),
            old(self).stage == RunStage::Advance(event),
        ensures
            r is Ok ==> final(self).wf(),
            match advanced {
                Err(text) => broken(r, text@),
                Ok(_) => old(self).advances(*final(self), r, event, ack_required),
            },
    {
        match advanced {
            Err(text) => {
                return Err(transport_error(text));
            },
            Ok(_) => {},
        }
        match event {
            RelayEvent::TargetAuthorized => {
                self.authorized = true;
                Ok(self.go_idle())
            },
            RelayEvent::RelaysRetired => {
                self.retired = true;
                Ok(self.go_idle())
            },
            RelayEvent::Terminal => {
                self.stage = RunStage::Acknowledge;
                Ok(RunAction::Acknowledge)
            },
            RelayEvent::Reject => {
                if ack_required {
                    self.stage = RunStage::AcknowledgeReject;
                    return Ok(RunAction::Acknowledge);
                }
                match self.rejection.take() {
                    Some(error) => Err(error),
                    None => Self::mismatch(),
                }
            },
            _ => {
                if self.relays.retired {
                    self.stage = RunStage::SendRetired;
                    Ok(RunAction::SendRelaysRetired)
                } else {
                    self.stage = RunStage::Retire;
                    Ok(RunAction::RetireRelays)
                }
            },
        }
    }

    /// The relays are retired, or that failed.
    pub fn relays_retired(&mut self, findings: &Vec<String>) -> (r: Result<RunAction, Error>)
        requires
            old(self).wf(),
            old(self).stage == RunStage::Retire,
        ensures
            r is Ok ==> final(self).wf(),
            if findings@.len() > 0 {
                broken(r, joined(texts(findings@), "; "@))
            } else {
                r == Ok::<RunAction, Error>(RunAction::SendRelaysRetired) && *final(self) == (
                WindowsRun {
                    relays: Relays { retired: true },
                    stage: RunStage::SendRetired,
                    ..*old(self)
                })
            },
    {
        match self.relays.retire(findings) {
            Err(text) => Err(transport_error(text)),
            Ok(_) => {
                self.stage = RunStage::SendRetired;
                Ok(RunAction::SendRelaysRetired)
            },
        }
    }

    /// The provider was told that the relays are retired, or that failed.
    pub fn retired_sent(&mut self, sent: Result<(), String>) -> (r: Result<RunAction, Error>)
        requires
            old(self).wf(),
            old(self).stage == RunStage::SendRetired,
        ensures
            r is Ok ==> final(self).wf(),
            match sent {
                Err(text) => broken(r, text@),
                Ok(_) => old(self).advancing(*final(self), r, RelayEvent::RelaysRetired),
            },
    {
        match sent {
            Err(text) => Err(transport_error(text)),
            Ok(_) => self.go_advance(RelayEvent::RelaysRetired),
        }
    }

    /// The end, or the refusal, was acknowledged, or that failed. A refusal is what the
    /// run comes to either way.
    pub fn acknowledged(&mut self, acknowledged: Result<(), String>) -> (r: Result<
        RunAction,
        Error,
    >)
        requires
            old(self).wf(),
            old(self).stage == RunStage::Acknowledge || old(self).stage
                == RunStage::AcknowledgeReject,
        ensures
            r is Ok ==> final(self).wf(),
            if old(self).stage == RunStage::Acknowledge {
                match acknowledged {
                    Err(text) => broken(r, text@),
                    Ok(_) => r == Ok::<RunAction, Error>(RunAction::Finish) && *final(self) == (
                    WindowsRun { stage: RunStage::Over, ..*old(self) }),
                }
            } else {
                r matches Err(error) && error@ == match acknowledged {
                    Ok(_) => old(self).rejection->0@,
                    Err(text) => ErrorView {
                        message: old(self).rejection->0@.message
                            + "; secondary terminal acknowledgment failure: "@ + text@,
                        ..old(self).rejection->0@
                    },
                }
            },
    {
        let ends = match self.stage {
            RunStage::Acknowledge => true,
            _ => false,
        };
        if ends {
            return match acknowledged {
                Err(text) => Err(transport_error(text)),
                Ok(_) => {
                    self.stage = RunStage::Over;
                    Ok(RunAction::Finish)
                },
            };
        }
        let mut primary = match self.rejection.take() {
            Some(error) => error,
            None => {
                return Self::mismatch();
            },
        };
        match acknowledged {
            Ok(_) => {},
            Err(text) => {
                primary.message = join3(
                    primary.message.as_str(),
                    "; secondary terminal acknowledgment failure: ",
                    text.as_str(),
                );
            },
        }
        Err(primary)
    }

    /// Takes in whether a signal came. The provider is told of one signal only.
    pub fn idled(&mut self, signal: Result<Option<i32>, String>) -> (r: Result<RunAction, Error>)
        requires
            old(self).wf(),
            old(self).stage == RunStage::Idle,
        ensures
            r is Ok ==> final(self).wf(),
            if old(self).cancel_sent {
                r == Ok::<RunAction, Error>(RunAction::Look) && *final(self) == (WindowsRun {
                    stage: RunStage::Look,
                    ..*old(self)
                })
            } else {
                match signal {
                    Err(text) => broken(r, text@),
                    Ok(None) => r == Ok::<RunAction, Error>(RunAction::Look) && *final(self) == (
                    WindowsRun { stage: RunStage::Look, ..*old(self) }),
                    Ok(Some(number)) => r == Ok::<RunAction, Error>(RunAction::SendCancel(number))
                        && *final(self) == (WindowsRun { stage: RunStage::Cancel, ..*old(self) }),
                }
            },
    {
        if self.cancel_sent {
            self.stage = RunStage::Look;
            return Ok(RunAction::Look);
        }
        match signal {
            Err(text) => Err(transport_error(text)),
            Ok(None) => {
                self.stage = RunStage::Look;
                Ok(RunAction::Look)
            },
            Ok(Some(number)) => {
                self.stage = RunStage::Cancel;
                Ok(RunAction::SendCancel(number))
            },
        }
    }

    /// The provider was told of the signal, or that failed.
    pub fn cancelled(&mut self, sent: Result<(), String>) -> (r: Result<RunAction, Error>)
        requires
            old(self).wf(),
            old(self).stage == RunStage::Cancel,
        ensures
            r is Ok ==> final(self).wf(),
            match sent {
                Err(text) => broken(r, text@),
                Ok(_) => r == Ok::<RunAction, Error>(RunAction::Look) && *final(self) == (
                WindowsRun { cancel_sent: true, stage: RunStage::Look, ..*old(self) }),
            },
    {
        match sent {
            Err(text) => Err(transport_error(text)),
            Ok(_) => {
                self.cancel_sent = true;
                self.stage = RunStage::Look;
                Ok(RunAction::Look)
            },
        }
    }
}

/// How a fact is shown.
pub open spec fn flag_text(value: bool) -> Seq<char> {
    if value {
        "true"@
    } else {
        "false"@
    }
}

fn flag(value: bool) -> (r: &'static str)
    ensures
        r@ == flag_text(value),
{
    if value {
        "true"
    } else {
        "false"
    }
}

/// A run that is asked to go on after the loss of the pipe, or because its end was not
/// ready, has no other chance of the kind: it is asked only where it had none yet.
pub proof fn the_end_is_asked_for_again_once(
    run: WindowsRun,
    after_it: WindowsRun,
    r: Result<RunAction, Error>,
    response: Response,
    now: nat,
)
    requires
        run.wf(),
        run.responds(after_it, r, response, now),
        r == Ok::<RunAction, Error>(RunAction::AdmitPending),
    ensures
        !run.replay_consumed,
{
}

/// No end counts before the target was authorized and retired, unless it was asked for
/// again; and none that is about another attempt counts at all.
pub proof fn ends_are_bound(
    run: WindowsRun,
    after_it: WindowsRun,
    r: Result<RunAction, Error>,
    claim: Claim,
    bounded: bool,
    now: nat,
)
    requires
        run.wf(),
        run.responds(after_it, r, Response::Terminal { claim, bounded }, now),
    ensures
        r is Ok ==> claim.about(run.binding) && bounded && (run.replay_consumed || (run.authorized
            && run.retired)),
{
}

/// What a provider answers to the acknowledgment of an end.
#[derive(Debug)]
pub enum AckAnswer {
    TerminalRetired { bound: bool },
    AttemptRetained { bound: bool, primary_detail: String, secondary_failures: Vec<String> },
    Other,
}

/// Decides whether an end counts as acknowledged.
pub fn acknowledge_terminal_retirement(answer: AckAnswer) -> (r: Result<(), String>)
    ensures
        match answer {
            AckAnswer::TerminalRetired { bound: true } => r is Ok,
            AckAnswer::AttemptRetained { bound: true, primary_detail, secondary_failures } =>
                r matches Err(text) && text@
                == "terminal ACK retained attempt authority: primary="@ + primary_detail@
                + " secondary="@ + joined(texts(secondary_failures@), " | "@),
            _ => r matches Err(text) && text@
                == "provider did not confirm exact terminal retirement"@,
        },
{
    match answer {
        AckAnswer::TerminalRetired { bound } => {
            if bound {
                return Ok(());
            }
        },
        AckAnswer::AttemptRetained { bound, primary_detail, secondary_failures } => {
            if bound {
                let mut text = join3(
                    "terminal ACK retained attempt authority: primary=",
                    primary_detail.as_str(),
                    " secondary=",
                );
                let secondary = join_texts(&secondary_failures, " | ");
                text.append(secondary.as_str());
                return Err(text);
            }
        },
        AckAnswer::Other => {},
    }
    Err("provider did not confirm exact terminal retirement".to_owned())
}

/// How a run ended, as the provider tells it.
#[derive(Debug)]
pub struct WindowsTerminal {
    pub schema_version: u32,
    pub outcome: RunOutcome,
    pub child_pid: Option<u32>,
    pub duration_millis: u64,
    pub authorization_offset_millis: u64,
    pub restart_safety: RestartSafetyProof,
    pub boundary_detail: BoundaryMechanismEvidence,
}

/// The evidence of a launch within a sealed boundary.
pub open spec fn windows_launch() -> LaunchView {
    LaunchView {
        mechanism: WINDOWS_MECHANISM@,
        target_released: true,
        containment_verified_before_authorization: true,
        guardian_started_before_authorization: true,
        target_spawn_error_reported: true,
        boundary_requested: BoundaryRequirement::Sealed,
        boundary_effective: BoundaryClass::Sealed,
        boundary_assignment_verified: true,
        boundary_reconfiguration_denied: true,
        inherited_resources_restricted: true,
        frontend_loss_cleanup_authority_verified: true,
    }
}

/// The attempt that a run's end tells of. `safe` is whether what was given back is
/// enough for a restart within a sealed boundary, `consistent` whether the evidence does
/// not contradict itself.
pub fn run(terminal: WindowsTerminal, backend: BackendInfo, safe: bool, consistent: bool) -> (r:
    Result<Execution, Error>)
    ensures
        if terminal.schema_version != 1 || !safe {
            r matches Err(error) && error@ == bare_error(
                ErrorCategory::Monitor,
                "MCSEALED-WINDOWS-TERMINAL-EVIDENCE",
                "provider terminal receipt is incomplete or restart-unsafe"@,
            )
        } else if !consistent {
            r matches Err(error) && error@ == bare_error(
                ErrorCategory::Monitor,
                "MCSEALED-WINDOWS-EVIDENCE",
                "provider returned contradictory native Windows evidence"@,
            )
        } else {
            &&& r is Ok
            &&& r->Ok_0.policy_enforcement is None
            &&& r->Ok_0.outcome == terminal.outcome
            &&& r->Ok_0.backend == backend
            &&& r->Ok_0.child_pid == terminal.child_pid
            &&& r->Ok_0.duration@ == terminal.duration_millis * 1_000_000
            &&& r->Ok_0.authorization_offset matches Some(offset) && offset@
                == terminal.authorization_offset_millis * 1_000_000
            &&& r->Ok_0.launch@ == windows_launch()
            &&& r->Ok_0.restart_safety == terminal.restart_safety
            &&& r->Ok_0.boundary_detail == terminal.boundary_detail
            &&& r->Ok_0.runtime is None
        },
{
    if terminal.schema_version != 1 || !safe {
        return Err(
            Error::fixed(
                ErrorCategory::Monitor,
                "MCSEALED-WINDOWS-TERMINAL-EVIDENCE",
                "provider terminal receipt is incomplete or restart-unsafe",
            ),
        );
    }
    if !consistent {
        return Err(
            Error::fixed(
                ErrorCategory::Monitor,
                "MCSEALED-WINDOWS-EVIDENCE",
                "provider returned contradictory native Windows evidence",
            ),
        );
    }
    Ok(
        Execution {
            policy_enforcement: None,
            outcome: terminal.outcome,
            backend,
            child_pid: terminal.child_pid,
            duration: Duration::from_millis(terminal.duration_millis),
            authorization_offset: Some(
                Duration::from_millis(terminal.authorization_offset_millis),
            ),
            launch: LaunchEvidence {
                mechanism: WINDOWS_MECHANISM.to_owned(),
                target_released: true,
                containment_verified_before_authorization: true,
                guardian_started_before_authorization: true,
                target_spawn_error_reported: true,
                boundary_requested: BoundaryRequirement::Sealed,
                boundary_effective: BoundaryClass::Sealed,
                boundary_assignment_verified: true,
                boundary_reconfiguration_denied: true,
                inherited_resources_restricted: true,
                frontend_loss_cleanup_authority_verified: true,
            },
            restart_safety: terminal.restart_safety,
            boundary_detail: terminal.boundary_detail,
            runtime: None,
        },
    )
}

/// The error of a run whose provider did not qualify.
pub fn unqualified(detail: &str) -> (r: Error)
    ensures
        r@ == bare_error(
            ErrorCategory::Setup,
            "MCSEALED-WINDOWS-QUALIFICATION",
            missing_provider(detail@),
        ),
{
    Error::new(
        ErrorCategory::Setup,
        "MCSEALED-WINDOWS-QUALIFICATION",
        missing_provider_message(detail),
    )
}

} // verus!
