//! Supervising attempts: which backend serves, what a failed attempt comes to,
//! when the supervision's deadline cuts in, and whether another attempt follows.

use vstd::prelude::*;
use vstd::string::*;

use crate::backend::{
    literal_texts, owned_texts, BackendInfo, BoundaryCapability, BoundaryQualification,
    CapabilityView, Platform, QualificationView, SealedAvailability, SealedView,
};
use crate::evidence::{
    bare_error, duplicate_texts, nothing_proved, opt_text, BoundarySetupFailure, BoundarySetupPhase,
    DeadlineEvidence, Error, ErrorCategory, ErrorView, OutcomeView, RestartSafetyProof, RunOutcome,
    SetupFailureView,
};
use crate::model::texts;
use crate::policy::{BoundaryClass, BoundaryRequirement, DeadlineScope, Metric, Policy};
use crate::text::{join2, same_text};
use crate::time::{capped_millis, floor_sub, Duration};

verus! {

/// The mechanism by which a platform starts a target.
pub open spec fn mechanism_of(platform: Platform) -> &'static str {
    match platform {
        Platform::Linux => "installed-cli-launcher-release-gate",
        Platform::MacOs => "process-group-pre-spawn",
        Platform::Windows => "suspended-process-job-assignment",
        Platform::OtherUnix => "unsupported-unix",
        Platform::Other => "unsupported-platform",
    }
}

/// The mechanism by which a platform starts a target.
pub fn launch_mechanism(platform: Platform) -> (r: &'static str)
    ensures
        r == mechanism_of(platform),
{
    match platform {
        Platform::Linux => "installed-cli-launcher-release-gate",
        Platform::MacOs => "process-group-pre-spawn",
        Platform::Windows => "suspended-process-job-assignment",
        Platform::OtherUnix => "unsupported-unix",
        Platform::Other => "unsupported-platform",
    }
}

/// From what moment a platform counts a deadline.
pub open spec fn origin_of(platform: Platform) -> &'static str {
    match platform {
        Platform::Linux => "installed-cli-release-byte",
        Platform::MacOs => "pre-spawn",
        Platform::Windows => "suspended-thread-resume",
        Platform::OtherUnix => "unsupported",
        Platform::Other => "unsupported",
    }
}

/// From what moment a platform counts a deadline.
pub fn deadline_origin(platform: Platform) -> (r: &'static str)
    ensures
        r == origin_of(platform),
{
    match platform {
        Platform::Linux => "installed-cli-release-byte",
        Platform::MacOs => "pre-spawn",
        Platform::Windows => "suspended-thread-resume",
        Platform::OtherUnix => "unsupported",
        Platform::Other => "unsupported",
    }
}

/// Whether a capability is there, and if not, why.
#[derive(Debug)]
pub struct CapabilityStatusReport {
    pub supported: bool,
    pub reason: Option<String>,
}

/// The facts of a capability's status.
pub struct StatusView {
    pub supported: bool,
    pub reason: Option<Seq<char>>,
}

impl View for CapabilityStatusReport {
    type V = StatusView;

    open spec fn view(&self) -> StatusView {
        StatusView { supported: self.supported, reason: opt_text(self.reason) }
    }
}

/// How a backend limits memory.
#[derive(Debug)]
pub struct MemoryCapabilityReport {
    pub supported: bool,
    pub class: String,
    pub metric: String,
    pub reason: Option<String>,
}

/// The facts of how a backend limits memory.
pub struct MemoryView {
    pub supported: bool,
    pub class: Seq<char>,
    pub metric: Seq<char>,
    pub reason: Option<Seq<char>>,
}

impl View for MemoryCapabilityReport {
    type V = MemoryView;

    open spec fn view(&self) -> MemoryView {
        MemoryView {
            supported: self.supported,
            class: self.class@,
            metric: self.metric@,
            reason: opt_text(self.reason),
        }
    }
}

/// Why a sealed boundary is not to be had.
#[derive(Debug)]
pub struct SealedUnavailableReport {
    pub reason: String,
    pub prerequisites: Vec<String>,
}

/// After which outcomes a backend can restart.
#[derive(Clone, Copy, Debug, PartialEq, Eq, Structural)]
pub enum RestartConditions {
    Both,
    Neither,
}

/// What a backend can do, as reported.
#[derive(Debug)]
pub struct BackendCapabilityReport {
    pub name: String,
    pub containment: CapabilityStatusReport,
    pub boundary: BoundaryCapability,
    pub memory: Option<MemoryCapabilityReport>,
    pub deadline: CapabilityStatusReport,
    pub restart: CapabilityStatusReport,
    pub deadline_scopes: Vec<DeadlineScope>,
    pub deadline_origin: Option<String>,
    pub restart_conditions: RestartConditions,
    pub persistent_restart_state: bool,
    pub startup_containment: String,
    pub restart_cleanup_condition: String,
    pub limitations: Vec<String>,
    pub boundary_qualification: Option<BoundaryQualification>,
    pub sealed_unavailable: Option<SealedUnavailableReport>,
}

/// The facts of a report.
pub struct ReportView {
    pub name: Seq<char>,
    pub containment: StatusView,
    pub boundary: CapabilityView,
    pub memory: Option<MemoryView>,
    pub deadline: StatusView,
    pub restart: StatusView,
    pub deadline_scopes: Seq<DeadlineScope>,
    pub deadline_origin: Option<Seq<char>>,
    pub restart_conditions: RestartConditions,
    pub persistent_restart_state: bool,
    pub startup_containment: Seq<char>,
    pub restart_cleanup_condition: Seq<char>,
    pub limitations: Seq<Seq<char>>,
    pub boundary_qualification: Option<QualificationView>,
    pub sealed_unavailable: Option<(Seq<char>, Seq<Seq<char>>)>,
}

impl View for BackendCapabilityReport {
    type V = ReportView;

    open spec fn view(&self) -> ReportView {
        ReportView {
            name: self.name@,
            containment: self.containment@,
            boundary: self.boundary@,
            memory: match self.memory {
                Some(memory) => Some(memory@),
                None => None,
            },
            deadline: self.deadline@,
            restart: self.restart@,
            deadline_scopes: self.deadline_scopes@,
            deadline_origin: opt_text(self.deadline_origin),
            restart_conditions: self.restart_conditions,
            persistent_restart_state: self.persistent_restart_state,
            startup_containment: self.startup_containment@,
            restart_cleanup_condition: self.restart_cleanup_condition@,
            limitations: texts(self.limitations@),
            boundary_qualification: match self.boundary_qualification {
                Some(qualification) => Some(qualification@),
                None => None,
            },
            sealed_unavailable: match self.sealed_unavailable {
                Some(report) => Some((report.reason@, texts(report.prerequisites@))),
                None => None,
            },
        }
    }
}

/// The limitations of a boundary that is not to be had: the reason, then each
/// prerequisite.
pub open spec fn unavailable_limitations(reason: Seq<char>, prerequisites: Seq<Seq<char>>) -> Seq<
    Seq<char>,
> {
    seq![reason] + Seq::new(prerequisites.len(), |i: int| "prerequisite: "@ + prerequisites[i])
}

/// The boundary that a request gets from a backend.
pub open spec fn boundary_for(info: BackendInfo, requirement: BoundaryRequirement) -> CapabilityView {
    match requirement {
        BoundaryRequirement::Standard => info.boundary_support.standard@,
        BoundaryRequirement::Sealed => match info.boundary_support.sealed@ {
            SealedView::Available { capability, .. } => capability,
            SealedView::Unavailable { reason, prerequisites } => CapabilityView {
                class: BoundaryClass::Unavailable,
                mechanism: "sealed-provider-unavailable"@,
                target_gated: false,
                boundary_verified_before_authorization: false,
                target_can_reconfigure_boundary: false,
                frontend_loss_cleanup_authority: false,
                workload_empty_proof: false,
                limitations: unavailable_limitations(reason, prerequisites),
            },
        },
    }
}

/// What a backend can do for a request.
pub open spec fn report_for(
    platform: Platform,
    info: BackendInfo,
    requirement: BoundaryRequirement,
) -> ReportView {
    ReportView {
        name: info.name@,
        containment: StatusView { supported: info.containment_supported, reason: None },
        boundary: boundary_for(info, requirement),
        memory: Some(
            MemoryView {
                supported: info.memory_supported,
                class: info.class@,
                metric: info.metric@,
                reason: None,
            },
        ),
        deadline: StatusView { supported: true, reason: None },
        restart: StatusView { supported: true, reason: None },
        deadline_scopes: seq![DeadlineScope::Attempt, DeadlineScope::Supervision],
        deadline_origin: Some(origin_of(platform)@),
        restart_conditions: RestartConditions::Both,
        persistent_restart_state: false,
        startup_containment: info.startup_containment@,
        restart_cleanup_condition:
            "direct child and helpers reaped, workload empty, containment removed or inert"@,
        limitations: literal_texts(info.limitations@),
        boundary_qualification: match info.boundary_support.sealed@ {
            SealedView::Available { qualification, .. } => Some(qualification),
            SealedView::Unavailable { .. } => None,
        },
        sealed_unavailable: match info.boundary_support.sealed@ {
            SealedView::Available { .. } => None,
            SealedView::Unavailable { reason, prerequisites } => Some((reason, prerequisites)),
        },
    }
}

/// What a backend can do within a standard boundary.
pub fn capabilities(platform: Platform, info: &BackendInfo) -> (r: BackendCapabilityReport)
    ensures
        r@ == report_for(platform, *info, BoundaryRequirement::Standard),
{
    capabilities_for(platform, info, BoundaryRequirement::Standard)
}

fn prerequisite_lines(reason: &String, prerequisites: &Vec<String>) -> (r: Vec<String>)
    ensures
        texts(r@) == unavailable_limitations(reason@, texts(prerequisites@)),
{
    let mut out: Vec<String> = Vec::new();
    out.push(reason.clone());
    let mut i: usize = 0;
    while i < prerequisites.len()
        invariant
            i <= prerequisites.len(),
            out.len() == i + 1,
            out[0]@ == reason@,
            forall|k: int|
                0 < k < i + 1 ==> (#[trigger] out[k])@ == "prerequisite: "@ + prerequisites[k
                    - 1]@,
        decreases prerequisites.len() - i,
    {
        out.push(join2("prerequisite: ", prerequisites[i].as_str()));
        i += 1;
    }
    assert(texts(out@) =~= unavailable_limitations(reason@, texts(prerequisites@)));
    out
}

fn status(supported: bool) -> (r: CapabilityStatusReport)
    ensures
        r@ == (StatusView { supported, reason: None }),
{
    CapabilityStatusReport { supported, reason: None }
}

/// What a backend can do for a request.
pub fn capabilities_for(
    platform: Platform,
    info: &BackendInfo,
    requirement: BoundaryRequirement,
) -> (r: BackendCapabilityReport)
    ensures
        r@ == report_for(platform, *info, requirement),
{
    let (boundary_qualification, sealed_unavailable) = match &info.boundary_support.sealed {
        SealedAvailability::Available { qualification, .. } => (
            Some(qualification.duplicate()),
            None,
        ),
        SealedAvailability::Unavailable { reason, prerequisites } => (
            None,
            Some(
                SealedUnavailableReport {
                    reason: reason.clone(),
                    prerequisites: duplicate_texts(prerequisites),
                },
            ),
        ),
    };
    let boundary = match requirement {
        BoundaryRequirement::Standard => info.boundary_support.standard.duplicate(),
        BoundaryRequirement::Sealed => match &info.boundary_support.sealed {
            SealedAvailability::Available { capability, .. } => capability.duplicate(),
            SealedAvailability::Unavailable { reason, prerequisites } => BoundaryCapability {
                class: BoundaryClass::Unavailable,
                mechanism: "sealed-provider-unavailable".to_owned(),
                target_gated: false,
                boundary_verified_before_authorization: false,
                target_can_reconfigure_boundary: false,
                frontend_loss_cleanup_authority: false,
                workload_empty_proof: false,
                limitations: prerequisite_lines(reason, prerequisites),
            },
        },
    };
    let mut deadline_scopes: Vec<DeadlineScope> = Vec::new();
    deadline_scopes.push(DeadlineScope::Attempt);
    deadline_scopes.push(DeadlineScope::Supervision);
    assert(deadline_scopes@ =~= seq![DeadlineScope::Attempt, DeadlineScope::Supervision]);
    BackendCapabilityReport {
        name: info.name.to_owned(),
        containment: status(info.containment_supported),
        boundary,
        memory: Some(
            MemoryCapabilityReport {
                supported: info.memory_supported,
                class: info.class.to_owned(),
                metric: info.metric.to_owned(),
                reason: None,
            },
        ),
        deadline: status(true),
        restart: status(true),
        deadline_scopes,
        deadline_origin: Some(deadline_origin(platform).to_owned()),
        restart_conditions: RestartConditions::Both,
        persistent_restart_state: false,
        startup_containment: info.startup_containment.to_owned(),
        restart_cleanup_condition:
            "direct child and helpers reaped, workload empty, containment removed or inert".to_owned(),
        limitations: owned_texts(info.limitations.as_slice()),
        boundary_qualification,
        sealed_unavailable,
    }
}

/// A report that is made while no backend is known.
pub open spec fn unresolved_report() -> ReportView {
    ReportView {
        name: "unresolved"@,
        containment: StatusView {
            supported: false,
            reason: Some("attempt setup failed before backend selection"@),
        },
        boundary: CapabilityView {
            class: BoundaryClass::Unavailable,
            mechanism: "unavailable"@,
            target_gated: false,
            boundary_verified_before_authorization: false,
            target_can_reconfigure_boundary: false,
            frontend_loss_cleanup_authority: false,
            workload_empty_proof: false,
            limitations: seq!["certified sealed supervision is unavailable"@],
        },
        memory: None,
        deadline: StatusView { supported: false, reason: None },
        restart: StatusView { supported: false, reason: None },
        deadline_scopes: Seq::empty(),
        deadline_origin: None,
        restart_conditions: RestartConditions::Neither,
        persistent_restart_state: false,
        startup_containment: Seq::empty(),
        restart_cleanup_condition: Seq::empty(),
        limitations: Seq::empty(),
        boundary_qualification: None,
        sealed_unavailable: None,
    }
}

/// A report that is made while no backend is known.
pub fn unsupported_capability() -> (r: BackendCapabilityReport)
    ensures
        r@ == unresolved_report(),
{
    let mut limits: Vec<String> = Vec::new();
    limits.push("certified sealed supervision is unavailable".to_owned());
    assert(texts(limits@) =~= seq!["certified sealed supervision is unavailable"@]);
    let limitations: Vec<String> = Vec::new();
    assert(texts(limitations@) =~= Seq::empty());
    let deadline_scopes: Vec<DeadlineScope> = Vec::new();
    BackendCapabilityReport {
        name: "unresolved".to_owned(),
        containment: CapabilityStatusReport {
            supported: false,
            reason: Some("attempt setup failed before backend selection".to_owned()),
        },
        boundary: BoundaryCapability {
            class: BoundaryClass::Unavailable,
            mechanism: "unavailable".to_owned(),
            target_gated: false,
            boundary_verified_before_authorization: false,
            target_can_reconfigure_boundary: false,
            frontend_loss_cleanup_authority: false,
            workload_empty_proof: false,
            limitations: limits,
        },
        memory: None,
        deadline: status(false),
        restart: status(false),
        deadline_scopes,
        deadline_origin: None,
        restart_conditions: RestartConditions::Neither,
        persistent_restart_state: false,
        startup_containment: String::new(),
        restart_cleanup_condition: String::new(),
        limitations,
        boundary_qualification: None,
        sealed_unavailable: None,
    }
}

fn same_texts(a: &Vec<String>, b: &Vec<String>) -> (r: bool)
    ensures
        r == (texts(a@) == texts(b@)),
{
    if a.len() != b.len() {
        assert(texts(a@).len() != texts(b@).len());
        return false;
    }
    let mut i: usize = 0;
    while i < a.len()
        invariant
            i <= a.len(),
            a.len() == b.len(),
            forall|k: int| 0 <= k < i ==> (#[trigger] a[k])@ == b[k]@,
        decreases a.len() - i,
    {
        if a[i] != b[i] {
            assert(texts(a@)[i as int] != texts(b@)[i as int]);
            return false;
        }
        i += 1;
    }
    assert(texts(a@) =~= texts(b@));
    true
}

fn same_opt_text(a: &Option<String>, b: &Option<String>) -> (r: bool)
    ensures
        r == (opt_text(*a) == opt_text(*b)),
{
    match (a, b) {
        (Some(x), Some(y)) => *x == *y,
        (None, None) => true,
        _ => false,
    }
}

fn same_status(a: &CapabilityStatusReport, b: &CapabilityStatusReport) -> (r: bool)
    ensures
        r == (a@ == b@),
{
    a.supported == b.supported && same_opt_text(&a.reason, &b.reason)
}

fn same_capability(a: &BoundaryCapability, b: &BoundaryCapability) -> (r: bool)
    ensures
        r == (a@ == b@),
{
    a.class == b.class && a.mechanism == b.mechanism && a.target_gated == b.target_gated
        && a.boundary_verified_before_authorization == b.boundary_verified_before_authorization
        && a.target_can_reconfigure_boundary == b.target_can_reconfigure_boundary
        && a.frontend_loss_cleanup_authority == b.frontend_loss_cleanup_authority
        && a.workload_empty_proof == b.workload_empty_proof && same_texts(
        &a.limitations,
        &b.limitations,
    )
}

fn same_qualification(a: &Option<BoundaryQualification>, b: &Option<BoundaryQualification>) -> (r:
    bool)
    ensures
        r == match (a, b) {
            (Some(x), Some(y)) => x@ == y@,
            (None, None) => true,
            _ => false,
        },
{
    match (a, b) {
        (Some(x), Some(y)) => x.provider_identity == y.provider_identity && x.receipt_digest
            == y.receipt_digest && x.mechanism == y.mechanism,
        (None, None) => true,
        _ => false,
    }
}

fn same_unavailable(a: &Option<SealedUnavailableReport>, b: &Option<SealedUnavailableReport>) -> (r:
    bool)
    ensures
        r == match (a, b) {
            (Some(x), Some(y)) => x.reason@ == y.reason@ && texts(x.prerequisites@) == texts(
                y.prerequisites@,
            ),
            (None, None) => true,
            _ => false,
        },
{
    match (a, b) {
        (Some(x), Some(y)) => x.reason == y.reason && same_texts(
            &x.prerequisites,
            &y.prerequisites,
        ),
        (None, None) => true,
        _ => false,
    }
}

fn same_scopes(a: &Vec<DeadlineScope>, b: &Vec<DeadlineScope>) -> (r: bool)
    ensures
        r == (a@ == b@),
{
    if a.len() != b.len() {
        return false;
    }
    let mut i: usize = 0;
    while i < a.len()
        invariant
            i <= a.len(),
            a.len() == b.len(),
            forall|k: int| 0 <= k < i ==> a[k] == b[k],
        decreases a.len() - i,
    {
        if a[i] != b[i] {
            return false;
        }
        i += 1;
    }
    assert(a@ =~= b@);
    true
}

/// What a sampled metric is called.
pub open spec fn metric_named(metric: Metric) -> &'static str {
    match metric {
        Metric::Native => "physical-footprint-sum",
        Metric::PhysicalFootprint => "physical-footprint-sum",
        Metric::Rss => "rss-sum",
        Metric::Virtual => "virtual-size-sum",
    }
}

/// What a sampled metric is called.
pub fn watchdog_metric(metric: Metric) -> (r: &'static str)
    ensures
        r == metric_named(metric),
{
    match metric {
        Metric::Native => "physical-footprint-sum",
        Metric::PhysicalFootprint => "physical-footprint-sum",
        Metric::Rss => "rss-sum",
        Metric::Virtual => "virtual-size-sum",
    }
}

/// The memory report to expect at run time: a watchdog measures what the policy
/// asks for.
pub open spec fn expected_memory(selected: Option<MemoryView>, metric: Metric) -> Option<
    MemoryView,
> {
    match selected {
        Some(memory) => if metric != Metric::Native && memory.class == "watchdog"@ {
            Some(MemoryView { metric: metric_named(metric)@, ..memory })
        } else {
            Some(memory)
        },
        None => None,
    }
}

/// Whether the backend that served is the one that was resolved.
pub open spec fn selection_matches(
    selected: ReportView,
    observed: ReportView,
    metric: Metric,
) -> bool {
    (ReportView { memory: expected_memory(selected.memory, metric), ..selected }) == observed
}

fn memory_matches(
    selected: &Option<MemoryCapabilityReport>,
    observed: &Option<MemoryCapabilityReport>,
    metric: Metric,
) -> (r: bool)
    ensures
        r == (expected_memory(
            match *selected {
                Some(memory) => Some(memory@),
                None => None,
            },
            metric,
        ) == match *observed {
            Some(memory) => Some(memory@),
            None => None,
        }),
{
    match (selected, observed) {
        (Some(x), Some(y)) => {
            let rewritten = metric != Metric::Native && same_text(x.class.as_str(), "watchdog");
            let metric_same = if rewritten {
                same_text(watchdog_metric(metric), y.metric.as_str())
            } else {
                x.metric == y.metric
            };
            x.supported == y.supported && x.class == y.class && metric_same && same_opt_text(
                &x.reason,
                &y.reason,
            )
        },
        (None, None) => true,
        _ => false,
    }
}

/// Whether the backend that served is the one that was resolved.
pub fn backend_selection_matches(
    selected: &BackendCapabilityReport,
    observed: &BackendCapabilityReport,
    metric: Metric,
) -> (r: bool)
    ensures
        r == selection_matches(selected@, observed@, metric),
{
    selected.name == observed.name && same_status(&selected.containment, &observed.containment)
        && same_capability(&selected.boundary, &observed.boundary) && memory_matches(
        &selected.memory,
        &observed.memory,
        metric,
    ) && same_status(&selected.deadline, &observed.deadline) && same_status(
        &selected.restart,
        &observed.restart,
    ) && same_scopes(&selected.deadline_scopes, &observed.deadline_scopes) && same_opt_text(
        &selected.deadline_origin,
        &observed.deadline_origin,
    ) && selected.restart_conditions == observed.restart_conditions
        && selected.persistent_restart_state == observed.persistent_restart_state
        && selected.startup_containment == observed.startup_containment
        && selected.restart_cleanup_condition == observed.restart_cleanup_condition && same_texts(
        &selected.limitations,
        &observed.limitations,
    ) && same_qualification(&selected.boundary_qualification, &observed.boundary_qualification)
        && same_unavailable(&selected.sealed_unavailable, &observed.sealed_unavailable)
}

/// A report matches itself for a native metric.
pub proof fn selection_matches_itself(report: ReportView)
    ensures
        selection_matches(report, report, Metric::Native),
{
}

/// The class that a resolved backend must have.
pub open spec fn class_for(requirement: BoundaryRequirement) -> BoundaryClass {
    match requirement {
        BoundaryRequirement::Standard => BoundaryClass::Standard,
        BoundaryRequirement::Sealed => BoundaryClass::Sealed,
    }
}

/// The error of a sealed request whose backend was never resolved: nothing was
/// created, so nothing is claimed to have been given back.
pub open spec fn unresolved_sealed_error() -> ErrorView {
    ErrorView {
        restart_safety: Some(nothing_proved()),
        boundary_setup_failure: Some(
            SetupFailureView {
                requested: BoundaryRequirement::Sealed,
                mechanism: None,
                phase: BoundarySetupPhase::ProviderConnection,
                target_created: false,
                target_released: false,
                cleanup_attempted: false,
                restart_safety: nothing_proved(),
            },
        ),
        ..bare_error(
            ErrorCategory::Unsupported,
            "MCBOUNDARY-UNSUPPORTED",
            "certified sealed supervision was not resolved before launch; the target was not authorized"@,
        )
    }
}

/// The error of a sealed request that no provider stands behind.
pub fn unresolved_sealed() -> (r: Error)
    ensures
        r@ == unresolved_sealed_error(),
{
    let mut error = Error::fixed(
        ErrorCategory::Unsupported,
        "MCBOUNDARY-UNSUPPORTED",
        "certified sealed supervision was not resolved before launch; the target was not authorized",
    );
    error.restart_safety = Some(RestartSafetyProof::default());
    error.boundary_setup_failure = Some(
        BoundarySetupFailure {
            requested: BoundaryRequirement::Sealed,
            mechanism: None,
            phase: BoundarySetupPhase::ProviderConnection,
            target_created: false,
            target_released: false,
            cleanup_attempted: false,
            restart_safety: RestartSafetyProof::default(),
        },
    );
    error
}

/// Checks the backend that was resolved for a request before anything starts. A
/// sealed request without one is refused.
pub fn validate_resolved_backend(
    policy: &Policy,
    resolved: &Option<BackendCapabilityReport>,
) -> (r: Result<(), Error>)
    ensures
        match (*resolved, r) {
            (None, Ok(_)) => policy.boundary == BoundaryRequirement::Standard,
            (None, Err(error)) => policy.boundary == BoundaryRequirement::Sealed && error@
                == unresolved_sealed_error(),
            (Some(backend), Ok(_)) => backend.name@.len() > 0 && backend.boundary.class
                == class_for(policy.boundary),
            (Some(backend), Err(error)) => (backend.name@.len() == 0 || backend.boundary.class
                != class_for(policy.boundary)) && error@ == bare_error(
                ErrorCategory::Setup,
                "MCBACKEND-SELECTION-MISMATCH",
                "resolved backend does not satisfy the requested boundary"@,
            ),
        },
{
    match resolved {
        None => {
            if policy.boundary != BoundaryRequirement::Sealed {
                return Ok(());
            }
            Err(unresolved_sealed())
        },
        Some(backend) => {
            let expected = match policy.boundary {
                BoundaryRequirement::Standard => BoundaryClass::Standard,
                BoundaryRequirement::Sealed => BoundaryClass::Sealed,
            };
            if backend.name.as_str().is_empty() || backend.boundary.class != expected {
                return Err(
                    Error::fixed(
                        ErrorCategory::Setup,
                        "MCBACKEND-SELECTION-MISMATCH",
                        "resolved backend does not satisfy the requested boundary",
                    ),
                );
            }
            Ok(())
        },
    }
}

/// How much of the supervision's deadline is left: none is known before the
/// first authorization, nor where the deadline bounds attempts.
pub open spec fn remaining_of(policy: Policy, origin: Option<Duration>, elapsed: nat) -> Option<
    nat,
> {
    if origin is Some && policy.deadline is Some && policy.deadline->0.scope
        == DeadlineScope::Supervision {
        Some(floor_sub(policy.deadline->0.duration@, floor_sub(elapsed, origin->0@)))
    } else {
        None
    }
}

/// The length of an optional span.
pub open spec fn opt_span(o: Option<Duration>) -> Option<nat> {
    match o {
        Some(span) => Some(span@),
        None => None,
    }
}

/// How much of the supervision's deadline is left.
pub fn supervision_remaining(
    policy: &Policy,
    origin: Option<Duration>,
    elapsed: Duration,
) -> (r: Option<Duration>)
    ensures
        opt_span(r) == remaining_of(*policy, origin, elapsed@),
{
    match (origin, policy.deadline) {
        (Some(origin), Some(deadline)) => {
            if deadline.scope == DeadlineScope::Supervision {
                Some(deadline.duration.saturating_sub(elapsed.saturating_sub(origin)))
            } else {
                None
            }
        },
        _ => None,
    }
}

/// Time never gives back any of the supervision's deadline.
pub proof fn remaining_only_shrinks(
    policy: Policy,
    origin: Option<Duration>,
    earlier: nat,
    later: nat,
)
    requires
        earlier <= later,
    ensures
        remaining_of(policy, origin, earlier) is Some <==> remaining_of(policy, origin, later)
            is Some,
        remaining_of(policy, origin, later) matches Some(left) ==> left <= remaining_of(
            policy,
            origin,
            earlier,
        )->0,
{
}

/// What supervision was doing.
#[derive(Clone, Copy, Debug, PartialEq, Eq, Structural)]
pub enum SupervisionPhase {
    AttemptSetup,
    Backoff,
    Cooldown,
}

/// Evidence that the supervision's deadline passed outside an attempt.
#[derive(Clone, Copy, Debug)]
pub struct SupervisionDeadlineEvidence {
    pub evidence: DeadlineEvidence,
    pub terminal_phase: SupervisionPhase,
}

/// The evidence that the supervision's deadline passed outside an attempt, where
/// one was counted.
pub open spec fn outside_evidence(
    platform: Platform,
    policy: Policy,
    origin: Option<Duration>,
    observed: nat,
    terminal_phase: SupervisionPhase,
) -> Option<SupervisionDeadlineEvidence> {
    if origin is Some && policy.deadline is Some {
        let expires = origin->0@ + policy.deadline->0.duration@;
        Some(
            SupervisionDeadlineEvidence {
                evidence: DeadlineEvidence {
                    duration_ms: capped_millis(policy.deadline->0.duration@),
                    scope: DeadlineScope::Supervision,
                    origin: origin_of(platform),
                    expires_ms: capped_millis(expires),
                    observed_ms: capped_millis(
                        if observed >= expires {
                            observed
                        } else {
                            expires
                        },
                    ),
                    grace_ms: capped_millis(policy.limit_grace@),
                    grace_used_ms: 0,
                    graceful_action: None,
                    forced_action: None,
                },
                terminal_phase,
            },
        )
    } else {
        None
    }
}

/// The evidence that the supervision's deadline passed outside an attempt, before anyone
/// was asked whether it is consistent.
pub fn outside_draft(
    platform: Platform,
    policy: &Policy,
    origin: Option<Duration>,
    observed: Duration,
    terminal_phase: SupervisionPhase,
) -> (r: Option<SupervisionDeadlineEvidence>)
    ensures
        r == outside_evidence(platform, *policy, origin, observed@, terminal_phase),
{
    match (origin, policy.deadline) {
        (Some(origin), Some(deadline)) => {
            let expires_ms: u64 = origin.sum_millis(deadline.duration);
            let seen_ms: u64 = observed.millis();
            proof {
                let expires = origin@ + deadline.duration@;
                assert(observed@ >= expires ==> observed@ / 1_000_000 >= expires / 1_000_000);
                assert(observed@ < expires ==> observed@ / 1_000_000 <= expires / 1_000_000);
            }
            Some(
                SupervisionDeadlineEvidence {
                    evidence: DeadlineEvidence {
                        duration_ms: deadline.duration.millis(),
                        scope: DeadlineScope::Supervision,
                        origin: deadline_origin(platform),
                        expires_ms,
                        observed_ms: if seen_ms >= expires_ms {
                            seen_ms
                        } else {
                            expires_ms
                        },
                        grace_ms: policy.limit_grace.millis(),
                        grace_used_ms: 0,
                        graceful_action: None,
                        forced_action: None,
                    },
                    terminal_phase,
                },
            )
        },
        _ => None,
    }
}

/// The error of evidence that was refused as contradictory.
pub open spec fn refused_outside() -> ErrorView {
    bare_error(
        ErrorCategory::Monitor,
        "MCSUPERVISION-DEADLINE-EVIDENCE",
        "supervision deadline evidence is inconsistent"@,
    )
}

/// The evidence that the supervision's deadline passed outside an attempt. `accepted` is
/// whether it was accepted as consistent, where there is any.
pub fn outside_deadline_evidence(
    platform: Platform,
    policy: &Policy,
    origin: Option<Duration>,
    observed: Duration,
    terminal_phase: SupervisionPhase,
    accepted: bool,
) -> (r: Result<Option<SupervisionDeadlineEvidence>, Error>)
    ensures
        ({
            let evidence = outside_evidence(platform, *policy, origin, observed@, terminal_phase);
            match r {
                Ok(found) => found == evidence && (evidence is Some ==> accepted),
                Err(error) => evidence is Some && !accepted && error@ == refused_outside(),
            }
        }),
{
    let evidence = outside_draft(platform, policy, origin, observed, terminal_phase);
    if evidence.is_some() && !accepted {
        return Err(
            Error::fixed(
                ErrorCategory::Monitor,
                "MCSUPERVISION-DEADLINE-EVIDENCE",
                "supervision deadline evidence is inconsistent",
            ),
        );
    }
    Ok(evidence)
}

/// The outcomes that a restart can follow.
#[derive(Clone, Copy, Debug, PartialEq, Eq, Structural)]
pub enum RestartCondition {
    MemoryLimit,
    Deadline,
}

/// Whether an outcome can be followed by a restart: the memory limit, or an
/// attempt's own deadline.
pub open spec fn condition_of(outcome: OutcomeView) -> Option<RestartCondition> {
    match outcome {
        OutcomeView::LimitExceeded { .. } => Some(RestartCondition::MemoryLimit),
        OutcomeView::DeadlineExceeded { deadline, .. } => if deadline.scope
            == DeadlineScope::Attempt {
            Some(RestartCondition::Deadline)
        } else {
            None
        },
        _ => None,
    }
}

/// Whether an outcome can be followed by a restart.
pub fn restart_condition(outcome: &RunOutcome) -> (r: Option<RestartCondition>)
    ensures
        r == condition_of(outcome@),
{
    match outcome {
        RunOutcome::LimitExceeded { .. } => Some(RestartCondition::MemoryLimit),
        RunOutcome::DeadlineExceeded { deadline, .. } => if deadline.scope
            == DeadlineScope::Attempt {
            Some(RestartCondition::Deadline)
        } else {
            None
        },
        _ => None,
    }
}

/// An expired supervision is never restarted.
pub proof fn supervision_deadline_is_final(outcome: OutcomeView)
    requires
        outcome matches OutcomeView::DeadlineExceeded { deadline, .. } && deadline.scope
            == DeadlineScope::Supervision,
    ensures
        condition_of(outcome) is None,
{
}

} // verus!
