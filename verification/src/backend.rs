//! Backends: what they can do, which one a request gets, and where a run goes.

use vstd::prelude::*;
use vstd::string::*;

use crate::evidence::{
    bare_error, BackendCleanupFacts, BoundaryMechanismEvidence, Error, ErrorCategory,
    LaunchEvidence, LaunchView, MechanismView, RestartSafetyProof, RunOutcome,
};
use crate::linux_cgroup::{
    is_stale_candidate, key_values, populated, value_of, StaleEntry,
};
use crate::linux_launch::{setup_error, setup_io};
use crate::macos_attempt::RuntimeEvidence;
use crate::model::{texts, Fault};
use crate::policy::{BoundaryClass, BoundaryRequirement, Policy};
use crate::sealed::terminal::PolicyEnforcement;
use crate::supervisor::{unresolved_sealed, unresolved_sealed_error};
use crate::time::Duration;

verus! {

/// The platforms that a backend can be built for.
#[derive(Clone, Copy, Debug, PartialEq, Eq, Structural)]
pub enum Platform {
    Linux,
    MacOs,
    Windows,
    OtherUnix,
    Other,
}

/// What a boundary can do.
#[derive(Debug)]
pub struct BoundaryCapability {
    pub class: BoundaryClass,
    pub mechanism: String,
    pub target_gated: bool,
    pub boundary_verified_before_authorization: bool,
    pub target_can_reconfigure_boundary: bool,
    pub frontend_loss_cleanup_authority: bool,
    pub workload_empty_proof: bool,
    pub limitations: Vec<String>,
}

/// The facts of a boundary.
pub struct CapabilityView {
    pub class: BoundaryClass,
    pub mechanism: Seq<char>,
    pub target_gated: bool,
    pub boundary_verified_before_authorization: bool,
    pub target_can_reconfigure_boundary: bool,
    pub frontend_loss_cleanup_authority: bool,
    pub workload_empty_proof: bool,
    pub limitations: Seq<Seq<char>>,
}

impl View for BoundaryCapability {
    type V = CapabilityView;

    open spec fn view(&self) -> CapabilityView {
        CapabilityView {
            class: self.class,
            mechanism: self.mechanism@,
            target_gated: self.target_gated,
            boundary_verified_before_authorization: self.boundary_verified_before_authorization,
            target_can_reconfigure_boundary: self.target_can_reconfigure_boundary,
            frontend_loss_cleanup_authority: self.frontend_loss_cleanup_authority,
            workload_empty_proof: self.workload_empty_proof,
            limitations: texts(self.limitations@),
        }
    }
}

impl BoundaryCapability {
    /// The same capability again.
    pub fn duplicate(&self) -> (r: BoundaryCapability)
        ensures
            r@ == self@,
    {
        BoundaryCapability {
            class: self.class,
            mechanism: self.mechanism.clone(),
            target_gated: self.target_gated,
            boundary_verified_before_authorization: self.boundary_verified_before_authorization,
            target_can_reconfigure_boundary: self.target_can_reconfigure_boundary,
            frontend_loss_cleanup_authority: self.frontend_loss_cleanup_authority,
            workload_empty_proof: self.workload_empty_proof,
            limitations: crate::evidence::duplicate_texts(&self.limitations),
        }
    }
}

/// What a sealed provider showed for itself.
#[derive(Debug)]
pub struct BoundaryQualification {
    pub provider_identity: String,
    pub receipt_digest: String,
    pub mechanism: String,
}

/// The facts of a qualification.
pub struct QualificationView {
    pub provider_identity: Seq<char>,
    pub receipt_digest: Seq<char>,
    pub mechanism: Seq<char>,
}

impl View for BoundaryQualification {
    type V = QualificationView;

    open spec fn view(&self) -> QualificationView {
        QualificationView {
            provider_identity: self.provider_identity@,
            receipt_digest: self.receipt_digest@,
            mechanism: self.mechanism@,
        }
    }
}

impl BoundaryQualification {
    /// The same qualification again.
    pub fn duplicate(&self) -> (r: BoundaryQualification)
        ensures
            r@ == self@,
    {
        BoundaryQualification {
            provider_identity: self.provider_identity.clone(),
            receipt_digest: self.receipt_digest.clone(),
            mechanism: self.mechanism.clone(),
        }
    }
}

/// Whether a backend has a sealed boundary, or why not.
#[derive(Debug)]
pub enum SealedAvailability {
    Available { capability: BoundaryCapability, qualification: BoundaryQualification },
    Unavailable { reason: String, prerequisites: Vec<String> },
}

/// The facts of a sealed boundary.
pub enum SealedView {
    Available { capability: CapabilityView, qualification: QualificationView },
    Unavailable { reason: Seq<char>, prerequisites: Seq<Seq<char>> },
}

impl View for SealedAvailability {
    type V = SealedView;

    open spec fn view(&self) -> SealedView {
        match self {
            SealedAvailability::Available { capability, qualification } => SealedView::Available {
                capability: capability@,
                qualification: qualification@,
            },
            SealedAvailability::Unavailable { reason, prerequisites } => SealedView::Unavailable {
                reason: reason@,
                prerequisites: texts(prerequisites@),
            },
        }
    }
}

/// The boundaries of a backend.
#[derive(Debug)]
pub struct BoundarySupport {
    pub standard: BoundaryCapability,
    pub sealed: SealedAvailability,
}

impl BoundarySupport {
    /// Whether two backends have the same boundaries.
    pub open spec fn agrees(&self, other: BoundarySupport) -> bool {
        self.standard@ == other.standard@ && self.sealed@ == other.sealed@
    }

    /// The same boundaries again.
    pub fn duplicate(&self) -> (r: BoundarySupport)
        ensures
            r.agrees(*self),
    {
        let sealed = match &self.sealed {
            SealedAvailability::Available { capability, qualification } =>
                SealedAvailability::Available {
                capability: capability.duplicate(),
                qualification: qualification.duplicate(),
            },
            SealedAvailability::Unavailable { reason, prerequisites } =>
                SealedAvailability::Unavailable {
                reason: reason.clone(),
                prerequisites: crate::evidence::duplicate_texts(prerequisites),
            },
        };
        BoundarySupport { standard: self.standard.duplicate(), sealed }
    }
}

/// A backend.
#[derive(Debug)]
pub struct BackendInfo {
    pub name: &'static str,
    pub containment_supported: bool,
    pub memory_supported: bool,
    pub class: &'static str,
    pub metric: &'static str,
    pub hard_limit: bool,
    pub startup_containment: &'static str,
    pub limitations: Vec<&'static str>,
    pub boundary_support: BoundarySupport,
}

impl BackendInfo {
    /// Whether the backend can keep the boundary that a request asks for.
    pub open spec fn supports(&self, requirement: BoundaryRequirement) -> bool {
        match requirement {
            BoundaryRequirement::Standard => self.boundary_support.standard.class
                != BoundaryClass::Unavailable,
            BoundaryRequirement::Sealed => self.boundary_support.sealed is Available,
        }
    }

    /// Whether the backend can keep the boundary that a request asks for.
    pub fn supports_boundary(&self, requirement: BoundaryRequirement) -> (r: bool)
        ensures
            r == self.supports(requirement),
    {
        match requirement {
            BoundaryRequirement::Standard => self.boundary_support.standard.class
                != BoundaryClass::Unavailable,
            BoundaryRequirement::Sealed => match &self.boundary_support.sealed {
                SealedAvailability::Available { .. } => true,
                SealedAvailability::Unavailable { .. } => false,
            },
        }
    }
}

/// A backend that cannot be used, and why.
#[derive(Debug)]
pub struct UnavailableBackend {
    pub name: &'static str,
    pub reason: String,
}

/// What a look at the platform found.
#[derive(Debug)]
pub struct ProbeReport {
    pub selected: Option<BackendInfo>,
    pub available: Vec<BackendInfo>,
    pub unavailable: Vec<UnavailableBackend>,
}

/// The first backend at or after place `i` that keeps the boundary.
pub open spec fn first_supporting(
    list: Seq<BackendInfo>,
    requirement: BoundaryRequirement,
    i: int,
) -> Option<BackendInfo>
    decreases list.len() - i,
{
    if i < 0 || i >= list.len() {
        None
    } else if list[i].supports(requirement) {
        Some(list[i])
    } else {
        first_supporting(list, requirement, i + 1)
    }
}

impl ProbeReport {
    /// A report of no backend at all.
    pub fn empty() -> (r: ProbeReport)
        ensures
            r.selected is None,
            r.available@.len() == 0,
            r.unavailable@.len() == 0,
    {
        ProbeReport { selected: None, available: Vec::new(), unavailable: Vec::new() }
    }

    /// The backend for a request: the selected one where it keeps the boundary,
    /// and else the first of those available that does.
    pub open spec fn choice(&self, requirement: BoundaryRequirement) -> Option<BackendInfo> {
        if self.selected is Some && self.selected->0.supports(requirement) {
            self.selected
        } else {
            first_supporting(self.available@, requirement, 0)
        }
    }

    /// The backend for a request.
    pub fn selected_for(&self, requirement: BoundaryRequirement) -> (r: Option<&BackendInfo>)
        ensures
            match r {
                Some(info) => self.choice(requirement) == Some(*info),
                None => self.choice(requirement) is None,
            },
    {
        if let Some(selected) = &self.selected {
            if selected.supports_boundary(requirement) {
                return Some(selected);
            }
        }
        let mut i: usize = 0;
        while i < self.available.len()
            invariant
                i <= self.available.len(),
                !(self.selected is Some && self.selected->0.supports(requirement)),
                first_supporting(self.available@, requirement, i as int) == first_supporting(
                    self.available@,
                    requirement,
                    0,
                ),
            decreases self.available.len() - i,
        {
            if self.available[i].supports_boundary(requirement) {
                return Some(&self.available[i]);
            }
            i += 1;
        }
        None
    }
}

/// The backend that a request gets keeps the boundary it asked for.
pub proof fn choice_keeps_boundary(
    list: Seq<BackendInfo>,
    requirement: BoundaryRequirement,
    i: int,
)
    ensures
        first_supporting(list, requirement, i) matches Some(info) ==> info.supports(requirement),
        first_supporting(list, requirement, i) is None ==> forall|k: int|
            0 <= i <= k < list.len() ==> !(#[trigger] list[k]).supports(requirement),
    decreases list.len() - i,
{
    if 0 <= i < list.len() && !list[i].supports(requirement) {
        choice_keeps_boundary(list, requirement, i + 1);
    }
}

/// No request for a sealed boundary gets a backend without one.
pub proof fn sealed_never_falls_back(report: ProbeReport)
    ensures
        report.choice(BoundaryRequirement::Sealed) matches Some(info)
            ==> info.boundary_support.sealed is Available,
{
    choice_keeps_boundary(report.available@, BoundaryRequirement::Sealed, 0);
}

/// The views of a list of literals.
pub open spec fn literal_texts(s: Seq<&'static str>) -> Seq<Seq<char>> {
    Seq::new(s.len(), |i: int| s[i]@)
}

/// Copies a list of literals into texts.
pub fn owned_texts(list: &[&'static str]) -> (r: Vec<String>)
    ensures
        texts(r@) == literal_texts(list@),
{
    let mut out: Vec<String> = Vec::new();
    let mut i: usize = 0;
    while i < list.len()
        invariant
            i <= list.len(),
            out.len() == i,
            forall|k: int| 0 <= k < i ==> (#[trigger] out[k])@ == list@[k]@,
        decreases list.len() - i,
    {
        out.push(list[i].to_owned());
        i += 1;
    }
    assert(texts(out@) =~= literal_texts(list@));
    out
}

/// The standard boundary of a backend.
pub open spec fn standard_capability(mechanism: Seq<char>, containment_supported: bool) -> CapabilityView {
    CapabilityView {
        class: BoundaryClass::Standard,
        mechanism,
        target_gated: containment_supported,
        boundary_verified_before_authorization: containment_supported,
        target_can_reconfigure_boundary: true,
        frontend_loss_cleanup_authority: false,
        workload_empty_proof: containment_supported,
        limitations: seq!["standard supervision is not a sealed boundary"@],
    }
}

/// The boundaries of a backend that has no sealed one.
pub fn standard_boundary_support(
    mechanism: &str,
    containment_supported: bool,
    sealed_reason: &str,
    prerequisites: &[&'static str],
) -> (r: BoundarySupport)
    ensures
        r.standard@ == standard_capability(mechanism@, containment_supported),
        r.sealed@ == (SealedView::Unavailable {
            reason: sealed_reason@,
            prerequisites: literal_texts(prerequisites@),
        }),
{
    let mut limitations: Vec<String> = Vec::new();
    limitations.push("standard supervision is not a sealed boundary".to_owned());
    assert(texts(limitations@) =~= seq!["standard supervision is not a sealed boundary"@]);
    BoundarySupport {
        standard: BoundaryCapability {
            class: BoundaryClass::Standard,
            mechanism: mechanism.to_owned(),
            target_gated: containment_supported,
            boundary_verified_before_authorization: containment_supported,
            target_can_reconfigure_boundary: true,
            frontend_loss_cleanup_authority: false,
            workload_empty_proof: containment_supported,
            limitations,
        },
        sealed: SealedAvailability::Unavailable {
            reason: sealed_reason.to_owned(),
            prerequisites: owned_texts(prerequisites),
        },
    }
}

/// The evidence of an attempt that ran within a standard boundary.
pub fn standard_execution_evidence(backend: &BackendInfo, facts: BackendCleanupFacts) -> (r: (
    LaunchEvidence,
    RestartSafetyProof,
    BoundaryMechanismEvidence,
))
    ensures
        r.0@ == (LaunchView {
            mechanism: backend.boundary_support.standard.mechanism@,
            target_released: true,
            containment_verified_before_authorization:
                backend.boundary_support.standard.boundary_verified_before_authorization,
            guardian_started_before_authorization: false,
            target_spawn_error_reported: false,
            boundary_requested: BoundaryRequirement::Standard,
            boundary_effective: BoundaryClass::Standard,
            boundary_assignment_verified: false,
            boundary_reconfiguration_denied: false,
            inherited_resources_restricted: false,
            frontend_loss_cleanup_authority_verified: false,
        }),
        r.1@ == facts.as_proof(),
        r.2@ == (MechanismView::Standard { backend: backend.name@ }),
{
    let standard = &backend.boundary_support.standard;
    (
        LaunchEvidence {
            mechanism: standard.mechanism.clone(),
            target_released: true,
            containment_verified_before_authorization:
                standard.boundary_verified_before_authorization,
            guardian_started_before_authorization: false,
            target_spawn_error_reported: false,
            boundary_requested: BoundaryRequirement::Standard,
            boundary_effective: BoundaryClass::Standard,
            boundary_assignment_verified: false,
            boundary_reconfiguration_denied: false,
            inherited_resources_restricted: false,
            frontend_loss_cleanup_authority_verified: false,
        },
        RestartSafetyProof {
            direct_child_reaped: facts.direct_child_reaped,
            workload_empty: facts.workload_empty,
            helpers_reaped: facts.helpers_reaped,
            containment_removed: facts.containment_removed,
            containment_incapable_of_live_members: facts.containment_incapable_of_live_members,
            sealed_boundary_retired: false,
            errors: facts.errors,
        },
        BoundaryMechanismEvidence::Standard { backend: backend.name.to_owned() },
    )
}

/// An attempt that ran: how it ended, and the evidence of it.
#[derive(Debug)]
pub struct Execution {
    pub policy_enforcement: Option<PolicyEnforcement>,
    pub outcome: RunOutcome,
    pub backend: BackendInfo,
    pub child_pid: Option<u32>,
    pub duration: Duration,
    pub authorization_offset: Option<Duration>,
    pub launch: LaunchEvidence,
    pub restart_safety: RestartSafetyProof,
    pub boundary_detail: BoundaryMechanismEvidence,
    /// The instants of an attempt that macOS watched; other platforms give none.
    pub runtime: Option<RuntimeEvidence>,
}

/// Where a run goes.
#[derive(Clone, Copy, Debug, PartialEq, Eq, Structural)]
pub enum Route {
    LinuxCgroup,
    MacosWatchdog,
    WindowsSealed,
    WindowsJob,
    UnixWatchdog,
}

/// The shortest poll interval, in milliseconds.
pub const MIN_POLL_MILLIS: u64 = 10;

/// The route of a run without supervision, if there is one. A sealed request has one
/// only where a provider stands behind it.
pub open spec fn route_of(platform: Platform, policy: Policy) -> Option<Route> {
    let sealed = policy.boundary == BoundaryRequirement::Sealed;
    match platform {
        Platform::Linux => if sealed {
            None
        } else {
            Some(Route::LinuxCgroup)
        },
        Platform::MacOs => if sealed {
            None
        } else {
            Some(Route::MacosWatchdog)
        },
        Platform::Windows => if sealed {
            Some(Route::WindowsSealed)
        } else {
            Some(Route::WindowsJob)
        },
        Platform::OtherUnix => if sealed {
            None
        } else {
            Some(Route::UnixWatchdog)
        },
        Platform::Other => None,
    }
}

/// Decides where a run without supervision goes. A poll interval below ten
/// milliseconds is refused on every platform.
pub fn run(platform: Platform, policy: &Policy) -> (r: Result<Route, Error>)
    ensures
        match r {
            Ok(route) => policy.poll_interval@ >= 10_000_000 && route_of(platform, *policy) == Some(
                route,
            ),
            Err(error) => if policy.poll_interval@ < 10_000_000 {
                error@ == bare_error(
                    ErrorCategory::Usage,
                    "MCUSAGE-POLL-INTERVAL",
                    "watchdog poll interval must be at least 10ms"@,
                )
            } else {
                route_of(platform, *policy) is None && error@ == if platform == Platform::Other {
                    bare_error(
                        ErrorCategory::Unsupported,
                        "MCUNSUPPORTED-PLATFORM",
                        "this target is not supported"@,
                    )
                } else {
                    unresolved_sealed_error()
                }
            },
        },
{
    if policy.poll_interval.is_less_than(Duration::from_millis(MIN_POLL_MILLIS)) {
        return Err(
            Error::fixed(
                ErrorCategory::Usage,
                "MCUSAGE-POLL-INTERVAL",
                "watchdog poll interval must be at least 10ms",
            ),
        );
    }
    let sealed = policy.boundary == BoundaryRequirement::Sealed;
    if platform == Platform::Other {
        return Err(
            Error::fixed(
                ErrorCategory::Unsupported,
                "MCUNSUPPORTED-PLATFORM",
                "this target is not supported",
            ),
        );
    }
    if sealed && platform != Platform::Windows {
        return Err(unresolved_sealed());
    }
    match platform {
        Platform::Linux => Ok(Route::LinuxCgroup),
        Platform::MacOs => Ok(Route::MacosWatchdog),
        Platform::Windows => if sealed {
            Ok(Route::WindowsSealed)
        } else {
            Ok(Route::WindowsJob)
        },
        _ => Ok(Route::UnixWatchdog),
    }
}

/// A sealed request without supervision goes to a sealed provider or nowhere.
pub proof fn sealed_runs_stay_sealed(platform: Platform, policy: Policy)
    requires
        policy.boundary == BoundaryRequirement::Sealed,
    ensures
        route_of(platform, policy) matches Some(route) ==> route == Route::WindowsSealed,
{
}

/// What happens to one entry below the delegated parent.
#[derive(Clone, Copy, Debug, PartialEq, Eq, Structural)]
pub enum StaleVerdict {
    /// It is none of ours, or it lives.
    Keep,
    /// It is left over: list it, and leave it.
    List,
    /// It is left over: remove it, then list it.
    Remove,
}

/// Decides what happens to one entry below the delegated parent; `events` is its
/// `cgroup.events`, read where the entry may be a control group of ours. A
/// control group with members is never touched.
pub fn cleanup_stale(
    platform: Platform,
    dry_run: bool,
    entry: StaleEntry,
    events: Result<String, Fault>,
) -> (r: Result<StaleVerdict, Error>)
    ensures
        ({
            let candidate = platform == Platform::Linux && entry.own_name && entry.directory
                && entry.has_procs && entry.has_events && entry.has_kill;
            if !candidate {
                r == Ok::<StaleVerdict, Error>(StaleVerdict::Keep)
            } else {
                match events {
                    Err(fault) => r matches Err(error) && error@ == setup_error(fault),
                    Ok(text) => match key_values(text@) {
                        Ok(counters) => r == Ok::<StaleVerdict, Error>(
                            if value_of(counters, "populated"@) != 0 {
                                StaleVerdict::Keep
                            } else if dry_run {
                                StaleVerdict::List
                            } else {
                                StaleVerdict::Remove
                            },
                        ),
                        Err(message) => r matches Err(error) && error@ == bare_error(
                            ErrorCategory::Setup,
                            "MCSETUP-CGROUP",
                            message,
                        ),
                    },
                }
            }
        }),
{
    if platform != Platform::Linux || !is_stale_candidate(entry) {
        return Ok(StaleVerdict::Keep);
    }
    let text = match events {
        Ok(text) => text,
        Err(fault) => {
            return Err(setup_io(&fault));
        },
    };
    match populated(text.as_str()) {
        Ok(true) => Ok(StaleVerdict::Keep),
        Ok(false) => if dry_run {
            Ok(StaleVerdict::List)
        } else {
            Ok(StaleVerdict::Remove)
        },
        Err(fault) => Err(setup_io(&fault)),
    }
}

/// A control group with members is kept, whatever its name and whoever asks.
pub proof fn live_groups_are_kept(counters: Map<Seq<char>, u64>, text: Seq<char>)
    requires
        key_values(text) == Ok::<Map<Seq<char>, u64>, Seq<char>>(counters),
        value_of(counters, "populated"@) != 0,
    ensures
        forall|platform: Platform, dry_run: bool, entry: StaleEntry, events: String, r: Result<StaleVerdict, Error>|
            events@ == text && #[trigger] call_ensures(
                cleanup_stale,
                (platform, dry_run, entry, Ok::<String, Fault>(events)),
                r,
            ) ==> r == Ok::<StaleVerdict, Error>(StaleVerdict::Keep),
{
}

/// What the backend that keeps a workload in a Linux control group says of itself, but
/// for the boundaries it has.
pub open spec fn is_linux_info(info: BackendInfo) -> bool {
    &&& info.name == "linux-cgroup-v2"
    &&& info.containment_supported && info.memory_supported && info.hard_limit
    &&& info.class == "hard"
    &&& info.metric == "linux-cgroup-memory"
    &&& info.startup_containment == "gated launcher assigned to cgroup before target exec"
    &&& info.limitations@ == seq![
        "requires delegated cgroup v2 memory controller",
        "kernel may temporarily report memory.current above memory.max",
        "swap accounting is a separate policy",
    ]
}

/// The backend that keeps a workload in a Linux control group.
pub fn linux_info(boundary_support: BoundarySupport) -> (r: BackendInfo)
    ensures
        is_linux_info(r),
        r.boundary_support == boundary_support,
{
    let mut limitations: Vec<&'static str> = Vec::new();
    limitations.push("requires delegated cgroup v2 memory controller");
    limitations.push("kernel may temporarily report memory.current above memory.max");
    limitations.push("swap accounting is a separate policy");
    assert(limitations@ =~= seq![
        "requires delegated cgroup v2 memory controller",
        "kernel may temporarily report memory.current above memory.max",
        "swap accounting is a separate policy",
    ]);
    BackendInfo {
        name: "linux-cgroup-v2",
        containment_supported: true,
        memory_supported: true,
        class: "hard",
        metric: "linux-cgroup-memory",
        hard_limit: true,
        startup_containment: "gated launcher assigned to cgroup before target exec",
        limitations,
        boundary_support,
    }
}

/// The metric that macOS itself has.
pub const MACOS_METRIC: &'static str = "physical-footprint-sum";

/// What the backend that watches a process group on macOS says of itself, under the
/// metric it goes by.
pub open spec fn is_macos_info(info: BackendInfo, metric: &'static str) -> bool {
    &&& info.name == "macos-watchdog"
    &&& info.containment_supported && info.memory_supported && !info.hard_limit
    &&& info.class == "watchdog"
    &&& info.metric == metric
    &&& info.startup_containment == "new process group established before target exec"
    &&& info.limitations@ == seq![
        "sampled accounting can miss short memory bursts",
        "usage can overshoot before termination",
        "an undiscovered descendant can escape by creating a new session",
    ]
    &&& info.boundary_support.standard@ == standard_capability("process-group-pre-spawn"@, true)
    &&& info.boundary_support.sealed@ == (SealedView::Unavailable {
        reason: "a certified entitlement-backed process-event authority is not installed"@,
        prerequisites: literal_texts(
            seq!["signed Endpoint Security system extension", "root launch daemon"],
        ),
    })
}

/// The backend that watches a process group on macOS.
pub fn info() -> (r: BackendInfo)
    ensures
        is_macos_info(r, MACOS_METRIC),
{
    let mut limitations: Vec<&'static str> = Vec::new();
    limitations.push("sampled accounting can miss short memory bursts");
    limitations.push("usage can overshoot before termination");
    limitations.push("an undiscovered descendant can escape by creating a new session");
    assert(limitations@ =~= seq![
        "sampled accounting can miss short memory bursts",
        "usage can overshoot before termination",
        "an undiscovered descendant can escape by creating a new session",
    ]);
    let mut prerequisites: Vec<&'static str> = Vec::new();
    prerequisites.push("signed Endpoint Security system extension");
    prerequisites.push("root launch daemon");
    assert(prerequisites@ =~= seq![
        "signed Endpoint Security system extension",
        "root launch daemon",
    ]);
    BackendInfo {
        name: "macos-watchdog",
        containment_supported: true,
        memory_supported: true,
        class: "watchdog",
        metric: MACOS_METRIC,
        hard_limit: false,
        startup_containment: "new process group established before target exec",
        limitations,
        boundary_support: standard_boundary_support(
            "process-group-pre-spawn",
            true,
            "a certified entitlement-backed process-event authority is not installed",
            prerequisites.as_slice(),
        ),
    }
}

/// What a look at the platform found. `linux` is what the probe of the control
/// groups came to on Linux, and counts nowhere else; `own` is what the backend of
/// Windows or of another Unix reports of itself, and counts only there.
pub fn probe(platform: Platform, linux: Result<BoundarySupport, String>, own: ProbeReport) -> (r:
    ProbeReport)
    ensures
        match (platform, linux) {
            (Platform::Linux, Ok(support)) => {
                &&& r.selected matches Some(info) && is_linux_info(info)
                    && info.boundary_support == support
                &&& r.available@.len() == 1 && is_linux_info(r.available@[0])
                &&& r.available@[0].boundary_support.agrees(support)
                &&& r.unavailable@.len() == 0
            },
            (Platform::Linux, Err(reason)) => r.selected is None && r.available@.len() == 0
                && r.unavailable@ == seq![UnavailableBackend { name: "linux-cgroup-v2", reason }],
            (Platform::MacOs, _) => {
                &&& r.selected matches Some(info) && is_macos_info(info, MACOS_METRIC)
                &&& r.available@.len() == 1 && is_macos_info(r.available@[0], MACOS_METRIC)
                &&& r.unavailable@.len() == 1 && r.unavailable@[0].name == "kernel-backed"
                &&& r.unavailable@[0].reason@
                    == "macOS has no supported public aggregate workload memory controller"@
            },
            (Platform::Windows, _) => r == own,
            (Platform::OtherUnix, _) => r == own,
            (Platform::Other, _) => r.selected is None && r.available@.len() == 0
                && r.unavailable@.len() == 1 && r.unavailable@[0].name == "platform"
                && r.unavailable@[0].reason@ == "this target is not supported"@,
        },
{
    if platform == Platform::Windows || platform == Platform::OtherUnix {
        return own;
    }
    let mut available: Vec<BackendInfo> = Vec::new();
    let mut unavailable: Vec<UnavailableBackend> = Vec::new();
    let mut selected: Option<BackendInfo> = None;
    match platform {
        Platform::Linux => match linux {
            Ok(support) => {
                available.push(linux_info(support.duplicate()));
                selected = Some(linux_info(support));
            },
            Err(reason) => {
                unavailable.push(UnavailableBackend { name: "linux-cgroup-v2", reason });
            },
        },
        Platform::MacOs => {
            selected = Some(info());
            available.push(info());
            unavailable.push(
                UnavailableBackend {
                    name: "kernel-backed",
                    reason: "macOS has no supported public aggregate workload memory controller".to_owned(),
                },
            );
        },
        _ => {
            unavailable.push(
                UnavailableBackend {
                    name: "platform",
                    reason: "this target is not supported".to_owned(),
                },
            );
        },
    }
    ProbeReport { selected, available, unavailable }
}

} // verus!
