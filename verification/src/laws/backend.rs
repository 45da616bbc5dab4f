//! Which backend serves a request, and where its run goes.

use vstd::prelude::*;

use crate::backend::{
    cleanup_stale, info, probe, run, standard_boundary_support, standard_execution_evidence,
    BackendInfo, BoundarySupport, Platform, ProbeReport, Route, SealedAvailability, StaleVerdict,
};
use crate::evidence::{
    BackendCleanupFacts, BoundaryMechanismEvidence, Error, LaunchEvidence, RestartSafetyProof,
};
use crate::linux_cgroup::{key_values, value_of, StaleEntry};
use crate::model::Fault;
use crate::policy::{AttemptContext, BoundaryClass, BoundaryRequirement, Policy};
use crate::time::Duration;

verus! {

/// A backend supports a standard boundary unless it has none, and a sealed one just where
/// its provider is there.
pub proof fn support_is_what_there_is(info: &BackendInfo, standard: bool, sealed: bool)
    requires
        call_ensures(BackendInfo::supports_boundary, (info, BoundaryRequirement::Standard), standard),
        call_ensures(BackendInfo::supports_boundary, (info, BoundaryRequirement::Sealed), sealed),
    ensures
        standard <==> info.boundary_support.standard.class != BoundaryClass::Unavailable,
        sealed <==> (info.boundary_support.sealed matches SealedAvailability::Available { .. }),
{
}

/// The backend of a request supports it; the selected one goes first, then the available
/// ones in their order, and there is none just where no backend supports the request.
pub proof fn the_first_supporting_backend_is_chosen(
    report: &ProbeReport,
    sealed: Option<&BackendInfo>,
    standard: Option<&BackendInfo>,
)
    requires
        call_ensures(ProbeReport::selected_for, (report, BoundaryRequirement::Sealed), sealed),
        call_ensures(ProbeReport::selected_for, (report, BoundaryRequirement::Standard), standard),
    ensures
        sealed matches Some(info) ==> info.boundary_support.sealed is Available,
        standard matches Some(info) ==> info.boundary_support.standard.class
            != BoundaryClass::Unavailable,
        (report.selected matches Some(info) && info.boundary_support.sealed is Available)
            ==> sealed is Some && Some(*sealed->0) == report.selected,
        (report.selected matches Some(info) && info.boundary_support.standard.class
            != BoundaryClass::Unavailable) ==> standard is Some && Some(*standard->0)
            == report.selected,
        sealed is None ==> forall|i: int|
            0 <= i < report.available@.len() ==> (
            #[trigger] report.available@[i]).boundary_support.sealed is Unavailable,
        !(report.selected matches Some(info) && info.boundary_support.sealed is Available) && (
        sealed matches Some(info)) ==> exists|i: int|
            0 <= i < report.available@.len() && (#[trigger] report.available@[i]) == *sealed->0
                && forall|k: int|
                0 <= k < i ==> (#[trigger] report.available@[k]).boundary_support.sealed is Unavailable,
{
    first_is_found(report.available@, BoundaryRequirement::Sealed, 0);
    first_is_found(report.available@, BoundaryRequirement::Standard, 0);
    if !(report.selected matches Some(info) && info.boundary_support.sealed is Available)
        && sealed is Some {
        let i = choose|i: int|
            0 <= i < report.available@.len() && #[trigger] report.available@[i] == *sealed->0
                && forall|k: int|
                0 <= k < i ==> !(#[trigger] report.available@[k]).supports(
                    BoundaryRequirement::Sealed,
                );
        assert(report.available@[i] == *sealed->0);
    }
}

proof fn first_is_found(list: Seq<BackendInfo>, requirement: BoundaryRequirement, from: int)
    requires
        0 <= from <= list.len(),
    ensures
        ({
            let found = crate::backend::first_supporting(list, requirement, from);
            &&& found matches Some(info) ==> info.supports(requirement) && exists|i: int|
                from <= i < list.len() && #[trigger] list[i] == info && forall|k: int|
                    from <= k < i ==> !(#[trigger] list[k]).supports(requirement)
            &&& found is None ==> forall|i: int|
                from <= i < list.len() ==> !(#[trigger] list[i]).supports(requirement)
        }),
    decreases list.len() - from,
{
    if from < list.len() {
        if list[from].supports(requirement) {
            assert(list[from] == list[from]);
        } else {
            first_is_found(list, requirement, from + 1);
            if crate::backend::first_supporting(list, requirement, from) is Some {
                let info = crate::backend::first_supporting(list, requirement, from)->0;
                let i = choose|i: int|
                    from + 1 <= i < list.len() && #[trigger] list[i] == info && forall|k: int|
                        from + 1 <= k < i ==> !(#[trigger] list[k]).supports(requirement);
                assert(list[i] == info);
            }
        }
    }
}

/// A standard run goes to its platform's own backend; a sealed one runs on Windows alone,
/// and is elsewhere refused before anything starts. Too short a poll interval is refused
/// first.
pub proof fn runs_go_to_their_platform(
    platform: Platform,
    policy: &Policy,
    r: Result<Route, Error>,
)
    requires
        call_ensures(run, (platform, policy), r),
    ensures
        policy.poll_interval@ < 10_000_000 ==> (r matches Err(error) && error.code
            == "MCUSAGE-POLL-INTERVAL"),
        policy.poll_interval@ >= 10_000_000 && policy.boundary == BoundaryRequirement::Standard
            ==> match platform {
            Platform::Linux => r == Ok::<Route, Error>(Route::LinuxCgroup),
            Platform::MacOs => r == Ok::<Route, Error>(Route::MacosWatchdog),
            Platform::Windows => r == Ok::<Route, Error>(Route::WindowsJob),
            Platform::OtherUnix => r == Ok::<Route, Error>(Route::UnixWatchdog),
            Platform::Other => r matches Err(error) && error.code == "MCUNSUPPORTED-PLATFORM",
        },
        policy.poll_interval@ >= 10_000_000 && policy.boundary == BoundaryRequirement::Sealed
            ==> match platform {
            Platform::Windows => r == Ok::<Route, Error>(Route::WindowsSealed),
            Platform::Other => r matches Err(error) && error.code == "MCUNSUPPORTED-PLATFORM",
            _ => r matches Err(error) && error.code == "MCBOUNDARY-UNSUPPORTED"
                && !error.target_released,
        },
{
}

/// A left-over control group is removed only where it is this library's own, complete, and
/// empty; a dry run lists it in place of removing it, and nothing is touched elsewhere.
pub proof fn only_empty_groups_are_removed(
    platform: Platform,
    dry_run: bool,
    entry: StaleEntry,
    events: Result<String, Fault>,
    r: Result<StaleVerdict, Error>,
)
    requires
        call_ensures(cleanup_stale, (platform, dry_run, entry, events), r),
    ensures
        r == Ok::<StaleVerdict, Error>(StaleVerdict::Remove) ==> !dry_run && platform
            == Platform::Linux && entry.own_name && entry.directory && entry.has_procs
            && entry.has_events && entry.has_kill && events is Ok,
        r == Ok::<StaleVerdict, Error>(StaleVerdict::List) ==> dry_run && platform
            == Platform::Linux && entry.own_name && events is Ok,
        platform != Platform::Linux || !entry.own_name || !entry.directory || !entry.has_procs
            || !entry.has_events || !entry.has_kill ==> r == Ok::<StaleVerdict, Error>(
            StaleVerdict::Keep,
        ),
        r is Err ==> platform == Platform::Linux && entry.own_name,
        (r matches Ok(verdict) && verdict != StaleVerdict::Keep) ==> (key_values(
            events->Ok_0@,
        ) matches Ok(counters) && value_of(counters, "populated"@) == 0),
        (platform == Platform::Linux && entry.own_name && entry.directory && entry.has_procs
            && entry.has_events && entry.has_kill && (events matches Ok(text) && (key_values(
            text@,
        ) matches Ok(counters) && value_of(counters, "populated"@) == 0))) ==> r == Ok::<
            StaleVerdict,
            Error,
        >(
            if dry_run {
                StaleVerdict::List
            } else {
                StaleVerdict::Remove
            },
        ),
{
}

/// A probe selects the backend of its platform, and lists the same one as available: the
/// Linux one where control groups are to be had, the macOS one always, none elsewhere.
pub proof fn probes_select_the_platforms_backend(
    platform: Platform,
    linux: Result<BoundarySupport, String>,
    own: ProbeReport,
    r: ProbeReport,
)
    requires
        call_ensures(probe, (platform, linux, own), r),
    ensures
        platform == Platform::Linux && linux is Ok ==> (r.selected matches Some(info) && info.name
            == "linux-cgroup-v2" && info.hard_limit && info.class == "hard" && info.metric
            == "linux-cgroup-memory" && info.containment_supported && info.memory_supported
            && info.boundary_support == linux->Ok_0) && r.available@.len() == 1
            && r.available@[0].name == "linux-cgroup-v2" && r.unavailable@.len() == 0,
        platform == Platform::Linux && linux is Err ==> r.selected is None && r.available@.len()
            == 0 && r.unavailable@.len() == 1 && r.unavailable@[0].name == "linux-cgroup-v2"
            && r.unavailable@[0].reason == linux->Err_0,
        platform == Platform::MacOs ==> (r.selected matches Some(info) && info.name
            == "macos-watchdog" && !info.hard_limit && info.class == "watchdog" && info.metric
            == "physical-footprint-sum" && info.boundary_support.sealed is Unavailable
            && info.boundary_support.standard.class == BoundaryClass::Standard) && r.available@.len()
            == 1 && r.available@[0].name == "macos-watchdog" && r.unavailable@.len() == 1
            && r.unavailable@[0].name == "kernel-backed",
        platform == Platform::Windows || platform == Platform::OtherUnix ==> r == own,
        platform == Platform::Other ==> r.selected is None && r.available@.len() == 0
            && r.unavailable@.len() == 1,
{
    if platform == Platform::MacOs {
        let support = r.selected->0.boundary_support;
        assert(support.sealed@ is Unavailable <==> support.sealed is Unavailable);
        assert(support.standard@.class == support.standard.class);
    }
}

/// A standard boundary is never sealed: the target may reconfigure it, nothing cleans up
/// when the frontend is lost, and it is checked just where containment is supported.
pub proof fn standard_boundaries_are_not_sealed(
    mechanism: &str,
    contained: bool,
    reason: &str,
    prerequisites: &[&'static str],
    r: BoundarySupport,
)
    requires
        call_ensures(standard_boundary_support, (mechanism, contained, reason, prerequisites), r),
    ensures
        r.standard.class == BoundaryClass::Standard,
        r.standard.mechanism@ == mechanism@,
        r.standard.target_can_reconfigure_boundary && !r.standard.frontend_loss_cleanup_authority,
        r.standard.target_gated == contained
            && r.standard.boundary_verified_before_authorization == contained
            && r.standard.workload_empty_proof == contained,
        r.sealed matches SealedAvailability::Unavailable { reason: told, prerequisites: listed }
            && told@ == reason@ && listed@.len() == prerequisites@.len(),
{
    assert(r.standard@.class == r.standard.class);
    assert(r.sealed@ is Unavailable);
    let listed = r.sealed->prerequisites;
    assert(crate::model::texts(listed@).len() == listed@.len());
}

/// A standard execution claims a released target and what was given back, and nothing of a
/// sealed boundary.
pub proof fn standard_executions_claim_no_seal(
    backend: &BackendInfo,
    facts: BackendCleanupFacts,
    r: (LaunchEvidence, RestartSafetyProof, BoundaryMechanismEvidence),
)
    requires
        call_ensures(standard_execution_evidence, (backend, facts), r),
    ensures
        r.0.target_released,
        r.0.mechanism@ == backend.boundary_support.standard.mechanism@,
        r.0.boundary_requested == BoundaryRequirement::Standard && r.0.boundary_effective
            == BoundaryClass::Standard,
        !r.0.boundary_assignment_verified && !r.0.boundary_reconfiguration_denied
            && !r.0.inherited_resources_restricted
            && !r.0.frontend_loss_cleanup_authority_verified,
        r.0.containment_verified_before_authorization
            == backend.boundary_support.standard.boundary_verified_before_authorization,
        r.1.direct_child_reaped == facts.direct_child_reaped && r.1.workload_empty
            == facts.workload_empty && r.1.helpers_reaped == facts.helpers_reaped
            && r.1.containment_removed == facts.containment_removed,
        !r.1.sealed_boundary_retired,
        r.2 matches BoundaryMechanismEvidence::Standard { backend: named } && named@
            == backend.name@,
{
    assert(r.0@.target_released == r.0.target_released);
    assert(r.1@.direct_child_reaped == r.1.direct_child_reaped);
}

/// A span from now on that the supervision bounds ends at its end or at the span's, whichever
/// is first; a grace is cut to what is left.
pub proof fn spans_end_with_the_supervision(
    context: AttemptContext,
    now: Duration,
    span: Duration,
    end: Duration,
    grace: Duration,
)
    requires
        call_ensures(AttemptContext::clamp_deadline, (context, now, span), end),
        call_ensures(AttemptContext::clamp_grace, (context, span, now), grace),
        now@ + span@ <= crate::time::MAX_NANOS,
    ensures
        context.supervision_deadline_remaining is None ==> end@ == now@ + span@ && grace@ == span@,
        context.supervision_deadline_remaining matches Some(left) ==> {
            &&& end@ <= left@ && end@ <= now@ + span@ && (end@ == left@ || end@ == now@ + span@)
            &&& grace@ <= span@ && (now@ + span@ <= left@ ==> grace@ == span@)
            &&& now@ <= left@ < now@ + span@ ==> now@ + grace@ == left@
            &&& left@ < now@ ==> grace@ == 0
        },
{
}

} // verus!
