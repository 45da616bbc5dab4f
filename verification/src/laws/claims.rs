//! What evidence claims, and where answers are refused.

use vstd::prelude::*;

use crate::backend::{BackendInfo, Execution};
use crate::evidence::{BoundarySetupPhase, Error};
use crate::linux_cgroup::unified_membership;
use crate::linux_delegation::{ends_of, Delegation};
use crate::macos_child::ChildTable;
use crate::macos_deadline::continuous_nanos;
use crate::macos_frontend::{held_back, lease_usable, query_due, Lease};
use crate::macos_lane::{CodecEvent, InventoryLane, InventoryOutput};
use crate::macos_protocol::Message;
use crate::model::Fault;
use crate::policy::{BoundaryClass, BoundaryRequirement};
use crate::sealed::planned::{planned_request, SubmissionParts};
use crate::sealed::private::{
    validate_private_service_report, PrivateExpectedResultV2, PrivatePlanReceipt, PrivateReport,
    PrivateTerminalOutcome,
};
use crate::sealed::run::{terminal_revocation_error, terminal_spawn_error};
use crate::sealed::runtime::{access_fault, open_protected, AccessEntry, WindowsFileReading};
use crate::sealed::terminal::{TerminalExecFailureClass, TerminalReceipt};
use crate::sealed::windows::{run, WindowsTerminal};
use crate::sealed::windows_token::{
    checked_token_group_entries_range, checked_token_sid_range, token_user_sid, SidReading,
};
use crate::sealed::windows_wire::{encode_environment, WindowsEnvironmentEntry};
use crate::signal::CancellationHandle;
use crate::supervise::{supervise, SupervisorRequest};
use crate::supervision::Supervision;
use crate::supervisor::{unresolved_sealed, unsupported_capability, BackendCapabilityReport};

verus! {

/// A sealed run on Windows that is over claims every part of its boundary.
pub proof fn sealed_windows_runs_claim_all(
    terminal: WindowsTerminal,
    backend: BackendInfo,
    safe: bool,
    consistent: bool,
    r: Result<Execution, Error>,
)
    requires
        call_ensures(run, (terminal, backend, safe, consistent), r),
        r is Ok,
    ensures
        ({
            let launch = r->Ok_0.launch;
            &&& launch.target_released && launch.containment_verified_before_authorization
            &&& launch.guardian_started_before_authorization && launch.target_spawn_error_reported
            &&& launch.boundary_requested == BoundaryRequirement::Sealed
            &&& launch.boundary_effective == BoundaryClass::Sealed
            &&& launch.boundary_assignment_verified && launch.boundary_reconfiguration_denied
            &&& launch.inherited_resources_restricted
            &&& launch.frontend_loss_cleanup_authority_verified
            &&& launch.mechanism@ == "windows-job-object-v2"@
        }),
{
    let launch = r->Ok_0.launch;
    assert(launch@.target_released == launch.target_released);
    assert(launch@.guardian_started_before_authorization
        == launch.guardian_started_before_authorization);
}

/// A target that could not be started was created, released and cleaned up after, and needs
/// no acknowledgment; so it is told both as a rejection and as a failure of the boundary.
pub proof fn failed_targets_were_released(
    terminal: &TerminalReceipt,
    class: TerminalExecFailureClass,
    os_code: i32,
    safe: bool,
    r: Error,
    v: Error,
)
    requires
        call_ensures(terminal_spawn_error, (terminal, class, os_code, safe), r),
        call_ensures(terminal_revocation_error, (terminal, safe), v),
    ensures
        r.provider_rejection matches Some(told) && told.target_created && told.target_released
            && told.cleanup_attempted && !told.terminal_ack_required && told.os_code == Some(os_code)
            && told.schema_version == 1 && told.phase == BoundarySetupPhase::TargetCreation,
        r.boundary_setup_failure matches Some(told) && told.target_created && told.target_released
            && told.cleanup_attempted && told.requested == BoundaryRequirement::Sealed && told.phase
            == BoundarySetupPhase::TargetCreation,
        v.boundary_setup_failure matches Some(told) && told.target_created && told.target_released
            && told.cleanup_attempted && told.phase == BoundarySetupPhase::Retirement,
        r.restart_safety matches Some(proof) && proof.direct_child_reaped
            == terminal.facts.init_reaped && proof.workload_empty == Some(
            terminal.facts.cgroup_empty,
        ) && proof.helpers_reaped == (terminal.facts.init_reaped && terminal.facts.guardian_reaped)
            && proof.containment_removed == terminal.facts.boundary_retired
            && proof.sealed_boundary_retired == terminal.facts.boundary_retired,
        r.guardian_ready_before_release == terminal.facts.guardian_ready,
{
    assert(r@.provider_rejection is Some && r@.boundary_setup_failure is Some);
    assert(v@.boundary_setup_failure is Some);
    assert(r@.restart_safety is Some);
    assert(r@.guardian_ready_before_release == r.guardian_ready_before_release);
}

/// Without a provider a sealed target was neither created nor released, and nothing was
/// cleaned up or proved; an unknown backend claims nothing of a boundary.
pub proof fn unresolved_boundaries_claim_nothing(r: Error, b: BackendCapabilityReport)
    requires
        call_ensures(unresolved_sealed, (), r),
        call_ensures(unsupported_capability, (), b),
    ensures
        r.code == "MCBOUNDARY-UNSUPPORTED" && !r.target_released && !r.workload_may_be_alive,
        r.boundary_setup_failure matches Some(told) && !told.target_created && !told.target_released
            && !told.cleanup_attempted && told.requested == BoundaryRequirement::Sealed
            && told.mechanism is None,
        r.restart_safety matches Some(proof) && !proof.direct_child_reaped
            && !proof.containment_removed && !proof.sealed_boundary_retired,
        !b.boundary.target_gated && !b.boundary.boundary_verified_before_authorization
            && !b.boundary.target_can_reconfigure_boundary
            && !b.boundary.frontend_loss_cleanup_authority && !b.boundary.workload_empty_proof,
        !b.persistent_restart_state && b.deadline_scopes@.len() == 0 && b.deadline_origin is None,
        b.boundary_qualification is None,
{
    assert(r@.code == r.code && r@.target_released == r.target_released);
    assert(r@.workload_may_be_alive == r.workload_may_be_alive);
    assert(r@.boundary_setup_failure is Some && r@.restart_safety is Some);
    assert(b@.boundary.target_gated == b.boundary.target_gated);
    assert(b@.deadline_scopes.len() == b.deadline_scopes@.len());
    assert(b@.boundary_qualification is None);
}

/// Ticks are told in nanoseconds by the clock's own ratio, rounded down, where the ratio is
/// known and they fit.
pub proof fn ticks_are_told_in_nanoseconds(
    result: i32,
    ticks: u64,
    numer: u32,
    denom: u32,
    r: Result<u64, Fault>,
)
    requires
        call_ensures(continuous_nanos, (result, ticks, numer, denom), r),
    ensures
        result != 0 || denom == 0 ==> r is Err,
        r matches Ok(n) ==> n * denom <= ticks * numer && ticks * numer < (n + 1) * denom,
        result == 0 && denom > 0 && ticks * numer <= u64::MAX ==> r is Ok,
{
    if denom > 0 {
        let all = ticks as nat * numer as nat;
        let d = denom as nat;
        let q = all / d;
        assert(q * d <= all && all < (q + 1) * d && q <= all) by (nonlinear_arith)
            requires
                d > 0,
                q == all / d,
        ;
        assert(all == ticks * numer);
        assert(q * d == q * denom && (q + 1) * d == (q + 1) * denom);
    }
}

/// Only the two messages that hold a creation back do so, and the second one alone lets it go
/// after a cancellation; a lease is of use while it is held.
pub proof fn creations_are_held_back_when_asked(
    first: &Option<Message>,
    r: Option<bool>,
    lease: Lease,
    l: Result<(), Fault>,
    expired: bool,
    q: Result<(), &'static str>,
)
    requires
        call_ensures(held_back, (first,), r),
        call_ensures(lease_usable, (lease,), l),
        call_ensures(query_due, (expired,), q),
    ensures
        r == Some(false) <==> *first == Some(Message::HoldSpawn),
        r == Some(true) <==> *first == Some(Message::HoldSpawnReleaseAfterCancel),
        l is Ok <==> lease is Held,
        q is Ok <==> !expired,
{
}

/// A new handle has served no run and has seen no signal.
pub proof fn new_handles_are_unused(h: CancellationHandle)
    requires
        call_ensures(CancellationHandle::new, (), h),
    ensures
        h.admission.word == 0 && h.admission.observed == 0 && !h.admission.used,
{
}

/// A request takes its contract and its launch up to 65536 bytes each, and no more.
pub proof fn requests_hold_bounded_parts(
    plan: &PrivatePlanReceipt,
    parts: SubmissionParts,
    r: Result<Vec<u8>, String>,
)
    requires
        call_ensures(planned_request, (plan, false, parts), r),
    ensures
        r is Ok <==> parts.launch is Ok && parts.contract is Ok && parts.contract_digest is Ok
            && parts.launch->Ok_0@.len() <= 65536 && parts.contract->Ok_0@.len() <= 65536,
{
}

/// A supervision begins only with a backend, where one is resolved, that is named and has the
/// boundary asked for, and without one only for the standard boundary.
pub proof fn supervisions_need_their_boundary(
    platform: crate::backend::Platform,
    request: SupervisorRequest,
    installed: Result<(), Fault>,
    controller: Result<(), String>,
    r: Result<Supervision, Error>,
)
    requires
        call_ensures(supervise, (platform, request, installed, controller), r),
    ensures
        r is Ok <==> platform != crate::backend::Platform::Other && installed is Ok && (
        request.restarts ==> controller is Ok) && (request.resolved_backend is None
            ==> request.policy.boundary == BoundaryRequirement::Standard) && (
        request.resolved_backend matches Some(backend) ==> backend.name@.len() > 0 && (
        request.policy.boundary == BoundaryRequirement::Sealed ==> backend.boundary.class
            == BoundaryClass::Sealed) && (request.policy.boundary == BoundaryRequirement::Standard
            ==> backend.boundary.class == BoundaryClass::Standard)),
        r matches Ok(supervision) ==> supervision.facts is None && supervision.outside is None
            && supervision.origin is None && supervision.total == 0
            && supervision.targets_authorized == 0 && supervision.backend
            == request.resolved_backend && supervision.policy == request.policy,
{
}

/// An environment goes out just where every name is there and no name or value holds a zero.
pub proof fn environments_hold_no_zero(
    entries: Vec<WindowsEnvironmentEntry>,
    r: Result<Vec<WindowsEnvironmentEntry>, &'static str>,
    i: int,
    k: int,
)
    requires
        call_ensures(encode_environment, (entries,), r),
        0 <= i < entries@.len(),
    ensures
        r is Ok ==> entries@[i].name@.len() > 0,
        r is Ok && 0 <= k < entries@[i].name@.len() ==> entries@[i].name@[k] != 0,
        r is Ok && 0 <= k < entries@[i].value@.len() ==> entries@[i].value@[k] != 0,
{
    if r is Ok {
        assert(crate::sealed::windows_wire::is_entry(entries@[i]));
    }
}

/// An identity's place is known just where all of it lies in the answer, and the answer in
/// its storage and in the addresses there are; the groups' place likewise.
pub proof fn places_are_known_within_the_answer(
    storage: &[u8],
    length: usize,
    base: u64,
    sid: u64,
    r: Result<(usize, usize), &'static str>,
    count: usize,
    g: Result<(usize, usize), &'static str>,
    reading: SidReading,
    u: Result<(usize, usize), &'static str>,
)
    requires
        storage@.len() <= isize::MAX,
        call_ensures(checked_token_sid_range, (storage, length, base, sid), r),
        call_ensures(checked_token_group_entries_range, (length, count), g),
        call_ensures(token_user_sid, (storage, length, base, reading), u),
    ensures
        r is Ok <==> length <= storage@.len() && base + length <= u64::MAX && base <= sid && sid - base
            + 8 <= length && sid - base + 8 + 4 * storage@[sid - base + 1] <= length,
        g is Ok <==> 8 + 16 * count <= length,
        length < 16 ==> u is Err,
        length > storage@.len() ==> u is Err,
{
}

/// A report that is taken where its command exited is taken with another outcome just where
/// the texts of that are there and short enough.
pub proof fn reported_outcomes_are_short(
    report: &PrivateReport,
    exited: &PrivateReport,
    attempt: &[u8],
    expected: &PrivateExpectedResultV2,
    r: Result<(), String>,
    e: Result<(), String>,
    text: &str,
    n: usize,
    detail: &str,
    m: usize,
)
    requires
        call_ensures(validate_private_service_report, (report, attempt, expected), r),
        call_ensures(validate_private_service_report, (exited, attempt, expected), e),
        *exited == (PrivateReport { outcome: PrivateTerminalOutcome::Exited, ..*report }),
        call_ensures(crate::text::byte_len, (text,), n),
        call_ensures(crate::text::byte_len, (detail,), m),
    ensures
        r is Ok ==> e is Ok,
        report.outcome matches PrivateTerminalOutcome::Interrupted { reason } ==> (reason@ == text@
            ==> (r is Ok <==> e is Ok && text@.len() > 0 && n <= 128)),
        report.outcome matches PrivateTerminalOutcome::NativeFailure { phase, detail: told } ==> (
        phase@ == text@ && told@ == detail@ ==> (r is Ok <==> e is Ok && text@.len() > 0 && n <= 128
            && detail@.len() > 0 && m <= 1024)),
{
}

/// The search for a marked group begins with the group above the process's own, which is the
/// one that its membership names below the mount point; the mount point itself, of three
/// components, is not searched.
pub proof fn searches_begin_above_the_own_group(
    membership: String,
    text: &str,
    found: Option<String>,
    require_memory: bool,
    r: Result<Delegation, String>,
)
    requires
        text@ == membership@,
        call_ensures(unified_membership, (text,), found),
        call_ensures(
            Delegation::begin,
            (Ok::<(), String>(()), Ok::<String, String>(membership), require_memory),
            r,
        ),
    ensures
        found is None ==> r is Err,
        found matches Some(relative) ==> {
            let depth = ends_of("/sys/fs/cgroup/"@ + relative@).len();
            &&& r is Ok <==> depth > 0 && depth != 4
            &&& r matches Ok(search) ==> search.current@ == "/sys/fs/cgroup/"@ + relative@
                && search.count + 1 == depth
        },
{
}

/// A lane whose encoder fails, answers out of turn or is gone is no longer encoding, and
/// nothing of it goes out; one that has nothing to say is asked again.
pub proof fn encoders_fail_for_good(
    a: &mut InventoryLane,
    fault: Fault,
    r: Result<bool, Fault>,
    b: &mut InventoryLane,
    gone: Result<bool, Fault>,
    c: &mut InventoryLane,
    nothing: Result<bool, Fault>,
    query: u64,
    payload: Vec<u8>,
    o: InventoryOutput,
)
    requires
        old(a).encoding && old(b).encoding && old(c).encoding,
        call_ensures(InventoryLane::encoder_said, (a, CodecEvent::Failed(fault)), r),
        call_ensures(InventoryLane::encoder_said, (b, CodecEvent::Gone), gone),
        call_ensures(InventoryLane::encoder_said, (c, CodecEvent::Nothing), nothing),
        call_ensures(InventoryOutput::from_payload, (query, payload), o),
    ensures
        r == Err::<bool, Fault>(fault) && !final(a).encoding && final(a).outgoing == old(
            a).outgoing && final(a).pending == old(a).pending,
        gone is Err && !final(b).encoding && final(b).outgoing == old(b).outgoing,
        nothing == Ok::<bool, Fault>(false) && *final(c) == *old(c),
        o.query == query && o.payload == payload && o.offset == 0 && o.frame@.len() == 0 && o.sent
            == 0 && o.budget == 0 && o.rounds == 0,
{
}

/// A child is due to be reaped just where it is owed, its place is not merely kept, and the
/// process that it depends on, if any, is not listed any more.
pub proof fn children_are_due_in_order(
    table: &ChildTable,
    at: usize,
    due: Option<i32>,
    i: int,
)
    requires
        table.wf() && at < table.slots@.len() && 0 <= i < table.slots@.len(),
        call_ensures(ChildTable::due, (table, at), due),
    ensures
        due is Some ==> table.slots@[at as int] < 0 && table.slots@[at as int] != i32::MIN,
        table.dependencies@[at as int] > 0 && (table.slots@[i] == table.dependencies@[at as int]
            || table.slots@[i] == -table.dependencies@[at as int]) ==> due is None,
        table.slots@[at as int] < 0 && table.slots@[at as int] != i32::MIN
            && table.dependencies@[at as int] <= 0 ==> due == Some((-table.slots@[at as int]) as i32),
        table.slots@[at as int] < 0 && table.slots@[at as int] != i32::MIN && (forall|k: int|
            0 <= k < table.slots@.len() ==> (#[trigger] table.slots@[k])
                != table.dependencies@[at as int] && table.slots@[k]
                != -table.dependencies@[at as int]) ==> due is Some,
{
}

proof fn plain_accesses_pass(entries: Seq<AccessEntry>, from: int)
    requires
        0 <= from <= entries.len(),
        forall|i: int|
            0 <= i < entries.len() ==> (#[trigger] entries[i]).kind == 0 && (entries[i].privileged
                || entries[i].mask & 0x500d0156 == 0),
    ensures
        access_fault(entries, from) is None,
    decreases entries.len() - from,
{
    if from < entries.len() {
        assert(entries[from].kind == 0);
        plain_accesses_pass(entries, from + 1);
    }
}

/// A regular Windows runtime file passes behind no reparse point, with a privileged owner and
/// an access list that grants change to privileged identities alone.
pub proof fn protected_windows_files_pass(reading: &WindowsFileReading, r: Result<(), &'static str>)
    requires
        call_ensures(open_protected, (reading,), r),
        reading.regular && reading.owner_privileged && reading.access is Some,
        forall|i: int| 0 <= i < reading.reparse@.len() ==> !(#[trigger] reading.reparse@[i]),
        forall|i: int|
            0 <= i < reading.access->0@.len() ==> (#[trigger] reading.access->0@[i]).kind == 0 && (
            reading.access->0@[i].privileged || reading.access->0@[i].mask & 0x500d0156 == 0),
    ensures
        r is Ok,
{
    plain_accesses_pass(reading.access->0@, 0);
}

} // verus!
