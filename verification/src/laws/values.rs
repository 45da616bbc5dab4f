//! Errors, copies, bytes and sets.

use vstd::prelude::*;

use crate::backend::Execution;
use crate::bytes::{
    get_le16, get_le32, put_be16, put_be32, put_be64, put_le16, put_le32, put_le64, same_bytes,
    slice_of,
};
use crate::evidence::{
    Error, ErrorCategory, LaunchEvidence, ProviderRejectionEvidence, RestartSafetyProof, RunOutcome,
};
use crate::linux_launch::{helper_setup_error, record_failure_cleanup, setup_io, spawn_error};
use crate::macos_deadline::{boot_identity, retirement_mutation_probe};
use crate::macos_envelope::{
    capture_admitted, capture_descriptor, capture_offered, capture_waited, is_table_size, largest,
    manifest_length, private_floor, WorkerEvent,
};
use crate::macos_guardian::{Custody, LaneName};
use crate::macos_inventory::{
    pid_inventory_reply, positive, signal_sent, Identities, ProcessIdentity,
};
use crate::macos_recovery::Recovery;
use crate::macos_watchdog::{pending_inventory_turn_wait, WatchAction, WatchStage, Watchdog};
use crate::model::{CleanupErrorRecord, CleanupSummary, Fault, FaultKind};
use crate::signal::{Admission, SignalSource};
use crate::supervise::{attempt_execution, AttemptExecution};
use crate::time::Duration;

verus! {

/// A new error says what it is given, and claims nothing of a target.
pub proof fn new_errors_claim_nothing(
    category: ErrorCategory,
    code: &'static str,
    message: String,
    r: Error,
    fault: &Fault,
    f: Error,
)
    requires
        call_ensures(Error::new, (category, code, message), r),
        call_ensures(Error::of_fault, (category, code, fault), f),
    ensures
        r.category == category && r.code == code && r.message@ == message@ && r.os_code is None,
        !r.target_released && !r.workload_may_be_alive && r.target_pid is None && r.restart_safety
            is None && r.provider_rejection is None && r.initial_spawn_failure is None,
        f.category == category && f.code == code && f.os_code == fault.os_code && f.message@
            == fault.text.chars() && !f.target_released,
{
    assert(r@.category == r.category && r@.code == r.code && r@.message == r.message@);
    assert(r@.os_code == r.os_code && r@.target_released == r.target_released);
    assert(r@.workload_may_be_alive == r.workload_may_be_alive && r@.target_pid == r.target_pid);
    assert(r@.restart_safety is None && r@.provider_rejection is None);
    assert(r@.initial_spawn_failure == r.initial_spawn_failure);
    assert(f@.category == f.category && f@.code == f.code && f@.message == f.message@);
    assert(f@.os_code == f.os_code && f@.target_released == f.target_released);
}

/// A copy is the same in every part.
pub proof fn copies_are_the_same(
    safety: &RestartSafetyProof,
    s: RestartSafetyProof,
    rejection: &ProviderRejectionEvidence,
    j: ProviderRejectionEvidence,
    launch: &LaunchEvidence,
    l: LaunchEvidence,
    set: &Identities,
    i: Identities,
)
    requires
        call_ensures(RestartSafetyProof::duplicate, (safety,), s),
        call_ensures(ProviderRejectionEvidence::duplicate, (rejection,), j),
        call_ensures(LaunchEvidence::duplicate, (launch,), l),
        call_ensures(Identities::duplicate, (set,), i),
    ensures
        s.direct_child_reaped == safety.direct_child_reaped && s.workload_empty
            == safety.workload_empty && s.helpers_reaped == safety.helpers_reaped
            && s.containment_removed == safety.containment_removed
            && s.containment_incapable_of_live_members
            == safety.containment_incapable_of_live_members && s.sealed_boundary_retired
            == safety.sealed_boundary_retired,
        j.code@ == rejection.code@ && j.os_code == rejection.os_code && j.target_created
            == rejection.target_created && j.target_released == rejection.target_released
            && j.phase == rejection.phase && j.detail@ == rejection.detail@,
        l.target_released == launch.target_released && l.boundary_effective
            == launch.boundary_effective && l.boundary_requested == launch.boundary_requested
            && l.mechanism@ == launch.mechanism@ && l.boundary_assignment_verified
            == launch.boundary_assignment_verified,
        i@ == set@,
{
    assert(s@.direct_child_reaped == s.direct_child_reaped);
    assert(j@.code == j.code@ && j@.target_created == j.target_created);
    assert(l@.target_released == l.target_released);
}

/// An outcome's cleanup can be added to without changing what came out.
pub proof fn outcomes_keep_what_came_out(
    a: &mut RunOutcome,
    record: CleanupErrorRecord,
    b: &mut RunOutcome,
    reaped: bool,
    o: &RunOutcome,
    c: &CleanupSummary,
)
    requires
        call_ensures(RunOutcome::add_error, (a, record), ()),
        call_ensures(RunOutcome::set_reaped, (b, reaped), ()),
        call_ensures(RunOutcome::cleanup, (o,), c),
    ensures
        final(a)@ == old(a)@ && final(b)@ == old(b)@,
        final(a).cleaned().errors.len() == old(a).cleaned().errors.len() + 1 && final(
            a).cleaned().errors.last() == record,
        final(a).cleaned().direct_child_reaped == old(a).cleaned().direct_child_reaped,
        final(b).cleaned().direct_child_reaped == reaped && final(b).cleaned().errors == old(
            b).cleaned().errors,
        c@ == o.cleaned(),
{
}

/// A failure in setting up keeps the system's number; one of the command's own start says
/// why; what was cleaned up after it is what it proves.
pub proof fn setup_failures_keep_their_number(
    fault: &Fault,
    r: Error,
    code: &'static str,
    executable: &str,
    h: Error,
    program: &str,
    s: Error,
    failure: &mut Error,
    cleanup: CleanupSummary,
    helpers: bool,
    removed: bool,
)
    requires
        call_ensures(setup_io, (fault,), r),
        call_ensures(helper_setup_error, (code, executable, fault), h),
        call_ensures(spawn_error, (fault, program), s),
        call_ensures(record_failure_cleanup, (failure, cleanup, helpers, removed), ()),
    ensures
        r.os_code == fault.os_code && r.code == "MCSETUP-CGROUP",
        h.os_code == fault.os_code && h.code == code,
        s.os_code == fault.os_code,
        final(failure)@.code == old(failure)@.code && final(failure)@.target_released == old(
            failure)@.target_released,
        final(failure)@.restart_safety matches Some(safety) && safety.direct_child_reaped
            == cleanup.direct_child_reaped && safety.workload_empty == cleanup.workload_empty
            && safety.helpers_reaped == helpers && safety.containment_removed == removed && (
        safety.containment_incapable_of_live_members <==> cleanup.workload_empty == Some(true))
            && !safety.sealed_boundary_retired,
        final(failure)@.cleanup == cleanup@,
{
    assert(r@.os_code == r.os_code && r@.code == r.code);
    assert(h@.os_code == h.os_code && h@.code == h.code);
    assert(s@.os_code == s.os_code);
    assert(cleanup@.direct_child_reaped == cleanup.direct_child_reaped);
    assert(cleanup@.workload_empty == cleanup.workload_empty);
}

/// An execution counts only where its evidence is consistent, and as it is.
pub proof fn executions_count_where_consistent(
    execution: Execution,
    consistent: bool,
    r: Result<AttemptExecution, Error>,
)
    requires
        call_ensures(attempt_execution, (execution, consistent), r),
    ensures
        r is Ok <==> consistent,
        r matches Ok(attempt) ==> attempt.execution == execution && attempt.launch@
            == execution.launch@ && attempt.restart_safety@ == execution.restart_safety@,
        r matches Err(error) ==> error@.code == "MCBOUNDARY-EVIDENCE",
{
}

/// Numbers are put as bytes, the high one first, behind what is there.
pub proof fn high_bytes_come_first(
    a: &mut Vec<u8>,
    n: u16,
    b: &mut Vec<u8>,
    m: u32,
    c: &mut Vec<u8>,
    k: u64,
)
    requires
        call_ensures(put_be16, (a, n), ()),
        call_ensures(put_be32, (b, m), ()),
        call_ensures(put_be64, (c, k), ()),
    ensures
        ({
            let i = old(a)@.len() as int;
            let s = final(a)@;
            s.len() == i + 2 && s.take(i) == old(a)@ && s[i] * 256 + s[i + 1] == n
        }),
        ({
            let i = old(b)@.len() as int;
            let s = final(b)@;
            s.len() == i + 4 && s.take(i) == old(b)@ && ((s[i] * 256 + s[i + 1]) * 256 + s[i + 2])
                * 256 + s[i + 3] == m
        }),
        ({
            let i = old(c)@.len() as int;
            let s = final(c)@;
            s.len() == i + 8 && s.take(i) == old(c)@ && (((s[i] * 256 + s[i + 1]) * 256 + s[i + 2])
                * 256 + s[i + 3]) * 4294967296 + ((s[i + 4] * 256 + s[i + 5]) * 256 + s[i + 6])
                * 256 + s[i + 7] == k
        }),
{
    let i = old(a)@.len() as int;
    let s = final(a)@;
    crate::bytes::be16_round(n);
    assert(s.take(i) =~= old(a)@);
    assert(s[i] == crate::bytes::be16(n)[0] && s[i + 1] == crate::bytes::be16(n)[1]);
    let j = old(b)@.len() as int;
    let t = final(b)@;
    crate::bytes::be32_round(m);
    let e = crate::bytes::be32(m);
    assert(t.take(j) =~= old(b)@);
    assert(t[j] == e[0] && t[j + 1] == e[1] && t[j + 2] == e[2] && t[j + 3] == e[3]);
    let l = old(c)@.len() as int;
    let u = final(c)@;
    let high = (k / 4294967296) as u32;
    let low = (k % 4294967296) as u32;
    crate::bytes::be32_round(high);
    crate::bytes::be32_round(low);
    let g = crate::bytes::be32(high);
    let h = crate::bytes::be32(low);
    assert(u.take(l) =~= old(c)@);
    assert(u[l] == g[0] && u[l + 1] == g[1] && u[l + 2] == g[2] && u[l + 3] == g[3]);
    assert(u[l + 4] == h[0] && u[l + 5] == h[1] && u[l + 6] == h[2] && u[l + 7] == h[3]);
}

/// Numbers that are put with the low byte first are got back.
pub proof fn low_bytes_come_first(
    a: &mut Vec<u8>,
    n: u16,
    x: &[u8],
    got: u16,
    b: &mut Vec<u8>,
    m: u32,
    y: &[u8],
    taken: u32,
    c: &mut Vec<u8>,
    k: u64,
)
    requires
        call_ensures(put_le16, (a, n), ()),
        x@ == final(a)@ && old(a)@.len() <= 1_000_000,
        call_ensures(get_le16, (x, old(a)@.len() as usize), got),
        call_ensures(put_le32, (b, m), ()),
        y@ == final(b)@ && old(b)@.len() <= 1_000_000,
        call_ensures(get_le32, (y, old(b)@.len() as usize), taken),
        call_ensures(put_le64, (c, k), ()),
    ensures
        got == n && taken == m,
        final(a)@.len() == old(a)@.len() + 2 && final(a)@[old(a)@.len() as int] == n % 256,
        final(b)@.len() == old(b)@.len() + 4 && final(b)@[old(b)@.len() as int] == m % 256,
        final(c)@.len() == old(c)@.len() + 8 && final(c)@[old(c)@.len() as int] == k % 256
            && final(c)@.take(old(c)@.len() as int) == old(c)@,
{
    let i = old(a)@.len() as int;
    crate::bytes::le16_round(n);
    assert(x@[i] == crate::bytes::le16(n)[0] && x@[i + 1] == crate::bytes::le16(n)[1]);
    let j = old(b)@.len() as int;
    crate::bytes::le32_round(m);
    let e = crate::bytes::le32(m);
    assert(y@[j] == e[0] && y@[j + 1] == e[1] && y@[j + 2] == e[2] && y@[j + 3] == e[3]);
    let l = old(c)@.len() as int;
    let low = (k % 4294967296) as u32;
    assert(final(c)@[l] == crate::bytes::le32(low)[0]);
    assert(final(c)@.take(l) =~= old(c)@);
    assert(low % 256 == k % 256) by {
        assert((k % 4294967296) % 256 == k % 256);
    }
}

/// A part of bytes is what stands there, and bytes are the same just where all of them are.
pub proof fn parts_are_what_stands_there(
    bytes: &[u8],
    from: usize,
    to: usize,
    r: Vec<u8>,
    other: &[u8],
    same: bool,
)
    requires
        from <= to <= bytes@.len(),
        call_ensures(slice_of, (bytes, from, to), r),
        call_ensures(same_bytes, (bytes, other), same),
    ensures
        r@.len() == to - from,
        forall|i: int| 0 <= i < r@.len() ==> #[trigger] r@[i] == bytes@[from + i],
        same <==> bytes@.len() == other@.len() && (forall|i: int|
            0 <= i < bytes@.len() ==> #[trigger] bytes@[i] == other@[i]),
{
    if bytes@.len() == other@.len() && (forall|i: int|
        0 <= i < bytes@.len() ==> #[trigger] bytes@[i] == other@[i]) {
        assert(bytes@ =~= other@);
    }
}

/// A set of processes holds what was put into it, and nothing else; two starts under one
/// number are two processes.
pub proof fn sets_hold_what_was_put_in(
    a: &mut Identities,
    x: ProcessIdentity,
    r: bool,
    y: ProcessIdentity,
    b: &mut Identities,
    other: &Identities,
    grew: bool,
    s: &Identities,
    held: bool,
    pid: i32,
    has: bool,
    fresh: Identities,
)
    requires
        call_ensures(Identities::insert, (a, x), r),
        call_ensures(Identities::extend, (b, other), grew),
        call_ensures(Identities::contains, (s, y), held),
        call_ensures(Identities::has, (s, pid), has),
        call_ensures(Identities::new, (), fresh),
    ensures
        r <==> !old(a)@.contains(x),
        final(a)@.contains(y) <==> y == x || old(a)@.contains(y),
        final(b)@.contains(y) <==> old(b)@.contains(y) || other@.contains(y),
        !grew ==> (other@.contains(y) ==> old(b)@.contains(y)),
        held <==> s@.contains(y),
        held && y.pid == pid ==> has,
        !fresh@.contains(y),
{
    if held && y.pid == pid {
        assert(s@.contains(y) && y.pid == pid);
    }
}

/// A listing that is full, torn, or failed is refused; of another the positive numbers count.
pub proof fn listings_are_whole(
    kind: u32,
    pids: &Vec<i32>,
    filled: i32,
    errno: i32,
    text: String,
    r: Result<Vec<i32>, String>,
    pid: i32,
    sent: Result<(), Fault>,
    s: Result<(), String>,
)
    requires
        pids@.len() <= 1_000_000,
        call_ensures(pid_inventory_reply, (kind, pids, filled, errno, text), r),
        call_ensures(signal_sent, (sent,), s),
    ensures
        r is Ok <==> filled >= 0 && (filled > 0 || errno == 0 && kind != 1) && filled % 4 == 0
            && filled < pids@.len() * 4,
        r matches Ok(list) ==> (list@.contains(pid) <==> pid > 0 && pids@.take(
            filled as int / 4,
        ).contains(pid)),
        s is Ok <==> sent is Ok || sent->Err_0.os_code == Some(3i32),
{
    if r is Ok {
        positives_are_kept(pids@.take(filled as int / 4), pid);
    }
}

proof fn positives_are_kept(list: Seq<i32>, pid: i32)
    ensures
        positive(list).contains(pid) <==> pid > 0 && list.contains(pid),
    decreases list.len(),
{
    if list.len() > 0 {
        let front = list.drop_last();
        positives_are_kept(front, pid);
        let before = positive(front);
        let all = positive(list);
        let last = list[list.len() - 1];
        assert(last == list.last());
        if list.contains(pid) {
            let i = choose|i: int| 0 <= i < list.len() && list[i] == pid;
            if i < front.len() {
                assert(front[i] == pid);
            }
        }
        if front.contains(pid) {
            let i = choose|i: int| 0 <= i < front.len() && front[i] == pid;
            assert(list[i] == pid);
        }
        if before.contains(pid) {
            let k = choose|k: int| 0 <= k < before.len() && before[k] == pid;
            assert(all[k] == pid);
        }
        if last == pid && pid > 0 {
            assert(all[before.len() as int] == pid);
        }
        if all.contains(pid) {
            let k = choose|k: int| 0 <= k < all.len() && all[k] == pid;
            if k < before.len() {
                assert(before[k] == pid);
            }
        }
    }
}

/// A recovery takes over what the guardian had; the emergency inspector's word counts, and
/// the other's only adds to it; what failed shows nothing empty.
pub proof fn recoveries_take_over(
    custody: Custody,
    fresh: Recovery,
    a: &mut Recovery,
    shows: bool,
    found: Identities,
    b: &mut Recovery,
    c: &mut Recovery,
    lane: LaneName,
    reaped: bool,
    d: &Recovery,
    go: bool,
)
    requires
        call_ensures(Recovery::begin, (custody,), fresh),
        call_ensures(Recovery::lane_replied, (a, LaneName::Emergency, shows, found), ()),
        call_ensures(Recovery::lane_replied, (b, LaneName::Normal, shows, found), ()),
        call_ensures(Recovery::lane_failed, (c, lane, reaped), ()),
        call_ensures(Recovery::inspectors_may_go, (d,), go),
    ensures
        fresh.target == custody.state.target && !fresh.empty && fresh.known == custody.known,
        final(a).empty == shows && final(a).known@ == found@,
        final(b).empty ==> old(b).empty,
        old(b).known@.subset_of(final(b).known@) && found@.subset_of(final(b).known@),
        !final(c).empty && final(c).known == old(c).known,
        go <==> d.empty && !d.normal.pending && !d.emergency.pending,
{
}

proof fn the_largest_is_above(list: Seq<i32>, n: nat)
    requires
        n <= list.len(),
    ensures
        forall|i: int| 0 <= i < n ==> #[trigger] list[i] <= largest(list, n),
        n > 0 ==> exists|i: int| 0 <= i < n && #[trigger] list[i] == largest(list, n),
    decreases n,
{
    if n > 0 {
        the_largest_is_above(list, (n - 1) as nat);
        assert(list[n - 1] <= largest(list, n));
        if largest(list, n) != list[n - 1] {
            let i = choose|i: int|
                0 <= i < n - 1 && #[trigger] list[i] == largest(list, (n - 1) as nat);
            assert(list[i] == largest(list, n));
        } else {
            assert(list[n - 1] == largest(list, n));
        }
    }
}

/// Private descriptors stand just above all that the target gets.
pub proof fn private_descriptors_stand_above(destinations: &Vec<i32>, r: Result<i32, Fault>, i: int)
    requires
        call_ensures(private_floor, (destinations,), r),
        0 <= i < destinations@.len(),
    ensures
        r is Ok ==> r->Ok_0 > destinations@[i] && exists|j: int|
            0 <= j < destinations@.len() && #[trigger] destinations@[j] + 1 == r->Ok_0,
        r is Err <==> exists|j: int|
            0 <= j < destinations@.len() && #[trigger] destinations@[j] == i32::MAX,
{
    let n = destinations@.len();
    the_largest_is_above(destinations@, n);
    let j = choose|j: int| 0 <= j < n && #[trigger] destinations@[j] == largest(destinations@, n);
    if r is Err {
        assert(destinations@[j] == i32::MAX);
    } else {
        assert(destinations@[j] + 1 == r->Ok_0);
        if exists|k: int| 0 <= k < n && #[trigger] destinations@[k] == i32::MAX {
            let k = choose|k: int| 0 <= k < n && #[trigger] destinations@[k] == i32::MAX;
            assert(destinations@[k] <= largest(destinations@, n));
        }
    }
}

/// What is captured of a caller is what stays open, within bounds and in time.
pub proof fn captures_are_bounded(
    limit: i32,
    table: Result<(), Fault>,
    closes: bool,
    captured: usize,
    c: Result<bool, Fault>,
    length: usize,
    m: Result<(), Fault>,
    expired: bool,
    accepted: Result<bool, Fault>,
    busy: Result<bool, Fault>,
    gone: Result<bool, Fault>,
    waited: Result<bool, Fault>,
    admitted: Result<(), Fault>,
)
    requires
        call_ensures(is_table_size, (limit,), table),
        call_ensures(capture_descriptor, (closes, captured), c),
        call_ensures(manifest_length, (length,), m),
        call_ensures(capture_offered, (WorkerEvent::Accepted, expired), accepted),
        call_ensures(capture_offered, (WorkerEvent::Busy, expired), busy),
        call_ensures(capture_offered, (WorkerEvent::Gone, expired), gone),
        call_ensures(capture_waited, (WorkerEvent::Accepted, expired), waited),
        call_ensures(capture_admitted, (expired,), admitted),
    ensures
        table is Ok <==> 3 <= limit <= 1048576,
        closes ==> c == Ok::<bool, Fault>(false),
        !closes && c is Ok ==> c == Ok::<bool, Fault>(true),
        accepted == Ok::<bool, Fault>(true),
        busy is Err <==> expired,
        !expired ==> busy == Ok::<bool, Fault>(false),
        gone is Err,
        waited is Ok <==> !expired,
        admitted is Ok <==> !expired,
{
}

/// Cleanup has three seconds from force on, whatever the work had left.
pub proof fn retirement_is_counted_from_force(
    force: u64,
    observed: u64,
    work_expiry: u64,
    r: Result<Duration, Fault>,
    mutant: Result<Duration, Fault>,
)
    requires
        call_ensures(retirement_mutation_probe, (force, observed, work_expiry, false), r),
        call_ensures(retirement_mutation_probe, (force, observed, work_expiry, true), mutant),
        force + 3_000_000_000 <= u64::MAX,
    ensures
        r is Ok && mutant is Ok,
        observed <= force + 3_000_000_000 ==> r->Ok_0@ == force + 3_000_000_000 - observed,
        observed > force + 3_000_000_000 ==> r->Ok_0@ == 0,
        mutant->Ok_0@ <= r->Ok_0@,
        observed >= work_expiry ==> mutant->Ok_0@ == 0,
{
}

/// A boot's identity is text that ends with the only zero of its bytes.
pub proof fn boots_are_named_by_text(bytes: &[u8], length: usize, r: Result<String, Fault>)
    requires
        call_ensures(boot_identity, (bytes, length), r),
    ensures
        r is Ok ==> 2 <= length <= bytes@.len() && bytes@[length - 1] == 0 && (forall|i: int|
            0 <= i < length - 1 ==> #[trigger] bytes@[i] != 0) && vstd::utf8::valid_utf8(
            bytes@.take(length - 1),
        ) && r->Ok_0@ == vstd::utf8::decode_utf8(bytes@.take(length - 1)),
        2 <= length <= bytes@.len() && bytes@[length - 1] == 0 && (forall|i: int|
            0 <= i < length - 1 ==> #[trigger] bytes@[i] != 0) && vstd::utf8::valid_utf8(
            bytes@.take(length - 1),
        ) ==> r is Ok,
{
    if 2 <= length <= bytes@.len() {
        let value = bytes@.take(length - 1);
        if value.contains(0u8) {
            let i = choose|i: int| 0 <= i < value.len() && value[i] == 0;
            assert(bytes@[i] == 0);
        } else {
            assert forall|i: int| 0 <= i < length - 1 implies #[trigger] bytes@[i] != 0 by {
                assert(value[i] == bytes@[i]);
                if value[i] == 0 {
                    assert(value.contains(0u8));
                }
            }
        }
    }
}

/// A watch looks no longer than its deadline allows: a quarter of a second at a time, a tenth
/// at first; a query that could not be asked is decided on as a failure.
pub proof fn looks_are_short(
    w: &Watchdog,
    now: Duration,
    look: Duration,
    first: Duration,
    poll: Duration,
    left: Duration,
    wait: Duration,
    a: &mut Watchdog,
    begun: Result<u64, String>,
    r: WatchAction,
)
    requires
        crate::macos_watchdog::is_near(now@),
        call_ensures(Watchdog::inspection_deadline, (w, now), look),
        call_ensures(Watchdog::first_look_deadline, (w, now), first),
        call_ensures(pending_inventory_turn_wait, (poll, left), wait),
        old(a).wf() && old(a).stage == WatchStage::Begin,
        call_ensures(Watchdog::begun, (a, begun), r),
    ensures
        look@ <= now@ + 250_000_000 && first@ <= now@ + 100_000_000 && first@ <= look@,
        w.policy.deadline is None ==> look@ == now@ + 250_000_000 && first@ == now@ + 100_000_000,
        poll@ >= 1_000_000 ==> wait@ <= poll@,
        poll@ < 1_000_000 ==> wait@ == 1_000_000 || wait@ < 1_000_000,
        begun matches Ok(query) ==> r == WatchAction::Poll(query) && final(a).query == Some(query),
        begun is Err ==> r == WatchAction::ReadClock && final(a).stage == WatchStage::Decide,
{
}

/// A launch is admitted where nothing happened before it; the next attempt forgets that one
/// was admitted, and not the signal; the first sight of one is kept.
pub proof fn admissions_are_taken_once(
    a: &mut Admission,
    r: Result<(), Fault>,
    b: &mut Admission,
    again: Result<(), Fault>,
    c: &mut Admission,
    d: &mut Admission,
    now: u64,
    at: u64,
)
    requires
        call_ensures(Admission::commit, (a,), r),
        *old(b) == *final(a),
        call_ensures(Admission::commit, (b,), again),
        call_ensures(Admission::next_attempt, (c,), ()),
        call_ensures(Admission::observed_at, (d, now), at),
    ensures
        r is Ok <==> old(a).word == 0,
        again is Err,
        r is Err ==> *final(a) == *old(a),
        old(a).word % 2147483648 != 0 ==> (r matches Err(fault) && fault.kind
            == FaultKind::Interrupted),
        final(c).word == old(c).word % 2147483648,
        old(d).observed == 0 ==> at == now,
        old(d).observed != 0 ==> at == old(d).observed,
        final(d).observed == at,
{
}

/// A session takes three signals one after the other: the interrupt, the request to end and
/// the hang-up; it belongs to one owner.
pub proof fn sessions_take_three_signals(
    taken: bool,
    r: Result<(SignalSource, Admission), Fault>,
    s: &SignalSource,
    next: Option<i32>,
    a: &mut SignalSource,
)
    requires
        call_ensures(SignalSource::install, (taken,), r),
        s.wf(),
        call_ensures(SignalSource::next, (s,), next),
        old(a).wf() && old(a).installed@.len() < 3,
        call_ensures(SignalSource::installed, (a,), ()),
    ensures
        r is Ok <==> !taken,
        r matches Ok((source, admission)) ==> source.owned && source.installed@.len() == 0
            && admission.word == 0 && !admission.used,
        s.installed@.len() == 0 ==> next == Some(2i32),
        s.installed@.len() == 1 ==> next == Some(15i32),
        s.installed@.len() == 2 ==> next == Some(1i32),
        s.installed@.len() >= 3 ==> next is None,
        final(a).installed@.len() == old(a).installed@.len() + 1 && final(a).owned == old(a).owned,
{
}

} // verus!
