//! Aborts and shutdowns, and what the kernel's files say.

use vstd::prelude::*;

use crate::guardian::{Guardian, GuardianShutdown, ShutdownAction, ShutdownStage};
use crate::linux_cgroup::{
    counter_value, counters_of, membership_of, parse_key_values, parse_u64_file, unified_membership,
    Counter,
};
use crate::linux_cleanup::{group_killed, member_pids, pids_in, AbortAction, GatedAbort};
use crate::linux_delegation::{marker_path, probe_action, Delegation, DelegationAction, ProbeAction};
use crate::model::{CleanupSummary, Fault};
use crate::scan::{integer_in, lines_of_text, parse_i32, parse_number, trim, NumberFault};
use crate::text::signed_text;
use crate::time::Duration;

verus! {

/// An abort forces its way at once; what could not be killed is found, but not where it was
/// gone already.
pub proof fn aborts_use_force(
    pid: u32,
    group_kill: Result<(), Fault>,
    child_kill: Result<(), Fault>,
    deadline: Duration,
    r: GatedAbort,
)
    requires
        call_ensures(GatedAbort::begin, (pid, group_kill, child_kill, deadline), r),
    ensures
        r@.cleanup.force_attempted && !r@.cleanup.graceful_attempted
            && !r@.cleanup.direct_child_reaped && r@.cleanup.workload_empty is None && !r@.settled,
        r@.deadline@ == deadline@,
        r@.group is Some <==> 0 < pid <= i32::MAX,
        r@.group matches Some(group) ==> group == pid,
        r@.cleanup.errors.len() == (if pid == 0 || pid > i32::MAX {
            1int
        } else if group_kill matches Err(fault) && fault.os_code != Some(3i32) {
            1
        } else {
            0
        }) + (if child_kill matches Err(fault) && fault.os_code != Some(3i32) {
            1int
        } else {
            0
        }),
        (child_kill matches Err(fault) && fault.os_code != Some(3i32)) ==> r@.cleanup.errors.len()
            > 0 && r@.cleanup.errors.last().operation == "terminate-launcher",
{
}

/// An abort looks until both ends are known or its time is over, and only then removes the
/// group; what is not known by then is found.
pub proof fn aborts_look_until_all_is_known(
    a: &mut GatedAbort,
    child: Result<bool, Fault>,
    group: Result<(), Fault>,
    now: Duration,
    r: AbortAction,
)
    requires
        !old(a)@.settled,
        old(a)@.accounted(),
        !old(a)@.proofs.child_reaped && !old(a)@.proofs.reap_failed && !old(a)@.proofs.group_absent
            && !old(a)@.proofs.group_check_failed,
        call_ensures(GatedAbort::looked, (a, child, group, now), r),
    ensures
        final(a)@.settled <==> now@ >= old(a)@.deadline@ || (child != Ok::<bool, Fault>(false)
            && group is Err),
        r == AbortAction::Remove <==> final(a)@.settled,
        r matches AbortAction::Pause(pause) ==> pause@ <= 10_000_000 && now@ + pause@ <= old(
            a)@.deadline@,
        final(a)@.settled ==> (final(a)@.cleanup.direct_child_reaped <==> child == Ok::<bool, Fault>(
            true,
        )),
        final(a)@.proofs.child_reaped <==> child == Ok::<bool, Fault>(true),
        final(a)@.proofs.group_absent <==> (group matches Err(fault) && fault.os_code == Some(3i32)),
        final(a)@.settled && !(final(a)@.proofs.child_reaped && final(a)@.proofs.group_absent)
            ==> final(a)@.cleanup.errors.len() > old(a)@.cleanup.errors.len(),
        child == Ok::<bool, Fault>(true) && (group matches Err(fault) && fault.os_code == Some(3i32))
            ==> final(a)@.cleanup.errors == old(a)@.cleanup.errors,
{
}

/// An aborted workload may live just where its child, its group or the emptiness of its
/// control group was not proved; a group that could not be removed is found.
pub proof fn aborts_tell_what_may_live(
    a: GatedAbort,
    removal: Result<(), Fault>,
    r: (CleanupSummary, bool),
)
    requires
        a@.settled,
        call_ensures(GatedAbort::removed, (a, removal), r),
    ensures
        r.1 <==> !a@.proofs.child_reaped || !a@.proofs.group_absent || a@.cleanup.workload_empty
            != Some(true),
        r.0@.errors.len() == a@.cleanup.errors.len() + (if removal is Err {
            1int
        } else {
            0
        }),
        removal is Err ==> r.0@.errors.last().operation == "remove-cgroup",
        r.0@.direct_child_reaped == a@.cleanup.direct_child_reaped && r.0@.workload_empty
            == a@.cleanup.workload_empty && r.0@.force_attempted == a@.cleanup.force_attempted,
{
}

/// A group that could not be killed as a whole is found, and nothing else changes.
pub proof fn group_kills_are_found(summary: &mut CleanupSummary, write: Result<(), Fault>)
    requires
        call_ensures(group_killed, (summary, write), ()),
    ensures
        write is Ok ==> final(summary)@ == old(summary)@,
        write matches Err(fault) ==> final(summary)@.errors.len() == old(summary)@.errors.len() + 1
            && final(summary)@.errors.last().operation == "cgroup.kill" && final(
            summary)@.errors.last().message == fault.text,
        final(summary)@.workload_empty == old(summary)@.workload_empty,
{
}

/// A guardian that was told to leave gets a tenth of a second for it, and no longer than its
/// caller has; one that could not be told gets none.
pub proof fn guardians_get_a_tenth_of_a_second(
    delivered: Result<(), Fault>,
    pid: u32,
    now: Duration,
    deadline: Duration,
    r: GuardianShutdown,
)
    requires
        call_ensures(GuardianShutdown::begin, (delivered, pid, now, deadline), r),
    ensures
        r@.stage == ShutdownStage::Graceful && r@.deadline@ == deadline@,
        delivered is Err ==> r@.graceful_deadline@ == now@,
        delivered is Ok ==> r@.graceful_deadline@ <= deadline@ && r@.graceful_deadline@ <= now@
            + 100_000_000 && (r@.graceful_deadline@ == deadline@ || r@.graceful_deadline@ == now@
            + 100_000_000),
        !r@.proofs.child_reaped && !r@.proofs.group_absent && !r@.proofs.reap_failed,
        r@.group is Some <==> 0 < pid <= i32::MAX,
        r@.errors.len() == (if delivered is Err {
            1int
        } else {
            0
        }) + (if pid == 0 || pid > i32::MAX {
            1int
        } else {
            0
        }),
        delivered is Err ==> r@.errors[0].operation == "guardian-disarm",
{
}

/// A guardian that does not leave in its time is killed, with its group where that is not
/// gone; after a kill there are the last looks, and what could not be killed is found.
pub proof fn guardians_are_forced(
    s: &mut GuardianShutdown,
    now: Duration,
    r: ShutdownAction,
    t: &mut GuardianShutdown,
    group: Option<Result<(), Fault>>,
    child: Result<(), Fault>,
    after: ShutdownAction,
)
    requires
        old(s)@.stage == ShutdownStage::Graceful && old(s)@.accounted() && old(s)@.group is Some,
        !old(s)@.proofs.child_reaped && !old(s)@.proofs.reap_failed && !old(s)@.proofs.group_absent
            && !old(s)@.proofs.group_check_failed,
        call_ensures(
            GuardianShutdown::looked,
            (s, Ok::<bool, Fault>(false), Ok::<(), Fault>(()), now),
            r,
        ),
        old(t)@.stage == ShutdownStage::Escalating && old(t)@.accounted(),
        call_ensures(GuardianShutdown::terminated, (t, group, child), after),
    ensures
        now@ >= old(s)@.graceful_deadline@ ==> r == (ShutdownAction::Terminate {
            group: old(s)@.group,
        }) && final(s)@.stage == ShutdownStage::Escalating,
        now@ < old(s)@.graceful_deadline@ ==> r is Pause && final(s)@.stage
            == ShutdownStage::Graceful,
        after == ShutdownAction::Look && final(t)@.stage == ShutdownStage::Last,
        child is Ok && group is None ==> final(t)@.errors == old(t)@.errors,
        (child matches Err(fault) && fault.os_code != Some(3i32)) ==> final(t)@.errors.len() > old(
            t)@.errors.len(),
{
}

/// A guardian is started with its descriptor and its group, in this order; it is disarmed
/// where its marker went out.
pub proof fn guardians_know_their_group(
    descriptor: i32,
    group: i32,
    r: Vec<String>,
    first: String,
    second: String,
    marker: Result<(), Fault>,
    deadline: Duration,
    d: Result<Guardian, Fault>,
)
    requires
        call_ensures(Guardian::spawn, (descriptor, group), r),
        call_ensures(signed_text, (descriptor,), first),
        call_ensures(signed_text, (group,), second),
        call_ensures(Guardian::disarm, (marker, deadline), d),
    ensures
        r@.len() == 3 && r@[0]@ == "__guardian"@ && r@[1]@ == first@ && r@[2]@ == second@,
        d is Ok <==> marker is Ok,
        d matches Ok(guardian) ==> guardian.deadline@ == deadline@ && guardian.stage is Leaving,
{
    let t = crate::model::texts(r@);
    assert(t.len() == 3);
    assert(t[0] == r@[0]@ && t[1] == r@[1]@ && t[2] == r@[2]@);
}

proof fn pids_are_in_lines(lines: Seq<Seq<char>>, pid: i32)
    ensures
        pids_in(lines).contains(pid) <==> exists|i: int|
            0 <= i < lines.len() && integer_in(
                crate::scan::trimmed(#[trigger] lines[i]),
                i32::MAX as nat,
            ) == Ok::<int, NumberFault>(pid as int),
    decreases lines.len(),
{
    if lines.len() > 0 {
        let front = lines.drop_last();
        pids_are_in_lines(front, pid);
        let before = pids_in(front);
        let all = pids_in(lines);
        let last = integer_in(crate::scan::trimmed(lines.last()), i32::MAX as nat);
        if before.contains(pid) {
            let k = choose|k: int| 0 <= k < before.len() && before[k] == pid;
            assert(all[k] == pid);
            let i = choose|i: int|
                0 <= i < front.len() && integer_in(
                    crate::scan::trimmed(#[trigger] front[i]),
                    i32::MAX as nat,
                ) == Ok::<int, NumberFault>(pid as int);
            assert(lines[i] == front[i]);
        }
        if last == Ok::<int, NumberFault>(pid as int) {
            assert(all[before.len() as int] == pid);
            assert(lines[lines.len() - 1] == lines.last());
        }
        if all.contains(pid) && !before.contains(pid) {
            let k = choose|k: int| 0 <= k < all.len() && all[k] == pid;
            if k < before.len() {
                assert(before[k] == pid);
            }
            integers_fit(crate::scan::trimmed(lines.last()));
            assert(last == Ok::<int, NumberFault>(pid as int));
        }
        if exists|i: int|
            0 <= i < lines.len() && integer_in(
                crate::scan::trimmed(#[trigger] lines[i]),
                i32::MAX as nat,
            ) == Ok::<int, NumberFault>(pid as int) {
            let i = choose|i: int|
                0 <= i < lines.len() && integer_in(
                    crate::scan::trimmed(#[trigger] lines[i]),
                    i32::MAX as nat,
                ) == Ok::<int, NumberFault>(pid as int);
            if i < front.len() {
                assert(front[i] == lines[i]);
                let k = choose|k: int| 0 <= k < before.len() && before[k] == pid;
                assert(all[k] == pid);
            }
        }
    }
}

proof fn digits_fit(s: Seq<char>, i: int, acc: nat, base: nat, max: nat)
    requires
        acc <= max,
    ensures
        crate::scan::read_digits(s, i, acc, base, max) matches Ok(n) ==> n <= max,
    decreases s.len() - i,
{
    if 0 <= i < s.len() {
        if let Some(d) = crate::scan::digit_worth(s[i], base) {
            if acc * base + d <= max {
                digits_fit(s, i + 1, acc * base + d, base, max);
            }
        }
    }
}

proof fn integers_fit(s: Seq<char>)
    ensures
        integer_in(s, i32::MAX as nat) matches Ok(n) ==> i32::MIN <= n <= i32::MAX,
{
    digits_fit(s, 1, 0, 10, (i32::MAX + 1) as nat);
    digits_fit(s, 1, 0, 10, i32::MAX as nat);
    digits_fit(s, 0, 0, 10, i32::MAX as nat);
}

/// The members of a group are the numbers that stand alone on a line, and no others.
pub proof fn members_stand_on_their_lines(
    members: &str,
    r: Vec<i32>,
    pid: i32,
    i: int,
    line: &[char],
    trimmed: Vec<char>,
    word: &[char],
    number: Result<i32, NumberFault>,
)
    requires
        call_ensures(member_pids, (members,), r),
        0 <= i < lines_of_text(members@).len(),
        line@ == lines_of_text(members@)[i],
        call_ensures(trim, (line,), trimmed),
        word@ == trimmed@,
        call_ensures(parse_i32, (word,), number),
    ensures
        number matches Ok(n) ==> r@.contains(n),
        r@.contains(pid) ==> exists|j: int|
            0 <= j < lines_of_text(members@).len() && integer_in(
                crate::scan::trimmed(#[trigger] lines_of_text(members@)[j]),
                i32::MAX as nat,
            ) == Ok::<int, NumberFault>(pid as int),
        r@.len() <= lines_of_text(members@).len(),
{
    let lines = lines_of_text(members@);
    pids_are_in_lines(lines, pid);
    if let Ok(n) = number {
        pids_are_in_lines(lines, n);
    }
    pids_are_no_more(lines);
}

proof fn pids_are_no_more(lines: Seq<Seq<char>>)
    ensures
        pids_in(lines).len() <= lines.len(),
    decreases lines.len(),
{
    if lines.len() > 0 {
        pids_are_no_more(lines.drop_last());
    }
}

/// A counter has the value that the last line with its name gives it, and none where no line
/// names it.
pub proof fn counters_have_their_last_value(
    list: &Vec<Counter>,
    name: &str,
    r: u64,
    longer: &Vec<Counter>,
    last: Counter,
    t: u64,
)
    requires
        call_ensures(counter_value, (list, name), r),
        longer@ == list@.push(last),
        call_ensures(counter_value, (longer, name), t),
    ensures
        list@.len() == 0 ==> r == 0,
        last.name@ == name@ ==> t == last.value,
        last.name@ != name@ ==> t == r,
{
    assert(longer@.drop_last() =~= list@);
}

/// A file of counters is read line by line: each gives its first word its second one as a
/// number, and one line that does not makes the whole unreadable.
pub proof fn counters_are_read_by_line(
    input: &str,
    r: Result<Vec<Counter>, Fault>,
    front: &str,
    before: Result<Vec<Counter>, Fault>,
    name: &str,
    line: Seq<char>,
    word: &[char],
    number: Result<u64, NumberFault>,
    list: &Vec<Counter>,
    value: u64,
    old_list: &Vec<Counter>,
    old_value: u64,
)
    requires
        call_ensures(parse_key_values, (input,), r),
        call_ensures(parse_key_values, (front,), before),
        lines_of_text(input@) == lines_of_text(front@).push(line),
        crate::scan::words_of(line).len() >= 2 ==> word@ == crate::scan::words_of(line)[1],
        call_ensures(parse_number, (word, 10, u64::MAX), number),
        r is Ok ==> *list == r->Ok_0,
        call_ensures(counter_value, (list, name), value),
        before is Ok ==> *old_list == before->Ok_0,
        call_ensures(counter_value, (old_list, name), old_value),
    ensures
        r is Ok <==> before is Ok && crate::scan::words_of(line).len() >= 2 && number is Ok,
        r is Ok && crate::scan::words_of(line)[0] == name@ ==> number == Ok::<u64, NumberFault>(
            value,
        ),
        r is Ok && crate::scan::words_of(line)[0] != name@ ==> value == old_value,
{
    let lines = lines_of_text(input@);
    assert(lines.drop_last() =~= lines_of_text(front@));
    assert(lines.last() == line);
    assert(counters_of(lines.drop_last()) is Ok <==> before is Ok);
}

/// A file that holds one number holds it with white space around it or without.
pub proof fn single_numbers_are_read(
    path: &str,
    input: &str,
    r: Result<u64, String>,
    chars: &[char],
    trimmed: Vec<char>,
    word: &[char],
    number: Result<u64, NumberFault>,
)
    requires
        call_ensures(parse_u64_file, (path, input), r),
        chars@ == input@,
        call_ensures(trim, (chars,), trimmed),
        word@ == trimmed@,
        call_ensures(parse_number, (word, 10, u64::MAX), number),
    ensures
        r is Ok <==> number is Ok,
        r matches Ok(n) ==> number == Ok::<u64, NumberFault>(n),
{
}

/// A process is in the group that the first line behind `0::` names, whatever lines of other
/// hierarchies stand before it.
pub proof fn membership_is_the_unified_line(
    membership: &str,
    r: Option<String>,
    i: int,
    path: Seq<char>,
)
    requires
        call_ensures(unified_membership, (membership,), r),
        0 <= i < lines_of_text(membership@).len(),
        forall|k: int|
            0 <= k < i ==> (#[trigger] lines_of_text(membership@)[k]).len() < 3 || lines_of_text(
                membership@,
            )[k].take(3) != seq!['0', ':', ':'],
        lines_of_text(membership@)[i] == seq!['0', ':', ':', '/'] + path,
        path.len() == 0 || path[0] != '/',
    ensures
        r matches Some(found) && found@ == path,
{
    let lines = lines_of_text(membership@);
    let line = lines[i];
    assert(crate::linux_cgroup::is_unified(line));
    assert forall|k: int| 0 <= k < i implies !crate::linux_cgroup::is_unified(#[trigger] lines[k]) by {
        if lines[k].len() >= 3 && crate::linux_cgroup::is_unified(lines[k]) {
            assert(lines[k].take(3) =~= seq!['0', ':', ':']);
        }
    }
    first_unified(lines, 0, i);
    assert(line[3] == '/');
    if path.len() > 0 {
        assert(line[4] == path[0]);
    }
    reveal_with_fuel(crate::linux_cgroup::past_slashes, 3);
    assert(crate::linux_cgroup::past_slashes(line, 3) == 4);
    assert(line.subrange(4, line.len() as int) =~= path);
}

proof fn first_unified(lines: Seq<Seq<char>>, j: int, i: int)
    requires
        0 <= j <= i < lines.len(),
        crate::linux_cgroup::is_unified(lines[i]),
        forall|k: int| 0 <= k < i ==> !crate::linux_cgroup::is_unified(#[trigger] lines[k]),
    ensures
        membership_of(lines, j) == membership_of(lines, i),
    decreases i - j,
{
    if j < i {
        assert(!crate::linux_cgroup::is_unified(lines[j]));
        first_unified(lines, j + 1, i);
    }
}

/// A process in no unified group has no membership.
pub proof fn membership_may_be_missing(membership: &str, r: Option<String>)
    requires
        call_ensures(unified_membership, (membership,), r),
        lines_of_text(membership@).len() == 0,
    ensures
        r is None,
{
}

/// The search for a group begins only under a unified hierarchy with a membership in it; the
/// memory controller is read again once it was enabled.
pub proof fn searches_begin_in_the_hierarchy(
    hierarchy: Result<(), String>,
    membership: Result<String, String>,
    require_memory: bool,
    r: Result<Delegation, String>,
    d: &mut Delegation,
    written: Result<(), String>,
    next: Result<DelegationAction, String>,
)
    requires
        call_ensures(Delegation::begin, (hierarchy, membership, require_memory), r),
        old(d).stage is Enabling,
        call_ensures(Delegation::memory_enabled, (d, written), next),
    ensures
        r is Ok ==> hierarchy is Ok && membership is Ok,
        r matches Ok(search) ==> search.require_memory == require_memory && search.stage is Marker
            && "/sys/fs/cgroup/"@.is_prefix_of(search.current@),
        next is Ok <==> written is Ok,
        next is Ok ==> next == Ok::<DelegationAction, String>(DelegationAction::ReadEnabled)
            && final(d).stage is Verifying,
        next is Err ==> final(d).stage is Over,
{
    if r is Ok {
        let path = r->Ok_0.current@;
        assert("/sys/fs/cgroup/"@ =~= path.take("/sys/fs/cgroup/"@.len() as int));
    }
}

/// A path with an interior zero names no marker.
pub proof fn marker_paths_hold_no_zero(path: &str, r: Result<(), String>)
    requires
        call_ensures(marker_path, (path,), r),
    ensures
        r is Err <==> exists|i: int| 0 <= i < path@.len() && #[trigger] path@[i] == '\0',
{
    if r is Err {
        let i = choose|i: int| 0 <= i < path@.len() && path@[i] == '\0';
        assert(path@[i] == '\0');
    } else if exists|i: int| 0 <= i < path@.len() && #[trigger] path@[i] == '\0' {
        let i = choose|i: int| 0 <= i < path@.len() && #[trigger] path@[i] == '\0';
        assert(path@.contains('\0'));
    }
}

/// A probe looks for each file before it reads or writes any, and reads back each limit that
/// it wrote in the very next step.
pub proof fn probes_read_back_what_they_write(step: usize, r: ProbeAction, next: ProbeAction)
    requires
        step < 15,
        call_ensures(probe_action, (step,), r),
        call_ensures(probe_action, ((step + 1) as usize,), next),
    ensures
        r is Exists <==> step < 7,
        r matches ProbeAction::Write(file, value) ==> (file == "memory.max" && value == "max\n"
            && next == ProbeAction::ReadBack("memory.max", "max")) || (file == "memory.swap.max"
            && value == "0\n" && next == ProbeAction::ReadBack("memory.swap.max", "0")),
        r is Write <==> step == 12 || step == 14,
        next is ReadBack <==> r is Write,
{
}

} // verus!
