//! Samples of the network state, and the watch over the host's own.

use vstd::prelude::*;

use crate::host_network::{
    frame_dump, framed_packets, no_notifications, notified, queue_drops, row_verdict, rows_verdict,
    setting_bound, size_of_leaves, stat_bound, watch_kept, watch_namespace, watched, Arrival,
    Beside, HostNetworkWatchV1, Pin, QueueFault, WatchParts,
};
use crate::model::Fault;
use crate::network::{
    check_packet, dump_leaves, dump_request, joined_namespace, last_close, leaves_view, may_sample,
    messages, nth_dump, observer_port, put_dump, restored_namespace, same_start, sample,
    setting_name, size_of_all, source_bound, start, still_held, Dump, DumpKind, HeldTask, Leaf,
    SampleParts, SeenNamespaces, Sender, StartFault,
};
use crate::scan::{find_from, lines_of_text, number_in, parse_number, words_of, NumberFault};
use crate::text::decimal;
use crate::time::Duration;
use crate::unix_detector::{
    cleaned_up, detector_bound, isolated, planted_names, DetectorParts, PathLook, PlantedNames,
};

verus! {

/// Two bytes as a number, the low one first.
pub open spec fn two(s: Seq<u8>, i: int) -> int {
    s[i] + 256 * s[i + 1]
}

/// Four bytes as a number, the low one first.
pub open spec fn four(s: Seq<u8>, i: int) -> int {
    s[i] + 256 * (s[i + 1] + 256 * (s[i + 2] + 256 * s[i + 3]))
}

proof fn found_at(s: Seq<char>, c: char, i: int, j: int)
    requires
        0 <= i <= j < s.len(),
        forall|k: int| i <= k < j ==> s[k] != c,
        s[j] == c,
    ensures
        find_from(s, c, i) == j,
    decreases j - i,
{
    if i < j {
        found_at(s, c, i + 1, j);
    }
}

proof fn closed_last(s: Seq<char>, i: int, j: int)
    requires
        0 <= j < i <= s.len(),
        j + 1 < s.len(),
        s[j] == ')' && s[j + 1] == ' ',
        forall|k: int|
            j < k < s.len() - 1 ==> !(#[trigger] s[k] == ')' && s[k + 1] == ' '),
    ensures
        last_close(s, i) == j,
    decreases i,
{
    if i - 1 > j && i < s.len() {
        assert(!(s[i - 1] == ')' && s[i] == ' '));
    }
    if i - 1 > j {
        closed_last(s, i - 1, j);
    }
}

/// The start of a task stands in the twentieth word behind the last closing bracket that a
/// blank follows, whatever the name in the brackets holds; and the file is that of the task
/// only where it begins with its number.
pub proof fn starts_stand_behind_the_name(
    bytes: &[u8],
    pid: u32,
    r: Result<u64, StartFault>,
    head: &[char],
    name: Seq<char>,
    fields: Seq<char>,
    number: Result<u64, NumberFault>,
    word: &[char],
    ticks: Result<u64, NumberFault>,
)
    requires
        vstd::utf8::valid_utf8(bytes@),
        vstd::utf8::decode_utf8(bytes@) == head@ + seq![' '] + name + seq![')', ' '] + fields,
        forall|i: int| 0 <= i < head@.len() ==> #[trigger] head@[i] != ' ',
        forall|i: int|
            0 <= i < fields.len() - 1 ==> !(#[trigger] fields[i] == ')' && fields[i + 1] == ' '),
        call_ensures(start, (bytes, pid), r),
        call_ensures(parse_number, (head, 10, u32::MAX as u64), number),
        words_of(fields).len() >= 20 ==> word@ == words_of(fields)[19],
        call_ensures(parse_number, (word, 10, u64::MAX), ticks),
    ensures
        r is Ok <==> number == Ok::<u64, NumberFault>(pid as u64) && words_of(fields).len() >= 20
            && ticks is Ok,
        r matches Ok(found) ==> ticks == Ok::<u64, NumberFault>(found),
{
    let s = vstd::utf8::decode_utf8(bytes@);
    let blank = head@.len() as int;
    assert forall|k: int| 0 <= k < blank implies s[k] != ' ' by {
        assert(s[k] == head@[k]);
    }
    assert(s[blank] == ' ');
    found_at(s, ' ', 0, blank);
    assert(s.subrange(0, blank) =~= head@);
    let tail = s.subrange(blank + 1, s.len() as int);
    assert(tail =~= name + seq![')', ' '] + fields);
    let close = name.len() as int;
    assert forall|k: int| close < k < tail.len() - 1 implies !(#[trigger] tail[k] == ')' && tail[k
        + 1] == ' ') by {
        if k > close + 1 {
            assert(tail[k] == fields[k - close - 2]);
            assert(tail[k + 1] == fields[k - close - 1]);
        }
    }
    closed_last(tail, tail.len() as int, close);
    assert(tail.subrange(close + 2, tail.len() as int) =~= fields);
}

/// A file that is not text says nothing of a task.
pub proof fn starts_are_text(bytes: &[u8], pid: u32, r: Result<u64, StartFault>)
    requires
        !vstd::utf8::valid_utf8(bytes@),
        call_ensures(start, (bytes, pid), r),
    ensures
        r == Err::<u64, StartFault>(StartFault::NotText),
{
}

/// A request asks the kernel for a whole list: its length comes first, it is a request for a
/// dump, it bears the first number and the sender's port, and the rest of it is empty.
pub proof fn requests_ask_for_a_dump(request: u16, body: usize, port: u32, r: Vec<u8>)
    requires
        16 + body <= u32::MAX,
        call_ensures(dump_request, (request, body, port), r),
    ensures
        r@.len() == 16 + body,
        four(r@, 0) == r@.len(),
        two(r@, 4) == request,
        two(r@, 6) == 1 + 256 + 512,
        four(r@, 8) == 1,
        four(r@, 12) == port,
        forall|i: int| 16 <= i < r@.len() ==> #[trigger] r@[i] == 0,
{
    let a = crate::bytes::le32((16 + body) as u32);
    let b = crate::bytes::le16(request);
    let c = crate::bytes::le16(0x301);
    let d = crate::bytes::le32(1);
    let e = crate::bytes::le32(port);
    assert(r@[0] == a[0] && r@[1] == a[1] && r@[2] == a[2] && r@[3] == a[3]);
    assert(r@[4] == b[0] && r@[5] == b[1]);
    assert(r@[6] == c[0] && r@[7] == c[1]);
    assert(r@[8] == d[0] && r@[9] == d[1] && r@[10] == d[2] && r@[11] == d[3]);
    assert(r@[12] == e[0] && r@[13] == e[1] && r@[14] == e[2] && r@[15] == e[3]);
    crate::bytes::le32_round((16 + body) as u32);
    crate::bytes::le32_round(port);
    crate::bytes::le16_round(request);
}

/// Whether a message that begins a packet answers the request: it is whole, bears the
/// number and the port of the request, and was not interrupted.
pub open spec fn answers(s: Seq<u8>, port: u32) -> bool {
    s.len() >= 16 && 16 <= four(s, 0) <= s.len() && four(s, 8) == 1 && four(s, 12) == port && s[6]
        / 16 % 2 == 0
}

/// How far a message reaches: its length, up to the next multiple of four.
pub open spec fn reach(s: Seq<u8>) -> int {
    if four(s, 0) % 4 == 0 {
        four(s, 0)
    } else {
        four(s, 0) + 4 - four(s, 0) % 4
    }
}

proof fn messages_further_on(
    s: Seq<u8>,
    from: int,
    cursor: int,
    done: bool,
    port: u32,
    response: u16,
)
    requires
        0 <= from <= cursor <= s.len(),
    ensures
        messages(s.skip(from), cursor - from, done, port, response) == messages(
            s,
            cursor,
            done,
            port,
            response,
        ),
    decreases s.len() - cursor,
{
    if s.len() - cursor >= 16 {
        let t = s.skip(from);
        let at = cursor - from;
        assert forall|k: int| 0 <= k < s.len() - cursor implies #[trigger] t[at + k] == s[cursor + k] by {}
        assert(t[at] == s[cursor]);
        assert(t[at + 1] == s[cursor + 1] && t[at + 2] == s[cursor + 2] && t[at + 3] == s[cursor
            + 3]);
        let length = crate::bytes::from_le32(
            s[cursor],
            s[cursor + 1],
            s[cursor + 2],
            s[cursor + 3],
        ) as int;
        let kind = crate::bytes::from_le16(s[cursor + 4], s[cursor + 5]);
        let next = cursor + (length + 3) / 4 * 4;
        if length >= 16 && length <= s.len() - cursor && next <= s.len() {
            messages_further_on(s, from, next, done || kind == 3, port, response);
        }
    }
}

/// A packet is checked message by message. The first must answer the request; one of the
/// kind that was asked for is passed over, and the packet is then what the rest of it is; one
/// that ends the list must say that all went well.
pub proof fn packets_are_checked_by_message(
    bytes: &[u8],
    port: u32,
    response: u16,
    r: Result<bool, Fault>,
    rest: &[u8],
    further: Result<bool, Fault>,
)
    requires
        bytes@.len() <= 8192 && rest@.len() <= 8192,
        call_ensures(check_packet, (bytes, port, response), r),
        call_ensures(check_packet, (rest, port, response), further),
    ensures
        bytes@.len() == 0 ==> r == Ok::<bool, Fault>(false),
        bytes@.len() > 0 && !answers(bytes@, port) ==> r is Err,
        answers(bytes@, port) && two(bytes@, 4) == response && response != 3 && reach(bytes@)
            <= bytes@.len() && rest@ == bytes@.skip(reach(bytes@)) ==> r == further,
        answers(bytes@, port) && reach(bytes@) > bytes@.len() ==> r is Err,
        answers(bytes@, port) && two(bytes@, 4) != response && two(bytes@, 4) != 3 ==> r is Err,
        answers(bytes@, port) && two(bytes@, 4) == 3 && (four(bytes@, 0) < 20 || four(bytes@, 16)
            != 0) ==> r is Err,
        answers(bytes@, port) && two(bytes@, 4) == 3 && four(bytes@, 0) >= 20 && four(bytes@, 16)
            == 0 && reach(bytes@) == bytes@.len() ==> r == Ok::<bool, Fault>(true),
        answers(bytes@, port) && two(bytes@, 4) == 3 && response != 3 && reach(bytes@)
            < bytes@.len() && rest@ == bytes@.skip(reach(bytes@)) && rest@.len() >= 16 && two(
            rest@,
            4,
        ) == response ==> r is Err,
{
    let s = bytes@;
    if s.len() >= 16 {
        assert(s[6] / 16 % 2 == (s[6] + 256 * s[7]) / 16 % 2) by {
            let a = s[6] as int;
            let b = s[7] as int;
            assert((a + 256 * b) / 16 == a / 16 + 16 * b) by (nonlinear_arith);
        }
        let length = four(s, 0);
        assert(crate::bytes::from_le32(s[0], s[1], s[2], s[3]) == length);
        assert(reach(s) == (length + 3) / 4 * 4) by {
            let q = length / 4;
            assert(length == 4 * q + length % 4);
        }
        if answers(s, port) && reach(s) <= s.len() {
            messages_further_on(s, reach(s), reach(s), false, port, response);
            messages_further_on(s, reach(s), reach(s), true, port, response);
            assert(s.skip(reach(s)).len() == s.len() - reach(s));
            if rest@ == s.skip(reach(s)) && rest@.len() >= 16 && two(rest@, 4) == response
                && response != 3 {
                assert(messages(rest@, 0, true, port, response) is Err);
            }
        }
    }
}

/// A dump keeps each packet that comes, as it came and in order; it refuses one that is not
/// from the kernel, that is too long, or that would make the whole too long, and keeps
/// nothing of it.
pub proof fn dumps_keep_what_comes(
    dump: &mut Dump,
    count: i64,
    bytes: Vec<u8>,
    sender: Sender,
    r: Result<bool, Fault>,
    packet: &[u8],
    checked: Result<bool, Fault>,
)
    requires
        old(dump).wf() && !old(dump).done && old(dump).packets@.len() < 64,
        0 < count <= 8192 ==> bytes@.len() == count,
        bytes@.len() <= 8192,
        call_ensures(Dump::received, (dump, count, bytes, sender), r),
        packet@ == bytes@,
        call_ensures(check_packet, (packet, old(dump).port, old(dump).response), checked),
    ensures
        r is Ok <==> 0 < count <= 8192 && sender.length_fits && sender.netlink && sender.pid == 0
            && sender.groups == 0 && old(dump).total + bytes@.len() <= 524288 && checked is Ok,
        r is Ok ==> r == checked && final(dump).done == r->Ok_0 && final(dump).packets@ == old(
            dump).packets@.push(bytes) && final(dump).total == old(dump).total + bytes@.len(),
        r is Err ==> *final(dump) == *old(dump),
        final(dump).port == old(dump).port && final(dump).response == old(dump).response,
{
    if r is Ok {
        assert(final(dump).packets@.drop_last() =~= old(dump).packets@);
        assert(size_of_all(final(dump).packets@) == size_of_all(old(dump).packets@) + bytes@.len());
    }
}

/// A dump waits until its deadline, and for sixty-four packets at the most.
pub proof fn dumps_wait_until_their_deadline(
    dump: &Dump,
    now: Duration,
    deadline: Duration,
    r: Result<i32, Fault>,
    ready: bool,
    w: Result<(), Fault>,
    port: u32,
    response: u16,
    fresh: Dump,
)
    requires
        dump.wf() && !dump.done,
        call_ensures(Dump::next_wait, (dump, now, deadline), r),
        call_ensures(Dump::waited, (ready,), w),
        call_ensures(Dump::begin, (port, response), fresh),
    ensures
        r is Ok <==> dump.packets@.len() < 64 && now@ + 1_000_000 <= deadline@,
        (r matches Ok(ms) && ms < i32::MAX) ==> now@ + r->Ok_0 * 1_000_000 <= deadline@ && deadline@
            < now@ + (r->Ok_0 + 1) * 1_000_000,
        w is Ok <==> ready,
        !fresh.done && fresh.packets@.len() == 0 && fresh.total == 0 && fresh.port == port
            && fresh.response == response,
{
}

/// The three lists are those of links, addresses and routes; the kernel answers each with
/// the kind two below what was asked.
pub proof fn three_lists_are_asked_for(n: usize, r: Option<DumpKind>, m: usize, t: Option<&'static str>)
    requires
        call_ensures(nth_dump, (n,), r),
        call_ensures(setting_name, (m,), t),
    ensures
        r is Some <==> n < 3,
        r matches Some(kind) ==> kind.response + 2 == kind.request && kind.request == 18 + 4 * n,
        n == 0 ==> r->0.label == "links" && r->0.body == 16,
        n == 1 ==> r->0.label == "addresses" && r->0.body == 8,
        n == 2 ==> r->0.label == "routes" && r->0.body == 12,
        t is Some <==> m < 4,
        m == 0 ==> t == Some("ip_unprivileged_port_start"),
        m == 1 ==> t == Some("ip_forward"),
        m == 2 ==> t == Some("ip_local_port_range"),
        m == 3 ==> t == Some("ip_local_reserved_ports"),
{
}

/// Sampling is refused wherever what was held is not what is found.
pub proof fn samples_are_of_what_is_held(
    pid: u32,
    ticks: u64,
    user: u32,
    may: Result<(), Fault>,
    found: u64,
    same: Result<(), Fault>,
    joined: Result<(), Fault>,
    inode: u64,
    target: u64,
    held: Result<(), Fault>,
    restored: bool,
    original: u64,
    back: Result<(), Fault>,
    named: bool,
    fits: bool,
    port: u32,
    own: Result<u32, Fault>,
    length: usize,
    bounded: Result<(), Fault>,
)
    requires
        call_ensures(may_sample, (pid, ticks, user), may),
        call_ensures(same_start, (found, ticks), same),
        call_ensures(joined_namespace, (inode, target), joined),
        call_ensures(still_held, (found, ticks, inode, target), held),
        call_ensures(restored_namespace, (restored, found, original), back),
        call_ensures(observer_port, (named, fits, port), own),
        call_ensures(source_bound, (length,), bounded),
    ensures
        may is Ok <==> pid > 0 && ticks > 0 && user == 0,
        same is Ok <==> found == ticks,
        joined is Ok <==> inode == target,
        held is Ok <==> found == ticks && inode == target,
        back is Ok <==> restored && found == original,
        own is Ok <==> named && fits && port > 0,
        own matches Ok(p) ==> p == port,
        bounded is Ok <==> length <= 1048576,
{
}

/// A dump becomes one piece for its request and one for each packet, under its own label.
pub proof fn dumps_become_pieces(
    leaves: &mut Vec<Leaf>,
    label: &'static str,
    sent: Vec<u8>,
    packets: Vec<Vec<u8>>,
)
    requires
        call_ensures(put_dump, (leaves, label, sent, packets), ()),
    ensures
        final(leaves)@.len() == old(leaves)@.len() + 1 + packets@.len(),
        final(leaves)@[old(leaves)@.len() as int].name@ == label@ + "/request.raw"@,
        final(leaves)@[old(leaves)@.len() as int].bytes@ == sent@,
        forall|i: int|
            #![trigger packets@[i]]
            0 <= i < packets@.len() ==> final(leaves)@[old(leaves)@.len() + 1 + i].bytes@
                == packets@[i]@ && final(leaves)@[old(leaves)@.len() + 1 + i].name@ == label@ + "/"@
                + decimal(i as nat) + ".raw"@,
        forall|i: int|
            0 <= i < old(leaves)@.len() ==> (#[trigger] final(leaves)@[i]).name@ == old(
                leaves)@[i].name@ && final(leaves)@[i].bytes@ == old(leaves)@[i].bytes@,
{
    let a = leaves_view(old(leaves)@);
    let b = leaves_view(final(leaves)@);
    let d = dump_leaves(label@, sent@, packets@);
    assert(b.len() == a.len() + d.len());
    assert(b[a.len() as int] == d[0]);
    assert forall|i: int|
        #![trigger packets@[i]]
        0 <= i < packets@.len() implies final(leaves)@[old(leaves)@.len() + 1 + i].bytes@
        == packets@[i]@ && final(leaves)@[old(leaves)@.len() + 1 + i].name@ == label@ + "/"@
        + decimal(i as nat) + ".raw"@ by {
        assert(b[a.len() + 1 + i] == d[1 + i]);
    }
    assert forall|i: int| 0 <= i < old(leaves)@.len() implies (#[trigger] final(leaves)@[i]).name@
        == old(leaves)@[i].name@ && final(leaves)@[i].bytes@ == old(leaves)@[i].bytes@ by {
        assert(b[i] == a[i]);
    }
}

/// A sample counts just where the task was held with its start before and after, and the
/// reader was in the task's namespace and came back to its own.
pub proof fn samples_count_where_the_task_was_held(
    task: HeldTask,
    seen: SeenNamespaces,
    parts: SampleParts,
    r: Result<Vec<Leaf>, StartFault>,
    before_bytes: &[u8],
    before: Result<u64, StartFault>,
    after_bytes: &[u8],
    after: Result<u64, StartFault>,
)
    requires
        before_bytes@ == parts.target_before@ && after_bytes@ == parts.target_after@,
        call_ensures(start, (before_bytes, task.pid), before),
        call_ensures(start, (after_bytes, task.pid), after),
        call_ensures(sample, (task, seen, parts), r),
    ensures
        r is Ok <==> task.pid > 0 && task.ticks > 0 && task.user == 0 && before == Ok::<
            u64,
            StartFault,
        >(task.ticks) && after == Ok::<u64, StartFault>(task.ticks) && seen.restored && seen.found
            == seen.original && seen.joined == seen.target && seen.held == seen.target,
{
}

/// A sample holds all that was read, each piece under its own name, the dumps in between.
pub proof fn samples_hold_all_that_was_read(
    task: HeldTask,
    seen: SeenNamespaces,
    parts: SampleParts,
    leaves: Vec<Leaf>,
)
    requires
        call_ensures(sample, (task, seen, parts), Ok::<Vec<Leaf>, StartFault>(leaves)),
    ensures
        ({
            let l = leaves@;
            let a = parts.links.packets@.len() as int;
            let b = parts.addresses.packets@.len() as int;
            let c = parts.routes.packets@.len() as int;
            let n = 8 + a + b + c;
            &&& l.len() == n + 5
            &&& l[0].name@ == "reader-stat.raw"@ && l[0].bytes@ == parts.reader_before@
            &&& l[1].name@ == "ip_unprivileged_port_start"@ && l[1].bytes@ == parts.port_start@
            &&& l[2].name@ == "ip_forward"@ && l[2].bytes@ == parts.forward@
            &&& l[3].name@ == "ip_local_port_range"@ && l[3].bytes@ == parts.port_range@
            &&& l[4].name@ == "ip_local_reserved_ports"@ && l[4].bytes@ == parts.reserved_ports@
            &&& l[5].name@ == "links"@ + "/request.raw"@ && l[5].bytes@ == parts.links.sent@
            &&& l[6 + a].name@ == "addresses"@ + "/request.raw"@ && l[6 + a].bytes@
                == parts.addresses.sent@
            &&& l[7 + a + b].name@ == "routes"@ + "/request.raw"@ && l[7 + a + b].bytes@
                == parts.routes.sent@
            &&& l[n].name@ == "proc1-status.raw"@ && l[n].bytes@ == parts.status@
            &&& l[n + 1].name@ == "target-stat-before.raw"@ && l[n + 1].bytes@
                == parts.target_before@
            &&& l[n + 2].name@ == "target-stat-after.raw"@ && l[n + 2].bytes@ == parts.target_after@
            &&& l[n + 3].name@ == "reader-stat-after.raw"@ && l[n + 3].bytes@ == parts.reader_after@
            &&& l[n + 4].name@ == "identity.json"@
        }),
        forall|i: int|
            #![trigger parts.links.packets@[i]]
            0 <= i < parts.links.packets@.len() ==> leaves@[6 + i].bytes@
                == parts.links.packets@[i]@,
        forall|i: int|
            #![trigger parts.addresses.packets@[i]]
            0 <= i < parts.addresses.packets@.len() ==> leaves@[7 + parts.links.packets@.len()
                + i].bytes@ == parts.addresses.packets@[i]@,
        forall|i: int|
            #![trigger parts.routes.packets@[i]]
            0 <= i < parts.routes.packets@.len() ==> leaves@[8 + parts.links.packets@.len()
                + parts.addresses.packets@.len() + i].bytes@ == parts.routes.packets@[i]@,
{
    let v = leaves_view(leaves@);
    let a = parts.links.packets@.len() as int;
    let b = parts.addresses.packets@.len() as int;
    let c = parts.routes.packets@.len() as int;
    let n = 8 + a + b + c;
    let la = dump_leaves("links"@, parts.links.sent@, parts.links.packets@);
    let lb = dump_leaves("addresses"@, parts.addresses.sent@, parts.addresses.packets@);
    let lc = dump_leaves("routes"@, parts.routes.sent@, parts.routes.packets@);
    assert(v.len() == n + 5);
    assert(v[0].1 == leaves@[0].bytes@ && v[1].1 == leaves@[1].bytes@ && v[2].1
        == leaves@[2].bytes@);
    assert(v[3].1 == leaves@[3].bytes@ && v[4].1 == leaves@[4].bytes@);
    assert(v[5] == la[0] && v[6 + a] == lb[0] && v[7 + a + b] == lc[0]);
    assert(v[n].1 == leaves@[n].bytes@ && v[n + 1].1 == leaves@[n + 1].bytes@);
    assert(v[n + 2].1 == leaves@[n + 2].bytes@ && v[n + 3].1 == leaves@[n + 3].bytes@);
    assert(v[n + 4].0 == leaves@[n + 4].name@);
    assert forall|i: int| #![trigger parts.links.packets@[i]] 0 <= i < a implies leaves@[6 + i].bytes@
        == parts.links.packets@[i]@ by {
        assert(v[6 + i] == la[1 + i]);
    }
    assert forall|i: int|
        #![trigger parts.addresses.packets@[i]]
        0 <= i < b implies leaves@[7 + parts.links.packets@.len() + i].bytes@
        == parts.addresses.packets@[i]@ by {
        assert(v[7 + a + i] == lb[1 + i]);
    }
    assert forall|i: int|
        #![trigger parts.routes.packets@[i]]
        0 <= i < c implies leaves@[8 + parts.links.packets@.len() + parts.addresses.packets@.len()
        + i].bytes@ == parts.routes.packets@[i]@ by {
        assert(v[8 + a + b + i] == lc[1 + i]);
    }
}

/// A watch is over four objects, each with a number, no two the same, and by root.
pub proof fn watches_hold_four_objects(
    user: u32,
    pins: Vec<Pin>,
    r: Result<HostNetworkWatchV1, Fault>,
)
    requires
        call_ensures(HostNetworkWatchV1::start, (user, pins), r),
    ensures
        r is Ok <==> user == 0 && pins@.len() == 4 && (forall|i: int|
            0 <= i < pins@.len() ==> (#[trigger] pins@[i]).0 != 0 && pins@[i].1 != 0) && (forall|
            i: int,
            j: int,
        |
            0 <= i < j < pins@.len() ==> #[trigger] pins@[i] != #[trigger] pins@[j]),
        r matches Ok(watch) ==> watch.pins == pins,
{
}

/// A watch goes on only over the same objects, in the same namespace and with the same
/// socket; it is ended once.
pub proof fn watches_stay_where_they_are(
    watch: &HostNetworkWatchV1,
    slot: usize,
    found: Pin,
    r: Result<(), Fault>,
    stopped: bool,
    joined: bool,
    panicked: bool,
    f: Result<(), Fault>,
    seen: u64,
    held: u64,
    netns: u64,
    n: Result<(), Fault>,
    socket: u64,
    after: u64,
    netns_after: u64,
    k: Result<(), Fault>,
    length: usize,
    s: Result<(), Fault>,
    t: Result<(), Fault>,
)
    requires
        slot < watch.pins@.len(),
        call_ensures(HostNetworkWatchV1::still_pinned, (watch, slot, found), r),
        call_ensures(HostNetworkWatchV1::finish, (stopped, joined, panicked), f),
        call_ensures(watch_namespace, (seen, held, netns), n),
        call_ensures(watch_kept, (socket, after, netns, netns_after), k),
        call_ensures(setting_bound, (length,), s),
        call_ensures(stat_bound, (length,), t),
    ensures
        r is Ok <==> watch.pins@[slot as int].0 == found.0 && watch.pins@[slot as int].1 == found.1,
        f is Ok <==> !stopped && !joined && !panicked,
        n is Ok <==> seen == netns && held == netns,
        k is Ok <==> after == socket && netns_after == netns,
        s is Ok <==> 1 <= length <= 4096,
        t is Ok <==> 1 <= length <= 4096,
{
}

/// Whether a row of the queue is that of a socket.
pub open spec fn row_of(row: Seq<char>, inode: u64) -> bool {
    number_in(words_of(row)[9], 10, u64::MAX as nat) == Ok::<nat, NumberFault>(inode as nat)
}

/// Whether a row says that its socket listens as it should and has lost nothing.
pub open spec fn lost_nothing(row: Seq<char>) -> bool {
    let words = words_of(row);
    number_in(words[1], 10, u32::MAX as nat) == Ok::<nat, NumberFault>(0) && (number_in(
        words[2],
        10,
        u32::MAX as nat,
    ) matches Ok(port) && port > 0) && number_in(words[3], 16, u32::MAX as nat) == Ok::<
        nat,
        NumberFault,
    >(1361) && number_in(words[8], 10, u64::MAX as nat) == Ok::<nat, NumberFault>(0)
}

proof fn rows_are_read(rows: Seq<Seq<char>>, inode: u64)
    ensures
        rows_verdict(rows, inode) is Ok <==> (forall|i: int|
            0 <= i < rows.len() ==> row_verdict(words_of(#[trigger] rows[i]), inode) is Ok),
        rows_verdict(rows, inode) matches Ok(n) ==> {
            &&& n == 0 ==> forall|i: int| 0 <= i < rows.len() ==> !row_of(#[trigger] rows[i], inode)
            &&& n >= 1 ==> exists|i: int| 0 <= i < rows.len() && row_of(#[trigger] rows[i], inode)
            &&& n == 1 ==> forall|i: int, j: int|
                0 <= i < rows.len() && 0 <= j < rows.len() && row_of(#[trigger] rows[i], inode)
                    && row_of(#[trigger] rows[j], inode) ==> i == j
            &&& n >= 2 ==> exists|i: int, j: int|
                0 <= i < j < rows.len() && row_of(#[trigger] rows[i], inode) && row_of(
                    #[trigger] rows[j],
                    inode,
                )
        },
    decreases rows.len(),
{
    if rows.len() > 0 {
        let front = rows.drop_last();
        let last = rows.len() - 1;
        rows_are_read(front, inode);
        assert forall|i: int| 0 <= i < front.len() implies #[trigger] front[i] == rows[i] by {}
        if rows_verdict(rows, inode) is Ok {
            assert forall|i: int| 0 <= i < rows.len() implies row_verdict(
                words_of(#[trigger] rows[i]),
                inode,
            ) is Ok by {
                if i < last {
                    assert(front[i] == rows[i]);
                }
            }
            let before = rows_verdict(front, inode)->Ok_0;
            assert(row_verdict(words_of(rows[last]), inode) == Ok::<bool, QueueFault>(true)
                <==> row_of(rows[last], inode));
            if before == 0 {
                assert forall|i: int| 0 <= i < last implies !row_of(#[trigger] rows[i], inode) by {
                    assert(front[i] == rows[i]);
                }
            } else {
                let w = choose|i: int| 0 <= i < front.len() && row_of(#[trigger] front[i], inode);
                assert(row_of(rows[w], inode));
                if before == 1 {
                    assert forall|i: int, j: int|
                        0 <= i < last && 0 <= j < last && row_of(#[trigger] rows[i], inode)
                            && row_of(#[trigger] rows[j], inode) implies i == j by {
                        assert(front[i] == rows[i] && front[j] == rows[j]);
                    }
                    if row_of(rows[last], inode) {
                        assert(0 <= w < last && row_of(rows[w], inode) && row_of(rows[last], inode));
                    }
                } else {
                    let (x, y) = choose|i: int, j: int|
                        0 <= i < j < front.len() && row_of(#[trigger] front[i], inode) && row_of(
                            #[trigger] front[j],
                            inode,
                        );
                    assert(row_of(rows[x], inode) && row_of(rows[y], inode));
                }
            }
        } else if forall|i: int|
            0 <= i < rows.len() ==> row_verdict(words_of(#[trigger] rows[i]), inode) is Ok {
            assert forall|i: int| 0 <= i < front.len() implies row_verdict(
                words_of(#[trigger] front[i]),
                inode,
            ) is Ok by {
                assert(front[i] == rows[i]);
            }
            assert(row_verdict(words_of(rows[last]), inode) is Ok);
        }
    }
}

/// Nothing was lost just where the queue, under its heading, has rows of ten words with
/// numbered sockets, one of them that of the socket, which listens to the groups that were
/// asked for and has dropped nothing.
pub proof fn nothing_was_lost(bytes: &[u8], inode: u64, r: Result<(), QueueFault>)
    requires
        call_ensures(queue_drops, (bytes, inode), r),
    ensures
        ({
            let lines = lines_of_text(vstd::utf8::decode_utf8(bytes@));
            let heading = words_of(lines[0]);
            r is Ok <==> {
                &&& bytes@.len() <= 131072 && vstd::utf8::valid_utf8(bytes@) && lines.len() > 0
                &&& heading == seq![
                    "sk"@,
                    "Eth"@,
                    "Pid"@,
                    "Groups"@,
                    "Rmem"@,
                    "Wmem"@,
                    "Dump"@,
                    "Locks"@,
                    "Drops"@,
                    "Inode"@,
                ]
                &&& forall|i: int|
                    1 <= i < lines.len() ==> words_of(#[trigger] lines[i]).len() == 10 && number_in(
                        words_of(lines[i])[9],
                        10,
                        u64::MAX as nat,
                    ) is Ok && (row_of(lines[i], inode) ==> lost_nothing(lines[i]))
                &&& exists|i: int| 1 <= i < lines.len() && row_of(#[trigger] lines[i], inode)
                &&& forall|i: int, j: int|
                    1 <= i < lines.len() && 1 <= j < lines.len() && row_of(
                        #[trigger] lines[i],
                        inode,
                    ) && row_of(#[trigger] lines[j], inode) ==> i == j
            }
        }),
{
    let lines = lines_of_text(vstd::utf8::decode_utf8(bytes@));
    if lines.len() > 0 {
        let rows = lines.skip(1);
        rows_are_read(rows, inode);
        assert forall|i: int| 0 <= i < rows.len() implies #[trigger] rows[i] == lines[i + 1] by {}
        assert forall|i: int| 1 <= i < lines.len() implies (row_verdict(
            words_of(#[trigger] lines[i]),
            inode,
        ) is Ok <==> words_of(lines[i]).len() == 10 && number_in(
            words_of(lines[i])[9],
            10,
            u64::MAX as nat,
        ) is Ok && (row_of(lines[i], inode) ==> lost_nothing(lines[i]))) && lines[i] == rows[i - 1] by {}
        if r is Ok {
            let w = choose|i: int| 0 <= i < rows.len() && row_of(#[trigger] rows[i], inode);
            assert(row_of(lines[w + 1], inode));
            assert forall|i: int, j: int|
                1 <= i < lines.len() && 1 <= j < lines.len() && row_of(#[trigger] lines[i], inode)
                    && row_of(#[trigger] lines[j], inode) implies i == j by {
                assert(rows[i - 1] == lines[i] && rows[j - 1] == lines[j]);
            }
        } else if bytes@.len() <= 131072 && vstd::utf8::valid_utf8(bytes@)
            && (exists|i: int| 1 <= i < lines.len() && row_of(#[trigger] lines[i], inode)) {
            let w = choose|i: int| 1 <= i < lines.len() && row_of(#[trigger] lines[i], inode);
            assert(row_of(rows[w - 1], inode));
            if rows_verdict(rows, inode) is Ok && rows_verdict(rows, inode)->Ok_0 >= 2 {
                let (x, y) = choose|i: int, j: int|
                    0 <= i < j < rows.len() && row_of(#[trigger] rows[i], inode) && row_of(
                        #[trigger] rows[j],
                        inode,
                    );
                assert(row_of(lines[x + 1], inode) && row_of(lines[y + 1], inode));
            }
            if forall|i: int|
                1 <= i < lines.len() ==> words_of(#[trigger] lines[i]).len() == 10 && number_in(
                    words_of(lines[i])[9],
                    10,
                    u64::MAX as nat,
                ) is Ok && (row_of(lines[i], inode) ==> lost_nothing(lines[i])) {
                assert forall|i: int| 0 <= i < rows.len() implies row_verdict(
                    words_of(#[trigger] rows[i]),
                    inode,
                ) is Ok by {
                    assert(lines[i + 1] == rows[i]);
                }
            }
        }
    }
}

/// A dump is kept as its mark, the number of its packets, and each packet behind its length.
pub proof fn dumps_are_kept_packet_by_packet(
    packets: &Vec<Vec<u8>>,
    r: Vec<u8>,
    longer: &Vec<Vec<u8>>,
    last: Vec<u8>,
    t: Vec<u8>,
)
    requires
        packets@.len() < u32::MAX && last@.len() <= u32::MAX,
        forall|i: int| 0 <= i < packets@.len() ==> (#[trigger] packets@[i])@.len() <= u32::MAX,
        call_ensures(frame_dump, (packets,), r),
        longer@ == packets@.push(last),
        call_ensures(frame_dump, (longer,), t),
    ensures
        r@.len() >= 12 && r@.take(8) == seq![77u8, 67, 72, 68, 1, 0, 0, 0] && four(r@, 8)
            == packets@.len(),
        packets@.len() == 0 ==> r@.len() == 12,
        t@.len() == r@.len() + 4 + last@.len(),
        t@.subrange(12, r@.len() as int) == r@.skip(12),
        four(t@, r@.len() as int) == last@.len(),
        t@.skip(r@.len() as int + 4) == last@,
{
    let n = crate::bytes::le32(packets@.len() as u32);
    crate::bytes::le32_round(packets@.len() as u32);
    let l = crate::bytes::le32(last@.len() as u32);
    crate::bytes::le32_round(last@.len() as u32);
    assert(r@[8] == n[0] && r@[9] == n[1] && r@[10] == n[2] && r@[11] == n[3]);
    assert(r@.take(8) =~= seq![77u8, 67, 72, 68, 1, 0, 0, 0]);
    assert(longer@.drop_last() =~= packets@);
    let before = framed_packets(packets@);
    assert(framed_packets(longer@) == before + l + last@);
    assert(r@.skip(12) =~= before);
    assert(r@.len() == 12 + before.len());
    assert(t@.subrange(12, r@.len() as int) =~= before);
    let at = r@.len() as int;
    assert(t@[at] == l[0] && t@[at + 1] == l[1] && t@[at + 2] == l[2] && t@[at + 3] == l[3]);
    assert(t@.skip(r@.len() as int + 4) =~= last@);
}

/// A notification is kept whole behind the time and its length, or not at all: not where it
/// is not the kernel's, was cut, or was not alone, and not where records were lost before it.
pub proof fn notifications_are_kept_whole(
    framed: &mut Vec<u8>,
    count: i64,
    bytes: &Vec<u8>,
    arrival: Arrival,
    beside: &[Beside],
    now: u64,
    r: Result<(), Fault>,
    fresh: Vec<u8>,
)
    requires
        old(framed)@.len() <= 1048576 && bytes@.len() <= 65536,
        call_ensures(notified, (framed, count, bytes, arrival, beside, now), r),
        call_ensures(no_notifications, (), fresh),
    ensures
        fresh@ == seq![77u8, 67, 72, 78, 1, 0, 0, 0],
        r is Ok <==> 0 < count <= 65536 && !arrival.truncated && arrival.length_fits
            && arrival.netlink && arrival.pid == 0 && (forall|i: int|
            0 <= i < beside@.len() ==> #[trigger] beside@[i] == Beside::Lost(0)) && old(
            framed)@.len() + bytes@.len() + 12 <= 1048576,
        r is Err ==> final(framed)@ == old(framed)@,
        r is Ok ==> ({
            let at = old(framed)@.len() as int;
            let f = final(framed)@;
            &&& f.len() == at + 12 + bytes@.len()
            &&& f.take(at) == old(framed)@
            &&& four(f, at) + 4294967296 * four(f, at + 4) == now
            &&& four(f, at + 8) == bytes@.len()
            &&& f.skip(at + 12) == bytes@
        }),
{
    beside_nothing(beside@);
    if r is Ok {
        let at = old(framed)@.len() as int;
        let f = final(framed)@;
        let low = (now % 4294967296) as u32;
        let high = (now / 4294967296) as u32;
        let a = crate::bytes::le32(low);
        let b = crate::bytes::le32(high);
        let c = crate::bytes::le32(bytes@.len() as u32);
        crate::bytes::le32_round(low);
        crate::bytes::le32_round(high);
        crate::bytes::le32_round(bytes@.len() as u32);
        assert(f[at] == a[0] && f[at + 1] == a[1] && f[at + 2] == a[2] && f[at + 3] == a[3]);
        assert(f[at + 4] == b[0] && f[at + 5] == b[1] && f[at + 6] == b[2] && f[at + 7] == b[3]);
        assert(f[at + 8] == c[0] && f[at + 9] == c[1] && f[at + 10] == c[2] && f[at + 11] == c[3]);
        assert(f.take(at) =~= old(framed)@);
        assert(f.skip(at + 12) =~= bytes@);
    }
}

proof fn beside_nothing(beside: Seq<Beside>)
    ensures
        crate::host_network::beside_fault(beside) is None <==> (forall|i: int|
            0 <= i < beside.len() ==> #[trigger] beside[i] == Beside::Lost(0)),
    decreases beside.len(),
{
    if beside.len() > 0 {
        let front = beside.drop_last();
        beside_nothing(front);
        assert forall|i: int| 0 <= i < front.len() implies #[trigger] front[i] == beside[i] by {}
        if crate::host_network::beside_fault(beside) is None {
            assert forall|i: int| 0 <= i < beside.len() implies #[trigger] beside[i] == Beside::Lost(
                0,
            ) by {
                if i < front.len() {
                    assert(front[i] == Beside::Lost(0));
                }
            }
        }
    }
}

/// What was watched keeps the pieces that it had, and adds six under their names; it holds
/// no more than it may.
pub proof fn watches_keep_their_pieces(
    leaves: Vec<Leaf>,
    parts: WatchParts,
    r: Result<Vec<Leaf>, Fault>,
)
    requires
        call_ensures(watched, (leaves, parts), r),
    ensures
        leaves@.len() > 250 ==> r is Err,
        r matches Ok(all) ==> {
            let n = leaves@.len() as int;
            &&& all@.len() == n + 6 && all@.len() <= 256 && size_of_leaves(all@) <= 8388608
            &&& forall|i: int|
                0 <= i < n ==> (#[trigger] all@[i]).name@ == leaves@[i].name@ && all@[i].bytes@
                    == leaves@[i].bytes@
            &&& all@[n].name@ == "notifications.raw"@ && all@[n].bytes@ == parts.notifications@
            &&& all@[n + 1].name@ == "reader-stat-before.raw"@ && all@[n + 1].bytes@
                == parts.stat_before@
            &&& all@[n + 2].name@ == "reader-stat-after.raw"@ && all@[n + 2].bytes@
                == parts.stat_after@
            &&& all@[n + 3].name@ == "netlink-queue-before.raw"@ && all@[n + 3].bytes@
                == parts.queue_before@
            &&& all@[n + 4].name@ == "netlink-queue-after.raw"@ && all@[n + 4].bytes@
                == parts.queue_after@
            &&& all@[n + 5].name@ == "identity.json"@ && all@[n + 5].bytes@ == parts.identity@
        },
{
    let v = leaves_view(leaves@);
    if r is Ok {
        let all = r->Ok_0@;
        let w = leaves_view(all);
        let n = leaves@.len() as int;
        assert(w.len() == n + 6);
        assert forall|i: int| 0 <= i < n implies (#[trigger] all[i]).name@ == leaves@[i].name@
            && all[i].bytes@ == leaves@[i].bytes@ by {
            assert(w[i] == v[i]);
        }
        assert(w[n].0 == all[n].name@ && w[n + 1].0 == all[n + 1].name@ && w[n + 2].0 == all[n
            + 2].name@);
        assert(w[n + 3].0 == all[n + 3].name@ && w[n + 4].0 == all[n + 4].name@ && w[n + 5].0
            == all[n + 5].name@);
    }
}

/// What the pieces of a list hold is as much as they hold each.
pub proof fn pieces_add_up(leaves: Seq<Leaf>, last: Leaf)
    ensures
        size_of_leaves(Seq::<Leaf>::empty()) == 0,
        size_of_leaves(leaves.push(last)) == size_of_leaves(leaves) + last.bytes@.len(),
{
    assert(leaves.push(last).drop_last() =~= leaves);
}

/// Planted sockets bear a fresh challenge in their names, in hex, and none is planted
/// without one or by anyone but root.
pub proof fn planted_names_are_fresh(user: u32, challenge: &[u8], r: Result<PlantedNames, Fault>, hex: String)
    requires
        call_ensures(planted_names, (user, challenge), r),
        call_ensures(crate::text::hex_text, (challenge,), hex),
    ensures
        r is Ok <==> user == 0 && (exists|i: int|
            0 <= i < challenge@.len() && #[trigger] challenge@[i] != 0),
        r matches Ok(names) ==> names.pathname@ == "/tmp/memcordon-private-unix-"@ + hex@
            + "-path"@ && names.abstract_name@ == "memcordon-private-unix-"@ + hex@ + "-abstract"@,
{
}

/// A trial runs in namespaces of its own, which do not change under it, and leaves nothing
/// behind.
pub proof fn trials_are_isolated(
    original_net: u64,
    original_mount: u64,
    net: u64,
    mount: u64,
    r: Result<(), Fault>,
    net_after: u64,
    mount_after: u64,
    look: PathLook,
    c: Result<(), Fault>,
    length: usize,
    b: Result<(), Fault>,
)
    requires
        call_ensures(isolated, (original_net, original_mount, net, mount), r),
        call_ensures(cleaned_up, (net, mount, net_after, mount_after, look), c),
        call_ensures(detector_bound, (length,), b),
    ensures
        r is Ok <==> net > 0 && mount > 0 && net != original_net && mount != original_mount,
        c is Ok <==> net_after == net && mount_after == mount && look == PathLook::Gone,
        b is Ok <==> 1 <= length <= 1048576,
{
}

/// A trial's pieces are ten, each under its own name; the last is the time, low byte first.
pub proof fn trials_keep_ten_pieces(parts: DetectorParts, r: Vec<Leaf>)
    requires
        call_ensures(crate::unix_detector::sample, (parts,), r),
    ensures
        r@.len() == 10,
        r@[0].name@ == "stat-before.raw"@ && r@[0].bytes@ == parts.stat_before@,
        r@[1].name@ == "status.raw"@ && r@[1].bytes@ == parts.status@,
        r@[2].name@ == "unix-before.raw"@ && r@[2].bytes@ == parts.unix_before@,
        r@[3].name@ == "unix-held.raw"@ && r@[3].bytes@ == parts.unix_held@,
        r@[4].name@ == "pathname-fdinfo.raw"@ && r@[4].bytes@ == parts.pathname_fdinfo@,
        r@[5].name@ == "abstract-fdinfo.raw"@ && r@[5].bytes@ == parts.abstract_fdinfo@,
        r@[6].name@ == "identity.json"@ && r@[6].bytes@ == parts.identity@,
        r@[7].name@ == "unix-after.raw"@ && r@[7].bytes@ == parts.unix_after@,
        r@[8].name@ == "stat-after.raw"@ && r@[8].bytes@ == parts.stat_after@,
        r@[9].name@ == "end-monotonic.raw"@ && r@[9].bytes@.len() == 8 && four(r@[9].bytes@, 0)
            + 4294967296 * four(r@[9].bytes@, 4) == parts.end,
{
    let v = leaves_view(r@);
    assert(v.len() == 10);
    assert(v[0].0 == r@[0].name@ && v[1].0 == r@[1].name@ && v[2].0 == r@[2].name@);
    assert(v[3].0 == r@[3].name@ && v[4].0 == r@[4].name@ && v[5].0 == r@[5].name@);
    assert(v[6].0 == r@[6].name@ && v[7].0 == r@[7].name@ && v[8].0 == r@[8].name@);
    assert(v[9].0 == r@[9].name@);
    let low = (parts.end % 4294967296) as u32;
    let high = (parts.end / 4294967296) as u32;
    crate::bytes::le32_round(low);
    crate::bytes::le32_round(high);
    let s = r@[9].bytes@;
    let a = crate::bytes::le32(low);
    let b = crate::bytes::le32(high);
    assert(s[0] == a[0] && s[1] == a[1] && s[2] == a[2] && s[3] == a[3]);
    assert(s[4] == b[0] && s[5] == b[1] && s[6] == b[2] && s[7] == b[3]);
}

} // verus!
