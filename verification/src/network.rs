//! Reading the network state of a task from the kernel: a dump that is asked for and
//! checked message by message, and the sample that is put together from it.

use vstd::prelude::*;
use vstd::string::*;

use crate::bytes::{
    from_le16, from_le32, get_le16, get_le32, le16, le32, put_le16, put_le32,
};
use crate::json::{fields_view, json_bytes, object, Json, JsonView};
use crate::model::{Fault, FaultKind};
use crate::scan::{
    find, find_from, number_in, parse_number, part, pieces, split_words, words_of, NumberFault,
};
use crate::text::{chars_of, decimal, decimal_text, join2, join3, utf8_text};
use crate::time::{floor_sub, Duration};

verus! {

/// The most bytes that one file may hold.
pub const FILE_BOUND: usize = 1048576;

/// The most datagrams that a dump may come in.
pub const MAX_PACKETS: usize = 64;

/// The most bytes that a dump may come in.
pub const DUMP_BOUND: usize = 524288;

/// The most bytes that one datagram may hold.
pub const PACKET_BOUND: usize = 8192;

/// Something found wrong here.
pub open spec fn other(text: &'static str) -> Fault {
    Fault::found(FaultKind::Other, text)
}

/// Decides whether a file that was read is taken.
pub fn source_bound(length: usize) -> (r: Result<(), Fault>)
    ensures
        r == if length > FILE_BOUND {
            Err::<(), Fault>(other("network source exceeds reviewed bound"))
        } else {
            Ok(())
        },
{
    if length > FILE_BOUND {
        Err(Fault::new(FaultKind::Other, "network source exceeds reviewed bound"))
    } else {
        Ok(())
    }
}

/// Why a task's start could not be read.
#[derive(Debug)]
pub enum StartFault {
    /// The bytes are no text.
    NotText,
    Number(NumberFault),
    Found(Fault),
}

/// The place of the last closing bracket with a blank behind it, before place `i`; minus
/// one where there is none.
pub open spec fn last_close(s: Seq<char>, i: int) -> int
    decreases i,
{
    if i <= 0 {
        -1
    } else if i < s.len() && s[i - 1] == ')' && s[i] == ' ' {
        i - 1
    } else {
        last_close(s, i - 1)
    }
}

/// When a task started, as the text of its `stat` says it.
pub open spec fn start_in(s: Seq<char>, pid: u32) -> Result<u64, StartFault> {
    let blank = find_from(s, ' ', 0);
    if blank >= s.len() {
        Err(StartFault::Found(other("network target stat prefix absent")))
    } else {
        match number_in(s.subrange(0, blank), 10, u32::MAX as nat) {
            Err(fault) => Err(StartFault::Number(fault)),
            Ok(number) => if number != pid {
                Err(StartFault::Found(other("network source task identity differs")))
            } else {
                let tail = s.subrange(blank + 1, s.len() as int);
                let close = last_close(tail, tail.len() as int);
                if close < 0 {
                    Err(StartFault::Found(other("network target stat fields absent")))
                } else {
                    let words = words_of(tail.subrange(close + 2, tail.len() as int));
                    if words.len() <= 19 {
                        Err(StartFault::Found(other("network target start absent")))
                    } else {
                        match number_in(words[19], 10, u64::MAX as nat) {
                            Ok(ticks) => Ok(ticks as u64),
                            Err(fault) => Err(StartFault::Number(fault)),
                        }
                    }
                }
            },
        }
    }
}

/// When a task started, as the bytes of its `stat` say it.
pub open spec fn start_of(bytes: Seq<u8>, pid: u32) -> Result<u64, StartFault> {
    if vstd::utf8::valid_utf8(bytes) {
        start_in(vstd::utf8::decode_utf8(bytes), pid)
    } else {
        Err(StartFault::NotText)
    }
}

/// Reads from a task's `stat` when it started.
pub fn start(bytes: &[u8], pid: u32) -> (r: Result<u64, StartFault>)
    ensures
        r == start_of(bytes@, pid),
{
    let text = match utf8_text(bytes) {
        Some(text) => text,
        None => {
            return Err(StartFault::NotText);
        },
    };
    let chars = chars_of(text);
    let blank = find(chars.as_slice(), ' ', 0);
    if blank >= chars.len() {
        return Err(
            StartFault::Found(Fault::new(FaultKind::Other, "network target stat prefix absent")),
        );
    }
    let head = part(chars.as_slice(), 0, blank);
    let number: u64 = match parse_number(head.as_slice(), 10, u32::MAX as u64) {
        Ok(number) => number,
        Err(fault) => {
            return Err(StartFault::Number(fault));
        },
    };
    if number != pid as u64 {
        return Err(
            StartFault::Found(Fault::new(FaultKind::Other, "network source task identity differs")),
        );
    }
    let tail = part(chars.as_slice(), blank + 1, chars.len());
    let mut i: usize = tail.len();
    while i > 0 && !(i < tail.len() && tail[i - 1] == ')' && tail[i] == ' ')
        invariant
            i <= tail.len(),
            last_close(tail@, i as int) == last_close(tail@, tail.len() as int),
        decreases i,
    {
        i -= 1;
    }
    if i == 0 {
        return Err(
            StartFault::Found(Fault::new(FaultKind::Other, "network target stat fields absent")),
        );
    }
    let rest = part(tail.as_slice(), i + 1, tail.len());
    let words = split_words(rest.as_slice());
    assert(pieces(words@).len() == words@.len());
    if words.len() <= 19 {
        return Err(
            StartFault::Found(Fault::new(FaultKind::Other, "network target start absent")),
        );
    }
    assert(pieces(words@)[19] == words@[19]@);
    match parse_number(words[19].as_slice(), 10, u64::MAX) {
        Ok(ticks) => Ok(ticks),
        Err(fault) => Err(StartFault::Number(fault)),
    }
}

/// Decides whether a task may be sampled.
pub fn may_sample(pid: u32, ticks: u64, user: u32) -> (r: Result<(), Fault>)
    ensures
        r == if pid == 0 || ticks == 0 || user != 0 {
            Err::<(), Fault>(other("network sampling requires held task and root observer"))
        } else {
            Ok(())
        },
{
    if pid == 0 || ticks == 0 || user != 0 {
        Err(Fault::new(FaultKind::Other, "network sampling requires held task and root observer"))
    } else {
        Ok(())
    }
}

/// Decides whether the task is still the one that is meant, before it is sampled.
pub fn same_start(found: u64, ticks: u64) -> (r: Result<(), Fault>)
    ensures
        r == if found != ticks {
            Err::<(), Fault>(other("network target start changed"))
        } else {
            Ok(())
        },
{
    if found != ticks {
        Err(Fault::new(FaultKind::Other, "network target start changed"))
    } else {
        Ok(())
    }
}

/// Decides whether the reader is in the task's namespace.
pub fn joined_namespace(found: u64, target: u64) -> (r: Result<(), Fault>)
    ensures
        r == if found != target {
            Err::<(), Fault>(other("joined network namespace differs"))
        } else {
            Ok(())
        },
{
    if found != target {
        Err(Fault::new(FaultKind::Other, "joined network namespace differs"))
    } else {
        Ok(())
    }
}

/// Decides whether the task is still the one that is meant, after it was sampled.
pub fn still_held(found: u64, ticks: u64, inode: u64, target: u64) -> (r: Result<(), Fault>)
    ensures
        r == if found != ticks || inode != target {
            Err::<(), Fault>(other("held network task changed during sample"))
        } else {
            Ok(())
        },
{
    if found != ticks || inode != target {
        Err(Fault::new(FaultKind::Other, "held network task changed during sample"))
    } else {
        Ok(())
    }
}

/// Decides whether the reader is back in its own namespace.
pub fn restored_namespace(restored: bool, found: u64, original: u64) -> (r: Result<(), Fault>)
    ensures
        r == if !restored {
            Err::<(), Fault>(other("network observer namespace restoration failed"))
        } else if found != original {
            Err(other("restored observer network namespace differs"))
        } else {
            Ok(())
        },
{
    if !restored {
        Err(Fault::new(FaultKind::Other, "network observer namespace restoration failed"))
    } else if found != original {
        Err(Fault::new(FaultKind::Other, "restored observer network namespace differs"))
    } else {
        Ok(())
    }
}

/// Decides whether the reader has a port of its own to be answered at.
pub fn observer_port(named: bool, length_fits: bool, port: u32) -> (r: Result<u32, Fault>)
    ensures
        r == if !named || !length_fits || port == 0 {
            Err::<u32, Fault>(other("observer netlink port absent"))
        } else {
            Ok(port)
        },
{
    if !named || !length_fits || port == 0 {
        Err(Fault::new(FaultKind::Other, "observer netlink port absent"))
    } else {
        Ok(port)
    }
}

/// The request for a dump: its length, its kind, that all is asked for, a sequence
/// number of one, the port to answer at, and a body of zeros.
pub open spec fn request_bytes(request: u16, body: nat, port: u32) -> Seq<u8> {
    le32((16 + body) as u32) + le16(request) + le16(0x301) + le32(1) + le32(port) + Seq::new(
        body,
        |i: int| 0u8,
    )
}

/// The request for a dump.
pub fn dump_request(request: u16, body: usize, port: u32) -> (r: Vec<u8>)
    requires
        16 + body <= u32::MAX,
    ensures
        r@ == request_bytes(request, body as nat, port),
{
    let mut out: Vec<u8> = Vec::new();
    put_le32(&mut out, 16 + body as u32);
    put_le16(&mut out, request);
    put_le16(&mut out, 0x301);
    put_le32(&mut out, 1);
    put_le32(&mut out, port);
    let ghost head = out@;
    let mut i: usize = 0;
    assert(out@ =~= head + Seq::new(0, |k: int| 0u8));
    while i < body
        invariant
            i <= body,
            out@ == head + Seq::new(i as nat, |k: int| 0u8),
        decreases body - i,
    {
        out.push(0);
        i += 1;
        assert(out@ =~= head + Seq::new(i as nat, |k: int| 0u8));
    }
    assert(out@ =~= request_bytes(request, body as nat, port));
    out
}

/// What the messages of a datagram from place `cursor` on come to: whether the last one
/// was seen, or what is wrong with them.
pub open spec fn messages(
    bytes: Seq<u8>,
    cursor: int,
    done: bool,
    port: u32,
    response: u16,
) -> Result<bool, &'static str>
    decreases bytes.len() - cursor,
{
    if cursor < 0 || cursor >= bytes.len() {
        Ok(done)
    } else if bytes.len() - cursor < 16 {
        Err("network dump partial header")
    } else {
        let length = from_le32(
            bytes[cursor],
            bytes[cursor + 1],
            bytes[cursor + 2],
            bytes[cursor + 3],
        ) as int;
        let kind = from_le16(bytes[cursor + 4], bytes[cursor + 5]);
        let flags = from_le16(bytes[cursor + 6], bytes[cursor + 7]);
        let sequence = from_le32(
            bytes[cursor + 8],
            bytes[cursor + 9],
            bytes[cursor + 10],
            bytes[cursor + 11],
        );
        let answered = from_le32(
            bytes[cursor + 12],
            bytes[cursor + 13],
            bytes[cursor + 14],
            bytes[cursor + 15],
        );
        if length < 16 || length > bytes.len() - cursor || sequence != 1 || answered != port
            || flags / 16 % 2 == 1 {
            Err("network dump sequence/length/interruption differs")
        } else if kind == 3 && (length < 20 || !(bytes[cursor + 16] == 0 && bytes[cursor + 17] == 0
            && bytes[cursor + 18] == 0 && bytes[cursor + 19] == 0)) {
            Err("network dump DONE status differs")
        } else if kind != 3 && (kind != response || done) {
            Err("network dump message type/order differs")
        } else {
            let next = cursor + (length + 3) / 4 * 4;
            if next > bytes.len() {
                Err("network dump alignment differs")
            } else {
                messages(bytes, next, done || kind == 3, port, response)
            }
        }
    }
}

/// Checks the messages of a datagram; true once the last one of the dump was seen.
pub fn check_packet(bytes: &[u8], port: u32, response: u16) -> (r: Result<bool, Fault>)
    requires
        bytes.len() <= PACKET_BOUND,
    ensures
        r == match messages(bytes@, 0, false, port, response) {
            Ok(done) => Ok::<bool, Fault>(done),
            Err(text) => Err(other(text)),
        },
{
    let mut cursor: usize = 0;
    let mut done = false;
    while cursor < bytes.len()
        invariant
            cursor <= bytes.len() <= PACKET_BOUND,
            messages(bytes@, cursor as int, done, port, response) == messages(
                bytes@,
                0,
                false,
                port,
                response,
            ),
        decreases bytes.len() - cursor,
    {
        if bytes.len() - cursor < 16 {
            return Err(Fault::new(FaultKind::Other, "network dump partial header"));
        }
        let length: u32 = get_le32(bytes, cursor);
        let kind: u16 = get_le16(bytes, cursor + 4);
        let flags: u16 = get_le16(bytes, cursor + 6);
        let sequence: u32 = get_le32(bytes, cursor + 8);
        let answered: u32 = get_le32(bytes, cursor + 12);
        if length < 16 || length as usize > bytes.len() - cursor || sequence != 1 || answered
            != port || flags / 16 % 2 == 1 {
            return Err(
                Fault::new(FaultKind::Other, "network dump sequence/length/interruption differs"),
            );
        }
        if kind == 3 {
            if length < 20 || !(bytes[cursor + 16] == 0 && bytes[cursor + 17] == 0 && bytes[cursor
                + 18] == 0 && bytes[cursor + 19] == 0) {
                return Err(Fault::new(FaultKind::Other, "network dump DONE status differs"));
            }
            done = true;
        } else if kind != response || done {
            return Err(Fault::new(FaultKind::Other, "network dump message type/order differs"));
        }
        cursor = cursor + (length as usize + 3) / 4 * 4;
        if cursor > bytes.len() {
            return Err(Fault::new(FaultKind::Other, "network dump alignment differs"));
        }
    }
    Ok(done)
}

/// Who a datagram came from.
#[derive(Clone, Copy, Debug, PartialEq, Eq, Structural)]
pub struct Sender {
    pub length_fits: bool,
    pub netlink: bool,
    pub pid: u32,
    pub groups: u32,
}

/// Whether a datagram came from the kernel, and from nobody else.
pub open spec fn from_kernel(sender: Sender) -> bool {
    sender.length_fits && sender.netlink && sender.pid == 0 && sender.groups == 0
}

/// A dump that is being received.
#[derive(Debug)]
pub struct Dump {
    pub port: u32,
    pub response: u16,
    pub packets: Vec<Vec<u8>>,
    pub total: usize,
    pub done: bool,
}

/// How many bytes some datagrams hold together.
pub open spec fn size_of_all(packets: Seq<Vec<u8>>) -> nat
    decreases packets.len(),
{
    if packets.len() == 0 {
        0
    } else {
        size_of_all(packets.drop_last()) + packets.last()@.len()
    }
}

impl Dump {
    /// What always holds of a dump: it stays within its bounds, and nothing follows its
    /// last message.
    pub open spec fn wf(self) -> bool {
        &&& self.packets@.len() <= MAX_PACKETS
        &&& self.total == size_of_all(self.packets@)
        &&& self.total <= DUMP_BOUND
        &&& forall|i: int|
            0 <= i < self.packets@.len() ==> messages(
                (#[trigger] self.packets@[i])@,
                0,
                false,
                self.port,
                self.response,
            ) == Ok::<bool, &'static str>(self.done && i == self.packets@.len() - 1)
    }

    /// A dump of which nothing has come yet.
    pub fn begin(port: u32, response: u16) -> (r: Dump)
        ensures
            r.wf(),
            !r.done,
            r.packets@.len() == 0,
            r.port == port,
            r.response == response,
    {
        Dump { port, response, packets: Vec::new(), total: 0, done: false }
    }

    /// How many milliseconds to wait for the next datagram.
    pub fn next_wait(&self, now: Duration, deadline: Duration) -> (r: Result<i32, Fault>)
        requires
            self.wf(),
            !self.done,
        ensures
            ({
                let left = floor_sub(deadline@, now@) / 1_000_000;
                r == if self.packets@.len() >= MAX_PACKETS {
                    Err::<i32, Fault>(other("network dump lacks bounded DONE"))
                } else if left == 0 {
                    Err(other("network dump deadline expired"))
                } else if left > i32::MAX {
                    Ok(i32::MAX)
                } else {
                    Ok(left as i32)
                }
            }),
    {
        if self.packets.len() >= MAX_PACKETS {
            return Err(Fault::new(FaultKind::Other, "network dump lacks bounded DONE"));
        }
        let left: u128 = deadline.saturating_sub(now).as_millis();
        if left == 0 {
            return Err(Fault::new(FaultKind::Other, "network dump deadline expired"));
        }
        if left > i32::MAX as u128 {
            Ok(i32::MAX)
        } else {
            Ok(left as i32)
        }
    }

    /// The wait is over; without a datagram the dump has failed.
    pub fn waited(ready: bool) -> (r: Result<(), Fault>)
        ensures
            r == if ready {
                Ok::<(), Fault>(())
            } else {
                Err(other("network dump deadline expired"))
            },
    {
        if ready {
            Ok(())
        } else {
            Err(Fault::new(FaultKind::Other, "network dump deadline expired"))
        }
    }

    /// What is wrong with a datagram of `count` bytes, if anything.
    pub open spec fn wrong(self, count: i64, bytes: Seq<u8>, sender: Sender) -> Option<&'static str> {
        if count <= 0 || count > PACKET_BOUND || !from_kernel(sender) {
            Some("network dump sender/length differs")
        } else if self.total + bytes.len() > DUMP_BOUND {
            Some("network dump byte bound exceeded")
        } else {
            match messages(bytes, 0, false, self.port, self.response) {
                Err(text) => Some(text),
                Ok(_) => None,
            }
        }
    }

    /// Takes in a datagram; true once the dump is complete. `count` is how long it was
    /// before it was cut off, if it was.
    pub fn received(&mut self, count: i64, bytes: Vec<u8>, sender: Sender) -> (r: Result<
        bool,
        Fault,
    >)
        requires
            old(self).wf(),
            !old(self).done,
            old(self).packets@.len() < MAX_PACKETS,
            0 < count <= PACKET_BOUND ==> bytes@.len() == count,
        ensures
            match old(self).wrong(count, bytes@, sender) {
                Some(text) => r == Err::<bool, Fault>(other(text)) && *final(self) == *old(self),
                None => r matches Ok(done) && messages(
                    bytes@,
                    0,
                    false,
                    old(self).port,
                    old(self).response,
                ) == Ok::<bool, &'static str>(done) && *final(self) == (Dump {
                    packets: final(self).packets,
                    total: final(self).total,
                    done,
                    ..*old(self)
                }) && final(self).packets@ == old(self).packets@.push(bytes) && final(self).wf(),
            },
    {
        if count <= 0 || count > PACKET_BOUND as i64 || !sender.length_fits || !sender.netlink
            || sender.pid != 0 || sender.groups != 0 {
            return Err(Fault::new(FaultKind::Other, "network dump sender/length differs"));
        }
        if self.total + bytes.len() > DUMP_BOUND {
            return Err(Fault::new(FaultKind::Other, "network dump byte bound exceeded"));
        }
        let done = match check_packet(bytes.as_slice(), self.port, self.response) {
            Ok(done) => done,
            Err(fault) => {
                return Err(fault);
            },
        };
        let ghost before = self.packets@;
        self.total = self.total + bytes.len();
        self.packets.push(bytes);
        self.done = done;
        assert(self.packets@.drop_last() =~= before);
        Ok(done)
    }
}

/// A dump that is complete holds nothing behind its last message, in no datagram but the
/// last one.
pub proof fn complete_dumps_end_once(dump: Dump, i: int)
    requires
        dump.wf(),
        dump.done,
        0 <= i < dump.packets@.len(),
    ensures
        messages(dump.packets@[i]@, 0, false, dump.port, dump.response) == Ok::<
            bool,
            &'static str,
        >(i == dump.packets@.len() - 1),
        size_of_all(dump.packets@) <= DUMP_BOUND,
{
}

/// One piece of a sample under its name.
#[derive(Debug)]
pub struct Leaf {
    pub name: String,
    pub bytes: Vec<u8>,
}

/// What a piece holds.
pub open spec fn leaf_view(leaf: Leaf) -> (Seq<char>, Seq<u8>) {
    (leaf.name@, leaf.bytes@)
}

/// What several pieces hold.
pub open spec fn leaves_view(leaves: Seq<Leaf>) -> Seq<(Seq<char>, Seq<u8>)> {
    Seq::new(leaves.len(), |i: int| leaf_view(leaves[i]))
}

/// Adds a piece.
pub fn put_leaf(leaves: &mut Vec<Leaf>, name: String, bytes: Vec<u8>)
    ensures
        leaves_view(final(leaves)@) == leaves_view(old(leaves)@).push((name@, bytes@)),
{
    let ghost before = leaves@;
    leaves.push(Leaf { name, bytes });
    assert(leaves_view(leaves@) =~= leaves_view(before).push((name@, bytes@)));
}

/// The pieces of a dump: the request, and the datagrams under their numbers.
pub open spec fn dump_leaves(label: Seq<char>, sent: Seq<u8>, packets: Seq<Vec<u8>>) -> Seq<
    (Seq<char>, Seq<u8>),
> {
    seq![(label + "/request.raw"@, sent)] + Seq::new(
        packets.len(),
        |i: int| (label + "/"@ + decimal(i as nat) + ".raw"@, packets[i]@),
    )
}

/// Adds the pieces of a dump.
pub fn put_dump(leaves: &mut Vec<Leaf>, label: &'static str, sent: Vec<u8>, packets: Vec<Vec<u8>>)
    ensures
        leaves_view(final(leaves)@) == leaves_view(old(leaves)@) + dump_leaves(
            label@,
            sent@,
            packets@,
        ),
{
    let ghost all = packets@;
    let ghost before = leaves_view(leaves@);
    let ghost request = sent@;
    put_leaf(leaves, join2(label, "/request.raw"), sent);
    let mut rest = packets;
    let mut i: usize = 0;
    let count: usize = rest.len();
    let mut ordered: Vec<Vec<u8>> = Vec::new();
    while rest.len() > 0
        invariant
            rest@ == all.take(rest@.len() as int),
            rest@.len() <= all.len(),
            ordered@.len() == all.len() - rest@.len(),
            forall|k: int| 0 <= k < ordered@.len() ==> ordered@[k] == all[all.len() - 1 - k],
        decreases rest.len(),
    {
        match rest.pop() {
            Some(packet) => {
                ordered.push(packet);
            },
            None => {},
        }
        assert(rest@ =~= all.take(rest@.len() as int));
    }
    assert(leaves_view(leaves@) =~= before + dump_leaves(label@, request, all).take(1));
    while i < count
        invariant
            i <= count,
            count == all.len(),
            ordered@.len() == count - i,
            forall|k: int| 0 <= k < ordered@.len() ==> ordered@[k] == all[all.len() - 1 - k],
            leaves_view(leaves@) == before + dump_leaves(label@, request, all).take(i + 1),
        decreases count - i,
    {
        let number = decimal_text(i as u64);
        let mut name = join3(label, "/", number.as_str());
        name.append(".raw");
        match ordered.pop() {
            Some(packet) => {
                put_leaf(leaves, name, packet);
            },
            None => {},
        }
        i += 1;
        assert(leaves_view(leaves@) =~= before + dump_leaves(label@, request, all).take(i + 1));
    }
    assert(dump_leaves(label@, request, all).take(count + 1) =~= dump_leaves(
        label@,
        request,
        all,
    ));
}

/// A kind of dump: its name, what it is asked with, what it is answered with, and how
/// long the request's body is.
#[derive(Clone, Copy, Debug)]
pub struct DumpKind {
    pub label: &'static str,
    pub request: u16,
    pub response: u16,
    pub body: usize,
}

/// The dumps of a sample, in order.
pub open spec fn dump_kind(ordinal: int) -> Option<DumpKind> {
    if ordinal == 0 {
        Some(DumpKind { label: "links", request: 18, response: 16, body: 16 })
    } else if ordinal == 1 {
        Some(DumpKind { label: "addresses", request: 22, response: 20, body: 8 })
    } else if ordinal == 2 {
        Some(DumpKind { label: "routes", request: 26, response: 24, body: 12 })
    } else {
        None
    }
}

/// The dumps of a sample, in order.
pub fn nth_dump(ordinal: usize) -> (r: Option<DumpKind>)
    ensures
        r == dump_kind(ordinal as int),
{
    if ordinal == 0 {
        Some(DumpKind { label: "links", request: 18, response: 16, body: 16 })
    } else if ordinal == 1 {
        Some(DumpKind { label: "addresses", request: 22, response: 20, body: 8 })
    } else if ordinal == 2 {
        Some(DumpKind { label: "routes", request: 26, response: 24, body: 12 })
    } else {
        None
    }
}

/// The names of the settings that are sampled, in order.
pub open spec fn setting_named(ordinal: int) -> Option<&'static str> {
    if ordinal == 0 {
        Some("ip_unprivileged_port_start")
    } else if ordinal == 1 {
        Some("ip_forward")
    } else if ordinal == 2 {
        Some("ip_local_port_range")
    } else if ordinal == 3 {
        Some("ip_local_reserved_ports")
    } else {
        None
    }
}

/// The names of the settings that are sampled, in order. Each is a file below
/// `/proc/sys/net/ipv4/`.
pub fn setting_name(ordinal: usize) -> (r: Option<&'static str>)
    ensures
        r == setting_named(ordinal as int),
{
    if ordinal == 0 {
        Some("ip_unprivileged_port_start")
    } else if ordinal == 1 {
        Some("ip_forward")
    } else if ordinal == 2 {
        Some("ip_local_port_range")
    } else if ordinal == 3 {
        Some("ip_local_reserved_ports")
    } else {
        None
    }
}

/// Who was sampled, from where and when.
#[derive(Clone, Copy, Debug, PartialEq, Eq, Structural)]
pub struct SampleIdentity {
    pub pid: u32,
    pub ticks: u64,
    pub original_inode: u64,
    pub target_inode: u64,
    pub begin: u64,
    pub end: u64,
}

/// The fields that say who was sampled.
pub open spec fn identity_fields(identity: SampleIdentity) -> Seq<(Seq<char>, JsonView)> {
    seq![
        ("schema_version"@, JsonView::Number(1)),
        ("target_pid"@, JsonView::Number(identity.pid as u64)),
        ("target_start_ticks"@, JsonView::Number(identity.ticks)),
        ("host_netns_inode"@, JsonView::Number(identity.original_inode)),
        ("target_netns_inode"@, JsonView::Number(identity.target_inode)),
        ("begin_monotonic_ns"@, JsonView::Number(identity.begin)),
        ("end_monotonic_ns"@, JsonView::Number(identity.end)),
    ]
}

/// The bytes that say who was sampled.
pub fn sample_identity(identity: SampleIdentity) -> (r: Result<Vec<u8>, Fault>)
    ensures
        r matches Ok(bytes) && bytes@ == json_bytes(identity_fields(identity)),
{
    let mut fields: Vec<(&'static str, Json)> = Vec::new();
    fields.push(("schema_version", Json::Number(1)));
    fields.push(("target_pid", Json::Number(identity.pid as u64)));
    fields.push(("target_start_ticks", Json::Number(identity.ticks)));
    fields.push(("host_netns_inode", Json::Number(identity.original_inode)));
    fields.push(("target_netns_inode", Json::Number(identity.target_inode)));
    fields.push(("begin_monotonic_ns", Json::Number(identity.begin)));
    fields.push(("end_monotonic_ns", Json::Number(identity.end)));
    assert(fields_view(fields@) =~= identity_fields(identity));
    object(&fields)
}

/// A dump that is complete, with what it was asked with.
#[derive(Debug)]
pub struct CompleteDump {
    pub sent: Vec<u8>,
    pub packets: Vec<Vec<u8>>,
}

/// Everything that was read for a sample.
#[derive(Debug)]
pub struct SampleParts {
    pub reader_before: Vec<u8>,
    pub port_start: Vec<u8>,
    pub forward: Vec<u8>,
    pub port_range: Vec<u8>,
    pub reserved_ports: Vec<u8>,
    pub links: CompleteDump,
    pub addresses: CompleteDump,
    pub routes: CompleteDump,
    pub status: Vec<u8>,
    pub target_before: Vec<u8>,
    pub target_after: Vec<u8>,
    pub reader_after: Vec<u8>,
    pub begin: u64,
    pub end: u64,
}

/// The task that is sampled, and the user who samples it.
#[derive(Clone, Copy, Debug, PartialEq, Eq, Structural)]
pub struct HeldTask {
    pub pid: u32,
    pub ticks: u64,
    pub user: u32,
}

/// The namespaces that were seen around a sample, by their numbers.
#[derive(Clone, Copy, Debug, PartialEq, Eq, Structural)]
pub struct SeenNamespaces {
    /// The task's, which was joined.
    pub target: u64,
    /// The reader's own, before it joined.
    pub original: u64,
    /// The reader's, after it joined.
    pub joined: u64,
    /// The task's, after everything was read.
    pub held: u64,
    /// The reader went back, and found itself there.
    pub restored: bool,
    pub found: u64,
}

/// Who was sampled, from where and when.
pub open spec fn identity_of(task: HeldTask, seen: SeenNamespaces, parts: SampleParts) ->
    SampleIdentity {
    SampleIdentity {
        pid: task.pid,
        ticks: task.ticks,
        original_inode: seen.original,
        target_inode: seen.target,
        begin: parts.begin,
        end: parts.end,
    }
}

/// What keeps a sample from being taken for one of the task: nothing does where the
/// task is held before and after, and the reader was in its namespace and came back.
pub open spec fn sample_fault(task: HeldTask, seen: SeenNamespaces, parts: SampleParts) -> Option<
    StartFault,
> {
    if task.pid == 0 || task.ticks == 0 || task.user != 0 {
        Some(
            StartFault::Found(other("network sampling requires held task and root observer")),
        )
    } else {
        match start_of(parts.target_before@, task.pid) {
            Err(fault) => Some(fault),
            Ok(before) => if before != task.ticks {
                Some(StartFault::Found(other("network target start changed")))
            } else if !seen.restored {
                Some(StartFault::Found(other("network observer namespace restoration failed")))
            } else if seen.found != seen.original {
                Some(StartFault::Found(other("restored observer network namespace differs")))
            } else if seen.joined != seen.target {
                Some(StartFault::Found(other("joined network namespace differs")))
            } else {
                match start_of(parts.target_after@, task.pid) {
                    Err(fault) => Some(fault),
                    Ok(after) => if after != task.ticks || seen.held != seen.target {
                        Some(
                            StartFault::Found(other("held network task changed during sample")),
                        )
                    } else {
                        None
                    },
                }
            },
        }
    }
}

/// The pieces of a sample, the last of which says who was sampled.
pub open spec fn sample_view(parts: SampleParts, identity: Seq<u8>) -> Seq<(Seq<char>, Seq<u8>)> {
    seq![
        ("reader-stat.raw"@, parts.reader_before@),
        ("ip_unprivileged_port_start"@, parts.port_start@),
        ("ip_forward"@, parts.forward@),
        ("ip_local_port_range"@, parts.port_range@),
        ("ip_local_reserved_ports"@, parts.reserved_ports@),
    ] + dump_leaves("links"@, parts.links.sent@, parts.links.packets@) + dump_leaves(
        "addresses"@,
        parts.addresses.sent@,
        parts.addresses.packets@,
    ) + dump_leaves("routes"@, parts.routes.sent@, parts.routes.packets@) + seq![
        ("proc1-status.raw"@, parts.status@),
        ("target-stat-before.raw"@, parts.target_before@),
        ("target-stat-after.raw"@, parts.target_after@),
        ("reader-stat-after.raw"@, parts.reader_after@),
        ("identity.json"@, identity),
    ]
}

/// Puts a sample together, where it is one of the task that was meant.
pub fn sample(task: HeldTask, seen: SeenNamespaces, parts: SampleParts) -> (r: Result<
    Vec<Leaf>,
    StartFault,
>)
    ensures
        match r {
            Ok(leaves) => sample_fault(task, seen, parts) is None && leaves_view(leaves@)
                == sample_view(parts, json_bytes(identity_fields(identity_of(task, seen, parts)))),
            Err(fault) => sample_fault(task, seen, parts) == Some(fault),
        },
{
    match may_sample(task.pid, task.ticks, task.user) {
        Ok(_) => {},
        Err(fault) => {
            return Err(StartFault::Found(fault));
        },
    }
    let before: u64 = match start(parts.target_before.as_slice(), task.pid) {
        Ok(before) => before,
        Err(fault) => {
            return Err(fault);
        },
    };
    match same_start(before, task.ticks) {
        Ok(_) => {},
        Err(fault) => {
            return Err(StartFault::Found(fault));
        },
    }
    match restored_namespace(seen.restored, seen.found, seen.original) {
        Ok(_) => {},
        Err(fault) => {
            return Err(StartFault::Found(fault));
        },
    }
    match joined_namespace(seen.joined, seen.target) {
        Ok(_) => {},
        Err(fault) => {
            return Err(StartFault::Found(fault));
        },
    }
    let after: u64 = match start(parts.target_after.as_slice(), task.pid) {
        Ok(after) => after,
        Err(fault) => {
            return Err(fault);
        },
    };
    match still_held(after, task.ticks, seen.held, seen.target) {
        Ok(_) => {},
        Err(fault) => {
            return Err(StartFault::Found(fault));
        },
    }
    let identity = match sample_identity(
        SampleIdentity {
            pid: task.pid,
            ticks: task.ticks,
            original_inode: seen.original,
            target_inode: seen.target,
            begin: parts.begin,
            end: parts.end,
        },
    ) {
        Ok(identity) => identity,
        Err(fault) => {
            return Err(StartFault::Found(fault));
        },
    };
    let mut leaves: Vec<Leaf> = Vec::new();
    put_leaf(&mut leaves, "reader-stat.raw".to_owned(), parts.reader_before);
    put_leaf(&mut leaves, "ip_unprivileged_port_start".to_owned(), parts.port_start);
    put_leaf(&mut leaves, "ip_forward".to_owned(), parts.forward);
    put_leaf(&mut leaves, "ip_local_port_range".to_owned(), parts.port_range);
    put_leaf(&mut leaves, "ip_local_reserved_ports".to_owned(), parts.reserved_ports);
    put_dump(&mut leaves, "links", parts.links.sent, parts.links.packets);
    put_dump(&mut leaves, "addresses", parts.addresses.sent, parts.addresses.packets);
    put_dump(&mut leaves, "routes", parts.routes.sent, parts.routes.packets);
    put_leaf(&mut leaves, "proc1-status.raw".to_owned(), parts.status);
    put_leaf(&mut leaves, "target-stat-before.raw".to_owned(), parts.target_before);
    put_leaf(&mut leaves, "target-stat-after.raw".to_owned(), parts.target_after);
    put_leaf(&mut leaves, "reader-stat-after.raw".to_owned(), parts.reader_after);
    let ghost bytes = identity@;
    put_leaf(&mut leaves, "identity.json".to_owned(), identity);
    assert(leaves_view(leaves@) =~= sample_view(parts, bytes));
    Ok(leaves)
}

} // verus!
