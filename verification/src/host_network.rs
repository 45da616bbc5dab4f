//! Watching the host's own network settings while something else is measured: the
//! objects stay the same ones, nothing the kernel announces is lost, and all of it is
//! kept.

use vstd::prelude::*;
use vstd::string::*;

use crate::bytes::{le32, le64, put, put_le32, put_le64};
use crate::json::{fields_view, json_bytes, object, Json, JsonView};
use crate::model::{Fault, FaultKind, Text};
use crate::network::{leaves_view, other, put_leaf, CompleteDump, Leaf};
use crate::scan::{
    lines_of_text, number_in, parse_number, pieces, same_chars, split_lines, split_words, words_of,
    NumberFault,
};
use crate::text::{chars_of, decimal, decimal_text, join3, utf8_text};

verus! {

/// The most bytes of all pieces of a watch.
pub const SOURCE_BOUND: usize = 8388608;

/// The most bytes that announcements may take.
pub const NOTIFICATION_BOUND: usize = 1048576;

/// The most bytes that the kernel's list of sockets may take.
pub const QUEUE_BOUND: usize = 131072;

/// The groups that are listened to: links, addresses and routes of both families.
pub const GROUPS: u32 = 1361;

/// The identity of an object that is held: its device and its number there.
pub type Pin = (u64, u64);

/// The number of objects that are held.
pub const PINS: usize = 4;

/// Whether objects are held that can be told apart.
pub open spec fn are_pins(pins: Seq<Pin>) -> bool {
    &&& forall|i: int| 0 <= i < pins.len() ==> (#[trigger] pins[i]).0 != 0 && pins[i].1 != 0
    &&& forall|i: int, j: int| 0 <= i < j < pins.len() ==> pins[i] != pins[j]
}

/// A watch of the host's network.
#[derive(Debug)]
pub struct HostNetworkWatchV1 {
    pub pins: Vec<Pin>,
}

impl HostNetworkWatchV1 {
    /// Begins a watch of the four settings, whose identities are given in order.
    pub fn start(user: u32, pins: Vec<Pin>) -> (r: Result<HostNetworkWatchV1, Fault>)
        ensures
            match r {
                Ok(watch) => user == 0 && pins@.len() == PINS && are_pins(pins@) && watch.pins
                    == pins,
                Err(fault) => if user != 0 {
                    fault == other("host continuity requires root observer")
                } else {
                    (pins@.len() != PINS || !are_pins(pins@)) && fault == other(
                        "host object pins differ",
                    )
                },
            },
    {
        if user != 0 {
            return Err(Fault::new(FaultKind::Other, "host continuity requires root observer"));
        }
        if pins.len() != PINS {
            return Err(Fault::new(FaultKind::Other, "host object pins differ"));
        }
        let mut i: usize = 0;
        while i < pins.len()
            invariant
                i <= pins.len(),
                are_pins(pins@.take(i as int)),
                user == 0,
            decreases pins.len() - i,
        {
            let pin = pins[i];
            if pin.0 == 0 || pin.1 == 0 {
                assert(!(pins@[i as int].0 != 0 && pins@[i as int].1 != 0));
                return Err(Fault::new(FaultKind::Other, "host object pins differ"));
            }
            let mut j: usize = 0;
            while j < i
                invariant
                    j <= i < pins.len(),
                    pin == pins@[i as int],
                    forall|k: int| 0 <= k < j ==> pins@[k] != pins@[i as int],
                    user == 0,
                decreases i - j,
            {
                if pins[j].0 == pin.0 && pins[j].1 == pin.1 {
                    assert(pins@[j as int] == pins@[i as int]);
                    return Err(Fault::new(FaultKind::Other, "host object pins differ"));
                }
                j += 1;
            }
            let ghost longer = pins@.take(i + 1);
            assert forall|a: int, b: int| 0 <= a < b < longer.len() implies longer[a]
                != longer[b] by {
                if b < i {
                    assert(pins@.take(i as int)[a] == longer[a]);
                    assert(pins@.take(i as int)[b] == longer[b]);
                }
            }
            assert forall|a: int| 0 <= a < longer.len() implies (#[trigger] longer[a]).0 != 0
                && longer[a].1 != 0 by {
                if a < i {
                    assert(pins@.take(i as int)[a] == longer[a]);
                }
            }
            i += 1;
        }
        assert(pins@.take(i as int) =~= pins@);
        Ok(HostNetworkWatchV1 { pins })
    }

    /// The identities of the objects that are held.
    pub fn object_pins(&self) -> (r: &Vec<Pin>)
        ensures
            *r == self.pins,
    {
        &self.pins
    }

    /// Decides whether an object that is held is still the one it was.
    pub fn still_pinned(&self, slot: usize, found: Pin) -> (r: Result<(), Fault>)
        requires
            slot < self.pins.len(),
        ensures
            r == if self.pins@[slot as int] == found {
                Ok::<(), Fault>(())
            } else {
                Err(other("host held object changed"))
            },
    {
        let pin = self.pins[slot];
        if pin.0 == found.0 && pin.1 == found.1 {
            Ok(())
        } else {
            Err(Fault::new(FaultKind::Other, "host held object changed"))
        }
    }

    /// Decides whether what was read of a watch is handed out. A watch is stopped once.
    pub fn finish(stopped: bool, joined: bool, panicked: bool) -> (r: Result<(), Fault>)
        ensures
            r == if stopped {
                Err::<(), Fault>(other("host watch already stopped"))
            } else if joined {
                Err(other("host watch thread absent"))
            } else if panicked {
                Err(other("host watch thread panicked"))
            } else {
                Ok(())
            },
    {
        if stopped {
            Err(Fault::new(FaultKind::Other, "host watch already stopped"))
        } else if joined {
            Err(Fault::new(FaultKind::Other, "host watch thread absent"))
        } else if panicked {
            Err(Fault::new(FaultKind::Other, "host watch thread panicked"))
        } else {
            Ok(())
        }
    }
}

/// Decides whether a setting that was read is taken.
pub fn setting_bound(length: usize) -> (r: Result<(), Fault>)
    ensures
        r == if length == 0 || length > 4096 {
            Err::<(), Fault>(other("host sysctl source bound differs"))
        } else {
            Ok(())
        },
{
    if length == 0 || length > 4096 {
        Err(Fault::new(FaultKind::Other, "host sysctl source bound differs"))
    } else {
        Ok(())
    }
}

/// Decides whether a `stat` that was read is taken.
pub fn stat_bound(length: usize) -> (r: Result<(), Fault>)
    ensures
        r == if length == 0 || length > 4096 {
            Err::<(), Fault>(other("host reader stat bound differs"))
        } else {
            Ok(())
        },
{
    if length == 0 || length > 4096 {
        Err(Fault::new(FaultKind::Other, "host reader stat bound differs"))
    } else {
        Ok(())
    }
}

/// Why the kernel's list of sockets is not taken.
#[derive(Debug)]
pub enum QueueFault {
    NotText,
    Number(NumberFault),
    Found(Fault),
}

/// The words that head the kernel's list of sockets.
pub open spec fn queue_header() -> Seq<Seq<char>> {
    seq![
        "sk"@,
        "Eth"@,
        "Pid"@,
        "Groups"@,
        "Rmem"@,
        "Wmem"@,
        "Dump"@,
        "Locks"@,
        "Drops"@,
        "Inode"@,
    ]
}

/// What one row says: whether it is the socket that is meant, or what is wrong with it.
/// The socket that is meant must listen to the groups and must have lost nothing.
pub open spec fn row_verdict(words: Seq<Seq<char>>, inode: u64) -> Result<bool, QueueFault> {
    if words.len() != 10 {
        Err(QueueFault::Found(other("host netlink queue row differs")))
    } else {
        match number_in(words[9], 10, u64::MAX as nat) {
            Err(fault) => Err(QueueFault::Number(fault)),
            Ok(number) => if number != inode {
                Ok(false)
            } else {
                let dropped = QueueFault::Found(other("host netlink notifications dropped"));
                match number_in(words[1], 10, u32::MAX as nat) {
                    Err(fault) => Err(QueueFault::Number(fault)),
                    Ok(family) => if family != 0 {
                        Err(dropped)
                    } else {
                        match number_in(words[2], 10, u32::MAX as nat) {
                            Err(fault) => Err(QueueFault::Number(fault)),
                            Ok(port) => if port == 0 {
                                Err(dropped)
                            } else {
                                match number_in(words[3], 16, u32::MAX as nat) {
                                    Err(fault) => Err(QueueFault::Number(fault)),
                                    Ok(groups) => if groups != GROUPS {
                                        Err(dropped)
                                    } else {
                                        match number_in(words[8], 10, u64::MAX as nat) {
                                            Err(fault) => Err(QueueFault::Number(fault)),
                                            Ok(drops) => if drops != 0 {
                                                Err(dropped)
                                            } else {
                                                Ok(true)
                                            },
                                        }
                                    },
                                }
                            },
                        }
                    },
                }
            },
        }
    }
}

fn number(word: &Vec<char>, base: u64, max: u64) -> (r: Result<u64, QueueFault>)
    requires
        2 <= base <= 16,
    ensures
        match number_in(word@, base as nat, max as nat) {
            Ok(n) => r == Ok::<u64, QueueFault>(n as u64) && n <= max,
            Err(fault) => r == Err::<u64, QueueFault>(QueueFault::Number(fault)),
        },
{
    match parse_number(word.as_slice(), base, max) {
        Ok(n) => Ok(n),
        Err(fault) => Err(QueueFault::Number(fault)),
    }
}

fn check_row(row: &[char], inode: u64) -> (r: Result<bool, QueueFault>)
    ensures
        r == row_verdict(words_of(row@), inode),
{
    let words = split_words(row);
    assert(pieces(words@).len() == words@.len());
    if words.len() != 10 {
        return Err(
            QueueFault::Found(Fault::new(FaultKind::Other, "host netlink queue row differs")),
        );
    }
    assert(pieces(words@)[9] == words@[9]@);
    assert(pieces(words@)[1] == words@[1]@);
    assert(pieces(words@)[2] == words@[2]@);
    assert(pieces(words@)[3] == words@[3]@);
    assert(pieces(words@)[8] == words@[8]@);
    let found: u64 = match number(&words[9], 10, u64::MAX) {
        Ok(found) => found,
        Err(fault) => {
            return Err(fault);
        },
    };
    if found != inode {
        return Ok(false);
    }
    let family: u64 = match number(&words[1], 10, u32::MAX as u64) {
        Ok(family) => family,
        Err(fault) => {
            return Err(fault);
        },
    };
    if family != 0 {
        return Err(
            QueueFault::Found(Fault::new(FaultKind::Other, "host netlink notifications dropped")),
        );
    }
    let port: u64 = match number(&words[2], 10, u32::MAX as u64) {
        Ok(port) => port,
        Err(fault) => {
            return Err(fault);
        },
    };
    if port == 0 {
        return Err(
            QueueFault::Found(Fault::new(FaultKind::Other, "host netlink notifications dropped")),
        );
    }
    let groups: u64 = match number(&words[3], 16, u32::MAX as u64) {
        Ok(groups) => groups,
        Err(fault) => {
            return Err(fault);
        },
    };
    if groups != GROUPS as u64 {
        return Err(
            QueueFault::Found(Fault::new(FaultKind::Other, "host netlink notifications dropped")),
        );
    }
    let drops: u64 = match number(&words[8], 10, u64::MAX) {
        Ok(drops) => drops,
        Err(fault) => {
            return Err(fault);
        },
    };
    if drops != 0 {
        return Err(
            QueueFault::Found(Fault::new(FaultKind::Other, "host netlink notifications dropped")),
        );
    }
    Ok(true)
}

/// How many of the rows from the first on are the socket that is meant, or what is wrong
/// with the first row that is wrong.
pub open spec fn rows_verdict(rows: Seq<Seq<char>>, inode: u64) -> Result<nat, QueueFault>
    decreases rows.len(),
{
    if rows.len() == 0 {
        Ok(0)
    } else {
        match rows_verdict(rows.drop_last(), inode) {
            Err(fault) => Err(fault),
            Ok(before) => match row_verdict(words_of(rows.last()), inode) {
                Err(fault) => Err(fault),
                Ok(matched) => Ok(
                    before + if matched {
                        1nat
                    } else {
                        0
                    },
                ),
            },
        }
    }
}

/// What the kernel's list of sockets says of the socket that is meant: nothing was lost,
/// or what is wrong.
pub open spec fn queue_verdict(text: Seq<char>, inode: u64) -> Result<(), QueueFault> {
    let lines = lines_of_text(text);
    if lines.len() == 0 || words_of(lines[0]) != queue_header() {
        Err(QueueFault::Found(other("host netlink queue header differs")))
    } else {
        match rows_verdict(lines.skip(1), inode) {
            Err(fault) => Err(fault),
            Ok(matched) => if matched != 1 {
                Err(QueueFault::Found(other("host netlink held socket queue absent/duplicated")))
            } else {
                Ok(())
            },
        }
    }
}

proof fn failing_rows_fail(rows: Seq<Seq<char>>, n: int, inode: u64)
    requires
        0 <= n <= rows.len(),
        rows_verdict(rows.take(n), inode) is Err,
    ensures
        rows_verdict(rows, inode) == rows_verdict(rows.take(n), inode),
    decreases rows.len() - n,
{
    if n < rows.len() {
        assert(rows.take(n + 1).drop_last() =~= rows.take(n));
        failing_rows_fail(rows, n + 1, inode);
    } else {
        assert(rows.take(n) =~= rows);
    }
}

fn is_header(line: &[char]) -> (r: bool)
    ensures
        r == (words_of(line@) == queue_header()),
{
    let words = split_words(line);
    let names: [&str; 10] = [
        "sk",
        "Eth",
        "Pid",
        "Groups",
        "Rmem",
        "Wmem",
        "Dump",
        "Locks",
        "Drops",
        "Inode",
    ];
    assert(pieces(words@).len() == words@.len());
    if words.len() != 10 {
        return false;
    }
    assert(forall|k: int| 0 <= k < 10 ==> names@[k]@ == #[trigger] queue_header()[k]);
    let mut i: usize = 0;
    while i < 10
        invariant
            i <= 10,
            words@.len() == 10,
            pieces(words@) == words_of(line@),
            forall|k: int| 0 <= k < 10 ==> names@[k]@ == #[trigger] queue_header()[k],
            forall|k: int| 0 <= k < i ==> words@[k]@ == #[trigger] queue_header()[k],
        decreases 10 - i,
    {
        let name = chars_of(names[i]);
        if !same_chars(words[i].as_slice(), name.as_slice()) {
            assert(pieces(words@)[i as int] != queue_header()[i as int]);
            return false;
        }
        i += 1;
    }
    assert(pieces(words@) =~= queue_header());
    true
}

/// Checks the kernel's list of sockets: the socket that is meant stands there once, and
/// has lost nothing.
pub fn queue_drops(bytes: &[u8], inode: u64) -> (r: Result<(), QueueFault>)
    ensures
        r == if bytes@.len() > QUEUE_BOUND {
            Err::<(), QueueFault>(
                QueueFault::Found(other("host netlink queue source bound exceeded")),
            )
        } else if !vstd::utf8::valid_utf8(bytes@) {
            Err(QueueFault::NotText)
        } else {
            queue_verdict(vstd::utf8::decode_utf8(bytes@), inode)
        },
{
    if bytes.len() > QUEUE_BOUND {
        return Err(
            QueueFault::Found(
                Fault::new(FaultKind::Other, "host netlink queue source bound exceeded"),
            ),
        );
    }
    let text = match utf8_text(bytes) {
        Some(text) => text,
        None => {
            return Err(QueueFault::NotText);
        },
    };
    let chars = chars_of(text);
    let lines = split_lines(chars.as_slice());
    let ghost all = pieces(lines@);
    assert(all.len() == lines@.len());
    if lines.len() == 0 || !is_header(lines[0].as_slice()) {
        assert(lines@.len() > 0 ==> all[0] == lines@[0]@);
        return Err(
            QueueFault::Found(Fault::new(FaultKind::Other, "host netlink queue header differs")),
        );
    }
    assert(all[0] == lines@[0]@);
    let ghost rows = all.skip(1);
    let mut matched: usize = 0;
    let mut i: usize = 1;
    assert(rows.take(0) =~= Seq::<Seq<char>>::empty());
    while i < lines.len()
        invariant
            1 <= i <= lines.len(),
            all == pieces(lines@),
            rows == all.skip(1),
            matched < i,
            rows_verdict(rows.take(i - 1), inode) == Ok::<nat, QueueFault>(matched as nat),
            all == lines_of_text(vstd::utf8::decode_utf8(bytes@)),
            words_of(all[0]) == queue_header(),
            bytes@.len() <= QUEUE_BOUND,
            vstd::utf8::valid_utf8(bytes@),
        decreases lines.len() - i,
    {
        assert(rows.take(i as int).drop_last() =~= rows.take(i - 1));
        assert(rows.take(i as int).last() == lines@[i as int]@);
        match check_row(lines[i].as_slice(), inode) {
            Err(fault) => {
                proof {
                    failing_rows_fail(rows, i as int, inode);
                }
                return Err(fault);
            },
            Ok(true) => {
                matched += 1;
            },
            Ok(false) => {},
        }
        i += 1;
    }
    assert(rows.take(i - 1) =~= rows);
    if matched != 1 {
        return Err(
            QueueFault::Found(
                Fault::new(FaultKind::Other, "host netlink held socket queue absent/duplicated"),
            ),
        );
    }
    Ok(())
}

/// Several datagrams, each with its length in front of it.
pub open spec fn framed_packets(packets: Seq<Vec<u8>>) -> Seq<u8>
    decreases packets.len(),
{
    if packets.len() == 0 {
        Seq::empty()
    } else {
        framed_packets(packets.drop_last()) + le32(packets.last()@.len() as u32)
            + packets.last()@
    }
}

/// The mark in front of a dump that is kept.
pub open spec fn dump_mark() -> Seq<u8> {
    seq![77, 67, 72, 68, 1, 0, 0, 0]
}

/// A dump as it is kept: its mark, the number of datagrams, and the datagrams.
pub open spec fn framed_dump(packets: Seq<Vec<u8>>) -> Seq<u8> {
    dump_mark() + le32(packets.len() as u32) + framed_packets(packets)
}

/// A dump as it is kept.
pub fn frame_dump(packets: &Vec<Vec<u8>>) -> (r: Vec<u8>)
    requires
        packets@.len() <= u32::MAX,
        forall|i: int| 0 <= i < packets@.len() ==> (#[trigger] packets@[i])@.len() <= u32::MAX,
    ensures
        r@ == framed_dump(packets@),
{
    let mut out: Vec<u8> = Vec::new();
    put(&mut out, &[77, 67, 72, 68, 1, 0, 0, 0]);
    assert(out@ =~= dump_mark());
    put_le32(&mut out, packets.len() as u32);
    let ghost head = out@;
    let mut i: usize = 0;
    assert(out@ =~= head + framed_packets(packets@.take(0)));
    while i < packets.len()
        invariant
            i <= packets.len(),
            forall|k: int| 0 <= k < packets@.len() ==> (#[trigger] packets@[k])@.len() <= u32::MAX,
            out@ == head + framed_packets(packets@.take(i as int)),
        decreases packets.len() - i,
    {
        assert(packets@[i as int]@.len() <= u32::MAX);
        put_le32(&mut out, packets[i].len() as u32);
        put(&mut out, packets[i].as_slice());
        i += 1;
        assert(packets@.take(i as int).drop_last() =~= packets@.take(i - 1));
        assert(out@ =~= head + framed_packets(packets@.take(i as int)));
    }
    assert(packets@.take(i as int) =~= packets@);
    out
}

/// The dumps of one look at the host.
#[derive(Debug)]
pub struct HostDumps {
    pub links: CompleteDump,
    pub addresses: CompleteDump,
    pub routes: CompleteDump,
}

/// The pieces of a dump that is kept.
pub open spec fn kept_dump(phase: Seq<char>, label: Seq<char>, dump: CompleteDump) -> Seq<
    (Seq<char>, Seq<u8>),
> {
    seq![
        (phase + "/"@ + label + "-request.raw"@, dump.sent@),
        (phase + "/"@ + label + "-dump.raw"@, framed_dump(dump.packets@)),
    ]
}

/// Whether the datagrams of a dump can be kept.
pub open spec fn can_keep(dump: CompleteDump) -> bool {
    &&& dump.packets@.len() <= u32::MAX
    &&& forall|i: int|
        0 <= i < dump.packets@.len() ==> (#[trigger] dump.packets@[i])@.len() <= u32::MAX
}

fn keep_dump(leaves: &mut Vec<Leaf>, phase: &str, label: &str, dump: CompleteDump)
    requires
        can_keep(dump),
    ensures
        leaves_view(final(leaves)@) == leaves_view(old(leaves)@) + kept_dump(phase@, label@, dump),
{
    let ghost before = leaves_view(leaves@);
    let framed = frame_dump(&dump.packets);
    let mut request = join3(phase, "/", label);
    request.append("-request.raw");
    let mut answer = join3(phase, "/", label);
    answer.append("-dump.raw");
    put_leaf(leaves, request, dump.sent);
    put_leaf(leaves, answer, framed);
    assert(leaves_view(leaves@) =~= before + kept_dump(phase@, label@, dump));
}

/// The pieces of the settings of one look at the host.
pub open spec fn kept_settings(phase: Seq<char>, settings: Seq<Vec<u8>>) -> Seq<
    (Seq<char>, Seq<u8>),
> {
    Seq::new(
        settings.len(),
        |i: int| (phase + "/sysctl-"@ + decimal(i as nat) + ".raw"@, settings[i]@),
    )
}

/// Adds the pieces of one look at the host: the settings, then the dumps.
pub fn snapshots(leaves: &mut Vec<Leaf>, phase: &str, settings: &Vec<Vec<u8>>, dumps: HostDumps)
    requires
        can_keep(dumps.links),
        can_keep(dumps.addresses),
        can_keep(dumps.routes),
    ensures
        leaves_view(final(leaves)@) == leaves_view(old(leaves)@) + kept_settings(
            phase@,
            settings@,
        ) + kept_dump(phase@, "links"@, dumps.links) + kept_dump(
            phase@,
            "addresses"@,
            dumps.addresses,
        ) + kept_dump(phase@, "routes"@, dumps.routes),
{
    let ghost before = leaves_view(leaves@);
    let mut i: usize = 0;
    assert(leaves_view(leaves@) =~= before + kept_settings(phase@, settings@).take(0));
    while i < settings.len()
        invariant
            i <= settings.len(),
            leaves_view(leaves@) == before + kept_settings(phase@, settings@).take(i as int),
        decreases settings.len() - i,
    {
        let number = decimal_text(i as u64);
        let mut name = join3(phase, "/sysctl-", number.as_str());
        name.append(".raw");
        let bytes = crate::bytes::slice_of(settings[i].as_slice(), 0, settings[i].len());
        assert(bytes@ =~= settings@[i as int]@);
        put_leaf(leaves, name, bytes);
        i += 1;
        assert(leaves_view(leaves@) =~= before + kept_settings(phase@, settings@).take(i as int));
    }
    assert(kept_settings(phase@, settings@).take(i as int) =~= kept_settings(phase@, settings@));
    keep_dump(leaves, phase, "links", dumps.links);
    keep_dump(leaves, phase, "addresses", dumps.addresses);
    keep_dump(leaves, phase, "routes", dumps.routes);
}

/// The mark in front of announcements that are kept.
pub open spec fn notification_mark() -> Seq<u8> {
    seq![77, 67, 72, 78, 1, 0, 0, 0]
}

/// Announcements before any has come.
pub fn no_notifications() -> (r: Vec<u8>)
    ensures
        r@ == notification_mark(),
{
    let mut out: Vec<u8> = Vec::new();
    put(&mut out, &[77, 67, 72, 78, 1, 0, 0, 0]);
    assert(out@ =~= notification_mark());
    out
}

/// How an announcement came.
#[derive(Clone, Copy, Debug, PartialEq, Eq, Structural)]
pub struct Arrival {
    /// It, or what came beside it, was cut off.
    pub truncated: bool,
    pub length_fits: bool,
    pub netlink: bool,
    pub pid: u32,
}

/// What came beside an announcement: how many were lost, where it says that.
#[derive(Clone, Copy, Debug, PartialEq, Eq, Structural)]
pub enum Beside {
    Lost(u32),
    Unknown,
}

/// What is wrong with what came beside an announcement, if anything.
pub open spec fn beside_fault(beside: Seq<Beside>) -> Option<&'static str>
    decreases beside.len(),
{
    if beside.len() == 0 {
        None
    } else {
        match beside_fault(beside.drop_last()) {
            Some(text) => Some(text),
            None => match beside.last() {
                Beside::Unknown => Some("host notification ancillary differs"),
                Beside::Lost(lost) => if lost != 0 {
                    Some("host notification queue lost records")
                } else {
                    None
                },
            },
        }
    }
}

proof fn faulty_stays(beside: Seq<Beside>, n: int)
    requires
        0 <= n <= beside.len(),
        beside_fault(beside.take(n)) is Some,
    ensures
        beside_fault(beside) == beside_fault(beside.take(n)),
    decreases beside.len() - n,
{
    if n < beside.len() {
        assert(beside.take(n + 1).drop_last() =~= beside.take(n));
        faulty_stays(beside, n + 1);
    } else {
        assert(beside.take(n) =~= beside);
    }
}

fn check_beside(beside: &[Beside]) -> (r: Option<&'static str>)
    ensures
        r == beside_fault(beside@),
{
    let mut i: usize = 0;
    assert(beside@.take(0) =~= Seq::<Beside>::empty());
    while i < beside.len()
        invariant
            i <= beside.len(),
            beside_fault(beside@.take(i as int)) is None,
        decreases beside.len() - i,
    {
        assert(beside@.take(i + 1).drop_last() =~= beside@.take(i as int));
        match beside[i] {
            Beside::Unknown => {
                proof {
                    faulty_stays(beside@, i + 1);
                }
                return Some("host notification ancillary differs");
            },
            Beside::Lost(lost) => {
                if lost != 0 {
                    proof {
                        faulty_stays(beside@, i + 1);
                    }
                    return Some("host notification queue lost records");
                }
            },
        }
        i += 1;
    }
    assert(beside@.take(i as int) =~= beside@);
    None
}

/// What is wrong with an announcement, if anything; `kept` is how many bytes of others
/// are kept already.
pub open spec fn notification_fault(
    count: i64,
    room: int,
    bytes: Seq<u8>,
    arrival: Arrival,
    beside: Seq<Beside>,
    kept: nat,
) -> Option<&'static str> {
    if count <= 0 || count > room || arrival.truncated || !arrival.length_fits || !arrival.netlink
        || arrival.pid != 0 {
        Some("host notification sender/truncation differs")
    } else {
        match beside_fault(beside) {
            Some(text) => Some(text),
            None => if kept + bytes.len() + 12 > NOTIFICATION_BOUND {
                Some("host notification source bound exceeded")
            } else {
                None
            },
        }
    }
}

/// Keeps an announcement: when it came, its length, and itself.
pub fn notified(
    framed: &mut Vec<u8>,
    count: i64,
    bytes: &Vec<u8>,
    arrival: Arrival,
    beside: &[Beside],
    now: u64,
) -> (r: Result<(), Fault>)
    requires
        old(framed)@.len() <= NOTIFICATION_BOUND,
        bytes@.len() <= 65536,
    ensures
        final(framed)@.len() <= NOTIFICATION_BOUND,
        match notification_fault(count, 65536, bytes@, arrival, beside@, old(framed)@.len()) {
            Some(text) => r == Err::<(), Fault>(other(text)) && final(framed)@ == old(framed)@,
            None => r is Ok && final(framed)@ == old(framed)@ + le64(now) + le32(
                bytes@.len() as u32,
            ) + bytes@,
        },
{
    if count <= 0 || count > 65536 || arrival.truncated || !arrival.length_fits || !arrival.netlink
        || arrival.pid != 0 {
        return Err(Fault::new(FaultKind::Other, "host notification sender/truncation differs"));
    }
    if let Some(text) = check_beside(beside) {
        return Err(Fault::new(FaultKind::Other, text));
    }
    if framed.len() + bytes.len() + 12 > NOTIFICATION_BOUND {
        return Err(Fault::new(FaultKind::Other, "host notification source bound exceeded"));
    }
    put_le64(framed, now);
    put_le32(framed, bytes.len() as u32);
    put(framed, bytes.as_slice());
    Ok(())
}

/// Decides whether the watch is in the namespace it began in, before it begins.
pub fn watch_namespace(found: u64, held: u64, netns: u64) -> (r: Result<(), Fault>)
    ensures
        r == if found != netns || held != netns {
            Err::<(), Fault>(other("host monitor namespace differs"))
        } else {
            Ok(())
        },
{
    if found != netns || held != netns {
        Err(Fault::new(FaultKind::Other, "host monitor namespace differs"))
    } else {
        Ok(())
    }
}

/// Decides whether the watch kept its socket and its namespace to the end.
pub fn watch_kept(socket: u64, socket_after: u64, netns: u64, netns_after: u64) -> (r: Result<
    (),
    Fault,
>)
    ensures
        r == if socket_after != socket {
            Err::<(), Fault>(other("host retained netlink socket changed"))
        } else if netns_after != netns {
            Err(other("host monitor namespace changed"))
        } else {
            Ok(())
        },
{
    if socket_after != socket {
        Err(Fault::new(FaultKind::Other, "host retained netlink socket changed"))
    } else if netns_after != netns {
        Err(Fault::new(FaultKind::Other, "host monitor namespace changed"))
    } else {
        Ok(())
    }
}

/// Who watched, from where and when.
#[derive(Debug)]
pub struct WatchIdentity {
    pub pid: u32,
    pub netns: u64,
    pub begin: u64,
    pub end: u64,
    pub pins: Vec<Pin>,
    pub socket_inode: u64,
}

/// The fields that say who watched.
pub open spec fn watch_fields(identity: WatchIdentity) -> Seq<(Seq<char>, JsonView)> {
    seq![
        ("schema_version"@, JsonView::Number(1)),
        ("protocol"@, JsonView::Text("private-host-continuity-v1"@)),
        ("reader_pid"@, JsonView::Number(identity.pid as u64)),
        ("host_netns_inode"@, JsonView::Number(identity.netns)),
        ("begin_monotonic_ns"@, JsonView::Number(identity.begin)),
        ("end_monotonic_ns"@, JsonView::Number(identity.end)),
        ("object_pins"@, JsonView::Pairs(identity.pins@)),
        ("socket_inode"@, JsonView::Number(identity.socket_inode)),
        ("queue_overflow"@, JsonView::Number(0)),
        ("truncated"@, JsonView::Flag(false)),
    ]
}

/// The bytes that say who watched.
pub fn watch_identity(identity: WatchIdentity) -> (r: Result<Vec<u8>, Fault>)
    ensures
        r matches Ok(bytes) && bytes@ == json_bytes(watch_fields(identity)),
{
    let ghost all = watch_fields(identity);
    let mut fields: Vec<(&'static str, Json)> = Vec::new();
    fields.push(("schema_version", Json::Number(1)));
    fields.push(("protocol", Json::Text("private-host-continuity-v1".to_owned())));
    fields.push(("reader_pid", Json::Number(identity.pid as u64)));
    fields.push(("host_netns_inode", Json::Number(identity.netns)));
    fields.push(("begin_monotonic_ns", Json::Number(identity.begin)));
    fields.push(("end_monotonic_ns", Json::Number(identity.end)));
    fields.push(("object_pins", Json::Pairs(identity.pins)));
    fields.push(("socket_inode", Json::Number(identity.socket_inode)));
    fields.push(("queue_overflow", Json::Number(0)));
    fields.push(("truncated", Json::Flag(false)));
    assert(fields_view(fields@) =~= all);
    object(&fields)
}

/// What a watch adds to its two looks at the host.
#[derive(Debug)]
pub struct WatchParts {
    pub notifications: Vec<u8>,
    pub stat_before: Vec<u8>,
    pub stat_after: Vec<u8>,
    pub queue_before: Vec<u8>,
    pub queue_after: Vec<u8>,
    pub identity: Vec<u8>,
}

/// The pieces that a watch adds.
pub open spec fn watch_view(parts: WatchParts) -> Seq<(Seq<char>, Seq<u8>)> {
    seq![
        ("notifications.raw"@, parts.notifications@),
        ("reader-stat-before.raw"@, parts.stat_before@),
        ("reader-stat-after.raw"@, parts.stat_after@),
        ("netlink-queue-before.raw"@, parts.queue_before@),
        ("netlink-queue-after.raw"@, parts.queue_after@),
        ("identity.json"@, parts.identity@),
    ]
}

/// How many bytes some pieces hold together.
pub open spec fn size_of_leaves(leaves: Seq<Leaf>) -> nat
    decreases leaves.len(),
{
    if leaves.len() == 0 {
        0
    } else {
        size_of_leaves(leaves.drop_last()) + leaves.last().bytes@.len()
    }
}

proof fn sizes_grow(leaves: Seq<Leaf>, n: int)
    requires
        0 <= n <= leaves.len(),
    ensures
        size_of_leaves(leaves.take(n)) <= size_of_leaves(leaves),
    decreases leaves.len() - n,
{
    if n < leaves.len() {
        assert(leaves.take(n + 1).drop_last() =~= leaves.take(n));
        sizes_grow(leaves, n + 1);
    } else {
        assert(leaves.take(n) =~= leaves);
    }
}

/// Puts the pieces of a watch together, and hands them out where they are neither too
/// many nor too large.
pub fn watched(leaves: Vec<Leaf>, parts: WatchParts) -> (r: Result<Vec<Leaf>, Fault>)
    ensures
        match r {
            Ok(all) => leaves_view(all@) == leaves_view(leaves@) + watch_view(parts) && all@.len()
                <= 256 && size_of_leaves(all@) <= SOURCE_BOUND,
            Err(fault) => fault == other("host source carrier bound exceeded") && exists|
                all: Seq<Leaf>,
            |
                #![trigger leaves_view(all)]
                leaves_view(all) == leaves_view(leaves@) + watch_view(parts) && (all.len() > 256
                    || size_of_leaves(all) > SOURCE_BOUND),
        },
{
    let ghost before = leaves_view(leaves@);
    let mut all = leaves;
    put_leaf(&mut all, "notifications.raw".to_owned(), parts.notifications);
    put_leaf(&mut all, "reader-stat-before.raw".to_owned(), parts.stat_before);
    put_leaf(&mut all, "reader-stat-after.raw".to_owned(), parts.stat_after);
    put_leaf(&mut all, "netlink-queue-before.raw".to_owned(), parts.queue_before);
    put_leaf(&mut all, "netlink-queue-after.raw".to_owned(), parts.queue_after);
    put_leaf(&mut all, "identity.json".to_owned(), parts.identity);
    assert(leaves_view(all@) =~= before + watch_view(parts));
    if all.len() > 256 {
        return Err(Fault::new(FaultKind::Other, "host source carrier bound exceeded"));
    }
    let mut total: usize = 0;
    let mut i: usize = 0;
    assert(all@.take(0) =~= Seq::<Leaf>::empty());
    while i < all.len()
        invariant
            i <= all.len() <= 256,
            total == size_of_leaves(all@.take(i as int)),
            total <= SOURCE_BOUND,
            leaves_view(all@) == before + watch_view(parts),
            before == leaves_view(leaves@),
        decreases all.len() - i,
    {
        assert(all@.take(i + 1).drop_last() =~= all@.take(i as int));
        if all[i].bytes.len() > SOURCE_BOUND - total {
            proof {
                sizes_grow(all@, i + 1);
            }
            return Err(Fault::new(FaultKind::Other, "host source carrier bound exceeded"));
        }
        total = total + all[i].bytes.len();
        i += 1;
    }
    assert(all@.take(i as int) =~= all@);
    Ok(all)
}

} // verus!
