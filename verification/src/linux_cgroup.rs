//! Attempts on a delegated Linux control group: reading the kernel's files and
//! the launcher's status records.

use vstd::prelude::*;
use vstd::string::*;

use crate::evidence::ChildTermination;
use crate::model::{Fault, FaultKind, Text};
use crate::policy::{Policy, SwapPolicy};
use crate::scan::{
    lines_of_text, number_in, parse_number, part, pieces, same_chars, split_lines, split_words, trim,
    trimmed, words_of, NumberFault,
};
use crate::text::{
    chars_of, decimal, decimal_text, hex_number, hex_number_text, join2, join3, text_of,
};

verus! {

/// One counter of a control group file.
#[derive(Debug)]
pub struct Counter {
    pub name: Vec<char>,
    pub value: u64,
}

/// The counter that one line holds: its first word names it, its second word is
/// its value, and what follows is of no account.
pub open spec fn counter_of(line: Seq<char>) -> Result<(Seq<char>, u64), Seq<char>> {
    let words = words_of(line);
    if words.len() == 0 {
        Err("missing cgroup counter name"@)
    } else if words.len() == 1 {
        Err("missing cgroup counter value"@)
    } else {
        match number_in(words[1], 10, u64::MAX as nat) {
            Ok(value) => Ok((words[0], value as u64)),
            Err(fault) => Err("invalid cgroup counter: "@ + fault.says()@),
        }
    }
}

/// The counters of several lines, by name: of two with one name the later one
/// counts. The first line that holds none decides the fault.
pub open spec fn counters_of(lines: Seq<Seq<char>>) -> Result<Map<Seq<char>, u64>, Seq<char>>
    decreases lines.len(),
{
    if lines.len() == 0 {
        Ok(Map::empty())
    } else {
        match counters_of(lines.drop_last()) {
            Err(fault) => Err(fault),
            Ok(before) => match counter_of(lines.last()) {
                Err(fault) => Err(fault),
                Ok((name, value)) => Ok(before.insert(name, value)),
            },
        }
    }
}

/// The counters of a control group file.
pub open spec fn key_values(input: Seq<char>) -> Result<Map<Seq<char>, u64>, Seq<char>> {
    counters_of(lines_of_text(input))
}

/// The counters in a list, by name.
pub open spec fn by_name(list: Seq<Counter>) -> Map<Seq<char>, u64>
    decreases list.len(),
{
    if list.len() == 0 {
        Map::empty()
    } else {
        by_name(list.drop_last()).insert(list.last().name@, list.last().value)
    }
}

/// Reads the counter of one line.
fn parse_counter(line: &Vec<char>) -> (r: Result<Counter, Fault>)
    ensures
        match r {
            Ok(c) => counter_of(line@) == Ok::<(Seq<char>, u64), Seq<char>>((c.name@, c.value)),
            Err(fault) => counter_of(line@) == Err::<(Seq<char>, u64), Seq<char>>(
                fault.text.chars(),
            ) && fault.kind == FaultKind::Other && fault.os_code is None,
        },
{
    let mut words = split_words(line.as_slice());
    assert(pieces(words@).len() == words@.len());
    if words.len() == 0 {
        return Err(Fault::new(FaultKind::Other, "missing cgroup counter name"));
    }
    if words.len() == 1 {
        return Err(Fault::new(FaultKind::Other, "missing cgroup counter value"));
    }
    assert(pieces(words@)[0] == words@[0]@);
    assert(pieces(words@)[1] == words@[1]@);
    match parse_number(words[1].as_slice(), 10, u64::MAX) {
        Ok(value) => {
            let name = words.swap_remove(0);
            Ok(Counter { name, value })
        },
        Err(fault) => Err(
            Fault {
                kind: FaultKind::Other,
                os_code: None,
                text: Text::Tagged("invalid cgroup counter: ", fault.text().to_owned()),
            },
        ),
    }
}

/// Once some lines hold a fault, more lines do not change it.
proof fn lemma_fault_stays(lines: Seq<Seq<char>>, n: int)
    requires
        0 <= n <= lines.len(),
        counters_of(lines.take(n)) is Err,
    ensures
        counters_of(lines) == counters_of(lines.take(n)),
    decreases lines.len() - n,
{
    if n == lines.len() {
        assert(lines.take(n) =~= lines);
    } else {
        assert(lines.take(n + 1).drop_last() =~= lines.take(n));
        lemma_fault_stays(lines, n + 1);
    }
}

/// Reads the counters of a control group file.
pub fn parse_key_values(input: &str) -> (r: Result<Vec<Counter>, Fault>)
    ensures
        match r {
            Ok(list) => key_values(input@) == Ok::<Map<Seq<char>, u64>, Seq<char>>(by_name(list@)),
            Err(fault) => key_values(input@) == Err::<Map<Seq<char>, u64>, Seq<char>>(
                fault.text.chars(),
            ) && fault.kind == FaultKind::Other && fault.os_code is None,
        },
{
    let chars = chars_of(input);
    let lines = split_lines(chars.as_slice());
    let ghost all = lines_of_text(input@);
    let mut list: Vec<Counter> = Vec::new();
    let mut i: usize = 0;
    assert(all.take(0) =~= Seq::empty());
    while i < lines.len()
        invariant
            i <= lines.len(),
            pieces(lines@) == all,
            all == lines_of_text(input@),
            counters_of(all.take(i as int)) == Ok::<Map<Seq<char>, u64>, Seq<char>>(
                by_name(list@),
            ),
        decreases lines.len() - i,
    {
        assert(all.take(i + 1).drop_last() =~= all.take(i as int));
        assert(all.take(i + 1).last() == pieces(lines@)[i as int]);
        assert(pieces(lines@)[i as int] == lines@[i as int]@);
        match parse_counter(&lines[i]) {
            Ok(counter) => {
                let ghost before = list@;
                list.push(counter);
                assert(list@.drop_last() =~= before);
            },
            Err(fault) => {
                proof {
                    lemma_fault_stays(all, i + 1);
                }
                return Err(fault);
            },
        }
        i += 1;
    }
    assert(all.take(i as int) =~= all);
    Ok(list)
}

/// The value of a counter, or zero where the file has none of that name.
pub open spec fn value_of(counters: Map<Seq<char>, u64>, name: Seq<char>) -> u64 {
    if counters.dom().contains(name) {
        counters[name]
    } else {
        0
    }
}

/// Looks a counter up: zero where there is none of that name.
pub fn counter_value(list: &Vec<Counter>, name: &str) -> (r: u64)
    ensures
        r == value_of(by_name(list@), name@),
{
    let wanted = chars_of(name);
    let mut value: u64 = 0;
    let mut i: usize = 0;
    assert(list@.take(0) =~= Seq::empty());
    while i < list.len()
        invariant
            i <= list.len(),
            wanted@ == name@,
            value == value_of(by_name(list@.take(i as int)), name@),
        decreases list.len() - i,
    {
        assert(list@.take(i + 1).drop_last() =~= list@.take(i as int));
        if same_chars(list[i].name.as_slice(), wanted.as_slice()) {
            value = list[i].value;
        }
        i += 1;
    }
    assert(list@.take(i as int) =~= list@);
    value
}

/// The limit counters of `memory.events`.
#[derive(Clone, Copy, Debug, PartialEq, Eq, Structural)]
pub struct MemoryEvents {
    pub max: u64,
    pub oom: u64,
    pub oom_kill: u64,
    pub oom_group_kill: u64,
}

/// The limit counters among the counters of `memory.events`.
pub open spec fn events_of(counters: Map<Seq<char>, u64>) -> MemoryEvents {
    MemoryEvents {
        max: value_of(counters, "max"@),
        oom: value_of(counters, "oom"@),
        oom_kill: value_of(counters, "oom_kill"@),
        oom_group_kill: value_of(counters, "oom_group_kill"@),
    }
}

/// Reads the limit counters of `memory.events`.
pub fn memory_events(input: &str) -> (r: Result<MemoryEvents, Fault>)
    ensures
        match r {
            Ok(events) => key_values(input@) matches Ok(counters) && events == events_of(counters),
            Err(fault) => key_values(input@) == Err::<Map<Seq<char>, u64>, Seq<char>>(
                fault.text.chars(),
            ) && fault.kind == FaultKind::Other && fault.os_code is None,
        },
{
    match parse_key_values(input) {
        Ok(list) => Ok(
            MemoryEvents {
                max: counter_value(&list, "max"),
                oom: counter_value(&list, "oom"),
                oom_kill: counter_value(&list, "oom_kill"),
                oom_group_kill: counter_value(&list, "oom_group_kill"),
            },
        ),
        Err(fault) => Err(fault),
    }
}

/// Reads from `cgroup.events` whether a control group has members.
pub fn populated(input: &str) -> (r: Result<bool, Fault>)
    ensures
        match r {
            Ok(members) => key_values(input@) matches Ok(counters) && members == (value_of(
                counters,
                "populated"@,
            ) != 0),
            Err(fault) => key_values(input@) == Err::<Map<Seq<char>, u64>, Seq<char>>(
                fault.text.chars(),
            ) && fault.kind == FaultKind::Other && fault.os_code is None,
        },
{
    match parse_key_values(input) {
        Ok(list) => Ok(counter_value(&list, "populated") != 0),
        Err(fault) => Err(fault),
    }
}

/// A limit counter that rose above its baseline.
#[derive(Clone, Copy, Debug)]
pub struct LimitDelta {
    pub key: &'static str,
    pub from: u64,
    pub to: u64,
}

/// The first limit counter that rose, in the order of severity that the kernel
/// reports them in.
pub open spec fn first_rise(baseline: MemoryEvents, current: MemoryEvents) -> Option<LimitDelta> {
    if current.max > baseline.max {
        Some(LimitDelta { key: "max", from: baseline.max, to: current.max })
    } else if current.oom > baseline.oom {
        Some(LimitDelta { key: "oom", from: baseline.oom, to: current.oom })
    } else if current.oom_kill > baseline.oom_kill {
        Some(LimitDelta { key: "oom_kill", from: baseline.oom_kill, to: current.oom_kill })
    } else if current.oom_group_kill > baseline.oom_group_kill {
        Some(
            LimitDelta {
                key: "oom_group_kill",
                from: baseline.oom_group_kill,
                to: current.oom_group_kill,
            },
        )
    } else {
        None
    }
}

/// Finds the first limit counter that rose above its baseline.
pub fn limit_delta(baseline: MemoryEvents, current: MemoryEvents) -> (r: Option<LimitDelta>)
    ensures
        r == first_rise(baseline, current),
{
    if current.max > baseline.max {
        Some(LimitDelta { key: "max", from: baseline.max, to: current.max })
    } else if current.oom > baseline.oom {
        Some(LimitDelta { key: "oom", from: baseline.oom, to: current.oom })
    } else if current.oom_kill > baseline.oom_kill {
        Some(LimitDelta { key: "oom_kill", from: baseline.oom_kill, to: current.oom_kill })
    } else if current.oom_group_kill > baseline.oom_group_kill {
        Some(
            LimitDelta {
                key: "oom_group_kill",
                from: baseline.oom_group_kill,
                to: current.oom_group_kill,
            },
        )
    } else {
        None
    }
}

/// A limit was reached just when one of its counters rose.
pub proof fn limit_needs_a_rise(baseline: MemoryEvents, current: MemoryEvents)
    ensures
        first_rise(baseline, baseline) is None,
        first_rise(baseline, current) is None <==> current.max <= baseline.max && current.oom
            <= baseline.oom && current.oom_kill <= baseline.oom_kill && current.oom_group_kill
            <= baseline.oom_group_kill,
        first_rise(baseline, current) matches Some(delta) ==> delta.to > delta.from,
{
}

impl LimitDelta {
    /// The rise in words.
    pub open spec fn says(&self) -> Seq<char> {
        "memory.events "@ + self.key@ + " increased from "@ + decimal(self.from as nat) + " to "@
            + decimal(self.to as nat)
    }

    /// The rise in words.
    pub fn detail(&self) -> (r: String)
        ensures
            r@ == self.says(),
    {
        let mut out = join2("memory.events ", self.key);
        out.append(" increased from ");
        let from = decimal_text(self.from);
        out.append(from.as_str());
        out.append(" to ");
        let to = decimal_text(self.to);
        out.append(to.as_str());
        out
    }
}

/// The number in a control group file that holds nothing else.
pub open spec fn single_value(input: Seq<char>) -> Result<nat, NumberFault> {
    number_in(trimmed(input), 10, u64::MAX as nat)
}

/// Reads the control group file `path`, which holds one number.
pub fn parse_u64_file(path: &str, input: &str) -> (r: Result<u64, String>)
    ensures
        match r {
            Ok(value) => single_value(input@) == Ok::<nat, NumberFault>(value as nat),
            Err(text) => single_value(input@) matches Err(fault) && text@ == "invalid value in "@
                + path@ + ": "@ + fault.says()@,
        },
{
    let chars = chars_of(input);
    let inner = trim(chars.as_slice());
    match parse_number(inner.as_slice(), 10, u64::MAX) {
        Ok(value) => Ok(value),
        Err(fault) => {
            let mut text = join3("invalid value in ", path, ": ");
            text.append(fault.text());
            Err(text)
        },
    }
}

/// Whether one line of `cgroup.procs` names the process.
pub open spec fn names_member(line: Seq<char>, pid: nat) -> bool {
    trimmed(line) == decimal(pid)
}

/// Whether `cgroup.procs` names the process.
pub open spec fn lists_member(members: Seq<char>, pid: nat) -> bool {
    exists|i: int|
        0 <= i < lines_of_text(members).len() && names_member(
            #[trigger] lines_of_text(members)[i],
            pid,
        )
}

/// Checks from `cgroup.procs` that a gated launcher stayed where it was put.
pub fn verify_member(members: &str, pid: u32) -> (r: Result<(), Fault>)
    ensures
        r is Ok <==> lists_member(members@, pid as nat),
        r matches Err(fault) ==> fault == Fault::found(
            FaultKind::Other,
            "gated launcher cgroup assignment did not persist",
        ),
{
    let text = decimal_text(pid as u64);
    let wanted = chars_of(text.as_str());
    let chars = chars_of(members);
    let lines = split_lines(chars.as_slice());
    let mut i: usize = 0;
    while i < lines.len()
        invariant
            i <= lines.len(),
            wanted@ == decimal(pid as nat),
            pieces(lines@) == lines_of_text(members@),
            forall|k: int|
                0 <= k < i ==> !names_member(#[trigger] lines_of_text(members@)[k], pid as nat),
        decreases lines.len() - i,
    {
        let inner = trim(lines[i].as_slice());
        assert(pieces(lines@)[i as int] == lines@[i as int]@);
        if same_chars(inner.as_slice(), wanted.as_slice()) {
            assert(names_member(lines_of_text(members@)[i as int], pid as nat));
            return Ok(());
        }
        i += 1;
    }
    assert(pieces(lines@).len() == lines@.len());
    Err(Fault::new(FaultKind::Other, "gated launcher cgroup assignment did not persist"))
}

/// The length of a launcher's status record.
pub const LAUNCHER_STATUS_LENGTH: usize = 12;

/// What a launcher reports: that it waits at its gate, or the native error of
/// the execution that failed.
#[derive(Clone, Copy, Debug, PartialEq, Eq, Structural)]
pub enum LauncherStatus {
    Ready,
    Error(i32),
}

/// The 32-bit number that four bytes hold, the least significant one first.
pub open spec fn le_i32(a: u8, b: u8, c: u8, d: u8) -> int {
    let n = a as int + 256 * b as int + 65536 * c as int + 16777216 * d as int;
    if n >= 2147483648 {
        n - 4294967296
    } else {
        n
    }
}

/// The 32-bit number that four bytes hold in the byte order of the machine.
pub open spec fn native_i32(a: u8, b: u8, c: u8, d: u8, big_endian: bool) -> int {
    if big_endian {
        le_i32(d, c, b, a)
    } else {
        le_i32(a, b, c, d)
    }
}

/// Why a status record says nothing.
pub open spec fn status_of(record: Seq<u8>, big_endian: bool) -> Result<
    LauncherStatus,
    &'static str,
> {
    let errno = native_i32(record[8], record[9], record[10], record[11], big_endian);
    if record[0] != 77 || record[1] != 67 || record[2] != 76 || record[3] != 83 || record[4] != 1
        || record[6] != 0 || record[7] != 0 {
        Err("MemCordon launcher sent an invalid status record")
    } else if record[5] == 1 && errno == 0 {
        Ok(LauncherStatus::Ready)
    } else if record[5] == 2 && errno > 0 {
        Ok(LauncherStatus::Error(errno as i32))
    } else {
        Err("MemCordon launcher sent an invalid status kind or errno")
    }
}

/// The fault of a status record that says nothing.
pub open spec fn status_fault(text: &'static str) -> Fault {
    Fault::found(FaultKind::InvalidData, text)
}

/// Reads a launcher's status record: the mark `MCLS`, the version, the kind, two
/// zero bytes and the native error number, in the byte order of the machine.
pub fn decode_launcher_status(record: &[u8], big_endian: bool) -> (r: Result<
    LauncherStatus,
    Fault,
>)
    requires
        record.len() == LAUNCHER_STATUS_LENGTH,
    ensures
        match r {
            Ok(status) => status_of(record@, big_endian) == Ok::<LauncherStatus, &'static str>(
                status,
            ),
            Err(fault) => status_of(record@, big_endian) matches Err(text) && fault == status_fault(text),
        },
{
    if record[0] != 77 || record[1] != 67 || record[2] != 76 || record[3] != 83 || record[4] != 1
        || record[6] != 0 || record[7] != 0 {
        return Err(
            Fault::new(
                FaultKind::InvalidData,
                "MemCordon launcher sent an invalid status record",
            ),
        );
    }
    let raw: i64 = if big_endian {
        record[11] as i64 + 256 * record[10] as i64 + 65536 * record[9] as i64 + 16777216
            * record[8] as i64
    } else {
        record[8] as i64 + 256 * record[9] as i64 + 65536 * record[10] as i64 + 16777216
            * record[11] as i64
    };
    let errno: i64 = if raw >= 2147483648 {
        raw - 4294967296
    } else {
        raw
    };
    if record[5] == 1 && errno == 0 {
        Ok(LauncherStatus::Ready)
    } else if record[5] == 2 && errno > 0 {
        Ok(LauncherStatus::Error(errno as i32))
    } else {
        Err(
            Fault::new(
                FaultKind::InvalidData,
                "MemCordon launcher sent an invalid status kind or errno",
            ),
        )
    }
}

/// One write to a control group file.
#[derive(Debug)]
pub struct ControlWrite {
    pub file: &'static str,
    pub content: String,
}

/// The facts of one write.
pub struct WriteView {
    pub file: &'static str,
    pub content: Seq<char>,
}

impl View for ControlWrite {
    type V = WriteView;

    open spec fn view(&self) -> WriteView {
        WriteView { file: self.file, content: self.content@ }
    }
}

/// The views of several writes.
pub open spec fn writes_of(s: Seq<ControlWrite>) -> Seq<WriteView> {
    Seq::new(s.len(), |i: int| s[i]@)
}

/// The writes that set a policy's limits, in order, given which optional files
/// the control group has.
pub open spec fn limit_writes(policy: Policy, has_oom_group: bool, has_swap: bool) -> Seq<
    WriteView,
> {
    match policy.memory {
        None => Seq::empty(),
        Some(memory) => {
            (if has_oom_group {
                seq![WriteView { file: "memory.oom.group", content: "1\n"@ }]
            } else {
                Seq::empty()
            }) + seq![
                WriteView { file: "memory.max", content: decimal(memory as nat) + "\n"@ },
            ] + (match policy.swap {
                SwapPolicy::Bytes(bytes) => if has_swap {
                    seq![
                        WriteView {
                            file: "memory.swap.max",
                            content: decimal(bytes as nat) + "\n"@,
                        },
                    ]
                } else {
                    Seq::empty()
                },
                SwapPolicy::Unlimited => seq![
                    WriteView { file: "memory.swap.max", content: "max\n"@ },
                ],
                SwapPolicy::Host => Seq::empty(),
            })
        },
    }
}

/// Whether a policy asks for a swap limit that the control group cannot keep.
pub open spec fn lacks_swap(policy: Policy, has_swap: bool) -> bool {
    policy.memory is Some && policy.swap is Bytes && !has_swap
}

fn number_line(n: u64) -> (r: String)
    ensures
        r@ == decimal(n as nat) + "\n"@,
{
    let mut out = decimal_text(n);
    out.append("\n");
    out
}

/// Plans the writes that set a policy's limits; the fault, where there is one,
/// comes after them.
pub fn configure(policy: &Policy, has_oom_group: bool, has_swap: bool) -> (r: (
    Vec<ControlWrite>,
    Result<(), Fault>,
))
    ensures
        writes_of(r.0@) == limit_writes(*policy, has_oom_group, has_swap),
        r.1 is Err <==> lacks_swap(*policy, has_swap),
        r.1 matches Err(fault) ==> fault == Fault::found(
            FaultKind::Unsupported,
            "resolved swap policy requires memory.swap.max",
        ),
{
    let mut writes: Vec<ControlWrite> = Vec::new();
    let memory = match policy.memory {
        Some(memory) => memory,
        None => {
            assert(writes_of(writes@) =~= Seq::empty());
            return (writes, Ok(()));
        },
    };
    if has_oom_group {
        writes.push(ControlWrite { file: "memory.oom.group", content: "1\n".to_owned() });
    }
    writes.push(ControlWrite { file: "memory.max", content: number_line(memory) });
    let mut result: Result<(), Fault> = Ok(());
    match policy.swap {
        SwapPolicy::Bytes(bytes) => {
            if has_swap {
                writes.push(ControlWrite { file: "memory.swap.max", content: number_line(bytes) });
            } else {
                result = Err(
                    Fault::new(
                        FaultKind::Unsupported,
                        "resolved swap policy requires memory.swap.max",
                    ),
                );
            }
        },
        SwapPolicy::Unlimited => {
            writes.push(ControlWrite { file: "memory.swap.max", content: "max\n".to_owned() });
        },
        SwapPolicy::Host => {},
    }
    assert(writes_of(writes@) =~= limit_writes(*policy, has_oom_group, has_swap));
    (writes, result)
}

/// Whether an extended attribute says that a control group was delegated.
pub fn is_delegate_marker(value: &[u8]) -> (r: bool)
    ensures
        r == (value@ == seq![49u8]),
{
    let r = value.len() == 1 && value[0] == 49;
    assert(r ==> value@ =~= seq![49u8]);
    r
}

/// Whether a list of controllers names the memory controller.
pub open spec fn names_memory(controllers: Seq<char>) -> bool {
    words_of(controllers).contains("memory"@)
}

/// Whether a list of controllers names the memory controller.
pub fn has_memory_controller(controllers: &str) -> (r: bool)
    ensures
        r == names_memory(controllers@),
{
    let wanted = chars_of("memory");
    let chars = chars_of(controllers);
    let words = split_words(chars.as_slice());
    let ghost all = words_of(controllers@);
    let mut i: usize = 0;
    while i < words.len()
        invariant
            i <= words.len(),
            wanted@ == "memory"@,
            pieces(words@) == all,
            all == words_of(controllers@),
            forall|k: int| 0 <= k < i ==> all[k] != "memory"@,
        decreases words.len() - i,
    {
        assert(pieces(words@)[i as int] == words@[i as int]@);
        if same_chars(words[i].as_slice(), wanted.as_slice()) {
            assert(all[i as int] == "memory"@);
            return true;
        }
        i += 1;
    }
    assert(pieces(words@).len() == words@.len());
    false
}

/// Whether a line of `/proc/self/cgroup` names the unified hierarchy.
pub open spec fn is_unified(line: Seq<char>) -> bool {
    line.len() >= 3 && line[0] == '0' && line[1] == ':' && line[2] == ':'
}

/// The first place of a path that is no slash.
pub open spec fn past_slashes(s: Seq<char>, i: int) -> int
    decreases s.len() - i,
{
    if i < 0 || i >= s.len() || s[i] != '/' {
        i
    } else {
        past_slashes(s, i + 1)
    }
}

/// The path of the process below the mount, from the first line that names the
/// unified hierarchy, without its leading slashes.
pub open spec fn membership_of(lines: Seq<Seq<char>>, i: int) -> Option<Seq<char>>
    decreases lines.len() - i,
{
    if i < 0 || i >= lines.len() {
        None
    } else if is_unified(lines[i]) {
        let from = past_slashes(lines[i], 3);
        Some(lines[i].subrange(from, lines[i].len() as int))
    } else {
        membership_of(lines, i + 1)
    }
}

/// Reads from `/proc/self/cgroup` where the process sits in the unified
/// hierarchy.
pub fn unified_membership(membership: &str) -> (r: Option<String>)
    ensures
        match r {
            Some(path) => membership_of(lines_of_text(membership@), 0) == Some(path@),
            None => membership_of(lines_of_text(membership@), 0) is None,
        },
{
    let chars = chars_of(membership);
    let lines = split_lines(chars.as_slice());
    let ghost all = lines_of_text(membership@);
    let mut i: usize = 0;
    while i < lines.len()
        invariant
            i <= lines.len(),
            pieces(lines@) == all,
            all == lines_of_text(membership@),
            membership_of(all, i as int) == membership_of(all, 0),
        decreases lines.len() - i,
    {
        assert(pieces(lines@)[i as int] == lines@[i as int]@);
        let line = lines[i].as_slice();
        if line.len() >= 3 && line[0] == '0' && line[1] == ':' && line[2] == ':' {
            let mut from: usize = 3;
            while from < line.len() && line[from] == '/'
                invariant
                    3 <= from <= line.len(),
                    past_slashes(line@, from as int) == past_slashes(line@, 3),
                decreases line.len() - from,
            {
                from += 1;
            }
            let rest = part(line, from, line.len());
            return Some(text_of(rest.as_slice()));
        }
        i += 1;
    }
    None
}

/// Whether a control group's name says that this user's tool made it.
pub open spec fn is_own_name(name: Seq<char>, uid: nat) -> bool {
    ("memcordon-"@ + decimal(uid) + "-"@).is_prefix_of(name)
}

/// Whether a control group's name says that this user's tool made it.
pub fn has_own_name(name: &str, uid: u32) -> (r: bool)
    ensures
        r == is_own_name(name@, uid as nat),
{
    let number = decimal_text(uid as u64);
    let prefix = join3("memcordon-", number.as_str(), "-");
    let wanted = chars_of(prefix.as_str());
    let chars = chars_of(name);
    if wanted.len() > chars.len() {
        return false;
    }
    let head = part(chars.as_slice(), 0, wanted.len());
    let same = same_chars(head.as_slice(), wanted.as_slice());
    assert(same ==> forall|i: int| 0 <= i < wanted@.len() ==> wanted@[i] == head@[i]);
    assert(!same && wanted@.is_prefix_of(chars@) ==> head@ =~= wanted@);
    same
}

/// What is known of an entry below the delegated parent.
#[derive(Clone, Copy, Debug, PartialEq, Eq, Structural)]
pub struct StaleEntry {
    pub own_name: bool,
    pub directory: bool,
    pub has_procs: bool,
    pub has_events: bool,
    pub has_kill: bool,
}

/// Whether an entry below the delegated parent may be a left-over control group:
/// then whether it has members decides.
pub fn is_stale_candidate(entry: StaleEntry) -> (r: bool)
    ensures
        r == (entry.own_name && entry.directory && entry.has_procs && entry.has_events
            && entry.has_kill),
{
    entry.own_name && entry.directory && entry.has_procs && entry.has_events && entry.has_kill
}

/// Whether what a probe read back is what it wrote.
pub fn read_back(content: &str, wanted: &str) -> (r: bool)
    ensures
        r == (trimmed(content@) == wanted@),
{
    let chars = chars_of(content);
    let inner = trim(chars.as_slice());
    let wanted = chars_of(wanted);
    same_chars(inner.as_slice(), wanted.as_slice())
}

/// The result of a probe: its checks and the removal of its control group must
/// both succeed, and both faults are told where both fail.
pub fn probe_result(controls: Result<(), String>, removal: Result<(), String>) -> (r: Result<
    (),
    String,
>)
    ensures
        match (controls, removal) {
            (Ok(_), Ok(_)) => r is Ok,
            (Err(error), Ok(_)) => r matches Err(text) && text@ == error@,
            (Ok(_), Err(error)) => r matches Err(text) && text@ == error@,
            (Err(check), Err(removed)) => r matches Err(text) && text@ == check@ + "; "@ + removed@,
        },
{
    match (controls, removal) {
        (Ok(_), Ok(_)) => Ok(()),
        (Err(error), Ok(_)) => Err(error),
        (Ok(_), Err(error)) => Err(error),
        (Err(check), Err(removed)) => Err(join3(check.as_str(), "; ", removed.as_str())),
    }
}

/// How a native status says that a child ended: with an exit code, by a signal,
/// or neither.
pub fn termination(code: Option<i32>, signal: Option<i32>) -> (r: ChildTermination)
    ensures
        r == match code {
            Some(code) => ChildTermination::ExitCode { code },
            None => match signal {
                Some(signal) => ChildTermination::UnixSignal { signal },
                None => ChildTermination::Unavailable,
            },
        },
{
    match code {
        Some(code) => ChildTermination::ExitCode { code },
        None => match signal {
            Some(signal) => ChildTermination::UnixSignal { signal },
            None => ChildTermination::Unavailable,
        },
    }
}

/// The name of the group that an attempt creates below its delegated parent.
/// `nonce` is the time in nanoseconds.
pub fn create_cgroup(uid: u32, pid: u32, nonce: u128) -> (r: String)
    ensures
        r@ == "memcordon-"@ + decimal(uid as nat) + "-"@ + decimal(pid as nat) + "-"@ + hex_number(
            nonce as nat,
        ),
{
    let mut name = "memcordon-".to_owned();
    name.append(decimal_text(uid as u64).as_str());
    name.append("-");
    name.append(decimal_text(pid as u64).as_str());
    name.append("-");
    name.append(hex_number_text(nonce).as_str());
    name
}

} // verus!
