//! What goes to the Windows provider and comes from it: requests, frames, stream
//! relays, and the checks of who is at the other end.

use vstd::prelude::*;
use vstd::string::*;

use crate::bytes::{from_le32, get_le32, le32, le64, put, put_le16, put_le32, put_le64};
use crate::evidence::{bare_error, Error, ErrorCategory};
use crate::model::texts;
use crate::policy::{AttemptContext, Lifetime, Policy};
use crate::sealed::digest::{digest_bytes, sha256_of};
use crate::text::{
    chars_of, decimal, decimal_text, hex, join2, join3, join_texts, joined,
};
use crate::time::{capped_millis, floor_sub, least, Duration};

verus! {

/// The steps in which a frame is received.
#[derive(Clone, Copy, Debug, PartialEq, Eq, Structural)]
pub enum FramePhase {
    Availability,
    Length,
    Payload,
    Decode,
}

/// How a frame failed.
#[derive(Clone, Copy, Debug, PartialEq, Eq, Structural)]
pub enum FrameFailure {
    /// The other end is gone.
    PeerClosed(FramePhase),
    /// What came makes no sense.
    Protocol(FramePhase),
}

/// A frame that failed, and what is said of it.
#[derive(Debug)]
pub struct PublicFrameError {
    pub failure: FrameFailure,
    pub detail: String,
}

/// The name of a step.
pub open spec fn frame_phase_named(phase: FramePhase) -> &'static str {
    match phase {
        FramePhase::Availability => "Availability",
        FramePhase::Length => "Length",
        FramePhase::Payload => "Payload",
        FramePhase::Decode => "Decode",
    }
}

fn frame_phase_name(phase: FramePhase) -> (r: &'static str)
    ensures
        r == frame_phase_named(phase),
{
    match phase {
        FramePhase::Availability => "Availability",
        FramePhase::Length => "Length",
        FramePhase::Payload => "Payload",
        FramePhase::Decode => "Decode",
    }
}

impl PublicFrameError {
    /// What the failure says.
    pub open spec fn says(&self) -> Seq<char> {
        (match self.failure {
            FrameFailure::PeerClosed(phase) => "PeerClosed("@ + frame_phase_named(phase)@,
            FrameFailure::Protocol(phase) => "Protocol("@ + frame_phase_named(phase)@,
        }) + "): "@ + self.detail@
    }

    /// What the failure says.
    pub fn text(&self) -> (r: String)
        ensures
            r@ == self.says(),
    {
        let mut text = match self.failure {
            FrameFailure::PeerClosed(phase) => join2("PeerClosed(", frame_phase_name(phase)),
            FrameFailure::Protocol(phase) => join2("Protocol(", frame_phase_name(phase)),
        };
        text.append("): ");
        text.append(self.detail.as_str());
        text
    }
}

/// Whether a native error says that the other end is gone.
pub open spec fn is_closed(code: Option<u32>) -> bool {
    code == Some(109u32) || code == Some(232u32) || code == Some(233u32)
}

/// The failure of a native read in a step.
pub fn native_failure(code: Option<u32>, phase: FramePhase, detail: String) -> (r: PublicFrameError)
    ensures
        r.failure == if is_closed(code) {
            FrameFailure::PeerClosed(phase)
        } else {
            FrameFailure::Protocol(phase)
        },
        r.detail == detail,
{
    let closed = match code {
        Some(number) => number == 109 || number == 232 || number == 233,
        None => false,
    };
    PublicFrameError {
        failure: if closed {
            FrameFailure::PeerClosed(phase)
        } else {
            FrameFailure::Protocol(phase)
        },
        detail,
    }
}

/// Decides whether a frame can be begun with: its length has come.
pub fn frame_available(available: u32) -> (r: bool)
    ensures
        r == (available >= 4),
{
    available >= 4
}

/// What is left to read after so many bytes came; none ends the frame early.
pub fn read_step(left: usize, read: u32, phase: FramePhase) -> (r: Result<usize, PublicFrameError>)
    requires
        read <= left,
    ensures
        if read == 0 {
            r matches Err(error) && error.failure == FrameFailure::PeerClosed(phase)
                && error.detail@ == "unexpected end of provider frame"@
        } else {
            r == Ok::<usize, PublicFrameError>((left - read) as usize)
        },
{
    if read == 0 {
        return Err(
            PublicFrameError {
                failure: FrameFailure::PeerClosed(phase),
                detail: "unexpected end of provider frame".to_owned(),
            },
        );
    }
    Ok(left - read as usize)
}

/// How long a frame is, as its first four bytes say it.
pub fn announced_length(header: &[u8], limit: usize) -> (r: Result<usize, PublicFrameError>)
    requires
        header.len() == 4,
        limit <= u32::MAX,
    ensures
        ({
            let length = from_le32(header@[0], header@[1], header@[2], header@[3]);
            if length > limit {
                r matches Err(error) && error.failure == FrameFailure::Protocol(FramePhase::Length)
                    && error.detail@ == "provider frame exceeds bound"@
            } else {
                r == Ok::<usize, PublicFrameError>(length as usize)
            }
        }),
{
    let length: u32 = get_le32(header, 0);
    if length as usize > limit {
        return Err(
            PublicFrameError {
                failure: FrameFailure::Protocol(FramePhase::Length),
                detail: "provider frame exceeds bound".to_owned(),
            },
        );
    }
    Ok(length as usize)
}

/// The failure of a payload that is no message.
pub fn undecodable(detail: String) -> (r: PublicFrameError)
    ensures
        r.failure == FrameFailure::Protocol(FramePhase::Decode),
        r.detail == detail,
{
    PublicFrameError { failure: FrameFailure::Protocol(FramePhase::Decode), detail }
}

/// A frame: the payload's length, and the payload.
pub fn write_frame(payload: &[u8], limit: usize) -> (r: Result<Vec<u8>, &'static str>)
    requires
        limit <= u32::MAX,
    ensures
        if payload@.len() > limit {
            r == Err::<Vec<u8>, &'static str>("provider frame exceeds bound")
        } else {
            r matches Ok(bytes) && bytes@ == le32(payload@.len() as u32) + payload@
        },
{
    if payload.len() > limit {
        return Err("provider frame exceeds bound");
    }
    let mut out: Vec<u8> = Vec::new();
    put_le32(&mut out, payload.len() as u32);
    put(&mut out, payload);
    assert(out@ =~= le32(payload@.len() as u32) + payload@);
    Ok(out)
}

/// What a frame's first bytes announce is how long its payload is.
pub proof fn frames_announce_their_length(payload: Seq<u8>)
    requires
        payload.len() <= u32::MAX,
    ensures
        ({
            let bytes = le32(payload.len() as u32) + payload;
            from_le32(bytes[0], bytes[1], bytes[2], bytes[3]) == payload.len() && bytes.skip(4)
                == payload
        }),
{
    let bytes = le32(payload.len() as u32) + payload;
    crate::bytes::le32_round(payload.len() as u32);
    assert(bytes.skip(4) =~= payload);
}

/// What is left to write after so many bytes went out.
pub fn write_step(left: usize, written: u32) -> (r: Result<usize, &'static str>)
    requires
        written <= left,
    ensures
        r == if written == 0 {
            Err::<usize, &'static str>("zero-byte provider write")
        } else {
            Ok((left - written) as usize)
        },
{
    if written == 0 {
        Err("zero-byte provider write")
    } else {
        Ok(left - written as usize)
    }
}

/// A command in Windows' own characters.
#[derive(Debug)]
pub struct WindowsCommand {
    pub program: Vec<u16>,
    pub arguments: Vec<Vec<u16>>,
}

/// Whether a zero is among some characters.
pub open spec fn holds_zero(wide: Seq<u16>) -> bool {
    exists|i: int| 0 <= i < wide.len() && wide[i] == 0
}

fn has_zero(wide: &Vec<u16>) -> (r: bool)
    ensures
        r == holds_zero(wide@),
{
    let mut i: usize = 0;
    while i < wide.len()
        invariant
            i <= wide.len(),
            forall|k: int| 0 <= k < i ==> wide@[k] != 0,
        decreases wide.len() - i,
    {
        if wide[i] == 0 {
            assert(wide@[i as int] == 0);
            return true;
        }
        i += 1;
    }
    false
}

/// The command of a request.
pub fn encode_command(command: WindowsCommand) -> (r: Result<WindowsCommand, &'static str>)
    ensures
        r == if command.program@.len() == 0 || holds_zero(command.program@) {
            Err::<WindowsCommand, &'static str>("Windows program is empty or contains NUL")
        } else {
            Ok(command)
        },
{
    if command.program.len() == 0 || has_zero(&command.program) {
        return Err("Windows program is empty or contains NUL");
    }
    Ok(command)
}

/// An entry of the environment in Windows' own characters.
#[derive(Debug)]
pub struct WindowsEnvironmentEntry {
    pub name: Vec<u16>,
    pub value: Vec<u16>,
}

/// Whether an entry can go into a request.
pub open spec fn is_entry(entry: WindowsEnvironmentEntry) -> bool {
    entry.name@.len() > 0 && !holds_zero(entry.name@) && !holds_zero(entry.value@)
}

/// The environment of a request.
pub fn encode_environment(entries: Vec<WindowsEnvironmentEntry>) -> (r: Result<
    Vec<WindowsEnvironmentEntry>,
    &'static str,
>)
    ensures
        r == if forall|i: int| 0 <= i < entries@.len() ==> is_entry(#[trigger] entries@[i]) {
            Ok::<Vec<WindowsEnvironmentEntry>, &'static str>(entries)
        } else {
            Err("Windows environment contains an invalid entry")
        },
{
    let mut i: usize = 0;
    while i < entries.len()
        invariant
            i <= entries.len(),
            forall|k: int| 0 <= k < i ==> is_entry(#[trigger] entries@[k]),
        decreases entries.len() - i,
    {
        let entry = &entries[i];
        if entry.name.len() == 0 || has_zero(&entry.name) || has_zero(&entry.value) {
            assert(!is_entry(entries@[i as int]));
            return Err("Windows environment contains an invalid entry");
        }
        i += 1;
    }
    Ok(entries)
}

/// The policy of a request.
#[derive(Clone, Copy, Debug, PartialEq, Eq, Structural)]
pub struct WindowsLaunchPolicy {
    pub memory_limit_bytes: Option<u64>,
    pub absolute_deadline_millis: Option<u64>,
    pub lifetime: Lifetime,
    pub poll_interval_millis: u64,
    pub signal_grace_millis: u64,
    pub command_exit_grace_millis: u64,
    pub limit_grace_millis: u64,
}

/// The time that an attempt may take: its own, or what is left of the supervision's.
pub open spec fn budget_of(policy: Policy, context: AttemptContext) -> Option<nat> {
    match (policy.deadline, context.supervision_deadline_remaining) {
        (Some(deadline), Some(remaining)) => Some(least(deadline.duration@, remaining@)),
        (Some(deadline), None) => Some(deadline.duration@),
        (None, Some(remaining)) => Some(remaining@),
        (None, None) => None,
    }
}

/// The end of the time that an attempt may take, on the machine's clock.
pub open spec fn deadline_of(budget: Option<nat>, tick: u64) -> Result<Option<u64>, &'static str> {
    match budget {
        None => Ok(None),
        Some(nanos) => if nanos / 1_000_000 > u64::MAX {
            Err("deadline exceeds protocol range")
        } else {
            Ok(Some(least(tick as nat + nanos / 1_000_000, u64::MAX as nat) as u64))
        },
    }
}

/// The policy of a request; `tick` is what the machine's clock says, in milliseconds.
pub fn encode_policy(policy: &Policy, context: AttemptContext, tick: u64) -> (r: Result<
    WindowsLaunchPolicy,
    &'static str,
>)
    ensures
        r == match deadline_of(budget_of(*policy, context), tick) {
            Err(text) => Err::<WindowsLaunchPolicy, &'static str>(text),
            Ok(deadline) => Ok(
                WindowsLaunchPolicy {
                    memory_limit_bytes: policy.memory,
                    absolute_deadline_millis: deadline,
                    lifetime: policy.lifetime,
                    poll_interval_millis: capped_millis(policy.poll_interval@),
                    signal_grace_millis: capped_millis(policy.signal_grace@),
                    command_exit_grace_millis: capped_millis(policy.command_exit_grace@),
                    limit_grace_millis: capped_millis(policy.limit_grace@),
                },
            ),
        },
{
    let budget = match (policy.deadline, context.supervision_deadline_remaining) {
        (Some(deadline), Some(remaining)) => Some(deadline.duration.min(remaining)),
        (Some(deadline), None) => Some(deadline.duration),
        (None, Some(remaining)) => Some(remaining),
        (None, None) => None,
    };
    let absolute_deadline_millis: Option<u64> = match budget {
        None => None,
        Some(span) => {
            let millis: u128 = span.as_millis();
            if millis > u64::MAX as u128 {
                return Err("deadline exceeds protocol range");
            }
            Some(tick.saturating_add(millis as u64))
        },
    };
    Ok(
        WindowsLaunchPolicy {
            memory_limit_bytes: policy.memory,
            absolute_deadline_millis,
            lifetime: policy.lifetime,
            poll_interval_millis: policy.poll_interval.millis(),
            signal_grace_millis: policy.signal_grace.millis(),
            command_exit_grace_millis: policy.command_exit_grace.millis(),
            limit_grace_millis: policy.limit_grace.millis(),
        },
    )
}

/// Windows' own characters as bytes, the less significant one of each first.
pub open spec fn wide_bytes(wide: Seq<u16>) -> Seq<u8>
    decreases wide.len(),
{
    if wide.len() == 0 {
        Seq::empty()
    } else {
        wide_bytes(wide.drop_last()) + crate::bytes::le16(wide.last())
    }
}

/// What tells a request from any other: the digest of when it is made, by whom, and of
/// the program.
pub fn launch_nonce(tick: u64, pid: u32, program: &[u16]) -> (r: String)
    ensures
        r@ == hex(sha256_of(le64(tick) + le32(pid) + wide_bytes(program@))),
{
    let mut out: Vec<u8> = Vec::new();
    put_le64(&mut out, tick);
    put_le32(&mut out, pid);
    let ghost head = out@;
    let mut i: usize = 0;
    assert(program@.take(0) =~= Seq::<u16>::empty());
    assert(out@ =~= head + wide_bytes(program@.take(0)));
    while i < program.len()
        invariant
            i <= program.len(),
            out@ == head + wide_bytes(program@.take(i as int)),
        decreases program.len() - i,
    {
        assert(program@.take(i + 1).drop_last() =~= program@.take(i as int));
        put_le16(&mut out, program[i]);
        i += 1;
        assert(out@ =~= head + wide_bytes(program@.take(i as int)));
    }
    assert(program@.take(i as int) =~= program@);
    assert(out@ =~= le64(tick) + le32(pid) + wide_bytes(program@));
    digest_bytes(out.as_slice())
}

/// The error of a conversation with the provider that failed.
pub fn transport_error(detail: String) -> (r: Error)
    ensures
        r@ == bare_error(ErrorCategory::Setup, "MCSEALED-WINDOWS-TRANSPORT", detail@),
{
    Error::new(ErrorCategory::Setup, "MCSEALED-WINDOWS-TRANSPORT", detail)
}

/// The error of a request that cannot be made.
pub fn usage_error(detail: String) -> (r: Error)
    ensures
        r@ == bare_error(ErrorCategory::Usage, "MCSEALED-WINDOWS-REQUEST", detail@),
{
    Error::new(ErrorCategory::Usage, "MCSEALED-WINDOWS-REQUEST", detail)
}

/// What is said where there is no provider, or none that is qualified.
pub open spec fn missing_provider(detail: Seq<char>) -> Seq<char> {
    "Windows sealed provider is not installed or not qualified: "@ + detail
        + "\n\nInstall the companion memcordon-sealed-agent.exe from the same MemCordon version, then run package install from an elevated terminal."@
}

/// What is said where there is no provider, or none that is qualified.
pub fn missing_provider_message(detail: &str) -> (r: String)
    ensures
        r@ == missing_provider(detail@),
{
    join3(
        "Windows sealed provider is not installed or not qualified: ",
        detail,
        "\n\nInstall the companion memcordon-sealed-agent.exe from the same MemCordon version, then run package install from an elevated terminal.",
    )
}

/// Who may do what with the process while the provider looks at it.
pub fn broker_access(user: &str) -> (r: String)
    ensures
        r@ == "D:P(A;;GA;;;SY)(A;;GA;;;"@ + user@ + ")(A;;0x00101040;;;RC)"@,
{
    join3("D:P(A;;GA;;;SY)(A;;GA;;;", user, ")(A;;0x00101040;;;RC)")
}

/// How often connecting to the provider is tried.
pub const CONNECT_TRIES: u32 = 100;

/// What follows a try to connect that failed.
#[derive(Debug)]
pub enum ConnectStep {
    /// Wait until the provider is free, a tenth of a second at most, and try again.
    WaitForPipe,
    GiveUp(String),
}

/// Decides what follows a try to connect that failed; `tried` is how many came before
/// it. Only a provider that is busy is tried again.
pub fn connect_failed(code: Option<u32>, text: String, tried: u32) -> (r: ConnectStep)
    ensures
        if code != Some(231u32) {
            r == ConnectStep::GiveUp(text)
        } else if tried < CONNECT_TRIES - 1 {
            r == ConnectStep::WaitForPipe
        } else {
            r matches ConnectStep::GiveUp(fault) && fault@
                == "Windows sealed provider pipe did not become available"@
        },
{
    let busy = match code {
        Some(number) => number == 231,
        None => false,
    };
    if !busy {
        return ConnectStep::GiveUp(text);
    }
    if tried < CONNECT_TRIES - 1 {
        return ConnectStep::WaitForPipe;
    }
    ConnectStep::GiveUp("Windows sealed provider pipe did not become available".to_owned())
}

/// A character in lower case, where it is an ASCII letter.
pub open spec fn lower(c: char) -> char {
    if 'A' <= c <= 'Z' {
        ((c as u32) + 32) as char
    } else {
        c
    }
}

/// Whether two texts differ in the case of ASCII letters only.
pub open spec fn same_but_case(a: Seq<char>, b: Seq<char>) -> bool {
    a.len() == b.len() && forall|i: int| 0 <= i < a.len() ==> lower(#[trigger] a[i]) == lower(b[i])
}

fn lowered(c: char) -> (r: u32)
    ensures
        r == lower(c) as u32,
{
    let n: u32 = c as u32;
    if 65 <= n && n <= 90 {
        n + 32
    } else {
        n
    }
}

/// Whether two texts differ in the case of ASCII letters only.
pub fn eq_but_case(a: &str, b: &str) -> (r: bool)
    ensures
        r == same_but_case(a@, b@),
{
    let left = chars_of(a);
    let right = chars_of(b);
    if left.len() != right.len() {
        return false;
    }
    let mut i: usize = 0;
    while i < left.len()
        invariant
            i <= left.len(),
            left.len() == right.len(),
            left@ == a@,
            right@ == b@,
            forall|k: int| 0 <= k < i ==> lower(#[trigger] a@[k]) == lower(b@[k]),
        decreases left.len() - i,
    {
        if lowered(left[i]) != lowered(right[i]) {
            assert(lower(a@[i as int]) != lower(b@[i as int]));
            return false;
        }
        assert(lower(a@[i as int]) as u32 == lower(b@[i as int]) as u32);
        i += 1;
    }
    true
}

/// Decides whether the process at the other end is the installed agent.
pub fn peer_image(actual: &str, expected: &str) -> (r: Result<(), &'static str>)
    ensures
        r == if same_but_case(actual@, expected@) {
            Ok::<(), &'static str>(())
        } else {
            Err("connected Windows sealed provider is not the installed agent image")
        },
{
    if eq_but_case(actual, expected) {
        Ok(())
    } else {
        Err("connected Windows sealed provider is not the installed agent image")
    }
}

/// Decides whether the process at the other end runs as the control service, and as
/// nothing more. A look that failed decides as soon as it is needed.
pub fn peer_service(
    user: Result<bool, &'static str>,
    group: Result<bool, &'static str>,
    restricted: Result<bool, &'static str>,
) -> (r: Result<(), &'static str>)
    ensures
        ({
            let lacking = Err::<(), &'static str>(
                "connected Windows sealed provider lacks the restricted control-service identity",
            );
            r == match user {
                Err(text) => Err::<(), &'static str>(text),
                Ok(false) => lacking,
                Ok(true) => match group {
                    Err(text) => Err(text),
                    Ok(false) => lacking,
                    Ok(true) => match restricted {
                        Err(text) => Err(text),
                        Ok(false) => lacking,
                        Ok(true) => Ok(()),
                    },
                },
            }
        }),
{
    match user {
        Err(text) => {
            return Err(text);
        },
        Ok(matches) => {
            if !matches {
                return Err(
                    "connected Windows sealed provider lacks the restricted control-service identity",
                );
            }
        },
    }
    match group {
        Err(text) => {
            return Err(text);
        },
        Ok(holds) => {
            if !holds {
                return Err(
                    "connected Windows sealed provider lacks the restricted control-service identity",
                );
            }
        },
    }
    match restricted {
        Err(text) => Err(text),
        Ok(holds) => {
            if holds {
                Ok(())
            } else {
                Err(
                    "connected Windows sealed provider lacks the restricted control-service identity",
                )
            }
        },
    }
}

/// The standard streams.
#[derive(Clone, Copy, Debug, PartialEq, Eq, Structural)]
pub enum StreamRole {
    Stdin,
    Stdout,
    Stderr,
}

/// A stream that the provider handed over.
#[derive(Clone, Copy, Debug, PartialEq, Eq, Structural)]
pub struct RemoteStream {
    pub role: StreamRole,
    pub handle: u64,
}

/// Whether a handle is among the first streams'.
pub open spec fn is_among(streams: Seq<RemoteStream>, handle: u64) -> bool {
    exists|i: int| 0 <= i < streams.len() && (#[trigger] streams[i]).handle == handle
}

fn among(streams: &Vec<RemoteStream>, n: usize, handle: u64) -> (r: bool)
    requires
        n <= streams.len(),
    ensures
        r == is_among(streams@.take(n as int), handle),
{
    let mut i: usize = 0;
    while i < n
        invariant
            i <= n <= streams.len(),
            forall|k: int| 0 <= k < i ==> (#[trigger] streams@[k]).handle != handle,
        decreases n - i,
    {
        if streams[i].handle == handle {
            assert(streams@.take(n as int)[i as int].handle == handle);
            return true;
        }
        i += 1;
    }
    assert forall|k: int| 0 <= k < n implies (#[trigger] streams@.take(n as int)[k]).handle
        != handle by {
        assert(streams@[k].handle != handle);
    }
    false
}

/// The handles that are taken over: each once, in order, and none that is no handle.
pub open spec fn taken_over(streams: Seq<RemoteStream>, event: u64) -> Seq<u64> {
    let from_streams = taken_from(streams);
    if event == 0 || from_streams.contains(event) {
        from_streams
    } else {
        from_streams.push(event)
    }
}

/// The handles of streams that are taken over.
pub open spec fn taken_from(streams: Seq<RemoteStream>) -> Seq<u64>
    decreases streams.len(),
{
    if streams.len() == 0 {
        Seq::empty()
    } else {
        let before = taken_from(streams.drop_last());
        let handle = streams.last().handle;
        if handle == 0 || before.contains(handle) {
            before
        } else {
            before.push(handle)
        }
    }
}

fn holds(list: &Vec<u64>, handle: u64) -> (r: bool)
    ensures
        r == list@.contains(handle),
{
    let mut i: usize = 0;
    while i < list.len()
        invariant
            i <= list.len(),
            forall|k: int| 0 <= k < i ==> list@[k] != handle,
        decreases list.len() - i,
    {
        if list[i] == handle {
            assert(list@[i as int] == handle);
            return true;
        }
        i += 1;
    }
    false
}

/// The handles that are taken over from the provider, before anything is checked, so
/// that none of them is left open.
pub fn adopt(streams: &Vec<RemoteStream>, event: u64) -> (r: Vec<u64>)
    ensures
        r@ == taken_over(streams@, event),
{
    let mut out: Vec<u64> = Vec::new();
    let mut i: usize = 0;
    assert(streams@.take(0) =~= Seq::<RemoteStream>::empty());
    while i < streams.len()
        invariant
            i <= streams.len(),
            out@ == taken_from(streams@.take(i as int)),
        decreases streams.len() - i,
    {
        assert(streams@.take(i + 1).drop_last() =~= streams@.take(i as int));
        let handle: u64 = streams[i].handle;
        if handle != 0 && !holds(&out, handle) {
            out.push(handle);
        }
        i += 1;
    }
    assert(streams@.take(i as int) =~= streams@);
    if event != 0 && !holds(&out, event) {
        out.push(event);
    }
    out
}

/// Whether each stream has a handle of its own.
pub open spec fn each_its_own(streams: Seq<RemoteStream>) -> bool {
    forall|i: int|
        0 <= i < streams.len() ==> (#[trigger] streams[i]).handle != 0 && !is_among(
            streams.take(i),
            streams[i].handle,
        )
}

/// Decides whether streams are relayed; `validated` is what a check of their list found.
pub fn start_relays(
    streams: &Vec<RemoteStream>,
    event: u64,
    validated: Result<(), &'static str>,
) -> (r: Result<(), &'static str>)
    ensures
        r == match validated {
            Err(text) => Err::<(), &'static str>(text),
            Ok(_) => if event == 0 || is_among(streams@, event) {
                Err("provider returned an invalid relay-retirement event")
            } else if !each_its_own(streams@) {
                Err("provider stream handle was not adopted")
            } else {
                Ok(())
            },
        },
{
    match validated {
        Err(text) => {
            return Err(text);
        },
        Ok(_) => {},
    }
    assert(streams@.take(streams@.len() as int) =~= streams@);
    if event == 0 || among(streams, streams.len(), event) {
        return Err("provider returned an invalid relay-retirement event");
    }
    let mut i: usize = 0;
    while i < streams.len()
        invariant
            i <= streams.len(),
            forall|k: int|
                0 <= k < i ==> (#[trigger] streams@[k]).handle != 0 && !is_among(
                    streams@.take(k),
                    streams@[k].handle,
                ),
            validated is Ok,
            event != 0 && !is_among(streams@, event),
        decreases streams.len() - i,
    {
        if streams[i].handle == 0 || among(streams, i, streams[i].handle) {
            assert(!(streams@[i as int].handle != 0 && !is_among(
                streams@.take(i as int),
                streams@[i as int].handle,
            )));
            return Err("provider stream handle was not adopted");
        }
        i += 1;
    }
    Ok(())
}

/// Whether handles are all of the kind of a pipe.
pub open spec fn are_pipes(kinds: Seq<u32>) -> bool {
    forall|i: int| 0 <= i < kinds.len() ==> #[trigger] kinds[i] == 3
}

/// Decides whether the streams that were handed over are pipes.
pub fn all_pipes(kinds: &[u32]) -> (r: Result<(), &'static str>)
    ensures
        r == if forall|i: int| 0 <= i < kinds@.len() ==> kinds@[i] == 3 {
            Ok::<(), &'static str>(())
        } else {
            Err("provider stream handle is not a pipe")
        },
        r is Ok <==> are_pipes(kinds@),
{
    let mut i: usize = 0;
    while i < kinds.len()
        invariant
            i <= kinds.len(),
            forall|k: int| 0 <= k < i ==> kinds@[k] == 3,
        decreases kinds.len() - i,
    {
        if kinds[i] != 3 {
            assert(kinds@[i as int] != 3);
            return Err("provider stream handle is not a pipe");
        }
        i += 1;
    }
    Ok(())
}

/// How a relay's thread ended.
#[derive(Debug)]
pub enum ThreadWait {
    Ended,
    TimedOut,
    Failed(String),
    Unknown(u32),
}

/// What the end of a relay's thread comes to.
#[derive(Debug)]
pub enum WaitVerdict {
    Fine,
    /// A relay that does not end would keep the provider's streams open: the process
    /// leaves at once, and the guardian clears up.
    Abort,
    Finding(String),
}

/// What is found where a relay's work could not be called off; that it had none is no
/// finding.
pub fn cancel_finding(code: Option<u32>, text: &str) -> (r: Option<String>)
    ensures
        if code == Some(1168u32) {
            r is None
        } else {
            r matches Some(finding) && finding@ == "failed to cancel stream relay I/O: "@ + text@
        },
{
    let idle = match code {
        Some(number) => number == 1168,
        None => false,
    };
    if idle {
        None
    } else {
        Some(join2("failed to cancel stream relay I/O: ", text))
    }
}

/// How many milliseconds a relay's thread is still waited for.
pub fn relay_wait(now: Duration, deadline: Duration) -> (r: u32)
    ensures
        r == least(floor_sub(deadline@, now@) / 1_000_000, u32::MAX as nat),
{
    let millis: u128 = deadline.saturating_sub(now).as_millis();
    if millis > u32::MAX as u128 {
        u32::MAX
    } else {
        millis as u32
    }
}

/// What the end of a relay's thread comes to.
pub fn wait_verdict(wait: ThreadWait) -> (r: WaitVerdict)
    ensures
        match wait {
            ThreadWait::Ended => r == WaitVerdict::Fine,
            ThreadWait::TimedOut => r == WaitVerdict::Abort,
            ThreadWait::Failed(text) => r matches WaitVerdict::Finding(finding) && finding@
                == "failed while waiting for stream relay retirement: "@ + text@,
            ThreadWait::Unknown(status) => r matches WaitVerdict::Finding(finding) && finding@
                == "unexpected stream relay wait status: "@ + decimal(status as nat),
        },
{
    match wait {
        ThreadWait::Ended => WaitVerdict::Fine,
        ThreadWait::TimedOut => WaitVerdict::Abort,
        ThreadWait::Failed(text) => WaitVerdict::Finding(
            join2("failed while waiting for stream relay retirement: ", text.as_str()),
        ),
        ThreadWait::Unknown(status) => {
            let number = decimal_text(status as u64);
            WaitVerdict::Finding(join2("unexpected stream relay wait status: ", number.as_str()))
        },
    }
}

/// The relays of the standard streams.
#[derive(Clone, Copy, Debug, PartialEq, Eq, Structural)]
pub struct Relays {
    pub retired: bool,
}

impl Relays {
    /// Whether the relays still have to be retired.
    pub fn must_retire(&self) -> (r: bool)
        ensures
            r == !self.retired,
    {
        !self.retired
    }

    /// The relays were retired; `findings` is what went wrong. They are never retired
    /// twice.
    pub fn retire(&mut self, findings: &Vec<String>) -> (r: Result<(), String>)
        requires
            !old(self).retired,
        ensures
            final(self).retired,
            match r {
                Ok(_) => findings@.len() == 0,
                Err(text) => findings@.len() > 0 && text@ == joined(texts(findings@), "; "@),
            },
    {
        self.retired = true;
        if findings.len() == 0 {
            Ok(())
        } else {
            Err(join_texts(findings, "; "))
        }
    }
}

/// What a relay does next.
#[derive(Clone, Copy, Debug, PartialEq, Eq, Structural)]
pub enum RelayStep {
    /// Look for something to read.
    Wait,
    /// Write what is left from this place on.
    Write { from: usize },
    /// Nothing: it has ended.
    End,
}

/// Whether a relay goes from the caller to the provider.
pub fn goes_to_provider(role: StreamRole) -> (r: bool)
    ensures
        r == (role == StreamRole::Stdin),
{
    match role {
        StreamRole::Stdin => true,
        _ => false,
    }
}

/// What follows a read: its end ends the relay.
pub fn relay_read(read: Option<u32>) -> (r: RelayStep)
    ensures
        r == match read {
            None => RelayStep::End,
            Some(count) => if count == 0 {
                RelayStep::End
            } else {
                RelayStep::Write { from: 0 }
            },
        },
{
    match read {
        None => RelayStep::End,
        Some(count) => if count == 0 {
            RelayStep::End
        } else {
            RelayStep::Write { from: 0 }
        },
    }
}

/// What follows a write of part of what was read; that nobody takes it ends the relay.
pub fn relay_wrote(read: usize, from: usize, written: Option<u32>) -> (r: Result<
    RelayStep,
    &'static str,
>)
    requires
        from < read,
        written matches Some(count) ==> count <= read - from,
    ensures
        r == match written {
            None => Ok::<RelayStep, &'static str>(RelayStep::End),
            Some(count) => if count == 0 {
                Err("zero-byte stream relay write")
            } else if from + count < read {
                Ok(RelayStep::Write { from: (from + count) as usize })
            } else {
                Ok(RelayStep::Wait)
            },
        },
{
    match written {
        None => Ok(RelayStep::End),
        Some(count) => {
            if count == 0 {
                return Err("zero-byte stream relay write");
            }
            let next: usize = from + count as usize;
            if next < read {
                Ok(RelayStep::Write { from: next })
            } else {
                Ok(RelayStep::Wait)
            }
        },
    }
}

/// How a relay's thread ended.
#[derive(Debug)]
pub enum ThreadEnd {
    Ended,
    Failed(String),
    Panicked,
}

/// What is found of a relay's thread, if anything.
pub fn join_finding(end: ThreadEnd) -> (r: Option<String>)
    ensures
        match end {
            ThreadEnd::Ended => r is None,
            ThreadEnd::Failed(text) => r == Some(text),
            ThreadEnd::Panicked => r matches Some(text) && text@ == "stream relay thread panicked"@,
        },
{
    match end {
        ThreadEnd::Ended => None,
        ThreadEnd::Failed(text) => Some(text),
        ThreadEnd::Panicked => Some("stream relay thread panicked".to_owned()),
    }
}

/// What is found of the signal that the relays are gone, if anything.
pub fn signal_finding(signalled: Result<(), String>) -> (r: Option<String>)
    ensures
        match signalled {
            Ok(_) => r is None,
            Err(error) => r matches Some(text) && text@ == "failed to signal relay retirement: "@
                + error@,
        },
{
    match signalled {
        Ok(_) => None,
        Err(error) => Some(join2("failed to signal relay retirement: ", error.as_str())),
    }
}

} // verus!
