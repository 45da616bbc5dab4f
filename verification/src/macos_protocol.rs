//! The private protocol between a frontend, its guardian and the launcher on
//! macOS: messages, their framing, and the order in which they may come.

use vstd::prelude::*;
use vstd::string::*;

use crate::bytes::{be16, be16_round, from_be16, put, put_be16, slice_of};
use crate::macos_envelope::Settings;
use crate::model::{Fault, FaultKind};
use crate::policy::Metric;

verus! {

/// The length of the longest message.
pub const FRAME_LIMIT: usize = 4096;

/// The length of a message's prefix.
pub const PREFIX: usize = 2;

/// What is said over the protocol.
#[derive(Debug)]
pub enum Message {
    Hello,
    Ready,
    Bind { group: i32 },
    Armed { group: i32 },
    Release,
    Disarm,
    Retired,
    Failure { errno: i32 },
    FailureDetail { message: String },
    HoldSpawn,
    HoldSpawnReleaseAfterCancel,
    SpawnHeld { pid: i32 },
    ResumeSpawn,
    InterruptClock,
    ClockInterruptible,
    AdvanceClock { nanos: u64 },
    DisableWorkTimer,
    Configure {
        image: Vec<u8>,
        boot_identity: String,
        startup: u64,
        work: Option<u64>,
        grace: u64,
    },
    Prepared { pid: i32 },
    Released,
    ReleaseIssued { at: u64 },
    ForceRequested { at: u64 },
    Observe,
    Reap,
    Stop,
    Heartbeat,
    StopAt { force: u64 },
    SignalStop { signal: i32, force: u64 },
    RestoreSignal { settings: Settings },
    InventoryQuery { query: u64, metric: Option<Metric> },
    InventoryChunk { query: u64, bytes: Vec<u8>, finished: bool },
    Status { raw: Option<i32>, reaped: bool },
    StallInspectors { both: bool },
    InspectorsStalled { normal: u32, emergency: u32 },
    Snapshot { pid: i32 },
    Observed { pid: i32, observed: bool },
}

/// The messages that are waited for by name.
#[derive(Clone, Copy, Debug, PartialEq, Eq, Structural)]
pub enum Expected {
    Hello,
    Ready,
    Release,
    Released,
    Retired,
    ClockInterruptible,
}

/// Whether a message is the one that is waited for.
pub open spec fn is_expected(message: Message, expected: Expected) -> bool {
    match expected {
        Expected::Hello => message is Hello,
        Expected::Ready => message is Ready,
        Expected::Release => message is Release,
        Expected::Released => message is Released,
        Expected::Retired => message is Retired,
        Expected::ClockInterruptible => message is ClockInterruptible,
    }
}

/// A message with what binds it to a run and to its place.
#[derive(Debug)]
pub struct Frame {
    pub version: u8,
    pub run: u64,
    pub sequence: u64,
    pub message: Message,
}

/// One end of the protocol.
#[derive(Debug)]
pub struct Channel {
    pub run: u64,
    pub sent: u64,
    pub received: u64,
    pub input: Vec<u8>,
    pub inventory_query: Option<u64>,
    pub force_receipt: u64,
}

/// What a read from the socket gave.
#[derive(Debug)]
pub enum ReadEvent {
    End,
    Data(Vec<u8>),
    Nothing,
    Failed(Fault),
}

/// What has come in.
#[derive(Debug)]
pub enum Available {
    /// The other end has closed.
    Closed,
    /// Not yet a whole message.
    Partial,
    /// The text of one message.
    Payload(Vec<u8>),
}

/// The length of the message that comes first.
pub open spec fn first_length(input: Seq<u8>) -> nat {
    from_be16(input)
}

/// What bytes that have come in hold, `ended` where no more will come.
pub open spec fn available_in(input: Seq<u8>, ended: bool) -> Result<Option<Seq<u8>>, Fault> {
    if input.len() < 2 {
        if ended {
            Err(Fault::found(FaultKind::UnexpectedEof, "partial private frame"))
        } else {
            Ok(None)
        }
    } else if first_length(input) == 0 || first_length(input) > FRAME_LIMIT {
        Err(Fault::found(FaultKind::Other, "invalid private frame length"))
    } else if input.len() < 2 + first_length(input) {
        if ended {
            Err(Fault::found(FaultKind::UnexpectedEof, "partial private frame"))
        } else {
            Ok(None)
        }
    } else {
        Ok(Some(input.subrange(2, 2 + first_length(input) as int)))
    }
}

/// Whether a result is what bytes that have come in hold.
pub open spec fn is_available(
    r: Result<Available, Fault>,
    input: Seq<u8>,
    ended: bool,
) -> bool {
    match available_in(input, ended) {
        Err(fault) => r == Err::<Available, Fault>(fault),
        Ok(None) => r == Ok::<Available, Fault>(Available::Partial),
        Ok(Some(payload)) => r matches Ok(Available::Payload(bytes)) && bytes@ == payload,
    }
}

impl Channel {
    /// A new end of the protocol.
    pub fn new(run: u64) -> (r: Channel)
        ensures
            r.run == run && r.sent == 0 && r.received == 0 && r.force_receipt == 0,
            r.input@.len() == 0,
            r.inventory_query is None,
    {
        Channel {
            run,
            sent: 0,
            received: 0,
            input: Vec::new(),
            inventory_query: None,
            force_receipt: 0,
        }
    }

    /// A message as it goes out next.
    pub fn frame(&self, message: Message) -> (r: Frame)
        ensures
            r == (Frame { version: 2, run: self.run, sequence: self.sent, message }),
    {
        Frame { version: 2, run: self.run, sequence: self.sent, message }
    }

    /// A message went out.
    pub fn message_sent(&mut self) -> (r: Result<(), Fault>)
        ensures
            if old(self).sent == u64::MAX {
                *final(self) == *old(self) && r == Err::<(), Fault>(
                    Fault::found(FaultKind::Other, "protocol sequence exhausted"),
                )
            } else {
                r is Ok && *final(self) == (Channel {
                    sent: (old(self).sent + 1) as u64,
                    ..*old(self)
                })
            },
    {
        if self.sent == u64::MAX {
            return Err(Fault::new(FaultKind::Other, "protocol sequence exhausted"));
        }
        self.sent = self.sent + 1;
        Ok(())
    }

    /// How many bytes may be read next.
    pub fn capacity(&self) -> (r: Result<usize, Fault>)
        ensures
            r == if self.input@.len() >= 4098 {
                Err::<usize, Fault>(
                    Fault::found(FaultKind::Other, "private frame exceeds bound"),
                )
            } else {
                Ok((4098 - self.input@.len()) as usize)
            },
    {
        if self.input.len() >= FRAME_LIMIT + PREFIX {
            return Err(Fault::new(FaultKind::Other, "private frame exceeds bound"));
        }
        Ok(FRAME_LIMIT + PREFIX - self.input.len())
    }

    /// Takes in one read. A message that has not come in whole is kept until it has.
    pub fn receive_available(&mut self, event: ReadEvent) -> (r: Result<Available, Fault>)
        ensures
            final(self).run == old(self).run && final(self).sent == old(self).sent
                && final(self).received == old(self).received && final(self).inventory_query
                == old(self).inventory_query && final(self).force_receipt
                == old(self).force_receipt,
            match event {
                ReadEvent::Failed(fault) => final(self).input@ == old(self).input@ && r == Err::<
                    Available,
                    Fault,
                >(fault),
                ReadEvent::End => final(self).input@ == old(self).input@ && if old(
                    self).input@.len() == 0 {
                    r == Ok::<Available, Fault>(Available::Closed)
                } else {
                    is_available(r, old(self).input@, true)
                },
                ReadEvent::Nothing => final(self).input@ == old(self).input@ && is_available(
                    r,
                    old(self).input@,
                    false,
                ),
                ReadEvent::Data(bytes) => final(self).input@ == old(self).input@ + bytes@
                    && is_available(r, old(self).input@ + bytes@, false),
            },
    {
        let mut ended = false;
        match event {
            ReadEvent::End => {
                if self.input.len() == 0 {
                    return Ok(Available::Closed);
                }
                ended = true;
            },
            ReadEvent::Data(bytes) => {
                put(&mut self.input, bytes.as_slice());
            },
            ReadEvent::Nothing => {},
            ReadEvent::Failed(fault) => {
                return Err(fault);
            },
        }
        if self.input.len() < PREFIX {
            if ended {
                return Err(Fault::new(FaultKind::UnexpectedEof, "partial private frame"));
            }
            return Ok(Available::Partial);
        }
        let length: usize = self.input[0] as usize * 256 + self.input[1] as usize;
        if length == 0 || length > FRAME_LIMIT {
            return Err(Fault::new(FaultKind::Other, "invalid private frame length"));
        }
        if self.input.len() < PREFIX + length {
            if ended {
                return Err(Fault::new(FaultKind::UnexpectedEof, "partial private frame"));
            }
            return Ok(Available::Partial);
        }
        Ok(Available::Payload(slice_of(self.input.as_slice(), PREFIX, PREFIX + length)))
    }

    /// Why a message is refused, if it is.
    pub open spec fn refuses(&self, frame: Frame) -> Option<Fault> {
        if frame.version != 2 || frame.run != self.run || frame.sequence != self.received {
            Some(Fault::found(FaultKind::Other, "private protocol binding or sequence mismatch"))
        } else if self.received == u64::MAX {
            Some(Fault::found(FaultKind::Other, "protocol sequence exhausted"))
        } else {
            None
        }
    }

    /// Takes in the message whose text came in first, as it was read.
    pub fn accept(&mut self, reading: Result<Frame, Fault>) -> (r: Result<Message, Fault>)
        requires
            old(self).input@.len() >= 2,
            old(self).input@.len() >= 2 + first_length(old(self).input@),
        ensures
            match reading {
                Err(fault) => *final(self) == *old(self) && r == Err::<Message, Fault>(fault),
                Ok(frame) => match old(self).refuses(frame) {
                    Some(fault) => *final(self) == *old(self) && r == Err::<Message, Fault>(fault),
                    None => {
                        &&& r == Ok::<Message, Fault>(frame.message)
                        &&& final(self).received == old(self).received + 1
                        &&& final(self).input@ == old(self).input@.skip(
                            2 + first_length(old(self).input@) as int,
                        )
                        &&& final(self).run == old(self).run && final(self).sent == old(self).sent
                            && final(self).inventory_query == old(self).inventory_query
                            && final(self).force_receipt == old(self).force_receipt
                    },
                },
            },
    {
        let frame = match reading {
            Ok(frame) => frame,
            Err(fault) => {
                return Err(fault);
            },
        };
        if frame.version != 2 || frame.run != self.run || frame.sequence != self.received {
            return Err(
                Fault::new(FaultKind::Other, "private protocol binding or sequence mismatch"),
            );
        }
        if self.received == u64::MAX {
            return Err(Fault::new(FaultKind::Other, "protocol sequence exhausted"));
        }
        self.received = self.received + 1;
        let length: usize = self.input[0] as usize * 256 + self.input[1] as usize;
        let ghost before = self.input@;
        let rest = slice_of(self.input.as_slice(), PREFIX + length, self.input.len());
        assert(rest@ =~= before.skip(2 + length as int));
        self.input = rest;
        Ok(frame.message)
    }

    /// Whether a message is passed over: a receipt of force is noted, and an answer
    /// to a query that is no longer waited for is dropped.
    pub open spec fn passes_over(&self, message: Message) -> bool {
        message is ForceRequested || (message matches Message::InventoryChunk { query, .. }
            && self.inventory_query != Some(query))
    }

    /// Decides what a message that came in is to whoever waits until a deadline,
    /// which has passed where `expired`: the message, or nothing where it is passed
    /// over. Of several receipts of force the first counts.
    pub fn deliver(&mut self, message: Message, expired: bool) -> (r: Result<Option<Message>, Fault>)
        ensures
            if !old(self).passes_over(message) {
                *final(self) == *old(self) && r == Ok::<Option<Message>, Fault>(Some(message))
            } else if message is ForceRequested {
                &&& *final(self) == (Channel {
                    force_receipt: if old(self).force_receipt == 0 {
                        message->ForceRequested_at
                    } else {
                        old(self).force_receipt
                    },
                    ..*old(self)
                })
                &&& r == if expired {
                    Err::<Option<Message>, Fault>(
                        Fault::found(FaultKind::TimedOut, "private protocol deadline expired"),
                    )
                } else {
                    Ok(None)
                }
            } else {
                &&& *final(self) == *old(self)
                &&& r == if expired {
                    Err::<Option<Message>, Fault>(
                        Fault::found(
                            FaultKind::TimedOut,
                            "discarded inventory exceeded control deadline",
                        ),
                    )
                } else {
                    Ok(None)
                }
            },
    {
        match &message {
            Message::ForceRequested { at } => {
                if self.force_receipt == 0 {
                    self.force_receipt = *at;
                }
                if expired {
                    return Err(
                        Fault::new(FaultKind::TimedOut, "private protocol deadline expired"),
                    );
                }
                return Ok(None);
            },
            Message::InventoryChunk { query, .. } => {
                let awaited = match self.inventory_query {
                    Some(waiting) => waiting == *query,
                    None => false,
                };
                if !awaited {
                    if expired {
                        return Err(
                            Fault::new(
                                FaultKind::TimedOut,
                                "discarded inventory exceeded control deadline",
                            ),
                        );
                    }
                    return Ok(None);
                }
            },
            _ => {},
        }
        Ok(Some(message))
    }
}

/// Whoever waits and finds nothing goes on until the deadline.
pub fn nothing_came(expired: bool) -> (r: Result<(), Fault>)
    ensures
        r == if expired {
            Err::<(), Fault>(
                Fault::found(FaultKind::TimedOut, "private protocol deadline expired"),
            )
        } else {
            Ok(())
        },
{
    if expired {
        Err(Fault::new(FaultKind::TimedOut, "private protocol deadline expired"))
    } else {
        Ok(())
    }
}

/// The bytes of a message's text with its length in front.
pub open spec fn framed(text: Seq<u8>) -> Seq<u8> {
    be16(text.len() as u16) + text
}

/// The bytes that go out for a message's text.
pub fn frame_text(text: &[u8]) -> (r: Result<Vec<u8>, Fault>)
    ensures
        match r {
            Ok(bytes) => text@.len() <= FRAME_LIMIT && bytes@ == framed(text@),
            Err(fault) => text@.len() > FRAME_LIMIT && fault == Fault::found(
                FaultKind::Other,
                "private launch frame exceeds bound",
            ),
        },
{
    if text.len() > FRAME_LIMIT {
        return Err(Fault::new(FaultKind::Other, "private launch frame exceeds bound"));
    }
    let mut out: Vec<u8> = Vec::new();
    put_be16(&mut out, text.len() as u16);
    put(&mut out, text);
    assert(out@ =~= framed(text@));
    Ok(out)
}

/// Why what came is not taken: the other end reported a native error, or it said
/// something else.
#[derive(Debug)]
pub enum Refusal {
    Native(i32),
    Found(Fault),
}

/// Why what came is not what is waited for, if it is not.
pub open spec fn refusal(came: Option<Message>, expected: Expected) -> Option<Refusal> {
    match came {
        Some(message) => if is_expected(message, expected) {
            None
        } else if message is Failure {
            Some(Refusal::Native(message->Failure_errno))
        } else {
            Some(
                Refusal::Found(
                    Fault::found(
                        FaultKind::Other,
                        "unexpected private launch protocol transition",
                    ),
                ),
            )
        },
        None => Some(
            Refusal::Found(
                Fault::found(FaultKind::Other, "unexpected private launch protocol transition"),
            ),
        ),
    }
}

/// Decides whether what came is what is waited for. A failure that the other end
/// reports is passed on.
pub fn expect(came: Option<Message>, expected: Expected) -> (r: Result<(), Refusal>)
    ensures
        match r {
            Ok(_) => refusal(came, expected) is None,
            Err(why) => refusal(came, expected) == Some(why),
        },
{
    let message = match came {
        Some(message) => message,
        None => {
            return Err(
                Refusal::Found(
                    Fault::new(FaultKind::Other, "unexpected private launch protocol transition"),
                ),
            );
        },
    };
    let same = match (expected, &message) {
        (Expected::Hello, Message::Hello) => true,
        (Expected::Ready, Message::Ready) => true,
        (Expected::Release, Message::Release) => true,
        (Expected::Released, Message::Released) => true,
        (Expected::Retired, Message::Retired) => true,
        (Expected::ClockInterruptible, Message::ClockInterruptible) => true,
        _ => false,
    };
    if same {
        return Ok(());
    }
    match message {
        Message::Failure { errno } => Err(Refusal::Native(errno)),
        _ => Err(
            Refusal::Found(
                Fault::new(FaultKind::Other, "unexpected private launch protocol transition"),
            ),
        ),
    }
}

/// What became of moving bytes over a socket.
#[derive(Debug)]
pub enum MoveEvent {
    Moved(usize),
    Interrupted,
    WouldBlock,
    Failed(Fault),
}

/// How a transfer goes on.
#[derive(Debug)]
pub enum TransferStep {
    /// Move more bytes.
    More,
    /// Wait for the socket, at most this many milliseconds.
    Wait(u64),
    /// Everything was moved.
    Done,
    /// The other end had closed before anything came.
    Closed,
}

/// A transfer of a fixed number of bytes.
#[derive(Clone, Copy, Debug, PartialEq, Eq, Structural)]
pub struct Transfer {
    pub offset: usize,
    pub length: usize,
    pub write: bool,
}

impl Transfer {
    /// Decides whether to go on before the next move.
    pub fn proceed(&self, expired: bool) -> (r: Result<TransferStep, Fault>)
        ensures
            if self.offset >= self.length {
                r == Ok::<TransferStep, Fault>(TransferStep::Done)
            } else if expired {
                r == Err::<TransferStep, Fault>(
                    Fault::found(
                        FaultKind::TimedOut,
                        "private launch protocol deadline expired",
                    ),
                )
            } else {
                r == Ok::<TransferStep, Fault>(TransferStep::More)
            },
    {
        if self.offset >= self.length {
            return Ok(TransferStep::Done);
        }
        if expired {
            return Err(
                Fault::new(FaultKind::TimedOut, "private launch protocol deadline expired"),
            );
        }
        Ok(TransferStep::More)
    }

    /// Takes in what a move came to; `left` is what is left until the deadline, in
    /// milliseconds. A close is only clean where nothing was read yet.
    pub fn moved(&mut self, event: MoveEvent, left: u64) -> (r: Result<TransferStep, Fault>)
        requires
            old(self).offset < old(self).length,
            event matches MoveEvent::Moved(count) ==> old(self).offset + count <= old(self).length,
        ensures
            match event {
                MoveEvent::Moved(count) => if count > 0 {
                    *final(self) == (Transfer {
                        offset: (old(self).offset + count) as usize,
                        ..*old(self)
                    }) && r == Ok::<TransferStep, Fault>(TransferStep::More)
                } else {
                    *final(self) == *old(self) && r == if !old(self).write && old(self).offset
                        == 0 {
                        Ok::<TransferStep, Fault>(TransferStep::Closed)
                    } else {
                        Err(
                            Fault::found(
                                FaultKind::UnexpectedEof,
                                "partial private launch frame",
                            ),
                        )
                    }
                },
                MoveEvent::Interrupted => *final(self) == *old(self) && r == Ok::<
                    TransferStep,
                    Fault,
                >(TransferStep::More),
                MoveEvent::WouldBlock => *final(self) == *old(self) && r == Ok::<
                    TransferStep,
                    Fault,
                >(
                    TransferStep::Wait(
                        if left < 50 {
                            left
                        } else {
                            50
                        },
                    ),
                ),
                MoveEvent::Failed(fault) => *final(self) == *old(self) && r == Err::<
                    TransferStep,
                    Fault,
                >(fault),
            },
    {
        match event {
            MoveEvent::Moved(count) => {
                if count == 0 {
                    if !self.write && self.offset == 0 {
                        return Ok(TransferStep::Closed);
                    }
                    return Err(
                        Fault::new(FaultKind::UnexpectedEof, "partial private launch frame"),
                    );
                }
                self.offset = self.offset + count;
                Ok(TransferStep::More)
            },
            MoveEvent::Interrupted => Ok(TransferStep::More),
            MoveEvent::WouldBlock => Ok(
                TransferStep::Wait(
                    if left < 50 {
                        left
                    } else {
                        50
                    },
                ),
            ),
            MoveEvent::Failed(fault) => Err(fault),
        }
    }
}

/// How long to wait for a message, in milliseconds: at least one, at most twenty.
pub fn receive_wait(left: u64) -> (r: u64)
    ensures
        r == if left < 1 {
            1u64
        } else if left > 20 {
            20
        } else {
            left
        },
{
    if left < 1 {
        1
    } else if left > 20 {
        20
    } else {
        left
    }
}

/// Whether a channel of run 7 hears that the other end is ready before anything
/// else that counts. `readings` is what the texts of the messages were read as, one
/// after another.
pub open spec fn hears_ready(
    input: Seq<u8>,
    readings: Seq<Result<Frame, Fault>>,
    received: nat,
) -> bool
    decreases readings.len(),
{
    if readings.len() == 0 || !(available_in(input, false) matches Ok(Some(_))) {
        false
    } else {
        match readings[0] {
            Err(_) => false,
            Ok(frame) => if frame.version != 2 || frame.run != 7 || frame.sequence != received
                || received >= u64::MAX {
                false
            } else if frame.message is ForceRequested || frame.message is InventoryChunk {
                hears_ready(
                    input.skip(2 + first_length(input) as int),
                    readings.drop_first(),
                    received + 1,
                )
            } else {
                frame.message is Ready
            },
        }
    }
}

/// Whether bytes that are all that comes over a channel of run 7 are refused where
/// the other end must say that it is ready.
pub fn rejects_protocol(bytes: &[u8], readings: Vec<Result<Frame, Fault>>) -> (r: bool)
    ensures
        r == !hears_ready(bytes@, readings@, 0),
{
    let mut channel = Channel::new(7);
    let mut all: Vec<u8> = Vec::new();
    put(&mut all, bytes);
    assert(all@ =~= bytes@);
    channel.input = all;
    let mut rest = readings;
    let ghost goal = hears_ready(bytes@, rest@, 0);
    while rest.len() > 0
        invariant
            goal == hears_ready(bytes@, readings@, 0),
            goal == hears_ready(channel.input@, rest@, channel.received as nat),
            channel.run == 7,
            channel.inventory_query is None,
        decreases rest.len(),
    {
        let ghost input = channel.input@;
        let ghost listed = rest@;
        match channel.receive_available(ReadEvent::Nothing) {
            Ok(Available::Payload(_)) => {},
            _ => {
                return true;
            },
        }
        assert(channel.input@ == input);
        let reading = rest.remove(0);
        assert(rest@ =~= listed.drop_first());
        let message = match channel.accept(reading) {
            Ok(message) => message,
            Err(_) => {
                return true;
            },
        };
        match channel.deliver(message, false) {
            Ok(None) => {},
            Ok(Some(message)) => {
                return match expect(Some(message), Expected::Ready) {
                    Ok(_) => false,
                    Err(_) => true,
                };
            },
            Err(_) => {
                return true;
            },
        }
    }
    true
}

/// What is framed is found again as the first message, and nothing before it is
/// whole is.
pub proof fn framed_text_is_found(text: Seq<u8>, rest: Seq<u8>, cut: int)
    requires
        0 < text.len() <= FRAME_LIMIT,
        0 <= cut < framed(text).len(),
    ensures
        available_in(framed(text) + rest, false) == Ok::<Option<Seq<u8>>, Fault>(Some(text)),
        available_in(framed(text).take(cut), false) == Ok::<Option<Seq<u8>>, Fault>(None),
{
    let whole = framed(text) + rest;
    be16_round(text.len() as u16);
    assert(whole[0] == be16(text.len() as u16)[0]);
    assert(whole[1] == be16(text.len() as u16)[1]);
    assert(whole.subrange(2, 2 + text.len() as int) =~= text);
    if cut >= 2 {
        let part = framed(text).take(cut);
        assert(part[0] == be16(text.len() as u16)[0]);
        assert(part[1] == be16(text.len() as u16)[1]);
    }
}

/// A channel takes messages of its own run only, and each place in the sequence
/// once: after a message was taken, one with the same number is refused.
pub proof fn messages_are_not_replayed(channel: Channel, later: Channel, frame: Frame)
    requires
        channel.refuses(frame) is None,
        later.received == channel.received + 1,
        later.run == channel.run,
    ensures
        frame.run == channel.run,
        later.refuses(frame) is Some,
{
}

} // verus!
