//! Inventories in transit on macOS: the lane to an inspector process, and the
//! chunks in which an inventory goes back to the frontend.

use vstd::prelude::*;
use vstd::string::*;

use crate::bytes::{be32, be32_round, from_be32, put, put_be16, put_be32, slice_of};
use crate::macos_inventory::{Identities, ProcessSnapshot};
use crate::macos_protocol::{framed, Channel, Message, MoveEvent, FRAME_LIMIT};
use crate::model::{Fault, FaultKind};
use crate::policy::Metric;
use crate::text::join2;

verus! {

/// The length of the longest inventory, with its prefix.
pub const INVENTORY_FRAME_LIMIT: usize = 8_388_608;

/// The length of an inventory's prefix.
pub const LANE_PREFIX: usize = 4;

/// The length of the longest chunk.
pub const CHUNK: usize = 512;

/// How much is written to a frontend in one turn, and in how many messages.
pub const TURN_BYTES: usize = 65536;

pub const TURN_MESSAGES: usize = 32;

/// What an inspector found: the members that live, or why they are not known; who
/// is known; and what they use, where that was asked.
#[derive(Debug)]
pub struct InventoryReply {
    pub members: Result<Vec<ProcessSnapshot>, String>,
    pub known: Identities,
    pub sample: Option<Result<u64, String>>,
}

/// Whether a reply shows that no member lives.
pub open spec fn shows_empty(reply: InventoryReply) -> bool {
    reply.members matches Ok(list) && list@.len() == 0
}

/// No members use nothing, whatever the metric: that answer is put in place.
pub fn normalize_inventory_sample(reply: &mut InventoryReply)
    ensures
        final(reply).members == old(reply).members,
        final(reply).known == old(reply).known,
        final(reply).sample == if shows_empty(*old(reply)) {
            Some(Ok::<u64, String>(0))
        } else {
            old(reply).sample
        },
{
    let empty = match &reply.members {
        Ok(list) => list.len() == 0,
        Err(_) => false,
    };
    if empty {
        reply.sample = Some(Ok(0));
    }
}

/// Whether an inventory answers a query: every inventory answers a query without a
/// metric, an empty one answers all, and otherwise the metric must be the one that
/// was sampled.
pub open spec fn answers(
    requested: Option<Metric>,
    sampled: Option<Metric>,
    empty: bool,
    has_sample: bool,
) -> bool {
    requested is None || empty || (requested == sampled && has_sample)
}

/// Whether an inventory answers a query.
pub fn inventory_answers_query(
    requested: Option<Metric>,
    sampled: Option<Metric>,
    empty: bool,
    has_sample: bool,
) -> (r: bool)
    ensures
        r == answers(requested, sampled, empty, has_sample),
{
    match requested {
        None => true,
        Some(wanted) => empty || (has_sample && match sampled {
            Some(had) => had == wanted,
            None => false,
        }),
    }
}

/// Whether an empty inventory answers a query, and with what sample. Only one that
/// is authoritative does.
pub fn empty_inventory_query_transition(
    requested: Option<Metric>,
    sampled: Option<Metric>,
    authoritative: bool,
) -> (r: (bool, Option<Result<u64, String>>))
    ensures
        r.0 == authoritative,
        r.1 == Some(Ok::<u64, String>(0)),
{
    let mut reply = InventoryReply {
        members: Ok(Vec::new()),
        known: Identities::new(),
        sample: None,
    };
    normalize_inventory_sample(&mut reply);
    let has_sample = reply.sample.is_some();
    (
        authoritative && inventory_answers_query(requested, sampled, true, has_sample),
        reply.sample,
    )
}

/// Whether an inventory with members answers a query.
pub fn nonempty_inventory_query_transition(
    requested: Option<Metric>,
    sampled: Option<Metric>,
    has_sample: bool,
) -> (r: bool)
    ensures
        r == answers(requested, sampled, false, has_sample),
{
    inventory_answers_query(requested, sampled, false, has_sample)
}

/// The bytes of an inventory's text with its length in front.
pub open spec fn lane_framed(text: Seq<u8>) -> Seq<u8> {
    be32(text.len() as u32) + text
}

/// The bytes that go out for an inventory's text.
pub fn inventory_frame(text: &[u8]) -> (r: Result<Vec<u8>, Fault>)
    ensures
        match r {
            Ok(bytes) => text@.len() <= INVENTORY_FRAME_LIMIT - 4 && bytes@ == lane_framed(text@),
            Err(fault) => text@.len() > INVENTORY_FRAME_LIMIT - 4 && fault == Fault::found(
                FaultKind::Other,
                "inspector payload exceeds bound",
            ),
        },
{
    if text.len() > INVENTORY_FRAME_LIMIT - LANE_PREFIX {
        return Err(Fault::new(FaultKind::Other, "inspector payload exceeds bound"));
    }
    let mut out: Vec<u8> = Vec::new();
    put_be32(&mut out, text.len() as u32);
    put(&mut out, text);
    assert(out@ =~= lane_framed(text@));
    Ok(out)
}

/// What bytes from an inspector hold: one whole answer, not yet one, or more than
/// was asked for.
pub open spec fn lane_answer(incoming: Seq<u8>) -> Result<Option<Seq<u8>>, Fault> {
    if incoming.len() < 4 {
        Ok(None)
    } else if from_be32(incoming) > INVENTORY_FRAME_LIMIT - 4 {
        Err(Fault::found(FaultKind::Other, "inspector declared frame exceeds bound"))
    } else if incoming.len() < 4 + from_be32(incoming) {
        Ok(None)
    } else if incoming.len() != 4 + from_be32(incoming) {
        Err(Fault::found(FaultKind::Other, "unsolicited inspector response"))
    } else {
        Ok(Some(incoming.skip(4)))
    }
}

/// What the codec beside a lane said.
#[derive(Debug)]
pub enum CodecEvent {
    Encoded(Vec<u8>),
    Decoded { run: u64, sequence: u64, reply: InventoryReply, payload: Vec<u8> },
    Failed(Fault),
    Nothing,
    Gone,
}

/// What a read from an inspector gave.
#[derive(Debug)]
pub enum LaneRead {
    End,
    Data(Vec<u8>),
    Nothing,
    Failed(Fault),
}

/// What a lane needs next.
#[derive(Debug)]
pub enum LaneStep {
    /// Nothing: no request is under way.
    Idle,
    /// The codec's word on the request.
    AskEncoder,
    /// The codec's word on the answer.
    AskDecoder,
    /// To write this part of the request.
    Write { start: usize, end: usize },
    /// To read.
    Read,
}

/// A lane to an inspector process.
#[derive(Debug)]
pub struct InventoryLane {
    pub run: u64,
    pub sequence: u64,
    pub metric: Option<Metric>,
    pub encoding: bool,
    pub decoding: bool,
    pub outgoing: Vec<u8>,
    pub sent: usize,
    pub incoming: Vec<u8>,
    pub pending: bool,
    pub stopping: bool,
}

impl InventoryLane {
    /// A lane whose inspector has yet to say that it is ready.
    pub fn start(run: u64) -> (r: InventoryLane)
        ensures
            r.run == run && r.sequence == 0 && r.metric is None,
            !r.encoding && !r.decoding && r.pending && !r.stopping,
            r.outgoing@.len() == 0 && r.sent == 0 && r.incoming@.len() == 0,
    {
        InventoryLane {
            run,
            sequence: 0,
            metric: None,
            encoding: false,
            decoding: false,
            outgoing: Vec::new(),
            sent: 0,
            incoming: Vec::new(),
            pending: true,
            stopping: false,
        }
    }

    /// Begins a request: its place in the sequence, where the lane is free.
    pub fn submit(&mut self, metric: Option<Metric>) -> (r: Result<u64, Fault>)
        ensures
            if old(self).pending || old(self).stopping {
                *final(self) == *old(self) && r == Err::<u64, Fault>(
                    Fault::found(FaultKind::Other, "inspector lane unavailable"),
                )
            } else if old(self).sequence == u64::MAX {
                *final(self) == *old(self) && r == Err::<u64, Fault>(
                    Fault::found(FaultKind::Other, "inspector sequence overflow"),
                )
            } else {
                r == Ok::<u64, Fault>((old(self).sequence + 1) as u64) && *final(self) == (
                InventoryLane {
                    sequence: (old(self).sequence + 1) as u64,
                    metric,
                    ..*old(self)
                })
            },
    {
        if self.pending || self.stopping {
            return Err(Fault::new(FaultKind::Other, "inspector lane unavailable"));
        }
        if self.sequence == u64::MAX {
            return Err(Fault::new(FaultKind::Other, "inspector sequence overflow"));
        }
        self.sequence = self.sequence + 1;
        self.metric = metric;
        Ok(self.sequence)
    }

    /// The codec took the request, or could not.
    pub fn submitted(&mut self, taken: bool) -> (r: Result<(), Fault>)
        ensures
            if taken {
                r is Ok && *final(self) == (InventoryLane {
                    encoding: true,
                    sent: 0,
                    pending: true,
                    ..*old(self)
                })
            } else {
                *final(self) == *old(self) && r == Err::<(), Fault>(
                    Fault::found(FaultKind::Other, "inspector encoder capacity unavailable"),
                )
            },
    {
        if !taken {
            return Err(Fault::new(FaultKind::Other, "inspector encoder capacity unavailable"));
        }
        self.encoding = true;
        self.sent = 0;
        self.pending = true;
        Ok(())
    }

    /// The step that the lane's state calls for.
    pub open spec fn next(&self) -> LaneStep {
        if !self.pending {
            LaneStep::Idle
        } else if self.encoding {
            LaneStep::AskEncoder
        } else if self.decoding {
            LaneStep::AskDecoder
        } else if self.sent < self.outgoing@.len() {
            LaneStep::Write {
                start: self.sent,
                end: if self.outgoing@.len() <= self.sent + TURN_BYTES {
                    self.outgoing@.len() as usize
                } else {
                    (self.sent + TURN_BYTES) as usize
                },
            }
        } else {
            LaneStep::Read
        }
    }

    /// What the lane needs next.
    pub fn poll(&self) -> (r: LaneStep)
        ensures
            r == self.next(),
    {
        if !self.pending {
            return LaneStep::Idle;
        }
        if self.encoding {
            return LaneStep::AskEncoder;
        }
        if self.decoding {
            return LaneStep::AskDecoder;
        }
        if self.sent < self.outgoing.len() {
            let left: usize = self.outgoing.len() - self.sent;
            return LaneStep::Write {
                start: self.sent,
                end: if left <= TURN_BYTES {
                    self.outgoing.len()
                } else {
                    self.sent + TURN_BYTES
                },
            };
        }
        LaneStep::Read
    }

    /// Takes the codec's word on the request: true once there is something to write.
    pub fn encoder_said(&mut self, event: CodecEvent) -> (r: Result<bool, Fault>)
        requires
            old(self).encoding,
        ensures
            match event {
                CodecEvent::Encoded(bytes) => r == Ok::<bool, Fault>(true) && *final(self) == (
                InventoryLane { encoding: false, outgoing: bytes, ..*old(self) }),
                CodecEvent::Decoded { .. } => r == Err::<bool, Fault>(
                    Fault::found(FaultKind::Other, "inspector encoder state mismatch"),
                ) && *final(self) == (InventoryLane { encoding: false, ..*old(self) }),
                CodecEvent::Failed(fault) => r == Err::<bool, Fault>(fault) && *final(self) == (
                InventoryLane { encoding: false, ..*old(self) }),
                CodecEvent::Nothing => r == Ok::<bool, Fault>(false) && *final(self) == *old(self),
                CodecEvent::Gone => r == Err::<bool, Fault>(
                    Fault::found(FaultKind::Other, "inspector encoder unavailable"),
                ) && *final(self) == (InventoryLane { encoding: false, ..*old(self) }),
            },
    {
        match event {
            CodecEvent::Encoded(bytes) => {
                self.encoding = false;
                self.outgoing = bytes;
                Ok(true)
            },
            CodecEvent::Decoded { .. } => {
                self.encoding = false;
                Err(Fault::new(FaultKind::Other, "inspector encoder state mismatch"))
            },
            CodecEvent::Failed(fault) => {
                self.encoding = false;
                Err(fault)
            },
            CodecEvent::Nothing => Ok(false),
            CodecEvent::Gone => {
                self.encoding = false;
                Err(Fault::new(FaultKind::Other, "inspector encoder unavailable"))
            },
        }
    }

    /// Takes the codec's word on the answer: the answer, and its text as it goes to a
    /// frontend. One that is not bound to this request is refused.
    pub fn decoder_said(&mut self, event: CodecEvent) -> (r: Result<
        Option<(InventoryReply, Vec<u8>)>,
        Fault,
    >)
        requires
            old(self).decoding,
        ensures
            match event {
                CodecEvent::Decoded { run, sequence, reply, payload } => if run == old(self).run
                    && sequence == old(self).sequence {
                    &&& r == Ok::<Option<(InventoryReply, Vec<u8>)>, Fault>(Some((reply, payload)))
                    &&& !final(self).decoding && !final(self).pending
                    &&& final(self).outgoing@.len() == 0
                    &&& final(self).sequence == old(self).sequence && final(self).run == old(
                        self).run && final(self).metric == old(self).metric
                        && final(self).stopping == old(self).stopping && final(self).encoding
                        == old(self).encoding && final(self).incoming == old(self).incoming
                } else {
                    r == Err::<Option<(InventoryReply, Vec<u8>)>, Fault>(
                        Fault::found(FaultKind::Other, "inspector response binding mismatch"),
                    ) && *final(self) == (InventoryLane { decoding: false, ..*old(self) })
                },
                CodecEvent::Encoded(_) => r == Err::<Option<(InventoryReply, Vec<u8>)>, Fault>(
                    Fault::found(FaultKind::Other, "inspector decoder state mismatch"),
                ) && *final(self) == (InventoryLane { decoding: false, ..*old(self) }),
                CodecEvent::Failed(fault) => r == Err::<Option<(InventoryReply, Vec<u8>)>, Fault>(
                    fault,
                ) && *final(self) == (InventoryLane { decoding: false, ..*old(self) }),
                CodecEvent::Nothing => r == Ok::<Option<(InventoryReply, Vec<u8>)>, Fault>(None)
                    && *final(self) == *old(self),
                CodecEvent::Gone => r == Err::<Option<(InventoryReply, Vec<u8>)>, Fault>(
                    Fault::found(FaultKind::Other, "inspector decoder unavailable"),
                ) && *final(self) == (InventoryLane { decoding: false, ..*old(self) }),
            },
    {
        match event {
            CodecEvent::Decoded { run, sequence, reply, payload } => {
                self.decoding = false;
                if run != self.run || sequence != self.sequence {
                    return Err(
                        Fault::new(FaultKind::Other, "inspector response binding mismatch"),
                    );
                }
                self.outgoing = Vec::new();
                self.pending = false;
                Ok(Some((reply, payload)))
            },
            CodecEvent::Encoded(_) => {
                self.decoding = false;
                Err(Fault::new(FaultKind::Other, "inspector decoder state mismatch"))
            },
            CodecEvent::Failed(fault) => {
                self.decoding = false;
                Err(fault)
            },
            CodecEvent::Nothing => Ok(None),
            CodecEvent::Gone => {
                self.decoding = false;
                Err(Fault::new(FaultKind::Other, "inspector decoder unavailable"))
            },
        }
    }

    /// A part of the request was written, or not.
    pub fn wrote(&mut self, event: MoveEvent) -> (r: Result<(), Fault>)
        requires
            event matches MoveEvent::Moved(count) ==> old(self).sent + count
                <= old(self).outgoing.len(),
        ensures
            match event {
                MoveEvent::Moved(count) => if count == 0 {
                    *final(self) == *old(self) && r == Err::<(), Fault>(
                        Fault::found(FaultKind::Other, "inspector request channel closed"),
                    )
                } else {
                    r is Ok && *final(self) == (InventoryLane {
                        sent: (old(self).sent + count) as usize,
                        ..*old(self)
                    })
                },
                MoveEvent::Interrupted => r is Ok && *final(self) == *old(self),
                MoveEvent::WouldBlock => r is Ok && *final(self) == *old(self),
                MoveEvent::Failed(fault) => r == Err::<(), Fault>(fault) && *final(self)
                    == *old(self),
            },
    {
        match event {
            MoveEvent::Moved(count) => {
                if count == 0 {
                    return Err(Fault::new(FaultKind::Other, "inspector request channel closed"));
                }
                self.sent = self.sent + count;
                Ok(())
            },
            MoveEvent::Interrupted => Ok(()),
            MoveEvent::WouldBlock => Ok(()),
            MoveEvent::Failed(fault) => Err(fault),
        }
    }

    /// Takes in one read: the text of the answer, once it is whole.
    pub fn read(&mut self, event: LaneRead) -> (r: Result<Option<Vec<u8>>, Fault>)
        ensures
            ({
                let came = match event {
                    LaneRead::Data(bytes) => bytes@,
                    _ => Seq::empty(),
                };
                let all = old(self).incoming@ + came;
                if event is End {
                    *final(self) == *old(self) && r == Err::<Option<Vec<u8>>, Fault>(
                        Fault::found(FaultKind::Other, "inspector response channel closed"),
                    )
                } else if event is Failed {
                    *final(self) == *old(self) && r == Err::<Option<Vec<u8>>, Fault>(
                        event->Failed_0,
                    )
                } else if event is Data && all.len() > INVENTORY_FRAME_LIMIT {
                    *final(self) == *old(self) && r == Err::<Option<Vec<u8>>, Fault>(
                        Fault::found(FaultKind::Other, "inspector frame exceeds bound"),
                    )
                } else {
                    match lane_answer(all) {
                        Err(fault) => r == Err::<Option<Vec<u8>>, Fault>(fault)
                            && final(self).incoming@ == all && final(self).pending == old(
                            self).pending,
                        Ok(None) => r == Ok::<Option<Vec<u8>>, Fault>(None)
                            && final(self).incoming@ == all && final(self).pending == old(
                            self).pending,
                        Ok(Some(text)) => (r matches Ok(Some(bytes)) && bytes@ == text)
                            && final(self).incoming@.len() == 0 && final(self).pending == old(
                            self).pending,
                    }
                }
            }),
            final(self).run == old(self).run && final(self).sequence == old(self).sequence
                && final(self).metric == old(self).metric && final(self).encoding == old(
                self).encoding && final(self).decoding == old(self).decoding
                && final(self).stopping == old(self).stopping && final(self).sent == old(self).sent
                && final(self).outgoing == old(self).outgoing,
    {
        let ghost before = self.incoming@;
        match event {
            LaneRead::End => {
                return Err(Fault::new(FaultKind::Other, "inspector response channel closed"));
            },
            LaneRead::Data(bytes) => {
                if bytes.len() > INVENTORY_FRAME_LIMIT || self.incoming.len()
                    > INVENTORY_FRAME_LIMIT - bytes.len() {
                    return Err(Fault::new(FaultKind::Other, "inspector frame exceeds bound"));
                }
                put(&mut self.incoming, bytes.as_slice());
            },
            LaneRead::Nothing => {
                assert(before + Seq::<u8>::empty() =~= before);
            },
            LaneRead::Failed(fault) => {
                return Err(fault);
            },
        }
        if self.incoming.len() < LANE_PREFIX {
            return Ok(None);
        }
        let length: usize = ((self.incoming[0] as usize * 256 + self.incoming[1] as usize) * 256
            + self.incoming[2] as usize) * 256 + self.incoming[3] as usize;
        if length > INVENTORY_FRAME_LIMIT - LANE_PREFIX {
            return Err(
                Fault::new(FaultKind::Other, "inspector declared frame exceeds bound"),
            );
        }
        if self.incoming.len() < LANE_PREFIX + length {
            return Ok(None);
        }
        if self.incoming.len() != LANE_PREFIX + length {
            return Err(Fault::new(FaultKind::Other, "unsolicited inspector response"));
        }
        let ghost whole = self.incoming@;
        let text = slice_of(self.incoming.as_slice(), LANE_PREFIX, self.incoming.len());
        assert(text@ =~= whole.skip(4));
        self.incoming = Vec::new();
        Ok(Some(text))
    }

    /// The codec took the answer, or could not.
    pub fn decode_submitted(&mut self, taken: bool) -> (r: Result<(), Fault>)
        ensures
            if taken {
                r is Ok && *final(self) == (InventoryLane { decoding: true, ..*old(self) })
            } else {
                *final(self) == *old(self) && r == Err::<(), Fault>(
                    Fault::found(FaultKind::Other, "inspector decoder capacity unavailable"),
                )
            },
    {
        if !taken {
            return Err(Fault::new(FaultKind::Other, "inspector decoder capacity unavailable"));
        }
        self.decoding = true;
        Ok(())
    }

    /// Whether the lane is in the middle of something.
    pub open spec fn engaged(&self) -> bool {
        self.pending || self.encoding || self.decoding
    }

    /// Decides whether the inspector may go: not while the lane is in the middle of
    /// something. True where its socket is to be shut now.
    pub fn retire(&self) -> (r: Option<bool>)
        ensures
            r == if self.engaged() {
                None::<bool>
            } else {
                Some(!self.stopping)
            },
    {
        if self.pending || self.encoding || self.decoding {
            None
        } else {
            Some(!self.stopping)
        }
    }

    /// The inspector's socket was shut, or could not be, which is tried again.
    pub fn shut(&mut self, done: Result<(), Fault>) -> (r: Result<(), Fault>)
        ensures
            r == done,
            *final(self) == if done is Ok {
                InventoryLane { stopping: true, ..*old(self) }
            } else {
                *old(self)
            },
    {
        if done.is_ok() {
            self.stopping = true;
        }
        done
    }
}

/// An inventory's text on its way to a frontend.
#[derive(Debug)]
pub struct InventoryOutput {
    pub query: u64,
    pub payload: Vec<u8>,
    pub offset: usize,
    pub frame: Vec<u8>,
    pub sent: usize,
    pub budget: usize,
    pub rounds: usize,
}

/// What an inventory on its way needs next.
#[derive(Debug, Clone, Copy, PartialEq, Eq, Structural)]
pub enum OutputStep {
    /// A message with this part of the text.
    Chunk { start: usize, end: usize, finished: bool },
    /// To write this part of the message.
    Write { start: usize, end: usize },
    /// To wait for the next turn.
    Pause,
}

/// How an inventory on its way got on.
#[derive(Debug, Clone, Copy, PartialEq, Eq, Structural)]
pub enum OutputProgress {
    More,
    Pause,
    Done,
}

/// Where the chunk that starts here ends.
pub open spec fn chunk_end(length: nat, offset: nat) -> nat {
    if length <= offset + CHUNK {
        length
    } else {
        offset + CHUNK as nat
    }
}

impl InventoryOutput {
    /// Whether the places lie within what they are places in.
    pub open spec fn wf(&self) -> bool {
        &&& self.offset <= self.payload.len()
        &&& self.sent <= self.frame.len()
        &&& self.frame@.len() > 0 ==> self.sent < self.frame.len()
        &&& self.budget <= TURN_BYTES
        &&& self.rounds <= TURN_MESSAGES
        &&& self.rounds > 0 ==> self.budget > 0
    }

    /// An inventory's text that has yet to be sent.
    pub fn from_payload(query: u64, payload: Vec<u8>) -> (r: InventoryOutput)
        ensures
            r.query == query && r.payload == payload && r.offset == 0 && r.frame@.len() == 0
                && r.sent == 0 && r.budget == 0 && r.rounds == 0,
            r.wf(),
    {
        InventoryOutput {
            query,
            payload,
            offset: 0,
            frame: Vec::new(),
            sent: 0,
            budget: 0,
            rounds: 0,
        }
    }

    /// The same, unless the text is too long.
    pub fn new(query: u64, payload: Vec<u8>) -> (r: Result<InventoryOutput, Fault>)
        ensures
            match r {
                Ok(output) => payload@.len() <= INVENTORY_FRAME_LIMIT && output.query == query
                    && output.payload == payload && output.offset == 0 && output.frame@.len() == 0
                    && output.sent == 0 && output.budget == 0 && output.rounds == 0 && output.wf(),
                Err(fault) => payload@.len() > INVENTORY_FRAME_LIMIT && fault == Fault::found(
                    FaultKind::Other,
                    "guardian inventory payload exceeds bound",
                ),
            },
    {
        if payload.len() > INVENTORY_FRAME_LIMIT {
            return Err(Fault::new(FaultKind::Other, "guardian inventory payload exceeds bound"));
        }
        Ok(InventoryOutput::from_payload(query, payload))
    }

    /// A turn begins: it may write so much, in so many messages.
    pub fn turn(&mut self)
        requires
            old(self).wf(),
        ensures
            final(self).wf(),
            *final(self) == (InventoryOutput {
                budget: TURN_BYTES,
                rounds: TURN_MESSAGES,
                ..*old(self)
            }),
    {
        self.budget = TURN_BYTES;
        self.rounds = TURN_MESSAGES;
    }

    /// What is needed next.
    pub fn step(&self) -> (r: OutputStep)
        requires
            self.wf(),
        ensures
            r == if self.rounds == 0 {
                OutputStep::Pause
            } else if self.frame@.len() == 0 {
                OutputStep::Chunk {
                    start: self.offset,
                    end: chunk_end(self.payload@.len(), self.offset as nat) as usize,
                    finished: chunk_end(self.payload@.len(), self.offset as nat)
                        == self.payload@.len(),
                }
            } else {
                OutputStep::Write {
                    start: self.sent,
                    end: if self.frame@.len() <= self.sent + self.budget {
                        self.frame@.len() as usize
                    } else {
                        (self.sent + self.budget) as usize
                    },
                }
            },
    {
        if self.rounds == 0 {
            return OutputStep::Pause;
        }
        if self.frame.len() == 0 {
            let left: usize = self.payload.len() - self.offset;
            let end: usize = if left <= CHUNK {
                self.payload.len()
            } else {
                self.offset + CHUNK
            };
            return OutputStep::Chunk {
                start: self.offset,
                end,
                finished: end == self.payload.len(),
            };
        }
        let left: usize = self.frame.len() - self.sent;
        OutputStep::Write {
            start: self.sent,
            end: if left <= self.budget {
                self.frame.len()
            } else {
                self.sent + self.budget
            },
        }
    }

    /// The message with the next part is there.
    pub fn encoded(&mut self, text: &[u8]) -> (r: Result<(), Fault>)
        requires
            old(self).wf(),
            old(self).frame@.len() == 0,
        ensures
            match r {
                Ok(_) => {
                    &&& text@.len() <= FRAME_LIMIT
                    &&& final(self).wf()
                    &&& final(self).frame@ == framed(text@)
                    &&& final(self).sent == 0
                    &&& final(self).offset == chunk_end(
                        old(self).payload@.len(),
                        old(self).offset as nat,
                    )
                    &&& final(self).query == old(self).query && final(self).payload == old(
                        self).payload && final(self).budget == old(self).budget
                        && final(self).rounds == old(self).rounds
                },
                Err(fault) => text@.len() > FRAME_LIMIT && *final(self) == *old(self) && fault
                    == Fault::found(FaultKind::Other, "inventory chunk exceeds protocol bound"),
            },
    {
        if text.len() > FRAME_LIMIT {
            return Err(Fault::new(FaultKind::Other, "inventory chunk exceeds protocol bound"));
        }
        let mut frame: Vec<u8> = Vec::new();
        put_be16(&mut frame, text.len() as u16);
        put(&mut frame, text);
        assert(frame@ =~= framed(text@));
        self.frame = frame;
        let left: usize = self.payload.len() - self.offset;
        self.offset = if left <= CHUNK {
            self.payload.len()
        } else {
            self.offset + CHUNK
        };
        self.sent = 0;
        Ok(())
    }

    /// A part of the message was written, or not. A frontend that does not read only
    /// delays its own answer.
    pub fn wrote(&mut self, event: MoveEvent, channel: &mut Channel) -> (r: Result<
        OutputProgress,
        Fault,
    >)
        requires
            old(self).wf(),
            old(self).rounds > 0,
            old(self).frame@.len() > 0,
            event matches MoveEvent::Moved(count) ==> count <= old(self).budget && old(self).sent
                + count <= old(self).frame.len(),
        ensures
            final(self).query == old(self).query && final(self).payload == old(self).payload
                && final(self).offset == old(self).offset,
            match event {
                MoveEvent::Moved(count) => if count == 0 {
                    *final(self) == *old(self) && *final(channel) == *old(channel) && r == Err::<
                        OutputProgress,
                        Fault,
                    >(Fault::found(FaultKind::Other, "guardian inventory peer closed"))
                } else if old(self).sent + count < old(self).frame@.len() {
                    &&& *final(channel) == *old(channel)
                    &&& final(self).wf()
                    &&& final(self).sent == old(self).sent + count && final(self).frame == old(
                        self).frame
                    &&& final(self).budget == old(self).budget - count
                    &&& r == Ok::<OutputProgress, Fault>(
                        if final(self).rounds == 0 {
                            OutputProgress::Pause
                        } else {
                            OutputProgress::More
                        },
                    )
                    &&& final(self).rounds == if old(self).budget == count {
                        0
                    } else {
                        old(self).rounds - 1
                    }
                } else if old(channel).sent == u64::MAX {
                    *final(channel) == *old(channel) && r == Err::<OutputProgress, Fault>(
                        Fault::found(FaultKind::Other, "protocol sequence exhausted"),
                    )
                } else {
                    &&& *final(channel) == (Channel {
                        sent: (old(channel).sent + 1) as u64,
                        ..*old(channel)
                    })
                    &&& final(self).wf()
                    &&& final(self).frame@.len() == 0
                    &&& final(self).budget == old(self).budget - count
                    &&& r == Ok::<OutputProgress, Fault>(
                        if old(self).offset == old(self).payload@.len() {
                            OutputProgress::Done
                        } else if final(self).rounds == 0 {
                            OutputProgress::Pause
                        } else {
                            OutputProgress::More
                        },
                    )
                    &&& final(self).rounds == if old(self).budget == count {
                        0
                    } else {
                        old(self).rounds - 1
                    }
                },
                MoveEvent::Interrupted => *final(self) == *old(self) && *final(channel) == *old(
                    channel) && r == Ok::<OutputProgress, Fault>(OutputProgress::Pause),
                MoveEvent::WouldBlock => *final(self) == *old(self) && *final(channel) == *old(
                    channel) && r == Ok::<OutputProgress, Fault>(OutputProgress::Pause),
                MoveEvent::Failed(fault) => *final(self) == *old(self) && *final(channel) == *old(
                    channel) && r == Err::<OutputProgress, Fault>(fault),
            },
    {
        let count: usize = match event {
            MoveEvent::Moved(count) => count,
            MoveEvent::Interrupted => {
                return Ok(OutputProgress::Pause);
            },
            MoveEvent::WouldBlock => {
                return Ok(OutputProgress::Pause);
            },
            MoveEvent::Failed(fault) => {
                return Err(fault);
            },
        };
        if count == 0 {
            return Err(Fault::new(FaultKind::Other, "guardian inventory peer closed"));
        }
        self.sent = self.sent + count;
        self.budget = self.budget - count;
        self.rounds = if self.budget == 0 {
            0
        } else {
            self.rounds - 1
        };
        if self.sent == self.frame.len() {
            match channel.message_sent() {
                Ok(_) => {},
                Err(fault) => {
                    return Err(fault);
                },
            }
            self.frame = Vec::new();
            self.sent = 0;
            if self.offset == self.payload.len() {
                return Ok(OutputProgress::Done);
            }
        }
        if self.rounds == 0 {
            Ok(OutputProgress::Pause)
        } else {
            Ok(OutputProgress::More)
        }
    }
}

/// An inventory's text as it comes together at a frontend.
#[derive(Debug)]
pub struct InventoryAssembly {
    pub payload: Vec<u8>,
}

/// Whether a chunk may be added.
pub open spec fn chunk_fits(have: nat, chunk: nat) -> bool {
    chunk <= CHUNK && have + chunk <= INVENTORY_FRAME_LIMIT
}

impl InventoryAssembly {
    /// Takes in a message while an inventory is waited for: its text, once the last
    /// chunk is in. `shown` is how an unexpected message is shown.
    pub fn take(&mut self, came: Option<Message>, shown: &str) -> (r: Result<Option<Vec<u8>>, String>)
        ensures
            match came {
                Some(Message::InventoryChunk { bytes, finished, .. }) => if !chunk_fits(
                    old(self).payload@.len(),
                    bytes@.len(),
                ) {
                    *final(self) == *old(self) && (r matches Err(text) && text@
                        == "guardian inventory response exceeds bound"@)
                } else if finished {
                    r matches Ok(Some(whole)) && whole@ == old(self).payload@ + bytes@
                } else {
                    r == Ok::<Option<Vec<u8>>, String>(None) && final(self).payload@ == old(
                        self).payload@ + bytes@
                },
                Some(Message::FailureDetail { message }) => *final(self) == *old(self) && r
                    == Err::<Option<Vec<u8>>, String>(message),
                _ => *final(self) == *old(self) && (r matches Err(text) && text@
                    == "unexpected guardian inventory response: "@ + shown@),
            },
    {
        match came {
            Some(Message::InventoryChunk { bytes, finished, .. }) => {
                if bytes.len() > CHUNK || self.payload.len() > INVENTORY_FRAME_LIMIT - bytes.len() {
                    return Err("guardian inventory response exceeds bound".to_owned());
                }
                put(&mut self.payload, bytes.as_slice());
                if finished {
                    let mut whole: Vec<u8> = Vec::new();
                    put(&mut whole, self.payload.as_slice());
                    assert(whole@ =~= self.payload@);
                    return Ok(Some(whole));
                }
                Ok(None)
            },
            Some(Message::FailureDetail { message }) => Err(message),
            _ => Err(join2("unexpected guardian inventory response: ", shown)),
        }
    }
}

/// What the first chunks of a text are, put together again.
pub open spec fn assembled(text: Seq<u8>, chunks: nat) -> Seq<u8>
    decreases chunks,
{
    if chunks == 0 {
        Seq::empty()
    } else {
        let start = CHUNK * (chunks - 1);
        assembled(text, (chunks - 1) as nat) + text.subrange(
            start,
            chunk_end(text.len(), start as nat) as int,
        )
    }
}

/// A text that goes out in chunks comes together again as it was, and no chunk is
/// refused on the way.
pub proof fn chunks_come_together(text: Seq<u8>, chunks: nat)
    requires
        text.len() <= INVENTORY_FRAME_LIMIT,
        chunks > 0,
        CHUNK * (chunks - 1) <= text.len(),
    ensures
        assembled(text, chunks) == text.take(
            chunk_end(text.len(), (CHUNK * (chunks - 1)) as nat) as int,
        ),
        chunk_fits(
            assembled(text, (chunks - 1) as nat).len(),
            (chunk_end(text.len(), (CHUNK * (chunks - 1)) as nat) - CHUNK * (chunks - 1)) as nat,
        ),
    decreases chunks,
{
    let start = CHUNK * (chunks - 1);
    if chunks == 1 {
        assert(assembled(text, 0) =~= text.take(0));
    } else {
        chunks_come_together(text, (chunks - 1) as nat);
        assert(assembled(text, (chunks - 1) as nat) == text.take(start));
    }
    assert(text.take(start) + text.subrange(start, chunk_end(text.len(), start as nat) as int)
        =~= text.take(chunk_end(text.len(), start as nat) as int));
}

/// What is framed for a lane is what its other end finds.
pub proof fn lane_round_trip(text: Seq<u8>)
    requires
        text.len() <= INVENTORY_FRAME_LIMIT - 4,
    ensures
        lane_answer(lane_framed(text)) == Ok::<Option<Seq<u8>>, Fault>(Some(text)),
{
    be32_round(text.len() as u32);
    let bytes = lane_framed(text);
    assert(bytes[0] == be32(text.len() as u32)[0]);
    assert(bytes[1] == be32(text.len() as u32)[1]);
    assert(bytes[2] == be32(text.len() as u32)[2]);
    assert(bytes[3] == be32(text.len() as u32)[3]);
    assert(bytes.skip(4) =~= text);
}

/// Decides how waiting for an inspector to stand goes on: true once it said that it is
/// ready. The time that is over counts before what it said.
pub fn ready(expired: bool, polled: Result<bool, Fault>) -> (r: Result<bool, Fault>)
    ensures
        r == if expired {
            Err::<bool, Fault>(Fault::found(FaultKind::TimedOut, "inspector readiness expired"))
        } else {
            polled
        },
{
    if expired {
        Err(Fault::new(FaultKind::TimedOut, "inspector readiness expired"))
    } else {
        polled
    }
}

/// Decides whether an answer that was encoded anew may be passed on.
pub fn payload_fits(length: usize) -> (r: Result<(), Fault>)
    ensures
        r == if length > INVENTORY_FRAME_LIMIT {
            Err::<(), Fault>(Fault::found(FaultKind::Other, "decoded inventory exceeds bound"))
        } else {
            Ok(())
        },
{
    if length > INVENTORY_FRAME_LIMIT {
        Err(Fault::new(FaultKind::Other, "decoded inventory exceeds bound"))
    } else {
        Ok(())
    }
}

} // verus!
