//! Messages, frames and inventories in transit on macOS, and what their owners do.

use vstd::prelude::*;

use crate::macos_child::{
    closes_in_helper, creation_offered, creation_wait, handed_over, helper_table, observe_answer,
    reap_answer, retire_step, ChildTable,
};
use crate::macos_guardian::{Custody, CustodyPlan, LaneName};
use crate::macos_lane::{
    CodecEvent, InventoryAssembly, InventoryLane, InventoryOutput, LaneStep, OutputProgress,
    OutputStep,
};
use crate::macos_launch::{
    enveloped_helper, helper_descriptor, plan_grace, Hold, Injection, LaunchFault, ReleaseEvidence,
    Startup, StartupCleanup, StartupError, StartupStage,
};
use crate::macos_protocol::{
    expect, frame_text, nothing_came, receive_wait, Available, Channel, Expected, Frame, Message,
    MoveEvent, ReadEvent, Refusal, Transfer, TransferStep,
};
use crate::model::{Fault, FaultKind};
use crate::time::Duration;

verus! {

/// A launch begins only before its time is over, and with nothing released.
pub proof fn launches_begin_in_time(
    fault: Option<LaunchFault>,
    expired: bool,
    r: Result<Startup, StartupError>,
)
    requires
        call_ensures(Startup::begin, (fault, expired), r),
    ensures
        r is Ok <==> !expired,
        r matches Ok(startup) ==> startup.release == ReleaseEvidence::NotIssued
            && startup.guardian_pid is None && startup.launcher_pid is None
            && !startup.guardian_ready && !startup.configured && startup.stage
            == StartupStage::Spawn,
        r matches Err(error) ==> error.release == ReleaseEvidence::NotIssued && !error.release_sent
            && error.cleanup == StartupCleanup::Complete && error.error.kind == FaultKind::TimedOut,
{
}

/// A launch goes on step by step: the guardian greets, gets its plan, stands, and its
/// launcher waits; anything else that comes changes nothing.
pub proof fn launches_go_step_by_step(
    a: &mut Startup,
    pid: u32,
    b: &mut Startup,
    greeting: Option<Message>,
    hold: Result<Option<Hold>, Refusal>,
    c: &mut Startup,
    d: &mut Startup,
    standing: Option<Message>,
    stands: Result<bool, Refusal>,
    e: &mut Startup,
    waiting: Option<Message>,
    waits: Result<Injection, Refusal>,
)
    requires
        old(a).wf() && old(a).stage == StartupStage::Spawn,
        call_ensures(Startup::guardian_spawned, (a, pid), ()),
        old(b).wf() && old(b).stage == StartupStage::Hello && old(b).fault is None,
        call_ensures(Startup::greeted, (b, greeting), hold),
        old(c).wf() && old(c).stage == StartupStage::Configure,
        call_ensures(Startup::plan_sent, (c,), ()),
        old(d).wf() && old(d).stage == StartupStage::Ready && old(d).configured && old(d).fault
            is None,
        call_ensures(Startup::guardian_stands, (d, standing), stands),
        old(e).wf() && old(e).stage == StartupStage::Prepared && old(e).guardian_ready && old(
            e).configured && old(e).fault is None,
        call_ensures(Startup::launcher_waits, (e, waiting), waits),
    ensures
        final(a).guardian_pid == Some(pid) && final(a).stage == StartupStage::Hello,
        hold is Ok <==> greeting == Some(Message::Hello),
        hold is Ok ==> hold == Ok::<Option<Hold>, Refusal>(None) && final(b).stage
            == StartupStage::Configure,
        hold is Err ==> *final(b) == *old(b),
        final(c).configured && final(c).stage == StartupStage::Ready,
        stands is Ok <==> standing == Some(Message::Ready),
        stands is Ok ==> stands == Ok::<bool, Refusal>(false) && final(d).guardian_ready && final(
            d).stage == StartupStage::Prepared,
        stands is Err ==> *final(d) == *old(d),
        waits is Ok <==> (waiting matches Some(Message::Prepared { pid }) && pid > 0),
        waits is Ok ==> final(e).stage == StartupStage::Release && final(e).launcher_pid == Some(
            waiting->0->Prepared_pid as u32,
        ) && waits->Ok_0.kill_guardian == false && waits->Ok_0.send_stop == false,
        waits is Err ==> *final(e) == *old(e),
        waiting matches Some(Message::Failure { errno }) ==> waits == Err::<Injection, Refusal>(
            Refusal::Native(errno),
        ),
        final(e).release == old(e).release,
{
}

/// A guardian's grace is told in nanoseconds, where they fit; helpers get descriptors above
/// the standard ones, two different ones.
pub proof fn helpers_get_their_descriptors(
    grace: Duration,
    r: Result<u64, Fault>,
    fd: i32,
    other: i32,
    open: bool,
    h: Result<(), i32>,
    e: Result<i32, i32>,
)
    requires
        call_ensures(plan_grace, (grace,), r),
        call_ensures(helper_descriptor, (fd, open), h),
        call_ensures(enveloped_helper, (fd, other, open), e),
    ensures
        r is Ok <==> grace@ <= u64::MAX,
        r matches Ok(n) ==> n == grace@,
        h is Ok <==> fd >= 3 && open,
        h matches Err(code) ==> code == 126,
        e is Ok <==> other >= 3 && other != fd && open,
        e matches Ok(next) ==> (fd < i32::MAX && other < i32::MAX ==> next > fd && next > other && (
        next == fd + 1 || next == other + 1)),
{
}

/// A channel numbers its frames one by one and marks them with its run.
pub proof fn channels_number_their_frames(
    run: u64,
    fresh: Channel,
    channel: &Channel,
    message: Message,
    frame: Frame,
    c: &mut Channel,
    r: Result<(), Fault>,
)
    requires
        call_ensures(Channel::new, (run,), fresh),
        call_ensures(Channel::frame, (channel, message), frame),
        call_ensures(Channel::message_sent, (c,), r),
    ensures
        fresh.run == run && fresh.sent == 0 && fresh.received == 0 && fresh.input@.len() == 0
            && fresh.force_receipt == 0 && fresh.inventory_query is None,
        frame.version == 2 && frame.run == channel.run && frame.sequence == channel.sent
            && frame.message == message,
        r is Ok <==> old(c).sent < u64::MAX,
        r is Ok ==> final(c).sent == old(c).sent + 1,
        final(c).received == old(c).received && final(c).run == old(c).run && final(c).input == old(
            c).input,
        r is Err ==> *final(c) == *old(c),
{
}

/// A text is framed behind its length, and read back once all of it has come, not before; a
/// length that cannot be is refused.
pub proof fn framed_texts_are_read_back(
    text: &[u8],
    r: Result<Vec<u8>, Fault>,
    channel: &mut Channel,
    data: Vec<u8>,
    got: Result<Available, Fault>,
    n: int,
)
    requires
        call_ensures(frame_text, (text,), r),
        r is Ok ==> 0 <= n <= r->Ok_0@.len() && old(channel).input@ + data@ == r->Ok_0@.take(n),
        call_ensures(Channel::receive_available, (channel, ReadEvent::Data(data)), got),
    ensures
        r is Ok <==> text@.len() <= 4096,
        r matches Ok(bytes) ==> bytes@.len() == text@.len() + 2 && bytes@[0] * 256 + bytes@[1]
            == text@.len() && bytes@.skip(2) == text@,
        r is Ok && text@.len() > 0 && n == r->Ok_0@.len() ==> (got matches Ok(
            Available::Payload(bytes),
        ) && bytes@ == text@),
        r is Ok && text@.len() > 0 && n < r->Ok_0@.len() ==> got == Ok::<Available, Fault>(
            Available::Partial,
        ),
        final(channel).input@ == old(channel).input@ + data@,
        final(channel).received == old(channel).received && final(channel).sent == old(
            channel).sent,
{
    if r is Ok {
        let bytes = r->Ok_0@;
        crate::bytes::be16_round(text@.len() as u16);
        assert(bytes[0] == crate::bytes::be16(text@.len() as u16)[0]);
        assert(bytes[1] == crate::bytes::be16(text@.len() as u16)[1]);
        assert(bytes.skip(2) =~= text@);
        let input = old(channel).input@ + data@;
        if n >= 2 {
            assert(input[0] == bytes[0] && input[1] == bytes[1]);
        }
        if n == bytes.len() {
            assert(input =~= bytes);
            assert(input.subrange(2, 2 + text@.len() as int) =~= text@);
        }
    }
}

/// The end of the stream is one only between frames; within one it is a fault, and so is what
/// failed to be read.
pub proof fn streams_end_between_frames(
    a: &mut Channel,
    r: Result<Available, Fault>,
    b: &mut Channel,
    fault: Fault,
    t: Result<Available, Fault>,
)
    requires
        call_ensures(Channel::receive_available, (a, ReadEvent::End), r),
        call_ensures(Channel::receive_available, (b, ReadEvent::Failed(fault)), t),
    ensures
        old(a).input@.len() == 0 <==> r == Ok::<Available, Fault>(Available::Closed),
        old(a).input@.len() == 1 ==> r is Err,
        final(a).input@ == old(a).input@,
        t == Err::<Available, Fault>(fault) && final(b).input@ == old(b).input@,
{
}

/// The first request for force is noted and passed over, and so is an inventory that nobody
/// asked for; all else is delivered.
pub proof fn messages_are_delivered(
    c: &mut Channel,
    message: Message,
    expired: bool,
    r: Result<Option<Message>, Fault>,
)
    requires
        call_ensures(Channel::deliver, (c, message, expired), r),
    ensures
        message matches Message::ForceRequested { at } ==> final(c).force_receipt == (if old(
            c).force_receipt == 0 {
            at
        } else {
            old(c).force_receipt
        }) && (r is Err <==> expired) && (!expired ==> r == Ok::<Option<Message>, Fault>(None)),
        message matches Message::InventoryChunk { query, bytes, finished } ==> (old(
            c).inventory_query == Some(query) ==> r == Ok::<Option<Message>, Fault>(Some(message))),
        message matches Message::InventoryChunk { query, bytes, finished } ==> (old(
            c).inventory_query != Some(query) ==> (r is Err <==> expired) && (r is Ok ==> r == Ok::<
            Option<Message>,
            Fault,
        >(None))),
        !(message is ForceRequested) && !(message is InventoryChunk) ==> r == Ok::<
            Option<Message>,
            Fault,
        >(Some(message)) && *final(c) == *old(c),
        final(c).sent == old(c).sent && final(c).received == old(c).received,
{
}

/// Only the message that is waited for is taken; a failure is told by its number.
pub proof fn only_the_expected_is_taken(
    came: Option<Message>,
    hello: Result<(), Refusal>,
    ready: Result<(), Refusal>,
    release: Result<(), Refusal>,
    released: Result<(), Refusal>,
    retired: Result<(), Refusal>,
    expired: bool,
    n: Result<(), Fault>,
    left: u64,
    wait: u64,
)
    requires
        call_ensures(expect, (came, Expected::Hello), hello),
        call_ensures(expect, (came, Expected::Ready), ready),
        call_ensures(expect, (came, Expected::Release), release),
        call_ensures(expect, (came, Expected::Released), released),
        call_ensures(expect, (came, Expected::Retired), retired),
        call_ensures(nothing_came, (expired,), n),
        call_ensures(receive_wait, (left,), wait),
    ensures
        hello is Ok <==> came == Some(Message::Hello),
        ready is Ok <==> came == Some(Message::Ready),
        release is Ok <==> came == Some(Message::Release),
        released is Ok <==> came == Some(Message::Released),
        retired is Ok <==> came == Some(Message::Retired),
        came matches Some(Message::Failure { errno }) ==> ready == Err::<(), Refusal>(
            Refusal::Native(errno),
        ),
        n is Ok <==> !expired,
        1 <= wait <= 20 && (1 <= left <= 20 ==> wait == left) && (left > 20 ==> wait == 20),
{
}

/// A transfer goes on until all is moved, and no byte is moved twice; one that ends within is
/// a fault, but for a reader that finds the other end closed before anything came.
pub proof fn transfers_move_all(
    t: &Transfer,
    expired: bool,
    p: Result<TransferStep, Fault>,
    a: &mut Transfer,
    count: usize,
    left: u64,
    r: Result<TransferStep, Fault>,
    b: &mut Transfer,
    w: Result<TransferStep, Fault>,
)
    requires
        call_ensures(Transfer::proceed, (t, expired), p),
        old(a).offset < old(a).length && old(a).offset + count <= old(a).length,
        call_ensures(Transfer::moved, (a, MoveEvent::Moved(count), left), r),
        old(b).offset < old(b).length,
        call_ensures(Transfer::moved, (b, MoveEvent::WouldBlock, left), w),
    ensures
        p == Ok::<TransferStep, Fault>(TransferStep::Done) <==> t.offset >= t.length,
        p is Err <==> t.offset < t.length && expired,
        final(a).offset == old(a).offset + count && final(a).length == old(a).length,
        count > 0 ==> r == Ok::<TransferStep, Fault>(TransferStep::More),
        count == 0 ==> (r == Ok::<TransferStep, Fault>(TransferStep::Closed) <==> !old(a).write
            && old(a).offset == 0),
        count == 0 && (old(a).write || old(a).offset > 0) ==> r is Err,
        *final(b) == *old(b),
        (w matches Ok(TransferStep::Wait(ms)) && ms <= 50 && ms <= left && (left <= 50 ==> ms
            == left)),
{
}

/// A lane writes what was encoded before it reads, and is asked again only once it is free.
pub proof fn lanes_write_before_they_read(
    run: u64,
    fresh: InventoryLane,
    lane: &InventoryLane,
    step: LaneStep,
    a: &mut InventoryLane,
    bytes: Vec<u8>,
    e: Result<bool, Fault>,
    b: &mut InventoryLane,
    count: usize,
    w: Result<(), Fault>,
    retire: Option<bool>,
    c: &mut InventoryLane,
    taken: bool,
    s: Result<(), Fault>,
    d: &mut InventoryLane,
    done: Result<(), Fault>,
    shut: Result<(), Fault>,
)
    requires
        call_ensures(InventoryLane::start, (run,), fresh),
        call_ensures(InventoryLane::poll, (lane,), step),
        old(a).encoding,
        call_ensures(InventoryLane::encoder_said, (a, CodecEvent::Encoded(bytes)), e),
        old(b).sent + count <= old(b).outgoing@.len(),
        call_ensures(InventoryLane::wrote, (b, MoveEvent::Moved(count)), w),
        call_ensures(InventoryLane::retire, (lane,), retire),
        call_ensures(InventoryLane::submitted, (c, taken), s),
        call_ensures(InventoryLane::shut, (d, done), shut),
    ensures
        fresh.run == run && fresh.pending && !fresh.stopping && !fresh.encoding && !fresh.decoding
            && fresh.sequence == 0,
        step == LaneStep::Idle <==> !lane.pending,
        step == LaneStep::AskEncoder <==> lane.pending && lane.encoding,
        step == LaneStep::AskDecoder <==> lane.pending && !lane.encoding && lane.decoding,
        step == LaneStep::Read <==> lane.pending && !lane.encoding && !lane.decoding && lane.sent
            >= lane.outgoing@.len(),
        step matches LaneStep::Write { start, end } ==> start == lane.sent && start < end
            <= lane.outgoing@.len() && end - start <= 65536 && (end == lane.outgoing@.len() || end
            - start == 65536),
        e == Ok::<bool, Fault>(true) && final(a).outgoing == bytes && !final(a).encoding,
        w is Ok <==> count > 0,
        final(b).sent == old(b).sent + count,
        retire is None <==> lane.pending || lane.encoding || lane.decoding,
        retire matches Some(first) ==> first == !lane.stopping,
        s is Ok <==> taken,
        s is Ok ==> final(c).pending && final(c).encoding && final(c).sent == 0,
        s is Err ==> *final(c) == *old(c),
        shut == done && (done is Ok ==> final(d).stopping) && (done is Err ==> *final(d) == *old(
            d)),
{
    assert(lane.outgoing.len() == lane.outgoing@.len());
    assert(old(b).outgoing.len() == old(b).outgoing@.len());
}

/// An inventory goes out in pieces of at most 512 bytes, one behind the other, and only the
/// last is marked so; a turn moves at most 65536 bytes in 32 rounds.
pub proof fn inventories_go_out_in_pieces(
    query: u64,
    payload: Vec<u8>,
    n: Result<InventoryOutput, Fault>,
    o: &InventoryOutput,
    step: OutputStep,
    p: &mut InventoryOutput,
    text: &[u8],
    e: Result<(), Fault>,
    q: &mut InventoryOutput,
)
    requires
        call_ensures(InventoryOutput::new, (query, payload), n),
        o.wf(),
        call_ensures(InventoryOutput::step, (o,), step),
        old(p).wf() && old(p).frame@.len() == 0,
        call_ensures(InventoryOutput::encoded, (p, text), e),
        old(q).wf(),
        call_ensures(InventoryOutput::turn, (q,), ()),
    ensures
        n is Ok <==> payload@.len() <= 8388608,
        n matches Ok(output) ==> output.offset == 0 && output.payload == payload && output.query
            == query && output.frame@.len() == 0,
        step == OutputStep::Pause <==> o.rounds == 0,
        step matches OutputStep::Chunk { start, end, finished } ==> start == o.offset && start
            <= end <= o.payload@.len() && end - start <= 512 && (finished <==> end
            == o.payload@.len()) && (!finished ==> end - start == 512),
        step matches OutputStep::Write { start, end } ==> start == o.sent && start < end
            <= o.frame@.len() && end - start <= o.budget,
        step is Chunk ==> o.frame@.len() == 0,
        e is Ok <==> text@.len() <= 4096,
        e is Ok ==> final(p).sent == 0 && final(p).frame@.len() == text@.len() + 2 && final(
            p).frame@.skip(2) == text@ && final(p).offset >= old(p).offset && final(p).offset - old(
            p).offset <= 512 && (final(p).offset == old(p).payload@.len() || final(p).offset - old(
            p).offset == 512),
        e is Err ==> *final(p) == *old(p),
        final(q).budget == 65536 && final(q).rounds == 32 && final(q).offset == old(q).offset
            && final(q).sent == old(q).sent && final(q).frame == old(q).frame,
{
    if e is Ok {
        assert(final(p).frame@.skip(2) =~= text@);
    }
}

/// A frame counts on its channel once all of it is written; the inventory is done with the
/// frame that ends it; a turn that used up its bytes or rounds pauses.
pub proof fn frames_count_when_written(
    o: &mut InventoryOutput,
    count: usize,
    channel: &mut Channel,
    r: Result<OutputProgress, Fault>,
)
    requires
        old(o).wf() && old(o).rounds > 0 && old(o).frame@.len() > 0,
        count <= old(o).budget && old(o).sent + count <= old(o).frame@.len(),
        call_ensures(InventoryOutput::wrote, (o, MoveEvent::Moved(count), channel), r),
    ensures
        count == 0 ==> r is Err && *final(channel) == *old(channel),
        count > 0 && old(o).sent + count < old(o).frame@.len() ==> final(channel).sent == old(
            channel).sent && final(o).sent == old(o).sent + count && r is Ok && r != Ok::<
            OutputProgress,
            Fault,
        >(OutputProgress::Done),
        count > 0 && old(o).sent + count == old(o).frame@.len() && old(channel).sent < u64::MAX
            ==> final(channel).sent == old(channel).sent + 1 && final(o).frame@.len() == 0 && (r
            == Ok::<OutputProgress, Fault>(OutputProgress::Done) <==> old(o).offset == old(
            o).payload@.len()),
        r == Ok::<OutputProgress, Fault>(OutputProgress::Pause) ==> final(o).rounds == 0,
        r == Ok::<OutputProgress, Fault>(OutputProgress::More) ==> final(o).rounds > 0,
        r is Ok ==> final(o).budget == old(o).budget - count,
        final(o).payload == old(o).payload && final(o).offset == old(o).offset,
{
}

/// Pieces are put together in order; the whole comes with the last one.
pub proof fn pieces_are_put_together(
    a: &mut InventoryAssembly,
    query: u64,
    bytes: Vec<u8>,
    finished: bool,
    shown: &str,
    r: Result<Option<Vec<u8>>, String>,
    b: &mut InventoryAssembly,
    message: String,
    f: Result<Option<Vec<u8>>, String>,
    c: &mut InventoryAssembly,
    none: Result<Option<Vec<u8>>, String>,
)
    requires
        call_ensures(
            InventoryAssembly::take,
            (a, Some(Message::InventoryChunk { query, bytes, finished }), shown),
            r,
        ),
        call_ensures(
            InventoryAssembly::take,
            (b, Some(Message::FailureDetail { message }), shown),
            f,
        ),
        call_ensures(InventoryAssembly::take, (c, None::<Message>, shown), none),
    ensures
        r is Ok <==> bytes@.len() <= 512 && old(a).payload@.len() + bytes@.len() <= 8388608,
        r is Ok && finished ==> (r matches Ok(Some(whole)) && whole@ == old(a).payload@ + bytes@),
        r is Ok && !finished ==> r == Ok::<Option<Vec<u8>>, String>(None) && final(a).payload@
            == old(a).payload@ + bytes@,
        r is Err ==> *final(a) == *old(a),
        f == Err::<Option<Vec<u8>>, String>(message),
        none is Err && *final(c) == *old(c),
{
}

/// A guardian begins with nothing done; a lane that fails ends the attempt, and so does an
/// answer that could not be sent, or a target whose start was not seen.
pub proof fn guardians_end_what_fails(
    plan: CustodyPlan,
    now: u64,
    normal: InventoryLane,
    emergency: InventoryLane,
    fresh: Custody,
    a: &mut Custody,
    seen: bool,
    s: bool,
    b: &mut Custody,
    reaped: bool,
    c: &mut Custody,
    sent: bool,
    d: &mut Custody,
    gone: bool,
)
    requires
        call_ensures(Custody::begin, (plan, now, normal, emergency), fresh),
        old(a).state.wf() && old(a).state.launcher && old(a).state.released && !old(
            a).state.confirmed,
        call_ensures(Custody::exec_seen, (a, seen, now), s),
        old(b).state.wf(),
        call_ensures(Custody::lane_failed, (b, LaneName::Normal, reaped, now), ()),
        old(c).state.wf(),
        call_ensures(Custody::output_over, (c, sent, now), ()),
        old(d).state.wf() && old(d).state.target,
        call_ensures(Custody::target_looked_at, (d, gone), ()),
    ensures
        fresh.plan == plan && !fresh.state.released && !fresh.state.reaped && !fresh.state.confirmed
            && fresh.state.terminal is None && fresh.state.force_requested is None
            && fresh.group_signal_error is None,
        s == seen && (seen ==> final(a).state.confirmed) && (!seen ==> final(a).state.terminal
            is Some && final(a).state.force_at is Some),
        final(b).state.terminal is Some && !final(b).state.empty && final(b).emergency == old(
            b).emergency,
        reaped ==> final(b).normal.stopping && !final(b).normal.pending,
        !reaped ==> final(b).normal == old(b).normal,
        !final(c).state.output && (sent ==> final(c).state.connected == old(c).state.connected
            && final(c).state.terminal == old(c).state.terminal) && (!sent ==> !final(
            c).state.connected && final(c).state.terminal is Some),
        final(d).state.reaped <==> old(d).state.reaped || gone,
{
}

/// The receipt of force is owed to a frontend that is there and is not being written to,
/// once; the first failure of a signal is kept.
pub proof fn force_is_receipted_once(
    c: &Custody,
    due: Option<u64>,
    a: &mut Custody,
    b: &mut Custody,
    text: String,
    clock: u64,
    t: Result<u64, Fault>,
    d: &mut Custody,
    retired: bool,
)
    requires
        call_ensures(Custody::receipt_due, (c,), due),
        old(a).state.wf(),
        call_ensures(Custody::receipt_went_out, (a,), ()),
        call_ensures(Custody::group_signal_failed, (b, text), ()),
        call_ensures(Custody::time, (c, clock), t),
        old(d).state.wf(),
        call_ensures(Custody::inspectors, (d, retired), ()),
    ensures
        due is Some <==> c.state.connected && !c.state.output && !c.state.receipt_sent
            && c.state.force_requested is Some,
        due matches Some(at) ==> c.state.force_requested == Some(at),
        final(a).state.receipt_sent && final(a).state.force_requested == old(
            a).state.force_requested,
        old(b).group_signal_error is None ==> final(b).group_signal_error == Some(text),
        old(b).group_signal_error is Some ==> final(b).group_signal_error == old(
            b).group_signal_error,
        t is Ok <==> clock + c.state.clock_advance <= u64::MAX,
        t matches Ok(at) ==> at == clock + c.state.clock_advance,
        final(d).state.inspection <==> old(d).normal.pending || old(d).emergency.pending || (old(
            d).state.empty && !retired),
{
}

/// A child is listed under its number until it is let go; one whose end is not known stays
/// owed, under its number turned negative.
pub proof fn children_are_owed_until_reaped(
    pid: i32,
    ended: bool,
    remote: bool,
    left: Option<i32>,
    a: &mut ChildTable,
    at: usize,
    number: Option<i32>,
    b: &mut ChildTable,
    c: &ChildTable,
    due: Option<i32>,
    i: int,
)
    requires
        pid > 0,
        call_ensures(handed_over, (pid, ended, remote), left),
        old(a).wf() && old(b).wf() && c.wf() && at < old(a).slots@.len() && at < old(
            b).slots@.len() && at < c.slots@.len(),
        call_ensures(ChildTable::created, (a, at, number), ()),
        call_ensures(ChildTable::release, (b, at), ()),
        call_ensures(ChildTable::due, (c, at), due),
        0 <= i < old(a).slots@.len() && i < old(b).slots@.len() && i != at,
    ensures
        left is None <==> ended || remote,
        left matches Some(owed) ==> owed == -pid,
        number matches Some(n) ==> final(a).slots@[at as int] == n,
        number is None ==> final(a).slots@[at as int] == 0,
        final(a).slots@[i] == old(a).slots@[i],
        final(b).slots@[at as int] == 0 && final(b).slots@[i] == old(b).slots@[i],
        due matches Some(owed) ==> owed > 0 && c.slots@[at as int] == -owed,
        c.slots@[at as int] >= 0 ==> due is None,
{
}

/// A target's end is what the guardian's status says, and is over once it says so; a child
/// that is not reaped is waited for in short steps, until the time is over.
pub proof fn statuses_are_taken_as_told(
    raw: Option<i32>,
    reaped: bool,
    shown: &str,
    r: Result<Option<Option<i32>>, Fault>,
    none: Result<Option<Option<i32>>, Fault>,
    o: Result<Option<i32>, Fault>,
    expired: bool,
    left: Duration,
    step: Result<Option<Duration>, Fault>,
)
    requires
        call_ensures(reap_answer, (Some(Message::Status { raw, reaped }), shown), r),
        call_ensures(reap_answer, (None::<Message>, shown), none),
        call_ensures(observe_answer, (Some(Message::Status { raw, reaped }),), o),
        call_ensures(retire_step, (reaped, expired, left), step),
    ensures
        reaped ==> r == Ok::<Option<Option<i32>>, Fault>(Some(raw)),
        !reaped ==> r == Ok::<Option<Option<i32>>, Fault>(None),
        none is Err,
        o == Ok::<Option<i32>, Fault>(raw),
        step == Ok::<Option<Duration>, Fault>(None) <==> reaped,
        step is Err <==> !reaped && expired,
        step matches Ok(Some(pause)) ==> pause@ <= 5_000_000 && pause@ <= left@,
{
}

/// A helper closes every descriptor that it has no use for and that would stay open.
pub proof fn helpers_close_what_they_do_not_need(
    fd: i32,
    endpoint: i32,
    source: i32,
    auxiliary: Option<i32>,
    open: bool,
    closes: bool,
    r: bool,
    limit: i32,
    table: Result<(), Fault>,
    expired: bool,
    gone: bool,
    wait: Result<(), Fault>,
    taken: bool,
    offer: Result<(), Fault>,
)
    requires
        call_ensures(closes_in_helper, (fd, endpoint, source, auxiliary, open, closes), r),
        call_ensures(helper_table, (limit,), table),
        call_ensures(creation_wait, (expired, gone), wait),
        call_ensures(creation_offered, (taken,), offer),
    ensures
        fd == endpoint || fd == source || auxiliary == Some(fd) ==> !r,
        !open || closes ==> !r,
        open && !closes && fd != endpoint && fd != source && auxiliary != Some(fd) ==> r,
        table is Ok <==> 0 <= limit <= 1048576,
        wait is Ok <==> !expired && !gone,
        offer is Ok <==> taken,
{
}

} // verus!
