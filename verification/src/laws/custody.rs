//! The guardian's custody of a macOS workload, and what its parts hand each other.

use vstd::prelude::*;

use crate::evidence::ChildTermination;
use crate::macos_child::{
    confirm, environment_entry, is_path, observe, reaping_settled, spawn_admitted,
    termination_from_status, ChildTable, ExecSearch, WitnessEvent,
};
use crate::macos_envelope::{
    actions, adopt, as_ints, dispositions, receive, receive_rights, word, Disposition, Manifest,
    Rights, RightsView, Settings, SpawnAction,
};
use crate::macos_frontend::{alive, guardian_setup, sampled, signal_stop, Lease, SetupVerdict};
use crate::macos_guardian::{
    ControlEvent, ControlStep, Custody, Inspection, LaneName, SpawnEvent, SpawnStep,
};
use crate::macos_inventory::Identities;
use crate::macos_lane::{
    inventory_answers_query, inventory_frame, normalize_inventory_sample, CodecEvent, InventoryLane,
    InventoryReply, LaneRead,
};
use crate::macos_launch::{
    exec_status, inspector_request, launcher_turn, GateEvent, GateStage, GateStep,
};
use crate::macos_protocol::Message;
use crate::macos_recovery::Recovery;
use crate::model::{Fault, FaultKind};
use crate::policy::Metric;
use crate::time::Duration;

verus! {

/// A release is granted to a prepared target that is not ended, before its start and its
/// work expire, and to no other; a request that is not granted ends the attempt.
pub proof fn releases_are_granted_in_time(c: &mut Custody, now: u64, r: Result<ControlStep, Fault>)
    requires
        old(c).state.wf(),
        old(c).state.connected && !old(c).state.output,
        call_ensures(Custody::control, (c, ControlEvent::Message(Message::Release), now), r),
    ensures
        ({
            let s = old(c).state;
            let may = s.prepared && !s.released && s.terminal is None && now < old(c).plan.startup
                && (old(c).plan.work matches Some(work) ==> now < work);
            &&& may ==> r == Ok::<ControlStep, Fault>(ControlStep::Release { at: now }) && final(
                c).state.released && final(c).state.terminal is None
            &&& !may ==> r == Ok::<ControlStep, Fault>(ControlStep::Nothing) && final(
                c).state.released == s.released && final(c).state.terminal is Some
        }),
{
}

/// A guardian disarms only for an empty workload whose target is reaped, with no inspection
/// out.
pub proof fn disarming_needs_an_empty_workload(
    c: &mut Custody,
    now: u64,
    r: Result<ControlStep, Fault>,
)
    requires
        old(c).state.wf(),
        old(c).state.connected && !old(c).state.output,
        call_ensures(Custody::control, (c, ControlEvent::Message(Message::Disarm), now), r),
    ensures
        r == Ok::<ControlStep, Fault>(ControlStep::Retire) <==> old(c).state.empty && old(
            c).state.target && old(c).state.reaped && !old(c).state.inspection,
        r != Ok::<ControlStep, Fault>(ControlStep::Retire) ==> final(c).state.terminal is Some,
{
}

/// A stop ends the attempt once, at the instant that it names or where the work and its
/// grace end, whichever is first; later ones change nothing. A signal is passed to the
/// group.
pub proof fn stops_end_the_attempt_once(
    a: &mut Custody,
    force: u64,
    now: u64,
    r: Result<ControlStep, Fault>,
    b: &mut Custody,
    signal: i32,
    told: Result<ControlStep, Fault>,
)
    requires
        old(a).state.wf() && old(a).state.connected && !old(a).state.output,
        old(b).state.wf() && old(b).state.connected && !old(b).state.output,
        call_ensures(
            Custody::control,
            (a, ControlEvent::Message(Message::StopAt { force }), now),
            r,
        ),
        call_ensures(
            Custody::control,
            (b, ControlEvent::Message(Message::SignalStop { signal, force }), now),
            told,
        ),
    ensures
        old(a).state.terminal is None ==> final(a).state.terminal == Some(now) && (final(
            a).state.force_at matches Some(at) && at <= force && (old(a).plan.work is None ==> at
            == force) && (old(a).plan.work matches Some(work) ==> at <= work + old(a).plan.grace
            && (at == force || at == work + old(a).plan.grace || at == u64::MAX))),
        old(a).state.terminal is Some ==> final(a).state.terminal == old(a).state.terminal && final(
            a).state.force_at == old(a).state.force_at,
        ({
            let stop = signal == 9 || signal == 15 || signal == 2 || signal == 1 || signal == 3;
            &&& stop && old(b).state.terminal is None ==> final(b).state.queued_signal == Some(
                signal,
            ) && final(b).state.terminal == Some(now)
            &&& stop && old(b).state.terminal is None && old(b).state.target && !old(
                b).state.reaped ==> told == Ok::<ControlStep, Fault>(
                ControlStep::SignalGroup(signal),
            )
            &&& !stop ==> told == Ok::<ControlStep, Fault>(ControlStep::Nothing) && final(
                b).state.terminal is Some
            &&& old(b).state.terminal is Some ==> final(b).state.terminal == old(b).state.terminal
        }),
{
}

/// A frontend that is lost ends the attempt; a heartbeat renews its lease and ends nothing.
pub proof fn lost_frontends_end_the_attempt(
    a: &mut Custody,
    now: u64,
    lost: Result<ControlStep, Fault>,
    b: &mut Custody,
    beat: Result<ControlStep, Fault>,
)
    requires
        old(a).state.wf() && old(a).state.connected && !old(a).state.output,
        old(b).state.wf() && old(b).state.connected && !old(b).state.output,
        call_ensures(Custody::control, (a, ControlEvent::Lost, now), lost),
        call_ensures(Custody::control, (b, ControlEvent::Message(Message::Heartbeat), now), beat),
    ensures
        !final(a).state.connected && final(a).state.terminal is Some,
        old(a).state.terminal is None ==> final(a).state.terminal == Some(now),
        final(b).state.last_control == now && final(b).state.terminal == old(b).state.terminal,
{
}

/// An inventory is asked of the guardian and answered at once where the workload is empty.
pub proof fn empty_workloads_are_told_at_once(
    c: &mut Custody,
    query: u64,
    metric: Option<Metric>,
    now: u64,
    r: Result<ControlStep, Fault>,
)
    requires
        old(c).state.wf() && old(c).state.connected && !old(c).state.output,
        call_ensures(
            Custody::control,
            (c, ControlEvent::Message(Message::InventoryQuery { query, metric }), now),
            r,
        ),
    ensures
        old(c).state.empty ==> r == Ok::<ControlStep, Fault>(
            ControlStep::AnswerEmpty { query, sampled: metric is Some },
        ),
        !old(c).state.empty ==> r == Ok::<ControlStep, Fault>(ControlStep::Nothing) && (final(
            c).state.frontend matches Some(asked) && asked.query == query && asked.metric
            == metric),
{
}

/// A target is reaped through the guardian only once its workload is empty.
pub proof fn targets_are_reaped_when_empty(
    c: &mut Custody,
    now: u64,
    r: Result<ControlStep, Fault>,
)
    requires
        old(c).state.wf() && old(c).state.connected && !old(c).state.output,
        call_ensures(Custody::control, (c, ControlEvent::Message(Message::Reap), now), r),
    ensures
        !old(c).state.target ==> r is Err,
        old(c).state.target ==> r == Ok::<ControlStep, Fault>(
            ControlStep::Reap { allowed: old(c).state.empty && !old(c).state.inspection },
        ),
{
}

/// A guardian leaves only a frontend that is gone, an empty workload and no inspection; a
/// launcher that could not be spawned is reported while someone listens.
pub proof fn guardians_leave_nothing_behind(
    c: &Custody,
    leaves: bool,
    d: &mut Custody,
    event: SpawnEvent,
    step: SpawnStep,
)
    requires
        call_ensures(Custody::may_leave, (c,), leaves),
        old(d).state.wf(),
        !old(d).state.target,
        call_ensures(Custody::spawned, (d, event), step),
    ensures
        leaves <==> !c.state.connected && c.state.empty && !c.state.inspection && c.state.target,
        event is Spawned ==> final(d).state.target && final(d).state.launcher && (step
            == SpawnStep::Watch <==> old(d).state.terminal is None),
        (event matches SpawnEvent::Failed(Some(errno))) && old(d).state.connected ==> step
            == SpawnStep::Leave(event->Failed_0),
        event is Failed && !old(d).state.connected ==> step == SpawnStep::Leave(None),
{
}

/// An inspection kills once force is due, and else passes on the signal that waits, once.
pub proof fn inspections_kill_when_force_is_due(
    c: &mut Custody,
    now: u64,
    r: Result<Inspection, Fault>,
    wanted: bool,
    before: &Custody,
)
    requires
        *before == *old(c),
        call_ensures(Custody::inspection_wanted, (before, now), wanted),
        wanted,
        old(c).state.wf(),
        call_ensures(Custody::next_inspection, (c, now), r),
        r is Ok,
    ensures
        ({
            let due = old(c).state.force_at matches Some(at) && now >= at;
            &&& due ==> r->Ok_0.signal == Some(9i32)
            &&& !due ==> r->Ok_0.signal == old(c).state.queued_signal && final(
                c).state.queued_signal is None
            &&& r->Ok_0.lane == LaneName::Emergency <==> old(c).state.terminal is Some
        }),
        old(c).state.target && !old(c).state.empty,
{
}

/// What an inspector says of the workload is taken: whether it is empty, and who is in it;
/// once the attempt has ended only the emergency lane can call it empty.
pub proof fn inspectors_tell_whether_it_is_empty(
    c: &mut Custody,
    lane: LaneName,
    empty: bool,
    identities: Identities,
    has_sample: bool,
    now: u64,
    r: Option<u64>,
)
    requires
        old(c).state.wf(),
        call_ensures(
            Custody::lane_replied,
            (c, lane, Ok::<bool, ()>(empty), identities, has_sample, now),
            r,
        ),
    ensures
        old(c).state.terminal is None || lane == LaneName::Emergency ==> final(c).state.empty
            == empty && final(c).known@ == identities@,
        old(c).state.terminal is Some && lane == LaneName::Normal && !old(c).state.empty ==> !final(
            c).state.empty,
        r matches Some(query) ==> (old(c).state.frontend matches Some(asked) && asked.query
            == query),
{
}

/// A recovering guardian kills whatever is left, and is over only once nothing is.
pub proof fn recoveries_kill_what_is_left(
    a: &mut Recovery,
    r: Result<Option<Inspection>, Fault>,
    b: &Recovery,
    retired: bool,
    reaped: bool,
    over: bool,
)
    requires
        call_ensures(Recovery::next_inspection, (a,), r),
        call_ensures(Recovery::is_over, (b, retired, reaped), over),
    ensures
        r matches Ok(Some(inspection)) ==> inspection.signal == Some(9i32) && inspection.lane
            == LaneName::Emergency,
        old(a).target && !old(a).empty && !old(a).emergency.pending && !old(a).emergency.stopping
            && old(a).emergency.sequence < u64::MAX ==> (r matches Ok(Some(_))),
        !old(a).target || old(a).empty ==> (r matches Ok(None)),
        over <==> b.empty && !b.normal.pending && !b.emergency.pending && retired && (!b.target
            || reaped),
{
}

/// A configuration is taken on only of this boot and while its time lies ahead.
pub proof fn setups_are_of_this_boot(
    image: Vec<u8>,
    boot_identity: String,
    startup: u64,
    work: Option<u64>,
    grace: u64,
    now: u64,
    boot: &str,
    r: Result<SetupVerdict, Fault>,
)
    requires
        call_ensures(
            guardian_setup,
            (
                Some(Message::Configure { image, boot_identity, startup, work, grace }),
                now,
                boot,
            ),
            r,
        ),
    ensures
        boot_identity@ != boot@ ==> r is Err,
        boot_identity@ == boot@ && (now >= startup || (work matches Some(end) && now >= end)) ==> r
            == Ok::<SetupVerdict, Fault>(SetupVerdict::Late),
        boot_identity@ == boot@ && now < startup && (work matches Some(end) ==> now < end) ==> (
        r matches Ok(SetupVerdict::Begin(setup)) && setup.plan.startup == startup && setup.plan.work
            == work && setup.plan.grace == grace && setup.image == image && now
            + setup.inspectors_within == startup),
{
}

/// A frontend asks its guardian to end the workload by force when its grace is over; a
/// guardian that ended before its workload is a fault; a sample that is missing is none.
pub proof fn frontends_ask_for_force_after_the_grace(
    lease: Lease,
    signal: i32,
    now: u64,
    grace: Duration,
    r: Result<Message, Fault>,
    beat: Result<(), Fault>,
    ended: Result<bool, Fault>,
    lives: Result<(), Fault>,
    reply: Result<Option<Result<u64, String>>, String>,
    sample: Result<u64, String>,
)
    requires
        call_ensures(signal_stop, (lease, signal, now, grace), r),
        call_ensures(alive, (beat, ended), lives),
        call_ensures(sampled, (reply,), sample),
    ensures
        lease == Lease::Held && now + grace@ <= u64::MAX ==> (r matches Ok(Message::SignalStop {
            signal: told,
            force,
        }) && told == signal && force == now + grace@),
        lease != Lease::Held ==> r is Err,
        lives is Ok <==> beat is Ok && ended == Ok::<bool, Fault>(false),
        reply matches Ok(Some(value)) ==> sample == value,
        reply is Err || (reply matches Ok(None)) ==> sample is Err,
{
}

/// A lane's answer belongs to its request: another run's or another sequence's is refused.
pub proof fn lanes_answer_their_request(
    lane: &mut InventoryLane,
    run: u64,
    sequence: u64,
    reply: InventoryReply,
    payload: Vec<u8>,
    r: Result<Option<(InventoryReply, Vec<u8>)>, Fault>,
    other: &mut InventoryLane,
    metric: Option<Metric>,
    number: Result<u64, Fault>,
)
    requires
        old(lane).decoding,
        call_ensures(
            InventoryLane::decoder_said,
            (lane, CodecEvent::Decoded { run, sequence, reply, payload }),
            r,
        ),
        call_ensures(InventoryLane::submit, (other, metric), number),
    ensures
        r is Ok <==> run == old(lane).run && sequence == old(lane).sequence,
        r is Ok ==> r == Ok::<Option<(InventoryReply, Vec<u8>)>, Fault>(Some((reply, payload)))
            && !final(lane).pending,
        number is Ok <==> !old(other).pending && !old(other).stopping && old(other).sequence
            < u64::MAX,
        number matches Ok(n) ==> n == old(other).sequence + 1 && final(other).sequence == n && final(
            other).metric == metric,
{
}

/// A frame on a lane is its text behind its length, and is handed over when it is whole.
pub proof fn lane_frames_are_read_back(
    text: &[u8],
    framed: Result<Vec<u8>, Fault>,
    lane: &mut InventoryLane,
    bytes: Vec<u8>,
    r: Result<Option<Vec<u8>>, Fault>,
)
    requires
        call_ensures(inventory_frame, (text,), framed),
        framed is Ok,
        old(lane).incoming@ + bytes@ == framed->Ok_0@,
        call_ensures(InventoryLane::read, (lane, LaneRead::Data(bytes)), r),
    ensures
        r matches Ok(Some(told)) && told@ == text@,
        final(lane).incoming@.len() == 0,
{
    let all = framed->Ok_0@;
    crate::bytes::be32_round(text@.len() as u32);
    assert(all.subrange(0, 4) =~= crate::bytes::be32(text@.len() as u32));
    assert(crate::bytes::from_be32(all) == crate::bytes::from_be32(
        crate::bytes::be32(text@.len() as u32),
    ));
    assert(all.skip(4) =~= text@);
}

/// A sample answers a query for its metric or for none; an empty workload answers each, and
/// uses nothing.
pub proof fn samples_answer_their_metric(
    requested: Option<Metric>,
    taken: Option<Metric>,
    empty: bool,
    has_sample: bool,
    r: bool,
    reply: &mut InventoryReply,
)
    requires
        call_ensures(inventory_answers_query, (requested, taken, empty, has_sample), r),
        call_ensures(normalize_inventory_sample, (reply,), ()),
    ensures
        requested is None || empty ==> r,
        requested is Some && !empty ==> (r <==> requested == taken && has_sample),
        (old(reply).members matches Ok(list) && list@.len() == 0) ==> final(reply).sample == Some(
            Ok::<u64, String>(0),
        ),
        !(old(reply).members matches Ok(list) && list@.len() == 0) ==> final(reply).sample == old(
            reply).sample,
        final(reply).members == old(reply).members,
{
}

/// Descriptors that came in one message are adopted in their order, each once.
pub proof fn descriptors_are_adopted_in_order(ancillary: &[u8], fds: Seq<i32>, r: Rights)
    requires
        call_ensures(receive_rights, (ancillary, ancillary@.len() as usize, false), r),
        ancillary@.len() == 12 + 4 * fds.len(),
        ancillary@.len() <= usize::MAX,
        ancillary@[0] + 256 * ancillary@[1] + 65536 * ancillary@[2] + 16777216 * ancillary@[3] == 12
            + 4 * fds.len(),
        ancillary@[4] == 255 && ancillary@[5] == 255 && ancillary@[6] == 0 && ancillary@[7] == 0,
        ancillary@[8] == 1 && ancillary@[9] == 0 && ancillary@[10] == 0 && ancillary@[11] == 0,
        forall|i: int|
            0 <= i < fds.len() ==> (#[trigger] fds[i]) >= 0 && ancillary@[12 + 4 * i] + 256
                * ancillary@[13 + 4 * i] + 65536 * ancillary@[14 + 4 * i] + 16777216 * ancillary@[15
                + 4 * i] == fds[i],
        forall|i: int, j: int|
            0 <= i < j < fds.len() ==> (#[trigger] fds[i]) != (#[trigger] fds[j]),
    ensures
        r.adopted@ == fds,
        !r.invalid,
{
    let bytes = ancillary@;
    let none = RightsView { adopted: Seq::empty(), invalid: false };
    adopted_so_far(bytes, fds, fds.len(), none);
    assert(word(bytes, 4) == 0xffff);
    assert(word(bytes, 8) == 1);
    reveal_with_fuel(crate::macos_envelope::walk, 2);
    let length = 12 + 4 * fds.len();
    assert((length - 12) / 4 == fds.len());
    assert(r@.adopted == as_ints(fds));
    assert(r.adopted@ =~= fds) by {
        assert(as_ints(r.adopted@).len() == as_ints(fds).len());
        assert forall|i: int| 0 <= i < fds.len() implies r.adopted@[i] == fds[i] by {
            assert(as_ints(r.adopted@)[i] == as_ints(fds)[i]);
        }
    }
}

proof fn adopted_so_far(bytes: Seq<u8>, fds: Seq<i32>, n: nat, none: RightsView)
    requires
        n <= fds.len(),
        none == (RightsView { adopted: Seq::empty(), invalid: false }),
        forall|i: int|
            0 <= i < fds.len() ==> (#[trigger] fds[i]) >= 0 && bytes[12 + 4 * i] + 256 * bytes[13 + 4
                * i] + 65536 * bytes[14 + 4 * i] + 16777216 * bytes[15 + 4 * i] == fds[i],
        forall|i: int, j: int|
            0 <= i < j < fds.len() ==> (#[trigger] fds[i]) != (#[trigger] fds[j]),
    ensures
        adopt(bytes, 12, n, none) == (RightsView { adopted: as_ints(fds.take(n as int)), invalid: false }),
    decreases n,
{
    if n == 0 {
        assert(as_ints(fds.take(0)) =~= Seq::empty());
    } else {
        adopted_so_far(bytes, fds, (n - 1) as nat, none);
        let before = as_ints(fds.take(n - 1));
        let fd = fds[n - 1];
        assert(word(bytes, 12 + 4 * (n - 1)) == fd);
        assert(!before.contains(fd as int)) by {
            if before.contains(fd as int) {
                let k = choose|k: int| 0 <= k < before.len() && before[k] == fd as int;
                assert(fds[k] == fd);
            }
        }
        assert(before.push(fd as int) =~= as_ints(fds.take(n as int)));
    }
}

/// A launched target gets back every signal that can be chosen: ignored where its caller
/// ignored it, the default else.
pub proof fn signals_are_restored(
    settings: &Settings,
    r: Result<Vec<Disposition>, Fault>,
    signal: i32,
)
    requires
        call_ensures(Settings::restore, (settings,), r),
        r is Ok,
        1 <= signal <= 31 && signal != 9 && signal != 17,
    ensures
        r->Ok_0@.contains(
            Disposition { signal, ignore: settings.ignored@.contains(signal) },
        ),
        !r->Ok_0@.contains(
            Disposition { signal, ignore: !settings.ignored@.contains(signal) },
        ),
{
    disposed_so_far(settings.ignored@, 31, signal, true);
    disposed_so_far(settings.ignored@, 31, signal, false);
}

proof fn disposed_so_far(ignored: Seq<i32>, n: nat, signal: i32, ignore: bool)
    requires
        n <= 31,
    ensures
        dispositions(ignored, n).contains(Disposition { signal, ignore }) <==> 1 <= signal <= n
            && signal != 9 && signal != 17 && ignore == ignored.contains(signal),
    decreases n,
{
    if n > 0 {
        let d = Disposition { signal, ignore };
        let before = dispositions(ignored, (n - 1) as nat);
        disposed_so_far(ignored, (n - 1) as nat, signal, ignore);
        let last = Disposition { signal: n as i32, ignore: ignored.contains(n as i32) };
        let more = before.push(last);
        if before.contains(d) {
            let i = choose|i: int| 0 <= i < before.len() && before[i] == d;
            assert(more[i] == d);
        }
        if more.contains(d) {
            let i = choose|i: int| 0 <= i < more.len() && more[i] == d;
            if i < before.len() {
                assert(before[i] == d);
            }
        }
        assert(more[before.len() as int] == last);
    }
}

/// Each descriptor of the caller is put in its place, and the standard ones that it had
/// closed are closed.
pub proof fn descriptors_are_put_in_their_place(
    destinations: &Vec<i32>,
    r: Vec<SpawnAction>,
    i: int,
    fd: i32,
)
    requires
        call_ensures(actions, (destinations, true), r),
        0 <= i < destinations@.len(),
        0 <= fd < 3,
    ensures
        r@.contains(SpawnAction::Place { index: i as usize, destination: destinations@[i] }),
        r@.contains(SpawnAction::CloseStandard { fd }) <== !destinations@.contains(fd),
        r@[0] == SpawnAction::EnterDirectory,
{
    let d = destinations@;
    let common = crate::macos_envelope::common_actions();
    let placing = crate::macos_envelope::placing_actions(d, d.len());
    let closing = crate::macos_envelope::closing_actions(d, 3);
    let p = placed_so_far(d, d.len(), i);
    assert(r@[common.len() as int + p] == placing[p]);
    reveal_with_fuel(crate::macos_envelope::closing_actions, 4);
    if !d.contains(fd) {
        let k = closed_so_far(d, fd);
        assert(r@[common.len() + placing.len() + k] == closing[k]);
    }
}

proof fn placed_so_far(d: Seq<i32>, n: nat, i: int) -> (p: int)
    requires
        0 <= i < n <= d.len(),
    ensures
        0 <= p < crate::macos_envelope::placing_actions(d, n).len(),
        crate::macos_envelope::placing_actions(d, n)[p] == (SpawnAction::Place {
            index: i as usize,
            destination: d[i],
        }),
    decreases n,
{
    let before = crate::macos_envelope::placing_actions(d, (n - 1) as nat);
    if i == n - 1 {
        before.len() as int
    } else {
        placed_so_far(d, (n - 1) as nat, i)
    }
}

proof fn closed_so_far(d: Seq<i32>, fd: i32) -> (p: int)
    requires
        0 <= fd < 3,
        !d.contains(fd),
    ensures
        0 <= p < crate::macos_envelope::closing_actions(d, 3).len(),
        crate::macos_envelope::closing_actions(d, 3)[p] == (SpawnAction::CloseStandard { fd }),
{
    reveal_with_fuel(crate::macos_envelope::closing_actions, 4);
    let before = crate::macos_envelope::closing_actions(d, fd as nat);
    before.len() as int
}

/// A caller's descriptors are taken only in a manifest of this run, with one right for each
/// and one for the directory, each at its own place.
pub proof fn manifests_fit_their_rights(
    manifest: &Manifest,
    rights: usize,
    run: u64,
    floor: i32,
    r: Result<i32, Fault>,
)
    requires
        call_ensures(receive, (manifest, rights, run, floor), r),
    ensures
        r is Ok ==> manifest.version == 1 && manifest.run == run && manifest.destinations@.len()
            <= 128 && rights == manifest.destinations@.len() + 1 && forall|i: int|
            0 <= i < manifest.destinations@.len() ==> (#[trigger] manifest.destinations@[i]) >= 0,
        r matches Ok(above) ==> above >= floor,
        manifest.run != run || rights != manifest.destinations@.len() + 1 ==> r is Err,
{
}

/// A gate opens only step by step: the settings, their restoring, the announcement, and at
/// last the release.
pub proof fn gates_open_step_by_step(stage: GateStage, event: GateEvent, r: (GateStage, GateStep))
    requires
        call_ensures(launcher_turn, (stage, event), r),
    ensures
        r.1 == GateStep::Exec <==> stage == GateStage::Waiting && event == GateEvent::Released,
        r.1 == GateStep::Restore <==> stage == GateStage::Settings && event == GateEvent::Settings,
        r.1 == GateStep::Announce <==> stage == GateStage::Restoring && event
            == GateEvent::Restored,
        r.1 == GateStep::Wait <==> stage == GateStage::Announcing && event == GateEvent::Announced,
        event == GateEvent::Other ==> r == (GateStage::Over, GateStep::Leave),
{
}

/// How a child ended is told as it was: by its code, else by its signal; one that still runs
/// has not ended.
pub proof fn child_ends_are_told(
    code: Option<i32>,
    signal: Option<i32>,
    r: ChildTermination,
    pid: i32,
    how: i32,
    status: i32,
    seen: Result<Option<i32>, Fault>,
    kind: FaultKind,
    exit: i32,
)
    requires
        call_ensures(termination_from_status, (code, signal), r),
        call_ensures(observe, (pid, how, status), seen),
        call_ensures(exec_status, (kind,), exit),
    ensures
        code matches Some(n) ==> r == (ChildTermination::ExitCode { code: n }),
        code is None && signal is Some ==> r == (ChildTermination::UnixSignal {
            signal: signal->0,
        }),
        code is None && signal is None ==> r == ChildTermination::Unavailable,
        pid == 0 ==> seen == Ok::<Option<i32>, Fault>(None),
        pid != 0 && how == 2 ==> seen == Ok::<Option<i32>, Fault>(Some(status)),
        pid != 0 && !(1 <= how <= 3) ==> seen is Err,
        kind == FaultKind::NotFound <==> exit == 127,
        kind != FaultKind::NotFound <==> exit == 126,
{
}

/// A table of children gives each a slot of its own, the first that is free, and keeps a
/// child that was dropped until it is reaped.
pub proof fn dropped_children_keep_their_slot(
    t: &mut ChildTable,
    r: Result<usize, Fault>,
    u: &mut ChildTable,
    at: usize,
    pid: i32,
    ended: bool,
    remote: bool,
)
    requires
        old(t).wf(),
        call_ensures(ChildTable::reserve, (t,), r),
        old(u).wf() && at < 256 && pid > 0,
        call_ensures(ChildTable::dropped, (u, at, pid, ended, remote), ()),
    ensures
        r matches Ok(i) ==> i < 256 && old(t).slots@[i as int] == 0 && final(t).slots@[i as int] != 0
            && (forall|k: int| 0 <= k < i ==> old(t).slots@[k] != 0) && (forall|k: int|
            0 <= k < 256 && k != i ==> final(t).slots@[k] == old(t).slots@[k]),
        r is Err ==> forall|k: int| 0 <= k < 256 ==> old(t).slots@[k] != 0,
        !ended && !remote ==> final(u).slots@[at as int] == -pid,
        ended || remote ==> final(u).slots@ == old(u).slots@,
{
    free_slots(*old(t), 0);
}

proof fn free_slots(t: ChildTable, from: int)
    requires
        0 <= from <= t.slots@.len(),
    ensures
        t.first_free(from) matches Some(i) ==> from <= i < t.slots@.len() && t.slots@[i] == 0
            && forall|k: int| from <= k < i ==> t.slots@[k] != 0,
        t.first_free(from) is None ==> forall|k: int|
            from <= k < t.slots@.len() ==> t.slots@[k] != 0,
    decreases t.slots@.len() - from,
{
    if from < t.slots@.len() && t.slots@[from] != 0 {
        free_slots(t, from + 1);
    }
}

/// A program is searched for past the places where it is not, and one that may not be run is
/// remembered; a name with a slash is a path; an entry of the environment is its name, an
/// equals sign and its value.
pub proof fn programs_are_searched_for(
    s: &mut ExecSearch,
    errno: Option<i32>,
    r: Option<Option<i32>>,
    t: &ExecSearch,
    end: i32,
    name: &[u8],
    value: &[u8],
    entry: Option<Vec<u8>>,
    path: bool,
)
    requires
        call_ensures(ExecSearch::tried, (s, errno), r),
        call_ensures(ExecSearch::exhausted, (t,), end),
        call_ensures(environment_entry, (name, value), entry),
        call_ensures(is_path, (name,), path),
    ensures
        errno == Some(2i32) || errno == Some(20i32) || errno == Some(13i32) <==> r is None,
        errno == Some(13i32) ==> final(s).denied,
        errno != Some(13i32) ==> final(s).denied == old(s).denied,
        t.denied ==> end == 13,
        !t.denied ==> end == 2,
        entry matches Some(bytes) ==> bytes@ == name@ + seq![61u8] + value@ && !bytes@.contains(0u8),
        path <==> exists|i: int| 0 <= i < name@.len() && name@[i] == 47,
{
}

/// An execution is confirmed only by the kernel's word and in time; a spawn is admitted only
/// before the start expires.
pub proof fn executions_are_confirmed_by_the_kernel(
    expired: bool,
    event: WitnessEvent,
    r: Result<bool, Fault>,
    now: u64,
    startup: u64,
    admitted: Result<(), Fault>,
    result: i32,
    errno: Option<i32>,
    settled: bool,
)
    requires
        call_ensures(confirm, (expired, event), r),
        call_ensures(spawn_admitted, (now, startup), admitted),
        call_ensures(reaping_settled, (result, errno), settled),
    ensures
        r == Ok::<bool, Fault>(true) <==> !expired && event is Exec,
        !expired && event is Nothing ==> r == Ok::<bool, Fault>(false),
        expired || event is Ended || event is Failed ==> r is Err,
        admitted is Ok <==> now < startup,
        settled <==> result > 0 || result < 0 && errno == Some(10i32),
{
}

/// An inspector serves only its own run, in sequence, for a real root, and passes on only
/// signals that stop.
pub proof fn inspectors_serve_their_run(
    own: u64,
    last: u64,
    run: u64,
    next: u64,
    root: i32,
    known: &Identities,
    signal: Option<i32>,
    r: bool,
)
    requires
        call_ensures(inspector_request, (own, last, run, next, root, known, signal), r),
        r,
    ensures
        run == own && next == last + 1 && root > 0 && known.list@.len() <= 32768,
        signal matches Some(n) ==> n == 9 || n == 15 || n == 2 || n == 1 || n == 3,
{
}

} // verus!
