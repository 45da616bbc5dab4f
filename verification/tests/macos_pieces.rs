use memcordon_platform::macos_child::{
    closes_in_helper, confirm, creation_offered, creation_wait, environment_entry, helper_table,
    handed_over, is_path, native_text, observe, reaping_settled, retire_step, spawn_admitted,
    termination_from_status, ChildTable, ExecSearch, WitnessEvent, SLOTS,
};
use memcordon_platform::evidence::ChildTermination;
use memcordon_platform::macos_deadline::{
    add, boot_identity, continuous_nanos, remaining_retirement, retirement_mutation_probe,
};
use memcordon_platform::macos_discovery::{Discovery, DiscoveryStep};
use memcordon_platform::macos_envelope::{
    actions, capture_admitted, capture_descriptor, capture_offered, capture_waited, is_table_size,
    manifest_length, private_floor, receive, receive_manifest_fixture, receive_rights, Manifest,
    Settings, SpawnAction, WorkerEvent,
};
use memcordon_platform::macos_fixture::{
    capacity_rejected, clock_jump, control_flood, custody_wrapper, descendant, disarm_timeout,
    guardian_inspector_wrapper, inspector_stall, process_inspector_stall, repeated_stop,
    resource_recovery, running_guardian_loss, startup_fault, submillisecond_deadline,
    timer_mutation_detected, timer_work, transfer_fixture, CustodyStep, RecordFault, RecoveryTrial,
    StallTrial, TimerTrial, TransferTrial,
};
use memcordon_platform::macos_frontend::{
    alive, guardian_setup, held_back, lease_usable, query_due, sampled, signal_stop, Lease,
    SetupVerdict,
};
use memcordon_platform::macos_inventory::{
    decode_pid_inventory, inventory_reconciliation, metric_name, pid_inventory_reply, process_snapshot,
    process_usage, reconcile_inventory, record_snapshot, sample_native, signal_member, signal_sent, BsdInfo,
    Identities, Inventory, ProcessIdentity, ProcessSnapshot, UsageReading, UsageSource,
};
use memcordon_platform::macos_lane::{
    empty_inventory_query_transition, inventory_answers_query, inventory_frame,
    nonempty_inventory_query_transition, payload_fits, ready, CodecEvent, InventoryAssembly,
    InventoryLane, InventoryOutput, InventoryReply, LaneRead, LaneStep, OutputProgress, OutputStep,
    INVENTORY_FRAME_LIMIT,
};
use memcordon_platform::macos_protocol::{
    expect, frame_text, nothing_came, receive_wait, rejects_protocol, Available, Channel, Expected,
    Frame, Message, MoveEvent, ReadEvent, Refusal, Transfer, TransferStep,
};
use memcordon_platform::model::{Fault, FaultKind, Text, ESRCH};
use memcordon_platform::policy::Metric;
use memcordon_platform::scan::NumberFault;
use memcordon_platform::time::Duration;

fn fault(code: i32) -> Fault {
    Fault { kind: FaultKind::Other, os_code: Some(code), text: Text::Given(format!("os error {code}")) }
}

fn ms(n: u64) -> Duration {
    Duration::from_millis(n)
}

fn member(pid: i32, start: u64, parent: i32, group: i32) -> ProcessSnapshot {
    ProcessSnapshot {
        identity: ProcessIdentity { pid, start_seconds: start, start_microseconds: 0 },
        parent_pid: parent,
        process_group: group,
        zombie: false,
    }
}

#[test]
fn clocks_are_scaled() {
    assert_eq!(continuous_nanos(0, 100, 125, 3).unwrap(), 4166);
    assert!(continuous_nanos(5, 100, 125, 3).is_err());
    assert!(continuous_nanos(0, 100, 125, 0).is_err());
    assert!(continuous_nanos(0, u64::MAX, 2, 1).is_err());
    assert_eq!(add(5, Duration::from_nanos(7)).unwrap(), 12);
    let error = add(u64::MAX, Duration::from_nanos(1)).unwrap_err();
    assert_eq!(error.kind, FaultKind::InvalidInput);
}

#[test]
fn retirement_does_not_hang_on_the_work_deadline() {
    assert_eq!(
        remaining_retirement(100, 200, Duration::from_nanos(500)).unwrap(),
        Duration::from_nanos(400)
    );
    let first = retirement_mutation_probe(1_000, 2_000, 0, false).unwrap();
    let second = retirement_mutation_probe(1_000, 2_000, u64::MAX, false).unwrap();
    assert_eq!(first, second);
    assert_eq!(retirement_mutation_probe(1_000, 2_000, 2_500, true).unwrap(), Duration::from_nanos(500));
    assert!(remaining_retirement(u64::MAX, 0, Duration::from_nanos(1)).is_err());
}

#[test]
fn boots_are_named() {
    assert_eq!(boot_identity(b"AB-1\0", 5).unwrap(), "AB-1");
    assert!(boot_identity(b"AB-1", 4).is_err());
    assert!(boot_identity(b"\0", 1).is_err());
    assert!(boot_identity(b"A\0B\0", 4).is_err());
    let error = boot_identity(&[0xff, 0], 2).unwrap_err();
    assert_eq!(error.text.render(), "boot-session identity is not UTF-8");
}

#[test]
fn places_are_bounded() {
    let mut table = ChildTable { slots: vec![0; SLOTS], dependencies: vec![0; SLOTS] };
    let mut taken = Vec::new();
    for n in 0..SLOTS {
        let at = table.reserve().unwrap();
        table.created(at, Some(n as i32 + 10));
        taken.push(at);
    }
    assert!(table.reserve().is_err());
    table.release(taken[3]);
    assert_eq!(table.reserve().unwrap(), taken[3]);
    table.created(taken[3], None);
    assert_eq!(table.slots[taken[3]], 0);
    table.dropped(taken[4], 14, false, true);
    table.dropped(taken[4], 14, true, false);
    assert_eq!(table.slots[taken[4]], 14);
    table.dropped(taken[4], 14, false, false);
    assert_eq!(table.slots[taken[4]], -14);
    assert_eq!(handed_over(14, false, false), Some(-14));
    assert_eq!(handed_over(14, true, false), None);
    assert_eq!(table.due(taken[4]), Some(14));
    assert_eq!(table.due(taken[5]), None);
}

#[test]
fn children_are_observed() {
    assert!(reaping_settled(5, None));
    assert!(reaping_settled(-1, Some(10)));
    assert!(!reaping_settled(0, None));
    assert_eq!(observe(0, 0, 0).unwrap(), None);
    assert!(observe(7, 1, 3).unwrap().is_some());
    assert_eq!(termination_from_status(Some(3), None), ChildTermination::ExitCode { code: 3 });
    assert_eq!(termination_from_status(None, Some(9)), ChildTermination::UnixSignal { signal: 9 });
    assert!(retire_step(true, false, ms(5)).unwrap().is_none());
    assert!(retire_step(false, false, ms(5)).unwrap().is_some());
    assert!(retire_step(false, true, ms(5)).is_err());
}

#[test]
fn execs_are_witnessed() {
    assert_eq!(confirm(false, WitnessEvent::Exec).unwrap(), true);
    assert_eq!(confirm(false, WitnessEvent::Nothing).unwrap(), false);
    assert_eq!(
        confirm(false, WitnessEvent::Ended).unwrap_err().text.render(),
        "launcher exited without a kernel exec observation"
    );
    assert_eq!(confirm(true, WitnessEvent::Exec).unwrap_err().kind, FaultKind::TimedOut);
    assert_eq!(confirm(false, WitnessEvent::Failed(fault(9))).unwrap_err().os_code, Some(9));
    assert!(creation_offered(true).is_ok());
    assert_eq!(creation_offered(false).unwrap_err().kind, FaultKind::WouldBlock);
    assert!(spawn_admitted(4, 5).is_ok());
    assert_eq!(spawn_admitted(5, 5).unwrap_err().text.render(), "spawn admission expired");
    assert!(creation_wait(false, false).is_ok());
    assert_eq!(creation_wait(true, true).unwrap_err().kind, FaultKind::TimedOut);
    assert_eq!(
        creation_wait(false, true).unwrap_err().text.render(),
        "native creation owner unavailable"
    );
}

#[test]
fn programs_are_searched() {
    assert!(is_path(b"/bin/sh") && is_path(b"a/b") && !is_path(b"sh"));
    assert!(native_text(b"abc") && !native_text(b"a\0c"));
    assert_eq!(environment_entry(b"A", b"b").unwrap(), b"A=b".to_vec());
    assert!(environment_entry(b"A", b"\0").is_none());
    let mut search = ExecSearch { denied: false };
    assert_eq!(search.tried(Some(2)), None);
    assert_eq!(search.tried(Some(13)), None);
    assert!(search.denied);
    assert_eq!(search.tried(Some(7)), Some(Some(7)));
    assert_eq!(search.exhausted(), 13);
    assert_eq!(ExecSearch { denied: false }.exhausted(), 2);
    assert!(helper_table(1024).is_ok() && helper_table(1_048_577).is_err());
    assert!(!closes_in_helper(5, 5, 6, None, true, false));
}

fn channel_bytes(text: &[u8]) -> Vec<u8> {
    frame_text(text).unwrap()
}

#[test]
fn texts_are_framed_and_found() {
    assert_eq!(channel_bytes(b"abc"), vec![0, 3, 97, 98, 99]);
    assert!(frame_text(&vec![0; 4096]).is_ok());
    assert_eq!(
        frame_text(&vec![0; 4097]).unwrap_err().text.render(),
        "private launch frame exceeds bound"
    );
    let mut channel = Channel::new(7);
    let bytes = channel_bytes(b"abc");
    match channel.receive_available(ReadEvent::Data(bytes[..3].to_vec())).unwrap() {
        Available::Partial => {}
        other => panic!("{other:?}"),
    }
    match channel.receive_available(ReadEvent::Data(bytes[3..].to_vec())).unwrap() {
        Available::Payload(payload) => assert_eq!(payload, b"abc"),
        other => panic!("{other:?}"),
    }
    let frame = Frame { version: 2, run: 7, sequence: 0, message: Message::Hello };
    assert!(matches!(channel.accept(Ok(frame)).unwrap(), Message::Hello));
}

#[test]
fn messages_are_not_taken_twice() {
    let mut channel = Channel::new(7);
    let bytes = channel_bytes(b"abc");
    let first = channel.frame(Message::Ready);
    for turn in 0..2 {
        channel.receive_available(ReadEvent::Data(bytes.clone())).unwrap();
        let frame = Frame {
            version: first.version,
            run: 7,
            sequence: 0,
            message: Message::Ready,
        };
        assert_eq!(channel.accept(Ok(frame)).is_ok(), turn == 0);
    }
    let mut other = Channel::new(8);
    other.receive_available(ReadEvent::Data(bytes)).unwrap();
    let frame = Frame { version: first.version, run: 7, sequence: 0, message: Message::Ready };
    assert!(other.accept(Ok(frame)).is_err());
}

#[test]
fn broken_protocols_are_refused() {
    assert!(rejects_protocol(&[], vec![]));
    assert!(rejects_protocol(&[0, 1], vec![]));
    assert!(rejects_protocol(&[0xff, 0xff, 1], vec![]));
    let good = Frame { version: 2, run: 7, sequence: 0, message: Message::Ready };
    assert!(!rejects_protocol(&[0, 1, 9], vec![Ok(good)]));
    let replay = Frame { version: 2, run: 7, sequence: 3, message: Message::Ready };
    assert!(rejects_protocol(&[0, 1, 9], vec![Ok(replay)]));
}

#[test]
fn answers_are_expected() {
    assert!(expect(Some(Message::Ready), Expected::Ready).is_ok());
    assert!(matches!(
        expect(Some(Message::Failure { errno: 13 }), Expected::Ready),
        Err(Refusal::Native(13))
    ));
    assert!(matches!(expect(None, Expected::Ready), Err(Refusal::Found(_))));
    assert!(matches!(expect(Some(Message::Hello), Expected::Retired), Err(Refusal::Found(_))));
    assert!(nothing_came(false).is_ok());
    assert_eq!(nothing_came(true).unwrap_err().kind, FaultKind::TimedOut);
    assert!(receive_wait(0) <= receive_wait(u64::MAX));
}

#[test]
fn transfers_go_on_until_done() {
    let mut transfer = Transfer { offset: 0, length: 5, write: true };
    assert!(matches!(transfer.proceed(false).unwrap(), TransferStep::More));
    assert!(transfer.proceed(true).is_err());
    assert!(matches!(transfer.moved(MoveEvent::Moved(3), 9).unwrap(), TransferStep::More));
    assert!(matches!(transfer.moved(MoveEvent::WouldBlock, 9).unwrap(), TransferStep::Wait(_)));
    assert!(matches!(transfer.moved(MoveEvent::Moved(2), 9).unwrap(), TransferStep::More));
    assert!(matches!(transfer.proceed(true).unwrap(), TransferStep::Done));
    let mut reading = Transfer { offset: 0, length: 5, write: false };
    assert!(matches!(reading.moved(MoveEvent::Moved(0), 9), Ok(TransferStep::Closed)));
}

#[test]
fn inventories_go_out_in_chunks_and_come_together() {
    let payload: Vec<u8> = (0..1300u32).map(|n| n as u8).collect();
    let mut output = InventoryOutput::new(3, payload.clone()).unwrap();
    let mut channel = Channel::new(7);
    let mut assembly = InventoryAssembly { payload: Vec::new() };
    let mut whole = None;
    output.turn();
    for _ in 0..1000 {
        match output.step() {
            OutputStep::Chunk { start, end, finished } => {
                let message = Some(Message::InventoryChunk {
                    query: 3,
                    bytes: payload[start..end].to_vec(),
                    finished,
                });
                if let Some(found) = assembly.take(message, "").unwrap() {
                    whole = Some(found);
                }
                output.encoded(b"encoded chunk").unwrap();
            }
            OutputStep::Write { start, end } => {
                match output.wrote(MoveEvent::Moved(end - start), &mut channel).unwrap() {
                    OutputProgress::Done => break,
                    OutputProgress::Pause => output.turn(),
                    OutputProgress::More => {}
                }
            }
            OutputStep::Pause => output.turn(),
        }
    }
    assert_eq!(whole.unwrap(), payload);
    assert_eq!(channel.sent, 3);
    let error = assembly.take(Some(Message::Hello), "Some(Hello)").unwrap_err();
    assert_eq!(error, "unexpected guardian inventory response: Some(Hello)");
    let detail = Message::FailureDetail { message: "no".to_string() };
    assert_eq!(assembly.take(Some(detail), "").unwrap_err(), "no");
    let long = Message::InventoryChunk { query: 3, bytes: vec![0; 513], finished: true };
    assert_eq!(
        assembly.take(Some(long), "").unwrap_err(),
        "guardian inventory response exceeds bound"
    );
}

#[test]
fn lanes_answer_in_turn() {
    let mut lane = InventoryLane::start(7);
    assert!(lane.submit(None).is_err());
    let text = b"ready";
    let frame = inventory_frame(text).unwrap();
    assert_eq!(&frame[..4], &[0, 0, 0, 5]);
    assert!(matches!(lane.poll(), LaneStep::Read));
    assert_eq!(lane.read(LaneRead::Data(frame)).unwrap().unwrap(), text.to_vec());
    lane.decode_submitted(true).unwrap();
    assert!(matches!(lane.poll(), LaneStep::AskDecoder));
    let reply = InventoryReply { members: Ok(vec![]), known: Identities::new(), sample: None };
    let said = CodecEvent::Decoded { run: 7, sequence: 0, reply, payload: vec![1] };
    assert_eq!(lane.decoder_said(said).unwrap().unwrap().1, vec![1]);
    assert!(lane.read(LaneRead::End).is_err());
    assert_eq!(ready(true, Ok(true)).unwrap_err().text.render(), "inspector readiness expired");
    assert_eq!(ready(false, Ok(true)).unwrap(), true);
    assert!(payload_fits(INVENTORY_FRAME_LIMIT).is_ok());
    assert!(payload_fits(INVENTORY_FRAME_LIMIT + 1).is_err());
}

#[test]
fn idle_lanes_are_shut_once() {
    let mut lane = InventoryLane::start(7);
    assert_eq!(lane.retire(), None);
    lane.pending = false;
    assert_eq!(lane.retire(), Some(true));
    let failed = Fault::new(FaultKind::Other, "not connected");
    assert_eq!(lane.shut(Err(failed)).unwrap_err().text.render(), "not connected");
    assert_eq!(lane.retire(), Some(true));
    assert!(lane.shut(Ok(())).is_ok());
    assert_eq!(lane.retire(), Some(false));
    assert!(lane.submit(None).is_err());
}

#[test]
fn empty_inventories_answer_every_metric() {
    assert!(inventory_answers_query(None, None, false, false));
    assert!(inventory_answers_query(Some(Metric::Rss), None, true, true));
    assert!(!inventory_answers_query(Some(Metric::Rss), None, false, false));
    let (answered, sample) = empty_inventory_query_transition(Some(Metric::Rss), None, true);
    assert!(answered);
    assert_eq!(sample, Some(Ok(0)));
    assert!(!nonempty_inventory_query_transition(Some(Metric::Rss), None, false));
    assert!(nonempty_inventory_query_transition(Some(Metric::Rss), Some(Metric::Rss), true));
}

#[test]
fn undescribed_members_stay_members() {
    let known: Vec<(i32, u64)> = vec![(100, 1), (101, 2)];
    let rows = vec![(100, 1, 1, 100, false)];
    let (result, left) = inventory_reconciliation(&known, &rows, &[101], &[101]);
    assert!(result.is_err());
    assert!(left.contains(&(101, 2)));
    let (result, left) = inventory_reconciliation(&known, &rows, &[], &[]);
    assert_eq!(result.unwrap(), vec![100]);
    assert_eq!(left, vec![(100, 1)]);
}

#[test]
fn reconciling_twice_changes_nothing() {
    let inventory = Inventory {
        snapshots: vec![member(100, 1, 1, 100), member(101, 2, 100, 100), member(300, 3, 1, 300)],
        unresolved: vec![],
    };
    let mut known = Identities::new();
    let first = reconcile_inventory(100, &mut known, &inventory, &vec![]).unwrap();
    let size = known.list.len();
    let second = reconcile_inventory(100, &mut known, &inventory, &vec![]).unwrap();
    assert_eq!(first.len(), 2);
    assert_eq!(second.len(), 2);
    assert_eq!(known.list.len(), size);
    assert!(known.has(101) && !known.has(300));
}

#[test]
fn identities_are_a_set() {
    let a = member(7, 1, 1, 7).identity;
    let mut set = Identities::new();
    assert!(set.insert(a));
    assert!(!set.insert(a));
    assert!(set.contains(a) && set.has(7) && !set.has(8));
    let mut more = set.duplicate();
    assert!(!more.extend(&set));
    more.insert(member(8, 1, 1, 7).identity);
    assert!(set.extend(&more));
}

#[test]
fn processes_are_described() {
    let info = BsdInfo { status: 5, ppid: 1, pgid: 7, start_seconds: 9, start_microseconds: 8 };
    let found = process_snapshot(7, 136, 136, info, fault(3)).unwrap();
    assert_eq!((found.identity.pid, found.identity.start_seconds), (7, 9));
    assert!(found.zombie);
    assert!(process_snapshot(7, 0, 136, info, fault(3)).is_err());
    let mut inventory = Inventory { snapshots: vec![], unresolved: vec![] };
    record_snapshot(&mut inventory, 7, Ok(found));
    record_snapshot(&mut inventory, 8, Err(fault(1)));
    record_snapshot(&mut inventory, 9, Err(fault(ESRCH)));
    assert_eq!(inventory.snapshots.len(), 1);
    assert_eq!(inventory.unresolved, vec![8]);
    assert!(decode_pid_inventory(1, &vec![1, 2, 3, 0], 8, &fault(1)).is_ok());
    assert!(matches!(process_usage(Metric::Rss), UsageSource::ResidentSize));
    assert_eq!(metric_name(Metric::Virtual), "virtual-size-sum");
}

#[test]
fn usage_is_added_up() {
    let reading = |pid: i32, usage: Result<u64, Fault>| UsageReading { pid, usage };
    assert_eq!(sample_native(&vec![reading(1, Ok(5)), reading(2, Ok(6))]), Ok(11));
    assert_eq!(sample_native(&vec![reading(1, Ok(5)), reading(2, Err(fault(ESRCH)))]), Ok(5));
    assert!(sample_native(&vec![reading(1, Err(fault(1)))]).is_err());
}

#[test]
fn only_the_listed_process_is_signalled() {
    let listed = member(7, 1, 1, 7);
    assert_eq!(signal_member(listed, Ok(listed)), Ok(true));
    assert_eq!(signal_member(listed, Ok(member(7, 2, 1, 7))), Ok(false));
    assert_eq!(signal_member(listed, Err(fault(ESRCH))), Ok(false));
    assert_eq!(
        signal_member(listed, Err(fault(1))),
        Err("guardian identity is unconfirmed: os error 1".to_string())
    );
    assert!(signal_sent(Ok(())).is_ok() && signal_sent(Err(fault(ESRCH))).is_ok());
    assert_eq!(signal_sent(Err(fault(1))), Err("os error 1".to_string()));
}

#[test]
fn kin_are_searched_where_something_is_undescribed() {
    let inventory = Inventory { snapshots: vec![member(100, 1, 1, 100)], unresolved: vec![101] };
    let (mut search, step) = Discovery::begin(100, &Identities::new(), &inventory);
    assert!(matches!(step, DiscoveryStep::ListGroup(100)));
    let step = search.group_listed(&vec![102]);
    assert!(matches!(step, DiscoveryStep::ListChildren(_)));
    let calm = Inventory { snapshots: vec![member(100, 1, 1, 100)], unresolved: vec![] };
    let (_, step) = Discovery::begin(100, &Identities::new(), &calm);
    assert!(matches!(step, DiscoveryStep::Reconcile));
}

fn control(fds: &[i32]) -> Vec<u8> {
    let mut bytes = ((12 + 4 * fds.len()) as u32).to_le_bytes().to_vec();
    bytes.extend_from_slice(&0xffff_i32.to_le_bytes());
    bytes.extend_from_slice(&1_i32.to_le_bytes());
    for fd in fds {
        bytes.extend_from_slice(&fd.to_le_bytes());
    }
    bytes
}

#[test]
fn descriptors_are_adopted_once() {
    let bytes = control(&[5, 6]);
    let rights = receive_rights(&bytes, bytes.len(), false);
    assert_eq!(rights.adopted, vec![5, 6]);
    assert!(!rights.invalid);
    let bytes = control(&[5, 5, -1]);
    let rights = receive_rights(&bytes, bytes.len(), false);
    assert_eq!(rights.adopted, vec![5]);
    assert!(rights.invalid);
    let bytes = control(&[5, 6]);
    let cut = receive_rights(&bytes, bytes.len() - 4, false);
    assert_eq!(cut.adopted, vec![5]);
    assert!(cut.invalid);
    assert!(receive_rights(&bytes, bytes.len(), true).invalid);
    assert!(receive_rights(&bytes, bytes.len() + 1, false).invalid);
}

fn settings() -> Settings {
    Settings { mask: 0, ignored: vec![1, 13], limits: vec![] }
}

#[test]
fn settings_are_restored() {
    let dispositions = settings().restore().unwrap();
    assert!(dispositions.iter().all(|one| one.signal != 9 && one.signal != 17));
    assert!(dispositions.iter().any(|one| one.signal == 13 && one.ignore));
    assert!(dispositions.iter().any(|one| one.signal == 2 && !one.ignore));
    assert!(Settings { ignored: vec![13, 1], ..settings() }.restore().is_err());
    assert!(Settings { ignored: vec![9], ..settings() }.restore().is_err());
}

#[test]
fn manifests_are_bound_to_their_run() {
    let manifest = |run: u64| Manifest {
        version: 1,
        run,
        destinations: vec![0, 1, 2],
        settings: settings(),
    };
    assert!(receive(&manifest(71), 4, 71, 3).is_ok());
    assert!(receive(&manifest(71), 4, 72, 3).is_err());
    assert!(receive(&manifest(71), 0, 71, 3).is_err());
    assert_eq!(private_floor(&vec![0, 9, 2]).unwrap(), 10);
    assert_eq!(private_floor(&vec![]).unwrap(), 3);
    assert!(private_floor(&vec![i32::MAX]).is_err());
    assert!(is_table_size(1024).is_ok() && is_table_size(2).is_err());
    assert!(capture_descriptor(true, 0).unwrap() != capture_descriptor(false, 0).unwrap());
    assert!(capture_descriptor(false, 128).is_err());
    assert!(manifest_length(4096).is_ok() && manifest_length(4097).is_err());
    assert!(receive_manifest_fixture(4097, 130).is_ok());
    assert!(receive_manifest_fixture(4098, 0).is_err() && receive_manifest_fixture(0, 131).is_err());
    let steps = actions(&vec![0, 5], true);
    assert!(steps.iter().any(|step| matches!(step, SpawnAction::Place { destination: 5, .. })));
}

#[test]
fn captures_wait_for_their_worker() {
    assert_eq!(capture_offered(WorkerEvent::Accepted, true).unwrap(), true);
    assert_eq!(capture_offered(WorkerEvent::Busy, false).unwrap(), false);
    assert_eq!(capture_offered(WorkerEvent::Busy, true).unwrap_err().kind, FaultKind::TimedOut);
    assert!(capture_offered(WorkerEvent::Gone, false).is_err());
    assert_eq!(capture_waited(WorkerEvent::Accepted, false).unwrap(), true);
    assert_eq!(
        capture_waited(WorkerEvent::Accepted, true).unwrap_err().text.render(),
        "caller capture remains owned in flight"
    );
    assert!(capture_waited(WorkerEvent::Gone, false).is_err());
    assert!(capture_admitted(false).is_ok() && capture_admitted(true).is_err());
}

fn configuration(startup: u64, work: Option<u64>) -> Option<Message> {
    Some(Message::Configure {
        image: b"/bin/m".to_vec(),
        boot_identity: "B".to_string(),
        startup,
        work,
        grace: 5,
    })
}

#[test]
fn guardians_take_on_what_lies_ahead() {
    match guardian_setup(configuration(100, Some(200)), 40, "B").unwrap() {
        SetupVerdict::Begin(setup) => {
            assert_eq!((setup.inspectors_within, setup.plan.grace), (60, 5));
            assert_eq!(setup.image, b"/bin/m".to_vec());
        }
        other => panic!("{other:?}"),
    }
    assert!(matches!(guardian_setup(configuration(100, None), 100, "B"), Ok(SetupVerdict::Late)));
    assert!(matches!(guardian_setup(configuration(100, Some(40)), 40, "B"), Ok(SetupVerdict::Late)));
    assert_eq!(
        guardian_setup(configuration(100, None), 40, "C").unwrap_err().text.render(),
        "guardian continuous clock boot binding mismatch"
    );
    assert_eq!(
        guardian_setup(Some(Message::Hello), 40, "B").unwrap_err().text.render(),
        "guardian requires immutable configuration"
    );
    assert_eq!(held_back(&Some(Message::HoldSpawn)), Some(false));
    assert_eq!(held_back(&Some(Message::HoldSpawnReleaseAfterCancel)), Some(true));
    assert_eq!(held_back(&configuration(1, None)), None);
}

#[test]
fn frontends_use_a_held_lease() {
    assert!(lease_usable(Lease::Held).is_ok());
    assert_eq!(
        lease_usable(Lease::Gone).unwrap_err().text.render(),
        "guardian lease unavailable"
    );
    match signal_stop(Lease::Held, 15, 100, Duration::from_nanos(7)).unwrap() {
        Message::SignalStop { signal, force } => assert_eq!((signal, force), (15, 107)),
        other => panic!("{other:?}"),
    }
    assert!(signal_stop(Lease::Poisoned, 15, 100, Duration::zero()).is_err());
    assert_eq!(
        signal_stop(Lease::Gone, 15, u64::MAX, Duration::from_nanos(1)).unwrap_err().kind,
        FaultKind::InvalidInput
    );
    assert_eq!(sampled(Ok(Some(Ok(5)))), Ok(5));
    assert_eq!(sampled(Ok(None)), Err("guardian sample response missing".to_string()));
    assert_eq!(sampled(Err("x".to_string())), Err("x".to_string()));
    assert!(query_due(false).is_ok() && query_due(true).is_err());
    assert!(alive(Ok(()), Ok(false)).is_ok());
    assert_eq!(
        alive(Ok(()), Ok(true)).unwrap_err().text.render(),
        "guardian exited before workload retirement"
    );
    assert_eq!(alive(Err(fault(32)), Ok(true)).unwrap_err().os_code, Some(32));
}

fn trial() -> TimerTrial {
    TimerTrial { trouble: None, retired: true, overran: false }
}

#[test]
fn timers_are_tried() {
    assert!(control_flood(&trial()).is_ok() && clock_jump(&trial()).is_ok());
    let overran = TimerTrial { overran: true, ..trial() };
    assert_eq!(
        control_flood(&overran).unwrap_err(),
        "valid control traffic starved the original native deadline"
    );
    assert!(timer_mutation_detected(&overran, "").is_ok());
    assert_eq!(
        timer_mutation_detected(&trial(), "Ok(())").unwrap_err(),
        "disabled guardian timer mutation escaped its deadline oracle: Ok(())"
    );
    let stuck = TimerTrial { retired: false, ..trial() };
    assert!(clock_jump(&stuck).unwrap_err().contains("complete owned retirement"));
    assert_eq!((timer_work(true), timer_work(false)), (30_000_000_000, 2_000_000_000));
}

#[test]
fn other_trials_are_judged() {
    assert!(repeated_stop(Some(ms(399))).is_ok());
    assert!(repeated_stop(Some(ms(400))).is_err() && repeated_stop(None).is_err());
    assert!(disarm_timeout(false, ms(250), true).is_ok());
    assert!(disarm_timeout(true, ms(1), true).is_err());
    assert!(disarm_timeout(false, ms(251), true).is_err());
    assert!(disarm_timeout(false, ms(1), false).is_err());
    assert!(running_guardian_loss(true, true, true).is_ok());
    assert!(running_guardian_loss(true, true, false).is_err());
    assert!(capacity_rejected(None, true).is_err());
    assert!(submillisecond_deadline(None, ms(1)).is_err());
    assert!(resource_recovery(0, 5, 5).is_ok());
    assert_eq!(
        resource_recovery(1, 6, 5).unwrap_err(),
        "repeated launch/failure leaked native child slots or private descriptors: retained=1, descriptors=6, baseline=5"
    );
    assert!(startup_fault(false).is_ok() && startup_fault(true).is_err());
}

fn stall() -> StallTrial {
    StallTrial {
        obligation: true,
        expired: Err("inspection deadline expired".to_string()),
        queued: Err("inspection deadline expired".to_string()),
        queued_shown: "queued".to_string(),
        full: Some(Err("inspector busy".to_string())),
        full_shown: "full".to_string(),
        stalled: Ok(Err("inspection deadline expired".to_string())),
        stalled_shown: "stalled".to_string(),
        emergency: true,
        retired: Ok(()),
    }
}

fn recovery() -> RecoveryTrial {
    RecoveryTrial {
        recovered: Ok(()),
        queued_executed: false,
        failure_preserved: true,
        settled: true,
    }
}

#[test]
fn stalled_inspectors_are_judged() {
    assert!(inspector_stall(&stall(), &recovery()).is_ok());
    let said = |trial: StallTrial| inspector_stall(&trial, &recovery()).unwrap_err();
    assert_eq!(
        said(StallTrial { obligation: false, ..stall() }),
        "stalled native inspection lost its runtime obligation"
    );
    assert_eq!(
        said(StallTrial { expired: Ok(()), ..stall() }),
        "expired monitoring inspection was admitted"
    );
    assert_eq!(
        said(StallTrial { full: None, ..stall() }),
        "queued inspection was not admitted: queued"
    );
    assert_eq!(
        said(StallTrial { queued: Ok(()), ..stall() }),
        "queued inspection did not time out: queued"
    );
    assert_eq!(
        said(StallTrial { full: Some(Ok(())), ..stall() }),
        "occupied inspector did not reject capacity: full"
    );
    assert_eq!(
        said(StallTrial { stalled: Err("gone".to_string()), ..stall() }),
        "stalled inspection caller did not return: gone"
    );
    assert_eq!(
        said(StallTrial { stalled: Ok(Ok(())), ..stall() }),
        "stalled inspection caller did not time out: stalled"
    );
    assert_eq!(
        said(StallTrial { emergency: false, ..stall() }),
        "emergency inspection was blocked by the stalled normal lane"
    );
    let after = |after: RecoveryTrial| inspector_stall(&stall(), &after).unwrap_err();
    assert_eq!(
        after(RecoveryTrial { queued_executed: true, ..recovery() }),
        "expired queued inspection executed after worker release"
    );
    assert_eq!(
        after(RecoveryTrial { settled: false, ..recovery() }),
        "completed or expired inspection retained an obligation"
    );
    assert_eq!(process_inspector_stall(false, true, true), Ok(true));
    assert_eq!(process_inspector_stall(false, false, false), Ok(false));
    assert!(process_inspector_stall(true, true, false).is_err());
    assert!(process_inspector_stall(false, false, true).is_err());
}

#[test]
fn custody_is_observed() {
    let seen = |observed: bool| Some(Message::Observed { pid: 7, observed });
    assert!(matches!(custody_wrapper(&seen(true), 7, true, ""), Ok(CustodyStep::Observed)));
    assert!(matches!(custody_wrapper(&seen(false), 7, false, ""), Ok(CustodyStep::AskAgain)));
    assert!(custody_wrapper(&seen(false), 7, true, "x").is_err());
    assert_eq!(
        custody_wrapper(&seen(true), 8, false, "shown").unwrap_err(),
        "unexpected guardian snapshot acknowledgment: shown"
    );
    assert_eq!(descendant(" 77 ready\n"), Ok(77));
    assert_eq!(descendant("  \n"), Err(RecordFault::Missing));
    assert_eq!(descendant("x"), Err(RecordFault::Number(NumberFault::InvalidDigit)));
    let stalled = Some(Message::InspectorsStalled { normal: 1, emergency: 2 });
    assert_eq!(guardian_inspector_wrapper(&stalled), Ok((1, 2)));
    assert!(guardian_inspector_wrapper(&None).is_err());
}

#[test]
fn transfers_are_judged() {
    let good = TransferTrial {
        present: true,
        flags_kept: true,
        contents_kept: true,
        directory_kept: true,
        wrong_run_taken: false,
        rightless_taken: false,
    };
    assert!(transfer_fixture(good).is_ok());
    let said = |trial: TransferTrial| transfer_fixture(trial).unwrap_err().text.render();
    assert_eq!(
        said(TransferTrial { wrong_run_taken: true, ..good }),
        "wrong-run manifest accepted"
    );
    assert_eq!(
        said(TransferTrial { directory_kept: false, wrong_run_taken: true, ..good }),
        "cwd change altered captured directory"
    );
    assert_eq!(
        said(TransferTrial { rightless_taken: true, ..good }),
        "missing descriptor rights accepted"
    );
    assert_eq!(
        said(TransferTrial { contents_kept: false, ..good }),
        "descriptor reuse changed captured source"
    );
    assert_eq!(
        said(TransferTrial { flags_kept: false, ..good }),
        "capture changed shared descriptor flags"
    );
}

#[test]
fn listings_are_read_with_their_error() {
    let pids = vec![4, 0, 9, 0];
    assert_eq!(pid_inventory_reply(1, &pids, 12, 0, "none".to_string()), Ok(vec![4, 9]));
    assert_eq!(pid_inventory_reply(2, &pids, 0, 0, "none".to_string()), Ok(vec![]));
    assert_eq!(
        pid_inventory_reply(2, &pids, 0, ESRCH, "gone".to_string()).unwrap_err(),
        "native PID inventory failed: gone"
    );
    assert_eq!(
        pid_inventory_reply(1, &pids, 16, 0, "none".to_string()).unwrap_err(),
        "native process inventory saturated; absence is unconfirmed"
    );
    assert_eq!(
        pid_inventory_reply(1, &pids, 6, 0, "none".to_string()).unwrap_err(),
        "native process inventory has an invalid byte count"
    );
}
