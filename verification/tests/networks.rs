use memcordon_platform::host_network::{
    frame_dump, no_notifications, notified, queue_drops, setting_bound, snapshots, stat_bound,
    watch_identity, watch_kept, watch_namespace, watched, Arrival, Beside, HostDumps,
    HostNetworkWatchV1, QueueFault, WatchIdentity, WatchParts,
};
use memcordon_platform::json::{object, Json};
use memcordon_platform::network::{
    check_packet, dump_request, joined_namespace, may_sample, nth_dump, observer_port, put_dump,
    put_leaf, restored_namespace, same_start, sample, sample_identity, setting_name, source_bound,
    start, still_held, CompleteDump, Dump, HeldTask, Leaf, SampleIdentity, SampleParts,
    SeenNamespaces, Sender, StartFault,
};
use memcordon_platform::time::Duration;
use memcordon_platform::unix_detector::{
    cleaned_up, detector_bound, detector_identity, isolated, planted_names, DetectorIdentity,
    PathLook, PlantedNames,
};

#[test]
fn objects_are_written_as_text() {
    let fields = vec![
        ("zulu", Json::Number(7)),
        ("alpha", Json::Text("a\"b\n".to_string())),
        ("mike", Json::Flag(true)),
        ("pairs", Json::Pairs(vec![(1, 2), (3, 4)])),
    ];
    let bytes = object(&fields).unwrap();
    let parsed: serde_json::Value = serde_json::from_slice(&bytes).unwrap();
    assert_eq!(parsed["zulu"], 7);
    assert_eq!(parsed["alpha"], "a\"b\n");
    assert_eq!(parsed["mike"], true);
    assert_eq!(parsed["pairs"][1][0], 3);
    assert_eq!(
        String::from_utf8(bytes).unwrap(),
        "{\"alpha\":\"a\\\"b\\n\",\"mike\":true,\"pairs\":[[1,2],[3,4]],\"zulu\":7}"
    );
    assert_eq!(object(&vec![]).unwrap(), b"{}");
}

fn stat(ticks: &str) -> Vec<u8> {
    let mut text = "77 (a) b) S".to_string();
    for n in 4..22 {
        text.push_str(&format!(" {n}"));
    }
    text.push_str(&format!(" {ticks} 23 24\n"));
    text.into_bytes()
}

#[test]
fn start_times_are_read() {
    assert_eq!(start(&stat("4242"), 77).unwrap(), 4242);
    assert!(matches!(start(&stat("x"), 77), Err(StartFault::Number(_))));
    assert!(matches!(start(b"77 a", 77), Err(StartFault::Found(_))));
    assert!(matches!(start(&[0xff, 0xfe], 77), Err(StartFault::NotText)));
    assert!(matches!(start(&stat("4242"), 78), Err(StartFault::Found(_))));
}

#[test]
fn samples_need_a_privileged_observer() {
    assert!(may_sample(77, 1, 0).is_ok());
    assert!(may_sample(77, 1, 1000).is_err());
    assert!(may_sample(0, 1, 0).is_err());
    assert!(may_sample(77, 0, 0).is_err());
    assert!(same_start(5, 5).is_ok() && same_start(5, 6).is_err());
    assert!(joined_namespace(5, 5).is_ok() && joined_namespace(5, 6).is_err());
    assert!(still_held(1, 1, 2, 2).is_ok() && still_held(1, 1, 2, 3).is_err());
    assert!(restored_namespace(true, 4, 4).is_ok());
    assert!(restored_namespace(false, 4, 4).is_err() && restored_namespace(true, 4, 5).is_err());
    assert_eq!(observer_port(true, true, 9).unwrap(), 9);
    assert!(observer_port(true, true, 0).is_err() && observer_port(false, true, 9).is_err());
    assert!(source_bound(1_048_576).is_ok() && source_bound(1_048_577).is_err());
}

fn message(kind: u16, flags: u16, port: u32, body: &[u8]) -> Vec<u8> {
    let mut out = ((16 + body.len()) as u32).to_ne_bytes().to_vec();
    out.extend_from_slice(&kind.to_ne_bytes());
    out.extend_from_slice(&flags.to_ne_bytes());
    out.extend_from_slice(&1u32.to_ne_bytes());
    out.extend_from_slice(&port.to_ne_bytes());
    out.extend_from_slice(body);
    out
}

#[test]
fn requests_name_their_port() {
    let request = dump_request(18, 16, 99);
    assert_eq!(request.len(), 32);
    assert_eq!(&request[0..4], &32u32.to_ne_bytes());
    assert_eq!(&request[4..6], &18u16.to_ne_bytes());
    assert_eq!(&request[12..16], &99u32.to_ne_bytes());
    assert!(request[16..].iter().all(|byte| *byte == 0));
}

#[test]
fn dumps_end_once() {
    let mut dump = Dump::begin(99, 16);
    let sender = || Sender { length_fits: true, netlink: true, pid: 0, groups: 0 };
    assert_eq!(dump.next_wait(Duration::zero(), Duration::from_millis(7)).unwrap(), 7);
    assert!(dump.next_wait(Duration::from_millis(7), Duration::from_millis(7)).is_err());
    let packet = message(16, 2, 99, &[1, 2, 3, 4]);
    assert_eq!(dump.received(packet.len() as i64, packet.clone(), sender()).unwrap(), false);
    let end = message(3, 2, 99, &0u32.to_ne_bytes());
    assert_eq!(dump.received(end.len() as i64, end, sender()).unwrap(), true);
    assert_eq!(dump.packets.len(), 2);
    assert!(Dump::waited(true).is_ok() && Dump::waited(false).is_err());
}

#[test]
fn foreign_packets_are_refused() {
    let packet = || message(16, 2, 99, &[1, 2, 3, 4]);
    let good = Sender { length_fits: true, netlink: true, pid: 0, groups: 0 };
    for sender in [
        Sender { pid: 5, ..good },
        Sender { groups: 1, ..good },
        Sender { netlink: false, ..good },
        Sender { length_fits: false, ..good },
    ] {
        assert!(Dump::begin(99, 16).received(20, packet(), sender).is_err());
    }
    assert!(check_packet(&message(16, 2, 98, &[1, 2, 3, 4]), 99, 16).is_err());
    assert!(check_packet(&message(17, 2, 99, &[1, 2, 3, 4]), 99, 16).is_err());
    assert!(check_packet(&packet()[..18], 99, 16).is_err());
    assert!(Dump::begin(99, 16).received(0, vec![], good).is_err());
}

#[test]
fn leaves_keep_their_order() {
    let mut leaves = Vec::new();
    put_leaf(&mut leaves, "a".to_string(), vec![1]);
    put_dump(&mut leaves, "links", vec![2], vec![vec![3], vec![4]]);
    let names: Vec<&str> = leaves.iter().map(|leaf| leaf.name.as_str()).collect();
    assert_eq!(names.len(), 4);
    assert_eq!(names[0], "a");
    assert!(names[1..].iter().all(|name| name.contains("links")));
    assert_eq!(nth_dump(0).unwrap().response, 16);
    assert!(nth_dump(3).is_none());
    assert!(setting_name(0).is_some() && setting_name(4).is_none());
}

fn sampled(
    task: HeldTask,
    seen: SeenNamespaces,
    before: Vec<u8>,
    after: Vec<u8>,
) -> Result<Vec<Leaf>, StartFault> {
    let dump = || CompleteDump { sent: vec![1], packets: vec![vec![2], vec![3]] };
    sample(
        task,
        seen,
        SampleParts {
            reader_before: vec![9],
            port_start: vec![],
            forward: vec![],
            port_range: vec![],
            reserved_ports: vec![],
            links: dump(),
            addresses: dump(),
            routes: dump(),
            status: vec![],
            target_before: before,
            target_after: after,
            reader_after: vec![],
            begin: 3,
            end: 4,
        },
    )
}

#[test]
fn samples_are_of_the_held_task() {
    let task = HeldTask { pid: 77, ticks: 4242, user: 0 };
    let seen =
        SeenNamespaces { target: 5, original: 6, joined: 5, held: 5, restored: true, found: 6 };
    let same = || stat("4242");
    let leaves = sampled(task, seen, same(), same()).unwrap();
    assert_eq!(leaves.len(), 19);
    assert_eq!((leaves[0].name.as_str(), leaves[0].bytes.as_slice()), ("reader-stat.raw", &[9][..]));
    assert_eq!(leaves[18].name, "identity.json");
    let identity: serde_json::Value = serde_json::from_slice(&leaves[18].bytes).unwrap();
    assert_eq!(identity["target_start_ticks"], 4242);
    assert_eq!(identity["host_netns_inode"], 6);
    assert_eq!(identity["target_netns_inode"], 5);
    let said = |task: HeldTask, seen: SeenNamespaces, before: &str, after: &str| {
        match sampled(task, seen, stat(before), stat(after)).unwrap_err() {
            StartFault::Found(fault) => fault.text.render(),
            other => panic!("{other:?}"),
        }
    };
    let user = HeldTask { user: 1000, ..task };
    assert_eq!(
        said(user, seen, "4242", "4242"),
        "network sampling requires held task and root observer"
    );
    assert_eq!(said(task, seen, "4243", "4242"), "network target start changed");
    let away = SeenNamespaces { restored: false, ..seen };
    assert_eq!(
        said(task, away, "4242", "4242"),
        "network observer namespace restoration failed"
    );
    let elsewhere = SeenNamespaces { found: 7, ..seen };
    assert_eq!(
        said(task, elsewhere, "4242", "4242"),
        "restored observer network namespace differs"
    );
    let apart = SeenNamespaces { joined: 7, ..seen };
    assert_eq!(said(task, apart, "4242", "4242"), "joined network namespace differs");
    let moved = SeenNamespaces { held: 7, ..seen };
    assert_eq!(said(task, moved, "4242", "4242"), "held network task changed during sample");
    assert_eq!(said(task, seen, "4242", "4243"), "held network task changed during sample");
    assert!(matches!(sampled(task, seen, same(), vec![0xff]), Err(StartFault::NotText)));
    assert!(matches!(sampled(task, seen, stat("x"), same()), Err(StartFault::Number(_))));
}

#[test]
fn identities_are_written() {
    let bytes = sample_identity(SampleIdentity {
        pid: 77,
        ticks: 4242,
        original_inode: 1,
        target_inode: 2,
        begin: 3,
        end: 4,
    })
    .unwrap();
    let parsed: serde_json::Value = serde_json::from_slice(&bytes).unwrap();
    let text = parsed.to_string();
    assert!(text.contains("4242") && text.contains("77"));
}

#[test]
fn watches_are_pinned() {
    let watch = HostNetworkWatchV1::start(0, vec![(1, 2), (3, 4), (5, 6), (7, 8)]).unwrap();
    assert_eq!(watch.object_pins().len(), 4);
    for pins in [vec![], vec![(1, 2), (3, 4), (5, 6)], vec![(1, 2), (3, 4), (5, 6), (1, 2)]] {
        assert_eq!(
            HostNetworkWatchV1::start(0, pins).unwrap_err().text.render(),
            "host object pins differ"
        );
    }
    assert!(watch.still_pinned(1, (3, 4)).is_ok());
    assert!(watch.still_pinned(1, (3, 5)).is_err());
    assert!(HostNetworkWatchV1::start(1000, vec![(1, 2), (3, 4), (5, 6), (7, 8)]).is_err());
    assert!(HostNetworkWatchV1::finish(false, false, false).is_ok());
    let said = |stopped: bool, joined: bool, panicked: bool| {
        HostNetworkWatchV1::finish(stopped, joined, panicked).unwrap_err().text.render()
    };
    assert_eq!(said(true, true, true), "host watch already stopped");
    assert_eq!(said(false, true, true), "host watch thread absent");
    assert_eq!(said(false, false, true), "host watch thread panicked");
    assert!(watch_namespace(5, 5, 5).is_ok() && watch_namespace(5, 6, 5).is_err());
    assert!(watch_kept(1, 1, 2, 2).is_ok() && watch_kept(1, 2, 2, 2).is_err());
    assert!(setting_bound(1).is_ok() && stat_bound(1).is_ok());
    assert!(setting_bound(0).is_err() && setting_bound(4097).is_err());
}

#[test]
fn lost_notifications_are_found() {
    let table = |drops: &str, inode: u64| {
        format!(
            "sk Eth Pid Groups Rmem Wmem Dump Locks Drops Inode\nff 0 9 00000551 0 0 0 2 {drops} {inode}\n"
        )
        .into_bytes()
    };
    assert!(queue_drops(&table("0", 31), 31).is_ok());
    assert!(queue_drops(&table("3", 31), 31).is_err());
    assert!(queue_drops(&table("0", 30), 31).is_err());
    assert!(matches!(queue_drops(&[0xff], 31), Err(QueueFault::NotText)));
}

#[test]
fn dumps_are_framed() {
    let framed = frame_dump(&vec![vec![9, 8], vec![7]]);
    assert_eq!(&framed[0..8], b"MCHD\x01\0\0\0");
    assert!(framed.ends_with(&[7]));
    let mut notes = no_notifications();
    assert_eq!(&notes[0..4], b"MCHN");
    let length = notes.len();
    let quiet = Arrival { truncated: false, length_fits: true, netlink: true, pid: 0 };
    assert!(notified(&mut notes, 2, &vec![5, 6], quiet, &[], 11).is_ok());
    assert!(notes.len() > length && notes.ends_with(&[5, 6]));
    let cut = Arrival { truncated: true, ..quiet };
    assert!(notified(&mut notes, 2, &vec![5, 6], cut, &[], 11).is_err());
    assert!(notified(&mut notes, 2, &vec![5, 6], quiet, &[Beside::Lost(1)], 11).is_err());
}

#[test]
fn watches_are_told_whole() {
    let dump = || CompleteDump { sent: vec![1], packets: vec![vec![2]] };
    let mut leaves = Vec::new();
    snapshots(
        &mut leaves,
        "before",
        &vec![vec![1], vec![2], vec![3], vec![4]],
        HostDumps { links: dump(), addresses: dump(), routes: dump() },
    );
    assert!(leaves.iter().all(|leaf| leaf.name.contains("before")));
    let identity = watch_identity(WatchIdentity {
        pid: 1,
        netns: 2,
        begin: 3,
        end: 4,
        pins: vec![(5, 6)],
        socket_inode: 7,
    })
    .unwrap();
    let parts = WatchParts {
        notifications: no_notifications(),
        stat_before: vec![],
        stat_after: vec![],
        queue_before: vec![],
        queue_after: vec![],
        identity,
    };
    let before = leaves.len();
    assert_eq!(watched(leaves, parts).unwrap().len(), before + 6);
}

#[test]
fn detectors_plant_names_of_their_own() {
    let names = planted_names(0, &[0xab; 32]).unwrap();
    assert!(names.pathname.contains("abab") || names.abstract_name.contains("abab"));
    assert!(planted_names(1000, &[0xab; 32]).is_err());
    assert!(isolated(1, 2, 3, 4).is_ok() && isolated(1, 2, 1, 4).is_err());
    assert!(cleaned_up(3, 4, 3, 4, PathLook::Gone).is_ok());
    assert!(cleaned_up(3, 4, 3, 4, PathLook::There).is_err());
    assert!(cleaned_up(3, 4, 5, 4, PathLook::Gone).is_err());
    assert!(detector_bound(1).is_ok());
    let bytes = detector_identity(DetectorIdentity {
        names: PlantedNames { pathname: "p".to_string(), abstract_name: "a".to_string() },
        original_net: 1,
        original_mount: 2,
        net: 3,
        mount: 4,
        pathname_fd: 5,
        pathname_socket: 6,
        abstract_fd: 7,
        abstract_socket: 8,
        pathname_device: 9,
        pathname_inode: 10,
        pathname_mode: 11,
        pathname_uid: 0,
        begin: 12,
        held: 13,
    })
    .unwrap();
    let parsed: serde_json::Value = serde_json::from_slice(&bytes).unwrap();
    assert!(parsed.is_object());
}
