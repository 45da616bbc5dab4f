use memcordon_platform::linux_cgroup::{
    configure, counter_value, create_cgroup, decode_launcher_status, has_memory_controller,
    has_own_name, is_delegate_marker, limit_delta, memory_events, parse_key_values, parse_u64_file,
    populated, probe_result, read_back, termination, unified_membership, verify_member,
    LauncherStatus, MemoryEvents,
};
use memcordon_platform::evidence::ChildTermination;
use memcordon_platform::linux_delegation::{
    check_probe_cgroup, has_systemd_delegate_marker, marker_path, probe_action, probe_not_created,
    probe_not_removed, Delegation, DelegationAction, DelegationStage, ProbeAction, ProbeEvent,
    PROBE_STEPS,
};
use memcordon_platform::model::{Fault, FaultKind, Text};
use memcordon_platform::policy::{
    BoundaryRequirement, Enforcement, Lifetime, Metric, Policy, SwapPolicy,
};
use memcordon_platform::time::Duration;

fn policy(memory: Option<u64>, swap: SwapPolicy) -> Policy {
    Policy {
        memory,
        swap,
        deadline: None,
        lifetime: Lifetime::Command,
        enforcement: Enforcement::Hard,
        metric: Metric::Native,
        boundary: BoundaryRequirement::Standard,
        poll_interval: Duration::from_millis(50),
        signal_grace: Duration::zero(),
        command_exit_grace: Duration::zero(),
        limit_grace: Duration::zero(),
    }
}

#[test]
fn counters_are_read() {
    let list = parse_key_values("low 0\nmax 3\nmax 4\n").unwrap();
    assert_eq!(counter_value(&list, "max"), 4);
    assert_eq!(counter_value(&list, "oom"), 0);
    let events = memory_events("max 1\noom 2\noom_kill 3\noom_group_kill 4\n").unwrap();
    assert_eq!(events, MemoryEvents { max: 1, oom: 2, oom_kill: 3, oom_group_kill: 4 });
    assert!(populated("populated 1\nfrozen 0").unwrap());
    assert!(!populated("frozen 0").unwrap());
    assert_eq!(
        parse_key_values("\n").unwrap_err().text.render(),
        "missing cgroup counter name"
    );
}

#[test]
fn the_gravest_rise_is_named() {
    let zero = MemoryEvents { max: 0, oom: 0, oom_kill: 0, oom_group_kill: 0 };
    assert!(limit_delta(zero, zero).is_none());
    let delta = limit_delta(zero, MemoryEvents { max: 2, oom_kill: 1, ..zero }).unwrap();
    assert_eq!(delta.detail(), "memory.events max increased from 0 to 2");
    let delta = limit_delta(zero, MemoryEvents { oom_group_kill: 1, ..zero }).unwrap();
    assert_eq!(delta.key, "oom_group_kill");
    let sunk = limit_delta(MemoryEvents { max: 5, ..zero }, zero);
    assert!(sunk.is_none());
}

#[test]
fn single_values_are_read() {
    assert_eq!(parse_u64_file("/g/memory.current", " 4096\n"), Ok(4096));
    assert_eq!(
        parse_u64_file("/g/memory.current", "max\n"),
        Err("invalid value in /g/memory.current: invalid digit found in string".to_string())
    );
}

#[test]
fn launchers_are_looked_for_in_their_group() {
    assert!(verify_member("12\n 345 \n", 345).is_ok());
    assert_eq!(
        verify_member("12\n3456\n", 345).unwrap_err().text.render(),
        "gated launcher cgroup assignment did not persist"
    );
}

fn status(kind: u8, errno: i32) -> Vec<u8> {
    let mut record = b"MCLS".to_vec();
    record.extend_from_slice(&[1, kind, 0, 0]);
    record.extend_from_slice(&errno.to_le_bytes());
    record
}

#[test]
fn launcher_records_are_read() {
    assert_eq!(decode_launcher_status(&status(1, 0), false).unwrap(), LauncherStatus::Ready);
    assert_eq!(decode_launcher_status(&status(2, 13), false).unwrap(), LauncherStatus::Error(13));
    let mut turned = status(2, 0);
    turned[11] = 13;
    assert_eq!(decode_launcher_status(&turned, true).unwrap(), LauncherStatus::Error(13));
    assert_eq!(decode_launcher_status(&turned, false).unwrap(), LauncherStatus::Error(13 << 24));
    let wrong = "MemCordon launcher sent an invalid status kind or errno";
    for record in [status(1, 1), status(2, 0), status(2, -1), status(3, 0)] {
        let fault = decode_launcher_status(&record, false).unwrap_err();
        assert_eq!(fault.kind, FaultKind::InvalidData);
        assert_eq!(fault.text.render(), wrong);
    }
    let mut record = status(1, 0);
    record[4] = 2;
    assert_eq!(
        decode_launcher_status(&record, false).unwrap_err().text.render(),
        "MemCordon launcher sent an invalid status record"
    );
    assert!(decode_launcher_status(&[0u8; 12], false).is_err());
}

#[test]
fn limits_become_writes() {
    let (writes, result) = configure(&policy(Some(1000), SwapPolicy::Bytes(5)), true, true);
    assert!(result.is_ok());
    let shown: Vec<(&str, &str)> =
        writes.iter().map(|write| (write.file, write.content.as_str())).collect();
    assert_eq!(
        shown,
        vec![("memory.oom.group", "1\n"), ("memory.max", "1000\n"), ("memory.swap.max", "5\n")]
    );
    let (writes, result) = configure(&policy(None, SwapPolicy::Bytes(5)), true, true);
    assert!(writes.is_empty() && result.is_ok());
    let (_, result) = configure(&policy(Some(1), SwapPolicy::Bytes(5)), false, false);
    assert_eq!(
        result.unwrap_err().text.render(),
        "resolved swap policy requires memory.swap.max"
    );
    let (writes, result) = configure(&policy(Some(1), SwapPolicy::Unlimited), false, true);
    assert!(result.is_ok());
    assert_eq!(writes[1].content, "max\n");
    let (writes, _) = configure(&policy(Some(1), SwapPolicy::Host), false, true);
    assert_eq!(writes.len(), 1);
}

#[test]
fn memberships_are_read() {
    assert_eq!(
        unified_membership("1:cpu:/x\n0::/user.slice/a.scope\n"),
        Some("user.slice/a.scope".to_string())
    );
    assert_eq!(unified_membership("0::/\n"), Some(String::new()));
    assert_eq!(unified_membership("1:cpu:/x\n"), None);
    assert!(is_delegate_marker(b"1"));
    assert!(!is_delegate_marker(b"11"));
    assert!(has_memory_controller("cpu memory pids\n"));
    assert!(!has_memory_controller("cpu memory.x\n"));
}

#[test]
fn groups_are_named_after_their_maker() {
    let name = create_cgroup(1000, 77, 0x1f);
    assert_eq!(name, "memcordon-1000-77-1f");
    assert!(has_own_name(&name, 1000));
    assert!(!has_own_name(&name, 100));
    assert!(!has_own_name("memcordon-1000", 1000));
}

#[test]
fn probes_tell_both_faults() {
    assert!(probe_result(Ok(()), Ok(())).is_ok());
    assert_eq!(probe_result(Err("a".into()), Ok(())), Err("a".to_string()));
    assert_eq!(probe_result(Ok(()), Err("b".into())), Err("b".to_string()));
    assert_eq!(probe_result(Err("a".into()), Err("b".into())), Err("a; b".to_string()));
    assert!(read_back("max\n", "max"));
    assert!(!read_back("maximum\n", "max"));
}

#[test]
fn ends_are_classified() {
    assert_eq!(termination(Some(3), None), ChildTermination::ExitCode { code: 3 });
    assert_eq!(termination(None, Some(9)), ChildTermination::UnixSignal { signal: 9 });
    assert_eq!(termination(None, None), ChildTermination::Unavailable);
}

#[test]
fn searches_go_up_to_the_marked_group() {
    let lines = "0::/user.slice/user-1.slice/s.scope/leaf\n".to_string();
    let mut search = Delegation::begin(Ok(()), Ok(lines), true).unwrap();
    assert_eq!(search.current, "/sys/fs/cgroup/user.slice/user-1.slice/s.scope/leaf");
    assert_eq!(search.candidate, "/sys/fs/cgroup/user.slice/user-1.slice/s.scope");
    assert_eq!(search.marked(Ok(false)), Ok(DelegationAction::ReadMarker));
    assert_eq!(search.candidate, "/sys/fs/cgroup/user.slice/user-1.slice");
    assert_eq!(search.marked(Ok(true)), Ok(DelegationAction::ReadMembers));
    assert_eq!(search.members(Ok(" \n".to_string())), Ok(DelegationAction::ReadControllers));
    assert_eq!(search.controllers(Ok("cpu memory".to_string())), Ok(DelegationAction::ReadEnabled));
    assert_eq!(search.enabled(Ok("cpu".to_string())), Ok(DelegationAction::EnableMemory));
    assert_eq!(search.memory_enabled(Ok(())), Ok(DelegationAction::ReadEnabled));
    assert_eq!(search.verified(Ok("cpu memory".to_string())), Ok(DelegationAction::Prepared));
    assert_eq!(search.stage, DelegationStage::Over);
}

#[test]
fn searches_stop_below_the_mount() {
    let mut search = Delegation::begin(Ok(()), Ok("0::/a/b\n".to_string()), true).unwrap();
    assert_eq!(search.candidate, "/sys/fs/cgroup/a");
    assert_eq!(
        search.marked(Ok(false)),
        Err("process cgroup /sys/fs/cgroup/a/b is not below a marked systemd delegation boundary"
            .to_string())
    );
    assert_eq!(
        Delegation::begin(Ok(()), Ok("0::/a\n".to_string()), true).unwrap_err(),
        "process cgroup /sys/fs/cgroup/a is not below a marked systemd delegation boundary"
    );
}

#[test]
fn searches_from_the_root_group_leave_the_mount() {
    let mut search = Delegation::begin(Ok(()), Ok("0::/\n".to_string()), false).unwrap();
    assert_eq!(search.candidate, "/sys/fs");
    assert_eq!(search.marked(Ok(false)), Ok(DelegationAction::ReadMarker));
    assert_eq!(search.candidate, "/sys");
    assert_eq!(search.marked(Ok(false)), Ok(DelegationAction::ReadMarker));
    assert_eq!(search.candidate, "/");
    assert!(search.marked(Ok(false)).is_err());
}

#[test]
fn odd_paths_have_the_parents_of_the_standard_library() {
    let relative = "a//b/./c/";
    let search = Delegation::begin(Ok(()), Ok(format!("0::/{relative}\n")), true).unwrap();
    let path = std::path::PathBuf::from("/sys/fs/cgroup").join(relative);
    assert_eq!(std::path::Path::new(&search.candidate), path.parent().unwrap());
    assert_eq!(search.candidate, path.parent().unwrap().to_str().unwrap());
}

fn marked() -> Delegation {
    let mut search = Delegation::begin(Ok(()), Ok("0::/a/b\n".to_string()), true).unwrap();
    search.marked(Ok(true)).unwrap();
    search
}

#[test]
fn searches_tell_what_they_could_not_read() {
    assert_eq!(
        Delegation::begin(Err("e".into()), Ok("0::/a/b".into()), true).unwrap_err(),
        "cgroup v2 unified hierarchy unavailable: e"
    );
    assert_eq!(
        Delegation::begin(Ok(()), Err("e".into()), true).unwrap_err(),
        "cannot read process cgroup membership: e"
    );
    assert_eq!(
        Delegation::begin(Ok(()), Ok("1:cpu:/a".into()), true).unwrap_err(),
        "process is not in a unified cgroup v2 hierarchy"
    );
    let at = "/sys/fs/cgroup/a";
    assert_eq!(
        marked().members(Err("e".into())),
        Err(format!("cannot read delegation-root membership at {at}: e"))
    );
    assert_eq!(
        marked().members(Ok("7\n".into())),
        Err(format!("systemd delegation root {at} contains processes"))
    );
    let mut search = marked();
    search.members(Ok(String::new())).unwrap();
    assert_eq!(
        search.controllers(Err("e".into())),
        Err(format!("cannot read delegated controllers at {at}: e"))
    );
    let mut search = marked();
    search.members(Ok(String::new())).unwrap();
    assert_eq!(
        search.controllers(Ok("cpu".into())),
        Err(format!("systemd delegation root {at} does not delegate the memory controller"))
    );
    let enabled = || {
        let mut search = marked();
        search.members(Ok(String::new())).unwrap();
        search.controllers(Ok("memory".into())).unwrap();
        search
    };
    assert_eq!(
        enabled().enabled(Err("e".into())),
        Err(format!("cannot read cgroup.subtree_control at {at}: e"))
    );
    let mut search = enabled();
    search.enabled(Ok(String::new())).unwrap();
    assert_eq!(
        search.memory_enabled(Err("e".into())),
        Err(format!("cannot enable memory controller at systemd delegation root {at}: e"))
    );
    let mut search = enabled();
    assert_eq!(search.enabled(Ok("memory".into())), Ok(DelegationAction::ReadEnabled));
    assert_eq!(
        search.verified(Err("e".into())),
        Err(format!("cannot verify cgroup.subtree_control at {at}: e"))
    );
    let mut search = enabled();
    search.enabled(Ok("memory".into())).unwrap();
    assert_eq!(
        search.verified(Ok("cpu".into())),
        Err(format!("memory controller did not remain enabled at systemd delegation root {at}"))
    );
    let mut search = Delegation::begin(Ok(()), Ok("0::/a/b\n".to_string()), false).unwrap();
    search.marked(Ok(true)).unwrap();
    assert_eq!(search.members(Ok(String::new())), Ok(DelegationAction::Prepared));
}

#[test]
fn markers_are_read() {
    assert!(marker_path("/sys/a").is_ok());
    assert_eq!(
        marker_path("/sys/\0").unwrap_err(),
        "cgroup path /sys/\0 contains an interior NUL byte"
    );
    assert_eq!(has_systemd_delegate_marker("/a", Ok(b"1".to_vec())), Ok(true));
    assert_eq!(has_systemd_delegate_marker("/a", Ok(b"0".to_vec())), Ok(false));
    let fault = |code: i32| Fault {
        kind: FaultKind::Other,
        os_code: Some(code),
        text: Text::Given("no".to_string()),
    };
    assert_eq!(has_systemd_delegate_marker("/a", Err(fault(61))), Ok(false));
    assert_eq!(
        has_systemd_delegate_marker("/a", Err(fault(13))),
        Err("cannot inspect systemd delegation marker on /a: no".to_string())
    );
}

#[test]
fn probes_try_everything_in_order() {
    let script: Vec<ProbeAction> = (0..PROBE_STEPS).map(probe_action).collect();
    assert!(matches!(script[2], ProbeAction::Exists("cgroup.kill")));
    assert!(matches!(script[11], ProbeAction::Read("memory.max")));
    assert!(matches!(script[12], ProbeAction::Write("memory.max", "max\n")));
    assert!(matches!(script[13], ProbeAction::ReadBack("memory.max", "max")));
    assert!(matches!(script[14], ProbeAction::Write("memory.swap.max", "0\n")));
    assert!(matches!(script[15], ProbeAction::ReadBack("memory.swap.max", "0")));
}

#[test]
fn probes_tell_what_failed() {
    let failed = ProbeEvent::Failed("e".to_string());
    assert_eq!(
        check_probe_cgroup(probe_action(2), &ProbeEvent::Missing, "/g").unwrap_err(),
        "probe cgroup /g lacks cgroup.kill"
    );
    assert_eq!(
        check_probe_cgroup(probe_action(7), &failed, "/g").unwrap_err(),
        "cannot read cgroup.procs in probe cgroup /g: e"
    );
    assert_eq!(
        check_probe_cgroup(probe_action(12), &failed, "/g").unwrap_err(),
        "cannot write memory.max in probe cgroup /g: e"
    );
    assert_eq!(
        check_probe_cgroup(probe_action(15), &failed, "/g").unwrap_err(),
        "cannot read back memory.swap.max in probe cgroup /g: e"
    );
    let content = |text: &str| ProbeEvent::Content { text: text.to_string(), shown: format!("{text:?}") };
    assert!(check_probe_cgroup(probe_action(13), &content("max\n"), "/g").is_ok());
    assert_eq!(
        check_probe_cgroup(probe_action(13), &content("7\n"), "/g").unwrap_err(),
        "memory.max read-back in probe cgroup /g was \"7\\n\""
    );
    assert!(check_probe_cgroup(probe_action(0), &ProbeEvent::Done, "/g").is_ok());
    assert_eq!(probe_not_created("/p", "e"), "cannot create a probe cgroup under /p: e");
    assert_eq!(probe_not_removed("/g", "e"), "cannot remove the empty probe cgroup /g: e");
}
