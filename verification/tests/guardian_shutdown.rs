use memcordon_platform::guardian::{
    bounded_pause, is_gone, poll_pause, poll_shutdown, process_group, DisarmAction, DisarmStage,
    Guardian, GuardianShutdown, Operations, Proofs, ShutdownAction,
};
use memcordon_platform::model::{Fault, FaultKind, Text, ESRCH};
use memcordon_platform::time::Duration;

fn fault(code: i32) -> Fault {
    Fault { kind: FaultKind::Other, os_code: Some(code), text: Text::Given(format!("os error {code}")) }
}

fn ms(n: u64) -> Duration {
    Duration::from_millis(n)
}

#[test]
fn pauses_are_bounded() {
    assert_eq!(bounded_pause(Duration::from_nanos(1_500_000)), 1);
    assert_eq!(bounded_pause(Duration::from_secs(u64::MAX)), i32::MAX);
    assert_eq!(poll_pause(ms(100), ms(0)), ms(10));
    assert_eq!(poll_pause(ms(100), ms(96)), ms(4));
    assert_eq!(poll_pause(ms(100), ms(200)), Duration::zero());
}

#[test]
fn groups_are_named_by_small_numbers() {
    assert_eq!(process_group(0), None);
    assert_eq!(process_group(7), Some(7));
    assert_eq!(process_group(i32::MAX as u32), Some(i32::MAX));
    assert_eq!(process_group(u32::MAX), None);
    assert!(is_gone(&fault(ESRCH)));
    assert!(!is_gone(&fault(1)));
    assert!(!is_gone(&Fault::new(FaultKind::Other, "x")));
}

#[test]
fn a_look_records_what_failed() {
    let none = Proofs {
        child_reaped: false,
        reap_failed: false,
        group_absent: false,
        group_check_failed: false,
    };
    let ops = Operations { reap: "reap", verify_group: "verify" };
    let mut errors = Vec::new();
    let proofs = poll_shutdown(none, ops, Err(fault(10)), Err(fault(ESRCH)), &mut errors);
    assert!(proofs.reap_failed && proofs.group_absent && !proofs.child_reaped);
    assert!(proofs.is_settled());
    assert_eq!(errors.len(), 1);
    assert_eq!(errors[0].render(), "reap: os error 10");
    let proofs = poll_shutdown(none, ops, Ok(true), Err(fault(1)), &mut errors);
    assert!(proofs.child_reaped && proofs.group_check_failed);
    assert_eq!(errors[1].render(), "verify: os error 1");
    let proofs = poll_shutdown(none, ops, Ok(false), Ok(()), &mut errors);
    assert_eq!(proofs, none);
    assert!(!proofs.is_settled());
    assert_eq!(errors.len(), 2);
}

#[test]
fn a_guardian_that_leaves_is_proved_gone() {
    let mut shutdown = GuardianShutdown::begin(Ok(()), 77, ms(0), Duration::from_secs(5));
    match shutdown.looked(Ok(false), Ok(()), ms(1)) {
        ShutdownAction::Pause(pause) => assert_eq!(pause, ms(10)),
        other => panic!("{other:?}"),
    }
    assert_eq!(shutdown.looked(Ok(true), Err(fault(ESRCH)), ms(12)), ShutdownAction::Finish);
    assert!(!shutdown.may_be_alive());
    assert!(shutdown.into_errors().is_empty());
}

#[test]
fn a_guardian_that_stays_is_terminated_and_told() {
    let mut shutdown = GuardianShutdown::begin(Ok(()), 77, ms(0), ms(300));
    assert_eq!(
        shutdown.looked(Ok(false), Ok(()), ms(100)),
        ShutdownAction::Terminate { group: Some(77) }
    );
    assert_eq!(shutdown.terminated(Some(Err(fault(1))), Ok(())), ShutdownAction::Look);
    assert_eq!(shutdown.looked(Ok(false), Ok(()), ms(300)), ShutdownAction::Finish);
    assert!(shutdown.may_be_alive());
    let errors: Vec<String> = shutdown.into_errors().iter().map(|error| error.render()).collect();
    assert_eq!(
        errors,
        vec![
            "terminate-guardian-process-group: os error 1",
            "reap-guardian: guardian did not exit before the cleanup deadline",
            "verify-guardian-process-group-empty: guardian process group remained live after the cleanup deadline",
        ]
    );
}

#[test]
fn a_guardian_without_its_marker_gets_no_time() {
    let mut shutdown = GuardianShutdown::begin(Err(fault(32)), 0, ms(5), ms(300));
    match shutdown.looked(Ok(false), Ok(()), ms(5)) {
        ShutdownAction::Terminate { group } => assert_eq!(group, None),
        other => panic!("{other:?}"),
    }
    assert_eq!(shutdown.terminated(None, Err(fault(ESRCH))), ShutdownAction::Look);
    assert_eq!(shutdown.looked(Ok(true), Ok(()), ms(6)), ShutdownAction::Finish);
    assert!(shutdown.may_be_alive());
    let errors: Vec<String> = shutdown.into_errors().iter().map(|error| error.render()).collect();
    assert_eq!(
        errors,
        vec![
            "guardian-disarm: os error 32",
            "identify-guardian-process-group: guardian PID cannot identify a native process group",
        ]
    );
}

#[test]
fn guardians_are_told_where_to_listen() {
    assert_eq!(Guardian::spawn(5, 1234), vec!["__guardian", "5", "1234"]);
}

#[test]
fn disarmed_guardians_leave_or_are_killed() {
    let mut guardian = Guardian::disarm(Ok(()), ms(50)).unwrap();
    match guardian.looked(Ok(false), ms(45)).unwrap() {
        DisarmAction::Pause(pause) => assert_eq!(pause, ms(5)),
        other => panic!("{other:?}"),
    }
    assert_eq!(guardian.looked(Ok(false), ms(50)).unwrap(), DisarmAction::Kill);
    assert_eq!(guardian.killed(Ok(()), ms(60)).unwrap(), DisarmAction::Look);
    assert_eq!(guardian.deadline, ms(160));
    assert_eq!(guardian.looked(Ok(true), ms(70)).unwrap(), DisarmAction::Done);
    assert_eq!(guardian.stage, DisarmStage::Over);
}

#[test]
fn disarming_fails_when_nothing_helps() {
    assert_eq!(Guardian::disarm(Err(fault(32)), ms(50)).unwrap_err().os_code, Some(32));
    let mut guardian = Guardian::disarm(Ok(()), ms(0)).unwrap();
    assert_eq!(guardian.looked(Ok(false), ms(0)).unwrap(), DisarmAction::Kill);
    assert_eq!(guardian.killed(Ok(()), ms(0)).unwrap(), DisarmAction::Look);
    let error = guardian.looked(Ok(false), ms(100)).unwrap_err();
    assert_eq!(error.kind, FaultKind::TimedOut);
    assert_eq!(error.text.render(), "guardian could not be reaped after forced termination");
    let mut guardian = Guardian::disarm(Ok(()), ms(0)).unwrap();
    assert_eq!(guardian.looked(Err(fault(10)), ms(0)).unwrap_err().os_code, Some(10));
    let mut guardian = Guardian::disarm(Ok(()), ms(0)).unwrap();
    assert_eq!(guardian.looked(Ok(false), ms(0)).unwrap(), DisarmAction::Kill);
    assert_eq!(guardian.killed(Err(fault(1)), ms(0)).unwrap_err().os_code, Some(1));
}
