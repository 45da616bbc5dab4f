use memcordon_platform::evidence::{ChildTermination, RunOutcome};
use memcordon_platform::macos_attempt::{
    attempt_backend, authorization_offset, cancelled_runtime, child_number, close_attempt,
    failed_runtime, force_received, gated_execution_evidence, launch_deadlines, may_begin,
    may_let_go, owner, plan, runtime, setup_clock_failure, startup_cleanup, startup_end,
    startup_error, startup_evidence, startup_facts, startup_outcome, Cancellation, OwnerIdentity,
    RetirementEvidence, StandardLaunchFacts, StartupEnd,
};
use memcordon_platform::macos_child::{observe_answer, reap_answer};
use memcordon_platform::macos_guardian::{
    reserve, stop_signal, take_on, Admission, ControlEvent, ControlStep, Custody, CustodyPlan,
    LaneName, LauncherEvent, LauncherStep, SpawnEvent, SpawnStep, EIO, LEASE,
};
use memcordon_platform::macos_inventory::{Identities, ProcessIdentity};
use memcordon_platform::macos_lane::InventoryLane;
use memcordon_platform::macos_launch::{
    enveloped_helper, exec_status, helper, helper_descriptor, inspector_length, inspector_request,
    launcher_turn, phase_name, plan_grace, GateEvent, GateStage, GateStep, GuardianEnd, Hold, LaunchFault, ReleaseEvidence, Startup,
    StartupCleanup, StartupPhase, StartupStage,
};
use memcordon_platform::macos_protocol::{Message, Refusal};
use memcordon_platform::macos_recovery::Recovery;
use memcordon_platform::macos_retire::{
    inspected, left_empty, may_offer, offered, worker_runs, InspectionAdmission, Members, Offer,
    OfferStep, RetireAction, RetireStage, Retirement,
};
use memcordon_platform::macos_watchdog::{
    clock_failure, pending_inventory_turn_wait, watchdog_turn_wait, Plan, Reading, WatchAction,
    WatchStage, Watchdog,
};
use memcordon_platform::model::{Fault, FaultKind, SIGINT, SIGKILL, SIGTERM};
use memcordon_platform::policy::{
    AttemptContext, BoundaryRequirement, Deadline, DeadlineScope, Enforcement, Lifetime, Metric,
    Policy, SwapPolicy,
};
use memcordon_platform::time::Duration;

fn ms(n: u64) -> Duration {
    Duration::from_millis(n)
}

fn broken(text: &'static str) -> Fault {
    Fault::new(FaultKind::Other, text)
}

fn exited() -> ChildTermination {
    ChildTermination::ExitCode { code: 3 }
}

fn policy() -> Policy {
    Policy {
        memory: Some(100),
        swap: SwapPolicy::Host,
        deadline: None,
        lifetime: Lifetime::Command,
        enforcement: Enforcement::Watchdog,
        metric: Metric::Rss,
        boundary: BoundaryRequirement::Standard,
        poll_interval: ms(5),
        signal_grace: ms(20),
        command_exit_grace: Duration::zero(),
        limit_grace: ms(10),
    }
}

fn timed() -> Policy {
    Policy {
        deadline: Some(Deadline { duration: ms(50), scope: DeadlineScope::Attempt }),
        ..policy()
    }
}

// The guardian.

fn custody_plan() -> CustodyPlan {
    CustodyPlan { startup: 1000, work: Some(5000), grace: 100 }
}

fn lane() -> InventoryLane {
    let mut lane = InventoryLane::start(7);
    lane.pending = false;
    lane
}

fn custody() -> Custody {
    Custody::begin(custody_plan(), 10, lane(), lane())
}

fn tell(custody: &mut Custody, message: Message, now: u64) -> ControlStep {
    custody.control(ControlEvent::Message(message), now).unwrap()
}

fn running() -> Custody {
    let mut custody = custody();
    assert_eq!(custody.spawned(SpawnEvent::Pending), SpawnStep::Nothing);
    assert_eq!(custody.spawned(SpawnEvent::Spawned), SpawnStep::Watch);
    assert_eq!(custody.launcher_said(LauncherEvent::Nothing, 20), LauncherStep::Nothing);
    assert_eq!(custody.launcher_said(LauncherEvent::Ready, 20), LauncherStep::SendPrepared);
    assert_eq!(tell(&mut custody, Message::Release, 30), ControlStep::Release { at: 30 });
    assert_eq!(custody.launcher_said(LauncherEvent::Closed, 40), LauncherStep::ConfirmExec);
    assert!(custody.exec_seen(true, 40));
    custody
}

#[test]
fn plans_are_taken_on_in_time() {
    assert_eq!(take_on(custody_plan(), 999), Admission::Admitted);
    assert_eq!(take_on(custody_plan(), 1000), Admission::Late);
    let short = CustodyPlan { work: Some(500), ..custody_plan() };
    assert_eq!(take_on(short, 500), Admission::Late);
    assert!(reserve(custody_plan()).is_ok());
    let endless = CustodyPlan { work: Some(u64::MAX), ..custody_plan() };
    assert_eq!(
        reserve(endless).unwrap_err().text.render(),
        "guardian retirement deadline overflow"
    );
}

#[test]
fn targets_run_and_are_given_back() {
    let mut custody = running();
    assert!(custody.state.confirmed);
    assert!(custody.inspection_wanted(20_000_000));
    let inspection = custody.next_inspection(20_000_000).unwrap();
    assert_eq!((inspection.lane, inspection.signal), (LaneName::Normal, None));
    assert_eq!(inspection.sequence, 1);
    assert_eq!(tell(&mut custody, Message::InventoryQuery { query: 4, metric: None }, 50),
        ControlStep::Nothing);
    let answered =
        custody.lane_replied(LaneName::Normal, Ok(true), Identities::new(), false, 60);
    assert_eq!(answered, Some(4));
    assert!(custody.state.output && custody.state.empty);
    custody.output_over(true, 61);
    assert!(custody.inspectors_may_go());
    custody.inspectors(false);
    assert_eq!(tell(&mut custody, Message::Reap, 62), ControlStep::Reap { allowed: false });
    custody.inspectors(true);
    assert_eq!(tell(&mut custody, Message::Reap, 63), ControlStep::Reap { allowed: true });
    custody.target_looked_at(true);
    assert_eq!(tell(&mut custody, Message::Disarm, 64), ControlStep::Retire);
}

#[test]
fn silence_and_deadlines_end_the_workload() {
    let mut custody = running();
    assert_eq!(custody.clock(4999).unwrap(), false);
    assert_eq!(custody.clock(5000).unwrap(), true);
    assert_eq!((custody.state.terminal, custody.state.force_at), (Some(5000), Some(5100)));
    assert!(!custody.force(5099, 5099));
    assert!(custody.force(5100, 5101));
    assert_eq!(custody.receipt_due(), Some(5101));
    custody.receipt_went_out();
    assert_eq!(custody.receipt_due(), None);
    let endless = CustodyPlan { work: None, ..custody_plan() };
    let mut custody = Custody { plan: endless, ..running() };
    assert_eq!(custody.clock(30 + LEASE - 1).unwrap(), false);
    assert_eq!(custody.state.terminal, None);
    custody.clock(30 + LEASE).unwrap();
    assert_eq!(custody.state.force_at, Some(30 + LEASE));
    let mut custody = running();
    assert_eq!(custody.time(1).unwrap(), 1);
    tell(&mut custody, Message::AdvanceClock { nanos: 9 }, 50);
    assert_eq!(custody.time(1).unwrap(), 10);
    assert!(custody.time(u64::MAX).is_err());
    let over = ControlEvent::Message(Message::AdvanceClock { nanos: u64::MAX });
    assert!(custody.control(over, 50).is_err());
    tell(&mut custody, Message::DisableWorkTimer, 50);
    assert_eq!(custody.clock(6000).unwrap(), false);
    assert_eq!(custody.state.terminal, None);
}

#[test]
fn stops_are_not_renewed() {
    assert!(stop_signal(SIGINT) && !stop_signal(10));
    let mut custody = running();
    let stop = |signal: i32, force: u64| Message::SignalStop { signal, force };
    assert_eq!(tell(&mut custody, stop(SIGINT, 900), 50), ControlStep::SignalGroup(SIGINT));
    assert_eq!(custody.state.force_at, Some(900));
    assert_eq!(tell(&mut custody, stop(SIGTERM, 9000), 60), ControlStep::Nothing);
    assert_eq!(tell(&mut custody, Message::StopAt { force: 9000 }, 60), ControlStep::Nothing);
    assert_eq!(custody.state.force_at, Some(900));
    let inspection = custody.next_inspection(30_000_000).unwrap();
    assert_eq!((inspection.lane, inspection.signal), (LaneName::Emergency, Some(SIGKILL)));
    let mut custody = running();
    tell(&mut custody, Message::StopAt { force: 90_000 }, 50);
    assert_eq!(custody.state.force_at, Some(5100));
    let mut custody = running();
    tell(&mut custody, stop(10, 900), 50);
    assert_eq!(custody.state.force_at, Some(50));
}

#[test]
fn releases_are_granted_in_time_only() {
    let mut custody = custody();
    custody.spawned(SpawnEvent::Spawned);
    assert_eq!(tell(&mut custody, Message::Release, 30), ControlStep::Nothing);
    assert_eq!(custody.state.terminal, Some(30));
    let mut custody = Custody::begin(custody_plan(), 10, lane(), lane());
    custody.spawned(SpawnEvent::Spawned);
    custody.launcher_said(LauncherEvent::Ready, 20);
    assert_eq!(tell(&mut custody, Message::Release, 1000), ControlStep::Nothing);
    assert!(!custody.state.released);
    let mut custody = running();
    assert_eq!(tell(&mut custody, Message::Disarm, 50), ControlStep::Nothing);
    assert_eq!(custody.state.terminal, Some(50));
}

#[test]
fn guardians_outlive_their_frontend() {
    let mut custody = running();
    assert_eq!(custody.control(ControlEvent::Nothing, 50).unwrap(), ControlStep::Nothing);
    assert_eq!(custody.control(ControlEvent::Lost, 50).unwrap(), ControlStep::Nothing);
    assert!(!custody.state.connected && custody.state.terminal == Some(50));
    assert!(!custody.may_leave());
    custody.group_signal_failed("first".to_string());
    custody.group_signal_failed("second".to_string());
    assert_eq!(custody.group_signal_error, Some("first".to_string()));
    custody.lane_replied(LaneName::Emergency, Ok(true), Identities::new(), false, 60);
    assert_eq!(custody.group_signal_error, None);
    custody.inspectors(true);
    assert!(custody.may_leave());
    let mut someone = Identities::new();
    someone.insert(ProcessIdentity { pid: 9, start_seconds: 1, start_microseconds: 2 });
    custody.lane_replied(LaneName::Normal, Ok(false), someone, false, 70);
    assert!(!custody.state.empty && custody.known.has(9));
}

#[test]
fn frontends_are_answered() {
    let mut custody = custody();
    for message in [Message::Observe, Message::Reap] {
        let refused = custody.control(ControlEvent::Message(message), 20).unwrap_err();
        assert_eq!(refused.text.render(), "target not prepared");
    }
    assert_eq!(tell(&mut custody, Message::ResumeSpawn, 20), ControlStep::ResumeSpawn);
    assert_eq!(tell(&mut custody, Message::InterruptClock, 20), ControlStep::InterruptClock);
    assert_eq!(
        tell(&mut custody, Message::StallInspectors { both: true }, 20),
        ControlStep::StallInspectors { both: true }
    );
    assert_eq!(
        tell(&mut custody, Message::Snapshot { pid: 5 }, 20),
        ControlStep::Observed { pid: 5, observed: false }
    );
    assert_eq!(tell(&mut custody, Message::Heartbeat, 21), ControlStep::Nothing);
    assert_eq!(custody.state.last_control, 21);
    assert_eq!(custody.spawned(SpawnEvent::Failed(Some(2))), SpawnStep::Leave(Some(2)));
    assert_eq!(custody.spawned(SpawnEvent::Failed(None)), SpawnStep::Leave(Some(EIO)));
    assert_eq!(custody.spawned(SpawnEvent::Gone), SpawnStep::Leave(None));
    let mut custody = running();
    assert_eq!(tell(&mut custody, Message::Observe, 50), ControlStep::ReportStatus);
    custody.lane_replied(LaneName::Normal, Ok(true), Identities::new(), false, 60);
    assert_eq!(
        tell(&mut custody, Message::InventoryQuery { query: 8, metric: Some(Metric::Rss) }, 61),
        ControlStep::AnswerEmpty { query: 8, sampled: true }
    );
    custody.output_over(false, 62);
    assert!(!custody.state.connected);
}

#[test]
fn launchers_that_fail_end_the_workload() {
    for (event, step) in [
        (LauncherEvent::Failure(2), LauncherStep::SendFailure(2)),
        (LauncherEvent::Closed, LauncherStep::Nothing),
        (LauncherEvent::Other, LauncherStep::Nothing),
    ] {
        let mut custody = custody();
        custody.spawned(SpawnEvent::Spawned);
        assert_eq!(custody.launcher_said(event, 20), step);
        assert_eq!(custody.state.force_at, Some(20));
    }
    let mut custody = running();
    custody.lane_failed(LaneName::Normal, true, 50);
    assert!(custody.normal.stopping && custody.state.terminal == Some(50));
}

#[test]
fn lost_guardians_are_recovered_from() {
    let mut recovery = Recovery::begin(custody());
    assert!(!recovery.creation_settled);
    assert!(recovery.next_inspection().unwrap().is_none());
    recovery.spawned(SpawnEvent::Spawned);
    let inspection = recovery.next_inspection().unwrap().unwrap();
    assert_eq!((inspection.lane, inspection.signal), (LaneName::Emergency, Some(SIGKILL)));
    recovery.lane_replied(LaneName::Emergency, true, Identities::new());
    assert!(recovery.inspectors_may_go());
    assert!(!recovery.is_over(true, false));
    assert!(recovery.is_over(true, true));
    recovery.lane_failed(LaneName::Normal, true);
    assert!(!recovery.is_over(true, true));
    let mut nobody = Recovery::begin(custody());
    nobody.spawned(SpawnEvent::Gone);
    assert!(nobody.is_over(true, false));
}

#[test]
fn guardians_tell_of_their_child() {
    let status = |raw: Option<i32>, reaped: bool| Some(Message::Status { raw, reaped });
    assert_eq!(reap_answer(status(Some(256), true), "").unwrap(), Some(Some(256)));
    assert_eq!(reap_answer(status(None, false), "").unwrap(), None);
    assert_eq!(observe_answer(status(Some(9), false)).unwrap(), Some(9));
    assert!(observe_answer(None).is_err());
    assert!(reap_answer(None, "None").is_err());
}

// Starting up.

fn prepared(fault: Option<LaunchFault>) -> Startup {
    let mut startup = Startup::begin(fault, false).unwrap();
    startup.guardian_spawned(41);
    assert_eq!(startup.phase, StartupPhase::GuardianReadiness);
    startup.greeted(Some(Message::Hello)).unwrap();
    startup.plan_sent();
    startup.guardian_stands(Some(Message::Ready)).unwrap();
    startup
}

#[test]
fn startups_end_with_a_running_target() {
    let mut startup = prepared(None);
    let injection = startup.launcher_waits(Some(Message::Prepared { pid: 42 })).unwrap();
    assert!(!injection.kill_guardian && !injection.send_stop);
    startup.release_sent();
    assert_eq!(startup.release, ReleaseEvidence::Unknown);
    startup.release_receipt(Some(Message::ReleaseIssued { at: 77 })).unwrap();
    assert_eq!(startup.target_runs(Some(Message::Released)).unwrap(), 77);
    assert_eq!(startup.stage, StartupStage::Running);
    assert_eq!(startup.release, ReleaseEvidence::Issued { at: 77, exec_confirmed: true });
}

#[test]
fn startups_fail_in_their_phase() {
    let late = Startup::begin(None, true).unwrap_err();
    assert_eq!(late.error.text.render(), "startup expired before creation");
    let mut startup = prepared(None);
    let refused = startup.launcher_waits(Some(Message::Failure { errno: 12 })).unwrap_err();
    assert!(matches!(refused, Refusal::Native(12)));
    let mut startup = prepared(None);
    assert!(startup.launcher_waits(Some(Message::Prepared { pid: 0 })).is_err());
    assert!(!startup.kills_guardian());
    let error = startup.fail(broken("x"), GuardianEnd::Reaped { success: false });
    assert_eq!(error.cleanup, StartupCleanup::Unknown);
    assert_eq!(phase_name(error.phase), "launcher-spawn");
    let fresh = || Startup::begin(None, false).unwrap();
    assert!(fresh().kills_guardian());
    assert_eq!(fresh().fail(broken("x"), GuardianEnd::Missing).cleanup, StartupCleanup::Complete);
    let expired = Fault::new(FaultKind::TimedOut, "x");
    assert_eq!(fresh().fail(expired, GuardianEnd::Missing).cleanup, StartupCleanup::Unknown);
    let unreaped = fresh().fail(broken("x"), GuardianEnd::Unreaped(broken("y")));
    assert_eq!(unreaped.cleanup, StartupCleanup::Incomplete);
    assert_eq!(unreaped.cleanup_errors[0].detail, "y");
    let mut startup = prepared(None);
    startup.launcher_waits(Some(Message::Prepared { pid: 42 })).unwrap();
    startup.release_sent();
    assert!(startup.release_receipt(None).is_err());
    let error = startup.fail(broken("x"), GuardianEnd::Reaped { success: true });
    assert!(!error.release_sent && error.release == ReleaseEvidence::Unknown);
}

#[test]
fn startups_take_injected_faults() {
    let mut held = Startup::begin(Some(LaunchFault::NativeSpawnHeld), false).unwrap();
    held.guardian_spawned(41);
    assert_eq!(held.greeted(Some(Message::Hello)).unwrap(), Some(Hold::Spawn));
    held.plan_sent();
    assert_eq!(held.guardian_stands(Some(Message::Ready)).unwrap(), false);
    let fault = held.spawn_held(Some(Message::SpawnHeld { pid: 43 }));
    assert_eq!(fault.text.render(), "held native spawn publication expired");
    assert_eq!(held.launcher_pid, Some(43));
    let mut armed = prepared(Some(LaunchFault::GuardianAfterArm));
    assert!(armed.launcher_waits(Some(Message::Prepared { pid: 4 })).unwrap().kill_guardian);
    let mut stopped = prepared(Some(LaunchFault::LauncherBeforeExec));
    assert!(stopped.launcher_waits(Some(Message::Prepared { pid: 4 })).unwrap().send_stop);
}

#[test]
fn helpers_are_checked() {
    assert_eq!(plan_grace(ms(2)).unwrap(), 2_000_000);
    assert!(plan_grace(Duration::from_secs(u64::MAX)).is_err());
    let nobody = Identities::new();
    assert!(inspector_request(1, 4, 1, 5, 9, &nobody, Some(SIGKILL)));
    assert!(!inspector_request(1, 4, 2, 5, 9, &nobody, None));
    assert!(!inspector_request(1, 4, 1, 6, 9, &nobody, None));
    assert!(!inspector_request(1, 4, 1, 5, 0, &nobody, None));
    assert!(!inspector_request(1, 4, 1, 5, 9, &nobody, Some(10)));
    assert!(inspector_length(0) && !inspector_length(usize::MAX));
    assert_eq!(helper_descriptor(2, true), Err(126));
    assert_eq!(helper_descriptor(3, false), Err(126));
    assert_eq!(helper_descriptor(3, true), Ok(()));
    assert_eq!((helper(true), helper(false)), (Err(126), Ok(())));
    assert_eq!(enveloped_helper(3, 5, true), Ok(6));
    assert_eq!(enveloped_helper(3, 3, true), Err(126));
    assert_eq!(exec_status(FaultKind::NotFound), 127);
    assert_eq!(exec_status(FaultKind::PermissionDenied), 126);
}

// Retiring.

#[test]
fn workloads_are_retired() {
    let (mut retirement, action) =
        Retirement::begin(SIGTERM, ms(10), ms(1000), Some(3), None, ms(0));
    assert_eq!(
        action,
        RetireAction::Stop { signal: SIGTERM, grace: ms(10), deadline: ms(1000), abandon: Some(3) }
    );
    assert_eq!(retirement.stopped(Ok(())), RetireAction::Look);
    assert_eq!(retirement.next(ms(1)), RetireAction::Ask { deadline: ms(1000) });
    let some = Members { empty: false, only_root: false };
    assert_eq!(retirement.listed(Ok(Some(some)), ms(12)), RetireAction::Pause(ms(20)));
    assert!(retirement.forced);
    retirement.next(ms(32));
    assert_eq!(retirement.listed(Ok(None), ms(33)), RetireAction::PausePoll(ms(10)));
    let none = Members { empty: true, only_root: false };
    assert_eq!(retirement.listed(Ok(Some(none)), ms(40)), RetireAction::Look);
    assert_eq!(retirement.child_due(ms(41)), RetireAction::Observe { deadline: ms(1000) });
    assert_eq!(retirement.observed(Ok(None), ms(42)), RetireAction::Pause(ms(10)));
    retirement.child_due(ms(52));
    assert_eq!(retirement.observed(Ok(Some(exited())), ms(53)), RetireAction::Finish);
    let summary = retirement.summary();
    assert!(summary.graceful_attempted && summary.force_attempted);
    assert_eq!(summary.workload_empty, Some(true));
    assert!(summary.errors.is_empty());
}

#[test]
fn unproved_emptiness_is_told() {
    let (mut retirement, _) = Retirement::begin(SIGKILL, ms(0), ms(100), None, None, ms(0));
    retirement.stopped(Err(broken("gone")));
    assert_eq!(retirement.next(ms(100)), RetireAction::Look);
    assert_eq!(retirement.child_due(ms(100)), RetireAction::Finish);
    let summary = retirement.summary();
    assert_eq!(summary.workload_empty, None);
    let lines: Vec<String> = summary.errors.iter().map(|e| e.render()).collect();
    assert_eq!(
        lines,
        vec!["guardian-stop: gone", "observe-direct-child: retirement deadline expired"]
    );
    let (mut late, _) = Retirement::begin(SIGKILL, ms(0), ms(100), None, Some(exited()), ms(0));
    late.stopped(Ok(()));
    late.next(ms(100));
    assert_eq!(late.child_due(ms(100)), RetireAction::Finish);
    assert_eq!(
        late.summary().errors[0].render(),
        "guardian-retirement-inventory: retirement deadline expired with unresolved workload \
         membership"
    );
}

#[test]
fn commands_may_leave_nobody() {
    let (mut retirement, action) =
        Retirement::after_exit(Duration::from_secs(9), Some(4), Some(exited()), ms(0));
    assert_eq!(action, RetireAction::Poll(4));
    assert_eq!(retirement.look_deadline, Duration::from_secs(3));
    let alone = Members { empty: false, only_root: true };
    assert_eq!(retirement.discovered(Ok(Some(alone)), ms(1)), RetireAction::Finish);
    assert_eq!(retirement.stage, RetireStage::Over);
    let summary = retirement.summary();
    assert!(!summary.force_attempted && summary.workload_empty == Some(true));
    let (mut lost, _) =
        Retirement::after_exit(Duration::from_secs(9), None, Some(exited()), ms(0));
    assert!(matches!(
        lost.discovered(Err("lost".to_string()), ms(1)),
        RetireAction::Stop { signal: SIGKILL, .. }
    ));
    lost.stopped(Ok(()));
    lost.next(ms(2));
    lost.listed(Ok(Some(Members { empty: true, only_root: false })), ms(3));
    lost.child_due(ms(3));
    assert_eq!(lost.summary().errors[0].render(), "normal-exit-discovery: lost");
    assert_eq!(left_empty().workload_empty, Some(true));
}

#[test]
fn inspections_are_offered_to_workers() {
    assert!(may_offer(ms(1), ms(2)).is_ok() && may_offer(ms(2), ms(2)).is_err());
    let offer = |admission, offer| offered(admission, offer, ms(1), ms(9));
    assert_eq!(
        offer(InspectionAdmission::Immediate, Offer::Taken),
        Ok(OfferStep::Await(ms(8)))
    );
    assert_eq!(
        offer(InspectionAdmission::Immediate, Offer::Full),
        Err("process inspector is busy")
    );
    assert_eq!(offer(InspectionAdmission::Cleanup, Offer::Full), Ok(OfferStep::Retry(ms(1))));
    assert_eq!(
        offer(InspectionAdmission::Cleanup, Offer::Disconnected),
        Err("process inspector is unavailable")
    );
    assert!(worker_runs(ms(1), ms(2)) && !worker_runs(ms(2), ms(2)));
    assert_eq!(inspected(Some(Ok(4))), Ok(4));
    assert_eq!(
        inspected::<u8>(None).unwrap_err(),
        "process inspection deadline expired; worker remains runtime-owned"
    );
}

// Watching.

fn watch_plan(work: Option<u64>) -> Plan {
    Plan { attempt_origin: 0, work_expiry: work, startup_expiry: 5_000_000_000 }
}

fn watchdog(policy: Policy, work: Option<u64>) -> Watchdog {
    Watchdog::begin(policy, AttemptContext::unsupervised(), watch_plan(work), ms(0))
}

fn sampled(empty: bool, usage: u64) -> Result<Option<Reading>, String> {
    Ok(Some(Reading::Members { empty, sample: Some(Ok(usage)) }))
}

fn look(watchdog: &mut Watchdog, status: Option<ChildTermination>, usage: u64, now: Duration) {
    assert_eq!(watchdog.reaped(Ok(status), now), WatchAction::SendAlive);
    watchdog.alive_sent(Ok(()), now);
    assert_eq!(watchdog.begun(Ok(5)), WatchAction::Poll(5));
    assert_eq!(watchdog.polled_again(sampled(status.is_some(), usage)), WatchAction::ReadClock);
}

#[test]
fn turns_are_short() {
    assert_eq!(watchdog_turn_wait(ms(50), None, false), ms(20));
    assert_eq!(watchdog_turn_wait(ms(9), Some(ms(3)), false), ms(3));
    assert_eq!(watchdog_turn_wait(ms(0), Some(ms(0)), true), ms(1));
    assert_eq!(pending_inventory_turn_wait(ms(0), ms(0)), ms(1));
    assert_eq!(clock_failure(broken("x")).code, "MCMONITOR-CLOCK");
}

#[test]
fn commands_end_by_themselves() {
    let mut watchdog = watchdog(policy(), None);
    look(&mut watchdog, None, 40, ms(1));
    assert_eq!(watchdog.decide(ms(1), Ok(1)).unwrap(), WatchAction::TakeSignal);
    assert_eq!(watchdog.signal(None, ms(1), Ok(1)).unwrap(), WatchAction::WaitExit(ms(5)));
    assert_eq!(watchdog.waited(Ok(None), ms(6), Ok(6)), WatchAction::Reap);
    look(&mut watchdog, Some(exited()), 30, ms(6));
    watchdog.decide(ms(6), Ok(6)).unwrap();
    assert_eq!(watchdog.signal(None, ms(6), Ok(6)).unwrap(), WatchAction::Finish);
    match watchdog.conclude(left_empty(), ms(7), true).unwrap() {
        RunOutcome::Exited { child, peak, cleanup } => {
            assert_eq!((child, peak), (exited(), Some(40)));
            assert_eq!(cleanup.workload_empty, Some(true));
        }
        other => panic!("{other:?}"),
    }
}

#[test]
fn limits_go_before_deadlines() {
    let mut watchdog = watchdog(timed(), Some(50_000_000));
    look(&mut watchdog, None, 100, ms(60));
    match watchdog.decide(ms(60), Ok(60_000_000)).unwrap() {
        WatchAction::Retire { signal, grace, deadline } => {
            assert_eq!((signal, grace, deadline), (SIGTERM, ms(10), ms(3070)));
        }
        other => panic!("{other:?}"),
    }
    assert_eq!(watchdog.retired(None), WatchAction::Finish);
    match watchdog.conclude(left_empty(), ms(70), true).unwrap() {
        RunOutcome::LimitExceeded { limit, observed, evidence, .. } => {
            assert_eq!((limit, observed), (100, Some(100)));
            assert_eq!(evidence.backend, "macos-watchdog");
        }
        other => panic!("{other:?}"),
    }
}

#[test]
fn deadlines_are_kept() {
    let mut watchdog = watchdog(timed(), Some(50_000_000));
    look(&mut watchdog, None, 10, ms(55));
    match watchdog.decide(ms(55), Ok(55_000_000)).unwrap() {
        WatchAction::Retire { signal, grace, deadline } => {
            assert_eq!((signal, grace), (SIGTERM, ms(5)));
            assert_eq!(deadline, ms(3060));
        }
        other => panic!("{other:?}"),
    }
    watchdog.retired(Some(exited()));
    let evidence = watchdog.expired_evidence(ms(57)).unwrap();
    assert_eq!((evidence.expires_ms, evidence.observed_ms), (50, 55));
    match watchdog.conclude(left_empty(), ms(57), true).unwrap() {
        RunOutcome::DeadlineExceeded { deadline, peak, .. } => {
            assert_eq!((deadline.duration_ms, deadline.expires_ms), (50, 50));
            assert_eq!((deadline.observed_ms, deadline.grace_used_ms), (55, 2));
            assert_eq!(deadline.forced_action, Some("sigkill-process-group"));
            assert_eq!(peak, Some(10));
        }
        other => panic!("{other:?}"),
    }
}

#[test]
fn deadlines_without_evidence_are_errors() {
    let mut watchdog = watchdog(timed(), Some(50_000_000));
    look(&mut watchdog, None, 10, ms(55));
    watchdog.decide(ms(55), Ok(55_000_000)).unwrap();
    watchdog.retired(Some(exited()));
    let error = watchdog.conclude(left_empty(), ms(57), false).unwrap_err();
    assert_eq!(error.code, "MCLIMIT-DEADLINE-EVIDENCE");
    assert_eq!(error.message, "deadline evidence is inconsistent");
    let context = AttemptContext::unsupervised();
    let plan = watch_plan(Some(50_000_000));
    let deadline = timed().deadline.unwrap();
    let evidence = startup_evidence(&timed(), context, plan, deadline, 51_000_000);
    assert_eq!((evidence.expires_ms, evidence.observed_ms), (50, 51));
    let end = |end: StartupEnd, clock: Result<u64, Fault>| {
        let odd = Err("odd".to_string());
        startup_outcome(&timed(), context, plan, end, left_empty(), clock, odd)
    };
    let error = end(StartupEnd::Expired(deadline), Ok(51_000_000)).unwrap_err();
    assert_eq!((error.code, error.message.as_str()), ("MCLIMIT-DEADLINE-EVIDENCE", "odd"));
    let error = end(StartupEnd::Expired(deadline), Err(broken("x"))).unwrap_err();
    assert_eq!(error.code, "MCMONITOR-CLOCK");
    assert!(end(StartupEnd::Interrupted(SIGINT), Ok(1)).is_ok());
}

#[test]
fn faults_and_signals_end_the_watch() {
    let mut failing = watchdog(policy(), None);
    failing.reaped(Ok(None), ms(1));
    failing.alive_sent(Ok(()), ms(1));
    failing.begun(Err("no guardian".to_string()));
    assert!(matches!(
        failing.decide(ms(1), Ok(1)).unwrap(),
        WatchAction::Retire { signal: SIGKILL, .. }
    ));
    failing.retired(None);
    match failing.conclude(left_empty(), ms(2), true).unwrap() {
        RunOutcome::MonitorFailed { error, .. } => assert_eq!(error, "no guardian"),
        other => panic!("{other:?}"),
    }
    let mut interrupted = watchdog(policy(), None);
    look(&mut interrupted, None, 1, ms(1));
    interrupted.decide(ms(1), Ok(1)).unwrap();
    assert_eq!(
        interrupted.signal(Some(SIGINT), ms(1), Ok(1)).unwrap(),
        WatchAction::Retire { signal: SIGINT, grace: ms(20), deadline: ms(3021) }
    );
    interrupted.retired(None);
    assert_eq!(interrupted.stage, WatchStage::Over);
    assert!(matches!(
        interrupted.conclude(left_empty(), ms(2), false),
        Ok(RunOutcome::Interrupted { signal: SIGINT, .. })
    ));
    let mut waiting = watchdog(policy(), None);
    look(&mut waiting, None, 1, ms(1));
    waiting.decide(ms(1), Ok(1)).unwrap();
    waiting.signal(None, ms(1), Ok(1)).unwrap();
    waiting.waited(Err(broken("x")), ms(2), Ok(2));
    waiting.retired(None);
    match waiting.conclude(left_empty(), ms(2), true).unwrap() {
        RunOutcome::MonitorFailed { error, .. } => assert_eq!(error, "kqueue wait failed: x"),
        other => panic!("{other:?}"),
    }
    let mut blind = watchdog(timed(), Some(50_000_000));
    look(&mut blind, None, 1, ms(1));
    assert_eq!(blind.decide(ms(1), Err(broken("clock"))).unwrap_err().code, "MCMONITOR-CLOCK");
}

#[test]
fn looks_are_bounded() {
    let plain = watchdog(policy(), None);
    assert_eq!(plain.inspection_deadline(ms(5)), ms(255));
    assert_eq!(plain.first_look_deadline(ms(5)), ms(105));
    let bound = watchdog(timed(), Some(50_000_000));
    assert_eq!(bound.inspection_deadline(ms(5)), ms(50));
    assert_eq!(plain.response_deadline(ms(5), ms(5), Ok(0)).unwrap(), ms(3005));
    assert_eq!(
        bound.response_deadline(ms(5000), ms(5), Ok(5_000_000)).unwrap(),
        ms(3060)
    );
    assert!(bound.response_deadline(ms(5), ms(5), Err(broken("x"))).is_err());
}

#[test]
fn targets_wait_at_the_gate() {
    let way = [GateEvent::Settings, GateEvent::Restored, GateEvent::Announced, GateEvent::Released];
    let steps = [GateStep::Restore, GateStep::Announce, GateStep::Wait, GateStep::Exec];
    let mut stage = GateStage::Settings;
    for (event, step) in way.into_iter().zip(steps) {
        assert_eq!(launcher_turn(stage, GateEvent::Other).1, GateStep::Leave);
        let (next, taken) = launcher_turn(stage, event);
        assert_eq!(taken, step);
        stage = next;
    }
    assert_eq!(stage, GateStage::Through);
    let early = launcher_turn(GateStage::Settings, GateEvent::Released);
    assert_eq!(early, (GateStage::Over, GateStep::Leave));
    assert_eq!(launcher_turn(GateStage::Over, GateEvent::Released).1, GateStep::Leave);
}

// Attempts.

#[test]
fn attempts_are_planned() {
    assert!(may_begin(0, &policy()).is_ok());
    assert_eq!(may_begin(1, &policy()).unwrap_err().code, "MCSETUP-INSPECTION-PENDING");
    let hard = Policy { enforcement: Enforcement::Hard, ..policy() };
    assert_eq!(may_begin(0, &hard).unwrap_err().code, "MCSETUP-HARD-UNAVAILABLE");
    let sealed = Policy { boundary: BoundaryRequirement::Sealed, ..policy() };
    let error = may_begin(0, &sealed).unwrap_err();
    assert_eq!(error.code, "MCBOUNDARY-UNSUPPORTED");
    assert!(!error.target_released && error.authorization_offset.is_none());
    let first = plan(&timed(), 0, Some(7), None, 9).unwrap();
    assert_eq!((first.attempt_origin, first.work_expiry), (7, Some(50_000_007)));
    assert_eq!(first.startup_expiry, 50_000_007);
    let second = plan(&policy(), 1, Some(7), None, 9).unwrap();
    assert_eq!((second.attempt_origin, second.startup_expiry), (9, 5_000_000_009));
    assert_eq!(plan(&policy(), 0, Some(u64::MAX), None, 0).unwrap_err().code, "MCSETUP-CLOCK");
    assert_eq!(setup_clock_failure(broken("x")).message, "x");
    let (launch, retire) =
        launch_deadlines(AttemptContext::unsupervised(), &timed(), Some(30_000_000), 0, ms(1));
    assert_eq!((launch, retire), (ms(31), ms(3031)));
}

#[test]
fn runtimes_are_reported() {
    let identity = ProcessIdentity { pid: 9, start_seconds: 1, start_microseconds: 2 };
    assert_eq!(owner(5, identity), Some(OwnerIdentity { pid: 5, start_identity: 1_000_002 }));
    assert_eq!(owner(0, identity), None);
    let startup = prepared(None).fail(broken("x"), GuardianEnd::Reaped { success: true });
    let facts = failed_runtime(&startup, None, 40);
    assert!(facts.complete);
    let evidence = runtime(watch_plan(None), facts, Ok(50)).unwrap();
    assert_eq!(evidence.retirement_expires, 3_000_000_040);
    assert_eq!(evidence.retirement, RetirementEvidence::Complete { at: 50 });
    let late = runtime(watch_plan(None), facts, Ok(3_000_000_041)).unwrap();
    assert_eq!(late.retirement, RetirementEvidence::Unconfirmed { last_owner: None });
    assert!(runtime(watch_plan(None), facts, Err(broken("x"))).is_err());
    assert_eq!(force_received(evidence, 30).terminal_observed, 30);
    assert_eq!(force_received(evidence, 0).force_requested, None);
    let cancelled = Cancellation { observed: Some(3), force: None };
    let facts = cancelled_runtime(&startup, watch_plan(Some(9)), None, true, &cancelled, 40);
    assert_eq!((facts.terminal, facts.force), (3, 9));
}

#[test]
fn startups_that_fail_are_explained() {
    let startup = prepared(None).fail(broken("x"), GuardianEnd::Reaped { success: true });
    let times = runtime(watch_plan(None), failed_runtime(&startup, None, 40), Ok(50)).ok();
    let error = startup_error(&startup, "/h", "/c", 0, times);
    assert_eq!(error.runtime, times);
    assert_eq!(error.code, "MCSETUP-GUARDIAN");
    assert_eq!(error.message, "native launch phase=launcher-spawn helper=/h cwd=/c: x");
    assert!(error.restart_safety.is_some() && !error.workload_may_be_alive);
    let mut running = prepared(None);
    running.launcher_waits(Some(Message::Prepared { pid: 42 })).unwrap();
    running.release_sent();
    running.release_receipt(Some(Message::ReleaseIssued { at: 77 })).unwrap();
    let missing = Fault::new(FaultKind::NotFound, "x");
    let spawn = running.fail(missing, GuardianEnd::Reaped { success: false });
    let error = startup_error(&spawn, "/h", "/c", 70, None);
    assert_eq!(error.code, "MCSPAWN-NOT-FOUND");
    assert!(error.target_released && error.workload_may_be_alive);
    assert_eq!(error.authorization_offset, Some(Duration::from_nanos(7)));
    assert_eq!(authorization_offset(ReleaseEvidence::Unknown, 0), None);
    let facts = StandardLaunchFacts::of_startup(&spawn);
    assert!(facts.authorization_released && facts.guardian_spawn_completed);
    assert!(!StandardLaunchFacts::gated_target().authorization_released);
    let cleanup = startup_cleanup(&spawn);
    assert_eq!(cleanup.workload_empty, None);
    assert_eq!(
        cleanup.errors[0].render(),
        "startup-cleanup: native startup cleanup remains an owned, unverified obligation"
    );
    assert!(!startup_facts(&cleanup).direct_child_reaped);
}

#[test]
fn startups_expire_or_are_interrupted() {
    let end = |kind, signal, observed| {
        startup_end(&timed(), Some(50), kind, signal, observed, &Ok(49))
    };
    assert!(matches!(end(FaultKind::TimedOut, None, Some(50)), Some(StartupEnd::Expired(_))));
    assert_eq!(end(FaultKind::TimedOut, None, None), None);
    assert_eq!(
        end(FaultKind::Other, Some(SIGINT), None),
        Some(StartupEnd::Interrupted(SIGINT))
    );
    let deadline = timed().deadline.unwrap();
    let outcome = startup_outcome(
        &timed(),
        AttemptContext::unsupervised(),
        watch_plan(Some(50_000_000)),
        StartupEnd::Expired(deadline),
        left_empty(),
        Ok(51_000_000),
        Ok(()),
    );
    match outcome.unwrap() {
        RunOutcome::DeadlineExceeded { deadline, .. } => {
            assert_eq!((deadline.expires_ms, deadline.observed_ms), (50, 51));
        }
        other => panic!("{other:?}"),
    }
}

#[test]
fn attempts_are_closed() {
    let exit = |cleanup| RunOutcome::Exited { child: exited(), peak: None, cleanup };
    let mut good = exit(left_empty());
    assert!(may_let_go(&left_empty(), true) && !may_let_go(&left_empty(), false));
    let facts = close_attempt(&mut good, true, Ok(()), Ok(()));
    assert!(facts.direct_child_reaped && facts.helpers_reaped && facts.errors.is_empty());
    let backend = attempt_backend(&policy());
    let (launch, safety, _) =
        gated_execution_evidence(&backend, StandardLaunchFacts::released_target(), facts);
    assert!(launch.target_released && safety.direct_child_reaped);
    let mut kept = exit(left_empty());
    let facts = close_attempt(&mut kept, false, Ok(()), Ok(()));
    assert!(!facts.direct_child_reaped && facts.errors.len() == 3);
    let mut unreaped = exit(left_empty());
    let facts = close_attempt(&mut unreaped, true, Err(broken("a")), Err(broken("b")));
    assert_eq!(facts.errors, vec!["reap-direct-child: a", "guardian-disarm: b"]);
    assert_eq!(child_number(7).unwrap(), 7);
    assert_eq!(child_number(u32::MAX).unwrap_err().code, "MCSPAWN-PID-RANGE");
}
