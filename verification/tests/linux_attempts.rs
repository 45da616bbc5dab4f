use memcordon_platform::evidence::{ChildTermination, Error, ErrorCategory, InitialSpawnFailure, RunOutcome};
use memcordon_platform::linux_cgroup::MemoryEvents;
use memcordon_platform::linux_cleanup::{
    close_reap, group_killed, kill_round, member_pids, members_first, members_looked, members_next,
    members_pause, reap_next, reaped, AbortAction, GatedAbort, KillRound, MembersAction, ReapAction,
};
use memcordon_platform::linux_launch::{
    classify_spawn, helper_setup_error, launcher_end, launcher_exec, launcher_ready, spawn_error,
    status_timeout, status_turn, ExecReply, Launch, LaunchAction, LaunchPhase, ReadyReply,
    StatusEvent, StatusStep,
};
use memcordon_platform::linux_monitor::{
    close_outcome, left_by_itself, Monitor, MonitorAction, MonitorStage,
};
use memcordon_platform::model::{CleanupSummary, Fault, FaultKind, Text, ESRCH};
use memcordon_platform::policy::{
    AttemptContext, BoundaryRequirement, Deadline, DeadlineScope, Enforcement, Lifetime, Metric,
    Policy, SwapPolicy,
};
use memcordon_platform::time::Duration;

fn ms(n: u64) -> Duration {
    Duration::from_millis(n)
}

fn fault(code: i32) -> Fault {
    Fault { kind: FaultKind::Other, os_code: Some(code), text: Text::Given(format!("os error {code}")) }
}

fn policy() -> Policy {
    Policy {
        memory: None,
        swap: SwapPolicy::Host,
        deadline: None,
        lifetime: Lifetime::Command,
        enforcement: Enforcement::Hard,
        metric: Metric::Native,
        boundary: BoundaryRequirement::Standard,
        poll_interval: ms(50),
        signal_grace: ms(200),
        command_exit_grace: Duration::zero(),
        limit_grace: ms(100),
    }
}

fn limited() -> Policy {
    Policy { memory: Some(4096), ..policy() }
}

const ZERO: MemoryEvents = MemoryEvents { max: 0, oom: 0, oom_kill: 0, oom_group_kill: 0 };

fn monitor(policy: Policy) -> Monitor {
    let limit = policy.memory.is_some();
    let (mut launch, _) = Launch::start(policy, AttemptContext::unsupervised());
    launch.parent_found(Ok(()));
    launch.created(Ok(()));
    launch.configured(Ok(()));
    if limit {
        launch.baseline_read(Ok(ZERO));
    }
    launch.spawned(Ok(77), ms(0));
    launch.ready(Ok(()), ms(10_000), ms(1));
    launch.assigned(Ok(()), ms(2));
    launch.guarded(Ok(()), ms(3));
    launch.released(Ok(()), ms(4));
    launch.executed(Ok(None), ms(10_000), ms(5));
    launch.into_monitor()
}

#[test]
fn launches_release_their_target_last() {
    let (mut launch, action) = Launch::start(limited(), AttemptContext::unsupervised());
    assert!(matches!(action, LaunchAction::FindParent { require_memory: true }));
    assert!(matches!(launch.parent_found(Ok(())), LaunchAction::CreateCgroup));
    assert!(matches!(launch.created(Ok(())), LaunchAction::Configure));
    assert!(matches!(launch.configured(Ok(())), LaunchAction::ReadBaseline));
    assert!(matches!(launch.baseline_read(Ok(ZERO)), LaunchAction::Spawn));
    match launch.spawned(Ok(77), ms(1000)) {
        LaunchAction::AwaitReady { deadline } => assert_eq!(deadline, ms(11_000)),
        other => panic!("{other:?}"),
    }
    assert!(matches!(launch.ready(Ok(()), ms(11_000), ms(1001)), LaunchAction::Assign { pid: 77 }));
    assert!(matches!(launch.assigned(Ok(()), ms(1002)), LaunchAction::StartGuardian { pid: 77 }));
    assert!(matches!(launch.guarded(Ok(()), ms(1003)), LaunchAction::Release));
    assert_eq!(launch.authorized, ms(1003));
    match launch.released(Ok(()), ms(1004)) {
        LaunchAction::AwaitExec { deadline } => assert_eq!(deadline, ms(11_004)),
        other => panic!("{other:?}"),
    }
    assert!(matches!(launch.executed(Ok(None), ms(11_004), ms(1005)), LaunchAction::Watch));
    assert_eq!(launch.phase, LaunchPhase::Running);
    assert_eq!(launch.into_monitor().stage, MonitorStage::Cycle);
}

#[test]
fn sealed_launches_are_refused_before_anything_exists() {
    let sealed = Policy { boundary: BoundaryRequirement::Sealed, ..policy() };
    let (launch, action) = Launch::start(sealed, AttemptContext::unsupervised());
    assert_eq!(launch.phase, LaunchPhase::Failed);
    match action {
        LaunchAction::Fail(error) => {
            assert_eq!(error.code, "MCBOUNDARY-UNSUPPORTED");
            assert!(!error.target_released && error.authorization_offset.is_none());
        }
        other => panic!("{other:?}"),
    }
}

#[test]
fn watchdogs_are_refused_before_anything_exists() {
    let watchdog = Policy { enforcement: Enforcement::Watchdog, ..policy() };
    let (_, action) = Launch::start(watchdog, AttemptContext::unsupervised());
    match action {
        LaunchAction::Fail(error) => {
            assert_eq!(error.code, "MCUNSUPPORTED-LINUX-WATCHDOG");
            assert!(!error.target_released);
        }
        other => panic!("{other:?}"),
    }
}

#[test]
fn early_faults_end_a_launch() {
    let (mut launch, _) = Launch::start(policy(), AttemptContext::unsupervised());
    match launch.parent_found(Err("not delegated".to_string())) {
        LaunchAction::Fail(error) => {
            assert_eq!(error.code, "MCSETUP-CGROUP-NOT-DELEGATED");
            assert_eq!(error.message, "not delegated");
        }
        other => panic!("{other:?}"),
    }
    let (mut launch, _) = Launch::start(policy(), AttemptContext::unsupervised());
    launch.parent_found(Ok(()));
    match launch.created(Err(fault(13))) {
        LaunchAction::Fail(error) => assert_eq!((error.code, error.os_code), ("MCSETUP-CGROUP", Some(13))),
        other => panic!("{other:?}"),
    }
}

fn gated(context: AttemptContext) -> Launch {
    let (mut launch, _) = Launch::start(policy(), context);
    launch.parent_found(Ok(()));
    launch.created(Ok(()));
    launch.configured(Ok(()));
    launch.spawned(Ok(77), ms(0));
    launch
}

#[test]
fn launchers_that_fail_are_aborted() {
    let mut launch = gated(AttemptContext::unsupervised());
    match launch.ready(Err(fault(32)), ms(10_000), ms(50)) {
        LaunchAction::Abort { deadline } => assert_eq!(deadline, ms(5050)),
        other => panic!("{other:?}"),
    }
    let error = launch.aborted("/usr/bin/memcordon", CleanupSummary::default(), true, None);
    assert_eq!(error.code, "MCSETUP-MEMCORDON-LAUNCHER-PROTOCOL");
    assert_eq!(error.launch_phase, Some("launcher-ready"));
    assert_eq!(error.target_pid, Some(77));
    assert!(error.workload_may_be_alive && !error.target_released);
    assert!(!error.cgroup_verified_before_release);
    assert_eq!(
        error.message,
        "could not execute installed MemCordon helper /usr/bin/memcordon: os error 32"
    );
    let safety = error.restart_safety.unwrap();
    assert!(safety.helpers_reaped && !safety.containment_removed);
}

#[test]
fn late_launchers_meet_the_supervision_deadline() {
    let context = AttemptContext {
        supervision_offset: Duration::zero(),
        supervision_deadline_remaining: Some(ms(500)),
    };
    let mut launch = gated(context);
    let late = Fault::new(FaultKind::TimedOut, "late");
    launch.ready(Err(late), ms(500), ms(500));
    let error = launch.aborted("h", CleanupSummary::default(), false, None);
    assert_eq!(error.code, "MCSUPERVISION-DEADLINE-BEFORE-AUTHORIZATION");
}

#[test]
fn guardians_that_fail_stop_the_release() {
    let mut launch = gated(AttemptContext::unsupervised());
    launch.ready(Ok(()), ms(10_000), ms(1));
    launch.assigned(Ok(()), ms(2));
    assert!(matches!(launch.guarded(Err(fault(2)), ms(3)), LaunchAction::Abort { .. }));
    let error = launch.aborted("h", CleanupSummary::default(), false, None);
    assert_eq!(error.code, "MCSETUP-MEMCORDON-GUARDIAN");
    assert!(error.cgroup_verified_before_release && !error.target_released);
}

#[test]
fn failed_releases_also_shut_the_guardian_down() {
    let mut launch = gated(AttemptContext::unsupervised());
    launch.ready(Ok(()), ms(10_000), ms(1));
    launch.assigned(Ok(()), ms(2));
    launch.guarded(Ok(()), ms(3));
    assert!(matches!(launch.released(Err(fault(32)), ms(4)), LaunchAction::AbortAndDisarm { .. }));
    let error = launch.aborted("h", CleanupSummary::default(), false, Some((vec![], true)));
    assert_eq!(error.launch_phase, Some("launcher-release"));
    assert!(error.workload_may_be_alive);
    assert!(!error.restart_safety.unwrap().helpers_reaped);
}

#[test]
fn commands_that_do_not_start_are_told_apart() {
    assert_eq!(classify_spawn(Some(2)), Some(InitialSpawnFailure::NotFound));
    assert_eq!(classify_spawn(Some(20)), Some(InitialSpawnFailure::NotFound));
    assert_eq!(classify_spawn(Some(8)), Some(InitialSpawnFailure::NotExecutable));
    assert_eq!(classify_spawn(Some(13)), Some(InitialSpawnFailure::NotExecutable));
    assert_eq!(classify_spawn(Some(12)), None);
    assert_eq!(classify_spawn(None), None);
    let error = spawn_error(&fault(2), "tool");
    assert_eq!(error.code, "MCSPAWN-NOT-FOUND");
    assert_eq!(error.message, "could not launch gated command tool: os error 2");
    assert_eq!(spawn_error(&fault(12), "tool").code, "MCSPAWN-FAILED");
    assert_eq!(helper_setup_error("X", "h", &fault(1)).os_code, Some(1));
}

#[test]
fn released_targets_that_do_not_run_are_unwound() {
    let mut launch = gated(AttemptContext::unsupervised());
    launch.ready(Ok(()), ms(10_000), ms(1));
    launch.assigned(Ok(()), ms(2));
    launch.guarded(Ok(()), ms(3));
    launch.released(Ok(()), ms(4));
    match launch.executed(Ok(Some(fault(2))), ms(10_000), ms(5)) {
        LaunchAction::Unwind { force, .. } => assert!(!force),
        other => panic!("{other:?}"),
    }
    let error = launch.unwound("h", "tool", left_by_itself(), Ok(()), Ok(()));
    assert_eq!(error.code, "MCSPAWN-NOT-FOUND");
    assert!(error.target_released);
    assert_eq!(error.authorization_offset, Some(ms(3)));
}

#[test]
fn status_records_are_put_together() {
    let mut record = Vec::new();
    assert!(matches!(
        status_turn(&mut record, StatusEvent::Bytes(vec![1; 5]), ms(0), ms(9)),
        StatusStep::More
    ));
    match status_turn(&mut record, StatusEvent::Bytes(vec![2; 7]), ms(0), ms(9)) {
        StatusStep::Record(Some(whole)) => {
            assert_eq!(whole, vec![1, 1, 1, 1, 1, 2, 2, 2, 2, 2, 2, 2]);
        }
        other => panic!("{other:?}"),
    }
    let mut partial = vec![1, 2];
    match status_turn(&mut partial, StatusEvent::Closed, ms(0), ms(9)) {
        StatusStep::Failed(fault) => assert_eq!(fault.kind, FaultKind::UnexpectedEof),
        other => panic!("{other:?}"),
    }
    let mut nothing = Vec::new();
    assert!(matches!(
        status_turn(&mut nothing, StatusEvent::Closed, ms(0), ms(9)),
        StatusStep::Record(None)
    ));
    let busy = || Fault { kind: FaultKind::WouldBlock, os_code: Some(11), text: Text::Fixed("busy") };
    assert!(matches!(
        status_turn(&mut nothing, StatusEvent::ReadFailed { fault: busy(), ready: true }, ms(0), ms(9)),
        StatusStep::More
    ));
    match status_turn(&mut nothing, StatusEvent::ReadFailed { fault: busy(), ready: true }, ms(9), ms(9))
    {
        StatusStep::Failed(fault) => assert_eq!(fault.kind, FaultKind::TimedOut),
        other => panic!("{other:?}"),
    }
    assert_eq!(status_timeout(Duration::zero()), 0);
    assert_eq!(status_timeout(Duration::from_nanos(1)), 1);
    assert_eq!(status_timeout(ms(7)), 7);
    assert_eq!(status_timeout(Duration::from_secs(u64::MAX)), i32::MAX);
}

fn record(kind: u8, errno: i32) -> Vec<u8> {
    let mut record = b"MCLS".to_vec();
    record.extend_from_slice(&[1, kind, 0, 0]);
    record.extend_from_slice(&errno.to_le_bytes());
    record
}

#[test]
fn launcher_reports_are_understood() {
    assert!(matches!(launcher_ready(Ok(Some(record(1, 0))), false), ReadyReply::Ready));
    assert!(matches!(launcher_ready(Ok(Some(record(2, 13))), false), ReadyReply::ErrorThenEnd(13)));
    assert!(matches!(launcher_ready(Ok(None), false), ReadyReply::Failed(_)));
    assert!(matches!(launcher_exec(Ok(None), false), ExecReply::Started));
    assert!(matches!(launcher_exec(Ok(Some(record(2, 2))), false), ExecReply::ErrorThenEnd(2)));
    assert!(matches!(launcher_exec(Ok(Some(record(1, 0))), false), ExecReply::Failed(_)));
    assert!(launcher_end(Ok(None)).is_ok());
    assert!(launcher_end(Ok(Some(record(1, 0)))).is_err());
    assert!(launcher_end(Err(fault(5))).is_err());
}

#[test]
fn reported_limits_go_before_passed_deadlines() {
    let deadline = Some(Deadline { duration: ms(10), scope: DeadlineScope::Attempt });
    let mut watch = monitor(Policy { deadline, ..limited() });
    let seen = MemoryEvents { max: 1, ..ZERO };
    assert_eq!(watch.cycle(Ok(None), Some(seen), ms(500)), MonitorAction::ReadEvents);
    assert_eq!(watch.events(Ok(seen), ms(500)), MonitorAction::ReadCurrent);
    match watch.limit_current(Ok(5000), ms(500)) {
        MonitorAction::TerminateAndWait(wait) => assert_eq!(wait, ms(100)),
        other => panic!("{other:?}"),
    }
    match watch.graced(None, ms(600)) {
        MonitorAction::Cleanup { force, deadline } => {
            assert!(force);
            assert_eq!(deadline, ms(5600));
        }
        other => panic!("{other:?}"),
    }
    let end = Some(ChildTermination::UnixSignal { signal: 9 });
    assert_eq!(watch.cleaned(end), MonitorAction::Finish);
    match watch.conclude(left_by_itself(), Some(4096), ms(700), true).unwrap() {
        RunOutcome::LimitExceeded { limit, observed, peak, evidence, .. } => {
            assert_eq!((limit, observed, peak), (4096, Some(5000), Some(5000)));
            assert_eq!(evidence.detail, "memory.events max increased from 0 to 1");
        }
        other => panic!("{other:?}"),
    }
}

#[test]
fn passed_deadlines_end_an_attempt() {
    let deadline = Some(Deadline { duration: ms(100), scope: DeadlineScope::Attempt });
    let mut watch = monitor(Policy { deadline, ..policy() });
    assert_eq!(watch.cycle(Ok(None), None, ms(102)), MonitorAction::TakeSignal);
    assert!(matches!(watch.signal(None, ms(102)), MonitorAction::Wait(_)));
    assert_eq!(watch.waited(None), MonitorAction::StartCycle);
    assert!(matches!(watch.cycle(Ok(None), None, ms(103)), MonitorAction::TerminateAndWait(_)));
    assert!(matches!(watch.graced(None, ms(150)), MonitorAction::Cleanup { force: true, .. }));
    watch.cleaned(None);
    match watch.conclude(CleanupSummary::default(), None, ms(160), true).unwrap() {
        RunOutcome::DeadlineExceeded { deadline, peak, .. } => {
            assert_eq!(deadline.duration_ms, 100);
            assert_eq!(deadline.expires_ms, 100);
            assert_eq!(deadline.observed_ms, 157);
            assert_eq!(deadline.grace_used_ms, 57);
            assert_eq!(deadline.graceful_action, Some("sigterm-process-group"));
            assert_eq!(peak, None);
        }
        other => panic!("{other:?}"),
    }
}

#[test]
fn refused_deadline_evidence_leaves_no_outcome() {
    let refused = |error: Error| {
        assert_eq!(error.category, ErrorCategory::Monitor);
        assert_eq!(error.code, "MCLIMIT-DEADLINE-EVIDENCE");
        assert_eq!(error.message, "deadline evidence is inconsistent");
    };
    let deadline = Some(Deadline { duration: ms(100), scope: DeadlineScope::Attempt });
    let expired = || {
        let mut watch = monitor(Policy { deadline, ..policy() });
        watch.cycle(Ok(None), None, ms(103));
        watch.graced(None, ms(150));
        watch.cleaned(None);
        watch
    };
    let evidence = expired().expired_evidence(ms(160)).unwrap();
    assert_eq!((evidence.expires_ms, evidence.observed_ms), (100, 157));
    refused(expired().conclude(CleanupSummary::default(), None, ms(160), false).unwrap_err());
    let mut left = monitor(policy());
    let end = ChildTermination::ExitCode { code: 0 };
    left.cycle(Ok(Some(end)), None, ms(10));
    left.signal(None, ms(10));
    left.populated(Ok(false), ms(10));
    assert!(left.expired_evidence(ms(20)).is_none());
    assert!(left.conclude(left_by_itself(), None, ms(20), false).is_ok());
    let supervised = AttemptContext {
        supervision_offset: ms(10),
        supervision_deadline_remaining: Some(ms(40)),
    };
    let cut = || {
        let (mut launch, _) = Launch::start(Policy { deadline, ..policy() }, supervised);
        launch.phase = LaunchPhase::Expired;
        launch.authorized = ms(5);
        launch
    };
    let evidence = cut().expired_evidence(ms(60));
    assert_eq!((evidence.expires_ms, evidence.observed_ms), (50, 65));
    assert_eq!(evidence.forced_action, Some("cgroup-kill"));
    match cut().expired_outcome(CleanupSummary::default(), None, ms(60), true).unwrap() {
        RunOutcome::DeadlineExceeded { deadline, .. } => assert_eq!(deadline.grace_used_ms, 0),
        other => panic!("{other:?}"),
    }
    refused(cut().expired_outcome(CleanupSummary::default(), None, ms(60), false).unwrap_err());
}

#[test]
fn signals_during_a_grace_decide() {
    let deadline = Some(Deadline { duration: ms(0), scope: DeadlineScope::Attempt });
    let mut watch = monitor(Policy { deadline, ..policy() });
    watch.cycle(Ok(None), None, ms(10));
    assert_eq!(watch.graced(Some(15), ms(11)), MonitorAction::Forward { signal: 15 });
    assert!(matches!(watch.signalled(ms(12)), MonitorAction::Cleanup { force: true, .. }));
    watch.cleaned(None);
    match watch.conclude(CleanupSummary::default(), None, ms(20), true).unwrap() {
        RunOutcome::Interrupted { signal, .. } => assert_eq!(signal, 15),
        other => panic!("{other:?}"),
    }
}

#[test]
fn commands_that_leave_take_their_workload_with_them() {
    let mut watch = monitor(policy());
    let end = ChildTermination::ExitCode { code: 0 };
    watch.cycle(Ok(Some(end)), None, ms(10));
    assert_eq!(watch.signal(None, ms(10)), MonitorAction::ReadPopulated);
    assert!(matches!(watch.populated(Ok(true), ms(10)), MonitorAction::Cleanup { force: false, .. }));
    watch.cleaned(Some(end));
    match watch.conclude(left_by_itself(), None, ms(20), true).unwrap() {
        RunOutcome::Exited { child, peak, .. } => assert_eq!((child, peak), (end, None)),
        other => panic!("{other:?}"),
    }
}

#[test]
fn workloads_are_waited_for_where_they_count() {
    let mut watch = monitor(Policy { lifetime: Lifetime::Workload, ..policy() });
    let end = ChildTermination::ExitCode { code: 0 };
    watch.cycle(Ok(Some(end)), None, ms(10));
    watch.signal(None, ms(10));
    assert!(matches!(watch.populated(Ok(true), ms(10)), MonitorAction::Wait(_)));
    watch.waited(None);
    watch.cycle(Ok(None), None, ms(60));
    watch.signal(None, ms(60));
    assert_eq!(watch.populated(Ok(false), ms(60)), MonitorAction::Finish);
}

#[test]
fn workloads_get_their_exit_grace() {
    let mut watch = monitor(Policy { command_exit_grace: ms(70), ..policy() });
    let end = ChildTermination::ExitCode { code: 0 };
    watch.cycle(Ok(Some(end)), None, ms(10));
    watch.signal(None, ms(10));
    match watch.populated(Ok(true), ms(10)) {
        MonitorAction::Wait(wait) => assert_eq!(wait, ms(50)),
        other => panic!("{other:?}"),
    }
    watch.waited(None);
    watch.cycle(Ok(None), None, ms(60));
    watch.signal(None, ms(60));
    match watch.populated(Ok(true), ms(60)) {
        MonitorAction::Wait(wait) => assert_eq!(wait, ms(20)),
        other => panic!("{other:?}"),
    }
    watch.waited(None);
    watch.cycle(Ok(None), None, ms(80));
    watch.signal(None, ms(80));
    assert!(matches!(watch.populated(Ok(true), ms(80)), MonitorAction::Cleanup { .. }));
}

#[test]
fn failed_reads_end_an_attempt() {
    let fails = |watch: Monitor, text: &str| match watch.conclude(CleanupSummary::default(), None, ms(9), true).unwrap() {
        RunOutcome::MonitorFailed { error, .. } => assert_eq!(error, text),
        other => panic!("{other:?}"),
    };
    let mut watch = monitor(limited());
    watch.cycle(Ok(None), None, ms(5));
    watch.events(Err(fault(5)), ms(5));
    watch.cleaned(None);
    fails(watch, "memory.events read failed: os error 5");
    let mut watch = monitor(limited());
    watch.cycle(Ok(None), None, ms(5));
    watch.events(Ok(ZERO), ms(5));
    watch.current(Err(fault(5)), ms(5));
    watch.cleaned(None);
    fails(watch, "memory.current read failed: os error 5");
    let mut watch = monitor(policy());
    watch.cycle(Err(fault(10)), None, ms(5));
    watch.cleaned(None);
    fails(watch, "direct-child wait failed: os error 10");
    let mut watch = monitor(policy());
    watch.cycle(Ok(Some(ChildTermination::Unavailable)), None, ms(5));
    watch.signal(None, ms(5));
    watch.populated(Err(fault(5)), ms(5));
    watch.cleaned(None);
    fails(watch, "cgroup.events read failed: os error 5");
}

#[test]
fn outcomes_are_closed_with_what_went_wrong() {
    let mut outcome = RunOutcome::Exited {
        child: ChildTermination::ExitCode { code: 1 },
        peak: None,
        cleanup: left_by_itself(),
    };
    let facts = close_outcome(&mut outcome, Err(fault(1)), Err(fault(16)));
    assert!(facts.direct_child_reaped && !facts.helpers_reaped && !facts.containment_removed);
    assert!(facts.containment_incapable_of_live_members);
    assert_eq!(facts.errors, vec!["guardian-disarm: os error 1", "remove-cgroup: os error 16"]);
    assert_eq!(outcome.cleanup().errors.len(), 2);
    assert_eq!(Error::fixed(ErrorCategory::Wait, "C", "m").message, "m");
}

#[test]
fn members_are_killed_until_none_is_left() {
    assert_eq!(member_pids("7\nx\n 12 \n"), vec![7, 12]);
    let mut summary = CleanupSummary::default();
    assert_eq!(members_first(&mut summary, Ok(true)), MembersAction::KillThenNext);
    assert!(summary.force_attempted);
    assert_eq!(members_next(&mut summary, ms(0), ms(50)), MembersAction::Look);
    assert_eq!(members_looked(&mut summary, Ok(true)), MembersAction::KillThenPause);
    assert_eq!(members_pause(&mut summary, ms(45), ms(50)), MembersAction::PauseThenNext(ms(5)));
    assert_eq!(members_looked(&mut summary, Ok(false)), MembersAction::Over);
    assert_eq!(summary.workload_empty, Some(true));
    let mut late = CleanupSummary::default();
    assert_eq!(members_next(&mut late, ms(50), ms(50)), MembersAction::Over);
    assert_eq!(late.workload_empty, Some(false));
    let mut blind = CleanupSummary::default();
    assert_eq!(members_looked(&mut blind, Err(fault(5))), MembersAction::Over);
    assert_eq!(blind.errors[0].render(), "verify-cgroup-empty: os error 5");
    match kill_round(&mut blind, Ok("7\n".to_string()), ms(0), ms(50)) {
        KillRound::Kill { pids, pause } => assert_eq!((pids, pause), (vec![7], ms(10))),
        other => panic!("{other:?}"),
    }
    assert!(matches!(kill_round(&mut blind, Ok(" \n".to_string()), ms(0), ms(50)), KillRound::Stop));
    assert!(matches!(kill_round(&mut blind, Err(fault(5)), ms(0), ms(50)), KillRound::Stop));
    group_killed(&mut blind, Err(fault(1)));
    assert_eq!(blind.errors.len(), 3);
}

#[test]
fn children_are_reaped_or_told() {
    let mut summary = CleanupSummary::default();
    let mut stored = None;
    assert_eq!(reap_next(stored, ms(0), ms(50)), ReapAction::TryWait);
    assert_eq!(reaped(&mut summary, &mut stored, Ok(None), ms(45), ms(50)), ReapAction::Pause(ms(5)));
    assert_eq!(reap_next(stored, ms(50), ms(50)), ReapAction::Over);
    close_reap(&mut summary, stored);
    assert!(!summary.direct_child_reaped);
    assert_eq!(summary.errors[0].render(), "reap-direct-child: cleanup deadline expired");
    let mut summary = CleanupSummary::default();
    let end = ChildTermination::ExitCode { code: 0 };
    reaped(&mut summary, &mut stored, Ok(Some(end)), ms(0), ms(50));
    assert_eq!(stored, Some(end));
    close_reap(&mut summary, stored);
    assert!(summary.direct_child_reaped && summary.errors.is_empty());
}

#[test]
fn aborts_are_never_silent() {
    let mut abort = GatedAbort::begin(77, Ok(()), Ok(()), ms(50));
    match abort.looked(Ok(false), Ok(()), ms(0)) {
        AbortAction::Pause(pause) => assert_eq!(pause, ms(10)),
        other => panic!("{other:?}"),
    }
    assert_eq!(abort.looked(Ok(false), Ok(()), ms(50)), AbortAction::Remove);
    let (summary, alive) = abort.removed(Err(fault(16)));
    assert!(alive && !summary.direct_child_reaped);
    let errors: Vec<String> = summary.errors.iter().map(|error| error.render()).collect();
    assert_eq!(
        errors,
        vec![
            "reap-direct-child: direct child did not exit before the cleanup deadline",
            "verify-launcher-process-group-empty: launcher process group remained live after the cleanup deadline",
            "remove-cgroup: os error 16",
        ]
    );
}

#[test]
fn complete_aborts_leave_nothing() {
    let mut abort = GatedAbort::begin(77, Err(fault(ESRCH)), Err(fault(ESRCH)), ms(50));
    let mut summary = abort.take_summary();
    assert!(summary.force_attempted && summary.errors.is_empty());
    summary.workload_empty = Some(true);
    abort.put_summary(summary);
    assert_eq!(abort.looked(Ok(true), Err(fault(ESRCH)), ms(1)), AbortAction::Remove);
    let (summary, alive) = abort.removed(Ok(()));
    assert!(!alive && summary.direct_child_reaped && summary.errors.is_empty());
}
