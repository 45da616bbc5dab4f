use memcordon_platform::model::{Fault, FaultKind, Text};
use memcordon_platform::signal::{
    committed, interruption, is_call_off, poll_failed, recorded, renewed, Admission, CallerSignalSnapshot,
    CancellationHandle, SignalSource, SignalWait, COMMITTED,
};
use memcordon_platform::time::Duration;

fn fault(text: &str) -> Fault {
    Fault { kind: FaultKind::Other, os_code: Some(5), text: Text::Given(text.to_string()) }
}

#[test]
fn the_first_signal_stays() {
    let word = recorded(0, 15).unwrap();
    assert_eq!(interruption(word), Some(15));
    assert_eq!(recorded(word, 2).map(interruption).unwrap_or(Some(15)), Some(15));
    assert_eq!(interruption(0), None);
    assert!(is_call_off(2) && is_call_off(15) && !is_call_off(9));
}

#[test]
fn commitments_are_made_once() {
    let word = committed(0).unwrap();
    assert_eq!(word & COMMITTED, COMMITTED);
    assert!(committed(word).is_err());
    assert!(committed(recorded(0, 2).unwrap()).is_err());
    let after = recorded(word, 2).unwrap();
    assert_eq!(interruption(after), Some(2));
    assert_eq!(interruption(renewed(after)), Some(2));
    assert_eq!(renewed(word) & COMMITTED, 0);
}

#[test]
fn admissions_are_called_off_by_signals() {
    let mut admission = Admission::new();
    assert!(admission.check(Ok(5)).is_ok());
    admission.record(15);
    assert!(admission.check(Ok(9)).is_err());
    assert_eq!(admission.observed_at(50), 9);
    assert!(admission.commit().is_err());
    let mut admission = Admission::new();
    assert!(admission.commit().is_ok());
    assert!(admission.commit().is_err());
    admission.next_attempt();
    assert!(admission.commit().is_ok());
    assert!(admission.claim().is_ok());
    assert!(admission.claim().is_err());
}

#[test]
fn handles_interrupt_by_known_signals() {
    let mut handle = CancellationHandle::new();
    assert!(handle.interrupt(9).is_err());
    assert!(handle.interrupt(15).is_ok());
    assert_eq!(interruption(handle.admission.word), Some(15));
    assert_eq!(CancellationHandle::default().admission.word, 0);
    let mut handle = CancellationHandle::new();
    assert!(SignalSource::host(&mut handle).is_ok());
    assert!(SignalSource::host(&mut handle).is_err());
}

#[test]
fn holders_share_one_handle() {
    let mut shared = CancellationHandle::new();
    for (holder, signal) in [(0, 15), (1, 2), (0, 1)] {
        assert!(shared.interrupt(signal).is_ok(), "holder {holder}");
        assert_eq!(interruption(shared.admission.word), Some(15));
    }
    assert!(SignalSource::host(&mut shared).is_ok());
    assert!(SignalSource::host(&mut shared).is_err());
    assert_eq!(interruption(shared.admission.word), Some(15));
}

#[test]
fn sessions_are_freed_once() {
    let (mut source, _) = SignalSource::install(false).unwrap();
    let (result, freed) = source.finish(&vec![]);
    assert!(result.is_ok() && freed);
    let (_, fresh) = SignalSource::install(!freed).unwrap();
    assert_eq!(fresh, Admission::new());
    assert_eq!((interruption(fresh.word), fresh.observed), (None, 0));
    assert!(!source.finish(&vec![]).1);
    let (mut source, _) = SignalSource::install(false).unwrap();
    let (result, freed) = source.finish(&vec!["x".to_string()]);
    assert!(result.is_err() && !freed);
    assert!(SignalSource::install(!freed).is_err());
}

#[test]
fn callers_signals_are_captured() {
    let mut readings = vec![false; 31];
    readings[0] = true;
    readings[8] = true;
    let snapshot = CallerSignalSnapshot::capture(Ok(6), &readings).unwrap();
    assert_eq!(snapshot.mask, 6);
    assert!(snapshot.ignored.contains(&1));
    assert!(CallerSignalSnapshot::capture(Err(fault("no")), &readings).is_err());
}

#[test]
fn handlers_are_installed_and_restored_in_turn() {
    let (mut source, _) = SignalSource::install(false).unwrap();
    assert!(SignalSource::install(true).is_err());
    let mut order = Vec::new();
    while let Some(signal) = source.next() {
        order.push(signal);
        source.installed();
    }
    assert_eq!(order.len(), 3);
    assert!(order.iter().all(|signal| is_call_off(*signal)));
    let mut back = source.restoring();
    back.sort();
    let mut sorted = order.clone();
    sorted.sort();
    assert_eq!(back, sorted);
    let (result, _) = source.finish(&vec![]);
    assert!(result.is_ok());
}

#[test]
fn failed_installations_tell_the_rollback() {
    let error = SignalSource::install_failed(fault("install"), Ok(()));
    assert_eq!(error.text.render(), "install");
    let error = SignalSource::install_failed(fault("install"), Err(fault("rollback")));
    let text = error.text.render();
    assert!(text.contains("install") && text.contains("rollback"));
    let (mut source, _) = SignalSource::install(false).unwrap();
    source.installed();
    source.restoring();
    let (result, _) = source.finish(&vec!["a".to_string(), "b".to_string()]);
    let text = result.unwrap_err().text.render();
    assert!(text.contains("a") && text.contains("b"));
}

#[test]
fn waits_are_bounded() {
    assert!(matches!(
        SignalSource::wait(Some(2), Duration::zero(), Duration::from_millis(5)),
        SignalWait::Over(Some(2))
    ));
    assert!(matches!(
        SignalSource::wait(None, Duration::from_millis(5), Duration::from_millis(5)),
        SignalWait::Over(None)
    ));
    assert!(matches!(
        SignalSource::wait(None, Duration::zero(), Duration::from_millis(5)),
        SignalWait::Poll(5)
    ));
    let (taken, left) = SignalSource::take(false, recorded(0, 2).unwrap());
    assert_eq!((taken, left), (Some(2), 0));
    let (taken, left) = SignalSource::take(true, recorded(0, 2).unwrap());
    assert_eq!((taken, interruption(left)), (Some(2), Some(2)));
    assert_eq!(SignalSource::take(false, 0).0, None);
    let interrupted = Fault { kind: FaultKind::Interrupted, os_code: Some(4), text: Text::Fixed("x") };
    assert!(poll_failed(interrupted).is_ok());
    assert!(poll_failed(fault("y")).is_err());
}
