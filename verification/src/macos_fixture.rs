//! Verdicts on the trials that a macOS guardian is put to: what was seen of a trial
//! decides whether the guardian kept its word.

use vstd::prelude::*;
use vstd::string::*;

use crate::macos_launch::StartupError;
use crate::macos_protocol::Message;
use crate::model::{Fault, FaultKind};
use crate::scan::{contains_text, parse_i32, split_words, text_contains, words_of};
use crate::text::{chars_of, decimal, decimal_text, join2, same_text};
use crate::time::Duration;

verus! {

/// What was seen of a trial of the guardian's timer.
#[derive(Debug)]
pub struct TimerTrial {
    /// The trial could not be carried out.
    pub trouble: Option<String>,
    /// The guardian ended well after its lease was closed.
    pub retired: bool,
    /// The target still ran when its time, and some more, was over.
    pub overran: bool,
}

/// What is wrong with a trial of the timer, if anything.
pub open spec fn timer_fault(trial: TimerTrial) -> Option<Seq<char>> {
    if trial.trouble is Some {
        Some(trial.trouble->0@)
    } else if !trial.retired {
        Some("control flood did not finish with complete owned retirement"@)
    } else if trial.overran {
        Some("valid control traffic starved the original native deadline"@)
    } else {
        None
    }
}

fn timer_progress(trial: &TimerTrial) -> (r: Result<(), String>)
    ensures
        match r {
            Ok(_) => timer_fault(*trial) is None,
            Err(text) => timer_fault(*trial) == Some(text@),
        },
{
    if let Some(trouble) = &trial.trouble {
        return Err(trouble.clone());
    }
    if !trial.retired {
        return Err("control flood did not finish with complete owned retirement".to_owned());
    }
    if trial.overran {
        return Err("valid control traffic starved the original native deadline".to_owned());
    }
    Ok(())
}

/// How long the target of a timer trial may work, in nanoseconds.
pub fn timer_work(jump: bool) -> (r: u64)
    ensures
        r == if jump {
            30_000_000_000u64
        } else {
            2_000_000_000
        },
{
    if jump {
        30_000_000_000
    } else {
        2_000_000_000
    }
}

/// The verdict on a guardian that is flooded with valid messages.
pub fn control_flood(trial: &TimerTrial) -> (r: Result<(), String>)
    ensures
        match r {
            Ok(_) => timer_fault(*trial) is None,
            Err(text) => timer_fault(*trial) == Some(text@),
        },
{
    timer_progress(trial)
}

/// The verdict on a guardian whose clock jumps ahead.
pub fn clock_jump(trial: &TimerTrial) -> (r: Result<(), String>)
    ensures
        match r {
            Ok(_) => timer_fault(*trial) is None,
            Err(text) => timer_fault(*trial) == Some(text@),
        },
{
    timer_progress(trial)
}

/// The verdict on the trial itself: a guardian whose timer was switched off must be
/// found to starve its deadline. `shown` is how any other result is shown.
pub fn timer_mutation_detected(trial: &TimerTrial, shown: &str) -> (r: Result<(), String>)
    ensures
        match r {
            Ok(_) => timer_fault(*trial) == Some(
                "valid control traffic starved the original native deadline"@,
            ),
            Err(text) => timer_fault(*trial) != Some(
                "valid control traffic starved the original native deadline"@,
            ) && text@ == "disabled guardian timer mutation escaped its deadline oracle: "@ + shown@,
        },
{
    match timer_progress(trial) {
        Err(message) => {
            if same_text(
                message.as_str(),
                "valid control traffic starved the original native deadline",
            ) {
                return Ok(());
            }
            Err(
                join2("disabled guardian timer mutation escaped its deadline oracle: ", shown),
            )
        },
        Ok(_) => Err(join2("disabled guardian timer mutation escaped its deadline oracle: ", shown)),
    }
}

/// The verdict on stops that are repeated: the target must be gone in time after the
/// first. `observed` is when it was first seen to be gone.
pub fn repeated_stop(observed: Option<Duration>) -> (r: Result<(), &'static str>)
    ensures
        r == if observed matches Some(elapsed) && elapsed@ < 400_000_000 {
            Ok::<(), &'static str>(())
        } else {
            Err("repeated stop events renewed the first force deadline")
        },
{
    let timely = match observed {
        Some(elapsed) => elapsed.is_less_than(Duration::from_millis(400)),
        None => false,
    };
    if timely {
        Ok(())
    } else {
        Err("repeated stop events renewed the first force deadline")
    }
}

/// The verdict on a launch whose time was over before it began: it must fail at once,
/// and nothing may have been created.
pub fn submillisecond_deadline(failure: Option<&StartupError>, elapsed: Duration) -> (r: Result<
    (),
    &'static str,
>)
    ensures
        r == if failure matches Some(error) && error.error.kind == FaultKind::TimedOut
            && error.guardian_pid is None && error.launcher_pid is None && !error.release_sent
            && elapsed@ < 100_000_000 {
            Ok::<(), &'static str>(())
        } else {
            Err("sub-millisecond expired admission was renewed or created a helper")
        },
{
    match failure {
        Some(error) => {
            let late = match error.error.kind {
                FaultKind::TimedOut => true,
                _ => false,
            };
            if late && error.guardian_pid.is_none() && error.launcher_pid.is_none()
                && !error.release_sent && elapsed.is_less_than(Duration::from_millis(100)) {
                return Ok(());
            }
        },
        None => {},
    }
    Err("sub-millisecond expired admission was renewed or created a helper")
}

/// The verdict on letting go of a guardian that is stopped: it must fail within its
/// time, and the guardian must be reaped later on.
pub fn disarm_timeout(disarmed: bool, elapsed: Duration, discharged: bool) -> (r: Result<
    (),
    &'static str,
>)
    ensures
        r == if disarmed || elapsed@ > 250_000_000 {
            Err::<(), &'static str>("disarm timeout fell through to blocking destruction")
        } else if !discharged {
            Err("runtime did not discharge abandoned guardian reaping")
        } else {
            Ok(())
        },
{
    if disarmed || Duration::from_millis(250).is_less_than(elapsed) {
        return Err("disarm timeout fell through to blocking destruction");
    }
    if !discharged {
        return Err("runtime did not discharge abandoned guardian reaping");
    }
    Ok(())
}

/// The verdict on a run whose guardian was lost: it must be reported promptly, as a
/// failure to monitor, and without a claim that everything was retired.
pub fn running_guardian_loss(prompt: bool, monitor_failed: bool, unconfirmed: bool) -> (r: Result<
    (),
    &'static str,
>)
    ensures
        r == if prompt && monitor_failed && unconfirmed {
            Ok::<(), &'static str>(())
        } else {
            Err("running guardian loss hung or reported clean retirement")
        },
{
    if prompt && monitor_failed && unconfirmed {
        Ok(())
    } else {
        Err("running guardian loss hung or reported clean retirement")
    }
}

/// The verdict on a launch without a free place: it must fail before anything is
/// created, and the number of places must be the table's.
pub fn capacity_rejected(failure: Option<&StartupError>, exhausted: bool) -> (r: Result<
    (),
    &'static str,
>)
    ensures
        r == if !(failure matches Some(error) && error.guardian_pid is None && error.launcher_pid
            is None && !error.release_sent) {
            Err::<(), &'static str>(
                "capacity exhaustion did not reject before native creation",
            )
        } else if !exhausted {
            Err("child capacity was not exactly the bounded runtime inventory")
        } else {
            Ok(())
        },
{
    let early = match failure {
        Some(error) => error.guardian_pid.is_none() && error.launcher_pid.is_none()
            && !error.release_sent,
        None => false,
    };
    if !early {
        return Err("capacity exhaustion did not reject before native creation");
    }
    if !exhausted {
        return Err("child capacity was not exactly the bounded runtime inventory");
    }
    Ok(())
}

/// What is said when launches leave something behind.
pub open spec fn leak_text(retained: nat, current: nat, baseline: nat) -> Seq<char> {
    "repeated launch/failure leaked native child slots or private descriptors: retained="@
        + decimal(retained) + ", descriptors="@ + decimal(current) + ", baseline="@ + decimal(
        baseline,
    )
}

/// The verdict on launches that are repeated: neither a place in the table nor a
/// descriptor may be left taken.
pub fn resource_recovery(retained: u64, current: u64, baseline: u64) -> (r: Result<(), String>)
    ensures
        match r {
            Ok(_) => retained == 0 && current == baseline,
            Err(text) => (retained != 0 || current != baseline) && text@ == leak_text(
                retained as nat,
                current as nat,
                baseline as nat,
            ),
        },
{
    if retained != 0 || current != baseline {
        let a = decimal_text(retained);
        let b = decimal_text(current);
        let c = decimal_text(baseline);
        let mut text = join2(
            "repeated launch/failure leaked native child slots or private descriptors: retained=",
            a.as_str(),
        );
        text.append(", descriptors=");
        text.append(b.as_str());
        text.append(", baseline=");
        text.append(c.as_str());
        return Err(text);
    }
    Ok(())
}

/// The verdict on a launch with an injected fault: it must not have released the
/// target.
pub fn startup_fault(released: bool) -> (r: Result<(), &'static str>)
    ensures
        r == if released {
            Err::<(), &'static str>("injected startup fault unexpectedly released the target")
        } else {
            Ok(())
        },
{
    if released {
        Err("injected startup fault unexpectedly released the target")
    } else {
        Ok(())
    }
}

/// Whether an inspection failed with a text that says `needle`.
pub open spec fn failed_with(result: Result<(), String>, needle: Seq<char>) -> bool {
    result matches Err(text) && contains_text(text@, needle)
}

fn fails_with(result: &Result<(), String>, needle: &str) -> (r: bool)
    ensures
        r == failed_with(*result, needle@),
{
    match result {
        Ok(_) => false,
        Err(text) => {
            let chars = chars_of(text.as_str());
            let wanted = chars_of(needle);
            text_contains(chars.as_slice(), wanted.as_slice())
        },
    }
}

/// What was seen of inspections while the inspectors' worker was stalled. `queued_shown`,
/// `full_shown` and `stalled_shown` are how those results are shown.
#[derive(Debug)]
pub struct StallTrial {
    /// Whether the stalled inspection is still owed.
    pub obligation: bool,
    /// An inspection whose time was over.
    pub expired: Result<(), String>,
    /// An inspection that waits behind the stalled one.
    pub queued: Result<(), String>,
    pub queued_shown: String,
    /// An inspection that finds the place taken, once the queued one was admitted.
    pub full: Option<Result<(), String>>,
    pub full_shown: String,
    /// The stalled inspection itself, as its caller saw it, or why the caller saw nothing.
    pub stalled: Result<Result<(), String>, String>,
    pub stalled_shown: String,
    /// An emergency inspection.
    pub emergency: bool,
    /// The target and its guardian, once the stall was over.
    pub retired: Result<(), String>,
}

/// What is wrong with inspections that meet a stalled worker, if anything.
pub open spec fn stall_fault(trial: StallTrial) -> Option<Seq<char>> {
    if !failed_with(trial.expired, "deadline expired"@) {
        Some("expired monitoring inspection was admitted"@)
    } else if trial.full is None {
        Some("queued inspection was not admitted: "@ + trial.queued_shown@)
    } else if !failed_with(trial.queued, "deadline expired"@) {
        Some("queued inspection did not time out: "@ + trial.queued_shown@)
    } else if !failed_with(trial.full->0, "busy"@) {
        Some("occupied inspector did not reject capacity: "@ + trial.full_shown@)
    } else {
        match trial.stalled {
            Err(why) => Some("stalled inspection caller did not return: "@ + why@),
            Ok(stalled) => if !failed_with(stalled, "deadline expired"@) {
                Some("stalled inspection caller did not time out: "@ + trial.stalled_shown@)
            } else if !trial.emergency {
                Some("emergency inspection was blocked by the stalled normal lane"@)
            } else {
                match trial.retired {
                    Err(text) => Some(text@),
                    Ok(_) => None,
                }
            },
        }
    }
}

fn stalled_inspections(trial: &StallTrial) -> (r: Result<(), String>)
    ensures
        match r {
            Ok(_) => stall_fault(*trial) is None,
            Err(text) => stall_fault(*trial) == Some(text@),
        },
{
    if !fails_with(&trial.expired, "deadline expired") {
        return Err("expired monitoring inspection was admitted".to_owned());
    }
    let full = match &trial.full {
        None => {
            return Err(join2("queued inspection was not admitted: ", trial.queued_shown.as_str()));
        },
        Some(full) => full,
    };
    if !fails_with(&trial.queued, "deadline expired") {
        return Err(join2("queued inspection did not time out: ", trial.queued_shown.as_str()));
    }
    if !fails_with(full, "busy") {
        return Err(
            join2("occupied inspector did not reject capacity: ", trial.full_shown.as_str()),
        );
    }
    match &trial.stalled {
        Err(why) => Err(join2("stalled inspection caller did not return: ", why.as_str())),
        Ok(stalled) => {
            if !fails_with(stalled, "deadline expired") {
                return Err(
                    join2(
                        "stalled inspection caller did not time out: ",
                        trial.stalled_shown.as_str(),
                    ),
                );
            }
            if !trial.emergency {
                return Err(
                    "emergency inspection was blocked by the stalled normal lane".to_owned(),
                );
            }
            match &trial.retired {
                Err(text) => Err(text.clone()),
                Ok(_) => Ok(()),
            }
        },
    }
}

/// What was seen of inspections once the stalled worker was let go.
#[derive(Debug)]
pub struct RecoveryTrial {
    /// The cleanup lane while both normal places were still taken.
    pub recovered: Result<(), String>,
    /// Whether the queued inspection was carried out after its time.
    pub queued_executed: bool,
    /// Whether a failed inspection was reported as it was.
    pub failure_preserved: bool,
    /// Whether nothing was owed in the end.
    pub settled: bool,
}

/// What is wrong with inspectors that were stalled and let go, if anything. What came
/// after the stall counts before what was seen during it.
pub open spec fn inspector_fault(trial: StallTrial, after: RecoveryTrial) -> Option<Seq<char>> {
    if !trial.obligation {
        Some("stalled native inspection lost its runtime obligation"@)
    } else {
        match after.recovered {
            Err(text) => Some(text@),
            Ok(_) => if after.queued_executed {
                Some("expired queued inspection executed after worker release"@)
            } else if !after.failure_preserved {
                Some("cleanup admission did not preserve native inspection failure"@)
            } else if !after.settled {
                Some("completed or expired inspection retained an obligation"@)
            } else {
                stall_fault(trial)
            },
        }
    }
}

/// The verdict on inspectors that are stalled and let go.
pub fn inspector_stall(trial: &StallTrial, after: &RecoveryTrial) -> (r: Result<(), String>)
    ensures
        match r {
            Ok(_) => inspector_fault(*trial, *after) is None,
            Err(text) => inspector_fault(*trial, *after) == Some(text@),
        },
{
    if !trial.obligation {
        return Err("stalled native inspection lost its runtime obligation".to_owned());
    }
    if let Err(text) = &after.recovered {
        return Err(text.clone());
    }
    if after.queued_executed {
        return Err("expired queued inspection executed after worker release".to_owned());
    }
    if !after.failure_preserved {
        return Err("cleanup admission did not preserve native inspection failure".to_owned());
    }
    if !after.settled {
        return Err("completed or expired inspection retained an obligation".to_owned());
    }
    stalled_inspections(trial)
}

/// Decides how the wait for an emergency inspector goes on while the normal one is
/// stopped: true once the emergency inspector replied.
pub fn process_inspector_stall(normal: bool, emergency: bool, expired: bool) -> (r: Result<
    bool,
    &'static str,
>)
    ensures
        r == if normal {
            Err::<bool, &'static str>("stopped normal inspector unexpectedly replied")
        } else if emergency {
            Ok(true)
        } else if expired {
            Err("emergency process was blocked by the stopped normal process")
        } else {
            Ok(false)
        },
{
    if normal {
        return Err("stopped normal inspector unexpectedly replied");
    }
    if emergency {
        return Ok(true);
    }
    if expired {
        return Err("emergency process was blocked by the stopped normal process");
    }
    Ok(false)
}

/// Takes a guardian's word that its inspectors are stalled: their process numbers.
pub fn guardian_inspector_wrapper(came: &Option<Message>) -> (r: Result<
    (u32, u32),
    &'static str,
>)
    ensures
        r == match *came {
            Some(Message::InspectorsStalled { normal, emergency }) => Ok::<
                (u32, u32),
                &'static str,
            >((normal, emergency)),
            _ => Err("guardian inspector stall acknowledgment missing"),
        },
{
    match came {
        Some(Message::InspectorsStalled { normal, emergency }) => Ok((*normal, *emergency)),
        _ => Err("guardian inspector stall acknowledgment missing"),
    }
}

/// Why a descendant's record holds no process number.
#[derive(Clone, Copy, Debug, PartialEq, Eq, Structural)]
pub enum RecordFault {
    Missing,
    Number(crate::scan::NumberFault),
}

/// The process number that a descendant's record begins with.
pub open spec fn recorded_pid(record: Seq<char>) -> Result<int, RecordFault> {
    let words = words_of(record);
    if words.len() == 0 {
        Err(RecordFault::Missing)
    } else {
        match crate::scan::integer_in(words[0], i32::MAX as nat) {
            Ok(pid) => Ok(pid),
            Err(fault) => Err(RecordFault::Number(fault)),
        }
    }
}

/// Reads the process number that a descendant's record begins with.
pub fn descendant(record: &str) -> (r: Result<i32, RecordFault>)
    ensures
        match r {
            Ok(pid) => recorded_pid(record@) == Ok::<int, RecordFault>(pid as int),
            Err(fault) => recorded_pid(record@) == Err::<int, RecordFault>(fault),
        },
{
    let chars = chars_of(record);
    let words = split_words(chars.as_slice());
    if words.len() == 0 {
        assert(words_of(record@).len() == 0);
        return Err(RecordFault::Missing);
    }
    assert(words_of(record@)[0] == words@[0]@);
    match parse_i32(words[0].as_slice()) {
        Ok(pid) => Ok(pid),
        Err(fault) => Err(RecordFault::Number(fault)),
    }
}

/// How a frontend goes on after a guardian's look at a descendant.
#[derive(Debug)]
pub enum CustodyStep {
    /// The guardian holds the descendant.
    Observed,
    /// Ask once more after ten milliseconds.
    AskAgain,
}

/// Decides how a frontend goes on after a guardian's answer to a look at `pid`. `shown` is
/// how an unexpected answer is shown.
pub fn custody_wrapper(came: &Option<Message>, pid: i32, expired: bool, shown: &str) -> (r: Result<
    CustodyStep,
    String,
>)
    ensures
        match *came {
            Some(Message::Observed { pid: seen, observed }) if seen == pid && (observed
                || !expired) => r == Ok::<CustodyStep, String>(
                if observed {
                    CustodyStep::Observed
                } else {
                    CustodyStep::AskAgain
                },
            ),
            _ => r matches Err(text) && text@ == "unexpected guardian snapshot acknowledgment: "@
                + shown@,
        },
{
    match came {
        Some(Message::Observed { pid: seen, observed }) => {
            if *seen == pid {
                if *observed {
                    return Ok(CustodyStep::Observed);
                }
                if !expired {
                    return Ok(CustodyStep::AskAgain);
                }
            }
            Err(join2("unexpected guardian snapshot acknowledgment: ", shown))
        },
        _ => Err(join2("unexpected guardian snapshot acknowledgment: ", shown)),
    }
}

/// What was seen of a caller's state after it was captured and handed over.
#[derive(Clone, Copy, Debug, PartialEq, Eq, Structural)]
pub struct TransferTrial {
    /// The captured descriptor came over.
    pub present: bool,
    pub flags_kept: bool,
    pub contents_kept: bool,
    pub directory_kept: bool,
    /// A manifest of another run was taken.
    pub wrong_run_taken: bool,
    /// A manifest without its descriptors was taken.
    pub rightless_taken: bool,
}

/// The verdict on the handing over of a caller's state.
pub fn transfer_fixture(trial: TransferTrial) -> (r: Result<(), Fault>)
    ensures
        r == if !trial.present {
            Err::<(), Fault>(Fault::found(FaultKind::Other, "invalid caller descriptor envelope"))
        } else if !trial.flags_kept {
            Err(Fault::found(FaultKind::Other, "capture changed shared descriptor flags"))
        } else if !trial.contents_kept {
            Err(Fault::found(FaultKind::Other, "descriptor reuse changed captured source"))
        } else if !trial.directory_kept {
            Err(Fault::found(FaultKind::Other, "cwd change altered captured directory"))
        } else if trial.wrong_run_taken {
            Err(Fault::found(FaultKind::Other, "wrong-run manifest accepted"))
        } else if trial.rightless_taken {
            Err(Fault::found(FaultKind::Other, "missing descriptor rights accepted"))
        } else {
            Ok(())
        },
{
    if !trial.present {
        return Err(Fault::new(FaultKind::Other, "invalid caller descriptor envelope"));
    }
    if !trial.flags_kept {
        return Err(Fault::new(FaultKind::Other, "capture changed shared descriptor flags"));
    }
    if !trial.contents_kept {
        return Err(Fault::new(FaultKind::Other, "descriptor reuse changed captured source"));
    }
    if !trial.directory_kept {
        return Err(Fault::new(FaultKind::Other, "cwd change altered captured directory"));
    }
    if trial.wrong_run_taken {
        return Err(Fault::new(FaultKind::Other, "wrong-run manifest accepted"));
    }
    if trial.rightless_taken {
        return Err(Fault::new(FaultKind::Other, "missing descriptor rights accepted"));
    }
    Ok(())
}

} // verus!
