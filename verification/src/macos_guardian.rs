//! The guardian of a workload on macOS: one turn after another it minds the clock,
//! the launcher, the inspectors and the frontend, and it leaves only once nothing
//! of the workload is left.

use vstd::prelude::*;
use vstd::string::*;

use crate::macos_inventory::Identities;
use crate::macos_lane::{answers, inventory_answers_query, InventoryLane};
use crate::macos_protocol::Message;
use crate::model::{Fault, FaultKind, SIGHUP, SIGINT, SIGKILL, SIGQUIT, SIGTERM};
use crate::policy::Metric;

verus! {

/// How long a frontend may be silent, in nanoseconds.
pub const LEASE: u64 = 2_000_000_000;

/// The shortest time between two inspections that nobody asked for, in nanoseconds.
pub const INSPECTION_PAUSE: u64 = 20_000_000;

/// What is kept in reserve for retirement after a workload was forced, in
/// nanoseconds.
pub const RETIREMENT_RESERVE: u64 = 4_000_000_000;

/// The native error number of a failed transfer.
pub const EIO: i32 = 5;

/// What a guardian was told when it was started: until when the target must have
/// been released, until when it may work, and how long it has to end by itself.
#[derive(Clone, Copy, Debug, PartialEq, Eq, Structural)]
pub struct CustodyPlan {
    pub startup: u64,
    pub work: Option<u64>,
    pub grace: u64,
}

/// A frontend's question about the workload.
#[derive(Clone, Copy, Debug, PartialEq, Eq, Structural)]
pub struct Query {
    pub query: u64,
    pub metric: Option<Metric>,
}

/// How a guardian's plan starts out.
#[derive(Clone, Copy, Debug, PartialEq, Eq, Structural)]
pub enum Admission {
    /// Go on.
    Admitted,
    /// It is too late to start.
    Late,
}

/// Whether a plan can be carried out at all.
pub open spec fn representable(plan: CustodyPlan) -> bool {
    let end = match plan.work {
        Some(work) => work,
        None => plan.startup,
    };
    end + plan.grace + RETIREMENT_RESERVE <= u64::MAX
}

/// Decides whether a plan is taken on at `now`.
pub fn take_on(plan: CustodyPlan, now: u64) -> (r: Admission)
    ensures
        r == if now >= plan.startup || (plan.work matches Some(work) && now >= work) {
            Admission::Late
        } else {
            Admission::Admitted
        },
{
    let over = match plan.work {
        Some(work) => now >= work,
        None => false,
    };
    if now >= plan.startup || over {
        Admission::Late
    } else {
        Admission::Admitted
    }
}

/// Decides whether every deadline of a plan is within range: no overflow may lead
/// to a workload without a bound.
pub fn reserve(plan: CustodyPlan) -> (r: Result<(), Fault>)
    ensures
        r == if representable(plan) {
            Ok::<(), Fault>(())
        } else {
            Err(Fault::found(FaultKind::Other, "guardian retirement deadline overflow"))
        },
{
    let end: u64 = match plan.work {
        Some(work) => work,
        None => plan.startup,
    };
    let total: u128 = end as u128 + plan.grace as u128 + RETIREMENT_RESERVE as u128;
    if total > u64::MAX as u128 {
        Err(Fault::new(FaultKind::Other, "guardian retirement deadline overflow"))
    } else {
        Ok(())
    }
}

/// Where a guardian stands.
#[derive(Clone, Copy, Debug, PartialEq, Eq, Structural)]
pub struct CustodyState {
    /// The launcher process, which becomes the target, is owned.
    pub target: bool,
    /// It was reaped.
    pub reaped: bool,
    /// The launcher's end of the protocol is open.
    pub launcher: bool,
    /// Its exec is watched for.
    pub witness: bool,
    /// It waits for its release.
    pub prepared: bool,
    /// It was released.
    pub released: bool,
    /// Its exec was seen.
    pub confirmed: bool,
    /// The frontend is there.
    pub connected: bool,
    /// Since when the workload is to end.
    pub terminal: Option<u64>,
    /// When it is forced.
    pub force_at: Option<u64>,
    /// When force was first used.
    pub force_requested: Option<u64>,
    /// The frontend knows of that.
    pub receipt_sent: bool,
    /// A signal for members that the group's signal does not reach.
    pub queued_signal: Option<i32>,
    /// What the frontend asked.
    pub frontend: Option<Query>,
    /// An answer is on its way to the frontend.
    pub output: bool,
    /// No member lives.
    pub empty: bool,
    /// An inspector is at work or not yet gone.
    pub inspection: bool,
    pub last_inspection: u64,
    pub last_control: u64,
    /// How far a fixture moved the clock.
    pub clock_advance: u64,
    /// A fixture switched the work's timer off.
    pub timer_disabled: bool,
}

impl CustodyState {
    /// How a guardian that took its plan on at `now` starts out.
    pub open spec fn fresh(now: u64) -> CustodyState {
        CustodyState {
            target: false,
            reaped: false,
            launcher: false,
            witness: false,
            prepared: false,
            released: false,
            confirmed: false,
            connected: true,
            terminal: None,
            force_at: None,
            force_requested: None,
            receipt_sent: false,
            queued_signal: None,
            frontend: None,
            output: false,
            empty: false,
            inspection: false,
            last_inspection: 0,
            last_control: now,
            clock_advance: 0,
            timer_disabled: false,
        }
    }

    /// What always holds of a guardian.
    pub open spec fn wf(self) -> bool {
        &&& self.terminal is Some <==> self.force_at is Some
        &&& self.force_requested is Some ==> self.terminal is Some
        &&& self.launcher ==> self.target
        &&& self.prepared ==> self.target && self.witness
        &&& self.target && self.terminal is None ==> self.witness
        &&& self.released ==> self.prepared
        &&& self.confirmed ==> self.released
        &&& self.prepared && !self.released && self.terminal is None ==> self.launcher
        &&& self.reaped ==> self.target
    }

    /// The workload is to end now, unless it is already to end.
    pub open spec fn failed(self, now: u64) -> CustodyState {
        if self.terminal is Some {
            self
        } else {
            CustodyState { terminal: Some(now), force_at: Some(now), ..self }
        }
    }

    fn fail(self, now: u64) -> (r: CustodyState)
        ensures
            r == self.failed(now),
    {
        if self.terminal.is_some() {
            self
        } else {
            CustodyState { terminal: Some(now), force_at: Some(now), ..self }
        }
    }

    /// Whether force is due.
    pub open spec fn force_due(self, now: u64) -> bool {
        self.force_at matches Some(at) && now >= at
    }
}

/// How the state of a guardian may change: once the workload is to end, neither
/// since when nor when it is forced changes again, and nothing is released that was
/// not before; and what was done is not undone.
pub open spec fn progresses(a: CustodyState, b: CustodyState) -> bool {
    &&& a.terminal is Some ==> b.terminal == a.terminal && b.force_at == a.force_at
    &&& a.terminal is Some && !a.released ==> !b.released
    &&& a.force_requested is Some ==> b.force_requested == a.force_requested
    &&& a.target ==> b.target
    &&& a.prepared ==> b.prepared
    &&& a.released ==> b.released
    &&& a.confirmed ==> b.confirmed
    &&& !a.connected ==> !b.connected
}

/// Change by one step after another is change of the same kind.
pub proof fn progress_adds_up(a: CustodyState, b: CustodyState, c: CustodyState)
    requires
        progresses(a, b),
        progresses(b, c),
    ensures
        progresses(a, c),
{
}

/// A stop, however often it is repeated, does not renew the deadline of the first.
pub proof fn stops_do_not_renew(a: CustodyState, b: CustodyState)
    requires
        progresses(a, b),
        a.terminal is Some,
    ensures
        b.force_at == a.force_at,
{
}

/// When the work's time ends, or, before the release, when the startup's does.
pub open spec fn expiry(plan: CustodyPlan, s: CustodyState) -> Option<u64> {
    if s.timer_disabled {
        None
    } else if s.released {
        plan.work
    } else {
        Some(plan.startup)
    }
}

/// Whether the frontend has been silent for too long.
pub open spec fn lease_over(s: CustodyState, now: u64) -> bool {
    s.terminal is None && s.released && now - s.last_control >= LEASE
}

/// Whether a deadline has passed while nothing else had ended the workload.
pub open spec fn expired(plan: CustodyPlan, s: CustodyState, now: u64) -> bool {
    s.terminal is None && !lease_over(s, now) && (expiry(plan, s) matches Some(at) && now >= at)
}

/// When a workload that expires is forced: a target that was released has its grace.
pub open spec fn expired_force(plan: CustodyPlan, s: CustodyState) -> int {
    expiry(plan, s)->0 + if s.released {
        plan.grace as int
    } else {
        0
    }
}

/// What became of creating the launcher.
#[derive(Clone, Copy, Debug, PartialEq, Eq, Structural)]
pub enum SpawnEvent {
    Pending,
    Spawned,
    Failed(Option<i32>),
    Gone,
}

/// What follows from it.
#[derive(Clone, Copy, Debug, PartialEq, Eq, Structural)]
pub enum SpawnStep {
    Nothing,
    /// Watch for the exec of the process that was created.
    Watch,
    /// The process is owned, to be ended.
    Adopted,
    /// Leave with status 126, after telling the frontend of the error, if it is to
    /// be told.
    Leave(Option<i32>),
}

/// What came from the launcher.
#[derive(Clone, Copy, Debug, PartialEq, Eq, Structural)]
pub enum LauncherEvent {
    Ready,
    Closed,
    Failure(i32),
    Nothing,
    Other,
}

/// What follows from it.
#[derive(Clone, Copy, Debug, PartialEq, Eq, Structural)]
pub enum LauncherStep {
    Nothing,
    /// Tell the frontend that the target waits for its release.
    SendPrepared,
    /// See whether the kernel has seen the exec.
    ConfirmExec,
    /// Tell the frontend of the error.
    SendFailure(i32),
}

/// The inspector that an answer comes from.
#[derive(Clone, Copy, Debug, PartialEq, Eq, Structural)]
pub enum LaneName {
    Normal,
    Emergency,
}

/// An inspection that is due.
#[derive(Clone, Copy, Debug, PartialEq, Eq, Structural)]
pub struct Inspection {
    pub lane: LaneName,
    pub sequence: u64,
    pub signal: Option<i32>,
    pub metric: Option<Metric>,
}

/// What came from the frontend.
#[derive(Debug)]
pub enum ControlEvent {
    Message(Message),
    Nothing,
    Lost,
}

/// What follows from it.
#[derive(Clone, Copy, Debug, PartialEq, Eq, Structural)]
pub enum ControlStep {
    Nothing,
    /// Answer that no member lives, with a sample of nothing where one was asked.
    AnswerEmpty { query: u64, sampled: bool },
    /// Send the signal to the target's group.
    SignalGroup(i32),
    /// Release the target, then tell the frontend when.
    Release { at: u64 },
    /// Tell the frontend how the target stands.
    ReportStatus,
    /// Reap the target, where that is allowed, and tell the frontend.
    Reap { allowed: bool },
    /// Tell the frontend that everything is retired, and leave with status 0.
    Retire,
    /// Let a creation that a fixture holds go on.
    ResumeSpawn,
    /// Let a fixture interrupt the clock.
    InterruptClock,
    /// Stop the inspectors for a fixture.
    StallInspectors { both: bool },
    /// Tell a fixture whether a process is known.
    Observed { pid: i32, observed: bool },
}

/// A guardian.
#[derive(Debug)]
pub struct Custody {
    pub plan: CustodyPlan,
    pub state: CustodyState,
    pub known: Identities,
    pub group_signal_error: Option<String>,
    pub normal: InventoryLane,
    pub emergency: InventoryLane,
}

/// Whether a signal is one that a frontend may ask for.
pub open spec fn is_stop_signal(signal: i32) -> bool {
    signal == SIGKILL || signal == SIGTERM || signal == SIGINT || signal == SIGHUP || signal
        == SIGQUIT
}

/// Whether a signal is one that a frontend may ask for.
pub fn stop_signal(signal: i32) -> (r: bool)
    ensures
        r == is_stop_signal(signal),
{
    signal == SIGKILL || signal == SIGTERM || signal == SIGINT || signal == SIGHUP || signal
        == SIGQUIT
}

/// When a workload that is to stop is forced: when that was asked for, but no later
/// than its own time and grace allow.
pub open spec fn stop_force(plan: CustodyPlan, force: u64) -> u64 {
    match plan.work {
        None => force,
        Some(work) => {
            let end = if work + plan.grace > u64::MAX {
                u64::MAX
            } else {
                (work + plan.grace) as u64
            };
            if force <= end {
                force
            } else {
                end
            }
        },
    }
}

fn force_of(plan: CustodyPlan, force: u64) -> (r: u64)
    ensures
        r == stop_force(plan, force),
{
    match plan.work {
        None => force,
        Some(work) => {
            let end: u64 = work.saturating_add(plan.grace);
            if force <= end {
                force
            } else {
                end
            }
        },
    }
}

/// Whether the frontend's release is granted.
pub open spec fn release_granted(plan: CustodyPlan, s: CustodyState, now: u64) -> bool {
    &&& s.prepared && !s.released && s.terminal is None
    &&& now < plan.startup
    &&& plan.work matches Some(work) ==> now < work
}

/// Whether the frontend may let the guardian go.
pub open spec fn disarm_granted(s: CustodyState) -> bool {
    s.empty && s.target && s.reaped && !s.inspection
}

/// The state after a stop, before which nothing had ended the workload.
pub open spec fn stopped(plan: CustodyPlan, s: CustodyState, now: u64, force: u64) -> CustodyState {
    CustodyState { terminal: Some(now), force_at: Some(stop_force(plan, force)), ..s }
}

/// What a stop with a signal leads to.
pub open spec fn signal_stopped(
    plan: CustodyPlan,
    heard: CustodyState,
    signal: i32,
    force: u64,
    now: u64,
) -> (CustodyState, ControlStep) {
    if !is_stop_signal(signal) {
        (heard.failed(now), ControlStep::Nothing)
    } else if heard.terminal is Some {
        (heard, ControlStep::Nothing)
    } else {
        (
            CustodyState { queued_signal: Some(signal), ..stopped(plan, heard, now, force) },
            if heard.target && !heard.reaped {
                ControlStep::SignalGroup(signal)
            } else {
                ControlStep::Nothing
            },
        )
    }
}

fn heed_signal(plan: CustodyPlan, heard: CustodyState, signal: i32, force: u64, now: u64) -> (r: (
    CustodyState,
    ControlStep,
))
    ensures
        r == signal_stopped(plan, heard, signal, force, now),
{
    if !stop_signal(signal) {
        return (heard.fail(now), ControlStep::Nothing);
    }
    if heard.terminal.is_some() {
        return (heard, ControlStep::Nothing);
    }
    let step = if heard.target && !heard.reaped {
        ControlStep::SignalGroup(signal)
    } else {
        ControlStep::Nothing
    };
    let next = CustodyState {
        terminal: Some(now),
        force_at: Some(force_of(plan, force)),
        queued_signal: Some(signal),
        ..heard
    };
    (next, step)
}

/// What a stop without a signal leads to.
pub open spec fn stopped_at(plan: CustodyPlan, heard: CustodyState, force: u64, now: u64) -> CustodyState {
    if heard.terminal is Some {
        heard
    } else {
        stopped(plan, heard, now, force)
    }
}

fn heed_stop(plan: CustodyPlan, heard: CustodyState, force: u64, now: u64) -> (r: CustodyState)
    ensures
        r == stopped_at(plan, heard, force, now),
{
    if heard.terminal.is_some() {
        heard
    } else {
        CustodyState { terminal: Some(now), force_at: Some(force_of(plan, force)), ..heard }
    }
}

/// What a request to release the target leads to.
pub open spec fn release_asked(plan: CustodyPlan, heard: CustodyState, now: u64) -> (
    CustodyState,
    ControlStep,
) {
    if release_granted(plan, heard, now) {
        (CustodyState { released: true, ..heard }, ControlStep::Release { at: now })
    } else {
        (heard.failed(now), ControlStep::Nothing)
    }
}

fn heed_release(plan: CustodyPlan, heard: CustodyState, now: u64) -> (r: (CustodyState, ControlStep))
    ensures
        r == release_asked(plan, heard, now),
{
    let in_time = now < plan.startup && match plan.work {
        Some(work) => now < work,
        None => true,
    };
    if heard.prepared && !heard.released && heard.terminal.is_none() && in_time {
        (CustodyState { released: true, ..heard }, ControlStep::Release { at: now })
    } else {
        (heard.fail(now), ControlStep::Nothing)
    }
}

/// What a question about the workload leads to.
pub open spec fn asked(heard: CustodyState, query: u64, metric: Option<Metric>) -> (
    CustodyState,
    ControlStep,
) {
    if heard.empty {
        (
            CustodyState { output: true, ..heard },
            ControlStep::AnswerEmpty { query, sampled: metric is Some },
        )
    } else {
        (
            CustodyState { frontend: Some(Query { query, metric }), ..heard },
            ControlStep::Nothing,
        )
    }
}

fn heed_query(heard: CustodyState, query: u64, metric: Option<Metric>) -> (r: (
    CustodyState,
    ControlStep,
))
    ensures
        r == asked(heard, query, metric),
{
    if heard.empty {
        (
            CustodyState { output: true, ..heard },
            ControlStep::AnswerEmpty { query, sampled: metric.is_some() },
        )
    } else {
        (
            CustodyState { frontend: Some(Query { query, metric }), ..heard },
            ControlStep::Nothing,
        )
    }
}

/// What a message from the frontend leads to.
pub open spec fn controlled(
    plan: CustodyPlan,
    s: CustodyState,
    known: Identities,
    message: Message,
    now: u64,
) -> Result<(CustodyState, ControlStep), Fault> {
    let heard = CustodyState { last_control: now, ..s };
    match message {
        Message::InventoryQuery { query, metric } => Ok(asked(heard, query, metric)),
        Message::Heartbeat => Ok((heard, ControlStep::Nothing)),
        Message::SignalStop { signal, force } => Ok(signal_stopped(plan, heard, signal, force, now)),
        Message::StopAt { force } => Ok((stopped_at(plan, heard, force, now), ControlStep::Nothing)),
        Message::Release => Ok(release_asked(plan, heard, now)),
        Message::Observe => if s.target {
            Ok((heard, ControlStep::ReportStatus))
        } else {
            Err(Fault::found(FaultKind::Other, "target not prepared"))
        },
        Message::Reap => if s.target {
            Ok((heard, ControlStep::Reap { allowed: s.empty && !s.inspection }))
        } else {
            Err(Fault::found(FaultKind::Other, "target not prepared"))
        },
        Message::Disarm => if disarm_granted(s) {
            Ok((heard, ControlStep::Retire))
        } else {
            Ok((heard.failed(now), ControlStep::Nothing))
        },
        Message::ResumeSpawn => Ok((heard, ControlStep::ResumeSpawn)),
        Message::InterruptClock => Ok((heard, ControlStep::InterruptClock)),
        Message::AdvanceClock { nanos } => if s.clock_advance + nanos > u64::MAX {
            Err(Fault::found(FaultKind::Other, "fixture clock advance overflow"))
        } else {
            Ok(
                (
                    CustodyState { clock_advance: (s.clock_advance + nanos) as u64, ..heard },
                    ControlStep::Nothing,
                ),
            )
        },
        Message::DisableWorkTimer => Ok(
            (CustodyState { timer_disabled: true, ..heard }, ControlStep::Nothing),
        ),
        Message::StallInspectors { both } => Ok((heard, ControlStep::StallInspectors { both })),
        Message::Snapshot { pid } => Ok(
            (
                heard,
                ControlStep::Observed {
                    pid,
                    observed: crate::macos_inventory::has_number(known@, pid),
                },
            ),
        ),
        _ => Ok((heard.failed(now), ControlStep::Nothing)),
    }
}

/// Whether what follows a state is sound and only goes on from it.
spec fn goes_on(s: CustodyState, next: CustodyState) -> bool {
    next.wf() && progresses(s, next)
}

proof fn failing_goes_on(s: CustodyState, now: u64)
    requires
        s.wf(),
    ensures
        goes_on(s, s.failed(now)),
{
}

proof fn stopping_goes_on(plan: CustodyPlan, s: CustodyState, signal: i32, force: u64, now: u64)
    requires
        s.wf(),
    ensures
        goes_on(s, signal_stopped(plan, s, signal, force, now).0),
        goes_on(s, stopped_at(plan, s, force, now)),
{
}

proof fn asking_goes_on(
    plan: CustodyPlan,
    s: CustodyState,
    query: u64,
    metric: Option<Metric>,
    now: u64,
)
    requires
        s.wf(),
    ensures
        goes_on(s, asked(s, query, metric).0),
        goes_on(s, release_asked(plan, s, now).0),
{
}

#[verifier::spinoff_prover]
proof fn lemma_controlled(
    plan: CustodyPlan,
    s: CustodyState,
    known: Identities,
    message: Message,
    now: u64,
)
    requires
        s.wf(),
    ensures
        controlled(plan, s, known, message, now) matches Ok((next, _)) ==> next.wf() && progresses(
            s,
            next,
        ),
{
    let heard = CustodyState { last_control: now, ..s };
    assert(goes_on(s, heard));
    failing_goes_on(heard, now);
    match message {
        Message::InventoryQuery { query, metric } => {
            asking_goes_on(plan, heard, query, metric, now);
        },
        Message::SignalStop { signal, force } => {
            stopping_goes_on(plan, heard, signal, force, now);
        },
        Message::StopAt { force } => {
            stopping_goes_on(plan, heard, 0, force, now);
        },
        Message::Release => {
            asking_goes_on(plan, heard, 0, None, now);
        },
        _ => {},
    }
    if let Ok((next, _)) = controlled(plan, s, known, message, now) {
        if goes_on(heard, next) {
            progress_adds_up(s, heard, next);
        }
    }
}

fn decide(
    plan: CustodyPlan,
    s: CustodyState,
    known: &Identities,
    message: &Message,
    now: u64,
) -> (r: Result<(CustodyState, ControlStep), Fault>)
    ensures
        r == controlled(plan, s, *known, *message, now),
{
    let heard = CustodyState { last_control: now, ..s };
    match message {
        Message::InventoryQuery { query, metric } => Ok(heed_query(heard, *query, *metric)),
        Message::Heartbeat => Ok((heard, ControlStep::Nothing)),
        Message::SignalStop { signal, force } => Ok(
            heed_signal(plan, heard, *signal, *force, now),
        ),
        Message::StopAt { force } => Ok(
            (heed_stop(plan, heard, *force, now), ControlStep::Nothing),
        ),
        Message::Release => Ok(heed_release(plan, heard, now)),
        Message::Observe => {
            if !s.target {
                return Err(Fault::new(FaultKind::Other, "target not prepared"));
            }
            Ok((heard, ControlStep::ReportStatus))
        },
        Message::Reap => {
            if !s.target {
                return Err(Fault::new(FaultKind::Other, "target not prepared"));
            }
            Ok((heard, ControlStep::Reap { allowed: s.empty && !s.inspection }))
        },
        Message::Disarm => {
            if s.empty && s.target && s.reaped && !s.inspection {
                return Ok((heard, ControlStep::Retire));
            }
            Ok((heard.fail(now), ControlStep::Nothing))
        },
        Message::ResumeSpawn => Ok((heard, ControlStep::ResumeSpawn)),
        Message::InterruptClock => Ok((heard, ControlStep::InterruptClock)),
        Message::AdvanceClock { nanos } => match s.clock_advance.checked_add(*nanos) {
            Some(advance) => Ok(
                (CustodyState { clock_advance: advance, ..heard }, ControlStep::Nothing),
            ),
            None => Err(Fault::new(FaultKind::Other, "fixture clock advance overflow")),
        },
        Message::DisableWorkTimer => Ok(
            (CustodyState { timer_disabled: true, ..heard }, ControlStep::Nothing),
        ),
        Message::StallInspectors { both } => Ok(
            (heard, ControlStep::StallInspectors { both: *both }),
        ),
        Message::Snapshot { pid } => {
            let observed = known.has(*pid);
            Ok((heard, ControlStep::Observed { pid: *pid, observed }))
        },
        _ => Ok((heard.fail(now), ControlStep::Nothing)),
    }
}

/// The state after an inspector's answer. `answered` says that it goes to the
/// frontend, `counts` that it counts in full, `fresh` that it names someone new.
pub open spec fn replied(
    s: CustodyState,
    members: Result<bool, ()>,
    answered: bool,
    counts: bool,
    fresh: bool,
    now: u64,
) -> CustodyState {
    let told = CustodyState {
        frontend: if answered {
            None
        } else {
            s.frontend
        },
        output: s.output || answered,
        ..s
    };
    match members {
        Err(_) => CustodyState { empty: false, ..told }.failed(now),
        Ok(none) => if counts {
            CustodyState { empty: none, ..told }
        } else {
            CustodyState { empty: s.empty && !fresh, ..told }
        },
    }
}

proof fn lemma_replied(
    s: CustodyState,
    members: Result<bool, ()>,
    answered: bool,
    counts: bool,
    fresh: bool,
    now: u64,
)
    requires
        s.wf(),
    ensures
        replied(s, members, answered, counts, fresh, now).wf(),
        progresses(s, replied(s, members, answered, counts, fresh, now)),
{
}

fn reply_state(
    s: CustodyState,
    members: Result<bool, ()>,
    answered: bool,
    counts: bool,
    fresh: bool,
    now: u64,
) -> (r: CustodyState)
    ensures
        r == replied(s, members, answered, counts, fresh, now),
{
    let told = CustodyState {
        frontend: if answered {
            None
        } else {
            s.frontend
        },
        output: s.output || answered,
        ..s
    };
    match members {
        Err(_) => {
            let lost = CustodyState { empty: false, ..told };
            lost.fail(now)
        },
        Ok(none) => {
            if counts {
                CustodyState { empty: none, ..told }
            } else {
                CustodyState { empty: s.empty && !fresh, ..told }
            }
        },
    }
}

/// Whether nothing but the state has changed.
pub open spec fn same_holdings(a: Custody, b: Custody) -> bool {
    a.plan == b.plan && a.known == b.known && a.group_signal_error == b.group_signal_error
        && a.normal == b.normal && a.emergency == b.emergency
}

impl Custody {
    /// A guardian that takes a plan on at `now`.
    pub fn begin(plan: CustodyPlan, now: u64, normal: InventoryLane, emergency: InventoryLane) -> (r:
        Custody)
        ensures
            r.plan == plan,
            r.state == CustodyState::fresh(now),
            r.state.wf(),
            r.known@ == Set::<crate::macos_inventory::ProcessIdentity>::empty(),
            r.group_signal_error is None,
            r.normal == normal && r.emergency == emergency,
    {
        Custody {
            plan,
            state: CustodyState {
                target: false,
                reaped: false,
                launcher: false,
                witness: false,
                prepared: false,
                released: false,
                confirmed: false,
                connected: true,
                terminal: None,
                force_at: None,
                force_requested: None,
                receipt_sent: false,
                queued_signal: None,
                frontend: None,
                output: false,
                empty: false,
                inspection: false,
                last_inspection: 0,
                last_control: now,
                clock_advance: 0,
                timer_disabled: false,
            },
            known: Identities::new(),
            group_signal_error: None,
            normal,
            emergency,
        }
    }

    /// The time as a fixture may have moved it.
    pub fn time(&self, clock: u64) -> (r: Result<u64, Fault>)
        ensures
            r == if clock + self.state.clock_advance > u64::MAX {
                Err::<u64, Fault>(Fault::found(FaultKind::Other, "fixture clock overflow"))
            } else {
                Ok((clock + self.state.clock_advance) as u64)
            },
    {
        match clock.checked_add(self.state.clock_advance) {
            Some(now) => Ok(now),
            None => Err(Fault::new(FaultKind::Other, "fixture clock overflow")),
        }
    }

    fn fail(&mut self, now: u64)
        requires
            old(self).state.wf(),
        ensures
            final(self).state == old(self).state.failed(now),
            final(self).state.wf(),
            progresses(old(self).state, final(self).state),
            same_holdings(*old(self), *final(self)),
    {
        if self.state.terminal.is_none() {
            self.state.terminal = Some(now);
            self.state.force_at = Some(now);
        }
    }

    /// Minds the clock: a frontend that is silent for too long, and a deadline that
    /// has passed, end the workload. True where the target is to be asked to end.
    pub fn clock(&mut self, now: u64) -> (r: Result<bool, Fault>)
        requires
            old(self).state.wf(),
        ensures
            same_holdings(*old(self), *final(self)),
            final(self).state.wf(),
            progresses(old(self).state, final(self).state),
            ({
                let s = old(self).state;
                let plan = old(self).plan;
                if lease_over(s, now) {
                    final(self).state == s.failed(now) && r == Ok::<bool, Fault>(false)
                } else if !expired(plan, s, now) {
                    final(self).state == s && r == Ok::<bool, Fault>(false)
                } else if expired_force(plan, s) > u64::MAX {
                    final(self).state == s && r == Err::<bool, Fault>(
                        Fault::found(FaultKind::Other, "force deadline overflow"),
                    )
                } else {
                    &&& final(self).state == (CustodyState {
                        terminal: expiry(plan, s),
                        force_at: Some(expired_force(plan, s) as u64),
                        ..s
                    })
                    &&& r == Ok::<bool, Fault>(s.released && plan.grace != 0 && s.target)
                }
            }),
    {
        let silent: u64 = if now >= self.state.last_control {
            now - self.state.last_control
        } else {
            0
        };
        if self.state.terminal.is_none() && self.state.released && silent >= LEASE {
            self.fail(now);
            return Ok(false);
        }
        let expiry: Option<u64> = if self.state.timer_disabled {
            None
        } else if self.state.released {
            self.plan.work
        } else {
            Some(self.plan.startup)
        };
        let anchor: u64 = match expiry {
            Some(at) => at,
            None => {
                return Ok(false);
            },
        };
        if self.state.terminal.is_some() || now < anchor {
            return Ok(false);
        }
        let grace: u64 = if self.state.released {
            self.plan.grace
        } else {
            0
        };
        match anchor.checked_add(grace) {
            Some(force) => {
                self.state.terminal = Some(anchor);
                self.state.force_at = Some(force);
                Ok(self.state.released && self.plan.grace != 0 && self.state.target)
            },
            None => Err(Fault::new(FaultKind::Other, "force deadline overflow")),
        }
    }

    /// Takes in what became of creating the launcher. A process that was created is
    /// owned before anything else can fail, and is never watched for an exec once it
    /// is too late.
    pub fn spawned(&mut self, event: SpawnEvent) -> (r: SpawnStep)
        requires
            old(self).state.wf(),
            !old(self).state.target,
        ensures
            same_holdings(*old(self), *final(self)),
            final(self).state.wf(),
            progresses(old(self).state, final(self).state),
            match event {
                SpawnEvent::Pending => final(self).state == old(self).state && r
                    == SpawnStep::Nothing,
                SpawnEvent::Spawned => final(self).state == (CustodyState {
                    target: true,
                    launcher: true,
                    witness: old(self).state.terminal is None,
                    ..old(self).state
                }) && r == if old(self).state.terminal is None {
                    SpawnStep::Watch
                } else {
                    SpawnStep::Adopted
                },
                SpawnEvent::Failed(errno) => final(self).state == old(self).state && r
                    == SpawnStep::Leave(
                    if !old(self).state.connected {
                        None
                    } else if errno is Some {
                        errno
                    } else {
                        Some(EIO)
                    },
                ),
                SpawnEvent::Gone => final(self).state == old(self).state && r == SpawnStep::Leave(
                    None,
                ),
            },
    {
        match event {
            SpawnEvent::Pending => SpawnStep::Nothing,
            SpawnEvent::Spawned => {
                self.state.target = true;
                self.state.launcher = true;
                self.state.witness = self.state.terminal.is_none();
                if self.state.terminal.is_none() {
                    SpawnStep::Watch
                } else {
                    SpawnStep::Adopted
                }
            },
            SpawnEvent::Failed(errno) => {
                if !self.state.connected {
                    SpawnStep::Leave(None)
                } else {
                    match errno {
                        Some(code) => SpawnStep::Leave(Some(code)),
                        None => SpawnStep::Leave(Some(EIO)),
                    }
                }
            },
            SpawnEvent::Gone => SpawnStep::Leave(None),
        }
    }

    /// Uses force once it is due; `clock` is the time of the request. True where the
    /// target's group is to be killed.
    pub fn force(&mut self, now: u64, clock: u64) -> (r: bool)
        requires
            old(self).state.wf(),
        ensures
            same_holdings(*old(self), *final(self)),
            final(self).state.wf(),
            progresses(old(self).state, final(self).state),
            ({
                let s = old(self).state;
                if s.force_due(now) {
                    final(self).state == (CustodyState {
                        force_requested: if s.target && s.force_requested is None {
                            Some(clock)
                        } else {
                            s.force_requested
                        },
                        launcher: false,
                        ..s
                    }) && r == s.target
                } else {
                    final(self).state == s && !r
                }
            }),
    {
        let due = match self.state.force_at {
            Some(at) => now >= at,
            None => false,
        };
        if !due {
            return false;
        }
        if self.state.target && self.state.force_requested.is_none() {
            self.state.force_requested = Some(clock);
        }
        self.state.launcher = false;
        self.state.target
    }

    /// The target's group could not be signalled. That shows nothing of its absence;
    /// the first reason is kept.
    pub fn group_signal_failed(&mut self, text: String)
        ensures
            final(self).state == old(self).state && final(self).plan == old(self).plan
                && final(self).known == old(self).known && final(self).normal == old(self).normal
                && final(self).emergency == old(self).emergency,
            final(self).group_signal_error == if old(self).group_signal_error is Some {
                old(self).group_signal_error
            } else {
                Some(text)
            },
    {
        if self.group_signal_error.is_none() {
            self.group_signal_error = Some(text);
        }
    }

    /// Takes in what came from the launcher.
    pub fn launcher_said(&mut self, event: LauncherEvent, now: u64) -> (r: LauncherStep)
        requires
            old(self).state.wf(),
            old(self).state.launcher,
        ensures
            same_holdings(*old(self), *final(self)),
            final(self).state.wf(),
            progresses(old(self).state, final(self).state),
            ({
                let s = old(self).state;
                let gone = CustodyState { launcher: false, ..s.failed(now) };
                match event {
                    LauncherEvent::Nothing => final(self).state == s && r == LauncherStep::Nothing,
                    LauncherEvent::Ready => if !s.prepared && s.terminal is None {
                        final(self).state == (CustodyState { prepared: true, ..s }) && r
                            == LauncherStep::SendPrepared
                    } else {
                        final(self).state == gone && r == LauncherStep::Nothing
                    },
                    LauncherEvent::Closed => if s.released && !s.confirmed {
                        final(self).state == s && r == LauncherStep::ConfirmExec
                    } else {
                        final(self).state == gone && r == LauncherStep::Nothing
                    },
                    LauncherEvent::Failure(errno) => final(self).state == gone && r
                        == LauncherStep::SendFailure(errno),
                    LauncherEvent::Other => final(self).state == gone && r
                        == LauncherStep::Nothing,
                }
            }),
    {
        match event {
            LauncherEvent::Nothing => LauncherStep::Nothing,
            LauncherEvent::Ready => {
                if !self.state.prepared && self.state.terminal.is_none() {
                    self.state.prepared = true;
                    return LauncherStep::SendPrepared;
                }
                self.fail(now);
                self.state.launcher = false;
                LauncherStep::Nothing
            },
            LauncherEvent::Closed => {
                if self.state.released && !self.state.confirmed {
                    return LauncherStep::ConfirmExec;
                }
                self.fail(now);
                self.state.launcher = false;
                LauncherStep::Nothing
            },
            LauncherEvent::Failure(errno) => {
                self.fail(now);
                self.state.launcher = false;
                LauncherStep::SendFailure(errno)
            },
            LauncherEvent::Other => {
                self.fail(now);
                self.state.launcher = false;
                LauncherStep::Nothing
            },
        }
    }

    /// The kernel has seen the target's exec, or has not. True where the frontend is
    /// to be told that the target runs.
    pub fn exec_seen(&mut self, seen: bool, now: u64) -> (r: bool)
        requires
            old(self).state.wf(),
            old(self).state.launcher,
            old(self).state.released && !old(self).state.confirmed,
        ensures
            same_holdings(*old(self), *final(self)),
            final(self).state.wf(),
            progresses(old(self).state, final(self).state),
            r == seen,
            final(self).state == if seen {
                CustodyState { confirmed: true, launcher: false, ..old(self).state }
            } else {
                CustodyState { launcher: false, ..old(self).state.failed(now) }
            },
    {
        if seen {
            self.state.confirmed = true;
        } else {
            self.fail(now);
        }
        self.state.launcher = false;
        seen
    }

    /// Whether what an inspector says counts in full: the emergency one's word does,
    /// and while nothing has ended the workload, the normal one's.
    pub open spec fn counts(&self, lane: LaneName) -> bool {
        self.state.terminal is None || lane == LaneName::Emergency
    }

    /// Which metric an inspector had been asked to sample.
    pub open spec fn sampled(&self, lane: LaneName) -> Option<Metric> {
        match lane {
            LaneName::Normal => self.normal.metric,
            LaneName::Emergency => self.emergency.metric,
        }
    }

    /// Whether an inspector's answer goes to the frontend.
    pub open spec fn answers_frontend(&self, lane: LaneName, empty: bool, has_sample: bool) -> bool {
        self.counts(lane) && (self.state.frontend matches Some(query) && answers(
            query.metric,
            self.sampled(lane),
            empty,
            has_sample,
        ))
    }

    /// Takes in an inspector's answer: whether the members are known and, if so,
    /// whether there are none; who is known; whether a sample came. The number of the
    /// frontend's question that it answers, if it does. An answer that does not count
    /// in full can add members, and take back that there are none, but nothing else.
    pub fn lane_replied(
        &mut self,
        lane: LaneName,
        members: Result<bool, ()>,
        identities: Identities,
        has_sample: bool,
        now: u64,
    ) -> (r: Option<u64>)
        requires
            old(self).state.wf(),
        ensures
            final(self).plan == old(self).plan,
            final(self).state.wf(),
            progresses(old(self).state, final(self).state),
            ({
                let empty = members == Ok::<bool, ()>(true);
                let answered = old(self).answers_frontend(lane, empty, has_sample);
                let counts = old(self).counts(lane);
                let fresh = !identities@.subset_of(old(self).known@);
                &&& r == if answered {
                    Some(old(self).state.frontend->0.query)
                } else {
                    None::<u64>
                }
                &&& final(self).known@ == if counts {
                    identities@
                } else {
                    old(self).known@.union(identities@)
                }
                &&& final(self).state == replied(
                    old(self).state,
                    members,
                    answered,
                    counts,
                    fresh,
                    now,
                )
                &&& final(self).group_signal_error == if lane == LaneName::Emergency && empty {
                    None::<String>
                } else {
                    old(self).group_signal_error
                }
                &&& lane == LaneName::Normal ==> final(self).emergency == old(self).emergency
                    && final(self).normal == (InventoryLane { pending: false, ..old(self).normal })
                &&& lane == LaneName::Emergency ==> final(self).normal == old(self).normal
                    && final(self).emergency == (InventoryLane {
                    pending: false,
                    ..old(self).emergency
                })
            }),
    {
        let empty = match members {
            Ok(none) => none,
            Err(_) => false,
        };
        let emergency = match lane {
            LaneName::Normal => false,
            LaneName::Emergency => true,
        };
        if emergency && empty {
            self.group_signal_error = None;
        }
        let counts = self.state.terminal.is_none() || emergency;
        let sampled = if emergency {
            self.emergency.metric
        } else {
            self.normal.metric
        };
        let answered: Option<u64> = match self.state.frontend {
            Some(query) => {
                if counts && inventory_answers_query(query.metric, sampled, empty, has_sample) {
                    Some(query.query)
                } else {
                    None
                }
            },
            None => None,
        };
        let mut fresh = false;
        if counts {
            self.known = identities;
        } else {
            fresh = self.known.extend(&identities);
        }
        if emergency {
            self.emergency.pending = false;
        } else {
            self.normal.pending = false;
        }
        proof {
            lemma_replied(self.state, members, answered is Some, counts, fresh, now);
        }
        self.state = reply_state(self.state, members, answered.is_some(), counts, fresh, now);
        answered
    }

    /// An inspector failed: whether members live is no longer known, and the workload
    /// is to end. `reaped` says that the inspector is gone.
    pub fn lane_failed(&mut self, lane: LaneName, reaped: bool, now: u64)
        requires
            old(self).state.wf(),
        ensures
            final(self).plan == old(self).plan && final(self).known == old(self).known
                && final(self).group_signal_error == old(self).group_signal_error,
            final(self).state == (CustodyState { empty: false, ..old(self).state }.failed(now)),
            final(self).state.wf(),
            progresses(old(self).state, final(self).state),
            ({
                let broken = |old_lane: InventoryLane|
                    if reaped {
                        InventoryLane { pending: false, stopping: true, ..old_lane }
                    } else {
                        old_lane
                    };
                match lane {
                    LaneName::Normal => final(self).emergency == old(self).emergency
                        && final(self).normal == broken(old(self).normal),
                    LaneName::Emergency => final(self).normal == old(self).normal
                        && final(self).emergency == broken(old(self).emergency),
                }
            }),
    {
        self.state.empty = false;
        self.fail(now);
        if reaped {
            match lane {
                LaneName::Normal => {
                    self.normal.pending = false;
                    self.normal.stopping = true;
                },
                LaneName::Emergency => {
                    self.emergency.pending = false;
                    self.emergency.stopping = true;
                },
            }
        }
    }

    /// The inspector whose turn it is: the emergency one, once the workload is to end.
    pub open spec fn turn(&self) -> LaneName {
        if self.state.terminal is Some {
            LaneName::Emergency
        } else {
            LaneName::Normal
        }
    }

    /// The lane of the inspector whose turn it is.
    pub open spec fn turn_lane(&self) -> InventoryLane {
        if self.state.terminal is Some {
            self.emergency
        } else {
            self.normal
        }
    }

    /// Whether an inspection is due.
    pub open spec fn inspection_due(&self, now: u64) -> bool {
        &&& self.state.target && !self.state.empty
        &&& !self.turn_lane().pending && !self.turn_lane().stopping
        &&& self.state.frontend is Some || now - self.state.last_inspection >= INSPECTION_PAUSE
    }

    /// The signal that goes with an inspection: once force is due, the one that cannot
    /// be ignored.
    pub open spec fn inspection_signal(&self, now: u64) -> Option<i32> {
        if self.state.force_due(now) {
            Some(SIGKILL)
        } else {
            self.state.queued_signal
        }
    }

    /// Whether an inspection is due.
    pub fn inspection_wanted(&self, now: u64) -> (r: bool)
        ensures
            r == self.inspection_due(now),
    {
        let (pending, stopping) = if self.state.terminal.is_some() {
            (self.emergency.pending, self.emergency.stopping)
        } else {
            (self.normal.pending, self.normal.stopping)
        };
        let waited: u64 = if now >= self.state.last_inspection {
            now - self.state.last_inspection
        } else {
            0
        };
        self.state.target && !self.state.empty && !pending && !stopping && (
        self.state.frontend.is_some() || waited >= INSPECTION_PAUSE)
    }

    /// The metric that an inspection is to sample: what the frontend asked for.
    pub open spec fn wanted_metric(&self) -> Option<Metric> {
        match self.state.frontend {
            Some(query) => query.metric,
            None => None,
        }
    }

    /// The state once an inspection is under way: the signal that waited goes with it,
    /// unless force is due.
    pub open spec fn inspecting(&self, now: u64) -> CustodyState {
        CustodyState {
            queued_signal: if self.state.force_due(now) {
                self.state.queued_signal
            } else {
                None
            },
            last_inspection: now,
            ..self.state
        }
    }

    /// Begins the inspection that is due.
    pub fn next_inspection(&mut self, now: u64) -> (r: Result<Inspection, Fault>)
        requires
            old(self).state.wf(),
            old(self).inspection_due(now),
        ensures
            final(self).plan == old(self).plan && final(self).known == old(self).known
                && final(self).group_signal_error == old(self).group_signal_error,
            final(self).state.wf(),
            progresses(old(self).state, final(self).state),
            if old(self).turn_lane().sequence == u64::MAX {
                *final(self) == *old(self) && r == Err::<Inspection, Fault>(
                    Fault::found(FaultKind::Other, "inspector sequence overflow"),
                )
            } else {
                &&& r == Ok::<Inspection, Fault>(
                    Inspection {
                        lane: old(self).turn(),
                        sequence: (old(self).turn_lane().sequence + 1) as u64,
                        signal: old(self).inspection_signal(now),
                        metric: old(self).wanted_metric(),
                    },
                )
                &&& final(self).state == old(self).inspecting(now)
                &&& old(self).state.terminal is Some ==> final(self).normal == old(self).normal
                    && final(self).emergency == (InventoryLane {
                    sequence: (old(self).emergency.sequence + 1) as u64,
                    metric: old(self).wanted_metric(),
                    ..old(self).emergency
                })
                &&& old(self).state.terminal is None ==> final(self).emergency == old(
                    self).emergency && final(self).normal == (InventoryLane {
                    sequence: (old(self).normal.sequence + 1) as u64,
                    metric: old(self).wanted_metric(),
                    ..old(self).normal
                })
            },
    {
        let metric: Option<Metric> = match self.state.frontend {
            Some(query) => query.metric,
            None => None,
        };
        let late = self.state.terminal.is_some();
        let submitted = if late {
            self.emergency.submit(metric)
        } else {
            self.normal.submit(metric)
        };
        let sequence: u64 = match submitted {
            Ok(sequence) => sequence,
            Err(fault) => {
                return Err(fault);
            },
        };
        let due = match self.state.force_at {
            Some(at) => now >= at,
            None => false,
        };
        let signal: Option<i32> = if due {
            Some(SIGKILL)
        } else {
            self.state.queued_signal
        };
        if !due {
            self.state.queued_signal = None;
        }
        self.state.last_inspection = now;
        let lane = if late {
            LaneName::Emergency
        } else {
            LaneName::Normal
        };
        Ok(Inspection { lane, sequence, signal, metric })
    }

    /// Whether the inspectors may go: no member lives, and neither is at work.
    pub fn inspectors_may_go(&self) -> (r: bool)
        ensures
            r == (self.state.empty && !self.normal.pending && !self.emergency.pending),
    {
        self.state.empty && !self.normal.pending && !self.emergency.pending
    }

    /// Notes whether an inspector is at work or not yet gone; `retired` says that both
    /// are gone.
    pub fn inspectors(&mut self, retired: bool)
        requires
            old(self).state.wf(),
        ensures
            same_holdings(*old(self), *final(self)),
            final(self).state.wf(),
            progresses(old(self).state, final(self).state),
            final(self).state == (CustodyState {
                inspection: old(self).normal.pending || old(self).emergency.pending || (old(
                    self).state.empty && !retired),
                ..old(self).state
            }),
    {
        self.state.inspection = self.normal.pending || self.emergency.pending || (self.state.empty
            && !retired);
    }

    /// An answer to the frontend went out whole, or could not.
    pub fn output_over(&mut self, sent: bool, now: u64)
        requires
            old(self).state.wf(),
        ensures
            same_holdings(*old(self), *final(self)),
            final(self).state.wf(),
            progresses(old(self).state, final(self).state),
            final(self).state == if sent {
                CustodyState { output: false, ..old(self).state }
            } else {
                CustodyState { output: false, connected: false, ..old(self).state }.failed(now)
            },
    {
        self.state.output = false;
        if !sent {
            self.state.connected = false;
            self.fail(now);
        }
    }

    /// The receipt of force that the frontend is owed, if it is.
    pub fn receipt_due(&self) -> (r: Option<u64>)
        ensures
            r == if self.state.connected && !self.state.output && !self.state.receipt_sent {
                self.state.force_requested
            } else {
                None::<u64>
            },
    {
        if self.state.connected && !self.state.output && !self.state.receipt_sent {
            self.state.force_requested
        } else {
            None
        }
    }

    /// The receipt of force went out.
    pub fn receipt_went_out(&mut self)
        requires
            old(self).state.wf(),
        ensures
            same_holdings(*old(self), *final(self)),
            final(self).state.wf(),
            progresses(old(self).state, final(self).state),
            final(self).state == (CustodyState { receipt_sent: true, ..old(self).state }),
    {
        self.state.receipt_sent = true;
    }

    /// Takes in what came from the frontend. A message that is out of place ends the
    /// workload, and so does a frontend that is lost.
    pub fn control(&mut self, event: ControlEvent, now: u64) -> (r: Result<ControlStep, Fault>)
        requires
            old(self).state.wf(),
            old(self).state.connected && !old(self).state.output,
        ensures
            same_holdings(*old(self), *final(self)),
            final(self).state.wf(),
            progresses(old(self).state, final(self).state),
            match event {
                ControlEvent::Nothing => final(self).state == old(self).state && r == Ok::<
                    ControlStep,
                    Fault,
                >(ControlStep::Nothing),
                ControlEvent::Lost => final(self).state == (CustodyState {
                    connected: false,
                    ..old(self).state
                }.failed(now)) && r == Ok::<ControlStep, Fault>(ControlStep::Nothing),
                ControlEvent::Message(message) => match controlled(
                    old(self).plan,
                    old(self).state,
                    old(self).known,
                    message,
                    now,
                ) {
                    Ok((next, step)) => final(self).state == next && r == Ok::<ControlStep, Fault>(
                        step,
                    ),
                    Err(fault) => final(self).state == old(self).state && r == Err::<
                        ControlStep,
                        Fault,
                    >(fault),
                },
            },
    {
        let message = match event {
            ControlEvent::Nothing => {
                return Ok(ControlStep::Nothing);
            },
            ControlEvent::Lost => {
                self.state.connected = false;
                self.fail(now);
                return Ok(ControlStep::Nothing);
            },
            ControlEvent::Message(message) => message,
        };
        proof {
            lemma_controlled(self.plan, self.state, self.known, message, now);
        }
        match decide(self.plan, self.state, &self.known, &message, now) {
            Ok((next, step)) => {
                self.state = next;
                Ok(step)
            },
            Err(fault) => Err(fault),
        }
    }

    /// The target was reaped, or looked at.
    pub fn target_looked_at(&mut self, reaped: bool)
        requires
            old(self).state.wf(),
            old(self).state.target,
        ensures
            same_holdings(*old(self), *final(self)),
            final(self).state.wf(),
            progresses(old(self).state, final(self).state),
            final(self).state == (CustodyState {
                reaped: old(self).state.reaped || reaped,
                ..old(self).state
            }),
    {
        if reaped {
            self.state.reaped = true;
        }
    }

    /// Whether a guardian without a frontend may reap the target and, once it is
    /// reaped, leave with status 0.
    pub fn may_leave(&self) -> (r: bool)
        ensures
            r == (!self.state.connected && self.state.empty && !self.state.inspection
                && self.state.target),
    {
        !self.state.connected && self.state.empty && !self.state.inspection && self.state.target
    }
}

/// A target is released only while nothing has ended the workload, and only within
/// the time that its plan gives.
pub proof fn release_is_in_time(
    plan: CustodyPlan,
    s: CustodyState,
    known: Identities,
    message: Message,
    now: u64,
)
    ensures
        controlled(plan, s, known, message, now) matches Ok((next, step)) ==> (step is Release
            ==> message is Release && s.prepared && !s.released && s.terminal is None && now
            < plan.startup && (plan.work matches Some(work) ==> now < work)),
        controlled(plan, s, known, message, now) matches Ok((next, step)) ==> (next.released
            && !s.released ==> step is Release),
{
}

/// A guardian is let go only once no member lives, the target is reaped, and no
/// inspector is left.
pub proof fn disarming_needs_retirement(
    plan: CustodyPlan,
    s: CustodyState,
    known: Identities,
    message: Message,
    now: u64,
)
    ensures
        controlled(plan, s, known, message, now) matches Ok((_, step)) ==> (step is Retire
            ==> s.empty && s.reaped && !s.inspection),
{
}

/// No stop lets a workload go on for longer than its own time and grace.
pub proof fn stops_stay_within_the_plan(plan: CustodyPlan, force: u64)
    ensures
        stop_force(plan, force) <= force,
        plan.work matches Some(work) ==> work + plan.grace <= u64::MAX ==> stop_force(plan, force)
            <= work + plan.grace,
{
}

/// Valid messages, however many, do not put off the end of the work: at or after
/// it, the clock's next turn ends the workload, if nothing has.
pub proof fn traffic_does_not_starve_the_clock(plan: CustodyPlan, s: CustodyState, now: u64)
    requires
        s.released,
        s.terminal is None,
        !s.timer_disabled,
        plan.work is Some,
        now >= plan.work->0,
    ensures
        lease_over(s, now) || expired(plan, s, now),
{
}

} // verus!
