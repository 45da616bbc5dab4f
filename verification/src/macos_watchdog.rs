//! Watching a running attempt on macOS: one turn after the other until something ends
//! it, and the outcome that then follows. Spans count from the attempt's start; instants
//! are of the continuous clock.

use vstd::prelude::*;
use vstd::string::*;

use crate::evidence::{
    bare_error, refused_deadline_evidence, refused_evidence, ChildTermination, DeadlineEvidence,
    Error, ErrorCategory, ErrorView, LimitEvidence, OutcomeView, RunOutcome,
};
use crate::linux_monitor::{larger, Reap};
use crate::macos_deadline::after;
use crate::macos_inventory::{metric_name, metric_named};
use crate::model::{CleanupSummary, Fault, Text, SIGKILL, SIGTERM};
use crate::policy::{AttemptContext, Deadline, Lifetime, Metric, Policy};
use crate::time::{capped_millis, floor_sub, later, least, Duration, MAX_NANOS};

verus! {

/// How long a workload may take to be retired, in nanoseconds.
pub const RETIREMENT_NANOS: u64 = 3_000_000_000;

/// The longest wait of one turn, in nanoseconds.
pub const TURN_MAX_NANOS: u64 = 20_000_000;

/// How long a turn waits.
pub open spec fn turn_wait(poll: nat, grace_left: Option<nat>, pending: bool) -> nat {
    let wait = if pending {
        if poll >= 1_000_000 {
            poll
        } else {
            1_000_000
        }
    } else {
        match grace_left {
            Some(left) => least(poll, left),
            None => poll,
        }
    };
    least(wait, TURN_MAX_NANOS as nat)
}

/// How long a turn waits: as long as the poll interval, but not beyond what is left of
/// a grace, unless an inventory is awaited, and never long enough to miss much.
pub fn watchdog_turn_wait(
    poll_interval: Duration,
    command_exit_grace_remaining: Option<Duration>,
    inventory_pending: bool,
) -> (r: Duration)
    ensures
        r@ == turn_wait(
            poll_interval@,
            match command_exit_grace_remaining {
                Some(left) => Some(left@),
                None => None,
            },
            inventory_pending,
        ),
{
    let wait = if inventory_pending {
        let one = Duration::from_millis(1);
        if poll_interval.is_less_than(one) {
            one
        } else {
            poll_interval
        }
    } else {
        match command_exit_grace_remaining {
            Some(left) => poll_interval.min(left),
            None => poll_interval,
        }
    };
    wait.min(Duration::from_nanos(TURN_MAX_NANOS))
}

/// How long a turn waits while an inventory is awaited.
pub fn pending_inventory_turn_wait(
    poll_interval: Duration,
    command_exit_grace_remaining: Duration,
) -> (r: Duration)
    ensures
        r@ == turn_wait(poll_interval@, Some(command_exit_grace_remaining@), true),
{
    watchdog_turn_wait(poll_interval, Some(command_exit_grace_remaining), true)
}

/// A turn with an inventory awaited always waits a little, whatever is left of the
/// grace, and no turn waits longer than the longest wait.
pub proof fn pending_turns_do_not_spin(poll: nat, grace_left: Option<nat>)
    ensures
        1_000_000 <= turn_wait(poll, grace_left, true) <= TURN_MAX_NANOS,
        turn_wait(poll, grace_left, false) <= TURN_MAX_NANOS,
        turn_wait(poll, grace_left, true) == turn_wait(poll, None, true),
{
}

/// The instants that an attempt is planned by.
#[derive(Clone, Copy, Debug, PartialEq, Eq, Structural)]
pub struct Plan {
    pub attempt_origin: u64,
    pub work_expiry: Option<u64>,
    pub startup_expiry: u64,
}

/// The error of a clock that fails a running attempt.
pub open spec fn clock_failed(fault: Fault) -> ErrorView {
    bare_error(ErrorCategory::Monitor, "MCMONITOR-CLOCK", fault.text.chars())
}

/// The error of a clock that fails a running attempt.
pub fn clock_failure(fault: Fault) -> (r: Error)
    ensures
        r@ == clock_failed(fault),
{
    Error::new(ErrorCategory::Monitor, "MCMONITOR-CLOCK", fault.text.render())
}

/// What an inventory told of a workload.
#[derive(Debug)]
pub enum Reading {
    /// Whether it is empty, and its usage where that was asked for.
    Members { empty: bool, sample: Option<Result<u64, String>> },
    /// Why it could not be had.
    Failed(Text),
}

/// What a turn has seen.
#[derive(Debug)]
pub struct Turn {
    pub fault: Option<Text>,
    pub completion: bool,
    pub was_pending: bool,
    pub reading: Option<Reading>,
    pub empty: bool,
}

/// What ended an attempt.
#[derive(Debug)]
pub enum WatchEnding {
    Limit { limit: u64, usage: u64 },
    Deadline {
        deadline: Deadline,
        expiry: u64,
        observed: u64,
        grace_started: Duration,
        effective_grace: Duration,
    },
    Interrupted { signal: i32 },
    Failed { text: Text },
    Exited { child: ChildTermination, empty: bool },
}

/// What a turn waits to be told.
#[derive(Clone, Copy, Debug, PartialEq, Eq, Structural)]
pub enum WatchStage {
    /// A wait on the child.
    Reap,
    /// What became of the inventory that was asked for before.
    Poll,
    /// That the guardian was told of its client.
    Alive,
    /// That an inventory was asked for.
    Begin,
    /// What became of the inventory that was just asked for.
    PollAgain,
    /// The clock, to decide.
    Decide,
    /// Whether a signal came.
    Signal,
    /// That the wait is over.
    Wait,
    /// That the workload was retired.
    Retire,
    /// Nothing: the outcome can be read.
    Over,
}

/// What the caller does next.
#[derive(Clone, Copy, Debug, PartialEq, Eq, Structural)]
pub enum WatchAction {
    /// Wait on the child, without blocking.
    Reap,
    Poll(u64),
    SendAlive,
    BeginInventory { metric: Option<Metric> },
    ReadClock,
    /// Take a signal that came.
    TakeSignal,
    /// A signal is known already.
    KnownSignal,
    /// Wait so long for a signal.
    WaitSignal(Duration),
    /// Wait so long for the child's end, or for a signal where that cannot be done.
    WaitExit(Duration),
    /// Retire the workload.
    Retire { signal: i32, grace: Duration, deadline: Duration },
    /// Look what the command left, and retire that.
    RetireAfterExit { deadline: Duration },
    Finish,
}

/// A running attempt.
#[derive(Debug)]
pub struct Watchdog {
    pub policy: Policy,
    pub context: AttemptContext,
    pub plan: Plan,
    pub stored: Option<ChildTermination>,
    pub peak: u64,
    pub pending_signal: Option<i32>,
    pub exit_grace_started: Option<Duration>,
    pub query: Option<u64>,
    pub next_heartbeat: Duration,
    pub terminal: Option<u64>,
    pub force: Option<u64>,
    pub cleanup_expiry: Option<Duration>,
    pub turn: Turn,
    pub ending: Option<WatchEnding>,
    pub stage: WatchStage,
}

/// A turn that has seen nothing yet.
pub open spec fn fresh_turn() -> Turn {
    Turn { fault: None, completion: false, was_pending: false, reading: None, empty: false }
}

/// Whether times of an attempt are so small that sums of a few are representable.
pub open spec fn is_near(span: nat) -> bool {
    span <= u64::MAX
}

/// What polling an inventory came to.
pub type Polled = Result<Option<Reading>, String>;

/// What a poll adds to a turn.
pub open spec fn heard(polled: Polled) -> Option<Reading> {
    match polled {
        Ok(reading) => reading,
        Err(text) => Some(Reading::Failed(Text::Given(text))),
    }
}

impl Watchdog {
    /// What always holds of a running attempt.
    pub open spec fn wf(self) -> bool {
        &&& self.policy.deadline is Some ==> self.plan.work_expiry is Some
        &&& is_near(self.policy.limit_grace@)
        &&& is_near(self.policy.signal_grace@)
        &&& self.ending is Some <==> self.stage is Retire || self.stage is Over
        &&& self.stage is Poll || self.stage is PollAgain ==> self.query is Some
        &&& self.stage is Begin ==> self.query is None && self.turn.reading is None
        &&& self.turn.completion ==> self.stored is Some
    }

    /// How long the attempt may run.
    pub open spec fn active(self, deadline: Deadline) -> nat {
        match self.context.supervision_deadline_remaining {
            Some(remaining) => remaining@,
            None => deadline.duration@,
        }
    }

    /// Begins to watch an attempt that runs.
    pub fn begin(policy: Policy, context: AttemptContext, plan: Plan, now: Duration) -> (r: Watchdog)
        requires
            policy.deadline is Some ==> plan.work_expiry is Some,
            is_near(policy.limit_grace@),
            is_near(policy.signal_grace@),
        ensures
            r.wf(),
            r == (Watchdog {
                policy,
                context,
                plan,
                stored: None,
                peak: 0,
                pending_signal: None,
                exit_grace_started: None,
                query: None,
                next_heartbeat: now,
                terminal: None,
                force: None,
                cleanup_expiry: None,
                turn: fresh_turn(),
                ending: None,
                stage: WatchStage::Reap,
            }),
    {
        Watchdog {
            policy,
            context,
            plan,
            stored: None,
            peak: 0,
            pending_signal: None,
            exit_grace_started: None,
            query: None,
            next_heartbeat: now,
            terminal: None,
            force: None,
            cleanup_expiry: None,
            turn: Turn {
                fault: None,
                completion: false,
                was_pending: false,
                reading: None,
                empty: false,
            },
            ending: None,
            stage: WatchStage::Reap,
        }
    }

    /// Until when a turn that starts at `now` may look at the workload.
    pub open spec fn looks_until(self, now: nat, look: nat) -> nat {
        match self.policy.deadline {
            Some(deadline) => least(self.active(deadline), now + look),
            None => now + look,
        }
    }

    fn look_deadline(&self, now: Duration, look: Duration) -> (r: Duration)
        requires
            is_near(now@),
            is_near(look@),
        ensures
            r@ == self.looks_until(now@, look@),
    {
        let local = later(now, look);
        match self.policy.deadline {
            Some(deadline) => match self.context.supervision_deadline_remaining {
                Some(remaining) => remaining.min(local),
                None => deadline.duration.min(local),
            },
            None => local,
        }
    }

    /// Until when a turn that starts at `now` may look at the workload.
    pub fn inspection_deadline(&self, now: Duration) -> (r: Duration)
        requires
            is_near(now@),
        ensures
            r@ == self.looks_until(now@, 250_000_000),
    {
        self.look_deadline(now, Duration::from_millis(250))
    }

    /// Until when the first look at the command may take.
    pub fn first_look_deadline(&self, now: Duration) -> (r: Duration)
        requires
            is_near(now@),
        ensures
            r@ == self.looks_until(now@, 100_000_000),
    {
        self.look_deadline(now, Duration::from_millis(100))
    }

    /// What a wait on the child makes of the attempt, apart from a fault of the wait.
    pub open spec fn after_reap(self, reap: Reap, now: Duration) -> Watchdog {
        let stored = match self.stored {
            Some(status) => Some(status),
            None => match reap {
                Ok(status) => status,
                Err(_) => None,
            },
        };
        let completion = stored is Some && self.policy.lifetime == Lifetime::Command;
        Watchdog {
            stored,
            exit_grace_started: if completion && self.exit_grace_started is None {
                Some(now)
            } else {
                self.exit_grace_started
            },
            turn: Turn {
                fault: None,
                completion,
                was_pending: self.query is Some,
                reading: None,
                empty: false,
            },
            ..self
        }
    }

    /// Takes in a wait on the child, which counts only as long as its end is not known.
    /// An inventory that was asked for before is looked for first; else the guardian is
    /// told that its client is there.
    pub fn reaped(&mut self, reap: Reap, now: Duration) -> (r: WatchAction)
        requires
            old(self).wf(),
            old(self).stage == WatchStage::Reap,
        ensures
            final(self).wf(),
            ({
                let seen = old(self).after_reap(reap, now);
                &&& *final(self) == (Watchdog {
                    turn: Turn { fault: final(self).turn.fault, ..seen.turn },
                    stage: if old(self).query is Some {
                        WatchStage::Poll
                    } else {
                        WatchStage::Alive
                    },
                    ..seen
                })
                &&& match (old(self).stored, reap) {
                    (None, Err(fault)) => final(self).turn.fault matches Some(text) && text.chars()
                        == "direct-child wait failed: "@ + fault.text.chars(),
                    _ => final(self).turn.fault is None,
                }
                &&& r == match old(self).query {
                    Some(query) => WatchAction::Poll(query),
                    None => WatchAction::SendAlive,
                }
            }),
    {
        let mut fault: Option<Text> = None;
        if self.stored.is_none() {
            match reap {
                Ok(status) => {
                    self.stored = status;
                },
                Err(wrong) => {
                    fault = Some(Text::Tagged("direct-child wait failed: ", wrong.text.render()));
                },
            }
        }
        let completion = self.stored.is_some() && self.policy.lifetime == Lifetime::Command;
        if completion && self.exit_grace_started.is_none() {
            self.exit_grace_started = Some(now);
        }
        self.turn = Turn {
            fault,
            completion,
            was_pending: self.query.is_some(),
            reading: None,
            empty: false,
        };
        match self.query {
            Some(query) => {
                self.stage = WatchStage::Poll;
                WatchAction::Poll(query)
            },
            None => {
                self.stage = WatchStage::Alive;
                WatchAction::SendAlive
            },
        }
    }

    /// What a poll makes of the attempt.
    pub open spec fn after_poll(self, polled: Polled) -> Watchdog {
        match heard(polled) {
            None => self,
            Some(reading) => Watchdog {
                query: None,
                turn: Turn { reading: Some(reading), ..self.turn },
                ..self
            },
        }
    }

    fn take_poll(&mut self, polled: Polled)
        ensures
            *final(self) == old(self).after_poll(polled),
    {
        let reading = match polled {
            Ok(reading) => reading,
            Err(text) => Some(Reading::Failed(Text::Given(text))),
        };
        match reading {
            None => {},
            Some(reading) => {
                self.query = None;
                self.turn.reading = Some(reading);
            },
        }
    }

    /// Takes in what became of the inventory that was asked for in a turn before. As
    /// long as it is awaited the guardian is told of its client only now and then, and
    /// nothing else is asked of it.
    pub fn polled(&mut self, polled: Polled, now: Duration) -> (r: WatchAction)
        requires
            old(self).wf(),
            old(self).stage == WatchStage::Poll,
        ensures
            final(self).wf(),
            if heard(polled) is None && now@ >= old(self).next_heartbeat@ {
                r == WatchAction::SendAlive && *final(self) == (Watchdog {
                    stage: WatchStage::Alive,
                    ..old(self).after_poll(polled)
                })
            } else {
                r == WatchAction::ReadClock && *final(self) == (Watchdog {
                    stage: WatchStage::Decide,
                    ..old(self).after_poll(polled)
                })
            },
    {
        let none = match &polled {
            Ok(None) => true,
            _ => false,
        };
        self.take_poll(polled);
        if none && !now.is_less_than(self.next_heartbeat) {
            self.stage = WatchStage::Alive;
            WatchAction::SendAlive
        } else {
            self.stage = WatchStage::Decide;
            WatchAction::ReadClock
        }
    }

    /// The guardian was told of its client, or that failed. Where no inventory is
    /// awaited, one is asked for; one that is awaited is never asked for again.
    pub fn alive_sent(&mut self, sent: Result<(), Fault>, now: Duration) -> (r: WatchAction)
        requires
            old(self).wf(),
            old(self).stage == WatchStage::Alive,
            old(self).turn.reading is None,
            is_near(now@),
        ensures
            final(self).wf(),
            final(self).next_heartbeat@ == now@ + 500_000_000,
            ({
                let told = Watchdog {
                    next_heartbeat: final(self).next_heartbeat,
                    turn: Turn {
                        fault: match sent {
                            Err(fault) => Some(fault.text),
                            Ok(_) => old(self).turn.fault,
                        },
                        ..old(self).turn
                    },
                    ..*old(self)
                };
                match old(self).query {
                    None => *final(self) == (Watchdog { stage: WatchStage::Begin, ..told }) && r
                        == (WatchAction::BeginInventory {
                        metric: match old(self).policy.memory {
                            Some(_) => Some(old(self).policy.metric),
                            None => None,
                        },
                    }),
                    Some(_) => *final(self) == (Watchdog { stage: WatchStage::Decide, ..told })
                        && r == WatchAction::ReadClock,
                }
            }),
    {
        match sent {
            Ok(_) => {},
            Err(fault) => {
                self.turn.fault = Some(fault.text);
            },
        }
        self.next_heartbeat = later(now, Duration::from_millis(500));
        match self.query {
            None => {
                self.stage = WatchStage::Begin;
                WatchAction::BeginInventory {
                    metric: match self.policy.memory {
                        Some(_) => Some(self.policy.metric),
                        None => None,
                    },
                }
            },
            Some(_) => {
                self.stage = WatchStage::Decide;
                WatchAction::ReadClock
            },
        }
    }

    /// Until when the answer to an inventory is awaited: three seconds beyond the look,
    /// but not beyond the time in which a workload whose time is over is retired.
    pub open spec fn answers_until(self, look: nat, now: nat, clock: Result<u64, Fault>) -> Result<
        nat,
        Fault,
    > {
        let local = look + RETIREMENT_NANOS as nat;
        match self.plan.work_expiry {
            None => Ok(local),
            Some(expiry) => match clock {
                Err(fault) => Err(fault),
                Ok(tick) => match after(expiry, self.policy.limit_grace@) {
                    Err(fault) => Err(fault),
                    Ok(force) => match after(force, RETIREMENT_NANOS as nat) {
                        Err(fault) => Err(fault),
                        Ok(end) => Ok(least(local, now + floor_sub(end as nat, tick as nat))),
                    },
                },
            },
        }
    }

    /// Until when the answer to an inventory is awaited.
    pub fn response_deadline(&self, look: Duration, now: Duration, clock: Result<u64, Fault>) -> (r:
        Result<Duration, Error>)
        requires
            is_near(now@),
            look@ + RETIREMENT_NANOS <= MAX_NANOS,
        ensures
            match self.answers_until(look@, now@, clock) {
                Ok(end) => r matches Ok(deadline) && deadline@ == end,
                Err(fault) => r matches Err(error) && error@ == clock_failed(fault),
            },
    {
        let reserve = Duration::from_nanos(RETIREMENT_NANOS);
        let local = later(look, reserve);
        let expiry: u64 = match self.plan.work_expiry {
            None => {
                return Ok(local);
            },
            Some(expiry) => expiry,
        };
        let tick: u64 = match clock {
            Ok(tick) => tick,
            Err(fault) => {
                return Err(clock_failure(fault));
            },
        };
        let force: u64 = match crate::macos_deadline::add(expiry, self.policy.limit_grace) {
            Ok(force) => force,
            Err(fault) => {
                return Err(clock_failure(fault));
            },
        };
        match crate::macos_deadline::add(force, reserve) {
            Ok(end) => {
                let left: u64 = if end >= tick {
                    end - tick
                } else {
                    0
                };
                Ok(local.min_sum(now, Duration::from_nanos(left)))
            },
            Err(fault) => Err(clock_failure(fault)),
        }
    }

    /// An inventory was asked for, or that failed.
    pub fn begun(&mut self, begun: Result<u64, String>) -> (r: WatchAction)
        requires
            old(self).wf(),
            old(self).stage == WatchStage::Begin,
        ensures
            final(self).wf(),
            match begun {
                Ok(query) => r == WatchAction::Poll(query) && *final(self) == (Watchdog {
                    query: Some(query),
                    stage: WatchStage::PollAgain,
                    ..*old(self)
                }),
                Err(text) => r == WatchAction::ReadClock && *final(self) == (Watchdog {
                    turn: Turn {
                        reading: Some(Reading::Failed(Text::Given(text))),
                        ..old(self).turn
                    },
                    stage: WatchStage::Decide,
                    ..*old(self)
                }),
            },
    {
        match begun {
            Ok(query) => {
                self.query = Some(query);
                self.stage = WatchStage::PollAgain;
                WatchAction::Poll(query)
            },
            Err(text) => {
                self.turn.reading = Some(Reading::Failed(Text::Given(text)));
                self.stage = WatchStage::Decide;
                WatchAction::ReadClock
            },
        }
    }

    /// Takes in what became of the inventory that was just asked for.
    pub fn polled_again(&mut self, polled: Polled) -> (r: WatchAction)
        requires
            old(self).wf(),
            old(self).stage == WatchStage::PollAgain,
        ensures
            final(self).wf(),
            r == WatchAction::ReadClock,
            *final(self) == (Watchdog {
                stage: WatchStage::Decide,
                ..old(self).after_poll(polled)
            }),
    {
        self.take_poll(polled);
        self.stage = WatchStage::Decide;
        WatchAction::ReadClock
    }

    /// The usage that this turn learned of, where memory is limited.
    pub open spec fn usage(self) -> Option<u64> {
        match (self.policy.memory, self.turn.reading) {
            (Some(_), Some(Reading::Members { empty: false, sample: Some(Ok(usage)) })) => Some(
                usage,
            ),
            _ => None,
        }
    }

    /// Whether this turn learned of a usage that reaches the limit.
    pub open spec fn over_limit(self) -> bool {
        self.usage() matches Some(usage) && usage >= self.policy.memory->0
    }

    /// What the inventory of this turn makes of the attempt.
    pub open spec fn sampled(self) -> Watchdog {
        match self.turn.reading {
            None => self,
            Some(Reading::Failed(text)) => Watchdog {
                turn: Turn {
                    fault: match self.turn.fault {
                        Some(fault) => Some(fault),
                        None => Some(text),
                    },
                    reading: None,
                    ..self.turn
                },
                ..self
            },
            Some(Reading::Members { empty, sample }) => Watchdog {
                peak: match self.usage() {
                    Some(usage) => larger(self.peak, usage),
                    None => self.peak,
                },
                turn: Turn {
                    fault: if self.policy.memory is Some && !empty {
                        match sample {
                            None => Some(Text::Fixed("guardian sample response missing")),
                            Some(Err(text)) => Some(Text::Given(text)),
                            Some(Ok(_)) => self.turn.fault,
                        }
                    } else {
                        self.turn.fault
                    },
                    completion: self.turn.completion || (self.policy.lifetime == Lifetime::Workload
                        && self.stored is Some && empty),
                    reading: None,
                    empty,
                    ..self.turn
                },
                ..self
            },
        }
    }

    fn take_sample(&mut self) -> (r: Option<u64>)
        requires
            old(self).turn.completion ==> old(self).stored is Some,
        ensures
            *final(self) == old(self).sampled(),
            r == old(self).usage(),
            final(self).turn.completion ==> final(self).stored is Some,
    {
        match self.turn.reading.take() {
            None => None,
            Some(Reading::Failed(text)) => {
                if self.turn.fault.is_none() {
                    self.turn.fault = Some(text);
                }
                None
            },
            Some(Reading::Members { empty, sample }) => {
                self.turn.empty = empty;
                if self.policy.lifetime == Lifetime::Workload && self.stored.is_some() && empty {
                    self.turn.completion = true;
                }
                if self.policy.memory.is_none() || empty {
                    return None;
                }
                match sample {
                    None => {
                        self.turn.fault = Some(Text::Fixed("guardian sample response missing"));
                        None
                    },
                    Some(Err(text)) => {
                        self.turn.fault = Some(Text::Given(text));
                        None
                    },
                    Some(Ok(usage)) => {
                        if usage > self.peak {
                            self.peak = usage;
                        }
                        Some(usage)
                    },
                }
            },
        }
    }

    /// The attempt with a time set for its retirement, unless one is set already.
    pub open spec fn budgeted(self, after: Watchdog, now: nat, clock: Result<u64, Fault>) -> bool {
        &&& after == (Watchdog {
            terminal: match self.terminal {
                Some(tick) => Some(tick),
                None => match clock {
                    Ok(tick) => Some(tick),
                    Err(_) => None,
                },
            },
            force: match self.force {
                Some(tick) => Some(tick),
                None => after.terminal,
            },
            cleanup_expiry: after.cleanup_expiry,
            ..self
        })
        &&& match self.cleanup_expiry {
            Some(expiry) => after.cleanup_expiry == Some(expiry),
            None => after.cleanup_expiry matches Some(expiry) && expiry@ == now + RETIREMENT_NANOS,
        }
    }

    /// Sets a time for the retirement, unless one is set already.
    fn budget(&mut self, now: Duration, clock: Result<u64, Fault>) -> (r: Duration)
        requires
            is_near(now@),
        ensures
            old(self).budgeted(*final(self), now@, clock),
            final(self).cleanup_expiry == Some(r),
    {
        if self.terminal.is_none() {
            match clock {
                Ok(tick) => {
                    self.terminal = Some(tick);
                },
                Err(_) => {},
            }
        }
        if self.force.is_none() {
            self.force = self.terminal;
        }
        match self.cleanup_expiry {
            Some(expiry) => expiry,
            None => {
                let expiry = later(now, Duration::from_nanos(RETIREMENT_NANOS));
                self.cleanup_expiry = Some(expiry);
                expiry
            },
        }
    }

    /// The attempt ended with `ending`, to be forced at `force`.
    pub open spec fn stopping(
        self,
        ending: WatchEnding,
        terminal: u64,
        force: u64,
        cleanup_expiry: Option<Duration>,
    ) -> Watchdog {
        Watchdog {
            terminal: Some(terminal),
            force: Some(force),
            cleanup_expiry,
            ending: Some(ending),
            stage: WatchStage::Retire,
            ..self
        }
    }

    /// What a usage that reaches the limit makes of the attempt.
    pub open spec fn limit_ends(
        self,
        after_it: Watchdog,
        r: Result<WatchAction, Error>,
        usage: u64,
        now: nat,
        clock: Result<u64, Fault>,
    ) -> bool {
        match clock {
            Err(fault) => r matches Err(error) && error@ == clock_failed(fault),
            Ok(tick) => match after(tick, self.policy.limit_grace@) {
                Err(fault) => r matches Err(error) && error@ == clock_failed(fault),
                Ok(force) => {
                    &&& after_it == self.stopping(
                        WatchEnding::Limit { limit: self.policy.memory->0, usage },
                        tick,
                        force,
                        after_it.cleanup_expiry,
                    )
                    &&& after_it.cleanup_expiry matches Some(expiry) && expiry@ == now
                        + self.policy.limit_grace@ + RETIREMENT_NANOS
                    &&& r == Ok::<WatchAction, Error>(
                        WatchAction::Retire {
                            signal: if self.policy.limit_grace@ == 0 {
                                SIGKILL
                            } else {
                                SIGTERM
                            },
                            grace: self.policy.limit_grace,
                            deadline: after_it.cleanup_expiry->0,
                        },
                    )
                },
            },
        }
    }

    fn end_at_limit(&mut self, limit: u64, usage: u64, now: Duration, clock: Result<u64, Fault>) -> (r:
        Result<WatchAction, Error>)
        requires
            old(self).wf() || old(self).ending is None,
            old(self).policy.memory == Some(limit),
            is_near(now@),
            is_near(old(self).policy.limit_grace@),
        ensures
            old(self).limit_ends(*final(self), r, usage, now@, clock),
            r is Err ==> *final(self) == *old(self),
    {
        let tick: u64 = match clock {
            Ok(tick) => tick,
            Err(fault) => {
                return Err(clock_failure(fault));
            },
        };
        let force: u64 = match crate::macos_deadline::add(tick, self.policy.limit_grace) {
            Ok(force) => force,
            Err(fault) => {
                return Err(clock_failure(fault));
            },
        };
        let grace = self.policy.limit_grace;
        let deadline = later(later(now, grace), Duration::from_nanos(RETIREMENT_NANOS));
        self.terminal = Some(tick);
        self.force = Some(force);
        self.cleanup_expiry = Some(deadline);
        self.ending = Some(WatchEnding::Limit { limit, usage });
        self.stage = WatchStage::Retire;
        let signal: i32 = if grace.is_zero() {
            SIGKILL
        } else {
            SIGTERM
        };
        Ok(WatchAction::Retire { signal, grace, deadline })
    }

    /// What a deadline that passed makes of the attempt.
    pub open spec fn deadline_ends(
        self,
        after_it: Watchdog,
        r: Result<WatchAction, Error>,
        expiry: u64,
        tick: u64,
        now: nat,
    ) -> bool {
        match after(expiry, self.policy.limit_grace@) {
            Err(fault) => r matches Err(error) && error@ == clock_failed(fault),
            Ok(force) => match after(force, RETIREMENT_NANOS as nat) {
                Err(fault) => r matches Err(error) && error@ == clock_failed(fault),
                Ok(end) => {
                    let grace = floor_sub(force as nat, tick as nat);
                    &&& after_it.ending matches Some(
                        WatchEnding::Deadline {
                            deadline,
                            expiry: e,
                            observed,
                            grace_started,
                            effective_grace,
                        },
                    ) && deadline == self.policy.deadline->0 && e == expiry && observed == tick
                        && grace_started@ == now && effective_grace@ == grace
                    &&& after_it == self.stopping(
                        after_it.ending->0,
                        tick,
                        force,
                        after_it.cleanup_expiry,
                    )
                    &&& after_it.cleanup_expiry matches Some(until) && until@ == now + floor_sub(
                        end as nat,
                        tick as nat,
                    )
                    &&& r matches Ok(
                        WatchAction::Retire { signal, grace: given, deadline },
                    ) && signal == if grace == 0 {
                        SIGKILL
                    } else {
                        SIGTERM
                    } && given@ == grace && Some(deadline) == after_it.cleanup_expiry
                },
            },
        }
    }

    fn end_at_deadline(&mut self, deadline: Deadline, expiry: u64, tick: u64, now: Duration) -> (r:
        Result<WatchAction, Error>)
        requires
            old(self).policy.deadline == Some(deadline),
            is_near(now@),
        ensures
            old(self).deadline_ends(*final(self), r, expiry, tick, now@),
            r is Err ==> *final(self) == *old(self),
    {
        let force: u64 = match crate::macos_deadline::add(expiry, self.policy.limit_grace) {
            Ok(force) => force,
            Err(fault) => {
                return Err(clock_failure(fault));
            },
        };
        let left = match crate::macos_deadline::remaining_retirement(
            force,
            tick,
            Duration::from_nanos(RETIREMENT_NANOS),
        ) {
            Ok(left) => left,
            Err(fault) => {
                return Err(clock_failure(fault));
            },
        };
        let grace_nanos: u64 = if force >= tick {
            force - tick
        } else {
            0
        };
        let effective_grace = Duration::from_nanos(grace_nanos);
        let until = later(now, left);
        self.terminal = Some(tick);
        self.force = Some(force);
        self.cleanup_expiry = Some(until);
        self.ending = Some(
            WatchEnding::Deadline {
                deadline,
                expiry,
                observed: tick,
                grace_started: now,
                effective_grace,
            },
        );
        self.stage = WatchStage::Retire;
        let signal: i32 = if grace_nanos == 0 {
            SIGKILL
        } else {
            SIGTERM
        };
        Ok(WatchAction::Retire { signal, grace: effective_grace, deadline: until })
    }

    /// The attempt ended with a fault of the watch, and is forced at once.
    pub open spec fn failing(
        self,
        after_it: Watchdog,
        r: WatchAction,
        text: Seq<char>,
        now: nat,
        clock: Result<u64, Fault>,
    ) -> bool {
        &&& after_it.ending matches Some(WatchEnding::Failed { text: given }) && given.chars()
            == text
        &&& after_it.stage == WatchStage::Retire
        &&& (Watchdog {
            ending: after_it.ending,
            stage: WatchStage::Retire,
            turn: after_it.turn,
            ..self
        }).budgeted(after_it, now, clock)
        &&& after_it.turn == (Turn { fault: None, ..self.turn })
        &&& r matches WatchAction::Retire { signal, grace, deadline } && signal == SIGKILL
            && grace@ == 0 && Some(deadline) == after_it.cleanup_expiry
    }

    fn end_failed(&mut self, text: Text, now: Duration, clock: Result<u64, Fault>) -> (r:
        WatchAction)
        requires
            is_near(now@),
        ensures
            old(self).failing(*final(self), r, text.chars(), now@, clock),
    {
        self.turn.fault = None;
        self.ending = Some(WatchEnding::Failed { text });
        self.stage = WatchStage::Retire;
        let deadline = self.budget(now, clock);
        WatchAction::Retire { signal: SIGKILL, grace: Duration::zero(), deadline }
    }

    /// Whether the deadline has passed at `tick`.
    pub open spec fn expired(self, tick: u64) -> bool {
        self.policy.deadline is Some && (self.plan.work_expiry matches Some(expiry) && tick
            >= expiry)
    }

    /// What a turn decides: a usage that reaches the limit goes first, then a deadline
    /// that passed, then a fault of the watch; else a signal is looked for. That the
    /// clock cannot be read ends the attempt only where it is needed.
    pub open spec fn decides(
        self,
        after_it: Watchdog,
        r: Result<WatchAction, Error>,
        now: nat,
        clock: Result<u64, Fault>,
    ) -> bool {
        let seen = self.sampled();
        if self.over_limit() {
            seen.limit_ends(after_it, r, self.usage()->0, now, clock)
        } else if self.policy.deadline is Some && clock is Err {
            r matches Err(error) && error@ == clock_failed(clock->Err_0)
        } else if self.policy.deadline is Some && seen.expired(clock->Ok_0) {
            seen.deadline_ends(after_it, r, self.plan.work_expiry->0, clock->Ok_0, now)
        } else if seen.turn.fault is Some {
            r matches Ok(action) && seen.failing(
                after_it,
                action,
                seen.turn.fault->0.chars(),
                now,
                clock,
            )
        } else {
            after_it == (Watchdog { stage: WatchStage::Signal, ..seen }) && r == Ok::<
                WatchAction,
                Error,
            >(
                if self.pending_signal is Some {
                    WatchAction::KnownSignal
                } else {
                    WatchAction::TakeSignal
                },
            )
        }
    }

    /// Decides a turn.
    pub fn decide(&mut self, now: Duration, clock: Result<u64, Fault>) -> (r: Result<
        WatchAction,
        Error,
    >)
        requires
            old(self).wf(),
            old(self).stage == WatchStage::Decide,
            is_near(now@),
        ensures
            old(self).decides(*final(self), r, now@, clock),
            r is Ok ==> final(self).wf(),
            r is Err ==> *final(self) == old(self).sampled(),
    {
        let usage = self.take_sample();
        if let (Some(limit), Some(usage)) = (self.policy.memory, usage) {
            if usage >= limit {
                return self.end_at_limit(limit, usage, now, clock);
            }
        }
        if let Some(deadline) = self.policy.deadline {
            match &clock {
                Err(fault) => {
                    return Err(clock_failure(fault.duplicate()));
                },
                Ok(tick) => {
                    if let Some(expiry) = self.plan.work_expiry {
                        if *tick >= expiry {
                            return self.end_at_deadline(deadline, expiry, *tick, now);
                        }
                    }
                },
            }
        }
        match self.turn.fault.take() {
            Some(text) => Ok(self.end_failed(text, now, clock)),
            None => {
                self.stage = WatchStage::Signal;
                Ok(
                    if self.pending_signal.is_some() {
                        WatchAction::KnownSignal
                    } else {
                        WatchAction::TakeSignal
                    },
                )
            },
        }
    }

    /// Whether a command that left takes the attempt's end with it.
    pub open spec fn is_complete(self, now: nat) -> bool {
        if self.policy.lifetime == Lifetime::Workload || self.turn.empty {
            self.turn.empty
        } else if self.policy.command_exit_grace@ == 0 {
            true
        } else {
            self.exit_grace_started matches Some(started) && floor_sub(now, started@)
                >= self.policy.command_exit_grace@
        }
    }

    /// How long to wait before the next turn.
    pub open spec fn next_wait(self, now: nat) -> nat {
        let wait = turn_wait(
            self.policy.poll_interval@,
            match self.exit_grace_started {
                Some(started) => Some(
                    floor_sub(self.policy.command_exit_grace@, floor_sub(now, started@)),
                ),
                None => None,
            },
            self.query is Some,
        );
        match self.policy.deadline {
            Some(deadline) => least(wait, floor_sub(self.active(deadline), now)),
            None => wait,
        }
    }

    fn wait_for_next(&self, now: Duration) -> (r: Duration)
        ensures
            r@ == self.next_wait(now@),
    {
        let left = match self.exit_grace_started {
            Some(started) => Some(
                self.policy.command_exit_grace.saturating_sub(now.saturating_sub(started)),
            ),
            None => None,
        };
        let wait = watchdog_turn_wait(self.policy.poll_interval, left, self.query.is_some());
        match self.policy.deadline {
            Some(deadline) => {
                let active = match self.context.supervision_deadline_remaining {
                    Some(remaining) => remaining,
                    None => deadline.duration,
                };
                wait.min(active.saturating_sub(now))
            },
            None => wait,
        }
    }

    /// What a signal makes of the attempt.
    pub open spec fn signal_ends(
        self,
        after_it: Watchdog,
        r: Result<WatchAction, Error>,
        signal: i32,
        now: nat,
        clock: Result<u64, Fault>,
    ) -> bool {
        match clock {
            Err(fault) => r matches Err(error) && error@ == clock_failed(fault),
            Ok(tick) => match after(tick, self.policy.signal_grace@) {
                Err(fault) => r matches Err(error) && error@ == clock_failed(fault),
                Ok(force) => {
                    &&& after_it == self.stopping(
                        WatchEnding::Interrupted { signal },
                        tick,
                        force,
                        after_it.cleanup_expiry,
                    )
                    &&& after_it.cleanup_expiry matches Some(expiry) && expiry@ == now
                        + self.policy.signal_grace@ + RETIREMENT_NANOS
                    &&& r == Ok::<WatchAction, Error>(
                        WatchAction::Retire {
                            signal,
                            grace: self.policy.signal_grace,
                            deadline: after_it.cleanup_expiry->0,
                        },
                    )
                },
            },
        }
    }

    fn end_interrupted(&mut self, signal: i32, now: Duration, clock: Result<u64, Fault>) -> (r:
        Result<WatchAction, Error>)
        requires
            is_near(now@),
            is_near(old(self).policy.signal_grace@),
        ensures
            old(self).signal_ends(*final(self), r, signal, now@, clock),
            r is Err ==> *final(self) == *old(self),
    {
        let tick: u64 = match clock {
            Ok(tick) => tick,
            Err(fault) => {
                return Err(clock_failure(fault));
            },
        };
        let force: u64 = match crate::macos_deadline::add(tick, self.policy.signal_grace) {
            Ok(force) => force,
            Err(fault) => {
                return Err(clock_failure(fault));
            },
        };
        let grace = self.policy.signal_grace;
        let deadline = later(later(now, grace), Duration::from_nanos(RETIREMENT_NANOS));
        self.terminal = Some(tick);
        self.force = Some(force);
        self.cleanup_expiry = Some(deadline);
        self.ending = Some(WatchEnding::Interrupted { signal });
        self.stage = WatchStage::Retire;
        Ok(WatchAction::Retire { signal, grace, deadline })
    }

    /// What a turn without a signal comes to: a command that left ends the attempt once
    /// nothing has to be waited for and no inventory is awaited; else the next turn is
    /// waited for.
    pub open spec fn settles(
        self,
        after_it: Watchdog,
        r: WatchAction,
        now: nat,
        clock: Result<u64, Fault>,
    ) -> bool {
        if self.turn.completion && self.query is None && self.is_complete(now) {
            let ended = Watchdog {
                ending: Some(
                    WatchEnding::Exited { child: self.stored->0, empty: self.turn.empty },
                ),
                stage: if self.turn.empty {
                    WatchStage::Over
                } else {
                    WatchStage::Retire
                },
                ..self
            };
            &&& ended.budgeted(after_it, now, clock)
            &&& r == if self.turn.empty {
                WatchAction::Finish
            } else {
                WatchAction::RetireAfterExit { deadline: after_it.cleanup_expiry->0 }
            }
        } else {
            &&& after_it == (Watchdog { stage: WatchStage::Wait, ..self })
            &&& if self.stored is Some {
                r matches WatchAction::WaitSignal(wait) && wait@ == self.next_wait(now)
            } else {
                r matches WatchAction::WaitExit(wait) && wait@ == self.next_wait(now)
            }
        }
    }

    fn settle(&mut self, now: Duration, clock: Result<u64, Fault>) -> (r: WatchAction)
        requires
            old(self).turn.completion ==> old(self).stored is Some,
            is_near(now@),
        ensures
            old(self).settles(*final(self), r, now@, clock),
    {
        let complete = if self.policy.lifetime == Lifetime::Workload || self.turn.empty {
            self.turn.empty
        } else if self.policy.command_exit_grace.is_zero() {
            true
        } else {
            match self.exit_grace_started {
                Some(started) => !now.saturating_sub(started).is_less_than(
                    self.policy.command_exit_grace,
                ),
                None => false,
            }
        };
        if self.turn.completion && self.query.is_none() && complete {
            if let Some(child) = self.stored {
                let empty = self.turn.empty;
                self.ending = Some(WatchEnding::Exited { child, empty });
                self.stage = if empty {
                    WatchStage::Over
                } else {
                    WatchStage::Retire
                };
                let deadline = self.budget(now, clock);
                return if empty {
                    WatchAction::Finish
                } else {
                    WatchAction::RetireAfterExit { deadline }
                };
            }
        }
        let wait = self.wait_for_next(now);
        self.stage = WatchStage::Wait;
        if self.stored.is_some() {
            WatchAction::WaitSignal(wait)
        } else {
            WatchAction::WaitExit(wait)
        }
    }

    /// Takes in a signal that came; one that came during the wait goes first.
    pub fn signal(&mut self, taken: Option<i32>, now: Duration, clock: Result<u64, Fault>) -> (r:
        Result<WatchAction, Error>)
        requires
            old(self).wf(),
            old(self).stage == WatchStage::Signal,
            is_near(now@),
        ensures
            r is Ok ==> final(self).wf(),
            ({
                let quiet = Watchdog { pending_signal: None, ..*old(self) };
                let signal = match old(self).pending_signal {
                    Some(signal) => Some(signal),
                    None => taken,
                };
                match signal {
                    Some(signal) => quiet.signal_ends(*final(self), r, signal, now@, clock),
                    None => r matches Ok(action) && quiet.settles(
                        *final(self),
                        action,
                        now@,
                        clock,
                    ),
                }
            }),
    {
        let signal = match self.pending_signal {
            Some(signal) => Some(signal),
            None => taken,
        };
        self.pending_signal = None;
        match signal {
            Some(signal) => self.end_interrupted(signal, now, clock),
            None => Ok(self.settle(now, clock)),
        }
    }

    /// The wait is over, with the signal that came during it. That the child could not
    /// be waited for ends the attempt.
    pub fn waited(&mut self, waited: Result<Option<i32>, Fault>, now: Duration, clock: Result<
        u64,
        Fault,
    >) -> (r: WatchAction)
        requires
            old(self).wf(),
            old(self).stage == WatchStage::Wait,
            is_near(now@),
        ensures
            final(self).wf(),
            match waited {
                Ok(signal) => r == WatchAction::Reap && *final(self) == (Watchdog {
                    pending_signal: signal,
                    stage: WatchStage::Reap,
                    ..*old(self)
                }),
                Err(fault) => old(self).failing(
                    *final(self),
                    r,
                    "kqueue wait failed: "@ + fault.text.chars(),
                    now@,
                    clock,
                ),
            },
    {
        match waited {
            Ok(signal) => {
                self.pending_signal = signal;
                self.stage = WatchStage::Reap;
                WatchAction::Reap
            },
            Err(fault) => {
                let text = Text::Tagged("kqueue wait failed: ", fault.text.render());
                self.end_failed(text, now, clock)
            },
        }
    }

    /// The workload was retired; what is known of the child now.
    pub fn retired(&mut self, stored: Option<ChildTermination>) -> (r: WatchAction)
        requires
            old(self).wf(),
            old(self).stage == WatchStage::Retire,
            old(self).stored is Some ==> stored is Some,
        ensures
            final(self).wf(),
            r == WatchAction::Finish,
            *final(self) == (Watchdog { stored, stage: WatchStage::Over, ..*old(self) }),
    {
        self.stored = stored;
        self.stage = WatchStage::Over;
        WatchAction::Finish
    }

    /// The evidence of a deadline that passed, read off at `now`.
    pub open spec fn deadline_evidence(
        self,
        deadline: Deadline,
        expiry: u64,
        observed: u64,
        grace_used: nat,
    ) -> DeadlineEvidence {
        let origin = self.plan.attempt_origin as nat;
        DeadlineEvidence {
            duration_ms: capped_millis(deadline.duration@),
            scope: deadline.scope,
            origin: "pre-spawn",
            expires_ms: capped_millis(
                self.context.supervision_offset@ + floor_sub(expiry as nat, origin),
            ),
            observed_ms: capped_millis(
                self.context.supervision_offset@ + floor_sub(observed as nat, origin),
            ),
            grace_ms: capped_millis(self.policy.limit_grace@),
            grace_used_ms: capped_millis(grace_used),
            graceful_action: if self.policy.limit_grace@ == 0 {
                None
            } else {
                Some("sigterm-process-group")
            },
            forced_action: Some("sigkill-process-group"),
        }
    }

    /// The outcome of an attempt that is over.
    pub open spec fn outcome(self, now: nat) -> OutcomeView {
        let peak = if self.policy.memory is Some {
            Some(self.peak)
        } else {
            None
        };
        match self.ending->0 {
            WatchEnding::Limit { limit, usage } => OutcomeView::LimitExceeded {
                limit,
                observed: Some(usage),
                peak: Some(self.peak),
                backend: "macos-watchdog"@,
                metric: metric_named(self.policy.metric)@,
                detail: "sampled aggregate reached configured limit"@,
                child_after_termination: self.stored,
            },
            WatchEnding::Deadline { deadline, expiry, observed, grace_started, effective_grace } =>
                OutcomeView::DeadlineExceeded {
                deadline: self.deadline_evidence(
                    deadline,
                    expiry,
                    observed,
                    least(floor_sub(now, grace_started@), effective_grace@),
                ),
                child_after_termination: self.stored,
                peak,
            },
            WatchEnding::Interrupted { signal } => OutcomeView::Interrupted {
                signal,
                child_after_termination: self.stored,
            },
            WatchEnding::Failed { text } => OutcomeView::MonitorFailed {
                error: text.chars(),
                child_after_termination: self.stored,
            },
            WatchEnding::Exited { child, .. } => OutcomeView::Exited { child, peak },
        }
    }

    /// The evidence of the deadline that ended the attempt, where one did.
    pub open spec fn evidence_at(self, now: nat) -> Option<DeadlineEvidence> {
        match self.ending {
            Some(
                WatchEnding::Deadline { deadline, expiry, observed, grace_started, effective_grace },
            ) => Some(
                self.deadline_evidence(
                    deadline,
                    expiry,
                    observed,
                    least(floor_sub(now, grace_started@), effective_grace@),
                ),
            ),
            _ => None,
        }
    }

    /// The evidence of the deadline that ended the attempt, where one did, read off at
    /// `now`.
    pub fn expired_evidence(&self, now: Duration) -> (r: Option<DeadlineEvidence>)
        ensures
            r == self.evidence_at(now@),
    {
        match &self.ending {
            Some(
                WatchEnding::Deadline { deadline, expiry, observed, grace_started, effective_grace },
            ) => {
                let origin: u64 = self.plan.attempt_origin;
                let active: u64 = if *expiry >= origin {
                    *expiry - origin
                } else {
                    0
                };
                let seen: u64 = if *observed >= origin {
                    *observed - origin
                } else {
                    0
                };
                let offset = self.context.supervision_offset;
                let used = now.saturating_sub(*grace_started).min(*effective_grace);
                Some(
                    DeadlineEvidence {
                        duration_ms: deadline.duration.millis(),
                        scope: deadline.scope,
                        origin: "pre-spawn",
                        expires_ms: offset.sum_millis(Duration::from_nanos(active)),
                        observed_ms: offset.sum_millis(Duration::from_nanos(seen)),
                        grace_ms: self.policy.limit_grace.millis(),
                        grace_used_ms: used.millis(),
                        graceful_action: if self.policy.limit_grace.is_zero() {
                            None
                        } else {
                            Some("sigterm-process-group")
                        },
                        forced_action: Some("sigkill-process-group"),
                    },
                )
            },
            _ => None,
        }
    }

    /// The outcome of an attempt that is over, with what it gave back. `accepted` is
    /// whether the evidence of a deadline that ended it was accepted; where it was not,
    /// there is no outcome.
    pub fn conclude(self, cleanup: CleanupSummary, now: Duration, accepted: bool) -> (r: Result<
        RunOutcome,
        Error,
    >)
        requires
            self.wf(),
            self.stage == WatchStage::Over,
        ensures
            match r {
                Ok(outcome) => {
                    &&& self.evidence_at(now@) is None || accepted
                    &&& outcome@ == self.outcome(now@)
                    &&& outcome.cleaned() == cleanup@
                },
                Err(error) => self.evidence_at(now@) is Some && !accepted && error@
                    == refused_evidence(),
            },
    {
        let evidence = self.expired_evidence(now);
        if evidence.is_some() && !accepted {
            return Err(refused_deadline_evidence());
        }
        let peak = match self.policy.memory {
            Some(_) => Some(self.peak),
            None => None,
        };
        let child_after_termination = self.stored;
        let outcome = match self.ending.unwrap() {
            WatchEnding::Limit { limit, usage } => RunOutcome::LimitExceeded {
                limit,
                observed: Some(usage),
                peak: Some(self.peak),
                evidence: LimitEvidence {
                    backend: "macos-watchdog".to_owned(),
                    metric: metric_name(self.policy.metric).to_owned(),
                    detail: "sampled aggregate reached configured limit".to_owned(),
                },
                child_after_termination,
                cleanup,
            },
            WatchEnding::Deadline { .. } => RunOutcome::DeadlineExceeded {
                deadline: evidence.unwrap(),
                child_after_termination,
                peak,
                cleanup,
            },
            WatchEnding::Interrupted { signal } => RunOutcome::Interrupted {
                signal,
                child_after_termination,
                cleanup,
            },
            WatchEnding::Failed { text } => RunOutcome::MonitorFailed {
                error: text.render(),
                child_after_termination,
                cleanup,
            },
            WatchEnding::Exited { child, .. } => RunOutcome::Exited { child, peak, cleanup },
        };
        Ok(outcome)
    }
}

/// A usage that reaches the limit decides the outcome whatever else the turn saw: a
/// deadline that passed, a fault of the watch or a signal.
pub proof fn limit_goes_first(
    w: Watchdog,
    after_it: Watchdog,
    r: Result<WatchAction, Error>,
    now: nat,
    clock: Result<u64, Fault>,
)
    requires
        w.wf(),
        w.over_limit(),
        w.decides(after_it, r, now, clock),
        r is Ok,
    ensures
        after_it.outcome(now) is LimitExceeded,
{
}

/// Without a limit reached, a deadline that passed decides the outcome, whatever fault
/// the watch has and whatever signal is known.
pub proof fn deadline_goes_second(
    w: Watchdog,
    after_it: Watchdog,
    r: Result<WatchAction, Error>,
    now: nat,
    tick: u64,
)
    requires
        w.wf(),
        !w.over_limit(),
        w.expired(tick),
        w.decides(after_it, r, now, Ok(tick)),
        r is Ok,
    ensures
        after_it.outcome(now) is DeadlineExceeded,
{
}

/// An attempt whose time for retirement is set keeps it: neither a fault of the watch
/// nor an end of the command sets it anew.
pub proof fn retirement_time_is_set_once(
    w: Watchdog,
    after_it: Watchdog,
    now: nat,
    clock: Result<u64, Fault>,
)
    requires
        w.cleanup_expiry is Some,
        w.budgeted(after_it, now, clock),
    ensures
        after_it.cleanup_expiry == w.cleanup_expiry,
{
}

} // verus!
