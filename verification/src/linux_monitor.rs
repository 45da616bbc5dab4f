//! Watching a running attempt on a Linux control group: one cycle after the
//! other until something ends it, and the outcome that then follows.

use vstd::prelude::*;
use vstd::string::*;

use crate::evidence::{
    refused_deadline_evidence, refused_evidence, BackendCleanupFacts, ChildTermination,
    DeadlineEvidence, Error, LimitEvidence, OutcomeView, RunOutcome,
};
use crate::linux_cgroup::{first_rise, limit_delta, LimitDelta, MemoryEvents};
use crate::model::{
    CleanupErrorRecord, CleanupSummary, CleanupView, Fault, cleanup_error, cleanup_record, lines_of,
    no_cleanup, render_all, texts,
};
use crate::policy::{AttemptContext, Deadline, Lifetime, Policy};
use crate::text::join2;
use crate::time::{capped_millis, floor_sub, least, Duration};

verus! {

/// How long the members of a control group may take to be gone.
pub const CLEANUP_DEADLINE_SECS: u64 = 5;

/// What kept a cycle from learning what it needed.
#[derive(Debug)]
pub enum MonitorFault {
    ChildWait(Fault),
    MemoryEvents(Fault),
    MemoryCurrent(Fault),
    CgroupEvents(Fault),
}

impl MonitorFault {
    /// What the fault says.
    pub open spec fn says(&self) -> Seq<char> {
        match self {
            MonitorFault::ChildWait(fault) => "direct-child wait failed: "@ + fault.text.chars(),
            MonitorFault::MemoryEvents(fault) => "memory.events read failed: "@
                + fault.text.chars(),
            MonitorFault::MemoryCurrent(fault) => "memory.current read failed: "@
                + fault.text.chars(),
            MonitorFault::CgroupEvents(fault) => "cgroup.events read failed: "@
                + fault.text.chars(),
        }
    }

    /// What the fault says.
    pub fn text(&self) -> (r: String)
        ensures
            r@ == self.says(),
    {
        match self {
            MonitorFault::ChildWait(fault) => {
                let text = fault.text.render();
                join2("direct-child wait failed: ", text.as_str())
            },
            MonitorFault::MemoryEvents(fault) => {
                let text = fault.text.render();
                join2("memory.events read failed: ", text.as_str())
            },
            MonitorFault::MemoryCurrent(fault) => {
                let text = fault.text.render();
                join2("memory.current read failed: ", text.as_str())
            },
            MonitorFault::CgroupEvents(fault) => {
                let text = fault.text.render();
                join2("cgroup.events read failed: ", text.as_str())
            },
        }
    }
}

/// What ended an attempt.
#[derive(Debug)]
pub enum Ending {
    /// The deadline passed; its grace began at `grace_started`.
    Deadline { deadline: Deadline, grace_started: Duration, effective_grace: Duration },
    /// The kernel reported the memory limit.
    Limit { limit: u64, delta: LimitDelta, current: Result<u64, Fault> },
    /// A signal asked for it.
    Interrupted { signal: i32 },
    /// The monitor could not go on.
    Failed { fault: MonitorFault },
    /// The command left, and nothing had to be waited for any longer.
    Exited { child: ChildTermination, workload_empty: bool },
}

/// Where a cycle stands: what it waits to be told.
#[derive(Clone, Copy, Debug, PartialEq, Eq, Structural)]
pub enum MonitorStage {
    /// A cycle is to start.
    Cycle,
    /// `memory.events`.
    Events,
    /// `memory.current`, for the evidence of a limit.
    LimitCurrent,
    /// `memory.current`.
    Current,
    /// Whether a signal came.
    Signal,
    /// `cgroup.events`.
    Populated,
    /// Whether a signal came during the wait.
    Waiting,
    /// Whether a signal came during the grace.
    Grace,
    /// That the workload was given its signal.
    Signalled,
    /// That the workload was cleaned up.
    Cleanup,
    /// Nothing: the outcome can be read.
    Over,
}

/// What the caller does next.
#[derive(Clone, Copy, Debug, PartialEq, Eq, Structural)]
pub enum MonitorAction {
    StartCycle,
    ReadEvents,
    ReadCurrent,
    TakeSignal,
    ReadPopulated,
    /// Wait so long for a signal.
    Wait(Duration),
    /// Send the group the termination signal, then wait so long for a signal.
    TerminateAndWait(Duration),
    /// Take a signal that came, without waiting.
    TakeDuringGrace,
    /// Send the group this signal, then wait so long.
    ForwardAndWait { signal: i32, wait: Duration },
    /// Send the group this signal.
    Forward { signal: i32 },
    /// Kill what is left and reap the child, until the given time.
    Cleanup { force: bool, deadline: Duration },
    Finish,
}

/// A running attempt. Times are spans since the attempt started.
#[derive(Debug)]
pub struct Monitor {
    pub policy: Policy,
    pub context: AttemptContext,
    pub authorized: Duration,
    pub baseline: Option<MemoryEvents>,
    pub stored: Option<ChildTermination>,
    pub peak: u64,
    pub pending_signal: Option<i32>,
    pub exit_grace_started: Option<Duration>,
    pub cycle_fault: Option<Fault>,
    pub ending: Option<Ending>,
    pub stage: MonitorStage,
}

/// What a wait on the direct child told: how it ended, once it did.
pub type Reap = Result<Option<ChildTermination>, Fault>;

/// The larger of two byte counts.
pub open spec fn larger(a: u64, b: u64) -> u64 {
    if a >= b {
        a
    } else {
        b
    }
}

impl Monitor {
    /// How long after its authorization the attempt may run.
    pub open spec fn active_duration(self, deadline: Deadline) -> Duration {
        match self.context.supervision_deadline_remaining {
            Some(remaining) => remaining,
            None => deadline.duration,
        }
    }

    /// A memory limit is watched just when the policy sets one.
    pub open spec fn wf(self) -> bool {
        &&& self.baseline is Some <==> self.policy.memory is Some
        &&& self.ending is Some <==> self.stage is Grace || self.stage is Signalled || self.stage
            is Cleanup || self.stage is Over || self.stage is LimitCurrent
        &&& self.stage is LimitCurrent ==> self.ending is Some && self.ending->0 is Limit
        &&& self.stage is Populated ==> self.stored is Some
        &&& self.stage is Signalled ==> self.ending is Some && self.ending->0 is Interrupted
        &&& self.stage is Grace ==> self.ending is Some && (self.ending->0 is Deadline
            || self.ending->0 is Limit)
    }

    /// Whether the deadline ends the attempt at `now`: it passed, and the kernel
    /// does not report the memory limit.
    pub open spec fn deadline_due(self, due: Option<MemoryEvents>, now: nat) -> bool {
        &&& self.policy.deadline is Some
        &&& floor_sub(now, self.authorized@) >= self.active_duration(self.policy.deadline->0)@
        &&& !(self.baseline is Some && due is Some && first_rise(self.baseline->0, due->0) is Some)
    }

    /// What is stored of the child after a wait on it.
    pub open spec fn stored_after(self, reap: Reap) -> Option<ChildTermination> {
        match self.stored {
            Some(status) => Some(status),
            None => match reap {
                Ok(status) => status,
                Err(_) => None,
            },
        }
    }

    /// The fault of a wait on the child.
    pub open spec fn fault_after(self, reap: Reap) -> Option<Fault> {
        match (self.stored, reap) {
            (None, Err(fault)) => Some(fault),
            _ => None,
        }
    }

    /// The state once an end is known whose cleanup comes next.
    pub open spec fn ending_with(self, ending: Ending) -> Monitor {
        Monitor { ending: Some(ending), stage: MonitorStage::Cleanup, ..self }
    }

    /// Whether `r` asks for a forced cleanup that starts at `now`.
    pub open spec fn asks_cleanup(self, r: MonitorAction, force: bool, now: nat) -> bool {
        r matches MonitorAction::Cleanup { force: f, deadline } && f == force && deadline@
            == self.context.clamped(now, 5_000_000_000)
    }

    /// The cleanup of an attempt, asked for at `now`.
    fn cleanup_action(&self, force: bool, now: Duration) -> (r: MonitorAction)
        ensures
            self.asks_cleanup(r, force, now@),
    {
        let local = Duration::from_secs(CLEANUP_DEADLINE_SECS);
        MonitorAction::Cleanup { force, deadline: self.context.clamp_deadline(now, local) }
    }

    /// Starts a cycle: takes in a wait on the child, which counts only as long as
    /// the child's end is not known, and what `memory.events` says, where it
    /// could be read.
    pub fn cycle(&mut self, reap: Reap, due: Option<MemoryEvents>, now: Duration) -> (r:
        MonitorAction)
        requires
            old(self).wf(),
            old(self).stage == MonitorStage::Cycle,
        ensures
            final(self).wf(),
            old(self).deadline_due(due, now@) ==> {
                &&& final(self).stage == MonitorStage::Grace
                &&& final(self).ending matches Some(
                    Ending::Deadline { deadline, grace_started, effective_grace },
                ) && deadline == old(self).policy.deadline->0 && grace_started == now
                    && effective_grace@ == old(self).context.clamped_grace(
                    old(self).policy.limit_grace@,
                    now@,
                )
                &&& *final(self) == (Monitor {
                    stored: old(self).stored_after(reap),
                    cycle_fault: old(self).fault_after(reap),
                    ending: final(self).ending,
                    stage: MonitorStage::Grace,
                    ..*old(self)
                })
                &&& if old(self).policy.limit_grace@ != 0 {
                    r == MonitorAction::TerminateAndWait(final(self).ending->0->effective_grace)
                } else {
                    r == MonitorAction::TakeDuringGrace
                }
            },
            !old(self).deadline_due(due, now@) ==> {
                let seen = Monitor {
                    stored: old(self).stored_after(reap),
                    cycle_fault: old(self).fault_after(reap),
                    ..*old(self)
                };
                if old(self).baseline is Some {
                    r == MonitorAction::ReadEvents && *final(self) == (Monitor {
                        stage: MonitorStage::Events,
                        ..seen
                    })
                } else {
                    seen.past_events(*final(self), r, now@)
                }
            },
    {
        if self.stored.is_none() {
            match reap {
                Ok(status) => {
                    self.stored = status;
                    self.cycle_fault = None;
                },
                Err(fault) => {
                    self.cycle_fault = Some(fault);
                },
            }
        } else {
            self.cycle_fault = None;
        }
        let memory_due = match (self.baseline, due) {
            (Some(baseline), Some(events)) => limit_delta(baseline, events).is_some(),
            _ => false,
        };
        if let Some(deadline) = self.policy.deadline {
            let active = match self.context.supervision_deadline_remaining {
                Some(remaining) => remaining,
                None => deadline.duration,
            };
            let elapsed = now.saturating_sub(self.authorized);
            if !elapsed.is_less_than(active) && !memory_due {
                let effective_grace = self.context.clamp_grace(self.policy.limit_grace, now);
                self.ending = Some(
                    Ending::Deadline { deadline, grace_started: now, effective_grace },
                );
                self.stage = MonitorStage::Grace;
                return if self.policy.limit_grace.is_zero() {
                    MonitorAction::TakeDuringGrace
                } else {
                    MonitorAction::TerminateAndWait(effective_grace)
                };
            }
        }
        if self.baseline.is_some() {
            self.stage = MonitorStage::Events;
            return MonitorAction::ReadEvents;
        }
        self.go_past_events(now)
    }

    /// What follows once no limit was reported: a child that could not be waited
    /// for ends the attempt; else the usage is read where memory is limited, and
    /// then a signal is looked for.
    pub open spec fn past_events(self, after: Monitor, r: MonitorAction, now: nat) -> bool {
        match self.cycle_fault {
            Some(fault) => after == (Monitor {
                cycle_fault: None,
                ..self.ending_with(Ending::Failed { fault: MonitorFault::ChildWait(fault) })
            }) && self.asks_cleanup(r, true, now),
            None => if self.policy.memory is Some {
                after == (Monitor { stage: MonitorStage::Current, ..self }) && r
                    == MonitorAction::ReadCurrent
            } else {
                after == (Monitor { stage: MonitorStage::Signal, ..self }) && r
                    == MonitorAction::TakeSignal
            },
        }
    }

    fn go_past_events(&mut self, now: Duration) -> (r: MonitorAction)
        requires
            old(self).ending is None,
            old(self).baseline is Some <==> old(self).policy.memory is Some,
        ensures
            old(self).past_events(*final(self), r, now@),
            final(self).wf(),
    {
        match self.cycle_fault.take() {
            Some(fault) => {
                self.ending = Some(Ending::Failed { fault: MonitorFault::ChildWait(fault) });
                self.stage = MonitorStage::Cleanup;
                self.cleanup_action(true, now)
            },
            None => {
                if self.policy.memory.is_some() {
                    self.stage = MonitorStage::Current;
                    MonitorAction::ReadCurrent
                } else {
                    self.stage = MonitorStage::Signal;
                    MonitorAction::TakeSignal
                }
            },
        }
    }

    /// Takes in `memory.events`. That it cannot be read ends the attempt; a
    /// counter that rose is the memory limit, whatever else this cycle saw.
    pub fn events(&mut self, events: Result<MemoryEvents, Fault>, now: Duration) -> (r:
        MonitorAction)
        requires
            old(self).wf(),
            old(self).stage == MonitorStage::Events,
            old(self).baseline is Some,
        ensures
            final(self).wf(),
            match events {
                Err(fault) => *final(self) == old(self).ending_with(
                    Ending::Failed { fault: MonitorFault::MemoryEvents(fault) },
                ) && old(self).asks_cleanup(r, true, now@),
                Ok(seen) => match first_rise(old(self).baseline->0, seen) {
                    Some(delta) => r == MonitorAction::ReadCurrent && *final(self) == (Monitor {
                        stage: MonitorStage::LimitCurrent,
                        ending: Some(
                            Ending::Limit {
                                limit: old(self).policy.memory->0,
                                delta,
                                current: Ok(0),
                            },
                        ),
                        ..*old(self)
                    }),
                    None => old(self).past_events(*final(self), r, now@),
                },
            },
    {
        let seen = match events {
            Ok(seen) => seen,
            Err(fault) => {
                self.ending = Some(Ending::Failed { fault: MonitorFault::MemoryEvents(fault) });
                self.stage = MonitorStage::Cleanup;
                return self.cleanup_action(true, now);
            },
        };
        if let (Some(baseline), Some(limit)) = (self.baseline, self.policy.memory) {
            if let Some(delta) = limit_delta(baseline, seen) {
                self.ending = Some(Ending::Limit { limit, delta, current: Ok(0) });
                self.stage = MonitorStage::LimitCurrent;
                return MonitorAction::ReadCurrent;
            }
        }
        self.go_past_events(now)
    }

    /// Takes in the usage that belongs to a reported limit, or why it could not
    /// be read, and starts the limit's grace.
    pub fn limit_current(&mut self, current: Result<u64, Fault>, now: Duration) -> (r:
        MonitorAction)
        requires
            old(self).wf(),
            old(self).stage == MonitorStage::LimitCurrent,
        ensures
            final(self).wf(),
            *final(self) == (Monitor {
                peak: match current {
                    Ok(usage) => larger(old(self).peak, usage),
                    Err(_) => old(self).peak,
                },
                ending: Some(
                    Ending::Limit {
                        limit: old(self).ending->0->limit,
                        delta: old(self).ending->0->delta,
                        current,
                    },
                ),
                stage: MonitorStage::Grace,
                ..*old(self)
            }),
            if old(self).policy.limit_grace@ != 0 {
                r matches MonitorAction::TerminateAndWait(wait) && wait@ == old(
                    self,
                ).context.clamped_grace(old(self).policy.limit_grace@, now@)
            } else {
                r == MonitorAction::TakeDuringGrace
            },
    {
        if let Ok(usage) = &current {
            if *usage > self.peak {
                self.peak = *usage;
            }
        }
        if let Some(Ending::Limit { limit, delta, current: _ }) = self.ending.take() {
            self.ending = Some(Ending::Limit { limit, delta, current });
        }
        self.stage = MonitorStage::Grace;
        if self.policy.limit_grace.is_zero() {
            MonitorAction::TakeDuringGrace
        } else {
            MonitorAction::TerminateAndWait(
                self.context.clamp_grace(self.policy.limit_grace, now),
            )
        }
    }

    /// Takes in the signal that came during a grace: it takes the place of what
    /// had ended the attempt.
    pub fn graced(&mut self, interrupted: Option<i32>, now: Duration) -> (r: MonitorAction)
        requires
            old(self).wf(),
            old(self).stage == MonitorStage::Grace,
        ensures
            final(self).wf(),
            match interrupted {
                Some(signal) => r == (MonitorAction::Forward { signal }) && *final(self) == (
                Monitor {
                    ending: Some(Ending::Interrupted { signal }),
                    stage: MonitorStage::Signalled,
                    ..*old(self)
                }),
                None => old(self).asks_cleanup(r, true, now@) && *final(self) == (Monitor {
                    stage: MonitorStage::Cleanup,
                    ..*old(self)
                }),
            },
    {
        match interrupted {
            Some(signal) => {
                self.ending = Some(Ending::Interrupted { signal });
                self.stage = MonitorStage::Signalled;
                MonitorAction::Forward { signal }
            },
            None => {
                self.stage = MonitorStage::Cleanup;
                self.cleanup_action(true, now)
            },
        }
    }

    /// Goes on to the cleanup once the workload was given its signal.
    pub fn signalled(&mut self, now: Duration) -> (r: MonitorAction)
        requires
            old(self).wf(),
            old(self).stage == MonitorStage::Signalled,
        ensures
            final(self).wf(),
            *final(self) == (Monitor { stage: MonitorStage::Cleanup, ..*old(self) }),
            old(self).asks_cleanup(r, true, now@),
    {
        self.stage = MonitorStage::Cleanup;
        self.cleanup_action(true, now)
    }

    /// Takes in the usage of this cycle; that it cannot be read ends the attempt.
    pub fn current(&mut self, current: Result<u64, Fault>, now: Duration) -> (r: MonitorAction)
        requires
            old(self).wf(),
            old(self).stage == MonitorStage::Current,
        ensures
            final(self).wf(),
            match current {
                Err(fault) => *final(self) == old(self).ending_with(
                    Ending::Failed { fault: MonitorFault::MemoryCurrent(fault) },
                ) && old(self).asks_cleanup(r, true, now@),
                Ok(usage) => r == MonitorAction::TakeSignal && *final(self) == (Monitor {
                    peak: larger(old(self).peak, usage),
                    stage: MonitorStage::Signal,
                    ..*old(self)
                }),
            },
    {
        match current {
            Err(fault) => {
                self.ending = Some(Ending::Failed { fault: MonitorFault::MemoryCurrent(fault) });
                self.stage = MonitorStage::Cleanup;
                self.cleanup_action(true, now)
            },
            Ok(usage) => {
                if usage > self.peak {
                    self.peak = usage;
                }
                self.stage = MonitorStage::Signal;
                MonitorAction::TakeSignal
            },
        }
    }

    /// How long to wait for a signal before the next cycle.
    pub open spec fn cycle_wait(self, now: nat) -> nat {
        match self.exit_grace_started {
            Some(started) => least(
                self.policy.poll_interval@,
                floor_sub(self.policy.command_exit_grace@, floor_sub(now, started@)),
            ),
            None => self.policy.poll_interval@,
        }
    }

    fn wait_action(&self, now: Duration) -> (r: MonitorAction)
        ensures
            r matches MonitorAction::Wait(wait) && wait@ == self.cycle_wait(now@),
    {
        let wait = match self.exit_grace_started {
            Some(started) => {
                let used = now.saturating_sub(started);
                self.policy.poll_interval.min(self.policy.command_exit_grace.saturating_sub(used))
            },
            None => self.policy.poll_interval,
        };
        MonitorAction::Wait(wait)
    }

    /// Takes in a signal that came since the wait ended; one that came during the
    /// wait goes first. A signal ends the attempt; else a child that left is
    /// looked into, and else the next cycle is waited for.
    pub fn signal(&mut self, taken: Option<i32>, now: Duration) -> (r: MonitorAction)
        requires
            old(self).wf(),
            old(self).stage == MonitorStage::Signal,
        ensures
            final(self).wf(),
            ({
                let signal = match old(self).pending_signal {
                    Some(signal) => Some(signal),
                    None => taken,
                };
                let quiet = Monitor { pending_signal: None, ..*old(self) };
                match signal {
                    Some(signal) => {
                        &&& *final(self) == (Monitor {
                            ending: Some(Ending::Interrupted { signal }),
                            stage: MonitorStage::Signalled,
                            ..quiet
                        })
                        &&& if old(self).policy.signal_grace@ != 0 {
                            r matches MonitorAction::ForwardAndWait { signal: s, wait } && s
                                == signal && wait@ == old(self).context.clamped_grace(
                                old(self).policy.signal_grace@,
                                now@,
                            )
                        } else {
                            r == (MonitorAction::Forward { signal })
                        }
                    },
                    None => if old(self).stored is Some {
                        r == MonitorAction::ReadPopulated && *final(self) == (Monitor {
                            stage: MonitorStage::Populated,
                            ..quiet
                        })
                    } else {
                        *final(self) == (Monitor { stage: MonitorStage::Waiting, ..quiet }) && (
                        r matches MonitorAction::Wait(wait) && wait@ == old(self).cycle_wait(now@))
                    },
                }
            }),
    {
        let signal = match self.pending_signal {
            Some(signal) => Some(signal),
            None => taken,
        };
        self.pending_signal = None;
        if let Some(signal) = signal {
            self.ending = Some(Ending::Interrupted { signal });
            self.stage = MonitorStage::Signalled;
            return if self.policy.signal_grace.is_zero() {
                MonitorAction::Forward { signal }
            } else {
                let wait = self.context.clamp_grace(self.policy.signal_grace, now);
                MonitorAction::ForwardAndWait { signal, wait }
            };
        }
        if self.stored.is_some() {
            self.stage = MonitorStage::Populated;
            return MonitorAction::ReadPopulated;
        }
        self.stage = MonitorStage::Waiting;
        self.wait_action(now)
    }

    /// When the grace after the command's exit began, once it has.
    pub open spec fn exit_grace_at(self, now: Duration) -> Duration {
        match self.exit_grace_started {
            Some(started) => started,
            None => now,
        }
    }

    /// Whether a command that left takes the attempt's end with it: at once where
    /// its workload is empty or has no grace, never before that where the
    /// workload is what counts, and else once the grace is over.
    pub open spec fn completed(self, workload_empty: bool, now: Duration) -> bool {
        if self.policy.lifetime == Lifetime::Workload || workload_empty {
            workload_empty
        } else if self.policy.command_exit_grace@ == 0 {
            true
        } else {
            floor_sub(now@, self.exit_grace_at(now)@) >= self.policy.command_exit_grace@
        }
    }

    /// Whether the grace after the command's exit applies.
    pub open spec fn grace_applies(self, workload_empty: bool) -> bool {
        self.policy.lifetime == Lifetime::Command && !workload_empty
            && self.policy.command_exit_grace@ != 0
    }

    /// Takes in, after the command left, whether the control group still has
    /// members.
    pub fn populated(&mut self, populated: Result<bool, Fault>, now: Duration) -> (r: MonitorAction)
        requires
            old(self).wf(),
            old(self).stage == MonitorStage::Populated,
        ensures
            final(self).wf(),
            match populated {
                Err(fault) => *final(self) == old(self).ending_with(
                    Ending::Failed { fault: MonitorFault::CgroupEvents(fault) },
                ) && old(self).asks_cleanup(r, true, now@),
                Ok(members) => {
                    let graced = Monitor {
                        exit_grace_started: if old(self).grace_applies(!members) {
                            Some(old(self).exit_grace_at(now))
                        } else {
                            old(self).exit_grace_started
                        },
                        ..*old(self)
                    };
                    if old(self).completed(!members, now) {
                        let ended = graced.ending_with(
                            Ending::Exited { child: old(self).stored->0, workload_empty: !members },
                        );
                        if members {
                            *final(self) == ended && old(self).asks_cleanup(r, false, now@)
                        } else {
                            *final(self) == (Monitor { stage: MonitorStage::Over, ..ended }) && r
                                == MonitorAction::Finish
                        }
                    } else {
                        *final(self) == (Monitor { stage: MonitorStage::Waiting, ..graced }) && (
                        r matches MonitorAction::Wait(wait) && wait@ == graced.cycle_wait(now@))
                    }
                },
            },
    {
        let members = match populated {
            Ok(members) => members,
            Err(fault) => {
                self.ending = Some(Ending::Failed { fault: MonitorFault::CgroupEvents(fault) });
                self.stage = MonitorStage::Cleanup;
                return self.cleanup_action(true, now);
            },
        };
        let workload_empty = !members;
        let completed = if self.policy.lifetime == Lifetime::Workload || workload_empty {
            workload_empty
        } else if self.policy.command_exit_grace.is_zero() {
            true
        } else {
            let started = match self.exit_grace_started {
                Some(started) => started,
                None => now,
            };
            self.exit_grace_started = Some(started);
            !now.saturating_sub(started).is_less_than(self.policy.command_exit_grace)
        };
        if completed {
            if let Some(child) = self.stored {
                self.ending = Some(Ending::Exited { child, workload_empty });
            }
            if workload_empty {
                self.stage = MonitorStage::Over;
                return MonitorAction::Finish;
            }
            self.stage = MonitorStage::Cleanup;
            return self.cleanup_action(false, now);
        }
        self.stage = MonitorStage::Waiting;
        self.wait_action(now)
    }

    /// Takes in the signal that came during the wait and starts the next cycle.
    pub fn waited(&mut self, signal: Option<i32>) -> (r: MonitorAction)
        requires
            old(self).wf(),
            old(self).stage == MonitorStage::Waiting,
        ensures
            final(self).wf(),
            *final(self) == (Monitor {
                pending_signal: signal,
                stage: MonitorStage::Cycle,
                ..*old(self)
            }),
            r == MonitorAction::StartCycle,
    {
        self.pending_signal = signal;
        self.stage = MonitorStage::Cycle;
        MonitorAction::StartCycle
    }
}

/// A reported memory limit goes before everything else a cycle can see: the
/// deadline does not end the attempt, and neither does a child that the kernel
/// killed for it.
pub proof fn memory_limit_goes_first(m: Monitor, seen: MemoryEvents, now: nat)
    requires
        m.wf(),
        m.baseline is Some,
        first_rise(m.baseline->0, seen) is Some,
    ensures
        !m.deadline_due(Some(seen), now),
{
}

/// Without a reported limit a deadline that passed ends the attempt.
pub proof fn passed_deadline_ends(m: Monitor, due: Option<MemoryEvents>, now: nat)
    requires
        m.policy.deadline is Some,
        now >= m.authorized@ + m.active_duration(m.policy.deadline->0)@,
        m.baseline is None || due is None || first_rise(m.baseline->0, due->0) is None,
    ensures
        m.deadline_due(due, now),
{
}

/// The peak that is reported: the kernel's, where it can be read, but never
/// less than what was seen.
pub open spec fn reported_peak(kernel: Option<u64>, seen: u64) -> u64 {
    match kernel {
        Some(peak) => larger(peak, seen),
        None => seen,
    }
}

fn peak_of(kernel: Option<u64>, seen: u64) -> (r: u64)
    ensures
        r == reported_peak(kernel, seen),
{
    match kernel {
        Some(peak) => if peak >= seen {
            peak
        } else {
            seen
        },
        None => seen,
    }
}

impl Monitor {
    /// The evidence of a deadline that passed, read off at `now`.
    pub open spec fn deadline_evidence(
        self,
        deadline: Deadline,
        grace_started: Duration,
        effective_grace: Duration,
        now: nat,
    ) -> DeadlineEvidence {
        DeadlineEvidence {
            duration_ms: capped_millis(deadline.duration@),
            scope: deadline.scope,
            origin: "installed-cli-release-byte",
            expires_ms: capped_millis(
                self.context.supervision_offset@ + self.active_duration(deadline)@,
            ),
            observed_ms: capped_millis(
                self.context.supervision_offset@ + floor_sub(now, self.authorized@),
            ),
            grace_ms: capped_millis(self.policy.limit_grace@),
            grace_used_ms: capped_millis(
                least(floor_sub(now, grace_started@), effective_grace@),
            ),
            graceful_action: if self.policy.limit_grace@ == 0 {
                None
            } else {
                Some("sigterm-process-group")
            },
            forced_action: Some("cgroup-kill"),
        }
    }

    /// The words of a reported limit.
    pub open spec fn limit_words(delta: LimitDelta, current: Result<u64, Fault>) -> Seq<char> {
        match current {
            Ok(_) => delta.says(),
            Err(fault) => delta.says() + "; memory.current unavailable after confirmed limit: "@
                + fault.text.chars(),
        }
    }

    /// The outcome of an attempt that is over.
    pub open spec fn outcome(self, kernel_peak: Option<u64>, now: nat) -> OutcomeView {
        match self.ending->0 {
            Ending::Deadline { deadline, grace_started, effective_grace } =>
                OutcomeView::DeadlineExceeded {
                deadline: self.deadline_evidence(deadline, grace_started, effective_grace, now),
                child_after_termination: self.stored,
                peak: if self.policy.memory is Some {
                    Some(self.peak)
                } else {
                    None
                },
            },
            Ending::Limit { limit, delta, current } => OutcomeView::LimitExceeded {
                limit,
                observed: match current {
                    Ok(usage) => Some(usage),
                    Err(_) => None,
                },
                peak: Some(reported_peak(kernel_peak, self.peak)),
                backend: "linux-cgroup-v2"@,
                metric: "linux-cgroup-memory"@,
                detail: Self::limit_words(delta, current),
                child_after_termination: self.stored,
            },
            Ending::Interrupted { signal } => OutcomeView::Interrupted {
                signal,
                child_after_termination: self.stored,
            },
            Ending::Failed { fault } => OutcomeView::MonitorFailed {
                error: fault.says(),
                child_after_termination: self.stored,
            },
            Ending::Exited { child, workload_empty } => OutcomeView::Exited {
                child,
                peak: if self.policy.memory is Some {
                    Some(reported_peak(kernel_peak, self.peak))
                } else {
                    None
                },
            },
        }
    }

    /// Takes in the cleanup and what it learned of the child's end.
    pub fn cleaned(&mut self, stored: Option<ChildTermination>) -> (r: MonitorAction)
        requires
            old(self).wf(),
            old(self).stage == MonitorStage::Cleanup,
        ensures
            final(self).wf(),
            *final(self) == (Monitor { stored, stage: MonitorStage::Over, ..*old(self) }),
            r == MonitorAction::Finish,
    {
        self.stored = stored;
        self.stage = MonitorStage::Over;
        MonitorAction::Finish
    }

    /// The evidence of the deadline that ended the attempt, where one did.
    pub open spec fn evidence_at(self, now: nat) -> Option<DeadlineEvidence> {
        match self.ending {
            Some(Ending::Deadline { deadline, grace_started, effective_grace }) => Some(
                self.deadline_evidence(deadline, grace_started, effective_grace, now),
            ),
            _ => None,
        }
    }

    /// The evidence of the deadline that ended the attempt, where one did, read off at
    /// `now`.
    pub fn expired_evidence(&self, now: Duration) -> (r: Option<DeadlineEvidence>)
        ensures
            r == self.evidence_at(now@),
    {
        match &self.ending {
            Some(Ending::Deadline { deadline, grace_started, effective_grace }) => {
                let active = match self.context.supervision_deadline_remaining {
                    Some(remaining) => remaining,
                    None => deadline.duration,
                };
                let offset = self.context.supervision_offset;
                let observed = now.saturating_sub(self.authorized);
                let grace_used = now.saturating_sub(*grace_started).min(*effective_grace);
                Some(
                    DeadlineEvidence {
                        duration_ms: deadline.duration.millis(),
                        scope: deadline.scope,
                        origin: "installed-cli-release-byte",
                        expires_ms: offset.sum_millis(active),
                        observed_ms: offset.sum_millis(observed),
                        grace_ms: self.policy.limit_grace.millis(),
                        grace_used_ms: grace_used.millis(),
                        graceful_action: if self.policy.limit_grace.is_zero() {
                            None
                        } else {
                            Some("sigterm-process-group")
                        },
                        forced_action: Some("cgroup-kill"),
                    },
                )
            },
            _ => None,
        }
    }

    /// The outcome of an attempt that is over, with what it gave back. `accepted` is
    /// whether the evidence of a deadline that ended it was accepted; where it was not,
    /// there is no outcome.
    pub fn conclude(
        self,
        cleanup: CleanupSummary,
        kernel_peak: Option<u64>,
        now: Duration,
        accepted: bool,
    ) -> (r: Result<RunOutcome, Error>)
        requires
            self.wf(),
            self.stage == MonitorStage::Over,
        ensures
            match r {
                Ok(outcome) => {
                    &&& self.evidence_at(now@) is None || accepted
                    &&& outcome@ == self.outcome(kernel_peak, now@)
                    &&& outcome.cleaned() == cleanup@
                },
                Err(error) => self.evidence_at(now@) is Some && !accepted && error@
                    == refused_evidence(),
            },
    {
        let evidence = self.expired_evidence(now);
        if evidence.is_some() && !accepted {
            return Err(refused_deadline_evidence());
        }
        let limited = self.policy.memory.is_some();
        let child_after_termination = self.stored;
        let outcome = match self.ending.unwrap() {
            Ending::Deadline { .. } => RunOutcome::DeadlineExceeded {
                deadline: evidence.unwrap(),
                child_after_termination,
                peak: if limited {
                    Some(self.peak)
                } else {
                    None
                },
                cleanup,
            },
            Ending::Limit { limit, delta, current } => {
                let mut detail = delta.detail();
                let observed = match current {
                    Ok(usage) => Some(usage),
                    Err(fault) => {
                        detail.append("; memory.current unavailable after confirmed limit: ");
                        let text = fault.text.render();
                        detail.append(text.as_str());
                        None
                    },
                };
                RunOutcome::LimitExceeded {
                    limit,
                    observed,
                    peak: Some(peak_of(kernel_peak, self.peak)),
                    evidence: LimitEvidence {
                        backend: "linux-cgroup-v2".to_owned(),
                        metric: "linux-cgroup-memory".to_owned(),
                        detail,
                    },
                    child_after_termination,
                    cleanup,
                }
            },
            Ending::Interrupted { signal } => RunOutcome::Interrupted {
                signal,
                child_after_termination,
                cleanup,
            },
            Ending::Failed { fault } => RunOutcome::MonitorFailed {
                error: fault.text(),
                child_after_termination,
                cleanup,
            },
            Ending::Exited { child, workload_empty } => RunOutcome::Exited {
                child,
                peak: if limited {
                    Some(peak_of(kernel_peak, self.peak))
                } else {
                    None
                },
                cleanup,
            },
        };
        Ok(outcome)
    }
}

/// The cleanup of an attempt whose workload left by itself.
pub fn left_by_itself() -> (r: CleanupSummary)
    ensures
        r@ == (CleanupView {
            direct_child_reaped: true,
            workload_empty: Some(true),
            ..no_cleanup()
        }),
{
    CleanupSummary {
        graceful_attempted: false,
        force_attempted: false,
        direct_child_reaped: true,
        workload_empty: Some(true),
        errors: Vec::new(),
    }
}

/// The findings of giving the guardian and the control group back.
pub open spec fn closing_errors(disarm: Result<(), Fault>, removal: Result<(), Fault>) -> Seq<
    CleanupErrorRecord,
> {
    (match disarm {
        Err(fault) => seq![cleanup_record("guardian-disarm", fault)],
        Ok(_) => Seq::empty(),
    }) + (match removal {
        Err(fault) => seq![cleanup_record("remove-cgroup", fault)],
        Ok(_) => Seq::empty(),
    })
}

/// Closes an outcome: adds what went wrong with the guardian and the control
/// group, and reads off what was given back.
pub fn close_outcome(
    outcome: &mut RunOutcome,
    disarm: Result<(), Fault>,
    removal: Result<(), Fault>,
) -> (r: BackendCleanupFacts)
    ensures
        final(outcome)@ == old(outcome)@,
        final(outcome).cleaned() == (CleanupView {
            errors: old(outcome).cleaned().errors + closing_errors(disarm, removal),
            ..old(outcome).cleaned()
        }),
        r.direct_child_reaped == old(outcome).cleaned().direct_child_reaped,
        r.workload_empty == old(outcome).cleaned().workload_empty,
        r.helpers_reaped == disarm is Ok,
        r.containment_removed == removal is Ok,
        r.containment_incapable_of_live_members == (old(outcome).cleaned().workload_empty == Some(
            true,
        )),
        texts(r.errors@) == lines_of(final(outcome).cleaned().errors),
{
    let ghost before = outcome.cleaned().errors;
    let mut helpers_reaped = true;
    if let Err(fault) = disarm {
        helpers_reaped = false;
        outcome.add_error(cleanup_error("guardian-disarm", fault));
    }
    let mut containment_removed = true;
    if let Err(fault) = removal {
        containment_removed = false;
        outcome.add_error(cleanup_error("remove-cgroup", fault));
    }
    assert(outcome.cleaned().errors =~= before + closing_errors(disarm, removal));
    let cleanup = outcome.cleanup();
    let inert = match cleanup.workload_empty {
        Some(empty) => empty,
        None => false,
    };
    BackendCleanupFacts {
        direct_child_reaped: cleanup.direct_child_reaped,
        workload_empty: cleanup.workload_empty,
        helpers_reaped,
        containment_removed,
        containment_incapable_of_live_members: inert,
        errors: render_all(&cleanup.errors),
    }
}

/// A signal that comes during a grace decides the outcome, whatever had ended
/// the attempt before.
pub proof fn interruption_wins_a_grace(
    m: Monitor,
    signal: i32,
    kernel_peak: Option<u64>,
    now: nat,
)
    ensures
        (Monitor { ending: Some(Ending::Interrupted { signal }), ..m }).outcome(
            kernel_peak,
            now,
        ) == (OutcomeView::Interrupted { signal, child_after_termination: m.stored }),
{
}

} // verus!
