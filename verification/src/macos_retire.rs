//! Retiring a workload on macOS within its time, and looking at processes by way of
//! workers that outlive the wait for them.

use vstd::prelude::*;
use vstd::string::*;

use crate::evidence::ChildTermination;
use crate::model::{no_cleanup, CleanupErrorRecord, CleanupSummary, CleanupView, Fault, Text, SIGKILL};
use crate::time::{floor_sub, least, Duration};

verus! {

/// What an inventory told of the members of a workload that is retired.
#[derive(Clone, Copy, Debug, PartialEq, Eq, Structural)]
pub struct Members {
    pub empty: bool,
    /// Nobody is a member but the command itself.
    pub only_root: bool,
}

/// What a retirement waits to be told.
#[derive(Clone, Copy, Debug, PartialEq, Eq, Structural)]
pub enum RetireStage {
    /// What the command left.
    Discovery,
    /// That the guardian was asked to stop the workload.
    Stop,
    /// The time, to see whether there is any left.
    Next,
    /// The members.
    Inventory,
    /// The time, to see whether the child may still be waited for.
    Child,
    /// How the child ended.
    Observe,
    /// Nothing: the summary can be read.
    Over,
}

/// What the caller does next.
#[derive(Clone, Copy, Debug, PartialEq, Eq, Structural)]
pub enum RetireAction {
    /// Look for the answer to an inventory that was asked for before.
    Poll(u64),
    /// Ask for an inventory and wait for it until the given time.
    Ask { deadline: Duration },
    /// Wait so long, then look for the answer again.
    PausePoll(Duration),
    /// Ask the guardian to stop the workload; an inventory that is awaited is given up.
    Stop { signal: i32, grace: Duration, deadline: Duration, abandon: Option<u64> },
    /// Read the time.
    Look,
    /// Wait so long, then read the time.
    Pause(Duration),
    /// Wait on the child until the given time, without blocking beyond it.
    Observe { deadline: Duration },
    Finish,
}

/// A retirement.
#[derive(Debug)]
pub struct Retirement {
    pub signal: i32,
    pub grace: Duration,
    pub deadline: Duration,
    pub look_deadline: Duration,
    pub started: Duration,
    pub query: Option<u64>,
    pub stored: Option<ChildTermination>,
    pub empty: bool,
    pub graceful: bool,
    pub forced: bool,
    /// Anybody is, or was, to be stopped.
    pub stops: bool,
    pub errors: Vec<CleanupErrorRecord>,
    pub exit_error: Option<Text>,
    pub stage: RetireStage,
}

/// What became of an inventory.
pub type Listed = Result<Option<Members>, String>;

/// What polling for an answer comes to.
#[derive(Debug)]
pub enum Answer {
    Got(Members),
    Failed(Text),
    Later(Duration),
}

/// What polling for an answer comes to at `now`. One that never comes is given up at
/// the deadline; it stays asked for.
pub open spec fn answered(listed: Listed, now: nat, deadline: nat, answer: Answer) -> bool {
    match listed {
        Ok(Some(members)) => answer == Answer::Got(members),
        Ok(None) => if now < deadline {
            answer matches Answer::Later(pause) && pause@ == least(
                10_000_000,
                floor_sub(deadline, now),
            )
        } else {
            answer == Answer::Failed(
                Text::Fixed("retirement deadline expired with an admitted inventory query pending"),
            )
        },
        Err(text) => answer == Answer::Failed(Text::Given(text)),
    }
}

fn answer_to(listed: Listed, now: Duration, deadline: Duration) -> (r: Answer)
    ensures
        answered(listed, now@, deadline@, r),
{
    match listed {
        Ok(Some(members)) => Answer::Got(members),
        Ok(None) => if now.is_less_than(deadline) {
            Answer::Later(Duration::from_millis(10).min(deadline.saturating_sub(now)))
        } else {
            Answer::Failed(
                Text::Fixed("retirement deadline expired with an admitted inventory query pending"),
            )
        },
        Err(text) => Answer::Failed(Text::Given(text)),
    }
}

/// Whether an inventory is still asked for after an answer.
pub open spec fn still_asked(query: Option<u64>, listed: Listed) -> Option<u64> {
    match listed {
        Ok(None) => query,
        _ => None,
    }
}

impl Retirement {
    /// What always holds of a retirement.
    pub open spec fn wf(self) -> bool {
        &&& self.graceful == (self.signal != SIGKILL)
        &&& self.signal == SIGKILL ==> self.forced
        &&& self.empty ==> self.stage is Child || self.stage is Observe || self.stage is Over
    }

    /// A retirement that is asked to begin by stopping the workload.
    pub open spec fn stopping(self) -> RetireAction {
        RetireAction::Stop {
            signal: self.signal,
            grace: self.grace,
            deadline: self.deadline,
            abandon: self.query,
        }
    }

    /// Begins to retire a workload that is to be stopped with `signal`.
    pub fn begin(
        signal: i32,
        grace: Duration,
        deadline: Duration,
        query: Option<u64>,
        stored: Option<ChildTermination>,
        now: Duration,
    ) -> (r: (Retirement, RetireAction))
        ensures
            r.0.wf(),
            r.1 == r.0.stopping(),
            r.0.errors@.len() == 0,
            r.0 == (Retirement {
                signal,
                grace,
                deadline,
                look_deadline: deadline,
                started: now,
                query,
                stored,
                empty: false,
                graceful: signal != SIGKILL,
                forced: signal == SIGKILL,
                stops: true,
                errors: r.0.errors,
                exit_error: None,
                stage: RetireStage::Stop,
            }),
    {
        let retirement = Retirement {
            signal,
            grace,
            deadline,
            look_deadline: deadline,
            started: now,
            query,
            stored,
            empty: false,
            graceful: signal != SIGKILL,
            forced: signal == SIGKILL,
            stops: true,
            errors: Vec::new(),
            exit_error: None,
            stage: RetireStage::Stop,
        };
        let action = RetireAction::Stop { signal, grace, deadline, abandon: query };
        (retirement, action)
    }

    /// What is asked for to learn of the members.
    pub open spec fn asking(self, deadline: Duration) -> RetireAction {
        match self.query {
            Some(query) => RetireAction::Poll(query),
            None => RetireAction::Ask { deadline },
        }
    }

    fn ask(&self, deadline: Duration) -> (r: RetireAction)
        ensures
            r == self.asking(deadline),
    {
        match self.query {
            Some(query) => RetireAction::Poll(query),
            None => RetireAction::Ask { deadline },
        }
    }

    /// Begins to retire what a command left: what that is, is looked for first, within
    /// three seconds.
    pub fn after_exit(
        deadline: Duration,
        query: Option<u64>,
        stored: Option<ChildTermination>,
        now: Duration,
    ) -> (r: (Retirement, RetireAction))
        ensures
            r.0.wf(),
            r.0.look_deadline@ == least(deadline@, now@ + 3_000_000_000),
            r.1 == r.0.asking(r.0.look_deadline),
            r.0.errors@.len() == 0,
            r.0.grace@ == 0,
            r.0 == (Retirement {
                signal: SIGKILL,
                grace: r.0.grace,
                deadline,
                look_deadline: r.0.look_deadline,
                started: now,
                query,
                stored,
                empty: false,
                graceful: false,
                forced: true,
                stops: false,
                errors: r.0.errors,
                exit_error: None,
                stage: RetireStage::Discovery,
            }),
    {
        let look_deadline = deadline.min_sum(now, Duration::from_secs(3));
        let retirement = Retirement {
            signal: SIGKILL,
            grace: Duration::zero(),
            deadline,
            look_deadline,
            started: now,
            query,
            stored,
            empty: false,
            graceful: false,
            forced: true,
            stops: false,
            errors: Vec::new(),
            exit_error: None,
            stage: RetireStage::Discovery,
        };
        let action = retirement.ask(look_deadline);
        (retirement, action)
    }

    /// Takes in what a command left. Where nobody is left but the command itself,
    /// nothing has to be retired; else, and where that could not be learned, everything
    /// is stopped at once.
    pub fn discovered(&mut self, listed: Listed, now: Duration) -> (r: RetireAction)
        requires
            old(self).wf(),
            old(self).stage == RetireStage::Discovery,
        ensures
            final(self).wf(),
            exists|answer: Answer| #[trigger]
                answered(listed, now@, old(self).look_deadline@, answer) && match answer {
                    Answer::Later(pause) => r == RetireAction::PausePoll(pause) && *final(self)
                        == *old(self),
                    Answer::Got(members) => if members.only_root {
                        r == RetireAction::Finish && *final(self) == (Retirement {
                            query: None,
                            empty: true,
                            stage: RetireStage::Over,
                            ..*old(self)
                        })
                    } else {
                        r == final(self).stopping() && *final(self) == (Retirement {
                            query: None,
                            started: now,
                            stops: true,
                            stage: RetireStage::Stop,
                            ..*old(self)
                        })
                    },
                    Answer::Failed(text) => r == final(self).stopping() && *final(self) == (
                    Retirement {
                        query: still_asked(old(self).query, listed),
                        started: now,
                        stops: true,
                        exit_error: Some(text),
                        stage: RetireStage::Stop,
                        ..*old(self)
                    }),
                },
    {
        let pending = match &listed {
            Ok(None) => true,
            _ => false,
        };
        let answer = answer_to(listed, now, self.look_deadline);
        let ghost seen = answer;
        let r = match answer {
            Answer::Later(pause) => RetireAction::PausePoll(pause),
            Answer::Got(members) => {
                self.query = None;
                if members.only_root {
                    self.empty = true;
                    self.stage = RetireStage::Over;
                    RetireAction::Finish
                } else {
                    self.started = now;
                    self.stops = true;
                    self.stage = RetireStage::Stop;
                    RetireAction::Stop {
                        signal: self.signal,
                        grace: self.grace,
                        deadline: self.deadline,
                        abandon: self.query,
                    }
                }
            },
            Answer::Failed(text) => {
                if !pending {
                    self.query = None;
                }
                self.started = now;
                self.stops = true;
                self.exit_error = Some(text);
                self.stage = RetireStage::Stop;
                RetireAction::Stop {
                    signal: self.signal,
                    grace: self.grace,
                    deadline: self.deadline,
                    abandon: self.query,
                }
            },
        };
        assert(answered(listed, now@, old(self).look_deadline@, seen));
        r
    }

    /// Whether one more finding was added.
    pub open spec fn found(
        before: Seq<CleanupErrorRecord>,
        now: Seq<CleanupErrorRecord>,
        operation: &'static str,
        message: Text,
    ) -> bool {
        now == before.push(CleanupErrorRecord { operation, message })
    }

    /// The guardian was asked to stop the workload, or that failed.
    pub fn stopped(&mut self, sent: Result<(), Fault>) -> (r: RetireAction)
        requires
            old(self).wf(),
            old(self).stage == RetireStage::Stop,
        ensures
            final(self).wf(),
            r == RetireAction::Look,
            *final(self) == (Retirement {
                query: if sent is Ok {
                    None
                } else {
                    old(self).query
                },
                errors: final(self).errors,
                stage: RetireStage::Next,
                ..*old(self)
            }),
            match sent {
                Ok(_) => final(self).errors == old(self).errors,
                Err(fault) => Self::found(
                    old(self).errors@,
                    final(self).errors@,
                    "guardian-stop",
                    fault.text,
                ),
            },
    {
        match sent {
            Ok(_) => {
                self.query = None;
            },
            Err(fault) => {
                self.errors.push(
                    CleanupErrorRecord { operation: "guardian-stop", message: fault.text },
                );
            },
        }
        self.stage = RetireStage::Next;
        RetireAction::Look
    }

    /// The retirement once no more members are looked for.
    pub open spec fn looked(self, after_it: Retirement) -> bool {
        &&& after_it == (Retirement {
            errors: after_it.errors,
            stage: RetireStage::Child,
            ..self
        })
        &&& if !self.empty && self.errors@.len() == 0 {
            Self::found(
                self.errors@,
                after_it.errors@,
                "guardian-retirement-inventory",
                Text::Fixed("retirement deadline expired with unresolved workload membership"),
            )
        } else {
            after_it.errors == self.errors
        }
    }

    fn end_look(&mut self)
        ensures
            old(self).looked(*final(self)),
    {
        if !self.empty && self.errors.len() == 0 {
            self.errors.push(
                CleanupErrorRecord {
                    operation: "guardian-retirement-inventory",
                    message: Text::Fixed(
                        "retirement deadline expired with unresolved workload membership",
                    ),
                },
            );
        }
        self.stage = RetireStage::Child;
    }

    /// The time is `now`: as long as some is left, the members are looked for.
    pub fn next(&mut self, now: Duration) -> (r: RetireAction)
        requires
            old(self).wf(),
            old(self).stage == RetireStage::Next,
        ensures
            final(self).wf(),
            if now@ < old(self).deadline@ {
                r == old(self).asking(old(self).deadline) && *final(self) == (Retirement {
                    stage: RetireStage::Inventory,
                    ..*old(self)
                })
            } else {
                r == RetireAction::Look && old(self).looked(*final(self))
            },
    {
        if now.is_less_than(self.deadline) {
            self.stage = RetireStage::Inventory;
            self.ask(self.deadline)
        } else {
            self.end_look();
            RetireAction::Look
        }
    }

    /// Takes in the members. Nobody left ends the look, as does that they cannot be
    /// learned; else it goes on, and counts as forced once the grace is over.
    pub fn listed(&mut self, listed: Listed, now: Duration) -> (r: RetireAction)
        requires
            old(self).wf(),
            old(self).stage == RetireStage::Inventory,
        ensures
            final(self).wf(),
            exists|answer: Answer| #[trigger]
                answered(listed, now@, old(self).deadline@, answer) && match answer {
                    Answer::Later(pause) => r == RetireAction::PausePoll(pause) && *final(self)
                        == *old(self),
                    Answer::Got(members) => if members.empty {
                        r == RetireAction::Look && (Retirement {
                            query: None,
                            empty: true,
                            ..*old(self)
                        }).looked(*final(self))
                    } else {
                        &&& r matches RetireAction::Pause(pause) && pause@ == least(
                            20_000_000,
                            floor_sub(old(self).deadline@, now@),
                        )
                        &&& *final(self) == (Retirement {
                            query: None,
                            forced: old(self).forced || floor_sub(now@, old(self).started@) >= old(
                                self,
                            ).grace@,
                            stage: RetireStage::Next,
                            ..*old(self)
                        })
                    },
                    Answer::Failed(text) => {
                        &&& r == RetireAction::Look
                        &&& *final(self) == (Retirement {
                            query: still_asked(old(self).query, listed),
                            errors: final(self).errors,
                            stage: RetireStage::Child,
                            ..*old(self)
                        })
                        &&& Self::found(
                            old(self).errors@,
                            final(self).errors@,
                            "guardian-retirement-inventory",
                            text,
                        )
                    },
                },
    {
        let pending = match &listed {
            Ok(None) => true,
            _ => false,
        };
        let answer = answer_to(listed, now, self.deadline);
        let ghost seen = answer;
        let r = match answer {
            Answer::Later(pause) => RetireAction::PausePoll(pause),
            Answer::Got(members) => {
                self.query = None;
                if members.empty {
                    self.empty = true;
                    self.end_look();
                    RetireAction::Look
                } else {
                    if !now.saturating_sub(self.started).is_less_than(self.grace) {
                        self.forced = true;
                    }
                    self.stage = RetireStage::Next;
                    RetireAction::Pause(
                        Duration::from_millis(20).min(self.deadline.saturating_sub(now)),
                    )
                }
            },
            Answer::Failed(text) => {
                if !pending {
                    self.query = None;
                }
                self.errors.push(
                    CleanupErrorRecord { operation: "guardian-retirement-inventory", message: text },
                );
                self.stage = RetireStage::Child;
                RetireAction::Look
            },
        };
        assert(answered(listed, now@, old(self).deadline@, seen));
        r
    }

    /// The retirement once the child is not waited for any longer.
    pub open spec fn observed_all(self, after_it: Retirement) -> bool {
        &&& after_it == (Retirement {
            errors: after_it.errors,
            stage: RetireStage::Over,
            ..self
        })
        &&& if self.stored is None {
            Self::found(
                self.errors@,
                after_it.errors@,
                "observe-direct-child",
                Text::Fixed("retirement deadline expired"),
            )
        } else {
            after_it.errors == self.errors
        }
    }

    fn end_observation(&mut self)
        ensures
            old(self).observed_all(*final(self)),
    {
        if self.stored.is_none() {
            self.errors.push(
                CleanupErrorRecord {
                    operation: "observe-direct-child",
                    message: Text::Fixed("retirement deadline expired"),
                },
            );
        }
        self.stage = RetireStage::Over;
    }

    /// The time is `now`: as long as some is left, a child whose end is not known is
    /// waited for.
    pub fn child_due(&mut self, now: Duration) -> (r: RetireAction)
        requires
            old(self).wf(),
            old(self).stage == RetireStage::Child,
        ensures
            final(self).wf(),
            if old(self).stored is None && now@ < old(self).deadline@ {
                r == (RetireAction::Observe { deadline: old(self).deadline }) && *final(self) == (
                Retirement { stage: RetireStage::Observe, ..*old(self) })
            } else {
                r == RetireAction::Finish && old(self).observed_all(*final(self))
            },
    {
        if self.stored.is_none() && now.is_less_than(self.deadline) {
            self.stage = RetireStage::Observe;
            RetireAction::Observe { deadline: self.deadline }
        } else {
            self.end_observation();
            RetireAction::Finish
        }
    }

    /// Takes in how the child ended, if it did.
    pub fn observed(&mut self, observed: Result<Option<ChildTermination>, Fault>, now: Duration) -> (r:
        RetireAction)
        requires
            old(self).wf(),
            old(self).stage == RetireStage::Observe,
            old(self).stored is None,
        ensures
            final(self).wf(),
            match observed {
                Ok(Some(status)) => r == RetireAction::Finish && *final(self) == (Retirement {
                    stored: Some(status),
                    stage: RetireStage::Over,
                    ..*old(self)
                }),
                Ok(None) => {
                    &&& r matches RetireAction::Pause(pause) && pause@ == least(
                        10_000_000,
                        floor_sub(old(self).deadline@, now@),
                    )
                    &&& *final(self) == (Retirement { stage: RetireStage::Child, ..*old(self) })
                },
                Err(fault) => {
                    &&& r == RetireAction::Finish
                    &&& *final(self) == (Retirement {
                        errors: final(self).errors,
                        stage: RetireStage::Over,
                        ..*old(self)
                    })
                    &&& final(self).errors@ == old(self).errors@.push(
                        CleanupErrorRecord {
                            operation: "observe-direct-child",
                            message: fault.text,
                        },
                    ).push(
                        CleanupErrorRecord {
                            operation: "observe-direct-child",
                            message: Text::Fixed("retirement deadline expired"),
                        },
                    )
                },
            },
    {
        match observed {
            Ok(Some(status)) => {
                self.stored = Some(status);
                self.end_observation();
                RetireAction::Finish
            },
            Ok(None) => {
                self.stage = RetireStage::Child;
                RetireAction::Pause(
                    Duration::from_millis(10).min(self.deadline.saturating_sub(now)),
                )
            },
            Err(fault) => {
                self.errors.push(
                    CleanupErrorRecord { operation: "observe-direct-child", message: fault.text },
                );
                self.end_observation();
                RetireAction::Finish
            },
        }
    }

    /// The findings of a retirement that is over.
    pub open spec fn findings(self) -> Seq<CleanupErrorRecord> {
        match self.exit_error {
            Some(text) => self.errors@.push(
                CleanupErrorRecord { operation: "normal-exit-discovery", message: text },
            ),
            None => self.errors@,
        }
    }

    /// What a retirement that is over gave back.
    pub fn summary(self) -> (r: CleanupSummary)
        requires
            self.wf(),
            self.stage == RetireStage::Over,
        ensures
            r@ == (CleanupView {
                graceful_attempted: self.stops && self.graceful,
                force_attempted: self.stops && self.forced,
                direct_child_reaped: false,
                workload_empty: if self.empty {
                    Some(true)
                } else {
                    None
                },
                errors: self.findings(),
            }),
    {
        let mut errors = self.errors;
        match self.exit_error {
            Some(text) => {
                errors.push(
                    CleanupErrorRecord { operation: "normal-exit-discovery", message: text },
                );
            },
            None => {},
        }
        CleanupSummary {
            graceful_attempted: self.stops && self.graceful,
            force_attempted: self.stops && self.forced,
            direct_child_reaped: false,
            workload_empty: if self.empty {
                Some(true)
            } else {
                None
            },
            errors,
        }
    }
}

/// What an attempt gives back whose workload left by itself.
pub fn left_empty() -> (r: CleanupSummary)
    ensures
        r@ == (CleanupView { workload_empty: Some(true), ..no_cleanup() }),
{
    CleanupSummary {
        graceful_attempted: false,
        force_attempted: false,
        direct_child_reaped: false,
        workload_empty: Some(true),
        errors: Vec::new(),
    }
}

/// A retirement never claims an empty workload but where an inventory showed it, and
/// where it does not claim one after stopping, it says what went wrong.
pub proof fn unproved_emptiness_is_explained(before: Retirement, after_it: Retirement)
    requires
        before.looked(after_it),
    ensures
        after_it.empty == before.empty,
        !after_it.empty ==> after_it.errors@.len() > 0,
{
}

/// How an inspection is given to its worker.
#[derive(Clone, Copy, Debug, PartialEq, Eq, Structural)]
pub enum InspectionAdmission {
    /// At once or not at all.
    Immediate,
    /// As soon as the worker has room, until the deadline.
    Cleanup,
}

/// What offering an inspection to its worker came to.
#[derive(Clone, Copy, Debug, PartialEq, Eq, Structural)]
pub enum Offer {
    Taken,
    Full,
    Disconnected,
}

/// What follows an offer.
#[derive(Clone, Copy, Debug, PartialEq, Eq, Structural)]
pub enum OfferStep {
    /// Wait so long for the result.
    Await(Duration),
    /// Wait so long, then offer the same inspection again.
    Retry(Duration),
}

/// Decides whether an inspection is offered to its worker.
pub fn may_offer(now: Duration, deadline: Duration) -> (r: Result<(), &'static str>)
    ensures
        r == if now@ >= deadline@ {
            Err::<(), &'static str>("process inspection deadline expired before admission")
        } else {
            Ok(())
        },
{
    if now.is_less_than(deadline) {
        Ok(())
    } else {
        Err("process inspection deadline expired before admission")
    }
}

/// Decides what follows an offer. Only an inspection that is part of a cleanup waits
/// for room.
pub fn offered(admission: InspectionAdmission, offer: Offer, now: Duration, deadline: Duration) -> (r:
    Result<OfferStep, &'static str>)
    ensures
        match offer {
            Offer::Taken => r matches Ok(OfferStep::Await(wait)) && wait@ == floor_sub(
                deadline@,
                now@,
            ),
            Offer::Full => if admission == InspectionAdmission::Immediate {
                r == Err::<OfferStep, &'static str>("process inspector is busy")
            } else {
                r matches Ok(OfferStep::Retry(wait)) && wait@ == least(
                    1_000_000,
                    floor_sub(deadline@, now@),
                )
            },
            Offer::Disconnected => r == Err::<OfferStep, &'static str>(
                "process inspector is unavailable",
            ),
        },
{
    match offer {
        Offer::Taken => Ok(OfferStep::Await(deadline.saturating_sub(now))),
        Offer::Full => match admission {
            InspectionAdmission::Immediate => Err("process inspector is busy"),
            InspectionAdmission::Cleanup => Ok(
                OfferStep::Retry(Duration::from_millis(1).min(deadline.saturating_sub(now))),
            ),
        },
        Offer::Disconnected => Err("process inspector is unavailable"),
    }
}

/// Decides whether a worker carries out an inspection that it took: not once its time
/// is over.
pub fn worker_runs(now: Duration, deadline: Duration) -> (r: bool)
    ensures
        r == (now@ < deadline@),
{
    now.is_less_than(deadline)
}

/// The result of an inspection, where it came in time. One that did not stays with its
/// worker.
pub fn inspected<T>(came: Option<Result<T, String>>) -> (r: Result<T, String>)
    ensures
        match came {
            Some(result) => r == result,
            None => r matches Err(text) && text@
                == "process inspection deadline expired; worker remains runtime-owned"@,
        },
{
    match came {
        Some(result) => result,
        None => Err(
            "process inspection deadline expired; worker remains runtime-owned".to_owned(),
        ),
    }
}

} // verus!
