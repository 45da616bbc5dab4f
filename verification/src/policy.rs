//! What a run is asked to do: limits, deadlines, graces and the boundary.

use vstd::prelude::*;

use crate::time::{floor_sub, least, Duration, MAX_NANOS};

verus! {

/// What a deadline bounds: one attempt, or the supervision as a whole.
#[derive(Clone, Copy, Debug, PartialEq, Eq, Structural)]
pub enum DeadlineScope {
    Attempt,
    Supervision,
}

/// A bound on running time.
#[derive(Clone, Copy, Debug, PartialEq, Eq, Structural)]
pub struct Deadline {
    pub duration: Duration,
    pub scope: DeadlineScope,
}

/// How much swap a workload may use.
#[derive(Clone, Copy, Debug, PartialEq, Eq, Structural)]
pub enum SwapPolicy {
    Bytes(u64),
    Unlimited,
    Host,
}

/// Whether a run ends with its command or with its whole workload.
#[derive(Clone, Copy, Debug, PartialEq, Eq, Structural)]
pub enum Lifetime {
    Command,
    Workload,
}

/// How a memory limit is to be enforced.
#[derive(Clone, Copy, Debug, PartialEq, Eq, Structural)]
pub enum Enforcement {
    Auto,
    Hard,
    Watchdog,
}

/// What a watchdog measures.
#[derive(Clone, Copy, Debug, PartialEq, Eq, Structural)]
pub enum Metric {
    Native,
    PhysicalFootprint,
    Rss,
    Virtual,
}

/// The boundary that a request asks for.
#[derive(Clone, Copy, Debug, PartialEq, Eq, Structural)]
pub enum BoundaryRequirement {
    Standard,
    Sealed,
}

/// The boundary that a backend has.
#[derive(Clone, Copy, Debug, PartialEq, Eq, Structural)]
pub enum BoundaryClass {
    Standard,
    Sealed,
    Unavailable,
}

/// A request's policy.
#[derive(Clone, Copy, Debug, PartialEq, Eq, Structural)]
pub struct Policy {
    pub memory: Option<u64>,
    pub swap: SwapPolicy,
    pub deadline: Option<Deadline>,
    pub lifetime: Lifetime,
    pub enforcement: Enforcement,
    pub metric: Metric,
    pub boundary: BoundaryRequirement,
    pub poll_interval: Duration,
    pub signal_grace: Duration,
    pub command_exit_grace: Duration,
    pub limit_grace: Duration,
}

/// Where an attempt stands within its supervision. Times are spans since the
/// attempt started, but for `supervision_offset`, which is that start itself
/// counted from the start of the supervision.
#[derive(Clone, Copy, Debug, PartialEq, Eq, Structural)]
pub struct AttemptContext {
    pub supervision_offset: Duration,
    pub supervision_deadline_remaining: Option<Duration>,
}

/// A span `local` after `now`, or `now` itself where that is not representable.
pub open spec fn local_deadline(now: nat, local: nat) -> nat {
    if now + local <= MAX_NANOS {
        now + local
    } else {
        now
    }
}

impl AttemptContext {
    /// The context of an attempt that no supervision bounds.
    pub fn unsupervised() -> (r: AttemptContext)
        ensures
            r.supervision_offset@ == 0,
            r.supervision_deadline_remaining is None,
    {
        AttemptContext { supervision_offset: Duration::zero(), supervision_deadline_remaining: None }
    }

    /// When the supervision's deadline falls, counted from the attempt's start.
    pub fn supervision_deadline(self) -> (r: Option<Duration>)
        ensures
            r == self.supervision_deadline_remaining,
    {
        self.supervision_deadline_remaining
    }

    /// The deadline of work that starts at `now` and may take `local`: the
    /// supervision's deadline cuts it short.
    pub open spec fn clamped(self, now: nat, local: nat) -> nat {
        match self.supervision_deadline_remaining {
            Some(remaining) => least(local_deadline(now, local), remaining@),
            None => local_deadline(now, local),
        }
    }

    /// The deadline of work that starts at `now` and may take `local`.
    pub fn clamp_deadline(self, now: Duration, local: Duration) -> (r: Duration)
        ensures
            r@ == self.clamped(now@, local@),
    {
        let limit = match now.checked_add(local) {
            Some(limit) => limit,
            None => now,
        };
        match self.supervision_deadline_remaining {
            Some(remaining) => limit.min(remaining),
            None => limit,
        }
    }

    /// A grace that the supervision's deadline cuts short.
    pub open spec fn clamped_grace(self, grace: nat, now: nat) -> nat {
        match self.supervision_deadline_remaining {
            Some(remaining) => least(grace, floor_sub(remaining@, now)),
            None => grace,
        }
    }

    /// A grace that the supervision's deadline cuts short.
    pub fn clamp_grace(self, grace: Duration, now: Duration) -> (r: Duration)
        ensures
            r@ == self.clamped_grace(grace@, now@),
    {
        match self.supervision_deadline_remaining {
            Some(remaining) => grace.min(remaining.saturating_sub(now)),
            None => grace,
        }
    }
}

/// Work bounded by a context never outlasts the supervision's deadline, and
/// never takes longer than it would without a supervision.
pub proof fn clamping_only_shortens(context: AttemptContext, now: nat, local: nat)
    ensures
        context.clamped(now, local) <= local_deadline(now, local),
        context.supervision_deadline_remaining matches Some(remaining) ==> context.clamped(
            now,
            local,
        ) <= remaining@,
        context.clamped_grace(local, now) <= local,
{
}

} // verus!
