//! A guardian whose own turn failed: it goes on to end and to reap what it owns,
//! and leaves only once that is done.

use vstd::prelude::*;

use crate::macos_guardian::{Custody, Inspection, LaneName, SpawnEvent};
use crate::macos_inventory::Identities;
use crate::macos_lane::InventoryLane;
use crate::model::{Fault, FaultKind, SIGKILL};

verus! {

/// A guardian that only clears up.
#[derive(Debug)]
pub struct Recovery {
    pub target: bool,
    pub creation_settled: bool,
    pub empty: bool,
    pub known: Identities,
    pub normal: InventoryLane,
    pub emergency: InventoryLane,
}

/// Whether two of them own the same, apart from what is said to have changed.
pub open spec fn same_lanes(a: Recovery, b: Recovery) -> bool {
    a.normal == b.normal && a.emergency == b.emergency
}

impl Recovery {
    /// Takes over from a guardian: nothing is known to be gone.
    pub fn begin(custody: Custody) -> (r: Recovery)
        ensures
            r.target == custody.state.target,
            r.creation_settled == custody.state.target,
            !r.empty,
            r.known == custody.known,
            r.normal == custody.normal,
            r.emergency == custody.emergency,
    {
        Recovery {
            target: custody.state.target,
            creation_settled: custody.state.target,
            empty: false,
            known: custody.known,
            normal: custody.normal,
            emergency: custody.emergency,
        }
    }

    /// Takes in what became of a creation that was under way. One that came to
    /// nothing leaves nothing behind.
    pub fn spawned(&mut self, event: SpawnEvent)
        requires
            !old(self).creation_settled,
        ensures
            final(self).known == old(self).known && same_lanes(*old(self), *final(self)),
            match event {
                SpawnEvent::Pending => *final(self) == *old(self),
                SpawnEvent::Spawned => final(self).target && final(self).creation_settled
                    && final(self).empty == old(self).empty,
                SpawnEvent::Failed(_) => final(self).target == old(self).target && final(
                    self).creation_settled && final(self).empty,
                SpawnEvent::Gone => final(self).target == old(self).target && final(
                    self).creation_settled && final(self).empty,
            },
    {
        match event {
            SpawnEvent::Pending => {},
            SpawnEvent::Spawned => {
                self.target = true;
                self.creation_settled = true;
            },
            SpawnEvent::Failed(_) => {
                self.creation_settled = true;
                self.empty = true;
            },
            SpawnEvent::Gone => {
                self.creation_settled = true;
                self.empty = true;
            },
        }
    }

    /// Takes in an inspector's answer: whether it shows that no member lives, and who
    /// is known. Only the emergency one's word settles that nobody is left.
    pub fn lane_replied(&mut self, lane: LaneName, shows_empty: bool, identities: Identities)
        ensures
            final(self).target == old(self).target && final(self).creation_settled == old(
                self).creation_settled && same_lanes(*old(self), *final(self)),
            match lane {
                LaneName::Emergency => final(self).known@ == identities@ && final(self).empty
                    == shows_empty,
                LaneName::Normal => final(self).known@ == old(self).known@.union(identities@)
                    && final(self).empty == (old(self).empty && identities@.subset_of(
                    old(self).known@,
                )),
            },
    {
        match lane {
            LaneName::Emergency => {
                self.known = identities;
                self.empty = shows_empty;
            },
            LaneName::Normal => {
                if self.known.extend(&identities) {
                    self.empty = false;
                }
            },
        }
    }

    /// An inspector failed; `reaped` says that it is gone.
    pub fn lane_failed(&mut self, lane: LaneName, reaped: bool)
        ensures
            !final(self).empty,
            final(self).target == old(self).target && final(self).creation_settled == old(
                self).creation_settled && final(self).known == old(self).known,
            match lane {
                LaneName::Normal => final(self).emergency == old(self).emergency
                    && final(self).normal == if reaped {
                    InventoryLane { pending: false, stopping: true, ..old(self).normal }
                } else {
                    old(self).normal
                },
                LaneName::Emergency => final(self).normal == old(self).normal
                    && final(self).emergency == if reaped {
                    InventoryLane { pending: false, stopping: true, ..old(self).emergency }
                } else {
                    old(self).emergency
                },
            },
    {
        self.empty = false;
        if reaped {
            match lane {
                LaneName::Normal => {
                    self.normal.pending = false;
                    self.normal.stopping = true;
                },
                LaneName::Emergency => {
                    self.emergency.pending = false;
                    self.emergency.stopping = true;
                },
            }
        }
    }

    /// Whether the emergency inspector is to be asked again.
    pub open spec fn inspection_due(&self) -> bool {
        self.target && !self.empty && !self.emergency.pending && !self.emergency.stopping
    }

    /// The next inspection, if one is due: it always comes with the signal that cannot
    /// be ignored.
    pub fn next_inspection(&mut self) -> (r: Result<Option<Inspection>, Fault>)
        ensures
            final(self).target == old(self).target && final(self).creation_settled == old(
                self).creation_settled && final(self).known == old(self).known
                && final(self).empty == old(self).empty && final(self).normal == old(self).normal,
            if !old(self).inspection_due() {
                *final(self) == *old(self) && r == Ok::<Option<Inspection>, Fault>(None)
            } else if old(self).emergency.sequence == u64::MAX {
                *final(self) == *old(self) && r == Err::<Option<Inspection>, Fault>(
                    Fault::found(FaultKind::Other, "inspector sequence overflow"),
                )
            } else {
                final(self).emergency == (InventoryLane {
                    sequence: (old(self).emergency.sequence + 1) as u64,
                    metric: None,
                    ..old(self).emergency
                }) && r == Ok::<Option<Inspection>, Fault>(
                    Some(
                        Inspection {
                            lane: LaneName::Emergency,
                            sequence: (old(self).emergency.sequence + 1) as u64,
                            signal: Some(SIGKILL),
                            metric: None,
                        },
                    ),
                )
            },
    {
        if !self.target || self.empty || self.emergency.pending || self.emergency.stopping {
            return Ok(None);
        }
        match self.emergency.submit(None) {
            Ok(sequence) => Ok(
                Some(
                    Inspection {
                        lane: LaneName::Emergency,
                        sequence,
                        signal: Some(SIGKILL),
                        metric: None,
                    },
                ),
            ),
            Err(fault) => Err(fault),
        }
    }

    /// Whether the inspectors may go.
    pub fn inspectors_may_go(&self) -> (r: bool)
        ensures
            r == (self.empty && !self.normal.pending && !self.emergency.pending),
    {
        self.empty && !self.normal.pending && !self.emergency.pending
    }

    /// Whether everything is done, and the guardian may leave with status 126:
    /// `retired` says that both inspectors are gone, `reaped` that the target is.
    pub fn is_over(&self, retired: bool, reaped: bool) -> (r: bool)
        ensures
            r == (self.empty && !self.normal.pending && !self.emergency.pending && retired && (
            !self.target || reaped)),
    {
        self.empty && !self.normal.pending && !self.emergency.pending && retired && (!self.target
            || reaped)
    }
}

} // verus!
