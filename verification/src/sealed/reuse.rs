//! Two private launches under one plan: the first must leave its cleanup
//! incomplete, and the second must then be refused before anything is allocated.

use vstd::prelude::*;
use vstd::string::*;

use crate::evidence::BoundarySetupPhase;
use crate::policy::{BoundaryRequirement, Policy};
use crate::sealed::private::{
    submitted, unsubmitted, PrivateLaunchErrorV2, PrivateResponseFailureV2, PrivateServiceResultV2,
};
use crate::text::same_text;

verus! {

/// The descriptor at which the barrier between the two launches is inherited.
pub const BARRIER_DESCRIPTOR: i32 = 4;

/// The native number of a stream socket's type.
pub const SOCK_STREAM: i32 = 1;

/// Who is at the other end of a socket.
#[derive(Clone, Copy, Debug, PartialEq, Eq, Structural)]
pub struct PeerFacts {
    pub pid: i32,
    pub uid: u32,
}

/// What is wrong with a barrier, if anything.
pub open spec fn barrier_fault(
    socket_type: Option<i32>,
    peer: Option<PeerFacts>,
    own_pid: i32,
) -> Option<&'static str> {
    if socket_type != Some(SOCK_STREAM) {
        Some("reuse barrier is not a Unix stream")
    } else if peer is None || peer->0.pid <= 0 || peer->0.uid != 0 || peer->0.pid == own_pid {
        Some("reuse barrier lacks root peer credentials")
    } else {
        None
    }
}

/// The barrier must be a stream whose other end is another process of root's.
pub fn verify_reuse_barrier_peer(
    socket_type: Option<i32>,
    peer: Option<PeerFacts>,
    own_pid: i32,
) -> (r: Result<(), &'static str>)
    ensures
        match r {
            Ok(_) => barrier_fault(socket_type, peer, own_pid) is None,
            Err(text) => barrier_fault(socket_type, peer, own_pid) == Some(text),
        },
{
    match socket_type {
        Some(kind) => {
            if kind != SOCK_STREAM {
                return Err("reuse barrier is not a Unix stream");
            }
        },
        None => {
            return Err("reuse barrier is not a Unix stream");
        },
    }
    match peer {
        Some(facts) => {
            if facts.pid <= 0 || facts.uid != 0 || facts.pid == own_pid {
                return Err("reuse barrier lacks root peer credentials");
            }
        },
        None => {
            return Err("reuse barrier lacks root peer credentials");
        },
    }
    Ok(())
}

/// The byte that lets the second launch go on.
pub fn reuse_between_attempts_barrier(release: u8) -> (r: Result<(), &'static str>)
    ensures
        r == if release == 71 {
            Ok::<(), &'static str>(())
        } else {
            Err("reuse barrier release byte differs")
        },
{
    if release == 71 {
        Ok(())
    } else {
        Err("reuse barrier release byte differs")
    }
}

/// What was read from a refusal on the wire.
#[derive(Debug)]
pub struct RejectionWire {
    pub code: String,
    pub phase: BoundarySetupPhase,
    pub target_created: bool,
    pub target_released: bool,
    pub cleanup_attempted: bool,
    pub sealed_boundary_retired: bool,
    pub cleanup_errors: usize,
}

impl RejectionWire {
    /// Whether the refusal tells of a released target whose cleanup was tried and
    /// is not complete.
    pub open spec fn left_incomplete(&self) -> bool {
        &&& self.code@ == "MCSEALED-PRIVATE-REUSE-CLEANUP-INCOMPLETE"@
        &&& self.phase == BoundarySetupPhase::Retirement
        &&& self.target_created && self.target_released && self.cleanup_attempted
        &&& !self.sealed_boundary_retired
        &&& self.cleanup_errors > 0
    }

    /// Whether the refusal came before anything was allocated.
    pub open spec fn blocked(&self) -> bool {
        &&& self.code@ == "MCSEALED-PRIVATE-REUSE-BLOCKED"@
        &&& self.phase == BoundarySetupPhase::RequestValidation
        &&& !self.target_created && !self.target_released && !self.cleanup_attempted
    }

    fn is_left_incomplete(&self) -> (r: bool)
        ensures
            r == self.left_incomplete(),
    {
        let late = match self.phase {
            BoundarySetupPhase::Retirement => true,
            _ => false,
        };
        same_text(self.code.as_str(), "MCSEALED-PRIVATE-REUSE-CLEANUP-INCOMPLETE") && late
            && self.target_created && self.target_released && self.cleanup_attempted
            && !self.sealed_boundary_retired && self.cleanup_errors > 0
    }

    fn is_blocked(&self) -> (r: bool)
        ensures
            r == self.blocked(),
    {
        let early = match self.phase {
            BoundarySetupPhase::RequestValidation => true,
            _ => false,
        };
        same_text(self.code.as_str(), "MCSEALED-PRIVATE-REUSE-BLOCKED") && early
            && !self.target_created && !self.target_released && !self.cleanup_attempted
    }
}

/// What is known before the first launch.
#[derive(Debug)]
pub struct ReuseRequest {
    pub barrier_descriptor: i32,
    pub barrier: Result<(), String>,
    pub contract: Result<(), String>,
    pub ordinary_contract: bool,
    pub profile: String,
    pub administrator_identity: bool,
}

/// Why the pair is not started, if it is not.
pub open spec fn pair_fault(policy: Policy, request: ReuseRequest) -> Option<Seq<char>> {
    if request.barrier_descriptor != BARRIER_DESCRIPTOR {
        Some("reuse barrier must be inherited FD4"@)
    } else if request.barrier is Err {
        Some(request.barrier->Err_0@)
    } else if request.contract is Err {
        Some(request.contract->Err_0@)
    } else if policy.boundary != BoundaryRequirement::Sealed || request.ordinary_contract
        || request.profile@ != "linux-tcp4-private-v1"@ || !request.administrator_identity {
        Some("reuse pair requires exact sealed private V2 contract"@)
    } else {
        None
    }
}

/// Where a pair of launches stands.
#[derive(Clone, Copy, Debug, PartialEq, Eq, Structural)]
pub enum ReuseStage {
    Planning,
    First,
    Barrier,
    Second,
    Over,
}

/// A pair of launches.
#[derive(Clone, Copy, Debug, PartialEq, Eq, Structural)]
pub struct ReusePair {
    pub stage: ReuseStage,
}

/// A failure once the first launch may have been submitted.
pub fn reuse_after_submission(detail: String, raw_response: Option<Vec<u8>>) -> (r:
    PrivateLaunchErrorV2)
    ensures
        r == PrivateLaunchErrorV2::AfterSubmission(
            PrivateResponseFailureV2 { detail, raw_response },
        ),
{
    PrivateLaunchErrorV2::AfterSubmission(PrivateResponseFailureV2 { detail, raw_response })
}

fn copied(bytes: &Vec<u8>) -> (r: Vec<u8>)
    ensures
        r@ == bytes@,
{
    let mut out: Vec<u8> = Vec::new();
    crate::bytes::put(&mut out, bytes.as_slice());
    assert(out@ =~= bytes@);
    out
}

/// The error of a launch that failed within a pair: whatever it was, the pair's
/// first launch had been submitted.
pub fn reuse_launch_error(error: PrivateLaunchErrorV2) -> (r: PrivateLaunchErrorV2)
    ensures
        match error {
            PrivateLaunchErrorV2::BeforeSubmission(detail) => submitted(r, detail@, None),
            PrivateLaunchErrorV2::AfterSubmission(failure) => r
                == PrivateLaunchErrorV2::AfterSubmission(failure),
        },
{
    match error {
        PrivateLaunchErrorV2::BeforeSubmission(detail) => reuse_after_submission(detail, None),
        PrivateLaunchErrorV2::AfterSubmission(failure) => PrivateLaunchErrorV2::AfterSubmission(
            failure,
        ),
    }
}

/// Begins a pair of launches, or says why it is not started.
pub fn execute_private_v2_reuse_pair(policy: &Policy, request: &ReuseRequest) -> (r: Result<
    ReusePair,
    PrivateLaunchErrorV2,
>)
    ensures
        match r {
            Ok(pair) => pair_fault(*policy, *request) is None && pair.stage
                == ReuseStage::Planning,
            Err(error) => pair_fault(*policy, *request) matches Some(text) && unsubmitted(
                error,
                text,
            ),
        },
{
    if request.barrier_descriptor != BARRIER_DESCRIPTOR {
        return Err(
            PrivateLaunchErrorV2::BeforeSubmission(
                "reuse barrier must be inherited FD4".to_owned(),
            ),
        );
    }
    if let Err(fault) = &request.barrier {
        return Err(PrivateLaunchErrorV2::BeforeSubmission(fault.clone()));
    }
    if let Err(fault) = &request.contract {
        return Err(PrivateLaunchErrorV2::BeforeSubmission(fault.clone()));
    }
    if policy.boundary != BoundaryRequirement::Sealed || request.ordinary_contract
        || !same_text(request.profile.as_str(), "linux-tcp4-private-v1")
        || !request.administrator_identity {
        return Err(
            PrivateLaunchErrorV2::BeforeSubmission(
                "reuse pair requires exact sealed private V2 contract".to_owned(),
            ),
        );
    }
    Ok(ReusePair { stage: ReuseStage::Planning })
}

impl ReusePair {
    /// The plan is in. `expected` is what holding an earlier plan against the
    /// contract and the caller came to, and whether it is the same plan; without an
    /// earlier plan there is nothing to hold.
    pub fn planned(&mut self, expected: Option<Result<bool, String>>) -> (r: Result<
        (),
        PrivateLaunchErrorV2,
    >)
        requires
            old(self).stage == ReuseStage::Planning,
        ensures
            match expected {
                Some(Err(fault)) => final(self).stage == ReuseStage::Over && (r matches Err(error)
                    && unsubmitted(error, fault@)),
                Some(Ok(false)) => final(self).stage == ReuseStage::Over && (r matches Err(error)
                    && unsubmitted(error, "reuse plan differs from protected expected plan"@)),
                _ => final(self).stage == ReuseStage::First && r is Ok,
            },
    {
        match expected {
            Some(Err(fault)) => {
                self.stage = ReuseStage::Over;
                Err(PrivateLaunchErrorV2::BeforeSubmission(fault))
            },
            Some(Ok(false)) => {
                self.stage = ReuseStage::Over;
                Err(
                    PrivateLaunchErrorV2::BeforeSubmission(
                        "reuse plan differs from protected expected plan".to_owned(),
                    ),
                )
            },
            _ => {
                self.stage = ReuseStage::First;
                Ok(())
            },
        }
    }

    /// The first launch was answered; `wire` is what its refusal was read as.
    pub fn first(&mut self, result: PrivateServiceResultV2, wire: Result<RejectionWire, String>) -> (r:
        Result<(), PrivateLaunchErrorV2>)
        requires
            old(self).stage == ReuseStage::First,
        ensures
            r is Ok <==> final(self).stage == ReuseStage::Barrier,
            r is Err <==> final(self).stage == ReuseStage::Over,
            match result {
                PrivateServiceResultV2::Complete(terminal) => r matches Err(error) && submitted(
                    error,
                    "reuse first launch unexpectedly completed"@,
                    Some(terminal.answer()),
                ),
                PrivateServiceResultV2::Indeterminate { raw_response, .. } => r matches Err(error)
                    && submitted(
                    error,
                    "reuse first launch is indeterminate"@,
                    Some(raw_response@),
                ),
                PrivateServiceResultV2::Rejected { raw_response, .. } => match wire {
                    Err(fault) => r matches Err(error) && submitted(
                        error,
                        fault@,
                        Some(raw_response@),
                    ),
                    Ok(wire) => if wire.left_incomplete() {
                        r is Ok
                    } else {
                        r matches Err(error) && submitted(
                            error,
                            "reuse first launch lacks protected CleanupIncomplete result"@,
                            Some(raw_response@),
                        )
                    },
                },
            },
    {
        self.stage = ReuseStage::Over;
        let raw = match result {
            PrivateServiceResultV2::Rejected { raw_response, .. } => raw_response,
            PrivateServiceResultV2::Complete(terminal) => {
                let mut kept: Vec<u8> = Vec::new();
                crate::bytes::put(&mut kept, terminal.raw_response());
                assert(kept@ =~= terminal.answer());
                return Err(
                    reuse_after_submission(
                        "reuse first launch unexpectedly completed".to_owned(),
                        Some(kept),
                    ),
                );
            },
            PrivateServiceResultV2::Indeterminate { raw_response, .. } => {
                return Err(
                    reuse_after_submission(
                        "reuse first launch is indeterminate".to_owned(),
                        Some(raw_response),
                    ),
                );
            },
        };
        let wire = match wire {
            Ok(wire) => wire,
            Err(fault) => {
                return Err(reuse_after_submission(fault, Some(raw)));
            },
        };
        if !wire.is_left_incomplete() {
            return Err(
                reuse_after_submission(
                    "reuse first launch lacks protected CleanupIncomplete result".to_owned(),
                    Some(raw),
                ),
            );
        }
        self.stage = ReuseStage::Barrier;
        Ok(())
    }

    /// The barrier between the launches was passed, or not.
    pub fn passed(&mut self, barrier: Result<(), String>) -> (r: Result<(), PrivateLaunchErrorV2>)
        requires
            old(self).stage == ReuseStage::Barrier,
        ensures
            match barrier {
                Ok(_) => r is Ok && final(self).stage == ReuseStage::Second,
                Err(fault) => final(self).stage == ReuseStage::Over && (r matches Err(error)
                    && submitted(error, fault@, None)),
            },
    {
        match barrier {
            Ok(_) => {
                self.stage = ReuseStage::Second;
                Ok(())
            },
            Err(fault) => {
                self.stage = ReuseStage::Over;
                Err(reuse_after_submission(fault, None))
            },
        }
    }

    /// The second launch was answered; `wire` is what its refusal was read as.
    pub fn second(&mut self, result: PrivateServiceResultV2, wire: Result<RejectionWire, String>) -> (r:
        Result<PrivateServiceResultV2, PrivateLaunchErrorV2>)
        requires
            old(self).stage == ReuseStage::Second,
        ensures
            final(self).stage == ReuseStage::Over,
            match result {
                PrivateServiceResultV2::Rejected { raw_response, .. } => match wire {
                    Err(fault) => r matches Err(error) && submitted(
                        error,
                        fault@,
                        Some(raw_response@),
                    ),
                    Ok(wire) => if wire.blocked() {
                        r == Ok::<PrivateServiceResultV2, PrivateLaunchErrorV2>(result)
                    } else {
                        r matches Err(error) && submitted(
                            error,
                            "reuse second launch did not prove preallocation block"@,
                            Some(raw_response@),
                        )
                    },
                },
                _ => r matches Err(error) && submitted(
                    error,
                    "reuse second launch was not a typed rejection"@,
                    Some(result.answer()),
                ),
            },
    {
        self.stage = ReuseStage::Over;
        match &result {
            PrivateServiceResultV2::Rejected { raw_response, .. } => {
                let wire = match wire {
                    Ok(wire) => wire,
                    Err(fault) => {
                        return Err(reuse_after_submission(fault, Some(copied(raw_response))));
                    },
                };
                if !wire.is_blocked() {
                    return Err(
                        reuse_after_submission(
                            "reuse second launch did not prove preallocation block".to_owned(),
                            Some(copied(raw_response)),
                        ),
                    );
                }
            },
            PrivateServiceResultV2::Complete(terminal) => {
                let mut kept: Vec<u8> = Vec::new();
                crate::bytes::put(&mut kept, terminal.raw_response());
                assert(kept@ =~= terminal.answer());
                return Err(
                    reuse_after_submission(
                        "reuse second launch was not a typed rejection".to_owned(),
                        Some(kept),
                    ),
                );
            },
            PrivateServiceResultV2::Indeterminate { raw_response, .. } => {
                return Err(
                    reuse_after_submission(
                        "reuse second launch was not a typed rejection".to_owned(),
                        Some(copied(raw_response)),
                    ),
                );
            },
        }
        Ok(result)
    }
}

/// A refusal cannot be both: one that leaves a cleanup incomplete tells of a
/// released target, one that blocks tells of none.
pub proof fn incomplete_is_not_blocked(wire: RejectionWire)
    ensures
        !(wire.left_incomplete() && wire.blocked()),
{
}

} // verus!
