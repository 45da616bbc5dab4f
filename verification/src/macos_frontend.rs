//! The two ends of a macOS guardian's lease: what a guardian takes on when it starts,
//! and what its frontend asks of it while the workload runs.

use vstd::prelude::*;
use vstd::string::*;

use crate::macos_guardian::{take_on, Admission, CustodyPlan};
use crate::macos_protocol::Message;
use crate::model::{Fault, FaultKind};
use crate::text::same_text;
use crate::time::Duration;

verus! {

/// Tells whether a guardian's first message holds its spawn back, and if so whether
/// the spawn goes on once it was cancelled.
pub fn held_back(first: &Option<Message>) -> (r: Option<bool>)
    ensures
        r == match *first {
            Some(Message::HoldSpawn) => Some(false),
            Some(Message::HoldSpawnReleaseAfterCancel) => Some(true),
            _ => None::<bool>,
        },
{
    match first {
        Some(Message::HoldSpawn) => Some(false),
        Some(Message::HoldSpawnReleaseAfterCancel) => Some(true),
        _ => None,
    }
}

/// What a guardian takes on.
#[derive(Debug)]
pub struct GuardianSetup {
    pub plan: CustodyPlan,
    /// The path of the inspectors' program.
    pub image: Vec<u8>,
    /// How long the inspectors may take to stand, in nanoseconds.
    pub inspectors_within: u64,
}

/// What becomes of a guardian's configuration.
#[derive(Debug)]
pub enum SetupVerdict {
    /// It is too late: the guardian leaves with status 126.
    Late,
    Begin(GuardianSetup),
}

/// The plan of a configuration.
pub open spec fn plan_of(startup: u64, work: Option<u64>, grace: u64) -> CustodyPlan {
    CustodyPlan { startup, work, grace }
}

/// Whether a plan came too late.
pub open spec fn is_late(plan: CustodyPlan, now: u64) -> bool {
    now >= plan.startup || (plan.work matches Some(work) && now >= work)
}

/// Decides whether a guardian takes on what it was told at `now`, in the boot `boot`.
/// Nothing but a configuration of this very boot is taken.
pub fn guardian_setup(configuration: Option<Message>, now: u64, boot: &str) -> (r: Result<
    SetupVerdict,
    Fault,
>)
    ensures
        match configuration {
            Some(Message::Configure { image, boot_identity, startup, work, grace }) => if boot_identity@
                != boot@ {
                r == Err::<SetupVerdict, Fault>(
                    Fault::found(
                        FaultKind::Other,
                        "guardian continuous clock boot binding mismatch",
                    ),
                )
            } else if is_late(plan_of(startup, work, grace), now) {
                r == Ok::<SetupVerdict, Fault>(SetupVerdict::Late)
            } else {
                r == Ok::<SetupVerdict, Fault>(
                    SetupVerdict::Begin(
                        GuardianSetup {
                            plan: plan_of(startup, work, grace),
                            image,
                            inspectors_within: (startup - now) as u64,
                        },
                    ),
                )
            },
            _ => r == Err::<SetupVerdict, Fault>(
                Fault::found(FaultKind::Other, "guardian requires immutable configuration"),
            ),
        },
{
    match configuration {
        Some(Message::Configure { image, boot_identity, startup, work, grace }) => {
            if !same_text(boot_identity.as_str(), boot) {
                return Err(
                    Fault::new(
                        FaultKind::Other,
                        "guardian continuous clock boot binding mismatch",
                    ),
                );
            }
            let plan = CustodyPlan { startup, work, grace };
            match take_on(plan, now) {
                Admission::Late => Ok(SetupVerdict::Late),
                Admission::Admitted => Ok(
                    SetupVerdict::Begin(
                        GuardianSetup { plan, image, inspectors_within: startup - now },
                    ),
                ),
            }
        },
        _ => Err(Fault::new(FaultKind::Other, "guardian requires immutable configuration")),
    }
}

/// The frontend's end of a lease.
#[derive(Clone, Copy, Debug, PartialEq, Eq, Structural)]
pub enum Lease {
    Held,
    /// The lease was given back.
    Gone,
    /// Someone failed while they held the channel.
    Poisoned,
}

/// Decides whether a lease can be used.
pub fn lease_usable(lease: Lease) -> (r: Result<(), Fault>)
    ensures
        r == match lease {
            Lease::Held => Ok::<(), Fault>(()),
            Lease::Gone => Err(Fault::found(FaultKind::Other, "guardian lease unavailable")),
            Lease::Poisoned => Err(Fault::found(FaultKind::Other, "guardian channel poisoned")),
        },
{
    match lease {
        Lease::Held => Ok(()),
        Lease::Gone => Err(Fault::new(FaultKind::Other, "guardian lease unavailable")),
        Lease::Poisoned => Err(Fault::new(FaultKind::Other, "guardian channel poisoned")),
    }
}

/// The message that stops a workload by a signal now and by force once a grace is over.
/// A grace that is over out of range is refused, before the lease is looked at.
pub fn signal_stop(lease: Lease, signal: i32, now: u64, grace: Duration) -> (r: Result<
    Message,
    Fault,
>)
    ensures
        if now + grace@ > u64::MAX {
            r == Err::<Message, Fault>(
                Fault::found(FaultKind::InvalidInput, "deadline range exceeded"),
            )
        } else {
            match lease {
                Lease::Held => r == Ok::<Message, Fault>(
                    Message::SignalStop { signal, force: (now + grace@) as u64 },
                ),
                Lease::Gone => r == Err::<Message, Fault>(
                    Fault::found(FaultKind::Other, "guardian lease unavailable"),
                ),
                Lease::Poisoned => r == Err::<Message, Fault>(
                    Fault::found(FaultKind::Other, "guardian channel poisoned"),
                ),
            }
        },
{
    match crate::macos_deadline::add(now, grace) {
        Err(fault) => Err(fault),
        Ok(force) => match lease_usable(lease) {
            Ok(_) => Ok(Message::SignalStop { signal, force }),
            Err(fault) => Err(fault),
        },
    }
}

/// Decides whether an inventory is still waited for.
pub fn query_due(expired: bool) -> (r: Result<(), &'static str>)
    ensures
        r == if expired {
            Err::<(), &'static str>("guardian inventory deadline expired")
        } else {
            Ok(())
        },
{
    if expired {
        Err("guardian inventory deadline expired")
    } else {
        Ok(())
    }
}

/// What a question for a sample came to: the reply's own failure, a reply without a
/// sample, a sample that could not be taken, or the sample.
pub fn sampled(reply: Result<Option<Result<u64, String>>, String>) -> (r: Result<u64, String>)
    ensures
        match reply {
            Err(text) => r == Err::<u64, String>(text),
            Ok(None) => r matches Err(text) && text@ == "guardian sample response missing"@,
            Ok(Some(sample)) => r == sample,
        },
{
    match reply {
        Err(text) => Err(text),
        Ok(None) => Err("guardian sample response missing".to_owned()),
        Ok(Some(sample)) => sample,
    }
}

/// Decides whether a guardian stands: its heartbeat went out, where the lease is held,
/// and it was not seen to have ended.
pub fn alive(heartbeat: Result<(), Fault>, ended: Result<bool, Fault>) -> (r: Result<(), Fault>)
    ensures
        r == match heartbeat {
            Err(fault) => Err::<(), Fault>(fault),
            Ok(_) => match ended {
                Err(fault) => Err(fault),
                Ok(true) => Err(
                    Fault::found(FaultKind::Other, "guardian exited before workload retirement"),
                ),
                Ok(false) => Ok(()),
            },
        },
{
    match heartbeat {
        Err(fault) => Err(fault),
        Ok(_) => match ended {
            Err(fault) => Err(fault),
            Ok(ended) => if ended {
                Err(Fault::new(FaultKind::Other, "guardian exited before workload retirement"))
            } else {
                Ok(())
            },
        },
    }
}

/// What a guardian begins with lies ahead of it: it has time for its inspectors, and
/// time to work where work is bounded.
pub proof fn setups_lie_ahead(startup: u64, work: Option<u64>, grace: u64, now: u64)
    requires
        !is_late(plan_of(startup, work, grace), now),
    ensures
        startup - now > 0,
        work matches Some(end) ==> end - now > 0,
{
}

} // verus!
