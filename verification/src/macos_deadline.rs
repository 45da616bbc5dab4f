//! Darwin's continuous time within one boot, in nanoseconds.

use vstd::prelude::*;
use vstd::string::*;

use crate::bytes::slice_of;
use crate::model::{Fault, FaultKind};
use crate::text::utf8_text;
use crate::time::{floor_sub, least, Duration};

verus! {

/// What a reading of the clock is worth in nanoseconds, or why it is refused.
pub open spec fn nanos_of(result: i32, ticks: u64, numer: u32, denom: u32) -> Result<u64, Fault> {
    if result != 0 || denom == 0 {
        Err(Fault::found(FaultKind::Other, "Darwin continuous clock timebase unavailable"))
    } else if (ticks as nat * numer as nat) / denom as nat > u64::MAX {
        Err(Fault::found(FaultKind::Other, "Darwin continuous clock range exceeded"))
    } else {
        Ok(((ticks as nat * numer as nat) / denom as nat) as u64)
    }
}

/// What a reading of the clock is worth in nanoseconds. `result` is what asking for
/// the timebase returned.
pub fn continuous_nanos(result: i32, ticks: u64, numer: u32, denom: u32) -> (r: Result<u64, Fault>)
    ensures
        r == nanos_of(result, ticks, numer, denom),
{
    if result != 0 || denom == 0 {
        return Err(Fault::new(FaultKind::Other, "Darwin continuous clock timebase unavailable"));
    }
    assert(ticks as nat * numer as nat <= 0xffff_ffff_ffff_ffff * 0xffff_ffff) by (nonlinear_arith)
        requires
            ticks <= 0xffff_ffff_ffff_ffffu64,
            numer <= 0xffff_ffffu32,
    ;
    let product: u128 = (ticks as u128) * (numer as u128);
    let nanos: u128 = product / (denom as u128);
    assert(nanos == (ticks as nat * numer as nat) / denom as nat);
    if nanos > u64::MAX as u128 {
        return Err(Fault::new(FaultKind::Other, "Darwin continuous clock range exceeded"));
    }
    Ok(nanos as u64)
}

/// An instant some time after another, where it is within range.
pub open spec fn after(origin: u64, nanos: nat) -> Result<u64, Fault> {
    if origin + nanos <= u64::MAX {
        Ok((origin + nanos) as u64)
    } else {
        Err(Fault::found(FaultKind::InvalidInput, "deadline range exceeded"))
    }
}

/// The instant that lies `duration` after `origin`.
pub fn add(origin: u64, duration: Duration) -> (r: Result<u64, Fault>)
    ensures
        r == after(origin, duration@),
{
    let nanos: u128 = duration.as_nanos();
    if nanos <= (u64::MAX - origin) as u128 {
        Ok(origin + nanos as u64)
    } else {
        Err(Fault::new(FaultKind::InvalidInput, "deadline range exceeded"))
    }
}

/// What is left, at `observed`, of the time to retire a workload that is forced at
/// `force`.
pub fn remaining_retirement(force: u64, observed: u64, reserve: Duration) -> (r: Result<
    Duration,
    Fault,
>)
    ensures
        match after(force, reserve@) {
            Ok(end) => r matches Ok(left) && left@ == floor_sub(end as nat, observed as nat),
            Err(fault) => r == Err::<Duration, Fault>(fault),
        },
{
    match self::add(force, reserve) {
        Ok(end) => Ok(
            Duration::from_nanos(
                if end >= observed {
                    end - observed
                } else {
                    0
                },
            ),
        ),
        Err(fault) => Err(fault),
    }
}

/// What `retirement_mutation_probe` comes to.
pub open spec fn probed_retirement(
    force: u64,
    observed: u64,
    work_expiry: u64,
    clamp: bool,
) -> Result<nat, Fault> {
    match after(force, 3_000_000_000) {
        Err(fault) => Err(fault),
        Ok(end) => if clamp {
            Ok(
                least(
                    floor_sub(end as nat, observed as nat),
                    floor_sub(work_expiry as nat, observed as nat),
                ),
            )
        } else {
            Ok(floor_sub(end as nat, observed as nat))
        },
    }
}

/// The time left to retire a workload, with a reserve of three seconds. With
/// `clamp` it is wrongly cut off where the work's own time ends; a check that tells
/// the two apart shows that it looks.
pub fn retirement_mutation_probe(force: u64, observed: u64, work_expiry: u64, clamp: bool) -> (r:
    Result<Duration, Fault>)
    ensures
        match r {
            Ok(left) => probed_retirement(force, observed, work_expiry, clamp) == Ok::<nat, Fault>(
                left@,
            ),
            Err(fault) => probed_retirement(force, observed, work_expiry, clamp) == Err::<
                nat,
                Fault,
            >(fault),
        },
{
    let correct = match remaining_retirement(force, observed, Duration::from_secs(3)) {
        Ok(left) => left,
        Err(fault) => {
            return Err(fault);
        },
    };
    if clamp {
        let rest: u64 = if work_expiry >= observed {
            work_expiry - observed
        } else {
            0
        };
        Ok(correct.min(Duration::from_nanos(rest)))
    } else {
        Ok(correct)
    }
}

/// The bytes of a boot's identity: what was filled, without the zero at its end.
pub open spec fn identity_bytes(bytes: Seq<u8>, length: nat) -> Option<Seq<u8>> {
    if length == 0 || length > bytes.len() || bytes[length - 1] != 0 {
        None
    } else {
        let value = bytes.take(length - 1);
        if value.len() == 0 || value.contains(0u8) {
            None
        } else {
            Some(value)
        }
    }
}

/// The identity of a boot, read from a buffer of which `length` bytes were filled.
pub fn boot_identity(bytes: &[u8], length: usize) -> (r: Result<String, Fault>)
    ensures
        match identity_bytes(bytes@, length as nat) {
            None => r == Err::<String, Fault>(
                Fault::found(FaultKind::Other, "invalid bounded boot-session identity"),
            ),
            Some(value) => if vstd::utf8::valid_utf8(value) {
                r matches Ok(text) && text@ == vstd::utf8::decode_utf8(value)
            } else {
                r == Err::<String, Fault>(
                    Fault::found(FaultKind::Other, "boot-session identity is not UTF-8"),
                )
            },
        },
{
    if length == 0 || length > bytes.len() || bytes[length - 1] != 0 {
        return Err(Fault::new(FaultKind::Other, "invalid bounded boot-session identity"));
    }
    let value = slice_of(bytes, 0, length - 1);
    assert(value@ =~= bytes@.take(length - 1));
    if value.len() == 0 {
        return Err(Fault::new(FaultKind::Other, "invalid bounded boot-session identity"));
    }
    let mut i: usize = 0;
    while i < value.len()
        invariant
            i <= value.len(),
            forall|k: int| 0 <= k < i ==> value@[k] != 0,
            value@ == bytes@.take(length - 1),
            0 < length <= bytes@.len(),
            bytes@[length - 1] == 0,
            value@.len() > 0,
        decreases value.len() - i,
    {
        if value[i] == 0 {
            assert(value@.contains(0u8));
            return Err(Fault::new(FaultKind::Other, "invalid bounded boot-session identity"));
        }
        i += 1;
    }
    match utf8_text(value.as_slice()) {
        Some(text) => Ok(text.to_owned()),
        None => Err(Fault::new(FaultKind::Other, "boot-session identity is not UTF-8")),
    }
}

/// The time to retire a workload does not depend on when its work was to end, and
/// cutting it off there never leaves more.
pub proof fn retirement_ignores_work_expiry(force: u64, observed: u64, first: u64, second: u64)
    ensures
        probed_retirement(force, observed, first, false) == probed_retirement(
            force,
            observed,
            second,
            false,
        ),
        probed_retirement(force, observed, first, true) matches Ok(cut) ==> probed_retirement(
            force,
            observed,
            first,
            false,
        ) matches Ok(whole) && cut <= whole,
{
}

} // verus!
