//! The launch request of the sealed provider, byte for byte.

use vstd::prelude::*;
use vstd::string::*;

use crate::bytes::{be16, be32, be64, put, put_be16, put_be32, put_be64};
use crate::policy::{AttemptContext, DeadlineScope, Lifetime, Policy, SwapPolicy};
use crate::sealed::frame::PRIVATE_VERSION;
use crate::time::{floor_sub, Duration};

verus! {

/// The length of the longest value that a request holds.
pub const MAX_NATIVE_VALUE: usize = 65536;

/// The largest number of arguments.
pub const MAX_ARGUMENTS: usize = 4096;

/// The largest number of environment entries.
pub const MAX_ENVIRONMENT_ENTRIES: usize = 8192;

/// One entry of the environment.
#[derive(Debug)]
pub struct EnvironmentEntry {
    pub name: Vec<u8>,
    pub value: Vec<u8>,
}

/// What is to be run, and in which environment.
#[derive(Debug)]
pub struct LaunchCommand {
    pub program: Vec<u8>,
    pub arguments: Vec<Vec<u8>>,
    pub environment: Vec<EnvironmentEntry>,
}

/// Whether a value is short enough for a request.
pub open spec fn fits(value: Seq<u8>) -> bool {
    value.len() <= MAX_NATIVE_VALUE
}

/// A value with its length in front.
pub open spec fn sized(value: Seq<u8>) -> Seq<u8> {
    be32(value.len() as u32) + value
}

/// A number that may be absent: one byte that says so, and the number.
pub open spec fn optional(value: Option<u64>) -> Seq<u8> {
    match value {
        Some(n) => seq![1u8] + be64(n),
        None => seq![0u8],
    }
}

/// The first arguments, one after another.
pub open spec fn arguments_bytes(arguments: Seq<Vec<u8>>) -> Seq<u8>
    decreases arguments.len(),
{
    if arguments.len() == 0 {
        Seq::empty()
    } else {
        arguments_bytes(arguments.drop_last()) + sized(arguments.last()@)
    }
}

/// The first environment entries, one after another.
pub open spec fn environment_bytes(environment: Seq<EnvironmentEntry>) -> Seq<u8>
    decreases environment.len(),
{
    if environment.len() == 0 {
        Seq::empty()
    } else {
        environment_bytes(environment.drop_last()) + sized(environment.last().name@) + sized(
            environment.last().value@,
        )
    }
}

/// Whether every argument fits.
pub open spec fn arguments_fit(arguments: Seq<Vec<u8>>) -> bool {
    forall|i: int| 0 <= i < arguments.len() ==> fits(#[trigger] arguments[i]@)
}

/// Whether an environment entry fits.
pub open spec fn entry_fits(entry: EnvironmentEntry) -> bool {
    fits(entry.name@) && fits(entry.value@)
}

/// Whether every environment entry fits.
pub open spec fn environment_fits(environment: Seq<EnvironmentEntry>) -> bool {
    forall|i: int| 0 <= i < environment.len() ==> entry_fits(#[trigger] environment[i])
}

/// How a request speaks of swap.
pub open spec fn swap_bytes(swap: SwapPolicy) -> Seq<u8> {
    match swap {
        SwapPolicy::Bytes(n) => seq![1u8] + be64(n),
        SwapPolicy::Unlimited => seq![2u8],
        SwapPolicy::Host => seq![3u8],
    }
}

/// How a request speaks of a deadline's scope.
pub open spec fn scope_byte(policy: Policy) -> u8 {
    match policy.deadline {
        Some(deadline) => match deadline.scope {
            DeadlineScope::Attempt => 1,
            DeadlineScope::Supervision => 2,
        },
        None => 1,
    }
}

/// How a request speaks of a lifetime.
pub open spec fn lifetime_byte(lifetime: Lifetime) -> u8 {
    match lifetime {
        Lifetime::Command => 1,
        Lifetime::Workload => 2,
    }
}

/// The low sixty-four bits of a span's milliseconds.
pub open spec fn wrapped_millis(nanos: nat) -> u64 {
    (nanos / 1_000_000 % 0x1_0000_0000_0000_0000) as u64
}

/// The workload contract in a request, if it has one.
pub open spec fn contract_bytes(contract: Option<Seq<u8>>) -> Seq<u8> {
    match contract {
        Some(bytes) => seq![1u8] + sized(bytes),
        None => seq![0u8],
    }
}

/// What comes before the limits in a launch request.
pub open spec fn command_bytes(command: LaunchCommand, restart_attempt: u64) -> Seq<u8> {
    be16(3) + be64(restart_attempt) + sized(command.program@) + be32(
        command.arguments@.len() as u32,
    ) + arguments_bytes(command.arguments@) + be32(command.environment@.len() as u32)
        + environment_bytes(command.environment@)
}

/// The spans in a launch request.
pub open spec fn span_bytes(policy: Policy) -> Seq<u8> {
    be64(wrapped_millis(policy.poll_interval@)) + be64(wrapped_millis(policy.signal_grace@))
        + be64(wrapped_millis(policy.command_exit_grace@)) + be64(
        wrapped_millis(policy.limit_grace@),
    )
}

/// The descriptors that go with a launch request.
pub open spec fn descriptor_bytes() -> Seq<u8> {
    be32(5) + seq![1u8, 2, 3, 4, 5]
}

/// The limits, graces and descriptors in a launch request.
pub open spec fn policy_bytes(policy: Policy, deadline: Option<u64>) -> Seq<u8> {
    optional(policy.memory) + swap_bytes(policy.swap) + optional(deadline) + seq![
        scope_byte(policy),
        lifetime_byte(policy.lifetime),
    ] + span_bytes(policy) + descriptor_bytes()
}

/// A launch request.
pub open spec fn launch_bytes(
    policy: Policy,
    command: LaunchCommand,
    deadline: Option<u64>,
    restart_attempt: u64,
    contract: Option<Seq<u8>>,
) -> Seq<u8> {
    command_bytes(command, restart_attempt) + policy_bytes(policy, deadline) + contract_bytes(
        contract,
    )
}

/// The instant, in milliseconds, by which the target must be gone, or why there
/// is none.
pub open spec fn absolute_deadline(budget: Option<Duration>, clock: Result<u64, String>) -> Result<
    Option<u64>,
    Seq<char>,
> {
    match budget {
        None => Ok(None),
        Some(span) => match clock {
            Err(fault) => Err(fault@),
            Ok(now) => if span@ / 1_000_000 > u64::MAX {
                Err("sealed deadline exceeds protocol range"@)
            } else if now + span@ / 1_000_000 > u64::MAX {
                Ok(Some(u64::MAX))
            } else {
                Ok(Some((now + span@ / 1_000_000) as u64))
            },
        },
    }
}

/// The workload contract as it goes out, or why it cannot.
pub open spec fn contract_of(contract: Option<Result<Vec<u8>, String>>) -> Result<
    Option<Seq<u8>>,
    Seq<char>,
> {
    match contract {
        None => Ok(None),
        Some(Err(fault)) => Err(fault@),
        Some(Ok(bytes)) => if fits(bytes@) {
            Ok(Some(bytes@))
        } else {
            Err("launch native value exceeds protocol limit"@)
        },
    }
}

/// A launch request, or why there is none.
pub open spec fn launch_of(
    policy: Policy,
    command: LaunchCommand,
    budget: Option<Duration>,
    restart_attempt: u64,
    clock: Result<u64, String>,
    contract: Option<Result<Vec<u8>, String>>,
) -> Result<Seq<u8>, Seq<char>> {
    if command.arguments@.len() > MAX_ARGUMENTS {
        Err("launch argument count exceeds protocol limit"@)
    } else if !fits(command.program@) || !arguments_fit(command.arguments@) {
        Err("launch native value exceeds protocol limit"@)
    } else if command.environment@.len() > MAX_ENVIRONMENT_ENTRIES {
        Err("launch environment count exceeds protocol limit"@)
    } else if !environment_fits(command.environment@) {
        Err("launch native value exceeds protocol limit"@)
    } else {
        match absolute_deadline(budget, clock) {
            Err(fault) => Err(fault),
            Ok(deadline) => match contract_of(contract) {
                Err(fault) => Err(fault),
                Ok(contract) => Ok(
                    launch_bytes(policy, command, deadline, restart_attempt, contract),
                ),
            },
        }
    }
}

/// A count in four bytes.
pub fn put_count(output: &mut Vec<u8>, value: usize) -> (r: Result<(), &'static str>)
    ensures
        match r {
            Ok(_) => value <= u32::MAX && final(output)@ == old(output)@ + be32(value as u32),
            Err(text) => value > u32::MAX && text == "launch count overflow" && final(output)@
                == old(output)@,
        },
{
    if value > u32::MAX as usize {
        return Err("launch count overflow");
    }
    put_be32(output, value as u32);
    Ok(())
}

/// A value with its length in front.
pub fn put_bytes(output: &mut Vec<u8>, value: &[u8]) -> (r: Result<(), &'static str>)
    ensures
        match r {
            Ok(_) => fits(value@) && final(output)@ == old(output)@ + sized(value@),
            Err(text) => !fits(value@) && text == "launch native value exceeds protocol limit"
                && final(output)@ == old(output)@,
        },
{
    if value.len() > MAX_NATIVE_VALUE {
        return Err("launch native value exceeds protocol limit");
    }
    let ghost before = output@;
    put_be32(output, value.len() as u32);
    put(output, value);
    assert(output@ =~= before + sized(value@));
    Ok(())
}

/// A number that may be absent.
pub fn put_optional(output: &mut Vec<u8>, value: Option<u64>)
    ensures
        final(output)@ == old(output)@ + optional(value),
{
    let ghost before = output@;
    match value {
        Some(n) => {
            output.push(1);
            put_be64(output, n);
        },
        None => {
            output.push(0);
        },
    }
    assert(output@ =~= before + optional(value));
}

fn put_arguments(output: &mut Vec<u8>, arguments: &Vec<Vec<u8>>) -> (r: Result<(), &'static str>)
    ensures
        match r {
            Ok(_) => arguments_fit(arguments@) && final(output)@ == old(output)@ + arguments_bytes(
                arguments@,
            ),
            Err(text) => !arguments_fit(arguments@) && text
                == "launch native value exceeds protocol limit",
        },
{
    let ghost before = output@;
    let mut i: usize = 0;
    assert(output@ =~= before + arguments_bytes(arguments@.take(0)));
    while i < arguments.len()
        invariant
            i <= arguments.len(),
            arguments_fit(arguments@.take(i as int)),
            output@ == before + arguments_bytes(arguments@.take(i as int)),
        decreases arguments.len() - i,
    {
        let ghost so_far = arguments@.take(i as int);
        match put_bytes(output, arguments[i].as_slice()) {
            Ok(_) => {},
            Err(text) => {
                assert(!fits(arguments@[i as int]@));
                return Err(text);
            },
        }
        i += 1;
        proof {
            let next = arguments@.take(i as int);
            assert(next.drop_last() =~= so_far);
            assert(next.last() == arguments@[i - 1]);
            assert forall|k: int| 0 <= k < next.len() implies fits(#[trigger] next[k]@) by {
                if k < i - 1 {
                    assert(so_far[k] == next[k]);
                }
            }
            assert(output@ =~= before + arguments_bytes(next));
        }
    }
    assert(arguments@.take(i as int) =~= arguments@);
    Ok(())
}

fn put_environment(output: &mut Vec<u8>, environment: &Vec<EnvironmentEntry>) -> (r: Result<
    (),
    &'static str,
>)
    ensures
        match r {
            Ok(_) => environment_fits(environment@) && final(output)@ == old(output)@
                + environment_bytes(environment@),
            Err(text) => !environment_fits(environment@) && text
                == "launch native value exceeds protocol limit",
        },
{
    let ghost before = output@;
    let mut i: usize = 0;
    assert(output@ =~= before + environment_bytes(environment@.take(0)));
    while i < environment.len()
        invariant
            i <= environment.len(),
            environment_fits(environment@.take(i as int)),
            output@ == before + environment_bytes(environment@.take(i as int)),
        decreases environment.len() - i,
    {
        let ghost so_far = environment@.take(i as int);
        let entry = &environment[i];
        match put_bytes(output, entry.name.as_slice()) {
            Ok(_) => {},
            Err(text) => {
                assert(!entry_fits(environment@[i as int]));
                return Err(text);
            },
        }
        match put_bytes(output, entry.value.as_slice()) {
            Ok(_) => {},
            Err(text) => {
                assert(!entry_fits(environment@[i as int]));
                return Err(text);
            },
        }
        i += 1;
        proof {
            let next = environment@.take(i as int);
            assert(next.drop_last() =~= so_far);
            assert(next.last() == environment@[i - 1]);
            assert forall|k: int| 0 <= k < next.len() implies entry_fits(#[trigger] next[k]) by {
                if k < i - 1 {
                    assert(so_far[k] == next[k]);
                }
            }
            assert(output@ =~= before + environment_bytes(next));
        }
    }
    assert(environment@.take(i as int) =~= environment@);
    Ok(())
}

fn low_millis(span: Duration) -> (r: u64)
    ensures
        r == wrapped_millis(span@),
{
    let millis: u128 = span.as_millis();
    (millis % 0x1_0000_0000_0000_0000) as u64
}

fn put_swap(output: &mut Vec<u8>, swap: SwapPolicy)
    ensures
        final(output)@ == old(output)@ + swap_bytes(swap),
{
    let ghost before = output@;
    match swap {
        SwapPolicy::Bytes(n) => {
            output.push(1);
            put_be64(output, n);
        },
        SwapPolicy::Unlimited => {
            output.push(2);
        },
        SwapPolicy::Host => {
            output.push(3);
        },
    }
    assert(output@ =~= before + swap_bytes(swap));
}

fn put_spans(output: &mut Vec<u8>, policy: &Policy)
    ensures
        final(output)@ == old(output)@ + span_bytes(*policy),
{
    let ghost before = output@;
    put_be64(output, low_millis(policy.poll_interval));
    put_be64(output, low_millis(policy.signal_grace));
    put_be64(output, low_millis(policy.command_exit_grace));
    put_be64(output, low_millis(policy.limit_grace));
    proof {
        let a = be64(wrapped_millis(policy.poll_interval@));
        let b = be64(wrapped_millis(policy.signal_grace@));
        let c = be64(wrapped_millis(policy.command_exit_grace@));
        let d = be64(wrapped_millis(policy.limit_grace@));
        assert(before + a + b + c + d =~= before + (a + b + c + d));
    }
}

fn put_descriptors(output: &mut Vec<u8>)
    ensures
        final(output)@ == old(output)@ + descriptor_bytes(),
{
    let ghost before = output@;
    put_be32(output, 5);
    output.push(1);
    output.push(2);
    output.push(3);
    output.push(4);
    output.push(5);
    assert(output@ =~= before + be32(5) + seq![1u8, 2, 3, 4, 5]);
    assert(output@ =~= before + descriptor_bytes());
}

fn put_policy(output: &mut Vec<u8>, policy: &Policy, deadline: Option<u64>)
    ensures
        final(output)@ == old(output)@ + policy_bytes(*policy, deadline),
{
    let ghost before = output@;
    put_optional(output, policy.memory);
    put_swap(output, policy.swap);
    put_optional(output, deadline);
    let ghost midway = output@;
    let scope: u8 = match policy.deadline {
        Some(value) => match value.scope {
            DeadlineScope::Attempt => 1,
            DeadlineScope::Supervision => 2,
        },
        None => 1,
    };
    output.push(scope);
    let lifetime: u8 = match policy.lifetime {
        Lifetime::Command => 1,
        Lifetime::Workload => 2,
    };
    output.push(lifetime);
    assert(output@ =~= midway + seq![scope_byte(*policy), lifetime_byte(policy.lifetime)]);
    put_spans(output, policy);
    put_descriptors(output);
    proof {
        let a = optional(policy.memory);
        let b = swap_bytes(policy.swap);
        let c = optional(deadline);
        let d = seq![scope_byte(*policy), lifetime_byte(policy.lifetime)];
        let e = span_bytes(*policy);
        let f = descriptor_bytes();
        assert(before + a + b + c + d + e + f =~= before + (a + b + c + d + e + f));
    }
}

fn deadline_millis(budget: Option<Duration>, clock: Result<u64, String>) -> (r: Result<
    Option<u64>,
    String,
>)
    ensures
        match r {
            Ok(deadline) => absolute_deadline(budget, clock) == Ok::<Option<u64>, Seq<char>>(
                deadline,
            ),
            Err(text) => absolute_deadline(budget, clock) == Err::<Option<u64>, Seq<char>>(text@),
        },
{
    match budget {
        None => Ok(None),
        Some(span) => match clock {
            Err(fault) => Err(fault),
            Ok(now) => {
                let millis: u128 = span.as_millis();
                if millis > u64::MAX as u128 {
                    return Err("sealed deadline exceeds protocol range".to_owned());
                }
                Ok(Some(now.saturating_add(millis as u64)))
            },
        },
    }
}

/// Writes a launch request. `clock` is what the monotonic clock says, in
/// milliseconds, and `contract` the encoded workload contract; either may have
/// failed.
pub fn encode_launch(
    policy: &Policy,
    command: &LaunchCommand,
    deadline_budget: Option<Duration>,
    restart_attempt: u64,
    clock: Result<u64, String>,
    contract: Option<Result<Vec<u8>, String>>,
) -> (r: Result<Vec<u8>, String>)
    ensures
        match r {
            Ok(bytes) => launch_of(
                *policy,
                *command,
                deadline_budget,
                restart_attempt,
                clock,
                contract,
            ) == Ok::<Seq<u8>, Seq<char>>(bytes@),
            Err(text) => launch_of(
                *policy,
                *command,
                deadline_budget,
                restart_attempt,
                clock,
                contract,
            ) == Err::<Seq<u8>, Seq<char>>(text@),
        },
{
    if command.arguments.len() > MAX_ARGUMENTS {
        return Err("launch argument count exceeds protocol limit".to_owned());
    }
    let mut output: Vec<u8> = Vec::new();
    put_be16(&mut output, 3);
    put_be64(&mut output, restart_attempt);
    match put_bytes(&mut output, command.program.as_slice()) {
        Ok(_) => {},
        Err(text) => {
            return Err(text.to_owned());
        },
    }
    match put_count(&mut output, command.arguments.len()) {
        Ok(_) => {},
        Err(text) => {
            return Err(text.to_owned());
        },
    }
    match put_arguments(&mut output, &command.arguments) {
        Ok(_) => {},
        Err(text) => {
            return Err(text.to_owned());
        },
    }
    if command.environment.len() > MAX_ENVIRONMENT_ENTRIES {
        return Err("launch environment count exceeds protocol limit".to_owned());
    }
    match put_count(&mut output, command.environment.len()) {
        Ok(_) => {},
        Err(text) => {
            return Err(text.to_owned());
        },
    }
    match put_environment(&mut output, &command.environment) {
        Ok(_) => {},
        Err(text) => {
            return Err(text.to_owned());
        },
    }
    assert(output@ =~= command_bytes(*command, restart_attempt));
    let deadline = match deadline_millis(deadline_budget, clock) {
        Ok(deadline) => deadline,
        Err(text) => {
            return Err(text);
        },
    };
    put_policy(&mut output, policy, deadline);
    let ghost before = output@;
    match contract {
        None => {
            output.push(0);
        },
        Some(Err(fault)) => {
            return Err(fault);
        },
        Some(Ok(bytes)) => {
            output.push(1);
            match put_bytes(&mut output, bytes.as_slice()) {
                Ok(_) => {},
                Err(text) => {
                    return Err(text.to_owned());
                },
            }
        },
    }
    proof {
        let written = contract_of(contract)->Ok_0;
        assert(output@ =~= before + contract_bytes(written));
        assert(output@ =~= launch_bytes(*policy, *command, deadline, restart_attempt, written));
    }
    Ok(output)
}

/// What a monotonic clock's reading is worth in milliseconds, or why it is
/// refused.
pub open spec fn clock_millis(seconds: int, nanoseconds: int) -> Result<u64, &'static str> {
    if seconds < 0 || nanoseconds < 0 || nanoseconds >= 1_000_000_000 {
        Err("sealed monotonic clock returned an invalid timespec")
    } else if seconds * 1000 + nanoseconds / 1_000_000 > u64::MAX {
        Ok(u64::MAX)
    } else {
        Ok((seconds * 1000 + nanoseconds / 1_000_000) as u64)
    }
}

/// What a monotonic clock's reading is worth in milliseconds.
pub fn monotonic_millis(seconds: i64, nanoseconds: i64) -> (r: Result<u64, &'static str>)
    ensures
        r == clock_millis(seconds as int, nanoseconds as int),
{
    if seconds < 0 || nanoseconds < 0 || nanoseconds >= 1_000_000_000 {
        return Err("sealed monotonic clock returned an invalid timespec");
    }
    let millis: u128 = seconds as u128 * 1000 + nanoseconds as u128 / 1_000_000;
    if millis > u64::MAX as u128 {
        Ok(u64::MAX)
    } else {
        Ok(millis as u64)
    }
}

/// How long the attempt may still run, if a deadline bounds it.
pub open spec fn effective_deadline(policy: Policy, context: AttemptContext, elapsed: nat) -> Option<
    nat,
> {
    match policy.deadline {
        None => None,
        Some(deadline) => match deadline.scope {
            DeadlineScope::Attempt => Some(deadline.duration@),
            DeadlineScope::Supervision => match context.supervision_deadline_remaining {
                None => Some(deadline.duration@),
                Some(remaining) => Some(floor_sub(remaining@, elapsed)),
            },
        },
    }
}

/// How long the attempt may still run: setting it up takes nothing from an
/// attempt's own deadline, but does from the supervision's.
pub fn effective_deadline_duration(
    policy: &Policy,
    context: AttemptContext,
    setup_elapsed: Duration,
) -> (r: Option<Duration>)
    ensures
        match r {
            Some(span) => effective_deadline(*policy, context, setup_elapsed@) == Some(span@),
            None => effective_deadline(*policy, context, setup_elapsed@) is None,
        },
{
    match policy.deadline {
        None => None,
        Some(deadline) => match deadline.scope {
            DeadlineScope::Attempt => Some(deadline.duration),
            DeadlineScope::Supervision => match context.supervision_deadline_remaining {
                None => Some(deadline.duration),
                Some(remaining) => Some(remaining.saturating_sub(setup_elapsed)),
            },
        },
    }
}

/// What a private launch request binds itself to: digests of the registry, of the
/// installed qualification and of the contract.
#[derive(Debug)]
pub struct PrivateBinding {
    pub registry_digest: Vec<u8>,
    pub qualification_digest: Vec<u8>,
    pub contract_digest: Vec<u8>,
}

/// The plan that a private launch holds the provider to.
#[derive(Debug)]
pub struct PlanPrecondition {
    pub contract_digest: Vec<u8>,
    pub generation_digest: Vec<u8>,
}

/// The plan's digests at the end of a private launch request.
pub open spec fn precondition_bytes(precondition: Option<PlanPrecondition>) -> Seq<u8> {
    match precondition {
        Some(plan) => plan.contract_digest@ + plan.generation_digest@,
        None => Seq::empty(),
    }
}

/// The version of a private launch request.
pub open spec fn private_request_version(precondition: Option<PlanPrecondition>) -> u16 {
    if precondition is Some {
        5
    } else {
        PRIVATE_VERSION
    }
}

/// A private launch request.
pub open spec fn private_bytes(
    binding: PrivateBinding,
    contract: Seq<u8>,
    launch: Seq<u8>,
    precondition: Option<PlanPrecondition>,
) -> Seq<u8> {
    be16(private_request_version(precondition)) + binding.registry_digest@
        + binding.qualification_digest@ + binding.contract_digest@ + sized(contract) + sized(launch)
        + precondition_bytes(precondition)
}

/// Writes a private launch request around a launch and a contract that are
/// already encoded.
pub fn encode_private_v2_with_plan(
    binding: &PrivateBinding,
    contract: &[u8],
    launch: &[u8],
    precondition: &Option<PlanPrecondition>,
) -> (r: Result<Vec<u8>, &'static str>)
    ensures
        match r {
            Ok(bytes) => fits(contract@) && fits(launch@) && bytes@ == private_bytes(
                *binding,
                contract@,
                launch@,
                *precondition,
            ),
            Err(text) => (!fits(contract@) || !fits(launch@)) && text
                == "launch native value exceeds protocol limit",
        },
{
    let mut encoded: Vec<u8> = Vec::new();
    let request_version: u16 = match precondition {
        Some(_) => 5,
        None => PRIVATE_VERSION,
    };
    put_be16(&mut encoded, request_version);
    put(&mut encoded, binding.registry_digest.as_slice());
    put(&mut encoded, binding.qualification_digest.as_slice());
    put(&mut encoded, binding.contract_digest.as_slice());
    match put_bytes(&mut encoded, contract) {
        Ok(_) => {},
        Err(text) => {
            return Err(text);
        },
    }
    match put_bytes(&mut encoded, launch) {
        Ok(_) => {},
        Err(text) => {
            return Err(text);
        },
    }
    match precondition {
        Some(plan) => {
            put(&mut encoded, plan.contract_digest.as_slice());
            put(&mut encoded, plan.generation_digest.as_slice());
        },
        None => {},
    }
    assert(encoded@ =~= private_bytes(*binding, contract@, launch@, *precondition));
    Ok(encoded)
}

/// An attempt's own deadline is not shortened by setting the attempt up, and no
/// deadline leaves more than the supervision has left.
pub proof fn setup_shortens_supervision_only(
    policy: Policy,
    context: AttemptContext,
    elapsed: nat,
)
    requires
        policy.deadline is Some,
    ensures
        policy.deadline->0.scope == DeadlineScope::Attempt ==> effective_deadline(
            policy,
            context,
            elapsed,
        ) == Some(policy.deadline->0.duration@),
        policy.deadline->0.scope == DeadlineScope::Supervision
            && context.supervision_deadline_remaining is Some ==> effective_deadline(
            policy,
            context,
            elapsed,
        )->0 <= context.supervision_deadline_remaining->0@,
{
}

} // verus!
