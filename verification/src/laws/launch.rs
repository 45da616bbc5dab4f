//! The launch request of the sealed provider, as its reader sees it.

use vstd::prelude::*;

use crate::bytes::{be16, be32, be64};
use crate::policy::{AttemptContext, Deadline, DeadlineScope, Lifetime, Policy, SwapPolicy};
use crate::sealed::launch::{
    arguments_bytes, arguments_fit, command_bytes, contract_bytes, contract_of, descriptor_bytes,
    effective_deadline_duration, encode_launch, encode_private_v2_with_plan, environment_bytes,
    environment_fits, launch_bytes, lifetime_byte, monotonic_millis, optional, policy_bytes,
    scope_byte, sized, span_bytes, swap_bytes, wrapped_millis, EnvironmentEntry, LaunchCommand,
    PlanPrecondition, PrivateBinding,
};
use crate::time::Duration;

verus! {

/// The number that bytes hold, the most significant one first.
pub open spec fn number(s: Seq<u8>) -> nat
    decreases s.len(),
{
    if s.len() == 0 {
        0
    } else {
        number(s.drop_last()) * 256 + s.last() as nat
    }
}

/// Reads a number of some bytes: the number, and what is behind it.
pub open spec fn read_number(s: Seq<u8>, width: int) -> (nat, Seq<u8>) {
    (number(s.take(width)), s.skip(width))
}

/// Reads a value with its length in front.
pub open spec fn read_value(s: Seq<u8>) -> (Seq<u8>, Seq<u8>) {
    let n = number(s.take(4)) as int;
    (s.subrange(4, 4 + n), s.skip(4 + n))
}

/// Reads some values, one after another.
pub open spec fn read_values(s: Seq<u8>, count: nat) -> (Seq<Seq<u8>>, Seq<u8>)
    decreases count,
{
    if count == 0 {
        (Seq::empty(), s)
    } else {
        let (first, behind) = read_value(s);
        let (others, rest) = read_values(behind, (count - 1) as nat);
        (seq![first] + others, rest)
    }
}

/// Reads a number that may be absent.
pub open spec fn read_optional(s: Seq<u8>) -> (Option<nat>, Seq<u8>) {
    if s[0] == 1 {
        let (n, rest) = read_number(s.skip(1), 8);
        (Some(n), rest)
    } else {
        (None, s.skip(1))
    }
}

/// What a reader finds in a launch request about the command.
pub struct CommandFound {
    pub version: nat,
    pub attempt: nat,
    pub program: Seq<u8>,
    pub arguments: Seq<Seq<u8>>,
    pub environment: Seq<Seq<u8>>,
}

/// What a reader finds in a launch request about the limits.
pub struct LimitsFound {
    pub memory: Option<nat>,
    pub swap_mark: u8,
    pub swap: Option<nat>,
    pub deadline: Option<nat>,
    pub scope: u8,
    pub lifetime: u8,
    pub poll_interval: nat,
    pub signal_grace: nat,
    pub command_exit_grace: nat,
    pub limit_grace: nat,
    pub descriptors: Seq<u8>,
}

/// What a reader finds in a launch request.
pub struct Request {
    pub command: CommandFound,
    pub limits: LimitsFound,
    pub contract: Option<Seq<u8>>,
    pub rest: Seq<u8>,
}

/// Reads what a launch request says about the command.
#[verifier::opaque]
pub open spec fn read_command(s: Seq<u8>) -> (CommandFound, Seq<u8>) {
    let (version, s) = read_number(s, 2);
    let (attempt, s) = read_number(s, 8);
    let (program, s) = read_value(s);
    let (count, s) = read_number(s, 4);
    let (arguments, s) = read_values(s, count);
    let (entries, s) = read_number(s, 4);
    let (environment, s) = read_values(s, 2 * entries);
    (CommandFound { version, attempt, program, arguments, environment }, s)
}

/// Reads what a launch request says about the limits.
#[verifier::opaque]
pub open spec fn read_limits(s: Seq<u8>) -> (LimitsFound, Seq<u8>) {
    let (memory, s) = read_optional(s);
    let swap_mark = s[0];
    let (swap, s) = read_optional(s);
    let (deadline, s) = read_optional(s);
    let scope = s[0];
    let lifetime = s[1];
    let (poll_interval, s) = read_number(s.skip(2), 8);
    let (signal_grace, s) = read_number(s, 8);
    let (command_exit_grace, s) = read_number(s, 8);
    let (limit_grace, s) = read_number(s, 8);
    let (descriptors, s) = read_value(s);
    (
        LimitsFound {
            memory,
            swap_mark,
            swap,
            deadline,
            scope,
            lifetime,
            poll_interval,
            signal_grace,
            command_exit_grace,
            limit_grace,
            descriptors,
        },
        s,
    )
}

/// Reads the contract at the end of a launch request.
#[verifier::opaque]
pub open spec fn read_contract(s: Seq<u8>) -> (Option<Seq<u8>>, Seq<u8>) {
    if s[0] == 1 {
        let (value, rest) = read_value(s.skip(1));
        (Some(value), rest)
    } else {
        (None, s.skip(1))
    }
}

/// Reads a launch request.
pub open spec fn read_request(s: Seq<u8>) -> Request {
    let (command, s) = read_command(s);
    let (limits, s) = read_limits(s);
    let (contract, rest) = read_contract(s);
    Request { command, limits, contract, rest }
}

proof fn number_behind(s: Seq<u8>, n: u16)
    ensures
        number(s + be16(n)) == number(s) * 65536 + n,
{
    let t = s + be16(n);
    let u = s + seq![(n / 256) as u8];
    assert(t.drop_last() =~= u);
    assert(u.drop_last() =~= s);
    assert(number(t) == number(u) * 256 + (n % 256));
    assert(number(u) == number(s) * 256 + (n / 256));
}

proof fn numbers_are_read(a: u16, b: u32, c: u64, rest: Seq<u8>)
    ensures
        read_number(be16(a) + rest, 2) == (a as nat, rest),
        read_number(be32(b) + rest, 4) == (b as nat, rest),
        read_number(be64(c) + rest, 8) == (c as nat, rest),
        be16(a).len() == 2 && be32(b).len() == 4 && be64(c).len() == 8,
        number(be32(b)) == b,
{
    let none = Seq::<u8>::empty();
    number_behind(none, a);
    assert(none + be16(a) =~= be16(a));
    assert((be16(a) + rest).take(2) =~= be16(a));
    assert((be16(a) + rest).skip(2) =~= rest);
    number32(b);
    assert((be32(b) + rest).take(4) =~= be32(b));
    assert((be32(b) + rest).skip(4) =~= rest);
    let high = (c / 4294967296) as u32;
    let low = (c % 4294967296) as u32;
    number32(high);
    let h = (low / 65536) as u16;
    let l = (low % 65536) as u16;
    number_behind(be32(high), h);
    number_behind(be32(high) + be16(h), l);
    assert(be32(high) + be16(h) + be16(l) =~= be64(c));
    assert((be64(c) + rest).take(8) =~= be64(c));
    assert((be64(c) + rest).skip(8) =~= rest);
}

proof fn number32(b: u32)
    ensures
        number(be32(b)) == b,
        be32(b).len() == 4,
{
    let none = Seq::<u8>::empty();
    let h = (b / 65536) as u16;
    let l = (b % 65536) as u16;
    number_behind(none, h);
    assert(none + be16(h) =~= be16(h));
    number_behind(be16(h), l);
}

proof fn values_are_read(value: Seq<u8>, rest: Seq<u8>)
    requires
        value.len() <= u32::MAX,
    ensures
        read_value(sized(value) + rest) == (value, rest),
{
    let s = sized(value) + rest;
    number32(value.len() as u32);
    assert(s.take(4) =~= be32(value.len() as u32));
    assert(s.subrange(4, 4 + value.len() as int) =~= value);
    assert(s.skip(4 + value.len() as int) =~= rest);
}

/// The bytes of some arguments with more behind them are the bytes of the ones and the bytes
/// of the others, in that order.
pub proof fn arguments_follow_each_other(a: Seq<Vec<u8>>, b: Seq<Vec<u8>>)
    ensures
        arguments_bytes(a + b) == arguments_bytes(a) + arguments_bytes(b),
    decreases b.len(),
{
    if b.len() == 0 {
        assert(a + b =~= a);
        assert(arguments_bytes(a) + Seq::empty() =~= arguments_bytes(a));
    } else {
        assert((a + b).drop_last() =~= a + b.drop_last());
        arguments_follow_each_other(a, b.drop_last());
        assert(arguments_bytes(a + b) =~= arguments_bytes(a) + arguments_bytes(b));
    }
}

/// The same of environment entries.
pub proof fn entries_follow_each_other(a: Seq<EnvironmentEntry>, b: Seq<EnvironmentEntry>)
    ensures
        environment_bytes(a + b) == environment_bytes(a) + environment_bytes(b),
    decreases b.len(),
{
    if b.len() == 0 {
        assert(a + b =~= a);
        assert(environment_bytes(a) + Seq::empty() =~= environment_bytes(a));
    } else {
        assert((a + b).drop_last() =~= a + b.drop_last());
        entries_follow_each_other(a, b.drop_last());
        assert(environment_bytes(a + b) =~= environment_bytes(a) + environment_bytes(b));
    }
}

/// A reader that knows their number gets the arguments back, each at its place.
pub proof fn arguments_are_read_back(a: Seq<Vec<u8>>, rest: Seq<u8>)
    requires
        forall|i: int| 0 <= i < a.len() ==> (#[trigger] a[i])@.len() <= u32::MAX,
    ensures
        ({
            let (found, behind) = read_values(arguments_bytes(a) + rest, a.len());
            &&& behind == rest
            &&& found.len() == a.len()
            &&& forall|i: int| 0 <= i < a.len() ==> found[i] == (#[trigger] a[i])@
        }),
    decreases a.len(),
{
    let s = arguments_bytes(a) + rest;
    if a.len() == 0 {
        assert(s =~= rest);
    } else {
        let one = seq![a[0]];
        let more = a.drop_first();
        assert(a =~= one + more);
        arguments_follow_each_other(one, more);
        assert(one.drop_last() =~= Seq::empty());
        assert(arguments_bytes(one.drop_last()) =~= Seq::empty());
        assert(arguments_bytes(one) =~= sized(a[0]@));
        assert(s =~= sized(a[0]@) + (arguments_bytes(more) + rest));
        values_are_read(a[0]@, arguments_bytes(more) + rest);
        arguments_are_read_back(more, rest);
        let (found, behind) = read_values(s, a.len());
        let (others, _) = read_values(arguments_bytes(more) + rest, more.len());
        assert(found =~= seq![a[0]@] + others);
        assert forall|i: int| 0 <= i < a.len() implies found[i] == (#[trigger] a[i])@ by {
            if i > 0 {
                assert(others[i - 1] == more[i - 1]@);
            }
        }
    }
}

/// A reader that knows their number gets the environment back: names and values by turns.
pub proof fn entries_are_read_back(a: Seq<EnvironmentEntry>, rest: Seq<u8>)
    requires
        forall|i: int|
            0 <= i < a.len() ==> (#[trigger] a[i]).name@.len() <= u32::MAX && a[i].value@.len()
                <= u32::MAX,
    ensures
        ({
            let (found, behind) = read_values(environment_bytes(a) + rest, 2 * a.len());
            &&& behind == rest
            &&& found.len() == 2 * a.len()
            &&& forall|i: int|
                0 <= i < a.len() ==> found[2 * i] == (#[trigger] a[i]).name@ && found[2 * i + 1]
                    == a[i].value@
        }),
    decreases a.len(),
{
    let s = environment_bytes(a) + rest;
    if a.len() == 0 {
        assert(s =~= rest);
    } else {
        let one = seq![a[0]];
        let more = a.drop_first();
        assert(a =~= one + more);
        entries_follow_each_other(one, more);
        assert(one.drop_last() =~= Seq::empty());
        assert(environment_bytes(one.drop_last()) =~= Seq::empty());
        assert(environment_bytes(one) =~= sized(a[0].name@) + sized(a[0].value@));
        let t = environment_bytes(more) + rest;
        assert(s =~= sized(a[0].name@) + (sized(a[0].value@) + t));
        values_are_read(a[0].name@, sized(a[0].value@) + t);
        values_are_read(a[0].value@, t);
        entries_are_read_back(more, rest);
        let (found, behind) = read_values(s, 2 * a.len());
        let (later, _) = read_values(sized(a[0].value@) + t, (2 * a.len() - 1) as nat);
        let (others, _) = read_values(t, 2 * more.len());
        assert(2 * a.len() - 2 == 2 * more.len());
        assert(later =~= seq![a[0].value@] + others);
        assert(found =~= seq![a[0].name@] + later);
        assert forall|i: int| 0 <= i < a.len() implies found[2 * i] == (#[trigger] a[i]).name@
            && found[2 * i + 1] == a[i].value@ by {
            if i > 0 {
                let e = more[i - 1];
                assert(others[2 * (i - 1)] == e.name@ && others[2 * (i - 1) + 1] == e.value@);
            }
        }
    }
}

proof fn optionals_are_read(value: Option<u64>, rest: Seq<u8>)
    ensures
        ({
            let (found, behind) = read_optional(optional(value) + rest);
            &&& behind == rest
            &&& found == match value {
                Some(n) => Some(n as nat),
                None => None,
            }
        }),
{
    let s = optional(value) + rest;
    match value {
        Some(n) => {
            numbers_are_read(0, 0, n, rest);
            assert(s.skip(1) =~= be64(n) + rest);
        },
        None => {
            assert(s.skip(1) =~= rest);
        },
    }
}

proof fn two_in_a_row(a: Seq<u8>, b: Seq<u8>, rest: Seq<u8>)
    ensures
        a + b + rest == a + (b + rest),
{
    assert(a + b + rest =~= a + (b + rest));
}

proof fn four_in_a_row(a: Seq<u8>, b: Seq<u8>, c: Seq<u8>, d: Seq<u8>, rest: Seq<u8>)
    ensures
        a + b + c + d + rest == a + (b + (c + (d + rest))),
{
    assert(a + b + c + d + rest =~= a + (b + (c + (d + rest))));
}

proof fn six_in_a_row(
    a: Seq<u8>,
    b: Seq<u8>,
    c: Seq<u8>,
    d: Seq<u8>,
    e: Seq<u8>,
    f: Seq<u8>,
    rest: Seq<u8>,
)
    ensures
        a + b + c + d + e + f + rest == a + (b + (c + (d + (e + (f + rest))))),
{
    four_in_a_row(a, b, c, d, e + (f + rest));
    assert(a + b + c + d + e + f + rest =~= a + b + c + d + (e + (f + rest)));
}

proof fn seven_in_a_row(
    a: Seq<u8>,
    b: Seq<u8>,
    c: Seq<u8>,
    d: Seq<u8>,
    e: Seq<u8>,
    f: Seq<u8>,
    g: Seq<u8>,
    rest: Seq<u8>,
)
    ensures
        a + b + c + d + e + f + g + rest == a + (b + (c + (d + (e + (f + (g + rest)))))),
{
    six_in_a_row(a, b, c, d, e, f, g + rest);
    assert(a + b + c + d + e + f + g + rest =~= a + b + c + d + e + f + (g + rest));
}

spec fn limits_found(policy: Policy, deadline: Option<u64>, rest: Seq<u8>) -> bool {
    let (q, s) = read_limits(policy_bytes(policy, deadline) + rest);
    &&& s == rest
    &&& q.memory == match policy.memory {
        Some(n) => Some(n as nat),
        None => None,
    }
    &&& match policy.swap {
        SwapPolicy::Bytes(n) => q.swap_mark == 1 && q.swap == Some(n as nat),
        SwapPolicy::Unlimited => q.swap_mark == 2 && q.swap is None,
        SwapPolicy::Host => q.swap_mark == 3 && q.swap is None,
    }
    &&& q.deadline == match deadline {
        Some(n) => Some(n as nat),
        None => None,
    }
    &&& q.scope == scope_byte(policy)
    &&& q.lifetime == lifetime_byte(policy.lifetime)
    &&& q.poll_interval == wrapped_millis(policy.poll_interval@)
    &&& q.signal_grace == wrapped_millis(policy.signal_grace@)
    &&& q.command_exit_grace == wrapped_millis(policy.command_exit_grace@)
    &&& q.limit_grace == wrapped_millis(policy.limit_grace@)
    &&& q.descriptors == seq![1u8, 2, 3, 4, 5]
}

#[verifier::rlimit(50)]
proof fn policies_are_read(policy: Policy, deadline: Option<u64>, rest: Seq<u8>)
    ensures
        limits_found(policy, deadline, rest),
{
    reveal(read_limits);
    let p = wrapped_millis(policy.poll_interval@);
    let g = wrapped_millis(policy.signal_grace@);
    let e = wrapped_millis(policy.command_exit_grace@);
    let l = wrapped_millis(policy.limit_grace@);
    let five = seq![1u8, 2, 3, 4, 5];
    let s9 = sized(five) + rest;
    assert(descriptor_bytes() =~= sized(five));
    values_are_read(five, rest);
    let s8 = be64(l) + s9;
    numbers_are_read(0, 0, l, s9);
    let s7 = be64(e) + s8;
    numbers_are_read(0, 0, e, s8);
    let s6 = be64(g) + s7;
    numbers_are_read(0, 0, g, s7);
    let s5 = be64(p) + s6;
    numbers_are_read(0, 0, p, s6);
    let marks = seq![scope_byte(policy), lifetime_byte(policy.lifetime)];
    let s4 = marks + s5;
    assert(s4.skip(2) =~= s5);
    let s3 = optional(deadline) + s4;
    optionals_are_read(deadline, s4);
    let s2 = swap_bytes(policy.swap) + s3;
    match policy.swap {
        SwapPolicy::Bytes(n) => {
            optionals_are_read(Some(n), s3);
            assert(s2 =~= optional(Some(n)) + s3);
        },
        _ => {
            assert(s2.skip(1) =~= s3);
        },
    }
    optionals_are_read(policy.memory, s2);
    let a = optional(policy.memory);
    let b = swap_bytes(policy.swap);
    let c = optional(deadline);
    four_in_a_row(be64(p), be64(g), be64(e), be64(l), s9);
    six_in_a_row(a, b, c, marks, span_bytes(policy), descriptor_bytes(), rest);
    assert(policy_bytes(policy, deadline) + rest == a + s2);
}

spec fn commands_found(command: LaunchCommand, restart_attempt: u64, rest: Seq<u8>) -> bool {
    let (q, s) = read_command(command_bytes(command, restart_attempt) + rest);
    &&& s == rest
    &&& q.version == 3
    &&& q.attempt == restart_attempt
    &&& q.program == command.program@
    &&& q.arguments.len() == command.arguments@.len()
    &&& forall|i: int|
        0 <= i < command.arguments@.len() ==> q.arguments[i] == (
        #[trigger] command.arguments@[i])@
    &&& q.environment.len() == 2 * command.environment@.len()
    &&& forall|i: int|
        0 <= i < command.environment@.len() ==> q.environment[2 * i] == (
        #[trigger] command.environment@[i]).name@ && q.environment[2 * i + 1]
            == command.environment@[i].value@
}

proof fn commands_are_read(command: LaunchCommand, restart_attempt: u64, rest: Seq<u8>)
    requires
        command.program@.len() <= u32::MAX,
        command.arguments@.len() <= u32::MAX,
        command.environment@.len() <= u32::MAX,
        forall|i: int|
            0 <= i < command.arguments@.len() ==> (#[trigger] command.arguments@[i])@.len()
                <= u32::MAX,
        forall|i: int|
            0 <= i < command.environment@.len() ==> (
            #[trigger] command.environment@[i]).name@.len() <= u32::MAX
                && command.environment@[i].value@.len() <= u32::MAX,
    ensures
        commands_found(command, restart_attempt, rest),
{
    reveal(read_command);
    let arguments = command.arguments@.len() as u32;
    let entries = command.environment@.len() as u32;
    let s6 = environment_bytes(command.environment@) + rest;
    let s5 = be32(entries) + s6;
    let s4 = arguments_bytes(command.arguments@) + s5;
    let s3 = be32(arguments) + s4;
    let s2 = sized(command.program@) + s3;
    let s1 = be64(restart_attempt) + s2;
    seven_in_a_row(
        be16(3),
        be64(restart_attempt),
        sized(command.program@),
        be32(arguments),
        arguments_bytes(command.arguments@),
        be32(entries),
        environment_bytes(command.environment@),
        rest,
    );
    numbers_are_read(3, 0, 0, s1);
    numbers_are_read(0, 0, restart_attempt, s2);
    values_are_read(command.program@, s3);
    numbers_are_read(0, arguments, 0, s4);
    arguments_are_read_back(command.arguments@, s5);
    numbers_are_read(0, entries, 0, s6);
    entries_are_read_back(command.environment@, rest);
}

proof fn contracts_are_read(contract: Option<Seq<u8>>)
    requires
        contract matches Some(value) ==> value.len() <= u32::MAX,
    ensures
        read_contract(contract_bytes(contract)) == (contract, Seq::<u8>::empty()),
{
    reveal(read_contract);
    let s = contract_bytes(contract);
    match contract {
        Some(value) => {
            assert(s.skip(1) =~= sized(value) + Seq::empty());
            values_are_read(value, Seq::empty());
        },
        None => {
            assert(s.skip(1) =~= Seq::empty());
        },
    }
}

/// Spans of less than five hundred years are told in their whole milliseconds.
pub proof fn millis_are_whole(nanos: nat)
    ensures
        nanos <= u64::MAX ==> wrapped_millis(nanos) == nanos / 1_000_000,
{
    if nanos <= u64::MAX {
        assert(nanos / 1_000_000 < 0x1_0000_0000_0000_0000);
    }
}

proof fn layouts_are_read(
    policy: Policy,
    command: LaunchCommand,
    deadline: Option<u64>,
    restart_attempt: u64,
    contract: Option<Seq<u8>>,
)
    requires
        command.program@.len() <= 65536,
        command.arguments@.len() <= 4096,
        command.environment@.len() <= 8192,
        arguments_fit(command.arguments@),
        environment_fits(command.environment@),
        contract matches Some(value) ==> value.len() <= 65536,
    ensures
        ({
            let q = read_request(
                launch_bytes(policy, command, deadline, restart_attempt, contract),
            );
            let behind = policy_bytes(policy, deadline) + contract_bytes(contract);
            &&& q.command == read_command(command_bytes(command, restart_attempt) + behind).0
            &&& q.limits == read_limits(behind).0
            &&& q.contract == contract
            &&& q.rest.len() == 0
            &&& commands_found(command, restart_attempt, behind)
            &&& limits_found(policy, deadline, contract_bytes(contract))
        }),
{
    let s8 = contract_bytes(contract);
    let s7 = policy_bytes(policy, deadline) + s8;
    assert forall|i: int| 0 <= i < command.environment@.len() implies (
    #[trigger] command.environment@[i]).name@.len() <= u32::MAX
        && command.environment@[i].value@.len() <= u32::MAX by {
        assert(crate::sealed::launch::entry_fits(command.environment@[i]));
    }
    two_in_a_row(command_bytes(command, restart_attempt), policy_bytes(policy, deadline), s8);
    commands_are_read(command, restart_attempt, s7);
    policies_are_read(policy, deadline, s8);
    contracts_are_read(contract);
}

/// A reader of a launch request gets back what was asked for: the attempt, the program, its
/// arguments and its environment in their order, the limits, the deadline on the clock, the
/// graces in milliseconds, the five descriptors and the contract; nothing is left over.
pub proof fn requests_are_read_back(
    policy: &Policy,
    command: &LaunchCommand,
    budget: Option<Duration>,
    restart_attempt: u64,
    clock: Result<u64, String>,
    contract: Option<Result<Vec<u8>, String>>,
    r: Result<Vec<u8>, String>,
)
    requires
        call_ensures(
            encode_launch,
            (policy, command, budget, restart_attempt, clock, contract),
            r,
        ),
        r is Ok,
    ensures
        ({
            let q = read_request(r->Ok_0@);
            &&& q.command.version == 3
            &&& q.command.attempt == restart_attempt
            &&& q.command.program == command.program@
            &&& q.command.arguments.len() == command.arguments@.len()
            &&& forall|i: int|
                0 <= i < command.arguments@.len() ==> q.command.arguments[i] == (
                #[trigger] command.arguments@[i])@
            &&& q.command.environment.len() == 2 * command.environment@.len()
            &&& forall|i: int|
                0 <= i < command.environment@.len() ==> q.command.environment[2 * i] == (
                #[trigger] command.environment@[i]).name@ && q.command.environment[2 * i + 1]
                    == command.environment@[i].value@
            &&& q.limits.memory is Some <==> policy.memory is Some
            &&& policy.memory matches Some(limit) ==> q.limits.memory == Some(limit as nat)
            &&& match policy.swap {
                SwapPolicy::Bytes(n) => q.limits.swap == Some(n as nat),
                SwapPolicy::Unlimited => q.limits.swap is None && q.limits.swap_mark == 2,
                SwapPolicy::Host => q.limits.swap is None && q.limits.swap_mark == 3,
            }
            &&& q.limits.deadline is Some <==> budget is Some
            &&& (budget matches Some(span) && (clock matches Ok(now) && now + span@ / 1_000_000
                <= u64::MAX)) ==> q.limits.deadline == Some(
                (clock->Ok_0 + budget->0@ / 1_000_000) as nat,
            )
            &&& policy.deadline matches Some(deadline) ==> (q.limits.scope == 1 <==> deadline.scope
                == DeadlineScope::Attempt) && (q.limits.scope == 2 <==> deadline.scope
                == DeadlineScope::Supervision)
            &&& policy.deadline is None ==> q.limits.scope == 1
            &&& q.limits.lifetime == 1 <==> policy.lifetime == Lifetime::Command
            &&& q.limits.lifetime == 2 <==> policy.lifetime == Lifetime::Workload
            &&& policy.poll_interval@ <= u64::MAX ==> q.limits.poll_interval == policy.poll_interval@
                / 1_000_000
            &&& policy.signal_grace@ <= u64::MAX ==> q.limits.signal_grace == policy.signal_grace@
                / 1_000_000
            &&& policy.command_exit_grace@ <= u64::MAX ==> q.limits.command_exit_grace
                == policy.command_exit_grace@ / 1_000_000
            &&& policy.limit_grace@ <= u64::MAX ==> q.limits.limit_grace == policy.limit_grace@
                / 1_000_000
            &&& q.limits.descriptors == seq![1u8, 2, 3, 4, 5]
            &&& q.contract is Some <==> contract is Some
            &&& contract matches Some(Ok(bytes)) ==> q.contract == Some(bytes@)
            &&& q.rest.len() == 0
        }),
{
    let deadline = crate::sealed::launch::absolute_deadline(budget, clock)->Ok_0;
    let written = contract_of(contract)->Ok_0;
    assert(arguments_fit(command.arguments@));
    assert(environment_fits(command.environment@));
    layouts_are_read(*policy, *command, deadline, restart_attempt, written);
    millis_are_whole(policy.poll_interval@);
    millis_are_whole(policy.signal_grace@);
    millis_are_whole(policy.command_exit_grace@);
    millis_are_whole(policy.limit_grace@);
}

/// A request is written just where everything fits: four thousand and ninety-six arguments,
/// twice as many environment entries, values of sixty-four kibibytes, a clock that can be
/// read where a deadline is asked for, and a contract that could be encoded.
pub proof fn requests_are_written_where_they_fit(
    policy: &Policy,
    command: &LaunchCommand,
    budget: Option<Duration>,
    restart_attempt: u64,
    clock: Result<u64, String>,
    contract: Option<Result<Vec<u8>, String>>,
    r: Result<Vec<u8>, String>,
)
    requires
        call_ensures(
            encode_launch,
            (policy, command, budget, restart_attempt, clock, contract),
            r,
        ),
    ensures
        r is Ok <==> {
            &&& command.arguments@.len() <= 4096
            &&& command.environment@.len() <= 8192
            &&& command.program@.len() <= 65536
            &&& forall|i: int|
                0 <= i < command.arguments@.len() ==> (#[trigger] command.arguments@[i])@.len()
                    <= 65536
            &&& forall|i: int|
                0 <= i < command.environment@.len() ==> (
                #[trigger] command.environment@[i]).name@.len() <= 65536
                    && command.environment@[i].value@.len() <= 65536
            &&& budget matches Some(span) ==> clock is Ok && span@ / 1_000_000 <= u64::MAX
            &&& contract is Some ==> contract->0 is Ok && contract->0->Ok_0@.len() <= 65536
        },
        command.arguments@.len() > 4096 ==> (r matches Err(text) && text@
            == "launch argument count exceeds protocol limit"@),
        command.arguments@.len() <= 4096 && command.program@.len() > 65536 ==> (
        r matches Err(text) && text@ == "launch native value exceeds protocol limit"@),
{
    assert(arguments_fit(command.arguments@) <==> forall|i: int|
        0 <= i < command.arguments@.len() ==> (#[trigger] command.arguments@[i])@.len() <= 65536);
    assert(environment_fits(command.environment@) <==> forall|i: int|
        0 <= i < command.environment@.len() ==> (#[trigger] command.environment@[i]).name@.len()
            <= 65536 && command.environment@[i].value@.len() <= 65536) by {
        if environment_fits(command.environment@) {
            assert forall|i: int| 0 <= i < command.environment@.len() implies (
            #[trigger] command.environment@[i]).name@.len() <= 65536
                && command.environment@[i].value@.len() <= 65536 by {
                assert(crate::sealed::launch::entry_fits(command.environment@[i]));
            }
        }
    }
}

/// A reader of a private launch request gets back the three digests, the contract and the
/// launch, and behind them the plan's two digests where a plan holds the provider.
pub proof fn private_requests_are_read_back(
    binding: &PrivateBinding,
    contract: &[u8],
    launch: &[u8],
    plan: &Option<PlanPrecondition>,
    r: Result<Vec<u8>, &'static str>,
)
    requires
        call_ensures(encode_private_v2_with_plan, (binding, contract, launch, plan), r),
        binding.registry_digest@.len() == 32,
        binding.qualification_digest@.len() == 32,
        binding.contract_digest@.len() == 32,
    ensures
        r is Ok <==> contract@.len() <= 65536 && launch@.len() <= 65536,
        r matches Ok(bytes) ==> {
            let (version, s) = read_number(bytes@, 2);
            let (told_contract, t) = read_value(s.skip(96));
            let (told_launch, rest) = read_value(t);
            &&& plan is Some ==> version == 5
            &&& plan is None ==> version == 4
            &&& s.take(32) == binding.registry_digest@
            &&& s.subrange(32, 64) == binding.qualification_digest@
            &&& s.subrange(64, 96) == binding.contract_digest@
            &&& told_contract == contract@
            &&& told_launch == launch@
            &&& plan is None ==> rest.len() == 0
            &&& plan matches Some(held) ==> rest == held.contract_digest@ + held.generation_digest@
        },
{
    if r is Ok {
        let bytes = r->Ok_0@;
        let version = crate::sealed::launch::private_request_version(*plan);
        let rest = crate::sealed::launch::precondition_bytes(*plan);
        let s3 = sized(launch@) + rest;
        let s2 = sized(contract@) + s3;
        let s1 = binding.registry_digest@ + binding.qualification_digest@ + binding.contract_digest@
            + s2;
        assert(bytes =~= be16(version) + s1);
        numbers_are_read(version, 0, 0, s1);
        assert(s1.take(32) =~= binding.registry_digest@);
        assert(s1.subrange(32, 64) =~= binding.qualification_digest@);
        assert(s1.subrange(64, 96) =~= binding.contract_digest@);
        assert(s1.skip(96) =~= s2);
        values_are_read(contract@, s3);
        values_are_read(launch@, rest);
    }
}

/// The monotonic clock in milliseconds: whole seconds and whole milliseconds of the rest.
pub proof fn clocks_are_read_in_millis(
    seconds: i64,
    nanoseconds: i64,
    r: Result<u64, &'static str>,
)
    requires
        call_ensures(monotonic_millis, (seconds, nanoseconds), r),
    ensures
        r is Ok <==> 0 <= seconds && 0 <= nanoseconds < 1_000_000_000,
        (0 <= seconds <= 1_000_000_000_000 && 0 <= nanoseconds < 1_000_000_000) ==> (
        r matches Ok(millis) && millis * 1_000_000 <= seconds * 1_000_000_000 + nanoseconds
            < (millis + 1) * 1_000_000),
{
}

/// An attempt's own deadline is whole however long the setup took; the supervision's has
/// what the setup left of it.
pub proof fn setup_counts_against_the_supervision(
    policy: &Policy,
    context: AttemptContext,
    elapsed: Duration,
    r: Option<Duration>,
    deadline: Deadline,
)
    requires
        call_ensures(effective_deadline_duration, (policy, context, elapsed), r),
    ensures
        policy.deadline is None ==> r is None,
        policy.deadline == Some(deadline) && (deadline.scope == DeadlineScope::Attempt
            || context.supervision_deadline_remaining is None) ==> (r matches Some(span) && span@
            == deadline.duration@),
        policy.deadline == Some(deadline) && deadline.scope == DeadlineScope::Supervision && (
        context.supervision_deadline_remaining matches Some(left) && elapsed@ <= left@) ==> (
        r matches Some(span) && span@ + elapsed@ == context.supervision_deadline_remaining->0@),
        policy.deadline == Some(deadline) && deadline.scope == DeadlineScope::Supervision && (
        context.supervision_deadline_remaining matches Some(left) && elapsed@ > left@) ==> (
        r matches Some(span) && span@ == 0),
{
}

} // verus!
