//! A run inside a sealed boundary: the provider's frames, its terminal receipt, and what
//! the receipt comes to.

use vstd::prelude::*;

use crate::backend::{BackendInfo, Execution};
use crate::evidence::{ChildTermination, Error, InitialSpawnFailure, RestartSafetyProof, RunOutcome};
use crate::policy::{BoundaryClass, BoundaryRequirement, Policy};
use crate::scan::{integer_in, lines_of_text, number_in};
use crate::sealed::frame::{
    announced_payload, encoded_frame, encoded_frame_for_version, read_frame, write_frame, WireFrame,
};
use crate::sealed::probe::ProbeReceipt;
use crate::sealed::run::{
    launch, launch_error, run, terminal_restart_safety, LaunchError, LaunchReading, RunChecks,
};
use crate::sealed::terminal::{
    classify_terminal_exec_error, fact, fact_names, facts_of, fields_of, parse_terminal,
    payload_fields, terminal_policy, Fields, PolicyReading, TerminalExecFailureClass,
    TerminalExecStatus, TerminalReceipt,
};
use crate::time::Duration;

verus! {

/// Whether a receipt has a line that gives a name a value.
#[verifier::opaque]
pub open spec fn tells(payload: Seq<u8>, name: Seq<char>, value: Seq<char>) -> bool {
    lines_of_text(vstd::utf8::decode_utf8(payload)).contains(name + "="@ + value)
}

/// Whether a receipt has a line that says of a fact whether it holds.
#[verifier::opaque]
pub open spec fn tells_fact(payload: Seq<u8>, name: Seq<char>, holds: bool) -> bool {
    tells(
        payload,
        name,
        if holds {
            "true"@
        } else {
            "false"@
        },
    )
}

proof fn fields_are_lines(lines: Seq<Seq<char>>, m: Fields, name: Seq<char>)
    requires
        fields_of(lines) == Ok::<Fields, &'static str>(m),
        m.dom().contains(name),
    ensures
        lines.contains(name + "="@ + m[name]),
    decreases lines.len(),
{
    if lines.len() > 0 {
        let line = lines.last();
        let at = crate::scan::find_from(line, '=', 0);
        crate::scan::lemma_find_from(line, '=', 0);
        let before = fields_of(lines.drop_last())->Ok_0;
        if line.subrange(0, at) == name {
            reveal_strlit("=");
            assert(line[at] == '=');
            assert(line =~= name + "="@ + m[name]);
            assert(lines[lines.len() - 1] == line);
        } else {
            fields_are_lines(lines.drop_last(), before, name);
            let i = choose|i: int|
                0 <= i < lines.drop_last().len() && lines.drop_last()[i] == name + "="@ + m[name];
            assert(lines[i] == name + "="@ + m[name]);
        }
    }
}

proof fn field_is_line(payload: Seq<u8>, m: Fields, name: Seq<char>)
    requires
        fields_of(lines_of_text(vstd::utf8::decode_utf8(payload))) == Ok::<Fields, &'static str>(m),
        m.dom().contains(name),
    ensures
        tells(payload, name, m[name]),
{
    reveal(tells);
    fields_are_lines(lines_of_text(vstd::utf8::decode_utf8(payload)), m, name);
}

proof fn facts_are_told(m: Fields, n: nat, list: Seq<bool>)
    requires
        facts_of(m, n) == Ok::<Seq<bool>, Seq<char>>(list),
    ensures
        list.len() == n,
        forall|i: int|
            0 <= i < n ==> fact(m, (#[trigger] fact_names()[i])@) == Ok::<bool, Seq<char>>(list[i]),
    decreases n,
{
    if n > 0 {
        let before = facts_of(m, (n - 1) as nat)->Ok_0;
        facts_are_told(m, (n - 1) as nat, before);
    }
}

proof fn fact_is_line(payload: Seq<u8>, m: Fields, name: Seq<char>, holds: bool)
    requires
        fields_of(lines_of_text(vstd::utf8::decode_utf8(payload))) == Ok::<Fields, &'static str>(m),
        fact(m, name) == Ok::<bool, Seq<char>>(holds),
    ensures
        tells_fact(payload, name, holds),
{
    reveal(tells_fact);
    field_is_line(payload, m, name);
}

proof fn digits_fit(s: Seq<char>, i: int, acc: nat, max: nat)
    requires
        acc <= max,
    ensures
        crate::scan::read_digits(s, i, acc, 10, max) matches Ok(n) ==> n <= max,
    decreases s.len() - i,
{
    if 0 <= i < s.len() {
        match crate::scan::digit_worth(s[i], 10) {
            Some(d) => {
                if acc * 10 + d <= max {
                    digits_fit(s, i + 1, acc * 10 + d, max);
                }
            },
            None => {},
        }
    }
}

/// A number that is read lies within the bound that it is read under.
pub proof fn numbers_fit(s: Seq<char>, max: nat)
    ensures
        number_in(s, 10, max) matches Ok(n) ==> n <= max,
{
    digits_fit(s, 0, 0, max);
    digits_fit(s, 1, 0, max);
}

proof fn accepted_fields(
    payload: Seq<u8>,
    limit: nat,
    policy: PolicyReading,
    receipt: TerminalReceipt,
) -> (m: Fields)
    requires
        crate::sealed::terminal::terminal_of(payload, limit, policy) == Ok::<
            crate::sealed::terminal::TerminalView,
            Seq<char>,
        >(receipt@),
    ensures
        payload_fields(payload, limit) == Ok::<Fields, &'static str>(m),
        fields_of(lines_of_text(vstd::utf8::decode_utf8(payload))) == Ok::<Fields, &'static str>(m),
        crate::sealed::terminal::receipt_of(m, policy) == Ok::<
            crate::sealed::terminal::TerminalView,
            Seq<char>,
        >(receipt@),
        facts_of(m, 22) is Ok,
        receipt.facts == crate::sealed::terminal::facts_in(facts_of(m, 22)->Ok_0),
{
    payload_fields(payload, limit)->Ok_0
}

proof fn fact_places()
    ensures
        fact_names().len() == 22,
        fact_names()[0] == "assignment-verified",
        fact_names()[1] == "namespaces-verified",
        fact_names()[2] == "target-initial-credentials-verified",
        fact_names()[3] == "initial-provider-capabilities-absent",
        fact_names()[4] == "caller-no-new-privs",
        fact_names()[5] == "target-no-new-privs-matched",
        fact_names()[6] == "target-capability-bounding-set-matched",
        fact_names()[7] == "target-mount-context-derived-from-caller",
        fact_names()[8] == "boundary-independent-of-credentials",
        fact_names()[9] == "descriptors-verified",
        fact_names()[10] == "writable-ancestor-cgroup-denied",
        fact_names()[11] == "parent-namespace-handles-denied",
        fact_names()[12] == "recursive-provider-request-denied",
        fact_names()[13] == "guardian-ready-before-authorization",
        fact_names()[14] == "frontend-loss-authority-verified",
        fact_names()[15] == "cgroup-kill-invoked",
        fact_names()[16] == "cgroup-empty",
        fact_names()[17] == "init-reaped",
        fact_names()[18] == "guardian-reaped",
        fact_names()[19] == "boundary-retired",
        fact_names()[20] == "memory-limit-exceeded",
        fact_names()[21] == "deadline-exceeded",
{
}

proof fn fact_at(p: Seq<u8>, m: Fields, list: Seq<bool>, i: int)
    requires
        fields_of(lines_of_text(vstd::utf8::decode_utf8(p))) == Ok::<Fields, &'static str>(m),
        facts_of(m, 22) == Ok::<Seq<bool>, Seq<char>>(list),
        0 <= i < 22,
    ensures
        tells_fact(p, fact_names()[i]@, list[i]),
{
    facts_are_told(m, 22, list);
    let name = fact_names()[i];
    fact_is_line(p, m, name@, list[i]);
}

proof fn facts_are_lines(p: Seq<u8>, m: Fields, list: Seq<bool>)
    requires
        fields_of(lines_of_text(vstd::utf8::decode_utf8(p))) == Ok::<Fields, &'static str>(m),
        facts_of(m, 22) == Ok::<Seq<bool>, Seq<char>>(list),
    ensures
        tells_fact(p, "assignment-verified"@, list[0]),
        tells_fact(p, "namespaces-verified"@, list[1]),
        tells_fact(p, "target-initial-credentials-verified"@, list[2]),
        tells_fact(p, "initial-provider-capabilities-absent"@, list[3]),
        tells_fact(p, "caller-no-new-privs"@, list[4]),
        tells_fact(p, "target-no-new-privs-matched"@, list[5]),
        tells_fact(p, "target-capability-bounding-set-matched"@, list[6]),
        tells_fact(p, "target-mount-context-derived-from-caller"@, list[7]),
        tells_fact(p, "boundary-independent-of-credentials"@, list[8]),
        tells_fact(p, "descriptors-verified"@, list[9]),
        tells_fact(p, "writable-ancestor-cgroup-denied"@, list[10]),
        tells_fact(p, "parent-namespace-handles-denied"@, list[11]),
        tells_fact(p, "recursive-provider-request-denied"@, list[12]),
        tells_fact(p, "guardian-ready-before-authorization"@, list[13]),
        tells_fact(p, "frontend-loss-authority-verified"@, list[14]),
        tells_fact(p, "cgroup-kill-invoked"@, list[15]),
        tells_fact(p, "cgroup-empty"@, list[16]),
        tells_fact(p, "init-reaped"@, list[17]),
        tells_fact(p, "guardian-reaped"@, list[18]),
        tells_fact(p, "boundary-retired"@, list[19]),
        tells_fact(p, "memory-limit-exceeded"@, list[20]),
        tells_fact(p, "deadline-exceeded"@, list[21]),
{
    fact_places();
    fact_at(p, m, list, 0);
    fact_at(p, m, list, 1);
    fact_at(p, m, list, 2);
    fact_at(p, m, list, 3);
    fact_at(p, m, list, 4);
    fact_at(p, m, list, 5);
    fact_at(p, m, list, 6);
    fact_at(p, m, list, 7);
    fact_at(p, m, list, 8);
    fact_at(p, m, list, 9);
    fact_at(p, m, list, 10);
    fact_at(p, m, list, 11);
    fact_at(p, m, list, 12);
    fact_at(p, m, list, 13);
    fact_at(p, m, list, 14);
    fact_at(p, m, list, 15);
    fact_at(p, m, list, 16);
    fact_at(p, m, list, 17);
    fact_at(p, m, list, 18);
    fact_at(p, m, list, 19);
    fact_at(p, m, list, 20);
    fact_at(p, m, list, 21);
}

/// Every fact of an accepted receipt stands in one of its lines.
pub proof fn receipts_tell_their_facts(
    payload: &[u8],
    limit: usize,
    policy: &PolicyReading,
    r: Result<TerminalReceipt, String>,
)
    requires
        call_ensures(parse_terminal, (payload, limit, policy), r),
        r is Ok,
    ensures
        ({
            let facts = r->Ok_0.facts;
            let p = payload@;
            &&& tells_fact(p, "assignment-verified"@, facts.assignment_verified)
            &&& tells_fact(p, "namespaces-verified"@, facts.namespaces_verified)
            &&& tells_fact(
                p,
                "target-initial-credentials-verified"@,
                facts.target_initial_credentials_verified,
            )
            &&& tells_fact(
                p,
                "initial-provider-capabilities-absent"@,
                facts.initial_provider_capabilities_absent,
            )
            &&& tells_fact(p, "caller-no-new-privs"@, facts.caller_no_new_privs)
            &&& tells_fact(p, "target-no-new-privs-matched"@, facts.target_no_new_privs_matched)
            &&& tells_fact(
                p,
                "target-capability-bounding-set-matched"@,
                facts.target_capability_bounding_set_matched,
            )
            &&& tells_fact(
                p,
                "target-mount-context-derived-from-caller"@,
                facts.target_mount_context_derived_from_caller,
            )
            &&& tells_fact(
                p,
                "boundary-independent-of-credentials"@,
                facts.boundary_independent_of_credentials,
            )
            &&& tells_fact(p, "descriptors-verified"@, facts.descriptors_verified)
            &&& tells_fact(
                p,
                "writable-ancestor-cgroup-denied"@,
                facts.writable_ancestor_cgroup_denied,
            )
            &&& tells_fact(
                p,
                "parent-namespace-handles-denied"@,
                facts.parent_namespace_handles_denied,
            )
            &&& tells_fact(
                p,
                "recursive-provider-request-denied"@,
                facts.recursive_provider_request_denied,
            )
            &&& tells_fact(p, "guardian-ready-before-authorization"@, facts.guardian_ready)
            &&& tells_fact(p, "frontend-loss-authority-verified"@, facts.frontend_loss_authority)
            &&& tells_fact(p, "cgroup-kill-invoked"@, facts.cgroup_kill)
            &&& tells_fact(p, "cgroup-empty"@, facts.cgroup_empty)
            &&& tells_fact(p, "init-reaped"@, facts.init_reaped)
            &&& tells_fact(p, "guardian-reaped"@, facts.guardian_reaped)
            &&& tells_fact(p, "boundary-retired"@, facts.boundary_retired)
            &&& tells_fact(p, "memory-limit-exceeded"@, facts.memory_limit_exceeded)
            &&& tells_fact(p, "deadline-exceeded"@, facts.deadline_exceeded)
        }),
{
    let p = payload@;
    let m = accepted_fields(p, limit as nat, *policy, r->Ok_0);
    let list = facts_of(m, 22)->Ok_0;
    facts_are_lines(p, m, list);
}

/// An accepted receipt is whole and of this mechanism, its policy is the one that was asked
/// for, and the caller that it tells of stands in its lines.
pub proof fn receipts_tell_their_caller(
    payload: &[u8],
    limit: usize,
    policy: &PolicyReading,
    r: Result<TerminalReceipt, String>,
)
    requires
        call_ensures(parse_terminal, (payload, limit, policy), r),
        r is Ok,
    ensures
        ({
            let receipt = r->Ok_0;
            let p = payload@;
            &&& p.len() <= limit && p.last() == 10
            &&& policy.fault is None && policy.consistent && receipt.policy_enforcement
                == policy.enforcement
            &&& tells(p, "mechanism"@, "linux-pid-namespace-cgroup-v2"@)
            &&& tells(p, "caller-envelope-digest"@, receipt.caller_envelope_digest@)
            &&& tells(
                p,
                "caller-capability-bounding-set-digest"@,
                receipt.caller_capability_bounding_set_digest@,
            )
            &&& tells(p, "caller-mount-namespace-digest"@, receipt.caller_mount_namespace_digest@)
            &&& tells(p, "credential-transition-disposition"@, "preserve-caller-envelope"@)
            &&& receipt.spawn_error_reported && tells_fact(p, "spawn-error-reported"@, true)
            &&& receipt.mechanism@ == "linux-pid-namespace-cgroup-v2"@ && receipt.schema_version
                == 2
            &&& exists|text: Seq<char>| #[trigger]
                tells(p, "target-pid"@, text) && number_in(text, 10, u32::MAX as nat) == Ok::<
                    nat,
                    crate::scan::NumberFault,
                >(receipt.target_pid as nat)
            &&& exists|text: Seq<char>| #[trigger]
                tells(p, "authorization-offset-millis"@, text) && number_in(
                    text,
                    10,
                    u64::MAX as nat,
                ) == Ok::<nat, crate::scan::NumberFault>(
                    receipt.authorization_offset_millis as nat,
                )
        }),
{
    let p = payload@;
    let m = accepted_fields(p, limit as nat, *policy, r->Ok_0);
    field_is_line(p, m, "mechanism"@);
    field_is_line(p, m, "target-pid"@);
    field_is_line(p, m, "authorization-offset-millis"@);
    field_is_line(p, m, "caller-envelope-digest"@);
    field_is_line(p, m, "caller-capability-bounding-set-digest"@);
    field_is_line(p, m, "caller-mount-namespace-digest"@);
    field_is_line(p, m, "credential-transition-disposition"@);
    fact_is_line(p, m, "spawn-error-reported"@, true);
    numbers_fit(m["target-pid"@], u32::MAX as nat);
    numbers_fit(m["authorization-offset-millis"@], u64::MAX as nat);
    assert(tells(p, "target-pid"@, m["target-pid"@]));
    assert(tells(p, "authorization-offset-millis"@, m["authorization-offset-millis"@]));
}

/// How the child ended and whether the target could be started stand in an accepted
/// receipt's lines, and agree with each other.
pub proof fn receipts_tell_the_childs_end(
    payload: &[u8],
    limit: usize,
    policy: &PolicyReading,
    r: Result<TerminalReceipt, String>,
)
    requires
        call_ensures(parse_terminal, (payload, limit, policy), r),
        r is Ok,
    ensures
        ({
            let receipt = r->Ok_0;
            let p = payload@;
            &&& receipt.status matches Some(status) ==> exists|text: Seq<char>| #[trigger]
                tells(p, "status"@, text) && integer_in(text, i32::MAX as nat) == Ok::<
                    int,
                    crate::scan::NumberFault,
                >(status as int)
            &&& receipt.status is None ==> tells(p, "status"@, "none"@) && tells_fact(
                p,
                "policy-revoked"@,
                true,
            )
            &&& receipt.policy_revoked <==> receipt.status is None
            &&& receipt.exec_status is Succeeded ==> tells(p, "exec-status"@, "success"@) && tells(
                p,
                "exec-os-code"@,
                "none"@,
            )
            &&& receipt.exec_status matches TerminalExecStatus::Failed { class, os_code }
                ==> os_code > 0 && match class {
                TerminalExecFailureClass::NotFound => receipt.status == Some(127i32) && (os_code
                    == 2 || os_code == 20) && tells(p, "exec-status"@, "not-found"@),
                TerminalExecFailureClass::NotExecutable => receipt.status == Some(126i32) && (
                os_code == 13 || os_code == 1 || os_code == 8 || os_code == 21) && tells(
                    p,
                    "exec-status"@,
                    "not-executable"@,
                ),
                TerminalExecFailureClass::Other => receipt.status == Some(126i32) && tells(
                    p,
                    "exec-status"@,
                    "failed"@,
                ),
            }
        }),
{
    let p = payload@;
    let receipt = r->Ok_0;
    let m = accepted_fields(p, limit as nat, *policy, receipt);
    field_is_line(p, m, "status"@);
    field_is_line(p, m, "exec-status"@);
    field_is_line(p, m, "exec-os-code"@);
    assert(tells(p, "status"@, m["status"@]));
    if receipt.policy_revoked {
        fact_is_line(p, m, "policy-revoked"@, true);
    }
    assert(receipt@.exec_status == receipt.exec_status);
    assert(crate::sealed::terminal::opt_int(receipt.status) == receipt@.status);
    match receipt.exec_status {
        TerminalExecStatus::Succeeded => {},
        TerminalExecStatus::Failed { class, os_code } => {
            assert(receipt@.status == Some(crate::sealed::terminal::reported_status(class)));
        },
    }
}

/// A receipt of a run that was cut short by a revoked grant proves that the workload is
/// gone.
pub proof fn revoked_receipts_prove_retirement(
    payload: &[u8],
    limit: usize,
    policy: &PolicyReading,
    r: Result<TerminalReceipt, String>,
)
    requires
        call_ensures(parse_terminal, (payload, limit, policy), r),
        r is Ok,
        r->Ok_0.policy_revoked,
    ensures
        ({
            let facts = r->Ok_0.facts;
            &&& facts.cgroup_empty && facts.init_reaped && facts.guardian_reaped
                && facts.boundary_retired && !facts.deadline_exceeded
        }),
{
}

/// A receipt that is too long, no text, cut off, or read against another policy is refused.
pub proof fn broken_receipts_are_refused(
    payload: &[u8],
    limit: usize,
    policy: &PolicyReading,
    r: Result<TerminalReceipt, String>,
    named: Result<String, String>,
)
    requires
        call_ensures(parse_terminal, (payload, limit, policy), r),
        call_ensures(terminal_policy, (payload, limit), named),
    ensures
        payload@.len() > limit ==> r is Err && named is Err,
        !vstd::utf8::valid_utf8(payload@) ==> r is Err && named is Err,
        payload@.len() == 0 || payload@.last() != 10 ==> r is Err && named is Err,
        policy.fault is Some || !policy.consistent ==> r is Err,
        named matches Ok(text) ==> tells(payload@, "policy-enforcement"@, text@),
{
    if named is Ok {
        let m = payload_fields(payload@, limit as nat)->Ok_0;
        field_is_line(payload@, m, "policy-enforcement"@);
    }
}

/// Why a target could not be started, by the system's number.
pub proof fn exec_errors_are_classified(os_code: i32, r: TerminalExecFailureClass)
    requires
        call_ensures(classify_terminal_exec_error, (os_code,), r),
    ensures
        r == TerminalExecFailureClass::NotFound <==> os_code == 2 || os_code == 20,
        r == TerminalExecFailureClass::NotExecutable <==> os_code == 13 || os_code == 1 || os_code
            == 8 || os_code == 21,
{
}

/// A frame read back is the frame that was written: its kind, its nonce, its attempt and its
/// payload; read as another version it is none.
pub proof fn frames_are_read_back(
    version: u16,
    kind: u16,
    nonce: &[u8],
    attempt: &[u8],
    payload: &[u8],
    bytes: Result<Vec<u8>, &'static str>,
    header: &[u8],
    body: Vec<u8>,
    other: u16,
    announced: Result<usize, &'static str>,
    r: Result<WireFrame, &'static str>,
)
    requires
        nonce@.len() == 16 && attempt@.len() == 16,
        call_ensures(encoded_frame_for_version, (version, kind, nonce, attempt, payload), bytes),
        bytes is Ok,
        header@ == bytes->Ok_0@.take(72),
        body@ == bytes->Ok_0@.skip(72),
        call_ensures(announced_payload, (header, other), announced),
        call_ensures(read_frame, (header, body), r),
    ensures
        bytes->Ok_0@.len() == 72 + payload@.len(),
        other == version ==> announced == Ok::<usize, &'static str>(payload@.len() as usize),
        other != version ==> announced is Err,
        r matches Ok(frame) && frame.kind == kind && frame.nonce@ == nonce@ && frame.attempt@
            == attempt@ && frame.payload@ == payload@,
{
    assert(payload@.len() <= usize::MAX);
}

/// Frames hold up to a mebibyte with their header, and longer ones are not written; the
/// ordinary ones are of version three.
pub proof fn long_frames_are_not_written(
    kind: u16,
    nonce: &[u8],
    attempt: &[u8],
    payload: &[u8],
    a: Result<Vec<u8>, &'static str>,
    b: Result<Vec<u8>, &'static str>,
)
    requires
        nonce@.len() == 16 && attempt@.len() == 16,
        call_ensures(encoded_frame, (kind, nonce, attempt, payload), a),
        call_ensures(write_frame, (kind, nonce, attempt, payload), b),
    ensures
        a is Ok <==> payload@.len() + 72 <= 1_048_576,
        b is Ok <==> payload@.len() + 72 <= 1_048_576,
        a is Ok ==> a->Ok_0@ == b->Ok_0@ && a->Ok_0@[0] == 0 && a->Ok_0@[1] == 3,
{
    if a is Ok {
        let bytes = a->Ok_0@;
        assert(bytes[0] == crate::bytes::be16(3)[0]);
        assert(bytes[1] == crate::bytes::be16(3)[1]);
    }
}

/// The provider's answer to a launch counts only under the nonce and attempt of the request:
/// a terminal receipt is taken where it is bound, a rejection is passed on, and nothing else
/// is an answer.
pub proof fn answers_belong_to_their_request(
    frame: WireFrame,
    nonce: &[u8],
    attempt: &[u8],
    limit: usize,
    reading: LaunchReading,
    payload: &[u8],
    parsed: Result<TerminalReceipt, String>,
    r: Result<TerminalReceipt, LaunchError>,
)
    requires
        call_ensures(launch, (frame, nonce, attempt, limit, reading), r),
        payload@ == frame.payload@,
        call_ensures(parse_terminal, (payload, limit, &reading.policy), parsed),
    ensures
        frame.nonce@ != nonce@ || frame.attempt@ != attempt@ ==> (r matches Err(
            LaunchError::Transport(_),
        )),
        r is Ok <==> frame.nonce@ == nonce@ && frame.attempt@ == attempt@ && frame.kind == 105
            && parsed is Ok && reading.boot is Ok && reading.bound,
        r matches Ok(receipt) ==> receipt@ == parsed->Ok_0@,
        frame.nonce@ == nonce@ && frame.attempt@ == attempt@ && frame.kind == 106 ==> (
        reading.rejection matches Ok(rejection) ==> r == Err::<TerminalReceipt, LaunchError>(
            LaunchError::Rejected(rejection),
        )),
        frame.kind != 106 ==> !(r matches Err(LaunchError::Rejected(_))),
{
}

/// A launch that did not come about released no target; a rejection keeps what it says, and
/// one of another request is not taken for this one's.
pub proof fn failed_launches_released_nothing(error: LaunchError, foreign: bool, r: Error)
    requires
        call_ensures(launch_error, (error, foreign), r),
    ensures
        !r.target_released && r.authorization_offset is None,
        error matches LaunchError::Transport(detail) ==> r.code == "MCSEALED-PROVIDER-TRANSACTION"
            && r.message@ == detail@,
        error matches LaunchError::Rejected(rejection) ==> {
            &&& foreign ==> r.code == "MCSEALED-WORKLOAD-REJECTION" && r.provider_rejection is None
            &&& !foreign ==> r.code == "MCSEALED-PROVIDER-REJECTION" && r.os_code
                == rejection.os_code && (r.provider_rejection matches Some(told) && told@
                == rejection@) && (r.workload_may_be_alive <==> rejection.target_created
                && rejection.restart_safety.workload_empty != Some(true)) && (
            r.restart_safety matches Some(proof) && proof@ == rejection.restart_safety@)
        },
{
    assert(r@.target_released == r.target_released);
}

/// What a receipt proves for a restart: the workload is empty and retired just where it says
/// so.
pub proof fn receipts_prove_what_they_say(terminal: &TerminalReceipt, r: RestartSafetyProof)
    requires
        call_ensures(terminal_restart_safety, (terminal,), r),
    ensures
        r.direct_child_reaped == terminal.facts.init_reaped,
        r.workload_empty == Some(terminal.facts.cgroup_empty),
        r.helpers_reaped == (terminal.facts.init_reaped && terminal.facts.guardian_reaped),
        r.containment_removed == terminal.facts.boundary_retired && r.sealed_boundary_retired
            == terminal.facts.boundary_retired,
        r.containment_incapable_of_live_members == terminal.facts.cgroup_empty,
        r.errors@.len() == 0,
{
    assert(r@.errors.len() == r.errors@.len());
}

/// A sealed run ends as its receipt says: over its memory limit, over its deadline, or with
/// the child's own status.
pub proof fn sealed_runs_end_as_the_receipt_says(
    policy: &Policy,
    qualification: &ProbeReceipt,
    terminal: &TerminalReceipt,
    checks: RunChecks,
    backend: BackendInfo,
    elapsed: Duration,
    r: Result<Execution, Error>,
    status: i32,
)
    requires
        call_ensures(run, (policy, qualification, terminal, checks, backend, elapsed), r),
        checks.request_matches && checks.runtime is Ok,
        !terminal.policy_revoked && terminal.exec_status is Succeeded && terminal.status == Some(
            status,
        ),
    ensures
        !terminal.facts.memory_limit_exceeded && !terminal.facts.deadline_exceeded ==> (
        r matches Ok(execution) && (execution.outcome matches RunOutcome::Exited { child, peak, .. }
            && child == (ChildTermination::ExitCode { code: status }) && peak is None)),
        terminal.facts.memory_limit_exceeded && policy.memory is Some ==> (r matches Ok(execution)
            && (execution.outcome matches RunOutcome::LimitExceeded {
            limit,
            child_after_termination,
            ..
        } && Some(limit) == policy.memory && child_after_termination == Some(
            ChildTermination::ExitCode { code: status },
        ))),
        terminal.facts.memory_limit_exceeded && policy.memory is None ==> (r matches Err(error)
            && error.code == "MCSEALED-MEMORY-EVIDENCE"),
        !terminal.facts.memory_limit_exceeded && terminal.facts.deadline_exceeded
            && policy.deadline is Some && checks.deadline_accepted ==> (r matches Ok(execution) && (
        execution.outcome matches RunOutcome::DeadlineExceeded {
            deadline,
            child_after_termination,
            ..
        } && deadline.scope == policy.deadline->0.scope && child_after_termination == Some(
            ChildTermination::ExitCode { code: status },
        ) && (policy.deadline->0.duration@ <= u64::MAX ==> deadline.duration_ms as nat
            == policy.deadline->0.duration@ / 1_000_000))),
        !terminal.facts.memory_limit_exceeded && terminal.facts.deadline_exceeded && (
        policy.deadline is None || !checks.deadline_accepted) ==> (r matches Err(error)
            && error.code == "MCSEALED-DEADLINE-EVIDENCE"),
        r matches Ok(execution) ==> {
            &&& execution.backend == backend && execution.duration == elapsed
            &&& execution.child_pid == if terminal.target_pid == 0 {
                None::<u32>
            } else {
                Some(terminal.target_pid)
            }
            &&& execution.authorization_offset matches Some(offset) && offset@
                == terminal.authorization_offset_millis * 1_000_000
            &&& execution.launch.target_released && execution.launch.boundary_requested
                == BoundaryRequirement::Sealed && execution.launch.boundary_effective
                == BoundaryClass::Sealed
            &&& execution.launch.boundary_assignment_verified
                == terminal.facts.assignment_verified
            &&& execution.launch.frontend_loss_cleanup_authority_verified
                == terminal.facts.frontend_loss_authority
            &&& execution.restart_safety.workload_empty == Some(terminal.facts.cgroup_empty)
                && execution.restart_safety.direct_child_reaped == terminal.facts.init_reaped
                && execution.restart_safety.sealed_boundary_retired
                == terminal.facts.boundary_retired
            &&& execution.boundary_detail is LinuxPidNamespaceCgroupV2
        },
{
    crate::laws::launch::millis_are_whole(policy.deadline->0.duration@);
    if r is Ok {
        let execution = r->Ok_0;
        assert(execution.launch@.target_released == execution.launch.target_released);
        assert(execution.restart_safety@.workload_empty == execution.restart_safety.workload_empty);
        assert(execution.boundary_detail@ is LinuxPidNamespaceCgroupV2);
    }
}

/// A receipt that is not this request's yields nothing; a revoked grant and a target that
/// could not be started are errors that tell when it was released.
pub proof fn sealed_runs_fail_as_the_receipt_says(
    policy: &Policy,
    qualification: &ProbeReceipt,
    terminal: &TerminalReceipt,
    checks: RunChecks,
    backend: BackendInfo,
    elapsed: Duration,
    r: Result<Execution, Error>,
)
    requires
        call_ensures(run, (policy, qualification, terminal, checks, backend, elapsed), r),
    ensures
        !checks.request_matches ==> (r matches Err(error) && error.code
            == "MCSEALED-WORKLOAD-TERMINAL"),
        terminal.policy_enforcement is Authorized && checks.runtime is Err ==> (r matches Err(error)
            && error.code == "MCSEALED-WORKLOAD-TERMINAL"),
        checks.request_matches && checks.runtime is Ok && terminal.policy_revoked ==> (
        r matches Err(error) && error.code == "MCSEALED-POLICY-DRIFT" && error.target_released
            && error.target_pid == Some(terminal.target_pid) && (error.workload_may_be_alive
            <==> !checks.safe)),
        checks.request_matches && checks.runtime is Ok && !terminal.policy_revoked && (
        terminal.exec_status matches TerminalExecStatus::Failed { os_code, .. }) ==> (r matches Err(
            error,
        ) && error.target_released && error.os_code == Some(
            terminal.exec_status->Failed_os_code,
        ) && (match terminal.exec_status->Failed_class {
            TerminalExecFailureClass::NotFound => error.code == "MCSPAWN-NOT-FOUND"
                && error.initial_spawn_failure == Some(InitialSpawnFailure::NotFound),
            TerminalExecFailureClass::NotExecutable => error.code == "MCSPAWN-NOT-EXECUTABLE"
                && error.initial_spawn_failure == Some(InitialSpawnFailure::NotExecutable),
            TerminalExecFailureClass::Other => error.code == "MCSPAWN-FAILED"
                && error.initial_spawn_failure is None,
        })),
{
}

} // verus!
