//! The terminal receipt of a sealed provider: one `name=value` line per fact,
//! every fact exactly once and none unknown.

use vstd::prelude::*;
use vstd::string::*;

use crate::model::{EACCES, EISDIR, ENOENT, ENOEXEC, ENOTDIR, EPERM};
use crate::scan::{
    find, find_from, integer_in, lines_of_text, number_in, parse_i32, parse_number, part, pieces,
    same_chars, split_lines,
};
use crate::sealed::digest::{is_digest, valid_sha256};
use crate::text::{chars_of, join3, text_of, utf8_text};

verus! {

/// Why the provider could not execute a target.
#[derive(Clone, Copy, Debug, PartialEq, Eq, Structural)]
pub enum TerminalExecFailureClass {
    NotFound,
    NotExecutable,
    Other,
}

/// Whether the provider could execute the target.
#[derive(Clone, Copy, Debug, PartialEq, Eq, Structural)]
pub enum TerminalExecStatus {
    Succeeded,
    Failed { class: TerminalExecFailureClass, os_code: i32 },
}

/// The class of a native error number.
pub open spec fn class_of(os_code: int) -> TerminalExecFailureClass {
    if os_code == ENOENT || os_code == ENOTDIR {
        TerminalExecFailureClass::NotFound
    } else if os_code == EACCES || os_code == EPERM || os_code == ENOEXEC || os_code == EISDIR {
        TerminalExecFailureClass::NotExecutable
    } else {
        TerminalExecFailureClass::Other
    }
}

/// The class of a native error number.
pub fn classify_terminal_exec_error(os_code: i32) -> (r: TerminalExecFailureClass)
    ensures
        r == class_of(os_code as int),
{
    if os_code == ENOENT || os_code == ENOTDIR {
        TerminalExecFailureClass::NotFound
    } else if os_code == EACCES || os_code == EPERM || os_code == ENOEXEC || os_code == EISDIR {
        TerminalExecFailureClass::NotExecutable
    } else {
        TerminalExecFailureClass::Other
    }
}

/// How the enforcement of a workload's policy ended.
#[derive(Clone, Copy, Debug, PartialEq, Eq, Structural)]
pub enum PolicyTerminal {
    Retired { controls_preserved: bool, provider_resources_closed: bool },
    Other,
}

/// How a workload's policy was enforced.
#[derive(Clone, Copy, Debug, PartialEq, Eq, Structural)]
pub enum PolicyEnforcement {
    Authorized { terminal: PolicyTerminal },
    Other,
}

/// What was read from the field that tells how a policy was enforced: the
/// enforcement, and whether its parts agree, or why it could not be read.
#[derive(Debug)]
pub struct PolicyReading {
    pub enforcement: PolicyEnforcement,
    pub consistent: bool,
    pub fault: Option<String>,
}

/// One field of a receipt.
#[derive(Debug)]
pub struct Field {
    pub name: Vec<char>,
    pub value: Vec<char>,
}

/// A receipt's fields, by name.
pub type Fields = Map<Seq<char>, Seq<char>>;

/// The fields of several lines. Each line is a name, an equals sign and a value;
/// no name is empty or comes twice. The first line that breaks this decides the
/// fault.
pub open spec fn fields_of(lines: Seq<Seq<char>>) -> Result<Fields, &'static str>
    decreases lines.len(),
{
    if lines.len() == 0 {
        Ok(Map::empty())
    } else {
        match fields_of(lines.drop_last()) {
            Err(fault) => Err(fault),
            Ok(before) => {
                let line = lines.last();
                let at = find_from(line, '=', 0);
                if at >= line.len() {
                    Err("terminal receipt field is malformed")
                } else if at == 0 || before.dom().contains(line.subrange(0, at)) {
                    Err("terminal receipt contains an empty or duplicate field")
                } else {
                    Ok(
                        before.insert(
                            line.subrange(0, at),
                            line.subrange(at + 1, line.len() as int),
                        ),
                    )
                }
            },
        }
    }
}

/// The fields in a list, by name.
pub open spec fn named(list: Seq<Field>) -> Fields
    decreases list.len(),
{
    if list.len() == 0 {
        Map::empty()
    } else {
        named(list.drop_last()).insert(list.last().name@, list.last().value@)
    }
}

/// The names of a list of fields are all different.
pub open spec fn distinct(list: Seq<Field>) -> bool {
    forall|i: int, j: int|
        0 <= i < j < list.len() ==> (#[trigger] list[i]).name@ != (#[trigger] list[j]).name@
}

/// Where a list of fields has a name, it has its value.
proof fn lemma_named(list: Seq<Field>)
    requires
        distinct(list),
    ensures
        forall|i: int|
            0 <= i < list.len() ==> named(list).dom().contains((#[trigger] list[i]).name@)
                && named(list)[list[i].name@] == list[i].value@,
        forall|name: Seq<char>| #[trigger]
            named(list).dom().contains(name) ==> exists|i: int|
                0 <= i < list.len() && (#[trigger] list[i]).name@ == name,
    decreases list.len(),
{
    if list.len() > 0 {
        let head = list.drop_last();
        assert(distinct(head)) by {
            assert forall|i: int, j: int| 0 <= i < j < head.len() implies (#[trigger] head[i]).name@
                != (#[trigger] head[j]).name@ by {
                assert(list[i].name@ != list[j].name@);
            }
        }
        lemma_named(head);
        assert forall|i: int| 0 <= i < list.len() implies named(list).dom().contains(
            (#[trigger] list[i]).name@,
        ) && named(list)[list[i].name@] == list[i].value@ by {
            if i < head.len() {
                assert(head[i] == list[i]);
                assert(list[i].name@ != list[list.len() - 1].name@);
            }
        }
        assert forall|name: Seq<char>| #[trigger] named(list).dom().contains(name) implies exists|
            i: int,
        |
            0 <= i < list.len() && (#[trigger] list[i]).name@ == name by {
            if name == list.last().name@ {
                assert(list[list.len() - 1].name@ == name);
            } else {
                assert(named(head).dom().contains(name));
                let i = choose|i: int| 0 <= i < head.len() && (#[trigger] head[i]).name@ == name;
                assert(list[i].name@ == name);
            }
        }
    }
}

/// Once some lines hold a fault, more lines do not change it.
proof fn lemma_fields_fault(lines: Seq<Seq<char>>, n: int)
    requires
        0 <= n <= lines.len(),
        fields_of(lines.take(n)) is Err,
    ensures
        fields_of(lines) == fields_of(lines.take(n)),
    decreases lines.len() - n,
{
    if n == lines.len() {
        assert(lines.take(n) =~= lines);
    } else {
        assert(lines.take(n + 1).drop_last() =~= lines.take(n));
        lemma_fields_fault(lines, n + 1);
    }
}

/// Looks a field up.
fn lookup<'a>(list: &'a Vec<Field>, name: &[char]) -> (r: Option<&'a Vec<char>>)
    requires
        distinct(list@),
    ensures
        match r {
            Some(value) => named(list@).dom().contains(name@) && named(list@)[name@] == value@,
            None => !named(list@).dom().contains(name@),
        },
{
    proof {
        lemma_named(list@);
    }
    let mut i: usize = 0;
    while i < list.len()
        invariant
            i <= list.len(),
            forall|k: int| 0 <= k < i ==> (#[trigger] list@[k]).name@ != name@,
            forall|k: int|
                0 <= k < list@.len() ==> named(list@).dom().contains((#[trigger] list@[k]).name@)
                    && named(list@)[list@[k].name@] == list@[k].value@,
            forall|n: Seq<char>| #[trigger]
                named(list@).dom().contains(n) ==> exists|k: int|
                    0 <= k < list@.len() && (#[trigger] list@[k]).name@ == n,
        decreases list.len() - i,
    {
        if same_chars(list[i].name.as_slice(), name) {
            return Some(&list[i].value);
        }
        i += 1;
    }
    None
}

/// Splits the lines of a receipt into fields.
fn split_fields(lines: &Vec<Vec<char>>) -> (r: Result<Vec<Field>, &'static str>)
    ensures
        match r {
            Ok(list) => distinct(list@) && fields_of(pieces(lines@)) == Ok::<Fields, &'static str>(
                named(list@),
            ),
            Err(fault) => fields_of(pieces(lines@)) == Err::<Fields, &'static str>(fault),
        },
{
    let ghost all = pieces(lines@);
    let mut list: Vec<Field> = Vec::new();
    let mut i: usize = 0;
    assert(all.take(0) =~= Seq::empty());
    while i < lines.len()
        invariant
            i <= lines.len(),
            all == pieces(lines@),
            distinct(list@),
            fields_of(all.take(i as int)) == Ok::<Fields, &'static str>(named(list@)),
        decreases lines.len() - i,
    {
        assert(all.take(i + 1).drop_last() =~= all.take(i as int));
        assert(all.take(i + 1).last() == lines@[i as int]@);
        let line = lines[i].as_slice();
        let at = find(line, '=', 0);
        if at >= line.len() {
            proof {
                lemma_fields_fault(all, i + 1);
            }
            return Err("terminal receipt field is malformed");
        }
        let name = part(line, 0, at);
        if at == 0 || lookup(&list, name.as_slice()).is_some() {
            proof {
                lemma_fields_fault(all, i + 1);
            }
            return Err("terminal receipt contains an empty or duplicate field");
        }
        let value = part(line, at + 1, line.len());
        let ghost before = list@;
        proof {
            lemma_named(before);
        }
        list.push(Field { name, value });
        assert(list@.drop_last() =~= before);
        assert(distinct(list@)) by {
            assert forall|a: int, b: int| 0 <= a < b < list@.len() implies (
            #[trigger] list@[a]).name@ != (#[trigger] list@[b]).name@ by {
                if b < before.len() {
                    assert(before[a].name@ != before[b].name@);
                } else {
                    assert(named(before).dom().contains(before[a].name@));
                }
            }
        }
        i += 1;
    }
    assert(all.take(i as int) =~= all);
    Ok(list)
}

/// The fault of a field that is not there.
pub open spec fn missing(name: Seq<char>) -> Seq<char> {
    "terminal field "@ + name + " missing"@
}

/// The value of a field that has to be there.
pub open spec fn field(m: Fields, name: Seq<char>) -> Result<Seq<char>, Seq<char>> {
    if m.dom().contains(name) {
        Ok(m[name])
    } else {
        Err(missing(name))
    }
}

/// The value of a field that has to be there and to be `true` or `false`.
pub open spec fn fact(m: Fields, name: Seq<char>) -> Result<bool, Seq<char>> {
    match field(m, name) {
        Err(fault) => Err(fault),
        Ok(value) => if value == "true"@ {
            Ok(true)
        } else if value == "false"@ {
            Ok(false)
        } else {
            Err("terminal fact "@ + name + " invalid"@)
        },
    }
}

/// Gets a field that has to be there.
fn take_terminal_field<'a>(list: &'a Vec<Field>, name: &str) -> (r: Result<&'a Vec<char>, String>)
    requires
        distinct(list@),
    ensures
        match r {
            Ok(value) => field(named(list@), name@) == Ok::<Seq<char>, Seq<char>>(value@),
            Err(fault) => field(named(list@), name@) == Err::<Seq<char>, Seq<char>>(fault@),
        },
{
    let wanted = chars_of(name);
    match lookup(list, wanted.as_slice()) {
        Some(value) => Ok(value),
        None => Err(join3("terminal field ", name, " missing")),
    }
}

/// Whether some characters are those of a text.
fn is_text(value: &Vec<char>, text: &str) -> (r: bool)
    ensures
        r == (value@ == text@),
{
    let wanted = chars_of(text);
    same_chars(value.as_slice(), wanted.as_slice())
}

/// Gets a fact that has to be there.
fn take_terminal_fact(list: &Vec<Field>, name: &str) -> (r: Result<bool, String>)
    requires
        distinct(list@),
    ensures
        match r {
            Ok(value) => fact(named(list@), name@) == Ok::<bool, Seq<char>>(value),
            Err(fault) => fact(named(list@), name@) == Err::<bool, Seq<char>>(fault@),
        },
{
    let value = match take_terminal_field(list, name) {
        Ok(value) => value,
        Err(fault) => {
            return Err(fault);
        },
    };
    if is_text(value, "true") {
        Ok(true)
    } else if is_text(value, "false") {
        Ok(false)
    } else {
        Err(join3("terminal fact ", name, " invalid"))
    }
}

/// A fixed fault as a result.
pub open spec fn says<T>(text: &'static str) -> Result<T, Seq<char>> {
    Err(text@)
}

/// The first part of a receipt: its schema, its mechanism and the text that tells
/// how the policy was enforced.
pub struct HeadView {
    pub schema_version: u32,
    pub mechanism: Seq<char>,
    pub policy: Seq<char>,
}

/// The first part of a receipt with these fields.
pub open spec fn head_of(m: Fields) -> Result<HeadView, Seq<char>> {
    match field(m, "schema-version"@) {
        Err(fault) => Err(fault),
        Ok(schema) => match number_in(schema, 10, u32::MAX as nat) {
            Err(_) => says("terminal schema version invalid"),
            Ok(schema_version) => match field(m, "mechanism"@) {
                Err(fault) => Err(fault),
                Ok(mechanism) => match field(m, "policy-enforcement"@) {
                    Err(fault) => Err(fault),
                    Ok(policy) => Ok(
                        HeadView { schema_version: schema_version as u32, mechanism, policy },
                    ),
                },
            },
        },
    }
}

/// What a receipt says of the child's status and of a revoked policy: they
/// exclude each other.
pub open spec fn status_of(m: Fields) -> Result<(Option<int>, bool), Seq<char>> {
    match field(m, "status"@) {
        Err(fault) => Err(fault),
        Ok(text) => {
            let status = if text == "none"@ {
                Ok(None)
            } else {
                match integer_in(text, i32::MAX as nat) {
                    Ok(n) => Ok(Some(n)),
                    Err(_) => Err("terminal status invalid"@),
                }
            };
            match status {
                Err(fault) => Err(fault),
                Ok(status) => {
                    let name = "policy-revoked"@;
                    if m.dom().contains(name) && m[name] != "false"@ && m[name] != "true"@ {
                        says("terminal revocation flag invalid")
                    } else {
                        let revoked = m.dom().contains(name) && m[name] == "true"@;
                        if revoked != (status is None) {
                            says("terminal revocation and observed child status disagree")
                        } else {
                            Ok((status, revoked))
                        }
                    }
                },
            }
        },
    }
}

/// The execution that a name and a native error number stand for.
pub open spec fn exec_named(name: Seq<char>, code: Option<int>) -> Option<TerminalExecStatus> {
    match code {
        None => if name == "success"@ {
            Some(TerminalExecStatus::Succeeded)
        } else {
            None
        },
        Some(code) => if name == "not-found"@ {
            Some(
                TerminalExecStatus::Failed {
                    class: TerminalExecFailureClass::NotFound,
                    os_code: code as i32,
                },
            )
        } else if name == "not-executable"@ {
            Some(
                TerminalExecStatus::Failed {
                    class: TerminalExecFailureClass::NotExecutable,
                    os_code: code as i32,
                },
            )
        } else if name == "failed"@ {
            Some(
                TerminalExecStatus::Failed {
                    class: TerminalExecFailureClass::Other,
                    os_code: code as i32,
                },
            )
        } else {
            None
        },
    }
}

/// The exit status with which a launcher reports a failed execution.
pub open spec fn reported_status(class: TerminalExecFailureClass) -> int {
    match class {
        TerminalExecFailureClass::NotFound => 127,
        _ => 126,
    }
}

/// What a receipt says of the target's execution, given the child's status.
pub open spec fn exec_of(m: Fields, status: Option<int>) -> Result<TerminalExecStatus, Seq<char>> {
    match field(m, "exec-status"@) {
        Err(fault) => Err(fault),
        Ok(name) => match field(m, "exec-os-code"@) {
            Err(fault) => Err(fault),
            Ok(text) => {
                let code = if text == "none"@ {
                    Ok(None)
                } else {
                    match integer_in(text, i32::MAX as nat) {
                        Ok(n) => Ok(Some(n)),
                        Err(_) => Err("terminal exec OS code invalid"@),
                    }
                };
                match code {
                    Err(fault) => Err(fault),
                    Ok(code) => match fact(m, "spawn-error-reported"@) {
                        Err(fault) => Err(fault),
                        Ok(false) => says(
                            "terminal receipt omitted verified spawn-error reporting",
                        ),
                        Ok(true) => match exec_named(name, code) {
                            None => says("terminal exec status and OS code are contradictory"),
                            Some(TerminalExecStatus::Succeeded) => Ok(
                                TerminalExecStatus::Succeeded,
                            ),
                            Some(TerminalExecStatus::Failed { class, os_code }) => if os_code <= 0
                                || class_of(os_code as int) != class {
                                says("terminal exec errno classification mismatch")
                            } else if status != Some(reported_status(class)) {
                                says("terminal exec failure and child status are contradictory")
                            } else {
                                Ok(TerminalExecStatus::Failed { class, os_code })
                            },
                        },
                    },
                }
            },
        },
    }
}

/// What a receipt says of the target and of its caller.
pub struct CallerView {
    pub target_pid: u32,
    pub authorization_offset_millis: u64,
    pub envelope_digest: Seq<char>,
    pub bounding_set_digest: Seq<char>,
    pub mount_namespace_digest: Seq<char>,
}

/// The part of a receipt on the target and its caller.
pub open spec fn caller_of(m: Fields) -> Result<CallerView, Seq<char>> {
    match field(m, "target-pid"@) {
        Err(fault) => Err(fault),
        Ok(pid) => match number_in(pid, 10, u32::MAX as nat) {
            Err(_) => says("terminal target pid invalid"),
            Ok(target_pid) => match field(m, "authorization-offset-millis"@) {
                Err(fault) => Err(fault),
                Ok(offset) => match number_in(offset, 10, u64::MAX as nat) {
                    Err(_) => says("terminal authorization offset invalid"),
                    Ok(authorization_offset_millis) => digests_of(
                        m,
                        target_pid as u32,
                        authorization_offset_millis as u64,
                    ),
                },
            },
        },
    }
}

/// The digests of a receipt, and the one way it may treat credentials.
pub open spec fn digests_of(m: Fields, target_pid: u32, authorization_offset_millis: u64) -> Result<
    CallerView,
    Seq<char>,
> {
    match field(m, "caller-envelope-digest"@) {
        Err(fault) => Err(fault),
        Ok(envelope_digest) => match field(m, "caller-capability-bounding-set-digest"@) {
            Err(fault) => Err(fault),
            Ok(bounding_set_digest) => match field(m, "caller-mount-namespace-digest"@) {
                Err(fault) => Err(fault),
                Ok(mount_namespace_digest) => if !is_digest(envelope_digest) || !is_digest(
                    bounding_set_digest,
                ) || !is_digest(mount_namespace_digest) {
                    says("terminal caller-envelope digest is invalid")
                } else {
                    match field(m, "credential-transition-disposition"@) {
                        Err(fault) => Err(fault),
                        Ok(disposition) => if disposition != "preserve-caller-envelope"@ {
                            says("terminal credential-transition disposition is invalid")
                        } else {
                            Ok(
                                CallerView {
                                    target_pid,
                                    authorization_offset_millis,
                                    envelope_digest,
                                    bounding_set_digest,
                                    mount_namespace_digest,
                                },
                            )
                        },
                    }
                },
            },
        },
    }
}

/// The facts of a receipt, in the order in which they are read.
pub open spec fn fact_names() -> Seq<&'static str> {
    seq![
        "assignment-verified",
        "namespaces-verified",
        "target-initial-credentials-verified",
        "initial-provider-capabilities-absent",
        "caller-no-new-privs",
        "target-no-new-privs-matched",
        "target-capability-bounding-set-matched",
        "target-mount-context-derived-from-caller",
        "boundary-independent-of-credentials",
        "descriptors-verified",
        "writable-ancestor-cgroup-denied",
        "parent-namespace-handles-denied",
        "recursive-provider-request-denied",
        "guardian-ready-before-authorization",
        "frontend-loss-authority-verified",
        "cgroup-kill-invoked",
        "cgroup-empty",
        "init-reaped",
        "guardian-reaped",
        "boundary-retired",
        "memory-limit-exceeded",
        "deadline-exceeded",
    ]
}

/// The first `n` facts, or the fault of the first that is not there or says
/// neither `true` nor `false`.
pub open spec fn facts_of(m: Fields, n: nat) -> Result<Seq<bool>, Seq<char>>
    decreases n,
{
    if n == 0 {
        Ok(Seq::empty())
    } else {
        match facts_of(m, (n - 1) as nat) {
            Err(fault) => Err(fault),
            Ok(before) => match fact(m, fact_names()[n - 1]@) {
                Err(fault) => Err(fault),
                Ok(value) => Ok(before.push(value)),
            },
        }
    }
}

/// The facts of a receipt by name.
#[derive(Clone, Copy, Debug, PartialEq, Eq, Structural)]
pub struct TerminalFacts {
    pub assignment_verified: bool,
    pub namespaces_verified: bool,
    pub target_initial_credentials_verified: bool,
    pub initial_provider_capabilities_absent: bool,
    pub caller_no_new_privs: bool,
    pub target_no_new_privs_matched: bool,
    pub target_capability_bounding_set_matched: bool,
    pub target_mount_context_derived_from_caller: bool,
    pub boundary_independent_of_credentials: bool,
    pub descriptors_verified: bool,
    pub writable_ancestor_cgroup_denied: bool,
    pub parent_namespace_handles_denied: bool,
    pub recursive_provider_request_denied: bool,
    pub guardian_ready: bool,
    pub frontend_loss_authority: bool,
    pub cgroup_kill: bool,
    pub cgroup_empty: bool,
    pub init_reaped: bool,
    pub guardian_reaped: bool,
    pub boundary_retired: bool,
    pub memory_limit_exceeded: bool,
    pub deadline_exceeded: bool,
}

/// The facts in the order in which they are read.
pub open spec fn facts_in(s: Seq<bool>) -> TerminalFacts {
    TerminalFacts {
        assignment_verified: s[0],
        namespaces_verified: s[1],
        target_initial_credentials_verified: s[2],
        initial_provider_capabilities_absent: s[3],
        caller_no_new_privs: s[4],
        target_no_new_privs_matched: s[5],
        target_capability_bounding_set_matched: s[6],
        target_mount_context_derived_from_caller: s[7],
        boundary_independent_of_credentials: s[8],
        descriptors_verified: s[9],
        writable_ancestor_cgroup_denied: s[10],
        parent_namespace_handles_denied: s[11],
        recursive_provider_request_denied: s[12],
        guardian_ready: s[13],
        frontend_loss_authority: s[14],
        cgroup_kill: s[15],
        cgroup_empty: s[16],
        init_reaped: s[17],
        guardian_reaped: s[18],
        boundary_retired: s[19],
        memory_limit_exceeded: s[20],
        deadline_exceeded: s[21],
    }
}

/// The names of a receipt's other fields.
pub open spec fn other_names() -> Seq<&'static str> {
    seq![
        "schema-version",
        "mechanism",
        "policy-enforcement",
        "status",
        "policy-revoked",
        "exec-status",
        "exec-os-code",
        "spawn-error-reported",
        "target-pid",
        "authorization-offset-millis",
        "caller-envelope-digest",
        "caller-capability-bounding-set-digest",
        "caller-mount-namespace-digest",
        "credential-transition-disposition",
    ]
}

/// Whether a list of names holds a name.
pub open spec fn holds(names: Seq<&'static str>, name: Seq<char>) -> bool {
    exists|i: int| 0 <= i < names.len() && (#[trigger] names[i])@ == name
}

/// Whether every field of a receipt is one that receipts have.
pub open spec fn all_known(m: Fields) -> bool {
    forall|name: Seq<char>| #[trigger]
        m.dom().contains(name) ==> holds(fact_names(), name) || holds(other_names(), name)
}

/// Whether a revoked policy was retired in full: nothing lives, nothing is left
/// open, and the deadline is not what ended it.
pub open spec fn revocation_complete(enforcement: PolicyEnforcement, facts: TerminalFacts) -> bool {
    &&& !facts.deadline_exceeded
    &&& enforcement == (PolicyEnforcement::Authorized {
        terminal: PolicyTerminal::Retired {
            controls_preserved: true,
            provider_resources_closed: true,
        },
    })
    &&& facts.cgroup_empty && facts.init_reaped && facts.guardian_reaped && facts.boundary_retired
}

/// The terminal receipt of a sealed attempt.
#[derive(Debug)]
pub struct TerminalReceipt {
    pub policy_enforcement: PolicyEnforcement,
    pub schema_version: u32,
    pub mechanism: String,
    pub status: Option<i32>,
    pub policy_revoked: bool,
    pub exec_status: TerminalExecStatus,
    pub spawn_error_reported: bool,
    pub target_pid: u32,
    pub authorization_offset_millis: u64,
    pub caller_envelope_digest: String,
    pub caller_capability_bounding_set_digest: String,
    pub caller_mount_namespace_digest: String,
    pub facts: TerminalFacts,
}

/// What a receipt says.
pub struct TerminalView {
    pub policy_enforcement: PolicyEnforcement,
    pub schema_version: u32,
    pub mechanism: Seq<char>,
    pub status: Option<int>,
    pub policy_revoked: bool,
    pub exec_status: TerminalExecStatus,
    pub spawn_error_reported: bool,
    pub caller: CallerView,
    pub facts: TerminalFacts,
}

/// An optional exit status as an integer.
pub open spec fn opt_int(o: Option<i32>) -> Option<int> {
    match o {
        Some(n) => Some(n as int),
        None => None,
    }
}

impl View for TerminalReceipt {
    type V = TerminalView;

    open spec fn view(&self) -> TerminalView {
        TerminalView {
            policy_enforcement: self.policy_enforcement,
            schema_version: self.schema_version,
            mechanism: self.mechanism@,
            status: opt_int(self.status),
            policy_revoked: self.policy_revoked,
            exec_status: self.exec_status,
            spawn_error_reported: self.spawn_error_reported,
            caller: CallerView {
                target_pid: self.target_pid,
                authorization_offset_millis: self.authorization_offset_millis,
                envelope_digest: self.caller_envelope_digest@,
                bounding_set_digest: self.caller_capability_bounding_set_digest@,
                mount_namespace_digest: self.caller_mount_namespace_digest@,
            },
            facts: self.facts,
        }
    }
}

/// The fault of the field that tells how the policy was enforced, or of the
/// receipt's schema.
pub open spec fn policy_fault(head: HeadView, policy: PolicyReading) -> Option<Seq<char>> {
    if policy.fault is Some {
        Some(policy.fault->0@)
    } else if !policy.consistent {
        Some("terminal policy enforcement differs"@)
    } else if head.schema_version != 2 || head.mechanism != "linux-pid-namespace-cgroup-v2"@ {
        Some("terminal receipt schema or mechanism is incompatible"@)
    } else {
        None
    }
}

/// The last checks on a receipt.
pub open spec fn tail_of(
    m: Fields,
    revoked: bool,
    enforcement: PolicyEnforcement,
    facts: TerminalFacts,
) -> Option<Seq<char>> {
    if revoked && !revocation_complete(enforcement, facts) {
        Some("terminal policy revocation lacks verified admission retirement"@)
    } else if !all_known(m) {
        Some("terminal receipt contains unknown fields"@)
    } else {
        None
    }
}

/// What a receipt with these fields says, given what was read of its policy.
pub open spec fn receipt_of(m: Fields, policy: PolicyReading) -> Result<TerminalView, Seq<char>> {
    match head_of(m) {
        Err(fault) => Err(fault),
        Ok(head) => match policy_fault(head, policy) {
            Some(fault) => Err(fault),
            None => match status_of(m) {
                Err(fault) => Err(fault),
                Ok((status, policy_revoked)) => match exec_of(m, status) {
                    Err(fault) => Err(fault),
                    Ok(exec_status) => match caller_of(m) {
                        Err(fault) => Err(fault),
                        Ok(caller) => match facts_of(m, 22) {
                            Err(fault) => Err(fault),
                            Ok(list) => match tail_of(
                                m,
                                policy_revoked,
                                policy.enforcement,
                                facts_in(list),
                            ) {
                                Some(fault) => Err(fault),
                                None => Ok(
                                    TerminalView {
                                        policy_enforcement: policy.enforcement,
                                        schema_version: head.schema_version,
                                        mechanism: head.mechanism,
                                        status,
                                        policy_revoked,
                                        exec_status,
                                        spawn_error_reported: true,
                                        caller,
                                        facts: facts_in(list),
                                    },
                                ),
                            },
                        },
                    },
                },
            },
        },
    }
}

/// The fields of a receipt: it is not longer than `limit`, is text, and its last
/// line is complete.
pub open spec fn payload_fields(payload: Seq<u8>, limit: nat) -> Result<Fields, &'static str> {
    if payload.len() > limit {
        Err("terminal receipt exceeds limit")
    } else if !vstd::utf8::valid_utf8(payload) {
        Err("terminal receipt encoding")
    } else if payload.len() == 0 || payload.last() != 10 {
        Err("terminal receipt is not newline terminated")
    } else {
        fields_of(lines_of_text(vstd::utf8::decode_utf8(payload)))
    }
}

/// What a terminal receipt says.
pub open spec fn terminal_of(payload: Seq<u8>, limit: nat, policy: PolicyReading) -> Result<
    TerminalView,
    Seq<char>,
> {
    match payload_fields(payload, limit) {
        Err(fault) => says(fault),
        Ok(m) => receipt_of(m, policy),
    }
}

fn fact_list() -> (r: Vec<&'static str>)
    ensures
        r@ == fact_names(),
{
    let mut names: Vec<&'static str> = Vec::new();
    names.push("assignment-verified");
    names.push("namespaces-verified");
    names.push("target-initial-credentials-verified");
    names.push("initial-provider-capabilities-absent");
    names.push("caller-no-new-privs");
    names.push("target-no-new-privs-matched");
    names.push("target-capability-bounding-set-matched");
    names.push("target-mount-context-derived-from-caller");
    names.push("boundary-independent-of-credentials");
    names.push("descriptors-verified");
    names.push("writable-ancestor-cgroup-denied");
    names.push("parent-namespace-handles-denied");
    names.push("recursive-provider-request-denied");
    names.push("guardian-ready-before-authorization");
    names.push("frontend-loss-authority-verified");
    names.push("cgroup-kill-invoked");
    names.push("cgroup-empty");
    names.push("init-reaped");
    names.push("guardian-reaped");
    names.push("boundary-retired");
    names.push("memory-limit-exceeded");
    names.push("deadline-exceeded");
    assert(names@ =~= fact_names());
    names
}

fn other_list() -> (r: Vec<&'static str>)
    ensures
        r@ == other_names(),
{
    let mut names: Vec<&'static str> = Vec::new();
    names.push("schema-version");
    names.push("mechanism");
    names.push("policy-enforcement");
    names.push("status");
    names.push("policy-revoked");
    names.push("exec-status");
    names.push("exec-os-code");
    names.push("spawn-error-reported");
    names.push("target-pid");
    names.push("authorization-offset-millis");
    names.push("caller-envelope-digest");
    names.push("caller-capability-bounding-set-digest");
    names.push("caller-mount-namespace-digest");
    names.push("credential-transition-disposition");
    assert(names@ =~= other_names());
    names
}

fn listed(names: &Vec<&'static str>, name: &Vec<char>) -> (r: bool)
    ensures
        r == holds(names@, name@),
{
    let mut i: usize = 0;
    while i < names.len()
        invariant
            i <= names.len(),
            forall|k: int| 0 <= k < i ==> (#[trigger] names@[k])@ != name@,
        decreases names.len() - i,
    {
        if is_text(name, names[i]) {
            return true;
        }
        i += 1;
    }
    false
}

/// Whether every field is one that receipts have.
fn only_known(list: &Vec<Field>) -> (r: bool)
    requires
        distinct(list@),
    ensures
        r == all_known(named(list@)),
{
    proof {
        lemma_named(list@);
    }
    let facts = fact_list();
    let others = other_list();
    let mut i: usize = 0;
    while i < list.len()
        invariant
            i <= list.len(),
            facts@ == fact_names(),
            others@ == other_names(),
            forall|k: int|
                0 <= k < i ==> holds(fact_names(), (#[trigger] list@[k]).name@) || holds(
                    other_names(),
                    list@[k].name@,
                ),
            forall|k: int|
                0 <= k < list@.len() ==> named(list@).dom().contains((#[trigger] list@[k]).name@),
            forall|n: Seq<char>| #[trigger]
                named(list@).dom().contains(n) ==> exists|k: int|
                    0 <= k < list@.len() && (#[trigger] list@[k]).name@ == n,
        decreases list.len() - i,
    {
        if !listed(&facts, &list[i].name) && !listed(&others, &list[i].name) {
            assert(named(list@).dom().contains(list@[i as int].name@));
            return false;
        }
        i += 1;
    }
    true
}

/// A fault in facts that were read stays when more are read.
proof fn lemma_facts_fault(m: Fields, a: nat, b: nat)
    requires
        a <= b,
        facts_of(m, a) is Err,
    ensures
        facts_of(m, b) == facts_of(m, a),
    decreases b,
{
    if a < b {
        lemma_facts_fault(m, a, (b - 1) as nat);
    }
}

/// As many facts come out as are read.
proof fn lemma_facts_len(m: Fields, n: nat)
    ensures
        facts_of(m, n) matches Ok(list) ==> list.len() == n,
    decreases n,
{
    if n > 0 {
        lemma_facts_len(m, (n - 1) as nat);
    }
}

fn read_facts(list: &Vec<Field>) -> (r: Result<TerminalFacts, String>)
    requires
        distinct(list@),
    ensures
        match r {
            Ok(facts) => facts_of(named(list@), 22) matches Ok(found) && facts == facts_in(found),
            Err(fault) => facts_of(named(list@), 22) == Err::<Seq<bool>, Seq<char>>(fault@),
        },
{
    let names = fact_list();
    let ghost m = named(list@);
    let mut found: Vec<bool> = Vec::new();
    let mut i: usize = 0;
    while i < 22
        invariant
            i <= 22,
            distinct(list@),
            names@ == fact_names(),
            m == named(list@),
            found@.len() == i,
            facts_of(m, i as nat) == Ok::<Seq<bool>, Seq<char>>(found@),
        decreases 22 - i,
    {
        match take_terminal_fact(list, names[i]) {
            Ok(value) => {
                found.push(value);
            },
            Err(fault) => {
                proof {
                    lemma_facts_fault(m, (i + 1) as nat, 22);
                }
                return Err(fault);
            },
        }
        i += 1;
    }
    Ok(
        TerminalFacts {
            assignment_verified: found[0],
            namespaces_verified: found[1],
            target_initial_credentials_verified: found[2],
            initial_provider_capabilities_absent: found[3],
            caller_no_new_privs: found[4],
            target_no_new_privs_matched: found[5],
            target_capability_bounding_set_matched: found[6],
            target_mount_context_derived_from_caller: found[7],
            boundary_independent_of_credentials: found[8],
            descriptors_verified: found[9],
            writable_ancestor_cgroup_denied: found[10],
            parent_namespace_handles_denied: found[11],
            recursive_provider_request_denied: found[12],
            guardian_ready: found[13],
            frontend_loss_authority: found[14],
            cgroup_kill: found[15],
            cgroup_empty: found[16],
            init_reaped: found[17],
            guardian_reaped: found[18],
            boundary_retired: found[19],
            memory_limit_exceeded: found[20],
            deadline_exceeded: found[21],
        },
    )
}

/// The first part of a receipt.
#[derive(Debug)]
struct Head {
    schema_version: u32,
    mechanism: String,
    policy: String,
}

fn read_head(list: &Vec<Field>) -> (r: Result<Head, String>)
    requires
        distinct(list@),
    ensures
        match r {
            Ok(head) => head_of(named(list@)) == Ok::<HeadView, Seq<char>>(
                HeadView {
                    schema_version: head.schema_version,
                    mechanism: head.mechanism@,
                    policy: head.policy@,
                },
            ),
            Err(fault) => head_of(named(list@)) == Err::<HeadView, Seq<char>>(fault@),
        },
{
    let schema = match take_terminal_field(list, "schema-version") {
        Ok(value) => value,
        Err(fault) => {
            return Err(fault);
        },
    };
    let schema_version: u32 = match parse_number(schema.as_slice(), 10, u32::MAX as u64) {
        Ok(n) => n as u32,
        Err(_) => {
            return Err("terminal schema version invalid".to_owned());
        },
    };
    let mechanism = match take_terminal_field(list, "mechanism") {
        Ok(value) => value,
        Err(fault) => {
            return Err(fault);
        },
    };
    let policy = match take_terminal_field(list, "policy-enforcement") {
        Ok(value) => value,
        Err(fault) => {
            return Err(fault);
        },
    };
    Ok(
        Head {
            schema_version,
            mechanism: text_of(mechanism.as_slice()),
            policy: text_of(policy.as_slice()),
        },
    )
}

fn read_status(list: &Vec<Field>) -> (r: Result<(Option<i32>, bool), String>)
    requires
        distinct(list@),
    ensures
        match r {
            Ok((status, revoked)) => status_of(named(list@)) == Ok::<
                (Option<int>, bool),
                Seq<char>,
            >((opt_int(status), revoked)),
            Err(fault) => status_of(named(list@)) == Err::<(Option<int>, bool), Seq<char>>(fault@),
        },
{
    let text = match take_terminal_field(list, "status") {
        Ok(value) => value,
        Err(fault) => {
            return Err(fault);
        },
    };
    let status = if is_text(text, "none") {
        None
    } else {
        match parse_i32(text.as_slice()) {
            Ok(n) => Some(n),
            Err(_) => {
                return Err("terminal status invalid".to_owned());
            },
        }
    };
    let name = chars_of("policy-revoked");
    let revoked = match lookup(list, name.as_slice()) {
        None => false,
        Some(value) => {
            if is_text(value, "false") {
                proof {
                    reveal_strlit("true");
                    reveal_strlit("false");
                    assert("true"@.len() != "false"@.len());
                }
                false
            } else if is_text(value, "true") {
                true
            } else {
                return Err("terminal revocation flag invalid".to_owned());
            }
        },
    };
    if revoked != status.is_none() {
        return Err("terminal revocation and observed child status disagree".to_owned());
    }
    Ok((status, revoked))
}

fn read_exec(list: &Vec<Field>, status: Option<i32>) -> (r: Result<TerminalExecStatus, String>)
    requires
        distinct(list@),
    ensures
        match r {
            Ok(exec) => exec_of(named(list@), opt_int(status)) == Ok::<
                TerminalExecStatus,
                Seq<char>,
            >(exec),
            Err(fault) => exec_of(named(list@), opt_int(status)) == Err::<
                TerminalExecStatus,
                Seq<char>,
            >(fault@),
        },
{
    let name = match take_terminal_field(list, "exec-status") {
        Ok(value) => value,
        Err(fault) => {
            return Err(fault);
        },
    };
    let text = match take_terminal_field(list, "exec-os-code") {
        Ok(value) => value,
        Err(fault) => {
            return Err(fault);
        },
    };
    let code = if is_text(text, "none") {
        None
    } else {
        match parse_i32(text.as_slice()) {
            Ok(n) => Some(n),
            Err(_) => {
                return Err("terminal exec OS code invalid".to_owned());
            },
        }
    };
    match take_terminal_fact(list, "spawn-error-reported") {
        Ok(true) => {},
        Ok(false) => {
            return Err("terminal receipt omitted verified spawn-error reporting".to_owned());
        },
        Err(fault) => {
            return Err(fault);
        },
    }
    let class = match code {
        None => {
            if is_text(name, "success") {
                return Ok(TerminalExecStatus::Succeeded);
            }
            return Err("terminal exec status and OS code are contradictory".to_owned());
        },
        Some(_) => {
            if is_text(name, "not-found") {
                TerminalExecFailureClass::NotFound
            } else if is_text(name, "not-executable") {
                TerminalExecFailureClass::NotExecutable
            } else if is_text(name, "failed") {
                TerminalExecFailureClass::Other
            } else {
                return Err("terminal exec status and OS code are contradictory".to_owned());
            }
        },
    };
    let os_code: i32 = code.unwrap();
    if os_code <= 0 || classify_terminal_exec_error(os_code) != class {
        return Err("terminal exec errno classification mismatch".to_owned());
    }
    let expected: i32 = match class {
        TerminalExecFailureClass::NotFound => 127,
        _ => 126,
    };
    let agrees = match status {
        Some(status) => status == expected,
        None => false,
    };
    if !agrees {
        return Err("terminal exec failure and child status are contradictory".to_owned());
    }
    Ok(TerminalExecStatus::Failed { class, os_code })
}

/// The part of a receipt on the target and its caller.
#[derive(Debug)]
struct Caller {
    target_pid: u32,
    authorization_offset_millis: u64,
    envelope_digest: String,
    bounding_set_digest: String,
    mount_namespace_digest: String,
}

impl Caller {
    spec fn seen(&self) -> CallerView {
        CallerView {
            target_pid: self.target_pid,
            authorization_offset_millis: self.authorization_offset_millis,
            envelope_digest: self.envelope_digest@,
            bounding_set_digest: self.bounding_set_digest@,
            mount_namespace_digest: self.mount_namespace_digest@,
        }
    }
}

fn read_caller(list: &Vec<Field>) -> (r: Result<Caller, String>)
    requires
        distinct(list@),
    ensures
        match r {
            Ok(caller) => caller_of(named(list@)) == Ok::<CallerView, Seq<char>>(caller.seen()),
            Err(fault) => caller_of(named(list@)) == Err::<CallerView, Seq<char>>(fault@),
        },
{
    let pid = match take_terminal_field(list, "target-pid") {
        Ok(value) => value,
        Err(fault) => {
            return Err(fault);
        },
    };
    let target_pid: u32 = match parse_number(pid.as_slice(), 10, u32::MAX as u64) {
        Ok(n) => n as u32,
        Err(_) => {
            return Err("terminal target pid invalid".to_owned());
        },
    };
    let offset = match take_terminal_field(list, "authorization-offset-millis") {
        Ok(value) => value,
        Err(fault) => {
            return Err(fault);
        },
    };
    let authorization_offset_millis: u64 = match parse_number(offset.as_slice(), 10, u64::MAX) {
        Ok(n) => n,
        Err(_) => {
            return Err("terminal authorization offset invalid".to_owned());
        },
    };
    let envelope = match take_terminal_field(list, "caller-envelope-digest") {
        Ok(value) => value,
        Err(fault) => {
            return Err(fault);
        },
    };
    let bounding = match take_terminal_field(list, "caller-capability-bounding-set-digest") {
        Ok(value) => value,
        Err(fault) => {
            return Err(fault);
        },
    };
    let mount = match take_terminal_field(list, "caller-mount-namespace-digest") {
        Ok(value) => value,
        Err(fault) => {
            return Err(fault);
        },
    };
    if !valid_sha256(envelope.as_slice()) || !valid_sha256(bounding.as_slice()) || !valid_sha256(
        mount.as_slice(),
    ) {
        return Err("terminal caller-envelope digest is invalid".to_owned());
    }
    let disposition = match take_terminal_field(list, "credential-transition-disposition") {
        Ok(value) => value,
        Err(fault) => {
            return Err(fault);
        },
    };
    if !is_text(disposition, "preserve-caller-envelope") {
        return Err("terminal credential-transition disposition is invalid".to_owned());
    }
    Ok(
        Caller {
            target_pid,
            authorization_offset_millis,
            envelope_digest: text_of(envelope.as_slice()),
            bounding_set_digest: text_of(bounding.as_slice()),
            mount_namespace_digest: text_of(mount.as_slice()),
        },
    )
}

fn read_payload(payload: &[u8], limit: usize) -> (r: Result<Vec<Field>, &'static str>)
    ensures
        match r {
            Ok(list) => distinct(list@) && payload_fields(payload@, limit as nat) == Ok::<
                Fields,
                &'static str,
            >(named(list@)),
            Err(fault) => payload_fields(payload@, limit as nat) == Err::<Fields, &'static str>(
                fault,
            ),
        },
{
    if payload.len() > limit {
        return Err("terminal receipt exceeds limit");
    }
    let text = match utf8_text(payload) {
        Some(text) => text,
        None => {
            return Err("terminal receipt encoding");
        },
    };
    if payload.len() == 0 || payload[payload.len() - 1] != 10 {
        return Err("terminal receipt is not newline terminated");
    }
    let chars = chars_of(text);
    let lines = split_lines(chars.as_slice());
    split_fields(&lines)
}

/// The text that tells how the policy was enforced: the receipt's first checks
/// come before it.
pub fn terminal_policy(payload: &[u8], limit: usize) -> (r: Result<String, String>)
    ensures
        match r {
            Ok(policy) => payload_fields(payload@, limit as nat) matches Ok(m) && (head_of(
                m,
            ) matches Ok(head) && policy@ == head.policy),
            Err(fault) => match payload_fields(payload@, limit as nat) {
                Err(text) => fault@ == text@,
                Ok(m) => head_of(m) == Err::<HeadView, Seq<char>>(fault@),
            },
        },
{
    let list = match read_payload(payload, limit) {
        Ok(list) => list,
        Err(fault) => {
            return Err(fault.to_owned());
        },
    };
    match read_head(&list) {
        Ok(head) => Ok(head.policy),
        Err(fault) => Err(fault),
    }
}

/// Reads a terminal receipt; `policy` is what was read from the text that
/// `terminal_policy` gives.
pub fn parse_terminal(payload: &[u8], limit: usize, policy: &PolicyReading) -> (r: Result<
    TerminalReceipt,
    String,
>)
    ensures
        match r {
            Ok(receipt) => terminal_of(payload@, limit as nat, *policy) == Ok::<
                TerminalView,
                Seq<char>,
            >(receipt@),
            Err(fault) => terminal_of(payload@, limit as nat, *policy) == Err::<
                TerminalView,
                Seq<char>,
            >(fault@),
        },
{
    let list = match read_payload(payload, limit) {
        Ok(list) => list,
        Err(fault) => {
            return Err(fault.to_owned());
        },
    };
    let head = match read_head(&list) {
        Ok(head) => head,
        Err(fault) => {
            return Err(fault);
        },
    };
    if let Some(fault) = &policy.fault {
        return Err(fault.clone());
    }
    if !policy.consistent {
        return Err("terminal policy enforcement differs".to_owned());
    }
    let mechanism = chars_of(head.mechanism.as_str());
    if head.schema_version != 2 || !is_text(&mechanism, "linux-pid-namespace-cgroup-v2") {
        return Err("terminal receipt schema or mechanism is incompatible".to_owned());
    }
    let (status, policy_revoked) = match read_status(&list) {
        Ok(found) => found,
        Err(fault) => {
            return Err(fault);
        },
    };
    let exec_status = match read_exec(&list, status) {
        Ok(exec_status) => exec_status,
        Err(fault) => {
            return Err(fault);
        },
    };
    let caller = match read_caller(&list) {
        Ok(caller) => caller,
        Err(fault) => {
            return Err(fault);
        },
    };
    let facts = match read_facts(&list) {
        Ok(facts) => facts,
        Err(fault) => {
            return Err(fault);
        },
    };
    let retired = match policy.enforcement {
        PolicyEnforcement::Authorized { terminal } => match terminal {
            PolicyTerminal::Retired { controls_preserved, provider_resources_closed } =>
                controls_preserved && provider_resources_closed,
            PolicyTerminal::Other => false,
        },
        PolicyEnforcement::Other => false,
    };
    if policy_revoked && (facts.deadline_exceeded || !retired || !facts.cgroup_empty
        || !facts.init_reaped || !facts.guardian_reaped || !facts.boundary_retired) {
        return Err("terminal policy revocation lacks verified admission retirement".to_owned());
    }
    if !only_known(&list) {
        return Err("terminal receipt contains unknown fields".to_owned());
    }
    Ok(
        TerminalReceipt {
            policy_enforcement: policy.enforcement,
            schema_version: head.schema_version,
            mechanism: head.mechanism,
            status,
            policy_revoked,
            exec_status,
            spawn_error_reported: true,
            target_pid: caller.target_pid,
            authorization_offset_millis: caller.authorization_offset_millis,
            caller_envelope_digest: caller.envelope_digest,
            caller_capability_bounding_set_digest: caller.bounding_set_digest,
            caller_mount_namespace_digest: caller.mount_namespace_digest,
            facts,
        },
    )
}

/// An accepted receipt has one child status unless its policy was revoked, and
/// then it says that everything was retired.
pub proof fn accepted_receipt_is_consistent(m: Fields, policy: PolicyReading)
    ensures
        receipt_of(m, policy) matches Ok(t) ==> {
            &&& t.schema_version == 2 && t.spawn_error_reported
            &&& t.policy_revoked <==> t.status is None
            &&& t.policy_revoked ==> revocation_complete(t.policy_enforcement, t.facts)
            &&& t.exec_status matches TerminalExecStatus::Failed { class, os_code } ==> os_code > 0
                && class_of(os_code as int) == class && t.status == Some(reported_status(class))
        },
{
}

/// A receipt with a field that receipts do not have is refused.
pub proof fn unknown_fields_are_refused(m: Fields, policy: PolicyReading, name: Seq<char>)
    requires
        m.dom().contains(name),
        !holds(fact_names(), name),
        !holds(other_names(), name),
    ensures
        receipt_of(m, policy) is Err,
{
}

} // verus!
