//! Children on macOS: the table of those that are owed a reaping, what became of
//! them, and the search for the program that a launcher executes.

use vstd::prelude::*;
use vstd::string::*;

use crate::evidence::ChildTermination;
use crate::macos_protocol::Message;
use crate::model::{Fault, FaultKind, EACCES, ENOENT, ENOTDIR};
use crate::text::join2;
use crate::time::{least, Duration};

verus! {

/// How many children can be owed a reaping at a time.
pub const SLOTS: usize = 256;

/// The mark of a place that is taken for a child to come.
pub const RESERVED: i32 = -2147483648;

/// The native error number of a missing child.
pub const ECHILD: i32 = 10;

/// The native error number of an argument that is none.
pub const EINVAL: i32 = 22;

/// The table of children: per place nothing, the mark, the number of a child that
/// someone holds, or the negated number of one that nobody holds any more; and per
/// place the number of a child that must go first, if there is one.
#[derive(Debug)]
pub struct ChildTable {
    pub slots: Vec<i32>,
    pub dependencies: Vec<i32>,
}

/// What the place of a child holds once its holder lets go of it, where that changes: a
/// child whose end is not known, and that no other process answers for, is left to
/// whoever clears up.
pub open spec fn left_owed(pid: i32, ended: bool, remote: bool) -> Option<i32> {
    if ended || remote {
        None
    } else {
        Some((-pid) as i32)
    }
}

/// What the place of a child holds once its holder lets go of it, where that changes.
pub fn handed_over(pid: i32, ended: bool, remote: bool) -> (r: Option<i32>)
    requires
        pid > 0,
    ensures
        r == left_owed(pid, ended, remote),
{
    if ended || remote {
        None
    } else {
        Some(-pid)
    }
}

impl ChildTable {
    /// Whether the table has its size.
    pub open spec fn wf(&self) -> bool {
        self.slots@.len() == SLOTS && self.dependencies@.len() == SLOTS
    }

    /// The first place from `from` on that is free.
    pub open spec fn first_free(&self, from: int) -> Option<int>
        decreases self.slots@.len() - from,
    {
        if from < 0 || from >= self.slots@.len() {
            None
        } else if self.slots@[from] == 0 {
            Some(from)
        } else {
            self.first_free(from + 1)
        }
    }

    /// Takes a place for a child to come.
    pub fn reserve(&mut self) -> (r: Result<usize, Fault>)
        requires
            old(self).wf(),
        ensures
            final(self).wf(),
            final(self).dependencies == old(self).dependencies,
            match old(self).first_free(0) {
                Some(at) => r == Ok::<usize, Fault>(at as usize) && final(self).slots@ == old(
                    self).slots@.update(at, RESERVED),
                None => final(self).slots@ == old(self).slots@ && r == Err::<usize, Fault>(
                    Fault::found(
                        FaultKind::Other,
                        "native reaper capacity exhausted by outstanding cleanup obligations",
                    ),
                ),
            },
    {
        let mut i: usize = 0;
        while i < self.slots.len()
            invariant
                i <= self.slots.len(),
                self.wf(),
                *self == *old(self),
                self.first_free(0) == self.first_free(i as int),
            decreases self.slots.len() - i,
        {
            if self.slots[i] == 0 {
                self.slots.set(i, RESERVED);
                return Ok(i);
            }
            i += 1;
        }
        Err(
            Fault::new(
                FaultKind::Other,
                "native reaper capacity exhausted by outstanding cleanup obligations",
            ),
        )
    }

    /// The child that a place was taken for came, or did not.
    pub fn created(&mut self, at: usize, pid: Option<i32>)
        requires
            old(self).wf(),
            at < SLOTS,
        ensures
            final(self).wf(),
            final(self).dependencies == old(self).dependencies,
            final(self).slots@ == old(self).slots@.update(
                at as int,
                match pid {
                    Some(number) => number,
                    None => 0,
                },
            ),
    {
        let value: i32 = match pid {
            Some(number) => number,
            None => 0,
        };
        self.slots.set(at, value);
    }

    /// The holder of a child lets go of it. One whose end is not known, and that no other
    /// process answers for, is still owed its reaping; else nothing changes.
    pub fn dropped(&mut self, at: usize, pid: i32, ended: bool, remote: bool)
        requires
            old(self).wf(),
            at < SLOTS,
            pid > 0,
        ensures
            final(self).wf(),
            final(self).dependencies == old(self).dependencies,
            final(self).slots@ == match left_owed(pid, ended, remote) {
                Some(value) => old(self).slots@.update(at as int, value),
                None => old(self).slots@,
            },
    {
        match handed_over(pid, ended, remote) {
            Some(value) => {
                self.slots.set(at, value);
            },
            None => {},
        }
    }

    /// A child was reaped: its place is free, and it waits for nobody.
    pub fn release(&mut self, at: usize)
        requires
            old(self).wf(),
            at < SLOTS,
        ensures
            final(self).wf(),
            final(self).slots@ == old(self).slots@.update(at as int, 0),
            final(self).dependencies@ == old(self).dependencies@.update(at as int, 0),
    {
        self.dependencies.set(at, 0);
        self.slots.set(at, 0);
    }

    /// Whether a child with this number is in the table, held or not.
    pub open spec fn has(&self, pid: int) -> bool {
        exists|i: int|
            0 <= i < self.slots@.len() && (#[trigger] self.slots@[i] == pid || self.slots@[i]
                == -pid)
    }

    /// Whether the child at a place is to be reaped by whoever clears up: nobody holds
    /// it, and nobody must go before it.
    pub open spec fn reapable(&self, at: int) -> bool {
        self.slots@[at] < 0 && self.slots@[at] != RESERVED && !(self.dependencies@[at] > 0
            && self.has(self.dependencies@[at] as int))
    }

    /// The number of the child at a place, where it is to be reaped.
    pub fn due(&self, at: usize) -> (r: Option<i32>)
        requires
            self.wf(),
            at < SLOTS,
        ensures
            match r {
                Some(pid) => self.reapable(at as int) && pid == -self.slots@[at as int] && pid > 0,
                None => !self.reapable(at as int),
            },
    {
        let value: i32 = self.slots[at];
        if value >= 0 || value == RESERVED {
            return None;
        }
        let dependency: i32 = self.dependencies[at];
        if dependency > 0 {
            let mut i: usize = 0;
            while i < self.slots.len()
                invariant
                    i <= self.slots.len(),
                    self.wf(),
                    at < SLOTS,
                    dependency > 0,
                    dependency == self.dependencies@[at as int],
                    forall|k: int|
                        0 <= k < i ==> #[trigger] self.slots@[k] != dependency && self.slots@[k]
                            != -dependency,
                decreases self.slots.len() - i,
            {
                if self.slots[i] == dependency || self.slots[i] == -dependency {
                    assert(self.has(dependency as int));
                    return None;
                }
                i += 1;
            }
        }
        Some(-value)
    }
}

/// A child that is let go of before its end is known is cleared up once nobody must go
/// before it; no other place changes.
pub proof fn dropped_children_are_reaped(before: ChildTable, after: ChildTable, at: int, pid: i32)
    requires
        before.wf(),
        0 <= at < SLOTS,
        pid > 0,
        after.dependencies == before.dependencies,
        after.slots@ == before.slots@.update(at, left_owed(pid, false, false)->0),
        before.dependencies@[at] == 0,
    ensures
        after.reapable(at),
        forall|i: int| 0 <= i < SLOTS && i != at ==> after.slots@[i] == before.slots@[i],
{
}

/// Whether an attempt to reap settled the matter: the child was reaped, or there is
/// none.
pub fn reaping_settled(result: i32, errno: Option<i32>) -> (r: bool)
    ensures
        r == (result > 0 || (result < 0 && errno == Some(ECHILD))),
{
    result > 0 || (result < 0 && match errno {
        Some(code) => code == ECHILD,
        None => false,
    })
}

/// What a look at a child that leaves it unreaped says of its end, as a wait status.
pub open spec fn observed(pid: i32, code: i32, status: i32) -> Result<Option<i32>, Fault> {
    if pid == 0 {
        Ok(None)
    } else if code == 1 {
        Ok(Some(status << 8u32))
    } else if code == 2 {
        Ok(Some(status))
    } else if code == 3 {
        Ok(Some(status | 0x80))
    } else {
        Err(Fault::found(FaultKind::Other, "unexpected child observation code"))
    }
}

/// What a look at a child that leaves it unreaped says of its end.
pub fn observe(pid: i32, code: i32, status: i32) -> (r: Result<Option<i32>, Fault>)
    ensures
        r == observed(pid, code, status),
{
    if pid == 0 {
        return Ok(None);
    }
    if code == 1 {
        Ok(Some(status << 8u32))
    } else if code == 2 {
        Ok(Some(status))
    } else if code == 3 {
        Ok(Some(status | 0x80))
    } else {
        Err(Fault::new(FaultKind::Other, "unexpected child observation code"))
    }
}

/// What a guardian's answer to a request to reap says: the end of the target once it
/// is reaped, which may be unknown. `shown` is how an unexpected message is shown.
pub fn reap_answer(came: Option<Message>, shown: &str) -> (r: Result<Option<Option<i32>>, Fault>)
    ensures
        match came {
            Some(Message::Status { raw, reaped }) => r == Ok::<Option<Option<i32>>, Fault>(
                if reaped {
                    Some(raw)
                } else {
                    None
                },
            ),
            _ => r matches Err(fault) && fault.kind == FaultKind::Other && fault.os_code is None
                && fault.text.chars() == "guardian did not confirm target retirement: "@ + shown@,
        },
{
    match came {
        Some(Message::Status { raw, reaped }) => {
            if reaped {
                Ok(Some(raw))
            } else {
                Ok(None)
            }
        },
        _ => Err(
            Fault {
                kind: FaultKind::Other,
                os_code: None,
                text: crate::model::Text::Given(
                    join2("guardian did not confirm target retirement: ", shown),
                ),
            },
        ),
    }
}

/// What a guardian's answer to a question about the target says.
pub fn observe_answer(came: Option<Message>) -> (r: Result<Option<i32>, Fault>)
    ensures
        match came {
            Some(Message::Status { raw, .. }) => r == Ok::<Option<i32>, Fault>(raw),
            _ => r == Err::<Option<i32>, Fault>(
                Fault::found(FaultKind::Other, "guardian target observation unavailable"),
            ),
        },
{
    match came {
        Some(Message::Status { raw, .. }) => Ok(raw),
        _ => Err(Fault::new(FaultKind::Other, "guardian target observation unavailable")),
    }
}

/// Decides how waiting for a child goes on: for how long to pause, or nothing once it
/// is reaped. `left` is what is left until the deadline.
pub fn retire_step(reaped: bool, expired: bool, left: Duration) -> (r: Result<
    Option<Duration>,
    Fault,
>)
    ensures
        if reaped {
            r == Ok::<Option<Duration>, Fault>(None)
        } else if expired {
            r == Err::<Option<Duration>, Fault>(
                Fault::found(FaultKind::TimedOut, "child remains an owned reaping obligation"),
            )
        } else {
            r matches Ok(Some(pause)) && pause@ == least(5_000_000, left@)
        },
{
    if reaped {
        return Ok(None);
    }
    if expired {
        return Err(
            Fault::new(FaultKind::TimedOut, "child remains an owned reaping obligation"),
        );
    }
    Ok(Some(Duration::from_millis(5).min(left)))
}

/// How a child ended, as `code` or `signal` of its wait status tells.
pub fn termination_from_status(code: Option<i32>, signal: Option<i32>) -> (r: ChildTermination)
    ensures
        r == match (code, signal) {
            (Some(code), _) => ChildTermination::ExitCode { code },
            (None, Some(signal)) => ChildTermination::UnixSignal { signal },
            (None, None) => ChildTermination::Unavailable,
        },
{
    match (code, signal) {
        (Some(code), _) => ChildTermination::ExitCode { code },
        (None, Some(signal)) => ChildTermination::UnixSignal { signal },
        (None, None) => ChildTermination::Unavailable,
    }
}

/// What the kernel says of a launcher that is about to become the target.
#[derive(Debug)]
pub enum WitnessEvent {
    Exec,
    /// Something else: the launcher ended.
    Ended,
    /// Nothing yet, or the wait was interrupted.
    Nothing,
    Failed(Fault),
}

/// Decides how waiting for an exec goes on: true once the kernel saw it. The time that
/// is over counts before any event.
pub fn confirm(expired: bool, event: WitnessEvent) -> (r: Result<bool, Fault>)
    ensures
        r == if expired {
            Err::<bool, Fault>(
                Fault::found(FaultKind::TimedOut, "target exec was not confirmed by the kernel"),
            )
        } else {
            match event {
                WitnessEvent::Exec => Ok(true),
                WitnessEvent::Nothing => Ok(false),
                WitnessEvent::Ended => Err(
                    Fault::found(
                        FaultKind::Other,
                        "launcher exited without a kernel exec observation",
                    ),
                ),
                WitnessEvent::Failed(fault) => Err(fault),
            }
        },
{
    if expired {
        return Err(Fault::new(FaultKind::TimedOut, "target exec was not confirmed by the kernel"));
    }
    match event {
        WitnessEvent::Exec => Ok(true),
        WitnessEvent::Nothing => Ok(false),
        WitnessEvent::Ended => Err(
            Fault::new(FaultKind::Other, "launcher exited without a kernel exec observation"),
        ),
        WitnessEvent::Failed(fault) => Err(fault),
    }
}

/// A search for the program to execute, over the places where it may be.
#[derive(Clone, Copy, Debug, PartialEq, Eq, Structural)]
pub struct ExecSearch {
    pub denied: bool,
}

impl ExecSearch {
    /// Takes in why one place failed: the error to give up with, or nothing where the
    /// search goes on.
    pub fn tried(&mut self, errno: Option<i32>) -> (r: Option<Option<i32>>)
        ensures
            match errno {
                Some(code) => if code == EACCES {
                    final(self).denied && r is None
                } else if code == ENOENT || code == ENOTDIR {
                    final(self).denied == old(self).denied && r is None
                } else {
                    final(self).denied == old(self).denied && r == Some(errno)
                },
                None => final(self).denied == old(self).denied && r == Some(errno),
            },
    {
        match errno {
            Some(code) => {
                if code == EACCES {
                    self.denied = true;
                    None
                } else if code == ENOENT || code == ENOTDIR {
                    None
                } else {
                    Some(errno)
                }
            },
            None => Some(errno),
        }
    }

    /// The error of a search that found the program nowhere.
    pub fn exhausted(&self) -> (r: i32)
        ensures
            r == if self.denied {
                EACCES
            } else {
                ENOENT
            },
    {
        if self.denied {
            EACCES
        } else {
            ENOENT
        }
    }
}

/// Whether some bytes can be a native text: they hold no zero.
pub open spec fn is_native(bytes: Seq<u8>) -> bool {
    !bytes.contains(0u8)
}

/// Whether some bytes can be a native text.
pub fn native_text(bytes: &[u8]) -> (r: bool)
    ensures
        r == is_native(bytes@),
{
    let mut i: usize = 0;
    while i < bytes.len()
        invariant
            i <= bytes.len(),
            forall|k: int| 0 <= k < i ==> bytes@[k] != 0,
        decreases bytes.len() - i,
    {
        if bytes[i] == 0 {
            assert(bytes@.contains(0u8));
            return false;
        }
        i += 1;
    }
    true
}

/// Whether a program is named by a path, so that it is not searched for.
pub fn is_path(program: &[u8]) -> (r: bool)
    ensures
        r == program@.contains(47u8),
{
    let mut i: usize = 0;
    while i < program.len()
        invariant
            i <= program.len(),
            forall|k: int| 0 <= k < i ==> program@[k] != 47,
        decreases program.len() - i,
    {
        if program[i] == 47 {
            assert(program@.contains(47u8));
            return true;
        }
        i += 1;
    }
    false
}

/// An entry of the environment as a native text: the name, an equals sign and the
/// value.
pub fn environment_entry(name: &[u8], value: &[u8]) -> (r: Option<Vec<u8>>)
    ensures
        ({
            let entry = name@ + seq![61u8] + value@;
            match r {
                Some(bytes) => is_native(entry) && bytes@ == entry,
                None => !is_native(entry),
            }
        }),
{
    let mut entry: Vec<u8> = Vec::new();
    crate::bytes::put(&mut entry, name);
    entry.push(61);
    crate::bytes::put(&mut entry, value);
    assert(entry@ =~= name@ + seq![61u8] + value@);
    if native_text(entry.as_slice()) {
        Some(entry)
    } else {
        None
    }
}

/// Whether a descriptor is closed in a helper: it would survive the exec, and it is
/// none of those that the helper is given.
pub fn closes_in_helper(
    fd: i32,
    endpoint: i32,
    source: i32,
    auxiliary: Option<i32>,
    open: bool,
    closes_on_exec: bool,
) -> (r: bool)
    ensures
        r == (fd != endpoint && fd != source && auxiliary != Some(fd) && open && !closes_on_exec),
{
    let given = match auxiliary {
        Some(other) => other == fd,
        None => false,
    };
    fd != endpoint && fd != source && !given && open && !closes_on_exec
}

/// Whether the descriptor table can be gone through for a helper.
pub fn helper_table(limit: i32) -> (r: Result<(), Fault>)
    ensures
        r == if 0 <= limit <= 1_048_576 {
            Ok::<(), Fault>(())
        } else {
            Err(Fault::found(FaultKind::Other, "helper descriptor envelope exceeds bound"))
        },
{
    if limit < 0 || limit > 1_048_576 {
        Err(Fault::new(FaultKind::Other, "helper descriptor envelope exceeds bound"))
    } else {
        Ok(())
    }
}

/// Decides how waiting for a creation goes on: it stays owned by its worker when the
/// time is over.
pub fn creation_wait(expired: bool, gone: bool) -> (r: Result<(), Fault>)
    ensures
        r == if expired {
            Err::<(), Fault>(
                Fault::found(FaultKind::TimedOut, "native creation remains owned in flight"),
            )
        } else if gone {
            Err(Fault::found(FaultKind::Other, "native creation owner unavailable"))
        } else {
            Ok(())
        },
{
    if expired {
        Err(Fault::new(FaultKind::TimedOut, "native creation remains owned in flight"))
    } else if gone {
        Err(Fault::new(FaultKind::Other, "native creation owner unavailable"))
    } else {
        Ok(())
    }
}

/// A place is refused only when every place is taken.
pub proof fn reservation_fails_only_when_full(table: ChildTable, from: int, at: int)
    requires
        0 <= from <= at < table.slots@.len(),
        table.first_free(from) is None,
    ensures
        table.slots@[at] != 0,
    decreases table.slots@.len() - from,
{
    if from < at {
        reservation_fails_only_when_full(table, from + 1, at);
    }
}

/// A child that waits for another is not reaped while that one is in the table.
pub proof fn dependencies_go_first(table: ChildTable, at: int, other: int)
    requires
        table.wf(),
        0 <= at < SLOTS,
        0 <= other < SLOTS,
        table.dependencies@[at] > 0,
        table.slots@[other] == table.dependencies@[at] || table.slots@[other]
            == -table.dependencies@[at],
    ensures
        !table.reapable(at),
{
    assert(table.has(table.dependencies@[at] as int));
}

/// Decides whether a creation was handed to its worker.
pub fn creation_offered(taken: bool) -> (r: Result<(), Fault>)
    ensures
        r == if taken {
            Ok::<(), Fault>(())
        } else {
            Err(Fault::found(FaultKind::WouldBlock, "native spawn slot busy"))
        },
{
    if taken {
        Ok(())
    } else {
        Err(Fault::new(FaultKind::WouldBlock, "native spawn slot busy"))
    }
}

/// Decides whether a guardian may still create its target at `now`.
pub fn spawn_admitted(now: u64, startup: u64) -> (r: Result<(), Fault>)
    ensures
        r == if now >= startup {
            Err::<(), Fault>(Fault::found(FaultKind::TimedOut, "spawn admission expired"))
        } else {
            Ok(())
        },
{
    if now >= startup {
        Err(Fault::new(FaultKind::TimedOut, "spawn admission expired"))
    } else {
        Ok(())
    }
}

} // verus!
