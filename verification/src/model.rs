//! Plain records that the platform code exchanges: faults of native calls,
//! cleanup findings, policies and the pieces of evidence built from them.

use vstd::prelude::*;
use vstd::string::*;

use crate::text::{join2, join3};

verus! {

/// Native error numbers that the decisions below tell apart.
pub const EPERM: i32 = 1;

pub const ENOENT: i32 = 2;

pub const ESRCH: i32 = 3;

pub const ENOEXEC: i32 = 8;

pub const EACCES: i32 = 13;

pub const ENOTDIR: i32 = 20;

pub const EISDIR: i32 = 21;

/// Native signal numbers.
pub const SIGHUP: i32 = 1;

pub const SIGINT: i32 = 2;

pub const SIGQUIT: i32 = 3;

pub const SIGKILL: i32 = 9;

pub const SIGTERM: i32 = 15;

/// The views of a sequence of texts.
pub open spec fn texts(s: Seq<String>) -> Seq<Seq<char>> {
    Seq::new(s.len(), |i: int| s[i]@)
}

/// A message: a fixed text, one that a native call gave, or a fixed text in
/// front of one that a native call gave.
#[derive(Debug)]
pub enum Text {
    Fixed(&'static str),
    Given(String),
    Tagged(&'static str, String),
}

impl Text {
    /// The characters of the message.
    pub open spec fn chars(&self) -> Seq<char> {
        match self {
            Text::Fixed(text) => text@,
            Text::Given(text) => text@,
            Text::Tagged(tag, text) => tag@ + text@,
        }
    }

    /// The message as one text.
    pub fn render(&self) -> (r: String)
        ensures
            r@ == self.chars(),
    {
        match self {
            Text::Fixed(text) => (*text).to_owned(),
            Text::Given(text) => text.clone(),
            Text::Tagged(tag, text) => join2(tag, text.as_str()),
        }
    }

    /// The same message again.
    pub fn duplicate(&self) -> (r: Text)
        ensures
            r == *self,
    {
        match self {
            Text::Fixed(text) => Text::Fixed(text),
            Text::Given(text) => Text::Given(text.clone()),
            Text::Tagged(tag, text) => Text::Tagged(tag, text.clone()),
        }
    }
}

/// The kinds of native failure that the decisions below tell apart.
#[derive(Clone, Copy, Debug, PartialEq, Eq, Structural)]
pub enum FaultKind {
    AlreadyExists,
    BrokenPipe,
    Interrupted,
    InvalidData,
    InvalidInput,
    NotFound,
    Other,
    PermissionDenied,
    TimedOut,
    UnexpectedEof,
    Unsupported,
    WouldBlock,
}

/// What is known of a failed native call, or of a failure found here.
#[derive(Debug)]
pub struct Fault {
    pub kind: FaultKind,
    pub os_code: Option<i32>,
    pub text: Text,
}

impl Fault {
    /// A failure found here, without a native error number.
    pub open spec fn found(kind: FaultKind, text: &'static str) -> Fault {
        Fault { kind, os_code: None, text: Text::Fixed(text) }
    }

    /// A failure found here, without a native error number.
    pub fn new(kind: FaultKind, text: &'static str) -> (r: Fault)
        ensures
            r == Fault::found(kind, text),
    {
        Fault { kind, os_code: None, text: Text::Fixed(text) }
    }

    /// The same fault again.
    pub fn duplicate(&self) -> (r: Fault)
        ensures
            r == *self,
    {
        Fault { kind: self.kind, os_code: self.os_code, text: self.text.duplicate() }
    }
}

/// One thing that went wrong while resources were given back.
#[derive(Debug)]
pub struct CleanupErrorRecord {
    pub operation: &'static str,
    pub message: Text,
}

impl CleanupErrorRecord {
    /// The finding in one line: the operation, a colon and the message.
    pub open spec fn line(&self) -> Seq<char> {
        self.operation@ + ": "@ + self.message.chars()
    }

    /// The finding in one line.
    pub fn render(&self) -> (r: String)
        ensures
            r@ == self.line(),
    {
        let message = self.message.render();
        join3(self.operation, ": ", message.as_str())
    }

    /// The same finding again.
    pub fn duplicate(&self) -> (r: CleanupErrorRecord)
        ensures
            r == *self,
    {
        CleanupErrorRecord { operation: self.operation, message: self.message.duplicate() }
    }
}

/// The record that `cleanup_error` makes.
pub open spec fn cleanup_record(operation: &'static str, error: Fault) -> CleanupErrorRecord {
    CleanupErrorRecord { operation, message: error.text }
}

/// Records that `operation` failed with `error`.
pub fn cleanup_error(operation: &'static str, error: Fault) -> (r: CleanupErrorRecord)
    ensures
        r == cleanup_record(operation, error),
{
    CleanupErrorRecord { operation, message: error.text }
}

/// The lines of several findings.
pub open spec fn lines_of(records: Seq<CleanupErrorRecord>) -> Seq<Seq<char>> {
    Seq::new(records.len(), |i: int| records[i].line())
}

/// Renders several findings, one line each.
pub fn render_all(records: &Vec<CleanupErrorRecord>) -> (r: Vec<String>)
    ensures
        texts(r@) == lines_of(records@),
{
    let mut out: Vec<String> = Vec::new();
    let mut i: usize = 0;
    while i < records.len()
        invariant
            i <= records.len(),
            out.len() == i,
            forall|k: int| 0 <= k < i ==> (#[trigger] out[k])@ == records[k].line(),
        decreases records.len() - i,
    {
        out.push(records[i].render());
        i += 1;
    }
    assert(texts(out@) =~= lines_of(records@));
    out
}

/// What an attempt gave back, and what went wrong.
#[derive(Debug)]
pub struct CleanupSummary {
    pub graceful_attempted: bool,
    pub force_attempted: bool,
    pub direct_child_reaped: bool,
    pub workload_empty: Option<bool>,
    pub errors: Vec<CleanupErrorRecord>,
}

/// The facts of a `CleanupSummary`.
pub struct CleanupView {
    pub graceful_attempted: bool,
    pub force_attempted: bool,
    pub direct_child_reaped: bool,
    pub workload_empty: Option<bool>,
    pub errors: Seq<CleanupErrorRecord>,
}

impl View for CleanupSummary {
    type V = CleanupView;

    open spec fn view(&self) -> CleanupView {
        CleanupView {
            graceful_attempted: self.graceful_attempted,
            force_attempted: self.force_attempted,
            direct_child_reaped: self.direct_child_reaped,
            workload_empty: self.workload_empty,
            errors: self.errors@,
        }
    }
}

/// Nothing given back, nothing gone wrong.
pub open spec fn no_cleanup() -> CleanupView {
    CleanupView {
        graceful_attempted: false,
        force_attempted: false,
        direct_child_reaped: false,
        workload_empty: None,
        errors: Seq::empty(),
    }
}

impl Default for CleanupSummary {
    fn default() -> (r: CleanupSummary)
        ensures
            r@ == no_cleanup(),
    {
        CleanupSummary {
            graceful_attempted: false,
            force_attempted: false,
            direct_child_reaped: false,
            workload_empty: None,
            errors: Vec::new(),
        }
    }
}

} // verus!
