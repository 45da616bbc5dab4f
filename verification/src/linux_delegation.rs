//! Finding the delegated control group that attempts are created below, preparing
//! it, and probing whether a group below it can be controlled.

use vstd::prelude::*;
use vstd::string::*;

use crate::linux_cgroup::{
    has_memory_controller, is_delegate_marker, membership_of, names_memory, read_back,
    unified_membership,
};
use crate::model::Fault;
use crate::scan::{find, find_from, lemma_find_from, lines_of_text, part, trim, trimmed};
use crate::text::{chars_of, join2, join3, text_of};

verus! {

/// The native error number of an attribute that is not there.
pub const ENODATA: i32 = 61;

/// Whether a piece between two slashes of a path counts: an empty one and a single dot
/// do not.
pub open spec fn is_component(piece: Seq<char>) -> bool {
    piece.len() > 0 && piece != seq!['.']
}

/// Where the components of a path end, from the place `i` on.
pub open spec fn ends_from(path: Seq<char>, i: int) -> Seq<int>
    decreases path.len() + 1 - i,
{
    if i < 0 || i >= path.len() {
        Seq::empty()
    } else {
        proof {
            lemma_find_from(path, '/', i);
        }
        let j = find_from(path, '/', i);
        let rest = ends_from(path, j + 1);
        if is_component(path.subrange(i, j)) {
            seq![j] + rest
        } else {
            rest
        }
    }
}

/// Where the components of a path end.
pub open spec fn ends_of(path: Seq<char>) -> Seq<int> {
    ends_from(path, 0)
}

/// The numbers of a sequence of indices.
pub open spec fn places(s: Seq<usize>) -> Seq<int> {
    Seq::new(s.len(), |i: int| s[i] as int)
}

/// Finds where the components of a path end.
fn component_ends(path: &[char]) -> (r: Vec<usize>)
    ensures
        places(r@) == ends_of(path@),
{
    let mut out: Vec<usize> = Vec::new();
    let mut i: usize = 0;
    assert(places(out@) + ends_from(path@, 0) =~= ends_of(path@));
    while i < path.len()
        invariant
            i <= path.len(),
            places(out@) + ends_from(path@, i as int) == ends_of(path@),
        decreases path.len() - i,
    {
        let ghost before = out@;
        let j = find(path, '/', i);
        let piece = part(path, i, j);
        let counts = piece.len() > 0 && !(piece.len() == 1 && piece[0] == '.');
        assert(counts == is_component(piece@)) by {
            if piece@.len() == 1 && piece@[0] == '.' {
                assert(piece@ =~= seq!['.']);
            }
        }
        if counts {
            out.push(j);
            assert(places(out@) =~= places(before) + seq![j as int]);
        }
        if j == path.len() {
            assert(ends_from(path@, j + 1) =~= Seq::empty());
            assert(places(out@) + ends_from(path@, path.len() as int) =~= ends_of(path@));
            i = j;
        } else {
            assert(places(out@) + ends_from(path@, j + 1) =~= ends_of(path@));
            i = j + 1;
        }
    }
    assert(ends_from(path@, i as int) =~= Seq::empty());
    assert(places(out@) =~= ends_of(path@));
    out
}

/// The path made of the first components of a path: the root where there is none.
pub open spec fn ancestor(path: Seq<char>, count: int) -> Seq<char> {
    if count <= 0 {
        "/"@
    } else {
        path.take(ends_of(path)[count - 1])
    }
}

/// How many components the mount of the control groups has.
pub const MOUNT_COMPONENTS: usize = 3;

/// The full path of a process's control group.
pub open spec fn group_path(relative: Seq<char>) -> Seq<char> {
    "/sys/fs/cgroup/"@ + relative
}

/// The next group to look at above the one with `count` components: the mount ends the
/// search.
pub open spec fn above(count: int) -> Option<int> {
    if count <= 0 || count - 1 == MOUNT_COMPONENTS {
        None
    } else {
        Some(count - 1)
    }
}

/// Where the search for a delegated group stands.
#[derive(Clone, Copy, Debug, PartialEq, Eq, Structural)]
pub enum DelegationStage {
    /// The marker of a group is to be read.
    Marker,
    /// The marked group's members are to be read.
    Members,
    /// Its controllers are to be read.
    Controllers,
    /// What is enabled below it is to be read.
    Enabled,
    /// The memory controller is to be enabled below it.
    Enabling,
    /// What is enabled below it is to be read again.
    Verifying,
    Over,
}

/// What the caller does next to find a delegated group.
#[derive(Clone, Copy, Debug, PartialEq, Eq, Structural)]
pub enum DelegationAction {
    ReadMarker,
    ReadMembers,
    ReadControllers,
    ReadEnabled,
    EnableMemory,
    /// The group at hand is prepared.
    Prepared,
}

/// The search for the group that attempts are created below.
#[derive(Debug)]
pub struct Delegation {
    pub stage: DelegationStage,
    pub require_memory: bool,
    /// The full path of the process's own group.
    pub current: String,
    /// The group at hand.
    pub candidate: String,
    /// How many components the group at hand has.
    pub count: usize,
    pub ends: Vec<usize>,
}

/// A failure that names a path and a native error.
pub open spec fn at_path(before: Seq<char>, path: Seq<char>, error: Seq<char>) -> Seq<char> {
    before + path + ": "@ + error
}

fn say_at(before: &str, path: &str, error: &str) -> (r: String)
    ensures
        r@ == at_path(before@, path@, error@),
{
    let mut text = join2(before, path);
    text.append(": ");
    text.append(error);
    text
}

/// What is said when no group above the process is marked.
pub open spec fn unmarked(current: Seq<char>) -> Seq<char> {
    "process cgroup "@ + current + " is not below a marked systemd delegation boundary"@
}

impl Delegation {
    /// What holds while a group is at hand.
    pub open spec fn wf(self) -> bool {
        &&& places(self.ends@) == ends_of(self.current@)
        &&& self.count <= self.ends@.len()
        &&& self.candidate@ == ancestor(self.current@, self.count as int)
    }

    /// Whether only the stage and the group at hand differ.
    pub open spec fn same_search(self, other: Delegation) -> bool {
        &&& self.require_memory == other.require_memory
        &&& self.current == other.current
        &&& self.ends == other.ends
    }

    /// Whether only the stage differs.
    pub open spec fn same_group(self, other: Delegation) -> bool {
        &&& self.same_search(other)
        &&& self.candidate == other.candidate
        &&& self.count == other.count
    }

    /// Starts the search after the hierarchy's controllers and the process's membership
    /// were read, or could not be.
    pub fn begin(
        hierarchy: Result<(), String>,
        membership: Result<String, String>,
        require_memory: bool,
    ) -> (r: Result<Delegation, String>)
        ensures
            match hierarchy {
                Err(error) => r matches Err(text) && text@
                    == "cgroup v2 unified hierarchy unavailable: "@ + error@,
                Ok(_) => match membership {
                    Err(error) => r matches Err(text) && text@
                        == "cannot read process cgroup membership: "@ + error@,
                    Ok(lines) => match membership_of(lines_of_text(lines@), 0) {
                        None => r matches Err(text) && text@
                            == "process is not in a unified cgroup v2 hierarchy"@,
                        Some(relative) => {
                            let path = group_path(relative);
                            match above(ends_of(path).len() as int) {
                                None => r matches Err(text) && text@ == unmarked(path),
                                Some(count) => r matches Ok(search) && search.wf() && search.stage
                                    is Marker && search.require_memory == require_memory
                                    && search.current@ == path && search.count == count,
                            }
                        },
                    },
                },
            },
    {
        if let Err(error) = hierarchy {
            return Err(join2("cgroup v2 unified hierarchy unavailable: ", error.as_str()));
        }
        let lines = match membership {
            Err(error) => {
                return Err(join2("cannot read process cgroup membership: ", error.as_str()));
            },
            Ok(lines) => lines,
        };
        let relative = match unified_membership(lines.as_str()) {
            None => {
                return Err("process is not in a unified cgroup v2 hierarchy".to_owned());
            },
            Some(relative) => relative,
        };
        let current = join2("/sys/fs/cgroup/", relative.as_str());
        let chars = chars_of(current.as_str());
        let ends = component_ends(chars.as_slice());
        assert(ends@.len() == places(ends@).len());
        let count: usize = ends.len();
        if count == 0 || count - 1 == MOUNT_COMPONENTS {
            return Err(
                join3(
                    "process cgroup ",
                    current.as_str(),
                    " is not below a marked systemd delegation boundary",
                ),
            );
        }
        let candidate = ancestor_text(chars.as_slice(), &ends, count - 1);
        Ok(
            Delegation {
                stage: DelegationStage::Marker,
                require_memory,
                current,
                candidate,
                count: count - 1,
                ends,
            },
        )
    }

    /// Takes in whether the group at hand is marked. Where it is not, the next one above
    /// is looked at.
    pub fn marked(&mut self, marked: Result<bool, String>) -> (r: Result<DelegationAction, String>)
        requires
            old(self).wf(),
            old(self).stage is Marker,
        ensures
            match marked {
                Err(error) => final(self).same_group(*old(self)) && final(self).stage is Over && r
                    == Err::<DelegationAction, String>(error),
                Ok(true) => final(self).wf() && final(self).same_group(*old(self)) && final(
                    self).stage is Members && r == Ok::<DelegationAction, String>(
                    DelegationAction::ReadMembers,
                ),
                Ok(false) => match above(old(self).count as int) {
                    None => final(self).same_group(*old(self)) && final(self).stage is Over && (
                    r matches Err(text) && text@ == unmarked(old(self).current@)),
                    Some(count) => final(self).wf() && final(self).same_search(*old(self))
                        && final(self).stage is Marker && final(self).count == count && r == Ok::<
                        DelegationAction,
                        String,
                    >(DelegationAction::ReadMarker),
                },
            },
    {
        match marked {
            Err(error) => {
                self.stage = DelegationStage::Over;
                Err(error)
            },
            Ok(marked) => {
                if marked {
                    self.stage = DelegationStage::Members;
                    return Ok(DelegationAction::ReadMembers);
                }
                if self.count == 0 || self.count - 1 == MOUNT_COMPONENTS {
                    self.stage = DelegationStage::Over;
                    return Err(
                        join3(
                            "process cgroup ",
                            self.current.as_str(),
                            " is not below a marked systemd delegation boundary",
                        ),
                    );
                }
                let chars = chars_of(self.current.as_str());
                let count: usize = self.count - 1;
                assert(self.ends@.len() == places(self.ends@).len());
                self.candidate = ancestor_text(chars.as_slice(), &self.ends, count);
                self.count = count;
                Ok(DelegationAction::ReadMarker)
            },
        }
    }

    /// Takes in the members of the marked group: it must have none.
    pub fn members(&mut self, members: Result<String, String>) -> (r: Result<
        DelegationAction,
        String,
    >)
        requires
            old(self).stage is Members,
        ensures
            final(self).same_group(*old(self)),
            match members {
                Err(error) => final(self).stage is Over && (r matches Err(text) && text@ == at_path(
                    "cannot read delegation-root membership at "@,
                    old(self).candidate@,
                    error@,
                )),
                Ok(members) => if trimmed(members@).len() > 0 {
                    final(self).stage is Over && (r matches Err(text) && text@
                        == "systemd delegation root "@ + old(self).candidate@
                        + " contains processes"@)
                } else if old(self).require_memory {
                    final(self).stage is Controllers && r == Ok::<DelegationAction, String>(
                        DelegationAction::ReadControllers,
                    )
                } else {
                    final(self).stage is Over && r == Ok::<DelegationAction, String>(
                        DelegationAction::Prepared,
                    )
                },
            },
    {
        let members = match members {
            Err(error) => {
                self.stage = DelegationStage::Over;
                return Err(
                    say_at(
                        "cannot read delegation-root membership at ",
                        self.candidate.as_str(),
                        error.as_str(),
                    ),
                );
            },
            Ok(members) => members,
        };
        let chars = chars_of(members.as_str());
        let inner = trim(chars.as_slice());
        if inner.len() > 0 {
            self.stage = DelegationStage::Over;
            return Err(
                join3("systemd delegation root ", self.candidate.as_str(), " contains processes"),
            );
        }
        if self.require_memory {
            self.stage = DelegationStage::Controllers;
            Ok(DelegationAction::ReadControllers)
        } else {
            self.stage = DelegationStage::Over;
            Ok(DelegationAction::Prepared)
        }
    }

    /// Takes in the controllers of the marked group: the memory controller must be among
    /// them.
    pub fn controllers(&mut self, controllers: Result<String, String>) -> (r: Result<
        DelegationAction,
        String,
    >)
        requires
            old(self).stage is Controllers,
        ensures
            final(self).same_group(*old(self)),
            match controllers {
                Err(error) => final(self).stage is Over && (r matches Err(text) && text@ == at_path(
                    "cannot read delegated controllers at "@,
                    old(self).candidate@,
                    error@,
                )),
                Ok(controllers) => if names_memory(controllers@) {
                    final(self).stage is Enabled && r == Ok::<DelegationAction, String>(
                        DelegationAction::ReadEnabled,
                    )
                } else {
                    final(self).stage is Over && (r matches Err(text) && text@
                        == "systemd delegation root "@ + old(self).candidate@
                        + " does not delegate the memory controller"@)
                },
            },
    {
        let controllers = match controllers {
            Err(error) => {
                self.stage = DelegationStage::Over;
                return Err(
                    say_at(
                        "cannot read delegated controllers at ",
                        self.candidate.as_str(),
                        error.as_str(),
                    ),
                );
            },
            Ok(controllers) => controllers,
        };
        if !has_memory_controller(controllers.as_str()) {
            self.stage = DelegationStage::Over;
            return Err(
                join3(
                    "systemd delegation root ",
                    self.candidate.as_str(),
                    " does not delegate the memory controller",
                ),
            );
        }
        self.stage = DelegationStage::Enabled;
        Ok(DelegationAction::ReadEnabled)
    }

    /// Takes in what is enabled below the marked group. The memory controller is enabled
    /// where it is not, and what is enabled is read again in any case.
    pub fn enabled(&mut self, enabled: Result<String, String>) -> (r: Result<
        DelegationAction,
        String,
    >)
        requires
            old(self).stage is Enabled,
        ensures
            final(self).same_group(*old(self)),
            match enabled {
                Err(error) => final(self).stage is Over && (r matches Err(text) && text@ == at_path(
                    "cannot read cgroup.subtree_control at "@,
                    old(self).candidate@,
                    error@,
                )),
                Ok(enabled) => if names_memory(enabled@) {
                    final(self).stage is Verifying && r == Ok::<DelegationAction, String>(
                        DelegationAction::ReadEnabled,
                    )
                } else {
                    final(self).stage is Enabling && r == Ok::<DelegationAction, String>(
                        DelegationAction::EnableMemory,
                    )
                },
            },
    {
        match enabled {
            Err(error) => {
                self.stage = DelegationStage::Over;
                Err(
                    say_at(
                        "cannot read cgroup.subtree_control at ",
                        self.candidate.as_str(),
                        error.as_str(),
                    ),
                )
            },
            Ok(enabled) => if has_memory_controller(enabled.as_str()) {
                self.stage = DelegationStage::Verifying;
                Ok(DelegationAction::ReadEnabled)
            } else {
                self.stage = DelegationStage::Enabling;
                Ok(DelegationAction::EnableMemory)
            },
        }
    }

    /// Takes in that the memory controller was enabled, or could not be.
    pub fn memory_enabled(&mut self, written: Result<(), String>) -> (r: Result<
        DelegationAction,
        String,
    >)
        requires
            old(self).stage is Enabling,
        ensures
            final(self).same_group(*old(self)),
            match written {
                Err(error) => final(self).stage is Over && (r matches Err(text) && text@ == at_path(
                    "cannot enable memory controller at systemd delegation root "@,
                    old(self).candidate@,
                    error@,
                )),
                Ok(_) => final(self).stage is Verifying && r == Ok::<DelegationAction, String>(
                    DelegationAction::ReadEnabled,
                ),
            },
    {
        match written {
            Err(error) => {
                self.stage = DelegationStage::Over;
                Err(
                    say_at(
                        "cannot enable memory controller at systemd delegation root ",
                        self.candidate.as_str(),
                        error.as_str(),
                    ),
                )
            },
            Ok(_) => {
                self.stage = DelegationStage::Verifying;
                Ok(DelegationAction::ReadEnabled)
            },
        }
    }

    /// Takes in what is enabled below the marked group in the end.
    pub fn verified(&mut self, enabled: Result<String, String>) -> (r: Result<
        DelegationAction,
        String,
    >)
        requires
            old(self).stage is Verifying,
        ensures
            final(self).same_group(*old(self)),
            final(self).stage is Over,
            match enabled {
                Err(error) => r matches Err(text) && text@ == at_path(
                    "cannot verify cgroup.subtree_control at "@,
                    old(self).candidate@,
                    error@,
                ),
                Ok(enabled) => if names_memory(enabled@) {
                    r == Ok::<DelegationAction, String>(DelegationAction::Prepared)
                } else {
                    r matches Err(text) && text@
                        == "memory controller did not remain enabled at systemd delegation root "@
                        + old(self).candidate@
                },
            },
    {
        self.stage = DelegationStage::Over;
        match enabled {
            Err(error) => Err(
                say_at(
                    "cannot verify cgroup.subtree_control at ",
                    self.candidate.as_str(),
                    error.as_str(),
                ),
            ),
            Ok(enabled) => if has_memory_controller(enabled.as_str()) {
                Ok(DelegationAction::Prepared)
            } else {
                Err(
                    join2(
                        "memory controller did not remain enabled at systemd delegation root ",
                        self.candidate.as_str(),
                    ),
                )
            },
        }
    }
}

/// The path made of the first components of a path.
fn ancestor_text(path: &[char], ends: &Vec<usize>, count: usize) -> (r: String)
    requires
        places(ends@) == ends_of(path@),
        count <= ends@.len(),
    ensures
        r@ == ancestor(path@, count as int),
{
    if count == 0 {
        return "/".to_owned();
    }
    proof {
        lemma_ends_within(path@, 0);
        assert(places(ends@)[count - 1] == ends@[count - 1] as int);
        assert(ends_of(path@)[count - 1] <= path@.len());
    }
    let head = part(path, 0, ends[count - 1]);
    assert(head@ =~= path@.take(ends@[count - 1] as int));
    text_of(head.as_slice())
}

/// Every component ends within the path.
proof fn lemma_ends_within(path: Seq<char>, i: int)
    requires
        0 <= i,
    ensures
        forall|k: int|
            0 <= k < ends_from(path, i).len() ==> i <= #[trigger] ends_from(path, i)[k]
                <= path.len(),
    decreases path.len() + 1 - i,
{
    if i < path.len() {
        lemma_find_from(path, '/', i);
        let j = find_from(path, '/', i);
        let rest = ends_from(path, j + 1);
        lemma_ends_within(path, j + 1);
        assert forall|k: int| 0 <= k < ends_from(path, i).len() implies i <= #[trigger] ends_from(
            path,
            i,
        )[k] <= path.len() by {
            if is_component(path.subrange(i, j)) {
                assert(k > 0 ==> ends_from(path, i)[k] == rest[k - 1]);
            } else {
                assert(ends_from(path, i)[k] == rest[k]);
            }
        }
    }
}

/// A search never looks at the mount of the control groups itself, and each step of it
/// goes up by one.
pub proof fn search_goes_up(count: int)
    ensures
        above(count) matches Some(next) ==> next == count - 1 && 0 <= next && next
            != MOUNT_COMPONENTS,
{
}

/// Decides whether a group's path can be handed to the system.
pub fn marker_path(path: &str) -> (r: Result<(), String>)
    ensures
        match r {
            Ok(_) => !path@.contains('\0'),
            Err(text) => path@.contains('\0') && text@ == "cgroup path "@ + path@
                + " contains an interior NUL byte"@,
        },
{
    let chars = chars_of(path);
    let end = find(chars.as_slice(), '\0', 0);
    proof {
        lemma_find_from(path@, '\0', 0);
    }
    if end < chars.len() {
        assert(path@[end as int] == '\0');
        return Err(join3("cgroup path ", path, " contains an interior NUL byte"));
    }
    Ok(())
}

/// Decides whether a group is marked as delegated, from its attribute or from the failure
/// to read it. A group without the attribute is not marked.
pub fn has_systemd_delegate_marker(path: &str, value: Result<Vec<u8>, Fault>) -> (r: Result<
    bool,
    String,
>)
    ensures
        match value {
            Ok(bytes) => r == Ok::<bool, String>(bytes@ == seq![49u8]),
            Err(fault) => if fault.os_code == Some(ENODATA) {
                r == Ok::<bool, String>(false)
            } else {
                r matches Err(text) && text@ == at_path(
                    "cannot inspect systemd delegation marker on "@,
                    path@,
                    fault.text.chars(),
                )
            },
        },
{
    match value {
        Ok(bytes) => Ok(is_delegate_marker(bytes.as_slice())),
        Err(fault) => {
            let absent = match fault.os_code {
                Some(code) => code == ENODATA,
                None => false,
            };
            if absent {
                return Ok(false);
            }
            let error = fault.text.render();
            Err(say_at("cannot inspect systemd delegation marker on ", path, error.as_str()))
        },
    }
}

/// One thing that a probe tries in its group.
#[derive(Clone, Copy, Debug)]
pub enum ProbeAction {
    /// See whether the file is there.
    Exists(&'static str),
    Read(&'static str),
    Write(&'static str, &'static str),
    /// Read the file, which must hold this.
    ReadBack(&'static str, &'static str),
}

/// What a probe tries, in order.
pub open spec fn probe_script() -> Seq<ProbeAction> {
    seq![
        ProbeAction::Exists("cgroup.procs"),
        ProbeAction::Exists("cgroup.events"),
        ProbeAction::Exists("cgroup.kill"),
        ProbeAction::Exists("memory.current"),
        ProbeAction::Exists("memory.events"),
        ProbeAction::Exists("memory.max"),
        ProbeAction::Exists("memory.swap.max"),
        ProbeAction::Read("cgroup.procs"),
        ProbeAction::Read("cgroup.events"),
        ProbeAction::Read("memory.current"),
        ProbeAction::Read("memory.events"),
        ProbeAction::Read("memory.max"),
        ProbeAction::Write("memory.max", "max\n"),
        ProbeAction::ReadBack("memory.max", "max"),
        ProbeAction::Write("memory.swap.max", "0\n"),
        ProbeAction::ReadBack("memory.swap.max", "0"),
    ]
}

/// How many things a probe tries.
pub const PROBE_STEPS: usize = 16;

/// The thing that a probe tries as its `step`th, counted from zero.
pub fn probe_action(step: usize) -> (r: ProbeAction)
    requires
        step < PROBE_STEPS,
    ensures
        r == probe_script()[step as int],
{
    match step {
        0 => ProbeAction::Exists("cgroup.procs"),
        1 => ProbeAction::Exists("cgroup.events"),
        2 => ProbeAction::Exists("cgroup.kill"),
        3 => ProbeAction::Exists("memory.current"),
        4 => ProbeAction::Exists("memory.events"),
        5 => ProbeAction::Exists("memory.max"),
        6 => ProbeAction::Exists("memory.swap.max"),
        7 => ProbeAction::Read("cgroup.procs"),
        8 => ProbeAction::Read("cgroup.events"),
        9 => ProbeAction::Read("memory.current"),
        10 => ProbeAction::Read("memory.events"),
        11 => ProbeAction::Read("memory.max"),
        12 => ProbeAction::Write("memory.max", "max\n"),
        13 => ProbeAction::ReadBack("memory.max", "max"),
        14 => ProbeAction::Write("memory.swap.max", "0\n"),
        _ => ProbeAction::ReadBack("memory.swap.max", "0"),
    }
}

/// What came of one thing that a probe tried.
#[derive(Debug)]
pub enum ProbeEvent {
    /// The file is there, or was written.
    Done,
    /// The file is not there.
    Missing,
    /// The file holds this; `shown` is how that is shown.
    Content { text: String, shown: String },
    Failed(String),
}

/// Why a probe fails at something it tried in the group `path`, if it does. An event that
/// does not answer what was tried counts as done.
pub open spec fn probe_failure(action: ProbeAction, event: ProbeEvent, path: Seq<char>) -> Option<
    Seq<char>,
> {
    match (action, event) {
        (ProbeAction::Exists(file), ProbeEvent::Missing) => Some(
            "probe cgroup "@ + path + " lacks "@ + file@,
        ),
        (ProbeAction::Read(file), ProbeEvent::Failed(error)) => Some(
            at_path("cannot read "@ + file@ + " in probe cgroup "@, path, error@),
        ),
        (ProbeAction::Write(file, _), ProbeEvent::Failed(error)) => Some(
            at_path("cannot write "@ + file@ + " in probe cgroup "@, path, error@),
        ),
        (ProbeAction::ReadBack(file, _), ProbeEvent::Failed(error)) => Some(
            at_path("cannot read back "@ + file@ + " in probe cgroup "@, path, error@),
        ),
        (ProbeAction::ReadBack(file, wanted), ProbeEvent::Content { text, shown }) => if trimmed(
            text@,
        ) == wanted@ {
            None
        } else {
            Some(file@ + " read-back in probe cgroup "@ + path + " was "@ + shown@)
        },
        _ => None,
    }
}

/// Takes in what came of something that a probe tried in the group `path`.
pub fn check_probe_cgroup(action: ProbeAction, event: &ProbeEvent, path: &str) -> (r: Result<
    (),
    String,
>)
    ensures
        match r {
            Ok(_) => probe_failure(action, *event, path@) is None,
            Err(text) => probe_failure(action, *event, path@) == Some(text@),
        },
{
    match (action, event) {
        (ProbeAction::Exists(file), ProbeEvent::Missing) => {
            let mut text = join3("probe cgroup ", path, " lacks ");
            text.append(file);
            Err(text)
        },
        (ProbeAction::Read(file), ProbeEvent::Failed(error)) => {
            let before = join3("cannot read ", file, " in probe cgroup ");
            Err(say_at(before.as_str(), path, error.as_str()))
        },
        (ProbeAction::Write(file, _), ProbeEvent::Failed(error)) => {
            let before = join3("cannot write ", file, " in probe cgroup ");
            Err(say_at(before.as_str(), path, error.as_str()))
        },
        (ProbeAction::ReadBack(file, _), ProbeEvent::Failed(error)) => {
            let before = join3("cannot read back ", file, " in probe cgroup ");
            Err(say_at(before.as_str(), path, error.as_str()))
        },
        (ProbeAction::ReadBack(file, wanted), ProbeEvent::Content { text, shown }) => {
            if read_back(text.as_str(), wanted) {
                return Ok(());
            }
            let mut out = join3(file, " read-back in probe cgroup ", path);
            out.append(" was ");
            out.append(shown.as_str());
            Err(out)
        },
        _ => Ok(()),
    }
}

/// What is said when a probe's group cannot be created.
pub fn probe_not_created(parent: &str, error: &str) -> (r: String)
    ensures
        r@ == at_path("cannot create a probe cgroup under "@, parent@, error@),
{
    say_at("cannot create a probe cgroup under ", parent, error)
}

/// What is said when a probe's group cannot be removed.
pub fn probe_not_removed(group: &str, error: &str) -> (r: String)
    ensures
        r@ == at_path("cannot remove the empty probe cgroup "@, group@, error@),
{
    say_at("cannot remove the empty probe cgroup ", group, error)
}

/// A probe reads every limit back that it wrote, right after it wrote it, and what it
/// wants to read is what it wrote without the line's end.
pub proof fn written_limits_are_read_back(step: int)
    requires
        0 <= step < PROBE_STEPS,
        probe_script()[step] is Write,
    ensures
        step + 1 < PROBE_STEPS,
        probe_script()[step] matches ProbeAction::Write(file, content) && probe_script()[step + 1]
            matches ProbeAction::ReadBack(again, wanted) && again == file && wanted@ + "\n"@
            == content@,
{
    reveal_strlit("max\n");
    reveal_strlit("max");
    reveal_strlit("0\n");
    reveal_strlit("0");
    reveal_strlit("\n");
    assert("max"@ + "\n"@ =~= "max\n"@);
    assert("0"@ + "\n"@ =~= "0\n"@);
}

} // verus!
