//! Which processes belong to a workload on macOS: the root, whoever is in its
//! group, whoever descends from a known member, and whoever was known before and
//! is not shown to be gone.

use vstd::prelude::*;
use vstd::string::*;

use crate::model::{Fault, FaultKind, ESRCH};
use crate::policy::Metric;
use crate::text::{join2, signed_decimal, signed_text};

verus! {

/// A process, told apart from any later one with the same number by when it
/// started.
#[derive(Clone, Copy, Debug, PartialEq, Eq, Structural)]
pub struct ProcessIdentity {
    pub pid: i32,
    pub start_seconds: u64,
    pub start_microseconds: u64,
}

/// What the process table says of a process.
#[derive(Clone, Copy, Debug, PartialEq, Eq, Structural)]
pub struct ProcessSnapshot {
    pub identity: ProcessIdentity,
    pub parent_pid: i32,
    pub process_group: i32,
    pub zombie: bool,
}

/// A set of processes.
#[derive(Debug)]
pub struct Identities {
    pub list: Vec<ProcessIdentity>,
}

/// The members of a list.
pub open spec fn members(list: Seq<ProcessIdentity>) -> Set<ProcessIdentity> {
    Set::new(|x: ProcessIdentity| list.contains(x))
}

impl View for Identities {
    type V = Set<ProcessIdentity>;

    open spec fn view(&self) -> Set<ProcessIdentity> {
        members(self.list@)
    }
}

/// Whether a set has a process with this number.
pub open spec fn has_number(set: Set<ProcessIdentity>, pid: i32) -> bool {
    exists|x: ProcessIdentity| set.contains(x) && #[trigger] x.pid == pid
}

impl Identities {
    /// No process.
    pub fn new() -> (r: Identities)
        ensures
            r@ == Set::<ProcessIdentity>::empty(),
    {
        let r = Identities { list: Vec::new() };
        assert(r@ =~= Set::<ProcessIdentity>::empty());
        r
    }

    /// Whether a process is in the set.
    pub fn contains(&self, identity: ProcessIdentity) -> (r: bool)
        ensures
            r == self@.contains(identity),
    {
        let mut i: usize = 0;
        while i < self.list.len()
            invariant
                i <= self.list.len(),
                forall|k: int| 0 <= k < i ==> self.list@[k] != identity,
            decreases self.list.len() - i,
        {
            if self.list[i] == identity {
                assert(self.list@.contains(identity));
                return true;
            }
            i += 1;
        }
        false
    }

    /// Puts a process into the set, and says whether it is new there.
    pub fn insert(&mut self, identity: ProcessIdentity) -> (r: bool)
        ensures
            r == !old(self)@.contains(identity),
            final(self)@ == old(self)@.insert(identity),
    {
        let ghost before = self.list@;
        if self.contains(identity) {
            assert(self@ =~= self@.insert(identity));
            return false;
        }
        self.list.push(identity);
        proof {
            let after = self.list@;
            assert forall|x: ProcessIdentity|
                #![trigger members(after).contains(x)]
                members(after).contains(x) == members(before).insert(identity).contains(x) by {
                if before.contains(x) {
                    let k = before.index_of(x);
                    assert(after[k] == x);
                }
                if x == identity {
                    assert(after[before.len() as int] == x);
                }
                if after.contains(x) {
                    let k = after.index_of(x);
                    if k < before.len() {
                        assert(before[k] == x);
                    }
                }
            }
            assert(members(after) =~= members(before).insert(identity));
        }
        true
    }

    /// Whether a process with this number is in the set.
    pub fn has(&self, pid: i32) -> (r: bool)
        ensures
            r == has_number(self@, pid),
    {
        let mut i: usize = 0;
        while i < self.list.len()
            invariant
                i <= self.list.len(),
                forall|k: int| 0 <= k < i ==> self.list@[k].pid != pid,
            decreases self.list.len() - i,
        {
            if self.list[i].pid == pid {
                assert(self@.contains(self.list@[i as int]));
                return true;
            }
            i += 1;
        }
        proof {
            if has_number(self@, pid) {
                let x = choose|x: ProcessIdentity| self@.contains(x) && #[trigger] x.pid == pid;
                let k = self.list@.index_of(x);
                assert(self.list@[k] == x);
            }
        }
        false
    }

    /// Puts every process of another set into this one, and says whether any is new.
    pub fn extend(&mut self, other: &Identities) -> (r: bool)
        ensures
            final(self)@ == old(self)@.union(other@),
            r == !other@.subset_of(old(self)@),
    {
        let ghost before = self@;
        let mut i: usize = 0;
        let mut fresh = false;
        assert(self@ =~= before.union(members(other.list@.take(0))));
        while i < other.list.len()
            invariant
                i <= other.list.len(),
                self@ == before.union(members(other.list@.take(i as int))),
                fresh == !members(other.list@.take(i as int)).subset_of(before),
            decreases other.list.len() - i,
        {
            let ghost seen = members(other.list@.take(i as int));
            let item = other.list[i];
            let had = self.contains(item);
            self.insert(item);
            if !had {
                fresh = true;
            }
            i += 1;
            proof {
                let next = other.list@.take(i as int);
                assert(next =~= other.list@.take(i - 1).push(item));
                lemma_push(other.list@.take(i - 1), item);
                assert(members(next) =~= seen.insert(item));
                assert(self@ =~= before.union(members(next)));
                if !had {
                    assert(!before.contains(item));
                    assert(members(next).contains(item));
                } else if !seen.subset_of(before) {
                    let x = choose|x: ProcessIdentity| seen.contains(x) && !before.contains(x);
                    assert(members(next).contains(x));
                } else {
                    assert(members(next).subset_of(before));
                }
            }
        }
        assert(other.list@.take(i as int) =~= other.list@);
        fresh
    }

    /// The same set again.
    pub fn duplicate(&self) -> (r: Identities)
        ensures
            r@ == self@,
    {
        let mut r = Identities::new();
        r.extend(self);
        assert(r@ =~= self@);
        r
    }
}

proof fn lemma_push(list: Seq<ProcessIdentity>, x: ProcessIdentity)
    ensures
        members(list.push(x)) == members(list).insert(x),
{
    let after = list.push(x);
    assert forall|y: ProcessIdentity|
        #![trigger members(after).contains(y)]
        members(after).contains(y) == members(list).insert(x).contains(y) by {
        if list.contains(y) {
            let k = list.index_of(y);
            assert(after[k] == y);
        }
        if y == x {
            assert(after[list.len() as int] == y);
        }
        if after.contains(y) {
            let k = after.index_of(y);
            if k < list.len() {
                assert(list[k] == y);
            }
        }
    }
    assert(members(after) =~= members(list).insert(x));
}

/// What the process table held: the processes that could be described, and the
/// numbers of those that could not.
#[derive(Debug)]
pub struct Inventory {
    pub snapshots: Vec<ProcessSnapshot>,
    pub unresolved: Vec<i32>,
}

/// What the table says last of a process with this number.
pub open spec fn current(snapshots: Seq<ProcessSnapshot>, pid: i32) -> Option<ProcessSnapshot>
    decreases snapshots.len(),
{
    if snapshots.len() == 0 {
        None
    } else if snapshots.last().identity.pid == pid {
        Some(snapshots.last())
    } else {
        current(snapshots.drop_last(), pid)
    }
}

fn find_current(snapshots: &Vec<ProcessSnapshot>, pid: i32) -> (r: Option<ProcessSnapshot>)
    ensures
        r == current(snapshots@, pid),
{
    let mut n: usize = snapshots.len();
    assert(snapshots@.take(n as int) =~= snapshots@);
    while n > 0
        invariant
            n <= snapshots.len(),
            current(snapshots@, pid) == current(snapshots@.take(n as int), pid),
        decreases n,
    {
        assert(snapshots@.take(n as int).last() == snapshots@[n - 1]);
        assert(snapshots@.take(n as int).drop_last() =~= snapshots@.take(n - 1));
        if snapshots[n - 1].identity.pid == pid {
            return Some(snapshots[n - 1]);
        }
        n -= 1;
    }
    None
}

/// Whether a known process is not shown to be gone: either the table could not
/// describe it, or it describes that very process.
pub open spec fn may_remain(
    snapshots: Seq<ProcessSnapshot>,
    unresolved: Seq<i32>,
    identity: ProcessIdentity,
) -> bool {
    unresolved.contains(identity.pid) || (current(snapshots, identity.pid) matches Some(snapshot)
        && snapshot.identity == identity)
}

/// Where the search for members starts: what may remain of those known, and the
/// root.
pub open spec fn kept(
    root_pid: i32,
    known: Set<ProcessIdentity>,
    snapshots: Seq<ProcessSnapshot>,
    unresolved: Seq<i32>,
) -> Set<ProcessIdentity> {
    let remaining = known.filter(|x: ProcessIdentity| may_remain(snapshots, unresolved, x));
    match current(snapshots, root_pid) {
        Some(root) => remaining.insert(root.identity),
        None => remaining,
    }
}

/// Whether a process is drawn in by a set of members: it is in the root's group,
/// or its parent's number is a member's.
pub open spec fn drawn_in(root_pid: i32, set: Set<ProcessIdentity>, snapshot: ProcessSnapshot) -> bool {
    snapshot.process_group == root_pid || has_number(set, snapshot.parent_pid)
}

/// Whether a set holds every process that it draws in.
pub open spec fn is_closed(
    root_pid: i32,
    snapshots: Seq<ProcessSnapshot>,
    set: Set<ProcessIdentity>,
) -> bool {
    forall|i: int|
        0 <= i < snapshots.len() && drawn_in(root_pid, set, #[trigger] snapshots[i])
            ==> set.contains(snapshots[i].identity)
}

/// Whether a set is the least one that holds a start and everything it draws in.
pub open spec fn is_closure(
    root_pid: i32,
    snapshots: Seq<ProcessSnapshot>,
    start: Set<ProcessIdentity>,
    set: Set<ProcessIdentity>,
) -> bool {
    &&& start.subset_of(set)
    &&& is_closed(root_pid, snapshots, set)
    &&& forall|other: Set<ProcessIdentity>|
        start.subset_of(other) && #[trigger] is_closed(root_pid, snapshots, other)
            ==> set.subset_of(other)
}

/// How many of the table's processes are not in a set.
pub open spec fn missing(snapshots: Seq<ProcessSnapshot>, set: Set<ProcessIdentity>) -> nat
    decreases snapshots.len(),
{
    if snapshots.len() == 0 {
        0
    } else {
        missing(snapshots.drop_last(), set) + if set.contains(snapshots.last().identity) {
            0nat
        } else {
            1nat
        }
    }
}

proof fn lemma_missing(snapshots: Seq<ProcessSnapshot>, set: Set<ProcessIdentity>, i: int)
    requires
        0 <= i < snapshots.len(),
    ensures
        missing(snapshots, set.insert(snapshots[i].identity)) <= missing(snapshots, set),
        !set.contains(snapshots[i].identity) ==> missing(
            snapshots,
            set.insert(snapshots[i].identity),
        ) < missing(snapshots, set),
    decreases snapshots.len(),
{
    let x = snapshots[i].identity;
    lemma_missing_only_falls(snapshots.drop_last(), set, x);
    if i < snapshots.len() - 1 {
        assert(snapshots.drop_last()[i] == snapshots[i]);
        lemma_missing(snapshots.drop_last(), set, i);
    }
}

proof fn lemma_missing_only_falls(
    snapshots: Seq<ProcessSnapshot>,
    set: Set<ProcessIdentity>,
    x: ProcessIdentity,
)
    ensures
        missing(snapshots, set.insert(x)) <= missing(snapshots, set),
    decreases snapshots.len(),
{
    if snapshots.len() > 0 {
        lemma_missing_only_falls(snapshots.drop_last(), set, x);
    }
}

fn lists(numbers: &Vec<i32>, pid: i32) -> (r: bool)
    ensures
        r == numbers@.contains(pid),
{
    let mut i: usize = 0;
    while i < numbers.len()
        invariant
            i <= numbers.len(),
            forall|k: int| 0 <= k < i ==> numbers@[k] != pid,
        decreases numbers.len() - i,
    {
        if numbers[i] == pid {
            assert(numbers@.contains(pid));
            return true;
        }
        i += 1;
    }
    false
}

fn keep(root_pid: i32, known: &Identities, inventory: &Inventory) -> (r: Identities)
    ensures
        r@ == kept(root_pid, known@, inventory.snapshots@, inventory.unresolved@),
{
    let ghost test = |x: ProcessIdentity|
        may_remain(inventory.snapshots@, inventory.unresolved@, x);
    let mut out = Identities::new();
    let mut i: usize = 0;
    assert(out@ =~= members(known.list@.take(0)).filter(test));
    while i < known.list.len()
        invariant
            i <= known.list.len(),
            test == (|x: ProcessIdentity|
                may_remain(inventory.snapshots@, inventory.unresolved@, x)),
            out@ == members(known.list@.take(i as int)).filter(test),
        decreases known.list.len() - i,
    {
        let ghost before = out@;
        let item = known.list[i];
        let stays = lists(&inventory.unresolved, item.pid) || match find_current(
            &inventory.snapshots,
            item.pid,
        ) {
            Some(snapshot) => snapshot.identity == item,
            None => false,
        };
        if stays {
            out.insert(item);
        }
        i += 1;
        proof {
            let so_far = known.list@.take(i - 1);
            assert(known.list@.take(i as int) =~= so_far.push(item));
            lemma_push(so_far, item);
            assert(stays == test(item));
            assert(out@ =~= members(known.list@.take(i as int)).filter(test));
        }
    }
    assert(known.list@.take(i as int) =~= known.list@);
    match find_current(&inventory.snapshots, root_pid) {
        Some(root) => {
            out.insert(root.identity);
        },
        None => {},
    }
    out
}

proof fn lemma_numbers_grow(set: Set<ProcessIdentity>, other: Set<ProcessIdentity>, pid: i32)
    requires
        set.subset_of(other),
        has_number(set, pid),
    ensures
        has_number(other, pid),
{
    let x = choose|x: ProcessIdentity| set.contains(x) && #[trigger] x.pid == pid;
    assert(other.contains(x));
}

/// Whether a set holds nothing but what every closed set above a start holds.
pub open spec fn is_forced(
    root_pid: i32,
    snapshots: Seq<ProcessSnapshot>,
    start: Set<ProcessIdentity>,
    set: Set<ProcessIdentity>,
) -> bool {
    forall|other: Set<ProcessIdentity>|
        start.subset_of(other) && #[trigger] is_closed(root_pid, snapshots, other)
            ==> set.subset_of(other)
}

fn close(root_pid: i32, set: &mut Identities, snapshots: &Vec<ProcessSnapshot>)
    ensures
        is_closure(root_pid, snapshots@, old(set)@, final(set)@),
{
    let ghost start = set@;
    let ghost table = snapshots@;
    let mut changed = true;
    while changed
        invariant
            table == snapshots@,
            start.subset_of(set@),
            is_forced(root_pid, table, start, set@),
            !changed ==> is_closed(root_pid, table, set@),
        decreases missing(table, set@) + if changed {
            1nat
        } else {
            0nat
        },
    {
        changed = false;
        let ghost at_round = set@;
        let mut i: usize = 0;
        while i < snapshots.len()
            invariant
                i <= snapshots.len(),
                table == snapshots@,
                start.subset_of(set@),
                at_round.subset_of(set@),
                is_forced(root_pid, table, start, set@),
                changed ==> missing(table, set@) < missing(table, at_round),
                !changed ==> set@ == at_round && forall|k: int|
                    0 <= k < i && drawn_in(root_pid, set@, #[trigger] table[k]) ==> set@.contains(
                        table[k].identity,
                    ),
            decreases snapshots.len() - i,
        {
            let snapshot = snapshots[i];
            if snapshot.process_group == root_pid || set.has(snapshot.parent_pid) {
                let ghost before = set@;
                assert(table[i as int] == snapshot);
                let fresh = set.insert(snapshot.identity);
                proof {
                    lemma_missing(table, before, i as int);
                    assert forall|other: Set<ProcessIdentity>|
                        start.subset_of(other) && #[trigger] is_closed(
                            root_pid,
                            table,
                            other,
                        ) implies set@.subset_of(other) by {
                        assert(before.subset_of(other));
                        if snapshot.process_group != root_pid {
                            lemma_numbers_grow(before, other, snapshot.parent_pid);
                        }
                        assert(drawn_in(root_pid, other, table[i as int]));
                    }
                    if !fresh {
                        assert(set@ =~= before);
                    }
                }
                if fresh {
                    changed = true;
                }
            }
            i += 1;
        }
    }
}

/// Whether what is unknown of the table touches the workload.
pub open spec fn touches(
    unresolved: Seq<i32>,
    relevant: Seq<i32>,
    set: Set<ProcessIdentity>,
) -> bool {
    exists|i: int|
        0 <= i < unresolved.len() && (relevant.contains(#[trigger] unresolved[i]) || has_number(
            set,
            unresolved[i],
        ))
}

/// The members that live.
pub open spec fn living(snapshots: Seq<ProcessSnapshot>, set: Set<ProcessIdentity>) -> Seq<
    ProcessSnapshot,
>
    decreases snapshots.len(),
{
    if snapshots.len() == 0 {
        Seq::empty()
    } else {
        let rest = living(snapshots.drop_last(), set);
        if !snapshots.last().zombie && set.contains(snapshots.last().identity) {
            rest.push(snapshots.last())
        } else {
            rest
        }
    }
}

fn list_living(snapshots: &Vec<ProcessSnapshot>, set: &Identities) -> (r: Vec<ProcessSnapshot>)
    ensures
        r@ == living(snapshots@, set@),
{
    let mut out: Vec<ProcessSnapshot> = Vec::new();
    let mut i: usize = 0;
    assert(out@ =~= living(snapshots@.take(0), set@));
    while i < snapshots.len()
        invariant
            i <= snapshots.len(),
            out@ == living(snapshots@.take(i as int), set@),
        decreases snapshots.len() - i,
    {
        let snapshot = snapshots[i];
        if !snapshot.zombie && set.contains(snapshot.identity) {
            out.push(snapshot);
        }
        i += 1;
        assert(snapshots@.take(i as int).drop_last() =~= snapshots@.take(i - 1));
        assert(snapshots@.take(i as int).last() == snapshot);
    }
    assert(snapshots@.take(i as int) =~= snapshots@);
    out
}

/// Brings the known members up to date with the process table, and lists those
/// that live. A process that was known stays known unless the table shows it to be
/// gone. Where the table could not describe a process that touches the workload,
/// nothing is listed: its absence is not confirmed.
pub fn reconcile_inventory(
    root_pid: i32,
    known: &mut Identities,
    inventory: &Inventory,
    relevant: &Vec<i32>,
) -> (r: Result<Vec<ProcessSnapshot>, String>)
    ensures
        is_closure(
            root_pid,
            inventory.snapshots@,
            kept(root_pid, old(known)@, inventory.snapshots@, inventory.unresolved@),
            final(known)@,
        ),
        match r {
            Ok(list) => !touches(inventory.unresolved@, relevant@, final(known)@) && list@ == living(
                inventory.snapshots@,
                final(known)@,
            ),
            Err(text) => touches(inventory.unresolved@, relevant@, final(known)@) && text@
                == "workload identity has unresolved native metadata; absence is unconfirmed"@,
        },
{
    let mut set = keep(root_pid, known, inventory);
    close(root_pid, &mut set, &inventory.snapshots);
    *known = set;
    let mut i: usize = 0;
    while i < inventory.unresolved.len()
        invariant
            i <= inventory.unresolved.len(),
            forall|k: int|
                0 <= k < i ==> !relevant@.contains(#[trigger] inventory.unresolved@[k])
                    && !has_number(known@, inventory.unresolved@[k]),
            is_closure(
                root_pid,
                inventory.snapshots@,
                kept(root_pid, old(known)@, inventory.snapshots@, inventory.unresolved@),
                known@,
            ),
        decreases inventory.unresolved.len() - i,
    {
        let pid = inventory.unresolved[i];
        if lists(relevant, pid) || known.has(pid) {
            assert(inventory.unresolved@[i as int] == pid);
            return Err(
                "workload identity has unresolved native metadata; absence is unconfirmed".to_owned(),
            );
        }
        i += 1;
    }
    Ok(list_living(&inventory.snapshots, known))
}

/// One row of the table as a fixture writes it: number, birth, parent, group, and
/// whether it is a zombie.
pub type TableRow = (i32, u64, i32, i32, bool);

/// A process that a fixture names by number and birth.
pub open spec fn named_identity(row: (i32, u64)) -> ProcessIdentity {
    ProcessIdentity { pid: row.0, start_seconds: row.1, start_microseconds: 0 }
}

/// The process that a row of a fixture's table stands for.
pub open spec fn row_snapshot(row: TableRow) -> ProcessSnapshot {
    ProcessSnapshot {
        identity: named_identity((row.0, row.1)),
        parent_pid: row.2,
        process_group: row.3,
        zombie: row.4,
    }
}

/// The table that a fixture's rows stand for.
pub open spec fn table_of(rows: Seq<TableRow>) -> Seq<ProcessSnapshot> {
    Seq::new(rows.len(), |i: int| row_snapshot(rows[i]))
}

/// The processes that a fixture names.
pub open spec fn named_set(rows: Seq<(i32, u64)>) -> Set<ProcessIdentity> {
    members(Seq::new(rows.len(), |i: int| named_identity(rows[i])))
}

/// Whether an entry comes before another: by number, then by birth.
pub open spec fn before(a: (i32, u64), b: (i32, u64)) -> bool {
    a.0 < b.0 || (a.0 == b.0 && a.1 < b.1)
}

/// Whether a list is in order, without repetition.
pub open spec fn sorted(list: Seq<(i32, u64)>) -> bool {
    forall|i: int, j: int| 0 <= i < j < list.len() ==> before(#[trigger] list[i], #[trigger] list[j])
}

fn insert_sorted(list: &mut Vec<(i32, u64)>, item: (i32, u64))
    requires
        sorted(old(list)@),
    ensures
        sorted(final(list)@),
        forall|x: (i32, u64)| #[trigger]
            final(list)@.contains(x) <==> old(list)@.contains(x) || x == item,
{
    let ghost old_list = list@;
    let mut at: usize = 0;
    while at < list.len() && (list[at].0 < item.0 || (list[at].0 == item.0 && list[at].1 < item.1))
        invariant
            at <= list.len(),
            list@ == old_list,
            forall|k: int| 0 <= k < at ==> before(#[trigger] old_list[k], item),
        decreases list.len() - at,
    {
        at += 1;
    }
    if at < list.len() && list[at].0 == item.0 && list[at].1 == item.1 {
        assert(old_list[at as int] == item);
        return;
    }
    list.insert(at, item);
    proof {
        let after = list@;
        assert(after =~= old_list.insert(at as int, item));
        assert forall|x: (i32, u64)| #[trigger]
            after.contains(x) <==> old_list.contains(x) || x == item by {
            if old_list.contains(x) {
                let k = old_list.index_of(x);
                if k < at {
                    assert(after[k] == x);
                } else {
                    assert(after[k + 1] == x);
                }
            }
            if x == item {
                assert(after[at as int] == x);
            }
            if after.contains(x) {
                let k = after.index_of(x);
                if k < at {
                    assert(old_list[k] == x);
                } else if k > at {
                    assert(old_list[k - 1] == x);
                }
            }
        }
        assert forall|i: int, j: int| 0 <= i < j < after.len() implies before(
            #[trigger] after[i],
            #[trigger] after[j],
        ) by {
            if i == at {
                assert(after[j] == old_list[j - 1]);
                if j - 1 > at {
                    assert(before(old_list[at as int], old_list[j - 1]));
                }
            } else if j == at {
                assert(after[i] == old_list[i]);
            } else {
                let bi = if i < at {
                    i
                } else {
                    i - 1
                };
                let bj = if j < at {
                    j
                } else {
                    j - 1
                };
                assert(after[i] == old_list[bi]);
                assert(after[j] == old_list[bj]);
            }
        }
    }
}

/// Whether a set holds a process with this number and birth.
pub open spec fn has_birth(set: Set<ProcessIdentity>, row: (i32, u64)) -> bool {
    exists|x: ProcessIdentity|
        set.contains(x) && #[trigger] x.pid == row.0 && x.start_seconds == row.1
}

fn sorted_births(set: &Identities) -> (r: Vec<(i32, u64)>)
    ensures
        sorted(r@),
        forall|row: (i32, u64)| #[trigger] r@.contains(row) <==> has_birth(set@, row),
{
    let mut out: Vec<(i32, u64)> = Vec::new();
    let mut i: usize = 0;
    proof {
        assert forall|row: (i32, u64)| #[trigger] out@.contains(row) <==> has_birth(
            members(set.list@.take(0)),
            row,
        ) by {
            if has_birth(members(set.list@.take(0)), row) {
                let x = choose|x: ProcessIdentity|
                    members(set.list@.take(0)).contains(x) && #[trigger] x.pid == row.0
                        && x.start_seconds == row.1;
                assert(set.list@.take(0).contains(x));
            }
        }
    }
    while i < set.list.len()
        invariant
            i <= set.list.len(),
            sorted(out@),
            forall|row: (i32, u64)| #[trigger]
                out@.contains(row) <==> has_birth(members(set.list@.take(i as int)), row),
        decreases set.list.len() - i,
    {
        let item = set.list[i];
        let ghost old_out = out@;
        insert_sorted(&mut out, (item.pid, item.start_seconds));
        i += 1;
        proof {
            let so_far = set.list@.take(i - 1);
            let next = set.list@.take(i as int);
            assert(next =~= so_far.push(item));
            lemma_push(so_far, item);
            assert forall|row: (i32, u64)| #[trigger] out@.contains(row) <==> has_birth(
                members(next),
                row,
            ) by {
                assert(old_out.contains(row) <==> has_birth(members(so_far), row));
                if has_birth(members(so_far), row) {
                    let x = choose|x: ProcessIdentity|
                        members(so_far).contains(x) && #[trigger] x.pid == row.0 && x.start_seconds
                            == row.1;
                    assert(members(next).contains(x));
                }
                if row == (item.pid, item.start_seconds) {
                    assert(members(next).contains(item));
                }
                if has_birth(members(next), row) {
                    let x = choose|x: ProcessIdentity|
                        members(next).contains(x) && #[trigger] x.pid == row.0 && x.start_seconds
                            == row.1;
                    if x != item {
                        assert(members(so_far).contains(x));
                    }
                }
            }
        }
    }
    assert(set.list@.take(i as int) =~= set.list@);
    out
}

/// The numbers of some processes.
pub open spec fn numbers(list: Seq<ProcessSnapshot>) -> Seq<i32> {
    Seq::new(list.len(), |i: int| list[i].identity.pid)
}

fn numbers_of(list: &Vec<ProcessSnapshot>) -> (r: Vec<i32>)
    ensures
        r@ == numbers(list@),
{
    let mut out: Vec<i32> = Vec::new();
    let mut i: usize = 0;
    while i < list.len()
        invariant
            i <= list.len(),
            out.len() == i,
            forall|k: int| 0 <= k < i ==> out@[k] == list@[k].identity.pid,
        decreases list.len() - i,
    {
        out.push(list[i].identity.pid);
        i += 1;
    }
    assert(out@ =~= numbers(list@));
    out
}

fn read_known(rows: &[(i32, u64)]) -> (r: Identities)
    ensures
        r@ == named_set(rows@),
{
    let ghost named = Seq::new(rows@.len(), |i: int| named_identity(rows@[i]));
    let mut out = Identities::new();
    let mut i: usize = 0;
    assert(out@ =~= members(named.take(0)));
    while i < rows.len()
        invariant
            i <= rows.len(),
            named == Seq::new(rows@.len(), |i: int| named_identity(rows@[i])),
            out@ == members(named.take(i as int)),
        decreases rows.len() - i,
    {
        let row = rows[i];
        let item = ProcessIdentity { pid: row.0, start_seconds: row.1, start_microseconds: 0 };
        out.insert(item);
        i += 1;
        proof {
            assert(named.take(i as int) =~= named.take(i - 1).push(item));
            lemma_push(named.take(i - 1), item);
        }
    }
    assert(named.take(i as int) =~= named);
    out
}

fn read_table(rows: &[TableRow]) -> (r: Vec<ProcessSnapshot>)
    ensures
        r@ == table_of(rows@),
{
    let mut out: Vec<ProcessSnapshot> = Vec::new();
    let mut i: usize = 0;
    while i < rows.len()
        invariant
            i <= rows.len(),
            out.len() == i,
            forall|k: int| 0 <= k < i ==> out@[k] == row_snapshot(rows@[k]),
        decreases rows.len() - i,
    {
        let row = rows[i];
        out.push(
            ProcessSnapshot {
                identity: ProcessIdentity {
                    pid: row.0,
                    start_seconds: row.1,
                    start_microseconds: 0,
                },
                parent_pid: row.2,
                process_group: row.3,
                zombie: row.4,
            },
        );
        i += 1;
    }
    assert(out@ =~= table_of(rows@));
    out
}

fn copy_numbers(list: &[i32]) -> (r: Vec<i32>)
    ensures
        r@ == list@,
{
    let mut out: Vec<i32> = Vec::new();
    let mut i: usize = 0;
    while i < list.len()
        invariant
            i <= list.len(),
            out@ == list@.take(i as int),
        decreases list.len() - i,
    {
        out.push(list[i]);
        i += 1;
        assert(out@ =~= list@.take(i as int));
    }
    assert(list@.take(i as int) =~= list@);
    out
}

/// What a reconciliation comes to: the numbers of those that live, or why nothing
/// is listed, and who is known from then on.
pub type InventoryReconciliation = (Result<Vec<i32>, String>, Vec<(i32, u64)>);

/// The root of every fixture's workload.
pub const FIXTURE_ROOT: i32 = 100;

/// Whether a reconciliation lists what lives of a set of members and keeps the
/// set.
pub open spec fn reports(
    r: InventoryReconciliation,
    set: Set<ProcessIdentity>,
    snapshots: Seq<ProcessSnapshot>,
    unresolved: Seq<i32>,
    relevant: Seq<i32>,
) -> bool {
    &&& forall|row: (i32, u64)| #[trigger] r.1@.contains(row) <==> has_birth(set, row)
    &&& match r.0 {
        Ok(list) => !touches(unresolved, relevant, set) && list@ == numbers(
            living(snapshots, set),
        ),
        Err(text) => touches(unresolved, relevant, set) && text@
            == "workload identity has unresolved native metadata; absence is unconfirmed"@,
    }
}

/// Reconciles a workload whose root is process 100 with a table given row by row.
pub fn inventory_reconciliation(
    known: &[(i32, u64)],
    snapshots: &[TableRow],
    unresolved: &[i32],
    relevant: &[i32],
) -> (r: InventoryReconciliation)
    ensures
        sorted(r.1@),
        exists|set: Set<ProcessIdentity>|
            #[trigger] reports(r, set, table_of(snapshots@), unresolved@, relevant@) && is_closure(
                FIXTURE_ROOT,
                table_of(snapshots@),
                kept(FIXTURE_ROOT, named_set(known@), table_of(snapshots@), unresolved@),
                set,
            ),
{
    let mut set = read_known(known);
    let inventory = Inventory {
        snapshots: read_table(snapshots),
        unresolved: copy_numbers(unresolved),
    };
    let relevant = copy_numbers(relevant);
    let result = match reconcile_inventory(FIXTURE_ROOT, &mut set, &inventory, &relevant) {
        Ok(list) => Ok(numbers_of(&list)),
        Err(text) => Err(text),
    };
    let r = (result, sorted_births(&set));
    assert(reports(r, set@, table_of(snapshots@), unresolved@, relevant@));
    r
}

/// Adds what a look at one process found to an inventory: a process that is gone is
/// left out, and one that could not be described is noted.
pub fn record_snapshot(
    inventory: &mut Inventory,
    pid: i32,
    found: Result<ProcessSnapshot, Fault>,
)
    ensures
        match found {
            Ok(snapshot) => final(inventory).snapshots@ == old(inventory).snapshots@.push(snapshot)
                && final(inventory).unresolved@ == old(inventory).unresolved@,
            Err(fault) => {
                &&& final(inventory).snapshots@ == old(inventory).snapshots@
                &&& final(inventory).unresolved@ == if fault.os_code == Some(ESRCH) {
                    old(inventory).unresolved@
                } else {
                    old(inventory).unresolved@.push(pid)
                }
            },
        },
{
    match found {
        Ok(snapshot) => {
            inventory.snapshots.push(snapshot);
        },
        Err(fault) => {
            let gone = match fault.os_code {
                Some(code) => code == ESRCH,
                None => false,
            };
            if !gone {
                inventory.unresolved.push(pid);
            }
        },
    }
}

/// What the process table's answer about one process holds.
#[derive(Clone, Copy, Debug, PartialEq, Eq, Structural)]
pub struct BsdInfo {
    pub status: u32,
    pub ppid: u32,
    pub pgid: u32,
    pub start_seconds: u64,
    pub start_microseconds: u64,
}

/// A number that does not fit counts as the largest one.
pub open spec fn capped_number(n: u32) -> i32 {
    if n > i32::MAX {
        i32::MAX
    } else {
        n as i32
    }
}

fn cap_number(n: u32) -> (r: i32)
    ensures
        r == capped_number(n),
{
    if n > 0x7fff_ffff {
        i32::MAX
    } else {
        n as i32
    }
}

/// Reads the process table's answer about one process: `read` bytes came, of
/// `size` that were asked for, and `error` is the native error beside them.
pub fn process_snapshot(pid: i32, read: i32, size: i32, info: BsdInfo, error: Fault) -> (r: Result<
    ProcessSnapshot,
    Fault,
>)
    ensures
        if read == size {
            r == Ok::<ProcessSnapshot, Fault>(
                ProcessSnapshot {
                    identity: ProcessIdentity {
                        pid,
                        start_seconds: info.start_seconds,
                        start_microseconds: info.start_microseconds,
                    },
                    parent_pid: capped_number(info.ppid),
                    process_group: capped_number(info.pgid),
                    zombie: info.status == 5,
                },
            )
        } else if read > 0 || error.os_code == Some(0i32) {
            r == Err::<ProcessSnapshot, Fault>(
                Fault::found(
                    FaultKind::Other,
                    "native process metadata reply has an invalid size",
                ),
            )
        } else {
            r == Err::<ProcessSnapshot, Fault>(error)
        },
{
    if read != size {
        let silent = match error.os_code {
            Some(code) => code == 0,
            None => false,
        };
        return if read > 0 || silent {
            Err(Fault::new(FaultKind::Other, "native process metadata reply has an invalid size"))
        } else {
            Err(error)
        };
    }
    Ok(
        ProcessSnapshot {
            identity: ProcessIdentity {
                pid,
                start_seconds: info.start_seconds,
                start_microseconds: info.start_microseconds,
            },
            parent_pid: cap_number(info.ppid),
            process_group: cap_number(info.pgid),
            zombie: info.status == 5,
        },
    )
}

/// The positive numbers of a list, in order.
pub open spec fn positive(list: Seq<i32>) -> Seq<i32>
    decreases list.len(),
{
    if list.len() == 0 {
        Seq::empty()
    } else if list.last() > 0 {
        positive(list.drop_last()).push(list.last())
    } else {
        positive(list.drop_last())
    }
}

/// Why an answer that lists process numbers is refused, if it is.
pub open spec fn listing_fault(
    kind: u32,
    capacity: nat,
    filled: i32,
    os_code: Option<i32>,
    text: Seq<char>,
) -> Option<Seq<char>> {
    if filled < 0 || (filled == 0 && os_code != Some(0i32)) {
        Some("native PID inventory failed: "@ + text)
    } else if capacity * 4 > usize::MAX {
        Some("PID buffer range"@)
    } else if filled >= capacity * 4 {
        Some("native process inventory saturated; absence is unconfirmed"@)
    } else if filled % 4 != 0 || (kind == 1 && filled == 0) {
        Some("native process inventory has an invalid byte count"@)
    } else {
        None
    }
}

/// Reads an answer that lists process numbers: `filled` bytes of the buffer `pids`
/// were written. An answer that fills the whole buffer may be cut short, and one
/// that lists no process at all cannot be of the whole system.
pub fn decode_pid_inventory(kind: u32, pids: &Vec<i32>, filled: i32, error: &Fault) -> (r: Result<
    Vec<i32>,
    String,
>)
    ensures
        match r {
            Ok(list) => listing_fault(
                kind,
                pids@.len(),
                filled,
                error.os_code,
                error.text.chars(),
            ) is None && list@ == positive(pids@.take(filled as int / 4)),
            Err(text) => listing_fault(
                kind,
                pids@.len(),
                filled,
                error.os_code,
                error.text.chars(),
            ) == Some(text@),
        },
{
    let silent = match error.os_code {
        Some(code) => code == 0,
        None => false,
    };
    if filled < 0 || (filled == 0 && !silent) {
        let text = error.text.render();
        return Err(join2("native PID inventory failed: ", text.as_str()));
    }
    let bytes: usize = filled as usize;
    let capacity: usize = match pids.len().checked_mul(4) {
        Some(capacity) => capacity,
        None => {
            return Err("PID buffer range".to_owned());
        },
    };
    if bytes >= capacity {
        return Err("native process inventory saturated; absence is unconfirmed".to_owned());
    }
    if bytes % 4 != 0 || (kind == 1 && bytes == 0) {
        return Err("native process inventory has an invalid byte count".to_owned());
    }
    let count: usize = bytes / 4;
    let mut out: Vec<i32> = Vec::new();
    let mut i: usize = 0;
    assert(out@ =~= positive(pids@.take(0)));
    while i < count
        invariant
            i <= count,
            count <= pids.len(),
            out@ == positive(pids@.take(i as int)),
        decreases count - i,
    {
        if pids[i] > 0 {
            out.push(pids[i]);
        }
        i += 1;
        assert(pids@.take(i as int).drop_last() =~= pids@.take(i - 1));
        assert(pids@.take(i as int).last() == pids@[i - 1]);
    }
    Ok(out)
}

/// Reads an answer that lists process numbers, with a native error number and the
/// text that goes with it.
pub fn pid_inventory_reply(
    kind: u32,
    pids: &Vec<i32>,
    filled: i32,
    errno: i32,
    error_text: String,
) -> (r: Result<Vec<i32>, String>)
    ensures
        match r {
            Ok(list) => listing_fault(
                kind,
                pids@.len(),
                filled,
                Some(errno),
                error_text@,
            ) is None && list@ == positive(pids@.take(filled as int / 4)),
            Err(text) => listing_fault(kind, pids@.len(), filled, Some(errno), error_text@) == Some(
                text@,
            ),
        },
{
    let error = Fault {
        kind: FaultKind::Other,
        os_code: Some(errno),
        text: crate::model::Text::Given(error_text),
    };
    decode_pid_inventory(kind, pids, filled, &error)
}

/// What one process was found to use.
#[derive(Debug)]
pub struct UsageReading {
    pub pid: i32,
    pub usage: Result<u64, Fault>,
}

/// What a known member that could not be measured is reported as.
pub open spec fn usage_fault(pid: i32, text: Seq<char>) -> Seq<char> {
    "proc_pid_rusage failed for known member pid="@ + signed_decimal(pid as int) + ": "@ + text
}

/// A sum that stays within range.
pub open spec fn capped_sum(a: u64, b: u64) -> u64 {
    if a + b > u64::MAX {
        u64::MAX
    } else {
        (a + b) as u64
    }
}

/// What the first readings add up to. A process that is gone uses nothing.
pub open spec fn usage_sum(readings: Seq<UsageReading>) -> Result<u64, Seq<char>>
    decreases readings.len(),
{
    if readings.len() == 0 {
        Ok(0)
    } else {
        match usage_sum(readings.drop_last()) {
            Err(text) => Err(text),
            Ok(total) => match readings.last().usage {
                Ok(value) => Ok(capped_sum(total, value)),
                Err(fault) => if fault.os_code == Some(ESRCH) {
                    Ok(total)
                } else {
                    Err(usage_fault(readings.last().pid, fault.text.chars()))
                },
            },
        }
    }
}

proof fn lemma_sum_stops(readings: Seq<UsageReading>, n: int)
    requires
        0 <= n <= readings.len(),
        usage_sum(readings.take(n)) is Err,
    ensures
        usage_sum(readings) == usage_sum(readings.take(n)),
    decreases readings.len() - n,
{
    if n < readings.len() {
        assert(readings.take(n + 1).drop_last() =~= readings.take(n));
        lemma_sum_stops(readings, n + 1);
    } else {
        assert(readings.take(n) =~= readings);
    }
}

/// What the members of a workload use together.
pub fn sample_native(readings: &Vec<UsageReading>) -> (r: Result<u64, String>)
    ensures
        match r {
            Ok(total) => usage_sum(readings@) == Ok::<u64, Seq<char>>(total),
            Err(text) => usage_sum(readings@) == Err::<u64, Seq<char>>(text@),
        },
{
    let mut total: u64 = 0;
    let mut i: usize = 0;
    while i < readings.len()
        invariant
            i <= readings.len(),
            usage_sum(readings@.take(i as int)) == Ok::<u64, Seq<char>>(total),
        decreases readings.len() - i,
    {
        proof {
            assert(readings@.take(i + 1).drop_last() =~= readings@.take(i as int));
            assert(readings@.take(i + 1).last() == readings@[i as int]);
        }
        match &readings[i].usage {
            Ok(value) => {
                total = total.saturating_add(*value);
            },
            Err(fault) => {
                let gone = match fault.os_code {
                    Some(code) => code == ESRCH,
                    None => false,
                };
                if !gone {
                    let number = signed_text(readings[i].pid);
                    let reason = fault.text.render();
                    let mut text = join2(
                        "proc_pid_rusage failed for known member pid=",
                        number.as_str(),
                    );
                    text.append(": ");
                    text.append(reason.as_str());
                    proof {
                        assert(text@ =~= usage_fault(readings@[i as int].pid, fault.text.chars()));
                        lemma_sum_stops(readings@, i + 1);
                    }
                    return Err(text);
                }
            },
        }
        i += 1;
    }
    assert(readings@.take(i as int) =~= readings@);
    Ok(total)
}

/// Where a metric's value comes from.
#[derive(Clone, Copy, Debug, PartialEq, Eq, Structural)]
pub enum UsageSource {
    PhysicalFootprint,
    ResidentSize,
    VirtualSize,
}

/// Where a metric's value comes from.
pub fn process_usage(metric: Metric) -> (r: UsageSource)
    ensures
        r == match metric {
            Metric::Native => UsageSource::PhysicalFootprint,
            Metric::PhysicalFootprint => UsageSource::PhysicalFootprint,
            Metric::Rss => UsageSource::ResidentSize,
            Metric::Virtual => UsageSource::VirtualSize,
        },
{
    match metric {
        Metric::Native => UsageSource::PhysicalFootprint,
        Metric::PhysicalFootprint => UsageSource::PhysicalFootprint,
        Metric::Rss => UsageSource::ResidentSize,
        Metric::Virtual => UsageSource::VirtualSize,
    }
}

/// The name of a metric summed over a workload.
pub open spec fn metric_named(metric: Metric) -> &'static str {
    match metric {
        Metric::Native => "physical-footprint-sum",
        Metric::PhysicalFootprint => "physical-footprint-sum",
        Metric::Rss => "rss-sum",
        Metric::Virtual => "virtual-size-sum",
    }
}

/// The name of a metric summed over a workload.
pub fn metric_name(metric: Metric) -> (r: &'static str)
    ensures
        r == metric_named(metric),
{
    match metric {
        Metric::Native => "physical-footprint-sum",
        Metric::PhysicalFootprint => "physical-footprint-sum",
        Metric::Rss => "rss-sum",
        Metric::Virtual => "virtual-size-sum",
    }
}

/// Decides whether a member is signalled: only the very process that was listed
/// is, and one that has gone since needs none.
pub fn signal_member(listed: ProcessSnapshot, now: Result<ProcessSnapshot, Fault>) -> (r: Result<
    bool,
    String,
>)
    ensures
        match now {
            Ok(snapshot) => r == Ok::<bool, String>(snapshot.identity == listed.identity),
            Err(fault) => if fault.os_code == Some(ESRCH) {
                r == Ok::<bool, String>(false)
            } else {
                r matches Err(text) && text@ == "guardian identity is unconfirmed: "@
                    + fault.text.chars()
            },
        },
{
    match now {
        Ok(snapshot) => Ok(snapshot.identity == listed.identity),
        Err(fault) => {
            let gone = match fault.os_code {
                Some(code) => code == ESRCH,
                None => false,
            };
            if gone {
                return Ok(false);
            }
            let reason = fault.text.render();
            Err(join2("guardian identity is unconfirmed: ", reason.as_str()))
        },
    }
}

/// What became of a signal: a process that is gone needed none.
pub fn signal_sent(sent: Result<(), Fault>) -> (r: Result<(), String>)
    ensures
        match sent {
            Ok(_) => r is Ok,
            Err(fault) => if fault.os_code == Some(ESRCH) {
                r is Ok
            } else {
                r matches Err(text) && text@ == fault.text.chars()
            },
        },
{
    match sent {
        Ok(_) => Ok(()),
        Err(fault) => {
            let gone = match fault.os_code {
                Some(code) => code == ESRCH,
                None => false,
            };
            if gone {
                Ok(())
            } else {
                Err(fault.text.render())
            }
        },
    }
}

/// A process that was known and that the table could not describe stays known.
pub proof fn undescribed_members_stay(
    root_pid: i32,
    known: Set<ProcessIdentity>,
    snapshots: Seq<ProcessSnapshot>,
    unresolved: Seq<i32>,
    set: Set<ProcessIdentity>,
    identity: ProcessIdentity,
)
    requires
        is_closure(root_pid, snapshots, kept(root_pid, known, snapshots, unresolved), set),
        known.contains(identity),
        unresolved.contains(identity.pid),
    ensures
        set.contains(identity),
        touches(unresolved, Seq::empty(), set),
{
    assert(kept(root_pid, known, snapshots, unresolved).contains(identity));
    let i = unresolved.index_of(identity.pid);
    assert(unresolved[i] == identity.pid);
    assert(has_number(set, unresolved[i]));
}

/// Whether no number occurs twice in a table.
pub open spec fn distinct_numbers(snapshots: Seq<ProcessSnapshot>) -> bool {
    forall|i: int, j: int|
        0 <= i < j < snapshots.len() ==> (#[trigger] snapshots[i]).identity.pid != (
        #[trigger] snapshots[j]).identity.pid
}

proof fn lemma_current_is_last(snapshots: Seq<ProcessSnapshot>, i: int)
    requires
        distinct_numbers(snapshots),
        0 <= i < snapshots.len(),
    ensures
        current(snapshots, snapshots[i].identity.pid) == Some(snapshots[i]),
    decreases snapshots.len(),
{
    let last = snapshots.len() - 1;
    if i < last {
        assert(snapshots[last].identity.pid != snapshots[i].identity.pid);
        let rest = snapshots.drop_last();
        assert(rest[i] == snapshots[i]);
        assert(distinct_numbers(rest)) by {
            assert forall|a: int, b: int| 0 <= a < b < rest.len() implies (
            #[trigger] rest[a]).identity.pid != (#[trigger] rest[b]).identity.pid by {
                assert(rest[a] == snapshots[a] && rest[b] == snapshots[b]);
            }
        }
        lemma_current_is_last(rest, i);
    }
}

proof fn lemma_current_is_named(snapshots: Seq<ProcessSnapshot>, pid: i32)
    ensures
        current(snapshots, pid) matches Some(snapshot) ==> snapshot.identity.pid == pid,
    decreases snapshots.len(),
{
    if snapshots.len() > 0 {
        lemma_current_is_named(snapshots.drop_last(), pid);
    }
}

/// Reconciling twice with one table comes to the same as reconciling once, where
/// no number occurs twice in the table.
pub proof fn reconciling_is_idempotent(
    root_pid: i32,
    known: Set<ProcessIdentity>,
    snapshots: Seq<ProcessSnapshot>,
    unresolved: Seq<i32>,
    once: Set<ProcessIdentity>,
    twice: Set<ProcessIdentity>,
)
    requires
        distinct_numbers(snapshots),
        is_closure(root_pid, snapshots, kept(root_pid, known, snapshots, unresolved), once),
        is_closure(root_pid, snapshots, kept(root_pid, once, snapshots, unresolved), twice),
    ensures
        twice == once,
{
    let start = kept(root_pid, known, snapshots, unresolved);
    let again = kept(root_pid, once, snapshots, unresolved);
    let described = Set::new(
        |x: ProcessIdentity| exists|i: int| 0 <= i < snapshots.len() && (#[trigger] snapshots[i]).identity == x,
    );
    let bounded = once.intersect(start.union(described));
    lemma_current_is_named(snapshots, root_pid);
    assert(is_closed(root_pid, snapshots, bounded)) by {
        assert forall|i: int|
            0 <= i < snapshots.len() && drawn_in(
                root_pid,
                bounded,
                #[trigger] snapshots[i],
            ) implies bounded.contains(snapshots[i].identity) by {
            if snapshots[i].process_group != root_pid {
                lemma_numbers_grow(bounded, once, snapshots[i].parent_pid);
            }
            assert(drawn_in(root_pid, once, snapshots[i]));
            assert(described.contains(snapshots[i].identity));
        }
    }
    assert(start.subset_of(bounded));
    assert(once.subset_of(bounded));
    assert(again =~= once) by {
        assert forall|x: ProcessIdentity| #[trigger] once.contains(x) implies again.contains(x) by {
            assert(bounded.contains(x));
            if described.contains(x) {
                let i = choose|i: int|
                    0 <= i < snapshots.len() && (#[trigger] snapshots[i]).identity == x;
                lemma_current_is_last(snapshots, i);
                assert(may_remain(snapshots, unresolved, x));
            } else {
                assert(start.contains(x));
                if current(snapshots, root_pid) is Some && current(snapshots, root_pid)->0.identity
                    == x {
                    assert(may_remain(snapshots, unresolved, x));
                } else {
                    assert(may_remain(snapshots, unresolved, x));
                }
            }
        }
        assert forall|x: ProcessIdentity| #[trigger] again.contains(x) implies once.contains(x) by {
            if current(snapshots, root_pid) is Some && current(snapshots, root_pid)->0.identity
                == x {
                assert(start.contains(x));
            }
        }
    }
    assert(again.subset_of(once));
    assert(twice.subset_of(once));
    assert(once.subset_of(twice));
    assert(twice =~= once);
}

} // verus!
