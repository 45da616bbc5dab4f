//! Finding a workload's members on macOS where the process table has gaps: which
//! numbers are of interest, and which further listings to ask for.

use vstd::prelude::*;

use crate::macos_inventory::{has_number, Identities, Inventory, ProcessIdentity, ProcessSnapshot};

verus! {

/// The numbers in a list.
pub open spec fn listed(list: Seq<i32>) -> Set<i32> {
    Set::new(|n: i32| list.contains(n))
}

/// The numbers of a set of processes.
pub open spec fn numbers_in(set: Set<ProcessIdentity>) -> Set<i32> {
    Set::new(|n: i32| has_number(set, n))
}

/// Whether a set of numbers holds every process in the root's group and every
/// process whose parent it holds.
pub open spec fn holds_kin(root_pid: i32, snapshots: Seq<ProcessSnapshot>, set: Set<i32>) -> bool {
    forall|i: int|
        0 <= i < snapshots.len() && ((#[trigger] snapshots[i]).process_group == root_pid
            || set.contains(snapshots[i].parent_pid)) ==> set.contains(snapshots[i].identity.pid)
}

/// Whether a set is the least one that holds a start and all kin.
pub open spec fn is_kin(
    root_pid: i32,
    snapshots: Seq<ProcessSnapshot>,
    start: Set<i32>,
    set: Set<i32>,
) -> bool {
    &&& start.subset_of(set)
    &&& holds_kin(root_pid, snapshots, set)
    &&& least_above(root_pid, snapshots, start, set)
}

/// Whether a set holds nothing but what every set above a start with all kin holds.
pub open spec fn least_above(
    root_pid: i32,
    snapshots: Seq<ProcessSnapshot>,
    start: Set<i32>,
    set: Set<i32>,
) -> bool {
    forall|other: Set<i32>|
        start.subset_of(other) && #[trigger] holds_kin(root_pid, snapshots, other)
            ==> set.subset_of(other)
}

/// How many of the table's numbers are not in a set.
pub open spec fn absent(snapshots: Seq<ProcessSnapshot>, set: Set<i32>) -> nat
    decreases snapshots.len(),
{
    if snapshots.len() == 0 {
        0
    } else {
        absent(snapshots.drop_last(), set) + if set.contains(snapshots.last().identity.pid) {
            0nat
        } else {
            1nat
        }
    }
}

proof fn lemma_absent_only_falls(snapshots: Seq<ProcessSnapshot>, set: Set<i32>, n: i32)
    ensures
        absent(snapshots, set.insert(n)) <= absent(snapshots, set),
    decreases snapshots.len(),
{
    if snapshots.len() > 0 {
        lemma_absent_only_falls(snapshots.drop_last(), set, n);
    }
}

proof fn lemma_absent(snapshots: Seq<ProcessSnapshot>, set: Set<i32>, i: int)
    requires
        0 <= i < snapshots.len(),
        !set.contains(snapshots[i].identity.pid),
    ensures
        absent(snapshots, set.insert(snapshots[i].identity.pid)) < absent(snapshots, set),
    decreases snapshots.len(),
{
    lemma_absent_only_falls(snapshots.drop_last(), set, snapshots[i].identity.pid);
    if i < snapshots.len() - 1 {
        assert(snapshots.drop_last()[i] == snapshots[i]);
        lemma_absent(snapshots.drop_last(), set, i);
    }
}

proof fn lemma_listed_push(list: Seq<i32>, n: i32)
    ensures
        listed(list.push(n)) == listed(list).insert(n),
{
    let after = list.push(n);
    assert forall|m: i32|
        #![trigger listed(after).contains(m)]
        listed(after).contains(m) == listed(list).insert(n).contains(m) by {
        if list.contains(m) {
            let k = list.index_of(m);
            assert(after[k] == m);
        }
        if m == n {
            assert(after[list.len() as int] == m);
        }
        if after.contains(m) {
            let k = after.index_of(m);
            if k < list.len() {
                assert(list[k] == m);
            }
        }
    }
    assert(listed(after) =~= listed(list).insert(n));
}

fn is_listed(list: &Vec<i32>, n: i32) -> (r: bool)
    ensures
        r == listed(list@).contains(n),
{
    let mut i: usize = 0;
    while i < list.len()
        invariant
            i <= list.len(),
            forall|k: int| 0 <= k < i ==> list@[k] != n,
        decreases list.len() - i,
    {
        if list[i] == n {
            assert(list@.contains(n));
            return true;
        }
        i += 1;
    }
    false
}

fn note(list: &mut Vec<i32>, n: i32) -> (r: bool)
    ensures
        listed(final(list)@) == listed(old(list)@).insert(n),
        r == !listed(old(list)@).contains(n),
{
    if is_listed(list, n) {
        assert(listed(list@).insert(n) =~= listed(list@));
        return false;
    }
    proof {
        lemma_listed_push(list@, n);
    }
    list.push(n);
    true
}

fn note_all(list: &mut Vec<i32>, more: &Vec<i32>)
    ensures
        listed(final(list)@) == listed(old(list)@).union(listed(more@)),
{
    let ghost start = listed(list@);
    let mut i: usize = 0;
    assert(listed(list@) =~= start.union(listed(more@.take(0))));
    while i < more.len()
        invariant
            i <= more.len(),
            listed(list@) == start.union(listed(more@.take(i as int))),
        decreases more.len() - i,
    {
        note(list, more[i]);
        i += 1;
        proof {
            assert(more@.take(i as int) =~= more@.take(i - 1).push(more@[i - 1]));
            lemma_listed_push(more@.take(i - 1), more@[i - 1]);
            assert(listed(list@) =~= start.union(listed(more@.take(i as int))));
        }
    }
    assert(more@.take(i as int) =~= more@);
}

fn note_known(list: &mut Vec<i32>, known: &Identities)
    ensures
        listed(final(list)@) == listed(old(list)@).union(numbers_in(known@)),
{
    let ghost start = listed(list@);
    let mut numbers: Vec<i32> = Vec::new();
    let mut i: usize = 0;
    while i < known.list.len()
        invariant
            i <= known.list.len(),
            numbers.len() == i,
            forall|k: int| 0 <= k < i ==> numbers@[k] == known.list@[k].pid,
        decreases known.list.len() - i,
    {
        numbers.push(known.list[i].pid);
        i += 1;
    }
    note_all(list, &numbers);
    proof {
        assert forall|n: i32|
            #![trigger numbers_in(known@).contains(n)]
            listed(numbers@).contains(n) == numbers_in(known@).contains(n) by {
            if numbers@.contains(n) {
                let k = numbers@.index_of(n);
                assert(known@.contains(known.list@[k]));
                assert(known.list@[k].pid == n);
            }
            if has_number(known@, n) {
                let x = choose|x: ProcessIdentity| known@.contains(x) && #[trigger] x.pid == n;
                let k = known.list@.index_of(x);
                assert(numbers@[k] == n);
            }
        }
        assert(listed(numbers@) =~= numbers_in(known@));
    }
}

fn close_kin(root_pid: i32, list: &mut Vec<i32>, snapshots: &Vec<ProcessSnapshot>)
    ensures
        is_kin(root_pid, snapshots@, listed(old(list)@), listed(final(list)@)),
{
    let ghost start = listed(list@);
    let ghost table = snapshots@;
    let mut changed = true;
    while changed
        invariant
            table == snapshots@,
            start.subset_of(listed(list@)),
            least_above(root_pid, table, start, listed(list@)),
            !changed ==> holds_kin(root_pid, table, listed(list@)),
        decreases absent(table, listed(list@)) + if changed {
            1nat
        } else {
            0nat
        },
    {
        changed = false;
        let ghost at_round = listed(list@);
        let mut i: usize = 0;
        while i < snapshots.len()
            invariant
                i <= snapshots.len(),
                table == snapshots@,
                start.subset_of(listed(list@)),
                at_round.subset_of(listed(list@)),
                least_above(root_pid, table, start, listed(list@)),
                changed ==> absent(table, listed(list@)) < absent(table, at_round),
                !changed ==> listed(list@) == at_round && forall|k: int|
                    0 <= k < i && ((#[trigger] table[k]).process_group == root_pid || listed(
                        list@,
                    ).contains(table[k].parent_pid)) ==> listed(list@).contains(
                        table[k].identity.pid,
                    ),
            decreases snapshots.len() - i,
        {
            let snapshot = snapshots[i];
            if snapshot.process_group == root_pid || is_listed(list, snapshot.parent_pid) {
                let ghost before = listed(list@);
                assert(table[i as int] == snapshot);
                let fresh = note(list, snapshot.identity.pid);
                proof {
                    lemma_absent_only_falls(table, before, snapshot.identity.pid);
                    if fresh {
                        lemma_absent(table, before, i as int);
                    } else {
                        assert(listed(list@) =~= before);
                    }
                    assert forall|other: Set<i32>|
                        start.subset_of(other) && #[trigger] holds_kin(
                            root_pid,
                            table,
                            other,
                        ) implies listed(list@).subset_of(other) by {
                        assert(before.subset_of(other));
                        assert(table[i as int] == snapshot);
                    }
                }
                if fresh {
                    changed = true;
                }
            }
            i += 1;
        }
    }
}

/// Where a search stands.
#[derive(Clone, Copy, Debug, PartialEq, Eq, Structural)]
pub enum DiscoveryStage {
    Group,
    Children,
    Over,
}

/// What a search needs next.
#[derive(Clone, Copy, Debug, PartialEq, Eq)]
pub enum DiscoveryStep {
    /// The numbers of the processes in this group.
    ListGroup(u32),
    /// The numbers of this process's children.
    ListChildren(u32),
    /// Nothing: the numbers of interest are complete.
    Reconcile,
    /// It cannot go on.
    Failed(&'static str),
}

/// A search for the numbers of interest.
#[derive(Debug)]
pub struct Discovery {
    pub relevant: Vec<i32>,
    pub parents: Vec<i32>,
    pub next: usize,
    pub stage: DiscoveryStage,
}

impl Discovery {
    /// The numbers of interest.
    pub open spec fn found(&self) -> Set<i32> {
        listed(self.relevant@)
    }

    /// The step that the next parent calls for.
    pub open spec fn next_step(&self) -> DiscoveryStep {
        if self.next >= self.parents@.len() {
            DiscoveryStep::Reconcile
        } else if self.parents@[self.next as int] < 0 {
            DiscoveryStep::Failed("invalid parent identity")
        } else {
            DiscoveryStep::ListChildren(self.parents@[self.next as int] as u32)
        }
    }

    fn step(&self) -> (r: DiscoveryStep)
        ensures
            r == self.next_step(),
    {
        if self.next >= self.parents.len() {
            DiscoveryStep::Reconcile
        } else if self.parents[self.next] < 0 {
            DiscoveryStep::Failed("invalid parent identity")
        } else {
            DiscoveryStep::ListChildren(self.parents[self.next] as u32)
        }
    }

    /// Starts a search: the root and those known are of interest. Where the table
    /// has gaps, so are all kin, and more is asked for.
    pub fn begin(root_pid: i32, known: &Identities, inventory: &Inventory) -> (r: (
        Discovery,
        DiscoveryStep,
    ))
        ensures
            r.0.parents@.len() == 0 && r.0.next == 0,
            ({
                let start = set![root_pid].union(numbers_in(known@));
                if inventory.unresolved@.len() == 0 {
                    r.0.found() == start && r.0.stage == DiscoveryStage::Over && r.1
                        == DiscoveryStep::Reconcile
                } else {
                    is_kin(root_pid, inventory.snapshots@, start, r.0.found()) && if root_pid < 0 {
                        r.0.stage == DiscoveryStage::Over && r.1 == DiscoveryStep::Failed(
                            "invalid root group",
                        )
                    } else {
                        r.0.stage == DiscoveryStage::Group && r.1 == DiscoveryStep::ListGroup(
                            root_pid as u32,
                        )
                    }
                }
            }),
    {
        let mut relevant: Vec<i32> = Vec::new();
        note(&mut relevant, root_pid);
        assert(listed(relevant@) =~= set![root_pid]);
        note_known(&mut relevant, known);
        let parents: Vec<i32> = Vec::new();
        if inventory.unresolved.len() == 0 {
            return (
                Discovery { relevant, parents, next: 0, stage: DiscoveryStage::Over },
                DiscoveryStep::Reconcile,
            );
        }
        close_kin(root_pid, &mut relevant, &inventory.snapshots);
        if root_pid < 0 {
            return (
                Discovery { relevant, parents, next: 0, stage: DiscoveryStage::Over },
                DiscoveryStep::Failed("invalid root group"),
            );
        }
        (
            Discovery { relevant, parents, next: 0, stage: DiscoveryStage::Group },
            DiscoveryStep::ListGroup(root_pid as u32),
        )
    }

    /// The group was listed: its members are of interest, and so are the children of
    /// everyone who is.
    pub fn group_listed(&mut self, pids: &Vec<i32>) -> (r: DiscoveryStep)
        requires
            old(self).stage == DiscoveryStage::Group,
        ensures
            final(self).found() == old(self).found().union(listed(pids@)),
            final(self).parents@ == final(self).relevant@,
            final(self).next == 0,
            r == final(self).next_step(),
            final(self).stage == if r is ListChildren {
                DiscoveryStage::Children
            } else {
                DiscoveryStage::Over
            },
    {
        note_all(&mut self.relevant, pids);
        let mut parents: Vec<i32> = Vec::new();
        let mut i: usize = 0;
        while i < self.relevant.len()
            invariant
                i <= self.relevant.len(),
                parents@ == self.relevant@.take(i as int),
            decreases self.relevant.len() - i,
        {
            parents.push(self.relevant[i]);
            i += 1;
            assert(parents@ =~= self.relevant@.take(i as int));
        }
        assert(self.relevant@.take(i as int) =~= self.relevant@);
        self.parents = parents;
        self.next = 0;
        let step = self.step();
        self.stage = match step {
            DiscoveryStep::ListChildren(_) => DiscoveryStage::Children,
            _ => DiscoveryStage::Over,
        };
        step
    }

    /// One parent's children were listed: they are of interest.
    pub fn children_listed(&mut self, pids: &Vec<i32>) -> (r: DiscoveryStep)
        requires
            old(self).stage == DiscoveryStage::Children,
            old(self).next < old(self).parents.len(),
        ensures
            final(self).found() == old(self).found().union(listed(pids@)),
            final(self).parents == old(self).parents,
            final(self).next == old(self).next + 1,
            r == final(self).next_step(),
            final(self).stage == if r is ListChildren {
                DiscoveryStage::Children
            } else {
                DiscoveryStage::Over
            },
    {
        note_all(&mut self.relevant, pids);
        self.next = self.next + 1;
        let step = self.step();
        self.stage = match step {
            DiscoveryStep::ListChildren(_) => DiscoveryStage::Children,
            _ => DiscoveryStage::Over,
        };
        step
    }
}

/// Whoever is in the root's group, or descends from someone of interest, is of
/// interest, as far as the table shows it.
pub proof fn kin_are_of_interest(
    root_pid: i32,
    snapshots: Seq<ProcessSnapshot>,
    start: Set<i32>,
    set: Set<i32>,
    i: int,
)
    requires
        is_kin(root_pid, snapshots, start, set),
        0 <= i < snapshots.len(),
        snapshots[i].process_group == root_pid || set.contains(snapshots[i].parent_pid),
    ensures
        set.contains(snapshots[i].identity.pid),
{
}

} // verus!
