//! The caller's state on macOS: its descriptors, working directory, signal
//! dispositions and limits, and the message that carries them.

use vstd::prelude::*;

use crate::bytes::{from_le32, get_le32};
use crate::model::{Fault, FaultKind};

verus! {

/// The largest number of descriptors that are carried.
pub const MAX_FDS: usize = 128;

/// The length of the longest manifest.
pub const MAX_MANIFEST: usize = 4096;

/// The length of a control message's header.
pub const CONTROL_HEADER: usize = 12;

/// The level of a control message that carries descriptors.
pub const SOL_SOCKET: i32 = 0xffff;

/// The type of a control message that carries descriptors.
pub const SCM_RIGHTS: i32 = 1;

/// The last signal, and the two that cannot be ignored.
pub const LAST_SIGNAL: i32 = 31;

pub const SIGKILL: i32 = 9;

pub const SIGSTOP: i32 = 17;

/// What is wrong with an envelope that is refused.
pub open spec fn envelope_fault() -> Fault {
    Fault::found(FaultKind::Other, "invalid caller descriptor envelope")
}

fn error() -> (r: Fault)
    ensures
        r == envelope_fault(),
{
    Fault::new(FaultKind::Other, "invalid caller descriptor envelope")
}

/// A signed word, the least significant byte first.
pub open spec fn word(bytes: Seq<u8>, at: int) -> int {
    let n = from_le32(bytes[at], bytes[at + 1], bytes[at + 2], bytes[at + 3]) as int;
    if n > i32::MAX {
        n - 0x1_0000_0000
    } else {
        n
    }
}

fn get_word(bytes: &[u8], at: usize) -> (r: i32)
    requires
        at + 4 <= bytes.len(),
    ensures
        r == word(bytes@, at as int),
{
    let n: u32 = get_le32(bytes, at);
    if n > 0x7fff_ffff {
        ((n as i64) - 0x1_0000_0000) as i32
    } else {
        n as i32
    }
}

/// What a walk over control messages found: the descriptors that are taken over,
/// and whether anything was wrong.
pub struct RightsView {
    pub adopted: Seq<int>,
    pub invalid: bool,
}

/// Takes over one descriptor after another. A negative word is none, and a word
/// that occurred before is not taken over twice; either is wrong.
pub open spec fn adopt(bytes: Seq<u8>, at: int, count: nat, so_far: RightsView) -> RightsView
    decreases count,
{
    if count == 0 {
        so_far
    } else {
        let before = adopt(bytes, at, (count - 1) as nat, so_far);
        let fd = word(bytes, at + 4 * (count - 1));
        if fd < 0 || before.adopted.contains(fd) {
            RightsView { invalid: true, ..before }
        } else {
            RightsView { adopted: before.adopted.push(fd), ..before }
        }
    }
}

/// A length rounded up to whole words.
pub open spec fn padded(n: int) -> int {
    (n + 3) / 4 * 4
}

/// What one control message adds.
pub open spec fn message_rights(
    bytes: Seq<u8>,
    extent: int,
    offset: int,
    so_far: RightsView,
) -> RightsView {
    let length = from_le32(
        bytes[offset],
        bytes[offset + 1],
        bytes[offset + 2],
        bytes[offset + 3],
    ) as int;
    let available = extent - offset;
    let copied = if length < available {
        length - 12
    } else {
        available - 12
    };
    let seen = RightsView { invalid: so_far.invalid || length > available, ..so_far };
    if word(bytes, offset + 4) == SOL_SOCKET && word(bytes, offset + 8) == SCM_RIGHTS {
        adopt(
            bytes,
            offset + 12,
            (copied / 4) as nat,
            RightsView {
                invalid: seen.invalid || (length - 12) % 4 != 0 || copied % 4 != 0,
                ..seen
            },
        )
    } else {
        RightsView { invalid: true, ..seen }
    }
}

/// What the control messages from a place on add.
pub open spec fn walk(bytes: Seq<u8>, extent: int, offset: int, so_far: RightsView) -> RightsView
    decreases extent - offset,
{
    if offset >= extent {
        so_far
    } else if extent - offset < 12 {
        RightsView { invalid: true, ..so_far }
    } else {
        let length = from_le32(
            bytes[offset],
            bytes[offset + 1],
            bytes[offset + 2],
            bytes[offset + 3],
        ) as int;
        if length < 12 {
            RightsView { invalid: true, ..so_far }
        } else {
            let next = message_rights(bytes, extent, offset, so_far);
            let advance = 12 + padded(length - 12);
            if length > extent - offset || advance > extent - offset {
                next
            } else {
                walk(bytes, extent, offset + advance, next)
            }
        }
    }
}

/// What was received: the descriptors that are taken over, and whether the message
/// is refused. Whoever receives a refused message closes the descriptors.
#[derive(Debug)]
pub struct Rights {
    pub adopted: Vec<i32>,
    pub invalid: bool,
}

/// The words of a list as integers.
pub open spec fn as_ints(list: Seq<i32>) -> Seq<int> {
    Seq::new(list.len(), |i: int| list[i] as int)
}

impl View for Rights {
    type V = RightsView;

    open spec fn view(&self) -> RightsView {
        RightsView { adopted: as_ints(self.adopted@), invalid: self.invalid }
    }
}

fn holds(list: &Vec<i32>, fd: i32) -> (r: bool)
    ensures
        r == as_ints(list@).contains(fd as int),
{
    let mut i: usize = 0;
    while i < list.len()
        invariant
            i <= list.len(),
            forall|k: int| 0 <= k < i ==> list@[k] != fd,
        decreases list.len() - i,
    {
        if list[i] == fd {
            assert(as_ints(list@)[i as int] == fd);
            return true;
        }
        i += 1;
    }
    proof {
        if as_ints(list@).contains(fd as int) {
            let k = as_ints(list@).index_of(fd as int);
            assert(list@[k] == fd);
        }
    }
    false
}

/// How much of a control buffer counts.
pub open spec fn control_extent(returned: nat, capacity: nat) -> nat {
    if returned < capacity {
        returned
    } else {
        capacity
    }
}

/// Takes over the descriptors in a control buffer of which `returned` bytes were
/// filled. Nothing beyond what was filled, or beyond the buffer, is read as a
/// descriptor. `truncated` says that the message or its control data was cut short.
pub fn receive_rights(ancillary: &[u8], returned: usize, truncated: bool) -> (r: Rights)
    ensures
        r@ == walk(
            ancillary@,
            control_extent(returned as nat, ancillary@.len()) as int,
            0,
            RightsView {
                adopted: Seq::empty(),
                invalid: returned > ancillary@.len() || truncated,
            },
        ),
{
    let capacity: usize = ancillary.len();
    let extent: usize = if returned < capacity {
        returned
    } else {
        capacity
    };
    let mut rights = Rights {
        adopted: Vec::new(),
        invalid: returned > capacity || truncated,
    };
    assert(rights@.adopted =~= Seq::<int>::empty());
    let ghost goal = walk(ancillary@, extent as int, 0, rights@);
    let mut offset: usize = 0;
    while offset < extent
        invariant_except_break
            offset <= extent,
            goal == walk(ancillary@, extent as int, offset as int, rights@),
        invariant
            extent <= ancillary.len(),
        ensures
            goal == rights@,
        decreases extent - offset,
    {
        let available: usize = extent - offset;
        if available < CONTROL_HEADER {
            rights.invalid = true;
            break;
        }
        let length: usize = get_le32(ancillary, offset) as usize;
        if length < CONTROL_HEADER {
            rights.invalid = true;
            break;
        }
        let ghost so_far = rights@;
        let level: i32 = get_word(ancillary, offset + 4);
        let kind: i32 = get_word(ancillary, offset + 8);
        if length > available {
            rights.invalid = true;
        }
        let payload: usize = length - CONTROL_HEADER;
        let copied: usize = if length < available {
            payload
        } else {
            available - CONTROL_HEADER
        };
        if level == SOL_SOCKET && kind == SCM_RIGHTS {
            if payload % 4 != 0 || copied % 4 != 0 {
                rights.invalid = true;
            }
            let ghost begun = rights@;
            let count: usize = copied / 4;
            let mut index: usize = 0;
            while index < count
                invariant
                    index <= count,
                    count == copied / 4,
                    offset + 12 + copied <= extent,
                    extent <= ancillary.len(),
                    rights@ == adopt(ancillary@, offset + 12, index as nat, begun),
                decreases count - index,
            {
                let ghost before = rights@;
                let fd: i32 = get_word(ancillary, offset + 12 + index * 4);
                if fd < 0 || holds(&rights.adopted, fd) {
                    rights.invalid = true;
                } else {
                    rights.adopted.push(fd);
                    assert(rights@.adopted =~= before.adopted.push(fd as int));
                }
                index += 1;
            }
        } else {
            rights.invalid = true;
        }
        assert(rights@ == message_rights(ancillary@, extent as int, offset as int, so_far));
        if length > available {
            break;
        }
        let rounded: usize = payload / 4 * 4;
        let rest: usize = payload % 4;
        let extra: usize = if rest == 0 {
            0
        } else {
            4
        };
        assert(12 + rounded + extra == 12 + padded(payload as int));
        if extra > available - CONTROL_HEADER - rounded {
            break;
        }
        offset = offset + CONTROL_HEADER + rounded + extra;
    }
    rights
}

/// What is restored before the target runs: which signals are ignored, the mask,
/// and the limits as resource, current value and maximum.
#[derive(Debug)]
pub struct Settings {
    pub mask: u32,
    pub ignored: Vec<i32>,
    pub limits: Vec<(i32, u64, u64)>,
}

/// Whether a signal's disposition can be chosen.
pub open spec fn is_choosable(signal: int) -> bool {
    1 <= signal <= LAST_SIGNAL && signal != SIGKILL && signal != SIGSTOP
}

/// Whether the ignored signals are in order, without repetition, and can be
/// ignored.
pub open spec fn ignorable(ignored: Seq<i32>) -> bool {
    &&& forall|i: int| 0 <= i < ignored.len() ==> is_choosable(#[trigger] ignored[i] as int)
    &&& forall|i: int|
        0 <= i < ignored.len() - 1 ==> #[trigger] ignored[i] < ignored[i + 1]
}

/// What becomes of a signal: it is ignored, or handled as by default.
#[derive(Clone, Copy, Debug, PartialEq, Eq, Structural)]
pub struct Disposition {
    pub signal: i32,
    pub ignore: bool,
}

/// What becomes of the first `n` signals that can be chosen.
pub open spec fn dispositions(ignored: Seq<i32>, n: nat) -> Seq<Disposition>
    decreases n,
{
    if n == 0 {
        Seq::empty()
    } else if is_choosable(n as int) {
        dispositions(ignored, (n - 1) as nat).push(
            Disposition { signal: n as i32, ignore: ignored.contains(n as i32) },
        )
    } else {
        dispositions(ignored, (n - 1) as nat)
    }
}

impl Settings {
    /// What becomes of every signal, unless the settings are refused.
    pub fn restore(&self) -> (r: Result<Vec<Disposition>, Fault>)
        ensures
            match r {
                Ok(plan) => ignorable(self.ignored@) && plan@ == dispositions(self.ignored@, 31),
                Err(fault) => !ignorable(self.ignored@) && fault == envelope_fault(),
            },
    {
        let mut i: usize = 0;
        while i < self.ignored.len()
            invariant
                i <= self.ignored.len(),
                forall|k: int| 0 <= k < i ==> is_choosable(#[trigger] self.ignored@[k] as int),
                forall|k: int|
                    0 <= k < i && k < self.ignored@.len() - 1 ==> #[trigger] self.ignored@[k]
                        < self.ignored@[k + 1],
            decreases self.ignored.len() - i,
        {
            let signal: i32 = self.ignored[i];
            if signal < 1 || signal > LAST_SIGNAL || signal == SIGKILL || signal == SIGSTOP {
                assert(!is_choosable(self.ignored@[i as int] as int));
                return Err(error());
            }
            if i + 1 < self.ignored.len() && signal >= self.ignored[i + 1] {
                assert(!(self.ignored@[i as int] < self.ignored@[i + 1]));
                return Err(error());
            }
            i += 1;
        }
        let mut plan: Vec<Disposition> = Vec::new();
        let mut signal: i32 = 0;
        while signal < LAST_SIGNAL
            invariant
                0 <= signal <= 31,
                plan@ == dispositions(self.ignored@, signal as nat),
            decreases 31 - signal,
        {
            signal += 1;
            if signal != SIGKILL && signal != SIGSTOP {
                let mut ignore = false;
                let mut j: usize = 0;
                while j < self.ignored.len()
                    invariant
                        j <= self.ignored.len(),
                        ignore == self.ignored@.take(j as int).contains(signal),
                    decreases self.ignored.len() - j,
                {
                    if self.ignored[j] == signal {
                        ignore = true;
                    }
                    j += 1;
                    proof {
                        let so_far = self.ignored@.take(j - 1);
                        let next = self.ignored@.take(j as int);
                        assert(next =~= so_far.push(self.ignored@[j - 1]));
                        if so_far.contains(signal) {
                            let k = so_far.index_of(signal);
                            assert(next[k] == signal);
                        }
                        if self.ignored@[j - 1] == signal {
                            assert(next[j - 1] == signal);
                        }
                        if next.contains(signal) {
                            let k = next.index_of(signal);
                            if k < j - 1 {
                                assert(so_far[k] == signal);
                            }
                        }
                    }
                }
                assert(self.ignored@.take(j as int) =~= self.ignored@);
                plan.push(Disposition { signal, ignore });
            }
        }
        Ok(plan)
    }
}

/// The manifest that comes with the descriptors.
#[derive(Debug)]
pub struct Manifest {
    pub version: u32,
    pub run: u64,
    pub destinations: Vec<i32>,
    pub settings: Settings,
}

/// The largest of some numbers, and of two.
pub open spec fn largest(list: Seq<i32>, n: nat) -> int
    decreases n,
{
    if n == 0 || n > list.len() {
        2
    } else {
        let rest = largest(list, (n - 1) as nat);
        if list[n - 1] > rest || n == 1 {
            list[n - 1] as int
        } else {
            rest
        }
    }
}

proof fn lemma_largest_in_range(list: Seq<i32>, n: nat)
    ensures
        i32::MIN <= largest(list, n) <= i32::MAX,
    decreases n,
{
    if n > 0 && n <= list.len() {
        lemma_largest_in_range(list, (n - 1) as nat);
    }
}

fn find_largest(list: &Vec<i32>) -> (r: i32)
    ensures
        r == largest(list@, list@.len()),
{
    if list.len() == 0 {
        return 2;
    }
    let mut best: i32 = list[0];
    let mut i: usize = 1;
    reveal_with_fuel(largest, 2);
    while i < list.len()
        invariant
            1 <= i <= list.len(),
            best == largest(list@, i as nat),
        decreases list.len() - i,
    {
        if list[i] > best {
            best = list[i];
        }
        i += 1;
    }
    best
}

/// The lowest number that lies above every descriptor of the caller's.
pub fn private_floor(destinations: &Vec<i32>) -> (r: Result<i32, Fault>)
    ensures
        ({
            let top = largest(destinations@, destinations@.len());
            if top == i32::MAX {
                r == Err::<i32, Fault>(envelope_fault())
            } else {
                r == Ok::<i32, Fault>((top + 1) as i32)
            }
        }),
{
    let top: i32 = find_largest(destinations);
    if top == i32::MAX {
        return Err(error());
    }
    Ok(top + 1)
}

/// Whether no number is negative or occurs twice.
pub open spec fn are_places(list: Seq<i32>) -> bool {
    &&& forall|i: int| 0 <= i < list.len() ==> #[trigger] list[i] >= 0
    &&& forall|i: int, j: int| 0 <= i < j < list.len() ==> #[trigger] list[i] != #[trigger] list[j]
}

/// Whether a manifest is one of this run that goes with this many descriptors.
pub open spec fn manifest_fits(manifest: Manifest, run: u64, rights: nat) -> bool {
    &&& manifest.version == 1
    &&& manifest.run == run
    &&& manifest.destinations@.len() <= MAX_FDS
    &&& rights == manifest.destinations@.len() + 1
    &&& are_places(manifest.destinations@)
    &&& largest(manifest.destinations@, manifest.destinations@.len()) != i32::MAX
}

/// The floor above which the received descriptors are put: above all that the
/// manifest names, and at least at the given one.
pub open spec fn receive_floor(destinations: Seq<i32>, floor: i32) -> int {
    let above = largest(destinations, destinations.len()) + 1;
    if above > floor {
        above
    } else {
        floor as int
    }
}

/// Decides whether an envelope is taken, and above which number its descriptors
/// are put. The last of them is the working directory.
pub fn receive(manifest: &Manifest, rights: usize, run: u64, floor: i32) -> (r: Result<i32, Fault>)
    ensures
        match r {
            Ok(above) => manifest_fits(*manifest, run, rights as nat) && above == receive_floor(
                manifest.destinations@,
                floor,
            ),
            Err(fault) => !manifest_fits(*manifest, run, rights as nat) && fault
                == envelope_fault(),
        },
{
    let count: usize = manifest.destinations.len();
    if manifest.version != 1 || manifest.run != run || count > MAX_FDS || rights != count + 1 {
        return Err(error());
    }
    let mut i: usize = 0;
    while i < count
        invariant
            i <= count,
            count == manifest.destinations.len(),
            forall|k: int| 0 <= k < i ==> #[trigger] manifest.destinations@[k] >= 0,
            forall|a: int, b: int|
                0 <= a < i && a < b < count ==> #[trigger] manifest.destinations@[a]
                    != #[trigger] manifest.destinations@[b],
        decreases count - i,
    {
        let fd: i32 = manifest.destinations[i];
        if fd < 0 {
            assert(!(manifest.destinations@[i as int] >= 0));
            return Err(error());
        }
        let mut j: usize = i + 1;
        while j < count
            invariant
                i < j <= count,
                count == manifest.destinations.len(),
                fd == manifest.destinations@[i as int],
                forall|b: int| i < b < j ==> #[trigger] manifest.destinations@[b] != fd,
            decreases count - j,
        {
            if manifest.destinations[j] == fd {
                assert(manifest.destinations@[i as int] == manifest.destinations@[j as int]);
                return Err(error());
            }
            j += 1;
        }
        i += 1;
    }
    proof {
        lemma_largest_in_range(manifest.destinations@, manifest.destinations@.len());
    }
    match private_floor(&manifest.destinations) {
        Ok(above) => Ok(
            if above > floor {
                above
            } else {
                floor
            },
        ),
        Err(fault) => Err(fault),
    }
}

/// Whether a size of the descriptor table is one that can be gone through.
pub fn is_table_size(limit: i32) -> (r: Result<(), Fault>)
    ensures
        r == if 3 <= limit <= 1_048_576 {
            Ok::<(), Fault>(())
        } else {
            Err(envelope_fault())
        },
{
    if limit < 3 || limit > 1_048_576 {
        Err(error())
    } else {
        Ok(())
    }
}

/// Decides whether a descriptor is captured: one that survives an exec is, unless
/// there are too many. `closes` says that it is closed on exec, `captured` how many
/// there are already.
pub fn capture_descriptor(closes: bool, captured: usize) -> (r: Result<bool, Fault>)
    ensures
        if closes {
            r == Ok::<bool, Fault>(false)
        } else if captured == MAX_FDS {
            r == Err::<bool, Fault>(envelope_fault())
        } else {
            r == Ok::<bool, Fault>(true)
        },
{
    if closes {
        Ok(false)
    } else if captured == MAX_FDS {
        Err(error())
    } else {
        Ok(true)
    }
}

/// One preparation of a spawned process.
#[derive(Clone, Copy, Debug, PartialEq, Eq, Structural)]
pub enum SpawnAction {
    EnterDirectory,
    CloseDirectory,
    SetMask,
    /// Put the captured descriptor with this index at its destination.
    Place { index: usize, destination: i32 },
    /// Close the captured descriptor with this index.
    CloseSource { index: usize },
    /// Close a standard descriptor that the caller did not have.
    CloseStandard { fd: i32 },
}

/// The preparations that every spawned process gets.
pub open spec fn common_actions() -> Seq<SpawnAction> {
    seq![SpawnAction::EnterDirectory, SpawnAction::CloseDirectory, SpawnAction::SetMask]
}

/// The preparations that put the first descriptors into place.
pub open spec fn placing_actions(destinations: Seq<i32>, n: nat) -> Seq<SpawnAction>
    decreases n,
{
    if n == 0 || n > destinations.len() {
        Seq::empty()
    } else {
        placing_actions(destinations, (n - 1) as nat).push(
            SpawnAction::Place {
                index: (n - 1) as usize,
                destination: destinations[n - 1],
            },
        ).push(SpawnAction::CloseSource { index: (n - 1) as usize })
    }
}

/// The closing of the standard descriptors below `n` that the caller did not have.
pub open spec fn closing_actions(destinations: Seq<i32>, n: nat) -> Seq<SpawnAction>
    decreases n,
{
    if n == 0 {
        Seq::empty()
    } else if destinations.contains((n - 1) as i32) {
        closing_actions(destinations, (n - 1) as nat)
    } else {
        closing_actions(destinations, (n - 1) as nat).push(
            SpawnAction::CloseStandard { fd: (n - 1) as i32 },
        )
    }
}

/// The preparations of a spawned process. The target gets the caller's descriptors
/// where the caller had them, and no standard descriptor that it did not have.
pub fn actions(destinations: &Vec<i32>, target: bool) -> (r: Vec<SpawnAction>)
    ensures
        r@ == common_actions() + if target {
            placing_actions(destinations@, destinations@.len()) + closing_actions(destinations@, 3)
        } else {
            Seq::<SpawnAction>::empty()
        },
{
    let mut plan: Vec<SpawnAction> = Vec::new();
    plan.push(SpawnAction::EnterDirectory);
    plan.push(SpawnAction::CloseDirectory);
    plan.push(SpawnAction::SetMask);
    assert(plan@ =~= common_actions());
    if target {
        let mut i: usize = 0;
        assert(plan@ =~= common_actions() + placing_actions(destinations@, 0));
        while i < destinations.len()
            invariant
                i <= destinations.len(),
                plan@ == common_actions() + placing_actions(destinations@, i as nat),
            decreases destinations.len() - i,
        {
            let ghost before = plan@;
            plan.push(SpawnAction::Place { index: i, destination: destinations[i] });
            plan.push(SpawnAction::CloseSource { index: i });
            i += 1;
            assert(plan@ =~= common_actions() + placing_actions(destinations@, i as nat));
        }
        let ghost placed = plan@;
        let mut fd: i32 = 0;
        assert(plan@ =~= placed + closing_actions(destinations@, 0));
        while fd < 3
            invariant
                0 <= fd <= 3,
                plan@ == placed + closing_actions(destinations@, fd as nat),
            decreases 3 - fd,
        {
            let ghost before = plan@;
            let mut had = false;
            let mut j: usize = 0;
            while j < destinations.len()
                invariant
                    j <= destinations.len(),
                    had ==> destinations@.contains(fd),
                    !had ==> forall|k: int| 0 <= k < j ==> destinations@[k] != fd,
                decreases destinations.len() - j,
            {
                if destinations[j] == fd {
                    assert(destinations@.contains(fd));
                    had = true;
                }
                j += 1;
            }
            if !had {
                plan.push(SpawnAction::CloseStandard { fd });
            }
            fd += 1;
            assert(plan@ =~= placed + closing_actions(destinations@, fd as nat));
        }
        assert(plan@ =~= common_actions() + (placing_actions(destinations@, destinations@.len())
            + closing_actions(destinations@, 3)));
    } else {
        assert(plan@ =~= common_actions() + Seq::<SpawnAction>::empty());
    }
    plan
}

/// Whether a fixture may build a packet: it stays just above the bounds that are
/// tried out.
pub fn receive_manifest_fixture(payload: usize, rights: usize) -> (r: Result<(), Fault>)
    ensures
        r == if payload > MAX_MANIFEST + 1 || rights > MAX_FDS + 2 {
            Err::<(), Fault>(envelope_fault())
        } else {
            Ok(())
        },
{
    if payload > MAX_MANIFEST + 1 || rights > MAX_FDS + 2 {
        Err(error())
    } else {
        Ok(())
    }
}

/// A manifest that is sent must fit.
pub fn manifest_length(length: usize) -> (r: Result<(), Fault>)
    ensures
        r == if length > MAX_MANIFEST {
            Err::<(), Fault>(envelope_fault())
        } else {
            Ok(())
        },
{
    if length > MAX_MANIFEST {
        Err(error())
    } else {
        Ok(())
    }
}

/// What became of handing a request to a worker, or of waiting for its result.
#[derive(Clone, Copy, Debug, PartialEq, Eq, Structural)]
pub enum WorkerEvent {
    Accepted,
    Busy,
    Gone,
}

/// Decides how the capture of the caller's state goes on after it was offered to
/// the worker: true once the worker has it.
pub fn capture_offered(event: WorkerEvent, expired: bool) -> (r: Result<bool, Fault>)
    ensures
        match event {
            WorkerEvent::Accepted => r == Ok::<bool, Fault>(true),
            WorkerEvent::Gone => r == Err::<bool, Fault>(
                Fault::found(FaultKind::Other, "caller capture owner unavailable"),
            ),
            WorkerEvent::Busy => r == if expired {
                Err::<bool, Fault>(
                    Fault::found(FaultKind::TimedOut, "caller capture slot remains occupied"),
                )
            } else {
                Ok(false)
            },
        },
{
    match event {
        WorkerEvent::Accepted => Ok(true),
        WorkerEvent::Gone => Err(
            Fault::new(FaultKind::Other, "caller capture owner unavailable"),
        ),
        WorkerEvent::Busy => if expired {
            Err(Fault::new(FaultKind::TimedOut, "caller capture slot remains occupied"))
        } else {
            Ok(false)
        },
    }
}

/// Decides how the wait for the worker's result goes on: true once the result is
/// there. A deadline that has passed counts before a result that came.
pub fn capture_waited(event: WorkerEvent, expired: bool) -> (r: Result<bool, Fault>)
    ensures
        r == if expired {
            Err::<bool, Fault>(
                Fault::found(FaultKind::TimedOut, "caller capture remains owned in flight"),
            )
        } else {
            match event {
                WorkerEvent::Accepted => Ok(true),
                WorkerEvent::Busy => Ok(false),
                WorkerEvent::Gone => Err(
                    Fault::found(FaultKind::Other, "caller capture owner unavailable"),
                ),
            }
        },
{
    if expired {
        return Err(Fault::new(FaultKind::TimedOut, "caller capture remains owned in flight"));
    }
    match event {
        WorkerEvent::Accepted => Ok(true),
        WorkerEvent::Busy => Ok(false),
        WorkerEvent::Gone => Err(Fault::new(FaultKind::Other, "caller capture owner unavailable")),
    }
}

/// Every descriptor that is taken over is one, and none is taken over twice.
pub proof fn adopted_once(bytes: Seq<u8>, at: int, count: nat, so_far: RightsView)
    requires
        forall|i: int| 0 <= i < so_far.adopted.len() ==> #[trigger] so_far.adopted[i] >= 0,
        so_far.adopted.no_duplicates(),
    ensures
        ({
            let found = adopt(bytes, at, count, so_far).adopted;
            found.no_duplicates() && forall|i: int| 0 <= i < found.len() ==> #[trigger] found[i] >= 0
        }),
    decreases count,
{
    if count > 0 {
        adopted_once(bytes, at, (count - 1) as nat, so_far);
    }
}

/// A message that was cut short, or that claims more than its buffer holds, is
/// refused, whatever it carries.
pub proof fn cut_messages_are_refused(bytes: Seq<u8>, extent: int, offset: int, so_far: RightsView)
    requires
        so_far.invalid,
    ensures
        walk(bytes, extent, offset, so_far).invalid,
    decreases extent - offset,
{
    if offset < extent && extent - offset >= 12 {
        let length = from_le32(
            bytes[offset],
            bytes[offset + 1],
            bytes[offset + 2],
            bytes[offset + 3],
        ) as int;
        if length >= 12 {
            let available = extent - offset;
            let copied = if length < available {
                length - 12
            } else {
                available - 12
            };
            lemma_adopt_keeps_invalid(
                bytes,
                offset + 12,
                (copied / 4) as nat,
                RightsView { invalid: true, ..so_far },
            );
            let next = message_rights(bytes, extent, offset, so_far);
            assert(next.invalid);
            if !(length > available || 12 + padded(length - 12) > available) {
                cut_messages_are_refused(
                    bytes,
                    extent,
                    offset + 12 + padded(length - 12),
                    next,
                );
            }
        }
    }
}

proof fn lemma_adopt_keeps_invalid(bytes: Seq<u8>, at: int, count: nat, so_far: RightsView)
    requires
        so_far.invalid,
    ensures
        adopt(bytes, at, count, so_far).invalid,
    decreases count,
{
    if count > 0 {
        lemma_adopt_keeps_invalid(bytes, at, (count - 1) as nat, so_far);
    }
}

/// Decides whether a worker still takes up a capture when it gets to it.
pub fn capture_admitted(expired: bool) -> (r: Result<(), Fault>)
    ensures
        r == if expired {
            Err::<(), Fault>(Fault::found(FaultKind::TimedOut, "caller capture admission expired"))
        } else {
            Ok(())
        },
{
    if expired {
        Err(Fault::new(FaultKind::TimedOut, "caller capture admission expired"))
    } else {
        Ok(())
    }
}

} // verus!
