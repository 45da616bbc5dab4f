//! Reading what Windows says of a token: every place that is read lies within the
//! answer.

use vstd::prelude::*;

use crate::bytes::{from_le32, get_le32};

verus! {

/// Where the entries of a list of groups begin.
pub const GROUPS_OFFSET: usize = 8;

/// How long an entry is: an address, the attributes, and room to the next address.
pub const ENTRY_LENGTH: usize = 16;

/// Where the parts of an identity begin.
pub const PARTS_OFFSET: usize = 8;

/// A group counts.
pub const GROUP_ENABLED: u32 = 4;

/// A group counts only against its holder.
pub const GROUP_DENY_ONLY: u32 = 16;

/// Where the entries of a list of groups lie.
pub open spec fn entries_range(byte_length: int, entry_count: int) -> Result<(int, int), &'static str> {
    if byte_length < GROUPS_OFFSET {
        Err("token group response is truncated")
    } else if entry_count * ENTRY_LENGTH > usize::MAX {
        Err("token group entry count overflows response bounds")
    } else if GROUPS_OFFSET + entry_count * ENTRY_LENGTH > usize::MAX {
        Err("token group response length overflows")
    } else if GROUPS_OFFSET + entry_count * ENTRY_LENGTH > byte_length {
        Err("token group response is truncated")
    } else {
        Ok((GROUPS_OFFSET as int, GROUPS_OFFSET + entry_count * ENTRY_LENGTH))
    }
}

/// Where the entries of a list of groups lie.
pub fn checked_token_group_entries_range(byte_length: usize, entry_count: usize) -> (r: Result<
    (usize, usize),
    &'static str,
>)
    ensures
        match entries_range(byte_length as int, entry_count as int) {
            Ok(range) => r == Ok::<(usize, usize), &'static str>(
                (range.0 as usize, range.1 as usize),
            ),
            Err(text) => r == Err::<(usize, usize), &'static str>(text),
        },
{
    if byte_length < GROUPS_OFFSET {
        return Err("token group response is truncated");
    }
    let length: usize = match entry_count.checked_mul(ENTRY_LENGTH) {
        Some(length) => length,
        None => {
            return Err("token group entry count overflows response bounds");
        },
    };
    let end: usize = match GROUPS_OFFSET.checked_add(length) {
        Some(end) => end,
        None => {
            return Err("token group response length overflows");
        },
    };
    if end > byte_length {
        return Err("token group response is truncated");
    }
    Ok((GROUPS_OFFSET, end))
}

/// An entry of a list of groups: where its identity is said to be, and its attributes.
#[derive(Clone, Copy, Debug, PartialEq, Eq, Structural)]
pub struct GroupEntry {
    pub address: u64,
    pub attributes: u32,
}

/// Thirty-two bits at a place.
pub open spec fn word_at(storage: Seq<u8>, at: int) -> nat {
    from_le32(storage[at], storage[at + 1], storage[at + 2], storage[at + 3])
}

/// The entry at a place.
pub open spec fn entry_at(storage: Seq<u8>, at: int) -> GroupEntry {
    GroupEntry {
        address: (word_at(storage, at) + 4294967296 * word_at(storage, at + 4)) as u64,
        attributes: word_at(storage, at + 8) as u32,
    }
}

fn read_entry(storage: &[u8], at: usize) -> (r: GroupEntry)
    requires
        at + ENTRY_LENGTH <= storage.len(),
    ensures
        r == entry_at(storage@, at as int),
{
    let low: u64 = get_le32(storage, at) as u64;
    let high: u64 = get_le32(storage, at + 4) as u64;
    GroupEntry { address: low + 4294967296 * high, attributes: get_le32(storage, at + 8) }
}

/// What is wrong with a list of groups, if anything; `base` is where the answer lies.
pub open spec fn groups_fault(storage: Seq<u8>, byte_length: int, base: u64) -> Option<&'static str> {
    if byte_length > storage.len() {
        Some("token information response exceeds its allocation")
    } else if byte_length < GROUPS_OFFSET {
        Some("token group response is truncated")
    } else {
        match entries_range(byte_length, word_at(storage, 0) as int) {
            Err(text) => Some(text),
            Ok(_) => if base % 8 != 0 {
                Some("token group response entries are misaligned")
            } else {
                None
            },
        }
    }
}

/// The entries of a list of groups.
pub fn token_group_entries(storage: &[u8], byte_length: usize, base: u64) -> (r: Result<
    Vec<GroupEntry>,
    &'static str,
>)
    ensures
        match groups_fault(storage@, byte_length as int, base) {
            Some(text) => r == Err::<Vec<GroupEntry>, &'static str>(text),
            None => r matches Ok(entries) && entries@.len() == word_at(storage@, 0) && (forall|
                i: int,
            |
                0 <= i < entries@.len() ==> #[trigger] entries@[i] == entry_at(
                    storage@,
                    GROUPS_OFFSET + i * ENTRY_LENGTH,
                )),
        },
{
    if byte_length > storage.len() {
        return Err("token information response exceeds its allocation");
    }
    if byte_length < GROUPS_OFFSET {
        return Err("token group response is truncated");
    }
    let count: usize = get_le32(storage, 0) as usize;
    match checked_token_group_entries_range(byte_length, count) {
        Ok(_) => {},
        Err(text) => {
            return Err(text);
        },
    }
    if base % 8 != 0 {
        return Err("token group response entries are misaligned");
    }
    let mut entries: Vec<GroupEntry> = Vec::new();
    let mut i: usize = 0;
    let mut at: usize = GROUPS_OFFSET;
    while i < count
        invariant
            i <= count,
            entries@.len() == i,
            at == GROUPS_OFFSET + i * ENTRY_LENGTH,
            GROUPS_OFFSET + count * ENTRY_LENGTH <= byte_length <= storage.len(),
            forall|k: int|
                0 <= k < entries@.len() ==> #[trigger] entries@[k] == entry_at(
                    storage@,
                    GROUPS_OFFSET + k * ENTRY_LENGTH,
                ),
        decreases count - i,
    {
        entries.push(read_entry(storage, at));
        i += 1;
        at = at + ENTRY_LENGTH;
    }
    Ok(entries)
}

/// Where an identity lies that is said to be at an address.
pub open spec fn sid_range(storage: Seq<u8>, byte_length: int, base: u64, sid: u64) -> Result<
    (int, int),
    &'static str,
> {
    let offset = sid - base;
    if byte_length > storage.len() {
        Err("token information response exceeds its allocation")
    } else if base + byte_length > u64::MAX {
        Err("token information response address overflows")
    } else if sid < base || sid >= base + byte_length {
        Err("token SID pointer is outside its response")
    } else if offset + PARTS_OFFSET > byte_length {
        Err("token SID response is truncated")
    } else {
        let end = offset + PARTS_OFFSET + storage[offset + 1] * 4;
        if end > byte_length {
            Err("token SID response is truncated")
        } else {
            Ok((offset, end))
        }
    }
}

/// Where an identity lies that is said to be at an address: all of it is within the
/// answer.
pub fn checked_token_sid_range(storage: &[u8], byte_length: usize, base: u64, sid: u64) -> (r:
    Result<(usize, usize), &'static str>)
    requires
        storage.len() <= isize::MAX,
    ensures
        match sid_range(storage@, byte_length as int, base, sid) {
            Ok(range) => r == Ok::<(usize, usize), &'static str>(
                (range.0 as usize, range.1 as usize),
            ) && 0 <= range.0 < range.1 <= byte_length <= storage@.len(),
            Err(text) => r == Err::<(usize, usize), &'static str>(text),
        },
{
    if byte_length > storage.len() {
        return Err("token information response exceeds its allocation");
    }
    let end: u64 = match base.checked_add(byte_length as u64) {
        Some(end) => end,
        None => {
            return Err("token information response address overflows");
        },
    };
    if sid < base || sid >= end {
        return Err("token SID pointer is outside its response");
    }
    let offset: usize = (sid - base) as usize;
    let prefix: usize = offset + PARTS_OFFSET;
    if prefix > byte_length {
        return Err("token SID response is truncated");
    }
    let parts: usize = storage[offset + 1] as usize;
    let sid_end: usize = prefix + parts * 4;
    if sid_end > byte_length {
        return Err("token SID response is truncated");
    }
    Ok((offset, sid_end))
}

/// What Windows says of an identity that lies within an answer.
#[derive(Clone, Copy, Debug, PartialEq, Eq, Structural)]
pub struct SidReading {
    pub valid: bool,
    pub length: u32,
    /// It is the identity that is looked for.
    pub expected: bool,
}

/// Where an identity lies that Windows finds valid, and as long as it says.
pub open spec fn valid_sid(
    storage: Seq<u8>,
    byte_length: int,
    base: u64,
    sid: u64,
    reading: SidReading,
) -> Result<(int, int), &'static str> {
    match sid_range(storage, byte_length, base, sid) {
        Err(text) => Err(text),
        Ok(range) => if !reading.valid {
            Err("token SID is invalid")
        } else if reading.length != range.1 - range.0 {
            Err("token SID length differs from its bounded response")
        } else {
            Ok(range)
        },
    }
}

/// Where an identity lies that Windows finds valid.
pub fn validated_token_sid_range(
    storage: &[u8],
    byte_length: usize,
    base: u64,
    sid: u64,
    reading: SidReading,
) -> (r: Result<(usize, usize), &'static str>)
    requires
        storage.len() <= isize::MAX,
    ensures
        match valid_sid(storage@, byte_length as int, base, sid, reading) {
            Ok(range) => r == Ok::<(usize, usize), &'static str>(
                (range.0 as usize, range.1 as usize),
            ) && 0 <= range.0 < range.1 <= byte_length <= storage@.len(),
            Err(text) => r == Err::<(usize, usize), &'static str>(text),
        },
{
    let (start, end) = match checked_token_sid_range(storage, byte_length, base, sid) {
        Ok(range) => range,
        Err(text) => {
            return Err(text);
        },
    };
    if !reading.valid {
        return Err("token SID is invalid");
    }
    if reading.length as usize != end - start {
        return Err("token SID length differs from its bounded response");
    }
    Ok((start, end))
}

/// Where the identity of a token's user lies.
pub open spec fn user_sid(storage: Seq<u8>, byte_length: int, base: u64, reading: SidReading) -> Result<
    (int, int),
    &'static str,
> {
    if byte_length > storage.len() {
        Err("token information response exceeds its allocation")
    } else if ENTRY_LENGTH > byte_length {
        Err("token user response is truncated")
    } else {
        valid_sid(storage, byte_length, base, entry_at(storage, 0).address, reading)
    }
}

/// Where the identity of a token's user lies.
pub fn token_user_sid(storage: &[u8], byte_length: usize, base: u64, reading: SidReading) -> (r:
    Result<(usize, usize), &'static str>)
    requires
        storage.len() <= isize::MAX,
    ensures
        match user_sid(storage@, byte_length as int, base, reading) {
            Ok(range) => r == Ok::<(usize, usize), &'static str>(
                (range.0 as usize, range.1 as usize),
            ) && 0 <= range.0 < range.1 <= byte_length <= storage@.len(),
            Err(text) => r == Err::<(usize, usize), &'static str>(text),
        },
{
    if byte_length > storage.len() {
        return Err("token information response exceeds its allocation");
    }
    if ENTRY_LENGTH > byte_length {
        return Err("token user response is truncated");
    }
    let user = read_entry(storage, 0);
    validated_token_sid_range(storage, byte_length, base, user.address, reading)
}

/// Decides whether a token's user is the one that is looked for.
pub fn token_user_storage_matches(
    storage: &[u8],
    byte_length: usize,
    base: u64,
    user: SidReading,
    expected: Result<(), &'static str>,
) -> (r: Result<bool, &'static str>)
    requires
        storage.len() <= isize::MAX,
    ensures
        r == match user_sid(storage@, byte_length as int, base, user) {
            Err(text) => Err::<bool, &'static str>(text),
            Ok(_) => match expected {
                Err(text) => Err(text),
                Ok(_) => Ok(user.expected),
            },
        },
{
    match token_user_sid(storage, byte_length, base, user) {
        Err(text) => {
            return Err(text);
        },
        Ok(_) => {},
    }
    match expected {
        Err(text) => Err(text),
        Ok(_) => Ok(user.expected),
    }
}

/// Whether a group is the one that is looked for, and counts for its holder.
pub open spec fn group_counts(entry: GroupEntry, reading: SidReading) -> bool {
    reading.expected && entry.attributes & GROUP_ENABLED != 0 && entry.attributes & GROUP_DENY_ONLY
        == 0
}

/// Whether the groups from place `i` on hold the one that is looked for, or what is
/// wrong with the first that is wrong before it is found.
pub open spec fn groups_hold(
    storage: Seq<u8>,
    byte_length: int,
    base: u64,
    count: int,
    readings: Seq<SidReading>,
    i: int,
) -> Result<bool, &'static str>
    decreases count - i,
{
    if i < 0 || i >= count {
        Ok(false)
    } else {
        let entry = entry_at(storage, GROUPS_OFFSET + i * ENTRY_LENGTH);
        match valid_sid(storage, byte_length, base, entry.address, readings[i]) {
            Err(text) => Err(text),
            Ok(_) => if group_counts(entry, readings[i]) {
                Ok(true)
            } else {
                groups_hold(storage, byte_length, base, count, readings, i + 1)
            },
        }
    }
}

/// Decides whether a token's groups hold the one that is looked for; `readings` is what
/// Windows says of each of them, in order.
pub fn token_group_storage_contains(
    storage: &[u8],
    byte_length: usize,
    base: u64,
    readings: &Vec<SidReading>,
) -> (r: Result<bool, &'static str>)
    requires
        storage.len() <= isize::MAX,
        groups_fault(storage@, byte_length as int, base) is None ==> readings@.len() == word_at(
            storage@,
            0,
        ),
    ensures
        r == match groups_fault(storage@, byte_length as int, base) {
            Some(text) => Err::<bool, &'static str>(text),
            None => groups_hold(
                storage@,
                byte_length as int,
                base,
                word_at(storage@, 0) as int,
                readings@,
                0,
            ),
        },
{
    let entries = match token_group_entries(storage, byte_length, base) {
        Ok(entries) => entries,
        Err(text) => {
            return Err(text);
        },
    };
    let mut i: usize = 0;
    while i < entries.len()
        invariant
            i <= entries.len(),
            storage.len() <= isize::MAX,
            entries@.len() == readings@.len(),
            groups_fault(storage@, byte_length as int, base) is None,
            entries@.len() == word_at(storage@, 0),
            forall|k: int|
                0 <= k < entries@.len() ==> #[trigger] entries@[k] == entry_at(
                    storage@,
                    GROUPS_OFFSET + k * ENTRY_LENGTH,
                ),
            groups_hold(
                storage@,
                byte_length as int,
                base,
                entries@.len() as int,
                readings@,
                i as int,
            ) == groups_hold(
                storage@,
                byte_length as int,
                base,
                entries@.len() as int,
                readings@,
                0,
            ),
        decreases entries.len() - i,
    {
        let entry = entries[i];
        let reading = readings[i];
        match validated_token_sid_range(storage, byte_length, base, entry.address, reading) {
            Err(text) => {
                return Err(text);
            },
            Ok(_) => {},
        }
        if reading.expected && entry.attributes & GROUP_ENABLED != 0 && entry.attributes
            & GROUP_DENY_ONLY == 0 {
            return Ok(true);
        }
        i += 1;
    }
    Ok(false)
}

/// Whatever an answer says, an identity that is taken from it lies within it.
pub proof fn identities_lie_within(
    storage: Seq<u8>,
    byte_length: int,
    base: u64,
    sid: u64,
    reading: SidReading,
)
    requires
        0 <= byte_length,
    ensures
        valid_sid(storage, byte_length, base, sid, reading) matches Ok(range) ==> 0 <= range.0
            < range.1 <= byte_length <= storage.len() && range.1 - range.0 == reading.length,
{
}

} // verus!
