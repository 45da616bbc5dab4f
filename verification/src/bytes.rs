//! Integers as bytes, and the joining of byte strings.

use vstd::prelude::*;

verus! {

/// Sixteen bits, the most significant byte first.
pub open spec fn be16(n: u16) -> Seq<u8> {
    seq![(n / 256) as u8, (n % 256) as u8]
}

/// Thirty-two bits, the most significant byte first.
pub open spec fn be32(n: u32) -> Seq<u8> {
    be16((n / 65536) as u16) + be16((n % 65536) as u16)
}

/// Sixty-four bits, the most significant byte first.
pub open spec fn be64(n: u64) -> Seq<u8> {
    be32((n / 4294967296) as u32) + be32((n % 4294967296) as u32)
}

/// The number that two bytes hold, the most significant one first.
pub open spec fn from_be16(s: Seq<u8>) -> nat {
    s[0] as nat * 256 + s[1] as nat
}

/// The number that four bytes hold, the most significant one first.
pub open spec fn from_be32(s: Seq<u8>) -> nat {
    ((s[0] as nat * 256 + s[1] as nat) * 256 + s[2] as nat) * 256 + s[3] as nat
}

/// The number that two bytes hold, the least significant one first.
pub open spec fn from_le16(a: u8, b: u8) -> nat {
    a as nat + 256 * b as nat
}

/// The number that four bytes hold, the least significant one first.
pub open spec fn from_le32(a: u8, b: u8, c: u8, d: u8) -> nat {
    a as nat + 256 * b as nat + 65536 * c as nat + 16777216 * d as nat
}

/// Thirty-two bits, the least significant byte first.
pub open spec fn le32(n: u32) -> Seq<u8> {
    seq![
        (n % 256) as u8,
        (n / 256 % 256) as u8,
        (n / 65536 % 256) as u8,
        (n / 16777216) as u8,
    ]
}

/// Sixteen bits, the least significant byte first.
pub open spec fn le16(n: u16) -> Seq<u8> {
    seq![(n % 256) as u8, (n / 256) as u8]
}

/// Sixty-four bits, the least significant byte first.
pub open spec fn le64(n: u64) -> Seq<u8> {
    le32((n % 4294967296) as u32) + le32((n / 4294967296) as u32)
}

/// What sixteen bits were written as is what they are read as.
pub proof fn be16_round(n: u16)
    ensures
        be16(n).len() == 2,
        from_be16(be16(n)) == n,
{
}

/// What thirty-two bits were written as is what they are read as.
pub proof fn be32_round(n: u32)
    ensures
        be32(n).len() == 4,
        from_be32(be32(n)) == n,
{
    let h = (n / 65536) as u16;
    let l = (n % 65536) as u16;
    assert(be32(n)[0] == (h / 256) as u8);
    assert(be32(n)[1] == (h % 256) as u8);
    assert(be32(n)[2] == (l / 256) as u8);
    assert(be32(n)[3] == (l % 256) as u8);
}

/// What thirty-two bits were written as is what they are read as.
pub proof fn le32_round(n: u32)
    ensures
        le32(n).len() == 4,
        from_le32(le32(n)[0], le32(n)[1], le32(n)[2], le32(n)[3]) == n,
{
}

/// What sixteen bits were written as is what they are read as.
pub proof fn le16_round(n: u16)
    ensures
        le16(n).len() == 2,
        from_le16(le16(n)[0], le16(n)[1]) == n,
{
}

/// Puts bytes at the end.
pub fn put(out: &mut Vec<u8>, bytes: &[u8])
    ensures
        final(out)@ == old(out)@ + bytes@,
{
    let ghost before = out@;
    let mut i: usize = 0;
    while i < bytes.len()
        invariant
            i <= bytes.len(),
            out@ == before + bytes@.take(i as int),
        decreases bytes.len() - i,
    {
        out.push(bytes[i]);
        i += 1;
        assert(out@ =~= before + bytes@.take(i as int));
    }
    assert(bytes@.take(i as int) =~= bytes@);
}

/// Puts sixteen bits at the end, the most significant byte first.
pub fn put_be16(out: &mut Vec<u8>, n: u16)
    ensures
        final(out)@ == old(out)@ + be16(n),
{
    let ghost before = out@;
    out.push((n / 256) as u8);
    out.push((n % 256) as u8);
    assert(out@ =~= before + be16(n));
}

/// Puts thirty-two bits at the end, the most significant byte first.
pub fn put_be32(out: &mut Vec<u8>, n: u32)
    ensures
        final(out)@ == old(out)@ + be32(n),
{
    let ghost before = out@;
    put_be16(out, (n / 65536) as u16);
    put_be16(out, (n % 65536) as u16);
    assert(out@ =~= before + be32(n));
}

/// Puts sixty-four bits at the end, the most significant byte first.
pub fn put_be64(out: &mut Vec<u8>, n: u64)
    ensures
        final(out)@ == old(out)@ + be64(n),
{
    let ghost before = out@;
    put_be32(out, (n / 4294967296) as u32);
    put_be32(out, (n % 4294967296) as u32);
    assert(out@ =~= before + be64(n));
}

/// Puts sixteen bits at the end, the least significant byte first.
pub fn put_le16(out: &mut Vec<u8>, n: u16)
    ensures
        final(out)@ == old(out)@ + le16(n),
{
    let ghost before = out@;
    out.push((n % 256) as u8);
    out.push((n / 256) as u8);
    assert(out@ =~= before + le16(n));
}

/// Puts thirty-two bits at the end, the least significant byte first.
pub fn put_le32(out: &mut Vec<u8>, n: u32)
    ensures
        final(out)@ == old(out)@ + le32(n),
{
    let ghost before = out@;
    out.push((n % 256) as u8);
    out.push((n / 256 % 256) as u8);
    out.push((n / 65536 % 256) as u8);
    out.push((n / 16777216) as u8);
    assert(out@ =~= before + le32(n));
}

/// Puts sixty-four bits at the end, the least significant byte first.
pub fn put_le64(out: &mut Vec<u8>, n: u64)
    ensures
        final(out)@ == old(out)@ + le64(n),
{
    let ghost before = out@;
    put_le32(out, (n % 4294967296) as u32);
    put_le32(out, (n / 4294967296) as u32);
    assert(out@ =~= before + le64(n));
}

/// Reads thirty-two bits, the least significant byte first.
pub fn get_le32(bytes: &[u8], at: usize) -> (r: u32)
    requires
        at + 4 <= bytes.len(),
    ensures
        r == from_le32(bytes@[at as int], bytes@[at + 1], bytes@[at + 2], bytes@[at + 3]),
{
    bytes[at] as u32 + 256 * bytes[at + 1] as u32 + 65536 * bytes[at + 2] as u32 + 16777216
        * bytes[at + 3] as u32
}

/// Reads sixteen bits, the least significant byte first.
pub fn get_le16(bytes: &[u8], at: usize) -> (r: u16)
    requires
        at + 2 <= bytes.len(),
    ensures
        r == from_le16(bytes@[at as int], bytes@[at + 1]),
{
    bytes[at] as u16 + 256 * bytes[at + 1] as u16
}

/// A copy of part of some bytes.
pub fn slice_of(bytes: &[u8], from: usize, to: usize) -> (r: Vec<u8>)
    requires
        from <= to <= bytes.len(),
    ensures
        r@ == bytes@.subrange(from as int, to as int),
{
    let mut out: Vec<u8> = Vec::new();
    let mut i: usize = from;
    while i < to
        invariant
            from <= i <= to,
            to <= bytes.len(),
            out@ == bytes@.subrange(from as int, i as int),
        decreases to - i,
    {
        out.push(bytes[i]);
        i += 1;
        assert(out@ =~= bytes@.subrange(from as int, i as int));
    }
    out
}

/// Whether two byte strings are the same.
pub fn same_bytes(a: &[u8], b: &[u8]) -> (r: bool)
    ensures
        r == (a@ == b@),
{
    if a.len() != b.len() {
        return false;
    }
    let mut i: usize = 0;
    while i < a.len()
        invariant
            i <= a.len(),
            a.len() == b.len(),
            forall|k: int| 0 <= k < i ==> a@[k] == b@[k],
        decreases a.len() - i,
    {
        if a[i] != b[i] {
            return false;
        }
        i += 1;
    }
    assert(a@ =~= b@);
    true
}

} // verus!
