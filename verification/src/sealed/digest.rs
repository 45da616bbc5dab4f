//! SHA-256 digests and their hexadecimal form.

use sha2::digest::OutputSizeUser;
use sha2::{Digest, Sha256};
use vstd::prelude::*;

use crate::text::{hex, hex_text};

verus! {

/// The SHA-256 digest of some bytes.
pub uninterp spec fn sha256_of(bytes: Seq<u8>) -> Seq<u8>;

/// Computes a digest: `sha2::Sha256::digest`. The digest depends on the bytes
/// alone and is 32 bytes long.
/// That different bytes have different digests is not claimed.
#[verifier::external_body]
pub(crate) fn sha256(bytes: &[u8]) -> (r: Vec<u8>)
    ensures
        r@ == sha256_of(bytes@),
        r@.len() == 32,
{
    Sha256::digest(bytes).to_vec()
}

/// The length of a digest: `sha2::digest::OutputSizeUser::output_size` of
/// `sha2::Sha256`, which is 32.
#[verifier::external_body]
fn sha256_length() -> (r: usize)
    ensures
        r == 32,
{
    <Sha256 as OutputSizeUser>::output_size()
}

/// Computes a digest in lower-case hexadecimal.
pub fn digest_bytes(bytes: &[u8]) -> (r: String)
    ensures
        r@ == hex(sha256_of(bytes@)),
{
    let digest = sha256(bytes);
    hex_text(digest.as_slice())
}

/// Whether a character is a lower-case hexadecimal digit.
pub open spec fn is_hex(c: char) -> bool {
    '0' <= c <= '9' || 'a' <= c <= 'f'
}

/// Whether a text has the form of a digest.
pub open spec fn is_digest(s: Seq<char>) -> bool {
    s.len() == 64 && forall|i: int| 0 <= i < s.len() ==> is_hex(#[trigger] s[i])
}

/// Whether a text has the form of a digest: as many lower-case hexadecimal digits
/// as a digest takes.
pub fn valid_sha256(value: &[char]) -> (r: bool)
    ensures
        r == is_digest(value@),
{
    if value.len() != sha256_length() * 2 {
        return false;
    }
    let mut i: usize = 0;
    while i < value.len()
        invariant
            i <= value.len(),
            forall|k: int| 0 <= k < i ==> is_hex(#[trigger] value@[k]),
        decreases value.len() - i,
    {
        let c = value[i];
        if !(('0' <= c && c <= '9') || ('a' <= c && c <= 'f')) {
            assert(!is_hex(value@[i as int]));
            return false;
        }
        i += 1;
    }
    true
}

/// Every digest in hexadecimal has the form of a digest.
pub proof fn hex_of_digest_is_digest(bytes: Seq<u8>)
    requires
        bytes.len() == 32,
    ensures
        is_digest(hex(bytes)),
{
    assert forall|i: int| 0 <= i < 64 implies is_hex(#[trigger] hex(bytes)[i]) by {
        let b = bytes[i / 2];
        assert(b / 16 < 16 && b % 16 < 16);
    }
}

} // verus!
