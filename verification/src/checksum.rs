//! The derived checksum fragment appended to every payload.

use vstd::prelude::*;
use crate::text::{all_ascii, B_0, B_9, B_LOWER_A, B_LOWER_F};

verus! {

/// The 32 lowercase hex digits of the MD5 digest of a byte sequence.
pub uninterp spec fn md5_hex_of(input: Seq<u8>) -> Seq<u8>;

/// True for the ASCII codes of `0`-`9` and `a`-`f`.
pub open spec fn is_lower_hex_byte(b: u8) -> bool {
    (B_0 <= b && b <= B_9) || (B_LOWER_A <= b && b <= B_LOWER_F)
}

/// Lowercase hex digits are ASCII.
pub proof fn lemma_lower_hex_ascii(s: Seq<u8>)
    requires
        forall|i: int| 0 <= i < s.len() ==> is_lower_hex_byte(#[trigger] s[i]),
    ensures
        all_ascii(s),
{
}

/// Relies on `md5::compute` and the `LowerHex` rendering of its digest: a
/// 16-byte digest, a function of the input alone, written as 32 lowercase
/// hex digits.
#[verifier::external_body]
pub fn md5_hex(input: &[u8]) -> (r: Vec<u8>)
    ensures
        r@ == md5_hex_of(input@),
        r@.len() == 32,
        forall|i: int| 0 <= i < r@.len() ==> is_lower_hex_byte(#[trigger] r@[i]),
{
    format!("{:x}", md5::compute(input)).into_bytes()
}

} // verus!
