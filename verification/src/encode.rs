//! Percent-encoding with the provider's permissive character-safety rule.
//!
//! ASCII alphanumerics and the extra-safe set `! # $ % & ' ( ) * + , / : ; =
//! ? @ [ ] ~` pass through unchanged; every other byte of the UTF-8 input is
//! written as `%` followed by two uppercase hex digits.

use vstd::prelude::*;
use vstd::utf8::*;
use vstd::string::StrSliceExecFns;
use crate::text::{all_ascii, lemma_ascii_valid_utf8, utf8_string};
use crate::text::{B_0, B_9, B_UPPER_A, B_UPPER_Z, B_LOWER_A, B_LOWER_Z, B_BANG, B_HASH,
    B_DOLLAR, B_PERCENT, B_AMP, B_QUOTE, B_LPAREN, B_RPAREN, B_STAR, B_PLUS, B_COMMA,
    B_SLASH, B_COLON, B_SEMI, B_EQ, B_QUESTION, B_AT, B_LBRACKET, B_RBRACKET, B_TILDE};

verus! {

/// Bytes that are never percent-encoded: ASCII alphanumerics plus the
/// provider's extra-safe set.
pub open spec fn is_safe_byte(b: u8) -> bool {
    (B_0 <= b && b <= B_9) || (B_UPPER_A <= b && b <= B_UPPER_Z)
        || (B_LOWER_A <= b && b <= B_LOWER_Z)
        || b == B_BANG || b == B_HASH || b == B_DOLLAR || b == B_PERCENT || b == B_AMP
        || b == B_QUOTE || b == B_LPAREN || b == B_RPAREN || b == B_STAR || b == B_PLUS
        || b == B_COMMA || b == B_SLASH || b == B_COLON || b == B_SEMI || b == B_EQ
        || b == B_QUESTION || b == B_AT || b == B_LBRACKET || b == B_RBRACKET || b == B_TILDE
}

/// The uppercase hex digit for a value below 16.
pub open spec fn upper_hex_digit(n: u8) -> u8
    recommends
        n < 16,
{
    if n < 10 {
        (B_0 + n) as u8
    } else {
        (B_UPPER_A + (n - 10)) as u8
    }
}

/// How a single byte is written: itself when safe, `%XX` otherwise.
pub open spec fn encoded_byte(b: u8) -> Seq<u8> {
    if is_safe_byte(b) {
        seq![b]
    } else {
        seq![B_PERCENT, upper_hex_digit(b / 16), upper_hex_digit(b % 16)]
    }
}

/// The percent-encoding of a byte sequence.
pub open spec fn percent_encoded(s: Seq<u8>) -> Seq<u8>
    decreases s.len(),
{
    if s.len() == 0 {
        Seq::<u8>::empty()
    } else {
        percent_encoded(s.drop_last()) + encoded_byte(s.last())
    }
}

/// Every byte of a percent-encoded sequence is ASCII.
pub proof fn lemma_percent_encoded_ascii(s: Seq<u8>)
    ensures
        all_ascii(percent_encoded(s)),
    decreases s.len(),
{
    if s.len() != 0 {
        lemma_percent_encoded_ascii(s.drop_last());
    }
}

fn is_safe_byte_exec(b: u8) -> (r: bool)
    ensures
        r == is_safe_byte(b),
{
    (B_0 <= b && b <= B_9) || (B_UPPER_A <= b && b <= B_UPPER_Z)
        || (B_LOWER_A <= b && b <= B_LOWER_Z)
        || b == B_BANG || b == B_HASH || b == B_DOLLAR || b == B_PERCENT || b == B_AMP
        || b == B_QUOTE || b == B_LPAREN || b == B_RPAREN || b == B_STAR || b == B_PLUS
        || b == B_COMMA || b == B_SLASH || b == B_COLON || b == B_SEMI || b == B_EQ
        || b == B_QUESTION || b == B_AT || b == B_LBRACKET || b == B_RBRACKET || b == B_TILDE
}

fn upper_hex_digit_exec(n: u8) -> (r: u8)
    requires
        n < 16,
    ensures
        r == upper_hex_digit(n),
{
    if n < 10 {
        B_0 + n
    } else {
        B_UPPER_A + (n - 10)
    }
}

/// Percent-encodes a byte sequence.
pub fn encode_bytes(input: &[u8]) -> (r: Vec<u8>)
    ensures
        r@ == percent_encoded(input@),
{
    let mut out: Vec<u8> = Vec::new();
    let mut i: usize = 0;
    while i < input.len()
        invariant
            i <= input@.len(),
            out@ == percent_encoded(input@.take(i as int)),
        decreases input@.len() - i,
    {
        let b = input[i];
        if is_safe_byte_exec(b) {
            out.push(b);
        } else {
            out.push(B_PERCENT);
            out.push(upper_hex_digit_exec(b / 16));
            out.push(upper_hex_digit_exec(b % 16));
        }
        proof {
            let t = input@.take(i + 1 as int);
            assert(t.drop_last() =~= input@.take(i as int));
            assert(t.last() == input@[i as int]);
            assert(out@ =~= percent_encoded(input@.take(i as int)) + encoded_byte(input@[i as int]));
        }
        i += 1;
    }
    proof {
        assert(input@.take(input@.len() as int) =~= input@);
    }
    out
}

/// Percent-encodes the UTF-8 bytes of a string, with the provider's safe set.
pub fn pythonic_encode(input: &str) -> (r: String)
    ensures
        encode_utf8(r@) == percent_encoded(encode_utf8(input@)),
{
    let bytes = input.as_bytes_vec();
    let enc = encode_bytes(bytes.as_slice());
    proof {
        lemma_percent_encoded_ascii(encode_utf8(input@));
        lemma_ascii_valid_utf8(enc@);
    }
    utf8_string(enc)
}

} // verus!
