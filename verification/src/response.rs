//! Decoding and classifying what the provider sends back: the first
//! carriage-return-delimited segment is the answer, and two sentinel shapes
//! mark an expired or invalid session.

use vstd::prelude::*;
use vstd::utf8::*;
use vstd::string::StrSliceExecFns;
use crate::error::Error;
use crate::text::{bytes_eq, bytes_starts_with, lemma_prefix_before_take, prefix_before,
    try_utf8_string, B_CR};

verus! {

/// The answer segment of a response body: the bytes before the first
/// carriage return.
pub open spec fn first_segment(b: Seq<u8>) -> Seq<u8> {
    prefix_before(b, B_CR)
}

/// A sentinel answer, indicating an expired or invalid session rather than
/// a real conversational answer: the fixed greeting line, or anything that
/// begins like an HTML document.
pub open spec fn is_bad_answer(b: Seq<u8>) -> bool {
    b == encode_utf8("Hello from Cleverbot\n"@) || (b.len() >= 5 && b.subrange(0, 5)
        == encode_utf8("<html"@))
}

/// Splits the decoded response on the first carriage return and takes the
/// first segment as the answer; an empty body yields `EmptyResponse`.
pub fn parse_answer(text: &str) -> (r: Result<String, Error>)
    ensures
        text@.len() == 0 <==> r == Err::<String, Error>(Error::EmptyResponse),
        text@.len() != 0 ==> (r matches Ok(a) && encode_utf8(a@) == first_segment(
            encode_utf8(text@),
        )),
{
    if text.is_empty() {
        return Err(Error::EmptyResponse);
    }
    let b = text.as_bytes_vec();
    let ghost bs = encode_utf8(text@);
    let mut i: usize = 0;
    while i < b.len() && b[i] != B_CR
        invariant
            b@ == bs,
            i <= bs.len(),
            forall|k: int| 0 <= k < i ==> bs[k] != B_CR,
        decreases bs.len() - i,
    {
        i += 1;
    }
    proof {
        lemma_prefix_before_take(bs, B_CR, i as int);
        broadcast use group_utf8_lib;

        assert(valid_utf8(bs));
        assert(is_char_boundary(bs, i as int)) by {
            if i < bs.len() {
                assert(!is_continuation_byte(bs[i as int]));
            }
        }
        valid_utf8_split(bs, i as int);
        assert(bs.subrange(0, i as int) =~= bs.take(i as int));
    }
    let mut seg: Vec<u8> = Vec::new();
    let mut k: usize = 0;
    while k < i
        invariant
            b@ == bs,
            i <= bs.len(),
            k <= i,
            seg@ == bs.take(k as int),
        decreases i - k,
    {
        seg.push(b[k]);
        proof {
            assert(bs.take(k + 1 as int) =~= bs.take(k as int).push(bs[k as int]));
        }
        k += 1;
    }
    match try_utf8_string(seg) {
        Some(a) => Ok(a),
        None => {
            proof {
                assert(false);
            }
            Err(Error::EmptyResponse)
        },
    }
}

/// Decides whether an answer is one of the provider's sentinel responses.
pub fn classify_answer(answer: &str) -> (r: bool)
    ensures
        r == is_bad_answer(encode_utf8(answer@)),
{
    let ab = answer.as_bytes_vec();
    let greeting = "Hello from Cleverbot\n".as_bytes_vec();
    if bytes_eq(ab.as_slice(), greeting.as_slice()) {
        return true;
    }
    let html = "<html".as_bytes_vec();
    proof {
        reveal_strlit("<html");
        assert(is_ascii_chars("<html"@));
        is_ascii_chars_encode_utf8("<html"@);
        assert(html@.len() == 5);
    }
    bytes_starts_with(ab.as_slice(), html.as_slice())
}

} // verus!
