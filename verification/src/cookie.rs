//! Session-cookie acquisition: the URL for the provider's auxiliary script
//! endpoint, and the rule that turns a `set-cookie` header into a session
//! token.

use vstd::prelude::*;
use vstd::utf8::*;
use vstd::string::StrSliceExecFns;
use crate::text::{all_ascii, append_str, lemma_all_ascii_concat, lemma_ascii_valid_utf8,
    lemma_encode_utf8_empty, lemma_prefix_before_take, prefix_before, try_utf8_string,
    utf8_string};
use crate::text::{B_2, B_3, B_PERCENT, B_SEMI, B_UPPER_B};

verus! {

/// The auxiliary script endpoint, queried with the current date so the
/// provider cannot serve a cached reply.
pub open spec fn cookie_endpoint() -> Seq<u8> {
    encode_utf8("https://www.cleverbot.com/extras/conversation-social-min.js?"@)
}

/// Every literal `B%` replaced by `32`, left to right.
pub open spec fn replace_b_percent(s: Seq<u8>) -> Seq<u8>
    decreases s.len(),
{
    if s.len() < 2 {
        s
    } else if s[0] == B_UPPER_B && s[1] == B_PERCENT {
        seq![B_3, B_2] + replace_b_percent(s.skip(2))
    } else {
        seq![s[0]] + replace_b_percent(s.skip(1))
    }
}

/// The session token a `set-cookie` header yields: the portion before the
/// first `;`, with each literal `B%` replaced by `32`.
pub open spec fn cookie_of_header(h: Seq<u8>) -> Seq<u8> {
    replace_b_percent(prefix_before(h, B_SEMI))
}

/// The replacement rule keeps all-ASCII input all-ASCII.
pub proof fn lemma_replace_ascii(s: Seq<u8>)
    requires
        all_ascii(s),
    ensures
        all_ascii(replace_b_percent(s)),
    decreases s.len(),
{
    if s.len() < 2 {
    } else if s[0] == B_UPPER_B && s[1] == B_PERCENT {
        lemma_replace_ascii(s.skip(2));
        lemma_all_ascii_concat(seq![B_3, B_2], replace_b_percent(s.skip(2)));
    } else {
        lemma_replace_ascii(s.skip(1));
        lemma_all_ascii_concat(seq![s[0]], replace_b_percent(s.skip(1)));
    }
}

fn replace_cookie_bytes(s: &[u8]) -> (r: Vec<u8>)
    ensures
        r@ == replace_b_percent(s@),
{
    let mut out: Vec<u8> = Vec::new();
    let mut i: usize = 0;
    proof {
        assert(s@.skip(0) =~= s@);
        assert(Seq::<u8>::empty() + replace_b_percent(s@) =~= replace_b_percent(s@));
    }
    while i < s.len()
        invariant
            i <= s@.len(),
            replace_b_percent(s@) == out@ + replace_b_percent(s@.skip(i as int)),
        decreases s@.len() - i,
    {
        let ghost g = s@.skip(i as int);
        if i + 1 < s.len() && s[i] == B_UPPER_B && s[i + 1] == B_PERCENT {
            out.push(B_3);
            out.push(B_2);
            proof {
                assert(g.len() >= 2 && g[0] == B_UPPER_B && g[1] == B_PERCENT);
                assert(g.skip(2) =~= s@.skip(i + 2 as int));
                assert(replace_b_percent(g) == seq![B_3, B_2] + replace_b_percent(
                    s@.skip(i + 2 as int),
                ));
            }
            i += 2;
        } else {
            out.push(s[i]);
            proof {
                assert(g[0] == s@[i as int]);
                assert(g.skip(1) =~= s@.skip(i + 1 as int));
                if g.len() >= 2 {
                    assert(replace_b_percent(g) == seq![g[0]] + replace_b_percent(
                        s@.skip(i + 1 as int),
                    ));
                } else {
                    assert(g =~= seq![g[0]]);
                    assert(replace_b_percent(s@.skip(i + 1 as int)) =~= Seq::<u8>::empty());
                    assert(replace_b_percent(g) =~= seq![g[0]] + replace_b_percent(
                        s@.skip(i + 1 as int),
                    ));
                }
            }
            i += 1;
        }
        proof {
            assert(replace_b_percent(s@) =~= out@ + replace_b_percent(s@.skip(i as int)));
        }
    }
    proof {
        assert(s@.skip(s@.len() as int) =~= Seq::<u8>::empty());
        assert(out@ + Seq::<u8>::empty() =~= out@);
    }
    out
}

/// Extracts the session token from a `set-cookie` header value. An empty
/// token is no session at all, so it is never produced; any ASCII header
/// with something before its first `;` yields a token.
pub fn extract_cookie(header: &str) -> (r: Option<String>)
    ensures
        r matches Some(c) ==> encode_utf8(c@) == cookie_of_header(encode_utf8(header@))
            && c@.len() > 0,
        r is Some <==> valid_utf8(cookie_of_header(encode_utf8(header@))) && cookie_of_header(
            encode_utf8(header@),
        ).len() > 0,
        is_ascii_chars(header@) && cookie_of_header(encode_utf8(header@)).len() > 0 ==> r
            is Some,
{
    let hb = header.as_bytes_vec();
    let ghost bs = encode_utf8(header@);
    let mut i: usize = 0;
    while i < hb.len() && hb[i] != B_SEMI
        invariant
            hb@ == bs,
            i <= bs.len(),
            forall|k: int| 0 <= k < i ==> bs[k] != B_SEMI,
        decreases bs.len() - i,
    {
        i += 1;
    }
    proof {
        lemma_prefix_before_take(bs, B_SEMI, i as int);
    }
    let mut pre: Vec<u8> = Vec::new();
    let mut k: usize = 0;
    while k < i
        invariant
            hb@ == bs,
            i <= bs.len(),
            k <= i,
            pre@ == bs.take(k as int),
        decreases i - k,
    {
        pre.push(hb[k]);
        proof {
            assert(bs.take(k + 1 as int) =~= bs.take(k as int).push(bs[k as int]));
        }
        k += 1;
    }
    let token = replace_cookie_bytes(pre.as_slice());
    proof {
        if is_ascii_chars(header@) {
            is_ascii_chars_encode_utf8(header@);
            assert(all_ascii(bs));
            assert(all_ascii(prefix_before(bs, B_SEMI))) by {
                assert(forall|j: int| 0 <= j < bs.take(i as int).len() ==> bs.take(i as int)[j]
                    < 128);
            }
            lemma_replace_ascii(prefix_before(bs, B_SEMI));
            lemma_ascii_valid_utf8(token@);
        }
    }
    if token.len() == 0 {
        return None;
    }
    match try_utf8_string(token) {
        Some(c) => {
            proof {
                lemma_encode_utf8_empty(c@);
            }
            Some(c)
        },
        None => None,
    }
}

/// Relies on `chrono::Utc::now` and its `%Y%m%d` formatting: the current
/// UTC date as at least four year digits and two digits each for month and
/// day, all ASCII.
#[verifier::external_body]
fn today_yyyymmdd() -> (r: String)
    ensures
        is_ascii_chars(r@),
        r@.len() >= 8,
{
    chrono::Utc::now().format("%Y%m%d").to_string()
}

/// The URL for a fresh-cookie request: the script endpoint queried with
/// today's date.
pub fn cookie_request_url() -> (r: String)
    ensures
        exists|d: Seq<char>|
            is_ascii_chars(d) && d.len() >= 8 && encode_utf8(r@) == cookie_endpoint()
                + encode_utf8(d),
{
    let date = today_yyyymmdd();
    let mut u: Vec<u8> = Vec::new();
    append_str(&mut u, "https://www.cleverbot.com/extras/conversation-social-min.js?");
    append_str(&mut u, date.as_str());
    proof {
        broadcast use group_utf8_lib;

        assert(valid_utf8(cookie_endpoint()));
        assert(valid_utf8(encode_utf8(date@)));
        valid_utf8_concat(cookie_endpoint(), encode_utf8(date@));
        assert(is_ascii_chars(date@) && date@.len() >= 8 && u@ == cookie_endpoint() + encode_utf8(
            date@,
        ));
    }
    utf8_string(u)
}

} // verus!
