//! The payload encoder: a pure function from the new message and the
//! current history snapshot to the provider-formatted request body.
//!
//! The body is `stimulus=<encoded message>`, then one `&vText<k>=<encoded
//! entry>` field per history entry walked newest-first with `k` counting up
//! from 2, then a fixed settings string, then the MD5 hex digest of bytes
//! 7 through 32 of the body built so far.

use vstd::prelude::*;
use vstd::utf8::*;
use vstd::string::StrSliceExecFns;
use crate::checksum::{md5_hex, md5_hex_of, lemma_lower_hex_ascii};
use crate::encode::{encode_bytes, percent_encoded, lemma_percent_encoded_ascii};
use crate::text::{all_ascii, append_str, lemma_all_ascii_concat, lemma_ascii_valid_utf8,
    utf8_string};
use crate::text::{B_0, B_EQ};

verus! {

/// The fixed field name that carries the new message.
pub open spec fn stimulus_prefix() -> Seq<u8> {
    encode_utf8("stimulus="@)
}

/// The field-name stem of a history entry.
pub open spec fn vtext_prefix() -> Seq<u8> {
    encode_utf8("&vText"@)
}

/// The fixed trailing settings string, ending just before the checksum.
pub open spec fn settings_suffix() -> Seq<u8> {
    encode_utf8("&cb_settings_scripting=no&islearning=1&icognoid=wsf&icognocheck="@)
}

/// The decimal digits of a number, most significant first.
pub open spec fn decimal_digits(n: nat) -> Seq<u8>
    decreases n,
{
    if n < 10 {
        seq![(B_0 + n) as u8]
    } else {
        decimal_digits(n / 10).push((B_0 + n % 10) as u8)
    }
}

/// One history field: `&vText<tag>=<encoded item>`.
pub open spec fn vtext_field(tag: nat, item: Seq<u8>) -> Seq<u8> {
    vtext_prefix() + decimal_digits(tag) + seq![B_EQ] + percent_encoded(item)
}

/// All history fields, newest entry first under tag 2, each older entry
/// under the next tag.
pub open spec fn context_fields(h: Seq<Seq<u8>>) -> Seq<u8>
    decreases h.len(),
{
    if h.len() == 0 {
        Seq::<u8>::empty()
    } else {
        context_fields(h.drop_first()) + vtext_field((h.len() + 1) as nat, h.first())
    }
}

/// The payload before the checksum is appended.
pub open spec fn payload_prefix(msg: Seq<u8>, h: Seq<Seq<u8>>) -> Seq<u8> {
    stimulus_prefix() + percent_encoded(msg) + context_fields(h) + settings_suffix()
}

/// The slice of the partially-built payload that the checksum covers.
/// The prefix always holds the 9-byte stimulus field name and the 64-byte
/// settings string, so bytes 7 through 32 exist for every input.
pub open spec fn checksum_region(p: Seq<u8>) -> Seq<u8>
    recommends
        p.len() >= 33,
{
    p.subrange(7, 33)
}

/// The complete payload: the prefix followed by its own checksum fragment.
pub open spec fn payload_bytes(msg: Seq<u8>, h: Seq<Seq<u8>>) -> Seq<u8> {
    payload_prefix(msg, h) + md5_hex_of(checksum_region(payload_prefix(msg, h)))
}

/// The UTF-8 bytes of each history entry, oldest first.
pub open spec fn history_bytes(h: Seq<Seq<char>>) -> Seq<Seq<u8>> {
    h.map_values(|s: Seq<char>| encode_utf8(s))
}

/// Lengths and ASCII-ness of the fixed protocol strings.
pub proof fn lemma_protocol_literals()
    ensures
        stimulus_prefix().len() == 9,
        vtext_prefix().len() == 6,
        settings_suffix().len() == 64,
        all_ascii(stimulus_prefix()),
        all_ascii(vtext_prefix()),
        all_ascii(settings_suffix()),
{
    reveal_strlit("stimulus=");
    reveal_strlit("&vText");
    reveal_strlit("&cb_settings_scripting=no&islearning=1&icognoid=wsf&icognocheck=");
    assert(is_ascii_chars("stimulus="@));
    assert(is_ascii_chars("&vText"@));
    assert(is_ascii_chars("&cb_settings_scripting=no&islearning=1&icognoid=wsf&icognocheck="@));
    is_ascii_chars_encode_utf8("stimulus="@);
    is_ascii_chars_encode_utf8("&vText"@);
    is_ascii_chars_encode_utf8("&cb_settings_scripting=no&islearning=1&icognoid=wsf&icognocheck="@);
}

/// Decimal digits are ASCII.
pub proof fn lemma_decimal_digits_ascii(n: nat)
    ensures
        all_ascii(decimal_digits(n)),
    decreases n,
{
    if n >= 10 {
        lemma_decimal_digits_ascii(n / 10);
    }
}

/// Every history field, and so the whole context block, is ASCII.
pub proof fn lemma_context_fields_ascii(h: Seq<Seq<u8>>)
    ensures
        all_ascii(context_fields(h)),
    decreases h.len(),
{
    if h.len() != 0 {
        lemma_context_fields_ascii(h.drop_first());
        lemma_protocol_literals();
        lemma_decimal_digits_ascii((h.len() + 1) as nat);
        lemma_percent_encoded_ascii(h.first());
        lemma_all_ascii_concat(vtext_prefix(), decimal_digits((h.len() + 1) as nat));
        lemma_all_ascii_concat(
            vtext_prefix() + decimal_digits((h.len() + 1) as nat),
            seq![B_EQ],
        );
        lemma_all_ascii_concat(
            vtext_prefix() + decimal_digits((h.len() + 1) as nat) + seq![B_EQ],
            percent_encoded(h.first()),
        );
        lemma_all_ascii_concat(
            context_fields(h.drop_first()),
            vtext_field((h.len() + 1) as nat, h.first()),
        );
    }
}

/// The payload prefix is ASCII and at least 73 bytes long.
pub proof fn lemma_payload_prefix_shape(msg: Seq<u8>, h: Seq<Seq<u8>>)
    ensures
        all_ascii(payload_prefix(msg, h)),
        payload_prefix(msg, h).len() >= 73,
{
    lemma_protocol_literals();
    lemma_percent_encoded_ascii(msg);
    lemma_context_fields_ascii(h);
    lemma_all_ascii_concat(stimulus_prefix(), percent_encoded(msg));
    lemma_all_ascii_concat(stimulus_prefix() + percent_encoded(msg), context_fields(h));
    lemma_all_ascii_concat(
        stimulus_prefix() + percent_encoded(msg) + context_fields(h),
        settings_suffix(),
    );
}

/// The payload encoder is pure: equal inputs give byte-identical payloads.
pub proof fn lemma_payload_deterministic(
    m1: Seq<u8>,
    h1: Seq<Seq<u8>>,
    m2: Seq<u8>,
    h2: Seq<Seq<u8>>,
)
    requires
        m1 == m2,
        h1 == h2,
    ensures
        payload_bytes(m1, h1) == payload_bytes(m2, h2),
{
}

/// The payload ends with the MD5 hex digest of bytes 7 through 32 of the
/// payload built so far, for every message and history.
pub proof fn lemma_checksum_trails_payload(msg: Seq<u8>, h: Seq<Seq<u8>>)
    ensures
        payload_prefix(msg, h).len() >= 73,
        payload_bytes(msg, h).subrange(
            payload_prefix(msg, h).len() as int,
            payload_bytes(msg, h).len() as int,
        ) == md5_hex_of(checksum_region(payload_prefix(msg, h))),
        payload_bytes(msg, h).subrange(0, payload_prefix(msg, h).len() as int)
            == payload_prefix(msg, h),
{
    lemma_payload_prefix_shape(msg, h);
    let p = payload_prefix(msg, h);
    let d = md5_hex_of(checksum_region(p));
    assert((p + d).subrange(p.len() as int, (p + d).len() as int) =~= d);
    assert((p + d).subrange(0, p.len() as int) =~= p);
}

/// For a three-entry history, the fields appear as `vText2` bound to the
/// newest entry, `vText3` to the middle one, and `vText4` to the oldest,
/// in that order, after the `stimulus` field.
pub proof fn lemma_three_entry_numbering(q: Seq<u8>, m1: Seq<u8>, m2: Seq<u8>, m3: Seq<u8>)
    ensures
        payload_prefix(q, seq![m1, m2, m3]) == stimulus_prefix() + percent_encoded(q)
            + (vtext_field(2, m3) + vtext_field(3, m2) + vtext_field(4, m1))
            + settings_suffix(),
{
    let h = seq![m1, m2, m3];
    assert(h.drop_first() =~= seq![m2, m3]);
    assert(seq![m2, m3].drop_first() =~= seq![m3]);
    assert(seq![m3].drop_first() =~= Seq::<Seq<u8>>::empty());
    assert(context_fields(h) == context_fields(seq![m2, m3]) + vtext_field(4, m1));
    assert(context_fields(seq![m2, m3]) == context_fields(seq![m3]) + vtext_field(3, m2));
    assert(context_fields(seq![m3]) == context_fields(Seq::<Seq<u8>>::empty())
        + vtext_field(2, m3));
    assert(context_fields(Seq::<Seq<u8>>::empty()) == Seq::<u8>::empty());
    assert(context_fields(h) =~= vtext_field(2, m3) + vtext_field(3, m2) + vtext_field(4, m1));
}

fn append_decimal(out: &mut Vec<u8>, n: usize)
    ensures
        final(out)@ == old(out)@ + decimal_digits(n as nat),
    decreases n,
{
    if n < 10 {
        out.push(B_0 + n as u8);
        proof {
            assert(out@ =~= old(out)@ + decimal_digits(n as nat));
        }
    } else {
        append_decimal(out, n / 10);
        out.push(B_0 + (n % 10) as u8);
        proof {
            assert(out@ =~= old(out)@ + decimal_digits(n as nat));
        }
    }
}

/// Builds the request body for a new message over a history snapshot,
/// oldest entry first.
pub fn build_payload(message: &str, history: &Vec<String>) -> (r: String)
    requires
        history@.len() < usize::MAX,
    ensures
        encode_utf8(r@) == payload_bytes(
            encode_utf8(message@),
            history_bytes(history@.map_values(|s: String| s@)),
        ),
{
    let ghost msg = encode_utf8(message@);
    let ghost hb = history_bytes(history@.map_values(|s: String| s@));

    let mut p: Vec<u8> = Vec::new();
    append_str(&mut p, "stimulus=");
    let mb = message.as_bytes_vec();
    let mut em = encode_bytes(mb.as_slice());
    p.append(&mut em);
    assert(p@ == stimulus_prefix() + percent_encoded(msg));

    let n = history.len();
    let mut j: usize = n;
    while j > 0
        invariant
            j <= n,
            n == history@.len() < usize::MAX,
            hb == history_bytes(history@.map_values(|s: String| s@)),
            p@ == stimulus_prefix() + percent_encoded(msg) + context_fields(hb.skip(j as int)),
        decreases j,
    {
        j = j - 1;
        let ghost before = hb.skip(j + 1 as int);
        append_str(&mut p, "&vText");
        append_decimal(&mut p, n - j + 1);
        p.push(B_EQ);
        let ib = history[j].as_str().as_bytes_vec();
        let mut ie = encode_bytes(ib.as_slice());
        p.append(&mut ie);
        proof {
            let g = hb.skip(j as int);
            assert(g.len() == n - j);
            assert(g.first() == hb[j as int]);
            assert(g.drop_first() =~= before);
            assert(hb[j as int] == encode_utf8(history@.map_values(|s: String| s@)[j as int]));
            assert(context_fields(g) == context_fields(before)
                + vtext_field((n - j + 1) as nat, hb[j as int]));
            assert(p@ =~= stimulus_prefix() + percent_encoded(msg) + context_fields(g));
        }
    }
    proof {
        assert(hb.skip(0) =~= hb);
    }
    append_str(&mut p, "&cb_settings_scripting=no&islearning=1&icognoid=wsf&icognocheck=");
    assert(p@ == payload_prefix(msg, hb));
    proof {
        lemma_payload_prefix_shape(msg, hb);
    }

    let mut region: Vec<u8> = Vec::new();
    let mut k: usize = 7;
    while k < 33
        invariant
            7 <= k <= 33,
            p@ == payload_prefix(msg, hb),
            p@.len() >= 73,
            region@ == p@.subrange(7, k as int),
        decreases 33 - k,
    {
        region.push(p[k]);
        proof {
            assert(p@.subrange(7, k + 1 as int) =~= p@.subrange(7, k as int).push(p@[k as int]));
        }
        k = k + 1;
    }
    assert(region@ == checksum_region(payload_prefix(msg, hb)));

    let mut digest = md5_hex(region.as_slice());
    proof {
        lemma_lower_hex_ascii(digest@);
        lemma_all_ascii_concat(p@, digest@);
    }
    p.append(&mut digest);
    assert(p@ == payload_bytes(msg, hb));
    proof {
        lemma_ascii_valid_utf8(p@);
    }
    utf8_string(p)
}

} // verus!
