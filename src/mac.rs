use vstd::prelude::*;
use vstd::string::{is_ascii, StrSliceExecFns, StringExecFns, StringSliceAdditionalSpecFns};
use vstd::utf8::{
    decode_utf8, encode_utf8, encode_utf8_decode_utf8, encode_utf8_valid_utf8, is_ascii_chars,
    is_ascii_chars_encode_utf8, is_char_boundary, is_char_boundary_iff_not_is_continuation_byte,
    is_char_boundary_start_end_of_seq, is_continuation_byte,
};

verus! {

/// A mac address written as twelve hex digits, with colons between the
/// pairs: `aabbccddeeff` becomes `aa:bb:cc:dd:ee:ff`. Characters after the
/// twelfth are dropped.
pub open spec fn colon_mac_spec(m: Seq<char>) -> Seq<char> {
    m.subrange(0, 2) + seq![':'] + m.subrange(2, 4) + seq![':'] + m.subrange(4, 6) + seq![':']
        + m.subrange(6, 8) + seq![':'] + m.subrange(8, 10) + seq![':'] + m.subrange(10, 12)
}

proof fn lemma_ascii_encode(c: Seq<char>)
    requires
        is_ascii_chars(c),
    ensures
        encode_utf8(c) == Seq::new(c.len(), |i: int| c[i] as u8),
{
    is_ascii_chars_encode_utf8(c);
    assert(encode_utf8(c) =~= Seq::new(c.len(), |i: int| c[i] as u8));
}

proof fn lemma_ascii_boundary(c: Seq<char>, k: int)
    requires
        is_ascii_chars(c),
        0 <= k <= c.len(),
    ensures
        is_char_boundary(encode_utf8(c), k),
{
    encode_utf8_valid_utf8(c);
    lemma_ascii_encode(c);
    let b = encode_utf8(c);
    if k == c.len() {
        is_char_boundary_start_end_of_seq(b);
    } else {
        is_char_boundary_iff_not_is_continuation_byte(b, k);
        assert(c[k] as u8 == b[k]);
        assert(!is_continuation_byte(b[k])) by {
            assert('\0' <= c[k] <= '\u{7f}');
        }
    }
}

/// Characters `a` to `b` of an ASCII string.
fn ascii_slice(s: &str, a: usize, b: usize) -> (r: &str)
    requires
        is_ascii(s),
        a <= b <= s@.len(),
    ensures
        r@ == s@.subrange(a as int, b as int),
{
    proof {
        lemma_ascii_boundary(s@, a as int);
        lemma_ascii_encode(s@);
    }
    let (_, rest) = s.split_at(a);
    proof {
        encode_utf8_decode_utf8(rest@);
        lemma_ascii_encode(s@.subrange(a as int, s@.len() as int));
        encode_utf8_decode_utf8(s@.subrange(a as int, s@.len() as int));
        assert(rest.spec_bytes() =~= encode_utf8(s@.subrange(a as int, s@.len() as int)));
        assert(rest@ == s@.subrange(a as int, s@.len() as int));
        lemma_ascii_boundary(rest@, (b - a) as int);
    }
    let (mid, _) = rest.split_at(b - a);
    proof {
        let want = s@.subrange(a as int, b as int);
        lemma_ascii_encode(want);
        lemma_ascii_encode(rest@);
        encode_utf8_decode_utf8(mid@);
        encode_utf8_decode_utf8(want);
        assert(mid.spec_bytes() =~= encode_utf8(want));
    }
    mid
}

/// The mac address `mac` with colons between its pairs of digits (see
/// `colon_mac_spec`); `None` where it is not ASCII or is shorter than twelve
/// characters.
pub fn mac_with_colons(mac: &String) -> (r: Option<String>)
    ensures
        match r {
            Some(x) => is_ascii_chars(mac@) && mac@.len() >= 12 && x@ == colon_mac_spec(mac@),
            None => !(is_ascii_chars(mac@) && mac@.len() >= 12),
        },
{
    let s = mac.as_str();
    if !s.is_ascii() {
        return None;
    }
    if s.unicode_len() < 12 {
        return None;
    }
    proof {
        reveal_strlit(":");
    }
    let mut out = <String as StringExecFns>::from_str(ascii_slice(s, 0, 2));
    let mut k: usize = 2;
    while k < 12
        invariant
            2 <= k <= 12,
            k % 2 == 0,
            is_ascii(s),
            s@ == mac@,
            s@.len() >= 12,
            ":"@ == seq![':'],
            out@ == colon_prefix(s@, k as int),
        decreases 12 - k,
    {
        out.append(":");
        out.append(ascii_slice(s, k, k + 2));
        k = k + 2;
    }
    proof {
        assert(colon_prefix(s@, 12) =~= colon_mac_spec(s@)) by {
            reveal_with_fuel(colon_prefix, 6);
        }
    }
    Some(out)
}

/// The first `k` characters of `m` with a colon after every second one but
/// the last.
pub open spec fn colon_prefix(m: Seq<char>, k: int) -> Seq<char>
    decreases k,
{
    if k <= 2 {
        m.subrange(0, 2)
    } else {
        colon_prefix(m, k - 2) + seq![':'] + m.subrange(k - 2, k)
    }
}

} // verus!
