//! UTF-16 encoding and decoding of character sequences.
//!
//! A character whose scalar value is below `0x10000` is one code unit; any
//! other character is a surrogate pair. [`utf16_valid`] recognises well-formed
//! unit sequences, [`utf16_decode`] gives the characters they encode, and
//! [`utf16_encode`] is the inverse, shown by [`lemma_utf16_round_trip`].

use vstd::arithmetic::div_mod::lemma_fundamental_div_mod;
use vstd::prelude::*;
use vstd::utf8::char_is_scalar;
use vstd::utf8::char_u32_cast;
use vstd::utf8::is_scalar;

verus! {

/// True when the unit opens a surrogate pair.
pub open spec fn is_high_surrogate(u: u16) -> bool {
    0xd800 <= u <= 0xdbff
}

/// True when the unit closes a surrogate pair.
pub open spec fn is_low_surrogate(u: u16) -> bool {
    0xdc00 <= u <= 0xdfff
}

/// The scalar value encoded by a surrogate pair.
pub open spec fn combine_surrogates(hi: u16, lo: u16) -> u32
    recommends
        is_high_surrogate(hi),
        is_low_surrogate(lo),
{
    (0x10000 + (hi - 0xd800) * 0x400 + (lo - 0xdc00)) as u32
}

/// True when the unit sequence is a well-formed UTF-16 encoding: every high
/// surrogate is followed by a low surrogate, and no low surrogate stands
/// alone.
pub open spec fn utf16_valid(units: Seq<u16>) -> bool
    decreases units.len(),
{
    if units.len() == 0 {
        true
    } else if is_low_surrogate(units[0]) {
        false
    } else if is_high_surrogate(units[0]) {
        units.len() >= 2 && is_low_surrogate(units[1]) && utf16_valid(units.skip(2))
    } else {
        utf16_valid(units.skip(1))
    }
}

/// The characters encoded by a well-formed UTF-16 unit sequence.
pub open spec fn utf16_decode(units: Seq<u16>) -> Seq<char>
    recommends
        utf16_valid(units),
    decreases units.len(),
    when utf16_valid(units)
{
    if units.len() == 0 {
        seq![]
    } else if is_high_surrogate(units[0]) {
        seq![combine_surrogates(units[0], units[1]) as char] + utf16_decode(units.skip(2))
    } else {
        seq![(units[0] as u32) as char] + utf16_decode(units.skip(1))
    }
}

/// The UTF-16 encoding of one character.
pub open spec fn utf16_encode_char(c: char) -> Seq<u16> {
    let v = c as u32;
    if v < 0x10000 {
        seq![v as u16]
    } else {
        seq![
            (0xd800 + (v - 0x10000) / 0x400) as u16,
            (0xdc00 + (v - 0x10000) % 0x400) as u16,
        ]
    }
}

/// The UTF-16 encoding of a character sequence.
pub open spec fn utf16_encode(s: Seq<char>) -> Seq<u16>
    decreases s.len(),
{
    if s.len() == 0 {
        seq![]
    } else {
        utf16_encode_char(s[0]) + utf16_encode(s.drop_first())
    }
}

/// One encoded character followed by a well-formed tail is well formed, and
/// decodes to that character followed by the decoded tail.
pub proof fn lemma_utf16_encode_char(c: char, rest: Seq<u16>)
    ensures
        utf16_valid(utf16_encode_char(c) + rest) == utf16_valid(rest),
        utf16_valid(rest) ==> utf16_decode(utf16_encode_char(c) + rest) == seq![c]
            + utf16_decode(rest),
{
    char_is_scalar(c);
    let v = c as u32;
    let enc = utf16_encode_char(c);
    let all = enc + rest;
    if v < 0x10000 {
        assert(!is_high_surrogate(v as u16) && !is_low_surrogate(v as u16)) by {
            assert(is_scalar(v));
        }
        assert(all.skip(1) =~= rest);
        assert((v as u16) as u32 == v);
        char_u32_cast(c, v);
        assert(utf16_valid(all) == utf16_valid(rest));
    } else {
        let d = (v - 0x10000) / 0x400;
        let m = (v - 0x10000) % 0x400;
        lemma_fundamental_div_mod(v - 0x10000, 0x400);
        assert(v - 0x10000 <= 0xfffff) by {
            assert(is_scalar(v));
        }
        assert(0 <= d <= 0x3ff);
        assert(0 <= m < 0x400);
        let hi = (0xd800 + d) as u16;
        let lo = (0xdc00 + m) as u16;
        assert(is_high_surrogate(hi));
        assert(is_low_surrogate(lo));
        assert(all.skip(2) =~= rest);
        assert(combine_surrogates(hi, lo) == v);
        char_u32_cast(c, v);
        assert(utf16_valid(all) == utf16_valid(rest));
    }
}

/// A well-formed prefix splits off: the whole sequence is well formed exactly
/// when the rest is, and decoding distributes over the split.
pub proof fn lemma_utf16_concat(a: Seq<u16>, b: Seq<u16>)
    requires
        utf16_valid(a),
    ensures
        utf16_valid(a + b) == utf16_valid(b),
        utf16_valid(b) ==> utf16_decode(a + b) == utf16_decode(a) + utf16_decode(b),
    decreases a.len(),
{
    if a.len() == 0 {
        assert(a + b =~= b);
        if utf16_valid(b) {
            assert(utf16_decode(a + b) =~= utf16_decode(a) + utf16_decode(b));
        }
    } else if is_high_surrogate(a[0]) {
        let all = a + b;
        assert(all[0] == a[0] && all[1] == a[1]);
        assert(all.skip(2) =~= a.skip(2) + b);
        lemma_utf16_concat(a.skip(2), b);
        if utf16_valid(b) {
            assert(utf16_decode(a + b) =~= utf16_decode(a) + utf16_decode(b));
        }
    } else {
        let all = a + b;
        assert(all[0] == a[0]);
        assert(all.skip(1) =~= a.skip(1) + b);
        lemma_utf16_concat(a.skip(1), b);
        if utf16_valid(b) {
            assert(utf16_decode(a + b) =~= utf16_decode(a) + utf16_decode(b));
        }
    }
}

/// The encoding of any character sequence is well formed.
pub proof fn lemma_utf16_encode_valid(s: Seq<char>)
    ensures
        utf16_valid(utf16_encode(s)),
    decreases s.len(),
{
    if s.len() == 0 {
    } else {
        lemma_utf16_encode_valid(s.drop_first());
        lemma_utf16_encode_char(s[0], utf16_encode(s.drop_first()));
    }
}

/// Encoding then decoding returns the original character sequence.
pub proof fn lemma_utf16_round_trip(s: Seq<char>)
    ensures
        utf16_valid(utf16_encode(s)),
        utf16_decode(utf16_encode(s)) == s,
    decreases s.len(),
{
    if s.len() == 0 {
        assert(utf16_decode(utf16_encode(s)) =~= s);
    } else {
        lemma_utf16_round_trip(s.drop_first());
        lemma_utf16_encode_char(s[0], utf16_encode(s.drop_first()));
        assert(utf16_decode(utf16_encode(s)) =~= s);
    }
}

/// Appending one character to a sequence appends its encoding.
pub proof fn lemma_utf16_encode_push(s: Seq<char>, c: char)
    ensures
        utf16_encode(s.push(c)) == utf16_encode(s) + utf16_encode_char(c),
    decreases s.len(),
{
    if s.len() == 0 {
        assert(s.push(c).drop_first() =~= s);
        assert(s.push(c)[0] == c);
        assert(utf16_encode(s.push(c)) =~= utf16_encode(s) + utf16_encode_char(c));
    } else {
        assert(s.push(c).drop_first() =~= s.drop_first().push(c));
        lemma_utf16_encode_push(s.drop_first(), c);
        assert(utf16_encode(s.push(c)) =~= utf16_encode(s) + utf16_encode_char(c));
    }
}

} // verus!
