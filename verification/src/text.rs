//! Executable text codecs: UTF-8 and UTF-16 conversion between bytes, code
//! units, characters and strings, verified against the specifications in
//! [`vstd::utf8`] and [`crate::utf16`].

use crate::errors::ParseError;
use crate::utf16::combine_surrogates;
use crate::utf16::lemma_utf16_concat;
use crate::utf16::lemma_utf16_encode_push;
use crate::utf16::utf16_decode;
use crate::utf16::utf16_encode;
use crate::utf16::utf16_valid;
use vstd::prelude::*;
use vstd::string::StrSliceExecFns;
use vstd::utf8::char_is_scalar;
use vstd::utf8::char_u32_cast;
use vstd::utf8::decode_utf8;
use vstd::utf8::encode_scalar;
use vstd::utf8::encode_utf8;
use vstd::utf8::encode_utf8_decode_utf8;
use vstd::utf8::encode_utf8_valid_utf8;
use vstd::utf8::has_width_2_encoding;
use vstd::utf8::has_width_3_encoding;
use vstd::utf8::is_scalar;
use vstd::utf8::valid_utf8;

verus! {

/// Relies on `String::from_utf8`: returns the decoded string exactly when the
/// bytes are valid UTF-8. `vstd` states the same byte/character
/// correspondence for `str::from_utf8_unchecked`.
#[verifier::external_body]
fn string_from_utf8(bytes: Vec<u8>) -> (r: Option<String>)
    ensures
        r is Some <==> valid_utf8(bytes@),
        r matches Some(s) ==> s@ == decode_utf8(bytes@),
{
    String::from_utf8(bytes).ok()
}

/// Relies on `char::from_u32`: returns a character exactly when the value is
/// a Unicode scalar (at most `0x10ffff` and not a surrogate), carrying that
/// value.
#[verifier::external_body]
fn char_from_u32(v: u32) -> (r: Option<char>)
    ensures
        r is Some <==> is_scalar(v),
        r matches Some(c) ==> c as u32 == v,
{
    char::from_u32(v)
}

/// Appending one character to a sequence appends its UTF-8 encoding.
pub proof fn lemma_encode_utf8_push(s: Seq<char>, c: char)
    ensures
        encode_utf8(s.push(c)) == encode_utf8(s) + encode_scalar(c as u32),
    decreases s.len(),
{
    if s.len() == 0 {
        assert(s.push(c).drop_first() =~= s);
        assert(s.push(c)[0] == c);
        assert(encode_utf8(s.push(c)) =~= encode_utf8(s) + encode_scalar(c as u32));
    } else {
        assert(s.push(c).drop_first() =~= s.drop_first().push(c));
        lemma_encode_utf8_push(s.drop_first(), c);
        assert(encode_utf8(s.push(c)) =~= encode_utf8(s) + encode_scalar(c as u32));
    }
}

/// Appends the UTF-8 encoding of one character to the byte vector.
fn push_scalar_utf8(out: &mut Vec<u8>, c: char)
    ensures
        final(out)@ == old(out)@ + encode_scalar(c as u32),
{
    let v: u32 = c as u32;
    proof {
        char_is_scalar(c);
    }
    if v < 0x80 {
        assert(v & 0x7f == v) by (bit_vector)
            requires
                v < 0x80,
        ;
        out.push((v & 0x7f) as u8);
        assert(out@ =~= old(out)@ + encode_scalar(v));
    } else if v < 0x800 {
        assert((v >> 6) & 0x1f <= 0x1f && v & 0x3f <= 0x3f) by (bit_vector);
        let b1: u8 = 0xc0 | ((v >> 6) & 0x1f) as u8;
        let b2: u8 = 0x80 | (v & 0x3f) as u8;
        out.push(b1);
        out.push(b2);
        assert(has_width_2_encoding(v));
        assert(out@ =~= old(out)@ + encode_scalar(v));
    } else if v < 0x10000 {
        assert((v >> 12) & 0x0f <= 0x0f && (v >> 6) & 0x3f <= 0x3f && v & 0x3f <= 0x3f)
            by (bit_vector);
        let b1: u8 = 0xe0 | ((v >> 12) & 0x0f) as u8;
        let b2: u8 = 0x80 | ((v >> 6) & 0x3f) as u8;
        let b3: u8 = 0x80 | (v & 0x3f) as u8;
        out.push(b1);
        out.push(b2);
        out.push(b3);
        assert(has_width_3_encoding(v));
        assert(out@ =~= old(out)@ + encode_scalar(v));
    } else {
        assert((v >> 18) & 0x7 <= 0x7 && (v >> 12) & 0x3f <= 0x3f && (v >> 6) & 0x3f <= 0x3f && v
            & 0x3f <= 0x3f) by (bit_vector);
        let b1: u8 = 0xf0 | ((v >> 18) & 0x7) as u8;
        let b2: u8 = 0x80 | ((v >> 12) & 0x3f) as u8;
        let b3: u8 = 0x80 | ((v >> 6) & 0x3f) as u8;
        let b4: u8 = 0x80 | (v & 0x3f) as u8;
        out.push(b1);
        out.push(b2);
        out.push(b3);
        out.push(b4);
        assert(out@ =~= old(out)@ + encode_scalar(v));
    }
}

/// The UTF-8 bytes of a string.
pub fn utf8_bytes_of_str(s: &str) -> (r: Vec<u8>)
    ensures
        r@ == encode_utf8(s@),
{
    let n = s.unicode_len();
    let mut out: Vec<u8> = Vec::new();
    let mut i: usize = 0;
    while i < n
        invariant
            i <= n,
            n == s@.len(),
            out@ == encode_utf8(s@.take(i as int)),
        decreases n - i,
    {
        let c = s.get_char(i);
        push_scalar_utf8(&mut out, c);
        proof {
            lemma_encode_utf8_push(s@.take(i as int), c);
            assert(s@.take(i as int).push(c) =~= s@.take(i + 1 as int));
        }
        i = i + 1;
    }
    proof {
        assert(s@.take(n as int) =~= s@);
    }
    out
}

/// Builds a string holding exactly the given characters.
pub fn string_from_chars(chars: &Vec<char>) -> (s: String)
    ensures
        s@ == chars@,
{
    let mut out: Vec<u8> = Vec::new();
    let mut i: usize = 0;
    while i < chars.len()
        invariant
            i <= chars.len(),
            out@ == encode_utf8(chars@.take(i as int)),
        decreases chars.len() - i,
    {
        let c = chars[i];
        push_scalar_utf8(&mut out, c);
        proof {
            lemma_encode_utf8_push(chars@.take(i as int), c);
            assert(chars@.take(i as int).push(c) =~= chars@.take(i + 1 as int));
        }
        i = i + 1;
    }
    proof {
        assert(chars@.take(chars@.len() as int) =~= chars@);
        encode_utf8_valid_utf8(chars@);
        encode_utf8_decode_utf8(chars@);
    }
    match string_from_utf8(out) {
        Some(s) => s,
        None => vstd::pervasive::unreached(),
    }
}

/// Decodes UTF-8 bytes into a string; fails exactly when the bytes are not
/// valid UTF-8.
pub fn string_from_utf8_bytes(bytes: Vec<u8>) -> (r: Result<String, ParseError>)
    ensures
        r matches Ok(s) ==> valid_utf8(bytes@) && s@ == decode_utf8(bytes@),
        r is Err ==> !valid_utf8(bytes@) && r == Err::<String, ParseError>(ParseError::InvalidUtf8),
{
    match string_from_utf8(bytes) {
        Some(s) => Ok(s),
        None => Err(ParseError::InvalidUtf8),
    }
}

/// Decodes UTF-16 code units into characters; fails exactly when the units
/// are not well formed.
pub fn chars_from_utf16_units(units: &Vec<u16>) -> (r: Result<Vec<char>, ParseError>)
    ensures
        r matches Ok(cs) ==> utf16_valid(units@) && cs@ == utf16_decode(units@),
        r is Err ==> !utf16_valid(units@) && r == Err::<Vec<char>, ParseError>(
            ParseError::InvalidUtf16,
        ),
{
    let mut out: Vec<char> = Vec::new();
    let mut i: usize = 0;
    while i < units.len()
        invariant
            i <= units.len(),
            utf16_valid(units@.take(i as int)),
            out@ == utf16_decode(units@.take(i as int)),
        decreases units.len() - i,
    {
        let u = units[i];
        proof {
            assert(units@ =~= units@.take(i as int) + units@.skip(i as int));
            lemma_utf16_concat(units@.take(i as int), units@.skip(i as int));
        }
        if 0xdc00 <= u && u <= 0xdfff {
            proof {
                assert(units@.skip(i as int)[0] == u);
            }
            return Err(ParseError::InvalidUtf16);
        } else if 0xd800 <= u && u <= 0xdbff {
            if i + 1 >= units.len() {
                proof {
                    assert(units@.skip(i as int)[0] == u);
                    assert(units@.skip(i as int).len() < 2);
                }
                return Err(ParseError::InvalidUtf16);
            }
            let u2 = units[i + 1];
            if !(0xdc00 <= u2 && u2 <= 0xdfff) {
                proof {
                    assert(units@.skip(i as int)[0] == u);
                    assert(units@.skip(i as int)[1] == u2);
                }
                return Err(ParseError::InvalidUtf16);
            }
            let v: u32 = 0x10000 + (u as u32 - 0xd800) * 0x400 + (u2 as u32 - 0xdc00);
            assert(v == combine_surrogates(u, u2));
            let c = match char_from_u32(v) {
                Some(c) => c,
                None => vstd::pervasive::unreached(),
            };
            out.push(c);
            proof {
                let pair = seq![u, u2];
                assert(pair.skip(2) =~= Seq::<u16>::empty());
                assert(utf16_valid(Seq::<u16>::empty()));
                assert(utf16_valid(pair));
                assert(utf16_decode(pair) == seq![combine_surrogates(u, u2) as char] + utf16_decode(
                    pair.skip(2),
                ));
                char_u32_cast(c, v);
                assert(utf16_decode(pair) =~= seq![c]);
                lemma_utf16_concat(units@.take(i as int), pair);
                assert(units@.take(i as int) + pair =~= units@.take(i + 2 as int));
            }
            i = i + 2;
        } else {
            let c = match char_from_u32(u as u32) {
                Some(c) => c,
                None => vstd::pervasive::unreached(),
            };
            out.push(c);
            proof {
                let one = seq![u];
                assert(one.skip(1) =~= Seq::<u16>::empty());
                assert(utf16_valid(Seq::<u16>::empty()));
                assert(utf16_valid(one));
                assert(utf16_decode(one) == seq![(u as u32) as char] + utf16_decode(one.skip(1)));
                char_u32_cast(c, u as u32);
                assert(utf16_decode(one) =~= seq![c]);
                lemma_utf16_concat(units@.take(i as int), one);
                assert(units@.take(i as int) + one =~= units@.take(i + 1 as int));
            }
            i = i + 1;
        }
    }
    proof {
        assert(units@.take(units@.len() as int) =~= units@);
    }
    Ok(out)
}

/// The UTF-16 code units of a string.
pub fn utf16_units_of_str(s: &str) -> (r: Vec<u16>)
    ensures
        r@ == utf16_encode(s@),
{
    let n = s.unicode_len();
    let mut out: Vec<u16> = Vec::new();
    let mut i: usize = 0;
    while i < n
        invariant
            i <= n,
            n == s@.len(),
            out@ == utf16_encode(s@.take(i as int)),
        decreases n - i,
    {
        let c = s.get_char(i);
        let v: u32 = c as u32;
        proof {
            char_is_scalar(c);
        }
        if v < 0x10000 {
            out.push(v as u16);
        } else {
            assert(v <= 0x10ffff) by {
                assert(is_scalar(v));
            }
            assert((v - 0x10000) / 0x400 <= 0x3ff) by (nonlinear_arith)
                requires
                    0x10000 <= v <= 0x10ffff,
            ;
            let d: u32 = (v - 0x10000) / 0x400;
            let m: u32 = (v - 0x10000) % 0x400;
            out.push(0xd800 + d as u16);
            out.push(0xdc00 + m as u16);
        }
        proof {
            lemma_utf16_encode_push(s@.take(i as int), c);
            assert(s@.take(i as int).push(c) =~= s@.take(i + 1 as int));
            assert(out@ =~= utf16_encode(s@.take(i + 1 as int)));
        }
        i = i + 1;
    }
    proof {
        assert(s@.take(n as int) =~= s@);
    }
    out
}

} // verus!
