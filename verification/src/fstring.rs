//! The length-prefixed string serialization ("FString").
//!
//! A string is stored as a signed 32-bit length `L` followed by its payload:
//! `L = 0` is the empty string with no payload; `L > 0` is `L` bytes of UTF-8
//! text whose final byte must be a NUL and is excluded from the text; `L < 0`
//! is `|L|` little-endian UTF-16 code units whose final unit is excluded from
//! the text. [`take_fstring`] is the decoding, [`fstring_bytes`] the encoding,
//! and [`lemma_fstring_round_trip`] shows they are inverse.

use crate::bytes::i32_of_u32;
use crate::bytes::le_u16;
use crate::bytes::le_u32;
use crate::bytes::take_bytes;
use crate::bytes::take_i32;
use crate::errors::ParseError;
use crate::text::utf8_bytes_of_str;
use crate::text::utf16_units_of_str;
use crate::utf16::lemma_utf16_encode_valid;
use crate::utf16::lemma_utf16_round_trip;
use crate::utf16::utf16_decode;
use crate::utf16::utf16_encode;
use crate::utf16::utf16_valid;
use vstd::prelude::*;
use vstd::utf8::decode_utf8;
use vstd::utf8::encode_utf8;
use vstd::utf8::encode_utf8_decode_utf8;
use vstd::utf8::encode_utf8_valid_utf8;
use vstd::utf8::valid_utf8;

verus! {

/// The UTF-16 code units held by an even-length little-endian byte sequence.
pub open spec fn u16s_of_bytes(b: Seq<u8>) -> Seq<u16>
    recommends
        b.len() % 2 == 0,
{
    Seq::new((b.len() / 2) as nat, |i: int| le_u16(b.subrange(2 * i, 2 * i + 2)))
}

/// The little-endian bytes of a UTF-16 code unit sequence.
pub open spec fn bytes_of_u16s(us: Seq<u16>) -> Seq<u8> {
    Seq::new(
        (us.len() * 2) as nat,
        |i: int|
            if i % 2 == 0 {
                (us[i / 2] & 0xff) as u8
            } else {
                ((us[i / 2] >> 8) & 0xff) as u8
            },
    )
}

/// The little-endian bytes of an unsigned 32-bit value.
pub open spec fn le_bytes_of_u32(v: u32) -> Seq<u8> {
    seq![
        (v & 0xff) as u8,
        ((v >> 8) & 0xff) as u8,
        ((v >> 16) & 0xff) as u8,
        ((v >> 24) & 0xff) as u8,
    ]
}

/// The unsigned reading, in two's complement, of a signed 32-bit value.
pub open spec fn u32_of_i32(v: i32) -> u32 {
    if v >= 0 {
        v as u32
    } else {
        (v + 0x1_0000_0000) as u32
    }
}

/// Serializing a unit sequence to bytes and reading the units back is the
/// identity.
pub proof fn lemma_u16s_bytes_round_trip(us: Seq<u16>)
    ensures
        bytes_of_u16s(us).len() == 2 * us.len(),
        bytes_of_u16s(us).len() % 2 == 0,
        u16s_of_bytes(bytes_of_u16s(us)) == us,
{
    let b = bytes_of_u16s(us);
    assert forall|i: int| 0 <= i < us.len() implies u16s_of_bytes(b)[i] == us[i] by {
        let lo = b.subrange(2 * i, 2 * i + 2)[0];
        let hi = b.subrange(2 * i, 2 * i + 2)[1];
        assert(lo == b[2 * i] && hi == b[2 * i + 1]);
        assert((2 * i) % 2 == 0 && (2 * i + 1) % 2 == 1 && (2 * i) / 2 == i && (2 * i + 1) / 2
            == i);
        let u = us[i];
        assert((u & 0xff) + ((u >> 8) & 0xff) * 0x100 == u) by (bit_vector);
        assert((u & 0xff) <= 0xff && ((u >> 8) & 0xff) <= 0xff) by (bit_vector);
    };
    assert(u16s_of_bytes(b) =~= us);
}

/// Reading back the little-endian bytes of an unsigned 32-bit value gives the
/// value.
pub proof fn lemma_le_bytes_u32_round_trip(v: u32)
    ensures
        le_bytes_of_u32(v).len() == 4,
        le_u32(le_bytes_of_u32(v)) == v,
{
    assert((v & 0xff) + ((v >> 8) & 0xff) * 0x100 + ((v >> 16) & 0xff) * 0x1_0000 + ((v >> 24)
        & 0xff) * 0x100_0000 == v) by (bit_vector);
    assert((v & 0xff) <= 0xff && ((v >> 8) & 0xff) <= 0xff && ((v >> 16) & 0xff) <= 0xff && ((v
        >> 24) & 0xff) <= 0xff) by (bit_vector);
}

/// The signed reading of the unsigned reading of a signed value is the value.
pub proof fn lemma_i32_u32_round_trip(v: i32)
    ensures
        i32_of_u32(u32_of_i32(v)) == v,
{
}

/// Decodes a length-prefixed string at `p`.
pub open spec fn take_fstring(b: Seq<u8>, p: int) -> Result<(Seq<char>, int), ParseError> {
    match take_i32(b, p) {
        None => Err(ParseError::Io),
        Some((len, p1)) => {
            if len == 0 {
                Ok((seq![], p1))
            } else if len > 0 {
                let n = len as int;
                match take_bytes(b, p1, n) {
                    None => Err(ParseError::Io),
                    Some((payload, p2)) => {
                        if payload[n - 1] == 0 && valid_utf8(payload.take(n - 1)) {
                            Ok((decode_utf8(payload.take(n - 1)), p2))
                        } else {
                            Err(ParseError::InvalidUtf8)
                        }
                    },
                }
            } else {
                let m = -(len as int);
                match take_bytes(b, p1, 2 * m) {
                    None => Err(ParseError::Io),
                    Some((payload, p2)) => {
                        let body = u16s_of_bytes(payload).take(m - 1);
                        if utf16_valid(body) {
                            Ok((utf16_decode(body), p2))
                        } else {
                            Err(ParseError::InvalidUtf16)
                        }
                    },
                }
            }
        },
    }
}

/// True when the text fits the 32-bit length prefix of the chosen branch.
pub open spec fn fstring_encodable(t: Seq<char>, wide: bool) -> bool {
    if t.len() == 0 {
        true
    } else if !wide {
        encode_utf8(t).len() + 1 <= 0x7fff_ffff
    } else {
        utf16_encode(t).len() + 1 <= 0x8000_0000
    }
}

/// The serialized bytes of a string: narrow (UTF-8, positive length) or wide
/// (UTF-16, negative length); the empty string is length 0 in either mode.
pub open spec fn fstring_bytes(t: Seq<char>, wide: bool) -> Seq<u8>
    recommends
        fstring_encodable(t, wide),
{
    if t.len() == 0 {
        le_bytes_of_u32(0)
    } else if !wide {
        let payload = encode_utf8(t);
        le_bytes_of_u32((payload.len() + 1) as u32) + payload + seq![0u8]
    } else {
        let units = utf16_encode(t);
        le_bytes_of_u32(u32_of_i32((-(units.len() + 1)) as i32)) + bytes_of_u16s(
            units.push(0u16),
        )
    }
}

/// Encoding a string and decoding the result, with anything at all after it,
/// returns the original text and stops exactly at the end of the encoding.
pub proof fn lemma_fstring_round_trip(t: Seq<char>, wide: bool, rest: Seq<u8>)
    requires
        fstring_encodable(t, wide),
    ensures
        take_fstring(fstring_bytes(t, wide) + rest, 0) == Ok::<(Seq<char>, int), ParseError>(
            (t, fstring_bytes(t, wide).len() as int),
        ),
{
    let enc = fstring_bytes(t, wide);
    let b = enc + rest;
    if t.len() == 0 {
        lemma_le_bytes_u32_round_trip(0);
        assert(b.subrange(0, 4) =~= le_bytes_of_u32(0));
        assert(i32_of_u32(0) == 0);
        assert(take_fstring(b, 0) == Ok::<(Seq<char>, int), ParseError>((seq![], 4)));
        assert(seq![] =~= t);
    } else if !wide {
        let payload = encode_utf8(t);
        let n = payload.len() as int;
        let stored = (n + 1) as u32;
        lemma_le_bytes_u32_round_trip(stored);
        assert(b.subrange(0, 4) =~= le_bytes_of_u32(stored));
        assert(i32_of_u32(stored) == n + 1);
        let body = b.subrange(4, 4 + n + 1);
        assert(body =~= payload + seq![0u8]);
        assert(body[n] == 0);
        assert(body.take(n) =~= payload);
        encode_utf8_valid_utf8(t);
        encode_utf8_decode_utf8(t);
        assert(enc.len() == 4 + n + 1);
    } else {
        let units = utf16_encode(t);
        let m = units.len() as int + 1;
        let stored = u32_of_i32((-m) as i32);
        lemma_le_bytes_u32_round_trip(stored);
        assert(b.subrange(0, 4) =~= le_bytes_of_u32(stored));
        lemma_i32_u32_round_trip((-m) as i32);
        let payload = b.subrange(4, 4 + 2 * m);
        lemma_u16s_bytes_round_trip(units.push(0u16));
        assert(payload =~= bytes_of_u16s(units.push(0u16)));
        assert(u16s_of_bytes(payload).take(m - 1) =~= units);
        lemma_utf16_encode_valid(t);
        lemma_utf16_round_trip(t);
        assert(enc.len() == 4 + 2 * m);
    }
}

/// Appends the little-endian bytes of an unsigned 32-bit value.
pub fn push_le_u32(out: &mut Vec<u8>, v: u32)
    ensures
        final(out)@ == old(out)@ + le_bytes_of_u32(v),
{
    assert((v & 0xff) <= 0xff && ((v >> 8) & 0xff) <= 0xff && ((v >> 16) & 0xff) <= 0xff && ((v
        >> 24) & 0xff) <= 0xff) by (bit_vector);
    out.push((v & 0xff) as u8);
    out.push(((v >> 8) & 0xff) as u8);
    out.push(((v >> 16) & 0xff) as u8);
    out.push(((v >> 24) & 0xff) as u8);
    assert(out@ =~= old(out)@ + le_bytes_of_u32(v));
}

/// Serializes a string in the chosen branch; fails exactly when the text does
/// not fit the 32-bit length prefix.
pub fn encode_fstring(s: &str, wide: bool) -> (r: Option<Vec<u8>>)
    ensures
        r matches Some(v) ==> fstring_encodable(s@, wide) && v@ == fstring_bytes(s@, wide),
        r is None ==> !fstring_encodable(s@, wide),
{
    let n = s.unicode_len();
    if n == 0 {
        let mut out: Vec<u8> = Vec::new();
        push_le_u32(&mut out, 0);
        assert(out@ =~= fstring_bytes(s@, wide));
        Some(out)
    } else if !wide {
        let payload = utf8_bytes_of_str(s);
        if payload.len() >= 0x7fff_ffff {
            return None;
        }
        let mut out: Vec<u8> = Vec::new();
        push_le_u32(&mut out, (payload.len() + 1) as u32);
        let mut i: usize = 0;
        while i < payload.len()
            invariant
                i <= payload.len(),
                payload@.len() < 0x7fff_ffff,
                out@ == le_bytes_of_u32((payload@.len() + 1) as u32) + payload@.take(i as int),
            decreases payload.len() - i,
        {
            out.push(payload[i]);
            proof {
                assert(payload@.take(i + 1 as int) =~= payload@.take(i as int).push(payload@[
                    i as int]));
                assert(out@ =~= le_bytes_of_u32((payload@.len() + 1) as u32) + payload@.take(
                    i + 1 as int));
            }
            i = i + 1;
        }
        out.push(0u8);
        proof {
            assert(payload@.take(payload@.len() as int) =~= payload@);
            assert(out@ =~= fstring_bytes(s@, wide));
        }
        Some(out)
    } else {
        let units = utf16_units_of_str(s);
        if units.len() >= 0x8000_0000 {
            return None;
        }
        let m = units.len() + 1;
        let stored: u32 = (0x1_0000_0000u64 - m as u64) as u32;
        proof {
            assert(stored == u32_of_i32((-(units@.len() + 1)) as i32));
        }
        let mut out: Vec<u8> = Vec::new();
        push_le_u32(&mut out, stored);
        let ghost all_units = units@.push(0u16);
        let mut i: usize = 0;
        while i < units.len()
            invariant
                i <= units.len(),
                all_units == units@.push(0u16),
                out@ == le_bytes_of_u32(stored) + bytes_of_u16s(all_units.take(i as int)),
            decreases units.len() - i,
        {
            let u = units[i];
            assert((u & 0xff) <= 0xff && ((u >> 8) & 0xff) <= 0xff) by (bit_vector);
            out.push((u & 0xff) as u8);
            out.push(((u >> 8) & 0xff) as u8);
            proof {
                assert(all_units.take(i as int) =~= units@.take(i as int));
                assert(all_units.take(i + 1 as int) =~= units@.take(i + 1 as int));
                assert(out@ =~= le_bytes_of_u32(stored) + bytes_of_u16s(all_units.take(
                    i + 1 as int)));
            }
            i = i + 1;
        }
        out.push(0u8);
        out.push(0u8);
        proof {
            assert(all_units.take(units@.len() as int) =~= units@);
            assert(0u16 & 0xff == 0 && (0u16 >> 8) & 0xff == 0) by (bit_vector);
            assert(out@ =~= le_bytes_of_u32(stored) + bytes_of_u16s(all_units));
            assert(out@ =~= fstring_bytes(s@, wide));
        }
        Some(out)
    }
}

} // verus!
