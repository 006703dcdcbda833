//! Little-endian primitive codecs over byte sequences.
//!
//! The `le_*` spec functions give the value of a fixed-width little-endian
//! integer at the start of a byte sequence; the `take_*` spec functions read
//! one at a position and return the value with the position after it, or
//! `None` when the sequence is too short. Executable readers live in
//! [`crate::reader`].

use vstd::prelude::*;

verus! {

/// The unsigned 16-bit value of the first two bytes, little endian.
pub open spec fn le_u16(b: Seq<u8>) -> u16
    recommends
        b.len() >= 2,
{
    (b[0] + b[1] * 0x100) as u16
}

/// The unsigned 32-bit value of the first four bytes, little endian.
pub open spec fn le_u32(b: Seq<u8>) -> u32
    recommends
        b.len() >= 4,
{
    (b[0] + b[1] * 0x100 + b[2] * 0x1_0000 + b[3] * 0x100_0000) as u32
}

/// The unsigned 64-bit value of the first eight bytes, little endian.
pub open spec fn le_u64(b: Seq<u8>) -> u64
    recommends
        b.len() >= 8,
{
    (le_u32(b) + le_u32(b.skip(4)) * 0x1_0000_0000) as u64
}

/// The signed value, in two's complement, of an unsigned 32-bit value.
pub open spec fn i32_of_u32(v: u32) -> i32 {
    if v < 0x8000_0000 {
        v as i32
    } else {
        (v - 0x1_0000_0000) as i32
    }
}

/// The signed value, in two's complement, of an unsigned 64-bit value.
pub open spec fn i64_of_u64(v: u64) -> i64 {
    if v < 0x8000_0000_0000_0000 {
        v as i64
    } else {
        (v - 0x1_0000_0000_0000_0000) as i64
    }
}

/// Reads `n` raw bytes at `p`.
pub open spec fn take_bytes(b: Seq<u8>, p: int, n: int) -> Option<(Seq<u8>, int)> {
    if 0 <= p && 0 <= n && p + n <= b.len() {
        Some((b.subrange(p, p + n), p + n))
    } else {
        None
    }
}

/// Reads one byte at `p`.
pub open spec fn take_u8(b: Seq<u8>, p: int) -> Option<(u8, int)> {
    if 0 <= p && p + 1 <= b.len() {
        Some((b[p], p + 1))
    } else {
        None
    }
}

/// Reads a little-endian `u16` at `p`.
pub open spec fn take_u16(b: Seq<u8>, p: int) -> Option<(u16, int)> {
    if 0 <= p && p + 2 <= b.len() {
        Some((le_u16(b.subrange(p, p + 2)), p + 2))
    } else {
        None
    }
}

/// Reads a little-endian `u32` at `p`.
pub open spec fn take_u32(b: Seq<u8>, p: int) -> Option<(u32, int)> {
    if 0 <= p && p + 4 <= b.len() {
        Some((le_u32(b.subrange(p, p + 4)), p + 4))
    } else {
        None
    }
}

/// Reads a little-endian `i32` at `p`.
pub open spec fn take_i32(b: Seq<u8>, p: int) -> Option<(i32, int)> {
    match take_u32(b, p) {
        Some((v, q)) => Some((i32_of_u32(v), q)),
        None => None,
    }
}

/// Reads a little-endian `u64` at `p`.
pub open spec fn take_u64(b: Seq<u8>, p: int) -> Option<(u64, int)> {
    if 0 <= p && p + 8 <= b.len() {
        Some((le_u64(b.subrange(p, p + 8)), p + 8))
    } else {
        None
    }
}

/// Reads a little-endian `i64` at `p`.
pub open spec fn take_i64(b: Seq<u8>, p: int) -> Option<(i64, int)> {
    match take_u64(b, p) {
        Some((v, q)) => Some((i64_of_u64(v), q)),
        None => None,
    }
}

/// The position after skipping `n` bytes from `p`, stopping at the end of the
/// sequence; a skip beyond the end is not an error.
pub open spec fn skip_pos(b: Seq<u8>, p: int, n: int) -> int {
    if p + n <= b.len() {
        p + n
    } else {
        b.len() as int
    }
}

/// Converts an unsigned 32-bit value to its two's-complement signed reading.
pub fn u32_to_i32(v: u32) -> (r: i32)
    ensures
        r == i32_of_u32(v),
{
    if v < 0x8000_0000 {
        v as i32
    } else {
        -((0xffff_ffffu32 - v) as i32) - 1
    }
}

/// Converts an unsigned 64-bit value to its two's-complement signed reading.
pub fn u64_to_i64(v: u64) -> (r: i64)
    ensures
        r == i64_of_u64(v),
{
    if v < 0x8000_0000_0000_0000 {
        v as i64
    } else {
        -((0xffff_ffff_ffff_ffffu64 - v) as i64) - 1
    }
}

} // verus!
