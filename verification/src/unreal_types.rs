//! The interned-string reference ("FName"): an index into the package's name
//! table plus an instance number. Decoding the raw pair never fails;
//! resolution against a name table happens separately: an index outside the
//! table becomes an explicit invalid-name text carrying the raw index, and
//! the reserved text `"None"` is the logical absence marker.

use crate::bytes::take_i32;
use crate::text::string_from_chars;
use vstd::prelude::*;

verus! {

/// A reference into the package-local name table.
#[derive(Debug, Clone, Copy, PartialEq, Eq, Structural)]
pub struct FName {
    /// Index into the name table; an index outside the table is an explicit
    /// invalid name, never silently remapped.
    pub index: i32,
    /// Instance number distinguishing repeated uses of the same text.
    pub number: i32,
}

/// Decodes the raw (index, instance-number) pair at `p`.
pub open spec fn take_fname(b: Seq<u8>, p: int) -> Option<(FName, int)> {
    match take_i32(b, p) {
        None => None,
        Some((index, p1)) => match take_i32(b, p1) {
            None => None,
            Some((number, p2)) => Some((FName { index, number }, p2)),
        },
    }
}

/// The character for one decimal digit.
pub open spec fn digit_char(d: nat) -> char {
    if d == 0 {
        '0'
    } else if d == 1 {
        '1'
    } else if d == 2 {
        '2'
    } else if d == 3 {
        '3'
    } else if d == 4 {
        '4'
    } else if d == 5 {
        '5'
    } else if d == 6 {
        '6'
    } else if d == 7 {
        '7'
    } else if d == 8 {
        '8'
    } else {
        '9'
    }
}

/// The decimal digits of a non-negative number, most significant first.
pub open spec fn dec_digits(n: nat) -> Seq<char>
    decreases n,
{
    if n < 10 {
        seq![digit_char(n)]
    } else {
        dec_digits(n / 10) + seq![digit_char(n % 10)]
    }
}

/// The decimal text of an integer, with a leading minus sign when negative.
pub open spec fn int_text(i: int) -> Seq<char> {
    if i < 0 {
        seq!['-'] + dec_digits((-i) as nat)
    } else {
        dec_digits(i as nat)
    }
}

/// The text that stands for a name index outside the table: an explicit
/// invalid-name marker carrying the raw index.
pub open spec fn invalid_name_text(index: i32) -> Seq<char> {
    seq!['I', 'n', 'v', 'a', 'l', 'i', 'd', 'N', 'a', 'm', 'e', '_'] + int_text(index as int)
}

/// The text a name reference resolves to: the table entry at its index, or
/// the invalid-name text when the index is outside the table.
pub open spec fn spec_name_text(names: Seq<Seq<char>>, f: FName) -> Seq<char> {
    if 0 <= f.index && f.index < names.len() {
        names[f.index as int]
    } else {
        invalid_name_text(f.index)
    }
}

/// The reserved text that marks logical absence.
pub open spec fn none_marker() -> Seq<char> {
    seq!['N', 'o', 'n', 'e']
}

/// Resolution with the absence marker folded in: `None` exactly when the
/// reference resolves, in bounds, to the reserved text.
pub open spec fn spec_resolve_name(names: Seq<Seq<char>>, f: FName) -> Option<Seq<char>> {
    if spec_name_text(names, f) == none_marker() {
        None
    } else {
        Some(spec_name_text(names, f))
    }
}

/// Appends the decimal digits of `n`, as [`dec_digits`] states.
fn push_dec_digits(out: &mut Vec<char>, n: u64)
    ensures
        final(out)@ == old(out)@ + dec_digits(n as nat),
    decreases n,
{
    if n >= 10 {
        push_dec_digits(out, n / 10);
    }
    let d = (n % 10) as u8;
    let c: char = if d == 0 {
        '0'
    } else if d == 1 {
        '1'
    } else if d == 2 {
        '2'
    } else if d == 3 {
        '3'
    } else if d == 4 {
        '4'
    } else if d == 5 {
        '5'
    } else if d == 6 {
        '6'
    } else if d == 7 {
        '7'
    } else if d == 8 {
        '8'
    } else {
        '9'
    };
    out.push(c);
    proof {
        if n < 10 {
            assert(n as nat % 10 == n as nat);
            assert(out@ =~= old(out)@ + dec_digits(n as nat));
        } else {
            assert(out@ =~= old(out)@ + dec_digits(n as nat));
        }
    }
}

/// The decimal text of a signed 32-bit integer, as [`int_text`] states.
pub fn i32_text(v: i32) -> (s: String)
    ensures
        s@ == int_text(v as int),
{
    let mut chars: Vec<char> = Vec::new();
    if v < 0 {
        chars.push('-');
        let m = (-(v as i64)) as u64;
        push_dec_digits(&mut chars, m);
        proof {
            assert(chars@ =~= int_text(v as int));
        }
    } else {
        push_dec_digits(&mut chars, v as u64);
        proof {
            assert(chars@ =~= int_text(v as int));
        }
    }
    string_from_chars(&chars)
}

/// The text a name reference resolves to, as [`spec_name_text`] states.
pub fn name_text(names: &Vec<String>, f: FName) -> (s: String)
    ensures
        s@ == spec_name_text(names.deep_view(), f),
{
    if f.index >= 0 && (f.index as usize) < names.len() {
        names[f.index as usize].clone()
    } else {
        let mut chars: Vec<char> = Vec::new();
        chars.push('I');
        chars.push('n');
        chars.push('v');
        chars.push('a');
        chars.push('l');
        chars.push('i');
        chars.push('d');
        chars.push('N');
        chars.push('a');
        chars.push('m');
        chars.push('e');
        chars.push('_');
        if f.index < 0 {
            chars.push('-');
            push_dec_digits(&mut chars, (-(f.index as i64)) as u64);
        } else {
            push_dec_digits(&mut chars, f.index as u64);
        }
        proof {
            assert(chars@ =~= invalid_name_text(f.index));
        }
        string_from_chars(&chars)
    }
}

/// Whether a string holds exactly the reserved absence marker.
pub fn text_is_none_marker(text: &String) -> (r: bool)
    ensures
        r == (text@ == none_marker()),
{
    let bytes = text.as_str().as_bytes();
    let is_marker: bool = if bytes.len() == 4 {
        let b0 = *vstd::slice::slice_index_get(bytes, 0);
        let b1 = *vstd::slice::slice_index_get(bytes, 1);
        let b2 = *vstd::slice::slice_index_get(bytes, 2);
        let b3 = *vstd::slice::slice_index_get(bytes, 3);
        let m = b0 == 78 && b1 == 111 && b2 == 110 && b3 == 101;
        proof {
            if m {
                assert(bytes@ =~= seq![78u8, 111u8, 110u8, 101u8]);
            }
        }
        m
    } else {
        false
    };
    proof {
        lemma_none_marker_bytes(text@);
    }
    is_marker
}

/// Whether a name reference resolves to the reserved absence marker.
pub fn name_is_none(names: &Vec<String>, f: FName) -> (r: bool)
    ensures
        r == (spec_name_text(names.deep_view(), f) == none_marker()),
{
    let text = name_text(names, f);
    text_is_none_marker(&text)
}

/// Resolves a name reference, as [`spec_resolve_name`] states: the named
/// text, or `None` for the reserved absence marker.
pub fn resolve_name_in(names: &Vec<String>, f: FName) -> (r: Option<String>)
    ensures
        match spec_resolve_name(names.deep_view(), f) {
            Some(t) => r matches Some(s) && s@ == t,
            None => r is None,
        },
{
    let text = name_text(names, f);
    if text_is_none_marker(&text) {
        None
    } else {
        Some(text)
    }
}

/// A character sequence is the reserved absence marker exactly when its UTF-8
/// bytes are the four bytes of `None`.
proof fn lemma_none_marker_bytes(t: Seq<char>)
    ensures
        (vstd::utf8::encode_utf8(t) == seq![78u8, 111u8, 110u8, 101u8]) == (t == none_marker()),
{
    let nm = none_marker();
    assert(vstd::utf8::encode_utf8(nm) =~= seq![78u8, 111u8, 110u8, 101u8]) by {
        assert(vstd::utf8::is_ascii_chars(nm)) by {
            assert(forall|i: int|
                0 <= i < nm.len() ==> '\0' <= #[trigger] nm[i] <= '\u{7f}');
        }
        vstd::utf8::is_ascii_chars_encode_utf8(nm);
        assert(nm[0] as u8 == 78u8 && nm[1] as u8 == 111u8 && nm[2] as u8 == 110u8 && nm[3] as u8
            == 101u8);
    }
    if t == nm {
    } else if vstd::utf8::encode_utf8(t) == seq![78u8, 111u8, 110u8, 101u8] {
        vstd::utf8::encode_utf8_decode_utf8(t);
        vstd::utf8::encode_utf8_decode_utf8(nm);
        assert(t == nm);
    }
}

} // verus!
