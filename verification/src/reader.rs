//! A seekable reader over an in-memory byte buffer.
//!
//! Every read method's contract matches the corresponding `take_*`
//! specification exactly: on success the value is returned and the cursor
//! advances past it; on failure the cursor is unchanged.

use crate::bytes::i32_of_u32;
use crate::bytes::i64_of_u64;
use crate::bytes::le_u16;
use crate::bytes::le_u32;
use crate::bytes::le_u64;
use crate::bytes::skip_pos;
use crate::bytes::take_bytes;
use crate::bytes::take_i32;
use crate::bytes::take_i64;
use crate::bytes::take_u8;
use crate::bytes::take_u16;
use crate::bytes::take_u32;
use crate::bytes::take_u64;
use crate::bytes::u32_to_i32;
use crate::bytes::u64_to_i64;
use crate::errors::ParseError;
use crate::fstring::take_fstring;
use crate::fstring::u16s_of_bytes;
use crate::text::chars_from_utf16_units;
use crate::text::string_from_chars;
use crate::text::string_from_utf8_bytes;
use crate::unreal_types::take_fname;
use crate::unreal_types::FName;
use vstd::prelude::*;

verus! {

/// A byte source with a seekable cursor.
pub struct UassetReader {
    /// The whole byte content of the package file.
    pub data: Vec<u8>,
    /// Current cursor position; never beyond the end of `data`.
    pub pos: usize,
}

impl UassetReader {
    /// The cursor never passes the end of the data.
    pub open spec fn wf(self) -> bool {
        self.pos <= self.data@.len()
    }

    /// Wraps a byte buffer with the cursor at the start.
    pub fn new(data: Vec<u8>) -> (r: Self)
        ensures
            r.wf(),
            r.data@ == data@,
            r.pos == 0,
    {
        UassetReader { data, pos: 0 }
    }

    /// Moves the cursor to `offset`, stopping at the end of the data.
    pub fn seek_to(&mut self, offset: usize)
        ensures
            final(self).wf(),
            final(self).data == old(self).data,
            final(self).pos as int == skip_pos(old(self).data@, 0, offset as int),
    {
        if offset <= self.data.len() {
            self.pos = offset;
        } else {
            self.pos = self.data.len();
        }
    }

    /// Moves the cursor forward by `n` bytes, stopping at the end of the
    /// data; skipping past the end is not an error.
    pub fn skip_bytes(&mut self, n: usize)
        requires
            old(self).wf(),
        ensures
            final(self).wf(),
            final(self).data == old(self).data,
            final(self).pos as int == skip_pos(old(self).data@, old(self).pos as int, n as int),
    {
        if n <= self.data.len() - self.pos {
            self.pos = self.pos + n;
        } else {
            self.pos = self.data.len();
        }
    }

    /// Reads one byte.
    pub fn read_u8(&mut self) -> (r: Result<u8, ParseError>)
        requires
            old(self).wf(),
        ensures
            final(self).wf(),
            final(self).data == old(self).data,
            match take_u8(old(self).data@, old(self).pos as int) {
                Some((v, q)) => r == Ok::<u8, ParseError>(v) && final(self).pos == q,
                None => r == Err::<u8, ParseError>(ParseError::Io) && final(self).pos == old(
                    self,
                ).pos,
            },
    {
        if self.data.len() - self.pos >= 1 {
            let v = self.data[self.pos];
            self.pos = self.pos + 1;
            Ok(v)
        } else {
            Err(ParseError::Io)
        }
    }

    /// Reads a little-endian unsigned 16-bit integer.
    pub fn read_u16(&mut self) -> (r: Result<u16, ParseError>)
        requires
            old(self).wf(),
        ensures
            final(self).wf(),
            final(self).data == old(self).data,
            match take_u16(old(self).data@, old(self).pos as int) {
                Some((v, q)) => r == Ok::<u16, ParseError>(v) && final(self).pos == q,
                None => r == Err::<u16, ParseError>(ParseError::Io) && final(self).pos == old(
                    self,
                ).pos,
            },
    {
        if self.data.len() - self.pos >= 2 {
            let b0 = self.data[self.pos];
            let b1 = self.data[self.pos + 1];
            let v: u16 = b0 as u16 + b1 as u16 * 0x100;
            proof {
                let s = self.data@.subrange(self.pos as int, self.pos + 2);
                assert(s[0] == b0 && s[1] == b1);
                assert(v == le_u16(s));
            }
            self.pos = self.pos + 2;
            Ok(v)
        } else {
            Err(ParseError::Io)
        }
    }

    /// Reads a little-endian unsigned 32-bit integer.
    pub fn read_u32(&mut self) -> (r: Result<u32, ParseError>)
        requires
            old(self).wf(),
        ensures
            final(self).wf(),
            final(self).data == old(self).data,
            match take_u32(old(self).data@, old(self).pos as int) {
                Some((v, q)) => r == Ok::<u32, ParseError>(v) && final(self).pos == q,
                None => r == Err::<u32, ParseError>(ParseError::Io) && final(self).pos == old(
                    self,
                ).pos,
            },
    {
        if self.data.len() - self.pos >= 4 {
            let b0 = self.data[self.pos];
            let b1 = self.data[self.pos + 1];
            let b2 = self.data[self.pos + 2];
            let b3 = self.data[self.pos + 3];
            let v: u32 = b0 as u32 + b1 as u32 * 0x100 + b2 as u32 * 0x1_0000 + b3 as u32
                * 0x100_0000;
            proof {
                let s = self.data@.subrange(self.pos as int, self.pos + 4);
                assert(s[0] == b0 && s[1] == b1 && s[2] == b2 && s[3] == b3);
                assert(v == le_u32(s));
            }
            self.pos = self.pos + 4;
            Ok(v)
        } else {
            Err(ParseError::Io)
        }
    }

    /// Reads a little-endian signed 32-bit integer.
    pub fn read_i32(&mut self) -> (r: Result<i32, ParseError>)
        requires
            old(self).wf(),
        ensures
            final(self).wf(),
            final(self).data == old(self).data,
            match take_i32(old(self).data@, old(self).pos as int) {
                Some((v, q)) => r == Ok::<i32, ParseError>(v) && final(self).pos == q,
                None => r == Err::<i32, ParseError>(ParseError::Io) && final(self).pos == old(
                    self,
                ).pos,
            },
    {
        match self.read_u32() {
            Ok(v) => Ok(u32_to_i32(v)),
            Err(e) => Err(e),
        }
    }

    /// Reads a little-endian unsigned 64-bit integer.
    pub fn read_u64(&mut self) -> (r: Result<u64, ParseError>)
        requires
            old(self).wf(),
        ensures
            final(self).wf(),
            final(self).data == old(self).data,
            match take_u64(old(self).data@, old(self).pos as int) {
                Some((v, q)) => r == Ok::<u64, ParseError>(v) && final(self).pos == q,
                None => r == Err::<u64, ParseError>(ParseError::Io) && final(self).pos == old(
                    self,
                ).pos,
            },
    {
        if self.data.len() - self.pos >= 8 {
            let ghost s = self.data@.subrange(self.pos as int, self.pos + 8);
            let lo = match self.read_u32() {
                Ok(v) => v,
                Err(_) => vstd::pervasive::unreached(),
            };
            let hi = match self.read_u32() {
                Ok(v) => v,
                Err(_) => vstd::pervasive::unreached(),
            };
            let v: u64 = lo as u64 + hi as u64 * 0x1_0000_0000;
            proof {
                assert(s.subrange(0, 4) =~= old(self).data@.subrange(
                    old(self).pos as int,
                    old(self).pos + 4,
                ));
                assert(s.skip(4) =~= old(self).data@.subrange(
                    old(self).pos + 4,
                    old(self).pos + 8,
                ));
                assert(le_u32(s) == le_u32(s.subrange(0, 4))) by {
                    assert(s.subrange(0, 4)[0] == s[0] && s.subrange(0, 4)[1] == s[1] && s.subrange(
                        0,
                        4,
                    )[2] == s[2] && s.subrange(0, 4)[3] == s[3]);
                }
                assert(v == le_u64(s));
            }
            Ok(v)
        } else {
            Err(ParseError::Io)
        }
    }

    /// Reads a little-endian signed 64-bit integer.
    pub fn read_i64(&mut self) -> (r: Result<i64, ParseError>)
        requires
            old(self).wf(),
        ensures
            final(self).wf(),
            final(self).data == old(self).data,
            match take_i64(old(self).data@, old(self).pos as int) {
                Some((v, q)) => r == Ok::<i64, ParseError>(v) && final(self).pos == q,
                None => r == Err::<i64, ParseError>(ParseError::Io) && final(self).pos == old(
                    self,
                ).pos,
            },
    {
        match self.read_u64() {
            Ok(v) => Ok(u64_to_i64(v)),
            Err(e) => Err(e),
        }
    }

    /// Reads `n` raw bytes.
    pub fn read_bytes(&mut self, n: usize) -> (r: Result<Vec<u8>, ParseError>)
        requires
            old(self).wf(),
        ensures
            final(self).wf(),
            final(self).data == old(self).data,
            match take_bytes(old(self).data@, old(self).pos as int, n as int) {
                Some((v, q)) => (r matches Ok(b) && b@ == v) && final(self).pos == q,
                None => r == Err::<Vec<u8>, ParseError>(ParseError::Io) && final(self).pos == old(
                    self,
                ).pos,
            },
    {
        if self.data.len() - self.pos >= n {
            let s = vstd::slice::slice_subrange(self.data.as_slice(), self.pos, self.pos + n);
            let v = vstd::slice::slice_to_vec(s);
            self.pos = self.pos + n;
            Ok(v)
        } else {
            Err(ParseError::Io)
        }
    }

    /// Reads a raw name reference: two signed 32-bit integers.
    pub fn read_fname(&mut self) -> (r: Result<FName, ParseError>)
        requires
            old(self).wf(),
        ensures
            final(self).wf(),
            final(self).data == old(self).data,
            match take_fname(old(self).data@, old(self).pos as int) {
                Some((f, q)) => r == Ok::<FName, ParseError>(f) && final(self).pos == q,
                None => r == Err::<FName, ParseError>(ParseError::Io) && final(self).pos == old(
                    self,
                ).pos,
            },
    {
        let start = self.pos;
        let index = match self.read_i32() {
            Ok(v) => v,
            Err(e) => {
                return Err(e);
            },
        };
        let number = match self.read_i32() {
            Ok(v) => v,
            Err(e) => {
                self.pos = start;
                return Err(e);
            },
        };
        Ok(FName { index, number })
    }

    /// Reads a length-prefixed string.
    pub fn read_fstring(&mut self) -> (r: Result<String, ParseError>)
        requires
            old(self).wf(),
        ensures
            final(self).wf(),
            final(self).data == old(self).data,
            match take_fstring(old(self).data@, old(self).pos as int) {
                Ok((t, q)) => (r matches Ok(s) && s@ == t) && final(self).pos == q,
                Err(e) => r == Err::<String, ParseError>(e) && final(self).pos == old(self).pos,
            },
    {
        let start = self.pos;
        let len = match self.read_i32() {
            Ok(v) => v,
            Err(e) => {
                return Err(e);
            },
        };
        if len == 0 {
            Ok(String::new())
        } else if len > 0 {
            let n = len as usize;
            let mut payload = match self.read_bytes(n) {
                Ok(v) => v,
                Err(e) => {
                    self.pos = start;
                    return Err(e);
                },
            };
            if payload[n - 1] != 0 {
                self.pos = start;
                return Err(ParseError::InvalidUtf8);
            }
            payload.truncate(n - 1);
            proof {
                assert(payload@ =~= old(self).data@.subrange(
                    start + 4,
                    start + 4 + len as int,
                ).take(len - 1));
            }
            match string_from_utf8_bytes(payload) {
                Ok(s) => Ok(s),
                Err(e) => {
                    self.pos = start;
                    Err(e)
                },
            }
        } else {
            let m = (-(len as i64)) as usize;
            if (self.data.len() - self.pos) / 2 < m {
                self.pos = start;
                return Err(ParseError::Io);
            }
            let payload = match self.read_bytes(2 * m) {
                Ok(v) => v,
                Err(_) => vstd::pervasive::unreached(),
            };
            let mut units: Vec<u16> = Vec::new();
            let mut j: usize = 0;
            while j < m
                invariant
                    j <= m,
                    2 * m <= usize::MAX,
                    payload@.len() == 2 * m,
                    units@ == u16s_of_bytes(payload@).take(j as int),
                decreases m - j,
            {
                let b0 = payload[2 * j];
                let b1 = payload[2 * j + 1];
                let u: u16 = b0 as u16 + b1 as u16 * 0x100;
                proof {
                    let s = payload@.subrange(2 * j as int, 2 * j + 2);
                    assert(s[0] == b0 && s[1] == b1);
                    assert(u == le_u16(s));
                    assert(u16s_of_bytes(payload@).take(j + 1 as int) =~= u16s_of_bytes(
                        payload@,
                    ).take(j as int).push(u));
                }
                units.push(u);
                j = j + 1;
            }
            let mut body = units;
            body.truncate(m - 1);
            proof {
                assert(u16s_of_bytes(payload@).take(m as int) =~= u16s_of_bytes(payload@));
                assert(body@ =~= u16s_of_bytes(payload@).take(m - 1));
            }
            match chars_from_utf16_units(&body) {
                Ok(cs) => Ok(string_from_chars(&cs)),
                Err(e) => {
                    self.pos = start;
                    Err(e)
                },
            }
        }
    }
}

} // verus!
