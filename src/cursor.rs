use vstd::prelude::*;

use crate::error::{decoded, DeviceError, DeviceResult};

verus! {

/// The error of `String::from_utf8`, carried through unopened.
#[verifier::external_type_specification]
#[verifier::external_body]
pub struct ExFromUtf8Error(std::string::FromUtf8Error);

/// The text that `String::from_utf8` makes of a byte sequence: `Some` with
/// the characters when the bytes are valid UTF-8, `None` otherwise.
pub uninterp spec fn utf8_text(b: Seq<u8>) -> Option<Seq<char>>;

/// Relies on `String::from_utf8`: it succeeds exactly on valid UTF-8, its
/// result depends on the bytes alone, and an empty input gives the empty
/// string.
#[verifier::external_body]
fn string_from_utf8(b: Vec<u8>) -> (r: Result<String, std::string::FromUtf8Error>)
    ensures
        r is Ok <==> utf8_text(b@) is Some,
        r is Ok ==> r->Ok_0@ == utf8_text(b@)->Some_0,
        b@.len() == 0 ==> (r is Ok && r->Ok_0@.len() == 0),
{
    String::from_utf8(b)
}

/// The little-endian value of two bytes.
pub open spec fn le_u16(b0: u8, b1: u8) -> u16 {
    (b0 as int + 256 * b1 as int) as u16
}

/// The little-endian value of four bytes.
pub open spec fn le_u32(b0: u8, b1: u8, b2: u8, b3: u8) -> u32 {
    (b0 as int + 256 * b1 as int + 65536 * b2 as int + 16777216 * b3 as int) as u32
}

/// One byte at `p`, and the position after it.
pub open spec fn spec_read_u8(s: Seq<u8>, p: int) -> Result<(u8, int), DeviceError> {
    if 0 <= p < s.len() {
        Ok((s[p], p + 1))
    } else {
        Err(DeviceError::OutOfData)
    }
}

/// A little-endian `u16` at `p`.
pub open spec fn spec_read_u16(s: Seq<u8>, p: int) -> Result<(u16, int), DeviceError> {
    if 0 <= p && p + 2 <= s.len() {
        Ok((le_u16(s[p], s[p + 1]), p + 2))
    } else {
        Err(DeviceError::OutOfData)
    }
}

/// A little-endian `u32` at `p`.
pub open spec fn spec_read_u32(s: Seq<u8>, p: int) -> Result<(u32, int), DeviceError> {
    if 0 <= p && p + 4 <= s.len() {
        Ok((le_u32(s[p], s[p + 1], s[p + 2], s[p + 3]), p + 4))
    } else {
        Err(DeviceError::OutOfData)
    }
}

/// A byte read as a flag: any value but zero is true.
pub open spec fn spec_read_bool(s: Seq<u8>, p: int) -> Result<(bool, int), DeviceError> {
    match spec_read_u8(s, p) {
        Ok((b, q)) => Ok((b != 0, q)),
        Err(e) => Err(e),
    }
}

/// A compact length: one byte below `0xFF` is the length itself; the byte
/// `0xFF` announces a little-endian `u16` that follows.
pub open spec fn spec_read_compact_length(s: Seq<u8>, p: int) -> Result<(u16, int), DeviceError> {
    match spec_read_u8(s, p) {
        Ok((b, q)) => if b == 0xff {
            spec_read_u16(s, q)
        } else {
            Ok((b as u16, q))
        },
        Err(e) => Err(e),
    }
}

/// A string: a compact length `n`, then `n` bytes of UTF-8 text.
pub open spec fn spec_read_string(s: Seq<u8>, p: int) -> Result<(Seq<char>, int), DeviceError> {
    match spec_read_compact_length(s, p) {
        Ok((n, q)) => if q + n <= s.len() {
            match utf8_text(s.subrange(q, q + n)) {
                Some(t) => Ok((t, q + n)),
                None => Err(DeviceError::InvalidEncoding),
            }
        } else {
            Err(DeviceError::OutOfData)
        },
        Err(e) => Err(e),
    }
}

/// A string whose declared length runs past the end of the buffer fails with
/// `OutOfData`, however few bytes are missing: it never comes back empty or cut.
pub proof fn lemma_truncated_string(s: Seq<u8>, p: int)
    requires
        spec_read_compact_length(s, p) matches Ok((n, q)) && q + n > s.len(),
    ensures
        spec_read_string(s, p) == Err::<(Seq<char>, int), DeviceError>(DeviceError::OutOfData),
{
}

/// A forward-only reader over a byte buffer.
pub struct UhkCursor {
    data: Vec<u8>,
    pos: usize,
}

impl UhkCursor {
    /// The bytes being read.
    pub closed spec fn bytes(&self) -> Seq<u8> {
        self.data@
    }

    /// The index of the next byte to read.
    pub closed spec fn pos(&self) -> int {
        self.pos as int
    }

    pub fn new(data: Vec<u8>) -> (r: Self)
        ensures
            r.bytes() == data@,
            r.pos() == 0,
    {
        UhkCursor { data, pos: 0 }
    }

    /// How many bytes have been consumed so far.
    pub fn position(&self) -> (r: usize)
        ensures
            r == self.pos(),
    {
        self.pos
    }

    pub fn read_u8(&mut self) -> (r: DeviceResult<u8>)
        ensures
            final(self).bytes() == old(self).bytes(),
            decoded(r, spec_read_u8(old(self).bytes(), old(self).pos()), final(self).pos()),
            r is Err ==> final(self).pos() == old(self).pos(),
    {
        if self.pos < self.data.len() {
            let b = self.data[self.pos];
            self.pos = self.pos + 1;
            Ok(b)
        } else {
            Err(DeviceError::OutOfData)
        }
    }

    pub fn read_bool(&mut self) -> (r: DeviceResult<bool>)
        ensures
            final(self).bytes() == old(self).bytes(),
            decoded(r, spec_read_bool(old(self).bytes(), old(self).pos()), final(self).pos()),
            r is Err ==> final(self).pos() == old(self).pos(),
    {
        let b = self.read_u8()?;
        Ok(b != 0)
    }
    pub fn read_u16(&mut self) -> (r: DeviceResult<u16>)
        ensures
            final(self).bytes() == old(self).bytes(),
            decoded(r, spec_read_u16(old(self).bytes(), old(self).pos()), final(self).pos()),
            r is Err ==> final(self).pos() == old(self).pos(),
    {
        if self.pos <= self.data.len() && self.data.len() - self.pos >= 2 {
            let b0 = self.data[self.pos];
            let b1 = self.data[self.pos + 1];
            self.pos = self.pos + 2;
            Ok(b0 as u16 + (b1 as u16) * 256)
        } else {
            Err(DeviceError::OutOfData)
        }
    }

    pub fn read_u32(&mut self) -> (r: DeviceResult<u32>)
        ensures
            final(self).bytes() == old(self).bytes(),
            decoded(r, spec_read_u32(old(self).bytes(), old(self).pos()), final(self).pos()),
            r is Err ==> final(self).pos() == old(self).pos(),
    {
        if self.pos <= self.data.len() && self.data.len() - self.pos >= 4 {
            let b0 = self.data[self.pos];
            let b1 = self.data[self.pos + 1];
            let b2 = self.data[self.pos + 2];
            let b3 = self.data[self.pos + 3];
            self.pos = self.pos + 4;
            Ok(b0 as u32 + (b1 as u32) * 256 + (b2 as u32) * 65536 + (b3 as u32) * 16777216)
        } else {
            Err(DeviceError::OutOfData)
        }
    }

    pub fn read_compact_length(&mut self) -> (r: DeviceResult<u16>)
        ensures
            final(self).bytes() == old(self).bytes(),
            decoded(
                r,
                spec_read_compact_length(old(self).bytes(), old(self).pos()),
                final(self).pos(),
            ),
    {
        let length = self.read_u8()?;
        if length == 0xff {
            self.read_u16()
        } else {
            Ok(length as u16)
        }
    }

    pub fn read_string(&mut self) -> (r: DeviceResult<String>)
        ensures
            final(self).bytes() == old(self).bytes(),
            decoded(r, spec_read_string(old(self).bytes(), old(self).pos()), final(self).pos()),
    {
        let n = self.read_compact_length()? as usize;
        if self.pos <= self.data.len() && self.data.len() - self.pos >= n {
            let start = self.pos;
            let mut buf: Vec<u8> = Vec::with_capacity(n);
            let end = start + n;
            let mut i: usize = start;
            while i < end
                invariant
                    start <= i <= end,
                    end == start + n,
                    end <= self.data@.len(),
                    buf@ == self.data@.subrange(start as int, i as int),
                decreases end - i,
            {
                buf.push(self.data[i]);
                i = i + 1;
            }
            self.pos = end;
            match string_from_utf8(buf) {
                Ok(text) => Ok(text),
                Err(_) => Err(DeviceError::InvalidEncoding),
            }
        } else {
            Err(DeviceError::OutOfData)
        }
    }
}

} // verus!
