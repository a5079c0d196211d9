//! Wire-format reader and writer over plain byte buffers.
//!
//! Integers are big-endian; a `std::string` is a `u16` length followed by
//! the bytes; a long string uses a `u32` length; a `wstring` is a `u16`
//! count of UTF-16 code units followed by the units.

use vstd::prelude::*;
use crate::bytes::{
    be_u16, be_u32, be_u64, copy_range, get_u16, get_u32, get_u64, push_slice, push_u16,
    push_u32, push_u64, u16_of,
};
use crate::codec::{
    dec_bytes, dec_i16, dec_i32, dec_long_string, dec_string, dec_u16, dec_u32, dec_u64, dec_u8,
    dec_utf8, dec_v2s16, dec_v3s32, dec_wstring, enc_i16, enc_i32, enc_long_string, enc_string,
    enc_units, enc_wstring, lemma_enc_units_push, units_of, Decoded, ReadFail,
};
use vstd::string::StringSliceAdditionalSpecFns;
use crate::text::{decode_utf16, decode_utf8_bytes, encode_utf16, utf16_encode};

verus! {

/// Errors returned by the wire-format readers.
#[derive(Debug)]
pub enum WireError {
    UnexpectedEof { needed: usize, available: usize },
    InvalidUtf8,
    PayloadTooLong { got: usize, max: usize },
}

pub type WireResult<T> = Result<T, WireError>;

/// The error a reader reports for a failed read of a buffer of length `len`.
pub open spec fn wire_error(f: ReadFail, len: int) -> WireError {
    match f {
        ReadFail::Short { needed, at } => WireError::UnexpectedEof {
            needed: needed as usize,
            available: (len - at) as usize,
        },
        ReadFail::BadUtf8 { .. } => WireError::InvalidUtf8,
        ReadFail::BadUtf16 { .. } => WireError::InvalidUtf8,
    }
}

/// The value a reader returns for the outcome `d` on a buffer of length `len`.
pub open spec fn wire_result<T>(d: Decoded<T>, len: int) -> Result<T, WireError> {
    match d {
        Ok((v, _)) => Ok(v),
        Err(f) => Err(wire_error(f, len)),
    }
}

/// Position of the cursor after the outcome `d`.
pub open spec fn next_pos<T>(d: Decoded<T>) -> int {
    match d {
        Ok((_, q)) => q,
        Err(f) => f.at(),
    }
}

/// A byte-vector result seen as a sequence.
pub open spec fn bytes_result<E>(r: Result<Vec<u8>, E>) -> Result<Seq<u8>, E> {
    match r {
        Ok(v) => Ok(v@),
        Err(e) => Err(e),
    }
}

/// A string result seen as a character sequence.
pub open spec fn text_result<E>(r: Result<String, E>) -> Result<Seq<char>, E> {
    match r {
        Ok(s) => Ok(s@),
        Err(e) => Err(e),
    }
}

/// Reader over a `&[u8]` with a cursor.
#[derive(Debug)]
pub struct WireReader<'a> {
    data: &'a [u8],
    pos: usize,
}

impl<'a> WireReader<'a> {
    #[verifier::type_invariant]
    spec fn inv(&self) -> bool {
        self.pos <= self.data@.len()
    }

    /// The buffer being read.
    pub closed spec fn bytes(&self) -> Seq<u8> {
        self.data@
    }

    /// The cursor position.
    pub closed spec fn cursor(&self) -> int {
        self.pos as int
    }

    pub fn new(data: &'a [u8]) -> (r: Self)
        ensures
            r.bytes() == data@,
            r.cursor() == 0,
    {
        Self { data, pos: 0 }
    }

    pub fn remaining(&self) -> (r: usize)
        ensures
            r == self.bytes().len() - self.cursor(),
            self.bytes().len() <= usize::MAX,
    {
        proof {
            use_type_invariant(self);
        }
        self.data.len() - self.pos
    }

    pub fn position(&self) -> (r: usize)
        ensures
            r == self.cursor(),
    {
        self.pos
    }

    pub fn is_empty(&self) -> (r: bool)
        ensures
            r == (self.cursor() >= self.bytes().len()),
    {
        self.remaining() == 0
    }

    /// Returns the unread portion of the buffer.
    pub fn rest(&self) -> (r: &'a [u8])
        ensures
            r@ == self.bytes().subrange(self.cursor(), self.bytes().len() as int),
    {
        proof {
            use_type_invariant(self);
        }
        &self.data[self.pos..self.data.len()]
    }

    fn ensure(&self, n: usize) -> (r: WireResult<()>)
        ensures
            self.bytes().len() <= usize::MAX,
            r is Ok <==> self.cursor() + n <= self.bytes().len(),
            r is Err ==> r == Err::<(), WireError>(
                WireError::UnexpectedEof {
                    needed: n,
                    available: (self.bytes().len() - self.cursor()) as usize,
                },
            ),
    {
        let avail = self.remaining();
        if avail < n {
            return Err(WireError::UnexpectedEof { needed: n, available: avail });
        }
        Ok(())
    }

    pub fn read_u8(&mut self) -> (r: WireResult<u8>)
        ensures
            final(self).bytes() == old(self).bytes(),
            r == wire_result(dec_u8(old(self).bytes(), old(self).cursor()), old(self).bytes().len() as int),
            final(self).cursor() == next_pos(dec_u8(old(self).bytes(), old(self).cursor())),
    {
        proof {
            use_type_invariant(&*self);
        }
        self.ensure(1)?;
        let v = self.data[self.pos];
        self.pos = self.pos + 1;
        Ok(v)
    }

    pub fn read_u16(&mut self) -> (r: WireResult<u16>)
        ensures
            final(self).bytes() == old(self).bytes(),
            r == wire_result(dec_u16(old(self).bytes(), old(self).cursor()), old(self).bytes().len() as int),
            final(self).cursor() == next_pos(dec_u16(old(self).bytes(), old(self).cursor())),
    {
        proof {
            use_type_invariant(&*self);
        }
        self.ensure(2)?;
        let v = get_u16(self.data, self.pos);
        self.pos = self.pos + 2;
        Ok(v)
    }

    pub fn read_u32(&mut self) -> (r: WireResult<u32>)
        ensures
            final(self).bytes() == old(self).bytes(),
            r == wire_result(dec_u32(old(self).bytes(), old(self).cursor()), old(self).bytes().len() as int),
            final(self).cursor() == next_pos(dec_u32(old(self).bytes(), old(self).cursor())),
    {
        proof {
            use_type_invariant(&*self);
        }
        self.ensure(4)?;
        let v = get_u32(self.data, self.pos);
        self.pos = self.pos + 4;
        Ok(v)
    }

    pub fn read_u64(&mut self) -> (r: WireResult<u64>)
        ensures
            final(self).bytes() == old(self).bytes(),
            r == wire_result(dec_u64(old(self).bytes(), old(self).cursor()), old(self).bytes().len() as int),
            final(self).cursor() == next_pos(dec_u64(old(self).bytes(), old(self).cursor())),
    {
        proof {
            use_type_invariant(&*self);
        }
        self.ensure(8)?;
        let v = get_u64(self.data, self.pos);
        self.pos = self.pos + 8;
        Ok(v)
    }

    pub fn read_i16(&mut self) -> (r: WireResult<i16>)
        ensures
            final(self).bytes() == old(self).bytes(),
            r == wire_result(dec_i16(old(self).bytes(), old(self).cursor()), old(self).bytes().len() as int),
            final(self).cursor() == next_pos(dec_i16(old(self).bytes(), old(self).cursor())),
    {
        let v = self.read_u16()?;
        Ok(v as i16)
    }

    pub fn read_i32(&mut self) -> (r: WireResult<i32>)
        ensures
            final(self).bytes() == old(self).bytes(),
            r == wire_result(dec_i32(old(self).bytes(), old(self).cursor()), old(self).bytes().len() as int),
            final(self).cursor() == next_pos(dec_i32(old(self).bytes(), old(self).cursor())),
    {
        let v = self.read_u32()?;
        Ok(v as i32)
    }

    fn take(&mut self, len: usize) -> (r: WireResult<Vec<u8>>)
        ensures
            final(self).bytes() == old(self).bytes(),
            bytes_result(r) == wire_result(
                dec_bytes(old(self).bytes(), old(self).cursor(), len as nat),
                old(self).bytes().len() as int,
            ),
            final(self).cursor() == next_pos(dec_bytes(old(self).bytes(), old(self).cursor(), len as nat)),
    {
        proof {
            use_type_invariant(&*self);
        }
        self.ensure(len)?;
        let v = copy_range(self.data, self.pos, self.pos + len);
        self.pos = self.pos + len;
        Ok(v)
    }

    /// Read a `std::string` (u16 length + bytes).
    pub fn read_string(&mut self) -> (r: WireResult<Vec<u8>>)
        ensures
            final(self).bytes() == old(self).bytes(),
            bytes_result(r) == wire_result(dec_string(old(self).bytes(), old(self).cursor()), old(self).bytes().len() as int),
            final(self).cursor() == next_pos(dec_string(old(self).bytes(), old(self).cursor())),
    {
        let len = self.read_u16()?;
        self.take(len as usize)
    }

    /// Read a long string (u32 length + bytes), used for media data.
    pub fn read_long_string(&mut self) -> (r: WireResult<Vec<u8>>)
        ensures
            final(self).bytes() == old(self).bytes(),
            bytes_result(r) == wire_result(
                dec_long_string(old(self).bytes(), old(self).cursor()),
                old(self).bytes().len() as int,
            ),
            final(self).cursor() == next_pos(dec_long_string(old(self).bytes(), old(self).cursor())),
    {
        let len = self.read_u32()?;
        self.take(len as usize)
    }

    /// Read raw bytes of the given length (no length prefix).
    pub fn read_raw(&mut self, len: usize) -> (r: WireResult<Vec<u8>>)
        ensures
            final(self).bytes() == old(self).bytes(),
            bytes_result(r) == wire_result(
                dec_bytes(old(self).bytes(), old(self).cursor(), len as nat),
                old(self).bytes().len() as int,
            ),
            final(self).cursor() == next_pos(dec_bytes(old(self).bytes(), old(self).cursor(), len as nat)),
    {
        self.take(len)
    }

    /// Read a `std::string` and decode it as UTF-8.
    pub fn read_utf8(&mut self) -> (r: WireResult<String>)
        ensures
            final(self).bytes() == old(self).bytes(),
            text_result(r) == wire_result(dec_utf8(old(self).bytes(), old(self).cursor()), old(self).bytes().len() as int),
            final(self).cursor() == next_pos(dec_utf8(old(self).bytes(), old(self).cursor())),
    {
        let bytes = self.read_string()?;
        match decode_utf8_bytes(bytes) {
            Some(s) => Ok(s),
            None => Err(WireError::InvalidUtf8),
        }
    }

    /// Read a `wstring` (u16 length + UTF-16 code units).
    pub fn read_wstring(&mut self) -> (r: WireResult<String>)
        ensures
            final(self).bytes() == old(self).bytes(),
            text_result(r) == wire_result(dec_wstring(old(self).bytes(), old(self).cursor()), old(self).bytes().len() as int),
            final(self).cursor() == next_pos(dec_wstring(old(self).bytes(), old(self).cursor())),
    {
        let len = self.read_u16()?;
        let raw = self.take(2 * (len as usize))?;
        let units = units_from_bytes(&raw, len as usize);
        match decode_utf16(units.as_slice()) {
            Some(s) => Ok(s),
            None => Err(WireError::InvalidUtf8),
        }
    }

    /// Read a v3s32 (three i32s).
    pub fn read_v3s32(&mut self) -> (r: WireResult<(i32, i32, i32)>)
        ensures
            final(self).bytes() == old(self).bytes(),
            r == wire_result(dec_v3s32(old(self).bytes(), old(self).cursor()), old(self).bytes().len() as int),
            final(self).cursor() == next_pos(dec_v3s32(old(self).bytes(), old(self).cursor())),
    {
        let x = self.read_i32()?;
        let y = self.read_i32()?;
        let z = self.read_i32()?;
        Ok((x, y, z))
    }

    /// Read a v2s16 (two i16s).
    pub fn read_v2s16(&mut self) -> (r: WireResult<(i16, i16)>)
        ensures
            final(self).bytes() == old(self).bytes(),
            r == wire_result(dec_v2s16(old(self).bytes(), old(self).cursor()), old(self).bytes().len() as int),
            final(self).cursor() == next_pos(dec_v2s16(old(self).bytes(), old(self).cursor())),
    {
        let x = self.read_i16()?;
        let y = self.read_i16()?;
        Ok((x, y))
    }
}

/// The `n` big-endian code units held by the first `2 * n` bytes of `raw`.
pub fn units_from_bytes(raw: &Vec<u8>, n: usize) -> (units: Vec<u16>)
    requires
        raw@.len() == 2 * n,
    ensures
        units@ == units_of(raw@, n as nat),
{
    let total = raw.len();
    let mut units: Vec<u16> = Vec::with_capacity(n);
    let mut i: usize = 0;
    while i < n
        invariant
            i <= n,
            total == 2 * n,
            raw@.len() == 2 * n,
            units@ == units_of(raw@, i as nat),
        decreases n - i,
    {
        let cu = get_u16(raw.as_slice(), 2 * i);
        units.push(cu);
        i = i + 1;
        assert(units@ =~= units_of(raw@, i as nat));
    }
    units
}

impl<'a> Clone for WireReader<'a> {
    fn clone(&self) -> (r: Self)
        ensures
            r.bytes() == self.bytes(),
            r.cursor() == self.cursor(),
    {
        proof {
            use_type_invariant(self);
        }
        WireReader { data: self.data, pos: self.pos }
    }
}

/// Writer that appends to a `Vec<u8>`.
#[derive(Debug)]
pub struct WireWriter {
    buf: Vec<u8>,
}

impl View for WireWriter {
    type V = Seq<u8>;

    closed spec fn view(&self) -> Seq<u8> {
        self.buf@
    }
}

impl WireWriter {
    pub fn new() -> (w: Self)
        ensures
            w@ == Seq::<u8>::empty(),
    {
        Self { buf: Vec::new() }
    }

    pub fn with_capacity(cap: usize) -> (w: Self)
        ensures
            w@ == Seq::<u8>::empty(),
    {
        Self { buf: Vec::with_capacity(cap) }
    }

    pub fn into_bytes(self) -> (v: Vec<u8>)
        ensures
            v@ == self@,
    {
        self.buf
    }

    pub fn as_slice(&self) -> (s: &[u8])
        ensures
            s@ == self@,
    {
        self.buf.as_slice()
    }

    pub fn len(&self) -> (n: usize)
        ensures
            n == self@.len(),
    {
        self.buf.len()
    }

    pub fn is_empty(&self) -> (b: bool)
        ensures
            b == (self@.len() == 0),
    {
        self.buf.len() == 0
    }

    pub fn write_u8(&mut self, v: u8)
        ensures
            final(self)@ == old(self)@.push(v),
    {
        self.buf.push(v);
    }

    pub fn write_u16(&mut self, v: u16)
        ensures
            final(self)@ == old(self)@ + be_u16(v),
    {
        push_u16(&mut self.buf, v);
    }

    pub fn write_u32(&mut self, v: u32)
        ensures
            final(self)@ == old(self)@ + be_u32(v),
    {
        push_u32(&mut self.buf, v);
    }

    pub fn write_u64(&mut self, v: u64)
        ensures
            final(self)@ == old(self)@ + be_u64(v),
    {
        push_u64(&mut self.buf, v);
    }

    pub fn write_i16(&mut self, v: i16)
        ensures
            final(self)@ == old(self)@ + enc_i16(v),
    {
        self.write_u16(v as u16);
    }

    pub fn write_i32(&mut self, v: i32)
        ensures
            final(self)@ == old(self)@ + enc_i32(v),
    {
        self.write_u32(v as u32);
    }

    /// Write a `std::string` (u16 length + bytes).
    pub fn write_string(&mut self, s: &[u8])
        ensures
            final(self)@ == old(self)@ + enc_string(s@),
    {
        self.write_u16(s.len() as u16);
        push_slice(&mut self.buf, s);
        assert(final(self)@ =~= old(self)@ + enc_string(s@));
    }

    /// Write raw bytes without any length prefix.
    pub fn write_string_raw(&mut self, s: &[u8])
        ensures
            final(self)@ == old(self)@ + s@,
    {
        push_slice(&mut self.buf, s);
    }

    /// Write a 32-bit length followed by raw bytes.
    pub fn write_long_string(&mut self, s: &[u8])
        ensures
            final(self)@ == old(self)@ + enc_long_string(s@),
    {
        self.write_u32(s.len() as u32);
        self.write_string_raw(s);
        assert(final(self)@ =~= old(self)@ + enc_long_string(s@));
    }

    /// Write a `std::string` holding the UTF-8 bytes of `s`.
    pub fn write_utf8(&mut self, s: &str)
        ensures
            final(self)@ == old(self)@ + enc_string(s.spec_bytes()),
    {
        self.write_string(s.as_bytes());
    }

    /// Write a `wstring` (u16 length + UTF-16 code units).
    pub fn write_wstring(&mut self, s: &str)
        ensures
            final(self)@ == old(self)@ + enc_wstring(s@),
    {
        let units = encode_utf16(s);
        self.write_u16(units.len() as u16);
        let ghost start = self@;
        let mut i: usize = 0;
        while i < units.len()
            invariant
                i <= units@.len(),
                units@ == utf16_encode(s@),
                self@ == start + enc_units(units@.subrange(0, i as int)),
            decreases units@.len() - i,
        {
            proof {
                lemma_enc_units_push(units@.subrange(0, i as int), units@[i as int]);
                assert(units@.subrange(0, i as int).push(units@[i as int]) =~= units@.subrange(0, i + 1));
            }
            self.write_u16(units[i]);
            i = i + 1;
        }
        assert(units@.subrange(0, i as int) =~= units@);
        assert(final(self)@ =~= old(self)@ + enc_wstring(s@));
    }

    pub fn write_v3s32(&mut self, x: i32, y: i32, z: i32)
        ensures
            final(self)@ == old(self)@ + enc_i32(x) + enc_i32(y) + enc_i32(z),
    {
        self.write_i32(x);
        self.write_i32(y);
        self.write_i32(z);
    }

    pub fn write_v2s16(&mut self, x: i16, y: i16)
        ensures
            final(self)@ == old(self)@ + enc_i16(x) + enc_i16(y),
    {
        self.write_i16(x);
        self.write_i16(y);
    }
}

impl Default for WireWriter {
    fn default() -> (w: Self)
        ensures
            w@ == Seq::<u8>::empty(),
    {
        Self::new()
    }
}

/// Reads the big-endian `u16` at `offset` and returns it with the offset
/// just past it; `None` when fewer than two bytes remain there.
pub fn read_u16_at(data: &[u8], offset: usize) -> (r: Option<(u16, usize)>)
    ensures
        match dec_u16(data@, offset as int) {
            Ok((v, q)) => r == Some((v, q as usize)),
            Err(_) => r is None,
        },
{
    if offset > data.len() || data.len() - offset < 2 {
        return None;
    }
    let v = get_u16(data, offset);
    Some((v, offset + 2))
}

/// Decodes the `std::string` (u16 length + bytes) at `offset`, returning its
/// bytes and the offset just past it; `None` when the buffer does not hold
/// a full string there.
pub fn read_string_at(data: &[u8], offset: usize) -> (r: Option<(Vec<u8>, usize)>)
    ensures
        match dec_string(data@, offset as int) {
            Ok((v, q)) => r matches Some((w, e)) && w@ == v && e == q,
            Err(_) => r is None,
        },
{
    match read_u16_at(data, offset) {
        None => None,
        Some((len, start)) => {
            if data.len() - start < len as usize {
                None
            } else {
                let v = copy_range(data, start, start + len as usize);
                Some((v, start + len as usize))
            }
        },
    }
}

} // verus!
