//! `NetworkPacket`: a command opcode plus a payload buffer with a single
//! read cursor and append-only writers.
//!
//! On the wire a packet is `[u16 command (big-endian)] [payload...]`.

use vstd::prelude::*;
use vstd::string::StringSliceAdditionalSpecFns;
use crate::bytes::{
    be_u16, be_u32, be_u64, copy_range, get_u16, get_u32, get_u64, push_slice, push_u16,
    push_u32, push_u64, u16_of,
};
use crate::codec::{
    dec_bytes, dec_skip, dec_i16, dec_i32, dec_long_string, dec_string, dec_u16, dec_u32, dec_u64, dec_u8,
    dec_utf8, dec_v2s16, dec_v3s16, dec_v3s32, dec_wstring, enc_i16, enc_i32, enc_long_string,
    enc_string, enc_units, enc_wstring, lemma_enc_units_push, Decoded, ReadFail,
};
use crate::text::{decode_utf16, decode_utf8_bytes, encode_utf16, utf16_encode};
use crate::wire::{bytes_result, next_pos, text_result, units_from_bytes};

verus! {

/// Errors that can occur while reading a [`NetworkPacket`].
#[derive(Debug)]
pub enum PacketError {
    OutOfBounds { offset: usize, size: usize, needed: usize },
    StringTooLong { got: usize, max: usize },
    InvalidUtf8,
    InvalidUtf16,
    PacketTooShort { size: usize },
}

pub type PacketResult<T> = Result<T, PacketError>;

/// The error a packet reader reports for a failed read of a payload of
/// length `len`.
pub open spec fn packet_error(f: ReadFail, len: int) -> PacketError {
    match f {
        ReadFail::Short { needed, at } => PacketError::OutOfBounds {
            offset: at as usize,
            size: len as usize,
            needed: needed as usize,
        },
        ReadFail::BadUtf8 { .. } => PacketError::InvalidUtf8,
        ReadFail::BadUtf16 { .. } => PacketError::InvalidUtf16,
    }
}

/// The value a packet reader returns for the outcome `d`.
pub open spec fn packet_result<T>(d: Decoded<T>, len: int) -> Result<T, PacketError> {
    match d {
        Ok((v, _)) => Ok(v),
        Err(f) => Err(packet_error(f, len)),
    }
}

/// Abstract state of a packet.
pub struct PacketView {
    pub command: u16,
    pub data: Seq<u8>,
    pub read_pos: int,
    pub peer_id: u16,
}

impl PacketView {
    /// The read cursor lies within the payload.
    pub open spec fn wf(self) -> bool {
        0 <= self.read_pos <= self.data.len()
    }
}

/// The on-the-wire bytes of a packet: command then payload.
pub open spec fn raw_bytes(command: u16, data: Seq<u8>) -> Seq<u8> {
    be_u16(command) + data
}

/// Luanti network packet.
#[derive(Debug)]
pub struct NetworkPacket {
    command: u16,
    data: Vec<u8>,
    read_pos: usize,
    peer_id: u16,
}

impl View for NetworkPacket {
    type V = PacketView;

    closed spec fn view(&self) -> PacketView {
        PacketView {
            command: self.command,
            data: self.data@,
            read_pos: self.read_pos as int,
            peer_id: self.peer_id,
        }
    }
}

impl Clone for NetworkPacket {
    fn clone(&self) -> (r: Self)
        ensures
            r@ == self@,
    {
        let data = copy_range(self.data.as_slice(), 0, self.data.len());
        assert(data@ =~= self.data@);
        NetworkPacket { command: self.command, data, read_pos: self.read_pos, peer_id: self.peer_id }
    }
}

impl Default for NetworkPacket {
    fn default() -> (p: Self)
        ensures
            p@ == (PacketView { command: 0, data: Seq::empty(), read_pos: 0, peer_id: 0 }),
    {
        Self::new(0, 0)
    }
}

impl NetworkPacket {
    // --- Constructors ----------------------------------------------------

    /// Build an empty packet carrying the given command, peer id 0.
    pub fn new(command: u16, preallocate: usize) -> (p: Self)
        ensures
            p@ == (PacketView { command, data: Seq::empty(), read_pos: 0, peer_id: 0 }),
    {
        Self { command, data: Vec::with_capacity(preallocate), read_pos: 0, peer_id: 0 }
    }

    /// Same as [`Self::new`] but also stores the peer id.
    pub fn with_peer_id(command: u16, preallocate: usize, peer_id: u16) -> (p: Self)
        ensures
            p@ == (PacketView { command, data: Seq::empty(), read_pos: 0, peer_id }),
    {
        let mut p = Self::new(command, preallocate);
        p.peer_id = peer_id;
        p
    }

    /// Decode a raw on-the-wire buffer: the first two bytes are the
    /// command, the rest is the payload; the cursor starts at 0.
    pub fn from_raw(data: &[u8], peer_id: u16) -> (r: PacketResult<Self>)
        ensures
            data@.len() < 2 ==> r == Err::<Self, PacketError>(PacketError::PacketTooShort { size: data@.len() as usize }),
            data@.len() >= 2 ==> (r matches Ok(p) && p@ == (PacketView {
                command: u16_of(data@[0], data@[1]),
                data: data@.subrange(2, data@.len() as int),
                read_pos: 0,
                peer_id,
            })),
    {
        if data.len() < 2 {
            return Err(PacketError::PacketTooShort { size: data.len() });
        }
        let command = get_u16(data, 0);
        let mut p = Self::with_peer_id(command, data.len() - 2, peer_id);
        let payload = copy_range(data, 2, data.len());
        p.data = payload;
        Ok(p)
    }

    // --- Getters ----------------------------------------------------------

    pub fn command(&self) -> (c: u16)
        ensures
            c == self@.command,
    {
        self.command
    }

    pub fn set_command(&mut self, command: u16)
        ensures
            final(self)@ == (PacketView { command, ..old(self)@ }),
    {
        self.command = command;
    }

    pub fn peer_id(&self) -> (id: u16)
        ensures
            id == self@.peer_id,
    {
        self.peer_id
    }

    pub fn set_peer_id(&mut self, peer_id: u16)
        ensures
            final(self)@ == (PacketView { peer_id, ..old(self)@ }),
    {
        self.peer_id = peer_id;
    }

    /// Number of payload bytes (excluding the 2-byte command header).
    pub fn len(&self) -> (n: usize)
        ensures
            n == self@.data.len(),
    {
        self.data.len()
    }

    pub fn is_empty(&self) -> (b: bool)
        ensures
            b == (self@.data.len() == 0),
    {
        self.data.len() == 0
    }

    /// Number of unread payload bytes remaining.
    pub fn remaining(&self) -> (n: usize)
        requires
            self@.wf(),
        ensures
            n == self@.data.len() - self@.read_pos,
            self@.data.len() <= usize::MAX,
    {
        self.data.len() - self.read_pos
    }

    pub fn read_pos(&self) -> (p: usize)
        ensures
            p == self@.read_pos,
    {
        self.read_pos
    }

    /// Move the cursor, clamped to the end of the payload.
    pub fn set_read_pos(&mut self, pos: usize)
        ensures
            final(self)@ == (PacketView {
                read_pos: if pos <= old(self)@.data.len() { pos as int } else { old(self)@.data.len() as int },
                ..old(self)@
            }),
    {
        if pos <= self.data.len() {
            self.read_pos = pos;
        } else {
            self.read_pos = self.data.len();
        }
    }

    /// Borrow the payload.
    pub fn as_slice(&self) -> (s: &[u8])
        ensures
            s@ == self@.data,
    {
        self.data.as_slice()
    }

    /// Borrow the unread tail of the payload.
    pub fn rest(&self) -> (s: &[u8])
        requires
            self@.wf(),
        ensures
            s@ == self@.data.subrange(self@.read_pos, self@.data.len() as int),
    {
        let d = self.data.as_slice();
        &d[self.read_pos..d.len()]
    }

    /// Reset all state: command 0, peer 0, no payload, cursor 0.
    pub fn clear(&mut self)
        ensures
            final(self)@ == (PacketView { command: 0, data: Seq::empty(), read_pos: 0, peer_id: 0 }),
    {
        self.command = 0;
        self.data.clear();
        self.read_pos = 0;
        self.peer_id = 0;
    }

    /// Encode the packet to its on-the-wire bytes (`command || payload`).
    pub fn into_raw_bytes(&self) -> (out: Vec<u8>)
        ensures
            out@ == raw_bytes(self@.command, self@.data),
    {
        let mut out: Vec<u8> = Vec::new();
        push_u16(&mut out, self.command);
        push_slice(&mut out, self.data.as_slice());
        out
    }

    /// Give up the packet and keep its payload.
    pub fn take_payload(self) -> (out: Vec<u8>)
        ensures
            out@ == self@.data,
    {
        self.data
    }

    /// Append raw bytes to the payload.
    pub fn put_raw(&mut self, src: &[u8])
        ensures
            final(self)@ == (PacketView { data: old(self)@.data + src@, ..old(self)@ }),
    {
        push_slice(&mut self.data, src);
    }

    // --- Read helpers -----------------------------------------------------

    fn check_read(&self, needed: usize) -> (r: PacketResult<()>)
        requires
            self@.wf(),
        ensures
            self@.data.len() <= usize::MAX,
            r is Ok <==> self@.read_pos + needed <= self@.data.len(),
            r is Err ==> r == Err::<(), PacketError>(
                PacketError::OutOfBounds {
                    offset: self@.read_pos as usize,
                    size: self@.data.len() as usize,
                    needed,
                },
            ),
    {
        let avail = self.remaining();
        if avail < needed {
            return Err(PacketError::OutOfBounds { offset: self.read_pos, size: self.data.len(), needed });
        }
        Ok(())
    }

    /// Skip `count` bytes ahead in the payload.
    pub fn skip(&mut self, count: usize) -> (r: PacketResult<()>)
        requires
            old(self)@.wf(),
        ensures
            final(self)@ == (PacketView { read_pos: next_pos(dec_skip(old(self)@.data, old(self)@.read_pos, count as nat)), ..old(self)@ }),
            r == packet_result(dec_skip(old(self)@.data, old(self)@.read_pos, count as nat), old(self)@.data.len() as int),
    {
        self.check_read(count)?;
        self.read_pos = self.read_pos + count;
        Ok(())
    }

    pub fn read_u8(&mut self) -> (r: PacketResult<u8>)
        requires
            old(self)@.wf(),
        ensures
            final(self)@ == (PacketView { read_pos: next_pos(dec_u8(old(self)@.data, old(self)@.read_pos)), ..old(self)@ }),
            r == packet_result(dec_u8(old(self)@.data, old(self)@.read_pos), old(self)@.data.len() as int),
    {
        self.check_read(1)?;
        let v = self.data[self.read_pos];
        self.read_pos = self.read_pos + 1;
        Ok(v)
    }

    pub fn read_u16(&mut self) -> (r: PacketResult<u16>)
        requires
            old(self)@.wf(),
        ensures
            final(self)@ == (PacketView { read_pos: next_pos(dec_u16(old(self)@.data, old(self)@.read_pos)), ..old(self)@ }),
            r == packet_result(dec_u16(old(self)@.data, old(self)@.read_pos), old(self)@.data.len() as int),
    {
        self.check_read(2)?;
        let v = get_u16(self.data.as_slice(), self.read_pos);
        self.read_pos = self.read_pos + 2;
        Ok(v)
    }

    pub fn read_u32(&mut self) -> (r: PacketResult<u32>)
        requires
            old(self)@.wf(),
        ensures
            final(self)@ == (PacketView { read_pos: next_pos(dec_u32(old(self)@.data, old(self)@.read_pos)), ..old(self)@ }),
            r == packet_result(dec_u32(old(self)@.data, old(self)@.read_pos), old(self)@.data.len() as int),
    {
        self.check_read(4)?;
        let v = get_u32(self.data.as_slice(), self.read_pos);
        self.read_pos = self.read_pos + 4;
        Ok(v)
    }

    pub fn read_u64(&mut self) -> (r: PacketResult<u64>)
        requires
            old(self)@.wf(),
        ensures
            final(self)@ == (PacketView { read_pos: next_pos(dec_u64(old(self)@.data, old(self)@.read_pos)), ..old(self)@ }),
            r == packet_result(dec_u64(old(self)@.data, old(self)@.read_pos), old(self)@.data.len() as int),
    {
        self.check_read(8)?;
        let v = get_u64(self.data.as_slice(), self.read_pos);
        self.read_pos = self.read_pos + 8;
        Ok(v)
    }

    pub fn read_i16(&mut self) -> (r: PacketResult<i16>)
        requires
            old(self)@.wf(),
        ensures
            final(self)@ == (PacketView { read_pos: next_pos(dec_i16(old(self)@.data, old(self)@.read_pos)), ..old(self)@ }),
            r == packet_result(dec_i16(old(self)@.data, old(self)@.read_pos), old(self)@.data.len() as int),
    {
        let v = self.read_u16()?;
        Ok(v as i16)
    }

    pub fn read_i32(&mut self) -> (r: PacketResult<i32>)
        requires
            old(self)@.wf(),
        ensures
            final(self)@ == (PacketView { read_pos: next_pos(dec_i32(old(self)@.data, old(self)@.read_pos)), ..old(self)@ }),
            r == packet_result(dec_i32(old(self)@.data, old(self)@.read_pos), old(self)@.data.len() as int),
    {
        let v = self.read_u32()?;
        Ok(v as i32)
    }

    fn take(&mut self, len: usize) -> (r: PacketResult<Vec<u8>>)
        requires
            old(self)@.wf(),
        ensures
            final(self)@ == (PacketView { read_pos: next_pos(dec_bytes(old(self)@.data, old(self)@.read_pos, len as nat)), ..old(self)@ }),
            bytes_result(r) == packet_result(dec_bytes(old(self)@.data, old(self)@.read_pos, len as nat), old(self)@.data.len() as int),
    {
        self.check_read(len)?;
        let v = copy_range(self.data.as_slice(), self.read_pos, self.read_pos + len);
        self.read_pos = self.read_pos + len;
        Ok(v)
    }

    /// Read a `std::string` (u16 length + raw bytes).
    pub fn read_string(&mut self) -> (r: PacketResult<Vec<u8>>)
        requires
            old(self)@.wf(),
        ensures
            final(self)@ == (PacketView { read_pos: next_pos(dec_string(old(self)@.data, old(self)@.read_pos)), ..old(self)@ }),
            bytes_result(r) == packet_result(dec_string(old(self)@.data, old(self)@.read_pos), old(self)@.data.len() as int),
    {
        let len = self.read_u16()?;
        self.take(len as usize)
    }

    /// Read a `std::string` and decode it as UTF-8.
    pub fn read_utf8(&mut self) -> (r: PacketResult<String>)
        requires
            old(self)@.wf(),
        ensures
            final(self)@ == (PacketView { read_pos: next_pos(dec_utf8(old(self)@.data, old(self)@.read_pos)), ..old(self)@ }),
            text_result(r) == packet_result(dec_utf8(old(self)@.data, old(self)@.read_pos), old(self)@.data.len() as int),
    {
        let bytes = self.read_string()?;
        match decode_utf8_bytes(bytes) {
            Some(s) => Ok(s),
            None => Err(PacketError::InvalidUtf8),
        }
    }

    /// Read a long string (u32 length + bytes) used for media data.
    pub fn read_long_string(&mut self) -> (r: PacketResult<Vec<u8>>)
        requires
            old(self)@.wf(),
        ensures
            final(self)@ == (PacketView { read_pos: next_pos(dec_long_string(old(self)@.data, old(self)@.read_pos)), ..old(self)@ }),
            bytes_result(r) == packet_result(dec_long_string(old(self)@.data, old(self)@.read_pos), old(self)@.data.len() as int),
    {
        let len = self.read_u32()?;
        self.take(len as usize)
    }

    /// Read a `wstring` (u16 length + UTF-16 code units).
    pub fn read_wstring(&mut self) -> (r: PacketResult<String>)
        requires
            old(self)@.wf(),
        ensures
            final(self)@ == (PacketView { read_pos: next_pos(dec_wstring(old(self)@.data, old(self)@.read_pos)), ..old(self)@ }),
            text_result(r) == packet_result(dec_wstring(old(self)@.data, old(self)@.read_pos), old(self)@.data.len() as int),
    {
        let len = self.read_u16()?;
        let raw = self.take(2 * (len as usize))?;
        let units = units_from_bytes(&raw, len as usize);
        match decode_utf16(units.as_slice()) {
            Some(s) => Ok(s),
            None => Err(PacketError::InvalidUtf16),
        }
    }

    pub fn read_v2s16(&mut self) -> (r: PacketResult<(i16, i16)>)
        requires
            old(self)@.wf(),
        ensures
            final(self)@ == (PacketView { read_pos: next_pos(dec_v2s16(old(self)@.data, old(self)@.read_pos)), ..old(self)@ }),
            r == packet_result(dec_v2s16(old(self)@.data, old(self)@.read_pos), old(self)@.data.len() as int),
    {
        let x = self.read_i16()?;
        let y = self.read_i16()?;
        Ok((x, y))
    }

    pub fn read_v3s16(&mut self) -> (r: PacketResult<(i16, i16, i16)>)
        requires
            old(self)@.wf(),
        ensures
            final(self)@ == (PacketView { read_pos: next_pos(dec_v3s16(old(self)@.data, old(self)@.read_pos)), ..old(self)@ }),
            r == packet_result(dec_v3s16(old(self)@.data, old(self)@.read_pos), old(self)@.data.len() as int),
    {
        let x = self.read_i16()?;
        let y = self.read_i16()?;
        let z = self.read_i16()?;
        Ok((x, y, z))
    }

    pub fn read_v3s32(&mut self) -> (r: PacketResult<(i32, i32, i32)>)
        requires
            old(self)@.wf(),
        ensures
            final(self)@ == (PacketView { read_pos: next_pos(dec_v3s32(old(self)@.data, old(self)@.read_pos)), ..old(self)@ }),
            r == packet_result(dec_v3s32(old(self)@.data, old(self)@.read_pos), old(self)@.data.len() as int),
    {
        let x = self.read_i32()?;
        let y = self.read_i32()?;
        let z = self.read_i32()?;
        Ok((x, y, z))
    }

    // --- Write helpers ----------------------------------------------------

    pub fn write_u8(&mut self, v: u8)
        ensures
            final(self)@ == (PacketView { data: old(self)@.data.push(v), ..old(self)@ }),
    {
        self.data.push(v);
    }

    pub fn write_u16(&mut self, v: u16)
        ensures
            final(self)@ == (PacketView { data: old(self)@.data + be_u16(v), ..old(self)@ }),
    {
        push_u16(&mut self.data, v);
    }

    pub fn write_u32(&mut self, v: u32)
        ensures
            final(self)@ == (PacketView { data: old(self)@.data + be_u32(v), ..old(self)@ }),
    {
        push_u32(&mut self.data, v);
    }

    pub fn write_u64(&mut self, v: u64)
        ensures
            final(self)@ == (PacketView { data: old(self)@.data + be_u64(v), ..old(self)@ }),
    {
        push_u64(&mut self.data, v);
    }

    pub fn write_i16(&mut self, v: i16)
        ensures
            final(self)@ == (PacketView { data: old(self)@.data + enc_i16(v), ..old(self)@ }),
    {
        self.write_u16(v as u16);
    }

    pub fn write_i32(&mut self, v: i32)
        ensures
            final(self)@ == (PacketView { data: old(self)@.data + enc_i32(v), ..old(self)@ }),
    {
        self.write_u32(v as u32);
    }

    /// Write a `std::string` (u16 length + raw bytes); the length prefix is
    /// the length cut to 16 bits.
    pub fn write_string(&mut self, s: &[u8])
        ensures
            final(self)@ == (PacketView { data: old(self)@.data + enc_string(s@), ..old(self)@ }),
    {
        self.write_u16(s.len() as u16);
        push_slice(&mut self.data, s);
        assert(self@.data =~= old(self)@.data + enc_string(s@));
    }

    /// Write a UTF-8 `&str` as a `std::string`.
    pub fn write_utf8(&mut self, s: &str)
        ensures
            final(self)@ == (PacketView { data: old(self)@.data + enc_string(s.spec_bytes()), ..old(self)@ }),
    {
        self.write_string(s.as_bytes());
    }

    /// Write a `wstring` (u16 length + UTF-16 code units); the length prefix
    /// is the unit count cut to 16 bits.
    pub fn write_wstring(&mut self, s: &str)
        ensures
            final(self)@ == (PacketView { data: old(self)@.data + enc_wstring(s@), ..old(self)@ }),
    {
        let units = encode_utf16(s);
        self.write_u16(units.len() as u16);
        let ghost start = self@.data;
        let mut i: usize = 0;
        while i < units.len()
            invariant
                i <= units@.len(),
                units@ == utf16_encode(s@),
                self@ == (PacketView { data: start + enc_units(units@.subrange(0, i as int)), ..old(self)@ }),
            decreases units@.len() - i,
        {
            proof {
                lemma_enc_units_push(units@.subrange(0, i as int), units@[i as int]);
                assert(units@.subrange(0, i as int).push(units@[i as int]) =~= units@.subrange(0, i + 1));
            }
            self.write_u16(units[i]);
            i = i + 1;
            assert(self@.data =~= start + enc_units(units@.subrange(0, i as int)));
        }
        assert(units@.subrange(0, i as int) =~= units@);
        assert(self@.data =~= old(self)@.data + enc_wstring(s@));
    }

    /// Write a long string (u32 length + bytes) used for media data; the
    /// length prefix is the length cut to 32 bits.
    pub fn write_long_string(&mut self, s: &[u8])
        ensures
            final(self)@ == (PacketView { data: old(self)@.data + enc_long_string(s@), ..old(self)@ }),
    {
        self.write_u32(s.len() as u32);
        push_slice(&mut self.data, s);
        assert(self@.data =~= old(self)@.data + enc_long_string(s@));
    }

    pub fn write_v3s16(&mut self, x: i16, y: i16, z: i16)
        ensures
            final(self)@ == (PacketView { data: old(self)@.data + enc_i16(x) + enc_i16(y) + enc_i16(z), ..old(self)@ }),
    {
        self.write_i16(x);
        self.write_i16(y);
        self.write_i16(z);
    }

    pub fn write_v3s32(&mut self, x: i32, y: i32, z: i32)
        ensures
            final(self)@ == (PacketView { data: old(self)@.data + enc_i32(x) + enc_i32(y) + enc_i32(z), ..old(self)@ }),
    {
        self.write_i32(x);
        self.write_i32(y);
        self.write_i32(z);
    }
}

/// Decoding the on-the-wire bytes of a packet recovers its command and
/// payload.
pub proof fn law_raw_bytes_roundtrip(command: u16, data: Seq<u8>)
    ensures
        raw_bytes(command, data).len() >= 2,
        u16_of(raw_bytes(command, data)[0], raw_bytes(command, data)[1]) == command,
        raw_bytes(command, data).subrange(2, raw_bytes(command, data).len() as int) == data,
{
    crate::bytes::lemma_u16_roundtrip(command);
    assert(raw_bytes(command, data).subrange(2, raw_bytes(command, data).len() as int) =~= data);
}

} // verus!
