//! Protocol constants, the 7-byte base header, packet and control types,
//! and sequence-number arithmetic.

use vstd::prelude::*;
use crate::bytes::{be_u16, be_u32, get_u16, get_u32, push_u16, push_u32, u16_of, u32_of};

verus! {

/// Constant that differentiates the protocol from random data.
pub const PROTOCOL_ID: u32 = 0x4f457403;

pub const LATEST_PROTOCOL_VERSION: u16 = 43;
pub const SERVER_PROTOCOL_VERSION_MIN: u16 = 37;
pub const CLIENT_PROTOCOL_VERSION_MIN: u16 = 37;

pub const BASE_HEADER_SIZE: usize = 7;
pub const CHANNEL_COUNT: usize = 3;

pub const ORIGINAL_HEADER_SIZE: usize = 1;
pub const RELIABLE_HEADER_SIZE: usize = 3;
pub const SEQNUM_INITIAL: u16 = 65500;
pub const SEQNUM_MAX: u16 = 65535;

pub const PEER_ID_INEXISTENT: u16 = 0;
pub const PEER_ID_SERVER: u16 = 1;

/// Errors of header parsing.
#[derive(Debug, PartialEq, Eq, Structural)]
pub enum ProtocolError {
    /// Fewer than `BASE_HEADER_SIZE` bytes were given.
    HeaderTooShort { size: usize },
}

/// Base header present in all packets:
/// `[0..4] u32 protocol_id`, `[4..6] u16 sender_peer_id`, `[6] u8 channel`.
#[derive(Debug, Clone, Copy, PartialEq, Eq, Structural)]
pub struct BaseHeader {
    pub protocol_id: u32,
    pub sender_peer_id: u16,
    pub channel: u8,
}

/// The seven bytes of a base header.
pub open spec fn header_bytes(protocol_id: u32, sender_peer_id: u16, channel: u8) -> Seq<u8> {
    be_u32(protocol_id) + be_u16(sender_peer_id) + seq![channel]
}

impl BaseHeader {
    /// Parses the first seven bytes of `data`.
    pub fn parse(data: &[u8]) -> (r: Result<Self, ProtocolError>)
        ensures
            data@.len() < BASE_HEADER_SIZE ==> r == Err::<Self, ProtocolError>(
                ProtocolError::HeaderTooShort { size: data@.len() as usize },
            ),
            data@.len() >= BASE_HEADER_SIZE ==> r == Ok::<Self, ProtocolError>(
                BaseHeader {
                    protocol_id: u32_of(data@),
                    sender_peer_id: u16_of(data@[4], data@[5]),
                    channel: data@[6],
                },
            ),
    {
        if data.len() < BASE_HEADER_SIZE {
            return Err(ProtocolError::HeaderTooShort { size: data.len() });
        }
        let protocol_id = get_u32(data, 0);
        assert(data@.subrange(0, 4) =~= data@.subrange(0, 4));
        let sender_peer_id = get_u16(data, 4);
        let channel = data[6];
        proof {
            assert(u32_of(data@.subrange(0, 4)) == u32_of(data@));
        }
        Ok(BaseHeader { protocol_id, sender_peer_id, channel })
    }

    pub fn to_bytes(&self) -> (bytes: Vec<u8>)
        ensures
            bytes@ == header_bytes(self.protocol_id, self.sender_peer_id, self.channel),
    {
        let mut bytes: Vec<u8> = Vec::with_capacity(BASE_HEADER_SIZE);
        push_u32(&mut bytes, self.protocol_id);
        push_u16(&mut bytes, self.sender_peer_id);
        bytes.push(self.channel);
        assert(bytes@ =~= header_bytes(self.protocol_id, self.sender_peer_id, self.channel));
        bytes
    }
}

/// Parsing the bytes of a header gives the header back.
pub proof fn law_header_roundtrip(h: BaseHeader)
    ensures
        header_bytes(h.protocol_id, h.sender_peer_id, h.channel).len() == BASE_HEADER_SIZE,
        u32_of(header_bytes(h.protocol_id, h.sender_peer_id, h.channel)) == h.protocol_id,
        u16_of(
            header_bytes(h.protocol_id, h.sender_peer_id, h.channel)[4],
            header_bytes(h.protocol_id, h.sender_peer_id, h.channel)[5],
        ) == h.sender_peer_id,
        header_bytes(h.protocol_id, h.sender_peer_id, h.channel)[6] == h.channel,
{
    let b = header_bytes(h.protocol_id, h.sender_peer_id, h.channel);
    crate::bytes::lemma_u32_roundtrip(h.protocol_id);
    crate::bytes::lemma_u16_roundtrip(h.sender_peer_id);
    assert(b[4] == be_u16(h.sender_peer_id)[0]);
    assert(b[5] == be_u16(h.sender_peer_id)[1]);
    assert(b[0] == be_u32(h.protocol_id)[0] && b[1] == be_u32(h.protocol_id)[1]);
    assert(b[2] == be_u32(h.protocol_id)[2] && b[3] == be_u32(h.protocol_id)[3]);
}

/// Packet types of the transport layer.
#[derive(Debug, Clone, Copy, PartialEq, Eq, Structural)]
pub enum PacketType {
    Control,
    Original,
    Split,
    Reliable,
}

/// Wire value of a packet type.
pub open spec fn packet_type_code(t: PacketType) -> u8 {
    match t {
        PacketType::Control => 0,
        PacketType::Original => 1,
        PacketType::Split => 2,
        PacketType::Reliable => 3,
    }
}

impl PacketType {
    pub fn from_u8(value: u8) -> (r: Option<Self>)
        ensures
            value <= 3 ==> (r matches Some(t) && packet_type_code(t) == value),
            value > 3 ==> r is None,
    {
        match value {
            0 => Some(PacketType::Control),
            1 => Some(PacketType::Original),
            2 => Some(PacketType::Split),
            3 => Some(PacketType::Reliable),
            _ => None,
        }
    }

    /// Wire value of this packet type.
    pub fn to_u8(&self) -> (v: u8)
        ensures
            v == packet_type_code(*self),
    {
        match self {
            PacketType::Control => 0,
            PacketType::Original => 1,
            PacketType::Split => 2,
            PacketType::Reliable => 3,
        }
    }
}

/// Control sub-types of `Control` packets.
#[derive(Debug, Clone, Copy, PartialEq, Eq, Structural)]
pub enum ControlType {
    Ack,
    SetPeerId,
    Ping,
    Disco,
}

/// Wire value of a control type.
pub open spec fn control_type_code(t: ControlType) -> u8 {
    match t {
        ControlType::Ack => 0,
        ControlType::SetPeerId => 1,
        ControlType::Ping => 2,
        ControlType::Disco => 3,
    }
}

impl ControlType {
    pub fn from_u8(value: u8) -> (r: Option<Self>)
        ensures
            value <= 3 ==> (r matches Some(t) && control_type_code(t) == value),
            value > 3 ==> r is None,
    {
        match value {
            0 => Some(ControlType::Ack),
            1 => Some(ControlType::SetPeerId),
            2 => Some(ControlType::Ping),
            3 => Some(ControlType::Disco),
            _ => None,
        }
    }

    /// Wire value of this control type.
    pub fn to_u8(&self) -> (v: u8)
        ensures
            v == control_type_code(*self),
    {
        match self {
            ControlType::Ack => 0,
            ControlType::SetPeerId => 1,
            ControlType::Ping => 2,
            ControlType::Disco => 3,
        }
    }
}

/// `totest` comes after `base` in wrapping sequence-number order.
pub open spec fn spec_seqnum_higher(totest: u16, base: u16) -> bool {
    if totest > base {
        totest - base <= SEQNUM_MAX / 2
    } else {
        base - totest > SEQNUM_MAX / 2
    }
}

/// Check if a sequence number is higher than another, accounting for wrapping.
pub fn seqnum_higher(totest: u16, base: u16) -> (r: bool)
    ensures
        r == spec_seqnum_higher(totest, base),
{
    if totest > base {
        if (totest - base) > (SEQNUM_MAX / 2) {
            return false;
        }
        return true;
    }
    if (base - totest) > (SEQNUM_MAX / 2) {
        return true;
    }
    false
}

/// Of two distinct sequence numbers exactly one is higher than the other,
/// and no sequence number is higher than itself.
pub proof fn law_seqnum_order(a: u16, b: u16)
    ensures
        !spec_seqnum_higher(a, a),
        a != b ==> (spec_seqnum_higher(a, b) <==> !spec_seqnum_higher(b, a)),
{
}

/// Check if a sequence number is within the window `[next, next + size)`
/// (wrapping at 65536).
pub fn seqnum_in_window(seqnum: u16, next: u16, window_size: u16) -> (r: bool)
    ensures
        ({
            let end = ((next as int + window_size as int) % 65536) as u16;
            r == if next < end {
                next <= seqnum < end
            } else {
                seqnum < end || seqnum >= next
            }
        }),
{
    let window_start = next;
    let window_end = ((next as u32 + window_size as u32) % 65536) as u16;
    if window_start < window_end {
        return seqnum >= window_start && seqnum < window_end;
    }
    seqnum < window_end || seqnum >= window_start
}

/// For a non-empty window, a sequence number lies in the window exactly
/// when its wrapping distance from the window start is below the size.
pub proof fn law_seqnum_window(seqnum: u16, next: u16, window_size: u16)
    requires
        window_size > 0,
    ensures
        ({
            let end = ((next as int + window_size as int) % 65536) as u16;
            (if next < end {
                next <= seqnum < end
            } else {
                seqnum < end || seqnum >= next
            }) <==> (seqnum as int - next as int + 65536) % 65536 < window_size
        }),
{
}

} // verus!
