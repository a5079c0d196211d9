//! Datagram envelopes: the base header, `Original` and `Reliable`
//! frames, the control frames the server sends, and a hex preview for
//! log lines.

use vstd::prelude::*;
use crate::bytes::{be_u16, be_u32, push_slice, push_u16};
use crate::protocol::{
    control_type_code, header_bytes, packet_type_code, BaseHeader, ControlType, PacketType, BASE_HEADER_SIZE,
    PEER_ID_SERVER, PROTOCOL_ID,
};
use crate::srp::{hex_text, to_hex};
use crate::strings::{chars_of, string_from_chars};
use crate::auth::push_chars;

verus! {

/// Build the 7-byte base header.
pub fn build_base_header(sender_peer_id: u16, channel: u8) -> (h: [u8; 7])
    ensures
        h@ == header_bytes(PROTOCOL_ID, sender_peer_id, channel),
{
    let h: [u8; 7] = [0x4f, 0x45, 0x74, 0x03, (sender_peer_id / 256) as u8, (sender_peer_id % 256) as u8, channel];
    assert(be_u32(PROTOCOL_ID) =~= seq![0x4fu8, 0x45u8, 0x74u8, 0x03u8]);
    assert(h@ =~= header_bytes(PROTOCOL_ID, sender_peer_id, channel));
    h
}

/// The base header of `data`, when it is long enough.
pub fn parse_base_header(data: &[u8]) -> (r: Option<BaseHeader>)
    ensures
        data@.len() < BASE_HEADER_SIZE ==> r is None,
        data@.len() >= BASE_HEADER_SIZE ==> (r matches Some(h)
            && h.protocol_id == crate::bytes::u32_of(data@)
            && h.sender_peer_id == crate::bytes::u16_of(data@[4], data@[5])
            && h.channel == data@[6]
            && header_bytes(h.protocol_id, h.sender_peer_id, h.channel) == data@.subrange(0, 7)),
{
    if data.len() < BASE_HEADER_SIZE {
        return None;
    }
    match BaseHeader::parse(data) {
        Ok(h) => {
            proof {
                crate::bytes::lemma_u32_roundtrip(h.protocol_id);
                crate::bytes::lemma_u16_roundtrip(h.sender_peer_id);
                assert(header_bytes(h.protocol_id, h.sender_peer_id, h.channel) =~= data@.subrange(0, 7)) by {
                    lemma_header_bytes_of(data@);
                }
            }
            Some(h)
        },
        Err(_) => None,
    }
}

proof fn lemma_header_bytes_of(d: Seq<u8>)
    requires
        d.len() >= 7,
    ensures
        header_bytes(
            crate::bytes::u32_of(d),
            crate::bytes::u16_of(d[4], d[5]),
            d[6],
        ) == d.subrange(0, 7),
{
    crate::bytes::lemma_u32_bytes_roundtrip(d);
    crate::bytes::lemma_u16_bytes_roundtrip(d[4], d[5]);
    assert(header_bytes(crate::bytes::u32_of(d), crate::bytes::u16_of(d[4], d[5]), d[6]) =~= d.subrange(0, 7));
}

/// An `Original` datagram from the server on channel 0 around `payload`.
pub open spec fn original_frame(payload: Seq<u8>) -> Seq<u8> {
    header_bytes(PROTOCOL_ID, PEER_ID_SERVER, 0) + seq![packet_type_code(PacketType::Original)] + payload
}

/// A `Reliable` datagram from the server on channel 0 around `payload`.
pub open spec fn reliable_frame(seqnum: u16, payload: Seq<u8>) -> Seq<u8> {
    header_bytes(PROTOCOL_ID, PEER_ID_SERVER, 0) + seq![packet_type_code(PacketType::Reliable)] + be_u16(seqnum)
        + payload
}

/// A control datagram from the server on channel 0.
pub open spec fn control_frame(control: ControlType, value: u16) -> Seq<u8> {
    header_bytes(PROTOCOL_ID, PEER_ID_SERVER, 0) + seq![packet_type_code(PacketType::Control), control_type_code(control)]
        + be_u16(value)
}

/// Wrap a command and its payload in an `Original` datagram on channel 0.
pub fn wrap_original(payload: &[u8]) -> (out: Vec<u8>)
    ensures
        out@ == original_frame(payload@),
{
    let mut out: Vec<u8> = Vec::new();
    let h = build_base_header(PEER_ID_SERVER, 0);
    push_slice(&mut out, &h);
    out.push(PacketType::Original.to_u8());
    push_slice(&mut out, payload);
    assert(out@ =~= original_frame(payload@));
    out
}

/// Wrap a payload in a `Reliable` datagram on channel 0.
pub fn wrap_reliable(seqnum: u16, payload: &[u8]) -> (out: Vec<u8>)
    ensures
        out@ == reliable_frame(seqnum, payload@),
{
    let mut out: Vec<u8> = Vec::new();
    let h = build_base_header(PEER_ID_SERVER, 0);
    push_slice(&mut out, &h);
    out.push(PacketType::Reliable.to_u8());
    push_u16(&mut out, seqnum);
    push_slice(&mut out, payload);
    assert(out@ =~= reliable_frame(seqnum, payload@));
    out
}

/// Build a `CONTROLTYPE_ACK` datagram acknowledging `seqnum`.
pub fn build_control_ack(seqnum: u16) -> (out: Vec<u8>)
    ensures
        out@ == control_frame(ControlType::Ack, seqnum),
{
    let mut out: Vec<u8> = Vec::new();
    let h = build_base_header(PEER_ID_SERVER, 0);
    push_slice(&mut out, &h);
    out.push(PacketType::Control.to_u8());
    out.push(ControlType::Ack.to_u8());
    push_u16(&mut out, seqnum);
    assert(out@ =~= control_frame(ControlType::Ack, seqnum));
    out
}

/// Build a `CONTROLTYPE_SET_PEER_ID` datagram telling a peer its id.
pub fn build_set_peer_id(peer_id: u16) -> (out: Vec<u8>)
    ensures
        out@ == control_frame(ControlType::SetPeerId, peer_id),
{
    let mut out: Vec<u8> = Vec::new();
    let h = build_base_header(PEER_ID_SERVER, 0);
    push_slice(&mut out, &h);
    out.push(PacketType::Control.to_u8());
    out.push(ControlType::SetPeerId.to_u8());
    push_u16(&mut out, peer_id);
    assert(out@ =~= control_frame(ControlType::SetPeerId, peer_id));
    out
}

/// Decimal digits of `n`.
pub open spec fn decimal_text(n: nat) -> Seq<char>
    decreases n,
{
    if n < 10 {
        seq![(48 + n) as char]
    } else {
        decimal_text(n / 10).push((48 + n % 10) as char)
    }
}

/// Decimal digits of `n`.
pub fn decimal(n: usize) -> (out: Vec<char>)
    ensures
        out@ == decimal_text(n as nat),
    decreases n,
{
    if n < 10 {
        let mut out: Vec<char> = Vec::new();
        out.push(digit_char((n % 10) as u8));
        assert(out@ =~= decimal_text(n as nat));
        out
    } else {
        let mut out = decimal(n / 10);
        out.push(digit_char((n % 10) as u8));
        out
    }
}

fn digit_char(d: u8) -> (c: char)
    requires
        d < 10,
    ensures
        c == (48 + d) as char,
{
    let digits: [char; 10] = ['0', '1', '2', '3', '4', '5', '6', '7', '8', '9'];
    assert(digits@ =~= seq!['0', '1', '2', '3', '4', '5', '6', '7', '8', '9']);
    digits[d as usize]
}

/// Hex preview of the first `max` bytes of `data`, with a note of how many
/// bytes were left out.
pub open spec fn hex_preview_text(data: Seq<u8>, max: nat) -> Seq<char> {
    let n = if data.len() < max { data.len() } else { max };
    if data.len() > n {
        hex_text(data.take(n as int)) + seq!['…', '(', '+'] + decimal_text((data.len() - n) as nat) + seq!['B', ')']
    } else {
        hex_text(data.take(n as int))
    }
}

/// Format up to `max` bytes of `data` as lower-case hex, noting how many
/// bytes were left out.
pub fn hex_preview(data: &[u8], max: usize) -> (s: String)
    ensures
        s@ == hex_preview_text(data@, max as nat),
{
    let n = if data.len() < max { data.len() } else { max };
    let prefix = crate::bytes::copy_range(data, 0, n);
    assert(prefix@ =~= data@.take(n as int));
    let mut out = chars_of(to_hex(prefix.as_slice()).as_str());
    if data.len() > n {
        out.push('…');
        out.push('(');
        out.push('+');
        let digits = decimal(data.len() - n);
        push_chars(&mut out, digits.as_slice());
        out.push('B');
        out.push(')');
        assert(out@ =~= hex_preview_text(data@, max as nat));
    }
    string_from_chars(out.as_slice())
}

} // verus!
