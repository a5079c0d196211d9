//! Builders of the packets the server sends to clients. Each returns a
//! `NetworkPacket` holding the command opcode and the payload.
//!
//! Floating-point fields are taken as their IEEE-754 bit patterns.

use vstd::prelude::*;
use std::io::Write;
use vstd::string::StringSliceAdditionalSpecFns;
use vstd::utf8::encode_utf8;
use crate::bytes::{be_u16, be_u32, be_u64};
use crate::codec::{enc_long_string, enc_string, enc_wstring};
use crate::crypto::base64_encoding;
use crate::base64_util::encode;
use crate::network_packet::{NetworkPacket, PacketView};
use crate::opcodes::{access_denied_code, mod_channel_signal_code, to_client_code, AccessDeniedCode, ModChannelSignal, ToClientCommand};

verus! {

/// Compressed bytes of `data` as zlib (default level) writes them.
pub uninterp spec fn zlib_encoding(data: Seq<u8>) -> Seq<u8>;

/// Compressed bytes of `data` as zstd (level 0) writes them, or `None`
/// when the encoder reports an error.
pub uninterp spec fn zstd_encoding(data: Seq<u8>) -> Option<Seq<u8>>;

/// zlib stream of `data` at the default level (wraps flate2's
/// `ZlibEncoder`, writing into a vector). Writes into a vector do not fail,
/// so the encoder's `io::Result`s are always `Ok` here; the bytes are
/// named, not stated.
#[verifier::external_body]
fn zlib_compress(data: &[u8]) -> (r: Vec<u8>)
    ensures
        r@ == zlib_encoding(data@),
{
    let mut encoder = flate2::write::ZlibEncoder::new(Vec::new(), flate2::Compression::default());
    encoder.write_all(data).expect("zlib write");
    encoder.finish().expect("zlib finish")
}

/// zstd frame of `data` at level 0 (wraps `zstd::stream::encode_all`);
/// `None` when the encoder fails.
#[verifier::external_body]
fn zstd_compress(data: &[u8]) -> (r: Option<Vec<u8>>)
    ensures
        match r {
            Some(v) => zstd_encoding(data@) == Some(v@),
            None => zstd_encoding(data@) is None,
        },
{
    zstd::stream::encode_all(data, 0).ok()
}

/// A fresh packet with command `command` and payload `data`.
pub open spec fn packet_of(command: ToClientCommand, data: Seq<u8>) -> PacketView {
    PacketView { command: to_client_code(command), data, read_pos: 0, peer_id: 0 }
}

/// Create `TOCLIENT_HELLO`: serialization version, unused compression
/// modes, protocol version, auth mechanisms, unused user name.
pub fn create_hello_response(serialization_version: u8, protocol_version: u16, auth_mechs: u32) -> (p: NetworkPacket)
    ensures
        p@ == packet_of(
            ToClientCommand::Hello,
            seq![serialization_version] + be_u16(0) + be_u16(protocol_version) + be_u32(auth_mechs) + be_u16(0),
        ),
{
    let mut p = NetworkPacket::new(ToClientCommand::Hello.to_u16(), 1 + 2 + 2 + 4 + 2);
    p.write_u8(serialization_version);
    p.write_u16(0);
    p.write_u16(protocol_version);
    p.write_u32(auth_mechs);
    p.write_utf8("");
    proof {
        reveal_strlit("");
        assert(encode_utf8(""@) =~= Seq::<u8>::empty());
        assert(p@.data =~= seq![serialization_version] + be_u16(0) + be_u16(protocol_version) + be_u32(auth_mechs) + be_u16(0));
    }
    p
}

/// Create `TOCLIENT_SRP_BYTES_S_B`: the salt and the server's `B`.
pub fn create_srp_bytes_s_b_response(salt: &[u8], bytes_b: &[u8]) -> (p: NetworkPacket)
    ensures
        p@ == packet_of(ToClientCommand::SrpBytesSB, enc_string(salt@) + enc_string(bytes_b@)),
{
    let mut p = NetworkPacket::new(ToClientCommand::SrpBytesSB.to_u16(), 0);
    p.write_string(salt);
    p.write_string(bytes_b);
    assert(p@.data =~= enc_string(salt@) + enc_string(bytes_b@));
    p
}

/// Create `TOCLIENT_AUTH_ACCEPT`: an unused zero position (three zero
/// floats), the map seed, the send interval (float bits) and the sudo
/// auth mechanisms.
pub fn create_auth_accept_response(map_seed: u64, send_interval_bits: u32, sudo_auth_mechs: u32) -> (p: NetworkPacket)
    ensures
        p@ == packet_of(
            ToClientCommand::AuthAccept,
            be_u32(0) + be_u32(0) + be_u32(0) + be_u64(map_seed) + be_u32(send_interval_bits) + be_u32(sudo_auth_mechs),
        ),
{
    let mut p = NetworkPacket::new(ToClientCommand::AuthAccept.to_u16(), 12 + 8 + 4 + 4);
    p.write_u32(0);
    p.write_u32(0);
    p.write_u32(0);
    p.write_u64(map_seed);
    p.write_u32(send_interval_bits);
    p.write_u32(sudo_auth_mechs);
    assert(p@.data =~= be_u32(0) + be_u32(0) + be_u32(0) + be_u64(map_seed) + be_u32(send_interval_bits) + be_u32(sudo_auth_mechs));
    p
}

/// Create `TOCLIENT_ACCESS_DENIED`: reason code, message, no reconnect.
pub fn create_access_denied(code: AccessDeniedCode, message: &str) -> (p: NetworkPacket)
    ensures
        p@ == packet_of(
            ToClientCommand::AccessDenied,
            seq![access_denied_code(code)] + enc_string(message.spec_bytes()) + seq![0u8],
        ),
{
    let mut p = NetworkPacket::new(ToClientCommand::AccessDenied.to_u16(), 0);
    p.write_u8(code.to_u8());
    p.write_utf8(message);
    p.write_u8(0);
    assert(p@.data =~= seq![access_denied_code(code)] + enc_string(message.spec_bytes()) + seq![0u8]);
    p
}

/// Create `TOCLIENT_CHAT_MESSAGE`: version 1, normal type, sender and
/// message as wstrings, timestamp.
pub fn create_chat_message_response(sender: &str, message: &str, timestamp: u64) -> (p: NetworkPacket)
    ensures
        p@ == packet_of(
            ToClientCommand::ChatMessage,
            seq![1u8, 0u8] + enc_wstring(sender@) + enc_wstring(message@) + be_u64(timestamp),
        ),
{
    let mut p = NetworkPacket::new(ToClientCommand::ChatMessage.to_u16(), 0);
    p.write_u8(1);
    p.write_u8(0);
    p.write_wstring(sender);
    p.write_wstring(message);
    p.write_u64(timestamp);
    assert(p@.data =~= seq![1u8, 0u8] + enc_wstring(sender@) + enc_wstring(message@) + be_u64(timestamp));
    p
}

/// A media file entry of `TOCLIENT_ANNOUNCE_MEDIA`.
#[derive(Debug, Clone)]
pub struct MediaAnnounceEntry {
    /// File name (relative path).
    pub name: String,
    /// Raw SHA-1 digest of the file contents.
    pub sha1_digest: [u8; 20],
}

/// Name and digest of each announced file.
pub open spec fn announce_views(files: Seq<MediaAnnounceEntry>) -> Seq<(Seq<char>, Seq<u8>)> {
    files.map_values(|f: MediaAnnounceEntry| (f.name@, f.sha1_digest@))
}

/// Payload bytes announcing files given by name and digest.
pub open spec fn announce_entries(files: Seq<(Seq<char>, Seq<u8>)>) -> Seq<u8>
    decreases files.len(),
{
    if files.len() == 0 {
        Seq::empty()
    } else {
        announce_entries(files.drop_last()) + enc_string(encode_utf8(files.last().0))
            + enc_string(encode_utf8(base64_encoding(files.last().1)))
    }
}

/// Create `TOCLIENT_ANNOUNCE_MEDIA`: the file count, each file's name and
/// base64 SHA-1, then the remote media servers.
pub fn create_announce_media(files: &[MediaAnnounceEntry], remote_media: &str) -> (p: NetworkPacket)
    ensures
        p@ == packet_of(
            ToClientCommand::AnnounceMedia,
            be_u16(files@.len() as u16) + announce_entries(announce_views(files@)) + enc_string(remote_media.spec_bytes()),
        ),
{
    let mut p = NetworkPacket::new(ToClientCommand::AnnounceMedia.to_u16(), 0);
    p.write_u16(files.len() as u16);
    let mut i: usize = 0;
    while i < files.len()
        invariant
            i <= files@.len(),
            p@ == packet_of(ToClientCommand::AnnounceMedia, be_u16(files@.len() as u16) + announce_entries(announce_views(files@.take(i as int)))),
        decreases files.len() - i,
    {
        let f = &files[i];
        p.write_utf8(f.name.as_str());
        let b64 = encode(&f.sha1_digest);
        p.write_utf8(b64.as_str());
        proof {
            assert(announce_views(files@.take(i + 1)).drop_last() =~= announce_views(files@.take(i as int)));
            assert(p@.data =~= be_u16(files@.len() as u16) + announce_entries(announce_views(files@.take(i + 1))));
        }
        i = i + 1;
    }
    assert(files@.take(files@.len() as int) =~= files@);
    p.write_utf8(remote_media);
    assert(p@.data =~= be_u16(files@.len() as u16) + announce_entries(announce_views(files@)) + enc_string(remote_media.spec_bytes()));
    p
}

/// A media file of `TOCLIENT_MEDIA`.
#[derive(Debug, Clone)]
pub struct MediaBunchFile {
    pub name: String,
    pub data: Vec<u8>,
}

/// Name and contents of each file of a bunch.
pub open spec fn bunch_views(files: Seq<MediaBunchFile>) -> Seq<(Seq<char>, Seq<u8>)> {
    files.map_values(|f: MediaBunchFile| (f.name@, f.data@))
}

/// Payload bytes of the files of a media bunch, given by name and contents.
pub open spec fn bunch_entries(files: Seq<(Seq<char>, Seq<u8>)>) -> Seq<u8>
    decreases files.len(),
{
    if files.len() == 0 {
        Seq::empty()
    } else {
        bunch_entries(files.drop_last()) + enc_string(encode_utf8(files.last().0)) + enc_long_string(files.last().1)
    }
}

/// Create `TOCLIENT_MEDIA` (one bunch): bunch count, bunch index, file
/// count, each file's name and data.
pub fn create_media_bunch(total_bunches: u16, bunch_index: u16, files: &[MediaBunchFile]) -> (p: NetworkPacket)
    ensures
        p@ == packet_of(
            ToClientCommand::Media,
            be_u16(total_bunches) + be_u16(bunch_index) + be_u32(files@.len() as u32) + bunch_entries(bunch_views(files@)),
        ),
{
    let mut p = NetworkPacket::new(ToClientCommand::Media.to_u16(), 0);
    p.write_u16(total_bunches);
    p.write_u16(bunch_index);
    p.write_u32(files.len() as u32);
    let mut i: usize = 0;
    while i < files.len()
        invariant
            i <= files@.len(),
            p@ == packet_of(
                ToClientCommand::Media,
                be_u16(total_bunches) + be_u16(bunch_index) + be_u32(files@.len() as u32) + bunch_entries(bunch_views(files@.take(i as int))),
            ),
        decreases files.len() - i,
    {
        let f = &files[i];
        p.write_utf8(f.name.as_str());
        p.write_long_string(f.data.as_slice());
        proof {
            assert(bunch_views(files@.take(i + 1)).drop_last() =~= bunch_views(files@.take(i as int)));
            assert(p@.data =~= be_u16(total_bunches) + be_u16(bunch_index) + be_u32(files@.len() as u32)
                + bunch_entries(bunch_views(files@.take(i + 1))));
        }
        i = i + 1;
    }
    assert(files@.take(files@.len() as int) =~= files@);
    p
}

/// Definitions compressed for `protocol_version`: zstd from 48 on (an
/// encoder error gives no bytes), zlib below.
pub open spec fn compressed_definitions(serialized: Seq<u8>, protocol_version: u16) -> Seq<u8> {
    if protocol_version >= 48 {
        match zstd_encoding(serialized) {
            Some(c) => c,
            None => Seq::empty(),
        }
    } else {
        zlib_encoding(serialized)
    }
}

/// Compresses serialized definitions with the codec the protocol version
/// mandates.
fn compress_definitions(serialized: &[u8], protocol_version: u16) -> (c: Vec<u8>)
    ensures
        c@ == compressed_definitions(serialized@, protocol_version),
{
    if protocol_version >= 48 {
        match zstd_compress(serialized) {
            Some(c) => c,
            None => Vec::new(),
        }
    } else {
        zlib_compress(serialized)
    }
}

/// A definitions packet with command `command` carrying the already
/// compressed definitions `compressed` as a long string.
pub fn definitions_packet(command: ToClientCommand, compressed: &[u8]) -> (p: NetworkPacket)
    ensures
        p@ == packet_of(command, enc_long_string(compressed@)),
{
    let mut p = NetworkPacket::new(command.to_u16(), 0);
    p.write_long_string(compressed);
    assert(p@.data =~= enc_long_string(compressed@));
    p
}

/// Create `TOCLIENT_NODEDEF`: the compressed node definitions as a long
/// string.
pub fn create_nodedef_response(serialized: &[u8], protocol_version: u16) -> (p: NetworkPacket)
    ensures
        p@ == packet_of(ToClientCommand::NodeDef, enc_long_string(compressed_definitions(serialized@, protocol_version))),
{
    let compressed = compress_definitions(serialized, protocol_version);
    definitions_packet(ToClientCommand::NodeDef, compressed.as_slice())
}

/// Create `TOCLIENT_ITEMDEF`: the compressed item definitions as a long
/// string.
pub fn create_itemdef_response(serialized: &[u8], protocol_version: u16) -> (p: NetworkPacket)
    ensures
        p@ == packet_of(ToClientCommand::ItemDef, enc_long_string(compressed_definitions(serialized@, protocol_version))),
{
    let compressed = compress_definitions(serialized, protocol_version);
    definitions_packet(ToClientCommand::ItemDef, compressed.as_slice())
}

/// Serialize an empty item definition manager: version 0, no items, no
/// aliases.
pub fn serialize_empty_itemdef() -> (v: Vec<u8>)
    ensures
        v@ == seq![0u8, 0u8, 0u8, 0u8, 0u8],
{
    let mut p = NetworkPacket::new(0, 0);
    p.write_u8(0);
    p.write_u16(0);
    p.write_u16(0);
    assert(p@.data =~= seq![0u8, 0u8, 0u8, 0u8, 0u8]);
    p.take_payload()
}

/// Serialize an empty node definition manager: version 1, no nodes, an
/// empty inner 32-bit string.
pub fn serialize_empty_nodedef() -> (v: Vec<u8>)
    ensures
        v@ == seq![1u8, 0u8, 0u8, 0u8, 0u8, 0u8, 0u8],
{
    let mut p = NetworkPacket::new(0, 0);
    p.write_u8(1);
    p.write_u16(0);
    p.write_u32(0);
    assert(p@.data =~= seq![1u8, 0u8, 0u8, 0u8, 0u8, 0u8, 0u8]);
    p.take_payload()
}

/// Create `TOCLIENT_TIME_OF_DAY`: time of day and day speed (float bits).
pub fn create_time_of_day(time_of_day: u16, time_speed_bits: u32) -> (p: NetworkPacket)
    ensures
        p@ == packet_of(ToClientCommand::TimeOfDay, be_u16(time_of_day) + be_u32(time_speed_bits)),
{
    let mut p = NetworkPacket::new(ToClientCommand::TimeOfDay.to_u16(), 2 + 4);
    p.write_u16(time_of_day);
    p.write_u32(time_speed_bits);
    assert(p@.data =~= be_u16(time_of_day) + be_u32(time_speed_bits));
    p
}

/// Create `TOCLIENT_CSM_RESTRICTION_FLAGS`: the flags and the node range.
pub fn create_csm_restriction_flags(flags: u64, noderange: u32) -> (p: NetworkPacket)
    ensures
        p@ == packet_of(ToClientCommand::CsmRestrictionFlags, be_u64(flags) + be_u32(noderange)),
{
    let mut p = NetworkPacket::new(ToClientCommand::CsmRestrictionFlags.to_u16(), 8);
    p.write_u64(flags);
    p.write_u32(noderange);
    assert(p@.data =~= be_u64(flags) + be_u32(noderange));
    p
}

/// Payload of the twelve movement parameters (float bits, in order).
pub open spec fn movement_payload(params: Seq<u32>) -> Seq<u8>
    decreases params.len(),
{
    if params.len() == 0 {
        Seq::empty()
    } else {
        movement_payload(params.drop_last()) + be_u32(params.last())
    }
}

/// Create `TOCLIENT_MOVEMENT`: exactly twelve floats (given as bits).
pub fn create_movement(
    acceleration_default: u32,
    acceleration_air: u32,
    acceleration_fast: u32,
    speed_walk: u32,
    speed_crouch: u32,
    speed_fast: u32,
    speed_climb: u32,
    speed_jump: u32,
    liquid_fluidity: u32,
    liquid_fluidity_smooth: u32,
    liquid_sink: u32,
    gravity: u32,
) -> (p: NetworkPacket)
    ensures
        p@ == packet_of(
            ToClientCommand::Movement,
            movement_payload(seq![
                acceleration_default, acceleration_air, acceleration_fast, speed_walk, speed_crouch, speed_fast,
                speed_climb, speed_jump, liquid_fluidity, liquid_fluidity_smooth, liquid_sink, gravity,
            ]),
        ),
{
    let params: [u32; 12] = [
        acceleration_default, acceleration_air, acceleration_fast, speed_walk, speed_crouch, speed_fast,
        speed_climb, speed_jump, liquid_fluidity, liquid_fluidity_smooth, liquid_sink, gravity,
    ];
    let ghost all = seq![
        acceleration_default, acceleration_air, acceleration_fast, speed_walk, speed_crouch, speed_fast,
        speed_climb, speed_jump, liquid_fluidity, liquid_fluidity_smooth, liquid_sink, gravity,
    ];
    assert(params@ =~= all);
    let mut p = NetworkPacket::new(ToClientCommand::Movement.to_u16(), 12 * 4);
    let mut i: usize = 0;
    while i < 12
        invariant
            i <= 12,
            params@ == all,
            p@ == packet_of(ToClientCommand::Movement, movement_payload(all.take(i as int))),
        decreases 12 - i,
    {
        p.write_u32(params[i]);
        proof {
            assert(all.take(i + 1).drop_last() =~= all.take(i as int));
        }
        i = i + 1;
    }
    assert(all.take(12) =~= all);
    p
}

/// Create `TOCLIENT_MODCHANNEL_SIGNAL`: the signal and the channel name.
pub fn create_modchannel_signal(signal: ModChannelSignal, channel_name: &str) -> (p: NetworkPacket)
    ensures
        p@ == packet_of(
            ToClientCommand::ModChannelSignal,
            seq![mod_channel_signal_code(signal)] + enc_string(channel_name.spec_bytes()),
        ),
{
    let mut p = NetworkPacket::new(ToClientCommand::ModChannelSignal.to_u16(), 0);
    p.write_u8(signal.to_u8());
    p.write_utf8(channel_name);
    assert(p@.data =~= seq![mod_channel_signal_code(signal)] + enc_string(channel_name.spec_bytes()));
    p
}

/// Create `TOCLIENT_MODCHANNEL_MSG`: the channel name and the message.
pub fn create_modchannel_msg(channel_name: &str, channel_msg: &str) -> (p: NetworkPacket)
    ensures
        p@ == packet_of(
            ToClientCommand::ModChannelMsg,
            enc_string(channel_name.spec_bytes()) + enc_string(channel_msg.spec_bytes()),
        ),
{
    let mut p = NetworkPacket::new(ToClientCommand::ModChannelMsg.to_u16(), 0);
    p.write_utf8(channel_name);
    p.write_utf8(channel_msg);
    assert(p@.data =~= enc_string(channel_name.spec_bytes()) + enc_string(channel_msg.spec_bytes()));
    p
}

} // verus!
