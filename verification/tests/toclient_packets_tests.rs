use luanti::network_packet::NetworkPacket;
use luanti::opcodes::{AccessDeniedCode, ModChannelSignal, ToClientCommand};
use luanti::toclient_packets::{
    definitions_packet,
    create_access_denied, create_announce_media, create_auth_accept_response, create_chat_message_response,
    create_csm_restriction_flags, create_hello_response, create_itemdef_response, create_media_bunch,
    create_modchannel_msg, create_modchannel_signal, create_movement, create_nodedef_response,
    create_srp_bytes_s_b_response, create_time_of_day, serialize_empty_itemdef, serialize_empty_nodedef,
    MediaAnnounceEntry, MediaBunchFile,
};
use flate2::read::ZlibDecoder;
use std::io::Read;

fn bytes(p: &NetworkPacket) -> Vec<u8> {
    p.into_raw_bytes()
}

#[test]
fn test_create_hello_response() {
    let packet = bytes(&create_hello_response(29, 42, 0x01));
    assert_eq!(packet[0..2], ToClientCommand::Hello.to_u16().to_be_bytes());
    assert_eq!(packet[2], 29);
}

#[test]
fn test_create_auth_accept_response() {
    let packet = bytes(&create_auth_accept_response(12345, 0.1f32.to_bits(), 0));
    assert_eq!(packet[0..2], ToClientCommand::AuthAccept.to_u16().to_be_bytes());
    assert_eq!(packet.len(), 30, "AUTH_ACCEPT must be 30 bytes (matches C++ Server::acceptAuth)");
}

#[test]
fn test_create_time_of_day() {
    let packet = bytes(&create_time_of_day(6000, 1.0f32.to_bits()));
    assert_eq!(packet[0..2], ToClientCommand::TimeOfDay.to_u16().to_be_bytes());
    assert_eq!(packet.len(), 8, "TIME_OF_DAY must be 8 bytes (matches C++ Client::handleCommand_TimeOfDay)");
}

#[test]
fn test_create_srp_bytes_s_b_response() {
    let salt = [0u8; 16];
    let b = [0u8; 256];
    let packet = bytes(&create_srp_bytes_s_b_response(&salt, &b));
    assert_eq!(packet[0..2], ToClientCommand::SrpBytesSB.to_u16().to_be_bytes());
    assert_eq!(packet[2..4], (16u16).to_be_bytes());
}

#[test]
fn test_create_access_denied() {
    let packet = bytes(&create_access_denied(AccessDeniedCode::WrongVersion, "Test message"));
    assert_eq!(packet[0..2], ToClientCommand::AccessDenied.to_u16().to_be_bytes());
    assert_eq!(packet[2], AccessDeniedCode::WrongVersion.to_u8());
}

fn utf16_be(bytes: &[u8]) -> String {
    String::from_utf16(&bytes.chunks_exact(2).map(|c| u16::from_be_bytes([c[0], c[1]])).collect::<Vec<_>>()).unwrap()
}

#[test]
fn test_create_chat_message_response() {
    let ts: u64 = 1_700_000_000;
    let packet = bytes(&create_chat_message_response("nrz", "Hello", ts));
    assert_eq!(packet[0..2], ToClientCommand::ChatMessage.to_u16().to_be_bytes());
    assert_eq!(packet[2], 1);
    assert_eq!(packet[3], 0);

    assert_eq!(&packet[4..6], &3u16.to_be_bytes());
    let sender = utf16_be(&packet[6..12]);
    assert_eq!(sender, "nrz");

    assert_eq!(&packet[12..14], &5u16.to_be_bytes());
    let message = utf16_be(&packet[14..24]);
    assert_eq!(message, "Hello");

    let ts_offset = packet.len() - 8;
    assert_eq!(u64::from_be_bytes(packet[ts_offset..].try_into().unwrap()), ts);
}

#[test]
fn test_serialize_empty_itemdef_matches_cpp_wire_format() {
    let payload = serialize_empty_itemdef();
    assert_eq!(payload, vec![0x00, 0x00, 0x00, 0x00, 0x00]);
}

#[test]
fn test_serialize_empty_nodedef_matches_cpp_wire_format() {
    let payload = serialize_empty_nodedef();
    assert_eq!(payload, vec![0x01, 0x00, 0x00, 0x00, 0x00, 0x00, 0x00]);
}

fn long_string_len(packet: &[u8]) -> usize {
    u32::from_be_bytes([packet[2], packet[3], packet[4], packet[5]]) as usize
}

#[test]
fn test_itemdef_response_uses_zlib_below_proto_48() {
    let packet = bytes(&create_itemdef_response(&serialize_empty_itemdef(), 42));
    assert_eq!(packet[0..2], ToClientCommand::ItemDef.to_u16().to_be_bytes());
    let compressed_len = long_string_len(&packet);
    assert_eq!(compressed_len, packet.len() - 6, "long string length must match payload");
    assert!(compressed_len > 0, "compressed payload must be non-empty (was 0 → client EOF)");
    assert_eq!(packet[6], 0x78, "expected zlib CMF byte");
}

#[test]
fn test_nodedef_response_uses_zlib_below_proto_48() {
    let packet = bytes(&create_nodedef_response(&serialize_empty_nodedef(), 42));
    assert_eq!(packet[0..2], ToClientCommand::NodeDef.to_u16().to_be_bytes());
    let compressed_len = long_string_len(&packet);
    assert_eq!(compressed_len, packet.len() - 6);
    assert!(compressed_len > 0);
    assert_eq!(packet[6], 0x78, "expected zlib CMF byte");
}

#[test]
fn test_itemdef_response_uses_zstd_at_or_above_proto_48() {
    let packet = bytes(&create_itemdef_response(&serialize_empty_itemdef(), 48));
    assert_eq!(packet[0..2], ToClientCommand::ItemDef.to_u16().to_be_bytes());
    let compressed_len = long_string_len(&packet);
    assert_eq!(compressed_len, packet.len() - 6);
    assert!(compressed_len > 0);
    assert_eq!(&packet[6..10], &[0x28, 0xB5, 0x2F, 0xFD], "expected zstd magic number");
}

#[test]
fn test_nodedef_response_uses_zstd_at_or_above_proto_48() {
    let packet = bytes(&create_nodedef_response(&serialize_empty_nodedef(), 48));
    assert_eq!(packet[0..2], ToClientCommand::NodeDef.to_u16().to_be_bytes());
    let compressed_len = long_string_len(&packet);
    assert_eq!(compressed_len, packet.len() - 6);
    assert!(compressed_len > 0);
    assert_eq!(&packet[6..10], &[0x28, 0xB5, 0x2F, 0xFD]);
}

#[test]
fn test_itemdef_zlib_roundtrip_decompresses() {

    let serialized = serialize_empty_itemdef();
    let packet = bytes(&create_itemdef_response(&serialized, 42));
    let compressed_len = long_string_len(&packet);
    let mut decoder = ZlibDecoder::new(&packet[6..6 + compressed_len]);
    let mut decompressed = Vec::new();
    decoder.read_to_end(&mut decompressed).expect("zlib decode must not fail (would trigger client EOF)");
    assert_eq!(decompressed, serialized);
}

#[test]
fn nodedef_zstd_roundtrip_decompresses() {
    let serialized = serialize_empty_nodedef();
    let packet = bytes(&create_nodedef_response(&serialized, 48));
    let compressed_len = long_string_len(&packet);
    let decompressed = zstd::decode_all(&packet[6..6 + compressed_len]).unwrap();
    assert_eq!(decompressed, serialized);
}

#[test]
fn test_create_modchannel_signal() {
    let packet = bytes(&create_modchannel_signal(ModChannelSignal::JoinOk, "test_chan"));
    assert_eq!(packet[0..2], ToClientCommand::ModChannelSignal.to_u16().to_be_bytes());
    assert_eq!(packet[2], ModChannelSignal::JoinOk.to_u8());
    assert_eq!(packet[3..5], 9u16.to_be_bytes());
    assert_eq!(&packet[5..14], b"test_chan");
}

#[test]
fn test_create_modchannel_msg() {
    let packet = bytes(&create_modchannel_msg("chan", "hello"));
    assert_eq!(packet[0..2], ToClientCommand::ModChannelMsg.to_u16().to_be_bytes());
    assert_eq!(&packet[2..8], &[0x00, 0x04, b'c', b'h', b'a', b'n']);
    assert_eq!(&packet[8..15], &[0x00, 0x05, b'h', b'e', b'l', b'l', b'o']);
}

#[test]
fn auth_accept_layout() {
    let packet = bytes(&create_auth_accept_response(0x0102030405060708, 0x3DCCCCCD, 2));
    assert_eq!(&packet[2..14], &[0u8; 12]);
    assert_eq!(&packet[14..22], &[1, 2, 3, 4, 5, 6, 7, 8]);
    assert_eq!(&packet[22..26], &[0x3D, 0xCC, 0xCC, 0xCD]);
    assert_eq!(&packet[26..30], &[0, 0, 0, 2]);
}

#[test]
fn hello_and_time_of_day_layout() {
    let packet = bytes(&create_hello_response(29, 0x0102, 0x01020304));
    assert_eq!(packet, vec![0x00, 0x02, 29, 0x00, 0x00, 0x01, 0x02, 0x01, 0x02, 0x03, 0x04, 0x00, 0x00]);
    let tod = bytes(&create_time_of_day(6000, 0x3F800000));
    assert_eq!(&tod[2..], &[0x17, 0x70, 0x3F, 0x80, 0x00, 0x00]);
}

#[test]
fn csm_restriction_flags_layout() {
    let packet = bytes(&create_csm_restriction_flags(0x11, 0x22));
    assert_eq!(packet[0..2], ToClientCommand::CsmRestrictionFlags.to_u16().to_be_bytes());
    assert_eq!(&packet[2..], &[0, 0, 0, 0, 0, 0, 0, 0x11, 0, 0, 0, 0x22]);
}

#[test]
fn movement_is_twelve_floats() {
    let v = 1.0f32.to_bits();
    let packet = bytes(&create_movement(v, v, v, v, v, v, v, v, v, v, v, v));
    assert_eq!(packet.len(), 2 + 48);
    assert_eq!(&packet[2..6], &[0x3F, 0x80, 0, 0]);
}

#[test]
fn announce_media_and_bunch_layout() {
    let files = vec![MediaAnnounceEntry { name: "a.png".to_string(), sha1_digest: [0u8; 20] }];
    let packet = bytes(&create_announce_media(&files, "http://m"));
    assert_eq!(packet[0..2], ToClientCommand::AnnounceMedia.to_u16().to_be_bytes());
    assert_eq!(&packet[2..4], &[0, 1]);
    assert_eq!(&packet[4..11], &[0, 5, b'a', b'.', b'p', b'n', b'g']);
    assert_eq!(&packet[11..13], &[0, 28]);
    assert_eq!(&packet[13..41], b"AAAAAAAAAAAAAAAAAAAAAAAAAAA=");
    assert_eq!(&packet[41..], b"\x00\x08http://m");

    let bunch = vec![MediaBunchFile { name: "x".to_string(), data: vec![9, 9] }];
    let packet = bytes(&create_media_bunch(1, 0, &bunch));
    assert_eq!(packet[0..2], ToClientCommand::Media.to_u16().to_be_bytes());
    assert_eq!(&packet[2..], &[0, 1, 0, 0, 0, 0, 0, 1, 0, 1, b'x', 0, 0, 0, 2, 9, 9]);
}

#[test]
fn definitions_packet_layout() {
    let p = bytes(&definitions_packet(ToClientCommand::NodeDef, &[7, 8, 9]));
    assert_eq!(p, vec![0x00, 0x3A, 0, 0, 0, 3, 7, 8, 9]);
}
