use luanti::frame::{build_base_header, build_control_ack, build_set_peer_id, hex_preview, parse_base_header, wrap_original, wrap_reliable};
use luanti::protocol::{ControlType, PacketType, PEER_ID_SERVER, PROTOCOL_ID};

#[test]
fn base_header_layout() {
    let h = build_base_header(0x1234, 2);
    assert_eq!(&h[0..4], &PROTOCOL_ID.to_be_bytes());
    assert_eq!(h[4..6], 0x1234u16.to_be_bytes());
    assert_eq!(h[6], 2);
}

#[test]
fn wrap_original_layout() {
    let p = wrap_original(&[0xAA, 0xBB]);
    assert_eq!(p[0..4], PROTOCOL_ID.to_be_bytes());
    assert_eq!(p[4..6], PEER_ID_SERVER.to_be_bytes());
    assert_eq!(p[6], 0);
    assert_eq!(p[7], PacketType::Original.to_u8());
    assert_eq!(&p[8..], &[0xAA, 0xBB]);
}

#[test]
fn wrap_reliable_layout() {
    let p = wrap_reliable(0x00FF, &[0x01, 0x02]);
    assert_eq!(p[0..4], PROTOCOL_ID.to_be_bytes());
    assert_eq!(p[4..6], PEER_ID_SERVER.to_be_bytes());
    assert_eq!(p[6], 0);
    assert_eq!(p[7], PacketType::Reliable.to_u8());
    assert_eq!(p[8..10], 0x00FFu16.to_be_bytes());
    assert_eq!(&p[10..], &[0x01, 0x02]);
}

#[test]
fn control_ack_layout() {
    let p = build_control_ack(0x0042);
    assert_eq!(p[7], PacketType::Control.to_u8());
    assert_eq!(p[8], ControlType::Ack.to_u8());
    assert_eq!(p[9..11], 0x0042u16.to_be_bytes());
}

#[test]
fn set_peer_id_layout() {
    let p = build_set_peer_id(0xABCD);
    assert_eq!(p[7], PacketType::Control.to_u8());
    assert_eq!(p[8], ControlType::SetPeerId.to_u8());
    assert_eq!(p[9..11], 0xABCDu16.to_be_bytes());
}

#[test]
fn hex_preview_truncates() {
    let s = hex_preview(&[0xde, 0xad, 0xbe, 0xef], 2);
    assert_eq!(s, "dead…(+2B)");
}

#[test]
fn hex_preview_whole_and_header_parse() {
    assert_eq!(hex_preview(&[0x01, 0xff], 8), "01ff");
    assert_eq!(hex_preview(&[], 4), "");
    assert_eq!(hex_preview(&[0u8; 12], 0), "…(+12B)");
    let h = parse_base_header(&build_base_header(7, 1)).unwrap();
    assert_eq!(h.protocol_id, PROTOCOL_ID);
    assert_eq!(h.sender_peer_id, 7);
    assert_eq!(h.channel, 1);
    assert!(parse_base_header(&[0u8; 6]).is_none());
    assert_eq!(build_control_ack(5).len(), 11);
    assert_eq!(build_set_peer_id(5).len(), 11);
}
