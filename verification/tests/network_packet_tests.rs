use luanti::network_packet::NetworkPacket;

#[test]
fn roundtrip_u8_u16_u32_u64() {
    let mut p = NetworkPacket::new(0x0002, 0);
    p.write_u8(0x42);
    p.write_u16(0xCAFE);
    p.write_u32(0xDEAD_BEEF);
    p.write_u64(0x0102_0304_0506_0708);
    p.set_read_pos(0);
    assert_eq!(p.read_u8().unwrap(), 0x42);
    assert_eq!(p.read_u16().unwrap(), 0xCAFE);
    assert_eq!(p.read_u32().unwrap(), 0xDEAD_BEEF);
    assert_eq!(p.read_u64().unwrap(), 0x0102_0304_0506_0708);
}

#[test]
fn roundtrip_string_and_wstring() {
    let mut p = NetworkPacket::new(0, 0);
    p.write_utf8("héllo");
    p.write_wstring("wörld");
    p.set_read_pos(0);
    assert_eq!(p.read_utf8().unwrap(), "héllo");
    assert_eq!(p.read_wstring().unwrap(), "wörld");
}

#[test]
fn from_raw_recovers_command() {
    let raw = [0x00u8, 0x02, 0x01, 0x02, 0x03];
    let p = NetworkPacket::from_raw(&raw, 7).unwrap();
    assert_eq!(p.command(), 0x0002);
    assert_eq!(p.peer_id(), 7);
    assert_eq!(p.as_slice(), &[0x01, 0x02, 0x03]);
}

#[test]
fn from_raw_rejects_short_input() {
    let raw = [0x00u8];
    assert!(NetworkPacket::from_raw(&raw, 0).is_err());
}

#[test]
fn into_raw_bytes_roundtrips() {
    let mut p = NetworkPacket::new(0x0043, 0);
    p.write_u16(0x1234);
    p.write_utf8("hi");
    let bytes = p.into_raw_bytes();
    assert_eq!(bytes, vec![0x00, 0x43, 0x12, 0x34, 0x00, 0x02, b'h', b'i']);
}

#[test]
fn read_oob_errors() {
    let mut p = NetworkPacket::new(0, 0);
    p.write_u8(1);
    p.set_read_pos(0);
    assert!(p.read_u16().is_err());
}

#[test]
fn packet_signed_and_vector_roundtrip() {
    let mut p = NetworkPacket::with_peer_id(0x0010, 0, 3);
    p.write_i16(-2);
    p.write_i32(-70000);
    p.write_v3s16(1, -1, 2);
    p.write_v3s32(-5, 6, -7);
    p.write_long_string(b"abc");
    p.write_string(b"xy");
    assert_eq!(p.len(), 2 + 4 + 6 + 12 + 7 + 4);
    p.set_read_pos(0);
    assert_eq!(p.read_i16().unwrap(), -2);
    assert_eq!(p.read_i32().unwrap(), -70000);
    assert_eq!(p.read_v3s16().unwrap(), (1, -1, 2));
    assert_eq!(p.read_v3s32().unwrap(), (-5, 6, -7));
    assert_eq!(p.read_long_string().unwrap(), b"abc".to_vec());
    assert_eq!(p.read_string().unwrap(), b"xy".to_vec());
    assert_eq!(p.remaining(), 0);
    assert!(p.read_u8().is_err());
}

#[test]
fn packet_wstring_wire_layout() {
    let mut p = NetworkPacket::new(0, 0);
    p.write_wstring("hé");
    assert_eq!(p.as_slice(), &[0x00, 0x02, 0x00, b'h', 0x00, 0xe9]);
}
