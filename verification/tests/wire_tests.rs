use luanti::wire::{read_string_at, read_u16_at, WireError, WireReader, WireWriter};

#[test]
fn read_u8_u16_u32_u64() {
    let bytes = [0x01u8, 0x00, 0x02, 0x00, 0x00, 0x00, 0x03, 0, 0, 0, 0, 0, 0, 0, 0x04];
    let mut r = WireReader::new(&bytes);
    assert_eq!(r.read_u8().unwrap(), 0x01);
    assert_eq!(r.read_u16().unwrap(), 0x0002);
    assert_eq!(r.read_u32().unwrap(), 0x0000_0003);
    assert_eq!(r.read_u64().unwrap(), 0x0000_0000_0000_0004);
    assert!(r.is_empty());
}

#[test]
fn read_truncated_u16_errors() {
    let bytes = [0x00u8];
    let mut r = WireReader::new(&bytes);
    let err = r.read_u16().unwrap_err();
    assert!(matches!(err, WireError::UnexpectedEof { .. }));
}

#[test]
fn read_string_roundtrip() {
    let mut w = WireWriter::new();
    w.write_string(b"hello");
    let mut r = WireReader::new(w.as_slice());
    assert_eq!(r.read_string().unwrap(), b"hello");
    assert!(r.is_empty());
}

#[test]
fn read_wstring_roundtrip() {
    let mut w = WireWriter::new();
    w.write_wstring("héllo");
    let mut r = WireReader::new(w.as_slice());
    assert_eq!(r.read_wstring().unwrap(), "héllo");
    assert!(r.is_empty());
}

#[test]
fn read_string_truncated() {
    let bytes = [0x00u8, 0x05, b'a', b'b', b'c'];
    let mut r = WireReader::new(&bytes);
    let err = r.read_string().unwrap_err();
    assert!(matches!(err, WireError::UnexpectedEof { .. }));
}

#[test]
fn read_invalid_utf8_errors() {
    let mut w = WireWriter::new();
    w.write_string(&[0xFF, 0xFE, 0xFD]);
    let mut r = WireReader::new(w.as_slice());
    let err = r.read_utf8().unwrap_err();
    assert!(matches!(err, WireError::InvalidUtf8));
}

#[test]
fn read_u16_at_works() {
    let data = [0xAAu8, 0xBB, 0xCC];
    let (v, new_pos) = read_u16_at(&data, 0).unwrap();
    assert_eq!(v, 0xAABB);
    assert_eq!(new_pos, 2);
    assert!(read_u16_at(&data, 2).is_none());
}

#[test]
fn writer_integer_and_string_layout() {
    let mut w = WireWriter::new();
    w.write_u8(0x42);
    w.write_u16(0x1234);
    w.write_u32(0xDEAD_BEEF);
    w.write_u64(0x0102_0304_0506_0708);
    w.write_string(b"hi");
    w.write_wstring("yo");
    assert_eq!(
        w.as_slice(),
        &[
            0x42, 0x12, 0x34, 0xDE, 0xAD, 0xBE, 0xEF, 0x01, 0x02, 0x03, 0x04, 0x05, 0x06, 0x07, 0x08, 0x00, 0x02,
            b'h', b'i', 0x00, 0x02, 0x00, b'y', 0x00, b'o',
        ][..]
    );
    assert_eq!(w.len(), 25);
}

#[test]
fn truncated_read_reports_needed_and_available() {
    let bytes = [0x00u8, 0x01, 0x02];
    let mut r = WireReader::new(&bytes);
    assert_eq!(r.read_u16().unwrap(), 1);
    match r.read_u32() {
        Err(WireError::UnexpectedEof { needed, available }) => {
            assert_eq!(needed, 4);
            assert_eq!(available, 1);
        },
        other => panic!("unexpected {:?}", other),
    }
    assert_eq!(r.remaining(), 1);
}

#[test]
fn signed_and_vector_reads() {
    let mut w = WireWriter::with_capacity(16);
    w.write_i16(-3);
    w.write_i32(-100000);
    w.write_v3s32(1, -2, 3);
    w.write_v2s16(-4, 5);
    w.write_long_string(b"z");
    let bytes = w.into_bytes();
    let mut r = WireReader::new(&bytes);
    assert_eq!(r.read_i16().unwrap(), -3);
    assert_eq!(r.read_i32().unwrap(), -100000);
    assert_eq!(r.read_v3s32().unwrap(), (1, -2, 3));
    assert_eq!(r.read_v2s16().unwrap(), (-4, 5));
    assert_eq!(r.read_long_string().unwrap(), b"z".to_vec());
    assert!(r.is_empty());
}

#[test]
fn read_string_at_offsets() {
    let data = [0x00u8, 0x02, b'o', b'k', 0x00, 0x05, b'x'];
    let (s, next) = read_string_at(&data, 0).unwrap();
    assert_eq!(s, b"ok".to_vec());
    assert_eq!(next, 4);
    assert!(read_string_at(&data, 4).is_none());
}

#[test]
fn writer_helpers() {
    // Floats travel as their IEEE-754 bits; f1000 as the value times 1000.
    let mut w = WireWriter::new();
    w.write_u8(0x42);
    w.write_u16(0x1234);
    w.write_u32(0xDEAD_BEEF);
    w.write_u64(0x0102_0304_0506_0708);
    w.write_u32(1.5f32.to_bits());
    w.write_u16((0.1f32 * 1000.0).round() as u16);
    w.write_u32(1.0f32.to_bits());
    w.write_u32(2.0f32.to_bits());
    w.write_u32(3.0f32.to_bits());
    w.write_string(b"hi");
    w.write_wstring("yo");
    assert_eq!(
        w.as_slice(),
        &[
            0x42, //
            0x12, 0x34, //
            0xDE, 0xAD, 0xBE, 0xEF, //
            0x01, 0x02, 0x03, 0x04, 0x05, 0x06, 0x07, 0x08, //
            0x3F, 0xC0, 0x00, 0x00, // 1.5f
            0x00, 0x64, // f1000(0.1) = 100
            0x3F, 0x80, 0x00, 0x00, // 1.0
            0x40, 0x00, 0x00, 0x00, // 2.0
            0x40, 0x40, 0x00, 0x00, // 3.0
            0x00, 0x02, b'h', b'i', //
            0x00, 0x02, 0x00, b'y', 0x00, b'o', // "yo" in UTF-16 BE
        ][..]
    );
}

#[test]
fn read_v3f_and_back() {
    let mut w = WireWriter::new();
    for v in [1.5f32, -2.25, 3.125] {
        w.write_u32(v.to_bits());
    }
    let mut r = WireReader::new(w.as_slice());
    let x = f32::from_bits(r.read_u32().unwrap());
    let y = f32::from_bits(r.read_u32().unwrap());
    let z = f32::from_bits(r.read_u32().unwrap());
    assert_eq!(x, 1.5);
    assert_eq!(y, -2.25);
    assert_eq!(z, 3.125);
}
