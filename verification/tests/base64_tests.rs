use luanti::base64_util::{decode, encode, is_valid};

#[test]
fn test_roundtrip() {
    let data = b"hello world";
    let enc = encode(data);
    let dec = decode(&enc).unwrap();
    assert_eq!(dec, data);
}

#[test]
fn test_known_vector() {
    assert_eq!(encode(b"foo"), "Zm9v");
    assert_eq!(decode("Zm9v"), Some(b"foo".to_vec()));
}

#[test]
fn test_is_valid() {
    assert!(is_valid("Zm9v"));
    assert!(!is_valid(""));
    assert!(!is_valid("not base64!"));
}

#[test]
fn base64_padding_and_rejects() {
    assert_eq!(encode(b"fo"), "Zm8=");
    assert_eq!(encode(b""), "");
    assert_eq!(decode("Zm8="), Some(b"fo".to_vec()));
    assert_eq!(decode("Zm9v!"), None);
    assert!(is_valid("Zm8="));
    assert!(!is_valid("Zm8"));
}
