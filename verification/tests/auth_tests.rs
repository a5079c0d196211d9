use luanti::auth::{
    trim,
    decode_srp_verifier_and_salt, encode_srp_verifier, generate_srp_verifier_and_salt, get_encoded_srp_verifier,
    is_valid_player_name, translate_password,
};
use luanti::base64_util;
use luanti::srp::create_salted_verification_key;
use sha1::Digest;

#[test]
fn test_translate_password_empty() {
    assert_eq!(translate_password("alice", ""), "");
}

#[test]
fn test_translate_password_known_vector() {
    let p = translate_password("alice", "password");
    assert!(!p.is_empty());
    assert!(base64_util::is_valid(&p));
}

#[test]
fn test_encode_decode_roundtrip() {
    let (salt, verifier) = generate_srp_verifier_and_salt("alice", "hunter2").unwrap();
    let encoded = encode_srp_verifier(&verifier, &salt);
    assert!(encoded.starts_with("#1#"));
    let mut v2 = Vec::new();
    let mut s2 = Vec::new();
    assert!(decode_srp_verifier_and_salt(&encoded, &mut v2, &mut s2));
    assert_eq!(v2, verifier);
    assert_eq!(s2, salt);
}

#[test]
fn test_decode_rejects_garbage() {
    let mut v = Vec::new();
    let mut s = Vec::new();
    assert!(!decode_srp_verifier_and_salt("not a verifier", &mut v, &mut s));
    assert!(!decode_srp_verifier_and_salt("#1#!!!#", &mut v, &mut s));
    assert!(!decode_srp_verifier_and_salt("#2#Zm9v#Zm9v", &mut v, &mut s));
}

#[test]
fn test_is_valid_player_name() {
    assert!(is_valid_player_name("alice"));
    assert!(is_valid_player_name("Bob_99"));
    assert!(is_valid_player_name("a-b-c"));
    assert!(!is_valid_player_name(""));
    assert!(!is_valid_player_name("a name with space"));
    assert!(!is_valid_player_name("a".repeat(21).as_str()));
    assert!(!is_valid_player_name("a!b"));
}

#[test]
fn test_get_encoded_srp_verifier() {
    let encoded = get_encoded_srp_verifier("alice", "password").unwrap();
    let mut v = Vec::new();
    let mut s = Vec::new();
    assert!(decode_srp_verifier_and_salt(&encoded, &mut v, &mut s));
    assert_eq!(s.len(), 16);
    assert_eq!(v.len(), 256);
}

#[test]
fn translate_password_is_base64_of_sha1_of_name_and_password() {
    // SHA-1("alicepassword"), base64-encoded.
    let digest = sha1::Sha1::digest(b"alicepassword");
    let expected = base64_util::encode(&digest);
    assert_eq!(translate_password("alice", "password"), expected);
    assert_eq!(expected.len(), 28);
}

#[test]
fn encode_srp_verifier_layout() {
    assert_eq!(encode_srp_verifier(b"foo", b"bar"), "#1#YmFy#Zm9v");
    let mut v = Vec::new();
    let mut s = Vec::new();
    assert!(decode_srp_verifier_and_salt("#1#YmFy#Zm9v", &mut v, &mut s));
    assert_eq!(v, b"foo".to_vec());
    assert_eq!(s, b"bar".to_vec());
    assert!(!decode_srp_verifier_and_salt("#1#YmFy", &mut v, &mut s));
}

#[test]
fn player_name_length_limit_is_twenty() {
    assert!(is_valid_player_name(&"a".repeat(20)));
    assert!(!is_valid_player_name(&"a".repeat(21)));
}

#[test]
fn sha256_known_vector() {
    let d = luanti::auth::sha256(b"abc");
    assert_eq!(
        luanti::srp::to_hex(&d),
        "ba7816bf8f01cfea414140de5dae2223b00361a396177a9cb410ff61f20015ad"
    );
}

#[test]
fn trim_strips_unicode_white_space() {
    assert_eq!(trim("  a b \n"), "a b");
    assert_eq!(trim("\u{3000}x\t"), "x");
    assert_eq!(trim("   "), "");
    assert_eq!(trim("é"), "é");
}

#[test]
fn srp_verifier_uses_lower_cased_name() {
    let (salt, v) = generate_srp_verifier_and_salt("ALICE", "pw").unwrap();
    assert_eq!(salt.len(), 16);
    let (_, lower) = create_salted_verification_key("alice", b"pw", Some(&salt)).unwrap();
    let (_, upper) = create_salted_verification_key("ALICE", b"pw", Some(&salt)).unwrap();
    assert_eq!(v, lower);
    assert_ne!(v, upper);
}
