use luanti::srp::{
    bytes_equal, create_salted_verification_key, to_hex, SrpError, SrpVerifier, G_2048, N_HEX_2048, N_LEN_BYTES,
    SHA256_DIGEST_LENGTH,
};
use num_bigint::BigUint;
use rand::RngCore;
use sha2::{Digest, Sha256};

fn pad_to_n(b: &[u8]) -> Vec<u8> {
    if b.len() >= N_LEN_BYTES {
        b[b.len() - N_LEN_BYTES..].to_vec()
    } else {
        let mut out = vec![0u8; N_LEN_BYTES - b.len()];
        out.extend_from_slice(b);
        out
    }
}

fn modulus() -> BigUint {
    BigUint::parse_bytes(N_HEX_2048.as_bytes(), 16).unwrap()
}

fn random_a_pub() -> Vec<u8> {
    let mut a_bytes = vec![0u8; 32];
    rand::thread_rng().fill_bytes(&mut a_bytes);
    let a = BigUint::from_bytes_be(&a_bytes);
    let g = BigUint::from(G_2048);
    let a_pub = g.modpow(&a, &modulus());
    pad_to_n(&a_pub.to_bytes_be())
}

#[test]
fn test_create_salted_verifier_dimensions() {
    let (salt, verifier) = create_salted_verification_key("alice", b"password", None).unwrap();
    assert_eq!(salt.len(), 16);
    assert_eq!(verifier.len(), N_LEN_BYTES);
}

#[test]
fn test_create_salted_verifier_reproducible_with_salt() {
    let salt = vec![0xAAu8; 16];
    let (s1, v1) = create_salted_verification_key("alice", b"password", Some(&salt)).unwrap();
    let (s2, v2) = create_salted_verification_key("alice", b"password", Some(&salt)).unwrap();
    assert_eq!(s1, s2);
    assert_eq!(v1, v2);
}

#[test]
fn test_verifier_rejects_zero_a() {
    let (salt, verifier) = create_salted_verification_key("alice", b"password", None).unwrap();
    let result = SrpVerifier::new("alice", &salt, &verifier, &[0u8; 32], None);
    assert!(result.is_err());
}

#[test]
fn test_verifier_rejects_wrong_m() {
    let (salt, verifier) = create_salted_verification_key("alice", b"password", None).unwrap();
    let a_pub = random_a_pub();
    let (mut server, b_bytes) = SrpVerifier::new("alice", &salt, &verifier, &a_pub, None).unwrap();
    assert_eq!(b_bytes.len(), N_LEN_BYTES);
    assert_eq!(server.session_key_length(), 32);
    assert!(!server.is_authenticated());

    let wrong_m = [0x42u8; SHA256_DIGEST_LENGTH];
    let result = server.verify_session(&wrong_m).unwrap();
    assert!(result.is_none(), "Server accepted wrong M");
    assert!(!server.is_authenticated());
}

#[test]
fn test_verifier_rejects_short_m() {
    let (salt, verifier) = create_salted_verification_key("alice", b"password", None).unwrap();
    let a_pub = random_a_pub();
    let (mut server, _) = SrpVerifier::new("alice", &salt, &verifier, &a_pub, None).unwrap();
    let result = server.verify_session(&[0u8; 16]);
    assert!(result.is_err());
}

#[test]
fn verifier_with_given_b_is_deterministic_and_keyed() {
    let salt = vec![0x11u8; 16];
    let (_, verifier) = create_salted_verification_key("bob", b"pw", Some(&salt)).unwrap();
    let a_pub = random_a_pub();
    let b = [0x07u8; 32];
    let (s1, b1) = SrpVerifier::new("bob", &salt, &verifier, &a_pub, Some(&b)).unwrap();
    let (s2, b2) = SrpVerifier::new("bob", &salt, &verifier, &a_pub, Some(&b)).unwrap();
    assert_eq!(b1, b2);
    assert_eq!(s1.session_key(), s2.session_key());
    assert_eq!(s1.session_key().len(), 32);
}

#[test]
fn short_m_error_names_lengths() {
    let (salt, verifier) = create_salted_verification_key("alice", b"password", None).unwrap();
    let a_pub = random_a_pub();
    let (mut server, _) = SrpVerifier::new("alice", &salt, &verifier, &a_pub, None).unwrap();
    match server.verify_session(&[0u8; 5]) {
        Err(SrpError::InvalidMLength { got, expected }) => {
            assert_eq!(got, 5);
            assert_eq!(expected, 32);
        },
        _ => panic!("expected an M length error"),
    }
}

#[test]
fn a_equal_to_modulus_is_rejected() {
    let (salt, verifier) = create_salted_verification_key("alice", b"password", None).unwrap();
    let n = modulus().to_bytes_be();
    assert!(matches!(
        SrpVerifier::new("alice", &salt, &verifier, &n, None),
        Err(SrpError::SafetyCheckViolated)
    ));
}

#[test]
fn hex_and_byte_comparison() {
    assert_eq!(to_hex(&[0x00, 0xab, 0x10]), "00ab10");
    assert_eq!(to_hex(&[]), "");
    assert!(bytes_equal(b"abc", b"abc"));
    assert!(!bytes_equal(b"abc", b"abd"));
    assert!(!bytes_equal(b"ab", b"abc"));
}

#[test]
fn verifier_is_g_to_the_x_mod_n() {
    let salt = vec![0x33u8; 16];
    let (_, v) = create_salted_verification_key("carol", b"secret", Some(&salt)).unwrap();
    let mut inner = Sha256::new();
    inner.update(b"carol");
    inner.update(b":");
    inner.update(b"secret");
    let ih = inner.finalize();
    let mut outer = Sha256::new();
    outer.update(&salt);
    outer.update(ih);
    let x = BigUint::from_bytes_be(&outer.finalize());
    let expected = pad_to_n(&BigUint::from(G_2048).modpow(&x, &modulus()).to_bytes_be());
    assert_eq!(v, expected);
}
