//! SRP-6a, server side: the verifier that holds a user's password
//! verifier and checks the client's proof, with SHA-256 as hash.
//!
//! Numbers travel as big-endian byte strings; every hashed number is
//! first brought to `N_LEN_BYTES` bytes.

use vstd::prelude::*;
use vstd::arithmetic::power::pow;
use crate::crypto::{
    be_fixed, be_value, biguint_add, biguint_from_hex, biguint_hex_value, biguint_modpow, biguint_mul,
    biguint_rem, pad_to_len, random_bytes, sha256, sha256_of,
};
use crate::bytes::{push_slice, to_vec};
use crate::strings::{chars_of, string_from_chars};
use vstd::string::StringSliceAdditionalSpecFns;

verus! {

/// Length of a SHA-256 digest.
pub const SHA256_DIGEST_LENGTH: usize = 32;

/// The group modulus N in hexadecimal.
pub const N_HEX_2048: &'static str = "AC6BDB41324A9A9BF166DE5E1389582FAF72B6651987EE07FC3192943DB56050A37329CBB4A099ED8193E0757767A13DD52312AB4B03310DCD7F48A9DA04FD50E8083969EDB767B0CF6095179A163AB3661A05FBD5FAAAE82918A9962F0B93B855F97993EC975EEAA80D740ADBF4FF747359D041D5C33EA71D281E446B14773BCA97B43A23FB801676BD207A436C6481F1D2B9078717461A5B9D32E688F87748544523B524B0D57D5EA77A2775D2ECFA032CFBDBF52FB3786160279004E57AE6AF874E7303CE53299CCC041C7BC308D82A5698F3A8D0C38271AE35F8E9DBFBB694B5C803D89F7AE435DE6D25CFC9F9C3B0D66F0FC8B29A07B7B1DA7BD64B3F30D8B7A1A2C3D6F70A8B4F7E2C1D3A5B0E9F8C7B6A4D3E2F1C0B9A8D7E6F5C4B3A29180F1E2D3C4B5A69788F9E0D1C2B3A49586778899AABBCCDDEEFF0011223344556677";

/// The group generator g.
pub const G_2048: u32 = 2;

/// Length every hashed number is brought to.
pub const N_LEN_BYTES: usize = 256;

/// Errors of the SRP computations.
#[derive(Debug, PartialEq, Eq, Structural)]
pub enum SrpError {
    /// The modulus text does not parse, or parses to a number below 2.
    InvalidModulus,
    /// The client's `A` is a multiple of `N`.
    SafetyCheckViolated,
    /// The client's proof has the wrong length.
    InvalidMLength { got: usize, expected: usize },
}

/// Whether `c` is a Unicode `White_Space` character.
pub open spec fn is_white_space(c: char) -> bool {
    ('\u{9}' <= c && c <= '\u{d}') || c == ' ' || c == '\u{85}' || c == '\u{a0}' || c == '\u{1680}'
        || ('\u{2000}' <= c && c <= '\u{200a}') || c == '\u{2028}' || c == '\u{2029}' || c == '\u{202f}'
        || c == '\u{205f}' || c == '\u{3000}'
}

/// Whether `c` is a Unicode `White_Space` character (as `char::is_whitespace`).
pub fn white_space(c: char) -> (b: bool)
    ensures
        b == is_white_space(c),
{
    ('\u{9}' <= c && c <= '\u{d}') || c == ' ' || c == '\u{85}' || c == '\u{a0}' || c == '\u{1680}'
        || ('\u{2000}' <= c && c <= '\u{200a}') || c == '\u{2028}' || c == '\u{2029}' || c == '\u{202f}'
        || c == '\u{205f}' || c == '\u{3000}'
}

/// ASCII bytes of a character sequence (each character's low byte).
pub open spec fn ascii_bytes(s: Seq<char>) -> Seq<u8> {
    s.map_values(|c: char| c as u8)
}

/// `s` without its white space.
pub open spec fn without_white_space(s: Seq<char>) -> Seq<char> {
    s.filter(|c: char| !is_white_space(c))
}

/// The modulus N, when its text parses.
pub open spec fn srp_modulus() -> Option<nat> {
    biguint_hex_value(ascii_bytes(without_white_space(N_HEX_2048@)))
}

/// Bytes of the characters of `s`, dropping white space.
fn hex_text_bytes(s: &str) -> (out: Vec<u8>)
    ensures
        out@ == ascii_bytes(without_white_space(s@)),
{
    let cs = chars_of(s);
    let mut out: Vec<u8> = Vec::new();
    let mut i: usize = 0;
    while i < cs.len()
        invariant
            cs@ == s@,
            i <= cs@.len(),
            out@ == ascii_bytes(without_white_space(cs@.take(i as int))),
        decreases cs.len() - i,
    {
        let c = cs[i];
        proof {
            reveal(Seq::filter);
            assert(cs@.take(i + 1).drop_last() =~= cs@.take(i as int));
            assert(cs@.take(i + 1).last() == c);
        }
        if !white_space(c) {
            out.push(c as u8);
            proof {
                let f = without_white_space(cs@.take(i as int));
                assert(without_white_space(cs@.take(i + 1)) == f.push(c));
                assert(ascii_bytes(f.push(c)) =~= ascii_bytes(f).push(c as u8));
            }
        } else {
            assert(without_white_space(cs@.take(i + 1)) == without_white_space(cs@.take(i as int)));
        }
        i = i + 1;
    }
    assert(cs@.take(cs@.len() as int) =~= cs@);
    out
}

/// Parses a hexadecimal modulus, ignoring white space.
fn parse_n_hex(s: &str) -> (r: Result<Vec<u8>, SrpError>)
    ensures
        match r {
            Ok(n) => biguint_hex_value(ascii_bytes(without_white_space(s@))) == Some(be_value(n@)),
            Err(e) => e == SrpError::InvalidModulus
                && biguint_hex_value(ascii_bytes(without_white_space(s@))) is None,
        },
{
    let text = hex_text_bytes(s);
    match biguint_from_hex(text.as_slice()) {
        Some(n) => Ok(n),
        None => Err(SrpError::InvalidModulus),
    }
}

/// The modulus N as big-endian bytes; an error unless it parses to a
/// number of at least 2.
fn modulus() -> (r: Result<Vec<u8>, SrpError>)
    ensures
        match r {
            Ok(n) => srp_modulus() == Some(be_value(n@)) && be_value(n@) > 1,
            Err(e) => e == SrpError::InvalidModulus && !(srp_modulus() matches Some(n) && n > 1),
        },
{
    let n = parse_n_hex(N_HEX_2048)?;
    if !is_above_one(&n) {
        return Err(SrpError::InvalidModulus);
    }
    Ok(n)
}

proof fn lemma_be_value_zero_prefix(s: Seq<u8>, k: int)
    requires
        0 <= k <= s.len(),
        forall|j: int| 0 <= j < k ==> s[j] == 0,
    ensures
        be_value(s.take(k)) == 0,
    decreases k,
{
    if k > 0 {
        assert(s.take(k).drop_last() =~= s.take(k - 1));
        lemma_be_value_zero_prefix(s, k - 1);
    }
}

proof fn lemma_be_value_split(s: Seq<u8>, k: int)
    requires
        0 <= k <= s.len(),
    ensures
        be_value(s) == be_value(s.take(k)) * pow(256, (s.len() - k) as nat) + be_value(s.skip(k)),
    decreases s.len() - k,
{
    vstd::arithmetic::power::lemma_pow0(256);
    if k == s.len() {
        assert(s.take(k) =~= s);
        assert(s.skip(k) =~= Seq::<u8>::empty());
    } else {
        lemma_be_value_split(s.drop_last(), k);
        assert(s.drop_last().take(k) =~= s.take(k));
        assert(s.drop_last().skip(k) =~= s.skip(k).drop_last());
        assert(s.skip(k).last() == s.last());
        let t = be_value(s.take(k));
        let p = pow(256, (s.len() - 1 - k) as nat);
        let r = be_value(s.skip(k).drop_last());
        vstd::arithmetic::power::lemma_pow_positive(256, (s.len() - 1 - k) as nat);
        assert(pow(256, (s.len() - k) as nat) == 256 * p) by {
            vstd::arithmetic::power::lemma_pow_adds(256, 1, (s.len() - 1 - k) as nat);
            vstd::arithmetic::power::lemma_pow1(256);
        }
        assert((t * p + r) * 256 + s.last() == t * (256 * p) + (r * 256 + s.last())) by (nonlinear_arith);
    }
}

/// Whether the big-endian number `n` is at least 2.
fn is_above_one(n: &Vec<u8>) -> (b: bool)
    ensures
        b == (be_value(n@) > 1),
{
    let len = n.len();
    if len == 0 {
        return false;
    }
    let mut i: usize = 0;
    while i + 1 < len
        invariant
            len == n@.len(),
            len > 0,
            i < len,
            forall|j: int| 0 <= j < i ==> n@[j] == 0,
        decreases len - i,
    {
        if n[i] != 0 {
            proof {
                lemma_be_value_split(n@, i + 1);
                lemma_be_value_zero_prefix(n@, i as int);
                assert(n@.take(i + 1).drop_last() =~= n@.take(i as int));
                assert(be_value(n@.take(i + 1)) >= 1);
                vstd::arithmetic::power::lemma_pow_positive(256, (n@.len() - i - 1) as nat);
                assert(n@.len() - i - 1 >= 1);
                vstd::arithmetic::power::lemma_pow_increases(256, 1, (n@.len() - i - 1) as nat);
                vstd::arithmetic::power::lemma_pow1(256);
                let t = be_value(n@.take(i + 1));
                let p = pow(256, (n@.len() - i - 1) as nat);
                assert(t * p >= p) by (nonlinear_arith)
                    requires
                        t >= 1,
                        p >= 0,
                ;
            }
            return true;
        }
        i = i + 1;
    }
    proof {
        lemma_be_value_split(n@, i as int);
        lemma_be_value_zero_prefix(n@, i as int);
        assert(n@.skip(i as int) =~= seq![n@[i as int]]);
        assert(seq![n@[i as int]].drop_last() =~= Seq::<u8>::empty());
        vstd::arithmetic::power::lemma_pow1(256);
    }
    n[i] > 1
}

/// Whether the big-endian number `n` is zero.
fn is_zero(n: &Vec<u8>) -> (b: bool)
    ensures
        b == (be_value(n@) == 0),
{
    let mut i: usize = 0;
    while i < n.len()
        invariant
            i <= n@.len(),
            forall|j: int| 0 <= j < i ==> n@[j] == 0,
        decreases n.len() - i,
    {
        if n[i] != 0 {
            proof {
                lemma_be_value_split(n@, i + 1);
                assert(n@.take(i + 1).last() == n@[i as int]);
                vstd::arithmetic::power::lemma_pow_positive(256, (n@.len() - i - 1) as nat);
                let t = be_value(n@.take(i + 1));
                let p = pow(256, (n@.len() - i - 1) as nat);
                assert(t >= 1);
                assert(t * p >= 1) by (nonlinear_arith)
                    requires
                        t >= 1,
                        p >= 1,
                ;
            }
            return false;
        }
        i = i + 1;
    }
    proof {
        lemma_be_value_zero_prefix(n@, n@.len() as int);
        assert(n@.take(n@.len() as int) =~= n@);
    }
    true
}

/// Byte-wise XOR of two equally long strings.
pub open spec fn xor_bytes(a: Seq<u8>, b: Seq<u8>) -> Seq<u8> {
    Seq::new(a.len(), |i: int| a[i] ^ b[i])
}

/// `k = H(N, g)`.
pub open spec fn srp_k(n: nat, g: nat) -> nat {
    be_value(sha256_of(be_fixed(n, 256) + be_fixed(g, 256)))
}

/// The server's public value `B = (k v + g^b) mod N`.
pub open spec fn srp_public_b(n: nat, g: nat, v: nat, b: nat) -> nat {
    ((srp_k(n, g) * v) % n + (pow(g as int, b) % (n as int)) as nat) % n
}

/// `u = H(A, B)`.
pub open spec fn srp_u(a: nat, pub_b: nat) -> nat {
    be_value(sha256_of(be_fixed(a, 256) + be_fixed(pub_b, 256)))
}

/// The shared secret `S = (A v^u)^b mod N`.
pub open spec fn srp_secret(n: nat, a: nat, v: nat, u: nat, b: nat) -> nat {
    (pow((((a * ((pow(v as int, u) % (n as int)) as nat)) % n) as int), b) % (n as int)) as nat
}

/// The session key `K = H(S)`.
pub open spec fn srp_session_key(s: nat) -> Seq<u8> {
    sha256_of(be_fixed(s, 256))
}

/// The proof `M = H(H(N) xor H(g), H(I), s, A, B, K)`.
pub open spec fn srp_m(n: nat, g: nat, user: Seq<u8>, salt: Seq<u8>, a: nat, pub_b: nat, key: Seq<u8>) -> Seq<u8> {
    sha256_of(
        xor_bytes(sha256_of(be_fixed(n, 256)), sha256_of(be_fixed(g, 256))) + sha256_of(user) + salt
            + be_fixed(a, 256) + be_fixed(pub_b, 256) + key,
    )
}

/// The server's confirmation `H(A, M, K)`.
pub open spec fn srp_h_amk(a: nat, m: Seq<u8>, key: Seq<u8>) -> Seq<u8> {
    sha256_of(be_fixed(a, 256) + m + key)
}

/// The verifier `v = g^x mod N` with `x = H(s, H(I ":" P))`.
pub open spec fn srp_verifier_value(n: nat, g: nat, user: Seq<u8>, password: Seq<u8>, salt: Seq<u8>) -> nat {
    let inner = sha256_of(user + seq![58u8] + password);
    let x = be_value(sha256_of(salt + inner));
    (pow(g as int, x) % (n as int)) as nat
}

/// Server-side SRP-6a verifier.
pub struct SrpVerifier {
    username: String,
    session_key: Vec<u8>,
    m: Vec<u8>,
    h_amk: Vec<u8>,
    authenticated: bool,
}

impl SrpVerifier {
    /// The key and both proofs are SHA-256 digests.
    #[verifier::type_invariant]
    closed spec fn digests_sized(&self) -> bool {
        &&& self.session_key@.len() == SHA256_DIGEST_LENGTH
        &&& self.m@.len() == SHA256_DIGEST_LENGTH
        &&& self.h_amk@.len() == SHA256_DIGEST_LENGTH
    }

    pub closed spec fn username_view(&self) -> Seq<char> {
        self.username@
    }

    pub closed spec fn key_view(&self) -> Seq<u8> {
        self.session_key@
    }

    pub closed spec fn m_view(&self) -> Seq<u8> {
        self.m@
    }

    pub closed spec fn h_amk_view(&self) -> Seq<u8> {
        self.h_amk@
    }

    pub closed spec fn authenticated_view(&self) -> bool {
        self.authenticated
    }
}

/// Whether `ver` and `pub_b` are what the server computes for `username`,
/// `salt`, verifier `v`, the client's `a` and the secret `b`, with
/// modulus `n`.
pub open spec fn srp_server_state(
    ver: SrpVerifier,
    pub_b: Seq<u8>,
    n: nat,
    username: Seq<char>,
    user_bytes: Seq<u8>,
    salt: Seq<u8>,
    v: nat,
    a: nat,
    b: nat,
) -> bool {
    let g = G_2048 as nat;
    let bb = srp_public_b(n, g, v, b);
    let u = srp_u(a, bb);
    let key = srp_session_key(srp_secret(n, a, v, u, b));
    let m = srp_m(n, g, user_bytes, salt, a, bb, key);
    &&& pub_b == be_fixed(bb, 256)
    &&& ver.username_view() == username
    &&& ver.key_view() == key
    &&& ver.m_view() == m
    &&& ver.h_amk_view() == srp_h_amk(a, m, key)
    &&& !ver.authenticated_view()
}

/// `((p + q) mod n - p) mod n` is `q` for residues `p` and `q`.
proof fn lemma_sub_residue(p: int, q: int, n: int)
    requires
        0 <= p < n,
        0 <= q < n,
    ensures
        ((p + q) % n + n - p) % n == q,
{
    if p + q < n {
        assert((p + q) % n == p + q) by (nonlinear_arith)
            requires
                0 <= p + q < n,
        ;
        assert((q + n) % n == q) by (nonlinear_arith)
            requires
                0 <= q < n,
        ;
    } else {
        assert((p + q) % n == p + q - n) by (nonlinear_arith)
            requires
                n <= p + q < 2 * n,
        ;
        assert(q % n == q) by (nonlinear_arith)
            requires
                0 <= q < n,
        ;
    }
}

/// `(g^e1 mod n)^e2 mod n = g^(e1 e2) mod n`.
proof fn lemma_pow_mod_pow(g: int, e1: nat, e2: nat, n: int)
    requires
        n > 0,
    ensures
        pow(pow(g, e1) % n, e2) % n == pow(g, e1 * e2) % n,
{
    vstd::arithmetic::power::lemma_pow_mod_noop(pow(g, e1), e2, n);
    vstd::arithmetic::power::lemma_pow_multiplies(g, e1, e2);
}

/// SRP-6a completeness: for any salt, password and secrets `a` and `b`,
/// when the server holds the verifier that `create_salted_verification_key`
/// makes for the password and was handed `A = g^a mod N`, the key and the
/// proofs it expects are those of a client that knows the password. That
/// client computes `x = H(s, H(I ":" P))`, `k = H(pad(N), pad(g))`,
/// `u = H(pad(A), pad(B))` over the `B` it received, the secret
/// `S = (B - k g^x)^(a + u x) mod N` and `K = H(pad(S))`, and sends
/// `M = H(H(N) xor H(g), H(I), s, pad(A), pad(B), K)`, `A` hashed before
/// `B`; the server's confirmation is `H(pad(A), M, K)`. So `verify_session`
/// accepts the proof of a client that knows the password.
pub proof fn law_srp_client_proof_accepted(
    ver: SrpVerifier,
    pub_b: Seq<u8>,
    n: nat,
    username: Seq<char>,
    user: Seq<u8>,
    salt: Seq<u8>,
    password: Seq<u8>,
    verifier: Seq<u8>,
    a_secret: nat,
    b: nat,
)
    requires
        1 < n <= pow(256, 256),
        verifier == be_fixed(srp_verifier_value(n, G_2048 as nat, user, password, salt), 256),
        srp_server_state(ver, pub_b, n, username, user, salt, be_value(verifier),
            (pow(2, a_secret) % (n as int)) as nat, b),
    ensures
        ({
            let x = be_value(sha256_of(salt + sha256_of(user + seq![58u8] + password)));
            let v = pow(2, x) % (n as int);
            let big_a = (pow(2, a_secret) % (n as int)) as nat;
            let k = be_value(sha256_of(be_fixed(n, 256) + be_fixed(2, 256)));
            let u = be_value(sha256_of(be_fixed(big_a, 256) + pub_b));
            let base = (be_value(pub_b) + n - (k * v) % (n as int)) % (n as int);
            let secret = (pow(base, a_secret + u * x) % (n as int)) as nat;
            let key = sha256_of(be_fixed(secret, 256));
            let m = sha256_of(xor_bytes(sha256_of(be_fixed(n, 256)), sha256_of(be_fixed(2, 256)))
                + sha256_of(user) + salt + be_fixed(big_a, 256) + pub_b + key);
            &&& ver.key_view() == key
            &&& ver.m_view() == m
            &&& ver.h_amk_view() == sha256_of(be_fixed(big_a, 256) + m + key)
        }),
{
    let nn = n as int;
    let x = be_value(sha256_of(salt + sha256_of(user + seq![58u8] + password)));
    let v = srp_verifier_value(n, G_2048 as nat, user, password, salt);
    assert(v == (pow(2, x) % nn) as nat);
    assert(0 <= pow(2, x) % nn < nn) by (nonlinear_arith)
        requires
            nn > 1,
    ;
    crate::crypto::lemma_be_fixed_value(v, 256);
    assert(be_value(verifier) == v);
    let big_a = (pow(2, a_secret) % nn) as nat;
    assert(0 <= pow(2, a_secret) % nn < nn) by (nonlinear_arith)
        requires
            nn > 1,
    ;
    let k = srp_k(n, 2);
    let q = pow(2, b) % nn;
    assert(0 <= q < nn) by (nonlinear_arith)
        requires
            nn > 1,
            q == pow(2, b) % nn,
    ;
    let p = ((k * v) as int) % nn;
    assert(0 <= p < nn) by (nonlinear_arith)
        requires
            nn > 1,
            p == ((k * v) as int) % nn,
    ;
    let bb = srp_public_b(n, 2, v, b);
    assert(bb == (p + q) % nn);
    assert(0 <= (p + q) % nn < nn) by (nonlinear_arith)
        requires
            nn > 1,
    ;
    assert(pub_b == be_fixed(bb, 256));
    crate::crypto::lemma_be_fixed_value(bb, 256);
    assert(be_value(pub_b) == bb);
    let u = srp_u(big_a, bb);
    lemma_sub_residue(p, q, nn);
    let base = (be_value(pub_b) + n - p) % nn;
    assert(base == q);
    // The client's secret is g^(b (a + u x)) mod N.
    lemma_pow_mod_pow(2, b, a_secret + u * x, nn);
    // The server's: (A (v^u mod N) mod N)^b mod N = g^((a + x u) b) mod N.
    lemma_pow_mod_pow(2, x, u, nn);
    let vu = pow(v as int, u) % nn;
    assert(vu == pow(2, x * u) % nn);
    vstd::arithmetic::div_mod::lemma_mul_mod_noop(pow(2, a_secret), pow(2, x * u), nn);
    vstd::arithmetic::power::lemma_pow_adds(2, a_secret, x * u);
    assert(0 <= vu) by (nonlinear_arith)
        requires
            nn > 1,
            vu == pow(v as int, u) % nn,
    ;
    let avu = (big_a * (vu as nat)) % n;
    assert(avu == pow(2, a_secret + x * u) % nn);
    lemma_pow_mod_pow(2, a_secret + x * u, b, nn);
    assert((a_secret + x * u) * b == b * (a_secret + u * x)) by (nonlinear_arith);
    assert(srp_secret(n, big_a, v, u, b) == (pow(base, a_secret + u * x) % nn) as nat);
}

/// Concatenation of two byte slices.
fn concat(a: &[u8], b: &[u8]) -> (r: Vec<u8>)
    ensures
        r@ == a@ + b@,
{
    let mut r: Vec<u8> = Vec::new();
    push_slice(&mut r, a);
    push_slice(&mut r, b);
    assert(r@ =~= a@ + b@);
    r
}

/// H of the two numbers `a` and `b`, each brought to `N_LEN_BYTES` bytes.
fn hash_pair(a: &[u8], b: &[u8]) -> (h: Vec<u8>)
    ensures
        h@ == sha256_of(be_fixed(be_value(a@), 256) + be_fixed(be_value(b@), 256)),
        h@.len() == 32,
{
    let pa = pad_to_len(a, N_LEN_BYTES);
    let pb = pad_to_len(b, N_LEN_BYTES);
    let data = concat(pa.as_slice(), pb.as_slice());
    sha256(data.as_slice())
}

/// Byte-wise XOR of two equally long byte slices.
fn xor(a: &[u8], b: &[u8]) -> (r: Vec<u8>)
    requires
        a@.len() == b@.len(),
    ensures
        r@ == xor_bytes(a@, b@),
{
    let mut r: Vec<u8> = Vec::new();
    let mut i: usize = 0;
    while i < a.len()
        invariant
            a@.len() == b@.len(),
            i <= a@.len(),
            r@.len() == i,
            forall|j: int| 0 <= j < i ==> r@[j] == a@[j] ^ b@[j],
        decreases a.len() - i,
    {
        r.push(a[i] ^ b[i]);
        i = i + 1;
    }
    assert(r@ =~= xor_bytes(a@, b@));
    r
}

/// `M = H(H(N) xor H(g), H(I), s, A, B, K)`.
fn calculate_m(username: &str, salt: &[u8], a: &[u8], b: &[u8], session_key: &[u8], n: &[u8], g: &[u8]) -> (m: Vec<u8>)
    ensures
        m@ == srp_m(be_value(n@), be_value(g@), username.spec_bytes(), salt@, be_value(a@), be_value(b@), session_key@),
        m@.len() == 32,
{
    let h_n = sha256(pad_to_len(n, N_LEN_BYTES).as_slice());
    let h_g = sha256(pad_to_len(g, N_LEN_BYTES).as_slice());
    let h_i = sha256(username.as_bytes());
    let h_xor = xor(h_n.as_slice(), h_g.as_slice());
    let mut data: Vec<u8> = Vec::new();
    push_slice(&mut data, h_xor.as_slice());
    push_slice(&mut data, h_i.as_slice());
    push_slice(&mut data, salt);
    push_slice(&mut data, pad_to_len(a, N_LEN_BYTES).as_slice());
    push_slice(&mut data, pad_to_len(b, N_LEN_BYTES).as_slice());
    push_slice(&mut data, session_key);
    assert(data@ =~= xor_bytes(sha256_of(be_fixed(be_value(n@), 256)), sha256_of(be_fixed(be_value(g@), 256)))
        + sha256_of(username.spec_bytes()) + salt@ + be_fixed(be_value(a@), 256) + be_fixed(be_value(b@), 256)
        + session_key@);
    sha256(data.as_slice())
}

/// `H(A, M, K)`.
fn calculate_h_amk(a: &[u8], m: &[u8], session_key: &[u8]) -> (h: Vec<u8>)
    ensures
        h@ == srp_h_amk(be_value(a@), m@, session_key@),
        h@.len() == 32,
{
    let mut data: Vec<u8> = Vec::new();
    push_slice(&mut data, pad_to_len(a, N_LEN_BYTES).as_slice());
    push_slice(&mut data, m);
    push_slice(&mut data, session_key);
    assert(data@ =~= be_fixed(be_value(a@), 256) + m@ + session_key@);
    sha256(data.as_slice())
}

/// The big-endian bytes of `G_2048`.
fn generator_bytes() -> (g: Vec<u8>)
    ensures
        be_value(g@) == G_2048,
{
    let g = vec![2u8];
    proof {
        assert(g@.drop_last() =~= Seq::<u8>::empty());
        assert(be_value(g@.drop_last()) == 0);
        assert(g@.last() == 2);
    }
    g
}

impl SrpVerifier {
    /// Creates a verifier from the client's `A` and produces the server's
    /// `B`. `bytes_b` is the secret `b`; when `None`, 32 random bytes are
    /// used.
    pub fn new(username: &str, salt: &[u8], verifier: &[u8], bytes_a: &[u8], bytes_b: Option<&[u8]>) -> (r: Result<(Self, Vec<u8>), SrpError>)
        ensures
            match r {
                Ok((ver, pub_b)) => {
                    &&& srp_modulus() matches Some(n) && n > 1
                    &&& be_value(bytes_a@) % srp_modulus()->0 != 0
                    &&& exists|b: Seq<u8>| {
                        &&& (bytes_b matches Some(given) ==> b == given@)
                        &&& (bytes_b is None ==> b.len() == 32)
                        &&& srp_server_state(ver, pub_b@, srp_modulus()->0, username@, username.spec_bytes(), salt@,
                            be_value(verifier@), be_value(bytes_a@), be_value(b))
                    }
                },
                Err(SrpError::InvalidModulus) => !(srp_modulus() matches Some(n) && n > 1),
                Err(SrpError::SafetyCheckViolated) => srp_modulus() matches Some(n) && n > 1
                    && be_value(bytes_a@) % n == 0,
                Err(_) => false,
            },
    {
        let n = modulus()?;
        let g = generator_bytes();
        let a_mod_n = biguint_rem(bytes_a, n.as_slice());
        if is_zero(&a_mod_n) {
            return Err(SrpError::SafetyCheckViolated);
        }
        let b = match bytes_b {
            Some(b) => to_vec(b),
            None => random_bytes(32),
        };
        let ghost nv = be_value(n@);
        let ghost gv = be_value(g@);
        let k = hash_pair(n.as_slice(), g.as_slice());
        let kv = biguint_rem(biguint_mul(k.as_slice(), verifier).as_slice(), n.as_slice());
        let gb = biguint_modpow(g.as_slice(), b.as_slice(), n.as_slice());
        let b_val = biguint_rem(biguint_add(kv.as_slice(), gb.as_slice()).as_slice(), n.as_slice());
        let u = hash_pair(bytes_a, b_val.as_slice());
        let vu = biguint_modpow(verifier, u.as_slice(), n.as_slice());
        let avu = biguint_rem(biguint_mul(bytes_a, vu.as_slice()).as_slice(), n.as_slice());
        let s = biguint_modpow(avu.as_slice(), b.as_slice(), n.as_slice());
        let session_key = sha256(pad_to_len(s.as_slice(), N_LEN_BYTES).as_slice());
        let m = calculate_m(username, salt, bytes_a, b_val.as_slice(), session_key.as_slice(), n.as_slice(), g.as_slice());
        let h_amk = calculate_h_amk(bytes_a, m.as_slice(), session_key.as_slice());
        let bytes_b_out = pad_to_len(b_val.as_slice(), N_LEN_BYTES);
        let ver = SrpVerifier {
            username: string_from_chars(chars_of(username).as_slice()),
            session_key,
            m,
            h_amk,
            authenticated: false,
        };
        proof {
            assert(srp_server_state(ver, bytes_b_out@, nv, username@, username.spec_bytes(), salt@,
                be_value(verifier@), be_value(bytes_a@), be_value(b@)));
        }
        Ok((ver, bytes_b_out))
    }

    /// The session key K.
    pub fn session_key(&self) -> (k: &[u8])
        ensures
            k@ == self.key_view(),
    {
        self.session_key.as_slice()
    }

    /// The session key length (32 bytes for SHA-256).
    pub fn session_key_length(&self) -> (n: usize)
        ensures
            n == SHA256_DIGEST_LENGTH,
    {
        SHA256_DIGEST_LENGTH
    }

    /// Checks the client's proof M. On a match returns `H_AMK` and marks
    /// the session authenticated; on a mismatch returns `None`.
    pub fn verify_session(&mut self, user_m: &[u8]) -> (r: Result<Option<Vec<u8>>, SrpError>)
        ensures
            final(self).username_view() == old(self).username_view(),
            final(self).key_view() == old(self).key_view(),
            final(self).m_view() == old(self).m_view(),
            final(self).h_amk_view() == old(self).h_amk_view(),
            user_m@.len() != SHA256_DIGEST_LENGTH ==> r == Err::<Option<Vec<u8>>, SrpError>(
                SrpError::InvalidMLength { got: user_m@.len() as usize, expected: SHA256_DIGEST_LENGTH },
            ) && final(self).authenticated_view() == old(self).authenticated_view(),
            user_m@.len() == SHA256_DIGEST_LENGTH && user_m@ == old(self).m_view() ==> (r matches Ok(Some(h))
                && h@ == old(self).h_amk_view() && h@.len() == SHA256_DIGEST_LENGTH) && final(self).authenticated_view(),
            user_m@.len() == SHA256_DIGEST_LENGTH && user_m@ != old(self).m_view() ==> (r matches Ok(None))
                && final(self).authenticated_view() == old(self).authenticated_view(),
    {
        proof {
            use_type_invariant(&*self);
        }
        if user_m.len() != SHA256_DIGEST_LENGTH {
            return Err(SrpError::InvalidMLength { got: user_m.len(), expected: SHA256_DIGEST_LENGTH });
        }
        if bytes_equal(self.m.as_slice(), user_m) {
            self.authenticated = true;
            Ok(Some(self.h_amk.clone()))
        } else {
            Ok(None)
        }
    }

    /// Whether `verify_session` has succeeded.
    pub fn is_authenticated(&self) -> (b: bool)
        ensures
            b == self.authenticated_view(),
    {
        self.authenticated
    }
}

/// Whether two byte slices are equal.
pub fn bytes_equal(a: &[u8], b: &[u8]) -> (r: bool)
    ensures
        r == (a@ == b@),
{
    if a.len() != b.len() {
        return false;
    }
    let mut i: usize = 0;
    while i < a.len()
        invariant
            a@.len() == b@.len(),
            i <= a@.len(),
            forall|j: int| 0 <= j < i ==> a@[j] == b@[j],
        decreases a.len() - i,
    {
        if a[i] != b[i] {
            return false;
        }
        i = i + 1;
    }
    assert(a@ =~= b@);
    true
}

/// A random salt of `len` bytes.
pub fn generate_salt(len: usize) -> (s: Vec<u8>)
    ensures
        s@.len() == len,
{
    random_bytes(len)
}

/// Creates a salted verifier for `username` and `password`: returns
/// `(salt, v)` with `v = g^x mod N` brought to `N_LEN_BYTES` bytes. The
/// salt is `salt` when given, else 16 random bytes.
pub fn create_salted_verification_key(username: &str, password: &[u8], salt: Option<&[u8]>) -> (r: Result<(Vec<u8>, Vec<u8>), SrpError>)
    ensures
        match r {
            Ok((s, v)) => {
                &&& srp_modulus() matches Some(n) && n > 1
                &&& (salt matches Some(given) ==> s@ == given@)
                &&& (salt is None ==> s@.len() == 16)
                &&& v@ == be_fixed(srp_verifier_value(srp_modulus()->0, G_2048 as nat, username.spec_bytes(), password@, s@), 256)
            },
            Err(e) => e == SrpError::InvalidModulus && !(srp_modulus() matches Some(n) && n > 1),
        },
{
    let n = modulus()?;
    let g = generator_bytes();
    let salt = match salt {
        Some(s) => to_vec(s),
        None => generate_salt(16),
    };
    let mut inner_data: Vec<u8> = Vec::new();
    push_slice(&mut inner_data, username.as_bytes());
    inner_data.push(58u8);
    push_slice(&mut inner_data, password);
    assert(inner_data@ =~= username.spec_bytes() + seq![58u8] + password@);
    let inner = sha256(inner_data.as_slice());
    let outer_data = concat(salt.as_slice(), inner.as_slice());
    let x = sha256(outer_data.as_slice());
    let v = biguint_modpow(g.as_slice(), x.as_slice(), n.as_slice());
    let v_bytes = pad_to_len(v.as_slice(), N_LEN_BYTES);
    Ok((salt, v_bytes))
}

/// Lower-case hexadecimal digit of a nibble.
pub open spec fn hex_digit(v: u8) -> char {
    if v < 10 { (48 + v) as char } else { (87 + v) as char }
}

/// Lower-case hexadecimal text of `bytes`, two digits per byte.
pub open spec fn hex_text(bytes: Seq<u8>) -> Seq<char>
    decreases bytes.len(),
{
    if bytes.len() == 0 {
        Seq::empty()
    } else {
        hex_text(bytes.drop_last()) + seq![hex_digit(bytes.last() / 16), hex_digit(bytes.last() % 16)]
    }
}

fn nibble_char(v: u8) -> (c: char)
    requires
        v < 16,
    ensures
        c == hex_digit(v),
{
    let digits: [char; 16] = ['0', '1', '2', '3', '4', '5', '6', '7', '8', '9', 'a', 'b', 'c', 'd', 'e', 'f'];
    let c = digits[v as usize];
    assert(c == hex_digit(v)) by {
        assert(digits@ =~= seq!['0', '1', '2', '3', '4', '5', '6', '7', '8', '9', 'a', 'b', 'c', 'd', 'e', 'f']);
    }
    c
}

/// Renders bytes as lower-case hexadecimal.
pub fn to_hex(bytes: &[u8]) -> (s: String)
    ensures
        s@ == hex_text(bytes@),
{
    let mut out: Vec<char> = Vec::new();
    let mut i: usize = 0;
    while i < bytes.len()
        invariant
            i <= bytes@.len(),
            out@ == hex_text(bytes@.take(i as int)),
        decreases bytes.len() - i,
    {
        let b = bytes[i];
        out.push(nibble_char(b / 16));
        out.push(nibble_char(b % 16));
        proof {
            assert(bytes@.take(i + 1).drop_last() =~= bytes@.take(i as int));
            assert(out@ =~= hex_text(bytes@.take(i + 1)));
        }
        i = i + 1;
    }
    assert(bytes@.take(bytes@.len() as int) =~= bytes@);
    string_from_chars(out.as_slice())
}

} // verus!
