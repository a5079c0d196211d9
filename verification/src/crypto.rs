//! Calls into the hashing, base64, big-integer and randomness crates, and
//! the big-endian number encodings their results are stated in.

use vstd::prelude::*;
use vstd::arithmetic::power::pow;
use base64::Engine;
use num_bigint::BigUint;
use rand::RngCore;
use sha1::Digest;

verus! {

/// SHA-256 digest of `data`.
pub uninterp spec fn sha256_of(data: Seq<u8>) -> Seq<u8>;

/// SHA-1 digest of `data`.
pub uninterp spec fn sha1_of(data: Seq<u8>) -> Seq<u8>;

/// Standard-alphabet, padded base64 text of `data`.
pub uninterp spec fn base64_encoding(data: Seq<u8>) -> Seq<char>;

/// Bytes that the standard padded base64 decoder reads from `text`, or
/// `None` when it rejects the text.
pub uninterp spec fn base64_decoding(text: Seq<char>) -> Option<Seq<u8>>;

/// Value of a hexadecimal digit byte (either case).
pub open spec fn hex_digit_value(b: u8) -> Option<nat> {
    if 48 <= b <= 57 {
        Some((b - 48) as nat)
    } else if 97 <= b <= 102 {
        Some((b - 87) as nat)
    } else if 65 <= b <= 70 {
        Some((b - 55) as nat)
    } else {
        None
    }
}

/// Value of hexadecimal digits, `_` separators skipped; `None` on any
/// other byte.
pub open spec fn hex_digits_value(s: Seq<u8>) -> Option<nat>
    decreases s.len(),
{
    if s.len() == 0 {
        Some(0)
    } else {
        match hex_digits_value(s.drop_last()) {
            None => None,
            Some(v) => if s.last() == 95 {
                Some(v)
            } else {
                match hex_digit_value(s.last()) {
                    Some(d) => Some(v * 16 + d),
                    None => None,
                }
            },
        }
    }
}

/// `text` without one leading `+`, unless a second `+` follows it.
pub open spec fn without_plus(text: Seq<u8>) -> Seq<u8> {
    if text.len() >= 1 && text[0] == 43 && !(text.len() >= 2 && text[1] == 43) {
        text.drop_first()
    } else {
        text
    }
}

/// Number that `BigUint::parse_bytes` reads from `text` in radix 16: an
/// optional leading `+`, then at least one hexadecimal digit first, with
/// `_` separators anywhere after it; `None` for anything else.
pub open spec fn biguint_hex_value(text: Seq<u8>) -> Option<nat> {
    let s = without_plus(text);
    if s.len() == 0 || s[0] == 95 {
        None
    } else {
        hex_digits_value(s)
    }
}

/// Unicode lower-case mapping of `s`.
pub uninterp spec fn lowercase_of(s: Seq<char>) -> Seq<char>;

/// Whether `c` belongs to the standard base64 alphabet (without `=`).
pub open spec fn is_base64_char(c: char) -> bool {
    ('A' <= c && c <= 'Z') || ('a' <= c && c <= 'z') || ('0' <= c && c <= '9') || c == '+' || c == '/'
}

/// Value of a big-endian byte string.
pub open spec fn be_value(s: Seq<u8>) -> nat
    decreases s.len(),
{
    if s.len() == 0 {
        0
    } else {
        be_value(s.drop_last()) * 256 + s.last() as nat
    }
}

/// The low `n` bytes of `x`, big-endian.
pub open spec fn be_fixed(x: nat, n: nat) -> Seq<u8>
    decreases n,
{
    if n == 0 {
        Seq::empty()
    } else {
        be_fixed(x / 256, (n - 1) as nat).push((x % 256) as u8)
    }
}

/// SHA-256 digest of `data` (wraps `sha2::Sha256::digest`).
#[verifier::external_body]
pub fn sha256(data: &[u8]) -> (r: Vec<u8>)
    ensures
        r@ == sha256_of(data@),
        r@.len() == 32,
{
    sha2::Sha256::digest(data).to_vec()
}

/// SHA-1 digest of `data` (wraps `sha1::Sha1::digest`).
#[verifier::external_body]
pub(crate) fn sha1_digest(data: &[u8]) -> (r: Vec<u8>)
    ensures
        r@ == sha1_of(data@),
        r@.len() == 20,
{
    sha1::Sha1::digest(data).to_vec()
}

/// Standard base64 of `data` (wraps `STANDARD.encode`). The text uses
/// the standard alphabet with `=` padding, so it is four characters per
/// started group of three bytes, and the decoder reads `data` back from it.
#[verifier::external_body]
pub(crate) fn base64_encode(data: &[u8]) -> (r: String)
    ensures
        r@ == base64_encoding(data@),
        r@.len() == 4 * ((data@.len() + 2) / 3),
        forall|i: int| 0 <= i < r@.len() ==> is_base64_char(#[trigger] r@[i]) || r@[i] == '=',
        base64_decoding(r@) == Some(data@),
{
    base64::engine::general_purpose::STANDARD.encode(data)
}

/// Bytes of the standard base64 text `s` (wraps `STANDARD.decode`);
/// `None` when the decoder rejects it.
#[verifier::external_body]
pub(crate) fn base64_decode(s: &str) -> (r: Option<Vec<u8>>)
    ensures
        match r {
            Some(v) => base64_decoding(s@) == Some(v@),
            None => base64_decoding(s@) is None,
        },
{
    base64::engine::general_purpose::STANDARD.decode(s).ok()
}

/// Unicode lower case of `s` (wraps `str::to_lowercase`).
#[verifier::external_body]
pub(crate) fn to_lowercase(s: &str) -> (r: String)
    ensures
        r@ == lowercase_of(s@),
{
    s.to_lowercase()
}

/// `n` random bytes (wraps `rand::thread_rng().fill_bytes`); nothing is
/// stated of their values.
#[verifier::external_body]
pub(crate) fn random_bytes(n: usize) -> (r: Vec<u8>)
    ensures
        r@.len() == n,
{
    let mut buf = vec![0u8; n];
    rand::thread_rng().fill_bytes(&mut buf);
    buf
}

/// Big-endian bytes of the number `BigUint::parse_bytes` reads from the
/// hexadecimal text `text`.
#[verifier::external_body]
pub(crate) fn biguint_from_hex(text: &[u8]) -> (r: Option<Vec<u8>>)
    ensures
        match r {
            Some(v) => biguint_hex_value(text@) == Some(be_value(v@)),
            None => biguint_hex_value(text@) is None,
        },
{
    BigUint::parse_bytes(text, 16).map(|n| n.to_bytes_be())
}

/// `a mod m` on big-endian numbers (wraps `BigUint`'s `%`).
#[verifier::external_body]
pub(crate) fn biguint_rem(a: &[u8], m: &[u8]) -> (r: Vec<u8>)
    requires
        be_value(m@) > 0,
    ensures
        be_value(r@) == be_value(a@) % be_value(m@),
{
    (BigUint::from_bytes_be(a) % BigUint::from_bytes_be(m)).to_bytes_be()
}

/// `a * b` on big-endian numbers (wraps `BigUint`'s `*`).
#[verifier::external_body]
pub(crate) fn biguint_mul(a: &[u8], b: &[u8]) -> (r: Vec<u8>)
    ensures
        be_value(r@) == be_value(a@) * be_value(b@),
{
    (BigUint::from_bytes_be(a) * BigUint::from_bytes_be(b)).to_bytes_be()
}

/// `a + b` on big-endian numbers (wraps `BigUint`'s `+`).
#[verifier::external_body]
pub(crate) fn biguint_add(a: &[u8], b: &[u8]) -> (r: Vec<u8>)
    ensures
        be_value(r@) == be_value(a@) + be_value(b@),
{
    (BigUint::from_bytes_be(a) + BigUint::from_bytes_be(b)).to_bytes_be()
}

/// `base ^ exp mod m` on big-endian numbers (wraps `BigUint::modpow`).
#[verifier::external_body]
pub(crate) fn biguint_modpow(base: &[u8], exp: &[u8], m: &[u8]) -> (r: Vec<u8>)
    requires
        be_value(m@) > 1,
    ensures
        be_value(r@) == pow(be_value(base@) as int, be_value(exp@)) % (be_value(m@) as int),
{
    BigUint::from_bytes_be(base).modpow(&BigUint::from_bytes_be(exp), &BigUint::from_bytes_be(m)).to_bytes_be()
}

/// A number below `256^k` is read back from its `k` big-endian bytes.
pub proof fn lemma_be_fixed_value(x: nat, k: nat)
    requires
        x < pow(256, k),
    ensures
        be_value(be_fixed(x, k)) == x,
    decreases k,
{
    reveal(pow);
    if k > 0 {
        let p = pow(256, (k - 1) as nat);
        assert(x / 256 < p && (x / 256) * 256 + x % 256 == x) by (nonlinear_arith)
            requires
                x < 256 * p,
        ;
        lemma_be_fixed_value(x / 256, (k - 1) as nat);
        let s = be_fixed(x, k);
        assert(s.drop_last() =~= be_fixed(x / 256, (k - 1) as nat));
        assert(s.last() == (x % 256) as u8);
    }
}

proof fn lemma_be_step(s: Seq<u8>)
    requires
        s.len() > 0,
    ensures
        be_value(s) / 256 == be_value(s.drop_last()),
        be_value(s) % 256 == s.last(),
{
    let x = be_value(s.drop_last());
    let r = s.last() as nat;
    assert((x * 256 + r) / 256 == x && (x * 256 + r) % 256 == r) by (nonlinear_arith)
        requires
            r < 256,
    ;
}

proof fn lemma_be_fixed_suffix(s: Seq<u8>, k: nat)
    requires
        k <= s.len(),
    ensures
        be_fixed(be_value(s), k) == s.subrange(s.len() - k, s.len() as int),
    decreases k,
{
    if k > 0 {
        lemma_be_step(s);
        lemma_be_fixed_suffix(s.drop_last(), (k - 1) as nat);
        assert(s.drop_last().subrange(s.len() - k, s.len() - 1).push(s.last()) =~= s.subrange(
            s.len() - k,
            s.len() as int,
        ));
    } else {
        assert(s.subrange(s.len() as int, s.len() as int) =~= Seq::<u8>::empty());
    }
}

proof fn lemma_be_fixed_padded(s: Seq<u8>, k: nat)
    requires
        k >= s.len(),
    ensures
        be_fixed(be_value(s), k) == Seq::new((k - s.len()) as nat, |i: int| 0u8) + s,
    decreases k,
{
    if s.len() == 0 {
        if k > 0 {
            lemma_be_fixed_padded(s, (k - 1) as nat);
            assert(Seq::new((k - 1) as nat, |i: int| 0u8).push(0u8) =~= Seq::new(k, |i: int| 0u8) + s);
        } else {
            assert(Seq::new(0nat, |i: int| 0u8) + s =~= Seq::<u8>::empty());
        }
    } else {
        lemma_be_step(s);
        lemma_be_fixed_padded(s.drop_last(), (k - 1) as nat);
        assert((Seq::new((k - s.len()) as nat, |i: int| 0u8) + s.drop_last()).push(s.last())
            =~= Seq::new((k - s.len()) as nat, |i: int| 0u8) + s);
    }
}

/// `b` brought to exactly `n` bytes: the last `n` bytes when longer,
/// left-padded with zeros when shorter. The result is the low `n` bytes
/// of the value of `b`.
pub fn pad_to_len(b: &[u8], n: usize) -> (out: Vec<u8>)
    ensures
        out@ == be_fixed(be_value(b@), n as nat),
        out@.len() == n,
{
    let mut out: Vec<u8> = Vec::new();
    if b.len() >= n {
        let mut i = b.len() - n;
        while i < b.len()
            invariant
                n <= b.len(),
                b.len() - n <= i <= b.len(),
                out@ == b@.subrange(b.len() - n, i as int),
            decreases b.len() - i,
        {
            out.push(b[i]);
            i = i + 1;
            assert(out@ =~= b@.subrange(b.len() - n, i as int));
        }
        proof {
            lemma_be_fixed_suffix(b@, n as nat);
        }
    } else {
        let zeros = n - b.len();
        let mut i: usize = 0;
        while i < zeros
            invariant
                zeros == n - b.len(),
                i <= zeros,
                out@ == Seq::new(i as nat, |j: int| 0u8),
            decreases zeros - i,
        {
            out.push(0u8);
            i = i + 1;
            assert(out@ =~= Seq::new(i as nat, |j: int| 0u8));
        }
        let mut j: usize = 0;
        while j < b.len()
            invariant
                zeros == n - b.len(),
                j <= b.len(),
                out@ == Seq::new(zeros as nat, |k: int| 0u8) + b@.subrange(0, j as int),
            decreases b.len() - j,
        {
            out.push(b[j]);
            j = j + 1;
            assert(out@ =~= Seq::new(zeros as nat, |k: int| 0u8) + b@.subrange(0, j as int));
        }
        assert(b@.subrange(0, b.len() as int) =~= b@);
        proof {
            lemma_be_fixed_padded(b@, n as nat);
        }
    }
    proof {
        lemma_be_fixed_len(be_value(b@), n as nat);
    }
    out
}

proof fn lemma_be_fixed_len(x: nat, n: nat)
    ensures
        be_fixed(x, n).len() == n,
    decreases n,
{
    if n > 0 {
        lemma_be_fixed_len(x / 256, (n - 1) as nat);
    }
}

} // verus!
