//! Reference model of the protocol's field encodings: what each writer
//! appends (`enc_*`) and what each reader returns from a byte buffer and a
//! position (`dec_*`), with the laws that tie the two together.

use vstd::prelude::*;
use vstd::utf8::*;
use crate::bytes::{be_u16, be_u32, be_u64, u16_of, u32_of, u64_of, lemma_u16_roundtrip, lemma_u32_roundtrip, lemma_u64_roundtrip};
use crate::text::{utf16_encode, utf16_decode, lemma_utf16_roundtrip};

verus! {

/// Why a read stopped, and at which position the cursor was left.
pub enum ReadFail {
    /// `needed` more bytes were required at position `at`.
    Short { needed: nat, at: int },
    /// The bytes of a `std::string` ending at `at` are not UTF-8.
    BadUtf8 { at: int },
    /// The code units of a `wstring` ending at `at` are not UTF-16.
    BadUtf16 { at: int },
}

impl ReadFail {
    /// Position of the cursor once the read has failed.
    pub open spec fn at(self) -> int {
        match self {
            ReadFail::Short { at, .. } => at,
            ReadFail::BadUtf8 { at } => at,
            ReadFail::BadUtf16 { at } => at,
        }
    }
}

/// Outcome of a read: the value and the new position, or the failure.
pub type Decoded<T> = Result<(T, int), ReadFail>;

pub open spec fn dec_bytes(d: Seq<u8>, p: int, n: nat) -> Decoded<Seq<u8>> {
    if 0 <= p && p + n <= d.len() {
        Ok((d.subrange(p, p + n), p + n))
    } else {
        Err(ReadFail::Short { needed: n, at: p })
    }
}

/// Skipping `n` bytes.
pub open spec fn dec_skip(d: Seq<u8>, p: int, n: nat) -> Decoded<()> {
    if 0 <= p && p + n <= d.len() {
        Ok(((), p + n))
    } else {
        Err(ReadFail::Short { needed: n, at: p })
    }
}

pub open spec fn dec_u8(d: Seq<u8>, p: int) -> Decoded<u8> {
    if 0 <= p && p + 1 <= d.len() {
        Ok((d[p], p + 1))
    } else {
        Err(ReadFail::Short { needed: 1, at: p })
    }
}

pub open spec fn dec_u16(d: Seq<u8>, p: int) -> Decoded<u16> {
    if 0 <= p && p + 2 <= d.len() {
        Ok((u16_of(d[p], d[p + 1]), p + 2))
    } else {
        Err(ReadFail::Short { needed: 2, at: p })
    }
}

pub open spec fn dec_u32(d: Seq<u8>, p: int) -> Decoded<u32> {
    if 0 <= p && p + 4 <= d.len() {
        Ok((u32_of(d.subrange(p, p + 4)), p + 4))
    } else {
        Err(ReadFail::Short { needed: 4, at: p })
    }
}

pub open spec fn dec_u64(d: Seq<u8>, p: int) -> Decoded<u64> {
    if 0 <= p && p + 8 <= d.len() {
        Ok((u64_of(d.subrange(p, p + 8)), p + 8))
    } else {
        Err(ReadFail::Short { needed: 8, at: p })
    }
}

pub open spec fn dec_i16(d: Seq<u8>, p: int) -> Decoded<i16> {
    match dec_u16(d, p) {
        Ok((v, q)) => Ok((v as i16, q)),
        Err(f) => Err(f),
    }
}

pub open spec fn dec_i32(d: Seq<u8>, p: int) -> Decoded<i32> {
    match dec_u32(d, p) {
        Ok((v, q)) => Ok((v as i32, q)),
        Err(f) => Err(f),
    }
}

/// A `std::string`: `u16` length, then that many bytes.
pub open spec fn dec_string(d: Seq<u8>, p: int) -> Decoded<Seq<u8>> {
    match dec_u16(d, p) {
        Ok((n, q)) => dec_bytes(d, q, n as nat),
        Err(f) => Err(f),
    }
}

/// A long string: `u32` length, then that many bytes.
pub open spec fn dec_long_string(d: Seq<u8>, p: int) -> Decoded<Seq<u8>> {
    match dec_u32(d, p) {
        Ok((n, q)) => dec_bytes(d, q, n as nat),
        Err(f) => Err(f),
    }
}

/// A `std::string` whose bytes are decoded as UTF-8.
pub open spec fn dec_utf8(d: Seq<u8>, p: int) -> Decoded<Seq<char>> {
    match dec_string(d, p) {
        Ok((b, q)) => if valid_utf8(b) {
            Ok((decode_utf8(b), q))
        } else {
            Err(ReadFail::BadUtf8 { at: q })
        },
        Err(f) => Err(f),
    }
}

/// Big-endian code units held by the first `2 * n` bytes of `b`.
pub open spec fn units_of(b: Seq<u8>, n: nat) -> Seq<u16> {
    Seq::new(n, |i: int| u16_of(b[2 * i], b[2 * i + 1]))
}

/// A `wstring`: `u16` count of UTF-16 code units, then the units.
pub open spec fn dec_wstring(d: Seq<u8>, p: int) -> Decoded<Seq<char>> {
    match dec_u16(d, p) {
        Ok((n, q)) => match dec_bytes(d, q, 2 * n as nat) {
            Ok((b, r)) => match utf16_decode(units_of(b, n as nat)) {
                Some(s) => Ok((s, r)),
                None => Err(ReadFail::BadUtf16 { at: r }),
            },
            Err(f) => Err(f),
        },
        Err(f) => Err(f),
    }
}

pub open spec fn dec_v2s16(d: Seq<u8>, p: int) -> Decoded<(i16, i16)> {
    match dec_i16(d, p) {
        Ok((x, q)) => match dec_i16(d, q) {
            Ok((y, r)) => Ok(((x, y), r)),
            Err(f) => Err(f),
        },
        Err(f) => Err(f),
    }
}

pub open spec fn dec_v3s16(d: Seq<u8>, p: int) -> Decoded<(i16, i16, i16)> {
    match dec_v2s16(d, p) {
        Ok(((x, y), q)) => match dec_i16(d, q) {
            Ok((z, r)) => Ok(((x, y, z), r)),
            Err(f) => Err(f),
        },
        Err(f) => Err(f),
    }
}

pub open spec fn dec_v3s32(d: Seq<u8>, p: int) -> Decoded<(i32, i32, i32)> {
    match dec_i32(d, p) {
        Ok((x, q)) => match dec_i32(d, q) {
            Ok((y, r)) => match dec_i32(d, r) {
                Ok((z, t)) => Ok(((x, y, z), t)),
                Err(f) => Err(f),
            },
            Err(f) => Err(f),
        },
        Err(f) => Err(f),
    }
}

// --- Encoders ---------------------------------------------------------------

/// Bytes of a `std::string`: `u16` length then the bytes.
pub open spec fn enc_string(s: Seq<u8>) -> Seq<u8> {
    be_u16(s.len() as u16) + s
}

/// Bytes of a long string: `u32` length then the bytes.
pub open spec fn enc_long_string(s: Seq<u8>) -> Seq<u8> {
    be_u32(s.len() as u32) + s
}

/// Big-endian bytes of a sequence of code units.
pub open spec fn enc_units(u: Seq<u16>) -> Seq<u8> {
    Seq::new(2 * u.len(), |j: int| be_u16(u[j / 2])[j % 2])
}

/// Bytes of a `wstring`: `u16` unit count then the UTF-16 units.
pub open spec fn enc_wstring(s: Seq<char>) -> Seq<u8> {
    be_u16(utf16_encode(s).len() as u16) + enc_units(utf16_encode(s))
}

pub open spec fn enc_i16(v: i16) -> Seq<u8> {
    be_u16(v as u16)
}

pub open spec fn enc_i32(v: i32) -> Seq<u8> {
    be_u32(v as u32)
}

// --- Laws -------------------------------------------------------------------

pub proof fn lemma_enc_units_push(u: Seq<u16>, x: u16)
    ensures
        enc_units(u.push(x)) == enc_units(u) + be_u16(x),
{
    assert(enc_units(u.push(x)) =~= enc_units(u) + be_u16(x));
}

pub proof fn lemma_units_of_enc(u: Seq<u16>)
    ensures
        enc_units(u).len() == 2 * u.len(),
        units_of(enc_units(u), u.len()) == u,
{
    assert forall|i: int| 0 <= i < u.len() implies #[trigger] units_of(enc_units(u), u.len())[i] == u[i] by {
        lemma_u16_roundtrip(u[i]);
        assert((2 * i) / 2 == i && (2 * i) % 2 == 0);
        assert((2 * i + 1) / 2 == i && (2 * i + 1) % 2 == 1);
    }
    assert(units_of(enc_units(u), u.len()) =~= u);
}

/// Reading a `u8` right after it was written gives it back.
pub proof fn law_u8_roundtrip(pre: Seq<u8>, v: u8, post: Seq<u8>)
    ensures
        dec_u8(pre + seq![v] + post, pre.len() as int) == Ok::<(u8, int), ReadFail>((v, pre.len() as int + 1)),
{
    assert((pre + seq![v] + post)[pre.len() as int] == v);
}

/// Reading a `u16` right after it was written gives it back.
pub proof fn law_u16_roundtrip(pre: Seq<u8>, v: u16, post: Seq<u8>)
    ensures
        dec_u16(pre + be_u16(v) + post, pre.len() as int) == Ok::<(u16, int), ReadFail>((v, pre.len() as int + 2)),
{
    lemma_u16_roundtrip(v);
    let d = pre + be_u16(v) + post;
    assert(d[pre.len() as int] == be_u16(v)[0]);
    assert(d[pre.len() as int + 1] == be_u16(v)[1]);
}

/// Reading a `u32` right after it was written gives it back.
pub proof fn law_u32_roundtrip(pre: Seq<u8>, v: u32, post: Seq<u8>)
    ensures
        dec_u32(pre + be_u32(v) + post, pre.len() as int) == Ok::<(u32, int), ReadFail>((v, pre.len() as int + 4)),
{
    lemma_u32_roundtrip(v);
    let d = pre + be_u32(v) + post;
    assert(d.subrange(pre.len() as int, pre.len() as int + 4) =~= be_u32(v));
}

/// Reading a `u64` right after it was written gives it back.
pub proof fn law_u64_roundtrip(pre: Seq<u8>, v: u64, post: Seq<u8>)
    ensures
        dec_u64(pre + be_u64(v) + post, pre.len() as int) == Ok::<(u64, int), ReadFail>((v, pre.len() as int + 8)),
{
    lemma_u64_roundtrip(v);
    let d = pre + be_u64(v) + post;
    assert(d.subrange(pre.len() as int, pre.len() as int + 8) =~= be_u64(v));
}

/// Reading an `i16` right after it was written gives it back.
pub proof fn law_i16_roundtrip(pre: Seq<u8>, v: i16, post: Seq<u8>)
    ensures
        dec_i16(pre + enc_i16(v) + post, pre.len() as int) == Ok::<(i16, int), ReadFail>((v, pre.len() as int + 2)),
{
    law_u16_roundtrip(pre, v as u16, post);
    assert((v as u16) as i16 == v) by (bit_vector);
}

/// Reading an `i32` right after it was written gives it back.
pub proof fn law_i32_roundtrip(pre: Seq<u8>, v: i32, post: Seq<u8>)
    ensures
        dec_i32(pre + enc_i32(v) + post, pre.len() as int) == Ok::<(i32, int), ReadFail>((v, pre.len() as int + 4)),
{
    law_u32_roundtrip(pre, v as u32, post);
    assert((v as u32) as i32 == v) by (bit_vector);
}

/// Reading a `std::string` right after it was written gives its bytes back.
pub proof fn law_string_roundtrip(pre: Seq<u8>, s: Seq<u8>, post: Seq<u8>)
    requires
        s.len() <= 0xFFFF,
    ensures
        dec_string(pre + enc_string(s) + post, pre.len() as int)
            == Ok::<(Seq<u8>, int), ReadFail>((s, pre.len() as int + 2 + s.len())),
{
    let d = pre + enc_string(s) + post;
    assert(d =~= pre + be_u16(s.len() as u16) + (s + post));
    law_u16_roundtrip(pre, s.len() as u16, s + post);
    assert(d.subrange(pre.len() as int + 2, pre.len() as int + 2 + s.len()) =~= s);
}

/// Reading a long string right after it was written gives its bytes back.
pub proof fn law_long_string_roundtrip(pre: Seq<u8>, s: Seq<u8>, post: Seq<u8>)
    requires
        s.len() <= 0xFFFF_FFFF,
    ensures
        dec_long_string(pre + enc_long_string(s) + post, pre.len() as int)
            == Ok::<(Seq<u8>, int), ReadFail>((s, pre.len() as int + 4 + s.len())),
{
    let d = pre + enc_long_string(s) + post;
    assert(d =~= pre + be_u32(s.len() as u32) + (s + post));
    law_u32_roundtrip(pre, s.len() as u32, s + post);
    assert(d.subrange(pre.len() as int + 4, pre.len() as int + 4 + s.len()) =~= s);
}

/// Reading a UTF-8 `std::string` right after writing the UTF-8 bytes of a
/// text gives the text back.
pub proof fn law_utf8_roundtrip(pre: Seq<u8>, s: Seq<char>, post: Seq<u8>)
    requires
        encode_utf8(s).len() <= 0xFFFF,
    ensures
        dec_utf8(pre + enc_string(encode_utf8(s)) + post, pre.len() as int)
            == Ok::<(Seq<char>, int), ReadFail>((s, pre.len() as int + 2 + encode_utf8(s).len())),
{
    law_string_roundtrip(pre, encode_utf8(s), post);
    encode_utf8_valid_utf8(s);
    encode_utf8_decode_utf8(s);
}

/// Reading a `wstring` right after it was written gives the text back.
#[verifier::spinoff_prover]
#[verifier::rlimit(50)]
pub proof fn law_wstring_roundtrip(pre: Seq<u8>, s: Seq<char>, post: Seq<u8>)
    requires
        utf16_encode(s).len() <= 0xFFFF,
    ensures
        dec_wstring(pre + enc_wstring(s) + post, pre.len() as int)
            == Ok::<(Seq<char>, int), ReadFail>((s, pre.len() as int + 2 + 2 * utf16_encode(s).len())),
{
    let u = utf16_encode(s);
    let n = u.len() as u16;
    let p = pre.len() as int;
    let d = pre + enc_wstring(s) + post;
    lemma_units_of_enc(u);
    assert(d =~= pre + be_u16(n) + (enc_units(u) + post));
    law_u16_roundtrip(pre, n, enc_units(u) + post);
    assert(dec_u16(d, p) == Ok::<(u16, int), ReadFail>((n, p + 2)));
    let b = d.subrange(p + 2, p + 2 + 2 * u.len());
    assert(b =~= enc_units(u));
    assert(dec_bytes(d, p + 2, 2 * n as nat) == Ok::<(Seq<u8>, int), ReadFail>((b, p + 2 + 2 * u.len())));
    assert(units_of(b, n as nat) == u);
    lemma_utf16_roundtrip(s);
}

} // verus!
