//! Text encodings used on the wire: UTF-8 `std::string`s and UTF-16 `wstring`s.

use vstd::prelude::*;
use vstd::utf8::*;

verus! {

/// UTF-16 code units of one character.
pub open spec fn utf16_of_char(c: char) -> Seq<u16> {
    let v = c as u32;
    if v < 0x10000 {
        seq![v as u16]
    } else {
        let w = v - 0x10000;
        seq![(0xD800 + w / 0x400) as u16, (0xDC00 + w % 0x400) as u16]
    }
}

/// UTF-16 encoding of a character sequence.
pub open spec fn utf16_encode(s: Seq<char>) -> Seq<u16>
    decreases s.len(),
{
    if s.len() == 0 {
        seq![]
    } else {
        utf16_of_char(s[0]) + utf16_encode(s.drop_first())
    }
}

/// Whether `u` lies in the surrogate range `0xD800..=0xDFFF`.
pub open spec fn is_surrogate(u: u16) -> bool {
    0xD800 <= u <= 0xDFFF
}

/// UTF-16 decoding: `None` when a surrogate is unpaired.
pub open spec fn utf16_decode(u: Seq<u16>) -> Option<Seq<char>>
    decreases u.len(),
{
    if u.len() == 0 {
        Some(seq![])
    } else if !is_surrogate(u[0]) {
        match utf16_decode(u.drop_first()) {
            Some(rest) => Some(seq![(u[0] as u32) as char] + rest),
            None => None,
        }
    } else if u[0] <= 0xDBFF && u.len() >= 2 && 0xDC00 <= u[1] <= 0xDFFF {
        let v = (0x10000 + (u[0] - 0xD800) * 0x400 + (u[1] - 0xDC00)) as u32;
        match utf16_decode(u.subrange(2, u.len() as int)) {
            Some(rest) => Some(seq![v as char] + rest),
            None => None,
        }
    } else {
        None
    }
}

proof fn lemma_utf16_char(c: char)
    ensures
        ({
            let u = utf16_of_char(c);
            &&& 1 <= u.len() <= 2
            &&& u.len() == 1 ==> !is_surrogate(u[0]) && ((u[0] as u32) as char) == c
            &&& u.len() == 2 ==> {
                &&& 0xD800 <= u[0] <= 0xDBFF
                &&& 0xDC00 <= u[1] <= 0xDFFF
                &&& ((0x10000 + (u[0] - 0xD800) * 0x400 + (u[1] - 0xDC00)) as u32) as char == c
            }
        }),
{
    broadcast use char_is_scalar;

    let v = c as u32;
    char_u32_cast(c, v);
    if v >= 0x10000 {
        let w = v - 0x10000;
        assert(w < 0x100000);
        assert((0x10000 + (w / 0x400) * 0x400 + (w % 0x400)) as u32 == v);
    }
}

/// Decoding the UTF-16 encoding of a character sequence gives it back.
pub proof fn lemma_utf16_roundtrip(s: Seq<char>)
    ensures
        utf16_decode(utf16_encode(s)) == Some(s),
    decreases s.len(),
{
    if s.len() > 0 {
        lemma_utf16_roundtrip(s.drop_first());
        lemma_utf16_char(s[0]);
        let head = utf16_of_char(s[0]);
        let tail = utf16_encode(s.drop_first());
        let u = utf16_encode(s);
        assert(u == head + tail);
        if head.len() == 1 {
            assert(u.drop_first() =~= tail);
        } else {
            assert(u.subrange(2, u.len() as int) =~= tail);
        }
        assert(seq![s[0]] + s.drop_first() =~= s);
    }
}

/// UTF-16 code units of `s` (wraps `str::encode_utf16`).
#[verifier::external_body]
pub(crate) fn encode_utf16(s: &str) -> (units: Vec<u16>)
    ensures
        units@ == utf16_encode(s@),
{
    s.encode_utf16().collect()
}

/// Decodes UTF-16 code units (wraps `String::from_utf16`); `None` on an
/// unpaired surrogate.
#[verifier::external_body]
pub(crate) fn decode_utf16(units: &[u16]) -> (s: Option<String>)
    ensures
        match s {
            Some(t) => utf16_decode(units@) == Some(t@),
            None => utf16_decode(units@) is None,
        },
{
    String::from_utf16(units).ok()
}

/// Decodes UTF-8 bytes (wraps `String::from_utf8`); `None` when the bytes
/// are not valid UTF-8.
#[verifier::external_body]
pub(crate) fn decode_utf8_bytes(bytes: Vec<u8>) -> (s: Option<String>)
    ensures
        match s {
            Some(t) => valid_utf8(bytes@) && t@ == decode_utf8(bytes@),
            None => !valid_utf8(bytes@),
        },
{
    String::from_utf8(bytes).ok()
}

} // verus!
