//! Base64 with the standard alphabet and `=` padding.

use vstd::prelude::*;
use crate::crypto::{base64_decode, base64_decoding, base64_encode, base64_encoding, is_base64_char};
use crate::strings::chars_of;

verus! {

/// Encode bytes as standard base64 (no line wrapping).
pub fn encode(data: &[u8]) -> (s: String)
    ensures
        s@ == base64_encoding(data@),
        s@.len() == 4 * ((data@.len() + 2) / 3),
        forall|i: int| 0 <= i < s@.len() ==> is_base64_char(#[trigger] s@[i]) || s@[i] == '=',
        base64_decoding(s@) == Some(data@),
{
    base64_encode(data)
}

/// Decode standard base64; `None` when the text is not valid base64.
pub fn decode(s: &str) -> (r: Option<Vec<u8>>)
    ensures
        match r {
            Some(v) => base64_decoding(s@) == Some(v@),
            None => base64_decoding(s@) is None,
        },
{
    base64_decode(s)
}

/// Whether `c` is an ASCII letter or digit.
pub open spec fn is_ascii_alnum(c: char) -> bool {
    ('A' <= c && c <= 'Z') || ('a' <= c && c <= 'z') || ('0' <= c && c <= '9')
}

/// Whether `s` is non-empty, uses only the base64 alphabet and `=`, and
/// decodes.
pub open spec fn base64_valid(s: Seq<char>) -> bool {
    &&& s.len() > 0
    &&& forall|i: int| 0 <= i < s.len() ==> is_ascii_alnum(#[trigger] s[i]) || s[i] == '+' || s[i] == '/' || s[i] == '='
    &&& base64_decoding(s) is Some
}

/// Returns `true` if the string is valid base64 with the standard alphabet.
pub fn is_valid(s: &str) -> (b: bool)
    ensures
        b == base64_valid(s@),
{
    let cs = chars_of(s);
    if cs.len() == 0 {
        return false;
    }
    let mut i: usize = 0;
    while i < cs.len()
        invariant
            cs@ == s@,
            i <= cs@.len(),
            forall|j: int| 0 <= j < i ==> is_ascii_alnum(#[trigger] cs@[j]) || cs@[j] == '+' || cs@[j] == '/' || cs@[j] == '=',
        decreases cs.len() - i,
    {
        let c = cs[i];
        if !(('A' <= c && c <= 'Z') || ('a' <= c && c <= 'z') || ('0' <= c && c <= '9') || c == '+' || c == '/' || c == '=') {
            return false;
        }
        i = i + 1;
    }
    decode(s).is_some()
}

/// Encoding then checking gives `true` for any non-empty data.
pub proof fn law_encoded_is_valid(data: Seq<u8>, text: Seq<char>)
    requires
        data.len() > 0,
        text.len() == 4 * ((data.len() + 2) / 3),
        forall|i: int| 0 <= i < text.len() ==> is_base64_char(#[trigger] text[i]) || text[i] == '=',
        base64_decoding(text) == Some(data),
    ensures
        base64_valid(text),
{
}

} // verus!
