//! Authentication helpers: legacy password translation, SRP verifier
//! generation, the database format `#1#<salt>#<verifier>`, and player
//! name rules.

use vstd::prelude::*;
use vstd::string::StringSliceAdditionalSpecFns;
use vstd::utf8::encode_utf8;
use crate::base64_util::{base64_valid, decode, encode, is_ascii_alnum, is_valid};
use crate::bytes::push_slice;
use crate::crypto::{base64_decoding, base64_encoding, is_base64_char, lowercase_of, sha1_digest, sha1_of, to_lowercase};
use crate::srp::{create_salted_verification_key, is_white_space, srp_modulus, srp_verifier_value, white_space, SrpError, G_2048};
use vstd::string::StrSliceExecFns;
use crate::crypto::be_fixed;
use crate::strings::{chars_of, string_from_chars};

pub use crate::crypto::sha256;

verus! {

/// Legacy password text: empty for an empty password, else the base64 of
/// SHA-1 over the name's bytes followed by the password's bytes.
pub open spec fn legacy_password(name: Seq<char>, password: Seq<char>) -> Seq<char> {
    if password.len() == 0 {
        Seq::empty()
    } else {
        base64_encoding(sha1_of(encode_utf8(name) + encode_utf8(password)))
    }
}

/// Translate a cleartext password to a legacy base64 SHA-1 password.
pub fn translate_password(name: &str, password: &str) -> (s: String)
    ensures
        s@ == legacy_password(name@, password@),
        password@.len() > 0 ==> base64_valid(s@),
{
    if password.is_empty() {
        let empty = String::new();
        assert(empty@ =~= legacy_password(name@, password@));
        return empty;
    }
    let mut data: Vec<u8> = Vec::new();
    push_slice(&mut data, name.as_bytes());
    push_slice(&mut data, password.as_bytes());
    assert(data@ =~= name.spec_bytes() + password.spec_bytes());
    let digest = sha1_digest(data.as_slice());
    let text = encode(digest.as_slice());
    proof {
        crate::base64_util::law_encoded_is_valid(digest@, text@);
    }
    text
}

/// Generate a salted SRP verifier for the lower-cased `name`, with a
/// 16-byte random salt; returns `(salt, verifier)`.
pub fn generate_srp_verifier_and_salt(name: &str, password: &str) -> (r: Result<(Vec<u8>, Vec<u8>), SrpError>)
    ensures
        match r {
            Ok((salt, v)) => {
                &&& srp_modulus() matches Some(n) && n > 1
                &&& salt@.len() == 16
                &&& v@ == be_fixed(
                    srp_verifier_value(srp_modulus()->0, G_2048 as nat, encode_utf8(lowercase_of(name@)), password.spec_bytes(), salt@),
                    256,
                )
            },
            Err(e) => e == SrpError::InvalidModulus && !(srp_modulus() matches Some(n) && n > 1),
        },
{
    let lower = to_lowercase(name);
    create_salted_verification_key(lower.as_str(), password.as_bytes(), None)
}

/// The database text `#1#<base64(salt)>#<base64(verifier)>`.
pub open spec fn encoded_verifier(verifier: Seq<u8>, salt: Seq<u8>) -> Seq<char> {
    seq!['#', '1', '#'] + base64_encoding(salt) + seq!['#'] + base64_encoding(verifier)
}

/// Generate an SRP verifier and return it in the database format.
pub fn get_encoded_srp_verifier(name: &str, password: &str) -> (r: Result<String, SrpError>)
    ensures
        match r {
            Ok(s) => {
                &&& srp_modulus() matches Some(n) && n > 1
                &&& exists|salt: Seq<u8>| #![trigger encoded_verifier(salted_verifier(name@, password.spec_bytes(), salt), salt)]
                    salt.len() == 16 && s@ == encoded_verifier(salted_verifier(name@, password.spec_bytes(), salt), salt)
            },
            Err(e) => e == SrpError::InvalidModulus && !(srp_modulus() matches Some(n) && n > 1),
        },
{
    let (salt, verifier) = generate_srp_verifier_and_salt(name, password)?;
    let s = encode_srp_verifier(verifier.as_slice(), salt.as_slice());
    assert(verifier@ == salted_verifier(name@, password.spec_bytes(), salt@));
    Ok(s)
}

/// The 256-byte verifier of the lower-cased `name` and `password` under
/// `salt`.
pub open spec fn salted_verifier(name: Seq<char>, password: Seq<u8>, salt: Seq<u8>) -> Seq<u8> {
    be_fixed(srp_verifier_value(srp_modulus()->0, G_2048 as nat, encode_utf8(lowercase_of(name)), password, salt), 256)
}

/// Encode a verifier and salt into the database format.
pub fn encode_srp_verifier(verifier: &[u8], salt: &[u8]) -> (s: String)
    ensures
        s@ == encoded_verifier(verifier@, salt@),
{
    let salt_text = chars_of(encode(salt).as_str());
    let verifier_text = chars_of(encode(verifier).as_str());
    let mut out: Vec<char> = Vec::new();
    out.push('#');
    out.push('1');
    out.push('#');
    push_chars(&mut out, salt_text.as_slice());
    out.push('#');
    push_chars(&mut out, verifier_text.as_slice());
    assert(out@ =~= encoded_verifier(verifier@, salt@));
    string_from_chars(out.as_slice())
}

/// Appends `src` to `buf`.
pub fn push_chars(buf: &mut Vec<char>, src: &[char])
    ensures
        final(buf)@ == old(buf)@ + src@,
{
    let ghost start = buf@;
    let mut i: usize = 0;
    while i < src.len()
        invariant
            i <= src@.len(),
            buf@ == start + src@.subrange(0, i as int),
        decreases src.len() - i,
    {
        buf.push(src[i]);
        i = i + 1;
        assert(buf@ =~= start + src@.subrange(0, i as int));
    }
    assert(src@.subrange(0, i as int) =~= src@);
}

/// The pieces of `s` between occurrences of `sep` (as `str::split`).
pub open spec fn split_on(s: Seq<char>, sep: char) -> Seq<Seq<char>>
    decreases s.len(),
{
    if s.len() == 0 {
        seq![Seq::empty()]
    } else {
        let rest = split_on(s.drop_last(), sep);
        if s.last() == sep {
            rest.push(Seq::empty())
        } else {
            rest.update(rest.len() - 1, rest.last().push(s.last()))
        }
    }
}

proof fn lemma_split_on_nonempty(s: Seq<char>, sep: char)
    ensures
        split_on(s, sep).len() >= 1,
    decreases s.len(),
{
    if s.len() > 0 {
        lemma_split_on_nonempty(s.drop_last(), sep);
    }
}

/// Splits a character sequence on `sep`.
pub fn split_chars(s: &[char], sep: char) -> (parts: Vec<Vec<char>>)
    ensures
        parts@.len() == split_on(s@, sep).len(),
        forall|i: int| 0 <= i < parts@.len() ==> (#[trigger] parts@[i])@ == split_on(s@, sep)[i],
{
    let mut parts: Vec<Vec<char>> = Vec::new();
    parts.push(Vec::new());
    let mut i: usize = 0;
    assert(s@.take(0) =~= Seq::<char>::empty());
    while i < s.len()
        invariant
            i <= s@.len(),
            parts@.len() == split_on(s@.take(i as int), sep).len(),
            parts@.len() >= 1,
            forall|k: int| 0 <= k < parts@.len() ==> (#[trigger] parts@[k])@ == split_on(s@.take(i as int), sep)[k],
        decreases s.len() - i,
    {
        let c = s[i];
        proof {
            assert(s@.take(i + 1).drop_last() =~= s@.take(i as int));
            assert(s@.take(i + 1).last() == c);
        }
        if c == sep {
            parts.push(Vec::new());
        } else {
            let last = parts.len() - 1;
            let mut piece = parts.remove(last);
            piece.push(c);
            parts.push(piece);
        }
        i = i + 1;
        proof {
            let pre = split_on(s@.take(i - 1), sep);
            let post = split_on(s@.take(i as int), sep);
            assert forall|k: int| 0 <= k < parts@.len() implies (#[trigger] parts@[k])@ == post[k] by {
                if c != sep && k == parts@.len() - 1 {
                    assert(parts@[k]@ == pre.last().push(c));
                }
            }
        }
    }
    assert(s@.take(s@.len() as int) =~= s@);
    parts
}

/// Whether `s` is the database text of an SRP verifier, and if so the
/// salt and verifier it holds.
pub open spec fn decoded_verifier(s: Seq<char>) -> Option<(Seq<u8>, Seq<u8>)> {
    let parts = split_on(s, '#');
    if parts.len() == 4 && parts[1] == seq!['1'] && base64_valid(parts[2]) && base64_valid(parts[3]) {
        Some((base64_decoding(parts[2])->0, base64_decoding(parts[3])->0))
    } else {
        None
    }
}

/// Decode a database-format SRP verifier into the raw verifier and salt;
/// `false` (and both left unchanged) when the text is not in that format.
pub fn decode_srp_verifier_and_salt(encoded: &str, verifier: &mut Vec<u8>, salt: &mut Vec<u8>) -> (ok: bool)
    ensures
        ok == decoded_verifier(encoded@) is Some,
        ok ==> decoded_verifier(encoded@) == Some((final(salt)@, final(verifier)@)),
        !ok ==> final(salt)@ == old(salt)@ && final(verifier)@ == old(verifier)@,
{
    let cs = chars_of(encoded);
    let parts = split_chars(cs.as_slice(), '#');
    if parts.len() != 4 {
        return false;
    }
    if !(parts[1].len() == 1 && parts[1][0] == '1') {
        proof {
            if parts@[1]@ == seq!['1'] {
                assert(parts@[1]@[0] == '1');
            }
        }
        return false;
    }
    assert(parts@[1]@ =~= seq!['1']);
    let salt_text = string_from_chars(parts[2].as_slice());
    let verifier_text = string_from_chars(parts[3].as_slice());
    if !is_valid(salt_text.as_str()) || !is_valid(verifier_text.as_str()) {
        return false;
    }
    match (decode(salt_text.as_str()), decode(verifier_text.as_str())) {
        (Some(s), Some(v)) => {
            *salt = s;
            *verifier = v;
            true
        },
        _ => false,
    }
}

/// Encoding a verifier and salt, then decoding the text, gives both back,
/// for a non-empty verifier and salt.
pub proof fn law_verifier_roundtrip(verifier: Seq<u8>, salt: Seq<u8>)
    requires
        verifier.len() > 0,
        salt.len() > 0,
        base64_decoding(base64_encoding(salt)) == Some(salt),
        base64_decoding(base64_encoding(verifier)) == Some(verifier),
        base64_encoding(salt).len() == 4 * ((salt.len() + 2) / 3),
        base64_encoding(verifier).len() == 4 * ((verifier.len() + 2) / 3),
        forall|i: int| 0 <= i < base64_encoding(salt).len() ==> is_base64_char(#[trigger] base64_encoding(salt)[i]) || base64_encoding(salt)[i] == '=',
        forall|i: int| 0 <= i < base64_encoding(verifier).len() ==> is_base64_char(#[trigger] base64_encoding(verifier)[i]) || base64_encoding(verifier)[i] == '=',
    ensures
        decoded_verifier(encoded_verifier(verifier, salt)) == Some((salt, verifier)),
{
    let es = base64_encoding(salt);
    let ev = base64_encoding(verifier);
    lemma_split_no_sep(es, '#');
    lemma_split_no_sep(ev, '#');
    let t = encoded_verifier(verifier, salt);
    lemma_split_concat(seq!['#', '1', '#'] + es, seq!['#'] + ev, '#');
    lemma_split_concat(seq!['#', '1', '#'], es, '#');
    lemma_split_concat(seq!['#'], ev, '#');
    lemma_split_concat(seq!['#', '1'], seq!['#'], '#');
    lemma_split_concat(seq!['#'], seq!['1'], '#');
    reveal_with_fuel(split_on, 2);
    assert(seq!['#', '1'].drop_last() =~= seq!['#']);
    assert(seq!['#'].drop_last() =~= Seq::<char>::empty());
    assert(seq!['1'].drop_last() =~= Seq::<char>::empty());
    assert(seq!['#', '1', '#'] + es + (seq!['#'] + ev) =~= t);
    assert(seq!['#', '1'] + seq!['#'] =~= seq!['#', '1', '#']);
    assert(seq!['#'] + seq!['1'] =~= seq!['#', '1']);
    assert(split_on(t, '#') =~= seq![Seq::<char>::empty(), seq!['1'], es, ev]);
}

pub(crate) proof fn lemma_split_no_sep(s: Seq<char>, sep: char)
    requires
        forall|i: int| 0 <= i < s.len() ==> s[i] != sep,
    ensures
        split_on(s, sep) == seq![s],
    decreases s.len(),
{
    if s.len() > 0 {
        lemma_split_no_sep(s.drop_last(), sep);
        assert(s.drop_last().push(s.last()) =~= s);
    } else {
        assert(s =~= Seq::<char>::empty());
    }
}

proof fn lemma_split_concat(a: Seq<char>, b: Seq<char>, sep: char)
    ensures
        split_on(a + b, sep) == split_on(a, sep).drop_last() + seq![split_on(a, sep).last() + split_on(b, sep)[0]]
            + split_on(b, sep).drop_first(),
    decreases b.len(),
{
    lemma_split_on_nonempty(a, sep);
    lemma_split_on_nonempty(b, sep);
    if b.len() == 0 {
        assert(a + b =~= a);
        assert(split_on(a, sep).last() + Seq::<char>::empty() =~= split_on(a, sep).last());
        assert(split_on(a, sep).drop_last() + seq![split_on(a, sep).last()] =~= split_on(a, sep));
    } else {
        lemma_split_concat(a, b.drop_last(), sep);
        assert((a + b).drop_last() =~= a + b.drop_last());
        assert((a + b).last() == b.last());
        lemma_split_on_nonempty(b.drop_last(), sep);
        let pa = split_on(a, sep);
        let pb = split_on(b.drop_last(), sep);
        if b.last() == sep {
            assert(split_on(b, sep) == pb.push(Seq::empty()));
            if pb.len() == 1 {
                assert(split_on(a + b, sep) =~= pa.drop_last() + seq![pa.last() + split_on(b, sep)[0]] + split_on(b, sep).drop_first());
            } else {
                assert(split_on(a + b, sep) =~= pa.drop_last() + seq![pa.last() + split_on(b, sep)[0]] + split_on(b, sep).drop_first());
            }
        } else {
            if pb.len() == 1 {
                assert(pa.last() + pb[0].push(b.last()) =~= (pa.last() + pb[0]).push(b.last()));
                assert(split_on(a + b, sep) =~= pa.drop_last() + seq![pa.last() + split_on(b, sep)[0]] + split_on(b, sep).drop_first());
            } else {
                assert(split_on(a + b, sep) =~= pa.drop_last() + seq![pa.last() + split_on(b, sep)[0]] + split_on(b, sep).drop_first());
            }
        }
    }
}

/// `s` without its leading white space.
pub open spec fn strip_front(s: Seq<char>) -> Seq<char>
    decreases s.len(),
{
    if s.len() > 0 && is_white_space(s[0]) {
        strip_front(s.drop_first())
    } else {
        s
    }
}

/// `s` without its trailing white space.
pub open spec fn strip_back(s: Seq<char>) -> Seq<char>
    decreases s.len(),
{
    if s.len() > 0 && is_white_space(s.last()) {
        strip_back(s.drop_last())
    } else {
        s
    }
}

/// `s` with leading and trailing white space removed.
pub open spec fn trimmed(s: Seq<char>) -> Seq<char> {
    strip_back(strip_front(s))
}

/// Strip surrounding white space (as `str::trim`: Unicode `White_Space`).
pub fn trim(s: &str) -> (r: &str)
    ensures
        r@ == trimmed(s@),
{
    let cs = chars_of(s);
    let n = cs.len();
    let mut lo: usize = 0;
    assert(s@.subrange(0, n as int) =~= s@);
    while lo < n && white_space(cs[lo])
        invariant
            cs@ == s@,
            n == s@.len(),
            lo <= n,
            strip_front(s@) == strip_front(s@.subrange(lo as int, n as int)),
        decreases n - lo,
    {
        assert(s@.subrange(lo + 1, n as int) =~= s@.subrange(lo as int, n as int).drop_first());
        lo = lo + 1;
    }
    let mut hi: usize = n;
    assert(strip_front(s@) == s@.subrange(lo as int, n as int));
    while hi > lo && white_space(cs[hi - 1])
        invariant
            cs@ == s@,
            n == s@.len(),
            lo <= hi <= n,
            strip_back(s@.subrange(lo as int, n as int)) == strip_back(s@.subrange(lo as int, hi as int)),
        decreases hi - lo,
    {
        assert(s@.subrange(lo as int, hi - 1) =~= s@.subrange(lo as int, hi as int).drop_last());
        hi = hi - 1;
    }
    assert(strip_back(s@.subrange(lo as int, hi as int)) == s@.subrange(lo as int, hi as int));
    s.substring_char(lo, hi)
}

/// Maximum length of a player name.
pub const PLAYERNAME_SIZE: usize = 20;

/// Whether `c` may appear in a player name.
pub open spec fn is_name_char(c: char) -> bool {
    is_ascii_alnum(c) || c == '-' || c == '_'
}

/// A valid player name: 1 to 20 characters out of `a-z A-Z 0-9 - _`.
pub open spec fn valid_player_name(s: Seq<char>) -> bool {
    &&& 0 < s.len() <= PLAYERNAME_SIZE
    &&& forall|i: int| 0 <= i < s.len() ==> is_name_char(#[trigger] s[i])
}

/// Check if a player name is valid (length, allowed characters).
pub fn is_valid_player_name(name: &str) -> (b: bool)
    ensures
        b == valid_player_name(name@),
{
    let cs = chars_of(name);
    if cs.len() == 0 || cs.len() > PLAYERNAME_SIZE {
        return false;
    }
    let mut i: usize = 0;
    while i < cs.len()
        invariant
            cs@ == name@,
            i <= cs@.len(),
            forall|j: int| 0 <= j < i ==> is_name_char(#[trigger] cs@[j]),
        decreases cs.len() - i,
    {
        let c = cs[i];
        if !(('A' <= c && c <= 'Z') || ('a' <= c && c <= 'z') || ('0' <= c && c <= '9') || c == '-' || c == '_') {
            return false;
        }
        i = i + 1;
    }
    true
}

} // verus!
