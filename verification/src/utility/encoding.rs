//! Base64 (standard alphabet, padded) and UTF-8 conversions.

use base64::Engine;
use vstd::prelude::*;

verus! {

/// The character of a 6-bit value in the standard base64 alphabet.
pub open spec fn b64_char(v: int) -> char {
    if 0 <= v < 26 {
        ((v + 0x41) as u32) as char
    } else if 26 <= v < 52 {
        ((v - 26 + 0x61) as u32) as char
    } else if 52 <= v < 62 {
        ((v - 52 + 0x30) as u32) as char
    } else if v == 62 {
        '+'
    } else {
        '/'
    }
}

/// RFC 4648 base64 with the standard alphabet and `=` padding: each group of
/// three bytes becomes four characters; a final group of one or two bytes is
/// padded to four characters with `=`.
pub open spec fn base64_encode_spec(b: Seq<u8>) -> Seq<char>
    decreases b.len(),
{
    if b.len() == 0 {
        Seq::<char>::empty()
    } else {
        let b0 = b[0] as int;
        let b1 = if b.len() > 1 { b[1] as int } else { 0 };
        let b2 = if b.len() > 2 { b[2] as int } else { 0 };
        if b.len() == 1 {
            seq![b64_char(b0 / 4), b64_char((b0 % 4) * 16), '=', '=']
        } else if b.len() == 2 {
            seq![b64_char(b0 / 4), b64_char((b0 % 4) * 16 + b1 / 16), b64_char((b1 % 16) * 4), '=']
        } else {
            seq![
                b64_char(b0 / 4),
                b64_char((b0 % 4) * 16 + b1 / 16),
                b64_char((b1 % 16) * 4 + b2 / 64),
                b64_char(b2 % 64),
            ] + base64_encode_spec(b.skip(3))
        }
    }
}

/// Calls `base64::engine::general_purpose::STANDARD.encode`, which returns the
/// padded standard encoding of the bytes. It panics when the length of the
/// output overflows `usize`, which `requires` rules out.
#[verifier::external_body]
pub(crate) fn base64_encode(bytes: &[u8]) -> (res: String)
    requires
        bytes@.len() <= usize::MAX / 4 * 3,
    ensures
        res@ == base64_encode_spec(bytes@),
{
    base64::engine::general_purpose::STANDARD.encode(bytes)
}

/// Calls `base64::engine::general_purpose::STANDARD.decode`. With its
/// configuration (canonical padding required, no trailing bits) it accepts
/// exactly the strings that are the encoding of some bytes, and returns those
/// bytes.
#[verifier::external_body]
pub(crate) fn base64_decode(s: &str) -> (res: Option<Vec<u8>>)
    ensures
        res is Some <==> exists|b: Seq<u8>| base64_encode_spec(b) == s@,
        res matches Some(x) ==> forall|b: Seq<u8>|
            #[trigger] base64_encode_spec(b) == s@ <==> x@ == b,
{
    base64::engine::general_purpose::STANDARD.decode(s).ok()
}

/// Calls `String::from_utf8`: it succeeds exactly on valid UTF-8 and returns
/// the characters that the bytes encode.
#[verifier::external_body]
pub(crate) fn string_from_utf8(bytes: Vec<u8>) -> (res: Option<String>)
    ensures
        res is Some <==> vstd::utf8::valid_utf8(bytes@),
        res matches Some(s) ==> s@ == vstd::utf8::decode_utf8(bytes@),
{
    String::from_utf8(bytes).ok()
}

/// The UTF-8 bytes of a string.
pub fn str_bytes(s: &str) -> (res: Vec<u8>)
    ensures
        res@ == vstd::utf8::encode_utf8(s@),
{
    let b = s.as_bytes();
    let mut v: Vec<u8> = Vec::new();
    let mut i: usize = 0;
    while i < b.len()
        invariant
            b@ == vstd::utf8::encode_utf8(s@),
            i <= b@.len(),
            v@ == b@.subrange(0, i as int),
        decreases b@.len() - i,
    {
        v.push(b[i]);
        i = i + 1;
    }
    assert(b@.subrange(0, b@.len() as int) =~= b@);
    v
}

} // verus!
