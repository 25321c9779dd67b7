//! Hashes of the secrets a share keeps (password, IP, share key): the
//! lower-case hex of SHA-256 over the server secret, a zero byte, and the
//! value, all as UTF-8.

use crate::features::share::retrieve::HashCheck;
use crate::text::{push_char, str_eq};
use crate::utility::encoding::str_bytes;
use crate::utility::encrypt::{sha256, sha256_digest};
use vstd::prelude::*;

verus! {

pub open spec fn hex_lower(d: int) -> char {
    if d < 10 {
        ((d + 0x30) as u32) as char
    } else {
        ((d - 10 + 0x61) as u32) as char
    }
}

/// Two lower-case hex digits per byte, most significant first.
pub open spec fn hex_of(bytes: Seq<u8>) -> Seq<char>
    decreases bytes.len(),
{
    if bytes.len() == 0 {
        Seq::<char>::empty()
    } else {
        hex_of(bytes.drop_last()) + seq![hex_lower((bytes.last() / 16) as int), hex_lower((bytes.last() % 16) as int)]
    }
}

/// The bytes hashed for a value: the secret, a zero byte, then the value.
pub open spec fn hash_input(secret: Seq<char>, value: Seq<char>) -> Seq<u8> {
    vstd::utf8::encode_utf8(secret) + seq![0u8] + vstd::utf8::encode_utf8(value)
}

/// The stored hash of a value.
pub open spec fn hash_spec(secret: Seq<char>, value: Seq<char>) -> Seq<char> {
    hex_of(sha256_digest(hash_input(secret, value)))
}

fn hex_char(d: u8) -> (c: char)
    requires
        d < 16,
    ensures
        c == hex_lower(d as int),
{
    if d < 10 {
        crate::text::char_from_ascii(d + 0x30)
    } else {
        crate::text::char_from_ascii(d - 10 + 0x61)
    }
}

/// The hash of `value` under the server secret.
pub fn hash(secret: &str, value: &str) -> (res: String)
    ensures
        res@ == hash_spec(secret@, value@),
{
    let s = str_bytes(secret);
    let v = str_bytes(value);
    let mut input: Vec<u8> = Vec::new();
    let mut i: usize = 0;
    while i < s.len()
        invariant
            i <= s@.len(),
            input@ == s@.subrange(0, i as int),
        decreases s@.len() - i,
    {
        input.push(s[i]);
        i = i + 1;
    }
    input.push(0u8);
    let mut j: usize = 0;
    while j < v.len()
        invariant
            j <= v@.len(),
            input@ == s@ + seq![0u8] + v@.subrange(0, j as int),
        decreases v@.len() - j,
    {
        proof {
            assert(s@.subrange(0, s@.len() as int) =~= s@);
        }
        input.push(v[j]);
        j = j + 1;
        assert(input@ =~= s@ + seq![0u8] + v@.subrange(0, j as int));
    }
    assert(s@.subrange(0, s@.len() as int) =~= s@);
    assert(v@.subrange(0, v@.len() as int) =~= v@);
    assert(input@ =~= hash_input(secret@, value@));
    let digest = sha256(input.as_slice());
    let mut out = String::new();
    let mut k: usize = 0;
    assert(out@ =~= hex_of(digest@.subrange(0, 0)));
    while k < digest.len()
        invariant
            k <= digest@.len(),
            out@ == hex_of(digest@.subrange(0, k as int)),
        decreases digest@.len() - k,
    {
        let b = digest[k];
        push_char(&mut out, hex_char(b / 16));
        push_char(&mut out, hex_char(b % 16));
        k = k + 1;
        assert(digest@.subrange(0, k as int).drop_last() =~= digest@.subrange(0, k - 1));
        assert(out@ =~= hex_of(digest@.subrange(0, k as int)));
    }
    assert(digest@.subrange(0, digest@.len() as int) =~= digest@);
    out
}

/// Checks a value against a stored hash: a match exactly when the value's
/// hash is the stored text.
pub fn verify(secret: &str, value: &str, stored: &str) -> (res: HashCheck)
    ensures
        res == if hash_spec(secret@, value@) == stored@ {
            HashCheck::Match
        } else {
            HashCheck::Mismatch
        },
{
    let h = hash(secret, value);
    if str_eq(h.as_str(), stored) {
        HashCheck::Match
    } else {
        HashCheck::Mismatch
    }
}

} // verus!
