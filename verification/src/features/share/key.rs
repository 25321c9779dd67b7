//! Share keys: the six-character codes in share links, and the Redis keys
//! that shares are stored under.

use crate::text::{ascii_lowercase, copy_str, push_str, to_ascii_lowercase, to_chars, from_chars, is_ascii_alnum};
use rand::distr::SampleString;
use vstd::prelude::*;

verus! {

pub open spec fn redis_key_of(key: Seq<char>) -> Seq<char> {
    "share:-"@ + key
}

/// The Redis key that a share is stored under.
pub fn key_prefix(string: &String) -> (res: String)
    ensures
        res@ == redis_key_of(string@),
{
    let mut s = copy_str("share:-");
    push_str(&mut s, string.as_str());
    s
}

/// Distinct share keys are stored under distinct Redis keys.
pub proof fn law_key_prefix_injective(a: Seq<char>, b: Seq<char>)
    ensures
        redis_key_of(a) == redis_key_of(b) ==> a == b,
{
    if redis_key_of(a) == redis_key_of(b) {
        let p = "share:-"@;
        assert(a =~= redis_key_of(a).skip(p.len() as int));
        assert(b =~= redis_key_of(b).skip(p.len() as int));
    }
}

/// Calls `rand::distr::Alphanumeric.sample_string(&mut rand::rng(), len)`:
/// `len` random ASCII letters and digits. Only their number and kind are stated.
#[verifier::external_body]
fn random_alphanumeric(len: usize) -> (res: String)
    ensures
        res@.len() == len,
        forall|i: int| 0 <= i < len ==> is_ascii_alnum(#[trigger] res@[i]),
{
    rand::distr::Alphanumeric.sample_string(&mut rand::rng(), len)
}

pub open spec fn is_key_char(c: char) -> bool {
    ('0' <= c <= '9') || ('a' <= c <= 'z')
}

/// A candidate share key: six random lower-case letters and digits. Whether
/// it is still free is for the store to tell.
pub fn candidate_key() -> (res: String)
    ensures
        res@.len() == 6,
        forall|i: int| 0 <= i < 6 ==> is_key_char(#[trigger] res@[i]),
{
    let raw = random_alphanumeric(6);
    let chars = to_chars(raw.as_str());
    let lower = to_ascii_lowercase(chars.as_slice());
    assert forall|i: int| 0 <= i < 6 implies is_key_char(#[trigger] lower@[i]) by {
        assert(is_ascii_alnum(raw@[i]));
        assert(lower@[i] == crate::text::ascii_lower(raw@[i]));
    }
    from_chars(lower.as_slice())
}

} // verus!
