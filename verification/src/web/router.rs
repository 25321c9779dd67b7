//! Routing decisions: how route prefixes are normalized, which asset paths
//! are served, which security headers every response carries, how large an
//! upload request may be, and whether the HMAC key is acceptable.

use crate::features::storage::config::{saturating_mul, FileUploadConfig};
use crate::text::{
    contains_char, contains_chars, contains_seq, copy_str, from_chars, parse_u64, parse_u64_spec,
    push_chars, str_contains, to_chars, trim, trim_by, trim_chars, trim_start_by, trim_start_chars,
    CharClass,
};
use vstd::prelude::*;

verus! {

pub struct Router;

/// A route prefix: `/` for an empty or root prefix, otherwise `/` and the
/// trimmed prefix without surrounding slashes.
pub open spec fn normalized_prefix(raw: Seq<char>) -> Seq<char> {
    let s = trim(raw);
    if s.len() == 0 || s == seq!['/'] {
        seq!['/']
    } else {
        seq!['/'] + trim_by(s, CharClass::Exactly('/'))
    }
}

/// Routes under a root prefix are merged; others are nested.
pub open spec fn mounted_at_root(prefix: Seq<char>) -> bool {
    prefix.len() == 0 || prefix == seq!['/']
}

/// The asset a request path names, without leading slashes; paths with `..`
/// or a backslash name none.
pub open spec fn asset_path_spec(path: Seq<char>) -> Option<Seq<char>> {
    let p = trim_start_by(path, CharClass::Exactly('/'));
    if contains_seq(p, seq!['.', '.']) || p.contains('\\') {
        None
    } else {
        Some(p)
    }
}

impl Router {
    pub fn normalize_prefix(raw: &str) -> (res: String)
        ensures
            res@ == normalized_prefix(raw@),
    {
        proof {
            reveal_strlit("/");
        }
        let s = trim_chars(to_chars(raw).as_slice(), CharClass::Whitespace);
        if s.len() == 0 || (s.len() == 1 && s[0] == '/') {
            assert(s@.len() == 1 ==> s@ =~= seq!['/']);
            return copy_str("/");
        }
        assert(s@ != seq!['/']);
        let inner = trim_chars(s.as_slice(), CharClass::Exactly('/'));
        let mut out = copy_str("/");
        push_chars(&mut out, inner.as_slice());
        out
    }

    pub fn mounted_at_root(prefix: &str) -> (res: bool)
        ensures
            res == mounted_at_root(prefix@),
    {
        let p = to_chars(prefix);
        let r = p.len() == 0 || (p.len() == 1 && p[0] == '/');
        assert(p@.len() == 1 && p@[0] == '/' ==> p@ =~= seq!['/']);
        r
    }

    /// The asset that a request path names, if it may be served.
    pub fn asset_path(path: &str) -> (res: Option<String>)
        ensures
            match asset_path_spec(path@) {
                Some(p) => res matches Some(r) && r@ == p,
                None => res is None,
            },
    {
        let p = trim_start_chars(to_chars(path).as_slice(), CharClass::Exactly('/'));
        let dots = ['.', '.'];
        assert(dots@ =~= seq!['.', '.']);
        if contains_chars(p.as_slice(), dots.as_slice()) || contains_char(p.as_slice(), '\\') {
            return None;
        }
        Some(from_chars(p.as_slice()))
    }

    /// The security headers of every response; HSTS only over HTTPS.
    pub fn security_headers(https: bool) -> (res: Vec<(String, String)>)
        ensures
            res@.len() == if https {
                5int
            } else {
                4int
            },
            res@[0].0@ == "x-content-type-options"@ && res@[0].1@ == "nosniff"@,
            res@[1].0@ == "x-frame-options"@ && res@[1].1@ == "DENY"@,
            res@[2].0@ == "referrer-policy"@ && res@[2].1@ == "no-referrer"@,
            res@[3].0@ == "permissions-policy"@ && res@[3].1@
                == "geolocation=(), microphone=(), camera=()"@,
            https ==> res@[4].0@ == "strict-transport-security"@ && res@[4].1@
                == "max-age=63072000; includeSubDomains"@,
    {
        let mut h: Vec<(String, String)> = Vec::new();
        h.push((copy_str("x-content-type-options"), copy_str("nosniff")));
        h.push((copy_str("x-frame-options"), copy_str("DENY")));
        h.push((copy_str("referrer-policy"), copy_str("no-referrer")));
        h.push(
            (copy_str("permissions-policy"), copy_str("geolocation=(), microphone=(), camera=()")),
        );
        if https {
            h.push(
                (
                    copy_str("strict-transport-security"),
                    copy_str("max-age=63072000; includeSubDomains"),
                ),
            );
        }
        h
    }
}

/// The HMAC key must be at least 32 bytes and not the placeholder of the example file.
pub fn hmac_key_acceptable(hmac: &str) -> (res: bool)
    ensures
        res == (vstd::utf8::encode_utf8(hmac@).len() >= 32 && !contains_seq(hmac@, "{random-string}"@)),
{
    let n = crate::utility::encoding::str_bytes(hmac).len();
    n >= 32 && !str_contains(hmac, "{random-string}")
}

/// The largest create request: the file limit plus 512 KiB for the other fields.
pub fn upload_body_limit_bytes(config: &FileUploadConfig) -> (res: usize)
    ensures
        res == if saturating_mul(config.max_size_mb, 1048576) + 524288 > usize::MAX {
            usize::MAX as int
        } else {
            saturating_mul(config.max_size_mb, 1048576) + 524288
        },
{
    let file_bytes = config.max_size_bytes();
    if file_bytes as u128 > usize::MAX as u128 {
        return usize::MAX;
    }
    let f = file_bytes as usize;
    match f.checked_add(512 * 1024) {
        Some(v) => v,
        None => usize::MAX,
    }
}

/// Seconds an upload request may take: `FILE_UPLOAD_TIMEOUT_SECS` when it is
/// a positive number, otherwise 300.
pub fn upload_timeout_secs(value: Option<&str>) -> (res: u64)
    ensures
        res == match value {
            Some(v) => match parse_u64_spec(v@) {
                Some(n) => if n > 0 {
                    n
                } else {
                    300
                },
                None => 300,
            },
            None => 300,
        },
{
    match value {
        Some(v) => match parse_u64(v) {
            Some(n) => if n > 0 {
                n
            } else {
                300
            },
            None => 300,
        },
        None => 300,
    }
}

} // verus!
