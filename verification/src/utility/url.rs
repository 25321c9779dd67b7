//! Absolute URLs of the site and query strings.

use crate::text::{
    contains_char, copy_str, is_pct_char, pct_decode, pct_encode, push_char, push_chars, push_pct_encoded, push_str,
    to_chars, trim_start_by, trim_start_chars, CharClass,
};
use vstd::prelude::*;

verus! {

/// Where the site is served: its public domain and whether over HTTPS.
pub struct SiteConfig {
    pub final_domain: String,
    pub https: bool,
}

/// `scheme://domain/path`, the path without its leading slashes.
pub open spec fn url_spec(site: SiteConfig, path: Seq<char>) -> Seq<char> {
    (if site.https {
        "https"@
    } else {
        "http"@
    }) + "://"@ + site.final_domain@ + seq!['/'] + trim_start_by(path, CharClass::Exactly('/'))
}

/// The absolute URL of a path of the site.
pub fn url(site: &SiteConfig, path: &str) -> (res: String)
    ensures
        res@ == url_spec(*site, path@),
{
    let mut out = if site.https {
        copy_str("https")
    } else {
        copy_str("http")
    };
    push_str(&mut out, "://");
    push_str(&mut out, site.final_domain.as_str());
    push_char(&mut out, '/');
    let clean = trim_start_chars(to_chars(path).as_slice(), CharClass::Exactly('/'));
    push_chars(&mut out, clean.as_slice());
    out
}

/// `target_url` with `password=` and the percent-encoded password appended,
/// after `&` when the URL already has a query and `?` otherwise.
pub open spec fn with_password_query(target_url: Seq<char>, password: Seq<char>) -> Seq<char> {
    target_url + seq![if target_url.contains('?') { '&' } else { '?' }] + "password="@
        + pct_encode(vstd::utf8::encode_utf8(password))
}

/// Appends `?password=` or `&password=` with percent-encoded value.
pub fn append_password_query(target_url: &str, password: &str) -> (res: String)
    ensures
        res@ == with_password_query(target_url@, password@),
{
    let t = to_chars(target_url);
    let separator = if contains_char(t.as_slice(), '?') {
        '&'
    } else {
        '?'
    };
    let mut out = copy_str(target_url);
    push_char(&mut out, separator);
    push_str(&mut out, "password=");
    push_pct_encoded(&mut out, password);
    out
}

/// The password query decodes back: what follows `password=` holds only
/// unreserved characters, `%` and upper-case hex digits, and
/// percent-decoding it gives exactly the password's UTF-8 bytes.
pub proof fn law_password_query_decodes(target_url: Seq<char>, password: Seq<char>)
    ensures
        ({
            let r = with_password_query(target_url, password);
            let sep = if target_url.contains('?') {
                '&'
            } else {
                '?'
            };
            let n = target_url.len() + 10int;
            &&& r.take(n) == target_url + seq![sep] + "password="@
            &&& pct_decode(r.skip(n)) == vstd::utf8::encode_utf8(password)
            &&& forall|i: int| 0 <= i < r.skip(n).len() ==> is_pct_char(#[trigger] r.skip(n)[i])
        }),
{
    reveal_strlit("password=");
    let r = with_password_query(target_url, password);
    let sep = if target_url.contains('?') {
        '&'
    } else {
        '?'
    };
    let head = target_url + seq![sep] + "password="@;
    let e = pct_encode(vstd::utf8::encode_utf8(password));
    assert(r == head + e);
    assert(head.len() == target_url.len() + 10);
    assert(r.take(head.len() as int) =~= head);
    assert(r.skip(head.len() as int) =~= e);
    crate::text::law_pct_decode_inverts(vstd::utf8::encode_utf8(password));
}

} // verus!
