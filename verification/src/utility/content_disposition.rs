//! The `Content-Disposition` header of a download.

use crate::text::{copy_str, from_chars, pct_encode, push_char, push_chars, push_pct_encoded, push_str, to_chars};
use vstd::prelude::*;

verus! {

/// A control character (Unicode general category `Cc`).
pub open spec fn is_control(c: char) -> bool {
    (c as u32) <= 0x1f || (0x7f <= (c as u32) && (c as u32) <= 0x9f)
}

pub open spec fn kept_in_name(c: char) -> bool {
    !is_control(c) && c != '"' && c != '\\' && c != '/'
}

/// The characters of the name that are kept, at most 200 of them.
pub open spec fn safe_name(name: Seq<char>) -> Seq<char> {
    let kept = name.filter(|c: char| kept_in_name(c));
    if kept.len() <= 200 {
        kept
    } else {
        kept.take(200)
    }
}

/// `attachment; filename="<fallback>"; filename*=UTF-8''<encoded>`: the
/// fallback is the safe name (or `download.bin` when nothing is left), the
/// encoded form is its UTF-8 bytes percent-encoded.
pub open spec fn disposition_spec(display_name: Seq<char>) -> Seq<char> {
    let safe = safe_name(display_name);
    let fallback = if safe.len() == 0 {
        "download.bin"@
    } else {
        safe
    };
    "attachment; filename=\""@ + fallback + "\"; filename*=UTF-8''"@ + pct_encode(
        vstd::utf8::encode_utf8(safe),
    )
}

fn is_control_char(c: char) -> (res: bool)
    ensures
        res == is_control(c),
{
    let u = c as u32;
    u <= 0x1f || (0x7f <= u && u <= 0x9f)
}

/// Safe `Content-Disposition: attachment` value with RFC 5987 `filename*`.
pub fn attachment_disposition(display_name: &str) -> (res: String)
    ensures
        res@ == disposition_spec(display_name@),
{
    let chars = to_chars(display_name);
    let mut safe: Vec<char> = Vec::new();
    let mut i: usize = 0;
    assert(chars@.subrange(0, 0) =~= Seq::<char>::empty());
    proof {
        reveal(Seq::filter);
    }
    while i < chars.len() && safe.len() < 200
        invariant
            i <= chars@.len(),
            safe@.len() <= 200,
            safe@ == chars@.subrange(0, i as int).filter(|c: char| kept_in_name(c)),
        decreases chars@.len() - i,
    {
        let c = chars[i];
        assert(chars@.subrange(0, i + 1).drop_last() =~= chars@.subrange(0, i as int));
        proof {
            reveal(Seq::filter);
        }
        if !is_control_char(c) && c != '"' && c != '\\' && c != '/' {
            safe.push(c);
        }
        i = i + 1;
    }
    proof {
        let kept = chars@.filter(|c: char| kept_in_name(c));
        let pre = chars@.subrange(0, i as int);
        let post = chars@.subrange(i as int, chars@.len() as int);
        assert(chars@ =~= pre + post);
        Seq::filter_distributes_over_add(pre, post, |c: char| kept_in_name(c));
        if i < chars@.len() {
            assert(safe@.len() == 200);
            assert(kept.take(200) =~= safe@);
            if kept.len() <= 200 {
                assert(kept =~= safe@);
            }
        } else {
            assert(post =~= Seq::<char>::empty());
            assert(post.filter(|c: char| kept_in_name(c)) =~= Seq::<char>::empty()) by {
                reveal(Seq::filter);
            }
            assert(kept =~= safe@);
        }
        assert(safe@ == safe_name(display_name@));
    }
    let safe_str = from_chars(safe.as_slice());
    let mut out = copy_str("attachment; filename=\"");
    if safe.len() == 0 {
        push_str(&mut out, "download.bin");
    } else {
        push_chars(&mut out, safe.as_slice());
    }
    push_str(&mut out, "\"; filename*=UTF-8''");
    push_pct_encoded(&mut out, safe_str.as_str());
    out
}

} // verus!
