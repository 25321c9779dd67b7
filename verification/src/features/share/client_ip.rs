//! Which address a request comes from: the TCP peer, or, when the peer is a
//! trusted proxy, the address the proxy forwarded. Header values are cut
//! here; turning the candidates into addresses is left to the caller, which
//! passes the parsed address (or `None`) back in.

use crate::text::{from_chars, split_chars, to_chars, trim, trim_chars, trim_str, split_on, CharClass};
use vstd::prelude::*;

verus! {

/// The candidate address in an `X-Forwarded-For` value: its first
/// comma-separated entry, trimmed.
pub open spec fn forwarded_for_candidate(value: Seq<char>) -> Seq<char> {
    trim(split_on(value, ',')[0])
}

pub fn forwarded_for_candidate_of(value: &str) -> (res: String)
    ensures
        res@ == forwarded_for_candidate(value@),
{
    let pieces = split_chars(to_chars(value).as_slice(), ',');
    proof {
        crate::text::lemma_split_nonempty(value@, ',');
    }
    let first = trim_chars(pieces[0].as_slice(), CharClass::Whitespace);
    from_chars(first.as_slice())
}

/// The candidate address in an `X-Real-IP` value: the value, trimmed.
pub fn real_ip_candidate_of(value: &str) -> (res: String)
    ensures
        res@ == trim(value@),
{
    let v = trim_str(value);
    from_chars(v.as_slice())
}

/// The address the forwarding headers name: the `X-Forwarded-For` candidate
/// when it is an address, else the `X-Real-IP` one when it is.
pub fn ip_from_forwarded_headers<A: Copy>(forwarded_for: Option<A>, real_ip: Option<A>) -> (res: Option<A>)
    ensures
        res == match forwarded_for {
            Some(a) => Some(a),
            None => real_ip,
        },
{
    match forwarded_for {
        Some(a) => Some(a),
        None => real_ip,
    }
}

/// The client's address: the forwarded one when the peer is a trusted proxy
/// and the headers name an address, else the peer.
pub fn get_client_ip<A: Copy>(peer: A, peer_trusted: bool, forwarded_for: Option<A>, real_ip: Option<A>) -> (res: A)
    ensures
        res == if peer_trusted {
            match forwarded_for {
                Some(a) => a,
                None => match real_ip {
                    Some(b) => b,
                    None => peer,
                },
            }
        } else {
            peer
        },
{
    if peer_trusted {
        if let Some(ip) = ip_from_forwarded_headers(forwarded_for, real_ip) {
            return ip;
        }
    }
    peer
}

} // verus!
