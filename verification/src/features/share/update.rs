//! Checking the token that authorises changes to a share.

use crate::features::share::form::ShareForm;
use crate::text::str_eq;
use crate::utility::encoding::{base64_decode, base64_encode_spec, string_from_utf8};
use crate::web::response::ApiError;
use vstd::prelude::*;

verus! {

pub struct ShareUpdate;

pub open spec fn msg_bad_token() -> Seq<char> {
    "توکن نامعتبر است."@
}

/// `provided` is accepted as the token of a share whose stored token hash is
/// `stored`: it is the base64 of the UTF-8 bytes of `stored`.
pub open spec fn token_accepted(provided: Seq<char>, stored: Seq<char>) -> bool {
    base64_encode_spec(vstd::utf8::encode_utf8(stored)) == provided
}

/// `provided` is base64 of bytes that are UTF-8 text.
pub open spec fn utf8_token(provided: Seq<char>) -> bool {
    exists|b: Seq<u8>| #[trigger] base64_encode_spec(b) == provided && vstd::utf8::valid_utf8(b)
}

impl ShareUpdate {
    /// Checks a token against the stored token hash: the token must be
    /// base64 of UTF-8 text equal to the stored hash.
    pub fn verify_token(provided_token: &str, share_data: &ShareForm) -> (res: Result<(), ApiError>)
        ensures
            res is Ok <==> (share_data.token matches Some(t) && token_accepted(provided_token@, t@)),
            !utf8_token(provided_token@) ==> (res matches Err(e) && e.is(400, msg_bad_token())),
            utf8_token(provided_token@) && share_data.token is None ==> (res matches Err(e) && e.is(
                500,
                "Configuration error"@,
            )),
            utf8_token(provided_token@) && share_data.token is Some && !token_accepted(
                provided_token@,
                share_data.token->Some_0@,
            ) ==> (res matches Err(e) && e.is(401, msg_bad_token())),
    {
        let decoded = match base64_decode(provided_token) {
            Some(d) => d,
            None => {
                return Err(ApiError::new(400, "توکن نامعتبر است."));
            },
        };
        let ghost bytes = decoded@;
        let text = match string_from_utf8(decoded) {
            Some(s) => s,
            None => {
                proof {
                    assert forall|t: Seq<char>| !token_accepted(provided_token@, t) by {
                        if token_accepted(provided_token@, t) {
                            assert(bytes == vstd::utf8::encode_utf8(t));
                            vstd::utf8::encode_utf8_valid_utf8(t);
                        }
                    }
                    assert forall|b: Seq<u8>| #[trigger] base64_encode_spec(b) == provided_token@
                        implies !vstd::utf8::valid_utf8(b) by {
                        assert(bytes == b);
                    }
                }
                return Err(ApiError::new(400, "توکن نامعتبر است."));
            },
        };
        proof {
            assert(base64_encode_spec(bytes) == provided_token@);
        }
        let stored = match &share_data.token {
            Some(t) => t,
            None => {
                return Err(ApiError::new(500, "Configuration error"));
            },
        };
        proof {
            vstd::utf8::decode_utf8_encode_utf8(bytes);
            vstd::utf8::encode_utf8_decode_utf8(stored@);
        }
        if !str_eq(text.as_str(), stored.as_str()) {
            proof {
                if token_accepted(provided_token@, stored@) {
                    assert(bytes == vstd::utf8::encode_utf8(stored@));
                }
            }
            return Err(ApiError::new(401, "توکن نامعتبر است."));
        }
        Ok(())
    }
}

} // verus!
