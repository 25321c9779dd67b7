//! Deleting a share with its deletion token.

use crate::features::share::create::issued_token;
use crate::features::share::form::{DeleteRequest, ShareForm};
use crate::features::share::retrieve::ShareError;
use crate::features::share::update::{token_accepted, ShareUpdate};
use crate::text::{parse_u16, parse_u16_spec};
use crate::web::response::ApiError;
use vstd::prelude::*;

verus! {

pub struct ShareDelete;

/// What a delete request leads to once the share has been looked up.
#[derive(Debug)]
pub enum DeleteDecision {
    /// Answer with this error; nothing is deleted.
    Refuse(ApiError),
    /// Delete the stored file if any, then the share itself.
    Proceed { stored_file: Option<String> },
}

impl ShareDelete {
    /// The checks of a delete request, in order: key and token present, the
    /// share found (its error answered with the code and title of the
    /// lookup), the token accepted. Only then is anything deleted.
    pub fn authorize(request: &DeleteRequest, lookup: Result<ShareForm, ShareError>) -> (res: DeleteDecision)
        requires
            lookup matches Err(e) ==> parse_u16_spec(e.code@) is Some,
        ensures
            !(request.key@.len() >= 1 && request.token@.len() >= 1) ==> (res matches DeleteDecision::Refuse(e)
                && e.is(400, "key and token must not be empty"@)),
            request.key@.len() >= 1 && request.token@.len() >= 1 ==> match lookup {
                Err(l) => res matches DeleteDecision::Refuse(e) && e.is(
                    parse_u16_spec(l.code@)->Some_0,
                    l.title@,
                ),
                Ok(share) => match share.token {
                    Some(t) => if token_accepted(request.token@, t@) {
                        res matches DeleteDecision::Proceed { stored_file } && match share.file_stored_name {
                            Some(f) => stored_file matches Some(g) && g@ == f@,
                            None => stored_file is None,
                        }
                    } else {
                        res is Refuse
                    },
                    None => res is Refuse,
                },
            },
            res is Proceed ==> (lookup matches Ok(share) && share.token matches Some(t) && token_accepted(
                request.token@,
                t@,
            )),
    {
        if !request.is_valid() {
            return DeleteDecision::Refuse(ApiError::new(400, "key and token must not be empty"));
        }
        let share = match lookup {
            Ok(s) => s,
            Err(e) => {
                let status = match parse_u16(e.code.as_str()) {
                    Some(s) => s,
                    None => 500,
                };
                return DeleteDecision::Refuse(ApiError { status, message: e.title });
            },
        };
        match ShareUpdate::verify_token(request.token.as_str(), &share) {
            Ok(()) => DeleteDecision::Proceed { stored_file: share.file_stored_name },
            Err(e) => DeleteDecision::Refuse(e),
        }
    }

    /// The answer when the share to delete could not be read: its status and title.
    pub fn lookup_failure(err: &ShareError) -> (res: (String, String))
        ensures
            res.0@ == err.code@,
            res.1@ == err.title@,
    {
        (err.code.clone(), err.title.clone())
    }

    /// The outcome of deleting the stored share, given how many keys Redis removed.
    pub fn delete_result(deleted: u32) -> (res: Result<(), ApiError>)
        ensures
            deleted == 0 <==> res is Err,
            res matches Err(e) ==> e.is(404, "اشتراک گذاری یافت نشد."@),
    {
        if deleted == 0 {
            return Err(ApiError::new(404, "اشتراک گذاری یافت نشد."));
        }
        Ok(())
    }
}

/// The token handed to the creator of a share deletes it, and no other
/// does: `ShareUpdate::verify_token` accepts exactly the token that
/// `build_response` issues for the stored record.
pub proof fn law_issued_token_accepted(data: ShareForm, provided: Seq<char>)
    requires
        data.token is Some,
    ensures
        token_accepted(issued_token(data), data.token->Some_0@),
        token_accepted(provided, data.token->Some_0@) <==> provided == issued_token(data),
{
}

} // verus!
