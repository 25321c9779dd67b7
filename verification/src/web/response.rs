//! An error answered as JSON: a status code and a message.

use vstd::prelude::*;

verus! {

#[derive(Debug)]
pub struct ApiError {
    pub status: u16,
    pub message: String,
}

impl ApiError {
    pub open spec fn is(self, status: u16, message: Seq<char>) -> bool {
        self.status == status && self.message@ == message
    }

    pub fn new(status: u16, message: &str) -> (res: Self)
        ensures
            res.is(status, message@),
    {
        ApiError { status, message: crate::text::copy_str(message) }
    }
}

} // verus!
