//! The status code and message that a handler answers with.

use vstd::prelude::*;
use crate::text::string_from;

verus! {

/// An answer to an HTTP request: its status code and the message of the
/// JSON body.
#[derive(Debug)]
pub struct ApiResponse {
    pub code: u16,
    pub message: String,
}

/// `r` answers with `code` and the message `msg`.
pub open spec fn answers(r: ApiResponse, code: u16, msg: Seq<char>) -> bool {
    r.code == code && r.message@ == msg
}

/// `r` is a refusal that answers with `code` and the message `msg`.
pub open spec fn fails_with<T>(r: Result<T, ApiResponse>, code: u16, msg: Seq<char>) -> bool {
    match r {
        Ok(_) => false,
        Err(e) => answers(e, code, msg),
    }
}

/// An answer with the given code and message.
pub fn reply(code: u16, msg: &str) -> (r: ApiResponse)
    ensures
        answers(r, code, msg@),
{
    ApiResponse { code, message: string_from(msg) }
}

/// A `401` answer with the message `Unauthorized!`.
pub fn unauthorized() -> (r: ApiResponse)
    ensures
        answers(r, 401, "Unauthorized!"@),
{
    reply(401, "Unauthorized!")
}

/// A `400` answer with the given message.
pub fn bad_request(msg: &str) -> (r: ApiResponse)
    ensures
        answers(r, 400, msg@),
{
    reply(400, msg)
}

} // verus!
