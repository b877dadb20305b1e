//! A response body together with its HTTP status.

use vstd::prelude::*;

verus! {

/// 200 OK.
pub const STATUS_OK: u16 = 200;

/// 201 Created.
pub const STATUS_CREATED: u16 = 201;

/// 202 Accepted.
pub const STATUS_ACCEPTED: u16 = 202;

/// 400 Bad Request.
pub const STATUS_BAD_REQUEST: u16 = 400;

/// 500 Internal Server Error.
pub const STATUS_INTERNAL_SERVER_ERROR: u16 = 500;

/// A body to be sent with the given status.
#[derive(Debug, PartialEq, Eq)]
pub struct Reply<T> {
    pub status: u16,
    pub body: T,
}

/// A message that explains a failure.
#[derive(Debug, PartialEq, Eq)]
pub struct ErrorResponse {
    pub message: String,
}

impl ErrorResponse {
    /// An error response that says `message`.
    pub fn new(message: String) -> (response: Self)
        ensures
            response.message == message,
    {
        ErrorResponse { message }
    }
}

/// The status text of every successful response.
pub open spec fn success_text() -> Seq<char> {
    "Success"@
}

/// The message of a request that is turned down for its upload.
pub open spec fn bad_request_text() -> Seq<char> {
    "Bad Request"@
}

/// The status text of a successful response.
pub fn success() -> (status: String)
    ensures
        status@ == success_text(),
{
    "Success".to_owned()
}

/// The reply to a request whose upload is not acceptable.
pub fn bad_request() -> (reply: Reply<ErrorResponse>)
    ensures
        reply.status == STATUS_BAD_REQUEST,
        reply.body.message@ == bad_request_text(),
{
    Reply { status: STATUS_BAD_REQUEST, body: ErrorResponse::new("Bad Request".to_owned()) }
}

/// Decides whether the notice of a change goes out: it does when the
/// write to storage was committed, and not otherwise, so that clients are
/// told only of changes that were made.
pub fn notice_after_write(committed: bool, notice: String) -> (out: Option<String>)
    ensures
        out == if committed {
            Some(notice)
        } else {
            None
        },
{
    if committed {
        Some(notice)
    } else {
        None
    }
}

} // verus!
