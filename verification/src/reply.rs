//! What is said to a caller whose request failed.

use vstd::prelude::*;

verus! {

/// The status of a request that cannot be read.
pub const BAD_REQUEST: u16 = 400;

/// The status of a failure that is not the caller's.
pub const INTERNAL_SERVER_ERROR: u16 = 500;

/// What stands before the reason why a query string was refused.
pub const QUERY_REFUSED: &'static str = "Failed to deserialize query string: ";

/// What stands before the reason why the init file was not rendered.
pub const RENDER_FAILED: &'static str = "Failed to render template. Error: ";

/// A reply to a failed request: a status and a text.
#[derive(Debug)]
pub struct Reply {
    pub status: u16,
    pub body: String,
}

/// A query string that was refused, with the reason in words.
#[derive(Debug)]
pub struct QueryRejection(pub String);

impl QueryRejection {
    /// The reply for the refused query string: a bad request, with the reason.
    pub fn into_reply(self) -> (reply: Reply)
        ensures
            reply.status == BAD_REQUEST,
            reply.body@ == QUERY_REFUSED@ + self.0@,
    {
        let mut body = String::from_str(QUERY_REFUSED);
        body.append(self.0.as_str());
        Reply { status: BAD_REQUEST, body }
    }
}

/// The reply where the init file was not rendered, for `reason`: a failure of
/// the server, with the reason.
pub fn render_failure(reason: &str) -> (reply: Reply)
    ensures
        reply.status == INTERNAL_SERVER_ERROR,
        reply.body@ == RENDER_FAILED@ + reason@,
{
    let mut body = String::from_str(RENDER_FAILED);
    body.append(reason);
    Reply { status: INTERNAL_SERVER_ERROR, body }
}

} // verus!
