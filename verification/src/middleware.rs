//! Failure replies: the status a failure is answered with and the envelope
//! that carries its message.

use crate::models::ErrorResponse;
use vstd::prelude::*;

verus! {

/// A failure reply that is ready to be sent.
#[derive(Debug)]
pub struct ErrorReply {
    pub status: u16,
    pub body: ErrorResponse,
}

impl ErrorReply {
    /// Whether this is the reply with the given status and message.
    pub open spec fn carries(self, status: u16, message: Seq<char>) -> bool {
        &&& self.status == status
        &&& !self.body.success
        &&& self.body.message@ == message
    }
}

/// The failure reply with the given status and message.
pub fn create_error_response(status: u16, message: String) -> (reply: ErrorReply)
    ensures
        reply.carries(status, message@),
{
    ErrorReply { status, body: ErrorResponse::new(message) }
}

/// The reply to a request that the relay could not carry out.
pub fn internal_server_error(message: String) -> (reply: ErrorReply)
    ensures
        reply.carries(500, message@),
{
    create_error_response(500, message)
}

/// The reply to a request that is at fault.
pub fn bad_request(message: String) -> (reply: ErrorReply)
    ensures
        reply.carries(400, message@),
{
    create_error_response(400, message)
}

/// The reply to a request for something that does not exist.
pub fn not_found(message: String) -> (reply: ErrorReply)
    ensures
        reply.carries(404, message@),
{
    create_error_response(404, message)
}

/// The reply to a request that lacks authorization.
pub fn unauthorized(message: String) -> (reply: ErrorReply)
    ensures
        reply.carries(401, message@),
{
    create_error_response(401, message)
}

} // verus!
