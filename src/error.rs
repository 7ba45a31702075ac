//! The one error kind a handler can fail with, and its translation into a
//! response.

use vstd::prelude::*;

use anyhow::Error as Cause;

use crate::reply::{Reply, ReplyView, CONTENT_TYPE_TEXT, STATUS_INTERNAL_SERVER_ERROR};

verus! {

/// anyhow's error type, carried opaquely as the cause of a handler failure;
/// nothing is assumed of its contents.
#[verifier::external_type_specification]
#[verifier::external_body]
pub struct ExCause(Cause);

/// The text every error shows, whatever its cause.
pub const INTERNAL_ERROR_MESSAGE: &'static str = "an internal server error occurred";

/// A failure inside a handler. Every cause is an unexpected internal failure;
/// the cause is kept but never shown to the caller.
#[derive(Debug)]
pub enum Error {
    Anyhow(Cause),
}

/// The response that reports a failure with the given message.
pub open spec fn error_reply(message: Seq<char>) -> ReplyView {
    ReplyView {
        status: STATUS_INTERNAL_SERVER_ERROR,
        content_type: CONTENT_TYPE_TEXT@,
        body: message,
    }
}

impl Error {
    /// The error's textual message.
    pub fn message(&self) -> (r: String)
        ensures
            r@ == INTERNAL_ERROR_MESSAGE@,
    {
        match self {
            Error::Anyhow(_) => INTERNAL_ERROR_MESSAGE.to_owned(),
        }
    }

    /// Translates the error into a response: status 500, with the error's
    /// message as its body.
    pub fn into_response(self) -> (r: Reply)
        ensures
            r@ == error_reply(INTERNAL_ERROR_MESSAGE@),
    {
        let message = self.message();
        Reply::new(STATUS_INTERNAL_SERVER_ERROR, CONTENT_TYPE_TEXT, message.as_str())
    }
}

impl From<Cause> for Error {
    fn from(cause: Cause) -> (r: Error) {
        Error::Anyhow(cause)
    }
}

impl vstd::std_specs::convert::FromSpecImpl<Cause> for Error {
    open spec fn obeys_from_spec() -> bool {
        true
    }

    open spec fn from_spec(cause: Cause) -> Error {
        Error::Anyhow(cause)
    }
}

} // verus!
