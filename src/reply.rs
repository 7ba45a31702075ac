//! The responses this service sends, as plain values: a status code, a
//! content type and a body.

use vstd::prelude::*;

verus! {

/// The status sent with a successful reply.
pub const STATUS_OK: u16 = 200;

/// The status sent when a handler fails.
pub const STATUS_INTERNAL_SERVER_ERROR: u16 = 500;

/// The content type of an HTML page.
pub const CONTENT_TYPE_HTML: &'static str = "text/html; charset=utf-8";

/// The content type of a plain-text body.
pub const CONTENT_TYPE_TEXT: &'static str = "text/plain; charset=utf-8";

/// A complete HTTP response, ready to be written to the wire.
#[derive(Clone, Debug)]
pub struct Reply {
    pub status: u16,
    pub content_type: String,
    pub body: String,
}

/// What a reply is made of, as mathematical values.
pub ghost struct ReplyView {
    pub status: u16,
    pub content_type: Seq<char>,
    pub body: Seq<char>,
}

impl View for Reply {
    type V = ReplyView;

    open spec fn view(&self) -> ReplyView {
        ReplyView { status: self.status, content_type: self.content_type@, body: self.body@ }
    }
}

impl Reply {
    /// A reply with the given status, content type and body.
    pub fn new(status: u16, content_type: &str, body: &str) -> (r: Reply)
        ensures
            r@ == (ReplyView { status: status, content_type: content_type@, body: body@ }),
    {
        Reply { status, content_type: content_type.to_owned(), body: body.to_owned() }
    }
}

} // verus!
