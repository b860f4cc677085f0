//! What a request is answered with: a status, and either a page, a plain
//! text or the location to go to.

use vstd::prelude::*;

verus! {

/// The HTTP statuses that the application answers with.
#[derive(Clone, Copy, Debug, PartialEq, Eq, Structural)]
pub enum Status {
    Success,
    Found,
    PermanentRedirect,
    BadRequest,
    NotFound,
    InternalServerError,
}

/// How the content of a reply is to be read.
#[derive(Clone, Copy, Debug, PartialEq, Eq, Structural)]
pub enum ContentKind {
    /// An HTML page.
    Html,
    /// Plain text.
    Text,
    /// The path that a redirect sends the client to.
    Location,
}

/// The numeric code of a status.
pub open spec fn code_of(s: Status) -> u16 {
    match s {
        Status::Success => 200,
        Status::Found => 302,
        Status::PermanentRedirect => 308,
        Status::BadRequest => 400,
        Status::NotFound => 404,
        Status::InternalServerError => 500,
    }
}

impl Status {
    pub fn code(self) -> (r: u16)
        ensures
            r == code_of(self),
    {
        match self {
            Status::Success => 200,
            Status::Found => 302,
            Status::PermanentRedirect => 308,
            Status::BadRequest => 400,
            Status::NotFound => 404,
            Status::InternalServerError => 500,
        }
    }
}

/// A reply to one request.
#[derive(Clone, Debug)]
pub struct Reply {
    pub status: Status,
    pub kind: ContentKind,
    pub content: String,
}

/// A reply seen as its status, its kind and its content.
pub type ReplyView = (Status, ContentKind, Seq<char>);

impl View for Reply {
    type V = ReplyView;

    open spec fn view(&self) -> ReplyView {
        (self.status, self.kind, self.content@)
    }
}

/// An HTML page with the given status.
pub open spec fn page(status: Status, html: Seq<char>) -> ReplyView {
    (status, ContentKind::Html, html)
}

/// A plain text with the given status.
pub open spec fn plain(status: Status, text: Seq<char>) -> ReplyView {
    (status, ContentKind::Text, text)
}

/// A redirect with the given status to `location`.
pub open spec fn redirect(status: Status, location: Seq<char>) -> ReplyView {
    (status, ContentKind::Location, location)
}

} // verus!
