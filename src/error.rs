//! The error that ends a request when the database fails it.

use vstd::prelude::*;

use crate::reply::{plain, ContentKind, Reply, Status};

verus! {

/// A request that failed for a reason other than the visitor's input; the
/// message says what went wrong, for the server's log only.
#[derive(Clone, Debug)]
pub struct AppError {
    pub message: String,
}

/// The body of the answer to a failed request: the same for every failure,
/// so that nothing of the cause reaches the visitor.
pub open spec fn internal_error_text() -> Seq<char> {
    "<h1>Whoops!</h1> <p>Something went wrong</p>"@
}

impl AppError {
    pub fn new(message: String) -> (r: AppError)
        ensures
            r.message@ == message@,
    {
        AppError { message }
    }

    /// The answer to the failed request: 500, with a generic text that does
    /// not depend on the message.
    pub fn into_response(self) -> (r: Reply)
        ensures
            r@ == plain(Status::InternalServerError, internal_error_text()),
    {
        Reply {
            status: Status::InternalServerError,
            kind: ContentKind::Text,
            content: String::from_str("<h1>Whoops!</h1> <p>Something went wrong</p>"),
        }
    }
}

} // verus!
