//! Failure taxonomy and the one place where internal failures are mapped to
//! an HTTP status code and a client-safe message.
//!
//! Internal causes (database driver text, upstream stack traces) are carried
//! inside the variants for server-side logging only; the classifier never
//! copies a cause into the client message.

use vstd::prelude::*;
use vstd::string::StringExecFns;

verus! {

/// A tagged failure value, created at the point of failure and converted to
/// a response exactly once.
pub enum AppError {
    /// Missing, malformed, expired or otherwise invalid credentials or token.
    Unauthorized,
    /// The addressed resource does not exist.
    NotFound,
    /// The caller's input was rejected; the message is caller-facing.
    BadRequest(String),
    /// The resource store failed; the cause stays server-side.
    StoreFailure(String),
    /// The upstream scoring collaborator failed; the cause stays server-side.
    UpstreamFailure(String),
}

/// The HTTP status code that the classifier assigns to each failure kind.
pub open spec fn status_of(e: AppError) -> u16 {
    match e {
        AppError::Unauthorized => 401,
        AppError::NotFound => 404,
        AppError::BadRequest(_) => 400,
        AppError::StoreFailure(_) => 500,
        AppError::UpstreamFailure(_) => 502,
    }
}

/// The client-visible message that the classifier assigns to each failure
/// kind. Only `BadRequest` echoes caller-supplied text; every other variant
/// maps to a fixed message that does not depend on the recorded cause.
pub open spec fn client_message_of(e: AppError) -> Seq<char> {
    match e {
        AppError::Unauthorized => "Missing or invalid authorization token."@,
        AppError::NotFound => "Resource not found"@,
        AppError::BadRequest(msg) => msg@,
        AppError::StoreFailure(_) => "A database error occurred."@,
        AppError::UpstreamFailure(_) => "External service failed."@,
    }
}

impl AppError {
    /// The total mapping from a failure to its `(status, client message)`
    /// pair; handlers must not construct status codes anywhere else.
    pub fn into_response(self) -> (r: (u16, String))
        ensures
            r.0 == status_of(self),
            r.1@ == client_message_of(self),
    {
        match self {
            AppError::Unauthorized => (
                401,
                String::from_str("Missing or invalid authorization token."),
            ),
            AppError::NotFound => (404, String::from_str("Resource not found")),
            AppError::BadRequest(msg) => (400, msg),
            AppError::StoreFailure(_) => (500, String::from_str("A database error occurred.")),
            AppError::UpstreamFailure(_) => (502, String::from_str("External service failed.")),
        }
    }
}

/// Error opacity: the client message (and status) of a store or upstream
/// failure does not depend on the recorded cause, so no fragment of an
/// internal error can cross the response boundary through the classifier.
pub proof fn lemma_error_opacity(e1: AppError, e2: AppError)
    requires
        (e1 is StoreFailure && e2 is StoreFailure) || (e1 is UpstreamFailure
            && e2 is UpstreamFailure),
    ensures
        client_message_of(e1) == client_message_of(e2),
        status_of(e1) == status_of(e2),
{
}

} // verus!
