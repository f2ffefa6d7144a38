//! The decision content of the todo request handlers. The handlers
//! themselves are thin compositions of the auth gate, the resource store
//! and the scoring collaborator; what they decide — the greeting of the
//! sample protected route and the write-outcome rule — is verified here.

use vstd::prelude::*;
use vstd::string::StringExecFns;

use crate::error::AppError;
use crate::middleware::AuthUser;

verus! {

/// Input for creating a todo record.
pub struct NewTodo {
    /// The title to store; scoring is derived from it by the collaborator.
    pub title: String,
}

/// Input for updating a todo record.
pub struct UpdateTodo {
    /// The new title.
    pub title: String,
    /// The new completion state.
    pub done: bool,
}

/// The body of the sample protected route: a greeting addressed to the
/// authenticated principal.
pub fn greeting(user: &AuthUser) -> (r: String)
    ensures
        r@ == "Welcome, "@ + user.0@ + "! You have access to this protected route."@,
{
    let mut message = String::from_str("Welcome, ");
    message.append(user.0.as_str());
    message.append("! You have access to this protected route.");
    message
}

/// The write-outcome rule shared by update and delete: a store statement
/// that touched no row addressed a missing resource.
pub fn rows_to_outcome(rows_affected: u64) -> (r: Result<(), AppError>)
    ensures
        r is Ok <==> rows_affected > 0,
        r matches Err(e) ==> e is NotFound,
{
    if rows_affected > 0 {
        Ok(())
    } else {
        Err(AppError::NotFound)
    }
}

} // verus!
