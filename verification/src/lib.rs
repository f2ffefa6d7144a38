//! Core of a small authenticated todo backend: bearer-token issuance and
//! verification, the request precondition that turns an `Authorization`
//! header into an authenticated principal, and the single classifier that
//! maps internal failures to HTTP status codes and client-safe messages.

pub mod auth;
pub mod error;
pub mod middleware;
pub mod routes;
pub mod token;

pub use auth::LoginPayload;
pub use error::AppError;
pub use middleware::AuthUser;
pub use routes::NewTodo;
pub use routes::UpdateTodo;
pub use token::Claims;
pub use token::TokenService;
