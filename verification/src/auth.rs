//! Login: the exchange of the one configured credential pair for a signed
//! bearer token.
//!
//! Credential storage against a real user store is a collaborator concern;
//! this service checks the single configured pair by exact match and hands
//! the subject to the token service.

use vstd::prelude::*;
use vstd::string::StringExecFns;

use crate::token::TOKEN_LIFETIME_SECONDS;
use crate::token::TokenService;
use crate::token::issued_token;
use crate::token::token_claims;

verus! {

/// The body of a login request.
pub struct LoginPayload {
    /// The claimed identity.
    pub email: String,
    /// The password to check against the configured pair.
    pub password: String,
}

/// The single configured credential pair, loaded at startup.
pub struct CredentialPair {
    /// The email of the one principal the system knows.
    pub email: String,
    /// Its password.
    pub password: String,
}

/// The payload matches the configured pair exactly, in both fields.
pub open spec fn credentials_match(config: CredentialPair, payload: LoginPayload) -> bool {
    payload.email@ == config.email@ && payload.password@ == config.password@
}

/// What a login attempt ends in. Once the pair has matched, nothing else
/// can fail: token issuance is total.
pub enum LoginOutcome {
    /// The credentials matched and this signed token was issued.
    Granted(String),
    /// The credentials did not match; no token exists.
    InvalidCredentials,
}

/// The HTTP status owed to each login outcome.
pub open spec fn login_status_of(outcome: LoginOutcome) -> u16 {
    match outcome {
        LoginOutcome::Granted(_) => 200,
        LoginOutcome::InvalidCredentials => 401,
    }
}

impl LoginOutcome {
    /// The HTTP status of this outcome.
    pub fn status(&self) -> (s: u16)
        ensures
            s == login_status_of(*self),
    {
        match self {
            LoginOutcome::Granted(_) => 200,
            LoginOutcome::InvalidCredentials => 401,
        }
    }

    /// The client-facing error text of a rejected login; a granted login
    /// has none.
    pub fn error_message(&self) -> (r: Option<String>)
        ensures
            self is Granted <==> r is None,
            self is InvalidCredentials ==> (r matches Some(m) && m@ == "Invalid credentials"@),
    {
        match self {
            LoginOutcome::Granted(_) => None,
            LoginOutcome::InvalidCredentials => Some(String::from_str("Invalid credentials")),
        }
    }
}

/// Checks the payload against the configured pair. An exact match is owed
/// a token for the email at time `now`; any other pair is rejected with no
/// token. The arithmetic bound is needed only where a token is issued, so
/// a rejection is owed on mismatching input at any time.
pub fn login(
    config: &CredentialPair,
    service: &TokenService,
    payload: &LoginPayload,
    now: u64,
) -> (r: LoginOutcome)
    requires
        credentials_match(*config, *payload) ==> now + TOKEN_LIFETIME_SECONDS <= u64::MAX,
    ensures
        r is Granted <==> credentials_match(*config, *payload),
        r is InvalidCredentials <==> !credentials_match(*config, *payload),
        r matches LoginOutcome::Granted(t) ==> t@ == issued_token(
            service.secret_view(),
            payload.email@,
            now,
        ) && token_claims(t@, service.secret_view()) == Some(
            (payload.email@, (now + TOKEN_LIFETIME_SECONDS) as u64),
        ) && t@.len() > 0,
{
    if payload.email == config.email && payload.password == config.password {
        LoginOutcome::Granted(service.issue(&payload.email, now))
    } else {
        LoginOutcome::InvalidCredentials
    }
}

} // verus!
