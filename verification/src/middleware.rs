//! The auth gate: the request precondition applied to every protected
//! endpoint. It reads the `Authorization` header, requires the exact
//! `"Bearer "` scheme, hands the remainder to token verification, and
//! exposes the verified subject as the authenticated principal.
//!
//! The precondition is fail-closed: a missing header, a bad scheme, an empty
//! token and an invalid or expired token all produce the same
//! `Unauthorized` outcome, and a rejected request carries no principal, so
//! no collaborator can be reached on its behalf.

use vstd::prelude::*;
use vstd::string::StrSliceExecFns;

use crate::error::AppError;
use crate::error::client_message_of;
use crate::error::status_of;
use crate::token::TOKEN_LIFETIME_SECONDS;
use crate::token::TokenService;
use crate::token::token_claims;
use crate::token::verdict_of;

verus! {

/// The authenticated principal: the email taken from a verified token.
/// Exists only for the duration of one request.
pub struct AuthUser(pub String);

/// The header value starts with the exact scheme prefix `"Bearer "`.
pub open spec fn has_bearer_prefix(h: Seq<char>) -> bool {
    h.len() >= 7 && h.subrange(0, 7) == "Bearer "@
}

/// What remains of the header value after the `"Bearer "` prefix.
pub open spec fn bearer_token(h: Seq<char>) -> Seq<char> {
    h.subrange(7, h.len() as int)
}

/// The view of an optional header value.
pub open spec fn header_view(h: Option<&str>) -> Option<Seq<char>> {
    match h {
        Some(s) => Some(s@),
        None => None,
    }
}

/// The auth decision as a whole: the verified subject when the header is
/// present, carries the exact scheme, holds a non-empty token, and that
/// token verifies at `now`; nothing otherwise.
pub open spec fn gate_verdict(header: Option<Seq<char>>, secret: Seq<char>, now: u64) -> Option<
    Seq<char>,
> {
    match header {
        Some(h) => if has_bearer_prefix(h) && bearer_token(h).len() > 0 {
            verdict_of(token_claims(bearer_token(h), secret), now)
        } else {
            None
        },
        None => None,
    }
}

/// Strips the exact `"Bearer "` prefix from a header value, or reports that
/// the value does not carry the scheme.
pub fn strip_bearer<'a>(header: &'a str) -> (r: Option<&'a str>)
    ensures
        r matches Some(t) ==> has_bearer_prefix(header@) && t@ == bearer_token(header@),
        r is None ==> !has_bearer_prefix(header@),
{
    proof {
        reveal_strlit("Bearer ");
    }
    let prefix = "Bearer ";
    let n = header.unicode_len();
    if n < 7 {
        return None;
    }
    let mut i: usize = 0;
    while i < 7
        invariant
            i <= 7,
            n == header@.len(),
            n >= 7,
            prefix@ == "Bearer "@,
            prefix@.len() == 7,
            forall|j: int| 0 <= j < i ==> header@[j] == "Bearer "@[j],
        decreases 7 - i,
    {
        if header.get_char(i) != prefix.get_char(i) {
            proof {
                assert(header@.subrange(0, 7)[i as int] == header@[i as int]);
            }
            return None;
        }
        i += 1;
    }
    proof {
        assert(header@.subrange(0, 7) =~= "Bearer "@);
    }
    Some(header.substring_char(7, n))
}

/// The fail-closed request precondition: from the raw `Authorization`
/// header and the current time to the authenticated principal, or to the
/// single `Unauthorized` error with no hint of which check failed.
pub fn authenticate(service: &TokenService, header: Option<&str>, now: u64) -> (r: Result<
    AuthUser,
    AppError,
>)
    ensures
        r is Ok <==> gate_verdict(header_view(header), service.secret_view(), now) is Some,
        r matches Ok(u) ==> Some(u.0@) == gate_verdict(
            header_view(header),
            service.secret_view(),
            now,
        ),
        r matches Err(e) ==> e is Unauthorized,
{
    let h = match header {
        Some(h) => h,
        None => {
            return Err(AppError::Unauthorized);
        },
    };
    let token = match strip_bearer(h) {
        Some(t) => t,
        None => {
            return Err(AppError::Unauthorized);
        },
    };
    if token.is_empty() {
        return Err(AppError::Unauthorized);
    }
    match service.verify(token, now) {
        Ok(subject) => Ok(AuthUser(subject)),
        Err(e) => Err(e),
    }
}

/// What a protected request may do next: either the one rejection
/// response, fixed before any collaborator is touched, or the handler's
/// work on behalf of the authenticated principal.
pub enum RequestPlan {
    /// Reject with this status and client message; the request reaches
    /// neither the resource store nor the scoring collaborator.
    Reject(u16, String),
    /// Run the handler for this authenticated principal.
    Proceed(AuthUser),
}

/// Composes the auth precondition with the error classifier, ahead of any
/// handler work: an unauthenticated request becomes the fixed `401` rejection and never
/// yields a principal, so it can trigger no store or scoring call.
pub fn plan_protected_request(service: &TokenService, header: Option<&str>, now: u64) -> (r:
    RequestPlan)
    ensures
        r is Proceed <==> gate_verdict(header_view(header), service.secret_view(), now) is Some,
        r matches RequestPlan::Proceed(u) ==> Some(u.0@) == gate_verdict(
            header_view(header),
            service.secret_view(),
            now,
        ),
        r matches RequestPlan::Reject(status, message) ==> status == status_of(
            AppError::Unauthorized,
        )
            && message@ == client_message_of(AppError::Unauthorized),
{
    match authenticate(service, header, now) {
        Ok(user) => RequestPlan::Proceed(user),
        Err(e) => {
            let (status, message) = e.into_response();
            RequestPlan::Reject(status, message)
        },
    }
}

/// Header-format gate: a missing header, a header without the exact
/// `"Bearer "` scheme, and an empty token after the scheme are rejected
/// identically: the auth verdict carries no principal for any of them,
/// whatever the secret and the time.
pub proof fn lemma_header_format_gate(header: Option<Seq<char>>, secret: Seq<char>, now: u64)
    requires
        match header {
            Some(h) => !has_bearer_prefix(h) || bearer_token(h).len() == 0,
            None => true,
        },
    ensures
        gate_verdict(header, secret, now) is None,
{
}

/// Round trip through the header gate: a header carrying the exact scheme
/// and a token issued for `subject` at `issued_at` — nonempty, with the
/// claims `(subject, issued_at + lifetime)`, which is what `issue`
/// guarantees of its output — authenticates as `subject` at every time
/// strictly before the expiry: at issuance time and still one second
/// before the 24-hour lifetime has passed.
pub proof fn lemma_gate_round_trip(
    header: Seq<char>,
    token: Seq<char>,
    secret: Seq<char>,
    subject: Seq<char>,
    issued_at: u64,
    now: u64,
)
    requires
        issued_at + TOKEN_LIFETIME_SECONDS <= u64::MAX,
        token.len() > 0,
        token_claims(token, secret) == Some(
            (subject, (issued_at + TOKEN_LIFETIME_SECONDS) as u64),
        ),
        header == "Bearer "@ + token,
        now < issued_at + TOKEN_LIFETIME_SECONDS,
    ensures
        gate_verdict(Some(header), secret, now) == Some(subject),
{
    reveal_strlit("Bearer ");
    assert(header.subrange(0, 7) =~= "Bearer "@);
    assert(bearer_token(header) =~= token);
}

} // verus!
