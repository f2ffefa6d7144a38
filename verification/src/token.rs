//! The stateless token service: issuance and verification of signed bearer
//! tokens that carry a subject and an expiry.
//!
//! The cryptographic work (HS256 signing and signature checking of the
//! compact token format) is done by the `jsonwebtoken` crate behind two
//! trusted wrappers; everything around it — expiry arithmetic, the
//! verification verdict, and the error mapping — is verified.

use vstd::prelude::*;

use crate::error::AppError;

verus! {

/// How long an issued token stays valid, in seconds (24 hours).
pub const TOKEN_LIFETIME_SECONDS: u64 = 86400;

/// The structured data encoded inside a signed token.
pub struct Claims {
    /// Subject: the authenticated identity (here, an email address).
    pub sub: String,
    /// Expiry as a unix timestamp in seconds.
    pub exp: u64,
}

/// Named result of `jsonwebtoken::encode`: the HS256-signed compact token
/// for the claims `{sub, exp}` under `secret`. It depends on the arguments
/// alone.
pub uninterp spec fn signed_token(sub: Seq<char>, exp: u64, secret: Seq<char>) -> Seq<char>;

/// Named result of `jsonwebtoken::decode` with time validation turned off:
/// the `(sub, exp)` claims recovered from a compact token whose HS256
/// signature matches `secret`, or `None` when the token is malformed, the
/// signature does not match, the header names an algorithm other than
/// HS256, the claims carry an `aud` claim, or the claims lack a string
/// `sub` or an integer `exp`. It depends on the arguments alone.
pub uninterp spec fn token_claims(token: Seq<char>, secret: Seq<char>) -> Option<(Seq<char>, u64)>;

/// Relies on `jsonwebtoken::encode` with `Header::default()` (HS256) and
/// `EncodingKey::from_secret`: the result is the signed compact token for
/// exactly these claims — nonempty, since it is three dot-joined segments —
/// and `jsonwebtoken::decode` under the same secret recovers them. For this
/// configuration `encode` has no failure path: the key family always
/// matches HS256, the HMAC key may have any length, HMAC signing is
/// infallible, and serializing a JSON object cannot fail.
#[verifier::external_body]
fn encode_token(sub: &String, exp: u64, secret: &String) -> (r: String)
    ensures
        r@ == signed_token(sub@, exp, secret@),
        token_claims(r@, secret@) == Some((sub@, exp)),
        r@.len() > 0,
{
    let mut claims = serde_json::Map::new();
    claims.insert("sub".to_string(), serde_json::Value::String(sub.clone()));
    claims.insert("exp".to_string(), serde_json::Value::from(exp));
    jsonwebtoken::encode(
        &jsonwebtoken::Header::default(),
        &serde_json::Value::Object(claims),
        &jsonwebtoken::EncodingKey::from_secret(secret.as_bytes()),
    )
        .expect("HS256 signing of a JSON object cannot fail")
}

/// Relies on `jsonwebtoken::decode` with `Validation::new(Algorithm::HS256)`,
/// `validate_exp` off and no required claims, so that it checks the token
/// format and signature only (the caller checks expiry): the result is the
/// recovered claims exactly when the signature matches. Besides a bad
/// signature or format, a non-HS256 header and a present `aud` claim are
/// also rejected.
#[verifier::external_body]
fn decode_token(token: &str, secret: &String) -> (r: Option<Claims>)
    ensures
        r matches Some(c) ==> token_claims(token@, secret@) == Some((c.sub@, c.exp)),
        r is None ==> token_claims(token@, secret@) is None,
{
    let mut validation = jsonwebtoken::Validation::new(jsonwebtoken::Algorithm::HS256);
    validation.validate_exp = false;
    validation.required_spec_claims = std::collections::HashSet::new();
    let key = jsonwebtoken::DecodingKey::from_secret(secret.as_bytes());
    let data = jsonwebtoken::decode::<serde_json::Value>(token, &key, &validation).ok()?;
    let sub = data.claims.get("sub")?.as_str()?.to_string();
    let exp = data.claims.get("exp")?.as_u64()?;
    Some(Claims { sub, exp })
}

/// The token that `issue` produces for `subject` at time `now`.
pub open spec fn issued_token(secret: Seq<char>, subject: Seq<char>, now: u64) -> Seq<char> {
    signed_token(subject, (now + TOKEN_LIFETIME_SECONDS) as u64, secret)
}

/// The verification verdict on parsed claims at time `now`: the subject when
/// the claims are present and not yet expired, nothing otherwise.
pub open spec fn verdict_of(claims: Option<(Seq<char>, u64)>, now: u64) -> Option<Seq<char>> {
    match claims {
        Some(c) => if c.1 > now {
            Some(c.0)
        } else {
            None
        },
        None => None,
    }
}

/// Issues and verifies bearer tokens with the process-wide secret, which is
/// loaded once at startup and immutable afterwards.
pub struct TokenService {
    secret: String,
}

impl TokenService {
    /// The signing secret, as contracts speak of it.
    pub closed spec fn secret_view(&self) -> Seq<char> {
        self.secret@
    }

    /// A token service over the given shared secret; the same value must be
    /// used for issuing and verifying, or no token verifies.
    pub fn new(secret: String) -> (r: TokenService)
        ensures
            r.secret_view() == secret@,
    {
        TokenService { secret }
    }

    /// Issues the signed token for `subject` expiring
    /// `TOKEN_LIFETIME_SECONDS` after `now`. With the secret held by
    /// construction, issuance is total: it owes a token on every call.
    pub fn issue(&self, subject: &String, now: u64) -> (r: String)
        requires
            now + TOKEN_LIFETIME_SECONDS <= u64::MAX,
        ensures
            r@ == issued_token(self.secret_view(), subject@, now),
            token_claims(r@, self.secret_view()) == Some(
                (subject@, (now + TOKEN_LIFETIME_SECONDS) as u64),
            ),
            r@.len() > 0,
    {
        let exp = now + TOKEN_LIFETIME_SECONDS;
        encode_token(subject, exp, &self.secret)
    }

    /// The verification decision on whatever the decoder returned: the
    /// subject exactly when claims were recovered and their expiry is
    /// strictly in the future, the one `Unauthorized` error otherwise.
    pub fn accept_claims(claims: Option<Claims>, now: u64) -> (r: Result<String, AppError>)
        ensures
            r is Ok <==> (claims matches Some(c) && c.exp > now),
            r matches Ok(s) ==> (claims matches Some(c) && s@ == c.sub@),
            r matches Err(e) ==> e is Unauthorized,
    {
        match claims {
            Some(c) => if c.exp > now {
                Ok(c.sub)
            } else {
                Err(AppError::Unauthorized)
            },
            None => Err(AppError::Unauthorized),
        }
    }

    /// Verifies a token at time `now`: parses it, checks its signature
    /// against the process-wide secret, and checks that its expiry is
    /// strictly in the future. All failure modes are indistinguishable to
    /// the caller: the single `Unauthorized` error.
    pub fn verify(&self, token: &str, now: u64) -> (r: Result<String, AppError>)
        ensures
            r is Ok <==> verdict_of(token_claims(token@, self.secret_view()), now) is Some,
            r matches Ok(s) ==> Some(s@) == verdict_of(
                token_claims(token@, self.secret_view()),
                now,
            ),
            r matches Err(e) ==> e is Unauthorized,
    {
        let claims = decode_token(token, &self.secret);
        Self::accept_claims(claims, now)
    }
}

/// Round trip: claims issued for `subject` at time `now` — which is what
/// `issue` stamps into its token — pass verification at time `now` and
/// yield `subject` again.
pub proof fn lemma_round_trip(secret: Seq<char>, token: Seq<char>, subject: Seq<char>, now: u64)
    requires
        now + TOKEN_LIFETIME_SECONDS <= u64::MAX,
        token_claims(token, secret) == Some((subject, (now + TOKEN_LIFETIME_SECONDS) as u64)),
    ensures
        verdict_of(token_claims(token, secret), now) == Some(subject),
{
}

/// Expiry boundary: a token issued at `now` is rejected one second after
/// its 24-hour lifetime has passed, and still accepted one second before.
pub proof fn lemma_expiry_boundary(secret: Seq<char>, token: Seq<char>, subject: Seq<char>, now: u64)
    requires
        now + TOKEN_LIFETIME_SECONDS + 1 <= u64::MAX,
        token_claims(token, secret) == Some((subject, (now + TOKEN_LIFETIME_SECONDS) as u64)),
    ensures
        verdict_of(token_claims(token, secret), (now + TOKEN_LIFETIME_SECONDS + 1) as u64) is None,
        verdict_of(token_claims(token, secret), (now + TOKEN_LIFETIME_SECONDS - 1) as u64) == Some(
            subject,
        ),
{
}

} // verus!
