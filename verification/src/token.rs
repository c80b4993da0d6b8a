//! The token codec: issues and verifies signed, time-bounded bearer tokens
//! carrying a subject identifier.
//!
//! Tokens are opaque signed strings produced from the claims and a
//! process-wide secret alone; callers never parse them. The codec checks
//! freshness itself against an injected clock, strictly: a token is live
//! while `now < expires_at` and dead from the expiry instant on. A bad
//! signature, malformed claims, an unparseable subject and an expired token
//! are all reported as the same error, so that a probe learns nothing about
//! why a token was rejected. There is no revocation list: the design is
//! stateless, and a token stays valid until its natural expiry.

use vstd::prelude::*;

use crate::errors::AuthError;
use crate::subject::{parse_subject, format_subject, spec_subject_string, SubjectId};

verus! {

/// Lifetime of an access token: 24 hours, in seconds.
pub const ACCESS_TOKEN_TTL_SECS: i64 = 86400;

/// Lifetime of a refresh token: 30 days, in seconds.
pub const REFRESH_TOKEN_TTL_SECS: i64 = 2592000;

/// The signed token string produced for the given subject string, validity
/// window and secret. Signing is deterministic, so the token is a function
/// of these alone; nothing else is assumed about its shape.
pub uninterp spec fn token_of(sub: Seq<char>, iat: i64, exp: i64, secret: Seq<char>) -> Seq<char>;

/// The signed payload of a token: a subject identifier and its validity
/// window. Deliberately excludes the role, which is resolved fresh on every
/// request so that a role change takes effect at once.
#[derive(Clone, Debug)]
pub struct Claims {
    /// Subject: the printed identity identifier.
    pub sub: String,
    /// Expiry time, seconds since the epoch.
    pub exp: i64,
    /// Issued-at time, seconds since the epoch.
    pub iat: i64,
}

impl Claims {
    /// Access-token claims for a subject, issued at `now`.
    pub fn new(user_id: &SubjectId, now: i64) -> (c: Claims)
        requires
            now + ACCESS_TOKEN_TTL_SECS <= i64::MAX,
        ensures
            c.sub@ == spec_subject_string(user_id.value),
            c.iat == now,
            c.exp == now + ACCESS_TOKEN_TTL_SECS,
    {
        Claims { sub: format_subject(user_id), exp: now + ACCESS_TOKEN_TTL_SECS, iat: now }
    }

    /// The subject identifier carried in the claims, if the subject string is
    /// the canonical printed form of one.
    pub fn user_id(&self) -> (r: Result<SubjectId, AuthError>)
        ensures
            r matches Ok(id) ==> self.sub@ == spec_subject_string(id.value),
            forall|v: u128| self.sub@ == spec_subject_string(v) ==> r == Ok::<
                SubjectId,
                AuthError,
            >((SubjectId { value: v })),
            r matches Err(e) ==> e == AuthError::InvalidToken,
    {
        match parse_subject(self.sub.as_str()) {
            Some(id) => Ok(id),
            None => Err(AuthError::InvalidToken),
        }
    }
}

/// Relies on `jsonwebtoken::encode` with the default HS256 header: the token
/// returned for given claims and secret is the deterministic signed encoding
/// named by `token_of`. Encoding cannot fail on these inputs: the key family
/// matches the header's by construction, an HMAC secret of any length is
/// accepted, HMAC signing is infallible, and a claims map of one string and
/// two integers always serializes.
#[verifier::external_body]
fn encode_claims(sub: &str, iat: i64, exp: i64, secret: &str) -> (r: String)
    ensures
        r@ == token_of(sub@, iat, exp, secret@),
{
    let mut claims = serde_json::Map::new();
    claims.insert("sub".to_string(), serde_json::Value::from(sub));
    claims.insert("iat".to_string(), serde_json::Value::from(iat));
    claims.insert("exp".to_string(), serde_json::Value::from(exp));
    jsonwebtoken::encode(
        &jsonwebtoken::Header::default(),
        &serde_json::Value::Object(claims),
        &jsonwebtoken::EncodingKey::from_secret(secret.as_bytes()),
    ).unwrap()
}

/// Relies on `jsonwebtoken::decode` with HS256 and expiry validation turned
/// off (the caller checks freshness against its own clock): a token that
/// `encode` produced under the same secret decodes to exactly the claims
/// that were encoded. Nothing is assumed about any other input.
#[verifier::external_body]
fn decode_claims(token: &str, secret: &str) -> (r: Option<Claims>)
    ensures
        (match r {
            Some(c) => forall|sub: Seq<char>, iat: i64, exp: i64|
                token@ == #[trigger] token_of(sub, iat, exp, secret@) ==> c.sub@ == sub && c.iat
                    == iat && c.exp == exp,
            None => forall|sub: Seq<char>, iat: i64, exp: i64|
                token@ != #[trigger] token_of(sub, iat, exp, secret@),
        }),
{
    let mut validation = jsonwebtoken::Validation::default();
    validation.validate_exp = false;
    validation.required_spec_claims.clear();
    let data = jsonwebtoken::decode::<serde_json::Value>(
        token,
        &jsonwebtoken::DecodingKey::from_secret(secret.as_bytes()),
        &validation,
    ).ok()?;
    Some(Claims {
        sub: data.claims.get("sub")?.as_str()?.to_string(),
        exp: data.claims.get("exp")?.as_i64()?,
        iat: data.claims.get("iat")?.as_i64()?,
    })
}

/// The token codec: immutable configuration (the process-wide signing
/// secret) passed in once at construction.
pub struct TokenCodec {
    secret: String,
}

impl TokenCodec {
    /// The signing secret, visible to contracts only.
    pub closed spec fn spec_secret(&self) -> Seq<char> {
        self.secret@
    }

    /// A codec over the given signing secret.
    pub fn new(secret: String) -> (codec: TokenCodec)
        ensures
            codec.spec_secret() == secret@,
    {
        TokenCodec { secret }
    }

    fn issue(&self, user_id: &SubjectId, now: i64, ttl: i64) -> (r: Result<String, AuthError>)
        requires
            0 < ttl,
            now + ttl <= i64::MAX,
        ensures
            (r matches Ok(t) && t@ == token_of(
                spec_subject_string(user_id.value),
                now,
                (now + ttl) as i64,
                self.spec_secret(),
            )),
    {
        let sub = format_subject(user_id);
        Ok(encode_claims(sub.as_str(), now, now + ttl, self.secret.as_str()))
    }

    /// Issue an access token for a subject: always succeeds, and the token is
    /// the signed encoding of the subject with a 24-hour validity window.
    pub fn generate_token(&self, user_id: &SubjectId, now: i64) -> (r: Result<String, AuthError>)
        requires
            now + ACCESS_TOKEN_TTL_SECS <= i64::MAX,
        ensures
            (r matches Ok(t) && t@ == token_of(
                spec_subject_string(user_id.value),
                now,
                (now + ACCESS_TOKEN_TTL_SECS) as i64,
                self.spec_secret(),
            )),
    {
        self.issue(user_id, now, ACCESS_TOKEN_TTL_SECS)
    }

    /// Issue a refresh token for a subject: always succeeds, and the token is
    /// the signed encoding of the subject with a 30-day validity window.
    pub fn generate_refresh_token(&self, user_id: &SubjectId, now: i64) -> (r: Result<
        String,
        AuthError,
    >)
        requires
            now + REFRESH_TOKEN_TTL_SECS <= i64::MAX,
        ensures
            (r matches Ok(t) && t@ == token_of(
                spec_subject_string(user_id.value),
                now,
                (now + REFRESH_TOKEN_TTL_SECS) as i64,
                self.spec_secret(),
            )),
    {
        self.issue(user_id, now, REFRESH_TOKEN_TTL_SECS)
    }

    /// Verify a token at check time `now`.
    ///
    /// A token issued under this codec's secret for a validity window is
    /// accepted at every check time strictly before its expiry, yielding
    /// exactly the claims it was issued with, and rejected at every check
    /// time from the expiry on. Whatever else is presented - a forged or
    /// malformed string, or a stale token - the one error is `InvalidToken`,
    /// and anything accepted is unexpired.
    pub fn verify_token(&self, token: &str, now: i64) -> (r: Result<Claims, AuthError>)
        ensures
            forall|sub: Seq<char>, iat: i64, exp: i64|
                #[trigger] token_of(sub, iat, exp, self.spec_secret()) == token@ && now < exp ==> (
                r matches Ok(c) && c.sub@ == sub && c.iat == iat && c.exp == exp),
            forall|sub: Seq<char>, iat: i64, exp: i64|
                #[trigger] token_of(sub, iat, exp, self.spec_secret()) == token@ && now >= exp
                ==> r == Err::<Claims, AuthError>(AuthError::InvalidToken),
            r matches Ok(c) ==> now < c.exp,
            r matches Err(e) ==> e == AuthError::InvalidToken,
    {
        match decode_claims(token, self.secret.as_str()) {
            Some(c) => {
                if now < c.exp {
                    Ok(c)
                } else {
                    Err(AuthError::InvalidToken)
                }
            },
            None => Err(AuthError::InvalidToken),
        }
    }
}

} // verus!
