//! Tests for the token codec, run against the real signing library.

use pnar_core::errors::AuthError;
use pnar_core::subject::SubjectId;
use pnar_core::token::{
    Claims, TokenCodec, ACCESS_TOKEN_TTL_SECS, REFRESH_TOKEN_TTL_SECS,
};

const T0: i64 = 1_700_000_000;

fn codec() -> TokenCodec {
    TokenCodec::new("your-secret-key".to_string())
}

#[test]
fn round_trip_before_expiry() {
    let c = codec();
    let id = SubjectId::new(0x0123_4567_89ab_cdef_0011_2233_4455_6677);
    let token = c.generate_token(&id, T0).unwrap();
    for check in [T0, T0 + 1, T0 + ACCESS_TOKEN_TTL_SECS - 1] {
        let claims = c.verify_token(&token, check).unwrap();
        assert_eq!(claims.iat, T0);
        assert_eq!(claims.exp, T0 + ACCESS_TOKEN_TTL_SECS);
        assert_eq!(claims.user_id().unwrap(), id);
    }
}

#[test]
fn expired_token_is_invalid_from_the_expiry_instant_on() {
    let c = codec();
    let id = SubjectId::new(42);
    let token = c.generate_token(&id, T0).unwrap();
    // a token issued at T0 with a 24h TTL, verified one second past the TTL
    assert_eq!(
        c.verify_token(&token, T0 + 86400 + 1).unwrap_err(),
        AuthError::InvalidToken
    );
    // the boundary itself is already dead: the window is [iat, exp)
    assert_eq!(
        c.verify_token(&token, T0 + ACCESS_TOKEN_TTL_SECS).unwrap_err(),
        AuthError::InvalidToken
    );
}

#[test]
fn refresh_tokens_live_thirty_days() {
    let c = codec();
    let id = SubjectId::new(7);
    let token = c.generate_refresh_token(&id, T0).unwrap();
    assert_eq!(REFRESH_TOKEN_TTL_SECS, 30 * 24 * 60 * 60);
    let claims = c.verify_token(&token, T0 + REFRESH_TOKEN_TTL_SECS - 1).unwrap();
    assert_eq!(claims.user_id().unwrap(), id);
    assert_eq!(
        c.verify_token(&token, T0 + REFRESH_TOKEN_TTL_SECS).unwrap_err(),
        AuthError::InvalidToken
    );
}

#[test]
fn tampering_breaks_the_signature() {
    let c = codec();
    let id = SubjectId::new(9);
    let token = c.generate_token(&id, T0).unwrap();
    let mut bytes = token.into_bytes();
    let last = bytes.len() - 1;
    bytes[last] = if bytes[last] == b'A' { b'B' } else { b'A' };
    let tampered = String::from_utf8(bytes).unwrap();
    assert_eq!(c.verify_token(&tampered, T0).unwrap_err(), AuthError::InvalidToken);
}

#[test]
fn the_wrong_secret_is_rejected() {
    let c = codec();
    let other = TokenCodec::new("another-secret".to_string());
    let id = SubjectId::new(11);
    let token = c.generate_token(&id, T0).unwrap();
    assert_eq!(other.verify_token(&token, T0).unwrap_err(), AuthError::InvalidToken);
    assert!(c.verify_token(&token, T0).is_ok());
}

#[test]
fn garbage_is_rejected_as_the_same_error() {
    let c = codec();
    for junk in ["", "not-a-token", "a.b.c", "Bearer xyz"] {
        assert_eq!(c.verify_token(junk, T0).unwrap_err(), AuthError::InvalidToken);
    }
}

#[test]
fn the_wire_claims_match_the_original_layout() {
    // Decode with the signing library directly: the token must carry the
    // canonical subject string and the two timestamps under the standard
    // claim names.
    let c = codec();
    let raw = 0xdead_beef_0000_0000_0000_0000_0000_0001u128;
    let id = SubjectId::new(raw);
    let token = c.generate_token(&id, T0).unwrap();

    let mut validation = jsonwebtoken::Validation::default();
    validation.validate_exp = false;
    validation.required_spec_claims.clear();
    let data = jsonwebtoken::decode::<serde_json::Value>(
        &token,
        &jsonwebtoken::DecodingKey::from_secret(b"your-secret-key"),
        &validation,
    )
    .unwrap();
    assert_eq!(
        data.claims.get("sub").unwrap().as_str().unwrap(),
        uuid::Uuid::from_u128(raw).to_string()
    );
    assert_eq!(data.claims.get("iat").unwrap().as_i64().unwrap(), T0);
    assert_eq!(
        data.claims.get("exp").unwrap().as_i64().unwrap(),
        T0 + ACCESS_TOKEN_TTL_SECS
    );
}

#[test]
fn claims_carry_the_canonical_subject() {
    let id = SubjectId::new(3);
    let claims = Claims::new(&id, T0);
    assert_eq!(claims.sub, "00000000-0000-0000-0000-000000000003");
    assert_eq!(claims.iat, T0);
    assert_eq!(claims.exp, T0 + ACCESS_TOKEN_TTL_SECS);
    assert_eq!(claims.user_id(), Ok(SubjectId::new(3)));
}

#[test]
fn an_unparseable_subject_is_an_invalid_token() {
    let claims = Claims {
        sub: "not-an-identifier".to_string(),
        exp: T0 + 1000,
        iat: T0,
    };
    assert_eq!(claims.user_id(), Err(AuthError::InvalidToken));
}
