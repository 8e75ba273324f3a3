use expense_tracker_backend::auth::{subject_string, validate_jwt};
use expense_tracker_backend::errors::{AppError, AuthError, GlobalAppError};
use expense_tracker_backend::token::{create_jwt, create_jwt_at, validate_token};

// "secret" in standard base64, the shape the signing key is configured in.
const KEY: &str = "c2VjcmV0";

#[test]
fn issued_token_validates_to_its_subject_before_expiry() {
    let sub = subject_string(42u128);
    let token = create_jwt_at(sub.as_str(), KEY, 1000).expect("issuance should succeed");
    let claims = validate_token(token.as_str(), KEY, 1000 + 3599).expect("still valid");
    assert_eq!(claims.sub, sub);
    assert_eq!(claims.iat, 1000);
    assert_eq!(claims.exp, 4600);
}

#[test]
fn issued_token_fails_validation_from_expiry_on() {
    let sub = subject_string(42u128);
    let token = create_jwt_at(sub.as_str(), KEY, 1000).expect("issuance should succeed");
    let r = validate_token(token.as_str(), KEY, 4600);
    assert_eq!(r.err(), Some(AppError::Auth(AuthError::TokenExpiredOrInvalid)));
    let r = validate_token(token.as_str(), KEY, 1_000_000_000);
    assert_eq!(r.err(), Some(AppError::Auth(AuthError::TokenExpiredOrInvalid)));
}

#[test]
fn tampered_token_fails_validation() {
    let sub = subject_string(42u128);
    let token = create_jwt_at(sub.as_str(), KEY, 1000).expect("issuance should succeed");
    // alter the last byte of the signature
    let mut bytes = token.into_bytes();
    let last = bytes.len() - 1;
    bytes[last] = if bytes[last] == b'A' { b'B' } else { b'A' };
    let tampered = String::from_utf8(bytes).unwrap();
    let r = validate_token(tampered.as_str(), KEY, 1000);
    assert_eq!(r.err(), Some(AppError::Auth(AuthError::TokenExpiredOrInvalid)));
}

#[test]
fn token_signed_with_one_key_fails_under_another() {
    let sub = subject_string(42u128);
    let token = create_jwt_at(sub.as_str(), KEY, 1000).expect("issuance should succeed");
    // "another" in standard base64
    let r = validate_token(token.as_str(), "YW5vdGhlcg==", 1000);
    assert_eq!(r.err(), Some(AppError::Auth(AuthError::TokenExpiredOrInvalid)));
}

#[test]
fn unusable_key_is_an_internal_fault() {
    let sub = subject_string(42u128);
    assert_eq!(
        create_jwt_at(sub.as_str(), "!!!not base64!!!", 1000).err(),
        Some(AppError::Internal)
    );
    let token = create_jwt_at(sub.as_str(), KEY, 1000).unwrap();
    assert_eq!(
        validate_token(token.as_str(), "!!!not base64!!!", 1000).err(),
        Some(AppError::Internal)
    );
}

#[test]
fn clock_issued_token_carries_one_hour_window() {
    let sub = subject_string(7u128);
    let token = create_jwt(sub.clone(), KEY.to_string()).expect("issuance should succeed");
    // validating "at the beginning of time" only needs exp to lie ahead
    let claims = validate_token(token.as_str(), KEY, 0).expect("valid");
    assert_eq!(claims.sub, sub);
    assert_eq!(claims.exp, claims.iat + 3600);
}

#[test]
fn gate_rejects_a_missing_token() {
    let r = validate_jwt(None, KEY, 1000);
    assert_eq!(r.err(), Some(AppError::Auth(AuthError::MissingToken)));
    let rendered =
        GlobalAppError::from_app_error(&AppError::Auth(AuthError::MissingToken));
    assert_eq!(rendered.error_code, 400);
    assert_eq!(rendered.message, "auth bearer token missing!");
}

#[test]
fn gate_translates_a_valid_token_into_its_identity() {
    let sub = subject_string(7u128);
    let token = create_jwt_at(sub.as_str(), KEY, 1000).unwrap();
    let r = validate_jwt(Some(token.as_str()), KEY, 2000);
    assert_eq!(r, Ok(7u128));
}

#[test]
fn gate_rejects_garbage_and_expired_tokens_alike() {
    let r = validate_jwt(Some("definitely.not.a-token"), KEY, 1000);
    assert_eq!(r.err(), Some(AppError::Auth(AuthError::TokenExpiredOrInvalid)));
    let sub = subject_string(7u128);
    let token = create_jwt_at(sub.as_str(), KEY, 1000).unwrap();
    let r = validate_jwt(Some(token.as_str()), KEY, 5000);
    assert_eq!(r.err(), Some(AppError::Auth(AuthError::TokenExpiredOrInvalid)));
}

#[test]
fn gate_rejects_an_unparseable_subject_as_internal() {
    let token = create_jwt_at("not-a-uuid", KEY, 1000).unwrap();
    let r = validate_jwt(Some(token.as_str()), KEY, 2000);
    assert_eq!(r.err(), Some(AppError::Auth(AuthError::MalformedSubject)));
    let rendered =
        GlobalAppError::from_app_error(&AppError::Auth(AuthError::MalformedSubject));
    assert_eq!(rendered.error_code, 500);
}

#[test]
fn subject_strings_round_trip_through_the_gate() {
    // a large identity exercises all 128 bits of the subject text
    let id: u128 = 0xfedc_ba98_7654_3210_0123_4567_89ab_cdef;
    let sub = subject_string(id);
    let token = create_jwt_at(sub.as_str(), KEY, 1000).unwrap();
    assert_eq!(validate_jwt(Some(token.as_str()), KEY, 1500), Ok(id));
}
