//! The per-request authentication stage: it turns a bearer token into a
//! caller identity, or rejects the request.
//!
//! The stage is stateless across requests.  A request moves through
//! extraction, validation, and subject parsing, and short-circuits to a
//! rejection at the first failing step; failures are terminal, with no
//! retry.  Identities are the 128-bit values of the UUIDs that the store
//! keys users by; the textual subject claim is bridged to them by the `uuid`
//! crate behind [`uuid_of`] and [`uuid_str_of`].

use vstd::prelude::*;

use crate::errors::{AppError, AuthError};
use crate::token::{token_valid_at, decoded_of, is_b64_secret, validate_token};

verus! {

/// The identity value that a subject string parses to, if any: a fixed
/// function of the string alone.
pub uninterp spec fn uuid_of(s: Seq<char>) -> Option<u128>;

/// The canonical hyphenated text of the UUID with the given 128-bit value:
/// a fixed function of the value alone.
pub uninterp spec fn uuid_str_of(id: u128) -> Seq<char>;

/// Relies on `uuid::Uuid::parse_str`, which accepts exactly the textual
/// UUID forms and yields the parsed value's 128 bits.
#[verifier::external_body]
pub fn parse_subject(s: &str) -> (r: Option<u128>)
    ensures
        r == uuid_of(s@),
{
    match uuid::Uuid::parse_str(s) {
        Ok(u) => Some(u.as_u128()),
        Err(_) => None,
    }
}

/// Relies on `uuid::Uuid`: `from_u128` builds the UUID with exactly these
/// 128 bits, its display form is the canonical hyphenated text, and
/// `parse_str` accepts that text back to the same value.
#[verifier::external_body]
pub fn subject_string(id: u128) -> (r: String)
    ensures
        r@ == uuid_str_of(id),
        uuid_of(r@) == Some(id),
{
    uuid::Uuid::from_u128(id).to_string()
}

/// Whether a request carrying this bearer token (or none), checked against
/// this key at this instant, is let through.
pub open spec fn gate_admits(token: Option<Seq<char>>, key: Seq<char>, now: int) -> bool {
    &&& token is Some
    &&& is_b64_secret(key)
    &&& token_valid_at(token->0, key, now)
    &&& uuid_of(decoded_of(token->0, key)->0.sub) is Some
}

/// The identity attached to an admitted request.
pub open spec fn gate_identity(token: Option<Seq<char>>, key: Seq<char>, now: int) -> u128 {
    uuid_of(decoded_of(token->0, key)->0.sub)->0
}

/// The authentication stage itself: takes the request's bearer token, if
/// any, the configured key, and the current instant, and answers the
/// caller's identity or the rejection.
///
/// A missing token, an invalid or expired one, and an unparseable subject
/// each short-circuit to their own terminal rejection, in that order of
/// examination; otherwise the identity inside the token's subject claim is
/// returned.
pub fn validate_jwt(token: Option<&str>, hmac_key: &str, now: i64) -> (r: Result<u128, AppError>)
    ensures
        r is Ok <==> gate_admits(
            match token {
                Some(t) => Some(t@),
                None => None,
            },
            hmac_key@,
            now as int,
        ),
        r matches Ok(id) ==> id == gate_identity(Some(token->0@), hmac_key@, now as int),
        token is None ==> r == Err::<u128, AppError>(AppError::Auth(AuthError::MissingToken)),
        token matches Some(t) && !is_b64_secret(hmac_key@) ==> r == Err::<u128, AppError>(
            AppError::Internal,
        ),
        token matches Some(t) && is_b64_secret(hmac_key@) && !token_valid_at(
            t@,
            hmac_key@,
            now as int,
        ) ==> r == Err::<u128, AppError>(AppError::Auth(AuthError::TokenExpiredOrInvalid)),
        token matches Some(t) && is_b64_secret(hmac_key@) && token_valid_at(
            t@,
            hmac_key@,
            now as int,
        ) && uuid_of(decoded_of(t@, hmac_key@)->0.sub) is None ==> r == Err::<u128, AppError>(
            AppError::Auth(AuthError::MalformedSubject),
        ),
{
    let t = match token {
        None => {
            return Err(AppError::Auth(AuthError::MissingToken));
        },
        Some(t) => t,
    };
    let claims = match validate_token(t, hmac_key, now) {
        Err(e) => {
            return Err(e);
        },
        Ok(c) => c,
    };
    match parse_subject(claims.sub.as_str()) {
        Some(id) => Ok(id),
        None => Err(AppError::Auth(AuthError::MalformedSubject)),
    }
}

} // verus!
