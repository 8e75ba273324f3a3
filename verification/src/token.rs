//! The token service: stateless signed-token issuance and validation.
//!
//! A token carries claims `{sub, iat, exp}` and is signed with a symmetric
//! key under a fixed MAC algorithm (HMAC-SHA-384).  The expiry window is a
//! fixed policy constant of one hour.  Signing and signature checking are
//! done by the `jsonwebtoken` crate; what it computes is named by
//! [`token_of`] and [`decoded_of`], and the expiry comparison itself is
//! performed here, in verified code, against a caller-supplied clock value.

use vstd::prelude::*;

use crate::errors::{AppError, AuthError};

verus! {

/// The number of seconds an issued token stays valid.
pub const TOKEN_LIFETIME_SECONDS: i64 = 3600;

/// The signed payload inside a token: the subject's identity and the
/// validity window.
pub struct Claims {
    pub sub: String,
    pub iat: i64,
    pub exp: i64,
}

/// The mathematical value of a [`Claims`].
pub ghost struct ClaimsView {
    pub sub: Seq<char>,
    pub iat: int,
    pub exp: int,
}

impl View for Claims {
    type V = ClaimsView;

    open spec fn view(&self) -> ClaimsView {
        ClaimsView { sub: self.sub@, iat: self.iat as int, exp: self.exp as int }
    }
}

/// Whether a key string is a well-formed base64 encoding of a secret.  Both
/// the signing and the checking side decode the configured key string the
/// same way, so one name serves both.
pub uninterp spec fn is_b64_secret(key: Seq<char>) -> bool;

/// The token that signing the given claims with the given key produces: a
/// fixed function of claims and key.
pub uninterp spec fn token_of(claims: ClaimsView, key: Seq<char>) -> Seq<char>;

/// What checking a token against a key yields, expiry aside: `Some(claims)`
/// when the token is well-formed, carries the expected MAC algorithm, its
/// signature verifies under the key, and its payload holds the three claims;
/// `None` otherwise.  A fixed function of token and key.
pub uninterp spec fn decoded_of(token: Seq<char>, key: Seq<char>) -> Option<ClaimsView>;

/// Relies on `jsonwebtoken`: `EncodingKey::from_base64_secret` accepts
/// exactly the well-formed base64 key strings, and `encode` with an HS384
/// header signs the serialized claims; a token it returns decodes, under the
/// same key and algorithm, back to the same claims (`decode`'s documented
/// counterpart behaviour).  Decoding reads the timestamp claims as unsigned
/// numbers, so the round trip holds only of non-negative instants; negative
/// ones are kept out.
#[verifier::external_body]
fn hs384_sign(sub: &str, iat: i64, exp: i64, key: &str) -> (r: Option<String>)
    requires
        0 <= iat,
        0 <= exp,
    ensures
        r is Some <==> is_b64_secret(key@),
        r matches Some(t) ==> t@ == token_of(
            ClaimsView { sub: sub@, iat: iat as int, exp: exp as int },
            key@,
        ),
        r matches Some(t) ==> decoded_of(t@, key@) == Some(
            ClaimsView { sub: sub@, iat: iat as int, exp: exp as int },
        ),
{
    let encoding_key = match jsonwebtoken::EncodingKey::from_base64_secret(key) {
        Ok(k) => k,
        Err(_) => return None,
    };
    let mut payload = serde_json::Map::new();
    payload.insert("sub".to_owned(), serde_json::Value::from(sub));
    payload.insert("iat".to_owned(), serde_json::Value::from(iat));
    payload.insert("exp".to_owned(), serde_json::Value::from(exp));
    let header = jsonwebtoken::Header::new(jsonwebtoken::Algorithm::HS384);
    jsonwebtoken::encode(&header, &serde_json::Value::Object(payload), &encoding_key).ok()
}

/// What checking a token's signature reports, before any expiry decision.
enum SignatureCheck {
    /// The configured key string is not well-formed base64.
    BadKey,
    /// The token is malformed, carries another algorithm, or its signature
    /// does not verify under the key.
    Invalid,
    /// The token verifies and carries these claims.
    Decoded(Claims),
}

/// Relies on `jsonwebtoken`: `DecodingKey::from_base64_secret` accepts
/// exactly the well-formed base64 key strings, and `decode` restricted to
/// HS384 (with the expiry check disabled, so that the outcome depends on
/// token and key alone) verifies the signature and yields the payload's
/// claims.  The arms only tell the crate's outcomes apart.
#[verifier::external_body]
fn hs384_check(token: &str, key: &str) -> (r: SignatureCheck)
    ensures
        r is BadKey <==> !is_b64_secret(key@),
        r is Invalid <==> (is_b64_secret(key@) && decoded_of(token@, key@) is None),
        r matches SignatureCheck::Decoded(d) ==> Some(d@) == decoded_of(token@, key@),
{
    let decoding_key = match jsonwebtoken::DecodingKey::from_base64_secret(key) {
        Ok(k) => k,
        Err(_) => return SignatureCheck::BadKey,
    };
    let mut validation = jsonwebtoken::Validation::new(jsonwebtoken::Algorithm::HS384);
    validation.validate_exp = false;
    let c = match jsonwebtoken::decode::<serde_json::Value>(token, &decoding_key, &validation) {
        Ok(data) => data.claims,
        Err(_) => return SignatureCheck::Invalid,
    };
    match (c.get("sub").and_then(|v| v.as_str()), c.get("iat").and_then(|v| v.as_i64()), c.get("exp").and_then(|v| v.as_i64())) {
        (Some(sub), Some(iat), Some(exp)) => SignatureCheck::Decoded(Claims { sub: sub.to_owned(), iat, exp }),
        _ => SignatureCheck::Invalid,
    }
}

/// Relies on `chrono`: `Utc::now().timestamp()` is the number of non-leap
/// seconds since the epoch; `chrono` documents that a `DateTime<Utc>` lies
/// within about 262,000 years of the common era, so the count stays well
/// inside the stated bound.
#[verifier::external_body]
fn now_timestamp() -> (r: i64)
    ensures
        -10_000_000_000_000 < r < 10_000_000_000_000,
{
    chrono::Utc::now().timestamp()
}

/// The claims that a token issued for `sub` at time `now` carries: issued
/// now, expiring one hour later.
pub open spec fn issued_claims(sub: Seq<char>, now: int) -> ClaimsView {
    ClaimsView { sub: sub, iat: now, exp: now + TOKEN_LIFETIME_SECONDS }
}

/// Issues a token for subject `uuid` as of time `now`: claims issued at
/// `now` and expiring one hour later, signed with the configured key.  Fails
/// exactly when the key string is not well-formed base64, which is an
/// internal configuration fault.
pub fn create_jwt_at(uuid: &str, hmac_key: &str, now: i64) -> (r: Result<String, AppError>)
    requires
        0 <= now,
        now + TOKEN_LIFETIME_SECONDS <= i64::MAX,
    ensures
        r is Ok <==> is_b64_secret(hmac_key@),
        r matches Ok(t) ==> t@ == token_of(issued_claims(uuid@, now as int), hmac_key@),
        r matches Ok(t) ==> decoded_of(t@, hmac_key@) == Some(issued_claims(uuid@, now as int)),
        r matches Err(e) ==> e == AppError::Internal,
{
    match hs384_sign(uuid, now, now + TOKEN_LIFETIME_SECONDS, hmac_key) {
        Some(t) => Ok(t),
        None => Err(AppError::Internal),
    }
}

/// Issues a token for subject `uuid` with the process clock as "now".  A
/// clock reading before the epoch is an internal fault: such instants do
/// not survive the token's own timestamp encoding.
pub fn create_jwt(uuid: String, hmac_key: String) -> (r: Result<String, AppError>)
    ensures
        r is Ok ==> is_b64_secret(hmac_key@),
        r matches Ok(t) ==> exists|now: int|
            0 <= now && t@ == token_of(issued_claims(uuid@, now), hmac_key@) && decoded_of(
                t@,
                hmac_key@,
            ) == Some(issued_claims(uuid@, now)),
        r matches Err(e) ==> e == AppError::Internal,
{
    let now = now_timestamp();
    if now < 0 {
        return Err(AppError::Internal);
    }
    let r = create_jwt_at(uuid.as_str(), hmac_key.as_str(), now);
    proof {
        if r is Ok {
            assert(r->Ok_0@ == token_of(issued_claims(uuid@, now as int), hmac_key@));
        }
    }
    r
}

/// Whether a token passes validation against `key` at time `now`: its
/// signature and shape check out and `now` lies strictly before its expiry.
pub open spec fn token_valid_at(token: Seq<char>, key: Seq<char>, now: int) -> bool {
    &&& decoded_of(token, key) is Some
    &&& now < decoded_of(token, key)->0.exp
}

/// Validates `token` against the configured key as of time `now`.
///
/// Returns the token's claims exactly when the signature checks out and the
/// token is unexpired.  Any signature, algorithm, shape, or expiry failure
/// answers the same kind, `TokenExpiredOrInvalid`, so that a caller cannot
/// tell a forged token from an expired one.  A key string that is not
/// well-formed base64 is an internal configuration fault.
pub fn validate_token(token: &str, hmac_key: &str, now: i64) -> (r: Result<Claims, AppError>)
    ensures
        r is Ok <==> is_b64_secret(hmac_key@) && token_valid_at(token@, hmac_key@, now as int),
        r matches Ok(c) ==> c@ == decoded_of(token@, hmac_key@)->0,
        !is_b64_secret(hmac_key@) ==> r == Err::<Claims, AppError>(AppError::Internal),
        is_b64_secret(hmac_key@) && !token_valid_at(token@, hmac_key@, now as int) ==> r == Err::<
            Claims,
            AppError,
        >(AppError::Auth(AuthError::TokenExpiredOrInvalid)),
{
    match hs384_check(token, hmac_key) {
        SignatureCheck::BadKey => Err(AppError::Internal),
        SignatureCheck::Invalid => Err(AppError::Auth(AuthError::TokenExpiredOrInvalid)),
        SignatureCheck::Decoded(claims) => {
            if now < claims.exp {
                Ok(claims)
            } else {
                Err(AppError::Auth(AuthError::TokenExpiredOrInvalid))
            }
        },
    }
}

/// A token issued for subject `sub` at time `t` — one that decodes to the
/// claims issuance stamps into it — validates, under the same key, to claims
/// whose subject is `sub` at every instant before its expiry, and fails
/// validation at every instant from its expiry on.
pub proof fn lemma_issued_token_validation(
    tok: Seq<char>,
    sub: Seq<char>,
    t: int,
    key: Seq<char>,
    now: int,
)
    requires
        decoded_of(tok, key) == Some(issued_claims(sub, t)),
    ensures
        now < t + TOKEN_LIFETIME_SECONDS ==> token_valid_at(tok, key, now) && decoded_of(
            tok,
            key,
        )->0.sub == sub,
        now >= t + TOKEN_LIFETIME_SECONDS ==> !token_valid_at(tok, key, now),
{
}

} // verus!
