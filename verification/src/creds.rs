//! The credential manager: one-way password hashing and verification.
//!
//! Hashing derives a memory-hard digest under a fresh random salt and returns
//! a self-describing encoded string.  Verification re-derives with the
//! parameters embedded in that string and compares in constant time.  The
//! derivation itself is done by the `argon2` crate; its observable outcome is
//! named by [`verify_class`] and every contract here speaks through that name.

use argon2::PasswordHasher;
use argon2::PasswordVerifier;
use vstd::prelude::*;

use crate::errors::{AppError, AuthError};

verus! {

/// The four ways a password check against a stored hash string can end.
#[derive(Clone, Copy, PartialEq, Eq, Structural, Debug)]
pub enum PasswordCheck {
    /// The hash string parses and the password re-derives to its digest.
    Match,
    /// The hash string parses but the password does not match.
    Mismatch,
    /// The hash string is not a well-formed encoded hash.
    Corrupt,
    /// The hash string parses but re-derivation fails (unusable parameters).
    Fault,
}

/// The outcome of checking `password` against the encoded hash string
/// `hash`.  This is a fixed function of the two strings alone: parsing the
/// hash, re-deriving the digest with the parameters and salt it embeds, and
/// comparing.
pub uninterp spec fn verify_class(password: Seq<char>, hash: Seq<char>) -> PasswordCheck;

/// What the hashing routine promises of every string it returns for
/// `password`: checking the same password against it matches, and checking
/// any other password against it mismatches.
pub open spec fn fresh_hash_for(password: Seq<char>, hash: Seq<char>) -> bool {
    &&& verify_class(password, hash) == PasswordCheck::Match
    &&& forall|other: Seq<char>|
        other != password ==> verify_class(other, hash) == PasswordCheck::Mismatch
}

/// Relies on `argon2`: `Argon2::default().hash_password` derives a hash
/// under a fresh random salt and encodes it so that `verify_password` on the
/// same password succeeds and on any other password fails with
/// `Error::PasswordInvalid`.  `None` stands for the hashing fault the crate
/// can report (an over-long password, or a salt-generation failure).
#[verifier::external_body]
fn argon2_hash(password: &str) -> (r: Option<String>)
    ensures
        r matches Some(h) ==> fresh_hash_for(password@, h@),
{
    match argon2::Argon2::default().hash_password(password.as_bytes()) {
        Ok(h) => Some(h.to_string()),
        Err(_) => None,
    }
}

/// Relies on `argon2` and `password_hash`: `PasswordHash::new` parses the
/// encoded string, and `Argon2::default().verify_password` re-derives and
/// compares, answering `Error::PasswordInvalid` exactly when the digests
/// differ.  The arms only tell the crate's outcomes apart.
#[verifier::external_body]
fn argon2_verify(password: &str, hash: &str) -> (r: PasswordCheck)
    ensures
        r == verify_class(password@, hash@),
{
    match argon2::PasswordHash::new(hash) {
        Err(_) => PasswordCheck::Corrupt,
        Ok(parsed) => match argon2::Argon2::default().verify_password(
            password.as_bytes(),
            &parsed,
        ) {
            Ok(()) => PasswordCheck::Match,
            Err(argon2::password_hash::Error::PasswordInvalid) => PasswordCheck::Mismatch,
            Err(_) => PasswordCheck::Fault,
        },
    }
}

/// Hashes `password` under a fresh random salt into a self-describing
/// encoded string.  Every returned string satisfies [`fresh_hash_for`], so
/// verification accepts exactly the hashed password.  The only failure is an
/// internal hashing fault.
pub fn hash_password(password: String) -> (r: Result<String, AppError>)
    ensures
        r matches Ok(h) ==> fresh_hash_for(password@, h@),
        r matches Err(e) ==> e == AppError::Internal,
{
    match argon2_hash(password.as_str()) {
        Some(h) => Ok(h),
        None => Err(AppError::Internal),
    }
}

/// Checks `password` against the stored hash string `hashed_password`.
///
/// Succeeds exactly when the hash parses and the password matches.  A
/// non-matching password answers `InvalidCredential`; a malformed hash
/// string answers `CorruptHash`, a distinct kind so that data corruption is
/// never mistaken for a wrong password; an unusable parsed hash answers an
/// internal fault.
pub fn verify_password(password: String, hashed_password: String) -> (r: Result<
    (),
    AppError,
>)
    ensures
        r is Ok <==> verify_class(password@, hashed_password@) == PasswordCheck::Match,
        verify_class(password@, hashed_password@) == PasswordCheck::Mismatch ==> r == Err::<
            (),
            AppError,
        >(AppError::Auth(AuthError::InvalidCredential)),
        verify_class(password@, hashed_password@) == PasswordCheck::Corrupt ==> r == Err::<
            (),
            AppError,
        >(AppError::Auth(AuthError::CorruptHash)),
        verify_class(password@, hashed_password@) == PasswordCheck::Fault ==> r == Err::<
            (),
            AppError,
        >(AppError::Internal),
{
    match argon2_verify(password.as_str(), hashed_password.as_str()) {
        PasswordCheck::Match => Ok(()),
        PasswordCheck::Mismatch => Err(AppError::Auth(AuthError::InvalidCredential)),
        PasswordCheck::Corrupt => Err(AppError::Auth(AuthError::CorruptHash)),
        PasswordCheck::Fault => Err(AppError::Internal),
    }
}

/// A fresh hash verifies with its own password and with no other: for every
/// hash string `h` that hashing returned for `p1`, checking `p1` against `h`
/// matches, and checking any `p2 != p1` against `h` mismatches.
pub proof fn lemma_verify_of_hash(p1: Seq<char>, p2: Seq<char>, h: Seq<char>)
    requires
        fresh_hash_for(p1, h),
    ensures
        verify_class(p1, h) == PasswordCheck::Match,
        p2 != p1 ==> verify_class(p2, h) == PasswordCheck::Mismatch,
{
}

} // verus!
