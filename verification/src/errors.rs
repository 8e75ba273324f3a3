//! The error taxonomy of the service.
//!
//! Every failing operation reports exactly one kind and one message.
//! Authentication failures map to 400/401 responses, validation failures to
//! 400/404, and storage or internal faults to 500.

use vstd::prelude::*;

verus! {

/// Failures of the credential and token subsystem.
#[derive(Clone, Copy, PartialEq, Eq, Structural, Debug)]
pub enum AuthError {
    /// No bearer token was present on the request.
    MissingToken,
    /// The token's signature, algorithm, shape, or validity window was wrong.
    /// Deliberately a single kind: callers cannot tell a forged token from an
    /// expired one.
    TokenExpiredOrInvalid,
    /// The token's subject claim does not parse into an identity value.
    MalformedSubject,
    /// The password does not match the stored hash.
    InvalidCredential,
    /// The stored hash string is malformed; signals data corruption, not a
    /// wrong password.
    CorruptHash,
    /// No account exists under the supplied username.
    UnknownUser,
}

/// Failures of input against the stored data.
#[derive(Clone, Copy, PartialEq, Eq, Structural, Debug)]
pub enum ValidationError {
    /// Registration under a username or email that is already taken.
    DuplicateUser,
    /// A batch write violated a uniqueness or referential constraint.
    DuplicateOrInvalid,
    /// A transaction referenced a category that the owner does not have.
    CategoryNotFound,
    /// The addressed row does not exist for the caller; also returned for
    /// rows owned by someone else, so existence is never leaked.
    NotFound,
    /// The addressed category does not exist for the caller.
    CategoryMissing,
    /// The caller's own account row is gone (deleted since the token was
    /// issued).
    UserMissing,
}

/// The single error kind that every operation of the service reports.
#[derive(Clone, Copy, PartialEq, Eq, Structural, Debug)]
pub enum AppError {
    Auth(AuthError),
    Validation(ValidationError),
    /// Connectivity or other unclassified storage fault.
    Storage,
    /// Corrupt hash encountered outside verification, key-parsing failure,
    /// or another unexpected internal fault.
    Internal,
}

impl AppError {
    /// The HTTP status code that this error maps to.
    pub open spec fn spec_status(self) -> u16 {
        match self {
            AppError::Auth(AuthError::MissingToken) => 400,
            AppError::Auth(AuthError::TokenExpiredOrInvalid) => 401,
            AppError::Auth(AuthError::MalformedSubject) => 500,
            AppError::Auth(AuthError::InvalidCredential) => 400,
            AppError::Auth(AuthError::CorruptHash) => 500,
            AppError::Auth(AuthError::UnknownUser) => 400,
            AppError::Validation(ValidationError::DuplicateUser) => 400,
            AppError::Validation(ValidationError::DuplicateOrInvalid) => 400,
            AppError::Validation(ValidationError::CategoryNotFound) => 400,
            AppError::Validation(ValidationError::NotFound) => 404,
            AppError::Validation(ValidationError::CategoryMissing) => 404,
            AppError::Validation(ValidationError::UserMissing) => 400,
            AppError::Storage => 500,
            AppError::Internal => 500,
        }
    }

    /// The one message that this error reports.
    pub open spec fn spec_message(self) -> Seq<char> {
        match self {
            AppError::Auth(AuthError::MissingToken) => "auth bearer token missing!"@,
            AppError::Auth(AuthError::TokenExpiredOrInvalid) => (
                "error decoding token! token might have expired or invalid!"@
            ),
            AppError::Auth(AuthError::MalformedSubject) => "error parsing uuid!"@,
            AppError::Auth(AuthError::InvalidCredential) => "invalid password"@,
            AppError::Auth(AuthError::CorruptHash) => "error parsing hashed password!"@,
            AppError::Auth(AuthError::UnknownUser) => (
                "user not found!, please register and try again"@
            ),
            AppError::Validation(ValidationError::DuplicateUser) => (
                "username or email already exists, try again !"@
            ),
            AppError::Validation(ValidationError::DuplicateOrInvalid) => (
                "duplicate or invalid item in batch!"@
            ),
            AppError::Validation(ValidationError::CategoryNotFound) => "category not found!"@,
            AppError::Validation(ValidationError::NotFound) => "category was not found!"@,
            AppError::Validation(ValidationError::CategoryMissing) => "category not found!"@,
            AppError::Validation(ValidationError::UserMissing) => "User deleted, register again!"@,
            AppError::Storage => "database error!"@,
            AppError::Internal => "server_error"@,
        }
    }

    pub fn status_code(&self) -> (r: u16)
        ensures
            r == self.spec_status(),
    {
        match self {
            AppError::Auth(AuthError::MissingToken) => 400,
            AppError::Auth(AuthError::TokenExpiredOrInvalid) => 401,
            AppError::Auth(AuthError::MalformedSubject) => 500,
            AppError::Auth(AuthError::InvalidCredential) => 400,
            AppError::Auth(AuthError::CorruptHash) => 500,
            AppError::Auth(AuthError::UnknownUser) => 400,
            AppError::Validation(ValidationError::DuplicateUser) => 400,
            AppError::Validation(ValidationError::DuplicateOrInvalid) => 400,
            AppError::Validation(ValidationError::CategoryNotFound) => 400,
            AppError::Validation(ValidationError::NotFound) => 404,
            AppError::Validation(ValidationError::CategoryMissing) => 404,
            AppError::Validation(ValidationError::UserMissing) => 400,
            AppError::Storage => 500,
            AppError::Internal => 500,
        }
    }

    pub fn message(&self) -> (r: String)
        ensures
            r@ == self.spec_message(),
    {
        match self {
            AppError::Auth(AuthError::MissingToken) => "auth bearer token missing!".to_owned(),
            AppError::Auth(AuthError::TokenExpiredOrInvalid) => (
                "error decoding token! token might have expired or invalid!".to_owned()
            ),
            AppError::Auth(AuthError::MalformedSubject) => "error parsing uuid!".to_owned(),
            AppError::Auth(AuthError::InvalidCredential) => "invalid password".to_owned(),
            AppError::Auth(AuthError::CorruptHash) => "error parsing hashed password!".to_owned(),
            AppError::Auth(AuthError::UnknownUser) => (
                "user not found!, please register and try again".to_owned()
            ),
            AppError::Validation(ValidationError::DuplicateUser) => (
                "username or email already exists, try again !".to_owned()
            ),
            AppError::Validation(ValidationError::DuplicateOrInvalid) => (
                "duplicate or invalid item in batch!".to_owned()
            ),
            AppError::Validation(ValidationError::CategoryNotFound) => (
                "category not found!".to_owned()
            ),
            AppError::Validation(ValidationError::NotFound) => "category was not found!".to_owned(),
            AppError::Validation(ValidationError::CategoryMissing) => (
                "category not found!".to_owned()
            ),
            AppError::Validation(ValidationError::UserMissing) => (
                "User deleted, register again!".to_owned()
            ),
            AppError::Storage => "database error!".to_owned(),
            AppError::Internal => "server_error".to_owned(),
        }
    }
}

/// An error as it leaves the service: a status code and a message.
pub struct GlobalAppError {
    pub error_code: u16,
    pub message: String,
}

impl GlobalAppError {
    pub fn new(error_code: u16, message: String) -> (r: GlobalAppError)
        ensures
            r.error_code == error_code,
            r.message == message,
    {
        GlobalAppError { error_code, message }
    }

    /// Renders an [`AppError`] into the status code and message it is
    /// reported with.
    pub fn from_app_error(e: &AppError) -> (r: GlobalAppError)
        ensures
            r.error_code == e.spec_status(),
            r.message@ == e.spec_message(),
    {
        GlobalAppError::new(e.status_code(), e.message())
    }
}

} // verus!
