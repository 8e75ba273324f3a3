use expense_tracker_backend::creds::{hash_password, verify_password};
use expense_tracker_backend::errors::{AppError, AuthError, GlobalAppError};

#[test]
fn hash_then_verify_same_password_ok() {
    let hash = hash_password("hunter2".to_string()).expect("hashing should succeed");
    assert!(verify_password("hunter2".to_string(), hash).is_ok());
}

#[test]
fn verify_with_other_password_mismatches() {
    let hash = hash_password("hunter2".to_string()).expect("hashing should succeed");
    let r = verify_password("hunter3".to_string(), hash);
    assert_eq!(r, Err(AppError::Auth(AuthError::InvalidCredential)));
}

#[test]
fn two_hashes_of_one_password_both_verify() {
    let h1 = hash_password("correct horse battery staple".to_string()).unwrap();
    let h2 = hash_password("correct horse battery staple".to_string()).unwrap();
    // fresh random salts make the encodings differ, yet both verify
    assert_ne!(h1, h2);
    assert!(verify_password("correct horse battery staple".to_string(), h1).is_ok());
    assert!(verify_password("correct horse battery staple".to_string(), h2).is_ok());
}

#[test]
fn corrupt_hash_reports_corruption_not_mismatch() {
    let r = verify_password("hunter2".to_string(), "not-a-phc-string".to_string());
    assert_eq!(r, Err(AppError::Auth(AuthError::CorruptHash)));
}

#[test]
fn credential_errors_render_with_their_codes() {
    let mismatch = GlobalAppError::from_app_error(&AppError::Auth(AuthError::InvalidCredential));
    assert_eq!(mismatch.error_code, 400);
    assert_eq!(mismatch.message, "invalid password");
    let corrupt = GlobalAppError::from_app_error(&AppError::Auth(AuthError::CorruptHash));
    assert_eq!(corrupt.error_code, 500);
    assert_eq!(corrupt.message, "error parsing hashed password!");
    let internal = GlobalAppError::from_app_error(&AppError::Internal);
    assert_eq!(internal.error_code, 500);
    assert_eq!(internal.message, "server_error");
}
