use expense_tracker_backend::categories::create_category;
use expense_tracker_backend::errors::{AppError, AuthError, ValidationError};
use expense_tracker_backend::models::{Amount, CategoryType, CreateCategoryDetails, TransactionRequest};
use expense_tracker_backend::transactions::add_transactions;
use expense_tracker_backend::models::{
    LoginUserDetails, Password, PasswordPatch, RegisterUserDetails,
};
use expense_tracker_backend::store::Store;
use expense_tracker_backend::users::{
    delete_user, login, my_profile, register, update_password,
};

const KEY: &str = "c2VjcmV0";

fn details(username: &str, email: &str, password: &str) -> RegisterUserDetails {
    RegisterUserDetails {
        username: username.to_string(),
        email: email.to_string(),
        password: password.to_string(),
    }
}

#[test]
fn register_creates_one_active_row_and_echoes_identity() {
    let mut store = Store::new();
    let resp = register(&mut store, details("alice", "alice@example.com", "pw1"), 500)
        .expect("registration should succeed");
    assert_eq!(resp.username, "alice");
    assert_eq!(resp.email, "alice@example.com");
    assert_eq!(resp.log_message, "User successfully registered");
    assert!(resp.token.is_none());
    assert_eq!(store.users.len(), 1);
    assert!(store.users[0].is_active);
    assert_eq!(store.users[0].created_at, 500);
}

#[test]
fn duplicate_username_or_email_fails_and_creates_no_row() {
    let mut store = Store::new();
    register(&mut store, details("alice", "alice@example.com", "pw1"), 500).unwrap();
    let r = register(&mut store, details("alice", "other@example.com", "pw2"), 600);
    assert_eq!(r.err(), Some(AppError::Validation(ValidationError::DuplicateUser)));
    let r = register(&mut store, details("bob", "alice@example.com", "pw2"), 700);
    assert_eq!(r.err(), Some(AppError::Validation(ValidationError::DuplicateUser)));
    assert_eq!(store.users.len(), 1);
}

#[test]
fn login_issues_a_token_for_the_right_password() {
    let mut store = Store::new();
    register(&mut store, details("alice", "alice@example.com", "pw1"), 500).unwrap();
    let resp = login(
        &store,
        LoginUserDetails { username: "alice".to_string(), password: "pw1".to_string() },
        &KEY.to_string(),
        1000,
    )
    .expect("login should succeed");
    assert_eq!(resp.username, "alice");
    assert_eq!(resp.log_message, "successfully logged in!, jwt token expires in 1 hour");
    assert!(resp.token.is_some());
}

#[test]
fn login_rejects_unknown_users_and_wrong_passwords() {
    let mut store = Store::new();
    register(&mut store, details("alice", "alice@example.com", "pw1"), 500).unwrap();
    let r = login(
        &store,
        LoginUserDetails { username: "mallory".to_string(), password: "pw1".to_string() },
        &KEY.to_string(),
        1000,
    );
    assert_eq!(r.err(), Some(AppError::Auth(AuthError::UnknownUser)));
    let r = login(
        &store,
        LoginUserDetails { username: "alice".to_string(), password: "wrong".to_string() },
        &KEY.to_string(),
        1000,
    );
    assert_eq!(r.err(), Some(AppError::Auth(AuthError::InvalidCredential)));
}

#[test]
fn my_profile_reads_the_row_without_the_credential() {
    let mut store = Store::new();
    register(&mut store, details("alice", "alice@example.com", "pw1"), 500).unwrap();
    let id = store.users[0].id;
    let profile = my_profile(&store, id).expect("profile should resolve");
    assert_eq!(profile.id, id);
    assert_eq!(profile.name, "alice");
    assert_eq!(profile.email, "alice@example.com");
    assert_eq!(profile.created_at, 500);
    assert_eq!(profile.updated_at, 500);
    assert!(profile.is_active);
    let missing = my_profile(&store, id + 1);
    assert_eq!(missing.err(), Some(AppError::Storage));
}

#[test]
fn update_password_requires_the_current_one() {
    let mut store = Store::new();
    register(&mut store, details("alice", "alice@example.com", "pw1"), 500).unwrap();
    let id = store.users[0].id;
    let r = update_password(
        &mut store,
        id,
        PasswordPatch { old_password: "bad".to_string(), new_password: "pw2".to_string() },
        900,
    );
    assert_eq!(r.err(), Some(AppError::Auth(AuthError::InvalidCredential)));
    let m = update_password(
        &mut store,
        id,
        PasswordPatch { old_password: "pw1".to_string(), new_password: "pw2".to_string() },
        900,
    )
    .expect("change should succeed");
    assert_eq!(m, "Password updated successfully!");
    assert_eq!(store.users[0].updated_at, 900);
    // the old password no longer logs in; the new one does
    let r = login(
        &store,
        LoginUserDetails { username: "alice".to_string(), password: "pw1".to_string() },
        &KEY.to_string(),
        1000,
    );
    assert_eq!(r.err(), Some(AppError::Auth(AuthError::InvalidCredential)));
    assert!(login(
        &store,
        LoginUserDetails { username: "alice".to_string(), password: "pw2".to_string() },
        &KEY.to_string(),
        1000,
    )
    .is_ok());
}

#[test]
fn delete_user_requires_the_password_and_cascades() {
    let mut store = Store::new();
    register(&mut store, details("alice", "alice@example.com", "pw1"), 500).unwrap();
    let id = store.users[0].id;
    create_category(
        &mut store,
        id,
        vec![CreateCategoryDetails {
            name: "Food".to_string(),
            category_type: CategoryType::Expense,
            is_savings: false,
        }],
        600,
    )
    .unwrap();
    add_transactions(
        &mut store,
        id,
        vec![TransactionRequest {
            category: "Food".to_string(),
            description: None,
            transaction_date: 650,
            amount: Amount { mantissa: 500, scale: 2 },
        }],
        700,
    )
    .unwrap();

    let r = delete_user(&mut store, id, Password { password: "wrong".to_string() });
    assert_eq!(r.err(), Some(AppError::Auth(AuthError::InvalidCredential)));
    assert_eq!(store.users.len(), 1);
    assert_eq!(store.categories.len(), 1);
    assert_eq!(store.transactions.len(), 1);

    let m = delete_user(&mut store, id, Password { password: "pw1".to_string() })
        .expect("deletion should succeed");
    assert_eq!(m, "User deleted successfully!");
    assert_eq!(store.users.len(), 0);
    assert_eq!(store.categories.len(), 0);
    assert_eq!(store.transactions.len(), 0);

    let r = delete_user(&mut store, id, Password { password: "pw1".to_string() });
    assert_eq!(r.err(), Some(AppError::Validation(ValidationError::UserMissing)));
}
