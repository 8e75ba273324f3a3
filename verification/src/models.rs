//! The request and response shapes of the service.
//!
//! Identities are the 128-bit values of the UUIDs the store keys rows by,
//! instants are second counts since the epoch, and money is an exact decimal
//! held as an integer mantissa with a decimal scale.

use vstd::prelude::*;

verus! {

/// Whether a category records spending or income.
#[derive(Clone, Copy, PartialEq, Eq, Structural, Debug)]
pub enum CategoryType {
    Expense,
    Income,
}

/// An exact decimal amount: `mantissa / 10^scale`.
#[derive(Clone, Copy, PartialEq, Eq, Structural, Debug)]
pub struct Amount {
    pub mantissa: i128,
    pub scale: u32,
}

/// The body of a registration request.
pub struct RegisterUserDetails {
    pub username: String,
    pub email: String,
    pub password: String,
}

/// The body of a login request.
pub struct LoginUserDetails {
    pub username: String,
    pub password: String,
}

/// The response to a successful registration.
pub struct ResponseUserDetails {
    pub username: String,
    pub email: String,
    pub log_message: String,
    pub token: Option<String>,
}

/// The response to a successful login.
pub struct LoginResponseUserDetails {
    pub username: String,
    pub log_message: String,
    pub token: Option<String>,
}

/// A user's name and email, as read back for a uniqueness check.
pub struct UserDetailRow {
    pub name: String,
    pub email: String,
}

/// A user's identity and stored credential, as read back for a login.
pub struct UserPasswordRow {
    pub id: u128,
    pub name: String,
    pub password_hash: String,
}

/// A caller's own profile.  The stored credential is deliberately absent:
/// a password hash is never serialized outward.
pub struct UserProfileDetails {
    pub id: u128,
    pub name: String,
    pub created_at: i64,
    pub updated_at: i64,
    pub email: String,
    pub is_active: bool,
}

/// The body of a password change: the current password and the new one.
pub struct PasswordPatch {
    pub old_password: String,
    pub new_password: String,
}

/// A bare password, confirming an account deletion.
pub struct Password {
    pub password: String,
}

/// A stored credential on its own.
pub struct HashPassword {
    pub password_hash: String,
}

/// One category to create in a batch.
pub struct CreateCategoryDetails {
    pub name: String,
    pub category_type: CategoryType,
    pub is_savings: bool,
}

/// A caller's category, as listed back to them.
pub struct GetUserCategories {
    pub id: u128,
    pub name: String,
    pub created_at: i64,
    pub category_type: CategoryType,
    pub is_savings: bool,
}

/// A partial change to a category.
pub struct PatchUserCategories {
    pub name: Option<String>,
    pub category_type: Option<CategoryType>,
    pub is_savings: Option<bool>,
}

/// One transaction to record in a batch; the category is referenced by its
/// human-readable name and resolved by slug.
pub struct TransactionRequest {
    pub category: String,
    pub description: Option<String>,
    pub transaction_date: i64,
    pub amount: Amount,
}

/// A resolved category reference.
pub struct GetCategoryId {
    pub id: u128,
}

/// A caller's transaction joined with the category it was logged against.
pub struct TransactionInfo {
    pub id: u128,
    pub description: Option<String>,
    pub amount: Amount,
    pub transaction_date: i64,
    pub category_data: GetUserCategories,
}

} // verus!
