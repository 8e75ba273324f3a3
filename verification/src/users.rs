//! Account operations: registration, login, profile reads, password change,
//! and account deletion, stated against the store model.

use vstd::prelude::*;

use crate::creds::{fresh_hash_for, hash_password, verify_class, verify_password, PasswordCheck};
use crate::errors::{AppError, AuthError, ValidationError};
use crate::models::{
    LoginResponseUserDetails, LoginUserDetails, Password, PasswordPatch, RegisterUserDetails,
    ResponseUserDetails, UserProfileDetails,
};
use crate::store::{
    cat_keep_not_owner, cat_owned, categories_without_owner, find_user_by_id, find_user_by_name,
    lemma_filter_origin, lemma_filter_pairwise, lemma_filter_pointwise,
    transactions_without_owner, txn_keep_not_owner, user_conflict, user_ix, user_ix_by_name,
    user_keep_not_id, user_with_email, user_with_id, user_with_name, users_without, CategoryRow,
    Store, TransactionRow, UserRow,
};
use crate::token::{create_jwt_at, decoded_of, is_b64_secret, issued_claims, token_of, TOKEN_LIFETIME_SECONDS};
use crate::auth::{subject_string, uuid_str_of};

verus! {

/// Whether a registration under this name and email must be refused: one of
/// the two is already taken.
pub open spec fn register_conflict(s: Store, details: RegisterUserDetails) -> bool {
    user_with_name(s.users@, details.username@) || user_with_email(s.users@, details.email@)
}

/// Creates an account.
///
/// Refuses a username or email that is already taken, creating no row; the
/// only other failure is an internal hashing fault, which likewise leaves
/// the store unchanged.  On success exactly one user row is appended,
/// active, stamped with `now`, carrying a fresh hash of the password, and
/// the response echoes the registered identity with no token.
pub fn register(store: &mut Store, details: RegisterUserDetails, now: i64) -> (r: Result<
    ResponseUserDetails,
    AppError,
>)
    requires
        old(store).wf(),
        old(store).next_user_id < u128::MAX,
    ensures
        final(store).wf(),
        r is Err ==> *final(store) == *old(store),
        r == Err::<ResponseUserDetails, AppError>(
            AppError::Validation(ValidationError::DuplicateUser),
        ) <==> register_conflict(*old(store), details),
        r matches Err(e) ==> (e == AppError::Validation(ValidationError::DuplicateUser) || e
            == AppError::Internal),
        r is Ok ==> {
            let u = final(store).users@.last();
            &&& final(store).users@ == old(store).users@.push(u)
            &&& u.id == old(store).next_user_id
            &&& u.name@ == details.username@
            &&& u.email@ == details.email@
            &&& fresh_hash_for(details.password@, u.password_hash@)
            &&& u.is_active == true
            &&& u.created_at == now
            &&& u.updated_at == now
            &&& final(store).next_user_id == old(store).next_user_id + 1
            &&& final(store).categories == old(store).categories
            &&& final(store).transactions == old(store).transactions
            &&& final(store).next_category_id == old(store).next_category_id
            &&& final(store).next_transaction_id == old(store).next_transaction_id
        },
        r matches Ok(resp) ==> resp.username@ == details.username@ && resp.email@ == details.email@
            && resp.token is None && resp.log_message@ == "User successfully registered"@,
{
    let RegisterUserDetails { username, email, password } = details;
    if user_conflict(store, &username, &email) {
        return Err(AppError::Validation(ValidationError::DuplicateUser));
    }
    let password_hash = match hash_password(password) {
        Ok(h) => h,
        Err(e) => {
            return Err(e);
        },
    };
    let row = UserRow {
        id: store.next_user_id,
        name: username.clone(),
        email: email.clone(),
        password_hash,
        is_active: true,
        created_at: now,
        updated_at: now,
    };
    store.users.push(row);
    store.next_user_id = store.next_user_id + 1;
    proof {
        assert forall|i: int| 0 <= i < store.categories@.len() implies user_with_id(
            store.users@,
            #[trigger] store.categories@[i].owner_id,
        ) by {
            let k = user_ix(old(store).users@, store.categories@[i].owner_id);
            assert(store.users@[k].id == store.categories@[i].owner_id);
        }
    }
    Ok(
        ResponseUserDetails {
            username,
            email,
            log_message: "User successfully registered".to_owned(),
            token: None,
        },
    )
}

/// Checks credentials and issues a token.
///
/// An unknown username, a failing password check, and an unusable signing
/// key each answer their own error and nothing else; success returns a
/// token issued for the user's identity at `now`, expiring one hour later.
pub fn login(store: &Store, details: LoginUserDetails, hmac_key: &String, now: i64) -> (r: Result<
    LoginResponseUserDetails,
    AppError,
>)
    requires
        store.wf(),
        0 <= now,
        now + TOKEN_LIFETIME_SECONDS <= i64::MAX,
    ensures
        !user_with_name(store.users@, details.username@) ==> r == Err::<
            LoginResponseUserDetails,
            AppError,
        >(AppError::Auth(AuthError::UnknownUser)),
        user_with_name(store.users@, details.username@) ==> {
            let u = store.users@[user_ix_by_name(store.users@, details.username@)];
            &&& verify_class(details.password@, u.password_hash@) == PasswordCheck::Mismatch ==> r
                == Err::<LoginResponseUserDetails, AppError>(
                AppError::Auth(AuthError::InvalidCredential),
            )
            &&& verify_class(details.password@, u.password_hash@) == PasswordCheck::Corrupt ==> r
                == Err::<LoginResponseUserDetails, AppError>(AppError::Auth(AuthError::CorruptHash))
            &&& verify_class(details.password@, u.password_hash@) == PasswordCheck::Fault ==> r
                == Err::<LoginResponseUserDetails, AppError>(AppError::Internal)
            &&& (verify_class(details.password@, u.password_hash@) == PasswordCheck::Match
                && !is_b64_secret(hmac_key@)) ==> r == Err::<LoginResponseUserDetails, AppError>(
                AppError::Internal,
            )
        },
        r is Ok <==> (user_with_name(store.users@, details.username@) && verify_class(
            details.password@,
            store.users@[user_ix_by_name(store.users@, details.username@)].password_hash@,
        ) == PasswordCheck::Match && is_b64_secret(hmac_key@)),
        r matches Ok(resp) ==> {
            let u = store.users@[user_ix_by_name(store.users@, details.username@)];
            &&& resp.username@ == details.username@
            &&& resp.log_message@ == "successfully logged in!, jwt token expires in 1 hour"@
            &&& resp.token matches Some(t) && t@ == token_of(
                issued_claims(uuid_str_of(u.id), now as int),
                hmac_key@,
            ) && decoded_of(t@, hmac_key@) == Some(issued_claims(uuid_str_of(u.id), now as int))
        },
{
    let ix = match find_user_by_name(store, &details.username) {
        None => {
            return Err(AppError::Auth(AuthError::UnknownUser));
        },
        Some(ix) => ix,
    };
    proof {
        let k = user_ix_by_name(store.users@, details.username@);
        assert(store.users@[k].name@ == details.username@);
        assert(k == ix as int);
    }
    match verify_password(details.password, store.users[ix].password_hash.clone()) {
        Ok(()) => {},
        Err(e) => {
            return Err(e);
        },
    }
    let subject = subject_string(store.users[ix].id);
    let token = match create_jwt_at(subject.as_str(), hmac_key.as_str(), now) {
        Ok(t) => t,
        Err(e) => {
            return Err(e);
        },
    };
    Ok(
        LoginResponseUserDetails {
            username: details.username,
            log_message: "successfully logged in!, jwt token expires in 1 hour".to_owned(),
            token: Some(token),
        },
    )
}

/// Reads the caller's own profile.  Succeeds exactly when the caller's row
/// exists, and never exposes the stored credential; a missing row is a
/// storage fault, as a just-authenticated caller should still exist.
pub fn my_profile(store: &Store, id: u128) -> (r: Result<UserProfileDetails, AppError>)
    requires
        store.wf(),
    ensures
        r is Ok <==> user_with_id(store.users@, id),
        !user_with_id(store.users@, id) ==> r == Err::<UserProfileDetails, AppError>(
            AppError::Storage,
        ),
        r matches Ok(p) ==> {
            let u = store.users@[user_ix(store.users@, id)];
            &&& p.id == u.id
            &&& p.name@ == u.name@
            &&& p.email@ == u.email@
            &&& p.created_at == u.created_at
            &&& p.updated_at == u.updated_at
            &&& p.is_active == u.is_active
        },
{
    let ix = match find_user_by_id(store, id) {
        None => {
            return Err(AppError::Storage);
        },
        Some(ix) => ix,
    };
    proof {
        let k = user_ix(store.users@, id);
        assert(store.users@[k].id == id);
        assert(k == ix as int);
    }
    Ok(
        UserProfileDetails {
            id: store.users[ix].id,
            name: store.users[ix].name.clone(),
            created_at: store.users[ix].created_at,
            updated_at: store.users[ix].updated_at,
            email: store.users[ix].email.clone(),
            is_active: store.users[ix].is_active,
        },
    )
}

/// Changes the caller's password.
///
/// The current password must verify against the stored hash; the errors are
/// those of verification, a missing row being a storage fault.  On success
/// only the caller's row changes: it carries a fresh hash of the new
/// password and is re-stamped with `now`.
pub fn update_password(store: &mut Store, id: u128, patch_password: PasswordPatch, now: i64) -> (r:
    Result<String, AppError>)
    requires
        old(store).wf(),
    ensures
        final(store).wf(),
        r is Err ==> *final(store) == *old(store),
        r == Err::<String, AppError>(AppError::Storage) <==> !user_with_id(
            old(store).users@,
            id,
        ),
        user_with_id(old(store).users@, id) ==> {
            let u = old(store).users@[user_ix(old(store).users@, id)];
            &&& verify_class(patch_password.old_password@, u.password_hash@)
                == PasswordCheck::Mismatch ==> r == Err::<String, AppError>(
                AppError::Auth(AuthError::InvalidCredential),
            )
            &&& verify_class(patch_password.old_password@, u.password_hash@)
                == PasswordCheck::Corrupt ==> r == Err::<String, AppError>(
                AppError::Auth(AuthError::CorruptHash),
            )
            &&& verify_class(patch_password.old_password@, u.password_hash@)
                == PasswordCheck::Fault ==> r == Err::<String, AppError>(AppError::Internal)
            &&& verify_class(patch_password.old_password@, u.password_hash@)
                == PasswordCheck::Match ==> (r is Ok || r == Err::<String, AppError>(
                AppError::Internal,
            ))
        },
        r matches Err(e) ==> (e == AppError::Storage || e == AppError::Auth(
            AuthError::InvalidCredential,
        ) || e == AppError::Auth(AuthError::CorruptHash) || e == AppError::Internal),
        r is Ok ==> user_with_id(old(store).users@, id) && verify_class(
            patch_password.old_password@,
            old(store).users@[user_ix(old(store).users@, id)].password_hash@,
        ) == PasswordCheck::Match,
        r is Ok ==> {
            let ix = user_ix(old(store).users@, id);
            let u = old(store).users@[ix];
            let v = final(store).users@[ix];
            &&& final(store).users@.len() == old(store).users@.len()
            &&& forall|k: int|
                0 <= k < old(store).users@.len() && k != ix ==> final(store).users@[k] == old(
                    store,
                ).users@[k]
            &&& v.id == u.id
            &&& v.name@ == u.name@
            &&& v.email@ == u.email@
            &&& v.is_active == u.is_active
            &&& v.created_at == u.created_at
            &&& fresh_hash_for(patch_password.new_password@, v.password_hash@)
            &&& v.updated_at == now
            &&& final(store).categories == old(store).categories
            &&& final(store).transactions == old(store).transactions
            &&& final(store).next_user_id == old(store).next_user_id
            &&& final(store).next_category_id == old(store).next_category_id
            &&& final(store).next_transaction_id == old(store).next_transaction_id
        },
        r matches Ok(m) ==> m@ == "Password updated successfully!"@,
{
    let ix = match find_user_by_id(store, id) {
        None => {
            return Err(AppError::Storage);
        },
        Some(ix) => ix,
    };
    proof {
        let k = user_ix(store.users@, id);
        assert(store.users@[k].id == id);
        assert(k == ix as int);
    }
    match verify_password(patch_password.old_password, store.users[ix].password_hash.clone()) {
        Ok(()) => {},
        Err(e) => {
            return Err(e);
        },
    }
    let new_hash = match hash_password(patch_password.new_password) {
        Ok(h) => h,
        Err(e) => {
            return Err(e);
        },
    };
    store.users[ix].password_hash = new_hash;
    store.users[ix].updated_at = now;
    proof {
        assert forall|i: int| 0 <= i < store.categories@.len() implies user_with_id(
            store.users@,
            #[trigger] store.categories@[i].owner_id,
        ) by {
            let k = user_ix(old(store).users@, store.categories@[i].owner_id);
            assert(store.users@[k].id == store.categories@[i].owner_id);
        }
    }
    Ok("Password updated successfully!".to_owned())
}

/// Deletes the caller's account, after the password confirms it.
///
/// A missing row answers its own kind; the other failures are those of
/// verification.  On success the caller's row is deleted, and every
/// category and transaction they owned goes with it; nothing else changes.
pub fn delete_user(store: &mut Store, id: u128, user_password: Password) -> (r: Result<
    String,
    AppError,
>)
    requires
        old(store).wf(),
    ensures
        final(store).wf(),
        r is Err ==> *final(store) == *old(store),
        r == Err::<String, AppError>(AppError::Validation(ValidationError::UserMissing))
            <==> !user_with_id(old(store).users@, id),
        user_with_id(old(store).users@, id) ==> {
            let u = old(store).users@[user_ix(old(store).users@, id)];
            &&& verify_class(user_password.password@, u.password_hash@) == PasswordCheck::Mismatch
                ==> r == Err::<String, AppError>(AppError::Auth(AuthError::InvalidCredential))
            &&& verify_class(user_password.password@, u.password_hash@) == PasswordCheck::Corrupt
                ==> r == Err::<String, AppError>(AppError::Auth(AuthError::CorruptHash))
            &&& verify_class(user_password.password@, u.password_hash@) == PasswordCheck::Fault
                ==> r == Err::<String, AppError>(AppError::Internal)
        },
        r is Ok <==> (user_with_id(old(store).users@, id) && verify_class(
            user_password.password@,
            old(store).users@[user_ix(old(store).users@, id)].password_hash@,
        ) == PasswordCheck::Match),
        r is Ok ==> {
            &&& final(store).users@ == old(store).users@.filter(user_keep_not_id(id))
            &&& final(store).categories@ == old(store).categories@.filter(cat_keep_not_owner(id))
            &&& final(store).transactions@ == old(store).transactions@.filter(
                txn_keep_not_owner(id),
            )
            &&& final(store).next_user_id == old(store).next_user_id
            &&& final(store).next_category_id == old(store).next_category_id
            &&& final(store).next_transaction_id == old(store).next_transaction_id
        },
        r matches Ok(m) ==> m@ == "User deleted successfully!"@,
{
    let ix = match find_user_by_id(store, id) {
        None => {
            return Err(AppError::Validation(ValidationError::UserMissing));
        },
        Some(ix) => ix,
    };
    proof {
        let k = user_ix(store.users@, id);
        assert(store.users@[k].id == id);
        assert(k == ix as int);
    }
    match verify_password(user_password.password, store.users[ix].password_hash.clone()) {
        Ok(()) => {},
        Err(e) => {
            return Err(e);
        },
    }
    let new_users = users_without(&store.users, id);
    let new_categories = categories_without_owner(&store.categories, id);
    let new_transactions = transactions_without_owner(&store.transactions, id);
    store.users = new_users;
    store.categories = new_categories;
    store.transactions = new_transactions;
    proof {
        lemma_delete_user_wf(*old(store), *store, id);
    }
    Ok("User deleted successfully!".to_owned())
}

/// Deleting a user and everything they own preserves the store's
/// well-formedness.
proof fn lemma_delete_user_wf(s0: Store, s1: Store, id: u128)
    requires
        s0.wf(),
        s1.users@ == s0.users@.filter(user_keep_not_id(id)),
        s1.categories@ == s0.categories@.filter(cat_keep_not_owner(id)),
        s1.transactions@ == s0.transactions@.filter(txn_keep_not_owner(id)),
        s1.next_user_id == s0.next_user_id,
        s1.next_category_id == s0.next_category_id,
        s1.next_transaction_id == s0.next_transaction_id,
    ensures
        s1.wf(),
{
    let up = user_keep_not_id(id);
    let cp = cat_keep_not_owner(id);
    let tp = txn_keep_not_owner(id);
    lemma_filter_pairwise(
        s0.users@,
        up,
        |a: UserRow, b: UserRow| a.id != b.id && a.name@ != b.name@ && a.email@ != b.email@,
    );
    lemma_filter_pointwise(s0.users@, up, |u: UserRow| u.id < s0.next_user_id);
    lemma_filter_pairwise(
        s0.categories@,
        cp,
        |a: CategoryRow, b: CategoryRow|
            a.id != b.id && !(a.owner_id == b.owner_id && a.slug@ == b.slug@),
    );
    lemma_filter_pointwise(s0.categories@, cp, |c: CategoryRow| c.id < s0.next_category_id);
    lemma_filter_pairwise(
        s0.transactions@,
        tp,
        |a: TransactionRow, b: TransactionRow| a.id != b.id,
    );
    lemma_filter_pointwise(s0.transactions@, tp, |t: TransactionRow| t.id < s0.next_transaction_id);
    assert forall|i: int| 0 <= i < s1.categories@.len() implies user_with_id(
        s1.users@,
        #[trigger] s1.categories@[i].owner_id,
    ) by {
        lemma_filter_origin(s0.categories@, cp, i);
        let k = choose|k: int|
            0 <= k < s0.categories@.len() && s0.categories@[k] == s1.categories@[i];
        let owner = s1.categories@[i].owner_id;
        assert(user_with_id(s0.users@, owner));
        let m = choose|m: int| 0 <= m < s0.users@.len() && s0.users@[m].id == owner;
        assert(owner != id);
        s0.users@.lemma_filter_contains(up, m);
        assert(s1.users@.contains(s0.users@[m]));
        let w = choose|w: int| 0 <= w < s1.users@.len() && s1.users@[w] == s0.users@[m];
        assert(s1.users@[w].id == owner);
    }
    assert forall|i: int| 0 <= i < s1.transactions@.len() implies cat_owned(
        s1.categories@,
        #[trigger] s1.transactions@[i].owner_id,
        s1.transactions@[i].category_id,
    ) by {
        lemma_filter_origin(s0.transactions@, tp, i);
        let k = choose|k: int|
            0 <= k < s0.transactions@.len() && s0.transactions@[k] == s1.transactions@[i];
        let owner = s1.transactions@[i].owner_id;
        let cid = s1.transactions@[i].category_id;
        assert(cat_owned(s0.categories@, owner, cid));
        let m = choose|m: int|
            0 <= m < s0.categories@.len() && s0.categories@[m].id == cid
                && s0.categories@[m].owner_id == owner;
        assert(owner != id);
        s0.categories@.lemma_filter_contains(cp, m);
        assert(s1.categories@.contains(s0.categories@[m]));
        let w = choose|w: int| 0 <= w < s1.categories@.len() && s1.categories@[w]
            == s0.categories@[m];
        assert(s1.categories@[w].id == cid && s1.categories@[w].owner_id == owner);
    }
}

} // verus!
