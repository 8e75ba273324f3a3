use expense_tracker_backend::categories::{
    create_category, delete_category, display_category, list_categories,
};
use expense_tracker_backend::errors::{AppError, GlobalAppError, ValidationError};
use expense_tracker_backend::models::{
    Amount, CategoryType, CreateCategoryDetails, RegisterUserDetails, TransactionRequest,
};
use expense_tracker_backend::store::Store;
use expense_tracker_backend::transactions::{add_transactions, list_transactions};
use expense_tracker_backend::users::register;

fn store_with_user(username: &str) -> (Store, u128) {
    let mut store = Store::new();
    register(
        &mut store,
        RegisterUserDetails {
            username: username.to_string(),
            email: format!("{}@example.com", username),
            password: "pw".to_string(),
        },
        100,
    )
    .unwrap();
    let id = store.users[store.users.len() - 1].id;
    (store, id)
}

fn category(name: &str) -> CreateCategoryDetails {
    CreateCategoryDetails {
        name: name.to_string(),
        category_type: CategoryType::Expense,
        is_savings: false,
    }
}

fn transaction(category: &str, mantissa: i128, scale: u32) -> TransactionRequest {
    TransactionRequest {
        category: category.to_string(),
        description: None,
        transaction_date: 400,
        amount: Amount { mantissa, scale },
    }
}

#[test]
fn duplicate_names_fail_the_whole_category_batch() {
    let (mut store, id) = store_with_user("alice");
    let r = create_category(&mut store, id, vec![category("Food"), category("Food")], 200);
    assert_eq!(r.err(), Some(AppError::Validation(ValidationError::DuplicateOrInvalid)));
    assert_eq!(store.categories.len(), 0);
}

#[test]
fn a_taken_slug_fails_the_whole_batch_and_keeps_prior_rows_only() {
    let (mut store, id) = store_with_user("alice");
    create_category(&mut store, id, vec![category("Food")], 200).unwrap();
    let r = create_category(&mut store, id, vec![category("Groceries"), category("Food")], 300);
    assert_eq!(r.err(), Some(AppError::Validation(ValidationError::DuplicateOrInvalid)));
    assert_eq!(store.categories.len(), 1);
    assert_eq!(store.categories[0].name, "Food");
}

#[test]
fn names_that_normalize_alike_collide() {
    let (mut store, id) = store_with_user("alice");
    let r = create_category(&mut store, id, vec![category("My Food"), category("my-food")], 200);
    assert_eq!(r.err(), Some(AppError::Validation(ValidationError::DuplicateOrInvalid)));
    assert_eq!(store.categories.len(), 0);
}

#[test]
fn two_users_may_share_a_category_name() {
    let (mut store, alice) = store_with_user("alice");
    register(
        &mut store,
        RegisterUserDetails {
            username: "bob".to_string(),
            email: "bob@example.com".to_string(),
            password: "pw".to_string(),
        },
        150,
    )
    .unwrap();
    let bob = store.users[1].id;
    create_category(&mut store, alice, vec![category("Food")], 200).unwrap();
    create_category(&mut store, bob, vec![category("Food")], 250).unwrap();
    assert_eq!(store.categories.len(), 2);
}

#[test]
fn an_empty_batch_succeeds_and_writes_nothing() {
    let (mut store, id) = store_with_user("alice");
    let m = create_category(&mut store, id, vec![], 200).unwrap();
    assert_eq!(m, "Categories inserted successfully!");
    assert_eq!(store.categories.len(), 0);
    let m = add_transactions(&mut store, id, vec![], 200).unwrap();
    assert_eq!(m, "Expenses updated successfully!");
    assert_eq!(store.transactions.len(), 0);
}

#[test]
fn category_batch_persists_every_item_in_order() {
    let (mut store, id) = store_with_user("alice");
    let m = create_category(
        &mut store,
        id,
        vec![category("Food"), category("Rent"), category("Fun Money")],
        200,
    )
    .unwrap();
    assert_eq!(m, "Categories inserted successfully!");
    assert_eq!(store.categories.len(), 3);
    assert_eq!(store.categories[0].slug, "food");
    assert_eq!(store.categories[1].slug, "rent");
    assert_eq!(store.categories[2].slug, "fun-money");
    assert!(store.categories.iter().all(|c| c.owner_id == id && c.created_at == 200));
}

#[test]
fn one_unresolvable_reference_fails_the_whole_transaction_batch() {
    let (mut store, id) = store_with_user("alice");
    create_category(&mut store, id, vec![category("Food")], 200).unwrap();
    let r = add_transactions(
        &mut store,
        id,
        vec![transaction("Food", 1250, 2), transaction("Nonexistent", 5, 0)],
        300,
    );
    assert_eq!(r.err(), Some(AppError::Validation(ValidationError::CategoryNotFound)));
    assert_eq!(store.transactions.len(), 0);
    let rendered =
        GlobalAppError::from_app_error(&AppError::Validation(ValidationError::CategoryNotFound));
    assert_eq!(rendered.error_code, 400);
    assert_eq!(rendered.message, "category not found!");
}

#[test]
fn transaction_references_resolve_by_normalized_name() {
    let (mut store, id) = store_with_user("alice");
    create_category(&mut store, id, vec![category("Food Stuff")], 200).unwrap();
    let m = add_transactions(&mut store, id, vec![transaction("food STUFF", 1250, 2)], 300)
        .unwrap();
    assert_eq!(m, "Expenses updated successfully!");
    assert_eq!(store.transactions.len(), 1);
    assert_eq!(store.transactions[0].category_id, store.categories[0].id);
    assert_eq!(store.transactions[0].owner_id, id);
    assert_eq!(store.transactions[0].amount, Amount { mantissa: 1250, scale: 2 });
}

#[test]
fn a_cross_owner_reference_does_not_resolve() {
    let (mut store, alice) = store_with_user("alice");
    register(
        &mut store,
        RegisterUserDetails {
            username: "bob".to_string(),
            email: "bob@example.com".to_string(),
            password: "pw".to_string(),
        },
        150,
    )
    .unwrap();
    let bob = store.users[1].id;
    create_category(&mut store, alice, vec![category("Food")], 200).unwrap();
    let r = add_transactions(&mut store, bob, vec![transaction("Food", 5, 0)], 300);
    assert_eq!(r.err(), Some(AppError::Validation(ValidationError::CategoryNotFound)));
    assert_eq!(store.transactions.len(), 0);
}

#[test]
fn listing_returns_the_callers_categories_only() {
    let (mut store, alice) = store_with_user("alice");
    register(
        &mut store,
        RegisterUserDetails {
            username: "bob".to_string(),
            email: "bob@example.com".to_string(),
            password: "pw".to_string(),
        },
        150,
    )
    .unwrap();
    let bob = store.users[1].id;
    create_category(&mut store, alice, vec![category("Food"), category("Rent")], 200).unwrap();
    create_category(&mut store, bob, vec![category("Travel")], 250).unwrap();
    let listed = list_categories(&store, alice);
    assert_eq!(listed.len(), 2);
    assert_eq!(listed[0].name, "Food");
    assert_eq!(listed[1].name, "Rent");
    let listed = list_categories(&store, bob);
    assert_eq!(listed.len(), 1);
    assert_eq!(listed[0].name, "Travel");
}

#[test]
fn display_category_shows_own_rows_and_hides_foreign_ones() {
    let (mut store, alice) = store_with_user("alice");
    register(
        &mut store,
        RegisterUserDetails {
            username: "bob".to_string(),
            email: "bob@example.com".to_string(),
            password: "pw".to_string(),
        },
        150,
    )
    .unwrap();
    let bob = store.users[1].id;
    create_category(&mut store, alice, vec![category("Food")], 200).unwrap();
    let cat_id = store.categories[0].id;
    let shown = display_category(&store, alice, cat_id).expect("owner sees the row");
    assert_eq!(shown.id, cat_id);
    assert_eq!(shown.name, "Food");
    assert_eq!(shown.created_at, 200);
    let hidden = display_category(&store, bob, cat_id);
    assert_eq!(hidden.err(), Some(AppError::Validation(ValidationError::CategoryMissing)));
}

#[test]
fn deleting_a_foreign_category_answers_the_same_not_found_as_an_absent_one() {
    let (mut store, alice) = store_with_user("alice");
    register(
        &mut store,
        RegisterUserDetails {
            username: "bob".to_string(),
            email: "bob@example.com".to_string(),
            password: "pw".to_string(),
        },
        150,
    )
    .unwrap();
    let bob = store.users[1].id;
    create_category(&mut store, alice, vec![category("Food")], 200).unwrap();
    let cat_id = store.categories[0].id;

    let foreign = delete_category(&mut store, bob, cat_id);
    let absent = delete_category(&mut store, bob, cat_id + 1000);
    assert_eq!(foreign, absent);
    assert_eq!(foreign.err(), Some(AppError::Validation(ValidationError::NotFound)));
    let rendered = GlobalAppError::from_app_error(&AppError::Validation(ValidationError::NotFound));
    assert_eq!(rendered.error_code, 404);
    assert_eq!(rendered.message, "category was not found!");
    // nothing was deleted
    assert_eq!(store.categories.len(), 1);
}

#[test]
fn deleting_a_referenced_category_is_refused() {
    let (mut store, id) = store_with_user("alice");
    create_category(&mut store, id, vec![category("Food")], 200).unwrap();
    add_transactions(&mut store, id, vec![transaction("Food", 1250, 2)], 300).unwrap();
    let food_id = store.categories[0].id;
    let r = delete_category(&mut store, id, food_id);
    assert_eq!(r.err(), Some(AppError::Storage));
    let rendered = GlobalAppError::from_app_error(&AppError::Storage);
    assert_eq!(rendered.error_code, 500);
    assert_eq!(rendered.message, "database error!");
    // the refusal left everything in place
    assert_eq!(store.categories.len(), 1);
    assert_eq!(store.transactions.len(), 1);
}

#[test]
fn deleting_an_unreferenced_category_removes_exactly_that_row() {
    let (mut store, id) = store_with_user("alice");
    create_category(&mut store, id, vec![category("Food"), category("Rent")], 200).unwrap();
    add_transactions(&mut store, id, vec![transaction("Rent", 90000, 2)], 300).unwrap();
    let food_id = store.categories[0].id;
    let m = delete_category(&mut store, id, food_id).expect("deletion should succeed");
    assert_eq!(m, "Category deleted successfully!");
    assert_eq!(store.categories.len(), 1);
    assert_eq!(store.categories[0].name, "Rent");
    assert_eq!(store.transactions.len(), 1);
    assert_eq!(store.transactions[0].category_id, store.categories[0].id);
}

#[test]
fn listing_transactions_joins_each_with_its_category() {
    let (mut store, id) = store_with_user("alice");
    create_category(&mut store, id, vec![category("Food"), category("Rent")], 200).unwrap();
    add_transactions(
        &mut store,
        id,
        vec![transaction("Rent", 90000, 2), transaction("Food", 1250, 2)],
        300,
    )
    .unwrap();
    let listed = list_transactions(&store, id);
    assert_eq!(listed.len(), 2);
    assert_eq!(listed[0].amount, Amount { mantissa: 90000, scale: 2 });
    assert_eq!(listed[0].category_data.name, "Rent");
    assert_eq!(listed[1].amount, Amount { mantissa: 1250, scale: 2 });
    assert_eq!(listed[1].category_data.name, "Food");
    assert!(listed.iter().all(|t| t.transaction_date == 400));
    // another user sees nothing
    assert_eq!(list_transactions(&store, id + 1).len(), 0);
}
