//! Category operations: the all-or-nothing batch insert, listing, display,
//! and deletion.  Deletion removes one row and refuses a category that
//! transactions still reference, as the store's referential constraint
//! would.
//!
//! The batch insert is one unit of work: every item is inserted, or none
//! is.  A violated constraint — a slug already taken by the owner, two
//! batch items normalizing to the same slug, or a missing owner row —
//! aborts the whole batch and surfaces one error.

use vstd::prelude::*;

use crate::errors::{AppError, ValidationError};
use crate::models::{CreateCategoryDetails, GetUserCategories};
use crate::slugs::{slug_of, slugify};
use crate::store::{
    any_transaction_in_category, cat_ix_owned, cat_keep_not_id, cat_owned, cat_with_slug,
    categories_without_id, category_referenced, find_category_by_id, find_category_by_slug,
    find_user_by_id, lemma_filter_pairwise, lemma_filter_pointwise, user_with_id,
    vec_contains_string, CategoryRow, Store,
};

verus! {

/// Whether a category batch can be applied for this owner: the owner's row
/// exists, no item's slug is already taken by the owner, and no two items
/// normalize to the same slug.
pub open spec fn cat_batch_ok(s: Store, owner: u128, items: Seq<CreateCategoryDetails>) -> bool {
    &&& items.len() > 0 ==> user_with_id(s.users@, owner)
    &&& forall|i: int|
        0 <= i < items.len() ==> !cat_with_slug(
            s.categories@,
            owner,
            slug_of(#[trigger] items[i].name@),
        )
    &&& forall|i: int, j: int|
        0 <= i < j < items.len() ==> slug_of(#[trigger] items[i].name@) != slug_of(
            #[trigger] items[j].name@,
        )
}

/// The row that the `k`-th item of a batch becomes, field by field.
pub open spec fn cat_row_for(
    c: CategoryRow,
    item: CreateCategoryDetails,
    id: u128,
    owner: u128,
    now: i64,
) -> bool {
    &&& c.id == id
    &&& c.owner_id == owner
    &&& c.name@ == item.name@
    &&& c.slug@ == slug_of(item.name@)
    &&& c.category_type == item.category_type
    &&& c.is_savings == item.is_savings
    &&& c.created_at == now
}

/// Inserts a batch of categories for this owner as one unit of work.
///
/// Each item's slug is computed by the one normalization routine and the
/// row is inserted under it.  The batch succeeds exactly when it is
/// admissible ([`cat_batch_ok`]); any constraint violation aborts the whole
/// batch, leaves the store exactly as it was, and surfaces one error.  On
/// success the new rows stand appended in batch order, under consecutive
/// fresh identifiers, and nothing else changes.
pub fn create_category(
    store: &mut Store,
    owner: u128,
    categories: Vec<CreateCategoryDetails>,
    now: i64,
) -> (r: Result<String, AppError>)
    requires
        old(store).wf(),
        old(store).next_category_id + categories@.len() <= u128::MAX,
    ensures
        final(store).wf(),
        r is Err ==> *final(store) == *old(store),
        r is Ok <==> cat_batch_ok(*old(store), owner, categories@),
        r is Err <==> r == Err::<String, AppError>(
            AppError::Validation(ValidationError::DuplicateOrInvalid),
        ),
        r is Ok ==> {
            let n0 = old(store).categories@.len() as int;
            &&& final(store).categories@.len() == n0 + categories@.len()
            &&& final(store).categories@.subrange(0, n0) == old(store).categories@
            &&& forall|k: int|
                0 <= k < categories@.len() ==> cat_row_for(
                    #[trigger] final(store).categories@[n0 + k],
                    categories@[k],
                    (old(store).next_category_id + k) as u128,
                    owner,
                    now,
                )
            &&& final(store).next_category_id == old(store).next_category_id + categories@.len()
            &&& final(store).users == old(store).users
            &&& final(store).transactions == old(store).transactions
            &&& final(store).next_user_id == old(store).next_user_id
            &&& final(store).next_transaction_id == old(store).next_transaction_id
        },
        r matches Ok(m) ==> m@ == "Categories inserted successfully!"@,
{
    let n = categories.len();
    if n > 0 {
        match find_user_by_id(store, owner) {
            None => {
                return Err(AppError::Validation(ValidationError::DuplicateOrInvalid));
            },
            Some(_) => {},
        }
    }
    let mut slugs: Vec<String> = Vec::new();
    let mut i: usize = 0;
    while i < n
        invariant
            *store == *old(store),
            old(store).wf(),
            n == categories@.len(),
            i <= n,
            slugs@.len() == i,
            forall|k: int| 0 <= k < i ==> #[trigger] slugs@[k]@ == slug_of(categories@[k].name@),
            forall|k: int|
                0 <= k < i ==> !cat_with_slug(
                    store.categories@,
                    owner,
                    slug_of(#[trigger] categories@[k].name@),
                ),
            forall|k: int, j: int|
                0 <= j < k < i ==> slug_of(#[trigger] categories@[j].name@) != slug_of(
                    #[trigger] categories@[k].name@,
                ),
        decreases n - i,
    {
        let slug = slugify(categories[i].name.as_str());
        if find_category_by_slug(store, owner, &slug).is_some() {
            return Err(AppError::Validation(ValidationError::DuplicateOrInvalid));
        }
        if vec_contains_string(&slugs, &slug) {
            return Err(AppError::Validation(ValidationError::DuplicateOrInvalid));
        }
        proof {
            assert forall|j: int| 0 <= j < i implies slug_of(#[trigger] categories@[j].name@)
                != slug_of(categories@[i as int].name@) by {
                assert(slugs@[j]@ == slug_of(categories@[j].name@));
            }
        }
        slugs.push(slug);
        i += 1;
    }
    let ghost s0 = *store;
    let ghost n0 = store.categories@.len() as int;
    let mut i: usize = 0;
    while i < n
        invariant
            s0 == *old(store),
            n == categories@.len(),
            i <= n,
            slugs@.len() == n,
            s0.wf(),
            cat_batch_ok(s0, owner, categories@),
            n > 0 ==> user_with_id(s0.users@, owner),
            forall|k: int| 0 <= k < n ==> #[trigger] slugs@[k]@ == slug_of(categories@[k].name@),
            n0 == s0.categories@.len() as int,
            s0.next_category_id + n <= u128::MAX,
            store.categories@.len() == n0 + i,
            store.categories@.subrange(0, n0) == s0.categories@,
            forall|k: int|
                0 <= k < i ==> cat_row_for(
                    #[trigger] store.categories@[n0 + k],
                    categories@[k],
                    (s0.next_category_id + k) as u128,
                    owner,
                    now,
                ),
            store.next_category_id == s0.next_category_id + i,
            store.users == s0.users,
            store.transactions == s0.transactions,
            store.next_user_id == s0.next_user_id,
            store.next_transaction_id == s0.next_transaction_id,
        decreases n - i,
    {
        let row = CategoryRow {
            id: store.next_category_id,
            owner_id: owner,
            name: categories[i].name.clone(),
            slug: slugs[i].clone(),
            category_type: categories[i].category_type,
            is_savings: categories[i].is_savings,
            created_at: now,
        };
        store.categories.push(row);
        store.next_category_id = store.next_category_id + 1;
        proof {
            assert(store.categories@.subrange(0, n0) =~= s0.categories@);
        }
        i += 1;
    }
    proof {
        lemma_cat_batch_wf(s0, *store, owner, categories@, now);
    }
    Ok("Categories inserted successfully!".to_owned())
}

/// Appending an admissible category batch preserves the store's
/// well-formedness.
proof fn lemma_cat_batch_wf(
    s0: Store,
    s1: Store,
    owner: u128,
    items: Seq<CreateCategoryDetails>,
    now: i64,
)
    requires
        s0.wf(),
        cat_batch_ok(s0, owner, items),
        s0.next_category_id + items.len() <= u128::MAX,
        s1.categories@.len() == s0.categories@.len() + items.len(),
        s1.categories@.subrange(0, s0.categories@.len() as int) == s0.categories@,
        forall|k: int|
            0 <= k < items.len() ==> cat_row_for(
                #[trigger] s1.categories@[s0.categories@.len() + k],
                items[k],
                (s0.next_category_id + k) as u128,
                owner,
                now,
            ),
        s1.next_category_id == s0.next_category_id + items.len(),
        s1.users == s0.users,
        s1.transactions == s0.transactions,
        s1.next_user_id == s0.next_user_id,
        s1.next_transaction_id == s0.next_transaction_id,
    ensures
        s1.wf(),
{
    let n0 = s0.categories@.len() as int;
    assert forall|i: int| 0 <= i < n0 implies s1.categories@[i] == s0.categories@[i] by {
        assert(s1.categories@.subrange(0, n0)[i] == s1.categories@[i]);
    }
    assert forall|i: int, j: int|
        #![trigger s1.categories@[i], s1.categories@[j]]
        0 <= i < s1.categories@.len() && 0 <= j < s1.categories@.len() && i != j implies s1
        .categories@[i].id != s1.categories@[j].id && !(s1.categories@[i].owner_id
        == s1.categories@[j].owner_id && s1.categories@[i].slug@ == s1.categories@[j].slug@) by {
        if i < n0 && j < n0 {
            assert(s1.categories@[i] == s0.categories@[i]);
            assert(s1.categories@[j] == s0.categories@[j]);
        } else if i < n0 && j >= n0 {
            let k = j - n0;
            assert(cat_row_for(
                s1.categories@[n0 + k],
                items[k],
                (s0.next_category_id + k) as u128,
                owner,
                now,
            ));
            assert(s1.categories@[i] == s0.categories@[i]);
            assert(s0.categories@[i].id < s0.next_category_id);
            if s1.categories@[i].owner_id == s1.categories@[j].owner_id && s1.categories@[i].slug@
                == s1.categories@[j].slug@ {
                assert(s0.categories@[i].owner_id == owner && s0.categories@[i].slug@ == slug_of(
                    items[k].name@,
                ));
                assert(cat_with_slug(s0.categories@, owner, slug_of(items[k].name@)));
                assert(false);
            }
        } else if j < n0 && i >= n0 {
            let k = i - n0;
            assert(cat_row_for(
                s1.categories@[n0 + k],
                items[k],
                (s0.next_category_id + k) as u128,
                owner,
                now,
            ));
            assert(s1.categories@[j] == s0.categories@[j]);
            assert(s0.categories@[j].id < s0.next_category_id);
            if s1.categories@[i].owner_id == s1.categories@[j].owner_id && s1.categories@[i].slug@
                == s1.categories@[j].slug@ {
                assert(s0.categories@[j].owner_id == owner && s0.categories@[j].slug@ == slug_of(
                    items[k].name@,
                ));
                assert(cat_with_slug(s0.categories@, owner, slug_of(items[k].name@)));
                assert(false);
            }
        } else {
            let ki = i - n0;
            let kj = j - n0;
            assert(cat_row_for(
                s1.categories@[n0 + ki],
                items[ki],
                (s0.next_category_id + ki) as u128,
                owner,
                now,
            ));
            assert(cat_row_for(
                s1.categories@[n0 + kj],
                items[kj],
                (s0.next_category_id + kj) as u128,
                owner,
                now,
            ));
            if s1.categories@[i].slug@ == s1.categories@[j].slug@ {
                assert(slug_of(items[ki].name@) == slug_of(items[kj].name@));
                assert(false);
            }
        }
    }
    assert forall|i: int| 0 <= i < s1.categories@.len() implies #[trigger] s1.categories@[i].id
        < s1.next_category_id by {
        if i < n0 {
            assert(s1.categories@[i] == s0.categories@[i]);
        } else {
            let k = i - n0;
            assert(cat_row_for(
                s1.categories@[n0 + k],
                items[k],
                (s0.next_category_id + k) as u128,
                owner,
                now,
            ));
        }
    }
    assert forall|i: int| 0 <= i < s1.categories@.len() implies user_with_id(
        s1.users@,
        #[trigger] s1.categories@[i].owner_id,
    ) by {
        if i >= n0 {
            let k = i - n0;
            assert(cat_row_for(
                s1.categories@[n0 + k],
                items[k],
                (s0.next_category_id + k) as u128,
                owner,
                now,
            ));
            assert(items.len() > 0);
            assert(user_with_id(s0.users@, owner));
            assert(s1.users@ == s0.users@);
        } else {
            assert(s1.categories@[i] == s0.categories@[i]);
        }
    }
    assert forall|i: int| 0 <= i < s1.transactions@.len() implies cat_owned(
        s1.categories@,
        #[trigger] s1.transactions@[i].owner_id,
        s1.transactions@[i].category_id,
    ) by {
        assert(s1.transactions@ == s0.transactions@);
        assert(cat_owned(
            s0.categories@,
            s0.transactions@[i].owner_id,
            s0.transactions@[i].category_id,
        ));
        let m = choose|m: int|
            0 <= m < s0.categories@.len() && s0.categories@[m].id == s1.transactions@[i].category_id
                && s0.categories@[m].owner_id == s1.transactions@[i].owner_id;
        assert(s1.categories@.subrange(0, n0)[m] == s1.categories@[m]);
        assert(s1.categories@[m] == s0.categories@[m]);
    }
}

/// Keeps the categories of this owner.
pub open spec fn cat_of_owner(owner: u128) -> spec_fn(CategoryRow) -> bool {
    |c: CategoryRow| c.owner_id == owner
}

/// How a listed category reflects a stored row: every field but the slug,
/// which stays internal.
pub open spec fn cat_view_matches(g: GetUserCategories, c: CategoryRow) -> bool {
    &&& g.id == c.id
    &&& g.name@ == c.name@
    &&& g.created_at == c.created_at
    &&& g.category_type == c.category_type
    &&& g.is_savings == c.is_savings
}

/// Lists the caller's categories, in storage order.
pub fn list_categories(store: &Store, owner: u128) -> (r: Vec<GetUserCategories>)
    ensures
        r@.len() == store.categories@.filter(cat_of_owner(owner)).len(),
        forall|k: int|
            0 <= k < r@.len() ==> cat_view_matches(
                #[trigger] r@[k],
                store.categories@.filter(cat_of_owner(owner))[k],
            ),
{
    let pred = Ghost(cat_of_owner(owner));
    let mut out: Vec<GetUserCategories> = Vec::new();
    let mut i: usize = 0;
    while i < store.categories.len()
        invariant
            i <= store.categories@.len(),
            pred@ == cat_of_owner(owner),
            out@.len() == store.categories@.subrange(0, i as int).filter(pred@).len(),
            forall|k: int|
                0 <= k < out@.len() ==> cat_view_matches(
                    #[trigger] out@[k],
                    store.categories@.subrange(0, i as int).filter(pred@)[k],
                ),
        decreases store.categories@.len() - i,
    {
        proof {
            let prefix = store.categories@.subrange(0, i as int);
            assert(store.categories@.subrange(0, i as int + 1) =~= prefix.push(
                store.categories@[i as int],
            ));
            prefix.lemma_filter_push(store.categories@[i as int], pred@);
        }
        if store.categories[i].owner_id == owner {
            out.push(
                GetUserCategories {
                    id: store.categories[i].id,
                    name: store.categories[i].name.clone(),
                    created_at: store.categories[i].created_at,
                    category_type: store.categories[i].category_type,
                    is_savings: store.categories[i].is_savings,
                },
            );
        }
        i += 1;
    }
    proof {
        assert(store.categories@.subrange(0, store.categories@.len() as int)
            =~= store.categories@);
    }
    out
}

/// Fetches one of the caller's categories.  Succeeds exactly when the
/// caller owns a category with this identifier; a category of another user
/// answers the same not-found as one that does not exist.
pub fn display_category(store: &Store, owner: u128, cat_id: u128) -> (r: Result<
    GetUserCategories,
    AppError,
>)
    requires
        store.wf(),
    ensures
        r is Ok <==> cat_owned(store.categories@, owner, cat_id),
        r is Err ==> r == Err::<GetUserCategories, AppError>(
            AppError::Validation(ValidationError::CategoryMissing),
        ),
        r matches Ok(g) ==> cat_view_matches(
            g,
            store.categories@[cat_ix_owned(store.categories@, owner, cat_id)],
        ),
{
    let ix = match find_category_by_id(store, owner, cat_id) {
        None => {
            return Err(AppError::Validation(ValidationError::CategoryMissing));
        },
        Some(ix) => ix,
    };
    proof {
        let k = cat_ix_owned(store.categories@, owner, cat_id);
        assert(store.categories@[k].id == cat_id && store.categories@[k].owner_id == owner);
        assert(k == ix as int);
    }
    Ok(
        GetUserCategories {
            id: store.categories[ix].id,
            name: store.categories[ix].name.clone(),
            created_at: store.categories[ix].created_at,
            category_type: store.categories[ix].category_type,
            is_savings: store.categories[ix].is_savings,
        },
    )
}

/// Deletes one of the caller's categories.
///
/// Succeeds exactly when the caller owns a category with this identifier
/// and no transaction is logged against it; exactly that one row is then
/// removed and nothing else changes.  A category of another user answers
/// the very same not-found error as one that does not exist at all, so the
/// call never discloses whether the identifier is in use.  A category that
/// transactions still reference cannot be deleted: the store's referential
/// constraint refuses it, an unclassified storage fault.
pub fn delete_category(store: &mut Store, owner: u128, cat_id: u128) -> (r: Result<
    String,
    AppError,
>)
    requires
        old(store).wf(),
    ensures
        final(store).wf(),
        r is Err ==> *final(store) == *old(store),
        r == Err::<String, AppError>(AppError::Validation(ValidationError::NotFound))
            <==> !cat_owned(old(store).categories@, owner, cat_id),
        r == Err::<String, AppError>(AppError::Storage) <==> (cat_owned(
            old(store).categories@,
            owner,
            cat_id,
        ) && category_referenced(old(store).transactions@, cat_id)),
        r is Ok <==> (cat_owned(old(store).categories@, owner, cat_id) && !category_referenced(
            old(store).transactions@,
            cat_id,
        )),
        r is Ok ==> {
            &&& final(store).categories@ == old(store).categories@.filter(cat_keep_not_id(cat_id))
            &&& final(store).users == old(store).users
            &&& final(store).transactions == old(store).transactions
            &&& final(store).next_user_id == old(store).next_user_id
            &&& final(store).next_category_id == old(store).next_category_id
            &&& final(store).next_transaction_id == old(store).next_transaction_id
        },
        r matches Ok(m) ==> m@ == "Category deleted successfully!"@,
{
    match find_category_by_id(store, owner, cat_id) {
        None => {
            return Err(AppError::Validation(ValidationError::NotFound));
        },
        Some(_) => {},
    }
    if any_transaction_in_category(&store.transactions, cat_id) {
        return Err(AppError::Storage);
    }
    let new_categories = categories_without_id(&store.categories, cat_id);
    store.categories = new_categories;
    proof {
        lemma_delete_category_wf(*old(store), *store, cat_id);
    }
    Ok("Category deleted successfully!".to_owned())
}

/// Deleting an unreferenced category preserves the store's
/// well-formedness.
proof fn lemma_delete_category_wf(s0: Store, s1: Store, cat_id: u128)
    requires
        s0.wf(),
        !category_referenced(s0.transactions@, cat_id),
        s1.categories@ == s0.categories@.filter(cat_keep_not_id(cat_id)),
        s1.users == s0.users,
        s1.transactions == s0.transactions,
        s1.next_user_id == s0.next_user_id,
        s1.next_category_id == s0.next_category_id,
        s1.next_transaction_id == s0.next_transaction_id,
    ensures
        s1.wf(),
{
    let cp = cat_keep_not_id(cat_id);
    lemma_filter_pairwise(
        s0.categories@,
        cp,
        |a: CategoryRow, b: CategoryRow|
            a.id != b.id && !(a.owner_id == b.owner_id && a.slug@ == b.slug@),
    );
    lemma_filter_pointwise(s0.categories@, cp, |c: CategoryRow| c.id < s0.next_category_id);
    lemma_filter_pointwise(
        s0.categories@,
        cp,
        |c: CategoryRow| user_with_id(s0.users@, c.owner_id),
    );
    assert forall|i: int| 0 <= i < s1.transactions@.len() implies cat_owned(
        s1.categories@,
        #[trigger] s1.transactions@[i].owner_id,
        s1.transactions@[i].category_id,
    ) by {
        assert(s1.transactions@ == s0.transactions@);
        let owner = s1.transactions@[i].owner_id;
        let cid = s1.transactions@[i].category_id;
        assert(cat_owned(s0.categories@, owner, cid));
        let m = choose|m: int|
            0 <= m < s0.categories@.len() && s0.categories@[m].id == cid
                && s0.categories@[m].owner_id == owner;
        assert(cid != cat_id);
        s0.categories@.lemma_filter_contains(cp, m);
        assert(s1.categories@.contains(s0.categories@[m]));
        let w = choose|w: int| 0 <= w < s1.categories@.len() && s1.categories@[w]
            == s0.categories@[m];
        assert(s1.categories@[w].id == cid && s1.categories@[w].owner_id == owner);
    }
}

/// Two batch items with the same name normalize to the same slug, so a
/// batch holding both is inadmissible: by [`create_category`]'s contract it
/// fails entirely, with `DuplicateOrInvalid`, and persists nothing.
pub proof fn lemma_duplicate_name_batch_rejected(
    s: Store,
    owner: u128,
    items: Seq<CreateCategoryDetails>,
    a: int,
    b: int,
)
    requires
        0 <= a < b < items.len(),
        items[a].name@ == items[b].name@,
    ensures
        !cat_batch_ok(s, owner, items),
{
    assert(slug_of(items[a].name@) == slug_of(items[b].name@));
}

/// A category row owned by someone else is as invisible to a caller as one
/// that does not exist: the caller owns no category under its identifier,
/// so deletion and display answer the same not-found they answer for an
/// unused identifier.
pub proof fn lemma_foreign_category_not_visible(s: Store, owner: u128, k: int)
    requires
        s.wf(),
        0 <= k < s.categories@.len(),
        s.categories@[k].owner_id != owner,
    ensures
        !cat_owned(s.categories@, owner, s.categories@[k].id),
{
    if cat_owned(s.categories@, owner, s.categories@[k].id) {
        let m = choose|m: int|
            0 <= m < s.categories@.len() && s.categories@[m].id == s.categories@[k].id
                && s.categories@[m].owner_id == owner;
        assert(m != k);
        assert(s.categories@[m].id != s.categories@[k].id);
    }
}

} // verus!
