//! Transaction operations: the all-or-nothing batch insert with
//! category resolution inside the same unit of work, and the listing that
//! joins each transaction with its category.
//!
//! Resolving the category reference by slug against the same state the
//! batch writes into is the core correctness mechanism: a transaction can
//! never be persisted against a nonexistent or cross-owner category.

use vstd::prelude::*;

use crate::categories::cat_view_matches;
use crate::errors::{AppError, ValidationError};
use crate::models::{TransactionInfo, TransactionRequest};
use crate::slugs::{slug_of, slugify};
use crate::store::{
    cat_ix_by_slug, cat_ix_owned, cat_owned, cat_with_slug, clone_opt_string,
    find_category_by_id, find_category_by_slug, Store, TransactionRow,
};

verus! {

/// Whether a transaction batch can be applied for this owner: every item's
/// category reference, normalized to a slug, resolves to a category of this
/// owner.
pub open spec fn txn_batch_ok(s: Store, owner: u128, items: Seq<TransactionRequest>) -> bool {
    forall|i: int|
        0 <= i < items.len() ==> cat_with_slug(
            s.categories@,
            owner,
            slug_of(#[trigger] items[i].category@),
        )
}

/// The identifier of the category that the `k`-th item of a batch resolves
/// to.
pub open spec fn resolved_cat_id(s: Store, owner: u128, item: TransactionRequest) -> u128 {
    s.categories@[cat_ix_by_slug(s.categories@, owner, slug_of(item.category@))].id
}

/// The row that the `k`-th item of a batch becomes, field by field.
pub open spec fn txn_row_for(
    t: TransactionRow,
    item: TransactionRequest,
    id: u128,
    owner: u128,
    cat_id: u128,
    now: i64,
) -> bool {
    &&& t.id == id
    &&& t.owner_id == owner
    &&& t.category_id == cat_id
    &&& t.description == item.description
    &&& t.amount == item.amount
    &&& t.transaction_date == item.transaction_date
    &&& t.created_at == now
}

/// Inserts a batch of transactions for this owner as one unit of work.
///
/// Each item's category reference is normalized by the one slug routine and
/// looked up among this owner's categories within the same unit of work;
/// an unresolvable reference answers `CategoryNotFound` — its own kind, not
/// a storage fault — aborts the whole batch, and leaves the store exactly
/// as it was.  On success the new rows stand appended in batch order, each
/// bound to its resolved category, and nothing else changes.
pub fn add_transactions(
    store: &mut Store,
    owner: u128,
    transactions: Vec<TransactionRequest>,
    now: i64,
) -> (r: Result<String, AppError>)
    requires
        old(store).wf(),
        old(store).next_transaction_id + transactions@.len() <= u128::MAX,
    ensures
        final(store).wf(),
        r is Err ==> *final(store) == *old(store),
        r is Ok <==> txn_batch_ok(*old(store), owner, transactions@),
        r is Err <==> r == Err::<String, AppError>(
            AppError::Validation(ValidationError::CategoryNotFound),
        ),
        r is Ok ==> {
            let n0 = old(store).transactions@.len() as int;
            &&& final(store).transactions@.len() == n0 + transactions@.len()
            &&& final(store).transactions@.subrange(0, n0) == old(store).transactions@
            &&& forall|k: int|
                0 <= k < transactions@.len() ==> txn_row_for(
                    #[trigger] final(store).transactions@[n0 + k],
                    transactions@[k],
                    (old(store).next_transaction_id + k) as u128,
                    owner,
                    resolved_cat_id(*old(store), owner, transactions@[k]),
                    now,
                )
            &&& final(store).next_transaction_id == old(store).next_transaction_id
                + transactions@.len()
            &&& final(store).users == old(store).users
            &&& final(store).categories == old(store).categories
            &&& final(store).next_user_id == old(store).next_user_id
            &&& final(store).next_category_id == old(store).next_category_id
        },
        r matches Ok(m) ==> m@ == "Expenses updated successfully!"@,
{
    let n = transactions.len();
    let mut cat_ids: Vec<u128> = Vec::new();
    let mut i: usize = 0;
    while i < n
        invariant
            *store == *old(store),
            old(store).wf(),
            n == transactions@.len(),
            i <= n,
            cat_ids@.len() == i,
            forall|k: int|
                0 <= k < i ==> cat_with_slug(
                    store.categories@,
                    owner,
                    slug_of(#[trigger] transactions@[k].category@),
                ),
            forall|k: int|
                0 <= k < i ==> #[trigger] cat_ids@[k] == resolved_cat_id(
                    *store,
                    owner,
                    transactions@[k],
                ),
        decreases n - i,
    {
        let cat_slug = slugify(transactions[i].category.as_str());
        let ix = match find_category_by_slug(store, owner, &cat_slug) {
            None => {
                return Err(AppError::Validation(ValidationError::CategoryNotFound));
            },
            Some(ix) => ix,
        };
        proof {
            let k = cat_ix_by_slug(store.categories@, owner, slug_of(transactions@[i as int].category@));
            assert(store.categories@[k].owner_id == owner && store.categories@[k].slug@ == slug_of(
                transactions@[i as int].category@,
            ));
            assert(k == ix as int);
        }
        cat_ids.push(store.categories[ix].id);
        i += 1;
    }
    let ghost s0 = *store;
    let ghost n0 = store.transactions@.len() as int;
    let mut i: usize = 0;
    while i < n
        invariant
            s0 == *old(store),
            s0.wf(),
            n == transactions@.len(),
            i <= n,
            cat_ids@.len() == n,
            txn_batch_ok(s0, owner, transactions@),
            forall|k: int|
                0 <= k < n ==> #[trigger] cat_ids@[k] == resolved_cat_id(
                    s0,
                    owner,
                    transactions@[k],
                ),
            n0 == s0.transactions@.len() as int,
            s0.next_transaction_id + n <= u128::MAX,
            store.transactions@.len() == n0 + i,
            store.transactions@.subrange(0, n0) == s0.transactions@,
            forall|k: int|
                0 <= k < i ==> txn_row_for(
                    #[trigger] store.transactions@[n0 + k],
                    transactions@[k],
                    (s0.next_transaction_id + k) as u128,
                    owner,
                    resolved_cat_id(s0, owner, transactions@[k]),
                    now,
                ),
            store.next_transaction_id == s0.next_transaction_id + i,
            store.users == s0.users,
            store.categories == s0.categories,
            store.next_user_id == s0.next_user_id,
            store.next_category_id == s0.next_category_id,
        decreases n - i,
    {
        let row = TransactionRow {
            id: store.next_transaction_id,
            owner_id: owner,
            category_id: cat_ids[i],
            description: clone_opt_string(&transactions[i].description),
            amount: transactions[i].amount,
            transaction_date: transactions[i].transaction_date,
            created_at: now,
        };
        store.transactions.push(row);
        store.next_transaction_id = store.next_transaction_id + 1;
        proof {
            assert(store.transactions@.subrange(0, n0) =~= s0.transactions@);
        }
        i += 1;
    }
    proof {
        lemma_txn_batch_wf(s0, *store, owner, transactions@, now);
    }
    Ok("Expenses updated successfully!".to_owned())
}

/// Appending an admissible transaction batch preserves the store's
/// well-formedness.
proof fn lemma_txn_batch_wf(
    s0: Store,
    s1: Store,
    owner: u128,
    items: Seq<TransactionRequest>,
    now: i64,
)
    requires
        s0.wf(),
        txn_batch_ok(s0, owner, items),
        s0.next_transaction_id + items.len() <= u128::MAX,
        s1.transactions@.len() == s0.transactions@.len() + items.len(),
        s1.transactions@.subrange(0, s0.transactions@.len() as int) == s0.transactions@,
        forall|k: int|
            0 <= k < items.len() ==> txn_row_for(
                #[trigger] s1.transactions@[s0.transactions@.len() + k],
                items[k],
                (s0.next_transaction_id + k) as u128,
                owner,
                resolved_cat_id(s0, owner, items[k]),
                now,
            ),
        s1.next_transaction_id == s0.next_transaction_id + items.len(),
        s1.users == s0.users,
        s1.categories == s0.categories,
        s1.next_user_id == s0.next_user_id,
        s1.next_category_id == s0.next_category_id,
    ensures
        s1.wf(),
{
    let n0 = s0.transactions@.len() as int;
    assert forall|i: int| 0 <= i < n0 implies s1.transactions@[i] == s0.transactions@[i] by {
        assert(s1.transactions@.subrange(0, n0)[i] == s1.transactions@[i]);
    }
    assert forall|i: int, j: int|
        #![trigger s1.transactions@[i], s1.transactions@[j]]
        0 <= i < s1.transactions@.len() && 0 <= j < s1.transactions@.len() && i != j implies s1
        .transactions@[i].id != s1.transactions@[j].id by {
        if i >= n0 {
            let k = i - n0;
            assert(txn_row_for(
                s1.transactions@[n0 + k],
                items[k],
                (s0.next_transaction_id + k) as u128,
                owner,
                resolved_cat_id(s0, owner, items[k]),
                now,
            ));
        }
        if j >= n0 {
            let k = j - n0;
            assert(txn_row_for(
                s1.transactions@[n0 + k],
                items[k],
                (s0.next_transaction_id + k) as u128,
                owner,
                resolved_cat_id(s0, owner, items[k]),
                now,
            ));
        }
    }
    assert forall|i: int| 0 <= i < s1.transactions@.len() implies #[trigger] s1.transactions@[i].id
        < s1.next_transaction_id by {
        if i >= n0 {
            let k = i - n0;
            assert(txn_row_for(
                s1.transactions@[n0 + k],
                items[k],
                (s0.next_transaction_id + k) as u128,
                owner,
                resolved_cat_id(s0, owner, items[k]),
                now,
            ));
        }
    }
    assert forall|i: int| 0 <= i < s1.transactions@.len() implies cat_owned(
        s1.categories@,
        #[trigger] s1.transactions@[i].owner_id,
        s1.transactions@[i].category_id,
    ) by {
        assert(s1.categories@ == s0.categories@);
        if i < n0 {
            assert(cat_owned(
                s0.categories@,
                s0.transactions@[i].owner_id,
                s0.transactions@[i].category_id,
            ));
        } else {
            let k = i - n0;
            assert(txn_row_for(
                s1.transactions@[n0 + k],
                items[k],
                (s0.next_transaction_id + k) as u128,
                owner,
                resolved_cat_id(s0, owner, items[k]),
                now,
            ));
            let m = cat_ix_by_slug(s0.categories@, owner, slug_of(items[k].category@));
            assert(cat_with_slug(s0.categories@, owner, slug_of(items[k].category@)));
            assert(0 <= m < s0.categories@.len() && s0.categories@[m].owner_id == owner);
            assert(s0.categories@[m].id == resolved_cat_id(s0, owner, items[k]));
        }
    }
}

/// One unresolvable category reference makes the whole batch
/// inadmissible: by [`add_transactions`]'s contract it fails with
/// `CategoryNotFound` and persists nothing, however many other references
/// resolve.
pub proof fn lemma_unresolved_reference_batch_rejected(
    s: Store,
    owner: u128,
    items: Seq<TransactionRequest>,
    a: int,
)
    requires
        0 <= a < items.len(),
        !cat_with_slug(s.categories@, owner, slug_of(items[a].category@)),
    ensures
        !txn_batch_ok(s, owner, items),
{
}

/// Keeps the transactions of this owner.
pub open spec fn txn_of_owner(owner: u128) -> spec_fn(TransactionRow) -> bool {
    |t: TransactionRow| t.owner_id == owner
}

/// How a listed transaction reflects a stored row: its own fields, joined
/// with the category it was logged against.
pub open spec fn txn_info_matches(g: TransactionInfo, t: TransactionRow, s: Store) -> bool {
    &&& g.id == t.id
    &&& g.description == t.description
    &&& g.amount == t.amount
    &&& g.transaction_date == t.transaction_date
    &&& cat_view_matches(
        g.category_data,
        s.categories@[cat_ix_owned(s.categories@, t.owner_id, t.category_id)],
    )
}

/// Lists the caller's transactions, in storage order, each joined with its
/// category's data.  The join always resolves: the store never holds a
/// transaction without its same-owner category.
pub fn list_transactions(store: &Store, owner: u128) -> (r: Vec<TransactionInfo>)
    requires
        store.wf(),
    ensures
        r@.len() == store.transactions@.filter(txn_of_owner(owner)).len(),
        forall|k: int|
            0 <= k < r@.len() ==> txn_info_matches(
                #[trigger] r@[k],
                store.transactions@.filter(txn_of_owner(owner))[k],
                *store,
            ),
{
    let pred = Ghost(txn_of_owner(owner));
    let mut out: Vec<TransactionInfo> = Vec::new();
    let mut i: usize = 0;
    while i < store.transactions.len()
        invariant
            store.wf(),
            i <= store.transactions@.len(),
            pred@ == txn_of_owner(owner),
            out@.len() == store.transactions@.subrange(0, i as int).filter(pred@).len(),
            forall|k: int|
                0 <= k < out@.len() ==> txn_info_matches(
                    #[trigger] out@[k],
                    store.transactions@.subrange(0, i as int).filter(pred@)[k],
                    *store,
                ),
        decreases store.transactions@.len() - i,
    {
        proof {
            let prefix = store.transactions@.subrange(0, i as int);
            assert(store.transactions@.subrange(0, i as int + 1) =~= prefix.push(
                store.transactions@[i as int],
            ));
            prefix.lemma_filter_push(store.transactions@[i as int], pred@);
        }
        if store.transactions[i].owner_id == owner {
            let t_owner = store.transactions[i].owner_id;
            let t_cat = store.transactions[i].category_id;
            proof {
                assert(cat_owned(store.categories@, t_owner, t_cat));
            }
            let cix = match find_category_by_id(store, t_owner, t_cat) {
                Some(c) => c,
                None => {
                    proof {
                        assert(false);
                    }
                    0
                },
            };
            proof {
                let m = cat_ix_owned(store.categories@, t_owner, t_cat);
                assert(store.categories@[m].id == t_cat && store.categories@[m].owner_id
                    == t_owner);
                assert(m == cix as int);
            }
            out.push(
                TransactionInfo {
                    id: store.transactions[i].id,
                    description: clone_opt_string(&store.transactions[i].description),
                    amount: store.transactions[i].amount,
                    transaction_date: store.transactions[i].transaction_date,
                    category_data: crate::models::GetUserCategories {
                        id: store.categories[cix].id,
                        name: store.categories[cix].name.clone(),
                        created_at: store.categories[cix].created_at,
                        category_type: store.categories[cix].category_type,
                        is_savings: store.categories[cix].is_savings,
                    },
                },
            );
        }
        i += 1;
    }
    proof {
        assert(store.transactions@.subrange(0, store.transactions@.len() as int)
            =~= store.transactions@);
    }
    out
}

} // verus!
