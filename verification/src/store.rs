//! The model of the relational store: users, categories, and transactions,
//! with the constraints the schema enforces.
//!
//! Usernames and emails are each globally unique; a category's slug is
//! unique per owner; every category belongs to an existing user; and a
//! transaction always references a category of its own owner — the central
//! invariant of the data model.  Row identifiers come from monotonic
//! counters, standing for the identifiers the store assigns.

use vstd::prelude::*;

use crate::models::{Amount, CategoryType};

verus! {

/// A stored user.
pub struct UserRow {
    pub id: u128,
    pub name: String,
    pub email: String,
    pub password_hash: String,
    pub is_active: bool,
    pub created_at: i64,
    pub updated_at: i64,
}

/// A stored category.
pub struct CategoryRow {
    pub id: u128,
    pub owner_id: u128,
    pub name: String,
    pub slug: String,
    pub category_type: CategoryType,
    pub is_savings: bool,
    pub created_at: i64,
}

/// A stored transaction.
pub struct TransactionRow {
    pub id: u128,
    pub owner_id: u128,
    pub category_id: u128,
    pub description: Option<String>,
    pub amount: Amount,
    pub transaction_date: i64,
    pub created_at: i64,
}

/// The store's whole state.
pub struct Store {
    pub users: Vec<UserRow>,
    pub categories: Vec<CategoryRow>,
    pub transactions: Vec<TransactionRow>,
    pub next_user_id: u128,
    pub next_category_id: u128,
    pub next_transaction_id: u128,
}

/// Whether some user carries this name.
pub open spec fn user_with_name(users: Seq<UserRow>, name: Seq<char>) -> bool {
    exists|i: int| 0 <= i < users.len() && users[i].name@ == name
}

/// Whether some user carries this email.
pub open spec fn user_with_email(users: Seq<UserRow>, email: Seq<char>) -> bool {
    exists|i: int| 0 <= i < users.len() && users[i].email@ == email
}

/// Whether a user with this identifier exists.
pub open spec fn user_with_id(users: Seq<UserRow>, id: u128) -> bool {
    exists|i: int| 0 <= i < users.len() && users[i].id == id
}

/// The index of the user with this identifier; under [`Store::wf`] there is
/// at most one.
pub open spec fn user_ix(users: Seq<UserRow>, id: u128) -> int {
    choose|i: int| 0 <= i < users.len() && users[i].id == id
}

/// The index of the user with this name; under [`Store::wf`] there is at
/// most one.
pub open spec fn user_ix_by_name(users: Seq<UserRow>, name: Seq<char>) -> int {
    choose|i: int| 0 <= i < users.len() && users[i].name@ == name
}

/// Whether this owner already has a category under this slug.
pub open spec fn cat_with_slug(cats: Seq<CategoryRow>, owner: u128, slug: Seq<char>) -> bool {
    exists|i: int| 0 <= i < cats.len() && cats[i].owner_id == owner && cats[i].slug@ == slug
}

/// The index of this owner's category under this slug; under [`Store::wf`]
/// there is at most one.
pub open spec fn cat_ix_by_slug(cats: Seq<CategoryRow>, owner: u128, slug: Seq<char>) -> int {
    choose|i: int| 0 <= i < cats.len() && cats[i].owner_id == owner && cats[i].slug@ == slug
}

/// Whether this owner has a category with this identifier.
pub open spec fn cat_owned(cats: Seq<CategoryRow>, owner: u128, id: u128) -> bool {
    exists|i: int| 0 <= i < cats.len() && cats[i].id == id && cats[i].owner_id == owner
}

/// The index of this owner's category with this identifier; under
/// [`Store::wf`] there is at most one.
pub open spec fn cat_ix_owned(cats: Seq<CategoryRow>, owner: u128, id: u128) -> int {
    choose|i: int| 0 <= i < cats.len() && cats[i].id == id && cats[i].owner_id == owner
}

impl Store {
    /// No two users share an identifier, a name, or an email.
    pub open spec fn users_distinct(self) -> bool {
        forall|i: int, j: int|
            #![trigger self.users@[i], self.users@[j]]
            0 <= i < self.users@.len() && 0 <= j < self.users@.len() && i != j
                ==> self.users@[i].id != self.users@[j].id && self.users@[i].name@
                != self.users@[j].name@ && self.users@[i].email@ != self.users@[j].email@
    }

    /// Every user identifier lies below the counter.
    pub open spec fn users_bounded(self) -> bool {
        forall|i: int|
            0 <= i < self.users@.len() ==> #[trigger] self.users@[i].id < self.next_user_id
    }

    /// No two categories share an identifier, nor an owner and a slug.
    pub open spec fn categories_distinct(self) -> bool {
        forall|i: int, j: int|
            #![trigger self.categories@[i], self.categories@[j]]
            0 <= i < self.categories@.len() && 0 <= j < self.categories@.len() && i != j
                ==> self.categories@[i].id != self.categories@[j].id && !(
                self.categories@[i].owner_id == self.categories@[j].owner_id
                    && self.categories@[i].slug@ == self.categories@[j].slug@)
    }

    /// Every category identifier lies below the counter.
    pub open spec fn categories_bounded(self) -> bool {
        forall|i: int|
            0 <= i < self.categories@.len() ==> #[trigger] self.categories@[i].id
                < self.next_category_id
    }

    /// Every category belongs to an existing user.
    pub open spec fn categories_owned(self) -> bool {
        forall|i: int|
            0 <= i < self.categories@.len() ==> user_with_id(
                self.users@,
                #[trigger] self.categories@[i].owner_id,
            )
    }

    /// No two transactions share an identifier.
    pub open spec fn transactions_distinct(self) -> bool {
        forall|i: int, j: int|
            #![trigger self.transactions@[i], self.transactions@[j]]
            0 <= i < self.transactions@.len() && 0 <= j < self.transactions@.len() && i != j
                ==> self.transactions@[i].id != self.transactions@[j].id
    }

    /// Every transaction identifier lies below the counter.
    pub open spec fn transactions_bounded(self) -> bool {
        forall|i: int|
            0 <= i < self.transactions@.len() ==> #[trigger] self.transactions@[i].id
                < self.next_transaction_id
    }

    /// Every transaction references a category of its own owner: no
    /// transaction ever exists without a resolvable, same-owner category.
    pub open spec fn transactions_categorized(self) -> bool {
        forall|i: int|
            0 <= i < self.transactions@.len() ==> cat_owned(
                self.categories@,
                #[trigger] self.transactions@[i].owner_id,
                self.transactions@[i].category_id,
            )
    }

    /// The store's well-formedness: all the constraints together.
    pub open spec fn wf(self) -> bool {
        &&& self.users_distinct()
        &&& self.users_bounded()
        &&& self.categories_distinct()
        &&& self.categories_bounded()
        &&& self.categories_owned()
        &&& self.transactions_distinct()
        &&& self.transactions_bounded()
        &&& self.transactions_categorized()
    }

    /// An empty, well-formed store.
    pub fn new() -> (s: Store)
        ensures
            s.wf(),
            s.users@.len() == 0,
            s.categories@.len() == 0,
            s.transactions@.len() == 0,
            s.next_user_id == 0,
            s.next_category_id == 0,
            s.next_transaction_id == 0,
    {
        Store {
            users: Vec::new(),
            categories: Vec::new(),
            transactions: Vec::new(),
            next_user_id: 0,
            next_category_id: 0,
            next_transaction_id: 0,
        }
    }
}

/// Finds the user carrying this name.
pub fn find_user_by_name(s: &Store, name: &String) -> (r: Option<usize>)
    ensures
        r matches Some(ix) ==> ix < s.users@.len() && s.users@[ix as int].name@ == name@,
        r is None <==> !user_with_name(s.users@, name@),
{
    let mut i: usize = 0;
    while i < s.users.len()
        invariant
            i <= s.users@.len(),
            forall|k: int| 0 <= k < i ==> #[trigger] s.users@[k].name@ != name@,
        decreases s.users@.len() - i,
    {
        if s.users[i].name == *name {
            return Some(i);
        }
        i += 1;
    }
    None
}

/// Finds the user with this identifier.
pub fn find_user_by_id(s: &Store, id: u128) -> (r: Option<usize>)
    ensures
        r matches Some(ix) ==> ix < s.users@.len() && s.users@[ix as int].id == id,
        r is None <==> !user_with_id(s.users@, id),
{
    let mut i: usize = 0;
    while i < s.users.len()
        invariant
            i <= s.users@.len(),
            forall|k: int| 0 <= k < i ==> #[trigger] s.users@[k].id != id,
        decreases s.users@.len() - i,
    {
        if s.users[i].id == id {
            return Some(i);
        }
        i += 1;
    }
    None
}

/// Whether some user carries this name or this email — the uniqueness probe
/// registration makes.
pub fn user_conflict(s: &Store, name: &String, email: &String) -> (r: bool)
    ensures
        r == (user_with_name(s.users@, name@) || user_with_email(s.users@, email@)),
{
    let mut i: usize = 0;
    while i < s.users.len()
        invariant
            i <= s.users@.len(),
            forall|k: int| 0 <= k < i ==> #[trigger] s.users@[k].name@ != name@,
            forall|k: int| 0 <= k < i ==> #[trigger] s.users@[k].email@ != email@,
        decreases s.users@.len() - i,
    {
        if s.users[i].name == *name || s.users[i].email == *email {
            return true;
        }
        i += 1;
    }
    false
}

/// Finds this owner's category under this slug.
pub fn find_category_by_slug(s: &Store, owner: u128, slug: &String) -> (r: Option<usize>)
    ensures
        r matches Some(ix) ==> ix < s.categories@.len() && s.categories@[ix as int].owner_id
            == owner && s.categories@[ix as int].slug@ == slug@,
        r is None <==> !cat_with_slug(s.categories@, owner, slug@),
{
    let mut i: usize = 0;
    while i < s.categories.len()
        invariant
            i <= s.categories@.len(),
            forall|k: int|
                0 <= k < i ==> !(#[trigger] s.categories@[k].owner_id == owner
                    && s.categories@[k].slug@ == slug@),
        decreases s.categories@.len() - i,
    {
        if s.categories[i].owner_id == owner && s.categories[i].slug == *slug {
            return Some(i);
        }
        i += 1;
    }
    None
}

/// Finds this owner's category with this identifier.
pub fn find_category_by_id(s: &Store, owner: u128, id: u128) -> (r: Option<usize>)
    ensures
        r matches Some(ix) ==> ix < s.categories@.len() && s.categories@[ix as int].id == id
            && s.categories@[ix as int].owner_id == owner,
        r is None <==> !cat_owned(s.categories@, owner, id),
{
    let mut i: usize = 0;
    while i < s.categories.len()
        invariant
            i <= s.categories@.len(),
            forall|k: int|
                0 <= k < i ==> !(#[trigger] s.categories@[k].id == id && s.categories@[k].owner_id
                    == owner),
        decreases s.categories@.len() - i,
    {
        if s.categories[i].id == id && s.categories[i].owner_id == owner {
            return Some(i);
        }
        i += 1;
    }
    None
}

/// Whether any transaction is logged against this category — the
/// referential probe a deletion makes.
pub open spec fn category_referenced(txns: Seq<TransactionRow>, cat_id: u128) -> bool {
    exists|i: int| 0 <= i < txns.len() && txns[i].category_id == cat_id
}

/// Whether some transaction references this category.
pub fn any_transaction_in_category(txns: &Vec<TransactionRow>, cat_id: u128) -> (r: bool)
    ensures
        r == category_referenced(txns@, cat_id),
{
    let mut i: usize = 0;
    while i < txns.len()
        invariant
            i <= txns@.len(),
            forall|k: int| 0 <= k < i ==> #[trigger] txns@[k].category_id != cat_id,
        decreases txns@.len() - i,
    {
        if txns[i].category_id == cat_id {
            return true;
        }
        i += 1;
    }
    false
}

/// Clones an optional description.
pub fn clone_opt_string(o: &Option<String>) -> (r: Option<String>)
    ensures
        r == *o,
{
    match o {
        None => None,
        Some(x) => Some(x.clone()),
    }
}

/// Clones a category row.
pub fn clone_category_row(c: &CategoryRow) -> (r: CategoryRow)
    ensures
        r == *c,
{
    CategoryRow {
        id: c.id,
        owner_id: c.owner_id,
        name: c.name.clone(),
        slug: c.slug.clone(),
        category_type: c.category_type,
        is_savings: c.is_savings,
        created_at: c.created_at,
    }
}

/// Clones a transaction row.
pub fn clone_transaction_row(t: &TransactionRow) -> (r: TransactionRow)
    ensures
        r == *t,
{
    TransactionRow {
        id: t.id,
        owner_id: t.owner_id,
        category_id: t.category_id,
        description: clone_opt_string(&t.description),
        amount: t.amount,
        transaction_date: t.transaction_date,
        created_at: t.created_at,
    }
}

/// Clones a user row.
pub fn clone_user_row(u: &UserRow) -> (r: UserRow)
    ensures
        r == *u,
{
    UserRow {
        id: u.id,
        name: u.name.clone(),
        email: u.email.clone(),
        password_hash: u.password_hash.clone(),
        is_active: u.is_active,
        created_at: u.created_at,
        updated_at: u.updated_at,
    }
}

/// Keeps the users other than the one with this identifier.
pub open spec fn user_keep_not_id(id: u128) -> spec_fn(UserRow) -> bool {
    |u: UserRow| u.id != id
}

/// Keeps the categories not owned by this user.
pub open spec fn cat_keep_not_owner(id: u128) -> spec_fn(CategoryRow) -> bool {
    |c: CategoryRow| c.owner_id != id
}

/// Keeps the transactions not owned by this user.
pub open spec fn txn_keep_not_owner(id: u128) -> spec_fn(TransactionRow) -> bool {
    |t: TransactionRow| t.owner_id != id
}

/// The user rows left once the row with this identifier is deleted.
pub fn users_without(users: &Vec<UserRow>, id: u128) -> (r: Vec<UserRow>)
    ensures
        r@ == users@.filter(user_keep_not_id(id)),
{
    let pred = Ghost(user_keep_not_id(id));
    let mut kept: Vec<UserRow> = Vec::new();
    let mut i: usize = 0;
    while i < users.len()
        invariant
            i <= users@.len(),
            kept@ == users@.subrange(0, i as int).filter(pred@),
            pred@ == user_keep_not_id(id),
        decreases users@.len() - i,
    {
        proof {
            let prefix = users@.subrange(0, i as int);
            assert(users@.subrange(0, i as int + 1) =~= prefix.push(users@[i as int]));
            prefix.lemma_filter_push(users@[i as int], pred@);
        }
        if users[i].id != id {
            kept.push(clone_user_row(&users[i]));
        }
        i += 1;
    }
    proof {
        assert(users@.subrange(0, users@.len() as int) =~= users@);
    }
    kept
}

/// The category rows left once this user's categories are deleted.
pub fn categories_without_owner(cats: &Vec<CategoryRow>, id: u128) -> (r: Vec<CategoryRow>)
    ensures
        r@ == cats@.filter(cat_keep_not_owner(id)),
{
    let pred = Ghost(cat_keep_not_owner(id));
    let mut kept: Vec<CategoryRow> = Vec::new();
    let mut i: usize = 0;
    while i < cats.len()
        invariant
            i <= cats@.len(),
            kept@ == cats@.subrange(0, i as int).filter(pred@),
            pred@ == cat_keep_not_owner(id),
        decreases cats@.len() - i,
    {
        proof {
            let prefix = cats@.subrange(0, i as int);
            assert(cats@.subrange(0, i as int + 1) =~= prefix.push(cats@[i as int]));
            prefix.lemma_filter_push(cats@[i as int], pred@);
        }
        if cats[i].owner_id != id {
            kept.push(clone_category_row(&cats[i]));
        }
        i += 1;
    }
    proof {
        assert(cats@.subrange(0, cats@.len() as int) =~= cats@);
    }
    kept
}

/// The transaction rows left once this user's transactions are deleted.
pub fn transactions_without_owner(txns: &Vec<TransactionRow>, id: u128) -> (r: Vec<TransactionRow>)
    ensures
        r@ == txns@.filter(txn_keep_not_owner(id)),
{
    let pred = Ghost(txn_keep_not_owner(id));
    let mut kept: Vec<TransactionRow> = Vec::new();
    let mut i: usize = 0;
    while i < txns.len()
        invariant
            i <= txns@.len(),
            kept@ == txns@.subrange(0, i as int).filter(pred@),
            pred@ == txn_keep_not_owner(id),
        decreases txns@.len() - i,
    {
        proof {
            let prefix = txns@.subrange(0, i as int);
            assert(txns@.subrange(0, i as int + 1) =~= prefix.push(txns@[i as int]));
            prefix.lemma_filter_push(txns@[i as int], pred@);
        }
        if txns[i].owner_id != id {
            kept.push(clone_transaction_row(&txns[i]));
        }
        i += 1;
    }
    proof {
        assert(txns@.subrange(0, txns@.len() as int) =~= txns@);
    }
    kept
}

/// Keeps the categories other than the one with this identifier.
pub open spec fn cat_keep_not_id(cat_id: u128) -> spec_fn(CategoryRow) -> bool {
    |c: CategoryRow| c.id != cat_id
}

/// The category rows left once the row with this identifier is deleted.
pub fn categories_without_id(cats: &Vec<CategoryRow>, cat_id: u128) -> (r: Vec<CategoryRow>)
    ensures
        r@ == cats@.filter(cat_keep_not_id(cat_id)),
{
    let pred = Ghost(cat_keep_not_id(cat_id));
    let mut kept: Vec<CategoryRow> = Vec::new();
    let mut i: usize = 0;
    while i < cats.len()
        invariant
            i <= cats@.len(),
            kept@ == cats@.subrange(0, i as int).filter(pred@),
            pred@ == cat_keep_not_id(cat_id),
        decreases cats@.len() - i,
    {
        proof {
            let prefix = cats@.subrange(0, i as int);
            assert(cats@.subrange(0, i as int + 1) =~= prefix.push(cats@[i as int]));
            prefix.lemma_filter_push(cats@[i as int], pred@);
        }
        if cats[i].id != cat_id {
            kept.push(clone_category_row(&cats[i]));
        }
        i += 1;
    }
    proof {
        assert(cats@.subrange(0, cats@.len() as int) =~= cats@);
    }
    kept
}

/// Whether one of the strings equals this one.
pub fn vec_contains_string(v: &Vec<String>, s: &String) -> (r: bool)
    ensures
        r == exists|k: int| 0 <= k < v@.len() && v@[k]@ == s@,
{
    let mut i: usize = 0;
    while i < v.len()
        invariant
            i <= v@.len(),
            forall|k: int| 0 <= k < i ==> #[trigger] v@[k]@ != s@,
        decreases v@.len() - i,
    {
        if v[i] == *s {
            return true;
        }
        i += 1;
    }
    false
}

/// Every element of a filtered sequence comes from the original, at some
/// index that is sound to quantify over.
pub proof fn lemma_filter_origin<A>(s: Seq<A>, pred: spec_fn(A) -> bool, i: int)
    requires
        0 <= i < s.filter(pred).len(),
    ensures
        exists|k: int| 0 <= k < s.len() && s[k] == s.filter(pred)[i],
    decreases s.len(),
{
    reveal(Seq::filter);
    if s.len() > 0 {
        let prefix = s.drop_last();
        if i < prefix.filter(pred).len() {
            lemma_filter_origin(prefix, pred, i);
            let k = choose|k: int| 0 <= k < prefix.len() && prefix[k] == prefix.filter(pred)[i];
            assert(s[k] == s.filter(pred)[i]);
        } else {
            assert(s[s.len() - 1] == s.filter(pred)[i]);
        }
    }
}

/// A property holding of every element of a sequence holds of every element
/// of any filtering of it.
pub proof fn lemma_filter_pointwise<A>(s: Seq<A>, pred: spec_fn(A) -> bool, prop: spec_fn(A) -> bool)
    requires
        forall|k: int| 0 <= k < s.len() ==> prop(#[trigger] s[k]),
    ensures
        forall|i: int| 0 <= i < s.filter(pred).len() ==> prop(#[trigger] s.filter(pred)[i]),
{
    assert forall|i: int| 0 <= i < s.filter(pred).len() implies prop(#[trigger] s.filter(pred)[i]) by {
        lemma_filter_origin(s, pred, i);
    }
}

/// A relation holding between every two elements of a sequence at distinct
/// indices holds likewise across any filtering of it.
pub proof fn lemma_filter_pairwise<A>(s: Seq<A>, pred: spec_fn(A) -> bool, rel: spec_fn(A, A) -> bool)
    requires
        forall|i: int, j: int|
            0 <= i < s.len() && 0 <= j < s.len() && i != j ==> rel(
                #[trigger] s[i],
                #[trigger] s[j],
            ),
    ensures
        forall|i: int, j: int|
            0 <= i < s.filter(pred).len() && 0 <= j < s.filter(pred).len() && i != j ==> rel(
                #[trigger] s.filter(pred)[i],
                #[trigger] s.filter(pred)[j],
            ),
    decreases s.len(),
{
    reveal(Seq::filter);
    if s.len() > 0 {
        let prefix = s.drop_last();
        let last = s.last();
        lemma_filter_pairwise(prefix, pred, rel);
        if pred(last) {
            assert forall|i: int, j: int|
                0 <= i < s.filter(pred).len() && 0 <= j < s.filter(pred).len() && i != j implies rel(
                #[trigger] s.filter(pred)[i],
                #[trigger] s.filter(pred)[j],
            ) by {
                let f = s.filter(pred);
                let fp = prefix.filter(pred);
                if i < fp.len() && j < fp.len() {
                } else if j == f.len() - 1 {
                    lemma_filter_origin(prefix, pred, i);
                    let k = choose|k: int| 0 <= k < prefix.len() && prefix[k] == fp[i];
                    assert(rel(s[k], s[s.len() - 1]));
                } else {
                    lemma_filter_origin(prefix, pred, j);
                    let k = choose|k: int| 0 <= k < prefix.len() && prefix[k] == fp[j];
                    assert(rel(s[s.len() - 1], s[k]));
                }
            }
        }
    }
}

} // verus!
