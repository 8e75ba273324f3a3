//! The slug resolver: deterministic name-to-slug normalization.
//!
//! A category's stored slug and the slug a transaction's category reference
//! is resolved by must come from the identical routine, or lookups diverge
//! from what was stored.  Both call sites in this crate go through
//! [`slugify`], whose outcome is the one function [`slug_of`].

use vstd::prelude::*;

verus! {

/// The slug that normalizing a name yields: lowercased, transliterated to
/// a URL-safe token set, separators collapsed.  A fixed, total function of
/// the name alone.
pub uninterp spec fn slug_of(name: Seq<char>) -> Seq<char>;

/// Relies on `slug::slugify`: a pure, total normalization whose result is a
/// function of the input string alone.
#[verifier::external_body]
pub fn slugify(name: &str) -> (r: String)
    ensures
        r@ == slug_of(name@),
{
    slug::slugify(name)
}

/// Normalization is deterministic: equal names always resolve to equal
/// slugs, whichever call site normalizes them.
pub proof fn lemma_slug_deterministic(a: Seq<char>, b: Seq<char>)
    requires
        a == b,
    ensures
        slug_of(a) == slug_of(b),
{
}

} // verus!
