//! The hash sets a request carries. They are `std`'s `HashSet` with `ahash`'s
//! hasher. What vstd states of a `HashSet` it states for hashers that it knows
//! to hash equal values alike, and `ahash`'s is not among them; so what Verus
//! knows of these sets comes from the contracts stated here.

use vstd::prelude::*;
use crate::order::OrderPaymentStatus;

verus! {

/// `ahash`'s hasher state, the hasher parameter of `ahash::HashSet`. Nothing
/// is claimed of it; it is declared so that the sets can stand in fields and
/// signatures.
#[verifier::external_type_specification]
#[verifier::external_body]
pub struct ExRandomState(ahash::RandomState);

/// The types of the members of a request's sets: warehouse ids, payment
/// statuses and field identifiers. For each of them `==` and `Hash` go by the
/// value alone, so a set holds no value twice.
pub trait Member: Clone {

}

impl Member for i64 {

}

impl Member for OrderPaymentStatus {

}

impl Member for String {

}

/// Whether `list` is one way of walking through `set`: it meets every member
/// exactly once and nothing else.
pub open spec fn is_walk<T>(list: Seq<T>, set: Set<T>) -> bool {
    list.no_duplicates() && list.to_set() == set
}

/// Calls `HashSet::contains` with a borrowed name. The contract claims that the
/// answer is membership of the name's characters among the characters of the
/// strings held: that a lookup under `ahash`'s hasher finds what is there.
#[verifier::external_body]
pub(crate) fn holds_name(set: &ahash::HashSet<String>, name: &str) -> (held: bool)
    ensures
        held == set.deep_view().contains(name@),
{
    set.contains(name)
}

/// Walks the set with `HashSet::iter` and clones the members out in the order
/// in which the iterator yields them. The contract claims that every member is
/// met exactly once; it says nothing of the order, which the hasher decides
/// anew for every set.
#[verifier::external_body]
pub(crate) fn walk<T: Member>(set: &ahash::HashSet<T>) -> (list: Vec<T>)
    ensures
        is_walk(list@, set@),
{
    set.iter().cloned().collect()
}

} // verus!
