//! Storage addresses as plain numbers.
use vstd::prelude::*;

verus! {

/// Two storage addresses denote one location exactly when they are equal.
pub open spec fn same_location(a: usize, b: usize) -> bool {
    a == b
}

/// Whether `referent` was found to lie at `address`: what [`resolve`] returned
/// for a reference to it.
///
/// This is a relation and no function. Verus sees in a reference only the
/// value behind it, and equal values may lie at different addresses.
pub closed spec fn lies_at<T: ?Sized>(referent: &T, address: usize) -> bool {
    call_ensures(address_of::<T>, (referent,), address)
}

/// The address that the reference holds: `core::ptr::from_ref` makes a pointer
/// of the reference, and the pointer's `addr` gives its address without the
/// length or table that a pointer to an unsized referent carries beside it.
///
/// Trusted, and nothing is claimed of the number: it depends on where the
/// referent lies in memory. The pointer does not leave this function.
#[verifier::external_body]
fn address_of<T: ?Sized>(referent: &T) -> (address: usize) {
    core::ptr::from_ref(referent).addr()
}

/// Resolves a reference to the storage address of its referent.
pub fn resolve<T: ?Sized>(referent: &T) -> (address: usize)
    ensures
        lies_at(referent, address),
{
    address_of(referent)
}

/// Compares two storage addresses.
pub fn same_address(a: usize, b: usize) -> (r: bool)
    ensures
        r == same_location(a, b),
{
    a == b
}

/// Reflexivity: every address is the same location as itself.
pub proof fn lemma_same_location_reflexive(a: usize)
    ensures
        same_location(a, a),
{
}

/// Symmetry: which of two addresses comes first does not matter.
pub proof fn lemma_same_location_symmetric(a: usize, b: usize)
    ensures
        same_location(a, b) == same_location(b, a),
{
}

/// Transitivity: what is one location with a second address, and that with a
/// third, is one location with the third.
pub proof fn lemma_same_location_transitive(a: usize, b: usize, c: usize)
    requires
        same_location(a, b),
        same_location(b, c),
    ensures
        same_location(a, c),
{
}

/// Distinctness: addresses that differ are not one location, whatever values
/// lie at them.
pub proof fn lemma_same_location_distinct(a: usize, b: usize)
    requires
        a != b,
    ensures
        !same_location(a, b),
{
}

} // verus!
