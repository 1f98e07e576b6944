//! Hashing a handle by the address it resolves to.
use crate::address::{resolve, same_location};
use crate::identity::{answers_same, resolves_to_one, Same};
use core::hash::Hasher;
use std::rc::Rc;
use std::sync::Arc;
use vstd::prelude::*;

verus! {

/// Whether `address` was fed to an accumulator through the borrow `h`: what
/// [`feed`] did with the two.
///
/// A relation, since nothing is known of how an accumulator of an arbitrary
/// kind `H` keeps its state. The borrow holds the accumulator as it was before
/// the word went in, `*h`, and as it was left, `*final(h)`.
pub closed spec fn fed<H: Hasher>(h: &mut H, address: usize) -> bool {
    call_ensures(feed_address::<H>, (h, address), ())
}

/// Hands `address` to `Hasher::write_usize`, the accumulator's operation for a
/// word of the machine.
///
/// Trusted, and nothing is claimed of the accumulator afterwards: what it does
/// with the word is its own matter.
#[verifier::external_body]
fn feed_address<H: Hasher>(hasher: &mut H, address: usize) {
    hasher.write_usize(address)
}

/// Feeds a storage address to an accumulator, as one word and nothing else.
pub fn feed<H: Hasher>(hasher: &mut H, address: usize)
    ensures
        exists|h: &mut H|
            *h == *old(hasher) && *final(h) == *final(hasher) && #[trigger] fed(h, address),
{
    feed_address(hasher, address);
    proof {
        let h = choose|h: &mut H|
            *h == *old(hasher) && *final(h) == *final(hasher) && call_ensures(
                feed_address::<H>,
                (h, address),
                (),
            );
        assert(fed(h, address));
    }
}

/// Hashing by identity: the counterpart of `Hash` that feeds an accumulator
/// the address that a handle resolves to, and nothing of the value found
/// there.
///
/// Handles that are the same under [`Same`] are to hash alike, so a kind of
/// handle is hashed by the addresses that it resolves to.
pub trait RefHash {
    /// Whether `address` is a storage address that this handle may be hashed
    /// by.
    ///
    /// Unless a kind of handle says more, any address may be.
    open spec fn hashes_by(&self, address: usize) -> bool {
        true
    }

    /// Feeds the address of the referent to the accumulator: a borrow of the
    /// accumulator, which held it as it was at the call and leaves it as it is
    /// at the return, was fed one address that the handle is hashed by.
    fn ref_hash<H: Hasher>(&self, hasher: &mut H)
        ensures
            exists|h: &mut H, a: usize|
                *h == *old(hasher) && *final(h) == *final(hasher) && self.hashes_by(a)
                    && #[trigger] fed(h, a),
    ;
}

impl<'a, T: ?Sized> RefHash for &'a T {
    /// A reference is hashed by the addresses that it resolves to.
    open spec fn hashes_by(&self, address: usize) -> bool {
        Same::resolves_to(self, address)
    }

    fn ref_hash<H: Hasher>(&self, hasher: &mut H) {
        feed(hasher, resolve(*self))
    }
}

impl<T: ?Sized> RefHash for Box<T> {
    /// A box is hashed by the addresses that it resolves to.
    open spec fn hashes_by(&self, address: usize) -> bool {
        Same::resolves_to(self, address)
    }

    fn ref_hash<H: Hasher>(&self, hasher: &mut H) {
        (&**self).ref_hash(hasher)
    }
}

impl<T: ?Sized> RefHash for Rc<T> {
    /// An `Rc` is hashed by the addresses that it resolves to.
    open spec fn hashes_by(&self, address: usize) -> bool {
        Same::resolves_to(self, address)
    }

    fn ref_hash<H: Hasher>(&self, hasher: &mut H) {
        (&**self).ref_hash(hasher)
    }
}

impl<T: ?Sized> RefHash for Arc<T> {
    /// An `Arc` is hashed by the addresses that it resolves to.
    open spec fn hashes_by(&self, address: usize) -> bool {
        Same::resolves_to(self, address)
    }

    fn ref_hash<H: Hasher>(&self, hasher: &mut H) {
        (&**self).ref_hash(hasher)
    }
}

/// The contract of [`RefHash::ref_hash`] as a predicate on the borrow: through
/// `h`, the accumulator was fed an address that `x` is hashed by.
pub open spec fn hashed_through<T: RefHash + ?Sized, H: Hasher>(x: &T, h: &mut H) -> bool {
    exists|a: usize| x.hashes_by(a) && #[trigger] fed(h, a)
}

/// Whether `x` is hashed by the addresses that it resolves to and by no others,
/// as the kinds above are.
pub open spec fn hashed_as_resolved<T: Same + RefHash + ?Sized>(x: &T) -> bool {
    forall|a: usize| #[trigger] x.hashes_by(a) == x.resolves_to(a)
}

/// Hash consistency: addresses that are one location are fed alike, so
/// handles that are the same do the same to any accumulator.
pub proof fn lemma_same_location_fed_alike<H: Hasher>(a: usize, b: usize)
    requires
        same_location(a, b),
    ensures
        forall|h: &mut H| fed(h, a) == fed(h, b),
{
}

/// Hash consistency: where two handles are the same, each is hashed as it is
/// resolved, and the first resolves to one address only, whatever hashing does
/// with the first it may do with the second.
pub proof fn lemma_same_hashes_alike<T: Same + RefHash + ?Sized, H: Hasher>(
    x: &T,
    y: &T,
    h: &mut H,
)
    requires
        resolves_to_one(x),
        hashed_as_resolved(x),
        hashed_as_resolved(y),
        answers_same(x, y, true),
        hashed_through(x, h),
    ensures
        hashed_through(y, h),
{
}

} // verus!
