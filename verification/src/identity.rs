//! The identity test and the handle kinds that have it.
use crate::address::{lies_at, resolve, same_address, same_location};
use std::rc::Rc;
use std::sync::Arc;
use vstd::prelude::*;

verus! {

/// The identity test: whether two handles denote one and the same object.
///
/// Where `PartialEq` asks whether two values are equal, `same` asks whether
/// they are one value in one place. It is implemented for shared references,
/// `Box`, `Rc` and `Arc`.
///
/// Two boxes never share their referent, so between two boxes of a type that
/// takes up storage the answer is always `false`; the implementation is there
/// so that generic code can treat every handle alike.
pub trait Same {
    /// Whether `address` is a storage address that this handle may resolve to.
    ///
    /// Unless a kind of handle says more, any address may be.
    open spec fn resolves_to(&self, address: usize) -> bool {
        true
    }

    /// Whether `self` and `other` denote the same object: the answer says
    /// whether the address that `self` resolves to and the address that `other`
    /// resolves to are one location.
    fn same(&self, other: &Self) -> (r: bool)
        ensures
            exists|a: usize, b: usize|
                self.resolves_to(a) && other.resolves_to(b) && r == #[trigger] same_location(a, b),
    ;
}

/// The contract of [`Same::same`] as a predicate: `r` says whether an address
/// that `x` resolves to and an address that `y` resolves to are one location.
pub open spec fn answers_same<T: Same + ?Sized>(x: &T, y: &T, r: bool) -> bool {
    exists|a: usize, b: usize|
        x.resolves_to(a) && y.resolves_to(b) && r == #[trigger] same_location(a, b)
}

impl<'a, T: ?Sized> Same for &'a T {
    /// A reference resolves to where its referent lies.
    open spec fn resolves_to(&self, address: usize) -> bool {
        lies_at::<T>(*self, address)
    }

    fn same(&self, other: &Self) -> (r: bool) {
        same_address(resolve(*self), resolve(*other))
    }
}

impl<T: ?Sized> Same for Box<T> {
    /// A box resolves to where the value that it owns lies, not to where the
    /// box itself is kept.
    open spec fn resolves_to(&self, address: usize) -> bool {
        lies_at::<T>(&**self, address)
    }

    fn same(&self, other: &Self) -> (r: bool) {
        same_address(resolve(&**self), resolve(&**other))
    }
}

impl<T: ?Sized> Same for Rc<T> {
    /// An `Rc` resolves to where the shared value lies.
    open spec fn resolves_to(&self, address: usize) -> bool {
        lies_at::<T>(&**self, address)
    }

    fn same(&self, other: &Self) -> (r: bool) {
        same_address(resolve(&**self), resolve(&**other))
    }
}

impl<T: ?Sized> Same for Arc<T> {
    /// An `Arc` resolves to where the shared value lies.
    open spec fn resolves_to(&self, address: usize) -> bool {
        lies_at::<T>(&**self, address)
    }

    fn same(&self, other: &Self) -> (r: bool) {
        same_address(resolve(&**self), resolve(&**other))
    }
}

/// Whether `x` resolves to one address only.
///
/// A handle that carries its identity in its value does. Verus takes a handle
/// of the kinds above for the value that it refers to, and one value may lie
/// at many addresses: of such a handle this cannot be shown.
pub open spec fn resolves_to_one<T: Same + ?Sized>(x: &T) -> bool {
    forall|a: usize, b: usize|
        #[trigger] x.resolves_to(a) && #[trigger] x.resolves_to(b) ==> same_location(a, b)
}

/// Reflexivity: a handle that resolves to one address only is the same as
/// itself, whatever `same` may answer for it.
pub proof fn lemma_same_reflexive<T: Same + ?Sized>(x: &T, r: bool)
    requires
        resolves_to_one(x),
        answers_same(x, x, r),
    ensures
        r,
{
}

/// Symmetry: whatever `same` may answer for two handles, it may answer for
/// them in the other order.
pub proof fn lemma_same_symmetric<T: Same + ?Sized>(x: &T, y: &T, r: bool)
    requires
        answers_same(x, y, r),
    ensures
        answers_same(y, x, r),
{
    let (a, b): (usize, usize) = choose|a: usize, b: usize|
        x.resolves_to(a) && y.resolves_to(b) && r == #[trigger] same_location(a, b);
    assert(r == same_location(b, a));
}

} // verus!
