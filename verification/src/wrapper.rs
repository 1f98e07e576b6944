//! The wrapper that turns identity into `==` and `Hash`.
use crate::hashing::{fed, RefHash};
use crate::identity::{answers_same, Same};
use core::borrow::Borrow;
use core::hash::{Hash, Hasher};
use core::ops::Deref;
use vstd::prelude::*;
use vstd::std_specs::cmp::PartialEqSpecImpl;

verus! {

/// A key by identity: a handle wrapped so that `==` is [`Same::same`] and
/// `Hash` is [`RefHash::ref_hash`].
///
/// Neither takes anything from the value that the handle refers to. In a hash
/// set of such keys a second handle to an object that is already there counts
/// as a duplicate, and a handle to an equal object elsewhere does not.
///
/// The wrapper holds the handle and nothing else, and hands it out by `Deref`
/// and `Borrow`; `AsRef` goes on to what the handle's own `AsRef` gives.
pub struct RefCmp<T: Same + ?Sized>(pub T);

impl<T: Same + ?Sized> PartialEqSpecImpl for RefCmp<T> {
    /// `==` on wrappers asks where the handles point, which no function of the
    /// wrapped values can tell: [`PartialEq::eq`] states its own contract.
    open spec fn obeys_eq_spec() -> bool {
        false
    }

    /// Stands for nothing, since `==` obeys no such function.
    open spec fn eq_spec(&self, other: &Self) -> bool {
        false
    }
}

impl<T: Same + ?Sized> PartialEq for RefCmp<T> {
    /// The answer of [`Same::same`] for the two wrapped handles.
    fn eq(&self, other: &Self) -> (r: bool)
        ensures
            answers_same(&self.0, &other.0, r),
    {
        self.0.same(&other.0)
    }
}

impl<T: Same + ?Sized> Eq for RefCmp<T> {}

impl<T: Same + RefHash + ?Sized> Hash for RefCmp<T> {
    /// What [`RefHash::ref_hash`] does with the wrapped handle, and nothing
    /// else.
    fn hash<H: Hasher>(&self, hasher: &mut H)
        ensures
            exists|h: &mut H, a: usize|
                *h == *old(hasher) && *final(h) == *final(hasher) && self.0.hashes_by(a)
                    && #[trigger] fed(h, a),
    {
        self.0.ref_hash(hasher)
    }
}

impl<T: Same + ?Sized> Deref for RefCmp<T> {
    type Target = T;

    /// The wrapped handle.
    fn deref(&self) -> (inner: &T)
        ensures
            inner == &self.0,
    {
        &self.0
    }
}

impl<U, T: Same + AsRef<U> + ?Sized> AsRef<U> for RefCmp<T> {
    /// The wrapped handle's own `AsRef::as_ref`.
    ///
    /// Trusted: what comes back is decided by the handle's implementation.
    #[verifier::external_body]
    fn as_ref(&self) -> &U {
        self.0.as_ref()
    }
}

impl<T: Same + ?Sized> Borrow<T> for RefCmp<T> {
    /// The wrapped handle.
    fn borrow(&self) -> &T
        returns
            &self.0,
    {
        &self.0
    }
}

} // verus!
