//! Identity of handles: whether two handles denote the same storage location,
//! whatever the values they refer to.
//!
//! [`Same`] compares two handles by the address they resolve to, [`RefHash`]
//! hashes a handle by that address, and [`RefCmp`] wraps a handle so that `==`
//! and `Hash` go by identity, which makes it a key for collections of distinct
//! objects.
//!
//! To Verus a handle is the value it refers to, so the address of a handle is
//! no function of the handle. The contracts therefore speak of addresses as
//! plain numbers: [`address::lies_at`] relates a referent to the addresses that
//! it was found at, [`address::same_location`] says when two addresses are one
//! location, and [`hashing::fed`] says that an address went into an
//! accumulator. What is proved of identity is proved of these.
pub mod address;
pub mod hashing;
pub mod identity;
pub mod wrapper;

pub use crate::hashing::RefHash;
pub use crate::identity::Same;
pub use crate::wrapper::RefCmp;
