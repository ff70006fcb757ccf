//! A growable contiguous array built on a raw slot storage.
//!
//! The storage ([`RawVec`]) is a run of slots, each either empty or holding
//! one element, and knows nothing of how many slots are in use. The container
//! ([`Vector`]) owns one storage and a length, and keeps its elements in the
//! leading slots. Two iterators hand the elements out by value: [`IntoIter`]
//! consumes the container, [`Drain`] empties it and leaves it ready for reuse.
//! Both walk their slots with the same cursor ([`RawValIter`]).

pub mod drain;
pub mod growth;
pub mod into_iter;
pub mod laws;
pub mod raw_val_iter;
pub mod raw_vec;
pub mod vector;

pub use drain::Drain;
pub use into_iter::IntoIter;
pub use raw_val_iter::RawValIter;
pub use raw_vec::RawVec;
pub use vector::Vector;
