//! A singly-linked stack, generic over its element type.
//!
//! [`List`] owns a chain of nodes from the head down. It is pushed to and
//! popped from at the head, and it can be walked in three ways: by value
//! ([`IntoIter`]), by shared reference ([`Iter`]) and by exclusive reference
//! ([`IterMut`]).
//!
//! Every operation is specified over the sequence of the list's elements,
//! top first; [`model`] holds the vocabulary of those contracts and the laws
//! that follow from them.

pub mod list;
pub mod model;

pub use list::iter::{IntoIter, Iter, IterMut};
pub use list::{List, Node};
