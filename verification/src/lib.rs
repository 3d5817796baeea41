//! A persistent singly-linked list.
//!
//! A [`List`] is an immutable sequence. Adding an element to the front or
//! removing the front element yields a new handle that shares every untouched
//! node with the handle it came from. Contracts are stated over the sequence
//! of elements that a handle denotes, front first.

pub mod model;
mod shared;
mod node;
pub mod iter;
pub mod list;
pub mod laws;

pub use iter::Iter;
pub use list::List;
