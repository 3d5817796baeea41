//! The shared node chain behind every list handle.

use std::sync::Arc;
use vstd::prelude::*;
use crate::shared::share;

verus! {

/// An optional, shared reference to the first node of a chain.
pub(crate) type Link<T> = Option<Arc<Node<T>>>;

/// One element and the link to the chain behind it. A node is never changed
/// once it has been built, and it can only link to a chain that existed
/// before it, so every chain is finite and free of cycles.
pub(crate) struct Node<T> {
    pub(crate) elem: T,
    pub(crate) next: Link<T>,
}

impl<T> Node<T> {
    /// The elements of the chain that starts at this node, front first.
    pub(crate) open spec fn elems(self) -> Seq<T>
        decreases self,
    {
        seq![self.elem] + chain(self.next)
    }
}

/// The elements reachable through `link`, front first.
pub(crate) open spec fn chain<T>(link: Link<T>) -> Seq<T>
    decreases link,
{
    match link {
        None => Seq::empty(),
        Some(node) => node.elems(),
    }
}

/// Another owner of the chain behind `link`. No node is copied.
pub(crate) fn share_link<T>(link: &Link<T>) -> (other: Link<T>)
    ensures
        other == *link,
{
    match link {
        None => None,
        Some(node) => Some(share(node)),
    }
}

/// One step of taking a chain apart, given what came of the attempt to
/// reclaim its first node. A node that had no other owner is taken apart and
/// the walk goes on with the chain behind it. A node that somebody else still
/// holds ends the walk: the rest of the chain is theirs.
pub(crate) fn rest_to_release<T>(attempt: Result<Node<T>, Arc<Node<T>>>) -> (rest: Link<T>)
    ensures
        match attempt {
            Ok(node) => rest == node.next,
            Err(_) => rest is None,
        },
    opens_invariants none
    no_unwind
{
    match attempt {
        Ok(node) => node.next,
        Err(_) => None,
    }
}

} // verus!
