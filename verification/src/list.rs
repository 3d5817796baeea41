//! The list handle.

use std::sync::Arc;
use vstd::prelude::*;
use crate::iter::Iter;
use crate::model::{head_of, prepended, tail_of};
use crate::node::{chain, rest_to_release, share_link, Link, Node};
use crate::shared::reclaim;

verus! {

/// A handle on a persistent list. No operation changes the list that a
/// handle denotes; what looks like a change returns a new handle.
pub struct List<T> {
    head: Link<T>,
}

impl<T> View for List<T> {
    type V = Seq<T>;

    /// The elements of the list, front first.
    closed spec fn view(&self) -> Seq<T> {
        chain(self.head)
    }
}

impl<T> List<T> {
    /// The empty list.
    pub fn new() -> (list: Self)
        ensures
            list@ == Seq::<T>::empty(),
    {
        List { head: None }
    }

    /// The list with `elem` in front of the elements of `self`. One node is
    /// built; the chain of `self` is shared, not copied.
    pub fn prepend(&self, elem: T) -> (list: List<T>)
        ensures
            list@ == prepended(self@, elem),
    {
        List { head: Some(Arc::new(Node { elem, next: share_link(&self.head) })) }
    }

    /// The list behind the front element; empty when `self` is empty.
    pub fn tail(&self) -> (list: List<T>)
        ensures
            list@ == tail_of(self@),
    {
        match &self.head {
            None => List { head: None },
            Some(node) => {
                List { head: share_link(&node.next) }
            },
        }
    }

    /// The front element, if there is one.
    pub fn head(&self) -> (front: Option<&T>)
        ensures
            match front {
                Some(elem) => head_of(self@) == Some(*elem),
                None => head_of(self@) is None,
            },
    {
        match &self.head {
            None => None,
            Some(node) => Some(&node.elem),
        }
    }

    /// A reader that yields the elements of the list, front first. Readers
    /// are independent of each other and leave the list as it is.
    pub fn iter(&self) -> (reader: Iter<'_, T>)
        ensures
            reader@ == self@,
    {
        match &self.head {
            None => Iter::over(None),
            Some(node) => Iter::over(Some(&**node)),
        }
    }
}

impl<T> Drop for List<T> {
    /// Releases the chain without recursion. The handle is left empty. Nodes
    /// that it alone still owned are taken apart one by one, and the walk
    /// stops at the first node that another owner still holds.
    fn drop(&mut self)
        ensures
            final(self)@ == Seq::<T>::empty(),
        opens_invariants none
        no_unwind
    {
        let mut cur: Link<T> = None;
        core::mem::swap(&mut self.head, &mut cur);
        loop
            invariant
                self.head is None,
            decreases chain(cur).len(),
        {
            match cur {
                None => {
                    break ;
                },
                Some(node) => {
                    cur = rest_to_release(reclaim(node));
                },
            }
        }
    }
}

} // verus!
