//! Reading a list front to back.

use vstd::prelude::*;
use crate::model::{head_of, tail_of};
use crate::node::Node;

verus! {

/// A forward-only reader over the elements of a list. It borrows the nodes
/// it walks and can change neither an element nor a link.
pub struct Iter<'a, T> {
    next: Option<&'a Node<T>>,
}

impl<'a, T> View for Iter<'a, T> {
    type V = Seq<T>;

    /// The elements still to be yielded, in the order in which they will come.
    closed spec fn view(&self) -> Seq<T> {
        match self.next {
            None => Seq::empty(),
            Some(node) => node.elems(),
        }
    }
}

impl<'a, T> Iter<'a, T> {
    /// A reader that starts at `start`.
    pub(crate) fn over(start: Option<&'a Node<T>>) -> (reader: Self)
        ensures
            reader@ == match start {
                None => Seq::<T>::empty(),
                Some(node) => node.elems(),
            },
    {
        Iter { next: start }
    }

    /// Yields the next element and moves past it. Once the elements are used
    /// up it yields `None`, however often it is asked.
    pub fn next(&mut self) -> (item: Option<&'a T>)
        ensures
            match item {
                Some(elem) => head_of(old(self)@) == Some(*elem),
                None => head_of(old(self)@) is None,
            },
            final(self)@ == tail_of(old(self)@),
    {
        match self.next {
            None => None,
            Some(node) => {
                self.next = match &node.next {
                    None => None,
                    Some(behind) => Some(&**behind),
                };
                Some(&node.elem)
            },
        }
    }
}

} // verus!
