//! Laws that relate the operations of a list to each other.
//!
//! They are stated over the sequences that the contracts of the operations
//! speak of, so they hold of every handle and of every reader.

use vstd::prelude::*;
use crate::model::{head_of, prepended, tail_of, tails_of};

verus! {

/// Adding an element to the front and looking at the result: the front
/// element is the one that was added, and behind it stands the list that it
/// was added to, element for element.
pub proof fn prepend_then_head_and_tail<T>(s: Seq<T>, elem: T)
    ensures
        head_of(prepended(s, elem)) == Some(elem),
        tail_of(prepended(s, elem)) == s,
{
    assert(tail_of(prepended(s, elem)) =~= s);
}

/// Taking the tail `k` times drops the first `k` elements, or all of them
/// where there are fewer.
pub proof fn tails_drop_front<T>(s: Seq<T>, k: nat)
    ensures
        tails_of(s, k) == if k <= s.len() {
            s.subrange(k as int, s.len() as int)
        } else {
            Seq::empty()
        },
    decreases k,
{
    if k == 0 {
        assert(s.subrange(0, s.len() as int) =~= s);
    } else {
        let t = tail_of(s);
        tails_drop_front(t, (k - 1) as nat);
        if s.len() == 0 {
            if k == 1 {
                assert(t.subrange(0, 0) =~= Seq::<T>::empty());
            }
        } else if k <= s.len() {
            assert(t.subrange(k - 1, t.len() as int) =~= s.subrange(k as int, s.len() as int));
        }
    }
}

/// Taking the tail of a list of `n` elements `n` times or more, `n + 1` times
/// in particular, reaches the empty list and stays there: it has no front
/// element, and its tail is empty again.
pub proof fn tails_reach_empty<T>(s: Seq<T>, k: nat)
    requires
        k >= s.len(),
    ensures
        tails_of(s, k) == Seq::<T>::empty(),
        head_of(tails_of(s, k)) is None,
        tails_of(s, k + 1) == tails_of(s, k),
{
    tails_drop_front(s, k);
    tails_drop_front(s, k + 1);
    assert(s.subrange(s.len() as int, s.len() as int) =~= Seq::<T>::empty());
}

/// After `k` tails of a list with more than `k` elements, the front element
/// is the one at position `k`: elements come out in the order in which the
/// sequence holds them.
pub proof fn kth_tail_starts_at_k<T>(s: Seq<T>, k: nat)
    requires
        k < s.len(),
    ensures
        head_of(tails_of(s, k)) == Some(s[k as int]),
{
    tails_drop_front(s, k);
}

} // verus!
