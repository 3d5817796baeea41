//! The mathematical model: a list is the sequence of its elements, front first.

use vstd::prelude::*;

verus! {

/// The sequence with `elem` placed in front of `s`.
pub open spec fn prepended<T>(s: Seq<T>, elem: T) -> Seq<T> {
    seq![elem] + s
}

/// The front element of `s`, if there is one.
pub open spec fn head_of<T>(s: Seq<T>) -> Option<T> {
    if s.len() == 0 {
        None
    } else {
        Some(s[0])
    }
}

/// Everything behind the front element of `s`; empty when `s` is empty.
pub open spec fn tail_of<T>(s: Seq<T>) -> Seq<T> {
    if s.len() == 0 {
        Seq::empty()
    } else {
        s.subrange(1, s.len() as int)
    }
}

/// `tail_of` applied `k` times in a row to `s`.
pub open spec fn tails_of<T>(s: Seq<T>, k: nat) -> Seq<T>
    decreases k,
{
    if k == 0 {
        s
    } else {
        tails_of(tail_of(s), (k - 1) as nat)
    }
}

} // verus!
