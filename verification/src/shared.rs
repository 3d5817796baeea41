//! Shared ownership of immutable values, as far as the list relies on it.
//!
//! The two functions here call into the standard library's atomically counted
//! pointer. Their contracts are taken on trust.

use std::sync::Arc;
use vstd::prelude::*;

verus! {

/// Calls `Arc::clone`: a second owner of the value that `this` points to. The
/// value itself is not copied, so the new pointer denotes the same value.
#[verifier::external_body]
pub(crate) fn share<V>(this: &Arc<V>) -> (other: Arc<V>)
    ensures
        other == *this,
{
    Arc::clone(this)
}

/// Calls `Arc::try_unwrap`: hands the value out when `this` was its only
/// owner, and hands `this` back untouched otherwise. Which of the two happens
/// depends on who else holds the value at that moment, so nothing is claimed
/// about it. The call does not unwind.
#[verifier::external_body]
pub(crate) fn reclaim<V>(this: Arc<V>) -> (outcome: Result<V, Arc<V>>)
    ensures
        match outcome {
            Ok(value) => value == *this,
            Err(kept) => kept == this,
        },
    opens_invariants none
    no_unwind
{
    Arc::try_unwrap(this)
}

} // verus!
