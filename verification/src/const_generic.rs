//! Rejection of zero-sized types phrased as a predicate on a boolean constant.
//!
//! `Assert<B>` implements `IsTrue` exactly when `B` is `true`; the size
//! condition of `non_zst_only` is the predicate that such a bound expresses.

use vstd::prelude::*;
use vstd::layout::size_of;

verus! {

/// A marker carrying a boolean constant in its type.
pub struct Assert<const B: bool>;

/// Implemented only by `Assert<true>`.
pub trait IsTrue {}

impl IsTrue for Assert<true> {}

/// Hands `value` back unchanged; only types of non-zero size are accepted.
pub fn non_zst_only<T>(value: T) -> (out: T)
    requires
        size_of::<T>() != 0,
    ensures
        out == value,
{
    value
}

} // verus!
