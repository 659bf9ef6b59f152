//! Rejection of zero-sized types through a sealed marker trait that every
//! sized type implements; its method only accepts receivers of non-zero size.

use vstd::prelude::*;
use vstd::layout::size_of;

mod sealed;

verus! {

/// Marker trait for non-zero-sized types.
///
/// Sealed: it cannot be implemented outside this crate, so the size
/// condition on `non_zst` cannot be bypassed.
pub trait NonZst: Sized + sealed::Sealed {
    /// Returns `self` unchanged; only types of non-zero size are accepted.
    fn non_zst(self) -> (out: Self)
        requires
            size_of::<Self>() != 0,
        ensures
            out == self,
    {
        self
    }
}

impl<T: Sized> NonZst for T {}

/// Calls `.non_zst()` so that callers need not import the trait.
pub fn non_zst_only<T: NonZst>(value: T) -> (out: T)
    requires
        size_of::<T>() != 0,
    ensures
        out == value,
{
    value.non_zst()
}

} // verus!
