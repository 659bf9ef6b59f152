//! Rejection of zero-sized types stated as a precondition on the size of the type.

use vstd::prelude::*;
use vstd::layout::size_of;

verus! {

/// Returns the size of `T` in bytes; callers must hand it a type that takes up space.
fn assert_non_zst<T>() -> (size: usize)
    requires
        size_of::<T>() != 0,
    ensures
        size as nat == size_of::<T>(),
        size != 0,
{
    core::mem::size_of::<T>()
}

/// Hands `value` back unchanged; only types of non-zero size are accepted.
pub fn non_zst_only<T>(value: T) -> (out: T)
    requires
        size_of::<T>() != 0,
    ensures
        out == value,
{
    let _size = assert_non_zst::<T>();
    value
}

} // verus!
