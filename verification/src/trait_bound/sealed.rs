use vstd::prelude::*;

verus! {

/// Supertrait that only this crate can implement.
pub trait Sealed {}

impl<T: Sized> Sealed for T {}

} // verus!
