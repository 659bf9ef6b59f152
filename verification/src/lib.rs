//! Four ways of accepting only values whose type takes up space, and the
//! driver-model logic of the event-logging drivers built on top of them.

use vstd::prelude::*;

pub mod const_generic;
pub mod driver;
pub mod inline_const;
pub mod trait_bound;
pub mod wrapper;

verus! {

/// A zero-sized type that has a value (a unit struct).
pub struct Empty;

/// A zero-sized type that has no value at all: std's empty enum
/// `Infallible` under this name, with its trait impls.
pub type Void = core::convert::Infallible;

} // verus!
