//! Formatting a wrapped value with its own `Display` implementation.

use vstd::prelude::*;
use core::fmt::Write;

verus! {

/// Writes `value` into a new `String` with std's `write!`, that is with the
/// value's own `Display` implementation: `Some` of the text, or `None` when
/// that implementation reports an error (writing into a `String` reports
/// none of its own). Nothing is stated of the text or of when an
/// implementation reports an error: both are that implementation's.
#[verifier::external_body]
pub fn display_string<T: core::fmt::Display>(value: &T) -> Option<String> {
    let mut text = String::new();
    match write!(text, "{}", value) {
        Ok(()) => Some(text),
        Err(_) => None,
    }
}

} // verus!
