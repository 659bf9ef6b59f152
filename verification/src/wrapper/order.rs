//! Equality and ordering of wrappers, delegated to the wrapped values.

use vstd::prelude::*;
use vstd::std_specs::cmp::PartialEqSpec;
use vstd::std_specs::cmp::PartialOrdSpec;
use core::cmp::Ordering;

use super::NonZstVal;

verus! {

impl<T: PartialEq> PartialEq for NonZstVal<T> {
    fn eq(&self, other: &Self) -> (r: bool) {
        self.0 == other.0
    }
}

impl<T: PartialEq> vstd::std_specs::cmp::PartialEqSpecImpl for NonZstVal<T> {
    open spec fn obeys_eq_spec() -> bool {
        T::obeys_eq_spec()
    }

    open spec fn eq_spec(&self, other: &Self) -> bool {
        self@.eq_spec(&other@)
    }
}

impl<T: PartialOrd> PartialOrd for NonZstVal<T> {
    fn partial_cmp(&self, other: &Self) -> (r: Option<Ordering>) {
        self.0.partial_cmp(&other.0)
    }
}

impl<T: PartialOrd> vstd::std_specs::cmp::PartialOrdSpecImpl for NonZstVal<T> {
    open spec fn obeys_partial_cmp_spec() -> bool {
        T::obeys_partial_cmp_spec()
    }

    open spec fn partial_cmp_spec(&self, other: &Self) -> Option<Ordering> {
        self@.partial_cmp_spec(&other@)
    }
}

impl<T: PartialEq> NonZstVal<T> {
    /// Two wrappers compare equal exactly when their contents do.
    pub proof fn lemma_eq_follows_contents(a: Self, b: Self)
        ensures
            Self::obeys_eq_spec() == T::obeys_eq_spec(),
            a.eq_spec(&b) == a@.eq_spec(&b@),
    {
    }
}

impl<T: PartialOrd> NonZstVal<T> {
    /// Two wrappers are ordered as their contents are.
    pub proof fn lemma_order_follows_contents(a: Self, b: Self)
        ensures
            Self::obeys_partial_cmp_spec() == T::obeys_partial_cmp_spec(),
            a.partial_cmp_spec(&b) == a@.partial_cmp_spec(&b@),
    {
    }
}

} // verus!
