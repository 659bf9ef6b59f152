use vstd::prelude::*;
use vstd::layout::size_of;
use vstd::std_specs::convert::IntoSpec;
use vstd::std_specs::convert::FromSpec;
use vstd::string::to_string_from_display_ensures;

mod display;
mod order;

use display::display_string;

verus! {

/// Returns the size of `T` in bytes; callers must hand it a type that takes up space.
fn assert_non_zst<T>() -> (size: usize)
    requires
        size_of::<T>() != 0,
    ensures
        size as nat == size_of::<T>(),
        size != 0,
{
    core::mem::size_of::<T>()
}

/// A value wrapped so that its type is checked to take up space.
///
/// `new` (and the functions built on it) accepts only types of non-zero
/// size. `From::from` and `Default::default` build wrappers as well; std's
/// trait methods take no precondition, so they do not check the size.
/// Equality, partial ordering, cloning, conversion and dereferencing are
/// proved to go to the wrapped value; `Ord`, `Hash` and `Debug` are derived,
/// so they act on the one field as well, but nothing about them is proved.
#[derive(Debug, Copy, Eq, Ord, Hash)]
pub struct NonZstVal<T>(T);

impl<T> View for NonZstVal<T> {
    type V = T;

    closed spec fn view(&self) -> T {
        self.0
    }
}

impl<T> NonZstVal<T> {
    /// The wrapper that holds `value`.
    pub closed spec fn wrap(value: T) -> Self {
        NonZstVal(value)
    }

    /// Wraps `value`; only types of non-zero size are accepted.
    pub fn new(value: T) -> (w: Self)
        requires
            size_of::<T>() != 0,
        ensures
            w == Self::wrap(value),
            w@ == value,
    {
        let _size = assert_non_zst::<T>();
        NonZstVal(value)
    }

    /// Gives back the wrapped value.
    pub fn into_inner(self) -> (value: T)
        ensures
            value == self@,
    {
        self.0
    }

    /// What a wrapper gives back is what it was given: `new(v).into_inner() == v`.
    pub proof fn lemma_wrap_view(value: T)
        ensures
            Self::wrap(value)@ == value,
    {
    }

    /// Every wrapper is the wrapping of what it holds.
    pub proof fn lemma_view_wrap(w: Self)
        ensures
            Self::wrap(w@) == w,
    {
    }

    /// Two wrappers are the same value exactly when their contents are.
    pub proof fn lemma_wrap_injective(a: T, b: T)
        ensures
            (Self::wrap(a) == Self::wrap(b)) == (a == b),
    {
    }

    /// Converting with `From` or `Into` gives the same wrapper as `new`.
    pub proof fn lemma_conversions_agree_with_new(value: T)
        ensures
            <Self as FromSpec<T>>::obeys_from_spec(),
            <Self as FromSpec<T>>::from_spec(value) == Self::wrap(value),
            <T as IntoSpec<Self>>::obeys_into_spec(),
            <T as IntoSpec<Self>>::into_spec(value) == Self::wrap(value),
    {
    }
}

impl<T: Clone> Clone for NonZstVal<T> {
    fn clone(&self) -> (copy: Self)
        ensures
            cloned::<T>(self@, copy@),
    {
        NonZstVal(self.0.clone())
    }
}

impl<T: core::fmt::Display> NonZstVal<T> {
    /// The text that the wrapped value displays as: exactly the text of the
    /// wrapped value's own `Display` (what its `to_string` gives), `Some` of it
    /// when writing it reports no error and `None` when it does. The text is
    /// taken from std's `ToString`, after `display_string` has found that the
    /// value displays without error.
    pub fn to_string(&self) -> (text: Option<String>)
        ensures
            text matches Some(s) ==> to_string_from_display_ensures::<T>(&self@, s),
            text is None ==> call_ensures(display_string::<T>, (&self@,), None::<String>),
            text is Some ==> exists|r: Option<String>|
                call_ensures(display_string::<T>, (&self@,), r) && r is Some,
    {
        let checked = display_string(&self.0);
        match checked {
            Some(_) => {
                assert(call_ensures(display_string::<T>, (&self@,), checked));
                Some(self.0.to_string())
            },
            None => None,
        }
    }

    /// Wrapping does not change how a value displays: whatever text
    /// `to_string` gives for a wrapper is the display text of its contents.
    pub proof fn lemma_display_forwards(w: Self, text: Option<String>)
        requires
            call_ensures(Self::to_string, (&w,), text),
        ensures
            text matches Some(s) ==> to_string_from_display_ensures::<T>(&w@, s),
    {
    }
}

/// Wraps `T`'s default value; the size of `T` is not checked here.
impl<T: Default> Default for NonZstVal<T> {
    fn default() -> (w: Self)
        ensures
            call_ensures(T::default, (), w@),
            w == Self::wrap(w@),
    {
        NonZstVal(T::default())
    }
}

/// Wraps `value`, as `new` does, except that the size of `T` is not checked here.
impl<T> From<T> for NonZstVal<T> {
    fn from(value: T) -> (w: Self)
        ensures
            w == Self::wrap(value),
            w@ == value,
    {
        NonZstVal(value)
    }
}

impl<T> vstd::std_specs::convert::FromSpecImpl<T> for NonZstVal<T> {
    open spec fn obeys_from_spec() -> bool {
        true
    }

    open spec fn from_spec(v: T) -> Self {
        Self::wrap(v)
    }
}

impl<T> core::ops::Deref for NonZstVal<T> {
    type Target = T;

    fn deref(&self) -> (r: &T)
        ensures
            *r == self@,
    {
        &self.0
    }
}

impl<T> core::ops::DerefMut for NonZstVal<T> {
    fn deref_mut(&mut self) -> (r: &mut T)
        ensures
            *r == old(self)@,
            final(self)@ == *final(r),
    {
        &mut self.0
    }
}

impl<T> AsRef<T> for NonZstVal<T> {
    fn as_ref(&self) -> (r: &T)
        ensures
            *r == self@,
    {
        &self.0
    }
}

impl<T> AsMut<T> for NonZstVal<T> {
    fn as_mut(&mut self) -> (r: &mut T)
        ensures
            *r == old(self)@,
            final(self)@ == *final(r),
    {
        &mut self.0
    }
}

// In the two impls below the result is bound to a variable of the wrapped
// type's reference type, which picks this impl over std's reflexive one.
impl<T> core::borrow::Borrow<T> for NonZstVal<T> {
    fn borrow(&self) -> (r: &T)
        ensures
            ({
                let inner: &T = r;
                *inner == self@
            }),
    {
        &self.0
    }
}

impl<T> core::borrow::BorrowMut<T> for NonZstVal<T> {
    fn borrow_mut(&mut self) -> (r: &mut T)
        ensures
            ({
                let inner: &mut T = r;
                *inner == old(self)@
            }),
            final(self)@ == *final(r),
    {
        &mut self.0
    }
}

/// Accepts anything that converts into a `NonZstVal<T>` (a plain `T` among
/// them) and hands back the wrapped value; only types of non-zero size are accepted.
pub fn non_zst_only<T, U: Into<NonZstVal<T>>>(value: U) -> (out: T)
    requires
        size_of::<T>() != 0,
    ensures
        exists|w: NonZstVal<T>|
            call_ensures(<U as Into<NonZstVal<T>>>::into, (value,), w) && out == w@,
        U::obeys_into_spec() ==> out == value.into_spec()@,
{
    value.into().into_inner()
}

} // verus!
