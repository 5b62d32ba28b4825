//! A clone-on-write smart pointer with heap allocation.

use vstd::pervasive::strictly_cloned;
use vstd::prelude::*;
use vstd::std_specs::convert::FromSpecImpl;

verus! {

/// A clone-on-write smart pointer with heap allocation.
///
/// This is mainly an alternative to `Cow<'a, T>`, but the owned state for the
/// value is `Box<T>` instead of `T`. Primarily useful for recursive types
/// (a cons list whose tail may be a plain reference, with no heap allocation
/// at all), or for keeping large values off the stack.
///
/// `Cow` clones through `ToOwned`; `Bow` clones through `Clone` and puts the
/// clone in a `Box`. A `Bow` is therefore in one of two states, and the only
/// change of state is from borrowed to owned.
pub enum Bow<'a, T: Clone> {
    /// Borrowed state. The value is not owned and has to be cloned if a
    /// mutable reference is required.
    Borrowed(&'a T),
    /// Owned state. Full access to the value is provided.
    Owned(Box<T>),
}

/// Whether `T::clone` only ever returns a value equal to the one it was
/// called on.
///
/// Nothing is assumed of `T::clone` in general: the contracts below speak of
/// "a clone of `x`", meaning any value that `x.clone()` may return. For a
/// type whose `clone` is exact, a clone of `x` is `x`.
pub open spec fn clone_is_exact<T: Clone>() -> bool {
    forall|a: T, b: T| #[trigger] strictly_cloned(a, b) ==> a == b
}

impl<'a, T: Clone> Bow<'a, T> {
    /// The value that this `Bow` stands for, whichever state it is in.
    pub open spec fn value(self) -> T {
        match self {
            Bow::Borrowed(b) => *b,
            Bow::Owned(b) => *b,
        }
    }

    /// Whether `v` can be what this `Bow` hands over when ownership of the
    /// value is asked of it: the stored value itself in owned state, a clone
    /// of the borrowed value in borrowed state.
    pub open spec fn gives(self, v: T) -> bool {
        match self {
            Bow::Borrowed(b) => strictly_cloned(*b, v),
            Bow::Owned(b) => v == *b,
        }
    }

    /// Returns `true` if in borrowed state (i.e. obtaining a mutable
    /// reference requires cloning), `false` otherwise.
    #[inline]
    pub fn is_borrowed(&self) -> (r: bool)
        ensures
            r == (self is Borrowed),
    {
        match *self {
            Self::Borrowed(_) => true,
            Self::Owned(_) => false,
        }
    }

    /// Returns `true` if in owned state (i.e. obtaining a mutable reference
    /// is free), `false` otherwise.
    #[inline]
    pub fn is_owned(&self) -> (r: bool)
        ensures
            r == (self is Owned),
    {
        match *self {
            Self::Borrowed(_) => false,
            Self::Owned(_) => true,
        }
    }

    /// Retrieves a mutable reference to the inner value, cloning it if it's
    /// not owned.
    ///
    /// Use `is_owned` to find out whether this is expensive or not.
    ///
    /// The reference starts out at what the `Bow` gives: the stored value if
    /// it was owned, a clone of the borrowed value otherwise. When the caller
    /// lets go of the reference, the `Bow` is owned and holds whatever the
    /// caller left behind it.
    #[inline]
    pub fn to_mut(&mut self) -> (r: &mut T)
        ensures
            old(self).gives(*r),
            *final(self) is Owned,
            final(self).value() == *final(r),
        decreases (if *old(self) is Borrowed { 1nat } else { 0nat }),
    {
        match self {
            Self::Borrowed(b) => {
                *self = Self::Owned(Box::new(b.clone()));
                // The `Bow` is owned now, so this call takes the other
                // branch and returns the boxed value.
                self.to_mut()
            },
            Self::Owned(ref mut b) => b,
        }
    }

    /// Retrieves the stored value, cloning it if it's not owned.
    ///
    /// The result must be used: cloning the value only to discard it
    /// afterwards is pointless, since cloning is not expected to have side
    /// effects.
    #[inline]
    #[must_use]
    pub fn into_owned(self) -> (r: T)
        ensures
            self.gives(r),
    {
        match self {
            Self::Borrowed(b) => b.clone(),
            Self::Owned(b) => *b,
        }
    }

    /// Retrieves the stored value without dereferencing & deallocating the
    /// inner `Box`.
    #[inline]
    pub fn into_box(self) -> (r: Box<T>)
        ensures
            self.gives(*r),
    {
        match self {
            Self::Borrowed(b) => Box::new(b.clone()),
            Self::Owned(b) => b,
        }
    }
}

/// A `Bow` is viewed as the value it stands for, as a `Box` or a reference
/// is.
impl<'a, T: Clone + View> View for Bow<'a, T> {
    type V = T::V;

    open spec fn view(&self) -> T::V {
        self.value()@
    }
}

impl<T: Clone> core::ops::Deref for Bow<'_, T> {
    type Target = T;

    fn deref(&self) -> (r: &T)
        ensures
            *r == self.value(),
    {
        self.as_ref()
    }
}

impl<T: Clone> AsRef<T> for Bow<'_, T> {
    /// Read access to the value, the same in both states.
    #[inline]
    fn as_ref(&self) -> (r: &T)
        ensures
            *r == self.value(),
    {
        match self {
            Self::Borrowed(b) => b,
            Self::Owned(b) => &b,
        }
    }
}

impl<T: Clone> core::borrow::Borrow<T> for Bow<'_, T> {
    #[inline]
    fn borrow(&self) -> &T
        returns
            &self.value(),
    {
        self.as_ref()
    }
}

impl<'a, T: Clone> From<&'a T> for Bow<'a, T> {
    /// Borrows `op`.
    #[inline(always)]
    fn from(op: &'a T) -> (r: Self)
        ensures
            r == Bow::Borrowed(op),
    {
        Self::Borrowed(op)
    }
}

impl<'a, T: Clone> FromSpecImpl<&'a T> for Bow<'a, T> {
    open spec fn obeys_from_spec() -> bool {
        true
    }

    open spec fn from_spec(op: &'a T) -> Self {
        Bow::Borrowed(op)
    }
}

impl<'a, T: Clone> From<Box<T>> for Bow<'a, T> {
    /// Takes over the box as it is.
    #[inline(always)]
    fn from(op: Box<T>) -> (r: Self)
        ensures
            r == Bow::<'a, T>::Owned(op),
    {
        Self::Owned(op)
    }
}

impl<'a, T: Clone> FromSpecImpl<Box<T>> for Bow<'a, T> {
    open spec fn obeys_from_spec() -> bool {
        true
    }

    open spec fn from_spec(op: Box<T>) -> Self {
        Bow::Owned(op)
    }
}

impl<'a, T: Clone> From<T> for Bow<'a, T> {
    /// Moves `op` into a new box.
    #[inline(always)]
    fn from(op: T) -> (r: Self)
        ensures
            r == Bow::<'a, T>::Owned(Box::new(op)),
    {
        Self::Owned(Box::new(op))
    }
}

impl<'a, T: Clone> FromSpecImpl<T> for Bow<'a, T> {
    open spec fn obeys_from_spec() -> bool {
        true
    }

    open spec fn from_spec(op: T) -> Self {
        Bow::Owned(Box::new(op))
    }
}

impl<T: Clone> Clone for Bow<'_, T> {
    /// Clones the value into a new owned `Bow`. The result is owned even if
    /// `self` is borrowed: the borrow is never shared.
    #[inline(always)]
    fn clone(&self) -> (r: Self)
        ensures
            r is Owned,
            strictly_cloned(self.value(), r.value()),
    {
        Self::Owned(Box::new(self.as_ref().clone()))
    }
}

impl<T: Clone + Default> Default for Bow<'_, T> {
    /// An owned `Bow` that holds `T::default()`.
    #[inline(always)]
    fn default() -> (r: Self)
        ensures
            r is Owned,
            call_ensures(T::default, (), r.value()),
    {
        Self::Owned(Box::new(T::default()))
    }
}

} // verus!
