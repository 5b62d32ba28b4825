//! What holds of every `Bow`, stated over the functions that the contracts
//! of its methods use.

use crate::bow::{clone_is_exact, Bow};
use vstd::pervasive::strictly_cloned;
use vstd::prelude::*;
use vstd::std_specs::convert::FromSpec;

verus! {

/// A `Bow` is in exactly one of its two states.
pub proof fn law_exactly_one_state<T: Clone>(b: Bow<T>)
    ensures
        (b is Borrowed) != (b is Owned),
{
}

/// A `Bow` made from a reference is borrowed, not owned, and stands for the
/// value behind the reference.
pub proof fn law_from_ref_is_borrowed<'a, T: Clone>(v: &'a T)
    ensures
        <Bow<'a, T> as FromSpec<&'a T>>::from_spec(v) is Borrowed,
        !(<Bow<'a, T> as FromSpec<&'a T>>::from_spec(v) is Owned),
        <Bow<'a, T> as FromSpec<&'a T>>::from_spec(v).value() == *v,
{
}

/// A `Bow` made from a plain value is owned and holds that value.
pub proof fn law_from_value_is_owned<'a, T: Clone>(v: T)
    ensures
        <Bow<'a, T> as FromSpec<T>>::from_spec(v) is Owned,
        <Bow<'a, T> as FromSpec<T>>::from_spec(v).value() == v,
{
}

/// A `Bow` made from a box is owned and holds what the box holds.
pub proof fn law_from_box_is_owned<'a, T: Clone>(v: Box<T>)
    ensures
        <Bow<'a, T> as FromSpec<Box<T>>>::from_spec(v) is Owned,
        <Bow<'a, T> as FromSpec<Box<T>>>::from_spec(v).value() == *v,
{
}

/// What a borrowed `Bow` gives is a clone of the value it borrows.
pub proof fn law_borrowed_gives_clone<T: Clone>(b: Bow<T>, v: T)
    requires
        b is Borrowed,
        b.gives(v),
    ensures
        strictly_cloned(b.value(), v),
{
}

/// Where `T::clone` is exact, whatever a `Bow` gives, in either state, is
/// equal to the value it stands for.
pub proof fn law_gives_equal_value<T: Clone>(b: Bow<T>, v: T)
    requires
        clone_is_exact::<T>(),
        b.gives(v),
    ensures
        v == b.value(),
{
}

/// An owned `Bow` gives the very value it holds: nothing is cloned.
pub proof fn law_owned_gives_held_value<T: Clone>(b: Bow<T>, v: T)
    requires
        b is Owned,
        b.gives(v),
    ensures
        v == b.value(),
{
}

/// Asking for mutable access twice clones at most once: whatever the first
/// `to_mut` left in the `Bow`, here `held`, is exactly what the second one
/// starts from.
pub proof fn law_to_mut_again_gives_same<'a, T: Clone>(held: T, again: T)
    requires
        Bow::<'a, T>::Owned(Box::new(held)).gives(again),
    ensures
        again == held,
{
}

/// Wrapping a value and asking for it back returns that value.
pub proof fn law_round_trip_owned<'a, T: Clone>(v: T, back: T)
    requires
        <Bow<'a, T> as FromSpec<T>>::from_spec(v).gives(back),
    ensures
        back == v,
{
}

/// Borrowing a value and asking for an owned one returns a clone of it.
pub proof fn law_round_trip_borrowed_clones<'a, T: Clone>(v: &'a T, back: T)
    requires
        <Bow<'a, T> as FromSpec<&'a T>>::from_spec(v).gives(back),
    ensures
        strictly_cloned(*v, back),
{
}

/// Where `T::clone` is exact, borrowing a value and asking for an owned one
/// returns an equal value.
pub proof fn law_round_trip_borrowed<'a, T: Clone>(v: &'a T, back: T)
    requires
        clone_is_exact::<T>(),
        <Bow<'a, T> as FromSpec<&'a T>>::from_spec(v).gives(back),
    ensures
        back == *v,
{
}

} // verus!
