//! The value that a caller hands to a system with each run.

use vstd::prelude::*;

verus! {

/// The input of a system: the first argument of its function, where it has
/// one that is not taken from the world.
pub trait SystemInput: Sized {
    /// The type of the function's first argument.
    type Param<'i>;

    /// The type of the value that is handed to `run`.
    type Inner<'i>;

    /// The function's argument for the value `inner`.
    spec fn wrapped<'i>(inner: Self::Inner<'i>) -> Self::Param<'i>;

    /// Makes the function's argument of the value handed to `run`.
    fn wrap(this: Self::Inner<'_>) -> (param: Self::Param<'_>)
        ensures
            param == Self::wrapped(this),
    ;
}

impl SystemInput for () {
    type Param<'i> = ();

    type Inner<'i> = ();

    open spec fn wrapped<'i>(inner: Self::Inner<'i>) -> Self::Param<'i> {
        ()
    }

    fn wrap(_this: Self::Inner<'_>) -> (param: Self::Param<'_>) {
    }
}

/// The input of a function that takes a `T` by value.
pub struct In<T>(pub T);

impl<T: 'static> SystemInput for In<T> {
    type Param<'i> = In<T>;

    type Inner<'i> = T;

    open spec fn wrapped<'i>(inner: Self::Inner<'i>) -> Self::Param<'i> {
        In(inner)
    }

    fn wrap(this: Self::Inner<'_>) -> (param: Self::Param<'_>) {
        In(this)
    }
}

} // verus!
