//! Events: components that are handed to a system as its input.

use crate::store::Component;
use crate::system::systeminput::SystemInput;
use vstd::prelude::*;

verus! {

/// A component that systems take by reference as their input.
pub trait Event: Component {

}

impl<E: Event> SystemInput for &E {
    type Param<'i> = &'i E;

    type Inner<'i> = &'i E;

    open spec fn wrapped<'i>(inner: Self::Inner<'i>) -> Self::Param<'i> {
        inner
    }

    fn wrap(this: Self::Inner<'_>) -> (param: Self::Param<'_>) {
        this
    }
}

} // verus!
