//! The functions that can be made into a system.

use crate::store::{Components, Store};
use crate::system::systeminput::SystemInput;
use crate::system::systemparam::{SystemArg, SystemParam, SystemParamGuard, SystemParamItem};
use crate::world::WorldCell;
use vstd::prelude::*;

verus! {

/// A function whose arguments, but for an input, are borrowed from the world.
///
/// `Marker` tells the shapes of function apart: one function can have but one
/// of them.
pub trait SystemParamFunction<Marker>: Sized {
    /// The input of the function.
    type In: SystemInput;

    /// What the function returns.
    type Out;

    /// The arguments that are borrowed from the world, as one parameter.
    type Param: SystemParam;

    /// Whether the function may be called with `input` and what guards lend
    /// that were opened on `store`, the resources of which are those of
    /// `resources`, and which comes back with the components `last`.
    spec fn accepts(
        &self,
        input: <Self::In as SystemInput>::Inner<'_>,
        store: Store,
        resources: hecs::Entity,
        last: Components,
    ) -> bool;

    /// Whether the function may return `out` for `input` and what guards lend
    /// that were opened on `store`, the resources of which are those of
    /// `resources`, where the store comes back with the components `last`:
    /// what the function leaves in an argument that it may write to is there
    /// in `last`.
    spec fn yields(
        &self,
        input: <Self::In as SystemInput>::Inner<'_>,
        store: Store,
        resources: hecs::Entity,
        last: Components,
        out: Self::Out,
    ) -> bool;

    /// Calls the function once with `input` and what the guards `param_value`
    /// lend, then gives the guards up to `world`, on which they were opened.
    fn run<'a>(
        &mut self,
        input: <Self::In as SystemInput>::Inner<'_>,
        param_value: SystemParamGuard<'a, Self::Param>,
        world: &mut WorldCell<'a>,
    ) -> (out: Self::Out)
        requires
            Self::Param::opened(
                &param_value,
                old(world).store(),
                old(world).resources(),
                old(world).last(),
            ),
            Self::Param::belongs(&param_value, old(world).store()),
            old(self).accepts(
                input,
                old(world).store(),
                old(world).resources(),
                old(world).last(),
            ),
        ensures
            old(self).yields(
                input,
                old(world).store(),
                old(world).resources(),
                old(world).last(),
                out,
            ),
            *final(self) == *old(self),
            final(world).same_lending(*old(world)),
            final(world).open() == old(world).open(),
            final(world).released() == old(world).released() + Self::Param::claims().len(),
    ;
}

/// Tells the functions with an input apart from those without.
pub struct HasSystemInput;

// The functions of up to sixteen arguments, without an input and with one. A
// function is called with its input, if it takes one, and with what each guard
// lends it; the guards are given up when it has returned.

impl<Out, Func> SystemParamFunction<()> for Func where
    Func: Fn() -> Out,
 {
    type In = ();

    type Out = Out;

    type Param = ();

    open spec fn accepts(
        &self,
        input: (),
        store: Store,
        resources: hecs::Entity,
        last: Components,
    ) -> bool {
        call_requires(*self, ())
    }

    open spec fn yields(
        &self,
        input: (),
        store: Store,
        resources: hecs::Entity,
        last: Components,
        out: Out,
    ) -> bool {
        call_ensures(*self, (), out)
    }

    fn run<'a>(
        &mut self,
        _input: (),
        param_value: SystemParamGuard<'a, Self::Param>,
        world: &mut WorldCell<'a>,
    ) -> (out: Out) {
        self()
    }
}

impl<In, Out, Func> SystemParamFunction<(HasSystemInput, In, ())> for Func where
    Func: Fn(In) -> Out + Fn(In::Param<'_>) -> Out,
    In: SystemInput,
 {
    type In = In;

    type Out = Out;

    type Param = ();

    open spec fn accepts(
        &self,
        input: In::Inner<'_>,
        store: Store,
        resources: hecs::Entity,
        last: Components,
    ) -> bool {
        call_requires(*self, (In::wrapped(input),))
    }

    open spec fn yields(
        &self,
        input: In::Inner<'_>,
        store: Store,
        resources: hecs::Entity,
        last: Components,
        out: Out,
    ) -> bool {
        call_ensures(*self, (In::wrapped(input),), out)
    }

    fn run<'a>(
        &mut self,
        input: In::Inner<'_>,
        param_value: SystemParamGuard<'a, Self::Param>,
        world: &mut WorldCell<'a>,
    ) -> (out: Out) {
        call_inner1(&*self, In::wrap(input))
    }
}

impl<Out, Func, T0: SystemArg> SystemParamFunction<(T0,)> for Func where
    Func: Fn(T0) -> Out + Fn(SystemParamItem<T0>) -> Out,
 {
    type In = ();

    type Out = Out;

    type Param = (T0,);

    open spec fn accepts(
        &self,
        input: (),
        store: Store,
        resources: hecs::Entity,
        last: Components,
    ) -> bool {
        forall|p0: SystemParamItem<'_, T0>|
            {
                &&& T0::lent(p0, store, resources, last)
            } ==> #[trigger] call_requires(*self, (p0,))
    }

    open spec fn yields(
        &self,
        input: (),
        store: Store,
        resources: hecs::Entity,
        last: Components,
        out: Out,
    ) -> bool {
        exists|p0: SystemParamItem<'_, T0>|
            {
                &&& T0::lent(p0, store, resources, last)
                &&& #[trigger] call_ensures(*self, (p0,), out)
            }
    }

    fn run<'a>(
        &mut self,
        input: (),
        param_value: SystemParamGuard<'a, Self::Param>,
        world: &mut WorldCell<'a>,
    ) -> (out: Out) {
        let (mut g0,) = param_value;
        let p0 = T0::item(&mut g0);
        let ghost lent = (p0,);
        proof {
            assert(T0::lent(lent.0, world.store(), world.resources(), world.last()));
        }
        let out = call_inner1(&*self, p0);
        proof {
            assert(call_ensures(*self, (lent.0,), out));
        }
        T0::release(g0, world);
        out
    }
}

impl<In, Out, Func, T0: SystemArg> SystemParamFunction<(HasSystemInput, In, (T0,))> for Func where
    Func: Fn(In, T0) -> Out + Fn(In::Param<'_>, SystemParamItem<T0>) -> Out,
    In: SystemInput,
 {
    type In = In;

    type Out = Out;

    type Param = (T0,);

    open spec fn accepts(
        &self,
        input: In::Inner<'_>,
        store: Store,
        resources: hecs::Entity,
        last: Components,
    ) -> bool {
        forall|p0: SystemParamItem<'_, T0>|
            {
                &&& T0::lent(p0, store, resources, last)
            } ==> #[trigger] call_requires(*self, (In::wrapped(input), p0))
    }

    open spec fn yields(
        &self,
        input: In::Inner<'_>,
        store: Store,
        resources: hecs::Entity,
        last: Components,
        out: Out,
    ) -> bool {
        exists|p0: SystemParamItem<'_, T0>|
            {
                &&& T0::lent(p0, store, resources, last)
                &&& #[trigger] call_ensures(*self, (In::wrapped(input), p0), out)
            }
    }

    fn run<'a>(
        &mut self,
        input: In::Inner<'_>,
        param_value: SystemParamGuard<'a, Self::Param>,
        world: &mut WorldCell<'a>,
    ) -> (out: Out) {
        let (mut g0,) = param_value;
        let p0 = T0::item(&mut g0);
        let ghost lent = (p0,);
        proof {
            assert(T0::lent(lent.0, world.store(), world.resources(), world.last()));
        }
        let out = call_inner2(&*self, In::wrap(input), p0);
        proof {
            assert(call_ensures(*self, (In::wrapped(input), lent.0), out));
        }
        T0::release(g0, world);
        out
    }
}

impl<Out, Func, T0: SystemArg, T1: SystemArg> SystemParamFunction<(T0, T1)> for Func where
    Func: Fn(T0, T1) -> Out + Fn(SystemParamItem<T0>, SystemParamItem<T1>) -> Out,
 {
    type In = ();

    type Out = Out;

    type Param = (T0, T1);

    open spec fn accepts(
        &self,
        input: (),
        store: Store,
        resources: hecs::Entity,
        last: Components,
    ) -> bool {
        forall|p0: SystemParamItem<'_, T0>, p1: SystemParamItem<'_, T1>|
            {
                &&& T0::lent(p0, store, resources, last)
                &&& T1::lent(p1, store, resources, last)
            } ==> #[trigger] call_requires(*self, (p0, p1))
    }

    open spec fn yields(
        &self,
        input: (),
        store: Store,
        resources: hecs::Entity,
        last: Components,
        out: Out,
    ) -> bool {
        exists|p0: SystemParamItem<'_, T0>, p1: SystemParamItem<'_, T1>|
            {
                &&& T0::lent(p0, store, resources, last)
                &&& T1::lent(p1, store, resources, last)
                &&& #[trigger] call_ensures(*self, (p0, p1), out)
            }
    }

    fn run<'a>(
        &mut self,
        input: (),
        param_value: SystemParamGuard<'a, Self::Param>,
        world: &mut WorldCell<'a>,
    ) -> (out: Out) {
        let (mut g0, mut g1) = param_value;
        let p0 = T0::item(&mut g0);
        let p1 = T1::item(&mut g1);
        let ghost lent = (p0, p1);
        proof {
            assert(T0::lent(lent.0, world.store(), world.resources(), world.last()));
            assert(T1::lent(lent.1, world.store(), world.resources(), world.last()));
        }
        let out = call_inner2(&*self, p0, p1);
        proof {
            assert(call_ensures(*self, (lent.0, lent.1), out));
        }
        T1::release(g1, world);
        T0::release(g0, world);
        out
    }
}

impl<
    In,
    Out,
    Func,
    T0: SystemArg,
    T1: SystemArg,
> SystemParamFunction<
    (HasSystemInput, In, (T0, T1)),
> for Func where
    Func: Fn(In, T0, T1) -> Out
        + Fn(In::Param<'_>, SystemParamItem<T0>, SystemParamItem<T1>) -> Out,
    In: SystemInput,
 {
    type In = In;

    type Out = Out;

    type Param = (T0, T1);

    open spec fn accepts(
        &self,
        input: In::Inner<'_>,
        store: Store,
        resources: hecs::Entity,
        last: Components,
    ) -> bool {
        forall|p0: SystemParamItem<'_, T0>, p1: SystemParamItem<'_, T1>|
            {
                &&& T0::lent(p0, store, resources, last)
                &&& T1::lent(p1, store, resources, last)
            } ==> #[trigger] call_requires(*self, (In::wrapped(input), p0, p1))
    }

    open spec fn yields(
        &self,
        input: In::Inner<'_>,
        store: Store,
        resources: hecs::Entity,
        last: Components,
        out: Out,
    ) -> bool {
        exists|p0: SystemParamItem<'_, T0>, p1: SystemParamItem<'_, T1>|
            {
                &&& T0::lent(p0, store, resources, last)
                &&& T1::lent(p1, store, resources, last)
                &&& #[trigger] call_ensures(*self, (In::wrapped(input), p0, p1), out)
            }
    }

    fn run<'a>(
        &mut self,
        input: In::Inner<'_>,
        param_value: SystemParamGuard<'a, Self::Param>,
        world: &mut WorldCell<'a>,
    ) -> (out: Out) {
        let (mut g0, mut g1) = param_value;
        let p0 = T0::item(&mut g0);
        let p1 = T1::item(&mut g1);
        let ghost lent = (p0, p1);
        proof {
            assert(T0::lent(lent.0, world.store(), world.resources(), world.last()));
            assert(T1::lent(lent.1, world.store(), world.resources(), world.last()));
        }
        let out = call_inner3(&*self, In::wrap(input), p0, p1);
        proof {
            assert(call_ensures(*self, (In::wrapped(input), lent.0, lent.1), out));
        }
        T1::release(g1, world);
        T0::release(g0, world);
        out
    }
}

impl<
    Out,
    Func,
    T0: SystemArg,
    T1: SystemArg,
    T2: SystemArg,
> SystemParamFunction<
    (T0, T1, T2),
> for Func where
    Func: Fn(T0, T1, T2) -> Out
        + Fn(SystemParamItem<T0>, SystemParamItem<T1>, SystemParamItem<T2>) -> Out,
 {
    type In = ();

    type Out = Out;

    type Param = (T0, T1, T2);

    open spec fn accepts(
        &self,
        input: (),
        store: Store,
        resources: hecs::Entity,
        last: Components,
    ) -> bool {
        forall|
            p0: SystemParamItem<'_, T0>,
            p1: SystemParamItem<'_, T1>,
            p2: SystemParamItem<'_, T2>,
        |
            {
                &&& T0::lent(p0, store, resources, last)
                &&& T1::lent(p1, store, resources, last)
                &&& T2::lent(p2, store, resources, last)
            } ==> #[trigger] call_requires(*self, (p0, p1, p2))
    }

    open spec fn yields(
        &self,
        input: (),
        store: Store,
        resources: hecs::Entity,
        last: Components,
        out: Out,
    ) -> bool {
        exists|
            p0: SystemParamItem<'_, T0>,
            p1: SystemParamItem<'_, T1>,
            p2: SystemParamItem<'_, T2>,
        |
            {
                &&& T0::lent(p0, store, resources, last)
                &&& T1::lent(p1, store, resources, last)
                &&& T2::lent(p2, store, resources, last)
                &&& #[trigger] call_ensures(*self, (p0, p1, p2), out)
            }
    }

    fn run<'a>(
        &mut self,
        input: (),
        param_value: SystemParamGuard<'a, Self::Param>,
        world: &mut WorldCell<'a>,
    ) -> (out: Out) {
        let (mut g0, mut g1, mut g2) = param_value;
        let p0 = T0::item(&mut g0);
        let p1 = T1::item(&mut g1);
        let p2 = T2::item(&mut g2);
        let ghost lent = (p0, p1, p2);
        proof {
            assert(T0::lent(lent.0, world.store(), world.resources(), world.last()));
            assert(T1::lent(lent.1, world.store(), world.resources(), world.last()));
            assert(T2::lent(lent.2, world.store(), world.resources(), world.last()));
        }
        let out = call_inner3(&*self, p0, p1, p2);
        proof {
            assert(call_ensures(*self, (lent.0, lent.1, lent.2), out));
        }
        T2::release(g2, world);
        T1::release(g1, world);
        T0::release(g0, world);
        out
    }
}

impl<
    In,
    Out,
    Func,
    T0: SystemArg,
    T1: SystemArg,
    T2: SystemArg,
> SystemParamFunction<
    (HasSystemInput, In, (T0, T1, T2)),
> for Func where
    Func: Fn(In, T0, T1, T2) -> Out
        + Fn(In::Param<'_>, SystemParamItem<T0>, SystemParamItem<T1>, SystemParamItem<T2>) -> Out,
    In: SystemInput,
 {
    type In = In;

    type Out = Out;

    type Param = (T0, T1, T2);

    open spec fn accepts(
        &self,
        input: In::Inner<'_>,
        store: Store,
        resources: hecs::Entity,
        last: Components,
    ) -> bool {
        forall|
            p0: SystemParamItem<'_, T0>,
            p1: SystemParamItem<'_, T1>,
            p2: SystemParamItem<'_, T2>,
        |
            {
                &&& T0::lent(p0, store, resources, last)
                &&& T1::lent(p1, store, resources, last)
                &&& T2::lent(p2, store, resources, last)
            } ==> #[trigger] call_requires(*self, (In::wrapped(input), p0, p1, p2))
    }

    open spec fn yields(
        &self,
        input: In::Inner<'_>,
        store: Store,
        resources: hecs::Entity,
        last: Components,
        out: Out,
    ) -> bool {
        exists|
            p0: SystemParamItem<'_, T0>,
            p1: SystemParamItem<'_, T1>,
            p2: SystemParamItem<'_, T2>,
        |
            {
                &&& T0::lent(p0, store, resources, last)
                &&& T1::lent(p1, store, resources, last)
                &&& T2::lent(p2, store, resources, last)
                &&& #[trigger] call_ensures(*self, (In::wrapped(input), p0, p1, p2), out)
            }
    }

    fn run<'a>(
        &mut self,
        input: In::Inner<'_>,
        param_value: SystemParamGuard<'a, Self::Param>,
        world: &mut WorldCell<'a>,
    ) -> (out: Out) {
        let (mut g0, mut g1, mut g2) = param_value;
        let p0 = T0::item(&mut g0);
        let p1 = T1::item(&mut g1);
        let p2 = T2::item(&mut g2);
        let ghost lent = (p0, p1, p2);
        proof {
            assert(T0::lent(lent.0, world.store(), world.resources(), world.last()));
            assert(T1::lent(lent.1, world.store(), world.resources(), world.last()));
            assert(T2::lent(lent.2, world.store(), world.resources(), world.last()));
        }
        let out = call_inner4(&*self, In::wrap(input), p0, p1, p2);
        proof {
            assert(call_ensures(*self, (In::wrapped(input), lent.0, lent.1, lent.2), out));
        }
        T2::release(g2, world);
        T1::release(g1, world);
        T0::release(g0, world);
        out
    }
}

impl<
    Out,
    Func,
    T0: SystemArg,
    T1: SystemArg,
    T2: SystemArg,
    T3: SystemArg,
> SystemParamFunction<
    (T0, T1, T2, T3),
> for Func where
    Func: Fn(
        T0,
        T1,
        T2,
        T3,
    ) -> Out + Fn(
        SystemParamItem<T0>,
        SystemParamItem<T1>,
        SystemParamItem<T2>,
        SystemParamItem<T3>,
    ) -> Out,
 {
    type In = ();

    type Out = Out;

    type Param = (T0, T1, T2, T3);

    open spec fn accepts(
        &self,
        input: (),
        store: Store,
        resources: hecs::Entity,
        last: Components,
    ) -> bool {
        forall|
            p0: SystemParamItem<'_, T0>,
            p1: SystemParamItem<'_, T1>,
            p2: SystemParamItem<'_, T2>,
            p3: SystemParamItem<'_, T3>,
        |
            {
                &&& T0::lent(p0, store, resources, last)
                &&& T1::lent(p1, store, resources, last)
                &&& T2::lent(p2, store, resources, last)
                &&& T3::lent(p3, store, resources, last)
            } ==> #[trigger] call_requires(*self, (p0, p1, p2, p3))
    }

    open spec fn yields(
        &self,
        input: (),
        store: Store,
        resources: hecs::Entity,
        last: Components,
        out: Out,
    ) -> bool {
        exists|
            p0: SystemParamItem<'_, T0>,
            p1: SystemParamItem<'_, T1>,
            p2: SystemParamItem<'_, T2>,
            p3: SystemParamItem<'_, T3>,
        |
            {
                &&& T0::lent(p0, store, resources, last)
                &&& T1::lent(p1, store, resources, last)
                &&& T2::lent(p2, store, resources, last)
                &&& T3::lent(p3, store, resources, last)
                &&& #[trigger] call_ensures(*self, (p0, p1, p2, p3), out)
            }
    }

    fn run<'a>(
        &mut self,
        input: (),
        param_value: SystemParamGuard<'a, Self::Param>,
        world: &mut WorldCell<'a>,
    ) -> (out: Out) {
        let (mut g0, mut g1, mut g2, mut g3) = param_value;
        let p0 = T0::item(&mut g0);
        let p1 = T1::item(&mut g1);
        let p2 = T2::item(&mut g2);
        let p3 = T3::item(&mut g3);
        let ghost lent = (p0, p1, p2, p3);
        proof {
            assert(T0::lent(lent.0, world.store(), world.resources(), world.last()));
            assert(T1::lent(lent.1, world.store(), world.resources(), world.last()));
            assert(T2::lent(lent.2, world.store(), world.resources(), world.last()));
            assert(T3::lent(lent.3, world.store(), world.resources(), world.last()));
        }
        let out = call_inner4(&*self, p0, p1, p2, p3);
        proof {
            assert(call_ensures(*self, (lent.0, lent.1, lent.2, lent.3), out));
        }
        T3::release(g3, world);
        T2::release(g2, world);
        T1::release(g1, world);
        T0::release(g0, world);
        out
    }
}

impl<
    In,
    Out,
    Func,
    T0: SystemArg,
    T1: SystemArg,
    T2: SystemArg,
    T3: SystemArg,
> SystemParamFunction<
    (HasSystemInput, In, (T0, T1, T2, T3)),
> for Func where
    Func: Fn(
        In,
        T0,
        T1,
        T2,
        T3,
    ) -> Out + Fn(
        In::Param<'_>,
        SystemParamItem<T0>,
        SystemParamItem<T1>,
        SystemParamItem<T2>,
        SystemParamItem<T3>,
    ) -> Out,
    In: SystemInput,
 {
    type In = In;

    type Out = Out;

    type Param = (T0, T1, T2, T3);

    open spec fn accepts(
        &self,
        input: In::Inner<'_>,
        store: Store,
        resources: hecs::Entity,
        last: Components,
    ) -> bool {
        forall|
            p0: SystemParamItem<'_, T0>,
            p1: SystemParamItem<'_, T1>,
            p2: SystemParamItem<'_, T2>,
            p3: SystemParamItem<'_, T3>,
        |
            {
                &&& T0::lent(p0, store, resources, last)
                &&& T1::lent(p1, store, resources, last)
                &&& T2::lent(p2, store, resources, last)
                &&& T3::lent(p3, store, resources, last)
            } ==> #[trigger] call_requires(*self, (In::wrapped(input), p0, p1, p2, p3))
    }

    open spec fn yields(
        &self,
        input: In::Inner<'_>,
        store: Store,
        resources: hecs::Entity,
        last: Components,
        out: Out,
    ) -> bool {
        exists|
            p0: SystemParamItem<'_, T0>,
            p1: SystemParamItem<'_, T1>,
            p2: SystemParamItem<'_, T2>,
            p3: SystemParamItem<'_, T3>,
        |
            {
                &&& T0::lent(p0, store, resources, last)
                &&& T1::lent(p1, store, resources, last)
                &&& T2::lent(p2, store, resources, last)
                &&& T3::lent(p3, store, resources, last)
                &&& #[trigger] call_ensures(*self, (In::wrapped(input), p0, p1, p2, p3), out)
            }
    }

    fn run<'a>(
        &mut self,
        input: In::Inner<'_>,
        param_value: SystemParamGuard<'a, Self::Param>,
        world: &mut WorldCell<'a>,
    ) -> (out: Out) {
        let (mut g0, mut g1, mut g2, mut g3) = param_value;
        let p0 = T0::item(&mut g0);
        let p1 = T1::item(&mut g1);
        let p2 = T2::item(&mut g2);
        let p3 = T3::item(&mut g3);
        let ghost lent = (p0, p1, p2, p3);
        proof {
            assert(T0::lent(lent.0, world.store(), world.resources(), world.last()));
            assert(T1::lent(lent.1, world.store(), world.resources(), world.last()));
            assert(T2::lent(lent.2, world.store(), world.resources(), world.last()));
            assert(T3::lent(lent.3, world.store(), world.resources(), world.last()));
        }
        let out = call_inner5(&*self, In::wrap(input), p0, p1, p2, p3);
        proof {
            assert(call_ensures(*self, (In::wrapped(input), lent.0, lent.1, lent.2, lent.3), out));
        }
        T3::release(g3, world);
        T2::release(g2, world);
        T1::release(g1, world);
        T0::release(g0, world);
        out
    }
}

impl<
    Out,
    Func,
    T0: SystemArg,
    T1: SystemArg,
    T2: SystemArg,
    T3: SystemArg,
    T4: SystemArg,
> SystemParamFunction<
    (T0, T1, T2, T3, T4),
> for Func where
    Func: Fn(
        T0,
        T1,
        T2,
        T3,
        T4,
    ) -> Out + Fn(
        SystemParamItem<T0>,
        SystemParamItem<T1>,
        SystemParamItem<T2>,
        SystemParamItem<T3>,
        SystemParamItem<T4>,
    ) -> Out,
 {
    type In = ();

    type Out = Out;

    type Param = (T0, T1, T2, T3, T4);

    open spec fn accepts(
        &self,
        input: (),
        store: Store,
        resources: hecs::Entity,
        last: Components,
    ) -> bool {
        forall|
            p0: SystemParamItem<'_, T0>,
            p1: SystemParamItem<'_, T1>,
            p2: SystemParamItem<'_, T2>,
            p3: SystemParamItem<'_, T3>,
            p4: SystemParamItem<'_, T4>,
        |
            {
                &&& T0::lent(p0, store, resources, last)
                &&& T1::lent(p1, store, resources, last)
                &&& T2::lent(p2, store, resources, last)
                &&& T3::lent(p3, store, resources, last)
                &&& T4::lent(p4, store, resources, last)
            } ==> #[trigger] call_requires(*self, (p0, p1, p2, p3, p4))
    }

    open spec fn yields(
        &self,
        input: (),
        store: Store,
        resources: hecs::Entity,
        last: Components,
        out: Out,
    ) -> bool {
        exists|
            p0: SystemParamItem<'_, T0>,
            p1: SystemParamItem<'_, T1>,
            p2: SystemParamItem<'_, T2>,
            p3: SystemParamItem<'_, T3>,
            p4: SystemParamItem<'_, T4>,
        |
            {
                &&& T0::lent(p0, store, resources, last)
                &&& T1::lent(p1, store, resources, last)
                &&& T2::lent(p2, store, resources, last)
                &&& T3::lent(p3, store, resources, last)
                &&& T4::lent(p4, store, resources, last)
                &&& #[trigger] call_ensures(*self, (p0, p1, p2, p3, p4), out)
            }
    }

    fn run<'a>(
        &mut self,
        input: (),
        param_value: SystemParamGuard<'a, Self::Param>,
        world: &mut WorldCell<'a>,
    ) -> (out: Out) {
        let (mut g0, mut g1, mut g2, mut g3, mut g4) = param_value;
        let p0 = T0::item(&mut g0);
        let p1 = T1::item(&mut g1);
        let p2 = T2::item(&mut g2);
        let p3 = T3::item(&mut g3);
        let p4 = T4::item(&mut g4);
        let ghost lent = (p0, p1, p2, p3, p4);
        proof {
            assert(T0::lent(lent.0, world.store(), world.resources(), world.last()));
            assert(T1::lent(lent.1, world.store(), world.resources(), world.last()));
            assert(T2::lent(lent.2, world.store(), world.resources(), world.last()));
            assert(T3::lent(lent.3, world.store(), world.resources(), world.last()));
            assert(T4::lent(lent.4, world.store(), world.resources(), world.last()));
        }
        let out = call_inner5(&*self, p0, p1, p2, p3, p4);
        proof {
            assert(call_ensures(*self, (lent.0, lent.1, lent.2, lent.3, lent.4), out));
        }
        T4::release(g4, world);
        T3::release(g3, world);
        T2::release(g2, world);
        T1::release(g1, world);
        T0::release(g0, world);
        out
    }
}

impl<
    In,
    Out,
    Func,
    T0: SystemArg,
    T1: SystemArg,
    T2: SystemArg,
    T3: SystemArg,
    T4: SystemArg,
> SystemParamFunction<
    (HasSystemInput, In, (T0, T1, T2, T3, T4)),
> for Func where
    Func: Fn(
        In,
        T0,
        T1,
        T2,
        T3,
        T4,
    ) -> Out + Fn(
        In::Param<'_>,
        SystemParamItem<T0>,
        SystemParamItem<T1>,
        SystemParamItem<T2>,
        SystemParamItem<T3>,
        SystemParamItem<T4>,
    ) -> Out,
    In: SystemInput,
 {
    type In = In;

    type Out = Out;

    type Param = (T0, T1, T2, T3, T4);

    open spec fn accepts(
        &self,
        input: In::Inner<'_>,
        store: Store,
        resources: hecs::Entity,
        last: Components,
    ) -> bool {
        forall|
            p0: SystemParamItem<'_, T0>,
            p1: SystemParamItem<'_, T1>,
            p2: SystemParamItem<'_, T2>,
            p3: SystemParamItem<'_, T3>,
            p4: SystemParamItem<'_, T4>,
        |
            {
                &&& T0::lent(p0, store, resources, last)
                &&& T1::lent(p1, store, resources, last)
                &&& T2::lent(p2, store, resources, last)
                &&& T3::lent(p3, store, resources, last)
                &&& T4::lent(p4, store, resources, last)
            } ==> #[trigger] call_requires(*self, (In::wrapped(input), p0, p1, p2, p3, p4))
    }

    open spec fn yields(
        &self,
        input: In::Inner<'_>,
        store: Store,
        resources: hecs::Entity,
        last: Components,
        out: Out,
    ) -> bool {
        exists|
            p0: SystemParamItem<'_, T0>,
            p1: SystemParamItem<'_, T1>,
            p2: SystemParamItem<'_, T2>,
            p3: SystemParamItem<'_, T3>,
            p4: SystemParamItem<'_, T4>,
        |
            {
                &&& T0::lent(p0, store, resources, last)
                &&& T1::lent(p1, store, resources, last)
                &&& T2::lent(p2, store, resources, last)
                &&& T3::lent(p3, store, resources, last)
                &&& T4::lent(p4, store, resources, last)
                &&& #[trigger] call_ensures(*self, (In::wrapped(input), p0, p1, p2, p3, p4), out)
            }
    }

    fn run<'a>(
        &mut self,
        input: In::Inner<'_>,
        param_value: SystemParamGuard<'a, Self::Param>,
        world: &mut WorldCell<'a>,
    ) -> (out: Out) {
        let (mut g0, mut g1, mut g2, mut g3, mut g4) = param_value;
        let p0 = T0::item(&mut g0);
        let p1 = T1::item(&mut g1);
        let p2 = T2::item(&mut g2);
        let p3 = T3::item(&mut g3);
        let p4 = T4::item(&mut g4);
        let ghost lent = (p0, p1, p2, p3, p4);
        proof {
            assert(T0::lent(lent.0, world.store(), world.resources(), world.last()));
            assert(T1::lent(lent.1, world.store(), world.resources(), world.last()));
            assert(T2::lent(lent.2, world.store(), world.resources(), world.last()));
            assert(T3::lent(lent.3, world.store(), world.resources(), world.last()));
            assert(T4::lent(lent.4, world.store(), world.resources(), world.last()));
        }
        let out = call_inner6(&*self, In::wrap(input), p0, p1, p2, p3, p4);
        proof {
            assert(call_ensures(
                *self,
                (In::wrapped(input), lent.0, lent.1, lent.2, lent.3, lent.4),
                out,
            ));
        }
        T4::release(g4, world);
        T3::release(g3, world);
        T2::release(g2, world);
        T1::release(g1, world);
        T0::release(g0, world);
        out
    }
}

impl<
    Out,
    Func,
    T0: SystemArg,
    T1: SystemArg,
    T2: SystemArg,
    T3: SystemArg,
    T4: SystemArg,
    T5: SystemArg,
> SystemParamFunction<
    (T0, T1, T2, T3, T4, T5),
> for Func where
    Func: Fn(
        T0,
        T1,
        T2,
        T3,
        T4,
        T5,
    ) -> Out + Fn(
        SystemParamItem<T0>,
        SystemParamItem<T1>,
        SystemParamItem<T2>,
        SystemParamItem<T3>,
        SystemParamItem<T4>,
        SystemParamItem<T5>,
    ) -> Out,
 {
    type In = ();

    type Out = Out;

    type Param = (T0, T1, T2, T3, T4, T5);

    open spec fn accepts(
        &self,
        input: (),
        store: Store,
        resources: hecs::Entity,
        last: Components,
    ) -> bool {
        forall|
            p0: SystemParamItem<'_, T0>,
            p1: SystemParamItem<'_, T1>,
            p2: SystemParamItem<'_, T2>,
            p3: SystemParamItem<'_, T3>,
            p4: SystemParamItem<'_, T4>,
            p5: SystemParamItem<'_, T5>,
        |
            {
                &&& T0::lent(p0, store, resources, last)
                &&& T1::lent(p1, store, resources, last)
                &&& T2::lent(p2, store, resources, last)
                &&& T3::lent(p3, store, resources, last)
                &&& T4::lent(p4, store, resources, last)
                &&& T5::lent(p5, store, resources, last)
            } ==> #[trigger] call_requires(*self, (p0, p1, p2, p3, p4, p5))
    }

    open spec fn yields(
        &self,
        input: (),
        store: Store,
        resources: hecs::Entity,
        last: Components,
        out: Out,
    ) -> bool {
        exists|
            p0: SystemParamItem<'_, T0>,
            p1: SystemParamItem<'_, T1>,
            p2: SystemParamItem<'_, T2>,
            p3: SystemParamItem<'_, T3>,
            p4: SystemParamItem<'_, T4>,
            p5: SystemParamItem<'_, T5>,
        |
            {
                &&& T0::lent(p0, store, resources, last)
                &&& T1::lent(p1, store, resources, last)
                &&& T2::lent(p2, store, resources, last)
                &&& T3::lent(p3, store, resources, last)
                &&& T4::lent(p4, store, resources, last)
                &&& T5::lent(p5, store, resources, last)
                &&& #[trigger] call_ensures(*self, (p0, p1, p2, p3, p4, p5), out)
            }
    }

    fn run<'a>(
        &mut self,
        input: (),
        param_value: SystemParamGuard<'a, Self::Param>,
        world: &mut WorldCell<'a>,
    ) -> (out: Out) {
        let (mut g0, mut g1, mut g2, mut g3, mut g4, mut g5) = param_value;
        let p0 = T0::item(&mut g0);
        let p1 = T1::item(&mut g1);
        let p2 = T2::item(&mut g2);
        let p3 = T3::item(&mut g3);
        let p4 = T4::item(&mut g4);
        let p5 = T5::item(&mut g5);
        let ghost lent = (p0, p1, p2, p3, p4, p5);
        proof {
            assert(T0::lent(lent.0, world.store(), world.resources(), world.last()));
            assert(T1::lent(lent.1, world.store(), world.resources(), world.last()));
            assert(T2::lent(lent.2, world.store(), world.resources(), world.last()));
            assert(T3::lent(lent.3, world.store(), world.resources(), world.last()));
            assert(T4::lent(lent.4, world.store(), world.resources(), world.last()));
            assert(T5::lent(lent.5, world.store(), world.resources(), world.last()));
        }
        let out = call_inner6(&*self, p0, p1, p2, p3, p4, p5);
        proof {
            assert(call_ensures(*self, (lent.0, lent.1, lent.2, lent.3, lent.4, lent.5), out));
        }
        T5::release(g5, world);
        T4::release(g4, world);
        T3::release(g3, world);
        T2::release(g2, world);
        T1::release(g1, world);
        T0::release(g0, world);
        out
    }
}

impl<
    In,
    Out,
    Func,
    T0: SystemArg,
    T1: SystemArg,
    T2: SystemArg,
    T3: SystemArg,
    T4: SystemArg,
    T5: SystemArg,
> SystemParamFunction<
    (HasSystemInput, In, (T0, T1, T2, T3, T4, T5)),
> for Func where
    Func: Fn(
        In,
        T0,
        T1,
        T2,
        T3,
        T4,
        T5,
    ) -> Out + Fn(
        In::Param<'_>,
        SystemParamItem<T0>,
        SystemParamItem<T1>,
        SystemParamItem<T2>,
        SystemParamItem<T3>,
        SystemParamItem<T4>,
        SystemParamItem<T5>,
    ) -> Out,
    In: SystemInput,
 {
    type In = In;

    type Out = Out;

    type Param = (T0, T1, T2, T3, T4, T5);

    open spec fn accepts(
        &self,
        input: In::Inner<'_>,
        store: Store,
        resources: hecs::Entity,
        last: Components,
    ) -> bool {
        forall|
            p0: SystemParamItem<'_, T0>,
            p1: SystemParamItem<'_, T1>,
            p2: SystemParamItem<'_, T2>,
            p3: SystemParamItem<'_, T3>,
            p4: SystemParamItem<'_, T4>,
            p5: SystemParamItem<'_, T5>,
        |
            {
                &&& T0::lent(p0, store, resources, last)
                &&& T1::lent(p1, store, resources, last)
                &&& T2::lent(p2, store, resources, last)
                &&& T3::lent(p3, store, resources, last)
                &&& T4::lent(p4, store, resources, last)
                &&& T5::lent(p5, store, resources, last)
            } ==> #[trigger] call_requires(*self, (In::wrapped(input), p0, p1, p2, p3, p4, p5))
    }

    open spec fn yields(
        &self,
        input: In::Inner<'_>,
        store: Store,
        resources: hecs::Entity,
        last: Components,
        out: Out,
    ) -> bool {
        exists|
            p0: SystemParamItem<'_, T0>,
            p1: SystemParamItem<'_, T1>,
            p2: SystemParamItem<'_, T2>,
            p3: SystemParamItem<'_, T3>,
            p4: SystemParamItem<'_, T4>,
            p5: SystemParamItem<'_, T5>,
        |
            {
                &&& T0::lent(p0, store, resources, last)
                &&& T1::lent(p1, store, resources, last)
                &&& T2::lent(p2, store, resources, last)
                &&& T3::lent(p3, store, resources, last)
                &&& T4::lent(p4, store, resources, last)
                &&& T5::lent(p5, store, resources, last)
                &&& #[trigger] call_ensures(
                    *self,
                    (In::wrapped(input), p0, p1, p2, p3, p4, p5),
                    out,
                )
            }
    }

    fn run<'a>(
        &mut self,
        input: In::Inner<'_>,
        param_value: SystemParamGuard<'a, Self::Param>,
        world: &mut WorldCell<'a>,
    ) -> (out: Out) {
        let (mut g0, mut g1, mut g2, mut g3, mut g4, mut g5) = param_value;
        let p0 = T0::item(&mut g0);
        let p1 = T1::item(&mut g1);
        let p2 = T2::item(&mut g2);
        let p3 = T3::item(&mut g3);
        let p4 = T4::item(&mut g4);
        let p5 = T5::item(&mut g5);
        let ghost lent = (p0, p1, p2, p3, p4, p5);
        proof {
            assert(T0::lent(lent.0, world.store(), world.resources(), world.last()));
            assert(T1::lent(lent.1, world.store(), world.resources(), world.last()));
            assert(T2::lent(lent.2, world.store(), world.resources(), world.last()));
            assert(T3::lent(lent.3, world.store(), world.resources(), world.last()));
            assert(T4::lent(lent.4, world.store(), world.resources(), world.last()));
            assert(T5::lent(lent.5, world.store(), world.resources(), world.last()));
        }
        let out = call_inner7(&*self, In::wrap(input), p0, p1, p2, p3, p4, p5);
        proof {
            assert(call_ensures(
                *self,
                (In::wrapped(input), lent.0, lent.1, lent.2, lent.3, lent.4, lent.5),
                out,
            ));
        }
        T5::release(g5, world);
        T4::release(g4, world);
        T3::release(g3, world);
        T2::release(g2, world);
        T1::release(g1, world);
        T0::release(g0, world);
        out
    }
}

impl<
    Out,
    Func,
    T0: SystemArg,
    T1: SystemArg,
    T2: SystemArg,
    T3: SystemArg,
    T4: SystemArg,
    T5: SystemArg,
    T6: SystemArg,
> SystemParamFunction<
    (T0, T1, T2, T3, T4, T5, T6),
> for Func where
    Func: Fn(
        T0,
        T1,
        T2,
        T3,
        T4,
        T5,
        T6,
    ) -> Out + Fn(
        SystemParamItem<T0>,
        SystemParamItem<T1>,
        SystemParamItem<T2>,
        SystemParamItem<T3>,
        SystemParamItem<T4>,
        SystemParamItem<T5>,
        SystemParamItem<T6>,
    ) -> Out,
 {
    type In = ();

    type Out = Out;

    type Param = (T0, T1, T2, T3, T4, T5, T6);

    open spec fn accepts(
        &self,
        input: (),
        store: Store,
        resources: hecs::Entity,
        last: Components,
    ) -> bool {
        forall|
            p0: SystemParamItem<'_, T0>,
            p1: SystemParamItem<'_, T1>,
            p2: SystemParamItem<'_, T2>,
            p3: SystemParamItem<'_, T3>,
            p4: SystemParamItem<'_, T4>,
            p5: SystemParamItem<'_, T5>,
            p6: SystemParamItem<'_, T6>,
        |
            {
                &&& T0::lent(p0, store, resources, last)
                &&& T1::lent(p1, store, resources, last)
                &&& T2::lent(p2, store, resources, last)
                &&& T3::lent(p3, store, resources, last)
                &&& T4::lent(p4, store, resources, last)
                &&& T5::lent(p5, store, resources, last)
                &&& T6::lent(p6, store, resources, last)
            } ==> #[trigger] call_requires(*self, (p0, p1, p2, p3, p4, p5, p6))
    }

    open spec fn yields(
        &self,
        input: (),
        store: Store,
        resources: hecs::Entity,
        last: Components,
        out: Out,
    ) -> bool {
        exists|
            p0: SystemParamItem<'_, T0>,
            p1: SystemParamItem<'_, T1>,
            p2: SystemParamItem<'_, T2>,
            p3: SystemParamItem<'_, T3>,
            p4: SystemParamItem<'_, T4>,
            p5: SystemParamItem<'_, T5>,
            p6: SystemParamItem<'_, T6>,
        |
            {
                &&& T0::lent(p0, store, resources, last)
                &&& T1::lent(p1, store, resources, last)
                &&& T2::lent(p2, store, resources, last)
                &&& T3::lent(p3, store, resources, last)
                &&& T4::lent(p4, store, resources, last)
                &&& T5::lent(p5, store, resources, last)
                &&& T6::lent(p6, store, resources, last)
                &&& #[trigger] call_ensures(*self, (p0, p1, p2, p3, p4, p5, p6), out)
            }
    }

    fn run<'a>(
        &mut self,
        input: (),
        param_value: SystemParamGuard<'a, Self::Param>,
        world: &mut WorldCell<'a>,
    ) -> (out: Out) {
        let (mut g0, mut g1, mut g2, mut g3, mut g4, mut g5, mut g6) = param_value;
        let p0 = T0::item(&mut g0);
        let p1 = T1::item(&mut g1);
        let p2 = T2::item(&mut g2);
        let p3 = T3::item(&mut g3);
        let p4 = T4::item(&mut g4);
        let p5 = T5::item(&mut g5);
        let p6 = T6::item(&mut g6);
        let ghost lent = (p0, p1, p2, p3, p4, p5, p6);
        proof {
            assert(T0::lent(lent.0, world.store(), world.resources(), world.last()));
            assert(T1::lent(lent.1, world.store(), world.resources(), world.last()));
            assert(T2::lent(lent.2, world.store(), world.resources(), world.last()));
            assert(T3::lent(lent.3, world.store(), world.resources(), world.last()));
            assert(T4::lent(lent.4, world.store(), world.resources(), world.last()));
            assert(T5::lent(lent.5, world.store(), world.resources(), world.last()));
            assert(T6::lent(lent.6, world.store(), world.resources(), world.last()));
        }
        let out = call_inner7(&*self, p0, p1, p2, p3, p4, p5, p6);
        proof {
            assert(call_ensures(
                *self,
                (lent.0, lent.1, lent.2, lent.3, lent.4, lent.5, lent.6),
                out,
            ));
        }
        T6::release(g6, world);
        T5::release(g5, world);
        T4::release(g4, world);
        T3::release(g3, world);
        T2::release(g2, world);
        T1::release(g1, world);
        T0::release(g0, world);
        out
    }
}

impl<
    In,
    Out,
    Func,
    T0: SystemArg,
    T1: SystemArg,
    T2: SystemArg,
    T3: SystemArg,
    T4: SystemArg,
    T5: SystemArg,
    T6: SystemArg,
> SystemParamFunction<
    (HasSystemInput, In, (T0, T1, T2, T3, T4, T5, T6)),
> for Func where
    Func: Fn(
        In,
        T0,
        T1,
        T2,
        T3,
        T4,
        T5,
        T6,
    ) -> Out + Fn(
        In::Param<'_>,
        SystemParamItem<T0>,
        SystemParamItem<T1>,
        SystemParamItem<T2>,
        SystemParamItem<T3>,
        SystemParamItem<T4>,
        SystemParamItem<T5>,
        SystemParamItem<T6>,
    ) -> Out,
    In: SystemInput,
 {
    type In = In;

    type Out = Out;

    type Param = (T0, T1, T2, T3, T4, T5, T6);

    open spec fn accepts(
        &self,
        input: In::Inner<'_>,
        store: Store,
        resources: hecs::Entity,
        last: Components,
    ) -> bool {
        forall|
            p0: SystemParamItem<'_, T0>,
            p1: SystemParamItem<'_, T1>,
            p2: SystemParamItem<'_, T2>,
            p3: SystemParamItem<'_, T3>,
            p4: SystemParamItem<'_, T4>,
            p5: SystemParamItem<'_, T5>,
            p6: SystemParamItem<'_, T6>,
        |
            {
                &&& T0::lent(p0, store, resources, last)
                &&& T1::lent(p1, store, resources, last)
                &&& T2::lent(p2, store, resources, last)
                &&& T3::lent(p3, store, resources, last)
                &&& T4::lent(p4, store, resources, last)
                &&& T5::lent(p5, store, resources, last)
                &&& T6::lent(p6, store, resources, last)
            } ==> #[trigger] call_requires(*self, (In::wrapped(input), p0, p1, p2, p3, p4, p5, p6))
    }

    open spec fn yields(
        &self,
        input: In::Inner<'_>,
        store: Store,
        resources: hecs::Entity,
        last: Components,
        out: Out,
    ) -> bool {
        exists|
            p0: SystemParamItem<'_, T0>,
            p1: SystemParamItem<'_, T1>,
            p2: SystemParamItem<'_, T2>,
            p3: SystemParamItem<'_, T3>,
            p4: SystemParamItem<'_, T4>,
            p5: SystemParamItem<'_, T5>,
            p6: SystemParamItem<'_, T6>,
        |
            {
                &&& T0::lent(p0, store, resources, last)
                &&& T1::lent(p1, store, resources, last)
                &&& T2::lent(p2, store, resources, last)
                &&& T3::lent(p3, store, resources, last)
                &&& T4::lent(p4, store, resources, last)
                &&& T5::lent(p5, store, resources, last)
                &&& T6::lent(p6, store, resources, last)
                &&& #[trigger] call_ensures(
                    *self,
                    (In::wrapped(input), p0, p1, p2, p3, p4, p5, p6),
                    out,
                )
            }
    }

    fn run<'a>(
        &mut self,
        input: In::Inner<'_>,
        param_value: SystemParamGuard<'a, Self::Param>,
        world: &mut WorldCell<'a>,
    ) -> (out: Out) {
        let (mut g0, mut g1, mut g2, mut g3, mut g4, mut g5, mut g6) = param_value;
        let p0 = T0::item(&mut g0);
        let p1 = T1::item(&mut g1);
        let p2 = T2::item(&mut g2);
        let p3 = T3::item(&mut g3);
        let p4 = T4::item(&mut g4);
        let p5 = T5::item(&mut g5);
        let p6 = T6::item(&mut g6);
        let ghost lent = (p0, p1, p2, p3, p4, p5, p6);
        proof {
            assert(T0::lent(lent.0, world.store(), world.resources(), world.last()));
            assert(T1::lent(lent.1, world.store(), world.resources(), world.last()));
            assert(T2::lent(lent.2, world.store(), world.resources(), world.last()));
            assert(T3::lent(lent.3, world.store(), world.resources(), world.last()));
            assert(T4::lent(lent.4, world.store(), world.resources(), world.last()));
            assert(T5::lent(lent.5, world.store(), world.resources(), world.last()));
            assert(T6::lent(lent.6, world.store(), world.resources(), world.last()));
        }
        let out = call_inner8(&*self, In::wrap(input), p0, p1, p2, p3, p4, p5, p6);
        proof {
            assert(call_ensures(
                *self,
                (In::wrapped(input), lent.0, lent.1, lent.2, lent.3, lent.4, lent.5, lent.6),
                out,
            ));
        }
        T6::release(g6, world);
        T5::release(g5, world);
        T4::release(g4, world);
        T3::release(g3, world);
        T2::release(g2, world);
        T1::release(g1, world);
        T0::release(g0, world);
        out
    }
}

impl<
    Out,
    Func,
    T0: SystemArg,
    T1: SystemArg,
    T2: SystemArg,
    T3: SystemArg,
    T4: SystemArg,
    T5: SystemArg,
    T6: SystemArg,
    T7: SystemArg,
> SystemParamFunction<
    (T0, T1, T2, T3, T4, T5, T6, T7),
> for Func where
    Func: Fn(
        T0,
        T1,
        T2,
        T3,
        T4,
        T5,
        T6,
        T7,
    ) -> Out + Fn(
        SystemParamItem<T0>,
        SystemParamItem<T1>,
        SystemParamItem<T2>,
        SystemParamItem<T3>,
        SystemParamItem<T4>,
        SystemParamItem<T5>,
        SystemParamItem<T6>,
        SystemParamItem<T7>,
    ) -> Out,
 {
    type In = ();

    type Out = Out;

    type Param = (T0, T1, T2, T3, T4, T5, T6, T7);

    open spec fn accepts(
        &self,
        input: (),
        store: Store,
        resources: hecs::Entity,
        last: Components,
    ) -> bool {
        forall|
            p0: SystemParamItem<'_, T0>,
            p1: SystemParamItem<'_, T1>,
            p2: SystemParamItem<'_, T2>,
            p3: SystemParamItem<'_, T3>,
            p4: SystemParamItem<'_, T4>,
            p5: SystemParamItem<'_, T5>,
            p6: SystemParamItem<'_, T6>,
            p7: SystemParamItem<'_, T7>,
        |
            {
                &&& T0::lent(p0, store, resources, last)
                &&& T1::lent(p1, store, resources, last)
                &&& T2::lent(p2, store, resources, last)
                &&& T3::lent(p3, store, resources, last)
                &&& T4::lent(p4, store, resources, last)
                &&& T5::lent(p5, store, resources, last)
                &&& T6::lent(p6, store, resources, last)
                &&& T7::lent(p7, store, resources, last)
            } ==> #[trigger] call_requires(*self, (p0, p1, p2, p3, p4, p5, p6, p7))
    }

    open spec fn yields(
        &self,
        input: (),
        store: Store,
        resources: hecs::Entity,
        last: Components,
        out: Out,
    ) -> bool {
        exists|
            p0: SystemParamItem<'_, T0>,
            p1: SystemParamItem<'_, T1>,
            p2: SystemParamItem<'_, T2>,
            p3: SystemParamItem<'_, T3>,
            p4: SystemParamItem<'_, T4>,
            p5: SystemParamItem<'_, T5>,
            p6: SystemParamItem<'_, T6>,
            p7: SystemParamItem<'_, T7>,
        |
            {
                &&& T0::lent(p0, store, resources, last)
                &&& T1::lent(p1, store, resources, last)
                &&& T2::lent(p2, store, resources, last)
                &&& T3::lent(p3, store, resources, last)
                &&& T4::lent(p4, store, resources, last)
                &&& T5::lent(p5, store, resources, last)
                &&& T6::lent(p6, store, resources, last)
                &&& T7::lent(p7, store, resources, last)
                &&& #[trigger] call_ensures(*self, (p0, p1, p2, p3, p4, p5, p6, p7), out)
            }
    }

    fn run<'a>(
        &mut self,
        input: (),
        param_value: SystemParamGuard<'a, Self::Param>,
        world: &mut WorldCell<'a>,
    ) -> (out: Out) {
        let (mut g0, mut g1, mut g2, mut g3, mut g4, mut g5, mut g6, mut g7) = param_value;
        let p0 = T0::item(&mut g0);
        let p1 = T1::item(&mut g1);
        let p2 = T2::item(&mut g2);
        let p3 = T3::item(&mut g3);
        let p4 = T4::item(&mut g4);
        let p5 = T5::item(&mut g5);
        let p6 = T6::item(&mut g6);
        let p7 = T7::item(&mut g7);
        let ghost lent = (p0, p1, p2, p3, p4, p5, p6, p7);
        proof {
            assert(T0::lent(lent.0, world.store(), world.resources(), world.last()));
            assert(T1::lent(lent.1, world.store(), world.resources(), world.last()));
            assert(T2::lent(lent.2, world.store(), world.resources(), world.last()));
            assert(T3::lent(lent.3, world.store(), world.resources(), world.last()));
            assert(T4::lent(lent.4, world.store(), world.resources(), world.last()));
            assert(T5::lent(lent.5, world.store(), world.resources(), world.last()));
            assert(T6::lent(lent.6, world.store(), world.resources(), world.last()));
            assert(T7::lent(lent.7, world.store(), world.resources(), world.last()));
        }
        let out = call_inner8(&*self, p0, p1, p2, p3, p4, p5, p6, p7);
        proof {
            assert(call_ensures(
                *self,
                (lent.0, lent.1, lent.2, lent.3, lent.4, lent.5, lent.6, lent.7),
                out,
            ));
        }
        T7::release(g7, world);
        T6::release(g6, world);
        T5::release(g5, world);
        T4::release(g4, world);
        T3::release(g3, world);
        T2::release(g2, world);
        T1::release(g1, world);
        T0::release(g0, world);
        out
    }
}

impl<
    In,
    Out,
    Func,
    T0: SystemArg,
    T1: SystemArg,
    T2: SystemArg,
    T3: SystemArg,
    T4: SystemArg,
    T5: SystemArg,
    T6: SystemArg,
    T7: SystemArg,
> SystemParamFunction<
    (HasSystemInput, In, (T0, T1, T2, T3, T4, T5, T6, T7)),
> for Func where
    Func: Fn(
        In,
        T0,
        T1,
        T2,
        T3,
        T4,
        T5,
        T6,
        T7,
    ) -> Out + Fn(
        In::Param<'_>,
        SystemParamItem<T0>,
        SystemParamItem<T1>,
        SystemParamItem<T2>,
        SystemParamItem<T3>,
        SystemParamItem<T4>,
        SystemParamItem<T5>,
        SystemParamItem<T6>,
        SystemParamItem<T7>,
    ) -> Out,
    In: SystemInput,
 {
    type In = In;

    type Out = Out;

    type Param = (T0, T1, T2, T3, T4, T5, T6, T7);

    open spec fn accepts(
        &self,
        input: In::Inner<'_>,
        store: Store,
        resources: hecs::Entity,
        last: Components,
    ) -> bool {
        forall|
            p0: SystemParamItem<'_, T0>,
            p1: SystemParamItem<'_, T1>,
            p2: SystemParamItem<'_, T2>,
            p3: SystemParamItem<'_, T3>,
            p4: SystemParamItem<'_, T4>,
            p5: SystemParamItem<'_, T5>,
            p6: SystemParamItem<'_, T6>,
            p7: SystemParamItem<'_, T7>,
        |
            {
                &&& T0::lent(p0, store, resources, last)
                &&& T1::lent(p1, store, resources, last)
                &&& T2::lent(p2, store, resources, last)
                &&& T3::lent(p3, store, resources, last)
                &&& T4::lent(p4, store, resources, last)
                &&& T5::lent(p5, store, resources, last)
                &&& T6::lent(p6, store, resources, last)
                &&& T7::lent(p7, store, resources, last)
            } ==> #[trigger] call_requires(
                *self,
                (In::wrapped(input), p0, p1, p2, p3, p4, p5, p6, p7),
            )
    }

    open spec fn yields(
        &self,
        input: In::Inner<'_>,
        store: Store,
        resources: hecs::Entity,
        last: Components,
        out: Out,
    ) -> bool {
        exists|
            p0: SystemParamItem<'_, T0>,
            p1: SystemParamItem<'_, T1>,
            p2: SystemParamItem<'_, T2>,
            p3: SystemParamItem<'_, T3>,
            p4: SystemParamItem<'_, T4>,
            p5: SystemParamItem<'_, T5>,
            p6: SystemParamItem<'_, T6>,
            p7: SystemParamItem<'_, T7>,
        |
            {
                &&& T0::lent(p0, store, resources, last)
                &&& T1::lent(p1, store, resources, last)
                &&& T2::lent(p2, store, resources, last)
                &&& T3::lent(p3, store, resources, last)
                &&& T4::lent(p4, store, resources, last)
                &&& T5::lent(p5, store, resources, last)
                &&& T6::lent(p6, store, resources, last)
                &&& T7::lent(p7, store, resources, last)
                &&& #[trigger] call_ensures(
                    *self,
                    (In::wrapped(input), p0, p1, p2, p3, p4, p5, p6, p7),
                    out,
                )
            }
    }

    fn run<'a>(
        &mut self,
        input: In::Inner<'_>,
        param_value: SystemParamGuard<'a, Self::Param>,
        world: &mut WorldCell<'a>,
    ) -> (out: Out) {
        let (mut g0, mut g1, mut g2, mut g3, mut g4, mut g5, mut g6, mut g7) = param_value;
        let p0 = T0::item(&mut g0);
        let p1 = T1::item(&mut g1);
        let p2 = T2::item(&mut g2);
        let p3 = T3::item(&mut g3);
        let p4 = T4::item(&mut g4);
        let p5 = T5::item(&mut g5);
        let p6 = T6::item(&mut g6);
        let p7 = T7::item(&mut g7);
        let ghost lent = (p0, p1, p2, p3, p4, p5, p6, p7);
        proof {
            assert(T0::lent(lent.0, world.store(), world.resources(), world.last()));
            assert(T1::lent(lent.1, world.store(), world.resources(), world.last()));
            assert(T2::lent(lent.2, world.store(), world.resources(), world.last()));
            assert(T3::lent(lent.3, world.store(), world.resources(), world.last()));
            assert(T4::lent(lent.4, world.store(), world.resources(), world.last()));
            assert(T5::lent(lent.5, world.store(), world.resources(), world.last()));
            assert(T6::lent(lent.6, world.store(), world.resources(), world.last()));
            assert(T7::lent(lent.7, world.store(), world.resources(), world.last()));
        }
        let out = call_inner9(&*self, In::wrap(input), p0, p1, p2, p3, p4, p5, p6, p7);
        proof {
            assert(call_ensures(
                *self,
                (
                    In::wrapped(input),
                    lent.0,
                    lent.1,
                    lent.2,
                    lent.3,
                    lent.4,
                    lent.5,
                    lent.6,
                    lent.7,
                ),
                out,
            ));
        }
        T7::release(g7, world);
        T6::release(g6, world);
        T5::release(g5, world);
        T4::release(g4, world);
        T3::release(g3, world);
        T2::release(g2, world);
        T1::release(g1, world);
        T0::release(g0, world);
        out
    }
}

impl<
    Out,
    Func,
    T0: SystemArg,
    T1: SystemArg,
    T2: SystemArg,
    T3: SystemArg,
    T4: SystemArg,
    T5: SystemArg,
    T6: SystemArg,
    T7: SystemArg,
    T8: SystemArg,
> SystemParamFunction<
    (T0, T1, T2, T3, T4, T5, T6, T7, T8),
> for Func where
    Func: Fn(
        T0,
        T1,
        T2,
        T3,
        T4,
        T5,
        T6,
        T7,
        T8,
    ) -> Out + Fn(
        SystemParamItem<T0>,
        SystemParamItem<T1>,
        SystemParamItem<T2>,
        SystemParamItem<T3>,
        SystemParamItem<T4>,
        SystemParamItem<T5>,
        SystemParamItem<T6>,
        SystemParamItem<T7>,
        SystemParamItem<T8>,
    ) -> Out,
 {
    type In = ();

    type Out = Out;

    type Param = (T0, T1, T2, T3, T4, T5, T6, T7, T8);

    open spec fn accepts(
        &self,
        input: (),
        store: Store,
        resources: hecs::Entity,
        last: Components,
    ) -> bool {
        forall|
            p0: SystemParamItem<'_, T0>,
            p1: SystemParamItem<'_, T1>,
            p2: SystemParamItem<'_, T2>,
            p3: SystemParamItem<'_, T3>,
            p4: SystemParamItem<'_, T4>,
            p5: SystemParamItem<'_, T5>,
            p6: SystemParamItem<'_, T6>,
            p7: SystemParamItem<'_, T7>,
            p8: SystemParamItem<'_, T8>,
        |
            {
                &&& T0::lent(p0, store, resources, last)
                &&& T1::lent(p1, store, resources, last)
                &&& T2::lent(p2, store, resources, last)
                &&& T3::lent(p3, store, resources, last)
                &&& T4::lent(p4, store, resources, last)
                &&& T5::lent(p5, store, resources, last)
                &&& T6::lent(p6, store, resources, last)
                &&& T7::lent(p7, store, resources, last)
                &&& T8::lent(p8, store, resources, last)
            } ==> #[trigger] call_requires(*self, (p0, p1, p2, p3, p4, p5, p6, p7, p8))
    }

    open spec fn yields(
        &self,
        input: (),
        store: Store,
        resources: hecs::Entity,
        last: Components,
        out: Out,
    ) -> bool {
        exists|
            p0: SystemParamItem<'_, T0>,
            p1: SystemParamItem<'_, T1>,
            p2: SystemParamItem<'_, T2>,
            p3: SystemParamItem<'_, T3>,
            p4: SystemParamItem<'_, T4>,
            p5: SystemParamItem<'_, T5>,
            p6: SystemParamItem<'_, T6>,
            p7: SystemParamItem<'_, T7>,
            p8: SystemParamItem<'_, T8>,
        |
            {
                &&& T0::lent(p0, store, resources, last)
                &&& T1::lent(p1, store, resources, last)
                &&& T2::lent(p2, store, resources, last)
                &&& T3::lent(p3, store, resources, last)
                &&& T4::lent(p4, store, resources, last)
                &&& T5::lent(p5, store, resources, last)
                &&& T6::lent(p6, store, resources, last)
                &&& T7::lent(p7, store, resources, last)
                &&& T8::lent(p8, store, resources, last)
                &&& #[trigger] call_ensures(*self, (p0, p1, p2, p3, p4, p5, p6, p7, p8), out)
            }
    }

    fn run<'a>(
        &mut self,
        input: (),
        param_value: SystemParamGuard<'a, Self::Param>,
        world: &mut WorldCell<'a>,
    ) -> (out: Out) {
        let (mut g0, mut g1, mut g2, mut g3, mut g4, mut g5, mut g6, mut g7, mut g8) = param_value;
        let p0 = T0::item(&mut g0);
        let p1 = T1::item(&mut g1);
        let p2 = T2::item(&mut g2);
        let p3 = T3::item(&mut g3);
        let p4 = T4::item(&mut g4);
        let p5 = T5::item(&mut g5);
        let p6 = T6::item(&mut g6);
        let p7 = T7::item(&mut g7);
        let p8 = T8::item(&mut g8);
        let ghost lent = (p0, p1, p2, p3, p4, p5, p6, p7, p8);
        proof {
            assert(T0::lent(lent.0, world.store(), world.resources(), world.last()));
            assert(T1::lent(lent.1, world.store(), world.resources(), world.last()));
            assert(T2::lent(lent.2, world.store(), world.resources(), world.last()));
            assert(T3::lent(lent.3, world.store(), world.resources(), world.last()));
            assert(T4::lent(lent.4, world.store(), world.resources(), world.last()));
            assert(T5::lent(lent.5, world.store(), world.resources(), world.last()));
            assert(T6::lent(lent.6, world.store(), world.resources(), world.last()));
            assert(T7::lent(lent.7, world.store(), world.resources(), world.last()));
            assert(T8::lent(lent.8, world.store(), world.resources(), world.last()));
        }
        let out = call_inner9(&*self, p0, p1, p2, p3, p4, p5, p6, p7, p8);
        proof {
            assert(call_ensures(
                *self,
                (lent.0, lent.1, lent.2, lent.3, lent.4, lent.5, lent.6, lent.7, lent.8),
                out,
            ));
        }
        T8::release(g8, world);
        T7::release(g7, world);
        T6::release(g6, world);
        T5::release(g5, world);
        T4::release(g4, world);
        T3::release(g3, world);
        T2::release(g2, world);
        T1::release(g1, world);
        T0::release(g0, world);
        out
    }
}

impl<
    In,
    Out,
    Func,
    T0: SystemArg,
    T1: SystemArg,
    T2: SystemArg,
    T3: SystemArg,
    T4: SystemArg,
    T5: SystemArg,
    T6: SystemArg,
    T7: SystemArg,
    T8: SystemArg,
> SystemParamFunction<
    (HasSystemInput, In, (T0, T1, T2, T3, T4, T5, T6, T7, T8)),
> for Func where
    Func: Fn(
        In,
        T0,
        T1,
        T2,
        T3,
        T4,
        T5,
        T6,
        T7,
        T8,
    ) -> Out + Fn(
        In::Param<'_>,
        SystemParamItem<T0>,
        SystemParamItem<T1>,
        SystemParamItem<T2>,
        SystemParamItem<T3>,
        SystemParamItem<T4>,
        SystemParamItem<T5>,
        SystemParamItem<T6>,
        SystemParamItem<T7>,
        SystemParamItem<T8>,
    ) -> Out,
    In: SystemInput,
 {
    type In = In;

    type Out = Out;

    type Param = (T0, T1, T2, T3, T4, T5, T6, T7, T8);

    open spec fn accepts(
        &self,
        input: In::Inner<'_>,
        store: Store,
        resources: hecs::Entity,
        last: Components,
    ) -> bool {
        forall|
            p0: SystemParamItem<'_, T0>,
            p1: SystemParamItem<'_, T1>,
            p2: SystemParamItem<'_, T2>,
            p3: SystemParamItem<'_, T3>,
            p4: SystemParamItem<'_, T4>,
            p5: SystemParamItem<'_, T5>,
            p6: SystemParamItem<'_, T6>,
            p7: SystemParamItem<'_, T7>,
            p8: SystemParamItem<'_, T8>,
        |
            {
                &&& T0::lent(p0, store, resources, last)
                &&& T1::lent(p1, store, resources, last)
                &&& T2::lent(p2, store, resources, last)
                &&& T3::lent(p3, store, resources, last)
                &&& T4::lent(p4, store, resources, last)
                &&& T5::lent(p5, store, resources, last)
                &&& T6::lent(p6, store, resources, last)
                &&& T7::lent(p7, store, resources, last)
                &&& T8::lent(p8, store, resources, last)
            } ==> #[trigger] call_requires(
                *self,
                (In::wrapped(input), p0, p1, p2, p3, p4, p5, p6, p7, p8),
            )
    }

    open spec fn yields(
        &self,
        input: In::Inner<'_>,
        store: Store,
        resources: hecs::Entity,
        last: Components,
        out: Out,
    ) -> bool {
        exists|
            p0: SystemParamItem<'_, T0>,
            p1: SystemParamItem<'_, T1>,
            p2: SystemParamItem<'_, T2>,
            p3: SystemParamItem<'_, T3>,
            p4: SystemParamItem<'_, T4>,
            p5: SystemParamItem<'_, T5>,
            p6: SystemParamItem<'_, T6>,
            p7: SystemParamItem<'_, T7>,
            p8: SystemParamItem<'_, T8>,
        |
            {
                &&& T0::lent(p0, store, resources, last)
                &&& T1::lent(p1, store, resources, last)
                &&& T2::lent(p2, store, resources, last)
                &&& T3::lent(p3, store, resources, last)
                &&& T4::lent(p4, store, resources, last)
                &&& T5::lent(p5, store, resources, last)
                &&& T6::lent(p6, store, resources, last)
                &&& T7::lent(p7, store, resources, last)
                &&& T8::lent(p8, store, resources, last)
                &&& #[trigger] call_ensures(
                    *self,
                    (In::wrapped(input), p0, p1, p2, p3, p4, p5, p6, p7, p8),
                    out,
                )
            }
    }

    fn run<'a>(
        &mut self,
        input: In::Inner<'_>,
        param_value: SystemParamGuard<'a, Self::Param>,
        world: &mut WorldCell<'a>,
    ) -> (out: Out) {
        let (mut g0, mut g1, mut g2, mut g3, mut g4, mut g5, mut g6, mut g7, mut g8) = param_value;
        let p0 = T0::item(&mut g0);
        let p1 = T1::item(&mut g1);
        let p2 = T2::item(&mut g2);
        let p3 = T3::item(&mut g3);
        let p4 = T4::item(&mut g4);
        let p5 = T5::item(&mut g5);
        let p6 = T6::item(&mut g6);
        let p7 = T7::item(&mut g7);
        let p8 = T8::item(&mut g8);
        let ghost lent = (p0, p1, p2, p3, p4, p5, p6, p7, p8);
        proof {
            assert(T0::lent(lent.0, world.store(), world.resources(), world.last()));
            assert(T1::lent(lent.1, world.store(), world.resources(), world.last()));
            assert(T2::lent(lent.2, world.store(), world.resources(), world.last()));
            assert(T3::lent(lent.3, world.store(), world.resources(), world.last()));
            assert(T4::lent(lent.4, world.store(), world.resources(), world.last()));
            assert(T5::lent(lent.5, world.store(), world.resources(), world.last()));
            assert(T6::lent(lent.6, world.store(), world.resources(), world.last()));
            assert(T7::lent(lent.7, world.store(), world.resources(), world.last()));
            assert(T8::lent(lent.8, world.store(), world.resources(), world.last()));
        }
        let out = call_inner10(&*self, In::wrap(input), p0, p1, p2, p3, p4, p5, p6, p7, p8);
        proof {
            assert(call_ensures(
                *self,
                (
                    In::wrapped(input),
                    lent.0,
                    lent.1,
                    lent.2,
                    lent.3,
                    lent.4,
                    lent.5,
                    lent.6,
                    lent.7,
                    lent.8,
                ),
                out,
            ));
        }
        T8::release(g8, world);
        T7::release(g7, world);
        T6::release(g6, world);
        T5::release(g5, world);
        T4::release(g4, world);
        T3::release(g3, world);
        T2::release(g2, world);
        T1::release(g1, world);
        T0::release(g0, world);
        out
    }
}

impl<
    Out,
    Func,
    T0: SystemArg,
    T1: SystemArg,
    T2: SystemArg,
    T3: SystemArg,
    T4: SystemArg,
    T5: SystemArg,
    T6: SystemArg,
    T7: SystemArg,
    T8: SystemArg,
    T9: SystemArg,
> SystemParamFunction<
    (T0, T1, T2, T3, T4, T5, T6, T7, T8, T9),
> for Func where
    Func: Fn(
        T0,
        T1,
        T2,
        T3,
        T4,
        T5,
        T6,
        T7,
        T8,
        T9,
    ) -> Out + Fn(
        SystemParamItem<T0>,
        SystemParamItem<T1>,
        SystemParamItem<T2>,
        SystemParamItem<T3>,
        SystemParamItem<T4>,
        SystemParamItem<T5>,
        SystemParamItem<T6>,
        SystemParamItem<T7>,
        SystemParamItem<T8>,
        SystemParamItem<T9>,
    ) -> Out,
 {
    type In = ();

    type Out = Out;

    type Param = (T0, T1, T2, T3, T4, T5, T6, T7, T8, T9);

    open spec fn accepts(
        &self,
        input: (),
        store: Store,
        resources: hecs::Entity,
        last: Components,
    ) -> bool {
        forall|
            p0: SystemParamItem<'_, T0>,
            p1: SystemParamItem<'_, T1>,
            p2: SystemParamItem<'_, T2>,
            p3: SystemParamItem<'_, T3>,
            p4: SystemParamItem<'_, T4>,
            p5: SystemParamItem<'_, T5>,
            p6: SystemParamItem<'_, T6>,
            p7: SystemParamItem<'_, T7>,
            p8: SystemParamItem<'_, T8>,
            p9: SystemParamItem<'_, T9>,
        |
            {
                &&& T0::lent(p0, store, resources, last)
                &&& T1::lent(p1, store, resources, last)
                &&& T2::lent(p2, store, resources, last)
                &&& T3::lent(p3, store, resources, last)
                &&& T4::lent(p4, store, resources, last)
                &&& T5::lent(p5, store, resources, last)
                &&& T6::lent(p6, store, resources, last)
                &&& T7::lent(p7, store, resources, last)
                &&& T8::lent(p8, store, resources, last)
                &&& T9::lent(p9, store, resources, last)
            } ==> #[trigger] call_requires(*self, (p0, p1, p2, p3, p4, p5, p6, p7, p8, p9))
    }

    open spec fn yields(
        &self,
        input: (),
        store: Store,
        resources: hecs::Entity,
        last: Components,
        out: Out,
    ) -> bool {
        exists|
            p0: SystemParamItem<'_, T0>,
            p1: SystemParamItem<'_, T1>,
            p2: SystemParamItem<'_, T2>,
            p3: SystemParamItem<'_, T3>,
            p4: SystemParamItem<'_, T4>,
            p5: SystemParamItem<'_, T5>,
            p6: SystemParamItem<'_, T6>,
            p7: SystemParamItem<'_, T7>,
            p8: SystemParamItem<'_, T8>,
            p9: SystemParamItem<'_, T9>,
        |
            {
                &&& T0::lent(p0, store, resources, last)
                &&& T1::lent(p1, store, resources, last)
                &&& T2::lent(p2, store, resources, last)
                &&& T3::lent(p3, store, resources, last)
                &&& T4::lent(p4, store, resources, last)
                &&& T5::lent(p5, store, resources, last)
                &&& T6::lent(p6, store, resources, last)
                &&& T7::lent(p7, store, resources, last)
                &&& T8::lent(p8, store, resources, last)
                &&& T9::lent(p9, store, resources, last)
                &&& #[trigger] call_ensures(*self, (p0, p1, p2, p3, p4, p5, p6, p7, p8, p9), out)
            }
    }

    fn run<'a>(
        &mut self,
        input: (),
        param_value: SystemParamGuard<'a, Self::Param>,
        world: &mut WorldCell<'a>,
    ) -> (out: Out) {
        let (
            mut g0,
            mut g1,
            mut g2,
            mut g3,
            mut g4,
            mut g5,
            mut g6,
            mut g7,
            mut g8,
            mut g9,
        ) = param_value;
        let p0 = T0::item(&mut g0);
        let p1 = T1::item(&mut g1);
        let p2 = T2::item(&mut g2);
        let p3 = T3::item(&mut g3);
        let p4 = T4::item(&mut g4);
        let p5 = T5::item(&mut g5);
        let p6 = T6::item(&mut g6);
        let p7 = T7::item(&mut g7);
        let p8 = T8::item(&mut g8);
        let p9 = T9::item(&mut g9);
        let ghost lent = (p0, p1, p2, p3, p4, p5, p6, p7, p8, p9);
        proof {
            assert(T0::lent(lent.0, world.store(), world.resources(), world.last()));
            assert(T1::lent(lent.1, world.store(), world.resources(), world.last()));
            assert(T2::lent(lent.2, world.store(), world.resources(), world.last()));
            assert(T3::lent(lent.3, world.store(), world.resources(), world.last()));
            assert(T4::lent(lent.4, world.store(), world.resources(), world.last()));
            assert(T5::lent(lent.5, world.store(), world.resources(), world.last()));
            assert(T6::lent(lent.6, world.store(), world.resources(), world.last()));
            assert(T7::lent(lent.7, world.store(), world.resources(), world.last()));
            assert(T8::lent(lent.8, world.store(), world.resources(), world.last()));
            assert(T9::lent(lent.9, world.store(), world.resources(), world.last()));
        }
        let out = call_inner10(&*self, p0, p1, p2, p3, p4, p5, p6, p7, p8, p9);
        proof {
            assert(call_ensures(
                *self,
                (lent.0, lent.1, lent.2, lent.3, lent.4, lent.5, lent.6, lent.7, lent.8, lent.9),
                out,
            ));
        }
        T9::release(g9, world);
        T8::release(g8, world);
        T7::release(g7, world);
        T6::release(g6, world);
        T5::release(g5, world);
        T4::release(g4, world);
        T3::release(g3, world);
        T2::release(g2, world);
        T1::release(g1, world);
        T0::release(g0, world);
        out
    }
}

impl<
    In,
    Out,
    Func,
    T0: SystemArg,
    T1: SystemArg,
    T2: SystemArg,
    T3: SystemArg,
    T4: SystemArg,
    T5: SystemArg,
    T6: SystemArg,
    T7: SystemArg,
    T8: SystemArg,
    T9: SystemArg,
> SystemParamFunction<
    (HasSystemInput, In, (T0, T1, T2, T3, T4, T5, T6, T7, T8, T9)),
> for Func where
    Func: Fn(
        In,
        T0,
        T1,
        T2,
        T3,
        T4,
        T5,
        T6,
        T7,
        T8,
        T9,
    ) -> Out + Fn(
        In::Param<'_>,
        SystemParamItem<T0>,
        SystemParamItem<T1>,
        SystemParamItem<T2>,
        SystemParamItem<T3>,
        SystemParamItem<T4>,
        SystemParamItem<T5>,
        SystemParamItem<T6>,
        SystemParamItem<T7>,
        SystemParamItem<T8>,
        SystemParamItem<T9>,
    ) -> Out,
    In: SystemInput,
 {
    type In = In;

    type Out = Out;

    type Param = (T0, T1, T2, T3, T4, T5, T6, T7, T8, T9);

    open spec fn accepts(
        &self,
        input: In::Inner<'_>,
        store: Store,
        resources: hecs::Entity,
        last: Components,
    ) -> bool {
        forall|
            p0: SystemParamItem<'_, T0>,
            p1: SystemParamItem<'_, T1>,
            p2: SystemParamItem<'_, T2>,
            p3: SystemParamItem<'_, T3>,
            p4: SystemParamItem<'_, T4>,
            p5: SystemParamItem<'_, T5>,
            p6: SystemParamItem<'_, T6>,
            p7: SystemParamItem<'_, T7>,
            p8: SystemParamItem<'_, T8>,
            p9: SystemParamItem<'_, T9>,
        |
            {
                &&& T0::lent(p0, store, resources, last)
                &&& T1::lent(p1, store, resources, last)
                &&& T2::lent(p2, store, resources, last)
                &&& T3::lent(p3, store, resources, last)
                &&& T4::lent(p4, store, resources, last)
                &&& T5::lent(p5, store, resources, last)
                &&& T6::lent(p6, store, resources, last)
                &&& T7::lent(p7, store, resources, last)
                &&& T8::lent(p8, store, resources, last)
                &&& T9::lent(p9, store, resources, last)
            } ==> #[trigger] call_requires(
                *self,
                (In::wrapped(input), p0, p1, p2, p3, p4, p5, p6, p7, p8, p9),
            )
    }

    open spec fn yields(
        &self,
        input: In::Inner<'_>,
        store: Store,
        resources: hecs::Entity,
        last: Components,
        out: Out,
    ) -> bool {
        exists|
            p0: SystemParamItem<'_, T0>,
            p1: SystemParamItem<'_, T1>,
            p2: SystemParamItem<'_, T2>,
            p3: SystemParamItem<'_, T3>,
            p4: SystemParamItem<'_, T4>,
            p5: SystemParamItem<'_, T5>,
            p6: SystemParamItem<'_, T6>,
            p7: SystemParamItem<'_, T7>,
            p8: SystemParamItem<'_, T8>,
            p9: SystemParamItem<'_, T9>,
        |
            {
                &&& T0::lent(p0, store, resources, last)
                &&& T1::lent(p1, store, resources, last)
                &&& T2::lent(p2, store, resources, last)
                &&& T3::lent(p3, store, resources, last)
                &&& T4::lent(p4, store, resources, last)
                &&& T5::lent(p5, store, resources, last)
                &&& T6::lent(p6, store, resources, last)
                &&& T7::lent(p7, store, resources, last)
                &&& T8::lent(p8, store, resources, last)
                &&& T9::lent(p9, store, resources, last)
                &&& #[trigger] call_ensures(
                    *self,
                    (In::wrapped(input), p0, p1, p2, p3, p4, p5, p6, p7, p8, p9),
                    out,
                )
            }
    }

    fn run<'a>(
        &mut self,
        input: In::Inner<'_>,
        param_value: SystemParamGuard<'a, Self::Param>,
        world: &mut WorldCell<'a>,
    ) -> (out: Out) {
        let (
            mut g0,
            mut g1,
            mut g2,
            mut g3,
            mut g4,
            mut g5,
            mut g6,
            mut g7,
            mut g8,
            mut g9,
        ) = param_value;
        let p0 = T0::item(&mut g0);
        let p1 = T1::item(&mut g1);
        let p2 = T2::item(&mut g2);
        let p3 = T3::item(&mut g3);
        let p4 = T4::item(&mut g4);
        let p5 = T5::item(&mut g5);
        let p6 = T6::item(&mut g6);
        let p7 = T7::item(&mut g7);
        let p8 = T8::item(&mut g8);
        let p9 = T9::item(&mut g9);
        let ghost lent = (p0, p1, p2, p3, p4, p5, p6, p7, p8, p9);
        proof {
            assert(T0::lent(lent.0, world.store(), world.resources(), world.last()));
            assert(T1::lent(lent.1, world.store(), world.resources(), world.last()));
            assert(T2::lent(lent.2, world.store(), world.resources(), world.last()));
            assert(T3::lent(lent.3, world.store(), world.resources(), world.last()));
            assert(T4::lent(lent.4, world.store(), world.resources(), world.last()));
            assert(T5::lent(lent.5, world.store(), world.resources(), world.last()));
            assert(T6::lent(lent.6, world.store(), world.resources(), world.last()));
            assert(T7::lent(lent.7, world.store(), world.resources(), world.last()));
            assert(T8::lent(lent.8, world.store(), world.resources(), world.last()));
            assert(T9::lent(lent.9, world.store(), world.resources(), world.last()));
        }
        let out = call_inner11(&*self, In::wrap(input), p0, p1, p2, p3, p4, p5, p6, p7, p8, p9);
        proof {
            assert(call_ensures(
                *self,
                (
                    In::wrapped(input),
                    lent.0,
                    lent.1,
                    lent.2,
                    lent.3,
                    lent.4,
                    lent.5,
                    lent.6,
                    lent.7,
                    lent.8,
                    lent.9,
                ),
                out,
            ));
        }
        T9::release(g9, world);
        T8::release(g8, world);
        T7::release(g7, world);
        T6::release(g6, world);
        T5::release(g5, world);
        T4::release(g4, world);
        T3::release(g3, world);
        T2::release(g2, world);
        T1::release(g1, world);
        T0::release(g0, world);
        out
    }
}

impl<
    Out,
    Func,
    T0: SystemArg,
    T1: SystemArg,
    T2: SystemArg,
    T3: SystemArg,
    T4: SystemArg,
    T5: SystemArg,
    T6: SystemArg,
    T7: SystemArg,
    T8: SystemArg,
    T9: SystemArg,
    T10: SystemArg,
> SystemParamFunction<
    (T0, T1, T2, T3, T4, T5, T6, T7, T8, T9, T10),
> for Func where
    Func: Fn(
        T0,
        T1,
        T2,
        T3,
        T4,
        T5,
        T6,
        T7,
        T8,
        T9,
        T10,
    ) -> Out + Fn(
        SystemParamItem<T0>,
        SystemParamItem<T1>,
        SystemParamItem<T2>,
        SystemParamItem<T3>,
        SystemParamItem<T4>,
        SystemParamItem<T5>,
        SystemParamItem<T6>,
        SystemParamItem<T7>,
        SystemParamItem<T8>,
        SystemParamItem<T9>,
        SystemParamItem<T10>,
    ) -> Out,
 {
    type In = ();

    type Out = Out;

    type Param = (T0, T1, T2, T3, T4, T5, T6, T7, T8, T9, T10);

    open spec fn accepts(
        &self,
        input: (),
        store: Store,
        resources: hecs::Entity,
        last: Components,
    ) -> bool {
        forall|
            p0: SystemParamItem<'_, T0>,
            p1: SystemParamItem<'_, T1>,
            p2: SystemParamItem<'_, T2>,
            p3: SystemParamItem<'_, T3>,
            p4: SystemParamItem<'_, T4>,
            p5: SystemParamItem<'_, T5>,
            p6: SystemParamItem<'_, T6>,
            p7: SystemParamItem<'_, T7>,
            p8: SystemParamItem<'_, T8>,
            p9: SystemParamItem<'_, T9>,
            p10: SystemParamItem<'_, T10>,
        |
            {
                &&& T0::lent(p0, store, resources, last)
                &&& T1::lent(p1, store, resources, last)
                &&& T2::lent(p2, store, resources, last)
                &&& T3::lent(p3, store, resources, last)
                &&& T4::lent(p4, store, resources, last)
                &&& T5::lent(p5, store, resources, last)
                &&& T6::lent(p6, store, resources, last)
                &&& T7::lent(p7, store, resources, last)
                &&& T8::lent(p8, store, resources, last)
                &&& T9::lent(p9, store, resources, last)
                &&& T10::lent(p10, store, resources, last)
            } ==> #[trigger] call_requires(*self, (p0, p1, p2, p3, p4, p5, p6, p7, p8, p9, p10))
    }

    open spec fn yields(
        &self,
        input: (),
        store: Store,
        resources: hecs::Entity,
        last: Components,
        out: Out,
    ) -> bool {
        exists|
            p0: SystemParamItem<'_, T0>,
            p1: SystemParamItem<'_, T1>,
            p2: SystemParamItem<'_, T2>,
            p3: SystemParamItem<'_, T3>,
            p4: SystemParamItem<'_, T4>,
            p5: SystemParamItem<'_, T5>,
            p6: SystemParamItem<'_, T6>,
            p7: SystemParamItem<'_, T7>,
            p8: SystemParamItem<'_, T8>,
            p9: SystemParamItem<'_, T9>,
            p10: SystemParamItem<'_, T10>,
        |
            {
                &&& T0::lent(p0, store, resources, last)
                &&& T1::lent(p1, store, resources, last)
                &&& T2::lent(p2, store, resources, last)
                &&& T3::lent(p3, store, resources, last)
                &&& T4::lent(p4, store, resources, last)
                &&& T5::lent(p5, store, resources, last)
                &&& T6::lent(p6, store, resources, last)
                &&& T7::lent(p7, store, resources, last)
                &&& T8::lent(p8, store, resources, last)
                &&& T9::lent(p9, store, resources, last)
                &&& T10::lent(p10, store, resources, last)
                &&& #[trigger] call_ensures(
                    *self,
                    (p0, p1, p2, p3, p4, p5, p6, p7, p8, p9, p10),
                    out,
                )
            }
    }

    fn run<'a>(
        &mut self,
        input: (),
        param_value: SystemParamGuard<'a, Self::Param>,
        world: &mut WorldCell<'a>,
    ) -> (out: Out) {
        let (
            mut g0,
            mut g1,
            mut g2,
            mut g3,
            mut g4,
            mut g5,
            mut g6,
            mut g7,
            mut g8,
            mut g9,
            mut g10,
        ) = param_value;
        let p0 = T0::item(&mut g0);
        let p1 = T1::item(&mut g1);
        let p2 = T2::item(&mut g2);
        let p3 = T3::item(&mut g3);
        let p4 = T4::item(&mut g4);
        let p5 = T5::item(&mut g5);
        let p6 = T6::item(&mut g6);
        let p7 = T7::item(&mut g7);
        let p8 = T8::item(&mut g8);
        let p9 = T9::item(&mut g9);
        let p10 = T10::item(&mut g10);
        let ghost lent = (p0, p1, p2, p3, p4, p5, p6, p7, p8, p9, p10);
        proof {
            assert(T0::lent(lent.0, world.store(), world.resources(), world.last()));
            assert(T1::lent(lent.1, world.store(), world.resources(), world.last()));
            assert(T2::lent(lent.2, world.store(), world.resources(), world.last()));
            assert(T3::lent(lent.3, world.store(), world.resources(), world.last()));
            assert(T4::lent(lent.4, world.store(), world.resources(), world.last()));
            assert(T5::lent(lent.5, world.store(), world.resources(), world.last()));
            assert(T6::lent(lent.6, world.store(), world.resources(), world.last()));
            assert(T7::lent(lent.7, world.store(), world.resources(), world.last()));
            assert(T8::lent(lent.8, world.store(), world.resources(), world.last()));
            assert(T9::lent(lent.9, world.store(), world.resources(), world.last()));
            assert(T10::lent(lent.10, world.store(), world.resources(), world.last()));
        }
        let out = call_inner11(&*self, p0, p1, p2, p3, p4, p5, p6, p7, p8, p9, p10);
        proof {
            assert(call_ensures(
                *self,
                (
                    lent.0,
                    lent.1,
                    lent.2,
                    lent.3,
                    lent.4,
                    lent.5,
                    lent.6,
                    lent.7,
                    lent.8,
                    lent.9,
                    lent.10,
                ),
                out,
            ));
        }
        T10::release(g10, world);
        T9::release(g9, world);
        T8::release(g8, world);
        T7::release(g7, world);
        T6::release(g6, world);
        T5::release(g5, world);
        T4::release(g4, world);
        T3::release(g3, world);
        T2::release(g2, world);
        T1::release(g1, world);
        T0::release(g0, world);
        out
    }
}

impl<
    In,
    Out,
    Func,
    T0: SystemArg,
    T1: SystemArg,
    T2: SystemArg,
    T3: SystemArg,
    T4: SystemArg,
    T5: SystemArg,
    T6: SystemArg,
    T7: SystemArg,
    T8: SystemArg,
    T9: SystemArg,
    T10: SystemArg,
> SystemParamFunction<
    (HasSystemInput, In, (T0, T1, T2, T3, T4, T5, T6, T7, T8, T9, T10)),
> for Func where
    Func: Fn(
        In,
        T0,
        T1,
        T2,
        T3,
        T4,
        T5,
        T6,
        T7,
        T8,
        T9,
        T10,
    ) -> Out + Fn(
        In::Param<'_>,
        SystemParamItem<T0>,
        SystemParamItem<T1>,
        SystemParamItem<T2>,
        SystemParamItem<T3>,
        SystemParamItem<T4>,
        SystemParamItem<T5>,
        SystemParamItem<T6>,
        SystemParamItem<T7>,
        SystemParamItem<T8>,
        SystemParamItem<T9>,
        SystemParamItem<T10>,
    ) -> Out,
    In: SystemInput,
 {
    type In = In;

    type Out = Out;

    type Param = (T0, T1, T2, T3, T4, T5, T6, T7, T8, T9, T10);

    open spec fn accepts(
        &self,
        input: In::Inner<'_>,
        store: Store,
        resources: hecs::Entity,
        last: Components,
    ) -> bool {
        forall|
            p0: SystemParamItem<'_, T0>,
            p1: SystemParamItem<'_, T1>,
            p2: SystemParamItem<'_, T2>,
            p3: SystemParamItem<'_, T3>,
            p4: SystemParamItem<'_, T4>,
            p5: SystemParamItem<'_, T5>,
            p6: SystemParamItem<'_, T6>,
            p7: SystemParamItem<'_, T7>,
            p8: SystemParamItem<'_, T8>,
            p9: SystemParamItem<'_, T9>,
            p10: SystemParamItem<'_, T10>,
        |
            {
                &&& T0::lent(p0, store, resources, last)
                &&& T1::lent(p1, store, resources, last)
                &&& T2::lent(p2, store, resources, last)
                &&& T3::lent(p3, store, resources, last)
                &&& T4::lent(p4, store, resources, last)
                &&& T5::lent(p5, store, resources, last)
                &&& T6::lent(p6, store, resources, last)
                &&& T7::lent(p7, store, resources, last)
                &&& T8::lent(p8, store, resources, last)
                &&& T9::lent(p9, store, resources, last)
                &&& T10::lent(p10, store, resources, last)
            } ==> #[trigger] call_requires(
                *self,
                (In::wrapped(input), p0, p1, p2, p3, p4, p5, p6, p7, p8, p9, p10),
            )
    }

    open spec fn yields(
        &self,
        input: In::Inner<'_>,
        store: Store,
        resources: hecs::Entity,
        last: Components,
        out: Out,
    ) -> bool {
        exists|
            p0: SystemParamItem<'_, T0>,
            p1: SystemParamItem<'_, T1>,
            p2: SystemParamItem<'_, T2>,
            p3: SystemParamItem<'_, T3>,
            p4: SystemParamItem<'_, T4>,
            p5: SystemParamItem<'_, T5>,
            p6: SystemParamItem<'_, T6>,
            p7: SystemParamItem<'_, T7>,
            p8: SystemParamItem<'_, T8>,
            p9: SystemParamItem<'_, T9>,
            p10: SystemParamItem<'_, T10>,
        |
            {
                &&& T0::lent(p0, store, resources, last)
                &&& T1::lent(p1, store, resources, last)
                &&& T2::lent(p2, store, resources, last)
                &&& T3::lent(p3, store, resources, last)
                &&& T4::lent(p4, store, resources, last)
                &&& T5::lent(p5, store, resources, last)
                &&& T6::lent(p6, store, resources, last)
                &&& T7::lent(p7, store, resources, last)
                &&& T8::lent(p8, store, resources, last)
                &&& T9::lent(p9, store, resources, last)
                &&& T10::lent(p10, store, resources, last)
                &&& #[trigger] call_ensures(
                    *self,
                    (In::wrapped(input), p0, p1, p2, p3, p4, p5, p6, p7, p8, p9, p10),
                    out,
                )
            }
    }

    fn run<'a>(
        &mut self,
        input: In::Inner<'_>,
        param_value: SystemParamGuard<'a, Self::Param>,
        world: &mut WorldCell<'a>,
    ) -> (out: Out) {
        let (
            mut g0,
            mut g1,
            mut g2,
            mut g3,
            mut g4,
            mut g5,
            mut g6,
            mut g7,
            mut g8,
            mut g9,
            mut g10,
        ) = param_value;
        let p0 = T0::item(&mut g0);
        let p1 = T1::item(&mut g1);
        let p2 = T2::item(&mut g2);
        let p3 = T3::item(&mut g3);
        let p4 = T4::item(&mut g4);
        let p5 = T5::item(&mut g5);
        let p6 = T6::item(&mut g6);
        let p7 = T7::item(&mut g7);
        let p8 = T8::item(&mut g8);
        let p9 = T9::item(&mut g9);
        let p10 = T10::item(&mut g10);
        let ghost lent = (p0, p1, p2, p3, p4, p5, p6, p7, p8, p9, p10);
        proof {
            assert(T0::lent(lent.0, world.store(), world.resources(), world.last()));
            assert(T1::lent(lent.1, world.store(), world.resources(), world.last()));
            assert(T2::lent(lent.2, world.store(), world.resources(), world.last()));
            assert(T3::lent(lent.3, world.store(), world.resources(), world.last()));
            assert(T4::lent(lent.4, world.store(), world.resources(), world.last()));
            assert(T5::lent(lent.5, world.store(), world.resources(), world.last()));
            assert(T6::lent(lent.6, world.store(), world.resources(), world.last()));
            assert(T7::lent(lent.7, world.store(), world.resources(), world.last()));
            assert(T8::lent(lent.8, world.store(), world.resources(), world.last()));
            assert(T9::lent(lent.9, world.store(), world.resources(), world.last()));
            assert(T10::lent(lent.10, world.store(), world.resources(), world.last()));
        }
        let out = call_inner12(
            &*self,
            In::wrap(input),
            p0,
            p1,
            p2,
            p3,
            p4,
            p5,
            p6,
            p7,
            p8,
            p9,
            p10,
        );
        proof {
            assert(call_ensures(
                *self,
                (
                    In::wrapped(input),
                    lent.0,
                    lent.1,
                    lent.2,
                    lent.3,
                    lent.4,
                    lent.5,
                    lent.6,
                    lent.7,
                    lent.8,
                    lent.9,
                    lent.10,
                ),
                out,
            ));
        }
        T10::release(g10, world);
        T9::release(g9, world);
        T8::release(g8, world);
        T7::release(g7, world);
        T6::release(g6, world);
        T5::release(g5, world);
        T4::release(g4, world);
        T3::release(g3, world);
        T2::release(g2, world);
        T1::release(g1, world);
        T0::release(g0, world);
        out
    }
}

impl<
    Out,
    Func,
    T0: SystemArg,
    T1: SystemArg,
    T2: SystemArg,
    T3: SystemArg,
    T4: SystemArg,
    T5: SystemArg,
    T6: SystemArg,
    T7: SystemArg,
    T8: SystemArg,
    T9: SystemArg,
    T10: SystemArg,
    T11: SystemArg,
> SystemParamFunction<
    (T0, T1, T2, T3, T4, T5, T6, T7, T8, T9, T10, T11),
> for Func where
    Func: Fn(
        T0,
        T1,
        T2,
        T3,
        T4,
        T5,
        T6,
        T7,
        T8,
        T9,
        T10,
        T11,
    ) -> Out + Fn(
        SystemParamItem<T0>,
        SystemParamItem<T1>,
        SystemParamItem<T2>,
        SystemParamItem<T3>,
        SystemParamItem<T4>,
        SystemParamItem<T5>,
        SystemParamItem<T6>,
        SystemParamItem<T7>,
        SystemParamItem<T8>,
        SystemParamItem<T9>,
        SystemParamItem<T10>,
        SystemParamItem<T11>,
    ) -> Out,
 {
    type In = ();

    type Out = Out;

    type Param = (T0, T1, T2, T3, T4, T5, T6, T7, T8, T9, T10, T11);

    open spec fn accepts(
        &self,
        input: (),
        store: Store,
        resources: hecs::Entity,
        last: Components,
    ) -> bool {
        forall|
            p0: SystemParamItem<'_, T0>,
            p1: SystemParamItem<'_, T1>,
            p2: SystemParamItem<'_, T2>,
            p3: SystemParamItem<'_, T3>,
            p4: SystemParamItem<'_, T4>,
            p5: SystemParamItem<'_, T5>,
            p6: SystemParamItem<'_, T6>,
            p7: SystemParamItem<'_, T7>,
            p8: SystemParamItem<'_, T8>,
            p9: SystemParamItem<'_, T9>,
            p10: SystemParamItem<'_, T10>,
            p11: SystemParamItem<'_, T11>,
        |
            {
                &&& T0::lent(p0, store, resources, last)
                &&& T1::lent(p1, store, resources, last)
                &&& T2::lent(p2, store, resources, last)
                &&& T3::lent(p3, store, resources, last)
                &&& T4::lent(p4, store, resources, last)
                &&& T5::lent(p5, store, resources, last)
                &&& T6::lent(p6, store, resources, last)
                &&& T7::lent(p7, store, resources, last)
                &&& T8::lent(p8, store, resources, last)
                &&& T9::lent(p9, store, resources, last)
                &&& T10::lent(p10, store, resources, last)
                &&& T11::lent(p11, store, resources, last)
            } ==> #[trigger] call_requires(
                *self,
                (p0, p1, p2, p3, p4, p5, p6, p7, p8, p9, p10, p11),
            )
    }

    open spec fn yields(
        &self,
        input: (),
        store: Store,
        resources: hecs::Entity,
        last: Components,
        out: Out,
    ) -> bool {
        exists|
            p0: SystemParamItem<'_, T0>,
            p1: SystemParamItem<'_, T1>,
            p2: SystemParamItem<'_, T2>,
            p3: SystemParamItem<'_, T3>,
            p4: SystemParamItem<'_, T4>,
            p5: SystemParamItem<'_, T5>,
            p6: SystemParamItem<'_, T6>,
            p7: SystemParamItem<'_, T7>,
            p8: SystemParamItem<'_, T8>,
            p9: SystemParamItem<'_, T9>,
            p10: SystemParamItem<'_, T10>,
            p11: SystemParamItem<'_, T11>,
        |
            {
                &&& T0::lent(p0, store, resources, last)
                &&& T1::lent(p1, store, resources, last)
                &&& T2::lent(p2, store, resources, last)
                &&& T3::lent(p3, store, resources, last)
                &&& T4::lent(p4, store, resources, last)
                &&& T5::lent(p5, store, resources, last)
                &&& T6::lent(p6, store, resources, last)
                &&& T7::lent(p7, store, resources, last)
                &&& T8::lent(p8, store, resources, last)
                &&& T9::lent(p9, store, resources, last)
                &&& T10::lent(p10, store, resources, last)
                &&& T11::lent(p11, store, resources, last)
                &&& #[trigger] call_ensures(
                    *self,
                    (p0, p1, p2, p3, p4, p5, p6, p7, p8, p9, p10, p11),
                    out,
                )
            }
    }

    fn run<'a>(
        &mut self,
        input: (),
        param_value: SystemParamGuard<'a, Self::Param>,
        world: &mut WorldCell<'a>,
    ) -> (out: Out) {
        let (
            mut g0,
            mut g1,
            mut g2,
            mut g3,
            mut g4,
            mut g5,
            mut g6,
            mut g7,
            mut g8,
            mut g9,
            mut g10,
            mut g11,
        ) = param_value;
        let p0 = T0::item(&mut g0);
        let p1 = T1::item(&mut g1);
        let p2 = T2::item(&mut g2);
        let p3 = T3::item(&mut g3);
        let p4 = T4::item(&mut g4);
        let p5 = T5::item(&mut g5);
        let p6 = T6::item(&mut g6);
        let p7 = T7::item(&mut g7);
        let p8 = T8::item(&mut g8);
        let p9 = T9::item(&mut g9);
        let p10 = T10::item(&mut g10);
        let p11 = T11::item(&mut g11);
        let ghost lent = (p0, p1, p2, p3, p4, p5, p6, p7, p8, p9, p10, p11);
        proof {
            assert(T0::lent(lent.0, world.store(), world.resources(), world.last()));
            assert(T1::lent(lent.1, world.store(), world.resources(), world.last()));
            assert(T2::lent(lent.2, world.store(), world.resources(), world.last()));
            assert(T3::lent(lent.3, world.store(), world.resources(), world.last()));
            assert(T4::lent(lent.4, world.store(), world.resources(), world.last()));
            assert(T5::lent(lent.5, world.store(), world.resources(), world.last()));
            assert(T6::lent(lent.6, world.store(), world.resources(), world.last()));
            assert(T7::lent(lent.7, world.store(), world.resources(), world.last()));
            assert(T8::lent(lent.8, world.store(), world.resources(), world.last()));
            assert(T9::lent(lent.9, world.store(), world.resources(), world.last()));
            assert(T10::lent(lent.10, world.store(), world.resources(), world.last()));
            assert(T11::lent(lent.11, world.store(), world.resources(), world.last()));
        }
        let out = call_inner12(&*self, p0, p1, p2, p3, p4, p5, p6, p7, p8, p9, p10, p11);
        proof {
            assert(call_ensures(
                *self,
                (
                    lent.0,
                    lent.1,
                    lent.2,
                    lent.3,
                    lent.4,
                    lent.5,
                    lent.6,
                    lent.7,
                    lent.8,
                    lent.9,
                    lent.10,
                    lent.11,
                ),
                out,
            ));
        }
        T11::release(g11, world);
        T10::release(g10, world);
        T9::release(g9, world);
        T8::release(g8, world);
        T7::release(g7, world);
        T6::release(g6, world);
        T5::release(g5, world);
        T4::release(g4, world);
        T3::release(g3, world);
        T2::release(g2, world);
        T1::release(g1, world);
        T0::release(g0, world);
        out
    }
}

impl<
    In,
    Out,
    Func,
    T0: SystemArg,
    T1: SystemArg,
    T2: SystemArg,
    T3: SystemArg,
    T4: SystemArg,
    T5: SystemArg,
    T6: SystemArg,
    T7: SystemArg,
    T8: SystemArg,
    T9: SystemArg,
    T10: SystemArg,
    T11: SystemArg,
> SystemParamFunction<
    (HasSystemInput, In, (T0, T1, T2, T3, T4, T5, T6, T7, T8, T9, T10, T11)),
> for Func where
    Func: Fn(
        In,
        T0,
        T1,
        T2,
        T3,
        T4,
        T5,
        T6,
        T7,
        T8,
        T9,
        T10,
        T11,
    ) -> Out + Fn(
        In::Param<'_>,
        SystemParamItem<T0>,
        SystemParamItem<T1>,
        SystemParamItem<T2>,
        SystemParamItem<T3>,
        SystemParamItem<T4>,
        SystemParamItem<T5>,
        SystemParamItem<T6>,
        SystemParamItem<T7>,
        SystemParamItem<T8>,
        SystemParamItem<T9>,
        SystemParamItem<T10>,
        SystemParamItem<T11>,
    ) -> Out,
    In: SystemInput,
 {
    type In = In;

    type Out = Out;

    type Param = (T0, T1, T2, T3, T4, T5, T6, T7, T8, T9, T10, T11);

    open spec fn accepts(
        &self,
        input: In::Inner<'_>,
        store: Store,
        resources: hecs::Entity,
        last: Components,
    ) -> bool {
        forall|
            p0: SystemParamItem<'_, T0>,
            p1: SystemParamItem<'_, T1>,
            p2: SystemParamItem<'_, T2>,
            p3: SystemParamItem<'_, T3>,
            p4: SystemParamItem<'_, T4>,
            p5: SystemParamItem<'_, T5>,
            p6: SystemParamItem<'_, T6>,
            p7: SystemParamItem<'_, T7>,
            p8: SystemParamItem<'_, T8>,
            p9: SystemParamItem<'_, T9>,
            p10: SystemParamItem<'_, T10>,
            p11: SystemParamItem<'_, T11>,
        |
            {
                &&& T0::lent(p0, store, resources, last)
                &&& T1::lent(p1, store, resources, last)
                &&& T2::lent(p2, store, resources, last)
                &&& T3::lent(p3, store, resources, last)
                &&& T4::lent(p4, store, resources, last)
                &&& T5::lent(p5, store, resources, last)
                &&& T6::lent(p6, store, resources, last)
                &&& T7::lent(p7, store, resources, last)
                &&& T8::lent(p8, store, resources, last)
                &&& T9::lent(p9, store, resources, last)
                &&& T10::lent(p10, store, resources, last)
                &&& T11::lent(p11, store, resources, last)
            } ==> #[trigger] call_requires(
                *self,
                (In::wrapped(input), p0, p1, p2, p3, p4, p5, p6, p7, p8, p9, p10, p11),
            )
    }

    open spec fn yields(
        &self,
        input: In::Inner<'_>,
        store: Store,
        resources: hecs::Entity,
        last: Components,
        out: Out,
    ) -> bool {
        exists|
            p0: SystemParamItem<'_, T0>,
            p1: SystemParamItem<'_, T1>,
            p2: SystemParamItem<'_, T2>,
            p3: SystemParamItem<'_, T3>,
            p4: SystemParamItem<'_, T4>,
            p5: SystemParamItem<'_, T5>,
            p6: SystemParamItem<'_, T6>,
            p7: SystemParamItem<'_, T7>,
            p8: SystemParamItem<'_, T8>,
            p9: SystemParamItem<'_, T9>,
            p10: SystemParamItem<'_, T10>,
            p11: SystemParamItem<'_, T11>,
        |
            {
                &&& T0::lent(p0, store, resources, last)
                &&& T1::lent(p1, store, resources, last)
                &&& T2::lent(p2, store, resources, last)
                &&& T3::lent(p3, store, resources, last)
                &&& T4::lent(p4, store, resources, last)
                &&& T5::lent(p5, store, resources, last)
                &&& T6::lent(p6, store, resources, last)
                &&& T7::lent(p7, store, resources, last)
                &&& T8::lent(p8, store, resources, last)
                &&& T9::lent(p9, store, resources, last)
                &&& T10::lent(p10, store, resources, last)
                &&& T11::lent(p11, store, resources, last)
                &&& #[trigger] call_ensures(
                    *self,
                    (In::wrapped(input), p0, p1, p2, p3, p4, p5, p6, p7, p8, p9, p10, p11),
                    out,
                )
            }
    }

    fn run<'a>(
        &mut self,
        input: In::Inner<'_>,
        param_value: SystemParamGuard<'a, Self::Param>,
        world: &mut WorldCell<'a>,
    ) -> (out: Out) {
        let (
            mut g0,
            mut g1,
            mut g2,
            mut g3,
            mut g4,
            mut g5,
            mut g6,
            mut g7,
            mut g8,
            mut g9,
            mut g10,
            mut g11,
        ) = param_value;
        let p0 = T0::item(&mut g0);
        let p1 = T1::item(&mut g1);
        let p2 = T2::item(&mut g2);
        let p3 = T3::item(&mut g3);
        let p4 = T4::item(&mut g4);
        let p5 = T5::item(&mut g5);
        let p6 = T6::item(&mut g6);
        let p7 = T7::item(&mut g7);
        let p8 = T8::item(&mut g8);
        let p9 = T9::item(&mut g9);
        let p10 = T10::item(&mut g10);
        let p11 = T11::item(&mut g11);
        let ghost lent = (p0, p1, p2, p3, p4, p5, p6, p7, p8, p9, p10, p11);
        proof {
            assert(T0::lent(lent.0, world.store(), world.resources(), world.last()));
            assert(T1::lent(lent.1, world.store(), world.resources(), world.last()));
            assert(T2::lent(lent.2, world.store(), world.resources(), world.last()));
            assert(T3::lent(lent.3, world.store(), world.resources(), world.last()));
            assert(T4::lent(lent.4, world.store(), world.resources(), world.last()));
            assert(T5::lent(lent.5, world.store(), world.resources(), world.last()));
            assert(T6::lent(lent.6, world.store(), world.resources(), world.last()));
            assert(T7::lent(lent.7, world.store(), world.resources(), world.last()));
            assert(T8::lent(lent.8, world.store(), world.resources(), world.last()));
            assert(T9::lent(lent.9, world.store(), world.resources(), world.last()));
            assert(T10::lent(lent.10, world.store(), world.resources(), world.last()));
            assert(T11::lent(lent.11, world.store(), world.resources(), world.last()));
        }
        let out = call_inner13(
            &*self,
            In::wrap(input),
            p0,
            p1,
            p2,
            p3,
            p4,
            p5,
            p6,
            p7,
            p8,
            p9,
            p10,
            p11,
        );
        proof {
            assert(call_ensures(
                *self,
                (
                    In::wrapped(input),
                    lent.0,
                    lent.1,
                    lent.2,
                    lent.3,
                    lent.4,
                    lent.5,
                    lent.6,
                    lent.7,
                    lent.8,
                    lent.9,
                    lent.10,
                    lent.11,
                ),
                out,
            ));
        }
        T11::release(g11, world);
        T10::release(g10, world);
        T9::release(g9, world);
        T8::release(g8, world);
        T7::release(g7, world);
        T6::release(g6, world);
        T5::release(g5, world);
        T4::release(g4, world);
        T3::release(g3, world);
        T2::release(g2, world);
        T1::release(g1, world);
        T0::release(g0, world);
        out
    }
}

impl<
    Out,
    Func,
    T0: SystemArg,
    T1: SystemArg,
    T2: SystemArg,
    T3: SystemArg,
    T4: SystemArg,
    T5: SystemArg,
    T6: SystemArg,
    T7: SystemArg,
    T8: SystemArg,
    T9: SystemArg,
    T10: SystemArg,
    T11: SystemArg,
    T12: SystemArg,
> SystemParamFunction<
    (T0, T1, T2, T3, T4, T5, T6, T7, T8, T9, T10, T11, T12),
> for Func where
    Func: Fn(
        T0,
        T1,
        T2,
        T3,
        T4,
        T5,
        T6,
        T7,
        T8,
        T9,
        T10,
        T11,
        T12,
    ) -> Out + Fn(
        SystemParamItem<T0>,
        SystemParamItem<T1>,
        SystemParamItem<T2>,
        SystemParamItem<T3>,
        SystemParamItem<T4>,
        SystemParamItem<T5>,
        SystemParamItem<T6>,
        SystemParamItem<T7>,
        SystemParamItem<T8>,
        SystemParamItem<T9>,
        SystemParamItem<T10>,
        SystemParamItem<T11>,
        SystemParamItem<T12>,
    ) -> Out,
 {
    type In = ();

    type Out = Out;

    type Param = (T0, T1, T2, T3, T4, T5, T6, T7, T8, T9, T10, T11, T12);

    open spec fn accepts(
        &self,
        input: (),
        store: Store,
        resources: hecs::Entity,
        last: Components,
    ) -> bool {
        forall|
            p0: SystemParamItem<'_, T0>,
            p1: SystemParamItem<'_, T1>,
            p2: SystemParamItem<'_, T2>,
            p3: SystemParamItem<'_, T3>,
            p4: SystemParamItem<'_, T4>,
            p5: SystemParamItem<'_, T5>,
            p6: SystemParamItem<'_, T6>,
            p7: SystemParamItem<'_, T7>,
            p8: SystemParamItem<'_, T8>,
            p9: SystemParamItem<'_, T9>,
            p10: SystemParamItem<'_, T10>,
            p11: SystemParamItem<'_, T11>,
            p12: SystemParamItem<'_, T12>,
        |
            {
                &&& T0::lent(p0, store, resources, last)
                &&& T1::lent(p1, store, resources, last)
                &&& T2::lent(p2, store, resources, last)
                &&& T3::lent(p3, store, resources, last)
                &&& T4::lent(p4, store, resources, last)
                &&& T5::lent(p5, store, resources, last)
                &&& T6::lent(p6, store, resources, last)
                &&& T7::lent(p7, store, resources, last)
                &&& T8::lent(p8, store, resources, last)
                &&& T9::lent(p9, store, resources, last)
                &&& T10::lent(p10, store, resources, last)
                &&& T11::lent(p11, store, resources, last)
                &&& T12::lent(p12, store, resources, last)
            } ==> #[trigger] call_requires(
                *self,
                (p0, p1, p2, p3, p4, p5, p6, p7, p8, p9, p10, p11, p12),
            )
    }

    open spec fn yields(
        &self,
        input: (),
        store: Store,
        resources: hecs::Entity,
        last: Components,
        out: Out,
    ) -> bool {
        exists|
            p0: SystemParamItem<'_, T0>,
            p1: SystemParamItem<'_, T1>,
            p2: SystemParamItem<'_, T2>,
            p3: SystemParamItem<'_, T3>,
            p4: SystemParamItem<'_, T4>,
            p5: SystemParamItem<'_, T5>,
            p6: SystemParamItem<'_, T6>,
            p7: SystemParamItem<'_, T7>,
            p8: SystemParamItem<'_, T8>,
            p9: SystemParamItem<'_, T9>,
            p10: SystemParamItem<'_, T10>,
            p11: SystemParamItem<'_, T11>,
            p12: SystemParamItem<'_, T12>,
        |
            {
                &&& T0::lent(p0, store, resources, last)
                &&& T1::lent(p1, store, resources, last)
                &&& T2::lent(p2, store, resources, last)
                &&& T3::lent(p3, store, resources, last)
                &&& T4::lent(p4, store, resources, last)
                &&& T5::lent(p5, store, resources, last)
                &&& T6::lent(p6, store, resources, last)
                &&& T7::lent(p7, store, resources, last)
                &&& T8::lent(p8, store, resources, last)
                &&& T9::lent(p9, store, resources, last)
                &&& T10::lent(p10, store, resources, last)
                &&& T11::lent(p11, store, resources, last)
                &&& T12::lent(p12, store, resources, last)
                &&& #[trigger] call_ensures(
                    *self,
                    (p0, p1, p2, p3, p4, p5, p6, p7, p8, p9, p10, p11, p12),
                    out,
                )
            }
    }

    fn run<'a>(
        &mut self,
        input: (),
        param_value: SystemParamGuard<'a, Self::Param>,
        world: &mut WorldCell<'a>,
    ) -> (out: Out) {
        let (
            mut g0,
            mut g1,
            mut g2,
            mut g3,
            mut g4,
            mut g5,
            mut g6,
            mut g7,
            mut g8,
            mut g9,
            mut g10,
            mut g11,
            mut g12,
        ) = param_value;
        let p0 = T0::item(&mut g0);
        let p1 = T1::item(&mut g1);
        let p2 = T2::item(&mut g2);
        let p3 = T3::item(&mut g3);
        let p4 = T4::item(&mut g4);
        let p5 = T5::item(&mut g5);
        let p6 = T6::item(&mut g6);
        let p7 = T7::item(&mut g7);
        let p8 = T8::item(&mut g8);
        let p9 = T9::item(&mut g9);
        let p10 = T10::item(&mut g10);
        let p11 = T11::item(&mut g11);
        let p12 = T12::item(&mut g12);
        let ghost lent = (p0, p1, p2, p3, p4, p5, p6, p7, p8, p9, p10, p11, p12);
        proof {
            assert(T0::lent(lent.0, world.store(), world.resources(), world.last()));
            assert(T1::lent(lent.1, world.store(), world.resources(), world.last()));
            assert(T2::lent(lent.2, world.store(), world.resources(), world.last()));
            assert(T3::lent(lent.3, world.store(), world.resources(), world.last()));
            assert(T4::lent(lent.4, world.store(), world.resources(), world.last()));
            assert(T5::lent(lent.5, world.store(), world.resources(), world.last()));
            assert(T6::lent(lent.6, world.store(), world.resources(), world.last()));
            assert(T7::lent(lent.7, world.store(), world.resources(), world.last()));
            assert(T8::lent(lent.8, world.store(), world.resources(), world.last()));
            assert(T9::lent(lent.9, world.store(), world.resources(), world.last()));
            assert(T10::lent(lent.10, world.store(), world.resources(), world.last()));
            assert(T11::lent(lent.11, world.store(), world.resources(), world.last()));
            assert(T12::lent(lent.12, world.store(), world.resources(), world.last()));
        }
        let out = call_inner13(&*self, p0, p1, p2, p3, p4, p5, p6, p7, p8, p9, p10, p11, p12);
        proof {
            assert(call_ensures(
                *self,
                (
                    lent.0,
                    lent.1,
                    lent.2,
                    lent.3,
                    lent.4,
                    lent.5,
                    lent.6,
                    lent.7,
                    lent.8,
                    lent.9,
                    lent.10,
                    lent.11,
                    lent.12,
                ),
                out,
            ));
        }
        T12::release(g12, world);
        T11::release(g11, world);
        T10::release(g10, world);
        T9::release(g9, world);
        T8::release(g8, world);
        T7::release(g7, world);
        T6::release(g6, world);
        T5::release(g5, world);
        T4::release(g4, world);
        T3::release(g3, world);
        T2::release(g2, world);
        T1::release(g1, world);
        T0::release(g0, world);
        out
    }
}

impl<
    In,
    Out,
    Func,
    T0: SystemArg,
    T1: SystemArg,
    T2: SystemArg,
    T3: SystemArg,
    T4: SystemArg,
    T5: SystemArg,
    T6: SystemArg,
    T7: SystemArg,
    T8: SystemArg,
    T9: SystemArg,
    T10: SystemArg,
    T11: SystemArg,
    T12: SystemArg,
> SystemParamFunction<
    (HasSystemInput, In, (T0, T1, T2, T3, T4, T5, T6, T7, T8, T9, T10, T11, T12)),
> for Func where
    Func: Fn(
        In,
        T0,
        T1,
        T2,
        T3,
        T4,
        T5,
        T6,
        T7,
        T8,
        T9,
        T10,
        T11,
        T12,
    ) -> Out + Fn(
        In::Param<'_>,
        SystemParamItem<T0>,
        SystemParamItem<T1>,
        SystemParamItem<T2>,
        SystemParamItem<T3>,
        SystemParamItem<T4>,
        SystemParamItem<T5>,
        SystemParamItem<T6>,
        SystemParamItem<T7>,
        SystemParamItem<T8>,
        SystemParamItem<T9>,
        SystemParamItem<T10>,
        SystemParamItem<T11>,
        SystemParamItem<T12>,
    ) -> Out,
    In: SystemInput,
 {
    type In = In;

    type Out = Out;

    type Param = (T0, T1, T2, T3, T4, T5, T6, T7, T8, T9, T10, T11, T12);

    open spec fn accepts(
        &self,
        input: In::Inner<'_>,
        store: Store,
        resources: hecs::Entity,
        last: Components,
    ) -> bool {
        forall|
            p0: SystemParamItem<'_, T0>,
            p1: SystemParamItem<'_, T1>,
            p2: SystemParamItem<'_, T2>,
            p3: SystemParamItem<'_, T3>,
            p4: SystemParamItem<'_, T4>,
            p5: SystemParamItem<'_, T5>,
            p6: SystemParamItem<'_, T6>,
            p7: SystemParamItem<'_, T7>,
            p8: SystemParamItem<'_, T8>,
            p9: SystemParamItem<'_, T9>,
            p10: SystemParamItem<'_, T10>,
            p11: SystemParamItem<'_, T11>,
            p12: SystemParamItem<'_, T12>,
        |
            {
                &&& T0::lent(p0, store, resources, last)
                &&& T1::lent(p1, store, resources, last)
                &&& T2::lent(p2, store, resources, last)
                &&& T3::lent(p3, store, resources, last)
                &&& T4::lent(p4, store, resources, last)
                &&& T5::lent(p5, store, resources, last)
                &&& T6::lent(p6, store, resources, last)
                &&& T7::lent(p7, store, resources, last)
                &&& T8::lent(p8, store, resources, last)
                &&& T9::lent(p9, store, resources, last)
                &&& T10::lent(p10, store, resources, last)
                &&& T11::lent(p11, store, resources, last)
                &&& T12::lent(p12, store, resources, last)
            } ==> #[trigger] call_requires(
                *self,
                (In::wrapped(input), p0, p1, p2, p3, p4, p5, p6, p7, p8, p9, p10, p11, p12),
            )
    }

    open spec fn yields(
        &self,
        input: In::Inner<'_>,
        store: Store,
        resources: hecs::Entity,
        last: Components,
        out: Out,
    ) -> bool {
        exists|
            p0: SystemParamItem<'_, T0>,
            p1: SystemParamItem<'_, T1>,
            p2: SystemParamItem<'_, T2>,
            p3: SystemParamItem<'_, T3>,
            p4: SystemParamItem<'_, T4>,
            p5: SystemParamItem<'_, T5>,
            p6: SystemParamItem<'_, T6>,
            p7: SystemParamItem<'_, T7>,
            p8: SystemParamItem<'_, T8>,
            p9: SystemParamItem<'_, T9>,
            p10: SystemParamItem<'_, T10>,
            p11: SystemParamItem<'_, T11>,
            p12: SystemParamItem<'_, T12>,
        |
            {
                &&& T0::lent(p0, store, resources, last)
                &&& T1::lent(p1, store, resources, last)
                &&& T2::lent(p2, store, resources, last)
                &&& T3::lent(p3, store, resources, last)
                &&& T4::lent(p4, store, resources, last)
                &&& T5::lent(p5, store, resources, last)
                &&& T6::lent(p6, store, resources, last)
                &&& T7::lent(p7, store, resources, last)
                &&& T8::lent(p8, store, resources, last)
                &&& T9::lent(p9, store, resources, last)
                &&& T10::lent(p10, store, resources, last)
                &&& T11::lent(p11, store, resources, last)
                &&& T12::lent(p12, store, resources, last)
                &&& #[trigger] call_ensures(
                    *self,
                    (In::wrapped(input), p0, p1, p2, p3, p4, p5, p6, p7, p8, p9, p10, p11, p12),
                    out,
                )
            }
    }

    fn run<'a>(
        &mut self,
        input: In::Inner<'_>,
        param_value: SystemParamGuard<'a, Self::Param>,
        world: &mut WorldCell<'a>,
    ) -> (out: Out) {
        let (
            mut g0,
            mut g1,
            mut g2,
            mut g3,
            mut g4,
            mut g5,
            mut g6,
            mut g7,
            mut g8,
            mut g9,
            mut g10,
            mut g11,
            mut g12,
        ) = param_value;
        let p0 = T0::item(&mut g0);
        let p1 = T1::item(&mut g1);
        let p2 = T2::item(&mut g2);
        let p3 = T3::item(&mut g3);
        let p4 = T4::item(&mut g4);
        let p5 = T5::item(&mut g5);
        let p6 = T6::item(&mut g6);
        let p7 = T7::item(&mut g7);
        let p8 = T8::item(&mut g8);
        let p9 = T9::item(&mut g9);
        let p10 = T10::item(&mut g10);
        let p11 = T11::item(&mut g11);
        let p12 = T12::item(&mut g12);
        let ghost lent = (p0, p1, p2, p3, p4, p5, p6, p7, p8, p9, p10, p11, p12);
        proof {
            assert(T0::lent(lent.0, world.store(), world.resources(), world.last()));
            assert(T1::lent(lent.1, world.store(), world.resources(), world.last()));
            assert(T2::lent(lent.2, world.store(), world.resources(), world.last()));
            assert(T3::lent(lent.3, world.store(), world.resources(), world.last()));
            assert(T4::lent(lent.4, world.store(), world.resources(), world.last()));
            assert(T5::lent(lent.5, world.store(), world.resources(), world.last()));
            assert(T6::lent(lent.6, world.store(), world.resources(), world.last()));
            assert(T7::lent(lent.7, world.store(), world.resources(), world.last()));
            assert(T8::lent(lent.8, world.store(), world.resources(), world.last()));
            assert(T9::lent(lent.9, world.store(), world.resources(), world.last()));
            assert(T10::lent(lent.10, world.store(), world.resources(), world.last()));
            assert(T11::lent(lent.11, world.store(), world.resources(), world.last()));
            assert(T12::lent(lent.12, world.store(), world.resources(), world.last()));
        }
        let out = call_inner14(
            &*self,
            In::wrap(input),
            p0,
            p1,
            p2,
            p3,
            p4,
            p5,
            p6,
            p7,
            p8,
            p9,
            p10,
            p11,
            p12,
        );
        proof {
            assert(call_ensures(
                *self,
                (
                    In::wrapped(input),
                    lent.0,
                    lent.1,
                    lent.2,
                    lent.3,
                    lent.4,
                    lent.5,
                    lent.6,
                    lent.7,
                    lent.8,
                    lent.9,
                    lent.10,
                    lent.11,
                    lent.12,
                ),
                out,
            ));
        }
        T12::release(g12, world);
        T11::release(g11, world);
        T10::release(g10, world);
        T9::release(g9, world);
        T8::release(g8, world);
        T7::release(g7, world);
        T6::release(g6, world);
        T5::release(g5, world);
        T4::release(g4, world);
        T3::release(g3, world);
        T2::release(g2, world);
        T1::release(g1, world);
        T0::release(g0, world);
        out
    }
}

impl<
    Out,
    Func,
    T0: SystemArg,
    T1: SystemArg,
    T2: SystemArg,
    T3: SystemArg,
    T4: SystemArg,
    T5: SystemArg,
    T6: SystemArg,
    T7: SystemArg,
    T8: SystemArg,
    T9: SystemArg,
    T10: SystemArg,
    T11: SystemArg,
    T12: SystemArg,
    T13: SystemArg,
> SystemParamFunction<
    (T0, T1, T2, T3, T4, T5, T6, T7, T8, T9, T10, T11, T12, T13),
> for Func where
    Func: Fn(
        T0,
        T1,
        T2,
        T3,
        T4,
        T5,
        T6,
        T7,
        T8,
        T9,
        T10,
        T11,
        T12,
        T13,
    ) -> Out + Fn(
        SystemParamItem<T0>,
        SystemParamItem<T1>,
        SystemParamItem<T2>,
        SystemParamItem<T3>,
        SystemParamItem<T4>,
        SystemParamItem<T5>,
        SystemParamItem<T6>,
        SystemParamItem<T7>,
        SystemParamItem<T8>,
        SystemParamItem<T9>,
        SystemParamItem<T10>,
        SystemParamItem<T11>,
        SystemParamItem<T12>,
        SystemParamItem<T13>,
    ) -> Out,
 {
    type In = ();

    type Out = Out;

    type Param = (T0, T1, T2, T3, T4, T5, T6, T7, T8, T9, T10, T11, T12, T13);

    open spec fn accepts(
        &self,
        input: (),
        store: Store,
        resources: hecs::Entity,
        last: Components,
    ) -> bool {
        forall|
            p0: SystemParamItem<'_, T0>,
            p1: SystemParamItem<'_, T1>,
            p2: SystemParamItem<'_, T2>,
            p3: SystemParamItem<'_, T3>,
            p4: SystemParamItem<'_, T4>,
            p5: SystemParamItem<'_, T5>,
            p6: SystemParamItem<'_, T6>,
            p7: SystemParamItem<'_, T7>,
            p8: SystemParamItem<'_, T8>,
            p9: SystemParamItem<'_, T9>,
            p10: SystemParamItem<'_, T10>,
            p11: SystemParamItem<'_, T11>,
            p12: SystemParamItem<'_, T12>,
            p13: SystemParamItem<'_, T13>,
        |
            {
                &&& T0::lent(p0, store, resources, last)
                &&& T1::lent(p1, store, resources, last)
                &&& T2::lent(p2, store, resources, last)
                &&& T3::lent(p3, store, resources, last)
                &&& T4::lent(p4, store, resources, last)
                &&& T5::lent(p5, store, resources, last)
                &&& T6::lent(p6, store, resources, last)
                &&& T7::lent(p7, store, resources, last)
                &&& T8::lent(p8, store, resources, last)
                &&& T9::lent(p9, store, resources, last)
                &&& T10::lent(p10, store, resources, last)
                &&& T11::lent(p11, store, resources, last)
                &&& T12::lent(p12, store, resources, last)
                &&& T13::lent(p13, store, resources, last)
            } ==> #[trigger] call_requires(
                *self,
                (p0, p1, p2, p3, p4, p5, p6, p7, p8, p9, p10, p11, p12, p13),
            )
    }

    open spec fn yields(
        &self,
        input: (),
        store: Store,
        resources: hecs::Entity,
        last: Components,
        out: Out,
    ) -> bool {
        exists|
            p0: SystemParamItem<'_, T0>,
            p1: SystemParamItem<'_, T1>,
            p2: SystemParamItem<'_, T2>,
            p3: SystemParamItem<'_, T3>,
            p4: SystemParamItem<'_, T4>,
            p5: SystemParamItem<'_, T5>,
            p6: SystemParamItem<'_, T6>,
            p7: SystemParamItem<'_, T7>,
            p8: SystemParamItem<'_, T8>,
            p9: SystemParamItem<'_, T9>,
            p10: SystemParamItem<'_, T10>,
            p11: SystemParamItem<'_, T11>,
            p12: SystemParamItem<'_, T12>,
            p13: SystemParamItem<'_, T13>,
        |
            {
                &&& T0::lent(p0, store, resources, last)
                &&& T1::lent(p1, store, resources, last)
                &&& T2::lent(p2, store, resources, last)
                &&& T3::lent(p3, store, resources, last)
                &&& T4::lent(p4, store, resources, last)
                &&& T5::lent(p5, store, resources, last)
                &&& T6::lent(p6, store, resources, last)
                &&& T7::lent(p7, store, resources, last)
                &&& T8::lent(p8, store, resources, last)
                &&& T9::lent(p9, store, resources, last)
                &&& T10::lent(p10, store, resources, last)
                &&& T11::lent(p11, store, resources, last)
                &&& T12::lent(p12, store, resources, last)
                &&& T13::lent(p13, store, resources, last)
                &&& #[trigger] call_ensures(
                    *self,
                    (p0, p1, p2, p3, p4, p5, p6, p7, p8, p9, p10, p11, p12, p13),
                    out,
                )
            }
    }

    fn run<'a>(
        &mut self,
        input: (),
        param_value: SystemParamGuard<'a, Self::Param>,
        world: &mut WorldCell<'a>,
    ) -> (out: Out) {
        let (
            mut g0,
            mut g1,
            mut g2,
            mut g3,
            mut g4,
            mut g5,
            mut g6,
            mut g7,
            mut g8,
            mut g9,
            mut g10,
            mut g11,
            mut g12,
            mut g13,
        ) = param_value;
        let p0 = T0::item(&mut g0);
        let p1 = T1::item(&mut g1);
        let p2 = T2::item(&mut g2);
        let p3 = T3::item(&mut g3);
        let p4 = T4::item(&mut g4);
        let p5 = T5::item(&mut g5);
        let p6 = T6::item(&mut g6);
        let p7 = T7::item(&mut g7);
        let p8 = T8::item(&mut g8);
        let p9 = T9::item(&mut g9);
        let p10 = T10::item(&mut g10);
        let p11 = T11::item(&mut g11);
        let p12 = T12::item(&mut g12);
        let p13 = T13::item(&mut g13);
        let ghost lent = (p0, p1, p2, p3, p4, p5, p6, p7, p8, p9, p10, p11, p12, p13);
        proof {
            assert(T0::lent(lent.0, world.store(), world.resources(), world.last()));
            assert(T1::lent(lent.1, world.store(), world.resources(), world.last()));
            assert(T2::lent(lent.2, world.store(), world.resources(), world.last()));
            assert(T3::lent(lent.3, world.store(), world.resources(), world.last()));
            assert(T4::lent(lent.4, world.store(), world.resources(), world.last()));
            assert(T5::lent(lent.5, world.store(), world.resources(), world.last()));
            assert(T6::lent(lent.6, world.store(), world.resources(), world.last()));
            assert(T7::lent(lent.7, world.store(), world.resources(), world.last()));
            assert(T8::lent(lent.8, world.store(), world.resources(), world.last()));
            assert(T9::lent(lent.9, world.store(), world.resources(), world.last()));
            assert(T10::lent(lent.10, world.store(), world.resources(), world.last()));
            assert(T11::lent(lent.11, world.store(), world.resources(), world.last()));
            assert(T12::lent(lent.12, world.store(), world.resources(), world.last()));
            assert(T13::lent(lent.13, world.store(), world.resources(), world.last()));
        }
        let out = call_inner14(&*self, p0, p1, p2, p3, p4, p5, p6, p7, p8, p9, p10, p11, p12, p13);
        proof {
            assert(call_ensures(
                *self,
                (
                    lent.0,
                    lent.1,
                    lent.2,
                    lent.3,
                    lent.4,
                    lent.5,
                    lent.6,
                    lent.7,
                    lent.8,
                    lent.9,
                    lent.10,
                    lent.11,
                    lent.12,
                    lent.13,
                ),
                out,
            ));
        }
        T13::release(g13, world);
        T12::release(g12, world);
        T11::release(g11, world);
        T10::release(g10, world);
        T9::release(g9, world);
        T8::release(g8, world);
        T7::release(g7, world);
        T6::release(g6, world);
        T5::release(g5, world);
        T4::release(g4, world);
        T3::release(g3, world);
        T2::release(g2, world);
        T1::release(g1, world);
        T0::release(g0, world);
        out
    }
}

impl<
    In,
    Out,
    Func,
    T0: SystemArg,
    T1: SystemArg,
    T2: SystemArg,
    T3: SystemArg,
    T4: SystemArg,
    T5: SystemArg,
    T6: SystemArg,
    T7: SystemArg,
    T8: SystemArg,
    T9: SystemArg,
    T10: SystemArg,
    T11: SystemArg,
    T12: SystemArg,
    T13: SystemArg,
> SystemParamFunction<
    (HasSystemInput, In, (T0, T1, T2, T3, T4, T5, T6, T7, T8, T9, T10, T11, T12, T13)),
> for Func where
    Func: Fn(
        In,
        T0,
        T1,
        T2,
        T3,
        T4,
        T5,
        T6,
        T7,
        T8,
        T9,
        T10,
        T11,
        T12,
        T13,
    ) -> Out + Fn(
        In::Param<'_>,
        SystemParamItem<T0>,
        SystemParamItem<T1>,
        SystemParamItem<T2>,
        SystemParamItem<T3>,
        SystemParamItem<T4>,
        SystemParamItem<T5>,
        SystemParamItem<T6>,
        SystemParamItem<T7>,
        SystemParamItem<T8>,
        SystemParamItem<T9>,
        SystemParamItem<T10>,
        SystemParamItem<T11>,
        SystemParamItem<T12>,
        SystemParamItem<T13>,
    ) -> Out,
    In: SystemInput,
 {
    type In = In;

    type Out = Out;

    type Param = (T0, T1, T2, T3, T4, T5, T6, T7, T8, T9, T10, T11, T12, T13);

    open spec fn accepts(
        &self,
        input: In::Inner<'_>,
        store: Store,
        resources: hecs::Entity,
        last: Components,
    ) -> bool {
        forall|
            p0: SystemParamItem<'_, T0>,
            p1: SystemParamItem<'_, T1>,
            p2: SystemParamItem<'_, T2>,
            p3: SystemParamItem<'_, T3>,
            p4: SystemParamItem<'_, T4>,
            p5: SystemParamItem<'_, T5>,
            p6: SystemParamItem<'_, T6>,
            p7: SystemParamItem<'_, T7>,
            p8: SystemParamItem<'_, T8>,
            p9: SystemParamItem<'_, T9>,
            p10: SystemParamItem<'_, T10>,
            p11: SystemParamItem<'_, T11>,
            p12: SystemParamItem<'_, T12>,
            p13: SystemParamItem<'_, T13>,
        |
            {
                &&& T0::lent(p0, store, resources, last)
                &&& T1::lent(p1, store, resources, last)
                &&& T2::lent(p2, store, resources, last)
                &&& T3::lent(p3, store, resources, last)
                &&& T4::lent(p4, store, resources, last)
                &&& T5::lent(p5, store, resources, last)
                &&& T6::lent(p6, store, resources, last)
                &&& T7::lent(p7, store, resources, last)
                &&& T8::lent(p8, store, resources, last)
                &&& T9::lent(p9, store, resources, last)
                &&& T10::lent(p10, store, resources, last)
                &&& T11::lent(p11, store, resources, last)
                &&& T12::lent(p12, store, resources, last)
                &&& T13::lent(p13, store, resources, last)
            } ==> #[trigger] call_requires(
                *self,
                (In::wrapped(input), p0, p1, p2, p3, p4, p5, p6, p7, p8, p9, p10, p11, p12, p13),
            )
    }

    open spec fn yields(
        &self,
        input: In::Inner<'_>,
        store: Store,
        resources: hecs::Entity,
        last: Components,
        out: Out,
    ) -> bool {
        exists|
            p0: SystemParamItem<'_, T0>,
            p1: SystemParamItem<'_, T1>,
            p2: SystemParamItem<'_, T2>,
            p3: SystemParamItem<'_, T3>,
            p4: SystemParamItem<'_, T4>,
            p5: SystemParamItem<'_, T5>,
            p6: SystemParamItem<'_, T6>,
            p7: SystemParamItem<'_, T7>,
            p8: SystemParamItem<'_, T8>,
            p9: SystemParamItem<'_, T9>,
            p10: SystemParamItem<'_, T10>,
            p11: SystemParamItem<'_, T11>,
            p12: SystemParamItem<'_, T12>,
            p13: SystemParamItem<'_, T13>,
        |
            {
                &&& T0::lent(p0, store, resources, last)
                &&& T1::lent(p1, store, resources, last)
                &&& T2::lent(p2, store, resources, last)
                &&& T3::lent(p3, store, resources, last)
                &&& T4::lent(p4, store, resources, last)
                &&& T5::lent(p5, store, resources, last)
                &&& T6::lent(p6, store, resources, last)
                &&& T7::lent(p7, store, resources, last)
                &&& T8::lent(p8, store, resources, last)
                &&& T9::lent(p9, store, resources, last)
                &&& T10::lent(p10, store, resources, last)
                &&& T11::lent(p11, store, resources, last)
                &&& T12::lent(p12, store, resources, last)
                &&& T13::lent(p13, store, resources, last)
                &&& #[trigger] call_ensures(
                    *self,
                    (
                        In::wrapped(input),
                        p0,
                        p1,
                        p2,
                        p3,
                        p4,
                        p5,
                        p6,
                        p7,
                        p8,
                        p9,
                        p10,
                        p11,
                        p12,
                        p13,
                    ),
                    out,
                )
            }
    }

    fn run<'a>(
        &mut self,
        input: In::Inner<'_>,
        param_value: SystemParamGuard<'a, Self::Param>,
        world: &mut WorldCell<'a>,
    ) -> (out: Out) {
        let (
            mut g0,
            mut g1,
            mut g2,
            mut g3,
            mut g4,
            mut g5,
            mut g6,
            mut g7,
            mut g8,
            mut g9,
            mut g10,
            mut g11,
            mut g12,
            mut g13,
        ) = param_value;
        let p0 = T0::item(&mut g0);
        let p1 = T1::item(&mut g1);
        let p2 = T2::item(&mut g2);
        let p3 = T3::item(&mut g3);
        let p4 = T4::item(&mut g4);
        let p5 = T5::item(&mut g5);
        let p6 = T6::item(&mut g6);
        let p7 = T7::item(&mut g7);
        let p8 = T8::item(&mut g8);
        let p9 = T9::item(&mut g9);
        let p10 = T10::item(&mut g10);
        let p11 = T11::item(&mut g11);
        let p12 = T12::item(&mut g12);
        let p13 = T13::item(&mut g13);
        let ghost lent = (p0, p1, p2, p3, p4, p5, p6, p7, p8, p9, p10, p11, p12, p13);
        proof {
            assert(T0::lent(lent.0, world.store(), world.resources(), world.last()));
            assert(T1::lent(lent.1, world.store(), world.resources(), world.last()));
            assert(T2::lent(lent.2, world.store(), world.resources(), world.last()));
            assert(T3::lent(lent.3, world.store(), world.resources(), world.last()));
            assert(T4::lent(lent.4, world.store(), world.resources(), world.last()));
            assert(T5::lent(lent.5, world.store(), world.resources(), world.last()));
            assert(T6::lent(lent.6, world.store(), world.resources(), world.last()));
            assert(T7::lent(lent.7, world.store(), world.resources(), world.last()));
            assert(T8::lent(lent.8, world.store(), world.resources(), world.last()));
            assert(T9::lent(lent.9, world.store(), world.resources(), world.last()));
            assert(T10::lent(lent.10, world.store(), world.resources(), world.last()));
            assert(T11::lent(lent.11, world.store(), world.resources(), world.last()));
            assert(T12::lent(lent.12, world.store(), world.resources(), world.last()));
            assert(T13::lent(lent.13, world.store(), world.resources(), world.last()));
        }
        let out = call_inner15(
            &*self,
            In::wrap(input),
            p0,
            p1,
            p2,
            p3,
            p4,
            p5,
            p6,
            p7,
            p8,
            p9,
            p10,
            p11,
            p12,
            p13,
        );
        proof {
            assert(call_ensures(
                *self,
                (
                    In::wrapped(input),
                    lent.0,
                    lent.1,
                    lent.2,
                    lent.3,
                    lent.4,
                    lent.5,
                    lent.6,
                    lent.7,
                    lent.8,
                    lent.9,
                    lent.10,
                    lent.11,
                    lent.12,
                    lent.13,
                ),
                out,
            ));
        }
        T13::release(g13, world);
        T12::release(g12, world);
        T11::release(g11, world);
        T10::release(g10, world);
        T9::release(g9, world);
        T8::release(g8, world);
        T7::release(g7, world);
        T6::release(g6, world);
        T5::release(g5, world);
        T4::release(g4, world);
        T3::release(g3, world);
        T2::release(g2, world);
        T1::release(g1, world);
        T0::release(g0, world);
        out
    }
}

impl<
    Out,
    Func,
    T0: SystemArg,
    T1: SystemArg,
    T2: SystemArg,
    T3: SystemArg,
    T4: SystemArg,
    T5: SystemArg,
    T6: SystemArg,
    T7: SystemArg,
    T8: SystemArg,
    T9: SystemArg,
    T10: SystemArg,
    T11: SystemArg,
    T12: SystemArg,
    T13: SystemArg,
    T14: SystemArg,
> SystemParamFunction<
    (T0, T1, T2, T3, T4, T5, T6, T7, T8, T9, T10, T11, T12, T13, T14),
> for Func where
    Func: Fn(
        T0,
        T1,
        T2,
        T3,
        T4,
        T5,
        T6,
        T7,
        T8,
        T9,
        T10,
        T11,
        T12,
        T13,
        T14,
    ) -> Out + Fn(
        SystemParamItem<T0>,
        SystemParamItem<T1>,
        SystemParamItem<T2>,
        SystemParamItem<T3>,
        SystemParamItem<T4>,
        SystemParamItem<T5>,
        SystemParamItem<T6>,
        SystemParamItem<T7>,
        SystemParamItem<T8>,
        SystemParamItem<T9>,
        SystemParamItem<T10>,
        SystemParamItem<T11>,
        SystemParamItem<T12>,
        SystemParamItem<T13>,
        SystemParamItem<T14>,
    ) -> Out,
 {
    type In = ();

    type Out = Out;

    type Param = (T0, T1, T2, T3, T4, T5, T6, T7, T8, T9, T10, T11, T12, T13, T14);

    open spec fn accepts(
        &self,
        input: (),
        store: Store,
        resources: hecs::Entity,
        last: Components,
    ) -> bool {
        forall|
            p0: SystemParamItem<'_, T0>,
            p1: SystemParamItem<'_, T1>,
            p2: SystemParamItem<'_, T2>,
            p3: SystemParamItem<'_, T3>,
            p4: SystemParamItem<'_, T4>,
            p5: SystemParamItem<'_, T5>,
            p6: SystemParamItem<'_, T6>,
            p7: SystemParamItem<'_, T7>,
            p8: SystemParamItem<'_, T8>,
            p9: SystemParamItem<'_, T9>,
            p10: SystemParamItem<'_, T10>,
            p11: SystemParamItem<'_, T11>,
            p12: SystemParamItem<'_, T12>,
            p13: SystemParamItem<'_, T13>,
            p14: SystemParamItem<'_, T14>,
        |
            {
                &&& T0::lent(p0, store, resources, last)
                &&& T1::lent(p1, store, resources, last)
                &&& T2::lent(p2, store, resources, last)
                &&& T3::lent(p3, store, resources, last)
                &&& T4::lent(p4, store, resources, last)
                &&& T5::lent(p5, store, resources, last)
                &&& T6::lent(p6, store, resources, last)
                &&& T7::lent(p7, store, resources, last)
                &&& T8::lent(p8, store, resources, last)
                &&& T9::lent(p9, store, resources, last)
                &&& T10::lent(p10, store, resources, last)
                &&& T11::lent(p11, store, resources, last)
                &&& T12::lent(p12, store, resources, last)
                &&& T13::lent(p13, store, resources, last)
                &&& T14::lent(p14, store, resources, last)
            } ==> #[trigger] call_requires(
                *self,
                (p0, p1, p2, p3, p4, p5, p6, p7, p8, p9, p10, p11, p12, p13, p14),
            )
    }

    open spec fn yields(
        &self,
        input: (),
        store: Store,
        resources: hecs::Entity,
        last: Components,
        out: Out,
    ) -> bool {
        exists|
            p0: SystemParamItem<'_, T0>,
            p1: SystemParamItem<'_, T1>,
            p2: SystemParamItem<'_, T2>,
            p3: SystemParamItem<'_, T3>,
            p4: SystemParamItem<'_, T4>,
            p5: SystemParamItem<'_, T5>,
            p6: SystemParamItem<'_, T6>,
            p7: SystemParamItem<'_, T7>,
            p8: SystemParamItem<'_, T8>,
            p9: SystemParamItem<'_, T9>,
            p10: SystemParamItem<'_, T10>,
            p11: SystemParamItem<'_, T11>,
            p12: SystemParamItem<'_, T12>,
            p13: SystemParamItem<'_, T13>,
            p14: SystemParamItem<'_, T14>,
        |
            {
                &&& T0::lent(p0, store, resources, last)
                &&& T1::lent(p1, store, resources, last)
                &&& T2::lent(p2, store, resources, last)
                &&& T3::lent(p3, store, resources, last)
                &&& T4::lent(p4, store, resources, last)
                &&& T5::lent(p5, store, resources, last)
                &&& T6::lent(p6, store, resources, last)
                &&& T7::lent(p7, store, resources, last)
                &&& T8::lent(p8, store, resources, last)
                &&& T9::lent(p9, store, resources, last)
                &&& T10::lent(p10, store, resources, last)
                &&& T11::lent(p11, store, resources, last)
                &&& T12::lent(p12, store, resources, last)
                &&& T13::lent(p13, store, resources, last)
                &&& T14::lent(p14, store, resources, last)
                &&& #[trigger] call_ensures(
                    *self,
                    (p0, p1, p2, p3, p4, p5, p6, p7, p8, p9, p10, p11, p12, p13, p14),
                    out,
                )
            }
    }

    fn run<'a>(
        &mut self,
        input: (),
        param_value: SystemParamGuard<'a, Self::Param>,
        world: &mut WorldCell<'a>,
    ) -> (out: Out) {
        let (
            mut g0,
            mut g1,
            mut g2,
            mut g3,
            mut g4,
            mut g5,
            mut g6,
            mut g7,
            mut g8,
            mut g9,
            mut g10,
            mut g11,
            mut g12,
            mut g13,
            mut g14,
        ) = param_value;
        let p0 = T0::item(&mut g0);
        let p1 = T1::item(&mut g1);
        let p2 = T2::item(&mut g2);
        let p3 = T3::item(&mut g3);
        let p4 = T4::item(&mut g4);
        let p5 = T5::item(&mut g5);
        let p6 = T6::item(&mut g6);
        let p7 = T7::item(&mut g7);
        let p8 = T8::item(&mut g8);
        let p9 = T9::item(&mut g9);
        let p10 = T10::item(&mut g10);
        let p11 = T11::item(&mut g11);
        let p12 = T12::item(&mut g12);
        let p13 = T13::item(&mut g13);
        let p14 = T14::item(&mut g14);
        let ghost lent = (p0, p1, p2, p3, p4, p5, p6, p7, p8, p9, p10, p11, p12, p13, p14);
        proof {
            assert(T0::lent(lent.0, world.store(), world.resources(), world.last()));
            assert(T1::lent(lent.1, world.store(), world.resources(), world.last()));
            assert(T2::lent(lent.2, world.store(), world.resources(), world.last()));
            assert(T3::lent(lent.3, world.store(), world.resources(), world.last()));
            assert(T4::lent(lent.4, world.store(), world.resources(), world.last()));
            assert(T5::lent(lent.5, world.store(), world.resources(), world.last()));
            assert(T6::lent(lent.6, world.store(), world.resources(), world.last()));
            assert(T7::lent(lent.7, world.store(), world.resources(), world.last()));
            assert(T8::lent(lent.8, world.store(), world.resources(), world.last()));
            assert(T9::lent(lent.9, world.store(), world.resources(), world.last()));
            assert(T10::lent(lent.10, world.store(), world.resources(), world.last()));
            assert(T11::lent(lent.11, world.store(), world.resources(), world.last()));
            assert(T12::lent(lent.12, world.store(), world.resources(), world.last()));
            assert(T13::lent(lent.13, world.store(), world.resources(), world.last()));
            assert(T14::lent(lent.14, world.store(), world.resources(), world.last()));
        }
        let out = call_inner15(
            &*self,
            p0,
            p1,
            p2,
            p3,
            p4,
            p5,
            p6,
            p7,
            p8,
            p9,
            p10,
            p11,
            p12,
            p13,
            p14,
        );
        proof {
            assert(call_ensures(
                *self,
                (
                    lent.0,
                    lent.1,
                    lent.2,
                    lent.3,
                    lent.4,
                    lent.5,
                    lent.6,
                    lent.7,
                    lent.8,
                    lent.9,
                    lent.10,
                    lent.11,
                    lent.12,
                    lent.13,
                    lent.14,
                ),
                out,
            ));
        }
        T14::release(g14, world);
        T13::release(g13, world);
        T12::release(g12, world);
        T11::release(g11, world);
        T10::release(g10, world);
        T9::release(g9, world);
        T8::release(g8, world);
        T7::release(g7, world);
        T6::release(g6, world);
        T5::release(g5, world);
        T4::release(g4, world);
        T3::release(g3, world);
        T2::release(g2, world);
        T1::release(g1, world);
        T0::release(g0, world);
        out
    }
}

impl<
    In,
    Out,
    Func,
    T0: SystemArg,
    T1: SystemArg,
    T2: SystemArg,
    T3: SystemArg,
    T4: SystemArg,
    T5: SystemArg,
    T6: SystemArg,
    T7: SystemArg,
    T8: SystemArg,
    T9: SystemArg,
    T10: SystemArg,
    T11: SystemArg,
    T12: SystemArg,
    T13: SystemArg,
    T14: SystemArg,
> SystemParamFunction<
    (HasSystemInput, In, (T0, T1, T2, T3, T4, T5, T6, T7, T8, T9, T10, T11, T12, T13, T14)),
> for Func where
    Func: Fn(
        In,
        T0,
        T1,
        T2,
        T3,
        T4,
        T5,
        T6,
        T7,
        T8,
        T9,
        T10,
        T11,
        T12,
        T13,
        T14,
    ) -> Out + Fn(
        In::Param<'_>,
        SystemParamItem<T0>,
        SystemParamItem<T1>,
        SystemParamItem<T2>,
        SystemParamItem<T3>,
        SystemParamItem<T4>,
        SystemParamItem<T5>,
        SystemParamItem<T6>,
        SystemParamItem<T7>,
        SystemParamItem<T8>,
        SystemParamItem<T9>,
        SystemParamItem<T10>,
        SystemParamItem<T11>,
        SystemParamItem<T12>,
        SystemParamItem<T13>,
        SystemParamItem<T14>,
    ) -> Out,
    In: SystemInput,
 {
    type In = In;

    type Out = Out;

    type Param = (T0, T1, T2, T3, T4, T5, T6, T7, T8, T9, T10, T11, T12, T13, T14);

    open spec fn accepts(
        &self,
        input: In::Inner<'_>,
        store: Store,
        resources: hecs::Entity,
        last: Components,
    ) -> bool {
        forall|
            p0: SystemParamItem<'_, T0>,
            p1: SystemParamItem<'_, T1>,
            p2: SystemParamItem<'_, T2>,
            p3: SystemParamItem<'_, T3>,
            p4: SystemParamItem<'_, T4>,
            p5: SystemParamItem<'_, T5>,
            p6: SystemParamItem<'_, T6>,
            p7: SystemParamItem<'_, T7>,
            p8: SystemParamItem<'_, T8>,
            p9: SystemParamItem<'_, T9>,
            p10: SystemParamItem<'_, T10>,
            p11: SystemParamItem<'_, T11>,
            p12: SystemParamItem<'_, T12>,
            p13: SystemParamItem<'_, T13>,
            p14: SystemParamItem<'_, T14>,
        |
            {
                &&& T0::lent(p0, store, resources, last)
                &&& T1::lent(p1, store, resources, last)
                &&& T2::lent(p2, store, resources, last)
                &&& T3::lent(p3, store, resources, last)
                &&& T4::lent(p4, store, resources, last)
                &&& T5::lent(p5, store, resources, last)
                &&& T6::lent(p6, store, resources, last)
                &&& T7::lent(p7, store, resources, last)
                &&& T8::lent(p8, store, resources, last)
                &&& T9::lent(p9, store, resources, last)
                &&& T10::lent(p10, store, resources, last)
                &&& T11::lent(p11, store, resources, last)
                &&& T12::lent(p12, store, resources, last)
                &&& T13::lent(p13, store, resources, last)
                &&& T14::lent(p14, store, resources, last)
            } ==> #[trigger] call_requires(
                *self,
                (
                    In::wrapped(input),
                    p0,
                    p1,
                    p2,
                    p3,
                    p4,
                    p5,
                    p6,
                    p7,
                    p8,
                    p9,
                    p10,
                    p11,
                    p12,
                    p13,
                    p14,
                ),
            )
    }

    open spec fn yields(
        &self,
        input: In::Inner<'_>,
        store: Store,
        resources: hecs::Entity,
        last: Components,
        out: Out,
    ) -> bool {
        exists|
            p0: SystemParamItem<'_, T0>,
            p1: SystemParamItem<'_, T1>,
            p2: SystemParamItem<'_, T2>,
            p3: SystemParamItem<'_, T3>,
            p4: SystemParamItem<'_, T4>,
            p5: SystemParamItem<'_, T5>,
            p6: SystemParamItem<'_, T6>,
            p7: SystemParamItem<'_, T7>,
            p8: SystemParamItem<'_, T8>,
            p9: SystemParamItem<'_, T9>,
            p10: SystemParamItem<'_, T10>,
            p11: SystemParamItem<'_, T11>,
            p12: SystemParamItem<'_, T12>,
            p13: SystemParamItem<'_, T13>,
            p14: SystemParamItem<'_, T14>,
        |
            {
                &&& T0::lent(p0, store, resources, last)
                &&& T1::lent(p1, store, resources, last)
                &&& T2::lent(p2, store, resources, last)
                &&& T3::lent(p3, store, resources, last)
                &&& T4::lent(p4, store, resources, last)
                &&& T5::lent(p5, store, resources, last)
                &&& T6::lent(p6, store, resources, last)
                &&& T7::lent(p7, store, resources, last)
                &&& T8::lent(p8, store, resources, last)
                &&& T9::lent(p9, store, resources, last)
                &&& T10::lent(p10, store, resources, last)
                &&& T11::lent(p11, store, resources, last)
                &&& T12::lent(p12, store, resources, last)
                &&& T13::lent(p13, store, resources, last)
                &&& T14::lent(p14, store, resources, last)
                &&& #[trigger] call_ensures(
                    *self,
                    (
                        In::wrapped(input),
                        p0,
                        p1,
                        p2,
                        p3,
                        p4,
                        p5,
                        p6,
                        p7,
                        p8,
                        p9,
                        p10,
                        p11,
                        p12,
                        p13,
                        p14,
                    ),
                    out,
                )
            }
    }

    fn run<'a>(
        &mut self,
        input: In::Inner<'_>,
        param_value: SystemParamGuard<'a, Self::Param>,
        world: &mut WorldCell<'a>,
    ) -> (out: Out) {
        let (
            mut g0,
            mut g1,
            mut g2,
            mut g3,
            mut g4,
            mut g5,
            mut g6,
            mut g7,
            mut g8,
            mut g9,
            mut g10,
            mut g11,
            mut g12,
            mut g13,
            mut g14,
        ) = param_value;
        let p0 = T0::item(&mut g0);
        let p1 = T1::item(&mut g1);
        let p2 = T2::item(&mut g2);
        let p3 = T3::item(&mut g3);
        let p4 = T4::item(&mut g4);
        let p5 = T5::item(&mut g5);
        let p6 = T6::item(&mut g6);
        let p7 = T7::item(&mut g7);
        let p8 = T8::item(&mut g8);
        let p9 = T9::item(&mut g9);
        let p10 = T10::item(&mut g10);
        let p11 = T11::item(&mut g11);
        let p12 = T12::item(&mut g12);
        let p13 = T13::item(&mut g13);
        let p14 = T14::item(&mut g14);
        let ghost lent = (p0, p1, p2, p3, p4, p5, p6, p7, p8, p9, p10, p11, p12, p13, p14);
        proof {
            assert(T0::lent(lent.0, world.store(), world.resources(), world.last()));
            assert(T1::lent(lent.1, world.store(), world.resources(), world.last()));
            assert(T2::lent(lent.2, world.store(), world.resources(), world.last()));
            assert(T3::lent(lent.3, world.store(), world.resources(), world.last()));
            assert(T4::lent(lent.4, world.store(), world.resources(), world.last()));
            assert(T5::lent(lent.5, world.store(), world.resources(), world.last()));
            assert(T6::lent(lent.6, world.store(), world.resources(), world.last()));
            assert(T7::lent(lent.7, world.store(), world.resources(), world.last()));
            assert(T8::lent(lent.8, world.store(), world.resources(), world.last()));
            assert(T9::lent(lent.9, world.store(), world.resources(), world.last()));
            assert(T10::lent(lent.10, world.store(), world.resources(), world.last()));
            assert(T11::lent(lent.11, world.store(), world.resources(), world.last()));
            assert(T12::lent(lent.12, world.store(), world.resources(), world.last()));
            assert(T13::lent(lent.13, world.store(), world.resources(), world.last()));
            assert(T14::lent(lent.14, world.store(), world.resources(), world.last()));
        }
        let out = call_inner16(
            &*self,
            In::wrap(input),
            p0,
            p1,
            p2,
            p3,
            p4,
            p5,
            p6,
            p7,
            p8,
            p9,
            p10,
            p11,
            p12,
            p13,
            p14,
        );
        proof {
            assert(call_ensures(
                *self,
                (
                    In::wrapped(input),
                    lent.0,
                    lent.1,
                    lent.2,
                    lent.3,
                    lent.4,
                    lent.5,
                    lent.6,
                    lent.7,
                    lent.8,
                    lent.9,
                    lent.10,
                    lent.11,
                    lent.12,
                    lent.13,
                    lent.14,
                ),
                out,
            ));
        }
        T14::release(g14, world);
        T13::release(g13, world);
        T12::release(g12, world);
        T11::release(g11, world);
        T10::release(g10, world);
        T9::release(g9, world);
        T8::release(g8, world);
        T7::release(g7, world);
        T6::release(g6, world);
        T5::release(g5, world);
        T4::release(g4, world);
        T3::release(g3, world);
        T2::release(g2, world);
        T1::release(g1, world);
        T0::release(g0, world);
        out
    }
}

impl<
    Out,
    Func,
    T0: SystemArg,
    T1: SystemArg,
    T2: SystemArg,
    T3: SystemArg,
    T4: SystemArg,
    T5: SystemArg,
    T6: SystemArg,
    T7: SystemArg,
    T8: SystemArg,
    T9: SystemArg,
    T10: SystemArg,
    T11: SystemArg,
    T12: SystemArg,
    T13: SystemArg,
    T14: SystemArg,
    T15: SystemArg,
> SystemParamFunction<
    (T0, T1, T2, T3, T4, T5, T6, T7, T8, T9, T10, T11, T12, T13, T14, T15),
> for Func where
    Func: Fn(
        T0,
        T1,
        T2,
        T3,
        T4,
        T5,
        T6,
        T7,
        T8,
        T9,
        T10,
        T11,
        T12,
        T13,
        T14,
        T15,
    ) -> Out + Fn(
        SystemParamItem<T0>,
        SystemParamItem<T1>,
        SystemParamItem<T2>,
        SystemParamItem<T3>,
        SystemParamItem<T4>,
        SystemParamItem<T5>,
        SystemParamItem<T6>,
        SystemParamItem<T7>,
        SystemParamItem<T8>,
        SystemParamItem<T9>,
        SystemParamItem<T10>,
        SystemParamItem<T11>,
        SystemParamItem<T12>,
        SystemParamItem<T13>,
        SystemParamItem<T14>,
        SystemParamItem<T15>,
    ) -> Out,
 {
    type In = ();

    type Out = Out;

    type Param = (T0, T1, T2, T3, T4, T5, T6, T7, T8, T9, T10, T11, T12, T13, T14, T15);

    open spec fn accepts(
        &self,
        input: (),
        store: Store,
        resources: hecs::Entity,
        last: Components,
    ) -> bool {
        forall|
            p0: SystemParamItem<'_, T0>,
            p1: SystemParamItem<'_, T1>,
            p2: SystemParamItem<'_, T2>,
            p3: SystemParamItem<'_, T3>,
            p4: SystemParamItem<'_, T4>,
            p5: SystemParamItem<'_, T5>,
            p6: SystemParamItem<'_, T6>,
            p7: SystemParamItem<'_, T7>,
            p8: SystemParamItem<'_, T8>,
            p9: SystemParamItem<'_, T9>,
            p10: SystemParamItem<'_, T10>,
            p11: SystemParamItem<'_, T11>,
            p12: SystemParamItem<'_, T12>,
            p13: SystemParamItem<'_, T13>,
            p14: SystemParamItem<'_, T14>,
            p15: SystemParamItem<'_, T15>,
        |
            {
                &&& T0::lent(p0, store, resources, last)
                &&& T1::lent(p1, store, resources, last)
                &&& T2::lent(p2, store, resources, last)
                &&& T3::lent(p3, store, resources, last)
                &&& T4::lent(p4, store, resources, last)
                &&& T5::lent(p5, store, resources, last)
                &&& T6::lent(p6, store, resources, last)
                &&& T7::lent(p7, store, resources, last)
                &&& T8::lent(p8, store, resources, last)
                &&& T9::lent(p9, store, resources, last)
                &&& T10::lent(p10, store, resources, last)
                &&& T11::lent(p11, store, resources, last)
                &&& T12::lent(p12, store, resources, last)
                &&& T13::lent(p13, store, resources, last)
                &&& T14::lent(p14, store, resources, last)
                &&& T15::lent(p15, store, resources, last)
            } ==> #[trigger] call_requires(
                *self,
                (p0, p1, p2, p3, p4, p5, p6, p7, p8, p9, p10, p11, p12, p13, p14, p15),
            )
    }

    open spec fn yields(
        &self,
        input: (),
        store: Store,
        resources: hecs::Entity,
        last: Components,
        out: Out,
    ) -> bool {
        exists|
            p0: SystemParamItem<'_, T0>,
            p1: SystemParamItem<'_, T1>,
            p2: SystemParamItem<'_, T2>,
            p3: SystemParamItem<'_, T3>,
            p4: SystemParamItem<'_, T4>,
            p5: SystemParamItem<'_, T5>,
            p6: SystemParamItem<'_, T6>,
            p7: SystemParamItem<'_, T7>,
            p8: SystemParamItem<'_, T8>,
            p9: SystemParamItem<'_, T9>,
            p10: SystemParamItem<'_, T10>,
            p11: SystemParamItem<'_, T11>,
            p12: SystemParamItem<'_, T12>,
            p13: SystemParamItem<'_, T13>,
            p14: SystemParamItem<'_, T14>,
            p15: SystemParamItem<'_, T15>,
        |
            {
                &&& T0::lent(p0, store, resources, last)
                &&& T1::lent(p1, store, resources, last)
                &&& T2::lent(p2, store, resources, last)
                &&& T3::lent(p3, store, resources, last)
                &&& T4::lent(p4, store, resources, last)
                &&& T5::lent(p5, store, resources, last)
                &&& T6::lent(p6, store, resources, last)
                &&& T7::lent(p7, store, resources, last)
                &&& T8::lent(p8, store, resources, last)
                &&& T9::lent(p9, store, resources, last)
                &&& T10::lent(p10, store, resources, last)
                &&& T11::lent(p11, store, resources, last)
                &&& T12::lent(p12, store, resources, last)
                &&& T13::lent(p13, store, resources, last)
                &&& T14::lent(p14, store, resources, last)
                &&& T15::lent(p15, store, resources, last)
                &&& #[trigger] call_ensures(
                    *self,
                    (p0, p1, p2, p3, p4, p5, p6, p7, p8, p9, p10, p11, p12, p13, p14, p15),
                    out,
                )
            }
    }

    fn run<'a>(
        &mut self,
        input: (),
        param_value: SystemParamGuard<'a, Self::Param>,
        world: &mut WorldCell<'a>,
    ) -> (out: Out) {
        let (
            mut g0,
            mut g1,
            mut g2,
            mut g3,
            mut g4,
            mut g5,
            mut g6,
            mut g7,
            mut g8,
            mut g9,
            mut g10,
            mut g11,
            mut g12,
            mut g13,
            mut g14,
            mut g15,
        ) = param_value;
        let p0 = T0::item(&mut g0);
        let p1 = T1::item(&mut g1);
        let p2 = T2::item(&mut g2);
        let p3 = T3::item(&mut g3);
        let p4 = T4::item(&mut g4);
        let p5 = T5::item(&mut g5);
        let p6 = T6::item(&mut g6);
        let p7 = T7::item(&mut g7);
        let p8 = T8::item(&mut g8);
        let p9 = T9::item(&mut g9);
        let p10 = T10::item(&mut g10);
        let p11 = T11::item(&mut g11);
        let p12 = T12::item(&mut g12);
        let p13 = T13::item(&mut g13);
        let p14 = T14::item(&mut g14);
        let p15 = T15::item(&mut g15);
        let ghost lent = (p0, p1, p2, p3, p4, p5, p6, p7, p8, p9, p10, p11, p12, p13, p14, p15);
        proof {
            assert(T0::lent(lent.0, world.store(), world.resources(), world.last()));
            assert(T1::lent(lent.1, world.store(), world.resources(), world.last()));
            assert(T2::lent(lent.2, world.store(), world.resources(), world.last()));
            assert(T3::lent(lent.3, world.store(), world.resources(), world.last()));
            assert(T4::lent(lent.4, world.store(), world.resources(), world.last()));
            assert(T5::lent(lent.5, world.store(), world.resources(), world.last()));
            assert(T6::lent(lent.6, world.store(), world.resources(), world.last()));
            assert(T7::lent(lent.7, world.store(), world.resources(), world.last()));
            assert(T8::lent(lent.8, world.store(), world.resources(), world.last()));
            assert(T9::lent(lent.9, world.store(), world.resources(), world.last()));
            assert(T10::lent(lent.10, world.store(), world.resources(), world.last()));
            assert(T11::lent(lent.11, world.store(), world.resources(), world.last()));
            assert(T12::lent(lent.12, world.store(), world.resources(), world.last()));
            assert(T13::lent(lent.13, world.store(), world.resources(), world.last()));
            assert(T14::lent(lent.14, world.store(), world.resources(), world.last()));
            assert(T15::lent(lent.15, world.store(), world.resources(), world.last()));
        }
        let out = call_inner16(
            &*self,
            p0,
            p1,
            p2,
            p3,
            p4,
            p5,
            p6,
            p7,
            p8,
            p9,
            p10,
            p11,
            p12,
            p13,
            p14,
            p15,
        );
        proof {
            assert(call_ensures(
                *self,
                (
                    lent.0,
                    lent.1,
                    lent.2,
                    lent.3,
                    lent.4,
                    lent.5,
                    lent.6,
                    lent.7,
                    lent.8,
                    lent.9,
                    lent.10,
                    lent.11,
                    lent.12,
                    lent.13,
                    lent.14,
                    lent.15,
                ),
                out,
            ));
        }
        T15::release(g15, world);
        T14::release(g14, world);
        T13::release(g13, world);
        T12::release(g12, world);
        T11::release(g11, world);
        T10::release(g10, world);
        T9::release(g9, world);
        T8::release(g8, world);
        T7::release(g7, world);
        T6::release(g6, world);
        T5::release(g5, world);
        T4::release(g4, world);
        T3::release(g3, world);
        T2::release(g2, world);
        T1::release(g1, world);
        T0::release(g0, world);
        out
    }
}

impl<
    In,
    Out,
    Func,
    T0: SystemArg,
    T1: SystemArg,
    T2: SystemArg,
    T3: SystemArg,
    T4: SystemArg,
    T5: SystemArg,
    T6: SystemArg,
    T7: SystemArg,
    T8: SystemArg,
    T9: SystemArg,
    T10: SystemArg,
    T11: SystemArg,
    T12: SystemArg,
    T13: SystemArg,
    T14: SystemArg,
    T15: SystemArg,
> SystemParamFunction<
    (HasSystemInput, In, (T0, T1, T2, T3, T4, T5, T6, T7, T8, T9, T10, T11, T12, T13, T14, T15)),
> for Func where
    Func: Fn(
        In,
        T0,
        T1,
        T2,
        T3,
        T4,
        T5,
        T6,
        T7,
        T8,
        T9,
        T10,
        T11,
        T12,
        T13,
        T14,
        T15,
    ) -> Out + Fn(
        In::Param<'_>,
        SystemParamItem<T0>,
        SystemParamItem<T1>,
        SystemParamItem<T2>,
        SystemParamItem<T3>,
        SystemParamItem<T4>,
        SystemParamItem<T5>,
        SystemParamItem<T6>,
        SystemParamItem<T7>,
        SystemParamItem<T8>,
        SystemParamItem<T9>,
        SystemParamItem<T10>,
        SystemParamItem<T11>,
        SystemParamItem<T12>,
        SystemParamItem<T13>,
        SystemParamItem<T14>,
        SystemParamItem<T15>,
    ) -> Out,
    In: SystemInput,
 {
    type In = In;

    type Out = Out;

    type Param = (T0, T1, T2, T3, T4, T5, T6, T7, T8, T9, T10, T11, T12, T13, T14, T15);

    open spec fn accepts(
        &self,
        input: In::Inner<'_>,
        store: Store,
        resources: hecs::Entity,
        last: Components,
    ) -> bool {
        forall|
            p0: SystemParamItem<'_, T0>,
            p1: SystemParamItem<'_, T1>,
            p2: SystemParamItem<'_, T2>,
            p3: SystemParamItem<'_, T3>,
            p4: SystemParamItem<'_, T4>,
            p5: SystemParamItem<'_, T5>,
            p6: SystemParamItem<'_, T6>,
            p7: SystemParamItem<'_, T7>,
            p8: SystemParamItem<'_, T8>,
            p9: SystemParamItem<'_, T9>,
            p10: SystemParamItem<'_, T10>,
            p11: SystemParamItem<'_, T11>,
            p12: SystemParamItem<'_, T12>,
            p13: SystemParamItem<'_, T13>,
            p14: SystemParamItem<'_, T14>,
            p15: SystemParamItem<'_, T15>,
        |
            {
                &&& T0::lent(p0, store, resources, last)
                &&& T1::lent(p1, store, resources, last)
                &&& T2::lent(p2, store, resources, last)
                &&& T3::lent(p3, store, resources, last)
                &&& T4::lent(p4, store, resources, last)
                &&& T5::lent(p5, store, resources, last)
                &&& T6::lent(p6, store, resources, last)
                &&& T7::lent(p7, store, resources, last)
                &&& T8::lent(p8, store, resources, last)
                &&& T9::lent(p9, store, resources, last)
                &&& T10::lent(p10, store, resources, last)
                &&& T11::lent(p11, store, resources, last)
                &&& T12::lent(p12, store, resources, last)
                &&& T13::lent(p13, store, resources, last)
                &&& T14::lent(p14, store, resources, last)
                &&& T15::lent(p15, store, resources, last)
            } ==> #[trigger] call_requires(
                *self,
                (
                    In::wrapped(input),
                    p0,
                    p1,
                    p2,
                    p3,
                    p4,
                    p5,
                    p6,
                    p7,
                    p8,
                    p9,
                    p10,
                    p11,
                    p12,
                    p13,
                    p14,
                    p15,
                ),
            )
    }

    open spec fn yields(
        &self,
        input: In::Inner<'_>,
        store: Store,
        resources: hecs::Entity,
        last: Components,
        out: Out,
    ) -> bool {
        exists|
            p0: SystemParamItem<'_, T0>,
            p1: SystemParamItem<'_, T1>,
            p2: SystemParamItem<'_, T2>,
            p3: SystemParamItem<'_, T3>,
            p4: SystemParamItem<'_, T4>,
            p5: SystemParamItem<'_, T5>,
            p6: SystemParamItem<'_, T6>,
            p7: SystemParamItem<'_, T7>,
            p8: SystemParamItem<'_, T8>,
            p9: SystemParamItem<'_, T9>,
            p10: SystemParamItem<'_, T10>,
            p11: SystemParamItem<'_, T11>,
            p12: SystemParamItem<'_, T12>,
            p13: SystemParamItem<'_, T13>,
            p14: SystemParamItem<'_, T14>,
            p15: SystemParamItem<'_, T15>,
        |
            {
                &&& T0::lent(p0, store, resources, last)
                &&& T1::lent(p1, store, resources, last)
                &&& T2::lent(p2, store, resources, last)
                &&& T3::lent(p3, store, resources, last)
                &&& T4::lent(p4, store, resources, last)
                &&& T5::lent(p5, store, resources, last)
                &&& T6::lent(p6, store, resources, last)
                &&& T7::lent(p7, store, resources, last)
                &&& T8::lent(p8, store, resources, last)
                &&& T9::lent(p9, store, resources, last)
                &&& T10::lent(p10, store, resources, last)
                &&& T11::lent(p11, store, resources, last)
                &&& T12::lent(p12, store, resources, last)
                &&& T13::lent(p13, store, resources, last)
                &&& T14::lent(p14, store, resources, last)
                &&& T15::lent(p15, store, resources, last)
                &&& #[trigger] call_ensures(
                    *self,
                    (
                        In::wrapped(input),
                        p0,
                        p1,
                        p2,
                        p3,
                        p4,
                        p5,
                        p6,
                        p7,
                        p8,
                        p9,
                        p10,
                        p11,
                        p12,
                        p13,
                        p14,
                        p15,
                    ),
                    out,
                )
            }
    }

    fn run<'a>(
        &mut self,
        input: In::Inner<'_>,
        param_value: SystemParamGuard<'a, Self::Param>,
        world: &mut WorldCell<'a>,
    ) -> (out: Out) {
        let (
            mut g0,
            mut g1,
            mut g2,
            mut g3,
            mut g4,
            mut g5,
            mut g6,
            mut g7,
            mut g8,
            mut g9,
            mut g10,
            mut g11,
            mut g12,
            mut g13,
            mut g14,
            mut g15,
        ) = param_value;
        let p0 = T0::item(&mut g0);
        let p1 = T1::item(&mut g1);
        let p2 = T2::item(&mut g2);
        let p3 = T3::item(&mut g3);
        let p4 = T4::item(&mut g4);
        let p5 = T5::item(&mut g5);
        let p6 = T6::item(&mut g6);
        let p7 = T7::item(&mut g7);
        let p8 = T8::item(&mut g8);
        let p9 = T9::item(&mut g9);
        let p10 = T10::item(&mut g10);
        let p11 = T11::item(&mut g11);
        let p12 = T12::item(&mut g12);
        let p13 = T13::item(&mut g13);
        let p14 = T14::item(&mut g14);
        let p15 = T15::item(&mut g15);
        let ghost lent = (p0, p1, p2, p3, p4, p5, p6, p7, p8, p9, p10, p11, p12, p13, p14, p15);
        proof {
            assert(T0::lent(lent.0, world.store(), world.resources(), world.last()));
            assert(T1::lent(lent.1, world.store(), world.resources(), world.last()));
            assert(T2::lent(lent.2, world.store(), world.resources(), world.last()));
            assert(T3::lent(lent.3, world.store(), world.resources(), world.last()));
            assert(T4::lent(lent.4, world.store(), world.resources(), world.last()));
            assert(T5::lent(lent.5, world.store(), world.resources(), world.last()));
            assert(T6::lent(lent.6, world.store(), world.resources(), world.last()));
            assert(T7::lent(lent.7, world.store(), world.resources(), world.last()));
            assert(T8::lent(lent.8, world.store(), world.resources(), world.last()));
            assert(T9::lent(lent.9, world.store(), world.resources(), world.last()));
            assert(T10::lent(lent.10, world.store(), world.resources(), world.last()));
            assert(T11::lent(lent.11, world.store(), world.resources(), world.last()));
            assert(T12::lent(lent.12, world.store(), world.resources(), world.last()));
            assert(T13::lent(lent.13, world.store(), world.resources(), world.last()));
            assert(T14::lent(lent.14, world.store(), world.resources(), world.last()));
            assert(T15::lent(lent.15, world.store(), world.resources(), world.last()));
        }
        let out = call_inner17(
            &*self,
            In::wrap(input),
            p0,
            p1,
            p2,
            p3,
            p4,
            p5,
            p6,
            p7,
            p8,
            p9,
            p10,
            p11,
            p12,
            p13,
            p14,
            p15,
        );
        proof {
            assert(call_ensures(
                *self,
                (
                    In::wrapped(input),
                    lent.0,
                    lent.1,
                    lent.2,
                    lent.3,
                    lent.4,
                    lent.5,
                    lent.6,
                    lent.7,
                    lent.8,
                    lent.9,
                    lent.10,
                    lent.11,
                    lent.12,
                    lent.13,
                    lent.14,
                    lent.15,
                ),
                out,
            ));
        }
        T15::release(g15, world);
        T14::release(g14, world);
        T13::release(g13, world);
        T12::release(g12, world);
        T11::release(g11, world);
        T10::release(g10, world);
        T9::release(g9, world);
        T8::release(g8, world);
        T7::release(g7, world);
        T6::release(g6, world);
        T5::release(g5, world);
        T4::release(g4, world);
        T3::release(g3, world);
        T2::release(g2, world);
        T1::release(g1, world);
        T0::release(g0, world);
        out
    }
}

/// Calls `f`, of which the compiler has to be told which of its shapes is meant.
pub(crate) fn call_inner1<Out, A0>(f: &impl Fn(A0) -> Out, a0: A0) -> (out: Out)
    requires
        call_requires(*f, (a0,)),
    ensures
        call_ensures(*f, (a0,), out),
{
    f(a0)
}

/// Calls `f`, of which the compiler has to be told which of its shapes is meant.
pub(crate) fn call_inner2<Out, A0, A1>(f: &impl Fn(A0, A1) -> Out, a0: A0, a1: A1) -> (out: Out)
    requires
        call_requires(*f, (a0, a1)),
    ensures
        call_ensures(*f, (a0, a1), out),
{
    f(a0, a1)
}

/// Calls `f`, of which the compiler has to be told which of its shapes is meant.
pub(crate) fn call_inner3<Out, A0, A1, A2>(
    f: &impl Fn(A0, A1, A2) -> Out,
    a0: A0,
    a1: A1,
    a2: A2,
) -> (out: Out)
    requires
        call_requires(*f, (a0, a1, a2)),
    ensures
        call_ensures(*f, (a0, a1, a2), out),
{
    f(a0, a1, a2)
}

/// Calls `f`, of which the compiler has to be told which of its shapes is meant.
pub(crate) fn call_inner4<Out, A0, A1, A2, A3>(
    f: &impl Fn(A0, A1, A2, A3) -> Out,
    a0: A0,
    a1: A1,
    a2: A2,
    a3: A3,
) -> (out: Out)
    requires
        call_requires(*f, (a0, a1, a2, a3)),
    ensures
        call_ensures(*f, (a0, a1, a2, a3), out),
{
    f(a0, a1, a2, a3)
}

/// Calls `f`, of which the compiler has to be told which of its shapes is meant.
pub(crate) fn call_inner5<Out, A0, A1, A2, A3, A4>(
    f: &impl Fn(A0, A1, A2, A3, A4) -> Out,
    a0: A0,
    a1: A1,
    a2: A2,
    a3: A3,
    a4: A4,
) -> (out: Out)
    requires
        call_requires(*f, (a0, a1, a2, a3, a4)),
    ensures
        call_ensures(*f, (a0, a1, a2, a3, a4), out),
{
    f(a0, a1, a2, a3, a4)
}

/// Calls `f`, of which the compiler has to be told which of its shapes is meant.
pub(crate) fn call_inner6<Out, A0, A1, A2, A3, A4, A5>(
    f: &impl Fn(A0, A1, A2, A3, A4, A5) -> Out,
    a0: A0,
    a1: A1,
    a2: A2,
    a3: A3,
    a4: A4,
    a5: A5,
) -> (out: Out)
    requires
        call_requires(*f, (a0, a1, a2, a3, a4, a5)),
    ensures
        call_ensures(*f, (a0, a1, a2, a3, a4, a5), out),
{
    f(a0, a1, a2, a3, a4, a5)
}

/// Calls `f`, of which the compiler has to be told which of its shapes is meant.
pub(crate) fn call_inner7<Out, A0, A1, A2, A3, A4, A5, A6>(
    f: &impl Fn(A0, A1, A2, A3, A4, A5, A6) -> Out,
    a0: A0,
    a1: A1,
    a2: A2,
    a3: A3,
    a4: A4,
    a5: A5,
    a6: A6,
) -> (out: Out)
    requires
        call_requires(*f, (a0, a1, a2, a3, a4, a5, a6)),
    ensures
        call_ensures(*f, (a0, a1, a2, a3, a4, a5, a6), out),
{
    f(a0, a1, a2, a3, a4, a5, a6)
}

/// Calls `f`, of which the compiler has to be told which of its shapes is meant.
pub(crate) fn call_inner8<Out, A0, A1, A2, A3, A4, A5, A6, A7>(
    f: &impl Fn(A0, A1, A2, A3, A4, A5, A6, A7) -> Out,
    a0: A0,
    a1: A1,
    a2: A2,
    a3: A3,
    a4: A4,
    a5: A5,
    a6: A6,
    a7: A7,
) -> (out: Out)
    requires
        call_requires(*f, (a0, a1, a2, a3, a4, a5, a6, a7)),
    ensures
        call_ensures(*f, (a0, a1, a2, a3, a4, a5, a6, a7), out),
{
    f(a0, a1, a2, a3, a4, a5, a6, a7)
}

/// Calls `f`, of which the compiler has to be told which of its shapes is meant.
pub(crate) fn call_inner9<Out, A0, A1, A2, A3, A4, A5, A6, A7, A8>(
    f: &impl Fn(A0, A1, A2, A3, A4, A5, A6, A7, A8) -> Out,
    a0: A0,
    a1: A1,
    a2: A2,
    a3: A3,
    a4: A4,
    a5: A5,
    a6: A6,
    a7: A7,
    a8: A8,
) -> (out: Out)
    requires
        call_requires(*f, (a0, a1, a2, a3, a4, a5, a6, a7, a8)),
    ensures
        call_ensures(*f, (a0, a1, a2, a3, a4, a5, a6, a7, a8), out),
{
    f(a0, a1, a2, a3, a4, a5, a6, a7, a8)
}

/// Calls `f`, of which the compiler has to be told which of its shapes is meant.
pub(crate) fn call_inner10<Out, A0, A1, A2, A3, A4, A5, A6, A7, A8, A9>(
    f: &impl Fn(A0, A1, A2, A3, A4, A5, A6, A7, A8, A9) -> Out,
    a0: A0,
    a1: A1,
    a2: A2,
    a3: A3,
    a4: A4,
    a5: A5,
    a6: A6,
    a7: A7,
    a8: A8,
    a9: A9,
) -> (out: Out)
    requires
        call_requires(*f, (a0, a1, a2, a3, a4, a5, a6, a7, a8, a9)),
    ensures
        call_ensures(*f, (a0, a1, a2, a3, a4, a5, a6, a7, a8, a9), out),
{
    f(a0, a1, a2, a3, a4, a5, a6, a7, a8, a9)
}

/// Calls `f`, of which the compiler has to be told which of its shapes is meant.
pub(crate) fn call_inner11<Out, A0, A1, A2, A3, A4, A5, A6, A7, A8, A9, A10>(
    f: &impl Fn(A0, A1, A2, A3, A4, A5, A6, A7, A8, A9, A10) -> Out,
    a0: A0,
    a1: A1,
    a2: A2,
    a3: A3,
    a4: A4,
    a5: A5,
    a6: A6,
    a7: A7,
    a8: A8,
    a9: A9,
    a10: A10,
) -> (out: Out)
    requires
        call_requires(*f, (a0, a1, a2, a3, a4, a5, a6, a7, a8, a9, a10)),
    ensures
        call_ensures(*f, (a0, a1, a2, a3, a4, a5, a6, a7, a8, a9, a10), out),
{
    f(a0, a1, a2, a3, a4, a5, a6, a7, a8, a9, a10)
}

/// Calls `f`, of which the compiler has to be told which of its shapes is meant.
pub(crate) fn call_inner12<Out, A0, A1, A2, A3, A4, A5, A6, A7, A8, A9, A10, A11>(
    f: &impl Fn(A0, A1, A2, A3, A4, A5, A6, A7, A8, A9, A10, A11) -> Out,
    a0: A0,
    a1: A1,
    a2: A2,
    a3: A3,
    a4: A4,
    a5: A5,
    a6: A6,
    a7: A7,
    a8: A8,
    a9: A9,
    a10: A10,
    a11: A11,
) -> (out: Out)
    requires
        call_requires(*f, (a0, a1, a2, a3, a4, a5, a6, a7, a8, a9, a10, a11)),
    ensures
        call_ensures(*f, (a0, a1, a2, a3, a4, a5, a6, a7, a8, a9, a10, a11), out),
{
    f(a0, a1, a2, a3, a4, a5, a6, a7, a8, a9, a10, a11)
}

/// Calls `f`, of which the compiler has to be told which of its shapes is meant.
pub(crate) fn call_inner13<Out, A0, A1, A2, A3, A4, A5, A6, A7, A8, A9, A10, A11, A12>(
    f: &impl Fn(A0, A1, A2, A3, A4, A5, A6, A7, A8, A9, A10, A11, A12) -> Out,
    a0: A0,
    a1: A1,
    a2: A2,
    a3: A3,
    a4: A4,
    a5: A5,
    a6: A6,
    a7: A7,
    a8: A8,
    a9: A9,
    a10: A10,
    a11: A11,
    a12: A12,
) -> (out: Out)
    requires
        call_requires(*f, (a0, a1, a2, a3, a4, a5, a6, a7, a8, a9, a10, a11, a12)),
    ensures
        call_ensures(*f, (a0, a1, a2, a3, a4, a5, a6, a7, a8, a9, a10, a11, a12), out),
{
    f(a0, a1, a2, a3, a4, a5, a6, a7, a8, a9, a10, a11, a12)
}

/// Calls `f`, of which the compiler has to be told which of its shapes is meant.
pub(crate) fn call_inner14<Out, A0, A1, A2, A3, A4, A5, A6, A7, A8, A9, A10, A11, A12, A13>(
    f: &impl Fn(A0, A1, A2, A3, A4, A5, A6, A7, A8, A9, A10, A11, A12, A13) -> Out,
    a0: A0,
    a1: A1,
    a2: A2,
    a3: A3,
    a4: A4,
    a5: A5,
    a6: A6,
    a7: A7,
    a8: A8,
    a9: A9,
    a10: A10,
    a11: A11,
    a12: A12,
    a13: A13,
) -> (out: Out)
    requires
        call_requires(*f, (a0, a1, a2, a3, a4, a5, a6, a7, a8, a9, a10, a11, a12, a13)),
    ensures
        call_ensures(*f, (a0, a1, a2, a3, a4, a5, a6, a7, a8, a9, a10, a11, a12, a13), out),
{
    f(a0, a1, a2, a3, a4, a5, a6, a7, a8, a9, a10, a11, a12, a13)
}

/// Calls `f`, of which the compiler has to be told which of its shapes is meant.
pub(crate) fn call_inner15<Out, A0, A1, A2, A3, A4, A5, A6, A7, A8, A9, A10, A11, A12, A13, A14>(
    f: &impl Fn(A0, A1, A2, A3, A4, A5, A6, A7, A8, A9, A10, A11, A12, A13, A14) -> Out,
    a0: A0,
    a1: A1,
    a2: A2,
    a3: A3,
    a4: A4,
    a5: A5,
    a6: A6,
    a7: A7,
    a8: A8,
    a9: A9,
    a10: A10,
    a11: A11,
    a12: A12,
    a13: A13,
    a14: A14,
) -> (out: Out)
    requires
        call_requires(*f, (a0, a1, a2, a3, a4, a5, a6, a7, a8, a9, a10, a11, a12, a13, a14)),
    ensures
        call_ensures(*f, (a0, a1, a2, a3, a4, a5, a6, a7, a8, a9, a10, a11, a12, a13, a14), out),
{
    f(a0, a1, a2, a3, a4, a5, a6, a7, a8, a9, a10, a11, a12, a13, a14)
}

/// Calls `f`, of which the compiler has to be told which of its shapes is meant.
pub(crate) fn call_inner16<
    Out,
    A0,
    A1,
    A2,
    A3,
    A4,
    A5,
    A6,
    A7,
    A8,
    A9,
    A10,
    A11,
    A12,
    A13,
    A14,
    A15,
>(
    f: &impl Fn(A0, A1, A2, A3, A4, A5, A6, A7, A8, A9, A10, A11, A12, A13, A14, A15) -> Out,
    a0: A0,
    a1: A1,
    a2: A2,
    a3: A3,
    a4: A4,
    a5: A5,
    a6: A6,
    a7: A7,
    a8: A8,
    a9: A9,
    a10: A10,
    a11: A11,
    a12: A12,
    a13: A13,
    a14: A14,
    a15: A15,
) -> (out: Out)
    requires
        call_requires(*f, (a0, a1, a2, a3, a4, a5, a6, a7, a8, a9, a10, a11, a12, a13, a14, a15)),
    ensures
        call_ensures(
            *f,
            (a0, a1, a2, a3, a4, a5, a6, a7, a8, a9, a10, a11, a12, a13, a14, a15),
            out,
        ),
{
    f(a0, a1, a2, a3, a4, a5, a6, a7, a8, a9, a10, a11, a12, a13, a14, a15)
}

/// Calls `f`, of which the compiler has to be told which of its shapes is meant.
pub(crate) fn call_inner17<
    Out,
    A0,
    A1,
    A2,
    A3,
    A4,
    A5,
    A6,
    A7,
    A8,
    A9,
    A10,
    A11,
    A12,
    A13,
    A14,
    A15,
    A16,
>(
    f: &impl Fn(A0, A1, A2, A3, A4, A5, A6, A7, A8, A9, A10, A11, A12, A13, A14, A15, A16) -> Out,
    a0: A0,
    a1: A1,
    a2: A2,
    a3: A3,
    a4: A4,
    a5: A5,
    a6: A6,
    a7: A7,
    a8: A8,
    a9: A9,
    a10: A10,
    a11: A11,
    a12: A12,
    a13: A13,
    a14: A14,
    a15: A15,
    a16: A16,
) -> (out: Out)
    requires
        call_requires(
            *f,
            (a0, a1, a2, a3, a4, a5, a6, a7, a8, a9, a10, a11, a12, a13, a14, a15, a16),
        ),
    ensures
        call_ensures(
            *f,
            (a0, a1, a2, a3, a4, a5, a6, a7, a8, a9, a10, a11, a12, a13, a14, a15, a16),
            out,
        ),
{
    f(a0, a1, a2, a3, a4, a5, a6, a7, a8, a9, a10, a11, a12, a13, a14, a15, a16)
}

/// Calls `f`, of which the compiler has to be told which of its shapes is meant.
pub(crate) fn call_inner18<
    Out,
    A0,
    A1,
    A2,
    A3,
    A4,
    A5,
    A6,
    A7,
    A8,
    A9,
    A10,
    A11,
    A12,
    A13,
    A14,
    A15,
    A16,
    A17,
>(
    f: &impl Fn(
        A0,
        A1,
        A2,
        A3,
        A4,
        A5,
        A6,
        A7,
        A8,
        A9,
        A10,
        A11,
        A12,
        A13,
        A14,
        A15,
        A16,
        A17,
    ) -> Out,
    a0: A0,
    a1: A1,
    a2: A2,
    a3: A3,
    a4: A4,
    a5: A5,
    a6: A6,
    a7: A7,
    a8: A8,
    a9: A9,
    a10: A10,
    a11: A11,
    a12: A12,
    a13: A13,
    a14: A14,
    a15: A15,
    a16: A16,
    a17: A17,
) -> (out: Out)
    requires
        call_requires(
            *f,
            (a0, a1, a2, a3, a4, a5, a6, a7, a8, a9, a10, a11, a12, a13, a14, a15, a16, a17),
        ),
    ensures
        call_ensures(
            *f,
            (a0, a1, a2, a3, a4, a5, a6, a7, a8, a9, a10, a11, a12, a13, a14, a15, a16, a17),
            out,
        ),
{
    f(a0, a1, a2, a3, a4, a5, a6, a7, a8, a9, a10, a11, a12, a13, a14, a15, a16, a17)
}

} // verus!
