//! The functions that can be made into an exclusive system.

use crate::system::exclusivesystemparam::{ExclusiveSystemParam, ExclusiveSystemParamItem};
use crate::system::functionsystem::systemparamfunction::{
    call_inner1,
    call_inner2,
    call_inner3,
    call_inner4,
    call_inner5,
    call_inner6,
    call_inner7,
    call_inner8,
    call_inner9,
    call_inner10,
    call_inner11,
    call_inner12,
    call_inner13,
    call_inner14,
    call_inner15,
    call_inner16,
    call_inner17,
    call_inner18,
};
use crate::system::systeminput::SystemInput;
use crate::world::World;
use vstd::prelude::*;

verus! {

/// A function that takes the whole world, and perhaps an input and other
/// arguments.
///
/// `Marker` tells the shapes of function apart: one function can have but one
/// of them.
pub trait ExclusiveSystemParamFunction<Marker>: Sized {
    /// The input of the function.
    type In: SystemInput;

    /// What the function returns.
    type Out;

    /// The arguments besides the world and the input, as one parameter.
    type Param: ExclusiveSystemParam;

    /// Whether the function may be called with `input` and `world`, whatever
    /// else it receives.
    spec fn accepts(&self, input: <Self::In as SystemInput>::Inner<'_>, world: World) -> bool;

    /// Whether the function may return `out` for `input`, the reference
    /// `world` and something else. What the function does to the world it
    /// says of `world`.
    spec fn yields(
        &self,
        input: <Self::In as SystemInput>::Inner<'_>,
        world: &mut World,
        out: Self::Out,
    ) -> bool;

    /// Calls the function once, on `world` itself: what the function leaves
    /// is what `world` holds afterwards.
    fn run(
        &mut self,
        world: &mut World,
        input: <Self::In as SystemInput>::Inner<'_>,
        param_value: ExclusiveSystemParamItem<'_, Self::Param>,
    ) -> (out: Self::Out)
        requires
            old(self).accepts(input, *old(world)),
        ensures
            exists|handed: &mut World|
                {
                    &&& *handed == *old(world)
                    &&& *final(handed) == *final(world)
                    &&& #[trigger] old(self).yields(input, handed, out)
                },
            *final(self) == *old(self),
    ;
}

/// Tells the functions with an input apart from those without.
pub struct HasExclusiveSystemInput;

// The functions of up to sixteen arguments besides the world, without an input
// and with one.

impl<Out, Func> ExclusiveSystemParamFunction<()> for Func where
    Func: Fn(&mut World) -> Out,
 {
    type In = ();

    type Out = Out;

    type Param = ();

    open spec fn accepts(&self, input: (), world: World) -> bool {
        forall|w: &mut World|
            *w == world ==> #[trigger] call_requires(*self, (w,))
    }

    open spec fn yields(&self, input: (), world: &mut World, out: Out) -> bool {
        call_ensures(*self, (world,), out)
    }

    fn run(
        &mut self,
        world: &mut World,
        input: (),
        param_value: ExclusiveSystemParamItem<'_, Self::Param>,
    ) -> (out: Out) {
        let out = call_inner1(&*self, world);
        proof {
            assert(exists|handed: &mut World|
                {
                    &&& *handed == *old(world)
                    &&& *final(handed) == *final(world)
                    &&& #[trigger] call_ensures(*self, (handed,), out)
                });
            let handed = choose|handed: &mut World|
                {
                    &&& *handed == *old(world)
                    &&& *final(handed) == *final(world)
                    &&& #[trigger] call_ensures(*self, (handed,), out)
                };
            assert(self.yields(input, handed, out));
        }
        out
    }
}

impl<In, Out, Func> ExclusiveSystemParamFunction<(HasExclusiveSystemInput, In, ())> for Func where
    Func: Fn(In, &mut World) -> Out + Fn(In::Param<'_>, &mut World) -> Out,
    In: SystemInput,
 {
    type In = In;

    type Out = Out;

    type Param = ();

    open spec fn accepts(&self, input: In::Inner<'_>, world: World) -> bool {
        forall|w: &mut World|
            *w == world ==> #[trigger] call_requires(*self, (In::wrapped(input), w))
    }

    open spec fn yields(&self, input: In::Inner<'_>, world: &mut World, out: Out) -> bool {
        call_ensures(*self, (In::wrapped(input), world), out)
    }

    fn run(
        &mut self,
        world: &mut World,
        input: In::Inner<'_>,
        param_value: ExclusiveSystemParamItem<'_, Self::Param>,
    ) -> (out: Out) {
        let out = call_inner2(&*self, In::wrap(input), world);
        proof {
            assert(exists|handed: &mut World|
                {
                    &&& *handed == *old(world)
                    &&& *final(handed) == *final(world)
                    &&& #[trigger] call_ensures(*self, (In::wrapped(input), handed), out)
                });
            let handed = choose|handed: &mut World|
                {
                    &&& *handed == *old(world)
                    &&& *final(handed) == *final(world)
                    &&& #[trigger] call_ensures(*self, (In::wrapped(input), handed), out)
                };
            assert(self.yields(input, handed, out));
        }
        out
    }
}

impl<Out, Func, T0: ExclusiveSystemParam> ExclusiveSystemParamFunction<(T0,)> for Func where
    Func: Fn(&mut World, T0) -> Out + Fn(&mut World, ExclusiveSystemParamItem<T0>) -> Out,
 {
    type In = ();

    type Out = Out;

    type Param = (T0,);

    open spec fn accepts(&self, input: (), world: World) -> bool {
        forall|w: &mut World, p0: ExclusiveSystemParamItem<'_, T0>|
            *w == world ==> #[trigger] call_requires(*self, (w, p0))
    }

    open spec fn yields(&self, input: (), world: &mut World, out: Out) -> bool {
        exists|p0: ExclusiveSystemParamItem<'_, T0>|
            #[trigger] call_ensures(*self, (world, p0), out)
    }

    fn run(
        &mut self,
        world: &mut World,
        input: (),
        param_value: ExclusiveSystemParamItem<'_, Self::Param>,
    ) -> (out: Out) {
        let (p0,) = param_value;
        let ghost lent = (p0,);
        let out = call_inner2(&*self, world, p0);
        proof {
            assert(exists|handed: &mut World|
                {
                    &&& *handed == *old(world)
                    &&& *final(handed) == *final(world)
                    &&& #[trigger] call_ensures(*self, (handed, lent.0), out)
                });
            let handed = choose|handed: &mut World|
                {
                    &&& *handed == *old(world)
                    &&& *final(handed) == *final(world)
                    &&& #[trigger] call_ensures(*self, (handed, lent.0), out)
                };
            assert(self.yields(input, handed, out));
        }
        out
    }
}

impl<
    In,
    Out,
    Func,
    T0: ExclusiveSystemParam,
> ExclusiveSystemParamFunction<
    (HasExclusiveSystemInput, In, (T0,)),
> for Func where
    Func: Fn(In, &mut World, T0) -> Out
        + Fn(In::Param<'_>, &mut World, ExclusiveSystemParamItem<T0>) -> Out,
    In: SystemInput,
 {
    type In = In;

    type Out = Out;

    type Param = (T0,);

    open spec fn accepts(&self, input: In::Inner<'_>, world: World) -> bool {
        forall|w: &mut World, p0: ExclusiveSystemParamItem<'_, T0>|
            *w == world ==> #[trigger] call_requires(*self, (In::wrapped(input), w, p0))
    }

    open spec fn yields(&self, input: In::Inner<'_>, world: &mut World, out: Out) -> bool {
        exists|p0: ExclusiveSystemParamItem<'_, T0>|
            #[trigger] call_ensures(*self, (In::wrapped(input), world, p0), out)
    }

    fn run(
        &mut self,
        world: &mut World,
        input: In::Inner<'_>,
        param_value: ExclusiveSystemParamItem<'_, Self::Param>,
    ) -> (out: Out) {
        let (p0,) = param_value;
        let ghost lent = (p0,);
        let out = call_inner3(&*self, In::wrap(input), world, p0);
        proof {
            assert(exists|handed: &mut World|
                {
                    &&& *handed == *old(world)
                    &&& *final(handed) == *final(world)
                    &&& #[trigger] call_ensures(*self, (In::wrapped(input), handed, lent.0), out)
                });
            let handed = choose|handed: &mut World|
                {
                    &&& *handed == *old(world)
                    &&& *final(handed) == *final(world)
                    &&& #[trigger] call_ensures(*self, (In::wrapped(input), handed, lent.0), out)
                };
            assert(self.yields(input, handed, out));
        }
        out
    }
}

impl<
    Out,
    Func,
    T0: ExclusiveSystemParam,
    T1: ExclusiveSystemParam,
> ExclusiveSystemParamFunction<
    (T0, T1),
> for Func where
    Func: Fn(&mut World, T0, T1) -> Out
        + Fn(&mut World, ExclusiveSystemParamItem<T0>, ExclusiveSystemParamItem<T1>) -> Out,
 {
    type In = ();

    type Out = Out;

    type Param = (T0, T1);

    open spec fn accepts(&self, input: (), world: World) -> bool {
        forall|
            w: &mut World,
            p0: ExclusiveSystemParamItem<'_, T0>,
            p1: ExclusiveSystemParamItem<'_, T1>,
        |
            *w == world ==> #[trigger] call_requires(*self, (w, p0, p1))
    }

    open spec fn yields(&self, input: (), world: &mut World, out: Out) -> bool {
        exists|p0: ExclusiveSystemParamItem<'_, T0>, p1: ExclusiveSystemParamItem<'_, T1>|
            #[trigger] call_ensures(*self, (world, p0, p1), out)
    }

    fn run(
        &mut self,
        world: &mut World,
        input: (),
        param_value: ExclusiveSystemParamItem<'_, Self::Param>,
    ) -> (out: Out) {
        let (p0, p1) = param_value;
        let ghost lent = (p0, p1);
        let out = call_inner3(&*self, world, p0, p1);
        proof {
            assert(exists|handed: &mut World|
                {
                    &&& *handed == *old(world)
                    &&& *final(handed) == *final(world)
                    &&& #[trigger] call_ensures(*self, (handed, lent.0, lent.1), out)
                });
            let handed = choose|handed: &mut World|
                {
                    &&& *handed == *old(world)
                    &&& *final(handed) == *final(world)
                    &&& #[trigger] call_ensures(*self, (handed, lent.0, lent.1), out)
                };
            assert(self.yields(input, handed, out));
        }
        out
    }
}

impl<
    In,
    Out,
    Func,
    T0: ExclusiveSystemParam,
    T1: ExclusiveSystemParam,
> ExclusiveSystemParamFunction<
    (HasExclusiveSystemInput, In, (T0, T1)),
> for Func where
    Func: Fn(
        In,
        &mut World,
        T0,
        T1,
    ) -> Out + Fn(
        In::Param<'_>,
        &mut World,
        ExclusiveSystemParamItem<T0>,
        ExclusiveSystemParamItem<T1>,
    ) -> Out,
    In: SystemInput,
 {
    type In = In;

    type Out = Out;

    type Param = (T0, T1);

    open spec fn accepts(&self, input: In::Inner<'_>, world: World) -> bool {
        forall|
            w: &mut World,
            p0: ExclusiveSystemParamItem<'_, T0>,
            p1: ExclusiveSystemParamItem<'_, T1>,
        |
            *w == world ==> #[trigger] call_requires(*self, (In::wrapped(input), w, p0, p1))
    }

    open spec fn yields(&self, input: In::Inner<'_>, world: &mut World, out: Out) -> bool {
        exists|p0: ExclusiveSystemParamItem<'_, T0>, p1: ExclusiveSystemParamItem<'_, T1>|
            #[trigger] call_ensures(*self, (In::wrapped(input), world, p0, p1), out)
    }

    fn run(
        &mut self,
        world: &mut World,
        input: In::Inner<'_>,
        param_value: ExclusiveSystemParamItem<'_, Self::Param>,
    ) -> (out: Out) {
        let (p0, p1) = param_value;
        let ghost lent = (p0, p1);
        let out = call_inner4(&*self, In::wrap(input), world, p0, p1);
        proof {
            assert(exists|handed: &mut World|
                {
                    &&& *handed == *old(world)
                    &&& *final(handed) == *final(world)
                    &&& #[trigger] call_ensures(
                        *self,
                        (In::wrapped(input), handed, lent.0, lent.1),
                        out,
                    )
                });
            let handed = choose|handed: &mut World|
                {
                    &&& *handed == *old(world)
                    &&& *final(handed) == *final(world)
                    &&& #[trigger] call_ensures(
                        *self,
                        (In::wrapped(input), handed, lent.0, lent.1),
                        out,
                    )
                };
            assert(self.yields(input, handed, out));
        }
        out
    }
}

impl<
    Out,
    Func,
    T0: ExclusiveSystemParam,
    T1: ExclusiveSystemParam,
    T2: ExclusiveSystemParam,
> ExclusiveSystemParamFunction<
    (T0, T1, T2),
> for Func where
    Func: Fn(
        &mut World,
        T0,
        T1,
        T2,
    ) -> Out + Fn(
        &mut World,
        ExclusiveSystemParamItem<T0>,
        ExclusiveSystemParamItem<T1>,
        ExclusiveSystemParamItem<T2>,
    ) -> Out,
 {
    type In = ();

    type Out = Out;

    type Param = (T0, T1, T2);

    open spec fn accepts(&self, input: (), world: World) -> bool {
        forall|
            w: &mut World,
            p0: ExclusiveSystemParamItem<'_, T0>,
            p1: ExclusiveSystemParamItem<'_, T1>,
            p2: ExclusiveSystemParamItem<'_, T2>,
        |
            *w == world ==> #[trigger] call_requires(*self, (w, p0, p1, p2))
    }

    open spec fn yields(&self, input: (), world: &mut World, out: Out) -> bool {
        exists|
            p0: ExclusiveSystemParamItem<'_, T0>,
            p1: ExclusiveSystemParamItem<'_, T1>,
            p2: ExclusiveSystemParamItem<'_, T2>,
        |
            #[trigger] call_ensures(*self, (world, p0, p1, p2), out)
    }

    fn run(
        &mut self,
        world: &mut World,
        input: (),
        param_value: ExclusiveSystemParamItem<'_, Self::Param>,
    ) -> (out: Out) {
        let (p0, p1, p2) = param_value;
        let ghost lent = (p0, p1, p2);
        let out = call_inner4(&*self, world, p0, p1, p2);
        proof {
            assert(exists|handed: &mut World|
                {
                    &&& *handed == *old(world)
                    &&& *final(handed) == *final(world)
                    &&& #[trigger] call_ensures(*self, (handed, lent.0, lent.1, lent.2), out)
                });
            let handed = choose|handed: &mut World|
                {
                    &&& *handed == *old(world)
                    &&& *final(handed) == *final(world)
                    &&& #[trigger] call_ensures(*self, (handed, lent.0, lent.1, lent.2), out)
                };
            assert(self.yields(input, handed, out));
        }
        out
    }
}

impl<
    In,
    Out,
    Func,
    T0: ExclusiveSystemParam,
    T1: ExclusiveSystemParam,
    T2: ExclusiveSystemParam,
> ExclusiveSystemParamFunction<
    (HasExclusiveSystemInput, In, (T0, T1, T2)),
> for Func where
    Func: Fn(
        In,
        &mut World,
        T0,
        T1,
        T2,
    ) -> Out + Fn(
        In::Param<'_>,
        &mut World,
        ExclusiveSystemParamItem<T0>,
        ExclusiveSystemParamItem<T1>,
        ExclusiveSystemParamItem<T2>,
    ) -> Out,
    In: SystemInput,
 {
    type In = In;

    type Out = Out;

    type Param = (T0, T1, T2);

    open spec fn accepts(&self, input: In::Inner<'_>, world: World) -> bool {
        forall|
            w: &mut World,
            p0: ExclusiveSystemParamItem<'_, T0>,
            p1: ExclusiveSystemParamItem<'_, T1>,
            p2: ExclusiveSystemParamItem<'_, T2>,
        |
            *w == world ==> #[trigger] call_requires(*self, (In::wrapped(input), w, p0, p1, p2))
    }

    open spec fn yields(&self, input: In::Inner<'_>, world: &mut World, out: Out) -> bool {
        exists|
            p0: ExclusiveSystemParamItem<'_, T0>,
            p1: ExclusiveSystemParamItem<'_, T1>,
            p2: ExclusiveSystemParamItem<'_, T2>,
        |
            #[trigger] call_ensures(*self, (In::wrapped(input), world, p0, p1, p2), out)
    }

    fn run(
        &mut self,
        world: &mut World,
        input: In::Inner<'_>,
        param_value: ExclusiveSystemParamItem<'_, Self::Param>,
    ) -> (out: Out) {
        let (p0, p1, p2) = param_value;
        let ghost lent = (p0, p1, p2);
        let out = call_inner5(&*self, In::wrap(input), world, p0, p1, p2);
        proof {
            assert(exists|handed: &mut World|
                {
                    &&& *handed == *old(world)
                    &&& *final(handed) == *final(world)
                    &&& #[trigger] call_ensures(
                        *self,
                        (In::wrapped(input), handed, lent.0, lent.1, lent.2),
                        out,
                    )
                });
            let handed = choose|handed: &mut World|
                {
                    &&& *handed == *old(world)
                    &&& *final(handed) == *final(world)
                    &&& #[trigger] call_ensures(
                        *self,
                        (In::wrapped(input), handed, lent.0, lent.1, lent.2),
                        out,
                    )
                };
            assert(self.yields(input, handed, out));
        }
        out
    }
}

impl<
    Out,
    Func,
    T0: ExclusiveSystemParam,
    T1: ExclusiveSystemParam,
    T2: ExclusiveSystemParam,
    T3: ExclusiveSystemParam,
> ExclusiveSystemParamFunction<
    (T0, T1, T2, T3),
> for Func where
    Func: Fn(
        &mut World,
        T0,
        T1,
        T2,
        T3,
    ) -> Out + Fn(
        &mut World,
        ExclusiveSystemParamItem<T0>,
        ExclusiveSystemParamItem<T1>,
        ExclusiveSystemParamItem<T2>,
        ExclusiveSystemParamItem<T3>,
    ) -> Out,
 {
    type In = ();

    type Out = Out;

    type Param = (T0, T1, T2, T3);

    open spec fn accepts(&self, input: (), world: World) -> bool {
        forall|
            w: &mut World,
            p0: ExclusiveSystemParamItem<'_, T0>,
            p1: ExclusiveSystemParamItem<'_, T1>,
            p2: ExclusiveSystemParamItem<'_, T2>,
            p3: ExclusiveSystemParamItem<'_, T3>,
        |
            *w == world ==> #[trigger] call_requires(*self, (w, p0, p1, p2, p3))
    }

    open spec fn yields(&self, input: (), world: &mut World, out: Out) -> bool {
        exists|
            p0: ExclusiveSystemParamItem<'_, T0>,
            p1: ExclusiveSystemParamItem<'_, T1>,
            p2: ExclusiveSystemParamItem<'_, T2>,
            p3: ExclusiveSystemParamItem<'_, T3>,
        |
            #[trigger] call_ensures(*self, (world, p0, p1, p2, p3), out)
    }

    fn run(
        &mut self,
        world: &mut World,
        input: (),
        param_value: ExclusiveSystemParamItem<'_, Self::Param>,
    ) -> (out: Out) {
        let (p0, p1, p2, p3) = param_value;
        let ghost lent = (p0, p1, p2, p3);
        let out = call_inner5(&*self, world, p0, p1, p2, p3);
        proof {
            assert(exists|handed: &mut World|
                {
                    &&& *handed == *old(world)
                    &&& *final(handed) == *final(world)
                    &&& #[trigger] call_ensures(
                        *self,
                        (handed, lent.0, lent.1, lent.2, lent.3),
                        out,
                    )
                });
            let handed = choose|handed: &mut World|
                {
                    &&& *handed == *old(world)
                    &&& *final(handed) == *final(world)
                    &&& #[trigger] call_ensures(
                        *self,
                        (handed, lent.0, lent.1, lent.2, lent.3),
                        out,
                    )
                };
            assert(self.yields(input, handed, out));
        }
        out
    }
}

impl<
    In,
    Out,
    Func,
    T0: ExclusiveSystemParam,
    T1: ExclusiveSystemParam,
    T2: ExclusiveSystemParam,
    T3: ExclusiveSystemParam,
> ExclusiveSystemParamFunction<
    (HasExclusiveSystemInput, In, (T0, T1, T2, T3)),
> for Func where
    Func: Fn(
        In,
        &mut World,
        T0,
        T1,
        T2,
        T3,
    ) -> Out + Fn(
        In::Param<'_>,
        &mut World,
        ExclusiveSystemParamItem<T0>,
        ExclusiveSystemParamItem<T1>,
        ExclusiveSystemParamItem<T2>,
        ExclusiveSystemParamItem<T3>,
    ) -> Out,
    In: SystemInput,
 {
    type In = In;

    type Out = Out;

    type Param = (T0, T1, T2, T3);

    open spec fn accepts(&self, input: In::Inner<'_>, world: World) -> bool {
        forall|
            w: &mut World,
            p0: ExclusiveSystemParamItem<'_, T0>,
            p1: ExclusiveSystemParamItem<'_, T1>,
            p2: ExclusiveSystemParamItem<'_, T2>,
            p3: ExclusiveSystemParamItem<'_, T3>,
        |
            *w == world ==> #[trigger] call_requires(*self, (In::wrapped(input), w, p0, p1, p2, p3))
    }

    open spec fn yields(&self, input: In::Inner<'_>, world: &mut World, out: Out) -> bool {
        exists|
            p0: ExclusiveSystemParamItem<'_, T0>,
            p1: ExclusiveSystemParamItem<'_, T1>,
            p2: ExclusiveSystemParamItem<'_, T2>,
            p3: ExclusiveSystemParamItem<'_, T3>,
        |
            #[trigger] call_ensures(*self, (In::wrapped(input), world, p0, p1, p2, p3), out)
    }

    fn run(
        &mut self,
        world: &mut World,
        input: In::Inner<'_>,
        param_value: ExclusiveSystemParamItem<'_, Self::Param>,
    ) -> (out: Out) {
        let (p0, p1, p2, p3) = param_value;
        let ghost lent = (p0, p1, p2, p3);
        let out = call_inner6(&*self, In::wrap(input), world, p0, p1, p2, p3);
        proof {
            assert(exists|handed: &mut World|
                {
                    &&& *handed == *old(world)
                    &&& *final(handed) == *final(world)
                    &&& #[trigger] call_ensures(
                        *self,
                        (In::wrapped(input), handed, lent.0, lent.1, lent.2, lent.3),
                        out,
                    )
                });
            let handed = choose|handed: &mut World|
                {
                    &&& *handed == *old(world)
                    &&& *final(handed) == *final(world)
                    &&& #[trigger] call_ensures(
                        *self,
                        (In::wrapped(input), handed, lent.0, lent.1, lent.2, lent.3),
                        out,
                    )
                };
            assert(self.yields(input, handed, out));
        }
        out
    }
}

impl<
    Out,
    Func,
    T0: ExclusiveSystemParam,
    T1: ExclusiveSystemParam,
    T2: ExclusiveSystemParam,
    T3: ExclusiveSystemParam,
    T4: ExclusiveSystemParam,
> ExclusiveSystemParamFunction<
    (T0, T1, T2, T3, T4),
> for Func where
    Func: Fn(
        &mut World,
        T0,
        T1,
        T2,
        T3,
        T4,
    ) -> Out + Fn(
        &mut World,
        ExclusiveSystemParamItem<T0>,
        ExclusiveSystemParamItem<T1>,
        ExclusiveSystemParamItem<T2>,
        ExclusiveSystemParamItem<T3>,
        ExclusiveSystemParamItem<T4>,
    ) -> Out,
 {
    type In = ();

    type Out = Out;

    type Param = (T0, T1, T2, T3, T4);

    open spec fn accepts(&self, input: (), world: World) -> bool {
        forall|
            w: &mut World,
            p0: ExclusiveSystemParamItem<'_, T0>,
            p1: ExclusiveSystemParamItem<'_, T1>,
            p2: ExclusiveSystemParamItem<'_, T2>,
            p3: ExclusiveSystemParamItem<'_, T3>,
            p4: ExclusiveSystemParamItem<'_, T4>,
        |
            *w == world ==> #[trigger] call_requires(*self, (w, p0, p1, p2, p3, p4))
    }

    open spec fn yields(&self, input: (), world: &mut World, out: Out) -> bool {
        exists|
            p0: ExclusiveSystemParamItem<'_, T0>,
            p1: ExclusiveSystemParamItem<'_, T1>,
            p2: ExclusiveSystemParamItem<'_, T2>,
            p3: ExclusiveSystemParamItem<'_, T3>,
            p4: ExclusiveSystemParamItem<'_, T4>,
        |
            #[trigger] call_ensures(*self, (world, p0, p1, p2, p3, p4), out)
    }

    fn run(
        &mut self,
        world: &mut World,
        input: (),
        param_value: ExclusiveSystemParamItem<'_, Self::Param>,
    ) -> (out: Out) {
        let (p0, p1, p2, p3, p4) = param_value;
        let ghost lent = (p0, p1, p2, p3, p4);
        let out = call_inner6(&*self, world, p0, p1, p2, p3, p4);
        proof {
            assert(exists|handed: &mut World|
                {
                    &&& *handed == *old(world)
                    &&& *final(handed) == *final(world)
                    &&& #[trigger] call_ensures(
                        *self,
                        (handed, lent.0, lent.1, lent.2, lent.3, lent.4),
                        out,
                    )
                });
            let handed = choose|handed: &mut World|
                {
                    &&& *handed == *old(world)
                    &&& *final(handed) == *final(world)
                    &&& #[trigger] call_ensures(
                        *self,
                        (handed, lent.0, lent.1, lent.2, lent.3, lent.4),
                        out,
                    )
                };
            assert(self.yields(input, handed, out));
        }
        out
    }
}

impl<
    In,
    Out,
    Func,
    T0: ExclusiveSystemParam,
    T1: ExclusiveSystemParam,
    T2: ExclusiveSystemParam,
    T3: ExclusiveSystemParam,
    T4: ExclusiveSystemParam,
> ExclusiveSystemParamFunction<
    (HasExclusiveSystemInput, In, (T0, T1, T2, T3, T4)),
> for Func where
    Func: Fn(
        In,
        &mut World,
        T0,
        T1,
        T2,
        T3,
        T4,
    ) -> Out + Fn(
        In::Param<'_>,
        &mut World,
        ExclusiveSystemParamItem<T0>,
        ExclusiveSystemParamItem<T1>,
        ExclusiveSystemParamItem<T2>,
        ExclusiveSystemParamItem<T3>,
        ExclusiveSystemParamItem<T4>,
    ) -> Out,
    In: SystemInput,
 {
    type In = In;

    type Out = Out;

    type Param = (T0, T1, T2, T3, T4);

    open spec fn accepts(&self, input: In::Inner<'_>, world: World) -> bool {
        forall|
            w: &mut World,
            p0: ExclusiveSystemParamItem<'_, T0>,
            p1: ExclusiveSystemParamItem<'_, T1>,
            p2: ExclusiveSystemParamItem<'_, T2>,
            p3: ExclusiveSystemParamItem<'_, T3>,
            p4: ExclusiveSystemParamItem<'_, T4>,
        |
            *w == world ==> #[trigger] call_requires(
                *self,
                (In::wrapped(input), w, p0, p1, p2, p3, p4),
            )
    }

    open spec fn yields(&self, input: In::Inner<'_>, world: &mut World, out: Out) -> bool {
        exists|
            p0: ExclusiveSystemParamItem<'_, T0>,
            p1: ExclusiveSystemParamItem<'_, T1>,
            p2: ExclusiveSystemParamItem<'_, T2>,
            p3: ExclusiveSystemParamItem<'_, T3>,
            p4: ExclusiveSystemParamItem<'_, T4>,
        |
            #[trigger] call_ensures(*self, (In::wrapped(input), world, p0, p1, p2, p3, p4), out)
    }

    fn run(
        &mut self,
        world: &mut World,
        input: In::Inner<'_>,
        param_value: ExclusiveSystemParamItem<'_, Self::Param>,
    ) -> (out: Out) {
        let (p0, p1, p2, p3, p4) = param_value;
        let ghost lent = (p0, p1, p2, p3, p4);
        let out = call_inner7(&*self, In::wrap(input), world, p0, p1, p2, p3, p4);
        proof {
            assert(exists|handed: &mut World|
                {
                    &&& *handed == *old(world)
                    &&& *final(handed) == *final(world)
                    &&& #[trigger] call_ensures(
                        *self,
                        (In::wrapped(input), handed, lent.0, lent.1, lent.2, lent.3, lent.4),
                        out,
                    )
                });
            let handed = choose|handed: &mut World|
                {
                    &&& *handed == *old(world)
                    &&& *final(handed) == *final(world)
                    &&& #[trigger] call_ensures(
                        *self,
                        (In::wrapped(input), handed, lent.0, lent.1, lent.2, lent.3, lent.4),
                        out,
                    )
                };
            assert(self.yields(input, handed, out));
        }
        out
    }
}

impl<
    Out,
    Func,
    T0: ExclusiveSystemParam,
    T1: ExclusiveSystemParam,
    T2: ExclusiveSystemParam,
    T3: ExclusiveSystemParam,
    T4: ExclusiveSystemParam,
    T5: ExclusiveSystemParam,
> ExclusiveSystemParamFunction<
    (T0, T1, T2, T3, T4, T5),
> for Func where
    Func: Fn(
        &mut World,
        T0,
        T1,
        T2,
        T3,
        T4,
        T5,
    ) -> Out + Fn(
        &mut World,
        ExclusiveSystemParamItem<T0>,
        ExclusiveSystemParamItem<T1>,
        ExclusiveSystemParamItem<T2>,
        ExclusiveSystemParamItem<T3>,
        ExclusiveSystemParamItem<T4>,
        ExclusiveSystemParamItem<T5>,
    ) -> Out,
 {
    type In = ();

    type Out = Out;

    type Param = (T0, T1, T2, T3, T4, T5);

    open spec fn accepts(&self, input: (), world: World) -> bool {
        forall|
            w: &mut World,
            p0: ExclusiveSystemParamItem<'_, T0>,
            p1: ExclusiveSystemParamItem<'_, T1>,
            p2: ExclusiveSystemParamItem<'_, T2>,
            p3: ExclusiveSystemParamItem<'_, T3>,
            p4: ExclusiveSystemParamItem<'_, T4>,
            p5: ExclusiveSystemParamItem<'_, T5>,
        |
            *w == world ==> #[trigger] call_requires(*self, (w, p0, p1, p2, p3, p4, p5))
    }

    open spec fn yields(&self, input: (), world: &mut World, out: Out) -> bool {
        exists|
            p0: ExclusiveSystemParamItem<'_, T0>,
            p1: ExclusiveSystemParamItem<'_, T1>,
            p2: ExclusiveSystemParamItem<'_, T2>,
            p3: ExclusiveSystemParamItem<'_, T3>,
            p4: ExclusiveSystemParamItem<'_, T4>,
            p5: ExclusiveSystemParamItem<'_, T5>,
        |
            #[trigger] call_ensures(*self, (world, p0, p1, p2, p3, p4, p5), out)
    }

    fn run(
        &mut self,
        world: &mut World,
        input: (),
        param_value: ExclusiveSystemParamItem<'_, Self::Param>,
    ) -> (out: Out) {
        let (p0, p1, p2, p3, p4, p5) = param_value;
        let ghost lent = (p0, p1, p2, p3, p4, p5);
        let out = call_inner7(&*self, world, p0, p1, p2, p3, p4, p5);
        proof {
            assert(exists|handed: &mut World|
                {
                    &&& *handed == *old(world)
                    &&& *final(handed) == *final(world)
                    &&& #[trigger] call_ensures(
                        *self,
                        (handed, lent.0, lent.1, lent.2, lent.3, lent.4, lent.5),
                        out,
                    )
                });
            let handed = choose|handed: &mut World|
                {
                    &&& *handed == *old(world)
                    &&& *final(handed) == *final(world)
                    &&& #[trigger] call_ensures(
                        *self,
                        (handed, lent.0, lent.1, lent.2, lent.3, lent.4, lent.5),
                        out,
                    )
                };
            assert(self.yields(input, handed, out));
        }
        out
    }
}

impl<
    In,
    Out,
    Func,
    T0: ExclusiveSystemParam,
    T1: ExclusiveSystemParam,
    T2: ExclusiveSystemParam,
    T3: ExclusiveSystemParam,
    T4: ExclusiveSystemParam,
    T5: ExclusiveSystemParam,
> ExclusiveSystemParamFunction<
    (HasExclusiveSystemInput, In, (T0, T1, T2, T3, T4, T5)),
> for Func where
    Func: Fn(
        In,
        &mut World,
        T0,
        T1,
        T2,
        T3,
        T4,
        T5,
    ) -> Out + Fn(
        In::Param<'_>,
        &mut World,
        ExclusiveSystemParamItem<T0>,
        ExclusiveSystemParamItem<T1>,
        ExclusiveSystemParamItem<T2>,
        ExclusiveSystemParamItem<T3>,
        ExclusiveSystemParamItem<T4>,
        ExclusiveSystemParamItem<T5>,
    ) -> Out,
    In: SystemInput,
 {
    type In = In;

    type Out = Out;

    type Param = (T0, T1, T2, T3, T4, T5);

    open spec fn accepts(&self, input: In::Inner<'_>, world: World) -> bool {
        forall|
            w: &mut World,
            p0: ExclusiveSystemParamItem<'_, T0>,
            p1: ExclusiveSystemParamItem<'_, T1>,
            p2: ExclusiveSystemParamItem<'_, T2>,
            p3: ExclusiveSystemParamItem<'_, T3>,
            p4: ExclusiveSystemParamItem<'_, T4>,
            p5: ExclusiveSystemParamItem<'_, T5>,
        |
            *w == world ==> #[trigger] call_requires(
                *self,
                (In::wrapped(input), w, p0, p1, p2, p3, p4, p5),
            )
    }

    open spec fn yields(&self, input: In::Inner<'_>, world: &mut World, out: Out) -> bool {
        exists|
            p0: ExclusiveSystemParamItem<'_, T0>,
            p1: ExclusiveSystemParamItem<'_, T1>,
            p2: ExclusiveSystemParamItem<'_, T2>,
            p3: ExclusiveSystemParamItem<'_, T3>,
            p4: ExclusiveSystemParamItem<'_, T4>,
            p5: ExclusiveSystemParamItem<'_, T5>,
        |
            #[trigger] call_ensures(*self, (In::wrapped(input), world, p0, p1, p2, p3, p4, p5), out)
    }

    fn run(
        &mut self,
        world: &mut World,
        input: In::Inner<'_>,
        param_value: ExclusiveSystemParamItem<'_, Self::Param>,
    ) -> (out: Out) {
        let (p0, p1, p2, p3, p4, p5) = param_value;
        let ghost lent = (p0, p1, p2, p3, p4, p5);
        let out = call_inner8(&*self, In::wrap(input), world, p0, p1, p2, p3, p4, p5);
        proof {
            assert(exists|handed: &mut World|
                {
                    &&& *handed == *old(world)
                    &&& *final(handed) == *final(world)
                    &&& #[trigger] call_ensures(
                        *self,
                        (
                            In::wrapped(input),
                            handed,
                            lent.0,
                            lent.1,
                            lent.2,
                            lent.3,
                            lent.4,
                            lent.5,
                        ),
                        out,
                    )
                });
            let handed = choose|handed: &mut World|
                {
                    &&& *handed == *old(world)
                    &&& *final(handed) == *final(world)
                    &&& #[trigger] call_ensures(
                        *self,
                        (
                            In::wrapped(input),
                            handed,
                            lent.0,
                            lent.1,
                            lent.2,
                            lent.3,
                            lent.4,
                            lent.5,
                        ),
                        out,
                    )
                };
            assert(self.yields(input, handed, out));
        }
        out
    }
}

impl<
    Out,
    Func,
    T0: ExclusiveSystemParam,
    T1: ExclusiveSystemParam,
    T2: ExclusiveSystemParam,
    T3: ExclusiveSystemParam,
    T4: ExclusiveSystemParam,
    T5: ExclusiveSystemParam,
    T6: ExclusiveSystemParam,
> ExclusiveSystemParamFunction<
    (T0, T1, T2, T3, T4, T5, T6),
> for Func where
    Func: Fn(
        &mut World,
        T0,
        T1,
        T2,
        T3,
        T4,
        T5,
        T6,
    ) -> Out + Fn(
        &mut World,
        ExclusiveSystemParamItem<T0>,
        ExclusiveSystemParamItem<T1>,
        ExclusiveSystemParamItem<T2>,
        ExclusiveSystemParamItem<T3>,
        ExclusiveSystemParamItem<T4>,
        ExclusiveSystemParamItem<T5>,
        ExclusiveSystemParamItem<T6>,
    ) -> Out,
 {
    type In = ();

    type Out = Out;

    type Param = (T0, T1, T2, T3, T4, T5, T6);

    open spec fn accepts(&self, input: (), world: World) -> bool {
        forall|
            w: &mut World,
            p0: ExclusiveSystemParamItem<'_, T0>,
            p1: ExclusiveSystemParamItem<'_, T1>,
            p2: ExclusiveSystemParamItem<'_, T2>,
            p3: ExclusiveSystemParamItem<'_, T3>,
            p4: ExclusiveSystemParamItem<'_, T4>,
            p5: ExclusiveSystemParamItem<'_, T5>,
            p6: ExclusiveSystemParamItem<'_, T6>,
        |
            *w == world ==> #[trigger] call_requires(*self, (w, p0, p1, p2, p3, p4, p5, p6))
    }

    open spec fn yields(&self, input: (), world: &mut World, out: Out) -> bool {
        exists|
            p0: ExclusiveSystemParamItem<'_, T0>,
            p1: ExclusiveSystemParamItem<'_, T1>,
            p2: ExclusiveSystemParamItem<'_, T2>,
            p3: ExclusiveSystemParamItem<'_, T3>,
            p4: ExclusiveSystemParamItem<'_, T4>,
            p5: ExclusiveSystemParamItem<'_, T5>,
            p6: ExclusiveSystemParamItem<'_, T6>,
        |
            #[trigger] call_ensures(*self, (world, p0, p1, p2, p3, p4, p5, p6), out)
    }

    fn run(
        &mut self,
        world: &mut World,
        input: (),
        param_value: ExclusiveSystemParamItem<'_, Self::Param>,
    ) -> (out: Out) {
        let (p0, p1, p2, p3, p4, p5, p6) = param_value;
        let ghost lent = (p0, p1, p2, p3, p4, p5, p6);
        let out = call_inner8(&*self, world, p0, p1, p2, p3, p4, p5, p6);
        proof {
            assert(exists|handed: &mut World|
                {
                    &&& *handed == *old(world)
                    &&& *final(handed) == *final(world)
                    &&& #[trigger] call_ensures(
                        *self,
                        (handed, lent.0, lent.1, lent.2, lent.3, lent.4, lent.5, lent.6),
                        out,
                    )
                });
            let handed = choose|handed: &mut World|
                {
                    &&& *handed == *old(world)
                    &&& *final(handed) == *final(world)
                    &&& #[trigger] call_ensures(
                        *self,
                        (handed, lent.0, lent.1, lent.2, lent.3, lent.4, lent.5, lent.6),
                        out,
                    )
                };
            assert(self.yields(input, handed, out));
        }
        out
    }
}

impl<
    In,
    Out,
    Func,
    T0: ExclusiveSystemParam,
    T1: ExclusiveSystemParam,
    T2: ExclusiveSystemParam,
    T3: ExclusiveSystemParam,
    T4: ExclusiveSystemParam,
    T5: ExclusiveSystemParam,
    T6: ExclusiveSystemParam,
> ExclusiveSystemParamFunction<
    (HasExclusiveSystemInput, In, (T0, T1, T2, T3, T4, T5, T6)),
> for Func where
    Func: Fn(
        In,
        &mut World,
        T0,
        T1,
        T2,
        T3,
        T4,
        T5,
        T6,
    ) -> Out + Fn(
        In::Param<'_>,
        &mut World,
        ExclusiveSystemParamItem<T0>,
        ExclusiveSystemParamItem<T1>,
        ExclusiveSystemParamItem<T2>,
        ExclusiveSystemParamItem<T3>,
        ExclusiveSystemParamItem<T4>,
        ExclusiveSystemParamItem<T5>,
        ExclusiveSystemParamItem<T6>,
    ) -> Out,
    In: SystemInput,
 {
    type In = In;

    type Out = Out;

    type Param = (T0, T1, T2, T3, T4, T5, T6);

    open spec fn accepts(&self, input: In::Inner<'_>, world: World) -> bool {
        forall|
            w: &mut World,
            p0: ExclusiveSystemParamItem<'_, T0>,
            p1: ExclusiveSystemParamItem<'_, T1>,
            p2: ExclusiveSystemParamItem<'_, T2>,
            p3: ExclusiveSystemParamItem<'_, T3>,
            p4: ExclusiveSystemParamItem<'_, T4>,
            p5: ExclusiveSystemParamItem<'_, T5>,
            p6: ExclusiveSystemParamItem<'_, T6>,
        |
            *w == world ==> #[trigger] call_requires(
                *self,
                (In::wrapped(input), w, p0, p1, p2, p3, p4, p5, p6),
            )
    }

    open spec fn yields(&self, input: In::Inner<'_>, world: &mut World, out: Out) -> bool {
        exists|
            p0: ExclusiveSystemParamItem<'_, T0>,
            p1: ExclusiveSystemParamItem<'_, T1>,
            p2: ExclusiveSystemParamItem<'_, T2>,
            p3: ExclusiveSystemParamItem<'_, T3>,
            p4: ExclusiveSystemParamItem<'_, T4>,
            p5: ExclusiveSystemParamItem<'_, T5>,
            p6: ExclusiveSystemParamItem<'_, T6>,
        |
            #[trigger] call_ensures(
                *self,
                (In::wrapped(input), world, p0, p1, p2, p3, p4, p5, p6),
                out,
            )
    }

    fn run(
        &mut self,
        world: &mut World,
        input: In::Inner<'_>,
        param_value: ExclusiveSystemParamItem<'_, Self::Param>,
    ) -> (out: Out) {
        let (p0, p1, p2, p3, p4, p5, p6) = param_value;
        let ghost lent = (p0, p1, p2, p3, p4, p5, p6);
        let out = call_inner9(&*self, In::wrap(input), world, p0, p1, p2, p3, p4, p5, p6);
        proof {
            assert(exists|handed: &mut World|
                {
                    &&& *handed == *old(world)
                    &&& *final(handed) == *final(world)
                    &&& #[trigger] call_ensures(
                        *self,
                        (
                            In::wrapped(input),
                            handed,
                            lent.0,
                            lent.1,
                            lent.2,
                            lent.3,
                            lent.4,
                            lent.5,
                            lent.6,
                        ),
                        out,
                    )
                });
            let handed = choose|handed: &mut World|
                {
                    &&& *handed == *old(world)
                    &&& *final(handed) == *final(world)
                    &&& #[trigger] call_ensures(
                        *self,
                        (
                            In::wrapped(input),
                            handed,
                            lent.0,
                            lent.1,
                            lent.2,
                            lent.3,
                            lent.4,
                            lent.5,
                            lent.6,
                        ),
                        out,
                    )
                };
            assert(self.yields(input, handed, out));
        }
        out
    }
}

impl<
    Out,
    Func,
    T0: ExclusiveSystemParam,
    T1: ExclusiveSystemParam,
    T2: ExclusiveSystemParam,
    T3: ExclusiveSystemParam,
    T4: ExclusiveSystemParam,
    T5: ExclusiveSystemParam,
    T6: ExclusiveSystemParam,
    T7: ExclusiveSystemParam,
> ExclusiveSystemParamFunction<
    (T0, T1, T2, T3, T4, T5, T6, T7),
> for Func where
    Func: Fn(
        &mut World,
        T0,
        T1,
        T2,
        T3,
        T4,
        T5,
        T6,
        T7,
    ) -> Out + Fn(
        &mut World,
        ExclusiveSystemParamItem<T0>,
        ExclusiveSystemParamItem<T1>,
        ExclusiveSystemParamItem<T2>,
        ExclusiveSystemParamItem<T3>,
        ExclusiveSystemParamItem<T4>,
        ExclusiveSystemParamItem<T5>,
        ExclusiveSystemParamItem<T6>,
        ExclusiveSystemParamItem<T7>,
    ) -> Out,
 {
    type In = ();

    type Out = Out;

    type Param = (T0, T1, T2, T3, T4, T5, T6, T7);

    open spec fn accepts(&self, input: (), world: World) -> bool {
        forall|
            w: &mut World,
            p0: ExclusiveSystemParamItem<'_, T0>,
            p1: ExclusiveSystemParamItem<'_, T1>,
            p2: ExclusiveSystemParamItem<'_, T2>,
            p3: ExclusiveSystemParamItem<'_, T3>,
            p4: ExclusiveSystemParamItem<'_, T4>,
            p5: ExclusiveSystemParamItem<'_, T5>,
            p6: ExclusiveSystemParamItem<'_, T6>,
            p7: ExclusiveSystemParamItem<'_, T7>,
        |
            *w == world ==> #[trigger] call_requires(*self, (w, p0, p1, p2, p3, p4, p5, p6, p7))
    }

    open spec fn yields(&self, input: (), world: &mut World, out: Out) -> bool {
        exists|
            p0: ExclusiveSystemParamItem<'_, T0>,
            p1: ExclusiveSystemParamItem<'_, T1>,
            p2: ExclusiveSystemParamItem<'_, T2>,
            p3: ExclusiveSystemParamItem<'_, T3>,
            p4: ExclusiveSystemParamItem<'_, T4>,
            p5: ExclusiveSystemParamItem<'_, T5>,
            p6: ExclusiveSystemParamItem<'_, T6>,
            p7: ExclusiveSystemParamItem<'_, T7>,
        |
            #[trigger] call_ensures(*self, (world, p0, p1, p2, p3, p4, p5, p6, p7), out)
    }

    fn run(
        &mut self,
        world: &mut World,
        input: (),
        param_value: ExclusiveSystemParamItem<'_, Self::Param>,
    ) -> (out: Out) {
        let (p0, p1, p2, p3, p4, p5, p6, p7) = param_value;
        let ghost lent = (p0, p1, p2, p3, p4, p5, p6, p7);
        let out = call_inner9(&*self, world, p0, p1, p2, p3, p4, p5, p6, p7);
        proof {
            assert(exists|handed: &mut World|
                {
                    &&& *handed == *old(world)
                    &&& *final(handed) == *final(world)
                    &&& #[trigger] call_ensures(
                        *self,
                        (handed, lent.0, lent.1, lent.2, lent.3, lent.4, lent.5, lent.6, lent.7),
                        out,
                    )
                });
            let handed = choose|handed: &mut World|
                {
                    &&& *handed == *old(world)
                    &&& *final(handed) == *final(world)
                    &&& #[trigger] call_ensures(
                        *self,
                        (handed, lent.0, lent.1, lent.2, lent.3, lent.4, lent.5, lent.6, lent.7),
                        out,
                    )
                };
            assert(self.yields(input, handed, out));
        }
        out
    }
}

impl<
    In,
    Out,
    Func,
    T0: ExclusiveSystemParam,
    T1: ExclusiveSystemParam,
    T2: ExclusiveSystemParam,
    T3: ExclusiveSystemParam,
    T4: ExclusiveSystemParam,
    T5: ExclusiveSystemParam,
    T6: ExclusiveSystemParam,
    T7: ExclusiveSystemParam,
> ExclusiveSystemParamFunction<
    (HasExclusiveSystemInput, In, (T0, T1, T2, T3, T4, T5, T6, T7)),
> for Func where
    Func: Fn(
        In,
        &mut World,
        T0,
        T1,
        T2,
        T3,
        T4,
        T5,
        T6,
        T7,
    ) -> Out + Fn(
        In::Param<'_>,
        &mut World,
        ExclusiveSystemParamItem<T0>,
        ExclusiveSystemParamItem<T1>,
        ExclusiveSystemParamItem<T2>,
        ExclusiveSystemParamItem<T3>,
        ExclusiveSystemParamItem<T4>,
        ExclusiveSystemParamItem<T5>,
        ExclusiveSystemParamItem<T6>,
        ExclusiveSystemParamItem<T7>,
    ) -> Out,
    In: SystemInput,
 {
    type In = In;

    type Out = Out;

    type Param = (T0, T1, T2, T3, T4, T5, T6, T7);

    open spec fn accepts(&self, input: In::Inner<'_>, world: World) -> bool {
        forall|
            w: &mut World,
            p0: ExclusiveSystemParamItem<'_, T0>,
            p1: ExclusiveSystemParamItem<'_, T1>,
            p2: ExclusiveSystemParamItem<'_, T2>,
            p3: ExclusiveSystemParamItem<'_, T3>,
            p4: ExclusiveSystemParamItem<'_, T4>,
            p5: ExclusiveSystemParamItem<'_, T5>,
            p6: ExclusiveSystemParamItem<'_, T6>,
            p7: ExclusiveSystemParamItem<'_, T7>,
        |
            *w == world ==> #[trigger] call_requires(
                *self,
                (In::wrapped(input), w, p0, p1, p2, p3, p4, p5, p6, p7),
            )
    }

    open spec fn yields(&self, input: In::Inner<'_>, world: &mut World, out: Out) -> bool {
        exists|
            p0: ExclusiveSystemParamItem<'_, T0>,
            p1: ExclusiveSystemParamItem<'_, T1>,
            p2: ExclusiveSystemParamItem<'_, T2>,
            p3: ExclusiveSystemParamItem<'_, T3>,
            p4: ExclusiveSystemParamItem<'_, T4>,
            p5: ExclusiveSystemParamItem<'_, T5>,
            p6: ExclusiveSystemParamItem<'_, T6>,
            p7: ExclusiveSystemParamItem<'_, T7>,
        |
            #[trigger] call_ensures(
                *self,
                (In::wrapped(input), world, p0, p1, p2, p3, p4, p5, p6, p7),
                out,
            )
    }

    fn run(
        &mut self,
        world: &mut World,
        input: In::Inner<'_>,
        param_value: ExclusiveSystemParamItem<'_, Self::Param>,
    ) -> (out: Out) {
        let (p0, p1, p2, p3, p4, p5, p6, p7) = param_value;
        let ghost lent = (p0, p1, p2, p3, p4, p5, p6, p7);
        let out = call_inner10(&*self, In::wrap(input), world, p0, p1, p2, p3, p4, p5, p6, p7);
        proof {
            assert(exists|handed: &mut World|
                {
                    &&& *handed == *old(world)
                    &&& *final(handed) == *final(world)
                    &&& #[trigger] call_ensures(
                        *self,
                        (
                            In::wrapped(input),
                            handed,
                            lent.0,
                            lent.1,
                            lent.2,
                            lent.3,
                            lent.4,
                            lent.5,
                            lent.6,
                            lent.7,
                        ),
                        out,
                    )
                });
            let handed = choose|handed: &mut World|
                {
                    &&& *handed == *old(world)
                    &&& *final(handed) == *final(world)
                    &&& #[trigger] call_ensures(
                        *self,
                        (
                            In::wrapped(input),
                            handed,
                            lent.0,
                            lent.1,
                            lent.2,
                            lent.3,
                            lent.4,
                            lent.5,
                            lent.6,
                            lent.7,
                        ),
                        out,
                    )
                };
            assert(self.yields(input, handed, out));
        }
        out
    }
}

impl<
    Out,
    Func,
    T0: ExclusiveSystemParam,
    T1: ExclusiveSystemParam,
    T2: ExclusiveSystemParam,
    T3: ExclusiveSystemParam,
    T4: ExclusiveSystemParam,
    T5: ExclusiveSystemParam,
    T6: ExclusiveSystemParam,
    T7: ExclusiveSystemParam,
    T8: ExclusiveSystemParam,
> ExclusiveSystemParamFunction<
    (T0, T1, T2, T3, T4, T5, T6, T7, T8),
> for Func where
    Func: Fn(
        &mut World,
        T0,
        T1,
        T2,
        T3,
        T4,
        T5,
        T6,
        T7,
        T8,
    ) -> Out + Fn(
        &mut World,
        ExclusiveSystemParamItem<T0>,
        ExclusiveSystemParamItem<T1>,
        ExclusiveSystemParamItem<T2>,
        ExclusiveSystemParamItem<T3>,
        ExclusiveSystemParamItem<T4>,
        ExclusiveSystemParamItem<T5>,
        ExclusiveSystemParamItem<T6>,
        ExclusiveSystemParamItem<T7>,
        ExclusiveSystemParamItem<T8>,
    ) -> Out,
 {
    type In = ();

    type Out = Out;

    type Param = (T0, T1, T2, T3, T4, T5, T6, T7, T8);

    open spec fn accepts(&self, input: (), world: World) -> bool {
        forall|
            w: &mut World,
            p0: ExclusiveSystemParamItem<'_, T0>,
            p1: ExclusiveSystemParamItem<'_, T1>,
            p2: ExclusiveSystemParamItem<'_, T2>,
            p3: ExclusiveSystemParamItem<'_, T3>,
            p4: ExclusiveSystemParamItem<'_, T4>,
            p5: ExclusiveSystemParamItem<'_, T5>,
            p6: ExclusiveSystemParamItem<'_, T6>,
            p7: ExclusiveSystemParamItem<'_, T7>,
            p8: ExclusiveSystemParamItem<'_, T8>,
        |
            *w == world ==> #[trigger] call_requires(*self, (w, p0, p1, p2, p3, p4, p5, p6, p7, p8))
    }

    open spec fn yields(&self, input: (), world: &mut World, out: Out) -> bool {
        exists|
            p0: ExclusiveSystemParamItem<'_, T0>,
            p1: ExclusiveSystemParamItem<'_, T1>,
            p2: ExclusiveSystemParamItem<'_, T2>,
            p3: ExclusiveSystemParamItem<'_, T3>,
            p4: ExclusiveSystemParamItem<'_, T4>,
            p5: ExclusiveSystemParamItem<'_, T5>,
            p6: ExclusiveSystemParamItem<'_, T6>,
            p7: ExclusiveSystemParamItem<'_, T7>,
            p8: ExclusiveSystemParamItem<'_, T8>,
        |
            #[trigger] call_ensures(*self, (world, p0, p1, p2, p3, p4, p5, p6, p7, p8), out)
    }

    fn run(
        &mut self,
        world: &mut World,
        input: (),
        param_value: ExclusiveSystemParamItem<'_, Self::Param>,
    ) -> (out: Out) {
        let (p0, p1, p2, p3, p4, p5, p6, p7, p8) = param_value;
        let ghost lent = (p0, p1, p2, p3, p4, p5, p6, p7, p8);
        let out = call_inner10(&*self, world, p0, p1, p2, p3, p4, p5, p6, p7, p8);
        proof {
            assert(exists|handed: &mut World|
                {
                    &&& *handed == *old(world)
                    &&& *final(handed) == *final(world)
                    &&& #[trigger] call_ensures(
                        *self,
                        (
                            handed,
                            lent.0,
                            lent.1,
                            lent.2,
                            lent.3,
                            lent.4,
                            lent.5,
                            lent.6,
                            lent.7,
                            lent.8,
                        ),
                        out,
                    )
                });
            let handed = choose|handed: &mut World|
                {
                    &&& *handed == *old(world)
                    &&& *final(handed) == *final(world)
                    &&& #[trigger] call_ensures(
                        *self,
                        (
                            handed,
                            lent.0,
                            lent.1,
                            lent.2,
                            lent.3,
                            lent.4,
                            lent.5,
                            lent.6,
                            lent.7,
                            lent.8,
                        ),
                        out,
                    )
                };
            assert(self.yields(input, handed, out));
        }
        out
    }
}

impl<
    In,
    Out,
    Func,
    T0: ExclusiveSystemParam,
    T1: ExclusiveSystemParam,
    T2: ExclusiveSystemParam,
    T3: ExclusiveSystemParam,
    T4: ExclusiveSystemParam,
    T5: ExclusiveSystemParam,
    T6: ExclusiveSystemParam,
    T7: ExclusiveSystemParam,
    T8: ExclusiveSystemParam,
> ExclusiveSystemParamFunction<
    (HasExclusiveSystemInput, In, (T0, T1, T2, T3, T4, T5, T6, T7, T8)),
> for Func where
    Func: Fn(
        In,
        &mut World,
        T0,
        T1,
        T2,
        T3,
        T4,
        T5,
        T6,
        T7,
        T8,
    ) -> Out + Fn(
        In::Param<'_>,
        &mut World,
        ExclusiveSystemParamItem<T0>,
        ExclusiveSystemParamItem<T1>,
        ExclusiveSystemParamItem<T2>,
        ExclusiveSystemParamItem<T3>,
        ExclusiveSystemParamItem<T4>,
        ExclusiveSystemParamItem<T5>,
        ExclusiveSystemParamItem<T6>,
        ExclusiveSystemParamItem<T7>,
        ExclusiveSystemParamItem<T8>,
    ) -> Out,
    In: SystemInput,
 {
    type In = In;

    type Out = Out;

    type Param = (T0, T1, T2, T3, T4, T5, T6, T7, T8);

    open spec fn accepts(&self, input: In::Inner<'_>, world: World) -> bool {
        forall|
            w: &mut World,
            p0: ExclusiveSystemParamItem<'_, T0>,
            p1: ExclusiveSystemParamItem<'_, T1>,
            p2: ExclusiveSystemParamItem<'_, T2>,
            p3: ExclusiveSystemParamItem<'_, T3>,
            p4: ExclusiveSystemParamItem<'_, T4>,
            p5: ExclusiveSystemParamItem<'_, T5>,
            p6: ExclusiveSystemParamItem<'_, T6>,
            p7: ExclusiveSystemParamItem<'_, T7>,
            p8: ExclusiveSystemParamItem<'_, T8>,
        |
            *w == world ==> #[trigger] call_requires(
                *self,
                (In::wrapped(input), w, p0, p1, p2, p3, p4, p5, p6, p7, p8),
            )
    }

    open spec fn yields(&self, input: In::Inner<'_>, world: &mut World, out: Out) -> bool {
        exists|
            p0: ExclusiveSystemParamItem<'_, T0>,
            p1: ExclusiveSystemParamItem<'_, T1>,
            p2: ExclusiveSystemParamItem<'_, T2>,
            p3: ExclusiveSystemParamItem<'_, T3>,
            p4: ExclusiveSystemParamItem<'_, T4>,
            p5: ExclusiveSystemParamItem<'_, T5>,
            p6: ExclusiveSystemParamItem<'_, T6>,
            p7: ExclusiveSystemParamItem<'_, T7>,
            p8: ExclusiveSystemParamItem<'_, T8>,
        |
            #[trigger] call_ensures(
                *self,
                (In::wrapped(input), world, p0, p1, p2, p3, p4, p5, p6, p7, p8),
                out,
            )
    }

    fn run(
        &mut self,
        world: &mut World,
        input: In::Inner<'_>,
        param_value: ExclusiveSystemParamItem<'_, Self::Param>,
    ) -> (out: Out) {
        let (p0, p1, p2, p3, p4, p5, p6, p7, p8) = param_value;
        let ghost lent = (p0, p1, p2, p3, p4, p5, p6, p7, p8);
        let out = call_inner11(&*self, In::wrap(input), world, p0, p1, p2, p3, p4, p5, p6, p7, p8);
        proof {
            assert(exists|handed: &mut World|
                {
                    &&& *handed == *old(world)
                    &&& *final(handed) == *final(world)
                    &&& #[trigger] call_ensures(
                        *self,
                        (
                            In::wrapped(input),
                            handed,
                            lent.0,
                            lent.1,
                            lent.2,
                            lent.3,
                            lent.4,
                            lent.5,
                            lent.6,
                            lent.7,
                            lent.8,
                        ),
                        out,
                    )
                });
            let handed = choose|handed: &mut World|
                {
                    &&& *handed == *old(world)
                    &&& *final(handed) == *final(world)
                    &&& #[trigger] call_ensures(
                        *self,
                        (
                            In::wrapped(input),
                            handed,
                            lent.0,
                            lent.1,
                            lent.2,
                            lent.3,
                            lent.4,
                            lent.5,
                            lent.6,
                            lent.7,
                            lent.8,
                        ),
                        out,
                    )
                };
            assert(self.yields(input, handed, out));
        }
        out
    }
}

impl<
    Out,
    Func,
    T0: ExclusiveSystemParam,
    T1: ExclusiveSystemParam,
    T2: ExclusiveSystemParam,
    T3: ExclusiveSystemParam,
    T4: ExclusiveSystemParam,
    T5: ExclusiveSystemParam,
    T6: ExclusiveSystemParam,
    T7: ExclusiveSystemParam,
    T8: ExclusiveSystemParam,
    T9: ExclusiveSystemParam,
> ExclusiveSystemParamFunction<
    (T0, T1, T2, T3, T4, T5, T6, T7, T8, T9),
> for Func where
    Func: Fn(
        &mut World,
        T0,
        T1,
        T2,
        T3,
        T4,
        T5,
        T6,
        T7,
        T8,
        T9,
    ) -> Out + Fn(
        &mut World,
        ExclusiveSystemParamItem<T0>,
        ExclusiveSystemParamItem<T1>,
        ExclusiveSystemParamItem<T2>,
        ExclusiveSystemParamItem<T3>,
        ExclusiveSystemParamItem<T4>,
        ExclusiveSystemParamItem<T5>,
        ExclusiveSystemParamItem<T6>,
        ExclusiveSystemParamItem<T7>,
        ExclusiveSystemParamItem<T8>,
        ExclusiveSystemParamItem<T9>,
    ) -> Out,
 {
    type In = ();

    type Out = Out;

    type Param = (T0, T1, T2, T3, T4, T5, T6, T7, T8, T9);

    open spec fn accepts(&self, input: (), world: World) -> bool {
        forall|
            w: &mut World,
            p0: ExclusiveSystemParamItem<'_, T0>,
            p1: ExclusiveSystemParamItem<'_, T1>,
            p2: ExclusiveSystemParamItem<'_, T2>,
            p3: ExclusiveSystemParamItem<'_, T3>,
            p4: ExclusiveSystemParamItem<'_, T4>,
            p5: ExclusiveSystemParamItem<'_, T5>,
            p6: ExclusiveSystemParamItem<'_, T6>,
            p7: ExclusiveSystemParamItem<'_, T7>,
            p8: ExclusiveSystemParamItem<'_, T8>,
            p9: ExclusiveSystemParamItem<'_, T9>,
        |
            *w == world ==> #[trigger] call_requires(
                *self,
                (w, p0, p1, p2, p3, p4, p5, p6, p7, p8, p9),
            )
    }

    open spec fn yields(&self, input: (), world: &mut World, out: Out) -> bool {
        exists|
            p0: ExclusiveSystemParamItem<'_, T0>,
            p1: ExclusiveSystemParamItem<'_, T1>,
            p2: ExclusiveSystemParamItem<'_, T2>,
            p3: ExclusiveSystemParamItem<'_, T3>,
            p4: ExclusiveSystemParamItem<'_, T4>,
            p5: ExclusiveSystemParamItem<'_, T5>,
            p6: ExclusiveSystemParamItem<'_, T6>,
            p7: ExclusiveSystemParamItem<'_, T7>,
            p8: ExclusiveSystemParamItem<'_, T8>,
            p9: ExclusiveSystemParamItem<'_, T9>,
        |
            #[trigger] call_ensures(*self, (world, p0, p1, p2, p3, p4, p5, p6, p7, p8, p9), out)
    }

    fn run(
        &mut self,
        world: &mut World,
        input: (),
        param_value: ExclusiveSystemParamItem<'_, Self::Param>,
    ) -> (out: Out) {
        let (p0, p1, p2, p3, p4, p5, p6, p7, p8, p9) = param_value;
        let ghost lent = (p0, p1, p2, p3, p4, p5, p6, p7, p8, p9);
        let out = call_inner11(&*self, world, p0, p1, p2, p3, p4, p5, p6, p7, p8, p9);
        proof {
            assert(exists|handed: &mut World|
                {
                    &&& *handed == *old(world)
                    &&& *final(handed) == *final(world)
                    &&& #[trigger] call_ensures(
                        *self,
                        (
                            handed,
                            lent.0,
                            lent.1,
                            lent.2,
                            lent.3,
                            lent.4,
                            lent.5,
                            lent.6,
                            lent.7,
                            lent.8,
                            lent.9,
                        ),
                        out,
                    )
                });
            let handed = choose|handed: &mut World|
                {
                    &&& *handed == *old(world)
                    &&& *final(handed) == *final(world)
                    &&& #[trigger] call_ensures(
                        *self,
                        (
                            handed,
                            lent.0,
                            lent.1,
                            lent.2,
                            lent.3,
                            lent.4,
                            lent.5,
                            lent.6,
                            lent.7,
                            lent.8,
                            lent.9,
                        ),
                        out,
                    )
                };
            assert(self.yields(input, handed, out));
        }
        out
    }
}

impl<
    In,
    Out,
    Func,
    T0: ExclusiveSystemParam,
    T1: ExclusiveSystemParam,
    T2: ExclusiveSystemParam,
    T3: ExclusiveSystemParam,
    T4: ExclusiveSystemParam,
    T5: ExclusiveSystemParam,
    T6: ExclusiveSystemParam,
    T7: ExclusiveSystemParam,
    T8: ExclusiveSystemParam,
    T9: ExclusiveSystemParam,
> ExclusiveSystemParamFunction<
    (HasExclusiveSystemInput, In, (T0, T1, T2, T3, T4, T5, T6, T7, T8, T9)),
> for Func where
    Func: Fn(
        In,
        &mut World,
        T0,
        T1,
        T2,
        T3,
        T4,
        T5,
        T6,
        T7,
        T8,
        T9,
    ) -> Out + Fn(
        In::Param<'_>,
        &mut World,
        ExclusiveSystemParamItem<T0>,
        ExclusiveSystemParamItem<T1>,
        ExclusiveSystemParamItem<T2>,
        ExclusiveSystemParamItem<T3>,
        ExclusiveSystemParamItem<T4>,
        ExclusiveSystemParamItem<T5>,
        ExclusiveSystemParamItem<T6>,
        ExclusiveSystemParamItem<T7>,
        ExclusiveSystemParamItem<T8>,
        ExclusiveSystemParamItem<T9>,
    ) -> Out,
    In: SystemInput,
 {
    type In = In;

    type Out = Out;

    type Param = (T0, T1, T2, T3, T4, T5, T6, T7, T8, T9);

    open spec fn accepts(&self, input: In::Inner<'_>, world: World) -> bool {
        forall|
            w: &mut World,
            p0: ExclusiveSystemParamItem<'_, T0>,
            p1: ExclusiveSystemParamItem<'_, T1>,
            p2: ExclusiveSystemParamItem<'_, T2>,
            p3: ExclusiveSystemParamItem<'_, T3>,
            p4: ExclusiveSystemParamItem<'_, T4>,
            p5: ExclusiveSystemParamItem<'_, T5>,
            p6: ExclusiveSystemParamItem<'_, T6>,
            p7: ExclusiveSystemParamItem<'_, T7>,
            p8: ExclusiveSystemParamItem<'_, T8>,
            p9: ExclusiveSystemParamItem<'_, T9>,
        |
            *w == world ==> #[trigger] call_requires(
                *self,
                (In::wrapped(input), w, p0, p1, p2, p3, p4, p5, p6, p7, p8, p9),
            )
    }

    open spec fn yields(&self, input: In::Inner<'_>, world: &mut World, out: Out) -> bool {
        exists|
            p0: ExclusiveSystemParamItem<'_, T0>,
            p1: ExclusiveSystemParamItem<'_, T1>,
            p2: ExclusiveSystemParamItem<'_, T2>,
            p3: ExclusiveSystemParamItem<'_, T3>,
            p4: ExclusiveSystemParamItem<'_, T4>,
            p5: ExclusiveSystemParamItem<'_, T5>,
            p6: ExclusiveSystemParamItem<'_, T6>,
            p7: ExclusiveSystemParamItem<'_, T7>,
            p8: ExclusiveSystemParamItem<'_, T8>,
            p9: ExclusiveSystemParamItem<'_, T9>,
        |
            #[trigger] call_ensures(
                *self,
                (In::wrapped(input), world, p0, p1, p2, p3, p4, p5, p6, p7, p8, p9),
                out,
            )
    }

    fn run(
        &mut self,
        world: &mut World,
        input: In::Inner<'_>,
        param_value: ExclusiveSystemParamItem<'_, Self::Param>,
    ) -> (out: Out) {
        let (p0, p1, p2, p3, p4, p5, p6, p7, p8, p9) = param_value;
        let ghost lent = (p0, p1, p2, p3, p4, p5, p6, p7, p8, p9);
        let out = call_inner12(
            &*self,
            In::wrap(input),
            world,
            p0,
            p1,
            p2,
            p3,
            p4,
            p5,
            p6,
            p7,
            p8,
            p9,
        );
        proof {
            assert(exists|handed: &mut World|
                {
                    &&& *handed == *old(world)
                    &&& *final(handed) == *final(world)
                    &&& #[trigger] call_ensures(
                        *self,
                        (
                            In::wrapped(input),
                            handed,
                            lent.0,
                            lent.1,
                            lent.2,
                            lent.3,
                            lent.4,
                            lent.5,
                            lent.6,
                            lent.7,
                            lent.8,
                            lent.9,
                        ),
                        out,
                    )
                });
            let handed = choose|handed: &mut World|
                {
                    &&& *handed == *old(world)
                    &&& *final(handed) == *final(world)
                    &&& #[trigger] call_ensures(
                        *self,
                        (
                            In::wrapped(input),
                            handed,
                            lent.0,
                            lent.1,
                            lent.2,
                            lent.3,
                            lent.4,
                            lent.5,
                            lent.6,
                            lent.7,
                            lent.8,
                            lent.9,
                        ),
                        out,
                    )
                };
            assert(self.yields(input, handed, out));
        }
        out
    }
}

impl<
    Out,
    Func,
    T0: ExclusiveSystemParam,
    T1: ExclusiveSystemParam,
    T2: ExclusiveSystemParam,
    T3: ExclusiveSystemParam,
    T4: ExclusiveSystemParam,
    T5: ExclusiveSystemParam,
    T6: ExclusiveSystemParam,
    T7: ExclusiveSystemParam,
    T8: ExclusiveSystemParam,
    T9: ExclusiveSystemParam,
    T10: ExclusiveSystemParam,
> ExclusiveSystemParamFunction<
    (T0, T1, T2, T3, T4, T5, T6, T7, T8, T9, T10),
> for Func where
    Func: Fn(
        &mut World,
        T0,
        T1,
        T2,
        T3,
        T4,
        T5,
        T6,
        T7,
        T8,
        T9,
        T10,
    ) -> Out + Fn(
        &mut World,
        ExclusiveSystemParamItem<T0>,
        ExclusiveSystemParamItem<T1>,
        ExclusiveSystemParamItem<T2>,
        ExclusiveSystemParamItem<T3>,
        ExclusiveSystemParamItem<T4>,
        ExclusiveSystemParamItem<T5>,
        ExclusiveSystemParamItem<T6>,
        ExclusiveSystemParamItem<T7>,
        ExclusiveSystemParamItem<T8>,
        ExclusiveSystemParamItem<T9>,
        ExclusiveSystemParamItem<T10>,
    ) -> Out,
 {
    type In = ();

    type Out = Out;

    type Param = (T0, T1, T2, T3, T4, T5, T6, T7, T8, T9, T10);

    open spec fn accepts(&self, input: (), world: World) -> bool {
        forall|
            w: &mut World,
            p0: ExclusiveSystemParamItem<'_, T0>,
            p1: ExclusiveSystemParamItem<'_, T1>,
            p2: ExclusiveSystemParamItem<'_, T2>,
            p3: ExclusiveSystemParamItem<'_, T3>,
            p4: ExclusiveSystemParamItem<'_, T4>,
            p5: ExclusiveSystemParamItem<'_, T5>,
            p6: ExclusiveSystemParamItem<'_, T6>,
            p7: ExclusiveSystemParamItem<'_, T7>,
            p8: ExclusiveSystemParamItem<'_, T8>,
            p9: ExclusiveSystemParamItem<'_, T9>,
            p10: ExclusiveSystemParamItem<'_, T10>,
        |
            *w == world ==> #[trigger] call_requires(
                *self,
                (w, p0, p1, p2, p3, p4, p5, p6, p7, p8, p9, p10),
            )
    }

    open spec fn yields(&self, input: (), world: &mut World, out: Out) -> bool {
        exists|
            p0: ExclusiveSystemParamItem<'_, T0>,
            p1: ExclusiveSystemParamItem<'_, T1>,
            p2: ExclusiveSystemParamItem<'_, T2>,
            p3: ExclusiveSystemParamItem<'_, T3>,
            p4: ExclusiveSystemParamItem<'_, T4>,
            p5: ExclusiveSystemParamItem<'_, T5>,
            p6: ExclusiveSystemParamItem<'_, T6>,
            p7: ExclusiveSystemParamItem<'_, T7>,
            p8: ExclusiveSystemParamItem<'_, T8>,
            p9: ExclusiveSystemParamItem<'_, T9>,
            p10: ExclusiveSystemParamItem<'_, T10>,
        |
            #[trigger] call_ensures(
                *self,
                (world, p0, p1, p2, p3, p4, p5, p6, p7, p8, p9, p10),
                out,
            )
    }

    fn run(
        &mut self,
        world: &mut World,
        input: (),
        param_value: ExclusiveSystemParamItem<'_, Self::Param>,
    ) -> (out: Out) {
        let (p0, p1, p2, p3, p4, p5, p6, p7, p8, p9, p10) = param_value;
        let ghost lent = (p0, p1, p2, p3, p4, p5, p6, p7, p8, p9, p10);
        let out = call_inner12(&*self, world, p0, p1, p2, p3, p4, p5, p6, p7, p8, p9, p10);
        proof {
            assert(exists|handed: &mut World|
                {
                    &&& *handed == *old(world)
                    &&& *final(handed) == *final(world)
                    &&& #[trigger] call_ensures(
                        *self,
                        (
                            handed,
                            lent.0,
                            lent.1,
                            lent.2,
                            lent.3,
                            lent.4,
                            lent.5,
                            lent.6,
                            lent.7,
                            lent.8,
                            lent.9,
                            lent.10,
                        ),
                        out,
                    )
                });
            let handed = choose|handed: &mut World|
                {
                    &&& *handed == *old(world)
                    &&& *final(handed) == *final(world)
                    &&& #[trigger] call_ensures(
                        *self,
                        (
                            handed,
                            lent.0,
                            lent.1,
                            lent.2,
                            lent.3,
                            lent.4,
                            lent.5,
                            lent.6,
                            lent.7,
                            lent.8,
                            lent.9,
                            lent.10,
                        ),
                        out,
                    )
                };
            assert(self.yields(input, handed, out));
        }
        out
    }
}

impl<
    In,
    Out,
    Func,
    T0: ExclusiveSystemParam,
    T1: ExclusiveSystemParam,
    T2: ExclusiveSystemParam,
    T3: ExclusiveSystemParam,
    T4: ExclusiveSystemParam,
    T5: ExclusiveSystemParam,
    T6: ExclusiveSystemParam,
    T7: ExclusiveSystemParam,
    T8: ExclusiveSystemParam,
    T9: ExclusiveSystemParam,
    T10: ExclusiveSystemParam,
> ExclusiveSystemParamFunction<
    (HasExclusiveSystemInput, In, (T0, T1, T2, T3, T4, T5, T6, T7, T8, T9, T10)),
> for Func where
    Func: Fn(
        In,
        &mut World,
        T0,
        T1,
        T2,
        T3,
        T4,
        T5,
        T6,
        T7,
        T8,
        T9,
        T10,
    ) -> Out + Fn(
        In::Param<'_>,
        &mut World,
        ExclusiveSystemParamItem<T0>,
        ExclusiveSystemParamItem<T1>,
        ExclusiveSystemParamItem<T2>,
        ExclusiveSystemParamItem<T3>,
        ExclusiveSystemParamItem<T4>,
        ExclusiveSystemParamItem<T5>,
        ExclusiveSystemParamItem<T6>,
        ExclusiveSystemParamItem<T7>,
        ExclusiveSystemParamItem<T8>,
        ExclusiveSystemParamItem<T9>,
        ExclusiveSystemParamItem<T10>,
    ) -> Out,
    In: SystemInput,
 {
    type In = In;

    type Out = Out;

    type Param = (T0, T1, T2, T3, T4, T5, T6, T7, T8, T9, T10);

    open spec fn accepts(&self, input: In::Inner<'_>, world: World) -> bool {
        forall|
            w: &mut World,
            p0: ExclusiveSystemParamItem<'_, T0>,
            p1: ExclusiveSystemParamItem<'_, T1>,
            p2: ExclusiveSystemParamItem<'_, T2>,
            p3: ExclusiveSystemParamItem<'_, T3>,
            p4: ExclusiveSystemParamItem<'_, T4>,
            p5: ExclusiveSystemParamItem<'_, T5>,
            p6: ExclusiveSystemParamItem<'_, T6>,
            p7: ExclusiveSystemParamItem<'_, T7>,
            p8: ExclusiveSystemParamItem<'_, T8>,
            p9: ExclusiveSystemParamItem<'_, T9>,
            p10: ExclusiveSystemParamItem<'_, T10>,
        |
            *w == world ==> #[trigger] call_requires(
                *self,
                (In::wrapped(input), w, p0, p1, p2, p3, p4, p5, p6, p7, p8, p9, p10),
            )
    }

    open spec fn yields(&self, input: In::Inner<'_>, world: &mut World, out: Out) -> bool {
        exists|
            p0: ExclusiveSystemParamItem<'_, T0>,
            p1: ExclusiveSystemParamItem<'_, T1>,
            p2: ExclusiveSystemParamItem<'_, T2>,
            p3: ExclusiveSystemParamItem<'_, T3>,
            p4: ExclusiveSystemParamItem<'_, T4>,
            p5: ExclusiveSystemParamItem<'_, T5>,
            p6: ExclusiveSystemParamItem<'_, T6>,
            p7: ExclusiveSystemParamItem<'_, T7>,
            p8: ExclusiveSystemParamItem<'_, T8>,
            p9: ExclusiveSystemParamItem<'_, T9>,
            p10: ExclusiveSystemParamItem<'_, T10>,
        |
            #[trigger] call_ensures(
                *self,
                (In::wrapped(input), world, p0, p1, p2, p3, p4, p5, p6, p7, p8, p9, p10),
                out,
            )
    }

    fn run(
        &mut self,
        world: &mut World,
        input: In::Inner<'_>,
        param_value: ExclusiveSystemParamItem<'_, Self::Param>,
    ) -> (out: Out) {
        let (p0, p1, p2, p3, p4, p5, p6, p7, p8, p9, p10) = param_value;
        let ghost lent = (p0, p1, p2, p3, p4, p5, p6, p7, p8, p9, p10);
        let out = call_inner13(
            &*self,
            In::wrap(input),
            world,
            p0,
            p1,
            p2,
            p3,
            p4,
            p5,
            p6,
            p7,
            p8,
            p9,
            p10,
        );
        proof {
            assert(exists|handed: &mut World|
                {
                    &&& *handed == *old(world)
                    &&& *final(handed) == *final(world)
                    &&& #[trigger] call_ensures(
                        *self,
                        (
                            In::wrapped(input),
                            handed,
                            lent.0,
                            lent.1,
                            lent.2,
                            lent.3,
                            lent.4,
                            lent.5,
                            lent.6,
                            lent.7,
                            lent.8,
                            lent.9,
                            lent.10,
                        ),
                        out,
                    )
                });
            let handed = choose|handed: &mut World|
                {
                    &&& *handed == *old(world)
                    &&& *final(handed) == *final(world)
                    &&& #[trigger] call_ensures(
                        *self,
                        (
                            In::wrapped(input),
                            handed,
                            lent.0,
                            lent.1,
                            lent.2,
                            lent.3,
                            lent.4,
                            lent.5,
                            lent.6,
                            lent.7,
                            lent.8,
                            lent.9,
                            lent.10,
                        ),
                        out,
                    )
                };
            assert(self.yields(input, handed, out));
        }
        out
    }
}

impl<
    Out,
    Func,
    T0: ExclusiveSystemParam,
    T1: ExclusiveSystemParam,
    T2: ExclusiveSystemParam,
    T3: ExclusiveSystemParam,
    T4: ExclusiveSystemParam,
    T5: ExclusiveSystemParam,
    T6: ExclusiveSystemParam,
    T7: ExclusiveSystemParam,
    T8: ExclusiveSystemParam,
    T9: ExclusiveSystemParam,
    T10: ExclusiveSystemParam,
    T11: ExclusiveSystemParam,
> ExclusiveSystemParamFunction<
    (T0, T1, T2, T3, T4, T5, T6, T7, T8, T9, T10, T11),
> for Func where
    Func: Fn(
        &mut World,
        T0,
        T1,
        T2,
        T3,
        T4,
        T5,
        T6,
        T7,
        T8,
        T9,
        T10,
        T11,
    ) -> Out + Fn(
        &mut World,
        ExclusiveSystemParamItem<T0>,
        ExclusiveSystemParamItem<T1>,
        ExclusiveSystemParamItem<T2>,
        ExclusiveSystemParamItem<T3>,
        ExclusiveSystemParamItem<T4>,
        ExclusiveSystemParamItem<T5>,
        ExclusiveSystemParamItem<T6>,
        ExclusiveSystemParamItem<T7>,
        ExclusiveSystemParamItem<T8>,
        ExclusiveSystemParamItem<T9>,
        ExclusiveSystemParamItem<T10>,
        ExclusiveSystemParamItem<T11>,
    ) -> Out,
 {
    type In = ();

    type Out = Out;

    type Param = (T0, T1, T2, T3, T4, T5, T6, T7, T8, T9, T10, T11);

    open spec fn accepts(&self, input: (), world: World) -> bool {
        forall|
            w: &mut World,
            p0: ExclusiveSystemParamItem<'_, T0>,
            p1: ExclusiveSystemParamItem<'_, T1>,
            p2: ExclusiveSystemParamItem<'_, T2>,
            p3: ExclusiveSystemParamItem<'_, T3>,
            p4: ExclusiveSystemParamItem<'_, T4>,
            p5: ExclusiveSystemParamItem<'_, T5>,
            p6: ExclusiveSystemParamItem<'_, T6>,
            p7: ExclusiveSystemParamItem<'_, T7>,
            p8: ExclusiveSystemParamItem<'_, T8>,
            p9: ExclusiveSystemParamItem<'_, T9>,
            p10: ExclusiveSystemParamItem<'_, T10>,
            p11: ExclusiveSystemParamItem<'_, T11>,
        |
            *w == world ==> #[trigger] call_requires(
                *self,
                (w, p0, p1, p2, p3, p4, p5, p6, p7, p8, p9, p10, p11),
            )
    }

    open spec fn yields(&self, input: (), world: &mut World, out: Out) -> bool {
        exists|
            p0: ExclusiveSystemParamItem<'_, T0>,
            p1: ExclusiveSystemParamItem<'_, T1>,
            p2: ExclusiveSystemParamItem<'_, T2>,
            p3: ExclusiveSystemParamItem<'_, T3>,
            p4: ExclusiveSystemParamItem<'_, T4>,
            p5: ExclusiveSystemParamItem<'_, T5>,
            p6: ExclusiveSystemParamItem<'_, T6>,
            p7: ExclusiveSystemParamItem<'_, T7>,
            p8: ExclusiveSystemParamItem<'_, T8>,
            p9: ExclusiveSystemParamItem<'_, T9>,
            p10: ExclusiveSystemParamItem<'_, T10>,
            p11: ExclusiveSystemParamItem<'_, T11>,
        |
            #[trigger] call_ensures(
                *self,
                (world, p0, p1, p2, p3, p4, p5, p6, p7, p8, p9, p10, p11),
                out,
            )
    }

    fn run(
        &mut self,
        world: &mut World,
        input: (),
        param_value: ExclusiveSystemParamItem<'_, Self::Param>,
    ) -> (out: Out) {
        let (p0, p1, p2, p3, p4, p5, p6, p7, p8, p9, p10, p11) = param_value;
        let ghost lent = (p0, p1, p2, p3, p4, p5, p6, p7, p8, p9, p10, p11);
        let out = call_inner13(&*self, world, p0, p1, p2, p3, p4, p5, p6, p7, p8, p9, p10, p11);
        proof {
            assert(exists|handed: &mut World|
                {
                    &&& *handed == *old(world)
                    &&& *final(handed) == *final(world)
                    &&& #[trigger] call_ensures(
                        *self,
                        (
                            handed,
                            lent.0,
                            lent.1,
                            lent.2,
                            lent.3,
                            lent.4,
                            lent.5,
                            lent.6,
                            lent.7,
                            lent.8,
                            lent.9,
                            lent.10,
                            lent.11,
                        ),
                        out,
                    )
                });
            let handed = choose|handed: &mut World|
                {
                    &&& *handed == *old(world)
                    &&& *final(handed) == *final(world)
                    &&& #[trigger] call_ensures(
                        *self,
                        (
                            handed,
                            lent.0,
                            lent.1,
                            lent.2,
                            lent.3,
                            lent.4,
                            lent.5,
                            lent.6,
                            lent.7,
                            lent.8,
                            lent.9,
                            lent.10,
                            lent.11,
                        ),
                        out,
                    )
                };
            assert(self.yields(input, handed, out));
        }
        out
    }
}

impl<
    In,
    Out,
    Func,
    T0: ExclusiveSystemParam,
    T1: ExclusiveSystemParam,
    T2: ExclusiveSystemParam,
    T3: ExclusiveSystemParam,
    T4: ExclusiveSystemParam,
    T5: ExclusiveSystemParam,
    T6: ExclusiveSystemParam,
    T7: ExclusiveSystemParam,
    T8: ExclusiveSystemParam,
    T9: ExclusiveSystemParam,
    T10: ExclusiveSystemParam,
    T11: ExclusiveSystemParam,
> ExclusiveSystemParamFunction<
    (HasExclusiveSystemInput, In, (T0, T1, T2, T3, T4, T5, T6, T7, T8, T9, T10, T11)),
> for Func where
    Func: Fn(
        In,
        &mut World,
        T0,
        T1,
        T2,
        T3,
        T4,
        T5,
        T6,
        T7,
        T8,
        T9,
        T10,
        T11,
    ) -> Out + Fn(
        In::Param<'_>,
        &mut World,
        ExclusiveSystemParamItem<T0>,
        ExclusiveSystemParamItem<T1>,
        ExclusiveSystemParamItem<T2>,
        ExclusiveSystemParamItem<T3>,
        ExclusiveSystemParamItem<T4>,
        ExclusiveSystemParamItem<T5>,
        ExclusiveSystemParamItem<T6>,
        ExclusiveSystemParamItem<T7>,
        ExclusiveSystemParamItem<T8>,
        ExclusiveSystemParamItem<T9>,
        ExclusiveSystemParamItem<T10>,
        ExclusiveSystemParamItem<T11>,
    ) -> Out,
    In: SystemInput,
 {
    type In = In;

    type Out = Out;

    type Param = (T0, T1, T2, T3, T4, T5, T6, T7, T8, T9, T10, T11);

    open spec fn accepts(&self, input: In::Inner<'_>, world: World) -> bool {
        forall|
            w: &mut World,
            p0: ExclusiveSystemParamItem<'_, T0>,
            p1: ExclusiveSystemParamItem<'_, T1>,
            p2: ExclusiveSystemParamItem<'_, T2>,
            p3: ExclusiveSystemParamItem<'_, T3>,
            p4: ExclusiveSystemParamItem<'_, T4>,
            p5: ExclusiveSystemParamItem<'_, T5>,
            p6: ExclusiveSystemParamItem<'_, T6>,
            p7: ExclusiveSystemParamItem<'_, T7>,
            p8: ExclusiveSystemParamItem<'_, T8>,
            p9: ExclusiveSystemParamItem<'_, T9>,
            p10: ExclusiveSystemParamItem<'_, T10>,
            p11: ExclusiveSystemParamItem<'_, T11>,
        |
            *w == world ==> #[trigger] call_requires(
                *self,
                (In::wrapped(input), w, p0, p1, p2, p3, p4, p5, p6, p7, p8, p9, p10, p11),
            )
    }

    open spec fn yields(&self, input: In::Inner<'_>, world: &mut World, out: Out) -> bool {
        exists|
            p0: ExclusiveSystemParamItem<'_, T0>,
            p1: ExclusiveSystemParamItem<'_, T1>,
            p2: ExclusiveSystemParamItem<'_, T2>,
            p3: ExclusiveSystemParamItem<'_, T3>,
            p4: ExclusiveSystemParamItem<'_, T4>,
            p5: ExclusiveSystemParamItem<'_, T5>,
            p6: ExclusiveSystemParamItem<'_, T6>,
            p7: ExclusiveSystemParamItem<'_, T7>,
            p8: ExclusiveSystemParamItem<'_, T8>,
            p9: ExclusiveSystemParamItem<'_, T9>,
            p10: ExclusiveSystemParamItem<'_, T10>,
            p11: ExclusiveSystemParamItem<'_, T11>,
        |
            #[trigger] call_ensures(
                *self,
                (In::wrapped(input), world, p0, p1, p2, p3, p4, p5, p6, p7, p8, p9, p10, p11),
                out,
            )
    }

    fn run(
        &mut self,
        world: &mut World,
        input: In::Inner<'_>,
        param_value: ExclusiveSystemParamItem<'_, Self::Param>,
    ) -> (out: Out) {
        let (p0, p1, p2, p3, p4, p5, p6, p7, p8, p9, p10, p11) = param_value;
        let ghost lent = (p0, p1, p2, p3, p4, p5, p6, p7, p8, p9, p10, p11);
        let out = call_inner14(
            &*self,
            In::wrap(input),
            world,
            p0,
            p1,
            p2,
            p3,
            p4,
            p5,
            p6,
            p7,
            p8,
            p9,
            p10,
            p11,
        );
        proof {
            assert(exists|handed: &mut World|
                {
                    &&& *handed == *old(world)
                    &&& *final(handed) == *final(world)
                    &&& #[trigger] call_ensures(
                        *self,
                        (
                            In::wrapped(input),
                            handed,
                            lent.0,
                            lent.1,
                            lent.2,
                            lent.3,
                            lent.4,
                            lent.5,
                            lent.6,
                            lent.7,
                            lent.8,
                            lent.9,
                            lent.10,
                            lent.11,
                        ),
                        out,
                    )
                });
            let handed = choose|handed: &mut World|
                {
                    &&& *handed == *old(world)
                    &&& *final(handed) == *final(world)
                    &&& #[trigger] call_ensures(
                        *self,
                        (
                            In::wrapped(input),
                            handed,
                            lent.0,
                            lent.1,
                            lent.2,
                            lent.3,
                            lent.4,
                            lent.5,
                            lent.6,
                            lent.7,
                            lent.8,
                            lent.9,
                            lent.10,
                            lent.11,
                        ),
                        out,
                    )
                };
            assert(self.yields(input, handed, out));
        }
        out
    }
}

impl<
    Out,
    Func,
    T0: ExclusiveSystemParam,
    T1: ExclusiveSystemParam,
    T2: ExclusiveSystemParam,
    T3: ExclusiveSystemParam,
    T4: ExclusiveSystemParam,
    T5: ExclusiveSystemParam,
    T6: ExclusiveSystemParam,
    T7: ExclusiveSystemParam,
    T8: ExclusiveSystemParam,
    T9: ExclusiveSystemParam,
    T10: ExclusiveSystemParam,
    T11: ExclusiveSystemParam,
    T12: ExclusiveSystemParam,
> ExclusiveSystemParamFunction<
    (T0, T1, T2, T3, T4, T5, T6, T7, T8, T9, T10, T11, T12),
> for Func where
    Func: Fn(
        &mut World,
        T0,
        T1,
        T2,
        T3,
        T4,
        T5,
        T6,
        T7,
        T8,
        T9,
        T10,
        T11,
        T12,
    ) -> Out + Fn(
        &mut World,
        ExclusiveSystemParamItem<T0>,
        ExclusiveSystemParamItem<T1>,
        ExclusiveSystemParamItem<T2>,
        ExclusiveSystemParamItem<T3>,
        ExclusiveSystemParamItem<T4>,
        ExclusiveSystemParamItem<T5>,
        ExclusiveSystemParamItem<T6>,
        ExclusiveSystemParamItem<T7>,
        ExclusiveSystemParamItem<T8>,
        ExclusiveSystemParamItem<T9>,
        ExclusiveSystemParamItem<T10>,
        ExclusiveSystemParamItem<T11>,
        ExclusiveSystemParamItem<T12>,
    ) -> Out,
 {
    type In = ();

    type Out = Out;

    type Param = (T0, T1, T2, T3, T4, T5, T6, T7, T8, T9, T10, T11, T12);

    open spec fn accepts(&self, input: (), world: World) -> bool {
        forall|
            w: &mut World,
            p0: ExclusiveSystemParamItem<'_, T0>,
            p1: ExclusiveSystemParamItem<'_, T1>,
            p2: ExclusiveSystemParamItem<'_, T2>,
            p3: ExclusiveSystemParamItem<'_, T3>,
            p4: ExclusiveSystemParamItem<'_, T4>,
            p5: ExclusiveSystemParamItem<'_, T5>,
            p6: ExclusiveSystemParamItem<'_, T6>,
            p7: ExclusiveSystemParamItem<'_, T7>,
            p8: ExclusiveSystemParamItem<'_, T8>,
            p9: ExclusiveSystemParamItem<'_, T9>,
            p10: ExclusiveSystemParamItem<'_, T10>,
            p11: ExclusiveSystemParamItem<'_, T11>,
            p12: ExclusiveSystemParamItem<'_, T12>,
        |
            *w == world ==> #[trigger] call_requires(
                *self,
                (w, p0, p1, p2, p3, p4, p5, p6, p7, p8, p9, p10, p11, p12),
            )
    }

    open spec fn yields(&self, input: (), world: &mut World, out: Out) -> bool {
        exists|
            p0: ExclusiveSystemParamItem<'_, T0>,
            p1: ExclusiveSystemParamItem<'_, T1>,
            p2: ExclusiveSystemParamItem<'_, T2>,
            p3: ExclusiveSystemParamItem<'_, T3>,
            p4: ExclusiveSystemParamItem<'_, T4>,
            p5: ExclusiveSystemParamItem<'_, T5>,
            p6: ExclusiveSystemParamItem<'_, T6>,
            p7: ExclusiveSystemParamItem<'_, T7>,
            p8: ExclusiveSystemParamItem<'_, T8>,
            p9: ExclusiveSystemParamItem<'_, T9>,
            p10: ExclusiveSystemParamItem<'_, T10>,
            p11: ExclusiveSystemParamItem<'_, T11>,
            p12: ExclusiveSystemParamItem<'_, T12>,
        |
            #[trigger] call_ensures(
                *self,
                (world, p0, p1, p2, p3, p4, p5, p6, p7, p8, p9, p10, p11, p12),
                out,
            )
    }

    fn run(
        &mut self,
        world: &mut World,
        input: (),
        param_value: ExclusiveSystemParamItem<'_, Self::Param>,
    ) -> (out: Out) {
        let (p0, p1, p2, p3, p4, p5, p6, p7, p8, p9, p10, p11, p12) = param_value;
        let ghost lent = (p0, p1, p2, p3, p4, p5, p6, p7, p8, p9, p10, p11, p12);
        let out = call_inner14(
            &*self,
            world,
            p0,
            p1,
            p2,
            p3,
            p4,
            p5,
            p6,
            p7,
            p8,
            p9,
            p10,
            p11,
            p12,
        );
        proof {
            assert(exists|handed: &mut World|
                {
                    &&& *handed == *old(world)
                    &&& *final(handed) == *final(world)
                    &&& #[trigger] call_ensures(
                        *self,
                        (
                            handed,
                            lent.0,
                            lent.1,
                            lent.2,
                            lent.3,
                            lent.4,
                            lent.5,
                            lent.6,
                            lent.7,
                            lent.8,
                            lent.9,
                            lent.10,
                            lent.11,
                            lent.12,
                        ),
                        out,
                    )
                });
            let handed = choose|handed: &mut World|
                {
                    &&& *handed == *old(world)
                    &&& *final(handed) == *final(world)
                    &&& #[trigger] call_ensures(
                        *self,
                        (
                            handed,
                            lent.0,
                            lent.1,
                            lent.2,
                            lent.3,
                            lent.4,
                            lent.5,
                            lent.6,
                            lent.7,
                            lent.8,
                            lent.9,
                            lent.10,
                            lent.11,
                            lent.12,
                        ),
                        out,
                    )
                };
            assert(self.yields(input, handed, out));
        }
        out
    }
}

impl<
    In,
    Out,
    Func,
    T0: ExclusiveSystemParam,
    T1: ExclusiveSystemParam,
    T2: ExclusiveSystemParam,
    T3: ExclusiveSystemParam,
    T4: ExclusiveSystemParam,
    T5: ExclusiveSystemParam,
    T6: ExclusiveSystemParam,
    T7: ExclusiveSystemParam,
    T8: ExclusiveSystemParam,
    T9: ExclusiveSystemParam,
    T10: ExclusiveSystemParam,
    T11: ExclusiveSystemParam,
    T12: ExclusiveSystemParam,
> ExclusiveSystemParamFunction<
    (HasExclusiveSystemInput, In, (T0, T1, T2, T3, T4, T5, T6, T7, T8, T9, T10, T11, T12)),
> for Func where
    Func: Fn(
        In,
        &mut World,
        T0,
        T1,
        T2,
        T3,
        T4,
        T5,
        T6,
        T7,
        T8,
        T9,
        T10,
        T11,
        T12,
    ) -> Out + Fn(
        In::Param<'_>,
        &mut World,
        ExclusiveSystemParamItem<T0>,
        ExclusiveSystemParamItem<T1>,
        ExclusiveSystemParamItem<T2>,
        ExclusiveSystemParamItem<T3>,
        ExclusiveSystemParamItem<T4>,
        ExclusiveSystemParamItem<T5>,
        ExclusiveSystemParamItem<T6>,
        ExclusiveSystemParamItem<T7>,
        ExclusiveSystemParamItem<T8>,
        ExclusiveSystemParamItem<T9>,
        ExclusiveSystemParamItem<T10>,
        ExclusiveSystemParamItem<T11>,
        ExclusiveSystemParamItem<T12>,
    ) -> Out,
    In: SystemInput,
 {
    type In = In;

    type Out = Out;

    type Param = (T0, T1, T2, T3, T4, T5, T6, T7, T8, T9, T10, T11, T12);

    open spec fn accepts(&self, input: In::Inner<'_>, world: World) -> bool {
        forall|
            w: &mut World,
            p0: ExclusiveSystemParamItem<'_, T0>,
            p1: ExclusiveSystemParamItem<'_, T1>,
            p2: ExclusiveSystemParamItem<'_, T2>,
            p3: ExclusiveSystemParamItem<'_, T3>,
            p4: ExclusiveSystemParamItem<'_, T4>,
            p5: ExclusiveSystemParamItem<'_, T5>,
            p6: ExclusiveSystemParamItem<'_, T6>,
            p7: ExclusiveSystemParamItem<'_, T7>,
            p8: ExclusiveSystemParamItem<'_, T8>,
            p9: ExclusiveSystemParamItem<'_, T9>,
            p10: ExclusiveSystemParamItem<'_, T10>,
            p11: ExclusiveSystemParamItem<'_, T11>,
            p12: ExclusiveSystemParamItem<'_, T12>,
        |
            *w == world ==> #[trigger] call_requires(
                *self,
                (In::wrapped(input), w, p0, p1, p2, p3, p4, p5, p6, p7, p8, p9, p10, p11, p12),
            )
    }

    open spec fn yields(&self, input: In::Inner<'_>, world: &mut World, out: Out) -> bool {
        exists|
            p0: ExclusiveSystemParamItem<'_, T0>,
            p1: ExclusiveSystemParamItem<'_, T1>,
            p2: ExclusiveSystemParamItem<'_, T2>,
            p3: ExclusiveSystemParamItem<'_, T3>,
            p4: ExclusiveSystemParamItem<'_, T4>,
            p5: ExclusiveSystemParamItem<'_, T5>,
            p6: ExclusiveSystemParamItem<'_, T6>,
            p7: ExclusiveSystemParamItem<'_, T7>,
            p8: ExclusiveSystemParamItem<'_, T8>,
            p9: ExclusiveSystemParamItem<'_, T9>,
            p10: ExclusiveSystemParamItem<'_, T10>,
            p11: ExclusiveSystemParamItem<'_, T11>,
            p12: ExclusiveSystemParamItem<'_, T12>,
        |
            #[trigger] call_ensures(
                *self,
                (In::wrapped(input), world, p0, p1, p2, p3, p4, p5, p6, p7, p8, p9, p10, p11, p12),
                out,
            )
    }

    fn run(
        &mut self,
        world: &mut World,
        input: In::Inner<'_>,
        param_value: ExclusiveSystemParamItem<'_, Self::Param>,
    ) -> (out: Out) {
        let (p0, p1, p2, p3, p4, p5, p6, p7, p8, p9, p10, p11, p12) = param_value;
        let ghost lent = (p0, p1, p2, p3, p4, p5, p6, p7, p8, p9, p10, p11, p12);
        let out = call_inner15(
            &*self,
            In::wrap(input),
            world,
            p0,
            p1,
            p2,
            p3,
            p4,
            p5,
            p6,
            p7,
            p8,
            p9,
            p10,
            p11,
            p12,
        );
        proof {
            assert(exists|handed: &mut World|
                {
                    &&& *handed == *old(world)
                    &&& *final(handed) == *final(world)
                    &&& #[trigger] call_ensures(
                        *self,
                        (
                            In::wrapped(input),
                            handed,
                            lent.0,
                            lent.1,
                            lent.2,
                            lent.3,
                            lent.4,
                            lent.5,
                            lent.6,
                            lent.7,
                            lent.8,
                            lent.9,
                            lent.10,
                            lent.11,
                            lent.12,
                        ),
                        out,
                    )
                });
            let handed = choose|handed: &mut World|
                {
                    &&& *handed == *old(world)
                    &&& *final(handed) == *final(world)
                    &&& #[trigger] call_ensures(
                        *self,
                        (
                            In::wrapped(input),
                            handed,
                            lent.0,
                            lent.1,
                            lent.2,
                            lent.3,
                            lent.4,
                            lent.5,
                            lent.6,
                            lent.7,
                            lent.8,
                            lent.9,
                            lent.10,
                            lent.11,
                            lent.12,
                        ),
                        out,
                    )
                };
            assert(self.yields(input, handed, out));
        }
        out
    }
}

impl<
    Out,
    Func,
    T0: ExclusiveSystemParam,
    T1: ExclusiveSystemParam,
    T2: ExclusiveSystemParam,
    T3: ExclusiveSystemParam,
    T4: ExclusiveSystemParam,
    T5: ExclusiveSystemParam,
    T6: ExclusiveSystemParam,
    T7: ExclusiveSystemParam,
    T8: ExclusiveSystemParam,
    T9: ExclusiveSystemParam,
    T10: ExclusiveSystemParam,
    T11: ExclusiveSystemParam,
    T12: ExclusiveSystemParam,
    T13: ExclusiveSystemParam,
> ExclusiveSystemParamFunction<
    (T0, T1, T2, T3, T4, T5, T6, T7, T8, T9, T10, T11, T12, T13),
> for Func where
    Func: Fn(
        &mut World,
        T0,
        T1,
        T2,
        T3,
        T4,
        T5,
        T6,
        T7,
        T8,
        T9,
        T10,
        T11,
        T12,
        T13,
    ) -> Out + Fn(
        &mut World,
        ExclusiveSystemParamItem<T0>,
        ExclusiveSystemParamItem<T1>,
        ExclusiveSystemParamItem<T2>,
        ExclusiveSystemParamItem<T3>,
        ExclusiveSystemParamItem<T4>,
        ExclusiveSystemParamItem<T5>,
        ExclusiveSystemParamItem<T6>,
        ExclusiveSystemParamItem<T7>,
        ExclusiveSystemParamItem<T8>,
        ExclusiveSystemParamItem<T9>,
        ExclusiveSystemParamItem<T10>,
        ExclusiveSystemParamItem<T11>,
        ExclusiveSystemParamItem<T12>,
        ExclusiveSystemParamItem<T13>,
    ) -> Out,
 {
    type In = ();

    type Out = Out;

    type Param = (T0, T1, T2, T3, T4, T5, T6, T7, T8, T9, T10, T11, T12, T13);

    open spec fn accepts(&self, input: (), world: World) -> bool {
        forall|
            w: &mut World,
            p0: ExclusiveSystemParamItem<'_, T0>,
            p1: ExclusiveSystemParamItem<'_, T1>,
            p2: ExclusiveSystemParamItem<'_, T2>,
            p3: ExclusiveSystemParamItem<'_, T3>,
            p4: ExclusiveSystemParamItem<'_, T4>,
            p5: ExclusiveSystemParamItem<'_, T5>,
            p6: ExclusiveSystemParamItem<'_, T6>,
            p7: ExclusiveSystemParamItem<'_, T7>,
            p8: ExclusiveSystemParamItem<'_, T8>,
            p9: ExclusiveSystemParamItem<'_, T9>,
            p10: ExclusiveSystemParamItem<'_, T10>,
            p11: ExclusiveSystemParamItem<'_, T11>,
            p12: ExclusiveSystemParamItem<'_, T12>,
            p13: ExclusiveSystemParamItem<'_, T13>,
        |
            *w == world ==> #[trigger] call_requires(
                *self,
                (w, p0, p1, p2, p3, p4, p5, p6, p7, p8, p9, p10, p11, p12, p13),
            )
    }

    open spec fn yields(&self, input: (), world: &mut World, out: Out) -> bool {
        exists|
            p0: ExclusiveSystemParamItem<'_, T0>,
            p1: ExclusiveSystemParamItem<'_, T1>,
            p2: ExclusiveSystemParamItem<'_, T2>,
            p3: ExclusiveSystemParamItem<'_, T3>,
            p4: ExclusiveSystemParamItem<'_, T4>,
            p5: ExclusiveSystemParamItem<'_, T5>,
            p6: ExclusiveSystemParamItem<'_, T6>,
            p7: ExclusiveSystemParamItem<'_, T7>,
            p8: ExclusiveSystemParamItem<'_, T8>,
            p9: ExclusiveSystemParamItem<'_, T9>,
            p10: ExclusiveSystemParamItem<'_, T10>,
            p11: ExclusiveSystemParamItem<'_, T11>,
            p12: ExclusiveSystemParamItem<'_, T12>,
            p13: ExclusiveSystemParamItem<'_, T13>,
        |
            #[trigger] call_ensures(
                *self,
                (world, p0, p1, p2, p3, p4, p5, p6, p7, p8, p9, p10, p11, p12, p13),
                out,
            )
    }

    fn run(
        &mut self,
        world: &mut World,
        input: (),
        param_value: ExclusiveSystemParamItem<'_, Self::Param>,
    ) -> (out: Out) {
        let (p0, p1, p2, p3, p4, p5, p6, p7, p8, p9, p10, p11, p12, p13) = param_value;
        let ghost lent = (p0, p1, p2, p3, p4, p5, p6, p7, p8, p9, p10, p11, p12, p13);
        let out = call_inner15(
            &*self,
            world,
            p0,
            p1,
            p2,
            p3,
            p4,
            p5,
            p6,
            p7,
            p8,
            p9,
            p10,
            p11,
            p12,
            p13,
        );
        proof {
            assert(exists|handed: &mut World|
                {
                    &&& *handed == *old(world)
                    &&& *final(handed) == *final(world)
                    &&& #[trigger] call_ensures(
                        *self,
                        (
                            handed,
                            lent.0,
                            lent.1,
                            lent.2,
                            lent.3,
                            lent.4,
                            lent.5,
                            lent.6,
                            lent.7,
                            lent.8,
                            lent.9,
                            lent.10,
                            lent.11,
                            lent.12,
                            lent.13,
                        ),
                        out,
                    )
                });
            let handed = choose|handed: &mut World|
                {
                    &&& *handed == *old(world)
                    &&& *final(handed) == *final(world)
                    &&& #[trigger] call_ensures(
                        *self,
                        (
                            handed,
                            lent.0,
                            lent.1,
                            lent.2,
                            lent.3,
                            lent.4,
                            lent.5,
                            lent.6,
                            lent.7,
                            lent.8,
                            lent.9,
                            lent.10,
                            lent.11,
                            lent.12,
                            lent.13,
                        ),
                        out,
                    )
                };
            assert(self.yields(input, handed, out));
        }
        out
    }
}

impl<
    In,
    Out,
    Func,
    T0: ExclusiveSystemParam,
    T1: ExclusiveSystemParam,
    T2: ExclusiveSystemParam,
    T3: ExclusiveSystemParam,
    T4: ExclusiveSystemParam,
    T5: ExclusiveSystemParam,
    T6: ExclusiveSystemParam,
    T7: ExclusiveSystemParam,
    T8: ExclusiveSystemParam,
    T9: ExclusiveSystemParam,
    T10: ExclusiveSystemParam,
    T11: ExclusiveSystemParam,
    T12: ExclusiveSystemParam,
    T13: ExclusiveSystemParam,
> ExclusiveSystemParamFunction<
    (HasExclusiveSystemInput, In, (T0, T1, T2, T3, T4, T5, T6, T7, T8, T9, T10, T11, T12, T13)),
> for Func where
    Func: Fn(
        In,
        &mut World,
        T0,
        T1,
        T2,
        T3,
        T4,
        T5,
        T6,
        T7,
        T8,
        T9,
        T10,
        T11,
        T12,
        T13,
    ) -> Out + Fn(
        In::Param<'_>,
        &mut World,
        ExclusiveSystemParamItem<T0>,
        ExclusiveSystemParamItem<T1>,
        ExclusiveSystemParamItem<T2>,
        ExclusiveSystemParamItem<T3>,
        ExclusiveSystemParamItem<T4>,
        ExclusiveSystemParamItem<T5>,
        ExclusiveSystemParamItem<T6>,
        ExclusiveSystemParamItem<T7>,
        ExclusiveSystemParamItem<T8>,
        ExclusiveSystemParamItem<T9>,
        ExclusiveSystemParamItem<T10>,
        ExclusiveSystemParamItem<T11>,
        ExclusiveSystemParamItem<T12>,
        ExclusiveSystemParamItem<T13>,
    ) -> Out,
    In: SystemInput,
 {
    type In = In;

    type Out = Out;

    type Param = (T0, T1, T2, T3, T4, T5, T6, T7, T8, T9, T10, T11, T12, T13);

    open spec fn accepts(&self, input: In::Inner<'_>, world: World) -> bool {
        forall|
            w: &mut World,
            p0: ExclusiveSystemParamItem<'_, T0>,
            p1: ExclusiveSystemParamItem<'_, T1>,
            p2: ExclusiveSystemParamItem<'_, T2>,
            p3: ExclusiveSystemParamItem<'_, T3>,
            p4: ExclusiveSystemParamItem<'_, T4>,
            p5: ExclusiveSystemParamItem<'_, T5>,
            p6: ExclusiveSystemParamItem<'_, T6>,
            p7: ExclusiveSystemParamItem<'_, T7>,
            p8: ExclusiveSystemParamItem<'_, T8>,
            p9: ExclusiveSystemParamItem<'_, T9>,
            p10: ExclusiveSystemParamItem<'_, T10>,
            p11: ExclusiveSystemParamItem<'_, T11>,
            p12: ExclusiveSystemParamItem<'_, T12>,
            p13: ExclusiveSystemParamItem<'_, T13>,
        |
            *w == world ==> #[trigger] call_requires(
                *self,
                (In::wrapped(input), w, p0, p1, p2, p3, p4, p5, p6, p7, p8, p9, p10, p11, p12, p13),
            )
    }

    open spec fn yields(&self, input: In::Inner<'_>, world: &mut World, out: Out) -> bool {
        exists|
            p0: ExclusiveSystemParamItem<'_, T0>,
            p1: ExclusiveSystemParamItem<'_, T1>,
            p2: ExclusiveSystemParamItem<'_, T2>,
            p3: ExclusiveSystemParamItem<'_, T3>,
            p4: ExclusiveSystemParamItem<'_, T4>,
            p5: ExclusiveSystemParamItem<'_, T5>,
            p6: ExclusiveSystemParamItem<'_, T6>,
            p7: ExclusiveSystemParamItem<'_, T7>,
            p8: ExclusiveSystemParamItem<'_, T8>,
            p9: ExclusiveSystemParamItem<'_, T9>,
            p10: ExclusiveSystemParamItem<'_, T10>,
            p11: ExclusiveSystemParamItem<'_, T11>,
            p12: ExclusiveSystemParamItem<'_, T12>,
            p13: ExclusiveSystemParamItem<'_, T13>,
        |
            #[trigger] call_ensures(
                *self,
                (
                    In::wrapped(input),
                    world,
                    p0,
                    p1,
                    p2,
                    p3,
                    p4,
                    p5,
                    p6,
                    p7,
                    p8,
                    p9,
                    p10,
                    p11,
                    p12,
                    p13,
                ),
                out,
            )
    }

    fn run(
        &mut self,
        world: &mut World,
        input: In::Inner<'_>,
        param_value: ExclusiveSystemParamItem<'_, Self::Param>,
    ) -> (out: Out) {
        let (p0, p1, p2, p3, p4, p5, p6, p7, p8, p9, p10, p11, p12, p13) = param_value;
        let ghost lent = (p0, p1, p2, p3, p4, p5, p6, p7, p8, p9, p10, p11, p12, p13);
        let out = call_inner16(
            &*self,
            In::wrap(input),
            world,
            p0,
            p1,
            p2,
            p3,
            p4,
            p5,
            p6,
            p7,
            p8,
            p9,
            p10,
            p11,
            p12,
            p13,
        );
        proof {
            assert(exists|handed: &mut World|
                {
                    &&& *handed == *old(world)
                    &&& *final(handed) == *final(world)
                    &&& #[trigger] call_ensures(
                        *self,
                        (
                            In::wrapped(input),
                            handed,
                            lent.0,
                            lent.1,
                            lent.2,
                            lent.3,
                            lent.4,
                            lent.5,
                            lent.6,
                            lent.7,
                            lent.8,
                            lent.9,
                            lent.10,
                            lent.11,
                            lent.12,
                            lent.13,
                        ),
                        out,
                    )
                });
            let handed = choose|handed: &mut World|
                {
                    &&& *handed == *old(world)
                    &&& *final(handed) == *final(world)
                    &&& #[trigger] call_ensures(
                        *self,
                        (
                            In::wrapped(input),
                            handed,
                            lent.0,
                            lent.1,
                            lent.2,
                            lent.3,
                            lent.4,
                            lent.5,
                            lent.6,
                            lent.7,
                            lent.8,
                            lent.9,
                            lent.10,
                            lent.11,
                            lent.12,
                            lent.13,
                        ),
                        out,
                    )
                };
            assert(self.yields(input, handed, out));
        }
        out
    }
}

impl<
    Out,
    Func,
    T0: ExclusiveSystemParam,
    T1: ExclusiveSystemParam,
    T2: ExclusiveSystemParam,
    T3: ExclusiveSystemParam,
    T4: ExclusiveSystemParam,
    T5: ExclusiveSystemParam,
    T6: ExclusiveSystemParam,
    T7: ExclusiveSystemParam,
    T8: ExclusiveSystemParam,
    T9: ExclusiveSystemParam,
    T10: ExclusiveSystemParam,
    T11: ExclusiveSystemParam,
    T12: ExclusiveSystemParam,
    T13: ExclusiveSystemParam,
    T14: ExclusiveSystemParam,
> ExclusiveSystemParamFunction<
    (T0, T1, T2, T3, T4, T5, T6, T7, T8, T9, T10, T11, T12, T13, T14),
> for Func where
    Func: Fn(
        &mut World,
        T0,
        T1,
        T2,
        T3,
        T4,
        T5,
        T6,
        T7,
        T8,
        T9,
        T10,
        T11,
        T12,
        T13,
        T14,
    ) -> Out + Fn(
        &mut World,
        ExclusiveSystemParamItem<T0>,
        ExclusiveSystemParamItem<T1>,
        ExclusiveSystemParamItem<T2>,
        ExclusiveSystemParamItem<T3>,
        ExclusiveSystemParamItem<T4>,
        ExclusiveSystemParamItem<T5>,
        ExclusiveSystemParamItem<T6>,
        ExclusiveSystemParamItem<T7>,
        ExclusiveSystemParamItem<T8>,
        ExclusiveSystemParamItem<T9>,
        ExclusiveSystemParamItem<T10>,
        ExclusiveSystemParamItem<T11>,
        ExclusiveSystemParamItem<T12>,
        ExclusiveSystemParamItem<T13>,
        ExclusiveSystemParamItem<T14>,
    ) -> Out,
 {
    type In = ();

    type Out = Out;

    type Param = (T0, T1, T2, T3, T4, T5, T6, T7, T8, T9, T10, T11, T12, T13, T14);

    open spec fn accepts(&self, input: (), world: World) -> bool {
        forall|
            w: &mut World,
            p0: ExclusiveSystemParamItem<'_, T0>,
            p1: ExclusiveSystemParamItem<'_, T1>,
            p2: ExclusiveSystemParamItem<'_, T2>,
            p3: ExclusiveSystemParamItem<'_, T3>,
            p4: ExclusiveSystemParamItem<'_, T4>,
            p5: ExclusiveSystemParamItem<'_, T5>,
            p6: ExclusiveSystemParamItem<'_, T6>,
            p7: ExclusiveSystemParamItem<'_, T7>,
            p8: ExclusiveSystemParamItem<'_, T8>,
            p9: ExclusiveSystemParamItem<'_, T9>,
            p10: ExclusiveSystemParamItem<'_, T10>,
            p11: ExclusiveSystemParamItem<'_, T11>,
            p12: ExclusiveSystemParamItem<'_, T12>,
            p13: ExclusiveSystemParamItem<'_, T13>,
            p14: ExclusiveSystemParamItem<'_, T14>,
        |
            *w == world ==> #[trigger] call_requires(
                *self,
                (w, p0, p1, p2, p3, p4, p5, p6, p7, p8, p9, p10, p11, p12, p13, p14),
            )
    }

    open spec fn yields(&self, input: (), world: &mut World, out: Out) -> bool {
        exists|
            p0: ExclusiveSystemParamItem<'_, T0>,
            p1: ExclusiveSystemParamItem<'_, T1>,
            p2: ExclusiveSystemParamItem<'_, T2>,
            p3: ExclusiveSystemParamItem<'_, T3>,
            p4: ExclusiveSystemParamItem<'_, T4>,
            p5: ExclusiveSystemParamItem<'_, T5>,
            p6: ExclusiveSystemParamItem<'_, T6>,
            p7: ExclusiveSystemParamItem<'_, T7>,
            p8: ExclusiveSystemParamItem<'_, T8>,
            p9: ExclusiveSystemParamItem<'_, T9>,
            p10: ExclusiveSystemParamItem<'_, T10>,
            p11: ExclusiveSystemParamItem<'_, T11>,
            p12: ExclusiveSystemParamItem<'_, T12>,
            p13: ExclusiveSystemParamItem<'_, T13>,
            p14: ExclusiveSystemParamItem<'_, T14>,
        |
            #[trigger] call_ensures(
                *self,
                (world, p0, p1, p2, p3, p4, p5, p6, p7, p8, p9, p10, p11, p12, p13, p14),
                out,
            )
    }

    fn run(
        &mut self,
        world: &mut World,
        input: (),
        param_value: ExclusiveSystemParamItem<'_, Self::Param>,
    ) -> (out: Out) {
        let (p0, p1, p2, p3, p4, p5, p6, p7, p8, p9, p10, p11, p12, p13, p14) = param_value;
        let ghost lent = (p0, p1, p2, p3, p4, p5, p6, p7, p8, p9, p10, p11, p12, p13, p14);
        let out = call_inner16(
            &*self,
            world,
            p0,
            p1,
            p2,
            p3,
            p4,
            p5,
            p6,
            p7,
            p8,
            p9,
            p10,
            p11,
            p12,
            p13,
            p14,
        );
        proof {
            assert(exists|handed: &mut World|
                {
                    &&& *handed == *old(world)
                    &&& *final(handed) == *final(world)
                    &&& #[trigger] call_ensures(
                        *self,
                        (
                            handed,
                            lent.0,
                            lent.1,
                            lent.2,
                            lent.3,
                            lent.4,
                            lent.5,
                            lent.6,
                            lent.7,
                            lent.8,
                            lent.9,
                            lent.10,
                            lent.11,
                            lent.12,
                            lent.13,
                            lent.14,
                        ),
                        out,
                    )
                });
            let handed = choose|handed: &mut World|
                {
                    &&& *handed == *old(world)
                    &&& *final(handed) == *final(world)
                    &&& #[trigger] call_ensures(
                        *self,
                        (
                            handed,
                            lent.0,
                            lent.1,
                            lent.2,
                            lent.3,
                            lent.4,
                            lent.5,
                            lent.6,
                            lent.7,
                            lent.8,
                            lent.9,
                            lent.10,
                            lent.11,
                            lent.12,
                            lent.13,
                            lent.14,
                        ),
                        out,
                    )
                };
            assert(self.yields(input, handed, out));
        }
        out
    }
}

impl<
    In,
    Out,
    Func,
    T0: ExclusiveSystemParam,
    T1: ExclusiveSystemParam,
    T2: ExclusiveSystemParam,
    T3: ExclusiveSystemParam,
    T4: ExclusiveSystemParam,
    T5: ExclusiveSystemParam,
    T6: ExclusiveSystemParam,
    T7: ExclusiveSystemParam,
    T8: ExclusiveSystemParam,
    T9: ExclusiveSystemParam,
    T10: ExclusiveSystemParam,
    T11: ExclusiveSystemParam,
    T12: ExclusiveSystemParam,
    T13: ExclusiveSystemParam,
    T14: ExclusiveSystemParam,
> ExclusiveSystemParamFunction<
    (
        HasExclusiveSystemInput,
        In,
        (T0, T1, T2, T3, T4, T5, T6, T7, T8, T9, T10, T11, T12, T13, T14),
    ),
> for Func where
    Func: Fn(
        In,
        &mut World,
        T0,
        T1,
        T2,
        T3,
        T4,
        T5,
        T6,
        T7,
        T8,
        T9,
        T10,
        T11,
        T12,
        T13,
        T14,
    ) -> Out + Fn(
        In::Param<'_>,
        &mut World,
        ExclusiveSystemParamItem<T0>,
        ExclusiveSystemParamItem<T1>,
        ExclusiveSystemParamItem<T2>,
        ExclusiveSystemParamItem<T3>,
        ExclusiveSystemParamItem<T4>,
        ExclusiveSystemParamItem<T5>,
        ExclusiveSystemParamItem<T6>,
        ExclusiveSystemParamItem<T7>,
        ExclusiveSystemParamItem<T8>,
        ExclusiveSystemParamItem<T9>,
        ExclusiveSystemParamItem<T10>,
        ExclusiveSystemParamItem<T11>,
        ExclusiveSystemParamItem<T12>,
        ExclusiveSystemParamItem<T13>,
        ExclusiveSystemParamItem<T14>,
    ) -> Out,
    In: SystemInput,
 {
    type In = In;

    type Out = Out;

    type Param = (T0, T1, T2, T3, T4, T5, T6, T7, T8, T9, T10, T11, T12, T13, T14);

    open spec fn accepts(&self, input: In::Inner<'_>, world: World) -> bool {
        forall|
            w: &mut World,
            p0: ExclusiveSystemParamItem<'_, T0>,
            p1: ExclusiveSystemParamItem<'_, T1>,
            p2: ExclusiveSystemParamItem<'_, T2>,
            p3: ExclusiveSystemParamItem<'_, T3>,
            p4: ExclusiveSystemParamItem<'_, T4>,
            p5: ExclusiveSystemParamItem<'_, T5>,
            p6: ExclusiveSystemParamItem<'_, T6>,
            p7: ExclusiveSystemParamItem<'_, T7>,
            p8: ExclusiveSystemParamItem<'_, T8>,
            p9: ExclusiveSystemParamItem<'_, T9>,
            p10: ExclusiveSystemParamItem<'_, T10>,
            p11: ExclusiveSystemParamItem<'_, T11>,
            p12: ExclusiveSystemParamItem<'_, T12>,
            p13: ExclusiveSystemParamItem<'_, T13>,
            p14: ExclusiveSystemParamItem<'_, T14>,
        |
            *w == world ==> #[trigger] call_requires(
                *self,
                (
                    In::wrapped(input),
                    w,
                    p0,
                    p1,
                    p2,
                    p3,
                    p4,
                    p5,
                    p6,
                    p7,
                    p8,
                    p9,
                    p10,
                    p11,
                    p12,
                    p13,
                    p14,
                ),
            )
    }

    open spec fn yields(&self, input: In::Inner<'_>, world: &mut World, out: Out) -> bool {
        exists|
            p0: ExclusiveSystemParamItem<'_, T0>,
            p1: ExclusiveSystemParamItem<'_, T1>,
            p2: ExclusiveSystemParamItem<'_, T2>,
            p3: ExclusiveSystemParamItem<'_, T3>,
            p4: ExclusiveSystemParamItem<'_, T4>,
            p5: ExclusiveSystemParamItem<'_, T5>,
            p6: ExclusiveSystemParamItem<'_, T6>,
            p7: ExclusiveSystemParamItem<'_, T7>,
            p8: ExclusiveSystemParamItem<'_, T8>,
            p9: ExclusiveSystemParamItem<'_, T9>,
            p10: ExclusiveSystemParamItem<'_, T10>,
            p11: ExclusiveSystemParamItem<'_, T11>,
            p12: ExclusiveSystemParamItem<'_, T12>,
            p13: ExclusiveSystemParamItem<'_, T13>,
            p14: ExclusiveSystemParamItem<'_, T14>,
        |
            #[trigger] call_ensures(
                *self,
                (
                    In::wrapped(input),
                    world,
                    p0,
                    p1,
                    p2,
                    p3,
                    p4,
                    p5,
                    p6,
                    p7,
                    p8,
                    p9,
                    p10,
                    p11,
                    p12,
                    p13,
                    p14,
                ),
                out,
            )
    }

    fn run(
        &mut self,
        world: &mut World,
        input: In::Inner<'_>,
        param_value: ExclusiveSystemParamItem<'_, Self::Param>,
    ) -> (out: Out) {
        let (p0, p1, p2, p3, p4, p5, p6, p7, p8, p9, p10, p11, p12, p13, p14) = param_value;
        let ghost lent = (p0, p1, p2, p3, p4, p5, p6, p7, p8, p9, p10, p11, p12, p13, p14);
        let out = call_inner17(
            &*self,
            In::wrap(input),
            world,
            p0,
            p1,
            p2,
            p3,
            p4,
            p5,
            p6,
            p7,
            p8,
            p9,
            p10,
            p11,
            p12,
            p13,
            p14,
        );
        proof {
            assert(exists|handed: &mut World|
                {
                    &&& *handed == *old(world)
                    &&& *final(handed) == *final(world)
                    &&& #[trigger] call_ensures(
                        *self,
                        (
                            In::wrapped(input),
                            handed,
                            lent.0,
                            lent.1,
                            lent.2,
                            lent.3,
                            lent.4,
                            lent.5,
                            lent.6,
                            lent.7,
                            lent.8,
                            lent.9,
                            lent.10,
                            lent.11,
                            lent.12,
                            lent.13,
                            lent.14,
                        ),
                        out,
                    )
                });
            let handed = choose|handed: &mut World|
                {
                    &&& *handed == *old(world)
                    &&& *final(handed) == *final(world)
                    &&& #[trigger] call_ensures(
                        *self,
                        (
                            In::wrapped(input),
                            handed,
                            lent.0,
                            lent.1,
                            lent.2,
                            lent.3,
                            lent.4,
                            lent.5,
                            lent.6,
                            lent.7,
                            lent.8,
                            lent.9,
                            lent.10,
                            lent.11,
                            lent.12,
                            lent.13,
                            lent.14,
                        ),
                        out,
                    )
                };
            assert(self.yields(input, handed, out));
        }
        out
    }
}

impl<
    Out,
    Func,
    T0: ExclusiveSystemParam,
    T1: ExclusiveSystemParam,
    T2: ExclusiveSystemParam,
    T3: ExclusiveSystemParam,
    T4: ExclusiveSystemParam,
    T5: ExclusiveSystemParam,
    T6: ExclusiveSystemParam,
    T7: ExclusiveSystemParam,
    T8: ExclusiveSystemParam,
    T9: ExclusiveSystemParam,
    T10: ExclusiveSystemParam,
    T11: ExclusiveSystemParam,
    T12: ExclusiveSystemParam,
    T13: ExclusiveSystemParam,
    T14: ExclusiveSystemParam,
    T15: ExclusiveSystemParam,
> ExclusiveSystemParamFunction<
    (T0, T1, T2, T3, T4, T5, T6, T7, T8, T9, T10, T11, T12, T13, T14, T15),
> for Func where
    Func: Fn(
        &mut World,
        T0,
        T1,
        T2,
        T3,
        T4,
        T5,
        T6,
        T7,
        T8,
        T9,
        T10,
        T11,
        T12,
        T13,
        T14,
        T15,
    ) -> Out + Fn(
        &mut World,
        ExclusiveSystemParamItem<T0>,
        ExclusiveSystemParamItem<T1>,
        ExclusiveSystemParamItem<T2>,
        ExclusiveSystemParamItem<T3>,
        ExclusiveSystemParamItem<T4>,
        ExclusiveSystemParamItem<T5>,
        ExclusiveSystemParamItem<T6>,
        ExclusiveSystemParamItem<T7>,
        ExclusiveSystemParamItem<T8>,
        ExclusiveSystemParamItem<T9>,
        ExclusiveSystemParamItem<T10>,
        ExclusiveSystemParamItem<T11>,
        ExclusiveSystemParamItem<T12>,
        ExclusiveSystemParamItem<T13>,
        ExclusiveSystemParamItem<T14>,
        ExclusiveSystemParamItem<T15>,
    ) -> Out,
 {
    type In = ();

    type Out = Out;

    type Param = (T0, T1, T2, T3, T4, T5, T6, T7, T8, T9, T10, T11, T12, T13, T14, T15);

    open spec fn accepts(&self, input: (), world: World) -> bool {
        forall|
            w: &mut World,
            p0: ExclusiveSystemParamItem<'_, T0>,
            p1: ExclusiveSystemParamItem<'_, T1>,
            p2: ExclusiveSystemParamItem<'_, T2>,
            p3: ExclusiveSystemParamItem<'_, T3>,
            p4: ExclusiveSystemParamItem<'_, T4>,
            p5: ExclusiveSystemParamItem<'_, T5>,
            p6: ExclusiveSystemParamItem<'_, T6>,
            p7: ExclusiveSystemParamItem<'_, T7>,
            p8: ExclusiveSystemParamItem<'_, T8>,
            p9: ExclusiveSystemParamItem<'_, T9>,
            p10: ExclusiveSystemParamItem<'_, T10>,
            p11: ExclusiveSystemParamItem<'_, T11>,
            p12: ExclusiveSystemParamItem<'_, T12>,
            p13: ExclusiveSystemParamItem<'_, T13>,
            p14: ExclusiveSystemParamItem<'_, T14>,
            p15: ExclusiveSystemParamItem<'_, T15>,
        |
            *w == world ==> #[trigger] call_requires(
                *self,
                (w, p0, p1, p2, p3, p4, p5, p6, p7, p8, p9, p10, p11, p12, p13, p14, p15),
            )
    }

    open spec fn yields(&self, input: (), world: &mut World, out: Out) -> bool {
        exists|
            p0: ExclusiveSystemParamItem<'_, T0>,
            p1: ExclusiveSystemParamItem<'_, T1>,
            p2: ExclusiveSystemParamItem<'_, T2>,
            p3: ExclusiveSystemParamItem<'_, T3>,
            p4: ExclusiveSystemParamItem<'_, T4>,
            p5: ExclusiveSystemParamItem<'_, T5>,
            p6: ExclusiveSystemParamItem<'_, T6>,
            p7: ExclusiveSystemParamItem<'_, T7>,
            p8: ExclusiveSystemParamItem<'_, T8>,
            p9: ExclusiveSystemParamItem<'_, T9>,
            p10: ExclusiveSystemParamItem<'_, T10>,
            p11: ExclusiveSystemParamItem<'_, T11>,
            p12: ExclusiveSystemParamItem<'_, T12>,
            p13: ExclusiveSystemParamItem<'_, T13>,
            p14: ExclusiveSystemParamItem<'_, T14>,
            p15: ExclusiveSystemParamItem<'_, T15>,
        |
            #[trigger] call_ensures(
                *self,
                (world, p0, p1, p2, p3, p4, p5, p6, p7, p8, p9, p10, p11, p12, p13, p14, p15),
                out,
            )
    }

    fn run(
        &mut self,
        world: &mut World,
        input: (),
        param_value: ExclusiveSystemParamItem<'_, Self::Param>,
    ) -> (out: Out) {
        let (p0, p1, p2, p3, p4, p5, p6, p7, p8, p9, p10, p11, p12, p13, p14, p15) = param_value;
        let ghost lent = (p0, p1, p2, p3, p4, p5, p6, p7, p8, p9, p10, p11, p12, p13, p14, p15);
        let out = call_inner17(
            &*self,
            world,
            p0,
            p1,
            p2,
            p3,
            p4,
            p5,
            p6,
            p7,
            p8,
            p9,
            p10,
            p11,
            p12,
            p13,
            p14,
            p15,
        );
        proof {
            assert(exists|handed: &mut World|
                {
                    &&& *handed == *old(world)
                    &&& *final(handed) == *final(world)
                    &&& #[trigger] call_ensures(
                        *self,
                        (
                            handed,
                            lent.0,
                            lent.1,
                            lent.2,
                            lent.3,
                            lent.4,
                            lent.5,
                            lent.6,
                            lent.7,
                            lent.8,
                            lent.9,
                            lent.10,
                            lent.11,
                            lent.12,
                            lent.13,
                            lent.14,
                            lent.15,
                        ),
                        out,
                    )
                });
            let handed = choose|handed: &mut World|
                {
                    &&& *handed == *old(world)
                    &&& *final(handed) == *final(world)
                    &&& #[trigger] call_ensures(
                        *self,
                        (
                            handed,
                            lent.0,
                            lent.1,
                            lent.2,
                            lent.3,
                            lent.4,
                            lent.5,
                            lent.6,
                            lent.7,
                            lent.8,
                            lent.9,
                            lent.10,
                            lent.11,
                            lent.12,
                            lent.13,
                            lent.14,
                            lent.15,
                        ),
                        out,
                    )
                };
            assert(self.yields(input, handed, out));
        }
        out
    }
}

impl<
    In,
    Out,
    Func,
    T0: ExclusiveSystemParam,
    T1: ExclusiveSystemParam,
    T2: ExclusiveSystemParam,
    T3: ExclusiveSystemParam,
    T4: ExclusiveSystemParam,
    T5: ExclusiveSystemParam,
    T6: ExclusiveSystemParam,
    T7: ExclusiveSystemParam,
    T8: ExclusiveSystemParam,
    T9: ExclusiveSystemParam,
    T10: ExclusiveSystemParam,
    T11: ExclusiveSystemParam,
    T12: ExclusiveSystemParam,
    T13: ExclusiveSystemParam,
    T14: ExclusiveSystemParam,
    T15: ExclusiveSystemParam,
> ExclusiveSystemParamFunction<
    (
        HasExclusiveSystemInput,
        In,
        (T0, T1, T2, T3, T4, T5, T6, T7, T8, T9, T10, T11, T12, T13, T14, T15),
    ),
> for Func where
    Func: Fn(
        In,
        &mut World,
        T0,
        T1,
        T2,
        T3,
        T4,
        T5,
        T6,
        T7,
        T8,
        T9,
        T10,
        T11,
        T12,
        T13,
        T14,
        T15,
    ) -> Out + Fn(
        In::Param<'_>,
        &mut World,
        ExclusiveSystemParamItem<T0>,
        ExclusiveSystemParamItem<T1>,
        ExclusiveSystemParamItem<T2>,
        ExclusiveSystemParamItem<T3>,
        ExclusiveSystemParamItem<T4>,
        ExclusiveSystemParamItem<T5>,
        ExclusiveSystemParamItem<T6>,
        ExclusiveSystemParamItem<T7>,
        ExclusiveSystemParamItem<T8>,
        ExclusiveSystemParamItem<T9>,
        ExclusiveSystemParamItem<T10>,
        ExclusiveSystemParamItem<T11>,
        ExclusiveSystemParamItem<T12>,
        ExclusiveSystemParamItem<T13>,
        ExclusiveSystemParamItem<T14>,
        ExclusiveSystemParamItem<T15>,
    ) -> Out,
    In: SystemInput,
 {
    type In = In;

    type Out = Out;

    type Param = (T0, T1, T2, T3, T4, T5, T6, T7, T8, T9, T10, T11, T12, T13, T14, T15);

    open spec fn accepts(&self, input: In::Inner<'_>, world: World) -> bool {
        forall|
            w: &mut World,
            p0: ExclusiveSystemParamItem<'_, T0>,
            p1: ExclusiveSystemParamItem<'_, T1>,
            p2: ExclusiveSystemParamItem<'_, T2>,
            p3: ExclusiveSystemParamItem<'_, T3>,
            p4: ExclusiveSystemParamItem<'_, T4>,
            p5: ExclusiveSystemParamItem<'_, T5>,
            p6: ExclusiveSystemParamItem<'_, T6>,
            p7: ExclusiveSystemParamItem<'_, T7>,
            p8: ExclusiveSystemParamItem<'_, T8>,
            p9: ExclusiveSystemParamItem<'_, T9>,
            p10: ExclusiveSystemParamItem<'_, T10>,
            p11: ExclusiveSystemParamItem<'_, T11>,
            p12: ExclusiveSystemParamItem<'_, T12>,
            p13: ExclusiveSystemParamItem<'_, T13>,
            p14: ExclusiveSystemParamItem<'_, T14>,
            p15: ExclusiveSystemParamItem<'_, T15>,
        |
            *w == world ==> #[trigger] call_requires(
                *self,
                (
                    In::wrapped(input),
                    w,
                    p0,
                    p1,
                    p2,
                    p3,
                    p4,
                    p5,
                    p6,
                    p7,
                    p8,
                    p9,
                    p10,
                    p11,
                    p12,
                    p13,
                    p14,
                    p15,
                ),
            )
    }

    open spec fn yields(&self, input: In::Inner<'_>, world: &mut World, out: Out) -> bool {
        exists|
            p0: ExclusiveSystemParamItem<'_, T0>,
            p1: ExclusiveSystemParamItem<'_, T1>,
            p2: ExclusiveSystemParamItem<'_, T2>,
            p3: ExclusiveSystemParamItem<'_, T3>,
            p4: ExclusiveSystemParamItem<'_, T4>,
            p5: ExclusiveSystemParamItem<'_, T5>,
            p6: ExclusiveSystemParamItem<'_, T6>,
            p7: ExclusiveSystemParamItem<'_, T7>,
            p8: ExclusiveSystemParamItem<'_, T8>,
            p9: ExclusiveSystemParamItem<'_, T9>,
            p10: ExclusiveSystemParamItem<'_, T10>,
            p11: ExclusiveSystemParamItem<'_, T11>,
            p12: ExclusiveSystemParamItem<'_, T12>,
            p13: ExclusiveSystemParamItem<'_, T13>,
            p14: ExclusiveSystemParamItem<'_, T14>,
            p15: ExclusiveSystemParamItem<'_, T15>,
        |
            #[trigger] call_ensures(
                *self,
                (
                    In::wrapped(input),
                    world,
                    p0,
                    p1,
                    p2,
                    p3,
                    p4,
                    p5,
                    p6,
                    p7,
                    p8,
                    p9,
                    p10,
                    p11,
                    p12,
                    p13,
                    p14,
                    p15,
                ),
                out,
            )
    }

    fn run(
        &mut self,
        world: &mut World,
        input: In::Inner<'_>,
        param_value: ExclusiveSystemParamItem<'_, Self::Param>,
    ) -> (out: Out) {
        let (p0, p1, p2, p3, p4, p5, p6, p7, p8, p9, p10, p11, p12, p13, p14, p15) = param_value;
        let ghost lent = (p0, p1, p2, p3, p4, p5, p6, p7, p8, p9, p10, p11, p12, p13, p14, p15);
        let out = call_inner18(
            &*self,
            In::wrap(input),
            world,
            p0,
            p1,
            p2,
            p3,
            p4,
            p5,
            p6,
            p7,
            p8,
            p9,
            p10,
            p11,
            p12,
            p13,
            p14,
            p15,
        );
        proof {
            assert(exists|handed: &mut World|
                {
                    &&& *handed == *old(world)
                    &&& *final(handed) == *final(world)
                    &&& #[trigger] call_ensures(
                        *self,
                        (
                            In::wrapped(input),
                            handed,
                            lent.0,
                            lent.1,
                            lent.2,
                            lent.3,
                            lent.4,
                            lent.5,
                            lent.6,
                            lent.7,
                            lent.8,
                            lent.9,
                            lent.10,
                            lent.11,
                            lent.12,
                            lent.13,
                            lent.14,
                            lent.15,
                        ),
                        out,
                    )
                });
            let handed = choose|handed: &mut World|
                {
                    &&& *handed == *old(world)
                    &&& *final(handed) == *final(world)
                    &&& #[trigger] call_ensures(
                        *self,
                        (
                            In::wrapped(input),
                            handed,
                            lent.0,
                            lent.1,
                            lent.2,
                            lent.3,
                            lent.4,
                            lent.5,
                            lent.6,
                            lent.7,
                            lent.8,
                            lent.9,
                            lent.10,
                            lent.11,
                            lent.12,
                            lent.13,
                            lent.14,
                            lent.15,
                        ),
                        out,
                    )
                };
            assert(self.yields(input, handed, out));
        }
        out
    }
}

} // verus!
