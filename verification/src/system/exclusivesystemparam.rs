//! The values that an exclusive system hands to its function besides the
//! world.

use crate::system::systemmeta::SystemMeta;
use crate::world::World;
use vstd::prelude::*;

verus! {

/// A kind of argument of an exclusive system that is not taken from the world.
pub trait ExclusiveSystemParam: Sized {
    /// What the system keeps from one run to the next.
    type State;

    /// What the function receives: `Self`, borrowed from the state.
    type Item<'s>;

    /// Whether `state` is as `init` makes it.
    spec fn initial(state: &Self::State) -> bool;

    /// Whether `item` is what `get_param` makes of `state`.
    spec fn lent(state: &Self::State, item: Self::Item<'_>) -> bool;

    /// Whether `init` leaves the world as it is.
    spec fn still() -> bool;

    /// Makes the state, once, before the first run. Leaves the world at its
    /// tick and takes nothing out of it.
    fn init(world: &mut World, system_meta: &mut SystemMeta) -> (state: Self::State)
        ensures
            Self::initial(&state),
            final(world).extends(*old(world)),
            Self::still() ==> *final(world) == *old(world),
            final(system_meta).last_run == old(system_meta).last_run,
    ;

    /// Makes the argument for one run of the system of what the system has
    /// kept.
    fn get_param<'s>(state: &'s mut Self::State, system_meta: &SystemMeta) -> (item: Self::Item<
        's,
    >)
        ensures
            Self::lent(old(state), item),
    ;
}

/// What the function receives for a parameter of kind `P`.
pub type ExclusiveSystemParamItem<'s, P> = <P as ExclusiveSystemParam>::Item<'s>;

impl ExclusiveSystemParam for () {
    type State = ();

    type Item<'s> = ();

    open spec fn initial(state: &Self::State) -> bool {
        true
    }

    open spec fn lent(state: &Self::State, item: Self::Item<'_>) -> bool {
        true
    }

    open spec fn still() -> bool {
        true
    }

    fn init(world: &mut World, system_meta: &mut SystemMeta) -> (state: Self::State) {
    }

    fn get_param<'s>(state: &'s mut Self::State, system_meta: &SystemMeta) -> (item: Self::Item<
        's,
    >) {
    }
}

// The tuples of up to sixteen parameters: each is handled in its turn.

impl<T0: ExclusiveSystemParam> ExclusiveSystemParam for (T0,) {
    type State = (T0::State,);

    type Item<'s> = (T0::Item<'s>,);

    open spec fn initial(state: &Self::State) -> bool {
        T0::initial(&state.0)
    }

    open spec fn lent(state: &Self::State, item: Self::Item<'_>) -> bool {
        T0::lent(&state.0, item.0)
    }

    open spec fn still() -> bool {
        T0::still()
    }

    fn init(world: &mut World, system_meta: &mut SystemMeta) -> (state: Self::State) {
        let s0 = T0::init(world, system_meta);
        (s0,)
    }

    fn get_param<'s>(state: &'s mut Self::State, system_meta: &SystemMeta) -> (item: Self::Item<
        's,
    >) {
        let p0 = T0::get_param(&mut state.0, system_meta);
        (p0,)
    }
}

impl<T0: ExclusiveSystemParam, T1: ExclusiveSystemParam> ExclusiveSystemParam for (T0, T1) {
    type State = (T0::State, T1::State);

    type Item<'s> = (T0::Item<'s>, T1::Item<'s>);

    open spec fn initial(state: &Self::State) -> bool {
        &&& T0::initial(&state.0)
        &&& T1::initial(&state.1)
    }

    open spec fn lent(state: &Self::State, item: Self::Item<'_>) -> bool {
        &&& T0::lent(&state.0, item.0)
        &&& T1::lent(&state.1, item.1)
    }

    open spec fn still() -> bool {
        &&& T0::still()
        &&& T1::still()
    }

    fn init(world: &mut World, system_meta: &mut SystemMeta) -> (state: Self::State) {
        let ghost before = *world;
        let s0 = T0::init(world, system_meta);
        let ghost reached = *world;
        let s1 = T1::init(world, system_meta);
        proof {
            world.lemma_extends_twice(reached, before);
        }
        (s0, s1)
    }

    fn get_param<'s>(state: &'s mut Self::State, system_meta: &SystemMeta) -> (item: Self::Item<
        's,
    >) {
        let p0 = T0::get_param(&mut state.0, system_meta);
        let p1 = T1::get_param(&mut state.1, system_meta);
        (p0, p1)
    }
}

impl<
    T0: ExclusiveSystemParam,
    T1: ExclusiveSystemParam,
    T2: ExclusiveSystemParam,
> ExclusiveSystemParam for (T0, T1, T2) {
    type State = (T0::State, T1::State, T2::State);

    type Item<'s> = (T0::Item<'s>, T1::Item<'s>, T2::Item<'s>);

    open spec fn initial(state: &Self::State) -> bool {
        &&& T0::initial(&state.0)
        &&& T1::initial(&state.1)
        &&& T2::initial(&state.2)
    }

    open spec fn lent(state: &Self::State, item: Self::Item<'_>) -> bool {
        &&& T0::lent(&state.0, item.0)
        &&& T1::lent(&state.1, item.1)
        &&& T2::lent(&state.2, item.2)
    }

    open spec fn still() -> bool {
        &&& T0::still()
        &&& T1::still()
        &&& T2::still()
    }

    fn init(world: &mut World, system_meta: &mut SystemMeta) -> (state: Self::State) {
        let ghost before = *world;
        let s0 = T0::init(world, system_meta);
        let ghost reached = *world;
        let s1 = T1::init(world, system_meta);
        proof {
            world.lemma_extends_twice(reached, before);
        }
        let ghost reached = *world;
        let s2 = T2::init(world, system_meta);
        proof {
            world.lemma_extends_twice(reached, before);
        }
        (s0, s1, s2)
    }

    fn get_param<'s>(state: &'s mut Self::State, system_meta: &SystemMeta) -> (item: Self::Item<
        's,
    >) {
        let p0 = T0::get_param(&mut state.0, system_meta);
        let p1 = T1::get_param(&mut state.1, system_meta);
        let p2 = T2::get_param(&mut state.2, system_meta);
        (p0, p1, p2)
    }
}

impl<
    T0: ExclusiveSystemParam,
    T1: ExclusiveSystemParam,
    T2: ExclusiveSystemParam,
    T3: ExclusiveSystemParam,
> ExclusiveSystemParam for (T0, T1, T2, T3) {
    type State = (T0::State, T1::State, T2::State, T3::State);

    type Item<'s> = (T0::Item<'s>, T1::Item<'s>, T2::Item<'s>, T3::Item<'s>);

    open spec fn initial(state: &Self::State) -> bool {
        &&& T0::initial(&state.0)
        &&& T1::initial(&state.1)
        &&& T2::initial(&state.2)
        &&& T3::initial(&state.3)
    }

    open spec fn lent(state: &Self::State, item: Self::Item<'_>) -> bool {
        &&& T0::lent(&state.0, item.0)
        &&& T1::lent(&state.1, item.1)
        &&& T2::lent(&state.2, item.2)
        &&& T3::lent(&state.3, item.3)
    }

    open spec fn still() -> bool {
        &&& T0::still()
        &&& T1::still()
        &&& T2::still()
        &&& T3::still()
    }

    fn init(world: &mut World, system_meta: &mut SystemMeta) -> (state: Self::State) {
        let ghost before = *world;
        let s0 = T0::init(world, system_meta);
        let ghost reached = *world;
        let s1 = T1::init(world, system_meta);
        proof {
            world.lemma_extends_twice(reached, before);
        }
        let ghost reached = *world;
        let s2 = T2::init(world, system_meta);
        proof {
            world.lemma_extends_twice(reached, before);
        }
        let ghost reached = *world;
        let s3 = T3::init(world, system_meta);
        proof {
            world.lemma_extends_twice(reached, before);
        }
        (s0, s1, s2, s3)
    }

    fn get_param<'s>(state: &'s mut Self::State, system_meta: &SystemMeta) -> (item: Self::Item<
        's,
    >) {
        let p0 = T0::get_param(&mut state.0, system_meta);
        let p1 = T1::get_param(&mut state.1, system_meta);
        let p2 = T2::get_param(&mut state.2, system_meta);
        let p3 = T3::get_param(&mut state.3, system_meta);
        (p0, p1, p2, p3)
    }
}

impl<
    T0: ExclusiveSystemParam,
    T1: ExclusiveSystemParam,
    T2: ExclusiveSystemParam,
    T3: ExclusiveSystemParam,
    T4: ExclusiveSystemParam,
> ExclusiveSystemParam for (T0, T1, T2, T3, T4) {
    type State = (T0::State, T1::State, T2::State, T3::State, T4::State);

    type Item<'s> = (T0::Item<'s>, T1::Item<'s>, T2::Item<'s>, T3::Item<'s>, T4::Item<'s>);

    open spec fn initial(state: &Self::State) -> bool {
        &&& T0::initial(&state.0)
        &&& T1::initial(&state.1)
        &&& T2::initial(&state.2)
        &&& T3::initial(&state.3)
        &&& T4::initial(&state.4)
    }

    open spec fn lent(state: &Self::State, item: Self::Item<'_>) -> bool {
        &&& T0::lent(&state.0, item.0)
        &&& T1::lent(&state.1, item.1)
        &&& T2::lent(&state.2, item.2)
        &&& T3::lent(&state.3, item.3)
        &&& T4::lent(&state.4, item.4)
    }

    open spec fn still() -> bool {
        &&& T0::still()
        &&& T1::still()
        &&& T2::still()
        &&& T3::still()
        &&& T4::still()
    }

    fn init(world: &mut World, system_meta: &mut SystemMeta) -> (state: Self::State) {
        let ghost before = *world;
        let s0 = T0::init(world, system_meta);
        let ghost reached = *world;
        let s1 = T1::init(world, system_meta);
        proof {
            world.lemma_extends_twice(reached, before);
        }
        let ghost reached = *world;
        let s2 = T2::init(world, system_meta);
        proof {
            world.lemma_extends_twice(reached, before);
        }
        let ghost reached = *world;
        let s3 = T3::init(world, system_meta);
        proof {
            world.lemma_extends_twice(reached, before);
        }
        let ghost reached = *world;
        let s4 = T4::init(world, system_meta);
        proof {
            world.lemma_extends_twice(reached, before);
        }
        (s0, s1, s2, s3, s4)
    }

    fn get_param<'s>(state: &'s mut Self::State, system_meta: &SystemMeta) -> (item: Self::Item<
        's,
    >) {
        let p0 = T0::get_param(&mut state.0, system_meta);
        let p1 = T1::get_param(&mut state.1, system_meta);
        let p2 = T2::get_param(&mut state.2, system_meta);
        let p3 = T3::get_param(&mut state.3, system_meta);
        let p4 = T4::get_param(&mut state.4, system_meta);
        (p0, p1, p2, p3, p4)
    }
}

impl<
    T0: ExclusiveSystemParam,
    T1: ExclusiveSystemParam,
    T2: ExclusiveSystemParam,
    T3: ExclusiveSystemParam,
    T4: ExclusiveSystemParam,
    T5: ExclusiveSystemParam,
> ExclusiveSystemParam for (T0, T1, T2, T3, T4, T5) {
    type State = (T0::State, T1::State, T2::State, T3::State, T4::State, T5::State);

    type Item<'s> = (
        T0::Item<'s>,
        T1::Item<'s>,
        T2::Item<'s>,
        T3::Item<'s>,
        T4::Item<'s>,
        T5::Item<'s>,
    );

    open spec fn initial(state: &Self::State) -> bool {
        &&& T0::initial(&state.0)
        &&& T1::initial(&state.1)
        &&& T2::initial(&state.2)
        &&& T3::initial(&state.3)
        &&& T4::initial(&state.4)
        &&& T5::initial(&state.5)
    }

    open spec fn lent(state: &Self::State, item: Self::Item<'_>) -> bool {
        &&& T0::lent(&state.0, item.0)
        &&& T1::lent(&state.1, item.1)
        &&& T2::lent(&state.2, item.2)
        &&& T3::lent(&state.3, item.3)
        &&& T4::lent(&state.4, item.4)
        &&& T5::lent(&state.5, item.5)
    }

    open spec fn still() -> bool {
        &&& T0::still()
        &&& T1::still()
        &&& T2::still()
        &&& T3::still()
        &&& T4::still()
        &&& T5::still()
    }

    fn init(world: &mut World, system_meta: &mut SystemMeta) -> (state: Self::State) {
        let ghost before = *world;
        let s0 = T0::init(world, system_meta);
        let ghost reached = *world;
        let s1 = T1::init(world, system_meta);
        proof {
            world.lemma_extends_twice(reached, before);
        }
        let ghost reached = *world;
        let s2 = T2::init(world, system_meta);
        proof {
            world.lemma_extends_twice(reached, before);
        }
        let ghost reached = *world;
        let s3 = T3::init(world, system_meta);
        proof {
            world.lemma_extends_twice(reached, before);
        }
        let ghost reached = *world;
        let s4 = T4::init(world, system_meta);
        proof {
            world.lemma_extends_twice(reached, before);
        }
        let ghost reached = *world;
        let s5 = T5::init(world, system_meta);
        proof {
            world.lemma_extends_twice(reached, before);
        }
        (s0, s1, s2, s3, s4, s5)
    }

    fn get_param<'s>(state: &'s mut Self::State, system_meta: &SystemMeta) -> (item: Self::Item<
        's,
    >) {
        let p0 = T0::get_param(&mut state.0, system_meta);
        let p1 = T1::get_param(&mut state.1, system_meta);
        let p2 = T2::get_param(&mut state.2, system_meta);
        let p3 = T3::get_param(&mut state.3, system_meta);
        let p4 = T4::get_param(&mut state.4, system_meta);
        let p5 = T5::get_param(&mut state.5, system_meta);
        (p0, p1, p2, p3, p4, p5)
    }
}

impl<
    T0: ExclusiveSystemParam,
    T1: ExclusiveSystemParam,
    T2: ExclusiveSystemParam,
    T3: ExclusiveSystemParam,
    T4: ExclusiveSystemParam,
    T5: ExclusiveSystemParam,
    T6: ExclusiveSystemParam,
> ExclusiveSystemParam for (T0, T1, T2, T3, T4, T5, T6) {
    type State = (T0::State, T1::State, T2::State, T3::State, T4::State, T5::State, T6::State);

    type Item<'s> = (
        T0::Item<'s>,
        T1::Item<'s>,
        T2::Item<'s>,
        T3::Item<'s>,
        T4::Item<'s>,
        T5::Item<'s>,
        T6::Item<'s>,
    );

    open spec fn initial(state: &Self::State) -> bool {
        &&& T0::initial(&state.0)
        &&& T1::initial(&state.1)
        &&& T2::initial(&state.2)
        &&& T3::initial(&state.3)
        &&& T4::initial(&state.4)
        &&& T5::initial(&state.5)
        &&& T6::initial(&state.6)
    }

    open spec fn lent(state: &Self::State, item: Self::Item<'_>) -> bool {
        &&& T0::lent(&state.0, item.0)
        &&& T1::lent(&state.1, item.1)
        &&& T2::lent(&state.2, item.2)
        &&& T3::lent(&state.3, item.3)
        &&& T4::lent(&state.4, item.4)
        &&& T5::lent(&state.5, item.5)
        &&& T6::lent(&state.6, item.6)
    }

    open spec fn still() -> bool {
        &&& T0::still()
        &&& T1::still()
        &&& T2::still()
        &&& T3::still()
        &&& T4::still()
        &&& T5::still()
        &&& T6::still()
    }

    fn init(world: &mut World, system_meta: &mut SystemMeta) -> (state: Self::State) {
        let ghost before = *world;
        let s0 = T0::init(world, system_meta);
        let ghost reached = *world;
        let s1 = T1::init(world, system_meta);
        proof {
            world.lemma_extends_twice(reached, before);
        }
        let ghost reached = *world;
        let s2 = T2::init(world, system_meta);
        proof {
            world.lemma_extends_twice(reached, before);
        }
        let ghost reached = *world;
        let s3 = T3::init(world, system_meta);
        proof {
            world.lemma_extends_twice(reached, before);
        }
        let ghost reached = *world;
        let s4 = T4::init(world, system_meta);
        proof {
            world.lemma_extends_twice(reached, before);
        }
        let ghost reached = *world;
        let s5 = T5::init(world, system_meta);
        proof {
            world.lemma_extends_twice(reached, before);
        }
        let ghost reached = *world;
        let s6 = T6::init(world, system_meta);
        proof {
            world.lemma_extends_twice(reached, before);
        }
        (s0, s1, s2, s3, s4, s5, s6)
    }

    fn get_param<'s>(state: &'s mut Self::State, system_meta: &SystemMeta) -> (item: Self::Item<
        's,
    >) {
        let p0 = T0::get_param(&mut state.0, system_meta);
        let p1 = T1::get_param(&mut state.1, system_meta);
        let p2 = T2::get_param(&mut state.2, system_meta);
        let p3 = T3::get_param(&mut state.3, system_meta);
        let p4 = T4::get_param(&mut state.4, system_meta);
        let p5 = T5::get_param(&mut state.5, system_meta);
        let p6 = T6::get_param(&mut state.6, system_meta);
        (p0, p1, p2, p3, p4, p5, p6)
    }
}

impl<
    T0: ExclusiveSystemParam,
    T1: ExclusiveSystemParam,
    T2: ExclusiveSystemParam,
    T3: ExclusiveSystemParam,
    T4: ExclusiveSystemParam,
    T5: ExclusiveSystemParam,
    T6: ExclusiveSystemParam,
    T7: ExclusiveSystemParam,
> ExclusiveSystemParam for (T0, T1, T2, T3, T4, T5, T6, T7) {
    type State = (
        T0::State,
        T1::State,
        T2::State,
        T3::State,
        T4::State,
        T5::State,
        T6::State,
        T7::State,
    );

    type Item<'s> = (
        T0::Item<'s>,
        T1::Item<'s>,
        T2::Item<'s>,
        T3::Item<'s>,
        T4::Item<'s>,
        T5::Item<'s>,
        T6::Item<'s>,
        T7::Item<'s>,
    );

    open spec fn initial(state: &Self::State) -> bool {
        &&& T0::initial(&state.0)
        &&& T1::initial(&state.1)
        &&& T2::initial(&state.2)
        &&& T3::initial(&state.3)
        &&& T4::initial(&state.4)
        &&& T5::initial(&state.5)
        &&& T6::initial(&state.6)
        &&& T7::initial(&state.7)
    }

    open spec fn lent(state: &Self::State, item: Self::Item<'_>) -> bool {
        &&& T0::lent(&state.0, item.0)
        &&& T1::lent(&state.1, item.1)
        &&& T2::lent(&state.2, item.2)
        &&& T3::lent(&state.3, item.3)
        &&& T4::lent(&state.4, item.4)
        &&& T5::lent(&state.5, item.5)
        &&& T6::lent(&state.6, item.6)
        &&& T7::lent(&state.7, item.7)
    }

    open spec fn still() -> bool {
        &&& T0::still()
        &&& T1::still()
        &&& T2::still()
        &&& T3::still()
        &&& T4::still()
        &&& T5::still()
        &&& T6::still()
        &&& T7::still()
    }

    fn init(world: &mut World, system_meta: &mut SystemMeta) -> (state: Self::State) {
        let ghost before = *world;
        let s0 = T0::init(world, system_meta);
        let ghost reached = *world;
        let s1 = T1::init(world, system_meta);
        proof {
            world.lemma_extends_twice(reached, before);
        }
        let ghost reached = *world;
        let s2 = T2::init(world, system_meta);
        proof {
            world.lemma_extends_twice(reached, before);
        }
        let ghost reached = *world;
        let s3 = T3::init(world, system_meta);
        proof {
            world.lemma_extends_twice(reached, before);
        }
        let ghost reached = *world;
        let s4 = T4::init(world, system_meta);
        proof {
            world.lemma_extends_twice(reached, before);
        }
        let ghost reached = *world;
        let s5 = T5::init(world, system_meta);
        proof {
            world.lemma_extends_twice(reached, before);
        }
        let ghost reached = *world;
        let s6 = T6::init(world, system_meta);
        proof {
            world.lemma_extends_twice(reached, before);
        }
        let ghost reached = *world;
        let s7 = T7::init(world, system_meta);
        proof {
            world.lemma_extends_twice(reached, before);
        }
        (s0, s1, s2, s3, s4, s5, s6, s7)
    }

    fn get_param<'s>(state: &'s mut Self::State, system_meta: &SystemMeta) -> (item: Self::Item<
        's,
    >) {
        let p0 = T0::get_param(&mut state.0, system_meta);
        let p1 = T1::get_param(&mut state.1, system_meta);
        let p2 = T2::get_param(&mut state.2, system_meta);
        let p3 = T3::get_param(&mut state.3, system_meta);
        let p4 = T4::get_param(&mut state.4, system_meta);
        let p5 = T5::get_param(&mut state.5, system_meta);
        let p6 = T6::get_param(&mut state.6, system_meta);
        let p7 = T7::get_param(&mut state.7, system_meta);
        (p0, p1, p2, p3, p4, p5, p6, p7)
    }
}

impl<
    T0: ExclusiveSystemParam,
    T1: ExclusiveSystemParam,
    T2: ExclusiveSystemParam,
    T3: ExclusiveSystemParam,
    T4: ExclusiveSystemParam,
    T5: ExclusiveSystemParam,
    T6: ExclusiveSystemParam,
    T7: ExclusiveSystemParam,
    T8: ExclusiveSystemParam,
> ExclusiveSystemParam for (T0, T1, T2, T3, T4, T5, T6, T7, T8) {
    type State = (
        T0::State,
        T1::State,
        T2::State,
        T3::State,
        T4::State,
        T5::State,
        T6::State,
        T7::State,
        T8::State,
    );

    type Item<'s> = (
        T0::Item<'s>,
        T1::Item<'s>,
        T2::Item<'s>,
        T3::Item<'s>,
        T4::Item<'s>,
        T5::Item<'s>,
        T6::Item<'s>,
        T7::Item<'s>,
        T8::Item<'s>,
    );

    open spec fn initial(state: &Self::State) -> bool {
        &&& T0::initial(&state.0)
        &&& T1::initial(&state.1)
        &&& T2::initial(&state.2)
        &&& T3::initial(&state.3)
        &&& T4::initial(&state.4)
        &&& T5::initial(&state.5)
        &&& T6::initial(&state.6)
        &&& T7::initial(&state.7)
        &&& T8::initial(&state.8)
    }

    open spec fn lent(state: &Self::State, item: Self::Item<'_>) -> bool {
        &&& T0::lent(&state.0, item.0)
        &&& T1::lent(&state.1, item.1)
        &&& T2::lent(&state.2, item.2)
        &&& T3::lent(&state.3, item.3)
        &&& T4::lent(&state.4, item.4)
        &&& T5::lent(&state.5, item.5)
        &&& T6::lent(&state.6, item.6)
        &&& T7::lent(&state.7, item.7)
        &&& T8::lent(&state.8, item.8)
    }

    open spec fn still() -> bool {
        &&& T0::still()
        &&& T1::still()
        &&& T2::still()
        &&& T3::still()
        &&& T4::still()
        &&& T5::still()
        &&& T6::still()
        &&& T7::still()
        &&& T8::still()
    }

    fn init(world: &mut World, system_meta: &mut SystemMeta) -> (state: Self::State) {
        let ghost before = *world;
        let s0 = T0::init(world, system_meta);
        let ghost reached = *world;
        let s1 = T1::init(world, system_meta);
        proof {
            world.lemma_extends_twice(reached, before);
        }
        let ghost reached = *world;
        let s2 = T2::init(world, system_meta);
        proof {
            world.lemma_extends_twice(reached, before);
        }
        let ghost reached = *world;
        let s3 = T3::init(world, system_meta);
        proof {
            world.lemma_extends_twice(reached, before);
        }
        let ghost reached = *world;
        let s4 = T4::init(world, system_meta);
        proof {
            world.lemma_extends_twice(reached, before);
        }
        let ghost reached = *world;
        let s5 = T5::init(world, system_meta);
        proof {
            world.lemma_extends_twice(reached, before);
        }
        let ghost reached = *world;
        let s6 = T6::init(world, system_meta);
        proof {
            world.lemma_extends_twice(reached, before);
        }
        let ghost reached = *world;
        let s7 = T7::init(world, system_meta);
        proof {
            world.lemma_extends_twice(reached, before);
        }
        let ghost reached = *world;
        let s8 = T8::init(world, system_meta);
        proof {
            world.lemma_extends_twice(reached, before);
        }
        (s0, s1, s2, s3, s4, s5, s6, s7, s8)
    }

    fn get_param<'s>(state: &'s mut Self::State, system_meta: &SystemMeta) -> (item: Self::Item<
        's,
    >) {
        let p0 = T0::get_param(&mut state.0, system_meta);
        let p1 = T1::get_param(&mut state.1, system_meta);
        let p2 = T2::get_param(&mut state.2, system_meta);
        let p3 = T3::get_param(&mut state.3, system_meta);
        let p4 = T4::get_param(&mut state.4, system_meta);
        let p5 = T5::get_param(&mut state.5, system_meta);
        let p6 = T6::get_param(&mut state.6, system_meta);
        let p7 = T7::get_param(&mut state.7, system_meta);
        let p8 = T8::get_param(&mut state.8, system_meta);
        (p0, p1, p2, p3, p4, p5, p6, p7, p8)
    }
}

impl<
    T0: ExclusiveSystemParam,
    T1: ExclusiveSystemParam,
    T2: ExclusiveSystemParam,
    T3: ExclusiveSystemParam,
    T4: ExclusiveSystemParam,
    T5: ExclusiveSystemParam,
    T6: ExclusiveSystemParam,
    T7: ExclusiveSystemParam,
    T8: ExclusiveSystemParam,
    T9: ExclusiveSystemParam,
> ExclusiveSystemParam for (T0, T1, T2, T3, T4, T5, T6, T7, T8, T9) {
    type State = (
        T0::State,
        T1::State,
        T2::State,
        T3::State,
        T4::State,
        T5::State,
        T6::State,
        T7::State,
        T8::State,
        T9::State,
    );

    type Item<'s> = (
        T0::Item<'s>,
        T1::Item<'s>,
        T2::Item<'s>,
        T3::Item<'s>,
        T4::Item<'s>,
        T5::Item<'s>,
        T6::Item<'s>,
        T7::Item<'s>,
        T8::Item<'s>,
        T9::Item<'s>,
    );

    open spec fn initial(state: &Self::State) -> bool {
        &&& T0::initial(&state.0)
        &&& T1::initial(&state.1)
        &&& T2::initial(&state.2)
        &&& T3::initial(&state.3)
        &&& T4::initial(&state.4)
        &&& T5::initial(&state.5)
        &&& T6::initial(&state.6)
        &&& T7::initial(&state.7)
        &&& T8::initial(&state.8)
        &&& T9::initial(&state.9)
    }

    open spec fn lent(state: &Self::State, item: Self::Item<'_>) -> bool {
        &&& T0::lent(&state.0, item.0)
        &&& T1::lent(&state.1, item.1)
        &&& T2::lent(&state.2, item.2)
        &&& T3::lent(&state.3, item.3)
        &&& T4::lent(&state.4, item.4)
        &&& T5::lent(&state.5, item.5)
        &&& T6::lent(&state.6, item.6)
        &&& T7::lent(&state.7, item.7)
        &&& T8::lent(&state.8, item.8)
        &&& T9::lent(&state.9, item.9)
    }

    open spec fn still() -> bool {
        &&& T0::still()
        &&& T1::still()
        &&& T2::still()
        &&& T3::still()
        &&& T4::still()
        &&& T5::still()
        &&& T6::still()
        &&& T7::still()
        &&& T8::still()
        &&& T9::still()
    }

    fn init(world: &mut World, system_meta: &mut SystemMeta) -> (state: Self::State) {
        let ghost before = *world;
        let s0 = T0::init(world, system_meta);
        let ghost reached = *world;
        let s1 = T1::init(world, system_meta);
        proof {
            world.lemma_extends_twice(reached, before);
        }
        let ghost reached = *world;
        let s2 = T2::init(world, system_meta);
        proof {
            world.lemma_extends_twice(reached, before);
        }
        let ghost reached = *world;
        let s3 = T3::init(world, system_meta);
        proof {
            world.lemma_extends_twice(reached, before);
        }
        let ghost reached = *world;
        let s4 = T4::init(world, system_meta);
        proof {
            world.lemma_extends_twice(reached, before);
        }
        let ghost reached = *world;
        let s5 = T5::init(world, system_meta);
        proof {
            world.lemma_extends_twice(reached, before);
        }
        let ghost reached = *world;
        let s6 = T6::init(world, system_meta);
        proof {
            world.lemma_extends_twice(reached, before);
        }
        let ghost reached = *world;
        let s7 = T7::init(world, system_meta);
        proof {
            world.lemma_extends_twice(reached, before);
        }
        let ghost reached = *world;
        let s8 = T8::init(world, system_meta);
        proof {
            world.lemma_extends_twice(reached, before);
        }
        let ghost reached = *world;
        let s9 = T9::init(world, system_meta);
        proof {
            world.lemma_extends_twice(reached, before);
        }
        (s0, s1, s2, s3, s4, s5, s6, s7, s8, s9)
    }

    fn get_param<'s>(state: &'s mut Self::State, system_meta: &SystemMeta) -> (item: Self::Item<
        's,
    >) {
        let p0 = T0::get_param(&mut state.0, system_meta);
        let p1 = T1::get_param(&mut state.1, system_meta);
        let p2 = T2::get_param(&mut state.2, system_meta);
        let p3 = T3::get_param(&mut state.3, system_meta);
        let p4 = T4::get_param(&mut state.4, system_meta);
        let p5 = T5::get_param(&mut state.5, system_meta);
        let p6 = T6::get_param(&mut state.6, system_meta);
        let p7 = T7::get_param(&mut state.7, system_meta);
        let p8 = T8::get_param(&mut state.8, system_meta);
        let p9 = T9::get_param(&mut state.9, system_meta);
        (p0, p1, p2, p3, p4, p5, p6, p7, p8, p9)
    }
}

impl<
    T0: ExclusiveSystemParam,
    T1: ExclusiveSystemParam,
    T2: ExclusiveSystemParam,
    T3: ExclusiveSystemParam,
    T4: ExclusiveSystemParam,
    T5: ExclusiveSystemParam,
    T6: ExclusiveSystemParam,
    T7: ExclusiveSystemParam,
    T8: ExclusiveSystemParam,
    T9: ExclusiveSystemParam,
    T10: ExclusiveSystemParam,
> ExclusiveSystemParam for (T0, T1, T2, T3, T4, T5, T6, T7, T8, T9, T10) {
    type State = (
        T0::State,
        T1::State,
        T2::State,
        T3::State,
        T4::State,
        T5::State,
        T6::State,
        T7::State,
        T8::State,
        T9::State,
        T10::State,
    );

    type Item<'s> = (
        T0::Item<'s>,
        T1::Item<'s>,
        T2::Item<'s>,
        T3::Item<'s>,
        T4::Item<'s>,
        T5::Item<'s>,
        T6::Item<'s>,
        T7::Item<'s>,
        T8::Item<'s>,
        T9::Item<'s>,
        T10::Item<'s>,
    );

    open spec fn initial(state: &Self::State) -> bool {
        &&& T0::initial(&state.0)
        &&& T1::initial(&state.1)
        &&& T2::initial(&state.2)
        &&& T3::initial(&state.3)
        &&& T4::initial(&state.4)
        &&& T5::initial(&state.5)
        &&& T6::initial(&state.6)
        &&& T7::initial(&state.7)
        &&& T8::initial(&state.8)
        &&& T9::initial(&state.9)
        &&& T10::initial(&state.10)
    }

    open spec fn lent(state: &Self::State, item: Self::Item<'_>) -> bool {
        &&& T0::lent(&state.0, item.0)
        &&& T1::lent(&state.1, item.1)
        &&& T2::lent(&state.2, item.2)
        &&& T3::lent(&state.3, item.3)
        &&& T4::lent(&state.4, item.4)
        &&& T5::lent(&state.5, item.5)
        &&& T6::lent(&state.6, item.6)
        &&& T7::lent(&state.7, item.7)
        &&& T8::lent(&state.8, item.8)
        &&& T9::lent(&state.9, item.9)
        &&& T10::lent(&state.10, item.10)
    }

    open spec fn still() -> bool {
        &&& T0::still()
        &&& T1::still()
        &&& T2::still()
        &&& T3::still()
        &&& T4::still()
        &&& T5::still()
        &&& T6::still()
        &&& T7::still()
        &&& T8::still()
        &&& T9::still()
        &&& T10::still()
    }

    fn init(world: &mut World, system_meta: &mut SystemMeta) -> (state: Self::State) {
        let ghost before = *world;
        let s0 = T0::init(world, system_meta);
        let ghost reached = *world;
        let s1 = T1::init(world, system_meta);
        proof {
            world.lemma_extends_twice(reached, before);
        }
        let ghost reached = *world;
        let s2 = T2::init(world, system_meta);
        proof {
            world.lemma_extends_twice(reached, before);
        }
        let ghost reached = *world;
        let s3 = T3::init(world, system_meta);
        proof {
            world.lemma_extends_twice(reached, before);
        }
        let ghost reached = *world;
        let s4 = T4::init(world, system_meta);
        proof {
            world.lemma_extends_twice(reached, before);
        }
        let ghost reached = *world;
        let s5 = T5::init(world, system_meta);
        proof {
            world.lemma_extends_twice(reached, before);
        }
        let ghost reached = *world;
        let s6 = T6::init(world, system_meta);
        proof {
            world.lemma_extends_twice(reached, before);
        }
        let ghost reached = *world;
        let s7 = T7::init(world, system_meta);
        proof {
            world.lemma_extends_twice(reached, before);
        }
        let ghost reached = *world;
        let s8 = T8::init(world, system_meta);
        proof {
            world.lemma_extends_twice(reached, before);
        }
        let ghost reached = *world;
        let s9 = T9::init(world, system_meta);
        proof {
            world.lemma_extends_twice(reached, before);
        }
        let ghost reached = *world;
        let s10 = T10::init(world, system_meta);
        proof {
            world.lemma_extends_twice(reached, before);
        }
        (s0, s1, s2, s3, s4, s5, s6, s7, s8, s9, s10)
    }

    fn get_param<'s>(state: &'s mut Self::State, system_meta: &SystemMeta) -> (item: Self::Item<
        's,
    >) {
        let p0 = T0::get_param(&mut state.0, system_meta);
        let p1 = T1::get_param(&mut state.1, system_meta);
        let p2 = T2::get_param(&mut state.2, system_meta);
        let p3 = T3::get_param(&mut state.3, system_meta);
        let p4 = T4::get_param(&mut state.4, system_meta);
        let p5 = T5::get_param(&mut state.5, system_meta);
        let p6 = T6::get_param(&mut state.6, system_meta);
        let p7 = T7::get_param(&mut state.7, system_meta);
        let p8 = T8::get_param(&mut state.8, system_meta);
        let p9 = T9::get_param(&mut state.9, system_meta);
        let p10 = T10::get_param(&mut state.10, system_meta);
        (p0, p1, p2, p3, p4, p5, p6, p7, p8, p9, p10)
    }
}

impl<
    T0: ExclusiveSystemParam,
    T1: ExclusiveSystemParam,
    T2: ExclusiveSystemParam,
    T3: ExclusiveSystemParam,
    T4: ExclusiveSystemParam,
    T5: ExclusiveSystemParam,
    T6: ExclusiveSystemParam,
    T7: ExclusiveSystemParam,
    T8: ExclusiveSystemParam,
    T9: ExclusiveSystemParam,
    T10: ExclusiveSystemParam,
    T11: ExclusiveSystemParam,
> ExclusiveSystemParam for (T0, T1, T2, T3, T4, T5, T6, T7, T8, T9, T10, T11) {
    type State = (
        T0::State,
        T1::State,
        T2::State,
        T3::State,
        T4::State,
        T5::State,
        T6::State,
        T7::State,
        T8::State,
        T9::State,
        T10::State,
        T11::State,
    );

    type Item<'s> = (
        T0::Item<'s>,
        T1::Item<'s>,
        T2::Item<'s>,
        T3::Item<'s>,
        T4::Item<'s>,
        T5::Item<'s>,
        T6::Item<'s>,
        T7::Item<'s>,
        T8::Item<'s>,
        T9::Item<'s>,
        T10::Item<'s>,
        T11::Item<'s>,
    );

    open spec fn initial(state: &Self::State) -> bool {
        &&& T0::initial(&state.0)
        &&& T1::initial(&state.1)
        &&& T2::initial(&state.2)
        &&& T3::initial(&state.3)
        &&& T4::initial(&state.4)
        &&& T5::initial(&state.5)
        &&& T6::initial(&state.6)
        &&& T7::initial(&state.7)
        &&& T8::initial(&state.8)
        &&& T9::initial(&state.9)
        &&& T10::initial(&state.10)
        &&& T11::initial(&state.11)
    }

    open spec fn lent(state: &Self::State, item: Self::Item<'_>) -> bool {
        &&& T0::lent(&state.0, item.0)
        &&& T1::lent(&state.1, item.1)
        &&& T2::lent(&state.2, item.2)
        &&& T3::lent(&state.3, item.3)
        &&& T4::lent(&state.4, item.4)
        &&& T5::lent(&state.5, item.5)
        &&& T6::lent(&state.6, item.6)
        &&& T7::lent(&state.7, item.7)
        &&& T8::lent(&state.8, item.8)
        &&& T9::lent(&state.9, item.9)
        &&& T10::lent(&state.10, item.10)
        &&& T11::lent(&state.11, item.11)
    }

    open spec fn still() -> bool {
        &&& T0::still()
        &&& T1::still()
        &&& T2::still()
        &&& T3::still()
        &&& T4::still()
        &&& T5::still()
        &&& T6::still()
        &&& T7::still()
        &&& T8::still()
        &&& T9::still()
        &&& T10::still()
        &&& T11::still()
    }

    fn init(world: &mut World, system_meta: &mut SystemMeta) -> (state: Self::State) {
        let ghost before = *world;
        let s0 = T0::init(world, system_meta);
        let ghost reached = *world;
        let s1 = T1::init(world, system_meta);
        proof {
            world.lemma_extends_twice(reached, before);
        }
        let ghost reached = *world;
        let s2 = T2::init(world, system_meta);
        proof {
            world.lemma_extends_twice(reached, before);
        }
        let ghost reached = *world;
        let s3 = T3::init(world, system_meta);
        proof {
            world.lemma_extends_twice(reached, before);
        }
        let ghost reached = *world;
        let s4 = T4::init(world, system_meta);
        proof {
            world.lemma_extends_twice(reached, before);
        }
        let ghost reached = *world;
        let s5 = T5::init(world, system_meta);
        proof {
            world.lemma_extends_twice(reached, before);
        }
        let ghost reached = *world;
        let s6 = T6::init(world, system_meta);
        proof {
            world.lemma_extends_twice(reached, before);
        }
        let ghost reached = *world;
        let s7 = T7::init(world, system_meta);
        proof {
            world.lemma_extends_twice(reached, before);
        }
        let ghost reached = *world;
        let s8 = T8::init(world, system_meta);
        proof {
            world.lemma_extends_twice(reached, before);
        }
        let ghost reached = *world;
        let s9 = T9::init(world, system_meta);
        proof {
            world.lemma_extends_twice(reached, before);
        }
        let ghost reached = *world;
        let s10 = T10::init(world, system_meta);
        proof {
            world.lemma_extends_twice(reached, before);
        }
        let ghost reached = *world;
        let s11 = T11::init(world, system_meta);
        proof {
            world.lemma_extends_twice(reached, before);
        }
        (s0, s1, s2, s3, s4, s5, s6, s7, s8, s9, s10, s11)
    }

    fn get_param<'s>(state: &'s mut Self::State, system_meta: &SystemMeta) -> (item: Self::Item<
        's,
    >) {
        let p0 = T0::get_param(&mut state.0, system_meta);
        let p1 = T1::get_param(&mut state.1, system_meta);
        let p2 = T2::get_param(&mut state.2, system_meta);
        let p3 = T3::get_param(&mut state.3, system_meta);
        let p4 = T4::get_param(&mut state.4, system_meta);
        let p5 = T5::get_param(&mut state.5, system_meta);
        let p6 = T6::get_param(&mut state.6, system_meta);
        let p7 = T7::get_param(&mut state.7, system_meta);
        let p8 = T8::get_param(&mut state.8, system_meta);
        let p9 = T9::get_param(&mut state.9, system_meta);
        let p10 = T10::get_param(&mut state.10, system_meta);
        let p11 = T11::get_param(&mut state.11, system_meta);
        (p0, p1, p2, p3, p4, p5, p6, p7, p8, p9, p10, p11)
    }
}

impl<
    T0: ExclusiveSystemParam,
    T1: ExclusiveSystemParam,
    T2: ExclusiveSystemParam,
    T3: ExclusiveSystemParam,
    T4: ExclusiveSystemParam,
    T5: ExclusiveSystemParam,
    T6: ExclusiveSystemParam,
    T7: ExclusiveSystemParam,
    T8: ExclusiveSystemParam,
    T9: ExclusiveSystemParam,
    T10: ExclusiveSystemParam,
    T11: ExclusiveSystemParam,
    T12: ExclusiveSystemParam,
> ExclusiveSystemParam for (T0, T1, T2, T3, T4, T5, T6, T7, T8, T9, T10, T11, T12) {
    type State = (
        T0::State,
        T1::State,
        T2::State,
        T3::State,
        T4::State,
        T5::State,
        T6::State,
        T7::State,
        T8::State,
        T9::State,
        T10::State,
        T11::State,
        T12::State,
    );

    type Item<'s> = (
        T0::Item<'s>,
        T1::Item<'s>,
        T2::Item<'s>,
        T3::Item<'s>,
        T4::Item<'s>,
        T5::Item<'s>,
        T6::Item<'s>,
        T7::Item<'s>,
        T8::Item<'s>,
        T9::Item<'s>,
        T10::Item<'s>,
        T11::Item<'s>,
        T12::Item<'s>,
    );

    open spec fn initial(state: &Self::State) -> bool {
        &&& T0::initial(&state.0)
        &&& T1::initial(&state.1)
        &&& T2::initial(&state.2)
        &&& T3::initial(&state.3)
        &&& T4::initial(&state.4)
        &&& T5::initial(&state.5)
        &&& T6::initial(&state.6)
        &&& T7::initial(&state.7)
        &&& T8::initial(&state.8)
        &&& T9::initial(&state.9)
        &&& T10::initial(&state.10)
        &&& T11::initial(&state.11)
        &&& T12::initial(&state.12)
    }

    open spec fn lent(state: &Self::State, item: Self::Item<'_>) -> bool {
        &&& T0::lent(&state.0, item.0)
        &&& T1::lent(&state.1, item.1)
        &&& T2::lent(&state.2, item.2)
        &&& T3::lent(&state.3, item.3)
        &&& T4::lent(&state.4, item.4)
        &&& T5::lent(&state.5, item.5)
        &&& T6::lent(&state.6, item.6)
        &&& T7::lent(&state.7, item.7)
        &&& T8::lent(&state.8, item.8)
        &&& T9::lent(&state.9, item.9)
        &&& T10::lent(&state.10, item.10)
        &&& T11::lent(&state.11, item.11)
        &&& T12::lent(&state.12, item.12)
    }

    open spec fn still() -> bool {
        &&& T0::still()
        &&& T1::still()
        &&& T2::still()
        &&& T3::still()
        &&& T4::still()
        &&& T5::still()
        &&& T6::still()
        &&& T7::still()
        &&& T8::still()
        &&& T9::still()
        &&& T10::still()
        &&& T11::still()
        &&& T12::still()
    }

    fn init(world: &mut World, system_meta: &mut SystemMeta) -> (state: Self::State) {
        let ghost before = *world;
        let s0 = T0::init(world, system_meta);
        let ghost reached = *world;
        let s1 = T1::init(world, system_meta);
        proof {
            world.lemma_extends_twice(reached, before);
        }
        let ghost reached = *world;
        let s2 = T2::init(world, system_meta);
        proof {
            world.lemma_extends_twice(reached, before);
        }
        let ghost reached = *world;
        let s3 = T3::init(world, system_meta);
        proof {
            world.lemma_extends_twice(reached, before);
        }
        let ghost reached = *world;
        let s4 = T4::init(world, system_meta);
        proof {
            world.lemma_extends_twice(reached, before);
        }
        let ghost reached = *world;
        let s5 = T5::init(world, system_meta);
        proof {
            world.lemma_extends_twice(reached, before);
        }
        let ghost reached = *world;
        let s6 = T6::init(world, system_meta);
        proof {
            world.lemma_extends_twice(reached, before);
        }
        let ghost reached = *world;
        let s7 = T7::init(world, system_meta);
        proof {
            world.lemma_extends_twice(reached, before);
        }
        let ghost reached = *world;
        let s8 = T8::init(world, system_meta);
        proof {
            world.lemma_extends_twice(reached, before);
        }
        let ghost reached = *world;
        let s9 = T9::init(world, system_meta);
        proof {
            world.lemma_extends_twice(reached, before);
        }
        let ghost reached = *world;
        let s10 = T10::init(world, system_meta);
        proof {
            world.lemma_extends_twice(reached, before);
        }
        let ghost reached = *world;
        let s11 = T11::init(world, system_meta);
        proof {
            world.lemma_extends_twice(reached, before);
        }
        let ghost reached = *world;
        let s12 = T12::init(world, system_meta);
        proof {
            world.lemma_extends_twice(reached, before);
        }
        (s0, s1, s2, s3, s4, s5, s6, s7, s8, s9, s10, s11, s12)
    }

    fn get_param<'s>(state: &'s mut Self::State, system_meta: &SystemMeta) -> (item: Self::Item<
        's,
    >) {
        let p0 = T0::get_param(&mut state.0, system_meta);
        let p1 = T1::get_param(&mut state.1, system_meta);
        let p2 = T2::get_param(&mut state.2, system_meta);
        let p3 = T3::get_param(&mut state.3, system_meta);
        let p4 = T4::get_param(&mut state.4, system_meta);
        let p5 = T5::get_param(&mut state.5, system_meta);
        let p6 = T6::get_param(&mut state.6, system_meta);
        let p7 = T7::get_param(&mut state.7, system_meta);
        let p8 = T8::get_param(&mut state.8, system_meta);
        let p9 = T9::get_param(&mut state.9, system_meta);
        let p10 = T10::get_param(&mut state.10, system_meta);
        let p11 = T11::get_param(&mut state.11, system_meta);
        let p12 = T12::get_param(&mut state.12, system_meta);
        (p0, p1, p2, p3, p4, p5, p6, p7, p8, p9, p10, p11, p12)
    }
}

impl<
    T0: ExclusiveSystemParam,
    T1: ExclusiveSystemParam,
    T2: ExclusiveSystemParam,
    T3: ExclusiveSystemParam,
    T4: ExclusiveSystemParam,
    T5: ExclusiveSystemParam,
    T6: ExclusiveSystemParam,
    T7: ExclusiveSystemParam,
    T8: ExclusiveSystemParam,
    T9: ExclusiveSystemParam,
    T10: ExclusiveSystemParam,
    T11: ExclusiveSystemParam,
    T12: ExclusiveSystemParam,
    T13: ExclusiveSystemParam,
> ExclusiveSystemParam for (T0, T1, T2, T3, T4, T5, T6, T7, T8, T9, T10, T11, T12, T13) {
    type State = (
        T0::State,
        T1::State,
        T2::State,
        T3::State,
        T4::State,
        T5::State,
        T6::State,
        T7::State,
        T8::State,
        T9::State,
        T10::State,
        T11::State,
        T12::State,
        T13::State,
    );

    type Item<'s> = (
        T0::Item<'s>,
        T1::Item<'s>,
        T2::Item<'s>,
        T3::Item<'s>,
        T4::Item<'s>,
        T5::Item<'s>,
        T6::Item<'s>,
        T7::Item<'s>,
        T8::Item<'s>,
        T9::Item<'s>,
        T10::Item<'s>,
        T11::Item<'s>,
        T12::Item<'s>,
        T13::Item<'s>,
    );

    open spec fn initial(state: &Self::State) -> bool {
        &&& T0::initial(&state.0)
        &&& T1::initial(&state.1)
        &&& T2::initial(&state.2)
        &&& T3::initial(&state.3)
        &&& T4::initial(&state.4)
        &&& T5::initial(&state.5)
        &&& T6::initial(&state.6)
        &&& T7::initial(&state.7)
        &&& T8::initial(&state.8)
        &&& T9::initial(&state.9)
        &&& T10::initial(&state.10)
        &&& T11::initial(&state.11)
        &&& T12::initial(&state.12)
        &&& T13::initial(&state.13)
    }

    open spec fn lent(state: &Self::State, item: Self::Item<'_>) -> bool {
        &&& T0::lent(&state.0, item.0)
        &&& T1::lent(&state.1, item.1)
        &&& T2::lent(&state.2, item.2)
        &&& T3::lent(&state.3, item.3)
        &&& T4::lent(&state.4, item.4)
        &&& T5::lent(&state.5, item.5)
        &&& T6::lent(&state.6, item.6)
        &&& T7::lent(&state.7, item.7)
        &&& T8::lent(&state.8, item.8)
        &&& T9::lent(&state.9, item.9)
        &&& T10::lent(&state.10, item.10)
        &&& T11::lent(&state.11, item.11)
        &&& T12::lent(&state.12, item.12)
        &&& T13::lent(&state.13, item.13)
    }

    open spec fn still() -> bool {
        &&& T0::still()
        &&& T1::still()
        &&& T2::still()
        &&& T3::still()
        &&& T4::still()
        &&& T5::still()
        &&& T6::still()
        &&& T7::still()
        &&& T8::still()
        &&& T9::still()
        &&& T10::still()
        &&& T11::still()
        &&& T12::still()
        &&& T13::still()
    }

    fn init(world: &mut World, system_meta: &mut SystemMeta) -> (state: Self::State) {
        let ghost before = *world;
        let s0 = T0::init(world, system_meta);
        let ghost reached = *world;
        let s1 = T1::init(world, system_meta);
        proof {
            world.lemma_extends_twice(reached, before);
        }
        let ghost reached = *world;
        let s2 = T2::init(world, system_meta);
        proof {
            world.lemma_extends_twice(reached, before);
        }
        let ghost reached = *world;
        let s3 = T3::init(world, system_meta);
        proof {
            world.lemma_extends_twice(reached, before);
        }
        let ghost reached = *world;
        let s4 = T4::init(world, system_meta);
        proof {
            world.lemma_extends_twice(reached, before);
        }
        let ghost reached = *world;
        let s5 = T5::init(world, system_meta);
        proof {
            world.lemma_extends_twice(reached, before);
        }
        let ghost reached = *world;
        let s6 = T6::init(world, system_meta);
        proof {
            world.lemma_extends_twice(reached, before);
        }
        let ghost reached = *world;
        let s7 = T7::init(world, system_meta);
        proof {
            world.lemma_extends_twice(reached, before);
        }
        let ghost reached = *world;
        let s8 = T8::init(world, system_meta);
        proof {
            world.lemma_extends_twice(reached, before);
        }
        let ghost reached = *world;
        let s9 = T9::init(world, system_meta);
        proof {
            world.lemma_extends_twice(reached, before);
        }
        let ghost reached = *world;
        let s10 = T10::init(world, system_meta);
        proof {
            world.lemma_extends_twice(reached, before);
        }
        let ghost reached = *world;
        let s11 = T11::init(world, system_meta);
        proof {
            world.lemma_extends_twice(reached, before);
        }
        let ghost reached = *world;
        let s12 = T12::init(world, system_meta);
        proof {
            world.lemma_extends_twice(reached, before);
        }
        let ghost reached = *world;
        let s13 = T13::init(world, system_meta);
        proof {
            world.lemma_extends_twice(reached, before);
        }
        (s0, s1, s2, s3, s4, s5, s6, s7, s8, s9, s10, s11, s12, s13)
    }

    fn get_param<'s>(state: &'s mut Self::State, system_meta: &SystemMeta) -> (item: Self::Item<
        's,
    >) {
        let p0 = T0::get_param(&mut state.0, system_meta);
        let p1 = T1::get_param(&mut state.1, system_meta);
        let p2 = T2::get_param(&mut state.2, system_meta);
        let p3 = T3::get_param(&mut state.3, system_meta);
        let p4 = T4::get_param(&mut state.4, system_meta);
        let p5 = T5::get_param(&mut state.5, system_meta);
        let p6 = T6::get_param(&mut state.6, system_meta);
        let p7 = T7::get_param(&mut state.7, system_meta);
        let p8 = T8::get_param(&mut state.8, system_meta);
        let p9 = T9::get_param(&mut state.9, system_meta);
        let p10 = T10::get_param(&mut state.10, system_meta);
        let p11 = T11::get_param(&mut state.11, system_meta);
        let p12 = T12::get_param(&mut state.12, system_meta);
        let p13 = T13::get_param(&mut state.13, system_meta);
        (p0, p1, p2, p3, p4, p5, p6, p7, p8, p9, p10, p11, p12, p13)
    }
}

impl<
    T0: ExclusiveSystemParam,
    T1: ExclusiveSystemParam,
    T2: ExclusiveSystemParam,
    T3: ExclusiveSystemParam,
    T4: ExclusiveSystemParam,
    T5: ExclusiveSystemParam,
    T6: ExclusiveSystemParam,
    T7: ExclusiveSystemParam,
    T8: ExclusiveSystemParam,
    T9: ExclusiveSystemParam,
    T10: ExclusiveSystemParam,
    T11: ExclusiveSystemParam,
    T12: ExclusiveSystemParam,
    T13: ExclusiveSystemParam,
    T14: ExclusiveSystemParam,
> ExclusiveSystemParam for (T0, T1, T2, T3, T4, T5, T6, T7, T8, T9, T10, T11, T12, T13, T14) {
    type State = (
        T0::State,
        T1::State,
        T2::State,
        T3::State,
        T4::State,
        T5::State,
        T6::State,
        T7::State,
        T8::State,
        T9::State,
        T10::State,
        T11::State,
        T12::State,
        T13::State,
        T14::State,
    );

    type Item<'s> = (
        T0::Item<'s>,
        T1::Item<'s>,
        T2::Item<'s>,
        T3::Item<'s>,
        T4::Item<'s>,
        T5::Item<'s>,
        T6::Item<'s>,
        T7::Item<'s>,
        T8::Item<'s>,
        T9::Item<'s>,
        T10::Item<'s>,
        T11::Item<'s>,
        T12::Item<'s>,
        T13::Item<'s>,
        T14::Item<'s>,
    );

    open spec fn initial(state: &Self::State) -> bool {
        &&& T0::initial(&state.0)
        &&& T1::initial(&state.1)
        &&& T2::initial(&state.2)
        &&& T3::initial(&state.3)
        &&& T4::initial(&state.4)
        &&& T5::initial(&state.5)
        &&& T6::initial(&state.6)
        &&& T7::initial(&state.7)
        &&& T8::initial(&state.8)
        &&& T9::initial(&state.9)
        &&& T10::initial(&state.10)
        &&& T11::initial(&state.11)
        &&& T12::initial(&state.12)
        &&& T13::initial(&state.13)
        &&& T14::initial(&state.14)
    }

    open spec fn lent(state: &Self::State, item: Self::Item<'_>) -> bool {
        &&& T0::lent(&state.0, item.0)
        &&& T1::lent(&state.1, item.1)
        &&& T2::lent(&state.2, item.2)
        &&& T3::lent(&state.3, item.3)
        &&& T4::lent(&state.4, item.4)
        &&& T5::lent(&state.5, item.5)
        &&& T6::lent(&state.6, item.6)
        &&& T7::lent(&state.7, item.7)
        &&& T8::lent(&state.8, item.8)
        &&& T9::lent(&state.9, item.9)
        &&& T10::lent(&state.10, item.10)
        &&& T11::lent(&state.11, item.11)
        &&& T12::lent(&state.12, item.12)
        &&& T13::lent(&state.13, item.13)
        &&& T14::lent(&state.14, item.14)
    }

    open spec fn still() -> bool {
        &&& T0::still()
        &&& T1::still()
        &&& T2::still()
        &&& T3::still()
        &&& T4::still()
        &&& T5::still()
        &&& T6::still()
        &&& T7::still()
        &&& T8::still()
        &&& T9::still()
        &&& T10::still()
        &&& T11::still()
        &&& T12::still()
        &&& T13::still()
        &&& T14::still()
    }

    fn init(world: &mut World, system_meta: &mut SystemMeta) -> (state: Self::State) {
        let ghost before = *world;
        let s0 = T0::init(world, system_meta);
        let ghost reached = *world;
        let s1 = T1::init(world, system_meta);
        proof {
            world.lemma_extends_twice(reached, before);
        }
        let ghost reached = *world;
        let s2 = T2::init(world, system_meta);
        proof {
            world.lemma_extends_twice(reached, before);
        }
        let ghost reached = *world;
        let s3 = T3::init(world, system_meta);
        proof {
            world.lemma_extends_twice(reached, before);
        }
        let ghost reached = *world;
        let s4 = T4::init(world, system_meta);
        proof {
            world.lemma_extends_twice(reached, before);
        }
        let ghost reached = *world;
        let s5 = T5::init(world, system_meta);
        proof {
            world.lemma_extends_twice(reached, before);
        }
        let ghost reached = *world;
        let s6 = T6::init(world, system_meta);
        proof {
            world.lemma_extends_twice(reached, before);
        }
        let ghost reached = *world;
        let s7 = T7::init(world, system_meta);
        proof {
            world.lemma_extends_twice(reached, before);
        }
        let ghost reached = *world;
        let s8 = T8::init(world, system_meta);
        proof {
            world.lemma_extends_twice(reached, before);
        }
        let ghost reached = *world;
        let s9 = T9::init(world, system_meta);
        proof {
            world.lemma_extends_twice(reached, before);
        }
        let ghost reached = *world;
        let s10 = T10::init(world, system_meta);
        proof {
            world.lemma_extends_twice(reached, before);
        }
        let ghost reached = *world;
        let s11 = T11::init(world, system_meta);
        proof {
            world.lemma_extends_twice(reached, before);
        }
        let ghost reached = *world;
        let s12 = T12::init(world, system_meta);
        proof {
            world.lemma_extends_twice(reached, before);
        }
        let ghost reached = *world;
        let s13 = T13::init(world, system_meta);
        proof {
            world.lemma_extends_twice(reached, before);
        }
        let ghost reached = *world;
        let s14 = T14::init(world, system_meta);
        proof {
            world.lemma_extends_twice(reached, before);
        }
        (s0, s1, s2, s3, s4, s5, s6, s7, s8, s9, s10, s11, s12, s13, s14)
    }

    fn get_param<'s>(state: &'s mut Self::State, system_meta: &SystemMeta) -> (item: Self::Item<
        's,
    >) {
        let p0 = T0::get_param(&mut state.0, system_meta);
        let p1 = T1::get_param(&mut state.1, system_meta);
        let p2 = T2::get_param(&mut state.2, system_meta);
        let p3 = T3::get_param(&mut state.3, system_meta);
        let p4 = T4::get_param(&mut state.4, system_meta);
        let p5 = T5::get_param(&mut state.5, system_meta);
        let p6 = T6::get_param(&mut state.6, system_meta);
        let p7 = T7::get_param(&mut state.7, system_meta);
        let p8 = T8::get_param(&mut state.8, system_meta);
        let p9 = T9::get_param(&mut state.9, system_meta);
        let p10 = T10::get_param(&mut state.10, system_meta);
        let p11 = T11::get_param(&mut state.11, system_meta);
        let p12 = T12::get_param(&mut state.12, system_meta);
        let p13 = T13::get_param(&mut state.13, system_meta);
        let p14 = T14::get_param(&mut state.14, system_meta);
        (p0, p1, p2, p3, p4, p5, p6, p7, p8, p9, p10, p11, p12, p13, p14)
    }
}

impl<
    T0: ExclusiveSystemParam,
    T1: ExclusiveSystemParam,
    T2: ExclusiveSystemParam,
    T3: ExclusiveSystemParam,
    T4: ExclusiveSystemParam,
    T5: ExclusiveSystemParam,
    T6: ExclusiveSystemParam,
    T7: ExclusiveSystemParam,
    T8: ExclusiveSystemParam,
    T9: ExclusiveSystemParam,
    T10: ExclusiveSystemParam,
    T11: ExclusiveSystemParam,
    T12: ExclusiveSystemParam,
    T13: ExclusiveSystemParam,
    T14: ExclusiveSystemParam,
    T15: ExclusiveSystemParam,
> ExclusiveSystemParam for (T0, T1, T2, T3, T4, T5, T6, T7, T8, T9, T10, T11, T12, T13, T14, T15) {
    type State = (
        T0::State,
        T1::State,
        T2::State,
        T3::State,
        T4::State,
        T5::State,
        T6::State,
        T7::State,
        T8::State,
        T9::State,
        T10::State,
        T11::State,
        T12::State,
        T13::State,
        T14::State,
        T15::State,
    );

    type Item<'s> = (
        T0::Item<'s>,
        T1::Item<'s>,
        T2::Item<'s>,
        T3::Item<'s>,
        T4::Item<'s>,
        T5::Item<'s>,
        T6::Item<'s>,
        T7::Item<'s>,
        T8::Item<'s>,
        T9::Item<'s>,
        T10::Item<'s>,
        T11::Item<'s>,
        T12::Item<'s>,
        T13::Item<'s>,
        T14::Item<'s>,
        T15::Item<'s>,
    );

    open spec fn initial(state: &Self::State) -> bool {
        &&& T0::initial(&state.0)
        &&& T1::initial(&state.1)
        &&& T2::initial(&state.2)
        &&& T3::initial(&state.3)
        &&& T4::initial(&state.4)
        &&& T5::initial(&state.5)
        &&& T6::initial(&state.6)
        &&& T7::initial(&state.7)
        &&& T8::initial(&state.8)
        &&& T9::initial(&state.9)
        &&& T10::initial(&state.10)
        &&& T11::initial(&state.11)
        &&& T12::initial(&state.12)
        &&& T13::initial(&state.13)
        &&& T14::initial(&state.14)
        &&& T15::initial(&state.15)
    }

    open spec fn lent(state: &Self::State, item: Self::Item<'_>) -> bool {
        &&& T0::lent(&state.0, item.0)
        &&& T1::lent(&state.1, item.1)
        &&& T2::lent(&state.2, item.2)
        &&& T3::lent(&state.3, item.3)
        &&& T4::lent(&state.4, item.4)
        &&& T5::lent(&state.5, item.5)
        &&& T6::lent(&state.6, item.6)
        &&& T7::lent(&state.7, item.7)
        &&& T8::lent(&state.8, item.8)
        &&& T9::lent(&state.9, item.9)
        &&& T10::lent(&state.10, item.10)
        &&& T11::lent(&state.11, item.11)
        &&& T12::lent(&state.12, item.12)
        &&& T13::lent(&state.13, item.13)
        &&& T14::lent(&state.14, item.14)
        &&& T15::lent(&state.15, item.15)
    }

    open spec fn still() -> bool {
        &&& T0::still()
        &&& T1::still()
        &&& T2::still()
        &&& T3::still()
        &&& T4::still()
        &&& T5::still()
        &&& T6::still()
        &&& T7::still()
        &&& T8::still()
        &&& T9::still()
        &&& T10::still()
        &&& T11::still()
        &&& T12::still()
        &&& T13::still()
        &&& T14::still()
        &&& T15::still()
    }

    fn init(world: &mut World, system_meta: &mut SystemMeta) -> (state: Self::State) {
        let ghost before = *world;
        let s0 = T0::init(world, system_meta);
        let ghost reached = *world;
        let s1 = T1::init(world, system_meta);
        proof {
            world.lemma_extends_twice(reached, before);
        }
        let ghost reached = *world;
        let s2 = T2::init(world, system_meta);
        proof {
            world.lemma_extends_twice(reached, before);
        }
        let ghost reached = *world;
        let s3 = T3::init(world, system_meta);
        proof {
            world.lemma_extends_twice(reached, before);
        }
        let ghost reached = *world;
        let s4 = T4::init(world, system_meta);
        proof {
            world.lemma_extends_twice(reached, before);
        }
        let ghost reached = *world;
        let s5 = T5::init(world, system_meta);
        proof {
            world.lemma_extends_twice(reached, before);
        }
        let ghost reached = *world;
        let s6 = T6::init(world, system_meta);
        proof {
            world.lemma_extends_twice(reached, before);
        }
        let ghost reached = *world;
        let s7 = T7::init(world, system_meta);
        proof {
            world.lemma_extends_twice(reached, before);
        }
        let ghost reached = *world;
        let s8 = T8::init(world, system_meta);
        proof {
            world.lemma_extends_twice(reached, before);
        }
        let ghost reached = *world;
        let s9 = T9::init(world, system_meta);
        proof {
            world.lemma_extends_twice(reached, before);
        }
        let ghost reached = *world;
        let s10 = T10::init(world, system_meta);
        proof {
            world.lemma_extends_twice(reached, before);
        }
        let ghost reached = *world;
        let s11 = T11::init(world, system_meta);
        proof {
            world.lemma_extends_twice(reached, before);
        }
        let ghost reached = *world;
        let s12 = T12::init(world, system_meta);
        proof {
            world.lemma_extends_twice(reached, before);
        }
        let ghost reached = *world;
        let s13 = T13::init(world, system_meta);
        proof {
            world.lemma_extends_twice(reached, before);
        }
        let ghost reached = *world;
        let s14 = T14::init(world, system_meta);
        proof {
            world.lemma_extends_twice(reached, before);
        }
        let ghost reached = *world;
        let s15 = T15::init(world, system_meta);
        proof {
            world.lemma_extends_twice(reached, before);
        }
        (s0, s1, s2, s3, s4, s5, s6, s7, s8, s9, s10, s11, s12, s13, s14, s15)
    }

    fn get_param<'s>(state: &'s mut Self::State, system_meta: &SystemMeta) -> (item: Self::Item<
        's,
    >) {
        let p0 = T0::get_param(&mut state.0, system_meta);
        let p1 = T1::get_param(&mut state.1, system_meta);
        let p2 = T2::get_param(&mut state.2, system_meta);
        let p3 = T3::get_param(&mut state.3, system_meta);
        let p4 = T4::get_param(&mut state.4, system_meta);
        let p5 = T5::get_param(&mut state.5, system_meta);
        let p6 = T6::get_param(&mut state.6, system_meta);
        let p7 = T7::get_param(&mut state.7, system_meta);
        let p8 = T8::get_param(&mut state.8, system_meta);
        let p9 = T9::get_param(&mut state.9, system_meta);
        let p10 = T10::get_param(&mut state.10, system_meta);
        let p11 = T11::get_param(&mut state.11, system_meta);
        let p12 = T12::get_param(&mut state.12, system_meta);
        let p13 = T13::get_param(&mut state.13, system_meta);
        let p14 = T14::get_param(&mut state.14, system_meta);
        let p15 = T15::get_param(&mut state.15, system_meta);
        (p0, p1, p2, p3, p4, p5, p6, p7, p8, p9, p10, p11, p12, p13, p14, p15)
    }
}

} // verus!
