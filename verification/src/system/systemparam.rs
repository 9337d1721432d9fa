//! The values that a system borrows from the world for its function.

use crate::claim::{lemma_admits_all_split, lemma_provides_split, Claim};
use crate::store::{Components, Store};
use crate::system::systemmeta::SystemMeta;
use crate::world::{World, WorldCell};
use crate::ChangeTick;
use vstd::prelude::*;

pub mod impls;

verus! {

/// A kind of value that a system borrows from the world for its function.
///
/// A system keeps one `State` for each such parameter. Before each call of its
/// function it opens the parameter's guard with `get_param`; the guard keeps
/// what it borrows until `release` gives it up, when the function has
/// returned, and `apply` then closes the books on it. The state cannot hold
/// the guard itself, which borrows from the world for one run: it holds the
/// mark that the guard was opened.
pub trait SystemParam: Sized {
    /// What the system keeps from one run to the next.
    type State;

    /// The open borrow.
    type Guard<'a>;

    /// The claims that `get_param` opens on the store, in their order.
    spec fn claims() -> Seq<Claim>;

    /// Whether a run has opened the guard of `state` and `apply` has not come
    /// since.
    spec fn locked(state: &Self::State) -> bool;

    /// Whether the state keeps a guard on its books from `get_param` to
    /// `apply`.
    spec fn guarded() -> bool;

    /// Whether `init_state` and `apply` leave the world as it is.
    spec fn still() -> bool;

    /// Whether `guard` is as `get_param` opens it on `store`, the resources of
    /// which are those of `resources`, and which comes back with the
    /// components `last`: it holds what it borrows as it is there, and what
    /// it leaves is there when the store comes back.
    spec fn opened(
        guard: &Self::Guard<'_>,
        store: Store,
        resources: hecs::Entity,
        last: Components,
    ) -> bool;

    /// Whether `guard` was opened on `store`.
    spec fn belongs(guard: &Self::Guard<'_>, store: Store) -> bool;

    /// Makes the state, once, before the first run. Leaves the world at its
    /// tick and takes nothing out of it.
    fn init_state(world: &mut World, system_meta: &mut SystemMeta) -> (state: Self::State)
        ensures
            !Self::locked(&state),
            final(world).extends(*old(world)),
            Self::still() ==> *final(world) == *old(world),
            final(system_meta).last_run == old(system_meta).last_run,
    ;

    /// Opens the guard for one run of the system: its claims are added to
    /// those open on the world, which must hold the resources asked for and
    /// admit the claims.
    fn get_param<'a>(
        state: &'a mut Self::State,
        system_meta: &SystemMeta,
        world: &mut WorldCell<'a>,
        change_tick: ChangeTick,
    ) -> (guard: Self::Guard<'a>)
        requires
            !Self::locked(old(state)),
            old(world).provides(Self::claims()),
            old(world).admits(Self::claims()),
        ensures
            Self::opened(
                &guard,
                old(world).store(),
                old(world).resources(),
                old(world).last(),
            ),
            Self::belongs(&guard, old(world).store()),
            Self::locked(final(state)) == Self::guarded(),
            final(world).same_lending(*old(world)),
            final(world).released() == old(world).released(),
            final(world).open() == old(world).open() + Self::claims(),
    ;

    /// Gives the guard up when the function has returned: its borrows end,
    /// and the world counts one guard for each of its claims.
    fn release<'a>(guard: Self::Guard<'a>, world: &mut WorldCell<'a>)
        requires
            Self::belongs(&guard, old(world).store()),
        ensures
            final(world).same_lending(*old(world)),
            final(world).open() == old(world).open(),
            final(world).released() == old(world).released() + Self::claims().len(),
    ;

    /// Closes the books on the guard after the run, and carries out what the
    /// parameter kept back. Leaves the world at its tick and takes nothing out
    /// of it; where no guard is on the books, changes nothing.
    fn apply(state: &mut Self::State, system_meta: &SystemMeta, world: &mut World)
        ensures
            !Self::locked(final(state)),
            final(world).extends(*old(world)),
            Self::still() ==> *final(world) == *old(world),
            !Self::locked(old(state)) ==> *final(world) == *old(world) && *final(state) == *old(
                state,
            ),
    ;
}

/// A parameter that is one argument of a function.
pub trait SystemArg: SystemParam {
    /// What the function receives: `Self`, borrowed from the guard.
    type Item<'g>;

    /// Whether `item` is what a guard lends that was opened on `store`, the
    /// resources of which are those of `resources`, and which comes back with
    /// the components `last`.
    spec fn lent(
        item: Self::Item<'_>,
        store: Store,
        resources: hecs::Entity,
        last: Components,
    ) -> bool;

    /// Lends the function what the guard holds.
    fn item<'g, 'a>(guard: &'g mut Self::Guard<'a>) -> (item: Self::Item<'g>)
        requires
            exists|store: Store, resources: hecs::Entity, last: Components| #[trigger]
                Self::opened(old(guard), store, resources, last),
        ensures
            forall|store: Store, resources: hecs::Entity, last: Components| #[trigger]
                Self::opened(old(guard), store, resources, last) ==> Self::lent(
                    item,
                    store,
                    resources,
                    last,
                ),
            forall|store: Store| #[trigger]
                Self::belongs(old(guard), store) ==> Self::belongs(final(guard), store),
    ;
}

/// What the function receives for a parameter of kind `P`.
pub type SystemParamItem<'g, P> = <P as SystemArg>::Item<'g>;

/// The open guard of a parameter of kind `P`.
pub type SystemParamGuard<'a, P> = <P as SystemParam>::Guard<'a>;

impl SystemParam for () {
    type State = ();

    type Guard<'a> = ();

    open spec fn claims() -> Seq<Claim> {
        Seq::empty()
    }

    open spec fn locked(state: &()) -> bool {
        false
    }

    open spec fn guarded() -> bool {
        false
    }

    open spec fn still() -> bool {
        true
    }

    open spec fn opened(
        guard: &(),
        store: Store,
        resources: hecs::Entity,
        last: Components,
    ) -> bool {
        true
    }

    open spec fn belongs(guard: &(), store: Store) -> bool {
        true
    }

    fn init_state(world: &mut World, system_meta: &mut SystemMeta) -> (state: ()) {
    }

    fn get_param<'a>(
        state: &'a mut (),
        system_meta: &SystemMeta,
        world: &mut WorldCell<'a>,
        change_tick: ChangeTick,
    ) -> (guard: ()) {
    }

    fn release<'a>(guard: (), world: &mut WorldCell<'a>) {
    }

    fn apply(state: &mut (), system_meta: &SystemMeta, world: &mut World) {
    }
}

// The tuples of up to sixteen parameters. A tuple is one parameter: its
// parameters are handled one after the other, in their order, so that its
// claims are theirs in a row. What the world admits for the row it admits for
// each part, once the parts before are open.

impl<T0: SystemParam> SystemParam for (T0,) {
    type State = (T0::State,);

    type Guard<'a> = (T0::Guard<'a>,);

    open spec fn claims() -> Seq<Claim> {
        T0::claims()
    }

    open spec fn locked(state: &Self::State) -> bool {
        T0::locked(&state.0)
    }

    open spec fn guarded() -> bool {
        T0::guarded()
    }

    open spec fn still() -> bool {
        T0::still()
    }

    open spec fn opened(
        guard: &Self::Guard<'_>,
        store: Store,
        resources: hecs::Entity,
        last: Components,
    ) -> bool {
        T0::opened(&guard.0, store, resources, last)
    }

    open spec fn belongs(guard: &Self::Guard<'_>, store: Store) -> bool {
        T0::belongs(&guard.0, store)
    }

    fn init_state(world: &mut World, system_meta: &mut SystemMeta) -> (state: Self::State) {
        let s0 = T0::init_state(world, system_meta);
        (s0,)
    }

    fn get_param<'a>(
        state: &'a mut Self::State,
        system_meta: &SystemMeta,
        world: &mut WorldCell<'a>,
        change_tick: ChangeTick,
    ) -> (guard: Self::Guard<'a>) {
        let g0 = T0::get_param(&mut state.0, system_meta, world, change_tick);
        (g0,)
    }

    fn release<'a>(guard: Self::Guard<'a>, world: &mut WorldCell<'a>) {
        let (g0,) = guard;
        T0::release(g0, world);
    }

    fn apply(state: &mut Self::State, system_meta: &SystemMeta, world: &mut World) {
        T0::apply(&mut state.0, system_meta, world);
    }
}

impl<T0: SystemParam, T1: SystemParam> SystemParam for (T0, T1) {
    type State = (T0::State, T1::State);

    type Guard<'a> = (T0::Guard<'a>, T1::Guard<'a>);

    open spec fn claims() -> Seq<Claim> {
        T0::claims() + T1::claims()
    }

    open spec fn locked(state: &Self::State) -> bool {
        ||| T0::locked(&state.0)
        ||| T1::locked(&state.1)
    }

    open spec fn guarded() -> bool {
        ||| T0::guarded()
        ||| T1::guarded()
    }

    open spec fn still() -> bool {
        &&& T0::still()
        &&& T1::still()
    }

    open spec fn opened(
        guard: &Self::Guard<'_>,
        store: Store,
        resources: hecs::Entity,
        last: Components,
    ) -> bool {
        &&& T0::opened(&guard.0, store, resources, last)
        &&& T1::opened(&guard.1, store, resources, last)
    }

    open spec fn belongs(guard: &Self::Guard<'_>, store: Store) -> bool {
        &&& T0::belongs(&guard.0, store)
        &&& T1::belongs(&guard.1, store)
    }

    fn init_state(world: &mut World, system_meta: &mut SystemMeta) -> (state: Self::State) {
        let ghost before = *world;
        let s0 = T0::init_state(world, system_meta);
        let ghost reached = *world;
        let s1 = T1::init_state(world, system_meta);
        proof {
            world.lemma_extends_twice(reached, before);
        }
        (s0, s1)
    }

    fn get_param<'a>(
        state: &'a mut Self::State,
        system_meta: &SystemMeta,
        world: &mut WorldCell<'a>,
        change_tick: ChangeTick,
    ) -> (guard: Self::Guard<'a>) {
        let ghost open = world.open();
        let ghost upto1 = T0::claims();
        let ghost upto2 = upto1 + T1::claims();
        proof {
            lemma_admits_all_split(open, upto1, T1::claims());
            lemma_provides_split(world.store(), world.resources(), upto1, T1::claims());
        }
        let g0 = T0::get_param(&mut state.0, system_meta, world, change_tick);
        assert(world.open() == open + upto1);
        let g1 = T1::get_param(&mut state.1, system_meta, world, change_tick);
        assert(world.open() == open + upto2);
        (g0, g1)
    }

    fn release<'a>(guard: Self::Guard<'a>, world: &mut WorldCell<'a>) {
        let (g0, g1) = guard;
        T1::release(g1, world);
        T0::release(g0, world);
    }

    fn apply(state: &mut Self::State, system_meta: &SystemMeta, world: &mut World) {
        let ghost before = *world;
        T0::apply(&mut state.0, system_meta, world);
        let ghost reached = *world;
        T1::apply(&mut state.1, system_meta, world);
        proof {
            world.lemma_extends_twice(reached, before);
        }
    }
}

impl<T0: SystemParam, T1: SystemParam, T2: SystemParam> SystemParam for (T0, T1, T2) {
    type State = (T0::State, T1::State, T2::State);

    type Guard<'a> = (T0::Guard<'a>, T1::Guard<'a>, T2::Guard<'a>);

    open spec fn claims() -> Seq<Claim> {
        T0::claims() + T1::claims() + T2::claims()
    }

    open spec fn locked(state: &Self::State) -> bool {
        ||| T0::locked(&state.0)
        ||| T1::locked(&state.1)
        ||| T2::locked(&state.2)
    }

    open spec fn guarded() -> bool {
        ||| T0::guarded()
        ||| T1::guarded()
        ||| T2::guarded()
    }

    open spec fn still() -> bool {
        &&& T0::still()
        &&& T1::still()
        &&& T2::still()
    }

    open spec fn opened(
        guard: &Self::Guard<'_>,
        store: Store,
        resources: hecs::Entity,
        last: Components,
    ) -> bool {
        &&& T0::opened(&guard.0, store, resources, last)
        &&& T1::opened(&guard.1, store, resources, last)
        &&& T2::opened(&guard.2, store, resources, last)
    }

    open spec fn belongs(guard: &Self::Guard<'_>, store: Store) -> bool {
        &&& T0::belongs(&guard.0, store)
        &&& T1::belongs(&guard.1, store)
        &&& T2::belongs(&guard.2, store)
    }

    fn init_state(world: &mut World, system_meta: &mut SystemMeta) -> (state: Self::State) {
        let ghost before = *world;
        let s0 = T0::init_state(world, system_meta);
        let ghost reached = *world;
        let s1 = T1::init_state(world, system_meta);
        proof {
            world.lemma_extends_twice(reached, before);
        }
        let ghost reached = *world;
        let s2 = T2::init_state(world, system_meta);
        proof {
            world.lemma_extends_twice(reached, before);
        }
        (s0, s1, s2)
    }

    fn get_param<'a>(
        state: &'a mut Self::State,
        system_meta: &SystemMeta,
        world: &mut WorldCell<'a>,
        change_tick: ChangeTick,
    ) -> (guard: Self::Guard<'a>) {
        let ghost open = world.open();
        let ghost upto1 = T0::claims();
        let ghost upto2 = upto1 + T1::claims();
        let ghost upto3 = upto2 + T2::claims();
        proof {
            lemma_admits_all_split(open, upto2, T2::claims());
            lemma_provides_split(world.store(), world.resources(), upto2, T2::claims());
            lemma_admits_all_split(open, upto1, T1::claims());
            lemma_provides_split(world.store(), world.resources(), upto1, T1::claims());
        }
        let g0 = T0::get_param(&mut state.0, system_meta, world, change_tick);
        assert(world.open() == open + upto1);
        let g1 = T1::get_param(&mut state.1, system_meta, world, change_tick);
        assert(world.open() == open + upto2);
        let g2 = T2::get_param(&mut state.2, system_meta, world, change_tick);
        assert(world.open() == open + upto3);
        (g0, g1, g2)
    }

    fn release<'a>(guard: Self::Guard<'a>, world: &mut WorldCell<'a>) {
        let (g0, g1, g2) = guard;
        T2::release(g2, world);
        T1::release(g1, world);
        T0::release(g0, world);
    }

    fn apply(state: &mut Self::State, system_meta: &SystemMeta, world: &mut World) {
        let ghost before = *world;
        T0::apply(&mut state.0, system_meta, world);
        let ghost reached = *world;
        T1::apply(&mut state.1, system_meta, world);
        proof {
            world.lemma_extends_twice(reached, before);
        }
        let ghost reached = *world;
        T2::apply(&mut state.2, system_meta, world);
        proof {
            world.lemma_extends_twice(reached, before);
        }
    }
}

impl<
    T0: SystemParam,
    T1: SystemParam,
    T2: SystemParam,
    T3: SystemParam,
> SystemParam for (T0, T1, T2, T3) {
    type State = (T0::State, T1::State, T2::State, T3::State);

    type Guard<'a> = (T0::Guard<'a>, T1::Guard<'a>, T2::Guard<'a>, T3::Guard<'a>);

    open spec fn claims() -> Seq<Claim> {
        T0::claims() + T1::claims() + T2::claims() + T3::claims()
    }

    open spec fn locked(state: &Self::State) -> bool {
        ||| T0::locked(&state.0)
        ||| T1::locked(&state.1)
        ||| T2::locked(&state.2)
        ||| T3::locked(&state.3)
    }

    open spec fn guarded() -> bool {
        ||| T0::guarded()
        ||| T1::guarded()
        ||| T2::guarded()
        ||| T3::guarded()
    }

    open spec fn still() -> bool {
        &&& T0::still()
        &&& T1::still()
        &&& T2::still()
        &&& T3::still()
    }

    open spec fn opened(
        guard: &Self::Guard<'_>,
        store: Store,
        resources: hecs::Entity,
        last: Components,
    ) -> bool {
        &&& T0::opened(&guard.0, store, resources, last)
        &&& T1::opened(&guard.1, store, resources, last)
        &&& T2::opened(&guard.2, store, resources, last)
        &&& T3::opened(&guard.3, store, resources, last)
    }

    open spec fn belongs(guard: &Self::Guard<'_>, store: Store) -> bool {
        &&& T0::belongs(&guard.0, store)
        &&& T1::belongs(&guard.1, store)
        &&& T2::belongs(&guard.2, store)
        &&& T3::belongs(&guard.3, store)
    }

    fn init_state(world: &mut World, system_meta: &mut SystemMeta) -> (state: Self::State) {
        let ghost before = *world;
        let s0 = T0::init_state(world, system_meta);
        let ghost reached = *world;
        let s1 = T1::init_state(world, system_meta);
        proof {
            world.lemma_extends_twice(reached, before);
        }
        let ghost reached = *world;
        let s2 = T2::init_state(world, system_meta);
        proof {
            world.lemma_extends_twice(reached, before);
        }
        let ghost reached = *world;
        let s3 = T3::init_state(world, system_meta);
        proof {
            world.lemma_extends_twice(reached, before);
        }
        (s0, s1, s2, s3)
    }

    fn get_param<'a>(
        state: &'a mut Self::State,
        system_meta: &SystemMeta,
        world: &mut WorldCell<'a>,
        change_tick: ChangeTick,
    ) -> (guard: Self::Guard<'a>) {
        let ghost open = world.open();
        let ghost upto1 = T0::claims();
        let ghost upto2 = upto1 + T1::claims();
        let ghost upto3 = upto2 + T2::claims();
        let ghost upto4 = upto3 + T3::claims();
        proof {
            lemma_admits_all_split(open, upto3, T3::claims());
            lemma_provides_split(world.store(), world.resources(), upto3, T3::claims());
            lemma_admits_all_split(open, upto2, T2::claims());
            lemma_provides_split(world.store(), world.resources(), upto2, T2::claims());
            lemma_admits_all_split(open, upto1, T1::claims());
            lemma_provides_split(world.store(), world.resources(), upto1, T1::claims());
        }
        let g0 = T0::get_param(&mut state.0, system_meta, world, change_tick);
        assert(world.open() == open + upto1);
        let g1 = T1::get_param(&mut state.1, system_meta, world, change_tick);
        assert(world.open() == open + upto2);
        let g2 = T2::get_param(&mut state.2, system_meta, world, change_tick);
        assert(world.open() == open + upto3);
        let g3 = T3::get_param(&mut state.3, system_meta, world, change_tick);
        assert(world.open() == open + upto4);
        (g0, g1, g2, g3)
    }

    fn release<'a>(guard: Self::Guard<'a>, world: &mut WorldCell<'a>) {
        let (g0, g1, g2, g3) = guard;
        T3::release(g3, world);
        T2::release(g2, world);
        T1::release(g1, world);
        T0::release(g0, world);
    }

    fn apply(state: &mut Self::State, system_meta: &SystemMeta, world: &mut World) {
        let ghost before = *world;
        T0::apply(&mut state.0, system_meta, world);
        let ghost reached = *world;
        T1::apply(&mut state.1, system_meta, world);
        proof {
            world.lemma_extends_twice(reached, before);
        }
        let ghost reached = *world;
        T2::apply(&mut state.2, system_meta, world);
        proof {
            world.lemma_extends_twice(reached, before);
        }
        let ghost reached = *world;
        T3::apply(&mut state.3, system_meta, world);
        proof {
            world.lemma_extends_twice(reached, before);
        }
    }
}

impl<
    T0: SystemParam,
    T1: SystemParam,
    T2: SystemParam,
    T3: SystemParam,
    T4: SystemParam,
> SystemParam for (T0, T1, T2, T3, T4) {
    type State = (T0::State, T1::State, T2::State, T3::State, T4::State);

    type Guard<'a> = (T0::Guard<'a>, T1::Guard<'a>, T2::Guard<'a>, T3::Guard<'a>, T4::Guard<'a>);

    open spec fn claims() -> Seq<Claim> {
        T0::claims() + T1::claims() + T2::claims() + T3::claims() + T4::claims()
    }

    open spec fn locked(state: &Self::State) -> bool {
        ||| T0::locked(&state.0)
        ||| T1::locked(&state.1)
        ||| T2::locked(&state.2)
        ||| T3::locked(&state.3)
        ||| T4::locked(&state.4)
    }

    open spec fn guarded() -> bool {
        ||| T0::guarded()
        ||| T1::guarded()
        ||| T2::guarded()
        ||| T3::guarded()
        ||| T4::guarded()
    }

    open spec fn still() -> bool {
        &&& T0::still()
        &&& T1::still()
        &&& T2::still()
        &&& T3::still()
        &&& T4::still()
    }

    open spec fn opened(
        guard: &Self::Guard<'_>,
        store: Store,
        resources: hecs::Entity,
        last: Components,
    ) -> bool {
        &&& T0::opened(&guard.0, store, resources, last)
        &&& T1::opened(&guard.1, store, resources, last)
        &&& T2::opened(&guard.2, store, resources, last)
        &&& T3::opened(&guard.3, store, resources, last)
        &&& T4::opened(&guard.4, store, resources, last)
    }

    open spec fn belongs(guard: &Self::Guard<'_>, store: Store) -> bool {
        &&& T0::belongs(&guard.0, store)
        &&& T1::belongs(&guard.1, store)
        &&& T2::belongs(&guard.2, store)
        &&& T3::belongs(&guard.3, store)
        &&& T4::belongs(&guard.4, store)
    }

    fn init_state(world: &mut World, system_meta: &mut SystemMeta) -> (state: Self::State) {
        let ghost before = *world;
        let s0 = T0::init_state(world, system_meta);
        let ghost reached = *world;
        let s1 = T1::init_state(world, system_meta);
        proof {
            world.lemma_extends_twice(reached, before);
        }
        let ghost reached = *world;
        let s2 = T2::init_state(world, system_meta);
        proof {
            world.lemma_extends_twice(reached, before);
        }
        let ghost reached = *world;
        let s3 = T3::init_state(world, system_meta);
        proof {
            world.lemma_extends_twice(reached, before);
        }
        let ghost reached = *world;
        let s4 = T4::init_state(world, system_meta);
        proof {
            world.lemma_extends_twice(reached, before);
        }
        (s0, s1, s2, s3, s4)
    }

    fn get_param<'a>(
        state: &'a mut Self::State,
        system_meta: &SystemMeta,
        world: &mut WorldCell<'a>,
        change_tick: ChangeTick,
    ) -> (guard: Self::Guard<'a>) {
        let ghost open = world.open();
        let ghost upto1 = T0::claims();
        let ghost upto2 = upto1 + T1::claims();
        let ghost upto3 = upto2 + T2::claims();
        let ghost upto4 = upto3 + T3::claims();
        let ghost upto5 = upto4 + T4::claims();
        proof {
            lemma_admits_all_split(open, upto4, T4::claims());
            lemma_provides_split(world.store(), world.resources(), upto4, T4::claims());
            lemma_admits_all_split(open, upto3, T3::claims());
            lemma_provides_split(world.store(), world.resources(), upto3, T3::claims());
            lemma_admits_all_split(open, upto2, T2::claims());
            lemma_provides_split(world.store(), world.resources(), upto2, T2::claims());
            lemma_admits_all_split(open, upto1, T1::claims());
            lemma_provides_split(world.store(), world.resources(), upto1, T1::claims());
        }
        let g0 = T0::get_param(&mut state.0, system_meta, world, change_tick);
        assert(world.open() == open + upto1);
        let g1 = T1::get_param(&mut state.1, system_meta, world, change_tick);
        assert(world.open() == open + upto2);
        let g2 = T2::get_param(&mut state.2, system_meta, world, change_tick);
        assert(world.open() == open + upto3);
        let g3 = T3::get_param(&mut state.3, system_meta, world, change_tick);
        assert(world.open() == open + upto4);
        let g4 = T4::get_param(&mut state.4, system_meta, world, change_tick);
        assert(world.open() == open + upto5);
        (g0, g1, g2, g3, g4)
    }

    fn release<'a>(guard: Self::Guard<'a>, world: &mut WorldCell<'a>) {
        let (g0, g1, g2, g3, g4) = guard;
        T4::release(g4, world);
        T3::release(g3, world);
        T2::release(g2, world);
        T1::release(g1, world);
        T0::release(g0, world);
    }

    fn apply(state: &mut Self::State, system_meta: &SystemMeta, world: &mut World) {
        let ghost before = *world;
        T0::apply(&mut state.0, system_meta, world);
        let ghost reached = *world;
        T1::apply(&mut state.1, system_meta, world);
        proof {
            world.lemma_extends_twice(reached, before);
        }
        let ghost reached = *world;
        T2::apply(&mut state.2, system_meta, world);
        proof {
            world.lemma_extends_twice(reached, before);
        }
        let ghost reached = *world;
        T3::apply(&mut state.3, system_meta, world);
        proof {
            world.lemma_extends_twice(reached, before);
        }
        let ghost reached = *world;
        T4::apply(&mut state.4, system_meta, world);
        proof {
            world.lemma_extends_twice(reached, before);
        }
    }
}

impl<
    T0: SystemParam,
    T1: SystemParam,
    T2: SystemParam,
    T3: SystemParam,
    T4: SystemParam,
    T5: SystemParam,
> SystemParam for (T0, T1, T2, T3, T4, T5) {
    type State = (T0::State, T1::State, T2::State, T3::State, T4::State, T5::State);

    type Guard<'a> = (
        T0::Guard<'a>,
        T1::Guard<'a>,
        T2::Guard<'a>,
        T3::Guard<'a>,
        T4::Guard<'a>,
        T5::Guard<'a>,
    );

    open spec fn claims() -> Seq<Claim> {
        T0::claims() + T1::claims() + T2::claims() + T3::claims() + T4::claims() + T5::claims()
    }

    open spec fn locked(state: &Self::State) -> bool {
        ||| T0::locked(&state.0)
        ||| T1::locked(&state.1)
        ||| T2::locked(&state.2)
        ||| T3::locked(&state.3)
        ||| T4::locked(&state.4)
        ||| T5::locked(&state.5)
    }

    open spec fn guarded() -> bool {
        ||| T0::guarded()
        ||| T1::guarded()
        ||| T2::guarded()
        ||| T3::guarded()
        ||| T4::guarded()
        ||| T5::guarded()
    }

    open spec fn still() -> bool {
        &&& T0::still()
        &&& T1::still()
        &&& T2::still()
        &&& T3::still()
        &&& T4::still()
        &&& T5::still()
    }

    open spec fn opened(
        guard: &Self::Guard<'_>,
        store: Store,
        resources: hecs::Entity,
        last: Components,
    ) -> bool {
        &&& T0::opened(&guard.0, store, resources, last)
        &&& T1::opened(&guard.1, store, resources, last)
        &&& T2::opened(&guard.2, store, resources, last)
        &&& T3::opened(&guard.3, store, resources, last)
        &&& T4::opened(&guard.4, store, resources, last)
        &&& T5::opened(&guard.5, store, resources, last)
    }

    open spec fn belongs(guard: &Self::Guard<'_>, store: Store) -> bool {
        &&& T0::belongs(&guard.0, store)
        &&& T1::belongs(&guard.1, store)
        &&& T2::belongs(&guard.2, store)
        &&& T3::belongs(&guard.3, store)
        &&& T4::belongs(&guard.4, store)
        &&& T5::belongs(&guard.5, store)
    }

    fn init_state(world: &mut World, system_meta: &mut SystemMeta) -> (state: Self::State) {
        let ghost before = *world;
        let s0 = T0::init_state(world, system_meta);
        let ghost reached = *world;
        let s1 = T1::init_state(world, system_meta);
        proof {
            world.lemma_extends_twice(reached, before);
        }
        let ghost reached = *world;
        let s2 = T2::init_state(world, system_meta);
        proof {
            world.lemma_extends_twice(reached, before);
        }
        let ghost reached = *world;
        let s3 = T3::init_state(world, system_meta);
        proof {
            world.lemma_extends_twice(reached, before);
        }
        let ghost reached = *world;
        let s4 = T4::init_state(world, system_meta);
        proof {
            world.lemma_extends_twice(reached, before);
        }
        let ghost reached = *world;
        let s5 = T5::init_state(world, system_meta);
        proof {
            world.lemma_extends_twice(reached, before);
        }
        (s0, s1, s2, s3, s4, s5)
    }

    fn get_param<'a>(
        state: &'a mut Self::State,
        system_meta: &SystemMeta,
        world: &mut WorldCell<'a>,
        change_tick: ChangeTick,
    ) -> (guard: Self::Guard<'a>) {
        let ghost open = world.open();
        let ghost upto1 = T0::claims();
        let ghost upto2 = upto1 + T1::claims();
        let ghost upto3 = upto2 + T2::claims();
        let ghost upto4 = upto3 + T3::claims();
        let ghost upto5 = upto4 + T4::claims();
        let ghost upto6 = upto5 + T5::claims();
        proof {
            lemma_admits_all_split(open, upto5, T5::claims());
            lemma_provides_split(world.store(), world.resources(), upto5, T5::claims());
            lemma_admits_all_split(open, upto4, T4::claims());
            lemma_provides_split(world.store(), world.resources(), upto4, T4::claims());
            lemma_admits_all_split(open, upto3, T3::claims());
            lemma_provides_split(world.store(), world.resources(), upto3, T3::claims());
            lemma_admits_all_split(open, upto2, T2::claims());
            lemma_provides_split(world.store(), world.resources(), upto2, T2::claims());
            lemma_admits_all_split(open, upto1, T1::claims());
            lemma_provides_split(world.store(), world.resources(), upto1, T1::claims());
        }
        let g0 = T0::get_param(&mut state.0, system_meta, world, change_tick);
        assert(world.open() == open + upto1);
        let g1 = T1::get_param(&mut state.1, system_meta, world, change_tick);
        assert(world.open() == open + upto2);
        let g2 = T2::get_param(&mut state.2, system_meta, world, change_tick);
        assert(world.open() == open + upto3);
        let g3 = T3::get_param(&mut state.3, system_meta, world, change_tick);
        assert(world.open() == open + upto4);
        let g4 = T4::get_param(&mut state.4, system_meta, world, change_tick);
        assert(world.open() == open + upto5);
        let g5 = T5::get_param(&mut state.5, system_meta, world, change_tick);
        assert(world.open() == open + upto6);
        (g0, g1, g2, g3, g4, g5)
    }

    fn release<'a>(guard: Self::Guard<'a>, world: &mut WorldCell<'a>) {
        let (g0, g1, g2, g3, g4, g5) = guard;
        T5::release(g5, world);
        T4::release(g4, world);
        T3::release(g3, world);
        T2::release(g2, world);
        T1::release(g1, world);
        T0::release(g0, world);
    }

    fn apply(state: &mut Self::State, system_meta: &SystemMeta, world: &mut World) {
        let ghost before = *world;
        T0::apply(&mut state.0, system_meta, world);
        let ghost reached = *world;
        T1::apply(&mut state.1, system_meta, world);
        proof {
            world.lemma_extends_twice(reached, before);
        }
        let ghost reached = *world;
        T2::apply(&mut state.2, system_meta, world);
        proof {
            world.lemma_extends_twice(reached, before);
        }
        let ghost reached = *world;
        T3::apply(&mut state.3, system_meta, world);
        proof {
            world.lemma_extends_twice(reached, before);
        }
        let ghost reached = *world;
        T4::apply(&mut state.4, system_meta, world);
        proof {
            world.lemma_extends_twice(reached, before);
        }
        let ghost reached = *world;
        T5::apply(&mut state.5, system_meta, world);
        proof {
            world.lemma_extends_twice(reached, before);
        }
    }
}

impl<
    T0: SystemParam,
    T1: SystemParam,
    T2: SystemParam,
    T3: SystemParam,
    T4: SystemParam,
    T5: SystemParam,
    T6: SystemParam,
> SystemParam for (T0, T1, T2, T3, T4, T5, T6) {
    type State = (T0::State, T1::State, T2::State, T3::State, T4::State, T5::State, T6::State);

    type Guard<'a> = (
        T0::Guard<'a>,
        T1::Guard<'a>,
        T2::Guard<'a>,
        T3::Guard<'a>,
        T4::Guard<'a>,
        T5::Guard<'a>,
        T6::Guard<'a>,
    );

    open spec fn claims() -> Seq<Claim> {
        T0::claims()
            + T1::claims()
            + T2::claims()
            + T3::claims()
            + T4::claims()
            + T5::claims()
            + T6::claims()
    }

    open spec fn locked(state: &Self::State) -> bool {
        ||| T0::locked(&state.0)
        ||| T1::locked(&state.1)
        ||| T2::locked(&state.2)
        ||| T3::locked(&state.3)
        ||| T4::locked(&state.4)
        ||| T5::locked(&state.5)
        ||| T6::locked(&state.6)
    }

    open spec fn guarded() -> bool {
        ||| T0::guarded()
        ||| T1::guarded()
        ||| T2::guarded()
        ||| T3::guarded()
        ||| T4::guarded()
        ||| T5::guarded()
        ||| T6::guarded()
    }

    open spec fn still() -> bool {
        &&& T0::still()
        &&& T1::still()
        &&& T2::still()
        &&& T3::still()
        &&& T4::still()
        &&& T5::still()
        &&& T6::still()
    }

    open spec fn opened(
        guard: &Self::Guard<'_>,
        store: Store,
        resources: hecs::Entity,
        last: Components,
    ) -> bool {
        &&& T0::opened(&guard.0, store, resources, last)
        &&& T1::opened(&guard.1, store, resources, last)
        &&& T2::opened(&guard.2, store, resources, last)
        &&& T3::opened(&guard.3, store, resources, last)
        &&& T4::opened(&guard.4, store, resources, last)
        &&& T5::opened(&guard.5, store, resources, last)
        &&& T6::opened(&guard.6, store, resources, last)
    }

    open spec fn belongs(guard: &Self::Guard<'_>, store: Store) -> bool {
        &&& T0::belongs(&guard.0, store)
        &&& T1::belongs(&guard.1, store)
        &&& T2::belongs(&guard.2, store)
        &&& T3::belongs(&guard.3, store)
        &&& T4::belongs(&guard.4, store)
        &&& T5::belongs(&guard.5, store)
        &&& T6::belongs(&guard.6, store)
    }

    fn init_state(world: &mut World, system_meta: &mut SystemMeta) -> (state: Self::State) {
        let ghost before = *world;
        let s0 = T0::init_state(world, system_meta);
        let ghost reached = *world;
        let s1 = T1::init_state(world, system_meta);
        proof {
            world.lemma_extends_twice(reached, before);
        }
        let ghost reached = *world;
        let s2 = T2::init_state(world, system_meta);
        proof {
            world.lemma_extends_twice(reached, before);
        }
        let ghost reached = *world;
        let s3 = T3::init_state(world, system_meta);
        proof {
            world.lemma_extends_twice(reached, before);
        }
        let ghost reached = *world;
        let s4 = T4::init_state(world, system_meta);
        proof {
            world.lemma_extends_twice(reached, before);
        }
        let ghost reached = *world;
        let s5 = T5::init_state(world, system_meta);
        proof {
            world.lemma_extends_twice(reached, before);
        }
        let ghost reached = *world;
        let s6 = T6::init_state(world, system_meta);
        proof {
            world.lemma_extends_twice(reached, before);
        }
        (s0, s1, s2, s3, s4, s5, s6)
    }

    fn get_param<'a>(
        state: &'a mut Self::State,
        system_meta: &SystemMeta,
        world: &mut WorldCell<'a>,
        change_tick: ChangeTick,
    ) -> (guard: Self::Guard<'a>) {
        let ghost open = world.open();
        let ghost upto1 = T0::claims();
        let ghost upto2 = upto1 + T1::claims();
        let ghost upto3 = upto2 + T2::claims();
        let ghost upto4 = upto3 + T3::claims();
        let ghost upto5 = upto4 + T4::claims();
        let ghost upto6 = upto5 + T5::claims();
        let ghost upto7 = upto6 + T6::claims();
        proof {
            lemma_admits_all_split(open, upto6, T6::claims());
            lemma_provides_split(world.store(), world.resources(), upto6, T6::claims());
            lemma_admits_all_split(open, upto5, T5::claims());
            lemma_provides_split(world.store(), world.resources(), upto5, T5::claims());
            lemma_admits_all_split(open, upto4, T4::claims());
            lemma_provides_split(world.store(), world.resources(), upto4, T4::claims());
            lemma_admits_all_split(open, upto3, T3::claims());
            lemma_provides_split(world.store(), world.resources(), upto3, T3::claims());
            lemma_admits_all_split(open, upto2, T2::claims());
            lemma_provides_split(world.store(), world.resources(), upto2, T2::claims());
            lemma_admits_all_split(open, upto1, T1::claims());
            lemma_provides_split(world.store(), world.resources(), upto1, T1::claims());
        }
        let g0 = T0::get_param(&mut state.0, system_meta, world, change_tick);
        assert(world.open() == open + upto1);
        let g1 = T1::get_param(&mut state.1, system_meta, world, change_tick);
        assert(world.open() == open + upto2);
        let g2 = T2::get_param(&mut state.2, system_meta, world, change_tick);
        assert(world.open() == open + upto3);
        let g3 = T3::get_param(&mut state.3, system_meta, world, change_tick);
        assert(world.open() == open + upto4);
        let g4 = T4::get_param(&mut state.4, system_meta, world, change_tick);
        assert(world.open() == open + upto5);
        let g5 = T5::get_param(&mut state.5, system_meta, world, change_tick);
        assert(world.open() == open + upto6);
        let g6 = T6::get_param(&mut state.6, system_meta, world, change_tick);
        assert(world.open() == open + upto7);
        (g0, g1, g2, g3, g4, g5, g6)
    }

    fn release<'a>(guard: Self::Guard<'a>, world: &mut WorldCell<'a>) {
        let (g0, g1, g2, g3, g4, g5, g6) = guard;
        T6::release(g6, world);
        T5::release(g5, world);
        T4::release(g4, world);
        T3::release(g3, world);
        T2::release(g2, world);
        T1::release(g1, world);
        T0::release(g0, world);
    }

    fn apply(state: &mut Self::State, system_meta: &SystemMeta, world: &mut World) {
        let ghost before = *world;
        T0::apply(&mut state.0, system_meta, world);
        let ghost reached = *world;
        T1::apply(&mut state.1, system_meta, world);
        proof {
            world.lemma_extends_twice(reached, before);
        }
        let ghost reached = *world;
        T2::apply(&mut state.2, system_meta, world);
        proof {
            world.lemma_extends_twice(reached, before);
        }
        let ghost reached = *world;
        T3::apply(&mut state.3, system_meta, world);
        proof {
            world.lemma_extends_twice(reached, before);
        }
        let ghost reached = *world;
        T4::apply(&mut state.4, system_meta, world);
        proof {
            world.lemma_extends_twice(reached, before);
        }
        let ghost reached = *world;
        T5::apply(&mut state.5, system_meta, world);
        proof {
            world.lemma_extends_twice(reached, before);
        }
        let ghost reached = *world;
        T6::apply(&mut state.6, system_meta, world);
        proof {
            world.lemma_extends_twice(reached, before);
        }
    }
}

impl<
    T0: SystemParam,
    T1: SystemParam,
    T2: SystemParam,
    T3: SystemParam,
    T4: SystemParam,
    T5: SystemParam,
    T6: SystemParam,
    T7: SystemParam,
> SystemParam for (T0, T1, T2, T3, T4, T5, T6, T7) {
    type State = (
        T0::State,
        T1::State,
        T2::State,
        T3::State,
        T4::State,
        T5::State,
        T6::State,
        T7::State,
    );

    type Guard<'a> = (
        T0::Guard<'a>,
        T1::Guard<'a>,
        T2::Guard<'a>,
        T3::Guard<'a>,
        T4::Guard<'a>,
        T5::Guard<'a>,
        T6::Guard<'a>,
        T7::Guard<'a>,
    );

    open spec fn claims() -> Seq<Claim> {
        T0::claims()
            + T1::claims()
            + T2::claims()
            + T3::claims()
            + T4::claims()
            + T5::claims()
            + T6::claims()
            + T7::claims()
    }

    open spec fn locked(state: &Self::State) -> bool {
        ||| T0::locked(&state.0)
        ||| T1::locked(&state.1)
        ||| T2::locked(&state.2)
        ||| T3::locked(&state.3)
        ||| T4::locked(&state.4)
        ||| T5::locked(&state.5)
        ||| T6::locked(&state.6)
        ||| T7::locked(&state.7)
    }

    open spec fn guarded() -> bool {
        ||| T0::guarded()
        ||| T1::guarded()
        ||| T2::guarded()
        ||| T3::guarded()
        ||| T4::guarded()
        ||| T5::guarded()
        ||| T6::guarded()
        ||| T7::guarded()
    }

    open spec fn still() -> bool {
        &&& T0::still()
        &&& T1::still()
        &&& T2::still()
        &&& T3::still()
        &&& T4::still()
        &&& T5::still()
        &&& T6::still()
        &&& T7::still()
    }

    open spec fn opened(
        guard: &Self::Guard<'_>,
        store: Store,
        resources: hecs::Entity,
        last: Components,
    ) -> bool {
        &&& T0::opened(&guard.0, store, resources, last)
        &&& T1::opened(&guard.1, store, resources, last)
        &&& T2::opened(&guard.2, store, resources, last)
        &&& T3::opened(&guard.3, store, resources, last)
        &&& T4::opened(&guard.4, store, resources, last)
        &&& T5::opened(&guard.5, store, resources, last)
        &&& T6::opened(&guard.6, store, resources, last)
        &&& T7::opened(&guard.7, store, resources, last)
    }

    open spec fn belongs(guard: &Self::Guard<'_>, store: Store) -> bool {
        &&& T0::belongs(&guard.0, store)
        &&& T1::belongs(&guard.1, store)
        &&& T2::belongs(&guard.2, store)
        &&& T3::belongs(&guard.3, store)
        &&& T4::belongs(&guard.4, store)
        &&& T5::belongs(&guard.5, store)
        &&& T6::belongs(&guard.6, store)
        &&& T7::belongs(&guard.7, store)
    }

    fn init_state(world: &mut World, system_meta: &mut SystemMeta) -> (state: Self::State) {
        let ghost before = *world;
        let s0 = T0::init_state(world, system_meta);
        let ghost reached = *world;
        let s1 = T1::init_state(world, system_meta);
        proof {
            world.lemma_extends_twice(reached, before);
        }
        let ghost reached = *world;
        let s2 = T2::init_state(world, system_meta);
        proof {
            world.lemma_extends_twice(reached, before);
        }
        let ghost reached = *world;
        let s3 = T3::init_state(world, system_meta);
        proof {
            world.lemma_extends_twice(reached, before);
        }
        let ghost reached = *world;
        let s4 = T4::init_state(world, system_meta);
        proof {
            world.lemma_extends_twice(reached, before);
        }
        let ghost reached = *world;
        let s5 = T5::init_state(world, system_meta);
        proof {
            world.lemma_extends_twice(reached, before);
        }
        let ghost reached = *world;
        let s6 = T6::init_state(world, system_meta);
        proof {
            world.lemma_extends_twice(reached, before);
        }
        let ghost reached = *world;
        let s7 = T7::init_state(world, system_meta);
        proof {
            world.lemma_extends_twice(reached, before);
        }
        (s0, s1, s2, s3, s4, s5, s6, s7)
    }

    fn get_param<'a>(
        state: &'a mut Self::State,
        system_meta: &SystemMeta,
        world: &mut WorldCell<'a>,
        change_tick: ChangeTick,
    ) -> (guard: Self::Guard<'a>) {
        let ghost open = world.open();
        let ghost upto1 = T0::claims();
        let ghost upto2 = upto1 + T1::claims();
        let ghost upto3 = upto2 + T2::claims();
        let ghost upto4 = upto3 + T3::claims();
        let ghost upto5 = upto4 + T4::claims();
        let ghost upto6 = upto5 + T5::claims();
        let ghost upto7 = upto6 + T6::claims();
        let ghost upto8 = upto7 + T7::claims();
        proof {
            lemma_admits_all_split(open, upto7, T7::claims());
            lemma_provides_split(world.store(), world.resources(), upto7, T7::claims());
            lemma_admits_all_split(open, upto6, T6::claims());
            lemma_provides_split(world.store(), world.resources(), upto6, T6::claims());
            lemma_admits_all_split(open, upto5, T5::claims());
            lemma_provides_split(world.store(), world.resources(), upto5, T5::claims());
            lemma_admits_all_split(open, upto4, T4::claims());
            lemma_provides_split(world.store(), world.resources(), upto4, T4::claims());
            lemma_admits_all_split(open, upto3, T3::claims());
            lemma_provides_split(world.store(), world.resources(), upto3, T3::claims());
            lemma_admits_all_split(open, upto2, T2::claims());
            lemma_provides_split(world.store(), world.resources(), upto2, T2::claims());
            lemma_admits_all_split(open, upto1, T1::claims());
            lemma_provides_split(world.store(), world.resources(), upto1, T1::claims());
        }
        let g0 = T0::get_param(&mut state.0, system_meta, world, change_tick);
        assert(world.open() == open + upto1);
        let g1 = T1::get_param(&mut state.1, system_meta, world, change_tick);
        assert(world.open() == open + upto2);
        let g2 = T2::get_param(&mut state.2, system_meta, world, change_tick);
        assert(world.open() == open + upto3);
        let g3 = T3::get_param(&mut state.3, system_meta, world, change_tick);
        assert(world.open() == open + upto4);
        let g4 = T4::get_param(&mut state.4, system_meta, world, change_tick);
        assert(world.open() == open + upto5);
        let g5 = T5::get_param(&mut state.5, system_meta, world, change_tick);
        assert(world.open() == open + upto6);
        let g6 = T6::get_param(&mut state.6, system_meta, world, change_tick);
        assert(world.open() == open + upto7);
        let g7 = T7::get_param(&mut state.7, system_meta, world, change_tick);
        assert(world.open() == open + upto8);
        (g0, g1, g2, g3, g4, g5, g6, g7)
    }

    fn release<'a>(guard: Self::Guard<'a>, world: &mut WorldCell<'a>) {
        let (g0, g1, g2, g3, g4, g5, g6, g7) = guard;
        T7::release(g7, world);
        T6::release(g6, world);
        T5::release(g5, world);
        T4::release(g4, world);
        T3::release(g3, world);
        T2::release(g2, world);
        T1::release(g1, world);
        T0::release(g0, world);
    }

    fn apply(state: &mut Self::State, system_meta: &SystemMeta, world: &mut World) {
        let ghost before = *world;
        T0::apply(&mut state.0, system_meta, world);
        let ghost reached = *world;
        T1::apply(&mut state.1, system_meta, world);
        proof {
            world.lemma_extends_twice(reached, before);
        }
        let ghost reached = *world;
        T2::apply(&mut state.2, system_meta, world);
        proof {
            world.lemma_extends_twice(reached, before);
        }
        let ghost reached = *world;
        T3::apply(&mut state.3, system_meta, world);
        proof {
            world.lemma_extends_twice(reached, before);
        }
        let ghost reached = *world;
        T4::apply(&mut state.4, system_meta, world);
        proof {
            world.lemma_extends_twice(reached, before);
        }
        let ghost reached = *world;
        T5::apply(&mut state.5, system_meta, world);
        proof {
            world.lemma_extends_twice(reached, before);
        }
        let ghost reached = *world;
        T6::apply(&mut state.6, system_meta, world);
        proof {
            world.lemma_extends_twice(reached, before);
        }
        let ghost reached = *world;
        T7::apply(&mut state.7, system_meta, world);
        proof {
            world.lemma_extends_twice(reached, before);
        }
    }
}

impl<
    T0: SystemParam,
    T1: SystemParam,
    T2: SystemParam,
    T3: SystemParam,
    T4: SystemParam,
    T5: SystemParam,
    T6: SystemParam,
    T7: SystemParam,
    T8: SystemParam,
> SystemParam for (T0, T1, T2, T3, T4, T5, T6, T7, T8) {
    type State = (
        T0::State,
        T1::State,
        T2::State,
        T3::State,
        T4::State,
        T5::State,
        T6::State,
        T7::State,
        T8::State,
    );

    type Guard<'a> = (
        T0::Guard<'a>,
        T1::Guard<'a>,
        T2::Guard<'a>,
        T3::Guard<'a>,
        T4::Guard<'a>,
        T5::Guard<'a>,
        T6::Guard<'a>,
        T7::Guard<'a>,
        T8::Guard<'a>,
    );

    open spec fn claims() -> Seq<Claim> {
        T0::claims()
            + T1::claims()
            + T2::claims()
            + T3::claims()
            + T4::claims()
            + T5::claims()
            + T6::claims()
            + T7::claims()
            + T8::claims()
    }

    open spec fn locked(state: &Self::State) -> bool {
        ||| T0::locked(&state.0)
        ||| T1::locked(&state.1)
        ||| T2::locked(&state.2)
        ||| T3::locked(&state.3)
        ||| T4::locked(&state.4)
        ||| T5::locked(&state.5)
        ||| T6::locked(&state.6)
        ||| T7::locked(&state.7)
        ||| T8::locked(&state.8)
    }

    open spec fn guarded() -> bool {
        ||| T0::guarded()
        ||| T1::guarded()
        ||| T2::guarded()
        ||| T3::guarded()
        ||| T4::guarded()
        ||| T5::guarded()
        ||| T6::guarded()
        ||| T7::guarded()
        ||| T8::guarded()
    }

    open spec fn still() -> bool {
        &&& T0::still()
        &&& T1::still()
        &&& T2::still()
        &&& T3::still()
        &&& T4::still()
        &&& T5::still()
        &&& T6::still()
        &&& T7::still()
        &&& T8::still()
    }

    open spec fn opened(
        guard: &Self::Guard<'_>,
        store: Store,
        resources: hecs::Entity,
        last: Components,
    ) -> bool {
        &&& T0::opened(&guard.0, store, resources, last)
        &&& T1::opened(&guard.1, store, resources, last)
        &&& T2::opened(&guard.2, store, resources, last)
        &&& T3::opened(&guard.3, store, resources, last)
        &&& T4::opened(&guard.4, store, resources, last)
        &&& T5::opened(&guard.5, store, resources, last)
        &&& T6::opened(&guard.6, store, resources, last)
        &&& T7::opened(&guard.7, store, resources, last)
        &&& T8::opened(&guard.8, store, resources, last)
    }

    open spec fn belongs(guard: &Self::Guard<'_>, store: Store) -> bool {
        &&& T0::belongs(&guard.0, store)
        &&& T1::belongs(&guard.1, store)
        &&& T2::belongs(&guard.2, store)
        &&& T3::belongs(&guard.3, store)
        &&& T4::belongs(&guard.4, store)
        &&& T5::belongs(&guard.5, store)
        &&& T6::belongs(&guard.6, store)
        &&& T7::belongs(&guard.7, store)
        &&& T8::belongs(&guard.8, store)
    }

    fn init_state(world: &mut World, system_meta: &mut SystemMeta) -> (state: Self::State) {
        let ghost before = *world;
        let s0 = T0::init_state(world, system_meta);
        let ghost reached = *world;
        let s1 = T1::init_state(world, system_meta);
        proof {
            world.lemma_extends_twice(reached, before);
        }
        let ghost reached = *world;
        let s2 = T2::init_state(world, system_meta);
        proof {
            world.lemma_extends_twice(reached, before);
        }
        let ghost reached = *world;
        let s3 = T3::init_state(world, system_meta);
        proof {
            world.lemma_extends_twice(reached, before);
        }
        let ghost reached = *world;
        let s4 = T4::init_state(world, system_meta);
        proof {
            world.lemma_extends_twice(reached, before);
        }
        let ghost reached = *world;
        let s5 = T5::init_state(world, system_meta);
        proof {
            world.lemma_extends_twice(reached, before);
        }
        let ghost reached = *world;
        let s6 = T6::init_state(world, system_meta);
        proof {
            world.lemma_extends_twice(reached, before);
        }
        let ghost reached = *world;
        let s7 = T7::init_state(world, system_meta);
        proof {
            world.lemma_extends_twice(reached, before);
        }
        let ghost reached = *world;
        let s8 = T8::init_state(world, system_meta);
        proof {
            world.lemma_extends_twice(reached, before);
        }
        (s0, s1, s2, s3, s4, s5, s6, s7, s8)
    }

    fn get_param<'a>(
        state: &'a mut Self::State,
        system_meta: &SystemMeta,
        world: &mut WorldCell<'a>,
        change_tick: ChangeTick,
    ) -> (guard: Self::Guard<'a>) {
        let ghost open = world.open();
        let ghost upto1 = T0::claims();
        let ghost upto2 = upto1 + T1::claims();
        let ghost upto3 = upto2 + T2::claims();
        let ghost upto4 = upto3 + T3::claims();
        let ghost upto5 = upto4 + T4::claims();
        let ghost upto6 = upto5 + T5::claims();
        let ghost upto7 = upto6 + T6::claims();
        let ghost upto8 = upto7 + T7::claims();
        let ghost upto9 = upto8 + T8::claims();
        proof {
            lemma_admits_all_split(open, upto8, T8::claims());
            lemma_provides_split(world.store(), world.resources(), upto8, T8::claims());
            lemma_admits_all_split(open, upto7, T7::claims());
            lemma_provides_split(world.store(), world.resources(), upto7, T7::claims());
            lemma_admits_all_split(open, upto6, T6::claims());
            lemma_provides_split(world.store(), world.resources(), upto6, T6::claims());
            lemma_admits_all_split(open, upto5, T5::claims());
            lemma_provides_split(world.store(), world.resources(), upto5, T5::claims());
            lemma_admits_all_split(open, upto4, T4::claims());
            lemma_provides_split(world.store(), world.resources(), upto4, T4::claims());
            lemma_admits_all_split(open, upto3, T3::claims());
            lemma_provides_split(world.store(), world.resources(), upto3, T3::claims());
            lemma_admits_all_split(open, upto2, T2::claims());
            lemma_provides_split(world.store(), world.resources(), upto2, T2::claims());
            lemma_admits_all_split(open, upto1, T1::claims());
            lemma_provides_split(world.store(), world.resources(), upto1, T1::claims());
        }
        let g0 = T0::get_param(&mut state.0, system_meta, world, change_tick);
        assert(world.open() == open + upto1);
        let g1 = T1::get_param(&mut state.1, system_meta, world, change_tick);
        assert(world.open() == open + upto2);
        let g2 = T2::get_param(&mut state.2, system_meta, world, change_tick);
        assert(world.open() == open + upto3);
        let g3 = T3::get_param(&mut state.3, system_meta, world, change_tick);
        assert(world.open() == open + upto4);
        let g4 = T4::get_param(&mut state.4, system_meta, world, change_tick);
        assert(world.open() == open + upto5);
        let g5 = T5::get_param(&mut state.5, system_meta, world, change_tick);
        assert(world.open() == open + upto6);
        let g6 = T6::get_param(&mut state.6, system_meta, world, change_tick);
        assert(world.open() == open + upto7);
        let g7 = T7::get_param(&mut state.7, system_meta, world, change_tick);
        assert(world.open() == open + upto8);
        let g8 = T8::get_param(&mut state.8, system_meta, world, change_tick);
        assert(world.open() == open + upto9);
        (g0, g1, g2, g3, g4, g5, g6, g7, g8)
    }

    fn release<'a>(guard: Self::Guard<'a>, world: &mut WorldCell<'a>) {
        let (g0, g1, g2, g3, g4, g5, g6, g7, g8) = guard;
        T8::release(g8, world);
        T7::release(g7, world);
        T6::release(g6, world);
        T5::release(g5, world);
        T4::release(g4, world);
        T3::release(g3, world);
        T2::release(g2, world);
        T1::release(g1, world);
        T0::release(g0, world);
    }

    fn apply(state: &mut Self::State, system_meta: &SystemMeta, world: &mut World) {
        let ghost before = *world;
        T0::apply(&mut state.0, system_meta, world);
        let ghost reached = *world;
        T1::apply(&mut state.1, system_meta, world);
        proof {
            world.lemma_extends_twice(reached, before);
        }
        let ghost reached = *world;
        T2::apply(&mut state.2, system_meta, world);
        proof {
            world.lemma_extends_twice(reached, before);
        }
        let ghost reached = *world;
        T3::apply(&mut state.3, system_meta, world);
        proof {
            world.lemma_extends_twice(reached, before);
        }
        let ghost reached = *world;
        T4::apply(&mut state.4, system_meta, world);
        proof {
            world.lemma_extends_twice(reached, before);
        }
        let ghost reached = *world;
        T5::apply(&mut state.5, system_meta, world);
        proof {
            world.lemma_extends_twice(reached, before);
        }
        let ghost reached = *world;
        T6::apply(&mut state.6, system_meta, world);
        proof {
            world.lemma_extends_twice(reached, before);
        }
        let ghost reached = *world;
        T7::apply(&mut state.7, system_meta, world);
        proof {
            world.lemma_extends_twice(reached, before);
        }
        let ghost reached = *world;
        T8::apply(&mut state.8, system_meta, world);
        proof {
            world.lemma_extends_twice(reached, before);
        }
    }
}

impl<
    T0: SystemParam,
    T1: SystemParam,
    T2: SystemParam,
    T3: SystemParam,
    T4: SystemParam,
    T5: SystemParam,
    T6: SystemParam,
    T7: SystemParam,
    T8: SystemParam,
    T9: SystemParam,
> SystemParam for (T0, T1, T2, T3, T4, T5, T6, T7, T8, T9) {
    type State = (
        T0::State,
        T1::State,
        T2::State,
        T3::State,
        T4::State,
        T5::State,
        T6::State,
        T7::State,
        T8::State,
        T9::State,
    );

    type Guard<'a> = (
        T0::Guard<'a>,
        T1::Guard<'a>,
        T2::Guard<'a>,
        T3::Guard<'a>,
        T4::Guard<'a>,
        T5::Guard<'a>,
        T6::Guard<'a>,
        T7::Guard<'a>,
        T8::Guard<'a>,
        T9::Guard<'a>,
    );

    open spec fn claims() -> Seq<Claim> {
        T0::claims()
            + T1::claims()
            + T2::claims()
            + T3::claims()
            + T4::claims()
            + T5::claims()
            + T6::claims()
            + T7::claims()
            + T8::claims()
            + T9::claims()
    }

    open spec fn locked(state: &Self::State) -> bool {
        ||| T0::locked(&state.0)
        ||| T1::locked(&state.1)
        ||| T2::locked(&state.2)
        ||| T3::locked(&state.3)
        ||| T4::locked(&state.4)
        ||| T5::locked(&state.5)
        ||| T6::locked(&state.6)
        ||| T7::locked(&state.7)
        ||| T8::locked(&state.8)
        ||| T9::locked(&state.9)
    }

    open spec fn guarded() -> bool {
        ||| T0::guarded()
        ||| T1::guarded()
        ||| T2::guarded()
        ||| T3::guarded()
        ||| T4::guarded()
        ||| T5::guarded()
        ||| T6::guarded()
        ||| T7::guarded()
        ||| T8::guarded()
        ||| T9::guarded()
    }

    open spec fn still() -> bool {
        &&& T0::still()
        &&& T1::still()
        &&& T2::still()
        &&& T3::still()
        &&& T4::still()
        &&& T5::still()
        &&& T6::still()
        &&& T7::still()
        &&& T8::still()
        &&& T9::still()
    }

    open spec fn opened(
        guard: &Self::Guard<'_>,
        store: Store,
        resources: hecs::Entity,
        last: Components,
    ) -> bool {
        &&& T0::opened(&guard.0, store, resources, last)
        &&& T1::opened(&guard.1, store, resources, last)
        &&& T2::opened(&guard.2, store, resources, last)
        &&& T3::opened(&guard.3, store, resources, last)
        &&& T4::opened(&guard.4, store, resources, last)
        &&& T5::opened(&guard.5, store, resources, last)
        &&& T6::opened(&guard.6, store, resources, last)
        &&& T7::opened(&guard.7, store, resources, last)
        &&& T8::opened(&guard.8, store, resources, last)
        &&& T9::opened(&guard.9, store, resources, last)
    }

    open spec fn belongs(guard: &Self::Guard<'_>, store: Store) -> bool {
        &&& T0::belongs(&guard.0, store)
        &&& T1::belongs(&guard.1, store)
        &&& T2::belongs(&guard.2, store)
        &&& T3::belongs(&guard.3, store)
        &&& T4::belongs(&guard.4, store)
        &&& T5::belongs(&guard.5, store)
        &&& T6::belongs(&guard.6, store)
        &&& T7::belongs(&guard.7, store)
        &&& T8::belongs(&guard.8, store)
        &&& T9::belongs(&guard.9, store)
    }

    fn init_state(world: &mut World, system_meta: &mut SystemMeta) -> (state: Self::State) {
        let ghost before = *world;
        let s0 = T0::init_state(world, system_meta);
        let ghost reached = *world;
        let s1 = T1::init_state(world, system_meta);
        proof {
            world.lemma_extends_twice(reached, before);
        }
        let ghost reached = *world;
        let s2 = T2::init_state(world, system_meta);
        proof {
            world.lemma_extends_twice(reached, before);
        }
        let ghost reached = *world;
        let s3 = T3::init_state(world, system_meta);
        proof {
            world.lemma_extends_twice(reached, before);
        }
        let ghost reached = *world;
        let s4 = T4::init_state(world, system_meta);
        proof {
            world.lemma_extends_twice(reached, before);
        }
        let ghost reached = *world;
        let s5 = T5::init_state(world, system_meta);
        proof {
            world.lemma_extends_twice(reached, before);
        }
        let ghost reached = *world;
        let s6 = T6::init_state(world, system_meta);
        proof {
            world.lemma_extends_twice(reached, before);
        }
        let ghost reached = *world;
        let s7 = T7::init_state(world, system_meta);
        proof {
            world.lemma_extends_twice(reached, before);
        }
        let ghost reached = *world;
        let s8 = T8::init_state(world, system_meta);
        proof {
            world.lemma_extends_twice(reached, before);
        }
        let ghost reached = *world;
        let s9 = T9::init_state(world, system_meta);
        proof {
            world.lemma_extends_twice(reached, before);
        }
        (s0, s1, s2, s3, s4, s5, s6, s7, s8, s9)
    }

    fn get_param<'a>(
        state: &'a mut Self::State,
        system_meta: &SystemMeta,
        world: &mut WorldCell<'a>,
        change_tick: ChangeTick,
    ) -> (guard: Self::Guard<'a>) {
        let ghost open = world.open();
        let ghost upto1 = T0::claims();
        let ghost upto2 = upto1 + T1::claims();
        let ghost upto3 = upto2 + T2::claims();
        let ghost upto4 = upto3 + T3::claims();
        let ghost upto5 = upto4 + T4::claims();
        let ghost upto6 = upto5 + T5::claims();
        let ghost upto7 = upto6 + T6::claims();
        let ghost upto8 = upto7 + T7::claims();
        let ghost upto9 = upto8 + T8::claims();
        let ghost upto10 = upto9 + T9::claims();
        proof {
            lemma_admits_all_split(open, upto9, T9::claims());
            lemma_provides_split(world.store(), world.resources(), upto9, T9::claims());
            lemma_admits_all_split(open, upto8, T8::claims());
            lemma_provides_split(world.store(), world.resources(), upto8, T8::claims());
            lemma_admits_all_split(open, upto7, T7::claims());
            lemma_provides_split(world.store(), world.resources(), upto7, T7::claims());
            lemma_admits_all_split(open, upto6, T6::claims());
            lemma_provides_split(world.store(), world.resources(), upto6, T6::claims());
            lemma_admits_all_split(open, upto5, T5::claims());
            lemma_provides_split(world.store(), world.resources(), upto5, T5::claims());
            lemma_admits_all_split(open, upto4, T4::claims());
            lemma_provides_split(world.store(), world.resources(), upto4, T4::claims());
            lemma_admits_all_split(open, upto3, T3::claims());
            lemma_provides_split(world.store(), world.resources(), upto3, T3::claims());
            lemma_admits_all_split(open, upto2, T2::claims());
            lemma_provides_split(world.store(), world.resources(), upto2, T2::claims());
            lemma_admits_all_split(open, upto1, T1::claims());
            lemma_provides_split(world.store(), world.resources(), upto1, T1::claims());
        }
        let g0 = T0::get_param(&mut state.0, system_meta, world, change_tick);
        assert(world.open() == open + upto1);
        let g1 = T1::get_param(&mut state.1, system_meta, world, change_tick);
        assert(world.open() == open + upto2);
        let g2 = T2::get_param(&mut state.2, system_meta, world, change_tick);
        assert(world.open() == open + upto3);
        let g3 = T3::get_param(&mut state.3, system_meta, world, change_tick);
        assert(world.open() == open + upto4);
        let g4 = T4::get_param(&mut state.4, system_meta, world, change_tick);
        assert(world.open() == open + upto5);
        let g5 = T5::get_param(&mut state.5, system_meta, world, change_tick);
        assert(world.open() == open + upto6);
        let g6 = T6::get_param(&mut state.6, system_meta, world, change_tick);
        assert(world.open() == open + upto7);
        let g7 = T7::get_param(&mut state.7, system_meta, world, change_tick);
        assert(world.open() == open + upto8);
        let g8 = T8::get_param(&mut state.8, system_meta, world, change_tick);
        assert(world.open() == open + upto9);
        let g9 = T9::get_param(&mut state.9, system_meta, world, change_tick);
        assert(world.open() == open + upto10);
        (g0, g1, g2, g3, g4, g5, g6, g7, g8, g9)
    }

    fn release<'a>(guard: Self::Guard<'a>, world: &mut WorldCell<'a>) {
        let (g0, g1, g2, g3, g4, g5, g6, g7, g8, g9) = guard;
        T9::release(g9, world);
        T8::release(g8, world);
        T7::release(g7, world);
        T6::release(g6, world);
        T5::release(g5, world);
        T4::release(g4, world);
        T3::release(g3, world);
        T2::release(g2, world);
        T1::release(g1, world);
        T0::release(g0, world);
    }

    fn apply(state: &mut Self::State, system_meta: &SystemMeta, world: &mut World) {
        let ghost before = *world;
        T0::apply(&mut state.0, system_meta, world);
        let ghost reached = *world;
        T1::apply(&mut state.1, system_meta, world);
        proof {
            world.lemma_extends_twice(reached, before);
        }
        let ghost reached = *world;
        T2::apply(&mut state.2, system_meta, world);
        proof {
            world.lemma_extends_twice(reached, before);
        }
        let ghost reached = *world;
        T3::apply(&mut state.3, system_meta, world);
        proof {
            world.lemma_extends_twice(reached, before);
        }
        let ghost reached = *world;
        T4::apply(&mut state.4, system_meta, world);
        proof {
            world.lemma_extends_twice(reached, before);
        }
        let ghost reached = *world;
        T5::apply(&mut state.5, system_meta, world);
        proof {
            world.lemma_extends_twice(reached, before);
        }
        let ghost reached = *world;
        T6::apply(&mut state.6, system_meta, world);
        proof {
            world.lemma_extends_twice(reached, before);
        }
        let ghost reached = *world;
        T7::apply(&mut state.7, system_meta, world);
        proof {
            world.lemma_extends_twice(reached, before);
        }
        let ghost reached = *world;
        T8::apply(&mut state.8, system_meta, world);
        proof {
            world.lemma_extends_twice(reached, before);
        }
        let ghost reached = *world;
        T9::apply(&mut state.9, system_meta, world);
        proof {
            world.lemma_extends_twice(reached, before);
        }
    }
}

impl<
    T0: SystemParam,
    T1: SystemParam,
    T2: SystemParam,
    T3: SystemParam,
    T4: SystemParam,
    T5: SystemParam,
    T6: SystemParam,
    T7: SystemParam,
    T8: SystemParam,
    T9: SystemParam,
    T10: SystemParam,
> SystemParam for (T0, T1, T2, T3, T4, T5, T6, T7, T8, T9, T10) {
    type State = (
        T0::State,
        T1::State,
        T2::State,
        T3::State,
        T4::State,
        T5::State,
        T6::State,
        T7::State,
        T8::State,
        T9::State,
        T10::State,
    );

    type Guard<'a> = (
        T0::Guard<'a>,
        T1::Guard<'a>,
        T2::Guard<'a>,
        T3::Guard<'a>,
        T4::Guard<'a>,
        T5::Guard<'a>,
        T6::Guard<'a>,
        T7::Guard<'a>,
        T8::Guard<'a>,
        T9::Guard<'a>,
        T10::Guard<'a>,
    );

    open spec fn claims() -> Seq<Claim> {
        T0::claims()
            + T1::claims()
            + T2::claims()
            + T3::claims()
            + T4::claims()
            + T5::claims()
            + T6::claims()
            + T7::claims()
            + T8::claims()
            + T9::claims()
            + T10::claims()
    }

    open spec fn locked(state: &Self::State) -> bool {
        ||| T0::locked(&state.0)
        ||| T1::locked(&state.1)
        ||| T2::locked(&state.2)
        ||| T3::locked(&state.3)
        ||| T4::locked(&state.4)
        ||| T5::locked(&state.5)
        ||| T6::locked(&state.6)
        ||| T7::locked(&state.7)
        ||| T8::locked(&state.8)
        ||| T9::locked(&state.9)
        ||| T10::locked(&state.10)
    }

    open spec fn guarded() -> bool {
        ||| T0::guarded()
        ||| T1::guarded()
        ||| T2::guarded()
        ||| T3::guarded()
        ||| T4::guarded()
        ||| T5::guarded()
        ||| T6::guarded()
        ||| T7::guarded()
        ||| T8::guarded()
        ||| T9::guarded()
        ||| T10::guarded()
    }

    open spec fn still() -> bool {
        &&& T0::still()
        &&& T1::still()
        &&& T2::still()
        &&& T3::still()
        &&& T4::still()
        &&& T5::still()
        &&& T6::still()
        &&& T7::still()
        &&& T8::still()
        &&& T9::still()
        &&& T10::still()
    }

    open spec fn opened(
        guard: &Self::Guard<'_>,
        store: Store,
        resources: hecs::Entity,
        last: Components,
    ) -> bool {
        &&& T0::opened(&guard.0, store, resources, last)
        &&& T1::opened(&guard.1, store, resources, last)
        &&& T2::opened(&guard.2, store, resources, last)
        &&& T3::opened(&guard.3, store, resources, last)
        &&& T4::opened(&guard.4, store, resources, last)
        &&& T5::opened(&guard.5, store, resources, last)
        &&& T6::opened(&guard.6, store, resources, last)
        &&& T7::opened(&guard.7, store, resources, last)
        &&& T8::opened(&guard.8, store, resources, last)
        &&& T9::opened(&guard.9, store, resources, last)
        &&& T10::opened(&guard.10, store, resources, last)
    }

    open spec fn belongs(guard: &Self::Guard<'_>, store: Store) -> bool {
        &&& T0::belongs(&guard.0, store)
        &&& T1::belongs(&guard.1, store)
        &&& T2::belongs(&guard.2, store)
        &&& T3::belongs(&guard.3, store)
        &&& T4::belongs(&guard.4, store)
        &&& T5::belongs(&guard.5, store)
        &&& T6::belongs(&guard.6, store)
        &&& T7::belongs(&guard.7, store)
        &&& T8::belongs(&guard.8, store)
        &&& T9::belongs(&guard.9, store)
        &&& T10::belongs(&guard.10, store)
    }

    fn init_state(world: &mut World, system_meta: &mut SystemMeta) -> (state: Self::State) {
        let ghost before = *world;
        let s0 = T0::init_state(world, system_meta);
        let ghost reached = *world;
        let s1 = T1::init_state(world, system_meta);
        proof {
            world.lemma_extends_twice(reached, before);
        }
        let ghost reached = *world;
        let s2 = T2::init_state(world, system_meta);
        proof {
            world.lemma_extends_twice(reached, before);
        }
        let ghost reached = *world;
        let s3 = T3::init_state(world, system_meta);
        proof {
            world.lemma_extends_twice(reached, before);
        }
        let ghost reached = *world;
        let s4 = T4::init_state(world, system_meta);
        proof {
            world.lemma_extends_twice(reached, before);
        }
        let ghost reached = *world;
        let s5 = T5::init_state(world, system_meta);
        proof {
            world.lemma_extends_twice(reached, before);
        }
        let ghost reached = *world;
        let s6 = T6::init_state(world, system_meta);
        proof {
            world.lemma_extends_twice(reached, before);
        }
        let ghost reached = *world;
        let s7 = T7::init_state(world, system_meta);
        proof {
            world.lemma_extends_twice(reached, before);
        }
        let ghost reached = *world;
        let s8 = T8::init_state(world, system_meta);
        proof {
            world.lemma_extends_twice(reached, before);
        }
        let ghost reached = *world;
        let s9 = T9::init_state(world, system_meta);
        proof {
            world.lemma_extends_twice(reached, before);
        }
        let ghost reached = *world;
        let s10 = T10::init_state(world, system_meta);
        proof {
            world.lemma_extends_twice(reached, before);
        }
        (s0, s1, s2, s3, s4, s5, s6, s7, s8, s9, s10)
    }

    fn get_param<'a>(
        state: &'a mut Self::State,
        system_meta: &SystemMeta,
        world: &mut WorldCell<'a>,
        change_tick: ChangeTick,
    ) -> (guard: Self::Guard<'a>) {
        let ghost open = world.open();
        let ghost upto1 = T0::claims();
        let ghost upto2 = upto1 + T1::claims();
        let ghost upto3 = upto2 + T2::claims();
        let ghost upto4 = upto3 + T3::claims();
        let ghost upto5 = upto4 + T4::claims();
        let ghost upto6 = upto5 + T5::claims();
        let ghost upto7 = upto6 + T6::claims();
        let ghost upto8 = upto7 + T7::claims();
        let ghost upto9 = upto8 + T8::claims();
        let ghost upto10 = upto9 + T9::claims();
        let ghost upto11 = upto10 + T10::claims();
        proof {
            lemma_admits_all_split(open, upto10, T10::claims());
            lemma_provides_split(world.store(), world.resources(), upto10, T10::claims());
            lemma_admits_all_split(open, upto9, T9::claims());
            lemma_provides_split(world.store(), world.resources(), upto9, T9::claims());
            lemma_admits_all_split(open, upto8, T8::claims());
            lemma_provides_split(world.store(), world.resources(), upto8, T8::claims());
            lemma_admits_all_split(open, upto7, T7::claims());
            lemma_provides_split(world.store(), world.resources(), upto7, T7::claims());
            lemma_admits_all_split(open, upto6, T6::claims());
            lemma_provides_split(world.store(), world.resources(), upto6, T6::claims());
            lemma_admits_all_split(open, upto5, T5::claims());
            lemma_provides_split(world.store(), world.resources(), upto5, T5::claims());
            lemma_admits_all_split(open, upto4, T4::claims());
            lemma_provides_split(world.store(), world.resources(), upto4, T4::claims());
            lemma_admits_all_split(open, upto3, T3::claims());
            lemma_provides_split(world.store(), world.resources(), upto3, T3::claims());
            lemma_admits_all_split(open, upto2, T2::claims());
            lemma_provides_split(world.store(), world.resources(), upto2, T2::claims());
            lemma_admits_all_split(open, upto1, T1::claims());
            lemma_provides_split(world.store(), world.resources(), upto1, T1::claims());
        }
        let g0 = T0::get_param(&mut state.0, system_meta, world, change_tick);
        assert(world.open() == open + upto1);
        let g1 = T1::get_param(&mut state.1, system_meta, world, change_tick);
        assert(world.open() == open + upto2);
        let g2 = T2::get_param(&mut state.2, system_meta, world, change_tick);
        assert(world.open() == open + upto3);
        let g3 = T3::get_param(&mut state.3, system_meta, world, change_tick);
        assert(world.open() == open + upto4);
        let g4 = T4::get_param(&mut state.4, system_meta, world, change_tick);
        assert(world.open() == open + upto5);
        let g5 = T5::get_param(&mut state.5, system_meta, world, change_tick);
        assert(world.open() == open + upto6);
        let g6 = T6::get_param(&mut state.6, system_meta, world, change_tick);
        assert(world.open() == open + upto7);
        let g7 = T7::get_param(&mut state.7, system_meta, world, change_tick);
        assert(world.open() == open + upto8);
        let g8 = T8::get_param(&mut state.8, system_meta, world, change_tick);
        assert(world.open() == open + upto9);
        let g9 = T9::get_param(&mut state.9, system_meta, world, change_tick);
        assert(world.open() == open + upto10);
        let g10 = T10::get_param(&mut state.10, system_meta, world, change_tick);
        assert(world.open() == open + upto11);
        (g0, g1, g2, g3, g4, g5, g6, g7, g8, g9, g10)
    }

    fn release<'a>(guard: Self::Guard<'a>, world: &mut WorldCell<'a>) {
        let (g0, g1, g2, g3, g4, g5, g6, g7, g8, g9, g10) = guard;
        T10::release(g10, world);
        T9::release(g9, world);
        T8::release(g8, world);
        T7::release(g7, world);
        T6::release(g6, world);
        T5::release(g5, world);
        T4::release(g4, world);
        T3::release(g3, world);
        T2::release(g2, world);
        T1::release(g1, world);
        T0::release(g0, world);
    }

    fn apply(state: &mut Self::State, system_meta: &SystemMeta, world: &mut World) {
        let ghost before = *world;
        T0::apply(&mut state.0, system_meta, world);
        let ghost reached = *world;
        T1::apply(&mut state.1, system_meta, world);
        proof {
            world.lemma_extends_twice(reached, before);
        }
        let ghost reached = *world;
        T2::apply(&mut state.2, system_meta, world);
        proof {
            world.lemma_extends_twice(reached, before);
        }
        let ghost reached = *world;
        T3::apply(&mut state.3, system_meta, world);
        proof {
            world.lemma_extends_twice(reached, before);
        }
        let ghost reached = *world;
        T4::apply(&mut state.4, system_meta, world);
        proof {
            world.lemma_extends_twice(reached, before);
        }
        let ghost reached = *world;
        T5::apply(&mut state.5, system_meta, world);
        proof {
            world.lemma_extends_twice(reached, before);
        }
        let ghost reached = *world;
        T6::apply(&mut state.6, system_meta, world);
        proof {
            world.lemma_extends_twice(reached, before);
        }
        let ghost reached = *world;
        T7::apply(&mut state.7, system_meta, world);
        proof {
            world.lemma_extends_twice(reached, before);
        }
        let ghost reached = *world;
        T8::apply(&mut state.8, system_meta, world);
        proof {
            world.lemma_extends_twice(reached, before);
        }
        let ghost reached = *world;
        T9::apply(&mut state.9, system_meta, world);
        proof {
            world.lemma_extends_twice(reached, before);
        }
        let ghost reached = *world;
        T10::apply(&mut state.10, system_meta, world);
        proof {
            world.lemma_extends_twice(reached, before);
        }
    }
}

impl<
    T0: SystemParam,
    T1: SystemParam,
    T2: SystemParam,
    T3: SystemParam,
    T4: SystemParam,
    T5: SystemParam,
    T6: SystemParam,
    T7: SystemParam,
    T8: SystemParam,
    T9: SystemParam,
    T10: SystemParam,
    T11: SystemParam,
> SystemParam for (T0, T1, T2, T3, T4, T5, T6, T7, T8, T9, T10, T11) {
    type State = (
        T0::State,
        T1::State,
        T2::State,
        T3::State,
        T4::State,
        T5::State,
        T6::State,
        T7::State,
        T8::State,
        T9::State,
        T10::State,
        T11::State,
    );

    type Guard<'a> = (
        T0::Guard<'a>,
        T1::Guard<'a>,
        T2::Guard<'a>,
        T3::Guard<'a>,
        T4::Guard<'a>,
        T5::Guard<'a>,
        T6::Guard<'a>,
        T7::Guard<'a>,
        T8::Guard<'a>,
        T9::Guard<'a>,
        T10::Guard<'a>,
        T11::Guard<'a>,
    );

    open spec fn claims() -> Seq<Claim> {
        T0::claims()
            + T1::claims()
            + T2::claims()
            + T3::claims()
            + T4::claims()
            + T5::claims()
            + T6::claims()
            + T7::claims()
            + T8::claims()
            + T9::claims()
            + T10::claims()
            + T11::claims()
    }

    open spec fn locked(state: &Self::State) -> bool {
        ||| T0::locked(&state.0)
        ||| T1::locked(&state.1)
        ||| T2::locked(&state.2)
        ||| T3::locked(&state.3)
        ||| T4::locked(&state.4)
        ||| T5::locked(&state.5)
        ||| T6::locked(&state.6)
        ||| T7::locked(&state.7)
        ||| T8::locked(&state.8)
        ||| T9::locked(&state.9)
        ||| T10::locked(&state.10)
        ||| T11::locked(&state.11)
    }

    open spec fn guarded() -> bool {
        ||| T0::guarded()
        ||| T1::guarded()
        ||| T2::guarded()
        ||| T3::guarded()
        ||| T4::guarded()
        ||| T5::guarded()
        ||| T6::guarded()
        ||| T7::guarded()
        ||| T8::guarded()
        ||| T9::guarded()
        ||| T10::guarded()
        ||| T11::guarded()
    }

    open spec fn still() -> bool {
        &&& T0::still()
        &&& T1::still()
        &&& T2::still()
        &&& T3::still()
        &&& T4::still()
        &&& T5::still()
        &&& T6::still()
        &&& T7::still()
        &&& T8::still()
        &&& T9::still()
        &&& T10::still()
        &&& T11::still()
    }

    open spec fn opened(
        guard: &Self::Guard<'_>,
        store: Store,
        resources: hecs::Entity,
        last: Components,
    ) -> bool {
        &&& T0::opened(&guard.0, store, resources, last)
        &&& T1::opened(&guard.1, store, resources, last)
        &&& T2::opened(&guard.2, store, resources, last)
        &&& T3::opened(&guard.3, store, resources, last)
        &&& T4::opened(&guard.4, store, resources, last)
        &&& T5::opened(&guard.5, store, resources, last)
        &&& T6::opened(&guard.6, store, resources, last)
        &&& T7::opened(&guard.7, store, resources, last)
        &&& T8::opened(&guard.8, store, resources, last)
        &&& T9::opened(&guard.9, store, resources, last)
        &&& T10::opened(&guard.10, store, resources, last)
        &&& T11::opened(&guard.11, store, resources, last)
    }

    open spec fn belongs(guard: &Self::Guard<'_>, store: Store) -> bool {
        &&& T0::belongs(&guard.0, store)
        &&& T1::belongs(&guard.1, store)
        &&& T2::belongs(&guard.2, store)
        &&& T3::belongs(&guard.3, store)
        &&& T4::belongs(&guard.4, store)
        &&& T5::belongs(&guard.5, store)
        &&& T6::belongs(&guard.6, store)
        &&& T7::belongs(&guard.7, store)
        &&& T8::belongs(&guard.8, store)
        &&& T9::belongs(&guard.9, store)
        &&& T10::belongs(&guard.10, store)
        &&& T11::belongs(&guard.11, store)
    }

    fn init_state(world: &mut World, system_meta: &mut SystemMeta) -> (state: Self::State) {
        let ghost before = *world;
        let s0 = T0::init_state(world, system_meta);
        let ghost reached = *world;
        let s1 = T1::init_state(world, system_meta);
        proof {
            world.lemma_extends_twice(reached, before);
        }
        let ghost reached = *world;
        let s2 = T2::init_state(world, system_meta);
        proof {
            world.lemma_extends_twice(reached, before);
        }
        let ghost reached = *world;
        let s3 = T3::init_state(world, system_meta);
        proof {
            world.lemma_extends_twice(reached, before);
        }
        let ghost reached = *world;
        let s4 = T4::init_state(world, system_meta);
        proof {
            world.lemma_extends_twice(reached, before);
        }
        let ghost reached = *world;
        let s5 = T5::init_state(world, system_meta);
        proof {
            world.lemma_extends_twice(reached, before);
        }
        let ghost reached = *world;
        let s6 = T6::init_state(world, system_meta);
        proof {
            world.lemma_extends_twice(reached, before);
        }
        let ghost reached = *world;
        let s7 = T7::init_state(world, system_meta);
        proof {
            world.lemma_extends_twice(reached, before);
        }
        let ghost reached = *world;
        let s8 = T8::init_state(world, system_meta);
        proof {
            world.lemma_extends_twice(reached, before);
        }
        let ghost reached = *world;
        let s9 = T9::init_state(world, system_meta);
        proof {
            world.lemma_extends_twice(reached, before);
        }
        let ghost reached = *world;
        let s10 = T10::init_state(world, system_meta);
        proof {
            world.lemma_extends_twice(reached, before);
        }
        let ghost reached = *world;
        let s11 = T11::init_state(world, system_meta);
        proof {
            world.lemma_extends_twice(reached, before);
        }
        (s0, s1, s2, s3, s4, s5, s6, s7, s8, s9, s10, s11)
    }

    fn get_param<'a>(
        state: &'a mut Self::State,
        system_meta: &SystemMeta,
        world: &mut WorldCell<'a>,
        change_tick: ChangeTick,
    ) -> (guard: Self::Guard<'a>) {
        let ghost open = world.open();
        let ghost upto1 = T0::claims();
        let ghost upto2 = upto1 + T1::claims();
        let ghost upto3 = upto2 + T2::claims();
        let ghost upto4 = upto3 + T3::claims();
        let ghost upto5 = upto4 + T4::claims();
        let ghost upto6 = upto5 + T5::claims();
        let ghost upto7 = upto6 + T6::claims();
        let ghost upto8 = upto7 + T7::claims();
        let ghost upto9 = upto8 + T8::claims();
        let ghost upto10 = upto9 + T9::claims();
        let ghost upto11 = upto10 + T10::claims();
        let ghost upto12 = upto11 + T11::claims();
        proof {
            lemma_admits_all_split(open, upto11, T11::claims());
            lemma_provides_split(world.store(), world.resources(), upto11, T11::claims());
            lemma_admits_all_split(open, upto10, T10::claims());
            lemma_provides_split(world.store(), world.resources(), upto10, T10::claims());
            lemma_admits_all_split(open, upto9, T9::claims());
            lemma_provides_split(world.store(), world.resources(), upto9, T9::claims());
            lemma_admits_all_split(open, upto8, T8::claims());
            lemma_provides_split(world.store(), world.resources(), upto8, T8::claims());
            lemma_admits_all_split(open, upto7, T7::claims());
            lemma_provides_split(world.store(), world.resources(), upto7, T7::claims());
            lemma_admits_all_split(open, upto6, T6::claims());
            lemma_provides_split(world.store(), world.resources(), upto6, T6::claims());
            lemma_admits_all_split(open, upto5, T5::claims());
            lemma_provides_split(world.store(), world.resources(), upto5, T5::claims());
            lemma_admits_all_split(open, upto4, T4::claims());
            lemma_provides_split(world.store(), world.resources(), upto4, T4::claims());
            lemma_admits_all_split(open, upto3, T3::claims());
            lemma_provides_split(world.store(), world.resources(), upto3, T3::claims());
            lemma_admits_all_split(open, upto2, T2::claims());
            lemma_provides_split(world.store(), world.resources(), upto2, T2::claims());
            lemma_admits_all_split(open, upto1, T1::claims());
            lemma_provides_split(world.store(), world.resources(), upto1, T1::claims());
        }
        let g0 = T0::get_param(&mut state.0, system_meta, world, change_tick);
        assert(world.open() == open + upto1);
        let g1 = T1::get_param(&mut state.1, system_meta, world, change_tick);
        assert(world.open() == open + upto2);
        let g2 = T2::get_param(&mut state.2, system_meta, world, change_tick);
        assert(world.open() == open + upto3);
        let g3 = T3::get_param(&mut state.3, system_meta, world, change_tick);
        assert(world.open() == open + upto4);
        let g4 = T4::get_param(&mut state.4, system_meta, world, change_tick);
        assert(world.open() == open + upto5);
        let g5 = T5::get_param(&mut state.5, system_meta, world, change_tick);
        assert(world.open() == open + upto6);
        let g6 = T6::get_param(&mut state.6, system_meta, world, change_tick);
        assert(world.open() == open + upto7);
        let g7 = T7::get_param(&mut state.7, system_meta, world, change_tick);
        assert(world.open() == open + upto8);
        let g8 = T8::get_param(&mut state.8, system_meta, world, change_tick);
        assert(world.open() == open + upto9);
        let g9 = T9::get_param(&mut state.9, system_meta, world, change_tick);
        assert(world.open() == open + upto10);
        let g10 = T10::get_param(&mut state.10, system_meta, world, change_tick);
        assert(world.open() == open + upto11);
        let g11 = T11::get_param(&mut state.11, system_meta, world, change_tick);
        assert(world.open() == open + upto12);
        (g0, g1, g2, g3, g4, g5, g6, g7, g8, g9, g10, g11)
    }

    fn release<'a>(guard: Self::Guard<'a>, world: &mut WorldCell<'a>) {
        let (g0, g1, g2, g3, g4, g5, g6, g7, g8, g9, g10, g11) = guard;
        T11::release(g11, world);
        T10::release(g10, world);
        T9::release(g9, world);
        T8::release(g8, world);
        T7::release(g7, world);
        T6::release(g6, world);
        T5::release(g5, world);
        T4::release(g4, world);
        T3::release(g3, world);
        T2::release(g2, world);
        T1::release(g1, world);
        T0::release(g0, world);
    }

    fn apply(state: &mut Self::State, system_meta: &SystemMeta, world: &mut World) {
        let ghost before = *world;
        T0::apply(&mut state.0, system_meta, world);
        let ghost reached = *world;
        T1::apply(&mut state.1, system_meta, world);
        proof {
            world.lemma_extends_twice(reached, before);
        }
        let ghost reached = *world;
        T2::apply(&mut state.2, system_meta, world);
        proof {
            world.lemma_extends_twice(reached, before);
        }
        let ghost reached = *world;
        T3::apply(&mut state.3, system_meta, world);
        proof {
            world.lemma_extends_twice(reached, before);
        }
        let ghost reached = *world;
        T4::apply(&mut state.4, system_meta, world);
        proof {
            world.lemma_extends_twice(reached, before);
        }
        let ghost reached = *world;
        T5::apply(&mut state.5, system_meta, world);
        proof {
            world.lemma_extends_twice(reached, before);
        }
        let ghost reached = *world;
        T6::apply(&mut state.6, system_meta, world);
        proof {
            world.lemma_extends_twice(reached, before);
        }
        let ghost reached = *world;
        T7::apply(&mut state.7, system_meta, world);
        proof {
            world.lemma_extends_twice(reached, before);
        }
        let ghost reached = *world;
        T8::apply(&mut state.8, system_meta, world);
        proof {
            world.lemma_extends_twice(reached, before);
        }
        let ghost reached = *world;
        T9::apply(&mut state.9, system_meta, world);
        proof {
            world.lemma_extends_twice(reached, before);
        }
        let ghost reached = *world;
        T10::apply(&mut state.10, system_meta, world);
        proof {
            world.lemma_extends_twice(reached, before);
        }
        let ghost reached = *world;
        T11::apply(&mut state.11, system_meta, world);
        proof {
            world.lemma_extends_twice(reached, before);
        }
    }
}

impl<
    T0: SystemParam,
    T1: SystemParam,
    T2: SystemParam,
    T3: SystemParam,
    T4: SystemParam,
    T5: SystemParam,
    T6: SystemParam,
    T7: SystemParam,
    T8: SystemParam,
    T9: SystemParam,
    T10: SystemParam,
    T11: SystemParam,
    T12: SystemParam,
> SystemParam for (T0, T1, T2, T3, T4, T5, T6, T7, T8, T9, T10, T11, T12) {
    type State = (
        T0::State,
        T1::State,
        T2::State,
        T3::State,
        T4::State,
        T5::State,
        T6::State,
        T7::State,
        T8::State,
        T9::State,
        T10::State,
        T11::State,
        T12::State,
    );

    type Guard<'a> = (
        T0::Guard<'a>,
        T1::Guard<'a>,
        T2::Guard<'a>,
        T3::Guard<'a>,
        T4::Guard<'a>,
        T5::Guard<'a>,
        T6::Guard<'a>,
        T7::Guard<'a>,
        T8::Guard<'a>,
        T9::Guard<'a>,
        T10::Guard<'a>,
        T11::Guard<'a>,
        T12::Guard<'a>,
    );

    open spec fn claims() -> Seq<Claim> {
        T0::claims()
            + T1::claims()
            + T2::claims()
            + T3::claims()
            + T4::claims()
            + T5::claims()
            + T6::claims()
            + T7::claims()
            + T8::claims()
            + T9::claims()
            + T10::claims()
            + T11::claims()
            + T12::claims()
    }

    open spec fn locked(state: &Self::State) -> bool {
        ||| T0::locked(&state.0)
        ||| T1::locked(&state.1)
        ||| T2::locked(&state.2)
        ||| T3::locked(&state.3)
        ||| T4::locked(&state.4)
        ||| T5::locked(&state.5)
        ||| T6::locked(&state.6)
        ||| T7::locked(&state.7)
        ||| T8::locked(&state.8)
        ||| T9::locked(&state.9)
        ||| T10::locked(&state.10)
        ||| T11::locked(&state.11)
        ||| T12::locked(&state.12)
    }

    open spec fn guarded() -> bool {
        ||| T0::guarded()
        ||| T1::guarded()
        ||| T2::guarded()
        ||| T3::guarded()
        ||| T4::guarded()
        ||| T5::guarded()
        ||| T6::guarded()
        ||| T7::guarded()
        ||| T8::guarded()
        ||| T9::guarded()
        ||| T10::guarded()
        ||| T11::guarded()
        ||| T12::guarded()
    }

    open spec fn still() -> bool {
        &&& T0::still()
        &&& T1::still()
        &&& T2::still()
        &&& T3::still()
        &&& T4::still()
        &&& T5::still()
        &&& T6::still()
        &&& T7::still()
        &&& T8::still()
        &&& T9::still()
        &&& T10::still()
        &&& T11::still()
        &&& T12::still()
    }

    open spec fn opened(
        guard: &Self::Guard<'_>,
        store: Store,
        resources: hecs::Entity,
        last: Components,
    ) -> bool {
        &&& T0::opened(&guard.0, store, resources, last)
        &&& T1::opened(&guard.1, store, resources, last)
        &&& T2::opened(&guard.2, store, resources, last)
        &&& T3::opened(&guard.3, store, resources, last)
        &&& T4::opened(&guard.4, store, resources, last)
        &&& T5::opened(&guard.5, store, resources, last)
        &&& T6::opened(&guard.6, store, resources, last)
        &&& T7::opened(&guard.7, store, resources, last)
        &&& T8::opened(&guard.8, store, resources, last)
        &&& T9::opened(&guard.9, store, resources, last)
        &&& T10::opened(&guard.10, store, resources, last)
        &&& T11::opened(&guard.11, store, resources, last)
        &&& T12::opened(&guard.12, store, resources, last)
    }

    open spec fn belongs(guard: &Self::Guard<'_>, store: Store) -> bool {
        &&& T0::belongs(&guard.0, store)
        &&& T1::belongs(&guard.1, store)
        &&& T2::belongs(&guard.2, store)
        &&& T3::belongs(&guard.3, store)
        &&& T4::belongs(&guard.4, store)
        &&& T5::belongs(&guard.5, store)
        &&& T6::belongs(&guard.6, store)
        &&& T7::belongs(&guard.7, store)
        &&& T8::belongs(&guard.8, store)
        &&& T9::belongs(&guard.9, store)
        &&& T10::belongs(&guard.10, store)
        &&& T11::belongs(&guard.11, store)
        &&& T12::belongs(&guard.12, store)
    }

    fn init_state(world: &mut World, system_meta: &mut SystemMeta) -> (state: Self::State) {
        let ghost before = *world;
        let s0 = T0::init_state(world, system_meta);
        let ghost reached = *world;
        let s1 = T1::init_state(world, system_meta);
        proof {
            world.lemma_extends_twice(reached, before);
        }
        let ghost reached = *world;
        let s2 = T2::init_state(world, system_meta);
        proof {
            world.lemma_extends_twice(reached, before);
        }
        let ghost reached = *world;
        let s3 = T3::init_state(world, system_meta);
        proof {
            world.lemma_extends_twice(reached, before);
        }
        let ghost reached = *world;
        let s4 = T4::init_state(world, system_meta);
        proof {
            world.lemma_extends_twice(reached, before);
        }
        let ghost reached = *world;
        let s5 = T5::init_state(world, system_meta);
        proof {
            world.lemma_extends_twice(reached, before);
        }
        let ghost reached = *world;
        let s6 = T6::init_state(world, system_meta);
        proof {
            world.lemma_extends_twice(reached, before);
        }
        let ghost reached = *world;
        let s7 = T7::init_state(world, system_meta);
        proof {
            world.lemma_extends_twice(reached, before);
        }
        let ghost reached = *world;
        let s8 = T8::init_state(world, system_meta);
        proof {
            world.lemma_extends_twice(reached, before);
        }
        let ghost reached = *world;
        let s9 = T9::init_state(world, system_meta);
        proof {
            world.lemma_extends_twice(reached, before);
        }
        let ghost reached = *world;
        let s10 = T10::init_state(world, system_meta);
        proof {
            world.lemma_extends_twice(reached, before);
        }
        let ghost reached = *world;
        let s11 = T11::init_state(world, system_meta);
        proof {
            world.lemma_extends_twice(reached, before);
        }
        let ghost reached = *world;
        let s12 = T12::init_state(world, system_meta);
        proof {
            world.lemma_extends_twice(reached, before);
        }
        (s0, s1, s2, s3, s4, s5, s6, s7, s8, s9, s10, s11, s12)
    }

    fn get_param<'a>(
        state: &'a mut Self::State,
        system_meta: &SystemMeta,
        world: &mut WorldCell<'a>,
        change_tick: ChangeTick,
    ) -> (guard: Self::Guard<'a>) {
        let ghost open = world.open();
        let ghost upto1 = T0::claims();
        let ghost upto2 = upto1 + T1::claims();
        let ghost upto3 = upto2 + T2::claims();
        let ghost upto4 = upto3 + T3::claims();
        let ghost upto5 = upto4 + T4::claims();
        let ghost upto6 = upto5 + T5::claims();
        let ghost upto7 = upto6 + T6::claims();
        let ghost upto8 = upto7 + T7::claims();
        let ghost upto9 = upto8 + T8::claims();
        let ghost upto10 = upto9 + T9::claims();
        let ghost upto11 = upto10 + T10::claims();
        let ghost upto12 = upto11 + T11::claims();
        let ghost upto13 = upto12 + T12::claims();
        proof {
            lemma_admits_all_split(open, upto12, T12::claims());
            lemma_provides_split(world.store(), world.resources(), upto12, T12::claims());
            lemma_admits_all_split(open, upto11, T11::claims());
            lemma_provides_split(world.store(), world.resources(), upto11, T11::claims());
            lemma_admits_all_split(open, upto10, T10::claims());
            lemma_provides_split(world.store(), world.resources(), upto10, T10::claims());
            lemma_admits_all_split(open, upto9, T9::claims());
            lemma_provides_split(world.store(), world.resources(), upto9, T9::claims());
            lemma_admits_all_split(open, upto8, T8::claims());
            lemma_provides_split(world.store(), world.resources(), upto8, T8::claims());
            lemma_admits_all_split(open, upto7, T7::claims());
            lemma_provides_split(world.store(), world.resources(), upto7, T7::claims());
            lemma_admits_all_split(open, upto6, T6::claims());
            lemma_provides_split(world.store(), world.resources(), upto6, T6::claims());
            lemma_admits_all_split(open, upto5, T5::claims());
            lemma_provides_split(world.store(), world.resources(), upto5, T5::claims());
            lemma_admits_all_split(open, upto4, T4::claims());
            lemma_provides_split(world.store(), world.resources(), upto4, T4::claims());
            lemma_admits_all_split(open, upto3, T3::claims());
            lemma_provides_split(world.store(), world.resources(), upto3, T3::claims());
            lemma_admits_all_split(open, upto2, T2::claims());
            lemma_provides_split(world.store(), world.resources(), upto2, T2::claims());
            lemma_admits_all_split(open, upto1, T1::claims());
            lemma_provides_split(world.store(), world.resources(), upto1, T1::claims());
        }
        let g0 = T0::get_param(&mut state.0, system_meta, world, change_tick);
        assert(world.open() == open + upto1);
        let g1 = T1::get_param(&mut state.1, system_meta, world, change_tick);
        assert(world.open() == open + upto2);
        let g2 = T2::get_param(&mut state.2, system_meta, world, change_tick);
        assert(world.open() == open + upto3);
        let g3 = T3::get_param(&mut state.3, system_meta, world, change_tick);
        assert(world.open() == open + upto4);
        let g4 = T4::get_param(&mut state.4, system_meta, world, change_tick);
        assert(world.open() == open + upto5);
        let g5 = T5::get_param(&mut state.5, system_meta, world, change_tick);
        assert(world.open() == open + upto6);
        let g6 = T6::get_param(&mut state.6, system_meta, world, change_tick);
        assert(world.open() == open + upto7);
        let g7 = T7::get_param(&mut state.7, system_meta, world, change_tick);
        assert(world.open() == open + upto8);
        let g8 = T8::get_param(&mut state.8, system_meta, world, change_tick);
        assert(world.open() == open + upto9);
        let g9 = T9::get_param(&mut state.9, system_meta, world, change_tick);
        assert(world.open() == open + upto10);
        let g10 = T10::get_param(&mut state.10, system_meta, world, change_tick);
        assert(world.open() == open + upto11);
        let g11 = T11::get_param(&mut state.11, system_meta, world, change_tick);
        assert(world.open() == open + upto12);
        let g12 = T12::get_param(&mut state.12, system_meta, world, change_tick);
        assert(world.open() == open + upto13);
        (g0, g1, g2, g3, g4, g5, g6, g7, g8, g9, g10, g11, g12)
    }

    fn release<'a>(guard: Self::Guard<'a>, world: &mut WorldCell<'a>) {
        let (g0, g1, g2, g3, g4, g5, g6, g7, g8, g9, g10, g11, g12) = guard;
        T12::release(g12, world);
        T11::release(g11, world);
        T10::release(g10, world);
        T9::release(g9, world);
        T8::release(g8, world);
        T7::release(g7, world);
        T6::release(g6, world);
        T5::release(g5, world);
        T4::release(g4, world);
        T3::release(g3, world);
        T2::release(g2, world);
        T1::release(g1, world);
        T0::release(g0, world);
    }

    fn apply(state: &mut Self::State, system_meta: &SystemMeta, world: &mut World) {
        let ghost before = *world;
        T0::apply(&mut state.0, system_meta, world);
        let ghost reached = *world;
        T1::apply(&mut state.1, system_meta, world);
        proof {
            world.lemma_extends_twice(reached, before);
        }
        let ghost reached = *world;
        T2::apply(&mut state.2, system_meta, world);
        proof {
            world.lemma_extends_twice(reached, before);
        }
        let ghost reached = *world;
        T3::apply(&mut state.3, system_meta, world);
        proof {
            world.lemma_extends_twice(reached, before);
        }
        let ghost reached = *world;
        T4::apply(&mut state.4, system_meta, world);
        proof {
            world.lemma_extends_twice(reached, before);
        }
        let ghost reached = *world;
        T5::apply(&mut state.5, system_meta, world);
        proof {
            world.lemma_extends_twice(reached, before);
        }
        let ghost reached = *world;
        T6::apply(&mut state.6, system_meta, world);
        proof {
            world.lemma_extends_twice(reached, before);
        }
        let ghost reached = *world;
        T7::apply(&mut state.7, system_meta, world);
        proof {
            world.lemma_extends_twice(reached, before);
        }
        let ghost reached = *world;
        T8::apply(&mut state.8, system_meta, world);
        proof {
            world.lemma_extends_twice(reached, before);
        }
        let ghost reached = *world;
        T9::apply(&mut state.9, system_meta, world);
        proof {
            world.lemma_extends_twice(reached, before);
        }
        let ghost reached = *world;
        T10::apply(&mut state.10, system_meta, world);
        proof {
            world.lemma_extends_twice(reached, before);
        }
        let ghost reached = *world;
        T11::apply(&mut state.11, system_meta, world);
        proof {
            world.lemma_extends_twice(reached, before);
        }
        let ghost reached = *world;
        T12::apply(&mut state.12, system_meta, world);
        proof {
            world.lemma_extends_twice(reached, before);
        }
    }
}

impl<
    T0: SystemParam,
    T1: SystemParam,
    T2: SystemParam,
    T3: SystemParam,
    T4: SystemParam,
    T5: SystemParam,
    T6: SystemParam,
    T7: SystemParam,
    T8: SystemParam,
    T9: SystemParam,
    T10: SystemParam,
    T11: SystemParam,
    T12: SystemParam,
    T13: SystemParam,
> SystemParam for (T0, T1, T2, T3, T4, T5, T6, T7, T8, T9, T10, T11, T12, T13) {
    type State = (
        T0::State,
        T1::State,
        T2::State,
        T3::State,
        T4::State,
        T5::State,
        T6::State,
        T7::State,
        T8::State,
        T9::State,
        T10::State,
        T11::State,
        T12::State,
        T13::State,
    );

    type Guard<'a> = (
        T0::Guard<'a>,
        T1::Guard<'a>,
        T2::Guard<'a>,
        T3::Guard<'a>,
        T4::Guard<'a>,
        T5::Guard<'a>,
        T6::Guard<'a>,
        T7::Guard<'a>,
        T8::Guard<'a>,
        T9::Guard<'a>,
        T10::Guard<'a>,
        T11::Guard<'a>,
        T12::Guard<'a>,
        T13::Guard<'a>,
    );

    open spec fn claims() -> Seq<Claim> {
        T0::claims()
            + T1::claims()
            + T2::claims()
            + T3::claims()
            + T4::claims()
            + T5::claims()
            + T6::claims()
            + T7::claims()
            + T8::claims()
            + T9::claims()
            + T10::claims()
            + T11::claims()
            + T12::claims()
            + T13::claims()
    }

    open spec fn locked(state: &Self::State) -> bool {
        ||| T0::locked(&state.0)
        ||| T1::locked(&state.1)
        ||| T2::locked(&state.2)
        ||| T3::locked(&state.3)
        ||| T4::locked(&state.4)
        ||| T5::locked(&state.5)
        ||| T6::locked(&state.6)
        ||| T7::locked(&state.7)
        ||| T8::locked(&state.8)
        ||| T9::locked(&state.9)
        ||| T10::locked(&state.10)
        ||| T11::locked(&state.11)
        ||| T12::locked(&state.12)
        ||| T13::locked(&state.13)
    }

    open spec fn guarded() -> bool {
        ||| T0::guarded()
        ||| T1::guarded()
        ||| T2::guarded()
        ||| T3::guarded()
        ||| T4::guarded()
        ||| T5::guarded()
        ||| T6::guarded()
        ||| T7::guarded()
        ||| T8::guarded()
        ||| T9::guarded()
        ||| T10::guarded()
        ||| T11::guarded()
        ||| T12::guarded()
        ||| T13::guarded()
    }

    open spec fn still() -> bool {
        &&& T0::still()
        &&& T1::still()
        &&& T2::still()
        &&& T3::still()
        &&& T4::still()
        &&& T5::still()
        &&& T6::still()
        &&& T7::still()
        &&& T8::still()
        &&& T9::still()
        &&& T10::still()
        &&& T11::still()
        &&& T12::still()
        &&& T13::still()
    }

    open spec fn opened(
        guard: &Self::Guard<'_>,
        store: Store,
        resources: hecs::Entity,
        last: Components,
    ) -> bool {
        &&& T0::opened(&guard.0, store, resources, last)
        &&& T1::opened(&guard.1, store, resources, last)
        &&& T2::opened(&guard.2, store, resources, last)
        &&& T3::opened(&guard.3, store, resources, last)
        &&& T4::opened(&guard.4, store, resources, last)
        &&& T5::opened(&guard.5, store, resources, last)
        &&& T6::opened(&guard.6, store, resources, last)
        &&& T7::opened(&guard.7, store, resources, last)
        &&& T8::opened(&guard.8, store, resources, last)
        &&& T9::opened(&guard.9, store, resources, last)
        &&& T10::opened(&guard.10, store, resources, last)
        &&& T11::opened(&guard.11, store, resources, last)
        &&& T12::opened(&guard.12, store, resources, last)
        &&& T13::opened(&guard.13, store, resources, last)
    }

    open spec fn belongs(guard: &Self::Guard<'_>, store: Store) -> bool {
        &&& T0::belongs(&guard.0, store)
        &&& T1::belongs(&guard.1, store)
        &&& T2::belongs(&guard.2, store)
        &&& T3::belongs(&guard.3, store)
        &&& T4::belongs(&guard.4, store)
        &&& T5::belongs(&guard.5, store)
        &&& T6::belongs(&guard.6, store)
        &&& T7::belongs(&guard.7, store)
        &&& T8::belongs(&guard.8, store)
        &&& T9::belongs(&guard.9, store)
        &&& T10::belongs(&guard.10, store)
        &&& T11::belongs(&guard.11, store)
        &&& T12::belongs(&guard.12, store)
        &&& T13::belongs(&guard.13, store)
    }

    fn init_state(world: &mut World, system_meta: &mut SystemMeta) -> (state: Self::State) {
        let ghost before = *world;
        let s0 = T0::init_state(world, system_meta);
        let ghost reached = *world;
        let s1 = T1::init_state(world, system_meta);
        proof {
            world.lemma_extends_twice(reached, before);
        }
        let ghost reached = *world;
        let s2 = T2::init_state(world, system_meta);
        proof {
            world.lemma_extends_twice(reached, before);
        }
        let ghost reached = *world;
        let s3 = T3::init_state(world, system_meta);
        proof {
            world.lemma_extends_twice(reached, before);
        }
        let ghost reached = *world;
        let s4 = T4::init_state(world, system_meta);
        proof {
            world.lemma_extends_twice(reached, before);
        }
        let ghost reached = *world;
        let s5 = T5::init_state(world, system_meta);
        proof {
            world.lemma_extends_twice(reached, before);
        }
        let ghost reached = *world;
        let s6 = T6::init_state(world, system_meta);
        proof {
            world.lemma_extends_twice(reached, before);
        }
        let ghost reached = *world;
        let s7 = T7::init_state(world, system_meta);
        proof {
            world.lemma_extends_twice(reached, before);
        }
        let ghost reached = *world;
        let s8 = T8::init_state(world, system_meta);
        proof {
            world.lemma_extends_twice(reached, before);
        }
        let ghost reached = *world;
        let s9 = T9::init_state(world, system_meta);
        proof {
            world.lemma_extends_twice(reached, before);
        }
        let ghost reached = *world;
        let s10 = T10::init_state(world, system_meta);
        proof {
            world.lemma_extends_twice(reached, before);
        }
        let ghost reached = *world;
        let s11 = T11::init_state(world, system_meta);
        proof {
            world.lemma_extends_twice(reached, before);
        }
        let ghost reached = *world;
        let s12 = T12::init_state(world, system_meta);
        proof {
            world.lemma_extends_twice(reached, before);
        }
        let ghost reached = *world;
        let s13 = T13::init_state(world, system_meta);
        proof {
            world.lemma_extends_twice(reached, before);
        }
        (s0, s1, s2, s3, s4, s5, s6, s7, s8, s9, s10, s11, s12, s13)
    }

    fn get_param<'a>(
        state: &'a mut Self::State,
        system_meta: &SystemMeta,
        world: &mut WorldCell<'a>,
        change_tick: ChangeTick,
    ) -> (guard: Self::Guard<'a>) {
        let ghost open = world.open();
        let ghost upto1 = T0::claims();
        let ghost upto2 = upto1 + T1::claims();
        let ghost upto3 = upto2 + T2::claims();
        let ghost upto4 = upto3 + T3::claims();
        let ghost upto5 = upto4 + T4::claims();
        let ghost upto6 = upto5 + T5::claims();
        let ghost upto7 = upto6 + T6::claims();
        let ghost upto8 = upto7 + T7::claims();
        let ghost upto9 = upto8 + T8::claims();
        let ghost upto10 = upto9 + T9::claims();
        let ghost upto11 = upto10 + T10::claims();
        let ghost upto12 = upto11 + T11::claims();
        let ghost upto13 = upto12 + T12::claims();
        let ghost upto14 = upto13 + T13::claims();
        proof {
            lemma_admits_all_split(open, upto13, T13::claims());
            lemma_provides_split(world.store(), world.resources(), upto13, T13::claims());
            lemma_admits_all_split(open, upto12, T12::claims());
            lemma_provides_split(world.store(), world.resources(), upto12, T12::claims());
            lemma_admits_all_split(open, upto11, T11::claims());
            lemma_provides_split(world.store(), world.resources(), upto11, T11::claims());
            lemma_admits_all_split(open, upto10, T10::claims());
            lemma_provides_split(world.store(), world.resources(), upto10, T10::claims());
            lemma_admits_all_split(open, upto9, T9::claims());
            lemma_provides_split(world.store(), world.resources(), upto9, T9::claims());
            lemma_admits_all_split(open, upto8, T8::claims());
            lemma_provides_split(world.store(), world.resources(), upto8, T8::claims());
            lemma_admits_all_split(open, upto7, T7::claims());
            lemma_provides_split(world.store(), world.resources(), upto7, T7::claims());
            lemma_admits_all_split(open, upto6, T6::claims());
            lemma_provides_split(world.store(), world.resources(), upto6, T6::claims());
            lemma_admits_all_split(open, upto5, T5::claims());
            lemma_provides_split(world.store(), world.resources(), upto5, T5::claims());
            lemma_admits_all_split(open, upto4, T4::claims());
            lemma_provides_split(world.store(), world.resources(), upto4, T4::claims());
            lemma_admits_all_split(open, upto3, T3::claims());
            lemma_provides_split(world.store(), world.resources(), upto3, T3::claims());
            lemma_admits_all_split(open, upto2, T2::claims());
            lemma_provides_split(world.store(), world.resources(), upto2, T2::claims());
            lemma_admits_all_split(open, upto1, T1::claims());
            lemma_provides_split(world.store(), world.resources(), upto1, T1::claims());
        }
        let g0 = T0::get_param(&mut state.0, system_meta, world, change_tick);
        assert(world.open() == open + upto1);
        let g1 = T1::get_param(&mut state.1, system_meta, world, change_tick);
        assert(world.open() == open + upto2);
        let g2 = T2::get_param(&mut state.2, system_meta, world, change_tick);
        assert(world.open() == open + upto3);
        let g3 = T3::get_param(&mut state.3, system_meta, world, change_tick);
        assert(world.open() == open + upto4);
        let g4 = T4::get_param(&mut state.4, system_meta, world, change_tick);
        assert(world.open() == open + upto5);
        let g5 = T5::get_param(&mut state.5, system_meta, world, change_tick);
        assert(world.open() == open + upto6);
        let g6 = T6::get_param(&mut state.6, system_meta, world, change_tick);
        assert(world.open() == open + upto7);
        let g7 = T7::get_param(&mut state.7, system_meta, world, change_tick);
        assert(world.open() == open + upto8);
        let g8 = T8::get_param(&mut state.8, system_meta, world, change_tick);
        assert(world.open() == open + upto9);
        let g9 = T9::get_param(&mut state.9, system_meta, world, change_tick);
        assert(world.open() == open + upto10);
        let g10 = T10::get_param(&mut state.10, system_meta, world, change_tick);
        assert(world.open() == open + upto11);
        let g11 = T11::get_param(&mut state.11, system_meta, world, change_tick);
        assert(world.open() == open + upto12);
        let g12 = T12::get_param(&mut state.12, system_meta, world, change_tick);
        assert(world.open() == open + upto13);
        let g13 = T13::get_param(&mut state.13, system_meta, world, change_tick);
        assert(world.open() == open + upto14);
        (g0, g1, g2, g3, g4, g5, g6, g7, g8, g9, g10, g11, g12, g13)
    }

    fn release<'a>(guard: Self::Guard<'a>, world: &mut WorldCell<'a>) {
        let (g0, g1, g2, g3, g4, g5, g6, g7, g8, g9, g10, g11, g12, g13) = guard;
        T13::release(g13, world);
        T12::release(g12, world);
        T11::release(g11, world);
        T10::release(g10, world);
        T9::release(g9, world);
        T8::release(g8, world);
        T7::release(g7, world);
        T6::release(g6, world);
        T5::release(g5, world);
        T4::release(g4, world);
        T3::release(g3, world);
        T2::release(g2, world);
        T1::release(g1, world);
        T0::release(g0, world);
    }

    fn apply(state: &mut Self::State, system_meta: &SystemMeta, world: &mut World) {
        let ghost before = *world;
        T0::apply(&mut state.0, system_meta, world);
        let ghost reached = *world;
        T1::apply(&mut state.1, system_meta, world);
        proof {
            world.lemma_extends_twice(reached, before);
        }
        let ghost reached = *world;
        T2::apply(&mut state.2, system_meta, world);
        proof {
            world.lemma_extends_twice(reached, before);
        }
        let ghost reached = *world;
        T3::apply(&mut state.3, system_meta, world);
        proof {
            world.lemma_extends_twice(reached, before);
        }
        let ghost reached = *world;
        T4::apply(&mut state.4, system_meta, world);
        proof {
            world.lemma_extends_twice(reached, before);
        }
        let ghost reached = *world;
        T5::apply(&mut state.5, system_meta, world);
        proof {
            world.lemma_extends_twice(reached, before);
        }
        let ghost reached = *world;
        T6::apply(&mut state.6, system_meta, world);
        proof {
            world.lemma_extends_twice(reached, before);
        }
        let ghost reached = *world;
        T7::apply(&mut state.7, system_meta, world);
        proof {
            world.lemma_extends_twice(reached, before);
        }
        let ghost reached = *world;
        T8::apply(&mut state.8, system_meta, world);
        proof {
            world.lemma_extends_twice(reached, before);
        }
        let ghost reached = *world;
        T9::apply(&mut state.9, system_meta, world);
        proof {
            world.lemma_extends_twice(reached, before);
        }
        let ghost reached = *world;
        T10::apply(&mut state.10, system_meta, world);
        proof {
            world.lemma_extends_twice(reached, before);
        }
        let ghost reached = *world;
        T11::apply(&mut state.11, system_meta, world);
        proof {
            world.lemma_extends_twice(reached, before);
        }
        let ghost reached = *world;
        T12::apply(&mut state.12, system_meta, world);
        proof {
            world.lemma_extends_twice(reached, before);
        }
        let ghost reached = *world;
        T13::apply(&mut state.13, system_meta, world);
        proof {
            world.lemma_extends_twice(reached, before);
        }
    }
}

impl<
    T0: SystemParam,
    T1: SystemParam,
    T2: SystemParam,
    T3: SystemParam,
    T4: SystemParam,
    T5: SystemParam,
    T6: SystemParam,
    T7: SystemParam,
    T8: SystemParam,
    T9: SystemParam,
    T10: SystemParam,
    T11: SystemParam,
    T12: SystemParam,
    T13: SystemParam,
    T14: SystemParam,
> SystemParam for (T0, T1, T2, T3, T4, T5, T6, T7, T8, T9, T10, T11, T12, T13, T14) {
    type State = (
        T0::State,
        T1::State,
        T2::State,
        T3::State,
        T4::State,
        T5::State,
        T6::State,
        T7::State,
        T8::State,
        T9::State,
        T10::State,
        T11::State,
        T12::State,
        T13::State,
        T14::State,
    );

    type Guard<'a> = (
        T0::Guard<'a>,
        T1::Guard<'a>,
        T2::Guard<'a>,
        T3::Guard<'a>,
        T4::Guard<'a>,
        T5::Guard<'a>,
        T6::Guard<'a>,
        T7::Guard<'a>,
        T8::Guard<'a>,
        T9::Guard<'a>,
        T10::Guard<'a>,
        T11::Guard<'a>,
        T12::Guard<'a>,
        T13::Guard<'a>,
        T14::Guard<'a>,
    );

    open spec fn claims() -> Seq<Claim> {
        T0::claims()
            + T1::claims()
            + T2::claims()
            + T3::claims()
            + T4::claims()
            + T5::claims()
            + T6::claims()
            + T7::claims()
            + T8::claims()
            + T9::claims()
            + T10::claims()
            + T11::claims()
            + T12::claims()
            + T13::claims()
            + T14::claims()
    }

    open spec fn locked(state: &Self::State) -> bool {
        ||| T0::locked(&state.0)
        ||| T1::locked(&state.1)
        ||| T2::locked(&state.2)
        ||| T3::locked(&state.3)
        ||| T4::locked(&state.4)
        ||| T5::locked(&state.5)
        ||| T6::locked(&state.6)
        ||| T7::locked(&state.7)
        ||| T8::locked(&state.8)
        ||| T9::locked(&state.9)
        ||| T10::locked(&state.10)
        ||| T11::locked(&state.11)
        ||| T12::locked(&state.12)
        ||| T13::locked(&state.13)
        ||| T14::locked(&state.14)
    }

    open spec fn guarded() -> bool {
        ||| T0::guarded()
        ||| T1::guarded()
        ||| T2::guarded()
        ||| T3::guarded()
        ||| T4::guarded()
        ||| T5::guarded()
        ||| T6::guarded()
        ||| T7::guarded()
        ||| T8::guarded()
        ||| T9::guarded()
        ||| T10::guarded()
        ||| T11::guarded()
        ||| T12::guarded()
        ||| T13::guarded()
        ||| T14::guarded()
    }

    open spec fn still() -> bool {
        &&& T0::still()
        &&& T1::still()
        &&& T2::still()
        &&& T3::still()
        &&& T4::still()
        &&& T5::still()
        &&& T6::still()
        &&& T7::still()
        &&& T8::still()
        &&& T9::still()
        &&& T10::still()
        &&& T11::still()
        &&& T12::still()
        &&& T13::still()
        &&& T14::still()
    }

    open spec fn opened(
        guard: &Self::Guard<'_>,
        store: Store,
        resources: hecs::Entity,
        last: Components,
    ) -> bool {
        &&& T0::opened(&guard.0, store, resources, last)
        &&& T1::opened(&guard.1, store, resources, last)
        &&& T2::opened(&guard.2, store, resources, last)
        &&& T3::opened(&guard.3, store, resources, last)
        &&& T4::opened(&guard.4, store, resources, last)
        &&& T5::opened(&guard.5, store, resources, last)
        &&& T6::opened(&guard.6, store, resources, last)
        &&& T7::opened(&guard.7, store, resources, last)
        &&& T8::opened(&guard.8, store, resources, last)
        &&& T9::opened(&guard.9, store, resources, last)
        &&& T10::opened(&guard.10, store, resources, last)
        &&& T11::opened(&guard.11, store, resources, last)
        &&& T12::opened(&guard.12, store, resources, last)
        &&& T13::opened(&guard.13, store, resources, last)
        &&& T14::opened(&guard.14, store, resources, last)
    }

    open spec fn belongs(guard: &Self::Guard<'_>, store: Store) -> bool {
        &&& T0::belongs(&guard.0, store)
        &&& T1::belongs(&guard.1, store)
        &&& T2::belongs(&guard.2, store)
        &&& T3::belongs(&guard.3, store)
        &&& T4::belongs(&guard.4, store)
        &&& T5::belongs(&guard.5, store)
        &&& T6::belongs(&guard.6, store)
        &&& T7::belongs(&guard.7, store)
        &&& T8::belongs(&guard.8, store)
        &&& T9::belongs(&guard.9, store)
        &&& T10::belongs(&guard.10, store)
        &&& T11::belongs(&guard.11, store)
        &&& T12::belongs(&guard.12, store)
        &&& T13::belongs(&guard.13, store)
        &&& T14::belongs(&guard.14, store)
    }

    fn init_state(world: &mut World, system_meta: &mut SystemMeta) -> (state: Self::State) {
        let ghost before = *world;
        let s0 = T0::init_state(world, system_meta);
        let ghost reached = *world;
        let s1 = T1::init_state(world, system_meta);
        proof {
            world.lemma_extends_twice(reached, before);
        }
        let ghost reached = *world;
        let s2 = T2::init_state(world, system_meta);
        proof {
            world.lemma_extends_twice(reached, before);
        }
        let ghost reached = *world;
        let s3 = T3::init_state(world, system_meta);
        proof {
            world.lemma_extends_twice(reached, before);
        }
        let ghost reached = *world;
        let s4 = T4::init_state(world, system_meta);
        proof {
            world.lemma_extends_twice(reached, before);
        }
        let ghost reached = *world;
        let s5 = T5::init_state(world, system_meta);
        proof {
            world.lemma_extends_twice(reached, before);
        }
        let ghost reached = *world;
        let s6 = T6::init_state(world, system_meta);
        proof {
            world.lemma_extends_twice(reached, before);
        }
        let ghost reached = *world;
        let s7 = T7::init_state(world, system_meta);
        proof {
            world.lemma_extends_twice(reached, before);
        }
        let ghost reached = *world;
        let s8 = T8::init_state(world, system_meta);
        proof {
            world.lemma_extends_twice(reached, before);
        }
        let ghost reached = *world;
        let s9 = T9::init_state(world, system_meta);
        proof {
            world.lemma_extends_twice(reached, before);
        }
        let ghost reached = *world;
        let s10 = T10::init_state(world, system_meta);
        proof {
            world.lemma_extends_twice(reached, before);
        }
        let ghost reached = *world;
        let s11 = T11::init_state(world, system_meta);
        proof {
            world.lemma_extends_twice(reached, before);
        }
        let ghost reached = *world;
        let s12 = T12::init_state(world, system_meta);
        proof {
            world.lemma_extends_twice(reached, before);
        }
        let ghost reached = *world;
        let s13 = T13::init_state(world, system_meta);
        proof {
            world.lemma_extends_twice(reached, before);
        }
        let ghost reached = *world;
        let s14 = T14::init_state(world, system_meta);
        proof {
            world.lemma_extends_twice(reached, before);
        }
        (s0, s1, s2, s3, s4, s5, s6, s7, s8, s9, s10, s11, s12, s13, s14)
    }

    fn get_param<'a>(
        state: &'a mut Self::State,
        system_meta: &SystemMeta,
        world: &mut WorldCell<'a>,
        change_tick: ChangeTick,
    ) -> (guard: Self::Guard<'a>) {
        let ghost open = world.open();
        let ghost upto1 = T0::claims();
        let ghost upto2 = upto1 + T1::claims();
        let ghost upto3 = upto2 + T2::claims();
        let ghost upto4 = upto3 + T3::claims();
        let ghost upto5 = upto4 + T4::claims();
        let ghost upto6 = upto5 + T5::claims();
        let ghost upto7 = upto6 + T6::claims();
        let ghost upto8 = upto7 + T7::claims();
        let ghost upto9 = upto8 + T8::claims();
        let ghost upto10 = upto9 + T9::claims();
        let ghost upto11 = upto10 + T10::claims();
        let ghost upto12 = upto11 + T11::claims();
        let ghost upto13 = upto12 + T12::claims();
        let ghost upto14 = upto13 + T13::claims();
        let ghost upto15 = upto14 + T14::claims();
        proof {
            lemma_admits_all_split(open, upto14, T14::claims());
            lemma_provides_split(world.store(), world.resources(), upto14, T14::claims());
            lemma_admits_all_split(open, upto13, T13::claims());
            lemma_provides_split(world.store(), world.resources(), upto13, T13::claims());
            lemma_admits_all_split(open, upto12, T12::claims());
            lemma_provides_split(world.store(), world.resources(), upto12, T12::claims());
            lemma_admits_all_split(open, upto11, T11::claims());
            lemma_provides_split(world.store(), world.resources(), upto11, T11::claims());
            lemma_admits_all_split(open, upto10, T10::claims());
            lemma_provides_split(world.store(), world.resources(), upto10, T10::claims());
            lemma_admits_all_split(open, upto9, T9::claims());
            lemma_provides_split(world.store(), world.resources(), upto9, T9::claims());
            lemma_admits_all_split(open, upto8, T8::claims());
            lemma_provides_split(world.store(), world.resources(), upto8, T8::claims());
            lemma_admits_all_split(open, upto7, T7::claims());
            lemma_provides_split(world.store(), world.resources(), upto7, T7::claims());
            lemma_admits_all_split(open, upto6, T6::claims());
            lemma_provides_split(world.store(), world.resources(), upto6, T6::claims());
            lemma_admits_all_split(open, upto5, T5::claims());
            lemma_provides_split(world.store(), world.resources(), upto5, T5::claims());
            lemma_admits_all_split(open, upto4, T4::claims());
            lemma_provides_split(world.store(), world.resources(), upto4, T4::claims());
            lemma_admits_all_split(open, upto3, T3::claims());
            lemma_provides_split(world.store(), world.resources(), upto3, T3::claims());
            lemma_admits_all_split(open, upto2, T2::claims());
            lemma_provides_split(world.store(), world.resources(), upto2, T2::claims());
            lemma_admits_all_split(open, upto1, T1::claims());
            lemma_provides_split(world.store(), world.resources(), upto1, T1::claims());
        }
        let g0 = T0::get_param(&mut state.0, system_meta, world, change_tick);
        assert(world.open() == open + upto1);
        let g1 = T1::get_param(&mut state.1, system_meta, world, change_tick);
        assert(world.open() == open + upto2);
        let g2 = T2::get_param(&mut state.2, system_meta, world, change_tick);
        assert(world.open() == open + upto3);
        let g3 = T3::get_param(&mut state.3, system_meta, world, change_tick);
        assert(world.open() == open + upto4);
        let g4 = T4::get_param(&mut state.4, system_meta, world, change_tick);
        assert(world.open() == open + upto5);
        let g5 = T5::get_param(&mut state.5, system_meta, world, change_tick);
        assert(world.open() == open + upto6);
        let g6 = T6::get_param(&mut state.6, system_meta, world, change_tick);
        assert(world.open() == open + upto7);
        let g7 = T7::get_param(&mut state.7, system_meta, world, change_tick);
        assert(world.open() == open + upto8);
        let g8 = T8::get_param(&mut state.8, system_meta, world, change_tick);
        assert(world.open() == open + upto9);
        let g9 = T9::get_param(&mut state.9, system_meta, world, change_tick);
        assert(world.open() == open + upto10);
        let g10 = T10::get_param(&mut state.10, system_meta, world, change_tick);
        assert(world.open() == open + upto11);
        let g11 = T11::get_param(&mut state.11, system_meta, world, change_tick);
        assert(world.open() == open + upto12);
        let g12 = T12::get_param(&mut state.12, system_meta, world, change_tick);
        assert(world.open() == open + upto13);
        let g13 = T13::get_param(&mut state.13, system_meta, world, change_tick);
        assert(world.open() == open + upto14);
        let g14 = T14::get_param(&mut state.14, system_meta, world, change_tick);
        assert(world.open() == open + upto15);
        (g0, g1, g2, g3, g4, g5, g6, g7, g8, g9, g10, g11, g12, g13, g14)
    }

    fn release<'a>(guard: Self::Guard<'a>, world: &mut WorldCell<'a>) {
        let (g0, g1, g2, g3, g4, g5, g6, g7, g8, g9, g10, g11, g12, g13, g14) = guard;
        T14::release(g14, world);
        T13::release(g13, world);
        T12::release(g12, world);
        T11::release(g11, world);
        T10::release(g10, world);
        T9::release(g9, world);
        T8::release(g8, world);
        T7::release(g7, world);
        T6::release(g6, world);
        T5::release(g5, world);
        T4::release(g4, world);
        T3::release(g3, world);
        T2::release(g2, world);
        T1::release(g1, world);
        T0::release(g0, world);
    }

    fn apply(state: &mut Self::State, system_meta: &SystemMeta, world: &mut World) {
        let ghost before = *world;
        T0::apply(&mut state.0, system_meta, world);
        let ghost reached = *world;
        T1::apply(&mut state.1, system_meta, world);
        proof {
            world.lemma_extends_twice(reached, before);
        }
        let ghost reached = *world;
        T2::apply(&mut state.2, system_meta, world);
        proof {
            world.lemma_extends_twice(reached, before);
        }
        let ghost reached = *world;
        T3::apply(&mut state.3, system_meta, world);
        proof {
            world.lemma_extends_twice(reached, before);
        }
        let ghost reached = *world;
        T4::apply(&mut state.4, system_meta, world);
        proof {
            world.lemma_extends_twice(reached, before);
        }
        let ghost reached = *world;
        T5::apply(&mut state.5, system_meta, world);
        proof {
            world.lemma_extends_twice(reached, before);
        }
        let ghost reached = *world;
        T6::apply(&mut state.6, system_meta, world);
        proof {
            world.lemma_extends_twice(reached, before);
        }
        let ghost reached = *world;
        T7::apply(&mut state.7, system_meta, world);
        proof {
            world.lemma_extends_twice(reached, before);
        }
        let ghost reached = *world;
        T8::apply(&mut state.8, system_meta, world);
        proof {
            world.lemma_extends_twice(reached, before);
        }
        let ghost reached = *world;
        T9::apply(&mut state.9, system_meta, world);
        proof {
            world.lemma_extends_twice(reached, before);
        }
        let ghost reached = *world;
        T10::apply(&mut state.10, system_meta, world);
        proof {
            world.lemma_extends_twice(reached, before);
        }
        let ghost reached = *world;
        T11::apply(&mut state.11, system_meta, world);
        proof {
            world.lemma_extends_twice(reached, before);
        }
        let ghost reached = *world;
        T12::apply(&mut state.12, system_meta, world);
        proof {
            world.lemma_extends_twice(reached, before);
        }
        let ghost reached = *world;
        T13::apply(&mut state.13, system_meta, world);
        proof {
            world.lemma_extends_twice(reached, before);
        }
        let ghost reached = *world;
        T14::apply(&mut state.14, system_meta, world);
        proof {
            world.lemma_extends_twice(reached, before);
        }
    }
}

impl<
    T0: SystemParam,
    T1: SystemParam,
    T2: SystemParam,
    T3: SystemParam,
    T4: SystemParam,
    T5: SystemParam,
    T6: SystemParam,
    T7: SystemParam,
    T8: SystemParam,
    T9: SystemParam,
    T10: SystemParam,
    T11: SystemParam,
    T12: SystemParam,
    T13: SystemParam,
    T14: SystemParam,
    T15: SystemParam,
> SystemParam for (T0, T1, T2, T3, T4, T5, T6, T7, T8, T9, T10, T11, T12, T13, T14, T15) {
    type State = (
        T0::State,
        T1::State,
        T2::State,
        T3::State,
        T4::State,
        T5::State,
        T6::State,
        T7::State,
        T8::State,
        T9::State,
        T10::State,
        T11::State,
        T12::State,
        T13::State,
        T14::State,
        T15::State,
    );

    type Guard<'a> = (
        T0::Guard<'a>,
        T1::Guard<'a>,
        T2::Guard<'a>,
        T3::Guard<'a>,
        T4::Guard<'a>,
        T5::Guard<'a>,
        T6::Guard<'a>,
        T7::Guard<'a>,
        T8::Guard<'a>,
        T9::Guard<'a>,
        T10::Guard<'a>,
        T11::Guard<'a>,
        T12::Guard<'a>,
        T13::Guard<'a>,
        T14::Guard<'a>,
        T15::Guard<'a>,
    );

    open spec fn claims() -> Seq<Claim> {
        T0::claims()
            + T1::claims()
            + T2::claims()
            + T3::claims()
            + T4::claims()
            + T5::claims()
            + T6::claims()
            + T7::claims()
            + T8::claims()
            + T9::claims()
            + T10::claims()
            + T11::claims()
            + T12::claims()
            + T13::claims()
            + T14::claims()
            + T15::claims()
    }

    open spec fn locked(state: &Self::State) -> bool {
        ||| T0::locked(&state.0)
        ||| T1::locked(&state.1)
        ||| T2::locked(&state.2)
        ||| T3::locked(&state.3)
        ||| T4::locked(&state.4)
        ||| T5::locked(&state.5)
        ||| T6::locked(&state.6)
        ||| T7::locked(&state.7)
        ||| T8::locked(&state.8)
        ||| T9::locked(&state.9)
        ||| T10::locked(&state.10)
        ||| T11::locked(&state.11)
        ||| T12::locked(&state.12)
        ||| T13::locked(&state.13)
        ||| T14::locked(&state.14)
        ||| T15::locked(&state.15)
    }

    open spec fn guarded() -> bool {
        ||| T0::guarded()
        ||| T1::guarded()
        ||| T2::guarded()
        ||| T3::guarded()
        ||| T4::guarded()
        ||| T5::guarded()
        ||| T6::guarded()
        ||| T7::guarded()
        ||| T8::guarded()
        ||| T9::guarded()
        ||| T10::guarded()
        ||| T11::guarded()
        ||| T12::guarded()
        ||| T13::guarded()
        ||| T14::guarded()
        ||| T15::guarded()
    }

    open spec fn still() -> bool {
        &&& T0::still()
        &&& T1::still()
        &&& T2::still()
        &&& T3::still()
        &&& T4::still()
        &&& T5::still()
        &&& T6::still()
        &&& T7::still()
        &&& T8::still()
        &&& T9::still()
        &&& T10::still()
        &&& T11::still()
        &&& T12::still()
        &&& T13::still()
        &&& T14::still()
        &&& T15::still()
    }

    open spec fn opened(
        guard: &Self::Guard<'_>,
        store: Store,
        resources: hecs::Entity,
        last: Components,
    ) -> bool {
        &&& T0::opened(&guard.0, store, resources, last)
        &&& T1::opened(&guard.1, store, resources, last)
        &&& T2::opened(&guard.2, store, resources, last)
        &&& T3::opened(&guard.3, store, resources, last)
        &&& T4::opened(&guard.4, store, resources, last)
        &&& T5::opened(&guard.5, store, resources, last)
        &&& T6::opened(&guard.6, store, resources, last)
        &&& T7::opened(&guard.7, store, resources, last)
        &&& T8::opened(&guard.8, store, resources, last)
        &&& T9::opened(&guard.9, store, resources, last)
        &&& T10::opened(&guard.10, store, resources, last)
        &&& T11::opened(&guard.11, store, resources, last)
        &&& T12::opened(&guard.12, store, resources, last)
        &&& T13::opened(&guard.13, store, resources, last)
        &&& T14::opened(&guard.14, store, resources, last)
        &&& T15::opened(&guard.15, store, resources, last)
    }

    open spec fn belongs(guard: &Self::Guard<'_>, store: Store) -> bool {
        &&& T0::belongs(&guard.0, store)
        &&& T1::belongs(&guard.1, store)
        &&& T2::belongs(&guard.2, store)
        &&& T3::belongs(&guard.3, store)
        &&& T4::belongs(&guard.4, store)
        &&& T5::belongs(&guard.5, store)
        &&& T6::belongs(&guard.6, store)
        &&& T7::belongs(&guard.7, store)
        &&& T8::belongs(&guard.8, store)
        &&& T9::belongs(&guard.9, store)
        &&& T10::belongs(&guard.10, store)
        &&& T11::belongs(&guard.11, store)
        &&& T12::belongs(&guard.12, store)
        &&& T13::belongs(&guard.13, store)
        &&& T14::belongs(&guard.14, store)
        &&& T15::belongs(&guard.15, store)
    }

    fn init_state(world: &mut World, system_meta: &mut SystemMeta) -> (state: Self::State) {
        let ghost before = *world;
        let s0 = T0::init_state(world, system_meta);
        let ghost reached = *world;
        let s1 = T1::init_state(world, system_meta);
        proof {
            world.lemma_extends_twice(reached, before);
        }
        let ghost reached = *world;
        let s2 = T2::init_state(world, system_meta);
        proof {
            world.lemma_extends_twice(reached, before);
        }
        let ghost reached = *world;
        let s3 = T3::init_state(world, system_meta);
        proof {
            world.lemma_extends_twice(reached, before);
        }
        let ghost reached = *world;
        let s4 = T4::init_state(world, system_meta);
        proof {
            world.lemma_extends_twice(reached, before);
        }
        let ghost reached = *world;
        let s5 = T5::init_state(world, system_meta);
        proof {
            world.lemma_extends_twice(reached, before);
        }
        let ghost reached = *world;
        let s6 = T6::init_state(world, system_meta);
        proof {
            world.lemma_extends_twice(reached, before);
        }
        let ghost reached = *world;
        let s7 = T7::init_state(world, system_meta);
        proof {
            world.lemma_extends_twice(reached, before);
        }
        let ghost reached = *world;
        let s8 = T8::init_state(world, system_meta);
        proof {
            world.lemma_extends_twice(reached, before);
        }
        let ghost reached = *world;
        let s9 = T9::init_state(world, system_meta);
        proof {
            world.lemma_extends_twice(reached, before);
        }
        let ghost reached = *world;
        let s10 = T10::init_state(world, system_meta);
        proof {
            world.lemma_extends_twice(reached, before);
        }
        let ghost reached = *world;
        let s11 = T11::init_state(world, system_meta);
        proof {
            world.lemma_extends_twice(reached, before);
        }
        let ghost reached = *world;
        let s12 = T12::init_state(world, system_meta);
        proof {
            world.lemma_extends_twice(reached, before);
        }
        let ghost reached = *world;
        let s13 = T13::init_state(world, system_meta);
        proof {
            world.lemma_extends_twice(reached, before);
        }
        let ghost reached = *world;
        let s14 = T14::init_state(world, system_meta);
        proof {
            world.lemma_extends_twice(reached, before);
        }
        let ghost reached = *world;
        let s15 = T15::init_state(world, system_meta);
        proof {
            world.lemma_extends_twice(reached, before);
        }
        (s0, s1, s2, s3, s4, s5, s6, s7, s8, s9, s10, s11, s12, s13, s14, s15)
    }

    fn get_param<'a>(
        state: &'a mut Self::State,
        system_meta: &SystemMeta,
        world: &mut WorldCell<'a>,
        change_tick: ChangeTick,
    ) -> (guard: Self::Guard<'a>) {
        let ghost open = world.open();
        let ghost upto1 = T0::claims();
        let ghost upto2 = upto1 + T1::claims();
        let ghost upto3 = upto2 + T2::claims();
        let ghost upto4 = upto3 + T3::claims();
        let ghost upto5 = upto4 + T4::claims();
        let ghost upto6 = upto5 + T5::claims();
        let ghost upto7 = upto6 + T6::claims();
        let ghost upto8 = upto7 + T7::claims();
        let ghost upto9 = upto8 + T8::claims();
        let ghost upto10 = upto9 + T9::claims();
        let ghost upto11 = upto10 + T10::claims();
        let ghost upto12 = upto11 + T11::claims();
        let ghost upto13 = upto12 + T12::claims();
        let ghost upto14 = upto13 + T13::claims();
        let ghost upto15 = upto14 + T14::claims();
        let ghost upto16 = upto15 + T15::claims();
        proof {
            lemma_admits_all_split(open, upto15, T15::claims());
            lemma_provides_split(world.store(), world.resources(), upto15, T15::claims());
            lemma_admits_all_split(open, upto14, T14::claims());
            lemma_provides_split(world.store(), world.resources(), upto14, T14::claims());
            lemma_admits_all_split(open, upto13, T13::claims());
            lemma_provides_split(world.store(), world.resources(), upto13, T13::claims());
            lemma_admits_all_split(open, upto12, T12::claims());
            lemma_provides_split(world.store(), world.resources(), upto12, T12::claims());
            lemma_admits_all_split(open, upto11, T11::claims());
            lemma_provides_split(world.store(), world.resources(), upto11, T11::claims());
            lemma_admits_all_split(open, upto10, T10::claims());
            lemma_provides_split(world.store(), world.resources(), upto10, T10::claims());
            lemma_admits_all_split(open, upto9, T9::claims());
            lemma_provides_split(world.store(), world.resources(), upto9, T9::claims());
            lemma_admits_all_split(open, upto8, T8::claims());
            lemma_provides_split(world.store(), world.resources(), upto8, T8::claims());
            lemma_admits_all_split(open, upto7, T7::claims());
            lemma_provides_split(world.store(), world.resources(), upto7, T7::claims());
            lemma_admits_all_split(open, upto6, T6::claims());
            lemma_provides_split(world.store(), world.resources(), upto6, T6::claims());
            lemma_admits_all_split(open, upto5, T5::claims());
            lemma_provides_split(world.store(), world.resources(), upto5, T5::claims());
            lemma_admits_all_split(open, upto4, T4::claims());
            lemma_provides_split(world.store(), world.resources(), upto4, T4::claims());
            lemma_admits_all_split(open, upto3, T3::claims());
            lemma_provides_split(world.store(), world.resources(), upto3, T3::claims());
            lemma_admits_all_split(open, upto2, T2::claims());
            lemma_provides_split(world.store(), world.resources(), upto2, T2::claims());
            lemma_admits_all_split(open, upto1, T1::claims());
            lemma_provides_split(world.store(), world.resources(), upto1, T1::claims());
        }
        let g0 = T0::get_param(&mut state.0, system_meta, world, change_tick);
        assert(world.open() == open + upto1);
        let g1 = T1::get_param(&mut state.1, system_meta, world, change_tick);
        assert(world.open() == open + upto2);
        let g2 = T2::get_param(&mut state.2, system_meta, world, change_tick);
        assert(world.open() == open + upto3);
        let g3 = T3::get_param(&mut state.3, system_meta, world, change_tick);
        assert(world.open() == open + upto4);
        let g4 = T4::get_param(&mut state.4, system_meta, world, change_tick);
        assert(world.open() == open + upto5);
        let g5 = T5::get_param(&mut state.5, system_meta, world, change_tick);
        assert(world.open() == open + upto6);
        let g6 = T6::get_param(&mut state.6, system_meta, world, change_tick);
        assert(world.open() == open + upto7);
        let g7 = T7::get_param(&mut state.7, system_meta, world, change_tick);
        assert(world.open() == open + upto8);
        let g8 = T8::get_param(&mut state.8, system_meta, world, change_tick);
        assert(world.open() == open + upto9);
        let g9 = T9::get_param(&mut state.9, system_meta, world, change_tick);
        assert(world.open() == open + upto10);
        let g10 = T10::get_param(&mut state.10, system_meta, world, change_tick);
        assert(world.open() == open + upto11);
        let g11 = T11::get_param(&mut state.11, system_meta, world, change_tick);
        assert(world.open() == open + upto12);
        let g12 = T12::get_param(&mut state.12, system_meta, world, change_tick);
        assert(world.open() == open + upto13);
        let g13 = T13::get_param(&mut state.13, system_meta, world, change_tick);
        assert(world.open() == open + upto14);
        let g14 = T14::get_param(&mut state.14, system_meta, world, change_tick);
        assert(world.open() == open + upto15);
        let g15 = T15::get_param(&mut state.15, system_meta, world, change_tick);
        assert(world.open() == open + upto16);
        (g0, g1, g2, g3, g4, g5, g6, g7, g8, g9, g10, g11, g12, g13, g14, g15)
    }

    fn release<'a>(guard: Self::Guard<'a>, world: &mut WorldCell<'a>) {
        let (g0, g1, g2, g3, g4, g5, g6, g7, g8, g9, g10, g11, g12, g13, g14, g15) = guard;
        T15::release(g15, world);
        T14::release(g14, world);
        T13::release(g13, world);
        T12::release(g12, world);
        T11::release(g11, world);
        T10::release(g10, world);
        T9::release(g9, world);
        T8::release(g8, world);
        T7::release(g7, world);
        T6::release(g6, world);
        T5::release(g5, world);
        T4::release(g4, world);
        T3::release(g3, world);
        T2::release(g2, world);
        T1::release(g1, world);
        T0::release(g0, world);
    }

    fn apply(state: &mut Self::State, system_meta: &SystemMeta, world: &mut World) {
        let ghost before = *world;
        T0::apply(&mut state.0, system_meta, world);
        let ghost reached = *world;
        T1::apply(&mut state.1, system_meta, world);
        proof {
            world.lemma_extends_twice(reached, before);
        }
        let ghost reached = *world;
        T2::apply(&mut state.2, system_meta, world);
        proof {
            world.lemma_extends_twice(reached, before);
        }
        let ghost reached = *world;
        T3::apply(&mut state.3, system_meta, world);
        proof {
            world.lemma_extends_twice(reached, before);
        }
        let ghost reached = *world;
        T4::apply(&mut state.4, system_meta, world);
        proof {
            world.lemma_extends_twice(reached, before);
        }
        let ghost reached = *world;
        T5::apply(&mut state.5, system_meta, world);
        proof {
            world.lemma_extends_twice(reached, before);
        }
        let ghost reached = *world;
        T6::apply(&mut state.6, system_meta, world);
        proof {
            world.lemma_extends_twice(reached, before);
        }
        let ghost reached = *world;
        T7::apply(&mut state.7, system_meta, world);
        proof {
            world.lemma_extends_twice(reached, before);
        }
        let ghost reached = *world;
        T8::apply(&mut state.8, system_meta, world);
        proof {
            world.lemma_extends_twice(reached, before);
        }
        let ghost reached = *world;
        T9::apply(&mut state.9, system_meta, world);
        proof {
            world.lemma_extends_twice(reached, before);
        }
        let ghost reached = *world;
        T10::apply(&mut state.10, system_meta, world);
        proof {
            world.lemma_extends_twice(reached, before);
        }
        let ghost reached = *world;
        T11::apply(&mut state.11, system_meta, world);
        proof {
            world.lemma_extends_twice(reached, before);
        }
        let ghost reached = *world;
        T12::apply(&mut state.12, system_meta, world);
        proof {
            world.lemma_extends_twice(reached, before);
        }
        let ghost reached = *world;
        T13::apply(&mut state.13, system_meta, world);
        proof {
            world.lemma_extends_twice(reached, before);
        }
        let ghost reached = *world;
        T14::apply(&mut state.14, system_meta, world);
        proof {
            world.lemma_extends_twice(reached, before);
        }
        let ghost reached = *world;
        T15::apply(&mut state.15, system_meta, world);
        proof {
            world.lemma_extends_twice(reached, before);
        }
    }
}

} // verus!
