//! The parameter that hands a function the entities that have a component,
//! one after the other.

use crate::claim::Claim;
use crate::store::{
    borrow_iter, column, iter_next, store_components, store_finds, Component, Components, Store,
};
pub use crate::store::{QueryGuard, QueryIter};
use crate::system::systemmeta::SystemMeta;
use crate::system::systemparam::impls::PreparedQuery2;
use crate::system::systemparam::{SystemArg, SystemParam};
use crate::world::{World, WorldCell};
use crate::ChangeTick;
use vstd::prelude::*;

pub mod view;

verus! {

/// What a system keeps for a parameter that walks a query: the query, and
/// whether its guard was opened.
#[verifier::reject_recursive_types(T)]
pub struct QueryIterState<T: Component> {
    query: PreparedQuery2<T>,
    locked: bool,
}

impl<T: Component> Default for QueryIterState<T> {
    fn default() -> (state: Self)
        ensures
            !state.is_locked(),
    {
        QueryIterState { query: Default::default(), locked: false }
    }
}

impl<T: Component> QueryIterState<T> {
    /// Whether a run has opened the guard and `unlock` has not come since.
    pub closed spec fn is_locked(&self) -> bool {
        self.locked
    }

    /// Opens the guard: borrows the `T` of every entity but the resource
    /// entity, shared.
    pub fn lock<'w>(&'w mut self, world: &mut WorldCell<'w>) -> (guard: Option<QueryGuard<'w, T>>)
        requires
            !old(self).is_locked(),
            old(world).admits(seq![Claim::column(column::<T>())]),
        ensures
            guard matches Some(guard) && guard.store() == old(world).store(),
            final(self).is_locked(),
            final(world).same_lending(*old(world)),
            final(world).released() == old(world).released(),
            final(world).open() == old(world).open().push(Claim::column(column::<T>())),
    {
        self.locked = true;
        Some(QueryGuard::open(&mut self.query, world))
    }

    /// Closes the books on the guard. Does nothing where none was opened.
    pub fn unlock(&mut self)
        ensures
            !final(self).is_locked(),
            !old(self).is_locked() ==> *final(self) == *old(self),
    {
        self.locked = false;
    }
}

impl<'a, T: Component> QueryGuard<'a, T> {
    /// Opens the guard of `query` on `world`.
    pub fn open(query: &'a mut PreparedQuery2<T>, world: &mut WorldCell<'a>) -> (guard: Self)
        requires
            old(world).admits(seq![Claim::column(column::<T>())]),
        ensures
            guard.store() == old(world).store(),
            final(world).same_lending(*old(world)),
            final(world).released() == old(world).released(),
            final(world).open() == old(world).open().push(Claim::column(column::<T>())),
    {
        world.query(&mut query.0)
    }

    /// Gives the guard up to the world that it was opened on.
    pub fn release(self, world: &mut WorldCell<'a>)
        requires
            self.store() == old(world).store(),
        ensures
            final(world).same_lending(*old(world)),
            final(world).open() == old(world).open(),
            final(world).released() == old(world).released() + 1,
    {
        world.give_up_query(self)
    }

    /// A walk over the entities of the guard, from the first.
    pub fn iter(&mut self) -> (iter: QueryIter<'_, T>)
        ensures
            iter.store() == old(self).store(),
            iter.taken() == Set::<hecs::Entity>::empty(),
            final(self).store() == old(self).store(),
    {
        borrow_iter(self)
    }
}

impl<'q, T: Component> QueryIter<'q, T> {
    /// The next entity with its `T`, as it is in the store: one that has a
    /// `T`, is not the resource entity and has not been taken; or `None` when
    /// all of these have been taken.
    pub fn next(&mut self) -> (item: Option<(hecs::Entity, &'q T)>)
        ensures
            final(self).store() == old(self).store(),
            match item {
                Some((entity, value)) => {
                    &&& store_finds(old(self).store(), entity, column::<T>())
                    &&& value.seen() == store_components(old(self).store())[(
                        entity,
                        column::<T>(),
                    )]
                    &&& !old(self).taken().contains(entity)
                    &&& final(self).taken() == old(self).taken().insert(entity)
                },
                None => {
                    &&& final(self).taken() == old(self).taken()
                    &&& forall|entity: hecs::Entity| #[trigger]
                        store_finds(old(self).store(), entity, column::<T>()) ==> old(
                            self,
                        ).taken().contains(entity)
                },
            },
    {
        iter_next(self)
    }
}

impl<T: Component> SystemParam for QueryIter<'_, T> {
    type State = QueryIterState<T>;

    type Guard<'a> = QueryGuard<'a, T>;

    open spec fn claims() -> Seq<Claim> {
        seq![Claim::column(column::<T>())]
    }

    open spec fn locked(state: &Self::State) -> bool {
        state.is_locked()
    }

    open spec fn guarded() -> bool {
        true
    }

    open spec fn still() -> bool {
        true
    }

    open spec fn opened(
        guard: &Self::Guard<'_>,
        store: Store,
        resources: hecs::Entity,
        last: Components,
    ) -> bool {
        guard.store() == store
    }

    open spec fn belongs(guard: &Self::Guard<'_>, store: Store) -> bool {
        guard.store() == store
    }

    fn init_state(world: &mut World, system_meta: &mut SystemMeta) -> (state: Self::State) {
        QueryIterState::default()
    }

    fn get_param<'a>(
        state: &'a mut Self::State,
        system_meta: &SystemMeta,
        world: &mut WorldCell<'a>,
        change_tick: ChangeTick,
    ) -> (guard: Self::Guard<'a>) {
        state.lock(world).unwrap()
    }

    fn release<'a>(guard: Self::Guard<'a>, world: &mut WorldCell<'a>) {
        guard.release(world);
    }

    fn apply(state: &mut Self::State, system_meta: &SystemMeta, world: &mut World) {
        state.unlock();
    }
}

impl<T: Component> SystemArg for QueryIter<'_, T> {
    type Item<'g> = QueryIter<'g, T>;

    open spec fn lent(
        item: Self::Item<'_>,
        store: Store,
        resources: hecs::Entity,
        last: Components,
    ) -> bool {
        item.store() == store && item.taken() == Set::<hecs::Entity>::empty()
    }

    fn item<'g, 'a>(guard: &'g mut Self::Guard<'a>) -> (item: Self::Item<'g>)
        ensures
            item.store() == old(guard).store(),
            item.taken() == Set::<hecs::Entity>::empty(),
    {
        guard.iter()
    }
}

} // verus!
