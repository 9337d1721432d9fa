//! The parameter that hands a function the components of one type, to be
//! looked up by entity.

use crate::claim::Claim;
pub use crate::store::View;
use crate::store::{
    borrow_view, column, store_components, store_finds, view_get, Component, Components, Store,
};
use crate::system::query::QueryGuard;
use crate::system::systemmeta::SystemMeta;
use crate::system::systemparam::impls::PreparedQuery2;
use crate::system::systemparam::{SystemArg, SystemParam};
use crate::world::{World, WorldCell};
use crate::ChangeTick;
use vstd::prelude::*;

verus! {

/// What a system keeps for a parameter that looks components up: the query,
/// and whether its guard was opened.
#[verifier::reject_recursive_types(T)]
pub struct ViewState<T: Component> {
    query: PreparedQuery2<T>,
    locked: bool,
}

impl<T: Component> Default for ViewState<T> {
    fn default() -> (state: Self)
        ensures
            !state.is_locked(),
    {
        ViewState { query: Default::default(), locked: false }
    }
}

impl<T: Component> ViewState<T> {
    /// Whether a run has opened the guard and `unlock` has not come since.
    pub closed spec fn is_locked(&self) -> bool {
        self.locked
    }

    /// Opens the guard: borrows the `T` of every entity but the resource
    /// entity, shared.
    pub fn lock<'w>(&'w mut self, world: &mut WorldCell<'w>) -> (guard: Option<QueryGuard<'w, T>>)
        requires
            !old(self).is_locked(),
            old(world).admits(seq![Claim::column(column::<T>())]),
        ensures
            guard matches Some(guard) && guard.store() == old(world).store(),
            final(self).is_locked(),
            final(world).same_lending(*old(world)),
            final(world).released() == old(world).released(),
            final(world).open() == old(world).open().push(Claim::column(column::<T>())),
    {
        self.locked = true;
        Some(QueryGuard::open(&mut self.query, world))
    }

    /// Closes the books on the guard. Does nothing where none was opened.
    pub fn unlock(&mut self)
        ensures
            !final(self).is_locked(),
            !old(self).is_locked() ==> *final(self) == *old(self),
    {
        self.locked = false;
    }
}

impl<'q, T: Component> View<'q, T> {
    /// The `T` of `entity`, as it is in the store, if it has one and is not
    /// the resource entity.
    pub fn get(&self, entity: hecs::Entity) -> (found: Option<&T>)
        ensures
            found.is_some() == store_finds(self.store(), entity, column::<T>()),
            found matches Some(value) ==> value.seen() == store_components(self.store())[(
                entity,
                column::<T>(),
            )],
    {
        view_get(self, entity)
    }
}

impl<'a, T: Component> QueryGuard<'a, T> {
    /// The entities of the guard, to be looked up.
    pub fn view(&mut self) -> (view: View<'_, T>)
        ensures
            view.store() == old(self).store(),
            final(self).store() == old(self).store(),
    {
        borrow_view(self)
    }
}

impl<T: Component> SystemParam for View<'_, T> {
    type State = ViewState<T>;

    type Guard<'a> = QueryGuard<'a, T>;

    open spec fn claims() -> Seq<Claim> {
        seq![Claim::column(column::<T>())]
    }

    open spec fn locked(state: &Self::State) -> bool {
        state.is_locked()
    }

    open spec fn guarded() -> bool {
        true
    }

    open spec fn still() -> bool {
        true
    }

    open spec fn opened(
        guard: &Self::Guard<'_>,
        store: Store,
        resources: hecs::Entity,
        last: Components,
    ) -> bool {
        guard.store() == store
    }

    open spec fn belongs(guard: &Self::Guard<'_>, store: Store) -> bool {
        guard.store() == store
    }

    fn init_state(world: &mut World, system_meta: &mut SystemMeta) -> (state: Self::State) {
        ViewState::<T>::default()
    }

    fn get_param<'a>(
        state: &'a mut Self::State,
        system_meta: &SystemMeta,
        world: &mut WorldCell<'a>,
        change_tick: ChangeTick,
    ) -> (guard: Self::Guard<'a>) {
        state.lock(world).unwrap()
    }

    fn release<'a>(guard: Self::Guard<'a>, world: &mut WorldCell<'a>) {
        guard.release(world);
    }

    fn apply(state: &mut Self::State, system_meta: &SystemMeta, world: &mut World) {
        state.unlock();
    }
}

impl<T: Component> SystemArg for View<'_, T> {
    type Item<'g> = View<'g, T>;

    open spec fn lent(
        item: Self::Item<'_>,
        store: Store,
        resources: hecs::Entity,
        last: Components,
    ) -> bool {
        item.store() == store
    }

    fn item<'g, 'a>(guard: &'g mut Self::Guard<'a>) -> (item: Self::Item<'g>)
        ensures
            item.store() == old(guard).store(),
    {
        guard.view()
    }
}

} // verus!
