//! The query that a system keeps for a parameter, and the parameter that
//! hands a function the open borrow of it.

use crate::claim::Claim;
use crate::store::{column, query_new, Component, Components, Store, StoreQuery};
use crate::system::query::QueryGuard;
use crate::system::systemmeta::SystemMeta;
use crate::system::systemparam::SystemParam;
use crate::world::{World, WorldCell};
use crate::ChangeTick;
use vstd::prelude::*;

verus! {

/// A query for the entities that have a `T`, kept by a system from one run to
/// the next.
#[verifier::reject_recursive_types(T)]
pub struct PreparedQuery2<T: Component>(pub StoreQuery<T>);

impl<T: Component> PreparedQuery2<T> {
    /// A query that has not seen a world yet.
    #[must_use]
    pub fn new() -> Self {
        PreparedQuery2(query_new())
    }
}

impl<T: Component> Default for PreparedQuery2<T> {
    fn default() -> Self {
        Self::new()
    }
}

/// The open borrow itself as a parameter: the state is the query alone, and
/// nothing is on the books between the runs.
impl<T: Component> SystemParam for QueryGuard<'_, T> {
    type State = PreparedQuery2<T>;

    type Guard<'a> = QueryGuard<'a, T>;

    open spec fn claims() -> Seq<Claim> {
        seq![Claim::column(column::<T>())]
    }

    open spec fn locked(state: &Self::State) -> bool {
        false
    }

    open spec fn guarded() -> bool {
        false
    }

    open spec fn still() -> bool {
        true
    }

    open spec fn opened(
        guard: &Self::Guard<'_>,
        store: Store,
        resources: hecs::Entity,
        last: Components,
    ) -> bool {
        guard.store() == store
    }

    open spec fn belongs(guard: &Self::Guard<'_>, store: Store) -> bool {
        guard.store() == store
    }

    fn init_state(world: &mut World, system_meta: &mut SystemMeta) -> (state: Self::State) {
        PreparedQuery2::new()
    }

    fn get_param<'a>(
        state: &'a mut Self::State,
        system_meta: &SystemMeta,
        world: &mut WorldCell<'a>,
        change_tick: ChangeTick,
    ) -> (guard: Self::Guard<'a>) {
        QueryGuard::open(state, world)
    }

    fn release<'a>(guard: Self::Guard<'a>, world: &mut WorldCell<'a>) {
        guard.release(world);
    }

    fn apply(state: &mut Self::State, system_meta: &SystemMeta, world: &mut World) {
    }
}

} // verus!
