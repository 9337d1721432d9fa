//! Resources: the components of the resource entity.

use crate::claim::{admits_all, lemma_clash_is_not_admitted, Claim};
use crate::store::{
    column, guard_value, guard_value_mut, store_components, Component, Components, Store,
};
pub use crate::store::{ResourceGuard, ResourceGuardMut};
use crate::system::systemmeta::SystemMeta;
use crate::system::systemparam::{SystemArg, SystemParam};
use crate::world::{World, WorldCell};
use crate::ChangeTick;
use core::marker::PhantomData;
use vstd::prelude::*;

verus! {

/// A value of which a world holds at most one: a component of the resource
/// entity.
pub trait Resource: Component {

}

impl<T: Component> Resource for T {

}

/// Marks the resource entity.
pub struct ResourceComponent;

impl Component for ResourceComponent {
    const KEY: u64 = u64::MAX;
}

/// What a system keeps for a parameter that is a resource: whether its guard
/// was opened. The resource itself is looked up in the world with every run.
pub struct ResourceParamState<R> {
    locked: bool,
    marker: PhantomData<R>,
}

impl<R> Default for ResourceParamState<R> {
    fn default() -> (state: Self)
        ensures
            !state.is_locked(),
    {
        ResourceParamState { locked: false, marker: PhantomData }
    }
}

impl<R> ResourceParamState<R> {
    /// Whether a run has opened the guard and `unlock` has not come since.
    pub closed spec fn is_locked(&self) -> bool {
        self.locked
    }

    /// Closes the books on the guard. Does nothing where none was opened.
    pub fn unlock(&mut self)
        ensures
            !final(self).is_locked(),
            !old(self).is_locked() ==> *final(self) == *old(self),
    {
        self.locked = false;
    }
}

impl<R: Resource> ResourceParamState<R> {
    /// Opens a shared guard on the resource, if the world has one: the guard
    /// holds the resource as it is in the world.
    pub fn lock<'w>(&mut self, world: &mut WorldCell<'w>) -> (guard: Option<ResourceGuard<'w, R>>)
        requires
            !old(self).is_locked(),
            old(world).admits(seq![Claim::shared(column::<R>())]),
        ensures
            guard.is_some() == old(world).has_resource(column::<R>()),
            guard matches Some(guard) ==> {
                &&& guard.store() == old(world).store()
                &&& guard.seen() == old(world).resource_seen(column::<R>())
            },
            final(self).is_locked() == guard.is_some(),
            final(world).same_lending(*old(world)),
            final(world).released() == old(world).released(),
            final(world).open() == if guard.is_some() {
                old(world).open().push(Claim::shared(column::<R>()))
            } else {
                old(world).open()
            },
    {
        let guard = world.resource::<R>();
        self.locked = guard.is_some();
        guard
    }

    /// Opens a unique guard on the resource, if the world has one: the guard
    /// holds the resource as it is in the world, and what it leaves is what
    /// the world holds when it comes back.
    pub fn lock_mut<'w>(&mut self, world: &mut WorldCell<'w>) -> (guard: Option<
        ResourceGuardMut<'w, R>,
    >)
        requires
            !old(self).is_locked(),
            old(world).admits(seq![Claim::exclusive(column::<R>())]),
        ensures
            guard.is_some() == old(world).has_resource(column::<R>()),
            guard matches Some(guard) ==> {
                &&& guard.store() == old(world).store()
                &&& guard.seen() == old(world).resource_seen(column::<R>())
                &&& guard.left() == old(world).last()[(old(world).resources(), column::<R>())]
                &&& !guard.spent()
            },
            final(self).is_locked() == guard.is_some(),
            final(world).same_lending(*old(world)),
            final(world).released() == old(world).released(),
            final(world).open() == if guard.is_some() {
                old(world).open().push(Claim::exclusive(column::<R>()))
            } else {
                old(world).open()
            },
    {
        let guard = world.resource_mut::<R>();
        self.locked = guard.is_some();
        guard
    }
}

impl<'w, R: Resource> ResourceGuard<'w, R> {
    /// The resource.
    pub fn get(&self) -> (resource: &R)
        ensures
            resource.seen() == self.seen(),
    {
        guard_value(self)
    }

    /// Gives the guard up to the world that it was opened on.
    pub fn release(self, world: &mut WorldCell<'w>)
        requires
            self.store() == old(world).store(),
        ensures
            final(world).same_lending(*old(world)),
            final(world).open() == old(world).open(),
            final(world).released() == old(world).released() + 1,
    {
        world.give_up(self)
    }
}

impl<'w, R: Resource> ResourceGuardMut<'w, R> {
    /// The resource, to be written. The guard lends it once: what the
    /// borrower leaves is what the guard leaves, and what the world holds when
    /// it comes back.
    pub fn get_mut(&mut self) -> (resource: &mut R)
        requires
            !old(self).spent(),
        ensures
            resource.seen() == old(self).seen(),
            final(resource).seen() == old(self).left(),
            final(self).seen() == final(resource).seen(),
            final(self).left() == old(self).left(),
            final(self).store() == old(self).store(),
            final(self).spent(),
    {
        guard_value_mut(self)
    }

    /// Gives the guard up to the world that it was opened on. What it held
    /// last is what it leaves.
    pub fn release(self, world: &mut WorldCell<'w>)
        requires
            self.store() == old(world).store(),
        ensures
            self.seen() == self.left(),
            final(world).same_lending(*old(world)),
            final(world).open() == old(world).open(),
            final(world).released() == old(world).released() + 1,
    {
        world.give_up_mut(self)
    }
}

/// Calls `f`, so that what is known of the result is known by the contract of
/// `f`.
fn lend_through<F, A, Out>(f: F, a: A) -> (out: Out) where F: FnOnce(A) -> Out
    requires
        call_requires(f, (a,)),
    ensures
        call_ensures(f, (a,), out),
{
    f(a)
}

impl<R: Resource> SystemParam for &R {
    type State = ResourceParamState<R>;

    type Guard<'a> = ResourceGuard<'a, R>;

    open spec fn claims() -> Seq<Claim> {
        seq![Claim::shared(column::<R>())]
    }

    open spec fn locked(state: &Self::State) -> bool {
        state.is_locked()
    }

    open spec fn guarded() -> bool {
        true
    }

    open spec fn still() -> bool {
        true
    }

    open spec fn opened(
        guard: &Self::Guard<'_>,
        store: Store,
        resources: hecs::Entity,
        last: Components,
    ) -> bool {
        guard.seen() == store_components(store)[(resources, column::<R>())]
    }

    open spec fn belongs(guard: &Self::Guard<'_>, store: Store) -> bool {
        guard.store() == store
    }

    fn init_state(world: &mut World, system_meta: &mut SystemMeta) -> (state: Self::State) {
        Default::default()
    }

    fn get_param<'a>(
        state: &'a mut Self::State,
        system_meta: &SystemMeta,
        world: &mut WorldCell<'a>,
        change_tick: ChangeTick,
    ) -> (guard: Self::Guard<'a>)
        ensures
            guard.seen() == old(world).resource_seen(column::<R>()),
    {
        assert(seq![Claim::shared(column::<R>())][0] == Claim::shared(column::<R>()));
        let guard = state.lock(world);
        guard.expect("Resource doesn't exist")
    }

    fn release<'a>(guard: Self::Guard<'a>, world: &mut WorldCell<'a>) {
        guard.release(world);
    }

    fn apply(state: &mut Self::State, system_meta: &SystemMeta, world: &mut World) {
        state.unlock();
    }
}

impl<R: Resource> SystemArg for &R {
    type Item<'g> = &'g R;

    open spec fn lent(
        item: Self::Item<'_>,
        store: Store,
        resources: hecs::Entity,
        last: Components,
    ) -> bool {
        item.seen() == store_components(store)[(resources, column::<R>())]
    }

    fn item<'g, 'a>(guard: &'g mut Self::Guard<'a>) -> (item: Self::Item<'g>)
        ensures
            item.seen() == old(guard).seen(),
            *final(guard) == *old(guard),
    {
        guard.get()
    }
}

impl<R: Resource> SystemParam for &mut R {
    type State = ResourceParamState<R>;

    type Guard<'a> = ResourceGuardMut<'a, R>;

    open spec fn claims() -> Seq<Claim> {
        seq![Claim::exclusive(column::<R>())]
    }

    open spec fn locked(state: &Self::State) -> bool {
        state.is_locked()
    }

    open spec fn guarded() -> bool {
        true
    }

    open spec fn still() -> bool {
        true
    }

    open spec fn opened(
        guard: &Self::Guard<'_>,
        store: Store,
        resources: hecs::Entity,
        last: Components,
    ) -> bool {
        &&& guard.seen() == store_components(store)[(resources, column::<R>())]
        &&& guard.left() == last[(resources, column::<R>())]
        &&& !guard.spent()
    }

    open spec fn belongs(guard: &Self::Guard<'_>, store: Store) -> bool {
        guard.store() == store
    }

    fn init_state(world: &mut World, system_meta: &mut SystemMeta) -> (state: Self::State) {
        Default::default()
    }

    fn get_param<'a>(
        state: &'a mut Self::State,
        system_meta: &SystemMeta,
        world: &mut WorldCell<'a>,
        change_tick: ChangeTick,
    ) -> (guard: Self::Guard<'a>)
        ensures
            guard.seen() == old(world).resource_seen(column::<R>()),
            guard.left() == old(world).last()[(old(world).resources(), column::<R>())],
            !guard.spent(),
    {
        assert(seq![Claim::exclusive(column::<R>())][0] == Claim::exclusive(column::<R>()));
        let guard = state.lock_mut(world);
        guard.unwrap()
    }

    fn release<'a>(guard: Self::Guard<'a>, world: &mut WorldCell<'a>) {
        guard.release(world);
    }

    fn apply(state: &mut Self::State, system_meta: &SystemMeta, world: &mut World) {
        state.unlock();
    }
}

impl<R: Resource> SystemArg for &mut R {
    type Item<'g> = &'g mut R;

    /// The item is what a unique guard lends with `get_mut`: by the contract
    /// of `get_mut` it is the resource as it is in the store, and what it is
    /// left as is what the store comes back with.
    open spec fn lent(
        item: Self::Item<'_>,
        store: Store,
        resources: hecs::Entity,
        last: Components,
    ) -> bool {
        exists|guard: &mut ResourceGuardMut<'_, R>|
            {
                &&& guard.seen() == store_components(store)[(resources, column::<R>())]
                &&& guard.left() == last[(resources, column::<R>())]
                &&& !guard.spent()
                &&& #[trigger] call_ensures(ResourceGuardMut::<'_, R>::get_mut, (guard,), item)
            }
    }

    fn item<'g, 'a>(guard: &'g mut Self::Guard<'a>) -> (item: Self::Item<'g>) {
        lend_through(ResourceGuardMut::<'a, R>::get_mut, guard)
    }
}

/// What a function receives for a `&mut R` is the world's resource itself: it
/// holds what the store held when it was lent, and what the function leaves
/// in it is what the store holds when it comes back. So a run that writes to
/// a resource is read by the next. (`item` holds the argument alone.)
pub proof fn lemma_unique_argument_is_the_resource<R: Resource>(
    item: (&mut R,),
    store: Store,
    resources: hecs::Entity,
    last: Components,
)
    requires
        <&mut R as SystemArg>::lent(item.0, store, resources, last),
    ensures
        old(item.0).seen() == store_components(store)[(resources, column::<R>())],
        final(item.0).seen() == last[(resources, column::<R>())],
{
}

/// The key of the mark of the resource entity.
pub proof fn lemma_mark_key()
    ensures
        column::<ResourceComponent>().key == u64::MAX,
{
}

/// After `insert_resource` of `resource`, the world provides for a system that
/// borrows the resource of type `R`, shared or uniquely, and what `get_param`
/// finds is `resource`, as far as the contracts tell values apart.
pub proof fn lemma_inserted_resource_is_provided<R: Resource>(
    before: World,
    after: World,
    resource: R,
)
    requires
        after.resources() == before.resources(),
        after.components() == before.components().insert(
            (before.resources(), column::<R>()),
            resource.seen(),
        ),
    ensures
        after.has_resource(column::<R>()),
        after.resource_seen(column::<R>()) == resource.seen(),
        after.provides(<&R as SystemParam>::claims()),
        after.provides(<&mut R as SystemParam>::claims()),
{
}

/// No run borrows one resource twice where one of the borrows is unique:
/// whatever is open on the world, it does not admit the claims of such a pair
/// of arguments, so that no system that asks for them can run.
pub proof fn lemma_unique_borrow_is_alone<R: Resource>(open: Seq<Claim>)
    ensures
        !admits_all(open, <(&mut R, &mut R) as SystemParam>::claims()),
        !admits_all(open, <(&R, &mut R) as SystemParam>::claims()),
        !admits_all(open, <(&mut R, &R) as SystemParam>::claims()),
{
    let unique = seq![Claim::exclusive(column::<R>())];
    let shared = seq![Claim::shared(column::<R>())];
    lemma_clash_is_not_admitted(open, unique + unique, 0, 1);
    lemma_clash_is_not_admitted(open, shared + unique, 0, 1);
    lemma_clash_is_not_admitted(open, unique + shared, 0, 1);
}

} // verus!
