//! The world: the store of entities and components, the change tick, and the
//! entity that carries the resources.

use crate::claim::{admits_all, holds_uniquely, provides, Claim};
use crate::resource::{lemma_mark_key, Resource, ResourceComponent};
use crate::store::{
    cell_close, cell_get, cell_get_mut, cell_new, cell_query, cell_release, cell_release_mut,
    cell_release_query, column, no_components, store_claims, store_components, store_entities,
    store_get, store_has, store_insert, store_len, store_marks, store_new, store_spawn, Column,
    Component, Components, QueryGuard, ResourceGuard, ResourceGuardMut, Store, StoreCell,
    StoreQuery,
};
use crate::ChangeTick;
use vstd::prelude::*;

verus! {

/// Owns the store and the change tick, and knows the resource entity: the one
/// entity whose components are the resources, each the only value of its type.
pub struct World {
    store: Store,
    change_tick: ChangeTick,
    resource_entity: hecs::Entity,
}

impl World {
    /// The resource entity is alive as long as the world is, and carries its
    /// mark.
    #[verifier::type_invariant]
    spec fn resource_entity_lives(self) -> bool {
        &&& store_entities(self.store).finite()
        &&& store_entities(self.store).contains(self.resource_entity)
        &&& store_marks(self.store, self.resource_entity)
    }

    /// The store of entities and components.
    pub closed spec fn store(&self) -> Store {
        self.store
    }

    /// The number of the last system run, or 1 before the first.
    pub closed spec fn change_tick(&self) -> ChangeTick {
        self.change_tick
    }

    /// The entity that carries the resources.
    pub closed spec fn resources(&self) -> hecs::Entity {
        self.resource_entity
    }

    /// The live entities.
    pub open spec fn entities(&self) -> Set<hecs::Entity> {
        store_entities(self.store())
    }

    /// The components: for each pair of an entity and the column of a
    /// component type of which the entity has a value, what is seen of that
    /// value.
    pub open spec fn components(&self) -> Components {
        store_components(self.store())
    }

    /// The claims that are open on the world: those of the guards that were
    /// opened on it and not given up, oldest first.
    pub open spec fn claims(&self) -> Seq<Claim> {
        store_claims(self.store())
    }

    /// Whether the world has a resource in `column`.
    pub open spec fn has_resource(&self, column: Column) -> bool {
        store_has(self.store(), self.resources(), column)
    }

    /// What is seen of the resource in `column`.
    pub open spec fn resource_seen(&self, column: Column) -> Seq<int> {
        self.components()[(self.resources(), column)]
    }

    /// `self` is `before` one tick later.
    pub open spec fn ticks(&self, before: World) -> bool {
        &&& self.change_tick() == before.change_tick() + 1
        &&& self.resources() == before.resources()
        &&& self.store() == before.store()
    }

    /// `self` is a world that extends `before`, one tick later: what a run
    /// is lent, or handed, that began on `before`.
    pub open spec fn succeeds(&self, before: World) -> bool {
        &&& self.change_tick() == before.change_tick() + 1
        &&& self.resources() == before.resources()
        &&& self.claims() == before.claims()
        &&& before.entities().subset_of(self.entities())
        &&& before.components().submap_of(self.components())
    }

    /// Whether `entity` carries the mark of a resource entity.
    pub open spec fn marks(&self, entity: hecs::Entity) -> bool {
        store_marks(self.store(), entity)
    }

    /// `self` has the resource entity, the entities and the components of
    /// `before`, and perhaps more. Of the components of `before`, those of a
    /// marked entity in a column that `claims` hold uniquely may have another
    /// value; the others are as they were.
    pub open spec fn follows(&self, before: World, claims: Seq<Claim>) -> bool {
        &&& self.resources() == before.resources()
        &&& self.claims() == before.claims()
        &&& before.entities().subset_of(self.entities())
        &&& before.components().dom().subset_of(self.components().dom())
        &&& forall|key: (hecs::Entity, Column)|
            before.components().dom().contains(key) && !(self.marks(key.0) && holds_uniquely(
                claims,
                key.1,
            )) ==> #[trigger] self.components()[key] == before.components()[key]
    }

    /// The world has every resource that `claims` ask for.
    pub open spec fn provides(&self, claims: Seq<Claim>) -> bool {
        provides(self.store(), self.resources(), claims)
    }

    /// `self` is `before` with more entities or components, at the same tick:
    /// what was there is there, unchanged.
    pub open spec fn extends(&self, before: World) -> bool {
        &&& self.change_tick() == before.change_tick()
        &&& self.resources() == before.resources()
        &&& self.claims() == before.claims()
        &&& before.entities().subset_of(self.entities())
        &&& before.components().submap_of(self.components())
    }

    /// What extends an extension of a world extends that world.
    pub proof fn lemma_extends_twice(self, middle: World, before: World)
        requires
            self.extends(middle),
            middle.extends(before),
        ensures
            self.extends(before),
    {
        assert forall|key: (hecs::Entity, Column)| #[trigger]
            before.components().dom().contains(key) implies self.components().dom().contains(key)
            && self.components()[key] == before.components()[key] by {
            assert(before.components().submap_of(middle.components()));
            assert(middle.components().submap_of(self.components()));
            assert(middle.components().dom().contains(key));
            assert(middle.components()[key] == before.components()[key]);
            assert(self.components().dom().contains(key));
        }
    }

    /// A world has the resources that a world before it had, as they were.
    pub proof fn lemma_extends_keeps_resource(self, before: World, column: Column)
        requires
            self.extends(before),
            before.has_resource(column),
        ensures
            self.has_resource(column),
            self.resource_seen(column) == before.resource_seen(column),
    {
        assert(self.components().dom().contains((before.resources(), column)));
    }

    /// What a run is lent has the resources that the world had when the run
    /// began, as they were: a resource that was inserted before a system runs
    /// is the one that the system's function receives.
    pub proof fn lemma_succeeds_keeps_resource(self, before: World, column: Column)
        requires
            self.succeeds(before),
            before.has_resource(column),
        ensures
            self.has_resource(column),
            self.resource_seen(column) == before.resource_seen(column),
    {
        assert(self.components().dom().contains((before.resources(), column)));
    }

    /// A world provides for the claims that a world before it provided for.
    pub proof fn lemma_extends_provides(self, before: World, claims: Seq<Claim>)
        requires
            self.extends(before),
            before.provides(claims),
        ensures
            self.provides(claims),
    {
    }

    /// A world at tick 1 whose only entity is the resource entity, which has
    /// its mark and no resource yet. No claim is open on it.
    #[must_use]
    pub fn new() -> (world: Self)
        ensures
            world.change_tick() == 1,
            world.claims() == Seq::<Claim>::empty(),
            world.entities() == Set::<hecs::Entity>::empty().insert(world.resources()),
            world.components() == no_components().insert(
                (world.resources(), column::<ResourceComponent>()),
                Seq::<int>::empty(),
            ),
    {
        let mut store = store_new();
        let resource_entity = store_spawn(&mut store, ResourceComponent);
        World { store, resource_entity, change_tick: 1 }
    }

    /// The entity that carries the resources.
    pub fn resource_entity(&self) -> (entity: hecs::Entity)
        ensures
            entity == self.resources(),
    {
        self.resource_entity
    }

    /// The number of the last system run, or 1 before the first.
    pub fn read_change_tick(&self) -> (tick: ChangeTick)
        ensures
            tick == self.change_tick(),
    {
        self.change_tick
    }

    /// Makes `resource` the world's resource of type `R`, in place of an
    /// earlier one.
    pub fn insert_resource<R: Resource>(&mut self, resource: R)
        ensures
            final(self).change_tick() == old(self).change_tick(),
            final(self).resources() == old(self).resources(),
            final(self).claims() == old(self).claims(),
            final(self).entities() == old(self).entities(),
            final(self).components() == old(self).components().insert(
                (old(self).resources(), column::<R>()),
                resource.seen(),
            ),
    {
        proof {
            use_type_invariant(&*self);
        }
        let done = store_insert(&mut self.store, self.resource_entity, resource);
        assert(done);
    }

    /// Whether the world has a resource of type `R`.
    pub fn contains_resource<R: Resource>(&mut self) -> (found: bool)
        ensures
            found == old(self).has_resource(column::<R>()),
            *final(self) == *old(self),
    {
        proof {
            use_type_invariant(&*self);
        }
        let entity = self.resource_entity;
        store_get::<R>(&mut self.store, entity).is_some()
    }

    /// The resource of type `R`.
    pub fn get_resource<R: Resource>(&mut self) -> (resource: &R)
        requires
            old(self).has_resource(column::<R>()),
        ensures
            resource.seen() == old(self).resource_seen(column::<R>()),
            *final(self) == *old(self),
    {
        proof {
            use_type_invariant(&*self);
        }
        let entity = self.resource_entity;
        let found = store_get::<R>(&mut self.store, entity);
        found.unwrap()
    }

    /// The number of live entities, the resource entity among them.
    pub fn len(&self) -> (len: u32)
        ensures
            len == self.entities().len(),
    {
        store_len(&self.store)
    }

    /// A new entity with the one component `component`. The store has room
    /// for as many entities as a `u32` can count; `len` tells how many there
    /// are.
    pub fn spawn<C: Component>(&mut self, component: C) -> (entity: hecs::Entity)
        requires
            old(self).entities().len() < u32::MAX,
        ensures
            final(self).change_tick() == old(self).change_tick(),
            final(self).resources() == old(self).resources(),
            final(self).claims() == old(self).claims(),
            !old(self).entities().contains(entity),
            C::KEY != u64::MAX ==> !final(self).marks(entity),
            final(self).entities() == old(self).entities().insert(entity),
            final(self).components() == old(self).components().insert(
                (entity, column::<C>()),
                component.seen(),
            ),
    {
        proof {
            use_type_invariant(&*self);
            lemma_mark_key();
        }
        let entity = store_spawn(&mut self.store, component);
        proof {
            assert(!store_has(old(self).store, entity, column::<ResourceComponent>()));
        }
        entity
    }

    /// A new entity with the one component `component`, if the store has room
    /// for one more.
    pub fn try_spawn<C: Component>(&mut self, component: C) -> (entity: Option<hecs::Entity>)
        ensures
            final(self).change_tick() == old(self).change_tick(),
            final(self).resources() == old(self).resources(),
            final(self).claims() == old(self).claims(),
            entity.is_some() == (old(self).entities().len() < u32::MAX),
            match entity {
                Some(entity) => {
                    &&& !old(self).entities().contains(entity)
                    &&& C::KEY != u64::MAX ==> !final(self).marks(entity)
                    &&& final(self).entities() == old(self).entities().insert(entity)
                    &&& final(self).components() == old(self).components().insert(
                        (entity, column::<C>()),
                        component.seen(),
                    )
                },
                None => *final(self) == *old(self),
            },
    {
        if self.len() < u32::MAX {
            Some(self.spawn(component))
        } else {
            None
        }
    }

    /// Starts the next system run and returns its tick.
    pub fn increment_change_tick(&mut self) -> (tick: ChangeTick)
        requires
            old(self).change_tick() < ChangeTick::MAX,
        ensures
            tick == old(self).change_tick() + 1,
            final(self).change_tick() == tick,
            final(self).resources() == old(self).resources(),
            final(self).store() == old(self).store(),
    {
        proof {
            use_type_invariant(&*self);
        }
        self.change_tick += 1;
        self.change_tick
    }

    /// Lends the world out for one system run, with the claims that are open
    /// on it. When it comes back it has the entities and the components that
    /// it had, each component and the claims as the cell has them last.
    pub fn cell(&mut self) -> (cell: WorldCell<'_>)
        ensures
            cell.store() == old(self).store(),
            cell.resources() == old(self).resources(),
            cell.open() == old(self).claims(),
            cell.released() == 0,
            cell.last().dom() == old(self).components().dom(),
            final(self).claims() == cell.last_claims(),
            final(self).change_tick() == old(self).change_tick(),
            final(self).resources() == old(self).resources(),
            final(self).entities() == old(self).entities(),
            final(self).components() == cell.last(),
    {
        proof {
            use_type_invariant(&*self);
        }
        let resource_entity = self.resource_entity;
        WorldCell { cell: cell_new(&mut self.store), resource_entity }
    }
}

impl Default for World {
    fn default() -> (world: Self)
        ensures
            world.change_tick() == 1,
            world.claims() == Seq::<Claim>::empty(),
            world.entities() == Set::<hecs::Entity>::empty().insert(world.resources()),
            world.components() == no_components().insert(
                (world.resources(), column::<ResourceComponent>()),
                Seq::<int>::empty(),
            ),
    {
        Self::new()
    }
}

/// A world lent out for one system run: parameters borrow from it, and the
/// claims they open are kept.
pub struct WorldCell<'w> {
    cell: StoreCell<'w>,
    resource_entity: hecs::Entity,
}

impl<'w> WorldCell<'w> {
    /// The resource entity carries its mark.
    #[verifier::type_invariant]
    spec fn resource_entity_marked(self) -> bool {
        store_marks(self.cell.store(), self.resource_entity)
    }

    /// The store of the world, as it was lent.
    pub closed spec fn store(&self) -> Store {
        self.cell.store()
    }

    /// The components of the world when it comes back.
    pub closed spec fn last(&self) -> Components {
        self.cell.last()
    }

    /// The claims that are open on the world when it comes back.
    pub closed spec fn last_claims(&self) -> Seq<Claim> {
        self.cell.last_claims()
    }

    /// The number of guards that were given up through this cell.
    pub closed spec fn released(&self) -> nat {
        self.cell.released()
    }

    /// The claims that were opened through this cell, oldest first.
    pub open spec fn opened(&self) -> Seq<Claim> {
        self.open().skip(store_claims(self.store()).len() as int)
    }

    /// Whether every guard that was opened through this cell was given up
    /// through it.
    pub open spec fn settled(&self) -> bool {
        self.opened().len() == self.released()
    }

    /// The entity that carries the resources.
    pub closed spec fn resources(&self) -> hecs::Entity {
        self.resource_entity
    }

    /// The claims that the world was lent with, and after them those that
    /// were opened since, oldest first.
    pub closed spec fn open(&self) -> Seq<Claim> {
        self.cell.open()
    }

    /// `self` is the cell `before` of one lending, later: store, resource
    /// entity and what the world comes back with are the same.
    pub open spec fn same_lending(&self, before: WorldCell<'w>) -> bool {
        &&& self.store() == before.store()
        &&& self.resources() == before.resources()
        &&& self.last() == before.last()
        &&& self.last_claims() == before.last_claims()
    }

    /// Whether the world has a resource in `column`.
    pub open spec fn has_resource(&self, column: Column) -> bool {
        store_has(self.store(), self.resources(), column)
    }

    /// What is seen of the resource in `column`, as it was when the world was
    /// lent.
    pub open spec fn resource_seen(&self, column: Column) -> Seq<int> {
        store_components(self.store())[(self.resources(), column)]
    }

    /// The world has every resource that `claims` ask for.
    pub open spec fn provides(&self, claims: Seq<Claim>) -> bool {
        provides(self.store(), self.resources(), claims)
    }

    /// `claims` can be opened on top of those that are open.
    pub open spec fn admits(&self, claims: Seq<Claim>) -> bool {
        admits_all(self.open(), claims)
    }

    /// Ends the lending: nothing more is borrowed through the cell. The
    /// components of the entities without a mark, and those in a column of
    /// which no unique claim was opened, come back as they were lent. Where
    /// every guard was given up through the cell, the claims that are open on
    /// the world are those that it was lent with; else all that the cell has
    /// listed are kept.
    pub fn close(self) -> (left: Ghost<(Components, Seq<Claim>)>)
        ensures
            left@.0 == self.last(),
            left@.1 == self.last_claims(),
            left@.1 == if self.settled() {
                store_claims(self.store())
            } else {
                self.open()
            },
            forall|key: (hecs::Entity, Column)|
                self.last().dom().contains(key) && !(store_marks(self.store(), key.0)
                    && holds_uniquely(self.opened(), key.1)) ==> #[trigger] left@.0[key]
                    == store_components(self.store())[key],
    {
        cell_close(self.cell)
    }

    /// Borrows the resource of type `R`, shared, if the world has one: the
    /// guard holds the resource as it was lent.
    pub fn resource<R: Resource>(&mut self) -> (guard: Option<ResourceGuard<'w, R>>)
        requires
            old(self).admits(seq![Claim::shared(column::<R>())]),
        ensures
            guard.is_some() == old(self).has_resource(column::<R>()),
            guard matches Some(guard) ==> {
                &&& guard.store() == old(self).store()
                &&& guard.seen() == old(self).resource_seen(column::<R>())
            },
            final(self).same_lending(*old(self)),
            final(self).released() == old(self).released(),
            final(self).open() == if guard.is_some() {
                old(self).open().push(Claim::shared(column::<R>()))
            } else {
                old(self).open()
            },
    {
        proof {
            use_type_invariant(&*self);
        }
        assert(seq![Claim::shared(column::<R>())][0] == Claim::shared(column::<R>()));
        cell_get::<R>(&mut self.cell, self.resource_entity)
    }

    /// Borrows the resource of type `R`, uniquely, if the world has one: the
    /// guard holds the resource as it was lent, and what it leaves is what the
    /// world holds when it comes back.
    pub fn resource_mut<R: Resource>(&mut self) -> (guard: Option<ResourceGuardMut<'w, R>>)
        requires
            old(self).admits(seq![Claim::exclusive(column::<R>())]),
        ensures
            guard.is_some() == old(self).has_resource(column::<R>()),
            guard matches Some(guard) ==> {
                &&& guard.store() == old(self).store()
                &&& guard.seen() == old(self).resource_seen(column::<R>())
                &&& guard.left() == old(self).last()[(old(self).resources(), column::<R>())]
                &&& !guard.spent()
            },
            final(self).same_lending(*old(self)),
            final(self).released() == old(self).released(),
            final(self).open() == if guard.is_some() {
                old(self).open().push(Claim::exclusive(column::<R>()))
            } else {
                old(self).open()
            },
    {
        proof {
            use_type_invariant(&*self);
        }
        assert(seq![Claim::exclusive(column::<R>())][0] == Claim::exclusive(column::<R>()));
        cell_get_mut::<R>(&mut self.cell, self.resource_entity)
    }

    /// Borrows the `T` of every entity but the resource entity, shared, by
    /// way of `query`.
    pub fn query<T: Component>(&mut self, query: &'w mut StoreQuery<T>) -> (guard: QueryGuard<
        'w,
        T,
    >)
        requires
            old(self).admits(seq![Claim::column(column::<T>())]),
        ensures
            guard.store() == old(self).store(),
            final(self).same_lending(*old(self)),
            final(self).released() == old(self).released(),
            final(self).open() == old(self).open().push(Claim::column(column::<T>())),
    {
        proof {
            use_type_invariant(&*self);
        }
        assert(seq![Claim::column(column::<T>())][0] == Claim::column(column::<T>()));
        cell_query::<T>(&mut self.cell, query)
    }

    /// Gives a shared guard of a resource up: the borrow ends, and the cell
    /// counts the guard.
    pub fn give_up<R: Resource>(&mut self, guard: ResourceGuard<'w, R>)
        requires
            guard.store() == old(self).store(),
        ensures
            final(self).same_lending(*old(self)),
            final(self).open() == old(self).open(),
            final(self).released() == old(self).released() + 1,
    {
        proof {
            use_type_invariant(&*self);
        }
        cell_release(&mut self.cell, guard)
    }

    /// Gives a unique guard of a resource up: the borrow ends, and the cell
    /// counts the guard. What the guard held last is what it leaves.
    pub fn give_up_mut<R: Resource>(&mut self, guard: ResourceGuardMut<'w, R>)
        requires
            guard.store() == old(self).store(),
        ensures
            guard.seen() == guard.left(),
            final(self).same_lending(*old(self)),
            final(self).open() == old(self).open(),
            final(self).released() == old(self).released() + 1,
    {
        proof {
            use_type_invariant(&*self);
        }
        let _ = cell_release_mut(&mut self.cell, guard);
    }

    /// Gives the guard of a query up: the borrow ends, and the cell counts
    /// the guard.
    pub fn give_up_query<T: Component>(&mut self, guard: QueryGuard<'w, T>)
        requires
            guard.store() == old(self).store(),
        ensures
            final(self).same_lending(*old(self)),
            final(self).open() == old(self).open(),
            final(self).released() == old(self).released() + 1,
    {
        proof {
            use_type_invariant(&*self);
        }
        cell_release_query(&mut self.cell, guard)
    }
}

} // verus!
