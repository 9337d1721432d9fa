//! The `hecs` store behind a world: its types, the names under which the
//! contracts speak of what it holds, and the calls into it.
//!
//! The contracts of the functions marked `external_body` are not proved: each
//! states what the `hecs` call in its body does, as the source of `hecs` shows
//! it. The values that carry a borrow (the cell, the guards, the walk and the
//! view) are made by those functions alone, which also say what the contracts
//! are to know of them.

use crate::claim::{admits, claim_limit, Claim};
use crate::resource::ResourceComponent;
use core::marker::PhantomData;
use vstd::prelude::*;

verus! {

/// The `hecs::World` that holds the entities and their components.
#[verifier::external_body]
pub struct Store {
    inner: hecs::World,
}

#[verifier::external_type_specification]
#[verifier::external_body]
pub struct ExEntity(hecs::Entity);

#[verifier::external_type_specification]
#[verifier::external_body]
#[verifier::reject_recursive_types(T)]
pub struct ExRef<'a, T: ?Sized>(hecs::Ref<'a, T>);

#[verifier::external_type_specification]
#[verifier::external_body]
#[verifier::reject_recursive_types(T)]
pub struct ExRefMut<'a, T: ?Sized>(hecs::RefMut<'a, T>);

/// A type whose values can be attached to an entity.
pub trait Component: Sized + Send + Sync + 'static {
    /// A number by which the contracts tell this type from the types that
    /// name another. Two types may name the same: of those the contracts do
    /// not know whether they are one type.
    const KEY: u64;

    /// What the contracts see of a value: the numbers by which they tell one
    /// value of the type from another. Left as it is, they tell none apart.
    open spec fn seen(&self) -> Seq<int> {
        Seq::empty()
    }
}

/// The column of the store in which the components of one type are kept.
pub struct Column {
    /// The key that the type names.
    pub key: u64,
    /// What stands for the identity of the type.
    pub kind: int,
}

/// Stands for the `TypeId` of `C`, by which the store tells the component
/// types apart. Nothing is stated of the number: one type has one, and of two
/// types the contracts do not know whether theirs differ.
pub closed spec fn kind<C: Component>() -> int {
    arbitrary::<(int, PhantomData<C>)>().0
}

/// The column of the components of type `C`. Types with different keys have
/// different columns.
pub open spec fn column<C: Component>() -> Column {
    Column { key: C::KEY, kind: kind::<C>() }
}

/// The components of a store: what is seen of the value in each column of
/// each entity.
pub type Components = Map<(hecs::Entity, Column), Seq<int>>;

/// The entities that are alive in `store`.
pub uninterp spec fn store_entities(store: Store) -> Set<hecs::Entity>;

/// The components in `store`: for each pair of a live entity and the column of
/// a component type of which the entity has a value, what is seen of that
/// value.
pub uninterp spec fn store_components(store: Store) -> Map<(hecs::Entity, Column), Seq<int>>;

/// The claims that were opened on `store` and not given up through the calls
/// below, oldest first: at least those of every borrow that the store has
/// recorded and not released.
pub uninterp spec fn store_claims(store: Store) -> Seq<Claim>;

/// No components.
pub open spec fn no_components() -> Components {
    Map::empty()
}

/// Whether `entity` has, in `store`, a component in `column`.
pub open spec fn store_has(store: Store, entity: hecs::Entity, column: Column) -> bool {
    store_components(store).dom().contains((entity, column))
}

/// Whether `entity` carries, in `store`, the mark of a resource entity.
pub open spec fn store_marks(store: Store, entity: hecs::Entity) -> bool {
    store_has(store, entity, column::<ResourceComponent>())
}

/// Whether a query for the components in `column` finds `entity` in `store`:
/// the entity has such a component and is not marked as a resource entity.
pub open spec fn store_finds(store: Store, entity: hecs::Entity, column: Column) -> bool {
    store_has(store, entity, column) && !store_marks(store, entity)
}

/// A store lent out for borrowing single columns, with the claims that were
/// opened on it since.
///
/// The store keeps the state of its borrows out of sight and panics on a
/// clash, so the calls below ask that a new claim clashes with none of `open`.
/// The list begins with the claims that the store was lent with, and every
/// borrow through the cell is entered in it for good: it holds at least what
/// the store has recorded. A guard gives its claim up only through the cell
/// that opened it, which counts those that did; a guard that is dropped or
/// leaked keeps its claim.
///
/// `store` is the store as it was lent. While the cell lives no entity and no
/// component comes or goes, but a unique borrow may write to what it has
/// borrowed. `last` is what the store holds when it comes back, and
/// `last_claims` the claims that are then open on it.
pub struct StoreCell<'w> {
    store: &'w Store,
    open: Ghost<Seq<Claim>>,
    released: Ghost<nat>,
    last: Ghost<Components>,
    last_claims: Ghost<Seq<Claim>>,
}

impl<'w> StoreCell<'w> {
    /// The store as it was lent.
    pub closed spec fn store(&self) -> Store {
        *self.store
    }

    /// The claims that the store was lent with, and after them those that
    /// were opened through this cell, oldest first.
    pub closed spec fn open(&self) -> Seq<Claim> {
        self.open@
    }

    /// The number of guards that were given up through this cell.
    pub closed spec fn released(&self) -> nat {
        self.released@
    }

    /// The components of the store when it comes back.
    pub closed spec fn last(&self) -> Components {
        self.last@
    }

    /// The claims that are open on the store when it comes back.
    pub closed spec fn last_claims(&self) -> Seq<Claim> {
        self.last_claims@
    }

    /// The claims that were opened through this cell, oldest first.
    pub open spec fn opened(&self) -> Seq<Claim> {
        self.open().skip(store_claims(self.store()).len() as int)
    }

    /// Whether every guard that was opened through this cell was given up
    /// through it.
    pub open spec fn settled(&self) -> bool {
        self.opened().len() == self.released()
    }
}

/// The open guard of a shared borrow of one component of type `R`, with what
/// is seen of the component.
#[verifier::reject_recursive_types(R)]
pub struct ResourceGuard<'w, R: Component> {
    guard: hecs::Ref<'w, R>,
    seen: Ghost<Seq<int>>,
    store: Ghost<Store>,
}

impl<'w, R: Component> ResourceGuard<'w, R> {
    /// What is seen of the component.
    pub closed spec fn seen(&self) -> Seq<int> {
        self.seen@
    }

    /// The store that the guard borrows from, as it was lent.
    pub closed spec fn store(&self) -> Store {
        self.store@
    }
}

/// The open guard of a unique borrow of one component of type `R`, with what
/// is seen of the component now and when the guard ends. The guard lends the
/// component for writing once.
#[verifier::reject_recursive_types(R)]
pub struct ResourceGuardMut<'w, R: Component> {
    guard: hecs::RefMut<'w, R>,
    seen: Ghost<Seq<int>>,
    left: Ghost<Seq<int>>,
    spent: Ghost<bool>,
    store: Ghost<Store>,
}

impl<'w, R: Component> ResourceGuardMut<'w, R> {
    /// What is seen of the component.
    pub closed spec fn seen(&self) -> Seq<int> {
        self.seen@
    }

    /// What is seen of the component when the guard ends, which is what the
    /// store holds when it comes back.
    pub closed spec fn left(&self) -> Seq<int> {
        self.left@
    }

    /// Whether the guard has lent the component for writing.
    pub closed spec fn spent(&self) -> bool {
        self.spent@
    }

    /// The store that the guard borrows from, as it was lent.
    pub closed spec fn store(&self) -> Store {
        self.store@
    }
}

/// `hecs::World::new`: a store without entities.
#[verifier::external_body]
pub(crate) fn store_new() -> (store: Store)
    ensures
        store_entities(store) == Set::<hecs::Entity>::empty(),
        store_components(store) == no_components(),
        store_claims(store) == Seq::<Claim>::empty(),
{
    Store { inner: hecs::World::new() }
}

/// `hecs::World::len`: the number of live entities.
#[verifier::external_body]
pub(crate) fn store_len(store: &Store) -> (count: u32)
    ensures
        count == store_entities(*store).len(),
{
    store.inner.len()
}

/// `hecs::World::spawn` with the one component `component`: a new entity that
/// has a `C` and nothing else. The store panics when the identifiers run out,
/// which takes as many live entities as a `u32` can count.
#[verifier::external_body]
pub(crate) fn store_spawn<C: Component>(store: &mut Store, component: C) -> (entity: hecs::Entity)
    requires
        store_entities(*old(store)).finite(),
        store_entities(*old(store)).len() < u32::MAX,
    ensures
        !store_entities(*old(store)).contains(entity),
        forall|column: Column| !#[trigger] store_has(*old(store), entity, column),
        store_entities(*final(store)) == store_entities(*old(store)).insert(entity),
        store_components(*final(store)) == store_components(*old(store)).insert(
            (entity, column::<C>()),
            component.seen(),
        ),
        store_claims(*final(store)) == store_claims(*old(store)),
    no_unwind
{
    store.inner.spawn((component,))
}

/// `hecs::World::insert_one`: attaches `component` to `entity`, in place of the
/// `C` that the entity had, if it had one. Fails, and changes nothing, where
/// `entity` is not alive.
#[verifier::external_body]
pub(crate) fn store_insert<C: Component>(
    store: &mut Store,
    entity: hecs::Entity,
    component: C,
) -> (done: bool)
    ensures
        done == store_entities(*old(store)).contains(entity),
        store_entities(*final(store)) == store_entities(*old(store)),
        store_components(*final(store)) == if done {
            store_components(*old(store)).insert((entity, column::<C>()), component.seen())
        } else {
            store_components(*old(store))
        },
        store_claims(*final(store)) == store_claims(*old(store)),
    no_unwind
{
    store.inner.insert_one(entity, component).is_ok()
}

/// `hecs::World::query_one_mut` with `&C`: the `C` of `entity`, where it is
/// alive and has one. The exclusive access to the store stands in for a
/// guard, and the store does not look at the borrows that it has recorded.
#[verifier::external_body]
pub(crate) fn store_get<'w, C: Component>(store: &'w mut Store, entity: hecs::Entity) -> (found:
    Option<&'w C>)
    ensures
        found.is_some() == store_has(*old(store), entity, column::<C>()),
        found matches Some(value) ==> value.seen() == store_components(*old(store))[(
            entity,
            column::<C>(),
        )],
        *final(store) == *old(store),
    no_unwind
{
    store.inner.query_one_mut::<&C>(entity).ok()
}

/// The shared borrow of the `hecs::World` from which the guards borrow:
/// `hecs::World::get` and `hecs::PreparedQuery::query` take the world by
/// shared reference, and a `hecs::RefMut` writes through it. So the store
/// comes back with the entities and the components that it had, but not with
/// the values: what it then holds of each is `last` of the cell, of which the
/// calls below say what they know.
#[verifier::external_body]
pub(crate) fn cell_new<'w>(store: &'w mut Store) -> (cell: StoreCell<'w>)
    ensures
        cell.store() == *old(store),
        cell.open() == store_claims(*old(store)),
        cell.released() == 0,
        cell.last().dom() == store_components(*old(store)).dom(),
        store_entities(*final(store)) == store_entities(*old(store)),
        store_components(*final(store)) == cell.last(),
        store_claims(*final(store)) == cell.last_claims(),
    no_unwind
{
    StoreCell {
        store: &*store,
        open: Ghost(store_claims(*store)),
        released: Ghost(0),
        last: Ghost(store_components(*final(store))),
        last_claims: Ghost(store_claims(*final(store))),
    }
}

/// The end of the shared borrow of the `hecs::World`, after which nothing
/// more is borrowed through the cell. Of all that takes the world by shared
/// reference only a `hecs::RefMut` writes to a component, and the cell opens
/// one on a marked entity only: the components of the other entities, and
/// those in a column on which the cell has opened no unique borrow, come back
/// as they were lent: a guard of an earlier lending cannot be used in this. Where every guard that the cell opened was given up
/// through it, the claims are those that the store was lent with; else all
/// that the cell has listed are kept.
#[verifier::external_body]
pub(crate) fn cell_close<'w>(cell: StoreCell<'w>) -> (left: Ghost<(Components, Seq<Claim>)>)
    ensures
        left@.0 == cell.last(),
        left@.1 == cell.last_claims(),
        left@.1 == if cell.settled() {
            store_claims(cell.store())
        } else {
            cell.open()
        },
        forall|key: (hecs::Entity, Column)|
            cell.last().dom().contains(key) && !(store_marks(cell.store(), key.0)
                && cell.opened().contains(Claim::exclusive(key.1))) ==> #[trigger] left@.0[key]
                == store_components(cell.store())[key],
{
    let StoreCell { store: _, open: _, released: _, last, last_claims } = cell;
    Ghost((last@, last_claims@))
}

/// `hecs::World::get` with `&C`: a shared borrow of the `C` of `entity`, where
/// it is alive and has one. The store panics where that column is borrowed
/// uniquely, or shared more often than it can count. No unique borrow of the
/// column was opened since the store was lent, so that the component is as it
/// was lent.
#[verifier::external_body]
pub(crate) fn cell_get<'w, C: Component>(cell: &mut StoreCell<'w>, entity: hecs::Entity) -> (guard:
    Option<ResourceGuard<'w, C>>)
    requires
        store_marks(old(cell).store(), entity),
        admits(old(cell).open(), Claim::shared(column::<C>())),
        old(cell).open().len() < claim_limit(),
    ensures
        final(cell).store() == old(cell).store(),
        final(cell).released() == old(cell).released(),
        final(cell).last() == old(cell).last(),
        final(cell).last_claims() == old(cell).last_claims(),
        guard.is_some() == store_has(old(cell).store(), entity, column::<C>()),
        guard matches Some(guard) ==> {
            &&& guard.store() == old(cell).store()
            &&& guard.seen() == store_components(old(cell).store())[(entity, column::<C>())]
        },
        final(cell).open() == if guard.is_some() {
            old(cell).open().push(Claim::shared(column::<C>()))
        } else {
            old(cell).open()
        },
    no_unwind
{
    match cell.store.inner.get::<&C>(entity) {
        Ok(guard) => Some(
            ResourceGuard {
                guard,
                seen: Ghost(store_components(*cell.store)[(entity, column::<C>())]),
                store: Ghost(*cell.store),
            },
        ),
        Err(_) => None,
    }
}

/// `hecs::World::get` with `&mut C`: a unique borrow of the `C` of `entity`,
/// where it is alive and has one. The store panics where that column is
/// borrowed already. No unique borrow of the column was opened before, so
/// that the component is as it was lent; and none can be opened after, so
/// that what this guard leaves is what the store holds when it comes back.
#[verifier::external_body]
pub(crate) fn cell_get_mut<'w, C: Component>(
    cell: &mut StoreCell<'w>,
    entity: hecs::Entity,
) -> (guard: Option<ResourceGuardMut<'w, C>>)
    requires
        store_marks(old(cell).store(), entity),
        admits(old(cell).open(), Claim::exclusive(column::<C>())),
    ensures
        final(cell).store() == old(cell).store(),
        final(cell).released() == old(cell).released(),
        final(cell).last() == old(cell).last(),
        final(cell).last_claims() == old(cell).last_claims(),
        guard.is_some() == store_has(old(cell).store(), entity, column::<C>()),
        guard matches Some(guard) ==> {
            &&& guard.store() == old(cell).store()
            &&& guard.seen() == store_components(old(cell).store())[(entity, column::<C>())]
            &&& guard.left() == old(cell).last()[(entity, column::<C>())]
            &&& !guard.spent()
        },
        final(cell).open() == if guard.is_some() {
            old(cell).open().push(Claim::exclusive(column::<C>()))
        } else {
            old(cell).open()
        },
    no_unwind
{
    match cell.store.inner.get::<&mut C>(entity) {
        Ok(guard) => Some(
            ResourceGuardMut {
                guard,
                seen: Ghost(store_components(*cell.store)[(entity, column::<C>())]),
                left: Ghost(cell.last@[(entity, column::<C>())]),
                spent: Ghost(false),
                store: Ghost(*cell.store),
            },
        ),
        Err(_) => None,
    }
}

/// `Deref::deref` of `hecs::Ref`: the component that the guard keeps
/// borrowed. Nothing has written to it since the guard was opened.
#[verifier::external_body]
pub(crate) fn guard_value<'g, 'w, C: Component>(guard: &'g ResourceGuard<'w, C>) -> (value: &'g C)
    ensures
        value.seen() == guard.seen(),
{
    &*guard.guard
}

/// `DerefMut::deref_mut` of `hecs::RefMut`: the component that the guard
/// keeps borrowed, to be written. The guard lends it once, so that nothing
/// writes to it after the borrower: what the borrower leaves is what the guard
/// leaves when it ends.
#[verifier::external_body]
pub(crate) fn guard_value_mut<'g, 'w, C: Component>(
    guard: &'g mut ResourceGuardMut<'w, C>,
) -> (value: &'g mut C)
    requires
        !old(guard).spent(),
    ensures
        value.seen() == old(guard).seen(),
        final(value).seen() == old(guard).left(),
        final(guard).seen() == final(value).seen(),
        final(guard).left() == old(guard).left(),
        final(guard).store() == old(guard).store(),
        final(guard).spent(),
{
    &mut *guard.guard
}

/// `Drop::drop` of `hecs::Ref`: the shared borrow ends, and the store takes
/// it off its record. The cell that opened the guard counts it as given up.
#[verifier::external_body]
pub(crate) fn cell_release<'w, C: Component>(cell: &mut StoreCell<'w>, guard: ResourceGuard<'w, C>)
    requires
        guard.store() == old(cell).store(),
    ensures
        final(cell).store() == old(cell).store(),
        final(cell).open() == old(cell).open(),
        final(cell).released() == old(cell).released() + 1,
        final(cell).last() == old(cell).last(),
        final(cell).last_claims() == old(cell).last_claims(),
    no_unwind
{
    drop(guard.guard);
}

/// `Drop::drop` of `hecs::RefMut`: the unique borrow ends, and the store
/// takes it off its record and holds the component as the guard held it
/// last. The cell that opened the guard counts it as given up.
#[verifier::external_body]
pub(crate) fn cell_release_mut<'w, C: Component>(
    cell: &mut StoreCell<'w>,
    guard: ResourceGuardMut<'w, C>,
) -> (seen: Ghost<Seq<int>>)
    requires
        guard.store() == old(cell).store(),
    ensures
        seen@ == guard.seen(),
        seen@ == guard.left(),
        final(cell).store() == old(cell).store(),
        final(cell).open() == old(cell).open(),
        final(cell).released() == old(cell).released() + 1,
        final(cell).last() == old(cell).last(),
        final(cell).last_claims() == old(cell).last_claims(),
    no_unwind
{
    let ResourceGuardMut { guard, seen, left: _, spent: _, store: _ } = guard;
    drop(guard);
    seen
}

/// A `hecs::PreparedQuery` for `&T` without the mark of the resource entity:
/// it finds the entities that have a `T`, but for the resource entity, and
/// keeps between its uses what it has learnt of the store.
#[verifier::external_body]
#[verifier::reject_recursive_types(T)]
pub struct StoreQuery<T: Send + Sync + 'static> {
    inner: hecs::PreparedQuery<hecs::Without<&'static T, &'static ResourceComponent>>,
}

/// A `hecs::PreparedQueryBorrow` of a [`StoreQuery`]: the shared borrow of the
/// `T` of every entity that the query finds. It ends when the value is
/// dropped.
#[verifier::external_body]
#[verifier::reject_recursive_types(T)]
pub struct StoreBorrow<'q, T: Send + Sync + 'static> {
    inner: hecs::PreparedQueryBorrow<'q, hecs::Without<&'static T, &'static ResourceComponent>>,
}

/// A `hecs::PreparedQueryIter` of a [`StoreQuery`]: walks the entities of a
/// borrow.
#[verifier::external_body]
#[verifier::reject_recursive_types(T)]
pub struct StoreIter<'q, T: Send + Sync + 'static> {
    inner: hecs::PreparedQueryIter<'q, hecs::Without<&'static T, &'static ResourceComponent>>,
}

/// A `hecs::PreparedView` of a [`StoreQuery`]: looks the entities of a borrow
/// up.
#[verifier::external_body]
#[verifier::reject_recursive_types(T)]
pub struct StoreView<'q, T: Send + Sync + 'static> {
    inner: hecs::PreparedView<'q, hecs::Without<&'static T, &'static ResourceComponent>>,
}

/// The open guard of a query: the shared borrow of the `T` of every entity
/// that the query finds, with the store that they are borrowed from.
#[verifier::reject_recursive_types(T)]
pub struct QueryGuard<'a, T: Component> {
    borrow: StoreBorrow<'a, T>,
    store: Ghost<Store>,
}

impl<'a, T: Component> QueryGuard<'a, T> {
    /// The store that the guard borrows from, as it was lent.
    pub closed spec fn store(&self) -> Store {
        self.store@
    }
}

/// The entities that have a `T`, but for the resource entity, to be taken one
/// after the other, each with its `T`.
#[verifier::reject_recursive_types(T)]
pub struct QueryIter<'q, T: Component> {
    iter: StoreIter<'q, T>,
    store: Ghost<Store>,
    taken: Ghost<Set<hecs::Entity>>,
}

impl<'q, T: Component> QueryIter<'q, T> {
    /// The store that is walked, as it was lent.
    pub closed spec fn store(&self) -> Store {
        self.store@
    }

    /// The entities that have been taken.
    pub closed spec fn taken(&self) -> Set<hecs::Entity> {
        self.taken@
    }
}

/// The `T` of every entity that has one, but for the resource entity, to be
/// looked up by entity.
#[verifier::reject_recursive_types(T)]
pub struct View<'q, T: Component> {
    view: StoreView<'q, T>,
    store: Ghost<Store>,
}

impl<'q, T: Component> View<'q, T> {
    /// The store that the components are in, as it was lent.
    pub closed spec fn store(&self) -> Store {
        self.store@
    }
}

/// `hecs::PreparedQuery::new`: a query that has not seen a store yet.
#[verifier::external_body]
pub(crate) fn query_new<T: Component>() -> (query: StoreQuery<T>) {
    StoreQuery { inner: hecs::PreparedQuery::new() }
}

/// `hecs::PreparedQuery::query`: borrows the `T` of every entity that the
/// query finds, shared. The store panics where one of those columns is
/// borrowed uniquely, or shared more often than it can count. The entities
/// that the query finds carry no mark, and a unique borrow is opened on a
/// marked entity only: the components are as they were lent.
#[verifier::external_body]
pub(crate) fn cell_query<'a, T: Component>(
    cell: &mut StoreCell<'a>,
    query: &'a mut StoreQuery<T>,
) -> (guard: QueryGuard<'a, T>)
    requires
        admits(old(cell).open(), Claim::column(column::<T>())),
        old(cell).open().len() < claim_limit(),
    ensures
        guard.store() == old(cell).store(),
        final(cell).store() == old(cell).store(),
        final(cell).released() == old(cell).released(),
        final(cell).last() == old(cell).last(),
        final(cell).last_claims() == old(cell).last_claims(),
        final(cell).open() == old(cell).open().push(Claim::column(column::<T>())),
    no_unwind
{
    QueryGuard {
        borrow: StoreBorrow { inner: query.inner.query(&cell.store.inner) },
        store: Ghost(*cell.store),
    }
}

/// `Drop::drop` of `hecs::PreparedQueryBorrow`: the shared borrow of the
/// columns ends, and the store takes it off its record. The cell that opened
/// the guard counts it as given up.
#[verifier::external_body]
pub(crate) fn cell_release_query<'a, T: Component>(cell: &mut StoreCell<'a>, guard: QueryGuard<'a, T>)
    requires
        guard.store() == old(cell).store(),
    ensures
        final(cell).store() == old(cell).store(),
        final(cell).open() == old(cell).open(),
        final(cell).released() == old(cell).released() + 1,
        final(cell).last() == old(cell).last(),
        final(cell).last_claims() == old(cell).last_claims(),
    no_unwind
{
    drop(guard.borrow.inner);
}

/// `hecs::PreparedQueryBorrow::iter`: a walk over the entities of the borrow,
/// from the first.
#[verifier::external_body]
pub(crate) fn borrow_iter<'g, 'q, T: Component>(guard: &'g mut QueryGuard<'q, T>) -> (iter:
    QueryIter<'g, T>)
    ensures
        iter.store() == old(guard).store(),
        iter.taken() == Set::<hecs::Entity>::empty(),
        final(guard).store() == old(guard).store(),
{
    QueryIter {
        iter: StoreIter { inner: guard.borrow.inner.iter() },
        store: guard.store,
        taken: Ghost(Set::empty()),
    }
}

/// `Iterator::next` of `hecs::PreparedQueryIter`: the next entity of the walk
/// with its `T`, if one is left. The walk comes to every entity once that the
/// query finds in the store.
#[verifier::external_body]
pub(crate) fn iter_next<'q, T: Component>(iter: &mut QueryIter<'q, T>) -> (found: Option<
    (hecs::Entity, &'q T),
>)
    ensures
        final(iter).store() == old(iter).store(),
        match found {
            Some((entity, value)) => {
                &&& store_finds(old(iter).store(), entity, column::<T>())
                &&& value.seen() == store_components(old(iter).store())[(entity, column::<T>())]
                &&& !old(iter).taken().contains(entity)
                &&& final(iter).taken() == old(iter).taken().insert(entity)
            },
            None => {
                &&& final(iter).taken() == old(iter).taken()
                &&& forall|entity: hecs::Entity| #[trigger]
                    store_finds(old(iter).store(), entity, column::<T>()) ==> old(
                        iter,
                    ).taken().contains(entity)
            },
        },
{
    iter.iter.inner.next()
}

/// `hecs::PreparedQueryBorrow::view`: the entities of the borrow, to be looked
/// up.
#[verifier::external_body]
pub(crate) fn borrow_view<'g, 'q, T: Component>(guard: &'g mut QueryGuard<'q, T>) -> (view: View<
    'g,
    T,
>)
    ensures
        view.store() == old(guard).store(),
        final(guard).store() == old(guard).store(),
{
    View { view: StoreView { inner: guard.borrow.inner.view() }, store: guard.store }
}

/// `hecs::PreparedView::get`: the `T` of `entity`, if the query finds the
/// entity in the store.
#[verifier::external_body]
pub(crate) fn view_get<'s, 'q, T: Component>(view: &'s View<'q, T>, entity: hecs::Entity) -> (found:
    Option<&'s T>)
    ensures
        found.is_some() == store_finds(view.store(), entity, column::<T>()),
        found matches Some(value) ==> value.seen() == store_components(view.store())[(
            entity,
            column::<T>(),
        )],
{
    view.view.inner.get(entity)
}

} // verus!
