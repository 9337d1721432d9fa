//! Systems: functions that run on a world.

use crate::claim::{admits_all, holds_uniquely, Claim};
use crate::store::Column;
use crate::system::systeminput::SystemInput;
use crate::world::World;
use crate::ChangeTick;
use vstd::prelude::*;

pub mod exclusivefunctionsystem;
pub mod exclusivesystemparam;
pub mod functionsystem;
pub mod query;
pub mod systeminput;
pub mod systemmeta;
pub mod systemparam;

verus! {

/// The value that is handed to a run of the system `S`.
pub type SystemIn<'a, S> = <<S as System>::In as SystemInput>::Inner<'a>;

/// A function together with what it keeps from one run to the next.
///
/// A system is first uninitialized, then, for good, initialized. It runs one
/// run at a time, from beginning to end.
pub trait System: Sized {
    /// The system's input.
    type In: SystemInput;

    /// The system's output.
    type Out;

    /// What the system runs.
    type Function;

    /// What the system runs: it stays the same as long as the system lives.
    spec fn function(&self) -> Self::Function;

    /// Whether the system has been initialized.
    spec fn initialized(&self) -> bool;

    /// The tick of the last run, 0 before the first.
    spec fn last_run(&self) -> ChangeTick;

    /// Whether the function takes the whole world.
    spec fn exclusive() -> bool;

    /// The claims that a run opens on the store, in their order.
    spec fn claims() -> Seq<Claim>;

    /// Whether a run leaves a guard on the system's books, which
    /// `apply_deferred` closes.
    spec fn guarded() -> bool;

    /// Whether `initialize` and `apply_deferred` leave the world as it is.
    spec fn still() -> bool;

    /// Whether the system keeps changes back for `apply_deferred`.
    spec fn deferred(&self) -> bool;

    /// Whether no guard is on the system's books: it was initialized and did
    /// not run since, or `apply_deferred` came after its last run.
    spec fn idle(&self) -> bool;

    /// Whether the function may be called with `input` and what it is lent of
    /// `world`, or with `world` itself where it takes the whole world.
    spec fn accepts(&self, input: SystemIn<'_, Self>, world: World) -> bool;

    /// Whether the function may return `out` for `input` and what it is lent
    /// of the world that `world` refers to, leaving the world as `left`;
    /// where it takes the whole world, for `input` and `world` itself.
    spec fn yields(
        &self,
        input: SystemIn<'_, Self>,
        world: &mut World,
        left: World,
        out: Self::Out,
    ) -> bool;

    /// Returns true if the system must be run exclusively.
    fn is_exclusive(&self) -> (exclusive: bool)
        ensures
            exclusive == Self::exclusive(),
    ;

    /// Returns true if the system keeps changes back for `apply_deferred`.
    fn has_deferred(&self) -> (deferred: bool)
        ensures
            deferred == self.deferred(),
    ;

    /// Runs the initialized system once: counts the tick up, lends the
    /// function what it asks for, or hands it the world, calls it, and
    /// records the tick.
    ///
    /// A function that is lent of the world leaves it with the entities, the
    /// components and the claims that it had, each component as it was but
    /// for the resources that the function borrows uniquely: those are as the
    /// function left them. A function that takes the whole world leaves it as
    /// it likes.
    fn run_unchecked(&mut self, input: SystemIn<'_, Self>, world: &mut World) -> (out: Self::Out)
        requires
            old(self).initialized(),
            old(self).idle(),
            old(world).change_tick() < ChangeTick::MAX,
            old(world).provides(Self::claims()),
            admits_all(old(world).claims(), Self::claims()),
            forall|lent: World|
                lent.ticks(*old(world)) ==> #[trigger] old(self).accepts(input, lent),
        ensures
            exists|lent: &mut World|
                {
                    &&& lent.ticks(*old(world))
                    &&& Self::exclusive() ==> *final(lent) == *final(world)
                    &&& #[trigger] old(self).yields(input, lent, *final(world), out)
                },
            forall|input: SystemIn<'_, Self>, world: World| #[trigger]
                final(self).accepts(input, world) == old(self).accepts(input, world),
            forall|input: SystemIn<'_, Self>, world: &mut World, left: World, out: Self::Out|
                #[trigger] final(self).yields(input, world, left, out) == old(self).yields(
                    input,
                    world,
                    left,
                    out,
                ),
            final(self).function() == old(self).function(),
            final(self).initialized(),
            final(self).idle() == !Self::guarded(),
            final(self).deferred() == old(self).deferred(),
            final(self).last_run() == old(world).change_tick() + 1,
            !Self::exclusive() ==> {
                &&& final(world).change_tick() == old(world).change_tick() + 1
                &&& final(world).entities() == old(world).entities()
                &&& final(world).components().dom() == old(world).components().dom()
                &&& final(world).follows(*old(world), Self::claims())
            },
    ;

    /// Runs the system once, after initializing it if that has not been done,
    /// and carries out what the run kept back. The function is lent of the
    /// world, or handed the world, as the initializing leaves it, and the
    /// world is in the end as the function left it and as what was kept back
    /// changed it; where initializing and carrying out leave the world as it
    /// is, those are the given world and what the function left.
    ///
    /// A run is what `initialize`, where the system was not initialized,
    /// `run_unchecked` and `apply_deferred` make in turn, for every kind of
    /// system: the last clause says so, of the system `made` on the world
    /// `ready`, the system `closing` on the world `ran`, and the system and
    /// the world as they are left.
    fn run(&mut self, input: SystemIn<'_, Self>, world: &mut World) -> (out: Self::Out)
        requires
            old(self).initialized() ==> old(self).idle(),
            old(world).change_tick() < ChangeTick::MAX,
            old(world).provides(Self::claims()),
            admits_all(old(world).claims(), Self::claims()),
            forall|lent: World|
                lent.succeeds(*old(world)) && (old(self).initialized() || Self::still()
                    ==> lent.ticks(*old(world))) ==> #[trigger] old(self).accepts(input, lent),
        ensures
            exists|lent: &mut World, left: World|
                {
                    &&& lent.succeeds(*old(world))
                    &&& old(self).initialized() || Self::still() ==> lent.ticks(*old(world))
                    &&& Self::exclusive() ==> *final(lent) == left
                    &&& final(world).extends(left)
                    &&& Self::exclusive() || Self::still() ==> *final(world) == left
                    &&& #[trigger] old(self).yields(input, lent, left, out)
                },
            forall|input: SystemIn<'_, Self>, world: World| #[trigger]
                final(self).accepts(input, world) == old(self).accepts(input, world),
            forall|input: SystemIn<'_, Self>, world: &mut World, left: World, out: Self::Out|
                #[trigger] final(self).yields(input, world, left, out) == old(self).yields(
                    input,
                    world,
                    left,
                    out,
                ),
            final(self).function() == old(self).function(),
            final(self).initialized(),
            final(self).idle(),
            final(self).last_run() == old(world).change_tick() + 1,
            !Self::exclusive() ==> {
                &&& final(world).change_tick() == old(world).change_tick() + 1
                &&& final(world).follows(*old(world), Self::claims())
            },
            exists|made: Self, ready: World, closing: Self, ran: World, lent: &mut World|
                {
                    &&& made.function() == old(self).function()
                    &&& made.initialized()
                    &&& made.idle()
                    &&& if old(self).initialized() {
                        made == *old(self) && ready == *old(world)
                    } else {
                        &&& made.last_run() == 0
                        &&& ready.extends(*old(world))
                        &&& Self::still() ==> ready == *old(world)
                    }
                    &&& #[trigger] lent.ticks(ready)
                    &&& Self::exclusive() ==> *final(lent) == ran
                    &&& #[trigger] made.yields(input, lent, ran, out)
                    &&& closing.function() == made.function()
                    &&& #[trigger] closing.initialized()
                    &&& closing.idle() == !Self::guarded()
                    &&& closing.deferred() == made.deferred()
                    &&& closing.last_run() == ready.change_tick() + 1
                    &&& !Self::exclusive() ==> {
                        &&& ran.change_tick() == ready.change_tick() + 1
                        &&& ran.entities() == ready.entities()
                        &&& ran.components().dom() == ready.components().dom()
                        &&& ran.follows(ready, Self::claims())
                    }
                    &&& final(self).initialized()
                    &&& final(self).idle()
                    &&& final(self).function() == closing.function()
                    &&& final(self).last_run() == closing.last_run()
                    &&& final(self).deferred() == closing.deferred()
                    &&& final(world).extends(ran)
                    &&& Self::exclusive() || Self::still() || closing.idle() ==> *final(world) == ran
                    &&& Self::exclusive() || closing.idle() ==> *final(self) == closing
                },
    {
        let ghost before = *world;
        let ghost system = *self;
        if !self.is_initialized(world) {
            self.initialize(world);
        }
        let ghost ready = *world;
        let ghost made = *self;
        proof {
            ready.lemma_extends_provides(before, Self::claims());
            assert forall|lent: World| lent.ticks(ready) implies #[trigger] made.accepts(
                input,
                lent,
            ) by {
                assert(lent.succeeds(before));
                assert(system.accepts(input, lent));
            }
        }
        let rv = self.run_unchecked(input, world);
        let ghost ran = *world;
        let ghost closing = *self;
        self.apply_deferred(world);
        proof {
            let lent = choose|lent: &mut World|
                {
                    &&& lent.ticks(ready)
                    &&& Self::exclusive() ==> *final(lent) == ran
                    &&& #[trigger] made.yields(input, lent, ran, rv)
                };
            assert(lent.succeeds(before));
            assert(system.yields(input, lent, ran, rv));
            assert(made.yields(input, lent, ran, rv));
            assert(lent.ticks(ready));
            assert(closing.initialized());
            if !Self::exclusive() {
                assert(ready.extends(before));
                assert(ran.follows(ready, Self::claims()));
                assert(world.extends(ran));
                assert(world.resources() == before.resources());
                assert forall|entity: hecs::Entity|
                    before.entities().contains(entity) implies world.entities().contains(
                    entity,
                ) by {
                    assert(ready.entities().contains(entity));
                    assert(ran.entities().contains(entity));
                }
                assert forall|key: (hecs::Entity, Column)|
                    before.components().dom().contains(key) implies world.components().dom().contains(
                    key,
                ) by {
                    assert(ready.components().dom().contains(key));
                    assert(ran.components().dom().contains(key));
                }
                assert(world.follows(before, Self::claims())) by {
                    assert forall|key: (hecs::Entity, Column)|
                        before.components().dom().contains(key) && !(world.marks(key.0)
                            && holds_uniquely(Self::claims(), key.1)) implies #[trigger] world.components()[key]
                        == before.components()[key] by {
                        assert(ran.marks(key.0) ==> world.marks(key.0));
                        assert(ready.extends(before));
                        assert(ran.follows(ready, Self::claims()));
                        assert(world.extends(ran));
                        assert(ready.components().dom().contains(key));
                        assert(ready.components()[key] == before.components()[key]);
                        assert(ran.components().dom().contains(key));
                        assert(ran.components()[key] == ready.components()[key]);
                        assert(world.components().dom().contains(key));
                        assert(world.components()[key] == ran.components()[key]);
                    }
                }
            }
        }
        rv
    }

    /// Carries out what the last run kept back, and closes the books on what
    /// it borrowed. Changes nothing where no guard is on the books; a system
    /// that keeps no books may not have been initialized.
    fn apply_deferred(&mut self, world: &mut World)
        requires
            Self::exclusive() || old(self).initialized(),
        ensures
            forall|input: SystemIn<'_, Self>, world: World| #[trigger]
                final(self).accepts(input, world) == old(self).accepts(input, world),
            forall|input: SystemIn<'_, Self>, world: &mut World, left: World, out: Self::Out|
                #[trigger] final(self).yields(input, world, left, out) == old(self).yields(
                    input,
                    world,
                    left,
                    out,
                ),
            final(self).function() == old(self).function(),
            final(self).initialized() == old(self).initialized(),
            final(self).initialized() ==> final(self).idle(),
            final(self).last_run() == old(self).last_run(),
            final(self).deferred() == old(self).deferred(),
            final(world).extends(*old(world)),
            Self::exclusive() || Self::still() || old(self).idle() ==> *final(world) == *old(world),
            Self::exclusive() || old(self).idle() ==> *final(self) == *old(self),
    ;

    /// Initializes the system for `world`.
    fn initialize(&mut self, world: &mut World)
        ensures
            forall|input: SystemIn<'_, Self>, world: World| #[trigger]
                final(self).accepts(input, world) == old(self).accepts(input, world),
            forall|input: SystemIn<'_, Self>, world: &mut World, left: World, out: Self::Out|
                #[trigger] final(self).yields(input, world, left, out) == old(self).yields(
                    input,
                    world,
                    left,
                    out,
                ),
            final(self).function() == old(self).function(),
            final(self).initialized(),
            final(self).idle(),
            final(self).last_run() == 0,
            final(world).extends(*old(world)),
            Self::still() ==> *final(world) == *old(world),
    ;

    /// Whether the system has been initialized.
    fn is_initialized(&mut self, world: &mut World) -> (initialized: bool)
        ensures
            initialized == old(self).initialized(),
            *final(self) == *old(self),
            *final(world) == *old(world),
    ;
}

/// After a run that is lent of the world, the world provides for the next
/// run what it provided for before: a system that has run can run again, and
/// so can every other that could.
pub proof fn lemma_run_again(before: World, after: World, held: Seq<Claim>, claims: Seq<Claim>)
    requires
        after.follows(before, held),
        before.provides(claims),
    ensures
        after.provides(claims),
{
}

/// A run that is lent of the world leaves a resource that it does not borrow
/// uniquely as it was: the next run, of this system or another, reads what
/// the run before it read.
pub proof fn lemma_run_keeps_resource(
    before: World,
    after: World,
    held: Seq<Claim>,
    column: Column,
)
    requires
        after.follows(before, held),
        !holds_uniquely(held, column),
        before.has_resource(column),
    ensures
        after.has_resource(column),
        after.resource_seen(column) == before.resource_seen(column),
{
    assert(before.components().dom().contains((before.resources(), column)));
}

/// A run that is lent of the world leaves the components of every entity
/// without a mark as they were, whatever it borrows: the resources are all
/// that it can write to.
pub proof fn lemma_run_keeps_components(
    before: World,
    after: World,
    held: Seq<Claim>,
    entity: hecs::Entity,
    column: Column,
)
    requires
        after.follows(before, held),
        !after.marks(entity),
        before.components().dom().contains((entity, column)),
    ensures
        after.components().dom().contains((entity, column)),
        after.components()[(entity, column)] == before.components()[(entity, column)],
{
}

/// What can be made into a system.
pub trait IntoSystem<In: SystemInput, Out, Marker>: Sized {
    /// The type of the system that `Self` is made into.
    type System: System<In = In, Out = Out>;

    /// Makes `this` into a system.
    fn into_system(this: Self) -> Self::System;
}

impl<T: System> IntoSystem<T::In, T::Out, ()> for T {
    type System = T;

    fn into_system(this: Self) -> (system: Self)
        ensures
            system == this,
    {
        this
    }
}

} // verus!
