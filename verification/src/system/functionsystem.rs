//! Systems made of a function whose arguments are borrowed from the world.

use crate::claim::{admits_all, clash, holds_uniquely, Claim};
use crate::store::Components;
use crate::system::functionsystem::systemparamfunction::SystemParamFunction;
use crate::system::systemmeta::SystemMeta;
use crate::system::systemparam::SystemParam;
use crate::system::{IntoSystem, System, SystemIn};
use crate::world::World;
use crate::ChangeTick;
use core::marker::PhantomData;
use vstd::prelude::*;

pub mod systemparamfunction;

verus! {

/// The system made of the function `func`: before each call it borrows the
/// function's arguments from the world.
pub struct FunctionSystem<Marker, F> where F: SystemParamFunction<Marker> {
    pub(crate) func: F,
    pub(crate) param_state: Option<<F::Param as SystemParam>::State>,
    pub(crate) system_meta: SystemMeta,
    marker: PhantomData<Marker>,
}

/// What a system says that runs before it was initialized.
const PARAM_MESSAGE: &'static str =
    "System's param_state was not found. Did you forget to initialize this system before running it?";

/// Tells the systems made of such functions apart from the others.
pub struct IsFunctionSystem;

impl<Marker, F> System for FunctionSystem<Marker, F> where F: SystemParamFunction<Marker> {
    type In = F::In;

    type Out = F::Out;

    type Function = F;

    closed spec fn function(&self) -> F {
        self.func
    }

    closed spec fn initialized(&self) -> bool {
        self.param_state.is_some()
    }

    closed spec fn last_run(&self) -> ChangeTick {
        self.system_meta.last_run
    }

    open spec fn exclusive() -> bool {
        false
    }

    open spec fn claims() -> Seq<Claim> {
        F::Param::claims()
    }

    open spec fn guarded() -> bool {
        F::Param::guarded()
    }

    open spec fn still() -> bool {
        F::Param::still()
    }

    closed spec fn deferred(&self) -> bool {
        self.system_meta.has_deferred
    }

    closed spec fn idle(&self) -> bool {
        self.param_state matches Some(state) && !F::Param::locked(&state)
    }

    open spec fn accepts(&self, input: SystemIn<'_, Self>, world: World) -> bool {
        forall|last: Components| #[trigger]
            self.function().accepts(input, world.store(), world.resources(), last)
    }

    open spec fn yields(
        &self,
        input: SystemIn<'_, Self>,
        world: &mut World,
        left: World,
        out: Self::Out,
    ) -> bool {
        self.function().yields(input, world.store(), world.resources(), left.components(), out)
    }

    #[inline]
    fn is_exclusive(&self) -> (exclusive: bool) {
        false
    }

    #[inline]
    fn has_deferred(&self) -> (deferred: bool) {
        self.system_meta.has_deferred
    }

    #[inline]
    fn run_unchecked(&mut self, input: SystemIn<'_, Self>, world: &mut World) -> (out: Self::Out) {
        let change_tick = world.increment_change_tick();
        let ghost ticked = *world;
        let ghost lent = world;
        proof {
            assert(ticked.ticks(*old(world)));
            assert(old(self).accepts(input, ticked));
        }
        let out = {
            let mut cell = world.cell();
            let param_state = self.param_state.as_mut().expect(PARAM_MESSAGE);
            let guards = F::Param::get_param(
                param_state,
                &self.system_meta,
                &mut cell,
                change_tick,
            );
            let ghost last = cell.last();
            assert(cell.opened() == F::Param::claims());
            assert(old(self).function().accepts(input, ticked.store(), ticked.resources(), last));
            let out = self.func.run(input, guards, &mut cell);
            assert(cell.settled());
            let _ = cell.close();
            out
        };
        self.system_meta.last_run = change_tick;
        proof {
            assert(self.function() == old(self).function());
            assert(old(self).yields(input, lent, *world, out));
            assert(Self::guarded() == F::Param::guarded());
            assert(self.deferred() == old(self).deferred());
        }
        out
    }

    #[inline]
    fn apply_deferred(&mut self, world: &mut World) {
        let param_state = self.param_state.as_mut().expect(PARAM_MESSAGE);
        F::Param::apply(param_state, &self.system_meta, world);
        assert(self.function() == old(self).function());
        assert(self.deferred() == old(self).deferred());
    }

    #[inline]
    fn initialize(&mut self, world: &mut World) {
        self.param_state = Some(F::Param::init_state(world, &mut self.system_meta));
        self.system_meta.last_run = 0;
        assert(self.function() == old(self).function());
    }

    fn is_initialized(&mut self, world: &mut World) -> (initialized: bool) {
        self.param_state.is_some()
    }
}

impl<Marker, F> IntoSystem<F::In, F::Out, (IsFunctionSystem, Marker)> for F where
    F: SystemParamFunction<Marker>,
 {
    type System = FunctionSystem<Marker, F>;

    fn into_system(func: Self) -> (system: Self::System)
        ensures
            !system.initialized(),
            system.last_run() == 0,
            !system.deferred(),
            system.function() == func,
    {
        FunctionSystem {
            func,
            param_state: None,
            system_meta: SystemMeta::default(),
            marker: PhantomData,
        }
    }
}

/// A system of which two claims clash never meets what `run` and
/// `run_unchecked` ask for, whatever is open on the world: it cannot run.
pub proof fn lemma_clashing_claims_cannot_run<Marker, F: SystemParamFunction<Marker>>(
    open: Seq<Claim>,
    i: int,
    j: int,
)
    requires
        0 <= i < j < F::Param::claims().len(),
        clash(F::Param::claims()[i], F::Param::claims()[j]),
    ensures
        !admits_all(open, <FunctionSystem<Marker, F> as System>::claims()),
{
}

} // verus!
