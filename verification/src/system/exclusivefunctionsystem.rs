//! Systems made of a function that takes the whole world.

use crate::claim::Claim;
use crate::system::exclusivefunctionsystem::exclusivesystemparamfunction::ExclusiveSystemParamFunction;
use crate::system::exclusivesystemparam::ExclusiveSystemParam;
use crate::system::systemmeta::SystemMeta;
use crate::system::{IntoSystem, System, SystemIn};
use crate::world::World;
use crate::ChangeTick;
use core::marker::PhantomData;
use vstd::prelude::*;

pub mod exclusivesystemparamfunction;

verus! {

/// The system made of the function `func`, which takes the whole world: it
/// borrows nothing for the function and keeps nothing back. The tick is
/// counted before the function is called, and is afterwards what the function
/// left: a function that runs other systems counts it further.
pub struct ExclusiveFunctionSystem<Marker, F> where F: ExclusiveSystemParamFunction<Marker> {
    func: F,
    param_state: Option<<F::Param as ExclusiveSystemParam>::State>,
    system_meta: SystemMeta,
    marker: PhantomData<Marker>,
}

/// What a system says that runs before it was initialized.
const PARAM_MESSAGE: &'static str =
    "System's param_state was not found. Did you forget to initialize this system before running it?";

/// Tells the systems made of such functions apart from the others.
pub struct IsExclusiveFunctionSystem;

impl<Marker, F> System for ExclusiveFunctionSystem<Marker, F> where
    F: ExclusiveSystemParamFunction<Marker>,
 {
    type In = F::In;

    type Out = F::Out;

    type Function = F;

    closed spec fn function(&self) -> F {
        self.func
    }

    closed spec fn initialized(&self) -> bool {
        self.param_state.is_some()
    }

    closed spec fn last_run(&self) -> ChangeTick {
        self.system_meta.last_run
    }

    open spec fn exclusive() -> bool {
        true
    }

    open spec fn claims() -> Seq<Claim> {
        Seq::empty()
    }

    open spec fn guarded() -> bool {
        false
    }

    open spec fn still() -> bool {
        F::Param::still()
    }

    open spec fn deferred(&self) -> bool {
        false
    }

    closed spec fn idle(&self) -> bool {
        self.param_state.is_some()
    }

    open spec fn accepts(&self, input: SystemIn<'_, Self>, world: World) -> bool {
        self.function().accepts(input, world)
    }

    open spec fn yields(
        &self,
        input: SystemIn<'_, Self>,
        world: &mut World,
        left: World,
        out: Self::Out,
    ) -> bool {
        self.function().yields(input, world, out)
    }

    #[inline]
    fn is_exclusive(&self) -> (exclusive: bool) {
        true
    }

    #[inline]
    fn has_deferred(&self) -> (deferred: bool) {
        false
    }

    fn run_unchecked(&mut self, input: SystemIn<'_, Self>, world: &mut World) -> (out: Self::Out) {
        let change_tick = world.increment_change_tick();
        let ghost ticked = *world;
        proof {
            assert(ticked.ticks(*old(world)));
            assert(old(self).accepts(input, ticked));
        }
        let param_state = self.param_state.as_mut().expect(PARAM_MESSAGE);
        let params = F::Param::get_param(param_state, &self.system_meta);
        let out = self.func.run(world, input, params);
        self.system_meta.last_run = change_tick;
        proof {
            assert(self.func == old(self).func);
            let handed = choose|handed: &mut World|
                {
                    &&& *handed == ticked
                    &&& *final(handed) == *final(world)
                    &&& #[trigger] old(self).func.yields(input, handed, out)
                };
            assert(old(self).yields(input, handed, *world, out));
            assert(!Self::guarded());
            assert(!self.deferred());
            assert(!old(self).deferred());
        }
        out
    }

    #[inline]
    fn apply_deferred(&mut self, _world: &mut World) {
    }

    #[inline]
    fn initialize(&mut self, world: &mut World) {
        self.system_meta.last_run = 0;
        self.param_state = Some(F::Param::init(world, &mut self.system_meta));
        assert(self.func == old(self).func);
    }

    fn is_initialized(&mut self, world: &mut World) -> (initialized: bool) {
        self.param_state.is_some()
    }
}

impl<Marker, F> IntoSystem<F::In, F::Out, (IsExclusiveFunctionSystem, Marker)> for F where
    F: ExclusiveSystemParamFunction<Marker>,
 {
    type System = ExclusiveFunctionSystem<Marker, F>;

    fn into_system(func: Self) -> (system: Self::System)
        ensures
            !system.initialized(),
            system.last_run() == 0,
            system.function() == func,
    {
        ExclusiveFunctionSystem {
            func,
            param_state: None,
            system_meta: SystemMeta::default(),
            marker: PhantomData,
        }
    }
}

} // verus!
