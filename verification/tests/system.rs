use hecs_systems::event::Event;
use hecs_systems::store::Component;
use hecs_systems::system::exclusivefunctionsystem::ExclusiveFunctionSystem;
use hecs_systems::system::functionsystem::systemparamfunction::HasSystemInput;
use hecs_systems::system::functionsystem::FunctionSystem;
use hecs_systems::system::query::view::View;
use hecs_systems::system::query::QueryIter;
use hecs_systems::system::systeminput::{In, SystemInput};
use hecs_systems::system::systemmeta::SystemMeta;
use hecs_systems::system::systemparam::impls::PreparedQuery2;
use hecs_systems::system::{IntoSystem, System};
use hecs_systems::World;

struct R1(u8);

impl Component for R1 {
    const KEY: u64 = 1;
}

struct R2(u32);

impl Component for R2 {
    const KEY: u64 = 2;
}

struct R3(u64);

impl Component for R3 {
    const KEY: u64 = 3;
}

struct C1(u8);

impl Component for C1 {
    const KEY: u64 = 11;
}

struct Hit(u8);

impl Component for Hit {
    const KEY: u64 = 21;
}

impl Event for Hit {}

fn nothing() {}

fn forty_two() -> u8 {
    42
}

fn double(v: In<u8>) -> u16 {
    2 * u16::from(v.0)
}

fn get_r1(r1: &R1) -> u8 {
    r1.0
}

fn sum3(r1: &R1, r2: &R2, r3: &R3) -> u64 {
    u64::from(r1.0) + u64::from(r2.0) + r3.0
}

fn two_readers(a: &R1, b: &R1) -> u8 {
    a.0 + b.0
}

fn scale(v: In<u32>, r1: &R1, r2: &mut R2) -> u32 {
    r2.0 = v.0 * u32::from(r1.0);
    r2.0
}

#[allow(clippy::too_many_arguments)]
fn sixteen(
    a0: &R1,
    a1: &R1,
    a2: &R1,
    a3: &R1,
    a4: &R1,
    a5: &R1,
    a6: &R1,
    a7: &R1,
    a8: &R2,
    a9: &R2,
    a10: &R2,
    a11: &R2,
    a12: &R2,
    a13: &R2,
    a14: &R2,
    a15: &mut R3,
) -> u64 {
    let ones = [a0, a1, a2, a3, a4, a5, a6, a7];
    let twos = [a8, a9, a10, a11, a12, a13, a14];
    for one in ones {
        a15.0 += u64::from(one.0);
    }
    for two in twos {
        a15.0 += u64::from(two.0);
    }
    a15.0
}

fn unit_input(_: (), r1: &R1) -> u8 {
    r1.0
}

fn count_c1(mut q: QueryIter<C1>) -> u32 {
    let mut n = 0;
    let mut total = 0;
    while let Some((_, c)) = q.next() {
        n += 1;
        total += u32::from(c.0);
    }
    100 * n + total
}

fn damage(hit: &Hit, r1: &mut R1) -> u8 {
    r1.0 -= hit.0;
    r1.0
}

fn insert_r2(world: &mut World) {
    world.insert_resource(R2(77));
}

fn insert_r1(v: In<u8>, world: &mut World) -> u8 {
    world.insert_resource(R1(v.0));
    v.0 + 1
}

#[test]
fn run_initializes_the_system() {
    let mut w = World::new();
    w.insert_resource(R1(7));
    let mut s = IntoSystem::into_system(get_r1);
    assert!(!s.is_initialized(&mut w));
    assert_eq!(7, s.run((), &mut w));
    assert!(s.is_initialized(&mut w));
    assert_eq!(7, s.run((), &mut w));
    assert!(s.is_initialized(&mut w));
}

#[test]
fn initialize_then_run_unchecked() {
    let mut w = World::new();
    w.insert_resource(R1(7));
    let mut s = IntoSystem::into_system(get_r1);
    s.initialize(&mut w);
    assert!(s.is_initialized(&mut w));
    assert_eq!(1, w.read_change_tick());
    assert_eq!(7, s.run_unchecked((), &mut w));
    s.apply_deferred(&mut w);
    assert_eq!(2, w.read_change_tick());
    assert_eq!(7, s.run_unchecked((), &mut w));
    s.apply_deferred(&mut w);
    assert_eq!(3, w.read_change_tick());
}

#[test]
fn each_run_counts_one_tick() {
    let mut w = World::new();
    w.insert_resource(R1(1));
    w.insert_resource(R2(2));
    w.insert_resource(R3(3));
    let mut none = IntoSystem::into_system(nothing);
    let mut one = IntoSystem::into_system(get_r1);
    let mut three = IntoSystem::into_system(sum3);
    let mut whole = IntoSystem::into_system(insert_r2);
    assert_eq!(1, w.read_change_tick());
    none.run((), &mut w);
    assert_eq!(2, w.read_change_tick());
    one.run((), &mut w);
    assert_eq!(3, w.read_change_tick());
    assert_eq!(6, three.run((), &mut w));
    assert_eq!(4, w.read_change_tick());
    whole.run((), &mut w);
    assert_eq!(5, w.read_change_tick());
    none.run((), &mut w);
    assert_eq!(6, w.read_change_tick());
}

#[test]
fn function_with_sixteen_arguments() {
    let mut w = World::new();
    w.insert_resource(R1(1));
    w.insert_resource(R2(10));
    w.insert_resource(R3(1000));
    let mut s = IntoSystem::into_system(sixteen);
    assert_eq!(1078, s.run((), &mut w));
    assert_eq!(1078, w.get_resource::<R3>().0);
    assert_eq!(2, w.read_change_tick());
}

#[test]
fn unit_as_input() {
    let mut w = World::new();
    w.insert_resource(R1(3));
    let mut s = IntoSystem::into_system(unit_input);
    assert_eq!(3, s.run((), &mut w));
}

#[test]
fn query_skips_the_resource_entity() {
    let mut w = World::new();
    w.insert_resource(C1(50));
    w.spawn(C1(1));
    let mut s = IntoSystem::into_system(count_c1);
    assert_eq!(101, s.run((), &mut w));
    let resources = w.resource_entity();
    let mut v = IntoSystem::into_system(move |v: View<C1>| v.get(resources).is_some());
    assert!(!v.run((), &mut w));
    assert_eq!(50, w.get_resource::<C1>().0);
}

#[test]
fn function_without_arguments() {
    let mut w = World::new();
    let mut s = IntoSystem::into_system(forty_two);
    assert_eq!(42, s.run((), &mut w));
}

#[test]
fn function_with_input_alone() {
    let mut w = World::new();
    let mut s = IntoSystem::into_system(double);
    assert_eq!(400, s.run(200, &mut w));
    assert_eq!(2, s.run(1, &mut w));
}

#[test]
fn function_with_input_and_two_resources() {
    let mut w = World::new();
    w.insert_resource(R1(6));
    w.insert_resource(R2(0));
    let mut s = IntoSystem::into_system(scale);
    assert_eq!(42, s.run(7, &mut w));
    assert_eq!(42, w.get_resource::<R2>().0);
}

#[test]
fn two_shared_borrows_of_one_resource() {
    let mut w = World::new();
    w.insert_resource(R1(4));
    let mut s = IntoSystem::into_system(two_readers);
    assert_eq!(8, s.run((), &mut w));
}

#[test]
fn closure_as_system() {
    let mut w = World::new();
    w.insert_resource(R1(4));
    let offset = 10u8;
    let mut s = IntoSystem::into_system(move |r1: &R1| r1.0 + offset);
    assert_eq!(14, s.run((), &mut w));
}

#[test]
fn event_as_input() {
    let mut w = World::new();
    w.insert_resource(R1(10));
    let mut s: FunctionSystem<(HasSystemInput, &Hit, (&mut R1,)), _> =
        IntoSystem::into_system(damage);
    assert_eq!(7, s.run(&Hit(3), &mut w));
    assert_eq!(5, s.run(&Hit(2), &mut w));
}

#[test]
fn function_systems_are_not_exclusive() {
    let s = IntoSystem::into_system(get_r1);
    assert!(!s.is_exclusive());
    assert!(!s.has_deferred());
}

#[test]
fn exclusive_system_takes_the_world() {
    let mut w = World::new();
    let mut s = IntoSystem::into_system(insert_r2);
    assert!(s.is_exclusive());
    assert!(!s.has_deferred());
    assert!(!s.is_initialized(&mut w));
    s.run((), &mut w);
    assert!(s.is_initialized(&mut w));
    assert_eq!(77, w.get_resource::<R2>().0);
}

#[test]
fn exclusive_system_with_input() {
    let mut w = World::new();
    let mut s = IntoSystem::into_system(insert_r1);
    assert_eq!(6, s.run(5, &mut w));
    assert_eq!(5, w.get_resource::<R1>().0);
    assert_eq!(2, w.read_change_tick());
}

#[test]
fn a_system_is_made_into_itself() {
    let mut w = World::new();
    w.insert_resource(R1(7));
    let s: FunctionSystem<_, _> = IntoSystem::into_system(get_r1);
    let mut again = IntoSystem::into_system(s);
    assert_eq!(7, again.run((), &mut w));
    let x: ExclusiveFunctionSystem<_, _> = IntoSystem::into_system(insert_r2);
    let mut again = IntoSystem::into_system(x);
    again.run((), &mut w);
    assert_eq!(77, w.get_resource::<R2>().0);
}

#[test]
fn query_walks_every_entity_once() {
    let mut w = World::new();
    w.insert_resource(R1(9));
    let mut s = IntoSystem::into_system(count_c1);
    assert_eq!(0, s.run((), &mut w));
    w.spawn(C1(1));
    w.spawn(C1(2));
    w.spawn(R2(5));
    w.spawn(C1(4));
    assert_eq!(307, s.run((), &mut w));
    assert_eq!(307, s.run((), &mut w));
}

#[test]
fn view_finds_components_by_entity() {
    let mut w = World::new();
    let a = w.spawn(C1(1));
    let b = w.spawn(C1(2));
    let c = w.spawn(R2(5));
    let resources = w.resource_entity();
    let mut s = IntoSystem::into_system(move |v: View<C1>| {
        (
            v.get(a).map(|c1| c1.0),
            v.get(b).map(|c1| c1.0),
            v.get(c).map(|c1| c1.0),
            v.get(resources).map(|c1| c1.0),
        )
    });
    assert_eq!((Some(1), Some(2), None, None), s.run((), &mut w));
}

#[test]
fn input_is_wrapped() {
    assert_eq!(3, <In<u8> as SystemInput>::wrap(3).0);
    <() as SystemInput>::wrap(());
    let hit = Hit(4);
    assert_eq!(4, <&Hit as SystemInput>::wrap(&hit).0);
}

#[test]
fn meta_starts_empty() {
    let meta = SystemMeta::default();
    assert_eq!(0, meta.last_run);
    assert!(!meta.has_deferred);
}

#[test]
fn prepared_query_is_made() {
    let _ = PreparedQuery2::<C1>::new();
    let _ = PreparedQuery2::<C1>::default();
}

fn nested(world: &mut World) -> u8 {
    let mut inner = IntoSystem::into_system(get_r1);
    inner.run((), world)
}

fn tick_seen(world: &mut World) -> u32 {
    world.read_change_tick()
}

fn add_query_to_resource(mut q: QueryIter<C1>, total: &mut C1) -> u8 {
    while let Some((_, c)) = q.next() {
        total.0 += c.0;
    }
    total.0
}

#[test]
fn exclusive_system_counts_the_tick_before_the_function() {
    let mut w = World::new();
    let mut s = IntoSystem::into_system(tick_seen);
    assert_eq!(2, s.run((), &mut w));
    assert_eq!(2, w.read_change_tick());
    assert_eq!(3, s.run((), &mut w));
    assert_eq!(3, w.read_change_tick());
}

#[test]
fn exclusive_system_keeps_the_ticks_of_the_systems_it_runs() {
    let mut w = World::new();
    w.insert_resource(R1(7));
    let mut s = IntoSystem::into_system(nested);
    assert_eq!(7, s.run((), &mut w));
    assert_eq!(3, w.read_change_tick());
}

#[test]
fn exclusive_system_has_nothing_to_apply() {
    let mut w = World::new();
    w.insert_resource(R1(7));
    let mut s = IntoSystem::into_system(insert_r2);
    s.apply_deferred(&mut w);
    assert!(!s.is_initialized(&mut w));
    assert!(!w.contains_resource::<R2>());
    assert_eq!(1, w.read_change_tick());
    s.run((), &mut w);
    s.apply_deferred(&mut w);
    assert_eq!(77, w.get_resource::<R2>().0);
    assert_eq!(7, w.get_resource::<R1>().0);
    assert_eq!(2, w.read_change_tick());
}

#[test]
fn apply_deferred_twice_is_as_once() {
    let mut w = World::new();
    w.insert_resource(R1(7));
    w.insert_resource(R2(1));
    let mut s = IntoSystem::into_system(scale);
    s.initialize(&mut w);
    s.apply_deferred(&mut w);
    assert_eq!(14, s.run_unchecked(2, &mut w));
    s.apply_deferred(&mut w);
    s.apply_deferred(&mut w);
    assert_eq!(14, w.get_resource::<R2>().0);
    assert_eq!(7, w.get_resource::<R1>().0);
    assert_eq!(2, w.read_change_tick());
    assert_eq!(21, s.run(3, &mut w));
}

#[test]
fn run_leaves_what_it_does_not_borrow_uniquely() {
    let mut w = World::new();
    w.insert_resource(R1(7));
    w.insert_resource(R2(1));
    w.insert_resource(R3(9));
    let a = w.spawn(C1(4));
    let mut s = IntoSystem::into_system(scale);
    assert_eq!(35, s.run(5, &mut w));
    assert_eq!(7, w.get_resource::<R1>().0);
    assert_eq!(35, w.get_resource::<R2>().0);
    assert_eq!(9, w.get_resource::<R3>().0);
    assert_eq!(2, w.len());
    let mut count = IntoSystem::into_system(count_c1);
    assert_eq!(104, count.run((), &mut w));
    assert_ne!(a, w.resource_entity());
}

#[test]
fn query_and_unique_resource_of_one_type_in_one_system() {
    let mut w = World::new();
    w.insert_resource(C1(10));
    w.spawn(C1(1));
    w.spawn(C1(2));
    let mut s = IntoSystem::into_system(add_query_to_resource);
    assert_eq!(13, s.run((), &mut w));
    assert_eq!(16, s.run((), &mut w));
    assert_eq!(16, w.get_resource::<C1>().0);
}
