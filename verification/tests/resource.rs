use hecs_systems::store::Component;
use hecs_systems::system::systeminput::In;
use hecs_systems::system::{IntoSystem, System};
use hecs_systems::World;

struct R1(u8);

impl Component for R1 {
    const KEY: u64 = 1;
}

struct R2(u32);

impl Component for R2 {
    const KEY: u64 = 2;
}

fn get_r1(r1: &R1) -> u8 {
    r1.0
}

#[allow(clippy::needless_pass_by_value)]
fn set_r1(v: In<u8>, r1: &mut R1) {
    r1.0 = v.0
}

fn add_to_r1(r1: &mut R1) -> u8 {
    r1.0 += 1;
    r1.0
}

fn copy_r1_to_r2(r1: &R1, r2: &mut R2) {
    r2.0 = u32::from(r1.0);
}

#[test]
fn resource_reference() {
    let mut w = World::new();
    w.insert_resource(R1(7));
    let mut s1 = IntoSystem::into_system(get_r1);
    let rv = s1.run((), &mut w);
    assert_eq!(rv, 7);
}

#[test]
fn run_twice() {
    let mut w = World::new();
    w.insert_resource(R1(7));
    let mut s1 = IntoSystem::into_system(get_r1);
    let rv = s1.run((), &mut w);
    assert_eq!(rv, 7);
    let mut s2 = IntoSystem::into_system(get_r1);
    let _ = s2.run((), &mut w);
}

#[test]
fn resource_mut() {
    let mut w = World::new();
    w.insert_resource(R1(0));
    let mut s1 = IntoSystem::into_system(set_r1);
    s1.run(3, &mut w);
    let r1 = w.get_resource::<R1>();
    assert_eq!(3, r1.0);
}

#[test]
fn second_run_sees_what_the_first_wrote() {
    let mut w = World::new();
    w.insert_resource(R1(4));
    let mut s1 = IntoSystem::into_system(add_to_r1);
    assert_eq!(5, s1.run((), &mut w));
    assert_eq!(6, s1.run((), &mut w));
    assert_eq!(6, w.get_resource::<R1>().0);
}

#[test]
fn other_system_sees_what_the_first_wrote() {
    let mut w = World::new();
    w.insert_resource(R1(0));
    let mut set = IntoSystem::into_system(set_r1);
    let mut get = IntoSystem::into_system(get_r1);
    set.run(9, &mut w);
    assert_eq!(9, get.run((), &mut w));
    set.run(11, &mut w);
    assert_eq!(11, get.run((), &mut w));
}

#[test]
fn shared_and_unique_borrow_of_two_types() {
    let mut w = World::new();
    w.insert_resource(R1(5));
    w.insert_resource(R2(0));
    let mut s = IntoSystem::into_system(copy_r1_to_r2);
    s.run((), &mut w);
    assert_eq!(5, w.get_resource::<R2>().0);
    assert_eq!(5, w.get_resource::<R1>().0);
}
