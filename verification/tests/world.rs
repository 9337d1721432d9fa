use hecs_systems::store::Component;
use hecs_systems::World;

struct R1(u8);

impl Component for R1 {
    const KEY: u64 = 1;
}

struct R2(u32);

impl Component for R2 {
    const KEY: u64 = 2;
}

#[test]
fn new_world_starts_at_tick_one() {
    let w = World::new();
    assert_eq!(1, w.read_change_tick());
    let d = World::default();
    assert_eq!(1, d.read_change_tick());
}

#[test]
fn inserted_resource_is_read_back() {
    let mut w = World::new();
    w.insert_resource(R1(7));
    let r1 = w.get_resource::<R1>();
    assert_eq!(7, r1.0);
}

#[test]
fn world_tells_which_resources_it_has() {
    let mut w = World::new();
    assert!(!w.contains_resource::<R1>());
    w.insert_resource(R1(7));
    assert!(w.contains_resource::<R1>());
    assert!(!w.contains_resource::<R2>());
    let entity = w.spawn(R2(1));
    assert_ne!(entity, w.resource_entity());
    assert!(!w.contains_resource::<R2>());
}

#[test]
fn later_resource_replaces_earlier() {
    let mut w = World::new();
    w.insert_resource(R1(7));
    w.insert_resource(R1(8));
    assert_eq!(8, w.get_resource::<R1>().0);
}

#[test]
fn resources_of_two_types_live_side_by_side() {
    let mut w = World::new();
    w.insert_resource(R1(7));
    w.insert_resource(R2(70_000));
    assert_eq!(7, w.get_resource::<R1>().0);
    assert_eq!(70_000, w.get_resource::<R2>().0);
}

#[test]
fn inserting_leaves_tick_and_resource_entity() {
    let mut w = World::new();
    let entity = w.resource_entity();
    w.insert_resource(R1(7));
    assert_eq!(entity, w.resource_entity());
    assert_eq!(1, w.read_change_tick());
}

#[test]
fn spawned_entities_are_new() {
    let mut w = World::new();
    let a = w.spawn(R1(1));
    let b = w.spawn(R1(2));
    assert_ne!(a, b);
    assert_ne!(a, w.resource_entity());
    assert_ne!(b, w.resource_entity());
}

struct TwinA(u8);

impl Component for TwinA {
    const KEY: u64 = 7;
}

struct TwinB(u8);

impl Component for TwinB {
    const KEY: u64 = 7;
}

#[test]
fn types_of_one_key_are_kept_apart() {
    let mut w = World::new();
    w.insert_resource(TwinA(3));
    assert!(w.contains_resource::<TwinA>());
    assert!(!w.contains_resource::<TwinB>());
    w.insert_resource(TwinB(4));
    assert_eq!(3, w.get_resource::<TwinA>().0);
    assert_eq!(4, w.get_resource::<TwinB>().0);
}

#[test]
fn len_counts_the_resource_entity() {
    let mut w = World::new();
    assert_eq!(1, w.len());
    w.insert_resource(R1(7));
    assert_eq!(1, w.len());
    let _ = w.spawn(R1(1));
    let _ = w.spawn(R2(2));
    assert_eq!(3, w.len());
}

#[test]
fn try_spawn_spawns_where_there_is_room() {
    let mut w = World::new();
    let a = w.try_spawn(R1(1)).unwrap();
    let b = w.try_spawn(R1(2)).unwrap();
    assert_ne!(a, b);
    assert_ne!(a, w.resource_entity());
    assert_eq!(3, w.len());
    assert_eq!(1, w.read_change_tick());
}
