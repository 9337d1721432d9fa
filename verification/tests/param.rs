use hecs_systems::resource::ResourceParamState;
use hecs_systems::store::Component;
use hecs_systems::system::query::view::{View, ViewState};
use hecs_systems::system::query::{QueryGuard, QueryIter, QueryIterState};
use hecs_systems::system::systemmeta::SystemMeta;
use hecs_systems::system::systemparam::{SystemArg, SystemParam};
use hecs_systems::World;

struct R1(u8);

impl Component for R1 {
    const KEY: u64 = 1;
}

struct R2(u32);

impl Component for R2 {
    const KEY: u64 = 2;
}

struct C1(u8);

impl Component for C1 {
    const KEY: u64 = 11;
}

#[test]
fn lock_finds_the_inserted_resource() {
    let mut w = World::new();
    w.insert_resource(R1(5));
    let mut state = ResourceParamState::<R1>::default();
    {
        let mut cell = w.cell();
        let guard = state.lock(&mut cell);
        assert_eq!(5, guard.unwrap().get().0);
    }
    state.unlock();
}

#[test]
fn lock_finds_no_resource_that_was_not_inserted() {
    let mut w = World::new();
    w.insert_resource(R1(5));
    let mut shared = ResourceParamState::<R2>::default();
    let mut unique = ResourceParamState::<R2>::default();
    let mut cell = w.cell();
    assert!(shared.lock(&mut cell).is_none());
    assert!(unique.lock_mut(&mut cell).is_none());
}

#[test]
fn lock_mut_lends_the_resource_for_writing() {
    let mut w = World::new();
    w.insert_resource(R1(5));
    let mut state = ResourceParamState::<R1>::default();
    {
        let mut cell = w.cell();
        let mut guard = state.lock_mut(&mut cell).unwrap();
        guard.get_mut().0 = 6;
    }
    state.unlock();
    assert_eq!(6, w.get_resource::<R1>().0);
}

#[test]
fn two_shared_guards_on_one_resource() {
    let mut w = World::new();
    w.insert_resource(R1(5));
    let mut first = ResourceParamState::<R1>::default();
    let mut second = ResourceParamState::<R1>::default();
    let mut cell = w.cell();
    let a = first.lock(&mut cell).unwrap();
    let b = second.lock(&mut cell).unwrap();
    assert_eq!(10, a.get().0 + b.get().0);
}

#[test]
fn unlock_without_guard_does_nothing() {
    let mut state = ResourceParamState::<R1>::default();
    state.unlock();
    state.unlock();
    let mut w = World::new();
    w.insert_resource(R1(5));
    let mut cell = w.cell();
    assert!(state.lock(&mut cell).is_some());
}

#[test]
fn resource_parameter_by_hand() {
    let mut w = World::new();
    w.insert_resource(R1(5));
    let mut meta = SystemMeta::default();
    let mut state = <&R1 as SystemParam>::init_state(&mut w, &mut meta);
    {
        let mut cell = w.cell();
        let mut guard = <&R1 as SystemParam>::get_param(&mut state, &meta, &mut cell, 2);
        let r1 = <&R1 as SystemArg>::item(&mut guard);
        assert_eq!(5, r1.0);
    }
    <&R1 as SystemParam>::apply(&mut state, &meta, &mut w);
    {
        let mut cell = w.cell();
        let mut guard = <&mut R1 as SystemParam>::get_param(&mut state, &meta, &mut cell, 3);
        let r1 = <&mut R1 as SystemArg>::item(&mut guard);
        r1.0 = 9;
    }
    <&mut R1 as SystemParam>::apply(&mut state, &meta, &mut w);
    assert_eq!(9, w.get_resource::<R1>().0);
    assert_eq!(0, meta.last_run);
    assert_eq!(1, w.read_change_tick());
}

#[test]
fn tuple_of_parameters_by_hand() {
    let mut w = World::new();
    w.insert_resource(R1(5));
    w.insert_resource(R2(50));
    let mut meta = SystemMeta::default();
    let mut state = <(&R1, &mut R2) as SystemParam>::init_state(&mut w, &mut meta);
    {
        let mut cell = w.cell();
        let guards = <(&R1, &mut R2) as SystemParam>::get_param(&mut state, &meta, &mut cell, 2);
        let (mut g1, mut g2) = guards;
        let r1 = <&R1 as SystemArg>::item(&mut g1);
        let r2 = <&mut R2 as SystemArg>::item(&mut g2);
        r2.0 += u32::from(r1.0);
    }
    <(&R1, &mut R2) as SystemParam>::apply(&mut state, &meta, &mut w);
    assert_eq!(55, w.get_resource::<R2>().0);
}

#[test]
fn query_state_opens_a_walk() {
    let mut w = World::new();
    let a = w.spawn(C1(1));
    let b = w.spawn(C1(2));
    let mut state = QueryIterState::<C1>::default();
    {
        let mut cell = w.cell();
        let mut guard = state.lock(&mut cell).unwrap();
        let mut walk = <QueryIter<C1> as SystemArg>::item(&mut guard);
        let mut seen = Vec::new();
        while let Some((entity, c1)) = walk.next() {
            seen.push((entity, c1.0));
        }
        seen.sort_by_key(|(_, value)| *value);
        assert_eq!(vec![(a, 1), (b, 2)], seen);
        assert!(walk.next().is_none());
    }
    state.unlock();
    state.unlock();
}

#[test]
fn view_state_opens_a_view() {
    let mut w = World::new();
    let a = w.spawn(C1(1));
    let b = w.spawn(R1(2));
    let mut state = ViewState::<C1>::default();
    {
        let mut cell = w.cell();
        let mut guard = state.lock(&mut cell).unwrap();
        let view = <View<C1> as SystemArg>::item(&mut guard);
        assert_eq!(Some(1), view.get(a).map(|c1| c1.0));
        assert!(view.get(b).is_none());
    }
    state.unlock();
}

#[test]
fn guard_of_a_query_is_walked_and_looked_up() {
    let mut w = World::new();
    let a = w.spawn(C1(1));
    let b = w.spawn(C1(2));
    let mut state = QueryIterState::<C1>::default();
    let mut cell = w.cell();
    let mut guard = state.lock(&mut cell).unwrap();
    {
        let mut walk = guard.iter();
        let mut sum = 0;
        while let Some((_, c1)) = walk.next() {
            sum += c1.0;
        }
        assert_eq!(3, sum);
    }
    {
        let mut walk = guard.iter();
        assert!(walk.next().is_some());
        assert!(walk.next().is_some());
        assert!(walk.next().is_none());
        assert!(walk.next().is_none());
    }
    let view = guard.view();
    assert_eq!(Some(1), view.get(a).map(|c1| c1.0));
    assert_eq!(Some(2), view.get(b).map(|c1| c1.0));
}

#[test]
fn query_and_resource_of_other_types_together() {
    let mut w = World::new();
    w.insert_resource(R1(5));
    w.spawn(C1(1));
    let mut query = QueryIterState::<C1>::default();
    let mut resource = ResourceParamState::<R1>::default();
    let mut cell = w.cell();
    let mut borrow = query.lock(&mut cell).unwrap();
    let mut r1 = resource.lock_mut(&mut cell).unwrap();
    let mut walk = <QueryIter<C1> as SystemArg>::item(&mut borrow);
    let (_, c1) = walk.next().unwrap();
    let total = r1.get_mut();
    total.0 += c1.0;
    assert_eq!(6, total.0);
}

#[test]
fn released_guard_leaves_what_was_written() {
    let mut w = World::new();
    w.insert_resource(R1(5));
    w.insert_resource(R2(50));
    let mut state = ResourceParamState::<R1>::default();
    {
        let mut cell = w.cell();
        let mut guard = state.lock_mut(&mut cell).unwrap();
        let r1 = guard.get_mut();
        r1.0 = 6;
        r1.0 += 1;
        guard.release(&mut cell);
        let _ = cell.close();
    }
    state.unlock();
    assert_eq!(7, w.get_resource::<R1>().0);
    assert_eq!(50, w.get_resource::<R2>().0);
}

#[test]
fn lock_unlock_lock_again_reads_the_same() {
    let mut w = World::new();
    w.insert_resource(R1(5));
    let mut state = ResourceParamState::<R1>::default();
    {
        let mut cell = w.cell();
        let guard = state.lock(&mut cell).unwrap();
        assert_eq!(5, guard.get().0);
        guard.release(&mut cell);
        let _ = cell.close();
    }
    state.unlock();
    {
        let mut cell = w.cell();
        assert_eq!(5, state.lock(&mut cell).unwrap().get().0);
    }
    state.unlock();
}

#[test]
fn query_and_unique_resource_of_one_type_together() {
    let mut w = World::new();
    w.insert_resource(C1(5));
    w.spawn(C1(1));
    let mut query = QueryIterState::<C1>::default();
    let mut resource = ResourceParamState::<C1>::default();
    let mut cell = w.cell();
    let mut r1 = resource.lock_mut(&mut cell).unwrap();
    let mut borrow = query.lock(&mut cell).unwrap();
    let mut walk = <QueryIter<C1> as SystemArg>::item(&mut borrow);
    let (_, c1) = walk.next().unwrap();
    assert!(walk.next().is_none());
    let total = r1.get_mut();
    total.0 += c1.0;
    assert_eq!(6, total.0);
}

#[test]
fn open_borrow_as_parameter() {
    let mut w = World::new();
    w.spawn(C1(1));
    w.spawn(C1(2));
    let mut meta = SystemMeta::default();
    let mut state = <QueryGuard<C1> as SystemParam>::init_state(&mut w, &mut meta);
    {
        let mut cell = w.cell();
        let mut guard = <QueryGuard<C1> as SystemParam>::get_param(&mut state, &meta, &mut cell, 2);
        let mut walk = guard.iter();
        let mut sum = 0;
        while let Some((_, c1)) = walk.next() {
            sum += c1.0;
        }
        assert_eq!(3, sum);
    }
    <QueryGuard<C1> as SystemParam>::apply(&mut state, &meta, &mut w);
    <QueryGuard<C1> as SystemParam>::apply(&mut state, &meta, &mut w);
    assert_eq!(1, w.read_change_tick());
}

#[test]
fn apply_without_guard_changes_nothing() {
    let mut w = World::new();
    w.insert_resource(R1(5));
    let mut meta = SystemMeta::default();
    let mut state = <(&R1, &mut R2) as SystemParam>::init_state(&mut w, &mut meta);
    <(&R1, &mut R2) as SystemParam>::apply(&mut state, &meta, &mut w);
    <(&R1, &mut R2) as SystemParam>::apply(&mut state, &meta, &mut w);
    <() as SystemParam>::apply(&mut (), &meta, &mut w);
    assert_eq!(5, w.get_resource::<R1>().0);
    assert_eq!(1, w.read_change_tick());
    assert_eq!(1, w.len());
}

#[test]
fn released_guards_free_the_resource_for_the_next_lending() {
    let mut w = World::new();
    w.insert_resource(R1(5));
    w.spawn(C1(1));
    let mut shared = ResourceParamState::<R1>::default();
    let mut unique = ResourceParamState::<R1>::default();
    let mut query = QueryIterState::<C1>::default();
    {
        let mut cell = w.cell();
        let a = shared.lock(&mut cell).unwrap();
        let mut walk = query.lock(&mut cell).unwrap();
        assert!(walk.iter().next().is_some());
        walk.release(&mut cell);
        a.release(&mut cell);
        let _ = cell.close();
    }
    shared.unlock();
    query.unlock();
    {
        let mut cell = w.cell();
        let mut b = unique.lock_mut(&mut cell).unwrap();
        b.get_mut().0 = 8;
        b.release(&mut cell);
        let _ = cell.close();
    }
    unique.unlock();
    {
        let mut cell = w.cell();
        let c = shared.lock(&mut cell).unwrap();
        assert_eq!(8, c.get().0);
        c.release(&mut cell);
        let _ = cell.close();
    }
    assert_eq!(8, w.get_resource::<R1>().0);
}

#[test]
fn parameters_are_released_by_hand() {
    let mut w = World::new();
    w.insert_resource(R1(5));
    w.insert_resource(R2(50));
    w.spawn(C1(1));
    let mut meta = SystemMeta::default();
    let mut state = <(&R1, &mut R2, QueryIter<C1>) as SystemParam>::init_state(&mut w, &mut meta);
    for round in 0..3 {
        let mut cell = w.cell();
        let (mut g1, mut g2, mut g3) =
            <(&R1, &mut R2, QueryIter<C1>) as SystemParam>::get_param(&mut state, &meta, &mut cell, 2);
        {
            let r1 = <&R1 as SystemArg>::item(&mut g1);
            let r2 = <&mut R2 as SystemArg>::item(&mut g2);
            let mut walk = <QueryIter<C1> as SystemArg>::item(&mut g3);
            let (_, c1) = walk.next().unwrap();
            r2.0 += u32::from(r1.0) + u32::from(c1.0);
            assert_eq!(56 + 6 * round, r2.0);
        }
        <(&R1, &mut R2, QueryIter<C1>) as SystemParam>::release((g1, g2, g3), &mut cell);
        let _ = cell.close();
        <(&R1, &mut R2, QueryIter<C1>) as SystemParam>::apply(&mut state, &meta, &mut w);
    }
    assert_eq!(68, w.get_resource::<R2>().0);
}
