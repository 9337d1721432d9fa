use hecs_systems::store::Component;
use hecs_systems::system::{IntoSystem, System};
use hecs_systems::{Query, World};

struct C1(u8);

impl Component for C1 {
    const KEY: u64 = 1;
}

#[test]
fn it_works() {
    let mut w = World::new();
    let _ = w.spawn(C1(9));
    let mut s1 = IntoSystem::into_system(system1);
    s1.run((), &mut w);
}

fn system1(mut q: Query<C1>) {
    let (_, c) = q.next().unwrap();
    assert_eq!(9, c.0);
}
