use bevy_construct_prototype::{Construct, ConstructError, ConstructTuple};
use bevy_ecs::world::{EntityWorldMut, World};

/// Fails with the message it was given.
#[derive(Debug, PartialEq)]
struct Refuses;

impl Construct for Refuses {
    type Props = &'static str;

    fn construct(_entity: &mut EntityWorldMut, props: &'static str) -> Result<Self, ConstructError> {
        Err(ConstructError::Custom(props))
    }
}

/// Spawns one entity and keeps the number given.
#[derive(Debug, PartialEq)]
struct Spawns(u32);

impl Construct for Spawns {
    type Props = u32;

    fn construct(entity: &mut EntityWorldMut, props: u32) -> Result<Self, ConstructError> {
        entity.world_scope(|world| {
            world.spawn_empty();
        });
        Ok(Spawns(props))
    }
}

fn message_of<T>(result: Result<T, ConstructError>) -> &'static str {
    match result {
        Err(ConstructError::Custom(text)) => text,
        _ => panic!("a custom error was expected"),
    }
}

#[test]
fn empty_group_always_succeeds() {
    let mut world = World::new();
    let mut entity = world.spawn_empty();
    let built = <ConstructTuple<()> as Construct>::construct(&mut entity, ());
    assert!(matches!(built, Ok(ConstructTuple(()))));
    assert_eq!(world.entities().len(), 1);
}

#[test]
fn single_element_group() {
    let mut world = World::new();
    let mut entity = world.spawn_empty();
    let built = <ConstructTuple<(u8,)> as Construct>::construct(&mut entity, (3,)).unwrap();
    assert_eq!(built.into_inner(), (3,));
}

#[test]
fn group_keeps_the_order_of_its_elements() {
    let mut world = World::new();
    let mut entity = world.spawn_empty();
    let built = <ConstructTuple<(u8, Spawns, bool)> as Construct>::construct(
        &mut entity,
        (1, 2, true),
    )
    .unwrap();
    assert_eq!(built.0, (1, Spawns(2), true));
    assert_eq!(world.entities().len(), 2);
}

#[test]
fn first_failure_ends_the_group() {
    let mut world = World::new();
    let mut entity = world.spawn_empty();
    let built = <ConstructTuple<(Refuses, Refuses)> as Construct>::construct(
        &mut entity,
        ("left", "right"),
    );
    assert_eq!(message_of(built), "left");
}

#[test]
fn elements_after_a_failure_are_not_constructed() {
    let mut world = World::new();
    let mut entity = world.spawn_empty();
    let built = <ConstructTuple<(Refuses, Spawns)> as Construct>::construct(
        &mut entity,
        ("stop", 1),
    );
    assert_eq!(message_of(built), "stop");
    assert_eq!(world.entities().len(), 1);
}

#[test]
fn what_ran_before_a_failure_stays_done() {
    let mut world = World::new();
    let mut entity = world.spawn_empty();
    let built = <ConstructTuple<(Spawns, Spawns, Refuses, Spawns)> as Construct>::construct(
        &mut entity,
        (1, 2, "third", 4),
    );
    assert_eq!(message_of(built), "third");
    assert_eq!(world.entities().len(), 3);
}

#[test]
fn group_of_twelve() {
    let mut world = World::new();
    let mut entity = world.spawn_empty();
    type Twelve = (u8, u8, u8, u8, u8, u8, u8, u8, u8, u8, u8, Spawns);
    let built = <ConstructTuple<Twelve> as Construct>::construct(
        &mut entity,
        (0, 1, 2, 3, 4, 5, 6, 7, 8, 9, 10, 11),
    )
    .unwrap();
    assert_eq!(built.into_inner(), (0, 1, 2, 3, 4, 5, 6, 7, 8, 9, 10, Spawns(11)));
    assert_eq!(world.entities().len(), 2);
}

#[test]
fn last_of_twelve_can_fail() {
    let mut world = World::new();
    let mut entity = world.spawn_empty();
    type Twelve = (Spawns, u8, u8, u8, u8, u8, u8, u8, u8, u8, u8, Refuses);
    let built = <ConstructTuple<Twelve> as Construct>::construct(
        &mut entity,
        (0, 1, 2, 3, 4, 5, 6, 7, 8, 9, 10, "twelfth"),
    );
    assert_eq!(message_of(built), "twelfth");
    assert_eq!(world.entities().len(), 2);
}

#[test]
fn groups_nest() {
    let mut world = World::new();
    let mut entity = world.spawn_empty();
    type Nested = (ConstructTuple<(u8, Spawns)>, ConstructTuple<()>);
    let built = <ConstructTuple<Nested> as Construct>::construct(&mut entity, ((1, 2), ())).unwrap();
    let (left, _right) = built.into_inner();
    assert_eq!(left.into_inner(), (1, Spawns(2)));
}
