use bevy_construct_prototype::bridge::{construct_boxed, default_props};
use bevy_construct_prototype::{Construct, ConstructError, ConstructProp, ConstructTuple, Resolved};
use bevy_ecs::world::{EntityWorldMut, World};

/// A type whose construction always fails with the message it was given.
#[derive(Debug, PartialEq)]
struct Failing(u8);

impl Construct for Failing {
    type Props = &'static str;

    fn construct(_entity: &mut EntityWorldMut, props: &'static str) -> Result<Self, ConstructError> {
        Err(ConstructError::Custom(props))
    }
}

/// A type whose construction spawns one entity and keeps the number given.
#[derive(Debug, PartialEq)]
struct Spawner(u32);

impl Construct for Spawner {
    type Props = u32;

    fn construct(entity: &mut EntityWorldMut, props: u32) -> Result<Self, ConstructError> {
        entity.world_scope(|world| {
            world.spawn_empty();
        });
        Ok(Spawner(props))
    }
}

/// A struct with one direct and one deferred field, and its props.
#[derive(Debug, PartialEq)]
struct Inner {
    size: u32,
    spawner: Spawner,
}

struct InnerProps {
    size: u32,
    spawner: ConstructProp<Spawner>,
}

impl Construct for Inner {
    type Props = InnerProps;

    fn construct(entity: &mut EntityWorldMut, props: InnerProps) -> Result<Self, ConstructError> {
        let ConstructTuple((Resolved(spawner),)) =
            <ConstructTuple<(Resolved<Spawner>,)> as Construct>::construct(entity, (props.spawner,))?;
        Ok(Inner { size: props.size, spawner })
    }
}

/// A struct whose deferred field is itself a struct with a deferred field.
#[derive(Debug, PartialEq)]
struct Outer {
    inner: Inner,
}

struct OuterProps {
    inner: ConstructProp<Inner>,
}

impl Construct for Outer {
    type Props = OuterProps;

    fn construct(entity: &mut EntityWorldMut, props: OuterProps) -> Result<Self, ConstructError> {
        let ConstructTuple((Resolved(inner),)) =
            <ConstructTuple<(Resolved<Inner>,)> as Construct>::construct(entity, (props.inner,))?;
        Ok(Outer { inner })
    }
}

/// A struct with two deferred fields that both fail when resolved.
#[derive(Debug)]
struct Pair {
    first: Failing,
    second: Failing,
}

struct PairProps {
    first: ConstructProp<Failing>,
    second: ConstructProp<Failing>,
}

impl Construct for Pair {
    type Props = PairProps;

    fn construct(entity: &mut EntityWorldMut, props: PairProps) -> Result<Self, ConstructError> {
        let ConstructTuple((Resolved(first), Resolved(second))) =
            <ConstructTuple<(Resolved<Failing>, Resolved<Failing>)> as Construct>::construct(
                entity,
                (props.first, props.second),
            )?;
        Ok(Pair { first, second })
    }
}

fn entity_count(world: &World) -> u32 {
    world.entities().len()
}

#[test]
fn plain_data_constructs_to_its_props() {
    let mut world = World::new();
    let mut entity = world.spawn_empty();
    let built = <u32 as Construct>::construct(&mut entity, 7);
    assert!(matches!(built, Ok(7)));
    let text = <String as Construct>::construct(&mut entity, String::from("abc"));
    assert_eq!(text.unwrap(), "abc");
}

#[test]
fn default_props_of_plain_data_construct_to_the_default() {
    let mut world = World::new();
    let mut entity = world.spawn_empty();
    let props = <<u64 as Construct>::Props as Default>::default();
    assert_eq!(<u64 as Construct>::construct(&mut entity, props).unwrap(), 0);
    let props = <<(u8, bool) as Construct>::Props as Default>::default();
    assert_eq!(<(u8, bool) as Construct>::construct(&mut entity, props).unwrap(), (0, false));
    let props = <<Vec<u8> as Construct>::Props as Default>::default();
    assert_eq!(<Vec<u8> as Construct>::construct(&mut entity, props).unwrap(), Vec::<u8>::new());
}

#[test]
fn plain_data_leaves_the_world_alone() {
    let mut world = World::new();
    let mut entity = world.spawn_empty();
    let id = entity.id();
    let _ = <u32 as Construct>::construct(&mut entity, 1);
    assert_eq!(entity.id(), id);
    assert_eq!(entity_count(&world), 1);
}

#[test]
fn finished_value_skips_construction() {
    let mut world = World::new();
    let mut entity = world.spawn_empty();
    let field: ConstructProp<Failing> = ConstructProp::Value(Failing(9));
    assert_eq!(field.resolve(&mut entity).unwrap(), Failing(9));
    let field: ConstructProp<Spawner> = ConstructProp::Value(Spawner(3));
    assert_eq!(field.resolve(&mut entity).unwrap(), Spawner(3));
    assert_eq!(entity_count(&world), 1);
}

#[test]
fn nested_props_run_construction() {
    let mut world = World::new();
    let mut entity = world.spawn_empty();
    let field: ConstructProp<Spawner> = ConstructProp::Props(5);
    assert_eq!(field.resolve(&mut entity).unwrap(), Spawner(5));
    assert_eq!(entity_count(&world), 2);
}

#[test]
fn nested_props_hand_on_the_failure() {
    let mut world = World::new();
    let mut entity = world.spawn_empty();
    let field: ConstructProp<Failing> = ConstructProp::Props("no");
    match field.resolve(&mut entity) {
        Err(ConstructError::Custom(text)) => assert_eq!(text, "no"),
        _ => panic!("the nested failure was not handed on"),
    }
}

#[test]
fn recursion_goes_on_through_two_levels() {
    let mut world = World::new();
    let mut entity = world.spawn_empty();
    let props = OuterProps {
        inner: ConstructProp::Props(InnerProps { size: 4, spawner: ConstructProp::Props(8) }),
    };
    let built = Outer::construct(&mut entity, props).unwrap();
    assert_eq!(built, Outer { inner: Inner { size: 4, spawner: Spawner(8) } });
    assert_eq!(entity_count(&world), 2);
}

#[test]
fn override_deep_in_the_tree_stops_recursion_there() {
    let mut world = World::new();
    let mut entity = world.spawn_empty();
    let props = OuterProps {
        inner: ConstructProp::Value(Inner { size: 1, spawner: Spawner(2) }),
    };
    let built = Outer::construct(&mut entity, props).unwrap();
    assert_eq!(built, Outer { inner: Inner { size: 1, spawner: Spawner(2) } });
    assert_eq!(entity_count(&world), 1);
}

#[test]
fn unresolved_field_holds_default_props() {
    let field: ConstructProp<Spawner> = ConstructProp::unresolved();
    assert!(matches!(field, ConstructProp::Props(0)));
    let mut world = World::new();
    let mut entity = world.spawn_empty();
    assert_eq!(field.resolve(&mut entity).unwrap(), Spawner(0));
    assert_eq!(entity_count(&world), 2);
}

#[test]
fn first_declared_field_decides_the_error() {
    let mut world = World::new();
    let mut entity = world.spawn_empty();
    let props = PairProps {
        first: ConstructProp::Props("first"),
        second: ConstructProp::Props("second"),
    };
    match Pair::construct(&mut entity, props) {
        Err(ConstructError::Custom(text)) => assert_eq!(text, "first"),
        _ => panic!("the first field's error was expected"),
    }
    let props = PairProps {
        first: ConstructProp::Value(Failing(1)),
        second: ConstructProp::Props("second"),
    };
    match Pair::construct(&mut entity, props) {
        Err(ConstructError::Custom(text)) => assert_eq!(text, "second"),
        _ => panic!("the second field's error was expected"),
    }
    let props = PairProps {
        first: ConstructProp::Value(Failing(1)),
        second: ConstructProp::Value(Failing(2)),
    };
    let built = Pair::construct(&mut entity, props).unwrap();
    assert_eq!(built.first, Failing(1));
    assert_eq!(built.second, Failing(2));
}

#[test]
fn clone_keeps_the_variant_and_what_it_holds() {
    let props: ConstructProp<u32> = ConstructProp::Props(11);
    assert!(matches!(props.clone(), ConstructProp::Props(11)));
    let value: ConstructProp<u32> = ConstructProp::Value(12);
    assert!(matches!(value.clone(), ConstructProp::Value(12)));
}

#[test]
fn boxed_props_construct_to_a_boxed_instance() {
    let mut world = World::new();
    let mut entity = world.spawn_empty();
    let built = construct_boxed::<Spawner>(Box::new(5), &mut entity).unwrap();
    assert_eq!(*built, Spawner(5));
    assert_eq!(entity_count(&world), 2);
}

#[test]
fn boxed_construction_hands_on_the_failure() {
    let mut world = World::new();
    let mut entity = world.spawn_empty();
    match construct_boxed::<Failing>(Box::new("boxed"), &mut entity) {
        Err(ConstructError::Custom(text)) => assert_eq!(text, "boxed"),
        _ => panic!("the failure was not handed on"),
    }
}

#[test]
fn boxed_default_props_are_the_default() {
    assert_eq!(*default_props::<Spawner>(), 0);
    assert_eq!(*default_props::<String>(), "");
}

/// The same two fields as `Pair`, declared the other way round.
#[derive(Debug)]
struct Swapped {
    second: Failing,
    first: Failing,
}

impl Construct for Swapped {
    type Props = PairProps;

    fn construct(entity: &mut EntityWorldMut, props: PairProps) -> Result<Self, ConstructError> {
        let ConstructTuple((Resolved(second), Resolved(first))) =
            <ConstructTuple<(Resolved<Failing>, Resolved<Failing>)> as Construct>::construct(
                entity,
                (props.second, props.first),
            )?;
        Ok(Swapped { second, first })
    }
}

#[test]
fn swapped_declarations_swap_the_error() {
    let mut world = World::new();
    let mut entity = world.spawn_empty();
    let props = PairProps {
        first: ConstructProp::Props("first"),
        second: ConstructProp::Props("second"),
    };
    match Swapped::construct(&mut entity, props) {
        Err(ConstructError::Custom(text)) => assert_eq!(text, "second"),
        _ => panic!("the error of the field declared first was expected"),
    }
}

#[test]
fn resolved_field_holds_what_resolution_gave() {
    let mut world = World::new();
    let mut entity = world.spawn_empty();
    let built = <Resolved<Spawner> as Construct>::construct(&mut entity, ConstructProp::Props(6));
    assert_eq!(built.unwrap().0, Spawner(6));
    let built = <Resolved<Spawner> as Construct>::construct(
        &mut entity,
        ConstructProp::Value(Spawner(7)),
    );
    assert_eq!(built.unwrap().0, Spawner(7));
    match <Resolved<Failing> as Construct>::construct(&mut entity, ConstructProp::Props("deep")) {
        Err(ConstructError::Custom(text)) => assert_eq!(text, "deep"),
        _ => panic!("the nested failure was not handed on"),
    }
    assert_eq!(entity_count(&world), 2);
}

#[test]
fn failure_two_levels_down_comes_out_unchanged() {
    type OneField = ConstructTuple<(Resolved<Failing>,)>;
    let mut world = World::new();
    let mut entity = world.spawn_empty();
    let field: ConstructProp<OneField> = ConstructProp::Props((ConstructProp::Props("innermost"),));
    match field.resolve(&mut entity) {
        Err(ConstructError::Custom(text)) => assert_eq!(text, "innermost"),
        _ => panic!("the innermost failure was expected"),
    }
    type OneSpawner = ConstructTuple<(Resolved<Spawner>,)>;
    let field: ConstructProp<OneSpawner> = ConstructProp::Props((ConstructProp::unresolved(),));
    let built = field.resolve(&mut entity).unwrap();
    assert_eq!(built.into_inner().0 .0, Spawner(0));
    assert_eq!(entity_count(&world), 2);
}
