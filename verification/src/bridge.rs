//! The typed half of construction through type-erased values: what runs once
//! boxed props have been given their concrete type again.

use crate::error::ConstructError;
use crate::protocol::Construct;
use bevy_ecs::world::EntityWorldMut;
use vstd::prelude::*;

verus! {

/// The default props of `S`, boxed for a caller that erases their type.
pub fn default_props<S: Construct>() -> (r: Box<S::Props>) where S::Props: Default
    ensures
        call_ensures(<S::Props as Default>::default, (), *r),
{
    Box::new(Default::default())
}

/// Constructs an `S` from boxed props of its own props type and boxes the
/// instance; a failure is handed on as it is.
pub fn construct_boxed<S: Construct>(props: Box<S::Props>, entity: &mut EntityWorldMut) -> (r:
    Result<Box<S>, ConstructError>)
    ensures
        match S::outcome(*old(entity), *props) {
            Ok(instance) => r == Ok::<Box<S>, ConstructError>(Box::new(instance)),
            Err(error) => r == Err::<Box<S>, ConstructError>(error),
        },
        *final(entity) == S::world_after(*old(entity), *props),
{
    match S::construct(entity, *props) {
        Ok(instance) => Ok(Box::new(instance)),
        Err(error) => Err(error),
    }
}

} // verus!
