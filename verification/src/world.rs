//! The host runtime's types that the protocol carries through without looking
//! inside them.

use vstd::prelude::*;

verus! {

/// `bevy_ecs::world::EntityWorldMut`: exclusive access to one entity and,
/// through it, to the whole world. Opaque here; construction only hands it on.
#[verifier::external_type_specification]
#[verifier::external_body]
pub struct ExEntityWorldMut<'w>(bevy_ecs::world::EntityWorldMut<'w>);

/// `bevy_ecs::world::error::EntityFetchError`: why an entity could not be
/// fetched mutably. Opaque here; it is only wrapped and handed back.
#[verifier::external_type_specification]
#[verifier::external_body]
pub struct ExEntityFetchError(bevy_ecs::world::error::EntityFetchError);

} // verus!
