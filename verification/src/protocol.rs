//! The construction protocol and the wrapper for deferred fields.

use crate::error::ConstructError;
use bevy_ecs::world::EntityWorldMut;
use vstd::prelude::*;

verus! {

/// A type that can be built from a props value against a live world.
///
/// `outcome` and `world_after` say what `construct` returns and what it leaves
/// behind: the same props in the same world always take the same steps.
pub trait Construct: Sized {
    type Props;

    /// The instance or the error that construction from `props` gives. An
    /// impl says here what its `construct` returns.
    open spec fn outcome(world: EntityWorldMut<'_>, props: Self::Props) -> Result<
        Self,
        ConstructError,
    > {
        arbitrary()
    }

    /// The world as construction from `props` leaves it, failed or not.
    open spec fn world_after(world: EntityWorldMut<'_>, props: Self::Props) -> EntityWorldMut<'_> {
        arbitrary()
    }

    fn construct(entity: &mut EntityWorldMut, props: Self::Props) -> (r: Result<
        Self,
        ConstructError,
    >)
        ensures
            r == Self::outcome(*old(entity), props),
            *final(entity) == Self::world_after(*old(entity), props),
    ;
}

/// Plain data needs no ceremony: its props are the value itself, construction
/// hands them back and leaves the world alone.
impl<T: Clone + Default> Construct for T {
    type Props = T;

    open spec fn outcome(world: EntityWorldMut<'_>, props: T) -> Result<T, ConstructError> {
        Ok(props)
    }

    open spec fn world_after(world: EntityWorldMut<'_>, props: T) -> EntityWorldMut<'_> {
        world
    }

    #[inline]
    fn construct(_entity: &mut EntityWorldMut, props: T) -> (r: Result<T, ConstructError>) {
        Ok(props)
    }
}

/// A deferred field of a props type: either props for the field's type, still
/// to be resolved, or the finished value.
#[verifier::reject_recursive_types(C)]
pub enum ConstructProp<C: Construct> {
    /// Nested props; resolving them runs `C`'s construction.
    Props(C::Props),
    /// A finished value; resolving it runs nothing.
    Value(C),
}

impl<C: Construct + Clone> Clone for ConstructProp<C> where C::Props: Clone {
    fn clone(&self) -> (r: Self)
        ensures
            match (*self, r) {
                (ConstructProp::Props(a), ConstructProp::Props(b)) => cloned(a, b),
                (ConstructProp::Value(a), ConstructProp::Value(b)) => cloned(a, b),
                _ => false,
            },
    {
        match self {
            Self::Props(arg0) => Self::Props(arg0.clone()),
            Self::Value(arg0) => Self::Value(arg0.clone()),
        }
    }
}

impl<C: Construct> ConstructProp<C> {
    /// What resolving this field in `world` gives.
    pub open spec fn outcome(self, world: EntityWorldMut<'_>) -> Result<C, ConstructError> {
        match self {
            ConstructProp::Props(p) => C::outcome(world, p),
            ConstructProp::Value(v) => Ok(v),
        }
    }

    /// The world as resolving this field leaves it.
    pub open spec fn world_after(self, world: EntityWorldMut<'_>) -> EntityWorldMut<'_> {
        match self {
            ConstructProp::Props(p) => C::world_after(world, p),
            ConstructProp::Value(_) => world,
        }
    }

    /// The state of an untouched deferred field: nested props at their own
    /// default.
    pub fn unresolved() -> (r: Self) where C::Props: Default
        ensures
            r matches ConstructProp::Props(p) && call_ensures(
                <C::Props as Default>::default,
                (),
                p,
            ),
    {
        ConstructProp::Props(Default::default())
    }

    /// Consumes the field and yields its value: nested props are constructed
    /// against `entity`, a finished value is handed back as it is.
    pub fn resolve(self, entity: &mut EntityWorldMut) -> (r: Result<C, ConstructError>)
        ensures
            r == self.outcome(*old(entity)),
            *final(entity) == self.world_after(*old(entity)),
    {
        match self {
            ConstructProp::Props(p) => C::construct(entity, p),
            ConstructProp::Value(v) => Ok(v),
        }
    }
}

/// A deferred field after resolution. Its props are the field as it was
/// supplied, and constructing it resolves the field: nested props run the
/// field type's construction, a finished value is kept as it is.
///
/// The construction of a type with deferred fields is the construction of
/// the group of these, one for each deferred field in declaration order.
pub struct Resolved<C>(pub C);

impl<C: Construct> Construct for Resolved<C> {
    type Props = ConstructProp<C>;

    open spec fn outcome(world: EntityWorldMut<'_>, props: ConstructProp<C>) -> Result<
        Self,
        ConstructError,
    > {
        match props.outcome(world) {
            Ok(value) => Ok(Resolved(value)),
            Err(error) => Err(error),
        }
    }

    open spec fn world_after(world: EntityWorldMut<'_>, props: ConstructProp<C>) -> EntityWorldMut<
        '_,
    > {
        props.world_after(world)
    }

    fn construct(entity: &mut EntityWorldMut, props: ConstructProp<C>) -> (r: Result<
        Self,
        ConstructError,
    >) {
        match props.resolve(entity) {
            Ok(value) => Ok(Resolved(value)),
            Err(error) => Err(error),
        }
    }
}

/// A deferred field that holds a finished value resolves to exactly that value
/// in every world, and the world stays as it was: no construction runs.
pub proof fn lemma_value_skips_construction<C: Construct>(world: EntityWorldMut<'_>, value: C)
    ensures
        ConstructProp::<C>::Value(value).outcome(world) == Ok::<C, ConstructError>(value),
        ConstructProp::<C>::Value(value).world_after(world) == world,
{
}

/// A deferred field that holds nested props resolves to what the nested
/// type's own construction gives, and leaves the world as that construction
/// left it. This holds of every nested type, so where its props hold a
/// deferred field in turn, the same applies one level down.
pub proof fn lemma_props_run_construction<C: Construct>(world: EntityWorldMut<'_>, props: C::Props)
    ensures
        ConstructProp::<C>::Props(props).outcome(world) == C::outcome(world, props),
        ConstructProp::<C>::Props(props).world_after(world) == C::world_after(world, props),
{
}

/// For plain data, construction from any props value, the default among them,
/// succeeds with that very value and leaves the world as it was.
pub proof fn lemma_plain_data_round_trip<T: Clone + Default>(world: EntityWorldMut<'_>, props: T)
    ensures
        <T as Construct>::outcome(world, props) == Ok::<T, ConstructError>(props),
        <T as Construct>::world_after(world, props) == world,
{
}

} // verus!
