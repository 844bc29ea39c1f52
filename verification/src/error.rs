//! The terminal signal of a failed construction.

use bevy_ecs::world::error::EntityFetchError;
use std::borrow::Cow;
use vstd::prelude::*;
use vstd::string::StringExecFns;

verus! {

/// Why a construction stopped. Nothing is recovered from it: the call that
/// receives one hands it on unchanged.
#[derive(Debug)]
pub enum ConstructError {
    /// A fixed message.
    Custom(&'static str),
    /// An entity that the props referred to could not be fetched.
    MissingEntity(EntityFetchError),
    /// A resource was absent; `resource` names its type.
    MissingResource { resource: &'static str },
    /// The props failed validation; `message` says why.
    InvalidProps { message: Cow<'static, str> },
}

impl From<EntityFetchError> for ConstructError {
    fn from(source: EntityFetchError) -> (r: ConstructError) {
        ConstructError::MissingEntity(source)
    }
}

impl vstd::std_specs::convert::FromSpecImpl<EntityFetchError> for ConstructError {
    open spec fn obeys_from_spec() -> bool {
        true
    }

    open spec fn from_spec(source: EntityFetchError) -> ConstructError {
        ConstructError::MissingEntity(source)
    }
}

/// The text that `EntityFetchError`'s `Display` gives for a value.
pub uninterp spec fn entity_fetch_error_text(source: EntityFetchError) -> Seq<char>;

/// `EntityFetchError`'s `Display`, through `to_string`: the text depends on
/// the value alone (the variant and the entity's identifier), and nothing
/// more is claimed of it.
#[verifier::external_body]
fn fetch_error_text(source: &EntityFetchError) -> (r: String)
    ensures
        r@ == entity_fetch_error_text(*source),
{
    source.to_string()
}

impl ConstructError {
    /// The text that describes the error.
    pub open spec fn spec_message(&self) -> Seq<char> {
        match self {
            ConstructError::Custom(text) => text@,
            ConstructError::MissingEntity(source) => entity_fetch_error_text(*source),
            ConstructError::MissingResource { resource } => "Resource "@ + resource@
                + " does not exist"@,
            ConstructError::InvalidProps { message } => "Props were invalid: "@ + message@,
        }
    }

    /// The text that describes the error: a custom message as it is, a failed
    /// entity lookup in the host's own words, a missing resource by the name
    /// of its type, invalid props by the reason given.
    pub fn message(&self) -> (r: String)
        ensures
            r@ == self.spec_message(),
    {
        match self {
            ConstructError::Custom(text) => String::from_str(text),
            ConstructError::MissingEntity(source) => fetch_error_text(source),
            ConstructError::MissingResource { resource } => {
                let mut text = String::from_str("Resource ");
                text.append(resource);
                text.append(" does not exist");
                text
            },
            ConstructError::InvalidProps { message } => {
                let mut text = String::from_str("Props were invalid: ");
                match message {
                    Cow::Borrowed(reason) => text.append(reason),
                    Cow::Owned(reason) => text.append(reason.as_str()),
                }
                text
            },
        }
    }
}

} // verus!