//! A two-phase construction protocol for entities: a type names a props type,
//! and `construct` turns a props value into an instance against a live,
//! exclusively borrowed world.

pub mod bridge;
pub mod derive;
pub mod error;
pub mod protocol;
pub mod tuple;
pub mod world;

pub use error::ConstructError;
pub use protocol::{Construct, ConstructProp, Resolved};
pub use tuple::ConstructTuple;
