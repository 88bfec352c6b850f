//! The subject of an evaluation.
use vstd::prelude::*;
use crate::dictionary::Dictionary;
use crate::value::Value;

verus! {

/// The attributes of an entity, by name.
pub type Attributes = Dictionary<Value>;

/// A subject (a user, a session, a request) for which features and
/// properties are evaluated.
///
/// The library asks an entity for its id and its attributes once per
/// evaluation and works on what it is given.
pub trait Entity {
    /// Returns the identifier by which the rollout gate places the entity.
    fn get_id(&self) -> String;

    /// Returns the attributes against which segments are tested.
    fn get_attributes(&self) -> Attributes;
}

} // verus!
