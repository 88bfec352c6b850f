//! What a property offers to the application.
use vstd::prelude::*;
use crate::entity::Entity;
use crate::errors::Error;
use crate::value::Value;

verus! {

/// Access to the data of a property, and its evaluation.
pub trait Property {
    /// Returns the display name of the property.
    fn get_name(&self) -> Result<String, Error>;

    /// Evaluates the property for an entity.
    fn get_value<E: Entity>(&self, entity: &E) -> Result<Value, Error>;

    /// Evaluates the property for an entity and converts the value into the
    /// requested primitive.
    fn get_value_into<T: TryFrom<Value, Error = Error>, E: Entity>(&self, entity: &E) -> Result<
        T,
        Error,
    >;
}

} // verus!
