//! What a feature offers to the application.
use vstd::prelude::*;
use crate::entity::Entity;
use crate::errors::Error;
use crate::value::Value;

verus! {

/// Access to the data of a feature, and its evaluation.
pub trait Feature {
    /// Returns the display name of the feature.
    fn get_name(&self) -> Result<String, Error>;

    /// Returns whether the feature is enabled.
    ///
    /// A feature that is not enabled yields its disabled value for every
    /// entity.
    fn is_enabled(&self) -> Result<bool, Error>;

    /// Evaluates the feature for an entity.
    fn get_value<E: Entity>(&self, entity: &E) -> Result<Value, Error>;

    /// Evaluates the feature for an entity and converts the value into the
    /// requested primitive.
    fn get_value_into<T: TryFrom<Value, Error = Error>, E: Entity>(&self, entity: &E) -> Result<
        T,
        Error,
    >;
}

} // verus!
