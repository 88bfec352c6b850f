//! The live view of a property.
use vstd::prelude::*;
use crate::client::cache::ConfigurationSnapshot;
use crate::dictionary::Dictionary;
use crate::entity::Entity;
use crate::errors::ConfigurationAccessError;
use crate::errors::Error;
use crate::models::outcome_view;
use crate::value::Value;

verus! {

/// A property by its id alone: every question is answered from the catalog
/// that is handed in with it, so the answers follow the catalog.
#[derive(Debug)]
pub struct PropertyProxy {
    pub property_id: String,
}

impl View for PropertyProxy {
    type V = Seq<char>;

    open spec fn view(&self) -> Seq<char> {
        self.property_id@
    }
}

impl PropertyProxy {
    pub fn new(property_id: String) -> (r: Self)
        ensures
            r@ == property_id@,
    {
        PropertyProxy { property_id }
    }

    /// Returns the display name that the catalog gives the property.
    pub fn get_name(&self, catalog: &ConfigurationSnapshot) -> (r: Result<String, Error>)
        ensures
            match r {
                Ok(name) => catalog@.properties.contains_key(self@) && name@
                    == catalog@.properties[self@].name,
                Err(e) => !catalog@.properties.contains_key(self@) && e
                    == Error::ConfigurationAccessError(ConfigurationAccessError::PropertyNotFound),
            },
    {
        match catalog.get_property(self.property_id.as_str()) {
            Ok(property) => Ok(property.name.clone()),
            Err(e) => Err(e),
        }
    }

    /// Evaluates the property, as the catalog has it, for an entity with the
    /// given attributes.
    pub fn evaluate(&self, catalog: &ConfigurationSnapshot, attributes: &Dictionary<Value>) -> (r:
        Result<Value, Error>)
        ensures
            outcome_view(r) == catalog@.property_value(self@, attributes@),
    {
        catalog.evaluate_property(self.property_id.as_str(), attributes)
    }

    /// Asks the entity for its attributes and evaluates the property, as the
    /// catalog has it, for them.
    pub fn get_value<E: Entity>(&self, catalog: &ConfigurationSnapshot, entity: &E) -> (r: Result<
        Value,
        Error,
    >)
        ensures
            exists|attributes: Dictionary<Value>|
                call_ensures(E::get_attributes, (entity,), attributes) && outcome_view(r)
                    == #[trigger] catalog@.property_value(self@, attributes@),
    {
        let attributes = entity.get_attributes();
        let r = self.evaluate(catalog, &attributes);
        assert(outcome_view(r) == catalog@.property_value(self@, attributes@));
        r
    }

    /// Evaluates the property as `get_value` does and converts the value
    /// into the requested primitive.
    pub fn get_value_into<T: TryFrom<Value, Error = Error>, E: Entity>(
        &self,
        catalog: &ConfigurationSnapshot,
        entity: &E,
    ) -> (r: Result<T, Error>)
        ensures
            exists|attributes: Dictionary<Value>, value: Result<Value, Error>|
                #![trigger catalog@.property_value(self@, attributes@), outcome_view(value)]
                call_ensures(E::get_attributes, (entity,), attributes) && outcome_view(value)
                    == catalog@.property_value(self@, attributes@) && match value {
                    Ok(v) => call_ensures(T::try_from, (v,), r),
                    Err(e) => r == Err::<T, Error>(e),
                },
    {
        let attributes = entity.get_attributes();
        let value = self.evaluate(catalog, &attributes);
        assert(outcome_view(value) == catalog@.property_value(self@, attributes@));
        match value {
            Ok(v) => T::try_from(v),
            Err(e) => Err(e),
        }
    }
}

} // verus!
