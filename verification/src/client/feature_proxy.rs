//! The live view of a feature.
use vstd::prelude::*;
use crate::client::cache::ConfigurationSnapshot;
use crate::dictionary::Dictionary;
use crate::entity::Entity;
use crate::errors::ConfigurationAccessError;
use crate::errors::Error;
use crate::models::outcome_view;
use crate::value::Value;

verus! {

/// A feature by its id alone: every question is answered from the catalog
/// that is handed in with it, so the answers follow the catalog.
#[derive(Debug)]
pub struct FeatureProxy {
    pub feature_id: String,
}

impl View for FeatureProxy {
    type V = Seq<char>;

    open spec fn view(&self) -> Seq<char> {
        self.feature_id@
    }
}

impl FeatureProxy {
    pub fn new(feature_id: String) -> (r: Self)
        ensures
            r@ == feature_id@,
    {
        FeatureProxy { feature_id }
    }

    /// Returns the display name that the catalog gives the feature.
    pub fn get_name(&self, catalog: &ConfigurationSnapshot) -> (r: Result<String, Error>)
        ensures
            match r {
                Ok(name) => catalog@.features.contains_key(self@) && name@
                    == catalog@.features[self@].name,
                Err(e) => !catalog@.features.contains_key(self@) && e
                    == Error::ConfigurationAccessError(ConfigurationAccessError::FeatureNotFound),
            },
    {
        match catalog.get_feature(self.feature_id.as_str()) {
            Ok(feature) => Ok(feature.name.clone()),
            Err(e) => Err(e),
        }
    }

    /// Returns whether the catalog has the feature enabled.
    pub fn is_enabled(&self, catalog: &ConfigurationSnapshot) -> (r: Result<bool, Error>)
        ensures
            match r {
                Ok(enabled) => catalog@.features.contains_key(self@) && enabled
                    == catalog@.features[self@].enabled,
                Err(e) => !catalog@.features.contains_key(self@) && e
                    == Error::ConfigurationAccessError(ConfigurationAccessError::FeatureNotFound),
            },
    {
        match catalog.get_feature(self.feature_id.as_str()) {
            Ok(feature) => Ok(feature.enabled),
            Err(e) => Err(e),
        }
    }

    /// Evaluates the feature, as the catalog has it, for the entity with the
    /// given id and attributes.
    pub fn evaluate(
        &self,
        catalog: &ConfigurationSnapshot,
        entity_id: &str,
        attributes: &Dictionary<Value>,
    ) -> (r: Result<Value, Error>)
        ensures
            outcome_view(r) == catalog@.feature_value(self@, entity_id@, attributes@),
    {
        catalog.evaluate_feature(self.feature_id.as_str(), entity_id, attributes)
    }

    /// Asks the entity for its id and its attributes and evaluates the
    /// feature, as the catalog has it, for them.
    pub fn get_value<E: Entity>(&self, catalog: &ConfigurationSnapshot, entity: &E) -> (r: Result<
        Value,
        Error,
    >)
        ensures
            exists|id: String, attributes: Dictionary<Value>|
                call_ensures(E::get_id, (entity,), id) && call_ensures(
                    E::get_attributes,
                    (entity,),
                    attributes,
                ) && outcome_view(r) == #[trigger] catalog@.feature_value(
                    self@,
                    id@,
                    attributes@,
                ),
    {
        let id = entity.get_id();
        let attributes = entity.get_attributes();
        let r = self.evaluate(catalog, id.as_str(), &attributes);
        assert(outcome_view(r) == catalog@.feature_value(self@, id@, attributes@));
        r
    }

    /// Evaluates the feature as `get_value` does and converts the value into
    /// the requested primitive.
    pub fn get_value_into<T: TryFrom<Value, Error = Error>, E: Entity>(
        &self,
        catalog: &ConfigurationSnapshot,
        entity: &E,
    ) -> (r: Result<T, Error>)
        ensures
            exists|id: String, attributes: Dictionary<Value>, value: Result<Value, Error>|
                #![trigger catalog@.feature_value(self@, id@, attributes@), outcome_view(value)]
                call_ensures(E::get_id, (entity,), id) && call_ensures(
                    E::get_attributes,
                    (entity,),
                    attributes,
                ) && outcome_view(value) == catalog@.feature_value(self@, id@, attributes@)
                    && match value {
                    Ok(v) => call_ensures(T::try_from, (v,), r),
                    Err(e) => r == Err::<T, Error>(e),
                },
    {
        let id = entity.get_id();
        let attributes = entity.get_attributes();
        let value = self.evaluate(catalog, id.as_str(), &attributes);
        assert(outcome_view(value) == catalog@.feature_value(self@, id@, attributes@));
        match value {
            Ok(v) => T::try_from(v),
            Err(e) => Err(e),
        }
    }
}

} // verus!
