//! What a client offers to the application.
use vstd::prelude::*;
use crate::client::feature_proxy::FeatureProxy;
use crate::client::feature_snapshot::FeatureSnapshot;
use crate::client::property_proxy::PropertyProxy;
use crate::client::property_snapshot::PropertySnapshot;
use crate::errors::Error;

verus! {

/// A client for browsing and evaluating features and properties.
pub trait AppConfigurationClient {
    /// Returns the ids of the features, in no particular order.
    fn get_feature_ids(&self) -> Result<Vec<String>, Error>;

    /// Returns a frozen view of a feature: it keeps the values and rules
    /// that the feature has now.
    fn get_feature(&self, feature_id: &str) -> Result<FeatureSnapshot, Error>;

    /// Returns a live view of a feature: it answers from the catalog that
    /// the client holds when it is asked.
    fn get_feature_proxy(&self, feature_id: &str) -> Result<FeatureProxy, Error>;

    /// Returns the ids of the properties, in no particular order.
    fn get_property_ids(&self) -> Result<Vec<String>, Error>;

    /// Returns a frozen view of a property: it keeps the values and rules
    /// that the property has now.
    fn get_property(&self, property_id: &str) -> Result<PropertySnapshot, Error>;

    /// Returns a live view of a property: it answers from the catalog that
    /// the client holds when it is asked.
    fn get_property_proxy(&self, property_id: &str) -> Result<PropertyProxy, Error>;
}

} // verus!
