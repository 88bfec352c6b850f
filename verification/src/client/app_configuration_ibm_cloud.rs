//! The client for catalogs that IBM Cloud serves.
use vstd::prelude::*;
use crate::client::app_configuration_client::AppConfigurationClient;
use crate::client::cache::catalog_of;
use crate::client::cache::catalog_outcome;
use crate::client::cache::law_snapshot_agrees_with_its_catalog;
use crate::client::cache::CatalogView;
use crate::client::cache::ConfigurationSnapshot;
use crate::client::feature_proxy::FeatureProxy;
use crate::client::feature_snapshot::FeatureSnapshot;
use crate::client::property_proxy::PropertyProxy;
use crate::client::property_snapshot::PropertySnapshot;
use crate::errors::ConfigurationAccessError;
use crate::errors::Error;
use crate::models::texts;
use crate::models::Configuration;
use crate::segment_evaluation::AttributesView;

verus! {

/// The environment and the collection that a client is pinned to.
#[derive(Debug)]
pub struct IBMCloudContext {
    pub environment_id: String,
    pub collection_id: String,
}

impl IBMCloudContext {
    /// Creates a context for the given environment and collection.
    pub fn new(environment_id: &str, collection_id: &str) -> (r: Self)
        ensures
            r.environment_id@ == environment_id@,
            r.collection_id@ == collection_id@,
    {
        IBMCloudContext {
            environment_id: environment_id.to_owned(),
            collection_id: collection_id.to_owned(),
        }
    }
}

/// A client that holds the current catalog of its environment.
///
/// The client answers every question from the catalog that it holds at that
/// moment. Fetching documents and sharing the client among threads is the
/// caller's part: the caller hands in each document that it fetched, or the
/// catalog built from it.
#[derive(Debug)]
pub struct AppConfigurationClientIBMCloud {
    latest_config_snapshot: ConfigurationSnapshot,
}

impl View for AppConfigurationClientIBMCloud {
    type V = CatalogView;

    /// The catalog that the client holds.
    closed spec fn view(&self) -> CatalogView {
        self.latest_config_snapshot@
    }
}

impl AppConfigurationClientIBMCloud {
    /// Creates a client from the document that was fetched for its context.
    pub fn new(context: &IBMCloudContext, configuration: Configuration) -> (r: Result<Self, Error>)
        ensures
            match r {
                Ok(client) => catalog_of(configuration@, context.environment_id@) == Ok::<
                    CatalogView,
                    Error,
                >(client@) && client@.intact(),
                Err(e) => catalog_of(configuration@, context.environment_id@) == Err::<
                    CatalogView,
                    Error,
                >(e),
            },
    {
        match Self::get_configuration_snapshot(context, configuration) {
            Ok(catalog) => Ok(AppConfigurationClientIBMCloud { latest_config_snapshot: catalog }),
            Err(e) => Err(e),
        }
    }

    /// Builds the catalog of the context's environment from a document that
    /// was fetched for the context.
    pub fn get_configuration_snapshot(context: &IBMCloudContext, configuration: Configuration) -> (r:
        Result<ConfigurationSnapshot, Error>)
        ensures
            catalog_outcome(r) == catalog_of(configuration@, context.environment_id@),
            r matches Ok(catalog) ==> catalog@.intact(),
    {
        ConfigurationSnapshot::new(context.environment_id.as_str(), configuration)
    }

    /// Puts a catalog in the place of the one that the client holds.
    ///
    /// Every catalog that is installed is intact: each segment that one of
    /// its targeting rules names is in it.
    pub fn install(&mut self, catalog: ConfigurationSnapshot)
        ensures
            final(self)@ == old(self)@.replaced_by(catalog@),
            catalog@.intact(),
    {
        proof {
            use_type_invariant(&catalog);
            catalog.lemma_sound();
        }
        self.latest_config_snapshot = catalog;
    }

    /// The catalog that the client holds.
    pub fn current(&self) -> (r: &ConfigurationSnapshot)
        ensures
            r@ == self@,
            r@.intact(),
    {
        proof {
            use_type_invariant(&self.latest_config_snapshot);
            self.latest_config_snapshot.lemma_sound();
        }
        &self.latest_config_snapshot
    }
}

impl AppConfigurationClient for AppConfigurationClientIBMCloud {
    fn get_feature_ids(&self) -> (r: Result<Vec<String>, Error>)
        ensures
            r matches Ok(ids) && texts(ids@).no_duplicates() && texts(ids@).to_set()
                == self@.features.dom(),
    {
        Ok(self.latest_config_snapshot.feature_ids())
    }

    fn get_feature(&self, feature_id: &str) -> (r: Result<FeatureSnapshot, Error>)
        ensures
            match r {
                Ok(snapshot) => self@.features.contains_key(feature_id@) && snapshot@
                    == self@.feature_snapshot(feature_id@),
                Err(e) => !self@.features.contains_key(feature_id@) && e
                    == Error::ConfigurationAccessError(ConfigurationAccessError::FeatureNotFound),
            },
    {
        self.latest_config_snapshot.feature_snapshot(feature_id)
    }

    /// The proxy is handed out whether or not the catalog holds the
    /// feature: the id is looked up when the proxy is asked.
    fn get_feature_proxy(&self, feature_id: &str) -> (r: Result<FeatureProxy, Error>)
        ensures
            r matches Ok(proxy) && proxy@ == feature_id@,
    {
        Ok(FeatureProxy::new(feature_id.to_owned()))
    }

    fn get_property_ids(&self) -> (r: Result<Vec<String>, Error>)
        ensures
            r matches Ok(ids) && texts(ids@).no_duplicates() && texts(ids@).to_set()
                == self@.properties.dom(),
    {
        Ok(self.latest_config_snapshot.property_ids())
    }

    fn get_property(&self, property_id: &str) -> (r: Result<PropertySnapshot, Error>)
        ensures
            match r {
                Ok(snapshot) => self@.properties.contains_key(property_id@) && snapshot@
                    == self@.property_snapshot(property_id@),
                Err(e) => !self@.properties.contains_key(property_id@) && e
                    == Error::ConfigurationAccessError(ConfigurationAccessError::PropertyNotFound),
            },
    {
        self.latest_config_snapshot.property_snapshot(property_id)
    }

    /// The proxy is handed out whether or not the catalog holds the
    /// property: the id is looked up when the proxy is asked.
    fn get_property_proxy(&self, property_id: &str) -> (r: Result<PropertyProxy, Error>)
        ensures
            r matches Ok(proxy) && proxy@ == property_id@,
    {
        Ok(PropertyProxy::new(property_id.to_owned()))
    }
}

/// A proxy is live: asked once a catalog was installed, it yields what that
/// catalog yields for its id.
pub proof fn law_proxy_is_live(
    held: CatalogView,
    installed: CatalogView,
    id: Seq<char>,
    entity_id: Seq<char>,
    attributes: AttributesView,
)
    ensures
        held.replaced_by(installed).feature_value(id, entity_id, attributes)
            == installed.feature_value(id, entity_id, attributes),
        held.replaced_by(installed).property_value(id, attributes) == installed.property_value(
            id,
            attributes,
        ),
{
}

/// A snapshot is frozen: taken from the catalog that a client held, it
/// yields what that catalog yields, whatever catalog the client holds
/// afterwards.
pub proof fn law_snapshot_is_frozen(
    held: CatalogView,
    installed: CatalogView,
    id: Seq<char>,
    entity_id: Seq<char>,
    attributes: AttributesView,
)
    ensures
        held.features.contains_key(id) ==> held.feature_snapshot(id).value(entity_id, attributes)
            == held.feature_value(id, entity_id, attributes),
        held.properties.contains_key(id) ==> held.property_snapshot(id).value(attributes)
            == held.property_value(id, attributes),
{
    law_snapshot_agrees_with_its_catalog(held, id, entity_id, attributes);
}

} // verus!
