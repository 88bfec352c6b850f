//! Client-side evaluation of feature flags and dynamic properties against a
//! centrally managed catalog.
//!
//! An application asks whether a feature is on for an entity (a user, a
//! request) and what value a property takes for it. The answer comes from a
//! catalog of features, properties and segments:
//!
//! - [`models`] holds the catalog as plain data, [`integrity`] what a
//!   catalog asks of its resources, and [`client::cache`] the catalog
//!   itself, each resource by its id.
//! - [`segment_evaluation`] tests the attributes of an entity against
//!   segments and finds the targeting rule that applies; [`rollout`] is the
//!   gate that lets a percentage of the entities in.
//! - [`client::feature_snapshot`] and [`client::property_snapshot`]
//!   evaluate a resource and hold the frozen views, [`client::feature_proxy`]
//!   and [`client::property_proxy`] the live ones.
//! - [`client::app_configuration_ibm_cloud`] is the client that holds the
//!   current catalog; [`client::monitor`] says how it is kept current and
//!   [`client::http`] which requests that takes.
//!
//! The library neither sends nor waits: documents come in as values, and
//! requests go out as descriptions.
pub mod client;
pub mod decimal;
pub mod dictionary;
pub mod entity;
pub mod errors;
pub mod feature;
pub mod integrity;
pub mod models;
pub mod property;
pub mod rollout;
pub mod segment_evaluation;
pub mod text;
pub mod value;

pub use client::app_configuration_client::AppConfigurationClient;
pub use client::app_configuration_ibm_cloud::AppConfigurationClientIBMCloud;
pub use client::app_configuration_ibm_cloud::IBMCloudContext;
pub use entity::Entity;
pub use errors::{Error, Result};
pub use feature::Feature;
pub use property::Property;
pub use value::{Float64, Value};
