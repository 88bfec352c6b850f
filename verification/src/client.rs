pub mod app_configuration_client;
pub mod app_configuration_ibm_cloud;
pub mod cache;
pub mod feature_proxy;
pub mod feature_snapshot;
pub mod http;
pub mod monitor;
pub mod property_proxy;
pub mod property_snapshot;
