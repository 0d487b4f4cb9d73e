//! Custom Resource Definitions for Stellar-K8s.
pub mod types;
pub mod stellar_registry;
pub mod secret_policy;
pub mod stellar_secret;
pub mod stellar_aiops;
pub mod stellar_database;
pub mod stellar_disaster_recovery;
pub mod stellar_gitops;
pub mod stellar_network_policy;
pub mod stellar_security;
