//! Controller logic: CVE handling, registry admission, the Horizon to
//! Soroban-RPC migration state machine and secret versioning.
pub mod cve;
pub mod registry_controller;
pub mod stellar_secret_controller;
pub mod migration;
