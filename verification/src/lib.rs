//! Verified core of the Stellar-K8s operator: CRD validation rules, data
//! pipeline partitioning and quality checks, CVE bookkeeping, the
//! Horizon-to-Soroban migration state machine and preflight evaluation.
pub mod commands;
pub mod controller;
pub mod crd;
pub mod data_pipeline;
pub mod error;
pub mod preflight;
pub mod text;

pub use error::{Error, Result};
