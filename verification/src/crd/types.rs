//! Shared CRD types: node kinds and status conditions.
use vstd::prelude::*;
use vstd::string::*;

verus! {

/// The kind of Stellar workload a `StellarNode` runs.
#[derive(Clone, Copy, Debug, PartialEq, Eq, Structural)]
pub enum NodeType {
    /// Stellar Core validator participating in consensus.
    Validator,
    /// Horizon REST API server.
    Horizon,
    /// Soroban smart-contract RPC server.
    SorobanRpc,
}

/// A Kubernetes-style status condition.
#[derive(Clone, Debug, PartialEq, Eq)]
pub struct Condition {
    /// Condition type, e.g. `Ready`.
    pub type_: String,
    /// `True`, `False` or `Unknown`.
    pub status: String,
    /// Machine-readable reason.
    pub reason: String,
    /// Human-readable message.
    pub message: String,
}

impl Condition {
    /// A `Ready` condition whose status is `True` exactly when `ready` holds.
    pub fn ready(ready: bool, reason: &str, message: &str) -> (c: Condition)
        ensures
            c.type_@ == "Ready"@,
            c.status@ == (if ready { "True"@ } else { "False"@ }),
            c.reason@ == reason@,
            c.message@ == message@,
    {
        Condition {
            type_: String::from_str("Ready"),
            status: if ready { String::from_str("True") } else { String::from_str("False") },
            reason: reason.to_owned(),
            message: message.to_owned(),
        }
    }
}

} // verus!
