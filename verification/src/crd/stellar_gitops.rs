//! StellarGitOpsConfig Custom Resource Definition: GitOps integration with
//! ArgoCD and Flux CD for declarative infrastructure management and
//! progressive delivery.
use crate::crd::types::Condition;
use std::collections::BTreeMap;
use vstd::prelude::*;
use vstd::string::*;

verus! {

/// Desired state of a StellarGitOpsConfig.
#[derive(Clone, Debug)]
pub struct StellarGitOpsConfigSpec {
    /// GitOps provider to use (ArgoCD or FluxCD)
    pub provider: GitOpsProvider,
    /// Enable or disable GitOps
    pub enabled: bool,
    /// Git repository configuration
    pub git_repository: Option<GitRepositoryConfig>,
    /// ArgoCD-specific configuration
    pub argocd_config: Option<ArgoCDConfig>,
    /// Flux CD-specific configuration
    pub fluxcd_config: Option<FluxCDConfig>,
    /// Progressive delivery configuration
    pub progressive_delivery: Option<ProgressiveDeliveryConfig>,
    /// Auto-sync policy labels
    pub labels: Option<BTreeMap<String, String>>,
}

#[derive(Clone, Copy, Debug, PartialEq, Eq, Structural)]
pub enum GitOpsProvider {
    ArgoCD,
    FluxCD,
}

#[derive(Clone, Debug)]
pub struct GitRepositoryConfig {
    /// Git repository URL
    pub url: String,
    /// Git branch to track
    pub branch: String,
    /// Sync interval (e.g., "1m", "5m", "1h")
    pub interval: String,
    /// Credentials secret reference
    pub credentials_secret: Option<String>,
}

pub fn default_branch() -> (s: String)
    ensures
        s@ == "main"@,
{
    String::from_str("main")
}

pub fn default_sync_interval() -> (s: String)
    ensures
        s@ == "1m"@,
{
    String::from_str("1m")
}

#[derive(Clone, Debug)]
pub struct ArgoCDConfig {
    /// ArgoCD project name
    pub project: String,
    /// Sync policy (Manual or Auto)
    pub sync_policy: Option<ArgoCDSyncPolicy>,
    /// Health assessment enabled
    pub auto_health_assessment: bool,
}

pub fn default_project() -> (s: String)
    ensures
        s@ == "default"@,
{
    String::from_str("default")
}

#[derive(Clone, Copy, Debug, PartialEq, Eq, Structural)]
pub enum ArgoCDSyncPolicy {
    Manual,
    Auto,
}

#[derive(Clone, Debug)]
pub struct FluxCDConfig {
    /// Kustomization interval
    pub kustomize_interval: Option<String>,
    /// HelmRelease interval
    pub helm_interval: Option<String>,
    /// Suspend reconciliation
    pub suspend: bool,
}

#[derive(Clone, Debug)]
pub struct ProgressiveDeliveryConfig {
    /// Enable Flagger canary deployments
    pub canary_enabled: bool,
    /// Canary weight increment
    pub canary_weight_increment: i32,
    /// Canary interval between steps
    pub canary_interval: Option<String>,
}

pub fn default_canary_increment() -> (n: i32)
    ensures
        n == 10,
{
    10
}

#[derive(Clone, Debug)]
pub struct StellarGitOpsConfigStatus {
    /// Conditions of this resource
    pub conditions: Vec<Condition>,
    /// Last sync time
    pub last_sync_time: Option<String>,
    /// Sync status (Synced, OutOfSync, or Unknown)
    pub sync_status: Option<SyncStatus>,
    /// Drift detected
    pub drift_detected: bool,
}

#[derive(Clone, Copy, Debug, PartialEq, Eq, Structural)]
pub enum SyncStatus {
    Synced,
    OutOfSync,
    Unknown,
}

impl Default for StellarGitOpsConfigStatus {
    fn default() -> (s: Self)
        ensures
            s.conditions@.len() == 0,
            s.last_sync_time is None,
            s.sync_status == Some(SyncStatus::Unknown),
            !s.drift_detected,
    {
        StellarGitOpsConfigStatus {
            conditions: Vec::new(),
            last_sync_time: None,
            sync_status: Some(SyncStatus::Unknown),
            drift_detected: false,
        }
    }
}

} // verus!
