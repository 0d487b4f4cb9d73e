//! StellarSecurityPolicy Custom Resource Definition: security and
//! compliance settings (monitoring thresholds, which are floating-point, are
//! defined by the operator binary).
use crate::crd::types::Condition;
use vstd::prelude::*;

verus! {

#[derive(Clone, Debug)]
pub struct PodSecurityStandardsConfig {
    /// Pod security standard level
    pub enforce_level: Option<PodSecurityLevel>,
    /// Audit level
    pub audit_level: Option<PodSecurityLevel>,
}

#[derive(Clone, Copy, Debug, PartialEq, Eq, Structural)]
pub enum PodSecurityLevel {
    Baseline,
    Restricted,
    Privileged,
}

#[derive(Clone, Copy, Debug, PartialEq, Eq, Structural)]
pub struct NetworkPoliciesConfig {
    /// Enable network policies
    pub enabled: bool,
    /// Default deny all ingress
    pub default_deny_ingress: bool,
    /// Default deny all egress
    pub default_deny_egress: bool,
    /// Auto-generate network policies
    pub auto_generate: bool,
}

#[derive(Clone, Debug)]
pub struct SecretManagementConfig {
    /// Enable secret management
    pub enabled: bool,
    /// Secret provider (Vault, AWSSecretsManager, or Sealed)
    pub provider: Option<SecretProvider>,
    /// Secret rotation interval
    pub rotation_interval: Option<String>,
    /// Encryption algorithm
    pub encryption_algorithm: Option<String>,
}

#[derive(Clone, Copy, Debug, PartialEq, Eq, Structural)]
pub enum SecretProvider {
    Vault,
    AWSSecretsManager,
    Sealed,
}

#[derive(Clone, Copy, Debug, PartialEq, Eq, Structural)]
pub struct RBACConfig {
    /// Enable RBAC
    pub enabled: bool,
    /// OIDC/SAML authentication enabled
    pub external_auth_enabled: bool,
    /// MFA required
    pub mfa_required: bool,
}

#[derive(Clone, Copy, Debug, PartialEq, Eq, Structural)]
#[allow(non_camel_case_types)]
pub enum ComplianceFramework {
    SOC2,
    GDPR,
    PCI_DSS,
    HIPAA,
}

#[derive(Clone, Debug)]
pub struct AutomatedScanningConfig {
    /// Enable vulnerability scanning
    pub vulnerability_scan_enabled: bool,
    /// Container image scan enabled
    pub image_scan_enabled: bool,
    /// Dependency scan enabled
    pub dependency_scan_enabled: bool,
    /// Scan schedule (cron format)
    pub scan_schedule: Option<String>,
}

#[derive(Clone, Debug)]
pub struct StellarSecurityPolicyStatus {
    /// Conditions of this resource
    pub conditions: Vec<Condition>,
    /// Compliance status
    pub compliance_status: Option<ComplianceStatus>,
    /// Last audit time
    pub last_audit_time: Option<String>,
    /// Vulnerability count
    pub vulnerability_count: u32,
    /// Policy violations count
    pub policy_violations: u32,
    /// Compliance score (0-100)
    pub compliance_score: Option<u32>,
}

#[derive(Clone, Copy, Debug, PartialEq, Eq, Structural)]
pub enum ComplianceStatus {
    Compliant,
    NonCompliant,
    Unknown,
}

impl Default for StellarSecurityPolicyStatus {
    fn default() -> (s: Self)
        ensures
            s.conditions@.len() == 0,
            s.compliance_status == Some(ComplianceStatus::Unknown),
            s.last_audit_time is None,
            s.vulnerability_count == 0,
            s.policy_violations == 0,
            s.compliance_score == Some(0u32),
    {
        StellarSecurityPolicyStatus {
            conditions: Vec::new(),
            compliance_status: Some(ComplianceStatus::Unknown),
            last_audit_time: None,
            vulnerability_count: 0,
            policy_violations: 0,
            compliance_score: Some(0),
        }
    }
}

} // verus!
