//! StellarAIOps Custom Resource Definition: AI-powered incident management
//! settings (those with threshold values are defined by the operator
//! binary, which owns floating-point configuration).
use crate::crd::types::Condition;
use vstd::prelude::*;

verus! {

#[derive(Clone, Debug)]
pub struct AutomatedRemediationConfig {
    /// Enable automated remediation
    pub enabled: bool,
    /// Maximum runbook executions per incident
    pub max_runbook_executions: u32,
    /// Runbooks directory
    pub runbooks_dir: Option<String>,
}

pub fn default_max_runbooks() -> (n: u32)
    ensures
        n == 5,
{
    5
}

#[derive(Clone, Debug)]
pub struct CapacityPlanningConfig {
    /// Enable capacity planning
    pub enabled: bool,
    /// Forecast horizon in days
    pub forecast_horizon_days: u32,
    /// Recommendation engine enabled
    pub recommendation_engine: bool,
}

pub fn default_forecast_days() -> (n: u32)
    ensures
        n == 90,
{
    90
}

#[derive(Clone, Debug)]
pub struct ChatOpsConfig {
    /// Enable ChatOps integration
    pub enabled: bool,
    /// Slack integration
    pub slack: Option<SlackIntegration>,
    /// Teams integration
    pub teams: Option<TeamsIntegration>,
}

#[derive(Clone, Debug)]
pub struct SlackIntegration {
    /// Slack webhook URL secret reference
    pub webhook_secret: String,
    /// Channel to send alerts
    pub channel: String,
}

#[derive(Clone, Debug)]
pub struct TeamsIntegration {
    /// Teams webhook URL secret reference
    pub webhook_secret: String,
}

#[derive(Clone, Debug)]
pub struct StellarAIOpsStatus {
    /// Conditions of this resource
    pub conditions: Vec<Condition>,
    /// Current incident count
    pub incident_count: u32,
    /// Last analysis time
    pub last_analysis_time: Option<String>,
    /// Operational status
    pub operational_status: Option<OperationalStatus>,
    /// Average incident resolution time
    pub average_mttr: Option<String>,
}

#[derive(Clone, Copy, Debug, PartialEq, Eq, Structural)]
pub enum OperationalStatus {
    Healthy,
    Degraded,
    Unhealthy,
}

impl Default for StellarAIOpsStatus {
    fn default() -> (s: Self)
        ensures
            s.conditions@.len() == 0,
            s.incident_count == 0,
            s.last_analysis_time is None,
            s.operational_status == Some(OperationalStatus::Healthy),
            s.average_mttr is None,
    {
        StellarAIOpsStatus {
            conditions: Vec::new(),
            incident_count: 0,
            last_analysis_time: None,
            operational_status: Some(OperationalStatus::Healthy),
            average_mttr: None,
        }
    }
}

} // verus!
