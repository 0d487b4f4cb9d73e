use stellar_k8s::crd::stellar_aiops::{
    default_forecast_days, default_max_runbooks, OperationalStatus, StellarAIOpsStatus,
};
use stellar_k8s::crd::stellar_database::DatabasePhase;
use stellar_k8s::crd::stellar_disaster_recovery::{
    default_daily_retention, default_encryption_algo, default_monthly_retention,
    default_parallelism, default_revert_timeout, default_weekly_retention, StellarBackupStatus,
    StellarDRDrillStatus, StellarRestoreStatus,
};
use stellar_k8s::crd::stellar_gitops::{
    default_branch, default_canary_increment, default_project, default_sync_interval,
    StellarGitOpsConfigStatus, SyncStatus,
};
use stellar_k8s::crd::stellar_network_policy::{default_enforcement_enabled, default_learning_mode};
use stellar_k8s::crd::stellar_secret::{
    default_ttl, default_version_retention, SecretPhase, StellarSecretStatus,
};
use stellar_k8s::crd::stellar_security::{ComplianceStatus, StellarSecurityPolicyStatus};

#[test]
fn disaster_recovery_defaults() {
    assert_eq!(default_daily_retention(), 7);
    assert_eq!(default_weekly_retention(), 4);
    assert_eq!(default_monthly_retention(), 12);
    assert_eq!(default_encryption_algo(), "AES256");
    assert_eq!(default_parallelism(), 4);
    assert_eq!(default_revert_timeout(), "1h");

    let backup = StellarBackupStatus::default();
    assert_eq!(backup.backup_status.as_deref(), Some("Idle"));
    assert_eq!(backup.backup_count, 0);
    let restore = StellarRestoreStatus::default();
    assert_eq!(restore.phase.as_deref(), Some("Pending"));
    assert_eq!(restore.restore_progress, 0);
    let drill = StellarDRDrillStatus::default();
    assert_eq!(drill.last_drill_status.as_deref(), Some("Pending"));
    assert_eq!(drill.drill_count, 0);
    assert!(drill.current_rto.is_none());
}

#[test]
fn gitops_defaults() {
    assert_eq!(default_branch(), "main");
    assert_eq!(default_sync_interval(), "1m");
    assert_eq!(default_project(), "default");
    assert_eq!(default_canary_increment(), 10);
    let status = StellarGitOpsConfigStatus::default();
    assert_eq!(status.sync_status, Some(SyncStatus::Unknown));
    assert!(!status.drift_detected);
}

#[test]
fn aiops_defaults() {
    assert_eq!(default_max_runbooks(), 5);
    assert_eq!(default_forecast_days(), 90);
    let status = StellarAIOpsStatus::default();
    assert_eq!(status.operational_status, Some(OperationalStatus::Healthy));
    assert_eq!(status.incident_count, 0);
}

#[test]
fn network_policy_defaults() {
    assert!(default_enforcement_enabled());
    assert!(!default_learning_mode());
}

#[test]
fn secret_defaults() {
    assert_eq!(default_ttl(), "1h");
    assert_eq!(default_version_retention(), 5);
    let status = StellarSecretStatus::default();
    assert_eq!(status.phase, SecretPhase::Pending);
    assert!(status.versions.is_empty());
    assert!(status.last_rotation.is_none());
}

#[test]
fn security_and_database_defaults() {
    let status = StellarSecurityPolicyStatus::default();
    assert_eq!(status.compliance_status, Some(ComplianceStatus::Unknown));
    assert_eq!(status.compliance_score, Some(0));
    assert_eq!(DatabasePhase::default(), DatabasePhase::Pending);
}
