//! Disaster Recovery Custom Resource Definitions: StellarBackup,
//! StellarRestore and StellarDRDrill.
use crate::crd::types::Condition;
use vstd::prelude::*;
use vstd::string::*;

verus! {

/// Desired state of a StellarBackup.
#[derive(Clone, Debug)]
pub struct StellarBackupSpec {
    /// Cron schedule for automated backups
    pub schedule: String,
    /// Backup destination configuration
    pub destination: BackupDestination,
    /// Retention policy for backups
    pub retention_policy: Option<RetentionPolicy>,
    /// Encryption settings
    pub encryption: Option<EncryptionConfig>,
    /// Cross-region replication
    pub cross_region_replication: bool,
    /// Backup verification enabled
    pub verify_backups: bool,
}

#[derive(Clone, Debug)]
pub struct BackupDestination {
    /// Destination type (S3, GCS, AzureBlob)
    pub dest_type: String,
    /// Bucket or container name
    pub bucket: String,
    /// Region or location
    pub region: Option<String>,
    /// Credentials secret reference
    pub credentials_secret: Option<String>,
}

#[derive(Clone, Copy, Debug, PartialEq, Eq, Structural)]
pub struct RetentionPolicy {
    /// Daily backup retention in days
    pub daily_retention_days: u32,
    /// Weekly backup retention in weeks
    pub weekly_retention_weeks: u32,
    /// Monthly backup retention in months
    pub monthly_retention_months: u32,
}

pub fn default_daily_retention() -> (n: u32)
    ensures
        n == 7,
{
    7
}

pub fn default_weekly_retention() -> (n: u32)
    ensures
        n == 4,
{
    4
}

pub fn default_monthly_retention() -> (n: u32)
    ensures
        n == 12,
{
    12
}

#[derive(Clone, Debug)]
pub struct EncryptionConfig {
    /// Enable encryption
    pub enabled: bool,
    /// Encryption algorithm
    pub algorithm: String,
}

pub fn default_encryption_algo() -> (s: String)
    ensures
        s@ == "AES256"@,
{
    String::from_str("AES256")
}

#[derive(Clone, Debug)]
pub struct StellarBackupStatus {
    /// Conditions of this resource
    pub conditions: Vec<Condition>,
    /// Last backup time
    pub last_backup_time: Option<String>,
    /// Total backup count
    pub backup_count: u32,
    /// Total backed up size
    pub total_size: Option<String>,
    /// Backup status
    pub backup_status: Option<String>,
    /// Next scheduled backup time
    pub next_backup_time: Option<String>,
}

impl Default for StellarBackupStatus {
    fn default() -> (s: Self)
        ensures
            s.conditions@.len() == 0,
            s.last_backup_time is None,
            s.backup_count == 0,
            s.total_size is None,
            s.backup_status is Some && s.backup_status->0@ == "Idle"@,
            s.next_backup_time is None,
    {
        StellarBackupStatus {
            conditions: Vec::new(),
            last_backup_time: None,
            backup_count: 0,
            total_size: None,
            backup_status: Some(String::from_str("Idle")),
            next_backup_time: None,
        }
    }
}

/// Desired state of a StellarRestore.
#[derive(Clone, Debug)]
pub struct StellarRestoreSpec {
    /// Reference to backup to restore from
    pub backup_ref: String,
    /// Target ledger number for point-in-time restore
    pub target_ledger: Option<u64>,
    /// Target timestamp for point-in-time restore
    pub target_timestamp: Option<String>,
    /// Parallelism level for restore
    pub parallelism: u32,
    /// Verify restore integrity
    pub verify_restore: bool,
}

pub fn default_parallelism() -> (n: u32)
    ensures
        n == 4,
{
    4
}

#[derive(Clone, Copy, Debug, PartialEq, Eq, Structural)]
pub enum RestorePhase {
    Pending,
    Running,
    Completed,
    Failed,
}

#[derive(Clone, Debug)]
pub struct StellarRestoreStatus {
    /// Current restore phase
    pub phase: Option<String>,
    /// Conditions of this resource
    pub conditions: Vec<Condition>,
    /// Restore progress (0-100)
    pub restore_progress: u32,
    /// Start time of restore
    pub start_time: Option<String>,
    /// Completion time of restore
    pub completion_time: Option<String>,
    /// Estimated remaining time
    pub estimated_remaining_time: Option<String>,
}

impl Default for StellarRestoreStatus {
    fn default() -> (s: Self)
        ensures
            s.phase is Some && s.phase->0@ == "Pending"@,
            s.conditions@.len() == 0,
            s.restore_progress == 0,
            s.start_time is None,
            s.completion_time is None,
            s.estimated_remaining_time is None,
    {
        StellarRestoreStatus {
            phase: Some(String::from_str("Pending")),
            conditions: Vec::new(),
            restore_progress: 0,
            start_time: None,
            completion_time: None,
            estimated_remaining_time: None,
        }
    }
}

/// Desired state of a StellarDRDrill.
#[derive(Clone, Debug)]
pub struct StellarDRDrillSpec {
    /// Cron schedule for DR drills
    pub schedule: String,
    /// Target DR region for failover
    pub dr_region: String,
    /// Automatically revert after drill
    pub auto_revert: bool,
    /// Revert timeout duration
    pub revert_timeout: String,
    /// Email for drill results
    pub notification_email: Option<String>,
    /// Slack channel for notifications
    pub notification_slack: Option<String>,
}

pub fn default_revert_timeout() -> (s: String)
    ensures
        s@ == "1h"@,
{
    String::from_str("1h")
}

#[derive(Clone, Copy, Debug, PartialEq, Eq, Structural)]
pub enum DrillStatus {
    Passed,
    Failed,
    Running,
}

#[derive(Clone, Debug)]
pub struct StellarDRDrillStatus {
    /// Conditions of this resource
    pub conditions: Vec<Condition>,
    /// Last drill time
    pub last_drill_time: Option<String>,
    /// Last drill status
    pub last_drill_status: Option<String>,
    /// Total drill count
    pub drill_count: u32,
    /// Average recovery time
    pub average_recovery_time: Option<String>,
    /// Next scheduled drill time
    pub next_drill_time: Option<String>,
    /// Current drill RTO (Recovery Time Objective)
    pub current_rto: Option<String>,
}

impl Default for StellarDRDrillStatus {
    fn default() -> (s: Self)
        ensures
            s.conditions@.len() == 0,
            s.last_drill_time is None,
            s.last_drill_status is Some && s.last_drill_status->0@ == "Pending"@,
            s.drill_count == 0,
            s.average_recovery_time is None,
            s.next_drill_time is None,
            s.current_rto is None,
    {
        StellarDRDrillStatus {
            conditions: Vec::new(),
            last_drill_time: None,
            last_drill_status: Some(String::from_str("Pending")),
            drill_count: 0,
            average_recovery_time: None,
            next_drill_time: None,
            current_rto: None,
        }
    }
}

} // verus!
