use stellar_k8s::controller::stellar_secret_controller::{
    active_status, build_version_history, failed_status, kept_version, reconcile_secret_status,
    rotation_source,
    RotationSource,
};
use stellar_k8s::crd::secret_policy::{AwsKmsConfig, KmsProvider};
use stellar_k8s::crd::stellar_secret::{
    default_rotation_interval, SecretPhase, DynamicSecretConfig, RotationConfig, SecretAuditPolicy,
    SecretBackend, StellarSecretSpec,
};

fn spec(name: &str, backend: SecretBackend, provider: Option<KmsProvider>) -> StellarSecretSpec {
    StellarSecretSpec {
        secret_name: name.into(),
        backend,
        provider,
        aws: None,
        azure: None,
        gcp: None,
        dynamic: DynamicSecretConfig::default(),
        rotation: RotationConfig::default(),
        targets: vec![],
        audit: SecretAuditPolicy::default(),
    }
}

#[test]
fn validate_accepts_vault_backend() {
    let spec = spec("db-creds", SecretBackend::Vault, Some(KmsProvider::Vault));
    assert!(spec.validate().is_ok());
}

#[test]
fn rotation_interval_defaults_to_30_days() {
    let spec = spec("s", SecretBackend::Local, None);
    assert_eq!(spec.rotation_interval_days(), 30);
}

#[test]
fn sample_spec_validates() {
    let spec = spec("postgres-creds", SecretBackend::Vault, Some(KmsProvider::Vault));
    assert!(spec.validate().is_ok());
}

#[test]
fn validate_rejects_each_missing_setting() {
    assert_eq!(
        spec("", SecretBackend::Vault, None).validate().unwrap_err(),
        "secret_name is required"
    );
    assert_eq!(
        spec("s", SecretBackend::Aws, None).validate().unwrap_err(),
        "aws config required when backend=aws"
    );
    assert_eq!(
        spec("s", SecretBackend::Azure, None).validate().unwrap_err(),
        "azure config required when backend=azure"
    );
    let mut with_aws = spec("s", SecretBackend::Aws, Some(KmsProvider::Aws));
    with_aws.aws = Some(AwsKmsConfig {
        region: "us-east-1".into(),
        key_id: "alias/stellar".into(),
    });
    assert!(with_aws.validate().is_ok());
}

#[test]
fn rotation_interval_in_hours_becomes_days() {
    let mut s = spec("s", SecretBackend::Local, None);
    s.rotation.interval = default_rotation_interval();
    assert_eq!(s.rotation_interval_days(), 30);
    s.rotation.interval = "48h".into();
    assert_eq!(s.rotation_interval_days(), 2);
    s.rotation.interval = "23h".into();
    assert_eq!(s.rotation_interval_days(), 0);
    s.rotation.interval = "+72hh".into();
    assert_eq!(s.rotation_interval_days(), 3);
    s.rotation.interval = "7d".into();
    assert_eq!(s.rotation_interval_days(), 30);
    s.rotation.interval = "x2h".into();
    assert_eq!(s.rotation_interval_days(), 30);
    s.rotation.interval = "99999999999h".into();
    assert_eq!(s.rotation_interval_days(), 30);
}

#[test]
fn version_history_respects_retention() {
    let versions = build_version_history(10, 5, chrono::Utc::now().timestamp());
    assert_eq!(versions.len(), 6);
    assert!(versions.last().unwrap().active);
}

#[test]
fn version_history_starts_at_zero() {
    let versions = build_version_history(2, 5, 42);
    let numbers: Vec<u32> = versions.iter().map(|v| v.version).collect();
    assert_eq!(numbers, vec![0, 1, 2]);
    assert_eq!(versions.iter().filter(|v| v.active).count(), 1);
}

#[test]
fn version_history_stamps_records() {
    let versions = build_version_history(3, 1, 42);
    assert_eq!(versions.len(), 2);
    assert_eq!(versions[0].version, 2);
    assert!(!versions[0].active);
    assert!(versions.iter().all(|v| v.created_at == 42));
}

#[test]
fn rotation_source_order() {
    let mut s = spec("s", SecretBackend::Aws, Some(KmsProvider::Aws));
    assert_eq!(rotation_source(&s), RotationSource::Policy);
    s.provider = None;
    assert_eq!(rotation_source(&s), RotationSource::KeepCurrent);
    s.aws = Some(AwsKmsConfig {
        region: "us-east-1".into(),
        key_id: "alias/stellar".into(),
    });
    assert_eq!(rotation_source(&s), RotationSource::AwsKms);
    let local = spec("s", SecretBackend::Local, None);
    assert_eq!(rotation_source(&local), RotationSource::KeepCurrent);
}

#[test]
fn kept_version_is_at_least_one() {
    assert_eq!(kept_version(0), 1);
    assert_eq!(kept_version(1), 1);
    assert_eq!(kept_version(7), 7);
}

#[test]
fn failed_status_carries_message() {
    let status = failed_status("secret_name is required".to_string());
    assert_eq!(status.phase, SecretPhase::Failed);
    assert_eq!(status.current_version, 0);
    assert!(status.versions.is_empty());
    assert_eq!(status.conditions.len(), 1);
    assert_eq!(status.conditions[0].type_, "Ready");
    assert_eq!(status.conditions[0].status, "False");
    assert_eq!(status.conditions[0].reason, "ValidationFailed");
    assert_eq!(status.conditions[0].message, "secret_name is required");
}

#[test]
fn active_status_after_rotation() {
    let status = active_status(4, 2, 1000, 17);
    assert_eq!(status.phase, SecretPhase::Active);
    assert_eq!(status.current_version, 4);
    let numbers: Vec<u32> = status.versions.iter().map(|v| v.version).collect();
    assert_eq!(numbers, vec![2, 3, 4]);
    assert_eq!(status.last_rotation, Some(1000));
    assert_eq!(status.audit_entries_count, 17);
    assert_eq!(status.conditions[0].status, "True");
    assert_eq!(status.conditions[0].reason, "SecretReady");
    assert_eq!(status.conditions[0].message, "rotation complete");
}

#[test]
fn reconcile_status_of_each_kind_of_spec() {
    let invalid = spec("", SecretBackend::Vault, None);
    let st = reconcile_secret_status(&invalid, 3, 9, 100, 2);
    assert_eq!(st.phase, SecretPhase::Failed);
    assert_eq!(st.conditions[0].message, "secret_name is required");

    let mut local = spec("s", SecretBackend::Local, None);
    local.rotation.version_retention = 1;
    let st = reconcile_secret_status(&local, 0, 9, 100, 2);
    assert_eq!(st.phase, SecretPhase::Active);
    assert_eq!(st.current_version, 1);
    assert_eq!(st.versions.len(), 2);
    assert_eq!(st.last_rotation, Some(100));
    assert_eq!(st.audit_entries_count, 2);
    assert_eq!(reconcile_secret_status(&local, 4, 9, 100, 2).current_version, 4);

    let policy = spec("s", SecretBackend::Vault, Some(KmsProvider::Vault));
    let st = reconcile_secret_status(&policy, 4, 9, 100, 2);
    assert_eq!(st.current_version, 9);
    assert!(st.versions.last().unwrap().active);
    assert_eq!(st.versions.last().unwrap().version, 9);
}
