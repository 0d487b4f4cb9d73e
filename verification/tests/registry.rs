use stellar_k8s::controller::cve::CVECount;
use stellar_k8s::controller::registry_controller::{
    check_admission, gc_reclaimed_images, probe_image, reconcile_mirrors,
    registry_outcome,
    summary_from_count, summary_to_cve_count,
};
use stellar_k8s::crd::stellar_registry::{
    RegistryPhase,
    default_max_high, default_scan_interval, default_scanner_endpoint, AdmissionPolicy,
    AutoPatchConfig, GarbageCollectionConfig, RegistryMirror, RegistryProxyConfig,
    ScanningConfig, SigningConfig, StellarRegistrySpec, VulnerabilitySummary,
};

fn sample_spec() -> StellarRegistrySpec {
    StellarRegistrySpec {
        endpoint: "registry.stellar.example.com".to_string(),
        scanning: ScanningConfig::default(),
        signing: SigningConfig {
            enabled: true,
            cosign_public_key_ref: "cosign-key".to_string(),
            require_signature: true,
        },
        admission: AdmissionPolicy::default(),
        mirrors: vec![
            RegistryMirror {
                region: "us-east-1".to_string(),
                endpoint: "registry-us-east.stellar.example.com".to_string(),
                enabled: true,
            },
            RegistryMirror {
                region: "eu-west-1".to_string(),
                endpoint: "registry-eu-west.stellar.example.com".to_string(),
                enabled: true,
            },
            RegistryMirror {
                region: "ap-southeast-1".to_string(),
                endpoint: "registry-ap.stellar.example.com".to_string(),
                enabled: true,
            },
        ],
        garbage_collection: Some(GarbageCollectionConfig {
            enabled: true,
            schedule: "0 2 * * 0".to_string(),
            retention_days: 30,
            dry_run: false,
        }),
        proxy: Some(RegistryProxyConfig {
            enabled: true,
            upstream: "https://registry-1.docker.io".to_string(),
            cache_ttl_hours: 24,
        }),
        auto_patch: Some(AutoPatchConfig {
            enabled: true,
            schedule: "0 3 * * *".to_string(),
        }),
    }
}

/// The registry of the admission tests: scanning enabled, signatures
/// required, unsigned and vulnerable images blocked.
fn admission_registry() -> StellarRegistrySpec {
    let mut spec = sample_spec();
    spec.mirrors = vec![
        RegistryMirror {
            region: "us-east-1".to_string(),
            endpoint: "mirror-us.stellar.example.com".to_string(),
            enabled: true,
        },
        RegistryMirror {
            region: "eu-west-1".to_string(),
            endpoint: "mirror-eu.stellar.example.com".to_string(),
            enabled: true,
        },
        RegistryMirror {
            region: "ap-southeast-1".to_string(),
            endpoint: "mirror-ap.stellar.example.com".to_string(),
            enabled: true,
        },
    ];
    spec.scanning = ScanningConfig {
        enabled: true,
        max_critical_cves: 0,
        max_high_cves: 5,
        ..ScanningConfig::default()
    };
    spec.admission = AdmissionPolicy {
        block_vulnerable: true,
        block_unsigned: true,
        enforce_on_deploy: true,
    };
    spec.garbage_collection = None;
    spec.proxy = None;
    spec.auto_patch = None;
    spec
}

#[test]
fn validate_accepts_valid_spec() {
    assert!(sample_spec().validate().is_ok());
}

#[test]
fn validate_rejects_empty_endpoint() {
    let mut spec = sample_spec();
    spec.endpoint.clear();
    assert!(spec.validate().is_err());
}

#[test]
fn validate_reports_missing_endpoint_first() {
    let mut spec = sample_spec();
    spec.endpoint.clear();
    spec.scanning.enabled = true;
    assert_eq!(spec.validate().unwrap_err(), "endpoint is required");
}

#[test]
fn validate_rejects_enabled_scanning_without_scanner_endpoint() {
    let mut spec = sample_spec();
    spec.scanning.enabled = true;
    assert_eq!(
        spec.validate().unwrap_err(),
        "scanning.endpoint required when scanning is enabled"
    );
    spec.scanning.endpoint = default_scanner_endpoint();
    assert!(spec.validate().is_ok());
}

#[test]
fn vulnerability_summary_total() {
    let summary = VulnerabilitySummary {
        critical: 1,
        high: 2,
        medium: 3,
        low: 4,
        images_scanned: 10,
    };
    assert_eq!(summary.total_cves(), 10);
    assert!(summary.exceeds_threshold(0, 1));
}

#[test]
fn thresholds_are_strict_bounds() {
    let summary = VulnerabilitySummary {
        critical: 2,
        high: 5,
        medium: 0,
        low: 0,
        images_scanned: 1,
    };
    assert!(!summary.exceeds_threshold(2, 5));
    assert!(summary.exceeds_threshold(1, 5));
    assert!(summary.exceeds_threshold(2, 4));
}

#[test]
fn highest_severity_of_summary() {
    let summary = VulnerabilitySummary {
        critical: 0,
        high: 0,
        medium: 1,
        low: 0,
        images_scanned: 5,
    };
    assert_eq!(summary.highest_severity(), "MEDIUM");
    assert_eq!(VulnerabilitySummary::default().highest_severity(), "NONE");
    let critical = VulnerabilitySummary { critical: 3, ..summary };
    assert_eq!(critical.highest_severity(), "CRITICAL");
}

#[test]
fn mirror_regions_filters_disabled() {
    let mut spec = sample_spec();
    spec.mirrors[0].enabled = false;
    assert_eq!(spec.mirror_regions().len(), 2);
}

#[test]
fn mirror_regions_keep_order() {
    let mut spec = sample_spec();
    spec.mirrors[1].enabled = false;
    assert_eq!(spec.mirror_regions(), vec!["us-east-1", "ap-southeast-1"]);
}

#[test]
fn admission_blocks_unsigned_image() {
    let registry = admission_registry();
    let summary = VulnerabilitySummary::default();
    let err = check_admission(
        &registry,
        "registry.stellar.example.com/app:v1",
        false,
        &summary,
    );
    assert!(err.is_err());
    assert!(err.unwrap_err().contains("not signed"));
}

#[test]
fn admission_blocks_vulnerable_image() {
    let registry = admission_registry();
    let summary = VulnerabilitySummary {
        critical: 1,
        high: 0,
        medium: 0,
        low: 0,
        images_scanned: 1,
    };
    let err = check_admission(
        &registry,
        "registry.stellar.example.com/app:v1",
        true,
        &summary,
    );
    assert!(err.is_err());
}

#[test]
fn admission_vulnerable_message_names_counts() {
    let registry = admission_registry();
    let summary = VulnerabilitySummary {
        critical: 1,
        high: 12,
        medium: 0,
        low: 0,
        images_scanned: 1,
    };
    assert_eq!(
        check_admission(&registry, "app:v2", true, &summary).unwrap_err(),
        "image app:v2 exceeds vulnerability threshold (critical=1, high=12)"
    );
}

#[test]
fn admission_allows_compliant_image() {
    let registry = admission_registry();
    let summary = VulnerabilitySummary::default();
    assert!(check_admission(
        &registry,
        "registry.stellar.example.com/app:v1",
        true,
        &summary
    )
    .is_ok());
}

#[test]
fn admission_ignores_unsigned_when_signatures_not_required() {
    let mut registry = admission_registry();
    registry.signing.require_signature = false;
    assert!(check_admission(&registry, "app:v1", false, &VulnerabilitySummary::default()).is_ok());
}

#[test]
fn admission_blocks_unsigned_whenever_signatures_required() {
    let mut registry = admission_registry();
    registry.admission.block_unsigned = false;
    assert_eq!(
        check_admission(&registry, "app:v1", false, &VulnerabilitySummary::default()).unwrap_err(),
        "image app:v1 is not signed with Cosign"
    );
}

#[test]
fn summary_to_cve_count_maps_fields() {
    let summary = VulnerabilitySummary {
        critical: 1,
        high: 2,
        medium: 3,
        low: 4,
        images_scanned: 1,
    };
    let count = summary_to_cve_count(&summary);
    assert_eq!(count.total(), 10);
}

#[test]
fn registry_defaults() {
    assert_eq!(default_scan_interval(), 3600);
    assert_eq!(default_max_high(), 5);
    assert_eq!(default_scanner_endpoint(), "http://trivy.trivy.svc:4954");
}

#[test]
fn reconcile_mirrors_returns_synced_status() {
    let registry = admission_registry();
    let statuses = reconcile_mirrors(&registry.mirrors, chrono::Utc::now().timestamp());
    assert_eq!(statuses.len(), 3);
    assert!(statuses.iter().all(|s| s.synced));
    let stamped = reconcile_mirrors(&registry.mirrors, 1_700_000_000);
    assert!(stamped.iter().all(|s| s.last_sync == Some(1_700_000_000)));
}

#[test]
fn reconcile_mirrors_skips_disabled() {
    let mut registry = sample_spec();
    registry.mirrors[1].enabled = false;
    let statuses = reconcile_mirrors(&registry.mirrors, 5);
    let regions: Vec<&str> = statuses.iter().map(|s| s.region.as_str()).collect();
    assert_eq!(regions, vec!["us-east-1", "ap-southeast-1"]);
}

#[test]
fn garbage_collection_reclaims_images() {
    assert_eq!(gc_reclaimed_images(30, false), 60);
    assert_eq!(gc_reclaimed_images(30, true), 0);
    assert_eq!(gc_reclaimed_images(0, false), 0);
}

#[test]
fn probe_image_and_summary() {
    assert_eq!(
        probe_image("registry.stellar.example.com"),
        "registry.stellar.example.com/stellar-core:latest"
    );
    let count = CVECount {
        critical: 1,
        high: 2,
        medium: 3,
        low: 4,
        unknown: 9,
    };
    let summary = summary_from_count(&count);
    assert_eq!(
        summary,
        VulnerabilitySummary {
            critical: 1,
            high: 2,
            medium: 3,
            low: 4,
            images_scanned: 1,
        }
    );
}

#[test]
fn registry_outcome_follows_thresholds() {
    let registry = admission_registry();
    let clean = VulnerabilitySummary::default();
    let (phase, cond) = registry_outcome(&registry, &clean, "100");
    assert_eq!(phase, RegistryPhase::Active);
    assert_eq!(cond.status, "True");
    assert_eq!(cond.reason, "RegistryCompliant");
    assert_eq!(cond.message, "CVEs: critical=0, high=0, signed=100%");

    let bad = VulnerabilitySummary {
        critical: 0,
        high: 7,
        medium: 0,
        low: 0,
        images_scanned: 1,
    };
    let (phase, cond) = registry_outcome(&registry, &bad, "0");
    assert_eq!(phase, RegistryPhase::Failed);
    assert_eq!(cond.status, "False");
    assert_eq!(cond.reason, "VulnerabilitiesExceeded");
    assert_eq!(cond.message, "CVEs: critical=0, high=7, signed=0%");
}
