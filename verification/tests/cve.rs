use stellar_k8s::controller::cve::{
    canary_deployment_name, canary_labels, collect_findings, image_version, increment_severity_count,
    parse_severity, patched_image_name, pod_conditions_ready, scan_result, severity_from_upper,
    CVECount, CVEDetectionResult, CVERolloutStatus, CanaryTestStatus, ScannerFinding,
    VulnerabilitySeverity,
};

fn finding(id: &str, severity: &str, fixed: &str) -> ScannerFinding {
    ScannerFinding {
        vulnerability_id: id.to_string(),
        severity: severity.to_string(),
        title: format!("title of {id}"),
        description: format!("description of {id}"),
        installed_version: "1.0.0".to_string(),
        fixed_version: fixed.to_string(),
        pkg_name: "openssl".to_string(),
    }
}

#[test]
fn test_vulnerability_severity_ordering() {
    assert!(VulnerabilitySeverity::Critical > VulnerabilitySeverity::High);
    assert!(VulnerabilitySeverity::High > VulnerabilitySeverity::Medium);
    assert!(VulnerabilitySeverity::Medium > VulnerabilitySeverity::Low);
    assert!(VulnerabilitySeverity::Low > VulnerabilitySeverity::Unknown);
}

#[test]
fn test_cve_count_total() {
    let count = CVECount {
        critical: 1,
        high: 2,
        medium: 3,
        low: 4,
        unknown: 5,
    };
    assert_eq!(count.total(), 15);
}

#[test]
fn test_cve_detection_requires_urgent_patch() {
    let result_critical = CVEDetectionResult {
        current_image: "stellar/core:latest".to_string(),
        vulnerabilities: vec![],
        patched_version: Some("stellar/core:v21.0.1".to_string()),
        scan_timestamp: chrono::Utc::now().timestamp(),
        cve_count: CVECount {
            critical: 1,
            ..Default::default()
        },
        has_critical: true,
    };
    assert!(result_critical.requires_urgent_patch());

    let result_safe = CVEDetectionResult {
        current_image: "stellar/core:latest".to_string(),
        vulnerabilities: vec![],
        patched_version: None,
        scan_timestamp: chrono::Utc::now().timestamp(),
        cve_count: CVECount::default(),
        has_critical: false,
    };
    assert!(!result_safe.requires_urgent_patch());
}

#[test]
fn urgent_patch_follows_critical_count_alone() {
    let result = CVEDetectionResult {
        current_image: "stellar/core:v1".to_string(),
        vulnerabilities: vec![],
        patched_version: None,
        scan_timestamp: 0,
        cve_count: CVECount {
            critical: 2,
            ..Default::default()
        },
        has_critical: false,
    };
    assert!(result.requires_urgent_patch());
}

#[test]
fn can_patch_needs_patched_version_and_vulnerabilities() {
    let (vulns, count) = collect_findings(vec![finding("CVE-1", "HIGH", "")]);
    let with_both = CVEDetectionResult {
        current_image: "stellar/core:v1".to_string(),
        vulnerabilities: vulns.clone(),
        patched_version: Some("stellar/core:v1-patched".to_string()),
        scan_timestamp: 0,
        cve_count: count,
        has_critical: false,
    };
    assert!(with_both.can_patch());

    let mut no_version = with_both.clone();
    no_version.patched_version = None;
    assert!(!no_version.can_patch());

    let mut no_vulns = with_both.clone();
    no_vulns.vulnerabilities = vec![];
    assert!(!no_vulns.can_patch());
}

#[test]
fn severity_labels_round_trip() {
    for s in [
        VulnerabilitySeverity::Unknown,
        VulnerabilitySeverity::Low,
        VulnerabilitySeverity::Medium,
        VulnerabilitySeverity::High,
        VulnerabilitySeverity::Critical,
    ] {
        assert_eq!(severity_from_upper(s.as_str()), s);
        assert_eq!(parse_severity(s.as_str()), s);
    }
    assert_eq!(VulnerabilitySeverity::Critical.as_str(), "CRITICAL");
    assert_eq!(VulnerabilitySeverity::Unknown.as_str(), "UNKNOWN");
}

#[test]
fn parse_severity_ignores_case() {
    assert_eq!(parse_severity("critical"), VulnerabilitySeverity::Critical);
    assert_eq!(parse_severity("High"), VulnerabilitySeverity::High);
    assert_eq!(parse_severity("mEdIuM"), VulnerabilitySeverity::Medium);
    assert_eq!(parse_severity("low"), VulnerabilitySeverity::Low);
}

#[test]
fn parse_severity_unknown_label() {
    assert_eq!(parse_severity("negligible"), VulnerabilitySeverity::Unknown);
    assert_eq!(parse_severity(""), VulnerabilitySeverity::Unknown);
    assert_eq!(severity_from_upper("critical"), VulnerabilitySeverity::Unknown);
}

#[test]
fn increment_touches_one_counter() {
    let mut count = CVECount::default();
    increment_severity_count(&mut count, VulnerabilitySeverity::High);
    increment_severity_count(&mut count, VulnerabilitySeverity::High);
    increment_severity_count(&mut count, VulnerabilitySeverity::Unknown);
    assert_eq!(count.high, 2);
    assert_eq!(count.unknown, 1);
    assert_eq!(count.critical, 0);
    assert_eq!(count.medium, 0);
    assert_eq!(count.low, 0);
    assert_eq!(count.total(), 3);
}

#[test]
fn collect_findings_counts_and_maps() {
    let findings = vec![
        finding("CVE-2024-0001", "CRITICAL", "1.0.1"),
        finding("CVE-2024-0002", "high", ""),
        finding("CVE-2024-0003", "LOW", "2.0"),
        finding("CVE-2024-0004", "bogus", ""),
    ];
    let (vulns, count) = collect_findings(findings);
    assert_eq!(vulns.len(), 4);
    assert_eq!(vulns[0].cve_id, "CVE-2024-0001");
    assert_eq!(vulns[0].severity, VulnerabilitySeverity::Critical);
    assert_eq!(vulns[0].fixed_version, Some("1.0.1".to_string()));
    assert_eq!(vulns[0].description, "title of CVE-2024-0001");
    assert_eq!(vulns[0].package, "openssl");
    assert_eq!(vulns[1].fixed_version, None);
    assert_eq!(vulns[3].severity, VulnerabilitySeverity::Unknown);
    assert_eq!(count.critical, 1);
    assert_eq!(count.high, 1);
    assert_eq!(count.low, 1);
    assert_eq!(count.unknown, 1);
    assert_eq!(count.medium, 0);
}

#[test]
fn scan_result_flags_critical() {
    let result = scan_result(
        "stellar/core:v21",
        vec![finding("CVE-1", "CRITICAL", ""), finding("CVE-2", "MEDIUM", "")],
        1_700_000_000,
    );
    assert_eq!(result.current_image, "stellar/core:v21");
    assert!(result.has_critical);
    assert!(result.requires_urgent_patch());
    assert_eq!(result.cve_count.total(), 2);
    assert_eq!(result.patched_version, None);
    assert_eq!(result.scan_timestamp, 1_700_000_000);
    assert!(!result.can_patch());

    let clean = scan_result("stellar/core:v21", vec![], 5);
    assert!(!clean.has_critical);
    assert!(clean.vulnerabilities.is_empty());
}

#[test]
fn patched_image_name_keeps_tag() {
    assert_eq!(patched_image_name("stellar/core:v21.0.1"), "stellar/core:v21.0.1-patched");
    assert_eq!(patched_image_name("stellar/core"), "stellar/core:latest-patched");
    assert_eq!(
        patched_image_name("localhost:5000/core:v1"),
        "localhost:5000/core:v1-patched"
    );
}

#[test]
fn image_version_is_text_after_last_colon() {
    assert_eq!(image_version("stellar/core:v21.0.1"), "v21.0.1");
    assert_eq!(image_version("localhost:5000/core:v1"), "v1");
    assert_eq!(image_version("stellar/core"), "stellar/core");
}

#[test]
fn canary_name_has_suffix() {
    assert_eq!(canary_deployment_name("validator-1"), "validator-1-cve-canary");
}

#[test]
fn pod_ready_needs_ready_true() {
    let ready = vec![
        ("Initialized".to_string(), "True".to_string()),
        ("Ready".to_string(), "True".to_string()),
    ];
    assert!(pod_conditions_ready(&ready));
    let not_ready = vec![("Ready".to_string(), "False".to_string())];
    assert!(!pod_conditions_ready(&not_ready));
    assert!(!pod_conditions_ready(&[]));
}

#[test]
fn status_labels() {
    assert_eq!(CanaryTestStatus::Timeout.as_str(), "Timeout");
    assert_eq!(CanaryTestStatus::Passed.as_str(), "Passed");
    assert_eq!(CVERolloutStatus::RollingBack.as_str(), "RollingBack");
    assert_eq!(CVERolloutStatus::Idle.as_str(), "Idle");
}

#[test]
fn rollout_version_of_patched_image() {
    assert_eq!(
        image_version(&patched_image_name("stellar/core:v21.0.1")),
        "v21.0.1-patched"
    );
    assert_eq!(
        image_version(&patched_image_name("stellar/core")),
        "latest-patched"
    );
}

#[test]
fn canary_labels_name_the_node() {
    assert_eq!(
        canary_labels("validator-1"),
        vec![
            ("app".to_string(), "validator-1".to_string()),
            ("cve-canary".to_string(), "true".to_string()),
        ]
    );
}
