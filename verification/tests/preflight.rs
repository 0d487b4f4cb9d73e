use stellar_k8s::preflight::{
    crd_installed_check, diagnostic_line, lease_check, namespace_check, rbac_check, summary_line,
    NamespaceLookup,
    evaluate_results, gh_auth_verdict, gh_label_list_error, gh_preflight_repo, gh_timeout_error,
    label_names, local_preflight_verdict, missing_labels, summarize_results,
    unresolved_labels_error, CheckResult, CheckSeverity, REQUIRED_GH_LABELS,
    REQUIRED_LOCAL_TOOLS,
};
use stellar_k8s::Error;

#[test]
fn local_preflight_passes_with_no_tools() {
    // An empty tool list should always pass.
    let result = local_preflight_verdict(&[], &[]);
    assert!(result.is_ok(), "empty tool list should pass");
}

#[test]
fn local_preflight_fails_for_nonexistent_tool() {
    let fake_tools: &[(&str, &str)] = &[(
        "__nonexistent_binary_xyz__",
        "Install from https://example.com",
    )];
    // The binary cannot be found on the PATH.
    let result = local_preflight_verdict(fake_tools, &[false]);
    assert!(result.is_err(), "missing binary must cause failure");
    let msg = result.unwrap_err().message();
    assert!(
        msg.contains("__nonexistent_binary_xyz__"),
        "error message must name the missing binary"
    );
    assert!(
        msg.contains("https://example.com"),
        "error message must include the install hint"
    );
}

#[test]
fn required_gh_labels_includes_maintenance_and_hygiene() {
    assert!(
        REQUIRED_GH_LABELS.contains(&"maintenance"),
        "REQUIRED_GH_LABELS must include 'maintenance'"
    );
    assert!(
        REQUIRED_GH_LABELS.contains(&"hygiene"),
        "REQUIRED_GH_LABELS must include 'hygiene'"
    );
}

#[test]
fn required_local_tools_includes_gh() {
    let binaries: Vec<&str> = REQUIRED_LOCAL_TOOLS.iter().map(|(b, _)| *b).collect();
    assert!(
        binaries.contains(&"gh"),
        "REQUIRED_LOCAL_TOOLS must include the 'gh' CLI"
    );
}

#[test]
fn local_preflight_message_lists_missing_tools() {
    let tools: &[(&str, &str)] = &[("a", "get a"), ("b", "get b"), ("c", "get c")];
    let result = local_preflight_verdict(tools, &[false, true, false]);
    assert_eq!(
        result,
        Err(Error::ConfigError(
            "Local preflight failed — 2 tool(s) missing.\n\nInstall instructions:\n  • a: get a\n  • c: get c"
                .to_string()
        ))
    );
    assert!(local_preflight_verdict(tools, &[true, true, true]).is_ok());
}

#[test]
fn evaluate_results_reports_critical_failures_only() {
    let results = vec![
        CheckResult::pass("crd", CheckSeverity::Critical, "installed".to_string()),
        CheckResult::fail("rbac", CheckSeverity::Critical, "no access".to_string()),
        CheckResult::fail("lease", CheckSeverity::Warning, "no lease".to_string()),
        CheckResult::fail("namespace", CheckSeverity::Critical, "missing".to_string()),
    ];
    let err = evaluate_results(&results).unwrap_err();
    assert_eq!(
        err.message(),
        "Preflight checks failed — operator cannot start safely:\nrbac: no access\nnamespace: missing"
    );
    let summary = summarize_results(&results);
    assert_eq!(summary.total, 4);
    assert_eq!(summary.passed, 1);
    assert_eq!(summary.critical_failures, 2);
}

#[test]
fn evaluate_results_passes_with_warnings() {
    let results = vec![
        CheckResult::pass("crd", CheckSeverity::Critical, "ok".to_string()),
        CheckResult::fail("lease", CheckSeverity::Warning, "no lease".to_string()),
    ];
    assert!(evaluate_results(&results).is_ok());
    assert!(evaluate_results(&[]).is_ok());
}

#[test]
fn missing_labels_keeps_required_order() {
    let existing = vec!["security".to_string(), "ci".to_string()];
    let missing = missing_labels(&REQUIRED_GH_LABELS, &existing);
    assert_eq!(missing, vec!["stellar-wave", "maintenance", "hygiene"]);
    let all: Vec<String> = REQUIRED_GH_LABELS.iter().map(|l| l.to_string()).collect();
    assert!(missing_labels(&REQUIRED_GH_LABELS, &all).is_empty());
}

#[test]
fn label_names_drop_empty() {
    let names = vec!["ci".to_string(), String::new(), "security".to_string()];
    assert_eq!(
        label_names(names),
        vec!["ci".to_string(), "security".to_string()]
    );
}

#[test]
fn unresolved_labels_message() {
    let err = unresolved_labels_error(
        "stellar/k8s",
        &vec!["maintenance".to_string(), "hygiene".to_string()],
    );
    assert_eq!(
        err.message(),
        "GitHub label preflight failed for stellar/k8s. Missing labels that could not be created: maintenance, hygiene"
    );
}

#[test]
fn gh_repo_is_trimmed_or_skipped() {
    assert_eq!(gh_preflight_repo(None), None);
    assert_eq!(gh_preflight_repo(Some("   ")), None);
    assert_eq!(gh_preflight_repo(Some("")), None);
    assert_eq!(
        gh_preflight_repo(Some("  stellar/k8s\n")),
        Some("stellar/k8s".to_string())
    );
}

#[test]
fn gh_timeout_message() {
    assert_eq!(
        gh_timeout_error("checking auth").message(),
        "GitHub preflight timed out after 5s while checking auth"
    );
}

#[test]
fn gh_auth_verdicts() {
    assert!(gh_auth_verdict(true, "", "Logged in to github.com as someone").is_ok());
    assert_eq!(
        gh_auth_verdict(false, "  token expired \n", "").unwrap_err().message(),
        "GitHub auth preflight failed: token expired. Run `gh auth login` and retry."
    );
    assert_eq!(
        gh_auth_verdict(true, "", "You are NOT LOGGED IN to any hosts").unwrap_err().message(),
        "GitHub auth preflight failed: no active gh session found. Run `gh auth login` and retry."
    );
    assert!(gh_auth_verdict(true, "", "github.com: No Token found").is_err());
}

#[test]
fn gh_label_list_failure_message() {
    assert_eq!(
        gh_label_list_error("stellar/k8s", "HTTP 404\n").message(),
        "GitHub label preflight failed for stellar/k8s: HTTP 404"
    );
}

#[test]
fn crd_check_messages() {
    let ok = crd_installed_check(None);
    assert!(ok.passed);
    assert_eq!(ok.name, "CRD Installed");
    assert_eq!(ok.message, "StellarNode CRD is present and accessible");
    let bad = crd_installed_check(Some("404 not found"));
    assert!(!bad.passed);
    assert_eq!(bad.severity, CheckSeverity::Critical);
    assert_eq!(
        bad.message,
        "StellarNode CRD not found — install it with: kubectl apply -f config/crd/stellarnode-crd.yaml (404 not found)"
    );
}

#[test]
fn rbac_check_first_failure_decides() {
    let ok = rbac_check("stellar", None, None);
    assert!(ok.passed);
    assert_eq!(ok.message, "Sufficient permissions verified in namespace 'stellar'");
    let d = rbac_check("stellar", Some("forbidden"), Some("also"));
    assert!(!d.passed);
    assert_eq!(
        d.message,
        "Cannot list Deployments in namespace 'stellar' — check ClusterRole/RoleBinding (forbidden)"
    );
    let c = rbac_check("stellar", None, Some("forbidden"));
    assert_eq!(
        c.message,
        "Cannot list ConfigMaps in namespace 'stellar' — check ClusterRole/RoleBinding (forbidden)"
    );
}

#[test]
fn namespace_check_severities() {
    let found = namespace_check("stellar", &NamespaceLookup::Found);
    assert!(found.passed);
    assert_eq!(found.message, "Namespace 'stellar' exists");
    let missing = namespace_check("stellar", &NamespaceLookup::NotFound);
    assert!(!missing.passed);
    assert_eq!(missing.severity, CheckSeverity::Critical);
    assert_eq!(
        missing.message,
        "Namespace 'stellar' does not exist — create it with: kubectl create namespace stellar"
    );
    let failed = namespace_check("stellar", &NamespaceLookup::Failed("timeout".to_string()));
    assert!(!failed.passed);
    assert_eq!(failed.severity, CheckSeverity::Warning);
    assert_eq!(failed.message, "Could not verify namespace 'stellar': timeout");
}

#[test]
fn lease_check_messages() {
    assert_eq!(
        lease_check("ops", None).message,
        "Lease API accessible in namespace 'ops'"
    );
    let bad = lease_check("ops", Some("forbidden"));
    assert!(!bad.passed);
    assert_eq!(
        bad.message,
        "Cannot access Lease resources in namespace 'ops' — ensure the operator ServiceAccount has 'coordination.k8s.io' RBAC permissions (forbidden)"
    );
}

#[test]
fn diagnostic_lines() {
    let pass = CheckResult::pass("crd", CheckSeverity::Critical, "ok".to_string());
    assert_eq!(diagnostic_line(&pass), "  [PASS] crd - ok");
    let warn = CheckResult::fail("lease", CheckSeverity::Warning, "no lease".to_string());
    assert_eq!(diagnostic_line(&warn), "  [FAIL][WARNING] lease - no lease");
    let crit = CheckResult::fail("rbac", CheckSeverity::Critical, "denied".to_string());
    assert_eq!(diagnostic_line(&crit), "  [FAIL][CRITICAL] rbac - denied");
    let summary = summarize_results(&[pass, warn, crit]);
    assert_eq!(
        summary_line(&summary),
        "=== Preflight Summary: 1/3 checks passed, 1 critical failure(s) ==="
    );
}

#[test]
fn gh_repo_trims_unicode_whitespace() {
    assert_eq!(
        gh_preflight_repo(Some("\u{3000}\tstellar/k8s\u{00A0}\u{2028}")),
        Some("stellar/k8s".to_string())
    );
    assert_eq!(gh_preflight_repo(Some("\u{2003}\u{0085}")), None);
}
