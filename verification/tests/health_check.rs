use stellar_k8s::commands::health_check::{
    cargo_version, check_line, file_check, git_clean_check, health_check_verdict, health_checks,
    required_repo_files, version_tag_check, Check, HealthCheckArgs,
};

#[test]
fn check_file_pass_for_existing_file() {
    // Cargo.toml always exists at the crate root.
    let c = file_check("Cargo.toml", "Cargo.toml", true);
    assert!(c.passed);
    assert_eq!(c.message, "Cargo.toml found");
}

#[test]
fn check_file_fail_for_missing_file() {
    let c = file_check("Missing", "this/file/does/not/exist.txt", false);
    assert!(!c.passed);
    assert_eq!(c.message, "this/file/does/not/exist.txt is missing");
}

const TOML: &str = "[package]\nname = \"stellar-k8s\"\n  version = \"0.4.2\"\nedition = \"2021\"\n";

#[test]
fn cargo_version_reads_first_version_line() {
    assert_eq!(cargo_version(TOML), Some("0.4.2".to_string()));
    assert_eq!(cargo_version("[package]\nname = \"x\"\n"), None);
    // a version line without a quote has no value
    assert_eq!(cargo_version("version = 1\nversion = \"2\"\n"), None);
    // `versions =` is not a version line
    assert_eq!(
        cargo_version("versions = \"9\"\nversion = \"1.0\"\n"),
        Some("1.0".to_string())
    );
}

#[test]
fn version_tag_untagged_head() {
    let c = version_tag_check(TOML, Some("\n"));
    assert!(c.passed);
    assert_eq!(c.name, "Cargo version / tag");
    assert_eq!(c.message, "Cargo.toml version = 0.4.2 (HEAD is not tagged)");
    let c = version_tag_check(TOML, Some(""));
    assert!(c.passed);
}

#[test]
fn version_tag_matching_tag() {
    let c = version_tag_check(TOML, Some("release-x\nv0.4.2\n"));
    assert!(c.passed);
    assert_eq!(c.message, "v0.4.2 matches HEAD tag");
    let c = version_tag_check(TOML, Some("0.4.2\n"));
    assert!(c.passed);
}

#[test]
fn version_tag_mismatch_lists_tags() {
    let c = version_tag_check(TOML, Some("v0.4.1\nv0.5.0\n"));
    assert!(!c.passed);
    assert_eq!(
        c.message,
        "Cargo.toml=0.4.2 does not match HEAD tags: [\"v0.4.1\", \"v0.5.0\"]"
    );
}

#[test]
fn version_tag_without_git_or_version() {
    let c = version_tag_check(TOML, None);
    assert!(c.passed);
    assert_eq!(
        c.message,
        "Cargo.toml version = 0.4.2 (git unavailable, skipped tag check)"
    );
    let c = version_tag_check("[package]\n", Some("v1\n"));
    assert!(!c.passed);
    assert_eq!(c.message, "version field not found in Cargo.toml");
}

#[test]
fn git_clean_outcomes() {
    let c = git_clean_check(Some(""));
    assert!(c.passed);
    assert_eq!(c.message, "no uncommitted changes");
    let c = git_clean_check(Some(" M src/lib.rs\n?? notes.txt\n"));
    assert!(!c.passed);
    assert_eq!(
        c.message,
        "2 uncommitted change(s):  M src/lib.rs, ?? notes.txt"
    );
    let c = git_clean_check(None);
    assert!(c.passed);
    assert_eq!(c.message, "git unavailable — skipped");
    assert_eq!(c.name, "Working tree");
}

#[test]
fn check_lines_text_and_json() {
    let c = Check::fail("README", "README.md is \"missing\"".to_string());
    assert_eq!(check_line(&c, false), "  [✗] README: README.md is \"missing\"");
    assert_eq!(
        check_line(&c, true),
        "{\"check\":\"README\",\"status\":\"fail\",\"message\":\"README.md is \\\"missing\\\"\"}"
    );
    let ok = Check::pass("LICENSE", "LICENSE found".to_string());
    assert_eq!(check_line(&ok, false), "  [✓] LICENSE: LICENSE found");
}

#[test]
fn verdict_counts_failures() {
    let checks = vec![
        Check::pass("a", "ok".to_string()),
        Check::fail("b", "bad".to_string()),
        Check::fail("c", "bad".to_string()),
    ];
    let (passed, result) = health_check_verdict(&checks);
    assert_eq!(passed, 1);
    assert_eq!(
        result.unwrap_err().message(),
        "2 of 3 health-check(s) failed"
    );
    let (passed, result) = health_check_verdict(&checks[..1]);
    assert_eq!(passed, 1);
    assert!(result.is_ok());
}

#[test]
fn health_checks_in_report_order() {
    let files = required_repo_files();
    assert_eq!(files.len(), 7);
    assert_eq!(files[0], ("README", "README.md"));
    assert_eq!(files[6], ("Release process doc", "docs/release-process.md"));
    let present = [true, true, false, true, true, true, true];
    let args = HealthCheckArgs { allow_dirty: false, json: false };
    let checks = health_checks(args, &present, Ok(TOML), Some(""), Some(""));
    assert_eq!(checks.len(), 9);
    assert_eq!(checks[2].name, "CONTRIBUTING");
    assert!(!checks[2].passed);
    assert_eq!(checks[2].message, "CONTRIBUTING.md is missing");
    assert_eq!(checks[7].name, "Cargo version / tag");
    assert!(checks[7].passed);
    assert_eq!(checks[8].name, "Working tree");

    let dirty_ok = HealthCheckArgs { allow_dirty: true, json: false };
    let checks = health_checks(dirty_ok, &present, Err("No such file"), None, None);
    assert_eq!(checks.len(), 8);
    assert!(!checks[7].passed);
    assert_eq!(checks[7].message, "cannot read Cargo.toml: No such file");
    assert_eq!(health_check_verdict(&checks).0, 6);
}
