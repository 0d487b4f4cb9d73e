//! CVE detection bookkeeping: severities, per-severity counts, rollout
//! status labels and the image names used by the patch rollout.
use crate::text::{
    after_last, chars_of, last_pos, lemma_last_pos_append, lemma_last_pos_bound, text_after_last,
    text_eq, to_uppercase, unicode_uppercase,
};
use vstd::prelude::*;
use vstd::string::*;

verus! {

/// Annotation keys for CVE tracking.
pub const CVE_SCAN_TIME_ANNOTATION: &'static str = "stellar.org/cve-scan-time";
pub const CVE_DETECTED_ANNOTATION: &'static str = "stellar.org/cve-detected";
pub const CVE_VULNERABLE_IMAGE_ANNOTATION: &'static str = "stellar.org/cve-vulnerable-image";
pub const CVE_PATCHED_VERSION_ANNOTATION: &'static str = "stellar.org/cve-patched-version";
pub const CANARY_DEPLOYMENT_ANNOTATION: &'static str = "stellar.org/canary-deployment";
pub const CANARY_TEST_STATUS_ANNOTATION: &'static str = "stellar.org/canary-test-status";
pub const CVE_ROLLOUT_STATUS_ANNOTATION: &'static str = "stellar.org/cve-rollout-status";
pub const CVE_ROLLBACK_REASON_ANNOTATION: &'static str = "stellar.org/cve-rollback-reason";
pub const CVE_AUTO_PATCH_ANNOTATION: &'static str = "stellar.org/cve-auto-patch";

/// Individual vulnerability.
#[derive(Debug, Clone, PartialEq, Eq)]
pub struct Vulnerability {
    /// CVE identifier (e.g., CVE-2024-1234)
    pub cve_id: String,
    /// Severity level: Critical, High, Medium, Low
    pub severity: VulnerabilitySeverity,
    /// Component affected (e.g., openssl, glibc)
    pub package: String,
    /// Installed version
    pub installed_version: String,
    /// Fixed version
    pub fixed_version: Option<String>,
    /// Description
    pub description: String,
}

/// Vulnerability severity levels, ordered from least to most severe.
#[derive(Debug, Clone, Copy, PartialEq, Eq, PartialOrd, Ord, Structural)]
pub enum VulnerabilitySeverity {
    Unknown,
    Low,
    Medium,
    High,
    Critical,
}

/// The scanner's name of a severity.
pub open spec fn severity_label(s: VulnerabilitySeverity) -> Seq<char> {
    match s {
        VulnerabilitySeverity::Unknown => "UNKNOWN"@,
        VulnerabilitySeverity::Low => "LOW"@,
        VulnerabilitySeverity::Medium => "MEDIUM"@,
        VulnerabilitySeverity::High => "HIGH"@,
        VulnerabilitySeverity::Critical => "CRITICAL"@,
    }
}

impl VulnerabilitySeverity {
    pub fn as_str(&self) -> (s: &'static str)
        ensures
            s@ == severity_label(*self),
    {
        match self {
            VulnerabilitySeverity::Unknown => "UNKNOWN",
            VulnerabilitySeverity::Low => "LOW",
            VulnerabilitySeverity::Medium => "MEDIUM",
            VulnerabilitySeverity::High => "HIGH",
            VulnerabilitySeverity::Critical => "CRITICAL",
        }
    }
}

/// Count of vulnerabilities by severity.
#[derive(Debug, Clone, Copy, PartialEq, Eq, Structural)]
pub struct CVECount {
    pub critical: u32,
    pub high: u32,
    pub medium: u32,
    pub low: u32,
    pub unknown: u32,
}

impl Default for CVECount {
    fn default() -> (c: Self)
        ensures
            c.critical == 0 && c.high == 0 && c.medium == 0 && c.low == 0 && c.unknown == 0,
    {
        CVECount { critical: 0, high: 0, medium: 0, low: 0, unknown: 0 }
    }
}

/// Sum of all counters.
pub open spec fn count_total(c: CVECount) -> int {
    c.critical + c.high + c.medium + c.low + c.unknown
}

/// The counter of a given severity.
pub open spec fn count_of(c: CVECount, s: VulnerabilitySeverity) -> nat {
    match s {
        VulnerabilitySeverity::Critical => c.critical as nat,
        VulnerabilitySeverity::High => c.high as nat,
        VulnerabilitySeverity::Medium => c.medium as nat,
        VulnerabilitySeverity::Low => c.low as nat,
        VulnerabilitySeverity::Unknown => c.unknown as nat,
    }
}

impl CVECount {
    pub fn total(&self) -> (n: u32)
        requires
            count_total(*self) <= u32::MAX,
        ensures
            n == count_total(*self),
    {
        self.critical + self.high + self.medium + self.low + self.unknown
    }
}

/// Status of canary deployment test.
#[derive(Debug, Clone, Copy, PartialEq, Eq, Structural)]
pub enum CanaryTestStatus {
    Pending,
    Running,
    Passed,
    Failed,
    Timeout,
}

impl CanaryTestStatus {
    pub fn as_str(&self) -> (s: &'static str)
        ensures
            s@ == match *self {
                CanaryTestStatus::Pending => "Pending"@,
                CanaryTestStatus::Running => "Running"@,
                CanaryTestStatus::Passed => "Passed"@,
                CanaryTestStatus::Failed => "Failed"@,
                CanaryTestStatus::Timeout => "Timeout"@,
            },
    {
        match self {
            CanaryTestStatus::Pending => "Pending",
            CanaryTestStatus::Running => "Running",
            CanaryTestStatus::Passed => "Passed",
            CanaryTestStatus::Failed => "Failed",
            CanaryTestStatus::Timeout => "Timeout",
        }
    }
}

/// Status of CVE patch rollout.
#[derive(Debug, Clone, Copy, PartialEq, Eq, Structural)]
pub enum CVERolloutStatus {
    Idle,
    CanaryTesting,
    Rolling,
    Complete,
    RollingBack,
    RolledBack,
    Failed,
}

impl CVERolloutStatus {
    pub fn as_str(&self) -> (s: &'static str)
        ensures
            s@ == match *self {
                CVERolloutStatus::Idle => "Idle"@,
                CVERolloutStatus::CanaryTesting => "CanaryTesting"@,
                CVERolloutStatus::Rolling => "Rolling"@,
                CVERolloutStatus::Complete => "Complete"@,
                CVERolloutStatus::RollingBack => "RollingBack"@,
                CVERolloutStatus::RolledBack => "RolledBack"@,
                CVERolloutStatus::Failed => "Failed"@,
            },
    {
        match self {
            CVERolloutStatus::Idle => "Idle",
            CVERolloutStatus::CanaryTesting => "CanaryTesting",
            CVERolloutStatus::Rolling => "Rolling",
            CVERolloutStatus::Complete => "Complete",
            CVERolloutStatus::RollingBack => "RollingBack",
            CVERolloutStatus::RolledBack => "RolledBack",
            CVERolloutStatus::Failed => "Failed",
        }
    }
}

/// The severity a scanner label stands for, given its upper-cased form.
pub open spec fn severity_of_upper(upper: Seq<char>) -> VulnerabilitySeverity {
    if upper == "CRITICAL"@ {
        VulnerabilitySeverity::Critical
    } else if upper == "HIGH"@ {
        VulnerabilitySeverity::High
    } else if upper == "MEDIUM"@ {
        VulnerabilitySeverity::Medium
    } else if upper == "LOW"@ {
        VulnerabilitySeverity::Low
    } else {
        VulnerabilitySeverity::Unknown
    }
}

/// Maps an upper-cased scanner label to a severity; unknown labels give `Unknown`.
pub fn severity_from_upper(upper: &str) -> (s: VulnerabilitySeverity)
    ensures
        s == severity_of_upper(upper@),
{
    if text_eq(upper, "CRITICAL") {
        VulnerabilitySeverity::Critical
    } else if text_eq(upper, "HIGH") {
        VulnerabilitySeverity::High
    } else if text_eq(upper, "MEDIUM") {
        VulnerabilitySeverity::Medium
    } else if text_eq(upper, "LOW") {
        VulnerabilitySeverity::Low
    } else {
        VulnerabilitySeverity::Unknown
    }
}

/// Parses a scanner severity label, case-insensitively.
pub fn parse_severity(severity_str: &str) -> (s: VulnerabilitySeverity)
    ensures
        s == severity_of_upper(unicode_uppercase(severity_str@)),
{
    let upper = to_uppercase(severity_str);
    severity_from_upper(upper.as_str())
}

/// Adds one to the counter of `severity`.
pub fn increment_severity_count(count: &mut CVECount, severity: VulnerabilitySeverity)
    requires
        count_of(*old(count), severity) < u32::MAX,
    ensures
        forall|s: VulnerabilitySeverity|
            #[trigger] count_of(*final(count), s) == count_of(*old(count), s) + (if s == severity {
                1int
            } else {
                0int
            }),
{
    match severity {
        VulnerabilitySeverity::Critical => count.critical = count.critical + 1,
        VulnerabilitySeverity::High => count.high = count.high + 1,
        VulnerabilitySeverity::Medium => count.medium = count.medium + 1,
        VulnerabilitySeverity::Low => count.low = count.low + 1,
        VulnerabilitySeverity::Unknown => count.unknown = count.unknown + 1,
    }
}

/// A vulnerability as reported by the scanner (Trivy's JSON fields).
#[derive(Debug, Clone)]
pub struct ScannerFinding {
    pub vulnerability_id: String,
    pub severity: String,
    pub title: String,
    pub description: String,
    pub installed_version: String,
    pub fixed_version: String,
    pub pkg_name: String,
}

/// The vulnerability recorded for a scanner finding: an empty fixed
/// version means none, and the description is the finding's title.
pub open spec fn finding_matches(v: Vulnerability, f: ScannerFinding) -> bool {
    &&& v.cve_id@ == f.vulnerability_id@
    &&& v.severity == severity_of_upper(unicode_uppercase(f.severity@))
    &&& v.package@ == f.pkg_name@
    &&& v.installed_version@ == f.installed_version@
    &&& v.fixed_version == (if f.fixed_version@.len() == 0 {
        None::<String>
    } else {
        Some(f.fixed_version)
    })
    &&& v.description@ == f.title@
}

/// A vulnerability recorded for a finding carries the finding's identifier,
/// package, installed version and title as they were reported, its fixed
/// version when one was reported (none when empty), and the severity its
/// label names.
pub proof fn law_vulnerability_copies_the_finding(v: Vulnerability, f: ScannerFinding)
    requires
        finding_matches(v, f),
    ensures
        v.cve_id@ == f.vulnerability_id@,
        v.package@ == f.pkg_name@,
        v.installed_version@ == f.installed_version@,
        v.description@ == f.title@,
        f.fixed_version@.len() == 0 ==> v.fixed_version is None,
        f.fixed_version@.len() > 0 ==> v.fixed_version == Some(f.fixed_version),
        v.severity == severity_of_upper(unicode_uppercase(f.severity@)),
{
}

/// How many findings of `fs` have severity `s`.
pub open spec fn findings_with(fs: Seq<ScannerFinding>, s: VulnerabilitySeverity) -> nat
    decreases fs.len(),
{
    if fs.len() == 0 {
        0
    } else {
        findings_with(fs.drop_last(), s) + (if severity_of_upper(
            unicode_uppercase(fs.last().severity@),
        ) == s {
            1nat
        } else {
            0nat
        })
    }
}

proof fn lemma_findings_with_bound(fs: Seq<ScannerFinding>, s: VulnerabilitySeverity)
    ensures
        findings_with(fs, s) <= fs.len(),
    decreases fs.len(),
{
    if fs.len() > 0 {
        lemma_findings_with_bound(fs.drop_last(), s);
    }
}

/// Each finding is counted under exactly one severity: the five counts of
/// a list of findings add up to its length.
pub proof fn law_counts_cover_every_finding(fs: Seq<ScannerFinding>)
    ensures
        findings_with(fs, VulnerabilitySeverity::Critical) + findings_with(fs, VulnerabilitySeverity::High)
            + findings_with(fs, VulnerabilitySeverity::Medium) + findings_with(fs, VulnerabilitySeverity::Low)
            + findings_with(fs, VulnerabilitySeverity::Unknown) == fs.len(),
    decreases fs.len(),
{
    if fs.len() > 0 {
        law_counts_cover_every_finding(fs.drop_last());
    }
}

/// Turns scanner findings into vulnerabilities and counts them by severity.
pub fn collect_findings(findings: Vec<ScannerFinding>) -> (r: (Vec<Vulnerability>, CVECount))
    requires
        findings@.len() <= u32::MAX,
    ensures
        r.0@.len() == findings@.len(),
        forall|i: int| 0 <= i < findings@.len() ==> finding_matches(#[trigger] r.0@[i], findings@[i]),
        forall|i: int|
            0 <= i < findings@.len() ==> (#[trigger] r.0@[i]).installed_version@ == findings@[i].installed_version@
                && r.0@[i].cve_id@ == findings@[i].vulnerability_id@ && r.0@[i].package@
                == findings@[i].pkg_name@ && r.0@[i].description@ == findings@[i].title@,
        forall|s: VulnerabilitySeverity| #[trigger] count_of(r.1, s) == findings_with(findings@, s),
{
    let mut vulnerabilities: Vec<Vulnerability> = Vec::new();
    let mut count = CVECount::default();
    let mut i: usize = 0;
    while i < findings.len()
        invariant
            i <= findings@.len() <= u32::MAX,
            vulnerabilities@.len() == i,
            forall|j: int| 0 <= j < i ==> finding_matches(#[trigger] vulnerabilities@[j], findings@[j]),
            forall|s: VulnerabilitySeverity|
                #[trigger] count_of(count, s) == findings_with(findings@.take(i as int), s),
        decreases findings.len() - i,
    {
        let f = &findings[i];
        let severity = parse_severity(f.severity.as_str());
        proof {
            assert(findings@.take(i as int + 1).drop_last() == findings@.take(i as int));
            assert(findings@.take(i as int + 1).last() == findings@[i as int]);
            lemma_findings_with_bound(findings@.take(i as int), severity);
        }
        increment_severity_count(&mut count, severity);
        let fixed = if f.fixed_version.as_str().is_empty() {
            None
        } else {
            Some(f.fixed_version.clone())
        };
        vulnerabilities.push(
            Vulnerability {
                cve_id: f.vulnerability_id.clone(),
                severity,
                package: f.pkg_name.clone(),
                installed_version: f.installed_version.clone(),
                fixed_version: fixed,
                description: f.title.clone(),
            },
        );
        i = i + 1;
    }
    proof {
        assert(findings@.take(findings@.len() as int) == findings@);
    }
    (vulnerabilities, count)
}

/// Result of a CVE scan of one image.
#[derive(Debug, Clone)]
pub struct CVEDetectionResult {
    /// Current image being scanned
    pub current_image: String,
    /// Detected vulnerabilities with severity levels
    pub vulnerabilities: Vec<Vulnerability>,
    /// Patched version available (if any)
    pub patched_version: Option<String>,
    /// Time of the scan, in seconds since the Unix epoch (UTC)
    pub scan_timestamp: i64,
    /// Total CVE count by severity
    pub cve_count: CVECount,
    /// Whether critical CVEs are present
    pub has_critical: bool,
}

impl CVEDetectionResult {
    /// The CVEs warrant immediate patching.
    pub fn requires_urgent_patch(&self) -> (b: bool)
        ensures
            b == (self.has_critical || self.cve_count.critical > 0),
    {
        self.has_critical || self.cve_count.critical > 0
    }

    /// A patched version is available and there is something to patch.
    pub fn can_patch(&self) -> (b: bool)
        ensures
            b == (self.patched_version is Some && self.vulnerabilities@.len() > 0),
    {
        self.patched_version.is_some() && !self.vulnerabilities.is_empty()
    }
}

/// The result of scanning `image` at `scan_timestamp`, from the scanner's
/// findings: every finding becomes a vulnerability, the counts are taken by
/// severity, and no patched version is known yet.
pub fn scan_result(image: &str, findings: Vec<ScannerFinding>, scan_timestamp: i64) -> (r:
    CVEDetectionResult)
    requires
        findings@.len() <= u32::MAX,
    ensures
        r.current_image@ == image@,
        r.vulnerabilities@.len() == findings@.len(),
        forall|i: int|
            0 <= i < findings@.len() ==> finding_matches(#[trigger] r.vulnerabilities@[i], findings@[i]),
        forall|s: VulnerabilitySeverity| #[trigger] count_of(r.cve_count, s) == findings_with(findings@, s),
        count_total(r.cve_count) == findings@.len(),
        r.has_critical == (r.cve_count.critical > 0),
        r.patched_version is None,
        r.scan_timestamp == scan_timestamp,
{
    proof {
        law_counts_cover_every_finding(findings@);
    }
    let (vulnerabilities, cve_count) = collect_findings(findings);
    proof {
        assert(count_of(cve_count, VulnerabilitySeverity::Critical) == findings_with(findings@, VulnerabilitySeverity::Critical));
        assert(count_of(cve_count, VulnerabilitySeverity::High) == findings_with(findings@, VulnerabilitySeverity::High));
        assert(count_of(cve_count, VulnerabilitySeverity::Medium) == findings_with(findings@, VulnerabilitySeverity::Medium));
        assert(count_of(cve_count, VulnerabilitySeverity::Low) == findings_with(findings@, VulnerabilitySeverity::Low));
        assert(count_of(cve_count, VulnerabilitySeverity::Unknown) == findings_with(findings@, VulnerabilitySeverity::Unknown));
    }
    let has_critical = cve_count.critical > 0;
    CVEDetectionResult {
        current_image: image.to_owned(),
        vulnerabilities,
        patched_version: None,
        scan_timestamp,
        cve_count,
        has_critical,
    }
}

/// The patched image proposed for an image: `<image>-patched` when the
/// image has a tag, `<image>:latest-patched` otherwise.
pub open spec fn patched_image(image: Seq<char>) -> Seq<char> {
    if last_pos(image, ':') >= 0 {
        image + "-patched"@
    } else {
        image + ":latest-patched"@
    }
}

/// The version a patch rollout gives a node is the image's tag with
/// `-patched` appended, or `latest-patched` for an image without a tag.
pub proof fn law_rollout_version_of_patched_image(image: Seq<char>)
    ensures
        after_last(patched_image(image), ':') == (if last_pos(image, ':') >= 0 {
            after_last(image, ':') + "-patched"@
        } else {
            "latest-patched"@
        }),
{
    reveal_strlit("-patched");
    reveal_strlit(":latest-patched");
    reveal_strlit("latest-patched");
    lemma_last_pos_bound(image, ':');
    if last_pos(image, ':') >= 0 {
        let t = "-patched"@;
        lemma_last_pos_append(image, t, ':');
        assert((image + t).skip(last_pos(image, ':') + 1) =~= image.skip(last_pos(image, ':') + 1) + t);
    } else {
        let u = ":latest-patched"@;
        let head = image.push(':');
        let tail = u.skip(1);
        assert(image + u =~= head + tail);
        lemma_last_pos_append(head, tail, ':');
        assert(last_pos(head, ':') == image.len());
        assert((head + tail).skip(image.len() as int + 1) =~= tail);
        assert(tail =~= "latest-patched"@);
    }
}

/// The image the patch rollout moves to (`<name>:<tag>-patched`).
pub fn patched_image_name(current_image: &str) -> (p: String)
    ensures
        p@ == patched_image(current_image@),
{
    let v = chars_of(current_image);
    let k = crate::text::find_last_char(&v, ':');
    let mut p = current_image.to_owned();
    if k > 0 {
        p.append("-patched");
    } else {
        p.append(":latest-patched");
    }
    p
}

/// The version a rolling update sets: the text after the image's last `:`.
pub fn image_version(image: &str) -> (v: String)
    ensures
        v@ == after_last(image@, ':'),
{
    text_after_last(image, ':')
}

/// Name of the canary deployment for a node.
pub fn canary_deployment_name(node_name: &str) -> (n: String)
    ensures
        n@ == node_name@ + "-cve-canary"@,
{
    let mut n = node_name.to_owned();
    n.append("-cve-canary");
    n
}

/// Labels of a node's canary deployment: `app=<node>` and `cve-canary=true`.
pub fn canary_labels(node_name: &str) -> (r: Vec<(String, String)>)
    ensures
        r@.len() == 2,
        r@[0].0@ == "app"@,
        r@[0].1@ == node_name@,
        r@[1].0@ == "cve-canary"@,
        r@[1].1@ == "true"@,
{
    vec![
        (String::from_str("app"), node_name.to_owned()),
        (String::from_str("cve-canary"), String::from_str("true")),
    ]
}

/// A pod is ready when one of its conditions is `Ready` with status `True`;
/// conditions are given as (type, status) pairs.
pub fn pod_conditions_ready(conditions: &[(String, String)]) -> (b: bool)
    ensures
        b == exists|i: int|
            0 <= i < conditions@.len() && (#[trigger] conditions@[i]).0@ == "Ready"@
                && conditions@[i].1@ == "True"@,
{
    let mut i: usize = 0;
    while i < conditions.len()
        invariant
            i <= conditions@.len(),
            forall|j: int|
                0 <= j < i ==> !((#[trigger] conditions@[j]).0@ == "Ready"@ && conditions@[j].1@
                    == "True"@),
        decreases conditions.len() - i,
    {
        if text_eq(conditions[i].0.as_str(), "Ready") && text_eq(conditions[i].1.as_str(), "True") {
            return true;
        }
        i = i + 1;
    }
    false
}

} // verus!
