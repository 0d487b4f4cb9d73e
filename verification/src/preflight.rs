//! Operator startup self-test: what the preflight checks conclude.
//!
//! Probing tools, the GitHub CLI and the cluster is the caller's work; this
//! module decides from the results which checks failed and what the
//! operator reports.
use crate::error::{Error, Result};
use crate::text::{
    append_decimal, decimal, has_substring, join, join_strings, text_contains, text_eq, text_trim,
    to_lowercase, trim, unicode_lowercase,
};
use vstd::prelude::*;
use vstd::string::*;

verus! {

/// Labels required by issue automation before opening new issues.
pub const REQUIRED_GH_LABELS: [&'static str; 5] = ["ci", "security", "stellar-wave", "maintenance", "hygiene"];

/// Tools that must be present for local development and CI to function.
/// Each entry is `(binary, install_hint)`.
pub const REQUIRED_LOCAL_TOOLS: [(&'static str, &'static str); 6] = [
    ("docker", "Install Docker Engine: https://docs.docker.com/engine/install/"),
    ("kind", "Install kind: https://kind.sigs.k8s.io/docs/user/quick-start/#installation"),
    ("kubectl", "Install kubectl: https://kubernetes.io/docs/tasks/tools/"),
    ("helm", "Install Helm 3: https://helm.sh/docs/intro/install/"),
    ("cargo", "Install Rust via rustup: https://rustup.rs/"),
    ("gh", "Install GitHub CLI: https://cli.github.com/"),
];

/// Severity of a preflight check result.
#[derive(Debug, Clone, Copy, PartialEq, Eq, Structural)]
pub enum CheckSeverity {
    /// Failure means the operator cannot function correctly
    Critical,
    /// Failure is a warning but the operator can still run
    Warning,
}

/// Result of a single preflight check.
#[derive(Debug, Clone)]
pub struct CheckResult {
    pub name: &'static str,
    pub passed: bool,
    pub severity: CheckSeverity,
    pub message: String,
}

impl CheckResult {
    /// A passed check.
    pub fn pass(name: &'static str, severity: CheckSeverity, msg: String) -> (r: Self)
        ensures
            r.name == name,
            r.passed,
            r.severity == severity,
            r.message == msg,
    {
        CheckResult { name, passed: true, severity, message: msg }
    }

    /// A failed check.
    pub fn fail(name: &'static str, severity: CheckSeverity, msg: String) -> (r: Self)
        ensures
            r.name == name,
            !r.passed,
            r.severity == severity,
            r.message == msg,
    {
        CheckResult { name, passed: false, severity, message: msg }
    }
}

/// A failed check whose severity is critical.
pub open spec fn critical_failure(r: CheckResult) -> bool {
    !r.passed && r.severity == CheckSeverity::Critical
}

/// `name: message` for every critical failure, in order.
pub open spec fn critical_failure_lines(rs: Seq<CheckResult>) -> Seq<Seq<char>>
    decreases rs.len(),
{
    if rs.len() == 0 {
        Seq::empty()
    } else if critical_failure(rs.last()) {
        critical_failure_lines(rs.drop_last()).push(rs.last().name@ + ": "@ + rs.last().message@)
    } else {
        critical_failure_lines(rs.drop_last())
    }
}

/// The number of passed checks.
pub open spec fn passed_count(rs: Seq<CheckResult>) -> nat
    decreases rs.len(),
{
    if rs.len() == 0 {
        0
    } else {
        passed_count(rs.drop_last()) + (if rs.last().passed {
            1nat
        } else {
            0nat
        })
    }
}

/// The error the operator stops with when critical checks failed.
pub open spec fn preflight_error(rs: Seq<CheckResult>) -> Option<Seq<char>> {
    if critical_failure_lines(rs).len() == 0 {
        None
    } else {
        Some(
            "Preflight checks failed — operator cannot start safely:\n"@ + join(
                critical_failure_lines(rs),
                "\n"@,
            ),
        )
    }
}

/// Returns an error naming every critical failure, or `Ok` when there is none.
pub fn evaluate_results(results: &[CheckResult]) -> (r: Result<()>)
    ensures
        match r {
            Ok(_) => preflight_error(results@) is None,
            Err(Error::ConfigError(m)) => preflight_error(results@) == Some(m@),
        },
{
    let mut lines: Vec<String> = Vec::new();
    let mut i: usize = 0;
    while i < results.len()
        invariant
            i <= results@.len(),
            lines@.map_values(|l: String| l@) == critical_failure_lines(results@.take(i as int)),
        decreases results.len() - i,
    {
        proof {
            assert(results@.take(i as int + 1).drop_last() == results@.take(i as int));
            assert(results@.take(i as int + 1).last() == results@[i as int]);
        }
        let r = &results[i];
        if !r.passed && r.severity == CheckSeverity::Critical {
            let mut line = r.name.to_owned();
            line.append(": ");
            line.append(r.message.as_str());
            let ghost before = lines@;
            lines.push(line);
            proof {
                assert(lines@.map_values(|l: String| l@) =~= before.map_values(|l: String| l@).push(
                    lines@.last()@,
                ));
            }
        }
        i = i + 1;
    }
    proof {
        assert(results@.take(results@.len() as int) == results@);
    }
    if lines.len() == 0 {
        return Ok(());
    }
    let mut msg = String::from_str("Preflight checks failed — operator cannot start safely:\n");
    let joined = join_strings(&lines, "\n");
    msg.append(joined.as_str());
    Err(Error::ConfigError(msg))
}

/// The operator refuses to start exactly when the diagnostics count a
/// critical failure, and the refusal lists every one of them.
pub proof fn law_start_refused_iff_critical_failure(rs: Seq<CheckResult>)
    ensures
        (preflight_error(rs) is Some) <==> critical_failure_lines(rs).len() > 0,
        (critical_failure_lines(rs).len() > 0) <==> (exists|i: int|
            0 <= i < rs.len() && critical_failure(#[trigger] rs[i])),
    decreases rs.len(),
{
    if rs.len() > 0 {
        let r0 = rs.drop_last();
        law_start_refused_iff_critical_failure(r0);
        if exists|i: int| 0 <= i < r0.len() && critical_failure(#[trigger] r0[i]) {
            let i = choose|i: int| 0 <= i < r0.len() && critical_failure(#[trigger] r0[i]);
            assert(rs[i] == r0[i]);
        }
        if exists|i: int| 0 <= i < rs.len() && critical_failure(#[trigger] rs[i]) {
            let i = choose|i: int| 0 <= i < rs.len() && critical_failure(#[trigger] rs[i]);
            if i < rs.len() - 1 {
                assert(rs[i] == r0[i]);
            }
        }
    }
}

/// Counts of a preflight run: checks, passed checks, critical failures.
#[derive(Debug, Clone, Copy, PartialEq, Eq, Structural)]
pub struct DiagnosticSummary {
    pub total: usize,
    pub passed: usize,
    pub critical_failures: usize,
}

/// The counts printed at the end of the diagnostics.
pub fn summarize_results(results: &[CheckResult]) -> (s: DiagnosticSummary)
    ensures
        s.total == results@.len(),
        s.passed == passed_count(results@),
        s.critical_failures == critical_failure_lines(results@).len(),
{
    let mut passed: usize = 0;
    let mut critical: usize = 0;
    let mut i: usize = 0;
    while i < results.len()
        invariant
            i <= results@.len(),
            passed == passed_count(results@.take(i as int)),
            critical == critical_failure_lines(results@.take(i as int)).len(),
            passed <= i,
            critical <= i,
        decreases results.len() - i,
    {
        proof {
            assert(results@.take(i as int + 1).drop_last() == results@.take(i as int));
            assert(results@.take(i as int + 1).last() == results@[i as int]);
        }
        if results[i].passed {
            passed = passed + 1;
        }
        if !results[i].passed && results[i].severity == CheckSeverity::Critical {
            critical = critical + 1;
        }
        i = i + 1;
    }
    proof {
        assert(results@.take(results@.len() as int) == results@);
    }
    DiagnosticSummary { total: results.len(), passed, critical_failures: critical }
}

/// `binary: hint` for every tool that is not available, in order.
pub open spec fn missing_tool_lines(tools: Seq<(&str, &str)>, available: Seq<bool>) -> Seq<Seq<char>>
    decreases tools.len(),
{
    if tools.len() == 0 || available.len() != tools.len() {
        Seq::empty()
    } else if !available.last() {
        missing_tool_lines(tools.drop_last(), available.drop_last()).push(
            tools.last().0@ + ": "@ + tools.last().1@,
        )
    } else {
        missing_tool_lines(tools.drop_last(), available.drop_last())
    }
}

/// Each line prefixed by a bullet.
pub open spec fn bulleted(lines: Seq<Seq<char>>) -> Seq<Seq<char>> {
    lines.map_values(|l: Seq<char>| "  • "@ + l)
}

/// The error of the local preflight when tools are missing.
pub open spec fn local_preflight_error(tools: Seq<(&str, &str)>, available: Seq<bool>) -> Option<
    Seq<char>,
> {
    let missing = missing_tool_lines(tools, available);
    if missing.len() == 0 {
        None
    } else {
        Some(
            "Local preflight failed — "@ + decimal(missing.len()) + " tool(s) missing.\n\nInstall instructions:\n"@
                + join(bulleted(missing), "\n"@),
        )
    }
}

/// The local preflight fails exactly when some tool is missing, and its
/// report names every missing tool with its install hint.
pub proof fn law_local_preflight_reports_every_missing_tool(tools: Seq<(&str, &str)>, available: Seq<bool>)
    requires
        tools.len() == available.len(),
    ensures
        (local_preflight_error(tools, available) is None) <==> (forall|i: int|
            0 <= i < available.len() ==> #[trigger] available[i]),
        forall|i: int|
            0 <= i < tools.len() && !available[i] ==> missing_tool_lines(tools, available).contains(
                (#[trigger] tools[i]).0@ + ": "@ + tools[i].1@,
            ),
    decreases tools.len(),
{
    if tools.len() > 0 {
        let (t0, a0) = (tools.drop_last(), available.drop_last());
        law_local_preflight_reports_every_missing_tool(t0, a0);
        let prev = missing_tool_lines(t0, a0);
        let cur = missing_tool_lines(tools, available);
        assert forall|i: int| 0 <= i < tools.len() && !available[i] implies cur.contains(
            (#[trigger] tools[i]).0@ + ": "@ + tools[i].1@,
        ) by {
            if i < tools.len() - 1 {
                assert(t0[i] == tools[i]);
                assert(a0[i] == available[i]);
                let w = choose|k: int| 0 <= k < prev.len() && prev[k] == t0[i].0@ + ": "@ + t0[i].1@;
                if !available.last() {
                    assert(cur[w] == prev[w]);
                }
            } else {
                assert(cur.last() == tools[i].0@ + ": "@ + tools[i].1@);
            }
        }
        if forall|i: int| 0 <= i < available.len() ==> #[trigger] available[i] {
            assert(available.last() == available[available.len() - 1]);
            assert forall|i: int| 0 <= i < a0.len() implies #[trigger] a0[i] by {
                assert(a0[i] == available[i]);
            }
        } else {
            let j = choose|i: int| 0 <= i < available.len() && !#[trigger] available[i];
            assert(cur.contains(tools[j].0@ + ": "@ + tools[j].1@));
        }
    }
}

/// Concludes the local development preflight from which tools were found:
/// an error listing every missing tool with its install hint, or `Ok`.
pub fn local_preflight_verdict(tools: &[(&str, &str)], available: &[bool]) -> (r: Result<()>)
    requires
        tools@.len() == available@.len(),
    ensures
        match r {
            Ok(_) => local_preflight_error(tools@, available@) is None,
            Err(Error::ConfigError(m)) => local_preflight_error(tools@, available@) == Some(m@),
        },
{
    let mut missing: Vec<String> = Vec::new();
    let mut bullets: Vec<String> = Vec::new();
    let mut i: usize = 0;
    while i < tools.len()
        invariant
            i <= tools@.len(),
            tools@.len() == available@.len(),
            missing@.map_values(|l: String| l@) == missing_tool_lines(
                tools@.take(i as int),
                available@.take(i as int),
            ),
            bullets@.map_values(|l: String| l@) == bulleted(missing@.map_values(|l: String| l@)),
            missing@.len() <= i,
        decreases tools.len() - i,
    {
        proof {
            assert(tools@.take(i as int + 1).drop_last() == tools@.take(i as int));
            assert(available@.take(i as int + 1).drop_last() == available@.take(i as int));
            assert(tools@.take(i as int + 1).last() == tools@[i as int]);
            assert(available@.take(i as int + 1).last() == available@[i as int]);
        }
        if !available[i] {
            let (binary, hint) = tools[i];
            let mut line = binary.to_owned();
            line.append(": ");
            line.append(hint);
            let mut bullet = String::from_str("  • ");
            bullet.append(line.as_str());
            let ghost m0 = missing@;
            let ghost b0 = bullets@;
            missing.push(line);
            bullets.push(bullet);
            proof {
                assert(missing@.map_values(|l: String| l@) =~= m0.map_values(|l: String| l@).push(
                    missing@.last()@,
                ));
                let mv = m0.map_values(|l: String| l@);
                assert(bulleted(mv.push(missing@.last()@)) =~= bulleted(mv).push(
                    "  • "@ + missing@.last()@,
                ));
                assert(bullets@.map_values(|l: String| l@) =~= b0.map_values(|l: String| l@).push(
                    bullets@.last()@,
                ));
                assert(bullets@.map_values(|l: String| l@) =~= bulleted(
                    missing@.map_values(|l: String| l@),
                ));
            }
        }
        i = i + 1;
    }
    proof {
        assert(tools@.take(tools@.len() as int) == tools@);
        assert(available@.take(available@.len() as int) == available@);
    }
    if missing.len() == 0 {
        return Ok(());
    }
    let mut msg = String::from_str("Local preflight failed — ");
    append_decimal(&mut msg, missing.len() as u64);
    msg.append(" tool(s) missing.\n\nInstall instructions:\n");
    let joined = join_strings(&bullets, "\n");
    msg.append(joined.as_str());
    Err(Error::ConfigError(msg))
}

/// Whether `label` is one of `existing`.
pub open spec fn has_label(existing: Seq<String>, label: Seq<char>) -> bool {
    exists|j: int| 0 <= j < existing.len() && (#[trigger] existing[j])@ == label
}

/// The required labels that are not among the existing ones, in order.
pub open spec fn labels_missing(required: Seq<&str>, existing: Seq<String>) -> Seq<Seq<char>>
    decreases required.len(),
{
    if required.len() == 0 {
        Seq::empty()
    } else if has_label(existing, required.last()@) {
        labels_missing(required.drop_last(), existing)
    } else {
        labels_missing(required.drop_last(), existing).push(required.last()@)
    }
}

fn contains_label(existing: &[String], label: &str) -> (b: bool)
    ensures
        b == has_label(existing@, label@),
{
    let mut j: usize = 0;
    while j < existing.len()
        invariant
            j <= existing@.len(),
            forall|k: int| 0 <= k < j ==> (#[trigger] existing@[k])@ != label@,
        decreases existing.len() - j,
    {
        if text_eq(existing[j].as_str(), label) {
            return true;
        }
        j = j + 1;
    }
    false
}

/// A label is reported missing exactly when it is required and the
/// repository does not have it.
pub proof fn law_missing_labels_are_exactly_the_absent_ones(required: Seq<&str>, existing: Seq<String>)
    ensures
        forall|l: Seq<char>|
            #[trigger] labels_missing(required, existing).contains(l) <==> (!has_label(existing, l) && exists|i: int|
                0 <= i < required.len() && (#[trigger] required[i])@ == l),
    decreases required.len(),
{
    if required.len() > 0 {
        let r0 = required.drop_last();
        law_missing_labels_are_exactly_the_absent_ones(r0, existing);
        let prev = labels_missing(r0, existing);
        let cur = labels_missing(required, existing);
        assert forall|l: Seq<char>|
            #[trigger] cur.contains(l) <==> (!has_label(existing, l) && exists|i: int|
                0 <= i < required.len() && (#[trigger] required[i])@ == l) by {
            if cur.contains(l) {
                if prev.contains(l) {
                    let i = choose|i: int| 0 <= i < r0.len() && (#[trigger] r0[i])@ == l;
                    assert(required[i] == r0[i]);
                } else {
                    let k = choose|k: int| 0 <= k < cur.len() && cur[k] == l;
                    assert(cur == prev.push(required.last()@));
                    assert(k == prev.len());
                    assert(required[required.len() - 1]@ == l);
                }
            }
            if !has_label(existing, l) && exists|i: int| 0 <= i < required.len() && (#[trigger] required[i])@ == l {
                let i = choose|i: int| 0 <= i < required.len() && (#[trigger] required[i])@ == l;
                if i < required.len() - 1 {
                    assert(r0[i] == required[i]);
                    assert(prev.contains(l));
                    let w = choose|k: int| 0 <= k < prev.len() && prev[k] == l;
                    if !has_label(existing, required.last()@) {
                        assert(cur[w] == prev[w]);
                    }
                } else {
                    assert(cur.last() == l);
                }
            }
        }
    }
}

/// The required labels that the repository does not have yet.
pub fn missing_labels<'a>(required: &[&'a str], existing: &[String]) -> (m: Vec<&'a str>)
    ensures
        m@.map_values(|l: &str| l@) == labels_missing(required@, existing@),
{
    let mut m: Vec<&'a str> = Vec::new();
    let mut i: usize = 0;
    while i < required.len()
        invariant
            i <= required@.len(),
            m@.map_values(|l: &str| l@) == labels_missing(required@.take(i as int), existing@),
        decreases required.len() - i,
    {
        proof {
            assert(required@.take(i as int + 1).drop_last() == required@.take(i as int));
            assert(required@.take(i as int + 1).last() == required@[i as int]);
        }
        if !contains_label(existing, required[i]) {
            let ghost before = m@;
            m.push(required[i]);
            proof {
                assert(m@.map_values(|l: &str| l@) =~= before.map_values(|l: &str| l@).push(
                    required@[i as int]@,
                ));
            }
        }
        i = i + 1;
    }
    proof {
        assert(required@.take(required@.len() as int) == required@);
    }
    m
}

/// The non-empty names, in order.
pub open spec fn nonempty_names(names: Seq<Seq<char>>) -> Seq<Seq<char>>
    decreases names.len(),
{
    if names.len() == 0 {
        Seq::empty()
    } else if names.last().len() == 0 {
        nonempty_names(names.drop_last())
    } else {
        nonempty_names(names.drop_last()).push(names.last())
    }
}

/// Label names as listed by the GitHub CLI, without empty names.
pub fn label_names(names: Vec<String>) -> (r: Vec<String>)
    ensures
        r@.map_values(|l: String| l@) == nonempty_names(names@.map_values(|l: String| l@)),
{
    let ghost views = names@.map_values(|l: String| l@);
    let mut r: Vec<String> = Vec::new();
    let mut i: usize = 0;
    while i < names.len()
        invariant
            i <= names@.len(),
            views == names@.map_values(|l: String| l@),
            r@.map_values(|l: String| l@) == nonempty_names(views.take(i as int)),
        decreases names.len() - i,
    {
        proof {
            assert(views.take(i as int + 1).drop_last() == views.take(i as int));
            assert(views.take(i as int + 1).last() == names@[i as int]@);
        }
        if !names[i].as_str().is_empty() {
            let ghost before = r@;
            r.push(names[i].clone());
            proof {
                assert(r@.map_values(|l: String| l@) =~= before.map_values(|l: String| l@).push(
                    names@[i as int]@,
                ));
            }
        }
        i = i + 1;
    }
    proof {
        assert(views.take(names@.len() as int) == views);
    }
    r
}

/// The error reported when missing labels could not be created.
pub fn unresolved_labels_error(repo: &str, unresolved: &Vec<String>) -> (e: Error)
    ensures
        e == Error::ConfigError(e->ConfigError_0),
        e->ConfigError_0@ == "GitHub label preflight failed for "@ + repo@
            + ". Missing labels that could not be created: "@ + join(
            unresolved@.map_values(|l: String| l@),
            ", "@,
        ),
{
    let mut msg = String::from_str("GitHub label preflight failed for ");
    msg.append(repo);
    msg.append(". Missing labels that could not be created: ");
    let joined = join_strings(unresolved, ", ");
    msg.append(joined.as_str());
    Error::ConfigError(msg)
}

/// Seconds the GitHub preflight may take in all.
pub const GH_PREFLIGHT_TIMEOUT_SECS: u64 = 5;

/// The repository the GitHub label preflight checks: the given name without
/// surrounding whitespace; none (the preflight is skipped) when that is empty.
pub fn gh_preflight_repo(repo: Option<&str>) -> (r: Option<String>)
    ensures
        match repo {
            None => r is None,
            Some(x) => if trim(x@).len() == 0 {
                r is None
            } else {
                r is Some && r->0@ == trim(x@)
            },
        },
{
    match repo {
        None => None,
        Some(x) => {
            let t = text_trim(x);
            if t.as_str().is_empty() {
                None
            } else {
                Some(t)
            }
        },
    }
}

/// The error of a GitHub preflight stage that ran past its deadline.
pub fn gh_timeout_error(stage: &str) -> (e: Error)
    ensures
        e == Error::ConfigError(e->ConfigError_0),
        e->ConfigError_0@ == "GitHub preflight timed out after "@ + decimal(
            GH_PREFLIGHT_TIMEOUT_SECS as nat,
        ) + "s while "@ + stage@,
{
    let mut m = String::from_str("GitHub preflight timed out after ");
    append_decimal(&mut m, GH_PREFLIGHT_TIMEOUT_SECS);
    m.append("s while ");
    m.append(stage);
    Error::ConfigError(m)
}

/// What is wrong with the GitHub session, given how `gh auth status` exited
/// and what it printed: a failed run, or a report without an active session.
pub open spec fn gh_auth_problem(success: bool, stderr: Seq<char>, stdout: Seq<char>) -> Option<Seq<char>> {
    if !success {
        Some("GitHub auth preflight failed: "@ + trim(stderr) + ". Run `gh auth login` and retry."@)
    } else if has_substring(unicode_lowercase(stdout), "not logged in"@) || has_substring(
        unicode_lowercase(stdout),
        "no token"@,
    ) {
        Some("GitHub auth preflight failed: no active gh session found. Run `gh auth login` and retry."@)
    } else {
        None
    }
}

/// Concludes the GitHub auth check from the output of `gh auth status`.
pub fn gh_auth_verdict(success: bool, stderr: &str, stdout: &str) -> (r: Result<()>)
    ensures
        match r {
            Ok(_) => gh_auth_problem(success, stderr@, stdout@) is None,
            Err(Error::ConfigError(m)) => gh_auth_problem(success, stderr@, stdout@) == Some(m@),
        },
{
    if !success {
        let mut m = String::from_str("GitHub auth preflight failed: ");
        let detail = text_trim(stderr);
        m.append(detail.as_str());
        m.append(". Run `gh auth login` and retry.");
        return Err(Error::ConfigError(m));
    }
    let lower = to_lowercase(stdout);
    if text_contains(lower.as_str(), "not logged in") || text_contains(lower.as_str(), "no token") {
        return Err(
            Error::ConfigError(
                String::from_str(
                    "GitHub auth preflight failed: no active gh session found. Run `gh auth login` and retry.",
                ),
            ),
        );
    }
    Ok(())
}

/// The error when `gh label list` fails for a repository.
pub fn gh_label_list_error(repo: &str, stderr: &str) -> (e: Error)
    ensures
        e == Error::ConfigError(e->ConfigError_0),
        e->ConfigError_0@ == "GitHub label preflight failed for "@ + repo@ + ": "@ + trim(stderr@),
{
    let mut m = String::from_str("GitHub label preflight failed for ");
    m.append(repo);
    m.append(": ");
    let detail = text_trim(stderr);
    m.append(detail.as_str());
    Error::ConfigError(m)
}

/// How a lookup of the operator namespace went.
#[derive(Debug, Clone, PartialEq, Eq)]
pub enum NamespaceLookup {
    /// The namespace exists.
    Found,
    /// The API answered 404.
    NotFound,
    /// Any other error; the text is the API error's.
    Failed(String),
}

/// The CRD check, given the error of listing `StellarNode`s, if any.
pub fn crd_installed_check(list_error: Option<&str>) -> (r: CheckResult)
    ensures
        r.name@ == "CRD Installed"@,
        r.severity == CheckSeverity::Critical,
        r.passed == (list_error is None),
        r.message@ == match list_error {
            None => "StellarNode CRD is present and accessible"@,
            Some(e) => "StellarNode CRD not found — install it with: kubectl apply -f config/crd/stellarnode-crd.yaml ("@
                + e@ + ")"@,
        },
{
    match list_error {
        None => CheckResult::pass(
            "CRD Installed",
            CheckSeverity::Critical,
            String::from_str("StellarNode CRD is present and accessible"),
        ),
        Some(e) => {
            let mut m = String::from_str(
                "StellarNode CRD not found — install it with: kubectl apply -f config/crd/stellarnode-crd.yaml (",
            );
            m.append(e);
            m.append(")");
            CheckResult::fail("CRD Installed", CheckSeverity::Critical, m)
        },
    }
}

/// The RBAC check, given the errors of listing Deployments and ConfigMaps
/// in the namespace (the first failure decides).
pub fn rbac_check(namespace: &str, deployments_error: Option<&str>, configmaps_error: Option<&str>) -> (r:
    CheckResult)
    ensures
        r.name@ == "RBAC Permissions"@,
        r.severity == CheckSeverity::Critical,
        r.passed == (deployments_error is None && configmaps_error is None),
        r.message@ == match (deployments_error, configmaps_error) {
            (Some(e), _) => "Cannot list Deployments in namespace '"@ + namespace@
                + "' — check ClusterRole/RoleBinding ("@ + e@ + ")"@,
            (None, Some(e)) => "Cannot list ConfigMaps in namespace '"@ + namespace@
                + "' — check ClusterRole/RoleBinding ("@ + e@ + ")"@,
            (None, None) => "Sufficient permissions verified in namespace '"@ + namespace@ + "'"@,
        },
{
    let name: &'static str = "RBAC Permissions";
    if let Some(e) = deployments_error {
        let mut m = String::from_str("Cannot list Deployments in namespace '");
        m.append(namespace);
        m.append("' — check ClusterRole/RoleBinding (");
        m.append(e);
        m.append(")");
        return CheckResult::fail(name, CheckSeverity::Critical, m);
    }
    if let Some(e) = configmaps_error {
        let mut m = String::from_str("Cannot list ConfigMaps in namespace '");
        m.append(namespace);
        m.append("' — check ClusterRole/RoleBinding (");
        m.append(e);
        m.append(")");
        return CheckResult::fail(name, CheckSeverity::Critical, m);
    }
    let mut m = String::from_str("Sufficient permissions verified in namespace '");
    m.append(namespace);
    m.append("'");
    CheckResult::pass(name, CheckSeverity::Critical, m)
}

/// The namespace check: a missing namespace is critical, an undecided
/// lookup only a warning.
pub fn namespace_check(namespace: &str, lookup: &NamespaceLookup) -> (r: CheckResult)
    ensures
        r.name@ == "Namespace Exists"@,
        r.passed == (*lookup == NamespaceLookup::Found),
        r.severity == (if *lookup is Failed { CheckSeverity::Warning } else { CheckSeverity::Critical }),
        r.message@ == match *lookup {
            NamespaceLookup::Found => "Namespace '"@ + namespace@ + "' exists"@,
            NamespaceLookup::NotFound => "Namespace '"@ + namespace@
                + "' does not exist — create it with: kubectl create namespace "@ + namespace@,
            NamespaceLookup::Failed(e) => "Could not verify namespace '"@ + namespace@ + "': "@ + e@,
        },
{
    let name: &'static str = "Namespace Exists";
    let mut m = String::new();
    match lookup {
        NamespaceLookup::Found => {
            m.append("Namespace '");
            m.append(namespace);
            m.append("' exists");
            CheckResult::pass(name, CheckSeverity::Critical, m)
        },
        NamespaceLookup::NotFound => {
            m.append("Namespace '");
            m.append(namespace);
            m.append("' does not exist — create it with: kubectl create namespace ");
            m.append(namespace);
            CheckResult::fail(name, CheckSeverity::Critical, m)
        },
        NamespaceLookup::Failed(e) => {
            m.append("Could not verify namespace '");
            m.append(namespace);
            m.append("': ");
            m.append(e.as_str());
            CheckResult::fail(name, CheckSeverity::Warning, m)
        },
    }
}

/// The leader-election check, given the error of listing Leases, if any.
pub fn lease_check(namespace: &str, list_error: Option<&str>) -> (r: CheckResult)
    ensures
        r.name@ == "Leader Election Lease"@,
        r.severity == CheckSeverity::Critical,
        r.passed == (list_error is None),
        r.message@ == match list_error {
            None => "Lease API accessible in namespace '"@ + namespace@ + "'"@,
            Some(e) => "Cannot access Lease resources in namespace '"@ + namespace@
                + "' — ensure the operator ServiceAccount has 'coordination.k8s.io' RBAC permissions ("@
                + e@ + ")"@,
        },
{
    let name: &'static str = "Leader Election Lease";
    match list_error {
        None => {
            let mut m = String::from_str("Lease API accessible in namespace '");
            m.append(namespace);
            m.append("'");
            CheckResult::pass(name, CheckSeverity::Critical, m)
        },
        Some(e) => {
            let mut m = String::from_str("Cannot access Lease resources in namespace '");
            m.append(namespace);
            m.append(
                "' — ensure the operator ServiceAccount has 'coordination.k8s.io' RBAC permissions (",
            );
            m.append(e);
            m.append(")");
            CheckResult::fail(name, CheckSeverity::Critical, m)
        },
    }
}

/// The diagnostic line of one check: `[PASS] name - message`, or
/// `[FAIL][<severity>] name - message`, indented by two spaces.
pub open spec fn diagnostic_line_text(r: CheckResult) -> Seq<char> {
    if r.passed {
        "  [PASS] "@ + r.name@ + " - "@ + r.message@
    } else {
        "  [FAIL]["@ + (if r.severity == CheckSeverity::Critical {
            "CRITICAL"@
        } else {
            "WARNING"@
        }) + "] "@ + r.name@ + " - "@ + r.message@
    }
}

/// Formats the diagnostic line of one check.
pub fn diagnostic_line(r: &CheckResult) -> (s: String)
    ensures
        s@ == diagnostic_line_text(*r),
{
    let mut s = if r.passed {
        String::from_str("  [PASS] ")
    } else {
        let mut f = String::from_str("  [FAIL][");
        match r.severity {
            CheckSeverity::Critical => f.append("CRITICAL"),
            CheckSeverity::Warning => f.append("WARNING"),
        }
        f.append("] ");
        f
    };
    s.append(r.name);
    s.append(" - ");
    s.append(r.message.as_str());
    s
}

/// The closing line of the diagnostics.
pub fn summary_line(summary: &DiagnosticSummary) -> (s: String)
    ensures
        s@ == "=== Preflight Summary: "@ + decimal(summary.passed as nat) + "/"@ + decimal(
            summary.total as nat,
        ) + " checks passed, "@ + decimal(summary.critical_failures as nat)
            + " critical failure(s) ==="@,
{
    let mut s = String::from_str("=== Preflight Summary: ");
    append_decimal(&mut s, summary.passed as u64);
    s.append("/");
    append_decimal(&mut s, summary.total as u64);
    s.append(" checks passed, ");
    append_decimal(&mut s, summary.critical_failures as u64);
    s.append(" critical failure(s) ===");
    s
}

} // verus!
