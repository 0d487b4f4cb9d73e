//! Repository validation health checks: what each check concludes from the
//! files and git output it was given, and how results are reported.
use crate::error::{Error, Result};
use crate::text::{
    after, append_decimal, before, decimal, join, join_strings, lines, replace_char,
    replace_char_with, split_lines, starts_with, text_after, text_before, text_eq,
    text_starts_with, text_trim_leading, text_trim_start, trim_leading, trim_start,
};
use vstd::prelude::*;
use vstd::string::*;

verus! {

/// Arguments for the `health-check` subcommand.
#[derive(Debug, Clone, Copy, PartialEq, Eq, Structural)]
pub struct HealthCheckArgs {
    /// Allow dirty working tree (skip uncommitted-changes check).
    pub allow_dirty: bool,
    /// Emit results as JSON (one object per line).
    pub json: bool,
}

/// Outcome of one repository check.
#[derive(Debug, Clone)]
pub struct Check {
    pub name: &'static str,
    pub passed: bool,
    pub message: String,
}

impl Check {
    pub fn pass(name: &'static str, msg: String) -> (c: Self)
        ensures
            c.name == name,
            c.passed,
            c.message == msg,
    {
        Check { name, passed: true, message: msg }
    }

    pub fn fail(name: &'static str, msg: String) -> (c: Self)
        ensures
            c.name == name,
            !c.passed,
            c.message == msg,
    {
        Check { name, passed: false, message: msg }
    }
}

/// A required file: `<path> found` or `<path> is missing`.
pub fn file_check(name: &'static str, path: &str, exists: bool) -> (c: Check)
    ensures
        c.name == name,
        c.passed == exists,
        c.message@ == path@ + (if exists { " found"@ } else { " is missing"@ }),
{
    let mut msg = path.to_owned();
    if exists {
        msg.append(" found");
        Check::pass(name, msg)
    } else {
        msg.append(" is missing");
        Check::fail(name, msg)
    }
}

/// A line that declares the package version: `version =` after leading whitespace.
pub open spec fn is_version_line(l: Seq<char>) -> bool {
    starts_with(trim_start(l), "version ="@)
}

/// The first version line.
pub open spec fn first_version_line(ls: Seq<Seq<char>>) -> Option<Seq<char>>
    decreases ls.len(),
{
    if ls.len() == 0 {
        None
    } else if is_version_line(ls[0]) {
        Some(ls[0])
    } else {
        first_version_line(ls.drop_first())
    }
}

/// The text between the first and second `"` of a line (to its end when
/// there is only one), if the line has a `"`.
pub open spec fn quoted_value(l: Seq<char>) -> Option<Seq<char>> {
    match after(l, '"') {
        Some(rest) => Some(before(rest, '"')),
        None => None,
    }
}

/// The version declared in a `Cargo.toml`: the quoted value of its first
/// version line.
pub open spec fn cargo_version_of(toml: Seq<char>) -> Option<Seq<char>> {
    match first_version_line(lines(toml)) {
        Some(l) => quoted_value(l),
        None => None,
    }
}

/// Reads the package version from the text of a `Cargo.toml`.
pub fn cargo_version(cargo_toml: &str) -> (v: Option<String>)
    ensures
        match v {
            Some(s) => cargo_version_of(cargo_toml@) == Some(s@),
            None => cargo_version_of(cargo_toml@) is None,
        },
{
    let ls = split_lines(cargo_toml);
    let ghost views = ls@.map_values(|l: String| l@);
    let mut i: usize = 0;
    proof {
        assert(views.skip(0) == views);
    }
    while i < ls.len()
        invariant
            i <= ls@.len(),
            views == ls@.map_values(|l: String| l@),
            views == lines(cargo_toml@),
            first_version_line(views) == first_version_line(views.skip(i as int)),
        decreases ls.len() - i,
    {
        let trimmed = text_trim_start(ls[i].as_str());
        proof {
            assert(views.skip(i as int)[0] == ls@[i as int]@);
        }
        if text_starts_with(trimmed.as_str(), "version =") {
            return match text_after(ls[i].as_str(), '"') {
                Some(rest) => Some(text_before(rest.as_str(), '"')),
                None => None,
            };
        }
        proof {
            assert(views.skip(i as int).drop_first() == views.skip(i as int + 1));
        }
        i = i + 1;
    }
    proof {
        assert(views.skip(i as int).len() == 0);
    }
    None
}

/// Result of formatting a list of strings with `{:?}` (`["a", "b"]`, each
/// item quoted and escaped by `str`'s `Debug`).
pub uninterp spec fn debug_list_rendering(items: Seq<Seq<char>>) -> Seq<char>;

/// `format!("{:?}", items)` for a list of strings. Its result is named, not
/// described: the escaping rules are `str`'s `Debug`.
#[verifier::external_body]
fn debug_list(items: &Vec<String>) -> (s: String)
    ensures
        s@ == debug_list_rendering(items@.map_values(|i: String| i@)),
{
    format!("{:?}", items)
}

/// The non-empty lines, in order.
pub open spec fn nonempty_lines(ls: Seq<Seq<char>>) -> Seq<Seq<char>>
    decreases ls.len(),
{
    if ls.len() == 0 {
        Seq::empty()
    } else if ls.last().len() == 0 {
        nonempty_lines(ls.drop_last())
    } else {
        nonempty_lines(ls.drop_last()).push(ls.last())
    }
}

/// A tag names the version when it equals it after dropping leading `v`s.
pub open spec fn tag_names_version(tag: Seq<char>, version: Seq<char>) -> bool {
    trim_leading(tag, 'v') == version
}

/// The version / tag check: `(passed, message)`, given the text of
/// `Cargo.toml` and the output of `git tag --points-at HEAD` (`None` when
/// git is unavailable or failed).
pub open spec fn version_tag_outcome(toml: Seq<char>, tags: Option<Seq<char>>) -> (bool, Seq<char>) {
    match cargo_version_of(toml) {
        None => (false, "version field not found in Cargo.toml"@),
        Some(version) => match tags {
            None => (true, "Cargo.toml version = "@ + version + " (git unavailable, skipped tag check)"@),
            Some(t) => {
                let existing = nonempty_lines(lines(t));
                if existing.len() == 0 {
                    (true, "Cargo.toml version = "@ + version + " (HEAD is not tagged)"@)
                } else if exists|i: int| 0 <= i < existing.len() && tag_names_version(#[trigger] existing[i], version) {
                    (true, "v"@ + version + " matches HEAD tag"@)
                } else {
                    (false, "Cargo.toml="@ + version + " does not match HEAD tags: "@ + debug_list_rendering(existing))
                }
            },
        },
    }
}

proof fn lemma_nonempty_lines_keep(ls: Seq<Seq<char>>, x: Seq<char>)
    requires
        ls.contains(x),
        x.len() > 0,
    ensures
        nonempty_lines(ls).contains(x),
    decreases ls.len(),
{
    let k = choose|k: int| 0 <= k < ls.len() && ls[k] == x;
    if k == ls.len() - 1 {
        assert(nonempty_lines(ls).last() == x);
    } else {
        assert(ls.drop_last()[k] == x);
        lemma_nonempty_lines_keep(ls.drop_last(), x);
        let prev = nonempty_lines(ls.drop_last());
        let w = choose|w: int| 0 <= w < prev.len() && prev[w] == x;
        if ls.last().len() != 0 {
            assert(nonempty_lines(ls)[w] == prev[w]);
        }
    }
}

/// A release whose HEAD carries the tag `v<version>`, for the version its
/// `Cargo.toml` declares, passes the version / tag check.
pub proof fn law_release_tag_passes(toml: Seq<char>, tags: Seq<char>, version: Seq<char>)
    requires
        cargo_version_of(toml) == Some(version),
        version.len() > 0,
        version[0] != 'v',
        lines(tags).contains("v"@ + version),
    ensures
        version_tag_outcome(toml, Some(tags)).0,
{
    reveal_strlit("v");
    let tag = "v"@ + version;
    assert(tag.drop_first() =~= version);
    assert(trim_leading(tag, 'v') == trim_leading(version, 'v'));
    assert(tag_names_version(tag, version));
    lemma_nonempty_lines_keep(lines(tags), tag);
    let existing = nonempty_lines(lines(tags));
    let w = choose|w: int| 0 <= w < existing.len() && existing[w] == tag;
    assert(tag_names_version(existing[w], version));
}

/// When HEAD carries tags, the version / tag check passes exactly when one
/// of them, with its leading `v`s removed, equals the `Cargo.toml` version;
/// a tag that only starts with the version (`v0.4.2-rc.1` for `0.4.2`) does
/// not match.
pub proof fn law_tag_must_equal_version(toml: Seq<char>, tags: Seq<char>, version: Seq<char>)
    requires
        cargo_version_of(toml) == Some(version),
        nonempty_lines(lines(tags)).len() > 0,
    ensures
        version_tag_outcome(toml, Some(tags)).0 <==> exists|i: int|
            0 <= i < nonempty_lines(lines(tags)).len() && trim_leading(
                #[trigger] nonempty_lines(lines(tags))[i],
                'v',
            ) == version,
{
    let existing = nonempty_lines(lines(tags));
    if version_tag_outcome(toml, Some(tags)).0 {
        let i = choose|i: int| 0 <= i < existing.len() && tag_names_version(#[trigger] existing[i], version);
        assert(trim_leading(existing[i], 'v') == version);
    }
    if exists|i: int| 0 <= i < existing.len() && trim_leading(#[trigger] existing[i], 'v') == version {
        let i = choose|i: int| 0 <= i < existing.len() && trim_leading(#[trigger] existing[i], 'v') == version;
        assert(tag_names_version(existing[i], version));
    }
}

fn nonempty_of(ls: &Vec<String>) -> (r: Vec<String>)
    ensures
        r@.map_values(|l: String| l@) == nonempty_lines(ls@.map_values(|l: String| l@)),
{
    let ghost views = ls@.map_values(|l: String| l@);
    let mut r: Vec<String> = Vec::new();
    let mut i: usize = 0;
    while i < ls.len()
        invariant
            i <= ls@.len(),
            views == ls@.map_values(|l: String| l@),
            r@.map_values(|l: String| l@) == nonempty_lines(views.take(i as int)),
        decreases ls.len() - i,
    {
        proof {
            assert(views.take(i as int + 1).drop_last() == views.take(i as int));
            assert(views.take(i as int + 1).last() == ls@[i as int]@);
        }
        if !ls[i].as_str().is_empty() {
            let ghost before_r = r@;
            r.push(ls[i].clone());
            proof {
                assert(r@.map_values(|l: String| l@) =~= before_r.map_values(|l: String| l@).push(
                    ls@[i as int]@,
                ));
            }
        }
        i = i + 1;
    }
    proof {
        assert(views.take(ls@.len() as int) == views);
    }
    r
}

/// Checks that the `Cargo.toml` version matches the tag at HEAD, if any.
pub fn version_tag_check(cargo_toml: &str, git_tags: Option<&str>) -> (c: Check)
    ensures
        c.name@ == "Cargo version / tag"@,
        (c.passed, c.message@) == version_tag_outcome(
            cargo_toml@,
            match git_tags {
                Some(t) => Some(t@),
                None => None,
            },
        ),
{
    let name: &'static str = "Cargo version / tag";
    let version = match cargo_version(cargo_toml) {
        Some(v) => v,
        None => {
            return Check::fail(name, String::from_str("version field not found in Cargo.toml"));
        },
    };
    match git_tags {
        None => {
            let mut msg = String::from_str("Cargo.toml version = ");
            msg.append(version.as_str());
            msg.append(" (git unavailable, skipped tag check)");
            Check::pass(name, msg)
        },
        Some(t) => {
            let all = split_lines(t);
            let existing = nonempty_of(&all);
            let ghost ex = existing@.map_values(|l: String| l@);
            if existing.len() == 0 {
                let mut msg = String::from_str("Cargo.toml version = ");
                msg.append(version.as_str());
                msg.append(" (HEAD is not tagged)");
                return Check::pass(name, msg);
            }
            let mut i: usize = 0;
            while i < existing.len()
                invariant
                    i <= existing@.len(),
                    ex == existing@.map_values(|l: String| l@),
                    ex == nonempty_lines(lines(t@)),
                    ex.len() > 0,
                    name@ == "Cargo version / tag"@,
                    cargo_version_of(cargo_toml@) == Some(version@),
                    git_tags == Some(t),
                    forall|j: int| 0 <= j < i ==> !tag_names_version(#[trigger] ex[j], version@),
                decreases existing.len() - i,
            {
                let stripped = text_trim_leading(existing[i].as_str(), 'v');
                if text_eq(stripped.as_str(), version.as_str()) {
                    proof {
                        assert(tag_names_version(ex[i as int], version@));
                    }
                    let mut msg = String::from_str("v");
                    msg.append(version.as_str());
                    msg.append(" matches HEAD tag");
                    return Check::pass(name, msg);
                }
                i = i + 1;
            }
            let mut msg = String::from_str("Cargo.toml=");
            msg.append(version.as_str());
            msg.append(" does not match HEAD tags: ");
            let listed = debug_list(&existing);
            msg.append(listed.as_str());
            Check::fail(name, msg)
        },
    }
}

/// The working-tree check: `(passed, message)` given the output of
/// `git status --porcelain` (`None` when git is unavailable or failed).
pub open spec fn git_clean_outcome(status: Option<Seq<char>>) -> (bool, Seq<char>) {
    match status {
        None => (true, "git unavailable — skipped"@),
        Some(s) => {
            let dirty = nonempty_lines(lines(s));
            if dirty.len() == 0 {
                (true, "no uncommitted changes"@)
            } else {
                (false, decimal(dirty.len()) + " uncommitted change(s): "@ + join(dirty, ", "@))
            }
        },
    }
}

/// Checks that the working tree has no uncommitted changes.
pub fn git_clean_check(git_status: Option<&str>) -> (c: Check)
    ensures
        c.name@ == "Working tree"@,
        (c.passed, c.message@) == git_clean_outcome(
            match git_status {
                Some(t) => Some(t@),
                None => None,
            },
        ),
{
    let name: &'static str = "Working tree";
    match git_status {
        None => Check::pass(name, String::from_str("git unavailable — skipped")),
        Some(s) => {
            let all = split_lines(s);
            let dirty = nonempty_of(&all);
            if dirty.len() == 0 {
                Check::pass(name, String::from_str("no uncommitted changes"))
            } else {
                let mut msg = String::new();
                append_decimal(&mut msg, dirty.len() as u64);
                msg.append(" uncommitted change(s): ");
                let joined = join_strings(&dirty, ", ");
                msg.append(joined.as_str());
                Check::fail(name, msg)
            }
        },
    }
}

/// The report line of a check, as JSON or as text.
pub open spec fn check_line_text(name: Seq<char>, passed: bool, message: Seq<char>, json: bool) -> Seq<char> {
    if json {
        "{\"check\":\""@ + name + "\",\"status\":\""@ + (if passed { "pass"@ } else { "fail"@ })
            + "\",\"message\":\""@ + replace_char(message, '"', "\\\""@) + "\"}"@
    } else {
        "  ["@ + (if passed { "✓"@ } else { "✗"@ }) + "] "@ + name + ": "@ + message
    }
}

/// Formats the report line of a check.
pub fn check_line(check: &Check, json: bool) -> (s: String)
    ensures
        s@ == check_line_text(check.name@, check.passed, check.message@, json),
{
    if json {
        let mut s = String::from_str("{\"check\":\"");
        s.append(check.name);
        s.append("\",\"status\":\"");
        s.append(if check.passed { "pass" } else { "fail" });
        s.append("\",\"message\":\"");
        let escaped = replace_char_with(check.message.as_str(), '"', "\\\"");
        s.append(escaped.as_str());
        s.append("\"}");
        s
    } else {
        let mut s = String::from_str("  [");
        s.append(if check.passed { "✓" } else { "✗" });
        s.append("] ");
        s.append(check.name);
        s.append(": ");
        s.append(check.message.as_str());
        s
    }
}

/// The number of passed checks.
pub open spec fn checks_passed(cs: Seq<Check>) -> nat
    decreases cs.len(),
{
    if cs.len() == 0 {
        0
    } else {
        checks_passed(cs.drop_last()) + (if cs.last().passed {
            1nat
        } else {
            0nat
        })
    }
}

proof fn lemma_checks_passed_bound(cs: Seq<Check>)
    ensures
        checks_passed(cs) <= cs.len(),
        checks_passed(cs) == cs.len() <==> forall|i: int| 0 <= i < cs.len() ==> #[trigger] cs[i].passed,
    decreases cs.len(),
{
    if cs.len() > 0 {
        lemma_checks_passed_bound(cs.drop_last());
        if checks_passed(cs) == cs.len() {
            assert forall|i: int| 0 <= i < cs.len() implies #[trigger] cs[i].passed by {
                if i < cs.len() - 1 {
                    assert(cs[i] == cs.drop_last()[i]);
                }
            }
        }
        if forall|i: int| 0 <= i < cs.len() ==> #[trigger] cs[i].passed {
            assert forall|i: int| 0 <= i < cs.len() - 1 implies #[trigger] cs.drop_last()[i].passed by {
                assert(cs[i] == cs.drop_last()[i]);
            }
            assert(cs[cs.len() - 1].passed);
        }
    }
}

/// The overall result of a health check: the number of passed checks, and
/// an error counting the failures when any check failed.
pub fn health_check_verdict(checks: &[Check]) -> (r: (usize, Result<()>))
    ensures
        r.0 == checks_passed(checks@),
        match r.1 {
            Ok(_) => forall|i: int| 0 <= i < checks@.len() ==> #[trigger] checks@[i].passed,
            Err(Error::ConfigError(m)) => (exists|i: int| 0 <= i < checks@.len() && !#[trigger] checks@[i].passed)
                && m@ == decimal((checks@.len() - checks_passed(checks@)) as nat) + " of "@ + decimal(
                checks@.len(),
            ) + " health-check(s) failed"@,
        },
{
    let mut passed: usize = 0;
    let mut i: usize = 0;
    while i < checks.len()
        invariant
            i <= checks@.len(),
            passed == checks_passed(checks@.take(i as int)),
            passed <= i,
        decreases checks.len() - i,
    {
        proof {
            assert(checks@.take(i as int + 1).drop_last() == checks@.take(i as int));
            assert(checks@.take(i as int + 1).last() == checks@[i as int]);
        }
        if checks[i].passed {
            passed = passed + 1;
        }
        i = i + 1;
    }
    proof {
        assert(checks@.take(checks@.len() as int) == checks@);
        lemma_checks_passed_bound(checks@);
    }
    let total: usize = checks.len();
    if passed == total {
        (passed, Ok(()))
    } else {
        let mut msg = String::new();
        append_decimal(&mut msg, (total - passed) as u64);
        msg.append(" of ");
        append_decimal(&mut msg, total as u64);
        msg.append(" health-check(s) failed");
        (passed, Err(Error::ConfigError(msg)))
    }
}

/// The `i`-th repository file every health check requires: (check name, path).
pub open spec fn required_file(i: int) -> (Seq<char>, Seq<char>) {
    if i == 0 {
        ("README"@, "README.md"@)
    } else if i == 1 {
        ("LICENSE"@, "LICENSE"@)
    } else if i == 2 {
        ("CONTRIBUTING"@, "CONTRIBUTING.md"@)
    } else if i == 3 {
        ("CHANGELOG"@, "CHANGELOG.md"@)
    } else if i == 4 {
        ("Makefile"@, "Makefile"@)
    } else if i == 5 {
        ("Dependency update template"@, ".github/ISSUE_TEMPLATE/dependency_update.yml"@)
    } else {
        ("Release process doc"@, "docs/release-process.md"@)
    }
}

/// The repository files every health check requires, in report order:
/// (check name, path).
pub fn required_repo_files() -> (r: Vec<(&'static str, &'static str)>)
    ensures
        r@.len() == 7,
        forall|i: int| 0 <= i < 7 ==> (#[trigger] r@[i]).0@ == required_file(i).0 && r@[i].1@ == required_file(i).1,
{
    vec![
        ("README", "README.md"),
        ("LICENSE", "LICENSE"),
        ("CONTRIBUTING", "CONTRIBUTING.md"),
        ("CHANGELOG", "CHANGELOG.md"),
        ("Makefile", "Makefile"),
        ("Dependency update template", ".github/ISSUE_TEMPLATE/dependency_update.yml"),
        ("Release process doc", "docs/release-process.md"),
    ]
}

/// `opt` with its text taken by view.
pub open spec fn text_opt(o: Option<&str>) -> Option<Seq<char>> {
    match o {
        Some(t) => Some(t@),
        None => None,
    }
}

/// The checks of a health-check run, in report order: one per required file
/// (`present[i]` says whether the `i`-th of `required_repo_files` exists),
/// the Cargo version / tag check (from the text of `Cargo.toml`, or the error
/// of reading it, and the output of `git tag --points-at HEAD`), and, unless
/// a dirty working tree is allowed, the working-tree check (from the output
/// of `git status --porcelain`).
pub fn health_checks(
    args: HealthCheckArgs,
    present: &[bool],
    cargo_toml: core::result::Result<&str, &str>,
    git_tags: Option<&str>,
    git_status: Option<&str>,
) -> (cs: Vec<Check>)
    requires
        present@.len() == 7,
    ensures
        cs@.len() == (if args.allow_dirty { 8int } else { 9int }),
        forall|i: int|
            0 <= i < 7 ==> (#[trigger] cs@[i]).name@ == required_file(i).0 && cs@[i].passed == present@[i]
                && cs@[i].message@ == required_file(i).1 + (if present@[i] {
                " found"@
            } else {
                " is missing"@
            }),
        cs@[7].name@ == "Cargo version / tag"@,
        match cargo_toml {
            Ok(t) => (cs@[7].passed, cs@[7].message@) == version_tag_outcome(t@, text_opt(git_tags)),
            Err(e) => !cs@[7].passed && cs@[7].message@ == "cannot read Cargo.toml: "@ + e@,
        },
        !args.allow_dirty ==> cs@[8].name@ == "Working tree"@ && (cs@[8].passed, cs@[8].message@)
            == git_clean_outcome(text_opt(git_status)),
{
    let files = required_repo_files();
    let mut cs: Vec<Check> = Vec::new();
    let mut i: usize = 0;
    while i < 7
        invariant
            i <= 7,
            present@.len() == 7,
            files@.len() == 7,
            forall|k: int| 0 <= k < 7 ==> (#[trigger] files@[k]).0@ == required_file(k).0 && files@[k].1@ == required_file(k).1,
            cs@.len() == i,
            forall|k: int|
                0 <= k < i ==> (#[trigger] cs@[k]).name@ == required_file(k).0 && cs@[k].passed == present@[k]
                    && cs@[k].message@ == required_file(k).1 + (if present@[k] {
                    " found"@
                } else {
                    " is missing"@
                }),
        decreases 7 - i,
    {
        let (name, path) = files[i];
        let c = file_check(name, path, present[i]);
        cs.push(c);
        i = i + 1;
    }
    let version = match cargo_toml {
        Ok(t) => version_tag_check(t, git_tags),
        Err(e) => {
            let mut m = String::from_str("cannot read Cargo.toml: ");
            m.append(e);
            Check::fail("Cargo version / tag", m)
        },
    };
    cs.push(version);
    if !args.allow_dirty {
        cs.push(git_clean_check(git_status));
    }
    cs
}

} // verus!
