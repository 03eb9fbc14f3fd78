//! Preflight checks for release readiness.
//!
//! Validates git state, branch, remote sync and tool availability before a
//! release. Observing the repository and the `PATH` happens outside this
//! crate; the driver gathers raw answers into [`PreflightInputs`] and every
//! judgment about them is made — and verified — here.

use vstd::prelude::*;
use vstd::string::*;

use crate::config::Config;
use crate::detect::ToolVersionCheck;
use crate::ecosystem::{DetectedTools, ProjectDetection};
use crate::git::GitError;
use crate::text::{
    first_token, first_token_spec, join_comma, join_comma_spec, join_with, join_with_spec,
    str_concat, str_eq,
};
use crate::version::{version_str_spec, version_string};

verus! {

/// A single preflight check result.
#[derive(Debug, Clone)]
pub struct CheckResult {
    /// Human-readable name of the check.
    pub name: String,
    /// Whether the check passed.
    pub passed: bool,
    /// Description of the result (reason for failure, or confirmation).
    pub message: String,
}

/// Full preflight report.
#[derive(Debug, Clone)]
pub struct PreflightReport {
    /// Individual check results.
    pub checks: Vec<CheckResult>,
    /// Whether all checks passed.
    pub all_passed: bool,
    /// Detected project info (if detection succeeded).
    pub detection: Option<ProjectDetection>,
}

/// Raw observations the checks judge: git answers, detection, and which of
/// the required binaries the driver could not find.
#[derive(Debug)]
pub struct PreflightInputs {
    /// Whether the working directory is inside a git repository.
    pub in_repo: Result<bool, GitError>,
    /// Whether the working tree is clean.
    pub clean: Result<bool, GitError>,
    /// The current branch (`None` for a detached HEAD).
    pub current_branch: Result<Option<String>, GitError>,
    /// The detected release branch (`main`/`master`), if any.
    pub detected_branch: Result<Option<String>, GitError>,
    /// Whether local and remote heads agree.
    pub remote_sync: Result<bool, GitError>,
    /// Project detection outcome.
    pub detection: Option<ProjectDetection>,
    /// Required binaries that are not on `PATH`.
    pub missing_tools: Vec<String>,
    /// The changelog tool's version check, where one applies.
    pub cliff_check: Option<ToolVersionCheck>,
}

/// Check that the working directory is inside a git repository.
pub fn check_git_repo(in_repo: &Result<bool, GitError>) -> (r: CheckResult)
    ensures
        r.name@ == "Git repository"@,
        r.passed == (in_repo matches Ok(true)),
        in_repo matches Ok(true) ==> r.message@ == "Inside a git repository"@,
        in_repo matches Ok(false) ==> r.message@ == "Not inside a git repository"@,
        in_repo matches Err(e) ==> r.message@ == "Failed to check: "@ + e.describe_spec(),
{
    match in_repo {
        Ok(true) => CheckResult {
            name: String::from_str("Git repository"),
            passed: true,
            message: String::from_str("Inside a git repository"),
        },
        Ok(false) => CheckResult {
            name: String::from_str("Git repository"),
            passed: false,
            message: String::from_str("Not inside a git repository"),
        },
        Err(e) => CheckResult {
            name: String::from_str("Git repository"),
            passed: false,
            message: str_concat("Failed to check: ", e.describe().as_str()),
        },
    }
}

/// Check that the working tree has no uncommitted changes.
pub fn check_clean_tree(clean: &Result<bool, GitError>) -> (r: CheckResult)
    ensures
        r.name@ == "Working tree"@,
        r.passed == (clean matches Ok(true)),
        clean matches Ok(true) ==> r.message@ == "Clean working tree"@,
        clean matches Ok(false) ==> r.message@ == "Uncommitted changes in working tree"@,
        clean matches Err(e) ==> r.message@ == "Failed to check: "@ + e.describe_spec(),
{
    match clean {
        Ok(true) => CheckResult {
            name: String::from_str("Working tree"),
            passed: true,
            message: String::from_str("Clean working tree"),
        },
        Ok(false) => CheckResult {
            name: String::from_str("Working tree"),
            passed: false,
            message: String::from_str("Uncommitted changes in working tree"),
        },
        Err(e) => CheckResult {
            name: String::from_str("Working tree"),
            passed: false,
            message: str_concat("Failed to check: ", e.describe().as_str()),
        },
    }
}

/// What the release-branch check decides and reports: passed exactly when
/// the current branch equals the configured branch, or the detected
/// `main`/`master` when none is configured.
pub open spec fn release_branch_check_spec(
    current: &Result<Option<String>, GitError>,
    override_branch: &Option<String>,
    detected: &Result<Option<String>, GitError>,
) -> (bool, Seq<char>) {
    match current {
        Err(e) => (false, "Failed to check: "@ + e.describe_spec()),
        Ok(None) => (false, "Detached HEAD - not on any branch"@),
        Ok(Some(cur)) => match override_branch {
            Some(exp) => {
                if cur@ == exp@ {
                    (true, "On configured release branch '"@ + cur@ + "'"@)
                } else {
                    (false, "On '"@ + cur@ + "', expected '"@ + exp@ + "'"@)
                }
            },
            None => match detected {
                Err(e) => (false, "Failed to detect: "@ + e.describe_spec()),
                Ok(None) => (false, "On '"@ + cur@ + "' - no main/master branch found"@),
                Ok(Some(rel)) => {
                    if cur@ == rel@ {
                        (true, "On release branch '"@ + cur@ + "'"@)
                    } else {
                        (false, "On '"@ + cur@ + "', expected '"@ + rel@ + "'"@)
                    }
                },
            },
        },
    }
}

/// Check that the current branch is the release branch: the configured one
/// when set, else the detected `main`/`master`.
pub fn check_release_branch(
    current: &Result<Option<String>, GitError>,
    override_branch: &Option<String>,
    detected: &Result<Option<String>, GitError>,
) -> (r: CheckResult)
    ensures
        r.name@ == "Release branch"@,
        r.passed == release_branch_check_spec(current, override_branch, detected).0,
        r.message@ == release_branch_check_spec(current, override_branch, detected).1,
{
    let name = String::from_str("Release branch");
    match current {
        Err(e) => CheckResult {
            name,
            passed: false,
            message: str_concat("Failed to check: ", e.describe().as_str()),
        },
        Ok(None) => CheckResult {
            name,
            passed: false,
            message: String::from_str("Detached HEAD - not on any branch"),
        },
        Ok(Some(cur)) => match override_branch {
            Some(exp) => {
                if str_eq(cur.as_str(), exp.as_str()) {
                    let a = str_concat("On configured release branch '", cur.as_str());
                    CheckResult { name, passed: true, message: str_concat(a.as_str(), "'") }
                } else {
                    let a = str_concat("On '", cur.as_str());
                    let b = str_concat(a.as_str(), "', expected '");
                    let c = str_concat(b.as_str(), exp.as_str());
                    CheckResult { name, passed: false, message: str_concat(c.as_str(), "'") }
                }
            },
            None => match detected {
                Err(e) => CheckResult {
                    name,
                    passed: false,
                    message: str_concat("Failed to detect: ", e.describe().as_str()),
                },
                Ok(None) => {
                    let a = str_concat("On '", cur.as_str());
                    CheckResult {
                        name,
                        passed: false,
                        message: str_concat(a.as_str(), "' - no main/master branch found"),
                    }
                },
                Ok(Some(rel)) => {
                    if str_eq(cur.as_str(), rel.as_str()) {
                        let a = str_concat("On release branch '", cur.as_str());
                        CheckResult { name, passed: true, message: str_concat(a.as_str(), "'") }
                    } else {
                        let a = str_concat("On '", cur.as_str());
                        let b = str_concat(a.as_str(), "', expected '");
                        let c = str_concat(b.as_str(), rel.as_str());
                        CheckResult { name, passed: false, message: str_concat(c.as_str(), "'") }
                    }
                },
            },
        },
    }
}

/// Check that the local branch agrees with its remote tracking branch.
pub fn check_remote_sync(in_sync: &Result<bool, GitError>) -> (r: CheckResult)
    ensures
        r.name@ == "Remote sync"@,
        r.passed == (in_sync matches Ok(true)),
        in_sync matches Ok(true) ==> r.message@ == "Local branch is in sync with remote"@,
        in_sync matches Ok(false) ==> r.message@
            == "Local branch is out of sync with remote (pull or push needed)"@,
        in_sync matches Err(e) ==> r.message@ == "Failed to check: "@ + e.describe_spec(),
{
    match in_sync {
        Ok(true) => CheckResult {
            name: String::from_str("Remote sync"),
            passed: true,
            message: String::from_str("Local branch is in sync with remote"),
        },
        Ok(false) => CheckResult {
            name: String::from_str("Remote sync"),
            passed: false,
            message: String::from_str(
                "Local branch is out of sync with remote (pull or push needed)",
            ),
        },
        Err(e) => CheckResult {
            name: String::from_str("Remote sync"),
            passed: false,
            message: str_concat("Failed to check: ", e.describe().as_str()),
        },
    }
}

/// Check that project detection recognized an ecosystem.
pub fn check_ecosystem(detection: &Option<ProjectDetection>) -> (r: CheckResult)
    ensures
        r.name@ == "Project detection"@,
        r.passed == (detection is Some),
        detection matches Some(det) ==> r.message@ == "Detected "@ + det.ecosystem.str_spec()
            + " project"@,
        detection is None ==> r.message@
            == "No recognized project type (missing Cargo.toml, package.json, etc.)"@,
{
    match detection {
        Some(det) => {
            let a = str_concat("Detected ", det.ecosystem.as_str());
            CheckResult {
                name: String::from_str("Project detection"),
                passed: true,
                message: str_concat(a.as_str(), " project"),
            }
        },
        None => CheckResult {
            name: String::from_str("Project detection"),
            passed: false,
            message: String::from_str(
                "No recognized project type (missing Cargo.toml, package.json, etc.)",
            ),
        },
    }
}

/// The binaries the detected toolchain needs on `PATH`: the first word of
/// the test command, the first word of the bump command, and the changelog
/// tool's own name.
pub open spec fn required_binaries_spec(tools: DetectedTools) -> Seq<Seq<char>> {
    let base = Seq::<Seq<char>>::empty();
    let s0 = if first_token_spec(tools.test_cmd@).len() > 0 {
        base.push(first_token_spec(tools.test_cmd@))
    } else {
        base
    };
    let s1 = match tools.bump_cmd {
        Some(c) => {
            if first_token_spec(c@).len() > 0 {
                s0.push(first_token_spec(c@))
            } else {
                s0
            }
        },
        None => s0,
    };
    match tools.changelog_tool {
        Some(t) => s1.push(t.str_spec()),
        None => s1,
    }
}

/// List the binaries the detected toolchain needs on `PATH`.
pub fn required_binaries(tools: &DetectedTools) -> (r: Vec<String>)
    ensures
        r.deep_view() == required_binaries_spec(*tools),
{
    let mut out: Vec<String> = Vec::new();
    proof {
        assert(out.deep_view() =~= Seq::<Seq<char>>::empty());
    }
    let t = first_token(tools.test_cmd.as_str());
    if t.as_str().unicode_len() > 0 {
        let ghost prev = out.deep_view();
        out.push(t);
        proof {
            assert(out.deep_view() =~= prev.push(first_token_spec(tools.test_cmd@)));
        }
    }
    if let Some(c) = &tools.bump_cmd {
        let b = first_token(c.as_str());
        if b.as_str().unicode_len() > 0 {
            let ghost prev = out.deep_view();
            out.push(b);
            proof {
                assert(out.deep_view() =~= prev.push(first_token_spec(c@)));
            }
        }
    }
    if let Some(tool) = &tools.changelog_tool {
        let ghost prev = out.deep_view();
        out.push(tool.as_str().to_owned());
        proof {
            assert(out.deep_view() =~= prev.push(tool.str_spec()));
        }
    }
    out
}

/// Check that every required tool is installed and recent enough.
pub fn check_required_tools(
    missing: &Vec<String>,
    cliff_check: &Option<ToolVersionCheck>,
) -> (r: CheckResult)
    ensures
        r.name@ == "Required tools"@,
        r.passed == (missing@.len() == 0 && !(cliff_check matches Some(
            ToolVersionCheck::TooOld { .. },
        ))),
        missing@.len() > 0 ==> r.message@ == "Missing tools: "@ + join_comma_spec(
            missing.deep_view(),
        ),
        cliff_check matches Some(ToolVersionCheck::TooOld { found, minimum }) ==> (missing@.len()
            == 0 ==> r.message@ == "git-cliff "@ + version_str_spec(*found)
            + " is too old (need "@ + version_str_spec(*minimum)
            + "+) - run `cargo install git-cliff`"@),
        r.passed ==> r.message@ == "All required tools are installed"@,
{
    let name = String::from_str("Required tools");
    if missing.len() > 0 {
        return CheckResult {
            name,
            passed: false,
            message: str_concat("Missing tools: ", join_comma(missing).as_str()),
        };
    }
    match cliff_check {
        Some(ToolVersionCheck::TooOld { found, minimum }) => {
            let a = str_concat("git-cliff ", version_string(found).as_str());
            let b = str_concat(a.as_str(), " is too old (need ");
            let c = str_concat(b.as_str(), version_string(minimum).as_str());
            CheckResult {
                name,
                passed: false,
                message: str_concat(c.as_str(), "+) - run `cargo install git-cliff`"),
            }
        },
        _ => CheckResult {
            name,
            passed: true,
            message: String::from_str("All required tools are installed"),
        },
    }
}

/// Whether the whole preflight passes on these observations.
pub open spec fn preflight_ok_spec(inputs: &PreflightInputs, config: &Config) -> bool {
    let ov = match config.project {
        Some(p) => p.release_branch,
        None => None,
    };
    &&& inputs.in_repo matches Ok(true)
    &&& inputs.clean matches Ok(true)
    &&& release_branch_check_spec(&inputs.current_branch, &ov, &inputs.detected_branch).0
    &&& inputs.remote_sync matches Ok(true)
    &&& inputs.detection is Some
    &&& inputs.missing_tools@.len() == 0
    &&& !(inputs.cliff_check matches Some(ToolVersionCheck::TooOld { .. }))
}

/// Run all preflight checks over the gathered observations.
///
/// Outside a git repository only the first check is reported; otherwise
/// the report holds one entry per check, in a fixed order, and passes only
/// when every check passed.
pub fn run_preflight(inputs: PreflightInputs, config: &Config) -> (r: PreflightReport)
    ensures
        r.all_passed == preflight_ok_spec(&inputs, config),
        !(inputs.in_repo matches Ok(true)) ==> r.checks@.len() == 1 && r.detection is None,
        inputs.in_repo matches Ok(true) ==> {
            &&& r.detection == inputs.detection
            &&& r.checks@.len() == (if inputs.detection is Some {
                6int
            } else {
                5int
            })
            &&& r.checks@[0].name@ == "Git repository"@ && r.checks@[0].passed
            &&& r.checks@[1].name@ == "Working tree"@ && r.checks@[1].passed == (
            inputs.clean matches Ok(true))
            &&& r.checks@[2].name@ == "Release branch"@
            &&& r.checks@[3].name@ == "Remote sync"@ && r.checks@[3].passed == (
            inputs.remote_sync matches Ok(true))
            &&& r.checks@[4].name@ == "Project detection"@ && r.checks@[4].passed == (
            inputs.detection is Some)
            &&& (inputs.detection is Some ==> r.checks@[5].name@ == "Required tools"@
                && r.checks@[5].passed == (inputs.missing_tools@.len() == 0 && !(
            inputs.cliff_check matches Some(ToolVersionCheck::TooOld { .. }))))
        },
{
    let mut checks: Vec<CheckResult> = Vec::new();
    let first = check_git_repo(&inputs.in_repo);
    let is_repo = first.passed;
    checks.push(first);
    if !is_repo {
        return PreflightReport { all_passed: false, detection: None, checks };
    }
    let c1 = check_clean_tree(&inputs.clean);
    let release_override: Option<String> = match &config.project {
        Some(p) => crate::text::clone_opt_string(&p.release_branch),
        None => None,
    };
    let c2 = check_release_branch(
        &inputs.current_branch,
        &release_override,
        &inputs.detected_branch,
    );
    let c3 = check_remote_sync(&inputs.remote_sync);
    let c4 = check_ecosystem(&inputs.detection);
    let mut all_passed = c1.passed && c2.passed && c3.passed && c4.passed;
    checks.push(c1);
    checks.push(c2);
    checks.push(c3);
    checks.push(c4);
    if inputs.detection.is_some() {
        let c5 = check_required_tools(&inputs.missing_tools, &inputs.cliff_check);
        all_passed = all_passed && c5.passed;
        checks.push(c5);
    } else {
        all_passed = false;
    }
    proof {
        assert(match config.project {
            Some(p) => release_override == p.release_branch,
            None => release_override is None,
        });
    }
    PreflightReport { checks, all_passed, detection: inputs.detection }
}

/// The messages of the failing checks, in report order.
pub open spec fn failing_messages_spec(checks: Seq<CheckResult>) -> Seq<Seq<char>>
    decreases checks.len(),
{
    if checks.len() == 0 {
        Seq::empty()
    } else if !checks[0].passed {
        seq![checks[0].message@] + failing_messages_spec(checks.subrange(1, checks.len() as int))
    } else {
        failing_messages_spec(checks.subrange(1, checks.len() as int))
    }
}

/// The user-facing summary of a failed preflight: the failing checks'
/// messages, in order, joined with `"; "`.
pub fn failure_summary(report: &PreflightReport) -> (r: String)
    ensures
        r@ == join_with_spec(failing_messages_spec(report.checks@), "; "@),
{
    let ghost all = report.checks@;
    let mut msgs: Vec<String> = Vec::new();
    let mut i: usize = 0;
    proof {
        assert(msgs.deep_view() + failing_messages_spec(all) =~= failing_messages_spec(all));
        assert(all.subrange(0, all.len() as int) =~= all);
    }
    while i < report.checks.len()
        invariant
            0 <= i <= report.checks@.len(),
            all == report.checks@,
            msgs.deep_view() + failing_messages_spec(all.subrange(i as int, all.len() as int))
                == failing_messages_spec(all),
        decreases report.checks@.len() - i,
    {
        let ghost subv = all.subrange(i as int, all.len() as int);
        let ghost prev = msgs.deep_view();
        proof {
            assert(subv[0] == all[i as int]);
            assert(subv.subrange(1, subv.len() as int) =~= all.subrange(
                i as int + 1,
                all.len() as int,
            ));
        }
        let check = &report.checks[i];
        if !check.passed {
            msgs.push(check.message.clone());
            proof {
                assert(msgs.deep_view() =~= prev.push(all[i as int].message@));
            }
        }
        i += 1;
    }
    proof {
        assert(all.subrange(i as int, all.len() as int) =~= Seq::<CheckResult>::empty());
        assert(msgs.deep_view() =~= failing_messages_spec(all));
    }
    join_with(&msgs, "; ")
}

} // verus!
