use scrat::config::{Config, ProjectConfig};
use scrat::detect::ToolVersionCheck;
use scrat::ecosystem::{ProjectDetection, VersionStrategy};
use scrat::git::GitError;
use scrat::preflight::{
    PreflightInputs, check_clean_tree, check_ecosystem, check_git_repo, check_release_branch,
    check_remote_sync, check_required_tools, failure_summary, required_binaries, run_preflight,
};
use scrat::version::Version;

fn passing_inputs() -> PreflightInputs {
    PreflightInputs {
        in_repo: Ok(true),
        clean: Ok(true),
        current_branch: Ok(Some("main".into())),
        detected_branch: Ok(Some("main".into())),
        remote_sync: Ok(true),
        detection: Some(ProjectDetection::generic(VersionStrategy::Interactive)),
        missing_tools: vec![],
        cliff_check: None,
    }
}

#[test]
fn check_ecosystem_none() {
    let result = check_ecosystem(&None);
    assert!(!result.passed);
}

#[test]
fn check_ecosystem_some_names_the_ecosystem() {
    let det = ProjectDetection::generic(VersionStrategy::Interactive);
    let result = check_ecosystem(&Some(det));
    assert!(result.passed);
    assert_eq!(result.message, "Detected generic project");
}

#[test]
fn check_git_repo_cases() {
    assert!(check_git_repo(&Ok(true)).passed);
    let failed = check_git_repo(&Ok(false));
    assert!(!failed.passed);
    assert_eq!(failed.message, "Not inside a git repository");
    let err = check_git_repo(&Err(GitError::NotARepo));
    assert!(!err.passed);
    assert!(err.message.starts_with("Failed to check: "));
}

#[test]
fn check_clean_tree_cases() {
    assert_eq!(check_clean_tree(&Ok(true)).message, "Clean working tree");
    assert_eq!(
        check_clean_tree(&Ok(false)).message,
        "Uncommitted changes in working tree"
    );
}

#[test]
fn check_remote_sync_cases() {
    assert!(check_remote_sync(&Ok(true)).passed);
    assert!(!check_remote_sync(&Ok(false)).passed);
}

#[test]
fn check_release_branch_with_override() {
    let ok = check_release_branch(&Ok(Some("release".into())), &Some("release".into()), &Ok(None));
    assert!(ok.passed);
    assert_eq!(ok.message, "On configured release branch 'release'");
    let bad = check_release_branch(&Ok(Some("dev".into())), &Some("release".into()), &Ok(None));
    assert!(!bad.passed);
    assert_eq!(bad.message, "On 'dev', expected 'release'");
}

#[test]
fn check_release_branch_detected() {
    let ok = check_release_branch(&Ok(Some("main".into())), &None, &Ok(Some("main".into())));
    assert!(ok.passed);
    assert_eq!(ok.message, "On release branch 'main'");
    let detached = check_release_branch(&Ok(None), &None, &Ok(Some("main".into())));
    assert!(!detached.passed);
    let nothing = check_release_branch(&Ok(Some("dev".into())), &None, &Ok(None));
    assert!(!nothing.passed);
    assert_eq!(nothing.message, "On 'dev' - no main/master branch found");
}

#[test]
fn check_required_tools_cases() {
    let ok = check_required_tools(&vec![], &None);
    assert!(ok.passed);
    assert_eq!(ok.message, "All required tools are installed");
    let missing = check_required_tools(&vec!["cargo".into(), "git-cliff".into()], &None);
    assert!(!missing.passed);
    assert_eq!(missing.message, "Missing tools: cargo, git-cliff");
    let old = check_required_tools(
        &vec![],
        &Some(ToolVersionCheck::TooOld {
            found: Version::new(2, 0, 0),
            minimum: Version::new(2, 5, 0),
        }),
    );
    assert!(!old.passed);
    assert_eq!(
        old.message,
        "git-cliff 2.0.0 is too old (need 2.5.0+) - run `cargo install git-cliff`"
    );
}

#[test]
fn required_binaries_lists_tool_words() {
    let mut det = ProjectDetection::generic(VersionStrategy::Interactive);
    det.tools.test_cmd = "cargo test".into();
    det.tools.bump_cmd = Some("cargo set-version".into());
    let bins = required_binaries(&det.tools);
    assert_eq!(bins, vec!["cargo", "cargo"]);
}

#[test]
fn run_preflight_all_passing() {
    let report = run_preflight(passing_inputs(), &Config::default());
    assert!(report.all_passed);
    assert_eq!(report.checks.len(), 6);
    assert!(report.detection.is_some());
}

#[test]
fn run_preflight_stops_outside_repo() {
    let mut inputs = passing_inputs();
    inputs.in_repo = Ok(false);
    let report = run_preflight(inputs, &Config::default());
    assert!(!report.all_passed);
    assert_eq!(report.checks.len(), 1);
    assert!(report.detection.is_none());
}

#[test]
fn run_preflight_honors_branch_override() {
    let mut config = Config::default();
    config.project = Some(ProjectConfig {
        project_type: None,
        release_branch: Some("release".into()),
    });
    let report = run_preflight(passing_inputs(), &config);
    assert!(!report.all_passed);
    assert_eq!(report.checks[2].message, "On 'main', expected 'release'");
}

#[test]
fn failure_summary_joins_failing_messages() {
    let mut inputs = passing_inputs();
    inputs.clean = Ok(false);
    inputs.remote_sync = Ok(false);
    let report = run_preflight(inputs, &Config::default());
    assert!(!report.all_passed);
    assert_eq!(
        failure_summary(&report),
        "Uncommitted changes in working tree; Local branch is out of sync with remote (pull or push needed)"
    );
    let all_good = run_preflight(passing_inputs(), &Config::default());
    assert_eq!(failure_summary(&all_good), "");
}
