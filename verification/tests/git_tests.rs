use scrat::git::{
    GitError, contributors_since, current_branch, detect_release_branch, is_clean,
    is_inside_repo, is_remote_in_sync, latest_version_tag, parse_diff_stat, parse_owner_repo,
    recent_commits, stats_since,
};

#[test]
fn parse_owner_repo_https() {
    let result = parse_owner_repo("https://github.com/claylo/scrat.git");
    assert_eq!(result, Some(("claylo".into(), "scrat".into())));
}

#[test]
fn parse_owner_repo_https_no_suffix() {
    let result = parse_owner_repo("https://github.com/claylo/scrat");
    assert_eq!(result, Some(("claylo".into(), "scrat".into())));
}

#[test]
fn parse_owner_repo_ssh() {
    let result = parse_owner_repo("git@github.com:claylo/scrat.git");
    assert_eq!(result, Some(("claylo".into(), "scrat".into())));
}

#[test]
fn parse_owner_repo_ssh_no_suffix() {
    let result = parse_owner_repo("git@github.com:claylo/scrat");
    assert_eq!(result, Some(("claylo".into(), "scrat".into())));
}

#[test]
fn parse_owner_repo_invalid() {
    assert!(parse_owner_repo("not-a-url").is_none());
    assert!(parse_owner_repo("").is_none());
}

#[test]
fn parse_owner_repo_rejects_nested_path() {
    assert!(parse_owner_repo("https://github.com/a/b/c").is_none());
}

#[test]
fn parse_diff_stat_full_line() {
    let output = " file1.rs | 10 +++\n file2.rs | 5 ---\n 2 files changed, 10 insertions(+), 5 deletions(-)\n";
    let (files, ins, del) = parse_diff_stat(output);
    assert_eq!(files, 2);
    assert_eq!(ins, 10);
    assert_eq!(del, 5);
}

#[test]
fn parse_diff_stat_insertions_only() {
    let output = " 1 file changed, 42 insertions(+)\n";
    let (files, ins, del) = parse_diff_stat(output);
    assert_eq!(files, 1);
    assert_eq!(ins, 42);
    assert_eq!(del, 0);
}

#[test]
fn parse_diff_stat_empty() {
    let (files, ins, del) = parse_diff_stat("");
    assert_eq!(files, 0);
    assert_eq!(ins, 0);
    assert_eq!(del, 0);
}

#[test]
fn is_clean_judges_porcelain_output() {
    assert!(is_clean(""));
    assert!(is_clean("  \n"));
    assert!(!is_clean(" M src/lib.rs\n"));
}

#[test]
fn current_branch_parses_rev_parse() {
    assert_eq!(current_branch("main\n"), Some("main".to_string()));
    assert_eq!(current_branch("HEAD\n"), None);
    assert_eq!(current_branch("feature/x"), Some("feature/x".to_string()));
}

#[test]
fn detect_release_branch_prefers_main() {
    assert_eq!(detect_release_branch(true, true), Some("main".to_string()));
    assert_eq!(detect_release_branch(true, false), Some("main".to_string()));
    assert_eq!(detect_release_branch(false, true), Some("master".to_string()));
    assert_eq!(detect_release_branch(false, false), None);
}

#[test]
fn is_remote_in_sync_compares_heads() {
    assert!(is_remote_in_sync("abc123\n", "abc123\n"));
    assert!(!is_remote_in_sync("abc123\n", "def456\n"));
}

#[test]
fn is_inside_repo_reads_answer() {
    assert!(is_inside_repo("true\n"));
    assert!(!is_inside_repo("false\n"));
    assert!(!is_inside_repo(""));
}

#[test]
fn latest_version_tag_takes_first_line() {
    assert_eq!(latest_version_tag("v1.2.3\nv1.2.2\nv1.0.0\n"), Some("v1.2.3".to_string()));
    assert_eq!(latest_version_tag(""), None);
}

#[test]
fn recent_commits_parses_log_lines() {
    let output = "abc1234 feat: add thing\ndef5678 fix: squash bug\n\n";
    let commits = recent_commits(output);
    assert_eq!(commits.len(), 2);
    assert_eq!(commits[0], ("abc1234".to_string(), "feat: add thing".to_string()));
    assert_eq!(commits[1], ("def5678".to_string(), "fix: squash bug".to_string()));
}

#[test]
fn recent_commits_handles_missing_subject() {
    let commits = recent_commits("abc1234\n");
    assert_eq!(commits, vec![("abc1234".to_string(), String::new())]);
}

#[test]
fn stats_since_counts_commits_and_stats() {
    let log = "abc fix\ndef feat\nghi chore\n";
    let diff = " 3 files changed, 42 insertions(+), 10 deletions(-)\n";
    let stats = stats_since(log, diff);
    assert_eq!(stats.commit_count, 3);
    assert_eq!(stats.files_changed, 3);
    assert_eq!(stats.insertions, 42);
    assert_eq!(stats.deletions, 10);
}

#[test]
fn contributors_since_parses_shortlog() {
    let output = "    30\tAlice\n    12\tBob\n";
    let contributors = contributors_since(output, 20);
    assert_eq!(contributors.len(), 2);
    assert_eq!(contributors[0], ("Alice".to_string(), 30));
    assert_eq!(contributors[1], ("Bob".to_string(), 12));
}

#[test]
fn contributors_since_respects_limit() {
    let output = "5 A\n4 B\n3 C\n";
    let contributors = contributors_since(output, 2);
    assert_eq!(contributors.len(), 2);
    assert_eq!(contributors[0].0, "A");
    assert_eq!(contributors[1].0, "B");
}

#[test]
fn git_error_describes_itself() {
    let e = GitError::Command { command: "status".into(), stderr: "fatal: oops".into() };
    assert_eq!(e.describe(), "git status failed: fatal: oops");
    assert_eq!(
        GitError::NotARepo.describe(),
        "not a git repository (or any parent up to mount point)"
    );
    assert_eq!(GitError::Exec("io".into()).describe(), "failed to run git: io");
}
