use scrat::ecosystem::{ChangelogTool, Ecosystem, ProjectDetection, VersionStrategy};

#[test]
fn ecosystem_display() {
    assert_eq!(Ecosystem::Rust.as_str(), "rust");
    assert_eq!(Ecosystem::Node.as_str(), "node");
    assert_eq!(Ecosystem::Generic.as_str(), "generic");
}

#[test]
fn ecosystem_marker_files() {
    assert_eq!(Ecosystem::Rust.marker_file(), Some("Cargo.toml"));
    assert_eq!(Ecosystem::Node.marker_file(), Some("package.json"));
    assert_eq!(Ecosystem::Generic.marker_file(), None);
}

#[test]
fn version_strategy_display() {
    let cc = VersionStrategy::ConventionalCommits { tool: ChangelogTool::GitCliff };
    assert_eq!(cc.describe(), "conventional-commits (git-cliff)");
    assert_eq!(VersionStrategy::Interactive.describe(), "interactive");
    assert_eq!(
        VersionStrategy::Explicit("v1.0.0".into()).describe(),
        "explicit (v1.0.0)"
    );
}

#[test]
fn changelog_tool_display() {
    assert_eq!(ChangelogTool::GitCliff.as_str(), "git-cliff");
    assert_eq!(ChangelogTool::Cog.as_str(), "cog");
}

#[test]
fn lockfile_paths() {
    assert_eq!(Ecosystem::Rust.lockfile_path(), Some("Cargo.lock"));
    assert_eq!(Ecosystem::Node.lockfile_path(), Some("package-lock.json"));
    assert_eq!(Ecosystem::Generic.lockfile_path(), None);
}

#[test]
fn generic_detection_is_empty() {
    let det = ProjectDetection::generic(VersionStrategy::Interactive);
    assert_eq!(det.ecosystem, Ecosystem::Generic);
    assert_eq!(det.version_strategy, VersionStrategy::Interactive);
    assert!(det.tools.test_cmd.is_empty());
    assert!(det.tools.build_cmd.is_empty());
    assert!(det.tools.publish_cmd.is_none());
    assert!(det.tools.bump_cmd.is_none());
    assert!(det.tools.changelog_tool.is_none());
}
