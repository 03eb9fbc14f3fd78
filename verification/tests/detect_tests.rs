use scrat::detect::{ToolVersionCheck, detect_node_stub, min_git_cliff_version};
use scrat::ecosystem::{Ecosystem, VersionStrategy};
use scrat::version::Version;

#[test]
fn tool_version_check_too_old() {
    let found = Version::new(1, 0, 0);
    let minimum = Version::new(2, 5, 0);
    assert!(found < minimum);
    let check = ToolVersionCheck::TooOld { found, minimum };
    assert!(matches!(check, ToolVersionCheck::TooOld { .. }));
}

#[test]
fn min_git_cliff_version_is_correct() {
    assert_eq!(min_git_cliff_version(), Version::new(2, 5, 0));
}

#[test]
fn node_stub_defaults() {
    let det = detect_node_stub(VersionStrategy::Interactive);
    assert_eq!(det.ecosystem, Ecosystem::Node);
    assert_eq!(det.tools.test_cmd, "npm test");
    assert_eq!(det.tools.build_cmd, "npm run build");
    assert_eq!(det.tools.publish_cmd.as_deref(), Some("npm publish"));
    assert_eq!(det.tools.bump_cmd.as_deref(), Some("npm version --no-git-tag-version"));
    assert!(det.tools.changelog_tool.is_none());
}
