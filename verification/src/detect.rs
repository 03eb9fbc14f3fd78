//! Project detection values.
//!
//! Probing marker files and the `PATH` happens outside this crate; the
//! detection outcomes it produces — tool defaults and version checks — are
//! modeled here so that preflight can reason about them.

use vstd::prelude::*;
use vstd::string::*;

use crate::ecosystem::{DetectedTools, Ecosystem, ProjectDetection, VersionStrategy};
use crate::version::Version;

verus! {

/// Result of a tool version check.
#[derive(Debug, Clone)]
pub enum ToolVersionCheck {
    /// Tool meets the minimum version.
    Satisfied(Version),
    /// Tool is too old.
    TooOld {
        /// The version that was found.
        found: Version,
        /// The minimum required version.
        minimum: Version,
    },
    /// Could not determine the version (binary missing, parse failure).
    Unknown(String),
}

/// Minimum required version of git-cliff: the forced-bump flag the bump
/// phase relies on landed in this release.
pub fn min_git_cliff_version() -> (r: Version)
    ensures
        r == (Version { major: 2, minor: 5, patch: 0 }),
{
    Version { major: 2, minor: 5, patch: 0 }
}

/// Detection defaults for the Node ecosystem (future implementation).
pub fn detect_node_stub(version_strategy: VersionStrategy) -> (r: ProjectDetection)
    ensures
        r.ecosystem == Ecosystem::Node,
        r.version_strategy == version_strategy,
        r.tools.test_cmd@ == "npm test"@,
        r.tools.build_cmd@ == "npm run build"@,
        r.tools.publish_cmd matches Some(p) && p@ == "npm publish"@,
        r.tools.bump_cmd matches Some(b) && b@ == "npm version --no-git-tag-version"@,
        r.tools.changelog_tool is None,
{
    ProjectDetection {
        ecosystem: Ecosystem::Node,
        version_strategy,
        tools: DetectedTools {
            test_cmd: String::from_str("npm test"),
            build_cmd: String::from_str("npm run build"),
            publish_cmd: Some(String::from_str("npm publish")),
            bump_cmd: Some(String::from_str("npm version --no-git-tag-version")),
            changelog_tool: None,
        },
    }
}

} // verus!
