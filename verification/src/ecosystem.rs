//! Ecosystem types and smart defaults for release workflows.
//!
//! The project ecosystem (Rust, Node, generic) and the associated tool and
//! command defaults. Marker-file probing lives outside the crate; this
//! module is pure types and data.

use vstd::prelude::*;
use vstd::string::*;

use crate::text::str_concat;

verus! {

/// A recognized project ecosystem.
#[derive(Debug, Clone, Copy, PartialEq, Eq, Hash, Structural)]
pub enum Ecosystem {
    /// Rust project (detected via `Cargo.toml`).
    Rust,
    /// Node.js project (detected via `package.json`).
    Node,
    /// Generic project — no ecosystem-specific behavior. Skips version-file
    /// rewrite, deps diff and registry publish; still does changelog, git
    /// and hosted-release work.
    Generic,
}

impl Ecosystem {
    /// The lowercase name of the ecosystem.
    pub open spec fn str_spec(self) -> Seq<char> {
        match self {
            Ecosystem::Rust => "rust"@,
            Ecosystem::Node => "node"@,
            Ecosystem::Generic => "generic"@,
        }
    }

    /// Lowercase name, as shown to the user.
    pub fn as_str(self) -> (r: &'static str)
        ensures
            r@ == self.str_spec(),
    {
        match self {
            Ecosystem::Rust => "rust",
            Ecosystem::Node => "node",
            Ecosystem::Generic => "generic",
        }
    }

    /// Filename that signals this ecosystem when found in a directory;
    /// `Generic` has no marker file.
    pub fn marker_file(self) -> (r: Option<&'static str>)
        ensures
            self == Ecosystem::Rust ==> {
                r matches Some(m) && m@ == "Cargo.toml"@
            },
            self == Ecosystem::Node ==> {
                r matches Some(m) && m@ == "package.json"@
            },
            self == Ecosystem::Generic ==> r is None,
    {
        match self {
            Ecosystem::Rust => Some("Cargo.toml"),
            Ecosystem::Node => Some("package.json"),
            Ecosystem::Generic => None,
        }
    }

    /// Primary lockfile for this ecosystem, relative to the project root;
    /// `Generic` has no lockfile.
    pub fn lockfile_path(self) -> (r: Option<&'static str>)
        ensures
            self == Ecosystem::Rust ==> {
                r matches Some(m) && m@ == "Cargo.lock"@
            },
            self == Ecosystem::Node ==> {
                r matches Some(m) && m@ == "package-lock.json"@
            },
            self == Ecosystem::Generic ==> r is None,
    {
        match self {
            Ecosystem::Rust => Some("Cargo.lock"),
            Ecosystem::Node => Some("package-lock.json"),
            Ecosystem::Generic => None,
        }
    }
}

/// Changelog generation tool.
#[derive(Debug, Clone, Copy, PartialEq, Eq, Hash, Structural)]
pub enum ChangelogTool {
    /// git-cliff — template-driven changelogs.
    GitCliff,
    /// cocogitto — conventional-commit tooling.
    Cog,
}

impl ChangelogTool {
    /// The binary name of the tool.
    pub open spec fn str_spec(self) -> Seq<char> {
        match self {
            ChangelogTool::GitCliff => "git-cliff"@,
            ChangelogTool::Cog => "cog"@,
        }
    }

    /// Binary name, as shown to the user.
    pub fn as_str(self) -> (r: &'static str)
        ensures
            r@ == self.str_spec(),
    {
        match self {
            ChangelogTool::GitCliff => "git-cliff",
            ChangelogTool::Cog => "cog",
        }
    }
}

/// Version-determination strategy.
#[derive(Debug, Clone, PartialEq, Eq)]
pub enum VersionStrategy {
    /// Auto-compute from conventional commits via a changelog tool.
    ConventionalCommits {
        /// Which tool drives the analysis.
        tool: ChangelogTool,
    },
    /// Interactive semver picker (show recent commits, prompt the user).
    Interactive,
    /// Explicit version passed on the command line.
    Explicit(String),
}

impl VersionStrategy {
    /// The user-facing description of the strategy.
    pub open spec fn describe_spec(&self) -> Seq<char> {
        match self {
            VersionStrategy::ConventionalCommits { tool } => "conventional-commits ("@
                + tool.str_spec() + ")"@,
            VersionStrategy::Interactive => "interactive"@,
            VersionStrategy::Explicit(v) => "explicit ("@ + v@ + ")"@,
        }
    }

    /// Render the strategy for display.
    pub fn describe(&self) -> (r: String)
        ensures
            r@ == self.describe_spec(),
    {
        match self {
            VersionStrategy::ConventionalCommits { tool } => {
                let a = str_concat("conventional-commits (", tool.as_str());
                str_concat(a.as_str(), ")")
            },
            VersionStrategy::Interactive => String::from_str("interactive"),
            VersionStrategy::Explicit(v) => {
                let a = str_concat("explicit (", v.as_str());
                str_concat(a.as_str(), ")")
            },
        }
    }
}

/// Tools detected on `PATH` and their resolved commands.
#[derive(Debug, Clone, PartialEq, Eq)]
pub struct DetectedTools {
    /// Command to run tests (e.g. `"cargo test"`).
    pub test_cmd: String,
    /// Command to build a release artifact.
    pub build_cmd: String,
    /// Command to publish to a registry (absent if not applicable).
    pub publish_cmd: Option<String>,
    /// Command to bump the version in project files (absent if manual).
    pub bump_cmd: Option<String>,
    /// Changelog tool, if one is configured.
    pub changelog_tool: Option<ChangelogTool>,
}

/// Full detection result for a project.
#[derive(Debug, Clone, PartialEq, Eq)]
pub struct ProjectDetection {
    /// The detected ecosystem.
    pub ecosystem: Ecosystem,
    /// How to determine the next version.
    pub version_strategy: VersionStrategy,
    /// Resolved tool commands.
    pub tools: DetectedTools,
}

impl ProjectDetection {
    /// A `Generic` detection with the given version strategy; all tool
    /// commands are empty.
    pub fn generic(version_strategy: VersionStrategy) -> (r: ProjectDetection)
        ensures
            r.ecosystem == Ecosystem::Generic,
            r.version_strategy == version_strategy,
            r.tools.test_cmd@ == Seq::<char>::empty(),
            r.tools.build_cmd@ == Seq::<char>::empty(),
            r.tools.publish_cmd is None,
            r.tools.bump_cmd is None,
            r.tools.changelog_tool is None,
    {
        ProjectDetection {
            ecosystem: Ecosystem::Generic,
            version_strategy,
            tools: DetectedTools {
                test_cmd: String::new(),
                build_cmd: String::new(),
                publish_cmd: None,
                bump_cmd: None,
                changelog_tool: None,
            },
        }
    }
}

} // verus!
