//! Configuration data for the release workflow.
//!
//! Plain value types: which commands to run, what the release should look
//! like, and the hook lists for every phase boundary. Discovering, reading
//! and merging configuration files happens outside this crate; the
//! workflow only ever sees these resolved values.

use vstd::prelude::*;
use vstd::string::*;

use crate::ecosystem::{ChangelogTool, Ecosystem};

verus! {

/// Log level configuration.
#[derive(Debug, Clone, Copy, PartialEq, Eq, Structural)]
pub enum LogLevel {
    /// Verbose output for debugging and development.
    Debug,
    /// Standard operational information (the default).
    Info,
    /// Warnings about potential issues.
    Warn,
    /// Errors that indicate failures.
    Error,
}

impl LogLevel {
    /// The lowercase name of the level.
    pub open spec fn str_spec(self) -> Seq<char> {
        match self {
            LogLevel::Debug => "debug"@,
            LogLevel::Info => "info"@,
            LogLevel::Warn => "warn"@,
            LogLevel::Error => "error"@,
        }
    }

    /// The log level as a lowercase string slice.
    pub fn as_str(&self) -> (r: &'static str)
        ensures
            r@ == self.str_spec(),
    {
        match self {
            LogLevel::Debug => "debug",
            LogLevel::Info => "info",
            LogLevel::Warn => "warn",
            LogLevel::Error => "error",
        }
    }
}

impl Default for LogLevel {
    /// The default level is `Info`.
    fn default() -> (r: Self)
        ensures
            r == LogLevel::Info,
    {
        LogLevel::Info
    }
}

/// Project-level settings.
#[derive(Debug, Clone, PartialEq, Eq)]
pub struct ProjectConfig {
    /// Override the detected project type.
    pub project_type: Option<Ecosystem>,
    /// The branch releases must start from.
    pub release_branch: Option<String>,
}

/// Version-resolution settings.
#[derive(Debug, Clone, PartialEq, Eq)]
pub struct VersionConfig {
    /// Strategy name override (e.g., `"conventional-commits"`).
    pub strategy: Option<String>,
}

/// Command overrides for the workflow phases.
#[derive(Debug, Clone, PartialEq, Eq)]
pub struct CommandsConfig {
    /// Test command override.
    pub test: Option<String>,
    /// Build command override.
    pub build: Option<String>,
    /// Publish command override.
    pub publish: Option<String>,
    /// Clean command override.
    pub clean: Option<String>,
}

/// Hosted-release settings.
#[derive(Debug, Clone, PartialEq, Eq)]
pub struct ReleaseConfig {
    /// Changelog tool override.
    pub changelog_tool: Option<ChangelogTool>,
    /// Whether to create a hosted release at all.
    pub github_release: Option<bool>,
    /// Asset paths to upload with the release.
    pub assets: Option<Vec<String>>,
    /// Path to a custom release-notes template.
    pub notes_template: Option<String>,
    /// Whether the release starts as a draft.
    pub draft: Option<bool>,
    /// Release title (supports hook-style `{var}` interpolation).
    pub title: Option<String>,
    /// Discussion category to open with the release.
    pub discussion_category: Option<String>,
}

/// Hook command lists for every phase boundary.
#[derive(Debug, Clone, PartialEq, Eq)]
pub struct HooksConfig {
    /// Before the whole workflow.
    pub pre_ship: Option<Vec<String>>,
    /// After the whole workflow.
    pub post_ship: Option<Vec<String>>,
    /// Before the test phase.
    pub pre_test: Option<Vec<String>>,
    /// After the test phase.
    pub post_test: Option<Vec<String>>,
    /// Before the bump phase.
    pub pre_bump: Option<Vec<String>>,
    /// After the bump phase.
    pub post_bump: Option<Vec<String>>,
    /// Before the publish phase.
    pub pre_publish: Option<Vec<String>>,
    /// After the publish phase.
    pub post_publish: Option<Vec<String>>,
    /// Before the git phase.
    pub pre_tag: Option<Vec<String>>,
    /// After the git phase.
    pub post_tag: Option<Vec<String>>,
    /// Before the release phase.
    pub pre_release: Option<Vec<String>>,
    /// After the release phase.
    pub post_release: Option<Vec<String>>,
}

impl Default for HooksConfig {
    /// No hooks configured anywhere.
    fn default() -> (r: Self)
        ensures
            r.pre_ship is None,
            r.post_ship is None,
            r.pre_test is None,
            r.post_test is None,
            r.pre_bump is None,
            r.post_bump is None,
            r.pre_publish is None,
            r.post_publish is None,
            r.pre_tag is None,
            r.post_tag is None,
            r.pre_release is None,
            r.post_release is None,
    {
        HooksConfig {
            pre_ship: None,
            post_ship: None,
            pre_test: None,
            post_test: None,
            pre_bump: None,
            post_bump: None,
            pre_publish: None,
            post_publish: None,
            pre_tag: None,
            post_tag: None,
            pre_release: None,
            post_release: None,
        }
    }
}

/// Workflow-level settings.
#[derive(Debug, Clone, PartialEq, Eq)]
pub struct ShipConfig {
    /// Whether to ask for confirmation before executing.
    pub confirm: Option<bool>,
}

/// The full resolved configuration.
#[derive(Debug, Clone, PartialEq, Eq)]
pub struct Config {
    /// Log verbosity.
    pub log_level: LogLevel,
    /// Directory for log files.
    pub log_dir: Option<String>,
    /// Project settings.
    pub project: Option<ProjectConfig>,
    /// Version settings.
    pub version: Option<VersionConfig>,
    /// Command overrides.
    pub commands: Option<CommandsConfig>,
    /// Hosted-release settings.
    pub release: Option<ReleaseConfig>,
    /// Hook lists.
    pub hooks: Option<HooksConfig>,
    /// Workflow settings.
    pub ship: Option<ShipConfig>,
}

impl Default for Config {
    /// Info-level logging and nothing else configured.
    fn default() -> (r: Self)
        ensures
            r.log_level == LogLevel::Info,
            r.log_dir is None,
            r.project is None,
            r.version is None,
            r.commands is None,
            r.release is None,
            r.hooks is None,
            r.ship is None,
    {
        Config {
            log_level: LogLevel::Info,
            log_dir: None,
            project: None,
            version: None,
            commands: None,
            release: None,
            hooks: None,
            ship: None,
        }
    }
}

} // verus!
