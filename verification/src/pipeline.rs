//! Pipeline context — the accumulator for the release workflow.
//!
//! Every phase contributes structured data to a [`PipelineContext`]. The
//! context serves three purposes: `filter:` hooks receive it as JSON on
//! stdin and return mutated JSON; release-notes templates consume it; and
//! the final outcome includes it for machine-readable results.
//!
//! Version fields are strings (not parsed versions) so that JSON round
//! trips through external processes stay faithful. The context is only ever
//! replaced wholesale — a filter's output either becomes the entire new
//! context or the run aborts — so no partial state is ever observable.

use vstd::prelude::*;
use vstd::string::*;

use crate::clock::{date_str_spec, iso_date_from_secs, now_unix};
use crate::hooks::HookContext;

verus! {

/// A JSON value carried opaquely through the context (`metadata` entries).
#[verifier::external_type_specification]
#[verifier::external_body]
pub struct ExValue(serde_json::Value);

/// A contributor to the release.
#[derive(Debug, Clone)]
pub struct Contributor {
    /// Contributor name (from the commit log).
    pub name: String,
    /// Number of commits by this contributor.
    pub count: usize,
}

/// Release statistics gathered from git between two refs.
#[derive(Debug, Clone)]
pub struct ReleaseStats {
    /// Number of commits in the release.
    pub commit_count: usize,
    /// Number of files changed.
    pub files_changed: usize,
    /// Total lines inserted.
    pub insertions: usize,
    /// Total lines deleted.
    pub deletions: usize,
    /// Contributors and their commit counts.
    pub contributors: Vec<Contributor>,
}

/// A dependency change between two versions.
#[derive(Debug, Clone)]
pub struct DepChange {
    /// Dependency name.
    pub name: String,
    /// Previous version (absent if newly added).
    pub from: Option<String>,
    /// New version (absent if removed).
    pub to: Option<String>,
}

/// The main pipeline accumulator.
///
/// Constructed at the start of a run from the resolved plan; phase methods
/// fill in results as the pipeline progresses.
#[derive(Debug, Clone)]
pub struct PipelineContext {
    /// The new version being released (e.g., `"1.2.3"`).
    pub version: String,
    /// The previous version (e.g., `"1.1.0"`).
    pub previous_version: String,
    /// The git tag for this release (e.g., `"v1.2.3"`).
    pub tag: String,
    /// The git tag for the previous release (e.g., `"v1.1.0"`).
    pub previous_tag: String,
    /// Release date in `YYYY-MM-DD` format, computed once at construction.
    pub date: String,
    /// Repository owner (from the git remote).
    pub owner: String,
    /// Repository name (from the git remote).
    pub repo: String,
    /// Full repository URL, if available.
    pub repo_url: Option<String>,
    /// Current git branch.
    pub branch: Option<String>,
    /// Detected ecosystem (e.g., `"rust"`, `"node"`).
    pub ecosystem: String,
    /// Release statistics (files changed, insertions, deletions, ...).
    pub stats: Option<ReleaseStats>,
    /// Dependency changes between the previous and current version.
    pub dependencies: Vec<DepChange>,
    /// Whether the changelog was updated during the bump phase.
    pub changelog_updated: bool,
    /// Path to the changelog file.
    pub changelog_path: String,
    /// Files modified during the bump phase.
    pub modified_files: Vec<String>,
    /// The commit hash created by the git phase.
    pub commit_hash: Option<String>,
    /// URL of the created hosted release.
    pub release_url: Option<String>,
    /// Asset paths attached to the release.
    pub assets: Vec<String>,
    /// The rendered release notes, once the release phase produced them.
    pub release_notes: Option<String>,
    /// Open metadata for hooks and templates, as key/value pairs. The
    /// pairs mirror a JSON object, so keys are expected to be unique.
    pub metadata: Vec<(String, serde_json::Value)>,
    /// Whether this is a dry-run execution.
    pub dry_run: bool,
}

/// Arguments for constructing a [`PipelineContext`].
#[derive(Debug, Clone)]
pub struct PipelineContextInit {
    /// New version string.
    pub version: String,
    /// Previous version string.
    pub previous_version: String,
    /// Git tag for this release.
    pub tag: String,
    /// Git tag for the previous release.
    pub previous_tag: String,
    /// Repository owner.
    pub owner: String,
    /// Repository name.
    pub repo: String,
    /// Full repository URL.
    pub repo_url: Option<String>,
    /// Current git branch.
    pub branch: Option<String>,
    /// Detected ecosystem name.
    pub ecosystem: String,
    /// Path to the changelog file.
    pub changelog_path: String,
    /// Whether this is a dry run.
    pub dry_run: bool,
}

impl PipelineContext {
    /// Create a new pipeline context from resolved plan data.
    ///
    /// Phase-specific fields start empty and are populated as phases run;
    /// the date is stamped from the wall clock, once.
    pub fn new(init: PipelineContextInit) -> (s: PipelineContext)
        ensures
            s.version == init.version,
            s.previous_version == init.previous_version,
            s.tag == init.tag,
            s.previous_tag == init.previous_tag,
            s.date@.len() == 10 && s.date@[4] == '-' && s.date@[7] == '-',
            exists|secs: int| s.date@ == #[trigger] date_str_spec(secs),
            s.owner == init.owner,
            s.repo == init.repo,
            s.repo_url == init.repo_url,
            s.branch == init.branch,
            s.ecosystem == init.ecosystem,
            s.stats is None,
            s.dependencies@ == Seq::<DepChange>::empty(),
            !s.changelog_updated,
            s.changelog_path == init.changelog_path,
            s.modified_files@ == Seq::<String>::empty(),
            s.commit_hash is None,
            s.release_url is None,
            s.assets@ == Seq::<String>::empty(),
            s.release_notes is None,
            s.metadata@ == Seq::<(String, serde_json::Value)>::empty(),
            s.dry_run == init.dry_run,
    {
        let clock = now_unix();
        let date = iso_date_from_secs(clock.0);
        proof {
            assert(date@ == date_str_spec(clock.0 as int));
        }
        PipelineContext {
            version: init.version,
            previous_version: init.previous_version,
            tag: init.tag,
            previous_tag: init.previous_tag,
            date,
            owner: init.owner,
            repo: init.repo,
            repo_url: init.repo_url,
            branch: init.branch,
            ecosystem: init.ecosystem,
            stats: None,
            dependencies: Vec::new(),
            changelog_updated: false,
            changelog_path: init.changelog_path,
            modified_files: Vec::new(),
            commit_hash: None,
            release_url: None,
            assets: Vec::new(),
            release_notes: None,
            metadata: Vec::new(),
            dry_run: init.dry_run,
        }
    }

    /// Derive a [`HookContext`] for variable interpolation in hook commands.
    pub fn hook_context(&self) -> (h: HookContext)
        ensures
            h.version == self.version,
            h.prev_version == self.previous_version,
            h.tag == self.tag,
            h.changelog_path == self.changelog_path,
            h.owner == self.owner,
            h.repo == self.repo,
    {
        HookContext {
            version: self.version.clone(),
            prev_version: self.previous_version.clone(),
            tag: self.tag.clone(),
            changelog_path: self.changelog_path.clone(),
            owner: self.owner.clone(),
            repo: self.repo.clone(),
        }
    }

    /// Record results from the bump phase.
    pub fn record_bump(&mut self, changelog_updated: bool, modified_files: Vec<String>)
        ensures
            *final(self) == (PipelineContext {
                changelog_updated,
                modified_files,
                ..*old(self)
            }),
    {
        self.changelog_updated = changelog_updated;
        self.modified_files = modified_files;
    }

    /// Record results from the git phase; the branch is only overwritten
    /// when the git phase learned one.
    pub fn record_git(&mut self, commit_hash: Option<String>, branch: Option<String>)
        ensures
            final(self).commit_hash == commit_hash,
            branch is Some ==> final(self).branch == branch,
            branch is None ==> final(self).branch == old(self).branch,
            *final(self) == (PipelineContext {
                commit_hash: final(self).commit_hash,
                branch: final(self).branch,
                ..*old(self)
            }),
    {
        self.commit_hash = commit_hash;
        if branch.is_some() {
            self.branch = branch;
        }
    }

    /// Record results from the release phase.
    pub fn record_release(&mut self, url: Option<String>)
        ensures
            *final(self) == (PipelineContext { release_url: url, ..*old(self) }),
    {
        self.release_url = url;
    }

    /// Set release assets from configuration.
    pub fn set_assets(&mut self, assets: Vec<String>)
        ensures
            *final(self) == (PipelineContext { assets, ..*old(self) }),
    {
        self.assets = assets;
    }
}

/// Today's date as `YYYY-MM-DD` (UTC), from the wall clock.
pub fn iso_date_today() -> (r: String)
    ensures
        r@.len() == 10,
        r@[4] == '-',
        r@[7] == '-',
        exists|secs: int| r@ == #[trigger] date_str_spec(secs),
{
    let clock = now_unix();
    let r = iso_date_from_secs(clock.0);
    proof {
        assert(r@ == date_str_spec(clock.0 as int));
    }
    r
}

} // verus!
