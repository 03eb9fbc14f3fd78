//! Release notes: the built-in template and the preview value types.
//!
//! Rendering runs through an external changelog tool in a two-pass
//! pattern — extract its commit context as JSON, inject the pipeline's
//! extra data, render through a template. Both passes are external
//! processes and live outside this crate; here are the template the tool
//! renders by default, the option/result types, and the template
//! resolution rule.

use vstd::prelude::*;
use vstd::string::*;

use crate::text::clone_opt_string;

verus! {

/// Errors from the release-notes rendering pipeline.
#[derive(Debug, Clone)]
pub enum NotesError {
    /// Context extraction failed or produced something unusable.
    CliffContext(String),
    /// Rendering through the template failed.
    CliffRender(String),
    /// A custom template file could not be read.
    ReadTemplate {
        /// Path to the template file.
        path: String,
        /// The underlying I/O error, rendered.
        source: String,
    },
}

/// The built-in release notes template.
pub const BUILTIN_TEMPLATE: &'static str = "## {{ version }} ({{ extra.date | default(value=timestamp | date(format=\"%Y-%m-%d\")) }})\n\n{% for group, commits in commits | group_by(attribute=\"group\") %}### {{ group }}\n{% for commit in commits %}- {{ commit.message | upper_first }} ({{ commit.id | truncate(length=7, end=\"\") }})\n{% endfor %}\n{% endfor %}{% if extra.stats %}### Stats\n\n- {{ extra.stats.files_changed }} files changed, {{ extra.stats.insertions }} insertions, {{ extra.stats.deletions }} deletions\n{% if extra.stats.contributors %}- Contributors: {% for c in extra.stats.contributors %}{{ c.name }}{% if not loop.last %}, {% endif %}{% endfor %}\n{% endif %}{% endif %}{% if extra.deps %}\n### Dependencies\n\n{% for dep in extra.deps %}- {{ dep.name }}: {% if dep.from %}{{ dep.from }}{% else %}added{% endif %}{% if dep.to %} -> {{ dep.to }}{% else %} (removed){% endif %}\n{% endfor %}{% endif %}\n";

/// Options for the notes preview.
#[derive(Debug, Clone)]
pub struct PreviewNotesOptions {
    /// Override the previous version tag (default: latest semver tag).
    pub from: Option<String>,
    /// Override the version to render (default: read from project files).
    pub version: Option<String>,
    /// Path to a custom template (overrides config and built-in).
    pub template: Option<String>,
    /// Skip dependency diff.
    pub no_deps: bool,
    /// Skip stats collection.
    pub no_stats: bool,
}

/// The result of a notes preview.
#[derive(Debug, Clone)]
pub struct PreviewNotesResult {
    /// The rendered markdown.
    pub notes: String,
    /// The version the notes are for.
    pub version: String,
    /// The previous version tag.
    pub previous_tag: String,
    /// The tag for this version.
    pub tag: String,
}

/// Pick the template path to render with: an explicit option wins over the
/// configured one; nothing means the built-in template.
pub fn resolve_template(
    option_template: &Option<String>,
    config_template: &Option<String>,
) -> (r: Option<String>)
    ensures
        option_template is Some ==> r == *option_template,
        option_template is None ==> r == *config_template,
{
    match option_template {
        Some(t) => Some(t.clone()),
        None => clone_opt_string(config_template),
    }
}

} // verus!
