//! The release orchestrator — a linear state machine over the seven fixed
//! phases: Preflight, Version, Test, Bump, Publish, Git, Release.
//!
//! Every decision the workflow makes — phase sequencing, hook batching at
//! each boundary, dry-run branching, outcome recording, failure
//! propagation — is verified here. Everything with a side effect (spawning
//! shells, git, the release host) happens in an unverified driver: the
//! machine hands out one [`ShipStep`] at a time, the driver performs any
//! requested [`ActionRequest`] and answers through
//! [`provide`](ShipRun::provide). Events are emitted in order for progress
//! display and must not affect control flow.
//!
//! A failing hook or phase ends the run at once: no further batch, phase
//! body or hook list is ever requested. In dry-run mode no action request
//! is ever produced, yet every phase still completes, in the fixed order.

use vstd::prelude::*;
use vstd::string::*;

use crate::config::Config;
use crate::deps::{DepChangeV, compute_deps, parse_cargo_lock_spec};
use crate::ecosystem::{Ecosystem, ProjectDetection, VersionStrategy};
use crate::git::{GitError, GitStats};
use crate::hooks::{
    BatchKind, BatchRequest, CommandOutcome, HookContext, HookError, HookRun, batch_reported,
    filter_reported, hook_run_started, interp_spec, interpolate_command, request_for,
};
use crate::pipeline::{DepChange, PipelineContext, PipelineContextInit};
use crate::stats::{compute_stats, stats_built};
use crate::text::{
    clone_opt_string, find_char, find_char_spec, join_comma, join_comma_spec,
    lemma_find_char_bounds, str_concat, trim, trim_spec,
};

verus! {

/// Errors from the ship workflow.
#[derive(Debug, Clone)]
pub enum ShipError {
    /// Preflight checks failed; holds the joined failure messages.
    PreflightFailed(String),
    /// A phase failed during execution.
    PhaseFailed {
        /// Which phase failed.
        phase: ShipPhase,
        /// Error details.
        message: String,
    },
    /// A hook failed.
    Hook(HookError),
    /// A git operation failed.
    Git(GitError),
}

/// Phases of the ship workflow, always executed in this order.
#[derive(Debug, Clone, Copy, PartialEq, Eq, Structural)]
pub enum ShipPhase {
    /// Validate release readiness.
    Preflight,
    /// Determine the next version.
    Version,
    /// Run the test suite.
    Test,
    /// Update version in project files and generate the changelog.
    Bump,
    /// Publish to a package registry.
    Publish,
    /// Commit, tag, and push to the remote.
    Git,
    /// Create a hosted release with notes and assets.
    Release,
}

impl ShipPhase {
    /// The lowercase name of the phase.
    pub open spec fn str_spec(self) -> Seq<char> {
        match self {
            ShipPhase::Preflight => "preflight"@,
            ShipPhase::Version => "version"@,
            ShipPhase::Test => "test"@,
            ShipPhase::Bump => "bump"@,
            ShipPhase::Publish => "publish"@,
            ShipPhase::Git => "git"@,
            ShipPhase::Release => "release"@,
        }
    }

    /// Lowercase name, as shown to the user.
    pub fn as_str(self) -> (r: &'static str)
        ensures
            r@ == self.str_spec(),
    {
        match self {
            ShipPhase::Preflight => "preflight",
            ShipPhase::Version => "version",
            ShipPhase::Test => "test",
            ShipPhase::Bump => "bump",
            ShipPhase::Publish => "publish",
            ShipPhase::Git => "git",
            ShipPhase::Release => "release",
        }
    }
}

/// The phase completed at position `i` of a full run.
pub open spec fn phase_at(i: int) -> ShipPhase {
    if i == 0 {
        ShipPhase::Preflight
    } else if i == 1 {
        ShipPhase::Version
    } else if i == 2 {
        ShipPhase::Test
    } else if i == 3 {
        ShipPhase::Bump
    } else if i == 4 {
        ShipPhase::Publish
    } else if i == 5 {
        ShipPhase::Git
    } else {
        ShipPhase::Release
    }
}

/// Outcome of a single phase.
#[derive(Debug)]
pub enum PhaseOutcome {
    /// Phase completed successfully.
    Success {
        /// Description of what happened.
        message: String,
    },
    /// Phase was skipped.
    Skipped {
        /// Why the phase was skipped.
        reason: String,
    },
}

fn clone_outcome(o: &PhaseOutcome) -> (r: PhaseOutcome)
    ensures
        r == *o,
{
    match o {
        PhaseOutcome::Success { message } => PhaseOutcome::Success { message: message.clone() },
        PhaseOutcome::Skipped { reason } => PhaseOutcome::Skipped { reason: reason.clone() },
    }
}

/// Events emitted during the workflow for progress reporting; observers
/// must not let them affect control flow.
#[derive(Debug)]
pub enum ShipEvent {
    /// A phase has started.
    PhaseStarted(ShipPhase),
    /// A phase has completed.
    PhaseCompleted(ShipPhase, PhaseOutcome),
    /// Hook commands are about to run (or would run, in dry-run mode).
    HooksStarted {
        /// Which phase the hooks belong to.
        phase: ShipPhase,
        /// Number of hook commands.
        count: usize,
        /// The hook commands, with interpolation applied.
        commands: Vec<String>,
        /// Whether these hooks will actually be executed.
        will_execute: bool,
    },
    /// Hook commands have finished (or were skipped in dry-run mode).
    HooksCompleted {
        /// Which phase the hooks belong to.
        phase: ShipPhase,
        /// Number of hook commands that ran (or would have).
        count: usize,
    },
}

/// Options controlling which phases of the workflow run.
#[derive(Debug, Clone)]
pub struct ShipOptions {
    /// Set the version explicitly (e.g., `"1.2.3"`).
    pub explicit_version: Option<String>,
    /// Skip changelog generation during the bump phase.
    pub no_changelog: bool,
    /// Skip the publish phase entirely.
    pub no_publish: bool,
    /// Skip git push (still commits and tags locally).
    pub no_push: bool,
    /// Skip hosted-release creation.
    pub no_release: bool,
    /// Skip dependency diff computation.
    pub no_deps: bool,
    /// Skip release statistics collection.
    pub no_stats: bool,
    /// Skip release notes rendering (falls back to generated notes).
    pub no_notes: bool,
    /// Preview what would happen without making changes.
    pub dry_run: bool,
    /// Skip running tests.
    pub no_test: bool,
    /// Skip git tag creation (still commits and pushes).
    pub no_tag: bool,
    /// Skip the entire git phase (commit, tag, push).
    pub no_git: bool,
    /// Override draft mode (`Some(true)` forces a draft).
    pub draft_override: Option<bool>,
}

impl Default for ShipOptions {
    /// Everything enabled, nothing explicit, no dry run.
    fn default() -> (r: Self)
        ensures
            r.explicit_version is None,
            !r.no_changelog,
            !r.no_publish,
            !r.no_push,
            !r.no_release,
            !r.no_deps,
            !r.no_stats,
            !r.no_notes,
            !r.dry_run,
            !r.no_test,
            !r.no_tag,
            !r.no_git,
            r.draft_override is None,
    {
        ShipOptions {
            explicit_version: None,
            no_changelog: false,
            no_publish: false,
            no_push: false,
            no_release: false,
            no_deps: false,
            no_stats: false,
            no_notes: false,
            dry_run: false,
            no_test: false,
            no_tag: false,
            no_git: false,
            draft_override: None,
        }
    }
}

/// Outcome of the full workflow.
#[derive(Debug)]
pub struct ShipOutcome {
    /// The version that was shipped.
    pub version: String,
    /// The previous version.
    pub previous_version: String,
    /// The git tag that was created.
    pub tag: String,
    /// Results of each phase, in the fixed phase order.
    pub phases: Vec<(ShipPhase, PhaseOutcome)>,
    /// Total number of hook commands executed (or previewed).
    pub hooks_run: usize,
    /// Whether this was a dry run.
    pub dry_run: bool,
    /// Structured pipeline context with data from all phases.
    pub context: PipelineContext,
}

/// Results from the bump collaborator.
#[derive(Debug)]
pub struct BumpResult {
    /// Whether a changelog was written.
    pub changelog_updated: bool,
    /// Files the bump modified.
    pub modified_files: Vec<String>,
}

/// Results from the git phase.
#[derive(Debug)]
pub struct GitPhaseResult {
    /// The commit hash.
    pub hash: String,
    /// The branch that was pushed, if any.
    pub branch: Option<String>,
    /// Whether the push actually happened.
    pub pushed: bool,
}

// ──────────────────────────────────────────────
// Release argument building
// ──────────────────────────────────────────────

/// The argument list for creating a hosted release.
pub open spec fn build_create_args_spec(
    tag: Seq<char>,
    title: Option<Seq<char>>,
    draft: bool,
    notes_file: Option<Seq<char>>,
    discussion_category: Option<Seq<char>>,
    assets: Seq<Seq<char>>,
) -> Seq<Seq<char>> {
    let base = seq!["release"@, "create"@, tag];
    let t = match title {
        Some(x) => base + seq!["--title"@, x],
        None => base,
    };
    let d = if draft {
        t + seq!["--draft"@]
    } else {
        t
    };
    let n = match notes_file {
        Some(p) => d + seq!["--notes-file"@, p],
        None => d + seq!["--generate-notes"@],
    };
    let c = match discussion_category {
        Some(x) => n + seq!["--discussion-category"@, x],
        None => n,
    };
    c + assets
}

/// Build the argument list for creating a hosted release.
pub fn build_create_args(
    tag: &String,
    title: &Option<String>,
    draft: bool,
    notes_file: &Option<String>,
    discussion_category: &Option<String>,
    assets: &Vec<String>,
) -> (r: Vec<String>)
    ensures
        r.deep_view() == build_create_args_spec(
            tag@,
            title.deep_view(),
            draft,
            notes_file.deep_view(),
            discussion_category.deep_view(),
            assets.deep_view(),
        ),
{
    let mut args: Vec<String> = Vec::new();
    args.push(String::from_str("release"));
    args.push(String::from_str("create"));
    args.push(tag.clone());
    if let Some(t) = title {
        args.push(String::from_str("--title"));
        args.push(t.clone());
    }
    if draft {
        args.push(String::from_str("--draft"));
    }
    match notes_file {
        Some(p) => {
            args.push(String::from_str("--notes-file"));
            args.push(p.clone());
        },
        None => {
            args.push(String::from_str("--generate-notes"));
        },
    }
    if let Some(c) = discussion_category {
        args.push(String::from_str("--discussion-category"));
        args.push(c.clone());
    }
    let mut i: usize = 0;
    let ghost head = args.deep_view();
    while i < assets.len()
        invariant
            0 <= i <= assets@.len(),
            args.deep_view() == head + assets.deep_view().subrange(0, i as int),
        decreases assets@.len() - i,
    {
        let ghost prev = args.deep_view();
        args.push(assets[i].clone());
        proof {
            assert(args.deep_view() =~= prev.push(assets.deep_view()[i as int]));
            assert(args.deep_view() =~= head + assets.deep_view().subrange(0, i as int + 1));
        }
        i += 1;
    }
    proof {
        assert(assets.deep_view().subrange(0, assets.deep_view().len() as int) =~= assets.deep_view());
        assert(args.deep_view() =~= build_create_args_spec(
            tag@,
            title.deep_view(),
            draft,
            notes_file.deep_view(),
            discussion_category.deep_view(),
            assets.deep_view(),
        ));
    }
    args
}

/// The argument list for editing an existing hosted release.
pub open spec fn build_edit_args_spec(
    tag: Seq<char>,
    title: Option<Seq<char>>,
    draft: bool,
    notes_file: Option<Seq<char>>,
) -> Seq<Seq<char>> {
    let base = seq!["release"@, "edit"@, tag];
    let t = match title {
        Some(x) => base + seq!["--title"@, x],
        None => base,
    };
    let d = if draft {
        t + seq!["--draft"@]
    } else {
        t + seq!["--draft=false"@]
    };
    match notes_file {
        Some(p) => d + seq!["--notes-file"@, p],
        None => d,
    }
}

/// Build the argument list for editing an existing hosted release.
pub fn build_edit_args(
    tag: &String,
    title: &Option<String>,
    draft: bool,
    notes_file: &Option<String>,
) -> (r: Vec<String>)
    ensures
        r.deep_view() == build_edit_args_spec(
            tag@,
            title.deep_view(),
            draft,
            notes_file.deep_view(),
        ),
{
    let mut args: Vec<String> = Vec::new();
    args.push(String::from_str("release"));
    args.push(String::from_str("edit"));
    args.push(tag.clone());
    if let Some(t) = title {
        args.push(String::from_str("--title"));
        args.push(t.clone());
    }
    if draft {
        args.push(String::from_str("--draft"));
    } else {
        args.push(String::from_str("--draft=false"));
    }
    if let Some(p) = notes_file {
        args.push(String::from_str("--notes-file"));
        args.push(p.clone());
    }
    proof {
        assert(args.deep_view() =~= build_edit_args_spec(
            tag@,
            title.deep_view(),
            draft,
            notes_file.deep_view(),
        ));
    }
    args
}

/// The final `/`-separated component of a path (the whole path if it has
/// no separator).
pub open spec fn last_component_spec(s: Seq<char>) -> Seq<char>
    decreases s.len(),
{
    let i = find_char_spec(s, '/');
    if 0 <= i && i < s.len() {
        last_component_spec(s.subrange(i + 1, s.len() as int))
    } else {
        s
    }
}

/// The path with trailing `/` separators removed.
pub open spec fn trim_slashes_spec(s: Seq<char>) -> Seq<char>
    decreases s.len(),
{
    if s.len() > 0 && s[s.len() - 1] == '/' {
        trim_slashes_spec(s.subrange(0, s.len() - 1))
    } else {
        s
    }
}

/// The basename of an asset path, as the release host names assets:
/// trailing separators are ignored, and a path with no name at all (empty,
/// or separators only) falls back to the whole path.
pub open spec fn basename_spec(s: Seq<char>) -> Seq<char> {
    let b = last_component_spec(trim_slashes_spec(s));
    if b.len() == 0 {
        s
    } else {
        b
    }
}

proof fn lemma_trim_slashes_at(s: Seq<char>, b: int)
    requires
        0 <= b <= s.len(),
        forall|k: int| b <= k < s.len() ==> s[k] == '/',
        b > 0 ==> s[b - 1] != '/',
    ensures
        trim_slashes_spec(s) == s.subrange(0, b),
    decreases s.len(),
{
    if s.len() == 0 {
        assert(s.subrange(0, 0) =~= s);
    } else if s[s.len() - 1] == '/' {
        let t = s.subrange(0, s.len() - 1);
        assert(b < s.len());
        lemma_trim_slashes_at(t, b);
        assert(t.subrange(0, b) =~= s.subrange(0, b));
    } else {
        assert(b == s.len());
        assert(s.subrange(0, s.len() as int) =~= s);
    }
}

/// The basename of an asset path, used to replace assets on an existing
/// release by name.
pub fn asset_basename(path: &str) -> (r: String)
    ensures
        r@ == basename_spec(path@),
{
    let n = path.unicode_len();
    let mut b: usize = n;
    while b > 0 && path.get_char(b - 1) == '/'
        invariant
            0 <= b <= n,
            n == path@.len(),
            forall|k: int| b <= k < n ==> path@[k] == '/',
        decreases b,
    {
        b -= 1;
    }
    proof {
        lemma_trim_slashes_at(path@, b as int);
    }
    let trimmed = path.substring_char(0, b);
    let mut rest: &str = trimmed;
    loop
        invariant
            trimmed@ == trim_slashes_spec(path@),
            last_component_spec(rest@) == last_component_spec(trimmed@),
        decreases rest@.len(),
    {
        let m = rest.unicode_len();
        let i = find_char(rest, '/');
        proof {
            lemma_find_char_bounds(rest@, '/');
        }
        if i >= m {
            if m == 0 {
                return path.to_owned();
            }
            return rest.to_owned();
        }
        rest = rest.substring_char(i + 1, m);
    }
}

// ──────────────────────────────────────────────
// The orchestrator state machine
// ──────────────────────────────────────────────

/// What the driver must do next.
#[derive(Debug)]
pub enum ActionRequest {
    /// Serialize the machine's current `ctx` field to one JSON document.
    SerializeContext,
    /// Execute one hook batch and report the raw outcomes.
    RunHookBatch(BatchRequest),
    /// Parse this JSON document back into a pipeline context.
    ParseContext(String),
    /// Run one shell command for a phase body (test or publish).
    RunShell {
        /// The phase the command belongs to.
        phase: ShipPhase,
        /// The command line.
        command: String,
    },
    /// Run the version-bump collaborator.
    RunBump {
        /// Whether to also generate the changelog.
        with_changelog: bool,
    },
    /// Commit everything, optionally tag, optionally push.
    GitCommitTagPush {
        /// The commit message.
        commit_message: String,
        /// Tag name and message, when a tag should be created.
        tag: Option<(String, String)>,
        /// Whether to push branch (and tags, if tagged) afterwards.
        push: bool,
    },
    /// Render release notes from the machine's current `ctx` field and
    /// write them to a file for the release tool.
    RenderNotes,
    /// Check whether a hosted release already exists for the tag.
    ReleaseExists {
        /// The release tag.
        tag: String,
    },
    /// Create or edit the hosted release with the prepared arguments.
    RunRelease {
        /// Whether this edits an existing release.
        edit: bool,
        /// The prepared argument list.
        args: Vec<String>,
        /// The release tag.
        tag: String,
    },
    /// Replace one asset on the release: delete any asset of this basename
    /// (best-effort — it may not exist yet), then upload the path. An
    /// upload failure aborts the release phase.
    UploadAsset {
        /// The release tag.
        tag: String,
        /// The asset file to upload.
        path: String,
        /// The basename the release host files it under.
        basename: String,
    },
}

/// The driver's answer to an [`ActionRequest`].
#[derive(Debug)]
pub enum ActionResponse {
    /// The serialized pipeline context.
    Serialized(String),
    /// Raw outcomes of a parallel or sync batch, in spawn order.
    BatchDone(Vec<CommandOutcome>),
    /// Raw outcome of a filter batch.
    FilterDone(CommandOutcome),
    /// A child process could not be spawned at all.
    SpawnFailed(String),
    /// The filter output parsed back into a context, or the parse error.
    Parsed(Result<PipelineContext, String>),
    /// Raw outcome of a phase-body shell command.
    ShellDone(CommandOutcome),
    /// The bump collaborator's result.
    BumpDone(Result<BumpResult, String>),
    /// The git phase's result.
    GitDone(Result<GitPhaseResult, GitError>),
    /// Rendered notes and the file they were written to (either may be
    /// absent on failure; the release then falls back to generated notes).
    NotesDone {
        /// The rendered markdown.
        rendered: Option<String>,
        /// The path the notes were written to.
        file: Option<String>,
    },
    /// Whether a hosted release already exists for the tag.
    ExistsDone(bool),
    /// The release URL (when the tool printed one), or the error.
    ReleaseDone(Result<Option<String>, String>),
    /// Raw outcome of one asset upload.
    UploadDone(CommandOutcome),
}

/// One step of the run.
#[derive(Debug)]
pub enum ShipStep {
    /// Deliver this event to the observer.
    Emit(ShipEvent),
    /// Perform this action and answer through `provide`.
    Act(ActionRequest),
    /// Bookkeeping only; ask again.
    Internal,
}

/// The machine's program counter. Hook states carry the index of the hook
/// slot they are running.
#[derive(Debug, Clone, Copy, PartialEq, Eq, Structural)]
pub enum Pc {
    /// About to announce the preflight phase.
    PfStart,
    /// About to complete the preflight phase.
    PfEnd,
    /// About to announce the version phase.
    VerStart,
    /// About to complete the version phase.
    VerEnd,
    /// Deciding whether the slot's hook list runs.
    HooksBegin(u8),
    /// Dry run: about to report the previewed hooks complete.
    HooksDryEnd(u8),
    /// About to ask for the serialized context.
    HooksSer(u8),
    /// Waiting for the serialized context.
    HooksSerAwait(u8),
    /// Asking the hook plan for its next batch.
    HooksStep(u8),
    /// Waiting for a parallel/sync batch's outcomes.
    HooksBatchAwait(u8),
    /// Waiting for a filter batch's outcome.
    HooksFilterAwait(u8),
    /// About to ask for the filter output to be parsed.
    HooksParse(u8),
    /// Waiting for the parsed context.
    HooksParseAwait(u8),
    /// About to report the hook list complete.
    HooksEnd(u8),
    /// About to announce the test phase.
    TestStart,
    /// Deciding how the test phase runs.
    TestDecide,
    /// About to request the test command.
    TestAct,
    /// Waiting for the test command's outcome.
    TestAwait,
    /// About to complete the test phase.
    TestEmit,
    /// About to announce the bump phase.
    BumpStart,
    /// Deciding how the bump phase runs.
    BumpDecide,
    /// About to request the bump.
    BumpAct,
    /// Waiting for the bump result.
    BumpAwait,
    /// About to complete the bump phase.
    BumpEmit,
    /// About to announce the publish phase.
    PubStart,
    /// Deciding how the publish phase runs.
    PubDecide,
    /// About to request the publish command.
    PubAct,
    /// Waiting for the publish command's outcome.
    PubAwait,
    /// About to complete the publish phase.
    PubEmit,
    /// About to announce the git phase.
    GitStart,
    /// Deciding how the git phase runs.
    GitDecide,
    /// About to request the git operations.
    GitAct,
    /// Waiting for the git result.
    GitAwait,
    /// About to complete the git phase.
    GitEmit,
    /// Deciding whether release notes are rendered.
    NotesDecide,
    /// Waiting for rendered notes.
    NotesAwait,
    /// About to announce the release phase.
    RelStart,
    /// Deciding how the release phase runs.
    RelDecide,
    /// Waiting for the does-the-release-exist answer.
    RelExistsAwait,
    /// About to request the release creation or edit.
    RelRun,
    /// Waiting for the release result.
    RelRunAwait,
    /// About to request the next asset upload, or close the phase.
    RelAssets(usize),
    /// Waiting for one asset upload's outcome.
    RelAssetsAwait(usize),
    /// About to complete the release phase.
    RelEmit,
    /// All phases completed.
    Finished,
}

/// States that wait for a driver response.
pub open spec fn pc_awaiting(pc: Pc) -> bool {
    match pc {
        Pc::HooksSerAwait(_) | Pc::HooksBatchAwait(_) | Pc::HooksFilterAwait(_)
            | Pc::HooksParseAwait(_) | Pc::TestAwait | Pc::BumpAwait | Pc::PubAwait
            | Pc::GitAwait | Pc::NotesAwait | Pc::RelExistsAwait | Pc::RelRunAwait
            | Pc::RelAssetsAwait(_) => true,
        _ => false,
    }
}

/// States only a real (non-dry) run can reach: everything that produces
/// or awaits an action.
pub open spec fn pc_active(pc: Pc) -> bool {
    match pc {
        Pc::HooksSer(_) | Pc::HooksSerAwait(_) | Pc::HooksStep(_) | Pc::HooksBatchAwait(_)
            | Pc::HooksFilterAwait(_) | Pc::HooksParse(_) | Pc::HooksParseAwait(_)
            | Pc::HooksEnd(_) | Pc::TestAct | Pc::TestAwait | Pc::BumpAct | Pc::BumpAwait
            | Pc::PubAct | Pc::PubAwait | Pc::GitAct | Pc::GitAwait | Pc::NotesAwait
            | Pc::RelExistsAwait | Pc::RelRun | Pc::RelRunAwait | Pc::RelAssets(_)
            | Pc::RelAssetsAwait(_) => true,
        _ => false,
    }
}

/// How many phases have completed at a hook slot.
pub open spec fn slot_stage(s: u8) -> int {
    if s <= 1 {
        2
    } else if s <= 3 {
        3
    } else if s <= 5 {
        4
    } else if s <= 7 {
        5
    } else if s <= 9 {
        6
    } else {
        7
    }
}

/// How many phases have completed in a state.
pub open spec fn stage_of(pc: Pc) -> int {
    match pc {
        Pc::PfStart | Pc::PfEnd => 0,
        Pc::VerStart | Pc::VerEnd => 1,
        Pc::HooksBegin(s) => slot_stage(s),
        Pc::HooksDryEnd(s) => slot_stage(s),
        Pc::HooksSer(s) => slot_stage(s),
        Pc::HooksSerAwait(s) => slot_stage(s),
        Pc::HooksStep(s) => slot_stage(s),
        Pc::HooksBatchAwait(s) => slot_stage(s),
        Pc::HooksFilterAwait(s) => slot_stage(s),
        Pc::HooksParse(s) => slot_stage(s),
        Pc::HooksParseAwait(s) => slot_stage(s),
        Pc::HooksEnd(s) => slot_stage(s),
        Pc::TestStart | Pc::TestDecide | Pc::TestAct | Pc::TestAwait | Pc::TestEmit => 2,
        Pc::BumpStart | Pc::BumpDecide | Pc::BumpAct | Pc::BumpAwait | Pc::BumpEmit => 3,
        Pc::PubStart | Pc::PubDecide | Pc::PubAct | Pc::PubAwait | Pc::PubEmit => 4,
        Pc::GitStart | Pc::GitDecide | Pc::GitAct | Pc::GitAwait | Pc::GitEmit => 5,
        Pc::NotesDecide | Pc::NotesAwait | Pc::RelStart | Pc::RelDecide | Pc::RelExistsAwait
            | Pc::RelRun | Pc::RelRunAwait | Pc::RelEmit => 6,
        Pc::RelAssets(_) | Pc::RelAssetsAwait(_) => 6,
        Pc::Finished => 7,
    }
}

/// The phase a hook slot's events are attributed to.
pub open spec fn slot_phase_spec(s: u8) -> ShipPhase {
    if s == 0 {
        ShipPhase::Preflight
    } else if s <= 2 {
        ShipPhase::Test
    } else if s <= 4 {
        ShipPhase::Bump
    } else if s <= 6 {
        ShipPhase::Publish
    } else if s <= 8 {
        ShipPhase::Git
    } else {
        ShipPhase::Release
    }
}

fn slot_phase(s: u8) -> (r: ShipPhase)
    ensures
        r == slot_phase_spec(s),
{
    if s == 0 {
        ShipPhase::Preflight
    } else if s <= 2 {
        ShipPhase::Test
    } else if s <= 4 {
        ShipPhase::Bump
    } else if s <= 6 {
        ShipPhase::Publish
    } else if s <= 8 {
        ShipPhase::Git
    } else {
        ShipPhase::Release
    }
}

/// Where the machine continues after a hook slot.
pub open spec fn after_slot_spec(s: u8) -> Pc {
    if s == 0 {
        Pc::HooksBegin(1)
    } else if s == 1 {
        Pc::TestStart
    } else if s == 2 {
        Pc::HooksBegin(3)
    } else if s == 3 {
        Pc::BumpStart
    } else if s == 4 {
        Pc::HooksBegin(5)
    } else if s == 5 {
        Pc::PubStart
    } else if s == 6 {
        Pc::HooksBegin(7)
    } else if s == 7 {
        Pc::GitStart
    } else if s == 8 {
        Pc::HooksBegin(9)
    } else if s == 9 {
        Pc::NotesDecide
    } else if s == 10 {
        Pc::HooksBegin(11)
    } else {
        Pc::Finished
    }
}

fn after_slot(s: u8) -> (r: Pc)
    ensures
        r == after_slot_spec(s),
{
    if s == 0 {
        Pc::HooksBegin(1)
    } else if s == 1 {
        Pc::TestStart
    } else if s == 2 {
        Pc::HooksBegin(3)
    } else if s == 3 {
        Pc::BumpStart
    } else if s == 4 {
        Pc::HooksBegin(5)
    } else if s == 5 {
        Pc::PubStart
    } else if s == 6 {
        Pc::HooksBegin(7)
    } else if s == 7 {
        Pc::GitStart
    } else if s == 8 {
        Pc::HooksBegin(9)
    } else if s == 9 {
        Pc::NotesDecide
    } else if s == 10 {
        Pc::HooksBegin(11)
    } else {
        Pc::Finished
    }
}

fn clone_str_vec(v: &Vec<String>) -> (r: Vec<String>)
    ensures
        r.deep_view() == v.deep_view(),
{
    let mut out: Vec<String> = Vec::new();
    let mut i: usize = 0;
    while i < v.len()
        invariant
            0 <= i <= v@.len(),
            out.deep_view() == v.deep_view().subrange(0, i as int),
        decreases v@.len() - i,
    {
        let ghost prev = out.deep_view();
        out.push(v[i].clone());
        proof {
            assert(out.deep_view() =~= prev.push(v.deep_view()[i as int]));
            assert(out.deep_view() =~= v.deep_view().subrange(0, i as int + 1));
        }
        i += 1;
    }
    proof {
        assert(v.deep_view().subrange(0, v.deep_view().len() as int) =~= v.deep_view());
    }
    out
}

fn clone_hook_ctx(c: &HookContext) -> (r: HookContext)
    ensures
        r == *c,
{
    HookContext {
        version: c.version.clone(),
        prev_version: c.prev_version.clone(),
        tag: c.tag.clone(),
        changelog_path: c.changelog_path.clone(),
        owner: c.owner.clone(),
        repo: c.repo.clone(),
    }
}

/// What the driver resolved before execution: the planned versions, the
/// repository identity, and pre-gathered read-only git data.
#[derive(Debug)]
pub struct ShipInit {
    /// The version to release (e.g., `"1.2.3"`).
    pub version: String,
    /// The previous version.
    pub previous_version: String,
    /// How the version was determined (for the version phase message).
    pub strategy: VersionStrategy,
    /// Repository owner.
    pub owner: String,
    /// Repository name.
    pub repo: String,
    /// Full repository URL, if known.
    pub repo_url: Option<String>,
    /// Current branch, if known.
    pub branch: Option<String>,
    /// Path to the changelog file.
    pub changelog_path: String,
    /// Unified diff of the ecosystem lockfile since the previous tag.
    pub deps_diff: Option<String>,
    /// Commit/diff statistics since the previous tag.
    pub git_stats: Option<GitStats>,
    /// Contributors since the previous tag.
    pub contributors: Option<Vec<(String, usize)>>,
}

/// The release workflow mid-execution. The driver must not write the
/// fields directly.
#[derive(Debug)]
pub struct ShipRun {
    /// Options for this run.
    pub options: ShipOptions,
    /// Resolved configuration.
    pub config: Config,
    /// Project detection.
    pub detection: ProjectDetection,
    /// The version being released.
    pub version: String,
    /// The previous version.
    pub previous_version: String,
    /// How the version was determined.
    pub strategy: VersionStrategy,
    /// The release tag.
    pub tag: String,
    /// The pipeline context, replaced wholesale after each filter.
    pub ctx: PipelineContext,
    /// Interpolation variables, derived once.
    pub hook_ctx: HookContext,
    /// Completed phases, in order.
    pub phases: Vec<(ShipPhase, PhaseOutcome)>,
    /// Hook commands executed (or previewed) so far.
    pub hooks_run: usize,
    /// The program counter.
    pub pc: Pc,
    /// The hook list currently executing.
    pub hook_run: Option<HookRun>,
    /// The commands of the hook list about to execute.
    pub cur_cmds: Option<Vec<String>>,
    /// The command count of the current hook list.
    pub cur_count: usize,
    /// The last filter's output, awaiting a parse.
    pub cur_filter: Option<String>,
    /// The resolved test/publish command (for messages).
    pub cur_shell: Option<String>,
    /// The outcome of the phase about to complete.
    pub pending: Option<PhaseOutcome>,
    /// The file the rendered notes were written to.
    pub notes_path: Option<String>,
    /// Resolved release title.
    pub rel_title: Option<String>,
    /// Resolved draft flag.
    pub rel_draft: bool,
    /// Resolved discussion category.
    pub rel_cat: Option<String>,
    /// Whether a release already exists for the tag.
    pub rel_exists: bool,
    /// The `(path, basename)` asset pairs still to replace on an edited
    /// release.
    pub rel_assets: Vec<(String, String)>,
    /// The release URL, held while the assets are replaced.
    pub rel_url: Option<String>,
    /// The failure that ended the run, if one did.
    pub failure: Option<ShipError>,
}

impl ShipRun {
    /// The structural invariant: completed phases match the fixed order,
    /// a dry run never reaches an action state, and every state finds the
    /// data it needs.
    pub open spec fn wf(&self) -> bool {
        &&& self.phases@.len() == stage_of(self.pc)
        &&& forall|i: int|
            0 <= i < self.phases@.len() ==> (#[trigger] self.phases@[i]).0 == phase_at(i)
        &&& (self.options.dry_run ==> !pc_active(self.pc))
        &&& (match self.pc {
            Pc::HooksStep(_) => self.failure is Some || (self.hook_run matches Some(h)
                && h.wf()),
            Pc::HooksBatchAwait(_) => self.hook_run matches Some(h) && h.wf() && h.failure
                is None && h.idx < h.batches@.len() && h.batches@[h.idx as int]@.kind
                != BatchKind::Filter,
            Pc::HooksFilterAwait(_) => self.hook_run matches Some(h) && h.wf() && h.failure
                is None && h.idx < h.batches@.len() && h.batches@[h.idx as int]@.kind
                == BatchKind::Filter,
            Pc::HooksSer(_) => self.cur_cmds is Some,
            Pc::HooksSerAwait(_) => self.cur_cmds is Some,
            Pc::HooksParse(_) => self.cur_filter is Some,
            Pc::HooksParseAwait(_) => self.cur_filter is Some,
            Pc::TestEmit => self.pending is Some,
            Pc::BumpEmit => self.pending is Some,
            Pc::PubEmit => self.pending is Some,
            Pc::GitEmit => self.pending is Some,
            Pc::RelEmit => self.pending is Some,
            Pc::TestAct | Pc::TestAwait => self.cur_shell is Some,
            Pc::PubAct | Pc::PubAwait => self.cur_shell is Some,
            Pc::RelAssets(i) => i <= self.rel_assets@.len(),
            Pc::RelAssetsAwait(i) => i < self.rel_assets@.len(),
            _ => true,
        })
    }

    /// The run is over: every phase completed, or something failed.
    pub open spec fn done_spec(&self) -> bool {
        self.pc == Pc::Finished || self.failure is Some
    }

    /// Whether the machine is waiting for a driver response.
    pub fn is_awaiting(&self) -> (r: bool)
        ensures
            r == pc_awaiting(self.pc),
    {
        match self.pc {
            Pc::HooksSerAwait(_) | Pc::HooksBatchAwait(_) | Pc::HooksFilterAwait(_)
                | Pc::HooksParseAwait(_) | Pc::TestAwait | Pc::BumpAwait | Pc::PubAwait
                | Pc::GitAwait | Pc::NotesAwait | Pc::RelExistsAwait | Pc::RelRunAwait
                | Pc::RelAssetsAwait(_) => true,
            _ => false,
        }
    }

    /// Whether the run is over.
    pub fn is_done(&self) -> (r: bool)
        ensures
            r == self.done_spec(),
    {
        match self.pc {
            Pc::Finished => true,
            _ => self.failure.is_some(),
        }
    }

    /// Start a run from the resolved plan.
    ///
    /// The context is stamped once; dependency changes and statistics are
    /// computed from the pre-gathered git data, honoring the skip options.
    pub fn new(
        init: ShipInit,
        options: ShipOptions,
        config: Config,
        detection: ProjectDetection,
    ) -> (s: ShipRun)
        ensures
            s.wf(),
            s.pc == Pc::PfStart,
            s.failure is None,
            s.phases@.len() == 0,
            s.hooks_run == 0,
            s.options == options,
            s.version == init.version,
            s.previous_version == init.previous_version,
            s.tag@ == "v"@ + init.version@,
            s.ctx.version == init.version,
            s.ctx.previous_version == init.previous_version,
            s.ctx.tag@ == "v"@ + init.version@,
            s.ctx.previous_tag@ == "v"@ + init.previous_version@,
            s.ctx.owner == init.owner,
            s.ctx.repo == init.repo,
            s.ctx.dry_run == options.dry_run,
            s.hook_ctx.version == init.version,
            s.hook_ctx.prev_version == init.previous_version,
            s.ctx.repo_url == init.repo_url,
            s.ctx.branch == init.branch,
            s.ctx.ecosystem@ == detection.ecosystem.str_spec(),
            s.ctx.changelog_path == init.changelog_path,
            s.ctx.date@.len() == 10,
            !s.ctx.changelog_updated,
            s.ctx.modified_files@ == Seq::<String>::empty(),
            s.ctx.commit_hash is None,
            s.ctx.release_url is None,
            s.ctx.release_notes is None,
            s.ctx.metadata@.len() == 0,
            s.ctx.assets.deep_view() == s.assets_spec(),
            (options.no_deps || init.deps_diff is None) ==> s.ctx.dependencies@ == Seq::<
                DepChange,
            >::empty(),
            init.deps_diff matches Some(d) ==> (!options.no_deps
                ==> s.ctx.dependencies.deep_view() == (if detection.ecosystem == Ecosystem::Rust {
                parse_cargo_lock_spec(d@)
            } else {
                Seq::<DepChangeV>::empty()
            })),
            options.no_stats ==> s.ctx.stats is None,
            !options.no_stats ==> stats_built(init.git_stats, init.contributors, s.ctx.stats),
            s.strategy == init.strategy,
            s.config == config,
            s.detection == detection,
            s.hooks_run == 0,
            s.pending is None,
            s.hook_run is None,
            s.cur_cmds is None,
            s.cur_filter is None,
            s.cur_shell is None,
            s.notes_path is None,
            !s.rel_exists,
            s.rel_assets@.len() == 0,
            s.rel_url is None,
    {
        let tag = str_concat("v", init.version.as_str());
        let previous_tag = str_concat("v", init.previous_version.as_str());
        let mut ctx = PipelineContext::new(
            PipelineContextInit {
                version: init.version.clone(),
                previous_version: init.previous_version.clone(),
                tag: tag.clone(),
                previous_tag,
                owner: init.owner,
                repo: init.repo,
                repo_url: init.repo_url,
                branch: init.branch,
                ecosystem: detection.ecosystem.as_str().to_owned(),
                changelog_path: init.changelog_path,
                dry_run: options.dry_run,
            },
        );
        if let Some(r) = &config.release {
            if let Some(a) = &r.assets {
                ctx.set_assets(clone_str_vec(a));
            }
        }
        if !options.no_deps {
            if let Some(d) = &init.deps_diff {
                ctx.dependencies = compute_deps(detection.ecosystem, d.as_str());
            }
        }
        if !options.no_stats {
            ctx.stats = compute_stats(init.git_stats, init.contributors);
        }
        let hook_ctx = ctx.hook_context();
        ShipRun {
            options,
            config,
            detection,
            version: init.version,
            previous_version: init.previous_version,
            strategy: init.strategy,
            tag,
            ctx,
            hook_ctx,
            phases: Vec::new(),
            hooks_run: 0,
            pc: Pc::PfStart,
            hook_run: None,
            cur_cmds: None,
            cur_count: 0,
            cur_filter: None,
            cur_shell: None,
            pending: None,
            notes_path: None,
            rel_title: None,
            rel_draft: true,
            rel_cat: None,
            rel_exists: false,
            rel_assets: Vec::new(),
            rel_url: None,
            failure: None,
        }
    }
}

impl ShipRun {
    /// The configured hook list of a slot.
    pub open spec fn slot_commands_spec(cfg: &Config, s: u8) -> Option<Seq<Seq<char>>> {
        match cfg.hooks {
            None => None,
            Some(h) => {
                let o = if s == 0 {
                    h.pre_ship
                } else if s == 1 {
                    h.pre_test
                } else if s == 2 {
                    h.post_test
                } else if s == 3 {
                    h.pre_bump
                } else if s == 4 {
                    h.post_bump
                } else if s == 5 {
                    h.pre_publish
                } else if s == 6 {
                    h.post_publish
                } else if s == 7 {
                    h.pre_tag
                } else if s == 8 {
                    h.post_tag
                } else if s == 9 {
                    h.pre_release
                } else if s == 10 {
                    h.post_release
                } else {
                    h.post_ship
                };
                match o {
                    Some(v) => Some(v.deep_view()),
                    None => None,
                }
            },
        }
    }

    fn slot_commands(&self, s: u8) -> (r: Option<Vec<String>>)
        ensures
            r.deep_view() == Self::slot_commands_spec(&self.config, s),
    {
        match &self.config.hooks {
            None => None,
            Some(h) => {
                let o: &Option<Vec<String>> = if s == 0 {
                    &h.pre_ship
                } else if s == 1 {
                    &h.pre_test
                } else if s == 2 {
                    &h.post_test
                } else if s == 3 {
                    &h.pre_bump
                } else if s == 4 {
                    &h.post_bump
                } else if s == 5 {
                    &h.pre_publish
                } else if s == 6 {
                    &h.post_publish
                } else if s == 7 {
                    &h.pre_tag
                } else if s == 8 {
                    &h.post_tag
                } else if s == 9 {
                    &h.pre_release
                } else if s == 10 {
                    &h.post_release
                } else {
                    &h.post_ship
                };
                match o {
                    Some(v) => Some(clone_str_vec(v)),
                    None => None,
                }
            },
        }
    }

    /// The test command: the configured override, else the detected one.
    pub open spec fn test_cmd_spec(&self) -> Seq<char> {
        match self.config.commands {
            Some(c) => match c.test {
                Some(t) => t@,
                None => self.detection.tools.test_cmd@,
            },
            None => self.detection.tools.test_cmd@,
        }
    }

    fn resolve_test_cmd(&self) -> (r: String)
        ensures
            r@ == self.test_cmd_spec(),
    {
        match &self.config.commands {
            Some(c) => match &c.test {
                Some(t) => t.clone(),
                None => self.detection.tools.test_cmd.clone(),
            },
            None => self.detection.tools.test_cmd.clone(),
        }
    }

    /// The publish command: the configured override, else the detected
    /// one, else nothing.
    pub open spec fn publish_cmd_spec(&self) -> Option<Seq<char>> {
        match self.config.commands {
            Some(c) => match c.publish {
                Some(p) => Some(p@),
                None => match self.detection.tools.publish_cmd {
                    Some(p) => Some(p@),
                    None => None,
                },
            },
            None => match self.detection.tools.publish_cmd {
                Some(p) => Some(p@),
                None => None,
            },
        }
    }

    fn resolve_publish_cmd(&self) -> (r: Option<String>)
        ensures
            r.deep_view() == self.publish_cmd_spec(),
    {
        match &self.config.commands {
            Some(c) => match &c.publish {
                Some(p) => Some(p.clone()),
                None => clone_opt_string(&self.detection.tools.publish_cmd),
            },
            None => clone_opt_string(&self.detection.tools.publish_cmd),
        }
    }

    /// Whether a hosted release is wanted at all: the configured switch,
    /// defaulting to on.
    pub open spec fn github_release_spec(&self) -> bool {
        match self.config.release {
            Some(r) => match r.github_release {
                Some(b) => b,
                None => true,
            },
            None => true,
        }
    }

    fn resolve_github_release(&self) -> (r: bool)
        ensures
            r == self.github_release_spec(),
    {
        match &self.config.release {
            Some(r) => match r.github_release {
                Some(b) => b,
                None => true,
            },
            None => true,
        }
    }

    /// Whether the release starts as a draft: the option override, else
    /// the configured value, defaulting to a draft.
    pub open spec fn draft_spec(&self) -> bool {
        match self.options.draft_override {
            Some(b) => b,
            None => match self.config.release {
                Some(r) => match r.draft {
                    Some(b) => b,
                    None => true,
                },
                None => true,
            },
        }
    }

    /// The configured release title, with hook variables interpolated.
    pub open spec fn title_spec(&self) -> Option<Seq<char>> {
        match self.config.release {
            Some(r) => match r.title {
                Some(t) => Some(interp_spec(t@, self.hook_ctx.vars())),
                None => None,
            },
            None => None,
        }
    }

    /// The configured discussion category.
    pub open spec fn cat_spec(&self) -> Option<String> {
        match self.config.release {
            Some(r) => r.discussion_category,
            None => None,
        }
    }

    /// The configured release assets (empty when none are configured).
    pub open spec fn assets_spec(&self) -> Seq<Seq<char>> {
        match self.config.release {
            Some(r) => match r.assets {
                Some(a) => a.deep_view(),
                None => Seq::empty(),
            },
            None => Seq::empty(),
        }
    }

    fn step_phase_start(&mut self, phase: ShipPhase, next_pc: Pc) -> (r: Option<ShipStep>)
        requires
            old(self).wf(),
            old(self).failure is None,
            match old(self).pc {
                Pc::PfStart => phase == ShipPhase::Preflight && next_pc == Pc::PfEnd,
                Pc::VerStart => phase == ShipPhase::Version && next_pc == Pc::VerEnd,
                Pc::TestStart => phase == ShipPhase::Test && next_pc == Pc::TestDecide,
                Pc::BumpStart => phase == ShipPhase::Bump && next_pc == Pc::BumpDecide,
                Pc::PubStart => phase == ShipPhase::Publish && next_pc == Pc::PubDecide,
                Pc::GitStart => phase == ShipPhase::Git && next_pc == Pc::GitDecide,
                Pc::RelStart => phase == ShipPhase::Release && next_pc == Pc::RelDecide,
                _ => false,
            },
        ensures
            final(self).wf(),
            r is Some,
            old(self).options.dry_run ==> !(r matches Some(ShipStep::Act(..))),
            old(self).options.dry_run ==> final(self).failure == old(self).failure,
            r matches Some(ShipStep::Act(..)) ==> pc_awaiting(final(self).pc),
            final(self).done_spec() || progressed(*old(self), *final(self)),
            next_step_spec(*old(self), *final(self), r),
    {
        self.pc = next_pc;
        Some(ShipStep::Emit(ShipEvent::PhaseStarted(phase)))
    }

    fn step_phase_emit(&mut self, phase: ShipPhase, next_pc: Pc) -> (r: Option<ShipStep>)
        requires
            old(self).wf(),
            old(self).failure is None,
            match old(self).pc {
                Pc::TestEmit => phase == ShipPhase::Test && next_pc == Pc::HooksBegin(2),
                Pc::BumpEmit => phase == ShipPhase::Bump && next_pc == Pc::HooksBegin(4),
                Pc::PubEmit => phase == ShipPhase::Publish && next_pc == Pc::HooksBegin(6),
                Pc::GitEmit => phase == ShipPhase::Git && next_pc == Pc::HooksBegin(8),
                Pc::RelEmit => phase == ShipPhase::Release && next_pc == Pc::HooksBegin(10),
                _ => false,
            },
        ensures
            final(self).wf(),
            r is Some,
            old(self).options.dry_run ==> !(r matches Some(ShipStep::Act(..))),
            old(self).options.dry_run ==> final(self).failure == old(self).failure,
            r matches Some(ShipStep::Act(..)) ==> pc_awaiting(final(self).pc),
            final(self).done_spec() || progressed(*old(self), *final(self)),
            next_step_spec(*old(self), *final(self), r),
    {
        let taken = self.pending.take();
        match taken {
            Some(out) => {
                self.phases.push((phase, clone_outcome(&out)));
                self.pc = next_pc;
                Some(ShipStep::Emit(ShipEvent::PhaseCompleted(phase, out)))
            },
            None => {
                proof {
                    assert(false);
                }
                Some(ShipStep::Internal)
            },
        }
    }

    fn step_pf_end(&mut self) -> (r: Option<ShipStep>)
        requires
            old(self).wf(),
            old(self).failure is None,
            old(self).pc == Pc::PfEnd,
        ensures
            final(self).wf(),
            r is Some,
            old(self).options.dry_run ==> !(r matches Some(ShipStep::Act(..))),
            old(self).options.dry_run ==> final(self).failure == old(self).failure,
            r matches Some(ShipStep::Act(..)) ==> pc_awaiting(final(self).pc),
            final(self).done_spec() || progressed(*old(self), *final(self)),
            next_step_spec(*old(self), *final(self), r),
    {
        let out = PhaseOutcome::Success {
            message: String::from_str("All preflight checks passed"),
        };
        self.phases.push((ShipPhase::Preflight, clone_outcome(&out)));
        self.pc = Pc::VerStart;
        Some(ShipStep::Emit(ShipEvent::PhaseCompleted(ShipPhase::Preflight, out)))
    }

    fn step_ver_end(&mut self) -> (r: Option<ShipStep>)
        requires
            old(self).wf(),
            old(self).failure is None,
            old(self).pc == Pc::VerEnd,
        ensures
            final(self).wf(),
            r is Some,
            old(self).options.dry_run ==> !(r matches Some(ShipStep::Act(..))),
            old(self).options.dry_run ==> final(self).failure == old(self).failure,
            r matches Some(ShipStep::Act(..)) ==> pc_awaiting(final(self).pc),
            final(self).done_spec() || progressed(*old(self), *final(self)),
            next_step_spec(*old(self), *final(self), r),
    {
        let a = str_concat(self.previous_version.as_str(), " -> ");
        let b = str_concat(a.as_str(), self.version.as_str());
        let c = str_concat(b.as_str(), " (");
        let d = str_concat(c.as_str(), self.strategy.describe().as_str());
        let out = PhaseOutcome::Success { message: str_concat(d.as_str(), ")") };
        self.phases.push((ShipPhase::Version, clone_outcome(&out)));
        self.pc = Pc::HooksBegin(0);
        Some(ShipStep::Emit(ShipEvent::PhaseCompleted(ShipPhase::Version, out)))
    }

    fn step_hooks_begin(&mut self, s: u8) -> (r: Option<ShipStep>)
        requires
            old(self).wf(),
            old(self).failure is None,
            old(self).pc == Pc::HooksBegin(s),
        ensures
            final(self).wf(),
            r is Some,
            old(self).options.dry_run ==> !(r matches Some(ShipStep::Act(..))),
            old(self).options.dry_run ==> final(self).failure == old(self).failure,
            r matches Some(ShipStep::Act(..)) ==> pc_awaiting(final(self).pc),
            final(self).done_spec() || progressed(*old(self), *final(self)),
            next_step_spec(*old(self), *final(self), r),
    {
        let allowed = !((s == 7 || s == 8) && self.options.no_git);
        let cmds_opt: Option<Vec<String>> = if allowed {
            self.slot_commands(s)
        } else {
            None
        };
        match cmds_opt {
            None => {
                self.pc = after_slot(s);
                Some(ShipStep::Internal)
            },
            Some(cmds) => {
                if cmds.len() == 0 {
                    self.pc = after_slot(s);
                    return Some(ShipStep::Internal);
                }
                let count = cmds.len();
                let shown = interpolate_all(&cmds, &self.hook_ctx);
                self.cur_count = count;
                let phase = slot_phase(s);
                if self.options.dry_run {
                    self.pc = Pc::HooksDryEnd(s);
                    Some(ShipStep::Emit(ShipEvent::HooksStarted {
                        phase,
                        count,
                        commands: shown,
                        will_execute: false,
                    }))
                } else {
                    self.cur_cmds = Some(cmds);
                    self.pc = Pc::HooksSer(s);
                    Some(ShipStep::Emit(ShipEvent::HooksStarted {
                        phase,
                        count,
                        commands: shown,
                        will_execute: true,
                    }))
                }
            },
        }
    }

    fn step_hooks_end(&mut self, s: u8) -> (r: Option<ShipStep>)
        requires
            old(self).wf(),
            old(self).failure is None,
            old(self).pc == Pc::HooksDryEnd(s) || old(self).pc == Pc::HooksEnd(s),
        ensures
            final(self).wf(),
            r is Some,
            old(self).options.dry_run ==> !(r matches Some(ShipStep::Act(..))),
            old(self).options.dry_run ==> final(self).failure == old(self).failure,
            r matches Some(ShipStep::Act(..)) ==> pc_awaiting(final(self).pc),
            final(self).done_spec() || progressed(*old(self), *final(self)),
            next_step_spec(*old(self), *final(self), r),
    {
        let count = self.cur_count;
        self.hooks_run = if self.hooks_run <= usize::MAX - count {
            self.hooks_run + count
        } else {
            usize::MAX
        };
        self.pc = after_slot(s);
        Some(ShipStep::Emit(ShipEvent::HooksCompleted { phase: slot_phase(s), count }))
    }

    fn step_hooks_ser(&mut self, s: u8) -> (r: Option<ShipStep>)
        requires
            old(self).wf(),
            old(self).failure is None,
            old(self).pc == Pc::HooksSer(s),
        ensures
            final(self).wf(),
            r is Some,
            old(self).options.dry_run ==> !(r matches Some(ShipStep::Act(..))),
            old(self).options.dry_run ==> final(self).failure == old(self).failure,
            r matches Some(ShipStep::Act(..)) ==> pc_awaiting(final(self).pc),
            final(self).done_spec() || progressed(*old(self), *final(self)),
            next_step_spec(*old(self), *final(self), r),
    {
        self.pc = Pc::HooksSerAwait(s);
        Some(ShipStep::Act(ActionRequest::SerializeContext))
    }

    fn step_hooks_step(&mut self, s: u8) -> (r: Option<ShipStep>)
        requires
            old(self).wf(),
            old(self).failure is None,
            old(self).pc == Pc::HooksStep(s),
        ensures
            final(self).wf(),
            r is Some,
            old(self).options.dry_run ==> !(r matches Some(ShipStep::Act(..))),
            old(self).options.dry_run ==> final(self).failure == old(self).failure,
            r matches Some(ShipStep::Act(..)) ==> pc_awaiting(final(self).pc),
            final(self).done_spec() || progressed(*old(self), *final(self)),
            next_step_spec(*old(self), *final(self), r),
    {
        let req_opt = match &self.hook_run {
            Some(h) => h.next_request(),
            None => None,
        };
        match req_opt {
            Some(req) => {
                match req.kind {
                    BatchKind::Filter => {
                        self.pc = Pc::HooksFilterAwait(s);
                    },
                    _ => {
                        self.pc = Pc::HooksBatchAwait(s);
                    },
                }
                Some(ShipStep::Act(ActionRequest::RunHookBatch(req)))
            },
            None => {
                let taken = self.hook_run.take();
                match taken {
                    Some(hr) => {
                        match hr.failure {
                            Some(e) => {
                                self.failure = Some(ShipError::Hook(e));
                                Some(ShipStep::Internal)
                            },
                            None => {
                                match hr.filter_json {
                                    Some(j) => {
                                        self.cur_filter = Some(j);
                                        self.pc = Pc::HooksParse(s);
                                    },
                                    None => {
                                        self.pc = Pc::HooksEnd(s);
                                    },
                                }
                                Some(ShipStep::Internal)
                            },
                        }
                    },
                    None => {
                        proof {
                            assert(false);
                        }
                        Some(ShipStep::Internal)
                    },
                }
            },
        }
    }

    fn step_hooks_parse(&mut self, s: u8) -> (r: Option<ShipStep>)
        requires
            old(self).wf(),
            old(self).failure is None,
            old(self).pc == Pc::HooksParse(s),
        ensures
            final(self).wf(),
            r is Some,
            old(self).options.dry_run ==> !(r matches Some(ShipStep::Act(..))),
            old(self).options.dry_run ==> final(self).failure == old(self).failure,
            r matches Some(ShipStep::Act(..)) ==> pc_awaiting(final(self).pc),
            final(self).done_spec() || progressed(*old(self), *final(self)),
            next_step_spec(*old(self), *final(self), r),
    {
        let json = match &self.cur_filter {
            Some(j) => j.clone(),
            None => String::new(),
        };
        self.pc = Pc::HooksParseAwait(s);
        Some(ShipStep::Act(ActionRequest::ParseContext(json)))
    }

    fn step_test_decide(&mut self) -> (r: Option<ShipStep>)
        requires
            old(self).wf(),
            old(self).failure is None,
            old(self).pc == Pc::TestDecide,
        ensures
            final(self).wf(),
            r is Some,
            old(self).options.dry_run ==> !(r matches Some(ShipStep::Act(..))),
            old(self).options.dry_run ==> final(self).failure == old(self).failure,
            r matches Some(ShipStep::Act(..)) ==> pc_awaiting(final(self).pc),
            final(self).done_spec() || progressed(*old(self), *final(self)),
            next_step_spec(*old(self), *final(self), r),
    {
        if self.options.no_test {
            self.pending = Some(PhaseOutcome::Skipped {
                reason: String::from_str("--no-test flag"),
            });
            self.pc = Pc::TestEmit;
        } else {
            let cmd = self.resolve_test_cmd();
            if self.options.dry_run {
                self.pending = Some(PhaseOutcome::Success {
                    message: str_concat("Would run: ", cmd.as_str()),
                });
                self.pc = Pc::TestEmit;
            } else {
                self.cur_shell = Some(cmd);
                self.pc = Pc::TestAct;
            }
        }
        Some(ShipStep::Internal)
    }

    fn step_shell_act(&mut self) -> (r: Option<ShipStep>)
        requires
            old(self).wf(),
            old(self).failure is None,
            old(self).pc == Pc::TestAct || old(self).pc == Pc::PubAct,
        ensures
            final(self).wf(),
            r is Some,
            old(self).options.dry_run ==> !(r matches Some(ShipStep::Act(..))),
            old(self).options.dry_run ==> final(self).failure == old(self).failure,
            r matches Some(ShipStep::Act(..)) ==> pc_awaiting(final(self).pc),
            final(self).done_spec() || progressed(*old(self), *final(self)),
            next_step_spec(*old(self), *final(self), r),
    {
        let cmd = match &self.cur_shell {
            Some(c) => c.clone(),
            None => String::new(),
        };
        match self.pc {
            Pc::TestAct => {
                self.pc = Pc::TestAwait;
                Some(ShipStep::Act(ActionRequest::RunShell {
                    phase: ShipPhase::Test,
                    command: cmd,
                }))
            },
            _ => {
                self.pc = Pc::PubAwait;
                Some(ShipStep::Act(ActionRequest::RunShell {
                    phase: ShipPhase::Publish,
                    command: cmd,
                }))
            },
        }
    }

    fn step_bump_decide(&mut self) -> (r: Option<ShipStep>)
        requires
            old(self).wf(),
            old(self).failure is None,
            old(self).pc == Pc::BumpDecide,
        ensures
            final(self).wf(),
            r is Some,
            old(self).options.dry_run ==> !(r matches Some(ShipStep::Act(..))),
            old(self).options.dry_run ==> final(self).failure == old(self).failure,
            r matches Some(ShipStep::Act(..)) ==> pc_awaiting(final(self).pc),
            final(self).done_spec() || progressed(*old(self), *final(self)),
            next_step_spec(*old(self), *final(self), r),
    {
        if self.options.dry_run {
            let a = str_concat("Would bump ", self.previous_version.as_str());
            let b = str_concat(a.as_str(), " -> ");
            self.pending = Some(PhaseOutcome::Success {
                message: str_concat(b.as_str(), self.version.as_str()),
            });
            self.pc = Pc::BumpEmit;
        } else {
            self.pc = Pc::BumpAct;
        }
        Some(ShipStep::Internal)
    }

    fn step_bump_act(&mut self) -> (r: Option<ShipStep>)
        requires
            old(self).wf(),
            old(self).failure is None,
            old(self).pc == Pc::BumpAct,
        ensures
            final(self).wf(),
            r is Some,
            old(self).options.dry_run ==> !(r matches Some(ShipStep::Act(..))),
            old(self).options.dry_run ==> final(self).failure == old(self).failure,
            r matches Some(ShipStep::Act(..)) ==> pc_awaiting(final(self).pc),
            final(self).done_spec() || progressed(*old(self), *final(self)),
            next_step_spec(*old(self), *final(self), r),
    {
        let with_changelog = !self.options.no_changelog;
        self.pc = Pc::BumpAwait;
        Some(ShipStep::Act(ActionRequest::RunBump { with_changelog }))
    }

    fn step_pub_decide(&mut self) -> (r: Option<ShipStep>)
        requires
            old(self).wf(),
            old(self).failure is None,
            old(self).pc == Pc::PubDecide,
        ensures
            final(self).wf(),
            r is Some,
            old(self).options.dry_run ==> !(r matches Some(ShipStep::Act(..))),
            old(self).options.dry_run ==> final(self).failure == old(self).failure,
            r matches Some(ShipStep::Act(..)) ==> pc_awaiting(final(self).pc),
            final(self).done_spec() || progressed(*old(self), *final(self)),
            next_step_spec(*old(self), *final(self), r),
    {
        if self.options.no_publish {
            self.pending = Some(PhaseOutcome::Skipped {
                reason: String::from_str("--no-publish flag"),
            });
            self.pc = Pc::PubEmit;
        } else {
            let cmd_opt = self.resolve_publish_cmd();
            if self.options.dry_run {
                let shown = match cmd_opt {
                    Some(c) => c,
                    None => String::from_str("(no publish command)"),
                };
                self.pending = Some(PhaseOutcome::Success {
                    message: str_concat("Would run: ", shown.as_str()),
                });
                self.pc = Pc::PubEmit;
            } else {
                match cmd_opt {
                    None => {
                        self.pending = Some(PhaseOutcome::Skipped {
                            reason: String::from_str("no publish command configured or detected"),
                        });
                        self.pc = Pc::PubEmit;
                    },
                    Some(c) => {
                        self.cur_shell = Some(c);
                        self.pc = Pc::PubAct;
                    },
                }
            }
        }
        Some(ShipStep::Internal)
    }

    fn step_git_decide(&mut self) -> (r: Option<ShipStep>)
        requires
            old(self).wf(),
            old(self).failure is None,
            old(self).pc == Pc::GitDecide,
        ensures
            final(self).wf(),
            r is Some,
            old(self).options.dry_run ==> !(r matches Some(ShipStep::Act(..))),
            old(self).options.dry_run ==> final(self).failure == old(self).failure,
            r matches Some(ShipStep::Act(..)) ==> pc_awaiting(final(self).pc),
            final(self).done_spec() || progressed(*old(self), *final(self)),
            next_step_spec(*old(self), *final(self), r),
    {
        if self.options.no_git {
            self.pending = Some(PhaseOutcome::Skipped {
                reason: String::from_str("--no-git flag"),
            });
            self.pc = Pc::GitEmit;
        } else if self.options.dry_run {
            let m1 = String::from_str("Would commit");
            let m2 = if self.options.no_tag {
                m1
            } else {
                let a = str_concat(m1.as_str(), ", tag ");
                str_concat(a.as_str(), self.tag.as_str())
            };
            let m3 = if self.options.no_push {
                str_concat(m2.as_str(), " (no push)")
            } else {
                str_concat(m2.as_str(), " + push")
            };
            proof {
                assert(m3@ =~= git_dry_msg_spec(*old(self)));
            }
            self.pending = Some(PhaseOutcome::Success { message: m3 });
            self.pc = Pc::GitEmit;
        } else {
            self.pc = Pc::GitAct;
        }
        Some(ShipStep::Internal)
    }

    fn step_git_act(&mut self) -> (r: Option<ShipStep>)
        requires
            old(self).wf(),
            old(self).failure is None,
            old(self).pc == Pc::GitAct,
        ensures
            final(self).wf(),
            r is Some,
            old(self).options.dry_run ==> !(r matches Some(ShipStep::Act(..))),
            old(self).options.dry_run ==> final(self).failure == old(self).failure,
            r matches Some(ShipStep::Act(..)) ==> pc_awaiting(final(self).pc),
            final(self).done_spec() || progressed(*old(self), *final(self)),
            next_step_spec(*old(self), *final(self), r),
    {
        let commit_message = str_concat("chore: release ", self.version.as_str());
        let tag_req: Option<(String, String)> = if self.options.no_tag {
            None
        } else {
            Some((self.tag.clone(), str_concat("Release ", self.version.as_str())))
        };
        self.pc = Pc::GitAwait;
        Some(ShipStep::Act(ActionRequest::GitCommitTagPush {
            commit_message,
            tag: tag_req,
            push: !self.options.no_push,
        }))
    }

    fn step_notes_decide(&mut self) -> (r: Option<ShipStep>)
        requires
            old(self).wf(),
            old(self).failure is None,
            old(self).pc == Pc::NotesDecide,
        ensures
            final(self).wf(),
            r is Some,
            old(self).options.dry_run ==> !(r matches Some(ShipStep::Act(..))),
            old(self).options.dry_run ==> final(self).failure == old(self).failure,
            r matches Some(ShipStep::Act(..)) ==> pc_awaiting(final(self).pc),
            final(self).done_spec() || progressed(*old(self), *final(self)),
            next_step_spec(*old(self), *final(self), r),
    {
        let wants_notes = !self.options.no_release && !self.options.no_notes
            && !self.options.dry_run && self.resolve_github_release();
        if wants_notes {
            self.pc = Pc::NotesAwait;
            Some(ShipStep::Act(ActionRequest::RenderNotes))
        } else {
            self.pc = Pc::RelStart;
            Some(ShipStep::Internal)
        }
    }

    fn step_rel_decide(&mut self) -> (r: Option<ShipStep>)
        requires
            old(self).wf(),
            old(self).failure is None,
            old(self).pc == Pc::RelDecide,
        ensures
            final(self).wf(),
            r is Some,
            old(self).options.dry_run ==> !(r matches Some(ShipStep::Act(..))),
            old(self).options.dry_run ==> final(self).failure == old(self).failure,
            r matches Some(ShipStep::Act(..)) ==> pc_awaiting(final(self).pc),
            final(self).done_spec() || progressed(*old(self), *final(self)),
            next_step_spec(*old(self), *final(self), r),
    {
        let github_release = self.resolve_github_release();
        let draft = match self.options.draft_override {
            Some(b) => b,
            None => match &self.config.release {
                Some(r) => match r.draft {
                    Some(b) => b,
                    None => true,
                },
                None => true,
            },
        };
        let title: Option<String> = match &self.config.release {
            Some(r) => match &r.title {
                Some(t) => Some(interpolate_command(t.as_str(), &self.hook_ctx)),
                None => None,
            },
            None => None,
        };
        let cat: Option<String> = match &self.config.release {
            Some(r) => clone_opt_string(&r.discussion_category),
            None => None,
        };
        let has_assets = match &self.config.release {
            Some(r) => match &r.assets {
                Some(a) => a.len() > 0,
                None => false,
            },
            None => false,
        };
        if self.options.no_release {
            self.pending = Some(PhaseOutcome::Skipped {
                reason: String::from_str("--no-release flag"),
            });
            self.pc = Pc::RelEmit;
            Some(ShipStep::Internal)
        } else if !github_release {
            self.pending = Some(PhaseOutcome::Skipped {
                reason: String::from_str("github_release = false in config"),
            });
            self.pc = Pc::RelEmit;
            Some(ShipStep::Internal)
        } else if self.options.dry_run {
            let m1 = str_concat("Would create GitHub release for ", self.tag.as_str());
            let m2 = if draft {
                str_concat(m1.as_str(), " as draft")
            } else {
                m1
            };
            let m3 = match &title {
                Some(t) => {
                    let a = str_concat(m2.as_str(), " titled \"");
                    let b = str_concat(a.as_str(), t.as_str());
                    str_concat(b.as_str(), "\"")
                },
                None => m2,
            };
            let m4 = if self.options.no_notes {
                str_concat(m3.as_str(), " (--generate-notes)")
            } else {
                str_concat(m3.as_str(), " (with rendered notes)")
            };
            let m5 = if has_assets {
                str_concat(m4.as_str(), ", with assets")
            } else {
                m4
            };
            self.pending = Some(PhaseOutcome::Success { message: m5 });
            self.pc = Pc::RelEmit;
            Some(ShipStep::Internal)
        } else {
            self.rel_draft = draft;
            self.rel_title = title;
            self.rel_cat = cat;
            self.pc = Pc::RelExistsAwait;
            Some(ShipStep::Act(ActionRequest::ReleaseExists { tag: self.tag.clone() }))
        }
    }

    fn step_rel_run(&mut self) -> (r: Option<ShipStep>)
        requires
            old(self).wf(),
            old(self).failure is None,
            old(self).pc == Pc::RelRun,
        ensures
            final(self).wf(),
            r is Some,
            old(self).options.dry_run ==> !(r matches Some(ShipStep::Act(..))),
            old(self).options.dry_run ==> final(self).failure == old(self).failure,
            r matches Some(ShipStep::Act(..)) ==> pc_awaiting(final(self).pc),
            final(self).done_spec() || progressed(*old(self), *final(self)),
            next_step_spec(*old(self), *final(self), r),
    {
        let assets: Vec<String> = match &self.config.release {
            Some(r) => match &r.assets {
                Some(a) => clone_str_vec(a),
                None => Vec::new(),
            },
            None => Vec::new(),
        };
        proof {
            assert(assets.deep_view() =~= self.assets_spec());
        }
        if self.rel_exists {
            let args = build_edit_args(&self.tag, &self.rel_title, self.rel_draft, &self.notes_path);
            let ghost assetsv = assets.deep_view();
            let mut pairs: Vec<(String, String)> = Vec::new();
            let mut k: usize = 0;
            while k < assets.len()
                invariant
                    0 <= k <= assets@.len(),
                    assetsv == assets.deep_view(),
                    pairs.deep_view().len() == k,
                    forall|j: int|
                        0 <= j < k ==> (#[trigger] pairs.deep_view()[j]).0 == assetsv[j]
                            && pairs.deep_view()[j].1 == basename_spec(assetsv[j]),
                decreases assets@.len() - k,
            {
                let ghost prev = pairs.deep_view();
                let base = asset_basename(assets[k].as_str());
                pairs.push((assets[k].clone(), base));
                proof {
                    assert(pairs.deep_view() =~= prev.push(
                        (assetsv[k as int], basename_spec(assetsv[k as int])),
                    ));
                }
                k += 1;
            }
            self.rel_assets = pairs;
            self.pc = Pc::RelRunAwait;
            Some(ShipStep::Act(ActionRequest::RunRelease {
                edit: true,
                args,
                tag: self.tag.clone(),
            }))
        } else {
            let args = build_create_args(
                &self.tag,
                &self.rel_title,
                self.rel_draft,
                &self.notes_path,
                &self.rel_cat,
                &assets,
            );
            self.rel_assets = Vec::new();
            self.pc = Pc::RelRunAwait;
            Some(ShipStep::Act(ActionRequest::RunRelease {
                edit: false,
                args,
                tag: self.tag.clone(),
            }))
        }
    }

    fn step_rel_assets(&mut self, i: usize) -> (r: Option<ShipStep>)
        requires
            old(self).wf(),
            old(self).failure is None,
            old(self).pc == Pc::RelAssets(i),
        ensures
            final(self).wf(),
            r is Some,
            old(self).options.dry_run ==> !(r matches Some(ShipStep::Act(..))),
            old(self).options.dry_run ==> final(self).failure == old(self).failure,
            r matches Some(ShipStep::Act(..)) ==> pc_awaiting(final(self).pc),
            final(self).done_spec() || progressed(*old(self), *final(self)),
            next_step_spec(*old(self), *final(self), r),
    {
        if i < self.rel_assets.len() {
            let path = self.rel_assets[i].0.clone();
            let basename = self.rel_assets[i].1.clone();
            self.pc = Pc::RelAssetsAwait(i);
            Some(ShipStep::Act(ActionRequest::UploadAsset {
                tag: self.tag.clone(),
                path,
                basename,
            }))
        } else {
            let url = self.rel_url.take();
            let action: &str = if self.rel_exists {
                "Updated"
            } else {
                "Created"
            };
            let msg: String = match &url {
                Some(u) => {
                    let a = str_concat(action, " GitHub release");
                    let b = if self.rel_draft {
                        str_concat(a.as_str(), " (draft)")
                    } else {
                        a
                    };
                    let c = str_concat(b.as_str(), ": ");
                    str_concat(c.as_str(), u.as_str())
                },
                None => {
                    let a = str_concat(action, " GitHub release ");
                    let b = str_concat(a.as_str(), self.tag.as_str());
                    if self.rel_draft {
                        str_concat(b.as_str(), " (draft)")
                    } else {
                        b
                    }
                },
            };
            proof {
                assert(msg@ =~= rel_done_msg_spec(*old(self), old(self).rel_url));
            }
            self.ctx.record_release(url);
            self.pending = Some(PhaseOutcome::Success { message: msg });
            self.pc = Pc::RelEmit;
            Some(ShipStep::Internal)
        }
    }

    /// Ask for the next step of the run.
    ///
    /// Returns nothing once the run is over. Every step follows
    /// [`next_step_spec`]: the state advances exactly as the fixed phase
    /// order prescribes, and the emitted event or requested action is
    /// pinned to the current state. A dry run only ever emits events — no
    /// action request is produced and no failure can latch — yet every
    /// phase completes.
    pub fn next(&mut self) -> (r: Option<ShipStep>)
        requires
            old(self).wf(),
            !pc_awaiting(old(self).pc),
        ensures
            final(self).wf(),
            (r is None) == old(self).done_spec(),
            old(self).done_spec() ==> *final(self) == *old(self),
            old(self).options.dry_run ==> !(r matches Some(ShipStep::Act(..))),
            old(self).options.dry_run ==> final(self).failure == old(self).failure,
            r matches Some(ShipStep::Act(..)) ==> pc_awaiting(final(self).pc),
            r is Some ==> final(self).done_spec() || progressed(*old(self), *final(self)),
            !old(self).done_spec() ==> next_step_spec(*old(self), *final(self), r),
    {
        if self.failure.is_some() {
            return None;
        }
        match self.pc {
            Pc::PfStart => self.step_phase_start(ShipPhase::Preflight, Pc::PfEnd),
            Pc::PfEnd => self.step_pf_end(),
            Pc::VerStart => self.step_phase_start(ShipPhase::Version, Pc::VerEnd),
            Pc::VerEnd => self.step_ver_end(),
            Pc::HooksBegin(s) => self.step_hooks_begin(s),
            Pc::HooksDryEnd(s) => self.step_hooks_end(s),
            Pc::HooksSer(s) => self.step_hooks_ser(s),
            Pc::HooksStep(s) => self.step_hooks_step(s),
            Pc::HooksParse(s) => self.step_hooks_parse(s),
            Pc::HooksEnd(s) => self.step_hooks_end(s),
            Pc::TestStart => self.step_phase_start(ShipPhase::Test, Pc::TestDecide),
            Pc::TestDecide => self.step_test_decide(),
            Pc::TestAct => self.step_shell_act(),
            Pc::TestEmit => self.step_phase_emit(ShipPhase::Test, Pc::HooksBegin(2)),
            Pc::BumpStart => self.step_phase_start(ShipPhase::Bump, Pc::BumpDecide),
            Pc::BumpDecide => self.step_bump_decide(),
            Pc::BumpAct => self.step_bump_act(),
            Pc::BumpEmit => self.step_phase_emit(ShipPhase::Bump, Pc::HooksBegin(4)),
            Pc::PubStart => self.step_phase_start(ShipPhase::Publish, Pc::PubDecide),
            Pc::PubDecide => self.step_pub_decide(),
            Pc::PubAct => self.step_shell_act(),
            Pc::PubEmit => self.step_phase_emit(ShipPhase::Publish, Pc::HooksBegin(6)),
            Pc::GitStart => self.step_phase_start(ShipPhase::Git, Pc::GitDecide),
            Pc::GitDecide => self.step_git_decide(),
            Pc::GitAct => self.step_git_act(),
            Pc::GitEmit => self.step_phase_emit(ShipPhase::Git, Pc::HooksBegin(8)),
            Pc::NotesDecide => self.step_notes_decide(),
            Pc::RelStart => self.step_phase_start(ShipPhase::Release, Pc::RelDecide),
            Pc::RelDecide => self.step_rel_decide(),
            Pc::RelRun => self.step_rel_run(),
            Pc::RelAssets(i) => self.step_rel_assets(i),
            Pc::RelEmit => self.step_phase_emit(ShipPhase::Release, Pc::HooksBegin(10)),
            Pc::Finished => None,
            _ => {
                // The awaiting states are excluded by the precondition.
                proof {
                    assert(false);
                }
                Some(ShipStep::Internal)
            },
        }
    }

    fn provide_ser(&mut self, s: u8, resp: ActionResponse)
        requires
            old(self).wf(),
            old(self).failure is None,
            old(self).pc == Pc::HooksSerAwait(s),
        ensures
            final(self).wf(),
            !pc_awaiting(final(self).pc) || final(self).failure is Some,
            provide_step_spec(*old(self), *final(self), resp),
    {
        match resp {
            ActionResponse::Serialized(json) => {
                let taken = self.cur_cmds.take();
                match taken {
                    Some(c) => {
                        let hr = HookRun::new(&c, clone_hook_ctx(&self.hook_ctx), Some(json));
                        self.hook_run = Some(hr);
                        self.pc = Pc::HooksStep(s);
                    },
                    None => {
                        proof {
                            assert(false);
                        }
                    },
                }
            },
            ActionResponse::SpawnFailed(m) => {
                self.failure = Some(ShipError::Hook(HookError::Exec(m)));
            },
            _ => {
                self.failure = Some(
                    ShipError::Hook(
                        HookError::Exec(String::from_str("unexpected driver response")),
                    ),
                );
            },
        }
    }

    fn provide_batch(&mut self, s: u8, resp: ActionResponse)
        requires
            old(self).wf(),
            old(self).failure is None,
            old(self).pc == Pc::HooksBatchAwait(s),
        ensures
            final(self).wf(),
            !pc_awaiting(final(self).pc) || final(self).failure is Some,
            provide_step_spec(*old(self), *final(self), resp),
    {
        match resp {
            ActionResponse::BatchDone(outs) => {
                let expected = match &self.hook_run {
                    Some(h) => h.batches[h.idx].commands.len(),
                    None => 0,
                };
                if outs.len() != expected {
                    self.failure = Some(
                        ShipError::Hook(
                            HookError::Exec(
                                String::from_str("hook results did not match the batch"),
                            ),
                        ),
                    );
                } else {
                    match &mut self.hook_run {
                        Some(h) => {
                            h.report_batch(outs);
                        },
                        None => {
                            proof {
                                assert(false);
                            }
                        },
                    }
                    self.pc = Pc::HooksStep(s);
                }
            },
            ActionResponse::SpawnFailed(m) => {
                self.failure = Some(ShipError::Hook(HookError::Exec(m)));
            },
            _ => {
                self.failure = Some(
                    ShipError::Hook(
                        HookError::Exec(String::from_str("unexpected driver response")),
                    ),
                );
            },
        }
    }

    fn provide_filter(&mut self, s: u8, resp: ActionResponse)
        requires
            old(self).wf(),
            old(self).failure is None,
            old(self).pc == Pc::HooksFilterAwait(s),
        ensures
            final(self).wf(),
            !pc_awaiting(final(self).pc) || final(self).failure is Some,
            provide_step_spec(*old(self), *final(self), resp),
    {
        match resp {
            ActionResponse::FilterDone(o) => {
                match &mut self.hook_run {
                    Some(h) => {
                        h.report_filter(o);
                    },
                    None => {
                        proof {
                            assert(false);
                        }
                    },
                }
                self.pc = Pc::HooksStep(s);
            },
            ActionResponse::SpawnFailed(m) => {
                self.failure = Some(ShipError::Hook(HookError::Exec(m)));
            },
            _ => {
                self.failure = Some(
                    ShipError::Hook(
                        HookError::Exec(String::from_str("unexpected driver response")),
                    ),
                );
            },
        }
    }

    fn provide_parse(&mut self, s: u8, resp: ActionResponse)
        requires
            old(self).wf(),
            old(self).failure is None,
            old(self).pc == Pc::HooksParseAwait(s),
        ensures
            final(self).wf(),
            !pc_awaiting(final(self).pc) || final(self).failure is Some,
            provide_step_spec(*old(self), *final(self), resp),
    {
        match resp {
            ActionResponse::Parsed(res) => match res {
                Ok(newctx) => {
                    self.ctx = newctx;
                    self.cur_filter = None;
                    self.pc = Pc::HooksEnd(s);
                },
                Err(m) => {
                    self.failure = Some(
                        ShipError::PhaseFailed {
                            phase: slot_phase(s),
                            message: str_concat(
                                "filter output could not be deserialized into pipeline context: ",
                                m.as_str(),
                            ),
                        },
                    );
                },
            },
            _ => {
                self.failure = Some(
                    ShipError::Hook(
                        HookError::Exec(String::from_str("unexpected driver response")),
                    ),
                );
            },
        }
    }

    fn provide_test(&mut self, resp: ActionResponse)
        requires
            old(self).wf(),
            old(self).failure is None,
            old(self).pc == Pc::TestAwait,
        ensures
            final(self).wf(),
            !pc_awaiting(final(self).pc) || final(self).failure is Some,
            provide_step_spec(*old(self), *final(self), resp),
    {
        match resp {
            ActionResponse::ShellDone(o) => {
                if o.success {
                    let cmd = match &self.cur_shell {
                        Some(c) => c.clone(),
                        None => String::new(),
                    };
                    let a = str_concat("Tests passed (", cmd.as_str());
                    self.pending = Some(
                        PhaseOutcome::Success { message: str_concat(a.as_str(), ")") },
                    );
                    self.pc = Pc::TestEmit;
                } else {
                    self.failure = Some(
                        ShipError::PhaseFailed {
                            phase: ShipPhase::Test,
                            message: str_concat(
                                "tests failed: ",
                                trim(o.stderr.as_str()).as_str(),
                            ),
                        },
                    );
                }
            },
            ActionResponse::SpawnFailed(m) => {
                self.failure = Some(
                    ShipError::PhaseFailed {
                        phase: ShipPhase::Test,
                        message: str_concat("failed to execute test command: ", m.as_str()),
                    },
                );
            },
            _ => {
                self.failure = Some(
                    ShipError::Hook(
                        HookError::Exec(String::from_str("unexpected driver response")),
                    ),
                );
            },
        }
    }

    fn provide_bump(&mut self, resp: ActionResponse)
        requires
            old(self).wf(),
            old(self).failure is None,
            old(self).pc == Pc::BumpAwait,
        ensures
            final(self).wf(),
            !pc_awaiting(final(self).pc) || final(self).failure is Some,
            provide_step_spec(*old(self), *final(self), resp),
    {
        match resp {
            ActionResponse::BumpDone(res) => match res {
                Ok(b) => {
                    let ghost bv = b;
                    let files = join_comma(&b.modified_files);
                    let changelog = b.changelog_updated;
                    self.ctx.record_bump(b.changelog_updated, b.modified_files);
                    let m1 = str_concat("Bumped to ", self.version.as_str());
                    let m2 = if changelog {
                        str_concat(m1.as_str(), " + changelog")
                    } else {
                        m1
                    };
                    let m3 = str_concat(m2.as_str(), " (modified: ");
                    let m4 = str_concat(m3.as_str(), files.as_str());
                    let message = str_concat(m4.as_str(), ")");
                    proof {
                        assert(message@ =~= bump_done_msg_spec(*old(self), bv));
                    }
                    self.pending = Some(PhaseOutcome::Success { message });
                    self.pc = Pc::BumpEmit;
                },
                Err(m) => {
                    self.failure = Some(
                        ShipError::PhaseFailed { phase: ShipPhase::Bump, message: m },
                    );
                },
            },
            _ => {
                self.failure = Some(
                    ShipError::Hook(
                        HookError::Exec(String::from_str("unexpected driver response")),
                    ),
                );
            },
        }
    }

    fn provide_pub(&mut self, resp: ActionResponse)
        requires
            old(self).wf(),
            old(self).failure is None,
            old(self).pc == Pc::PubAwait,
        ensures
            final(self).wf(),
            !pc_awaiting(final(self).pc) || final(self).failure is Some,
            provide_step_spec(*old(self), *final(self), resp),
    {
        match resp {
            ActionResponse::ShellDone(o) => {
                if o.success {
                    let cmd = match &self.cur_shell {
                        Some(c) => c.clone(),
                        None => String::new(),
                    };
                    let a = str_concat("Published (", cmd.as_str());
                    self.pending = Some(
                        PhaseOutcome::Success { message: str_concat(a.as_str(), ")") },
                    );
                    self.pc = Pc::PubEmit;
                } else {
                    self.failure = Some(
                        ShipError::PhaseFailed {
                            phase: ShipPhase::Publish,
                            message: str_concat(
                                "publish failed: ",
                                trim(o.stderr.as_str()).as_str(),
                            ),
                        },
                    );
                }
            },
            ActionResponse::SpawnFailed(m) => {
                self.failure = Some(
                    ShipError::PhaseFailed {
                        phase: ShipPhase::Publish,
                        message: str_concat("failed to execute publish command: ", m.as_str()),
                    },
                );
            },
            _ => {
                self.failure = Some(
                    ShipError::Hook(
                        HookError::Exec(String::from_str("unexpected driver response")),
                    ),
                );
            },
        }
    }

    fn provide_git(&mut self, resp: ActionResponse)
        requires
            old(self).wf(),
            old(self).failure is None,
            old(self).pc == Pc::GitAwait,
        ensures
            final(self).wf(),
            !pc_awaiting(final(self).pc) || final(self).failure is Some,
            provide_step_spec(*old(self), *final(self), resp),
    {
        match resp {
            ActionResponse::GitDone(res) => match res {
                Ok(g) => {
                    let ghost gv = g;
                    let m1 = str_concat("Committed ", g.hash.as_str());
                    let m2 = if self.options.no_tag {
                        m1
                    } else {
                        let a = str_concat(m1.as_str(), ", tagged ");
                        str_concat(a.as_str(), self.tag.as_str())
                    };
                    let m3 = if g.pushed {
                        str_concat(m2.as_str(), ", pushed")
                    } else {
                        str_concat(m2.as_str(), " (push skipped)")
                    };
                    proof {
                        assert(m3@ =~= git_done_msg_spec(*old(self), gv));
                    }
                    self.ctx.record_git(Some(g.hash), g.branch);
                    proof {
                        assert(self.ctx == (PipelineContext {
                            commit_hash: Some(gv.hash),
                            branch: (if gv.branch is Some {
                                gv.branch
                            } else {
                                old(self).ctx.branch
                            }),
                            ..old(self).ctx
                        }));
                    }
                    self.pending = Some(PhaseOutcome::Success { message: m3 });
                    self.pc = Pc::GitEmit;
                },
                Err(e) => {
                    self.failure = Some(ShipError::Git(e));
                },
            },
            _ => {
                self.failure = Some(
                    ShipError::Hook(
                        HookError::Exec(String::from_str("unexpected driver response")),
                    ),
                );
            },
        }
    }

    fn provide_notes(&mut self, resp: ActionResponse)
        requires
            old(self).wf(),
            old(self).failure is None,
            old(self).pc == Pc::NotesAwait,
        ensures
            final(self).wf(),
            !pc_awaiting(final(self).pc) || final(self).failure is Some,
            provide_step_spec(*old(self), *final(self), resp),
    {
        match resp {
            ActionResponse::NotesDone { rendered, file } => {
                if let Some(rr) = rendered {
                    self.ctx.release_notes = Some(rr);
                }
                self.notes_path = file;
                self.pc = Pc::RelStart;
            },
            _ => {
                self.failure = Some(
                    ShipError::Hook(
                        HookError::Exec(String::from_str("unexpected driver response")),
                    ),
                );
            },
        }
    }

    fn provide_rel_exists(&mut self, resp: ActionResponse)
        requires
            old(self).wf(),
            old(self).failure is None,
            old(self).pc == Pc::RelExistsAwait,
        ensures
            final(self).wf(),
            !pc_awaiting(final(self).pc) || final(self).failure is Some,
            provide_step_spec(*old(self), *final(self), resp),
    {
        match resp {
            ActionResponse::ExistsDone(b) => {
                self.rel_exists = b;
                self.pc = Pc::RelRun;
            },
            _ => {
                self.failure = Some(
                    ShipError::Hook(
                        HookError::Exec(String::from_str("unexpected driver response")),
                    ),
                );
            },
        }
    }

    fn provide_rel_run(&mut self, resp: ActionResponse)
        requires
            old(self).wf(),
            old(self).failure is None,
            old(self).pc == Pc::RelRunAwait,
        ensures
            final(self).wf(),
            !pc_awaiting(final(self).pc) || final(self).failure is Some,
            provide_step_spec(*old(self), *final(self), resp),
    {
        match resp {
            ActionResponse::ReleaseDone(res) => match res {
                Ok(url) => {
                    self.rel_url = url;
                    self.pc = Pc::RelAssets(0);
                },
                Err(m) => {
                    self.failure = Some(
                        ShipError::PhaseFailed { phase: ShipPhase::Release, message: m },
                    );
                },
            },
            _ => {
                self.failure = Some(
                    ShipError::Hook(
                        HookError::Exec(String::from_str("unexpected driver response")),
                    ),
                );
            },
        }
    }

    fn provide_rel_assets(&mut self, i: usize, resp: ActionResponse)
        requires
            old(self).wf(),
            old(self).failure is None,
            old(self).pc == Pc::RelAssetsAwait(i),
        ensures
            final(self).wf(),
            !pc_awaiting(final(self).pc) || final(self).failure is Some,
            provide_step_spec(*old(self), *final(self), resp),
    {
        let count = self.rel_assets.len();
        proof {
            assert(i < count);
        }
        match resp {
            ActionResponse::UploadDone(o) => {
                if o.success {
                    self.pc = Pc::RelAssets(i + 1);
                } else {
                    let a = str_concat(
                        "failed to upload asset ",
                        self.rel_assets[i].0.as_str(),
                    );
                    let b = str_concat(a.as_str(), ": ");
                    self.failure = Some(
                        ShipError::PhaseFailed {
                            phase: ShipPhase::Release,
                            message: str_concat(b.as_str(), trim(o.stderr.as_str()).as_str()),
                        },
                    );
                }
            },
            ActionResponse::SpawnFailed(m) => {
                let a = str_concat("failed to upload asset ", self.rel_assets[i].0.as_str());
                let b = str_concat(a.as_str(), ": ");
                self.failure = Some(
                    ShipError::PhaseFailed {
                        phase: ShipPhase::Release,
                        message: str_concat(b.as_str(), m.as_str()),
                    },
                );
            },
            _ => {
                self.failure = Some(
                    ShipError::Hook(
                        HookError::Exec(String::from_str("unexpected driver response")),
                    ),
                );
            },
        }
    }

    /// Hand the machine a driver response for the action it requested.
    ///
    /// Every outcome follows [`provide_step_spec`]: a successful response
    /// advances the run and records exactly what the response carried (a
    /// parsed filter output replaces the whole context; git results land
    /// in the context; phase messages are pinned), and a failing response
    /// latches the matching error — a failed command yields `PhaseFailed`
    /// naming the phase with the trimmed stderr. Failures latch: no
    /// further step follows.
    pub fn provide(&mut self, resp: ActionResponse)
        requires
            old(self).wf(),
            pc_awaiting(old(self).pc),
            old(self).failure is None,
        ensures
            final(self).wf(),
            !pc_awaiting(final(self).pc) || final(self).failure is Some,
            provide_step_spec(*old(self), *final(self), resp),
    {
        match self.pc {
            Pc::HooksSerAwait(s) => self.provide_ser(s, resp),
            Pc::HooksBatchAwait(s) => self.provide_batch(s, resp),
            Pc::HooksFilterAwait(s) => self.provide_filter(s, resp),
            Pc::HooksParseAwait(s) => self.provide_parse(s, resp),
            Pc::TestAwait => self.provide_test(resp),
            Pc::BumpAwait => self.provide_bump(resp),
            Pc::PubAwait => self.provide_pub(resp),
            Pc::GitAwait => self.provide_git(resp),
            Pc::NotesAwait => self.provide_notes(resp),
            Pc::RelExistsAwait => self.provide_rel_exists(resp),
            Pc::RelRunAwait => self.provide_rel_run(resp),
            Pc::RelAssetsAwait(i) => self.provide_rel_assets(i, resp),
            _ => {
                proof {
                    assert(false);
                }
            },
        }
    }

    /// Close the run: the full outcome when every phase completed, the
    /// failure that stopped it otherwise. A successful outcome always
    /// holds all seven phases in the fixed order.
    pub fn finish(self) -> (r: Result<ShipOutcome, ShipError>)
        requires
            self.wf(),
            self.done_spec(),
        ensures
            self.failure matches Some(e) ==> r == Result::<ShipOutcome, ShipError>::Err(e),
            self.failure is None ==> {
                r matches Ok(o) && o.version == self.version && o.previous_version
                    == self.previous_version && o.tag == self.tag && o.phases == self.phases
                    && o.hooks_run == self.hooks_run && o.dry_run == self.options.dry_run
                    && o.context == self.ctx && o.phases@.len() == 7 && (forall|i: int|
                    0 <= i < 7 ==> (#[trigger] o.phases@[i]).0 == phase_at(i))
            },
    {
        match self.failure {
            Some(e) => Err(e),
            None => Ok(
                ShipOutcome {
                    version: self.version,
                    previous_version: self.previous_version,
                    tag: self.tag,
                    phases: self.phases,
                    hooks_run: self.hooks_run,
                    dry_run: self.options.dry_run,
                    context: self.ctx,
                },
            ),
        }
    }
}

/// Interpolate every command of a hook list for display.
fn interpolate_all(cmds: &Vec<String>, hc: &HookContext) -> (r: Vec<String>)
    ensures
        r.deep_view() == Seq::new(
            cmds.deep_view().len(),
            |k: int| interp_spec(cmds.deep_view()[k], hc.vars()),
        ),
{
    let ghost cs = cmds.deep_view();
    let mut out: Vec<String> = Vec::new();
    let mut k: usize = 0;
    while k < cmds.len()
        invariant
            0 <= k <= cmds@.len(),
            cs == cmds.deep_view(),
            out.deep_view() == Seq::new(k as nat, |j: int| interp_spec(cs[j], hc.vars())),
        decreases cmds@.len() - k,
    {
        let ghost prev = out.deep_view();
        let ghost prevseq = out@;
        let line = interpolate_command(cmds[k].as_str(), hc);
        out.push(line);
        proof {
            assert(cmds@[k as int]@ == cs[k as int]);
            assert(out@ == prevseq.push(line));
            assert(prev.len() == k);
            assert(prevseq.len() == k);
            assert forall|j: int| 0 <= j < k + 1 implies out.deep_view()[j] == interp_spec(
                cs[j],
                hc.vars(),
            ) by {
                if j < k {
                    assert(prevseq.push(line)[j] == prevseq[j]);
                    assert(out@[j] == prevseq[j]);
                    assert(prev[j] == prevseq[j]@);
                    assert(prev[j] == interp_spec(cs[j], hc.vars()));
                } else {
                    assert(prevseq.push(line)[j] == line);
                    assert(out@[j] == line);
                }
            }
            assert(out.deep_view() =~= Seq::new(
                k as nat + 1,
                |j: int| interp_spec(cs[j], hc.vars()),
            ));
        }
        k += 1;
    }
    proof {
        assert(out.deep_view() =~= Seq::new(
            cs.len(),
            |j: int| interp_spec(cs[j], hc.vars()),
        ));
    }
    out
}

/// Saturating addition, used for the running hook tally.
pub open spec fn sat_add_spec(a: int, b: int) -> int {
    if a + b <= usize::MAX as int {
        a + b
    } else {
        usize::MAX as int
    }
}

/// Position of a hook slot along the run's forward control flow.
pub open spec fn slot_pos(s: u8) -> int {
    if s == 0 {
        10
    } else if s == 1 {
        30
    } else if s == 2 {
        60
    } else if s == 3 {
        80
    } else if s == 4 {
        110
    } else if s == 5 {
        130
    } else if s == 6 {
        160
    } else if s == 7 {
        180
    } else if s == 8 {
        210
    } else if s == 9 {
        230
    } else if s == 10 {
        260
    } else {
        280
    }
}

/// Position of a state along the run's forward control flow: it grows at
/// every step, so the machine can never stutter or move backwards.
pub open spec fn pc_pos(pc: Pc) -> int {
    match pc {
        Pc::PfStart => 0,
        Pc::PfEnd => 1,
        Pc::VerStart => 2,
        Pc::VerEnd => 3,
        Pc::HooksBegin(s) => slot_pos(s),
        Pc::HooksDryEnd(s) => slot_pos(s) + 1,
        Pc::HooksSer(s) => slot_pos(s) + 2,
        Pc::HooksSerAwait(s) => slot_pos(s) + 3,
        Pc::HooksStep(s) => slot_pos(s) + 4,
        Pc::HooksBatchAwait(s) => slot_pos(s) + 4,
        Pc::HooksFilterAwait(s) => slot_pos(s) + 4,
        Pc::HooksParse(s) => slot_pos(s) + 5,
        Pc::HooksParseAwait(s) => slot_pos(s) + 6,
        Pc::HooksEnd(s) => slot_pos(s) + 7,
        Pc::TestStart => 50,
        Pc::TestDecide => 51,
        Pc::TestAct => 52,
        Pc::TestAwait => 53,
        Pc::TestEmit => 54,
        Pc::BumpStart => 100,
        Pc::BumpDecide => 101,
        Pc::BumpAct => 102,
        Pc::BumpAwait => 103,
        Pc::BumpEmit => 104,
        Pc::PubStart => 150,
        Pc::PubDecide => 151,
        Pc::PubAct => 152,
        Pc::PubAwait => 153,
        Pc::PubEmit => 154,
        Pc::GitStart => 200,
        Pc::GitDecide => 201,
        Pc::GitAct => 202,
        Pc::GitAwait => 203,
        Pc::GitEmit => 204,
        Pc::NotesDecide => 250,
        Pc::NotesAwait => 251,
        Pc::RelStart => 252,
        Pc::RelDecide => 253,
        Pc::RelExistsAwait => 254,
        Pc::RelRun => 255,
        Pc::RelRunAwait => 256,
        Pc::RelAssets(_) => 257,
        Pc::RelAssetsAwait(_) => 257,
        Pc::RelEmit => 258,
        Pc::Finished => 300,
    }
}

/// Tiebreak inside a slot's batch-execution cluster, where handing out a
/// batch keeps the position.
pub open spec fn pc_sub(pc: Pc) -> int {
    match pc {
        Pc::HooksStep(_) => 1,
        Pc::RelAssets(_) => 1,
        _ => 0,
    }
}

/// The machine moved strictly forward.
pub open spec fn progressed(pre: ShipRun, post: ShipRun) -> bool {
    ||| pc_pos(post.pc) > pc_pos(pre.pc)
    ||| (pc_pos(post.pc) == pc_pos(pre.pc) && pc_sub(post.pc) < pc_sub(pre.pc))
}

/// A phase was announced: the state advances, nothing else changes.
pub open spec fn phase_started(
    pre: ShipRun,
    post: ShipRun,
    r: Option<ShipStep>,
    phase: ShipPhase,
    next_pc: Pc,
) -> bool {
    &&& post == (ShipRun { pc: next_pc, ..pre })
    &&& r == Some(ShipStep::Emit(ShipEvent::PhaseStarted(phase)))
}

/// A phase was closed: the pending outcome is recorded for the phase and
/// emitted with it, and nothing else changes.
pub open spec fn phase_completed(
    pre: ShipRun,
    post: ShipRun,
    r: Option<ShipStep>,
    phase: ShipPhase,
    next_pc: Pc,
) -> bool {
    match pre.pending {
        Some(out) => {
            &&& post == (ShipRun { pc: next_pc, phases: post.phases, pending: None, ..pre })
            &&& post.phases@ == pre.phases@.push((phase, out))
            &&& r == Some(ShipStep::Emit(ShipEvent::PhaseCompleted(phase, out)))
        },
        None => false,
    }
}

/// The run latched exactly this failure; nothing else changed.
pub open spec fn latched(pre: ShipRun, post: ShipRun, e: ShipError) -> bool {
    post == (ShipRun { failure: Some(e), ..pre })
}

/// The run latched a `PhaseFailed` for this phase with this message.
pub open spec fn latched_phase_failed(
    pre: ShipRun,
    post: ShipRun,
    phase: ShipPhase,
    msg: Seq<char>,
) -> bool {
    &&& post == (ShipRun { failure: post.failure, ..pre })
    &&& post.failure matches Some(ShipError::PhaseFailed { phase: p, message }) && p == phase
        && message@ == msg
}

/// The run latched a hook execution failure with this message.
pub open spec fn latched_hook_exec(pre: ShipRun, post: ShipRun, msg: Seq<char>) -> bool {
    &&& post == (ShipRun { failure: post.failure, ..pre })
    &&& post.failure matches Some(ShipError::Hook(HookError::Exec(m))) && m@ == msg
}

/// The version phase's message: `previous -> next (strategy)`.
pub open spec fn version_msg_spec(pre: ShipRun) -> Seq<char> {
    pre.previous_version@ + " -> "@ + pre.version@ + " ("@ + pre.strategy.describe_spec() + ")"@
}

/// The dry-run git message.
pub open spec fn git_dry_msg_spec(pre: ShipRun) -> Seq<char> {
    "Would commit"@ + (if pre.options.no_tag {
        Seq::<char>::empty()
    } else {
        ", tag "@ + pre.tag@
    }) + (if pre.options.no_push {
        " (no push)"@
    } else {
        " + push"@
    })
}

/// The dry-run release message.
pub open spec fn rel_dry_msg_spec(pre: ShipRun) -> Seq<char> {
    let m1 = "Would create GitHub release for "@ + pre.tag@;
    let m2 = if pre.draft_spec() {
        m1 + " as draft"@
    } else {
        m1
    };
    let m3 = match pre.title_spec() {
        Some(t) => m2 + " titled \""@ + t + "\""@,
        None => m2,
    };
    let m4 = if pre.options.no_notes {
        m3 + " (--generate-notes)"@
    } else {
        m3 + " (with rendered notes)"@
    };
    if pre.assets_spec().len() > 0 {
        m4 + ", with assets"@
    } else {
        m4
    }
}

/// The bump phase's success message.
pub open spec fn bump_done_msg_spec(pre: ShipRun, b: BumpResult) -> Seq<char> {
    "Bumped to "@ + pre.version@ + (if b.changelog_updated {
        " + changelog"@
    } else {
        Seq::<char>::empty()
    }) + " (modified: "@ + join_comma_spec(b.modified_files.deep_view()) + ")"@
}

/// The git phase's success message.
pub open spec fn git_done_msg_spec(pre: ShipRun, g: GitPhaseResult) -> Seq<char> {
    "Committed "@ + g.hash@ + (if pre.options.no_tag {
        Seq::<char>::empty()
    } else {
        ", tagged "@ + pre.tag@
    }) + (if g.pushed {
        ", pushed"@
    } else {
        " (push skipped)"@
    })
}

/// The release phase's success message.
pub open spec fn rel_done_msg_spec(pre: ShipRun, url: Option<String>) -> Seq<char> {
    let action = if pre.rel_exists {
        "Updated"@
    } else {
        "Created"@
    };
    let drafted = if pre.rel_draft {
        " (draft)"@
    } else {
        Seq::<char>::empty()
    };
    match url {
        Some(u) => action + " GitHub release"@ + drafted + ": "@ + u@,
        None => action + " GitHub release "@ + pre.tag@ + drafted,
    }
}

/// How one `next` step transforms the machine, state by state: the
/// successor state, the emitted event or requested action, and every
/// payload are fixed by the current state and the options. A machine that
/// does not advance, skips a phase body, forgets an event, or hands out
/// the wrong request does not satisfy this relation.
pub open spec fn next_step_spec(pre: ShipRun, post: ShipRun, r: Option<ShipStep>) -> bool {
    match pre.pc {
        Pc::PfStart => phase_started(pre, post, r, ShipPhase::Preflight, Pc::PfEnd),
        Pc::PfEnd => {
            &&& post == (ShipRun { pc: Pc::VerStart, phases: post.phases, ..pre })
            &&& post.phases@.len() == pre.phases@.len() + 1
            &&& post.phases@ == pre.phases@.push(post.phases@.last())
            &&& post.phases@.last().0 == ShipPhase::Preflight
            &&& post.phases@.last().1 matches PhaseOutcome::Success { message } && message@
                == "All preflight checks passed"@
            &&& r == Some(
                ShipStep::Emit(
                    ShipEvent::PhaseCompleted(ShipPhase::Preflight, post.phases@.last().1),
                ),
            )
        },
        Pc::VerStart => phase_started(pre, post, r, ShipPhase::Version, Pc::VerEnd),
        Pc::VerEnd => {
            &&& post == (ShipRun { pc: Pc::HooksBegin(0), phases: post.phases, ..pre })
            &&& post.phases@.len() == pre.phases@.len() + 1
            &&& post.phases@ == pre.phases@.push(post.phases@.last())
            &&& post.phases@.last().0 == ShipPhase::Version
            &&& post.phases@.last().1 matches PhaseOutcome::Success { message } && message@
                == version_msg_spec(pre)
            &&& r == Some(
                ShipStep::Emit(
                    ShipEvent::PhaseCompleted(ShipPhase::Version, post.phases@.last().1),
                ),
            )
        },
        Pc::HooksBegin(s) => {
            let enabled = !((s == 7 || s == 8) && pre.options.no_git);
            let cmds = if enabled {
                ShipRun::slot_commands_spec(&pre.config, s)
            } else {
                None
            };
            match cmds {
                None => {
                    &&& post == (ShipRun { pc: after_slot_spec(s), ..pre })
                    &&& r == Some(ShipStep::Internal)
                },
                Some(cs) => {
                    if cs.len() == 0 {
                        &&& post == (ShipRun { pc: after_slot_spec(s), ..pre })
                        &&& r == Some(ShipStep::Internal)
                    } else {
                        &&& r matches Some(ShipStep::Emit(ShipEvent::HooksStarted {
                            phase,
                            count,
                            commands,
                            will_execute,
                        })) && phase == slot_phase_spec(s) && count as int == cs.len()
                            && commands.deep_view() == Seq::new(
                            cs.len(),
                            |k: int| interp_spec(cs[k], pre.hook_ctx.vars()),
                        ) && will_execute == !pre.options.dry_run
                        &&& (pre.options.dry_run ==> {
                            &&& post == (ShipRun {
                                pc: Pc::HooksDryEnd(s),
                                cur_count: post.cur_count,
                                ..pre
                            })
                            &&& post.cur_count as int == cs.len()
                        })
                        &&& (!pre.options.dry_run ==> {
                            &&& post == (ShipRun {
                                pc: Pc::HooksSer(s),
                                cur_count: post.cur_count,
                                cur_cmds: post.cur_cmds,
                                ..pre
                            })
                            &&& post.cur_count as int == cs.len()
                            &&& post.cur_cmds matches Some(c) && c.deep_view() == cs
                        })
                    }
                },
            }
        },
        Pc::HooksDryEnd(s) => {
            &&& post == (ShipRun { pc: after_slot_spec(s), hooks_run: post.hooks_run, ..pre })
            &&& post.hooks_run as int == sat_add_spec(pre.hooks_run as int, pre.cur_count as int)
            &&& r == Some(
                ShipStep::Emit(
                    ShipEvent::HooksCompleted { phase: slot_phase_spec(s), count: pre.cur_count },
                ),
            )
        },
        Pc::HooksSer(s) => {
            &&& post == (ShipRun { pc: Pc::HooksSerAwait(s), ..pre })
            &&& r == Some(ShipStep::Act(ActionRequest::SerializeContext))
        },
        Pc::HooksStep(s) => {
            match pre.hook_run {
                Some(h) => match h.failure {
                    Some(e) => {
                        &&& post == (ShipRun {
                            hook_run: None,
                            failure: Some(ShipError::Hook(e)),
                            ..pre
                        })
                        &&& r == Some(ShipStep::Internal)
                    },
                    None => {
                        if h.idx < h.batches@.len() {
                            &&& r matches Some(ShipStep::Act(ActionRequest::RunHookBatch(req)))
                                && request_for(h, req) && (req.kind == BatchKind::Filter ==> post
                                == (ShipRun { pc: Pc::HooksFilterAwait(s), ..pre })) && (req.kind
                                != BatchKind::Filter ==> post == (ShipRun {
                                pc: Pc::HooksBatchAwait(s),
                                ..pre
                            }))
                        } else {
                            &&& r == Some(ShipStep::Internal)
                            &&& match h.filter_json {
                                Some(j) => post == (ShipRun {
                                    pc: Pc::HooksParse(s),
                                    hook_run: None,
                                    cur_filter: Some(j),
                                    ..pre
                                }),
                                None => post == (ShipRun {
                                    pc: Pc::HooksEnd(s),
                                    hook_run: None,
                                    ..pre
                                }),
                            }
                        }
                    },
                },
                None => false,
            }
        },
        Pc::HooksParse(s) => {
            match pre.cur_filter {
                Some(cf) => {
                    &&& r matches Some(ShipStep::Act(ActionRequest::ParseContext(j))) && j@ == cf@
                    &&& post == (ShipRun { pc: Pc::HooksParseAwait(s), ..pre })
                },
                None => false,
            }
        },
        Pc::HooksEnd(s) => {
            &&& post == (ShipRun { pc: after_slot_spec(s), hooks_run: post.hooks_run, ..pre })
            &&& post.hooks_run as int == sat_add_spec(pre.hooks_run as int, pre.cur_count as int)
            &&& r == Some(
                ShipStep::Emit(
                    ShipEvent::HooksCompleted { phase: slot_phase_spec(s), count: pre.cur_count },
                ),
            )
        },
        Pc::TestStart => phase_started(pre, post, r, ShipPhase::Test, Pc::TestDecide),
        Pc::TestDecide => {
            &&& r == Some(ShipStep::Internal)
            &&& if pre.options.no_test {
                &&& post == (ShipRun { pc: Pc::TestEmit, pending: post.pending, ..pre })
                &&& post.pending matches Some(PhaseOutcome::Skipped { reason }) && reason@
                    == "--no-test flag"@
            } else if pre.options.dry_run {
                &&& post == (ShipRun { pc: Pc::TestEmit, pending: post.pending, ..pre })
                &&& post.pending matches Some(PhaseOutcome::Success { message }) && message@
                    == "Would run: "@ + pre.test_cmd_spec()
            } else {
                &&& post == (ShipRun { pc: Pc::TestAct, cur_shell: post.cur_shell, ..pre })
                &&& post.cur_shell matches Some(c) && c@ == pre.test_cmd_spec()
            }
        },
        Pc::TestAct => {
            match pre.cur_shell {
                Some(c) => {
                    &&& r matches Some(ShipStep::Act(ActionRequest::RunShell { phase, command }))
                        && phase == ShipPhase::Test && command@ == c@
                    &&& post == (ShipRun { pc: Pc::TestAwait, ..pre })
                },
                None => false,
            }
        },
        Pc::TestEmit => phase_completed(pre, post, r, ShipPhase::Test, Pc::HooksBegin(2)),
        Pc::BumpStart => phase_started(pre, post, r, ShipPhase::Bump, Pc::BumpDecide),
        Pc::BumpDecide => {
            &&& r == Some(ShipStep::Internal)
            &&& if pre.options.dry_run {
                &&& post == (ShipRun { pc: Pc::BumpEmit, pending: post.pending, ..pre })
                &&& post.pending matches Some(PhaseOutcome::Success { message }) && message@
                    == "Would bump "@ + pre.previous_version@ + " -> "@ + pre.version@
            } else {
                post == (ShipRun { pc: Pc::BumpAct, ..pre })
            }
        },
        Pc::BumpAct => {
            &&& r matches Some(ShipStep::Act(ActionRequest::RunBump { with_changelog }))
                && with_changelog == !pre.options.no_changelog
            &&& post == (ShipRun { pc: Pc::BumpAwait, ..pre })
        },
        Pc::BumpEmit => phase_completed(pre, post, r, ShipPhase::Bump, Pc::HooksBegin(4)),
        Pc::PubStart => phase_started(pre, post, r, ShipPhase::Publish, Pc::PubDecide),
        Pc::PubDecide => {
            &&& r == Some(ShipStep::Internal)
            &&& if pre.options.no_publish {
                &&& post == (ShipRun { pc: Pc::PubEmit, pending: post.pending, ..pre })
                &&& post.pending matches Some(PhaseOutcome::Skipped { reason }) && reason@
                    == "--no-publish flag"@
            } else if pre.options.dry_run {
                &&& post == (ShipRun { pc: Pc::PubEmit, pending: post.pending, ..pre })
                &&& post.pending matches Some(PhaseOutcome::Success { message }) && message@
                    == "Would run: "@ + (match pre.publish_cmd_spec() {
                    Some(c) => c,
                    None => "(no publish command)"@,
                })
            } else {
                match pre.publish_cmd_spec() {
                    None => {
                        &&& post == (ShipRun { pc: Pc::PubEmit, pending: post.pending, ..pre })
                        &&& post.pending matches Some(PhaseOutcome::Skipped { reason })
                            && reason@ == "no publish command configured or detected"@
                    },
                    Some(c) => {
                        &&& post == (ShipRun { pc: Pc::PubAct, cur_shell: post.cur_shell, ..pre })
                        &&& post.cur_shell matches Some(cs) && cs@ == c
                    },
                }
            }
        },
        Pc::PubAct => {
            match pre.cur_shell {
                Some(c) => {
                    &&& r matches Some(ShipStep::Act(ActionRequest::RunShell { phase, command }))
                        && phase == ShipPhase::Publish && command@ == c@
                    &&& post == (ShipRun { pc: Pc::PubAwait, ..pre })
                },
                None => false,
            }
        },
        Pc::PubEmit => phase_completed(pre, post, r, ShipPhase::Publish, Pc::HooksBegin(6)),
        Pc::GitStart => phase_started(pre, post, r, ShipPhase::Git, Pc::GitDecide),
        Pc::GitDecide => {
            &&& r == Some(ShipStep::Internal)
            &&& if pre.options.no_git {
                &&& post == (ShipRun { pc: Pc::GitEmit, pending: post.pending, ..pre })
                &&& post.pending matches Some(PhaseOutcome::Skipped { reason }) && reason@
                    == "--no-git flag"@
            } else if pre.options.dry_run {
                &&& post == (ShipRun { pc: Pc::GitEmit, pending: post.pending, ..pre })
                &&& post.pending matches Some(PhaseOutcome::Success { message }) && message@
                    == git_dry_msg_spec(pre)
            } else {
                post == (ShipRun { pc: Pc::GitAct, ..pre })
            }
        },
        Pc::GitAct => {
            &&& r matches Some(ShipStep::Act(ActionRequest::GitCommitTagPush {
                commit_message,
                tag,
                push,
            })) && commit_message@ == "chore: release "@ + pre.version@ && push
                == !pre.options.no_push && (pre.options.no_tag ==> tag is None) && (
            !pre.options.no_tag ==> {
                tag matches Some(p) && p.0@ == pre.tag@ && p.1@ == "Release "@ + pre.version@
            })
            &&& post == (ShipRun { pc: Pc::GitAwait, ..pre })
        },
        Pc::GitEmit => phase_completed(pre, post, r, ShipPhase::Git, Pc::HooksBegin(8)),
        Pc::NotesDecide => {
            let wants = !pre.options.no_release && !pre.options.no_notes && !pre.options.dry_run
                && pre.github_release_spec();
            if wants {
                &&& r == Some(ShipStep::Act(ActionRequest::RenderNotes))
                &&& post == (ShipRun { pc: Pc::NotesAwait, ..pre })
            } else {
                &&& r == Some(ShipStep::Internal)
                &&& post == (ShipRun { pc: Pc::RelStart, ..pre })
            }
        },
        Pc::RelStart => phase_started(pre, post, r, ShipPhase::Release, Pc::RelDecide),
        Pc::RelDecide => {
            if pre.options.no_release {
                &&& r == Some(ShipStep::Internal)
                &&& post == (ShipRun { pc: Pc::RelEmit, pending: post.pending, ..pre })
                &&& post.pending matches Some(PhaseOutcome::Skipped { reason }) && reason@
                    == "--no-release flag"@
            } else if !pre.github_release_spec() {
                &&& r == Some(ShipStep::Internal)
                &&& post == (ShipRun { pc: Pc::RelEmit, pending: post.pending, ..pre })
                &&& post.pending matches Some(PhaseOutcome::Skipped { reason }) && reason@
                    == "github_release = false in config"@
            } else if pre.options.dry_run {
                &&& r == Some(ShipStep::Internal)
                &&& post == (ShipRun { pc: Pc::RelEmit, pending: post.pending, ..pre })
                &&& post.pending matches Some(PhaseOutcome::Success { message }) && message@
                    == rel_dry_msg_spec(pre)
            } else {
                &&& r matches Some(ShipStep::Act(ActionRequest::ReleaseExists { tag })) && tag@
                    == pre.tag@
                &&& post == (ShipRun {
                    pc: Pc::RelExistsAwait,
                    rel_draft: post.rel_draft,
                    rel_title: post.rel_title,
                    rel_cat: post.rel_cat,
                    ..pre
                })
                &&& post.rel_draft == pre.draft_spec()
                &&& post.rel_title.deep_view() == pre.title_spec()
                &&& post.rel_cat == pre.cat_spec()
            }
        },
        Pc::RelRun => {
            &&& post == (ShipRun { pc: Pc::RelRunAwait, rel_assets: post.rel_assets, ..pre })
            &&& if pre.rel_exists {
                &&& post.rel_assets.deep_view().len() == pre.assets_spec().len()
                &&& (forall|k: int|
                    0 <= k < pre.assets_spec().len()
                        ==> (#[trigger] post.rel_assets.deep_view()[k]).0 == pre.assets_spec()[k]
                        && post.rel_assets.deep_view()[k].1 == basename_spec(
                        pre.assets_spec()[k],
                    ))
                &&& r matches Some(ShipStep::Act(ActionRequest::RunRelease { edit, args, tag }))
                    && edit == true && tag@ == pre.tag@ && args.deep_view()
                    == build_edit_args_spec(
                    pre.tag@,
                    pre.rel_title.deep_view(),
                    pre.rel_draft,
                    pre.notes_path.deep_view(),
                )
            } else {
                &&& post.rel_assets@.len() == 0
                &&& r matches Some(ShipStep::Act(ActionRequest::RunRelease { edit, args, tag }))
                    && edit == false && tag@ == pre.tag@ && args.deep_view()
                    == build_create_args_spec(
                    pre.tag@,
                    pre.rel_title.deep_view(),
                    pre.rel_draft,
                    pre.notes_path.deep_view(),
                    pre.rel_cat.deep_view(),
                    pre.assets_spec(),
                )
            }
        },
        Pc::RelAssets(i) => {
            if (i as int) < pre.rel_assets@.len() {
                &&& r matches Some(ShipStep::Act(ActionRequest::UploadAsset {
                    tag,
                    path,
                    basename,
                })) && tag@ == pre.tag@ && path == pre.rel_assets@[i as int].0 && basename
                    == pre.rel_assets@[i as int].1
                &&& post == (ShipRun { pc: Pc::RelAssetsAwait(i), ..pre })
            } else {
                &&& r == Some(ShipStep::Internal)
                &&& post == (ShipRun {
                    pc: Pc::RelEmit,
                    pending: post.pending,
                    ctx: post.ctx,
                    rel_url: None,
                    ..pre
                })
                &&& post.ctx == (PipelineContext { release_url: pre.rel_url, ..pre.ctx })
                &&& post.pending matches Some(PhaseOutcome::Success { message }) && message@
                    == rel_done_msg_spec(pre, pre.rel_url)
            }
        },
        Pc::RelEmit => phase_completed(pre, post, r, ShipPhase::Release, Pc::HooksBegin(10)),
        _ => true,
    }
}

/// How one driver response transforms the machine, per awaited action: a
/// successful answer advances the run and records exactly what it
/// carried; a failing one latches the matching error; an answer of the
/// wrong kind fails the run rather than being guessed at. A handler that
/// ignores the response does not satisfy this relation.
pub open spec fn provide_step_spec(pre: ShipRun, post: ShipRun, resp: ActionResponse) -> bool {
    match pre.pc {
        Pc::HooksSerAwait(s) => match resp {
            ActionResponse::Serialized(json) => {
                match pre.cur_cmds {
                    Some(c) => {
                        &&& post == (ShipRun {
                            pc: Pc::HooksStep(s),
                            cur_cmds: None,
                            hook_run: post.hook_run,
                            ..pre
                        })
                        &&& post.hook_run matches Some(h) && hook_run_started(
                            c.deep_view(),
                            pre.hook_ctx,
                            Some(json),
                            h,
                        ) && h.wf()
                    },
                    None => false,
                }
            },
            ActionResponse::SpawnFailed(m) => latched(
                pre,
                post,
                ShipError::Hook(HookError::Exec(m)),
            ),
            _ => latched_hook_exec(pre, post, "unexpected driver response"@),
        },
        Pc::HooksBatchAwait(s) => match resp {
            ActionResponse::BatchDone(outs) => {
                match pre.hook_run {
                    Some(h0) => {
                        if outs@.len() != h0.batches@[h0.idx as int]@.commands.len() {
                            latched_hook_exec(pre, post, "hook results did not match the batch"@)
                        } else {
                            &&& post == (ShipRun {
                                pc: Pc::HooksStep(s),
                                hook_run: post.hook_run,
                                ..pre
                            })
                            &&& post.hook_run matches Some(h1) && batch_reported(h0, outs@, h1)
                                && h1.wf()
                        }
                    },
                    None => false,
                }
            },
            ActionResponse::SpawnFailed(m) => latched(
                pre,
                post,
                ShipError::Hook(HookError::Exec(m)),
            ),
            _ => latched_hook_exec(pre, post, "unexpected driver response"@),
        },
        Pc::HooksFilterAwait(s) => match resp {
            ActionResponse::FilterDone(o) => {
                match pre.hook_run {
                    Some(h0) => {
                        &&& post == (ShipRun {
                            pc: Pc::HooksStep(s),
                            hook_run: post.hook_run,
                            ..pre
                        })
                        &&& post.hook_run matches Some(h1) && filter_reported(h0, o, h1)
                            && h1.wf()
                    },
                    None => false,
                }
            },
            ActionResponse::SpawnFailed(m) => latched(
                pre,
                post,
                ShipError::Hook(HookError::Exec(m)),
            ),
            _ => latched_hook_exec(pre, post, "unexpected driver response"@),
        },
        Pc::HooksParseAwait(s) => match resp {
            ActionResponse::Parsed(res) => match res {
                Ok(c) => post == (ShipRun {
                    pc: Pc::HooksEnd(s),
                    ctx: c,
                    cur_filter: None,
                    ..pre
                }),
                Err(m) => latched_phase_failed(
                    pre,
                    post,
                    slot_phase_spec(s),
                    "filter output could not be deserialized into pipeline context: "@ + m@,
                ),
            },
            _ => latched_hook_exec(pre, post, "unexpected driver response"@),
        },
        Pc::TestAwait => match resp {
            ActionResponse::ShellDone(o) => {
                if o.success {
                    match pre.cur_shell {
                        Some(c) => {
                            &&& post == (ShipRun {
                                pc: Pc::TestEmit,
                                pending: post.pending,
                                ..pre
                            })
                            &&& post.pending matches Some(PhaseOutcome::Success { message })
                                && message@ == "Tests passed ("@ + c@ + ")"@
                        },
                        None => false,
                    }
                } else {
                    latched_phase_failed(
                        pre,
                        post,
                        ShipPhase::Test,
                        "tests failed: "@ + trim_spec(o.stderr@),
                    )
                }
            },
            ActionResponse::SpawnFailed(m) => latched_phase_failed(
                pre,
                post,
                ShipPhase::Test,
                "failed to execute test command: "@ + m@,
            ),
            _ => latched_hook_exec(pre, post, "unexpected driver response"@),
        },
        Pc::BumpAwait => match resp {
            ActionResponse::BumpDone(res) => match res {
                Ok(b) => {
                    &&& post == (ShipRun {
                        pc: Pc::BumpEmit,
                        pending: post.pending,
                        ctx: post.ctx,
                        ..pre
                    })
                    &&& post.ctx == (PipelineContext {
                        changelog_updated: b.changelog_updated,
                        modified_files: b.modified_files,
                        ..pre.ctx
                    })
                    &&& post.pending matches Some(PhaseOutcome::Success { message }) && message@
                        == bump_done_msg_spec(pre, b)
                },
                Err(m) => latched(
                    pre,
                    post,
                    ShipError::PhaseFailed { phase: ShipPhase::Bump, message: m },
                ),
            },
            _ => latched_hook_exec(pre, post, "unexpected driver response"@),
        },
        Pc::PubAwait => match resp {
            ActionResponse::ShellDone(o) => {
                if o.success {
                    match pre.cur_shell {
                        Some(c) => {
                            &&& post == (ShipRun {
                                pc: Pc::PubEmit,
                                pending: post.pending,
                                ..pre
                            })
                            &&& post.pending matches Some(PhaseOutcome::Success { message })
                                && message@ == "Published ("@ + c@ + ")"@
                        },
                        None => false,
                    }
                } else {
                    latched_phase_failed(
                        pre,
                        post,
                        ShipPhase::Publish,
                        "publish failed: "@ + trim_spec(o.stderr@),
                    )
                }
            },
            ActionResponse::SpawnFailed(m) => latched_phase_failed(
                pre,
                post,
                ShipPhase::Publish,
                "failed to execute publish command: "@ + m@,
            ),
            _ => latched_hook_exec(pre, post, "unexpected driver response"@),
        },
        Pc::GitAwait => match resp {
            ActionResponse::GitDone(res) => match res {
                Ok(g) => {
                    &&& post == (ShipRun {
                        pc: Pc::GitEmit,
                        pending: post.pending,
                        ctx: post.ctx,
                        ..pre
                    })
                    &&& post.ctx == (PipelineContext {
                        commit_hash: Some(g.hash),
                        branch: (if g.branch is Some {
                            g.branch
                        } else {
                            pre.ctx.branch
                        }),
                        ..pre.ctx
                    })
                    &&& post.pending matches Some(PhaseOutcome::Success { message }) && message@
                        == git_done_msg_spec(pre, g)
                },
                Err(e) => latched(pre, post, ShipError::Git(e)),
            },
            _ => latched_hook_exec(pre, post, "unexpected driver response"@),
        },
        Pc::NotesAwait => match resp {
            ActionResponse::NotesDone { rendered, file } => {
                &&& post == (ShipRun {
                    pc: Pc::RelStart,
                    ctx: post.ctx,
                    notes_path: file,
                    ..pre
                })
                &&& post.ctx == (PipelineContext {
                    release_notes: (match rendered {
                        Some(rr) => Some(rr),
                        None => pre.ctx.release_notes,
                    }),
                    ..pre.ctx
                })
            },
            _ => latched_hook_exec(pre, post, "unexpected driver response"@),
        },
        Pc::RelExistsAwait => match resp {
            ActionResponse::ExistsDone(b) => post == (ShipRun {
                pc: Pc::RelRun,
                rel_exists: b,
                ..pre
            }),
            _ => latched_hook_exec(pre, post, "unexpected driver response"@),
        },
        Pc::RelRunAwait => match resp {
            ActionResponse::ReleaseDone(res) => match res {
                Ok(url) => post == (ShipRun { pc: Pc::RelAssets(0), rel_url: url, ..pre }),
                Err(m) => latched(
                    pre,
                    post,
                    ShipError::PhaseFailed { phase: ShipPhase::Release, message: m },
                ),
            },
            _ => latched_hook_exec(pre, post, "unexpected driver response"@),
        },
        Pc::RelAssetsAwait(i) => match resp {
            ActionResponse::UploadDone(o) => {
                if o.success {
                    post == (ShipRun { pc: Pc::RelAssets((i + 1) as usize), ..pre })
                } else {
                    latched_phase_failed(
                        pre,
                        post,
                        ShipPhase::Release,
                        "failed to upload asset "@ + pre.rel_assets@[i as int].0@ + ": "@
                            + trim_spec(o.stderr@),
                    )
                }
            },
            ActionResponse::SpawnFailed(m) => latched_phase_failed(
                pre,
                post,
                ShipPhase::Release,
                "failed to upload asset "@ + pre.rel_assets@[i as int].0@ + ": "@ + m@,
            ),
            _ => latched_hook_exec(pre, post, "unexpected driver response"@),
        },
        _ => true,
    }
}

} // verus!
