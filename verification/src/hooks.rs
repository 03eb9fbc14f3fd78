//! Hook commands: batching, interpolation, and the execution plan.
//!
//! Hooks are user-configured shell commands that run at phase boundaries of
//! the release workflow. Commands run in parallel by default; two prefixes
//! alter execution. `sync:` is a barrier: everything before it must finish,
//! the command runs alone, and later commands resume in parallel. `filter:`
//! is a barrier that additionally pipes JSON through the command: it receives
//! the pipeline context on stdin and must print a JSON document that becomes
//! the new context. Filters chain: each receives the previous filter's
//! output. Invalid JSON from a filter is a hard error.
//!
//! Commands support `{var}` interpolation for the six variables `version`,
//! `prevVersion`, `tag`, `changelogPath`, `owner` and `repo`; the two
//! multi-word variables are also accepted in snake_case (`{prev_version}`,
//! `{changelog_path}`), matching the hook configuration keys.
//!
//! Spawning and joining child processes is outside this crate; [`HookRun`]
//! plans each batch, hands it out as a [`BatchRequest`], and folds the raw
//! outcomes back in, so every scheduling and failure decision is verified.

use vstd::prelude::*;
use vstd::string::*;

use crate::text::{
    contains_spec, starts_with_spec, str_starts_with, strip_prefix_str, trim, trim_spec,
    trim_start, trim_start_spec,
};

verus! {

/// Errors from hook execution.
#[derive(Debug, Clone)]
pub enum HookError {
    /// A hook command exited with a non-zero status.
    CommandFailed {
        /// The command that failed (before interpolation).
        command: String,
        /// The exit code, if available.
        exit_code: Option<i32>,
        /// Captured stderr, trimmed.
        stderr: String,
    },
    /// A filter hook printed something that is not JSON.
    FilterOutputInvalid {
        /// The command that produced invalid output.
        command: String,
        /// The offending text, truncated.
        detail: String,
    },
    /// A hook process could not be spawned at all.
    Exec(String),
}

/// Variables available for interpolation in hook commands.
#[derive(Debug, Clone)]
pub struct HookContext {
    /// The new version being released (e.g., `1.2.3`).
    pub version: String,
    /// The previous version (e.g., `1.1.0`).
    pub prev_version: String,
    /// The git tag (e.g., `v1.2.3`).
    pub tag: String,
    /// Path to the generated changelog file.
    pub changelog_path: String,
    /// Repository owner (from the git remote).
    pub owner: String,
    /// Repository name (from the git remote).
    pub repo: String,
}

/// The mathematical content of a [`HookContext`].
pub ghost struct HookVars {
    /// View of the version string.
    pub version: Seq<char>,
    /// View of the previous version string.
    pub prev_version: Seq<char>,
    /// View of the tag string.
    pub tag: Seq<char>,
    /// View of the changelog path string.
    pub changelog_path: Seq<char>,
    /// View of the owner string.
    pub owner: Seq<char>,
    /// View of the repo string.
    pub repo: Seq<char>,
}

impl HookContext {
    /// The interpolation variables as sequences.
    pub open spec fn vars(&self) -> HookVars {
        HookVars {
            version: self.version@,
            prev_version: self.prev_version@,
            tag: self.tag@,
            changelog_path: self.changelog_path@,
            owner: self.owner@,
            repo: self.repo@,
        }
    }
}

/// Result of running a single hook command.
#[derive(Debug, Clone)]
pub struct HookOutput {
    /// The original command (before interpolation).
    pub command: String,
    /// Whether the command succeeded.
    pub success: bool,
    /// Captured stdout.
    pub stdout: String,
    /// Captured stderr.
    pub stderr: String,
    /// How long the command took, in milliseconds.
    pub duration_ms: u64,
}

/// Output from running a list of hooks, including any filter results.
#[derive(Debug)]
pub struct RunHooksOutput {
    /// Results from each individual hook command, in spawn order.
    pub results: Vec<HookOutput>,
    /// If any `filter:` hooks ran, the final JSON output of the last filter.
    pub filter_output: Option<String>,
}

// ──────────────────────────────────────────────
// Interpolation
// ──────────────────────────────────────────────

/// The known interpolation tokens: one per variable, plus the snake_case
/// alternates of the two multi-word variables.
#[derive(Debug, Clone, Copy, PartialEq, Eq, Structural)]
pub enum HookVar {
    /// `{version}`
    Version,
    /// `{prevVersion}`
    PrevVersionCamel,
    /// `{prev_version}`
    PrevVersion,
    /// `{tag}`
    Tag,
    /// `{changelogPath}`
    ChangelogPathCamel,
    /// `{changelog_path}`
    ChangelogPath,
    /// `{owner}`
    Owner,
    /// `{repo}`
    Repo,
}

/// The literal token of a variable.
pub open spec fn token_of(x: HookVar) -> Seq<char> {
    match x {
        HookVar::Version => "{version}"@,
        HookVar::PrevVersionCamel => "{prevVersion}"@,
        HookVar::PrevVersion => "{prev_version}"@,
        HookVar::Tag => "{tag}"@,
        HookVar::ChangelogPathCamel => "{changelogPath}"@,
        HookVar::ChangelogPath => "{changelog_path}"@,
        HookVar::Owner => "{owner}"@,
        HookVar::Repo => "{repo}"@,
    }
}

/// The substituted value of a token.
pub open spec fn value_of(x: HookVar, v: HookVars) -> Seq<char> {
    match x {
        HookVar::Version => v.version,
        HookVar::PrevVersionCamel => v.prev_version,
        HookVar::PrevVersion => v.prev_version,
        HookVar::Tag => v.tag,
        HookVar::ChangelogPathCamel => v.changelog_path,
        HookVar::ChangelogPath => v.changelog_path,
        HookVar::Owner => v.owner,
        HookVar::Repo => v.repo,
    }
}

/// What interpolation returns: scan left to right; at each position the
/// first matching known token is replaced by its value and skipped; any
/// other character (including unknown `{...}` tokens) is copied unchanged.
/// No known token is a prefix of another, so at most one can match.
pub open spec fn interp_spec(s: Seq<char>, v: HookVars) -> Seq<char>
    decreases s.len(),
{
    if s.len() == 0 {
        s
    } else if starts_with_spec(s, "{version}"@) && "{version}"@.len() >= 1 {
        v.version + interp_spec(s.subrange("{version}"@.len() as int, s.len() as int), v)
    } else if starts_with_spec(s, "{prevVersion}"@) && "{prevVersion}"@.len() >= 1 {
        v.prev_version + interp_spec(s.subrange("{prevVersion}"@.len() as int, s.len() as int), v)
    } else if starts_with_spec(s, "{prev_version}"@) && "{prev_version}"@.len() >= 1 {
        v.prev_version + interp_spec(s.subrange("{prev_version}"@.len() as int, s.len() as int), v)
    } else if starts_with_spec(s, "{tag}"@) && "{tag}"@.len() >= 1 {
        v.tag + interp_spec(s.subrange("{tag}"@.len() as int, s.len() as int), v)
    } else if starts_with_spec(s, "{changelogPath}"@) && "{changelogPath}"@.len() >= 1 {
        v.changelog_path + interp_spec(
            s.subrange("{changelogPath}"@.len() as int, s.len() as int),
            v,
        )
    } else if starts_with_spec(s, "{changelog_path}"@) && "{changelog_path}"@.len() >= 1 {
        v.changelog_path + interp_spec(
            s.subrange("{changelog_path}"@.len() as int, s.len() as int),
            v,
        )
    } else if starts_with_spec(s, "{owner}"@) && "{owner}"@.len() >= 1 {
        v.owner + interp_spec(s.subrange("{owner}"@.len() as int, s.len() as int), v)
    } else if starts_with_spec(s, "{repo}"@) && "{repo}"@.len() >= 1 {
        v.repo + interp_spec(s.subrange("{repo}"@.len() as int, s.len() as int), v)
    } else {
        seq![s[0]] + interp_spec(s.subrange(1, s.len() as int), v)
    }
}

/// Replace `{var}` placeholders with values from the context.
pub fn interpolate(command: &str, context: &HookContext) -> (r: String)
    ensures
        r@ == interp_spec(command@, context.vars()),
{
    let ghost v = context.vars();
    let mut out = String::new();
    let mut rest: &str = command;
    while rest.unicode_len() != 0
        invariant
            out@ + interp_spec(rest@, v) == interp_spec(command@, v),
            v == context.vars(),
        decreases rest@.len(),
    {
        let n = rest.unicode_len();
        let ghost before = out@;
        if str_starts_with(rest, "{version}") {
            proof {
                reveal_strlit("{version}");
            }
            out.append(context.version.as_str());
            rest = rest.substring_char(9, n);
        } else if str_starts_with(rest, "{prevVersion}") {
            proof {
                reveal_strlit("{prevVersion}");
            }
            out.append(context.prev_version.as_str());
            rest = rest.substring_char(13, n);
        } else if str_starts_with(rest, "{prev_version}") {
            proof {
                reveal_strlit("{prev_version}");
            }
            out.append(context.prev_version.as_str());
            rest = rest.substring_char(14, n);
        } else if str_starts_with(rest, "{tag}") {
            proof {
                reveal_strlit("{tag}");
            }
            out.append(context.tag.as_str());
            rest = rest.substring_char(5, n);
        } else if str_starts_with(rest, "{changelogPath}") {
            proof {
                reveal_strlit("{changelogPath}");
            }
            out.append(context.changelog_path.as_str());
            rest = rest.substring_char(15, n);
        } else if str_starts_with(rest, "{changelog_path}") {
            proof {
                reveal_strlit("{changelog_path}");
            }
            out.append(context.changelog_path.as_str());
            rest = rest.substring_char(16, n);
        } else if str_starts_with(rest, "{owner}") {
            proof {
                reveal_strlit("{owner}");
            }
            out.append(context.owner.as_str());
            rest = rest.substring_char(7, n);
        } else if str_starts_with(rest, "{repo}") {
            proof {
                reveal_strlit("{repo}");
            }
            out.append(context.repo.as_str());
            rest = rest.substring_char(6, n);
        } else {
            let c = rest.substring_char(0, 1);
            out.append(c);
            proof {
                assert(c@ =~= seq![rest@[0]]);
            }
            rest = rest.substring_char(1, n);
        }
    }
    proof {
        assert(interp_spec(rest@, v) =~= Seq::<char>::empty());
        assert(out@ =~= out@ + interp_spec(rest@, v));
    }
    out
}

/// Replace `{var}` placeholders with values from the context.
///
/// Public alias of [`interpolate`], used by the orchestrator to preview
/// interpolated commands for dry-run display.
pub fn interpolate_command(command: &str, context: &HookContext) -> (r: String)
    ensures
        r@ == interp_spec(command@, context.vars()),
{
    interpolate(command, context)
}

/// A prefix occurrence is an occurrence.
proof fn lemma_starts_with_contains(s: Seq<char>, p: Seq<char>)
    requires
        starts_with_spec(s, p),
    ensures
        contains_spec(s, p),
{
    assert(0 <= 0 && 0 + p.len() <= s.len() && s.subrange(0, 0 + p.len() as int) == p);
}

/// An occurrence after the first character is an occurrence.
proof fn lemma_contains_shift(s: Seq<char>, p: Seq<char>)
    requires
        s.len() >= 1,
        contains_spec(s.subrange(1, s.len() as int), p),
    ensures
        contains_spec(s, p),
{
    let t = s.subrange(1, s.len() as int);
    let i = choose|i: int|
        0 <= i && i + p.len() <= t.len() && #[trigger] t.subrange(i, i + p.len() as int) == p;
    assert(s.subrange(i + 1, i + 1 + p.len() as int) =~= t.subrange(i, i + p.len() as int));
}

/// A string in which none of the known tokens occurs is left unchanged by
/// interpolation; in particular unknown `{...}` tokens pass through.
pub proof fn lemma_interp_untouched(s: Seq<char>, v: HookVars)
    requires
        forall|x: HookVar| !contains_spec(s, #[trigger] token_of(x)),
    ensures
        interp_spec(s, v) == s,
    decreases s.len(),
{
    if s.len() == 0 {
    } else {
        assert forall|x: HookVar| !starts_with_spec(s, #[trigger] token_of(x)) by {
            if starts_with_spec(s, token_of(x)) {
                lemma_starts_with_contains(s, token_of(x));
            }
        }
        assert(!starts_with_spec(s, "{version}"@)) by {
            assert(token_of(HookVar::Version) == "{version}"@);
        }
        assert(!starts_with_spec(s, "{prevVersion}"@)) by {
            assert(token_of(HookVar::PrevVersionCamel) == "{prevVersion}"@);
        }
        assert(!starts_with_spec(s, "{prev_version}"@)) by {
            assert(token_of(HookVar::PrevVersion) == "{prev_version}"@);
        }
        assert(!starts_with_spec(s, "{tag}"@)) by {
            assert(token_of(HookVar::Tag) == "{tag}"@);
        }
        assert(!starts_with_spec(s, "{changelogPath}"@)) by {
            assert(token_of(HookVar::ChangelogPathCamel) == "{changelogPath}"@);
        }
        assert(!starts_with_spec(s, "{changelog_path}"@)) by {
            assert(token_of(HookVar::ChangelogPath) == "{changelog_path}"@);
        }
        assert(!starts_with_spec(s, "{owner}"@)) by {
            assert(token_of(HookVar::Owner) == "{owner}"@);
        }
        assert(!starts_with_spec(s, "{repo}"@)) by {
            assert(token_of(HookVar::Repo) == "{repo}"@);
        }
        let t = s.subrange(1, s.len() as int);
        assert forall|x: HookVar| !contains_spec(t, #[trigger] token_of(x)) by {
            if contains_spec(t, token_of(x)) {
                lemma_contains_shift(s, token_of(x));
            }
        }
        lemma_interp_untouched(t, v);
        assert(seq![s[0]] + t =~= s);
    }
}

/// A command that begins with a known token interpolates to that token's
/// value followed by the interpolation of the remainder.
pub proof fn lemma_interp_token_head(s: Seq<char>, v: HookVars, x: HookVar)
    requires
        starts_with_spec(s, token_of(x)),
    ensures
        interp_spec(s, v) == value_of(x, v) + interp_spec(
            s.subrange(token_of(x).len() as int, s.len() as int),
            v,
        ),
{
    reveal_strlit("{version}");
    reveal_strlit("{prevVersion}");
    reveal_strlit("{prev_version}");
    reveal_strlit("{tag}");
    reveal_strlit("{changelogPath}");
    reveal_strlit("{changelog_path}");
    reveal_strlit("{owner}");
    reveal_strlit("{repo}");
    let tok = token_of(x);
    assert(s.len() >= tok.len());
    assert(tok.len() >= 1);
    assert(s.subrange(0, tok.len() as int) == tok);
    // No token is a prefix of another: the tokens pairwise differ at
    // index 1, except the camel/snake pairs, which differ at the index
    // where the snake form holds its underscore.
    assert(s.subrange(0, tok.len() as int)[1] == s[1]);
    assert(s[1] == tok[1]);
    match x {
        HookVar::Version => {
            assert(tok[1] == 'v');
        },
        HookVar::PrevVersionCamel => {
            assert(tok[1] == 'p');
            if starts_with_spec(s, "{version}"@) {
                assert(s.subrange(0, 9)[1] == 'v');
            }
        },
        HookVar::PrevVersion => {
            assert(tok[1] == 'p');
            assert(s.subrange(0, tok.len() as int)[5] == s[5]);
            assert(s[5] == tok[5]);
            assert(tok[5] == '_');
            if starts_with_spec(s, "{version}"@) {
                assert(s.subrange(0, 9)[1] == 'v');
            }
            if starts_with_spec(s, "{prevVersion}"@) {
                assert(s.subrange(0, 13)[5] == 'V');
            }
        },
        HookVar::Tag => {
            assert(tok[1] == 't');
            if starts_with_spec(s, "{version}"@) {
                assert(s.subrange(0, 9)[1] == 'v');
            }
            if starts_with_spec(s, "{prevVersion}"@) {
                assert(s.subrange(0, 13)[1] == 'p');
            }
            if starts_with_spec(s, "{prev_version}"@) {
                assert(s.subrange(0, 14)[1] == 'p');
            }
        },
        HookVar::ChangelogPathCamel => {
            assert(tok[1] == 'c');
            if starts_with_spec(s, "{version}"@) {
                assert(s.subrange(0, 9)[1] == 'v');
            }
            if starts_with_spec(s, "{prevVersion}"@) {
                assert(s.subrange(0, 13)[1] == 'p');
            }
            if starts_with_spec(s, "{prev_version}"@) {
                assert(s.subrange(0, 14)[1] == 'p');
            }
            if starts_with_spec(s, "{tag}"@) {
                assert(s.subrange(0, 5)[1] == 't');
            }
        },
        HookVar::ChangelogPath => {
            assert(tok[1] == 'c');
            assert(s.subrange(0, tok.len() as int)[10] == s[10]);
            assert(s[10] == tok[10]);
            assert(tok[10] == '_');
            if starts_with_spec(s, "{version}"@) {
                assert(s.subrange(0, 9)[1] == 'v');
            }
            if starts_with_spec(s, "{prevVersion}"@) {
                assert(s.subrange(0, 13)[1] == 'p');
            }
            if starts_with_spec(s, "{prev_version}"@) {
                assert(s.subrange(0, 14)[1] == 'p');
            }
            if starts_with_spec(s, "{tag}"@) {
                assert(s.subrange(0, 5)[1] == 't');
            }
            if starts_with_spec(s, "{changelogPath}"@) {
                assert(s.subrange(0, 15)[10] == 'P');
            }
        },
        HookVar::Owner => {
            assert(tok[1] == 'o');
            if starts_with_spec(s, "{version}"@) {
                assert(s.subrange(0, 9)[1] == 'v');
            }
            if starts_with_spec(s, "{prevVersion}"@) {
                assert(s.subrange(0, 13)[1] == 'p');
            }
            if starts_with_spec(s, "{prev_version}"@) {
                assert(s.subrange(0, 14)[1] == 'p');
            }
            if starts_with_spec(s, "{tag}"@) {
                assert(s.subrange(0, 5)[1] == 't');
            }
            if starts_with_spec(s, "{changelogPath}"@) {
                assert(s.subrange(0, 15)[1] == 'c');
            }
            if starts_with_spec(s, "{changelog_path}"@) {
                assert(s.subrange(0, 16)[1] == 'c');
            }
        },
        HookVar::Repo => {
            assert(tok[1] == 'r');
            if starts_with_spec(s, "{version}"@) {
                assert(s.subrange(0, 9)[1] == 'v');
            }
            if starts_with_spec(s, "{prevVersion}"@) {
                assert(s.subrange(0, 13)[1] == 'p');
            }
            if starts_with_spec(s, "{prev_version}"@) {
                assert(s.subrange(0, 14)[1] == 'p');
            }
            if starts_with_spec(s, "{tag}"@) {
                assert(s.subrange(0, 5)[1] == 't');
            }
            if starts_with_spec(s, "{changelogPath}"@) {
                assert(s.subrange(0, 15)[1] == 'c');
            }
            if starts_with_spec(s, "{changelog_path}"@) {
                assert(s.subrange(0, 16)[1] == 'c');
            }
            if starts_with_spec(s, "{owner}"@) {
                assert(s.subrange(0, 7)[1] == 'o');
            }
        },
    }
}


// ──────────────────────────────────────────────
// Batch splitting
// ──────────────────────────────────────────────

/// How a batch of commands is executed.
#[derive(Debug, Clone, Copy, PartialEq, Eq, Structural)]
pub enum BatchKind {
    /// Multiple commands run concurrently.
    Parallel,
    /// A single command that runs alone (barrier).
    Sync,
    /// A single command that runs alone and pipes JSON via stdin/stdout.
    Filter,
}

/// A batch of commands to run. Sync and filter commands form single-element
/// batches.
#[derive(Debug, Clone)]
pub struct Batch {
    /// The commands of the batch, before interpolation.
    pub commands: Vec<String>,
    /// How the batch executes.
    pub kind: BatchKind,
}

/// The mathematical content of a [`Batch`].
pub ghost struct BatchV {
    /// Views of the commands.
    pub commands: Seq<Seq<char>>,
    /// How the batch executes.
    pub kind: BatchKind,
}

impl View for Batch {
    type V = BatchV;

    open spec fn view(&self) -> BatchV {
        BatchV { commands: self.commands.deep_view(), kind: self.kind }
    }
}

impl DeepView for Batch {
    type V = BatchV;

    open spec fn deep_view(&self) -> BatchV {
        self.view()
    }
}

/// Whether a command carries a barrier prefix.
pub open spec fn is_barrier_spec(c: Seq<char>) -> bool {
    starts_with_spec(c, "filter:"@) || starts_with_spec(c, "sync:"@)
}

/// A pending run of parallel commands, flushed as one batch (or nothing).
pub open spec fn flush_spec(pending: Seq<Seq<char>>) -> Seq<BatchV> {
    if pending.len() == 0 {
        Seq::empty()
    } else {
        seq![(BatchV { commands: pending, kind: BatchKind::Parallel })]
    }
}

/// A barrier command with its prefix removed and leading whitespace trimmed.
pub open spec fn barrier_remainder(c: Seq<char>, tok: Seq<char>) -> Seq<char> {
    trim_start_spec(c.subrange(tok.len() as int, c.len() as int))
}

/// The solo batch a barrier command becomes; `filter:` is checked first.
pub open spec fn solo_batch_of(c: Seq<char>) -> BatchV {
    if starts_with_spec(c, "filter:"@) {
        BatchV { commands: seq![barrier_remainder(c, "filter:"@)], kind: BatchKind::Filter }
    } else {
        BatchV { commands: seq![barrier_remainder(c, "sync:"@)], kind: BatchKind::Sync }
    }
}

/// The splitting algorithm: scan left to right keeping an accumulator of
/// pending parallel commands; a barrier flushes the accumulator and emits a
/// solo batch; the end of input flushes what remains.
pub open spec fn split_rec(cmds: Seq<Seq<char>>, pending: Seq<Seq<char>>) -> Seq<BatchV>
    decreases cmds.len(),
{
    if cmds.len() == 0 {
        flush_spec(pending)
    } else {
        let c = cmds[0];
        let rest = cmds.subrange(1, cmds.len() as int);
        if is_barrier_spec(c) {
            flush_spec(pending) + seq![solo_batch_of(c)] + split_rec(rest, Seq::empty())
        } else {
            split_rec(rest, pending.push(c))
        }
    }
}

/// What splitting a command list returns.
pub open spec fn split_spec(cmds: Seq<Seq<char>>) -> Seq<BatchV> {
    split_rec(cmds, Seq::empty())
}

/// Split commands into batches at `sync:` and `filter:` boundaries.
///
/// Each barrier command flushes the pending parallel accumulator (if any)
/// as one `Parallel` batch and then stands alone; at the end of input any
/// remaining pending commands form a final `Parallel` batch.
pub fn split_batches(commands: &Vec<String>) -> (r: Vec<Batch>)
    ensures
        r.deep_view() == split_spec(commands.deep_view()),
{
    let ghost all = commands.deep_view();
    let mut batches: Vec<Batch> = Vec::new();
    let mut pending: Vec<String> = Vec::new();
    let mut i: usize = 0;
    proof {
        assert(pending.deep_view() =~= Seq::<Seq<char>>::empty());
        assert(batches.deep_view() =~= Seq::<BatchV>::empty());
        assert(all.subrange(0, all.len() as int) =~= all);
        assert(batches.deep_view() + split_rec(all, pending.deep_view()) =~= split_spec(all));
    }
    while i < commands.len()
        invariant
            i <= commands.len(),
            all == commands.deep_view(),
            split_spec(all) == batches.deep_view() + split_rec(
                all.subrange(i as int, all.len() as int),
                pending.deep_view(),
            ),
        decreases commands.len() - i,
    {
        let cmd: &String = &commands[i];
        let ghost sub = all.subrange(i as int, all.len() as int);
        let ghost subn = all.subrange(i as int + 1, all.len() as int);
        let ghost pend0 = pending.deep_view();
        let ghost bat0 = batches.deep_view();
        proof {
            assert(sub[0] == cmd@);
            assert(sub.subrange(1, sub.len() as int) =~= subn);
        }
        if let Some(stripped) = strip_prefix_str(cmd.as_str(), "filter:") {
            let remainder = trim_start(stripped.as_str());
            if pending.len() > 0 {
                let flushed = Batch { commands: pending, kind: BatchKind::Parallel };
                batches.push(flushed);
                pending = Vec::new();
            }
            let solo = Batch { commands: vec![remainder], kind: BatchKind::Filter };
            proof {
                assert(solo.commands.deep_view() =~= seq![remainder@]);
                assert(remainder@ == barrier_remainder(cmd@, "filter:"@));
                assert(solo@ == solo_batch_of(cmd@));
            }
            batches.push(solo);
            proof {
                assert(batches.deep_view() =~= bat0 + flush_spec(pend0) + seq![solo_batch_of(cmd@)]);
                assert(pending.deep_view() =~= Seq::<Seq<char>>::empty());
                assert(split_rec(sub, pend0) == flush_spec(pend0) + seq![solo_batch_of(cmd@)]
                    + split_rec(subn, Seq::empty()));
                assert(batches.deep_view() + split_rec(subn, pending.deep_view()) =~= split_spec(
                    all,
                ));
            }
        } else if let Some(stripped) = strip_prefix_str(cmd.as_str(), "sync:") {
            let remainder = trim_start(stripped.as_str());
            if pending.len() > 0 {
                let flushed = Batch { commands: pending, kind: BatchKind::Parallel };
                batches.push(flushed);
                pending = Vec::new();
            }
            let solo = Batch { commands: vec![remainder], kind: BatchKind::Sync };
            proof {
                assert(solo.commands.deep_view() =~= seq![remainder@]);
                assert(remainder@ == barrier_remainder(cmd@, "sync:"@));
                assert(solo@ == solo_batch_of(cmd@));
            }
            batches.push(solo);
            proof {
                assert(batches.deep_view() =~= bat0 + flush_spec(pend0) + seq![solo_batch_of(cmd@)]);
                assert(pending.deep_view() =~= Seq::<Seq<char>>::empty());
                assert(split_rec(sub, pend0) == flush_spec(pend0) + seq![solo_batch_of(cmd@)]
                    + split_rec(subn, Seq::empty()));
                assert(batches.deep_view() + split_rec(subn, pending.deep_view()) =~= split_spec(
                    all,
                ));
            }
        } else {
            pending.push(cmd.clone());
            proof {
                assert(pending.deep_view() =~= pend0.push(cmd@));
                assert(split_rec(sub, pend0) == split_rec(subn, pend0.push(cmd@)));
            }
        }
        i += 1;
    }
    proof {
        assert(all.subrange(i as int, all.len() as int) =~= Seq::<Seq<char>>::empty());
    }
    if pending.len() > 0 {
        let ghost bat0 = batches.deep_view();
        let ghost pend0 = pending.deep_view();
        let flushed = Batch { commands: pending, kind: BatchKind::Parallel };
        batches.push(flushed);
        proof {
            assert(batches.deep_view() =~= bat0 + flush_spec(pend0));
        }
    } else {
        proof {
            assert(batches.deep_view() + flush_spec(pending.deep_view()) =~= batches.deep_view());
        }
    }
    batches
}

/// Splitting a list with no barrier prefixes, with anything already pending,
/// just extends the pending run.
proof fn lemma_split_rec_no_barriers(cmds: Seq<Seq<char>>, pending: Seq<Seq<char>>)
    requires
        forall|i: int| 0 <= i < cmds.len() ==> !is_barrier_spec(#[trigger] cmds[i]),
    ensures
        split_rec(cmds, pending) == flush_spec(pending + cmds),
    decreases cmds.len(),
{
    if cmds.len() == 0 {
        assert(pending + cmds =~= pending);
    } else {
        let c = cmds[0];
        let rest = cmds.subrange(1, cmds.len() as int);
        lemma_split_rec_no_barriers(rest, pending.push(c));
        assert(pending.push(c) + rest =~= pending + cmds);
    }
}

/// A non-empty list with no barrier prefixes splits into exactly one
/// `Parallel` batch holding the whole list in order.
pub proof fn lemma_split_no_barriers(cmds: Seq<Seq<char>>)
    requires
        cmds.len() > 0,
        forall|i: int| 0 <= i < cmds.len() ==> !is_barrier_spec(#[trigger] cmds[i]),
    ensures
        split_spec(cmds) == seq![(BatchV { commands: cmds, kind: BatchKind::Parallel })],
{
    lemma_split_rec_no_barriers(cmds, Seq::empty());
    assert(Seq::<Seq<char>>::empty() + cmds =~= cmds);
}

/// A list of barrier commands only splits into one solo batch per command,
/// in input order.
pub proof fn lemma_split_all_barriers(cmds: Seq<Seq<char>>)
    requires
        forall|i: int| 0 <= i < cmds.len() ==> is_barrier_spec(#[trigger] cmds[i]),
    ensures
        split_spec(cmds) == Seq::new(cmds.len(), |i: int| solo_batch_of(cmds[i])),
    decreases cmds.len(),
{
    if cmds.len() == 0 {
        assert(split_spec(cmds) =~= Seq::new(cmds.len(), |i: int| solo_batch_of(cmds[i])));
    } else {
        let rest = cmds.subrange(1, cmds.len() as int);
        lemma_split_all_barriers(rest);
        assert(split_rec(cmds, Seq::empty()) == flush_spec(Seq::empty()) + seq![
            solo_batch_of(cmds[0]),
        ] + split_rec(rest, Seq::empty()));
        assert(split_spec(cmds) =~= Seq::new(cmds.len(), |i: int| solo_batch_of(cmds[i])));
    }
}


// ──────────────────────────────────────────────
// Execution planning
// ──────────────────────────────────────────────

/// Whether `s` parses as one JSON document, as serde_json decides it.
pub uninterp spec fn is_valid_json(s: Seq<char>) -> bool;

/// Relies on `serde_json::from_str::<serde_json::Value>`: whether the text
/// is a valid JSON document. The result depends on the text alone.
#[verifier::external_body]
fn json_valid(s: &str) -> (r: bool)
    ensures
        r == is_valid_json(s@),
{
    serde_json::from_str::<serde_json::Value>(s).is_ok()
}

/// Raw result of one executed child process, as the driver observed it.
#[derive(Debug, Clone)]
pub struct CommandOutcome {
    /// Whether the process exited with status zero.
    pub success: bool,
    /// The exit code, if there was one.
    pub exit_code: Option<i32>,
    /// Captured stdout.
    pub stdout: String,
    /// Captured stderr.
    pub stderr: String,
    /// Wall-clock duration in milliseconds.
    pub duration_ms: u64,
}

/// One batch the driver must execute next: the interpolated command lines,
/// and for a filter batch the JSON to write to the child's stdin.
#[derive(Debug)]
pub struct BatchRequest {
    /// How to execute the batch.
    pub kind: BatchKind,
    /// The commands with interpolation applied, in spawn order.
    pub commands: Vec<String>,
    /// JSON for the child's stdin; present exactly for filter batches.
    pub stdin: Option<String>,
}

/// Every batch is non-empty, and barrier batches hold exactly one command.
pub open spec fn batch_wf(b: BatchV) -> bool {
    if b.kind == BatchKind::Parallel {
        b.commands.len() >= 1
    } else {
        b.commands.len() == 1
    }
}

proof fn lemma_split_rec_wf(cmds: Seq<Seq<char>>, pending: Seq<Seq<char>>)
    ensures
        forall|i: int|
            0 <= i < split_rec(cmds, pending).len() ==> batch_wf(
                #[trigger] split_rec(cmds, pending)[i],
            ),
    decreases cmds.len(),
{
    if cmds.len() == 0 {
        if pending.len() > 0 {
            assert(split_rec(cmds, pending) == seq![
                (BatchV { commands: pending, kind: BatchKind::Parallel }),
            ]);
            assert(batch_wf(split_rec(cmds, pending)[0]));
        }
    } else {
        let rest = cmds.subrange(1, cmds.len() as int);
        if is_barrier_spec(cmds[0]) {
            lemma_split_rec_wf(rest, Seq::empty());
            let head = flush_spec(pending) + seq![solo_batch_of(cmds[0])];
            let tail = split_rec(rest, Seq::empty());
            assert(batch_wf(solo_batch_of(cmds[0])));
            assert forall|i: int|
                0 <= i < split_rec(cmds, pending).len() implies batch_wf(
                #[trigger] split_rec(cmds, pending)[i],
            ) by {
                assert(split_rec(cmds, pending) == head + tail);
                if i < head.len() {
                    assert(split_rec(cmds, pending)[i] == head[i]);
                    if pending.len() > 0 && i == 0 {
                        assert(head[0] == flush_spec(pending)[0]);
                        assert(flush_spec(pending)[0] == (BatchV {
                            commands: pending,
                            kind: BatchKind::Parallel,
                        }));
                    } else {
                        assert(head[i] == solo_batch_of(cmds[0]));
                    }
                } else {
                    assert(split_rec(cmds, pending)[i] == tail[i - head.len()]);
                }
            }
        } else {
            lemma_split_rec_wf(rest, pending.push(cmds[0]));
            assert forall|i: int|
                0 <= i < split_rec(cmds, pending).len() implies batch_wf(
                #[trigger] split_rec(cmds, pending)[i],
            ) by {
                assert(split_rec(cmds, pending)[i] == split_rec(rest, pending.push(cmds[0]))[i]);
            }
        }
    }
}

/// Every batch that splitting produces is non-empty, and `sync:`/`filter:`
/// batches hold exactly one command.
pub proof fn lemma_split_wf(cmds: Seq<Seq<char>>)
    ensures
        forall|i: int|
            0 <= i < split_spec(cmds).len() ==> batch_wf(#[trigger] split_spec(cmds)[i]),
{
    lemma_split_rec_wf(cmds, Seq::empty());
}

/// Index of the first failed outcome (or the length if none failed).
pub open spec fn first_failure_spec(outs: Seq<CommandOutcome>) -> int
    decreases outs.len(),
{
    if outs.len() == 0 {
        0
    } else if !outs[0].success {
        0
    } else {
        1 + first_failure_spec(outs.subrange(1, outs.len() as int))
    }
}

proof fn lemma_first_failure_charact(outs: Seq<CommandOutcome>, j: int)
    requires
        0 <= j <= outs.len(),
        forall|k: int| 0 <= k < j ==> (#[trigger] outs[k]).success,
        j < outs.len() ==> !outs[j].success,
    ensures
        first_failure_spec(outs) == j,
    decreases outs.len(),
{
    if outs.len() == 0 {
    } else if !outs[0].success {
    } else {
        let t = outs.subrange(1, outs.len() as int);
        lemma_first_failure_charact(t, j - 1);
    }
}

/// A filter's offending output, truncated for the error report.
pub open spec fn truncate_spec(t: Seq<char>) -> Seq<char> {
    if t.len() > 200 {
        t.subrange(0, 200) + "..."@
    } else {
        t
    }
}

fn truncate_detail(t: &str) -> (r: String)
    ensures
        r@ == truncate_spec(t@),
{
    let n = t.unicode_len();
    if n > 200 {
        crate::text::str_concat(t.substring_char(0, 200), "...")
    } else {
        t.to_owned()
    }
}

/// A freshly started hook run for a command list, interpolation context
/// and initial pipeline JSON: the batches are the split of the list and
/// nothing has executed yet.
pub open spec fn hook_run_started(
    cmds: Seq<Seq<char>>,
    context: HookContext,
    pipeline_json: Option<String>,
    h: HookRun,
) -> bool {
    &&& h.batches.deep_view() == split_spec(cmds)
    &&& h.idx == 0
    &&& h.results@ == Seq::<HookOutput>::empty()
    &&& h.filter_json is None
    &&& h.initial_json == pipeline_json
    &&& h.failure is None
    &&& h.context == context
}

/// What a handed-out batch request holds: the current batch's kind, its
/// commands with interpolation applied in order, and — for a filter — the
/// chained JSON on stdin.
pub open spec fn request_for(h: HookRun, req: BatchRequest) -> bool {
    let b = h.batches@[h.idx as int]@;
    &&& req.kind == b.kind
    &&& req.commands.deep_view() == Seq::new(
        b.commands.len(),
        |k: int| interp_spec(b.commands[k], h.context.vars()),
    )
    &&& (b.kind == BatchKind::Filter ==> {
        req.stdin matches Some(j) && j@ == h.filter_stdin_spec()
    })
    &&& (b.kind != BatchKind::Filter ==> req.stdin is None)
}

/// How reporting a `Parallel`/`Sync` batch changes the run: results are
/// recorded in spawn order, index-aligned with the batch's commands; if
/// every command succeeded the run advances to the next batch, otherwise
/// the first failure in spawn order latches and the index stays put.
pub open spec fn batch_reported(pre: HookRun, outs: Seq<CommandOutcome>, post: HookRun) -> bool {
    &&& post.batches == pre.batches
    &&& post.context == pre.context
    &&& post.initial_json == pre.initial_json
    &&& post.filter_json == pre.filter_json
    &&& post.results@.len() == pre.results@.len() + outs.len()
    &&& forall|j: int| 0 <= j < pre.results@.len() ==> post.results@[j] == pre.results@[j]
    &&& forall|j: int|
        0 <= j < outs.len() ==> {
            let r = #[trigger] post.results@[pre.results@.len() + j];
            &&& r.command@ == pre.batches@[pre.idx as int]@.commands[j]
            &&& r.success == outs[j].success
            &&& r.stdout@ == outs[j].stdout@
            &&& r.stderr@ == outs[j].stderr@
            &&& r.duration_ms == outs[j].duration_ms
        }
    &&& (forall|j: int| 0 <= j < outs.len() ==> (#[trigger] outs[j]).success) ==> {
        &&& post.failure is None
        &&& post.idx == pre.idx + 1
    }
    &&& (exists|j: int| 0 <= j < outs.len() && !(#[trigger] outs[j]).success) ==> {
        let j0 = first_failure_spec(outs);
        &&& post.idx == pre.idx
        &&& post.failure matches Some(HookError::CommandFailed { command, exit_code, stderr })
            && command@ == pre.batches@[pre.idx as int]@.commands[j0] && exit_code
            == outs[j0].exit_code && stderr@ == trim_spec(outs[j0].stderr@)
    }
}

/// How reporting a `Filter` batch changes the run: a non-zero exit is a
/// command failure; invalid JSON on stdout fails the run with the
/// truncated text; valid trimmed JSON becomes the new pipeline JSON and
/// is recorded as the filter's output.
pub open spec fn filter_reported(pre: HookRun, o: CommandOutcome, post: HookRun) -> bool {
    &&& post.batches == pre.batches
    &&& post.context == pre.context
    &&& post.initial_json == pre.initial_json
    &&& !o.success ==> {
        &&& post.idx == pre.idx
        &&& post.results == pre.results
        &&& post.filter_json == pre.filter_json
        &&& post.failure matches Some(HookError::CommandFailed { command, exit_code, stderr })
            && command@ == pre.batches@[pre.idx as int]@.commands[0] && exit_code == o.exit_code
            && stderr@ == trim_spec(o.stderr@)
    }
    &&& o.success && !is_valid_json(trim_spec(o.stdout@)) ==> {
        &&& post.idx == pre.idx
        &&& post.results == pre.results
        &&& post.filter_json == pre.filter_json
        &&& post.failure matches Some(HookError::FilterOutputInvalid { command, detail })
            && command@ == pre.batches@[pre.idx as int]@.commands[0] && detail@ == truncate_spec(
            trim_spec(o.stdout@),
        )
    }
    &&& o.success && is_valid_json(trim_spec(o.stdout@)) ==> {
        &&& post.failure is None
        &&& post.idx == pre.idx + 1
        &&& post.filter_json matches Some(fj) && fj@ == trim_spec(o.stdout@)
        &&& post.results@.len() == pre.results@.len() + 1
        &&& forall|k: int| 0 <= k < pre.results@.len() ==> post.results@[k] == pre.results@[k]
        &&& {
            let r = post.results@[pre.results@.len() as int];
            &&& r.command@ == pre.batches@[pre.idx as int]@.commands[0]
            &&& r.success == true
            &&& r.stdout@ == trim_spec(o.stdout@)
            &&& r.stderr@ == o.stderr@
            &&& r.duration_ms == o.duration_ms
        }
    }
}

/// One hook list mid-execution.
///
/// The splitter fixes the batches up front; the driver repeatedly asks for
/// the [`next_request`](Self::next_request), executes it (spawning children,
/// capturing output), and reports the raw outcomes back through
/// [`report_batch`](Self::report_batch) or
/// [`report_filter`](Self::report_filter). Batches never overlap: a request
/// is only handed out after the previous batch was fully reported. The
/// driver must not write the fields directly.
#[derive(Debug)]
pub struct HookRun {
    /// Interpolation variables for this run.
    pub context: HookContext,
    /// The batches, as split from the command list.
    pub batches: Vec<Batch>,
    /// Index of the next batch to execute.
    pub idx: usize,
    /// Results collected so far, in spawn order.
    pub results: Vec<HookOutput>,
    /// Output of the last filter that ran, trimmed.
    pub filter_json: Option<String>,
    /// The initial pipeline JSON handed to the first filter.
    pub initial_json: Option<String>,
    /// The failure that ended the run, if one did.
    pub failure: Option<HookError>,
}

impl HookRun {
    /// The structural invariant: the batch index is in range and every
    /// batch is well-formed.
    pub open spec fn wf(&self) -> bool {
        &&& self.idx <= self.batches@.len()
        &&& forall|i: int| 0 <= i < self.batches@.len() ==> batch_wf(#[trigger] self.batches@[i]@)
    }

    /// The run failed.
    pub open spec fn failed_spec(&self) -> bool {
        self.failure is Some
    }

    /// All batches ran and none failed.
    pub open spec fn done_spec(&self) -> bool {
        self.failure is None && self.idx == self.batches@.len()
    }

    /// What the next filter reads on stdin: the previous filter's output if
    /// one ran, else the initial pipeline JSON, else the literal `{}`.
    pub open spec fn filter_stdin_spec(&self) -> Seq<char> {
        match self.filter_json {
            Some(j) => j@,
            None => match self.initial_json {
                Some(p) => p@,
                None => "{}"@,
            },
        }
    }

    /// Start a run: split the command list into batches.
    pub fn new(
        commands: &Vec<String>,
        context: HookContext,
        pipeline_json: Option<String>,
    ) -> (s: HookRun)
        ensures
            s.wf(),
            hook_run_started(commands.deep_view(), context, pipeline_json, s),
            s.batches.deep_view() == split_spec(commands.deep_view()),
            s.idx == 0,
            s.results@ == Seq::<HookOutput>::empty(),
            s.filter_json is None,
            s.initial_json == pipeline_json,
            s.failure is None,
            s.context == context,
    {
        let batches = split_batches(commands);
        proof {
            lemma_split_wf(commands.deep_view());
            assert forall|i: int| 0 <= i < batches@.len() implies batch_wf(
                #[trigger] batches@[i]@,
            ) by {
                assert(batches@[i]@ == batches.deep_view()[i]);
            }
        }
        HookRun {
            context,
            batches,
            idx: 0,
            results: Vec::new(),
            filter_json: None,
            initial_json: pipeline_json,
            failure: None,
        }
    }

    /// The next batch to execute, or nothing when the run is over.
    ///
    /// After a failure no request is ever handed out again: a failing
    /// command prevents all later batches from running.
    pub fn next_request(&self) -> (r: Option<BatchRequest>)
        requires
            self.wf(),
        ensures
            (r is Some) == (self.failure is None && self.idx < self.batches@.len()),
            r matches Some(req) ==> request_for(*self, req),
    {
        if self.failure.is_some() {
            return None;
        }
        if self.idx >= self.batches.len() {
            return None;
        }
        let b = &self.batches[self.idx];
        let ghost bv = b@;
        let mut cmds: Vec<String> = Vec::new();
        let mut k: usize = 0;
        while k < b.commands.len()
            invariant
                0 <= k <= b.commands.len(),
                bv == b@,
                cmds.deep_view() == Seq::new(
                    k as nat,
                    |j: int| interp_spec(bv.commands[j], self.context.vars()),
                ),
            decreases b.commands.len() - k,
        {
            let ghost prev = cmds.deep_view();
            let ghost prevseq = cmds@;
            let line = interpolate(b.commands[k].as_str(), &self.context);
            cmds.push(line);
            proof {
                assert(b.commands@[k as int]@ == bv.commands[k as int]);
                assert(cmds@ == prevseq.push(line));
                assert(prev.len() == k);
                assert(prevseq.len() == k);
                assert forall|j: int| 0 <= j < k + 1 implies cmds.deep_view()[j] == interp_spec(
                    bv.commands[j],
                    self.context.vars(),
                ) by {
                    if j < k {
                        assert(prevseq.push(line)[j] == prevseq[j]);
                        assert(cmds@[j] == prevseq[j]);
                        assert(prev[j] == prevseq[j]@);
                        assert(prev[j] == interp_spec(bv.commands[j], self.context.vars()));
                    } else {
                        assert(prevseq.push(line)[j] == line);
                        assert(cmds@[j] == line);
                    }
                }
                assert(cmds.deep_view() =~= Seq::new(
                    k as nat + 1,
                    |j: int| interp_spec(bv.commands[j], self.context.vars()),
                ));
            }
            k += 1;
        }
        let stdin: Option<String> = match b.kind {
            BatchKind::Filter => match &self.filter_json {
                Some(j) => Some(j.clone()),
                None => match &self.initial_json {
                    Some(p) => Some(p.clone()),
                    None => Some(String::from_str("{}")),
                },
            },
            _ => None,
        };
        Some(BatchRequest { kind: b.kind, commands: cmds, stdin })
    }

    /// Fold in the outcomes of a `Parallel` or `Sync` batch.
    ///
    /// Results are recorded in spawn order, index-aligned with the batch's
    /// commands, whatever order the children finished in. If any command
    /// failed, the first failure in spawn order ends the run after every
    /// outcome was recorded.
    pub fn report_batch(&mut self, outcomes: Vec<CommandOutcome>)
        requires
            old(self).wf(),
            old(self).failure is None,
            old(self).idx < old(self).batches@.len(),
            old(self).batches@[old(self).idx as int]@.kind != BatchKind::Filter,
            outcomes@.len() == old(self).batches@[old(self).idx as int]@.commands.len(),
        ensures
            final(self).wf(),
            batch_reported(*old(self), outcomes@, *final(self)),
    {
        let ghost bv = self.batches@[self.idx as int]@;
        let ghost outsv = outcomes@;
        let ghost res0 = self.results@;
        let mut first_err: Option<HookError> = None;
        let ghost mut j0: int = 0int;
        let mut j: usize = 0;
        while j < outcomes.len()
            invariant
                0 <= j <= outcomes@.len(),
                outcomes@ == outsv,
                self.batches == old(self).batches,
                self.context == old(self).context,
                self.initial_json == old(self).initial_json,
                self.filter_json == old(self).filter_json,
                self.failure == old(self).failure,
                self.idx == old(self).idx,
                old(self).idx < self.batches@.len(),
                bv == self.batches@[self.idx as int]@,
                outsv.len() == bv.commands.len(),
                self.results@.len() == res0.len() + j,
                forall|k: int| 0 <= k < res0.len() ==> self.results@[k] == res0[k],
                forall|k: int|
                    0 <= k < j ==> {
                        let r = #[trigger] self.results@[res0.len() + k];
                        &&& r.command@ == bv.commands[k]
                        &&& r.success == outsv[k].success
                        &&& r.stdout@ == outsv[k].stdout@
                        &&& r.stderr@ == outsv[k].stderr@
                        &&& r.duration_ms == outsv[k].duration_ms
                    },
                first_err is None ==> forall|k: int|
                    0 <= k < j ==> (#[trigger] outsv[k]).success,
                first_err matches Some(e) ==> {
                    &&& 0 <= j0 < j
                    &&& !outsv[j0].success
                    &&& forall|k: int| 0 <= k < j0 ==> (#[trigger] outsv[k]).success
                    &&& e matches HookError::CommandFailed { command, exit_code, stderr }
                        && command@ == bv.commands[j0] && exit_code == outsv[j0].exit_code
                        && stderr@ == trim_spec(outsv[j0].stderr@)
                },
            decreases outcomes@.len() - j,
        {
            let o = &outcomes[j];
            let cmd = &self.batches[self.idx].commands[j];
            let out = HookOutput {
                command: cmd.clone(),
                success: o.success,
                stdout: o.stdout.clone(),
                stderr: o.stderr.clone(),
                duration_ms: o.duration_ms,
            };
            self.results.push(out);
            if !o.success && first_err.is_none() {
                first_err = Some(
                    HookError::CommandFailed {
                        command: cmd.clone(),
                        exit_code: o.exit_code,
                        stderr: trim(o.stderr.as_str()),
                    },
                );
                proof {
                    j0 = j as int;
                }
            }
            j += 1;
        }
        // Reading the length bounds the index for the bump below.
        let batch_count = self.batches.len();
        proof {
            assert(self.idx < batch_count);
        }
        match first_err {
            Some(e) => {
                proof {
                    lemma_first_failure_charact(outsv, j0);
                }
                self.failure = Some(e);
            },
            None => {
                self.idx = self.idx + 1;
            },
        }
    }

    /// Fold in the outcome of a `Filter` batch.
    ///
    /// A non-zero exit is a command failure. Otherwise the trimmed stdout
    /// must be a valid JSON document: if it is, it becomes the new pipeline
    /// JSON for the rest of the list; if not, the run fails with the
    /// offending text (truncated) and nothing is recorded.
    pub fn report_filter(&mut self, outcome: CommandOutcome)
        requires
            old(self).wf(),
            old(self).failure is None,
            old(self).idx < old(self).batches@.len(),
            old(self).batches@[old(self).idx as int]@.kind == BatchKind::Filter,
        ensures
            final(self).wf(),
            filter_reported(*old(self), outcome, *final(self)),
    {
        let cmd = self.batches[self.idx].commands[0].clone();
        if !outcome.success {
            self.failure = Some(
                HookError::CommandFailed {
                    command: cmd,
                    exit_code: outcome.exit_code,
                    stderr: trim(outcome.stderr.as_str()),
                },
            );
            return ;
        }
        let trimmed = trim(outcome.stdout.as_str());
        if !json_valid(trimmed.as_str()) {
            self.failure = Some(
                HookError::FilterOutputInvalid {
                    command: cmd,
                    detail: truncate_detail(trimmed.as_str()),
                },
            );
            return ;
        }
        let out = HookOutput {
            command: cmd,
            success: true,
            stdout: trimmed.clone(),
            stderr: outcome.stderr,
            duration_ms: outcome.duration_ms,
        };
        self.results.push(out);
        self.filter_json = Some(trimmed);
        // Reading the length bounds the index for the bump below.
        let batch_count = self.batches.len();
        proof {
            assert(self.idx < batch_count);
        }
        self.idx = self.idx + 1;
    }

    /// Filter chaining drops nothing in transit: once a filter has
    /// produced output, the next filter reads exactly that output on its
    /// standard input.
    pub proof fn lemma_filter_chain(self, j: String)
        requires
            self.filter_json == Some(j),
        ensures
            self.filter_stdin_spec() == j@,
    {
    }

    /// Close the run: the collected results and the last filter output on
    /// success, the failure that stopped it otherwise.
    pub fn finish(self) -> (r: Result<RunHooksOutput, HookError>)
        requires
            self.done_spec() || self.failed_spec(),
        ensures
            self.failed_spec() ==> {
                self.failure matches Some(e) && r == Result::<RunHooksOutput, HookError>::Err(e)
            },
            !self.failed_spec() ==> {
                r matches Ok(o) && o.results == self.results && o.filter_output
                    == self.filter_json
            },
    {
        match self.failure {
            Some(e) => Err(e),
            None => Ok(
                RunHooksOutput { results: self.results, filter_output: self.filter_json },
            ),
        }
    }
}

} // verus!
