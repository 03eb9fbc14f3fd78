//! Decisions and parsers over git's textual output.
//!
//! The release workflow shells out to `git` for every repository operation;
//! that plumbing lives outside this crate. What lives here is everything
//! that *reads* git's answers: working-tree cleanliness, branch names,
//! owner/repo extraction from remote URLs, diff statistics, commit lists
//! and contributor tallies — each a pure function from captured output to
//! a value, with an exact contract.

use vstd::prelude::*;
use vstd::string::*;

use crate::text::{
    find_char, find_char_spec, find_sub, find_sub_spec, first_token, first_token_spec,
    lemma_find_char_bounds, lemma_find_sub_bounds, parse_usize, parse_usize_spec, split_char,
    split_char_spec, split_lines, split_lines_spec, starts_with_spec, str_concat, str_eq,
    str_starts_with, strip_suffix_spec, strip_suffix_str, trim, trim_spec, contains_str,
    contains_spec,
};

verus! {

/// Errors from git operations.
#[derive(Debug, Clone)]
pub enum GitError {
    /// The `git` binary could not be executed at all.
    Exec(String),
    /// `git` returned a non-zero exit code.
    Command {
        /// The git subcommand that failed (e.g., `"status"`).
        command: String,
        /// Captured stderr.
        stderr: String,
    },
    /// Not inside a git repository.
    NotARepo,
}

impl GitError {
    /// The user-facing description of the error.
    pub open spec fn describe_spec(&self) -> Seq<char> {
        match self {
            GitError::Exec(m) => "failed to run git: "@ + m@,
            GitError::Command { command, stderr } => "git "@ + command@ + " failed: "@ + stderr@,
            GitError::NotARepo => "not a git repository (or any parent up to mount point)"@,
        }
    }

    /// Render the error for display.
    pub fn describe(&self) -> (r: String)
        ensures
            r@ == self.describe_spec(),
    {
        match self {
            GitError::Exec(m) => str_concat("failed to run git: ", m.as_str()),
            GitError::Command { command, stderr } => {
                let a = str_concat("git ", command.as_str());
                let b = str_concat(a.as_str(), " failed: ");
                str_concat(b.as_str(), stderr.as_str())
            },
            GitError::NotARepo => {
                String::from_str("not a git repository (or any parent up to mount point)")
            },
        }
    }
}

/// Statistics about changes since a given ref.
#[derive(Debug, Clone)]
pub struct GitStats {
    /// Number of commits since the ref.
    pub commit_count: usize,
    /// Number of files changed.
    pub files_changed: usize,
    /// Total lines inserted.
    pub insertions: usize,
    /// Total lines deleted.
    pub deletions: usize,
}

/// Whether `git status --porcelain` output means a clean working tree.
pub fn is_clean(status_output: &str) -> (r: bool)
    ensures
        r == (trim_spec(status_output@).len() == 0),
{
    let t = trim(status_output);
    t.as_str().unicode_len() == 0
}

/// The branch named by `git rev-parse --abbrev-ref HEAD` output; a detached
/// HEAD reports the literal `HEAD` and yields nothing.
pub fn current_branch(output: &str) -> (r: Option<String>)
    ensures
        (r is None) == (trim_spec(output@) == "HEAD"@),
        r matches Some(b) ==> b@ == trim_spec(output@),
{
    let t = trim(output);
    if str_eq(t.as_str(), "HEAD") {
        None
    } else {
        Some(t)
    }
}

/// Pick the release branch: `main` if it exists, else `master`, else none.
pub fn detect_release_branch(main_exists: bool, master_exists: bool) -> (r: Option<String>)
    ensures
        main_exists ==> {
            r matches Some(b) && b@ == "main"@
        },
        !main_exists && master_exists ==> {
            r matches Some(b) && b@ == "master"@
        },
        !main_exists && !master_exists ==> r is None,
{
    if main_exists {
        Some(String::from_str("main"))
    } else if master_exists {
        Some(String::from_str("master"))
    } else {
        None
    }
}

/// Whether local and remote heads agree, comparing the trimmed rev-parse
/// outputs.
pub fn is_remote_in_sync(local_head: &str, remote_head: &str) -> (r: bool)
    ensures
        r == (trim_spec(local_head@) == trim_spec(remote_head@)),
{
    let a = trim(local_head);
    let b = trim(remote_head);
    str_eq(a.as_str(), b.as_str())
}

/// Whether `git rev-parse --is-inside-work-tree` answered `true`.
pub fn is_inside_repo(output: &str) -> (r: bool)
    ensures
        r == (trim_spec(output@) == "true"@),
{
    let t = trim(output);
    str_eq(t.as_str(), "true")
}

/// The first line of sorted `git tag --list` output, trimmed; nothing when
/// there are no tags.
pub fn latest_version_tag(output: &str) -> (r: Option<String>)
    ensures
        (r is None) == (split_lines_spec(output@).len() == 0),
        r matches Some(t) ==> split_lines_spec(output@).len() > 0 && t@ == trim_spec(
            split_lines_spec(output@)[0],
        ),
{
    let lines = split_lines(output);
    if lines.len() == 0 {
        None
    } else {
        let first = &lines[0];
        proof {
            assert(first@ == split_lines_spec(output@)[0]);
        }
        Some(trim(first.as_str()))
    }
}

// ──────────────────────────────────────────────
// Remote URL parsing
// ──────────────────────────────────────────────

/// The path part of a remote URL: after `:` for `git@host:path` SSH URLs,
/// after the host's first `/` for `scheme://host/path` URLs.
pub open spec fn owner_repo_path_spec(url: Seq<char>) -> Option<Seq<char>> {
    if starts_with_spec(url, "git@"@) {
        let rest = url.subrange("git@"@.len() as int, url.len() as int);
        let i = find_char_spec(rest, ':');
        if i < rest.len() {
            Some(rest.subrange(i + 1, rest.len() as int))
        } else {
            None
        }
    } else {
        let j = find_sub_spec(url, "//"@);
        if j + "//"@.len() <= url.len() {
            let after0 = url.subrange(j + "//"@.len() as int, url.len() as int);
            let k = find_sub_spec(after0, "//"@);
            let after = if k + "//"@.len() <= after0.len() {
                after0.subrange(0, k)
            } else {
                after0
            };
            let m = find_char_spec(after, '/');
            if m < after.len() {
                Some(after.subrange(m + 1, after.len() as int))
            } else {
                None
            }
        } else {
            None
        }
    }
}

/// Owner and repository from a git remote URL: the URL's path with a
/// trailing `.git` removed, split at its first `/`; empty components or a
/// repo containing a further `/` are rejected.
pub open spec fn parse_owner_repo_spec(url: Seq<char>) -> Option<(Seq<char>, Seq<char>)> {
    match owner_repo_path_spec(url) {
        None => None,
        Some(path0) => {
            let path = match strip_suffix_spec(path0, ".git"@) {
                Some(p) => p,
                None => path0,
            };
            let q = find_char_spec(path, '/');
            if q < path.len() {
                let owner = path.subrange(0, q);
                let repo = path.subrange(q + 1, path.len() as int);
                if owner.len() == 0 || repo.len() == 0 || find_char_spec(repo, '/') < repo.len() {
                    None
                } else {
                    Some((owner, repo))
                }
            } else {
                None
            }
        },
    }
}

/// Parse owner and repo from a git remote URL.
///
/// Handles both HTTPS (`https://host/owner/repo.git`) and SSH
/// (`git@host:owner/repo.git`) forms.
pub fn parse_owner_repo(url: &str) -> (r: Option<(String, String)>)
    ensures
        r.deep_view() == parse_owner_repo_spec(url@),
{
    proof {
        reveal_strlit("git@");
        reveal_strlit("//");
        reveal_strlit(".git");
    }
    let n = url.unicode_len();
    let path0: String;
    if str_starts_with(url, "git@") {
        let rest = url.substring_char(4, n);
        let rn = rest.unicode_len();
        let i = find_char(rest, ':');
        proof {
            lemma_find_char_bounds(rest@, ':');
        }
        if i < rn {
            path0 = rest.substring_char(i + 1, rn).to_owned();
        } else {
            return None;
        }
    } else {
        let j = find_sub(url, "//");
        proof {
            lemma_find_sub_bounds(url@, "//"@);
        }
        if n >= 2 && j <= n - 2 {
            let after0 = url.substring_char(j + 2, n);
            let an = after0.unicode_len();
            let k = find_sub(after0, "//");
            proof {
                lemma_find_sub_bounds(after0@, "//"@);
            }
            let after = if an >= 2 && k <= an - 2 {
                after0.substring_char(0, k)
            } else {
                after0
            };
            let am = after.unicode_len();
            let m = find_char(after, '/');
            proof {
                lemma_find_char_bounds(after@, '/');
            }
            if m < am {
                path0 = after.substring_char(m + 1, am).to_owned();
            } else {
                return None;
            }
        } else {
            return None;
        }
    }
    let path = match strip_suffix_str(path0.as_str(), ".git") {
        Some(p) => p,
        None => path0,
    };
    let pn = path.as_str().unicode_len();
    let q = find_char(path.as_str(), '/');
    proof {
        lemma_find_char_bounds(path@, '/');
    }
    if q >= pn {
        return None;
    }
    let owner = path.as_str().substring_char(0, q).to_owned();
    let repo = path.as_str().substring_char(q + 1, pn).to_owned();
    let rn2 = repo.as_str().unicode_len();
    let qr = find_char(repo.as_str(), '/');
    proof {
        lemma_find_char_bounds(repo@, '/');
    }
    if owner.as_str().unicode_len() == 0 || rn2 == 0 || qr < rn2 {
        return None;
    }
    Some((owner, repo))
}

// ──────────────────────────────────────────────
// Diff statistics
// ──────────────────────────────────────────────

/// Fold one comma-separated part of a diff summary into `(files,
/// insertions, deletions)`: the part's first number lands in the slot its
/// keyword names.
pub open spec fn stat_of_part_spec(part: Seq<char>, acc: (int, int, int)) -> (int, int, int) {
    let p = trim_spec(part);
    let num = match parse_usize_spec(first_token_spec(p)) {
        Some(v) => v,
        None => 0,
    };
    if contains_spec(p, "file"@) {
        (num, acc.1, acc.2)
    } else if contains_spec(p, "insertion"@) {
        (acc.0, num, acc.2)
    } else if contains_spec(p, "deletion"@) {
        (acc.0, acc.1, num)
    } else {
        acc
    }
}

/// Fold all parts, left to right.
pub open spec fn stats_fold_spec(parts: Seq<Seq<char>>, acc: (int, int, int)) -> (int, int, int)
    decreases parts.len(),
{
    if parts.len() == 0 {
        acc
    } else {
        stats_fold_spec(parts.subrange(1, parts.len() as int), stat_of_part_spec(parts[0], acc))
    }
}

/// What `parse_diff_stat` returns: the summary (last) line of
/// `git diff --stat` output, split at commas, folded into the triple.
pub open spec fn parse_diff_stat_spec(output: Seq<char>) -> (int, int, int) {
    let ls = split_lines_spec(output);
    if ls.len() == 0 {
        (0, 0, 0)
    } else {
        stats_fold_spec(split_char_spec(ls[ls.len() - 1], ','), (0, 0, 0))
    }
}

/// Parse the summary line from `git diff --stat`, e.g.
/// ` 3 files changed, 42 insertions(+), 10 deletions(-)`.
pub fn parse_diff_stat(output: &str) -> (r: (usize, usize, usize))
    ensures
        (r.0 as int, r.1 as int, r.2 as int) == parse_diff_stat_spec(output@),
{
    let lines = split_lines(output);
    if lines.len() == 0 {
        return (0, 0, 0);
    }
    let summary = &lines[lines.len() - 1];
    proof {
        assert(summary@ == split_lines_spec(output@)[split_lines_spec(output@).len() - 1]);
    }
    let parts = split_char(summary.as_str(), ',');
    let ghost partsv = split_char_spec(summary@, ',');
    let mut files: usize = 0;
    let mut insertions: usize = 0;
    let mut deletions: usize = 0;
    let mut i: usize = 0;
    proof {
        assert(partsv.subrange(0, partsv.len() as int) =~= partsv);
    }
    while i < parts.len()
        invariant
            0 <= i <= parts@.len(),
            partsv == parts.deep_view(),
            stats_fold_spec(partsv.subrange(i as int, partsv.len() as int), (files as int, insertions as int, deletions as int))
                == stats_fold_spec(partsv, (0, 0, 0)),
        decreases parts@.len() - i,
    {
        let ghost subv = partsv.subrange(i as int, partsv.len() as int);
        proof {
            assert(subv[0] == parts@[i as int]@);
            assert(subv.subrange(1, subv.len() as int) =~= partsv.subrange(
                i as int + 1,
                partsv.len() as int,
            ));
        }
        let part = &parts[i];
        let p = trim(part.as_str());
        let tok = first_token(p.as_str());
        let num: usize = match parse_usize(tok.as_str()) {
            Some(v) => v,
            None => 0,
        };
        if contains_str(p.as_str(), "file") {
            files = num;
        } else if contains_str(p.as_str(), "insertion") {
            insertions = num;
        } else if contains_str(p.as_str(), "deletion") {
            deletions = num;
        }
        i += 1;
    }
    proof {
        assert(partsv.subrange(i as int, partsv.len() as int) =~= Seq::<Seq<char>>::empty());
    }
    (files, insertions, deletions)
}

/// Count the non-empty lines of a ref-list or log output.
pub open spec fn count_nonempty_spec(ls: Seq<Seq<char>>) -> int
    decreases ls.len(),
{
    if ls.len() == 0 {
        0
    } else {
        (if ls[0].len() > 0 {
            1int
        } else {
            0int
        }) + count_nonempty_spec(ls.subrange(1, ls.len() as int))
    }
}

/// Build release statistics from captured `git log --oneline` output (one
/// line per commit) and `git diff --stat` output.
pub fn stats_since(log_output: &str, diff_output: &str) -> (r: GitStats)
    ensures
        r.commit_count as int == count_nonempty_spec(split_lines_spec(log_output@)),
        (r.files_changed as int, r.insertions as int, r.deletions as int) == parse_diff_stat_spec(
            diff_output@,
        ),
{
    let lines = split_lines(log_output);
    let ghost lsv = split_lines_spec(log_output@);
    let mut count: usize = 0;
    let mut i: usize = 0;
    proof {
        assert(lsv.subrange(0, lsv.len() as int) =~= lsv);
    }
    while i < lines.len()
        invariant
            0 <= i <= lines@.len(),
            lsv == lines.deep_view(),
            count <= i,
            count as int + count_nonempty_spec(lsv.subrange(i as int, lsv.len() as int))
                == count_nonempty_spec(lsv),
        decreases lines@.len() - i,
    {
        let ghost subv = lsv.subrange(i as int, lsv.len() as int);
        proof {
            assert(subv[0] == lines@[i as int]@);
            assert(subv.subrange(1, subv.len() as int) =~= lsv.subrange(
                i as int + 1,
                lsv.len() as int,
            ));
        }
        if lines[i].as_str().unicode_len() != 0 {
            count = count + 1;
        }
        i += 1;
    }
    proof {
        assert(lsv.subrange(i as int, lsv.len() as int) =~= Seq::<Seq<char>>::empty());
    }
    let stat = parse_diff_stat(diff_output);
    GitStats { commit_count: count, files_changed: stat.0, insertions: stat.1, deletions: stat.2 }
}

// ──────────────────────────────────────────────
// Commit lists and contributors
// ──────────────────────────────────────────────

/// One `--format=%h %s` log line as `(short_hash, subject)`; a line with no
/// space is all hash, with an empty subject.
pub open spec fn commit_of_line_spec(l: Seq<char>) -> (Seq<char>, Seq<char>) {
    let i = find_char_spec(l, ' ');
    if i < l.len() {
        (l.subrange(0, i), l.subrange(i + 1, l.len() as int))
    } else {
        (l, Seq::empty())
    }
}

/// The commits of a log output: non-empty lines, each split at the first
/// space.
pub open spec fn commits_spec(ls: Seq<Seq<char>>) -> Seq<(Seq<char>, Seq<char>)>
    decreases ls.len(),
{
    if ls.len() == 0 {
        Seq::empty()
    } else if ls[0].len() == 0 {
        commits_spec(ls.subrange(1, ls.len() as int))
    } else {
        seq![commit_of_line_spec(ls[0])] + commits_spec(ls.subrange(1, ls.len() as int))
    }
}

/// Parse `git log --format="%h %s"` output into `(short_hash, subject)`
/// pairs, newest first.
pub fn recent_commits(output: &str) -> (r: Vec<(String, String)>)
    ensures
        r.deep_view() == commits_spec(split_lines_spec(output@)),
{
    let lines = split_lines(output);
    let ghost lsv = split_lines_spec(output@);
    let mut acc: Vec<(String, String)> = Vec::new();
    let mut i: usize = 0;
    proof {
        assert(acc.deep_view() + commits_spec(lsv) =~= commits_spec(lsv));
        assert(lsv.subrange(0, lsv.len() as int) =~= lsv);
    }
    while i < lines.len()
        invariant
            0 <= i <= lines@.len(),
            lsv == lines.deep_view(),
            acc.deep_view() + commits_spec(lsv.subrange(i as int, lsv.len() as int))
                == commits_spec(lsv),
        decreases lines@.len() - i,
    {
        let ghost subv = lsv.subrange(i as int, lsv.len() as int);
        let ghost prev = acc.deep_view();
        proof {
            assert(subv[0] == lines@[i as int]@);
            assert(subv.subrange(1, subv.len() as int) =~= lsv.subrange(
                i as int + 1,
                lsv.len() as int,
            ));
        }
        let line = &lines[i];
        let ln = line.as_str().unicode_len();
        if ln != 0 {
            let sp = find_char(line.as_str(), ' ');
            proof {
                lemma_find_char_bounds(line@, ' ');
            }
            let pair: (String, String) = if sp < ln {
                (
                    line.as_str().substring_char(0, sp).to_owned(),
                    line.as_str().substring_char(sp + 1, ln).to_owned(),
                )
            } else {
                (line.clone(), String::new())
            };
            proof {
                assert(pair.deep_view() == commit_of_line_spec(subv[0]));
            }
            acc.push(pair);
            proof {
                assert(acc.deep_view() =~= prev + seq![commit_of_line_spec(subv[0])]);
            }
        }
        i += 1;
    }
    proof {
        assert(lsv.subrange(i as int, lsv.len() as int) =~= Seq::<Seq<char>>::empty());
        assert(acc.deep_view() =~= commits_spec(lsv));
    }
    acc
}

/// One shortlog line as `(name, commit_count)`: trimmed, split at the first
/// tab (or space), the count parsed; lines that fit neither shape drop out.
pub open spec fn contributor_of_line_spec(l: Seq<char>) -> Option<(Seq<char>, usize)> {
    let t = trim_spec(l);
    let it = find_char_spec(t, '\t');
    let isp = find_char_spec(t, ' ');
    let split = if it < t.len() {
        Some((t.subrange(0, it), t.subrange(it + 1, t.len() as int)))
    } else if isp < t.len() {
        Some((t.subrange(0, isp), t.subrange(isp + 1, t.len() as int)))
    } else {
        None
    };
    match split {
        None => None,
        Some(pair) => match parse_usize_spec(trim_spec(pair.0)) {
            Some(c) => Some((trim_spec(pair.1), c as usize)),
            None => None,
        },
    }
}

/// The contributors of a shortlog output: at most `limit` non-empty lines,
/// each parsed into a name and count where possible.
pub open spec fn contributors_spec(ls: Seq<Seq<char>>, limit: int) -> Seq<(Seq<char>, usize)>
    decreases ls.len(),
{
    if ls.len() == 0 || limit <= 0 {
        Seq::empty()
    } else if ls[0].len() == 0 {
        contributors_spec(ls.subrange(1, ls.len() as int), limit)
    } else {
        match contributor_of_line_spec(ls[0]) {
            Some(p) => seq![p] + contributors_spec(ls.subrange(1, ls.len() as int), limit - 1),
            None => contributors_spec(ls.subrange(1, ls.len() as int), limit - 1),
        }
    }
}

/// Parse `git shortlog -sn` output into `(name, commit_count)` pairs,
/// keeping at most `limit` lines.
pub fn contributors_since(output: &str, limit: usize) -> (r: Vec<(String, usize)>)
    ensures
        r.deep_view() == contributors_spec(split_lines_spec(output@), limit as int),
{
    let lines = split_lines(output);
    let ghost lsv = split_lines_spec(output@);
    let mut acc: Vec<(String, usize)> = Vec::new();
    let mut left: usize = limit;
    let mut i: usize = 0;
    proof {
        assert(acc.deep_view() + contributors_spec(lsv, limit as int) =~= contributors_spec(
            lsv,
            limit as int,
        ));
        assert(lsv.subrange(0, lsv.len() as int) =~= lsv);
    }
    while i < lines.len() && left > 0
        invariant
            0 <= i <= lines@.len(),
            left <= limit,
            lsv == lines.deep_view(),
            acc.deep_view() + contributors_spec(
                lsv.subrange(i as int, lsv.len() as int),
                left as int,
            ) == contributors_spec(lsv, limit as int),
        decreases lines@.len() - i,
    {
        let ghost subv = lsv.subrange(i as int, lsv.len() as int);
        let ghost prev = acc.deep_view();
        proof {
            assert(subv[0] == lines@[i as int]@);
            assert(subv.subrange(1, subv.len() as int) =~= lsv.subrange(
                i as int + 1,
                lsv.len() as int,
            ));
        }
        let line = &lines[i];
        if line.as_str().unicode_len() != 0 {
            let t = trim(line.as_str());
            let tn = t.as_str().unicode_len();
            let it = find_char(t.as_str(), '\t');
            let isp = find_char(t.as_str(), ' ');
            proof {
                lemma_find_char_bounds(t@, '\t');
                lemma_find_char_bounds(t@, ' ');
            }
            let split: Option<(String, String)> = if it < tn {
                Some(
                    (
                        t.as_str().substring_char(0, it).to_owned(),
                        t.as_str().substring_char(it + 1, tn).to_owned(),
                    ),
                )
            } else if isp < tn {
                Some(
                    (
                        t.as_str().substring_char(0, isp).to_owned(),
                        t.as_str().substring_char(isp + 1, tn).to_owned(),
                    ),
                )
            } else {
                None
            };
            if let Some(pair) = split {
                let cs = trim(pair.0.as_str());
                if let Some(c) = parse_usize(cs.as_str()) {
                    let name = trim(pair.1.as_str());
                    acc.push((name, c));
                    proof {
                        assert(contributor_of_line_spec(subv[0]) matches Some(p) && p
                            == acc.deep_view()[prev.len() as int]);
                        assert(acc.deep_view() =~= prev + seq![
                            contributor_of_line_spec(subv[0]).unwrap(),
                        ]);
                    }
                } else {
                    proof {
                        assert(contributor_of_line_spec(subv[0]) is None);
                    }
                }
            }
            left = left - 1;
        }
        i += 1;
    }
    proof {
        if i >= lines@.len() {
            assert(lsv.subrange(i as int, lsv.len() as int) =~= Seq::<Seq<char>>::empty());
        }
        assert(acc.deep_view() =~= contributors_spec(lsv, limit as int));
    }
    acc
}

} // verus!
