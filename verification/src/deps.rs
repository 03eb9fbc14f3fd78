//! Dependency diff — parse lockfile diffs into dependency changes.
//!
//! Turns a unified `git diff` of an ecosystem lockfile into a list of
//! [`DepChange`]s for release-notes templates and `filter:` hooks. The
//! Cargo.lock parser is a small state machine over `[[package]]` blocks;
//! the package-lock.json parser is a stub that reports nothing.

use vstd::prelude::*;
use vstd::string::*;

use crate::ecosystem::Ecosystem;
use crate::pipeline::DepChange;
use crate::text::{
    clone_opt_string, split_lines, split_lines_spec, starts_with_spec, str_starts_with, trim,
    trim_spec, trim_start, trim_start_spec,
};

verus! {

/// The mathematical content of a [`DepChange`].
pub ghost struct DepChangeV {
    /// View of the dependency name.
    pub name: Seq<char>,
    /// View of the previous version, if any.
    pub from: Option<Seq<char>>,
    /// View of the new version, if any.
    pub to: Option<Seq<char>>,
}

impl View for DepChange {
    type V = DepChangeV;

    open spec fn view(&self) -> DepChangeV {
        DepChangeV { name: self.name@, from: self.from.deep_view(), to: self.to.deep_view() }
    }
}

impl DeepView for DepChange {
    type V = DepChangeV;

    open spec fn deep_view(&self) -> DepChangeV {
        self.view()
    }
}

// ──────────────────────────────────────────────
// Ordering: changes are reported sorted by name
// ──────────────────────────────────────────────

/// Lexicographic order on character sequences (scalar-value order, which
/// for UTF-8 text coincides with byte order).
pub open spec fn lex_le(a: Seq<char>, b: Seq<char>) -> bool
    decreases a.len(),
{
    if a.len() == 0 {
        true
    } else if b.len() == 0 {
        false
    } else if (a[0] as int) < (b[0] as int) {
        true
    } else if (a[0] as int) > (b[0] as int) {
        false
    } else {
        lex_le(a.subrange(1, a.len() as int), b.subrange(1, b.len() as int))
    }
}

/// Dropping a common prefix does not change the order.
proof fn lemma_lex_le_skip(a: Seq<char>, b: Seq<char>, i: int)
    requires
        0 <= i <= a.len(),
        i <= b.len(),
        forall|k: int| 0 <= k < i ==> a[k] == b[k],
    ensures
        lex_le(a, b) == lex_le(a.subrange(i, a.len() as int), b.subrange(i, b.len() as int)),
    decreases i,
{
    if i == 0 {
        assert(a.subrange(0, a.len() as int) =~= a);
        assert(b.subrange(0, b.len() as int) =~= b);
    } else {
        let ta = a.subrange(1, a.len() as int);
        let tb = b.subrange(1, b.len() as int);
        lemma_lex_le_skip(ta, tb, i - 1);
        assert(ta.subrange(i - 1, ta.len() as int) =~= a.subrange(i, a.len() as int));
        assert(tb.subrange(i - 1, tb.len() as int) =~= b.subrange(i, b.len() as int));
    }
}

/// Lexicographic comparison of two strings.
pub fn str_le(a: &str, b: &str) -> (r: bool)
    ensures
        r == lex_le(a@, b@),
{
    let na = a.unicode_len();
    let nb = b.unicode_len();
    let mut i: usize = 0;
    while i < na && i < nb
        invariant
            0 <= i <= na,
            i <= nb,
            na == a@.len(),
            nb == b@.len(),
            forall|k: int| 0 <= k < i ==> a@[k] == b@[k],
        decreases na - i,
    {
        let ca = a.get_char(i);
        let cb = b.get_char(i);
        if ca != cb {
            proof {
                lemma_lex_le_skip(a@, b@, i as int);
            }
            return (ca as u32) < (cb as u32);
        }
        i += 1;
    }
    proof {
        lemma_lex_le_skip(a@, b@, i as int);
    }
    na <= nb
}

/// Insert a change into a name-sorted run, after any equal names (so the
/// overall sort is stable).
pub open spec fn insert_sorted_spec(c: DepChangeV, s: Seq<DepChangeV>) -> Seq<DepChangeV>
    decreases s.len(),
{
    if s.len() == 0 {
        seq![c]
    } else if lex_le(s[0].name, c.name) {
        seq![s[0]] + insert_sorted_spec(c, s.subrange(1, s.len() as int))
    } else {
        seq![c] + s
    }
}

proof fn lemma_insert_sorted_at(c: DepChangeV, s: Seq<DepChangeV>, i: int)
    requires
        0 <= i <= s.len(),
        forall|k: int| 0 <= k < i ==> lex_le((#[trigger] s[k]).name, c.name),
        i < s.len() ==> !lex_le(s[i].name, c.name),
    ensures
        insert_sorted_spec(c, s) == s.subrange(0, i) + seq![c] + s.subrange(i, s.len() as int),
    decreases s.len(),
{
    if s.len() == 0 {
        assert(insert_sorted_spec(c, s) =~= s.subrange(0, 0) + seq![c] + s.subrange(0, 0));
    } else if lex_le(s[0].name, c.name) {
        assert(i >= 1);
        let t = s.subrange(1, s.len() as int);
        assert forall|k: int| 0 <= k < i - 1 implies lex_le((#[trigger] t[k]).name, c.name) by {
            assert(t[k] == s[k + 1]);
        }
        lemma_insert_sorted_at(c, t, i - 1);
        assert(seq![s[0]] + (t.subrange(0, i - 1) + seq![c] + t.subrange(i - 1, t.len() as int))
            =~= s.subrange(0, i) + seq![c] + s.subrange(i, s.len() as int));
    } else {
        assert(i == 0);
        assert(seq![c] + s =~= s.subrange(0, 0) + seq![c] + s.subrange(0, s.len() as int));
    }
}

/// Stable insertion sort by dependency name, left to right.
pub open spec fn sort_deps_spec(s: Seq<DepChangeV>) -> Seq<DepChangeV>
    decreases s.len(),
{
    if s.len() == 0 {
        Seq::empty()
    } else {
        insert_sorted_spec(s.last(), sort_deps_spec(s.drop_last()))
    }
}

fn clone_dep(c: &DepChange) -> (r: DepChange)
    ensures
        r@ == c@,
{
    DepChange {
        name: c.name.clone(),
        from: clone_opt_string(&c.from),
        to: clone_opt_string(&c.to),
    }
}

fn insert_sorted(v: &mut Vec<DepChange>, c: DepChange)
    ensures
        final(v).deep_view() == insert_sorted_spec(c@, old(v).deep_view()),
{
    let ghost olds = v.deep_view();
    let n = v.len();
    let mut i: usize = 0;
    while i < n && str_le(v[i].name.as_str(), c.name.as_str())
        invariant
            0 <= i <= n,
            n == v@.len(),
            v.deep_view() == olds,
            forall|k: int| 0 <= k < i ==> lex_le((#[trigger] olds[k]).name, c@.name),
        decreases n - i,
    {
        proof {
            assert(v@[i as int]@ == olds[i as int]);
        }
        i += 1;
    }
    proof {
        if i < n {
            assert(v@[i as int]@ == olds[i as int]);
        }
        lemma_insert_sorted_at(c@, olds, i as int);
    }
    let ghost cv = c@;
    v.insert(i, c);
    proof {
        assert forall|k: int| 0 <= k < v.deep_view().len() implies v.deep_view()[k] == (
        olds.subrange(0, i as int) + seq![cv] + olds.subrange(i as int, olds.len() as int))[k] by {
            if k < i {
                assert(v@[k] == old(v)@[k]);
            } else if k == i {
                assert(v@[k]@ == cv);
            } else {
                assert(v@[k] == old(v)@[k - 1]);
            }
        }
        assert(v.deep_view() =~= olds.subrange(0, i as int) + seq![cv] + olds.subrange(
            i as int,
            olds.len() as int,
        ));
    }
}

fn sort_deps(changes: &Vec<DepChange>) -> (r: Vec<DepChange>)
    ensures
        r.deep_view() == sort_deps_spec(changes.deep_view()),
{
    let ghost all = changes.deep_view();
    let mut sorted: Vec<DepChange> = Vec::new();
    let mut i: usize = 0;
    proof {
        assert(all.subrange(0, 0) =~= Seq::<DepChangeV>::empty());
        assert(sorted.deep_view() =~= sort_deps_spec(all.subrange(0, 0)));
    }
    while i < changes.len()
        invariant
            0 <= i <= changes@.len(),
            all == changes.deep_view(),
            sorted.deep_view() == sort_deps_spec(all.subrange(0, i as int)),
        decreases changes@.len() - i,
    {
        let c = clone_dep(&changes[i]);
        proof {
            assert(c@ == all[i as int]);
        }
        insert_sorted(&mut sorted, c);
        proof {
            let pre = all.subrange(0, i as int + 1);
            assert(pre.drop_last() =~= all.subrange(0, i as int));
            assert(pre.last() == all[i as int]);
        }
        i += 1;
    }
    proof {
        assert(all.subrange(0, i as int) =~= all);
    }
    sorted
}

// ──────────────────────────────────────────────
// TOML line extraction
// ──────────────────────────────────────────────

/// The value of a `key = "value"` TOML line, if the line has that shape.
pub open spec fn extract_toml_spec(line: Seq<char>, key: Seq<char>) -> Option<Seq<char>> {
    let l = trim_spec(line);
    if starts_with_spec(l, key) {
        let a = trim_start_spec(l.subrange(key.len() as int, l.len() as int));
        if a.len() > 0 && a[0] == '=' {
            let b = trim_start_spec(a.subrange(1, a.len() as int));
            if b.len() > 0 && b[0] == '"' {
                let c = b.subrange(1, b.len() as int);
                if c.len() > 0 && c[c.len() - 1] == '"' {
                    Some(c.subrange(0, c.len() - 1))
                } else {
                    None
                }
            } else {
                None
            }
        } else {
            None
        }
    } else {
        None
    }
}

/// Extract a TOML string value for a given key from one line.
pub fn extract_toml_string_value(line: &str, key: &str) -> (r: Option<String>)
    ensures
        r.deep_view() == extract_toml_spec(line@, key@),
{
    let l = trim(line);
    if !str_starts_with(l.as_str(), key) {
        return None;
    }
    let ln = l.as_str().unicode_len();
    let kn = key.unicode_len();
    let a = trim_start(l.as_str().substring_char(kn, ln));
    let an = a.as_str().unicode_len();
    if an == 0 || a.as_str().get_char(0) != '=' {
        return None;
    }
    let b = trim_start(a.as_str().substring_char(1, an));
    let bn = b.as_str().unicode_len();
    if bn == 0 || b.as_str().get_char(0) != '"' {
        return None;
    }
    let c = b.as_str().substring_char(1, bn);
    let cn = c.unicode_len();
    if cn == 0 || c.get_char(cn - 1) != '"' {
        return None;
    }
    Some(c.substring_char(0, cn - 1).to_owned())
}

// ──────────────────────────────────────────────
// The Cargo.lock diff state machine
// ──────────────────────────────────────────────

/// Parser state: the current `[[package]]` block's name and version lines,
/// plus the changes emitted so far, in emission order.
pub ghost struct LockStateV {
    /// Name seen in the current block.
    pub name: Option<Seq<char>>,
    /// Version from a removed (`-`) line.
    pub oldv: Option<Seq<char>>,
    /// Version from an added (`+`) line.
    pub newv: Option<Seq<char>>,
    /// Changes emitted so far.
    pub changes: Seq<DepChangeV>,
}

/// Emit the pending block if it has a name and a changed version: at least
/// one version present, and not both present and equal.
pub open spec fn emit_push_spec(
    changes: Seq<DepChangeV>,
    name: Option<Seq<char>>,
    oldv: Option<Seq<char>>,
    newv: Option<Seq<char>>,
) -> Seq<DepChangeV> {
    match name {
        Some(nm) => {
            if oldv is None && newv is None {
                changes
            } else if oldv is Some && oldv == newv {
                changes
            } else {
                changes.push(DepChangeV { name: nm, from: oldv, to: newv })
            }
        },
        None => changes,
    }
}

/// One diff line applied to the parser state. The diff marker (space, `+`
/// or `-`) is stripped for content matching; version lines only count when
/// the raw line is a removal or addition.
pub open spec fn lock_step_spec(st: LockStateV, line: Seq<char>) -> LockStateV {
    let trimmed = if line.len() > 0 && (line[0] == ' ' || line[0] == '+' || line[0] == '-') {
        line.subrange(1, line.len() as int)
    } else {
        line
    };
    if starts_with_spec(trimmed, "[[package]]"@) {
        LockStateV {
            name: None,
            oldv: None,
            newv: None,
            changes: emit_push_spec(st.changes, st.name, st.oldv, st.newv),
        }
    } else {
        match extract_toml_spec(trimmed, "name"@) {
            Some(nm) => LockStateV { name: Some(nm), ..st },
            None => {
                if line.len() > 0 && line[0] == '-' {
                    match extract_toml_spec(trimmed, "version"@) {
                        Some(v) => LockStateV { oldv: Some(v), ..st },
                        None => st,
                    }
                } else if line.len() > 0 && line[0] == '+' {
                    match extract_toml_spec(trimmed, "version"@) {
                        Some(v) => LockStateV { newv: Some(v), ..st },
                        None => st,
                    }
                } else {
                    st
                }
            },
        }
    }
}

/// All diff lines applied in order.
pub open spec fn lock_fold_spec(lines: Seq<Seq<char>>, st: LockStateV) -> LockStateV
    decreases lines.len(),
{
    if lines.len() == 0 {
        st
    } else {
        lock_fold_spec(lines.subrange(1, lines.len() as int), lock_step_spec(st, lines[0]))
    }
}

/// What parsing a Cargo.lock diff returns: fold the lines through the
/// block state machine, emit the final pending block, and sort by name.
pub open spec fn parse_cargo_lock_spec(diff: Seq<char>) -> Seq<DepChangeV> {
    let st0 = LockStateV { name: None, oldv: None, newv: None, changes: Seq::empty() };
    let st = lock_fold_spec(split_lines_spec(diff), st0);
    sort_deps_spec(emit_push_spec(st.changes, st.name, st.oldv, st.newv))
}

/// Emit a [`DepChange`] if the block has a name and at least one version,
/// skipping blocks whose versions are present and equal.
pub fn emit_change(
    changes: &mut Vec<DepChange>,
    name: &Option<String>,
    old_version: &Option<String>,
    new_version: &Option<String>,
)
    ensures
        final(changes).deep_view() == emit_push_spec(
            old(changes).deep_view(),
            name.deep_view(),
            old_version.deep_view(),
            new_version.deep_view(),
        ),
{
    let ghost before = changes.deep_view();
    let nm = match name {
        Some(n) => n,
        None => {
            return ;
        },
    };
    if old_version.is_none() && new_version.is_none() {
        return ;
    }
    let equal = match (old_version, new_version) {
        (Some(a), Some(b)) => crate::text::str_eq(a.as_str(), b.as_str()),
        _ => false,
    };
    if equal {
        return ;
    }
    let dep = DepChange {
        name: nm.clone(),
        from: clone_opt_string(old_version),
        to: clone_opt_string(new_version),
    };
    changes.push(dep);
    proof {
        assert(changes.deep_view() =~= before.push(
            DepChangeV {
                name: name.deep_view().unwrap(),
                from: old_version.deep_view(),
                to: new_version.deep_view(),
            },
        ));
    }
}

/// Parse a unified diff of `Cargo.lock` into dependency changes, sorted by
/// dependency name.
pub fn parse_cargo_lock_diff(diff: &str) -> (r: Vec<DepChange>)
    ensures
        r.deep_view() == parse_cargo_lock_spec(diff@),
{
    let lines = split_lines(diff);
    let ghost lsv = split_lines_spec(diff@);
    let mut changes: Vec<DepChange> = Vec::new();
    let mut current_name: Option<String> = None;
    let mut old_version: Option<String> = None;
    let mut new_version: Option<String> = None;
    let ghost st0 = LockStateV { name: None, oldv: None, newv: None, changes: Seq::empty() };
    let mut i: usize = 0;
    proof {
        assert(changes.deep_view() =~= Seq::<DepChangeV>::empty());
        assert(lsv.subrange(0, lsv.len() as int) =~= lsv);
    }
    while i < lines.len()
        invariant
            0 <= i <= lines@.len(),
            lsv == lines.deep_view(),
            lock_fold_spec(
                lsv.subrange(i as int, lsv.len() as int),
                LockStateV {
                    name: current_name.deep_view(),
                    oldv: old_version.deep_view(),
                    newv: new_version.deep_view(),
                    changes: changes.deep_view(),
                },
            ) == lock_fold_spec(lsv, st0),
        decreases lines@.len() - i,
    {
        let ghost subv = lsv.subrange(i as int, lsv.len() as int);
        let ghost stv = LockStateV {
            name: current_name.deep_view(),
            oldv: old_version.deep_view(),
            newv: new_version.deep_view(),
            changes: changes.deep_view(),
        };
        proof {
            assert(subv[0] == lines@[i as int]@);
            assert(subv.subrange(1, subv.len() as int) =~= lsv.subrange(
                i as int + 1,
                lsv.len() as int,
            ));
        }
        let line = &lines[i];
        let ln = line.as_str().unicode_len();
        let has_marker = ln > 0 && {
            let c0 = line.as_str().get_char(0);
            c0 == ' ' || c0 == '+' || c0 == '-'
        };
        let trimmed: &str = if has_marker {
            line.as_str().substring_char(1, ln)
        } else {
            line.as_str()
        };
        if str_starts_with(trimmed, "[[package]]") {
            emit_change(&mut changes, &current_name, &old_version, &new_version);
            current_name = None;
            old_version = None;
            new_version = None;
        } else if let Some(nm) = extract_toml_string_value(trimmed, "name") {
            current_name = Some(nm);
        } else if ln > 0 && line.as_str().get_char(0) == '-' {
            if let Some(v) = extract_toml_string_value(trimmed, "version") {
                old_version = Some(v);
            }
        } else if ln > 0 && line.as_str().get_char(0) == '+' {
            if let Some(v) = extract_toml_string_value(trimmed, "version") {
                new_version = Some(v);
            }
        }
        proof {
            let stn = LockStateV {
                name: current_name.deep_view(),
                oldv: old_version.deep_view(),
                newv: new_version.deep_view(),
                changes: changes.deep_view(),
            };
            assert(stn == lock_step_spec(stv, subv[0]));
        }
        i += 1;
    }
    proof {
        assert(lsv.subrange(i as int, lsv.len() as int) =~= Seq::<Seq<char>>::empty());
    }
    emit_change(&mut changes, &current_name, &old_version, &new_version);
    sort_deps(&changes)
}

/// Parse a unified diff of `package-lock.json` into dependency changes.
///
/// Stub — reports nothing for now; the Node parser is deferred.
pub fn parse_package_lock_diff(diff: &str) -> (r: Vec<DepChange>)
    ensures
        r.deep_view() == Seq::<DepChangeV>::empty(),
{
    let r: Vec<DepChange> = Vec::new();
    proof {
        assert(r.deep_view() =~= Seq::<DepChangeV>::empty());
    }
    r
}

/// Compute dependency changes for the given ecosystem from the captured
/// lockfile diff; an ecosystem without a lockfile reports nothing.
pub fn compute_deps(ecosystem: Ecosystem, lockfile_diff: &str) -> (r: Vec<DepChange>)
    ensures
        ecosystem == Ecosystem::Rust ==> r.deep_view() == parse_cargo_lock_spec(lockfile_diff@),
        ecosystem != Ecosystem::Rust ==> r.deep_view() == Seq::<DepChangeV>::empty(),
{
    match ecosystem {
        Ecosystem::Rust => parse_cargo_lock_diff(lockfile_diff),
        Ecosystem::Node => parse_package_lock_diff(lockfile_diff),
        Ecosystem::Generic => {
            let r: Vec<DepChange> = Vec::new();
            proof {
                assert(r.deep_view() =~= Seq::<DepChangeV>::empty());
            }
            r
        },
    }
}

} // verus!
