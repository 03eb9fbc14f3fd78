//! Verified string primitives.
//!
//! Everything in the crate that reads or builds text goes through these
//! helpers: prefix tests, searching, trimming, line splitting and digit
//! parsing, each with an exact sequence-level contract.

use vstd::prelude::*;
use vstd::string::*;

verus! {

/// Whitespace for trimming purposes: space, tab, newline, carriage return.
pub open spec fn is_space_char(c: char) -> bool {
    c == ' ' || c == '\t' || c == '\n' || c == '\r'
}

/// Whether `c` counts as whitespace for trimming.
pub fn is_space(c: char) -> (b: bool)
    ensures
        b == is_space_char(c),
{
    c == ' ' || c == '\t' || c == '\n' || c == '\r'
}

/// Index of the first occurrence of `c` in `s`, or `s.len()` if absent.
pub open spec fn find_char_spec(s: Seq<char>, c: char) -> int
    decreases s.len(),
{
    if s.len() == 0 {
        0
    } else if s[0] == c {
        0
    } else {
        1 + find_char_spec(s.subrange(1, s.len() as int), c)
    }
}

/// `find_char_spec` returns the first occurrence (or the length).
pub proof fn lemma_find_char_bounds(s: Seq<char>, c: char)
    ensures
        0 <= find_char_spec(s, c) <= s.len(),
        find_char_spec(s, c) < s.len() ==> s[find_char_spec(s, c)] == c,
        forall|k: int| 0 <= k < find_char_spec(s, c) ==> s[k] != c,
    decreases s.len(),
{
    if s.len() == 0 {
    } else if s[0] == c {
    } else {
        let t = s.subrange(1, s.len() as int);
        lemma_find_char_bounds(t, c);
        assert forall|k: int| 0 <= k < find_char_spec(s, c) implies s[k] != c by {
            if k > 0 {
                assert(t[k - 1] == s[k]);
            }
        }
    }
}

/// Any index with the first-occurrence property equals `find_char_spec`.
pub proof fn lemma_find_char_charact(s: Seq<char>, c: char, i: int)
    requires
        0 <= i <= s.len(),
        forall|k: int| 0 <= k < i ==> s[k] != c,
        i < s.len() ==> s[i] == c,
    ensures
        find_char_spec(s, c) == i,
{
    lemma_find_char_bounds(s, c);
    let f = find_char_spec(s, c);
    if f < i {
        assert(s[f] != c);
    } else if i < f {
        assert(s[i] != c);
    }
}

/// First occurrence of `c` in `s`, or the character length of `s` if absent.
pub fn find_char(s: &str, c: char) -> (r: usize)
    ensures
        r as int == find_char_spec(s@, c),
{
    let n = s.unicode_len();
    let mut i: usize = 0;
    while i < n
        invariant
            0 <= i <= n,
            n == s@.len(),
            forall|k: int| 0 <= k < i ==> s@[k] != c,
        decreases n - i,
    {
        if s.get_char(i) == c {
            proof {
                lemma_find_char_charact(s@, c, i as int);
            }
            return i;
        }
        i += 1;
    }
    proof {
        lemma_find_char_charact(s@, c, n as int);
    }
    n
}

/// Whether `p` occurs in `s` starting at position `i`.
fn match_at(s: &str, p: &str, i: usize) -> (b: bool)
    requires
        0 <= i as int,
        i as int + p@.len() <= s@.len(),
    ensures
        b == (s@.subrange(i as int, i as int + p@.len() as int) == p@),
{
    let n = s.unicode_len();
    let m = p.unicode_len();
    let mut j: usize = 0;
    while j < m
        invariant
            0 <= j <= m,
            m == p@.len(),
            n == s@.len(),
            i as int + m <= s@.len(),
            forall|k: int| 0 <= k < j ==> s@[i as int + k] == p@[k],
        decreases m - j,
    {
        if s.get_char(i + j) != p.get_char(j) {
            proof {
                let sub = s@.subrange(i as int, i as int + m);
                if sub == p@ {
                    assert(sub[j as int] == p@[j as int]);
                    assert(sub[j as int] == s@[i as int + j]);
                }
            }
            return false;
        }
        j += 1;
    }
    proof {
        assert(s@.subrange(i as int, i as int + m) =~= p@);
    }
    true
}

/// Whether `p` is a prefix of `s`.
pub open spec fn starts_with_spec(s: Seq<char>, p: Seq<char>) -> bool {
    p.len() <= s.len() && s.subrange(0, p.len() as int) == p
}

/// Prefix test.
pub fn str_starts_with(s: &str, p: &str) -> (b: bool)
    ensures
        b == starts_with_spec(s@, p@),
{
    if p.unicode_len() > s.unicode_len() {
        return false;
    }
    match_at(s, p, 0)
}

/// Character-wise string equality.
pub fn str_eq(s: &str, p: &str) -> (b: bool)
    ensures
        b == (s@ == p@),
{
    if s.unicode_len() != p.unicode_len() {
        proof {
            if s@ == p@ {
                assert(s@.len() == p@.len());
            }
        }
        return false;
    }
    let r = match_at(s, p, 0);
    proof {
        assert(s@.subrange(0, p@.len() as int) =~= s@);
    }
    r
}

/// Whether `p` occurs anywhere in `s`.
pub open spec fn contains_spec(s: Seq<char>, p: Seq<char>) -> bool {
    exists|i: int|
        0 <= i && i + p.len() <= s.len() && #[trigger] s.subrange(i, i + p.len() as int) == p
}

/// Substring search.
pub fn contains_str(s: &str, p: &str) -> (b: bool)
    ensures
        b == contains_spec(s@, p@),
{
    let n = s.unicode_len();
    let m = p.unicode_len();
    if m > n {
        return false;
    }
    if m == 0 {
        proof {
            assert(s@.subrange(0, 0 + p@.len() as int) =~= p@);
        }
        return true;
    }
    let mut i: usize = 0;
    while i <= n - m
        invariant
            0 <= i,
            i as int <= n - m + 1,
            m == p@.len(),
            n == s@.len(),
            1 <= m <= n,
            forall|j: int| 0 <= j < i ==> #[trigger] s@.subrange(j, j + m) != p@,
        decreases n - m + 1 - i,
    {
        if match_at(s, p, i) {
            assert(contains_spec(s@, p@)) by {
                assert(s@.subrange(i as int, i as int + m) == p@);
            }
            return true;
        }
        i += 1;
    }
    proof {
        if contains_spec(s@, p@) {
            let j = choose|j: int|
                0 <= j && j + p@.len() <= s@.len() && #[trigger] s@.subrange(
                    j,
                    j + p@.len() as int,
                ) == p@;
            assert(j < i);
        }
    }
    false
}

/// Index of the first occurrence of `p` in `s`, or `s.len()` if absent.
pub open spec fn find_sub_spec(s: Seq<char>, p: Seq<char>) -> int
    decreases s.len(),
{
    if p.len() <= s.len() && s.subrange(0, p.len() as int) == p {
        0
    } else if s.len() == 0 {
        0
    } else {
        1 + find_sub_spec(s.subrange(1, s.len() as int), p)
    }
}

/// `find_sub_spec` stays within bounds and marks a match when it finds one.
pub proof fn lemma_find_sub_bounds(s: Seq<char>, p: Seq<char>)
    ensures
        0 <= find_sub_spec(s, p) <= s.len(),
        find_sub_spec(s, p) + p.len() <= s.len() ==> s.subrange(
            find_sub_spec(s, p),
            find_sub_spec(s, p) + p.len() as int,
        ) == p,
    decreases s.len(),
{
    if p.len() <= s.len() && s.subrange(0, p.len() as int) == p {
    } else if s.len() == 0 {
    } else {
        let t = s.subrange(1, s.len() as int);
        lemma_find_sub_bounds(t, p);
        let f = find_sub_spec(s, p);
        if f + p.len() <= s.len() {
            assert(t.subrange(f - 1, f - 1 + p.len() as int) =~= s.subrange(
                f,
                f + p.len() as int,
            ));
        }
    }
}

/// Any index with the first-occurrence property equals `find_sub_spec`.
proof fn lemma_find_sub_charact(s: Seq<char>, p: Seq<char>, i: int)
    requires
        0 <= i <= s.len(),
        forall|k: int|
            0 <= k < i ==> #[trigger] s.subrange(k, k + p.len() as int) != p || k + p.len()
                > s.len(),
        i + p.len() <= s.len() ==> s.subrange(i, i + p.len() as int) == p,
        i < s.len() ==> i + p.len() <= s.len(),
    ensures
        find_sub_spec(s, p) == i,
    decreases s.len(),
{
    if p.len() <= s.len() && s.subrange(0, p.len() as int) == p {
        if i > 0 {
            assert(s.subrange(0, 0 + p.len() as int) == p);
        }
    } else if s.len() == 0 {
    } else {
        let t = s.subrange(1, s.len() as int);
        assert(i >= 1) by {
            if i == 0 {
                if i + p.len() <= s.len() {
                    assert(s.subrange(0, p.len() as int) == p);
                }
            }
        }
        assert forall|k: int|
            0 <= k < i - 1 implies #[trigger] t.subrange(k, k + p.len() as int) != p || k
            + p.len() > t.len() by {
            if k + p.len() <= t.len() {
                assert(s.subrange(k + 1, k + 1 + p.len() as int) =~= t.subrange(
                    k,
                    k + p.len() as int,
                ));
            }
        }
        if i - 1 + p.len() <= t.len() {
            assert(t.subrange(i - 1, i - 1 + p.len() as int) =~= s.subrange(
                i,
                i + p.len() as int,
            ));
        }
        lemma_find_sub_charact(t, p, i - 1);
    }
}

/// First occurrence of `p` in `s`, or the character length of `s` if absent.
/// A found index `r` always satisfies `r + p.len() <= s.len()`.
pub fn find_sub(s: &str, p: &str) -> (r: usize)
    requires
        p@.len() >= 1,
    ensures
        r as int == find_sub_spec(s@, p@),
{
    let n = s.unicode_len();
    let m = p.unicode_len();
    if m > n {
        proof {
            lemma_find_sub_charact(s@, p@, n as int);
        }
        return n;
    }
    let mut i: usize = 0;
    while i <= n - m
        invariant
            0 <= i,
            i as int <= n - m + 1,
            m == p@.len(),
            n == s@.len(),
            1 <= m <= n,
            forall|j: int| 0 <= j < i ==> #[trigger] s@.subrange(j, j + m) != p@,
        decreases n - m + 1 - i,
    {
        if match_at(s, p, i) {
            proof {
                lemma_find_sub_charact(s@, p@, i as int);
            }
            return i;
        }
        i += 1;
    }
    proof {
        assert forall|k: int|
            0 <= k < n implies #[trigger] s@.subrange(k, k + p@.len() as int) != p@ || k
            + p@.len() > s@.len() by {
            if k + m <= n {
                assert(k < i);
            }
        }
        lemma_find_sub_charact(s@, p@, n as int);
    }
    n
}

/// Drop leading whitespace.
pub open spec fn trim_start_spec(s: Seq<char>) -> Seq<char>
    decreases s.len(),
{
    if s.len() == 0 {
        s
    } else if is_space_char(s[0]) {
        trim_start_spec(s.subrange(1, s.len() as int))
    } else {
        s
    }
}

/// Drop trailing whitespace.
pub open spec fn trim_end_spec(s: Seq<char>) -> Seq<char>
    decreases s.len(),
{
    if s.len() == 0 {
        s
    } else if is_space_char(s[s.len() - 1]) {
        trim_end_spec(s.subrange(0, s.len() - 1))
    } else {
        s
    }
}

/// Drop whitespace at both ends.
pub open spec fn trim_spec(s: Seq<char>) -> Seq<char> {
    trim_end_spec(trim_start_spec(s))
}

/// If positions `0..a` hold whitespace and `a` does not, trimming the start
/// keeps exactly `s[a..]`.
pub proof fn lemma_trim_start_at(s: Seq<char>, a: int)
    requires
        0 <= a <= s.len(),
        forall|k: int| 0 <= k < a ==> is_space_char(s[k]),
        a < s.len() ==> !is_space_char(s[a]),
    ensures
        trim_start_spec(s) == s.subrange(a, s.len() as int),
    decreases a,
{
    if a == 0 {
        assert(s.subrange(0, s.len() as int) =~= s);
    } else {
        let t = s.subrange(1, s.len() as int);
        lemma_trim_start_at(t, a - 1);
        assert(t.subrange(a - 1, t.len() as int) =~= s.subrange(a, s.len() as int));
    }
}

/// If positions `b..len` hold whitespace and `b - 1` does not, trimming the
/// end keeps exactly `s[..b]`.
pub proof fn lemma_trim_end_at(s: Seq<char>, b: int)
    requires
        0 <= b <= s.len(),
        forall|k: int| b <= k < s.len() ==> is_space_char(s[k]),
        b > 0 ==> !is_space_char(s[b - 1]),
    ensures
        trim_end_spec(s) == s.subrange(0, b),
    decreases s.len(),
{
    if s.len() == 0 {
        assert(s.subrange(0, 0) =~= s);
    } else if is_space_char(s[s.len() - 1]) {
        let t = s.subrange(0, s.len() - 1);
        assert(b < s.len());
        lemma_trim_end_at(t, b);
        assert(t.subrange(0, b) =~= s.subrange(0, b));
    } else {
        assert(b == s.len());
        assert(s.subrange(0, s.len() as int) =~= s);
    }
}

/// Trim whitespace from both ends.
pub fn trim(s: &str) -> (r: String)
    ensures
        r@ == trim_spec(s@),
{
    let n = s.unicode_len();
    let mut a: usize = 0;
    while a < n && is_space(s.get_char(a))
        invariant
            0 <= a <= n,
            n == s@.len(),
            forall|k: int| 0 <= k < a ==> is_space_char(s@[k]),
        decreases n - a,
    {
        a += 1;
    }
    if a == n {
        proof {
            lemma_trim_start_at(s@, a as int);
            assert(s@.subrange(n as int, n as int) =~= Seq::<char>::empty());
        }
        return String::new();
    }
    let mut b: usize = n;
    while b > a + 1 && is_space(s.get_char(b - 1))
        invariant
            a as int + 1 <= b <= n,
            n == s@.len(),
            a < n,
            !is_space_char(s@[a as int]),
            forall|k: int| b <= k < n ==> is_space_char(s@[k]),
        decreases b,
    {
        b -= 1;
    }
    // Either b == a + 1, or s[b - 1] is not whitespace; in both cases the
    // character before b is not whitespace (at b == a + 1 it is s[a]).
    proof {
        lemma_trim_start_at(s@, a as int);
        let t = s@.subrange(a as int, n as int);
        lemma_trim_end_at(t, b - a);
        assert(t.subrange(0, b - a) =~= s@.subrange(a as int, b as int));
    }
    s.substring_char(a, b).to_owned()
}

/// Trim whitespace from the start only.
pub fn trim_start(s: &str) -> (r: String)
    ensures
        r@ == trim_start_spec(s@),
{
    let n = s.unicode_len();
    let mut a: usize = 0;
    while a < n && is_space(s.get_char(a))
        invariant
            0 <= a <= n,
            n == s@.len(),
            forall|k: int| 0 <= k < a ==> is_space_char(s@[k]),
        decreases n - a,
    {
        a += 1;
    }
    proof {
        lemma_trim_start_at(s@, a as int);
    }
    s.substring_char(a, n).to_owned()
}

/// Concatenate two string slices.
pub fn str_concat(a: &str, b: &str) -> (r: String)
    ensures
        r@ == a@ + b@,
{
    let mut s = a.to_owned();
    s.append(b);
    s
}

/// Clone an optional string, keeping its value visible to the verifier.
pub fn clone_opt_string(o: &Option<String>) -> (r: Option<String>)
    ensures
        r == *o,
{
    match o {
        Some(s) => Some(s.clone()),
        None => None,
    }
}

/// `p` removed from the front of `s`, when it is a prefix.
pub open spec fn strip_prefix_spec(s: Seq<char>, p: Seq<char>) -> Option<Seq<char>> {
    if starts_with_spec(s, p) {
        Some(s.subrange(p.len() as int, s.len() as int))
    } else {
        None
    }
}

/// Remove a prefix, if present.
pub fn strip_prefix_str(s: &str, p: &str) -> (r: Option<String>)
    ensures
        r.deep_view() == strip_prefix_spec(s@, p@),
{
    if str_starts_with(s, p) {
        Some(s.substring_char(p.unicode_len(), s.unicode_len()).to_owned())
    } else {
        None
    }
}

/// `p` removed from the back of `s`, when it is a suffix.
pub open spec fn strip_suffix_spec(s: Seq<char>, p: Seq<char>) -> Option<Seq<char>> {
    if p.len() <= s.len() && s.subrange(s.len() - p.len(), s.len() as int) == p {
        Some(s.subrange(0, s.len() - p.len()))
    } else {
        None
    }
}

/// Remove a suffix, if present.
pub fn strip_suffix_str(s: &str, p: &str) -> (r: Option<String>)
    ensures
        r.deep_view() == strip_suffix_spec(s@, p@),
{
    let n = s.unicode_len();
    let m = p.unicode_len();
    if m > n {
        return None;
    }
    if match_at(s, p, n - m) {
        Some(s.substring_char(0, n - m).to_owned())
    } else {
        None
    }
}

/// A final carriage return removed, as the line splitter does.
pub open spec fn strip_cr_spec(l: Seq<char>) -> Seq<char> {
    if l.len() > 0 && l[l.len() - 1] == '\r' {
        l.subrange(0, l.len() - 1)
    } else {
        l
    }
}

fn strip_cr(l: &str) -> (r: String)
    ensures
        r@ == strip_cr_spec(l@),
{
    let n = l.unicode_len();
    if n > 0 && l.get_char(n - 1) == '\r' {
        l.substring_char(0, n - 1).to_owned()
    } else {
        l.to_owned()
    }
}

/// The lines of `s`: split at `'\n'`, a trailing `'\r'` dropped from each
/// line, and no empty final line for input that ends in a newline.
pub open spec fn split_lines_spec(s: Seq<char>) -> Seq<Seq<char>>
    decreases s.len(),
{
    if s.len() == 0 {
        Seq::empty()
    } else {
        let i = find_char_spec(s, '\n');
        if 0 <= i && i < s.len() {
            seq![strip_cr_spec(s.subrange(0, i))] + split_lines_spec(
                s.subrange(i + 1, s.len() as int),
            )
        } else {
            seq![strip_cr_spec(s)]
        }
    }
}

/// Split into lines.
pub fn split_lines(s: &str) -> (r: Vec<String>)
    ensures
        r.deep_view() == split_lines_spec(s@),
{
    let mut acc: Vec<String> = Vec::new();
    let mut rest: &str = s;
    proof {
        assert(acc.deep_view() + split_lines_spec(rest@) =~= split_lines_spec(s@));
    }
    while rest.unicode_len() != 0
        invariant
            acc.deep_view() + split_lines_spec(rest@) == split_lines_spec(s@),
        decreases rest@.len(),
    {
        let n = rest.unicode_len();
        let i = find_char(rest, '\n');
        proof {
            lemma_find_char_bounds(rest@, '\n');
        }
        if i == n {
            let ghost prev = acc.deep_view();
            acc.push(strip_cr(rest));
            proof {
                assert(acc.deep_view() =~= prev + seq![strip_cr_spec(rest@)]);
                assert(acc.deep_view() =~= split_lines_spec(s@));
            }
            rest = rest.substring_char(n, n);
            proof {
                assert(split_lines_spec(rest@) =~= Seq::<Seq<char>>::empty());
                assert(acc.deep_view() + split_lines_spec(rest@) =~= acc.deep_view());
            }
        } else {
            let head = rest.substring_char(0, i);
            let ghost prev = acc.deep_view();
            acc.push(strip_cr(head));
            rest = rest.substring_char(i + 1, n);
            proof {
                assert(acc.deep_view() =~= prev + seq![strip_cr_spec(head@)]);
                assert(acc.deep_view() + split_lines_spec(rest@) =~= split_lines_spec(s@));
            }
        }
    }
    proof {
        assert(split_lines_spec(rest@) =~= Seq::<Seq<char>>::empty());
        assert(acc.deep_view() =~= split_lines_spec(s@));
    }
    acc
}

/// The fields of `s` split at every occurrence of `c`; an empty input gives
/// one empty field, as `str::split` does.
pub open spec fn split_char_spec(s: Seq<char>, c: char) -> Seq<Seq<char>>
    decreases s.len(),
{
    let i = find_char_spec(s, c);
    if 0 <= i && i < s.len() {
        seq![s.subrange(0, i)] + split_char_spec(s.subrange(i + 1, s.len() as int), c)
    } else {
        seq![s]
    }
}

/// Split at a separator character.
pub fn split_char(s: &str, c: char) -> (r: Vec<String>)
    ensures
        r.deep_view() == split_char_spec(s@, c),
{
    let mut acc: Vec<String> = Vec::new();
    let mut rest: &str = s;
    proof {
        assert(acc.deep_view() + split_char_spec(rest@, c) =~= split_char_spec(s@, c));
    }
    loop
        invariant
            acc.deep_view() + split_char_spec(rest@, c) == split_char_spec(s@, c),
        decreases rest@.len(),
    {
        let n = rest.unicode_len();
        let i = find_char(rest, c);
        proof {
            lemma_find_char_bounds(rest@, c);
        }
        if i == n {
            let ghost prev = acc.deep_view();
            acc.push(rest.to_owned());
            proof {
                assert(acc.deep_view() =~= prev + seq![rest@]);
                assert(acc.deep_view() =~= split_char_spec(s@, c));
            }
            return acc;
        }
        let head = rest.substring_char(0, i);
        let ghost prev = acc.deep_view();
        acc.push(head.to_owned());
        rest = rest.substring_char(i + 1, n);
        proof {
            assert(acc.deep_view() =~= prev + seq![head@]);
            assert(acc.deep_view() + split_char_spec(rest@, c) =~= split_char_spec(s@, c));
        }
    }
}

/// The run of non-whitespace characters at the front of `s`.
pub open spec fn token_take_spec(s: Seq<char>) -> Seq<char>
    decreases s.len(),
{
    if s.len() == 0 || is_space_char(s[0]) {
        Seq::empty()
    } else {
        seq![s[0]] + token_take_spec(s.subrange(1, s.len() as int))
    }
}

/// The first whitespace-separated token of `s` (empty if none).
pub open spec fn first_token_spec(s: Seq<char>) -> Seq<char> {
    token_take_spec(trim_start_spec(s))
}

/// A stretch of non-whitespace at the front is exactly what `token_take_spec`
/// keeps.
proof fn lemma_token_take_at(s: Seq<char>, j: int)
    requires
        0 <= j <= s.len(),
        forall|k: int| 0 <= k < j ==> !is_space_char(s[k]),
        j < s.len() ==> is_space_char(s[j]),
    ensures
        token_take_spec(s) == s.subrange(0, j),
    decreases j,
{
    if j == 0 {
        assert(s.subrange(0, 0) =~= Seq::<char>::empty());
    } else {
        let t = s.subrange(1, s.len() as int);
        lemma_token_take_at(t, j - 1);
        assert(seq![s[0]] + t.subrange(0, j - 1) =~= s.subrange(0, j));
    }
}

/// First whitespace-separated token (empty string if the input is blank).
pub fn first_token(s: &str) -> (r: String)
    ensures
        r@ == first_token_spec(s@),
{
    let n = s.unicode_len();
    let mut a: usize = 0;
    while a < n && is_space(s.get_char(a))
        invariant
            0 <= a <= n,
            n == s@.len(),
            forall|k: int| 0 <= k < a ==> is_space_char(s@[k]),
        decreases n - a,
    {
        a += 1;
    }
    proof {
        lemma_trim_start_at(s@, a as int);
    }
    let mut b: usize = a;
    while b < n && !is_space(s.get_char(b))
        invariant
            a <= b <= n,
            n == s@.len(),
            forall|k: int| a <= k < b ==> !is_space_char(s@[k]),
        decreases n - b,
    {
        b += 1;
    }
    proof {
        let t = s@.subrange(a as int, n as int);
        lemma_token_take_at(t, b - a);
        assert(t.subrange(0, b - a) =~= s@.subrange(a as int, b as int));
    }
    s.substring_char(a, b).to_owned()
}

/// The parts joined with `", "` between them.
pub open spec fn join_comma_spec(parts: Seq<Seq<char>>) -> Seq<char>
    decreases parts.len(),
{
    if parts.len() == 0 {
        Seq::empty()
    } else if parts.len() == 1 {
        parts[0]
    } else {
        parts[0] + ", "@ + join_comma_spec(parts.subrange(1, parts.len() as int))
    }
}

/// Join strings with a comma and space.
pub fn join_comma(parts: &Vec<String>) -> (r: String)
    ensures
        r@ == join_comma_spec(parts.deep_view()),
{
    let ghost all = parts.deep_view();
    let mut out = String::new();
    let mut i: usize = 0;
    proof {
        assert(all.subrange(0, all.len() as int) =~= all);
    }
    while i < parts.len()
        invariant
            0 <= i <= parts@.len(),
            all == parts.deep_view(),
            out@ + join_comma_spec(all.subrange(i as int, all.len() as int)) == join_comma_spec(
                all,
            ),
        decreases parts@.len() - i,
    {
        let ghost subv = all.subrange(i as int, all.len() as int);
        proof {
            assert(subv[0] == parts@[i as int]@);
            assert(subv.subrange(1, subv.len() as int) =~= all.subrange(
                i as int + 1,
                all.len() as int,
            ));
        }
        out.append(parts[i].as_str());
        if i + 1 < parts.len() {
            out.append(", ");
        }
        i += 1;
    }
    proof {
        assert(join_comma_spec(all.subrange(i as int, all.len() as int)) =~= Seq::<char>::empty());
        assert(out@ =~= out@ + join_comma_spec(all.subrange(i as int, all.len() as int)));
    }
    out
}

/// The parts joined with an arbitrary separator between them.
pub open spec fn join_with_spec(parts: Seq<Seq<char>>, sep: Seq<char>) -> Seq<char>
    decreases parts.len(),
{
    if parts.len() == 0 {
        Seq::empty()
    } else if parts.len() == 1 {
        parts[0]
    } else {
        parts[0] + sep + join_with_spec(parts.subrange(1, parts.len() as int), sep)
    }
}

/// Join strings with a separator.
pub fn join_with(parts: &Vec<String>, sep: &str) -> (r: String)
    ensures
        r@ == join_with_spec(parts.deep_view(), sep@),
{
    let ghost all = parts.deep_view();
    let mut out = String::new();
    let mut i: usize = 0;
    proof {
        assert(all.subrange(0, all.len() as int) =~= all);
    }
    while i < parts.len()
        invariant
            0 <= i <= parts@.len(),
            all == parts.deep_view(),
            out@ + join_with_spec(all.subrange(i as int, all.len() as int), sep@)
                == join_with_spec(all, sep@),
        decreases parts@.len() - i,
    {
        let ghost subv = all.subrange(i as int, all.len() as int);
        proof {
            assert(subv[0] == parts@[i as int]@);
            assert(subv.subrange(1, subv.len() as int) =~= all.subrange(
                i as int + 1,
                all.len() as int,
            ));
        }
        out.append(parts[i].as_str());
        if i + 1 < parts.len() {
            out.append(sep);
        }
        i += 1;
    }
    proof {
        assert(join_with_spec(all.subrange(i as int, all.len() as int), sep@) =~= Seq::<
            char,
        >::empty());
        assert(out@ =~= out@ + join_with_spec(all.subrange(i as int, all.len() as int), sep@));
    }
    out
}

/// Decimal digit test.
pub open spec fn is_digit_char(c: char) -> bool {
    48 <= c as int <= 57
}

/// All characters are decimal digits.
pub open spec fn all_digits_spec(s: Seq<char>) -> bool {
    forall|k: int| 0 <= k < s.len() ==> is_digit_char(#[trigger] s[k])
}

/// Numeric value of a digit string.
pub open spec fn digits_val_spec(s: Seq<char>) -> int
    decreases s.len(),
{
    if s.len() == 0 {
        0
    } else {
        digits_val_spec(s.drop_last()) * 10 + (s.last() as int - 48)
    }
}

proof fn lemma_digits_val_nonneg(s: Seq<char>)
    requires
        all_digits_spec(s),
    ensures
        digits_val_spec(s) >= 0,
    decreases s.len(),
{
    if s.len() > 0 {
        assert(all_digits_spec(s.drop_last())) by {
            assert(forall|k: int|
                0 <= k < s.len() - 1 ==> #[trigger] s.drop_last()[k] == s[k]);
        }
        lemma_digits_val_nonneg(s.drop_last());
    }
}

proof fn lemma_digits_val_prefix_le(s: Seq<char>, i: int)
    requires
        all_digits_spec(s),
        0 <= i <= s.len(),
    ensures
        digits_val_spec(s.subrange(0, i)) <= digits_val_spec(s),
    decreases s.len() - i,
{
    if i < s.len() {
        let t = s.subrange(0, i + 1);
        lemma_digits_val_prefix_le(s, i + 1);
        assert(t.drop_last() =~= s.subrange(0, i));
        assert(all_digits_spec(t.drop_last())) by {
            assert(forall|k: int| 0 <= k < i ==> #[trigger] s.subrange(0, i)[k] == s[k]);
        }
        lemma_digits_val_nonneg(t.drop_last());
        assert(digits_val_spec(t) == digits_val_spec(t.drop_last()) * 10 + (t.last() as int - 48));
        assert(digits_val_spec(t.drop_last()) * 10 >= digits_val_spec(t.drop_last()));
        assert(t.last() == s[i]);
        assert(is_digit_char(t.last()));
        assert(digits_val_spec(s.subrange(0, i)) <= digits_val_spec(t));
    } else {
        assert(s.subrange(0, i) =~= s);
    }
}

/// What parsing a decimal string must return: the value when the string is
/// non-empty, all digits, and in range; nothing otherwise.
pub open spec fn parse_usize_spec(s: Seq<char>) -> Option<int> {
    if s.len() > 0 && all_digits_spec(s) && digits_val_spec(s) <= usize::MAX as int {
        Some(digits_val_spec(s))
    } else {
        None
    }
}

/// An `Option<usize>` as a mathematical option.
pub open spec fn opt_usize_as_int(o: Option<usize>) -> Option<int> {
    match o {
        Some(v) => Some(v as int),
        None => None,
    }
}

/// Parse a non-negative decimal integer; anything else is rejected.
pub fn parse_usize(s: &str) -> (r: Option<usize>)
    ensures
        opt_usize_as_int(r) == parse_usize_spec(s@),
{
    let n = s.unicode_len();
    if n == 0 {
        return None;
    }
    let mut acc: usize = 0;
    let mut i: usize = 0;
    while i < n
        invariant
            0 <= i <= n,
            n == s@.len(),
            forall|k: int| 0 <= k < i ==> is_digit_char(#[trigger] s@[k]),
            acc as int == digits_val_spec(s@.subrange(0, i as int)),
        decreases n - i,
    {
        let c = s.get_char(i);
        let cv = c as u32;
        if cv < 48 || cv > 57 {
            proof {
                assert(!is_digit_char(s@[i as int]));
            }
            return None;
        }
        let d = cv - 48;
        let total: u128 = acc as u128 * 10 + d as u128;
        proof {
            let t = s@.subrange(0, i as int + 1);
            assert(t.drop_last() =~= s@.subrange(0, i as int));
            assert(t.last() == s@[i as int]);
            assert(digits_val_spec(t) == acc as int * 10 + (c as int - 48));
        }
        if total > usize::MAX as u128 {
            proof {
                let t = s@.subrange(0, i as int + 1);
                if all_digits_spec(s@) {
                    lemma_digits_val_prefix_le(s@, i as int + 1);
                    assert(t =~= s@.subrange(0, i as int + 1));
                    assert(digits_val_spec(s@) > usize::MAX as int);
                }
            }
            return None;
        }
        acc = total as usize;
        i += 1;
    }
    proof {
        assert(s@.subrange(0, n as int) =~= s@);
    }
    Some(acc)
}

} // verus!
