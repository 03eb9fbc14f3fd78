use scrat::clock::{iso_date_from_secs, u64_to_string};
use scrat::stats::compute_stats;
use scrat::git::GitStats;
use scrat::text::{
    contains_str, find_char, find_sub, first_token, join_comma, parse_usize, split_char,
    split_lines, str_concat, str_eq, str_starts_with, strip_prefix_str, strip_suffix_str, trim,
    trim_start,
};

#[test]
fn trim_strips_both_ends() {
    assert_eq!(trim("  hello \t\n"), "hello");
    assert_eq!(trim(""), "");
    assert_eq!(trim("   "), "");
    assert_eq!(trim("x"), "x");
}

#[test]
fn trim_start_strips_leading_only() {
    assert_eq!(trim_start("  a b "), "a b ");
}

#[test]
fn split_lines_matches_std() {
    assert_eq!(split_lines("a\nb"), vec!["a", "b"]);
    assert_eq!(split_lines("a\nb\n"), vec!["a", "b"]);
    assert_eq!(split_lines("a\r\nb"), vec!["a", "b"]);
    assert_eq!(split_lines("a\n\nb"), vec!["a", "", "b"]);
    assert!(split_lines("").is_empty());
}

#[test]
fn split_char_keeps_empty_fields() {
    assert_eq!(split_char("a,b,", ','), vec!["a", "b", ""]);
    assert_eq!(split_char("", ','), vec![""]);
}

#[test]
fn parse_usize_accepts_digits_only() {
    assert_eq!(parse_usize("42"), Some(42));
    assert_eq!(parse_usize("0"), Some(0));
    assert_eq!(parse_usize(""), None);
    assert_eq!(parse_usize("4x2"), None);
    assert_eq!(parse_usize("-1"), None);
    assert_eq!(parse_usize("99999999999999999999999999"), None);
}

#[test]
fn searching_and_prefixes() {
    assert_eq!(find_char("hello", 'l'), 2);
    assert_eq!(find_char("hello", 'z'), 5);
    assert_eq!(find_sub("a//b//c", "//"), 1);
    assert_eq!(find_sub("abc", "//"), 3);
    assert!(str_starts_with("filter: jq", "filter:"));
    assert!(!str_starts_with("sync: jq", "filter:"));
    assert!(contains_str("2 files changed", "file"));
    assert!(!contains_str("2 insertions", "file"));
    assert!(str_eq("abc", "abc"));
    assert!(!str_eq("abc", "abd"));
}

#[test]
fn strip_helpers() {
    assert_eq!(strip_prefix_str("filter: jq", "filter:"), Some(" jq".to_string()));
    assert_eq!(strip_prefix_str("jq", "filter:"), None);
    assert_eq!(strip_suffix_str("repo.git", ".git"), Some("repo".to_string()));
    assert_eq!(strip_suffix_str("repo", ".git"), None);
}

#[test]
fn first_token_takes_leading_word() {
    assert_eq!(first_token("  cargo test  "), "cargo");
    assert_eq!(first_token(""), "");
    assert_eq!(first_token("   "), "");
}

#[test]
fn join_comma_separates() {
    assert_eq!(join_comma(&vec!["a".to_string(), "b".to_string(), "c".to_string()]), "a, b, c");
    assert_eq!(join_comma(&vec!["solo".to_string()]), "solo");
    assert_eq!(join_comma(&vec![]), "");
}

#[test]
fn str_concat_joins() {
    assert_eq!(str_concat("foo", "bar"), "foobar");
}

#[test]
fn u64_renders_decimal() {
    assert_eq!(u64_to_string(0), "0");
    assert_eq!(u64_to_string(7), "7");
    assert_eq!(u64_to_string(1234567890), "1234567890");
}

#[test]
fn iso_date_known_values() {
    assert_eq!(iso_date_from_secs(0), "1970-01-01");
    assert_eq!(iso_date_from_secs(946_684_800), "2000-01-01");
    // 2024-02-29 starts at day 19782
    assert_eq!(iso_date_from_secs(19_782 * 86_400), "2024-02-29");
    assert_eq!(iso_date_from_secs(10_956 * 86_400), "1999-12-31");
    // 2100 is not a leap year, 2400 is
    assert_eq!(iso_date_from_secs(47_540 * 86_400), "2100-02-28");
    assert_eq!(iso_date_from_secs(47_541 * 86_400), "2100-03-01");
    assert_eq!(iso_date_from_secs(157_113 * 86_400), "2400-02-29");
}

#[test]
fn compute_stats_maps_git_data() {
    let stats = compute_stats(
        Some(GitStats { commit_count: 5, files_changed: 3, insertions: 42, deletions: 10 }),
        Some(vec![("Alice".to_string(), 4), ("Bob".to_string(), 1)]),
    )
    .expect("stats present");
    assert_eq!(stats.commit_count, 5);
    assert_eq!(stats.files_changed, 3);
    assert_eq!(stats.insertions, 42);
    assert_eq!(stats.deletions, 10);
    assert_eq!(stats.contributors.len(), 2);
    assert_eq!(stats.contributors[0].name, "Alice");
    assert_eq!(stats.contributors[0].count, 4);
}

#[test]
fn compute_stats_none_without_git_stats() {
    assert!(compute_stats(None, Some(vec![("A".to_string(), 1)])).is_none());
    let no_contribs = compute_stats(
        Some(GitStats { commit_count: 1, files_changed: 1, insertions: 1, deletions: 0 }),
        None,
    )
    .expect("stats present");
    assert!(no_contribs.contributors.is_empty());
}
