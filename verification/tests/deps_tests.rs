use scrat::deps::{
    compute_deps, emit_change, extract_toml_string_value, parse_cargo_lock_diff,
    parse_package_lock_diff,
};
use scrat::ecosystem::Ecosystem;
use scrat::pipeline::DepChange;

#[test]
fn parse_cargo_lock_diff_update() {
    let diff = r#"
 [[package]]
 name = "serde"
-version = "1.0.0"
+version = "1.0.1"
 source = "registry+https://github.com/rust-lang/crates.io-index"
"#;
    let changes = parse_cargo_lock_diff(diff);
    assert_eq!(changes.len(), 1);
    assert_eq!(changes[0].name, "serde");
    assert_eq!(changes[0].from.as_deref(), Some("1.0.0"));
    assert_eq!(changes[0].to.as_deref(), Some("1.0.1"));
}

#[test]
fn parse_cargo_lock_diff_added() {
    let diff = r#"
+[[package]]
+name = "new-crate"
+version = "0.1.0"
+source = "registry+https://github.com/rust-lang/crates.io-index"
"#;
    let changes = parse_cargo_lock_diff(diff);
    assert_eq!(changes.len(), 1);
    assert_eq!(changes[0].name, "new-crate");
    assert_eq!(changes[0].from, None);
    assert_eq!(changes[0].to.as_deref(), Some("0.1.0"));
}

#[test]
fn parse_cargo_lock_diff_removed() {
    let diff = r#"
-[[package]]
-name = "old-crate"
-version = "2.0.0"
-source = "registry+https://github.com/rust-lang/crates.io-index"
"#;
    let changes = parse_cargo_lock_diff(diff);
    assert_eq!(changes.len(), 1);
    assert_eq!(changes[0].name, "old-crate");
    assert_eq!(changes[0].from.as_deref(), Some("2.0.0"));
    assert_eq!(changes[0].to, None);
}

#[test]
fn parse_cargo_lock_diff_mixed() {
    let diff = r#"
 [[package]]
 name = "serde"
-version = "1.0.0"
+version = "1.0.1"
 source = "registry+https://github.com/rust-lang/crates.io-index"
+[[package]]
+name = "new-crate"
+version = "0.1.0"
+source = "registry+https://github.com/rust-lang/crates.io-index"
-[[package]]
-name = "old-crate"
-version = "2.0.0"
-source = "registry+https://github.com/rust-lang/crates.io-index"
"#;
    let changes = parse_cargo_lock_diff(diff);
    assert_eq!(changes.len(), 3);
    assert_eq!(changes[0].name, "new-crate");
    assert_eq!(changes[1].name, "old-crate");
    assert_eq!(changes[2].name, "serde");
}

#[test]
fn parse_cargo_lock_diff_empty() {
    let changes = parse_cargo_lock_diff("");
    assert!(changes.is_empty());
}

#[test]
fn parse_cargo_lock_diff_no_version_change() {
    let diff = r#"
 [[package]]
 name = "unchanged"
 version = "1.0.0"
 source = "registry+https://github.com/rust-lang/crates.io-index"
-dependencies = []
+dependencies = ["foo"]
"#;
    let changes = parse_cargo_lock_diff(diff);
    assert!(changes.is_empty());
}

#[test]
fn parse_cargo_lock_diff_sorted() {
    let diff = r#"
 [[package]]
 name = "zebra"
-version = "1.0.0"
+version = "2.0.0"
 [[package]]
 name = "alpha"
-version = "0.1.0"
+version = "0.2.0"
 [[package]]
 name = "middle"
-version = "3.0.0"
+version = "3.1.0"
"#;
    let changes = parse_cargo_lock_diff(diff);
    assert_eq!(changes.len(), 3);
    assert_eq!(changes[0].name, "alpha");
    assert_eq!(changes[1].name, "middle");
    assert_eq!(changes[2].name, "zebra");
}

#[test]
fn compute_deps_node_returns_empty() {
    let changes = parse_package_lock_diff("some diff content");
    assert!(changes.is_empty());
}

#[test]
fn extract_toml_string_value_basic() {
    assert_eq!(
        extract_toml_string_value(r#"name = "serde""#, "name"),
        Some("serde".into())
    );
    assert_eq!(
        extract_toml_string_value(r#"version = "1.0.0""#, "version"),
        Some("1.0.0".into())
    );
}

#[test]
fn extract_toml_string_value_no_match() {
    assert_eq!(
        extract_toml_string_value(r#"source = "registry""#, "name"),
        None
    );
    assert_eq!(extract_toml_string_value("not a toml line", "name"), None);
}

#[test]
fn compute_deps_dispatches_by_ecosystem() {
    let diff = " [[package]]\n name = \"serde\"\n-version = \"1.0.0\"\n+version = \"1.0.1\"\n";
    assert_eq!(compute_deps(Ecosystem::Rust, diff).len(), 1);
    assert!(compute_deps(Ecosystem::Node, diff).is_empty());
    assert!(compute_deps(Ecosystem::Generic, diff).is_empty());
}

#[test]
fn emit_change_skips_equal_versions() {
    let mut changes: Vec<DepChange> = Vec::new();
    emit_change(
        &mut changes,
        &Some("serde".into()),
        &Some("1.0.0".into()),
        &Some("1.0.0".into()),
    );
    assert!(changes.is_empty());
    emit_change(&mut changes, &None, &Some("1.0.0".into()), &None);
    assert!(changes.is_empty());
    emit_change(
        &mut changes,
        &Some("serde".into()),
        &Some("1.0.0".into()),
        &Some("1.0.1".into()),
    );
    assert_eq!(changes.len(), 1);
    assert_eq!(changes[0].name, "serde");
}
