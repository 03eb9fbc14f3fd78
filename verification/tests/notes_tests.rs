use scrat::notes::{BUILTIN_TEMPLATE, PreviewNotesOptions, resolve_template};

#[test]
fn builtin_template_is_non_empty() {
    assert!(!BUILTIN_TEMPLATE.is_empty());
    assert!(BUILTIN_TEMPLATE.contains("version"));
}

#[test]
fn resolve_template_prefers_option() {
    assert_eq!(
        resolve_template(&Some("a.tera".into()), &Some("b.tera".into())),
        Some("a.tera".into())
    );
    assert_eq!(resolve_template(&None, &Some("b.tera".into())), Some("b.tera".into()));
    assert_eq!(resolve_template(&None, &None), None);
}

#[test]
fn preview_options_hold_overrides() {
    let opts = PreviewNotesOptions {
        from: Some("v1.0.0".into()),
        version: None,
        template: None,
        no_deps: true,
        no_stats: false,
    };
    assert_eq!(opts.from.as_deref(), Some("v1.0.0"));
    assert!(opts.no_deps);
}
