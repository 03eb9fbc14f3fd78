use scrat::pipeline::{
    Contributor, DepChange, PipelineContext, PipelineContextInit, ReleaseStats, iso_date_today,
};

fn test_init() -> PipelineContextInit {
    PipelineContextInit {
        version: "1.2.3".into(),
        previous_version: "1.1.0".into(),
        tag: "v1.2.3".into(),
        previous_tag: "v1.1.0".into(),
        owner: "claylo".into(),
        repo: "scrat".into(),
        repo_url: Some("https://github.com/claylo/scrat".into()),
        branch: Some("main".into()),
        ecosystem: "rust".into(),
        changelog_path: "CHANGELOG.md".into(),
        dry_run: false,
    }
}

#[test]
fn new_sets_version_fields() {
    let ctx = PipelineContext::new(test_init());
    assert_eq!(ctx.version, "1.2.3");
    assert_eq!(ctx.previous_version, "1.1.0");
    assert_eq!(ctx.tag, "v1.2.3");
    assert_eq!(ctx.previous_tag, "v1.1.0");
}

#[test]
fn new_computes_date() {
    let ctx = PipelineContext::new(test_init());
    assert_eq!(ctx.date.len(), 10);
    assert_eq!(ctx.date.as_bytes()[4], b'-');
    assert_eq!(ctx.date.as_bytes()[7], b'-');
}

#[test]
fn new_starts_with_empty_phase_results() {
    let ctx = PipelineContext::new(test_init());
    assert!(ctx.stats.is_none());
    assert!(ctx.dependencies.is_empty());
    assert!(!ctx.changelog_updated);
    assert!(ctx.modified_files.is_empty());
    assert!(ctx.commit_hash.is_none());
    assert!(ctx.release_url.is_none());
    assert!(ctx.assets.is_empty());
    assert!(ctx.metadata.is_empty());
}

#[test]
fn hook_context_derives_correctly() {
    let ctx = PipelineContext::new(test_init());
    let hc = ctx.hook_context();
    assert_eq!(hc.version, "1.2.3");
    assert_eq!(hc.prev_version, "1.1.0");
    assert_eq!(hc.tag, "v1.2.3");
    assert_eq!(hc.changelog_path, "CHANGELOG.md");
    assert_eq!(hc.owner, "claylo");
    assert_eq!(hc.repo, "scrat");
}

#[test]
fn record_bump_updates_fields() {
    let mut ctx = PipelineContext::new(test_init());
    ctx.record_bump(true, vec!["Cargo.toml".into(), "CHANGELOG.md".into()]);
    assert!(ctx.changelog_updated);
    assert_eq!(ctx.modified_files, vec!["Cargo.toml", "CHANGELOG.md"]);
}

#[test]
fn record_git_updates_fields() {
    let mut ctx = PipelineContext::new(test_init());
    ctx.record_git(Some("abc1234".into()), Some("main".into()));
    assert_eq!(ctx.commit_hash.as_deref(), Some("abc1234"));
    assert_eq!(ctx.branch.as_deref(), Some("main"));
}

#[test]
fn record_git_preserves_branch_when_none() {
    let mut ctx = PipelineContext::new(test_init());
    assert_eq!(ctx.branch.as_deref(), Some("main"));
    ctx.record_git(Some("abc1234".into()), None);
    assert_eq!(ctx.branch.as_deref(), Some("main"));
}

#[test]
fn record_release_updates_url() {
    let mut ctx = PipelineContext::new(test_init());
    ctx.record_release(Some("https://github.com/claylo/scrat/releases/tag/v1.2.3".into()));
    assert_eq!(
        ctx.release_url.as_deref(),
        Some("https://github.com/claylo/scrat/releases/tag/v1.2.3")
    );
}

#[test]
fn set_assets() {
    let mut ctx = PipelineContext::new(test_init());
    ctx.set_assets(vec!["dist/app.tar.gz".into(), "dist/app.deb".into()]);
    assert_eq!(ctx.assets, vec!["dist/app.tar.gz", "dist/app.deb"]);
}

#[test]
fn iso_date_today_format() {
    let date = iso_date_today();
    assert_eq!(date.len(), 10);
    assert_eq!(date.as_bytes()[4], b'-');
    assert_eq!(date.as_bytes()[7], b'-');
    let year: u32 = date[..4].parse().unwrap();
    assert!(year >= 2020);
    assert!(year < 2100);
}

#[test]
fn release_stats_hold_contributor_data() {
    let stats = ReleaseStats {
        commit_count: 42,
        files_changed: 10,
        insertions: 500,
        deletions: 200,
        contributors: vec![Contributor { name: "Alice".into(), count: 30 }],
    };
    assert_eq!(stats.contributors[0].name, "Alice");
    assert_eq!(stats.contributors[0].count, 30);
    let dep = DepChange { name: "serde".into(), from: Some("1.0.0".into()), to: None };
    assert_eq!(dep.name, "serde");
    assert!(dep.to.is_none());
}
