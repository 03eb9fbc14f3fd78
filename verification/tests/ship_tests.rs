use scrat::config::{CommandsConfig, Config, HooksConfig, ReleaseConfig};
use scrat::ecosystem::{ProjectDetection, VersionStrategy};
use scrat::hooks::CommandOutcome;
use scrat::pipeline::{PipelineContext, PipelineContextInit};
use scrat::ship::{
    ActionRequest, ActionResponse, BumpResult, GitPhaseResult, PhaseOutcome, ShipEvent,
    ShipError, ShipInit, ShipOptions, ShipPhase, ShipRun, ShipStep, asset_basename,
    build_create_args, build_edit_args,
};

fn test_ship_init() -> ShipInit {
    ShipInit {
        version: "1.2.3".into(),
        previous_version: "1.1.0".into(),
        strategy: VersionStrategy::Interactive,
        owner: "claylo".into(),
        repo: "scrat".into(),
        repo_url: None,
        branch: Some("main".into()),
        changelog_path: "CHANGELOG.md".into(),
        deps_diff: None,
        git_stats: None,
        contributors: None,
    }
}

fn ok_outcome(stdout: &str) -> CommandOutcome {
    CommandOutcome {
        success: true,
        exit_code: Some(0),
        stdout: stdout.to_string(),
        stderr: String::new(),
        duration_ms: 1,
    }
}

#[test]
fn ship_options_default() {
    let opts = ShipOptions::default();
    assert!(!opts.dry_run);
    assert!(!opts.no_publish);
    assert!(!opts.no_push);
    assert!(!opts.no_release);
    assert!(!opts.no_deps);
    assert!(!opts.no_stats);
    assert!(!opts.no_notes);
    assert!(!opts.no_test);
    assert!(!opts.no_tag);
    assert!(!opts.no_git);
    assert!(!opts.no_changelog);
    assert!(opts.explicit_version.is_none());
    assert!(opts.draft_override.is_none());
}

#[test]
fn ship_phase_display() {
    assert_eq!(ShipPhase::Preflight.as_str(), "preflight");
    assert_eq!(ShipPhase::Version.as_str(), "version");
    assert_eq!(ShipPhase::Test.as_str(), "test");
    assert_eq!(ShipPhase::Bump.as_str(), "bump");
    assert_eq!(ShipPhase::Publish.as_str(), "publish");
    assert_eq!(ShipPhase::Git.as_str(), "git");
    assert_eq!(ShipPhase::Release.as_str(), "release");
}

#[test]
fn pipeline_context_derives_hook_context() {
    let ctx = PipelineContext::new(PipelineContextInit {
        version: "1.2.3".into(),
        previous_version: "1.1.0".into(),
        tag: "v1.2.3".into(),
        previous_tag: "v1.1.0".into(),
        owner: "claylo".into(),
        repo: "scrat".into(),
        repo_url: None,
        branch: None,
        ecosystem: "rust".into(),
        changelog_path: "/tmp/project/CHANGELOG.md".into(),
        dry_run: false,
    });
    let hc = ctx.hook_context();
    assert_eq!(hc.version, "1.2.3");
    assert_eq!(hc.prev_version, "1.1.0");
    assert_eq!(hc.tag, "v1.2.3");
    assert_eq!(hc.changelog_path, "/tmp/project/CHANGELOG.md");
    assert_eq!(hc.owner, "claylo");
    assert_eq!(hc.repo, "scrat");
}

#[test]
fn build_create_args_with_all_options() {
    let args = build_create_args(
        &"v1.2.3".to_string(),
        &Some("myrepo v1.2.3".to_string()),
        true,
        &Some("/tmp/notes.md".to_string()),
        &Some("releases".to_string()),
        &vec!["dist/app.tar.gz".to_string(), "dist/checksums.txt".to_string()],
    );
    assert_eq!(args[0], "release");
    assert_eq!(args[1], "create");
    assert_eq!(args[2], "v1.2.3");
    assert!(args.contains(&"--title".into()));
    assert!(args.contains(&"myrepo v1.2.3".into()));
    assert!(args.contains(&"--draft".into()));
    assert!(args.contains(&"--notes-file".into()));
    assert!(args.contains(&"--discussion-category".into()));
    assert!(args.contains(&"releases".into()));
    assert!(args.contains(&"dist/app.tar.gz".into()));
    assert!(args.contains(&"dist/checksums.txt".into()));
}

#[test]
fn build_create_args_minimal() {
    let args = build_create_args(&"v0.1.0".to_string(), &None, false, &None, &None, &vec![]);
    assert_eq!(args, vec!["release", "create", "v0.1.0", "--generate-notes"]);
}

#[test]
fn build_edit_args_draft() {
    let args = build_edit_args(&"v1.0.0".to_string(), &Some("Release v1.0.0".to_string()), true, &None);
    assert_eq!(args[0], "release");
    assert_eq!(args[1], "edit");
    assert_eq!(args[2], "v1.0.0");
    assert!(args.contains(&"--draft".into()));
    assert!(args.contains(&"--title".into()));
    assert!(args.contains(&"Release v1.0.0".into()));
}

#[test]
fn build_edit_args_publish() {
    let args = build_edit_args(&"v1.0.0".to_string(), &None, false, &None);
    assert!(args.contains(&"--draft=false".into()));
    assert!(!args.contains(&"--title".into()));
}

#[test]
fn build_edit_args_with_notes_file() {
    let args = build_edit_args(&"v2.0.0".to_string(), &None, true, &Some("/tmp/notes.md".to_string()));
    assert!(args.contains(&"--notes-file".into()));
    assert!(!args.contains(&"--generate-notes".into()));
}

#[test]
fn asset_basename_takes_last_component() {
    assert_eq!(asset_basename("dist/app.tar.gz"), "app.tar.gz");
    assert_eq!(asset_basename("app.deb"), "app.deb");
    assert_eq!(asset_basename("a/b/c.txt"), "c.txt");
    assert_eq!(asset_basename("a/b/"), "b");
    assert_eq!(asset_basename("/"), "/");
    assert_eq!(asset_basename(""), "");
}

#[test]
fn dry_run_completes_all_phases_without_actions() {
    // A dry run never requests any action — no phase body, no hook child —
    // yet completes every phase in the fixed order and still previews the
    // hooks through events.
    let mut hooks = HooksConfig::default();
    hooks.pre_ship = Some(vec!["echo {version}".to_string()]);
    let mut config = Config::default();
    config.hooks = Some(hooks);
    let mut options = ShipOptions::default();
    options.dry_run = true;
    let detection = ProjectDetection::generic(VersionStrategy::Interactive);
    let mut run = ShipRun::new(test_ship_init(), options, config, detection);
    let mut completed: Vec<ShipPhase> = Vec::new();
    let mut previewed: Vec<String> = Vec::new();
    loop {
        match run.next() {
            None => break,
            Some(ShipStep::Emit(ev)) => match ev {
                ShipEvent::PhaseCompleted(p, _) => completed.push(p),
                ShipEvent::HooksStarted { commands, will_execute, .. } => {
                    assert!(!will_execute);
                    previewed.extend(commands);
                },
                _ => {},
            },
            Some(ShipStep::Act(_)) => panic!("dry run requested an action"),
            Some(ShipStep::Internal) => {},
        }
    }
    assert_eq!(
        completed,
        vec![
            ShipPhase::Preflight,
            ShipPhase::Version,
            ShipPhase::Test,
            ShipPhase::Bump,
            ShipPhase::Publish,
            ShipPhase::Git,
            ShipPhase::Release,
        ]
    );
    assert_eq!(previewed, vec!["echo 1.2.3"]);
    let outcome = run.finish().expect("dry run succeeds");
    assert!(outcome.dry_run);
    assert_eq!(outcome.phases.len(), 7);
    assert_eq!(outcome.hooks_run, 1);
    assert_eq!(outcome.tag, "v1.2.3");
}

#[test]
fn failing_hook_aborts_run() {
    // A failing command in a hook list prevents all subsequent batches and
    // phases from running.
    let mut hooks = HooksConfig::default();
    hooks.pre_ship = Some(vec!["false".to_string(), "sync:echo after".to_string()]);
    let mut config = Config::default();
    config.hooks = Some(hooks);
    let detection = ProjectDetection::generic(VersionStrategy::Interactive);
    let mut run = ShipRun::new(test_ship_init(), ShipOptions::default(), config, detection);
    let mut batches_requested = 0;
    loop {
        match run.next() {
            None => break,
            Some(ShipStep::Act(act)) => match act {
                ActionRequest::SerializeContext => {
                    run.provide(ActionResponse::Serialized("{}".to_string()));
                },
                ActionRequest::RunHookBatch(req) => {
                    batches_requested += 1;
                    assert_eq!(req.commands, vec!["false"]);
                    run.provide(ActionResponse::BatchDone(vec![CommandOutcome {
                        success: false,
                        exit_code: Some(1),
                        stdout: String::new(),
                        stderr: "nope".to_string(),
                        duration_ms: 1,
                    }]));
                },
                other => panic!("unexpected action after failure: {other:?}"),
            },
            Some(_) => {},
        }
    }
    assert_eq!(batches_requested, 1, "the sync batch must never run");
    match run.finish() {
        Err(ShipError::Hook(e)) => {
            let shown = format!("{e:?}");
            assert!(shown.contains("false"));
        },
        other => panic!("expected a hook failure, got {other:?}"),
    }
}

#[test]
fn real_run_drives_all_phases() {
    // A full run against a simulated driver: test command, bump, git and
    // release all report results, and the outcome records everything.
    let mut config = Config::default();
    config.commands = Some(CommandsConfig {
        test: Some("cargo test".into()),
        build: None,
        publish: None,
        clean: None,
    });
    config.release = Some(ReleaseConfig {
        changelog_tool: None,
        github_release: Some(true),
        assets: None,
        notes_template: None,
        draft: Some(false),
        title: Some("scrat {version}".into()),
        discussion_category: None,
    });
    let detection = ProjectDetection::generic(VersionStrategy::Interactive);
    let mut run = ShipRun::new(test_ship_init(), ShipOptions::default(), config, detection);
    loop {
        match run.next() {
            None => break,
            Some(ShipStep::Act(act)) => match act {
                ActionRequest::RunShell { phase, command } => {
                    assert_eq!(phase, ShipPhase::Test);
                    assert_eq!(command, "cargo test");
                    run.provide(ActionResponse::ShellDone(ok_outcome("ok")));
                },
                ActionRequest::RunBump { with_changelog } => {
                    assert!(with_changelog);
                    run.provide(ActionResponse::BumpDone(Ok(BumpResult {
                        changelog_updated: true,
                        modified_files: vec!["Cargo.toml".into(), "CHANGELOG.md".into()],
                    })));
                },
                ActionRequest::GitCommitTagPush { commit_message, tag, push } => {
                    assert_eq!(commit_message, "chore: release 1.2.3");
                    let (tag_name, tag_msg) = tag.expect("a tag is created");
                    assert_eq!(tag_name, "v1.2.3");
                    assert_eq!(tag_msg, "Release 1.2.3");
                    assert!(push);
                    run.provide(ActionResponse::GitDone(Ok(GitPhaseResult {
                        hash: "abc1234".into(),
                        branch: Some("main".into()),
                        pushed: true,
                    })));
                },
                ActionRequest::RenderNotes => {
                    run.provide(ActionResponse::NotesDone {
                        rendered: Some("## 1.2.3".into()),
                        file: Some("/tmp/notes.md".into()),
                    });
                },
                ActionRequest::ReleaseExists { tag } => {
                    assert_eq!(tag, "v1.2.3");
                    run.provide(ActionResponse::ExistsDone(false));
                },
                ActionRequest::RunRelease { edit, args, tag, .. } => {
                    assert!(!edit);
                    assert_eq!(tag, "v1.2.3");
                    assert_eq!(&args[0..3], &["release", "create", "v1.2.3"]);
                    assert!(args.contains(&"--notes-file".to_string()));
                    assert!(args.contains(&"scrat 1.2.3".to_string()));
                    run.provide(ActionResponse::ReleaseDone(Ok(Some(
                        "https://example.invalid/releases/v1.2.3".into(),
                    ))));
                },
                other => panic!("unexpected action: {other:?}"),
            },
            Some(_) => {},
        }
    }
    let outcome = run.finish().expect("run succeeds");
    assert_eq!(outcome.phases.len(), 7);
    assert_eq!(outcome.version, "1.2.3");
    assert_eq!(outcome.context.commit_hash.as_deref(), Some("abc1234"));
    assert_eq!(outcome.context.branch.as_deref(), Some("main"));
    assert_eq!(
        outcome.context.release_url.as_deref(),
        Some("https://example.invalid/releases/v1.2.3")
    );
    assert_eq!(outcome.context.release_notes.as_deref(), Some("## 1.2.3"));
    assert!(outcome.context.changelog_updated);
    assert_eq!(outcome.context.modified_files, vec!["Cargo.toml", "CHANGELOG.md"]);
    match &outcome.phases[4].1 {
        PhaseOutcome::Skipped { reason } => {
            assert_eq!(reason, "no publish command configured or detected");
        },
        other => panic!("expected the publish phase skipped, got {other:?}"),
    }
}

#[test]
fn filter_hook_replaces_context_wholesale() {
    // A filter hook's parsed output replaces the whole pipeline context.
    let mut hooks = HooksConfig::default();
    hooks.pre_ship = Some(vec!["filter: jq '.version = \"9.9.9\"'".to_string()]);
    let mut config = Config::default();
    config.hooks = Some(hooks);
    let mut options = ShipOptions::default();
    options.no_test = true;
    options.no_publish = true;
    options.no_git = true;
    options.no_release = true;
    let detection = ProjectDetection::generic(VersionStrategy::Interactive);
    let mut run = ShipRun::new(test_ship_init(), options, config, detection);
    loop {
        match run.next() {
            None => break,
            Some(ShipStep::Act(act)) => match act {
                ActionRequest::SerializeContext => {
                    run.provide(ActionResponse::Serialized(r#"{"version":"1.2.3"}"#.into()));
                },
                ActionRequest::RunHookBatch(req) => {
                    assert_eq!(req.stdin.as_deref(), Some(r#"{"version":"1.2.3"}"#));
                    run.provide(ActionResponse::FilterDone(ok_outcome(
                        r#"{"version":"9.9.9"}"#,
                    )));
                },
                ActionRequest::ParseContext(json) => {
                    assert_eq!(json, r#"{"version":"9.9.9"}"#);
                    let mut replacement = PipelineContext::new(PipelineContextInit {
                        version: "9.9.9".into(),
                        previous_version: "1.1.0".into(),
                        tag: "v9.9.9".into(),
                        previous_tag: "v1.1.0".into(),
                        owner: "claylo".into(),
                        repo: "scrat".into(),
                        repo_url: None,
                        branch: None,
                        ecosystem: "generic".into(),
                        changelog_path: "CHANGELOG.md".into(),
                        dry_run: false,
                    });
                    replacement.changelog_updated = true;
                    run.provide(ActionResponse::Parsed(Ok(replacement)));
                },
                ActionRequest::RunBump { .. } => {
                    run.provide(ActionResponse::BumpDone(Ok(BumpResult {
                        changelog_updated: false,
                        modified_files: vec![],
                    })));
                },
                other => panic!("unexpected action: {other:?}"),
            },
            Some(_) => {},
        }
    }
    let outcome = run.finish().expect("run succeeds");
    assert_eq!(outcome.context.version, "9.9.9");
    assert_eq!(outcome.hooks_run, 1);
}

#[test]
fn edit_release_replaces_assets_one_by_one() {
    // An existing release is edited, then each configured asset is
    // replaced by basename; an upload failure aborts the release phase.
    let mut config = Config::default();
    config.release = Some(ReleaseConfig {
        changelog_tool: None,
        github_release: Some(true),
        assets: Some(vec!["dist/app.tar.gz".into(), "dist/checksums.txt".into()]),
        notes_template: None,
        draft: Some(true),
        title: None,
        discussion_category: None,
    });
    let mut options = ShipOptions::default();
    options.no_test = true;
    options.no_publish = true;
    options.no_git = true;
    options.no_notes = true;
    let detection = ProjectDetection::generic(VersionStrategy::Interactive);
    let mut run = ShipRun::new(test_ship_init(), options, config, detection);
    let mut uploaded: Vec<(String, String)> = Vec::new();
    loop {
        match run.next() {
            None => break,
            Some(ShipStep::Act(act)) => match act {
                ActionRequest::RunBump { .. } => {
                    run.provide(ActionResponse::BumpDone(Ok(BumpResult {
                        changelog_updated: false,
                        modified_files: vec![],
                    })));
                },
                ActionRequest::ReleaseExists { tag } => {
                    assert_eq!(tag, "v1.2.3");
                    run.provide(ActionResponse::ExistsDone(true));
                },
                ActionRequest::RunRelease { edit, args, .. } => {
                    assert!(edit);
                    assert_eq!(&args[0..3], &["release", "edit", "v1.2.3"]);
                    run.provide(ActionResponse::ReleaseDone(Ok(None)));
                },
                ActionRequest::UploadAsset { tag, path, basename } => {
                    assert_eq!(tag, "v1.2.3");
                    uploaded.push((path, basename));
                    run.provide(ActionResponse::UploadDone(ok_outcome("")));
                },
                other => panic!("unexpected action: {other:?}"),
            },
            Some(_) => {},
        }
    }
    assert_eq!(
        uploaded,
        vec![
            ("dist/app.tar.gz".to_string(), "app.tar.gz".to_string()),
            ("dist/checksums.txt".to_string(), "checksums.txt".to_string()),
        ]
    );
    let outcome = run.finish().expect("run succeeds");
    match &outcome.phases[6].1 {
        PhaseOutcome::Success { message } => {
            assert_eq!(message, "Updated GitHub release v1.2.3 (draft)");
        },
        other => panic!("expected release success, got {other:?}"),
    }
}

#[test]
fn failed_asset_upload_aborts_release() {
    let mut config = Config::default();
    config.release = Some(ReleaseConfig {
        changelog_tool: None,
        github_release: Some(true),
        assets: Some(vec!["dist/app.tar.gz".into()]),
        notes_template: None,
        draft: None,
        title: None,
        discussion_category: None,
    });
    let mut options = ShipOptions::default();
    options.no_test = true;
    options.no_publish = true;
    options.no_git = true;
    options.no_notes = true;
    let detection = ProjectDetection::generic(VersionStrategy::Interactive);
    let mut run = ShipRun::new(test_ship_init(), options, config, detection);
    loop {
        match run.next() {
            None => break,
            Some(ShipStep::Act(act)) => match act {
                ActionRequest::RunBump { .. } => {
                    run.provide(ActionResponse::BumpDone(Ok(BumpResult {
                        changelog_updated: false,
                        modified_files: vec![],
                    })));
                },
                ActionRequest::ReleaseExists { .. } => {
                    run.provide(ActionResponse::ExistsDone(true));
                },
                ActionRequest::RunRelease { .. } => {
                    run.provide(ActionResponse::ReleaseDone(Ok(None)));
                },
                ActionRequest::UploadAsset { .. } => {
                    run.provide(ActionResponse::UploadDone(CommandOutcome {
                        success: false,
                        exit_code: Some(1),
                        stdout: String::new(),
                        stderr: " denied ".to_string(),
                        duration_ms: 1,
                    }));
                },
                other => panic!("unexpected action: {other:?}"),
            },
            Some(_) => {},
        }
    }
    match run.finish() {
        Err(ShipError::PhaseFailed { phase, message }) => {
            assert_eq!(phase, ShipPhase::Release);
            assert_eq!(message, "failed to upload asset dist/app.tar.gz: denied");
        },
        other => panic!("expected the release phase to fail, got {other:?}"),
    }
}
