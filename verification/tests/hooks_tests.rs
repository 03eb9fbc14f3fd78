use scrat::hooks::{
    BatchKind, CommandOutcome, HookContext, HookError, HookRun, interpolate, interpolate_command,
    split_batches,
};

fn test_context() -> HookContext {
    HookContext {
        version: "1.2.3".into(),
        prev_version: "1.1.0".into(),
        tag: "v1.2.3".into(),
        changelog_path: "CHANGELOG.md".into(),
        owner: "claylo".into(),
        repo: "scrat".into(),
    }
}

fn ok_outcome(stdout: &str) -> CommandOutcome {
    CommandOutcome {
        success: true,
        exit_code: Some(0),
        stdout: stdout.to_string(),
        stderr: String::new(),
        duration_ms: 1,
    }
}

fn failed_outcome(stderr: &str) -> CommandOutcome {
    CommandOutcome {
        success: false,
        exit_code: Some(1),
        stdout: String::new(),
        stderr: stderr.to_string(),
        duration_ms: 1,
    }
}

#[test]
fn interpolate_all_variables() {
    let ctx = test_context();
    let result = interpolate(
        "echo {version} {prev_version} {tag} {changelog_path} {owner}/{repo}",
        &ctx,
    );
    assert_eq!(result, "echo 1.2.3 1.1.0 v1.2.3 CHANGELOG.md claylo/scrat");
}

#[test]
fn interpolate_preserves_unknown_braces() {
    let ctx = test_context();
    let result = interpolate("echo {unknown} {version}", &ctx);
    assert_eq!(result, "echo {unknown} 1.2.3");
}

#[test]
fn interpolate_no_variables() {
    let ctx = test_context();
    let result = interpolate("echo hello", &ctx);
    assert_eq!(result, "echo hello");
}

#[test]
fn interpolate_any_order() {
    let ctx = test_context();
    let result = interpolate_command("{repo} {owner} {tag} {changelog_path} {prev_version} {version}", &ctx);
    assert_eq!(result, "scrat claylo v1.2.3 CHANGELOG.md 1.1.0 1.2.3");
}

#[test]
fn interpolate_spec_spellings() {
    let ctx = test_context();
    let result = interpolate(
        "echo {version} {prevVersion} {tag} {changelogPath} {owner}/{repo}",
        &ctx,
    );
    assert_eq!(result, "echo 1.2.3 1.1.0 v1.2.3 CHANGELOG.md claylo/scrat");
}

#[test]
fn interpolate_accepts_both_multiword_spellings() {
    let ctx = test_context();
    assert_eq!(interpolate("{prevVersion}|{prev_version}", &ctx), "1.1.0|1.1.0");
    assert_eq!(
        interpolate("{changelogPath}|{changelog_path}", &ctx),
        "CHANGELOG.md|CHANGELOG.md"
    );
}

#[test]
fn split_batches_no_sync() {
    let commands: Vec<String> = vec!["echo a".into(), "echo b".into(), "echo c".into()];
    let batches = split_batches(&commands);
    assert_eq!(batches.len(), 1);
    assert_eq!(batches[0].commands.len(), 3);
    assert_eq!(batches[0].kind, BatchKind::Parallel);
}

#[test]
fn split_batches_with_sync() {
    let commands: Vec<String> = vec![
        "echo a".into(),
        "echo b".into(),
        "sync:echo barrier".into(),
        "echo c".into(),
        "echo d".into(),
    ];
    let batches = split_batches(&commands);
    assert_eq!(batches.len(), 3);
    assert_eq!(batches[0].commands, vec!["echo a", "echo b"]);
    assert_eq!(batches[0].kind, BatchKind::Parallel);
    assert_eq!(batches[1].commands, vec!["echo barrier"]);
    assert_eq!(batches[1].kind, BatchKind::Sync);
    assert_eq!(batches[2].commands, vec!["echo c", "echo d"]);
    assert_eq!(batches[2].kind, BatchKind::Parallel);
}

#[test]
fn split_batches_sync_at_start() {
    let commands: Vec<String> = vec!["sync:echo first".into(), "echo a".into()];
    let batches = split_batches(&commands);
    assert_eq!(batches.len(), 2);
    assert_eq!(batches[0].commands, vec!["echo first"]);
    assert_eq!(batches[0].kind, BatchKind::Sync);
    assert_eq!(batches[1].commands, vec!["echo a"]);
    assert_eq!(batches[1].kind, BatchKind::Parallel);
}

#[test]
fn split_batches_sync_at_end() {
    let commands: Vec<String> = vec!["echo a".into(), "sync:echo last".into()];
    let batches = split_batches(&commands);
    assert_eq!(batches.len(), 2);
    assert_eq!(batches[0].commands, vec!["echo a"]);
    assert_eq!(batches[0].kind, BatchKind::Parallel);
    assert_eq!(batches[1].commands, vec!["echo last"]);
    assert_eq!(batches[1].kind, BatchKind::Sync);
}

#[test]
fn split_batches_consecutive_syncs() {
    let commands: Vec<String> = vec!["sync:echo one".into(), "sync:echo two".into()];
    let batches = split_batches(&commands);
    assert_eq!(batches.len(), 2);
    assert_eq!(batches[0].commands, vec!["echo one"]);
    assert_eq!(batches[0].kind, BatchKind::Sync);
    assert_eq!(batches[1].commands, vec!["echo two"]);
    assert_eq!(batches[1].kind, BatchKind::Sync);
}

#[test]
fn split_batches_empty() {
    let commands: Vec<String> = vec![];
    let batches = split_batches(&commands);
    assert!(batches.is_empty());
}

#[test]
fn split_batches_with_filter() {
    let commands: Vec<String> = vec!["echo a".into(), "filter: jq '.'".into(), "echo b".into()];
    let batches = split_batches(&commands);
    assert_eq!(batches.len(), 3);
    assert_eq!(batches[0].commands, vec!["echo a"]);
    assert_eq!(batches[0].kind, BatchKind::Parallel);
    assert_eq!(batches[1].commands, vec!["jq '.'"]);
    assert_eq!(batches[1].kind, BatchKind::Filter);
    assert_eq!(batches[2].commands, vec!["echo b"]);
    assert_eq!(batches[2].kind, BatchKind::Parallel);
}

#[test]
fn split_batches_filter_and_sync() {
    let commands: Vec<String> = vec![
        "echo a".into(),
        "sync:echo barrier".into(),
        "filter: jq '.'".into(),
        "echo b".into(),
    ];
    let batches = split_batches(&commands);
    assert_eq!(batches.len(), 4);
    assert_eq!(batches[0].kind, BatchKind::Parallel);
    assert_eq!(batches[1].kind, BatchKind::Sync);
    assert_eq!(batches[2].kind, BatchKind::Filter);
    assert_eq!(batches[2].commands, vec!["jq '.'"]);
    assert_eq!(batches[3].kind, BatchKind::Parallel);
}

#[test]
fn hook_run_reports_results_in_spawn_order() {
    // A slow first command and a fast second one: the driver still reports
    // outcomes indexed by spawn order, and so does the plan.
    let commands: Vec<String> = vec!["sleep-and-echo slow".into(), "echo fast".into()];
    let mut run = HookRun::new(&commands, test_context(), None);
    let req = run.next_request().expect("one parallel batch");
    assert_eq!(req.kind, BatchKind::Parallel);
    assert_eq!(req.commands.len(), 2);
    run.report_batch(vec![ok_outcome("slow-out"), ok_outcome("fast-out")]);
    assert!(run.next_request().is_none());
    let output = run.finish().expect("all hooks succeeded");
    assert_eq!(output.results.len(), 2);
    assert_eq!(output.results[0].command, "sleep-and-echo slow");
    assert_eq!(output.results[0].stdout, "slow-out");
    assert_eq!(output.results[1].command, "echo fast");
    assert_eq!(output.results[1].stdout, "fast-out");
}

#[test]
fn hook_run_failure_stops_execution() {
    // A failing command prevents all subsequent batches from running: the
    // sync batch after it is never handed out.
    let commands: Vec<String> = vec!["false".into(), "sync:echo after".into()];
    let mut run = HookRun::new(&commands, test_context(), None);
    let req = run.next_request().expect("first batch");
    assert_eq!(req.commands, vec!["false"]);
    run.report_batch(vec![failed_outcome("boom")]);
    assert!(run.next_request().is_none(), "no batch may run after a failure");
    let err = run.finish().unwrap_err();
    match err {
        HookError::CommandFailed { command, exit_code, stderr } => {
            assert_eq!(command, "false");
            assert_eq!(exit_code, Some(1));
            assert_eq!(stderr, "boom");
        },
        other => panic!("expected CommandFailed, got {other:?}"),
    }
}

#[test]
fn hook_run_parallel_failure_reports_first_in_spawn_order() {
    let commands: Vec<String> = vec!["echo a".into(), "bad one".into(), "bad two".into()];
    let mut run = HookRun::new(&commands, test_context(), None);
    let _req = run.next_request().expect("parallel batch");
    run.report_batch(vec![ok_outcome("a"), failed_outcome("first"), failed_outcome("second")]);
    let err = run.finish().unwrap_err();
    match err {
        HookError::CommandFailed { command, stderr, .. } => {
            assert_eq!(command, "bad one");
            assert_eq!(stderr, "first");
        },
        other => panic!("expected CommandFailed, got {other:?}"),
    }
}

#[test]
fn hook_run_barrier_scenario() {
    // Hook list ["echo first", "sync:echo barrier", "echo last"]: three
    // batches, three successful outputs.
    let commands: Vec<String> = vec![
        "echo first".into(),
        "sync:echo barrier".into(),
        "echo last".into(),
    ];
    let mut run = HookRun::new(&commands, test_context(), None);
    let r1 = run.next_request().expect("first batch");
    assert_eq!(r1.kind, BatchKind::Parallel);
    assert_eq!(r1.commands, vec!["echo first"]);
    run.report_batch(vec![ok_outcome("first\n")]);
    let r2 = run.next_request().expect("barrier batch");
    assert_eq!(r2.kind, BatchKind::Sync);
    assert_eq!(r2.commands, vec!["echo barrier"]);
    run.report_batch(vec![ok_outcome("barrier\n")]);
    let r3 = run.next_request().expect("last batch");
    assert_eq!(r3.kind, BatchKind::Parallel);
    assert_eq!(r3.commands, vec!["echo last"]);
    run.report_batch(vec![ok_outcome("last\n")]);
    assert!(run.next_request().is_none());
    let output = run.finish().expect("all hooks succeeded");
    assert_eq!(output.results.len(), 3);
    assert!(output.results.iter().all(|r| r.success));
    assert!(output.filter_output.is_none());
}

#[test]
fn hook_run_interpolates_commands() {
    let commands: Vec<String> = vec!["echo {owner}/{repo}@{tag}".into()];
    let run = HookRun::new(&commands, test_context(), None);
    let req = run.next_request().expect("one batch");
    assert_eq!(req.commands, vec!["echo claylo/scrat@v1.2.3"]);
}

#[test]
fn hook_run_filter_receives_pipeline_json() {
    let commands: Vec<String> = vec!["filter: jq '.added = true'".into()];
    let run = HookRun::new(&commands, test_context(), Some(r#"{"version":"1.0.0"}"#.into()));
    let req = run.next_request().expect("filter batch");
    assert_eq!(req.kind, BatchKind::Filter);
    assert_eq!(req.stdin.as_deref(), Some(r#"{"version":"1.0.0"}"#));
}

#[test]
fn hook_run_filter_no_pipeline_json() {
    let commands: Vec<String> = vec!["filter: jq '.'".into()];
    let run = HookRun::new(&commands, test_context(), None);
    let req = run.next_request().expect("filter batch");
    assert_eq!(req.stdin.as_deref(), Some("{}"));
}

#[test]
fn hook_run_filter_mutates_json() {
    // A filter's (trimmed, validated) stdout becomes the new pipeline JSON.
    let commands: Vec<String> = vec!["filter: jq '.added = true'".into()];
    let mut run = HookRun::new(&commands, test_context(), Some(r#"{"version":"1.0.0"}"#.into()));
    let _req = run.next_request().expect("filter batch");
    run.report_filter(ok_outcome("{\"version\":\"1.0.0\",\"added\":true}\n"));
    assert!(run.next_request().is_none());
    let output = run.finish().expect("filter succeeded");
    assert_eq!(output.results.len(), 1);
    assert_eq!(
        output.filter_output.as_deref(),
        Some(r#"{"version":"1.0.0","added":true}"#)
    );
}

#[test]
fn hook_run_filter_chain_passes_output_verbatim() {
    // Chained filters: the second filter's stdin is exactly the first
    // filter's (trimmed) output, so no information is dropped in transit.
    let commands: Vec<String> = vec![
        "filter: jq '.step1 = true'".into(),
        "filter: jq '.step2 = true'".into(),
    ];
    let mut run = HookRun::new(&commands, test_context(), Some(r#"{"base":true}"#.into()));
    let r1 = run.next_request().expect("first filter");
    assert_eq!(r1.stdin.as_deref(), Some(r#"{"base":true}"#));
    run.report_filter(ok_outcome("{\"base\":true,\"step1\":true}\n"));
    let r2 = run.next_request().expect("second filter");
    assert_eq!(r2.stdin.as_deref(), Some(r#"{"base":true,"step1":true}"#));
    run.report_filter(ok_outcome(r#"{"base":true,"step1":true,"step2":true}"#));
    assert!(run.next_request().is_none());
    let output = run.finish().expect("both filters succeeded");
    assert_eq!(output.results.len(), 2);
    assert_eq!(
        output.filter_output.as_deref(),
        Some(r#"{"base":true,"step1":true,"step2":true}"#)
    );
}

#[test]
fn hook_run_filter_invalid_json_errors() {
    // A filter that prints something that is not JSON fails the run with
    // the distinct invalid-output error carrying the offending text.
    let commands: Vec<String> = vec!["filter: echo not-json".into()];
    let mut run = HookRun::new(&commands, test_context(), Some("{}".into()));
    let _req = run.next_request().expect("filter batch");
    run.report_filter(ok_outcome("not-json\n"));
    assert!(run.next_request().is_none());
    let err = run.finish().unwrap_err();
    match err {
        HookError::FilterOutputInvalid { command, detail } => {
            assert_eq!(command, "echo not-json");
            assert_eq!(detail, "not-json");
        },
        other => panic!("expected FilterOutputInvalid, got {other:?}"),
    }
}

#[test]
fn hook_run_filter_invalid_output_is_truncated() {
    let commands: Vec<String> = vec!["filter: yes".into()];
    let mut run = HookRun::new(&commands, test_context(), None);
    let _req = run.next_request().expect("filter batch");
    let long = "x".repeat(250);
    run.report_filter(ok_outcome(&long));
    let err = run.finish().unwrap_err();
    match err {
        HookError::FilterOutputInvalid { detail, .. } => {
            assert_eq!(detail.len(), 203);
            assert!(detail.ends_with("..."));
        },
        other => panic!("expected FilterOutputInvalid, got {other:?}"),
    }
}

#[test]
fn hook_run_filter_command_failure() {
    let commands: Vec<String> = vec!["filter: jq '.'".into()];
    let mut run = HookRun::new(&commands, test_context(), None);
    let _req = run.next_request().expect("filter batch");
    run.report_filter(failed_outcome("  jq: error  "));
    let err = run.finish().unwrap_err();
    match err {
        HookError::CommandFailed { command, stderr, .. } => {
            assert_eq!(command, "jq '.'");
            assert_eq!(stderr, "jq: error");
        },
        other => panic!("expected CommandFailed, got {other:?}"),
    }
}

#[test]
fn hook_run_empty_list() {
    let commands: Vec<String> = vec![];
    let run = HookRun::new(&commands, test_context(), None);
    assert!(run.next_request().is_none());
    let output = run.finish().expect("empty run succeeds");
    assert!(output.results.is_empty());
    assert!(output.filter_output.is_none());
}
