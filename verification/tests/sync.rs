use jot::config::Args;
use jot::errors::Error;
use jot::invoke::RawOutput;
use jot::invoke::StreamPolicy;
use jot::invoke::classify_request_output;
use jot::sync::SyncPhase;
use jot::sync::commit_request;
use jot::sync::pull_request;
use jot::sync::push_request;
use jot::sync::stage_request;
use jot::sync::sync_advance;

fn sync_args(custom_commit: bool) -> Args {
    Args {
        command: None,
        base_dir: "/repo".to_string(),
        finder: "fzf".to_string(),
        lister: "tree".to_string(),
        edit_syncs: true,
        capture_std: false,
        shell_cmd_flag: "-c".to_string(),
        quiet_on_ctrl_c: true,
        git_remote_name: "origin".to_string(),
        git_upstream_branch: "main".to_string(),
        git_custom_commit_msg: custom_commit,
    }
}

fn raw(exit_code: Option<i32>, stdout: &[u8], stderr: &[u8]) -> RawOutput {
    RawOutput { exit_code, stdout: stdout.to_vec(), stderr: stderr.to_vec() }
}

#[test]
fn phase_requests_spell_out_the_git_commands() {
    let args = sync_args(false);
    let pull = pull_request(&args);
    assert_eq!(pull.program, "git");
    assert_eq!(pull.args, vec!["pull".to_string(), "origin".to_string(), "main".to_string()]);
    assert_eq!(pull.label, "pulling");
    let stage = stage_request();
    assert_eq!(stage.program, "git");
    assert_eq!(stage.args, vec!["add".to_string(), "-A".to_string()]);
    assert_eq!(stage.label, "staging");
    let push = push_request(&args);
    assert_eq!(push.args, vec!["push".to_string(), "origin".to_string(), "main".to_string()]);
    assert_eq!(push.label, "pushing");
}

#[test]
fn commit_message_is_the_moment_the_phase_began() {
    let args = sync_args(false);
    // 2024-03-02T10:15:30Z, as seconds since the Unix epoch.
    let req = commit_request(&args, 1709374530);
    assert_eq!(req.program, "git");
    assert_eq!(
        req.args,
        vec!["commit".to_string(), "-m".to_string(), "2024-03-02T10:15:30Z".to_string()]
    );
    assert_eq!(req.stdin, StreamPolicy::Piped);
    assert_eq!(req.stdout, StreamPolicy::Piped);
    assert_eq!(req.label, "committing");
}

#[test]
fn commit_message_epoch_start() {
    let args = sync_args(false);
    let req = commit_request(&args, 0);
    assert_eq!(req.args[2], "1970-01-01T00:00:00Z");
}

#[test]
fn interactive_commit_keeps_the_terminal() {
    let args = sync_args(true);
    let req = commit_request(&args, 1709374530);
    assert_eq!(req.args, vec!["commit".to_string()]);
    assert_eq!(req.stdin, StreamPolicy::Inherit);
    assert_eq!(req.stdout, StreamPolicy::Inherit);
    assert_eq!(req.stderr, StreamPolicy::Piped);
}

#[test]
fn a_clean_run_walks_all_four_phases_in_order() {
    let args = sync_args(false);
    let ok = |phase: SyncPhase| {
        let req = match phase {
            SyncPhase::Pull => pull_request(&args),
            SyncPhase::Stage => stage_request(),
            SyncPhase::Commit => commit_request(&args, 1709374530),
            SyncPhase::Push => push_request(&args),
        };
        classify_request_output(&req, raw(Some(0), b"", b""), args.quiet_on_ctrl_c)
    };
    let mut ran: Vec<SyncPhase> = Vec::new();
    let mut phase = Some(SyncPhase::Pull);
    while let Some(p) = phase {
        ran.push(p);
        phase = sync_advance(p, ok(p)).unwrap();
    }
    assert_eq!(
        ran,
        vec![SyncPhase::Pull, SyncPhase::Stage, SyncPhase::Commit, SyncPhase::Push]
    );
}

#[test]
fn failing_pull_stops_the_sync_before_any_other_phase() {
    // `sync` where `git pull origin main` exits with status 1.
    let args = sync_args(false);
    let pull = pull_request(&args);
    let outcome = classify_request_output(
        &pull,
        raw(Some(1), b"", b"CONFLICT: merge conflict\n"),
        args.quiet_on_ctrl_c,
    );
    let err = sync_advance(SyncPhase::Pull, outcome).unwrap_err();
    match &err {
        Error::SyncPhaseFailure { phase, .. } => assert_eq!(*phase, SyncPhase::Pull),
        other => panic!("expected a sync-phase failure, got {:?}", other),
    }
    let message = err.message();
    assert!(message.contains("pull"));
    assert!(message.contains("origin"));
    assert!(message.contains("main"));
    assert!(message.contains("git pull origin main"));
    assert!(message.contains("run jot sync"));
    // An error from the step function carries no next phase: staging,
    // committing and pushing never run.
}

#[test]
fn failing_stage_stops_before_commit_and_push() {
    let args = sync_args(false);
    let stage = stage_request();
    let outcome = classify_request_output(&stage, raw(Some(1), b"", b""), args.quiet_on_ctrl_c);
    let err = sync_advance(SyncPhase::Stage, outcome).unwrap_err();
    match &err {
        Error::SyncPhaseFailure { phase, cause } => {
            assert_eq!(*phase, SyncPhase::Stage);
            assert!(matches!(**cause, Error::InvocationNonZeroExit { .. }));
        },
        other => panic!("expected a sync-phase failure, got {:?}", other),
    }
    // Staging carries no extra remedy line; the diagnostic is the
    // underlying one.
    assert!(err.message().starts_with("staging (`git add -A`)"));
}

#[test]
fn failing_commit_stops_before_push() {
    let args = sync_args(false);
    let commit = commit_request(&args, 1709374530);
    let outcome = classify_request_output(
        &commit,
        raw(Some(1), b"nothing to commit\n", b""),
        args.quiet_on_ctrl_c,
    );
    let err = sync_advance(SyncPhase::Commit, outcome).unwrap_err();
    assert!(matches!(err, Error::SyncPhaseFailure { phase: SyncPhase::Commit, .. }));
}

#[test]
fn failing_push_names_the_remedy() {
    let args = sync_args(false);
    let push = push_request(&args);
    let outcome = classify_request_output(&push, raw(Some(1), b"", b"rejected\n"), args.quiet_on_ctrl_c);
    let err = sync_advance(SyncPhase::Push, outcome).unwrap_err();
    assert!(err.message().starts_with("failed to push to upstream, please fix the issue and run jot sync: "));
}

#[test]
fn an_interrupted_phase_stops_the_whole_sync_quietly() {
    let args = sync_args(false);
    let pull = pull_request(&args);
    let outcome = classify_request_output(&pull, raw(Some(130), b"", b""), args.quiet_on_ctrl_c);
    let next = sync_advance(SyncPhase::Pull, outcome).unwrap();
    assert_eq!(next, None);
}

#[test]
fn each_phase_gates_exactly_the_next_one_open() {
    let args = sync_args(false);
    let clean = |req: &jot::invoke::InvocationRequest| {
        classify_request_output(req, raw(Some(0), b"", b""), args.quiet_on_ctrl_c)
    };
    assert_eq!(
        sync_advance(SyncPhase::Pull, clean(&pull_request(&args))).unwrap(),
        Some(SyncPhase::Stage)
    );
    assert_eq!(
        sync_advance(SyncPhase::Stage, clean(&stage_request())).unwrap(),
        Some(SyncPhase::Commit)
    );
    assert_eq!(
        sync_advance(SyncPhase::Commit, clean(&commit_request(&args, 1709374530))).unwrap(),
        Some(SyncPhase::Push)
    );
    assert_eq!(sync_advance(SyncPhase::Push, clean(&push_request(&args))).unwrap(), None);
}
