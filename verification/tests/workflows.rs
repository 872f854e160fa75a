use jot::config::Args;
use jot::edit::AfterEditor;
use jot::edit::AfterFinder;
use jot::edit::FileAction;
use jot::edit::edit_handle_editor;
use jot::edit::edit_handle_finder;
use jot::edit::editor_request;
use jot::edit::finder_request;
use jot::edit::new_file_action;
use jot::errors::Error;
use jot::invoke::RawOutput;
use jot::invoke::StreamPolicy;
use jot::list::list_handle_lister;
use jot::list::lister_request;
use jot::list::listing_path;
use jot::paths::relative_path_to_absolute;
use jot::preflight::confirm_git_repo;
use jot::preflight::git_repo_check_request;

fn repo_args() -> Args {
    Args {
        command: None,
        base_dir: "/repo".to_string(),
        finder: "echo /repo/notes/today.md".to_string(),
        lister: "tree".to_string(),
        edit_syncs: false,
        capture_std: false,
        shell_cmd_flag: "-c".to_string(),
        quiet_on_ctrl_c: true,
        git_remote_name: "origin".to_string(),
        git_upstream_branch: "main".to_string(),
        git_custom_commit_msg: false,
    }
}

fn raw(exit_code: Option<i32>, stdout: &[u8]) -> RawOutput {
    RawOutput { exit_code, stdout: stdout.to_vec(), stderr: Vec::new() }
}

#[test]
fn interrupted_finder_stops_the_edit_quietly() {
    let args = repo_args();
    let next = edit_handle_finder(&args, raw(Some(130), b"/repo/half-chosen"), &"sh -c fzf".to_string())
        .unwrap();
    assert!(matches!(next, AfterFinder::Stop));
}

#[test]
fn interrupted_finder_without_quiet_is_a_failure() {
    let mut args = repo_args();
    args.quiet_on_ctrl_c = false;
    let err = edit_handle_finder(&args, raw(Some(130), b""), &"sh -c fzf".to_string()).unwrap_err();
    match &err {
        Error::InvocationNonZeroExit { exit_code, .. } => assert_eq!(*exit_code, Some(130)),
        other => panic!("expected a non-zero-exit error, got {:?}", other),
    }
    assert!(err.message().contains("130"));
}

#[test]
fn failing_finder_propagates_its_diagnostic() {
    let args = repo_args();
    let err = edit_handle_finder(&args, raw(Some(1), b""), &"sh -c fzf".to_string()).unwrap_err();
    assert!(err.message().starts_with("finder (`sh -c fzf`)"));
}

#[test]
fn edit_scenario_launches_editor_on_found_path_and_skips_sync() {
    // Base directory /repo, a finder that prints /repo/notes/today.md,
    // sync-on-edit disabled.
    let args = repo_args();

    let shell = "/bin/sh".to_string();
    let finder = finder_request(&args, shell.clone());
    assert_eq!(finder.program, "/bin/sh");
    assert_eq!(finder.args, vec!["-c".to_string(), "echo /repo/notes/today.md".to_string()]);
    assert_eq!(finder.stdin, StreamPolicy::Inherit);
    assert_eq!(finder.stdout, StreamPolicy::Piped);
    assert_eq!(finder.stderr, StreamPolicy::Inherit);

    let next = edit_handle_finder(
        &args,
        raw(Some(0), b"/repo/notes/today.md\n"),
        &"/bin/sh -c echo /repo/notes/today.md".to_string(),
    )
    .unwrap();
    let path = match next {
        AfterFinder::OpenEditor { path } => path,
        AfterFinder::Stop => panic!("a successful finder must lead to the editor"),
    };
    assert_eq!(path, "/repo/notes/today.md");

    let editor = editor_request("vim".to_string(), path);
    assert_eq!(editor.program, "vim");
    assert_eq!(editor.args, vec!["/repo/notes/today.md".to_string()]);
    assert_eq!(editor.stdin, StreamPolicy::Inherit);
    assert_eq!(editor.stdout, StreamPolicy::Inherit);
    assert_eq!(editor.stderr, StreamPolicy::Piped);

    let after = edit_handle_editor(&args, raw(Some(0), b""), &"vim /repo/notes/today.md".to_string())
        .unwrap();
    assert!(matches!(after, AfterEditor::Finished));
}

#[test]
fn clean_editor_exit_syncs_when_configured() {
    let mut args = repo_args();
    args.edit_syncs = true;
    let after = edit_handle_editor(&args, raw(Some(0), b""), &"vim note.md".to_string()).unwrap();
    assert!(matches!(after, AfterEditor::RunSync));
}

#[test]
fn new_scenario_creates_the_missing_file_before_the_editor() {
    // `new foo/bar.md` with base directory /repo and nothing there yet.
    let args = repo_args();
    let target = relative_path_to_absolute(&args, &"foo/bar.md".to_string()).unwrap();
    assert_eq!(target, "/repo/foo/bar.md");
    assert_eq!(new_file_action(false), FileAction::CreateThenOpen);
    let editor = editor_request("vim".to_string(), target);
    assert_eq!(editor.args, vec!["/repo/foo/bar.md".to_string()]);
}

#[test]
fn new_on_an_existing_note_never_touches_it() {
    let args = repo_args();
    let target = relative_path_to_absolute(&args, &"foo/bar.md".to_string()).unwrap();
    assert_eq!(new_file_action(true), FileAction::OpenExisting);
    // The editor is launched all the same.
    let editor = editor_request("vim".to_string(), target);
    assert_eq!(editor.program, "vim");
    assert_eq!(editor.args, vec!["/repo/foo/bar.md".to_string()]);
}

#[test]
fn listing_defaults_to_the_base_directory() {
    let args = repo_args();
    assert_eq!(listing_path(&args, None).unwrap(), "/repo");
    assert_eq!(listing_path(&args, Some("notes".to_string())).unwrap(), "/repo/notes");
    assert!(listing_path(&args, Some("/tmp".to_string())).is_err());
}

#[test]
fn lister_request_runs_the_lister_text() {
    let args = repo_args();
    let req = lister_request(&args, "/bin/sh".to_string());
    assert_eq!(req.program, "/bin/sh");
    assert_eq!(req.args, vec!["-c".to_string(), "tree".to_string()]);
}

#[test]
fn listing_success_prints_and_restores() {
    let args = repo_args();
    let conclusion = list_handle_lister(&args, raw(Some(0), b"notes\ntodo.md\n"), &"sh -c tree".to_string());
    assert_eq!(conclusion.restore_to, "/repo");
    assert_eq!(conclusion.result.unwrap(), Some("notes\ntodo.md".to_string()));
}

#[test]
fn listing_restores_even_when_the_lister_fails() {
    let args = repo_args();
    let conclusion = list_handle_lister(&args, raw(Some(1), b""), &"sh -c tree".to_string());
    assert_eq!(conclusion.restore_to, "/repo");
    assert!(conclusion.result.is_err());
}

#[test]
fn interrupted_lister_restores_and_prints_nothing() {
    let args = repo_args();
    let conclusion = list_handle_lister(&args, raw(Some(130), b"half a listing"), &"sh -c tree".to_string());
    assert_eq!(conclusion.restore_to, "/repo");
    assert_eq!(conclusion.result.unwrap(), None);
}

#[test]
fn repository_check_asks_git_and_reads_the_answer() {
    let req = git_repo_check_request();
    assert_eq!(req.program, "git");
    assert_eq!(req.args, vec!["rev-parse".to_string(), "--git-dir".to_string()]);
    let ok = confirm_git_repo(jot::invoke::classify(
        RawOutput { exit_code: Some(0), stdout: b".git\n".to_vec(), stderr: Vec::new() },
        &"checking the repository".to_string(),
        &"git rev-parse --git-dir".to_string(),
        true,
        true,
    ));
    assert!(ok.is_ok());
    let bad = confirm_git_repo(jot::invoke::classify(
        RawOutput { exit_code: Some(128), stdout: Vec::new(), stderr: b"fatal\n".to_vec() },
        &"checking the repository".to_string(),
        &"git rev-parse --git-dir".to_string(),
        true,
        true,
    ));
    assert!(matches!(bad.unwrap_err(), Error::BaseDirectoryNotAGitRepository));
}
