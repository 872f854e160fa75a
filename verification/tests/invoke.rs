use jot::errors::Error;
use jot::invoke::ExitClass;
use jot::invoke::RawOutput;
use jot::invoke::classify;
use jot::invoke::require_env;

fn raw(exit_code: Option<i32>, stdout: &[u8], stderr: &[u8]) -> RawOutput {
    RawOutput { exit_code, stdout: stdout.to_vec(), stderr: stderr.to_vec() }
}

#[test]
fn success_yields_trimmed_stdout() {
    let outcome = classify(
        raw(Some(0), b"  /repo/notes/today.md\n", b""),
        &"finder".to_string(),
        &"sh -c fzf".to_string(),
        false,
        true,
    )
    .unwrap();
    assert_eq!(outcome.stdout, "/repo/notes/today.md");
    assert_eq!(outcome.stderr, "<jot: stderr not captured>");
    assert_eq!(outcome.exit, ExitClass::Success);
}

#[test]
fn captured_stderr_is_decoded() {
    let outcome = classify(
        raw(Some(0), b"ok", b"warning: slow\n"),
        &"finder".to_string(),
        &"sh -c fzf".to_string(),
        true,
        true,
    )
    .unwrap();
    assert_eq!(outcome.stderr, "warning: slow\n");
}

#[test]
fn non_ascii_stdout_is_decoded() {
    let outcome = classify(
        raw(Some(0), "  h\u{e9}llo \u{2003}".as_bytes(), b""),
        &"finder".to_string(),
        &"sh -c fzf".to_string(),
        false,
        true,
    )
    .unwrap();
    assert_eq!(outcome.stdout, "h\u{e9}llo");
}

#[test]
fn invalid_utf8_stdout_is_its_own_error() {
    let err = classify(
        raw(Some(0), &[0xff, 0xfe], b""),
        &"finder".to_string(),
        &"sh -c fzf".to_string(),
        false,
        true,
    )
    .unwrap_err();
    assert!(matches!(err, Error::InvocationOutputNotUtf8));
}

#[test]
fn invalid_utf8_stderr_only_matters_when_captured() {
    let bad = [0x80u8, 0x80u8];
    let err = classify(
        raw(Some(0), b"fine", &bad),
        &"finder".to_string(),
        &"sh -c fzf".to_string(),
        true,
        true,
    )
    .unwrap_err();
    assert!(matches!(err, Error::InvocationOutputNotUtf8));
    let ok = classify(
        raw(Some(0), b"fine", &bad),
        &"finder".to_string(),
        &"sh -c fzf".to_string(),
        false,
        true,
    );
    assert!(ok.is_ok());
}

#[test]
fn decoding_failure_outranks_exit_classification() {
    let err = classify(
        raw(Some(130), &[0xff], b""),
        &"finder".to_string(),
        &"sh -c fzf".to_string(),
        false,
        true,
    )
    .unwrap_err();
    assert!(matches!(err, Error::InvocationOutputNotUtf8));
}

#[test]
fn interrupt_with_quiet_enabled_is_a_quiet_interrupt() {
    let outcome = classify(
        raw(Some(130), b"partial", b""),
        &"finder".to_string(),
        &"sh -c fzf".to_string(),
        false,
        true,
    )
    .unwrap();
    assert_eq!(outcome.exit, ExitClass::QuietInterrupt);
}

#[test]
fn interrupt_with_quiet_disabled_fails_naming_the_code() {
    let err = classify(
        raw(Some(130), b"partial", b"killed\n"),
        &"finder".to_string(),
        &"sh -c fzf".to_string(),
        true,
        false,
    )
    .unwrap_err();
    match &err {
        Error::InvocationNonZeroExit { exit_code, .. } => assert_eq!(*exit_code, Some(130)),
        other => panic!("expected a non-zero-exit error, got {:?}", other),
    }
    assert!(err.message().contains("130"));
}

#[test]
fn failure_diagnostic_shows_everything() {
    let err = classify(
        raw(Some(2), b"some stdout\n", b"fatal: lost\n"),
        &"pulling".to_string(),
        &"git pull origin main".to_string(),
        true,
        true,
    )
    .unwrap_err();
    assert_eq!(
        err.message(),
        "pulling (`git pull origin main`) exited unsuccessfully with non-zero exit code (2)\n\tstdout:\n\t\"some stdout\n\"\n\tstderr:\n\t\"fatal: lost\n\""
    );
}

#[test]
fn signal_death_renders_a_placeholder_code() {
    let err = classify(
        raw(None, b"", b""),
        &"finder".to_string(),
        &"sh -c fzf".to_string(),
        false,
        true,
    )
    .unwrap_err();
    assert!(err.message().contains("(N/A)"));
}

#[test]
fn negative_exit_code_renders_with_sign() {
    let err = classify(
        raw(Some(-7), b"", b""),
        &"finder".to_string(),
        &"sh -c fzf".to_string(),
        false,
        true,
    )
    .unwrap_err();
    assert!(err.message().contains("(-7)"));
}

#[test]
fn present_env_var_passes_through() {
    let value = require_env("EDITOR", Some("vim".to_string())).unwrap();
    assert_eq!(value, "vim");
}

#[test]
fn missing_env_var_is_named() {
    let err = require_env("EDITOR", None).unwrap_err();
    assert_eq!(err.message(), "failed to find $EDITOR in environment");
}
