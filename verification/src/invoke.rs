//! The invocation subsystem: one contract for launching an external
//! program. A workflow builds an [`InvocationRequest`]; the unverified
//! shell around the library runs it and hands back a [`RawOutput`];
//! [`classify`] decodes the captured streams and classifies the exit.

use vstd::prelude::*;
use vstd::utf8::decode_utf8;
use vstd::utf8::valid_utf8;
use crate::errors::Error;
use crate::text::trim;
use crate::text::trim_spec;

verus! {

/// The exit code that a keyboard interrupt conventionally produces.
pub const CTRL_C_EXIT_CODE: i32 = 130;

/// Whether a child's standard stream is inherited from the parent (so an
/// interactive program keeps the terminal) or piped.
#[derive(Clone, Copy, Debug, PartialEq, Eq, Structural)]
pub enum StreamPolicy {
    Inherit,
    Piped,
}

/// One external-program execution, described but not yet run: the
/// program, its ordered arguments, the policy for each standard stream,
/// and the label its diagnostics go by. Stdout is piped for every request
/// the workflows build, except an interactive commit. A piped stderr is a
/// captured one: its bytes come back in [`RawOutput`].
pub struct InvocationRequest {
    pub program: String,
    pub args: Vec<String>,
    pub stdin: StreamPolicy,
    pub stdout: StreamPolicy,
    pub stderr: StreamPolicy,
    pub label: String,
}

/// What the operating system reported of one finished child: the exit
/// code (`None` when a signal killed the child before it could exit) and
/// whatever bytes the piped streams produced.
pub struct RawOutput {
    pub exit_code: Option<i32>,
    pub stdout: Vec<u8>,
    pub stderr: Vec<u8>,
}

/// The two exit classes that let a workflow continue: a clean exit, or a
/// keyboard interrupt that the configuration asks to treat quietly. Every
/// other exit is an [`Error::InvocationNonZeroExit`].
#[derive(Clone, Copy, Debug, PartialEq, Eq, Structural)]
pub enum ExitClass {
    Success,
    QuietInterrupt,
}

/// A classified invocation that did not fail: the trimmed stdout text,
/// the raw stderr text (or a fixed placeholder when stderr was not
/// captured), and the exit class. After a `QuietInterrupt` the stdout
/// text must not be acted on: the child stopped before finishing its
/// answer.
#[derive(Debug)]
pub struct Outcome {
    pub stdout: String,
    pub stderr: String,
    pub exit: ExitClass,
}

/// How an exit code is classified under a quiet-on-interrupt setting:
/// zero succeeds, the interrupt code stops quietly when asked to, and
/// everything else (a non-zero code, or none at all) is `None` here —
/// a failure.
pub open spec fn classify_exit(code: Option<i32>, quiet_on_ctrl_c: bool) -> Option<ExitClass> {
    if code == Some(0i32) {
        Some(ExitClass::Success)
    } else if quiet_on_ctrl_c && code == Some(CTRL_C_EXIT_CODE) {
        Some(ExitClass::QuietInterrupt)
    } else {
        None
    }
}

/// The stderr text a classified outcome carries: the decoded bytes when
/// stderr was captured, a fixed placeholder otherwise.
pub open spec fn stderr_text(raw_stderr: Seq<u8>, captured_stderr: bool) -> Seq<char> {
    if captured_stderr {
        decode_utf8(raw_stderr)
    } else {
        "<jot: stderr not captured>"@
    }
}

/// Both captured streams decode: stdout always has to, stderr only when
/// it was captured.
pub open spec fn streams_decode(raw: RawOutput, captured_stderr: bool) -> bool {
    valid_utf8(raw.stdout@) && (captured_stderr ==> valid_utf8(raw.stderr@))
}

/// Relies on `String::from_utf8` of std: it returns `Ok` exactly on
/// valid UTF-8, and the string it returns is the decoding of the bytes.
#[verifier::external_body]
fn utf8_to_string(bytes: Vec<u8>) -> (r: Option<String>)
    ensures
        r is Some <==> valid_utf8(bytes@),
        r matches Some(s) ==> s@ == decode_utf8(bytes@),
{
    String::from_utf8(bytes).ok()
}

/// Decode and classify what one child process left behind.
///
/// Decoding comes first: a stream that was captured but is not UTF-8 is
/// its own hard error, whatever the exit code was. Then the exit code is
/// classified per [`classify_exit`]: a failure produces the diagnostic
/// that names the label, the quoted invocation, the code, and both
/// stream snapshots (stdout untrimmed, as the child wrote it).
pub fn classify(
    raw: RawOutput,
    label: &String,
    invocation: &String,
    captured_stderr: bool,
    quiet_on_ctrl_c: bool,
) -> (r: Result<Outcome, Error>)
    ensures
        !streams_decode(raw, captured_stderr) ==> (r matches Err(e)
            && e is InvocationOutputNotUtf8),
        streams_decode(raw, captured_stderr) && classify_exit(raw.exit_code, quiet_on_ctrl_c)
            is Some ==> (r matches Ok(o) && Some(o.exit) == classify_exit(
            raw.exit_code,
            quiet_on_ctrl_c,
        ) && o.stdout@ == trim_spec(decode_utf8(raw.stdout@)) && o.stderr@ == stderr_text(
            raw.stderr@,
            captured_stderr,
        )),
        streams_decode(raw, captured_stderr) && classify_exit(raw.exit_code, quiet_on_ctrl_c)
            is None ==> (r matches Err(e) && e matches Error::InvocationNonZeroExit {
            label: l,
            invocation: inv,
            exit_code,
            stdout,
            stderr,
        } && l@ == label@ && inv@ == invocation@ && exit_code == raw.exit_code && stdout@
            == decode_utf8(raw.stdout@) && stderr@ == stderr_text(raw.stderr@, captured_stderr)),
{
    let RawOutput { exit_code, stdout, stderr } = raw;
    let stdout_full = match utf8_to_string(stdout) {
        Some(s) => s,
        None => {
            return Err(Error::InvocationOutputNotUtf8);
        },
    };
    let stderr_full: String = if captured_stderr {
        match utf8_to_string(stderr) {
            Some(s) => s,
            None => {
                return Err(Error::InvocationOutputNotUtf8);
            },
        }
    } else {
        String::from_str("<jot: stderr not captured>")
    };
    let trimmed = trim(stdout_full.as_str());
    let success = exit_code == Some(0i32);
    let quiet_interrupt = !success && quiet_on_ctrl_c && exit_code == Some(CTRL_C_EXIT_CODE);
    if success {
        Ok(Outcome { stdout: trimmed, stderr: stderr_full, exit: ExitClass::Success })
    } else if quiet_interrupt {
        Ok(Outcome { stdout: trimmed, stderr: stderr_full, exit: ExitClass::QuietInterrupt })
    } else {
        Err(
            Error::InvocationNonZeroExit {
                label: label.clone(),
                invocation: invocation.clone(),
                exit_code,
                stdout: stdout_full,
                stderr: stderr_full,
            },
        )
    }
}

/// Classify a child's raw result against the request that produced it.
/// The label and the quoted invocation line come from the request, and
/// stderr counts as captured exactly when the request piped it.
pub fn classify_request_output(req: &InvocationRequest, raw: RawOutput, quiet_on_ctrl_c: bool) -> (r:
    Result<Outcome, Error>)
    ensures
        !streams_decode(raw, req.stderr == StreamPolicy::Piped) ==> (r matches Err(e)
            && e is InvocationOutputNotUtf8),
        streams_decode(raw, req.stderr == StreamPolicy::Piped) && classify_exit(
            raw.exit_code,
            quiet_on_ctrl_c,
        ) is Some ==> (r matches Ok(o) && Some(o.exit) == classify_exit(
            raw.exit_code,
            quiet_on_ctrl_c,
        ) && o.stdout@ == trim_spec(decode_utf8(raw.stdout@)) && o.stderr@ == stderr_text(
            raw.stderr@,
            req.stderr == StreamPolicy::Piped,
        )),
        streams_decode(raw, req.stderr == StreamPolicy::Piped) && classify_exit(
            raw.exit_code,
            quiet_on_ctrl_c,
        ) is None ==> (r matches Err(e) && e matches Error::InvocationNonZeroExit {
            label: l,
            invocation: inv,
            exit_code,
            stdout,
            stderr,
        } && l@ == req.label@ && inv@ == crate::text::invocation_text_spec(
            req.program@,
            req.args.deep_view(),
        ) && exit_code == raw.exit_code && stdout@ == decode_utf8(raw.stdout@) && stderr@
            == stderr_text(raw.stderr@, req.stderr == StreamPolicy::Piped)),
{
    let invocation = crate::text::invocation_text(&req.program, &req.args);
    let captured_stderr = match req.stderr {
        StreamPolicy::Piped => true,
        StreamPolicy::Inherit => false,
    };
    classify(raw, &req.label, &invocation, captured_stderr, quiet_on_ctrl_c)
}

/// Accept a looked-up environment variable, or fail with an error that
/// names the missing one. The lookup itself is the caller's: the
/// environment is process-wide external state, re-read on every call.
pub fn require_env(name: &str, value: Option<String>) -> (r: Result<String, Error>)
    ensures
        value matches Some(v) ==> r == Ok::<String, Error>(v),
        value is None ==> (r matches Err(e) && e matches Error::MissingEnvironmentVariable {
            name: n,
        } && n@ == name@),
{
    match value {
        Some(v) => Ok(v),
        None => Err(Error::MissingEnvironmentVariable { name: String::from_str(name) }),
    }
}

} // verus!
