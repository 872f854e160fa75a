//! Every way a workflow can fail, with the data a user needs to retry by
//! hand, and the verified rendering of each into one diagnostic line.

use vstd::prelude::*;
use crate::sync::SyncPhase;
use crate::text::int_str;
use crate::text::render_i64;

verus! {

/// A workflow failure. Each variant carries the context its diagnostic
/// shows; nothing is swallowed but the quiet-interrupt outcome, which is
/// not an error at all (see [`crate::invoke::Outcome::QuietInterrupt`]).
#[derive(Debug)]
pub enum Error {
    /// A required environment variable is absent.
    MissingEnvironmentVariable { name: String },
    /// The child process could not be started at all.
    InvocationLaunchFailure { label: String, invocation: String },
    /// A captured stream held bytes that are not valid UTF-8.
    InvocationOutputNotUtf8,
    /// The child ran but exited with a non-zero code (`None` when a
    /// signal killed it before it could exit).
    InvocationNonZeroExit {
        label: String,
        invocation: String,
        exit_code: Option<i32>,
        stdout: String,
        stderr: String,
    },
    /// An absolute candidate path does not lie under the base directory.
    PathOutsideBaseDirectory { candidate: String, base: String },
    /// The process's working directory could not be moved to `target`.
    WorkingDirectoryChangeFailure { target: String },
    /// A sync phase failed; `cause` is the underlying invocation error.
    SyncPhaseFailure { phase: SyncPhase, cause: Box<Error> },
    /// The base directory does not resolve to a git repository.
    BaseDirectoryNotAGitRepository,
    /// The base directory's working tree has uncommitted changes.
    BaseDirectoryNotClean,
}

/// How an exit code appears in a diagnostic: its decimal value, or a
/// placeholder when a signal left no code.
pub open spec fn exit_code_text(code: Option<i32>) -> Seq<char> {
    match code {
        Some(i) => int_str(i as int),
        None => "N/A"@,
    }
}

/// Render an exit code for a diagnostic, matching [`exit_code_text`].
pub fn exit_code_str(code: &Option<i32>) -> (r: String)
    ensures
        r@ == exit_code_text(*code),
{
    match code {
        None => String::from_str("N/A"),
        Some(i) => render_i64(*i as i64),
    }
}

/// The context line a failing sync phase prepends to its underlying
/// diagnostic. Pull and push failures tell the user how to recover; a
/// staging or commit failure speaks for itself.
pub open spec fn sync_phase_context(phase: SyncPhase) -> Seq<char> {
    match phase {
        SyncPhase::Pull => "failed to pull upstream changes, please fix the issue and run jot sync: "@,
        SyncPhase::Stage => ""@,
        SyncPhase::Commit => ""@,
        SyncPhase::Push => "failed to push to upstream, please fix the issue and run jot sync: "@,
    }
}

/// The diagnostic of a child that ran but exited unsuccessfully: the
/// label, the quoted invocation, the exit code, and both stream
/// snapshots.
pub open spec fn nonzero_exit_message(
    label: Seq<char>,
    invocation: Seq<char>,
    exit_code: Option<i32>,
    stdout: Seq<char>,
    stderr: Seq<char>,
) -> Seq<char> {
    label + " (`"@ + invocation + "`) exited unsuccessfully with non-zero exit code ("@
        + exit_code_text(exit_code) + ")\n\tstdout:\n\t\""@ + stdout + "\"\n\tstderr:\n\t\""@
        + stderr + "\""@
}

/// A failure diagnostic always shows the exit code it reports.
pub proof fn lemma_diagnostic_contains_exit_code(
    label: Seq<char>,
    invocation: Seq<char>,
    exit_code: Option<i32>,
    stdout: Seq<char>,
    stderr: Seq<char>,
)
    ensures
        crate::text::contains_seq(
            nonzero_exit_message(label, invocation, exit_code, stdout, stderr),
            exit_code_text(exit_code),
        ),
{
    let before = label + " (`"@ + invocation
        + "`) exited unsuccessfully with non-zero exit code ("@;
    let after = ")\n\tstdout:\n\t\""@ + stdout + "\"\n\tstderr:\n\t\""@ + stderr + "\""@;
    let needle = exit_code_text(exit_code);
    assert(nonzero_exit_message(label, invocation, exit_code, stdout, stderr) =~= before + needle
        + after);
    crate::text::lemma_contains_middle(before, needle, after);
}

/// The one diagnostic line each error renders to.
pub open spec fn error_message(e: Error) -> Seq<char>
    decreases e,
{
    match e {
        Error::MissingEnvironmentVariable { name } => "failed to find $"@ + name@
            + " in environment"@,
        Error::InvocationLaunchFailure { label, invocation } => "failed to execute "@ + label@
            + ": `"@ + invocation@ + "`"@,
        Error::InvocationOutputNotUtf8 => "invocation output was not valid utf-8"@,
        Error::InvocationNonZeroExit { label, invocation, exit_code, stdout, stderr } =>
            nonzero_exit_message(label@, invocation@, exit_code, stdout@, stderr@),
        Error::PathOutsideBaseDirectory { candidate, base } => "given path must be below base_dir; "@
            + candidate@ + " is not"@,
        Error::WorkingDirectoryChangeFailure { target } => "failed to change jot's working directory to "@
            + target@ + " for listing"@,
        Error::SyncPhaseFailure { phase, cause } => sync_phase_context(phase) + error_message(*cause),
        Error::BaseDirectoryNotAGitRepository => "base_dir must be an existing git repository"@,
        Error::BaseDirectoryNotClean => "base_dir has changes that are not committed"@,
    }
}

impl Error {
    /// The human-readable diagnostic for this error, matching
    /// [`error_message`].
    pub fn message(&self) -> (r: String)
        ensures
            r@ == error_message(*self),
        decreases *self,
    {
        match self {
            Error::MissingEnvironmentVariable { name } => {
                let mut out = String::from_str("failed to find $");
                out.append(name.as_str());
                out.append(" in environment");
                out
            },
            Error::InvocationLaunchFailure { label, invocation } => {
                let mut out = String::from_str("failed to execute ");
                out.append(label.as_str());
                out.append(": `");
                out.append(invocation.as_str());
                out.append("`");
                out
            },
            Error::InvocationOutputNotUtf8 => String::from_str(
                "invocation output was not valid utf-8",
            ),
            Error::InvocationNonZeroExit { label, invocation, exit_code, stdout, stderr } => {
                let mut out = label.clone();
                out.append(" (`");
                out.append(invocation.as_str());
                out.append("`) exited unsuccessfully with non-zero exit code (");
                let code = exit_code_str(exit_code);
                out.append(code.as_str());
                out.append(")\n\tstdout:\n\t\"");
                out.append(stdout.as_str());
                out.append("\"\n\tstderr:\n\t\"");
                out.append(stderr.as_str());
                out.append("\"");
                out
            },
            Error::PathOutsideBaseDirectory { candidate, base: _ } => {
                let mut out = String::from_str("given path must be below base_dir; ");
                out.append(candidate.as_str());
                out.append(" is not");
                out
            },
            Error::WorkingDirectoryChangeFailure { target } => {
                let mut out = String::from_str("failed to change jot's working directory to ");
                out.append(target.as_str());
                out.append(" for listing");
                out
            },
            Error::SyncPhaseFailure { phase, cause } => {
                let prefix: &str = match phase {
                    SyncPhase::Pull => "failed to pull upstream changes, please fix the issue and run jot sync: ",
                    SyncPhase::Stage => "",
                    SyncPhase::Commit => "",
                    SyncPhase::Push => "failed to push to upstream, please fix the issue and run jot sync: ",
                };
                let mut out = String::from_str(prefix);
                let inner = cause.message();
                out.append(inner.as_str());
                out
            },
            Error::BaseDirectoryNotAGitRepository => String::from_str(
                "base_dir must be an existing git repository",
            ),
            Error::BaseDirectoryNotClean => String::from_str(
                "base_dir has changes that are not committed",
            ),
        }
    }
}

} // verus!
