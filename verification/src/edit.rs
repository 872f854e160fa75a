//! The edit workflow: run the finder, open the path it printed in the
//! editor, then optionally sync. Each transition is a verified function;
//! the unverified shell only runs the requests and feeds the raw results
//! back.

use vstd::prelude::*;
use vstd::utf8::decode_utf8;
use crate::config::Args;
use crate::errors::Error;
use crate::errors::nonzero_exit_message;
use crate::invoke::CTRL_C_EXIT_CODE;
use crate::invoke::ExitClass;
use crate::invoke::InvocationRequest;
use crate::invoke::Outcome;
use crate::invoke::RawOutput;
use crate::invoke::StreamPolicy;
use crate::invoke::classify;
use crate::invoke::classify_exit;
use crate::invoke::stderr_text;
use crate::invoke::streams_decode;
use crate::text::contains_seq;
use crate::text::int_str;
use crate::text::trim_spec;

verus! {

/// The request that runs a custom shell invocation (the finder or the
/// lister): the user's shell, its command flag, and the invocation text.
/// Stdout is captured; stdin and stderr pass through to the terminal
/// unless capture mode is on.
pub fn custom_invocation_request(args: &Args, shell: String, invocation: String) -> (req:
    InvocationRequest)
    ensures
        req.program@ == shell@,
        req.args.deep_view() =~= seq![args.shell_cmd_flag@, invocation@],
        req.stdout == StreamPolicy::Piped,
        args.capture_std ==> req.stdin == StreamPolicy::Piped && req.stderr == StreamPolicy::Piped,
        !args.capture_std ==> req.stdin == StreamPolicy::Inherit && req.stderr
            == StreamPolicy::Inherit,
        req.label@ == "finder"@,
{
    let mut argv: Vec<String> = Vec::new();
    argv.push(args.shell_cmd_flag.clone());
    argv.push(invocation);
    let stream = if args.capture_std {
        StreamPolicy::Piped
    } else {
        StreamPolicy::Inherit
    };
    let req = InvocationRequest {
        program: shell,
        args: argv,
        stdin: stream,
        stdout: StreamPolicy::Piped,
        stderr: stream,
        label: String::from_str("finder"),
    };
    proof {
        assert(req.args.deep_view() =~= seq![args.shell_cmd_flag@, req.args[1]@]);
    }
    req
}

/// The request that runs the finder invocation.
pub fn finder_request(args: &Args, shell: String) -> (req: InvocationRequest)
    ensures
        req.program@ == shell@,
        req.args.deep_view() =~= seq![args.shell_cmd_flag@, args.finder@],
        req.stdout == StreamPolicy::Piped,
        args.capture_std ==> req.stdin == StreamPolicy::Piped && req.stderr == StreamPolicy::Piped,
        !args.capture_std ==> req.stdin == StreamPolicy::Inherit && req.stderr
            == StreamPolicy::Inherit,
        req.label@ == "finder"@,
{
    custom_invocation_request(args, shell, args.finder.clone())
}

/// The request that opens the editor at one path, its sole argument.
/// Stdin and stdout pass through so the editor owns the terminal; stderr
/// is captured regardless of the global capture flag, to surface editor
/// errors distinctly.
pub fn editor_request(editor: String, path: String) -> (req: InvocationRequest)
    ensures
        req.program@ == editor@,
        req.args.deep_view() =~= seq![path@],
        req.stdin == StreamPolicy::Inherit,
        req.stdout == StreamPolicy::Inherit,
        req.stderr == StreamPolicy::Piped,
        req.label@ == "$EDITOR"@,
{
    let mut argv: Vec<String> = Vec::new();
    argv.push(path);
    let req = InvocationRequest {
        program: editor,
        args: argv,
        stdin: StreamPolicy::Inherit,
        stdout: StreamPolicy::Inherit,
        stderr: StreamPolicy::Piped,
        label: String::from_str("$EDITOR"),
    };
    proof {
        assert(req.args.deep_view() =~= seq![req.args[0]@]);
    }
    req
}

/// What the edit workflow does once the finder has finished.
#[derive(Debug)]
pub enum AfterFinder {
    /// The finder chose this path; open it in the editor.
    OpenEditor { path: String },
    /// The finder was interrupted and the quiet setting is on: the
    /// workflow is over, successfully, and whatever partial output the
    /// finder printed is discarded.
    Stop,
}

/// Classify the finder's raw result and decide the next step.
///
/// A quiet interrupt ends the workflow at once, successfully: the editor
/// is never launched and the finder's partial stdout is never used. A
/// success hands the trimmed stdout on as the path to edit, trusted as
/// the finder printed it. Any failure propagates unchanged.
pub fn edit_handle_finder(args: &Args, raw: RawOutput, invocation: &String) -> (r: Result<
    AfterFinder,
    Error,
>)
    ensures
        args.quiet_on_ctrl_c && raw.exit_code == Some(CTRL_C_EXIT_CODE) && streams_decode(
            raw,
            args.capture_std,
        ) ==> r == Ok::<AfterFinder, Error>(AfterFinder::Stop),
        !streams_decode(raw, args.capture_std) ==> (r matches Err(e)
            && e is InvocationOutputNotUtf8),
        streams_decode(raw, args.capture_std) ==> match classify_exit(
            raw.exit_code,
            args.quiet_on_ctrl_c,
        ) {
            Some(ExitClass::Success) => r matches Ok(n) && n matches AfterFinder::OpenEditor {
                path,
            } && path@ == trim_spec(decode_utf8(raw.stdout@)),
            Some(ExitClass::QuietInterrupt) => r == Ok::<AfterFinder, Error>(AfterFinder::Stop),
            None => r matches Err(e) && e matches Error::InvocationNonZeroExit {
                label,
                invocation: inv,
                exit_code,
                stdout,
                stderr,
            } && label@ == "finder"@ && inv@ == invocation@ && exit_code == raw.exit_code
                && stdout@ == decode_utf8(raw.stdout@) && stderr@ == stderr_text(
                raw.stderr@,
                args.capture_std,
            ),
        },
{
    let label = String::from_str("finder");
    let classified = classify(raw, &label, invocation, args.capture_std, args.quiet_on_ctrl_c);
    match classified {
        Ok(outcome) => {
            let Outcome { stdout, stderr: _, exit } = outcome;
            match exit {
                ExitClass::Success => Ok(AfterFinder::OpenEditor { path: stdout }),
                ExitClass::QuietInterrupt => Ok(AfterFinder::Stop),
            }
        },
        Err(e) => Err(e),
    }
}

/// What the edit workflow does once the editor has returned.
#[derive(Debug)]
pub enum AfterEditor {
    /// The editor exited cleanly and editing is configured to finish with
    /// a sync.
    RunSync,
    /// Nothing is left to do.
    Finished,
}

/// Classify the editor's raw result and decide whether a sync follows.
///
/// Only a clean editor exit under the sync-on-edit setting leads into the
/// sync orchestrator; an interrupt treated quietly ends the workflow
/// without one, and any failure propagates unchanged.
pub fn edit_handle_editor(args: &Args, raw: RawOutput, invocation: &String) -> (r: Result<
    AfterEditor,
    Error,
>)
    ensures
        !streams_decode(raw, true) ==> (r matches Err(e) && e is InvocationOutputNotUtf8),
        streams_decode(raw, true) ==> match classify_exit(raw.exit_code, args.quiet_on_ctrl_c) {
            Some(ExitClass::Success) => r == Ok::<AfterEditor, Error>(
                if args.edit_syncs {
                    AfterEditor::RunSync
                } else {
                    AfterEditor::Finished
                },
            ),
            Some(ExitClass::QuietInterrupt) => r == Ok::<AfterEditor, Error>(
                AfterEditor::Finished,
            ),
            None => r matches Err(e) && e matches Error::InvocationNonZeroExit {
                label,
                invocation: inv,
                exit_code,
                stdout,
                stderr,
            } && label@ == "$EDITOR"@ && inv@ == invocation@ && exit_code == raw.exit_code
                && stdout@ == decode_utf8(raw.stdout@) && stderr@ == stderr_text(raw.stderr@, true),
        },
{
    let label = String::from_str("$EDITOR");
    let classified = classify(raw, &label, invocation, true, args.quiet_on_ctrl_c);
    match classified {
        Ok(outcome) => match outcome.exit {
            ExitClass::Success => {
                if args.edit_syncs {
                    Ok(AfterEditor::RunSync)
                } else {
                    Ok(AfterEditor::Finished)
                }
            },
            ExitClass::QuietInterrupt => Ok(AfterEditor::Finished),
        },
        Err(e) => Err(e),
    }
}

/// How the new-note workflow treats the file at its resolved target
/// path before handing the path to the editor step.
#[derive(Clone, Copy, Debug, PartialEq, Eq, Structural)]
pub enum FileAction {
    /// Nothing exists there yet: create an empty file, then open it.
    CreateThenOpen,
    /// A file already exists there: open it as it is, neither truncated
    /// nor recreated.
    OpenExisting,
}

/// Decide what creating a new note does to its target, given whether a
/// file already exists at the resolved path. An existing note is never
/// touched; either way the editor is launched next.
pub fn new_file_action(already_exists: bool) -> (a: FileAction)
    ensures
        already_exists ==> a == FileAction::OpenExisting,
        !already_exists ==> a == FileAction::CreateThenOpen,
{
    if already_exists {
        FileAction::OpenExisting
    } else {
        FileAction::CreateThenOpen
    }
}

/// With the quiet setting off, a keyboard interrupt is an ordinary
/// failure, and its diagnostic shows the interrupt code.
pub proof fn lemma_loud_interrupt_is_failure(
    label: Seq<char>,
    invocation: Seq<char>,
    stdout: Seq<char>,
    stderr: Seq<char>,
)
    ensures
        classify_exit(Some(CTRL_C_EXIT_CODE), false) is None,
        contains_seq(
            nonzero_exit_message(label, invocation, Some(CTRL_C_EXIT_CODE), stdout, stderr),
            "130"@,
        ),
{
    reveal_strlit("130");
    assert(crate::text::dec_str(1nat) =~= seq!['1']);
    assert(crate::text::dec_str(13nat) =~= seq!['1', '3']);
    assert(crate::text::dec_str(130nat) =~= seq!['1', '3', '0']);
    assert(int_str(130int) =~= "130"@);
    crate::errors::lemma_diagnostic_contains_exit_code(
        label,
        invocation,
        Some(CTRL_C_EXIT_CODE),
        stdout,
        stderr,
    );
}

} // verus!
