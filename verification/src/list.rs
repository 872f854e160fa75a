//! The list workflow: move the working context to a resolved subtree of
//! the base directory, run the lister there, print what it wrote, and
//! restore the working directory to the base directory on every path out
//! — a failing lister included.

use vstd::prelude::*;
use vstd::utf8::decode_utf8;
use crate::config::Args;
use crate::edit::custom_invocation_request;
use crate::errors::Error;
use crate::invoke::ExitClass;
use crate::invoke::InvocationRequest;
use crate::invoke::RawOutput;
use crate::invoke::StreamPolicy;
use crate::invoke::classify;
use crate::invoke::classify_exit;
use crate::invoke::stderr_text;
use crate::invoke::streams_decode;
use crate::paths::is_absolute_path;
use crate::paths::is_descendant_of;
use crate::paths::joined_path;
use crate::paths::relative_path_to_absolute;
use crate::text::trim_spec;

verus! {

/// The directory the lister runs from: the resolved subpath, or the base
/// directory itself when none was given.
pub fn listing_path(args: &Args, subpath: Option<String>) -> (r: Result<String, Error>)
    ensures
        r matches Ok(p) ==> is_descendant_of(p@, args.base_dir@),
        subpath is None ==> (r matches Ok(p) && p@ == args.base_dir@),
        subpath matches Some(s) ==> {
            &&& !is_absolute_path(s@) ==> (r matches Ok(p) && p@ == joined_path(
                args.base_dir@,
                s@,
            ))
            &&& is_absolute_path(s@) && is_descendant_of(s@, args.base_dir@) ==> (r matches Ok(p)
                && p@ == s@)
            &&& is_absolute_path(s@) && !is_descendant_of(s@, args.base_dir@) ==> (r matches Err(e)
                && e matches Error::PathOutsideBaseDirectory { candidate, base } && candidate@
                == s@ && base@ == args.base_dir@)
        },
{
    match subpath {
        None => Ok(args.base_dir.clone()),
        Some(s) => relative_path_to_absolute(args, &s),
    }
}

/// The request that runs the lister invocation from the listing path.
pub fn lister_request(args: &Args, shell: String) -> (req: InvocationRequest)
    ensures
        req.program@ == shell@,
        req.args.deep_view() =~= seq![args.shell_cmd_flag@, args.lister@],
        req.stdout == StreamPolicy::Piped,
        args.capture_std ==> req.stdin == StreamPolicy::Piped && req.stderr == StreamPolicy::Piped,
        !args.capture_std ==> req.stdin == StreamPolicy::Inherit && req.stderr
            == StreamPolicy::Inherit,
        req.label@ == "finder"@,
{
    custom_invocation_request(args, shell, args.lister.clone())
}

/// How the list workflow ends: where the working directory must be
/// restored to — unconditionally the base directory — and then what to
/// report: a listing to print, a quiet stop with nothing to print, or the
/// lister's failure.
pub struct ListConclusion {
    pub restore_to: String,
    pub result: Result<Option<String>, Error>,
}

/// Conclude the list workflow from the lister's raw result.
///
/// Whatever the lister did — printed a listing, was interrupted, failed,
/// or produced bytes that do not decode — the conclusion orders the
/// working directory restored to the base directory; only the report
/// beside that order differs.
pub fn list_handle_lister(args: &Args, raw: RawOutput, invocation: &String) -> (c: ListConclusion)
    ensures
        c.restore_to@ == args.base_dir@,
        !streams_decode(raw, args.capture_std) ==> (c.result matches Err(e)
            && e is InvocationOutputNotUtf8),
        streams_decode(raw, args.capture_std) ==> match classify_exit(
            raw.exit_code,
            args.quiet_on_ctrl_c,
        ) {
            Some(ExitClass::Success) => c.result matches Ok(p) && p matches Some(out) && out@
                == trim_spec(decode_utf8(raw.stdout@)),
            Some(ExitClass::QuietInterrupt) => c.result == Ok::<Option<String>, Error>(None),
            None => c.result matches Err(e) && e matches Error::InvocationNonZeroExit {
                label,
                invocation: inv,
                exit_code,
                stdout,
                stderr,
            } && label@ == "finder"@ && inv@ == invocation@ && exit_code == raw.exit_code
                && stdout@ == decode_utf8(raw.stdout@) && stderr@ == stderr_text(
                raw.stderr@,
                args.capture_std,
            ),
        },
{
    let label = String::from_str("finder");
    let classified = classify(raw, &label, invocation, args.capture_std, args.quiet_on_ctrl_c);
    let result = match classified {
        Ok(outcome) => match outcome.exit {
            ExitClass::Success => Ok(Some(outcome.stdout)),
            ExitClass::QuietInterrupt => Ok(None),
        },
        Err(e) => Err(e),
    };
    ListConclusion { restore_to: args.base_dir.clone(), result }
}

} // verus!
