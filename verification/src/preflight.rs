//! The checks that run against the base directory before a command is
//! dispatched: that it resolves to a git repository, and — where a caller
//! wants it — that its working tree is clean.

use vstd::prelude::*;
use crate::errors::Error;
use crate::invoke::ExitClass;
use crate::invoke::InvocationRequest;
use crate::invoke::Outcome;
use crate::invoke::StreamPolicy;

verus! {

/// The request that asks git whether the working directory is inside a
/// repository: `git rev-parse --git-dir`, all streams captured.
pub fn git_repo_check_request() -> (req: InvocationRequest)
    ensures
        req.program@ == "git"@,
        req.args.deep_view() =~= seq!["rev-parse"@, "--git-dir"@],
        req.stdin == StreamPolicy::Piped,
        req.stdout == StreamPolicy::Piped,
        req.stderr == StreamPolicy::Piped,
        req.label@ == "checking the repository"@,
{
    let mut argv: Vec<String> = Vec::new();
    argv.push(String::from_str("rev-parse"));
    argv.push(String::from_str("--git-dir"));
    let req = InvocationRequest {
        program: String::from_str("git"),
        args: argv,
        stdin: StreamPolicy::Piped,
        stdout: StreamPolicy::Piped,
        stderr: StreamPolicy::Piped,
        label: String::from_str("checking the repository"),
    };
    proof {
        assert(req.args.deep_view() =~= seq![req.args[0]@, req.args[1]@]);
    }
    req
}

/// Read the repository check's outcome: only a clean success proves the
/// base directory is a git repository; anything else — a failure, an
/// interrupt, even undecodable output — refuses it.
pub fn confirm_git_repo(outcome: Result<Outcome, Error>) -> (r: Result<(), Error>)
    ensures
        outcome matches Ok(o) && o.exit is Success <==> r is Ok,
        !(outcome matches Ok(o) && o.exit is Success) ==> r == Err::<(), Error>(
            Error::BaseDirectoryNotAGitRepository,
        ),
{
    match outcome {
        Ok(o) => match o.exit {
            ExitClass::Success => Ok(()),
            ExitClass::QuietInterrupt => Err(Error::BaseDirectoryNotAGitRepository),
        },
        Err(_) => Err(Error::BaseDirectoryNotAGitRepository),
    }
}

/// The request that asks git whether anything differs from the last
/// commit: `git diff-index --quiet HEAD --`, all streams captured.
pub fn clean_check_request() -> (req: InvocationRequest)
    ensures
        req.program@ == "git"@,
        req.args.deep_view() =~= seq!["diff-index"@, "--quiet"@, "HEAD"@, "--"@],
        req.stdin == StreamPolicy::Piped,
        req.stdout == StreamPolicy::Piped,
        req.stderr == StreamPolicy::Piped,
        req.label@ == "checking the working tree"@,
{
    let mut argv: Vec<String> = Vec::new();
    argv.push(String::from_str("diff-index"));
    argv.push(String::from_str("--quiet"));
    argv.push(String::from_str("HEAD"));
    argv.push(String::from_str("--"));
    let req = InvocationRequest {
        program: String::from_str("git"),
        args: argv,
        stdin: StreamPolicy::Piped,
        stdout: StreamPolicy::Piped,
        stderr: StreamPolicy::Piped,
        label: String::from_str("checking the working tree"),
    };
    proof {
        assert(req.args.deep_view() =~= seq![
            req.args[0]@,
            req.args[1]@,
            req.args[2]@,
            req.args[3]@,
        ]);
    }
    req
}

/// Read the cleanliness check's outcome: only a clean success proves the
/// working tree holds no uncommitted change.
pub fn confirm_clean(outcome: Result<Outcome, Error>) -> (r: Result<(), Error>)
    ensures
        outcome matches Ok(o) && o.exit is Success <==> r is Ok,
        !(outcome matches Ok(o) && o.exit is Success) ==> r == Err::<(), Error>(
            Error::BaseDirectoryNotClean,
        ),
{
    match outcome {
        Ok(o) => match o.exit {
            ExitClass::Success => Ok(()),
            ExitClass::QuietInterrupt => Err(Error::BaseDirectoryNotClean),
        },
        Err(_) => Err(Error::BaseDirectoryNotClean),
    }
}

} // verus!
