//! The synchronization orchestrator: four git phases, strictly in order,
//! failing fast on the first one that goes wrong. Pull and push failures
//! carry a remedy in their diagnostic; an interrupt during any phase,
//! treated quietly, is a hard stop with no partial continuation.
//!
//! Commit failure is deliberately no exception to the fail-fast rule: a
//! commit with nothing staged exits non-zero and aborts the sync before
//! the push, like any other phase failure. Silently ignoring it could
//! not tell "nothing to commit" from a genuine error.

use vstd::prelude::*;
use crate::config::Args;
use crate::errors::Error;
use crate::invoke::ExitClass;
use crate::invoke::InvocationRequest;
use crate::invoke::Outcome;
use crate::invoke::StreamPolicy;

verus! {

/// The four ordered phases of a sync. Each phase runs only if every
/// earlier one succeeded.
#[derive(Clone, Copy, Debug, PartialEq, Eq, Structural)]
pub enum SyncPhase {
    /// `git pull <remote> <branch>`: fetch and merge upstream changes.
    Pull,
    /// `git add -A`: stage every local change.
    Stage,
    /// `git commit`, with a synthesized timestamp message unless the user
    /// asked to be prompted.
    Commit,
    /// `git push <remote> <branch>`: publish the commit.
    Push,
}

/// The first second that a seconds-precision RFC 3339 timestamp can no
/// longer show with a four-digit year: the start of year 10000.
pub const RFC3339_SECONDS_LIMIT: u64 = 253_402_300_800;

/// The RFC 3339 rendering, at seconds precision and in UTC, of a moment
/// given as seconds since the Unix epoch.
pub uninterp spec fn rfc3339_of(secs: u64) -> Seq<char>;

/// Relies on `humantime::format_rfc3339_seconds`: the rendering is UTC at
/// seconds precision, depends on the seconds alone, and is exactly the 20
/// characters `YYYY-MM-DDThh:mm:ssZ` for any moment before year 10000.
#[verifier::external_body]
fn format_rfc3339_seconds(secs: u64) -> (r: String)
    requires
        secs < RFC3339_SECONDS_LIMIT,
    ensures
        r@ == rfc3339_of(secs),
        r@.len() == 20,
{
    let moment = std::time::UNIX_EPOCH + std::time::Duration::from_secs(secs);
    humantime::format_rfc3339_seconds(moment).to_string()
}

/// The request for the pull phase: `git pull <remote> <branch>`, all
/// streams captured.
pub fn pull_request(args: &Args) -> (req: InvocationRequest)
    ensures
        req.program@ == "git"@,
        req.args.deep_view() =~= seq!["pull"@, args.git_remote_name@, args.git_upstream_branch@],
        req.stdin == StreamPolicy::Piped,
        req.stdout == StreamPolicy::Piped,
        req.stderr == StreamPolicy::Piped,
        req.label@ == "pulling"@,
{
    let mut argv: Vec<String> = Vec::new();
    argv.push(String::from_str("pull"));
    argv.push(args.git_remote_name.clone());
    argv.push(args.git_upstream_branch.clone());
    let req = InvocationRequest {
        program: String::from_str("git"),
        args: argv,
        stdin: StreamPolicy::Piped,
        stdout: StreamPolicy::Piped,
        stderr: StreamPolicy::Piped,
        label: String::from_str("pulling"),
    };
    proof {
        assert(req.args.deep_view() =~= seq![
            req.args[0]@,
            args.git_remote_name@,
            args.git_upstream_branch@,
        ]);
    }
    req
}

/// The request for the stage phase: `git add -A`, all streams captured.
pub fn stage_request() -> (req: InvocationRequest)
    ensures
        req.program@ == "git"@,
        req.args.deep_view() =~= seq!["add"@, "-A"@],
        req.stdin == StreamPolicy::Piped,
        req.stdout == StreamPolicy::Piped,
        req.stderr == StreamPolicy::Piped,
        req.label@ == "staging"@,
{
    let mut argv: Vec<String> = Vec::new();
    argv.push(String::from_str("add"));
    argv.push(String::from_str("-A"));
    let req = InvocationRequest {
        program: String::from_str("git"),
        args: argv,
        stdin: StreamPolicy::Piped,
        stdout: StreamPolicy::Piped,
        stderr: StreamPolicy::Piped,
        label: String::from_str("staging"),
    };
    proof {
        assert(req.args.deep_view() =~= seq![req.args[0]@, req.args[1]@]);
    }
    req
}

/// The request for the commit phase, built when the phase begins.
///
/// With the custom-message mode on, the bare `git commit` runs with stdin
/// and stdout inherited, so whatever prompt the user's git configuration
/// brings up runs interactively. Otherwise the message is the RFC 3339
/// rendering, at seconds precision, of `now_secs` — the moment the phase
/// began — passed with the `-m` flag.
pub fn commit_request(args: &Args, now_secs: u64) -> (req: InvocationRequest)
    requires
        !args.git_custom_commit_msg ==> now_secs < RFC3339_SECONDS_LIMIT,
    ensures
        req.program@ == "git"@,
        args.git_custom_commit_msg ==> req.args.deep_view() =~= seq!["commit"@] && req.stdin
            == StreamPolicy::Inherit && req.stdout == StreamPolicy::Inherit,
        !args.git_custom_commit_msg ==> req.args.deep_view() =~= seq![
            "commit"@,
            "-m"@,
            rfc3339_of(now_secs),
        ] && req.stdin == StreamPolicy::Piped && req.stdout == StreamPolicy::Piped,
        req.stderr == StreamPolicy::Piped,
        req.label@ == "committing"@,
{
    let mut argv: Vec<String> = Vec::new();
    argv.push(String::from_str("commit"));
    if args.git_custom_commit_msg {
        let req = InvocationRequest {
            program: String::from_str("git"),
            args: argv,
            stdin: StreamPolicy::Inherit,
            stdout: StreamPolicy::Inherit,
            stderr: StreamPolicy::Piped,
            label: String::from_str("committing"),
        };
        proof {
            assert(req.args.deep_view() =~= seq![req.args[0]@]);
        }
        req
    } else {
        argv.push(String::from_str("-m"));
        argv.push(format_rfc3339_seconds(now_secs));
        let req = InvocationRequest {
            program: String::from_str("git"),
            args: argv,
            stdin: StreamPolicy::Piped,
            stdout: StreamPolicy::Piped,
            stderr: StreamPolicy::Piped,
            label: String::from_str("committing"),
        };
        proof {
            assert(req.args.deep_view() =~= seq![req.args[0]@, req.args[1]@, req.args[2]@]);
        }
        req
    }
}

/// The request for the push phase: `git push <remote> <branch>`, all
/// streams captured.
pub fn push_request(args: &Args) -> (req: InvocationRequest)
    ensures
        req.program@ == "git"@,
        req.args.deep_view() =~= seq!["push"@, args.git_remote_name@, args.git_upstream_branch@],
        req.stdin == StreamPolicy::Piped,
        req.stdout == StreamPolicy::Piped,
        req.stderr == StreamPolicy::Piped,
        req.label@ == "pushing"@,
{
    let mut argv: Vec<String> = Vec::new();
    argv.push(String::from_str("push"));
    argv.push(args.git_remote_name.clone());
    argv.push(args.git_upstream_branch.clone());
    let req = InvocationRequest {
        program: String::from_str("git"),
        args: argv,
        stdin: StreamPolicy::Piped,
        stdout: StreamPolicy::Piped,
        stderr: StreamPolicy::Piped,
        label: String::from_str("pushing"),
    };
    proof {
        assert(req.args.deep_view() =~= seq![
            req.args[0]@,
            args.git_remote_name@,
            args.git_upstream_branch@,
        ]);
    }
    req
}

/// The phase that follows `phase` when it succeeds; `None` after the
/// last.
pub open spec fn next_phase(phase: SyncPhase) -> Option<SyncPhase> {
    match phase {
        SyncPhase::Pull => Some(SyncPhase::Stage),
        SyncPhase::Stage => Some(SyncPhase::Commit),
        SyncPhase::Commit => Some(SyncPhase::Push),
        SyncPhase::Push => None,
    }
}

/// The decision the orchestrator takes once a phase has been classified:
/// `Some(Some(p))` runs phase `p` next, `Some(None)` stops with the sync
/// over (finished, or interrupted quietly), and `None` stops failed.
pub open spec fn sync_decision(phase: SyncPhase, exit: Option<ExitClass>) -> Option<
    Option<SyncPhase>,
> {
    match exit {
        Some(ExitClass::Success) => Some(next_phase(phase)),
        Some(ExitClass::QuietInterrupt) => Some(None),
        None => None,
    }
}

/// Take the orchestrator one step: the classified result of `phase`
/// either gates the next phase open, ends the sync, or wraps the
/// underlying error as this phase's failure.
pub fn sync_advance(phase: SyncPhase, outcome: Result<Outcome, Error>) -> (r: Result<
    Option<SyncPhase>,
    Error,
>)
    ensures
        outcome matches Ok(o) ==> r matches Ok(n) && Some(n) == sync_decision(
            phase,
            Some(o.exit),
        ),
        outcome matches Ok(o) && o.exit is Success ==> r == Ok::<Option<SyncPhase>, Error>(
            next_phase(phase),
        ),
        outcome matches Ok(o) && o.exit is QuietInterrupt ==> r == Ok::<Option<SyncPhase>, Error>(
            None,
        ),
        outcome matches Err(e) ==> (r matches Err(f) && f matches Error::SyncPhaseFailure {
            phase: p,
            cause,
        } && p == phase && *cause == e),
{
    match outcome {
        Ok(o) => match o.exit {
            ExitClass::Success => match phase {
                SyncPhase::Pull => Ok(Some(SyncPhase::Stage)),
                SyncPhase::Stage => Ok(Some(SyncPhase::Commit)),
                SyncPhase::Commit => Ok(Some(SyncPhase::Push)),
                SyncPhase::Push => Ok(None),
            },
            ExitClass::QuietInterrupt => Ok(None),
        },
        Err(e) => Err(Error::SyncPhaseFailure { phase, cause: Box::new(e) }),
    }
}

/// How many phases can still run from `phase` on, the phase itself
/// included.
pub open spec fn phases_left(phase: SyncPhase) -> nat {
    match phase {
        SyncPhase::Pull => 4,
        SyncPhase::Stage => 3,
        SyncPhase::Commit => 2,
        SyncPhase::Push => 1,
    }
}

/// The phases one sync run invokes from `phase` on, when `exits` gives
/// the exit class each git phase would report if it ran (`None` standing
/// for a failing exit). A phase always runs itself; only a clean success
/// opens the next one.
pub open spec fn phases_run_from(
    phase: SyncPhase,
    exits: spec_fn(SyncPhase) -> Option<ExitClass>,
) -> Seq<SyncPhase>
    decreases phases_left(phase),
{
    if exits(phase) == Some(ExitClass::Success) {
        match next_phase(phase) {
            Some(n) => seq![phase] + phases_run_from(n, exits),
            None => seq![phase],
        }
    } else {
        seq![phase]
    }
}

/// One unfolding of [`phases_run_from`] is exactly one [`sync_decision`]:
/// the spec-level trace and the step the executable orchestrator takes
/// agree.
pub proof fn lemma_phases_run_step(phase: SyncPhase, exits: spec_fn(SyncPhase) -> Option<ExitClass>)
    ensures
        phases_run_from(phase, exits) == seq![phase] + (match sync_decision(phase, exits(phase)) {
            Some(Some(n)) => phases_run_from(n, exits),
            Some(None) => Seq::<SyncPhase>::empty(),
            None => Seq::<SyncPhase>::empty(),
        }),
{
    assert(seq![phase] + Seq::<SyncPhase>::empty() =~= seq![phase]);
}

/// Fail-fast: a sync whose pull does not succeed never invokes staging,
/// committing or pushing; one whose staging does not succeed never
/// invokes committing or pushing; one whose commit does not succeed never
/// invokes pushing.
pub proof fn lemma_sync_fail_fast(exits: spec_fn(SyncPhase) -> Option<ExitClass>)
    ensures
        exits(SyncPhase::Pull) != Some(ExitClass::Success) ==> phases_run_from(
            SyncPhase::Pull,
            exits,
        ) =~= seq![SyncPhase::Pull],
        exits(SyncPhase::Stage) != Some(ExitClass::Success) ==> !phases_run_from(
            SyncPhase::Pull,
            exits,
        ).contains(SyncPhase::Commit) && !phases_run_from(SyncPhase::Pull, exits).contains(
            SyncPhase::Push,
        ),
        exits(SyncPhase::Commit) != Some(ExitClass::Success) ==> !phases_run_from(
            SyncPhase::Pull,
            exits,
        ).contains(SyncPhase::Push),
{
    let run = phases_run_from(SyncPhase::Pull, exits);
    if exits(SyncPhase::Pull) != Some(ExitClass::Success) {
        assert(run =~= seq![SyncPhase::Pull]);
    } else if exits(SyncPhase::Stage) != Some(ExitClass::Success) {
        assert(phases_run_from(SyncPhase::Stage, exits) =~= seq![SyncPhase::Stage]);
        assert(run =~= seq![SyncPhase::Pull, SyncPhase::Stage]);
    } else if exits(SyncPhase::Commit) != Some(ExitClass::Success) {
        assert(phases_run_from(SyncPhase::Commit, exits) =~= seq![SyncPhase::Commit]);
        assert(phases_run_from(SyncPhase::Stage, exits) =~= seq![SyncPhase::Stage, SyncPhase::Commit]);
        assert(run =~= seq![SyncPhase::Pull, SyncPhase::Stage, SyncPhase::Commit]);
    } else {
        assert(phases_run_from(SyncPhase::Push, exits) =~= seq![SyncPhase::Push]);
        assert(phases_run_from(SyncPhase::Commit, exits) =~= seq![SyncPhase::Commit, SyncPhase::Push]);
        assert(phases_run_from(SyncPhase::Stage, exits) =~= seq![SyncPhase::Stage, SyncPhase::Commit, SyncPhase::Push]);
        assert(run =~= seq![SyncPhase::Pull, SyncPhase::Stage, SyncPhase::Commit, SyncPhase::Push]);
    }
}

} // verus!
