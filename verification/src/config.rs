//! The configuration that one run of the program works under, and the
//! command it was asked to perform.

use vstd::prelude::*;

verus! {

/// Everything the user chose on the command line. Built once at process
/// start, read-only afterwards.
///
/// Paths are held as plain strings: the base directory must be absolute,
/// and every path the workflows touch is resolved against it (see
/// [`crate::paths::relative_path_to_absolute`]).
pub struct Args {
    /// The command to run; `None` falls back to edit mode.
    pub command: Option<Command>,
    /// Base directory under which all notes must reside. Must be a git
    /// working tree.
    pub base_dir: String,
    /// A shell invocation that prints a single filepath to stdout.
    pub finder: String,
    /// A shell invocation that, run from a directory, prints a listing of
    /// the notes under it to stdout.
    pub lister: String,
    /// Editing finishes with a sync automatically.
    pub edit_syncs: bool,
    /// Capture stderr and pipe stdin for custom invocations. When off,
    /// the child inherits both streams, so interactive programs such as
    /// fuzzy finders keep the terminal.
    pub capture_std: bool,
    /// The flag that makes the user's shell run a command string, e.g.
    /// `-c` for bash.
    pub shell_cmd_flag: String,
    /// Treat an invocation that exits with the keyboard-interrupt code as
    /// a quiet stop rather than a failure.
    pub quiet_on_ctrl_c: bool,
    /// Name of the git remote to pull from and push to.
    pub git_remote_name: String,
    /// Name of the upstream branch to pull from and push to.
    pub git_upstream_branch: String,
    /// Let git prompt for a commit message when syncing, instead of a
    /// synthesized timestamp message.
    pub git_custom_commit_msg: bool,
}

/// The subcommands the program dispatches on. Exactly one runs per
/// process.
pub enum Command {
    /// Create a note at the given path (absolute, or relative to the base
    /// directory; either way it must lie beneath the base directory) and
    /// open it in the editor. An existing file is opened as it is.
    New { path: String },
    /// Run the finder, then open the path it printed in the editor. This
    /// is the default when no subcommand is given.
    Edit,
    /// Run the lister from the given subtree of the base directory, or
    /// from the base directory itself when no subpath is given.
    List { subpath: Option<String> },
    /// Pull, stage, commit and push the notes, failing fast on the first
    /// phase that goes wrong.
    Synch,
}

} // verus!
