use vstd::prelude::*;

verus! {

/// What the user asked for on the command line.
#[derive(Debug, Clone)]
pub struct Args {
    /// The subcommand, if one was given.
    pub command: Option<Commands>,
    /// Show what would be written, and write nothing.
    pub dry_run: bool,
    /// Overwrite existing files without keeping copies.
    pub force: bool,
    /// The project's root directory; the current directory where absent.
    pub project: Option<String>,
    /// Where the session description goes: `home` or `project`.
    pub tmuxp_location: Option<String>,
    /// The name of the session.
    pub session: Option<String>,
    /// The directory in which the session starts.
    pub start_dir: Option<String>,
}

/// The subcommands.
#[derive(Debug, Clone, Copy, PartialEq, Eq, Structural)]
pub enum Commands {
    /// Check the required programs and the shell's hook.
    Doctor,
}

} // verus!
