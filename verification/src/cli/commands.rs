use vstd::prelude::*;
use crate::cli::args::{Args, Commands};

verus! {

/// What the program is to do.
#[derive(Debug, Clone, Copy, PartialEq, Eq, Structural)]
pub enum Task {
    /// Run the diagnosis.
    Doctor,
    /// Ask for a session and write its files.
    Configure,
}

/// The task that the arguments ask for: the diagnosis for the subcommand
/// `doctor`, the interactive configuration without a subcommand.
pub fn run_command(args: &Args) -> (r: Task)
    ensures
        r == (match args.command {
            Some(Commands::Doctor) => Task::Doctor,
            None => Task::Configure,
        }),
{
    match args.command {
        Some(Commands::Doctor) => Task::Doctor,
        None => Task::Configure,
    }
}

} // verus!
