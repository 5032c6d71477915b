//! The commands of the terminal interface.
use vstd::prelude::*;

verus! {

/// The name of the subcommand that starts the terminal interface.
pub const START_SUBCMD: &'static str = "tui";

/// The terminal interface's commands.
#[derive(Clone, Copy, Debug, PartialEq, Eq, Structural)]
pub enum Cmd {
    /// Starts the terminal interface.
    Start,
}

/// The command that the arguments ask for, from whether the start
/// subcommand was given.
pub fn matches(start_subcmd_given: bool) -> (r: Option<Cmd>)
    ensures
        r == (if start_subcmd_given {
            Some(Cmd::Start)
        } else {
            None
        }),
{
    if start_subcmd_given {
        Some(Cmd::Start)
    } else {
        None
    }
}

} // verus!
