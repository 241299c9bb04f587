use crate::commands::ActionWithServer;
use vstd::prelude::*;

verus! {

// Command-line surface, as plain data. The argument parser at the edge of
// the program fills these in and hands them over.

/// The parsed command line: the one action the invocation asks for.
#[derive(Clone, Copy, PartialEq, Eq, Debug)]
pub struct Opts {
    pub action: Action,
}

/// What the process should do: run as the daemon itself, or send one action
/// to a daemon that is already running.
#[derive(Clone, Copy, PartialEq, Eq, Debug)]
pub enum Action {
    Daemon,
    WithServer(ActionWithServer),
}

} // verus!
