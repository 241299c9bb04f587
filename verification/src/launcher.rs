use vstd::prelude::*;

verus! {

// Daemonization launcher: the double-fork sequence that detaches the daemon
// from its controlling terminal. The process-level work — forking, starting
// a session, redirecting descriptors — happens at the edge of the program;
// this table fixes what each process does after each fork, so the sequence
// cannot be miswired. The first fork plus a new session detaches from the
// terminal; the second fork makes sure the surviving process is never a
// session leader, so it can never reacquire one.

/// Which fork of the daemonization sequence a process has just returned
/// from.
#[derive(Clone, Copy, PartialEq, Eq, Debug)]
pub enum ForkStage {
    First,
    Second,
}

/// Which side of a fork a process came out on.
#[derive(Clone, Copy, PartialEq, Eq, Debug)]
pub enum ForkOutcome {
    Parent,
    Child,
}

/// What a process must do next during daemonization.
#[derive(Clone, Copy, PartialEq, Eq, Debug)]
pub enum LaunchStep {
    /// The original process: return to its caller at once, successfully,
    /// without running the server.
    ReturnToCaller,
    /// The first child: start a new session, then fork again.
    StartSessionAndFork,
    /// The intermediate child: exit immediately.
    ExitProcess,
    /// The grandchild: redirect terminal-attached output, then run the
    /// server loop.
    RunServer,
}

/// The launch sequence as a total table over stage and fork side.
pub open spec fn spec_launch_step(stage: ForkStage, outcome: ForkOutcome) -> LaunchStep {
    match (stage, outcome) {
        (ForkStage::First, ForkOutcome::Parent) => LaunchStep::ReturnToCaller,
        (ForkStage::First, ForkOutcome::Child) => LaunchStep::StartSessionAndFork,
        (ForkStage::Second, ForkOutcome::Parent) => LaunchStep::ExitProcess,
        (ForkStage::Second, ForkOutcome::Child) => LaunchStep::RunServer,
    }
}

pub fn launch_step(stage: ForkStage, outcome: ForkOutcome) -> (r: LaunchStep)
    ensures
        r == spec_launch_step(stage, outcome),
{
    match (stage, outcome) {
        (ForkStage::First, ForkOutcome::Parent) => LaunchStep::ReturnToCaller,
        (ForkStage::First, ForkOutcome::Child) => LaunchStep::StartSessionAndFork,
        (ForkStage::Second, ForkOutcome::Parent) => LaunchStep::ExitProcess,
        (ForkStage::Second, ForkOutcome::Child) => LaunchStep::RunServer,
    }
}

} // verus!
