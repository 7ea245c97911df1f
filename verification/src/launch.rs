use vstd::prelude::*;

verus! {

/// How long one input poll blocks before the loop refreshes, in
/// milliseconds.
pub const POLL_INTERVAL_MS: u64 = 50;

/// How long the launcher waits after a launch before it exits, in
/// milliseconds: a fixed settle delay that gives the spawned
/// interpreter time to exec its target before the terminal session
/// tears down.
pub const SETTLE_DELAY_MS: u64 = 5000;

/// What the process-duplication step reported: this process is the
/// original and the duplicate has the given id, this process is the
/// duplicate, or duplication failed.
#[derive(Clone, Copy, PartialEq, Eq, Structural, Debug)]
pub enum ForkOutcome {
    Parent(i32),
    Child,
    Failed,
}

/// The next step of the detach protocol: run the selected command
/// through a shell interpreter without waiting on it, report that the
/// original process goes on beside the named duplicate, or report that
/// duplication failed.
#[derive(Clone, Copy, PartialEq, Eq, Structural, Debug)]
pub enum DetachAction {
    SpawnShellCommand,
    ContinueInParent(i32),
    ReportFailure,
}

/// Decide the detach protocol's next step from the duplication
/// outcome. The duplicate spawns the command and then exits with the
/// interface; the original reports and exits with the interface; a
/// failed duplication is reported and aborts the launch without
/// quitting, so the interface keeps running. The returned flag says
/// whether the main loop quits after the settle delay.
pub fn detach_step(outcome: ForkOutcome) -> (r: (DetachAction, bool))
    ensures
        outcome matches ForkOutcome::Parent(pid) ==> r == (
            DetachAction::ContinueInParent(pid),
            true,
        ),
        outcome is Child ==> r == (DetachAction::SpawnShellCommand, true),
        outcome is Failed ==> r == (DetachAction::ReportFailure, false),
{
    match outcome {
        ForkOutcome::Parent(pid) => (DetachAction::ContinueInParent(pid), true),
        ForkOutcome::Child => (DetachAction::SpawnShellCommand, true),
        ForkOutcome::Failed => (DetachAction::ReportFailure, false),
    }
}

} // verus!
