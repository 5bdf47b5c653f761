//! The life of the tunnel process: it starts, runs its worker pairs, and
//! stops on the first of an outside shutdown signal or the end of a worker.

use vstd::prelude::*;

verus! {

/// Why the tunnel stopped.
#[derive(Debug, Clone, Copy, PartialEq, Eq, Structural)]
pub enum StopCause {
    /// The outside shutdown signal came.
    Signal,
    /// A resource that the tunnel needs could not be set up.
    SetupFailed,
    /// A worker ended, which it does only on an I/O error.
    WorkerExited,
}

/// The phase the tunnel is in.
#[derive(Debug, Clone, Copy, PartialEq, Eq, Structural)]
pub enum Phase {
    /// Acquiring the socket and the device and reading the peer's address.
    Starting,
    /// The worker pairs run.
    Running,
    /// The tunnel stopped, for good.
    Stopped(StopCause),
}

/// What can happen to the tunnel.
#[derive(Debug, Clone, Copy, PartialEq, Eq, Structural)]
pub enum Event {
    /// The socket, the device and the peer address are all ready.
    SetupSucceeded,
    /// One of them could not be had.
    SetupFailed,
    /// The outside shutdown signal came.
    ShutdownSignal,
    /// A worker ended.
    WorkerFinished,
}

/// The phase that follows `phase` on `event`. Events that cannot happen in a
/// phase leave it as it is.
pub open spec fn next_phase_of(phase: Phase, event: Event) -> Phase {
    match phase {
        Phase::Starting => match event {
            Event::SetupSucceeded => Phase::Running,
            Event::SetupFailed => Phase::Stopped(StopCause::SetupFailed),
            Event::ShutdownSignal => Phase::Stopped(StopCause::Signal),
            Event::WorkerFinished => Phase::Starting,
        },
        Phase::Running => match event {
            Event::ShutdownSignal => Phase::Stopped(StopCause::Signal),
            Event::WorkerFinished => Phase::Stopped(StopCause::WorkerExited),
            _ => Phase::Running,
        },
        Phase::Stopped(cause) => Phase::Stopped(cause),
    }
}

/// The process exit status for a stop: zero for a requested shutdown, one
/// for a failure.
pub open spec fn exit_code_of(cause: StopCause) -> i32 {
    match cause {
        StopCause::Signal => 0,
        _ => 1,
    }
}

/// Steps the tunnel's phase on one event.
pub fn next_phase(phase: Phase, event: Event) -> (next: Phase)
    ensures
        next == next_phase_of(phase, event),
{
    match phase {
        Phase::Starting => match event {
            Event::SetupSucceeded => Phase::Running,
            Event::SetupFailed => Phase::Stopped(StopCause::SetupFailed),
            Event::ShutdownSignal => Phase::Stopped(StopCause::Signal),
            Event::WorkerFinished => Phase::Starting,
        },
        Phase::Running => match event {
            Event::ShutdownSignal => Phase::Stopped(StopCause::Signal),
            Event::WorkerFinished => Phase::Stopped(StopCause::WorkerExited),
            _ => Phase::Running,
        },
        Phase::Stopped(cause) => Phase::Stopped(cause),
    }
}

/// The exit status of the process once the tunnel stopped for `cause`.
pub fn exit_code(cause: StopCause) -> (code: i32)
    ensures
        code == exit_code_of(cause),
{
    match cause {
        StopCause::Signal => 0,
        _ => 1,
    }
}

/// Once stopped, the tunnel stays stopped, for the same cause, whatever
/// happens next.
pub proof fn lemma_stop_is_final(cause: StopCause, event: Event)
    ensures
        next_phase_of(Phase::Stopped(cause), event) == Phase::Stopped(cause),
{
}

/// The tunnel runs only after its setup succeeded: no event leads into
/// `Running` but a successful setup from `Starting`, or an event that leaves
/// `Running` as it was.
pub proof fn lemma_running_needs_setup(phase: Phase, event: Event)
    ensures
        next_phase_of(phase, event) == Phase::Running ==> (phase == Phase::Starting
            && event == Event::SetupSucceeded) || phase == Phase::Running,
{
}

} // verus!
