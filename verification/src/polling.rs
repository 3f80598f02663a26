//! Decisions taken while a child process runs: probing an engine's version
//! and waiting for a compile to finish.  The caller spawns and polls the
//! process, sleeps and kills it; these functions say what to do next.
use vstd::prelude::*;

use crate::engines::{EngineDetection, LatexCompilerStatus, LatexCompilerStatusReason};

verus! {

/// How long, in nanoseconds, an engine's `--version` check may take.
pub const DETECTION_TIMEOUT_NANOS: u128 = 3_000_000_000;

/// How long, in nanoseconds, a compile may take.
pub const COMPILE_TIMEOUT_NANOS: u128 = 20_000_000_000;

/// How long, in nanoseconds, to sleep between two polls of a running process.
pub const POLL_INTERVAL_NANOS: u128 = 10_000_000;

/// What starting a process gave.
#[derive(Debug, Clone, Copy, PartialEq, Eq, Structural)]
pub enum SpawnOutcome {
    Started,
    CommandNotFound,
    SpawnFailed,
}

/// What one non-blocking poll of a running process gave.
#[derive(Debug, Clone, Copy, PartialEq, Eq, Structural)]
pub enum ProcessPoll {
    Exited { success: bool },
    Running,
    PollFailed,
}

/// What to do next while probing an engine.
#[derive(Debug, Clone, Copy, PartialEq, Eq, Structural)]
pub enum ProbeAction {
    /// Report this detection; the process is gone.
    Report(EngineDetection),
    /// Kill the process, reap it, then report this detection.
    KillThenReport(EngineDetection),
    /// Sleep for the poll interval and poll again.
    SleepThenPoll,
}

/// What to do next while waiting for a compile.
#[derive(Debug, Clone, Copy, PartialEq, Eq, Structural)]
pub enum CompileAction {
    /// The process has exited: collect its output and build the result.
    CollectOutput,
    /// The compile took too long: kill it, collect its output, report a time-out.
    KillThenCollectTimedOut,
    /// Polling failed: kill the process, reap it and give up with the poll error.
    KillThenFail,
    /// Sleep for the poll interval and poll again.
    SleepThenPoll,
}

pub open spec fn installed() -> EngineDetection {
    EngineDetection { status: LatexCompilerStatus::Installed, reason: LatexCompilerStatusReason::Available }
}

pub open spec fn missing(reason: LatexCompilerStatusReason) -> EngineDetection {
    EngineDetection { status: LatexCompilerStatus::Missing, reason }
}

/// The probe's decision after starting the version check, when it did not start.
pub open spec fn spawn_failure_detection(outcome: SpawnOutcome) -> EngineDetection {
    match outcome {
        SpawnOutcome::CommandNotFound => missing(LatexCompilerStatusReason::NotFound),
        _ => missing(LatexCompilerStatusReason::Failed),
    }
}

/// The probe's decision after one poll.
pub open spec fn probe_action(poll: ProcessPoll, elapsed_nanos: u128, timeout_nanos: u128) -> ProbeAction {
    match poll {
        ProcessPoll::Exited { success } => if success {
            ProbeAction::Report(installed())
        } else {
            ProbeAction::Report(missing(LatexCompilerStatusReason::Failed))
        },
        ProcessPoll::Running => if elapsed_nanos >= timeout_nanos {
            ProbeAction::KillThenReport(missing(LatexCompilerStatusReason::Timeout))
        } else {
            ProbeAction::SleepThenPoll
        },
        ProcessPoll::PollFailed => ProbeAction::KillThenReport(missing(LatexCompilerStatusReason::Failed)),
    }
}

/// The compile's decision after one poll.
pub open spec fn compile_action(poll: ProcessPoll, elapsed_nanos: u128, timeout_nanos: u128) -> CompileAction {
    match poll {
        ProcessPoll::Exited { .. } => CompileAction::CollectOutput,
        ProcessPoll::Running => if elapsed_nanos >= timeout_nanos {
            CompileAction::KillThenCollectTimedOut
        } else {
            CompileAction::SleepThenPoll
        },
        ProcessPoll::PollFailed => CompileAction::KillThenFail,
    }
}

/// The detection reported when an engine's version check could not be
/// started: `NotFound` when the command does not exist, `Failed` otherwise.
/// Returns `None` when the check did start.
pub fn detection_after_spawn(outcome: SpawnOutcome) -> (detection: Option<EngineDetection>)
    ensures
        detection == (if outcome == SpawnOutcome::Started { None } else { Some(spawn_failure_detection(outcome)) }),
{
    match outcome {
        SpawnOutcome::Started => None,
        SpawnOutcome::CommandNotFound => Some(EngineDetection {
            status: LatexCompilerStatus::Missing,
            reason: LatexCompilerStatusReason::NotFound,
        }),
        SpawnOutcome::SpawnFailed => Some(EngineDetection {
            status: LatexCompilerStatus::Missing,
            reason: LatexCompilerStatusReason::Failed,
        }),
    }
}

/// Decides the next step of an engine probe: a check that exited
/// successfully means the engine is installed, one that failed means it is
/// missing; a check still running at or past the time-out is killed and
/// reported as timed out; a failed poll kills the check and reports a failure.
pub fn next_probe_action(poll: ProcessPoll, elapsed_nanos: u128, timeout_nanos: u128) -> (action: ProbeAction)
    ensures
        action == probe_action(poll, elapsed_nanos, timeout_nanos),
{
    match poll {
        ProcessPoll::Exited { success } => {
            if success {
                ProbeAction::Report(EngineDetection {
                    status: LatexCompilerStatus::Installed,
                    reason: LatexCompilerStatusReason::Available,
                })
            } else {
                ProbeAction::Report(EngineDetection {
                    status: LatexCompilerStatus::Missing,
                    reason: LatexCompilerStatusReason::Failed,
                })
            }
        },
        ProcessPoll::Running => {
            if elapsed_nanos >= timeout_nanos {
                ProbeAction::KillThenReport(EngineDetection {
                    status: LatexCompilerStatus::Missing,
                    reason: LatexCompilerStatusReason::Timeout,
                })
            } else {
                ProbeAction::SleepThenPoll
            }
        },
        ProcessPoll::PollFailed => ProbeAction::KillThenReport(EngineDetection {
            status: LatexCompilerStatus::Missing,
            reason: LatexCompilerStatusReason::Failed,
        }),
    }
}

/// Decides the next step while waiting for a compile: collect the output
/// once the process has exited (whatever its exit status), kill it once it
/// runs at or past the time-out, kill it and fail when polling fails, and
/// otherwise keep waiting.
pub fn next_compile_action(poll: ProcessPoll, elapsed_nanos: u128, timeout_nanos: u128) -> (action: CompileAction)
    ensures
        action == compile_action(poll, elapsed_nanos, timeout_nanos),
{
    match poll {
        ProcessPoll::Exited { .. } => CompileAction::CollectOutput,
        ProcessPoll::Running => {
            if elapsed_nanos >= timeout_nanos {
                CompileAction::KillThenCollectTimedOut
            } else {
                CompileAction::SleepThenPoll
            }
        },
        ProcessPoll::PollFailed => CompileAction::KillThenFail,
    }
}

/// The detection that a probe reports, if this step reports one.
pub open spec fn reported(action: ProbeAction) -> Option<EngineDetection> {
    match action {
        ProbeAction::Report(d) => Some(d),
        ProbeAction::KillThenReport(d) => Some(d),
        ProbeAction::SleepThenPoll => None,
    }
}

/// Every detection a probe reports is consistent: the engine counts as
/// installed exactly when it was found available, and only a version check
/// that exited successfully finds it so.
pub proof fn lemma_probe_reports_consistent(outcome: SpawnOutcome, poll: ProcessPoll, elapsed_nanos: u128, timeout_nanos: u128)
    ensures
        outcome != SpawnOutcome::Started ==> spawn_failure_detection(outcome).is_consistent(),
        outcome != SpawnOutcome::Started ==> spawn_failure_detection(outcome).status == LatexCompilerStatus::Missing,
        reported(probe_action(poll, elapsed_nanos, timeout_nanos)) matches Some(d) ==> d.is_consistent(),
        reported(probe_action(poll, elapsed_nanos, timeout_nanos)) matches Some(d)
            ==> (d.status == LatexCompilerStatus::Installed <==> poll == (ProcessPoll::Exited { success: true })),
{
}

/// A process still running when the time-out has passed is never left
/// running: the probe and the compile both kill it, whatever else they do.
pub proof fn lemma_overdue_process_is_killed(elapsed_nanos: u128, timeout_nanos: u128)
    requires
        elapsed_nanos >= timeout_nanos,
    ensures
        probe_action(ProcessPoll::Running, elapsed_nanos, timeout_nanos)
            == ProbeAction::KillThenReport(missing(LatexCompilerStatusReason::Timeout)),
        compile_action(ProcessPoll::Running, elapsed_nanos, timeout_nanos) == CompileAction::KillThenCollectTimedOut,
{
}

/// Before the time-out, a process that is still running is waited for, never
/// killed.
pub proof fn lemma_running_process_is_waited_for(elapsed_nanos: u128, timeout_nanos: u128)
    requires
        elapsed_nanos < timeout_nanos,
    ensures
        probe_action(ProcessPoll::Running, elapsed_nanos, timeout_nanos) == ProbeAction::SleepThenPoll,
        compile_action(ProcessPoll::Running, elapsed_nanos, timeout_nanos) == CompileAction::SleepThenPoll,
{
}

/// A process that has exited is never treated as running: at any elapsed
/// time and under any time-out, a compile's output is collected, and a
/// version check is reported from its exit status alone (installed and
/// available when it succeeded, missing with reason `Failed` otherwise).
pub proof fn lemma_exited_process_is_reported(success: bool, elapsed_nanos: u128, timeout_nanos: u128)
    ensures
        compile_action(ProcessPoll::Exited { success }, elapsed_nanos, timeout_nanos) == CompileAction::CollectOutput,
        probe_action(ProcessPoll::Exited { success }, elapsed_nanos, timeout_nanos) == ProbeAction::Report(
            if success {
                EngineDetection { status: LatexCompilerStatus::Installed, reason: LatexCompilerStatusReason::Available }
            } else {
                EngineDetection { status: LatexCompilerStatus::Missing, reason: LatexCompilerStatusReason::Failed }
            },
        ),
        probe_action(ProcessPoll::Exited { success }, elapsed_nanos, timeout_nanos)
            == probe_action(ProcessPoll::Exited { success }, 0, timeout_nanos),
{
}

/// An engine is reported as not found only when its command could not be
/// found when starting the check: no poll of a running check reports
/// `NotFound`, and of the spawn failures only a missing command does.
pub proof fn lemma_not_found_only_from_missing_command(outcome: SpawnOutcome, poll: ProcessPoll, elapsed_nanos: u128, timeout_nanos: u128)
    ensures
        reported(probe_action(poll, elapsed_nanos, timeout_nanos)) matches Some(d) ==> d.reason != LatexCompilerStatusReason::NotFound,
        outcome != SpawnOutcome::Started ==> (spawn_failure_detection(outcome).reason == LatexCompilerStatusReason::NotFound
            <==> outcome == SpawnOutcome::CommandNotFound),
        outcome == SpawnOutcome::SpawnFailed ==> spawn_failure_detection(outcome) == (EngineDetection {
            status: LatexCompilerStatus::Missing,
            reason: LatexCompilerStatusReason::Failed,
        }),
{
}

} // verus!
