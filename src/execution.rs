//! What the execution engine reports about a single execution.

use vstd::prelude::*;

verus! {

/// The identifier of a worker of the execution engine.
#[derive(Debug, Clone, Copy, PartialEq, Eq)]
pub struct WorkerUuid {
    pub id: u128,
}

/// How an execution ended.
#[derive(Debug, Clone, PartialEq, Eq)]
pub enum ExecutionStatus {
    /// The process exited with code zero within its limits.
    Success,
    /// The process exited with a non-zero code.
    ReturnCode(u32),
    /// The process was killed by a signal, with its number and name.
    Signal(u32, String),
    /// The process exceeded its CPU time limit.
    TimeLimitExceeded,
    /// The process exceeded its system time limit.
    SysTimeLimitExceeded,
    /// The process exceeded its wall time limit.
    WallTimeLimitExceeded,
    /// The process exceeded its memory limit.
    MemoryLimitExceeded,
    /// The sandbox failed for a reason of its own.
    InternalError(String),
}

/// The resources used by an execution.
#[derive(Debug, Clone, Copy, PartialEq, Eq)]
pub struct ExecutionResourcesUsage {
    /// CPU time in user space, in microseconds.
    pub cpu_time_us: u64,
    /// CPU time in kernel space, in microseconds.
    pub sys_time_us: u64,
    /// Wall clock time, in microseconds.
    pub wall_time_us: u64,
    /// Peak memory, in KiB.
    pub memory_kib: u64,
}

/// The outcome of an execution.
#[derive(Debug, Clone, PartialEq, Eq)]
pub struct ExecutionResult {
    pub status: ExecutionStatus,
    pub was_killed: bool,
    pub was_cached: bool,
    pub resources: ExecutionResourcesUsage,
    pub stdout: Option<Vec<u8>>,
    pub stderr: Option<Vec<u8>>,
}

/// Whether an outcome counts as a success.
pub open spec fn is_success(result: ExecutionResult) -> bool {
    result.status is Success
}

/// The lifecycle of a unit of work.
#[derive(Debug, Clone, PartialEq, Eq)]
pub enum UIExecutionStatus {
    /// Known, waiting for its dependencies.
    Pending,
    /// Claimed by a worker.
    Started { worker: WorkerUuid },
    /// Completed, with its outcome.
    Done { result: ExecutionResult },
    /// Not run because a dependency failed.
    Skipped,
}

/// The position of a lifecycle value along `Pending`, `Started`, then `Done`
/// or `Skipped`.
pub open spec fn lifecycle_rank(status: UIExecutionStatus) -> int {
    match status {
        UIExecutionStatus::Pending => 0,
        UIExecutionStatus::Started { .. } => 1,
        UIExecutionStatus::Done { .. } => 2,
        UIExecutionStatus::Skipped => 2,
    }
}

/// A sequence of lifecycle values that one unit may go through: each value is
/// further along than the one before, so nothing follows a terminal value and
/// `Pending` never follows `Started`; any step may be left out.
pub open spec fn lifecycle_ordered(events: Seq<UIExecutionStatus>) -> bool {
    forall|i: int, j: int|
        0 <= i < j < events.len() ==> lifecycle_rank(#[trigger] events[i]) < lifecycle_rank(
            #[trigger] events[j],
        )
}

} // verus!
