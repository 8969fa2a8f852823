//! The status of the compilation of one file, folded from lifecycle values and
//! captured output.

use vstd::prelude::*;

use crate::execution::{is_success, lifecycle_ordered, lifecycle_rank, ExecutionResult, ExecutionStatus, UIExecutionStatus};

verus! {

/// The status of the compilation of a file.
#[derive(Debug, Clone, PartialEq, Eq)]
pub enum CompilationStatus {
    /// The compilation is known but it has not started yet.
    Pending,
    /// The compilation is running on a worker.
    Running,
    /// The compilation has completed successfully.
    Done { result: ExecutionResult, stdout: Option<String>, stderr: Option<String> },
    /// The compilation has completed with a failure.
    Failed { result: ExecutionResult, stdout: Option<String>, stderr: Option<String> },
    /// The compilation has been skipped.
    Skipped,
}

/// The status that a lifecycle value leads to, whatever the status before it.
pub open spec fn status_after(status: UIExecutionStatus) -> CompilationStatus {
    match status {
        UIExecutionStatus::Pending => CompilationStatus::Pending,
        UIExecutionStatus::Started { .. } => CompilationStatus::Running,
        UIExecutionStatus::Done { result } => if is_success(result) {
            CompilationStatus::Done { result, stdout: None, stderr: None }
        } else {
            CompilationStatus::Failed { result, stdout: None, stderr: None }
        },
        UIExecutionStatus::Skipped => CompilationStatus::Skipped,
    }
}

/// Whether the compilation has ended, and so holds captured output.
pub open spec fn is_terminal_with_output(s: CompilationStatus) -> bool {
    s is Done || s is Failed
}

/// The status with its captured standard output replaced by `content`, where it
/// has ended; otherwise the status unchanged.
pub open spec fn with_stdout(s: CompilationStatus, content: String) -> CompilationStatus {
    match s {
        CompilationStatus::Done { result, stdout: _, stderr } => CompilationStatus::Done {
            result,
            stdout: Some(content),
            stderr,
        },
        CompilationStatus::Failed { result, stdout: _, stderr } => CompilationStatus::Failed {
            result,
            stdout: Some(content),
            stderr,
        },
        _ => s,
    }
}

/// The status with its captured standard error replaced by `content`, where it
/// has ended; otherwise the status unchanged.
pub open spec fn with_stderr(s: CompilationStatus, content: String) -> CompilationStatus {
    match s {
        CompilationStatus::Done { result, stdout, stderr: _ } => CompilationStatus::Done {
            result,
            stdout,
            stderr: Some(content),
        },
        CompilationStatus::Failed { result, stdout, stderr: _ } => CompilationStatus::Failed {
            result,
            stdout,
            stderr: Some(content),
        },
        _ => s,
    }
}

/// The position of a status along `Pending`, `Running`, then one of `Done`,
/// `Failed` or `Skipped`.
pub open spec fn phase_rank(s: CompilationStatus) -> int {
    match s {
        CompilationStatus::Pending => 0,
        CompilationStatus::Running => 1,
        _ => 2,
    }
}

/// The statuses observed after each of `events`, applied in order from `start`.
pub open spec fn status_trace(start: CompilationStatus, events: Seq<UIExecutionStatus>) -> Seq<
    CompilationStatus,
>
    decreases events.len(),
{
    if events.len() == 0 {
        Seq::empty()
    } else {
        let next = status_after(events[0]);
        seq![next] + status_trace(next, events.drop_first())
    }
}

impl CompilationStatus {
    /// Apply to this status a new lifecycle value: `Pending` gives `Pending`,
    /// `Started` gives `Running`, `Done` gives `Done` or `Failed` by the
    /// outcome, with no captured output yet, and `Skipped` gives `Skipped`.
    /// The status before the call plays no part.
    pub fn apply_status(&mut self, status: UIExecutionStatus)
        ensures
            *final(self) == status_after(status),
    {
        match status {
            UIExecutionStatus::Pending => *self = CompilationStatus::Pending,
            UIExecutionStatus::Started { .. } => *self = CompilationStatus::Running,
            UIExecutionStatus::Done { result } => {
                if let ExecutionStatus::Success = result.status {
                    *self = CompilationStatus::Done { result, stdout: None, stderr: None };
                } else {
                    *self = CompilationStatus::Failed { result, stdout: None, stderr: None };
                }
            },
            UIExecutionStatus::Skipped => *self = CompilationStatus::Skipped,
        }
    }

    /// Set the standard output of the compilation. Output that comes before
    /// the compilation has ended is dropped.
    pub fn apply_stdout(&mut self, content: String)
        ensures
            *final(self) == with_stdout(*old(self), content),
            !is_terminal_with_output(*old(self)) ==> *final(self) == *old(self),
    {
        match self {
            CompilationStatus::Done { stdout, .. } => {
                *stdout = Some(content);
            },
            CompilationStatus::Failed { stdout, .. } => {
                *stdout = Some(content);
            },
            _ => {},
        }
    }

    /// Set the standard error of the compilation. Output that comes before the
    /// compilation has ended is dropped.
    pub fn apply_stderr(&mut self, content: String)
        ensures
            *final(self) == with_stderr(*old(self), content),
            !is_terminal_with_output(*old(self)) ==> *final(self) == *old(self),
    {
        match self {
            CompilationStatus::Done { stderr, .. } => {
                *stderr = Some(content);
            },
            CompilationStatus::Failed { stderr, .. } => {
                *stderr = Some(content);
            },
            _ => {},
        }
    }
}

/// Fed with lifecycle values in an order that one unit can go through, the
/// statuses observed after each of them move forward in the same way: each is
/// further along than the one before, and as far along as the value that led
/// to it.
pub proof fn lemma_status_trace_ordered(start: CompilationStatus, events: Seq<UIExecutionStatus>)
    requires
        lifecycle_ordered(events),
    ensures
        status_trace(start, events).len() == events.len(),
        forall|i: int|
            0 <= i < events.len() ==> phase_rank(#[trigger] status_trace(start, events)[i])
                == lifecycle_rank(events[i]),
        forall|i: int, j: int|
            0 <= i < j < events.len() ==> phase_rank(#[trigger] status_trace(start, events)[i])
                < phase_rank(#[trigger] status_trace(start, events)[j]),
    decreases events.len(),
{
    if events.len() > 0 {
        let next = status_after(events[0]);
        let rest = events.drop_first();
        assert(lifecycle_ordered(rest)) by {
            assert forall|i: int, j: int| 0 <= i < j < rest.len() implies lifecycle_rank(
                #[trigger] rest[i],
            ) < lifecycle_rank(#[trigger] rest[j]) by {
                assert(rest[i] == events[i + 1] && rest[j] == events[j + 1]);
            }
        }
        lemma_status_trace_ordered(next, rest);
        let t = status_trace(start, events);
        assert(t == seq![next] + status_trace(next, rest));
        assert forall|i: int| 0 <= i < events.len() implies phase_rank(#[trigger] t[i])
            == lifecycle_rank(events[i]) by {
            if i > 0 {
                assert(t[i] == status_trace(next, rest)[i - 1]);
                assert(rest[i - 1] == events[i]);
            }
        }
        assert forall|i: int, j: int| 0 <= i < j < events.len() implies phase_rank(
            #[trigger] t[i],
        ) < phase_rank(#[trigger] t[j]) by {
            assert(phase_rank(t[i]) == lifecycle_rank(events[i]));
            assert(phase_rank(t[j]) == lifecycle_rank(events[j]));
        }
    }
}

} // verus!
