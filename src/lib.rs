//! Progress messages of a task-execution engine and the reconciliation of
//! compilation status for the front-ends that render them.

pub mod execution;
pub mod compilation;
pub mod message;
pub mod tracker;
pub mod ui_type;
pub mod channel;
pub mod dispatch;

pub use channel::{ChannelClosed, UIChannelReceiver, UIChannelSender, UIMessageSender};
pub use compilation::CompilationStatus;
pub use dispatch::{Dispatcher, UI};
pub use execution::{ExecutionResourcesUsage, ExecutionResult, ExecutionStatus, UIExecutionStatus, WorkerUuid};
pub use message::{CheckedOutcome, ExecutorStatus, Score, Seed, SolutionOutcome, SubtaskId, TaskDescription, TestcaseId, UIMessage, WorkerStatus};
pub use tracker::CompilationTracker;
pub use ui_type::UIType;
