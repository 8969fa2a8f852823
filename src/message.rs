//! The messages that the execution engine sends to the front-ends.

use vstd::prelude::*;

use crate::execution::{UIExecutionStatus, WorkerUuid};

verus! {

/// The id of a subtask of a task structured in subtasks and testcases.
pub type SubtaskId = u32;

/// The id of a testcase inside its subtask.
pub type TestcaseId = u32;

/// The seed from which an input file is generated.
pub type Seed = u64;

/// A score, as an integer number of millionths of a point.
#[derive(Debug, Clone, Copy, PartialEq, Eq)]
pub struct Score {
    pub millionths: i64,
}

/// What a worker connected to the executor is doing.
#[derive(Debug, Clone, PartialEq, Eq)]
pub struct WorkerStatus {
    /// The identifier of the worker.
    pub uuid: WorkerUuid,
    /// The name of the worker.
    pub name: String,
    /// The job it is running, with the second (since the epoch) it started.
    pub current_job: Option<(String, u64)>,
}

/// The state of the executor.
#[derive(Debug, Clone, PartialEq, Eq)]
pub struct ExecutorStatus {
    /// The workers connected to the executor.
    pub connected_workers: Vec<WorkerStatus>,
    /// The number of executions ready to start.
    pub ready_execs: usize,
    /// The number of executions waiting for their dependencies.
    pub waiting_execs: usize,
}

/// The description of the task that is being run.
#[derive(Debug, Clone, PartialEq, Eq)]
pub struct TaskDescription {
    /// The short name of the task.
    pub name: String,
    /// The title of the task.
    pub title: String,
    /// The directory of the task.
    pub path: String,
}

/// The outcome of a solution of a task structured by seeds, as the checker
/// gave it.
#[derive(Debug, Clone, PartialEq, Eq)]
pub struct SolutionOutcome {
    /// The score of the solution.
    pub score: Score,
    /// The message for each testcase.
    pub feedback: Vec<String>,
}

/// The outcome of a solution, or the reason why the checker's answer could not
/// be read as one.
#[derive(Debug, Clone, PartialEq, Eq)]
pub enum CheckedOutcome {
    Valid(SolutionOutcome),
    Invalid(String),
}

/// A message sent to the front-end.
#[derive(Debug, Clone, PartialEq, Eq)]
pub enum UIMessage {
    /// A message asking the front-end to exit.
    StopUI,
    /// An update on the status of the executor.
    ServerStatus { status: ExecutorStatus },
    /// An update on the compilation of a file.
    Compilation { file: String, status: UIExecutionStatus },
    /// The captured standard output of a compilation so far.
    CompilationStdout { file: String, content: String },
    /// The captured standard error of a compilation so far.
    CompilationStderr { file: String, content: String },
    /// The task, structured in subtasks and testcases, which is being run.
    IOITask { task: Box<TaskDescription> },
    /// The generation of a testcase.
    IOIGeneration { subtask: SubtaskId, testcase: TestcaseId, status: UIExecutionStatus },
    /// The standard error of the generation of a testcase so far.
    IOIGenerationStderr { subtask: SubtaskId, testcase: TestcaseId, content: String },
    /// The validation of a testcase.
    IOIValidation { subtask: SubtaskId, testcase: TestcaseId, status: UIExecutionStatus },
    /// The standard error of the validation of a testcase so far.
    IOIValidationStderr { subtask: SubtaskId, testcase: TestcaseId, content: String },
    /// The official solution on a testcase.
    IOISolution { subtask: SubtaskId, testcase: TestcaseId, status: UIExecutionStatus },
    /// The evaluation of a solution on a testcase.
    IOIEvaluation {
        subtask: SubtaskId,
        testcase: TestcaseId,
        solution: String,
        status: UIExecutionStatus,
    },
    /// The checking of the output of a solution on a testcase. A failure of
    /// this execution may not mean that the checker failed.
    IOIChecker {
        subtask: SubtaskId,
        testcase: TestcaseId,
        solution: String,
        status: UIExecutionStatus,
    },
    /// The score of a solution on a testcase.
    IOITestcaseScore {
        subtask: SubtaskId,
        testcase: TestcaseId,
        solution: String,
        score: Score,
        message: String,
    },
    /// The score of a solution on a subtask, with the same score normalized
    /// to a value between 0 and 1.
    IOISubtaskScore { subtask: SubtaskId, solution: String, normalized_score: Score, score: Score },
    /// The score of a solution on the whole task.
    IOITaskScore { solution: String, score: Score },
    /// The compilation of a booklet.
    IOIBooklet { name: String, status: UIExecutionStatus },
    /// One step (0-based, out of `num_steps`) of the compilation of a
    /// dependency of a booklet.
    IOIBookletDependency {
        booklet: String,
        name: String,
        step: usize,
        num_steps: usize,
        status: UIExecutionStatus,
    },
    /// The task, structured by solutions and seeds, which is being run.
    TerryTask { task: Box<TaskDescription> },
    /// The generation of the input of a solution from a seed.
    TerryGeneration { solution: String, seed: Seed, status: UIExecutionStatus },
    /// The validation of the input of a solution.
    TerryValidation { solution: String, status: UIExecutionStatus },
    /// The run of a solution.
    TerrySolution { solution: String, status: UIExecutionStatus },
    /// The checking of the output of a solution.
    TerryChecker { solution: String, status: UIExecutionStatus },
    /// The outcome of a solution, or why the checker's answer was not valid.
    TerrySolutionOutcome { solution: String, outcome: CheckedOutcome },
    /// A warning for the operator.
    Warning { message: String },
}

} // verus!
