//! What the service logs when one of its long-running tasks (the API, the delivery
//! worker, the expiry worker) stops.

use vstd::prelude::*;

verus! {

/// How a long-running task stopped.
#[derive(Debug, Clone, Copy, PartialEq, Eq)]
pub enum TaskExit {
    /// The task returned `Ok`.
    Exited,
    /// The task returned an error.
    Failed,
    /// The task did not run to its end (it panicked or was cancelled).
    NotCompleted,
}

/// The level of a log event.
#[derive(Debug, Clone, Copy, PartialEq, Eq)]
pub enum LogLevel {
    Info,
    Error,
}

/// The log event for a stopped task. When `with_error` holds, the event also carries the
/// error, as its cause chain and its message.
#[derive(Debug)]
pub struct ExitReport {
    pub level: LogLevel,
    pub message: String,
    pub with_error: bool,
}

/// The text that follows the task's name in the log message.
pub open spec fn exit_suffix(outcome: TaskExit) -> Seq<char> {
    match outcome {
        TaskExit::Exited => " has existed"@,
        TaskExit::Failed => " failed"@,
        TaskExit::NotCompleted => " failed to complete"@,
    }
}

/// The log event for a task that stopped: information when it returned normally, an
/// error, carrying the cause, when it failed or did not complete.
pub fn report_exit(task_name: &str, outcome: TaskExit) -> (r: ExitReport)
    ensures
        r.message@ == task_name@ + exit_suffix(outcome),
        r.level == (if outcome == TaskExit::Exited { LogLevel::Info } else { LogLevel::Error }),
        r.with_error == (outcome != TaskExit::Exited),
{
    let mut message = String::from_str(task_name);
    match outcome {
        TaskExit::Exited => {
            message.append(" has existed");
            ExitReport { level: LogLevel::Info, message, with_error: false }
        },
        TaskExit::Failed => {
            message.append(" failed");
            ExitReport { level: LogLevel::Error, message, with_error: true }
        },
        TaskExit::NotCompleted => {
            message.append(" failed to complete");
            ExitReport { level: LogLevel::Error, message, with_error: true }
        },
    }
}

} // verus!
