use vstd::prelude::*;
use vstd::string::*;
use std::borrow::Cow;
use std::time::Duration;
use vstd::std_specs::convert::{FromSpecImpl, IntoSpec};
use crate::error::cow_string;
use crate::text::{decimal_string, decimal_text};

verus! {

/// Why a task failed.
#[derive(Debug)]
#[non_exhaustive]
pub enum TaskErrorKind {
    /// The task's work failed; `source` is the text of the cause.
    Execution { source: String },
    /// The task's shutdown handler failed; `source` is the text of the cause.
    Shutdown { source: String },
    Panic { message: Cow<'static, str> },
    StartupFailed { message: Cow<'static, str> },
}

/// The failure of a named task.
#[derive(Debug)]
#[non_exhaustive]
pub struct TaskError {
    pub task_name: String,
    pub kind: TaskErrorKind,
}

/// What went wrong while the tasks were shut down.
#[derive(Debug)]
#[non_exhaustive]
pub enum ShutdownError {
    /// The shutdown took longer than allowed.
    Timeout { timeout: Duration },
    /// Several subsystems failed while shutting down.
    SubsystemsFailed { failures: Vec<TaskError> },
    /// The allocation of cores is invalid.
    InvalidCoreAllocation { message: String },
}

/// The result of running a task.
pub type TaskResult<T> = Result<T, TaskError>;

/// The result of shutting down.
pub type ShutdownResult<T> = Result<T, ShutdownError>;

/// `format!` with `{:?}` on a `Duration`. Nothing is claimed of the result.
#[verifier::external_body]
pub(crate) fn duration_debug_string(duration: &Duration) -> String {
    format!("{:?}", duration)
}

impl TaskErrorKind {
    /// The text of the kind of failure.
    pub open spec fn message_text(self) -> Seq<char> {
        match self {
            TaskErrorKind::Execution { .. } => "execution error"@,
            TaskErrorKind::Shutdown { .. } => "shutdown handler failed"@,
            TaskErrorKind::Panic { message } => "task panicked: "@ + message@,
            TaskErrorKind::StartupFailed { message } => "startup failed: "@ + message@,
        }
    }

    /// The text of the kind of failure.
    pub fn to_string(&self) -> (text: String)
        ensures
            text@ == self.message_text(),
    {
        match self {
            TaskErrorKind::Execution { .. } => String::from_str("execution error"),
            TaskErrorKind::Shutdown { .. } => String::from_str("shutdown handler failed"),
            TaskErrorKind::Panic { message } => {
                let mut text = String::from_str("task panicked: ");
                text.append(cow_string(message).as_str());
                text
            },
            TaskErrorKind::StartupFailed { message } => {
                let mut text = String::from_str("startup failed: ");
                text.append(cow_string(message).as_str());
                text
            },
        }
    }
}

impl TaskError {
    /// The text of the failure.
    pub open spec fn message_text(self) -> Seq<char> {
        "task '"@ + self.task_name@ + "' failed: "@ + self.kind.message_text()
    }

    /// The failure of the task `task_name`.
    pub fn new<N>(task_name: N, kind: TaskErrorKind) -> (error: Self) where N: Into<String>
        ensures
            error.kind == kind,
            N::obeys_into_spec() ==> error.task_name == task_name.into_spec(),
    {
        Self { task_name: task_name.into(), kind }
    }

    /// The failure of the work of the task `task_name`; `source` is the text of its cause.
    pub fn execution<N, E>(task_name: N, source: E) -> (error: Self) where
        N: Into<String>,
        E: Into<String>,

        ensures
            error.kind is Execution,
            N::obeys_into_spec() ==> error.task_name == task_name.into_spec(),
            E::obeys_into_spec() ==> error.kind->Execution_source == source.into_spec(),
    {
        Self::new(task_name, TaskErrorKind::Execution { source: source.into() })
    }

    /// The failure of the shutdown handler of the task `task_name`;
    /// `source` is the text of its cause.
    pub fn shutdown<N, E>(task_name: N, source: E) -> (error: Self) where
        N: Into<String>,
        E: Into<String>,

        ensures
            error.kind is Shutdown,
            N::obeys_into_spec() ==> error.task_name == task_name.into_spec(),
            E::obeys_into_spec() ==> error.kind->Shutdown_source == source.into_spec(),
    {
        Self::new(task_name, TaskErrorKind::Shutdown { source: source.into() })
    }

    /// The panic of the task `task_name`.
    pub fn panic<N, M>(task_name: N, message: M) -> (error: Self) where
        N: Into<String>,
        M: Into<Cow<'static, str>>,

        ensures
            error.kind is Panic,
            N::obeys_into_spec() ==> error.task_name == task_name.into_spec(),
            M::obeys_into_spec() ==> error.kind->Panic_message == message.into_spec(),
    {
        Self::new(task_name, TaskErrorKind::Panic { message: message.into() })
    }

    /// The text of the failure.
    pub fn to_string(&self) -> (text: String)
        ensures
            text@ == self.message_text(),
    {
        let mut text = String::from_str("task '");
        text.append(self.task_name.as_str());
        text.append("' failed: ");
        text.append(self.kind.to_string().as_str());
        proof {
            assert(text@ =~= self.message_text());
        }
        text
    }
}

impl ShutdownError {
    /// The text of the error. For `Timeout` it is the part before the time.
    pub open spec fn message_text(self) -> Seq<char> {
        match self {
            ShutdownError::Timeout { .. } => "shutdown timed out after "@,
            ShutdownError::SubsystemsFailed { failures } => decimal_text(failures@.len())
                + " subsystem(s) failed during shutdown"@,
            ShutdownError::InvalidCoreAllocation { message } => "invalid core allocation: "@
                + message@,
        }
    }

    /// A shutdown that took longer than `timeout`.
    pub fn timeout(timeout: Duration) -> (error: Self)
        ensures
            error == (ShutdownError::Timeout { timeout }),
    {
        ShutdownError::Timeout { timeout }
    }

    /// A shutdown in which these subsystems failed.
    pub fn subsystems_failed(failures: Vec<TaskError>) -> (error: Self)
        ensures
            error == (ShutdownError::SubsystemsFailed { failures }),
    {
        ShutdownError::SubsystemsFailed { failures }
    }

    /// An invalid allocation of cores.
    pub fn invalid_core_allocation<M>(message: M) -> (error: Self) where M: Into<String>
        ensures
            error is InvalidCoreAllocation,
            M::obeys_into_spec() ==> error->message == message.into_spec(),
    {
        ShutdownError::InvalidCoreAllocation { message: message.into() }
    }

    /// The text of the error. For `Timeout` the time follows the fixed part.
    pub fn to_string(&self) -> (text: String)
        ensures
            self.message_text().is_prefix_of(text@),
            !(self is Timeout) ==> text@ == self.message_text(),
    {
        let text = match self {
            ShutdownError::Timeout { timeout } => {
                let mut text = String::from_str("shutdown timed out after ");
                text.append(duration_debug_string(timeout).as_str());
                text
            },
            ShutdownError::SubsystemsFailed { failures } => {
                let mut text = decimal_string(failures.len() as u128);
                text.append(" subsystem(s) failed during shutdown");
                text
            },
            ShutdownError::InvalidCoreAllocation { message } => {
                let mut text = String::from_str("invalid core allocation: ");
                text.append(message.as_str());
                text
            },
        };
        proof {
            assert(text@.subrange(0, text@.len() as int) =~= text@);
            if self is Timeout {
                assert(text@.subrange(0, self.message_text().len() as int) =~= self.message_text());
            }
        }
        text
    }
}

impl From<TaskErrorKind> for TaskError {
    /// The failure of a task whose name is not known.
    fn from(kind: TaskErrorKind) -> (error: Self)
        ensures
            error.kind == kind,
            error.task_name@ == "unknown"@,
    {
        Self { task_name: String::from_str("unknown"), kind }
    }
}

impl FromSpecImpl<TaskErrorKind> for TaskError {
    open spec fn obeys_from_spec() -> bool {
        false
    }

    open spec fn from_spec(kind: TaskErrorKind) -> Self {
        TaskError { task_name: arbitrary(), kind }
    }
}

} // verus!
