//! Public error and success types that the library hands out.

use vstd::prelude::*;
use vstd::string::StringExecFns;

verus! {

/// What a finished task gave back, with the name it was spawned under.
#[verifier::reject_recursive_types(E)]
pub struct TaskResult<E> {
    pub name: String,
    pub result: Result<(), TaskErrorKind<E>>,
}

/// A task that did not succeed: which task it was and why.
///
/// Handed to the callback of `join_all_with` for each task that failed.
#[derive(Debug)]
#[verifier::reject_recursive_types(E)]
pub struct TaskError<E> {
    pub(crate) task_name: String,
    pub(crate) kind: TaskErrorKind<E>,
}

/// Why a task did not succeed, inside a [`TaskError`].
#[derive(Debug)]
#[verifier::reject_recursive_types(E)]
pub enum TaskErrorKind<E> {
    /// The task returned `Err` with this error.
    UserError(E),
    /// Tokio could not join the task: it panicked or was aborted.
    TokioJoinError(tokio::task::JoinError),
    /// The task did not stop within the abort timeout and was left running.
    CancelTimeoutExceeded(tokio::task::JoinHandle<Result<(), E>>),
}

impl<E> TaskErrorKind<E> {
    /// What the kind says, given `detail`: what the user's error, or tokio's
    /// join error, says of itself (unused for a task left dangling).
    pub fn message(&self, detail: &str) -> (message: String)
        ensures
            message@ == match self {
                TaskErrorKind::UserError(_) => "User error: "@ + detail@,
                TaskErrorKind::TokioJoinError(_) => "Tokio join error: "@ + detail@,
                TaskErrorKind::CancelTimeoutExceeded(_) => "Cancel timeout exceeded - left task dangle"@,
            },
    {
        match self {
            TaskErrorKind::UserError(_) => {
                let mut message = String::from_str("User error: ");
                message.append(detail);
                message
            },
            TaskErrorKind::TokioJoinError(_) => {
                let mut message = String::from_str("Tokio join error: ");
                message.append(detail);
                message
            },
            TaskErrorKind::CancelTimeoutExceeded(_) => String::from_str(
                "Cancel timeout exceeded - left task dangle",
            ),
        }
    }
}

impl<E> TaskError<E> {
    /// The name of the task, as a sequence of characters.
    pub closed spec fn name_view(&self) -> Seq<char> {
        self.task_name@
    }

    /// Why the task failed.
    pub closed spec fn kind_view(&self) -> TaskErrorKind<E> {
        self.kind
    }

    /// The error of the task named `task_name`, failed for `kind`.
    pub fn new(task_name: String, kind: TaskErrorKind<E>) -> (err: TaskError<E>)
        ensures
            err.name_view() == task_name@,
            err.kind_view() == kind,
    {
        TaskError { task_name, kind }
    }

    /// The error that a task result stands for, if it stands for one.
    pub fn from_result(res: TaskResult<E>) -> (err: Option<TaskError<E>>)
        ensures
            match res.result {
                Ok(()) => err is None,
                Err(kind) => err matches Some(e) && e.name_view() == res.name@ && e.kind_view()
                    == kind,
            },
    {
        match res.result {
            Ok(()) => None,
            Err(kind) => Some(TaskError { task_name: res.name, kind }),
        }
    }

    /// The error of a task that was left running after the abort timeout.
    pub fn left_dangling(task_name: String, task: tokio::task::JoinHandle<Result<(), E>>) -> (err:
        TaskError<E>)
        ensures
            err.name_view() == task_name@,
            err.kind_view() == TaskErrorKind::CancelTimeoutExceeded(task),
    {
        TaskError { task_name, kind: TaskErrorKind::CancelTimeoutExceeded(task) }
    }

    /// What the error says, given `kind_message`: what its kind says.
    pub fn message(&self, kind_message: &str) -> (message: String)
        ensures
            message@ == "Task "@ + self.name_view() + " errored: "@ + kind_message@,
    {
        let mut message = String::from_str("Task ");
        message.append(self.task_name.as_str());
        message.append(" errored: ");
        message.append(kind_message);
        message
    }

    /// The name of the task that failed.
    pub fn task_name(&self) -> (name: &str)
        ensures
            name@ == self.name_view(),
    {
        self.task_name.as_str()
    }

    /// Why the task failed.
    pub fn kind(&self) -> (kind: &TaskErrorKind<E>)
        ensures
            *kind == self.kind_view(),
    {
        &self.kind
    }

    /// Why the task failed, taking the error apart.
    pub fn into_kind(self) -> (kind: TaskErrorKind<E>)
        ensures
            kind == self.kind_view(),
    {
        self.kind
    }
}

/// Returned by the `join_all` family when at least one task failed.
#[derive(Debug)]
pub struct AtLeastOneTaskErrored {
    pub(crate) _private: (),
}

impl AtLeastOneTaskErrored {
    /// What the error says.
    pub fn message(&self) -> (message: String)
        ensures
            message@ == "At least one task errored"@,
    {
        String::from_str("At least one task errored")
    }

    /// The outcome of joining all tasks, given whether any of them failed.
    pub fn join_outcome(any_task_errored: bool) -> (res: Result<(), AtLeastOneTaskErrored>)
        ensures
            res is Ok <==> !any_task_errored,
    {
        if any_task_errored {
            Err(AtLeastOneTaskErrored { _private: () })
        } else {
            Ok(())
        }
    }
}

/// Returned by a spawn when the tasks are already shutting down: the task
/// was not started, and comes back unused.
#[derive(Debug)]
pub struct TasksAreStopping<TaskType> {
    pub(crate) task_name: String,
    pub(crate) task_that_failed_to_start: TaskType,
}

impl<TaskType> TasksAreStopping<TaskType> {
    /// The name the task was to be spawned under, as a sequence of characters.
    pub closed spec fn name_view(&self) -> Seq<char> {
        self.task_name@
    }

    /// The task that was not started.
    pub closed spec fn task_view(&self) -> TaskType {
        self.task_that_failed_to_start
    }

    /// The error for a task that was not started.
    pub(crate) fn new(task_name: String, task_that_failed_to_start: TaskType) -> (stopping: Self)
        ensures
            stopping.name_view() == task_name@,
            stopping.task_view() == task_that_failed_to_start,
    {
        TasksAreStopping { task_name, task_that_failed_to_start }
    }

    /// The name the task was to be spawned under.
    pub fn task_name(&self) -> (name: &str)
        ensures
            name@ == self.name_view(),
    {
        self.task_name.as_str()
    }

    /// What the error says: which task was not spawned, and why.
    pub fn message(&self) -> (message: String)
        ensures
            message@ == "Task "@ + self.name_view()
                + " was not spawned because we were already stopping"@,
    {
        let mut message = String::from_str("Task ");
        message.append(self.task_name.as_str());
        message.append(" was not spawned because we were already stopping");
        message
    }

    /// The task that was not started, given back.
    pub fn into_task_that_failed_to_start(self) -> (task: TaskType)
        ensures
            task == self.task_view(),
    {
        self.task_that_failed_to_start
    }
}

} // verus!
