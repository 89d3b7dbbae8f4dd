//! A spawned task together with the name it was spawned under.

use vstd::prelude::*;

use crate::primitives::abort_task;
use crate::results::{TaskError, TaskErrorKind, TaskResult};

verus! {

/// A spawned task and its name. The name is there until the task's result
/// has been taken, and is moved into that result.
#[verifier::reject_recursive_types(E)]
pub struct NamedTask<E> {
    pub name: Option<String>,
    pub task: tokio::task::JoinHandle<Result<(), E>>,
}

/// What a task's join outcome makes of its result: success, the task's own
/// error, or the reason tokio could not join it.
pub open spec fn joined_result<E>(outcome: Result<Result<(), E>, tokio::task::JoinError>) -> Result<
    (),
    TaskErrorKind<E>,
> {
    match outcome {
        Ok(Ok(())) => Ok(()),
        Ok(Err(e)) => Err(TaskErrorKind::UserError(e)),
        Err(join_error) => Err(TaskErrorKind::TokioJoinError(join_error)),
    }
}

impl<E> NamedTask<E> {
    /// A task spawned under `name`.
    pub fn new(name: String, task: tokio::task::JoinHandle<Result<(), E>>) -> (named: NamedTask<E>)
        ensures
            named.name == Some(name),
            named.task == task,
    {
        NamedTask { name: Some(name), task }
    }

    /// Asks tokio to cancel the task.
    pub fn abort(&self) {
        abort_task(&self.task)
    }

    /// The task's name, while its result has not been taken.
    pub fn name(&self) -> (name: &str)
        requires
            self.name is Some,
        ensures
            name@ == self.name->0@,
    {
        self.name.as_ref().unwrap().as_str()
    }

    /// Turns the task's join outcome into its result, taking the name out of
    /// the task.
    pub fn take_result(&mut self, outcome: Result<Result<(), E>, tokio::task::JoinError>) -> (res:
        TaskResult<E>)
        requires
            old(self).name is Some,
        ensures
            res.name == old(self).name->0,
            res.result == joined_result(outcome),
            final(self).name is None,
            final(self).task == old(self).task,
    {
        let name = self.name.take().unwrap();
        let result = match outcome {
            Ok(Ok(())) => Ok(()),
            Ok(Err(e)) => Err(TaskErrorKind::UserError(e)),
            Err(join_error) => Err(TaskErrorKind::TokioJoinError(join_error)),
        };
        TaskResult { name, result }
    }

    /// The error of a task that is still running when the abort timeout runs
    /// out: it is left dangling, and its handle goes into the error.
    pub fn left_dangling(self) -> (err: TaskError<E>)
        requires
            self.name is Some,
        ensures
            err.name_view() == self.name->0@,
            err.kind_view() == TaskErrorKind::CancelTimeoutExceeded(self.task),
    {
        TaskError::left_dangling(self.name.unwrap(), self.task)
    }
}

} // verus!
