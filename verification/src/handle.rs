//! The handle through which tasks are spawned and a shutdown is started.

use vstd::prelude::*;

use std::sync::Arc;

use crate::named_task::NamedTask;
use crate::primitives::{
    cancel_token, new_cancellation_token, new_unbounded_channel, send_unbounded,
    sender_is_closed, share, token_cancelled, token_is_cancelled, SwapCell,
};
use crate::results::TasksAreStopping;

verus! {

#[verifier::reject_recursive_types(E)]
struct TasksInner<E> {
    /// Where new tasks are sent to the managing task; emptied when a shutdown
    /// starts, so that no task is spawned after that.
    tasks_sender: SwapCell<tokio::sync::mpsc::UnboundedSender<NamedTask<E>>>,
    /// Set once a shutdown has started.
    should_stop: tokio_util::sync::CancellationToken,
}

/// Handle to a set of tasks: spawns tasks, starts a shutdown, tells whether
/// one has started. Every clone reaches the same set of tasks.
///
/// Only the main handle can collect the results of finished tasks.
#[verifier::reject_recursive_types(E)]
pub struct TasksHandle<E> {
    inner: Arc<TasksInner<E>>,
}

impl<E> Clone for TasksHandle<E> {
    /// Another handle to the same set of tasks.
    fn clone(&self) -> (handle: Self)
        ensures
            handle == *self,
    {
        TasksHandle { inner: share(&self.inner) }
    }
}

/// The decision of a spawn, once it is known whether the tasks are stopping
/// (no channel to the managing task, or a closed one).
///
/// If they are stopping, nothing is spawned and the name and `task_type` come
/// back in the error. Otherwise `spawn` is called once with `task_type`, and
/// the task it starts is returned under `task_name`, ready to be handed to the
/// managing task.
pub fn prepare_spawn<E, TaskType, SpawnFn>(
    stopping: bool,
    task_name: String,
    task_type: TaskType,
    spawn: SpawnFn,
) -> (res: Result<NamedTask<E>, TasksAreStopping<TaskType>>) where
    SpawnFn: FnOnce(TaskType) -> tokio::task::JoinHandle<Result<(), E>>,

    requires
        spawn.requires((task_type,)),
    ensures
        res is Err <==> stopping,
        res matches Ok(task) ==> task.name == Some(task_name) && spawn.ensures(
            (task_type,),
            task.task,
        ),
        res matches Err(stopping_error) ==> stopping_error.name_view() == task_name@
            && stopping_error.task_view() == task_type,
{
    if stopping {
        Err(TasksAreStopping::new(task_name, task_type))
    } else {
        let task = spawn(task_type);
        Ok(NamedTask::new(task_name, task))
    }
}

/// Whether a spawn finds the tasks stopping, given the state of the channel
/// to the managing task: `None` once a shutdown has removed it, else whether
/// it is closed.
fn tasks_are_stopping(channel_closed: Option<bool>) -> (stopping: bool)
    ensures
        stopping == match channel_closed {
            None => true,
            Some(closed) => closed,
        },
{
    match channel_closed {
        None => true,
        Some(closed) => closed,
    }
}

/// Hands `task` to the managing task. Should the managing task have gone
/// meanwhile, nobody would ever collect the task's result, so it is aborted.
fn hand_over<E>(tasks_sender: &tokio::sync::mpsc::UnboundedSender<NamedTask<E>>, task: NamedTask<E>) {
    match send_unbounded(tasks_sender, task) {
        Ok(()) => {},
        Err(task) => task.abort(),
    }
}

impl<E> TasksHandle<E> {
    /// A handle that is not shutting down, and the receiving end of the
    /// channel through which it hands the tasks it spawns to the managing
    /// task.
    pub fn new() -> (TasksHandle<E>, tokio::sync::mpsc::UnboundedReceiver<NamedTask<E>>) {
        let (tasks_sender, tasks_receiver) = new_unbounded_channel();
        let inner = TasksInner {
            tasks_sender: SwapCell::new(Some(Arc::new(tasks_sender))),
            should_stop: new_cancellation_token(),
        };
        (TasksHandle { inner: Arc::new(inner) }, tasks_receiver)
    }

    /// Spawns a task unless the tasks are already stopping.
    ///
    /// The tasks are stopping once a shutdown has removed the channel to the
    /// managing task, or once that channel is closed; what
    /// [`prepare_spawn`] decides from that is what is returned. A task that
    /// is spawned is handed, under `task_name`, to the managing task.
    ///
    /// A closed channel means the managing task is gone (its runtime shut
    /// down, or it panicked): the task is then refused as if the tasks were
    /// stopping, and a task whose hand-over fails because the managing task
    /// went in between is aborted, since nobody would collect its result.
    /// In both cases this function returns where an unchecked `expect` on
    /// the send would panic.
    pub fn spawn_advanced<TaskType, SpawnFn>(
        &self,
        task_name: String,
        task_type: TaskType,
        spawn: SpawnFn,
    ) -> (res: Result<&Self, TasksAreStopping<TaskType>>) where
        SpawnFn: FnOnce(TaskType) -> tokio::task::JoinHandle<Result<(), E>>,

        requires
            spawn.requires((task_type,)),
        ensures
            match res {
                Ok(handle) => *handle == *self && exists|task| spawn.ensures((task_type,), task),
                Err(stopping) => stopping.name_view() == task_name@ && stopping.task_view()
                    == task_type,
            },
    {
        let loaded = self.inner.tasks_sender.load();
        let channel_closed = match &loaded {
            Some(tasks_sender) => Some(sender_is_closed(&**tasks_sender)),
            None => None,
        };
        let stopping = tasks_are_stopping(channel_closed);
        match prepare_spawn(stopping, task_name, task_type, spawn) {
            Ok(task) => {
                match loaded {
                    Some(tasks_sender) => hand_over(&*tasks_sender, task),
                    None => {
                        proof {
                            assert(false);
                        }
                    },
                }
                Ok(self)
            },
            Err(stopping_error) => Err(stopping_error),
        }
    }

    /// Starts a shutdown: every task waiting on `on_shutdown` is woken, and
    /// no task is spawned from now on.
    pub fn start_shutdown(&self) {
        cancel_token(&self.inner.should_stop);
        self.inner.tasks_sender.store(None);
    }

    /// A future that resolves once a shutdown has started.
    pub fn on_shutdown(&self) -> tokio_util::sync::WaitForCancellationFuture<'_> {
        token_cancelled(&self.inner.should_stop)
    }

    /// Whether a shutdown has started.
    pub fn is_shutting_down(&self) -> bool {
        token_is_cancelled(&self.inner.should_stop)
    }
}

} // verus!
