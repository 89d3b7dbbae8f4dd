//! The settings a set of tasks is built with.

use vstd::prelude::*;

use crate::manager::ManagerConfig;

verus! {

/// Builder for a set of tasks: the timeouts of a shutdown, and what starts one.
#[derive(Debug)]
pub struct TasksBuilder {
    graceful_shutdown_timeout: Option<std::time::Duration>,
    task_abort_timeout: Option<std::time::Duration>,
    catch_signals: bool,
    shutdown_if_a_task_errors: bool,
}

/// The settings held by a [`TasksBuilder`].
pub struct BuilderSettings {
    /// How long tasks may take to stop once a shutdown has started, before
    /// they are aborted (`None`: no limit).
    pub graceful_shutdown_timeout: Option<std::time::Duration>,
    /// How long aborted tasks may take to stop before they are left running
    /// (`None`: no limit).
    pub task_abort_timeout: Option<std::time::Duration>,
    /// Whether Ctrl+C starts a shutdown.
    pub catch_signals: bool,
    /// Whether a task that fails starts a shutdown.
    pub shutdown_if_a_task_errors: bool,
}

impl View for TasksBuilder {
    type V = BuilderSettings;

    closed spec fn view(&self) -> BuilderSettings {
        BuilderSettings {
            graceful_shutdown_timeout: self.graceful_shutdown_timeout,
            task_abort_timeout: self.task_abort_timeout,
            catch_signals: self.catch_signals,
            shutdown_if_a_task_errors: self.shutdown_if_a_task_errors,
        }
    }
}

impl Default for TasksBuilder {
    /// No timeouts; Ctrl+C and a failing task both start a shutdown.
    fn default() -> (builder: Self)
        ensures
            builder@ == (BuilderSettings {
                graceful_shutdown_timeout: None,
                task_abort_timeout: None,
                catch_signals: true,
                shutdown_if_a_task_errors: true,
            }),
    {
        TasksBuilder {
            graceful_shutdown_timeout: None,
            task_abort_timeout: None,
            catch_signals: true,
            shutdown_if_a_task_errors: true,
        }
    }
}

impl TasksBuilder {
    /// Sets the timeouts of a shutdown.
    ///
    /// Once a shutdown has started, tasks still running after
    /// `graceful_shutdown_timeout` are aborted; tasks still running
    /// `task_abort_timeout` after that are left dangling, reported as such,
    /// and joining the tasks returns anyway.
    pub fn timeouts(
        self,
        graceful_shutdown_timeout: Option<std::time::Duration>,
        task_abort_timeout: Option<std::time::Duration>,
    ) -> (builder: Self)
        ensures
            builder@ == (BuilderSettings {
                graceful_shutdown_timeout,
                task_abort_timeout,
                ..self@
            }),
    {
        TasksBuilder { graceful_shutdown_timeout, task_abort_timeout, ..self }
    }

    /// Ctrl+C no longer starts a shutdown.
    pub fn dont_catch_signals(self) -> (builder: Self)
        ensures
            builder@ == (BuilderSettings { catch_signals: false, ..self@ }),
    {
        TasksBuilder { catch_signals: false, ..self }
    }

    /// A failing task no longer starts a shutdown.
    pub fn dont_shutdown_if_a_task_errors(self) -> (builder: Self)
        ensures
            builder@ == (BuilderSettings { shutdown_if_a_task_errors: false, ..self@ }),
    {
        TasksBuilder { shutdown_if_a_task_errors: false, ..self }
    }

    /// The graceful shutdown timeout.
    pub fn graceful_shutdown_timeout(&self) -> (timeout: Option<std::time::Duration>)
        ensures
            timeout == self@.graceful_shutdown_timeout,
    {
        self.graceful_shutdown_timeout
    }

    /// The task abort timeout.
    pub fn task_abort_timeout(&self) -> (timeout: Option<std::time::Duration>)
        ensures
            timeout == self@.task_abort_timeout,
    {
        self.task_abort_timeout
    }

    /// Whether Ctrl+C starts a shutdown.
    pub fn catches_signals(&self) -> (catches: bool)
        ensures
            catches == self@.catch_signals,
    {
        self.catch_signals
    }

    /// What the management of the tasks decides by: which timeouts are set,
    /// and what starts a shutdown.
    pub fn manager_config(&self) -> (config: ManagerConfig)
        ensures
            config == ManagerConfig::from_settings(self@),
    {
        ManagerConfig {
            catch_signals: self.catch_signals,
            has_graceful_shutdown_timeout: self.graceful_shutdown_timeout.is_some(),
            has_task_abort_timeout: self.task_abort_timeout.is_some(),
            shutdown_if_a_task_errors: self.shutdown_if_a_task_errors,
        }
    }
}

} // verus!
