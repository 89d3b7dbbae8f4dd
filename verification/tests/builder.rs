use std::time::Duration;

use tokio_tasks_shutdown::manager::ManagerConfig;
use tokio_tasks_shutdown::TasksBuilder;

#[test]
fn default_catches_signals_and_stops_on_errors() {
    let builder = TasksBuilder::default();
    assert_eq!(builder.graceful_shutdown_timeout(), None);
    assert_eq!(builder.task_abort_timeout(), None);
    assert!(builder.catches_signals());
    let config = builder.manager_config();
    assert!(config == ManagerConfig {
        catch_signals: true,
        has_graceful_shutdown_timeout: false,
        has_task_abort_timeout: false,
        shutdown_if_a_task_errors: true,
    });
}

#[test]
fn timeouts_are_kept() {
    let builder = TasksBuilder::default()
        .timeouts(Some(Duration::from_secs(2)), Some(Duration::from_millis(500)));
    assert_eq!(builder.graceful_shutdown_timeout(), Some(Duration::from_secs(2)));
    assert_eq!(builder.task_abort_timeout(), Some(Duration::from_millis(500)));
    assert!(builder.catches_signals());
    let config = builder.manager_config();
    assert!(config.has_graceful_shutdown_timeout);
    assert!(config.has_task_abort_timeout);
    assert!(config.shutdown_if_a_task_errors);
}

#[test]
fn only_one_timeout_set() {
    let config = TasksBuilder::default().timeouts(None, Some(Duration::from_millis(1))).manager_config();
    assert!(!config.has_graceful_shutdown_timeout);
    assert!(config.has_task_abort_timeout);
}

#[test]
fn dont_catch_signals_changes_only_that() {
    let builder = TasksBuilder::default()
        .timeouts(Some(Duration::from_secs(1)), None)
        .dont_catch_signals();
    assert!(!builder.catches_signals());
    assert_eq!(builder.graceful_shutdown_timeout(), Some(Duration::from_secs(1)));
    let config = builder.manager_config();
    assert!(!config.catch_signals);
    assert!(config.shutdown_if_a_task_errors);
}

#[test]
fn dont_shutdown_if_a_task_errors_changes_only_that() {
    let config = TasksBuilder::default().dont_shutdown_if_a_task_errors().manager_config();
    assert!(config == ManagerConfig {
        catch_signals: true,
        has_graceful_shutdown_timeout: false,
        has_task_abort_timeout: false,
        shutdown_if_a_task_errors: false,
    });
}
