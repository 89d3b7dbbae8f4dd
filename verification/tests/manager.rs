use tokio_tasks_shutdown::manager::{Manager, ManagerConfig, ManagerEvent, Reaction};
use tokio_tasks_shutdown::results::{TaskErrorKind, TaskResult};

fn config(graceful: bool, abort: bool, stop_on_error: bool) -> ManagerConfig {
    ManagerConfig {
        catch_signals: true,
        has_graceful_shutdown_timeout: graceful,
        has_task_abort_timeout: abort,
        shutdown_if_a_task_errors: stop_on_error,
    }
}

fn sorted(mut ids: Vec<u64>) -> Vec<u64> {
    ids.sort();
    ids
}

fn finished(id: u64, errored: bool, already_shutting_down: bool) -> ManagerEvent {
    ManagerEvent::TaskFinished { id, errored, already_shutting_down }
}

fn is_quiet(r: &Reaction) -> bool {
    !r.start_shutdown && r.registered.is_none() && r.abort.is_empty() && !r.report_error
        && r.left_dangling.is_empty() && !r.exit
}

#[test]
fn fresh_manager_waits_on_channel_only() {
    let m = Manager::new(config(true, true, true));
    assert!(m.listens_for_stop_signal());
    assert!(m.awaits_graceful_shutdown_timeout());
    assert!(m.accepts_new_tasks());
    assert!(!m.awaits_task_results());
    assert!(!m.awaits_abort_timeout());
    assert!(!m.holds_task(0));
}

#[test]
fn signals_not_awaited_when_not_caught() {
    let mut c = config(false, false, true);
    c.catch_signals = false;
    let m = Manager::new(c);
    assert!(!m.listens_for_stop_signal());
    assert!(!m.awaits_graceful_shutdown_timeout());
}

#[test]
fn stop_signal_starts_shutdown() {
    let mut m = Manager::new(config(false, false, true));
    let r = m.step(ManagerEvent::StopSignal);
    assert!(r.start_shutdown);
    assert!(!r.exit && r.abort.is_empty() && r.registered.is_none());
    assert!(m.accepts_new_tasks());
}

#[test]
fn tasks_get_increasing_ids() {
    let mut m = Manager::new(config(false, false, true));
    let r0 = m.step(ManagerEvent::TaskReceived);
    let r1 = m.step(ManagerEvent::TaskReceived);
    assert_eq!(r0.registered, Some(0));
    assert_eq!(r1.registered, Some(1));
    assert!(r0.abort.is_empty() && r1.abort.is_empty());
    assert!(m.holds_task(0) && m.holds_task(1) && !m.holds_task(2));
    assert!(m.awaits_task_results());
}

#[test]
fn no_tasks_then_channel_closed_exits() {
    let mut m = Manager::new(config(false, false, true));
    let r = m.step(ManagerEvent::TaskChannelClosed);
    assert!(r.exit);
    assert!(!m.accepts_new_tasks());
    assert!(!m.listens_for_stop_signal());
}

#[test]
fn task_error_starts_shutdown_and_is_reported() {
    let mut m = Manager::new(config(false, false, true));
    m.step(ManagerEvent::TaskReceived);
    m.step(ManagerEvent::TaskReceived);
    let r = m.step(finished(0, true, false));
    assert!(r.report_error);
    assert!(r.start_shutdown);
    assert!(!r.exit);
    assert!(!m.holds_task(0));
    assert!(m.holds_task(1));
    // The shutdown closes the channel; the other task then ends fine.
    let r = m.step(ManagerEvent::TaskChannelClosed);
    assert!(!r.exit);
    let r = m.step(finished(1, false, true));
    assert!(!r.report_error && !r.start_shutdown);
    assert!(r.exit);
    assert!(!m.awaits_task_results());
}

#[test]
fn task_error_during_shutdown_does_not_restart_it() {
    let mut m = Manager::new(config(false, false, true));
    m.step(ManagerEvent::TaskReceived);
    let r = m.step(finished(0, true, true));
    assert!(r.report_error);
    assert!(!r.start_shutdown);
}

#[test]
fn task_error_without_shutdown_on_errors() {
    let mut m = Manager::new(config(false, false, false));
    m.step(ManagerEvent::TaskReceived);
    let r = m.step(finished(0, true, false));
    assert!(r.report_error);
    assert!(!r.start_shutdown);
    assert!(!r.exit);
}

#[test]
fn successful_task_is_not_reported() {
    let mut m = Manager::new(config(false, false, true));
    m.step(ManagerEvent::TaskReceived);
    let r = m.step(finished(0, false, false));
    assert!(is_quiet(&r));
}

#[test]
fn graceful_timeout_aborts_every_running_task() {
    let mut m = Manager::new(config(true, true, true));
    m.step(ManagerEvent::TaskReceived);
    m.step(ManagerEvent::TaskReceived);
    m.step(ManagerEvent::TaskReceived);
    m.step(finished(1, false, false));
    let r = m.step(ManagerEvent::GracefulShutdownTimeout);
    assert_eq!(sorted(r.abort), vec![0, 2]);
    assert!(!r.exit && !r.start_shutdown);
    assert!(!m.awaits_graceful_shutdown_timeout());
    // A task arriving while aborting is aborted right away.
    let r = m.step(ManagerEvent::TaskReceived);
    assert_eq!(r.registered, Some(3));
    assert_eq!(r.abort, vec![3]);
    // The abort timeout only runs once the channel is closed.
    assert!(!m.awaits_abort_timeout());
    m.step(ManagerEvent::TaskChannelClosed);
    assert!(m.awaits_abort_timeout());
}

#[test]
fn abort_timeout_leaves_running_tasks_dangling() {
    let mut m = Manager::new(config(true, true, true));
    m.step(ManagerEvent::TaskReceived);
    m.step(ManagerEvent::TaskReceived);
    m.step(ManagerEvent::GracefulShutdownTimeout);
    m.step(ManagerEvent::TaskChannelClosed);
    m.step(finished(0, true, true));
    let r = m.step(ManagerEvent::AbortTimeout);
    assert_eq!(r.left_dangling, vec![1]);
    assert!(r.exit);
    assert!(!m.awaits_task_results());
    assert!(!m.holds_task(1));
    assert!(!m.awaits_abort_timeout());
}

#[test]
fn abort_timeout_not_awaited_without_setting() {
    let mut m = Manager::new(config(true, false, true));
    m.step(ManagerEvent::TaskReceived);
    m.step(ManagerEvent::GracefulShutdownTimeout);
    m.step(ManagerEvent::TaskChannelClosed);
    assert!(!m.awaits_abort_timeout());
    let r = m.step(finished(0, false, true));
    assert!(r.exit);
}

#[test]
fn every_task_finishes_or_dangles_once() {
    let mut m = Manager::new(config(true, true, true));
    for _ in 0..4 {
        m.step(ManagerEvent::TaskReceived);
    }
    let mut finished_ids = Vec::new();
    let r = m.step(finished(2, false, false));
    assert!(!r.exit);
    finished_ids.push(2);
    m.step(ManagerEvent::StopSignal);
    m.step(ManagerEvent::TaskChannelClosed);
    let r = m.step(ManagerEvent::GracefulShutdownTimeout);
    assert_eq!(sorted(r.abort), vec![0, 1, 3]);
    m.step(finished(0, false, true));
    finished_ids.push(0);
    let r = m.step(ManagerEvent::AbortTimeout);
    let mut all = finished_ids.clone();
    all.extend(r.left_dangling.iter().copied());
    assert_eq!(sorted(all), vec![0, 1, 2, 3]);
    assert_eq!(sorted(r.left_dangling), vec![1, 3]);
    assert!(r.exit);
}

#[test]
fn finished_event_follows_task_result() {
    let ok: TaskResult<String> = TaskResult { name: "a".to_string(), result: Ok(()) };
    let failed: TaskResult<String> =
        TaskResult { name: "b".to_string(), result: Err(TaskErrorKind::UserError("x".to_string())) };
    assert!(matches!(
        ManagerEvent::task_finished(4, &ok, true),
        ManagerEvent::TaskFinished { id: 4, errored: false, already_shutting_down: true }
    ));
    assert!(matches!(
        ManagerEvent::task_finished(5, &failed, false),
        ManagerEvent::TaskFinished { id: 5, errored: true, already_shutting_down: false }
    ));
}

#[test]
fn without_graceful_timeout_nothing_is_aborted() {
    let mut m = Manager::new(config(false, true, true));
    m.step(ManagerEvent::TaskReceived);
    m.step(ManagerEvent::StopSignal);
    assert!(!m.awaits_graceful_shutdown_timeout());
    let r = m.step(ManagerEvent::TaskReceived);
    assert!(r.abort.is_empty());
    m.step(ManagerEvent::TaskChannelClosed);
    assert!(!m.awaits_abort_timeout());
    let r = m.step(finished(0, false, true));
    assert!(r.abort.is_empty() && r.left_dangling.is_empty() && !r.exit);
    let r = m.step(finished(1, true, true));
    assert!(r.abort.is_empty() && r.left_dangling.is_empty());
    assert!(r.report_error && r.exit);
}

#[test]
fn each_failure_is_reported_once() {
    let mut m = Manager::new(config(true, true, false));
    for _ in 0..3 {
        m.step(ManagerEvent::TaskReceived);
    }
    let mut reports: Vec<u64> = Vec::new();
    let r = m.step(finished(1, true, false));
    if r.report_error {
        reports.push(1);
    }
    let r = m.step(finished(0, false, false));
    if r.report_error {
        reports.push(0);
    }
    m.step(ManagerEvent::GracefulShutdownTimeout);
    m.step(ManagerEvent::TaskChannelClosed);
    let r = m.step(ManagerEvent::AbortTimeout);
    reports.extend(r.left_dangling.iter().copied());
    assert_eq!(sorted(reports), vec![1, 2]);
}
