use tokio::sync::mpsc;

use tokio_tasks_shutdown::handle::prepare_spawn;
use tokio_tasks_shutdown::TasksHandle;

fn runtime() -> tokio::runtime::Runtime {
    tokio::runtime::Builder::new_current_thread().enable_all().build().unwrap()
}

#[test]
fn spawn_hands_task_to_receiver() {
    let rt = runtime();
    rt.block_on(async {
        let (handle, mut rx) = TasksHandle::<String>::new();
        assert!(!handle.is_shutting_down());
        let res = handle.spawn_advanced("S1".to_string(), 3u32, |n| {
            tokio::spawn(async move {
                if n == 3 {
                    Ok(())
                } else {
                    Err("bad".to_string())
                }
            })
        });
        assert!(res.is_ok());
        let mut named = rx.try_recv().unwrap();
        assert_eq!(named.name(), "S1");
        let outcome = (&mut named.task).await;
        assert!(named.take_result(outcome).result.is_ok());
    });
}

#[test]
fn spawn_after_shutdown_gives_task_back() {
    let (handle, mut rx) = TasksHandle::<String>::new();
    handle.start_shutdown();
    assert!(handle.is_shutting_down());
    let res = handle.spawn_advanced("late".to_string(), 42u32, |_| -> tokio::task::JoinHandle<Result<(), String>> {
        panic!("must not spawn")
    });
    let err = match res {
        Err(e) => e,
        Ok(_) => panic!("spawned while stopping"),
    };
    assert_eq!(err.task_name(), "late");
    assert_eq!(err.message(), "Task late was not spawned because we were already stopping");
    assert_eq!(err.into_task_that_failed_to_start(), 42);
    // The sender was dropped: the channel is closed.
    assert!(matches!(rx.try_recv(), Err(mpsc::error::TryRecvError::Disconnected)));
}

#[test]
fn clones_share_shutdown() {
    let (handle, _rx) = TasksHandle::<String>::new();
    let other = handle.clone();
    assert!(!other.is_shutting_down());
    handle.start_shutdown();
    assert!(other.is_shutting_down());
    let res = other.spawn_advanced("x".to_string(), (), |_| -> tokio::task::JoinHandle<Result<(), String>> {
        panic!("must not spawn")
    });
    assert!(res.is_err());
}

#[test]
fn on_shutdown_resolves_after_start() {
    let rt = runtime();
    rt.block_on(async {
        let (handle, _rx) = TasksHandle::<String>::new();
        let other = handle.clone();
        let waiter = tokio::spawn(async move {
            other.on_shutdown().await;
            other.is_shutting_down()
        });
        tokio::task::yield_now().await;
        handle.start_shutdown();
        assert!(waiter.await.unwrap());
    });
}

#[test]
fn spawn_with_receiver_gone_gives_task_back() {
    let (handle, rx) = TasksHandle::<String>::new();
    drop(rx);
    let res = handle.spawn_advanced("orphan".to_string(), 9u8, |_| -> tokio::task::JoinHandle<Result<(), String>> {
        panic!("must not spawn")
    });
    let err = match res {
        Err(e) => e,
        Ok(_) => panic!("spawned with nobody to manage the task"),
    };
    assert_eq!(err.task_name(), "orphan");
    assert_eq!(err.into_task_that_failed_to_start(), 9);
}

#[test]
fn prepare_spawn_when_stopping_gives_task_back() {
    let res = prepare_spawn::<String, u32, _>(true, "late".to_string(), 7, |_| -> tokio::task::JoinHandle<Result<(), String>> {
        panic!("must not spawn")
    });
    let err = match res {
        Err(e) => e,
        Ok(_) => panic!("spawned while stopping"),
    };
    assert_eq!(err.task_name(), "late");
    assert_eq!(err.into_task_that_failed_to_start(), 7);
}

#[test]
fn prepare_spawn_when_running_spawns_once() {
    let rt = tokio::runtime::Builder::new_current_thread().enable_all().build().unwrap();
    rt.block_on(async {
        let mut calls = 0u32;
        let res = prepare_spawn(false, "S1".to_string(), 5u32, |n| {
            calls += 1;
            tokio::spawn(async move { if n == 5 { Ok(()) } else { Err("bad".to_string()) } })
        });
        assert_eq!(calls, 1);
        let mut task = match res {
            Ok(t) => t,
            Err(_) => panic!("not spawned"),
        };
        assert_eq!(task.name(), "S1");
        let outcome = (&mut task.task).await;
        assert!(task.take_result(outcome).result.is_ok());
    });
}
