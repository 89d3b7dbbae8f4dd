# tokio_tasks_shutdown

Manage a set of tokio tasks, collect what they return, and shut them down
gracefully: on Ctrl+C, when a task fails, or on request, with a timeout after
which running tasks are aborted and a second one after which they are left
dangling.

- `src/` is the verified library (Verus). `manager.rs` holds the decisions of
  the task that manages the set, as a state machine with a mathematical model
  and the laws it obeys; `builder.rs`, `handle.rs`, `named_task.rs`,
  `results.rs` and `on_shutdown_or.rs` hold the settings, the spawning handle,
  the task results and errors; `primitives.rs` holds the calls into tokio,
  tokio_util and arc_swap that the library trusts.
- `app/` is the tokio side: the managing task's `select!` loop, the main
  handle that collects results, spawning of futures, and the error types with
  their messages.
- `tests/` runs the library on concrete values.

Spawning never panics: where the managing task is gone (its runtime shut
down, or it panicked) and the task channel is therefore closed, a spawn is
refused with `TasksAreStopping` as during a shutdown, and a task whose
hand-over fails because the managing task went in between is aborted. An
unchecked `expect` on the send would panic in both cases instead.
