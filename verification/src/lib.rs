//! Manage a set of tokio tasks, collect what they return and shut them down
//! gracefully.
//!
//! The library holds the decisions; the tokio runtime around it runs the
//! futures, the channels and the timers and hands every outcome back.

pub mod builder;
pub mod handle;
pub mod manager;
pub mod named_task;
pub mod on_shutdown_or;
mod primitives;
pub mod results;

pub use builder::TasksBuilder;
pub use handle::TasksHandle;
pub use on_shutdown_or::ShouldShutdownOr;
