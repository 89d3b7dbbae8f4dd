//! Racing a future against the start of a shutdown.

use vstd::prelude::*;

verus! {

/// The outcome of racing a future against the start of a shutdown.
pub enum ShouldShutdownOr<T> {
    /// A shutdown has started: the task should stop.
    ShouldShutdown,
    /// The future resolved first, with this output.
    ShouldNotShutdown(T),
}

/// What one poll of the race yields, `None` while it is still pending.
///
/// `already_shutting_down` is whether a shutdown had started when the poll
/// began; `inner` is the future's output if it was polled and resolved;
/// `shutdown_fired` is whether waiting for the shutdown resolved, when it was
/// polled because the future had not. A shutdown that had already started
/// wins; otherwise the future's output wins over a shutdown that started
/// while it was being polled.
pub fn resolve_on_shutdown_or<T>(
    already_shutting_down: bool,
    inner: Option<T>,
    shutdown_fired: bool,
) -> (outcome: Option<ShouldShutdownOr<T>>)
    ensures
        already_shutting_down ==> outcome == Some(ShouldShutdownOr::<T>::ShouldShutdown),
        !already_shutting_down ==> match inner {
            Some(v) => outcome == Some(ShouldShutdownOr::ShouldNotShutdown(v)),
            None => outcome == if shutdown_fired {
                Some(ShouldShutdownOr::<T>::ShouldShutdown)
            } else {
                None
            },
        },
{
    if already_shutting_down {
        Some(ShouldShutdownOr::ShouldShutdown)
    } else {
        match inner {
            Some(v) => Some(ShouldShutdownOr::ShouldNotShutdown(v)),
            None => if shutdown_fired {
                Some(ShouldShutdownOr::ShouldShutdown)
            } else {
                None
            },
        }
    }
}

} // verus!
