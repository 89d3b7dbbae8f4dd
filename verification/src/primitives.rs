//! The types of tokio, tokio_util and arc_swap that the library carries, and
//! the calls into those crates that it makes.

use vstd::prelude::*;

verus! {

/// `tokio::task::JoinHandle`: carried through, never looked into.
#[verifier::external_type_specification]
#[verifier::external_body]
#[verifier::reject_recursive_types(T)]
pub struct ExJoinHandle<T>(tokio::task::JoinHandle<T>);

/// `tokio::task::JoinError`: carried through, never looked into.
#[verifier::external_type_specification]
#[verifier::external_body]
pub struct ExJoinError(tokio::task::JoinError);

/// Asks tokio to cancel the task behind `handle` (`JoinHandle::abort`).
/// Nothing is claimed of its effect: it acts on the runtime's state.
#[verifier::external_body]
pub(crate) fn abort_task<T>(handle: &tokio::task::JoinHandle<T>) {
    handle.abort()
}

/// `tokio::sync::mpsc::UnboundedSender`: the sending end of the channel
/// through which new tasks reach the managing task.
#[verifier::external_type_specification]
#[verifier::external_body]
#[verifier::reject_recursive_types(T)]
pub struct ExUnboundedSender<T>(tokio::sync::mpsc::UnboundedSender<T>);

/// `tokio::sync::mpsc::UnboundedReceiver`: the receiving end of that channel,
/// handed to the managing task.
#[verifier::external_type_specification]
#[verifier::external_body]
#[verifier::reject_recursive_types(T)]
pub struct ExUnboundedReceiver<T>(tokio::sync::mpsc::UnboundedReceiver<T>);

/// `tokio_util::sync::CancellationToken`: the flag that says a shutdown has
/// started, shared by every handle.
#[verifier::external_type_specification]
#[verifier::external_body]
pub struct ExCancellationToken(tokio_util::sync::CancellationToken);

/// `tokio_util::sync::WaitForCancellationFuture`: resolves once the token is
/// cancelled.
#[verifier::external_type_specification]
#[verifier::external_body]
pub struct ExWaitForCancellationFuture<'a>(tokio_util::sync::WaitForCancellationFuture<'a>);

/// Another pointer to the same allocation (`Arc::clone`): by its
/// documentation, the clone points to the very value `shared` points to.
#[verifier::external_body]
pub(crate) fn share<T>(shared: &std::sync::Arc<T>) -> (copy: std::sync::Arc<T>)
    ensures
        copy == *shared,
{
    shared.clone()
}

/// A fresh token that is not cancelled (`CancellationToken::new`). Nothing is
/// claimed of it: its state is shared and changes under the library's feet.
#[verifier::external_body]
pub(crate) fn new_cancellation_token() -> tokio_util::sync::CancellationToken {
    tokio_util::sync::CancellationToken::new()
}

/// Cancels the token (`CancellationToken::cancel`), which wakes everything
/// waiting on it. Nothing is claimed: the effect is on shared state.
#[verifier::external_body]
pub(crate) fn cancel_token(token: &tokio_util::sync::CancellationToken) {
    token.cancel()
}

/// Whether the token has been cancelled (`CancellationToken::is_cancelled`).
/// The answer depends on what other threads did, so nothing is claimed of it.
#[verifier::external_body]
pub(crate) fn token_is_cancelled(token: &tokio_util::sync::CancellationToken) -> bool {
    token.is_cancelled()
}

/// A future that resolves once the token is cancelled
/// (`CancellationToken::cancelled`).
#[verifier::external_body]
pub(crate) fn token_cancelled<'a>(
    token: &'a tokio_util::sync::CancellationToken,
) -> tokio_util::sync::WaitForCancellationFuture<'a> {
    token.cancelled()
}

/// A cell that threads read and replace atomically: an
/// `arc_swap::ArcSwapOption`. Verus cannot be told of that type (its
/// strategy parameter names types private to arc_swap), so it is held here,
/// out of Verus's sight, and reached only through the methods below.
#[verifier::external_body]
#[verifier::reject_recursive_types(T)]
pub(crate) struct SwapCell<T> {
    cell: arc_swap::ArcSwapOption<T>,
}

impl<T> SwapCell<T> {
    /// A cell holding `value` (`ArcSwapAny::new`). Nothing is claimed: what a
    /// later load sees depends on what other threads stored meanwhile.
    #[verifier::external_body]
    pub(crate) fn new(value: Option<std::sync::Arc<T>>) -> SwapCell<T> {
        SwapCell { cell: arc_swap::ArcSwapOption::new(value) }
    }

    /// What the cell holds now (`ArcSwapAny::load_full`). It depends on what
    /// other threads stored, so nothing is claimed of it.
    #[verifier::external_body]
    pub(crate) fn load(&self) -> Option<std::sync::Arc<T>> {
        self.cell.load_full()
    }

    /// Replaces what the cell holds (`ArcSwapAny::store`).
    #[verifier::external_body]
    pub(crate) fn store(&self, value: Option<std::sync::Arc<T>>) {
        self.cell.store(value)
    }
}

/// Sends `message` down the channel (`UnboundedSender::send`). By tokio's
/// source, the send fails only once the receiving end is closed or dropped,
/// and then hands the very message back; which of the two happens depends on
/// the receiver's state, so nothing is claimed of it.
#[verifier::external_body]
pub(crate) fn send_unbounded<T>(
    sender: &tokio::sync::mpsc::UnboundedSender<T>,
    message: T,
) -> (res: Result<(), T>)
    ensures
        res matches Err(returned) ==> returned == message,
{
    match sender.send(message) {
        Ok(()) => Ok(()),
        Err(error) => Err(error.0),
    }
}

/// Whether the receiving end of the channel is closed or dropped
/// (`UnboundedSender::is_closed`). It depends on the receiver's state, so
/// nothing is claimed of it.
#[verifier::external_body]
pub(crate) fn sender_is_closed<T>(sender: &tokio::sync::mpsc::UnboundedSender<T>) -> bool {
    sender.is_closed()
}

/// A new channel, its sending and its receiving end
/// (`tokio::sync::mpsc::unbounded_channel`). Nothing is claimed of them:
/// their state is shared with the runtime.
#[verifier::external_body]
pub(crate) fn new_unbounded_channel<T>() -> (
    tokio::sync::mpsc::UnboundedSender<T>,
    tokio::sync::mpsc::UnboundedReceiver<T>,
) {
    tokio::sync::mpsc::unbounded_channel()
}

} // verus!
