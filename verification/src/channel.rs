//! The one-shot channel that carries an outcome from the completion sink to
//! the caller that waits for it.
//!
//! The channel is tokio's. Nothing in this file is proved: it tells Verus
//! which types exist and what the two calls made on them promise.

use vstd::prelude::*;

verus! {

/// The write side of a one-shot channel, `tokio::sync::oneshot::Sender`.
/// Verus sees nothing inside it.
#[verifier::external_type_specification]
#[verifier::external_body]
#[verifier::reject_recursive_types(T)]
pub struct ExSender<T>(tokio::sync::oneshot::Sender<T>);

/// The read side of a one-shot channel, `tokio::sync::oneshot::Receiver`.
/// Verus sees nothing inside it.
#[verifier::external_type_specification]
#[verifier::external_body]
#[verifier::reject_recursive_types(T)]
pub struct ExReceiver<T>(tokio::sync::oneshot::Receiver<T>);

/// What awaiting a receiver yields when the write side was dropped without
/// sending, `tokio::sync::oneshot::error::RecvError`. It carries nothing.
#[verifier::external_type_specification]
#[verifier::external_body]
pub struct ExRecvError(tokio::sync::oneshot::error::RecvError);

/// `tokio::sync::oneshot::channel` makes a fresh channel and returns its two
/// sides. Nothing is claimed of them.
pub assume_specification<T>[ tokio::sync::oneshot::channel::<T> ]() -> (sides: (
    tokio::sync::oneshot::Sender<T>,
    tokio::sync::oneshot::Receiver<T>,
));

/// `tokio::sync::oneshot::Sender::send` never blocks. It answers `Ok` when
/// the value was put into the channel, and `Err` when the read side was
/// already closed or dropped. Which of the two happens is decided by the
/// other side, so the only claim is that an `Err` hands back the very value
/// that was given.
pub assume_specification<T>[ tokio::sync::oneshot::Sender::<T>::send ](
    sender: tokio::sync::oneshot::Sender<T>,
    t: T,
) -> (sent: Result<(), T>)
    ensures
        sent matches Err(returned) ==> returned == t,
;

} // verus!
