//! The authentication coordinator and its completion sink.
//!
//! The coordinator owns the pending-request slot. A caller makes a request
//! with [`Coordinator::begin`], starts the native authentication if the
//! request was accepted, and waits on the receiver it was given. The native
//! layer's callback reports the end of the authentication with
//! [`Coordinator::complete`]. What the caller then holds is turned into its
//! result by [`conclude`].
//!
//! A caller that stops waiting does not free the coordinator. Its request
//! stays in flight, and further requests are refused, until the native layer
//! reports the completion; the sink then finds the caller gone and says so.
//!
//! The two methods take `&mut self`: whoever shares a coordinator between
//! threads puts it behind a lock and holds the lock for the one call.

use vstd::prelude::*;
use tokio::sync::oneshot::{channel, Receiver, Sender};
use tokio::sync::oneshot::error::RecvError;
use crate::error::{view_of_result, BiometricError, ErrorView};
use crate::outcome::{decoded, AuthOutcome, OutcomeView};
use crate::protocol::{step, verdict, Call, Phase};
use crate::slot::PendingSlot;

verus! {

/// The single-flight coordinator of authentication requests.
pub struct Coordinator {
    slot: PendingSlot<Sender<AuthOutcome>>,
}

impl View for Coordinator {
    type V = Phase;

    /// The coordinator's phase: in flight exactly when the slot holds a
    /// waiter.
    closed spec fn view(&self) -> Phase {
        if self.slot@ is Some {
            Phase::InFlight
        } else {
            Phase::Idle
        }
    }
}

impl Default for Coordinator {
    /// A coordinator with no request outstanding.
    fn default() -> (coordinator: Self)
        ensures
            coordinator@ is Idle,
    {
        Coordinator::new()
    }
}

impl Coordinator {
    /// A coordinator with no request outstanding.
    pub fn new() -> (coordinator: Self)
        ensures
            coordinator@ is Idle,
    {
        Coordinator { slot: PendingSlot::new() }
    }

    /// Whether a request is outstanding.
    pub fn is_in_flight(&self) -> (in_flight: bool)
        ensures
            in_flight == (self@ is InFlight),
    {
        self.slot.is_occupied()
    }

    /// Makes a request.
    ///
    /// With no request in flight the request is accepted: a fresh channel is
    /// opened, its write side goes into the slot and its read side is
    /// returned. The caller then starts the native authentication and waits
    /// on the receiver. With a request in flight the answer is
    /// [`BiometricError::InProgress`], the coordinator is left untouched, and
    /// the native layer must not be called.
    pub fn begin(&mut self) -> (res: Result<Receiver<AuthOutcome>, BiometricError>)
        ensures
            final(self)@ == step(old(self)@, Call::Request),
            match res {
                Ok(_) => verdict(old(self)@, Call::Request) is Ok,
                Err(e) => verdict(old(self)@, Call::Request) == Err::<(), BiometricError>(e),
            },
            res is Err ==> *final(self) == *old(self),
    {
        if self.slot.is_occupied() {
            return Err(BiometricError::InProgress);
        }
        let (waiter, receiver) = channel();
        self.slot.fill(waiter);
        Ok(receiver)
    }

    /// The completion sink: reports that the native authentication ended
    /// with the signal `(authenticated, error_text)`.
    ///
    /// The waiter is taken out of the slot, so that no request is in flight
    /// afterwards, and the decoded outcome is sent to it. With no waiter in
    /// the slot the answer is [`BiometricError::CallbackWithoutRequest`].
    /// Whether the send succeeds is decided by the caller's side of the
    /// channel: the answer is [`report_delivery`] of what the send returned.
    pub fn complete(&mut self, authenticated: bool, error_text: String) -> (res: Result<
        (),
        BiometricError,
    >)
        ensures
            final(self)@ == step(old(self)@, Call::Completion { delivered: res is Ok }),
            res == verdict(old(self)@, Call::Completion { delivered: true }) || res == verdict(
                old(self)@,
                Call::Completion { delivered: false },
            ),
            old(self)@ is Idle ==> *final(self) == *old(self),
    {
        match self.slot.take() {
            None => Err(BiometricError::CallbackWithoutRequest),
            Some(waiter) => {
                let outcome = AuthOutcome::decode(authenticated, error_text);
                report_delivery(waiter.send(outcome))
            },
        }
    }
}

/// What the completion sink answers once it has tried to send the outcome of
/// the request in flight: success if the channel took the outcome, and
/// [`BiometricError::ReceiverDroppedInCallback`] if the channel gave it back
/// because the caller had stopped waiting.
pub fn report_delivery(sent: Result<(), AuthOutcome>) -> (res: Result<(), BiometricError>)
    ensures
        res == verdict(Phase::InFlight, Call::Completion { delivered: sent is Ok }),
{
    match sent {
        Ok(()) => Ok(()),
        Err(_) => Err(BiometricError::ReceiverDroppedInCallback),
    }
}

/// The result that a caller gets for an outcome: `Ok(true)` for a success,
/// `Ok(false)` for a failure without a reason, and for a failure with a
/// reason the error that carries it.
pub open spec fn caller_result(outcome: OutcomeView) -> Result<bool, ErrorView> {
    match outcome {
        OutcomeView::Success => Ok(true),
        OutcomeView::Failure(reason) => if reason.len() == 0 {
            Ok(false)
        } else {
            Err(ErrorView::NativeReportedError(reason))
        },
    }
}

/// From the native signal to the caller: the caller is told `true` exactly
/// for a signal with the flag set and no error text, `false` exactly for one
/// with neither, and gets the native error, with the text as it was
/// reported, exactly when there was a text.
pub proof fn caller_result_of_signal(authenticated: bool, error_text: Seq<char>)
    ensures
        caller_result(decoded(authenticated, error_text)) == if error_text.len() > 0 {
            Err::<bool, ErrorView>(ErrorView::NativeReportedError(error_text))
        } else {
            Ok::<bool, ErrorView>(authenticated)
        },
{
}

/// Turns what the caller's wait on the receiver yielded into the caller's
/// result. An outcome gives [`caller_result`]; a channel that closed without
/// one gives [`BiometricError::ChannelClosed`].
pub fn conclude(received: Result<AuthOutcome, RecvError>) -> (res: Result<bool, BiometricError>)
    ensures
        view_of_result(res) == match received {
            Ok(outcome) => caller_result(outcome@),
            Err(_) => Err(ErrorView::ChannelClosed),
        },
{
    match received {
        Ok(AuthOutcome::Success) => Ok(true),
        Ok(AuthOutcome::Failure(reason)) => if reason.as_str().is_empty() {
            Ok(false)
        } else {
            Err(BiometricError::NativeReportedError(reason))
        },
        Err(_) => Err(BiometricError::ChannelClosed),
    }
}

} // verus!
