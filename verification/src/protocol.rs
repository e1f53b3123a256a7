//! The request protocol as a state machine: what the coordinator answers to
//! each call, and the phase it is in afterwards.
//!
//! The coordinator's contracts are written over [`step`] and [`verdict`].
//! The second half of the file follows whole sequences of calls and proves
//! what holds of every one of them.

use vstd::prelude::*;
use crate::error::BiometricError;

verus! {

/// Where the coordinator stands between two calls.
pub enum Phase {
    /// No request is outstanding.
    Idle,
    /// One request has been accepted and not yet completed.
    InFlight,
}

/// A call that reaches the coordinator.
pub enum Call {
    /// A caller asks for an authentication.
    Request,
    /// The native layer reports that an authentication has ended.
    /// `delivered` tells whether the channel took the outcome, which it does
    /// as long as the caller that made the request still waits for it.
    Completion { delivered: bool },
}

/// The phase after `call` was made in `phase`. A request leaves one request
/// in flight whether it was accepted or refused; a completion leaves none.
pub open spec fn step(phase: Phase, call: Call) -> Phase {
    match call {
        Call::Request => Phase::InFlight,
        Call::Completion { .. } => Phase::Idle,
    }
}

/// What the party that made `call` in `phase` is told.
///
/// A request is accepted when none is in flight and refused otherwise. A
/// completion succeeds when a request is in flight and its caller still
/// waits; with the caller gone it reports that, and with no request in
/// flight it reports that there was none.
pub open spec fn verdict(phase: Phase, call: Call) -> Result<(), BiometricError> {
    match (phase, call) {
        (Phase::Idle, Call::Request) => Ok(()),
        (Phase::InFlight, Call::Request) => Err(BiometricError::InProgress),
        (Phase::Idle, Call::Completion { .. }) => Err(BiometricError::CallbackWithoutRequest),
        (Phase::InFlight, Call::Completion { delivered: true }) => Ok(()),
        (Phase::InFlight, Call::Completion { delivered: false }) => Err(
            BiometricError::ReceiverDroppedInCallback,
        ),
    }
}

/// The number of requests outstanding in `phase`: one or none.
pub open spec fn outstanding(phase: Phase) -> nat {
    match phase {
        Phase::Idle => 0,
        Phase::InFlight => 1,
    }
}

/// The phase after `calls` were made in order, beginning in `start`.
pub open spec fn phase_after(start: Phase, calls: Seq<Call>) -> Phase
    decreases calls.len(),
{
    if calls.len() == 0 {
        start
    } else {
        step(phase_after(start, calls.drop_last()), calls.last())
    }
}

/// What the party that made the last of `calls` is told.
pub open spec fn last_verdict(start: Phase, calls: Seq<Call>) -> Result<(), BiometricError>
    recommends
        calls.len() > 0,
{
    verdict(phase_after(start, calls.drop_last()), calls.last())
}

/// How many of `calls` were requests that the coordinator accepted. These
/// are the requests for which the native authentication is started.
pub open spec fn requests_accepted(start: Phase, calls: Seq<Call>) -> nat
    decreases calls.len(),
{
    if calls.len() == 0 {
        0
    } else {
        let earlier = requests_accepted(start, calls.drop_last());
        if calls.last() is Request && last_verdict(start, calls) is Ok {
            earlier + 1
        } else {
            earlier
        }
    }
}

/// How many of `calls` were completions that handed an outcome, a success
/// or a failure, to a caller who waited for it.
pub open spec fn outcomes_delivered(start: Phase, calls: Seq<Call>) -> nat
    decreases calls.len(),
{
    if calls.len() == 0 {
        0
    } else {
        let earlier = outcomes_delivered(start, calls.drop_last());
        if calls.last() is Completion && last_verdict(start, calls) is Ok {
            earlier + 1
        } else {
            earlier
        }
    }
}

/// How many of `calls` were completions of a request whose caller had
/// stopped waiting, so that nobody saw the outcome.
pub open spec fn requests_abandoned(start: Phase, calls: Seq<Call>) -> nat
    decreases calls.len(),
{
    if calls.len() == 0 {
        0
    } else {
        let earlier = requests_abandoned(start, calls.drop_last());
        if last_verdict(start, calls) == Err::<(), BiometricError>(
            BiometricError::ReceiverDroppedInCallback,
        ) {
            earlier + 1
        } else {
            earlier
        }
    }
}

/// Single flight: however many requests are made with no completion between
/// them, the native authentication is started for at most one of them. If
/// the coordinator was idle, the first request is accepted and every later
/// one is refused with `InProgress`; if a request was in flight already, all
/// of them are. A refused request changes nothing: the phase stays as the
/// accepted request left it.
pub proof fn single_flight(start: Phase, calls: Seq<Call>)
    requires
        forall|i: int| 0 <= i < calls.len() ==> calls[i] is Request,
    ensures
        requests_accepted(start, calls) + outstanding(start) <= 1,
        calls.len() > 0 ==> requests_accepted(start, calls) + outstanding(start) == 1,
        calls.len() > 0 ==> phase_after(start, calls) is InFlight,
        forall|n: int|
            0 < n <= calls.len() ==> #[trigger] last_verdict(start, calls.take(n)) == if n == 1 {
                verdict(start, Call::Request)
            } else {
                Err::<(), BiometricError>(BiometricError::InProgress)
            },
    decreases calls.len(),
{
    if calls.len() > 0 {
        let earlier = calls.drop_last();
        single_flight(start, earlier);
        assert forall|n: int| 0 < n <= calls.len() implies #[trigger] last_verdict(
            start,
            calls.take(n),
        ) == if n == 1 {
            verdict(start, Call::Request)
        } else {
            Err::<(), BiometricError>(BiometricError::InProgress)
        } by {
            if n < calls.len() {
                assert(calls.take(n) == earlier.take(n));
            } else {
                assert(calls.take(n) == calls);
                assert(calls.last() is Request);
            }
        }
    }
}

/// Exactly-once delivery: after any calls whatever, each request that was
/// accepted, and the one that was in flight at the start, has met exactly
/// one fate. Its outcome was delivered, or it was completed with its caller
/// gone, or it is the one request still in flight. Completions of requests
/// therefore never outnumber the requests, so that none is completed twice,
/// and at no time is more than one accepted request without its completion.
pub proof fn exactly_once(start: Phase, calls: Seq<Call>)
    ensures
        requests_accepted(start, calls) + outstanding(start) == outcomes_delivered(start, calls)
            + requests_abandoned(start, calls) + outstanding(phase_after(start, calls)),
        outcomes_delivered(start, calls) + requests_abandoned(start, calls) <= requests_accepted(
            start,
            calls,
        ) + outstanding(start) <= outcomes_delivered(start, calls) + requests_abandoned(
            start,
            calls,
        ) + 1,
    decreases calls.len(),
{
    if calls.len() > 0 {
        exactly_once(start, calls.drop_last());
    }
}

/// A completion that follows a completion finds no request, however either
/// of them fares: the sink does not resolve one request a second time.
pub proof fn second_completion_finds_no_request(phase: Phase, first: bool, second: bool)
    ensures
        verdict(
            step(phase, Call::Completion { delivered: first }),
            Call::Completion { delivered: second },
        ) == Err::<(), BiometricError>(BiometricError::CallbackWithoutRequest),
{
}

/// Slot reuse after completion: after any completion, delivered or not, the
/// next request is accepted.
pub proof fn request_after_completion_is_accepted(phase: Phase, delivered: bool)
    ensures
        verdict(step(phase, Call::Completion { delivered }), Call::Request) is Ok,
{
}

/// Slot reuse after abandonment: while the request of a caller who stopped
/// waiting is in flight, further requests are refused. The completion that
/// arrives in the end reports `ReceiverDroppedInCallback` and frees the
/// coordinator, so that the request after it is accepted.
pub proof fn abandoned_request_frees_coordinator()
    ensures
        verdict(Phase::InFlight, Call::Request) == Err::<(), BiometricError>(
            BiometricError::InProgress,
        ),
        step(Phase::InFlight, Call::Request) == Phase::InFlight,
        verdict(Phase::InFlight, Call::Completion { delivered: false }) == Err::<
            (),
            BiometricError,
        >(BiometricError::ReceiverDroppedInCallback),
        verdict(
            step(Phase::InFlight, Call::Completion { delivered: false }),
            Call::Request,
        ) is Ok,
{
}

/// Unsolicited callback: a completion with no request in flight reports
/// `CallbackWithoutRequest` and leaves the coordinator idle, so that the
/// next request is accepted.
pub proof fn unsolicited_completion_is_harmless(delivered: bool)
    ensures
        verdict(Phase::Idle, Call::Completion { delivered }) == Err::<(), BiometricError>(
            BiometricError::CallbackWithoutRequest,
        ),
        step(Phase::Idle, Call::Completion { delivered }) == Phase::Idle,
        verdict(step(Phase::Idle, Call::Completion { delivered }), Call::Request) is Ok,
{
}

} // verus!
