use biometric::{
    can_check_biometrics, completion_signal, conclude, report_delivery, AuthOutcome,
    BiometricError, Coordinator,
};
use tokio::sync::oneshot::error::TryRecvError;

fn text(s: &str) -> String {
    s.to_string()
}

/// One whole authentication against a native layer that answers at once.
fn authenticate(
    coordinator: &mut Coordinator,
    localized_reason: &str,
    native: fn(&str) -> Result<String, String>,
) -> Result<bool, BiometricError> {
    let receiver = coordinator.begin()?;
    let (authenticated, error_text) = completion_signal(native(localized_reason));
    coordinator.complete(authenticated, error_text)?;
    conclude(receiver.blocking_recv())
}

fn native_accepts(_reason: &str) -> Result<String, String> {
    Ok(text("true"))
}

fn native_declines(_reason: &str) -> Result<String, String> {
    Ok(text("false"))
}

fn native_echoes_reason(reason: &str) -> Result<String, String> {
    Err(text(reason))
}

#[test]
fn test_authenticate() {
    let mut coordinator = Coordinator::new();
    assert!(authenticate(
        &mut coordinator,
        "use your device's biometrics for trust store",
        native_accepts
    )
    .unwrap_or_default());
}

#[test]
fn authenticate_declined_is_false() {
    let mut coordinator = Coordinator::new();
    assert_eq!(
        authenticate(&mut coordinator, "unlock", native_declines),
        Ok(false)
    );
}

#[test]
fn authenticate_native_error_reaches_caller() {
    let mut coordinator = Coordinator::new();
    assert_eq!(
        authenticate(&mut coordinator, "no biometry enrolled", native_echoes_reason),
        Err(BiometricError::NativeReportedError(text("no biometry enrolled")))
    );
    assert!(!coordinator.is_in_flight());
}

#[test]
fn new_coordinator_is_idle() {
    let coordinator = Coordinator::new();
    assert!(!coordinator.is_in_flight());
}

#[test]
fn default_coordinator_is_idle() {
    let mut coordinator = Coordinator::default();
    assert!(!coordinator.is_in_flight());
    assert!(coordinator.begin().is_ok());
}

#[test]
fn single_flight_second_request_is_refused() {
    let mut coordinator = Coordinator::new();
    let mut receiver = coordinator.begin().expect("the first request is accepted");
    assert!(coordinator.is_in_flight());
    for _ in 0..5 {
        assert_eq!(coordinator.begin().err(), Some(BiometricError::InProgress));
        assert!(coordinator.is_in_flight());
    }
    // The refused requests did not disturb the accepted one.
    assert_eq!(receiver.try_recv(), Err(TryRecvError::Empty));
    assert_eq!(coordinator.complete(true, text("")), Ok(()));
    assert_eq!(receiver.try_recv(), Ok(AuthOutcome::Success));
}

#[test]
fn completion_delivers_decoded_outcome() {
    let mut coordinator = Coordinator::new();
    let mut receiver = coordinator.begin().unwrap();
    assert_eq!(coordinator.complete(false, text("boom")), Ok(()));
    assert_eq!(
        receiver.try_recv(),
        Ok(AuthOutcome::Failure(text("boom")))
    );

    let mut receiver = coordinator.begin().unwrap();
    assert_eq!(coordinator.complete(true, text("boom")), Ok(()));
    assert_eq!(
        receiver.try_recv(),
        Ok(AuthOutcome::Failure(text("boom")))
    );

    let mut receiver = coordinator.begin().unwrap();
    assert_eq!(coordinator.complete(false, text("")), Ok(()));
    assert_eq!(receiver.try_recv(), Ok(AuthOutcome::Failure(text(""))));
}

#[test]
fn exactly_once_second_completion_finds_no_request() {
    let mut coordinator = Coordinator::new();
    let mut receiver = coordinator.begin().unwrap();
    assert_eq!(coordinator.complete(true, text("")), Ok(()));
    assert!(!coordinator.is_in_flight());
    assert_eq!(
        coordinator.complete(false, text("late")),
        Err(BiometricError::CallbackWithoutRequest)
    );
    // The caller sees the first outcome and nothing of the second.
    assert_eq!(receiver.try_recv(), Ok(AuthOutcome::Success));
    assert_eq!(receiver.try_recv(), Err(TryRecvError::Closed));
}

#[test]
fn slot_reuse_after_success() {
    let mut coordinator = Coordinator::new();
    let _first = coordinator.begin().unwrap();
    assert_eq!(coordinator.complete(true, text("")), Ok(()));
    assert!(coordinator.begin().is_ok());
}

#[test]
fn slot_reuse_after_failure() {
    let mut coordinator = Coordinator::new();
    let _first = coordinator.begin().unwrap();
    assert_eq!(coordinator.complete(false, text("user cancelled")), Ok(()));
    assert!(coordinator.begin().is_ok());
}

#[test]
fn slot_reuse_after_abandonment() {
    let mut coordinator = Coordinator::new();
    let receiver = coordinator.begin().unwrap();
    drop(receiver);
    // Abandoning the wait does not free the coordinator by itself.
    assert!(coordinator.is_in_flight());
    assert_eq!(coordinator.begin().err(), Some(BiometricError::InProgress));
    // The stale completion does.
    assert_eq!(
        coordinator.complete(true, text("")),
        Err(BiometricError::ReceiverDroppedInCallback)
    );
    assert!(!coordinator.is_in_flight());
    let mut receiver = coordinator.begin().expect("the coordinator is free again");
    assert_eq!(coordinator.complete(true, text("")), Ok(()));
    assert_eq!(receiver.try_recv(), Ok(AuthOutcome::Success));
}

#[test]
fn unsolicited_callback_is_reported_and_harmless() {
    let mut coordinator = Coordinator::new();
    assert_eq!(
        coordinator.complete(true, text("")),
        Err(BiometricError::CallbackWithoutRequest)
    );
    assert_eq!(
        coordinator.complete(false, text("boom")),
        Err(BiometricError::CallbackWithoutRequest)
    );
    assert!(!coordinator.is_in_flight());
    let mut receiver = coordinator.begin().expect("the next request is accepted");
    assert_eq!(coordinator.complete(false, text("boom")), Ok(()));
    assert_eq!(
        receiver.try_recv(),
        Ok(AuthOutcome::Failure(text("boom")))
    );
}

#[test]
fn request_without_capability_fails_gracefully() {
    assert!(!can_check_biometrics(false));
    // The caller asks all the same; the native layer reports the failure.
    let mut coordinator = Coordinator::new();
    assert_eq!(
        authenticate(&mut coordinator, "biometry is not available", native_echoes_reason),
        Err(BiometricError::NativeReportedError(text("biometry is not available")))
    );
    assert!(coordinator.begin().is_ok());
}

#[test]
fn dropped_coordinator_closes_channel() {
    let mut coordinator = Coordinator::new();
    let receiver = coordinator.begin().unwrap();
    drop(coordinator);
    assert_eq!(
        conclude(receiver.blocking_recv()),
        Err(BiometricError::ChannelClosed)
    );
}

#[test]
fn report_delivery_of_sent_outcome() {
    assert_eq!(report_delivery(Ok(())), Ok(()));
}

#[test]
fn report_delivery_of_returned_outcome() {
    assert_eq!(
        report_delivery(Err(AuthOutcome::Success)),
        Err(BiometricError::ReceiverDroppedInCallback)
    );
    assert_eq!(
        report_delivery(Err(AuthOutcome::Failure(text("boom")))),
        Err(BiometricError::ReceiverDroppedInCallback)
    );
}

#[test]
fn interleaved_requests_and_completions() {
    let mut coordinator = Coordinator::new();
    let mut accepted = 0;
    let mut resolved = 0;
    let mut receivers = Vec::new();
    // request, request, completion, completion, request, completion
    for is_request in [true, true, false, false, true, false] {
        if is_request {
            if let Ok(receiver) = coordinator.begin() {
                accepted += 1;
                receivers.push(receiver);
            }
        } else if coordinator.complete(true, text("")).is_ok() {
            resolved += 1;
        }
        let outstanding = if coordinator.is_in_flight() { 1 } else { 0 };
        assert_eq!(accepted, resolved + outstanding);
    }
    assert_eq!(accepted, 2);
    assert_eq!(resolved, 2);
    for mut receiver in receivers {
        assert_eq!(receiver.try_recv(), Ok(AuthOutcome::Success));
    }
}
