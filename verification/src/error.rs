//! What can go wrong around an authentication request.

use vstd::prelude::*;

verus! {

/// The ways in which a request, or a completion reported for one, can fail.
#[derive(Debug, PartialEq, Eq)]
pub enum BiometricError {
    /// A request was made while another one was still outstanding.
    InProgress,
    /// The completion channel closed before an outcome arrived on it.
    ChannelClosed,
    /// A completion arrived for a request whose caller had stopped waiting.
    ReceiverDroppedInCallback,
    /// A completion arrived while no request was outstanding.
    CallbackWithoutRequest,
    /// The native layer reported an error; the text is its own.
    NativeReportedError(String),
}

/// A [`BiometricError`] with its text as a sequence of characters.
pub enum ErrorView {
    InProgress,
    ChannelClosed,
    ReceiverDroppedInCallback,
    CallbackWithoutRequest,
    NativeReportedError(Seq<char>),
}

impl View for BiometricError {
    type V = ErrorView;

    open spec fn view(&self) -> ErrorView {
        match self {
            BiometricError::InProgress => ErrorView::InProgress,
            BiometricError::ChannelClosed => ErrorView::ChannelClosed,
            BiometricError::ReceiverDroppedInCallback => ErrorView::ReceiverDroppedInCallback,
            BiometricError::CallbackWithoutRequest => ErrorView::CallbackWithoutRequest,
            BiometricError::NativeReportedError(text) => ErrorView::NativeReportedError(text@),
        }
    }
}

/// The view of a caller's result: the value as it is, an error by its view.
pub open spec fn view_of_result(res: Result<bool, BiometricError>) -> Result<bool, ErrorView> {
    match res {
        Ok(authenticated) => Ok(authenticated),
        Err(e) => Err(e@),
    }
}

} // verus!
