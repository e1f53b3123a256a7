//! The typed outcome of one authentication, and the codec that produces it
//! from the two raw values the native layer reports.

use vstd::prelude::*;

verus! {

/// How one authentication ended.
#[derive(Debug, PartialEq, Eq)]
pub enum AuthOutcome {
    /// The user was authenticated.
    Success,
    /// The user was not authenticated. The reason is the native layer's own
    /// text, and is empty when it gave none.
    Failure(String),
}

/// An [`AuthOutcome`] with its text as a sequence of characters.
pub enum OutcomeView {
    Success,
    Failure(Seq<char>),
}

impl View for AuthOutcome {
    type V = OutcomeView;

    open spec fn view(&self) -> OutcomeView {
        match self {
            AuthOutcome::Success => OutcomeView::Success,
            AuthOutcome::Failure(reason) => OutcomeView::Failure(reason@),
        }
    }
}

/// The outcome that a completion signal stands for: success only when the
/// flag is set and no error text came with it, otherwise a failure that
/// carries the text as it is.
pub open spec fn decoded(authenticated: bool, error_text: Seq<char>) -> OutcomeView {
    if authenticated && error_text.len() == 0 {
        OutcomeView::Success
    } else {
        OutcomeView::Failure(error_text)
    }
}

/// An error text always decodes to a failure that carries it, whatever the
/// flag says; with no text the flag alone decides, and the failure carries
/// no reason.
pub proof fn text_overrides_flag(authenticated: bool, error_text: Seq<char>)
    ensures
        error_text.len() > 0 ==> decoded(authenticated, error_text) == OutcomeView::Failure(
            error_text,
        ),
        error_text.len() == 0 ==> decoded(authenticated, error_text) == if authenticated {
            OutcomeView::Success
        } else {
            OutcomeView::Failure(Seq::empty())
        },
{
    if error_text.len() == 0 {
        assert(error_text =~= Seq::empty());
    }
}

/// The completion signal that an answer of the native bridge stands for.
///
/// The bridge answers with a status text or with an error text. The status
/// `true`, and no other, means that the user was authenticated, and a status
/// comes with no error text; an error means that the user was not, and its
/// text is kept.
pub open spec fn signal_of(answer: Result<Seq<char>, Seq<char>>) -> (bool, Seq<char>) {
    match answer {
        Ok(status) => (status == "true"@, Seq::empty()),
        Err(text) => (false, text),
    }
}

/// Reads the native bridge's answer as a completion signal: the flag and the
/// error text that [`AuthOutcome::decode`] takes.
pub fn completion_signal(answer: Result<String, String>) -> (signal: (bool, String))
    ensures
        (signal.0, signal.1@) == signal_of(
            match answer {
                Ok(status) => Ok(status@),
                Err(text) => Err(text@),
            },
        ),
{
    match answer {
        Ok(status) => (status == "true".to_owned(), String::new()),
        Err(text) => (false, text),
    }
}

impl AuthOutcome {
    /// Decodes the native completion signal.
    pub fn decode(authenticated: bool, error_text: String) -> (outcome: AuthOutcome)
        ensures
            outcome@ == decoded(authenticated, error_text@),
    {
        if authenticated && error_text.as_str().is_empty() {
            AuthOutcome::Success
        } else {
            AuthOutcome::Failure(error_text)
        }
    }
}

} // verus!
