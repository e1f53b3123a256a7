//! Single-flight coordination of biometric authentication requests.
//!
//! A native, callback-driven subsystem decides each authentication. This
//! crate holds the rules around it: how the raw completion signal is decoded,
//! that at most one request is outstanding at any time, and what every party
//! is told on each path through a request's life.

pub mod channel;
pub mod coordinator;
pub mod error;
pub mod outcome;
pub mod probe;
pub mod protocol;
pub mod slot;

pub use coordinator::{conclude, report_delivery, Coordinator};
pub use error::{BiometricError, ErrorView};
pub use outcome::{completion_signal, AuthOutcome, OutcomeView};
pub use probe::can_check_biometrics;
pub use slot::PendingSlot;
