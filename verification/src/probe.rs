//! The capability probe.

use vstd::prelude::*;

verus! {

/// Whether biometric authentication can be used on this device.
///
/// The native layer alone knows, and `native_report` is what its query
/// answered; the probe passes that answer on and adds no rule of its own.
/// A caller asks before it relies on authentication being available. The
/// coordinator does not: a request made on a device without the capability
/// is accepted like any other, and it is the native layer that fails it.
#[must_use]
pub fn can_check_biometrics(native_report: bool) -> (available: bool)
    ensures
        available == native_report,
{
    native_report
}

} // verus!
