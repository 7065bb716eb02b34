//! Error kinds surfaced by the stage driver.

use vstd::prelude::*;

verus! {

/// Everything that can go wrong while talking to the stage controller.
///
/// Transport and protocol errors propagate immediately to the caller
/// with no local retry; `DriverWriteFailed` and `SpeedBoundExceeded`
/// must stop a control loop rather than let it continue with stale or
/// runaway parameters.
#[derive(Clone, Copy, Debug, PartialEq, Eq, Structural)]
pub enum StageError {
    /// No attached USB device matched the requested vendor/product pair.
    DeviceNotFound,
    /// The device was found but its interface could not be claimed.
    InterfaceClaimFailed,
    /// A bulk or control transfer failed, timed out on a required read,
    /// or wrote fewer bytes than the command holds.
    TransportIO,
    /// The device answered with a leading `?`: command not understood.
    CommandRejected,
    /// A numeric query got a reply that does not parse as a number.
    ResponseParseFailed,
    /// A caller-supplied value lies outside the device-documented range,
    /// detected before anything is sent.
    ParameterOutOfRange,
    /// The write-settings verification reply was not `1`; driver
    /// parameters may be only partially applied.
    DriverWriteFailed,
    /// The control loop computed a speed outside the configured safety
    /// band and aborted.
    SpeedBoundExceeded,
}

impl StageError {
    /// A short operator-readable name for the error.
    pub fn describe(&self) -> &'static str {
        match self {
            StageError::DeviceNotFound => "device not found",
            StageError::InterfaceClaimFailed => "could not claim USB interface",
            StageError::TransportIO => "USB transfer failed",
            StageError::CommandRejected => "device rejected the command",
            StageError::ResponseParseFailed => "device reply was not numeric",
            StageError::ParameterOutOfRange => "parameter outside device range",
            StageError::DriverWriteFailed => "driver settings write failed",
            StageError::SpeedBoundExceeded => "speed left the configured safety band",
        }
    }
}

} // verus!
