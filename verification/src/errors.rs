//! The error taxonomy of the capture core. Every fallible operation of the
//! crate reports one of these; none is silently swallowed.

use vstd::prelude::*;

verus! {

/// Why a capture operation could not be carried out.
#[derive(Clone, Copy, Debug, PartialEq, Eq, Structural)]
pub enum CaptureError {
    /// The audio host could not be queried for its input devices.
    /// Recoverable: enumeration then yields an empty device list.
    DeviceEnumerationError,
    /// The host reports no input device at all, so capture cannot start.
    NoDeviceError,
    /// The platform refused to open or run an input stream (device busy or
    /// misconfigured). Retryable with another device or at a later time.
    StreamCreationError,
    /// The device failed mid-stream (for example it was disconnected); the
    /// stream is dead and its handle must show that.
    RuntimeCallbackError,
    /// An operation was called in a state that forbids it, such as clearing
    /// the buffer while the session is still armed.
    InvalidStateError,
}

} // verus!
