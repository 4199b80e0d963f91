//! The error taxonomy shared by every operation of the library.

use vstd::prelude::*;

verus! {

/// Every failure an operation can report.
///
/// - `UsbError`: opening, resetting, configuring or claiming the device
///   failed, or a string-descriptor read failed; carries the transport's
///   error text.
/// - `DeviceNotFound`: no device is registered under the given serial.
/// - `DeviceNotInitialized`: an operation that needs a configured device ran
///   before a successful `initialize`.
/// - `CommunicationError`: a bulk transfer failed or timed out during an
///   entropy read; carries the transport's error text.
/// - `InvalidState`: the request itself was malformed, e.g. an entropy read
///   of zero bytes.
/// - `IoError`, `TlsError`, `ProtocolError`: reserved for the transport and
///   serving layers around the core; the core itself never produces them.
#[derive(Debug, PartialEq, Eq)]
pub enum QrngError {
    UsbError(String),
    DeviceNotFound(String),
    DeviceNotInitialized,
    CommunicationError(String),
    InvalidState(String),
    IoError(String),
    TlsError(String),
    ProtocolError(String),
}

} // verus!
