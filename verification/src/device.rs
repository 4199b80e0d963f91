//! One physical entropy device and its initialize / read / status protocol.
//!
//! A [`QrngDevice`] is a two-state machine: `Uninitialized` (initial) and
//! `Initialized`, re-entered by every successful `initialize`. The hardware
//! transactions themselves (open, reset, configure, claim, bulk transfer)
//! happen in the runtime under the device's exclusive guard; what came of a
//! transaction enters here as an outcome value, and the machine's verified
//! methods decide the state change and the reply from it.

use vstd::prelude::*;

use crate::error::QrngError;

verus! {

/// USB vendor id of the target device signature.
pub const FTDI_VENDOR_ID: u16 = 0x0403;

/// USB product id of the target device signature.
pub const FTDI_PRODUCT_ID: u16 = 0x6001;

/// Endpoint the entropy byte stream is read from.
pub const ENTROPY_ENDPOINT: u8 = 0x81;

/// Endpoint the two-byte status record is read from.
pub const STATUS_ENDPOINT: u8 = 0x82;

/// Timeout for one bounded entropy bulk transfer, in milliseconds.
pub const ENTROPY_READ_TIMEOUT_MS: u64 = 1000;

/// Timeout for one status probe transfer, in milliseconds.
pub const STATUS_READ_TIMEOUT_MS: u64 = 100;

/// Mathematical content of a [`QrngDevice`].
pub struct DeviceView {
    pub handle: u64,
    pub vendor_id: u16,
    pub product_id: u16,
    pub initialized: bool,
}

/// One attached device: the runtime's key to its shared physical handle,
/// the static descriptor identity, and the protocol state.
///
/// Copying a `QrngDevice` copies the handle key, never the physical
/// resource: every copy still denotes the same device, whose exclusive
/// guard the runtime holds around each hardware transaction.
#[derive(Debug, Clone, Copy)]
pub struct QrngDevice {
    handle: u64,
    vendor_id: u16,
    product_id: u16,
    initialized: bool,
}

impl View for QrngDevice {
    type V = DeviceView;

    closed spec fn view(&self) -> DeviceView {
        DeviceView {
            handle: self.handle,
            vendor_id: self.vendor_id,
            product_id: self.product_id,
            initialized: self.initialized,
        }
    }
}

/// Snapshot of a status probe: the protocol state at the time of the probe
/// and the two raw bytes of the status record. Byte 0 is the temperature in
/// degrees; byte 1 is the supply voltage in tenths of a volt. A failed probe
/// is reported as a zero-valued snapshot rather than an error.
#[derive(Debug, Clone, Copy, PartialEq, Eq, Structural)]
pub struct DeviceStatus {
    pub initialized: bool,
    pub temperature: u8,
    pub voltage_decivolts: u8,
}

/// What came of one bounded entropy bulk transfer.
pub enum TransferOutcome {
    /// The transfer completed and filled the request's buffer.
    Data(Vec<u8>),
    /// The transfer failed or timed out; carries the transport's error text.
    TransferFailed(String),
    /// The device could not be opened; carries the transport's error text.
    OpenFailed(String),
}

/// What came of one status probe transfer.
pub enum ProbeOutcome {
    /// The probe returned the two bytes of the status record.
    Sample(u8, u8),
    /// The probe transfer failed or timed out.
    ProbeFailed,
    /// The device could not be opened; carries the transport's error text.
    OpenFailed(String),
}

/// Spec of the message carried by the error for a zero-length entropy request.
pub open spec fn invalid_size_message() -> Seq<char> {
    "Invalid entropy size"@
}

impl QrngDevice {
    /// A freshly discovered device: descriptor identity recorded,
    /// protocol state `Uninitialized`.
    pub fn new(handle: u64, vendor_id: u16, product_id: u16) -> (d: QrngDevice)
        ensures
            d@ == (DeviceView { handle, vendor_id, product_id, initialized: false }),
    {
        QrngDevice { handle, vendor_id, product_id, initialized: false }
    }

    /// The runtime's key to this device's shared physical handle.
    pub fn handle(&self) -> (h: u64)
        ensures
            h == self@.handle,
    {
        self.handle
    }

    /// Vendor id from the device descriptor.
    pub fn vendor_id(&self) -> (v: u16)
        ensures
            v == self@.vendor_id,
    {
        self.vendor_id
    }

    /// Product id from the device descriptor.
    pub fn product_id(&self) -> (p: u16)
        ensures
            p == self@.product_id,
    {
        self.product_id
    }

    /// Applies the outcome of the initialize sequence (open, reset, set the
    /// active configuration to 1, claim interface 0, run under the device's
    /// guard). Only a fully successful sequence arms the device; any failed
    /// step leaves the protocol state untouched and is reported as
    /// `UsbError`. Re-initializing an armed device is allowed and re-runs
    /// the whole sequence.
    pub fn initialize(&mut self, outcome: Result<(), String>) -> (r: Result<(), QrngError>)
        ensures
            final(self)@.handle == old(self)@.handle,
            final(self)@.vendor_id == old(self)@.vendor_id,
            final(self)@.product_id == old(self)@.product_id,
            outcome is Ok ==> final(self)@.initialized && r is Ok,
            outcome matches Err(e) ==> {
                &&& final(self)@.initialized == old(self)@.initialized
                &&& r == Err::<(), QrngError>(QrngError::UsbError(e))
            },
    {
        match outcome {
            Ok(()) => {
                self.initialized = true;
                Ok(())
            }
            Err(e) => Err(QrngError::UsbError(e)),
        }
    }

    /// Whether an entropy read of `size` bytes may proceed to the hardware.
    /// The runtime asks this before spending a transfer: a device that was
    /// never armed refuses with `DeviceNotInitialized`, and a zero-byte
    /// request refuses with `InvalidState`, in that order.
    pub fn read_entropy_precheck(&self, size: usize) -> (r: Result<(), QrngError>)
        ensures
            r is Ok <==> (self@.initialized && size > 0),
            !self@.initialized ==> r == Err::<(), QrngError>(QrngError::DeviceNotInitialized),
            self@.initialized && size == 0 ==> {
                &&& r matches Err(QrngError::InvalidState(m))
                &&& m@ == invalid_size_message()
            },
    {
        if !self.initialized {
            Err(QrngError::DeviceNotInitialized)
        } else if size == 0 {
            Err(QrngError::InvalidState("Invalid entropy size".to_string()))
        } else {
            Ok(())
        }
    }

    /// Resolves an entropy read of exactly `size` bytes. The request is
    /// refused as [`Self::read_entropy_precheck`] says before any transfer
    /// counts; past that, a completed transfer yields its bytes unchanged,
    /// a failed or timed-out transfer is a hard `CommunicationError` (no
    /// partial result), and a failed open is a `UsbError`. The protocol
    /// state never changes.
    pub fn read_entropy(&self, size: usize, outcome: TransferOutcome) -> (r: Result<
        Vec<u8>,
        QrngError,
    >)
        requires
            outcome matches TransferOutcome::Data(buf) ==> buf@.len() == size,
        ensures
            !self@.initialized ==> r == Err::<Vec<u8>, QrngError>(QrngError::DeviceNotInitialized),
            self@.initialized && size == 0 ==> {
                &&& r matches Err(QrngError::InvalidState(m))
                &&& m@ == invalid_size_message()
            },
            self@.initialized && size > 0 ==> match outcome {
                TransferOutcome::Data(buf) => r == Ok::<Vec<u8>, QrngError>(buf),
                TransferOutcome::TransferFailed(e) => r == Err::<Vec<u8>, QrngError>(
                    QrngError::CommunicationError(e),
                ),
                TransferOutcome::OpenFailed(e) => r == Err::<Vec<u8>, QrngError>(
                    QrngError::UsbError(e),
                ),
            },
            r matches Ok(bytes) ==> bytes@.len() == size && self@.initialized && size > 0,
    {
        match self.read_entropy_precheck(size) {
            Ok(()) => match outcome {
                TransferOutcome::Data(buf) => Ok(buf),
                TransferOutcome::TransferFailed(e) => Err(QrngError::CommunicationError(e)),
                TransferOutcome::OpenFailed(e) => Err(QrngError::UsbError(e)),
            },
            Err(e) => Err(e),
        }
    }

    /// Resolves a status probe. A failed open is the one hard error; a
    /// failed probe transfer is absorbed into a zero-valued snapshot, the
    /// documented best-effort fallback. Either way the snapshot reports the
    /// device's current protocol state, and the state never changes.
    pub fn status(&self, probe: ProbeOutcome) -> (r: Result<DeviceStatus, QrngError>)
        ensures
            probe matches ProbeOutcome::OpenFailed(e) ==> r == Err::<DeviceStatus, QrngError>(
                QrngError::UsbError(e),
            ),
            probe matches ProbeOutcome::Sample(t, v) ==> r == Ok::<DeviceStatus, QrngError>(
                DeviceStatus { initialized: self@.initialized, temperature: t, voltage_decivolts: v },
            ),
            probe is ProbeFailed ==> r == Ok::<DeviceStatus, QrngError>(
                DeviceStatus { initialized: self@.initialized, temperature: 0, voltage_decivolts: 0 },
            ),
            r matches Ok(st) ==> st.initialized == self@.initialized,
    {
        match probe {
            ProbeOutcome::Sample(t, v) => Ok(
                DeviceStatus {
                    initialized: self.initialized,
                    temperature: t,
                    voltage_decivolts: v,
                },
            ),
            ProbeOutcome::ProbeFailed => Ok(
                DeviceStatus { initialized: self.initialized, temperature: 0, voltage_decivolts: 0 },
            ),
            ProbeOutcome::OpenFailed(e) => Err(QrngError::UsbError(e)),
        }
    }
}

} // verus!
