//! Registry and protocol core for USB-attached entropy-generating devices.
//!
//! The library verifies the logic that arbitrates access to such devices:
//! the per-device initialize / read / status protocol state machine and the
//! registry that maps a stable serial identity to a device. Hardware I/O
//! itself (USB enumeration, bulk transfers, string-descriptor reads) is the
//! runtime's business; its outcomes enter the library as plain values, and
//! every decision taken on them is verified.

pub mod device;
pub mod discovery;
pub mod error;
pub mod registry;
pub mod stats;

pub use device::DeviceStatus;
pub use device::ProbeOutcome;
pub use device::QrngDevice;
pub use device::TransferOutcome;
pub use discovery::scan_devices;
pub use discovery::UsbCandidate;
pub use error::QrngError;
pub use registry::DeviceManager;
