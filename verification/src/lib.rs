//! Character-device driver subsystem: a UART-class serial controller
//! protocol generic over register width, an interrupt-safe event
//! notification primitive, and a bounded buffering decorator that
//! insulates slow consumers from bursty interrupt-context producers.

use vstd::prelude::*;

pub mod buffered;
pub mod display;
pub mod event;
pub mod flags;
pub mod pci;
pub mod scheme;
pub mod io;
pub mod sim;
pub mod word;

verus! {

/// Error kind reserved by the surrounding kernel for device operations.
/// No operation in this subsystem produces one today; the variants keep
/// the failure path open for real hardware-fault or timeout conditions.
#[derive(Clone, Copy, PartialEq, Eq, Structural, Debug)]
pub enum DeviceError {
    /// The device rejected or cannot perform the operation.
    IoError,
    /// The operation is not supported by this device.
    NotSupported,
    /// A parameter was outside the device's accepted range.
    InvalidParam,
}

/// Result of a device operation: success, or a kernel device-error kind.
pub type DeviceResult<T> = Result<T, DeviceError>;

} // verus!
