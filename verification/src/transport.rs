//! The HID transport as the core sees it: who the device says it is, how
//! often the host is asked to poll, and how a push can fail.

use vstd::prelude::*;

verus! {

/// USB vendor identifier of the device.
pub const VENDOR_ID: u16 = 0x27DC;

/// USB product identifier of the device.
pub const PRODUCT_ID: u16 = 0x16C0;

/// USB device class: miscellaneous.
pub const DEVICE_CLASS: u8 = 0xEF;

/// Manufacturer string of the device.
pub const MANUFACTURER: &'static str = "Yeebs Industries";

/// Product string of the device.
pub const PRODUCT: &'static str = "Junk Pedals";

/// Interval, in milliseconds, at which the host is asked to poll the HID
/// endpoint.
pub const POLL_MS: u8 = 10;

/// Why a report did not reach the endpoint. The kinds are those the USB stack
/// tells apart; none of them is fatal.
#[derive(Clone, Copy, Debug, PartialEq, Eq, Structural)]
pub enum TransportError {
    /// The endpoint is busy: the previous report has not been collected yet.
    WouldBlock,
    /// Input could not be parsed.
    ParseError,
    /// The report does not fit the endpoint's buffer.
    BufferOverflow,
    /// More endpoints were asked for than the peripheral has.
    EndpointOverflow,
    /// More packet memory was asked for than the peripheral has.
    EndpointMemoryOverflow,
    /// The endpoint does not exist.
    InvalidEndpoint,
    /// The device or its configuration does not support the operation.
    Unsupported,
    /// The device is not in a state that allows the operation.
    InvalidState,
}

/// What a push came to: the number of bytes written, or why none were.
pub type PushOutcome = Result<usize, TransportError>;

} // verus!
