//! The error taxonomy of the session and of the firmware transfer. Every
//! failure a caller can see is one of these variants; the radio layer's own
//! error values never cross into the library.

use vstd::prelude::*;

verus! {

/// Everything that can go wrong in a session operation or a transfer.
#[derive(Clone, Copy, PartialEq, Eq, Structural, Debug)]
pub enum BleError {
    /// No radio hardware is available.
    AdapterUnavailable,
    /// The requested device id was absent from a fresh enumeration.
    DeviceNotFound,
    /// The link-layer connect call failed.
    LinkConnectFailed,
    /// The connected peripheral does not advertise the expected service.
    ServiceNotFound,
    /// The peripheral is connected but does not expose the requested role.
    CharacteristicUnavailable,
    /// The operation needs a connection and the session is disconnected.
    NotConnected,
    /// A read or write failed at the radio link.
    TransportError,
    /// A progress event could not be delivered to the host shell.
    EventSinkError,
}

} // verus!
