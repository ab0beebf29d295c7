//! Errors returned by the session core.
use vstd::prelude::*;

verus! {

/// Every failure a request can report.
#[derive(Debug, Clone, PartialEq, Eq)]
pub enum Error {
    /// An error reported by the BLE transport, carried as its message.
    Btleplug(String),
    /// No discovered peripheral has this address.
    UnknownPeripheral(String),
    /// The connected device has no characteristic with this uuid.
    CharacNotAvailable(String),
    NoDeviceConnected,
    AlreadyConnected,
    HandlerNotInitialized,
    /// A state update could not be delivered to its subscriber.
    SendingState(String),
    NoAdapters,
    DisconnectFailed,
    ConnectionFailed,
    ServiceNotFound,
    InvalidFilterMask,
    /// Received bytes that are not valid UTF-8 where text was expected.
    InvalidText,
}

impl Error {
    /// Human readable description of the error.
    pub fn message(&self) -> (r: String)
        ensures
            r@ == error_text(*self),
    {
        match self {
            Error::Btleplug(m) => describe("Btleplug error: ", m),
            Error::UnknownPeripheral(a) => describe("There is no peripheral with id: ", a),
            Error::CharacNotAvailable(u) => {
                let mut s = describe("Characteristic ", u);
                s.append(" not available");
                s
            },
            Error::NoDeviceConnected => String::from_str("No device connected"),
            Error::AlreadyConnected => String::from_str("Device is already connected."),
            Error::HandlerNotInitialized => String::from_str("Handler not initialized"),
            Error::SendingState(m) => describe("could not send State: ", m),
            Error::NoAdapters => String::from_str("no bluetooth adapters found"),
            Error::DisconnectFailed => String::from_str("Unknown error during disconnect"),
            Error::ConnectionFailed => String::from_str("Unknown error during connect"),
            Error::ServiceNotFound => String::from_str("Service not found"),
            Error::InvalidFilterMask => String::from_str("Mask must match manufacturer data length"),
            Error::InvalidText => String::from_str("received data is not valid UTF-8"),
        }
    }
}

fn describe(prefix: &str, detail: &String) -> (r: String)
    ensures
        r@ == prefix@ + detail@,
{
    let mut s = String::from_str(prefix);
    s.append(detail.as_str());
    s
}

/// The description of each error.
pub open spec fn error_text(e: Error) -> Seq<char> {
    match e {
        Error::Btleplug(m) => "Btleplug error: "@ + m@,
        Error::UnknownPeripheral(a) => "There is no peripheral with id: "@ + a@,
        Error::CharacNotAvailable(u) => "Characteristic "@ + u@ + " not available"@,
        Error::NoDeviceConnected => "No device connected"@,
        Error::AlreadyConnected => "Device is already connected."@,
        Error::HandlerNotInitialized => "Handler not initialized"@,
        Error::SendingState(m) => "could not send State: "@ + m@,
        Error::NoAdapters => "no bluetooth adapters found"@,
        Error::DisconnectFailed => "Unknown error during disconnect"@,
        Error::ConnectionFailed => "Unknown error during connect"@,
        Error::ServiceNotFound => "Service not found"@,
        Error::InvalidFilterMask => "Mask must match manufacturer data length"@,
        Error::InvalidText => "received data is not valid UTF-8"@,
    }
}

} // verus!
