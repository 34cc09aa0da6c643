use vstd::prelude::*;
use vstd::string::*;

verus! {

/// Every failure the reader subsystem can report.
#[derive(Debug, Clone, PartialEq, Eq)]
pub enum RfidError {
    /// The platform could not list its serial ports.
    EnumerationError(String),
    /// The named port could not be opened.
    ConnectionError(String),
    /// A connect was asked for while a session is live.
    AlreadyConnected,
    /// A scan was asked for while no session is live.
    NotConnected,
    /// The live session failed mid-exchange.
    IoError(String),
    /// The reader answered, but with no card.
    NoCardDetected,
    /// The cardholder directory could not be read.
    DirectoryUnavailable(String),
}

impl RfidError {
    /// The text shown to an operator for this failure.
    pub open spec fn text(&self) -> Seq<char> {
        match self {
            RfidError::EnumerationError(reason) => "Failed to list serial ports: "@ + reason@,
            RfidError::ConnectionError(reason) => "Failed to connect to RFID reader: "@ + reason@,
            RfidError::AlreadyConnected => "RFID reader already connected"@,
            RfidError::NotConnected => "RFID reader not connected"@,
            RfidError::IoError(reason) => "RFID reader I/O failure: "@ + reason@,
            RfidError::NoCardDetected => "No card detected"@,
            RfidError::DirectoryUnavailable(reason) => "Student directory unavailable: "@ + reason@,
        }
    }

    /// Builds the operator text of this failure.
    pub fn message(&self) -> (r: String)
        ensures
            r@ == self.text(),
    {
        match self {
            RfidError::EnumerationError(reason) => {
                String::from_str("Failed to list serial ports: ").concat(reason.as_str())
            },
            RfidError::ConnectionError(reason) => {
                String::from_str("Failed to connect to RFID reader: ").concat(reason.as_str())
            },
            RfidError::AlreadyConnected => String::from_str("RFID reader already connected"),
            RfidError::NotConnected => String::from_str("RFID reader not connected"),
            RfidError::IoError(reason) => {
                String::from_str("RFID reader I/O failure: ").concat(reason.as_str())
            },
            RfidError::NoCardDetected => String::from_str("No card detected"),
            RfidError::DirectoryUnavailable(reason) => {
                String::from_str("Student directory unavailable: ").concat(reason.as_str())
            },
        }
    }
}

} // verus!
