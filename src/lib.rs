//! Identity resolution for a serial-attached RFID badge reader: the reader
//! state machine, the scan wire protocol, port filtering and the lookup of a
//! scanned card in a directory of cardholders.

pub mod error;
pub mod protocol;
pub mod device;
pub mod reader;
pub mod ports;
pub mod directory;
pub mod scan;
pub mod settings;
