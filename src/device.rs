use vstd::prelude::*;

verus! {

/// An open channel to a reader. Each call is bounded by the channel's own
/// timeout; a failure is reported with its reason and is not retried here.
pub trait ReaderDevice {
    /// Sends one complete frame.
    fn write_command(&mut self, frame: &[u8]) -> Result<(), String>;

    /// Receives what arrives within the timeout, at most `max_bytes` bytes;
    /// a partial frame is a valid answer.
    fn read_response(&mut self, max_bytes: usize) -> Result<Vec<u8>, String>;
}

/// Opens channels to readers by port name and baud rate.
pub trait DeviceConnector {
    type Device: ReaderDevice;

    /// Opens the named port; fails with a reason when it is in use, missing
    /// or not permitted.
    fn open(&mut self, port_name: &str, baud_rate: u32) -> Result<Self::Device, String>;
}

/// One call the library made on a reader's channel, with what came of it.
pub enum DeviceCall {
    /// `port_name` was asked to open at `baud_rate`; `failure` is the reason
    /// it did not.
    Open { port_name: Seq<char>, baud_rate: u32, failure: Option<Seq<char>> },
    /// `frame` was sent; `failure` is the reason it was not.
    Write { frame: Seq<u8>, failure: Option<Seq<char>> },
    /// At most `max_bytes` bytes were asked for; `reply` is what arrived, or
    /// the reason nothing could be read.
    Read { max_bytes: usize, reply: Result<Seq<u8>, Seq<char>> },
}

/// The reason a channel call failed, if it did.
pub open spec fn failure_of<T>(r: Result<T, String>) -> Option<Seq<char>> {
    match r {
        Ok(_) => None,
        Err(reason) => Some(reason@),
    }
}

/// The bytes a read returned, or the reason it failed.
pub open spec fn reply_of(r: Result<Vec<u8>, String>) -> Result<Seq<u8>, Seq<char>> {
    match r {
        Ok(bytes) => Ok(bytes@),
        Err(reason) => Err(reason@),
    }
}

/// Asks `connector` to open `port_name` at `baud_rate`, and records the call.
pub(crate) fn open_port<C: DeviceConnector>(connector: &mut C, port_name: &str, baud_rate: u32) -> (out: (
    Result<C::Device, String>,
    Ghost<DeviceCall>,
))
    ensures
        out.1@ == (DeviceCall::Open { port_name: port_name@, baud_rate, failure: failure_of(out.0) }),
{
    let opened = connector.open(port_name, baud_rate);
    let ghost call = DeviceCall::Open { port_name: port_name@, baud_rate, failure: failure_of(opened) };
    (opened, Ghost(call))
}

/// Sends `frame` on `device`, and records the call.
pub(crate) fn send_frame<D: ReaderDevice>(device: &mut D, frame: &[u8]) -> (out: (Result<(), String>, Ghost<DeviceCall>))
    ensures
        out.1@ == (DeviceCall::Write { frame: frame@, failure: failure_of(out.0) }),
{
    let sent = device.write_command(frame);
    let ghost call = DeviceCall::Write { frame: frame@, failure: failure_of(sent) };
    (sent, Ghost(call))
}

/// Reads at most `max_bytes` bytes from `device`, and records the call.
pub(crate) fn receive<D: ReaderDevice>(device: &mut D, max_bytes: usize) -> (out: (Result<Vec<u8>, String>, Ghost<DeviceCall>))
    ensures
        out.1@ == (DeviceCall::Read { max_bytes, reply: reply_of(out.0) }),
{
    let received = device.read_response(max_bytes);
    let ghost call = DeviceCall::Read { max_bytes, reply: reply_of(received) };
    (received, Ghost(call))
}

} // verus!
