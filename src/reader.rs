use vstd::prelude::*;

use crate::device::{open_port, receive, send_frame, DeviceCall, DeviceConnector, ReaderDevice};
use crate::error::RfidError;
use crate::protocol::{names_card, ScanProtocol};

verus! {

/// The two states of the physical reader, with the port and rate of a live
/// session.
pub enum ReaderPhase {
    Disconnected,
    Connected { port_name: Seq<char>, baud_rate: u32 },
}

impl ReaderPhase {
    pub open spec fn is_connected(self) -> bool {
        self is Connected
    }
}

/// One call on the reader, as the state machine sees it.
pub enum ReaderEvent {
    /// A connect to `port_name` at `baud_rate`; `opened` tells whether the
    /// port could be opened.
    Connect { port_name: Seq<char>, baud_rate: u32, opened: bool },
    /// A disconnect.
    Disconnect,
    /// A scan; `faulted` tells whether the exchange failed with an I/O error.
    Scan { faulted: bool },
}

/// The transition of the reader state machine: a connect takes effect only
/// from `Disconnected` and only when the port opened, a disconnect always
/// ends the session, and a scan ends it exactly when it faults.
pub open spec fn step(phase: ReaderPhase, event: ReaderEvent) -> ReaderPhase {
    match event {
        ReaderEvent::Connect { port_name, baud_rate, opened } => {
            if phase is Disconnected && opened {
                ReaderPhase::Connected { port_name, baud_rate }
            } else {
                phase
            }
        },
        ReaderEvent::Disconnect => ReaderPhase::Disconnected,
        ReaderEvent::Scan { faulted } => {
            if faulted {
                ReaderPhase::Disconnected
            } else {
                phase
            }
        },
    }
}

/// The state reached by applying `events` in order from `start`.
pub open spec fn replay(start: ReaderPhase, events: Seq<ReaderEvent>) -> ReaderPhase
    decreases events.len(),
{
    if events.len() == 0 {
        start
    } else {
        step(replay(start, events.drop_last()), events.last())
    }
}

/// Over any sequence of connects, disconnects and scans, each moving the
/// reader by `step` as the calls' contracts state, every state reached is the
/// one that replaying the calls so far on the two-state machine gives.
pub proof fn lemma_calls_follow_machine(states: Seq<ReaderPhase>, events: Seq<ReaderEvent>)
    requires
        states.len() == events.len() + 1,
        forall|i: int| 0 <= i < events.len() ==> states[i + 1] == step(states[i], #[trigger] events[i]),
    ensures
        forall|i: int| 0 <= i < states.len() ==> #[trigger] states[i] == replay(states[0], events.take(i)),
        states.last() == replay(states[0], events),
    decreases events.len(),
{
    if events.len() > 0 {
        let n = events.len() - 1;
        lemma_calls_follow_machine(states.drop_last(), events.drop_last());
        assert forall|i: int| 0 <= i < states.len() implies #[trigger] states[i] == replay(states[0], events.take(i)) by {
            if i < states.len() - 1 {
                assert(states.drop_last()[i] == states[i]);
                assert(events.drop_last().take(i) =~= events.take(i));
            } else {
                assert(states.drop_last()[n] == states[n]);
                assert(events.drop_last().take(n) =~= events.drop_last());
                assert(events.take(i).drop_last() =~= events.drop_last());
                assert(events.take(i).last() == events[n]);
            }
        }
        assert(events.take(events.len() as int) =~= events);
    } else {
        assert(events.take(0) =~= events);
    }
}

/// After a scan that faults, the reader is disconnected whatever state it was
/// in, so the very next scan is refused as not connected rather than retried.
pub proof fn lemma_fault_fails_fast(phase: ReaderPhase)
    ensures
        step(phase, ReaderEvent::Scan { faulted: true }) == ReaderPhase::Disconnected,
        !step(phase, ReaderEvent::Scan { faulted: true }).is_connected(),
{
}

/// Whether a scan result is an I/O fault.
pub open spec fn is_fault(r: Result<String, RfidError>) -> bool {
    r is Err && r->Err_0 is IoError
}

/// Whether `r` is the I/O fault with `reason`.
pub open spec fn is_io_error(r: Result<String, RfidError>, reason: Seq<char>) -> bool {
    r is Err && r->Err_0 is IoError && r->Err_0->IoError_0@ == reason
}

/// Whether `calls` are exactly the channel calls of one scan exchange that
/// ended in `r`: one write of the scan request and, only when that write
/// succeeded, one read of at most the response limit; no retry. A failed
/// call gives `IoError` with its reason; a reply gives what it parses to.
pub open spec fn explains_exchange(protocol: ScanProtocol, calls: Seq<DeviceCall>, r: Result<String, RfidError>) -> bool {
    &&& calls.len() >= 1
    &&& calls[0] matches DeviceCall::Write { frame, failure }
    &&& frame == protocol.scan_request@
    &&& match failure {
        Some(reason) => calls.len() == 1 && is_io_error(r, reason),
        None => {
            &&& calls.len() == 2
            &&& calls[1] matches DeviceCall::Read { max_bytes, reply }
            &&& max_bytes == protocol.response_limit
            &&& match reply {
                Ok(bytes) => protocol.parsed(bytes, r),
                Err(reason) => is_io_error(r, reason),
            }
        },
    }
}

/// Whether the log `after` is the log `before` with more calls appended.
pub open spec fn extends(before: Seq<DeviceCall>, after: Seq<DeviceCall>) -> bool {
    before.len() <= after.len() && after.take(before.len() as int) == before
}

/// The calls appended to the log `before` to give the log `after`.
pub open spec fn since(before: Seq<DeviceCall>, after: Seq<DeviceCall>) -> Seq<DeviceCall> {
    after.skip(before.len() as int)
}

/// A reader configured for one port: holds the open channel while connected,
/// and the log of every channel call it has made.
pub struct RfidReader<D> {
    port: Option<D>,
    port_name: String,
    baud_rate: u32,
    calls: Ghost<Seq<DeviceCall>>,
}

impl<D> View for RfidReader<D> {
    type V = ReaderPhase;

    closed spec fn view(&self) -> ReaderPhase {
        if self.port is Some {
            ReaderPhase::Connected { port_name: self.port_name@, baud_rate: self.baud_rate }
        } else {
            ReaderPhase::Disconnected
        }
    }
}

impl<D> RfidReader<D> {
    /// The port this reader opens.
    pub closed spec fn configured_port(&self) -> Seq<char> {
        self.port_name@
    }

    /// The rate this reader opens its port at.
    pub closed spec fn configured_rate(&self) -> u32 {
        self.baud_rate
    }

    /// Every channel call this reader has made, oldest first.
    pub closed spec fn device_calls(&self) -> Seq<DeviceCall> {
        self.calls@
    }

    /// A disconnected reader for `port_name` at `baud_rate`.
    pub fn new(port_name: String, baud_rate: u32) -> (r: Self)
        ensures
            r@ == ReaderPhase::Disconnected,
            r.configured_port() == port_name@,
            r.configured_rate() == baud_rate,
            r.device_calls() == Seq::<DeviceCall>::empty(),
    {
        RfidReader { port: None, port_name, baud_rate, calls: Ghost(Seq::empty()) }
    }

    pub fn is_connected(&self) -> (r: bool)
        ensures
            r == self@.is_connected(),
    {
        self.port.is_some()
    }

    /// Releases the channel; does nothing when already disconnected.
    pub fn disconnect(&mut self)
        ensures
            final(self)@ == step(old(self)@, ReaderEvent::Disconnect),
            final(self).configured_port() == old(self).configured_port(),
            final(self).configured_rate() == old(self).configured_rate(),
            final(self).device_calls() == old(self).device_calls(),
    {
        self.port = None;
    }
}

impl<D: ReaderDevice> RfidReader<D> {
    /// Opens the configured port at the configured rate. A live session is
    /// never replaced: while connected this fails with `AlreadyConnected`,
    /// asks for no port, and changes nothing.
    pub fn connect<C: DeviceConnector<Device = D>>(&mut self, connector: &mut C) -> (r: Result<(), RfidError>)
        ensures
            final(self)@ == step(
                old(self)@,
                ReaderEvent::Connect {
                    port_name: old(self).configured_port(),
                    baud_rate: old(self).configured_rate(),
                    opened: r is Ok,
                },
            ),
            final(self).configured_port() == old(self).configured_port(),
            final(self).configured_rate() == old(self).configured_rate(),
            old(self)@.is_connected() ==> {
                &&& r == Err::<(), RfidError>(RfidError::AlreadyConnected)
                &&& *final(self) == *old(self)
                &&& *final(connector) == *old(connector)
            },
            !old(self)@.is_connected() ==> {
                &&& r is Ok || r->Err_0 is ConnectionError
                &&& final(self).device_calls() == old(self).device_calls().push(
                    DeviceCall::Open {
                        port_name: old(self).configured_port(),
                        baud_rate: old(self).configured_rate(),
                        failure: if r is Ok { None } else { Some(r->Err_0->ConnectionError_0@) },
                    },
                )
            },
    {
        if self.port.is_some() {
            return Err(RfidError::AlreadyConnected);
        }
        let (opened, call) = open_port(connector, self.port_name.as_str(), self.baud_rate);
        self.calls = Ghost(self.calls@.push(call@));
        match opened {
            Ok(device) => {
                self.port = Some(device);
                Ok(())
            },
            Err(reason) => Err(RfidError::ConnectionError(reason)),
        }
    }

    /// One exchange: sends the scan request, reads at most the protocol's
    /// response limit, and parses the reply. Fails with `NotConnected`, and
    /// touches no device, when disconnected. The port is neither opened nor
    /// dropped here: an I/O failure is passed up as `IoError`, and ending the
    /// session on it is the registry's decision.
    pub fn scan_card(&mut self, protocol: &ScanProtocol) -> (r: Result<String, RfidError>)
        ensures
            final(self)@ == old(self)@,
            final(self).configured_port() == old(self).configured_port(),
            final(self).configured_rate() == old(self).configured_rate(),
            !old(self)@.is_connected() <==> r == Err::<String, RfidError>(RfidError::NotConnected),
            !old(self)@.is_connected() ==> *final(self) == *old(self),
            old(self)@.is_connected() ==> {
                &&& extends(old(self).device_calls(), final(self).device_calls())
                &&& explains_exchange(*protocol, since(old(self).device_calls(), final(self).device_calls()), r)
            },
            r is Ok ==> names_card(r->Ok_0@, protocol.no_card_sentinel@),
            r is Err ==> r->Err_0 is NotConnected || r->Err_0 is IoError || r->Err_0 is NoCardDetected,
    {
        let ghost before = self.calls@;
        let (outcome, made) = match &mut self.port {
            None => {
                return Err(RfidError::NotConnected);
            },
            Some(device) => exchange(device, protocol),
        };
        self.calls = Ghost(self.calls@ + made@);
        proof {
            assert(self.calls@.take(before.len() as int) =~= before);
            assert(self.calls@.skip(before.len() as int) =~= made@);
        }
        outcome
    }
}

/// The exchange on an open channel, with the calls it made.
fn exchange<D: ReaderDevice>(device: &mut D, protocol: &ScanProtocol) -> (out: (Result<String, RfidError>, Ghost<Seq<DeviceCall>>))
    ensures
        explains_exchange(*protocol, out.1@, out.0),
        out.0 is Ok ==> names_card(out.0->Ok_0@, protocol.no_card_sentinel@),
        out.0 is Err ==> out.0->Err_0 is IoError || out.0->Err_0 is NoCardDetected,
{
    let (sent, write_call) = send_frame(device, protocol.scan_request.as_slice());
    if let Err(reason) = sent {
        let ghost made = seq![write_call@];
        return (Err(RfidError::IoError(reason)), Ghost(made));
    }
    let (received, read_call) = receive(device, protocol.response_limit);
    let ghost made = seq![write_call@, read_call@];
    match received {
        Ok(bytes) => (protocol.parse_response(bytes.as_slice()), Ghost(made)),
        Err(reason) => (Err(RfidError::IoError(reason)), Ghost(made)),
    }
}

/// The process-wide holder of at most one live reader session. Callers share
/// it behind one lock, so connects, disconnects and scans never overlap. It
/// keeps the log of every channel call made through it, across sessions.
pub struct ReaderRegistry<D> {
    reader: Option<RfidReader<D>>,
    calls: Ghost<Seq<DeviceCall>>,
}

impl<D> View for ReaderRegistry<D> {
    type V = ReaderPhase;

    closed spec fn view(&self) -> ReaderPhase {
        match self.reader {
            Some(reader) => reader@,
            None => ReaderPhase::Disconnected,
        }
    }
}

/// Whether a registry moved from `before` to `after` by one scan that
/// returned `r`: with no session nothing changed and the scan was refused;
/// with one, the channel saw exactly one exchange explaining `r`.
pub open spec fn scanned<D>(
    before: ReaderRegistry<D>,
    after: ReaderRegistry<D>,
    protocol: ScanProtocol,
    r: Result<String, RfidError>,
) -> bool {
    &&& after@ == step(before@, ReaderEvent::Scan { faulted: is_fault(r) })
    &&& before.holds_open_session_only() ==> after.holds_open_session_only()
    &&& !before@.is_connected() ==> after == before && r == Err::<String, RfidError>(RfidError::NotConnected)
    &&& before@.is_connected() ==> {
        &&& extends(before.device_calls(), after.device_calls())
        &&& explains_exchange(protocol, since(before.device_calls(), after.device_calls()), r)
    }
}

impl<D> ReaderRegistry<D> {
    /// Every channel call made through this registry, oldest first.
    pub closed spec fn device_calls(&self) -> Seq<DeviceCall> {
        self.calls@
    }

    /// The registry holds a reader only while that reader's port is open.
    pub closed spec fn holds_open_session_only(&self) -> bool {
        self.reader matches Some(reader) ==> reader@.is_connected()
    }

    /// A registry with no session.
    pub fn new() -> (r: Self)
        ensures
            r@ == ReaderPhase::Disconnected,
            r.holds_open_session_only(),
            r.device_calls() == Seq::<DeviceCall>::empty(),
    {
        ReaderRegistry { reader: None, calls: Ghost(Seq::empty()) }
    }

    pub fn is_connected(&self) -> (r: bool)
        ensures
            r == self@.is_connected(),
    {
        match &self.reader {
            Some(reader) => reader.is_connected(),
            None => false,
        }
    }

    /// Ends the session, if any; always succeeds and makes no channel call.
    pub fn disconnect(&mut self)
        ensures
            final(self)@ == step(old(self)@, ReaderEvent::Disconnect),
            final(self).holds_open_session_only(),
            final(self).device_calls() == old(self).device_calls(),
    {
        if let Some(reader) = &mut self.reader {
            reader.disconnect();
        }
        self.reader = None;
    }
}

impl<D: ReaderDevice> ReaderRegistry<D> {
    /// Opens a session on `port_name` at `baud_rate`. While a session is live
    /// this fails with `AlreadyConnected`, asks for no port and leaves the
    /// session untouched; a port that cannot be opened gives
    /// `ConnectionError` and no session.
    pub fn connect<C: DeviceConnector<Device = D>>(
        &mut self,
        connector: &mut C,
        port_name: String,
        baud_rate: u32,
    ) -> (r: Result<(), RfidError>)
        ensures
            final(self)@ == step(
                old(self)@,
                ReaderEvent::Connect { port_name: port_name@, baud_rate, opened: r is Ok },
            ),
            old(self).holds_open_session_only() ==> final(self).holds_open_session_only(),
            old(self)@.is_connected() ==> {
                &&& r == Err::<(), RfidError>(RfidError::AlreadyConnected)
                &&& *final(self) == *old(self)
                &&& *final(connector) == *old(connector)
            },
            !old(self)@.is_connected() ==> {
                &&& final(self).holds_open_session_only()
                &&& r is Ok || r->Err_0 is ConnectionError
                &&& final(self).device_calls() == old(self).device_calls().push(
                    DeviceCall::Open {
                        port_name: port_name@,
                        baud_rate,
                        failure: if r is Ok { None } else { Some(r->Err_0->ConnectionError_0@) },
                    },
                )
            },
    {
        if self.is_connected() {
            return Err(RfidError::AlreadyConnected);
        }
        let mut reader = RfidReader::new(port_name, baud_rate);
        let opened = reader.connect(connector);
        self.calls = Ghost(self.calls@ + reader.device_calls());
        proof {
            assert(self.calls@ =~= old(self).calls@.push(reader.device_calls()[0]));
        }
        if opened.is_ok() {
            self.reader = Some(reader);
        } else {
            self.reader = None;
        }
        opened
    }

    /// Runs one scan exchange on the live session. Fails with `NotConnected`,
    /// touching no device, when there is none; an I/O failure ends the
    /// session, so the next call fails fast instead of retrying.
    pub fn scan(&mut self, protocol: &ScanProtocol) -> (r: Result<String, RfidError>)
        ensures
            scanned(*old(self), *final(self), *protocol, r),
            !old(self)@.is_connected() <==> r == Err::<String, RfidError>(RfidError::NotConnected),
            r is Ok ==> names_card(r->Ok_0@, protocol.no_card_sentinel@),
            r is Err ==> r->Err_0 is NotConnected || r->Err_0 is IoError || r->Err_0 is NoCardDetected,
    {
        let ghost before = self.calls@;
        let outcome = match &mut self.reader {
            None => {
                return Err(RfidError::NotConnected);
            },
            Some(reader) => {
                let ghost reader_before = reader.device_calls();
                let outcome = reader.scan_card(protocol);
                let ghost made = since(reader_before, reader.device_calls());
                self.calls = Ghost(before + made);
                proof {
                    assert(self.calls@.take(before.len() as int) =~= before);
                    assert(self.calls@.skip(before.len() as int) =~= made);
                }
                outcome
            },
        };
        if let Err(RfidError::IoError(_)) = &outcome {
            self.reader = None;
        }
        outcome
    }
}

} // verus!
