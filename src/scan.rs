use vstd::prelude::*;
use vstd::string::*;

use crate::device::ReaderDevice;
use crate::directory::{resolution, resolve_card, Student};
use crate::error::RfidError;
use crate::protocol::{names_card, ScanProtocol};
use crate::reader::{scanned, ReaderRegistry};

verus! {

/// Relies on chrono's `From<SystemTime> for DateTime<Utc>` and
/// `DateTime::timestamp_millis`: the system clock as milliseconds since the
/// Unix epoch, negative for a clock set before 1970.
#[verifier::external_body]
fn now_millis() -> (r: i64) {
    chrono::DateTime::<chrono::Utc>::from(std::time::SystemTime::now()).timestamp_millis()
}

/// The cardholder directory, as this subsystem consumes it.
pub trait StudentDirectory {
    /// Every cardholder record, or the reason the directory cannot be read.
    fn list_students(&mut self) -> Result<Vec<Student>, String>;
}

/// The outcome of one orchestrated scan. It is built fresh per call.
pub struct RfidScanResult {
    pub card_id: String,
    pub student: Option<Student>,
    pub scan_time: i64,
    pub success: bool,
    pub message: String,
}

/// The message of a card that was read: whether it belongs to a student.
pub open spec fn identified_text(found: bool) -> Seq<char> {
    if found {
        "Student found"@
    } else {
        "Card not registered"@
    }
}

/// The message of a scan that read no card.
pub open spec fn failed_text(error: RfidError) -> Seq<char> {
    "Scan failed: "@ + error.text()
}

/// Whether `r` reports a failed read: no card, no student, and the reason.
pub open spec fn is_failed_report(r: RfidScanResult, error: RfidError, scan_time: i64) -> bool {
    &&& !r.success
    &&& r.card_id@.len() == 0
    &&& r.student is None
    &&& r.message@ == failed_text(error)
    &&& r.scan_time == scan_time
}

/// Whether `r` reports the card `card` read and resolved against `students`.
pub open spec fn is_identified_report(r: RfidScanResult, card: Seq<char>, students: Seq<Student>, scan_time: i64) -> bool {
    &&& r.success
    &&& r.card_id@ == card
    &&& r.student == resolution(students, card)
    &&& r.message@ == identified_text(resolution(students, card) is Some)
    &&& r.scan_time == scan_time
}

/// The outcome of a scan whose read failed. `NotConnected` is the caller's
/// error and is passed on; any other failure (no card, an I/O fault) is
/// reported in an unsuccessful result.
pub fn result_of_failed_read(error: RfidError, scan_time: i64) -> (r: Result<RfidScanResult, RfidError>)
    ensures
        error is NotConnected ==> r == Err::<RfidScanResult, RfidError>(error),
        !(error is NotConnected) ==> r is Ok && is_failed_report(r->Ok_0, error, scan_time),
{
    if let RfidError::NotConnected = error {
        return Err(error);
    }
    let message = String::from_str("Scan failed: ").concat(error.message().as_str());
    Ok(RfidScanResult { card_id: String::new(), student: None, scan_time, success: false, message })
}

/// The outcome of a scan that read `card_id`, given what the directory
/// answered: the card is resolved against the listing; a directory that
/// cannot be read gives `DirectoryUnavailable`.
pub fn result_of_lookup(card_id: String, listing: Result<Vec<Student>, String>, scan_time: i64) -> (r: Result<RfidScanResult, RfidError>)
    ensures
        listing is Err ==> r == Err::<RfidScanResult, RfidError>(RfidError::DirectoryUnavailable(listing->Err_0)),
        listing is Ok ==> r is Ok && is_identified_report(r->Ok_0, card_id@, listing->Ok_0@, scan_time),
{
    match listing {
        Err(reason) => Err(RfidError::DirectoryUnavailable(reason)),
        Ok(students) => {
            let student = resolve_card(&card_id, students);
            let message = if student.is_some() {
                String::from_str("Student found")
            } else {
                String::from_str("Card not registered")
            };
            Ok(RfidScanResult { card_id, student, scan_time, success: true, message })
        },
    }
}

/// Whether `r` is the outcome owed for a read that gave `read`: a refused
/// scan is passed on, a failed read is reported as unsuccessful, and a card
/// read is resolved against some listing of the directory, or the directory
/// was unavailable.
pub open spec fn completes(read: Result<String, RfidError>, r: Result<RfidScanResult, RfidError>) -> bool {
    match read {
        Err(error) => if error is NotConnected {
            r == Err::<RfidScanResult, RfidError>(error)
        } else {
            r is Ok && is_failed_report(r->Ok_0, error, r->Ok_0.scan_time)
        },
        Ok(card) => {
            ||| r is Err && r->Err_0 is DirectoryUnavailable
            ||| r is Ok && exists|students: Seq<Student>|
                is_identified_report(r->Ok_0, card@, students, r->Ok_0.scan_time)
        },
    }
}

/// Finishes a scan once the reader has answered `read`: stamps the time and,
/// for a card, asks the directory for its records and resolves the card. The
/// directory is consulted only for a card. This runs without the reader, so
/// the registry's lock need not be held for it.
pub fn complete_scan<S: StudentDirectory>(read: Result<String, RfidError>, directory: &mut S) -> (r: Result<RfidScanResult, RfidError>)
    ensures
        completes(read, r),
        read is Err ==> *final(directory) == *old(directory),
{
    match read {
        Err(error) => {
            if let RfidError::NotConnected = error {
                return Err(error);
            }
            let scan_time = now_millis();
            let ghost reason = error;
            let r = result_of_failed_read(error, scan_time);
            assert(is_failed_report(r->Ok_0, reason, r->Ok_0.scan_time));
            r
        },
        Ok(card_id) => {
            let listing = directory.list_students();
            let scan_time = now_millis();
            let ghost answered = listing;
            let ghost card = card_id@;
            let r = result_of_lookup(card_id, listing, scan_time);
            proof {
                if answered is Ok {
                    assert(is_identified_report(r->Ok_0, card, answered->Ok_0@, scan_time));
                }
            }
            r
        },
    }
}

/// Scans the card in front of the reader and resolves it against the
/// directory. With no live session this fails with `NotConnected` and
/// touches neither device nor directory. Otherwise the reader sees exactly
/// one exchange; a read without a card, or an I/O fault (which also ends the
/// session), is reported as an unsuccessful result; a card read is resolved,
/// registered or not.
pub fn scan_rfid_card<D: ReaderDevice, S: StudentDirectory>(
    registry: &mut ReaderRegistry<D>,
    protocol: &ScanProtocol,
    directory: &mut S,
) -> (r: Result<RfidScanResult, RfidError>)
    ensures
        exists|read: Result<String, RfidError>|
            #[trigger] scanned(*old(registry), *final(registry), *protocol, read) && completes(read, r),
        !old(registry)@.is_connected() <==> r == Err::<RfidScanResult, RfidError>(RfidError::NotConnected),
        !old(registry)@.is_connected() ==> *final(registry) == *old(registry) && *final(directory) == *old(directory),
        r is Ok && r->Ok_0.success ==> names_card(r->Ok_0.card_id@, protocol.no_card_sentinel@),
{
    let read = registry.scan(protocol);
    let ghost answered = read;
    let r = complete_scan(read, directory);
    proof {
        assert(scanned(*old(registry), *registry, *protocol, answered) && completes(answered, r));
        if answered is Ok && r is Ok {
            let card = answered->Ok_0@;
            let students = choose|students: Seq<Student>|
                is_identified_report(r->Ok_0, card, students, r->Ok_0.scan_time);
            assert(r->Ok_0.card_id@ == card);
        }
    }
    r
}

} // verus!
