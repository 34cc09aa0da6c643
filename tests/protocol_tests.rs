use rfid_reader::error::RfidError;
use rfid_reader::protocol::ScanProtocol;

#[test]
fn standard_protocol_values() {
    let p = ScanProtocol::standard();
    assert_eq!(p.scan_request, b"SCAN\r\n".to_vec());
    assert_eq!(p.response_limit, 32);
    assert_eq!(p.no_card_sentinel, "NO_CARD");
}

#[test]
fn parse_trims_card_identifier() {
    let p = ScanProtocol::standard();
    assert_eq!(p.parse_response(b"  A1B2C3\r\n"), Ok("A1B2C3".to_string()));
}

#[test]
fn parse_sentinel_is_no_card() {
    let p = ScanProtocol::standard();
    assert_eq!(p.parse_response(b"NO_CARD\r\n"), Err(RfidError::NoCardDetected));
}

#[test]
fn parse_sentinel_is_case_sensitive() {
    let p = ScanProtocol::standard();
    assert_eq!(p.parse_response(b"no_card"), Ok("no_card".to_string()));
}

#[test]
fn parse_empty_and_blank_are_no_card() {
    let p = ScanProtocol::standard();
    assert_eq!(p.parse_response(b""), Err(RfidError::NoCardDetected));
    assert_eq!(p.parse_response(b" \r\n\t"), Err(RfidError::NoCardDetected));
}

#[test]
fn parse_reads_at_most_the_limit() {
    let p = ScanProtocol::standard();
    let long: Vec<u8> = b"0123456789012345678901234567890123456789".to_vec();
    assert_eq!(p.parse_response(&long), Ok("01234567890123456789012345678901".to_string()));
}

#[test]
fn parse_replaces_invalid_utf8() {
    let p = ScanProtocol::standard();
    assert_eq!(p.parse_response(&[0x41, 0xff, 0x42]), Ok("A\u{FFFD}B".to_string()));
}

#[test]
fn classify_trimmed_cases() {
    let p = ScanProtocol::standard();
    assert_eq!(p.classify_trimmed(String::new()), Err(RfidError::NoCardDetected));
    assert_eq!(p.classify_trimmed("NO_CARD".to_string()), Err(RfidError::NoCardDetected));
    assert_eq!(p.classify_trimmed(" A1 ".to_string()), Ok(" A1 ".to_string()));
}

#[test]
fn custom_sentinel_is_honoured() {
    let p = ScanProtocol {
        scan_request: vec![0x02],
        response_limit: 8,
        no_card_sentinel: "NONE".to_string(),
    };
    assert_eq!(p.parse_response(b"NONE\n"), Err(RfidError::NoCardDetected));
    assert_eq!(p.parse_response(b"NO_CARD\n"), Ok("NO_CARD".to_string()));
}

#[test]
fn error_messages() {
    assert_eq!(RfidError::NotConnected.message(), "RFID reader not connected");
    assert_eq!(RfidError::AlreadyConnected.message(), "RFID reader already connected");
    assert_eq!(RfidError::NoCardDetected.message(), "No card detected");
    assert_eq!(
        RfidError::ConnectionError("busy".to_string()).message(),
        "Failed to connect to RFID reader: busy"
    );
    assert_eq!(RfidError::IoError("eof".to_string()).message(), "RFID reader I/O failure: eof");
    assert_eq!(
        RfidError::EnumerationError("x".to_string()).message(),
        "Failed to list serial ports: x"
    );
    assert_eq!(
        RfidError::DirectoryUnavailable("db".to_string()).message(),
        "Student directory unavailable: db"
    );
}
