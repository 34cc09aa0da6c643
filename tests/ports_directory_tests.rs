use rfid_reader::directory::{carries_card, resolve_card, Student};
use rfid_reader::ports::{candidate_ports, PortEntry, PortMedium};

fn entry(name: &str, medium: PortMedium) -> PortEntry {
    PortEntry { port_name: name.to_string(), medium }
}

fn student(id: &str, card: Option<&str>) -> Student {
    Student {
        id: id.to_string(),
        first_name: "Ahmed".to_string(),
        last_name: "Benali".to_string(),
        email: None,
        phone: None,
        academic_level: "1ere CEM".to_string(),
        rfid_card: card.map(|c| c.to_string()),
        parent_name: "Fatima Benali".to_string(),
        parent_phone: "0555123457".to_string(),
        address: None,
        birth_date: None,
        enrollment_date: 0,
        is_active: true,
        notes: None,
        created_at: 0,
        updated_at: 0,
    }
}

#[test]
fn candidate_ports_keeps_usb_and_pci_in_order() {
    let ports = vec![
        entry("/dev/ttyS0", PortMedium::Unknown),
        entry("/dev/ttyUSB0", PortMedium::Usb),
        entry("/dev/rfcomm0", PortMedium::Bluetooth),
        entry("COM1", PortMedium::Pci),
        entry("/dev/ttyACM0", PortMedium::Usb),
    ];
    assert_eq!(
        candidate_ports(&ports),
        vec!["/dev/ttyUSB0".to_string(), "COM1".to_string(), "/dev/ttyACM0".to_string()]
    );
}

#[test]
fn candidate_ports_empty_is_valid() {
    assert!(candidate_ports(&Vec::new()).is_empty());
    assert!(candidate_ports(&vec![entry("/dev/ttyS1", PortMedium::Unknown)]).is_empty());
}

#[test]
fn resolve_finds_bound_record() {
    let students = vec![student("s1", None), student("s2", Some("A1B2C3")), student("s3", Some("FFFF"))];
    let found = resolve_card(&"A1B2C3".to_string(), students).expect("bound record");
    assert_eq!(found.id, "s2");
}

#[test]
fn resolve_returns_first_of_two_holders() {
    let students = vec![student("s1", Some("X")), student("s2", Some("X"))];
    assert_eq!(resolve_card(&"X".to_string(), students).unwrap().id, "s1");
}

#[test]
fn resolve_is_exact_and_may_find_nothing() {
    let students = vec![student("s1", Some("a1b2c3")), student("s2", None)];
    assert!(resolve_card(&"A1B2C3".to_string(), students).is_none());
    assert!(resolve_card(&"A1B2C3".to_string(), Vec::new()).is_none());
}

#[test]
fn carries_card_compares_exactly() {
    assert!(carries_card(&student("s", Some("AB")), &"AB".to_string()));
    assert!(!carries_card(&student("s", Some("AB ")), &"AB".to_string()));
    assert!(!carries_card(&student("s", None), &"AB".to_string()));
}
