use rm_login::reader::{parsing_notice, ReaderData, ScannerState};

fn report(status: u8, valid: bool, id: u64) -> ReaderData {
    ReaderData {
        message_type: 0x80,
        length: 0,
        slot: 0,
        seq: 0,
        status,
        error: 0,
        chain_parameter: 0,
        valid,
        id,
        adpu_status: 0,
    }
}

#[test]
fn one_scan_per_card_on_the_reader() {
    let mut s = ScannerState::new();
    assert_eq!(s.observe(&report(0, true, 77)), Some(77));
    assert_eq!(s.last_id, 77);
    assert!(s.still_reading);
    assert_eq!(s.observe(&report(0, true, 77)), None);
    assert_eq!(s.observe(&report(0, true, 78)), None);
    assert_eq!(s.observe(&report(1, false, 0)), None);
    assert_eq!(s.last_id, 0);
    assert!(!s.still_reading);
    assert_eq!(s.observe(&report(0, true, 77)), Some(77));
}

#[test]
fn unreadable_or_zero_cards_are_not_scanned() {
    let mut s = ScannerState::new();
    assert_eq!(s.observe(&report(0, false, 77)), None);
    assert_eq!(s.observe(&report(0, true, 0)), None);
    assert!(!s.still_reading);
    assert_eq!(s.observe(&report(0, true, 5)), Some(5));
}

#[test]
fn notice_before_a_scan() {
    let m = parsing_notice();
    assert_eq!(m.msgtype, "parsing");
    assert_eq!(m.message, "");
}
