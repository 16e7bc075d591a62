use rm_login::request::{is_complete_request, parse_request, scan_request_text, Request};
use rm_login::text::{decimal_text, split_words, text_is};

fn words(text: &str) -> Vec<String> {
    split_words(text)
}

#[test]
fn split_keeps_empty_words() {
    assert_eq!(words("hello"), vec!["hello".to_string()]);
    assert_eq!(words("add_to_shop 123"), vec!["add_to_shop".to_string(), "123".to_string()]);
    assert_eq!(words("a  b"), vec!["a".to_string(), "".to_string(), "b".to_string()]);
    assert_eq!(words(""), vec!["".to_string()]);
    assert_eq!(words(" x "), vec!["".to_string(), "x".to_string(), "".to_string()]);
}

#[test]
fn split_matches_std_split() {
    for text in ["", " ", "new_person Ada Lovelace lovela true", "é ü  ß", "a\tb c"] {
        let expected: Vec<String> = text.split(" ").map(|w| w.to_string()).collect();
        assert_eq!(words(text), expected);
    }
}

#[test]
fn text_is_compares_exactly() {
    assert!(text_is(&"hello".to_string(), "hello"));
    assert!(!text_is(&"hello ".to_string(), "hello"));
    assert!(!text_is(&"Hello".to_string(), "hello"));
}

#[test]
fn decimal_formula() {
    assert_eq!(decimal_text(0), "0");
    assert_eq!(decimal_text(7), "7");
    assert_eq!(decimal_text(10), "10");
    assert_eq!(decimal_text(1234567890), "1234567890");
    assert_eq!(decimal_text(u64::MAX), "18446744073709551615");
    assert_eq!(decimal_text(u64::MAX), u64::MAX.to_string());
}

#[test]
fn completeness_of_requests() {
    assert!(is_complete_request("hello"));
    assert!(is_complete_request(""));
    assert!(is_complete_request("anything at all"));
    assert!(!is_complete_request("add_to_shop"));
    assert!(is_complete_request("add_to_shop 42"));
    assert!(is_complete_request("add_to_shop "));
    assert!(!is_complete_request("remove_from_shop"));
    assert!(!is_complete_request("rfid_scan"));
    assert!(!is_complete_request("new_person Ada Lovelace lovela"));
    assert!(is_complete_request("new_person Ada Lovelace lovela true"));
}

#[test]
fn parses_each_command() {
    assert!(matches!(parse_request("hello"), Request::Hello));
    assert!(matches!(parse_request("pressed_a_button"), Request::PressedAButton));
    assert!(matches!(parse_request("test_message"), Request::TestMessage));
    assert!(matches!(parse_request("get_in_shop"), Request::GetInShop));
    assert!(matches!(parse_request("get_all_timestamps"), Request::GetAllTimestamps));
    assert!(matches!(parse_request("hello there"), Request::Hello));
    assert!(matches!(parse_request("Hello"), Request::Other));
    assert!(matches!(parse_request(" hello"), Request::Other));
    assert!(matches!(parse_request(""), Request::Other));
    match parse_request("add_to_shop 777 extra") {
        Request::AddToShop { rfid } => assert_eq!(rfid, "777"),
        _ => panic!("not add_to_shop"),
    }
    match parse_request("remove_from_shop 778") {
        Request::RemoveFromShop { rfid } => assert_eq!(rfid, "778"),
        _ => panic!("not remove_from_shop"),
    }
    match parse_request("rfid_scan 779") {
        Request::RfidScan { rfid } => assert_eq!(rfid, "779"),
        _ => panic!("not rfid_scan"),
    }
    match parse_request("add_to_shop ") {
        Request::AddToShop { rfid } => assert_eq!(rfid, ""),
        _ => panic!("not add_to_shop"),
    }
}

#[test]
fn parses_enrollment() {
    match parse_request("new_person Ada Lovelace lovela true") {
        Request::NewPerson { person } => {
            assert_eq!(person.firstname, "Ada");
            assert_eq!(person.lastname, "Lovelace");
            assert_eq!(person.rcsid, "lovela");
            assert!(person.is_good);
        }
        _ => panic!("not new_person"),
    }
    match parse_request("new_person Ada Lovelace lovela TRUE") {
        Request::NewPerson { person } => assert!(!person.is_good),
        _ => panic!("not new_person"),
    }
    match parse_request("new_person Ada Lovelace lovela yes") {
        Request::NewPerson { person } => assert!(!person.is_good),
        _ => panic!("not new_person"),
    }
}

#[test]
fn scan_request_reads_back() {
    assert_eq!(scan_request_text(12345), "rfid_scan 12345");
    assert_eq!(scan_request_text(0), "rfid_scan 0");
    for id in [0u64, 9, 10, 3141592653, u64::MAX] {
        let text = scan_request_text(id);
        assert!(is_complete_request(&text));
        match parse_request(&text) {
            Request::RfidScan { rfid } => assert_eq!(rfid, id.to_string()),
            _ => panic!("scan text not read back as a scan"),
        }
    }
}
