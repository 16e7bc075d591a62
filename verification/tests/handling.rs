use rm_login::data_types::{JoinedPersonInShop, JoinedTimestamp, PersonRow};
use rm_login::handler::{start, step, Action, Event, Phase};
use rm_login::reader::ReaderData;
use rm_login::request::parse_request;

fn person(rfid: &str) -> PersonRow {
    PersonRow {
        rcsid: "lovela".to_string(),
        firstname: "Ada".to_string(),
        lastname: "Lovelace".to_string(),
        rfid: rfid.to_string(),
        is_good: true,
    }
}

fn card(status: u8, valid: bool, id: u64) -> ReaderData {
    ReaderData {
        message_type: 0x80,
        length: 0,
        slot: 0,
        seq: 0,
        status,
        error: 0,
        chain_parameter: 0,
        valid,
        id,
        adpu_status: 0x9000,
    }
}

fn in_shop_rows() -> Vec<JoinedPersonInShop> {
    vec![JoinedPersonInShop::new(
        "lovela".to_string(),
        "Ada".to_string(),
        "Lovelace".to_string(),
        "2024-03-01",
        "13:05:09",
    )]
}

const IN_SHOP_JSON: &str = "[{\"rcsid\":\"lovela\",\"firstname\":\"Ada\",\"lastname\":\"Lovelace\",\"timestamp\":\"2024-03-01 13:05:09\"}]";

fn go(phase: Phase, event: Event) -> (Phase, Action) {
    assert!(phase.accepts(&event));
    step(phase, event)
}

fn expect_sql(action: &Action, expected: &str) {
    match action {
        Action::Execute { sql }
        | Action::FetchPeople { sql }
        | Action::FetchCounts { sql }
        | Action::FetchInShop { sql }
        | Action::FetchTimestamps { sql } => assert_eq!(sql, expected),
        _ => panic!("expected a query"),
    }
}

fn expect_reply(phase: &Phase, action: &Action, msgtype: &str, message: &str) {
    assert!(matches!(phase, Phase::Finished));
    match action {
        Action::Reply { message: m } => {
            assert_eq!(m.msgtype, msgtype);
            assert_eq!(m.message, message);
        }
        _ => panic!("expected the reply"),
    }
}

#[test]
fn answers_without_database() {
    let (p, a) = start(parse_request("hello"));
    expect_reply(&p, &a, "message", "hello world!");
    let (p, a) = start(parse_request("pressed_a_button"));
    expect_reply(&p, &a, "message", "you sure did, champ");
    let (p, a) = start(parse_request("test_message"));
    expect_reply(&p, &a, "in_shop_add", "[]");
    let (p, a) = start(parse_request("nonsense words"));
    expect_reply(&p, &a, "null", "");
    assert!(!p.accepts(&Event::Executed));
}

#[test]
fn get_in_shop_flow() {
    let (p, a) = start(parse_request("get_in_shop"));
    assert!(matches!(a, Action::Connect));
    let (p, a) = go(p, Event::Connected);
    expect_sql(&a, "select people.rcsid, people.firstname, people.lastname, people.rfid, in_shop.time_in from people inner join in_shop on in_shop.rfid=people.rfid");
    assert!(matches!(a, Action::FetchInShop { .. }));
    assert!(!p.accepts(&Event::Executed));
    let (p, a) = go(p, Event::InShop { rows: in_shop_rows() });
    expect_reply(&p, &a, "in_shop_refresh", IN_SHOP_JSON);
}

#[test]
fn get_all_timestamps_flow() {
    let (p, _) = start(parse_request("get_all_timestamps"));
    let (p, a) = go(p, Event::Connected);
    assert!(matches!(a, Action::FetchTimestamps { .. }));
    let rows = vec![JoinedTimestamp::new(
        "lovela".to_string(),
        "Ada".to_string(),
        "Lovelace".to_string(),
        true,
        "2024-03-01",
        "13:05:09",
    )];
    let (p, a) = go(p, Event::Timestamps { rows });
    expect_reply(
        &p,
        &a,
        "timestamps_refresh",
        "[{\"rcsid\":\"lovela\",\"firstname\":\"Ada\",\"lastname\":\"Lovelace\",\"entering\":true,\"timestamp\":\"2024-03-01 13:05:09\"}]",
    );
}

#[test]
fn add_and_remove_flows() {
    let (p, _) = start(parse_request("add_to_shop 42"));
    let (p, a) = go(p, Event::Connected);
    expect_sql(&a, "INSERT INTO in_shop (rfid, time_in) VALUES (\"42\", current_timestamp())");
    let (p, a) = go(p, Event::Executed);
    expect_sql(&a, "INSERT INTO timestamps (rfid, is_checking_in, time_stamp) SELECT rfid, TRUE, time_in FROM in_shop WHERE rfid=\"42\"");
    let (p, a) = go(p, Event::Executed);
    assert!(matches!(a, Action::FetchInShop { .. }));
    let (p, a) = go(p, Event::InShop { rows: vec![] });
    expect_reply(&p, &a, "in_shop_refresh", "[]");

    let (p, _) = start(parse_request("remove_from_shop 42"));
    let (p, a) = go(p, Event::Connected);
    expect_sql(&a, "DELETE FROM in_shop WHERE rfid=\"42\"");
    let (p, a) = go(p, Event::Executed);
    expect_sql(&a, "INSERT INTO timestamps (rfid, is_checking_in, time_stamp) VALUES (\"42\", FALSE, CURRENT_TIMESTAMP())");
    let (p, a) = go(p, Event::Executed);
    assert!(matches!(a, Action::FetchInShop { .. }));
    let (p, a) = go(p, Event::InShop { rows: in_shop_rows() });
    expect_reply(&p, &a, "in_shop_refresh", IN_SHOP_JSON);
}

#[test]
fn scan_of_unknown_or_ambiguous_card() {
    let (p, _) = start(parse_request("rfid_scan 42"));
    let (p, a) = go(p, Event::Connected);
    expect_sql(&a, "SELECT * FROM people WHERE rfid=\"42\"");
    let (p, a) = go(p, Event::People { rows: vec![] });
    expect_reply(&p, &a, "unknown_person", "");

    let (p, _) = start(parse_request("rfid_scan 42"));
    let (p, _) = go(p, Event::Connected);
    let (p, a) = go(p, Event::People { rows: vec![person("42"), person("42")] });
    expect_reply(&p, &a, "too_many_people_with_id", "");
}

fn scan_with_counts(counts: Vec<i32>) -> Vec<String> {
    let (p, _) = start(parse_request("rfid_scan 42"));
    let (p, _) = go(p, Event::Connected);
    let (p, a) = go(p, Event::People { rows: vec![person("42")] });
    expect_sql(&a, "SELECT COUNT(*) as count FROM in_shop WHERE rfid=\"42\"");
    let (p, a1) = go(p, Event::Counts { counts });
    let (p, a2) = go(p, Event::Executed);
    let (p, a3) = go(p, Event::Executed);
    match &a3 {
        Action::Broadcast { message } => {
            assert_eq!(message.msgtype, "rfid_success");
            assert_eq!(message.message, "");
        }
        _ => panic!("expected the scan announcement"),
    }
    let (p, a4) = go(p, Event::Sent);
    assert!(matches!(a4, Action::FetchInShop { .. }));
    let (p, a5) = go(p, Event::InShop { rows: in_shop_rows() });
    expect_reply(&p, &a5, "in_shop_refresh", IN_SHOP_JSON);
    let mut sql = Vec::new();
    for a in [a1, a2] {
        match a {
            Action::Execute { sql: s } => sql.push(s),
            _ => panic!("expected a statement"),
        }
    }
    sql
}

#[test]
fn scan_toggles_presence() {
    let check_in = vec![
        "INSERT INTO in_shop (rfid, time_in) VALUES (\"42\", current_timestamp())".to_string(),
        "INSERT INTO timestamps (rfid, is_checking_in, time_stamp) SELECT rfid, TRUE, time_in FROM in_shop WHERE rfid=\"42\"".to_string(),
    ];
    let check_out = vec![
        "DELETE FROM in_shop WHERE rfid=\"42\"".to_string(),
        "INSERT INTO timestamps (rfid, is_checking_in, time_stamp) VALUES (\"42\", FALSE, CURRENT_TIMESTAMP())".to_string(),
    ];
    assert_eq!(scan_with_counts(vec![0]), check_in);
    assert_eq!(scan_with_counts(vec![]), check_in);
    assert_eq!(scan_with_counts(vec![1]), check_out);
    assert_eq!(scan_with_counts(vec![3, 0]), check_in);
    assert_eq!(scan_with_counts(vec![0, 2]), check_out);
}

#[test]
fn enrollment_waits_for_a_free_card() {
    let (p, a) = start(parse_request("new_person Ada Lovelace lovela true"));
    assert!(matches!(a, Action::Connect));
    let (p, a) = go(p, Event::Connected);
    assert!(matches!(a, Action::ReadCard));
    let (p, a) = go(p, Event::CardError);
    assert!(matches!(a, Action::ReadCard));
    let (p, a) = go(p, Event::Card { data: card(1, true, 5) });
    assert!(matches!(a, Action::ReadCard));
    let (p, a) = go(p, Event::Card { data: card(0, false, 5) });
    assert!(matches!(a, Action::ReadCard));
    let (p, a) = go(p, Event::Card { data: card(0, true, 5) });
    expect_sql(&a, "SELECT * FROM people WHERE rfid=\"5\"");
    let (p, a) = go(p, Event::People { rows: vec![person("5")] });
    assert!(matches!(a, Action::ReadCard));
    let (p, a) = go(p, Event::Card { data: card(0, true, 987654321) });
    expect_sql(&a, "SELECT * FROM people WHERE rfid=\"987654321\"");
    let (p, a) = go(p, Event::People { rows: vec![] });
    expect_sql(&a, "INSERT INTO people (rcsid, firstname, lastname, rfid, is_good) VALUES (\"lovela\", \"Ada\", \"Lovelace\", \"987654321\", true)");
    let (p, a) = go(p, Event::Executed);
    assert!(matches!(a, Action::RecordLastScanned { card: 987654321 }));
    let (p, a) = go(p, Event::Recorded);
    expect_reply(&p, &a, "null", "");
}

#[test]
fn enrolled_card_is_found_by_its_scan() {
    let id: u64 = 4242;
    let (p, _) = start(parse_request("new_person A B c false"));
    let (p, _) = go(p, Event::Connected);
    let (_, enroll_lookup) = go(p, Event::Card { data: card(0, true, id) });
    let scan = rm_login::request::scan_request_text(id);
    let (p, _) = start(parse_request(&scan));
    let (_, scan_lookup) = go(p, Event::Connected);
    let (mut a, mut b) = (String::new(), String::new());
    if let Action::FetchPeople { sql } = enroll_lookup {
        a = sql;
    }
    if let Action::FetchPeople { sql } = scan_lookup {
        b = sql;
    }
    assert_eq!(a, b);
    assert_eq!(a, "SELECT * FROM people WHERE rfid=\"4242\"");
}

#[test]
fn mismatched_events_are_refused() {
    let (p, _) = start(parse_request("get_in_shop"));
    assert!(!p.accepts(&Event::Executed));
    assert!(p.accepts(&Event::Connected));
    assert!(!Phase::Finished.accepts(&Event::Sent));
}
