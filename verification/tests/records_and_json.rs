use rm_login::data_types::{
    JoinedPersonInShop, JoinedTimestamp, Login, Settings, WebsocketOutgoingMessage,
};
use rm_login::json::{json_quote, people_in_shop_to_json, timestamps_to_json};
use rm_login::queries::{
    add_person_query, check_in_query, check_out_query, count_in_shop_query, in_shop_query,
    log_check_in_query, log_check_out_query, person_by_card_query, timestamps_query,
};

#[test]
fn credentials_in_order() {
    let settings = Settings {
        login: Login {
            user: "shop".to_string(),
            pass: "SECRET-REDACTED".to_string(),
            database: "rm".to_string(),
        },
    };
    let (user, pass, database) = settings.credentials();
    assert_eq!(user, "shop");
    assert_eq!(pass, "SECRET-REDACTED");
    assert_eq!(database, "rm");
}

#[test]
fn timestamps_join_date_and_time() {
    let p = JoinedPersonInShop::new(
        "lovela".to_string(),
        "Ada".to_string(),
        "Lovelace".to_string(),
        "2024-03-01",
        "13:05:09",
    );
    assert_eq!(p.timestamp, "2024-03-01 13:05:09");
    assert_eq!(p.rcsid, "lovela");
    let t = JoinedTimestamp::new(
        "lovela".to_string(),
        "Ada".to_string(),
        "Lovelace".to_string(),
        false,
        "2024-03-01",
        "13:05:09.250",
    );
    assert_eq!(t.timestamp, "2024-03-01 13:05:09.250");
    assert!(!t.entering);
}

#[test]
fn json_quote_escapes_like_serde_json() {
    assert_eq!(json_quote("plain"), "\"plain\"");
    assert_eq!(json_quote("a\"b\\c"), "\"a\\\"b\\\\c\"");
    assert_eq!(json_quote("\n\t\r\u{8}\u{c}\u{1}\u{1f}"), "\"\\n\\t\\r\\b\\f\\u0001\\u001f\"");
    assert_eq!(json_quote("é/\u{7f}"), "\"é/\u{7f}\"");
    for s in ["", "x", "\"", "\u{0}\u{1b}", "tab\there", "ünïcödé ✓"] {
        assert_eq!(json_quote(s), serde_json::to_string(s).unwrap());
    }
}

#[test]
fn outgoing_message_json() {
    let m = WebsocketOutgoingMessage::new("message", "hello world!");
    assert_eq!(m.to_json(), "{\"msgtype\":\"message\",\"message\":\"hello world!\"}");
    let nested = WebsocketOutgoingMessage::new("in_shop_refresh", "[]");
    assert_eq!(nested.to_json(), "{\"msgtype\":\"in_shop_refresh\",\"message\":\"[]\"}");
    let quoted = WebsocketOutgoingMessage::new("x", "[{\"a\":1}]");
    assert_eq!(quoted.to_json(), "{\"msgtype\":\"x\",\"message\":\"[{\\\"a\\\":1}]\"}");
}

#[test]
fn people_in_shop_json_lists() {
    assert_eq!(people_in_shop_to_json(&vec![]), "[]");
    let rows = vec![
        JoinedPersonInShop::new(
            "lovela".to_string(),
            "Ada".to_string(),
            "Lovelace".to_string(),
            "2024-03-01",
            "13:05:09",
        ),
        JoinedPersonInShop::new(
            "turina".to_string(),
            "Alan".to_string(),
            "Tu\"ring".to_string(),
            "2024-03-02",
            "08:00:00",
        ),
    ];
    assert_eq!(
        people_in_shop_to_json(&rows),
        "[{\"rcsid\":\"lovela\",\"firstname\":\"Ada\",\"lastname\":\"Lovelace\",\"timestamp\":\"2024-03-01 13:05:09\"},{\"rcsid\":\"turina\",\"firstname\":\"Alan\",\"lastname\":\"Tu\\\"ring\",\"timestamp\":\"2024-03-02 08:00:00\"}]"
    );
}

#[test]
fn timestamps_json_lists() {
    assert_eq!(timestamps_to_json(&vec![]), "[]");
    let rows = vec![
        JoinedTimestamp::new(
            "lovela".to_string(),
            "Ada".to_string(),
            "Lovelace".to_string(),
            true,
            "2024-03-01",
            "13:05:09",
        ),
        JoinedTimestamp::new(
            "lovela".to_string(),
            "Ada".to_string(),
            "Lovelace".to_string(),
            false,
            "2024-03-01",
            "15:00:00",
        ),
    ];
    assert_eq!(
        timestamps_to_json(&rows),
        "[{\"rcsid\":\"lovela\",\"firstname\":\"Ada\",\"lastname\":\"Lovelace\",\"entering\":true,\"timestamp\":\"2024-03-01 13:05:09\"},{\"rcsid\":\"lovela\",\"firstname\":\"Ada\",\"lastname\":\"Lovelace\",\"entering\":false,\"timestamp\":\"2024-03-01 15:00:00\"}]"
    );
}

#[test]
fn sql_texts() {
    assert_eq!(
        in_shop_query(),
        "select people.rcsid, people.firstname, people.lastname, people.rfid, in_shop.time_in from people inner join in_shop on in_shop.rfid=people.rfid"
    );
    assert_eq!(
        timestamps_query(),
        "select people.rcsid, people.firstname, people.lastname, people.rfid, timestamps.is_checking_in, timestamps.time_stamp from people inner join timestamps on timestamps.rfid=people.rfid"
    );
    assert_eq!(
        check_in_query("42"),
        "INSERT INTO in_shop (rfid, time_in) VALUES (\"42\", current_timestamp())"
    );
    assert_eq!(
        log_check_in_query("42"),
        "INSERT INTO timestamps (rfid, is_checking_in, time_stamp) SELECT rfid, TRUE, time_in FROM in_shop WHERE rfid=\"42\""
    );
    assert_eq!(check_out_query("42"), "DELETE FROM in_shop WHERE rfid=\"42\"");
    assert_eq!(
        log_check_out_query("42"),
        "INSERT INTO timestamps (rfid, is_checking_in, time_stamp) VALUES (\"42\", FALSE, CURRENT_TIMESTAMP())"
    );
    assert_eq!(person_by_card_query("42"), "SELECT * FROM people WHERE rfid=\"42\"");
    assert_eq!(
        count_in_shop_query("42"),
        "SELECT COUNT(*) as count FROM in_shop WHERE rfid=\"42\""
    );
    assert_eq!(
        add_person_query("lovela", "Ada", "Lovelace", "42", true),
        "INSERT INTO people (rcsid, firstname, lastname, rfid, is_good) VALUES (\"lovela\", \"Ada\", \"Lovelace\", \"42\", true)"
    );
    assert_eq!(
        add_person_query("x", "y", "z", "7", false),
        "INSERT INTO people (rcsid, firstname, lastname, rfid, is_good) VALUES (\"x\", \"y\", \"z\", \"7\", false)"
    );
}
