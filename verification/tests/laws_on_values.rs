use rm_login::data_types::{PersonRow, WebsocketOutgoingMessage};
use rm_login::handler::{start, step, Action, Event};
use rm_login::reader::ReaderData;
use rm_login::request::parse_request;

#[test]
fn message_json_reads_back() {
    for (t, m) in [
        ("message", "hello world!"),
        ("in_shop_refresh", "[{\"rcsid\":\"a\\\"b\"}]"),
        ("x\"y", "line\nbreak\ttab\u{1}\u{7f}é\\"),
        ("", ""),
    ] {
        let text = WebsocketOutgoingMessage::new(t, m).to_json();
        let v: serde_json::Value = serde_json::from_str(&text).unwrap();
        assert_eq!(v["msgtype"].as_str().unwrap(), t);
        assert_eq!(v["message"].as_str().unwrap(), m);
        assert_eq!(v.as_object().unwrap().len(), 2);
    }
    let a = WebsocketOutgoingMessage::new("a\"", "b").to_json();
    let b = WebsocketOutgoingMessage::new("a", "\"b").to_json();
    assert_ne!(a, b);
}

#[test]
fn reply_bytes_give_the_report() {
    let reply = [
        0x80, 0x06, 0x00, 0x00, 0x00, 0x00, 0x07, 0x00, 0x00, 0x00, 0x04, 0x03, 0x02, 0x01, 0x90,
        0x00,
    ];
    let d = ReaderData::from_reply(&reply).unwrap();
    assert_eq!(d.message_type, 0x80);
    assert_eq!(d.length, 6);
    assert_eq!(d.seq, 7);
    assert_eq!(d.status, 0);
    assert_eq!(d.id, 0x01020304);
    assert_eq!(d.adpu_status, 0x9000);
    assert!(d.valid);

    let no_card = [0x80, 0, 0, 0, 0, 0, 1, 0x42, 0xfe, 0];
    let d = ReaderData::from_reply(&no_card).unwrap();
    assert_eq!(d.status, 0x42);
    assert_eq!(d.error, 0xfe);
    assert!(!d.valid);
    assert_eq!(d.id, 0);
    assert_eq!(d.adpu_status, 0);

    let long_uid = [
        0x80, 0x0c, 0x01, 0, 0, 0, 0, 0, 0, 0, 1, 2, 3, 4, 5, 6, 7, 8, 9, 10, 0x63, 0x00,
    ];
    let d = ReaderData::from_reply(&long_uid).unwrap();
    assert_eq!(d.length, 0x10c);
    assert_eq!(d.id, 0x0807060504030201);
    assert_eq!(d.adpu_status, 0x6300);
    assert!(!d.valid);

    assert!(ReaderData::from_reply(&[0x80, 0, 0]).is_none());
}

struct Tables {
    people: Vec<String>,
    in_shop: Vec<String>,
    log: Vec<(String, bool)>,
}

/// Runs a scan request against an in-memory version of the tables.
fn scan(db: &mut Tables, card: &str) {
    let (mut phase, mut action) = start(parse_request(&format!("rfid_scan {}", card)));
    loop {
        let event = match action {
            Action::Connect => Event::Connected,
            Action::FetchPeople { .. } => Event::People {
                rows: db
                    .people
                    .iter()
                    .filter(|c| c.as_str() == card)
                    .map(|c| PersonRow {
                        rcsid: "r".to_string(),
                        firstname: "f".to_string(),
                        lastname: "l".to_string(),
                        rfid: c.clone(),
                        is_good: true,
                    })
                    .collect(),
            },
            Action::FetchCounts { .. } => Event::Counts {
                counts: vec![db.in_shop.iter().filter(|c| c.as_str() == card).count() as i32],
            },
            Action::Execute { sql } => {
                if sql.starts_with("DELETE FROM in_shop") {
                    db.in_shop.retain(|c| c != card);
                } else if sql.starts_with("INSERT INTO in_shop") {
                    db.in_shop.push(card.to_string());
                } else if sql.contains("TRUE") {
                    let n = db.in_shop.iter().filter(|c| c.as_str() == card).count();
                    for _ in 0..n {
                        db.log.push((card.to_string(), true));
                    }
                } else {
                    db.log.push((card.to_string(), false));
                }
                Event::Executed
            }
            Action::Broadcast { .. } => Event::Sent,
            Action::FetchInShop { .. } => Event::InShop { rows: vec![] },
            Action::Reply { .. } => return,
            _ => panic!("no such action in a scan"),
        };
        let (p, a) = step(phase, event);
        phase = p;
        action = a;
    }
}

#[test]
fn two_scans_restore_presence() {
    for was_in in [false, true] {
        let mut db = Tables {
            people: vec!["11".to_string(), "42".to_string()],
            in_shop: if was_in { vec!["11".to_string(), "42".to_string()] } else { vec!["11".to_string()] },
            log: vec![],
        };
        scan(&mut db, "42");
        assert_eq!(db.in_shop.contains(&"42".to_string()), !was_in);
        scan(&mut db, "42");
        assert_eq!(db.in_shop.contains(&"42".to_string()), was_in);
        assert_eq!(db.in_shop.iter().filter(|c| c.as_str() != "42").count(), 1);
        assert_eq!(db.log, vec![("42".to_string(), !was_in), ("42".to_string(), was_in)]);
    }
}
