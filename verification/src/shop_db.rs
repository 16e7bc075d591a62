//! What the handler's statements do to the shop's tables, as MySQL runs them, and the
//! law that two scans of the same card leave its holder where they were.
//!
//! The model keeps, of each table, what the scan flow reads and writes: the card of
//! each person, the card of each entry of `in_shop`, and the card and direction of
//! each sign-in log entry. It gives the effect of the statements and queries that the
//! handler writes for a card; other texts are not modelled (they change nothing).

use vstd::prelude::*;
use crate::data_types::JoinedPersonInShop;
use crate::handler::{start_model, step_model, ActionView, EventView, PhaseView};
use crate::queries::{
    check_in_sql, check_out_sql, count_in_shop_sql, log_check_in_sql, log_check_out_sql,
    person_by_card_sql,
};
use crate::request::{lemma_scan_text_reads_back, parsed_request, request_complete, RequestView};
use crate::text::space_free;

verus! {

/// The shop's tables, as far as the scan flow reads and writes them.
pub struct ShopTables {
    /// The card of each row of `people`.
    pub people: Seq<Seq<char>>,
    /// The card of each row of `in_shop`.
    pub in_shop: Seq<Seq<char>>,
    /// The card and the direction (`true` for coming in) of each row of `timestamps`.
    pub log: Seq<(Seq<char>, bool)>,
}

/// How many entries of `s` are `r`.
pub open spec fn count_of(s: Seq<Seq<char>>, r: Seq<char>) -> nat
    decreases s.len(),
{
    if s.len() == 0 {
        0
    } else {
        count_of(s.drop_last(), r) + if s.last() == r {
            1nat
        } else {
            0nat
        }
    }
}

/// `s` without its entries equal to `r`, the others in order.
pub open spec fn without(s: Seq<Seq<char>>, r: Seq<char>) -> Seq<Seq<char>>
    decreases s.len(),
{
    if s.len() == 0 {
        s
    } else {
        let w = without(s.drop_last(), r);
        if s.last() == r {
            w
        } else {
            w.push(s.last())
        }
    }
}

/// The card quoted in `sql`, when `sql` is `before`, a card, and `after`.
pub open spec fn quoted_card(sql: Seq<char>, before: Seq<char>, after: Seq<char>) -> Option<
    Seq<char>,
> {
    if sql.len() >= before.len() + after.len() && sql.take(before.len() as int) == before
        && sql.skip(sql.len() - after.len()) == after {
        Some(sql.subrange(before.len() as int, sql.len() - after.len()))
    } else {
        None
    }
}

/// The effect of a statement on the tables: a check-out deletes every `in_shop` row of
/// the card; a check-in inserts one; logging an entry inserts one log row (coming in)
/// for each `in_shop` row of the card; logging an exit inserts one log row (going out).
pub open spec fn run_statement(db: ShopTables, sql: Seq<char>) -> ShopTables {
    match quoted_card(sql, "DELETE FROM in_shop WHERE rfid=\""@, "\""@) {
        Some(r) => ShopTables { in_shop: without(db.in_shop, r), ..db },
        None => match quoted_card(
            sql,
            "INSERT INTO in_shop (rfid, time_in) VALUES (\""@,
            "\", current_timestamp())"@,
        ) {
            Some(r) => ShopTables { in_shop: db.in_shop.push(r), ..db },
            None => match quoted_card(
                sql,
                "INSERT INTO timestamps (rfid, is_checking_in, time_stamp) SELECT rfid, TRUE, time_in FROM in_shop WHERE rfid=\""@,
                "\""@,
            ) {
                Some(r) => ShopTables {
                    log: db.log + Seq::new(count_of(db.in_shop, r), |i: int| (r, true)),
                    ..db
                },
                None => match quoted_card(
                    sql,
                    "INSERT INTO timestamps (rfid, is_checking_in, time_stamp) VALUES (\""@,
                    "\", FALSE, CURRENT_TIMESTAMP())"@,
                ) {
                    Some(r) => ShopTables { log: db.log.push((r, false)), ..db },
                    None => db,
                },
            },
        },
    }
}

/// How many rows the lookup of people by card gives.
pub open spec fn people_found(db: ShopTables, sql: Seq<char>) -> nat {
    match quoted_card(sql, "SELECT * FROM people WHERE rfid=\""@, "\""@) {
        Some(r) => count_of(db.people, r),
        None => 0,
    }
}

/// The `count` column of the count query: one row, the number of `in_shop` rows of the
/// card.
pub open spec fn in_shop_counts(db: ShopTables, sql: Seq<char>) -> Seq<i32> {
    match quoted_card(sql, "SELECT COUNT(*) as count FROM in_shop WHERE rfid=\""@, "\""@) {
        Some(r) => seq![count_of(db.in_shop, r) as i32],
        None => Seq::<i32>::empty(),
    }
}

/// How the server and the database answer an action: statements change the tables,
/// lookups read them, the list of people in the shop is `shown`, and the card reader
/// cannot be read.
pub open spec fn respond(db: ShopTables, action: ActionView, shown: Seq<JoinedPersonInShop>) -> (
    ShopTables,
    EventView,
) {
    match action {
        ActionView::Connect => (db, EventView::Connected),
        ActionView::Execute { sql } => (run_statement(db, sql), EventView::Executed),
        ActionView::FetchPeople { sql } => (db, EventView::People { count: people_found(db, sql) }),
        ActionView::FetchCounts { sql } => (db, EventView::Counts { counts: in_shop_counts(db, sql) }),
        ActionView::FetchInShop { .. } => (db, EventView::InShop { rows: shown }),
        ActionView::FetchTimestamps { .. } => (
            db,
            EventView::Timestamps { rows: Seq::<crate::data_types::JoinedTimestamp>::empty() },
        ),
        ActionView::Broadcast { .. } => (db, EventView::Sent),
        ActionView::ReadCard => (db, EventView::CardError),
        ActionView::RecordLastScanned { .. } => (db, EventView::Recorded),
        ActionView::Reply { .. } => (db, EventView::Sent),
    }
}

/// Runs the handler from `phase` and `action` for at most `fuel` actions: the tables
/// after, and whether the reply was reached.
pub open spec fn drive(
    db: ShopTables,
    phase: PhaseView,
    action: ActionView,
    shown: Seq<JoinedPersonInShop>,
    fuel: nat,
) -> (ShopTables, bool)
    decreases fuel,
{
    if action is Reply {
        (db, true)
    } else if fuel == 0 {
        (db, false)
    } else {
        let (db2, event) = respond(db, action, shown);
        let (phase2, action2) = step_model(phase, event);
        drive(db2, phase2, action2, shown, (fuel - 1) as nat)
    }
}

/// Handles a request against the tables, within sixteen actions (more than any request
/// but an enrollment takes): the tables after, and whether it was answered.
pub open spec fn handle_on(db: ShopTables, request: RequestView, shown: Seq<JoinedPersonInShop>) -> (
    ShopTables,
    bool,
) {
    let (phase, action) = start_model(request);
    drive(db, phase, action, shown, 16)
}

proof fn lemma_count_push(s: Seq<Seq<char>>, x: Seq<char>, r: Seq<char>)
    ensures
        count_of(s.push(x), r) == count_of(s, r) + if x == r {
            1nat
        } else {
            0nat
        },
        without(s.push(x), r) == if x == r {
            without(s, r)
        } else {
            without(s, r).push(x)
        },
{
    assert(s.push(x).drop_last() =~= s);
}

proof fn lemma_without_facts(s: Seq<Seq<char>>, r: Seq<char>)
    ensures
        count_of(without(s, r), r) == 0,
        without(without(s, r), r) == without(s, r),
        without(s, r).len() <= s.len(),
        count_of(s, r) <= s.len(),
        count_of(s, r) == 0 ==> without(s, r) == s,
    decreases s.len(),
{
    if s.len() > 0 {
        let init = s.drop_last();
        lemma_without_facts(init, r);
        assert(init.push(s.last()) =~= s);
        if s.last() != r {
            lemma_count_push(without(init, r), s.last(), r);
        }
    }
}

proof fn lemma_quoted_card(before: Seq<char>, r: Seq<char>, after: Seq<char>)
    ensures
        quoted_card(before + r + after, before, after) == Some(r),
{
    let sql = before + r + after;
    assert(sql.take(before.len() as int) =~= before);
    assert(sql.skip(sql.len() - after.len()) =~= after);
    assert(sql.subrange(before.len() as int, sql.len() - after.len()) =~= r);
}

/// A text whose character at `k` differs from that of `before` does not quote a card
/// between `before` and anything.
proof fn lemma_not_quoted(sql: Seq<char>, before: Seq<char>, after: Seq<char>, k: int)
    requires
        0 <= k < before.len(),
        k < sql.len(),
        sql[k] != before[k],
    ensures
        quoted_card(sql, before, after) is None,
{
    if sql.len() >= before.len() + after.len() {
        assert(sql.take(before.len() as int)[k] == sql[k]);
    }
}

proof fn lemma_statements_read(r: Seq<char>, db: ShopTables)
    ensures
        run_statement(db, check_out_sql(r)) == (ShopTables { in_shop: without(db.in_shop, r), ..db }),
        run_statement(db, check_in_sql(r)) == (ShopTables { in_shop: db.in_shop.push(r), ..db }),
        run_statement(db, log_check_in_sql(r)) == (ShopTables {
            log: db.log + Seq::new(count_of(db.in_shop, r), |i: int| (r, true)),
            ..db
        }),
        run_statement(db, log_check_out_sql(r)) == (ShopTables { log: db.log.push((r, false)), ..db }),
        people_found(db, person_by_card_sql(r)) == count_of(db.people, r),
        in_shop_counts(db, count_in_shop_sql(r)) == seq![count_of(db.in_shop, r) as i32],
{
    let out_b = "DELETE FROM in_shop WHERE rfid=\""@;
    let in_b = "INSERT INTO in_shop (rfid, time_in) VALUES (\""@;
    let login_b = "INSERT INTO timestamps (rfid, is_checking_in, time_stamp) SELECT rfid, TRUE, time_in FROM in_shop WHERE rfid=\""@;
    let logout_b = "INSERT INTO timestamps (rfid, is_checking_in, time_stamp) VALUES (\""@;
    reveal_strlit("DELETE FROM in_shop WHERE rfid=\"");
    reveal_strlit("INSERT INTO in_shop (rfid, time_in) VALUES (\"");
    reveal_strlit("INSERT INTO timestamps (rfid, is_checking_in, time_stamp) SELECT rfid, TRUE, time_in FROM in_shop WHERE rfid=\"");
    reveal_strlit("INSERT INTO timestamps (rfid, is_checking_in, time_stamp) VALUES (\"");
    lemma_quoted_card(out_b, r, "\""@);
    lemma_quoted_card(in_b, r, "\", current_timestamp())"@);
    lemma_quoted_card(login_b, r, "\""@);
    lemma_quoted_card(logout_b, r, "\", FALSE, CURRENT_TIMESTAMP())"@);
    lemma_quoted_card("SELECT * FROM people WHERE rfid=\""@, r, "\""@);
    lemma_quoted_card("SELECT COUNT(*) as count FROM in_shop WHERE rfid=\""@, r, "\""@);
    // A check-in is no check-out.
    assert(check_in_sql(r)[0] == 'I');
    lemma_not_quoted(check_in_sql(r), out_b, "\""@, 0);
    // Logging an entry is neither a check-out nor a check-in.
    assert(log_check_in_sql(r)[0] == 'I');
    assert(log_check_in_sql(r)[12] == 't');
    lemma_not_quoted(log_check_in_sql(r), out_b, "\""@, 0);
    lemma_not_quoted(log_check_in_sql(r), in_b, "\", current_timestamp())"@, 12);
    // Logging an exit is none of the three before.
    assert(log_check_out_sql(r)[0] == 'I');
    assert(log_check_out_sql(r)[12] == 't');
    assert(log_check_out_sql(r)[58] == 'V');
    lemma_not_quoted(log_check_out_sql(r), out_b, "\""@, 0);
    lemma_not_quoted(log_check_out_sql(r), in_b, "\", current_timestamp())"@, 12);
    lemma_not_quoted(log_check_out_sql(r), login_b, "\""@, 58);
}

proof fn lemma_drive_unfold(
    db: ShopTables,
    phase: PhaseView,
    action: ActionView,
    shown: Seq<JoinedPersonInShop>,
    fuel: nat,
)
    requires
        !(action is Reply),
        fuel > 0,
    ensures
        drive(db, phase, action, shown, fuel) == drive(
            respond(db, action, shown).0,
            step_model(phase, respond(db, action, shown).1).0,
            step_model(phase, respond(db, action, shown).1).1,
            shown,
            (fuel - 1) as nat,
        ),
{
}

/// The end of a scan: from the statement that logs the change, the announcement, the
/// list, and the reply; the log statement's effect is the only change.
proof fn lemma_scan_tail(
    db2: ShopTables,
    log_sql: Seq<char>,
    shown: Seq<JoinedPersonInShop>,
)
    ensures
        drive(
            db2,
            PhaseView::Logging { scanned: true },
            ActionView::Execute { sql: log_sql },
            shown,
            12,
        ) == (run_statement(db2, log_sql), true),
{
    let db3 = run_statement(db2, log_sql);
    lemma_drive_unfold(db2, PhaseView::Logging { scanned: true }, ActionView::Execute { sql: log_sql }, shown, 12);
    let a_sent = ActionView::Broadcast {
        message: crate::data_types::OutgoingView { msgtype: "rfid_success"@, message: ""@ },
    };
    assert(step_model(PhaseView::Logging { scanned: true }, EventView::Executed) == (
        PhaseView::Announcing,
        a_sent,
    ));
    lemma_drive_unfold(db3, PhaseView::Announcing, a_sent, shown, 11);
    let a_in = ActionView::FetchInShop { sql: crate::queries::in_shop_sql() };
    lemma_drive_unfold(db3, PhaseView::AwaitingInShop, a_in, shown, 10);
}

/// One scan of a card held by exactly one person: a holder who is out is checked in
/// and an entry is logged; a holder who is in is checked out (every `in_shop` row of
/// the card goes) and an exit is logged. The request is answered; nothing else changes.
#[verifier::rlimit(40)]
pub proof fn lemma_scan_once(db: ShopTables, r: Seq<char>, shown: Seq<JoinedPersonInShop>)
    requires
        count_of(db.people, r) == 1,
        db.in_shop.len() < 0x7fff_ffff,
    ensures
        handle_on(db, RequestView::RfidScan { rfid: r }, shown) == if count_of(db.in_shop, r)
            == 0 {
            (ShopTables { in_shop: db.in_shop.push(r), log: db.log.push((r, true)), ..db }, true)
        } else {
            (ShopTables { in_shop: without(db.in_shop, r), log: db.log.push((r, false)), ..db }, true)
        },
{
    lemma_statements_read(r, db);
    lemma_without_facts(db.in_shop, r);
    let n = count_of(db.in_shop, r);
    assert((n as i32 == 0) == (n == 0));
    let request = RequestView::RfidScan { rfid: r };
    let p0 = PhaseView::Connecting { request };
    assert(start_model(request) == (p0, ActionView::Connect));
    lemma_drive_unfold(db, p0, ActionView::Connect, shown, 16);
    let p1 = PhaseView::AwaitingPerson { rfid: r };
    let a1 = ActionView::FetchPeople { sql: person_by_card_sql(r) };
    assert(step_model(p0, EventView::Connected) == (p1, a1));
    lemma_drive_unfold(db, p1, a1, shown, 15);
    let p2 = PhaseView::AwaitingCount { rfid: r };
    let a2 = ActionView::FetchCounts { sql: count_in_shop_sql(r) };
    assert(respond(db, a1, shown).1 == EventView::People { count: 1 });
    assert(step_model(p1, EventView::People { count: 1 }) == (p2, a2));
    lemma_drive_unfold(db, p2, a2, shown, 14);
    let counts = seq![n as i32];
    assert(respond(db, a2, shown).1 == EventView::Counts { counts });
    assert(crate::handler::last_count(counts) == n as i32);
    if n == 0 {
        let p3 = PhaseView::CheckingIn { rfid: r, scanned: true };
        let a3 = ActionView::Execute { sql: check_in_sql(r) };
        assert(step_model(p2, EventView::Counts { counts }) == (p3, a3));
        let db2 = ShopTables { in_shop: db.in_shop.push(r), ..db };
        lemma_drive_unfold(db, p3, a3, shown, 13);
        assert(respond(db, a3, shown).0 == db2);
        let a4 = ActionView::Execute { sql: log_check_in_sql(r) };
        assert(step_model(p3, EventView::Executed) == (PhaseView::Logging { scanned: true }, a4));
        lemma_scan_tail(db2, log_check_in_sql(r), shown);
        lemma_statements_read(r, db2);
        lemma_count_push(db.in_shop, r, r);
        assert(Seq::new(1nat, |i: int| (r, true)) =~= seq![(r, true)]);
        assert(db.log + Seq::new(1nat, |i: int| (r, true)) =~= db.log.push((r, true)));
    } else {
        let p3 = PhaseView::CheckingOut { rfid: r, scanned: true };
        let a3 = ActionView::Execute { sql: check_out_sql(r) };
        assert(step_model(p2, EventView::Counts { counts }) == (p3, a3));
        let db2 = ShopTables { in_shop: without(db.in_shop, r), ..db };
        lemma_drive_unfold(db, p3, a3, shown, 13);
        assert(respond(db, a3, shown).0 == db2);
        let a4 = ActionView::Execute { sql: log_check_out_sql(r) };
        assert(step_model(p3, EventView::Executed) == (PhaseView::Logging { scanned: true }, a4));
        lemma_scan_tail(db2, log_check_out_sql(r), shown);
        lemma_statements_read(r, db2);
    }
}

/// Two scan requests in a row (`rfid_scan` and a card without spaces) of a card held
/// by exactly one person, with no other change of the tables between them, leave the holder in the shop exactly when they were in
/// before, leave the other `in_shop` rows and the people as they were, and log two
/// entries: first the opposite of where the holder was, then a return to it.
pub proof fn lemma_two_scans_restore_presence(
    db: ShopTables,
    r: Seq<char>,
    shown: Seq<JoinedPersonInShop>,
)
    requires
        space_free(r),
        count_of(db.people, r) == 1,
        db.in_shop.len() < 0x7fff_fffe,
    ensures
        ({
            let text = "rfid_scan "@ + r;
            let was_in = count_of(db.in_shop, r) > 0;
            let (db1, answered1) = handle_on(db, parsed_request(text), shown);
            let (db2, answered2) = handle_on(db1, parsed_request(text), shown);
            &&& request_complete(text)
            &&& answered1 && answered2
            &&& db2.people == db.people
            &&& (count_of(db2.in_shop, r) > 0) == was_in
            &&& without(db2.in_shop, r) == without(db.in_shop, r)
            &&& db2.log == db.log + seq![(r, !was_in), (r, was_in)]
        }),
{
    lemma_scan_text_reads_back(r);
    lemma_without_facts(db.in_shop, r);
    lemma_scan_once(db, r, shown);
    let db1 = handle_on(db, RequestView::RfidScan { rfid: r }, shown).0;
    lemma_scan_once(db1, r, shown);
    lemma_count_push(db.in_shop, r, r);
    if count_of(db.in_shop, r) == 0 {
        lemma_count_push(without(db.in_shop, r), r, r);
        lemma_without_facts(db.in_shop.push(r), r);
        lemma_without_facts(without(db.in_shop, r), r);
    } else {
        lemma_without_facts(without(db.in_shop, r), r);
        lemma_count_push(without(db.in_shop, r), r, r);
    }
    let db2 = handle_on(db1, RequestView::RfidScan { rfid: r }, shown).0;
    assert(db2.log =~= db.log + seq![(r, !(count_of(db.in_shop, r) > 0)), (r, count_of(db.in_shop, r) > 0)]);
}

} // verus!
