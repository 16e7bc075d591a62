//! The SQL texts that the server runs. Card ids and names are written into the
//! texts between double quotes, as they were received.

use vstd::prelude::*;

verus! {

/// The people who are in the shop, with the time at which they came in.
pub open spec fn in_shop_sql() -> Seq<char> {
    "select people.rcsid, people.firstname, people.lastname, people.rfid, in_shop.time_in from people inner join in_shop on in_shop.rfid=people.rfid"@
}

/// The whole sign-in log, with the people it names.
pub open spec fn timestamps_sql() -> Seq<char> {
    "select people.rcsid, people.firstname, people.lastname, people.rfid, timestamps.is_checking_in, timestamps.time_stamp from people inner join timestamps on timestamps.rfid=people.rfid"@
}

/// Marks the holder of card `rfid` as in the shop since now.
pub open spec fn check_in_sql(rfid: Seq<char>) -> Seq<char> {
    "INSERT INTO in_shop (rfid, time_in) VALUES (\""@ + rfid + "\", current_timestamp())"@
}

/// Logs that the holder of card `rfid` came in, at the time recorded in `in_shop`.
pub open spec fn log_check_in_sql(rfid: Seq<char>) -> Seq<char> {
    "INSERT INTO timestamps (rfid, is_checking_in, time_stamp) SELECT rfid, TRUE, time_in FROM in_shop WHERE rfid=\""@
        + rfid + "\""@
}

/// Marks the holder of card `rfid` as no longer in the shop.
pub open spec fn check_out_sql(rfid: Seq<char>) -> Seq<char> {
    "DELETE FROM in_shop WHERE rfid=\""@ + rfid + "\""@
}

/// Logs that the holder of card `rfid` went out, now.
pub open spec fn log_check_out_sql(rfid: Seq<char>) -> Seq<char> {
    "INSERT INTO timestamps (rfid, is_checking_in, time_stamp) VALUES (\""@ + rfid
        + "\", FALSE, CURRENT_TIMESTAMP())"@
}

/// The people whose card is `rfid`.
pub open spec fn person_by_card_sql(rfid: Seq<char>) -> Seq<char> {
    "SELECT * FROM people WHERE rfid=\""@ + rfid + "\""@
}

/// How many times the holder of card `rfid` is in the shop, as the column `count`.
pub open spec fn count_in_shop_sql(rfid: Seq<char>) -> Seq<char> {
    "SELECT COUNT(*) as count FROM in_shop WHERE rfid=\""@ + rfid + "\""@
}

/// Registers a person with card `rfid`.
pub open spec fn add_person_sql(
    rcsid: Seq<char>,
    firstname: Seq<char>,
    lastname: Seq<char>,
    rfid: Seq<char>,
    is_good: bool,
) -> Seq<char> {
    "INSERT INTO people (rcsid, firstname, lastname, rfid, is_good) VALUES (\""@ + rcsid
        + "\", \""@ + firstname + "\", \""@ + lastname + "\", \""@ + rfid + "\", "@ + (if is_good {
        "true"@
    } else {
        "false"@
    }) + ")"@
}

/// The text of a query whose card id is quoted between `before` and `after`.
fn quoted_query(before: &str, rfid: &str, after: &str) -> (q: String)
    ensures
        q@ == before@ + rfid@ + after@,
{
    let mut q = String::from_str(before);
    q.append(rfid);
    q.append(after);
    q
}

/// See [`in_shop_sql`].
pub fn in_shop_query() -> (q: String)
    ensures
        q@ == in_shop_sql(),
{
    String::from_str(
        "select people.rcsid, people.firstname, people.lastname, people.rfid, in_shop.time_in from people inner join in_shop on in_shop.rfid=people.rfid",
    )
}

/// See [`timestamps_sql`].
pub fn timestamps_query() -> (q: String)
    ensures
        q@ == timestamps_sql(),
{
    String::from_str(
        "select people.rcsid, people.firstname, people.lastname, people.rfid, timestamps.is_checking_in, timestamps.time_stamp from people inner join timestamps on timestamps.rfid=people.rfid",
    )
}

/// See [`check_in_sql`].
pub fn check_in_query(rfid: &str) -> (q: String)
    ensures
        q@ == check_in_sql(rfid@),
{
    quoted_query("INSERT INTO in_shop (rfid, time_in) VALUES (\"", rfid, "\", current_timestamp())")
}

/// See [`log_check_in_sql`].
pub fn log_check_in_query(rfid: &str) -> (q: String)
    ensures
        q@ == log_check_in_sql(rfid@),
{
    quoted_query(
        "INSERT INTO timestamps (rfid, is_checking_in, time_stamp) SELECT rfid, TRUE, time_in FROM in_shop WHERE rfid=\"",
        rfid,
        "\"",
    )
}

/// See [`check_out_sql`].
pub fn check_out_query(rfid: &str) -> (q: String)
    ensures
        q@ == check_out_sql(rfid@),
{
    quoted_query("DELETE FROM in_shop WHERE rfid=\"", rfid, "\"")
}

/// See [`log_check_out_sql`].
pub fn log_check_out_query(rfid: &str) -> (q: String)
    ensures
        q@ == log_check_out_sql(rfid@),
{
    quoted_query(
        "INSERT INTO timestamps (rfid, is_checking_in, time_stamp) VALUES (\"",
        rfid,
        "\", FALSE, CURRENT_TIMESTAMP())",
    )
}

/// See [`person_by_card_sql`].
pub fn person_by_card_query(rfid: &str) -> (q: String)
    ensures
        q@ == person_by_card_sql(rfid@),
{
    quoted_query("SELECT * FROM people WHERE rfid=\"", rfid, "\"")
}

/// See [`count_in_shop_sql`].
pub fn count_in_shop_query(rfid: &str) -> (q: String)
    ensures
        q@ == count_in_shop_sql(rfid@),
{
    quoted_query("SELECT COUNT(*) as count FROM in_shop WHERE rfid=\"", rfid, "\"")
}

/// See [`add_person_sql`].
pub fn add_person_query(
    rcsid: &str,
    firstname: &str,
    lastname: &str,
    rfid: &str,
    is_good: bool,
) -> (q: String)
    ensures
        q@ == add_person_sql(rcsid@, firstname@, lastname@, rfid@, is_good),
{
    let mut q = String::from_str(
        "INSERT INTO people (rcsid, firstname, lastname, rfid, is_good) VALUES (\"",
    );
    q.append(rcsid);
    q.append("\", \"");
    q.append(firstname);
    q.append("\", \"");
    q.append(lastname);
    q.append("\", \"");
    q.append(rfid);
    q.append("\", ");
    if is_good {
        q.append("true");
    } else {
        q.append("false");
    }
    q.append(")");
    q
}

} // verus!
