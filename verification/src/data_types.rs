//! The records that the server reads from its settings, from the database and from
//! the card reader, and the message that it sends to every browser.

use vstd::prelude::*;

verus! {

/// Database credentials.
#[derive(Clone)]
pub struct Login {
    pub user: String,
    pub pass: String,
    pub database: String,
}

/// The server's settings, read from its settings file.
#[derive(Clone)]
pub struct Settings {
    pub login: Login,
}

impl Settings {
    /// The user name, password and database name to connect with, in that order.
    pub fn credentials(&self) -> (c: (String, String, String))
        ensures
            c.0@ == self.login.user@,
            c.1@ == self.login.pass@,
            c.2@ == self.login.database@,
    {
        let user = self.login.user.clone();
        let pass = self.login.pass.clone();
        let database = self.login.database.clone();
        (user, pass, database)
    }
}

/// A message sent to every connected browser: its kind and its payload.
pub struct WebsocketOutgoingMessage {
    pub msgtype: String,
    pub message: String,
}

/// The abstract value of a [`WebsocketOutgoingMessage`].
pub struct OutgoingView {
    pub msgtype: Seq<char>,
    pub message: Seq<char>,
}

impl View for WebsocketOutgoingMessage {
    type V = OutgoingView;

    open spec fn view(&self) -> OutgoingView {
        OutgoingView { msgtype: self.msgtype@, message: self.message@ }
    }
}

impl WebsocketOutgoingMessage {
    /// The message with the given kind and payload.
    pub fn new(msgtype: &str, message: &str) -> (m: WebsocketOutgoingMessage)
        ensures
            m.msgtype@ == msgtype@,
            m.message@ == message@,
    {
        WebsocketOutgoingMessage {
            msgtype: String::from_str(msgtype),
            message: String::from_str(message),
        }
    }
}

/// A row of the `people` table.
#[derive(Clone)]
pub struct PersonRow {
    pub rcsid: String,
    pub firstname: String,
    pub lastname: String,
    pub rfid: String,
    pub is_good: bool,
}

/// A person who is in the shop, with the time at which they came in.
#[derive(Clone)]
pub struct JoinedPersonInShop {
    pub rcsid: String,
    pub firstname: String,
    pub lastname: String,
    pub timestamp: String,
}

/// The timestamp text for a date and a time of day: the two joined by one space.
pub open spec fn timestamp_text(date: Seq<char>, time: Seq<char>) -> Seq<char> {
    date + seq![' '] + time
}

/// A timestamp text is the date, one space, and the time of day, in that order.
pub proof fn lemma_timestamp_text_parts(date: Seq<char>, time: Seq<char>)
    ensures
        timestamp_text(date, time).len() == date.len() + 1 + time.len(),
        timestamp_text(date, time).take(date.len() as int) == date,
        timestamp_text(date, time)[date.len() as int] == ' ',
        timestamp_text(date, time).skip(date.len() + 1int) == time,
{
    assert(timestamp_text(date, time).take(date.len() as int) =~= date);
    assert(timestamp_text(date, time).skip(date.len() + 1int) =~= time);
}

impl JoinedPersonInShop {
    /// The record of a person in the shop since the given date and time of day.
    pub fn new(rcsid: String, firstname: String, lastname: String, date: &str, time: &str) -> (p:
        JoinedPersonInShop)
        ensures
            p.rcsid == rcsid,
            p.firstname == firstname,
            p.lastname == lastname,
            p.timestamp@ == timestamp_text(date@, time@),
    {
        let timestamp = join_timestamp(date, time);
        JoinedPersonInShop { rcsid, firstname, lastname, timestamp }
    }
}

/// One entry of the sign-in log: who, whether they came in or went out, and when.
#[derive(Clone)]
pub struct JoinedTimestamp {
    pub rcsid: String,
    pub firstname: String,
    pub lastname: String,
    pub entering: bool,
    pub timestamp: String,
}

impl JoinedTimestamp {
    /// The log entry of a person entering (or leaving) at the given date and time of day.
    pub fn new(
        rcsid: String,
        firstname: String,
        lastname: String,
        entering: bool,
        date: &str,
        time: &str,
    ) -> (t: JoinedTimestamp)
        ensures
            t.rcsid == rcsid,
            t.firstname == firstname,
            t.lastname == lastname,
            t.entering == entering,
            t.timestamp@ == timestamp_text(date@, time@),
    {
        let timestamp = join_timestamp(date, time);
        JoinedTimestamp { rcsid, firstname, lastname, entering, timestamp }
    }
}

fn join_timestamp(date: &str, time: &str) -> (t: String)
    ensures
        t@ == timestamp_text(date@, time@),
{
    let mut t = String::from_str(date);
    t.append(" ");
    t.append(time);
    proof {
        reveal_strlit(" ");
    }
    assert(t@ =~= timestamp_text(date@, time@));
    t
}

} // verus!
