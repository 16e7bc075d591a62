//! The decisions of the request handler. Handling a request alternates work that
//! only the server can do (connecting to the database, running SQL, reading the card
//! reader, sending to the browsers) with decisions on what came back. The decisions
//! stand here as a state machine: [`start`] turns a request into a first action, and
//! [`step`] turns the current phase and the outcome of the last action into the next
//! phase and action. Every request ends with one [`Action::Reply`], whose message goes
//! to every browser.

use vstd::prelude::*;
use crate::data_types::{
    JoinedPersonInShop, JoinedTimestamp, OutgoingView, PersonRow, WebsocketOutgoingMessage,
};
use crate::json::{people_in_shop_json, people_in_shop_to_json, timestamps_json, timestamps_to_json};
use crate::queries::{
    add_person_query, add_person_sql, check_in_query, check_in_sql, check_out_query, check_out_sql,
    count_in_shop_query, count_in_shop_sql, in_shop_query, in_shop_sql, log_check_in_query,
    log_check_in_sql, log_check_out_query, log_check_out_sql, person_by_card_query,
    person_by_card_sql, timestamps_query, timestamps_sql,
};
use crate::reader::ReaderData;
use crate::request::{
    lemma_scan_request_reads_back, parsed_request, scan_request, Enrollment, EnrollmentView,
    Request, RequestView,
};
use crate::text::{decimal, decimal_text, lemma_split_nonempty, split_on_space};
use crate::request::request_complete;

verus! {

/// Where the handling of a request stands: what the last action was, and what the
/// handler keeps for the decisions to come.
pub enum Phase {
    /// The database connection is being opened for `request`.
    Connecting { request: Request },
    /// The people in the shop are being fetched, to be sent as the reply.
    AwaitingInShop,
    /// The sign-in log is being fetched, to be sent as the reply.
    AwaitingTimestamps,
    /// The holder of card `rfid` is being marked as in the shop; `scanned` tells
    /// whether the request was a card scan.
    CheckingIn { rfid: String, scanned: bool },
    /// The holder of card `rfid` is being marked as out of the shop.
    CheckingOut { rfid: String, scanned: bool },
    /// The sign-in log entry is being written.
    Logging { scanned: bool },
    /// The browsers are being told that a scan succeeded.
    Announcing,
    /// The people with card `rfid` are being looked up, for a scan.
    AwaitingPerson { rfid: String },
    /// Whether the holder of card `rfid` is in the shop is being looked up.
    AwaitingCount { rfid: String },
    /// The card reader is being read, to enroll `person`.
    AwaitingCard { person: Enrollment },
    /// The people with the card `card` that was read are being looked up.
    AwaitingCardOwner { person: Enrollment, card: u64 },
    /// The person is being registered with card `card`.
    Enrolling { card: u64 },
    /// The card just enrolled is being recorded as the last one scanned.
    RecordingCard,
    /// The reply was sent.
    Finished,
}

/// The abstract value of a [`Phase`].
pub enum PhaseView {
    Connecting { request: RequestView },
    AwaitingInShop,
    AwaitingTimestamps,
    CheckingIn { rfid: Seq<char>, scanned: bool },
    CheckingOut { rfid: Seq<char>, scanned: bool },
    Logging { scanned: bool },
    Announcing,
    AwaitingPerson { rfid: Seq<char> },
    AwaitingCount { rfid: Seq<char> },
    AwaitingCard { person: EnrollmentView },
    AwaitingCardOwner { person: EnrollmentView, card: u64 },
    Enrolling { card: u64 },
    RecordingCard,
    Finished,
}

impl View for Phase {
    type V = PhaseView;

    open spec fn view(&self) -> PhaseView {
        match self {
            Phase::Connecting { request } => PhaseView::Connecting { request: request@ },
            Phase::AwaitingInShop => PhaseView::AwaitingInShop,
            Phase::AwaitingTimestamps => PhaseView::AwaitingTimestamps,
            Phase::CheckingIn { rfid, scanned } => PhaseView::CheckingIn {
                rfid: rfid@,
                scanned: *scanned,
            },
            Phase::CheckingOut { rfid, scanned } => PhaseView::CheckingOut {
                rfid: rfid@,
                scanned: *scanned,
            },
            Phase::Logging { scanned } => PhaseView::Logging { scanned: *scanned },
            Phase::Announcing => PhaseView::Announcing,
            Phase::AwaitingPerson { rfid } => PhaseView::AwaitingPerson { rfid: rfid@ },
            Phase::AwaitingCount { rfid } => PhaseView::AwaitingCount { rfid: rfid@ },
            Phase::AwaitingCard { person } => PhaseView::AwaitingCard { person: person@ },
            Phase::AwaitingCardOwner { person, card } => PhaseView::AwaitingCardOwner {
                person: person@,
                card: *card,
            },
            Phase::Enrolling { card } => PhaseView::Enrolling { card: *card },
            Phase::RecordingCard => PhaseView::RecordingCard,
            Phase::Finished => PhaseView::Finished,
        }
    }
}

/// The outcome of the last action, as the server hands it back.
pub enum Event {
    /// The database connection is open.
    Connected,
    /// The SQL statement ran.
    Executed,
    /// The message was sent to the browsers.
    Sent,
    /// The last scanned card was recorded.
    Recorded,
    /// The rows of a lookup in `people`.
    People { rows: Vec<PersonRow> },
    /// The `count` column of each row of a count query, in order.
    Counts { counts: Vec<i32> },
    /// The people in the shop.
    InShop { rows: Vec<JoinedPersonInShop> },
    /// The sign-in log.
    Timestamps { rows: Vec<JoinedTimestamp> },
    /// A report of the card reader.
    Card { data: ReaderData },
    /// The card reader could not be read.
    CardError,
}

/// The abstract value of an [`Event`]; of a lookup in `people`, only the number of
/// rows counts.
pub enum EventView {
    Connected,
    Executed,
    Sent,
    Recorded,
    People { count: nat },
    Counts { counts: Seq<i32> },
    InShop { rows: Seq<JoinedPersonInShop> },
    Timestamps { rows: Seq<JoinedTimestamp> },
    Card { data: ReaderData },
    CardError,
}

impl View for Event {
    type V = EventView;

    open spec fn view(&self) -> EventView {
        match self {
            Event::Connected => EventView::Connected,
            Event::Executed => EventView::Executed,
            Event::Sent => EventView::Sent,
            Event::Recorded => EventView::Recorded,
            Event::People { rows } => EventView::People { count: rows@.len() },
            Event::Counts { counts } => EventView::Counts { counts: counts@ },
            Event::InShop { rows } => EventView::InShop { rows: rows@ },
            Event::Timestamps { rows } => EventView::Timestamps { rows: rows@ },
            Event::Card { data } => EventView::Card { data: *data },
            Event::CardError => EventView::CardError,
        }
    }
}

/// What the server is to do next.
pub enum Action {
    /// Open the database connection with the settings' credentials.
    Connect,
    /// Run the SQL statement; its rows are not used.
    Execute { sql: String },
    /// Run the query and hand back its rows of `people`.
    FetchPeople { sql: String },
    /// Run the query and hand back the `count` column of its rows.
    FetchCounts { sql: String },
    /// Run the query and hand back its rows as people in the shop.
    FetchInShop { sql: String },
    /// Run the query and hand back its rows as sign-in log entries.
    FetchTimestamps { sql: String },
    /// Send the message to every browser, then go on.
    Broadcast { message: WebsocketOutgoingMessage },
    /// Read the card reader.
    ReadCard,
    /// Record `card` as the last card scanned.
    RecordLastScanned { card: u64 },
    /// Send the message to every browser; the request is handled.
    Reply { message: WebsocketOutgoingMessage },
}

/// The abstract value of an [`Action`].
pub enum ActionView {
    Connect,
    Execute { sql: Seq<char> },
    FetchPeople { sql: Seq<char> },
    FetchCounts { sql: Seq<char> },
    FetchInShop { sql: Seq<char> },
    FetchTimestamps { sql: Seq<char> },
    Broadcast { message: OutgoingView },
    ReadCard,
    RecordLastScanned { card: u64 },
    Reply { message: OutgoingView },
}

impl View for Action {
    type V = ActionView;

    open spec fn view(&self) -> ActionView {
        match self {
            Action::Connect => ActionView::Connect,
            Action::Execute { sql } => ActionView::Execute { sql: sql@ },
            Action::FetchPeople { sql } => ActionView::FetchPeople { sql: sql@ },
            Action::FetchCounts { sql } => ActionView::FetchCounts { sql: sql@ },
            Action::FetchInShop { sql } => ActionView::FetchInShop { sql: sql@ },
            Action::FetchTimestamps { sql } => ActionView::FetchTimestamps { sql: sql@ },
            Action::Broadcast { message } => ActionView::Broadcast { message: message@ },
            Action::ReadCard => ActionView::ReadCard,
            Action::RecordLastScanned { card } => ActionView::RecordLastScanned { card: *card },
            Action::Reply { message } => ActionView::Reply { message: message@ },
        }
    }
}

/// The reply with the given kind and payload.
pub open spec fn reply(msgtype: Seq<char>, message: Seq<char>) -> ActionView {
    ActionView::Reply { message: OutgoingView { msgtype, message } }
}

/// The reply that says nothing.
pub open spec fn null_reply() -> ActionView {
    reply("null"@, ""@)
}

/// The number in the `count` column of the last row, or 0 when there is no row.
pub open spec fn last_count(counts: Seq<i32>) -> i32 {
    if counts.len() == 0 {
        0
    } else {
        counts.last()
    }
}

/// The first phase and action for a request: the requests that need no database
/// are answered at once; the others first open the database connection.
pub open spec fn start_model(request: RequestView) -> (PhaseView, ActionView) {
    match request {
        RequestView::Hello => (PhaseView::Finished, reply("message"@, "hello world!"@)),
        RequestView::PressedAButton => (
            PhaseView::Finished,
            reply("message"@, "you sure did, champ"@),
        ),
        RequestView::TestMessage => (PhaseView::Finished, reply("in_shop_add"@, "[]"@)),
        RequestView::Other => (PhaseView::Finished, null_reply()),
        _ => (PhaseView::Connecting { request }, ActionView::Connect),
    }
}

/// Whether `event` is an outcome of the action that led to `phase`.
pub open spec fn accepts(phase: PhaseView, event: EventView) -> bool {
    match phase {
        PhaseView::Connecting { .. } => event is Connected,
        PhaseView::AwaitingInShop => event is InShop,
        PhaseView::AwaitingTimestamps => event is Timestamps,
        PhaseView::CheckingIn { .. } => event is Executed,
        PhaseView::CheckingOut { .. } => event is Executed,
        PhaseView::Logging { .. } => event is Executed,
        PhaseView::Announcing => event is Sent,
        PhaseView::AwaitingPerson { .. } => event is People,
        PhaseView::AwaitingCount { .. } => event is Counts,
        PhaseView::AwaitingCard { .. } => event is Card || event is CardError,
        PhaseView::AwaitingCardOwner { .. } => event is People,
        PhaseView::Enrolling { .. } => event is Executed,
        PhaseView::RecordingCard => event is Recorded,
        PhaseView::Finished => false,
    }
}

/// The first step of a request once the database connection is open.
pub open spec fn connected_model(request: RequestView) -> (PhaseView, ActionView) {
    match request {
        RequestView::GetInShop => (
            PhaseView::AwaitingInShop,
            ActionView::FetchInShop { sql: in_shop_sql() },
        ),
        RequestView::GetAllTimestamps => (
            PhaseView::AwaitingTimestamps,
            ActionView::FetchTimestamps { sql: timestamps_sql() },
        ),
        RequestView::AddToShop { rfid } => (
            PhaseView::CheckingIn { rfid, scanned: false },
            ActionView::Execute { sql: check_in_sql(rfid) },
        ),
        RequestView::RemoveFromShop { rfid } => (
            PhaseView::CheckingOut { rfid, scanned: false },
            ActionView::Execute { sql: check_out_sql(rfid) },
        ),
        RequestView::RfidScan { rfid } => (
            PhaseView::AwaitingPerson { rfid },
            ActionView::FetchPeople { sql: person_by_card_sql(rfid) },
        ),
        RequestView::NewPerson { person } => (
            PhaseView::AwaitingCard { person },
            ActionView::ReadCard,
        ),
        // The requests answered without the database never wait for it.
        _ => (PhaseView::Finished, null_reply()),
    }
}

/// The next phase and action after `event` in `phase` (of an event that `phase`
/// accepts).
pub open spec fn step_model(phase: PhaseView, event: EventView) -> (PhaseView, ActionView) {
    match phase {
        PhaseView::Connecting { request } => connected_model(request),
        PhaseView::AwaitingInShop => match event {
            EventView::InShop { rows } => (
                PhaseView::Finished,
                reply("in_shop_refresh"@, people_in_shop_json(rows)),
            ),
            _ => (PhaseView::Finished, null_reply()),
        },
        PhaseView::AwaitingTimestamps => match event {
            EventView::Timestamps { rows } => (
                PhaseView::Finished,
                reply("timestamps_refresh"@, timestamps_json(rows)),
            ),
            _ => (PhaseView::Finished, null_reply()),
        },
        PhaseView::CheckingIn { rfid, scanned } => (
            PhaseView::Logging { scanned },
            ActionView::Execute { sql: log_check_in_sql(rfid) },
        ),
        PhaseView::CheckingOut { rfid, scanned } => (
            PhaseView::Logging { scanned },
            ActionView::Execute { sql: log_check_out_sql(rfid) },
        ),
        PhaseView::Logging { scanned } => if scanned {
            (
                PhaseView::Announcing,
                ActionView::Broadcast {
                    message: OutgoingView { msgtype: "rfid_success"@, message: ""@ },
                },
            )
        } else {
            (PhaseView::AwaitingInShop, ActionView::FetchInShop { sql: in_shop_sql() })
        },
        PhaseView::Announcing => (
            PhaseView::AwaitingInShop,
            ActionView::FetchInShop { sql: in_shop_sql() },
        ),
        PhaseView::AwaitingPerson { rfid } => match event {
            EventView::People { count } => if count == 0 {
                (PhaseView::Finished, reply("unknown_person"@, ""@))
            } else if count > 1 {
                (PhaseView::Finished, reply("too_many_people_with_id"@, ""@))
            } else {
                (
                    PhaseView::AwaitingCount { rfid },
                    ActionView::FetchCounts { sql: count_in_shop_sql(rfid) },
                )
            },
            _ => (PhaseView::Finished, null_reply()),
        },
        PhaseView::AwaitingCount { rfid } => match event {
            EventView::Counts { counts } => if last_count(counts) == 0 {
                (
                    PhaseView::CheckingIn { rfid, scanned: true },
                    ActionView::Execute { sql: check_in_sql(rfid) },
                )
            } else {
                (
                    PhaseView::CheckingOut { rfid, scanned: true },
                    ActionView::Execute { sql: check_out_sql(rfid) },
                )
            },
            _ => (PhaseView::Finished, null_reply()),
        },
        PhaseView::AwaitingCard { person } => match event {
            EventView::Card { data } => if data.status == 0 && data.valid {
                (
                    PhaseView::AwaitingCardOwner { person, card: data.id },
                    ActionView::FetchPeople { sql: person_by_card_sql(decimal(data.id as nat)) },
                )
            } else {
                (PhaseView::AwaitingCard { person }, ActionView::ReadCard)
            },
            _ => (PhaseView::AwaitingCard { person }, ActionView::ReadCard),
        },
        PhaseView::AwaitingCardOwner { person, card } => match event {
            EventView::People { count } => if count == 0 {
                (
                    PhaseView::Enrolling { card },
                    ActionView::Execute {
                        sql: add_person_sql(
                            person.rcsid,
                            person.firstname,
                            person.lastname,
                            decimal(card as nat),
                            person.is_good,
                        ),
                    },
                )
            } else {
                (PhaseView::AwaitingCard { person }, ActionView::ReadCard)
            },
            _ => (PhaseView::Finished, null_reply()),
        },
        PhaseView::Enrolling { card } => (
            PhaseView::RecordingCard,
            ActionView::RecordLastScanned { card },
        ),
        PhaseView::RecordingCard => (PhaseView::Finished, null_reply()),
        PhaseView::Finished => (PhaseView::Finished, null_reply()),
    }
}

fn reply_with(msgtype: &str, message: &str) -> (a: Action)
    ensures
        a@ == reply(msgtype@, message@),
{
    Action::Reply { message: WebsocketOutgoingMessage::new(msgtype, message) }
}

/// The first phase and action for `request`.
pub fn start(request: Request) -> (r: (Phase, Action))
    ensures
        (r.0@, r.1@) == start_model(request@),
{
    match request {
        Request::Hello => (Phase::Finished, reply_with("message", "hello world!")),
        Request::PressedAButton => (Phase::Finished, reply_with("message", "you sure did, champ")),
        Request::TestMessage => (Phase::Finished, reply_with("in_shop_add", "[]")),
        Request::Other => (Phase::Finished, reply_with("null", "")),
        _ => (Phase::Connecting { request }, Action::Connect),
    }
}

impl Phase {
    /// Whether `event` is an outcome of the action that led to this phase.
    pub fn accepts(&self, event: &Event) -> (ok: bool)
        ensures
            ok == accepts(self@, event@),
    {
        match self {
            Phase::Connecting { .. } => matches!(event, Event::Connected),
            Phase::AwaitingInShop => matches!(event, Event::InShop { .. }),
            Phase::AwaitingTimestamps => matches!(event, Event::Timestamps { .. }),
            Phase::CheckingIn { .. } => matches!(event, Event::Executed),
            Phase::CheckingOut { .. } => matches!(event, Event::Executed),
            Phase::Logging { .. } => matches!(event, Event::Executed),
            Phase::Announcing => matches!(event, Event::Sent),
            Phase::AwaitingPerson { .. } => matches!(event, Event::People { .. }),
            Phase::AwaitingCount { .. } => matches!(event, Event::Counts { .. }),
            Phase::AwaitingCard { .. } => matches!(event, Event::Card { .. })
                || matches!(event, Event::CardError),
            Phase::AwaitingCardOwner { .. } => matches!(event, Event::People { .. }),
            Phase::Enrolling { .. } => matches!(event, Event::Executed),
            Phase::RecordingCard => matches!(event, Event::Recorded),
            Phase::Finished => false,
        }
    }
}

fn connected(request: Request) -> (r: (Phase, Action))
    ensures
        (r.0@, r.1@) == connected_model(request@),
{
    match request {
        Request::GetInShop => (Phase::AwaitingInShop, Action::FetchInShop { sql: in_shop_query() }),
        Request::GetAllTimestamps => (
            Phase::AwaitingTimestamps,
            Action::FetchTimestamps { sql: timestamps_query() },
        ),
        Request::AddToShop { rfid } => {
            let sql = check_in_query(rfid.as_str());
            (Phase::CheckingIn { rfid, scanned: false }, Action::Execute { sql })
        },
        Request::RemoveFromShop { rfid } => {
            let sql = check_out_query(rfid.as_str());
            (Phase::CheckingOut { rfid, scanned: false }, Action::Execute { sql })
        },
        Request::RfidScan { rfid } => {
            let sql = person_by_card_query(rfid.as_str());
            (Phase::AwaitingPerson { rfid }, Action::FetchPeople { sql })
        },
        Request::NewPerson { person } => (Phase::AwaitingCard { person }, Action::ReadCard),
        _ => (Phase::Finished, reply_with("null", "")),
    }
}

/// The next phase and action after `event` in `phase`.
pub fn step(phase: Phase, event: Event) -> (r: (Phase, Action))
    requires
        accepts(phase@, event@),
    ensures
        (r.0@, r.1@) == step_model(phase@, event@),
{
    match phase {
        Phase::Connecting { request } => connected(request),
        Phase::AwaitingInShop => match event {
            Event::InShop { rows } => {
                let json = people_in_shop_to_json(&rows);
                (
                    Phase::Finished,
                    Action::Reply {
                        message: WebsocketOutgoingMessage {
                            msgtype: String::from_str("in_shop_refresh"),
                            message: json,
                        },
                    },
                )
            },
            _ => (Phase::Finished, reply_with("null", "")),
        },
        Phase::AwaitingTimestamps => match event {
            Event::Timestamps { rows } => {
                let json = timestamps_to_json(&rows);
                (
                    Phase::Finished,
                    Action::Reply {
                        message: WebsocketOutgoingMessage {
                            msgtype: String::from_str("timestamps_refresh"),
                            message: json,
                        },
                    },
                )
            },
            _ => (Phase::Finished, reply_with("null", "")),
        },
        Phase::CheckingIn { rfid, scanned } => {
            let sql = log_check_in_query(rfid.as_str());
            (Phase::Logging { scanned }, Action::Execute { sql })
        },
        Phase::CheckingOut { rfid, scanned } => {
            let sql = log_check_out_query(rfid.as_str());
            (Phase::Logging { scanned }, Action::Execute { sql })
        },
        Phase::Logging { scanned } => {
            if scanned {
                (
                    Phase::Announcing,
                    Action::Broadcast { message: WebsocketOutgoingMessage::new("rfid_success", "") },
                )
            } else {
                (Phase::AwaitingInShop, Action::FetchInShop { sql: in_shop_query() })
            }
        },
        Phase::Announcing => (Phase::AwaitingInShop, Action::FetchInShop { sql: in_shop_query() }),
        Phase::AwaitingPerson { rfid } => match event {
            Event::People { rows } => {
                if rows.len() == 0 {
                    (Phase::Finished, reply_with("unknown_person", ""))
                } else if rows.len() > 1 {
                    (Phase::Finished, reply_with("too_many_people_with_id", ""))
                } else {
                    let sql = count_in_shop_query(rfid.as_str());
                    (Phase::AwaitingCount { rfid }, Action::FetchCounts { sql })
                }
            },
            _ => (Phase::Finished, reply_with("null", "")),
        },
        Phase::AwaitingCount { rfid } => match event {
            Event::Counts { counts } => {
                let mut count: i32 = 0;
                let mut i: usize = 0;
                while i < counts.len()
                    invariant
                        i <= counts.len(),
                        count == last_count(counts@.take(i as int)),
                    decreases counts.len() - i,
                {
                    count = counts[i];
                    proof {
                        assert(counts@.take(i + 1).last() == counts@[i as int]);
                    }
                    i = i + 1;
                }
                assert(counts@.take(counts.len() as int) =~= counts@);
                if count == 0 {
                    let sql = check_in_query(rfid.as_str());
                    (Phase::CheckingIn { rfid, scanned: true }, Action::Execute { sql })
                } else {
                    let sql = check_out_query(rfid.as_str());
                    (Phase::CheckingOut { rfid, scanned: true }, Action::Execute { sql })
                }
            },
            _ => (Phase::Finished, reply_with("null", "")),
        },
        Phase::AwaitingCard { person } => match event {
            Event::Card { data } => {
                if data.status == 0 && data.valid {
                    let card_text = decimal_text(data.id);
                    let sql = person_by_card_query(card_text.as_str());
                    (Phase::AwaitingCardOwner { person, card: data.id }, Action::FetchPeople { sql })
                } else {
                    (Phase::AwaitingCard { person }, Action::ReadCard)
                }
            },
            _ => (Phase::AwaitingCard { person }, Action::ReadCard),
        },
        Phase::AwaitingCardOwner { person, card } => match event {
            Event::People { rows } => {
                if rows.len() == 0 {
                    let card_text = decimal_text(card);
                    let sql = add_person_query(
                        person.rcsid.as_str(),
                        person.firstname.as_str(),
                        person.lastname.as_str(),
                        card_text.as_str(),
                        person.is_good,
                    );
                    (Phase::Enrolling { card }, Action::Execute { sql })
                } else {
                    (Phase::AwaitingCard { person }, Action::ReadCard)
                }
            },
            _ => (Phase::Finished, reply_with("null", "")),
        },
        Phase::Enrolling { card } => (Phase::RecordingCard, Action::RecordLastScanned { card }),
        Phase::RecordingCard => (Phase::Finished, reply_with("null", "")),
        Phase::Finished => (Phase::Finished, reply_with("null", "")),
    }
}

/// How far a phase is from the reply, at most (the wait for an unregistered card
/// aside).
pub open spec fn rank(phase: PhaseView) -> nat {
    match phase {
        PhaseView::Finished => 0,
        PhaseView::AwaitingInShop => 1,
        PhaseView::AwaitingTimestamps => 1,
        PhaseView::RecordingCard => 1,
        PhaseView::Announcing => 2,
        PhaseView::Enrolling { .. } => 2,
        PhaseView::Logging { .. } => 3,
        PhaseView::AwaitingCardOwner { .. } => 3,
        PhaseView::CheckingIn { .. } => 4,
        PhaseView::CheckingOut { .. } => 4,
        PhaseView::AwaitingCard { .. } => 4,
        PhaseView::AwaitingCount { .. } => 5,
        PhaseView::AwaitingPerson { .. } => 6,
        PhaseView::Connecting { .. } => 7,
    }
}

/// Every step brings the handler closer to its reply, but for the retries of an
/// enrollment, which read the card reader again until an unregistered card lies on it.
pub proof fn lemma_step_progresses(phase: PhaseView, event: EventView)
    requires
        accepts(phase, event),
    ensures
        rank(step_model(phase, event).0) < rank(phase) || step_model(phase, event).0 is AwaitingCard,
{
}

/// A request gets exactly one reply: the action is a reply exactly when the handling is
/// finished, and a finished handling takes no further event.
pub proof fn lemma_reply_exactly_once(request: RequestView, phase: PhaseView, event: EventView)
    requires
        accepts(phase, event),
    ensures
        start_model(request).1 is Reply <==> start_model(request).0 is Finished,
        step_model(phase, event).1 is Reply <==> step_model(phase, event).0 is Finished,
        forall|e: EventView| !accepts(PhaseView::Finished, e),
{
}

/// A scan toggles presence: once the holder of a scanned card is known, a holder who
/// is not in the shop (count 0) is checked in and an entry is logged, and a holder who
/// is in the shop is checked out and an exit is logged; then the browsers are told that
/// the scan succeeded, and the list of people in the shop follows as the reply.
pub proof fn lemma_scan_toggles_presence(
    rfid: Seq<char>,
    counts: Seq<i32>,
    rows: Seq<JoinedPersonInShop>,
)
    ensures
        ({
            let (p1, a1) = step_model(
                PhaseView::AwaitingCount { rfid },
                EventView::Counts { counts },
            );
            let (p2, a2) = step_model(p1, EventView::Executed);
            let (p3, a3) = step_model(p2, EventView::Executed);
            let (p4, a4) = step_model(p3, EventView::Sent);
            let (p5, a5) = step_model(p4, EventView::InShop { rows });
            &&& last_count(counts) == 0 ==> a1 == ActionView::Execute { sql: check_in_sql(rfid) }
                && a2 == ActionView::Execute { sql: log_check_in_sql(rfid) }
            &&& last_count(counts) != 0 ==> a1 == ActionView::Execute { sql: check_out_sql(rfid) }
                && a2 == ActionView::Execute { sql: log_check_out_sql(rfid) }
            &&& accepts(p1, EventView::Executed) && accepts(p2, EventView::Executed)
            &&& a3 == ActionView::Broadcast {
                message: OutgoingView { msgtype: "rfid_success"@, message: ""@ },
            }
            &&& accepts(p3, EventView::Sent)
            &&& a4 == ActionView::FetchInShop { sql: in_shop_sql() }
            &&& accepts(p4, EventView::InShop { rows })
            &&& p5 == PhaseView::Finished
            &&& a5 == reply("in_shop_refresh"@, people_in_shop_json(rows))
        }),
{
}

/// Signing a card's holder in by hand: the check-in, then its log entry, then the list
/// of people in the shop as the reply; no announcement of a scan.
pub proof fn lemma_add_to_shop_flow(rfid: Seq<char>, rows: Seq<JoinedPersonInShop>)
    ensures
        ({
            let (p0, a0) = start_model(RequestView::AddToShop { rfid });
            let (p1, a1) = step_model(p0, EventView::Connected);
            let (p2, a2) = step_model(p1, EventView::Executed);
            let (p3, a3) = step_model(p2, EventView::Executed);
            let (p4, a4) = step_model(p3, EventView::InShop { rows });
            &&& a0 == ActionView::Connect && accepts(p0, EventView::Connected)
            &&& a1 == ActionView::Execute { sql: check_in_sql(rfid) }
            &&& a2 == ActionView::Execute { sql: log_check_in_sql(rfid) }
            &&& a3 == ActionView::FetchInShop { sql: in_shop_sql() }
            &&& accepts(p3, EventView::InShop { rows })
            &&& p4 == PhaseView::Finished
            &&& a4 == reply("in_shop_refresh"@, people_in_shop_json(rows))
        }),
{
}

/// Signing a card's holder out by hand: the check-out, then its log entry, then the
/// list of people in the shop as the reply.
pub proof fn lemma_remove_from_shop_flow(rfid: Seq<char>, rows: Seq<JoinedPersonInShop>)
    ensures
        ({
            let (p0, a0) = start_model(RequestView::RemoveFromShop { rfid });
            let (p1, a1) = step_model(p0, EventView::Connected);
            let (p2, a2) = step_model(p1, EventView::Executed);
            let (p3, a3) = step_model(p2, EventView::Executed);
            let (p4, a4) = step_model(p3, EventView::InShop { rows });
            &&& a0 == ActionView::Connect && accepts(p0, EventView::Connected)
            &&& a1 == ActionView::Execute { sql: check_out_sql(rfid) }
            &&& a2 == ActionView::Execute { sql: log_check_out_sql(rfid) }
            &&& a3 == ActionView::FetchInShop { sql: in_shop_sql() }
            &&& accepts(p3, EventView::InShop { rows })
            &&& p4 == PhaseView::Finished
            &&& a4 == reply("in_shop_refresh"@, people_in_shop_json(rows))
        }),
{
}

/// A card enrolled through the reader is the card that a later scan of it looks up:
/// enrollment checks and registers the card under its id in decimal, and the request
/// that the card-reader loop sends for that card looks up the same text.
pub proof fn lemma_enrolled_card_is_found(person: EnrollmentView, data: ReaderData)
    requires
        data.status == 0,
        data.valid,
    ensures
        ({
            let (p1, a1) = step_model(
                PhaseView::AwaitingCard { person },
                EventView::Card { data },
            );
            let (p2, a2) = step_model(p1, EventView::People { count: 0 });
            let scan = parsed_request(scan_request(data.id as nat));
            let (q0, b0) = start_model(scan);
            let (q1, b1) = step_model(q0, EventView::Connected);
            &&& accepts(p1, EventView::People { count: 0 })
            &&& a2 == ActionView::Execute {
                sql: add_person_sql(
                    person.rcsid,
                    person.firstname,
                    person.lastname,
                    decimal(data.id as nat),
                    person.is_good,
                ),
            }
            &&& b0 == ActionView::Connect
            &&& b1 == a1
        }),
{
    lemma_scan_request_reads_back(data.id as nat);
}

/// Enrolling registers the person that the request names, with the standing that the
/// request gives: for a complete `new_person` request and a card read on the reader
/// that nobody holds, the handler opens the database, keeps the request's first name,
/// last name, RCS id and standing (good exactly when the fifth word is `true`), looks
/// the card up by its id in decimal, and registers exactly those with the card.
pub proof fn lemma_enrollment_carries_request(text: Seq<char>, data: ReaderData)
    requires
        request_complete(text),
        split_on_space(text)[0] == "new_person"@,
        data.status == 0,
        data.valid,
    ensures
        ({
            let w = split_on_space(text);
            let standing = w[4] == "true"@;
            let (p0, a0) = start_model(parsed_request(text));
            let (p1, a1) = step_model(p0, EventView::Connected);
            let (p2, a2) = step_model(p1, EventView::Card { data });
            let (p3, a3) = step_model(p2, EventView::People { count: 0 });
            &&& a0 == ActionView::Connect && accepts(p0, EventView::Connected)
            &&& p1 == PhaseView::AwaitingCard {
                person: EnrollmentView {
                    firstname: w[1],
                    lastname: w[2],
                    rcsid: w[3],
                    is_good: standing,
                },
            }
            &&& a1 == ActionView::ReadCard
            &&& a2 == ActionView::FetchPeople {
                sql: "SELECT * FROM people WHERE rfid=\""@ + decimal(data.id as nat) + "\""@,
            }
            &&& accepts(p2, EventView::People { count: 0 })
            &&& a3 == ActionView::Execute {
                sql: "INSERT INTO people (rcsid, firstname, lastname, rfid, is_good) VALUES (\""@
                    + w[3] + "\", \""@ + w[1] + "\", \""@ + w[2] + "\", \""@ + decimal(
                    data.id as nat,
                ) + "\", "@ + (if standing {
                    "true"@
                } else {
                    "false"@
                }) + ")"@,
            }
        }),
{
    lemma_split_nonempty(text);
    reveal_strlit("hello");
    reveal_strlit("pressed_a_button");
    reveal_strlit("test_message");
    reveal_strlit("get_in_shop");
    reveal_strlit("get_all_timestamps");
    reveal_strlit("add_to_shop");
    reveal_strlit("remove_from_shop");
    reveal_strlit("rfid_scan");
    reveal_strlit("new_person");
    assert("hello"@.len() == 5 && "pressed_a_button"@.len() == 16);
    assert("test_message"@.len() == 12 && "get_in_shop"@.len() == 11);
    assert("get_all_timestamps"@.len() == 18 && "add_to_shop"@.len() == 11);
    assert("remove_from_shop"@.len() == 16 && "rfid_scan"@.len() == 9);
    assert("new_person"@.len() == 10);
}

/// Listing asks for everything: a `get_all_timestamps` request, once the database is
/// open, runs the plain join of people and the whole sign-in log (both directions, no
/// filter), and replies with every row it gives, in order; a `get_in_shop` request
/// runs the plain join of people and `in_shop`, and replies with every row.
pub proof fn lemma_listing_queries(
    text: Seq<char>,
    log_rows: Seq<JoinedTimestamp>,
    shop_rows: Seq<JoinedPersonInShop>,
)
    ensures
        ({
            let w = split_on_space(text);
            let (p0, a0) = start_model(parsed_request(text));
            let (p1, a1) = step_model(p0, EventView::Connected);
            w[0] == "get_all_timestamps"@ ==> {
                &&& a0 == ActionView::Connect
                &&& a1 == ActionView::FetchTimestamps {
                    sql: "select people.rcsid, people.firstname, people.lastname, people.rfid, timestamps.is_checking_in, timestamps.time_stamp from people inner join timestamps on timestamps.rfid=people.rfid"@,
                }
                &&& step_model(p1, EventView::Timestamps { rows: log_rows }) == (
                    PhaseView::Finished,
                    reply("timestamps_refresh"@, timestamps_json(log_rows)),
                )
            }
        }),
        ({
            let w = split_on_space(text);
            let (p0, a0) = start_model(parsed_request(text));
            let (p1, a1) = step_model(p0, EventView::Connected);
            w[0] == "get_in_shop"@ ==> {
                &&& a0 == ActionView::Connect
                &&& a1 == ActionView::FetchInShop {
                    sql: "select people.rcsid, people.firstname, people.lastname, people.rfid, in_shop.time_in from people inner join in_shop on in_shop.rfid=people.rfid"@,
                }
                &&& step_model(p1, EventView::InShop { rows: shop_rows }) == (
                    PhaseView::Finished,
                    reply("in_shop_refresh"@, people_in_shop_json(shop_rows)),
                )
            }
        }),
{
    lemma_split_nonempty(text);
    reveal_strlit("hello");
    reveal_strlit("pressed_a_button");
    reveal_strlit("test_message");
    reveal_strlit("get_in_shop");
    reveal_strlit("get_all_timestamps");
    assert("hello"@.len() == 5 && "pressed_a_button"@.len() == 16);
    assert("test_message"@.len() == 12 && "get_in_shop"@.len() == 11);
    assert("get_all_timestamps"@.len() == 18);
}

/// The requests that need no database are answered at once, with fixed messages:
/// `hello` with "hello world!", `pressed_a_button` with "you sure did, champ",
/// `test_message` with an empty list to add, and any unknown command with the empty
/// `null` message.
pub proof fn lemma_immediate_replies(text: Seq<char>)
    ensures
        ({
            let w = split_on_space(text);
            let first = start_model(parsed_request(text));
            &&& w[0] == "hello"@ ==> first == (
                PhaseView::Finished,
                reply("message"@, "hello world!"@),
            )
            &&& w[0] == "pressed_a_button"@ ==> first == (
                PhaseView::Finished,
                reply("message"@, "you sure did, champ"@),
            )
            &&& w[0] == "test_message"@ ==> first == (
                PhaseView::Finished,
                reply("in_shop_add"@, "[]"@),
            )
            &&& (w[0] != "hello"@ && w[0] != "pressed_a_button"@ && w[0] != "test_message"@
                && w[0] != "get_in_shop"@ && w[0] != "get_all_timestamps"@ && w[0]
                != "add_to_shop"@ && w[0] != "remove_from_shop"@ && w[0] != "rfid_scan"@ && w[0]
                != "new_person"@) ==> first == (PhaseView::Finished, reply("null"@, ""@))
        }),
{
    reveal_strlit("hello");
    reveal_strlit("pressed_a_button");
    reveal_strlit("test_message");
    assert("hello"@.len() == 5 && "pressed_a_button"@.len() == 16);
    assert("test_message"@.len() == 12);
}

/// A scan first looks its card up among the people: nobody with the card is answered
/// with `unknown_person`, several with `too_many_people_with_id`, and exactly one
/// leads to counting the card's rows of `in_shop`.
pub proof fn lemma_scan_lookup_outcomes(card: Seq<char>, count: nat)
    ensures
        ({
            let (p0, a0) = start_model(RequestView::RfidScan { rfid: card });
            let (p1, a1) = step_model(p0, EventView::Connected);
            let (p2, a2) = step_model(p1, EventView::People { count });
            &&& a1 == ActionView::FetchPeople {
                sql: "SELECT * FROM people WHERE rfid=\""@ + card + "\""@,
            }
            &&& count == 0 ==> (p2, a2) == (PhaseView::Finished, reply("unknown_person"@, ""@))
            &&& count > 1 ==> (p2, a2) == (
                PhaseView::Finished,
                reply("too_many_people_with_id"@, ""@),
            )
            &&& count == 1 ==> a2 == ActionView::FetchCounts {
                sql: "SELECT COUNT(*) as count FROM in_shop WHERE rfid=\""@ + card + "\""@,
            }
        }),
{
}

} // verus!
