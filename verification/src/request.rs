//! The requests that a browser (or the card-reader loop) sends as text: a command
//! word followed by its arguments, separated by single spaces.

use vstd::prelude::*;
use crate::text::{
    decimal, lemma_decimal_space_free, lemma_split_append_space, lemma_split_append_word,
    lemma_split_nonempty, lemma_split_push_word, lemma_split_word, push_decimal, space_free, split_on_space, split_words,
    text_is,
};

verus! {

/// The details of a person to enroll: their name, their RCS id, and whether they are
/// in good standing.
pub struct Enrollment {
    pub firstname: String,
    pub lastname: String,
    pub rcsid: String,
    pub is_good: bool,
}

/// The abstract value of an [`Enrollment`].
pub struct EnrollmentView {
    pub firstname: Seq<char>,
    pub lastname: Seq<char>,
    pub rcsid: Seq<char>,
    pub is_good: bool,
}

impl View for Enrollment {
    type V = EnrollmentView;

    open spec fn view(&self) -> EnrollmentView {
        EnrollmentView {
            firstname: self.firstname@,
            lastname: self.lastname@,
            rcsid: self.rcsid@,
            is_good: self.is_good,
        }
    }
}

/// A request, read from its text.
pub enum Request {
    /// `hello`
    Hello,
    /// `pressed_a_button`
    PressedAButton,
    /// `test_message`
    TestMessage,
    /// `get_in_shop`: the list of people in the shop.
    GetInShop,
    /// `get_all_timestamps`: the whole sign-in log.
    GetAllTimestamps,
    /// `add_to_shop <rfid>`: sign the card's holder in.
    AddToShop { rfid: String },
    /// `remove_from_shop <rfid>`: sign the card's holder out.
    RemoveFromShop { rfid: String },
    /// `rfid_scan <rfid>`: a card was scanned; sign its holder in or out.
    RfidScan { rfid: String },
    /// `new_person <firstname> <lastname> <rcsid> <is_good>`: enroll a person with
    /// the next unregistered card that the reader sees.
    NewPerson { person: Enrollment },
    /// Any other text.
    Other,
}

/// The abstract value of a [`Request`].
pub enum RequestView {
    Hello,
    PressedAButton,
    TestMessage,
    GetInShop,
    GetAllTimestamps,
    AddToShop { rfid: Seq<char> },
    RemoveFromShop { rfid: Seq<char> },
    RfidScan { rfid: Seq<char> },
    NewPerson { person: EnrollmentView },
    Other,
}

impl View for Request {
    type V = RequestView;

    open spec fn view(&self) -> RequestView {
        match self {
            Request::Hello => RequestView::Hello,
            Request::PressedAButton => RequestView::PressedAButton,
            Request::TestMessage => RequestView::TestMessage,
            Request::GetInShop => RequestView::GetInShop,
            Request::GetAllTimestamps => RequestView::GetAllTimestamps,
            Request::AddToShop { rfid } => RequestView::AddToShop { rfid: rfid@ },
            Request::RemoveFromShop { rfid } => RequestView::RemoveFromShop { rfid: rfid@ },
            Request::RfidScan { rfid } => RequestView::RfidScan { rfid: rfid@ },
            Request::NewPerson { person } => RequestView::NewPerson { person: person@ },
            Request::Other => RequestView::Other,
        }
    }
}

/// How many words (the command word included) a request with this command word
/// reads.
pub open spec fn words_read(command: Seq<char>) -> nat {
    if command == "add_to_shop"@ || command == "remove_from_shop"@ || command == "rfid_scan"@ {
        2
    } else if command == "new_person"@ {
        5
    } else {
        1
    }
}

/// Whether `text` has all the words that its command reads.
pub open spec fn request_complete(text: Seq<char>) -> bool {
    let words = split_on_space(text);
    words.len() >= words_read(words[0])
}

/// The request that `text` holds: its first word picks the command, and the
/// following words are the command's arguments, in order.
pub open spec fn parsed_request(text: Seq<char>) -> RequestView {
    let w = split_on_space(text);
    let command = w[0];
    if command == "hello"@ {
        RequestView::Hello
    } else if command == "pressed_a_button"@ {
        RequestView::PressedAButton
    } else if command == "test_message"@ {
        RequestView::TestMessage
    } else if command == "get_in_shop"@ {
        RequestView::GetInShop
    } else if command == "get_all_timestamps"@ {
        RequestView::GetAllTimestamps
    } else if command == "add_to_shop"@ {
        RequestView::AddToShop { rfid: w[1] }
    } else if command == "remove_from_shop"@ {
        RequestView::RemoveFromShop { rfid: w[1] }
    } else if command == "rfid_scan"@ {
        RequestView::RfidScan { rfid: w[1] }
    } else if command == "new_person"@ {
        RequestView::NewPerson {
            person: EnrollmentView {
                firstname: w[1],
                lastname: w[2],
                rcsid: w[3],
                is_good: w[4] == "true"@,
            },
        }
    } else {
        RequestView::Other
    }
}

/// Whether `text` has all the words that its command reads.
pub fn is_complete_request(text: &str) -> (complete: bool)
    ensures
        complete == request_complete(text@),
{
    let words = split_words(text);
    proof {
        lemma_split_nonempty(text@);
    }
    let ghost w = split_on_space(text@);
    assert(words@[0]@ == w[0]);
    let command = &words[0];
    let needed: usize = if text_is(command, "add_to_shop") || text_is(command, "remove_from_shop")
        || text_is(command, "rfid_scan") {
        2
    } else if text_is(command, "new_person") {
        5
    } else {
        1
    };
    words.len() >= needed
}

/// Reads the request that `text` holds.
pub fn parse_request(text: &str) -> (r: Request)
    requires
        request_complete(text@),
    ensures
        r@ == parsed_request(text@),
{
    let words = split_words(text);
    proof {
        lemma_split_nonempty(text@);
    }
    let ghost w = split_on_space(text@);
    assert(words@.len() == w.len());
    assert(forall|k: int| 0 <= k < w.len() ==> #[trigger] words@[k]@ == w[k]);
    let command = &words[0];
    if text_is(command, "hello") {
        Request::Hello
    } else if text_is(command, "pressed_a_button") {
        Request::PressedAButton
    } else if text_is(command, "test_message") {
        Request::TestMessage
    } else if text_is(command, "get_in_shop") {
        Request::GetInShop
    } else if text_is(command, "get_all_timestamps") {
        Request::GetAllTimestamps
    } else if text_is(command, "add_to_shop") {
        Request::AddToShop { rfid: words[1].clone() }
    } else if text_is(command, "remove_from_shop") {
        Request::RemoveFromShop { rfid: words[1].clone() }
    } else if text_is(command, "rfid_scan") {
        Request::RfidScan { rfid: words[1].clone() }
    } else if text_is(command, "new_person") {
        let person = Enrollment {
            firstname: words[1].clone(),
            lastname: words[2].clone(),
            rcsid: words[3].clone(),
            is_good: text_is(&words[4], "true"),
        };
        Request::NewPerson { person }
    } else {
        Request::Other
    }
}

/// The text of the request that the card-reader loop sends for a card with id `id`.
pub open spec fn scan_request(id: nat) -> Seq<char> {
    "rfid_scan "@ + decimal(id)
}

/// The request that the card-reader loop sends when a card with id `id` is scanned:
/// `rfid_scan` and the id in decimal.
pub fn scan_request_text(id: u64) -> (t: String)
    ensures
        t@ == scan_request(id as nat),
{
    let mut t = String::from_str("rfid_scan ");
    push_decimal(&mut t, id);
    t
}

/// Which requests are complete: one whose first word is `add_to_shop`,
/// `remove_from_shop` or `rfid_scan` exactly when it has at least two words; one whose
/// first word is `new_person` exactly when it has at least five; any other always.
pub proof fn lemma_completeness(text: Seq<char>)
    ensures
        ({
            let w = split_on_space(text);
            &&& (w[0] == "add_to_shop"@ || w[0] == "remove_from_shop"@ || w[0] == "rfid_scan"@)
                ==> (request_complete(text) <==> w.len() >= 2)
            &&& w[0] == "new_person"@ ==> (request_complete(text) <==> w.len() >= 5)
            &&& (w[0] != "add_to_shop"@ && w[0] != "remove_from_shop"@ && w[0] != "rfid_scan"@
                && w[0] != "new_person"@) ==> request_complete(text)
        }),
{
    lemma_split_nonempty(text);
    reveal_strlit("add_to_shop");
    reveal_strlit("remove_from_shop");
    reveal_strlit("rfid_scan");
    reveal_strlit("new_person");
    let w = split_on_space(text);
    assert("new_person"@.len() == 10 && "add_to_shop"@.len() == 11);
    assert("remove_from_shop"@.len() == 16 && "rfid_scan"@.len() == 9);
    if w[0] == "new_person"@ {
        assert(words_read(w[0]) == 5);
    }
}

/// A command word and one argument without spaces, separated by a space, split into
/// exactly those two words.
proof fn lemma_two_words(command: Seq<char>, arg: Seq<char>)
    requires
        space_free(command),
        space_free(arg),
    ensures
        split_on_space(command + seq![' '] + arg) == seq![command, arg],
{
    lemma_split_word(command);
    lemma_split_push_word(command, arg);
    assert(seq![command].push(arg) =~= seq![command, arg]);
}

/// `add_to_shop`, `remove_from_shop` or `rfid_scan`, a space and a card without spaces
/// is a complete request for that card: signing it in, signing it out, or a scan.
pub proof fn lemma_card_requests_read_back(card: Seq<char>)
    requires
        space_free(card),
    ensures
        request_complete("add_to_shop"@ + seq![' '] + card),
        parsed_request("add_to_shop"@ + seq![' '] + card) == (RequestView::AddToShop { rfid: card }),
        request_complete("remove_from_shop"@ + seq![' '] + card),
        parsed_request("remove_from_shop"@ + seq![' '] + card) == (RequestView::RemoveFromShop {
            rfid: card,
        }),
        request_complete("rfid_scan"@ + seq![' '] + card),
        parsed_request("rfid_scan"@ + seq![' '] + card) == (RequestView::RfidScan { rfid: card }),
{
    reveal_strlit("hello");
    reveal_strlit("pressed_a_button");
    reveal_strlit("test_message");
    reveal_strlit("get_in_shop");
    reveal_strlit("get_all_timestamps");
    reveal_strlit("add_to_shop");
    reveal_strlit("remove_from_shop");
    reveal_strlit("rfid_scan");
    reveal_strlit("new_person");
    assert(space_free("add_to_shop"@));
    assert(space_free("remove_from_shop"@));
    assert(space_free("rfid_scan"@));
    assert("hello"@.len() == 5 && "pressed_a_button"@.len() == 16);
    assert("test_message"@.len() == 12 && "get_in_shop"@.len() == 11);
    assert("get_all_timestamps"@.len() == 18 && "add_to_shop"@.len() == 11);
    assert("remove_from_shop"@.len() == 16 && "rfid_scan"@.len() == 9);
    assert("get_in_shop"@[0] != "add_to_shop"@[0]);
    assert("pressed_a_button"@[0] != "remove_from_shop"@[0]);
    assert("add_to_shop"@ != "get_in_shop"@);
    assert("remove_from_shop"@ != "pressed_a_button"@);
    lemma_two_words("add_to_shop"@, card);
    lemma_two_words("remove_from_shop"@, card);
    lemma_two_words("rfid_scan"@, card);
}

/// `new_person` and four words without spaces is a complete request to enroll the
/// person with that first name, last name and RCS id, in good standing exactly when
/// the fourth word is `true`.
pub proof fn lemma_enrollment_request_reads_back(
    firstname: Seq<char>,
    lastname: Seq<char>,
    rcsid: Seq<char>,
    standing: Seq<char>,
)
    requires
        space_free(firstname),
        space_free(lastname),
        space_free(rcsid),
        space_free(standing),
    ensures
        ({
            let text = "new_person"@ + seq![' '] + firstname + seq![' '] + lastname + seq![' ']
                + rcsid + seq![' '] + standing;
            &&& request_complete(text)
            &&& parsed_request(text) == (RequestView::NewPerson {
                person: EnrollmentView { firstname, lastname, rcsid, is_good: standing == "true"@ },
            })
        }),
{
    reveal_strlit("hello");
    reveal_strlit("pressed_a_button");
    reveal_strlit("test_message");
    reveal_strlit("get_in_shop");
    reveal_strlit("get_all_timestamps");
    reveal_strlit("add_to_shop");
    reveal_strlit("remove_from_shop");
    reveal_strlit("rfid_scan");
    reveal_strlit("new_person");
    let c = "new_person"@;
    assert(space_free(c));
    assert("hello"@.len() == 5 && "pressed_a_button"@.len() == 16);
    assert("test_message"@.len() == 12 && "get_in_shop"@.len() == 11);
    assert("get_all_timestamps"@.len() == 18 && "add_to_shop"@.len() == 11);
    assert("remove_from_shop"@.len() == 16 && "rfid_scan"@.len() == 9);
    assert(c.len() == 10);
    let t1 = c + seq![' '] + firstname;
    let t2 = t1 + seq![' '] + lastname;
    let t3 = t2 + seq![' '] + rcsid;
    let t4 = t3 + seq![' '] + standing;
    lemma_two_words(c, firstname);
    lemma_split_push_word(t1, lastname);
    lemma_split_push_word(t2, rcsid);
    lemma_split_push_word(t3, standing);
    assert(split_on_space(t4) =~= seq![c, firstname, lastname, rcsid, standing]);
}

/// `rfid_scan`, a space, and a card without spaces is a complete request that reads
/// as a scan of that card.
pub proof fn lemma_scan_text_reads_back(card: Seq<char>)
    requires
        space_free(card),
    ensures
        request_complete("rfid_scan "@ + card),
        parsed_request("rfid_scan "@ + card) == (RequestView::RfidScan { rfid: card }),
{
    reveal_strlit("rfid_scan ");
    reveal_strlit("rfid_scan");
    reveal_strlit("hello");
    reveal_strlit("pressed_a_button");
    reveal_strlit("test_message");
    reveal_strlit("get_in_shop");
    reveal_strlit("get_all_timestamps");
    reveal_strlit("add_to_shop");
    reveal_strlit("remove_from_shop");
    let command = "rfid_scan"@;
    assert(space_free(command));
    assert("rfid_scan "@ =~= command.push(' '));
    lemma_split_word(command);
    lemma_split_append_space(command);
    lemma_split_append_word(command.push(' '), card);
    let w = split_on_space("rfid_scan "@ + card);
    assert(seq![command].push(Seq::<char>::empty()) =~= seq![command, Seq::<char>::empty()]);
    assert(Seq::<char>::empty() + card =~= card);
    assert(w =~= seq![command, card]);
    assert(w[0] == command);
    assert(command != "hello"@);
    assert(command != "pressed_a_button"@);
    assert(command != "test_message"@);
    assert(command != "get_in_shop"@);
    assert(command != "get_all_timestamps"@);
    assert(command != "add_to_shop"@);
    assert(command != "remove_from_shop"@);
}

/// The text that the card-reader loop sends for a card is always a complete request,
/// and it reads back as a scan of that card, its id in decimal.
pub proof fn lemma_scan_request_reads_back(id: nat)
    ensures
        request_complete(scan_request(id)),
        parsed_request(scan_request(id)) == (RequestView::RfidScan { rfid: decimal(id) }),
{
    lemma_decimal_space_free(id);
    lemma_scan_text_reads_back(decimal(id));
}

} // verus!
