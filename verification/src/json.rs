//! The JSON texts that the server sends: a message to the browsers, and the lists of
//! people in the shop and of sign-in log entries that such a message may carry.

use vstd::prelude::*;
use crate::data_types::{JoinedPersonInShop, JoinedTimestamp, OutgoingView, WebsocketOutgoingMessage};

verus! {

/// The lowercase hexadecimal digit `d` (`d < 16`).
pub open spec fn hex_digit(d: nat) -> char {
    if d < 10 {
        (d + 48) as char
    } else {
        (d + 87) as char
    }
}

/// How a JSON string literal writes the character `c`: quote and backslash behind a
/// backslash; backspace, tab, line feed, form feed and carriage return by their short
/// escapes; the other characters below U+0020 as `\u00` and two lowercase hex digits;
/// every other character as itself.
pub open spec fn json_escape_char(c: char) -> Seq<char> {
    let code = c as nat;
    if c == '"' {
        seq!['\\', '"']
    } else if c == '\\' {
        seq!['\\', '\\']
    } else if code == 8 {
        seq!['\\', 'b']
    } else if code == 9 {
        seq!['\\', 't']
    } else if code == 10 {
        seq!['\\', 'n']
    } else if code == 12 {
        seq!['\\', 'f']
    } else if code == 13 {
        seq!['\\', 'r']
    } else if code < 32 {
        seq!['\\', 'u', '0', '0', hex_digit(code / 16), hex_digit(code % 16)]
    } else {
        seq![c]
    }
}

/// The characters of `s`, each written as a JSON string literal writes it.
pub open spec fn json_escape(s: Seq<char>) -> Seq<char>
    decreases s.len(),
{
    if s.len() == 0 {
        Seq::<char>::empty()
    } else {
        json_escape_char(s[0]) + json_escape(s.drop_first())
    }
}

/// `s` as a JSON string literal.
pub open spec fn json_string(s: Seq<char>) -> Seq<char> {
    seq!['"'] + json_escape(s) + seq!['"']
}

/// `true` or `false` as JSON writes them.
pub open spec fn json_bool(b: bool) -> Seq<char> {
    if b {
        seq!['t', 'r', 'u', 'e']
    } else {
        seq!['f', 'a', 'l', 's', 'e']
    }
}

/// The texts in `items`, separated by commas.
pub open spec fn comma_join(items: Seq<Seq<char>>) -> Seq<char>
    decreases items.len(),
{
    if items.len() == 0 {
        Seq::<char>::empty()
    } else if items.len() == 1 {
        items[0]
    } else {
        comma_join(items.drop_last()) + seq![','] + items.last()
    }
}

/// A JSON array of the given encoded items, without whitespace.
pub open spec fn json_array(items: Seq<Seq<char>>) -> Seq<char> {
    seq!['['] + comma_join(items) + seq![']']
}

/// A JSON object member `"name":value` (the name needs no escaping).
pub open spec fn member(name: Seq<char>, value: Seq<char>) -> Seq<char> {
    seq!['"'] + name + seq!['"', ':'] + value
}

/// A message to the browsers as a JSON object, its fields in declaration order and
/// without whitespace.
pub open spec fn outgoing_json(msgtype: Seq<char>, message: Seq<char>) -> Seq<char> {
    seq!['{'] + member("msgtype"@, json_string(msgtype)) + seq![','] + member(
        "message"@,
        json_string(message),
    ) + seq!['}']
}

/// A person in the shop as a JSON object.
pub open spec fn person_in_shop_json(
    rcsid: Seq<char>,
    firstname: Seq<char>,
    lastname: Seq<char>,
    timestamp: Seq<char>,
) -> Seq<char> {
    seq!['{'] + member("rcsid"@, json_string(rcsid)) + seq![','] + member(
        "firstname"@,
        json_string(firstname),
    ) + seq![','] + member("lastname"@, json_string(lastname)) + seq![','] + member(
        "timestamp"@,
        json_string(timestamp),
    ) + seq!['}']
}

/// A sign-in log entry as a JSON object.
pub open spec fn timestamp_json(
    rcsid: Seq<char>,
    firstname: Seq<char>,
    lastname: Seq<char>,
    entering: bool,
    timestamp: Seq<char>,
) -> Seq<char> {
    seq!['{'] + member("rcsid"@, json_string(rcsid)) + seq![','] + member(
        "firstname"@,
        json_string(firstname),
    ) + seq![','] + member("lastname"@, json_string(lastname)) + seq![','] + member(
        "entering"@,
        json_bool(entering),
    ) + seq![','] + member("timestamp"@, json_string(timestamp)) + seq!['}']
}

/// The JSON text of a list of people in the shop.
pub open spec fn people_in_shop_json(rows: Seq<JoinedPersonInShop>) -> Seq<char> {
    json_array(
        rows.map_values(
            |p: JoinedPersonInShop|
                person_in_shop_json(p.rcsid@, p.firstname@, p.lastname@, p.timestamp@),
        ),
    )
}

/// The JSON text of a list of sign-in log entries.
pub open spec fn timestamps_json(rows: Seq<JoinedTimestamp>) -> Seq<char> {
    json_array(
        rows.map_values(
            |t: JoinedTimestamp|
                timestamp_json(t.rcsid@, t.firstname@, t.lastname@, t.entering, t.timestamp@),
        ),
    )
}

/// Joining with commas: no item gives the empty text, one item gives itself, and one
/// more item after a non-empty list adds a comma and that item. These three facts
/// determine the joined text of every list, so a list of `n` encoded records is
/// written as the `n` encodings in order with a comma between each two.
pub proof fn lemma_comma_join(items: Seq<Seq<char>>, x: Seq<char>)
    ensures
        comma_join(Seq::<Seq<char>>::empty()) == Seq::<char>::empty(),
        comma_join(seq![x]) == x,
        items.len() >= 1 ==> comma_join(items.push(x)) == comma_join(items) + seq![','] + x,
{
    assert(seq![x][0] == x);
    assert(items.push(x).drop_last() =~= items);
    assert(items.push(x).last() == x);
}

/// The value of a hexadecimal digit, either case.
pub open spec fn hex_value(c: char) -> Option<nat> {
    let code = c as nat;
    if 48 <= code <= 57 {
        Some((code - 48) as nat)
    } else if 97 <= code <= 102 {
        Some((code - 87) as nat)
    } else if 65 <= code <= 70 {
        Some((code - 55) as nat)
    } else {
        None
    }
}

/// The character that the short escape `\e` stands for, if `e` names one.
pub open spec fn short_unescape(e: char) -> Option<char> {
    if e == '"' {
        Some('"')
    } else if e == '\\' {
        Some('\\')
    } else if e == '/' {
        Some('/')
    } else if e == 'b' {
        Some('\u{8}')
    } else if e == 'f' {
        Some('\u{c}')
    } else if e == 'n' {
        Some('\n')
    } else if e == 'r' {
        Some('\r')
    } else if e == 't' {
        Some('\t')
    } else {
        None
    }
}

/// The code of the four hex digits `t[2..6]` of a `\u` escape, if they are hex digits.
pub open spec fn unicode_escape_code(t: Seq<char>) -> Option<nat> {
    match (hex_value(t[2]), hex_value(t[3]), hex_value(t[4]), hex_value(t[5])) {
        (Some(a), Some(b), Some(c), Some(d)) => Some(a * 4096 + b * 256 + c * 16 + d),
        _ => None,
    }
}

/// Prepends `c` to what the rest of a string body reads as.
pub open spec fn read_with(c: char, r: Option<(Seq<char>, Seq<char>)>) -> Option<(Seq<char>, Seq<char>)> {
    match r {
        Some((s, rest)) => Some((seq![c] + s, rest)),
        None => None,
    }
}

/// Reads the body of a JSON string literal (the text after its opening quote): the
/// characters that it stands for and the text after its closing quote, or `None` when
/// the text is no such body. Raw control characters are refused; `\u` escapes of
/// surrogate halves (which this library never writes) are not read.
pub open spec fn read_json_string_body(t: Seq<char>) -> Option<(Seq<char>, Seq<char>)>
    decreases t.len(),
{
    if t.len() == 0 {
        None
    } else if t[0] == '"' {
        Some((Seq::<char>::empty(), t.drop_first()))
    } else if t[0] == '\\' {
        if t.len() < 2 {
            None
        } else if short_unescape(t[1]) is Some {
            read_with(short_unescape(t[1])->0, read_json_string_body(t.skip(2)))
        } else if t[1] == 'u' && t.len() >= 6 && unicode_escape_code(t) is Some {
            let code = unicode_escape_code(t)->0;
            if 0xD800 <= code <= 0xDFFF {
                None
            } else {
                read_with(code as char, read_json_string_body(t.skip(6)))
            }
        } else {
            None
        }
    } else if (t[0] as nat) < 32 {
        None
    } else {
        read_with(t[0], read_json_string_body(t.drop_first()))
    }
}

/// Reads `text` as a JSON string literal followed by `rest`.
pub open spec fn read_json_string(text: Seq<char>) -> Option<(Seq<char>, Seq<char>)> {
    if text.len() >= 1 && text[0] == '"' {
        read_json_string_body(text.drop_first())
    } else {
        None
    }
}

/// Reads `text` as `lit` followed by something; gives that something.
pub open spec fn after_literal(text: Seq<char>, lit: Seq<char>) -> Option<Seq<char>> {
    if text.len() >= lit.len() && text.take(lit.len() as int) == lit {
        Some(text.skip(lit.len() as int))
    } else {
        None
    }
}

/// Reads a message to the browsers back from its JSON text (written without
/// whitespace, `msgtype` first): its kind and its payload.
pub open spec fn read_outgoing_json(text: Seq<char>) -> Option<OutgoingView> {
    match after_literal(text, seq!['{'] + "\"msgtype\":"@) {
        Some(t1) => match read_json_string(t1) {
            Some((msgtype, t2)) => match after_literal(t2, seq![','] + "\"message\":"@) {
                Some(t3) => match read_json_string(t3) {
                    Some((message, t4)) => if t4 == seq!['}'] {
                        Some(OutgoingView { msgtype, message })
                    } else {
                        None
                    },
                    None => None,
                },
                None => None,
            },
            None => None,
        },
        None => None,
    }
}

/// One escaped character followed by more of a body reads as that character and what
/// the rest reads as.
proof fn lemma_escaped_char_reads_back(c: char, after: Seq<char>)
    ensures
        read_json_string_body(json_escape_char(c) + after) == read_with(
            c,
            read_json_string_body(after),
        ),
{
    let e = json_escape_char(c);
    let t = e + after;
    let code = c as nat;
    assert(((c as nat) as char) == c);
    if c == '"' || c == '\\' {
        assert(t.skip(2) =~= after);
        assert(t[0] == '\\' && t[1] == c);
    } else if code == 8 {
        assert(c == '\u{8}');
        assert(t.skip(2) =~= after);
        assert(t[0] == '\\' && t[1] == 'b');
    } else if code == 9 {
        assert(c == '\t');
        assert(t.skip(2) =~= after);
        assert(t[0] == '\\' && t[1] == 't');
    } else if code == 10 {
        assert(c == '\n');
        assert(t.skip(2) =~= after);
        assert(t[0] == '\\' && t[1] == 'n');
    } else if code == 12 {
        assert(c == '\u{c}');
        assert(t.skip(2) =~= after);
        assert(t[0] == '\\' && t[1] == 'f');
    } else if code == 13 {
        assert(c == '\r');
        assert(t.skip(2) =~= after);
        assert(t[0] == '\\' && t[1] == 'r');
    } else if code < 32 {
        assert(t.skip(6) =~= after);
        assert(t[0] == '\\' && t[1] == 'u');
        assert(t[2] == '0' && t[3] == '0');
        assert(hex_value(t[4]) == Some(code / 16));
        assert(hex_value(t[5]) == Some(code % 16));
        assert(unicode_escape_code(t) == Some(code));
    } else {
        assert(t[0] == c);
        assert(t.drop_first() =~= after);
    }
}

/// An escaped string body, its closing quote and any rest read back as the string and
/// the rest.
pub proof fn lemma_json_string_body_reads_back(s: Seq<char>, rest: Seq<char>)
    ensures
        read_json_string_body(json_escape(s) + seq!['"'] + rest) == Some((s, rest)),
    decreases s.len(),
{
    let t = json_escape(s) + seq!['"'] + rest;
    if s.len() == 0 {
        assert(t =~= seq!['"'] + rest);
        assert(t.drop_first() =~= rest);
    } else {
        let c = s[0];
        let tail = s.drop_first();
        lemma_json_string_body_reads_back(tail, rest);
        let after = json_escape(tail) + seq!['"'] + rest;
        assert(t =~= json_escape_char(c) + after);
        lemma_escaped_char_reads_back(c, after);
        assert(seq![c] + tail =~= s);
    }
}

/// A JSON string literal followed by a rest reads back as the string and the rest.
pub proof fn lemma_json_string_reads_back(s: Seq<char>, rest: Seq<char>)
    ensures
        read_json_string(json_string(s) + rest) == Some((s, rest)),
{
    lemma_json_string_body_reads_back(s, rest);
    assert((json_string(s) + rest).drop_first() =~= json_escape(s) + seq!['"'] + rest);
}

/// The JSON text of a message reads back as the message: whatever its kind and payload
/// hold (quotes, backslashes, control characters, any other character), the text
/// determines them. So two messages with the same text are the same message.
pub proof fn lemma_outgoing_json_reads_back(msgtype: Seq<char>, message: Seq<char>)
    ensures
        read_outgoing_json(outgoing_json(msgtype, message)) == Some(
            OutgoingView { msgtype, message },
        ),
        forall|t2: Seq<char>, m2: Seq<char>|
            outgoing_json(t2, m2) == outgoing_json(msgtype, message) ==> t2 == msgtype && m2
                == message,
{
    lemma_outgoing_json_reads_back_once(msgtype, message);
    assert forall|t2: Seq<char>, m2: Seq<char>|
        outgoing_json(t2, m2) == outgoing_json(msgtype, message) implies t2 == msgtype && m2
        == message by {
        lemma_outgoing_json_reads_back_once(t2, m2);
    }
}

proof fn lemma_outgoing_json_reads_back_once(msgtype: Seq<char>, message: Seq<char>)
    ensures
        read_outgoing_json(outgoing_json(msgtype, message)) == Some(
            OutgoingView { msgtype, message },
        ),
{
    reveal_strlit("msgtype");
    reveal_strlit("message");
    reveal_strlit("\"msgtype\":");
    reveal_strlit("\"message\":");
    let text = outgoing_json(msgtype, message);
    let p1 = seq!['{'] + "\"msgtype\":"@;
    let p2 = seq![','] + "\"message\":"@;
    let t1 = json_string(msgtype) + p2 + json_string(message) + seq!['}'];
    let t3 = json_string(message) + seq!['}'];
    assert(text =~= p1 + t1);
    assert(text.take(p1.len() as int) =~= p1);
    assert(text.skip(p1.len() as int) =~= t1);
    lemma_json_string_reads_back(msgtype, p2 + t3);
    assert(t1 =~= json_string(msgtype) + (p2 + t3));
    assert((p2 + t3).take(p2.len() as int) =~= p2);
    assert((p2 + t3).skip(p2.len() as int) =~= t3);
    lemma_json_string_reads_back(message, seq!['}']);
}

/// Reads `text` as the member `"name":` with a string value, followed by a rest: the
/// value and the rest.
pub open spec fn read_string_member(text: Seq<char>, name: Seq<char>) -> Option<(Seq<char>, Seq<char>)> {
    match after_literal(text, seq!['"'] + name + seq!['"', ':']) {
        Some(t) => read_json_string(t),
        None => None,
    }
}

/// Reads `text` as the member `"name":` with a boolean value, followed by a rest.
pub open spec fn read_bool_member(text: Seq<char>, name: Seq<char>) -> Option<(bool, Seq<char>)> {
    match after_literal(text, seq!['"'] + name + seq!['"', ':']) {
        Some(t) => match after_literal(t, seq!['t', 'r', 'u', 'e']) {
            Some(rest) => Some((true, rest)),
            None => match after_literal(t, seq!['f', 'a', 'l', 's', 'e']) {
                Some(rest) => Some((false, rest)),
                None => None,
            },
        },
        None => None,
    }
}

/// Reads `text` as a comma followed by a string member.
pub open spec fn read_next_string_member(text: Seq<char>, name: Seq<char>) -> Option<
    (Seq<char>, Seq<char>),
> {
    match after_literal(text, seq![',']) {
        Some(t) => read_string_member(t, name),
        None => None,
    }
}

/// Reads a person in the shop back from their JSON object: RCS id, first name, last
/// name and timestamp.
pub open spec fn read_person_in_shop_json(text: Seq<char>) -> Option<
    (Seq<char>, Seq<char>, Seq<char>, Seq<char>),
> {
    match after_literal(text, seq!['{']) {
        Some(t0) => match read_string_member(t0, "rcsid"@) {
            Some((rcsid, t1)) => match read_next_string_member(t1, "firstname"@) {
                Some((firstname, t2)) => match read_next_string_member(t2, "lastname"@) {
                    Some((lastname, t3)) => match read_next_string_member(t3, "timestamp"@) {
                        Some((timestamp, t4)) => if t4 == seq!['}'] {
                            Some((rcsid, firstname, lastname, timestamp))
                        } else {
                            None
                        },
                        None => None,
                    },
                    None => None,
                },
                None => None,
            },
            None => None,
        },
        None => None,
    }
}

/// Reads a sign-in log entry back from its JSON object: RCS id, first name, last name,
/// direction and timestamp.
pub open spec fn read_timestamp_json(text: Seq<char>) -> Option<
    (Seq<char>, Seq<char>, Seq<char>, bool, Seq<char>),
> {
    match after_literal(text, seq!['{']) {
        Some(t0) => match read_string_member(t0, "rcsid"@) {
            Some((rcsid, t1)) => match read_next_string_member(t1, "firstname"@) {
                Some((firstname, t2)) => match read_next_string_member(t2, "lastname"@) {
                    Some((lastname, t3)) => match after_literal(t3, seq![',']) {
                        Some(t4) => match read_bool_member(t4, "entering"@) {
                            Some((entering, t5)) => match read_next_string_member(
                                t5,
                                "timestamp"@,
                            ) {
                                Some((timestamp, t6)) => if t6 == seq!['}'] {
                                    Some((rcsid, firstname, lastname, entering, timestamp))
                                } else {
                                    None
                                },
                                None => None,
                            },
                            None => None,
                        },
                        None => None,
                    },
                    None => None,
                },
                None => None,
            },
            None => None,
        },
        None => None,
    }
}

proof fn lemma_after_literal(lit: Seq<char>, rest: Seq<char>)
    ensures
        after_literal(lit + rest, lit) == Some(rest),
{
    assert((lit + rest).take(lit.len() as int) =~= lit);
    assert((lit + rest).skip(lit.len() as int) =~= rest);
}

proof fn lemma_string_member_reads_back(name: Seq<char>, v: Seq<char>, rest: Seq<char>)
    ensures
        read_string_member(member(name, json_string(v)) + rest, name) == Some((v, rest)),
        read_next_string_member(seq![','] + member(name, json_string(v)) + rest, name) == Some(
            (v, rest),
        ),
{
    let prefix = seq!['"'] + name + seq!['"', ':'];
    assert(member(name, json_string(v)) + rest =~= prefix + (json_string(v) + rest));
    lemma_after_literal(prefix, json_string(v) + rest);
    lemma_json_string_reads_back(v, rest);
    assert(seq![','] + member(name, json_string(v)) + rest =~= seq![','] + (member(
        name,
        json_string(v),
    ) + rest));
    lemma_after_literal(seq![','], member(name, json_string(v)) + rest);
}

/// The JSON object of a person in the shop reads back as their RCS id, first name,
/// last name and timestamp, whatever characters these hold.
pub proof fn lemma_person_in_shop_json_reads_back(
    rcsid: Seq<char>,
    firstname: Seq<char>,
    lastname: Seq<char>,
    timestamp: Seq<char>,
)
    ensures
        read_person_in_shop_json(person_in_shop_json(rcsid, firstname, lastname, timestamp))
            == Some((rcsid, firstname, lastname, timestamp)),
{
    let m1 = member("rcsid"@, json_string(rcsid));
    let m2 = seq![','] + member("firstname"@, json_string(firstname));
    let m3 = seq![','] + member("lastname"@, json_string(lastname));
    let m4 = seq![','] + member("timestamp"@, json_string(timestamp));
    let close = seq!['}'];
    let text = person_in_shop_json(rcsid, firstname, lastname, timestamp);
    assert(text =~= seq!['{'] + (m1 + (m2 + (m3 + (m4 + close)))));
    lemma_after_literal(seq!['{'], m1 + (m2 + (m3 + (m4 + close))));
    lemma_string_member_reads_back("rcsid"@, rcsid, m2 + (m3 + (m4 + close)));
    assert(m2 + (m3 + (m4 + close)) =~= seq![','] + member("firstname"@, json_string(firstname))
        + (m3 + (m4 + close)));
    lemma_string_member_reads_back("firstname"@, firstname, m3 + (m4 + close));
    assert(m3 + (m4 + close) =~= seq![','] + member("lastname"@, json_string(lastname)) + (m4
        + close));
    lemma_string_member_reads_back("lastname"@, lastname, m4 + close);
    assert(m4 + close =~= seq![','] + member("timestamp"@, json_string(timestamp)) + close);
    lemma_string_member_reads_back("timestamp"@, timestamp, close);
    assert(m1 + (m2 + (m3 + (m4 + close))) =~= member("rcsid"@, json_string(rcsid)) + (m2 + (
    m3 + (m4 + close))));
}

proof fn lemma_bool_member_reads_back(name: Seq<char>, b: bool, rest: Seq<char>)
    ensures
        read_bool_member(member(name, json_bool(b)) + rest, name) == Some((b, rest)),
{
    let prefix = seq!['"'] + name + seq!['"', ':'];
    assert(member(name, json_bool(b)) + rest =~= prefix + (json_bool(b) + rest));
    lemma_after_literal(prefix, json_bool(b) + rest);
    lemma_after_literal(json_bool(b), rest);
    if !b {
        let t = json_bool(b) + rest;
        assert(t[0] == 'f');
        assert(t.take(4)[0] == 'f');
    }
}

/// The JSON object of a sign-in log entry reads back as its RCS id, first name, last
/// name, direction and timestamp.
#[verifier::rlimit(40)]
pub proof fn lemma_timestamp_json_reads_back(
    rcsid: Seq<char>,
    firstname: Seq<char>,
    lastname: Seq<char>,
    entering: bool,
    timestamp: Seq<char>,
)
    ensures
        read_timestamp_json(timestamp_json(rcsid, firstname, lastname, entering, timestamp))
            == Some((rcsid, firstname, lastname, entering, timestamp)),
{
    let m1 = member("rcsid"@, json_string(rcsid));
    let m2 = seq![','] + member("firstname"@, json_string(firstname));
    let m3 = seq![','] + member("lastname"@, json_string(lastname));
    let mb = member("entering"@, json_bool(entering));
    let m5 = seq![','] + member("timestamp"@, json_string(timestamp));
    let close = seq!['}'];
    let text = timestamp_json(rcsid, firstname, lastname, entering, timestamp);
    assert(text =~= seq!['{'] + (m1 + (m2 + (m3 + (seq![','] + (mb + (m5 + close)))))));
    lemma_after_literal(seq!['{'], m1 + (m2 + (m3 + (seq![','] + (mb + (m5 + close))))));
    lemma_string_member_reads_back("rcsid"@, rcsid, m2 + (m3 + (seq![','] + (mb + (m5 + close)))));
    assert(m2 + (m3 + (seq![','] + (mb + (m5 + close)))) =~= seq![','] + member(
        "firstname"@,
        json_string(firstname),
    ) + (m3 + (seq![','] + (mb + (m5 + close)))));
    lemma_string_member_reads_back("firstname"@, firstname, m3 + (seq![','] + (mb + (m5 + close))));
    assert(m3 + (seq![','] + (mb + (m5 + close))) =~= seq![','] + member(
        "lastname"@,
        json_string(lastname),
    ) + (seq![','] + (mb + (m5 + close))));
    lemma_string_member_reads_back("lastname"@, lastname, seq![','] + (mb + (m5 + close)));
    lemma_after_literal(seq![','], mb + (m5 + close));
    lemma_bool_member_reads_back("entering"@, entering, m5 + close);
    assert(m5 + close =~= seq![','] + member("timestamp"@, json_string(timestamp)) + close);
    lemma_string_member_reads_back("timestamp"@, timestamp, close);
    assert(m1 + (m2 + (m3 + (seq![','] + (mb + (m5 + close))))) =~= member(
        "rcsid"@,
        json_string(rcsid),
    ) + (m2 + (m3 + (seq![','] + (mb + (m5 + close))))));
}

#[verifier::external_type_specification]
#[verifier::external_body]
pub struct ExJsonError(serde_json::Error);

/// Calls `serde_json::to_string` on a string slice. Its source writes the slice into a
/// `Vec<u8>` through `format_escaped_str`: a quote, each byte that its `ESCAPE` table
/// marks replaced by its escape (`\"`, `\\`, `\b`, `\t`, `\n`, `\f`, `\r`, or `\u00`
/// and two lowercase hex digits for the other bytes below 0x20), the other bytes as
/// they are, and a closing quote. Writing to a `Vec` cannot fail, so neither can the
/// call. The contract claims exactly that: the result is `Ok` and holds `json_string`
/// of the slice.
#[verifier::external_body]
fn serde_json_quote(s: &str) -> (r: Result<String, serde_json::Error>)
    ensures
        r is Ok,
        r matches Ok(t) ==> t@ == json_string(s@),
{
    serde_json::to_string(s)
}

/// `s` as a JSON string literal.
pub fn json_quote(s: &str) -> (t: String)
    ensures
        t@ == json_string(s@),
{
    match serde_json_quote(s) {
        Ok(t) => t,
        Err(_) => {
            assert(false);
            String::new()
        },
    }
}

/// Appends the member `"name":` followed by `s` as a JSON string.
fn push_string_member(out: &mut String, name: &str, s: &str)
    ensures
        final(out)@ == old(out)@ + member(name@, json_string(s@)),
{
    out.append("\"");
    out.append(name);
    out.append("\":");
    let q = json_quote(s);
    out.append(q.as_str());
    proof {
        reveal_strlit("\"");
        reveal_strlit("\":");
    }
    assert(final(out)@ =~= old(out)@ + member(name@, json_string(s@)));
}

impl WebsocketOutgoingMessage {
    /// The message as the JSON text that is sent to the browsers.
    pub fn to_json(&self) -> (j: String)
        ensures
            j@ == outgoing_json(self.msgtype@, self.message@),
    {
        let mut out = String::from_str("{");
        push_string_member(&mut out, "msgtype", self.msgtype.as_str());
        out.append(",");
        push_string_member(&mut out, "message", self.message.as_str());
        out.append("}");
        proof {
            reveal_strlit("{");
            reveal_strlit(",");
            reveal_strlit("}");
        }
        assert(out@ =~= outgoing_json(self.msgtype@, self.message@));
        out
    }
}

fn person_in_shop_to_json(p: &JoinedPersonInShop) -> (j: String)
    ensures
        j@ == person_in_shop_json(p.rcsid@, p.firstname@, p.lastname@, p.timestamp@),
{
    let mut out = String::from_str("{");
    push_string_member(&mut out, "rcsid", p.rcsid.as_str());
    out.append(",");
    push_string_member(&mut out, "firstname", p.firstname.as_str());
    out.append(",");
    push_string_member(&mut out, "lastname", p.lastname.as_str());
    out.append(",");
    push_string_member(&mut out, "timestamp", p.timestamp.as_str());
    out.append("}");
    proof {
        reveal_strlit("{");
        reveal_strlit(",");
        reveal_strlit("}");
    }
    assert(out@ =~= person_in_shop_json(p.rcsid@, p.firstname@, p.lastname@, p.timestamp@));
    out
}

fn timestamp_to_json(t: &JoinedTimestamp) -> (j: String)
    ensures
        j@ == timestamp_json(t.rcsid@, t.firstname@, t.lastname@, t.entering, t.timestamp@),
{
    let mut out = String::from_str("{");
    push_string_member(&mut out, "rcsid", t.rcsid.as_str());
    out.append(",");
    push_string_member(&mut out, "firstname", t.firstname.as_str());
    out.append(",");
    push_string_member(&mut out, "lastname", t.lastname.as_str());
    out.append(",\"entering\":");
    if t.entering {
        out.append("true");
    } else {
        out.append("false");
    }
    out.append(",");
    push_string_member(&mut out, "timestamp", t.timestamp.as_str());
    out.append("}");
    proof {
        reveal_strlit("{");
        reveal_strlit(",");
        reveal_strlit("}");
        reveal_strlit(",\"entering\":");
        reveal_strlit("true");
        reveal_strlit("false");
        reveal_strlit("entering");
    }
    assert(out@ =~= timestamp_json(t.rcsid@, t.firstname@, t.lastname@, t.entering, t.timestamp@));
    out
}

/// The given encoded items as a JSON array.
fn json_array_text(items: &Vec<String>) -> (j: String)
    ensures
        j@ == json_array(items@.map_values(|s: String| s@)),
{
    let ghost texts = items@.map_values(|s: String| s@);
    let mut out = String::from_str("[");
    proof {
        reveal_strlit("[");
        assert(comma_join(texts.take(0)) =~= Seq::<char>::empty());
        assert(out@ =~= seq!['['] + comma_join(texts.take(0)));
    }
    let mut i: usize = 0;
    while i < items.len()
        invariant
            i <= items.len(),
            texts == items@.map_values(|s: String| s@),
            out@ == seq!['['] + comma_join(texts.take(i as int)),
        decreases items.len() - i,
    {
        if i > 0 {
            out.append(",");
        }
        out.append(items[i].as_str());
        proof {
            reveal_strlit(",");
            let next = texts.take(i + 1);
            assert(next.drop_last() =~= texts.take(i as int));
            assert(next.last() == items@[i as int]@);
            if i == 0 {
                assert(next.len() == 1);
                assert(comma_join(next) == next[0]);
            }
        }
        assert(out@ =~= seq!['['] + comma_join(texts.take(i + 1)));
        i = i + 1;
    }
    out.append("]");
    proof {
        reveal_strlit("[");
        reveal_strlit("]");
    }
    assert(texts.take(items.len() as int) =~= texts);
    assert(out@ =~= json_array(texts));
    out
}

/// The list of people in the shop as JSON.
pub fn people_in_shop_to_json(rows: &Vec<JoinedPersonInShop>) -> (j: String)
    ensures
        j@ == people_in_shop_json(rows@),
{
    let mut items: Vec<String> = Vec::new();
    let mut i: usize = 0;
    while i < rows.len()
        invariant
            i <= rows.len(),
            items@.map_values(|s: String| s@) =~= rows@.take(i as int).map_values(
                |p: JoinedPersonInShop| person_in_shop_json(p.rcsid@, p.firstname@, p.lastname@, p.timestamp@),
            ),
        decreases rows.len() - i,
    {
        let item = person_in_shop_to_json(&rows[i]);
        let ghost before = items@;
        items.push(item);
        assert(rows@.take(i + 1) =~= rows@.take(i as int).push(rows@[i as int]));
        assert(items@ =~= before.push(item));
        assert(items@.map_values(|s: String| s@) =~= before.map_values(|s: String| s@).push(item@));
        i = i + 1;
    }
    let j = json_array_text(&items);
    assert(rows@.take(rows.len() as int) =~= rows@);
    j
}

/// The list of sign-in log entries as JSON.
pub fn timestamps_to_json(rows: &Vec<JoinedTimestamp>) -> (j: String)
    ensures
        j@ == timestamps_json(rows@),
{
    let mut items: Vec<String> = Vec::new();
    let mut i: usize = 0;
    while i < rows.len()
        invariant
            i <= rows.len(),
            items@.map_values(|s: String| s@) =~= rows@.take(i as int).map_values(
                |t: JoinedTimestamp| timestamp_json(t.rcsid@, t.firstname@, t.lastname@, t.entering, t.timestamp@),
            ),
        decreases rows.len() - i,
    {
        let item = timestamp_to_json(&rows[i]);
        let ghost before = items@;
        items.push(item);
        assert(rows@.take(i + 1) =~= rows@.take(i as int).push(rows@[i as int]));
        assert(items@ =~= before.push(item));
        assert(items@.map_values(|s: String| s@) =~= before.map_values(|s: String| s@).push(item@));
        i = i + 1;
    }
    let j = json_array_text(&items);
    assert(rows@.take(rows.len() as int) =~= rows@);
    j
}

} // verus!
