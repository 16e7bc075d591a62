//! What the card reader reports, and the loop that turns its reports into scans:
//! a card is scanned once when it is laid on the reader, not once per report.

use vstd::prelude::*;
use crate::data_types::WebsocketOutgoingMessage;

verus! {

/// One report of the card reader.
pub struct ReaderData {
    pub message_type: u8,
    pub length: u32,
    pub slot: u8,
    pub seq: u8,
    /// 0 while a card is on the reader.
    pub status: u8,
    pub error: u8,
    pub chain_parameter: u8,
    /// Whether the card's id was read.
    pub valid: bool,
    /// The card's id.
    pub id: u64,
    pub adpu_status: u16,
}

/// The byte at `k` of `s`, or 0 past its end.
pub open spec fn byte_or_zero(s: Seq<u8>, k: int) -> int {
    if 0 <= k < s.len() {
        s[k] as int
    } else {
        0
    }
}

/// The number that the first eight bytes of `s` write, least significant first
/// (missing bytes count as 0).
pub open spec fn little_endian_u64(s: Seq<u8>) -> int {
    byte_or_zero(s, 0) + 0x100 * byte_or_zero(s, 1) + 0x1_0000 * byte_or_zero(s, 2)
        + 0x100_0000 * byte_or_zero(s, 3) + 0x1_0000_0000 * byte_or_zero(s, 4)
        + 0x100_0000_0000 * byte_or_zero(s, 5) + 0x1_0000_0000_0000 * byte_or_zero(s, 6)
        + 0x100_0000_0000_0000 * byte_or_zero(s, 7)
}

/// The report in a reply of the reader: the ten-byte header (message type, data
/// length little-endian, slot, sequence number, status, error, chain parameter),
/// then the data. The data's last two bytes, when it has two, are the status word
/// (big-endian); the bytes before them are the card's id, least significant first.
/// The id was read when the status word is `90 00`. A reply shorter than its header
/// holds no report.
pub open spec fn reply_report(b: Seq<u8>) -> Option<ReaderData> {
    if b.len() < 10 {
        None
    } else {
        let data = b.skip(10);
        let has_status_word = data.len() >= 2;
        let uid = if has_status_word {
            data.take(data.len() - 2)
        } else {
            data
        };
        let adpu: int = if has_status_word {
            data[data.len() - 2] as int * 0x100 + data[data.len() - 1] as int
        } else {
            0
        };
        Some(
            ReaderData {
                message_type: b[0],
                length: (b[1] as int + 0x100 * b[2] as int + 0x1_0000 * b[3] as int + 0x100_0000
                    * b[4] as int) as u32,
                slot: b[5],
                seq: b[6],
                status: b[7],
                error: b[8],
                chain_parameter: b[9],
                valid: adpu == 0x9000,
                id: little_endian_u64(uid) as u64,
                adpu_status: adpu as u16,
            },
        )
    }
}

fn byte_at(s: &[u8], start: usize, end: usize, k: usize) -> (v: u64)
    requires
        start <= end <= s@.len(),
    ensures
        v == byte_or_zero(s@.subrange(start as int, end as int), k as int),
{
    if k < end - start {
        s[start + k] as u64
    } else {
        0
    }
}

impl ReaderData {
    /// Reads the report in a reply of the reader (see [`reply_report`]).
    pub fn from_reply(b: &[u8]) -> (r: Option<ReaderData>)
        ensures
            r == reply_report(b@),
    {
        if b.len() < 10 {
            return None;
        }
        let n = b.len();
        let has_status_word = n - 10 >= 2;
        let uid_end = if has_status_word {
            n - 2
        } else {
            n
        };
        let adpu: u16 = if has_status_word {
            (b[n - 2] as u16) * 256 + (b[n - 1] as u16)
        } else {
            0
        };
        let length: u32 = (b[1] as u32) + (b[2] as u32) * 0x100 + (b[3] as u32) * 0x1_0000
            + (b[4] as u32) * 0x100_0000;
        let id: u64 = byte_at(b, 10, uid_end, 0) + byte_at(b, 10, uid_end, 1) * 0x100 + byte_at(
            b,
            10,
            uid_end,
            2,
        ) * 0x1_0000 + byte_at(b, 10, uid_end, 3) * 0x100_0000 + byte_at(b, 10, uid_end, 4)
            * 0x1_0000_0000 + byte_at(b, 10, uid_end, 5) * 0x100_0000_0000 + byte_at(
            b,
            10,
            uid_end,
            6,
        ) * 0x1_0000_0000_0000 + byte_at(b, 10, uid_end, 7) * 0x100_0000_0000_0000;
        proof {
            let data = b@.skip(10);
            if has_status_word {
                assert(data.take(data.len() - 2) =~= b@.subrange(10, uid_end as int));
                assert(data[data.len() - 2] == b@[n - 2]);
                assert(data[data.len() - 1] == b@[n - 1]);
            } else {
                assert(data =~= b@.subrange(10, uid_end as int));
            }
        }
        Some(
            ReaderData {
                message_type: b[0],
                length,
                slot: b[5],
                seq: b[6],
                status: b[7],
                error: b[8],
                chain_parameter: b[9],
                valid: adpu == 0x9000,
                id,
                adpu_status: adpu,
            },
        )
    }
}

/// The state of the card-reader loop: the id of the card last scanned and whether a
/// card is still on the reader since then.
pub struct ScannerState {
    pub last_id: u64,
    pub still_reading: bool,
}

impl ScannerState {
    /// The state of a loop that has not scanned any card.
    pub fn new() -> (s: ScannerState)
        ensures
            s.last_id == 0,
            !s.still_reading,
    {
        ScannerState { last_id: 0, still_reading: false }
    }

    /// The states that the loop reaches: a card is recorded exactly while one is on
    /// the reader.
    pub open spec fn well_formed(&self) -> bool {
        &&& self.still_reading <==> self.last_id != 0
    }

    /// The card that a report makes the loop scan, if any: a card that is on the
    /// reader, read, different from the last one scanned, while no card is recorded
    /// as still on the reader.
    pub open spec fn scans(&self, data: ReaderData) -> Option<u64> {
        if data.status == 0 && data.valid && self.last_id != data.id && !self.still_reading {
            Some(data.id)
        } else {
            None
        }
    }

    /// The state after a report: a scanned card is recorded as on the reader; a report
    /// without a card on the reader clears the record; any other report changes
    /// nothing.
    pub open spec fn after(&self, data: ReaderData) -> ScannerState {
        if data.status != 0 {
            ScannerState { last_id: 0, still_reading: false }
        } else if self.scans(data) is Some {
            ScannerState { last_id: data.id, still_reading: true }
        } else {
            *self
        }
    }

    /// Takes one report of the reader into account. Returns the id of the card to
    /// scan, if this report scans one: the card is then recorded as on the reader.
    /// A report without a card on the reader clears the record.
    pub fn observe(&mut self, data: &ReaderData) -> (scanned: Option<u64>)
        ensures
            scanned == old(self).scans(*data),
            *final(self) == old(self).after(*data),
    {
        if data.status == 0 {
            if data.valid && self.last_id != data.id && !self.still_reading {
                self.still_reading = true;
                self.last_id = data.id;
                Some(data.id)
            } else {
                None
            }
        } else {
            self.still_reading = false;
            self.last_id = 0;
            None
        }
    }
}

/// The message sent to every browser when a card is scanned, before the scan is
/// handled.
pub fn parsing_notice() -> (m: WebsocketOutgoingMessage)
    ensures
        m.msgtype@ == "parsing"@,
        m.message@ == ""@,
{
    WebsocketOutgoingMessage::new("parsing", "")
}

/// The loop keeps its states well formed: it starts well formed, every report keeps
/// it so, and it never scans a card with id 0.
pub proof fn lemma_observe_keeps_well_formed(s: ScannerState, data: ReaderData)
    requires
        s.well_formed(),
    ensures
        (ScannerState { last_id: 0, still_reading: false }).well_formed(),
        s.after(data).well_formed(),
        s.scans(data) matches Some(id) ==> id != 0,
{
}

/// A card is scanned at most once while it stays on the reader: after a report
/// scans a card, no report scans one until a report without a card on the reader
/// comes.
pub proof fn lemma_one_scan_per_card(s: ScannerState, data: ReaderData, later: ReaderData)
    requires
        s.well_formed(),
        s.scans(data) is Some,
        later.status == 0,
    ensures
        s.after(data).scans(later) is None,
        s.after(data).after(later) == s.after(data),
{
}

/// After a report without a card on the reader, the next card laid on it is scanned,
/// whatever card was scanned before.
pub proof fn lemma_removal_rearms(s: ScannerState, gone: ReaderData, next: ReaderData)
    requires
        gone.status != 0,
        next.status == 0,
        next.valid,
        next.id != 0,
    ensures
        s.after(gone).scans(next) == Some(next.id),
{
}

/// A report makes the loop scan only a card that lies on the reader and was read,
/// and only that card; and while no card is recorded, every such card with a non-zero
/// id is scanned.
pub proof fn lemma_scans_only_read_cards(s: ScannerState, data: ReaderData)
    requires
        s.well_formed(),
    ensures
        s.scans(data) matches Some(id) ==> data.status == 0 && data.valid && id == data.id
            && !s.still_reading,
        !s.still_reading && data.status == 0 && data.valid && data.id != 0 ==> s.scans(data)
            == Some(data.id),
        s.still_reading ==> s.scans(data) is None,
{
}

/// The number that the bytes of `s` write, least significant first.
pub open spec fn le_number(s: Seq<u8>) -> nat
    decreases s.len(),
{
    if s.len() == 0 {
        0
    } else {
        s[0] as nat + 256 * le_number(s.drop_first())
    }
}

proof fn lemma_little_endian_u64(s: Seq<u8>)
    requires
        s.len() <= 8,
    ensures
        little_endian_u64(s) == le_number(s),
    decreases s.len(),
{
    if s.len() > 0 {
        let t = s.drop_first();
        lemma_little_endian_u64(t);
        assert forall|k: int| 0 <= k < 8 implies byte_or_zero(s, k + 1) == byte_or_zero(t, k) by {}
        assert(byte_or_zero(t, 7) == 0);
        assert(byte_or_zero(s, 0) == s[0] as int);
    }
}

/// A reply made of a ten-byte header, the card's id in `k <= 8` bytes and a two-byte
/// status word gives the report whose header fields are the header's bytes, whose id
/// is the number that all `k` id bytes write (least significant first), whose status
/// word is the two last bytes, and whose id counts as read exactly when they are
/// `90 00`.
pub proof fn lemma_reply_with_id(header: Seq<u8>, uid: Seq<u8>, sw1: u8, sw2: u8)
    requires
        header.len() == 10,
        uid.len() <= 8,
    ensures
        ({
            let r = reply_report(header + uid + seq![sw1, sw2]);
            &&& r is Some
            &&& r->0.message_type == header[0]
            &&& r->0.length as int == header[1] as int + 256 * header[2] as int + 65536
                * header[3] as int + 16777216 * header[4] as int
            &&& r->0.slot == header[5]
            &&& r->0.seq == header[6]
            &&& r->0.status == header[7]
            &&& r->0.error == header[8]
            &&& r->0.chain_parameter == header[9]
            &&& r->0.id as nat == le_number(uid)
            &&& r->0.adpu_status as int == 256 * sw1 as int + sw2 as int
            &&& r->0.valid == (sw1 == 0x90 && sw2 == 0)
        }),
{
    let b = header + uid + seq![sw1, sw2];
    let data = b.skip(10);
    assert(data =~= uid + seq![sw1, sw2]);
    assert(data.take(data.len() - 2) =~= uid);
    lemma_little_endian_u64(uid);
}

} // verus!
