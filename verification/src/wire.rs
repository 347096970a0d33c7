//! The text of an envelope on the wire: a JSON object with the members
//! `type`, `data`, `timestamp` and `sender_id`.
//!
//! The relay writes the members in that order and without white space, a
//! payload as it is held, and an absent payload or sender as `null`. It
//! reads any JSON object that has a string `type` and a `timestamp` that
//! fits 64 bits; `data` and `sender_id` may be missing or `null`, members
//! it does not know are passed over, and of a member that is written more
//! than once the last one counts.

use vstd::prelude::*;
use vstd::string::StringExecFns;
use crate::envelope::Envelope;
use crate::error::RelayError;
use crate::model::EnvelopeView;
use crate::payload::{
    json_as_string, json_as_u64, json_members, json_members_of, json_string, json_string_text,
    json_string_value, json_u64_value, member_texts, Members,
};

verus! {

/// The character of the decimal digit `d`.
pub open spec fn digit_char(d: nat) -> char {
    if d == 0 {
        '0'
    } else if d == 1 {
        '1'
    } else if d == 2 {
        '2'
    } else if d == 3 {
        '3'
    } else if d == 4 {
        '4'
    } else if d == 5 {
        '5'
    } else if d == 6 {
        '6'
    } else if d == 7 {
        '7'
    } else if d == 8 {
        '8'
    } else {
        '9'
    }
}

/// The decimal numeral of `n`, without leading zeros.
pub open spec fn decimal_text(n: nat) -> Seq<char>
    decreases n,
{
    if n < 10 {
        seq![digit_char(n)]
    } else {
        decimal_text(n / 10).push(digit_char(n % 10))
    }
}

/// `null`, or the text that is there.
pub open spec fn text_or_null(text: Option<Seq<char>>) -> Seq<char> {
    match text {
        Some(text) => text,
        None => "null"@,
    }
}

/// `null`, or the numeral of the number that is there.
pub open spec fn number_or_null(number: Option<u32>) -> Seq<char> {
    match number {
        Some(n) => decimal_text(n as nat),
        None => "null"@,
    }
}

/// The payload of a welcome: the object that holds the connection's id
/// under `client_id` and the server's time under `server_time`.
pub open spec fn welcome_payload_text(id: Seq<char>, server_time: u64) -> Seq<char> {
    "{\"client_id\":"@ + json_string_text(id) + ",\"server_time\":"@ + decimal_text(
        server_time as nat,
    ) + "}"@
}

/// The text of an envelope on the wire.
pub open spec fn envelope_text(msg: EnvelopeView) -> Seq<char> {
    "{\"type\":"@ + json_string_text(msg.msg_type) + ",\"data\":"@ + text_or_null(msg.data)
        + ",\"timestamp\":"@ + decimal_text(msg.timestamp as nat) + ",\"sender_id\":"@
        + number_or_null(msg.sender_id) + "}"@
}

/// The digit `d` as text.
fn digit_text(d: u64) -> (text: &'static str)
    requires
        d < 10,
    ensures
        text@ == seq![digit_char(d as nat)],
{
    proof {
        reveal_strlit("0");
        reveal_strlit("1");
        reveal_strlit("2");
        reveal_strlit("3");
        reveal_strlit("4");
        reveal_strlit("5");
        reveal_strlit("6");
        reveal_strlit("7");
        reveal_strlit("8");
        reveal_strlit("9");
    }
    let text = if d == 0 {
        "0"
    } else if d == 1 {
        "1"
    } else if d == 2 {
        "2"
    } else if d == 3 {
        "3"
    } else if d == 4 {
        "4"
    } else if d == 5 {
        "5"
    } else if d == 6 {
        "6"
    } else if d == 7 {
        "7"
    } else if d == 8 {
        "8"
    } else {
        "9"
    };
    assert(text@ =~= seq![digit_char(d as nat)]);
    text
}

/// Writes `n` in decimal.
pub fn decimal(n: u64) -> (text: String)
    ensures
        text@ == decimal_text(n as nat),
    decreases n,
{
    if n < 10 {
        digit_text(n).to_owned()
    } else {
        let mut text = decimal(n / 10);
        text.append(digit_text(n % 10));
        assert(text@ =~= decimal_text(n as nat));
        text
    }
}

/// Writes the payload of the welcome for connection `id`.
pub fn welcome_payload(id: &str, server_time: u64) -> (text: String)
    ensures
        text@ == welcome_payload_text(id@, server_time),
{
    let mut text = "{\"client_id\":".to_owned();
    text.append(json_string(id).as_str());
    text.append(",\"server_time\":");
    text.append(decimal(server_time).as_str());
    text.append("}");
    text
}

/// Writes the envelope `msg` as it goes over the wire.
pub fn encode_envelope(msg: &Envelope) -> (text: String)
    ensures
        text@ == envelope_text(msg@),
{
    let mut text = "{\"type\":".to_owned();
    text.append(json_string(msg.msg_type.as_str()).as_str());
    text.append(",\"data\":");
    match &msg.data {
        Some(payload) => text.append(payload.as_str()),
        None => text.append("null"),
    }
    text.append(",\"timestamp\":");
    text.append(decimal(msg.timestamp).as_str());
    text.append(",\"sender_id\":");
    match msg.sender_id {
        Some(sender) => text.append(decimal(sender as u64).as_str()),
        None => text.append("null"),
    }
    text.append("}");
    text
}

/// The text of the value under `key`: that of the first member with this
/// key.
pub open spec fn member(members: Members, key: Seq<char>) -> Option<Seq<char>>
    decreases members.len(),
{
    if members.len() == 0 {
        None
    } else if members[0].0 == key {
        Some(members[0].1)
    } else {
        member(members.drop_first(), key)
    }
}

/// The value under `key`, where there is one and it is not `null`.
pub open spec fn present(members: Members, key: Seq<char>) -> Option<Seq<char>> {
    match member(members, key) {
        Some(text) => if text == "null"@ {
            None
        } else {
            Some(text)
        },
        None => None,
    }
}

/// The sender that the members name: none where `sender_id` is missing or
/// `null`, the number where it fits 32 bits. `None` where the member holds
/// anything else.
pub open spec fn sender_of(members: Members) -> Option<Option<u32>> {
    match present(members, "sender_id"@) {
        None => Some(None),
        Some(text) => match json_u64_value(text) {
            Some(n) => if n <= u32::MAX {
                Some(Some(n as u32))
            } else {
                None
            },
            None => None,
        },
    }
}

/// The string under `type`.
pub open spec fn type_of(members: Members) -> Option<Seq<char>> {
    match member(members, "type"@) {
        Some(text) => json_string_value(text),
        None => None,
    }
}

/// The number under `timestamp`.
pub open spec fn timestamp_of(members: Members) -> Option<u64> {
    match member(members, "timestamp"@) {
        Some(text) => json_u64_value(text),
        None => None,
    }
}

/// The envelope that the members of an object make up, if they make up one.
pub open spec fn envelope_of_members(members: Members) -> Option<EnvelopeView> {
    if type_of(members) is Some && timestamp_of(members) is Some && sender_of(members) is Some {
        Some(
            EnvelopeView {
                msg_type: type_of(members)->0,
                data: present(members, "data"@),
                timestamp: timestamp_of(members)->0,
                sender_id: sender_of(members)->0,
            },
        )
    } else {
        None
    }
}

/// The envelope that a text frame holds, if it holds one.
pub open spec fn envelope_of(text: Seq<char>) -> Option<EnvelopeView> {
    match json_members_of(text) {
        Some(members) => envelope_of_members(members),
        None => None,
    }
}

/// Looks up the value under `key`.
pub(crate) fn find_member<'a>(members: &'a Vec<(String, String)>, key: &str) -> (found: Option<&'a String>)
    ensures
        match found {
            Some(text) => member(member_texts(members@), key@) == Some(text@),
            None => member(member_texts(members@), key@) is None,
        },
{
    let wanted = key.to_owned();
    let ghost all = member_texts(members@);
    let mut i: usize = 0;
    assert(all.skip(0) =~= all);
    while i < members.len()
        invariant
            i <= members.len(),
            wanted@ == key@,
            all == member_texts(members@),
            member(all, key@) == member(all.skip(i as int), key@),
        decreases members.len() - i,
    {
        proof {
            assert(all.skip(i as int)[0] == all[i as int]);
            assert(all.skip(i as int).drop_first() =~= all.skip(i + 1));
        }
        if members[i].0 == wanted {
            return Some(&members[i].1);
        }
        i = i + 1;
    }
    None
}

/// Looks up the value under `key` and takes `null` for a missing one.
fn find_present<'a>(members: &'a Vec<(String, String)>, key: &str) -> (found: Option<&'a String>)
    ensures
        match found {
            Some(text) => present(member_texts(members@), key@) == Some(text@),
            None => present(member_texts(members@), key@) is None,
        },
{
    let null = "null".to_owned();
    match find_member(members, key) {
        Some(text) => if *text == null {
            None
        } else {
            Some(text)
        },
        None => None,
    }
}

/// Reads the envelope that the text frame `text` holds. A frame that is no
/// JSON object, that has no string `type` or no `timestamp` of 64 bits, or
/// whose `sender_id` is neither `null` nor a number of 32 bits, is
/// malformed.
pub fn decode_envelope(text: &str) -> (result: Result<Envelope, RelayError>)
    ensures
        match result {
            Ok(msg) => envelope_of(text@) == Some(msg@),
            Err(error) => envelope_of(text@) is None && error == RelayError::ParseError,
        },
{
    let members = match json_members(text) {
        Some(members) => members,
        None => {
            return Err(RelayError::ParseError);
        },
    };
    let msg_type = match find_member(&members, "type") {
        Some(text) => json_as_string(text.as_str()),
        None => None,
    };
    let timestamp = match find_member(&members, "timestamp") {
        Some(text) => json_as_u64(text.as_str()),
        None => None,
    };
    let sender_id: Option<Option<u32>> = match find_present(&members, "sender_id") {
        None => Some(None),
        Some(text) => match json_as_u64(text.as_str()) {
            Some(n) => if n <= u32::MAX as u64 {
                Some(Some(n as u32))
            } else {
                None
            },
            None => None,
        },
    };
    let data = match find_present(&members, "data") {
        Some(text) => Some(text.clone()),
        None => None,
    };
    match (msg_type, timestamp, sender_id) {
        (Some(msg_type), Some(timestamp), Some(sender_id)) => Ok(
            Envelope { msg_type, data, timestamp, sender_id },
        ),
        _ => Err(RelayError::ParseError),
    }
}

} // verus!
