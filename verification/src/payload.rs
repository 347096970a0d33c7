//! JSON, read and written through `serde_json`.
//!
//! The relay reads the members of an envelope and of an identification
//! payload, and quotes strings when it writes an envelope out. Each function
//! below makes one call into `serde_json` and converts what comes back. What
//! the crate computes takes pages to state and depends on the text alone, so
//! the results are named, not computed, in contracts.

use vstd::prelude::*;

verus! {

/// The members of a JSON object, each as its key and the text of its value.
pub type Members = Seq<(Seq<char>, Seq<char>)>;

/// The members of the JSON object that `json` holds, each value written out
/// as compact JSON; `None` where `json` is no JSON text or holds no object.
/// A member that the text writes more than once is held once, as it was
/// written last.
pub uninterp spec fn json_members_of(json: Seq<char>) -> Option<Members>;

/// The string that the JSON text `json` holds; `None` where it holds
/// anything else.
pub uninterp spec fn json_string_value(json: Seq<char>) -> Option<Seq<char>>;

/// The number that the JSON text `json` holds, where it holds an integer
/// from 0 to 2^64 - 1; `None` where it holds anything else.
pub uninterp spec fn json_u64_value(json: Seq<char>) -> Option<u64>;

/// The JSON string literal for `text`: `text` between double quotes, with
/// the characters escaped that JSON wants escaped.
pub uninterp spec fn json_string_text(text: Seq<char>) -> Seq<char>;

/// Keys and values as characters.
pub open spec fn member_texts(members: Seq<(String, String)>) -> Members {
    members.map_values(|member: (String, String)| (member.0@, member.1@))
}

/// `serde_json::from_str` at `Value`: the members of the object, each value
/// written out with the `Display` of `Value`, which is compact JSON. Text
/// that does not parse, or that holds anything but an object, gives `None`.
/// `Value` keeps one member for a key, the one that the text wrote last.
#[verifier::external_body]
pub(crate) fn json_members(json: &str) -> (members: Option<Vec<(String, String)>>)
    ensures
        match members {
            Some(list) => json_members_of(json@) == Some(member_texts(list@)),
            None => json_members_of(json@) is None,
        },
{
    match serde_json::from_str::<serde_json::Value>(json) {
        Ok(serde_json::Value::Object(object)) => Some(
            object.into_iter().map(|(key, value)| (key, value.to_string())).collect(),
        ),
        _ => None,
    }
}

/// `serde_json::from_str` at `String`.
#[verifier::external_body]
pub(crate) fn json_as_string(json: &str) -> (value: Option<String>)
    ensures
        match value {
            Some(text) => json_string_value(json@) == Some(text@),
            None => json_string_value(json@) is None,
        },
{
    serde_json::from_str::<String>(json).ok()
}

/// `serde_json::from_str` at `u64`.
#[verifier::external_body]
pub(crate) fn json_as_u64(json: &str) -> (value: Option<u64>)
    ensures
        value == json_u64_value(json@),
{
    serde_json::from_str::<u64>(json).ok()
}

/// `serde_json::to_string` of a string: its JSON string literal. Writing a
/// string out cannot fail.
#[verifier::external_body]
pub(crate) fn json_string(text: &str) -> (literal: String)
    ensures
        literal@ == json_string_text(text@),
{
    serde_json::to_string(text).unwrap_or_default()
}

} // verus!
