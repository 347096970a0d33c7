//! The wall clock, the source of connection ids, and dates as text.
//!
//! The clock and the ids are functions of nothing the relay holds, so
//! nothing is claimed of them: every function that uses one is verified for
//! whatever comes back. How a date is written depends on the date alone.

use vstd::prelude::*;

verus! {

/// The date and time `seconds` after the Unix epoch, written as RFC 3339
/// wants it, in UTC; `None` where the calendar does not reach that far.
pub uninterp spec fn rfc3339_text(seconds: i64) -> Option<Seq<char>>;

/// `chrono::Utc::now().timestamp()`: the seconds since the Unix epoch on the
/// system clock. `chrono` gives up on a clock that is set before the epoch.
#[verifier::external_body]
pub(crate) fn unix_time() -> u64 {
    chrono::Utc::now().timestamp() as u64
}

/// `uuid::Uuid::new_v4().to_string()`: a random token. `uuid` gives up
/// where the system has no randomness to give.
#[verifier::external_body]
pub(crate) fn fresh_id() -> String {
    uuid::Uuid::new_v4().to_string()
}

/// `chrono::DateTime::from_timestamp` with no nanoseconds, written out with
/// `to_rfc3339`.
#[verifier::external_body]
pub(crate) fn rfc3339(seconds: i64) -> (text: Option<String>)
    ensures
        match text {
            Some(text) => rfc3339_text(seconds) == Some(text@),
            None => rfc3339_text(seconds) is None,
        },
{
    chrono::DateTime::from_timestamp(seconds, 0).map(|date| date.to_rfc3339())
}

} // verus!
