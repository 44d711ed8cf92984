//! Timestamps as calendar text.

use chrono::DateTime;
use crate::clock::ClockError;
use vstd::prelude::*;

verus! {

/// The calendar text (`YYYY-MM-DD HH:MM:SS`, in UTC) of the moment
/// `seconds` after the epoch, or `None` where the calendar does not reach
/// that far.
pub uninterp spec fn datetime_text(seconds: i64) -> Option<Seq<char>>;

/// Calls `chrono::DateTime::from_timestamp` with no nanoseconds and gives
/// the text of the naive UTC date and time it holds (`naive_utc`, then its
/// `Display`). Trusted: whether there is a text, and which, is a function
/// of the number of seconds alone, here called `datetime_text`.
#[verifier::external_body]
fn calendar_text(seconds: i64) -> (text: Option<String>)
    ensures
        text.is_some() == datetime_text(seconds).is_some(),
        text.is_some() ==> text.unwrap()@ == datetime_text(seconds).unwrap(),
{
    match DateTime::from_timestamp(seconds, 0) {
        Some(moment) => Some(moment.naive_utc().to_string()),
        None => None,
    }
}

/// A timestamp read as a signed number of seconds: the upper half of the
/// unsigned range stands for the moments before the epoch.
pub open spec fn spec_signed_seconds(timestamp: u64) -> i64 {
    if timestamp <= i64::MAX {
        timestamp as i64
    } else {
        (timestamp - 0x1_0000_0000_0000_0000) as i64
    }
}

/// The timestamp as the signed number of seconds that the calendar takes.
pub fn signed_seconds(timestamp: u64) -> (seconds: i64)
    ensures
        seconds == spec_signed_seconds(timestamp),
{
    if timestamp <= 0x7fff_ffff_ffff_ffff {
        timestamp as i64
    } else {
        let below: u64 = u64::MAX - timestamp;
        -(below as i64) - 1
    }
}

/// The calendar's answer as a result: the text, or the error where there
/// is none.
pub fn text_or_error(answer: Option<String>) -> (text: Result<String, ClockError>)
    ensures
        match answer {
            Some(moment) => text == Ok::<String, ClockError>(moment),
            None => text == Err::<String, ClockError>(ClockError::OutOfRange),
        },
{
    match answer {
        Some(moment) => Ok(moment),
        None => Err(ClockError::OutOfRange),
    }
}

/// The calendar text of `timestamp`, or the error where it has none.
pub fn format_timestamp(timestamp: u64) -> (text: Result<String, ClockError>)
    ensures
        match datetime_text(spec_signed_seconds(timestamp)) {
            Some(moment) => text.is_ok() && text.unwrap()@ == moment,
            None => text == Err::<String, ClockError>(ClockError::OutOfRange),
        },
{
    text_or_error(calendar_text(signed_seconds(timestamp)))
}

} // verus!
