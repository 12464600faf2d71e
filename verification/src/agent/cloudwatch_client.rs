use crate::text::{owned, signed_decimal, signed_decimal_text};
use vstd::prelude::*;

verus! {

/// How many entries are fetched from one log group at most before the fetch stops
/// asking for further pages.
pub const MAX_EVENTS_PER_FETCH: usize = 10_000;

/// Whether a fetch asks for the next page: there is one, and fewer entries than the
/// most are fetched.
pub fn fetches_on(has_next_page: bool, fetched: usize) -> (on: bool)
    ensures
        on == (has_next_page && fetched < MAX_EVENTS_PER_FETCH),
{
    has_next_page && fetched < MAX_EVENTS_PER_FETCH
}

/// The text of an optional text: empty where there is none.
pub open spec fn text_or_empty(value: Option<String>) -> Seq<char> {
    match value {
        Some(s) => s@,
        None => Seq::empty(),
    }
}

/// The time of an optional time: the start of 1970 where there is none.
pub open spec fn time_or_zero(value: Option<i64>) -> i64 {
    match value {
        Some(t) => t,
        None => 0,
    }
}

fn or_empty(value: Option<String>) -> (text: String)
    ensures
        text@ == text_or_empty(value),
{
    match value {
        Some(s) => s,
        None => String::new(),
    }
}

/// One entry of a CloudWatch log stream.
#[derive(Debug, Clone)]
pub struct LogEvent {
    /// When the entry was logged, in milliseconds since the start of 1970.
    pub timestamp: i64,
    pub message: String,
    pub log_group: String,
    pub log_stream: String,
    pub event_id: String,
}

impl LogEvent {
    /// The entry of a log group as a search through the group gives it: what is
    /// missing is empty, and a missing time is the start of 1970.
    pub fn from_filtered(
        log_group: &str,
        log_stream: Option<String>,
        event_id: Option<String>,
        message: Option<String>,
        timestamp: Option<i64>,
    ) -> (event: Self)
        ensures
            event.log_group@ == log_group@,
            event.log_stream@ == text_or_empty(log_stream),
            event.event_id@ == text_or_empty(event_id),
            event.message@ == text_or_empty(message),
            event.timestamp == time_or_zero(timestamp),
    {
        LogEvent {
            timestamp: match timestamp {
                Some(t) => t,
                None => 0,
            },
            message: or_empty(message),
            log_group: owned(log_group),
            log_stream: or_empty(log_stream),
            event_id: or_empty(event_id),
        }
    }

    /// The entry of a log stream as the stream gives it: it is identified by its time,
    /// written in base ten; a missing message is empty, and a missing time is the
    /// start of 1970.
    pub fn from_output(
        log_group: &str,
        log_stream: &str,
        message: Option<String>,
        timestamp: Option<i64>,
    ) -> (event: Self)
        ensures
            event.log_group@ == log_group@,
            event.log_stream@ == log_stream@,
            event.event_id@ == signed_decimal(time_or_zero(timestamp) as int),
            event.message@ == text_or_empty(message),
            event.timestamp == time_or_zero(timestamp),
    {
        let time: i64 = match timestamp {
            Some(t) => t,
            None => 0,
        };
        LogEvent {
            timestamp: time,
            message: or_empty(message),
            log_group: owned(log_group),
            log_stream: owned(log_stream),
            event_id: signed_decimal_text(time),
        }
    }

    /// When the entry was logged: the whole seconds since the start of 1970, and the
    /// milliseconds beyond them, which are never negative.
    pub fn seconds_and_millis(&self) -> (parts: (i64, u32))
        ensures
            parts.0 * 1000 + parts.1 == self.timestamp,
            parts.1 < 1000,
    {
        if self.timestamp >= 0 {
            (self.timestamp / 1000, (self.timestamp % 1000) as u32)
        } else {
            let size: i128 = -(self.timestamp as i128);
            let secs: i128 = (size + 999) / 1000;
            let millis: i128 = secs * 1000 - size;
            ((-secs) as i64, millis as u32)
        }
    }
}

} // verus!
