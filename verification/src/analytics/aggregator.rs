use crate::analytics::AnalyticsQueryParams;
use crate::text::{concat2, str_eq};
use vstd::prelude::*;

verus! {

/// A span of time that metrics are aggregated by.
#[derive(Debug, Clone, Copy, PartialEq, Eq, Structural)]
pub enum TimeWindow {
    Minute,
    Hour,
    Day,
    Week,
}

impl TimeWindow {
    /// How long the window is, in milliseconds.
    pub open spec fn millis(&self) -> int {
        match *self {
            TimeWindow::Minute => 60_000int,
            TimeWindow::Hour => 3_600_000int,
            TimeWindow::Day => 86_400_000int,
            TimeWindow::Week => 604_800_000int,
        }
    }

    /// How long the window is, in milliseconds.
    pub fn duration_ms(&self) -> (ms: i64)
        ensures
            ms == self.millis(),
    {
        match self {
            TimeWindow::Minute => 60 * 1000,
            TimeWindow::Hour => 60 * 60 * 1000,
            TimeWindow::Day => 24 * 60 * 60 * 1000,
            TimeWindow::Week => 7 * 24 * 60 * 60 * 1000,
        }
    }
}

/// Aggregates metrics by time window.
#[derive(Debug, Clone, Copy)]
pub struct MetricsAggregator;

/// The window that a name stands for, where it stands for one.
pub open spec fn named_window(name: Seq<char>) -> Option<TimeWindow> {
    if name == "minute"@ {
        Some(TimeWindow::Minute)
    } else if name == "hour"@ {
        Some(TimeWindow::Hour)
    } else if name == "day"@ {
        Some(TimeWindow::Day)
    } else if name == "week"@ {
        Some(TimeWindow::Week)
    } else {
        None
    }
}

/// The window that a request names: an hour where it names none; an error message
/// where the name stands for no window.
pub fn parse_time_window(window: Option<&str>) -> (result: Result<TimeWindow, String>)
    ensures
        match window {
            None => result == Ok::<TimeWindow, String>(TimeWindow::Hour),
            Some(name) => match named_window(name@) {
                Some(w) => result == Ok::<TimeWindow, String>(w),
                None => result matches Err(text) && text@ == "Invalid time window: "@ + name@,
            },
        },
{
    match window {
        None => Ok(TimeWindow::Hour),
        Some(name) => {
            if str_eq(name, "minute") {
                Ok(TimeWindow::Minute)
            } else if str_eq(name, "hour") {
                Ok(TimeWindow::Hour)
            } else if str_eq(name, "day") {
                Ok(TimeWindow::Day)
            } else if str_eq(name, "week") {
                Ok(TimeWindow::Week)
            } else {
                Err(concat2("Invalid time window: ", name))
            }
        },
    }
}

/// The window that the parameters of a request name.
pub fn requested_window(params: &AnalyticsQueryParams) -> (result: Result<TimeWindow, String>)
    ensures
        match params.window {
            None => result == Ok::<TimeWindow, String>(TimeWindow::Hour),
            Some(name) => match named_window(name@) {
                Some(w) => result == Ok::<TimeWindow, String>(w),
                None => result matches Err(text) && text@ == "Invalid time window: "@ + name@,
            },
        },
{
    match &params.window {
        Some(name) => parse_time_window(Some(name.as_str())),
        None => parse_time_window(None),
    }
}

} // verus!
