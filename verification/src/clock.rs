//! Timestamps: the local calendar time to the second, followed by the
//! millisecond of that second.

use vstd::prelude::*;
use vstd::string::*;
use crate::text::{zero_padded, zero_padded_string};

verus! {

/// One reading of the clock, as the two values that a timestamp is made of.
pub struct ClockReading {
    /// Year, month, day, hour, minute and second of the local calendar
    /// time, without separators.
    pub calendar: String,
    /// The milliseconds between the start of 1970 (UTC) and the time of the
    /// reading, negative for earlier times.
    pub unix_millis: i64,
}

/// `chrono::Local::now`, with the time that it returns handed out as plain
/// values: `DateTime::format` with the pattern `%Y%m%d%H%M%S`, written out as
/// a string, and `DateTime::timestamp_millis`. The reading depends on the
/// clock and the time zone of the machine, so nothing is promised of it.
#[verifier::external_body]
fn read_clock() -> ClockReading {
    let now = chrono::Local::now();
    ClockReading {
        calendar: now.format("%Y%m%d%H%M%S").to_string(),
        unix_millis: now.timestamp_millis(),
    }
}

/// The remainder of `unix_millis` by 1000 with the sign of `unix_millis`:
/// the millisecond of the second for times from 1970 on.
pub open spec fn millis_of_second(unix_millis: int) -> int {
    if unix_millis >= 0 {
        unix_millis % 1000
    } else {
        -((-unix_millis) % 1000)
    }
}

/// A number written with at least three characters, zeros filling up behind
/// the sign of a negative one.
pub open spec fn millis_field(millis: int) -> Seq<char> {
    if millis >= 0 {
        zero_padded(millis as nat, 3)
    } else {
        "-"@ + zero_padded((-millis) as nat, 2)
    }
}

/// The timestamp of a candidate: the calendar text, a hyphen, and the
/// millisecond of the second in three digits.
pub open spec fn timestamp_spec(calendar: Seq<char>, unix_millis: int) -> Seq<char> {
    calendar + "-"@ + millis_field(millis_of_second(unix_millis))
}

/// Puts a timestamp together from the calendar text of a time and its
/// distance from the start of 1970 in milliseconds.
pub fn timestamp_text(calendar: &str, unix_millis: i64) -> (text: String)
    ensures
        text@ == timestamp_spec(calendar@, unix_millis as int),
{
    let mut text = String::from_str(calendar);
    text.append("-");
    if unix_millis >= 0 {
        let millis: u64 = (unix_millis % 1000) as u64;
        text.append(zero_padded_string(millis, 3).as_str());
    } else {
        // The magnitude of the remainder, computed without negating the
        // smallest `i64`.
        let below: i64 = -(unix_millis + 1);
        let magnitude: u64 = ((below % 1000) as u64 + 1) % 1000;
        assert(magnitude == (-unix_millis) % 1000);
        if magnitude == 0 {
            text.append(zero_padded_string(0, 3).as_str());
        } else {
            text.append("-");
            text.append(zero_padded_string(magnitude, 2).as_str());
        }
    }
    text
}

/// Reads the clock and formats the time as a timestamp.
pub fn current_timestamp() -> (text: String)
    ensures
        exists|calendar: Seq<char>, unix_millis: int| text@ == timestamp_spec(calendar, unix_millis),
{
    let now = read_clock();
    let text = timestamp_text(now.calendar.as_str(), now.unix_millis);
    assert(text@ == timestamp_spec(now.calendar@, now.unix_millis as int));
    text
}

} // verus!
