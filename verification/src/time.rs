//! Dates shown under the battle videos and the votes.

use vstd::prelude::*;
use crate::notification;

verus! {

/// The text that chrono gives for the UTC date and time `secs` seconds after the
/// Unix epoch, formatted as "%-m/%-d/%Y, %-I:%M:%S %p" (such as
/// "1/1/1970, 12:00:00 AM"), or none when `secs` is outside chrono's calendar.
pub uninterp spec fn chrono_datetime_text(secs: i64) -> Option<Seq<char>>;

/// chrono's `DateTime::from_timestamp(secs, 0)`, then `naive_utc()`, then
/// `format("%-m/%-d/%Y, %-I:%M:%S %p").to_string()`. Its contract claims that the
/// result is `chrono_datetime_text(secs)`: a function of `secs` alone, `None` exactly
/// when `from_timestamp` rejects `secs` as out of range.
#[verifier::external_body]
fn chrono_format_timestamp(secs: i64) -> (res: Option<String>)
    ensures
        notification::opt_view(res) == chrono_datetime_text(secs),
{
    match chrono::DateTime::from_timestamp(secs, 0) {
        Some(d) => Some(d.naive_utc().format("%-m/%-d/%Y, %-I:%M:%S %p").to_string()),
        None => None,
    }
}

/// The largest number of seconds that chrono accepts as a time span.
pub const MAX_SPAN_SECONDS: i64 = 9223372036854775;

/// The local time of a timestamp, in seconds: the offset in minutes (as the
/// browser gives it: positive west of UTC) is taken off the UTC time. `None`
/// where the offset in seconds is not a time span chrono accepts, or where the
/// local time does not fit in an `i64`.
pub open spec fn spec_local_seconds(timestamp: i64, offset_minutes: i64) -> Option<i64> {
    let offset = offset_minutes * 60;
    if offset > MAX_SPAN_SECONDS || offset < -MAX_SPAN_SECONDS {
        None
    } else if timestamp - offset < i64::MIN || timestamp - offset > i64::MAX {
        None
    } else {
        Some((timestamp - offset) as i64)
    }
}

/// The local time of a timestamp, in seconds.
pub fn local_seconds(timestamp: i64, timezone_offset_minutes: i64) -> (res: Option<i64>)
    ensures
        res == spec_local_seconds(timestamp, timezone_offset_minutes),
{
    if timezone_offset_minutes > MAX_SPAN_SECONDS / 60 || timezone_offset_minutes < -(MAX_SPAN_SECONDS / 60) {
        return None;
    }
    let offset = timezone_offset_minutes * 60;
    timestamp.checked_sub(offset)
}

/// The local date of a timestamp: `None` where its local time is not
/// representable, or where the timestamp or its local time is outside
/// chrono's calendar.
pub open spec fn spec_timestamp_to_date(timestamp: i64, offset_minutes: i64) -> Option<Seq<char>> {
    match spec_local_seconds(timestamp, offset_minutes) {
        None => None,
        Some(local) => if chrono_datetime_text(timestamp) is None {
            None
        } else {
            chrono_datetime_text(local)
        },
    }
}

/// The local date of a timestamp, shown as "month/day/year, hour:minutes:seconds AM".
pub fn timestamp_to_date(timestamp: i64, timezone_offset_minutes: i64) -> (res: Option<String>)
    ensures
        notification::opt_view(res) == spec_timestamp_to_date(timestamp, timezone_offset_minutes),
{
    match local_seconds(timestamp, timezone_offset_minutes) {
        None => None,
        Some(local) => {
            if chrono_format_timestamp(timestamp).is_none() {
                return None;
            }
            chrono_format_timestamp(local)
        },
    }
}

} // verus!
