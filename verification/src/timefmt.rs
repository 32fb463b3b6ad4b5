//! Times as the panel shows them: the wall-clock time of a log record, and
//! the time left until a timer fires.

use vstd::prelude::*;
use vstd::string::*;
use crate::text::{decimal_text, push_decimal};

verus! {

/// The whole seconds of a timestamp in microseconds, rounded toward zero.
pub open spec fn timestamp_seconds(timestamp_us: i64) -> int {
    if timestamp_us >= 0 {
        timestamp_us / 1_000_000
    } else {
        -((-timestamp_us) / 1_000_000)
    }
}

/// The nanoseconds that go with `timestamp_seconds`: the sub-second part
/// times 1000. Before the epoch a sub-second part counts down from zero and,
/// as an unsigned number, wraps around to more than any clock reading has.
pub open spec fn timestamp_nanos(timestamp_us: i64) -> int {
    if timestamp_us >= 0 {
        (timestamp_us % 1_000_000) * 1000
    } else if (-timestamp_us) % 1_000_000 == 0 {
        0
    } else {
        0x1_0000_0000 - ((-timestamp_us) % 1_000_000) * 1000
    }
}

/// Splits a timestamp in microseconds into seconds and nanoseconds.
pub fn timestamp_parts(timestamp_us: i64) -> (r: (i64, u32))
    ensures
        r.0 == timestamp_seconds(timestamp_us),
        r.1 == timestamp_nanos(timestamp_us),
{
    if timestamp_us >= 0 {
        let u: u64 = timestamp_us as u64;
        ((u / 1_000_000) as i64, ((u % 1_000_000) * 1000) as u32)
    } else {
        let magnitude: u64 = if timestamp_us == i64::MIN {
            9223372036854775808
        } else {
            (-timestamp_us) as u64
        };
        let whole: u64 = magnitude / 1_000_000;
        let part: u64 = magnitude % 1_000_000;
        let nanos: u32 = if part == 0 {
            0
        } else {
            (4294967296 - part * 1000) as u32
        };
        (-(whole as i64), nanos)
    }
}

/// The most seconds before or after the epoch for which a time is promised
/// to be shown: about 253,000 years, within the dates that chrono holds.
pub const SHOWN_SECONDS: i64 = 8_000_000_000_000;

/// The seconds and nanoseconds stand for a time that chrono shows: the
/// nanoseconds are those of a clock reading, and the seconds lie within
/// `SHOWN_SECONDS` of the epoch.
pub open spec fn is_shown(secs: int, nsecs: int) -> bool {
    nsecs < 1_000_000_000 && -SHOWN_SECONDS <= secs <= SHOWN_SECONDS
}

/// Trusted: chrono's `Local.timestamp_opt`, and for a single result
/// `format("%b %d %H:%M:%S")`. The text depends on the time zone of the
/// machine, so only this is claimed. It is empty or has the 15 characters of
/// the format (month name of 3 letters, day, hour, minute and second of 2
/// digits each). It is empty where chrono rejects the nanoseconds, which it
/// does from 2,000,000,000 on. It is not empty for nanoseconds below
/// 1,000,000,000 and seconds within `SHOWN_SECONDS` of the epoch: chrono
/// documents that `timestamp_opt` gives a single result unless the seconds
/// are out of range or the nanoseconds invalid, and the dates it holds reach
/// from the year -262143 to the year 262142.
#[verifier::external_body]
fn local_time_text(secs: i64, nsecs: u32) -> (r: String)
    ensures
        r@.len() == 0 || r@.len() == 15,
        nsecs >= 2_000_000_000 ==> r@.len() == 0,
        is_shown(secs as int, nsecs as int) ==> r@.len() == 15,
{
    match chrono::TimeZone::timestamp_opt(&chrono::Local, secs, nsecs) {
        chrono::LocalResult::Single(time) => time.format("%b %d %H:%M:%S").to_string(),
        _ => String::new(),
    }
}

/// The local wall-clock time of a timestamp in microseconds since the
/// epoch, as month, day and time of day: 15 characters for a time within
/// `SHOWN_SECONDS` of the epoch that is on or after the epoch or on a whole
/// second. The text is empty for a time that cannot be shown; a time before
/// the epoch with a sub-second part is one.
pub fn format_log_timestamp(timestamp_us: i64) -> (r: String)
    ensures
        r@.len() == 0 || r@.len() == 15,
        timestamp_nanos(timestamp_us) >= 2_000_000_000 ==> r@.len() == 0,
        is_shown(timestamp_seconds(timestamp_us), timestamp_nanos(timestamp_us)) ==> r@.len()
            == 15,
{
    let (secs, nsecs) = timestamp_parts(timestamp_us);
    local_time_text(secs, nsecs)
}

/// `text` can be what `format_log_timestamp` gives for a record with this
/// timestamp: 15 characters for a time that is shown, nothing for a time
/// whose nanoseconds no clock reading has, and nothing for a record without
/// a timestamp.
pub open spec fn is_time_text(timestamp: Option<i64>, text: Seq<char>) -> bool {
    match timestamp {
        Some(t) => {
            &&& text.len() == 0 || text.len() == 15
            &&& is_shown(timestamp_seconds(t), timestamp_nanos(t)) ==> text.len() == 15
            &&& timestamp_nanos(t) >= 2_000_000_000 ==> text.len() == 0
        },
        None => text.len() == 0,
    }
}

/// The time from `now_us` until `target_us`, both in microseconds, in its
/// two largest units: days and hours, hours and minutes, minutes and
/// seconds, or seconds alone. A target that is not ahead has elapsed.
pub open spec fn relative_time_text(target_us: u64, now_us: u64) -> Seq<char> {
    if target_us <= now_us {
        "elapsed"@
    } else {
        let secs = ((target_us - now_us) / 1_000_000) as nat;
        let days = secs / 86400;
        let hours = (secs % 86400) / 3600;
        let minutes = (secs % 3600) / 60;
        let seconds = secs % 60;
        if days > 0 {
            decimal_text(days) + "d "@ + decimal_text(hours) + "h"@
        } else if hours > 0 {
            decimal_text(hours) + "h "@ + decimal_text(minutes) + "m"@
        } else if minutes > 0 {
            decimal_text(minutes) + "m "@ + decimal_text(seconds) + "s"@
        } else {
            decimal_text(seconds) + "s"@
        }
    }
}

fn two_units(high: u64, high_unit: &str, low: u64, low_unit: &str) -> (r: String)
    ensures
        r@ == decimal_text(high as nat) + high_unit@ + decimal_text(low as nat) + low_unit@,
{
    let mut r = String::new();
    push_decimal(&mut r, high);
    r.append(high_unit);
    push_decimal(&mut r, low);
    r.append(low_unit);
    assert(r@ =~= decimal_text(high as nat) + high_unit@ + decimal_text(low as nat) + low_unit@);
    r
}

/// The time from `now_us` until `target_us`, see `relative_time_text`.
pub fn format_relative_time(target_us: u64, now_us: u64) -> (r: String)
    ensures
        r@ == relative_time_text(target_us, now_us),
{
    if target_us <= now_us {
        return String::from_str("elapsed");
    }
    let secs: u64 = (target_us - now_us) / 1_000_000;
    let days: u64 = secs / 86400;
    let hours: u64 = (secs % 86400) / 3600;
    let minutes: u64 = (secs % 3600) / 60;
    let seconds: u64 = secs % 60;
    if days > 0 {
        two_units(days, "d ", hours, "h")
    } else if hours > 0 {
        two_units(hours, "h ", minutes, "m")
    } else if minutes > 0 {
        two_units(minutes, "m ", seconds, "s")
    } else {
        let mut r = String::new();
        push_decimal(&mut r, seconds);
        r.append("s");
        assert(r@ =~= decimal_text(seconds as nat) + "s"@);
        r
    }
}

} // verus!
