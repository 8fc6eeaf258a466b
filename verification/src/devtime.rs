//! Calendar timestamps for device validity windows.
//!
//! A timestamp is held as plain calendar components, formatted for the
//! device wire format, and the validity window closes ten years after it
//! opens (falling back to the opening instant when that date does not
//! exist, i.e. a leap day in a non-leap target year).

use vstd::prelude::*;

use crate::text::{spec_dec2, spec_dec_i64, i64_to_dec, u64_to_dec2};

verus! {

/// A local calendar timestamp, component by component.
#[derive(Clone, Copy)]
pub struct DeviceTime {
    pub year: i32,
    pub month: u32,
    pub day: u32,
    pub hour: u32,
    pub minute: u32,
    pub second: u32,
}

impl DeviceTime {
    /// Component ranges of a calendar timestamp.
    pub open spec fn wf(self) -> bool {
        &&& 1 <= self.month <= 12
        &&& 1 <= self.day <= 31
        &&& self.hour <= 23
        &&& self.minute <= 59
        &&& self.second <= 59
    }
}

/// Relies on `chrono::Local::now` and the `Datelike` / `Timelike`
/// accessors of the returned `DateTime`: the current local time, with the
/// component ranges those accessors document (month 1-12, day 1-31, hour
/// 0-23, minute and second 0-59, year within chrono's supported range).
/// The value itself depends on the clock, so nothing more is promised.
#[verifier::external_body]
pub(crate) fn now_device_time() -> (r: DeviceTime)
    ensures
        r.wf(),
        -262144 <= r.year <= 262143,
{
    let now = chrono::Local::now();
    DeviceTime {
        year: chrono::Datelike::year(&now),
        month: chrono::Datelike::month(&now),
        day: chrono::Datelike::day(&now),
        hour: chrono::Timelike::hour(&now),
        minute: chrono::Timelike::minute(&now),
        second: chrono::Timelike::second(&now),
    }
}

/// Relies on `chrono::Utc::now` and `DateTime::timestamp`: the current
/// Unix timestamp in seconds, used only to salt search identifiers.  The
/// value depends on the clock, so nothing is promised of it.
#[verifier::external_body]
pub(crate) fn now_timestamp() -> i64 {
    chrono::Utc::now().timestamp()
}

/// The device wire format for a timestamp: unpadded year, all other
/// components zero-padded to two digits.
pub open spec fn spec_device_time_text(t: DeviceTime) -> Seq<char> {
    spec_dec_i64(t.year as int) + "-"@ + spec_dec2(t.month as nat) + "-"@ + spec_dec2(
        t.day as nat,
    ) + "T"@ + spec_dec2(t.hour as nat) + ":"@ + spec_dec2(t.minute as nat) + ":"@ + spec_dec2(
        t.second as nat,
    )
}

/// Format a timestamp for the device.
pub fn to_device_time(t: &DeviceTime) -> (r: String)
    requires
        t.wf(),
    ensures
        r@ == spec_device_time_text(*t),
{
    let mut out = String::new();
    let year = i64_to_dec(t.year as i64);
    out.append(year.as_str());
    out.append("-");
    let month = u64_to_dec2(t.month as u64);
    out.append(month.as_str());
    out.append("-");
    let day = u64_to_dec2(t.day as u64);
    out.append(day.as_str());
    out.append("T");
    let hour = u64_to_dec2(t.hour as u64);
    out.append(hour.as_str());
    out.append(":");
    let minute = u64_to_dec2(t.minute as u64);
    out.append(minute.as_str());
    out.append(":");
    let second = u64_to_dec2(t.second as u64);
    out.append(second.as_str());
    proof {
        assert(out@ =~= spec_device_time_text(*t));
    }
    out
}

/// Gregorian leap-year rule.
pub open spec fn spec_is_leap_year(y: int) -> bool {
    y % 4 == 0 && (y % 100 != 0 || y % 400 == 0)
}

/// When the validity window closes: the same instant ten years later, or
/// the opening instant itself when that date does not exist (February 29
/// of a non-leap target year).
pub open spec fn spec_validity_end(t: DeviceTime) -> DeviceTime {
    if t.month == 2 && t.day == 29 && !spec_is_leap_year(t.year + 10) {
        t
    } else {
        DeviceTime { year: (t.year + 10) as i32, ..t }
    }
}

/// Compute the end of the ten-year validity window opened at `t`.
pub fn validity_end(t: &DeviceTime) -> (r: DeviceTime)
    requires
        t.wf(),
        t.year + 10 <= i32::MAX,
    ensures
        r == spec_validity_end(*t),
        r.wf(),
{
    let target_year = t.year + 10;
    let leap = (target_year % 4 == 0) && (target_year % 100 != 0 || target_year % 400 == 0);
    if t.month == 2 && t.day == 29 && !leap {
        *t
    } else {
        DeviceTime {
            year: target_year,
            month: t.month,
            day: t.day,
            hour: t.hour,
            minute: t.minute,
            second: t.second,
        }
    }
}

} // verus!
