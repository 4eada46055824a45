//! Calendar arithmetic on UTC timestamps.
//!
//! A timestamp is a count of non-leap seconds since 1970-01-01T00:00:00Z.
//! The day of the week and the day of the month of a timestamp come from
//! `chrono`; the day window is plain arithmetic on seconds.

use vstd::prelude::*;

verus! {

/// Seconds in one UTC day.
pub const SECONDS_PER_DAY: i64 = 86_400;

/// 0000-01-01T00:00:00Z, the first second that the calendar functions accept.
pub const MIN_TIMESTAMP: i64 = -62_167_219_200;

/// 9999-12-31T23:59:59Z, the last second that the calendar functions accept.
pub const MAX_TIMESTAMP: i64 = 253_402_300_799;

/// The timestamps whose calendar day this module reports: the years 0000 to
/// 9999.
pub open spec fn timestamp_supported(ts: int) -> bool {
    MIN_TIMESTAMP <= ts <= MAX_TIMESTAMP
}

/// What `chrono` reports as the number of days from Monday (Monday is 0) of
/// the UTC date that holds the timestamp.
pub uninterp spec fn utc_days_from_monday(ts: int) -> int;

/// What `chrono` reports as the day of the month (from 1) of the UTC date that
/// holds the timestamp.
pub uninterp spec fn utc_day_of_month(ts: int) -> int;

/// Reads the system clock through `chrono::Utc::now` and returns the whole
/// seconds of that instant (`DateTime::timestamp`). Nothing is claimed of the
/// value: it is whatever the clock says. `Utc::now` panics on a system clock
/// that is set before 1970.
#[verifier::external_body]
pub(crate) fn utc_now_seconds() -> (r: i64) {
    chrono::Utc::now().timestamp()
}

/// Calls `Datelike::weekday` on the `DateTime<Utc>` that
/// `DateTime::from_timestamp(ts, 0)` gives, and `Weekday::num_days_from_monday`
/// on that weekday. `from_timestamp` returns a date for every second of the
/// years 0000 to 9999; `num_days_from_monday` is documented to run from 0
/// (Monday) to 6 (Sunday). The contract names the result and states that
/// range; neither is proved.
#[verifier::external_body]
pub(crate) fn days_from_monday(ts: i64) -> (r: u32)
    requires
        timestamp_supported(ts as int),
    ensures
        r == utc_days_from_monday(ts as int),
        r <= 6,
{
    let at = chrono::DateTime::from_timestamp(ts, 0).unwrap();
    chrono::Datelike::weekday(&at).num_days_from_monday()
}

/// Calls `Datelike::day` on the `DateTime<Utc>` that
/// `DateTime::from_timestamp(ts, 0)` gives. `day` is documented to range from
/// 1 to 31. The contract names the result and states that range; neither is
/// proved.
#[verifier::external_body]
pub(crate) fn day_of_month(ts: i64) -> (r: u32)
    requires
        timestamp_supported(ts as int),
    ensures
        r == utc_day_of_month(ts as int),
        1 <= r <= 31,
{
    let at = chrono::DateTime::from_timestamp(ts, 0).unwrap();
    chrono::Datelike::day(&at)
}

/// The two numbers of a date that a payment schedule is matched against.
#[derive(Debug, Clone, Copy, PartialEq, Eq, Structural)]
pub struct CalendarDay {
    /// ISO day of the week: 1 is Monday, 7 is Sunday.
    pub weekday: u32,
    /// Day of the month, from 1.
    pub day_of_month: u32,
}

impl CalendarDay {
    /// Both numbers lie in their calendar ranges.
    pub open spec fn wf(self) -> bool {
        &&& 1 <= self.weekday <= 7
        &&& 1 <= self.day_of_month <= 31
    }
}

/// The calendar day of the UTC date that holds `ts`.
pub open spec fn calendar_day_at(ts: int) -> CalendarDay {
    CalendarDay {
        weekday: (utc_days_from_monday(ts) + 1) as u32,
        day_of_month: utc_day_of_month(ts) as u32,
    }
}

/// The calendar day of a timestamp, or `None` for a timestamp outside the
/// years 0000 to 9999.
pub fn calendar_day(ts: i64) -> (r: Option<CalendarDay>)
    ensures
        r is Some <==> timestamp_supported(ts as int),
        r matches Some(day) ==> day == calendar_day_at(ts as int) && day.wf(),
{
    if ts < MIN_TIMESTAMP || ts > MAX_TIMESTAMP {
        return None;
    }
    let from_monday: u32 = days_from_monday(ts);
    let day: u32 = day_of_month(ts);
    Some(CalendarDay { weekday: from_monday + 1, day_of_month: day })
}

/// One UTC day as a half-open interval of timestamps, `start` included and
/// `end` excluded.
#[derive(Debug, Clone, Copy, PartialEq, Eq, Structural)]
pub struct DayWindow {
    pub start: i64,
    pub end: i64,
}

impl DayWindow {
    /// The window starts at a midnight and is one day long.
    pub open spec fn wf(self) -> bool {
        &&& self.start % 86_400 == 0
        &&& self.end == self.start + 86_400
    }

    /// Whether the instant `ts` lies in the window.
    pub open spec fn holds(self, ts: int) -> bool {
        self.start <= ts < self.end
    }
}

/// The midnight at or before `ts`.
pub open spec fn start_of_day(ts: int) -> int {
    ts - ts % 86_400
}

/// The window of the UTC day that holds the instant `now`, or `None` when
/// `now` lies outside the years 0000 to 9999.
pub fn day_window(now: i64) -> (r: Option<DayWindow>)
    ensures
        r is Some <==> timestamp_supported(now as int),
        r matches Some(w) ==> {
            &&& w.start == start_of_day(now as int)
            &&& w.wf()
            &&& w.holds(now as int)
            &&& timestamp_supported(w.start as int)
        },
{
    if now < MIN_TIMESTAMP || now > MAX_TIMESTAMP {
        return None;
    }
    let into_day: i64 = if now >= 0 {
        now % SECONDS_PER_DAY
    } else {
        let back: i64 = (-now) % SECONDS_PER_DAY;
        if back == 0 {
            0
        } else {
            SECONDS_PER_DAY - back
        }
    };
    assert(into_day == (now as int) % 86_400) by {
        if now < 0 {
            lemma_negative_remainder(now as int);
        }
    }
    let start: i64 = now - into_day;
    assert((start as int) % 86_400 == 0) by {
        lemma_start_is_midnight(now as int);
    }
    assert(MIN_TIMESTAMP as int % 86_400 == 0);
    assert(start >= MIN_TIMESTAMP) by {
        lemma_midnight_floor(now as int, MIN_TIMESTAMP as int);
    }
    Some(DayWindow { start, end: start + SECONDS_PER_DAY })
}

/// The remainder of a negative number, from the remainder of its opposite.
proof fn lemma_negative_remainder(x: int)
    requires
        x < 0,
    ensures
        x % 86_400 == (if (-x) % 86_400 == 0 {
            0
        } else {
            86_400 - (-x) % 86_400
        }),
{
    let q = (-x) / 86_400;
    let r = (-x) % 86_400;
    assert(-x == 86_400 * q + r) by (nonlinear_arith)
        requires
            q == (-x) / 86_400,
            r == (-x) % 86_400,
    ;
    if r == 0 {
        assert(x == 86_400 * (-q));
        assert(x % 86_400 == 0) by (nonlinear_arith)
            requires
                x == 86_400 * (-q),
        ;
    } else {
        assert(x == 86_400 * (-q - 1) + (86_400 - r));
        assert(x % 86_400 == 86_400 - r) by (nonlinear_arith)
            requires
                x == 86_400 * (-q - 1) + (86_400 - r),
                0 < 86_400 - r < 86_400,
        ;
    }
}

/// A timestamp is a midnight exactly when its opposite is.
pub proof fn lemma_midnight_of_opposite(x: int)
    ensures
        x % 86_400 == 0 <==> (-x) % 86_400 == 0,
{
    assert(x % 86_400 == 0 <==> (-x) % 86_400 == 0) by (nonlinear_arith);
}

/// A timestamp less its remainder is a multiple of a day.
proof fn lemma_start_is_midnight(x: int)
    ensures
        (x - x % 86_400) % 86_400 == 0,
{
    assert((x - x % 86_400) % 86_400 == 0) by (nonlinear_arith);
}

/// The midnight at or before `x` is not before a midnight that `x` is not
/// before.
proof fn lemma_midnight_floor(x: int, m: int)
    requires
        m % 86_400 == 0,
        m <= x,
    ensures
        m <= x - x % 86_400,
{
    assert(m <= x - x % 86_400) by (nonlinear_arith)
        requires
            m % 86_400 == 0,
            m <= x,
    ;
}

} // verus!
