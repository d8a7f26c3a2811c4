//! Wall-clock time of day in the monitored audience's zone, and the stop time
//! of a run.

use chrono::Timelike;
use vstd::prelude::*;
use crate::text::{is_digit, digit_value, two_digits, push_two_digits};

verus! {

/// Seconds in one day.
pub const SECONDS_PER_DAY: u32 = 86400;

/// The Unix time of 9999-12-31 23:59:59 UTC.
pub const LAST_SECOND_OF_YEAR_9999: i64 = 253_402_300_799;

/// The local second of the day, in the Asia/Bangkok zone, at a Unix time.
pub uninterp spec fn bangkok_second_of_day(unix_secs: int) -> int;

/// Relies on chrono's `DateTime::from_timestamp` and `with_timezone`, chrono-tz's
/// `Asia::Bangkok` zone and `Timelike::num_seconds_from_midnight`: the local
/// second of the day at that instant, below 86400; `None` where chrono cannot
/// represent the instant, which is only outside about 262,000 years around
/// 1970, so never from 1970 to the end of year 9999.
#[verifier::external_body]
fn bangkok_seconds_from_midnight(unix_secs: i64) -> (r: Option<u32>)
    ensures
        r matches Some(s) ==> s < SECONDS_PER_DAY && s == bangkok_second_of_day(unix_secs as int),
        0 <= unix_secs <= LAST_SECOND_OF_YEAR_9999 ==> r is Some,
{
    match chrono::DateTime::from_timestamp(unix_secs, 0) {
        Some(t) => Some(t.with_timezone(&chrono_tz::Asia::Bangkok).num_seconds_from_midnight()),
        None => None,
    }
}

/// A time of day at minute resolution.
#[derive(Clone, Copy, Debug, PartialEq, Eq, Structural)]
pub struct ClockTime {
    pub hour: u8,
    pub minute: u8,
}

/// The time of day that a second of the day falls in.
pub open spec fn clock_of_second(s: nat) -> ClockTime {
    ClockTime { hour: (s / 3600) as u8, minute: ((s / 60) % 60) as u8 }
}

/// The `HH:MM` spelling of a time of day.
pub open spec fn hhmm(t: ClockTime) -> Seq<char> {
    two_digits(t.hour as nat) + seq![':'] + two_digits(t.minute as nat)
}

impl ClockTime {
    /// A valid time of day: hour below 24, minute below 60.
    pub open spec fn wf(&self) -> bool {
        self.hour < 24 && self.minute < 60
    }

    /// The time of day with this hour and minute, if both are in range.
    pub fn new(hour: u8, minute: u8) -> (r: Option<ClockTime>)
        ensures
            r matches Some(t) ==> t.hour == hour && t.minute == minute,
            r is Some <==> hour < 24 && minute < 60,
    {
        if hour < 24 && minute < 60 {
            Some(ClockTime { hour, minute })
        } else {
            None
        }
    }

    /// The time of day that a second of the day falls in.
    pub fn from_second_of_day(s: u32) -> (r: ClockTime)
        requires
            s < SECONDS_PER_DAY,
        ensures
            r == clock_of_second(s as nat),
            r.wf(),
    {
        ClockTime { hour: (s / 3600) as u8, minute: ((s / 60) % 60) as u8 }
    }

    /// The `HH:MM` timestamp of this time of day.
    pub fn timestamp(&self) -> (r: String)
        ensures
            r@ == hhmm(*self),
    {
        let mut s = String::new();
        push_two_digits(&mut s, self.hour);
        s.append(":");
        push_two_digits(&mut s, self.minute);
        proof { reveal_strlit(":"); }
        assert(s@ =~= hhmm(*self));
        s
    }
}

/// The local time of day in the Asia/Bangkok zone at a Unix time, or `None`
/// where the instant cannot be represented (never from 1970 to the end of
/// year 9999).
pub fn local_clock(unix_secs: i64) -> (r: Option<ClockTime>)
    ensures
        0 <= unix_secs <= LAST_SECOND_OF_YEAR_9999 ==> r is Some,
        r matches Some(t) ==> t.wf() && 0 <= bangkok_second_of_day(unix_secs as int) < SECONDS_PER_DAY
            && t == clock_of_second(bangkok_second_of_day(unix_secs as int) as nat),
{
    match bangkok_seconds_from_midnight(unix_secs) {
        Some(s) => Some(ClockTime::from_second_of_day(s)),
        None => None,
    }
}

/// The time of day at which a run stops. The hour may be 24, which no clock
/// reading matches.
#[derive(Clone, Copy, Debug, PartialEq, Eq, Structural)]
pub struct StopTime {
    pub hour: u8,
    pub minute: u8,
}

/// Whether the clock reads the stop time.
pub open spec fn stop_reached(stop: StopTime, now: ClockTime) -> bool {
    now.hour == stop.hour && now.minute == stop.minute
}

/// The number that two decimal digits spell, if `s` is exactly two digits.
pub open spec fn two_digit_value(s: Seq<char>) -> Option<nat> {
    if s.len() == 2 && is_digit(s[0]) && is_digit(s[1]) {
        Some(digit_value(s[0]) * 10 + digit_value(s[1]))
    } else {
        None
    }
}

/// What `StopTime::parse` gives for an hour and a minute string.
pub open spec fn stop_time_spec(hour: Seq<char>, minute: Seq<char>) -> Option<StopTime> {
    match (two_digit_value(hour), two_digit_value(minute)) {
        (Some(h), Some(m)) => if h <= 24 && m <= 59 {
            Some(StopTime { hour: h as u8, minute: m as u8 })
        } else {
            None
        },
        _ => None,
    }
}

/// The value of a string of exactly two decimal digits.
fn two_digit_number(s: &str) -> (r: Option<u8>)
    ensures
        r matches Some(v) ==> two_digit_value(s@) == Some(v as nat),
        r is None ==> two_digit_value(s@) is None,
{
    if s.unicode_len() != 2 {
        return None;
    }
    let a = s.get_char(0);
    let b = s.get_char(1);
    if '0' <= a && a <= '9' && '0' <= b && b <= '9' {
        Some(((a as u32 - '0' as u32) * 10 + (b as u32 - '0' as u32)) as u8)
    } else {
        None
    }
}

impl StopTime {
    /// The stop time that a two-digit hour (`"00"` to `"24"`) and a two-digit
    /// minute (`"00"` to `"59"`) name; `None` for anything else.
    pub fn parse(hour: &str, minute: &str) -> (r: Option<StopTime>)
        ensures
            r == stop_time_spec(hour@, minute@),
    {
        match (two_digit_number(hour), two_digit_number(minute)) {
            (Some(h), Some(m)) => if h <= 24 && m <= 59 {
                Some(StopTime { hour: h, minute: m })
            } else {
                None
            },
            _ => None,
        }
    }

    /// Whether the clock reads this stop time.
    pub fn reached(&self, now: ClockTime) -> (r: bool)
        ensures
            r == stop_reached(*self, now),
    {
        now.hour == self.hour && now.minute == self.minute
    }
}

} // verus!
