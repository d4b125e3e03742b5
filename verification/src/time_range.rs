//! Times of day and the window of active hours.

use crate::number::{
    padded_decimal, parse_u32, parse_u32_chars, push_padded_decimal, push_two_digits, two_digits,
};
use crate::text::{chars_of, find_from, index_from, slice_of, string_of};
use chrono::Timelike;
use vstd::prelude::*;

verus! {

/// Nanoseconds in one second.
pub const NANOS_PER_SECOND: u32 = 1_000_000_000;

/// A time of day, to the nanosecond, with no leap second.
#[derive(Debug, Clone, Copy, PartialEq, Eq, Structural)]
pub struct TimeOfDay {
    pub hour: u32,
    pub minute: u32,
    pub second: u32,
    pub nano: u32,
}

impl TimeOfDay {
    /// Every field lies in its range on the clock.
    pub open spec fn wf(&self) -> bool {
        &&& self.hour < 24
        &&& self.minute < 60
        &&& self.second < 60
        &&& self.nano < NANOS_PER_SECOND
    }

    /// Nanoseconds since midnight.
    pub open spec fn nanos(&self) -> int {
        ((self.hour * 60 + self.minute) * 60 + self.second) * (NANOS_PER_SECOND as int)
            + self.nano
    }

    /// The time `hour:minute:second`, if there is such a time on the clock.
    pub fn from_hms(hour: u32, minute: u32, second: u32) -> (r: Option<TimeOfDay>)
        ensures
            r == if hour < 24 && minute < 60 && second < 60 {
                Some(TimeOfDay { hour, minute, second, nano: 0 })
            } else {
                None
            },
    {
        if hour < 24 && minute < 60 && second < 60 {
            Some(TimeOfDay { hour, minute, second, nano: 0 })
        } else {
            None
        }
    }

    /// Nanoseconds since midnight.
    pub fn nanos_since_midnight(&self) -> (n: u128)
        ensures
            n == self.nanos(),
    {
        let seconds: u128 = (self.hour as u128 * 60 + self.minute as u128) * 60
            + self.second as u128;
        assert(NANOS_PER_SECOND == 1_000_000_000);
        seconds * 1_000_000_000 + self.nano as u128
    }

    /// The text `HH:MM` of this time.
    pub open spec fn hour_minute_text(&self) -> Seq<char> {
        two_digits(self.hour as nat) + seq![':'] + two_digits(self.minute as nat)
    }

    /// The text of this time: `HH:MM:SS`, then, where the time is not on a
    /// whole second, a point and its milliseconds, microseconds or
    /// nanoseconds, whichever is the shortest that is exact.
    pub open spec fn text(&self) -> Seq<char> {
        let whole = self.hour_minute_text() + seq![':'] + two_digits(self.second as nat);
        if self.nano == 0 {
            whole
        } else if self.nano % 1_000_000 == 0 {
            whole + seq!['.'] + padded_decimal((self.nano / 1_000_000) as nat, 3)
        } else if self.nano % 1_000 == 0 {
            whole + seq!['.'] + padded_decimal((self.nano / 1_000) as nat, 6)
        } else {
            whole + seq!['.'] + padded_decimal(self.nano as nat, 9)
        }
    }

    /// Appends [`TimeOfDay::hour_minute_text`] to `out`.
    pub fn push_hour_minute(&self, out: &mut Vec<char>)
        ensures
            final(out)@ == old(out)@ + self.hour_minute_text(),
    {
        push_two_digits(out, self.hour);
        out.push(':');
        push_two_digits(out, self.minute);
    }

    /// Appends [`TimeOfDay::text`] to `out`.
    pub fn push_text(&self, out: &mut Vec<char>)
        ensures
            final(out)@ == old(out)@ + self.text(),
    {
        self.push_hour_minute(out);
        out.push(':');
        push_two_digits(out, self.second);
        if self.nano == 0 {
        } else if self.nano % 1_000_000 == 0 {
            out.push('.');
            push_padded_decimal(out, self.nano / 1_000_000, 3);
        } else if self.nano % 1_000 == 0 {
            out.push('.');
            push_padded_decimal(out, self.nano / 1_000, 6);
        } else {
            out.push('.');
            push_padded_decimal(out, self.nano, 9);
        }
    }
}

/// Whether `a` is later than `b` by a whole millisecond or more.
pub open spec fn later_by_a_millisecond(a: TimeOfDay, b: TimeOfDay) -> bool {
    a.nanos() - b.nanos() >= 1_000_000
}

/// Whether `a` is later than `b` by a whole millisecond or more.
pub fn time_greater(a: TimeOfDay, b: TimeOfDay) -> (r: bool)
    ensures
        r == later_by_a_millisecond(a, b),
{
    let x = a.nanos_since_midnight();
    let y = b.nanos_since_midnight();
    x >= y && x - y >= 1_000_000
}

/// The window of active hours, from its begin to its end. A window whose
/// begin is later than its end runs over midnight.
#[derive(Debug, Clone, Copy, PartialEq, Eq, Structural)]
pub struct TimeRange(pub TimeOfDay, pub TimeOfDay);

/// The local clock, read once.
#[derive(Debug, Clone, Copy, PartialEq, Eq, Structural)]
pub struct LocalClock {
    /// The local time of day.
    pub time: TimeOfDay,
    /// Seconds that local time is ahead of UTC.
    pub utc_offset: i32,
}

impl LocalClock {
    /// The time is on the clock and the offset is less than a day.
    pub open spec fn wf(&self) -> bool {
        self.time.wf() && -86_400 < self.utc_offset < 86_400
    }

    /// The offset as `+HH:MM` or `-HH:MM`, rounded to the nearest minute.
    pub open spec fn offset_text(&self) -> Seq<char> {
        let sign = if self.utc_offset < 0 {
            '-'
        } else {
            '+'
        };
        let magnitude = if self.utc_offset < 0 {
            -(self.utc_offset as int)
        } else {
            self.utc_offset as int
        };
        let minutes = ((magnitude + 30) / 60) as nat;
        seq![sign] + two_digits(minutes / 60) + seq![':'] + two_digits(minutes % 60)
    }

    /// Appends [`LocalClock::offset_text`] to `out`.
    pub fn push_offset(&self, out: &mut Vec<char>)
        ensures
            final(out)@ == old(out)@ + self.offset_text(),
    {
        let magnitude: i64 = if self.utc_offset < 0 {
            out.push('-');
            -(self.utc_offset as i64)
        } else {
            out.push('+');
            self.utc_offset as i64
        };
        let minutes: u32 = ((magnitude + 30) / 60) as u32;
        push_two_digits(out, minutes / 60);
        out.push(':');
        push_two_digits(out, minutes % 60);
    }
}

impl TimeRange {
    /// Both ends are times on the clock.
    pub open spec fn wf(&self) -> bool {
        self.0.wf() && self.1.wf()
    }

    /// Whether `t` falls in the window. Where the end is after the begin, the
    /// window is what lies after the begin and not after the end. Otherwise
    /// the window runs over midnight: it is what lies after both ends, or
    /// after neither. "After" means later by a whole millisecond or more.
    pub open spec fn contains_spec(&self, t: TimeOfDay) -> bool {
        let after_begin = later_by_a_millisecond(t, self.0);
        let after_end = later_by_a_millisecond(t, self.1);
        if later_by_a_millisecond(self.1, self.0) {
            after_begin && !after_end
        } else {
            after_begin == after_end
        }
    }

    /// Whether `t` falls in the window.
    pub fn contains(&self, t: TimeOfDay) -> (r: bool)
        ensures
            r == self.contains_spec(t),
    {
        let begin = self.0;
        let end = self.1;
        time_greater(end, begin) != (time_greater(t, end) == time_greater(t, begin))
    }

    /// Reads the local clock and says whether the window holds its time.
    pub fn check_local(&self) -> (r: (LocalClock, bool))
        ensures
            r.0.wf(),
            r.1 == self.contains_spec(r.0.time),
    {
        let clock = read_local_clock();
        (clock, self.contains(clock.time))
    }
}

/// The fields of the local time and the local offset from UTC, as chrono's
/// `Local::now` gives them through `Timelike` and
/// `FixedOffset::local_minus_utc`. Stated: each field lies in the range that
/// chrono documents for it; a nanosecond of a thousand million or more marks a
/// leap second. Nothing is stated of which time it is.
#[verifier::external_body]
fn local_now() -> (r: (u32, u32, u32, u32, i32))
    ensures
        r.0 < 24,
        r.1 < 60,
        r.2 < 60,
        r.3 < 2 * NANOS_PER_SECOND,
        -86_400 < r.4 < 86_400,
{
    let now = chrono::Local::now();
    let time = now.time();
    (time.hour(), time.minute(), time.second(), time.nanosecond(), now.offset().local_minus_utc())
}

/// The clock reading that the raw fields stand for. A leap second reads as
/// the last nanosecond of the second before it.
pub fn clock_from_fields(hour: u32, minute: u32, second: u32, nano: u32, utc_offset: i32) -> (r:
    LocalClock)
    ensures
        r.utc_offset == utc_offset,
        r.time.hour == hour,
        r.time.minute == minute,
        r.time.second == second,
        r.time.nano == if nano < NANOS_PER_SECOND {
            nano
        } else {
            (NANOS_PER_SECOND - 1) as u32
        },
{
    let nano = if nano < NANOS_PER_SECOND {
        nano
    } else {
        NANOS_PER_SECOND - 1
    };
    LocalClock { time: TimeOfDay { hour, minute, second, nano }, utc_offset }
}

/// Reads the local clock.
pub fn read_local_clock() -> (r: LocalClock)
    ensures
        r.wf(),
{
    let (hour, minute, second, nano, utc_offset) = local_now();
    clock_from_fields(hour, minute, second, nano, utc_offset)
}

/// Why a text is no time of day.
#[derive(Debug, Clone, Copy, PartialEq, Eq, Structural)]
pub enum TimeError {
    /// The text has no `:` and so no minutes.
    MissingMinutes,
    /// The hour or the minute is not a number.
    NotANumber,
    /// The hour or the minute is not on the clock.
    OutOfRange,
}

impl TimeError {
    /// The reason in words.
    pub open spec fn message_spec(&self) -> Seq<char> {
        match self {
            TimeError::MissingMinutes => "Time missing minutes"@,
            TimeError::NotANumber => "Time is not a number"@,
            TimeError::OutOfRange => "Time is not on the clock"@,
        }
    }

    /// The reason in words.
    pub fn message(&self) -> (r: String)
        ensures
            r@ == self.message_spec(),
    {
        match self {
            TimeError::MissingMinutes => String::from_str("Time missing minutes"),
            TimeError::NotANumber => String::from_str("Time is not a number"),
            TimeError::OutOfRange => String::from_str("Time is not on the clock"),
        }
    }
}

/// What `HH:MM` text means. The hour is what stands before the first `:`,
/// the minute what stands between the first and the second, or to the end;
/// anything after a second `:` is not read.
pub open spec fn parse_time_spec(s: Seq<char>) -> Result<TimeOfDay, TimeError> {
    let first = index_from(s, ':', 0);
    if first >= s.len() {
        Err(TimeError::MissingMinutes)
    } else {
        let second = index_from(s, ':', first + 1);
        match (parse_u32(s.subrange(0, first)), parse_u32(s.subrange(first + 1, second))) {
            (Some(hour), Some(minute)) => if hour < 24 && minute < 60 {
                Ok(TimeOfDay { hour, minute, second: 0, nano: 0 })
            } else {
                Err(TimeError::OutOfRange)
            },
            _ => Err(TimeError::NotANumber),
        }
    }
}

/// Reads a time of day written as `HH:MM`.
pub fn parse_time(s: &str) -> (r: Result<TimeOfDay, TimeError>)
    ensures
        r == parse_time_spec(s@),
        r matches Ok(t) ==> t.wf(),
{
    let chars = chars_of(s);
    let first = find_from(&chars, ':', 0);
    if first >= chars.len() {
        return Err(TimeError::MissingMinutes);
    }
    let second = find_from(&chars, ':', first + 1);
    let hour_text = slice_of(&chars, 0, first);
    let minute_text = slice_of(&chars, first + 1, second);
    match (parse_u32_chars(&hour_text), parse_u32_chars(&minute_text)) {
        (Some(hour), Some(minute)) => {
            if hour < 24 && minute < 60 {
                Ok(TimeOfDay { hour, minute, second: 0, nano: 0 })
            } else {
                Err(TimeError::OutOfRange)
            }
        },
        _ => Err(TimeError::NotANumber),
    }
}

/// The window that the configuration asks for: none unless both a begin
/// and an end are given; where the begin cannot be read its error comes
/// first.
pub open spec fn active_hours_spec(begin: Option<Seq<char>>, end: Option<Seq<char>>) -> Result<
    Option<TimeRange>,
    TimeError,
> {
    match begin {
        Some(b) => match parse_time_spec(b) {
            Err(e) => Err(e),
            Ok(from) => match end {
                Some(e) => match parse_time_spec(e) {
                    Err(e) => Err(e),
                    Ok(to) => Ok(Some(TimeRange(from, to))),
                },
                None => Ok(None),
            },
        },
        None => match end {
            Some(e) => match parse_time_spec(e) {
                Err(e) => Err(e),
                Ok(_) => Ok(None),
            },
            None => Ok(None),
        },
    }
}

/// The window of active hours that the configuration asks for.
pub fn active_hours(begin: Option<&str>, end: Option<&str>) -> (r: Result<
    Option<TimeRange>,
    TimeError,
>)
    ensures
        r == active_hours_spec(
            match begin {
                Some(b) => Some(b@),
                None => None,
            },
            match end {
                Some(e) => Some(e@),
                None => None,
            },
        ),
        r matches Ok(Some(range)) ==> range.wf(),
{
    let from = match begin {
        Some(b) => match parse_time(b) {
            Ok(t) => Some(t),
            Err(e) => {
                return Err(e);
            },
        },
        None => None,
    };
    let to = match end {
        Some(e) => match parse_time(e) {
            Ok(t) => Some(t),
            Err(e) => {
                return Err(e);
            },
        },
        None => None,
    };
    match (from, to) {
        (Some(from), Some(to)) => Ok(Some(TimeRange(from, to))),
        _ => Ok(None),
    }
}

/// The reply to a command that came outside the active hours. It names, in
/// this order, the begin of the window, its end, the local time as `HH:MM`
/// and the local offset from UTC.
pub open spec fn sorry_asleep_text(range: TimeRange, clock: LocalClock) -> Seq<char> {
    "Sorry, I'm asleep and the printer makes a bunch of noise. The current bot-local time is "@
        + range.0.text() + " and the bot is set up to become active between "@ + range.1.text()
        + " and "@ + clock.time.hour_minute_text() + " (timezone: UTC"@ + clock.offset_text()
        + "). Please try again later!"@
}

/// The reply to a command that came outside the active hours.
pub fn sorry_asleep(range: TimeRange, clock: LocalClock) -> (r: String)
    ensures
        r@ == sorry_asleep_text(range, clock),
{
    let mut out = chars_of(
        "Sorry, I'm asleep and the printer makes a bunch of noise. The current bot-local time is ",
    );
    range.0.push_text(&mut out);
    let mut part = chars_of(" and the bot is set up to become active between ");
    out.append(&mut part);
    range.1.push_text(&mut out);
    let mut part = chars_of(" and ");
    out.append(&mut part);
    clock.time.push_hour_minute(&mut out);
    let mut part = chars_of(" (timezone: UTC");
    out.append(&mut part);
    clock.push_offset(&mut out);
    let mut part = chars_of("). Please try again later!");
    out.append(&mut part);
    string_of(&out)
}

} // verus!
