use print_bot::time_range::{
    active_hours, clock_from_fields, parse_time, sorry_asleep, time_greater, LocalClock, TimeError, TimeOfDay,
    TimeRange,
};

fn hms(hour: u32, minute: u32, second: u32) -> TimeOfDay {
    TimeOfDay::from_hms(hour, minute, second).unwrap()
}

#[test]
fn test_time() {
    assert!(!TimeRange(hms(10, 0, 0), hms(14, 0, 0)).contains(hms(9, 0, 0)),);

    assert!(!TimeRange(hms(10, 0, 0), hms(14, 0, 0)).contains(hms(15, 0, 0)),);

    assert!(TimeRange(hms(10, 0, 0), hms(14, 0, 0)).contains(hms(13, 0, 0)),);

    assert!(TimeRange(hms(14, 0, 0), hms(10, 0, 0)).contains(hms(9, 0, 0)),);

    assert!(TimeRange(hms(14, 0, 0), hms(10, 0, 0)).contains(hms(15, 0, 0)),);

    assert!(!TimeRange(hms(14, 0, 0), hms(10, 0, 0)).contains(hms(13, 0, 0)),);
}

#[test]
fn window_holds_afternoon_and_not_morning() {
    let window = TimeRange(hms(10, 0, 0), hms(14, 0, 0));
    assert!(window.contains(hms(13, 0, 0)));
    assert!(!window.contains(hms(9, 0, 0)));
}

#[test]
fn window_over_midnight_holds_night_and_not_noon() {
    let window = TimeRange(hms(14, 0, 0), hms(10, 0, 0));
    assert!(window.contains(hms(23, 0, 0)));
    assert!(!window.contains(hms(12, 0, 0)));
}

#[test]
fn window_ends_are_open_at_begin_and_closed_at_end() {
    let window = TimeRange(hms(10, 0, 0), hms(14, 0, 0));
    assert!(!window.contains(hms(10, 0, 0)));
    assert!(window.contains(hms(14, 0, 0)));
    let just_after_begin = TimeOfDay { hour: 10, minute: 0, second: 0, nano: 1_000_000 };
    assert!(window.contains(just_after_begin));
    let not_yet_a_millisecond = TimeOfDay { hour: 10, minute: 0, second: 0, nano: 999_999 };
    assert!(!window.contains(not_yet_a_millisecond));
}

#[test]
fn window_with_equal_ends_holds_every_time() {
    let window = TimeRange(hms(10, 0, 0), hms(10, 0, 0));
    assert!(window.contains(hms(9, 0, 0)));
    assert!(window.contains(hms(10, 0, 0)));
    assert!(window.contains(hms(11, 0, 0)));
}

#[test]
fn later_needs_a_whole_millisecond() {
    let a = TimeOfDay { hour: 1, minute: 2, second: 3, nano: 1_500_000 };
    let b = TimeOfDay { hour: 1, minute: 2, second: 3, nano: 500_000 };
    assert!(time_greater(a, b));
    assert!(!time_greater(b, a));
    let c = TimeOfDay { hour: 1, minute: 2, second: 3, nano: 1_499_999 };
    assert!(!time_greater(c, b));
    assert!(!time_greater(a, a));
}

#[test]
fn nanos_since_midnight_of_the_last_instant() {
    let t = TimeOfDay { hour: 23, minute: 59, second: 59, nano: 999_999_999 };
    assert_eq!(t.nanos_since_midnight(), 86_399_999_999_999);
    assert_eq!(hms(1, 1, 1).nanos_since_midnight(), 3_661_000_000_000);
}

#[test]
fn from_hms_refuses_what_is_not_on_the_clock() {
    assert_eq!(TimeOfDay::from_hms(24, 0, 0), None);
    assert_eq!(TimeOfDay::from_hms(0, 60, 0), None);
    assert_eq!(TimeOfDay::from_hms(0, 0, 60), None);
    assert_eq!(
        TimeOfDay::from_hms(23, 59, 59),
        Some(TimeOfDay { hour: 23, minute: 59, second: 59, nano: 0 })
    );
}

#[test]
fn parse_time_reads_hours_and_minutes() {
    assert_eq!(parse_time("10:30"), Ok(hms(10, 30, 0)));
    assert_eq!(parse_time("00:00"), Ok(hms(0, 0, 0)));
    assert_eq!(parse_time("23:59"), Ok(hms(23, 59, 0)));
    assert_eq!(parse_time("7:5"), Ok(hms(7, 5, 0)));
    assert_eq!(parse_time("+7:+5"), Ok(hms(7, 5, 0)));
    assert_eq!(parse_time("10:30:99"), Ok(hms(10, 30, 0)));
}

#[test]
fn parse_time_gives_each_error() {
    assert_eq!(parse_time(""), Err(TimeError::MissingMinutes));
    assert_eq!(parse_time("10"), Err(TimeError::MissingMinutes));
    assert_eq!(parse_time("10:"), Err(TimeError::NotANumber));
    assert_eq!(parse_time(":30"), Err(TimeError::NotANumber));
    assert_eq!(parse_time("ten:30"), Err(TimeError::NotANumber));
    assert_eq!(parse_time("10:3o"), Err(TimeError::NotANumber));
    assert_eq!(parse_time(" 10:30"), Err(TimeError::NotANumber));
    assert_eq!(parse_time("-1:30"), Err(TimeError::NotANumber));
    assert_eq!(parse_time("99999999999:30"), Err(TimeError::NotANumber));
    assert_eq!(parse_time("24:00"), Err(TimeError::OutOfRange));
    assert_eq!(parse_time("10:60"), Err(TimeError::OutOfRange));
}

#[test]
fn time_error_messages() {
    assert_eq!(TimeError::MissingMinutes.message(), "Time missing minutes");
    assert_eq!(TimeError::NotANumber.message(), "Time is not a number");
    assert_eq!(TimeError::OutOfRange.message(), "Time is not on the clock");
}

#[test]
fn check_local_agrees_with_contains() {
    let window = TimeRange(hms(10, 0, 0), hms(14, 0, 0));
    let (clock, inside) = window.check_local();
    assert!(clock.time.hour < 24);
    assert!(clock.time.minute < 60);
    assert!(clock.time.second < 60);
    assert!(clock.time.nano < 1_000_000_000);
    assert!(-86_400 < clock.utc_offset && clock.utc_offset < 86_400);
    assert_eq!(inside, window.contains(clock.time));
}

#[test]
fn clock_reads_a_leap_second_as_the_instant_before() {
    let clock = clock_from_fields(23, 59, 59, 1_500_000_000, 3600);
    assert_eq!(
        clock,
        LocalClock {
            time: TimeOfDay { hour: 23, minute: 59, second: 59, nano: 999_999_999 },
            utc_offset: 3600
        }
    );
    let plain = clock_from_fields(1, 2, 3, 4, -60);
    assert_eq!(plain.time, TimeOfDay { hour: 1, minute: 2, second: 3, nano: 4 });
    assert_eq!(plain.utc_offset, -60);
}

#[test]
fn sorry_asleep_names_window_time_and_offset() {
    let window = TimeRange(hms(10, 0, 0), hms(14, 30, 0));
    let clock = LocalClock { time: hms(9, 5, 7), utc_offset: -(5 * 3600 + 30 * 60) };
    assert_eq!(
        sorry_asleep(window, clock),
        "Sorry, I'm asleep and the printer makes a bunch of noise. The current bot-local time is 10:00:00 and the bot is set up to become active between 14:30:00 and 09:05 (timezone: UTC-05:30). Please try again later!"
    );
}

#[test]
fn sorry_asleep_writes_fractions_and_rounds_the_offset() {
    let begin = TimeOfDay { hour: 1, minute: 2, second: 3, nano: 40_000_000 };
    let end = TimeOfDay { hour: 4, minute: 5, second: 6, nano: 7_000 };
    let clock = LocalClock {
        time: TimeOfDay { hour: 23, minute: 59, second: 0, nano: 5 },
        utc_offset: 3600 + 30,
    };
    assert_eq!(
        sorry_asleep(TimeRange(begin, end), clock),
        "Sorry, I'm asleep and the printer makes a bunch of noise. The current bot-local time is 01:02:03.040 and the bot is set up to become active between 04:05:06.000007 and 23:59 (timezone: UTC+01:01). Please try again later!"
    );
    let odd = TimeOfDay { hour: 0, minute: 0, second: 0, nano: 1 };
    let clock = LocalClock { time: hms(0, 0, 0), utc_offset: 0 };
    assert_eq!(
        sorry_asleep(TimeRange(odd, odd), clock),
        "Sorry, I'm asleep and the printer makes a bunch of noise. The current bot-local time is 00:00:00.000000001 and the bot is set up to become active between 00:00:00.000000001 and 00:00 (timezone: UTC+00:00). Please try again later!"
    );
}

#[test]
fn active_hours_need_both_ends() {
    assert_eq!(
        active_hours(Some("10:00"), Some("14:30")),
        Ok(Some(TimeRange(hms(10, 0, 0), hms(14, 30, 0))))
    );
    assert_eq!(active_hours(Some("10:00"), None), Ok(None));
    assert_eq!(active_hours(None, Some("14:30")), Ok(None));
    assert_eq!(active_hours(None, None), Ok(None));
}

#[test]
fn active_hours_report_the_first_bad_end() {
    assert_eq!(active_hours(Some("10"), Some("25:00")), Err(TimeError::MissingMinutes));
    assert_eq!(active_hours(Some("10:00"), Some("25:00")), Err(TimeError::OutOfRange));
    assert_eq!(active_hours(Some("x:00"), None), Err(TimeError::NotANumber));
    assert_eq!(active_hours(None, Some("14")), Err(TimeError::MissingMinutes));
}

#[test]
fn times_off_the_clock_are_compared_by_their_fields() {
    let late = TimeOfDay { hour: u32::MAX, minute: u32::MAX, second: u32::MAX, nano: u32::MAX };
    assert_eq!(
        late.nanos_since_midnight(),
        ((u32::MAX as u128 * 60 + u32::MAX as u128) * 60 + u32::MAX as u128) * 1_000_000_000
            + u32::MAX as u128
    );
    assert!(time_greater(late, hms(23, 59, 59)));
    assert!(!time_greater(hms(23, 59, 59), late));
    let window = TimeRange(hms(10, 0, 0), late);
    assert!(window.contains(hms(11, 0, 0)));
    assert!(!window.contains(hms(9, 0, 0)));
}

#[test]
fn sorry_asleep_writes_any_offset() {
    let clock = LocalClock { time: hms(0, 0, 0), utc_offset: i32::MIN };
    let text = sorry_asleep(TimeRange(hms(0, 0, 0), hms(0, 0, 0)), clock);
    // 2147483648 seconds are 35791394 minutes and 8 seconds: 596523 hours
    // and 14 minutes, of which the last two digits of the hours are written.
    assert!(text.contains("(timezone: UTC-23:14)"), "{}", text);
    let clock = LocalClock { time: hms(0, 0, 0), utc_offset: 29 };
    assert!(sorry_asleep(TimeRange(hms(0, 0, 0), hms(0, 0, 0)), clock).contains("UTC+00:00)"));
    let clock = LocalClock { time: hms(0, 0, 0), utc_offset: -30 };
    assert!(sorry_asleep(TimeRange(hms(0, 0, 0), hms(0, 0, 0)), clock).contains("UTC-00:01)"));
}
