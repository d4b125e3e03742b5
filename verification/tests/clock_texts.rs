use chrono::{FixedOffset, NaiveDate, NaiveTime, TimeZone};
use print_bot::message::Timestamp;
use print_bot::time_range::{time_greater, LocalClock, TimeOfDay, TimeRange};

fn naive(t: TimeOfDay) -> NaiveTime {
    NaiveTime::from_hms_nano_opt(t.hour, t.minute, t.second, t.nano).unwrap()
}

fn samples() -> Vec<TimeOfDay> {
    let mut times = Vec::new();
    for (hour, minute, second) in [(0, 0, 0), (9, 5, 7), (10, 0, 0), (14, 0, 0), (23, 59, 59)] {
        for nano in [0, 1, 999, 1_000, 999_999, 1_000_000, 1_500_000, 40_000_000, 999_999_999] {
            times.push(TimeOfDay { hour, minute, second, nano });
        }
    }
    times
}

#[test]
fn time_text_is_what_chrono_writes() {
    for t in samples() {
        let mut out = Vec::new();
        t.push_text(&mut out);
        assert_eq!(out.iter().collect::<String>(), naive(t).to_string());
        let mut out = Vec::new();
        t.push_hour_minute(&mut out);
        assert_eq!(out.iter().collect::<String>(), naive(t).format("%H:%M").to_string());
    }
}

#[test]
fn later_is_what_chrono_counts_in_milliseconds() {
    let times = samples();
    for a in &times {
        for b in &times {
            assert_eq!(
                time_greater(*a, *b),
                (naive(*a) - naive(*b)).num_milliseconds() > 0,
                "{:?} {:?}",
                a,
                b
            );
        }
    }
}

#[test]
fn window_is_what_chrono_comparison_gives() {
    let greater = |a: TimeOfDay, b: TimeOfDay| (naive(a) - naive(b)).num_milliseconds() > 0;
    let times = samples();
    for begin in times.iter().step_by(4) {
        for end in times.iter().step_by(5) {
            for t in &times {
                assert_eq!(
                    TimeRange(*begin, *end).contains(*t),
                    greater(*end, *begin) != (greater(*t, *end) == greater(*t, *begin)),
                    "{:?} {:?} {:?}",
                    begin,
                    end,
                    t
                );
            }
        }
    }
}

#[test]
fn offset_text_is_what_chrono_writes() {
    let offsets = [
        0, 1, 29, 30, 31, 59, 60, 3599, 3600, 3630, 19_800, 86_369, 86_370, 86_399, -1, -29, -30,
        -31, -3600, -12_600, -86_399,
    ];
    for seconds in offsets {
        let zone = FixedOffset::east_opt(seconds).unwrap();
        let moment = zone.with_ymd_and_hms(2021, 3, 9, 17, 5, 0).unwrap();
        let clock = LocalClock {
            time: TimeOfDay { hour: 17, minute: 5, second: 0, nano: 0 },
            utc_offset: seconds,
        };
        let mut out = Vec::new();
        clock.push_offset(&mut out);
        assert_eq!(out.iter().collect::<String>(), moment.format("%:z").to_string(), "{}", seconds);
    }
}

#[test]
fn timestamp_text_is_what_chrono_writes() {
    let dates = [
        (2021, 3, 9, 17, 5),
        (1999, 12, 31, 23, 59),
        (2000, 1, 1, 0, 0),
        (2105, 10, 20, 7, 30),
        (1, 2, 3, 4, 5),
        (0, 6, 15, 12, 0),
        (-1, 6, 15, 12, 0),
        (-2021, 11, 30, 1, 1),
    ];
    for (year, month, day, hour, minute) in dates {
        let moment = NaiveDate::from_ymd_opt(year, month, day)
            .unwrap()
            .and_hms_opt(hour, minute, 0)
            .unwrap();
        let stamp = Timestamp { year, month, day, hour, minute };
        let mut out = Vec::new();
        stamp.push_text(&mut out);
        assert_eq!(
            out.iter().collect::<String>(),
            moment.format("%m/%d/%y %H:%M").to_string(),
            "{}",
            year
        );
    }
}
