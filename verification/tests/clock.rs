use weather::clock::{styled, time_text, to_signed, TimeStyle};

const LAST: i64 = 8210266876799; // the last second of the year 262142
const FIRST: i64 = -8334601228800; // the first second of the year -262143

fn text(s: &str) -> Option<String> {
    Some(s.to_string())
}

#[test]
fn the_epoch_in_each_style() {
    assert_eq!(time_text(0, 0, TimeStyle::Date), text("Thu, Jan  1"));
    assert_eq!(time_text(0, 0, TimeStyle::Clock), text("12:00 AM"));
    assert_eq!(time_text(0, 0, TimeStyle::Hour), text("12 AM"));
}

#[test]
fn a_summer_evening_in_each_style() {
    assert_eq!(time_text(1752000000, 0, TimeStyle::Date), text("Tue, Jul  8"));
    assert_eq!(time_text(1752000000, 0, TimeStyle::Clock), text(" 6:40 PM"));
    assert_eq!(time_text(1752000000, 0, TimeStyle::Hour), text("6 PM"));
}

#[test]
fn the_offset_moves_the_clock() {
    assert_eq!(time_text(1752000000, -14400, TimeStyle::Clock), text(" 2:40 PM"));
    assert_eq!(time_text(1752000000, -14400, TimeStyle::Hour), text("2 PM"));
    assert_eq!(time_text(1752000000, 19800, TimeStyle::Clock), text("12:10 AM"));
    assert_eq!(time_text(1752000000, 19800, TimeStyle::Date), text("Wed, Jul  9"));
    assert_eq!(time_text(1751932800, -1, TimeStyle::Date), text("Mon, Jul  7"));
}

#[test]
fn the_hour_style_drops_the_padding_and_the_clock_style_keeps_it() {
    assert_eq!(time_text(32400, 0, TimeStyle::Hour), text("9 AM"));
    assert_eq!(time_text(32400, 0, TimeStyle::Clock), text(" 9:00 AM"));
}

#[test]
fn two_digit_days_are_not_padded() {
    assert_eq!(time_text(-1, 0, TimeStyle::Date), text("Wed, Dec 31"));
    assert_eq!(time_text(-1, 0, TimeStyle::Clock), text("11:59 PM"));
}

#[test]
fn instants_beyond_the_calendar_have_no_text() {
    assert_eq!(time_text(i64::MAX, 0, TimeStyle::Date), None);
    assert_eq!(time_text(i64::MIN, 0, TimeStyle::Clock), None);
    assert_eq!(time_text(1 << 62, 0, TimeStyle::Hour), None);
    assert_eq!(time_text(LAST + 1, 0, TimeStyle::Date), None);
    assert_eq!(time_text(LAST + 1, -86399, TimeStyle::Date), None);
    assert_eq!(time_text(FIRST - 1, 0, TimeStyle::Date), None);
    assert_eq!(time_text(FIRST - 1, 86399, TimeStyle::Date), None);
}

#[test]
fn every_instant_of_the_calendar_has_a_text_at_every_offset() {
    assert_eq!(time_text(LAST, 0, TimeStyle::Date), text("Mon, Dec 31"));
    assert_eq!(time_text(LAST, 0, TimeStyle::Clock), text("11:59 PM"));
    assert_eq!(time_text(FIRST, 0, TimeStyle::Clock), text("12:00 AM"));
    for style in [TimeStyle::Clock, TimeStyle::Date, TimeStyle::Hour] {
        for seconds in [FIRST, FIRST + 1, -1, 0, 1752000000, LAST - 1, LAST] {
            for offset in [-86399, -3600, 0, 1, 86399] {
                assert!(
                    time_text(seconds, offset, style).is_some(),
                    "instant {} at offset {}",
                    seconds,
                    offset
                );
            }
        }
    }
    assert_eq!(time_text(LAST, 1, TimeStyle::Clock), text("12:00 AM"));
    assert_eq!(time_text(FIRST, -1, TimeStyle::Clock), text("11:59 PM"));
}

#[test]
fn an_offset_of_a_day_or_more_has_no_text() {
    assert_eq!(time_text(0, 86399, TimeStyle::Clock), text("11:59 PM"));
    assert_eq!(time_text(0, -86399, TimeStyle::Date), text("Wed, Dec 31"));
    for offset in [86400, -86400, 100000, i32::MAX, i32::MIN] {
        assert_eq!(time_text(0, offset, TimeStyle::Clock), None, "offset {}", offset);
    }
}

#[test]
fn styled_trims_the_hour_only() {
    assert_eq!(styled(text(" 9 AM"), TimeStyle::Hour), text("9 AM"));
    assert_eq!(styled(text(" 9:00 AM"), TimeStyle::Clock), text(" 9:00 AM"));
    assert_eq!(styled(text("Tue, Jul  8"), TimeStyle::Date), text("Tue, Jul  8"));
    assert_eq!(styled(None, TimeStyle::Hour), None);
    assert_eq!(styled(None, TimeStyle::Date), None);
}

#[test]
fn the_upper_half_of_the_unsigned_range_is_negative() {
    assert_eq!(to_signed(0), 0);
    assert_eq!(to_signed(1752000000), 1752000000);
    assert_eq!(to_signed(i64::MAX as u64), i64::MAX);
    assert_eq!(to_signed(i64::MAX as u64 + 1), i64::MIN);
    assert_eq!(to_signed(u64::MAX), -1);
}

fn expected_clock(seconds: i64, offset: i32) -> String {
    let second = (seconds as i128 + offset as i128).rem_euclid(86400);
    let (hour, minute) = (second / 3600, second % 3600 / 60);
    let hour12 = if hour % 12 == 0 { 12 } else { hour % 12 };
    format!("{:>2}:{:02} {}", hour12, minute, if hour < 12 { "AM" } else { "PM" })
}

fn expected_hour(seconds: i64, offset: i32) -> String {
    let hour = (seconds as i128 + offset as i128).rem_euclid(86400) / 3600;
    let hour12 = if hour % 12 == 0 { 12 } else { hour % 12 };
    format!("{} {}", hour12, if hour < 12 { "AM" } else { "PM" })
}

#[test]
fn the_time_of_day_goes_by_the_second_of_the_local_day() {
    let instants = [FIRST, FIRST + 59, -86401, -3601, -1, 0, 59, 60, 3599, 1752000000, LAST - 60, LAST];
    let offsets = [-86399, -45000, -14400, -3600, -1, 0, 1, 1800, 19800, 43200, 86399];
    for seconds in instants {
        for offset in offsets {
            for hour in 0..24 {
                let at = seconds - seconds.rem_euclid(86400) + hour * 3600 + 1234;
                if at < FIRST || at > LAST {
                    continue;
                }
                assert_eq!(
                    time_text(at, offset, TimeStyle::Clock),
                    Some(expected_clock(at, offset)),
                    "instant {} at offset {}",
                    at,
                    offset
                );
                assert_eq!(
                    time_text(at, offset, TimeStyle::Hour),
                    Some(expected_hour(at, offset)),
                    "instant {} at offset {}",
                    at,
                    offset
                );
            }
        }
    }
}

#[test]
fn noon_and_midnight_are_twelve() {
    assert_eq!(time_text(0, 0, TimeStyle::Hour), text("12 AM"));
    assert_eq!(time_text(43200, 0, TimeStyle::Hour), text("12 PM"));
    assert_eq!(time_text(43199, 0, TimeStyle::Clock), text("11:59 AM"));
    assert_eq!(time_text(43200, 0, TimeStyle::Clock), text("12:00 PM"));
    assert_eq!(time_text(46800, 0, TimeStyle::Clock), text(" 1:00 PM"));
    assert_eq!(time_text(3600 * 10, 0, TimeStyle::Hour), text("10 AM"));
}

#[test]
fn each_style_has_its_pattern() {
    assert_eq!(TimeStyle::Clock.pattern(), "%l:%M %p");
    assert_eq!(TimeStyle::Date.pattern(), "%a, %b %e");
    assert_eq!(TimeStyle::Hour.pattern(), "%l %p");
}

#[test]
fn local_times_are_written_as_chrono_writes_them() {
    for ts in [0u64, 1752000000, 1751932800, 1762063200, 1741500000, 4102444800, LAST as u64] {
        let local = chrono::TimeZone::timestamp_opt(&chrono::Local, ts as i64, 0).single().unwrap();
        let offset = local.offset().local_minus_utc();
        for style in [TimeStyle::Clock, TimeStyle::Date, TimeStyle::Hour] {
            let written = local.format(style.pattern()).to_string();
            let expected = if style == TimeStyle::Hour { written.trim().to_string() } else { written };
            assert_eq!(time_text(ts as i64, offset, style), Some(expected), "timestamp {}", ts);
        }
    }
}
