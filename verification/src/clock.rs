//! Local time: how an instant is written at an offset from UTC.
//!
//! An instant is a count of seconds like a unix timestamp. Its local offset
//! is the number of seconds by which local time is ahead of UTC then. Which
//! offset is in force at an instant is for the caller to find out from the
//! machine's time zone.

use crate::decimal::{decimal, digit};
use crate::text::{is_blank, lemma_trimmed_window, optional_view, trim, trimmed};
use vstd::prelude::*;
use vstd::string::*;

verus! {

/// How a time is written.
#[derive(Debug, Clone, Copy, PartialEq, Eq, Structural)]
pub enum TimeStyle {
    /// Hour and minute on the 12-hour clock, the hour padded with a space to
    /// two places: ` 6:42 AM`.
    Clock,
    /// Weekday, month and day, the day padded with a space to two places:
    /// `Tue, Jul  8`.
    Date,
    /// The hour on the 12-hour clock, without padding: `6 AM`.
    Hour,
}

/// What chrono writes for the date of the instant `seconds`, at `offset`
/// seconds east of UTC, under the strftime pattern `%a, %b %e`: weekday,
/// month and day of the month.
pub uninterp spec fn chrono_date(seconds: int, offset: int) -> Seq<char>;

/// The patterns in use.
pub open spec fn is_pattern(pattern: Seq<char>) -> bool {
    ||| pattern == "%l:%M %p"@
    ||| pattern == "%a, %b %e"@
    ||| pattern == "%l %p"@
}

/// A timestamp as the signed count of seconds that the clock works with: the
/// upper half of the unsigned range stands for the negative counts.
pub open spec fn signed_seconds(timestamp: u64) -> int {
    if timestamp <= i64::MAX {
        timestamp as int
    } else {
        timestamp - 0x1_0000_0000_0000_0000
    }
}

/// The instants of chrono's calendar, which runs from the first day of the
/// year -262143 through the last day of the year 262142. The days are
/// counted from the first day of the year 1, which is day 1; the first
/// instant of 1970 falls on day 719163.
pub open spec fn chrono_reaches(seconds: int) -> bool {
    -95_746_129 <= seconds / 86_400 + 719_163 <= 95_745_399
}

/// The offsets that a time zone can have: less than a day either way.
pub open spec fn is_offset(offset: int) -> bool {
    -86_400 < offset < 86_400
}

/// The second of the local day on which the instant falls, from 0 through
/// 86399.
pub open spec fn second_of_day(seconds: int, offset: int) -> int {
    (seconds + offset) % 86_400
}

/// The hour of the local day, from 0 through 23.
pub open spec fn hour_of_day(seconds: int, offset: int) -> int {
    second_of_day(seconds, offset) / 3_600
}

/// The minute of the local hour, from 0 through 59.
pub open spec fn minute_of_hour(seconds: int, offset: int) -> int {
    second_of_day(seconds, offset) % 3_600 / 60
}

/// An hour of the day on the 12-hour clock: 12, then 1 through 11.
pub open spec fn hour12(hour: int) -> int {
    if hour % 12 == 0 {
        12
    } else {
        hour % 12
    }
}

/// A number below 100 in two places, a single digit behind `pad`.
pub open spec fn two_places(n: int, pad: char) -> Seq<char> {
    if n < 10 {
        seq![pad, digit(n)]
    } else {
        seq![digit(n / 10), digit(n % 10)]
    }
}

/// The half of the day: `AM` before noon, `PM` from noon on.
pub open spec fn meridiem(hour: int) -> Seq<char> {
    if hour < 12 {
        seq!['A', 'M']
    } else {
        seq!['P', 'M']
    }
}

/// The time of day as chrono writes it under `%l:%M %p`: the hour on the
/// 12-hour clock padded with a space, the minute in two digits, and the half
/// of the day.
pub open spec fn clock_text(seconds: int, offset: int) -> Seq<char> {
    two_places(hour12(hour_of_day(seconds, offset)), ' ') + seq![':'] + two_places(
        minute_of_hour(seconds, offset),
        '0',
    ) + seq![' '] + meridiem(hour_of_day(seconds, offset))
}

/// The hour as chrono writes it under `%l %p`: the hour on the 12-hour clock
/// padded with a space, and the half of the day.
pub open spec fn padded_hour_text(seconds: int, offset: int) -> Seq<char> {
    two_places(hour12(hour_of_day(seconds, offset)), ' ') + seq![' '] + meridiem(
        hour_of_day(seconds, offset),
    )
}

/// The hour as it is shown: the hour on the 12-hour clock without padding,
/// a space, and the half of the day.
pub open spec fn hour_text(seconds: int, offset: int) -> Seq<char> {
    decimal(hour12(hour_of_day(seconds, offset)) as nat) + seq![' '] + meridiem(
        hour_of_day(seconds, offset),
    )
}

/// Whether the instant `timestamp` has a local time at the given offset: it
/// has, where there is an offset of less than a day and the instant is in the
/// calendar.
pub open spec fn has_local_time(timestamp: u64, offset: Option<i32>) -> bool {
    offset matches Some(o) && can_write(signed_seconds(timestamp), o as int)
}

/// What is shown for a time that chrono wrote as `written`: the text as it
/// is, but for the hour style, which drops the padding.
pub open spec fn styled_spec(written: Option<Seq<char>>, style: TimeStyle) -> Option<Seq<char>> {
    match written {
        Some(t) => Some(
            if style == TimeStyle::Hour {
                trimmed(t)
            } else {
                t
            },
        ),
        None => None,
    }
}

/// Where chrono can write an instant at an offset: for the instants of the
/// calendar, at an offset of less than a day.
pub open spec fn can_write(seconds: int, offset: int) -> bool {
    chrono_reaches(seconds) && is_offset(offset)
}

/// What chrono writes for an instant at an offset under the pattern of a
/// style: a text where it can write one, and nothing otherwise.
pub open spec fn written_spec(seconds: int, offset: int, style: TimeStyle) -> Option<Seq<char>> {
    if can_write(seconds, offset) {
        Some(
            match style {
                TimeStyle::Clock => clock_text(seconds, offset),
                TimeStyle::Date => chrono_date(seconds, offset),
                TimeStyle::Hour => padded_hour_text(seconds, offset),
            },
        )
    } else {
        None
    }
}

/// The text of an instant at an offset in the given style.
pub open spec fn time_text_spec(seconds: int, offset: int, style: TimeStyle) -> Option<Seq<char>> {
    styled_spec(written_spec(seconds, offset, style), style)
}

impl TimeStyle {
    /// The strftime pattern of the style.
    pub open spec fn pattern_spec(self) -> Seq<char> {
        match self {
            TimeStyle::Clock => "%l:%M %p"@,
            TimeStyle::Date => "%a, %b %e"@,
            TimeStyle::Hour => "%l %p"@,
        }
    }

    /// The strftime pattern of the style.
    pub fn pattern(self) -> (pattern: &'static str)
        ensures
            pattern@ == self.pattern_spec(),
            is_pattern(pattern@),
    {
        match self {
            TimeStyle::Clock => "%l:%M %p",
            TimeStyle::Date => "%a, %b %e",
            TimeStyle::Hour => "%l %p",
        }
    }
}

/// Calls `chrono::DateTime::from_timestamp` and `chrono::FixedOffset::east_opt`,
/// and with both there `DateTime::with_timezone` and `DateTime::format`.
/// chrono has a date and time exactly for the instants of its calendar, and
/// an offset exactly for less than a day either way. Under the two patterns
/// of the time of day the text is what chrono's documentation of `%l`, `%M`
/// and `%p` says. Under the pattern of the date the text is trusted to
/// depend on the arguments alone: the offset is given, so that the machine's
/// time zone does not enter, and chrono writes month and weekday names in
/// English. The patterns admitted are valid, so that writing the text cannot
/// fail.
#[verifier::external_body]
fn chrono_text(seconds: i64, offset: i32, pattern: &str) -> (text: Option<String>)
    requires
        is_pattern(pattern@),
    ensures
        text is Some <==> can_write(seconds as int, offset as int),
        text matches Some(t) ==> (pattern@ == "%l:%M %p"@ ==> t@ == clock_text(
            seconds as int,
            offset as int,
        )),
        text matches Some(t) ==> (pattern@ == "%l %p"@ ==> t@ == padded_hour_text(
            seconds as int,
            offset as int,
        )),
        text matches Some(t) ==> (pattern@ == "%a, %b %e"@ ==> t@ == chrono_date(
            seconds as int,
            offset as int,
        )),
{
    match (chrono::DateTime::from_timestamp(seconds, 0), chrono::FixedOffset::east_opt(offset)) {
        (Some(instant), Some(zone)) => Some(
            instant.with_timezone(&zone).format(pattern).to_string(),
        ),
        _ => None,
    }
}

/// A timestamp as a signed count of seconds.
pub fn to_signed(timestamp: u64) -> (seconds: i64)
    ensures
        seconds == signed_seconds(timestamp),
{
    if timestamp <= 0x7fff_ffff_ffff_ffff {
        timestamp as i64
    } else {
        let upper: u64 = timestamp - 0x8000_0000_0000_0000;
        upper as i64 + i64::MIN
    }
}

/// What is shown for a time that was written as `written`.
pub fn styled(written: Option<String>, style: TimeStyle) -> (text: Option<String>)
    ensures
        optional_view(text) == styled_spec(optional_view(written), style),
{
    match written {
        Some(t) => match style {
            TimeStyle::Hour => Some(trim(t.as_str())),
            _ => Some(t),
        },
        None => None,
    }
}

/// Writes the instant `seconds`, at `offset` seconds east of UTC, in the
/// given style. There is a text exactly for the instants of the calendar at
/// an offset of less than a day.
pub fn time_text(seconds: i64, offset: i32, style: TimeStyle) -> (text: Option<String>)
    ensures
        optional_view(text) == time_text_spec(seconds as int, offset as int, style),
        text is Some <==> can_write(seconds as int, offset as int),
{
    styled(chrono_text(seconds, offset, style.pattern()), style)
}

/// The hour style shows the hour without its padding: `6 AM`, `12 PM`.
pub proof fn lemma_hour_text(seconds: int, offset: int)
    ensures
        trimmed(padded_hour_text(seconds, offset)) == hour_text(seconds, offset),
        can_write(seconds, offset) ==> time_text_spec(seconds, offset, TimeStyle::Hour) == Some(
            hour_text(seconds, offset),
        ),
{
    let hour = hour_of_day(seconds, offset);
    let padded = padded_hour_text(seconds, offset);
    reveal_with_fuel(decimal, 2);
    assert(!is_blank('M'));
    assert(forall|d: int| 0 <= d <= 9 ==> !is_blank(#[trigger] digit(d)));
    if hour12(hour) < 10 {
        lemma_trimmed_window(padded, 1, padded.len() as int);
        assert(padded.subrange(1, padded.len() as int) =~= hour_text(seconds, offset));
    } else {
        lemma_trimmed_window(padded, 0, padded.len() as int);
        assert(padded.subrange(0, padded.len() as int) =~= hour_text(seconds, offset));
    }
}

} // verus!
