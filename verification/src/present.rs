//! From forecast records to display-ready values: formatted times, icon
//! classes, descriptions with their fallback, and forecast lists cut to the
//! configured length.
//!
//! Local time enters as data. `instants` names the instants that a report
//! shows; the caller finds the local offset at each of them; `assemble`
//! builds the report from the records and those offsets, and is the same
//! function on every machine.

use crate::clock::{
    has_local_time, signed_seconds, time_text, time_text_spec, to_signed, TimeStyle,
};
use crate::decimal::{fixed_point, tenths_text};
use crate::icons::{icon_class, map_icon_to_class};
use crate::models::{DailyWeather, HourlyWeather, WeatherCondition, WeatherResponse};
use crate::text::optional_view;
use vstd::prelude::*;
use vstd::string::*;

verus! {

/// How many entries of each forecast a report shows.
#[derive(Debug, Clone, Copy, PartialEq, Eq, Structural)]
pub struct Limits {
    pub days: usize,
    pub hours: usize,
}

/// One line of the daily forecast.
#[derive(Debug, Clone)]
pub struct DailyEntry {
    pub date: String,
    pub min: String,
    pub max: String,
    pub description: String,
    pub icon: String,
}

/// One line of the hourly forecast.
#[derive(Debug, Clone)]
pub struct HourlyEntry {
    pub time: String,
    pub temp: String,
    pub description: String,
    pub icon: String,
}

/// Everything a renderer shows.
#[derive(Debug, Clone)]
pub struct Report {
    pub current_temp: String,
    pub sunrise: Option<String>,
    pub sunset: Option<String>,
    pub daily: Vec<DailyEntry>,
    pub hourly: Vec<HourlyEntry>,
}

/// The instants that a report shows, as signed counts of seconds: sunrise,
/// sunset, and those of the forecast records that are looked at, in their
/// order.
#[derive(Debug, Clone)]
pub struct Instants {
    pub sunrise: i64,
    pub sunset: i64,
    pub daily: Vec<i64>,
    pub hourly: Vec<i64>,
}

/// The local offsets, in seconds east of UTC, at the instants that a report
/// shows, each missing where the instant has no local time. `daily` and
/// `hourly` go by position with the forecasts.
#[derive(Debug, Clone)]
pub struct LocalTimes {
    pub sunrise: Option<i32>,
    pub sunset: Option<i32>,
    pub daily: Vec<Option<i32>>,
    pub hourly: Vec<Option<i32>>,
}

/// A daily line as text.
pub struct DailyEntryView {
    pub date: Seq<char>,
    pub min: Seq<char>,
    pub max: Seq<char>,
    pub description: Seq<char>,
    pub icon: Seq<char>,
}

/// An hourly line as text.
pub struct HourlyEntryView {
    pub time: Seq<char>,
    pub temp: Seq<char>,
    pub description: Seq<char>,
    pub icon: Seq<char>,
}

/// A report as text.
pub struct ReportView {
    pub current_temp: Seq<char>,
    pub sunrise: Option<Seq<char>>,
    pub sunset: Option<Seq<char>>,
    pub daily: Seq<DailyEntryView>,
    pub hourly: Seq<HourlyEntryView>,
}

impl View for DailyEntry {
    type V = DailyEntryView;

    open spec fn view(&self) -> DailyEntryView {
        DailyEntryView {
            date: self.date@,
            min: self.min@,
            max: self.max@,
            description: self.description@,
            icon: self.icon@,
        }
    }
}

impl View for HourlyEntry {
    type V = HourlyEntryView;

    open spec fn view(&self) -> HourlyEntryView {
        HourlyEntryView {
            time: self.time@,
            temp: self.temp@,
            description: self.description@,
            icon: self.icon@,
        }
    }
}

/// The daily lines as text, in order.
pub open spec fn daily_views(entries: Seq<DailyEntry>) -> Seq<DailyEntryView> {
    entries.map_values(|e: DailyEntry| e@)
}

/// The hourly lines as text, in order.
pub open spec fn hourly_views(entries: Seq<HourlyEntry>) -> Seq<HourlyEntryView> {
    entries.map_values(|e: HourlyEntry| e@)
}

impl View for Report {
    type V = ReportView;

    open spec fn view(&self) -> ReportView {
        ReportView {
            current_temp: self.current_temp@,
            sunrise: optional_view(self.sunrise),
            sunset: optional_view(self.sunset),
            daily: daily_views(self.daily@),
            hourly: hourly_views(self.hourly@),
        }
    }
}

/// The text shown where a record has no condition.
pub open spec fn missing_description() -> Seq<char> {
    "No description"@
}

/// The description shown for a record: that of its first condition, or the
/// fallback text where it has none.
pub open spec fn description_of(conditions: Seq<WeatherCondition>) -> Seq<char> {
    if conditions.len() == 0 {
        missing_description()
    } else {
        conditions[0].description@
    }
}

/// The icon class shown for a record: that of its first condition's code.
/// A record without a condition is looked up under the code `na`.
pub open spec fn icon_of(conditions: Seq<WeatherCondition>) -> Seq<char> {
    if conditions.len() == 0 {
        icon_class("na"@)
    } else {
        icon_class(conditions[0].icon@)
    }
}

/// The text of the instant `timestamp` at its local offset, where it has
/// one.
pub open spec fn reading_text(timestamp: u64, offset: Option<i32>, style: TimeStyle) -> Option<
    Seq<char>,
> {
    match offset {
        Some(o) => time_text_spec(signed_seconds(timestamp), o as int, style),
        None => None,
    }
}

/// The line for one day, or none where its date cannot be written.
pub open spec fn daily_entry_spec(day: DailyWeather, offset: Option<i32>) -> Option<
    DailyEntryView,
> {
    match reading_text(day.dt, offset, TimeStyle::Date) {
        Some(date) => Some(
            DailyEntryView {
                date,
                min: fixed_point(day.temp.min as int, 1),
                max: fixed_point(day.temp.max as int, 1),
                description: description_of(day.weather@),
                icon: icon_of(day.weather@),
            },
        ),
        None => None,
    }
}

/// The line for one hour, or none where its time cannot be written.
pub open spec fn hourly_entry_spec(hour: HourlyWeather, offset: Option<i32>) -> Option<
    HourlyEntryView,
> {
    match reading_text(hour.dt, offset, TimeStyle::Hour) {
        Some(time) => Some(
            HourlyEntryView {
                time,
                temp: fixed_point(hour.temp as int, 1),
                description: description_of(hour.weather@),
                icon: icon_of(hour.weather@),
            },
        ),
        None => None,
    }
}

/// The offset at a position, missing beyond the end.
pub open spec fn offset_at(offsets: Seq<Option<i32>>, i: int) -> Option<i32> {
    if 0 <= i < offsets.len() {
        offsets[i]
    } else {
        None
    }
}

/// How many records of a forecast are looked at.
pub open spec fn shown(limit: nat, len: nat) -> nat {
    if limit <= len {
        limit
    } else {
        len
    }
}

/// The lines for the first `n` days, in their order, without the days whose
/// date cannot be written.
pub open spec fn daily_lines(days: Seq<DailyWeather>, offsets: Seq<Option<i32>>, n: nat) -> Seq<
    DailyEntryView,
>
    decreases n,
{
    if n == 0 {
        Seq::empty()
    } else {
        let before = daily_lines(days, offsets, (n - 1) as nat);
        match daily_entry_spec(days[n - 1], offset_at(offsets, n - 1)) {
            Some(entry) => before.push(entry),
            None => before,
        }
    }
}

/// The lines for the first `n` hours, in their order, without the hours
/// whose time cannot be written.
pub open spec fn hourly_lines(hours: Seq<HourlyWeather>, offsets: Seq<Option<i32>>, n: nat) -> Seq<
    HourlyEntryView,
>
    decreases n,
{
    if n == 0 {
        Seq::empty()
    } else {
        let before = hourly_lines(hours, offsets, (n - 1) as nat);
        match hourly_entry_spec(hours[n - 1], offset_at(offsets, n - 1)) {
            Some(entry) => before.push(entry),
            None => before,
        }
    }
}

/// The daily forecast as shown: at most `limit` days from the start.
pub open spec fn daily_entries_spec(
    days: Seq<DailyWeather>,
    offsets: Seq<Option<i32>>,
    limit: nat,
) -> Seq<DailyEntryView> {
    daily_lines(days, offsets, shown(limit, days.len()))
}

/// The hourly forecast as shown: at most `limit` hours from the start.
pub open spec fn hourly_entries_spec(
    hours: Seq<HourlyWeather>,
    offsets: Seq<Option<i32>>,
    limit: nat,
) -> Seq<HourlyEntryView> {
    hourly_lines(hours, offsets, shown(limit, hours.len()))
}

/// The report for a response, given the local offsets at its instants.
pub open spec fn report_spec(weather: WeatherResponse, limits: Limits, times: LocalTimes)
    -> ReportView {
    ReportView {
        current_temp: fixed_point(weather.current.temp as int, 1),
        sunrise: reading_text(weather.current.sunrise, times.sunrise, TimeStyle::Clock),
        sunset: reading_text(weather.current.sunset, times.sunset, TimeStyle::Clock),
        daily: daily_entries_spec(weather.daily@, times.daily@, limits.days as nat),
        hourly: hourly_entries_spec(weather.hourly@, times.hourly@, limits.hours as nat),
    }
}

/// The instants of a response that a report shows.
pub open spec fn is_instants_of(wanted: Instants, weather: WeatherResponse, limits: Limits)
    -> bool {
    &&& wanted.sunrise == signed_seconds(weather.current.sunrise)
    &&& wanted.sunset == signed_seconds(weather.current.sunset)
    &&& wanted.daily@.len() == shown(limits.days as nat, weather.daily@.len())
    &&& wanted.hourly@.len() == shown(limits.hours as nat, weather.hourly@.len())
    &&& forall|i: int|
        0 <= i < wanted.daily@.len() ==> #[trigger] wanted.daily@[i] == signed_seconds(
            weather.daily@[i].dt,
        )
    &&& forall|i: int|
        0 <= i < wanted.hourly@.len() ==> #[trigger] wanted.hourly@[i] == signed_seconds(
            weather.hourly@[i].dt,
        )
}

impl Limits {
    /// Six days and six hours.
    pub fn standard() -> (limits: Limits)
        ensures
            limits.days == 6,
            limits.hours == 6,
    {
        Limits { days: 6, hours: 6 }
    }

    /// Seven days and twelve hours.
    pub fn long() -> (limits: Limits)
        ensures
            limits.days == 7,
            limits.hours == 12,
    {
        Limits { days: 7, hours: 12 }
    }
}

/// The description shown for a record: that of its first condition, or
/// `No description` where it has none.
pub fn description_or_fallback(conditions: &Vec<WeatherCondition>) -> (description: String)
    ensures
        description@ == description_of(conditions@),
        conditions@.len() == 0 ==> description@ == missing_description(),
{
    if conditions.len() == 0 {
        String::from_str("No description")
    } else {
        conditions[0].description.clone()
    }
}

/// The icon class shown for a record.
pub fn icon_for(conditions: &Vec<WeatherCondition>) -> (class: &'static str)
    ensures
        class@ == icon_of(conditions@),
{
    if conditions.len() == 0 {
        map_icon_to_class("na")
    } else {
        map_icon_to_class(conditions[0].icon.as_str())
    }
}

/// Writes the instant `timestamp` at its local offset, where it has one.
pub fn reading(timestamp: u64, offset: Option<i32>, style: TimeStyle) -> (text: Option<String>)
    ensures
        optional_view(text) == reading_text(timestamp, offset, style),
{
    match offset {
        Some(o) => time_text(to_signed(timestamp), o, style),
        None => None,
    }
}

/// The line for one day, given the local offset at its instant.
pub fn daily_entry(day: &DailyWeather, offset: Option<i32>) -> (entry: Option<DailyEntry>)
    ensures
        match entry {
            Some(e) => daily_entry_spec(*day, offset) == Some(e@),
            None => daily_entry_spec(*day, offset) is None,
        },
{
    match reading(day.dt, offset, TimeStyle::Date) {
        Some(date) => Some(
            DailyEntry {
                date,
                min: tenths_text(day.temp.min),
                max: tenths_text(day.temp.max),
                description: description_or_fallback(&day.weather),
                icon: String::from_str(icon_for(&day.weather)),
            },
        ),
        None => None,
    }
}

/// The line for one hour, given the local offset at its instant.
pub fn hourly_entry(hour: &HourlyWeather, offset: Option<i32>) -> (entry: Option<HourlyEntry>)
    ensures
        match entry {
            Some(e) => hourly_entry_spec(*hour, offset) == Some(e@),
            None => hourly_entry_spec(*hour, offset) is None,
        },
{
    match reading(hour.dt, offset, TimeStyle::Hour) {
        Some(time) => Some(
            HourlyEntry {
                time,
                temp: tenths_text(hour.temp),
                description: description_or_fallback(&hour.weather),
                icon: String::from_str(icon_for(&hour.weather)),
            },
        ),
        None => None,
    }
}

/// The offset at a position, missing beyond the end.
fn offset_or_none(offsets: &Vec<Option<i32>>, i: usize) -> (offset: Option<i32>)
    ensures
        offset == offset_at(offsets@, i as int),
{
    if i < offsets.len() {
        offsets[i]
    } else {
        None
    }
}

/// The daily forecast as shown: the first `limit` days in their order, each
/// with the offset at its position, without those whose date cannot be
/// written.
pub fn daily_entries(days: &Vec<DailyWeather>, offsets: &Vec<Option<i32>>, limit: usize) -> (entries:
    Vec<DailyEntry>)
    ensures
        daily_views(entries@) == daily_entries_spec(days@, offsets@, limit as nat),
{
    let n: usize = if limit <= days.len() {
        limit
    } else {
        days.len()
    };
    let mut entries: Vec<DailyEntry> = Vec::new();
    let mut i: usize = 0;
    while i < n
        invariant
            i <= n <= days@.len(),
            daily_views(entries@) == daily_lines(days@, offsets@, i as nat),
        decreases n - i,
    {
        if let Some(entry) = daily_entry(&days[i], offset_or_none(offsets, i)) {
            entries.push(entry);
        }
        i += 1;
    }
    entries
}

/// The hourly forecast as shown: the first `limit` hours in their order,
/// each with the offset at its position, without those whose time cannot be
/// written.
pub fn hourly_entries(hours: &Vec<HourlyWeather>, offsets: &Vec<Option<i32>>, limit: usize) -> (entries:
    Vec<HourlyEntry>)
    ensures
        hourly_views(entries@) == hourly_entries_spec(hours@, offsets@, limit as nat),
{
    let n: usize = if limit <= hours.len() {
        limit
    } else {
        hours.len()
    };
    let mut entries: Vec<HourlyEntry> = Vec::new();
    let mut i: usize = 0;
    while i < n
        invariant
            i <= n <= hours@.len(),
            hourly_views(entries@) == hourly_lines(hours@, offsets@, i as nat),
        decreases n - i,
    {
        if let Some(entry) = hourly_entry(&hours[i], offset_or_none(offsets, i)) {
            entries.push(entry);
        }
        i += 1;
    }
    entries
}

/// Builds the report from a response and the local offsets at its
/// instants.
pub fn assemble(weather: &WeatherResponse, limits: &Limits, times: &LocalTimes) -> (report: Report)
    ensures
        report@ == report_spec(*weather, *limits, *times),
{
    Report {
        current_temp: tenths_text(weather.current.temp),
        sunrise: reading(weather.current.sunrise, times.sunrise, TimeStyle::Clock),
        sunset: reading(weather.current.sunset, times.sunset, TimeStyle::Clock),
        daily: daily_entries(&weather.daily, &times.daily, limits.days),
        hourly: hourly_entries(&weather.hourly, &times.hourly, limits.hours),
    }
}

/// The instants whose local offsets a report needs: sunrise, sunset, and
/// the forecast records up to the limits.
pub fn instants(weather: &WeatherResponse, limits: &Limits) -> (wanted: Instants)
    ensures
        is_instants_of(wanted, *weather, *limits),
{
    let days: usize = if limits.days <= weather.daily.len() {
        limits.days
    } else {
        weather.daily.len()
    };
    let mut daily: Vec<i64> = Vec::new();
    let mut i: usize = 0;
    while i < days
        invariant
            i <= days <= weather.daily@.len(),
            daily@.len() == i,
            forall|k: int|
                0 <= k < i ==> #[trigger] daily@[k] == signed_seconds(weather.daily@[k].dt),
        decreases days - i,
    {
        daily.push(to_signed(weather.daily[i].dt));
        i += 1;
    }
    let hours: usize = if limits.hours <= weather.hourly.len() {
        limits.hours
    } else {
        weather.hourly.len()
    };
    let mut hourly: Vec<i64> = Vec::new();
    let mut j: usize = 0;
    while j < hours
        invariant
            j <= hours <= weather.hourly@.len(),
            hourly@.len() == j,
            forall|k: int|
                0 <= k < j ==> #[trigger] hourly@[k] == signed_seconds(weather.hourly@[k].dt),
        decreases hours - j,
    {
        hourly.push(to_signed(weather.hourly[j].dt));
        j += 1;
    }
    Instants {
        sunrise: to_signed(weather.current.sunrise),
        sunset: to_signed(weather.current.sunset),
        daily,
        hourly,
    }
}

/// A forecast is never shown longer than the limit, nor longer than it is.
pub proof fn lemma_daily_length(days: Seq<DailyWeather>, offsets: Seq<Option<i32>>, n: nat)
    ensures
        daily_lines(days, offsets, n).len() <= n,
        daily_entries_spec(days, offsets, n).len() <= shown(n, days.len()),
    decreases n,
{
    if n > 0 {
        lemma_daily_length(days, offsets, (n - 1) as nat);
    }
    let m = shown(n, days.len());
    if m < n {
        lemma_daily_length(days, offsets, m);
    }
}

/// A forecast is never shown longer than the limit, nor longer than it is.
pub proof fn lemma_hourly_length(hours: Seq<HourlyWeather>, offsets: Seq<Option<i32>>, n: nat)
    ensures
        hourly_lines(hours, offsets, n).len() <= n,
        hourly_entries_spec(hours, offsets, n).len() <= shown(n, hours.len()),
    decreases n,
{
    if n > 0 {
        lemma_hourly_length(hours, offsets, (n - 1) as nat);
    }
    let m = shown(n, hours.len());
    if m < n {
        lemma_hourly_length(hours, offsets, m);
    }
}

/// A day has a line exactly where its instant has a local time.
pub proof fn lemma_daily_line_is_there(day: DailyWeather, offset: Option<i32>)
    ensures
        daily_entry_spec(day, offset) is Some <==> has_local_time(day.dt, offset),
{
}

/// An hour has a line exactly where its instant has a local time.
pub proof fn lemma_hourly_line_is_there(hour: HourlyWeather, offset: Option<i32>)
    ensures
        hourly_entry_spec(hour, offset) is Some <==> has_local_time(hour.dt, offset),
{
}

/// Cutting the daily forecast keeps its start: of a forecast with at least
/// `n` days, each at an instant with a local time, exactly the first `n`
/// days are shown, in their order, each with its own temperatures,
/// description and icon.
pub proof fn lemma_daily_prefix(days: Seq<DailyWeather>, offsets: Seq<Option<i32>>, n: nat)
    requires
        n <= days.len(),
        forall|i: int| 0 <= i < n ==> has_local_time(days[i].dt, #[trigger] offset_at(offsets, i)),
    ensures
        daily_entries_spec(days, offsets, n).len() == n,
        forall|i: int|
            0 <= i < n ==> Some(#[trigger] daily_entries_spec(days, offsets, n)[i])
                == daily_entry_spec(days[i], offset_at(offsets, i)),
        forall|i: int|
            0 <= i < n ==> {
                let line = #[trigger] daily_entries_spec(days, offsets, n)[i];
                &&& line.min == fixed_point(days[i].temp.min as int, 1)
                &&& line.max == fixed_point(days[i].temp.max as int, 1)
                &&& line.description == description_of(days[i].weather@)
                &&& line.icon == icon_of(days[i].weather@)
            },
    decreases n,
{
    if n > 0 {
        lemma_daily_prefix(days, offsets, (n - 1) as nat);
        lemma_daily_line_is_there(days[n - 1], offset_at(offsets, n - 1));
    }
}

/// Cutting the hourly forecast keeps its start: of a forecast with at least
/// `n` hours, each at an instant with a local time, exactly the first `n`
/// hours are shown, in their order, each with its own temperature,
/// description and icon.
pub proof fn lemma_hourly_prefix(hours: Seq<HourlyWeather>, offsets: Seq<Option<i32>>, n: nat)
    requires
        n <= hours.len(),
        forall|i: int|
            0 <= i < n ==> has_local_time(hours[i].dt, #[trigger] offset_at(offsets, i)),
    ensures
        hourly_entries_spec(hours, offsets, n).len() == n,
        forall|i: int|
            0 <= i < n ==> Some(#[trigger] hourly_entries_spec(hours, offsets, n)[i])
                == hourly_entry_spec(hours[i], offset_at(offsets, i)),
        forall|i: int|
            0 <= i < n ==> {
                let line = #[trigger] hourly_entries_spec(hours, offsets, n)[i];
                &&& line.temp == fixed_point(hours[i].temp as int, 1)
                &&& line.description == description_of(hours[i].weather@)
                &&& line.icon == icon_of(hours[i].weather@)
            },
    decreases n,
{
    if n > 0 {
        lemma_hourly_prefix(hours, offsets, (n - 1) as nat);
        lemma_hourly_line_is_there(hours[n - 1], offset_at(offsets, n - 1));
    }
}

/// A report shows the start of each forecast whole: where each record that
/// is looked at has a local time, the report has a line for each of them, in
/// their order, and no other line. A forecast shorter than the limit is
/// shown as long as it is.
pub proof fn lemma_report_shows_the_start(
    weather: WeatherResponse,
    limits: Limits,
    times: LocalTimes,
)
    requires
        forall|i: int|
            0 <= i < shown(limits.days as nat, weather.daily@.len()) ==> has_local_time(
                weather.daily@[i].dt,
                #[trigger] offset_at(times.daily@, i),
            ),
        forall|i: int|
            0 <= i < shown(limits.hours as nat, weather.hourly@.len()) ==> has_local_time(
                weather.hourly@[i].dt,
                #[trigger] offset_at(times.hourly@, i),
            ),
    ensures
        report_spec(weather, limits, times).daily.len() == shown(
            limits.days as nat,
            weather.daily@.len(),
        ),
        report_spec(weather, limits, times).hourly.len() == shown(
            limits.hours as nat,
            weather.hourly@.len(),
        ),
        forall|i: int|
            0 <= i < shown(limits.days as nat, weather.daily@.len()) ==> Some(
                #[trigger] report_spec(weather, limits, times).daily[i],
            ) == daily_entry_spec(weather.daily@[i], offset_at(times.daily@, i)),
        forall|i: int|
            0 <= i < shown(limits.hours as nat, weather.hourly@.len()) ==> Some(
                #[trigger] report_spec(weather, limits, times).hourly[i],
            ) == hourly_entry_spec(weather.hourly@[i], offset_at(times.hourly@, i)),
{
    lemma_daily_prefix(
        weather.daily@,
        times.daily@,
        shown(limits.days as nat, weather.daily@.len()),
    );
    lemma_hourly_prefix(
        weather.hourly@,
        times.hourly@,
        shown(limits.hours as nat, weather.hourly@.len()),
    );
}

/// What is shown of a forecast depends on its first `limit` records alone.
pub proof fn lemma_daily_ignores_rest(
    days: Seq<DailyWeather>,
    others: Seq<DailyWeather>,
    offsets: Seq<Option<i32>>,
    n: nat,
)
    requires
        n <= days.len(),
        n <= others.len(),
        forall|i: int| 0 <= i < n ==> days[i] == others[i],
    ensures
        daily_entries_spec(days, offsets, n) == daily_entries_spec(others, offsets, n),
    decreases n,
{
    if n > 0 {
        lemma_daily_ignores_rest(days, others, offsets, (n - 1) as nat);
    }
}

/// What is shown of a forecast depends on its first `limit` records alone.
pub proof fn lemma_hourly_ignores_rest(
    hours: Seq<HourlyWeather>,
    others: Seq<HourlyWeather>,
    offsets: Seq<Option<i32>>,
    n: nat,
)
    requires
        n <= hours.len(),
        n <= others.len(),
        forall|i: int| 0 <= i < n ==> hours[i] == others[i],
    ensures
        hourly_entries_spec(hours, offsets, n) == hourly_entries_spec(others, offsets, n),
    decreases n,
{
    if n > 0 {
        lemma_hourly_ignores_rest(hours, others, offsets, (n - 1) as nat);
    }
}

/// A record without a condition is shown with the text `No description`,
/// which is fourteen characters long: never with an empty description.
pub proof fn lemma_missing_description(conditions: Seq<WeatherCondition>)
    requires
        conditions.len() == 0,
    ensures
        description_of(conditions) == "No description"@,
        description_of(conditions).len() == 14,
{
    reveal_strlit("No description");
}

/// The fallback reaches the lines: a day or an hour without a condition is
/// shown, if at all, with the text `No description`.
pub proof fn lemma_missing_description_in_lines(
    day: DailyWeather,
    hour: HourlyWeather,
    offset: Option<i32>,
)
    ensures
        day.weather@.len() == 0 ==> (daily_entry_spec(day, offset) matches Some(line)
            ==> line.description == "No description"@),
        hour.weather@.len() == 0 ==> (hourly_entry_spec(hour, offset) matches Some(line)
            ==> line.description == "No description"@),
{
}


/// Looking at more records only adds lines at the end.
proof fn lemma_daily_lines_grow(days: Seq<DailyWeather>, offsets: Seq<Option<i32>>, n: nat, m: nat)
    requires
        n <= m,
    ensures
        daily_lines(days, offsets, n).is_prefix_of(daily_lines(days, offsets, m)),
    decreases m,
{
    if n < m {
        lemma_daily_lines_grow(days, offsets, n, (m - 1) as nat);
    }
}

/// Looking at more records only adds lines at the end.
proof fn lemma_hourly_lines_grow(
    hours: Seq<HourlyWeather>,
    offsets: Seq<Option<i32>>,
    n: nat,
    m: nat,
)
    requires
        n <= m,
    ensures
        hourly_lines(hours, offsets, n).is_prefix_of(hourly_lines(hours, offsets, m)),
    decreases m,
{
    if n < m {
        lemma_hourly_lines_grow(hours, offsets, n, (m - 1) as nat);
    }
}

/// A lower limit cuts, and does nothing else: what is shown of the daily
/// forecast under a limit is the start of what is shown under any higher
/// limit.
pub proof fn lemma_daily_limit_prefix(
    days: Seq<DailyWeather>,
    offsets: Seq<Option<i32>>,
    lower: nat,
    higher: nat,
)
    requires
        lower <= higher,
    ensures
        daily_entries_spec(days, offsets, lower).is_prefix_of(
            daily_entries_spec(days, offsets, higher),
        ),
{
    lemma_daily_lines_grow(days, offsets, shown(lower, days.len()), shown(higher, days.len()));
}

/// A lower limit cuts, and does nothing else: what is shown of the hourly
/// forecast under a limit is the start of what is shown under any higher
/// limit.
pub proof fn lemma_hourly_limit_prefix(
    hours: Seq<HourlyWeather>,
    offsets: Seq<Option<i32>>,
    lower: nat,
    higher: nat,
)
    requires
        lower <= higher,
    ensures
        hourly_entries_spec(hours, offsets, lower).is_prefix_of(
            hourly_entries_spec(hours, offsets, higher),
        ),
{
    lemma_hourly_lines_grow(hours, offsets, shown(lower, hours.len()), shown(higher, hours.len()));
}

} // verus!
