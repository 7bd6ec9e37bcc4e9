use weather::models::{
    CurrentWeather, DailyFeelsLike, DailyTemp, DailyWeather, HourlyWeather, WeatherCondition,
    WeatherResponse,
};
use weather::present::{
    assemble, daily_entries, daily_entry, description_or_fallback, hourly_entries, hourly_entry,
    icon_for, instants, reading, Limits, LocalTimes,
};
use weather::clock::TimeStyle;

const DAY: u64 = 86400;
const NOON: u64 = 1751976000; // Tue, Jul 8 2025, 12:00 UTC

fn condition(description: &str, icon: &str) -> WeatherCondition {
    WeatherCondition {
        id: 800,
        main: "Main".to_string(),
        description: description.to_string(),
        icon: icon.to_string(),
    }
}

fn day(dt: u64, min: i64, max: i64, weather: Vec<WeatherCondition>) -> DailyWeather {
    DailyWeather {
        dt,
        sunrise: dt - 6 * 3600,
        sunset: dt + 8 * 3600,
        moonrise: dt,
        moonset: dt,
        moon_phase: 25,
        summary: "Summary".to_string(),
        temp: DailyTemp { day: max - 10, min, max, night: min + 5, eve: max - 30, morn: min + 10 },
        feels_like: DailyFeelsLike { day: max, night: min, eve: max, morn: min },
        pressure: 1015,
        humidity: 60,
        dew_point: 650,
        wind_speed: 512,
        wind_deg: 180,
        wind_gust: None,
        weather,
        clouds: 20,
        pop: 35,
        rain: Some(120),
        uvi: 912,
    }
}

fn hour(dt: u64, temp: i64, weather: Vec<WeatherCondition>) -> HourlyWeather {
    HourlyWeather {
        dt,
        temp,
        feels_like: temp + 12,
        pressure: 1015,
        humidity: 60,
        dew_point: 650,
        uvi: 100,
        clouds: 20,
        visibility: 10000,
        wind_speed: 512,
        wind_deg: 180,
        wind_gust: Some(900),
        weather,
        pop: 0,
    }
}

fn week(n: usize) -> Vec<DailyWeather> {
    (0..n)
        .map(|i| {
            day(
                NOON + i as u64 * DAY,
                600 + i as i64,
                800 + i as i64,
                vec![condition(&format!("day {}", i), "01d")],
            )
        })
        .collect()
}

fn hours(n: usize) -> Vec<HourlyWeather> {
    (0..n)
        .map(|i| hour(NOON + i as u64 * 3600, 700 + i as i64, vec![condition(&format!("hour {}", i), "10n")]))
        .collect()
}

fn utc(count: usize) -> Vec<Option<i32>> {
    vec![Some(0); count]
}

fn response(daily: Vec<DailyWeather>, hourly: Vec<HourlyWeather>) -> WeatherResponse {
    WeatherResponse {
        lat: 339519,
        lon: -833576,
        timezone: "America/New_York".to_string(),
        timezone_offset: -14400,
        current: CurrentWeather {
            dt: NOON,
            sunrise: NOON - 6 * 3600,
            sunset: NOON + 8 * 3600 + 1380,
            temp: 725,
            feels_like: 740,
            pressure: 1015,
            humidity: 60,
            dew_point: 650,
            uvi: 912,
            clouds: 20,
            visibility: 10000,
            wind_speed: 512,
            wind_deg: 180,
            weather: vec![condition("clear sky", "01d")],
        },
        hourly,
        daily,
    }
}

#[test]
fn a_record_without_a_condition_gets_the_fallback_text() {
    assert_eq!(description_or_fallback(&vec![]), "No description");
    assert_ne!(description_or_fallback(&vec![]), "");
}

#[test]
fn the_first_condition_speaks_for_the_record() {
    let conditions = vec![condition("light rain", "10d"), condition("mist", "50d")];
    assert_eq!(description_or_fallback(&conditions), "light rain");
    assert_eq!(icon_for(&conditions), "wi-day-rain");
}

#[test]
fn an_empty_description_is_kept_as_it_is() {
    assert_eq!(description_or_fallback(&vec![condition("", "01d")]), "");
}

#[test]
fn a_record_without_a_condition_gets_the_fallback_icon() {
    assert_eq!(icon_for(&vec![]), "wi-na");
    assert_eq!(icon_for(&vec![condition("odd", "77x")]), "wi-na");
}

#[test]
fn a_daily_line() {
    let d = day(NOON, 684, 913, vec![condition("scattered clouds", "03d")]);
    let line = daily_entry(&d, Some(0)).unwrap();
    assert_eq!(line.date, "Tue, Jul  8");
    assert_eq!(line.min, "68.4");
    assert_eq!(line.max, "91.3");
    assert_eq!(line.description, "scattered clouds");
    assert_eq!(line.icon, "wi-cloud");
}

#[test]
fn a_daily_line_without_a_condition() {
    let d = day(NOON, -4, 0, vec![]);
    let line = daily_entry(&d, Some(0)).unwrap();
    assert_eq!(line.min, "-0.4");
    assert_eq!(line.max, "0.0");
    assert_eq!(line.description, "No description");
    assert_eq!(line.icon, "wi-na");
}

#[test]
fn an_hourly_line() {
    let h = hour(NOON, 725, vec![condition("thunderstorm", "11n")]);
    let line = hourly_entry(&h, Some(9 * 3600)).unwrap();
    assert_eq!(line.time, "9 PM");
    assert_eq!(line.temp, "72.5");
    assert_eq!(line.description, "thunderstorm");
    assert_eq!(line.icon, "wi-thunderstorm");
}

#[test]
fn an_hourly_line_without_a_condition() {
    let line = hourly_entry(&hour(NOON, 700, vec![]), Some(0)).unwrap();
    assert_eq!(line.time, "12 PM");
    assert_eq!(line.description, "No description");
    assert_eq!(line.icon, "wi-na");
}

#[test]
fn a_line_is_left_out_where_its_time_cannot_be_written() {
    let d = day(NOON, 600, 800, vec![]);
    assert!(daily_entry(&d, None).is_none());
    assert!(daily_entry(&d, Some(86400)).is_none());
    assert!(daily_entry(&day(1 << 62, 600, 800, vec![]), Some(0)).is_none());
    let h = hour(NOON, 700, vec![]);
    assert!(hourly_entry(&h, None).is_none());
    assert!(hourly_entry(&h, Some(-86400)).is_none());
    assert!(hourly_entry(&hour(1 << 62, 700, vec![]), Some(0)).is_none());
}

#[test]
fn the_line_goes_by_local_time() {
    let d = day(NOON, 600, 800, vec![]);
    let line = daily_entry(&d, Some(-14 * 3600)).unwrap();
    assert_eq!(line.date, "Mon, Jul  7");
}

#[test]
fn an_optional_reading_in_text() {
    assert_eq!(reading(NOON, Some(0), TimeStyle::Clock), Some("12:00 PM".to_string()));
    assert_eq!(reading(NOON, Some(3600), TimeStyle::Clock), Some(" 1:00 PM".to_string()));
    assert_eq!(reading(NOON, None, TimeStyle::Clock), None);
    assert_eq!(reading(NOON, Some(i32::MAX), TimeStyle::Clock), None);
    assert_eq!(reading(1 << 62, Some(0), TimeStyle::Clock), None);
}

#[test]
fn three_days_under_a_limit_of_seven_are_three_lines() {
    let days = week(3);
    let offsets = utc(days.len());
    let lines = daily_entries(&days, &offsets, 7);
    assert_eq!(lines.len(), 3);
    assert_eq!(lines[0].date, "Tue, Jul  8");
    assert_eq!(lines[1].date, "Wed, Jul  9");
    assert_eq!(lines[2].date, "Thu, Jul 10");
}

#[test]
fn the_first_days_are_kept_in_their_order() {
    let days = week(8);
    let offsets = utc(days.len());
    for limit in [6usize, 7, 12] {
        let lines = daily_entries(&days, &offsets, limit);
        let expected = limit.min(8);
        assert_eq!(lines.len(), expected);
        for (i, line) in lines.iter().enumerate() {
            assert_eq!(line.description, format!("day {}", i));
            assert_eq!(line.min, format!("60.{}", i));
            assert_eq!(line.max, format!("80.{}", i));
        }
    }
}

#[test]
fn the_first_hours_are_kept_in_their_order() {
    let all = hours(15);
    let offsets = utc(all.len());
    for limit in [6usize, 7, 12] {
        let lines = hourly_entries(&all, &offsets, limit);
        assert_eq!(lines.len(), limit);
        for (i, line) in lines.iter().enumerate() {
            assert_eq!(line.description, format!("hour {}", i));
            assert_eq!(line.icon, "wi-night-alt-rain");
        }
    }
    let lines = hourly_entries(&all, &offsets, 12);
    let times: Vec<&str> = lines.iter().map(|l| l.time.as_str()).collect();
    assert_eq!(
        times,
        ["12 PM", "1 PM", "2 PM", "3 PM", "4 PM", "5 PM", "6 PM", "7 PM", "8 PM", "9 PM", "10 PM", "11 PM"]
    );
}

#[test]
fn what_follows_the_limit_does_not_matter() {
    let long = week(9);
    let short: Vec<DailyWeather> = long.iter().take(6).cloned().collect();
    let offsets = utc(long.len());
    let from_long = daily_entries(&long, &offsets, 6);
    let from_short = daily_entries(&short, &offsets, 6);
    assert_eq!(from_long.len(), from_short.len());
    for (a, b) in from_long.iter().zip(from_short.iter()) {
        assert_eq!((&a.date, &a.min, &a.max, &a.description, &a.icon), (&b.date, &b.min, &b.max, &b.description, &b.icon));
    }
}

#[test]
fn a_limit_of_zero_or_an_empty_forecast_shows_nothing() {
    let days = week(3);
    let offsets = utc(days.len());
    assert!(daily_entries(&days, &offsets, 0).is_empty());
    assert!(daily_entries(&vec![], &offsets, 7).is_empty());
    assert!(hourly_entries(&vec![], &vec![], 12).is_empty());
}

#[test]
fn days_without_a_reading_are_skipped_and_the_rest_stay_in_order() {
    let days = week(5);
    let offsets = vec![Some(0), None, Some(0), Some(i32::MAX)];
    let lines = daily_entries(&days, &offsets, 7);
    let shown: Vec<&str> = lines.iter().map(|l| l.description.as_str()).collect();
    assert_eq!(shown, ["day 0", "day 2"]);
}

#[test]
fn a_whole_report() {
    let weather = response(week(8), hours(48));
    let times = LocalTimes {
        sunrise: Some(-4 * 3600),
        sunset: Some(-4 * 3600),
        daily: vec![Some(-4 * 3600); 6],
        hourly: vec![Some(-4 * 3600); 6],
    };
    let report = assemble(&weather, &Limits::standard(), &times);
    assert_eq!(report.current_temp, "72.5");
    assert_eq!(report.sunrise, Some(" 2:00 AM".to_string()));
    assert_eq!(report.sunset, Some(" 4:23 PM".to_string()));
    assert_eq!(report.daily.len(), 6);
    assert_eq!(report.hourly.len(), 6);
    assert_eq!(report.daily[5].date, "Sun, Jul 13");
    assert_eq!(report.daily[5].max, "80.5");
    assert_eq!(report.hourly[0].time, "8 AM");
    assert_eq!(report.hourly[5].time, "1 PM");
    assert_eq!(report.hourly[5].temp, "70.5");
}

#[test]
fn sunrise_and_sunset_are_left_out_where_they_cannot_be_written() {
    let weather = response(vec![], vec![]);
    let times = LocalTimes { sunrise: None, sunset: Some(i32::MAX), daily: vec![], hourly: vec![] };
    let report = assemble(&weather, &Limits::long(), &times);
    assert_eq!(report.sunrise, None);
    assert_eq!(report.sunset, None);
    assert_eq!(report.current_temp, "72.5");
    assert!(report.daily.is_empty());
    assert!(report.hourly.is_empty());
}

#[test]
fn the_limits() {
    assert_eq!(Limits::standard(), Limits { days: 6, hours: 6 });
    assert_eq!(Limits::long(), Limits { days: 7, hours: 12 });
}

#[test]
fn the_instants_of_a_report_are_those_of_the_records_that_are_looked_at() {
    let weather = response(week(8), hours(4));
    let wanted = instants(&weather, &Limits::long());
    assert_eq!(wanted.sunrise, weather.current.sunrise as i64);
    assert_eq!(wanted.sunset, weather.current.sunset as i64);
    let days: Vec<i64> = weather.daily.iter().take(7).map(|d| d.dt as i64).collect();
    let hrs: Vec<i64> = weather.hourly.iter().map(|h| h.dt as i64).collect();
    assert_eq!(wanted.daily, days);
    assert_eq!(wanted.hourly, hrs);
    let none = instants(&response(vec![], vec![]), &Limits::standard());
    assert!(none.daily.is_empty() && none.hourly.is_empty());
    let cut = instants(&weather, &Limits { days: 0, hours: 1 });
    assert!(cut.daily.is_empty());
    assert_eq!(cut.hourly, hrs[..1]);
}

#[test]
fn instants_beyond_the_signed_range_wrap() {
    let mut weather = response(week(1), vec![]);
    weather.current.sunrise = u64::MAX;
    weather.daily[0].dt = 1 << 63;
    let wanted = instants(&weather, &Limits::standard());
    assert_eq!(wanted.sunrise, -1);
    assert_eq!(wanted.daily, [i64::MIN]);
}

fn machine_offset(instant: i64) -> Option<i32> {
    chrono::TimeZone::timestamp_opt(&chrono::Local, instant, 0)
        .single()
        .map(|local| local.offset().local_minus_utc())
}

fn machine_times(weather: &WeatherResponse, limits: &Limits) -> LocalTimes {
    let wanted = instants(weather, limits);
    LocalTimes {
        sunrise: machine_offset(wanted.sunrise),
        sunset: machine_offset(wanted.sunset),
        daily: wanted.daily.iter().map(|t| machine_offset(*t)).collect(),
        hourly: wanted.hourly.iter().map(|t| machine_offset(*t)).collect(),
    }
}

#[test]
fn the_report_in_the_machines_time_zone() {
    let weather = response(week(3), hours(48));
    let limits = Limits::long();
    let report = assemble(&weather, &limits, &machine_times(&weather, &limits));
    assert_eq!(report.current_temp, "72.5");
    assert_eq!(report.daily.len(), 3);
    assert_eq!(report.hourly.len(), 12);
    assert!(report.sunrise.is_some());
    assert!(report.sunset.is_some());
    for (i, line) in report.daily.iter().enumerate() {
        assert_eq!(line.description, format!("day {}", i));
    }
}

#[test]
fn a_record_beyond_the_calendar_has_no_line() {
    let mut days = week(3);
    days[1].dt = 1 << 62;
    let weather = response(days, hours(2));
    let limits = Limits::standard();
    let times = machine_times(&weather, &limits);
    assert_eq!(times.daily.len(), 3);
    assert_eq!(times.daily[1], None);
    let report = assemble(&weather, &limits, &times);
    let shown: Vec<&str> = report.daily.iter().map(|l| l.description.as_str()).collect();
    assert_eq!(shown, ["day 0", "day 2"]);
    assert_eq!(report.hourly.len(), 2);
    let forced = LocalTimes { daily: vec![Some(0); 3], ..times };
    let report = assemble(&weather, &limits, &forced);
    assert_eq!(report.daily.len(), 2);
}
