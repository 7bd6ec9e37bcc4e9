use weather::icons::map_icon_to_class;

#[test]
fn every_listed_code_has_its_class() {
    let table = [
        ("01d", "wi-day-sunny"),
        ("01n", "wi-night-clear"),
        ("02d", "wi-day-cloudy"),
        ("02n", "wi-night-alt-cloudy"),
        ("03d", "wi-cloud"),
        ("03n", "wi-cloud"),
        ("04d", "wi-cloudy"),
        ("04n", "wi-cloudy"),
        ("09d", "wi-showers"),
        ("09n", "wi-showers"),
        ("10d", "wi-day-rain"),
        ("10n", "wi-night-alt-rain"),
        ("11d", "wi-thunderstorm"),
        ("11n", "wi-thunderstorm"),
        ("13d", "wi-snow"),
        ("13n", "wi-snow"),
        ("50d", "wi-fog"),
        ("50n", "wi-fog"),
    ];
    for (code, class) in table {
        assert_eq!(map_icon_to_class(code), class, "code {}", code);
        assert_ne!(map_icon_to_class(code), "wi-na", "code {}", code);
    }
}

#[test]
fn unlisted_codes_get_the_fallback() {
    for code in ["", "na", "01", "01x", "01D", "1d", "01d ", " 01d", "12d", "99n", "wi-fog", "０１d"] {
        assert_eq!(map_icon_to_class(code), "wi-na", "code {:?}", code);
    }
}

#[test]
fn thunderstorm_is_shared_by_day_and_night() {
    assert_eq!(map_icon_to_class("11n"), "wi-thunderstorm");
    assert_eq!(map_icon_to_class("11n"), map_icon_to_class("11d"));
}

#[test]
fn clouds_are_shared_by_day_and_night() {
    assert_eq!(map_icon_to_class("03d"), map_icon_to_class("03n"));
    assert_eq!(map_icon_to_class("04d"), map_icon_to_class("04n"));
}

#[test]
fn clear_sky_differs_by_day_and_night() {
    assert_ne!(map_icon_to_class("01d"), map_icon_to_class("01n"));
    assert_ne!(map_icon_to_class("02d"), map_icon_to_class("02n"));
    assert_ne!(map_icon_to_class("10d"), map_icon_to_class("10n"));
}

#[test]
fn the_mapping_gives_the_same_class_each_time() {
    for code in ["01d", "11n", "zz", ""] {
        assert_eq!(map_icon_to_class(code), map_icon_to_class(code));
    }
}
