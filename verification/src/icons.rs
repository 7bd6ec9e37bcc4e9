//! Mapping of the provider's icon codes to icon class names.

use crate::text::same_text;
use vstd::prelude::*;
use vstd::string::*;

verus! {

/// The class shown for a code that the table does not list.
pub open spec fn fallback_class() -> Seq<char> {
    "wi-na"@
}

/// The codes that the table lists: nine icon groups, each by day and by night.
pub open spec fn is_known_icon(code: Seq<char>) -> bool {
    ||| code == "01d"@
    ||| code == "01n"@
    ||| code == "02d"@
    ||| code == "02n"@
    ||| code == "03d"@
    ||| code == "03n"@
    ||| code == "04d"@
    ||| code == "04n"@
    ||| code == "09d"@
    ||| code == "09n"@
    ||| code == "10d"@
    ||| code == "10n"@
    ||| code == "11d"@
    ||| code == "11n"@
    ||| code == "13d"@
    ||| code == "13n"@
    ||| code == "50d"@
    ||| code == "50n"@
}

/// The lookup table. Clear sky, few clouds and rain have a class of their own
/// by day and by night; the other groups share one class for both.
pub open spec fn icon_class(code: Seq<char>) -> Seq<char> {
    if code == "01d"@ {
        "wi-day-sunny"@
    } else if code == "01n"@ {
        "wi-night-clear"@
    } else if code == "02d"@ {
        "wi-day-cloudy"@
    } else if code == "02n"@ {
        "wi-night-alt-cloudy"@
    } else if code == "03d"@ || code == "03n"@ {
        "wi-cloud"@
    } else if code == "04d"@ || code == "04n"@ {
        "wi-cloudy"@
    } else if code == "09d"@ || code == "09n"@ {
        "wi-showers"@
    } else if code == "10d"@ {
        "wi-day-rain"@
    } else if code == "10n"@ {
        "wi-night-alt-rain"@
    } else if code == "11d"@ || code == "11n"@ {
        "wi-thunderstorm"@
    } else if code == "13d"@ || code == "13n"@ {
        "wi-snow"@
    } else if code == "50d"@ || code == "50n"@ {
        "wi-fog"@
    } else {
        fallback_class()
    }
}

/// The mapping is total, and it tells listed codes from unlisted ones: a
/// listed code never gets the fallback class, an unlisted code always does.
pub proof fn lemma_icon_mapping_total(code: Seq<char>)
    ensures
        is_known_icon(code) ==> icon_class(code) != fallback_class(),
        !is_known_icon(code) ==> icon_class(code) == fallback_class(),
{
    reveal_strlit("wi-na");
    reveal_strlit("wi-day-sunny");
    reveal_strlit("wi-night-clear");
    reveal_strlit("wi-day-cloudy");
    reveal_strlit("wi-night-alt-cloudy");
    reveal_strlit("wi-cloud");
    reveal_strlit("wi-cloudy");
    reveal_strlit("wi-showers");
    reveal_strlit("wi-day-rain");
    reveal_strlit("wi-night-alt-rain");
    reveal_strlit("wi-thunderstorm");
    reveal_strlit("wi-snow");
    reveal_strlit("wi-fog");
    if is_known_icon(code) {
        assert(icon_class(code).len() != fallback_class().len());
    }
}

/// Maps a provider icon code to its icon class.
pub fn map_icon_to_class(icon: &str) -> (class: &'static str)
    ensures
        class@ == icon_class(icon@),
{
    if same_text(icon, "01d") {
        "wi-day-sunny"
    } else if same_text(icon, "01n") {
        "wi-night-clear"
    } else if same_text(icon, "02d") {
        "wi-day-cloudy"
    } else if same_text(icon, "02n") {
        "wi-night-alt-cloudy"
    } else if same_text(icon, "03d") || same_text(icon, "03n") {
        "wi-cloud"
    } else if same_text(icon, "04d") || same_text(icon, "04n") {
        "wi-cloudy"
    } else if same_text(icon, "09d") || same_text(icon, "09n") {
        "wi-showers"
    } else if same_text(icon, "10d") {
        "wi-day-rain"
    } else if same_text(icon, "10n") {
        "wi-night-alt-rain"
    } else if same_text(icon, "11d") || same_text(icon, "11n") {
        "wi-thunderstorm"
    } else if same_text(icon, "13d") || same_text(icon, "13n") {
        "wi-snow"
    } else if same_text(icon, "50d") || same_text(icon, "50n") {
        "wi-fog"
    } else {
        "wi-na"
    }
}

} // verus!
