//! The request to the provider: what is asked, and how the answer's status
//! is judged. Sending the request is the caller's part.

use crate::decimal::{decimal, decimal_text, fixed_point, ten_thousandths_text};
use crate::error::{ErrorKind, WeatherError};
use vstd::prelude::*;
use vstd::string::*;

verus! {

/// Latitude of the place the report is for, in ten-thousandths of a degree.
pub const DEFAULT_LAT: i64 = 339519;

/// Longitude of the place the report is for, in ten-thousandths of a degree.
pub const DEFAULT_LON: i64 = -833576;

/// What a request needs: the key and the place. Coordinates are in
/// ten-thousandths of a degree.
#[derive(Debug, Clone)]
pub struct FetchConfig {
    pub api_key: String,
    pub lat: i64,
    pub lon: i64,
}

/// The address of the forecast for the configured place, in imperial units.
pub open spec fn request_url_spec(api_key: Seq<char>, lat: int, lon: int) -> Seq<char> {
    "https://api.openweathermap.org/data/3.0/onecall?lat="@ + fixed_point(lat, 4) + "&lon="@
        + fixed_point(lon, 4) + "&units=imperial&appid="@ + api_key
}

/// The success range of HTTP status codes.
pub open spec fn is_success(status: u16) -> bool {
    200 <= status < 300
}

/// What is said of a missing key.
pub open spec fn missing_key_detail() -> Seq<char> {
    "OWM_API_KEY is not set"@
}

/// What is said of a status outside the success range.
pub open spec fn status_detail(status: u16) -> Seq<char> {
    "the provider answered with status "@ + decimal(status as nat)
}

impl FetchConfig {
    /// The configuration for the default place, from the key as it was found
    /// in the environment. A missing key is a configuration error.
    pub fn from_key(key: Option<String>) -> (config: Result<FetchConfig, WeatherError>)
        ensures
            key is None <==> config is Err,
            config matches Err(error) ==> error.kind == ErrorKind::Configuration && error.detail@
                == missing_key_detail(),
            config matches Ok(c) ==> c.api_key@ == key->0@ && c.lat == DEFAULT_LAT && c.lon
                == DEFAULT_LON,
    {
        match key {
            Some(api_key) => Ok(FetchConfig { api_key, lat: DEFAULT_LAT, lon: DEFAULT_LON }),
            None => Err(WeatherError::new(ErrorKind::Configuration, "OWM_API_KEY is not set")),
        }
    }

    /// The address to request.
    pub fn request_url(&self) -> (url: String)
        ensures
            url@ == request_url_spec(self.api_key@, self.lat as int, self.lon as int),
    {
        let mut url = String::from_str("https://api.openweathermap.org/data/3.0/onecall?lat=");
        url.append(ten_thousandths_text(self.lat).as_str());
        url.append("&lon=");
        url.append(ten_thousandths_text(self.lon).as_str());
        url.append("&units=imperial&appid=");
        url.append(self.api_key.as_str());
        url
    }
}

/// Judges the status code of the provider's answer: a code outside the
/// success range is an error, whatever the body holds.
pub fn check_status(status: u16) -> (checked: Result<(), WeatherError>)
    ensures
        checked is Ok <==> is_success(status),
        checked matches Err(error) ==> error.kind == ErrorKind::HttpStatus && error.detail@
            == status_detail(status),
{
    if 200 <= status && status < 300 {
        Ok(())
    } else {
        let mut detail = String::from_str("the provider answered with status ");
        detail.append(decimal_text(status as u64).as_str());
        Err(WeatherError { kind: ErrorKind::HttpStatus, detail })
    }
}

} // verus!
