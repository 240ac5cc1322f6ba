use vstd::prelude::*;

use vstd::string::StringExecFns;

use crate::forecast::{lat_long_text, LatLong};

verus! {

/// Why a forecast could not be had.
#[derive(Debug, Clone, Copy, PartialEq, Eq, Structural)]
pub enum FetchError {
    /// The HTTP client could not be created.
    HttpClientError,
    /// The request URL could not be formed.
    UrlError,
    /// The request body could not be encoded.
    SerializeParseError,
    /// The response body was not a forecast document.
    DeserializeParseError,
    /// The outgoing request could not be made.
    RequestError,
    /// The HTTP exchange failed.
    HyperError,
    /// Reading or writing failed.
    IoError,
    /// The server answered with this non-success status.
    HttpError(u16),
    /// No answer came in time.
    TimeoutError,
    /// A header or parameter value was refused.
    InvalidValue,
    /// The response held a timestamp too far from the epoch to be dated.
    TimestampOutOfRange,
}

/// A source of provider forecasts: the network in production, a fixed
/// document in tests.
pub trait DarkSkyClient {
    fn forecasts(&mut self) -> Result<DSForecasts, FetchError>;
}

/// The request path `forecast/<token>/<latitude>,<longitude>`.
pub open spec fn forecast_path_text(token: Seq<char>, location: LatLong) -> Seq<char> {
    "forecast/"@ + token + "/"@ + lat_long_text(location)
}

/// Where and for whom forecasts are requested.
pub struct DarkSkyRestClient {
    pub token: String,
    pub location: LatLong,
}

impl DarkSkyRestClient {
    pub fn new(token: String, location: LatLong) -> (r: DarkSkyRestClient)
        ensures
            r.token == token,
            r.location == location,
    {
        DarkSkyRestClient { token, location }
    }

    /// The request path of the forecast for this token and place,
    /// relative to the provider's base URL.
    pub fn forecast_path(&self) -> (r: String)
        ensures
            r@ == forecast_path_text(self.token@, self.location),
    {
        let mut out = String::new();
        out.append("forecast/");
        out.append(self.token.as_str());
        out.append("/");
        let place = self.location.to_string();
        out.append(place.as_str());
        out
    }
}

/// A provider response: daily and hourly series and the current conditions.
#[derive(Debug, Clone)]
pub struct DSForecasts {
    pub daily: DSData,
    pub hourly: DSData,
    pub currently: DSCurrent,
}

/// One series of provider points.
#[derive(Debug, Clone)]
pub struct DSData {
    pub summary: String,
    pub data: Vec<DSForecast>,
}

/// One provider point. Probabilities are in hundredths of a percent,
/// temperatures in tenths of a degree, `time` in seconds since the epoch.
#[derive(Debug, Clone)]
pub struct DSForecast {
    pub time: i64,
    pub icon: String,
    pub precip_probability: Option<u32>,
    pub temperature_high: Option<i32>,
    pub temperature_low: Option<i32>,
}

/// The provider's current conditions, in the units of [`DSForecast`].
#[derive(Debug, Clone)]
pub struct DSCurrent {
    pub temperature: i32,
    pub icon: String,
    pub precip_probability: Option<u32>,
}

} // verus!
