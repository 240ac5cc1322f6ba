use vstd::prelude::*;

use crate::darksky_client::FetchError;
use crate::decimal::{micro_text, push_micro};
use crate::display::Glyph;
use vstd::string::StringExecFns;

verus! {

/// The weather conditions this library tells apart.
#[derive(Debug, Clone, Copy, PartialEq, Eq, Structural)]
pub enum Weather {
    Sunny,
    PartSun,
    Cloudy,
    Showers,
    Rain,
    Snow,
    Fog,
    Unknown,
}

} // verus!

verus! {

/// A day of the week.
#[derive(Debug, Clone, Copy, PartialEq, Eq, Structural)]
pub enum Weekday {
    Mon,
    Tue,
    Wed,
    Thu,
    Fri,
    Sat,
    Sun,
}

/// The one-letter abbreviation of a weekday.
pub open spec fn abbr_of(d: Weekday) -> char {
    match d {
        Weekday::Mon => 'M',
        Weekday::Tue => 'T',
        Weekday::Wed => 'W',
        Weekday::Thu => 'T',
        Weekday::Fri => 'F',
        Weekday::Sat => 'S',
        Weekday::Sun => 'S',
    }
}

/// The weekday that lies `n` days after a Monday.
pub open spec fn weekday_from_monday(n: u32) -> Weekday
    recommends
        n < 7,
{
    if n == 0 {
        Weekday::Mon
    } else if n == 1 {
        Weekday::Tue
    } else if n == 2 {
        Weekday::Wed
    } else if n == 3 {
        Weekday::Thu
    } else if n == 4 {
        Weekday::Fri
    } else if n == 5 {
        Weekday::Sat
    } else {
        Weekday::Sun
    }
}

impl Weekday {
    /// The weekday `n` days after a Monday, for `n` below seven.
    pub fn from_monday(n: u32) -> (r: Weekday)
        requires
            n < 7,
        ensures
            r == weekday_from_monday(n),
    {
        if n == 0 {
            Weekday::Mon
        } else if n == 1 {
            Weekday::Tue
        } else if n == 2 {
            Weekday::Wed
        } else if n == 3 {
            Weekday::Thu
        } else if n == 4 {
            Weekday::Fri
        } else if n == 5 {
            Weekday::Sat
        } else {
            Weekday::Sun
        }
    }

    /// One letter for the day: M T W T F S S.
    pub fn abbr(&self) -> (r: char)
        ensures
            r == abbr_of(*self),
    {
        match self {
            Weekday::Mon => 'M',
            Weekday::Tue => 'T',
            Weekday::Wed => 'W',
            Weekday::Thu => 'T',
            Weekday::Fri => 'F',
            Weekday::Sat => 'S',
            Weekday::Sun => 'S',
        }
    }
}

/// A calendar date in the local time zone.
#[derive(Debug, Clone, Copy, PartialEq, Eq, Structural)]
pub struct LocalDate {
    pub year: i32,
    /// 1 to 12.
    pub month: u32,
    /// 1 to 31.
    pub day: u32,
    pub weekday: Weekday,
}

impl LocalDate {
    pub open spec fn wf(&self) -> bool {
        &&& 1 <= self.month <= 12
        &&& 1 <= self.day <= 31
    }
}

/// An instant, with the offset of the local time zone at that instant.
#[derive(Debug, Clone, Copy, PartialEq, Eq, Structural)]
pub struct LocalTime {
    /// Seconds since 1970-01-01 00:00:00 UTC.
    pub epoch_seconds: i64,
    /// Local time minus UTC, in seconds.
    pub utc_offset: i32,
}

impl LocalTime {
    pub open spec fn wf(&self) -> bool {
        -86400 < self.utc_offset < 86400
    }
}

/// Largest distance from the epoch, in seconds, of a timestamp that is turned
/// into a local date or time (some 253,000 years, inside the calendar range of
/// the date library that does the conversion).
pub const TIMESTAMP_LIMIT: i64 = 8_000_000_000_000;

/// Whether a provider timestamp lies in the range that is turned into dates and times.
pub open spec fn timestamp_in_range(seconds: i64) -> bool {
    -TIMESTAMP_LIMIT <= seconds <= TIMESTAMP_LIMIT
}

/// Seconds in a day.
pub const SECONDS_PER_DAY: i64 = 86400;

/// The proleptic Gregorian date `days` days after 1970-01-01, as
/// (year, month, day).
pub open spec fn civil_from_days(days: int) -> (int, int, int) {
    let z = days + 719468;
    let era = z / 146097;
    let doe = z - era * 146097;
    let yoe = (doe - doe / 1460 + doe / 36524 - doe / 146096) / 365;
    let doy = doe - (365 * yoe + yoe / 4 - yoe / 100);
    let mp = (5 * doy + 2) / 153;
    let day = doy - (153 * mp + 2) / 5 + 1;
    let month = if mp < 10 { mp + 3 } else { mp - 9 };
    let year = yoe + era * 400 + if month <= 2 { 1int } else { 0int };
    (year, month, day)
}

/// The local calendar date of an instant: the date of the day that holds
/// the instant shifted by its offset, counted from 1970-01-01 (a Thursday).
pub open spec fn local_date_of(t: LocalTime) -> LocalDate {
    let days = (t.epoch_seconds + t.utc_offset) / (SECONDS_PER_DAY as int);
    let (year, month, day) = civil_from_days(days);
    LocalDate {
        year: year as i32,
        month: month as u32,
        day: day as u32,
        weekday: weekday_from_monday(((days + 3) % 7) as u32),
    }
}

/// `d` is the local date of the timestamp `seconds`, under some offset of
/// less than a day.
pub open spec fn is_local_date_of(d: LocalDate, seconds: i64) -> bool {
    exists|t: LocalTime| t.epoch_seconds == seconds && t.wf() && d == #[trigger] local_date_of(t)
}

/// One normalised forecast entry.
///
/// `precip_chance` is in hundredths of a percent (0 to 10000 stands for 0.0 to 1.0),
/// `temp` in tenths of a degree. A daily entry has a `date` and no `time`, an
/// hourly one a `time` and no `date`.
#[derive(Debug, Clone, Copy, PartialEq, Eq, Structural)]
pub struct Forecast {
    pub weather: Weather,
    pub precip_chance: u32,
    pub temp: Option<i32>,
    pub date: Option<LocalDate>,
    pub time: Option<LocalTime>,
}

impl Forecast {
    /// Exactly one of `date` and `time` is set.
    pub open spec fn has_one_moment(&self) -> bool {
        self.date.is_some() != self.time.is_some()
    }

    /// A daily entry: a well-formed date and no time.
    pub open spec fn is_daily(&self) -> bool {
        &&& self.date.is_some()
        &&& self.date.unwrap().wf()
        &&& self.time.is_none()
    }

    /// An hourly entry: a well-formed time and no date.
    pub open spec fn is_hourly(&self) -> bool {
        &&& self.time.is_some()
        &&& self.time.unwrap().wf()
        &&& self.date.is_none()
    }

    pub fn new(
        weather: Weather,
        precip_chance: u32,
        temp: Option<i32>,
        date: Option<LocalDate>,
        time: Option<LocalTime>,
    ) -> (r: Forecast)
        ensures
            r == (Forecast { weather, precip_chance, temp, date, time }),
    {
        Forecast { weather, precip_chance, temp, date, time }
    }

    /// An entry for a calendar day.
    pub fn for_date(weather: Weather, precip_chance: u32, temp: Option<i32>, date: Option<LocalDate>) -> (r: Forecast)
        ensures
            r == (Forecast { weather, precip_chance, temp, date, time: None }),
    {
        Forecast::new(weather, precip_chance, temp, date, None)
    }

    /// An entry for an instant.
    pub fn for_time(weather: Weather, precip_chance: u32, temp: Option<i32>, time: Option<LocalTime>) -> (r: Forecast)
        ensures
            r == (Forecast { weather, precip_chance, temp, date: None, time }),
    {
        Forecast::new(weather, precip_chance, temp, None, time)
    }
}

} // verus!

verus! {

/// A place on Earth, in millionths of a degree.
#[derive(Debug, Clone, Copy, PartialEq, Eq, Structural)]
pub struct LatLong {
    pub latitude: i32,
    pub longitude: i32,
}

} // verus!

verus! {

/// Forecasts for the place at hand. Daily entries carry a date and no time,
/// hourly ones and the current conditions a time and no date; errors of the
/// underlying source are handed on.
pub trait Forecaster {
    fn daily_forecast(&mut self) -> (r: Result<Vec<Forecast>, FetchError>)
        ensures
            r is Ok ==> forall|i: int| 0 <= i < r->Ok_0@.len() ==> (#[trigger] r->Ok_0@[i]).is_daily(),
    ;

    fn hourly_forecast(&mut self) -> (r: Result<Vec<Forecast>, FetchError>)
        ensures
            r is Ok ==> forall|i: int| 0 <= i < r->Ok_0@.len() ==> (#[trigger] r->Ok_0@[i]).is_hourly(),
    ;

    fn current(&mut self) -> (r: Result<Forecast, FetchError>)
        ensures
            r is Ok ==> r->Ok_0.is_hourly(),
    ;
}

} // verus!

verus! {

/// Turns a weather and a chance of precipitation into a glyph.
pub trait WeatherFormatter {
    fn format(&self, w: Weather, precip_chance: u32) -> (r: Glyph);
}

} // verus!

verus! {

/// How a place is written: latitude, a comma, longitude, each in decimal degrees.
pub open spec fn lat_long_text(p: LatLong) -> Seq<char> {
    micro_text(p.latitude as int) + ","@ + micro_text(p.longitude as int)
}

impl LatLong {
    /// The place as `latitude,longitude` in decimal degrees ("47.698,-122.379").
    pub fn to_string(&self) -> (r: String)
        ensures
            r@ == lat_long_text(*self),
    {
        let mut out = String::new();
        push_micro(&mut out, self.latitude);
        out.append(",");
        push_micro(&mut out, self.longitude);
        out
    }
}

} // verus!
