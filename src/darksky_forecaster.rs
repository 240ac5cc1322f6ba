use vstd::prelude::*;
use vstd::string::StrSliceExecFns;

use chrono::{Datelike, TimeZone};

use crate::darksky_client::{DSCurrent, DSForecast, DSForecasts, DarkSkyClient, FetchError};
use crate::forecast::{
    is_local_date_of, local_date_of, timestamp_in_range, weekday_from_monday, Forecast, Forecaster, LocalDate, LocalTime,
    Weather, Weekday, TIMESTAMP_LIMIT,
};

verus! {

/// The weather that a provider icon name stands for.
pub open spec fn weather_of(icon: Seq<char>) -> Weather {
    if icon == "clear-day"@ || icon == "clear-night"@ {
        Weather::Sunny
    } else if icon == "partly-cloudy-day"@ || icon == "partly-cloudy-night"@ {
        Weather::PartSun
    } else if icon == "cloudy"@ {
        Weather::Cloudy
    } else if icon == "rain"@ {
        Weather::Rain
    } else if icon == "fog"@ {
        Weather::Fog
    } else if icon == "snow"@ {
        Weather::Snow
    } else {
        Weather::Unknown
    }
}

/// A missing precipitation probability counts as none.
pub open spec fn precip_or_zero(p: Option<u32>) -> u32 {
    match p {
        Some(x) => x,
        None => 0,
    }
}

/// The daily entry for a provider point, on the given local date.
pub open spec fn daily_entry(point: DSForecast, date: LocalDate) -> Forecast {
    Forecast {
        weather: weather_of(point.icon@),
        precip_chance: precip_or_zero(point.precip_probability),
        temp: None,
        date: Some(date),
        time: None,
    }
}

/// The hourly entry for a provider point, at the given local instant.
pub open spec fn hourly_entry(point: DSForecast, time: LocalTime) -> Forecast {
    Forecast {
        weather: weather_of(point.icon@),
        precip_chance: precip_or_zero(point.precip_probability),
        temp: None,
        date: None,
        time: Some(time),
    }
}

/// The entry for the current conditions: always `Sunny`, dry, at `now`, with
/// the reported temperature.
pub open spec fn current_entry(current: DSCurrent, now: LocalTime) -> Forecast {
    Forecast {
        weather: Weather::Sunny,
        precip_chance: 0,
        temp: Some(current.temperature),
        date: None,
        time: Some(now),
    }
}

/// Every point of the series has a timestamp that can be dated.
pub open spec fn all_in_range(points: Seq<DSForecast>) -> bool {
    forall|i: int| 0 <= i < points.len() ==> timestamp_in_range(#[trigger] points[i].time)
}

/// `out` maps `points` one for one to daily entries, each on its point's local date.
pub open spec fn daily_entries(points: Seq<DSForecast>, out: Seq<Forecast>) -> bool {
    &&& out.len() == points.len()
    &&& forall|i: int|
        0 <= i < out.len() ==> {
            &&& (#[trigger] out[i]).is_daily()
            &&& out[i] == daily_entry(points[i], out[i].date.unwrap())
            &&& is_local_date_of(out[i].date.unwrap(), points[i].time)
        }
}

/// `out` maps `points` one for one to hourly entries, each at its point's instant.
pub open spec fn hourly_entries(points: Seq<DSForecast>, out: Seq<Forecast>) -> bool {
    &&& out.len() == points.len()
    &&& forall|i: int|
        0 <= i < out.len() ==> {
            &&& (#[trigger] out[i]).is_hourly()
            &&& out[i] == hourly_entry(points[i], out[i].time.unwrap())
            &&& out[i].time.unwrap().epoch_seconds == points[i].time
        }
}

/// Every mapped entry, daily or hourly, carries exactly one of a date and a time:
/// a daily one its date and no time, an hourly one its time and no date.
pub proof fn lemma_mapped_entries_have_one_moment(points: Seq<DSForecast>, out: Seq<Forecast>)
    requires
        daily_entries(points, out) || hourly_entries(points, out),
    ensures
        forall|i: int| 0 <= i < out.len() ==> (#[trigger] out[i]).has_one_moment(),
        daily_entries(points, out) ==> forall|i: int|
            0 <= i < out.len() ==> (#[trigger] out[i]).date is Some && out[i].time is None,
        hourly_entries(points, out) ==> forall|i: int|
            0 <= i < out.len() ==> (#[trigger] out[i]).time is Some && out[i].date is None,
{
}

/// A point without a precipitation probability maps to a zero chance of
/// precipitation, daily or hourly.
pub proof fn lemma_missing_precip_is_zero(point: DSForecast, date: LocalDate, time: LocalTime)
    requires
        point.precip_probability is None,
    ensures
        daily_entry(point, date).precip_chance == 0,
        hourly_entry(point, time).precip_chance == 0,
{
}

/// Character-by-character comparison of two strings.
fn same_text(a: &str, b: &str) -> (r: bool)
    ensures
        r == (a@ == b@),
{
    let n = a.unicode_len();
    if n != b.unicode_len() {
        return false;
    }
    let mut i: usize = 0;
    while i < n
        invariant
            n == a@.len(),
            n == b@.len(),
            i <= n,
            a@.subrange(0, i as int) == b@.subrange(0, i as int),
        decreases n - i,
    {
        if a.get_char(i) != b.get_char(i) {
            return false;
        }
        assert(a@.subrange(0, i + 1) == a@.subrange(0, i as int).push(a@[i as int]));
        assert(b@.subrange(0, i + 1) == b@.subrange(0, i as int).push(b@[i as int]));
        i = i + 1;
    }
    assert(a@ == a@.subrange(0, n as int));
    assert(b@ == b@.subrange(0, n as int));
    true
}

/// Classifies a provider icon name; names outside the table are `Unknown`.
pub fn weather(icon: &str) -> (r: Weather)
    ensures
        r == weather_of(icon@),
{
    if same_text(icon, "clear-day") || same_text(icon, "clear-night") {
        Weather::Sunny
    } else if same_text(icon, "partly-cloudy-day") || same_text(icon, "partly-cloudy-night") {
        Weather::PartSun
    } else if same_text(icon, "cloudy") {
        Weather::Cloudy
    } else if same_text(icon, "rain") {
        Weather::Rain
    } else if same_text(icon, "fog") {
        Weather::Fog
    } else if same_text(icon, "snow") {
        Weather::Snow
    } else {
        Weather::Unknown
    }
}

/// Relies on chrono's `TimeZone::timestamp_opt` for `Local`, which gives a single
/// local date-time for every timestamp in chrono's range, and on the offset,
/// calendar date and weekday that this date-time reports (`date_naive` is the
/// date of UTC plus the offset). Returns the instant, then year, month, day and
/// days since Monday of its local date.
#[verifier::external_body]
fn local_moment(seconds: i64) -> (r: (LocalTime, i32, u32, u32, u32))
    requires
        timestamp_in_range(seconds),
    ensures
        r.0.epoch_seconds == seconds,
        r.0.wf(),
        1 <= r.2 <= 12,
        1 <= r.3 <= 31,
        r.4 < 7,
        (LocalDate { year: r.1, month: r.2, day: r.3, weekday: weekday_from_monday(r.4) })
            == local_date_of(r.0),
{
    let t = chrono::Local.timestamp_opt(seconds, 0).unwrap();
    let d = t.date_naive();
    let time = LocalTime { epoch_seconds: t.timestamp(), utc_offset: t.offset().local_minus_utc() };
    (time, d.year(), d.month(), d.day(), d.weekday().num_days_from_monday())
}

/// Relies on chrono's `Local::now`: the present instant and the local offset then.
#[verifier::external_body]
fn local_now() -> (r: LocalTime)
    ensures
        r.wf(),
{
    let t = chrono::Local::now();
    LocalTime { epoch_seconds: t.timestamp(), utc_offset: t.offset().local_minus_utc() }
}

/// The local instant of a provider timestamp.
pub fn time_for(seconds: i64) -> (r: LocalTime)
    requires
        timestamp_in_range(seconds),
    ensures
        r.epoch_seconds == seconds,
        r.wf(),
{
    local_moment(seconds).0
}

/// The local calendar date of a provider timestamp.
pub fn date_for(seconds: i64) -> (r: LocalDate)
    requires
        timestamp_in_range(seconds),
    ensures
        r.wf(),
        is_local_date_of(r, seconds),
{
    let (time, year, month, day, from_monday) = local_moment(seconds);
    let r = LocalDate { year, month, day, weekday: Weekday::from_monday(from_monday) };
    assert(time.epoch_seconds == seconds && time.wf() && r == local_date_of(time));
    r
}

/// Whether a timestamp can be dated.
pub fn in_range(seconds: i64) -> (r: bool)
    ensures
        r == timestamp_in_range(seconds),
{
    -TIMESTAMP_LIMIT <= seconds && seconds <= TIMESTAMP_LIMIT
}

/// The daily entry of a point on a given date.
pub fn daily_entry_on(point: &DSForecast, date: LocalDate) -> (r: Forecast)
    ensures
        r == daily_entry(*point, date),
{
    let precip = match point.precip_probability {
        Some(p) => p,
        None => 0,
    };
    Forecast::for_date(weather(point.icon.as_str()), precip, None, Some(date))
}

/// The hourly entry of a point at a given instant.
pub fn hourly_entry_at(point: &DSForecast, time: LocalTime) -> (r: Forecast)
    ensures
        r == hourly_entry(*point, time),
{
    let precip = match point.precip_probability {
        Some(p) => p,
        None => 0,
    };
    Forecast::for_time(weather(point.icon.as_str()), precip, None, Some(time))
}

/// The entry for the current conditions at `now`.
pub fn current_entry_at(current: &DSCurrent, now: LocalTime) -> (r: Forecast)
    ensures
        r == current_entry(*current, now),
{
    Forecast::for_time(Weather::Sunny, 0, Some(current.temperature), Some(now))
}

/// Maps one provider point to a daily or an hourly entry in local time.
pub fn ds_to_forecast(ds_forecast: &DSForecast, daily: bool) -> (r: Forecast)
    requires
        timestamp_in_range(ds_forecast.time),
    ensures
        daily ==> r.is_daily() && r == daily_entry(*ds_forecast, r.date.unwrap())
            && is_local_date_of(r.date.unwrap(), ds_forecast.time),
        !daily ==> r.is_hourly() && r == hourly_entry(*ds_forecast, r.time.unwrap())
            && r.time.unwrap().epoch_seconds == ds_forecast.time,
{
    if daily {
        daily_entry_on(ds_forecast, date_for(ds_forecast.time))
    } else {
        hourly_entry_at(ds_forecast, time_for(ds_forecast.time))
    }
}

/// Maps a series of provider points, failing if any timestamp cannot be dated.
pub fn map_points(points: &Vec<DSForecast>, daily: bool) -> (r: Result<Vec<Forecast>, FetchError>)
    ensures
        all_in_range(points@) ==> r is Ok,
        !all_in_range(points@) ==> r == Err::<Vec<Forecast>, FetchError>(FetchError::TimestampOutOfRange),
        r is Ok && daily ==> daily_entries(points@, r->Ok_0@),
        r is Ok && !daily ==> hourly_entries(points@, r->Ok_0@),
{
    let mut k: usize = 0;
    while k < points.len()
        invariant
            k <= points@.len(),
            forall|j: int| 0 <= j < k ==> timestamp_in_range(#[trigger] points@[j].time),
        decreases points@.len() - k,
    {
        if !in_range(points[k].time) {
            return Err(FetchError::TimestampOutOfRange);
        }
        k = k + 1;
    }
    let mut out: Vec<Forecast> = Vec::new();
    let mut i: usize = 0;
    while i < points.len()
        invariant
            i <= points@.len(),
            out@.len() == i,
            all_in_range(points@),
            daily ==> daily_entries(points@.subrange(0, i as int), out@),
            !daily ==> hourly_entries(points@.subrange(0, i as int), out@),
        decreases points@.len() - i,
    {
        let f = ds_to_forecast(&points[i], daily);
        out.push(f);
        i = i + 1;
        assert(points@.subrange(0, i as int)[i - 1] == points@[i - 1]);
    }
    assert(points@.subrange(0, i as int) == points@);
    Ok(out)
}

/// Daily entries from a fetched document; a fetch error is handed on unchanged.
pub fn daily_from(fetched: Result<DSForecasts, FetchError>) -> (r: Result<Vec<Forecast>, FetchError>)
    ensures
        match fetched {
            Err(e) => r == Err::<Vec<Forecast>, FetchError>(e),
            Ok(doc) => if all_in_range(doc.daily.data@) {
                r is Ok && daily_entries(doc.daily.data@, r->Ok_0@)
            } else {
                r == Err::<Vec<Forecast>, FetchError>(FetchError::TimestampOutOfRange)
            },
        },
{
    match fetched {
        Err(e) => Err(e),
        Ok(doc) => map_points(&doc.daily.data, true),
    }
}

/// Hourly entries from a fetched document; a fetch error is handed on unchanged.
pub fn hourly_from(fetched: Result<DSForecasts, FetchError>) -> (r: Result<Vec<Forecast>, FetchError>)
    ensures
        match fetched {
            Err(e) => r == Err::<Vec<Forecast>, FetchError>(e),
            Ok(doc) => if all_in_range(doc.hourly.data@) {
                r is Ok && hourly_entries(doc.hourly.data@, r->Ok_0@)
            } else {
                r == Err::<Vec<Forecast>, FetchError>(FetchError::TimestampOutOfRange)
            },
        },
{
    match fetched {
        Err(e) => Err(e),
        Ok(doc) => map_points(&doc.hourly.data, false),
    }
}

/// The current-conditions entry from a fetched document, at the instant `now`.
pub fn current_from(fetched: Result<DSForecasts, FetchError>, now: LocalTime) -> (r: Result<Forecast, FetchError>)
    ensures
        match fetched {
            Err(e) => r == Err::<Forecast, FetchError>(e),
            Ok(doc) => r == Ok::<Forecast, FetchError>(current_entry(doc.currently, now)),
        },
{
    match fetched {
        Err(e) => Err(e),
        Ok(doc) => Ok(current_entry_at(&doc.currently, now)),
    }
}

/// Forecasts read from a [`DarkSkyClient`].
pub struct DarkSkyForecaster<C: DarkSkyClient> {
    pub client: C,
}

impl<C: DarkSkyClient> DarkSkyForecaster<C> {
    pub fn new(client: C) -> (r: DarkSkyForecaster<C>)
        ensures
            r.client == client,
    {
        DarkSkyForecaster { client }
    }
}

impl<C: DarkSkyClient> Forecaster for DarkSkyForecaster<C> {
    fn daily_forecast(&mut self) -> (r: Result<Vec<Forecast>, FetchError>) {
        daily_from(self.client.forecasts())
    }

    fn hourly_forecast(&mut self) -> (r: Result<Vec<Forecast>, FetchError>) {
        hourly_from(self.client.forecasts())
    }

    fn current(&mut self) -> (r: Result<Forecast, FetchError>) {
        current_from(self.client.forecasts(), local_now())
    }
}

} // verus!
