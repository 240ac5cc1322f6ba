use chrono::{Datelike, Local};

use weather::darksky_client::{DSCurrent, DSData, DSForecast, DSForecasts, DarkSkyClient, FetchError};
use weather::darksky_forecaster::{
    daily_from, date_for, ds_to_forecast, hourly_from, time_for, weather, DarkSkyForecaster,
};
use weather::forecast::{Forecaster, LocalDate, Weather, Weekday, TIMESTAMP_LIMIT};

struct MockClient {
    expected_forecasts: Option<DSForecasts>,
    expected_error: Option<FetchError>,
}

impl MockClient {
    fn expect_response(forecasts: DSForecasts) -> MockClient {
        MockClient { expected_forecasts: Some(forecasts), expected_error: None }
    }

    fn expect_error(error: FetchError) -> MockClient {
        MockClient { expected_forecasts: None, expected_error: Some(error) }
    }
}

impl DarkSkyClient for MockClient {
    fn forecasts(&mut self) -> Result<DSForecasts, FetchError> {
        match self.expected_error {
            Some(e) => Err(e),
            None => Ok(self.expected_forecasts.as_ref().unwrap().clone()),
        }
    }
}

fn point(time: i64, icon: &str, precip: Option<u32>) -> DSForecast {
    DSForecast {
        time,
        icon: icon.to_string(),
        precip_probability: precip,
        temperature_high: Some(663),
        temperature_low: Some(425),
    }
}

fn response(daily: Vec<DSForecast>, hourly: Vec<DSForecast>) -> DSForecasts {
    DSForecasts {
        daily: DSData { summary: "".to_string(), data: daily },
        hourly: DSData { summary: "".to_string(), data: hourly },
        currently: DSCurrent { temperature: 562, icon: "sunny".to_string(), precip_probability: Some(0) },
    }
}

fn simple_response() -> DSForecasts {
    let now = Local::now().timestamp();
    response(vec![point(now, "clear-day", None)], vec![point(now, "clear-day", None)])
}

fn build_forecaster() -> DarkSkyForecaster<MockClient> {
    DarkSkyForecaster::new(MockClient::expect_response(simple_response()))
}

fn build_error_forecaster() -> DarkSkyForecaster<MockClient> {
    DarkSkyForecaster::new(MockClient::expect_error(FetchError::HttpClientError))
}

fn today() -> LocalDate {
    let d = Local::now().date_naive();
    LocalDate {
        year: d.year(),
        month: d.month(),
        day: d.day(),
        weekday: Weekday::from_monday(d.weekday().num_days_from_monday()),
    }
}

#[test]
fn parses_daily_results_correctly() {
    let mut dsf = build_forecaster();
    let df = dsf.daily_forecast().unwrap();

    assert_eq!(df.len(), 1);
    for f in df {
        assert_eq!(f.weather, Weather::Sunny);
        assert_eq!(f.precip_chance, 0);
        assert_eq!(f.temp, None);
        assert_eq!(f.date, Some(today()));
        assert_eq!(f.time, None);
    }
}

#[test]
fn parses_hourly_results_correctly() {
    let mut dsf = build_forecaster();
    let df = dsf.hourly_forecast().unwrap();

    assert_eq!(df.len(), 1);
    for f in df {
        assert_eq!(f.weather, Weather::Sunny);
        assert_eq!(f.precip_chance, 0);
        assert_eq!(f.temp, None);
        assert_eq!(f.date, None);
        assert!(Local::now().timestamp() * 1000 - f.time.unwrap().epoch_seconds * 1000 < 100);
    }
}

#[test]
fn returns_error() {
    let mut dsf = build_error_forecaster();
    let df = dsf.hourly_forecast();
    assert!(df.is_err())
}

#[test]
fn fetch_error_is_handed_on_unchanged() {
    let mut dsf = DarkSkyForecaster::new(MockClient::expect_error(FetchError::HttpError(503)));
    assert_eq!(dsf.hourly_forecast(), Err(FetchError::HttpError(503)));
    assert_eq!(dsf.daily_forecast(), Err(FetchError::HttpError(503)));
    assert_eq!(dsf.current(), Err(FetchError::HttpError(503)));
    assert_eq!(hourly_from(Err(FetchError::TimeoutError)), Err(FetchError::TimeoutError));
}

#[test]
fn hourly_cloudy_with_precipitation() {
    let now = Local::now().timestamp();
    let doc = response(vec![], vec![point(now, "cloudy", Some(4000))]);
    let mut dsf = DarkSkyForecaster::new(MockClient::expect_response(doc));
    let df = dsf.hourly_forecast().unwrap();
    assert_eq!(df.len(), 1);
    assert_eq!(df[0].weather, Weather::Cloudy);
    assert_eq!(df[0].precip_chance, 4000);
    assert_eq!(df[0].temp, None);
    assert_eq!(df[0].date, None);
    assert_eq!(df[0].time.unwrap().epoch_seconds, now);
}

#[test]
fn missing_precipitation_is_zero() {
    let f = ds_to_forecast(&point(0, "rain", None), true);
    assert_eq!(f.precip_chance, 0);
    let f = ds_to_forecast(&point(0, "rain", None), false);
    assert_eq!(f.precip_chance, 0);
    let f = ds_to_forecast(&point(0, "rain", Some(7500)), false);
    assert_eq!(f.precip_chance, 7500);
}

#[test]
fn daily_and_hourly_entries_carry_one_moment() {
    let now = Local::now().timestamp();
    let points = vec![point(now, "snow", None), point(now + 86400, "fog", Some(100))];
    let doc = response(points.clone(), points);
    let daily = daily_from(Ok(doc.clone())).unwrap();
    let hourly = hourly_from(Ok(doc)).unwrap();
    assert_eq!(daily.len(), 2);
    assert_eq!(hourly.len(), 2);
    for f in daily {
        assert!(f.date.is_some() && f.time.is_none());
    }
    for f in hourly {
        assert!(f.time.is_some() && f.date.is_none());
    }
}

#[test]
fn current_is_sunny_and_dry_with_its_temperature() {
    let mut dsf = build_forecaster();
    let c = dsf.current().unwrap();
    assert_eq!(c.weather, Weather::Sunny);
    assert_eq!(c.precip_chance, 0);
    assert_eq!(c.temp, Some(562));
    assert_eq!(c.date, None);
    assert!(Local::now().timestamp() - c.time.unwrap().epoch_seconds < 2);
}

#[test]
fn timestamp_out_of_range_is_an_error() {
    let doc = response(vec![point(TIMESTAMP_LIMIT + 1, "rain", None)], vec![point(-TIMESTAMP_LIMIT, "rain", None)]);
    assert_eq!(daily_from(Ok(doc.clone())), Err(FetchError::TimestampOutOfRange));
    assert_eq!(hourly_from(Ok(doc)).unwrap().len(), 1);
}

#[test]
fn icon_table() {
    assert_eq!(weather("clear-day"), Weather::Sunny);
    assert_eq!(weather("clear-night"), Weather::Sunny);
    assert_eq!(weather("partly-cloudy-day"), Weather::PartSun);
    assert_eq!(weather("partly-cloudy-night"), Weather::PartSun);
    assert_eq!(weather("cloudy"), Weather::Cloudy);
    assert_eq!(weather("rain"), Weather::Rain);
    assert_eq!(weather("fog"), Weather::Fog);
    assert_eq!(weather("snow"), Weather::Snow);
    assert_eq!(weather("sleet"), Weather::Unknown);
    assert_eq!(weather("Rain"), Weather::Unknown);
    assert_eq!(weather("clear-day "), Weather::Unknown);
    assert_eq!(weather(""), Weather::Unknown);
}

#[test]
fn local_date_and_time_of_a_timestamp() {
    let secs: i64 = 1_431_648_000;
    let t = time_for(secs);
    assert_eq!(t.epoch_seconds, secs);
    let local = chrono::DateTime::from_timestamp(secs, 0).unwrap().with_timezone(&Local);
    assert_eq!(t.utc_offset, local.offset().local_minus_utc());
    let d = date_for(secs);
    assert_eq!((d.year, d.month, d.day), (local.year(), local.month(), local.day()));
    assert_eq!(d.weekday, Weekday::from_monday(local.weekday().num_days_from_monday()));
}

#[test]
fn timestamps_far_from_the_epoch_are_dated() {
    for secs in [TIMESTAMP_LIMIT, -TIMESTAMP_LIMIT, 7_900_000_000_000, -1] {
        let local = chrono::DateTime::from_timestamp(secs, 0).unwrap().with_timezone(&Local);
        let d = date_for(secs);
        assert_eq!((d.year, d.month, d.day), (local.year(), local.month(), local.day()));
        assert_eq!(d.weekday, Weekday::from_monday(local.weekday().num_days_from_monday()));
        assert_eq!(time_for(secs).epoch_seconds, secs);
    }
    let doc = response(vec![point(TIMESTAMP_LIMIT, "fog", None)], vec![point(-TIMESTAMP_LIMIT, "snow", Some(10))]);
    let daily = daily_from(Ok(doc.clone())).unwrap();
    assert_eq!(daily.len(), 1);
    assert_eq!(daily[0].weather, Weather::Fog);
    assert!(daily[0].date.is_some() && daily[0].time.is_none());
    let hourly = hourly_from(Ok(doc)).unwrap();
    assert_eq!(hourly[0].time.unwrap().epoch_seconds, -TIMESTAMP_LIMIT);
    assert_eq!(hourly[0].precip_chance, 10);
}
