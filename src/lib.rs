//! Weather forecasts reduced to one-character glyphs.
//!
//! A provider's forecast points are classified into a small [`forecast::Weather`]
//! taxonomy, normalised into [`forecast::Forecast`] records and rendered as
//! glyphs for a compact terminal line.
pub mod darksky_client;
pub mod darksky_forecaster;
pub mod decimal;
pub mod display;
pub mod forecast;
