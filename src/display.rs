use vstd::prelude::*;

use crate::darksky_client::FetchError;
use crate::forecast::{abbr_of, Forecast, Weather, WeatherFormatter};

verus! {

/// A terminal colour for a glyph.
#[derive(Debug, Clone, Copy, PartialEq, Eq, Structural)]
pub enum Tint {
    Yellow,
    White,
    Cyan,
    Red,
}

/// One character standing for the weather, with how to show it.
#[derive(Debug, Clone, Copy, PartialEq, Eq, Structural)]
pub struct Glyph {
    pub symbol: char,
    pub tint: Tint,
    /// Emphasised (bold).
    pub bold: bool,
}

/// Above this chance of precipitation (a quarter, in hundredths of a percent)
/// rain and fog take their wet glyphs.
pub const WET_THRESHOLD: u32 = 2500;

/// The glyph for a weather and a chance of precipitation.
pub open spec fn glyph_of(w: Weather, precip_chance: u32) -> Glyph {
    let wet = precip_chance > WET_THRESHOLD;
    match w {
        Weather::Sunny => Glyph { symbol: 'S', tint: Tint::Yellow, bold: true },
        Weather::PartSun => Glyph { symbol: 's', tint: Tint::Yellow, bold: false },
        Weather::Cloudy => Glyph { symbol: 'C', tint: Tint::White, bold: false },
        Weather::Showers | Weather::Rain => if wet {
            Glyph { symbol: 'r', tint: Tint::Cyan, bold: true }
        } else {
            Glyph { symbol: 'R', tint: Tint::Cyan, bold: true }
        },
        Weather::Snow => Glyph { symbol: '*', tint: Tint::White, bold: true },
        Weather::Fog => if wet {
            Glyph { symbol: 'f', tint: Tint::Cyan, bold: true }
        } else {
            Glyph { symbol: 'F', tint: Tint::White, bold: false }
        },
        Weather::Unknown => Glyph { symbol: '?', tint: Tint::Red, bold: false },
    }
}

/// A weekday letter followed by the day's glyph.
#[derive(Debug, Clone, Copy, PartialEq, Eq, Structural)]
pub struct DayCell {
    pub letter: char,
    pub glyph: Glyph,
}

/// How many hourly glyphs a line shows at most.
pub const HOURLY_GLYPHS: usize = 8;

/// The cell of a daily entry.
pub open spec fn day_cell(f: Forecast) -> DayCell {
    DayCell { letter: abbr_of(f.date.unwrap().weekday), glyph: glyph_of(f.weather, f.precip_chance) }
}

/// Whole degrees of a temperature in tenths, the fraction dropped toward zero.
pub open spec fn whole_degrees_of(tenths: int) -> int {
    if tenths >= 0 {
        tenths / 10
    } else {
        -((-tenths) / 10)
    }
}

/// The glyph formatter of the terminal line.
pub struct SimpleFormatter {}

impl SimpleFormatter {
    pub fn new() -> (r: SimpleFormatter) {
        SimpleFormatter {}
    }

    /// The glyph line of a daily forecast: one cell per day, in order.
    pub fn daily_cells(&self, forecasts: &Vec<Forecast>) -> (r: Vec<DayCell>)
        requires
            forall|i: int| 0 <= i < forecasts@.len() ==> (#[trigger] forecasts@[i]).date.is_some(),
        ensures
            r@.len() == forecasts@.len(),
            forall|i: int| 0 <= i < r@.len() ==> #[trigger] r@[i] == day_cell(forecasts@[i]),
    {
        let mut out: Vec<DayCell> = Vec::new();
        let mut i: usize = 0;
        while i < forecasts.len()
            invariant
                i <= forecasts@.len(),
                out@.len() == i,
                forall|j: int| 0 <= j < forecasts@.len() ==> (#[trigger] forecasts@[j]).date.is_some(),
                forall|j: int| 0 <= j < i ==> #[trigger] out@[j] == day_cell(forecasts@[j]),
            decreases forecasts@.len() - i,
        {
            let f = forecasts[i];
            let date = f.date.unwrap();
            let cell = DayCell { letter: date.weekday.abbr(), glyph: self.format(f.weather, f.precip_chance) };
            out.push(cell);
            i = i + 1;
        }
        out
    }

    /// The glyph line of an hourly forecast: the glyphs of its first entries,
    /// at most [`HOURLY_GLYPHS`] of them, in order.
    pub fn hourly_glyphs(&self, forecasts: &Vec<Forecast>) -> (r: Vec<Glyph>)
        ensures
            r@.len() == if forecasts@.len() < HOURLY_GLYPHS { forecasts@.len() } else { HOURLY_GLYPHS as nat },
            forall|i: int| 0 <= i < r@.len() ==> #[trigger] r@[i] == glyph_of(forecasts@[i].weather, forecasts@[i].precip_chance),
    {
        let mut out: Vec<Glyph> = Vec::new();
        let mut i: usize = 0;
        while i < forecasts.len() && i < HOURLY_GLYPHS
            invariant
                i <= forecasts@.len(),
                i <= HOURLY_GLYPHS,
                out@.len() == i,
                forall|j: int| 0 <= j < i ==> #[trigger] out@[j] == glyph_of(forecasts@[j].weather, forecasts@[j].precip_chance),
            decreases forecasts@.len() - i,
        {
            let f = forecasts[i];
            out.push(self.format(f.weather, f.precip_chance));
            i = i + 1;
        }
        out
    }
}

impl WeatherFormatter for SimpleFormatter {
    fn format(&self, w: Weather, precip_chance: u32) -> (r: Glyph)
        ensures
            r == glyph_of(w, precip_chance),
    {
        let wet = precip_chance > WET_THRESHOLD;
        match w {
            Weather::Sunny => Glyph { symbol: 'S', tint: Tint::Yellow, bold: true },
            Weather::PartSun => Glyph { symbol: 's', tint: Tint::Yellow, bold: false },
            Weather::Cloudy => Glyph { symbol: 'C', tint: Tint::White, bold: false },
            Weather::Showers | Weather::Rain => if wet {
                Glyph { symbol: 'r', tint: Tint::Cyan, bold: true }
            } else {
                Glyph { symbol: 'R', tint: Tint::Cyan, bold: true }
            },
            Weather::Snow => Glyph { symbol: '*', tint: Tint::White, bold: true },
            Weather::Fog => if wet {
                Glyph { symbol: 'f', tint: Tint::Cyan, bold: true }
            } else {
                Glyph { symbol: 'F', tint: Tint::White, bold: false }
            },
            Weather::Unknown => Glyph { symbol: '?', tint: Tint::Red, bold: false },
        }
    }
}

/// Whole degrees of a temperature given in tenths, the fraction dropped toward zero.
pub fn whole_degrees(tenths: i32) -> (r: i32)
    ensures
        r == whole_degrees_of(tenths as int),
{
    if tenths >= 0 {
        tenths / 10
    } else {
        let magnitude: i64 = -(tenths as i64);
        let w: i64 = magnitude / 10;
        -(w as i32)
    }
}

/// The whole-degree temperature to show before an hourly line: none when the
/// current conditions could not be had or carry no temperature.
pub fn temperature_reading(current: &Result<Forecast, FetchError>) -> (r: Option<i32>)
    ensures
        r == match current {
            Ok(f) => match f.temp {
                Some(t) => Some(whole_degrees_of(t as int) as i32),
                None => None,
            },
            Err(_) => None,
        },
{
    match current {
        Ok(f) => match f.temp {
            Some(t) => Some(whole_degrees(t)),
            None => None,
        },
        Err(_) => None,
    }
}

} // verus!
