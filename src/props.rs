//! What the dashboard's components are given, and the shared weather state they read.
use vstd::prelude::*;
use crate::model::{CurrentConditions, DailyForecast, HourlyForecast, WeatherData};

verus! {

/// One daily forecast card.
#[derive(Clone, Debug, PartialEq)]
pub struct DailyComponentProps {
    pub day_name: String,
    pub icon: String,
    pub summary: String,
    pub high: Option<i32>,
    pub low: Option<i32>,
    pub pop: Option<u32>,
}

impl DailyComponentProps {
    /// The card for one day of the forecast.
    pub fn from_forecast(d: &DailyForecast) -> (r: DailyComponentProps)
        ensures
            r.day_name@ == d.day_name@,
            r.icon@ == d.icon@,
            r.summary@ == d.summary@,
            r.high == d.high,
            r.low == d.low,
            r.pop == d.pop,
    {
        DailyComponentProps {
            day_name: d.day_name.clone(),
            icon: d.icon.clone(),
            summary: d.summary.clone(),
            high: d.high,
            low: d.low,
            pop: d.pop,
        }
    }
}

/// The row of daily cards.
#[derive(Clone, Debug, PartialEq)]
pub struct WeatherDailyProps {
    pub forecasts: Vec<DailyForecast>,
}

/// The chart of forecast periods.
#[derive(Clone, Debug, PartialEq)]
pub struct WeatherHourlyProps {
    pub forecasts: Vec<HourlyForecast>,
}

/// The whole weather panel.
#[derive(Clone, Debug, PartialEq)]
pub struct WeatherDisplayProps {
    pub weather: WeatherData,
}

impl WeatherData {
    /// A record with nothing in it yet.
    pub fn empty() -> (r: WeatherData)
        ensures
            r.location@.len() == 0,
            r.current@ == crate::model::empty_current(),
            r.hourly@.len() == 0,
            r.daily@.len() == 0,
            r.warnings@.len() == 0,
            r.last_updated@.len() == 0,
    {
        WeatherData {
            location: String::new(),
            current: CurrentConditions::empty(),
            hourly: Vec::new(),
            daily: Vec::new(),
            warnings: Vec::new(),
            last_updated: String::new(),
        }
    }
}

/// The weather that every component reads: loaded or not, and the latest record.
#[derive(Clone, Debug, PartialEq)]
pub struct WeatherCtx {
    pub is_loaded: bool,
    pub weather: WeatherData,
}

impl WeatherCtx {
    /// Nothing loaded yet.
    pub fn new() -> (r: WeatherCtx)
        ensures
            !r.is_loaded,
            r.weather.daily@.len() == 0,
            r.weather.hourly@.len() == 0,
    {
        WeatherCtx { is_loaded: false, weather: WeatherData::empty() }
    }

    /// A freshly fetched record replaces the old one whole.
    pub fn reduce(self, data: WeatherData) -> (r: WeatherCtx)
        ensures
            r.is_loaded,
            r.weather@ == data@,
    {
        WeatherCtx { is_loaded: true, weather: data }
    }

    /// The outcome of a refresh: a record replaces the state; a failure leaves what was
    /// shown before in place.
    pub fn refresh(self, outcome: Result<WeatherData, String>) -> (r: WeatherCtx)
        ensures
            outcome matches Ok(d) ==> r.is_loaded && r.weather@ == d@,
            outcome is Err ==> r.is_loaded == self.is_loaded && r.weather@ == self.weather@,
    {
        match outcome {
            Ok(d) => self.reduce(d),
            Err(_) => self,
        }
    }
}

} // verus!
