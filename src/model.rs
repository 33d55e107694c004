//! The normalised weather record that every parser produces and every view reads.
use vstd::prelude::*;

verus! {

/// Air Quality Health Index reading.
#[derive(Clone, Debug, PartialEq)]
pub struct AirQuality {
    pub index: u32,
    pub category: String,
}

/// One forecast period as the feed lists it ("Tuesday", "Tuesday night").
#[derive(Clone, Debug, PartialEq)]
pub struct HourlyForecast {
    pub time: String,
    pub temperature: i32,
    pub condition: String,
    pub pop: u32,
    pub icon: String,
}

/// One day of the daily forecast, folded from a day period and the night that follows it.
#[derive(Clone, Debug, PartialEq)]
pub struct DailyForecast {
    pub day_name: String,
    pub high: Option<i32>,
    pub low: Option<i32>,
    pub summary: String,
    pub pop: Option<u32>,
    pub icon: String,
    pub uv_index: Option<u32>,
    pub wind_chill: Option<String>,
    pub wind_summary: Option<String>,
}

/// Current conditions. Temperatures, pressure and visibility are held in tenths
/// (10.4 °C is 104).
#[derive(Clone, Debug, PartialEq)]
pub struct CurrentConditions {
    pub temperature: i32,
    pub condition: String,
    pub icon: String,
    pub humidity: Option<u32>,
    pub wind_speed: Option<u32>,
    pub wind_direction: Option<String>,
    pub pressure: Option<i32>,
    pub visibility: Option<i32>,
    pub dewpoint: Option<i32>,
    pub air_quality: Option<AirQuality>,
    pub wind_chill: Option<i32>,
    pub humidex: Option<i32>,
    pub sunrise: Option<String>,
    pub sunset: Option<String>,
}

/// A weather warning issued for the area.
#[derive(Clone, Debug, PartialEq)]
pub struct WeatherWarning {
    pub warning_type: String,
    pub priority: String,
    pub description: String,
}

/// Everything a dashboard shows about the weather.
#[derive(Clone, Debug, PartialEq)]
pub struct WeatherData {
    pub location: String,
    pub current: CurrentConditions,
    pub hourly: Vec<HourlyForecast>,
    pub daily: Vec<DailyForecast>,
    pub warnings: Vec<WeatherWarning>,
    pub last_updated: String,
}

/// What a forecast period holds, as mathematical values.
pub struct PeriodView {
    pub time: Seq<char>,
    pub temperature: i32,
    pub condition: Seq<char>,
    pub pop: u32,
    pub icon: Seq<char>,
}

impl View for HourlyForecast {
    type V = PeriodView;

    open spec fn view(&self) -> PeriodView {
        PeriodView {
            time: self.time@,
            temperature: self.temperature,
            condition: self.condition@,
            pop: self.pop,
            icon: self.icon@,
        }
    }
}

/// What a daily forecast holds, as mathematical values.
pub struct DayView {
    pub day_name: Seq<char>,
    pub high: Option<i32>,
    pub low: Option<i32>,
    pub summary: Seq<char>,
    pub pop: Option<u32>,
    pub icon: Seq<char>,
    pub uv_index: Option<u32>,
    pub wind_chill: Option<Seq<char>>,
    pub wind_summary: Option<Seq<char>>,
}

impl View for DailyForecast {
    type V = DayView;

    open spec fn view(&self) -> DayView {
        DayView {
            day_name: self.day_name@,
            high: self.high,
            low: self.low,
            summary: self.summary@,
            pop: self.pop,
            icon: self.icon@,
            uv_index: self.uv_index,
            wind_chill: opt_view(self.wind_chill),
            wind_summary: opt_view(self.wind_summary),
        }
    }
}

pub open spec fn period_views(v: Seq<HourlyForecast>) -> Seq<PeriodView> {
    v.map_values(|p: HourlyForecast| p@)
}

pub open spec fn day_views(v: Seq<DailyForecast>) -> Seq<DayView> {
    v.map_values(|d: DailyForecast| d@)
}

pub open spec fn opt_view(o: Option<String>) -> Option<Seq<char>> {
    match o {
        Some(s) => Some(s@),
        None => None,
    }
}

/// An air quality reading as mathematical values.
pub struct AirView {
    pub index: u32,
    pub category: Seq<char>,
}

impl View for AirQuality {
    type V = AirView;

    open spec fn view(&self) -> AirView {
        AirView { index: self.index, category: self.category@ }
    }
}

pub open spec fn air_view(o: Option<AirQuality>) -> Option<AirView> {
    match o {
        Some(a) => Some(a@),
        None => None,
    }
}

/// Current conditions as mathematical values.
pub struct CurrentView {
    pub temperature: i32,
    pub condition: Seq<char>,
    pub icon: Seq<char>,
    pub humidity: Option<u32>,
    pub wind_speed: Option<u32>,
    pub wind_direction: Option<Seq<char>>,
    pub pressure: Option<i32>,
    pub visibility: Option<i32>,
    pub dewpoint: Option<i32>,
    pub air_quality: Option<AirView>,
    pub wind_chill: Option<i32>,
    pub humidex: Option<i32>,
    pub sunrise: Option<Seq<char>>,
    pub sunset: Option<Seq<char>>,
}

impl View for CurrentConditions {
    type V = CurrentView;

    open spec fn view(&self) -> CurrentView {
        CurrentView {
            temperature: self.temperature,
            condition: self.condition@,
            icon: self.icon@,
            humidity: self.humidity,
            wind_speed: self.wind_speed,
            wind_direction: opt_view(self.wind_direction),
            pressure: self.pressure,
            visibility: self.visibility,
            dewpoint: self.dewpoint,
            air_quality: air_view(self.air_quality),
            wind_chill: self.wind_chill,
            humidex: self.humidex,
            sunrise: opt_view(self.sunrise),
            sunset: opt_view(self.sunset),
        }
    }
}

impl CurrentConditions {
    /// Conditions before anything has been read: 0 °C, every optional reading absent.
    pub fn empty() -> (r: CurrentConditions)
        ensures
            r@ == empty_current(),
    {
        CurrentConditions {
            temperature: 0,
            condition: String::new(),
            icon: String::new(),
            humidity: None,
            wind_speed: None,
            wind_direction: None,
            pressure: None,
            visibility: None,
            dewpoint: None,
            air_quality: None,
            wind_chill: None,
            humidex: None,
            sunrise: None,
            sunset: None,
        }
    }
}

pub open spec fn empty_current() -> CurrentView {
    CurrentView {
        temperature: 0,
        condition: seq![],
        icon: seq![],
        humidity: None,
        wind_speed: None,
        wind_direction: None,
        pressure: None,
        visibility: None,
        dewpoint: None,
        air_quality: None,
        wind_chill: None,
        humidex: None,
        sunrise: None,
        sunset: None,
    }
}

/// A whole weather record as mathematical values.
pub struct WeatherView {
    pub location: Seq<char>,
    pub current: CurrentView,
    pub hourly: Seq<PeriodView>,
    pub daily: Seq<DayView>,
    pub warnings: Seq<WarningView>,
    pub last_updated: Seq<char>,
}

/// A warning as mathematical values.
pub struct WarningView {
    pub warning_type: Seq<char>,
    pub priority: Seq<char>,
    pub description: Seq<char>,
}

impl View for WeatherWarning {
    type V = WarningView;

    open spec fn view(&self) -> WarningView {
        WarningView {
            warning_type: self.warning_type@,
            priority: self.priority@,
            description: self.description@,
        }
    }
}

pub open spec fn warning_views(v: Seq<WeatherWarning>) -> Seq<WarningView> {
    v.map_values(|w: WeatherWarning| w@)
}

impl View for WeatherData {
    type V = WeatherView;

    open spec fn view(&self) -> WeatherView {
        WeatherView {
            location: self.location@,
            current: self.current@,
            hourly: period_views(self.hourly@),
            daily: day_views(self.daily@),
            warnings: warning_views(self.warnings@),
            last_updated: self.last_updated@,
        }
    }
}

impl CurrentConditions {
    /// What the temperature feels like, in tenths: the wind chill, else the humidex, else the
    /// temperature itself.
    pub fn feels_like(&self) -> (r: i32)
        ensures
            r == match (self.wind_chill, self.humidex) {
                (Some(w), _) => w,
                (None, Some(h)) => h,
                (None, None) => self.temperature,
            },
    {
        match self.wind_chill {
            Some(w) => w,
            None => match self.humidex {
                Some(h) => h,
                None => self.temperature,
            },
        }
    }
}

} // verus!
