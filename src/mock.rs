//! A fixed weather record for showing the dashboard without a feed.
use vstd::prelude::*;
use crate::icon::icon_for;
use crate::model::{day_views, CurrentConditions, DailyForecast, DayView, WeatherData};

verus! {

fn mock_day(name: &str, high: i32, low: i32, summary: &str, pop: u32) -> (r: DailyForecast)
    ensures
        r@ == (DayView {
            day_name: name@,
            high: Some(high),
            low: Some(low),
            summary: summary@,
            pop: Some(pop),
            icon: icon_for(summary@),
            uv_index: None,
            wind_chill: None,
            wind_summary: None,
        }),
{
    DailyForecast {
        day_name: String::from_str(name),
        high: Some(high),
        low: Some(low),
        summary: String::from_str(summary),
        pop: Some(pop),
        icon: DailyForecast::get_emoji(summary),
        uv_index: None,
        wind_chill: None,
        wind_summary: None,
    }
}

/// Toronto at 8.0 °C under a mainly cloudy sky, with three days of forecast.
pub fn get_mock_weather() -> (r: WeatherData)
    ensures
        r.location@ == "Toronto"@,
        r.current.temperature == 80,
        r.current.condition@ == "Mainly Cloudy"@,
        r.current.humidity == Some(68u32),
        r.current.pressure == Some(1013i32),
        r.current.visibility == Some(240i32),
        r.current.wind_speed == Some(15u32),
        r.current.wind_chill == Some(60i32),
        r.current.humidex is None,
        day_views(r.daily@) == seq![
            DayView {
                day_name: "Today"@,
                high: Some(12i32),
                low: Some(6i32),
                summary: "Cloudy periods"@,
                pop: Some(30u32),
                icon: icon_for("Cloudy periods"@),
                uv_index: None,
                wind_chill: None,
                wind_summary: None,
            },
            DayView {
                day_name: "Monday"@,
                high: Some(10i32),
                low: Some(2i32),
                summary: "Sunny"@,
                pop: Some(10u32),
                icon: icon_for("Sunny"@),
                uv_index: None,
                wind_chill: None,
                wind_summary: None,
            },
            DayView {
                day_name: "Tuesday"@,
                high: Some(11i32),
                low: Some(4i32),
                summary: "Mix sun and cloud"@,
                pop: Some(20u32),
                icon: icon_for("Mix sun and cloud"@),
                uv_index: None,
                wind_chill: None,
                wind_summary: None,
            },
        ],
        r.warnings@.len() == 0,
        r.last_updated@ == "Mock Data"@,
{
    let mut current = CurrentConditions::empty();
    current.temperature = 80;
    current.condition = String::from_str("Mainly Cloudy");
    current.icon = crate::icon::get_weather_icon("Mainly Cloudy");
    current.humidity = Some(68);
    current.pressure = Some(1013);
    current.visibility = Some(240);
    current.wind_speed = Some(15);
    current.wind_direction = Some(String::from_str("SW"));
    current.wind_chill = Some(60);
    let mut daily: Vec<DailyForecast> = Vec::new();
    daily.push(mock_day("Today", 12, 6, "Cloudy periods", 30));
    daily.push(mock_day("Monday", 10, 2, "Sunny", 10));
    daily.push(mock_day("Tuesday", 11, 4, "Mix sun and cloud", 20));
    let r = WeatherData {
        location: String::from_str("Toronto"),
        current,
        hourly: Vec::new(),
        daily,
        warnings: Vec::new(),
        last_updated: String::from_str("Mock Data"),
    };
    assert(day_views(r.daily@) =~= seq![r.daily@[0]@, r.daily@[1]@, r.daily@[2]@]);
    r
}

} // verus!
