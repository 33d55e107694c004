use bin_weather::display::{int_to_text, pop_text, rain_warning, temperature_range_text, tenths_text};
use bin_weather::model::{CurrentConditions, DailyForecast, WeatherData, WeatherWarning};

fn day(name: &str, high: Option<i32>, low: Option<i32>, pop: Option<u32>) -> DailyForecast {
    DailyForecast {
        day_name: name.to_string(),
        high,
        low,
        summary: "Cloudy periods".to_string(),
        pop,
        icon: "☁️".to_string(),
        uv_index: None,
        wind_chill: None,
        wind_summary: None,
    }
}

#[test]
fn daily_display_text() {
    let d = day("Today", Some(12), Some(6), Some(30));
    assert_eq!(d.temperature_text(), "12 - 6 ºC");
    assert_eq!(d.pop_text(), "POP 30%");
    assert_eq!(d.temperature_text(), d.temperature_text());
    assert_eq!(d.pop_text(), d.pop_text());
}

#[test]
fn missing_readings_show_na() {
    assert_eq!(temperature_range_text(None, Some(-5)), "N/A - -5 ºC");
    assert_eq!(temperature_range_text(Some(0), None), "0 - N/A ºC");
    assert_eq!(pop_text(None), "POP N/A");
    assert_eq!(pop_text(Some(100)), "POP 100%");
}

#[test]
fn integers_in_decimal() {
    assert_eq!(int_to_text(0), "0");
    assert_eq!(int_to_text(-42), "-42");
    assert_eq!(int_to_text(1234567), "1234567");
    assert_eq!(int_to_text(i64::MIN), "-9223372036854775808");
    assert_eq!(int_to_text(i64::MAX), "9223372036854775807");
}

#[test]
fn wind_descriptions() {
    let mut c = CurrentConditions::empty();
    assert_eq!(c.wind_description(), "Calm");
    c.wind_speed = Some(15);
    assert_eq!(c.wind_description(), "15 km/h");
    c.wind_direction = Some("SW".to_string());
    assert_eq!(c.wind_description(), "SW 15 km/h");
    c.wind_speed = None;
    assert_eq!(c.wind_description(), "SW");
}

#[test]
fn forecast_for_day_ignores_case() {
    let mut w = WeatherData::empty();
    w.daily = vec![day("Monday", Some(10), Some(2), None), day("Tuesday", Some(11), Some(4), None)];
    assert_eq!(w.get_forecast_for_day("tuesday").unwrap().high, Some(11));
    assert_eq!(w.get_forecast_for_day("MONDAY").unwrap().low, Some(2));
    assert!(w.get_forecast_for_day("Friday").is_none());
    assert!(w.get_forecast_for_day("Tue").is_none());
}

#[test]
fn severe_warnings() {
    let mut w = WeatherData::empty();
    assert!(!w.has_severe_warnings());
    w.warnings.push(WeatherWarning {
        warning_type: "Wind".to_string(),
        priority: "low".to_string(),
        description: "Gusts".to_string(),
    });
    assert!(!w.has_severe_warnings());
    w.warnings.push(WeatherWarning {
        warning_type: "Storm".to_string(),
        priority: "high".to_string(),
        description: "Thunderstorms".to_string(),
    });
    assert!(w.has_severe_warnings());
}

#[test]
fn mock_weather_record() {
    let w = bin_weather::mock::get_mock_weather();
    assert_eq!(w.location, "Toronto");
    assert_eq!(w.current.temperature, 80);
    assert_eq!(w.current.feels_like(), 60);
    assert_eq!(w.current.wind_description(), "SW 15 km/h");
    assert_eq!(w.daily.len(), 3);
    assert_eq!(w.daily[0].icon, "☁️");
    assert_eq!(w.daily[1].icon, "☀️");
    assert_eq!(w.daily[2].icon, "⛅");
    assert_eq!(w.daily[0].temperature_text(), "12 - 6 ºC");
    assert_eq!(w.last_updated, "Mock Data");
}

#[test]
fn tenths_keep_their_sign() {
    assert_eq!(tenths_text(104), "10.4");
    assert_eq!(tenths_text(-5), "-0.5");
    assert_eq!(tenths_text(-76), "-7.6");
    assert_eq!(tenths_text(0), "0.0");
    assert_eq!(tenths_text(i32::MIN), "-214748364.8");
}

#[test]
fn rain_warning_above_half() {
    assert_eq!(rain_warning(Some(60)).as_deref(), Some("⚠️ 60% rain"));
    assert_eq!(rain_warning(Some(50)), None);
    assert_eq!(rain_warning(None), None);
}
