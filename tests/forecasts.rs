use bin_weather::forecast::{parse_forecast_item, separate_forecasts};
use bin_weather::model::HourlyForecast;

fn period(title: &str) -> HourlyForecast {
    parse_forecast_item(title, "").expect("a forecast period")
}

#[test]
fn forecast_item_fields() {
    let p = period("Tuesday: Sunny. High 13. POP 30%");
    assert_eq!(p.time, "Tuesday");
    assert_eq!(p.temperature, 13);
    assert_eq!(p.condition, "Sunny");
    assert_eq!(p.pop, 30);
    assert_eq!(p.icon, "☀️");
}

#[test]
fn forecast_item_low_and_summary_percent() {
    let p = parse_forecast_item(
        "Tuesday night: Showers. Low minus 2.",
        "Showers. 70 percent chance of showers. Low minus 2.",
    )
    .unwrap();
    assert_eq!(p.time, "Tuesday night");
    assert_eq!(p.temperature, -2);
    assert_eq!(p.condition, "Showers");
    assert_eq!(p.pop, 70);
    assert_eq!(p.icon, "🌧️");
}

#[test]
fn forecast_item_skips_notices() {
    assert_eq!(parse_forecast_item("SPECIAL WEATHER STATEMENT IN EFFECT", ""), None);
    assert_eq!(parse_forecast_item("Notice: no watches or warnings", ""), None);
    assert_eq!(parse_forecast_item("No colon here", ""), None);
}

#[test]
fn day_and_night_make_one_day() {
    let periods = vec![
        period("Tuesday: Sunny. High 13."),
        period("Tuesday night: Clear. Low 8."),
    ];
    let (hourly, daily) = separate_forecasts(periods.clone());
    assert_eq!(hourly, periods);
    assert_eq!(daily.len(), 1);
    assert_eq!(daily[0].day_name, "Tuesday");
    assert_eq!(daily[0].high, Some(13));
    assert_eq!(daily[0].low, Some(8));
    assert_eq!(daily[0].summary, "Sunny");
    assert_eq!(daily[0].icon, "☀️");
    assert_eq!(daily[0].pop, None);
}

#[test]
fn trailing_day_and_lone_night() {
    let periods = vec![
        period("Tonight: Cloudy. Low 4. POP 40%"),
        period("Wednesday: Rain. High 9."),
    ];
    let (_, daily) = separate_forecasts(periods);
    assert_eq!(daily.len(), 2);
    assert_eq!(daily[0].day_name, "Tonight");
    assert_eq!(daily[0].high, None);
    assert_eq!(daily[0].low, Some(4));
    assert_eq!(daily[0].pop, Some(40));
    assert_eq!(daily[1].day_name, "Wednesday");
    assert_eq!(daily[1].high, Some(9));
    assert_eq!(daily[1].low, None);
    assert_eq!(daily[1].icon, "🌧️");
}

#[test]
fn night_pop_fills_in_for_day() {
    let periods = vec![
        period("Thursday: Cloudy. High 5."),
        period("Thursday night: Snow. Low minus 3. POP 60%"),
    ];
    let (_, daily) = separate_forecasts(periods);
    assert_eq!(daily[0].pop, Some(60));
    assert_eq!(daily[0].summary, "Cloudy");
    assert_eq!(daily[0].low, Some(-3));
}

#[test]
fn at_most_seven_days() {
    let days = [
        "Monday", "Tuesday", "Wednesday", "Thursday", "Friday", "Saturday", "Sunday", "Monday",
        "Tuesday",
    ];
    let mut periods = Vec::new();
    for d in days.iter() {
        periods.push(period(&format!("{}: Sunny. High 10.", d)));
        periods.push(period(&format!("{} night: Clear. Low 2.", d)));
    }
    let (hourly, daily) = separate_forecasts(periods);
    assert_eq!(hourly.len(), 18);
    assert_eq!(daily.len(), 7);
    assert_eq!(daily[6].day_name, "Sunday");
}

#[test]
fn no_periods_no_days() {
    let (hourly, daily) = separate_forecasts(Vec::new());
    assert!(hourly.is_empty());
    assert!(daily.is_empty());
}

#[test]
fn day_after_day_keeps_both() {
    let periods = vec![
        HourlyForecast {
            time: "Monday".into(),
            temperature: 10,
            condition: "Sunny".into(),
            pop: 0,
            icon: "☀️".into(),
        },
        HourlyForecast {
            time: "Tuesday".into(),
            temperature: 12,
            condition: "Cloudy".into(),
            pop: 0,
            icon: "☁️".into(),
        },
    ];
    let (_, daily) = separate_forecasts(periods);
    assert_eq!(daily.len(), 2);
    assert_eq!(daily[0].day_name, "Monday");
    assert_eq!(daily[0].high, Some(10));
    assert_eq!(daily[0].low, None);
    assert_eq!(daily[1].day_name, "Tuesday");
    assert_eq!(daily[1].low, None);
}

#[test]
fn unicode_white_space_is_trimmed_and_splits() {
    let p = parse_forecast_item("\u{a0}Tuesday\u{3000}night\u{a0}: Clear\u{2009}. Low 8.", "").unwrap();
    assert_eq!(p.time, "Tuesday\u{3000}night");
    assert_eq!(p.condition, "Clear");
    let (_, daily) = separate_forecasts(vec![p]);
    assert_eq!(daily[0].day_name, "Tuesday");
}
