use bin_weather::current::parse_current_conditions;
use bin_weather::model::CurrentConditions;

const SUMMARY: &str = "<b>Observed at:</b> Toronto Pearson Int'l Airport 2:00 PM EDT<br/>\
<b>Condition:</b> Mostly Cloudy<br/>\
<b>Temperature:</b> 10.4&deg;C<br/>\
<b>Pressure / Tendency:</b> 101.3 kPa rising<br/>\
<b>Visibility:</b> 24.1 km<br/>\
<b>Humidity:</b> 83 %<br/>\
<b>Dewpoint:</b> -7.6&deg;C<br/>\
<b>Wind:</b> WSW 17 km/h gust 28 km/h<br/>\
<b>Air Quality Health Index:</b> 3<br/>\
<b>Sunrise:</b> 7:31 AM<br/>";

#[test]
fn reads_every_labelled_line() {
    let mut c = CurrentConditions::empty();
    parse_current_conditions("Current Conditions: Mostly Cloudy, 10.4°C", SUMMARY, &mut c);
    assert_eq!(c.condition, "Mostly Cloudy");
    assert_eq!(c.icon, "☁️");
    assert_eq!(c.temperature, 104);
    assert_eq!(c.pressure, Some(1013));
    assert_eq!(c.visibility, Some(241));
    assert_eq!(c.humidity, Some(83));
    assert_eq!(c.dewpoint, Some(-76));
    assert_eq!(c.wind_direction.as_deref(), Some("WSW"));
    assert_eq!(c.wind_speed, Some(17));
    let aq = c.air_quality.clone().unwrap();
    assert_eq!(aq.index, 3);
    assert_eq!(aq.category, "Low");
    assert_eq!(c.sunrise.as_deref(), Some("7:31 AM"));
    assert_eq!(c.sunset, None);
}

#[test]
fn missing_labels_stay_absent() {
    let mut c = CurrentConditions::empty();
    parse_current_conditions(
        "Current Conditions: Sunny, -3.0°C",
        "<b>Humidity:</b> 40 %<br/>",
        &mut c,
    );
    assert_eq!(c.temperature, -30);
    assert_eq!(c.humidity, Some(40));
    assert_eq!(c.pressure, None);
    assert_eq!(c.visibility, None);
    assert_eq!(c.dewpoint, None);
    assert_eq!(c.wind_speed, None);
    assert_eq!(c.wind_direction, None);
    assert_eq!(c.air_quality, None);
}

#[test]
fn unreadable_values_leave_fields() {
    let mut c = CurrentConditions::empty();
    parse_current_conditions(
        "Current Conditions: Fog",
        "<b>Humidity:</b> n/a<br/><b>Wind:</b> calm<br/><b>Air Quality Health Index:</b> none",
        &mut c,
    );
    assert_eq!(c.condition, "");
    assert_eq!(c.humidity, None);
    assert_eq!(c.wind_speed, None);
    assert_eq!(c.air_quality, None);
}

#[test]
fn air_quality_categories() {
    for (index, category) in [(5, "Moderate"), (8, "High"), (11, "Very High"), (0, "Very High")] {
        let mut c = CurrentConditions::empty();
        let line = format!("<b>Air Quality Health Index:</b> {}", index);
        parse_current_conditions("", &line, &mut c);
        let aq = c.air_quality.unwrap();
        assert_eq!(aq.index, index);
        assert_eq!(aq.category, category);
    }
}

#[test]
fn wind_chill_and_humidex() {
    let mut c = CurrentConditions::empty();
    parse_current_conditions(
        "Current Conditions: Light Snow, -8.2°C",
        "<b>Wind:</b> N 30 km/h gust 45 km/h<br/><b>Wind Chill:</b> -17<br/>",
        &mut c,
    );
    assert_eq!(c.temperature, -82);
    assert_eq!(c.icon, "❄️");
    assert_eq!(c.wind_speed, Some(30));
    assert_eq!(c.wind_chill, Some(-170));
    assert_eq!(c.humidex, None);
    assert_eq!(c.feels_like(), -170);

    let mut h = CurrentConditions::empty();
    parse_current_conditions("", "<b>Humidex:</b> 34", &mut h);
    assert_eq!(h.humidex, Some(340));
    assert_eq!(h.feels_like(), 340);
    h.temperature = 281;
    h.humidex = None;
    assert_eq!(h.feels_like(), 281);
}
