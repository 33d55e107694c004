use bin_weather::geomet::{geomet_from_json, merge_air_quality, parse_geomet, ParseError};
use bin_weather::json::{parse_json, JsonValue};

const DOC: &str = r#"{
  "type": "FeatureCollection",
  "features": [{
    "type": "Feature",
    "properties": {
      "name": {"en": "Toronto", "fr": "Toronto"},
      "lastUpdated": "2025-10-18T18:00:00Z",
      "currentConditions": {
        "condition": {"en": "Mostly Cloudy"},
        "temperature": {"value": {"en": 10.4}},
        "relativeHumidity": {"value": {"en": 83}},
        "pressure": {"value": {"en": 101.3}},
        "wind": {"speed": {"value": {"en": 17}}, "direction": {"value": {"en": "WSW"}}}
      },
      "forecastGroup": {"forecasts": [
        {"period": {"textForecastName": {"en": "Tonight"}},
         "windChill": {"textSummary": {"en": "Wind chill minus 5 overnight."}},
         "abbreviatedForecast": {"textSummary": {"en": "Clear"}, "pop": {"value": {"en": 10}}},
         "temperatures": {"temperature": [{"class": {"en": "low"}, "value": {"en": 4}}]}},
        {"period": {"textForecastName": {"en": "Friday"}},
         "abbreviatedForecast": {"textSummary": {"en": "Sunny"}, "pop": {"value": {"en": 30}}},
         "uv": {"index": {"value": {"en": 5}}},
         "winds": {"textSummary": {"en": "Wind west 20 km/h."}},
         "temperatures": {"temperature": [{"class": {"en": "high"}, "value": {"en": 13}}]}},
        {"period": {"textForecastName": {"en": "Friday night"}},
         "abbreviatedForecast": {"textSummary": {"en": "Cloudy"}},
         "temperatures": {"temperature": [{"class": {"en": "low"}, "value": {"en": -2}}]}},
        {"period": {"textForecastName": {"en": "Saturday"}},
         "abbreviatedForecast": {"textSummary": {"en": "Rain"}},
         "temperatures": {"temperature": [{"class": {"en": "high"}, "value": {"en": 9}}]}}
      ]}
    }
  }]
}"#;

#[test]
fn reads_a_geomet_document() {
    let w = parse_geomet(DOC).expect("the document parses");
    assert_eq!(w.location, "Toronto");
    assert_eq!(w.last_updated, "2025-10-18T18:00:00Z");
    assert_eq!(w.current.condition, "Mostly Cloudy");
    assert_eq!(w.current.icon, "☁️");
    assert_eq!(w.current.temperature, 104);
    assert_eq!(w.current.humidity, Some(83));
    assert_eq!(w.current.pressure, Some(1013));
    assert_eq!(w.current.wind_speed, Some(17));
    assert_eq!(w.current.wind_direction.as_deref(), Some("WSW"));
    assert_eq!(w.hourly.len(), 4);
    assert_eq!(w.hourly[0].time, "Tonight");
    assert_eq!(w.hourly[0].temperature, 4);
}

#[test]
fn tonight_joins_the_next_day() {
    let w = parse_geomet(DOC).unwrap();
    assert_eq!(w.daily.len(), 2);
    let friday = &w.daily[0];
    assert_eq!(friday.day_name, "Friday");
    assert_eq!(friday.high, Some(13));
    assert_eq!(friday.low, Some(4));
    assert_eq!(friday.summary, "Sunny");
    assert_eq!(friday.icon, "☀️");
    assert_eq!(friday.pop, Some(30));
    let saturday = &w.daily[1];
    assert_eq!(saturday.day_name, "Saturday");
    assert_eq!(saturday.high, Some(9));
    assert_eq!(saturday.low, None);
}

#[test]
fn missing_optional_fields_are_absent() {
    let w = parse_geomet(
        r#"{"features": [{"properties": {"currentConditions": {"condition": {"en": "Fog"}}}}]}"#,
    )
    .unwrap();
    assert_eq!(w.current.condition, "Fog");
    assert_eq!(w.current.temperature, 0);
    assert_eq!(w.current.pressure, None);
    assert_eq!(w.current.humidity, None);
    assert_eq!(w.current.wind_speed, None);
    assert_eq!(w.location, "Toronto");
    assert!(w.daily.is_empty());
}

#[test]
fn missing_features_is_a_parse_error() {
    assert_eq!(parse_geomet(r#"{"type": "FeatureCollection"}"#), Err(ParseError::Malformed));
    assert_eq!(parse_geomet(r#"{"features": []}"#), Err(ParseError::Malformed));
    assert_eq!(parse_geomet(r#"{"features": [{"id": 1}]}"#), Err(ParseError::Malformed));
    assert_eq!(parse_geomet(r#"{"features": {"properties": {}}}"#), Err(ParseError::Malformed));
}

#[test]
fn invalid_json_is_an_error() {
    assert!(matches!(parse_geomet("{not json"), Err(ParseError::InvalidJson(_))));
}

#[test]
fn json_values_convert() {
    let j = parse_json(r#"{"a": [1, 2.5, "x", true, null]}"#).unwrap();
    match j {
        JsonValue::Object(es) => {
            assert_eq!(es.len(), 1);
            assert_eq!(es[0].0, "a");
            match &es[0].1 {
                JsonValue::Array(items) => {
                    assert_eq!(items.len(), 5);
                    assert!(matches!(&items[0], JsonValue::Number(n) if n == "1"));
                    assert!(matches!(&items[1], JsonValue::Number(n) if n == "2.5"));
                    assert!(matches!(&items[2], JsonValue::Str(s) if s == "x"));
                    assert!(matches!(&items[3], JsonValue::Bool(true)));
                    assert!(matches!(&items[4], JsonValue::Null));
                }
                _ => panic!("an array"),
            }
        }
        _ => panic!("an object"),
    }
}

#[test]
fn at_most_seven_geomet_days() {
    let names = ["Monday", "Tuesday", "Wednesday", "Thursday", "Friday", "Saturday", "Sunday", "Later"];
    let periods: Vec<String> = names
        .iter()
        .map(|n| format!(r#"{{"period": {{"textForecastName": {{"en": "{}"}}}}}}"#, n))
        .collect();
    let doc = format!(
        r#"{{"features": [{{"properties": {{"forecastGroup": {{"forecasts": [{}]}}}}}}]}}"#,
        periods.join(",")
    );
    let j = parse_json(&doc).unwrap();
    let w = geomet_from_json(&j).unwrap();
    assert_eq!(w.hourly.len(), 8);
    assert_eq!(w.daily.len(), 7);
    assert_eq!(w.daily[6].day_name, "Sunday");
}

#[test]
fn air_quality_merge_is_best_effort() {
    let w = parse_geomet(DOC).unwrap();
    let kept = merge_air_quality(w.clone(), Err("timeout".to_string()));
    assert_eq!(kept, w);
    let merged = merge_air_quality(w, Ok(5));
    let aq = merged.current.air_quality.unwrap();
    assert_eq!(aq.index, 5);
    assert_eq!(aq.category, "Moderate");
    assert_eq!(merged.current.temperature, 104);
}

#[test]
fn day_fields_from_their_periods() {
    let w = parse_geomet(DOC).unwrap();
    let friday = &w.daily[0];
    assert_eq!(friday.uv_index, Some(5));
    assert_eq!(friday.wind_summary.as_deref(), Some("Wind west 20 km/h."));
    assert_eq!(friday.wind_chill.as_deref(), Some("Wind chill minus 5 overnight."));
    assert_eq!(w.daily[1].uv_index, None);
}
