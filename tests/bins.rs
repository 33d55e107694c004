use bin_weather::bins::{
    days_until_pickup, get_alternate_bin, is_christmas_tree_season, is_yard_waste_season,
    BinVariation,
};
use bin_weather::model::WeatherData;
use bin_weather::props::{DailyComponentProps, WeatherCtx};

#[test]
fn yard_waste_season_bounds() {
    assert!(is_yard_waste_season(3, 20));
    assert!(!is_yard_waste_season(3, 19));
    assert!(is_yard_waste_season(7, 1));
    assert!(is_yard_waste_season(12, 11));
    assert!(!is_yard_waste_season(12, 12));
    assert!(!is_yard_waste_season(1, 15));
}

#[test]
fn christmas_tree_season_bounds() {
    assert!(is_christmas_tree_season(1, 6));
    assert!(is_christmas_tree_season(1, 31));
    assert!(!is_christmas_tree_season(1, 5));
    assert!(!is_christmas_tree_season(2, 1));
    assert!(!is_christmas_tree_season(12, 25));
}

#[test]
fn bins_alternate_every_week() {
    assert_eq!(get_alternate_bin(0), BinVariation::Yellow);
    assert_eq!(get_alternate_bin(1), BinVariation::Blue);
    assert_eq!(get_alternate_bin(7), BinVariation::Blue);
    assert_eq!(get_alternate_bin(8), BinVariation::Yellow);
    assert_eq!(get_alternate_bin(14), BinVariation::Yellow);
    assert_eq!(get_alternate_bin(21), BinVariation::Blue);
    assert_eq!(get_alternate_bin(-14), BinVariation::Yellow);
    assert_eq!(get_alternate_bin(-3), BinVariation::Blue);
    assert_eq!(get_alternate_bin(i64::MIN), BinVariation::Blue);
}

#[test]
fn days_to_thursday() {
    assert_eq!(days_until_pickup(0), 3);
    assert_eq!(days_until_pickup(3), 0);
    assert_eq!(days_until_pickup(4), 6);
    assert_eq!(days_until_pickup(6), 4);
}

#[test]
fn failed_refresh_keeps_data() {
    let mut data = WeatherData::empty();
    data.location = "Toronto".to_string();
    let ctx = WeatherCtx::new().reduce(data.clone());
    assert!(ctx.is_loaded);
    let ctx = ctx.refresh(Err("offline".to_string()));
    assert!(ctx.is_loaded);
    assert_eq!(ctx.weather, data);
    let mut newer = WeatherData::empty();
    newer.location = "Ottawa".to_string();
    let ctx = ctx.refresh(Ok(newer.clone()));
    assert_eq!(ctx.weather, newer);
}

#[test]
fn card_props_copy_the_day() {
    let d = bin_weather::model::DailyForecast {
        day_name: "Monday".to_string(),
        high: Some(10),
        low: None,
        summary: "Sunny".to_string(),
        pop: Some(10),
        icon: "☀️".to_string(),
        uv_index: None,
        wind_chill: None,
        wind_summary: None,
    };
    let p = DailyComponentProps::from_forecast(&d);
    assert_eq!(p.day_name, "Monday");
    assert_eq!(p.high, Some(10));
    assert_eq!(p.low, None);
    assert_eq!(p.pop, Some(10));
    assert_eq!(p.icon, "☀️");
}
