use bin_weather::icon::get_weather_icon;
use bin_weather::model::DailyForecast;

#[test]
fn cloud_and_sun_is_partly_cloudy() {
    assert_eq!(get_weather_icon("Cloudy with sunny breaks"), "⛅");
    assert_eq!(get_weather_icon("Mix of sun and cloud"), "⛅");
    assert_eq!(get_weather_icon("A few clouds. Clearing late"), "⛅");
}

#[test]
fn storms_come_before_clouds() {
    assert_eq!(get_weather_icon("Cloudy with sunny breaks and thunderstorms"), "⛈️");
    assert_eq!(get_weather_icon("Risk of a thunderstorm"), "⛈️");
}

#[test]
fn each_condition_has_its_icon() {
    assert_eq!(get_weather_icon("Chance of flurries"), "❄️");
    assert_eq!(get_weather_icon("Snow"), "❄️");
    assert_eq!(get_weather_icon("Light rain"), "🌧️");
    assert_eq!(get_weather_icon("Drizzle"), "🌧️");
    assert_eq!(get_weather_icon("A few clouds and a chance of showers"), "🌧️");
    assert_eq!(get_weather_icon("Fog patches"), "🌫️");
    assert_eq!(get_weather_icon("Mist"), "🌫️");
    assert_eq!(get_weather_icon("Cloudy"), "☁️");
    assert_eq!(get_weather_icon("Sunny"), "☀️");
    assert_eq!(get_weather_icon("CLEAR"), "☀️");
    assert_eq!(get_weather_icon("Windy"), "🌤️");
    assert_eq!(get_weather_icon(""), "🌤️");
}

#[test]
fn get_emoji_uses_the_same_rule() {
    assert_eq!(DailyForecast::get_emoji("Sunny"), "☀️");
    assert_eq!(DailyForecast::get_emoji("Mainly cloudy"), "☁️");
    assert_eq!(DailyForecast::get_emoji("Cloudy with sunny periods"), "⛅");
}
