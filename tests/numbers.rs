use bin_weather::numbers::{extract_number, extract_pop, find_percent, find_pop};

#[test]
fn high_in_words() {
    assert_eq!(extract_number("Monday: Sunny. High minus 5.", "high"), Some(-5));
    assert_eq!(extract_number("Monday: Sunny. High plus 5.", "high"), Some(5));
    assert_eq!(extract_number("Monday: Sunny. High zero.", "high"), Some(0));
    assert_eq!(extract_number("Monday: Sunny. High -5.", "high"), Some(-5));
}

#[test]
fn high_and_low_as_digits() {
    assert_eq!(extract_number("Tuesday: Sunny. High 13.", "high"), Some(13));
    assert_eq!(extract_number("Tuesday night: Clear. Low 8.", "low"), Some(8));
    assert_eq!(extract_number("Tonight: Clear. Low minus 12.", "low"), Some(-12));
    assert_eq!(extract_number("Friday: Cloudy. HIGH 7", "high"), Some(7));
    assert_eq!(extract_number("Friday: Cloudy. High 10.5 today", "high"), Some(10));
}

#[test]
fn no_number_after_keyword() {
    assert_eq!(extract_number("Friday: Cloudy.", "high"), None);
    assert_eq!(extract_number("Friday: Cloudy. High near normal.", "high"), None);
    assert_eq!(extract_number("", "high"), None);
}

#[test]
fn huge_numbers_are_held_to_i32() {
    assert_eq!(extract_number("High 99999999999.", "high"), Some(i32::MAX));
    assert_eq!(extract_number("High minus 99999999999.", "high"), Some(i32::MIN));
}

#[test]
fn pop_in_title() {
    assert_eq!(extract_pop("Tuesday: Chance of showers. High 12. POP 40%"), 40);
    assert_eq!(find_pop("Tuesday: Chance of showers. POP 100%"), Some(100));
    assert_eq!(extract_pop("Tuesday: Sunny. High 12."), 0);
    assert_eq!(find_pop("Tuesday: Sunny. POP none"), None);
}

#[test]
fn percent_in_summary() {
    assert_eq!(find_percent("Periods of rain. 60 percent chance of rain. High 12."), Some(60));
    assert_eq!(find_percent("Sunny. High 12."), None);
    assert_eq!(find_percent("percent 30"), None);
}
