//! The GeoMet JSON weather document: `features[0].properties`, read into a weather record.
use vstd::prelude::*;
use crate::current::{air_quality_of, aqhi_category, tenths_i32};
use crate::forecast::{day_name_of, first_word, is_night};
use crate::icon::{get_weather_icon, icon_for};
use crate::json::{json_of, member, member2, member2_of, member_of, parse_json, JsonValue};
use crate::model::{
    day_views, opt_view, period_views, warning_views, AirView, CurrentConditions, CurrentView,
    DailyForecast, DayView, HourlyForecast, PeriodView, WeatherData, WeatherView,
};
use crate::numbers::{clamped, parse_tenths, parse_whole, signed_whole};
use crate::text::{
    chars_of, contains_in, is_word, parse_u32, trim, trimmed, u32_of, word_is, Keep,
};

verus! {

/// Why a document could not be read.
#[derive(Clone, Debug, PartialEq)]
pub enum ParseError {
    /// The text is not JSON.
    InvalidJson(String),
    /// The JSON lacks `features[0].properties`.
    Malformed,
}

pub open spec fn or_null(o: Option<JsonValue>) -> JsonValue {
    match o {
        Some(v) => v,
        None => JsonValue::Null,
    }
}

pub open spec fn or_empty(o: Option<Seq<char>>) -> Seq<char> {
    match o {
        Some(s) => s,
        None => seq![],
    }
}

/// The string under `key.en`.
pub open spec fn en_text(v: JsonValue, key: Seq<char>) -> Option<Seq<char>> {
    match member2(v, key, "en"@) {
        Some(JsonValue::Str(s)) => Some(s@),
        _ => None,
    }
}

/// The text of the number under `value.en`.
pub open spec fn own_number(v: JsonValue) -> Option<Seq<char>> {
    match member2(v, "value"@, "en"@) {
        Some(JsonValue::Number(s)) => Some(s@),
        _ => None,
    }
}

/// The text of the number under `key.value.en`.
pub open spec fn value_number(v: JsonValue, key: Seq<char>) -> Option<Seq<char>> {
    match member(v, key) {
        Some(x) => own_number(x),
        None => None,
    }
}

/// The string under `key.value.en`.
pub open spec fn value_text(v: JsonValue, key: Seq<char>) -> Option<Seq<char>> {
    match member(v, key) {
        Some(x) => match member2(x, "value"@, "en"@) {
            Some(JsonValue::Str(s)) => Some(s@),
            _ => None,
        },
        None => None,
    }
}

pub open spec fn opt_tenths(t: Option<Seq<char>>) -> Option<i32> {
    match t {
        Some(x) => tenths_i32(x),
        None => None,
    }
}

pub open spec fn opt_u32(t: Option<Seq<char>>) -> Option<u32> {
    match t {
        Some(x) => u32_of(x),
        None => None,
    }
}

pub open spec fn opt_whole(t: Option<Seq<char>>) -> Option<i32> {
    match t {
        Some(x) => clamped(signed_whole(x)),
        None => None,
    }
}

/// Current conditions from `currentConditions`. Missing readings stay absent; a missing
/// temperature reads as 0 and a missing condition as empty.
pub open spec fn geo_current(c: JsonValue) -> CurrentView {
    let cond = or_empty(en_text(c, "condition"@));
    let w = or_null(member(c, "wind"@));
    CurrentView {
        temperature: match opt_tenths(value_number(c, "temperature"@)) {
            Some(t) => t,
            None => 0,
        },
        condition: cond,
        icon: icon_for(cond),
        humidity: opt_u32(value_number(c, "relativeHumidity"@)),
        wind_speed: opt_u32(value_number(w, "speed"@)),
        wind_direction: value_text(w, "direction"@),
        pressure: opt_tenths(value_number(c, "pressure"@)),
        visibility: opt_tenths(value_number(c, "visibility"@)),
        dewpoint: opt_tenths(value_number(c, "dewpoint"@)),
        air_quality: None,
        wind_chill: opt_tenths(value_number(c, "windChill"@)),
        humidex: opt_tenths(value_number(c, "humidex"@)),
        sunrise: None,
        sunset: None,
    }
}

/// A forecast period's name ("Friday", "Friday night", "Tonight").
pub open spec fn period_name(f: JsonValue) -> Seq<char> {
    or_empty(en_text(or_null(member(f, "period"@)), "textForecastName"@))
}

pub open spec fn period_summary(f: JsonValue) -> Seq<char> {
    or_empty(en_text(or_null(member(f, "abbreviatedForecast"@)), "textSummary"@))
}

pub open spec fn period_pop(f: JsonValue) -> Option<u32> {
    opt_u32(value_number(or_null(member(f, "abbreviatedForecast"@)), "pop"@))
}

/// The first temperature of a period, in whole degrees.
pub open spec fn period_temp(f: JsonValue) -> Option<i32> {
    match member2(f, "temperatures"@, "temperature"@) {
        Some(JsonValue::Array(ts)) => if ts@.len() > 0 {
            opt_whole(own_number(ts@[0]))
        } else {
            None
        },
        _ => None,
    }
}

pub open spec fn is_tonight(name: Seq<char>) -> bool {
    is_word(trimmed(name, Keep::Visible), "tonight"@)
}

/// A period of the forecast, keyed by the day it belongs to.
pub struct GeoPeriod {
    pub day: Seq<char>,
    pub night: bool,
    pub temp: Option<i32>,
    pub summary: Seq<char>,
    pub pop: Option<u32>,
    pub uv_index: Option<u32>,
    pub wind_chill: Option<Seq<char>>,
    pub wind_summary: Option<Seq<char>>,
}

/// The day a period belongs to: its first word, except that "Tonight" belongs to the day of
/// the period after it.
pub open spec fn geo_day(items: Seq<JsonValue>, i: int) -> Seq<char> {
    if is_tonight(period_name(items[i])) && i + 1 < items.len() {
        day_name_of(period_name(items[i + 1]))
    } else {
        day_name_of(period_name(items[i]))
    }
}

pub open spec fn geo_period(items: Seq<JsonValue>, i: int) -> GeoPeriod {
    GeoPeriod {
        day: geo_day(items, i),
        night: is_night(period_name(items[i])),
        temp: period_temp(items[i]),
        summary: period_summary(items[i]),
        pop: period_pop(items[i]),
        uv_index: opt_u32(value_number(or_null(member(items[i], "uv"@)), "index"@)),
        wind_chill: en_text(or_null(member(items[i], "windChill"@)), "textSummary"@),
        wind_summary: en_text(or_null(member(items[i], "winds"@)), "textSummary"@),
    }
}

/// The larger of two probabilities, either of which may be missing.
pub open spec fn max_pop(a: Option<u32>, b: Option<u32>) -> Option<u32> {
    match (a, b) {
        (Some(x), Some(y)) => Some(
            if x >= y {
                x
            } else {
                y
            },
        ),
        (Some(x), None) => Some(x),
        (None, y) => y,
    }
}

/// The first day from index `i` on named exactly `name`.
pub open spec fn find_day(days: Seq<DayView>, name: Seq<char>, i: int) -> Option<int>
    decreases days.len() - i,
{
    if i < 0 || i >= days.len() {
        None
    } else if days[i].day_name == name {
        Some(i)
    } else {
        find_day(days, name, i + 1)
    }
}

/// The day that a period opens.
pub open spec fn new_day(p: GeoPeriod) -> DayView {
    DayView {
        day_name: p.day,
        high: if p.night {
            None
        } else {
            p.temp
        },
        low: if p.night {
            p.temp
        } else {
            None
        },
        summary: p.summary,
        pop: p.pop,
        icon: icon_for(p.summary),
        uv_index: if p.night {
            None
        } else {
            p.uv_index
        },
        wind_chill: p.wind_chill,
        wind_summary: if p.night {
            None
        } else {
            p.wind_summary
        },
    }
}

/// A period added to its day: a day period gives the high, the condition, the UV index and
/// the wind summary, a night the low, the first one given winning; the wind chill is the
/// first one given, and the probability the larger one.
pub open spec fn merge_day(d: DayView, p: GeoPeriod) -> DayView {
    let take_day = !p.night && d.high is None;
    DayView {
        day_name: d.day_name,
        high: if take_day {
            p.temp
        } else {
            d.high
        },
        low: if p.night && d.low is None {
            p.temp
        } else {
            d.low
        },
        summary: if take_day {
            p.summary
        } else {
            d.summary
        },
        pop: max_pop(d.pop, p.pop),
        icon: if take_day {
            icon_for(p.summary)
        } else {
            d.icon
        },
        uv_index: if take_day {
            p.uv_index
        } else {
            d.uv_index
        },
        wind_chill: if d.wind_chill is Some {
            d.wind_chill
        } else {
            p.wind_chill
        },
        wind_summary: if take_day {
            p.wind_summary
        } else {
            d.wind_summary
        },
    }
}

pub open spec fn group_step(days: Seq<DayView>, p: GeoPeriod) -> Seq<DayView> {
    match find_day(days, p.day, 0) {
        Some(k) => days.update(k, merge_day(days[k], p)),
        None => days.push(new_day(p)),
    }
}

/// The days that the first `n` periods make, in the order each day first appears.
pub open spec fn group_days(items: Seq<JsonValue>, n: int) -> Seq<DayView>
    decreases n,
{
    if n <= 0 {
        seq![]
    } else {
        group_step(group_days(items, n - 1), geo_period(items, n - 1))
    }
}

pub open spec fn geo_daily(items: Seq<JsonValue>) -> Seq<DayView> {
    let all = group_days(items, items.len() as int);
    if all.len() > 7 {
        all.take(7)
    } else {
        all
    }
}

/// Each period as it is listed.
pub open spec fn geo_hourly(items: Seq<JsonValue>) -> Seq<PeriodView> {
    Seq::new(
        items.len(),
        |i: int|
            PeriodView {
                time: period_name(items[i]),
                temperature: match period_temp(items[i]) {
                    Some(t) => t,
                    None => 0,
                },
                condition: period_summary(items[i]),
                pop: match period_pop(items[i]) {
                    Some(p) => p,
                    None => 0,
                },
                icon: icon_for(period_summary(items[i])),
            },
    )
}

/// The forecast periods of `forecastGroup.forecasts`, none where that is not a list.
pub open spec fn geo_items(props: JsonValue) -> Seq<JsonValue> {
    match member2(props, "forecastGroup"@, "forecasts"@) {
        Some(JsonValue::Array(items)) => items@,
        _ => seq![],
    }
}

/// `features[0].properties`, where the document has it as an object.
pub open spec fn geo_properties(root: JsonValue) -> Option<JsonValue> {
    match member(root, "features"@) {
        Some(JsonValue::Array(fs)) => if fs@.len() > 0 {
            match member(fs@[0], "properties"@) {
                Some(JsonValue::Object(es)) => Some(JsonValue::Object(es)),
                _ => None,
            }
        } else {
            None
        },
        _ => None,
    }
}

/// The record that a document's properties describe.
pub open spec fn geo_weather(props: JsonValue) -> WeatherView {
    let name = or_empty(en_text(props, "name"@));
    WeatherView {
        location: if name.len() > 0 {
            name
        } else {
            "Toronto"@
        },
        current: geo_current(or_null(member(props, "currentConditions"@))),
        hourly: geo_hourly(geo_items(props)),
        daily: geo_daily(geo_items(props)),
        warnings: seq![],
        last_updated: match member(props, "lastUpdated"@) {
            Some(JsonValue::Str(s)) => s@,
            _ => seq![],
        },
    }
}

fn en_text_of(v: &JsonValue, key: &str) -> (r: Option<String>)
    ensures
        opt_view(r) == en_text(*v, key@),
{
    match member2_of(v, key, "en") {
        Some(JsonValue::Str(s)) => Some(s.clone()),
        _ => None,
    }
}

fn own_number_of(v: &JsonValue) -> (r: Option<String>)
    ensures
        opt_view(r) == own_number(*v),
{
    match member2_of(v, "value", "en") {
        Some(JsonValue::Number(s)) => Some(s.clone()),
        _ => None,
    }
}

fn value_number_of(v: &JsonValue, key: &str) -> (r: Option<String>)
    ensures
        opt_view(r) == value_number(*v, key@),
{
    match member_of(v, key) {
        Some(x) => own_number_of(x),
        None => None,
    }
}

fn value_text_of(v: &JsonValue, key: &str) -> (r: Option<String>)
    ensures
        opt_view(r) == value_text(*v, key@),
{
    match member_of(v, key) {
        Some(x) => match member2_of(x, "value", "en") {
            Some(JsonValue::Str(s)) => Some(s.clone()),
            _ => None,
        },
        None => None,
    }
}

fn tenths_opt(t: &Option<String>) -> (r: Option<i32>)
    ensures
        r == opt_tenths(opt_view(*t)),
{
    match t {
        Some(s) => parse_tenths(&chars_of(s.as_str())),
        None => None,
    }
}

fn u32_opt(t: &Option<String>) -> (r: Option<u32>)
    ensures
        r == opt_u32(opt_view(*t)),
{
    match t {
        Some(s) => parse_u32(&chars_of(s.as_str())),
        None => None,
    }
}

fn whole_opt(t: &Option<String>) -> (r: Option<i32>)
    ensures
        r == opt_whole(opt_view(*t)),
{
    match t {
        Some(s) => parse_whole(&chars_of(s.as_str())),
        None => None,
    }
}

fn text_or_empty(t: Option<String>) -> (r: String)
    ensures
        r@ == or_empty(opt_view(t)),
{
    match t {
        Some(s) => s,
        None => String::new(),
    }
}

fn current_from(c: &JsonValue) -> (r: CurrentConditions)
    ensures
        r@ == geo_current(*c),
{
    let null = JsonValue::Null;
    let w: &JsonValue = match member_of(c, "wind") {
        Some(x) => x,
        None => &null,
    };
    let condition = text_or_empty(en_text_of(c, "condition"));
    let icon = get_weather_icon(condition.as_str());
    let temperature = match tenths_opt(&value_number_of(c, "temperature")) {
        Some(t) => t,
        None => 0,
    };
    CurrentConditions {
        temperature,
        condition,
        icon,
        humidity: u32_opt(&value_number_of(c, "relativeHumidity")),
        wind_speed: u32_opt(&value_number_of(w, "speed")),
        wind_direction: value_text_of(w, "direction"),
        pressure: tenths_opt(&value_number_of(c, "pressure")),
        visibility: tenths_opt(&value_number_of(c, "visibility")),
        dewpoint: tenths_opt(&value_number_of(c, "dewpoint")),
        air_quality: None,
        wind_chill: tenths_opt(&value_number_of(c, "windChill")),
        humidex: tenths_opt(&value_number_of(c, "humidex")),
        sunrise: None,
        sunset: None,
    }
}

struct GeoP {
    day: String,
    night: bool,
    temp: Option<i32>,
    summary: String,
    pop: Option<u32>,
    uv_index: Option<u32>,
    wind_chill: Option<String>,
    wind_summary: Option<String>,
}

spec fn gview(p: GeoP) -> GeoPeriod {
    GeoPeriod {
        day: p.day@,
        night: p.night,
        temp: p.temp,
        summary: p.summary@,
        pop: p.pop,
        uv_index: p.uv_index,
        wind_chill: opt_view(p.wind_chill),
        wind_summary: opt_view(p.wind_summary),
    }
}

fn under_text(f: &JsonValue, outer: &str, key: &str) -> (r: Option<String>)
    ensures
        opt_view(r) == en_text(or_null(member(*f, outer@)), key@),
{
    let null = JsonValue::Null;
    let x: &JsonValue = match member_of(f, outer) {
        Some(x) => x,
        None => &null,
    };
    en_text_of(x, key)
}

fn name_of(f: &JsonValue) -> (r: String)
    ensures
        r@ == period_name(*f),
{
    let null = JsonValue::Null;
    let p: &JsonValue = match member_of(f, "period") {
        Some(x) => x,
        None => &null,
    };
    text_or_empty(en_text_of(p, "textForecastName"))
}

fn read_period(items: &Vec<JsonValue>, i: usize) -> (r: GeoP)
    requires
        i < items@.len(),
    ensures
        gview(r) == geo_period(items@, i as int),
{
    let f = &items[i];
    let null = JsonValue::Null;
    let name = name_of(f);
    let tonight = word_is(&trim(&chars_of(name.as_str()), Keep::Visible), "tonight");
    let day = if tonight && i < items.len() - 1 {
        first_word(&name_of(&items[i + 1]))
    } else {
        first_word(&name)
    };
    let night = contains_in(&chars_of(name.as_str()), "night", true);
    let temp = match member2_of(f, "temperatures", "temperature") {
        Some(JsonValue::Array(ts)) => if ts.len() > 0 {
            whole_opt(&own_number_of(&ts[0]))
        } else {
            None
        },
        _ => None,
    };
    let a: &JsonValue = match member_of(f, "abbreviatedForecast") {
        Some(x) => x,
        None => &null,
    };
    let summary = text_or_empty(en_text_of(a, "textSummary"));
    let pop = u32_opt(&value_number_of(a, "pop"));
    let u: &JsonValue = match member_of(f, "uv") {
        Some(x) => x,
        None => &null,
    };
    let uv_index = u32_opt(&value_number_of(u, "index"));
    let wind_chill = under_text(f, "windChill", "textSummary");
    let wind_summary = under_text(f, "winds", "textSummary");
    GeoP { day, night, temp, summary, pop, uv_index, wind_chill, wind_summary }
}

fn max_pop_of(a: Option<u32>, b: Option<u32>) -> (r: Option<u32>)
    ensures
        r == max_pop(a, b),
{
    match (a, b) {
        (Some(x), Some(y)) => Some(
            if x >= y {
                x
            } else {
                y
            },
        ),
        (Some(x), None) => Some(x),
        (None, y) => y,
    }
}

fn new_day_of(p: &GeoP) -> (r: DailyForecast)
    ensures
        r@ == new_day(gview(*p)),
{
    DailyForecast {
        day_name: p.day.clone(),
        high: if p.night {
            None
        } else {
            p.temp
        },
        low: if p.night {
            p.temp
        } else {
            None
        },
        summary: p.summary.clone(),
        pop: p.pop,
        icon: get_weather_icon(p.summary.as_str()),
        uv_index: if p.night {
            None
        } else {
            p.uv_index
        },
        wind_chill: p.wind_chill.clone(),
        wind_summary: if p.night {
            None
        } else {
            p.wind_summary.clone()
        },
    }
}

fn merge_day_of(d: &DailyForecast, p: &GeoP) -> (r: DailyForecast)
    ensures
        r@ == merge_day(d@, gview(*p)),
{
    let take_day = !p.night && d.high.is_none();
    DailyForecast {
        day_name: d.day_name.clone(),
        high: if take_day {
            p.temp
        } else {
            d.high
        },
        low: if p.night && d.low.is_none() {
            p.temp
        } else {
            d.low
        },
        summary: if take_day {
            p.summary.clone()
        } else {
            d.summary.clone()
        },
        pop: max_pop_of(d.pop, p.pop),
        icon: if take_day {
            get_weather_icon(p.summary.as_str())
        } else {
            d.icon.clone()
        },
        uv_index: if take_day {
            p.uv_index
        } else {
            d.uv_index
        },
        wind_chill: if d.wind_chill.is_some() {
            d.wind_chill.clone()
        } else {
            p.wind_chill.clone()
        },
        wind_summary: if take_day {
            p.wind_summary.clone()
        } else {
            d.wind_summary.clone()
        },
    }
}

fn add_period(days: &mut Vec<DailyForecast>, p: &GeoP)
    ensures
        day_views(final(days)@) == group_step(day_views(old(days)@), gview(*p)),
{
    let ghost ds = day_views(days@);
    let n = days.len();
    let mut k: usize = 0;
    while k < n
        invariant
            n == days@.len(),
            ds == day_views(days@),
            days@ == old(days)@,
            k <= n,
            find_day(ds, p.day@, 0) == find_day(ds, p.day@, k as int),
        decreases n - k,
    {
        if crate::text::same_text(days[k].day_name.as_str(), p.day.as_str()) {
            assert(find_day(ds, p.day@, k as int) == Some(k as int));
            let merged = merge_day_of(&days[k], p);
            days.set(k, merged);
            assert(day_views(days@) =~= ds.update(k as int, merged@));
            return ;
        }
        k = k + 1;
    }
    let fresh = new_day_of(p);
    days.push(fresh);
    assert(day_views(days@) =~= ds.push(fresh@));
}

/// Reads a GeoMet document: `features[0].properties` must be an object, else the document
/// is malformed; below it every field is optional and a missing one is simply absent.
pub fn geomet_from_json(root: &JsonValue) -> (r: Result<WeatherData, ParseError>)
    ensures
        r matches Ok(d) ==> geo_properties(*root) matches Some(p) && d@ == geo_weather(p),
        r matches Err(e) ==> e is Malformed && geo_properties(*root) is None,
{
    let props: &JsonValue = match member_of(root, "features") {
        Some(JsonValue::Array(fs)) => {
            if fs.len() == 0 {
                return Err(ParseError::Malformed);
            }
            match member_of(&fs[0], "properties") {
                Some(p) => match p {
                    JsonValue::Object(_) => p,
                    _ => return Err(ParseError::Malformed),
                },
                None => return Err(ParseError::Malformed),
            }
        },
        _ => return Err(ParseError::Malformed),
    };
    let null = JsonValue::Null;
    let c: &JsonValue = match member_of(props, "currentConditions") {
        Some(x) => x,
        None => &null,
    };
    let current = current_from(c);
    let empty: Vec<JsonValue> = Vec::new();
    let items: &Vec<JsonValue> = match member2_of(props, "forecastGroup", "forecasts") {
        Some(JsonValue::Array(items)) => items,
        _ => &empty,
    };
    assert(items@ == geo_items(*props));
    let n = items.len();
    let mut hourly: Vec<HourlyForecast> = Vec::new();
    let mut daily: Vec<DailyForecast> = Vec::new();
    let mut i: usize = 0;
    while i < n
        invariant
            n == items@.len(),
            i <= n,
            period_views(hourly@) == geo_hourly(items@).take(i as int),
            day_views(daily@) == group_days(items@, i as int),
        decreases n - i,
    {
        let p = read_period(items, i);
        let ghost before = period_views(hourly@);
        let h = HourlyForecast {
            time: name_of(&items[i]),
            temperature: match p.temp {
                Some(t) => t,
                None => 0,
            },
            condition: p.summary.clone(),
            pop: match p.pop {
                Some(x) => x,
                None => 0,
            },
            icon: get_weather_icon(p.summary.as_str()),
        };
        assert(h@ == geo_hourly(items@)[i as int]);
        hourly.push(h);
        assert(period_views(hourly@) =~= before.push(h@));
        assert(period_views(hourly@) =~= geo_hourly(items@).take(i + 1));
        add_period(&mut daily, &p);
        i = i + 1;
    }
    assert(geo_hourly(items@).take(n as int) =~= geo_hourly(items@));
    if daily.len() > 7 {
        let ghost all = day_views(daily@);
        daily.truncate(7);
        assert(day_views(daily@) =~= all.take(7));
    }
    let name = text_or_empty(en_text_of(props, "name"));
    let location = if name.as_str().unicode_len() > 0 {
        name
    } else {
        String::from_str("Toronto")
    };
    let last_updated = match member_of(props, "lastUpdated") {
        Some(JsonValue::Str(s)) => s.clone(),
        _ => String::new(),
    };
    let warnings: Vec<crate::model::WeatherWarning> = Vec::new();
    assert(warning_views(warnings@) =~= seq![]);
    Ok(WeatherData { location, current, hourly, daily, warnings, last_updated })
}

/// Reads a GeoMet JSON text: text that is not JSON is an error, and JSON is read as
/// `geomet_from_json` reads it.
pub fn parse_geomet(text: &str) -> (r: Result<WeatherData, ParseError>)
    ensures
        json_of(text@) is None ==> (r matches Err(ParseError::InvalidJson(_))),
        json_of(text@) matches Some(j) ==> (r matches Ok(d) ==> (geo_properties(j) matches Some(p)
            && d@ == geo_weather(p))),
        json_of(text@) matches Some(j) ==> (r is Err ==> (r matches Err(ParseError::Malformed))
            && geo_properties(j) is None),
{
    match parse_json(text) {
        Ok(j) => geomet_from_json(&j),
        Err(m) => Err(ParseError::InvalidJson(m)),
    }
}

/// Merges the air-quality index fetched from its own endpoint: a reading sets the record's
/// air quality, a failed fetch leaves the record as it was.
pub fn merge_air_quality(w: WeatherData, aqhi: Result<u32, String>) -> (r: WeatherData)
    ensures
        aqhi matches Ok(i) ==> r@ == (WeatherView {
            current: CurrentView {
                air_quality: Some(AirView { index: i, category: aqhi_category(i) }),
                ..w@.current
            },
            ..w@
        }),
        aqhi is Err ==> r@ == w@,
{
    match aqhi {
        Ok(i) => {
            let mut w = w;
            w.current.air_quality = Some(air_quality_of(i));
            w
        },
        Err(_) => w,
    }
}

/// A document without a `features` list is malformed: reading it fails rather than giving an
/// empty record.
pub proof fn lemma_features_required(root: JsonValue)
    requires
        !(member(root, "features"@) matches Some(JsonValue::Array(_))),
    ensures
        geo_properties(root) is None,
{
}

/// A reading missing from `currentConditions` is absent from the record, and the rest of the
/// document is still read.
pub proof fn lemma_missing_reading(props: JsonValue)
    ensures
        ({
            let c = or_null(member(props, "currentConditions"@));
            let w = geo_weather(props).current;
            &&& value_number(c, "pressure"@) is None ==> w.pressure is None
            &&& value_number(c, "visibility"@) is None ==> w.visibility is None
            &&& value_number(c, "dewpoint"@) is None ==> w.dewpoint is None
            &&& value_number(c, "relativeHumidity"@) is None ==> w.humidity is None
            &&& value_number(c, "windChill"@) is None ==> w.wind_chill is None
            &&& value_number(c, "humidex"@) is None ==> w.humidex is None
            &&& value_number(c, "temperature"@) is None ==> w.temperature == 0
        }),
{
}

} // verus!
