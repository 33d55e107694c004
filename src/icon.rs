//! The icon of a weather condition, chosen by keywords in its text.
use vstd::prelude::*;
use crate::model::DailyForecast;
use crate::text::{chars_of, contains_in, occurs};

verus! {

/// `k` occurs in `t`, ASCII capitals in `t` matching `k`'s lower-case letters.
pub open spec fn mentions(t: Seq<char>, k: Seq<char>) -> bool {
    occurs(t, k, true)
}

pub open spec fn stormy(t: Seq<char>) -> bool {
    mentions(t, "thunder"@) || mentions(t, "storm"@)
}

pub open spec fn snowy(t: Seq<char>) -> bool {
    mentions(t, "snow"@) || mentions(t, "flurr"@)
}

pub open spec fn rainy(t: Seq<char>) -> bool {
    mentions(t, "rain"@) || mentions(t, "shower"@) || mentions(t, "drizzle"@)
}

pub open spec fn foggy(t: Seq<char>) -> bool {
    mentions(t, "fog"@) || mentions(t, "mist"@)
}

pub open spec fn cloudy(t: Seq<char>) -> bool {
    mentions(t, "cloud"@)
}

pub open spec fn sunny(t: Seq<char>) -> bool {
    mentions(t, "sun"@) || mentions(t, "clear"@)
}

pub open spec fn storm_icon() -> Seq<char> {
    "⛈️"@
}

pub open spec fn snow_icon() -> Seq<char> {
    "❄️"@
}

pub open spec fn rain_icon() -> Seq<char> {
    "🌧️"@
}

pub open spec fn fog_icon() -> Seq<char> {
    "🌫️"@
}

pub open spec fn partly_cloudy_icon() -> Seq<char> {
    "⛅"@
}

pub open spec fn cloud_icon() -> Seq<char> {
    "☁️"@
}

pub open spec fn sun_icon() -> Seq<char> {
    "☀️"@
}

pub open spec fn variable_icon() -> Seq<char> {
    "🌤️"@
}

/// The icon for a condition text: the first of these that the text mentions wins.
pub open spec fn icon_for(t: Seq<char>) -> Seq<char> {
    if stormy(t) {
        storm_icon()
    } else if snowy(t) {
        snow_icon()
    } else if rainy(t) {
        rain_icon()
    } else if foggy(t) {
        fog_icon()
    } else if cloudy(t) && sunny(t) {
        partly_cloudy_icon()
    } else if cloudy(t) {
        cloud_icon()
    } else if sunny(t) {
        sun_icon()
    } else {
        variable_icon()
    }
}

/// The icon for a condition text, by keyword precedence.
pub fn get_weather_icon(condition: &str) -> (r: String)
    ensures
        r@ == icon_for(condition@),
{
    let t = chars_of(condition);
    if contains_in(&t, "thunder", true) || contains_in(&t, "storm", true) {
        String::from_str("⛈️")
    } else if contains_in(&t, "snow", true) || contains_in(&t, "flurr", true) {
        String::from_str("❄️")
    } else if contains_in(&t, "rain", true) || contains_in(&t, "shower", true) || contains_in(
        &t,
        "drizzle",
        true,
    ) {
        String::from_str("🌧️")
    } else if contains_in(&t, "fog", true) || contains_in(&t, "mist", true) {
        String::from_str("🌫️")
    } else {
        let cloud = contains_in(&t, "cloud", true);
        let sun = contains_in(&t, "sun", true) || contains_in(&t, "clear", true);
        if cloud && sun {
            String::from_str("⛅")
        } else if cloud {
            String::from_str("☁️")
        } else if sun {
            String::from_str("☀️")
        } else {
            String::from_str("🌤️")
        }
    }
}

impl DailyForecast {
    /// The icon for a day's summary; the same rule as for every other condition text.
    pub fn get_emoji(condition: &str) -> (r: String)
        ensures
            r@ == icon_for(condition@),
    {
        get_weather_icon(condition)
    }
}

/// A text that mentions clouds and sun, and none of storm, snow, rain or fog, gets the
/// partly-cloudy icon, never the plain cloud or plain sun.
pub proof fn lemma_cloud_and_sun(t: Seq<char>)
    requires
        mentions(t, "cloud"@),
        mentions(t, "sun"@),
        !stormy(t),
        !snowy(t),
        !rainy(t),
        !foggy(t),
    ensures
        icon_for(t) == partly_cloudy_icon(),
        icon_for(t) != cloud_icon(),
        icon_for(t) != sun_icon(),
{
    reveal_strlit("⛅");
    reveal_strlit("☁️");
    reveal_strlit("☀️");
}

} // verus!
