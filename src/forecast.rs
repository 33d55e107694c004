//! Forecast periods read from feed entry titles, and their pairing into days.
use vstd::prelude::*;
use crate::icon::{icon_for, get_weather_icon, mentions};
use crate::model::{day_views, period_views, DailyForecast, DayView, HourlyForecast, PeriodView};
use crate::numbers::{extract_number, find_percent, find_pop, number_after, percent_in, stated_pop};
use crate::text::{
    chars_of, contains_in, cut, cut_at, find_in, find_spec, occurs, slice_of, split_words,
    string_of, trim, trimmed, views, words, Keep,
};

verus! {

/// Entries that carry notices rather than a forecast.
pub open spec fn is_notice(title: Seq<char>) -> bool {
    occurs(title, "SPECIAL WEATHER"@, false) || occurs(title, "Notice"@, false)
}

/// The period named before the first colon of a title.
pub open spec fn period_of(title: Seq<char>) -> Seq<char> {
    trimmed(cut_at(title, ":"@), Keep::Visible)
}

/// The first sentence after the first colon of a title.
pub open spec fn condition_of(title: Seq<char>) -> Seq<char> {
    match find_spec(title, ":"@, false) {
        Some(i) => trimmed(cut_at(cut_at(title.skip(i + 1), ":"@), "."@), Keep::Visible),
        None => seq![],
    }
}

/// The high of a title, else its low, else 0.
pub open spec fn temperature_of(title: Seq<char>) -> i32 {
    match number_after(title, "high"@) {
        Some(v) => v,
        None => match number_after(title, "low"@) {
            Some(v) => v,
            None => 0,
        },
    }
}

/// The "POP NN%" of a title, else the "NN percent" of the summary, else 0.
pub open spec fn pop_of(title: Seq<char>, summary: Seq<char>) -> u32 {
    match stated_pop(title) {
        Some(v) => v,
        None => match percent_in(words(summary), 0) {
            Some(v) => v,
            None => 0,
        },
    }
}

/// The forecast period that an entry with this title and summary describes.
pub open spec fn forecast_item(title: Seq<char>, summary: Seq<char>) -> Option<PeriodView> {
    if is_notice(title) || find_spec(title, ":"@, false) is None {
        None
    } else {
        Some(
            PeriodView {
                time: period_of(title),
                temperature: temperature_of(title),
                condition: condition_of(title),
                pop: pop_of(title, summary),
                icon: icon_for(condition_of(title)),
            },
        )
    }
}

/// Reads a forecast entry titled like "Tuesday: Sunny. High 13. POP 30%".
pub fn parse_forecast_item(title: &str, summary: &str) -> (r: Option<HourlyForecast>)
    ensures
        r matches Some(p) ==> forecast_item(title@, summary@) == Some(p@),
        r is None ==> forecast_item(title@, summary@) is None,
{
    let t = chars_of(title);
    if contains_in(&t, "SPECIAL WEATHER", false) || contains_in(&t, "Notice", false) {
        return None;
    }
    let n = t.len();
    let colon = match find_in(&t, ":", false) {
        Some(i) => i,
        None => return None,
    };
    proof {
        reveal_strlit(":");
    }
    let head = cut(&t, ":");
    let period = trim(&head, Keep::Visible);
    let rest = slice_of(&t, colon + 1, n);
    assert(rest@ =~= t@.skip(colon + 1));
    let part = cut(&rest, ":");
    let sentence = cut(&part, ".");
    let condition = trim(&sentence, Keep::Visible);
    let temperature = match extract_number(title, "high") {
        Some(v) => v,
        None => match extract_number(title, "low") {
            Some(v) => v,
            None => 0,
        },
    };
    let pop = match find_pop(title) {
        Some(v) => v,
        None => match find_percent(summary) {
            Some(v) => v,
            None => 0,
        },
    };
    let condition_text = string_of(&condition);
    let icon = get_weather_icon(condition_text.as_str());
    Some(
        HourlyForecast {
            time: string_of(&period),
            temperature,
            condition: condition_text,
            pop,
            icon,
        },
    )
}

/// A day period waiting for the night that closes it.
pub struct OpenDay {
    pub name: Seq<char>,
    pub high: i32,
    pub summary: Seq<char>,
    pub pop: Option<u32>,
}

/// A period is a night when its name mentions "night" ("Tonight", "Tuesday night").
pub open spec fn is_night(time: Seq<char>) -> bool {
    mentions(time, "night"@)
}

/// The first word of a period name, or the whole name where it has none.
pub open spec fn day_name_of(time: Seq<char>) -> Seq<char> {
    if words(time).len() > 0 {
        words(time)[0]
    } else {
        time
    }
}

/// A probability of 0 counts as none given.
pub open spec fn pop_given(p: u32) -> Option<u32> {
    if p > 0 {
        Some(p)
    } else {
        None
    }
}

/// The day that a day period and the night after it make.
pub open spec fn closed_day(d: OpenDay, night: PeriodView) -> DayView {
    DayView {
        day_name: d.name,
        high: Some(d.high),
        low: Some(night.temperature),
        summary: d.summary,
        pop: if d.pop is Some {
            d.pop
        } else {
            pop_given(night.pop)
        },
        icon: icon_for(d.summary),
        uv_index: None,
        wind_chill: None,
        wind_summary: None,
    }
}

/// The day that a night with no day period before it makes.
pub open spec fn night_only(night: PeriodView) -> DayView {
    DayView {
        day_name: day_name_of(night.time),
        high: None,
        low: Some(night.temperature),
        summary: night.condition,
        pop: pop_given(night.pop),
        icon: icon_for(night.condition),
        uv_index: None,
        wind_chill: None,
        wind_summary: None,
    }
}

/// The day that a day period with no night after it makes.
pub open spec fn day_only(d: OpenDay) -> DayView {
    DayView {
        day_name: d.name,
        high: Some(d.high),
        low: None,
        summary: d.summary,
        pop: d.pop,
        icon: icon_for(d.summary),
        uv_index: None,
        wind_chill: None,
        wind_summary: None,
    }
}

/// One period more: a day period opens a day (a day still open is finished first, with no
/// low), a night closes the open day or stands alone.
pub open spec fn pair_step(days: Seq<DayView>, open: Option<OpenDay>, p: PeriodView) -> (
    Seq<DayView>,
    Option<OpenDay>,
) {
    if !is_night(p.time) {
        (
            match open {
                Some(d) => days.push(day_only(d)),
                None => days,
            },
            Some(
                OpenDay {
                    name: day_name_of(p.time),
                    high: p.temperature,
                    summary: p.condition,
                    pop: pop_given(p.pop),
                },
            ),
        )
    } else {
        match open {
            Some(d) => (days.push(closed_day(d, p)), None),
            None => (days.push(night_only(p)), None),
        }
    }
}

/// The days finished, and the day still open, after the periods `ps`.
pub open spec fn pair_scan(ps: Seq<PeriodView>) -> (Seq<DayView>, Option<OpenDay>)
    decreases ps.len(),
{
    if ps.len() == 0 {
        (seq![], None)
    } else {
        let st = pair_scan(ps.drop_last());
        pair_step(st.0, st.1, ps.last())
    }
}

/// All days that the periods make, a day left open at the end included.
pub open spec fn paired_days(ps: Seq<PeriodView>) -> Seq<DayView> {
    let st = pair_scan(ps);
    match st.1 {
        Some(d) => st.0.push(day_only(d)),
        None => st.0,
    }
}

/// The daily forecast: the first seven days, in feed order.
pub open spec fn daily_of(ps: Seq<PeriodView>) -> Seq<DayView> {
    let all = paired_days(ps);
    if all.len() > 7 {
        all.take(7)
    } else {
        all
    }
}

/// How an open day held in executable values reads.
pub open spec fn open_view(o: Option<(String, i32, String, Option<u32>)>) -> Option<OpenDay> {
    match o {
        Some(t) => Some(OpenDay { name: t.0@, high: t.1, summary: t.2@, pop: t.3 }),
        None => None,
    }
}

fn pop_option(p: u32) -> (r: Option<u32>)
    ensures
        r == pop_given(p),
{
    if p > 0 {
        Some(p)
    } else {
        None
    }
}

pub(crate) fn first_word(time: &String) -> (r: String)
    ensures
        r@ == day_name_of(time@),
{
    let t = chars_of(time.as_str());
    let ws = split_words(&t, 0);
    assert(t@.skip(0) =~= t@);
    if ws.len() > 0 {
        assert(views(ws@)[0] == ws@[0]@);
        string_of(&ws[0])
    } else {
        time.clone()
    }
}

fn build_day(name: String, high: Option<i32>, low: Option<i32>, summary: String, pop: Option<u32>) -> (r: DailyForecast)
    ensures
        r@ == (DayView {
            day_name: name@,
            high,
            low,
            summary: summary@,
            pop,
            icon: icon_for(summary@),
            uv_index: None,
            wind_chill: None,
            wind_summary: None,
        }),
{
    let icon = DailyForecast::get_emoji(summary.as_str());
    DailyForecast {
        day_name: name,
        high,
        low,
        summary,
        pop,
        icon,
        uv_index: None,
        wind_chill: None,
        wind_summary: None,
    }
}

/// Splits the feed's periods into the period list and the daily forecast: each day period
/// is paired with the night that follows it; at most seven days are kept.
pub fn separate_forecasts(forecasts: Vec<HourlyForecast>) -> (r: (Vec<HourlyForecast>, Vec<DailyForecast>))
    ensures
        period_views(r.0@) == period_views(forecasts@),
        day_views(r.1@) == daily_of(period_views(forecasts@)),
{
    let ghost ps = period_views(forecasts@);
    let n = forecasts.len();
    let mut daily: Vec<DailyForecast> = Vec::new();
    let mut open: Option<(String, i32, String, Option<u32>)> = None;
    let mut i: usize = 0;
    while i < n
        invariant
            n == forecasts@.len(),
            ps == period_views(forecasts@),
            i <= n,
            (day_views(daily@), open_view(open)) == pair_scan(ps.take(i as int)),
        decreases n - i,
    {
        let p = &forecasts[i];
        assert(ps.take(i + 1).drop_last() =~= ps.take(i as int));
        assert(ps.take(i + 1).last() == p@);
        let time = chars_of(p.time.as_str());
        let night = contains_in(&time, "night", true);
        if !night {
            if let Some(d) = open {
                let ghost before = day_views(daily@);
                let day = build_day(d.0, Some(d.1), None, d.2, d.3);
                daily.push(day);
                assert(day_views(daily@) =~= before.push(day@));
            }
            let name = first_word(&p.time);
            open = Some((name, p.temperature, p.condition.clone(), pop_option(p.pop)));
        } else {
            let ghost before = day_views(daily@);
            let day = match open {
                Some(d) => {
                    let pop = if d.3.is_some() {
                        d.3
                    } else {
                        pop_option(p.pop)
                    };
                    build_day(d.0, Some(d.1), Some(p.temperature), d.2, pop)
                },
                None => {
                    let name = first_word(&p.time);
                    build_day(name, None, Some(p.temperature), p.condition.clone(), pop_option(p.pop))
                },
            };
            daily.push(day);
            open = None;
            assert(day_views(daily@) =~= before.push(day@));
        }
        i = i + 1;
    }
    assert(ps.take(n as int) =~= ps);
    if let Some(d) = open {
        let ghost before = day_views(daily@);
        let day = build_day(d.0, Some(d.1), None, d.2, d.3);
        daily.push(day);
        assert(day_views(daily@) =~= before.push(day@));
    }
    if daily.len() > 7 {
        let ghost all = day_views(daily@);
        daily.truncate(7);
        assert(day_views(daily@) =~= all.take(7));
    }
    (forecasts, daily)
}

/// A day period followed by its night makes exactly one day: named by the day period's first
/// word, with the day's temperature as the high and the night's as the low.
pub proof fn lemma_day_night_pair(day: PeriodView, night: PeriodView)
    requires
        !is_night(day.time),
        is_night(night.time),
    ensures
        daily_of(seq![day, night]).len() == 1,
        daily_of(seq![day, night])[0].day_name == day_name_of(day.time),
        daily_of(seq![day, night])[0].high == Some(day.temperature),
        daily_of(seq![day, night])[0].low == Some(night.temperature),
        daily_of(seq![day, night])[0].summary == day.condition,
{
    let ps = seq![day, night];
    assert(ps.drop_last() =~= seq![day]);
    assert(seq![day].drop_last() =~= Seq::<PeriodView>::empty());
    let s0 = pair_scan(Seq::<PeriodView>::empty());
    let s1 = pair_scan(seq![day]);
    assert(s1 == pair_step(s0.0, s0.1, day));
    assert(s1.0.len() == 0 && s1.1 is Some);
    let s2 = pair_scan(ps);
    assert(s2 == pair_step(s1.0, s1.1, night));
    assert(s2.0 =~= seq![closed_day(s1.1->0, night)]);
}

/// A day period with no night after it still makes a day, with no low.
pub proof fn lemma_trailing_day(ps: Seq<PeriodView>, day: PeriodView)
    requires
        !is_night(day.time),
    ensures
        paired_days(ps.push(day)).last().high == Some(day.temperature),
        paired_days(ps.push(day)).last().low is None,
        paired_days(ps.push(day)).last().day_name == day_name_of(day.time),
{
    assert(ps.push(day).drop_last() =~= ps);
}

/// Two day periods in a row make two days: the first is kept with no low.
pub proof fn lemma_day_after_day(first: PeriodView, second: PeriodView)
    requires
        !is_night(first.time),
        !is_night(second.time),
    ensures
        daily_of(seq![first, second]).len() == 2,
        daily_of(seq![first, second])[0].day_name == day_name_of(first.time),
        daily_of(seq![first, second])[0].high == Some(first.temperature),
        daily_of(seq![first, second])[0].low is None,
        daily_of(seq![first, second])[1].day_name == day_name_of(second.time),
        daily_of(seq![first, second])[1].low is None,
{
    let ps = seq![first, second];
    assert(ps.drop_last() =~= seq![first]);
    assert(seq![first].drop_last() =~= Seq::<PeriodView>::empty());
    let s0 = pair_scan(Seq::<PeriodView>::empty());
    let s1 = pair_scan(seq![first]);
    assert(s1 == pair_step(s0.0, s0.1, first));
    let s2 = pair_scan(ps);
    assert(s2 == pair_step(s1.0, s1.1, second));
    assert(s2.0 =~= seq![day_only(s1.1->0)]);
}

} // verus!
