//! Current conditions read from the feed's "Current Conditions" entry.
use vstd::prelude::*;
use crate::icon::{get_weather_icon, icon_for};
use crate::model::{AirQuality, AirView, CurrentConditions, CurrentView};
use crate::numbers::{parse_tenths, tenths_of};
use crate::text::{
    chars_of, contains_in, cut, cut_at, ends_with, find_in, find_spec, lemma_occurs_piece,
    lemma_occurs_trimmed, matches_here, occurs,
    parse_u32, pieces, slice_of, split_on, split_words, string_of, trim, trimmed, u32_of, views,
    words, Keep,
};

verus! {

/// A reading in tenths as an `i32`.
pub open spec fn tenths_i32(w: Seq<char>) -> Option<i32> {
    match tenths_of(w) {
        Some(v) => Some(v as i32),
        None => None,
    }
}

fn tenths(w: &Vec<char>) -> (r: Option<i32>)
    ensures
        r == tenths_i32(w@),
{
    parse_tenths(w)
}

/// The temperature after the comma of a title: "10.4°C" gives 104, an unreadable number 0,
/// and no "°C" at the end leaves `old` in place.
pub open spec fn title_temperature(t: Seq<char>, old: i32) -> i32 {
    if ends_with(t, "°C"@) {
        match tenths_i32(trimmed(t.take(t.len() - "°C"@.len()), Keep::Visible)) {
            Some(v) => v,
            None => 0,
        }
    } else {
        old
    }
}

/// What a title like "Current Conditions: Mostly Cloudy, 10.4°C" sets: the condition, its
/// icon and the temperature, where the text after the colon has a comma.
pub open spec fn title_update(c: CurrentView, title: Seq<char>) -> CurrentView {
    match find_spec(title, ":"@, false) {
        None => c,
        Some(i) => {
            let part = cut_at(title.skip(i + 1), ":"@);
            match find_spec(part, ","@, false) {
                None => c,
                Some(j) => {
                    let cond = trimmed(part.take(j), Keep::Visible);
                    let t = trimmed(cut_at(part.skip(j + 1), ","@), Keep::Visible);
                    CurrentView {
                        condition: cond,
                        icon: icon_for(cond),
                        temperature: title_temperature(t, c.temperature),
                        ..c
                    }
                },
            }
        },
    }
}

/// The value of a summary line: the text after its first "</b>", up to the next one.
pub open spec fn line_value(line: Seq<char>) -> Option<Seq<char>> {
    match find_spec(line, "</b>"@, false) {
        Some(i) => Some(trimmed(cut_at(line.skip(i + "</b>"@.len()), "</b>"@), Keep::Visible)),
        None => None,
    }
}

/// The first word of a value read in tenths.
pub open spec fn first_tenths(v: Seq<char>) -> Option<i32> {
    if words(v).len() > 0 {
        tenths_i32(words(v)[0])
    } else {
        None
    }
}

/// The risk category of an Air Quality Health Index.
pub open spec fn aqhi_category(index: u32) -> Seq<char> {
    if 1 <= index <= 3 {
        "Low"@
    } else if 4 <= index <= 6 {
        "Moderate"@
    } else if 7 <= index <= 10 {
        "High"@
    } else {
        "Very High"@
    }
}

/// An Air Quality Health Index reading with its risk category.
pub fn air_quality_of(index: u32) -> (r: AirQuality)
    ensures
        r@ == (AirView { index, category: aqhi_category(index) }),
{
    let category = if 1 <= index && index <= 3 {
        String::from_str("Low")
    } else if 4 <= index && index <= 6 {
        String::from_str("Moderate")
    } else if 7 <= index && index <= 10 {
        String::from_str("High")
    } else {
        String::from_str("Very High")
    };
    AirQuality { index, category }
}

/// What one summary line sets. The line is trimmed, its label picks the field, and a value
/// that cannot be read leaves the field as it was.
pub open spec fn line_update(c: CurrentView, raw: Seq<char>) -> CurrentView {
    let line = trimmed(raw, Keep::Visible);
    match line_value(line) {
        None => c,
        Some(v) => if occurs(line, "Temperature:"@, false) {
            match tenths_i32(trimmed(cut_at(v, "&deg;C"@), Keep::Visible)) {
                Some(t) => CurrentView { temperature: t, ..c },
                None => c,
            }
        } else if occurs(line, "Humidity:"@, false) {
            match u32_of(trimmed(cut_at(v, "%"@), Keep::Visible)) {
                Some(h) => CurrentView { humidity: Some(h), ..c },
                None => c,
            }
        } else if occurs(line, "Pressure"@, false) {
            match first_tenths(v) {
                Some(p) => CurrentView { pressure: Some(p), ..c },
                None => c,
            }
        } else if occurs(line, "Visibility:"@, false) {
            match first_tenths(v) {
                Some(p) => CurrentView { visibility: Some(p), ..c },
                None => c,
            }
        } else if occurs(line, "Dewpoint:"@, false) {
            match tenths_i32(trimmed(cut_at(v, "&deg;C"@), Keep::Visible)) {
                Some(t) => CurrentView { dewpoint: Some(t), ..c },
                None => c,
            }
        } else if occurs(line, "Wind:"@, false) {
            if words(v).len() >= 3 {
                CurrentView {
                    wind_direction: Some(words(v)[0]),
                    wind_speed: u32_of(words(v)[1]),
                    ..c
                }
            } else {
                c
            }
        } else if occurs(line, "Air Quality Health Index:"@, false) {
            if words(v).len() > 0 && u32_of(words(v)[0]) is Some {
                let x = u32_of(words(v)[0])->0;
                CurrentView {
                    air_quality: Some(AirView { index: x, category: aqhi_category(x) }),
                    ..c
                }
            } else {
                c
            }
        } else if occurs(line, "Wind Chill:"@, false) {
            match first_tenths(v) {
                Some(t) => CurrentView { wind_chill: Some(t), ..c },
                None => c,
            }
        } else if occurs(line, "Humidex:"@, false) {
            match first_tenths(v) {
                Some(t) => CurrentView { humidex: Some(t), ..c },
                None => c,
            }
        } else if occurs(line, "Sunrise:"@, false) {
            CurrentView { sunrise: Some(v), ..c }
        } else if occurs(line, "Sunset:"@, false) {
            CurrentView { sunset: Some(v), ..c }
        } else {
            c
        },
    }
}

/// The lines, applied in order.
pub open spec fn lines_update(c: CurrentView, lines: Seq<Seq<char>>) -> CurrentView
    decreases lines.len(),
{
    if lines.len() == 0 {
        c
    } else {
        line_update(lines_update(c, lines.drop_last()), lines.last())
    }
}

/// Everything a current-conditions entry sets: its title first, then each "<br/>" line of its
/// summary.
pub open spec fn conditions_update(c: CurrentView, title: Seq<char>, summary: Seq<char>) -> CurrentView {
    lines_update(title_update(c, title), pieces(summary, "<br/>"@))
}

fn apply_title(title: &str, current: &mut CurrentConditions)
    ensures
        final(current)@ == title_update(old(current)@, title@),
{
    proof {
        reveal_strlit(":");
        reveal_strlit(",");
    }
    let t = chars_of(title);
    let n = t.len();
    let i = match find_in(&t, ":", false) {
        Some(i) => i,
        None => return ,
    };
    let after = slice_of(&t, i + 1, n);
    assert(after@ =~= t@.skip(i + 1));
    let part = cut(&after, ":");
    let m = part.len();
    let j = match find_in(&part, ",", false) {
        Some(j) => j,
        None => return ,
    };
    let first = slice_of(&part, 0, j);
    assert(first@ =~= part@.take(j as int));
    let second = slice_of(&part, j + 1, m);
    assert(second@ =~= part@.skip(j + 1));
    let cond = trim(&first, Keep::Visible);
    let t2 = trim(&cut(&second, ","), Keep::Visible);
    let k = "°C".unicode_len();
    let temperature = if k <= t2.len() && matches_here(&t2, t2.len() - k, "°C", false) {
        let num = slice_of(&t2, 0, t2.len() - k);
        assert(num@ =~= t2@.take(t2@.len() - "°C"@.len()));
        match tenths(&trim(&num, Keep::Visible)) {
            Some(v) => v,
            None => 0,
        }
    } else {
        current.temperature
    };
    let condition = string_of(&cond);
    current.icon = get_weather_icon(condition.as_str());
    current.condition = condition;
    current.temperature = temperature;
}

fn first_word_tenths(v: &Vec<char>) -> (r: Option<i32>)
    ensures
        r == first_tenths(v@),
{
    let ws = split_words(v, 0);
    assert(v@.skip(0) =~= v@);
    if ws.len() > 0 {
        assert(views(ws@)[0] == ws@[0]@);
        tenths(&ws[0])
    } else {
        None
    }
}

fn apply_line(raw: &Vec<char>, current: &mut CurrentConditions)
    ensures
        final(current)@ == line_update(old(current)@, raw@),
{
    let line = trim(raw, Keep::Visible);
    let n = line.len();
    let i = match find_in(&line, "</b>", false) {
        Some(i) => i,
        None => return ,
    };
    let after = slice_of(&line, i + "</b>".unicode_len(), n);
    assert(after@ =~= line@.skip(i + "</b>"@.len()));
    let v = trim(&cut(&after, "</b>"), Keep::Visible);
    if contains_in(&line, "Temperature:", false) {
        if let Some(t) = tenths(&trim(&cut(&v, "&deg;C"), Keep::Visible)) {
            current.temperature = t;
        }
    } else if contains_in(&line, "Humidity:", false) {
        if let Some(h) = parse_u32(&trim(&cut(&v, "%"), Keep::Visible)) {
            current.humidity = Some(h);
        }
    } else if contains_in(&line, "Pressure", false) {
        if let Some(p) = first_word_tenths(&v) {
            current.pressure = Some(p);
        }
    } else if contains_in(&line, "Visibility:", false) {
        if let Some(p) = first_word_tenths(&v) {
            current.visibility = Some(p);
        }
    } else if contains_in(&line, "Dewpoint:", false) {
        if let Some(t) = tenths(&trim(&cut(&v, "&deg;C"), Keep::Visible)) {
            current.dewpoint = Some(t);
        }
    } else if contains_in(&line, "Wind:", false) {
        let ws = split_words(&v, 0);
        assert(v@.skip(0) =~= v@);
        if ws.len() >= 3 {
            assert(views(ws@)[0] == ws@[0]@);
            assert(views(ws@)[1] == ws@[1]@);
            current.wind_direction = Some(string_of(&ws[0]));
            current.wind_speed = parse_u32(&ws[1]);
        }
    } else if contains_in(&line, "Air Quality Health Index:", false) {
        let ws = split_words(&v, 0);
        assert(v@.skip(0) =~= v@);
        if ws.len() > 0 {
            assert(views(ws@)[0] == ws@[0]@);
            if let Some(x) = parse_u32(&ws[0]) {
                current.air_quality = Some(air_quality_of(x));
            }
        }
    } else if contains_in(&line, "Wind Chill:", false) {
        if let Some(t) = first_word_tenths(&v) {
            current.wind_chill = Some(t);
        }
    } else if contains_in(&line, "Humidex:", false) {
        if let Some(t) = first_word_tenths(&v) {
            current.humidex = Some(t);
        }
    } else if contains_in(&line, "Sunrise:", false) {
        current.sunrise = Some(string_of(&v));
    } else if contains_in(&line, "Sunset:", false) {
        current.sunset = Some(string_of(&v));
    }
}

/// Reads a current-conditions entry into `current`: the title gives the condition, its icon
/// and the temperature; each labelled line of the summary gives one reading. A label that is
/// missing, or whose value cannot be read, leaves its field as it was.
pub fn parse_current_conditions(title: &str, summary: &str, current: &mut CurrentConditions)
    ensures
        final(current)@ == conditions_update(old(current)@, title@, summary@),
{
    apply_title(title, current);
    let s = chars_of(summary);
    proof {
        reveal_strlit("<br/>");
    }
    let lines = split_on(&s, "<br/>");
    let ghost ls = views(lines@);
    let ghost start = current@;
    let n = lines.len();
    let mut i: usize = 0;
    while i < n
        invariant
            n == lines@.len(),
            ls == views(lines@),
            ls == pieces(summary@, "<br/>"@),
            i <= n,
            current@ == lines_update(start, ls.take(i as int)),
        decreases n - i,
    {
        assert(ls.take(i + 1).drop_last() =~= ls.take(i as int));
        assert(ls.take(i + 1).last() == lines@[i as int]@);
        apply_line(&lines[i], current);
        i = i + 1;
    }
    assert(ls.take(n as int) =~= ls);
}

/// Whether every reading that a label stands for is the same in two conditions.
pub open spec fn readings_kept(a: CurrentView, b: CurrentView, lines: Seq<Seq<char>>) -> bool {
    &&& (!mentioned(lines, "Humidity:"@) ==> a.humidity == b.humidity)
    &&& (!mentioned(lines, "Pressure"@) ==> a.pressure == b.pressure)
    &&& (!mentioned(lines, "Visibility:"@) ==> a.visibility == b.visibility)
    &&& (!mentioned(lines, "Dewpoint:"@) ==> a.dewpoint == b.dewpoint)
    &&& (!mentioned(lines, "Wind:"@) ==> a.wind_speed == b.wind_speed && a.wind_direction
        == b.wind_direction)
    &&& (!mentioned(lines, "Air Quality Health Index:"@) ==> a.air_quality == b.air_quality)
    &&& (!mentioned(lines, "Wind Chill:"@) ==> a.wind_chill == b.wind_chill)
    &&& (!mentioned(lines, "Humidex:"@) ==> a.humidex == b.humidex)
    &&& (!mentioned(lines, "Sunrise:"@) ==> a.sunrise == b.sunrise)
    &&& (!mentioned(lines, "Sunset:"@) ==> a.sunset == b.sunset)
}

/// Some line, trimmed, holds `k`.
pub open spec fn mentioned(lines: Seq<Seq<char>>, k: Seq<char>) -> bool {
    exists|i: int| 0 <= i < lines.len() && occurs(trimmed(lines[i], Keep::Visible), k, false)
}

proof fn lemma_lines_keep(c: CurrentView, lines: Seq<Seq<char>>)
    ensures
        readings_kept(c, lines_update(c, lines), lines),
    decreases lines.len(),
{
    if lines.len() > 0 {
        let init = lines.drop_last();
        lemma_lines_keep(c, init);
        assert forall|k: Seq<char>| mentioned(init, k) implies mentioned(lines, k) by {
            let i = choose|i: int| 0 <= i < init.len() && occurs(
                trimmed(init[i], Keep::Visible),
                k,
                false,
            );
            assert(init[i] == lines[i]);
        }
        assert forall|k: Seq<char>| #[trigger]
            occurs(trimmed(lines.last(), Keep::Visible), k, false) implies mentioned(lines, k) by {
            assert(lines.last() == lines[lines.len() - 1]);
        }
    }
}

/// Each reading whose label `summary` never names is the same in `a` and `b`.
pub open spec fn unnamed_kept(a: CurrentView, b: CurrentView, summary: Seq<char>) -> bool {
    &&& (!occurs(summary, "Humidity:"@, false) ==> a.humidity == b.humidity)
    &&& (!occurs(summary, "Pressure"@, false) ==> a.pressure == b.pressure)
    &&& (!occurs(summary, "Visibility:"@, false) ==> a.visibility == b.visibility)
    &&& (!occurs(summary, "Dewpoint:"@, false) ==> a.dewpoint == b.dewpoint)
    &&& (!occurs(summary, "Wind:"@, false) ==> a.wind_speed == b.wind_speed && a.wind_direction
        == b.wind_direction)
    &&& (!occurs(summary, "Air Quality Health Index:"@, false) ==> a.air_quality
        == b.air_quality)
    &&& (!occurs(summary, "Wind Chill:"@, false) ==> a.wind_chill == b.wind_chill)
    &&& (!occurs(summary, "Humidex:"@, false) ==> a.humidex == b.humidex)
    &&& (!occurs(summary, "Sunrise:"@, false) ==> a.sunrise == b.sunrise)
    &&& (!occurs(summary, "Sunset:"@, false) ==> a.sunset == b.sunset)
}

/// A summary that never names a label leaves that label's reading as it was: a reading that
/// the feed does not give stays absent, while the rest of the entry is still read.
pub proof fn lemma_missing_label_kept(c: CurrentView, title: Seq<char>, summary: Seq<char>)
    ensures
        unnamed_kept(c, conditions_update(c, title, summary), summary),
{
    let t = title_update(c, title);
    let lines = pieces(summary, "<br/>"@);
    lemma_lines_keep(t, lines);
    assert forall|k: Seq<char>| #[trigger] mentioned(lines, k) implies occurs(summary, k, false) by {
        let i = choose|i: int| 0 <= i < lines.len() && occurs(
            trimmed(lines[i], Keep::Visible),
            k,
            false,
        );
        lemma_occurs_trimmed(lines[i], Keep::Visible, k, false);
        lemma_occurs_piece(summary, "<br/>"@, i, k, false);
    }
}

} // verus!
