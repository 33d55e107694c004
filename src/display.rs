//! Display text for forecasts and conditions, and lookups on a weather record.
use vstd::prelude::*;
use crate::model::{
    day_views, opt_view, warning_views, CurrentConditions, DailyForecast, DayView, WarningView,
    WeatherData,
};
use crate::text::{same_text, string_of};

verus! {

pub open spec fn digit_char(d: nat) -> char {
    if d == 0 {
        '0'
    } else if d == 1 {
        '1'
    } else if d == 2 {
        '2'
    } else if d == 3 {
        '3'
    } else if d == 4 {
        '4'
    } else if d == 5 {
        '5'
    } else if d == 6 {
        '6'
    } else if d == 7 {
        '7'
    } else if d == 8 {
        '8'
    } else {
        '9'
    }
}

/// The decimal digits of `n`, without leading zeros.
pub open spec fn digits_of(n: nat) -> Seq<char>
    decreases n,
{
    if n < 10 {
        seq![digit_char(n)]
    } else {
        digits_of(n / 10).push(digit_char(n % 10))
    }
}

/// An integer in decimal, with a minus sign where it is negative.
pub open spec fn int_text(v: int) -> Seq<char> {
    if v < 0 {
        seq!['-'] + digits_of((-v) as nat)
    } else {
        digits_of(v as nat)
    }
}

fn digit(d: u64) -> (c: char)
    requires
        d < 10,
    ensures
        c == digit_char(d as nat),
{
    if d == 0 {
        '0'
    } else if d == 1 {
        '1'
    } else if d == 2 {
        '2'
    } else if d == 3 {
        '3'
    } else if d == 4 {
        '4'
    } else if d == 5 {
        '5'
    } else if d == 6 {
        '6'
    } else if d == 7 {
        '7'
    } else if d == 8 {
        '8'
    } else {
        '9'
    }
}

fn push_digits(n: u64, out: &mut Vec<char>)
    ensures
        final(out)@ == old(out)@ + digits_of(n as nat),
    decreases n,
{
    if n >= 10 {
        push_digits(n / 10, out);
    }
    out.push(digit(n % 10));
    assert(out@ =~= old(out)@ + digits_of(n as nat));
}

/// An integer in decimal.
pub fn int_to_text(v: i64) -> (r: String)
    ensures
        r@ == int_text(v as int),
{
    let mut out: Vec<char> = Vec::new();
    if v < 0 {
        out.push('-');
        let m: u64 = if v == i64::MIN {
            0x8000_0000_0000_0000
        } else {
            (-v) as u64
        };
        push_digits(m, &mut out);
    } else {
        push_digits(v as u64, &mut out);
    }
    string_of(&out)
}

/// A reading in tenths as a decimal with one place: 104 is "10.4", -5 is "-0.5".
pub open spec fn tenths_display(v: int) -> Seq<char> {
    let m = if v < 0 {
        -v
    } else {
        v
    };
    (if v < 0 {
        seq!['-']
    } else {
        seq![]
    }) + digits_of((m / 10) as nat) + seq!['.', digit_char((m % 10) as nat)]
}

/// A reading in tenths as a decimal with one place.
pub fn tenths_text(v: i32) -> (r: String)
    ensures
        r@ == tenths_display(v as int),
{
    let m: u64 = if v < 0 {
        (-(v as i64)) as u64
    } else {
        v as u64
    };
    let mut out: Vec<char> = Vec::new();
    if v < 0 {
        out.push('-');
    }
    push_digits(m / 10, &mut out);
    out.push('.');
    out.push(digit(m % 10));
    assert(out@ =~= tenths_display(v as int));
    string_of(&out)
}

/// The warning a collection day gets when rain is likely: "⚠️ 60% rain" above 50%.
pub open spec fn rain_warning_text(pop: Option<u32>) -> Option<Seq<char>> {
    match pop {
        Some(p) => if p > 50 {
            Some("⚠️ "@ + int_text(p as int) + "% rain"@)
        } else {
            None
        },
        None => None,
    }
}

/// The rain warning for a day's probability of precipitation, if it calls for one.
pub fn rain_warning(pop: Option<u32>) -> (r: Option<String>)
    ensures
        opt_view(r) == rain_warning_text(pop),
{
    match pop {
        Some(p) => if p > 50 {
            Some(String::from_str("⚠️ ").concat(int_to_text(p as i64).as_str()).concat("% rain"))
        } else {
            None
        },
        None => None,
    }
}

/// A reading that may be missing: its decimal text, or "N/A".
pub open spec fn reading_text(v: Option<int>) -> Seq<char> {
    match v {
        Some(x) => int_text(x),
        None => "N/A"@,
    }
}

pub open spec fn opt_int(v: Option<i32>) -> Option<int> {
    match v {
        Some(x) => Some(x as int),
        None => None,
    }
}

/// "12 - 6 ºC": the high, the low, each "N/A" where missing.
pub open spec fn range_text(high: Option<i32>, low: Option<i32>) -> Seq<char> {
    reading_text(opt_int(high)) + " - "@ + reading_text(opt_int(low)) + " ºC"@
}

/// "POP 30%", or "POP N/A" where no probability is given.
pub open spec fn pop_display(pop: Option<u32>) -> Seq<char> {
    match pop {
        Some(p) => "POP "@ + int_text(p as int) + "%"@,
        None => "POP "@ + "N/A"@,
    }
}

fn reading(v: Option<i32>) -> (r: String)
    ensures
        r@ == reading_text(opt_int(v)),
{
    match v {
        Some(x) => int_to_text(x as i64),
        None => String::from_str("N/A"),
    }
}

/// "12 - 6 ºC" for a high of 12 and a low of 6; a missing reading shows as "N/A".
pub fn temperature_range_text(high: Option<i32>, low: Option<i32>) -> (r: String)
    ensures
        r@ == range_text(high, low),
{
    reading(high).concat(" - ").concat(reading(low).as_str()).concat(" ºC")
}

/// "POP 30%" for a probability of 30; "POP N/A" where none is given.
pub fn pop_text(pop: Option<u32>) -> (r: String)
    ensures
        r@ == pop_display(pop),
{
    match pop {
        Some(p) => String::from_str("POP ").concat(int_to_text(p as i64).as_str()).concat("%"),
        None => String::from_str("POP ").concat("N/A"),
    }
}

impl DailyForecast {
    /// The day's high and low as a card shows them.
    pub fn temperature_text(&self) -> (r: String)
        ensures
            r@ == range_text(self.high, self.low),
    {
        temperature_range_text(self.high, self.low)
    }

    /// The day's probability of precipitation as a card shows it.
    pub fn pop_text(&self) -> (r: String)
        ensures
            r@ == pop_display(self.pop),
    {
        pop_text(self.pop)
    }
}

/// "WSW 17 km/h", "WSW", "17 km/h" or "Calm", by what is known of the wind.
pub open spec fn wind_text(direction: Option<Seq<char>>, speed: Option<u32>) -> Seq<char> {
    match (direction, speed) {
        (Some(d), Some(s)) => d + " "@ + int_text(s as int) + " km/h"@,
        (Some(d), None) => d,
        (None, Some(s)) => int_text(s as int) + " km/h"@,
        (None, None) => "Calm"@,
    }
}

impl CurrentConditions {
    /// The wind as a line of text.
    pub fn wind_description(&self) -> (r: String)
        ensures
            r@ == wind_text(opt_view(self.wind_direction), self.wind_speed),
    {
        match (&self.wind_direction, self.wind_speed) {
            (Some(d), Some(s)) => d.clone().concat(" ").concat(int_to_text(s as i64).as_str()).concat(
                " km/h",
            ),
            (Some(d), None) => d.clone(),
            (None, Some(s)) => int_to_text(s as i64).concat(" km/h"),
            (None, None) => String::from_str("Calm"),
        }
    }
}

/// Two characters equal but for ASCII case.
pub open spec fn same_ignoring_case(a: char, b: char) -> bool {
    a == b || ('A' <= a && a <= 'Z' && (a as u32) + 32 == (b as u32)) || ('A' <= b && b <= 'Z'
        && (b as u32) + 32 == (a as u32))
}

/// Two names equal but for ASCII case.
pub open spec fn same_name(a: Seq<char>, b: Seq<char>) -> bool {
    a.len() == b.len() && forall|i: int| 0 <= i < a.len() ==> same_ignoring_case(a[i], b[i])
}

fn names_equal(a: &str, b: &str) -> (r: bool)
    ensures
        r == same_name(a@, b@),
{
    let n = a.unicode_len();
    if n != b.unicode_len() {
        return false;
    }
    let mut i: usize = 0;
    while i < n
        invariant
            n == a@.len(),
            n == b@.len(),
            i <= n,
            forall|j: int| 0 <= j < i ==> same_ignoring_case(a@[j], b@[j]),
        decreases n - i,
    {
        let x = a.get_char(i);
        let y = b.get_char(i);
        let same = x == y || ('A' <= x && x <= 'Z' && (x as u32) + 32 == (y as u32)) || ('A' <= y
            && y <= 'Z' && (y as u32) + 32 == (x as u32));
        if !same {
            return false;
        }
        i = i + 1;
    }
    true
}

/// The first day from index `i` on whose name is `name`, but for ASCII case.
pub open spec fn day_index(days: Seq<DayView>, name: Seq<char>, i: int) -> Option<int>
    decreases days.len() - i,
{
    if i < 0 || i >= days.len() {
        None
    } else if same_name(days[i].day_name, name) {
        Some(i)
    } else {
        day_index(days, name, i + 1)
    }
}

/// A warning is severe when its priority is "high".
pub open spec fn any_severe(ws: Seq<WarningView>) -> bool {
    exists|i: int| 0 <= i < ws.len() && ws[i].priority == "high"@
}

impl WeatherData {
    /// The forecast for a day name ("Monday"), compared without regard to ASCII case.
    pub fn get_forecast_for_day(&self, day_name: &str) -> (r: Option<&DailyForecast>)
        ensures
            r matches Some(d) ==> day_index(day_views(self.daily@), day_name@, 0) matches Some(i)
                && d@ == day_views(self.daily@)[i],
            r is None ==> day_index(day_views(self.daily@), day_name@, 0) is None,
    {
        let ghost ds = day_views(self.daily@);
        let n = self.daily.len();
        let mut i: usize = 0;
        while i < n
            invariant
                n == self.daily@.len(),
                ds == day_views(self.daily@),
                i <= n,
                day_index(ds, day_name@, 0) == day_index(ds, day_name@, i as int),
            decreases n - i,
        {
            if names_equal(self.daily[i].day_name.as_str(), day_name) {
                return Some(&self.daily[i]);
            }
            i = i + 1;
        }
        None
    }

    /// Whether any warning has priority "high".
    pub fn has_severe_warnings(&self) -> (r: bool)
        ensures
            r == any_severe(warning_views(self.warnings@)),
    {
        let ghost ws = warning_views(self.warnings@);
        let n = self.warnings.len();
        let mut i: usize = 0;
        while i < n
            invariant
                n == self.warnings@.len(),
                ws == warning_views(self.warnings@),
                i <= n,
                forall|j: int| 0 <= j < i ==> ws[j].priority != "high"@,
            decreases n - i,
        {
            if same_text(self.warnings[i].priority.as_str(), "high") {
                assert(ws[i as int].priority == "high"@);
                return true;
            }
            i = i + 1;
        }
        false
    }
}

} // verus!
