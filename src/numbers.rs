//! Numbers read from forecast text: temperatures after a keyword, probabilities of
//! precipitation.
use vstd::prelude::*;
use crate::text::{
    all_digits, back_run, char_fits, chars_of, digit_val, digits_value, find_in, find_spec,
    first_at, is_digit, is_space, lemma_first_at, lemma_run_from, matches_at, min_nat, names,
    occurs, parse_u32, read_digits, run, run_end, same_letter, split_words, trim, trimmed, u32_of,
    views, word_names, words, Keep,
};

verus! {

/// The whole part of a decimal number: digits, then optionally a point and more digits.
pub open spec fn whole_part(w: Seq<char>) -> Option<nat> {
    let d = run(w, Keep::Digits, true);
    if d == 0 || d > w.len() {
        None
    } else if d == w.len() || (w[d as int] == '.' && all_digits(w.skip(d as int + 1))) {
        Some(digits_value(w.take(d as int)))
    } else {
        None
    }
}

/// A decimal number with an optional leading minus sign, truncated to its whole part.
pub open spec fn signed_whole(w: Seq<char>) -> Option<int> {
    if w.len() > 0 && w[0] == '-' {
        match whole_part(w.skip(1)) {
            Some(v) => Some(-v),
            None => None,
        }
    } else {
        match whole_part(w) {
            Some(v) => Some(v as int),
            None => None,
        }
    }
}

/// The nearest `i32` to `v`.
pub open spec fn clamp_i32(v: int) -> i32 {
    if v < i32::MIN {
        i32::MIN
    } else if v > i32::MAX {
        i32::MAX
    } else {
        v as i32
    }
}

pub open spec fn clamped(v: Option<int>) -> Option<i32> {
    match v {
        Some(x) => Some(clamp_i32(x)),
        None => None,
    }
}

/// The whole part of the number that `w` holds from `from` on, capped at 2^31.
fn read_whole(w: &Vec<char>, from: usize) -> (r: Option<u64>)
    requires
        from <= w@.len(),
    ensures
        r matches Some(v) ==> whole_part(w@.skip(from as int)) matches Some(x) && v as nat
            == min_nat(x, 0x8000_0000),
        r is None ==> whole_part(w@.skip(from as int)) is None,
{
    let n = w.len();
    let ghost t = w@.skip(from as int);
    let d = run_end(w, from, Keep::Digits, true);
    proof {
        lemma_run_from(w@, from as int, Keep::Digits, d - from);
    }
    if d == from {
        return None;
    }
    assert(t.take(d - from) =~= w@.subrange(from as int, d as int));
    assert(all_digits(w@.subrange(from as int, d as int)));
    if d < n {
        if w[d] != '.' {
            assert(t[d - from] == w@[d as int]);
            return None;
        }
        let e = run_end(w, d + 1, Keep::Digits, true);
        proof {
            lemma_run_from(w@, d + 1, Keep::Digits, e - d - 1);
            assert(t[d - from] == w@[d as int]);
            assert(t.skip(d - from + 1) =~= w@.skip(d + 1));
        }
        if e < n {
            assert(!is_digit(t.skip(d - from + 1)[e - d - 1]));
            return None;
        }
        assert(all_digits(t.skip(d - from + 1)));
    }
    Some(read_digits(w, from, d, 0x8000_0000))
}

/// The number in `w`, truncated to its whole part and held to the range of `i32`.
pub fn parse_whole(w: &Vec<char>) -> (r: Option<i32>)
    ensures
        r == clamped(signed_whole(w@)),
{
    assert(w@.skip(0) =~= w@);
    if w.len() > 0 && w[0] == '-' {
        match read_whole(w, 1) {
            Some(v) => Some(if v >= 0x8000_0000 {
                i32::MIN
            } else {
                -(v as i32)
            }),
            None => None,
        }
    } else {
        match read_whole(w, 0) {
            Some(v) => Some(if v > 0x7FFF_FFFF {
                i32::MAX
            } else {
                v as i32
            }),
            None => None,
        }
    }
}

/// Reading the words from index `i` on: "plus N" and "minus N" give N and -N, "zero" gives 0,
/// and any other word that holds a number gives that number; the first word that gives a
/// value decides.
pub open spec fn number_in(ws: Seq<Seq<char>>, i: int) -> Option<i32>
    decreases ws.len() - i,
{
    if i < 0 || i >= ws.len() {
        None
    } else {
        let w = ws[i];
        if names(w, "plus"@) || names(w, "minus"@) {
            let v = if i + 1 < ws.len() {
                whole_part(trimmed(ws[i + 1], Keep::Decimal))
            } else {
                None
            };
            match v {
                Some(x) => Some(
                    clamp_i32(
                        if names(w, "minus"@) {
                            -x
                        } else {
                            x as int
                        },
                    ),
                ),
                None => number_in(ws, i + 1),
            }
        } else if names(w, "zero"@) {
            Some(0)
        } else {
            match signed_whole(trimmed(w, Keep::Signed)) {
                Some(x) => Some(clamp_i32(x)),
                None => number_in(ws, i + 1),
            }
        }
    }
}

/// The number that follows the first occurrence of `keyword` in `t`, the keyword's letters
/// matching either case.
pub open spec fn number_after(t: Seq<char>, keyword: Seq<char>) -> Option<i32> {
    match find_spec(t, keyword, true) {
        Some(p) => number_in(words(t.skip(p + keyword.len())), 0),
        None => None,
    }
}

fn number_in_words(ws: &Vec<Vec<char>>) -> (r: Option<i32>)
    ensures
        r == number_in(views(ws@), 0),
{
    let ghost vs = views(ws@);
    let n = ws.len();
    let mut i: usize = 0;
    while i < n
        invariant
            n == ws@.len(),
            vs == views(ws@),
            i <= n,
            number_in(vs, 0) == number_in(vs, i as int),
        decreases n - i,
    {
        let w = &ws[i];
        assert(w@ == vs[i as int]);
        let plus = word_names(w, "plus");
        let minus = word_names(w, "minus");
        if plus || minus {
            if i + 1 < n {
                let next = &ws[i + 1];
                assert(next@ == vs[i + 1]);
                let tn = trim(next, Keep::Decimal);
                let ghost tv = tn@;
                assert(tn@.skip(0) =~= tn@);
                if let Some(x) = read_whole(&tn, 0) {
                    let mag: i32 = if x > 0x7FFF_FFFF {
                        i32::MAX
                    } else {
                        x as i32
                    };
                    return Some(
                        if minus {
                            if x >= 0x8000_0000 {
                                i32::MIN
                            } else {
                                -(x as i32)
                            }
                        } else {
                            mag
                        },
                    );
                }
            }
        } else if word_names(w, "zero") {
            return Some(0);
        } else {
            let tw = trim(w, Keep::Signed);
            if let Some(v) = parse_whole(&tw) {
                return Some(v);
            }
        }
        i = i + 1;
    }
    None
}

/// The temperature after `keyword` in a forecast title ("High minus 5." gives -5).
/// The keyword is given in lower case; the title may spell it in either case.
pub fn extract_number(text: &str, keyword: &str) -> (r: Option<i32>)
    ensures
        r == number_after(text@, keyword@),
{
    let t = chars_of(text);
    match find_in(&t, keyword, true) {
        None => None,
        Some(p) => {
            let after = p + keyword.unicode_len();
            let ws = split_words(&t, after);
            number_in_words(&ws)
        },
    }
}

/// The first word from index `i` on that, stripped of all but digits at its ends, is a number
/// that fits in `u32`.
pub open spec fn first_u32(ws: Seq<Seq<char>>, i: int) -> Option<u32>
    decreases ws.len() - i,
{
    if i < 0 || i >= ws.len() {
        None
    } else {
        match u32_of(trimmed(ws[i], Keep::Digits)) {
            Some(v) => Some(v),
            None => first_u32(ws, i + 1),
        }
    }
}

fn first_u32_in(ws: &Vec<Vec<char>>) -> (r: Option<u32>)
    ensures
        r == first_u32(views(ws@), 0),
{
    let ghost vs = views(ws@);
    let n = ws.len();
    let mut i: usize = 0;
    while i < n
        invariant
            n == ws@.len(),
            vs == views(ws@),
            i <= n,
            first_u32(vs, 0) == first_u32(vs, i as int),
        decreases n - i,
    {
        assert(ws[i as int]@ == vs[i as int]);
        let tw = trim(&ws[i], Keep::Digits);
        if let Some(v) = parse_u32(&tw) {
            return Some(v);
        }
        i = i + 1;
    }
    None
}

/// The probability of precipitation that a "POP NN%" in `t` states, if any.
pub open spec fn stated_pop(t: Seq<char>) -> Option<u32> {
    match find_spec(t, "POP"@, false) {
        Some(p) => first_u32(words(t.skip(p + "POP"@.len())), 0),
        None => None,
    }
}

/// The probability after "POP" in `text`, if one is stated.
pub fn find_pop(text: &str) -> (r: Option<u32>)
    ensures
        r == stated_pop(text@),
{
    let t = chars_of(text);
    match find_in(&t, "POP", false) {
        None => None,
        Some(p) => {
            let ws = split_words(&t, p + "POP".unicode_len());
            first_u32_in(&ws)
        },
    }
}

/// The probability of precipitation after "POP" in `text`, or 0 where there is none.
pub fn extract_pop(text: &str) -> (r: u32)
    ensures
        r == match stated_pop(text@) {
            Some(v) => v,
            None => 0,
        },
{
    match find_pop(text) {
        Some(v) => v,
        None => 0,
    }
}

/// The first number that stands as a word right before a word starting with "percent".
pub open spec fn percent_in(ws: Seq<Seq<char>>, i: int) -> Option<u32>
    decreases ws.len() - i,
{
    if i < 0 || i + 1 >= ws.len() {
        None
    } else if matches_at(ws[i + 1], 0, "percent"@, true) && u32_of(trimmed(ws[i], Keep::Digits))
        is Some {
        u32_of(trimmed(ws[i], Keep::Digits))
    } else {
        percent_in(ws, i + 1)
    }
}

/// The percentage that a forecast summary states in words ("40 percent chance of rain").
pub fn find_percent(text: &str) -> (r: Option<u32>)
    ensures
        r == percent_in(words(text@), 0),
{
    let t = chars_of(text);
    let ws = split_words(&t, 0);
    assert(t@.skip(0) =~= t@);
    let ghost vs = views(ws@);
    let n = ws.len();
    let mut i: usize = 0;
    while i < n && i + 1 < n
        invariant
            n == ws@.len(),
            vs == views(ws@),
            vs == words(text@),
            percent_in(vs, 0) == percent_in(vs, i as int),
        decreases n - i,
    {
        assert(ws[i as int + 1]@ == vs[i + 1]);
        assert(ws[i as int]@ == vs[i as int]);
        if crate::text::matches_here(&ws[i + 1], 0, "percent", true) {
            let tw = trim(&ws[i], Keep::Digits);
            let v = parse_u32(&tw);
            if v.is_some() {
                return v;
            }
        }
        i = i + 1;
    }
    None
}

/// A decimal number in tenths: "10.4" is 104, "-3" is -30; digits after the first decimal
/// are dropped. Numbers whose whole part reaches 2^27 are not read.
pub open spec fn tenths_unsigned(w: Seq<char>) -> Option<nat> {
    let d = run(w, Keep::Digits, true);
    if d == 0 || d > w.len() || digits_value(w.take(d as int)) >= 0x800_0000 {
        None
    } else if d == w.len() {
        Some(digits_value(w.take(d as int)) * 10)
    } else if w[d as int] == '.' && all_digits(w.skip(d as int + 1)) {
        Some(
            digits_value(w.take(d as int)) * 10 + if d + 1 < w.len() {
                digit_val(w[d as int + 1])
            } else {
                0
            },
        )
    } else {
        None
    }
}

pub open spec fn tenths_of(w: Seq<char>) -> Option<int> {
    if w.len() > 0 && w[0] == '-' {
        match tenths_unsigned(w.skip(1)) {
            Some(v) => Some(-v),
            None => None,
        }
    } else {
        match tenths_unsigned(w) {
            Some(v) => Some(v as int),
            None => None,
        }
    }
}

fn read_tenths(w: &Vec<char>, from: usize) -> (r: Option<u32>)
    requires
        from <= w@.len(),
    ensures
        r matches Some(v) ==> tenths_unsigned(w@.skip(from as int)) == Some(v as nat) && v
            < 0x5000_0010,
        r is None ==> tenths_unsigned(w@.skip(from as int)) is None,
{
    let n = w.len();
    let ghost t = w@.skip(from as int);
    let d = run_end(w, from, Keep::Digits, true);
    proof {
        lemma_run_from(w@, from as int, Keep::Digits, d - from);
    }
    if d == from {
        return None;
    }
    assert(t.take(d - from) =~= w@.subrange(from as int, d as int));
    assert(all_digits(w@.subrange(from as int, d as int)));
    let whole = read_digits(w, from, d, 0x800_0000);
    if whole >= 0x800_0000 {
        return None;
    }
    if d == n {
        return Some((whole * 10) as u32);
    }
    if w[d] != '.' {
        assert(t[d - from] == w@[d as int]);
        return None;
    }
    let e = run_end(w, d + 1, Keep::Digits, true);
    proof {
        lemma_run_from(w@, d + 1, Keep::Digits, e - d - 1);
        assert(t[d - from] == w@[d as int]);
        assert(t.skip(d - from + 1) =~= w@.skip(d + 1));
    }
    if e < n {
        assert(!is_digit(t.skip(d - from + 1)[e - d - 1]));
        return None;
    }
    assert(all_digits(t.skip(d - from + 1)));
    let frac: u64 = if d + 1 < n {
        assert(t[d - from + 1] == w@[d + 1]);
        assert(is_digit(w@[d + 1]));
        ((w[d + 1] as u32) - ('0' as u32)) as u64
    } else {
        0
    };
    Some((whole * 10 + frac) as u32)
}

/// Reads a decimal number in tenths.
pub fn parse_tenths(w: &Vec<char>) -> (r: Option<i32>)
    ensures
        r matches Some(v) ==> tenths_of(w@) == Some(v as int),
        r is None ==> tenths_of(w@) is None,
{
    assert(w@.skip(0) =~= w@);
    if w.len() > 0 && w[0] == '-' {
        match read_tenths(w, 1) {
            Some(v) => Some(-(v as i32)),
            None => None,
        }
    } else {
        match read_tenths(w, 0) {
            Some(v) => Some(v as i32),
            None => None,
        }
    }
}

/// A run of visible characters that ends where a space or the text ends.
proof fn lemma_visible_run(w: Seq<char>, rest: Seq<char>)
    requires
        forall|i: int| 0 <= i < w.len() ==> !is_space(#[trigger] w[i]),
        rest.len() == 0 || is_space(rest[0]),
    ensures
        run(w + rest, Keep::Visible, true) == w.len(),
    decreases w.len(),
{
    if w.len() == 0 {
        assert(seq![] + rest =~= rest);
    } else {
        assert((w + rest).drop_first() =~= w.drop_first() + rest);
        lemma_visible_run(w.drop_first(), rest);
    }
}

/// A word without spaces, then a space or the end, starts the word list.
proof fn lemma_words_front(w: Seq<char>, rest: Seq<char>)
    requires
        w.len() > 0,
        forall|i: int| 0 <= i < w.len() ==> !is_space(#[trigger] w[i]),
        rest.len() == 0 || is_space(rest[0]),
    ensures
        words(w + rest) == seq![w] + words(rest),
{
    lemma_visible_run(w, rest);
    assert((w + rest).take(w.len() as int) =~= w);
    assert((w + rest).skip(w.len() as int) =~= rest);
}

/// Where the text before ". High" does not spell "high", the keyword is found right there.
proof fn lemma_high_found(x: Seq<char>, y: Seq<char>, tail: Seq<char>)
    requires
        !occurs(x + ": "@ + y, "high"@, true),
    ensures
        find_spec(x + ": "@ + y + ". High"@ + tail, "high"@, true) == Some(
            (x.len() + y.len() + 4) as int,
        ),
{
    reveal_strlit(": ");
    reveal_strlit(". High");
    reveal_strlit("high");
    let pre = x + ": "@ + y;
    let t = pre + ". High"@ + tail;
    let q: int = pre.len() as int + 2;
    let k = "high"@;
    assert(k.len() == 4);
    assert forall|j: int| 0 <= j < 4 implies #[trigger] char_fits(t[q + j], k[j], true) by {
        assert(t[q + j] == ". High"@[2 + j]);
    }
    assert(matches_at(t, q, k, true));
    assert forall|j: int| 0 <= j < q implies !matches_at(t, j, k, true) by {
        if matches_at(t, j, k, true) {
            if j + 4 <= pre.len() {
                assert forall|m: int| 0 <= m < 4 implies #[trigger] char_fits(pre[j + m], k[m], true) by {
                    assert(char_fits(t[j + m], k[m], true));
                    assert(t[j + m] == pre[j + m]);
                }
                assert(matches_at(pre, j, k, true));
            } else if j <= pre.len() {
                let m = pre.len() - j;
                assert(char_fits(t[j + m], k[m], true));
                assert(t[pre.len() as int] == '.');
            } else {
                let m: int = 0;
                assert(char_fits(t[j + m], k[m], true));
                assert(t[j + m] == ' ');
            }
        }
    }
    assert(first_at(t, k, true, q));
    lemma_first_at(t, k, true, q);
}

/// The words after the keyword in "... High minus 5." are "minus" and "5.".
proof fn lemma_two_words(a: Seq<char>, b: Seq<char>)
    requires
        a.len() > 0,
        b.len() > 0,
        forall|i: int| 0 <= i < a.len() ==> !is_space(#[trigger] a[i]),
        forall|i: int| 0 <= i < b.len() ==> !is_space(#[trigger] b[i]),
    ensures
        words(seq![' '] + a + seq![' '] + b) == seq![a, b],
{
    let s = seq![' '] + a + seq![' '] + b;
    assert(s.drop_first() =~= a + (seq![' '] + b));
    lemma_words_front(a, seq![' '] + b);
    assert((seq![' '] + b).drop_first() =~= b);
    assert(b =~= b + Seq::<char>::empty());
    lemma_words_front(b, Seq::<char>::empty());
    assert(seq![a] + seq![b] =~= seq![a, b]);
}

proof fn lemma_five_point()
    ensures
        trimmed("5."@, Keep::Decimal) == "5."@,
        whole_part("5."@) == Some(5nat),
{
    reveal_strlit("5.");
    let w = "5."@;
    assert(w.drop_first() =~= seq!['.']);
    assert(seq!['.'].drop_first() =~= Seq::<char>::empty());
    assert(run(w, Keep::Decimal, false) == 0);
    assert(w.skip(0) =~= w);
    assert(w.drop_last() =~= seq!['5']);
    assert(back_run(w, Keep::Decimal) == 0);
    assert(w.take(2) =~= w);
    assert(run(seq!['.'], Keep::Digits, true) == 0);
    assert(run(w, Keep::Digits, true) == 1);
    assert(w.take(1) =~= seq!['5']);
    assert(seq!['5'].drop_last() =~= Seq::<char>::empty());
    assert(('5' as u32) - ('0' as u32) == 5);
    assert(digits_value(Seq::<char>::empty()) == 0);
    assert(seq!['5'].last() == '5');
    assert(digit_val('5') == 5);
    assert(digits_value(seq!['5']) == digits_value(seq!['5'].drop_last()) * 10 + digit_val('5'));
    assert(digits_value(seq!['5']) == 5);
    assert(w.skip(2) =~= Seq::<char>::empty());
}

proof fn lemma_spells(w: Seq<char>)
    ensures
        names(w, w),
{
    assert forall|j: int| 0 <= j < w.len() implies #[trigger] char_fits(w[j], w[j], true) by {}
}

/// "X: Y. High minus 5.": the high is -5, whatever X and Y are, as long as they do not
/// themselves spell "high".
pub proof fn lemma_high_minus(x: Seq<char>, y: Seq<char>)
    requires
        !occurs(x + ": "@ + y, "high"@, true),
    ensures
        number_after(x + ": "@ + y + ". High minus 5."@, "high"@) == Some(-5i32),
{
    reveal_strlit(". High minus 5.");
    reveal_strlit(". High");
    reveal_strlit(" minus 5.");
    reveal_strlit("minus");
    reveal_strlit("plus");
    reveal_strlit("high");
    reveal_strlit("5.");
    let tail = " minus 5."@;
    assert(". High minus 5."@ =~= ". High"@ + tail);
    let t = x + ": "@ + y + ". High minus 5."@;
    assert(t =~= x + ": "@ + y + ". High"@ + tail);
    lemma_high_found(x, y, tail);
    reveal_strlit(": ");
    let q: int = (x.len() + y.len() + 4) as int;
    assert(t.skip(q + 4) =~= tail);
    assert(tail =~= seq![' '] + "minus"@ + seq![' '] + "5."@);
    lemma_two_words("minus"@, "5."@);
    lemma_five_point();
    lemma_spells("minus"@);
}

/// "X: Y. High plus 5.": the high is 5.
pub proof fn lemma_high_plus(x: Seq<char>, y: Seq<char>)
    requires
        !occurs(x + ": "@ + y, "high"@, true),
    ensures
        number_after(x + ": "@ + y + ". High plus 5."@, "high"@) == Some(5i32),
{
    reveal_strlit(". High plus 5.");
    reveal_strlit(". High");
    reveal_strlit(" plus 5.");
    reveal_strlit("minus");
    reveal_strlit("plus");
    reveal_strlit("high");
    reveal_strlit("5.");
    let tail = " plus 5."@;
    assert(". High plus 5."@ =~= ". High"@ + tail);
    let t = x + ": "@ + y + ". High plus 5."@;
    assert(t =~= x + ": "@ + y + ". High"@ + tail);
    lemma_high_found(x, y, tail);
    reveal_strlit(": ");
    let q: int = (x.len() + y.len() + 4) as int;
    assert(t.skip(q + 4) =~= tail);
    assert(tail =~= seq![' '] + "plus"@ + seq![' '] + "5."@);
    lemma_two_words("plus"@, "5."@);
    lemma_five_point();
    lemma_spells("plus"@);
    assert(!same_letter('p', 'm'));
}

/// "X: Y. High zero.": the high is 0.
pub proof fn lemma_high_zero(x: Seq<char>, y: Seq<char>)
    requires
        !occurs(x + ": "@ + y, "high"@, true),
    ensures
        number_after(x + ": "@ + y + ". High zero."@, "high"@) == Some(0i32),
{
    reveal_strlit(". High zero.");
    reveal_strlit(". High");
    reveal_strlit(" zero.");
    reveal_strlit("zero.");
    reveal_strlit("zero");
    reveal_strlit("minus");
    reveal_strlit("plus");
    reveal_strlit("high");
    let tail = " zero."@;
    assert(". High zero."@ =~= ". High"@ + tail);
    let t = x + ": "@ + y + ". High zero."@;
    assert(t =~= x + ": "@ + y + ". High"@ + tail);
    lemma_high_found(x, y, tail);
    reveal_strlit(": ");
    let q: int = (x.len() + y.len() + 4) as int;
    assert(t.skip(q + 4) =~= tail);
    let w = "zero."@;
    assert(tail =~= seq![' '] + w);
    assert(tail.drop_first() =~= w);
    assert(w =~= w + Seq::<char>::empty());
    lemma_words_front(w, Seq::<char>::empty());
    assert(words(tail) =~= seq![w]);
    let m: int = 0;
    assert(!matches_at(w, 0, "plus"@, true)) by {
        if matches_at(w, 0, "plus"@, true) {
            assert(char_fits(w[0 + m], "plus"@[m], true));
        }
    }
    assert(!matches_at(w, 0, "minus"@, true)) by {
        if matches_at(w, 0, "minus"@, true) {
            assert(char_fits(w[0 + m], "minus"@[m], true));
        }
    }
    assert forall|j: int| 0 <= j < 4 implies #[trigger] char_fits(w[j], "zero"@[j], true) by {}
    assert(names(w, "zero"@));
}

} // verus!
