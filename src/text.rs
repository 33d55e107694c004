//! Character-level tools on text held as `Seq<char>` / `Vec<char>`.
use vstd::prelude::*;

verus! {

/// The characters of a string, one per element.
pub fn chars_of(s: &str) -> (r: Vec<char>)
    ensures
        r@ == s@,
{
    let n = s.unicode_len();
    let mut out: Vec<char> = Vec::new();
    let mut i: usize = 0;
    while i < n
        invariant
            n == s@.len(),
            i <= n,
            out@ == s@.subrange(0, i as int),
        decreases n - i,
    {
        out.push(s.get_char(i));
        i = i + 1;
        assert(out@ =~= s@.subrange(0, i as int));
    }
    assert(out@ =~= s@);
    out
}

/// `c` equals `k`, or `k` is an ASCII lower-case letter and `c` is its capital.
pub open spec fn same_letter(c: char, k: char) -> bool {
    c == k || ('a' <= k && k <= 'z' && (c as u32) + 32 == (k as u32))
}

/// Whether `c` is the pattern letter `k` in either case.
pub fn letter_eq(c: char, k: char) -> (r: bool)
    ensures
        r == same_letter(c, k),
{
    c == k || ('a' <= k && k <= 'z' && (c as u32) + 32 == (k as u32))
}

/// One character of text against one character of a pattern; with `fold` an ASCII capital
/// in the text matches the pattern's lower-case letter.
pub open spec fn char_fits(c: char, k: char, fold: bool) -> bool {
    if fold {
        same_letter(c, k)
    } else {
        c == k
    }
}

/// The pattern `k` stands in `s` from index `i` on.
pub open spec fn matches_at(s: Seq<char>, i: int, k: Seq<char>, fold: bool) -> bool {
    &&& 0 <= i
    &&& i + k.len() <= s.len()
    &&& forall|j: int| 0 <= j < k.len() ==> #[trigger] char_fits(s[i + j], k[j], fold)
}

pub open spec fn occurs(s: Seq<char>, k: Seq<char>, fold: bool) -> bool {
    exists|i: int| matches_at(s, i, k, fold)
}

/// `k` stands at `i` and at no earlier index.
pub open spec fn first_at(s: Seq<char>, k: Seq<char>, fold: bool, i: int) -> bool {
    &&& matches_at(s, i, k, fold)
    &&& forall|j: int| 0 <= j < i ==> !matches_at(s, j, k, fold)
}

/// Where `k` first stands in `s`, if anywhere.
pub open spec fn find_spec(s: Seq<char>, k: Seq<char>, fold: bool) -> Option<int> {
    if occurs(s, k, fold) {
        Some(choose|i: int| first_at(s, k, fold, i))
    } else {
        None
    }
}

/// A first occurrence exists as soon as any occurrence does, and there is only one.
pub proof fn lemma_first_at(s: Seq<char>, k: Seq<char>, fold: bool, i: int)
    requires
        first_at(s, k, fold, i),
    ensures
        find_spec(s, k, fold) == Some(i),
{
    assert(occurs(s, k, fold));
    let c = choose|c: int| first_at(s, k, fold, c);
    assert(first_at(s, k, fold, c));
    if c < i {
        assert(!matches_at(s, c, k, fold));
    } else if i < c {
        assert(!matches_at(s, i, k, fold));
    }
}

/// Whether `k` stands in `s` from index `i` on.
pub fn matches_here(s: &Vec<char>, i: usize, k: &str, fold: bool) -> (r: bool)
    ensures
        r == matches_at(s@, i as int, k@, fold),
{
    let m = k.unicode_len();
    if i > s.len() || m > s.len() - i {
        return false;
    }
    let mut j: usize = 0;
    while j < m
        invariant
            m == k@.len(),
            i + m <= s@.len(),
            s@.len() <= usize::MAX,
            j <= m,
            forall|t: int| 0 <= t < j ==> #[trigger] char_fits(s@[i + t], k@[t], fold),
        decreases m - j,
    {
        let c = s[i + j];
        let kc = k.get_char(j);
        let ok = if fold {
            letter_eq(c, kc)
        } else {
            c == kc
        };
        if !ok {
            assert(!char_fits(s@[i + j as int], k@[j as int], fold));
            return false;
        }
        j = j + 1;
    }
    true
}

/// Index of the first occurrence of `k` in `s`.
pub fn find_in(s: &Vec<char>, k: &str, fold: bool) -> (r: Option<usize>)
    ensures
        r matches Some(i) ==> find_spec(s@, k@, fold) == Some(i as int) && first_at(
            s@,
            k@,
            fold,
            i as int,
        ) && i + k@.len() <= s.len(),
        r is None ==> find_spec(s@, k@, fold) is None,
{
    let n = s.len();
    let mut i: usize = 0;
    loop
        invariant
            n == s@.len(),
            i <= n,
            forall|j: int| 0 <= j < i ==> !matches_at(s@, j, k@, fold),
        ensures
            forall|j: int| 0 <= j <= n ==> !matches_at(s@, j, k@, fold),
        decreases n - i,
    {
        if matches_here(s, i, k, fold) {
            proof {
                lemma_first_at(s@, k@, fold, i as int);
            }
            return Some(i);
        }
        if i == n {
            break;
        }
        i = i + 1;
    }
    assert(!occurs(s@, k@, fold));
    None
}

/// Whether `k` occurs in `s` at all.
pub fn contains_in(s: &Vec<char>, k: &str, fold: bool) -> (r: bool)
    ensures
        r == occurs(s@, k@, fold),
{
    match find_in(s, k, fold) {
        Some(_) => true,
        None => false,
    }
}

/// White space as Unicode's White_Space property has it (std's `char::is_whitespace`).
pub open spec fn is_space(c: char) -> bool {
    ('\t' <= c && c <= '\r') || c == ' ' || c == '\u{85}' || c == '\u{A0}' || c == '\u{1680}'
        || ('\u{2000}' <= c && c <= '\u{200A}') || c == '\u{2028}' || c == '\u{2029}' || c
        == '\u{202F}' || c == '\u{205F}' || c == '\u{3000}'
}

/// Whether `c` is white space.
pub fn space(c: char) -> (r: bool)
    ensures
        r == is_space(c),
{
    ('\t' <= c && c <= '\r') || c == ' ' || c == '\u{85}' || c == '\u{A0}' || c == '\u{1680}'
        || ('\u{2000}' <= c && c <= '\u{200A}') || c == '\u{2028}' || c == '\u{2029}' || c
        == '\u{202F}' || c == '\u{205F}' || c == '\u{3000}'
}

pub open spec fn is_digit(c: char) -> bool {
    '0' <= c && c <= '9'
}

/// Which characters a scan or a trim keeps.
#[derive(Clone, Copy, PartialEq, Eq, Debug)]
pub enum Keep {
    /// ASCII digits.
    Digits,
    /// ASCII digits and the decimal point.
    Decimal,
    /// ASCII digits, the decimal point and the minus sign.
    Signed,
    /// Everything but white space.
    Visible,
}

pub open spec fn kept(m: Keep, c: char) -> bool {
    match m {
        Keep::Digits => is_digit(c),
        Keep::Decimal => is_digit(c) || c == '.',
        Keep::Signed => is_digit(c) || c == '.' || c == '-',
        Keep::Visible => !is_space(c),
    }
}

/// Whether `m` keeps `c`.
pub fn keeps(m: Keep, c: char) -> (r: bool)
    ensures
        r == kept(m, c),
{
    let digit = '0' <= c && c <= '9';
    match m {
        Keep::Digits => digit,
        Keep::Decimal => digit || c == '.',
        Keep::Signed => digit || c == '.' || c == '-',
        Keep::Visible => !space(c),
    }
}

/// Length of the leading run of characters for which `kept(m, _) == want`.
pub open spec fn run(s: Seq<char>, m: Keep, want: bool) -> nat
    decreases s.len(),
{
    if s.len() == 0 || kept(m, s[0]) != want {
        0
    } else {
        1 + run(s.drop_first(), m, want)
    }
}

/// Length of the trailing run of characters that `m` does not keep.
pub open spec fn back_run(s: Seq<char>, m: Keep) -> nat
    decreases s.len(),
{
    if s.len() == 0 || kept(m, s.last()) {
        0
    } else {
        1 + back_run(s.drop_last(), m)
    }
}

/// `s` with the characters that `m` does not keep stripped from both ends.
pub open spec fn trimmed(s: Seq<char>, m: Keep) -> Seq<char> {
    let t = s.skip(run(s, m, false) as int);
    t.take(t.len() - back_run(t, m))
}

pub proof fn lemma_run_bound(s: Seq<char>, m: Keep, want: bool)
    ensures
        run(s, m, want) <= s.len(),
    decreases s.len(),
{
    if s.len() > 0 && kept(m, s[0]) == want {
        lemma_run_bound(s.drop_first(), m, want);
    }
}

pub proof fn lemma_back_run_bound(s: Seq<char>, m: Keep)
    ensures
        back_run(s, m) <= s.len(),
    decreases s.len(),
{
    if s.len() > 0 && !kept(m, s.last()) {
        lemma_back_run_bound(s.drop_last(), m);
    }
}

/// The end of the run that starts at `i`.
pub fn run_end(s: &Vec<char>, i: usize, m: Keep, want: bool) -> (j: usize)
    requires
        i <= s@.len(),
    ensures
        j == i + run(s@.skip(i as int), m, want),
        j <= s@.len(),
{
    let n = s.len();
    let mut j: usize = i;
    while j < n && keeps(m, s[j]) == want
        invariant
            n == s@.len(),
            i <= j <= n,
            run(s@.skip(i as int), m, want) == (j - i) + run(s@.skip(j as int), m, want),
        decreases n - j,
    {
        assert(s@.skip(j as int).drop_first() =~= s@.skip(j + 1));
        j = j + 1;
    }
    proof {
        if j == n {
            assert(s@.skip(j as int).len() == 0);
        }
    }
    j
}

/// The characters of `s` from `a` up to `b`.
pub fn slice_of(s: &Vec<char>, a: usize, b: usize) -> (r: Vec<char>)
    requires
        a <= b <= s@.len(),
    ensures
        r@ == s@.subrange(a as int, b as int),
{
    let mut out: Vec<char> = Vec::new();
    let mut i: usize = a;
    while i < b
        invariant
            a <= i <= b,
            b <= s@.len(),
            out@ == s@.subrange(a as int, i as int),
        decreases b - i,
    {
        out.push(s[i]);
        i = i + 1;
        assert(out@ =~= s@.subrange(a as int, i as int));
    }
    out
}

/// `s` with the characters that `m` does not keep stripped from both ends.
pub fn trim(s: &Vec<char>, m: Keep) -> (r: Vec<char>)
    ensures
        r@ == trimmed(s@, m),
{
    let n = s.len();
    let a = run_end(s, 0, m, false);
    assert(s@.skip(0) =~= s@);
    let mut b: usize = n;
    while b > a && !keeps(m, s[b - 1])
        invariant
            n == s@.len(),
            a <= b <= n,
            back_run(s@.skip(a as int), m) == (n - b) + back_run(s@.subrange(a as int, b as int), m),
        decreases b,
    {
        assert(s@.subrange(a as int, b as int).drop_last() =~= s@.subrange(a as int, b - 1));
        b = b - 1;
    }
    assert(s@.subrange(a as int, n as int) =~= s@.skip(a as int));
    let ghost t = s@.skip(a as int);
    assert(t.take(t.len() - back_run(t, m)) =~= s@.subrange(a as int, b as int));
    slice_of(s, a, b)
}

/// The white-space separated words of `s`, in order.
pub open spec fn words(s: Seq<char>) -> Seq<Seq<char>>
    decreases s.len(),
{
    if s.len() == 0 {
        seq![]
    } else if is_space(s[0]) {
        words(s.drop_first())
    } else {
        let w = run(s, Keep::Visible, true);
        if 0 < w <= s.len() {
            seq![s.take(w as int)] + words(s.skip(w as int))
        } else {
            seq![]
        }
    }
}

/// The texts held by a vector of character vectors.
pub open spec fn views(v: Seq<Vec<char>>) -> Seq<Seq<char>> {
    v.map_values(|w: Vec<char>| w@)
}

/// The words of `s` from index `from` on.
pub fn split_words(s: &Vec<char>, from: usize) -> (r: Vec<Vec<char>>)
    requires
        from <= s@.len(),
    ensures
        views(r@) == words(s@.skip(from as int)),
{
    let n = s.len();
    let mut out: Vec<Vec<char>> = Vec::new();
    let mut i: usize = from;
    while i < n
        invariant
            n == s@.len(),
            from <= i <= n,
            words(s@.skip(from as int)) == views(out@) + words(s@.skip(i as int)),
        decreases n - i,
    {
        let ghost rest = s@.skip(i as int);
        if !keeps(Keep::Visible, s[i]) {
            assert(rest.drop_first() =~= s@.skip(i + 1));
            i = i + 1;
        } else {
            let j = run_end(s, i, Keep::Visible, true);
            proof {
                lemma_run_bound(rest, Keep::Visible, true);
                assert(rest.take(j - i) =~= s@.subrange(i as int, j as int));
                assert(rest.skip(j - i) =~= s@.skip(j as int));
            }
            let w = slice_of(s, i, j);
            let ghost before = views(out@);
            out.push(w);
            assert(views(out@) =~= before.push(w@));
            assert(words(rest) == seq![w@] + words(s@.skip(j as int)));
            assert(before + words(rest) =~= views(out@) + words(s@.skip(j as int)));
            i = j;
        }
    }
    assert(s@.skip(i as int).len() == 0);
    assert(views(out@) + seq![] =~= views(out@));
    out
}

pub open spec fn digit_val(c: char) -> nat {
    ((c as u32) - ('0' as u32)) as nat
}

/// The value of a string of decimal digits.
pub open spec fn digits_value(s: Seq<char>) -> nat
    decreases s.len(),
{
    if s.len() == 0 {
        0
    } else {
        digits_value(s.drop_last()) * 10 + digit_val(s.last())
    }
}

pub open spec fn all_digits(s: Seq<char>) -> bool {
    forall|i: int| 0 <= i < s.len() ==> is_digit(#[trigger] s[i])
}

pub open spec fn min_nat(a: nat, b: nat) -> nat {
    if a <= b {
        a
    } else {
        b
    }
}

proof fn lemma_digits_grow(s: Seq<char>)
    requires
        s.len() > 0,
    ensures
        digits_value(s) >= digits_value(s.drop_last()),
{
}

/// The value of the digits from `a` up to `b`, or `cap` where that value reaches `cap`.
pub fn read_digits(s: &Vec<char>, a: usize, b: usize, cap: u64) -> (r: u64)
    requires
        a <= b <= s@.len(),
        all_digits(s@.subrange(a as int, b as int)),
        0 < cap <= 0x100_0000_0000,
    ensures
        r as nat == min_nat(digits_value(s@.subrange(a as int, b as int)), cap as nat),
{
    let mut acc: u64 = 0;
    let mut i: usize = a;
    assert(s@.subrange(a as int, a as int).len() == 0);
    while i < b
        invariant
            a <= i <= b,
            b <= s@.len(),
            0 < cap <= 0x100_0000_0000,
            all_digits(s@.subrange(a as int, b as int)),
            acc as nat == min_nat(digits_value(s@.subrange(a as int, i as int)), cap as nat),
        decreases b - i,
    {
        let ghost prev = s@.subrange(a as int, i as int);
        let ghost next = s@.subrange(a as int, i + 1);
        assert(next.drop_last() =~= prev);
        assert(next.last() == s@[i as int]);
        assert(is_digit(s@.subrange(a as int, b as int)[i - a]));
        let d = ((s[i] as u32) - ('0' as u32)) as u64;
        if acc < cap {
            let v = acc * 10 + d;
            acc = if v < cap {
                v
            } else {
                cap
            };
        } else {
            proof {
                lemma_digits_grow(next);
            }
        }
        i = i + 1;
    }
    acc
}

/// A non-empty run of digits whose value fits in `u32`.
pub open spec fn u32_of(w: Seq<char>) -> Option<u32> {
    if w.len() > 0 && all_digits(w) && digits_value(w) <= u32::MAX {
        Some(digits_value(w) as u32)
    } else {
        None
    }
}

/// Reads a run of decimal digits that fits in `u32`.
pub fn parse_u32(w: &Vec<char>) -> (r: Option<u32>)
    ensures
        r == u32_of(w@),
{
    let n = w.len();
    if n == 0 {
        return None;
    }
    let e = run_end(w, 0, Keep::Digits, true);
    if e < n {
        proof {
            lemma_run_all(w@, Keep::Digits, e as int);
        }
        return None;
    }
    proof {
        lemma_run_all(w@, Keep::Digits, e as int);
        assert(w@.subrange(0, n as int) =~= w@);
    }
    let v = read_digits(w, 0, n, 0x1_0000_0000);
    if v <= 0xFFFF_FFFF {
        Some(v as u32)
    } else {
        None
    }
}

/// Every character of the leading run of kept characters is kept, and the one after it, if
/// any, is not.
pub proof fn lemma_run_all(s: Seq<char>, m: Keep, e: int)
    requires
        e == run(s.skip(0), m, true),
    ensures
        e <= s.len(),
        forall|i: int| 0 <= i < e ==> kept(m, #[trigger] s[i]),
        e < s.len() ==> !kept(m, s[e]),
    decreases s.len(),
{
    assert(s.skip(0) =~= s);
    lemma_run_bound(s, m, true);
    if s.len() > 0 && kept(m, s[0]) {
        let t = s.drop_first();
        assert(t.skip(0) =~= t);
        lemma_run_all(t, m, e - 1);
        assert forall|i: int| 0 <= i < e implies kept(m, #[trigger] s[i]) by {
            if i > 0 {
                assert(s[i] == t[i - 1]);
            }
        }
        if e < s.len() {
            assert(s[e] == t[e - 1]);
        }
    }
}

/// `lemma_run_all` for a run that starts at `i`.
pub proof fn lemma_run_from(s: Seq<char>, i: int, m: Keep, e: int)
    requires
        0 <= i <= s.len(),
        e == run(s.skip(i), m, true),
    ensures
        i + e <= s.len(),
        forall|k: int| i <= k < i + e ==> kept(m, #[trigger] s[k]),
        i + e < s.len() ==> !kept(m, s[i + e]),
{
    let t = s.skip(i);
    assert(t.skip(0) =~= t);
    lemma_run_all(t, m, e);
    assert forall|k: int| i <= k < i + e implies kept(m, #[trigger] s[k]) by {
        assert(s[k] == t[k - i]);
    }
    if i + e < s.len() {
        assert(s[i + e] == t[e]);
    }
}

/// `w` is the word `k`, ASCII capitals in `w` standing for `k`'s lower-case letters.
pub open spec fn is_word(w: Seq<char>, k: Seq<char>) -> bool {
    w.len() == k.len() && matches_at(w, 0, k, true)
}

/// Whether `w` is the word `k`, in either case.
pub fn word_is(w: &Vec<char>, k: &str) -> (r: bool)
    ensures
        r == is_word(w@, k@),
{
    w.len() == k.unicode_len() && matches_here(w, 0, k, true)
}

pub open spec fn is_letter(c: char) -> bool {
    ('a' <= c && c <= 'z') || ('A' <= c && c <= 'Z')
}

/// `w` spells `k` (ASCII capitals standing for `k`'s lower-case letters), possibly followed by
/// punctuation or digits but by no further letter.
pub open spec fn names(w: Seq<char>, k: Seq<char>) -> bool {
    &&& matches_at(w, 0, k, true)
    &&& (w.len() == k.len() || !is_letter(w[k.len() as int]))
}

/// Whether `w` spells `k`, in either case, with no letter after it.
pub fn word_names(w: &Vec<char>, k: &str) -> (r: bool)
    ensures
        r == names(w@, k@),
{
    if !matches_here(w, 0, k, true) {
        return false;
    }
    let m = k.unicode_len();
    if w.len() == m {
        true
    } else {
        let c = w[m];
        !(('a' <= c && c <= 'z') || ('A' <= c && c <= 'Z'))
    }
}

/// Relies on std's `String: FromIterator<&char>`: the string holds the characters in order.
#[verifier::external_body]
pub(crate) fn string_of(cs: &Vec<char>) -> (r: String)
    ensures
        r@ == cs@,
{
    cs.iter().collect()
}

/// `s` up to the first occurrence of `k`, or all of `s` where `k` does not occur.
pub open spec fn cut_at(s: Seq<char>, k: Seq<char>) -> Seq<char> {
    match find_spec(s, k, false) {
        Some(i) => s.take(i),
        None => s,
    }
}

/// `s` up to the first occurrence of `k`.
pub fn cut(s: &Vec<char>, k: &str) -> (r: Vec<char>)
    ensures
        r@ == cut_at(s@, k@),
{
    let n = s.len();
    match find_in(s, k, false) {
        Some(i) => {
            let r = slice_of(s, 0, i);
            assert(r@ =~= s@.take(i as int));
            r
        },
        None => {
            let r = slice_of(s, 0, n);
            assert(r@ =~= s@);
            r
        },
    }
}

/// The pieces of `s` between occurrences of `sep`, in order.
pub open spec fn pieces(s: Seq<char>, sep: Seq<char>) -> Seq<Seq<char>>
    decreases s.len(),
{
    match find_spec(s, sep, false) {
        Some(i) => if sep.len() > 0 && 0 <= i && i + sep.len() <= s.len() {
            seq![s.take(i)] + pieces(s.skip(i + sep.len()), sep)
        } else {
            seq![s]
        },
        None => seq![s],
    }
}

/// The pieces of `s` between occurrences of `sep`.
pub fn split_on(s: &Vec<char>, sep: &str) -> (r: Vec<Vec<char>>)
    requires
        sep@.len() > 0,
    ensures
        views(r@) == pieces(s@, sep@),
{
    let m = sep.unicode_len();
    let mut out: Vec<Vec<char>> = Vec::new();
    let mut rest = slice_of(s, 0, s.len());
    assert(rest@ =~= s@);
    loop
        invariant
            m == sep@.len(),
            m > 0,
            pieces(s@, sep@) == views(out@) + pieces(rest@, sep@),
        decreases rest@.len(),
    {
        let ghost before = views(out@);
        let n = rest.len();
        match find_in(&rest, sep, false) {
            Some(i) => {
                let piece = slice_of(&rest, 0, i);
                let next = slice_of(&rest, i + m, n);
                assert(piece@ =~= rest@.take(i as int));
                assert(next@ =~= rest@.skip(i + m));
                out.push(piece);
                assert(views(out@) =~= before.push(piece@));
                assert(before + pieces(rest@, sep@) =~= views(out@) + pieces(next@, sep@));
                rest = next;
            },
            None => {
                out.push(rest);
                assert(views(out@) =~= before + pieces(rest@, sep@));
                assert(views(out@) + seq![] =~= views(out@));
                return out;
            },
        }
    }
}

/// `s` ends with `k`.
pub open spec fn ends_with(s: Seq<char>, k: Seq<char>) -> bool {
    k.len() <= s.len() && matches_at(s, s.len() - k.len(), k, false)
}

/// Whether two texts are the same.
pub fn same_text(a: &str, b: &str) -> (r: bool)
    ensures
        r == (a@ == b@),
{
    let n = a.unicode_len();
    if n != b.unicode_len() {
        return false;
    }
    let mut i: usize = 0;
    while i < n
        invariant
            n == a@.len(),
            n == b@.len(),
            i <= n,
            forall|j: int| 0 <= j < i ==> a@[j] == b@[j],
        decreases n - i,
    {
        if a.get_char(i) != b.get_char(i) {
            return false;
        }
        i = i + 1;
    }
    assert(a@ =~= b@);
    true
}

/// A string with white space stripped from both ends.
pub fn trim_text(s: &str) -> (r: String)
    ensures
        r@ == trimmed(s@, Keep::Visible),
{
    string_of(&trim(&chars_of(s), Keep::Visible))
}

/// What occurs in a part of a text occurs in the text.
pub proof fn lemma_occurs_within(s: Seq<char>, a: int, b: int, k: Seq<char>, fold: bool)
    requires
        0 <= a <= b <= s.len(),
        occurs(s.subrange(a, b), k, fold),
    ensures
        occurs(s, k, fold),
{
    let sub = s.subrange(a, b);
    let i = choose|i: int| matches_at(sub, i, k, fold);
    assert forall|j: int| 0 <= j < k.len() implies #[trigger] char_fits(s[i + a + j], k[j], fold) by {
        assert(char_fits(sub[i + j], k[j], fold));
        assert(sub[i + j] == s[i + a + j]);
    }
    assert(matches_at(s, i + a, k, fold));
}

/// What occurs in a trimmed text occurs in the text.
pub proof fn lemma_occurs_trimmed(s: Seq<char>, m: Keep, k: Seq<char>, fold: bool)
    requires
        occurs(trimmed(s, m), k, fold),
    ensures
        occurs(s, k, fold),
{
    let r = run(s, m, false) as int;
    lemma_run_bound(s, m, false);
    let t = s.skip(r);
    lemma_back_run_bound(t, m);
    let x = t.len() - back_run(t, m);
    assert(trimmed(s, m) =~= s.subrange(r, r + x));
    lemma_occurs_within(s, r, r + x, k, fold);
}

/// What occurs in a piece between separators occurs in the text.
pub proof fn lemma_occurs_piece(s: Seq<char>, sep: Seq<char>, i: int, k: Seq<char>, fold: bool)
    requires
        0 <= i < pieces(s, sep).len(),
        occurs(pieces(s, sep)[i], k, fold),
    ensures
        occurs(s, k, fold),
    decreases s.len(),
{
    match find_spec(s, sep, false) {
        Some(j) => {
            if sep.len() > 0 && 0 <= j && j + sep.len() <= s.len() {
                let rest = s.skip(j + sep.len());
                if i == 0 {
                    assert(s.take(j) =~= s.subrange(0, j));
                    lemma_occurs_within(s, 0, j, k, fold);
                } else {
                    assert(pieces(s, sep)[i] == pieces(rest, sep)[i - 1]);
                    lemma_occurs_piece(rest, sep, i - 1, k, fold);
                    assert(rest =~= s.subrange(j + sep.len(), s.len() as int));
                    lemma_occurs_within(s, j + sep.len(), s.len() as int, k, fold);
                }
            }
        },
        None => {},
    }
}

} // verus!
