//! Schedule expressions in words.
//!
//! Three kinds of expression are known: `at(<time>)`, `rate(<n> <unit>)` and
//! `cron(<minute> <hour> <day> <month> <weekday> <year>)`. Only common shapes
//! are put into words; every other expression stands for itself.

use vstd::prelude::*;

use crate::numeral;
use crate::numeral::{dec, dec_padded, parse_u32};
use crate::text;
use crate::text::{
    cat2, cat3, cat4, cat5, cat6, chars_of, join, owned, split, split_words, str_eq, string_of,
    strip_prefix, strip_suffix, to_upper, trim,
};

verus! {

/// What stands in `s` between `prefix` and `suffix`.
pub open spec fn enclosed(prefix: Seq<char>, suffix: Seq<char>, s: Seq<char>) -> Option<Seq<char>> {
    match text::without_prefix(s, prefix) {
        Some(rest) => text::without_suffix(rest, suffix),
        None => None,
    }
}

pub fn strip(prefix: &str, suffix: &str, s: &str) -> (r: Option<String>)
    ensures
        text::opt_view(r) == enclosed(prefix@, suffix@, s@),
{
    match strip_prefix(s, prefix) {
        Some(rest) => strip_suffix(rest.as_str(), suffix),
        None => None,
    }
}

/// A schedule expression in words.
pub open spec fn humanized(expr: Seq<char>, tz: Seq<char>) -> Seq<char> {
    let e = text::trimmed(expr);
    match enclosed("at("@, ")"@, e) {
        Some(inner) => at_words(inner, tz),
        None => match enclosed("rate("@, ")"@, e) {
            Some(inner) => rate_words(inner),
            None => match enclosed("cron("@, ")"@, e) {
                Some(inner) => cron_words(inner, tz),
                None => expr,
            },
        },
    }
}

pub fn humanize(expr: &str, tz: &str) -> (r: String)
    ensures
        r@ == humanized(expr@, tz@),
{
    let e = trim(expr);
    if let Some(inner) = strip("at(", ")", e) {
        return humanize_at(inner.as_str(), tz);
    }
    if let Some(inner) = strip("rate(", ")", e) {
        return humanize_rate(inner.as_str());
    }
    if let Some(inner) = strip("cron(", ")", e) {
        return humanize_cron(inner.as_str(), tz);
    }
    owned(expr)
}

/// The words for one point in time, with the time zone behind it.
pub open spec fn at_words(inner: Seq<char>, tz: Seq<char>) -> Seq<char> {
    "Once on "@ + inner + (if tz.len() == 0 {
        ""@
    } else {
        " "@
    }) + tz
}

pub fn humanize_at(inner: &str, tz: &str) -> (r: String)
    ensures
        r@ == at_words(inner@, tz@),
{
    let zone = if tz.is_empty() { "" } else { " " };
    cat4("Once on ", inner, zone, tz)
}

/// `s` without the `c`s at its end.
pub open spec fn without_trailing(s: Seq<char>, c: char) -> Seq<char>
    decreases s.len(),
{
    if s.len() > 0 && s.last() == c {
        without_trailing(s.drop_last(), c)
    } else {
        s
    }
}

fn trim_trailing(s: &str, c: char) -> (r: String)
    ensures
        r@ == without_trailing(s@, c),
{
    let v = chars_of(s);
    let mut n: usize = v.len();
    assert(s@.take(n as int) =~= s@);
    while n > 0 && v[n - 1] == c
        invariant
            n <= v.len(),
            v@ == s@,
            without_trailing(s@, c) == without_trailing(s@.take(n as int), c),
        decreases n,
    {
        assert(s@.take(n as int).drop_last() =~= s@.take(n - 1));
        n = n - 1;
    }
    string_of(&v, 0, n)
}

/// The words for a rate: "every" and the unit, with the number where it is
/// not 1. What is no number and unit stands for itself.
pub open spec fn rate_words(inner: Seq<char>) -> Seq<char> {
    let parts = text::words(inner);
    if parts.len() != 2 {
        "rate("@ + inner + ")"@
    } else if parts[0] == "1"@ {
        "Every "@ + without_trailing(parts[1], 's')
    } else {
        "Every "@ + parts[0] + " "@ + parts[1]
    }
}

pub fn humanize_rate(inner: &str) -> (r: String)
    ensures
        r@ == rate_words(inner@),
{
    let parts = split_words(inner);
    assert(forall|i: int| 0 <= i < parts.len() ==> text::views(parts@)[i] == parts@[i]@);
    if parts.len() != 2 {
        return cat3("rate(", inner, ")");
    }
    if str_eq(parts[0].as_str(), "1") {
        let unit = trim_trailing(parts[1].as_str(), 's');
        cat2("Every ", unit.as_str())
    } else {
        cat4("Every ", parts[0].as_str(), " ", parts[1].as_str())
    }
}

/// The field puts no condition on a day.
pub open spec fn any_day(f: Seq<char>) -> bool {
    f == "*"@ || f == "?"@
}

fn is_any_day(f: &str) -> (r: bool)
    ensures
        r == any_day(f@),
{
    str_eq(f, "*") || str_eq(f, "?")
}

/// The `N` of `0/N` or `*/N`: every so many units.
pub open spec fn interval(f: Seq<char>) -> Option<nat> {
    match text::without_prefix(f, "0/"@) {
        Some(rest) => numeral::parsed_unsigned(rest, u32::MAX as nat),
        None => match text::without_prefix(f, "*/"@) {
            Some(rest) => numeral::parsed_unsigned(rest, u32::MAX as nat),
            None => None,
        },
    }
}

/// `n` as an optional `u32`.
pub open spec fn is_number(r: Option<u32>, n: Option<nat>) -> bool {
    match n {
        Some(k) => r == Some(k as u32) && k <= u32::MAX,
        None => r is None,
    }
}

pub fn every_interval(field: &str) -> (r: Option<u32>)
    ensures
        is_number(r, interval(field@)),
{
    match strip_prefix(field, "0/") {
        Some(rest) => parse_u32(rest.as_str()),
        None => match strip_prefix(field, "*/") {
            Some(rest) => parse_u32(rest.as_str()),
            None => None,
        },
    }
}

/// The number that a field consists of.
pub open spec fn single(f: Seq<char>) -> Option<nat> {
    numeral::parsed_unsigned(f, u32::MAX as nat)
}

pub fn single_value(field: &str) -> (r: Option<u32>)
    ensures
        is_number(r, single(field@)),
{
    parse_u32(field)
}

/// A time of the day on a clock of twelve hours.
pub open spec fn clock(h: nat, m: nat) -> Seq<char> {
    let h12 = if h == 0 {
        12nat
    } else if h <= 12 {
        h
    } else {
        (h - 12) as nat
    };
    let half = if h <= 11 {
        "AM"@
    } else {
        "PM"@
    };
    if m == 0 {
        numeral::decimal(h12) + ":00 "@ + half
    } else {
        numeral::decimal(h12) + ":"@ + numeral::decimal_padded(m, 2) + " "@ + half
    }
}

pub fn format_time(h: u32, m: u32) -> (r: String)
    ensures
        r@ == clock(h as nat, m as nat),
{
    let h12: u32 = if h == 0 {
        12
    } else if h <= 12 {
        h
    } else {
        h - 12
    };
    let half = if h <= 11 { "AM" } else { "PM" };
    let hours = dec(h12 as u64);
    if m == 0 {
        cat3(hours.as_str(), ":00 ", half)
    } else {
        let minutes = dec_padded(m as u64, 2);
        cat5(hours.as_str(), ":", minutes.as_str(), " ", half)
    }
}

/// The letters behind an ordinal number.
pub open spec fn ordinal_letters(n: nat) -> Seq<char> {
    if 11 <= n % 100 <= 13 {
        "th"@
    } else if n % 10 == 1 {
        "st"@
    } else if n % 10 == 2 {
        "nd"@
    } else if n % 10 == 3 {
        "rd"@
    } else {
        "th"@
    }
}

pub fn ordinal_suffix(n: u32) -> (r: &'static str)
    ensures
        r@ == ordinal_letters(n as nat),
{
    let tens: u32 = n % 100;
    let ones: u32 = n % 10;
    if 11 <= tens && tens <= 13 {
        "th"
    } else if ones == 1 {
        "st"
    } else if ones == 2 {
        "nd"
    } else if ones == 3 {
        "rd"
    } else {
        "th"
    }
}

/// The weekday that a name in capitals, or a number, stands for.
pub open spec fn weekday(upper: Seq<char>) -> Option<Seq<char>> {
    if upper == "SUN"@ || upper == "1"@ {
        Some("Sunday"@)
    } else if upper == "MON"@ || upper == "2"@ {
        Some("Monday"@)
    } else if upper == "TUE"@ || upper == "3"@ {
        Some("Tuesday"@)
    } else if upper == "WED"@ || upper == "4"@ {
        Some("Wednesday"@)
    } else if upper == "THU"@ || upper == "5"@ {
        Some("Thursday"@)
    } else if upper == "FRI"@ || upper == "6"@ {
        Some("Friday"@)
    } else if upper == "SAT"@ || upper == "7"@ {
        Some("Saturday"@)
    } else {
        None
    }
}

/// The weekday of a field that is already in capitals.
pub fn day_name_upper(upper: &str) -> (r: Option<&'static str>)
    ensures
        text::opt_str_view(r) == weekday(upper@),
{
    if str_eq(upper, "SUN") || str_eq(upper, "1") {
        Some("Sunday")
    } else if str_eq(upper, "MON") || str_eq(upper, "2") {
        Some("Monday")
    } else if str_eq(upper, "TUE") || str_eq(upper, "3") {
        Some("Tuesday")
    } else if str_eq(upper, "WED") || str_eq(upper, "4") {
        Some("Wednesday")
    } else if str_eq(upper, "THU") || str_eq(upper, "5") {
        Some("Thursday")
    } else if str_eq(upper, "FRI") || str_eq(upper, "6") {
        Some("Friday")
    } else if str_eq(upper, "SAT") || str_eq(upper, "7") {
        Some("Saturday")
    } else {
        None
    }
}

pub fn day_name(d: &str) -> (r: Option<&'static str>)
    ensures
        text::opt_str_view(r) == weekday(text::uppercased(text::trimmed(d@))),
{
    let upper = to_upper(trim(d));
    day_name_upper(upper.as_str())
}

/// Every part of a list of days is a day.
pub open spec fn all_days(parts: Seq<Seq<char>>) -> bool {
    forall|i: int| 0 <= i < parts.len() ==> weekday(text::uppercased(text::trimmed(#[trigger] parts[i]))) is Some
}

/// The days of a list of days.
pub open spec fn days_of(parts: Seq<Seq<char>>) -> Seq<Seq<char>> {
    Seq::new(parts.len(), |i: int| weekday(text::uppercased(text::trimmed(parts[i])))->0)
}

/// The phrase for a weekday field: the working days, the weekend, one day or
/// a list of days.
pub open spec fn days_phrase(dow: Seq<char>) -> Option<Seq<char>> {
    if dow == "MON-FRI"@ || dow == "2-6"@ {
        Some("weekday"@)
    } else if dow == "SUN,SAT"@ || dow == "SAT,SUN"@ || dow == "1,7"@ || dow == "7,1"@ {
        Some("weekend day"@)
    } else if dow.contains(',') {
        let parts = text::split_at_char(dow, ',');
        if all_days(parts) {
            Some(text::joined(days_of(parts), " / "@))
        } else {
            None
        }
    } else {
        weekday(text::uppercased(text::trimmed(dow)))
    }
}

fn has_char(v: &Vec<char>, c: char) -> (r: bool)
    ensures
        r == v@.contains(c),
{
    let mut i: usize = 0;
    while i < v.len()
        invariant
            i <= v.len(),
            forall|k: int| 0 <= k < i ==> v@[k] != c,
        decreases v.len() - i,
    {
        if v[i] == c {
            return true;
        }
        i = i + 1;
    }
    false
}

pub fn named_days(dow: &str) -> (r: Option<String>)
    ensures
        text::opt_view(r) == days_phrase(dow@),
{
    if str_eq(dow, "MON-FRI") || str_eq(dow, "2-6") {
        return Some(owned("weekday"));
    }
    if str_eq(dow, "SUN,SAT") || str_eq(dow, "SAT,SUN") || str_eq(dow, "1,7") || str_eq(dow, "7,1") {
        return Some(owned("weekend day"));
    }
    if has_char(&chars_of(dow), ',') {
        let parts = split(dow, ',');
        let ghost pieces = text::split_at_char(dow@, ',');
        let mut names: Vec<String> = Vec::new();
        let mut i: usize = 0;
        while i < parts.len()
            invariant
                i <= parts.len(),
                text::views(parts@) == pieces,
                days_phrase(dow@) == (if all_days(pieces) {
                    Some(text::joined(days_of(pieces), " / "@))
                } else {
                    None
                }),
                names.len() == i,
                forall|k: int| 0 <= k < i ==> weekday(text::uppercased(text::trimmed(#[trigger] pieces[k]))) is Some,
                forall|k: int| 0 <= k < i ==> (#[trigger] names@[k])@ == weekday(text::uppercased(text::trimmed(pieces[k])))->0,
            decreases parts.len() - i,
        {
            assert(pieces[i as int] == parts@[i as int]@);
            match day_name(parts[i].as_str()) {
                Some(n) => names.push(owned(n)),
                None => {
                    assert(weekday(text::uppercased(text::trimmed(pieces[i as int]))) is None);
                    return None;
                },
            }
            i = i + 1;
        }
        assert(text::views(names@) =~= days_of(pieces));
        return Some(join(&names, " / "));
    }
    match day_name(dow) {
        Some(n) => Some(owned(n)),
        None => None,
    }
}

/// The words for a cron mask. Known shapes are: every so many minutes, every
/// so many hours at a minute, every day, certain weekdays, a day of every
/// month. Every other mask stands for itself.
pub open spec fn cron_words(inner: Seq<char>, tz: Seq<char>) -> Seq<char> {
    let f = text::words(inner);
    let raw = "cron("@ + inner + ")"@;
    if f.len() != 6 {
        raw
    } else {
        let (min, hr, dom, mon, dow) = (f[0], f[1], f[2], f[3], f[4]);
        let zone = if tz.len() == 0 {
            Seq::<char>::empty()
        } else {
            " "@ + tz
        };
        let free = any_day(dom) && any_day(dow);
        if interval(min) is Some && hr == "*"@ && free {
            if interval(min)->0 == 1 {
                "Every minute"@
            } else {
                "Every "@ + numeral::decimal(interval(min)->0) + " minutes"@
            }
        } else if interval(hr) is Some && single(min) is Some && free && mon == "*"@ {
            if interval(hr)->0 == 1 {
                "Every hour at :"@ + numeral::decimal_padded(single(min)->0, 2)
            } else {
                "Every "@ + numeral::decimal(interval(hr)->0) + " hours at :"@ + numeral::decimal_padded(single(min)->0, 2)
            }
        } else if single(hr) is None || single(min) is None {
            raw
        } else {
            let time = clock(single(hr)->0, single(min)->0);
            if free && mon == "*"@ {
                "Every day at "@ + time + zone
            } else if any_day(dom) && mon == "*"@ && days_phrase(dow) is Some {
                "Every "@ + days_phrase(dow)->0 + " at "@ + time + zone
            } else if any_day(dow) && mon == "*"@ && single(dom) is Some {
                "On the "@ + numeral::decimal(single(dom)->0) + ordinal_letters(single(dom)->0)
                    + " of every month at "@ + time + zone
            } else {
                raw
            }
        }
    }
}

pub fn humanize_cron(inner: &str, tz: &str) -> (r: String)
    ensures
        r@ == cron_words(inner@, tz@),
{
    let f = split_words(inner);
    assert(forall|i: int| 0 <= i < f.len() ==> text::views(f@)[i] == f@[i]@);
    let raw = cat3("cron(", inner, ")");
    if f.len() != 6 {
        return raw;
    }
    let (min, hr, dom, mon, dow) = (f[0].as_str(), f[1].as_str(), f[2].as_str(), f[3].as_str(), f[4].as_str());
    let zone = if tz.is_empty() { String::new() } else { cat2(" ", tz) };
    let free = is_any_day(dom) && is_any_day(dow);
    let every_month = str_eq(mon, "*");
    if let Some(n) = every_interval(min) {
        if str_eq(hr, "*") && free {
            return if n == 1 {
                owned("Every minute")
            } else {
                cat3("Every ", dec(n as u64).as_str(), " minutes")
            };
        }
    }
    if let Some(n) = every_interval(hr) {
        if let Some(m) = single_value(min) {
            if free && every_month {
                let minute = dec_padded(m as u64, 2);
                return if n == 1 {
                    cat2("Every hour at :", minute.as_str())
                } else {
                    cat4("Every ", dec(n as u64).as_str(), " hours at :", minute.as_str())
                };
            }
        }
    }
    let h = match single_value(hr) {
        Some(h) => h,
        None => {
            return raw;
        },
    };
    let m = match single_value(min) {
        Some(m) => m,
        None => {
            return raw;
        },
    };
    let time = format_time(h, m);
    if free && every_month {
        return cat3("Every day at ", time.as_str(), zone.as_str());
    }
    if is_any_day(dom) && every_month {
        if let Some(days) = named_days(dow) {
            return cat5("Every ", days.as_str(), " at ", time.as_str(), zone.as_str());
        }
    }
    if is_any_day(dow) && every_month {
        if let Some(day) = single_value(dom) {
            let n = dec(day as u64);
            return cat6(
                "On the ",
                n.as_str(),
                ordinal_suffix(day),
                " of every month at ",
                time.as_str(),
                zone.as_str(),
            );
        }
    }
    raw
}

/// What is none of the three kinds of expression stands for itself.
pub proof fn law_unknown_stands_for_itself(expr: Seq<char>, tz: Seq<char>)
    requires
        !text::has_prefix(text::trimmed(expr), "at("@),
        !text::has_prefix(text::trimmed(expr), "rate("@),
        !text::has_prefix(text::trimmed(expr), "cron("@),
    ensures
        humanized(expr, tz) == expr,
{
}

/// The expression is one of the three kinds.
pub open spec fn known(e: Seq<char>) -> bool {
    ||| enclosed("at("@, ")"@, e) is Some
    ||| enclosed("rate("@, ")"@, e) is Some
    ||| enclosed("cron("@, ")"@, e) is Some
}

/// White space around a known expression makes no difference.
pub proof fn law_white_space_around(a: Seq<char>, b: Seq<char>, tz: Seq<char>)
    requires
        text::trimmed(a) == text::trimmed(b),
        known(text::trimmed(a)),
    ensures
        humanized(a, tz) == humanized(b, tz),
{
}

/// The text of a mask with six fields.
proof fn lemma_six_fields(a: Seq<char>, b: Seq<char>, c: Seq<char>, d: Seq<char>, e: Seq<char>, f: Seq<char>)
    requires
        text::is_word(a),
        text::is_word(b),
        text::is_word(c),
        text::is_word(d),
        text::is_word(e),
        text::is_word(f),
    ensures
        text::words(a + " "@ + b + " "@ + c + " "@ + d + " "@ + e + " "@ + f) == seq![a, b, c, d, e, f],
{
    let s2 = a + " "@ + b;
    let s3 = s2 + " "@ + c;
    let s4 = s3 + " "@ + d;
    let s5 = s4 + " "@ + e;
    text::law_word_is_one_word(a);
    text::law_word_behind_a_space(a, b);
    text::law_word_behind_a_space(s2, c);
    text::law_word_behind_a_space(s3, d);
    text::law_word_behind_a_space(s4, e);
    text::law_word_behind_a_space(s5, f);
    assert(text::words(s5 + " "@ + f) =~= seq![a, b, c, d, e, f]);
}

/// An expression of one of the three kinds is put into words by what stands in its
/// brackets.
proof fn lemma_kinds(inner: Seq<char>, tz: Seq<char>)
    ensures
        humanized("at("@ + inner + ")"@, tz) == at_words(inner, tz),
        humanized("rate("@ + inner + ")"@, tz) == rate_words(inner),
        humanized("cron("@ + inner + ")"@, tz) == cron_words(inner, tz),
{
    reveal_strlit("at(");
    reveal_strlit("rate(");
    reveal_strlit("cron(");
    reveal_strlit(")");
    let a = "at("@ + inner + ")"@;
    let r = "rate("@ + inner + ")"@;
    let c = "cron("@ + inner + ")"@;
    assert(a[0] == 'a' && a.last() == ')');
    assert(r[0] == 'r' && r.last() == ')');
    assert(c[0] == 'c' && c.last() == ')');
    text::law_trimmed_text_stays(a);
    text::law_trimmed_text_stays(r);
    text::law_trimmed_text_stays(c);
    assert(a.take(3) =~= "at("@);
    assert(a.skip(3) =~= inner + ")"@);
    assert(r.take(3)[0] == 'r' && c.take(3)[0] == 'c' && c.take(5)[0] == 'c');
    assert("at("@[0] == 'a' && "rate("@[0] == 'r');
    assert(r.take(5) =~= "rate("@);
    assert(r.skip(5) =~= inner + ")"@);
    assert(c.take(5) =~= "cron("@);
    assert(c.skip(5) =~= inner + ")"@);
    let i = inner + ")"@;
    assert(i.skip(i.len() - 1) =~= ")"@);
    assert(i.take(i.len() - 1) =~= inner);
}

/// The words of the fields of a mask that are no numbers.
proof fn lemma_signs()
    ensures
        text::is_word("*"@),
        text::is_word("?"@),
        "*"@ != "?"@,
        "*"@.len() == 1,
        "?"@.len() == 1,
{
    reveal_strlit("*");
    reveal_strlit("?");
    assert("*"@[0] == '*' && "?"@[0] == '?');
}

proof fn lemma_number_field(n: nat)
    requires
        n <= u32::MAX,
    ensures
        text::is_word(numeral::decimal(n)),
        single(numeral::decimal(n)) == Some(n),
        interval(numeral::decimal(n)) is None,
        numeral::decimal(n) != "*"@,
        numeral::decimal(n) != "?"@,
{
    reveal_strlit("0/");
    reveal_strlit("*/");
    reveal_strlit("*");
    reveal_strlit("?");
    let d = numeral::decimal(n);
    numeral::law_digits_of_a_number(n);
    numeral::law_reading_keeps_the_bound(n, u32::MAX as nat);
    assert('0' <= d[0] <= '9');
    if d.len() >= 2 {
        assert('0' <= d[1] <= '9');
        assert(d.take(2)[1] == d[1] && "0/"@[1] == '/' && "*/"@[1] == '/');
    }
    assert("*"@[0] == '*' && "?"@[0] == '?');
}

proof fn lemma_step_field(n: nat)
    requires
        n <= u32::MAX,
    ensures
        text::is_word("0/"@ + numeral::decimal(n)),
        text::is_word("*/"@ + numeral::decimal(n)),
        interval("0/"@ + numeral::decimal(n)) == Some(n),
        interval("*/"@ + numeral::decimal(n)) == Some(n),
        single("0/"@ + numeral::decimal(n)) is None,
        single("*/"@ + numeral::decimal(n)) is None,
        "0/"@ + numeral::decimal(n) != "*"@,
        "*/"@ + numeral::decimal(n) != "*"@,
{
    reveal_strlit("0/");
    reveal_strlit("*/");
    reveal_strlit("*");
    let d = numeral::decimal(n);
    let a = "0/"@ + d;
    let b = "*/"@ + d;
    numeral::law_digits_of_a_number(n);
    numeral::law_reading_keeps_the_bound(n, u32::MAX as nat);
    assert(a.take(2) =~= "0/"@ && a.skip(2) =~= d);
    assert(b.take(2) =~= "*/"@ && b.skip(2) =~= d);
    assert(b.take(2)[0] == '*' && "0/"@[0] == '0');
    assert forall|i: int| 0 <= i < a.len() implies !text::white_space(#[trigger] a[i]) by {
        if i >= 2 {
            assert(a[i] == d[i - 2]);
        }
    }
    assert forall|i: int| 0 <= i < b.len() implies !text::white_space(#[trigger] b[i]) by {
        if i >= 2 {
            assert(b[i] == d[i - 2]);
        }
    }
    lemma_no_number(a, 1);
    lemma_no_number(b, 1);
}

/// A text with a character that is neither a digit nor a sign is no number.
proof fn lemma_no_number(s: Seq<char>, i: int)
    requires
        0 <= i < s.len(),
        !('0' <= s[i] <= '9'),
        s[i] != '+',
    ensures
        single(s) is None,
{
    let b = s.drop_first();
    lemma_no_digits(s, i);
    if s[0] == '+' {
        assert(b[i - 1] == s[i]);
        lemma_no_digits(b, i - 1);
    }
}

proof fn lemma_no_digits(s: Seq<char>, i: int)
    requires
        0 <= i < s.len(),
        !('0' <= s[i] <= '9'),
    ensures
        numeral::digits_value(s) is None,
    decreases s.len(),
{
    if i < s.len() - 1 {
        lemma_no_digits(s.drop_last(), i);
    }
}

/// A minute in two digits.
pub open spec fn minute_digits(m: nat) -> Seq<char> {
    if m < 10 {
        "0"@ + numeral::decimal(m)
    } else {
        numeral::decimal(m)
    }
}

/// The hour of the clock comes first, counted to twelve; then the minute in two
/// digits, and the half of the day.
pub proof fn law_time_of_the_day(h: nat, m: nat)
    requires
        h < 24,
        m < 60,
    ensures
        clock(h, m) == numeral::decimal(if h % 12 == 0 {
            12
        } else {
            h % 12
        }) + ":"@ + minute_digits(m) + (if h < 12 {
            " AM"@
        } else {
            " PM"@
        }),
{
    numeral::law_two_digits(m);
    reveal_strlit(":00 ");
    reveal_strlit(":");
    reveal_strlit("0");
    reveal_strlit(" ");
    reveal_strlit("AM");
    reveal_strlit("PM");
    reveal_strlit(" AM");
    reveal_strlit(" PM");
    reveal_with_fuel(numeral::decimal, 2);
    let d = numeral::decimal(if h % 12 == 0 {
        12
    } else {
        h % 12
    });
    let half = if h < 12 {
        "AM"@
    } else {
        "PM"@
    };
    let spaced = if h < 12 {
        " AM"@
    } else {
        " PM"@
    };
    assert(spaced =~= " "@ + half);
    if m == 0 {
        assert(numeral::decimal(0) =~= seq!['0']);
        assert(":"@ + minute_digits(0) + spaced =~= ":00 "@ + half);
        assert(d + ":"@ + minute_digits(0) + spaced =~= d + ":00 "@ + half);
    } else {
        assert(d + ":"@ + minute_digits(m) + spaced =~= d + ":"@ + numeral::decimal_padded(m, 2) + " "@ + half);
    }
}

/// A mask for every so many hours at a minute is put into words with the number of
/// hours first and the minute in two digits behind it.
pub proof fn law_every_so_many_hours(m: nat, n: nat, tz: Seq<char>)
    requires
        1 < n <= u32::MAX,
        m < 60,
    ensures
        humanized(
            "cron("@ + (numeral::decimal(m) + " "@ + ("0/"@ + numeral::decimal(n)) + " "@ + "*"@ + " "@ + "*"@ + " "@
                + "?"@ + " "@ + "*"@) + ")"@,
            tz,
        ) == "Every "@ + numeral::decimal(n) + " hours at :"@ + minute_digits(m),
        humanized(
            "cron("@ + (numeral::decimal(m) + " "@ + ("*/"@ + numeral::decimal(n)) + " "@ + "*"@ + " "@ + "*"@ + " "@
                + "?"@ + " "@ + "*"@) + ")"@,
            tz,
        ) == "Every "@ + numeral::decimal(n) + " hours at :"@ + minute_digits(m),
{
    let d = numeral::decimal(m);
    let a = "0/"@ + numeral::decimal(n);
    let b = "*/"@ + numeral::decimal(n);
    lemma_signs();
    lemma_number_field(m);
    lemma_step_field(n);
    numeral::law_two_digits(m);
    lemma_six_fields(d, a, "*"@, "*"@, "?"@, "*"@);
    lemma_six_fields(d, b, "*"@, "*"@, "?"@, "*"@);
    lemma_kinds(d + " "@ + a + " "@ + "*"@ + " "@ + "*"@ + " "@ + "?"@ + " "@ + "*"@, tz);
    lemma_kinds(d + " "@ + b + " "@ + "*"@ + " "@ + "*"@ + " "@ + "?"@ + " "@ + "*"@, tz);
}

/// A mask for every hour names the minute.
pub proof fn law_every_hour(m: nat, tz: Seq<char>)
    requires
        m < 60,
    ensures
        humanized(
            "cron("@ + (numeral::decimal(m) + " "@ + ("0/"@ + numeral::decimal(1)) + " "@ + "*"@ + " "@ + "*"@ + " "@
                + "?"@ + " "@ + "*"@) + ")"@,
            tz,
        ) == "Every hour at :"@ + minute_digits(m),
{
    let d = numeral::decimal(m);
    let a = "0/"@ + numeral::decimal(1);
    lemma_signs();
    lemma_number_field(m);
    lemma_step_field(1);
    numeral::law_two_digits(m);
    lemma_six_fields(d, a, "*"@, "*"@, "?"@, "*"@);
    lemma_kinds(d + " "@ + a + " "@ + "*"@ + " "@ + "*"@ + " "@ + "?"@ + " "@ + "*"@, tz);
}

/// A mask for every so many minutes is put into words with their number; for each
/// minute without one.
pub proof fn law_every_so_many_minutes(n: nat, tz: Seq<char>)
    requires
        n <= u32::MAX,
    ensures
        humanized(
            "cron("@ + (("0/"@ + numeral::decimal(n)) + " "@ + "*"@ + " "@ + "*"@ + " "@ + "*"@ + " "@ + "?"@ + " "@
                + "*"@) + ")"@,
            tz,
        ) == if n == 1 {
            "Every minute"@
        } else {
            "Every "@ + numeral::decimal(n) + " minutes"@
        },
        humanized(
            "cron("@ + (("*/"@ + numeral::decimal(n)) + " "@ + "*"@ + " "@ + "*"@ + " "@ + "*"@ + " "@ + "?"@ + " "@
                + "*"@) + ")"@,
            tz,
        ) == if n == 1 {
            "Every minute"@
        } else {
            "Every "@ + numeral::decimal(n) + " minutes"@
        },
{
    let a = "0/"@ + numeral::decimal(n);
    let b = "*/"@ + numeral::decimal(n);
    lemma_signs();
    lemma_step_field(n);
    lemma_six_fields(a, "*"@, "*"@, "*"@, "?"@, "*"@);
    lemma_six_fields(b, "*"@, "*"@, "*"@, "?"@, "*"@);
    lemma_kinds(a + " "@ + "*"@ + " "@ + "*"@ + " "@ + "*"@ + " "@ + "?"@ + " "@ + "*"@, tz);
    lemma_kinds(b + " "@ + "*"@ + " "@ + "*"@ + " "@ + "*"@ + " "@ + "?"@ + " "@ + "*"@, tz);
}

/// The time zone behind a time: nothing where there is none.
pub open spec fn behind_time(tz: Seq<char>) -> Seq<char> {
    if tz.len() == 0 {
        Seq::empty()
    } else {
        " "@ + tz
    }
}

/// A mask with one hour and one minute, and no condition on the day, is put into
/// words as every day at that time. The minute is the first field of the mask and
/// the hour the second.
pub proof fn law_every_day(m: nat, h: nat, tz: Seq<char>)
    requires
        m < 60,
        h < 24,
    ensures
        humanized(
            "cron("@ + (numeral::decimal(m) + " "@ + numeral::decimal(h) + " "@ + "*"@ + " "@ + "*"@ + " "@ + "?"@
                + " "@ + "*"@) + ")"@,
            tz,
        ) == "Every day at "@ + clock(h, m) + behind_time(tz),
{
    let d = numeral::decimal(m);
    let e = numeral::decimal(h);
    lemma_signs();
    lemma_number_field(m);
    lemma_number_field(h);
    lemma_six_fields(d, e, "*"@, "*"@, "?"@, "*"@);
    lemma_kinds(d + " "@ + e + " "@ + "*"@ + " "@ + "*"@ + " "@ + "?"@ + " "@ + "*"@, tz);
}

/// A mask with a day of the month names that day as an ordinal number, and the
/// time.
pub proof fn law_day_of_every_month(m: nat, h: nat, day: nat, tz: Seq<char>)
    requires
        m < 60,
        h < 24,
        day <= u32::MAX,
    ensures
        humanized(
            "cron("@ + (numeral::decimal(m) + " "@ + numeral::decimal(h) + " "@ + numeral::decimal(day) + " "@ + "*"@
                + " "@ + "?"@ + " "@ + "*"@) + ")"@,
            tz,
        ) == "On the "@ + numeral::decimal(day) + ordinal_letters(day) + " of every month at "@ + clock(h, m)
            + behind_time(tz),
{
    let d = numeral::decimal(m);
    let e = numeral::decimal(h);
    let k = numeral::decimal(day);
    lemma_signs();
    lemma_number_field(m);
    lemma_number_field(h);
    lemma_number_field(day);
    lemma_six_fields(d, e, k, "*"@, "?"@, "*"@);
    lemma_kinds(d + " "@ + e + " "@ + k + " "@ + "*"@ + " "@ + "?"@ + " "@ + "*"@, tz);
    assert(days_phrase("?"@) is None || !any_day(k));
}

/// A mask with days of the week names those days and the time.
pub proof fn law_certain_weekdays(m: nat, h: nat, dow: Seq<char>, tz: Seq<char>)
    requires
        m < 60,
        h < 24,
        text::is_word(dow),
        dow != "*"@,
        dow != "?"@,
        days_phrase(dow) is Some,
    ensures
        humanized(
            "cron("@ + (numeral::decimal(m) + " "@ + numeral::decimal(h) + " "@ + "?"@ + " "@ + "*"@ + " "@ + dow + " "@
                + "*"@) + ")"@,
            tz,
        ) == "Every "@ + days_phrase(dow)->0 + " at "@ + clock(h, m) + behind_time(tz),
{
    let d = numeral::decimal(m);
    let e = numeral::decimal(h);
    lemma_signs();
    lemma_number_field(m);
    lemma_number_field(h);
    lemma_six_fields(d, e, "?"@, "*"@, dow, "*"@);
    lemma_kinds(d + " "@ + e + " "@ + "?"@ + " "@ + "*"@ + " "@ + dow + " "@ + "*"@, tz);
}

/// Monday to Friday are the working days, Saturday and Sunday the weekend, by name
/// and by number.
pub proof fn law_working_days_and_weekend()
    ensures
        days_phrase("MON-FRI"@) == Some("weekday"@),
        days_phrase("2-6"@) == Some("weekday"@),
        days_phrase("SUN,SAT"@) == Some("weekend day"@),
        days_phrase("SAT,SUN"@) == Some("weekend day"@),
        days_phrase("1,7"@) == Some("weekend day"@),
        days_phrase("7,1"@) == Some("weekend day"@),
{
    reveal_strlit("MON-FRI");
    reveal_strlit("2-6");
    reveal_strlit("SUN,SAT");
    reveal_strlit("SAT,SUN");
    reveal_strlit("1,7");
    reveal_strlit("7,1");
    assert("SUN,SAT"@[3] == ',' && "MON-FRI"@[3] == '-' && "SAT,SUN"@[3] == ',');
    assert("1,7"@[1] == ',' && "7,1"@[1] == ',' && "2-6"@[1] == '-');
}

/// The days of the week have their names and their numbers, from Sunday on; and
/// nothing else is a day.
pub proof fn law_names_of_weekdays(d: Seq<char>)
    ensures
        weekday(d) == Some("Sunday"@) <==> d == "SUN"@ || d == "1"@,
        weekday(d) == Some("Monday"@) <==> d == "MON"@ || d == "2"@,
        weekday(d) == Some("Tuesday"@) <==> d == "TUE"@ || d == "3"@,
        weekday(d) == Some("Wednesday"@) <==> d == "WED"@ || d == "4"@,
        weekday(d) == Some("Thursday"@) <==> d == "THU"@ || d == "5"@,
        weekday(d) == Some("Friday"@) <==> d == "FRI"@ || d == "6"@,
        weekday(d) == Some("Saturday"@) <==> d == "SAT"@ || d == "7"@,
        weekday(d) is None <==> !(d == "SUN"@ || d == "MON"@ || d == "TUE"@ || d == "WED"@ || d == "THU"@ || d
            == "FRI"@ || d == "SAT"@ || d == "1"@ || d == "2"@ || d == "3"@ || d == "4"@ || d == "5"@ || d == "6"@
            || d == "7"@),
{
    reveal_strlit("SUN");
    reveal_strlit("MON");
    reveal_strlit("TUE");
    reveal_strlit("WED");
    reveal_strlit("THU");
    reveal_strlit("FRI");
    reveal_strlit("SAT");
    reveal_strlit("1");
    reveal_strlit("2");
    reveal_strlit("3");
    reveal_strlit("4");
    reveal_strlit("5");
    reveal_strlit("6");
    reveal_strlit("7");
    reveal_strlit("Sunday");
    reveal_strlit("Monday");
    reveal_strlit("Tuesday");
    reveal_strlit("Wednesday");
    reveal_strlit("Thursday");
    reveal_strlit("Friday");
    reveal_strlit("Saturday");
    assert("SUN"@[0] == 'S' && "SUN"@[1] == 'U' && "MON"@[0] == 'M' && "TUE"@[0] == 'T' && "TUE"@[1] == 'U');
    assert("WED"@[0] == 'W' && "THU"@[0] == 'T' && "THU"@[1] == 'H' && "FRI"@[0] == 'F' && "SAT"@[0] == 'S'
        && "SAT"@[1] == 'A');
    assert("1"@[0] == '1' && "2"@[0] == '2' && "3"@[0] == '3' && "4"@[0] == '4' && "5"@[0] == '5' && "6"@[0]
        == '6' && "7"@[0] == '7');
    assert("Sunday"@[0] == 'S' && "Sunday"@[1] == 'u' && "Monday"@[0] == 'M' && "Tuesday"@[0] == 'T'
        && "Tuesday"@[1] == 'u' && "Wednesday"@[0] == 'W' && "Thursday"@[0] == 'T' && "Thursday"@[1] == 'h'
        && "Friday"@[0] == 'F' && "Saturday"@[0] == 'S' && "Saturday"@[1] == 'a');
}

/// Eleven, twelve and thirteen aside, it is the last digit by which the letters
/// behind an ordinal number go.
pub proof fn law_letters_of_ordinals(n: nat)
    ensures
        n % 10 == 1 && n % 100 != 11 ==> ordinal_letters(n) == "st"@,
        n % 10 == 2 && n % 100 != 12 ==> ordinal_letters(n) == "nd"@,
        n % 10 == 3 && n % 100 != 13 ==> ordinal_letters(n) == "rd"@,
        n % 10 == 0 || n % 10 >= 4 || n % 100 == 11 || n % 100 == 12 || n % 100 == 13 ==> ordinal_letters(n)
            == "th"@,
{
}

/// A rate names its number and its unit, in this order; a rate of one names the
/// unit alone, without the sign of the plural.
pub proof fn law_rate_in_words(n: nat, unit: Seq<char>, tz: Seq<char>)
    requires
        text::is_word(unit),
        unit.last() != 's',
    ensures
        n > 1 ==> humanized("rate("@ + (numeral::decimal(n) + " "@ + (unit + "s"@)) + ")"@, tz) == "Every "@
            + numeral::decimal(n) + " "@ + (unit + "s"@),
        humanized("rate("@ + (numeral::decimal(1) + " "@ + (unit + "s"@)) + ")"@, tz) == "Every "@ + unit,
        humanized("rate("@ + (numeral::decimal(1) + " "@ + unit) + ")"@, tz) == "Every "@ + unit,
{
    reveal_strlit("s");
    reveal_strlit("1");
    let many = unit + "s"@;
    assert(text::is_word(many)) by {
        assert forall|i: int| 0 <= i < many.len() implies !text::white_space(#[trigger] many[i]) by {
            if i < unit.len() {
                assert(many[i] == unit[i]);
            }
        }
    }
    let d = numeral::decimal(n);
    let one = numeral::decimal(1);
    numeral::law_digits_of_a_number(n);
    numeral::law_digits_of_a_number(1);
    assert(one =~= "1"@);
    text::law_word_is_one_word(d);
    text::law_word_is_one_word(one);
    text::law_word_behind_a_space(d, many);
    text::law_word_behind_a_space(one, many);
    text::law_word_behind_a_space(one, unit);
    lemma_kinds(d + " "@ + many, tz);
    lemma_kinds(one + " "@ + many, tz);
    lemma_kinds(one + " "@ + unit, tz);
    if n > 1 && d == one {
        numeral::law_decimal_injective(n, 1);
    }
    assert(many.last() == 's');
    assert(many.drop_last() =~= unit);
    reveal_with_fuel(without_trailing, 2);
}

/// A point in time is named as it is given, with the time zone behind it.
pub proof fn law_one_point_in_time(time: Seq<char>, tz: Seq<char>)
    ensures
        humanized("at("@ + time + ")"@, tz) == "Once on "@ + time + behind_time(tz),
{
    lemma_kinds(time, tz);
    reveal_strlit("");
    if tz.len() == 0 {
        assert("Once on "@ + time + ""@ + tz =~= "Once on "@ + time + behind_time(tz));
    } else {
        assert("Once on "@ + time + " "@ + tz =~= "Once on "@ + time + behind_time(tz));
    }
}

/// A mask that has not six fields stands for itself, and so does a rate that is no
/// number and unit.
pub proof fn law_odd_mask_stands_for_itself(inner: Seq<char>, tz: Seq<char>)
    ensures
        text::words(inner).len() != 6 ==> humanized("cron("@ + inner + ")"@, tz) == "cron("@ + inner + ")"@,
        text::words(inner).len() != 2 ==> humanized("rate("@ + inner + ")"@, tz) == "rate("@ + inner + ")"@,
{
    lemma_kinds(inner, tz);
}

/// A mask for certain months only stands for itself, unless it is for every so many
/// minutes of every hour.
pub proof fn law_certain_months_stand_for_themselves(inner: Seq<char>, tz: Seq<char>)
    requires
        text::words(inner).len() == 6,
        text::words(inner)[3] != "*"@,
        text::words(inner)[1] != "*"@,
    ensures
        humanized("cron("@ + inner + ")"@, tz) == "cron("@ + inner + ")"@,
{
    lemma_kinds(inner, tz);
}

/// A list of two days names both, in their order.
pub proof fn law_listed_days(a: Seq<char>, b: Seq<char>)
    requires
        !a.contains(','),
        !b.contains(','),
        weekday(text::uppercased(text::trimmed(a))) is Some,
        weekday(text::uppercased(text::trimmed(b))) is Some,
        days_phrase(a + seq![','] + b) != Some("weekend day"@),
    ensures
        days_phrase(a) == weekday(text::uppercased(text::trimmed(a))) || days_phrase(a) == Some("weekday"@),
        days_phrase(a + seq![','] + b) == Some(
            weekday(text::uppercased(text::trimmed(a)))->0 + " / "@ + weekday(text::uppercased(text::trimmed(b)))->0,
        ),
{
    let t = a + seq![','] + b;
    reveal_strlit("MON-FRI");
    reveal_strlit("2-6");
    reveal_strlit("SUN,SAT");
    reveal_strlit("SAT,SUN");
    reveal_strlit("1,7");
    reveal_strlit("7,1");
    assert(t[a.len() as int] == ',');
    assert("SUN,SAT"@[3] == ',' && "SAT,SUN"@[3] == ',' && "1,7"@[1] == ',' && "7,1"@[1] == ',');
    assert(t != "MON-FRI"@ && t != "2-6"@) by {
        if t == "MON-FRI"@ {
            assert("MON-FRI"@[a.len() as int] == ',');
        }
        if t == "2-6"@ {
            assert("2-6"@[a.len() as int] == ',');
        }
    }
    text::law_pieces(a, ',', b);
    text::law_pieces(Seq::empty(), ',', a);
    let parts = text::split_at_char(t, ',');
    assert(parts =~= seq![a, b]);
    let x = weekday(text::uppercased(text::trimmed(a)))->0;
    let y = weekday(text::uppercased(text::trimmed(b)))->0;
    assert(days_of(parts) =~= seq![x].push(y));
    text::law_joined(seq![x], " / "@, y);
    text::law_joined(seq![x], " / "@, x);
}

proof fn lemma_mask_tail()
    ensures
        " * * ? *"@ =~= " "@ + "*"@ + " "@ + "*"@ + " "@ + "?"@ + " "@ + "*"@,
        " 0/"@ =~= " "@ + "0/"@,
{
    reveal_strlit(" * * ? *");
    reveal_strlit(" ");
    reveal_strlit("*");
    reveal_strlit("?");
    reveal_strlit(" 0/");
    reveal_strlit("0/");
}

/// What is told of a mask for every so many hours: the number of hours, and behind it the
/// minute in two digits.
pub proof fn law_mask_for_hours_as_told(mask: &str, tz: &str, m: nat, n: nat, r: String)
    requires
        call_ensures(humanize_cron, (mask, tz), r),
        mask@ == numeral::decimal(m) + " 0/"@ + numeral::decimal(n) + " * * ? *"@,
        1 < n <= u32::MAX,
        m < 60,
    ensures
        m < 10 ==> r@ == "Every "@ + numeral::decimal(n) + " hours at :"@ + "0"@ + numeral::decimal(m),
        m >= 10 ==> r@ == "Every "@ + numeral::decimal(n) + " hours at :"@ + numeral::decimal(m),
{
    lemma_mask_tail();
    let d = numeral::decimal(m);
    let a = "0/"@ + numeral::decimal(n);
    let inner = d + " "@ + a + " "@ + "*"@ + " "@ + "*"@ + " "@ + "?"@ + " "@ + "*"@;
    assert(mask@ =~= inner);
    law_every_so_many_hours(m, n, tz@);
    lemma_kinds(inner, tz@);
    reveal_strlit("0");
    if m < 10 {
        assert(minute_digits(m) =~= "0"@ + numeral::decimal(m));
        assert(r@ =~= "Every "@ + numeral::decimal(n) + " hours at :"@ + "0"@ + numeral::decimal(m));
    } else {
        assert(minute_digits(m) =~= numeral::decimal(m));
    }
}

/// What is told of an expression is what its kind is told as: a mask, a rate, one point
/// in time, or else the expression itself.
pub proof fn law_kinds_of_expressions(
    expr: &str,
    inner: &str,
    tz: &str,
    r: String,
    c: String,
    e: String,
    a: String,
)
    requires
        call_ensures(humanize, (expr, tz), r),
        call_ensures(humanize_cron, (inner, tz), c),
        call_ensures(humanize_rate, (inner,), e),
        call_ensures(humanize_at, (inner, tz), a),
        text::trimmed(inner@) == inner@,
    ensures
        expr@ == "cron("@ + inner@ + ")"@ ==> r@ == c@,
        expr@ == "rate("@ + inner@ + ")"@ ==> r@ == e@,
        expr@ == "at("@ + inner@ + ")"@ ==> r@ == a@,
{
    lemma_kinds(inner@, tz@);
}

/// A time of the day, the letters of an ordinal and the name of a day, as they are given
/// out.
pub proof fn law_words_given_out(h: u32, m: u32, t: String, n: u32, o: &'static str, day: &str, d: Option<&'static str>)
    requires
        call_ensures(format_time, (h, m), t),
        call_ensures(ordinal_suffix, (n,), o),
        call_ensures(day_name, (day,), d),
    ensures
        t@ == clock(h as nat, m as nat),
        n % 100 != 11 && n % 10 == 1 ==> o@ == "st"@,
        n % 100 != 12 && n % 10 == 2 ==> o@ == "nd"@,
        n % 100 != 13 && n % 10 == 3 ==> o@ == "rd"@,
        n % 10 == 0 || n % 10 > 3 || n % 100 == 11 || n % 100 == 12 || n % 100 == 13 ==> o@ == "th"@,
        text::opt_str_view(d) == weekday(text::uppercased(text::trimmed(day@))),
{
    law_letters_of_ordinals(n as nat);
}

} // verus!
