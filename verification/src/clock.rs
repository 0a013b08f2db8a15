//! Points in time and spans of time in words.

use vstd::prelude::*;

use crate::numeral;
use crate::numeral::dec;
use crate::text;
use crate::text::cat2;

verus! {

/// What `chrono` prints of a number of seconds since the epoch as
/// `%Y-%m-%d %H:%M` in UTC; nothing where the date is out of its range.
pub uninterp spec fn utc_minute(secs: i64) -> Option<Seq<char>>;

/// `chrono::DateTime::from_timestamp` and `format` with the pattern
/// `%Y-%m-%d %H:%M`: the date and the minute in UTC, or nothing where the date
/// is out of the range that `chrono` knows.
#[verifier::external_body]
pub(crate) fn utc_minute_text(secs: i64) -> (r: Option<String>)
    ensures
        text::opt_view(r) == utc_minute(secs),
{
    chrono::DateTime::from_timestamp(secs, 0).map(|d| d.format("%Y-%m-%d %H:%M").to_string())
}

/// `std::time::SystemTime::now` and `duration_since` the epoch: the whole
/// seconds that have gone by, or nothing where the clock stands before the
/// epoch. Nothing is promised of the time.
#[verifier::external_body]
pub(crate) fn secs_since_epoch() -> (r: Option<u64>) {
    std::time::SystemTime::now().duration_since(std::time::UNIX_EPOCH).ok().map(|d| d.as_secs())
}

/// A point in time, given by a number of seconds since the epoch that may have a
/// fraction.
pub struct Moment {
    /// The number without its fraction.
    pub secs: i64,
    /// A number that grows with the number.
    pub rank: i64,
    /// The number as it is printed.
    pub raw: String,
}

/// A point in time to the minute, or its number where that is no date.
pub open spec fn moment_words(m: Moment) -> Seq<char> {
    match utc_minute(m.secs) {
        Some(t) => t,
        None => m.raw@,
    }
}

/// A date, or a number where there is none.
pub fn date_or_raw(date: Option<String>, raw: &str) -> (r: String)
    ensures
        r@ == (match date {
            Some(t) => t@,
            None => raw@,
        }),
{
    match date {
        Some(t) => t,
        None => text::owned(raw),
    }
}

/// A point in time in words.
pub fn moment_text(m: &Moment) -> (r: String)
    ensures
        r@ == moment_words(*m),
{
    date_or_raw(utc_minute_text(m.secs), m.raw.as_str())
}

/// Of two points in time, which may not be known, the first is later; one that
/// is not known is earlier than all others.
pub open spec fn later(a: Option<Moment>, b: Option<Moment>) -> bool {
    match (a, b) {
        (Some(x), Some(y)) => x.rank > y.rank,
        (Some(_), None) => true,
        _ => false,
    }
}

pub fn is_later(a: &Option<Moment>, b: &Option<Moment>) -> (r: bool)
    ensures
        r == later(*a, *b),
{
    match (a, b) {
        (Some(x), Some(y)) => x.rank > y.rank,
        (Some(_), None) => true,
        _ => false,
    }
}

/// What `chrono` finds between two times in the form of RFC 3339: the whole
/// seconds from the first to the second, or nothing where a text is not such a
/// time.
pub uninterp spec fn rfc3339_gap(start: Seq<char>, end: Seq<char>) -> Option<i64>;

/// `chrono::DateTime::parse_from_rfc3339` on both texts, `signed_duration_since`
/// and `num_seconds`: the whole seconds from `start` to `end`, or nothing where
/// one of them cannot be read.
#[verifier::external_body]
pub(crate) fn seconds_between(start: &str, end: &str) -> (r: Option<i64>)
    ensures
        r == rfc3339_gap(start@, end@),
{
    let s = chrono::DateTime::parse_from_rfc3339(start).ok()?;
    let e = chrono::DateTime::parse_from_rfc3339(end).ok()?;
    Some(e.signed_duration_since(s).num_seconds())
}

/// `chrono::DateTime::parse_from_rfc3339`, `with_timezone` for the time zone of
/// the machine, `offset` and `local_minus_utc`: by how many seconds the clocks of
/// the machine are ahead of UTC at a time. It is less than a day either way, and
/// there is one if and only if the time can be read; which one it is depends on
/// the machine.
#[verifier::external_body]
pub(crate) fn local_offset(iso: &str) -> (r: Option<i32>)
    ensures
        r is Some == rfc3339_gap(iso@, iso@) is Some,
        r matches Some(o) ==> -86_400 < o < 86_400,
{
    let t = chrono::DateTime::parse_from_rfc3339(iso).ok()?;
    Some(t.with_timezone(&chrono::Local).offset().local_minus_utc())
}

/// What `chrono` prints of a time in the form of RFC 3339 as
/// `%Y-%m-%d %H:%M:%S %Z`, where clocks are ahead of UTC by `offset` seconds;
/// nothing where the text is not a time, or the offset is a day or more.
pub uninterp spec fn zoned_words(iso: Seq<char>, offset: i32) -> Option<Seq<char>>;

/// `chrono::DateTime::parse_from_rfc3339`, `FixedOffset::east_opt`,
/// `with_timezone` and `format` with the pattern `%Y-%m-%d %H:%M:%S %Z`: the time
/// on clocks that are ahead of UTC by `offset` seconds. There is a text if and
/// only if the time can be read and the offset is less than a day either way.
#[verifier::external_body]
pub(crate) fn zoned_text(iso: &str, offset: i32) -> (r: Option<String>)
    ensures
        text::opt_view(r) == zoned_words(iso@, offset),
        r is Some == (rfc3339_gap(iso@, iso@) is Some && -86_400 < offset < 86_400),
{
    let t = chrono::DateTime::parse_from_rfc3339(iso).ok()?;
    let zone = chrono::FixedOffset::east_opt(offset)?;
    Some(t.with_timezone(&zone).format("%Y-%m-%d %H:%M:%S %Z").to_string())
}

/// A span of `s` seconds in its two largest units: days and hours, hours and
/// minutes, minutes and seconds. A second unit that would be 0 is left out.
pub open spec fn span_words(s: nat) -> Seq<char> {
    if s >= 86400 {
        two_units(s / 86400, "d"@, (s % 86400) / 3600, "h"@)
    } else if s >= 3600 {
        two_units(s / 3600, "h"@, (s % 3600) / 60, "m"@)
    } else if s >= 60 {
        two_units(s / 60, "m"@, s % 60, "s"@)
    } else {
        numeral::decimal(s) + "s"@
    }
}

pub open spec fn two_units(a: nat, unit: Seq<char>, b: nat, smaller: Seq<char>) -> Seq<char> {
    if b > 0 {
        numeral::decimal(a) + unit + " "@ + numeral::decimal(b) + smaller
    } else {
        numeral::decimal(a) + unit
    }
}

fn two_units_text(a: u64, unit: &str, b: u64, smaller: &str) -> (r: String)
    ensures
        r@ == two_units(a as nat, unit@, b as nat, smaller@),
{
    if b > 0 {
        text::cat5(dec(a).as_str(), unit, " ", dec(b).as_str(), smaller)
    } else {
        cat2(dec(a).as_str(), unit)
    }
}

/// A span of seconds in words.
pub fn span_text(s: u64) -> (r: String)
    ensures
        r@ == span_words(s as nat),
{
    if s >= 86400 {
        two_units_text(s / 86400, "d", (s % 86400) / 3600, "h")
    } else if s >= 3600 {
        two_units_text(s / 3600, "h", (s % 3600) / 60, "m")
    } else if s >= 60 {
        two_units_text(s / 60, "m", s % 60, "s")
    } else {
        cat2(dec(s).as_str(), "s")
    }
}

proof fn lemma_parts(q: nat, unit: nat, r: nat)
    requires
        r < unit,
    ensures
        (q * unit + r) / unit == q,
        (q * unit + r) % unit == r,
{
    vstd::arithmetic::div_mod::lemma_fundamental_div_mod_converse(
        (q * unit + r) as int,
        unit as int,
        q as int,
        r as int,
    );
}

/// A span of time is told in its two largest units, and the smaller one only where
/// it is not nothing.
pub proof fn law_span_in_words(d: nat, h: nat, m: nat, s: nat)
    requires
        h < 24,
        m < 60,
        s < 60,
    ensures
        ({
            let w = span_words(d * 86400 + h * 3600 + m * 60 + s);
            &&& d > 0 && h > 0 ==> w == numeral::decimal(d) + "d"@ + " "@ + numeral::decimal(h) + "h"@
            &&& d > 0 && h == 0 ==> w == numeral::decimal(d) + "d"@
            &&& d == 0 && h > 0 && m > 0 ==> w == numeral::decimal(h) + "h"@ + " "@ + numeral::decimal(m) + "m"@
            &&& d == 0 && h > 0 && m == 0 ==> w == numeral::decimal(h) + "h"@
            &&& d == 0 && h == 0 && m > 0 && s > 0 ==> w == numeral::decimal(m) + "m"@ + " "@ + numeral::decimal(s)
                + "s"@
            &&& d == 0 && h == 0 && m > 0 && s == 0 ==> w == numeral::decimal(m) + "m"@
            &&& d == 0 && h == 0 && m == 0 ==> w == numeral::decimal(s) + "s"@
        }),
{
    let low = m * 60 + s;
    let r = h * 3600 + low;
    let t = d * 86400 + r;
    lemma_parts(m, 60, s);
    lemma_parts(h, 3600, low);
    lemma_parts(d, 86400, r);
}

/// Of two moments the one with the larger rank is the later one, and a moment is later
/// than none.
pub proof fn law_later(a: Option<Moment>, b: Option<Moment>)
    ensures
        a is Some && b is Some ==> (later(a, b) <==> a->0.rank > b->0.rank),
        a is Some && b is None ==> later(a, b),
        a is None ==> !later(a, b),
{
}

/// A moment is told by its minute, and as it was given where it has none.
pub proof fn law_moment_in_words(m: Moment)
    ensures
        utc_minute(m.secs) is Some ==> moment_words(m) == utc_minute(m.secs)->0,
        utc_minute(m.secs) is None ==> moment_words(m) == m.raw@,
{
}

} // verus!
