//! The days of the calendar and their numbers belong together.

use vstd::prelude::*;

use crate::amplify::amplify;
use crate::amplify::branches;
use crate::numeral;
use crate::text;

verus! {

proof fn lemma_month(j: int)
    requires
        1 <= j <= 12,
    ensures
        306_001 * (j + 3) / 10_000 - 2447 * j / 80 == 92,
        j / 11 == (if j >= 11 {
            1int
        } else {
            0
        }),
{
    assert(j == 1 || j == 2 || j == 3 || j == 4 || j == 5 || j == 6 || j == 7 || j == 8 || j == 9 || j == 10
        || j == 11 || j == 12);
}

/// The number of a day leads to the day, and the day back to its number, from
/// the epoch on.
pub proof fn law_day_has_its_number(jd: int)
    requires
        jd >= amplify::julian_day(0),
    ensures
        ({
            let d = amplify::date_of(jd);
            &&& branches::julian_of(d.year, d.month, d.day) == jd
            &&& 1 <= d.month <= 12
            &&& 1 <= d.day <= 31
            &&& d.year >= 1900
        }),
{
    let l0 = jd + 68_569;
    let n = 4 * l0 / 146_097;
    let l1 = l0 - (146_097 * n + 3) / 4;
    assert(n >= 68);
    assert(0 <= l1 <= 36_524);
    let i = 4000 * (l1 + 1) / 1_461_001;
    assert(0 <= i <= 99);
    let l2 = l1 - 1461 * i / 4 + 31;
    assert(31 <= l2 <= 397);
    let j = 80 * l2 / 2447;
    assert(1 <= j <= 12);
    lemma_month(j);
    let l3 = j / 11;
    let d = amplify::date_of(jd);
    assert(amplify::quotient(4 * l0, 146_097) == n);
    assert(amplify::quotient(146_097 * n + 3, 4) == (146_097 * n + 3) / 4);
    assert(amplify::quotient(4000 * (l1 + 1), 1_461_001) == i);
    assert(amplify::quotient(1461 * i, 4) == 1461 * i / 4);
    assert(amplify::quotient(80 * l2, 2447) == j);
    assert(amplify::quotient(j, 11) == l3);
    assert(amplify::quotient(2447 * j, 80) == 2447 * j / 80);
    assert(d.year == 100 * (n - 49) + i + l3);
    assert(d.month == j + 2 - 12 * l3);
    assert(d.day == l2 - 2447 * j / 80);
    let year = 100 * (n - 49) + i;
    assert(amplify::quotient(year, 100) == n - 49);
    assert(amplify::quotient(1461 * (year + 4716), 4) == 36_525 * (n - 49) + 1_722_519 + 1461 * i / 4);
    assert((n + 3) / 4 - (n - 49) / 4 == 13);
    assert((146_097 * n + 3) / 4 == 36_524 * n + (n + 3) / 4);
    assert(1 <= d.day <= 31) by {
        assert(80 * l2 < 2447 * (j + 1));
        assert(80 * l2 >= 2447 * j);
    }
}

/// A text of digits.
spec fn all_digits(s: Seq<char>) -> bool {
    forall|k: int| 0 <= k < s.len() ==> '0' <= #[trigger] s[k] <= '9'
}

proof fn lemma_decimal_digits(n: nat)
    ensures
        all_digits(numeral::decimal(n)),
        numeral::decimal(n).len() > 0,
    decreases n,
{
    if n >= 10 {
        lemma_decimal_digits(n / 10);
    }
}

proof fn lemma_zeros(z: int, s: Seq<char>)
    requires
        0 <= z,
    ensures
        numeral::digits_value(text::repeated('0', z) + s) == numeral::digits_value(s),
    decreases s.len(), z,
{
    let zeros = text::repeated('0', z);
    if s.len() > 0 {
        lemma_zeros(z, s.drop_last());
        assert((zeros + s).drop_last() =~= zeros + s.drop_last());
    } else if z > 0 {
        lemma_zeros(z - 1, s);
        assert((zeros + s).drop_last() =~= text::repeated('0', z - 1) + s);
    } else {
        assert(zeros + s =~= s);
    }
}

proof fn lemma_padded_reads_back(n: nat, w: int, max: nat)
    requires
        n <= max,
    ensures
        numeral::parsed_unsigned(numeral::decimal_padded(n, w), max) == Some(n),
        all_digits(numeral::decimal_padded(n, w)),
{
    let d = numeral::decimal(n);
    let z = w - d.len();
    lemma_decimal_digits(n);
    numeral::lemma_decimal_reads_back(n);
    if z > 0 {
        lemma_zeros(z, d);
    } else {
        assert(text::repeated('0', z) + d =~= d);
    }
    let p = numeral::decimal_padded(n, w);
    assert forall|k: int| 0 <= k < p.len() implies '0' <= #[trigger] p[k] <= '9' by {
        if k >= p.len() - d.len() {
            assert(p[k] == d[k - (p.len() - d.len())]);
        }
    }
    assert(p[0] != '+');
}

proof fn lemma_split_digits(s: Seq<char>, c: char)
    requires
        all_digits(s),
        c == '-',
    ensures
        text::split_at_char(s, c) == seq![s],
    decreases s.len(),
{
    if s.len() == 0 {
        assert(s =~= Seq::empty());
    } else {
        let t = s.drop_last();
        assert(all_digits(t)) by {
            assert forall|k: int| 0 <= k < t.len() implies '0' <= #[trigger] t[k] <= '9' by {
                assert(s[k] == t[k]);
            }
        }
        lemma_split_digits(t, c);
        assert('0' <= s[s.len() - 1] <= '9');
        assert(t.push(s.last()) =~= s);
        assert(text::split_at_char(s, c) =~= seq![s]);
    }
}

proof fn lemma_split_append(p: Seq<char>, s: Seq<char>, c: char)
    requires
        all_digits(s),
        c == '-',
    ensures
        text::split_at_char(p.push(c) + s, c) == text::split_at_char(p, c).push(s),
    decreases s.len(),
{
    if s.len() == 0 {
        assert(p.push(c) + s =~= p.push(c));
        assert(p.push(c).drop_last() =~= p);
        assert(s =~= Seq::empty());
    } else {
        let t = s.drop_last();
        assert(all_digits(t)) by {
            assert forall|k: int| 0 <= k < t.len() implies '0' <= #[trigger] t[k] <= '9' by {
                assert(s[k] == t[k]);
            }
        }
        lemma_split_append(p, t, c);
        assert('0' <= s[s.len() - 1] <= '9');
        assert((p.push(c) + s).drop_last() =~= p.push(c) + t);
        assert(t.push(s.last()) =~= s);
        let rest = text::split_at_char(p, c).push(t);
        assert(rest.drop_last() =~= text::split_at_char(p, c));
    }
}

/// The day that is written for seconds since the epoch is the day that is read,
/// and it lies as many days back as there are between the two times. The year
/// has to fit in the numbers that years are read into.
pub proof fn law_days_since_written_day(e: int, t: u64)
    requires
        0 <= e,
        amplify::date_of(amplify::julian_day(e / 86_400)).year <= i32::MAX,
    ensures
        branches::days_since(amplify::day_text(e), Some(t)) == Some(t as int / 86_400 - e / 86_400),
{
    let jd = amplify::julian_day(e / 86_400);
    let d = amplify::date_of(jd);
    law_day_has_its_number(jd);
    let y = numeral::decimal_padded(d.year as nat, 4);
    let m = numeral::decimal_padded(d.month as nat, 2);
    let k = numeral::decimal_padded(d.day as nat, 2);
    lemma_padded_reads_back(d.year as nat, 4, i32::MAX as nat);
    lemma_padded_reads_back(d.month as nat, 2, u32::MAX as nat);
    lemma_padded_reads_back(d.day as nat, 2, u32::MAX as nat);
    reveal_strlit("-");
    reveal_strlit("T00:00:00Z");
    let s = amplify::day_text(e);
    let date = (y.push('-') + m).push('-') + k;
    assert(s =~= date + "T00:00:00Z"@);
    let n = date.len() as int;
    assert forall|i: int| 0 <= i < n implies s[i] != 'T' by {
        assert(s[i] == date[i]);
        if i < y.len() {
            assert(date[i] == y[i]);
        } else if i == y.len() {
            assert(date[i] == '-');
        } else if i < y.len() + 1 + m.len() {
            assert(date[i] == m[i - y.len() - 1]);
        } else if i == y.len() + 1 + m.len() {
            assert(date[i] == '-');
        } else {
            assert(date[i] == k[i - y.len() - 2 - m.len()]);
        }
    }
    assert(s[n] == 'T');
    text::lemma_until_at(s, 'T', n);
    assert(s.take(n) =~= date);
    lemma_split_digits(y, '-');
    lemma_split_append(y, m, '-');
    lemma_split_append(y.push('-') + m, k, '-');
    let parts = text::split_at_char(date, '-');
    assert(parts =~= seq![y, m, k]);
    assert(branches::date_in(s) == Some((d.year as nat, d.month as nat, d.day as nat)));
}

} // verus!
