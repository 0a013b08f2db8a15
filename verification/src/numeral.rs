//! Numbers in decimal and hexadecimal: writing them, and reading them back.

use vstd::prelude::*;

use crate::text::chars_of;

verus! {

/// The decimal digit `d`.
pub open spec fn digit(d: int) -> char {
    ('0' as int + d) as char
}

/// The value of a decimal digit.
pub open spec fn digit_value(c: char) -> Option<nat> {
    if '0' <= c <= '9' {
        Some((c as int - '0' as int) as nat)
    } else {
        None
    }
}

/// `n` in decimal, without leading zeros.
pub open spec fn decimal(n: nat) -> Seq<char>
    decreases n,
{
    if n < 10 {
        seq![digit(n as int)]
    } else {
        decimal(n / 10).push(digit((n % 10) as int))
    }
}

fn digit_char(d: u64) -> (c: char)
    requires
        d < 10,
    ensures
        c == digit(d as int),
{
    let b: u8 = d as u8;
    (48 + b) as char
}

/// `n` in decimal.
pub fn dec(n: u64) -> (r: String)
    ensures
        r@ == decimal(n as nat),
    decreases n,
{
    if n < 10 {
        let mut s = String::new();
        s.push(digit_char(n));
        assert(s@ =~= decimal(n as nat));
        s
    } else {
        let mut s = dec(n / 10);
        s.push(digit_char(n % 10));
        s
    }
}

/// A large number in decimal.
pub fn dec_wide(n: u128) -> (r: String)
    ensures
        r@ == decimal(n as nat),
    decreases n,
{
    if n < 10 {
        dec(n as u64)
    } else {
        let mut s = dec_wide(n / 10);
        s.push(digit_char((n % 10) as u64));
        s
    }
}

/// A length or an index in decimal.
pub fn dec_size(n: usize) -> (r: String)
    ensures
        r@ == decimal(n as nat),
{
    dec(n as u64)
}

/// `n` in decimal, with zeros in front of it up to `w` digits.
pub open spec fn decimal_padded(n: nat, w: int) -> Seq<char> {
    crate::text::repeated('0', w - decimal(n).len()) + decimal(n)
}

/// `format!("{:0w$}", n)` of a number that is not negative.
pub fn dec_padded(n: u64, w: usize) -> (r: String)
    ensures
        r@ == decimal_padded(n as nat, w as int),
{
    let d = dec(n);
    let len: usize = chars_of(d.as_str()).len();
    let mut out = String::new();
    let mut i: usize = len;
    while i < w
        invariant
            len <= i,
            i <= w || i == len,
            out@ == crate::text::repeated('0', i - len),
        decreases w - i,
    {
        out.push('0');
        assert(out@ =~= crate::text::repeated('0', i + 1 - len));
        i = i + 1;
    }
    assert(crate::text::repeated('0', w - len) =~= out@);
    crate::text::cat2(out.as_str(), d.as_str())
}

/// The number that a run of decimal digits stands for; `None` where a
/// character is no digit. The empty run stands for 0.
pub open spec fn digits_value(s: Seq<char>) -> Option<nat>
    decreases s.len(),
{
    if s.len() == 0 {
        Some(0)
    } else {
        match (digits_value(s.drop_last()), digit_value(s.last())) {
            (Some(n), Some(d)) => Some(n * 10 + d),
            _ => None,
        }
    }
}

/// The number that `str::parse` reads into an unsigned type whose largest
/// value is `max`: an optional plus sign, then at least one digit.
pub open spec fn parsed_unsigned(s: Seq<char>, max: nat) -> Option<nat> {
    let body = if s.len() > 0 && s[0] == '+' {
        s.drop_first()
    } else {
        s
    };
    if body.len() == 0 {
        None
    } else {
        match digits_value(body) {
            Some(n) => if n <= max {
                Some(n)
            } else {
                None
            },
            None => None,
        }
    }
}

/// The number that `str::parse` reads into an `i64`: an optional sign, then
/// at least one digit.
pub open spec fn parsed_signed(s: Seq<char>) -> Option<int> {
    if s.len() > 0 && s[0] == '-' {
        if s.len() == 1 {
            None
        } else {
            match digits_value(s.drop_first()) {
                Some(n) => if n <= 0x8000_0000_0000_0000 {
                    Some(-n)
                } else {
                    None
                },
                None => None,
            }
        }
    } else {
        match parsed_unsigned(s, i64::MAX as nat) {
            Some(n) => Some(n as int),
            None => None,
        }
    }
}

proof fn lemma_digits_value_prefix(s: Seq<char>, i: int)
    requires
        0 <= i <= s.len(),
    ensures
        digits_value(s.take(i)) is None ==> digits_value(s) is None,
        digits_value(s) matches Some(n) ==> digits_value(s.take(i)) is Some && digits_value(s.take(i))->0 <= n,
    decreases s.len(),
{
    if i == s.len() {
        assert(s.take(i) =~= s);
    } else {
        lemma_digits_value_prefix(s.drop_last(), i);
        assert(s.drop_last().take(i) =~= s.take(i));
    }
}

/// The number that the digits of `v` from `from` on stand for, if it is at
/// most `max`.
fn read_digits(v: &Vec<char>, from: usize, max: u64) -> (r: Option<u64>)
    requires
        from <= v.len(),
    ensures
        match digits_value(v@.skip(from as int)) {
            Some(n) => if n <= max {
                r == Some(n as u64)
            } else {
                r is None
            },
            None => r is None,
        },
{
    let ghost body = v@.skip(from as int);
    let mut n: u64 = 0;
    let mut i: usize = from;
    assert(body.take(0) =~= Seq::empty());
    while i < v.len()
        invariant
            from <= i <= v.len(),
            body == v@.skip(from as int),
            digits_value(body.take(i - from)) == Some(n as nat),
            n <= max,
        decreases v.len() - i,
    {
        let c = v[i];
        assert(body.take(i + 1 - from).drop_last() =~= body.take(i - from));
        assert(body.take(i + 1 - from).last() == c);
        proof {
            lemma_digits_value_prefix(body, i + 1 - from);
        }
        if !('0' <= c && c <= '9') {
            return None;
        }
        let d: u64 = (c as u8 - 48) as u64;
        let next: u128 = (n as u128) * 10 + (d as u128);
        if next > max as u128 {
            return None;
        }
        n = next as u64;
        i = i + 1;
    }
    assert(body.take(body.len() as int) =~= body);
    Some(n)
}

fn parse_bounded(s: &str, max: u64) -> (r: Option<u64>)
    ensures
        match parsed_unsigned(s@, max as nat) {
            Some(n) => r == Some(n as u64) && n <= max,
            None => r is None,
        },
{
    let v = chars_of(s);
    let from: usize = if v.len() > 0 && v[0] == '+' { 1 } else { 0 };
    if from == v.len() {
        return None;
    }
    assert(v@.skip(from as int) =~= if v.len() > 0 && v@[0] == '+' {
        s@.drop_first()
    } else {
        s@
    });
    read_digits(&v, from, max)
}

/// `str::parse::<u64>`.
pub fn parse_u64(s: &str) -> (r: Option<u64>)
    ensures
        match parsed_unsigned(s@, u64::MAX as nat) {
            Some(n) => r == Some(n as u64) && n <= u64::MAX,
            None => r is None,
        },
{
    parse_bounded(s, u64::MAX)
}

/// `str::parse::<u32>`.
pub fn parse_u32(s: &str) -> (r: Option<u32>)
    ensures
        match parsed_unsigned(s@, u32::MAX as nat) {
            Some(n) => r == Some(n as u32) && n <= u32::MAX,
            None => r is None,
        },
{
    match parse_bounded(s, u32::MAX as u64) {
        Some(n) => Some(n as u32),
        None => None,
    }
}

/// `str::parse::<i64>`.
pub fn parse_i64(s: &str) -> (r: Option<i64>)
    ensures
        match parsed_signed(s@) {
            Some(n) => r == Some(n as i64) && i64::MIN <= n <= i64::MAX,
            None => r is None,
        },
{
    let v = chars_of(s);
    if v.len() > 0 && v[0] == '-' {
        if v.len() == 1 {
            return None;
        }
        assert(v@.skip(1) =~= s@.drop_first());
        match read_digits(&v, 1, 0x8000_0000_0000_0000) {
            Some(n) => {
                let m: i128 = -(n as i128);
                Some(m as i64)
            },
            None => None,
        }
    } else {
        match parse_bounded(s, i64::MAX as u64) {
            Some(n) => Some(n as i64),
            None => None,
        }
    }
}

/// The whole number nearest to `a / b`; of two that are equally near the even
/// one.
pub open spec fn nearest(a: nat, b: nat) -> nat {
    let q = a / b;
    let r = a % b;
    if 2 * r < b || (2 * r == b && q % 2 == 0) {
        q
    } else {
        q + 1
    }
}

fn nearest_u128(a: u128, b: u128) -> (r: u128)
    requires
        0 < b < 0x1_0000_0000_0000_0000,
        a < 0x1_0000_0000_0000_0000_0000,
    ensures
        r == nearest(a as nat, b as nat),
        r <= a / b + 1,
{
    let q: u128 = a / b;
    let r: u128 = a % b;
    if 2 * r < b || (2 * r == b && q % 2 == 0) {
        q
    } else {
        q + 1
    }
}

/// `n` with at most 53 binary digits in front of its zeros, as a number in
/// double precision has them: the nearest multiple of `unit`, which is doubled
/// until the digits suffice.
pub open spec fn as_double_from(n: nat, unit: nat) -> nat
    decreases n / unit,
    when unit > 0
{
    if n / unit < 0x20_0000_0000_0000 {
        nearest(n, unit) * unit
    } else {
        proof {
            lemma_half_quotient(n, unit);
        }
        as_double_from(n, 2 * unit)
    }
}

/// Twice the unit goes into a number less often.
pub proof fn lemma_half_quotient(n: nat, unit: nat)
    requires
        unit > 0,
        n / unit >= 1,
    ensures
        n / (2 * unit) < n / unit,
{
    let q = n / unit;
    let p = n / (2 * unit);
    assert(n < unit * (q + 1) && unit * q <= n) by (nonlinear_arith)
        requires
            unit > 0,
            q == n / unit,
    ;
    assert(p * (2 * unit) <= n) by (nonlinear_arith)
        requires
            unit > 0,
            p == n / (2 * unit),
    ;
    assert(p < q) by (nonlinear_arith)
        requires
            p * (2 * unit) <= n,
            n < unit * (q + 1),
            q >= 1,
            unit > 0,
            p >= 0,
    ;
}

/// `n` as a number in double precision.
pub open spec fn as_double(n: nat) -> nat {
    as_double_from(n, 1)
}

/// One of the powers of two up to the eleventh.
spec fn small_power(u: u128) -> bool {
    u == 1 || u == 2 || u == 4 || u == 8 || u == 16 || u == 32 || u == 64 || u == 128 || u == 256 || u == 512
        || u == 1024 || u == 2048
}

fn round_to_double(n: u64) -> (r: u128)
    ensures
        r == as_double(n as nat),
        r <= 0x1_0000_0000_0000_0000,
{
    let m: u128 = n as u128;
    let mut unit: u128 = 1;
    while m / unit >= 0x20_0000_0000_0000
        invariant
            small_power(unit),
            m == n,
            as_double_from(n as nat, 1) == as_double_from(n as nat, unit as nat),
        decreases 0x1000 - unit,
    {
        assert(unit != 0x800) by {
            if unit == 0x800 {
                assert(m / 0x800 < 0x20_0000_0000_0000);
            }
        }
        unit = unit * 2;
    }
    let q: u128 = nearest_u128(m, unit);
    proof {
        let k = m / unit;
        assert(k < 0x20_0000_0000_0000);
        assert((k + 1) * unit <= 0x20_0000_0000_0000 * 0x800) by (nonlinear_arith)
            requires
                k + 1 <= 0x20_0000_0000_0000,
                unit <= 0x800,
                k >= 0,
                unit >= 1,
        ;
        assert(q * unit <= (k + 1) * unit) by (nonlinear_arith)
            requires
                q <= k + 1,
                unit >= 1,
        ;
    }
    q * unit
}

/// A number of bytes in units of `unit` with one decimal: what dividing in
/// double precision and rounding to one decimal gives.
pub open spec fn in_units(n: nat, unit: nat) -> Seq<char> {
    let tenths = nearest(as_double(n) * 10, unit);
    decimal(tenths / 10) + "."@ + decimal(tenths % 10)
}

fn in_units_text(n: u64, unit: u64) -> (r: String)
    requires
        unit > 0,
    ensures
        r@ == in_units(n as nat, unit as nat),
{
    let m: u128 = round_to_double(n);
    let t: u128 = nearest_u128(m * 10, unit as u128);
    let whole: u128 = t / 10;
    let part: u64 = (t % 10) as u64;
    crate::text::cat3(dec_wide(whole).as_str(), ".", dec(part).as_str())
}

/// A number of bytes: as it is below a kilobyte, else in kilobytes, megabytes
/// or gigabytes with one decimal.
pub open spec fn byte_count(n: nat) -> Seq<char> {
    if n >= 0x4000_0000 {
        in_units(n, 0x4000_0000) + " GB"@
    } else if n >= 0x10_0000 {
        in_units(n, 0x10_0000) + " MB"@
    } else if n >= 0x400 {
        in_units(n, 0x400) + " KB"@
    } else {
        decimal(n) + " B"@
    }
}

pub fn byte_count_text(n: u64) -> (r: String)
    ensures
        r@ == byte_count(n as nat),
{
    if n >= 0x4000_0000 {
        crate::text::cat2(in_units_text(n, 0x4000_0000).as_str(), " GB")
    } else if n >= 0x10_0000 {
        crate::text::cat2(in_units_text(n, 0x10_0000).as_str(), " MB")
    } else if n >= 0x400 {
        crate::text::cat2(in_units_text(n, 0x400).as_str(), " KB")
    } else {
        crate::text::cat2(dec(n).as_str(), " B")
    }
}

/// The hexadecimal digit `d`, a capital from ten on.
pub open spec fn hex_digit(d: int) -> char {
    if d < 10 {
        ('0' as int + d) as char
    } else {
        ('A' as int + d - 10) as char
    }
}

/// A byte as two hexadecimal digits.
pub open spec fn hex_byte(b: u8) -> Seq<char> {
    seq![hex_digit((b / 16) as int), hex_digit((b % 16) as int)]
}

fn hex_char(d: u8) -> (c: char)
    requires
        d < 16,
    ensures
        c == hex_digit(d as int),
{
    if d < 10 {
        (48 + d) as char
    } else {
        (65 + d - 10) as char
    }
}

/// `format!("{:02X}", b)`.
pub fn hex(b: u8) -> (r: String)
    ensures
        r@ == hex_byte(b),
{
    let mut s = String::new();
    s.push(hex_char(b / 16));
    s.push(hex_char(b % 16));
    assert(s@ =~= hex_byte(b));
    s
}

/// A number written in decimal is read back unchanged.
pub proof fn lemma_decimal_reads_back(n: nat)
    ensures
        digits_value(decimal(n)) == Some(n),
        decimal(n).len() >= 1,
        digit_value(decimal(n)[0]) is Some,
    decreases n,
{
    if n < 10 {
        assert(decimal(n).drop_last() =~= Seq::empty());
        assert(digits_value(Seq::<char>::empty()) == Some(0nat));
        assert(digit_value(digit(n as int)) == Some(n));
    } else {
        lemma_decimal_reads_back(n / 10);
        assert(decimal(n).drop_last() =~= decimal(n / 10));
        assert(decimal(n)[0] == decimal(n / 10)[0]);
        assert(digit_value(digit((n % 10) as int)) == Some(n % 10));
    }
}

/// Reading what was written gives the number back, for every `u64`.
pub proof fn law_parse_reads_decimal(n: u64)
    ensures
        parsed_unsigned(decimal(n as nat), u64::MAX as nat) == Some(n as nat),
{
    lemma_decimal_reads_back(n as nat);
}

/// Two different numbers are never written alike.
pub proof fn law_decimal_injective(a: nat, b: nat)
    requires
        decimal(a) == decimal(b),
    ensures
        a == b,
{
    lemma_decimal_reads_back(a);
    lemma_decimal_reads_back(b);
}

/// A number in decimal is written with digits only, without a zero in front, and
/// with as many digits as it has.
pub proof fn law_digits_of_a_number(n: nat)
    ensures
        forall|i: int| 0 <= i < decimal(n).len() ==> '0' <= #[trigger] decimal(n)[i] <= '9',
        n > 0 ==> decimal(n)[0] != '0',
        n < 10 ==> decimal(n).len() == 1,
        10 <= n < 100 ==> decimal(n).len() == 2,
        n >= 100 ==> decimal(n).len() > 2,
        crate::text::is_word(decimal(n)),
    decreases n,
{
    let d = decimal(n);
    if n >= 10 {
        law_digits_of_a_number(n / 10);
        lemma_decimal_reads_back(n / 10);
        let e = decimal(n / 10);
        assert(d == e.push(digit((n % 10) as int)));
        assert(d[0] == e[0]);
        assert forall|i: int| 0 <= i < d.len() implies '0' <= #[trigger] d[i] <= '9' by {
            if i < e.len() {
                assert(d[i] == e[i]);
            }
        }
    }
    assert forall|i: int| 0 <= i < d.len() implies !crate::text::white_space(#[trigger] d[i]) by {
        assert('0' <= d[i] <= '9');
    }
}

/// A number of at most two digits, padded to two.
pub proof fn law_two_digits(n: nat)
    requires
        n < 100,
    ensures
        decimal_padded(n, 2) == if n < 10 {
            "0"@ + decimal(n)
        } else {
            decimal(n)
        },
        decimal_padded(n, 2).len() == 2,
{
    reveal_strlit("0");
    law_digits_of_a_number(n);
    assert(decimal_padded(n, 2) =~= if n < 10 {
        "0"@ + decimal(n)
    } else {
        decimal(n)
    });
}

/// What is read as a number is what was written, in front of a bound that it
/// keeps; behind it nothing is read.
pub proof fn law_reading_keeps_the_bound(n: nat, max: nat)
    ensures
        parsed_unsigned(decimal(n), max) == if n <= max {
            Some(n)
        } else {
            None
        },
{
    lemma_decimal_reads_back(n);
}

/// A number of bytes is told in the largest unit that it reaches, with the number of
/// tenths that is nearest.
pub proof fn law_bytes_in_words(n: nat, t: nat)
    requires
        n < 0x20_0000_0000_0000,
    ensures
        n < 1024 ==> byte_count(n) == decimal(n) + " B"@,
        1024 <= n < 1024 * 1024 && -1024 < 2 * (10 * n - 1024 * t) < 1024 ==> byte_count(n) == decimal(t / 10) + "."@
            + decimal(t % 10) + " KB"@,
        1024 * 1024 <= n < 1024 * 1024 * 1024 && -1048576 < 2 * (10 * n - 1048576 * t) < 1048576 ==> byte_count(n)
            == decimal(t / 10) + "."@ + decimal(t % 10) + " MB"@,
        n >= 1024 * 1024 * 1024 && -1073741824 < 2 * (10 * n - 1073741824 * t) < 1073741824 ==> byte_count(n)
            == decimal(t / 10) + "."@ + decimal(t % 10) + " GB"@,
{
    assert(nearest(n, 1) == n);
    assert(as_double(n) == n);
    if 1024 <= n < 1024 * 1024 && -1024 < 2 * (10 * n - 1024 * t) < 1024 {
        assert(nearest(n * 10, 0x400) == t);
    }
    if 1024 * 1024 <= n < 1024 * 1024 * 1024 && -1048576 < 2 * (10 * n - 1048576 * t) < 1048576 {
        assert(nearest(n * 10, 0x10_0000) == t);
    }
    if n >= 1024 * 1024 * 1024 && -1073741824 < 2 * (10 * n - 1073741824 * t) < 1073741824 {
        assert(nearest(n * 10, 0x4000_0000) == t);
    }
}

} // verus!
