//! Strings as sequences of characters: searching, splitting, joining, padding
//! and shortening.

use vstd::prelude::*;
use vstd::string::*;

verus! {

/// `String::push` appends one character at the end.
pub assume_specification[ String::push ](s: &mut String, c: char)
    ensures
        final(s)@ == old(s)@.push(c),
;

/// The characters of `s`, one by one.
pub fn chars_of(s: &str) -> (r: Vec<char>)
    ensures
        r@ == s@,
{
    let mut v: Vec<char> = Vec::new();
    for c in it: s.chars()
        invariant
            it.seq() == s@,
            v@ == s@.take(it.index() as int),
    {
        v.push(c);
        assert(s@.take(it.index() as int + 1) =~= s@.take(it.index() as int).push(s@[it.index() as int]));
    }
    assert(s@.take(s@.len() as int) =~= s@);
    v
}

/// The string made of the characters `v[from]`, ..., `v[to - 1]`.
pub fn string_of(v: &Vec<char>, from: usize, to: usize) -> (r: String)
    requires
        from <= to <= v.len(),
    ensures
        r@ == v@.subrange(from as int, to as int),
{
    let mut s = String::new();
    let mut i: usize = from;
    while i < to
        invariant
            from <= i <= to <= v.len(),
            s@ == v@.subrange(from as int, i as int),
        decreases to - i,
    {
        s.push(v[i]);
        assert(v@.subrange(from as int, i + 1) =~= v@.subrange(from as int, i as int).push(v@[i as int]));
        i = i + 1;
    }
    s
}

/// An owned copy of `s`.
pub fn owned(s: &str) -> (r: String)
    ensures
        r@ == s@,
{
    s.to_owned()
}

/// Whether two strings hold the same characters.
pub fn str_eq(a: &str, b: &str) -> (r: bool)
    ensures
        r == (a@ == b@),
{
    let x = a.as_bytes();
    let y = b.as_bytes();
    proof {
        vstd::utf8::encode_utf8_decode_utf8(a@);
        vstd::utf8::encode_utf8_decode_utf8(b@);
    }
    if x.len() != y.len() {
        return false;
    }
    let mut i: usize = 0;
    while i < x.len()
        invariant
            i <= x.len(),
            x.len() == y.len(),
            x@ == a.spec_bytes(),
            y@ == b.spec_bytes(),
            forall|j: int| 0 <= j < i ==> x@[j] == y@[j],
        decreases x.len() - i,
    {
        if x[i] != y[i] {
            return false;
        }
        i = i + 1;
    }
    assert(x@ =~= y@);
    true
}

pub fn cat2(a: &str, b: &str) -> (r: String)
    ensures
        r@ == a@ + b@,
{
    let mut s = a.to_owned();
    s.append(b);
    s
}

pub fn cat3(a: &str, b: &str, c: &str) -> (r: String)
    ensures
        r@ == a@ + b@ + c@,
{
    let mut s = a.to_owned();
    s.append(b);
    s.append(c);
    s
}

pub fn cat4(a: &str, b: &str, c: &str, d: &str) -> (r: String)
    ensures
        r@ == a@ + b@ + c@ + d@,
{
    let mut s = cat3(a, b, c);
    s.append(d);
    s
}

pub fn cat5(a: &str, b: &str, c: &str, d: &str, e: &str) -> (r: String)
    ensures
        r@ == a@ + b@ + c@ + d@ + e@,
{
    let mut s = cat4(a, b, c, d);
    s.append(e);
    s
}

pub fn cat6(a: &str, b: &str, c: &str, d: &str, e: &str, f: &str) -> (r: String)
    ensures
        r@ == a@ + b@ + c@ + d@ + e@ + f@,
{
    let mut s = cat5(a, b, c, d, e);
    s.append(f);
    s
}

pub fn cat7(a: &str, b: &str, c: &str, d: &str, e: &str, f: &str, g: &str) -> (r: String)
    ensures
        r@ == a@ + b@ + c@ + d@ + e@ + f@ + g@,
{
    let mut s = cat6(a, b, c, d, e, f);
    s.append(g);
    s
}

pub fn cat8(a: &str, b: &str, c: &str, d: &str, e: &str, f: &str, g: &str, h: &str) -> (r: String)
    ensures
        r@ == a@ + b@ + c@ + d@ + e@ + f@ + g@ + h@,
{
    let mut s = cat7(a, b, c, d, e, f, g);
    s.append(h);
    s
}

/// `p` is an initial part of `s`.
pub open spec fn has_prefix(s: Seq<char>, p: Seq<char>) -> bool {
    p.len() <= s.len() && s.take(p.len() as int) == p
}

/// `p` is a final part of `s`.
pub open spec fn has_suffix(s: Seq<char>, p: Seq<char>) -> bool {
    p.len() <= s.len() && s.skip(s.len() - p.len()) == p
}

/// `p` stands somewhere in `s`.
pub open spec fn has_part(s: Seq<char>, p: Seq<char>) -> bool {
    exists|i: int| part_at(s, p, i)
}

/// `p` stands in `s` at position `i`.
pub open spec fn part_at(s: Seq<char>, p: Seq<char>, i: int) -> bool {
    0 <= i <= s.len() - p.len() && s.subrange(i, i + p.len()) == p
}

fn part_at_exec(v: &Vec<char>, p: &Vec<char>, i: usize) -> (r: bool)
    requires
        i + p.len() <= v.len(),
    ensures
        r == part_at(v@, p@, i as int),
{
    let mut j: usize = 0;
    while j < p.len()
        invariant
            j <= p.len(),
            i + p.len() <= v.len(),
            forall|k: int| 0 <= k < j ==> v@[i + k] == p@[k],
        decreases p.len() - j,
    {
        if v[i + j] != p[j] {
            assert(v@.subrange(i as int, i + p@.len())[j as int] != p@[j as int]);
            return false;
        }
        j = j + 1;
    }
    assert(v@.subrange(i as int, i + p@.len()) =~= p@);
    true
}

/// Whether `s` begins with `p`.
pub fn starts_with(s: &str, p: &str) -> (r: bool)
    ensures
        r == has_prefix(s@, p@),
{
    let v = chars_of(s);
    let w = chars_of(p);
    if w.len() > v.len() {
        return false;
    }
    assert(s@.take(p@.len() as int) =~= s@.subrange(0, 0int + p@.len()));
    part_at_exec(&v, &w, 0)
}

/// Whether `s` ends with `p`.
pub fn ends_with(s: &str, p: &str) -> (r: bool)
    ensures
        r == has_suffix(s@, p@),
{
    let v = chars_of(s);
    let w = chars_of(p);
    if w.len() > v.len() {
        return false;
    }
    assert(s@.skip(s@.len() - p@.len()) =~= s@.subrange(s@.len() - p@.len(), s@.len() - p@.len() + p@.len()));
    part_at_exec(&v, &w, v.len() - w.len())
}

/// Whether `p` stands somewhere in `s`.
pub fn contains(s: &str, p: &str) -> (r: bool)
    ensures
        r == has_part(s@, p@),
{
    let v = chars_of(s);
    let w = chars_of(p);
    if w.len() > v.len() {
        return false;
    }
    let mut i: usize = 0;
    while i <= v.len() - w.len()
        invariant
            v@ == s@,
            w@ == p@,
            w.len() <= v.len(),
            i <= v.len() - w.len() + 1,
            forall|k: int| 0 <= k < i ==> !part_at(s@, p@, k),
        decreases v.len() - w.len() + 1 - i,
    {
        if part_at_exec(&v, &w, i) {
            return true;
        }
        if i == v.len() - w.len() {
            return false;
        }
        i = i + 1;
    }
    false
}

/// `s` without its first `n` characters.
pub fn skip_chars(s: &str, n: usize) -> (r: String)
    ensures
        r@ == if n <= s@.len() { s@.skip(n as int) } else { Seq::empty() },
{
    let v = chars_of(s);
    if n <= v.len() {
        assert(s@.skip(n as int) =~= s@.subrange(n as int, s@.len() as int));
        string_of(&v, n, v.len())
    } else {
        String::new()
    }
}

/// The first `n` characters of `s`, or all of them where there are fewer.
pub open spec fn first_chars(s: Seq<char>, n: int) -> Seq<char> {
    if n <= s.len() {
        s.take(n)
    } else {
        s
    }
}

pub fn take_chars(s: &str, n: usize) -> (r: String)
    ensures
        r@ == first_chars(s@, n as int),
{
    let v = chars_of(s);
    let k: usize = if n <= v.len() { n } else { v.len() };
    assert(first_chars(s@, n as int) =~= s@.subrange(0, k as int));
    string_of(&v, 0, k)
}

/// What is left of `s` behind the prefix `p`.
pub open spec fn without_prefix(s: Seq<char>, p: Seq<char>) -> Option<Seq<char>> {
    if has_prefix(s, p) {
        Some(s.skip(p.len() as int))
    } else {
        None
    }
}

/// What is left of `s` before the suffix `p`.
pub open spec fn without_suffix(s: Seq<char>, p: Seq<char>) -> Option<Seq<char>> {
    if has_suffix(s, p) {
        Some(s.take(s.len() - p.len()))
    } else {
        None
    }
}

/// The view of an optional string.
pub open spec fn opt_view(o: Option<String>) -> Option<Seq<char>> {
    match o {
        Some(s) => Some(s@),
        None => None,
    }
}

/// The view of an optional string slice.
pub open spec fn opt_str_view(o: Option<&str>) -> Option<Seq<char>> {
    match o {
        Some(s) => Some(s@),
        None => None,
    }
}

pub fn strip_prefix(s: &str, p: &str) -> (r: Option<String>)
    ensures
        opt_view(r) == without_prefix(s@, p@),
{
    if starts_with(s, p) {
        Some(skip_chars(s, chars_of(p).len()))
    } else {
        None
    }
}

pub fn strip_suffix(s: &str, p: &str) -> (r: Option<String>)
    ensures
        opt_view(r) == without_suffix(s@, p@),
{
    if ends_with(s, p) {
        let n: usize = chars_of(s).len() - chars_of(p).len();
        Some(take_chars(s, n))
    } else {
        None
    }
}

/// The pieces of `s` between the occurrences of `c`; one piece more than
/// there are occurrences.
pub open spec fn split_at_char(s: Seq<char>, c: char) -> Seq<Seq<char>>
    decreases s.len(),
{
    if s.len() == 0 {
        seq![Seq::<char>::empty()]
    } else {
        let rest = split_at_char(s.drop_last(), c);
        if s.last() == c {
            rest.push(Seq::empty())
        } else {
            rest.drop_last().push(rest.last().push(s.last()))
        }
    }
}

/// The views of a sequence of strings.
pub open spec fn views(v: Seq<String>) -> Seq<Seq<char>> {
    Seq::new(v.len(), |i: int| v[i]@)
}

pub proof fn lemma_split_nonempty(s: Seq<char>, c: char)
    ensures
        split_at_char(s, c).len() >= 1,
    decreases s.len(),
{
    if s.len() > 0 {
        lemma_split_nonempty(s.drop_last(), c);
    }
}

/// The views of a sequence of string slices.
pub open spec fn slices(v: Seq<&str>) -> Seq<Seq<char>> {
    Seq::new(v.len(), |i: int| v[i]@)
}

/// Owned copies of some strings.
pub fn list_of(parts: Vec<&str>) -> (r: Vec<String>)
    ensures
        views(r@) == slices(parts@),
{
    let mut out: Vec<String> = Vec::new();
    let mut i: usize = 0;
    while i < parts.len()
        invariant
            i <= parts.len(),
            out.len() == i,
            forall|k: int| 0 <= k < i ==> (#[trigger] out@[k])@ == parts@[k]@,
        decreases parts.len() - i,
    {
        out.push(parts[i].to_owned());
        i = i + 1;
    }
    assert(views(out@) =~= slices(parts@));
    out
}

/// Copies of some strings.
pub fn copy_all(parts: &Vec<String>) -> (r: Vec<String>)
    ensures
        views(r@) == views(parts@),
        r@ == parts@,
{
    let mut out: Vec<String> = Vec::new();
    let mut i: usize = 0;
    while i < parts.len()
        invariant
            i <= parts.len(),
            out@ == parts@.take(i as int),
        decreases parts.len() - i,
    {
        out.push(parts[i].clone());
        assert(parts@.take(i + 1) =~= parts@.take(i as int).push(parts@[i as int]));
        i = i + 1;
    }
    assert(parts@.take(parts@.len() as int) =~= parts@);
    out
}

/// Appends a copy of `s`.
pub fn push_str(v: &mut Vec<String>, s: &str)
    ensures
        views(final(v)@) == views(old(v)@).push(s@),
{
    v.push(s.to_owned());
    assert(views(v@) =~= views(old(v)@).push(s@));
}

/// `str::split` by a character.
pub fn split(s: &str, c: char) -> (r: Vec<String>)
    ensures
        views(r@) == split_at_char(s@, c),
        r.len() >= 1,
{
    let v = chars_of(s);
    let mut out: Vec<String> = Vec::new();
    let mut cur = String::new();
    let mut i: usize = 0;
    assert(s@.take(0) =~= Seq::empty());
    assert(views(out@).push(cur@) =~= seq![Seq::<char>::empty()]);
    while i < v.len()
        invariant
            i <= v.len(),
            v@ == s@,
            views(out@).push(cur@) == split_at_char(s@.take(i as int), c),
        decreases v.len() - i,
    {
        let ghost before = views(out@).push(cur@);
        let ghost w = s@.take(i + 1);
        assert(w.drop_last() =~= s@.take(i as int));
        assert(w.last() == v@[i as int]);
        if v[i] == c {
            out.push(cur);
            cur = String::new();
            assert(views(out@) =~= before);
        } else {
            cur.push(v[i]);
            assert(before.drop_last() =~= views(out@));
        }
        assert(views(out@).push(cur@) =~= split_at_char(w, c));
        i = i + 1;
    }
    let ghost before = views(out@).push(cur@);
    out.push(cur);
    assert(views(out@) =~= before);
    assert(s@.take(s@.len() as int) =~= s@);
    out
}

/// The strings of `parts` with `sep` between each two of them.
pub open spec fn joined(parts: Seq<Seq<char>>, sep: Seq<char>) -> Seq<char>
    decreases parts.len(),
{
    if parts.len() == 0 {
        Seq::empty()
    } else if parts.len() == 1 {
        parts[0]
    } else {
        joined(parts.drop_last(), sep) + sep + parts.last()
    }
}

pub fn join(parts: &Vec<String>, sep: &str) -> (r: String)
    ensures
        r@ == joined(views(parts@), sep@),
{
    let mut s = String::new();
    let mut i: usize = 0;
    let ghost all = views(parts@);
    while i < parts.len()
        invariant
            i <= parts.len(),
            all == views(parts@),
            s@ == joined(all.take(i as int), sep@),
        decreases parts.len() - i,
    {
        assert(all.take(i + 1).drop_last() =~= all.take(i as int));
        if i > 0 {
            s.append(sep);
        }
        let ghost mid = s@;
        s.append(parts[i].as_str());
        if i == 0 {
            assert(s@ =~= all.take(1)[0]);
        }
        i = i + 1;
    }
    assert(all.take(all.len() as int) =~= all);
    s
}

/// The characters behind the last `c`, or all of `s` where there is none.
pub open spec fn after_last(s: Seq<char>, c: char) -> Seq<char>
    decreases s.len(),
{
    if s.len() == 0 || s.last() == c {
        Seq::empty()
    } else {
        after_last(s.drop_last(), c).push(s.last())
    }
}

pub proof fn lemma_after_last_at(s: Seq<char>, c: char, i: int)
    requires
        0 <= i <= s.len(),
        i == 0 || s[i - 1] == c,
        forall|k: int| i <= k < s.len() ==> s[k] != c,
    ensures
        after_last(s, c) == s.skip(i),
    decreases s.len(),
{
    if i == s.len() {
        assert(s.skip(i) =~= Seq::empty());
    } else {
        lemma_after_last_at(s.drop_last(), c, i);
        assert(s.drop_last().skip(i).push(s.last()) =~= s.skip(i));
    }
}

/// `rsplit(c).next()`: the last piece of `s`.
pub fn last_piece<'a>(s: &'a str, c: char) -> (r: &'a str)
    ensures
        r@ == after_last(s@, c),
{
    let v = chars_of(s);
    let mut i: usize = v.len();
    while i > 0 && v[i - 1] != c
        invariant
            i <= v.len(),
            v@ == s@,
            forall|k: int| i <= k < s@.len() ==> s@[k] != c,
        decreases i,
    {
        i = i - 1;
    }
    proof {
        lemma_after_last_at(s@, c, i as int);
        assert(s@.skip(i as int) =~= s@.subrange(i as int, s@.len() as int));
    }
    s.substring_char(i, v.len())
}

/// The characters that have Unicode's `White_Space` property.
pub open spec fn white_space(c: char) -> bool {
    ||| '\u{9}' <= c <= '\u{d}'
    ||| c == ' '
    ||| c == '\u{85}'
    ||| c == '\u{a0}'
    ||| c == '\u{1680}'
    ||| '\u{2000}' <= c <= '\u{200a}'
    ||| c == '\u{2028}'
    ||| c == '\u{2029}'
    ||| c == '\u{202f}'
    ||| c == '\u{205f}'
    ||| c == '\u{3000}'
}

pub fn is_white_space(c: char) -> (r: bool)
    ensures
        r == white_space(c),
{
    ('\u{9}' <= c && c <= '\u{d}') || c == ' ' || c == '\u{85}' || c == '\u{a0}' || c == '\u{1680}' || (
    '\u{2000}' <= c && c <= '\u{200a}') || c == '\u{2028}' || c == '\u{2029}' || c == '\u{202f}' || c
        == '\u{205f}' || c == '\u{3000}'
}

/// `s` without the white space at its beginning.
pub open spec fn trimmed_start(s: Seq<char>) -> Seq<char>
    decreases s.len(),
{
    if s.len() > 0 && white_space(s[0]) {
        trimmed_start(s.drop_first())
    } else {
        s
    }
}

/// `s` without the white space at its end.
pub open spec fn trimmed_end(s: Seq<char>) -> Seq<char>
    decreases s.len(),
{
    if s.len() > 0 && white_space(s.last()) {
        trimmed_end(s.drop_last())
    } else {
        s
    }
}

/// `s` without the white space at both ends.
pub open spec fn trimmed(s: Seq<char>) -> Seq<char> {
    trimmed_end(trimmed_start(s))
}

/// `str::trim`.
pub fn trim<'a>(s: &'a str) -> (r: &'a str)
    ensures
        r@ == trimmed(s@),
{
    let v = chars_of(s);
    let mut i: usize = 0;
    assert(s@.skip(0) =~= s@);
    while i < v.len() && is_white_space(v[i])
        invariant
            i <= v.len(),
            v@ == s@,
            trimmed_start(s@) == trimmed_start(s@.skip(i as int)),
        decreases v.len() - i,
    {
        assert(s@.skip(i as int).drop_first() =~= s@.skip(i + 1));
        i = i + 1;
    }
    let ghost t = s@.skip(i as int);
    assert(trimmed_start(s@) == t);
    let mut j: usize = v.len();
    assert(t.take(t.len() as int) =~= t);
    while j > i && is_white_space(v[j - 1])
        invariant
            i <= j <= v.len(),
            v@ == s@,
            t == s@.skip(i as int),
            trimmed_end(t) == trimmed_end(t.take(j - i)),
        decreases j,
    {
        assert(t.take(j - i).drop_last() =~= t.take(j - 1 - i));
        assert(t.take(j - i).last() == v@[j - 1]);
        j = j - 1;
    }
    proof {
        if j > i {
            assert(t.take(j - i).last() == v@[j - 1]);
        }
        assert(t.take(j - i) =~= s@.subrange(i as int, j as int));
    }
    s.substring_char(i, j)
}

/// The longest runs of characters that are no white space, in order.
pub open spec fn words(s: Seq<char>) -> Seq<Seq<char>>
    decreases s.len(),
{
    if s.len() == 0 {
        Seq::empty()
    } else {
        let rest = words(s.drop_last());
        if white_space(s.last()) {
            rest
        } else if s.len() == 1 || white_space(s[s.len() - 2]) {
            rest.push(seq![s.last()])
        } else {
            rest.drop_last().push(rest.last().push(s.last()))
        }
    }
}

/// `str::split_whitespace`.
pub fn split_words(s: &str) -> (r: Vec<String>)
    ensures
        views(r@) == words(s@),
{
    let v = chars_of(s);
    let mut out: Vec<String> = Vec::new();
    let mut cur = String::new();
    let mut open: bool = false;
    let mut i: usize = 0;
    assert(s@.take(0) =~= Seq::empty());
    assert(views(out@) =~= words(s@.take(0)));
    while i < v.len()
        invariant
            i <= v.len(),
            v@ == s@,
            open == (i > 0 && !white_space(s@[i - 1])),
            open ==> views(out@).push(cur@) == words(s@.take(i as int)),
            !open ==> views(out@) == words(s@.take(i as int)),
        decreases v.len() - i,
    {
        let ghost w = s@.take(i + 1);
        assert(w.drop_last() =~= s@.take(i as int));
        assert(w.last() == v@[i as int]);
        let ghost rest = words(s@.take(i as int));
        if is_white_space(v[i]) {
            if open {
                out.push(cur);
                cur = String::new();
                assert(views(out@) =~= rest);
            }
            open = false;
        } else if open {
            cur.push(v[i]);
            assert(rest.drop_last() =~= views(out@));
            assert(words(w) == views(out@).push(cur@));
        } else {
            cur = String::new();
            cur.push(v[i]);
            assert(cur@ =~= seq![w.last()]);
            open = true;
            assert(words(w) == views(out@).push(cur@));
        }
        i = i + 1;
    }
    assert(s@.take(s@.len() as int) =~= s@);
    if open {
        let ghost rest = words(s@);
        out.push(cur);
        assert(views(out@) =~= rest);
    }
    out
}

/// `n` copies of `c`.
pub open spec fn repeated(c: char, n: int) -> Seq<char> {
    Seq::new(if n > 0 { n as nat } else { 0 }, |i: int| c)
}

/// `s` filled with spaces on the right up to `w` characters.
pub open spec fn padded_right(s: Seq<char>, w: int) -> Seq<char> {
    s + repeated(' ', w - s.len())
}

/// `format!("{:<w$}", s)`.
pub fn pad_right(s: &str, w: usize) -> (r: String)
    ensures
        r@ == padded_right(s@, w as int),
{
    let n: usize = chars_of(s).len();
    let mut out = s.to_owned();
    let mut i: usize = n;
    assert(s@ + repeated(' ', 0) =~= s@);
    while i < w
        invariant
            n <= i,
            i <= w || i == n,
            n == s@.len(),
            out@ == s@ + repeated(' ', i - n),
        decreases w - i,
    {
        out.push(' ');
        assert(s@ + repeated(' ', i - n + 1) =~= (s@ + repeated(' ', i - n)).push(' '));
        i = i + 1;
    }
    assert(repeated(' ', w - n) =~= repeated(' ', i - n));
    out
}

/// `s` if it has at most `max` characters; else its beginning and an
/// ellipsis, `max` characters in all (one where `max` is 0).
pub open spec fn shortened(s: Seq<char>, max: int) -> Seq<char> {
    if s.len() <= max {
        s
    } else {
        s.take(if max > 0 { max - 1 } else { 0 }).push('…')
    }
}

pub fn shorten(s: &str, max: usize) -> (r: String)
    ensures
        r@ == shortened(s@, max as int),
{
    let n: usize = chars_of(s).len();
    if n <= max {
        s.to_owned()
    } else {
        let mut out = take_chars(s, if max > 0 { max - 1 } else { 0 });
        out.push('…');
        out
    }
}

/// `c` with an ASCII capital made small.
pub open spec fn ascii_small(c: char) -> char {
    if 'A' <= c <= 'Z' {
        (c as u32 + 32) as char
    } else {
        c
    }
}

/// `s` with its ASCII capitals made small.
pub open spec fn ascii_lower(s: Seq<char>) -> Seq<char> {
    Seq::new(s.len(), |i: int| ascii_small(s[i]))
}

/// `str::to_ascii_lowercase`.
pub fn to_ascii_lower(s: &str) -> (r: String)
    ensures
        r@ == ascii_lower(s@),
{
    let v = chars_of(s);
    let mut out = String::new();
    let mut i: usize = 0;
    while i < v.len()
        invariant
            i <= v.len(),
            v@ == s@,
            out@ == ascii_lower(s@.take(i as int)),
        decreases v.len() - i,
    {
        let c = v[i];
        if 'A' <= c && c <= 'Z' {
            let b: u8 = c as u8;
            out.push((b + 32) as char);
        } else {
            out.push(c);
        }
        assert(out@ =~= ascii_lower(s@.take(i + 1)));
        i = i + 1;
    }
    assert(s@.take(s@.len() as int) =~= s@);
    out
}

/// `a` comes before `b` in the order of their code points, character by
/// character; a proper beginning of a string comes before it.
pub open spec fn before(a: Seq<char>, b: Seq<char>) -> bool
    decreases a.len(),
{
    if b.len() == 0 {
        false
    } else if a.len() == 0 {
        true
    } else if a[0] != b[0] {
        a[0] < b[0]
    } else {
        before(a.drop_first(), b.drop_first())
    }
}

/// `a < b` on strings.
pub fn str_before(a: &str, b: &str) -> (r: bool)
    ensures
        r == before(a@, b@),
{
    let v = chars_of(a);
    let w = chars_of(b);
    let mut i: usize = 0;
    assert(a@.skip(0) =~= a@);
    assert(b@.skip(0) =~= b@);
    while i < v.len() && i < w.len() && v[i] == w[i]
        invariant
            i <= v.len(),
            i <= w.len(),
            v@ == a@,
            w@ == b@,
            before(a@, b@) == before(a@.skip(i as int), b@.skip(i as int)),
        decreases v.len() - i,
    {
        assert(a@.skip(i as int).drop_first() =~= a@.skip(i + 1));
        assert(b@.skip(i as int).drop_first() =~= b@.skip(i + 1));
        i = i + 1;
    }
    if i >= w.len() {
        false
    } else if i >= v.len() {
        true
    } else {
        v[i] < w[i]
    }
}

/// Nothing comes before itself.
pub proof fn lemma_before_irreflexive(a: Seq<char>)
    ensures
        !before(a, a),
    decreases a.len(),
{
    if a.len() > 0 {
        lemma_before_irreflexive(a.drop_first());
    }
}

/// The order of strings is transitive, also past a string that merely does
/// not come before the other.
pub proof fn lemma_before_transitive(a: Seq<char>, b: Seq<char>, c: Seq<char>)
    ensures
        !before(b, a) && !before(c, b) ==> !before(c, a),
        before(a, b) && before(b, c) ==> before(a, c),
    decreases a.len() + b.len() + c.len(),
{
    if a.len() > 0 && b.len() > 0 && c.len() > 0 {
        lemma_before_transitive(a.drop_first(), b.drop_first(), c.drop_first());
    }
}

/// Of two different strings exactly one comes before the other.
pub proof fn lemma_before_total(a: Seq<char>, b: Seq<char>)
    ensures
        a != b ==> before(a, b) || before(b, a),
        !(before(a, b) && before(b, a)),
    decreases a.len(),
{
    if a.len() > 0 && b.len() > 0 {
        lemma_before_total(a.drop_first(), b.drop_first());
        if a.drop_first() == b.drop_first() && a[0] == b[0] {
            assert(a =~= seq![a[0]] + a.drop_first());
            assert(b =~= seq![b[0]] + b.drop_first());
        }
    } else {
        if a.len() == 0 && b.len() == 0 {
            assert(a =~= b);
        }
    }
}

/// The lines of a text: what `str::lines` gives. A line ends with a line feed,
/// or with a carriage return and a line feed; the last line may lack its end.
pub open spec fn text_lines(s: Seq<char>) -> Seq<Seq<char>> {
    let parts = split_at_char(s, '\n');
    let ended = Seq::new((parts.len() - 1) as nat, |i: int| without_return(parts[i]));
    if parts.last().len() == 0 {
        ended
    } else {
        ended.push(parts.last())
    }
}

/// A line without the carriage return at its end.
pub open spec fn without_return(l: Seq<char>) -> Seq<char> {
    if l.len() > 0 && l.last() == '\r' {
        l.drop_last()
    } else {
        l
    }
}

pub fn lines(s: &str) -> (r: Vec<String>)
    ensures
        views(r@) == text_lines(s@),
{
    let parts = split(s, '\n');
    let ghost all = split_at_char(s@, '\n');
    let mut out: Vec<String> = Vec::new();
    let mut i: usize = 0;
    while i < parts.len() - 1
        invariant
            i <= parts.len() - 1,
            parts.len() >= 1,
            views(parts@) == all,
            out.len() == i,
            forall|k: int| 0 <= k < i ==> (#[trigger] out@[k])@ == without_return(all[k]),
        decreases parts.len() - i,
    {
        let l = parts[i].as_str();
        assert(l@ == all[i as int]);
        let v = chars_of(l);
        if v.len() > 0 && v[v.len() - 1] == '\r' {
            let t = take_chars(l, v.len() - 1);
            assert(t@ =~= l@.drop_last());
            out.push(t);
        } else {
            out.push(l.to_owned());
        }
        i = i + 1;
    }
    let last = parts[parts.len() - 1].as_str();
    assert(last@ == all.last());
    if !last.is_empty() {
        out.push(last.to_owned());
    }
    assert(views(out@) =~= text_lines(s@));
    out
}

/// A text, or nothing.
pub open spec fn or_empty(o: Option<String>) -> Seq<char> {
    match o {
        Some(s) => s@,
        None => ""@,
    }
}

pub fn text_or_empty(o: &Option<String>) -> (r: &str)
    ensures
        r@ == or_empty(*o),
{
    match o {
        Some(s) => s.as_str(),
        None => "",
    }
}

/// The characters of `s` in front of the first `c`, or all of `s` where there
/// is none.
pub open spec fn until(s: Seq<char>, c: char) -> Seq<char>
    decreases s.len(),
{
    if s.len() == 0 || s[0] == c {
        Seq::empty()
    } else {
        seq![s[0]] + until(s.drop_first(), c)
    }
}

/// Where the first `c` at or behind `i` stands, or the end.
pub proof fn lemma_until_at(s: Seq<char>, c: char, i: int)
    requires
        0 <= i <= s.len(),
        i == s.len() || s[i] == c,
        forall|k: int| 0 <= k < i ==> s[k] != c,
    ensures
        until(s, c) == s.take(i),
    decreases s.len(),
{
    if i == 0 {
        assert(s.take(i) =~= Seq::empty());
    } else {
        lemma_until_at(s.drop_first(), c, i - 1);
        assert(seq![s[0]] + s.drop_first().take(i - 1) =~= s.take(i));
    }
}

/// The characters of `s` in front of the first `c`.
pub fn str_until(s: &str, c: char) -> (r: String)
    ensures
        r@ == until(s@, c),
{
    let v = chars_of(s);
    let mut i: usize = 0;
    while i < v.len() && v[i] != c
        invariant
            i <= v.len(),
            forall|k: int| 0 <= k < i ==> v@[k] != c,
        decreases v.len() - i,
    {
        i = i + 1;
    }
    proof {
        lemma_until_at(s@, c, i as int);
    }
    let r = string_of(&v, 0, i);
    assert(r@ =~= s@.take(i as int));
    r
}

/// `s` with `b` in the place of every `a`.
pub open spec fn with_char(s: Seq<char>, a: char, b: char) -> Seq<char> {
    s.map_values(
        |c: char|
            if c == a {
                b
            } else {
                c
            },
    )
}

/// `s` with `b` in the place of every `a`.
pub fn change_char(s: &str, a: char, b: char) -> (r: String)
    ensures
        r@ == with_char(s@, a, b),
{
    let v = chars_of(s);
    let mut out = String::new();
    let mut i: usize = 0;
    assert(out@ =~= with_char(s@, a, b).take(0));
    while i < v.len()
        invariant
            i <= v.len(),
            v@ == s@,
            out@ == with_char(s@, a, b).take(i as int),
        decreases v.len() - i,
    {
        let ghost before = out@;
        out.push(if v[i] == a { b } else { v[i] });
        assert(out@ =~= with_char(s@, a, b).take(i + 1));
        i = i + 1;
    }
    assert(with_char(s@, a, b).take(v@.len() as int) =~= with_char(s@, a, b));
    out
}

/// `c` with an ASCII small letter made a capital.
pub open spec fn ascii_capital(c: char) -> char {
    if 'a' <= c <= 'z' {
        (c as u32 - 32) as char
    } else {
        c
    }
}

/// What `str::to_uppercase` makes of a string.
pub uninterp spec fn uppercased(s: Seq<char>) -> Seq<char>;

/// What `str::to_lowercase` makes of a string.
pub uninterp spec fn lowercased(s: Seq<char>) -> Seq<char>;

/// `str::to_uppercase`, which maps by Unicode's tables; on ASCII characters
/// it makes the small letters capitals and changes nothing else.
#[verifier::external_body]
pub(crate) fn to_upper(s: &str) -> (r: String)
    ensures
        r@ == uppercased(s@),
        vstd::utf8::is_ascii_chars(s@) ==> r@ == Seq::new(s@.len(), |i: int| ascii_capital(s@[i])),
{
    s.to_uppercase()
}

/// `str::to_lowercase`, which maps by Unicode's tables; on ASCII characters
/// it makes the capitals small letters and changes nothing else.
#[verifier::external_body]
pub(crate) fn to_lower(s: &str) -> (r: String)
    ensures
        r@ == lowercased(s@),
        vstd::utf8::is_ascii_chars(s@) ==> r@ == ascii_lower(s@),
{
    s.to_lowercase()
}

/// What `{:?}` prints of a string: the string in double quotes, with the
/// characters escaped that `str`'s `Debug` escapes.
pub uninterp spec fn quoted(s: Seq<char>) -> Seq<char>;

/// `format!("{:?}", s)`.
#[verifier::external_body]
pub(crate) fn quote(s: &str) -> (r: String)
    ensures
        r@ == quoted(s@),
{
    format!("{:?}", s)
}

/// An optional string again.
pub fn copy_opt(o: &Option<String>) -> (r: Option<String>)
    ensures
        opt_view(r) == opt_view(*o),
        r == *o,
{
    match o {
        Some(s) => Some(s.clone()),
        None => None,
    }
}

/// The length of `s` in bytes.
pub fn byte_len(s: &str) -> (r: usize)
    ensures
        r == vstd::utf8::encode_utf8(s@).len(),
{
    s.as_bytes().len()
}

/// One of `names` is `n`.
pub open spec fn among(names: Seq<String>, n: Seq<char>) -> bool {
    exists|i: int| 0 <= i < names.len() && (#[trigger] names[i])@ == n
}

/// Whether one of `names` is `n`.
pub fn is_among(names: &Vec<String>, n: &str) -> (r: bool)
    ensures
        r == among(names@, n@),
{
    let mut i: usize = 0;
    while i < names.len()
        invariant
            i <= names.len(),
            forall|k: int| 0 <= k < i ==> (#[trigger] names@[k])@ != n@,
        decreases names.len() - i,
    {
        if str_eq(names[i].as_str(), n) {
            assert(names@[i as int]@ == n@);
            return true;
        }
        i = i + 1;
    }
    false
}

/// A word: at least one character, and no white space.
pub open spec fn is_word(w: Seq<char>) -> bool {
    w.len() > 0 && forall|i: int| 0 <= i < w.len() ==> !white_space(#[trigger] w[i])
}

/// A word is the only word in itself.
pub proof fn law_word_is_one_word(w: Seq<char>)
    requires
        is_word(w),
    ensures
        words(w) == seq![w],
    decreases w.len(),
{
    let t = w.drop_last();
    if w.len() == 1 {
        assert(t =~= Seq::empty());
        assert(!white_space(w[0]));
        assert(w =~= seq![w.last()]);
        assert(words(t) =~= Seq::empty());
        assert(words(w) =~= seq![w]);
    } else {
        assert(is_word(t)) by {
            assert forall|i: int| 0 <= i < t.len() implies !white_space(#[trigger] t[i]) by {
                assert(t[i] == w[i]);
            }
        }
        law_word_is_one_word(t);
        assert(!white_space(w[w.len() - 2]));
        assert(!white_space(w[w.len() - 1]));
        assert(t.push(w.last()) =~= w);
        assert(words(w) =~= seq![w]);
    }
}

/// A word behind a space is one word more.
pub proof fn law_word_behind_a_space(s: Seq<char>, w: Seq<char>)
    requires
        is_word(w),
    ensures
        words(s + " "@ + w) == words(s).push(w),
    decreases w.len(),
{
    reveal_strlit(" ");
    let t = s + " "@ + w;
    assert(t.last() == w[w.len() - 1]);
    assert(!white_space(w[w.len() - 1]));
    if w.len() == 1 {
        assert(t.drop_last() =~= s + " "@);
        assert((s + " "@).drop_last() =~= s);
        assert(words(s + " "@) == words(s));
        assert(t[t.len() - 2] == ' ');
        assert(w =~= seq![w.last()]);
    } else {
        let v = w.drop_last();
        assert(is_word(v)) by {
            assert forall|i: int| 0 <= i < v.len() implies !white_space(#[trigger] v[i]) by {
                assert(v[i] == w[i]);
            }
        }
        law_word_behind_a_space(s, v);
        assert(t.drop_last() =~= s + " "@ + v);
        assert(t[t.len() - 2] == w[w.len() - 2]);
        assert(!white_space(w[w.len() - 2]));
        assert(v.push(w.last()) =~= w);
        assert(words(t) =~= words(s).push(w));
    }
}

/// A text that neither begins nor ends with white space is not trimmed.
pub proof fn law_trimmed_text_stays(s: Seq<char>)
    requires
        s.len() > 0 ==> !white_space(s[0]) && !white_space(s.last()),
    ensures
        trimmed(s) == s,
{
}

/// Of a text with white space around it trimming leaves what stands between.
pub proof fn law_white_space_is_trimmed(a: Seq<char>, s: Seq<char>, b: Seq<char>)
    requires
        s.len() > 0,
        !white_space(s[0]),
        !white_space(s.last()),
        forall|i: int| 0 <= i < a.len() ==> white_space(#[trigger] a[i]),
        forall|i: int| 0 <= i < b.len() ==> white_space(#[trigger] b[i]),
    ensures
        trimmed(a + s + b) == s,
    decreases a.len() + b.len(),
{
    let t = a + s + b;
    if a.len() > 0 {
        assert(white_space(a[0]));
        assert(t.drop_first() =~= a.drop_first() + s + b);
        law_white_space_is_trimmed(a.drop_first(), s, b);
    } else if b.len() > 0 {
        let c = b.drop_last();
        assert(t[0] == s[0]);
        assert((s + b)[0] == s[0]);
        assert(t.last() == b[b.len() - 1]);
        assert(t.drop_last() =~= a + s + c);
        assert((a + s + c)[0] == s[0]);
        law_white_space_is_trimmed(a, s, c);
    } else {
        assert(t =~= s);
    }
}

/// Two texts are told apart by their first different character, in the order of
/// code points; where there is none the shorter one comes first.
pub proof fn law_order_of_texts(a: Seq<char>, b: Seq<char>, k: int)
    requires
        0 <= k <= a.len(),
        k <= b.len(),
        forall|i: int| 0 <= i < k ==> a[i] == b[i],
    ensures
        k < a.len() && k < b.len() && a[k] != b[k] ==> before(a, b) == (a[k] < b[k]),
        k == a.len() ==> before(a, b) == (a.len() < b.len()),
        k == b.len() ==> !before(a, b),
    decreases k,
{
    if k > 0 {
        assert(a[0] == b[0]);
        law_order_of_texts(a.drop_first(), b.drop_first(), k - 1);
    }
}

/// A text without `c` is one piece, and each `c` begins a piece more.
pub proof fn law_pieces(s: Seq<char>, c: char, w: Seq<char>)
    requires
        !w.contains(c),
    ensures
        split_at_char(w, c) == seq![w],
        split_at_char(s + seq![c] + w, c) == split_at_char(s, c).push(w),
    decreases w.len(),
{
    let t = s + seq![c] + w;
    lemma_split_nonempty(s, c);
    if w.len() == 0 {
        assert(w =~= Seq::empty());
        assert(t.drop_last() =~= s);
    } else {
        let v = w.drop_last();
        assert(!v.contains(c)) by {
            if v.contains(c) {
                let i = choose|i: int| 0 <= i < v.len() && v[i] == c;
                assert(w[i] == c);
            }
        }
        assert(w[w.len() - 1] != c);
        law_pieces(s, c, v);
        assert(t.drop_last() =~= s + seq![c] + v);
        assert(v.push(w.last()) =~= w);
        assert(split_at_char(w, c) =~= seq![w]);
        assert(split_at_char(t, c) =~= split_at_char(s, c).push(w));
    }
}

/// To join the pieces of a text is to have the text again.
pub proof fn law_joined_pieces(s: Seq<char>, c: char)
    ensures
        joined(split_at_char(s, c), seq![c]) == s,
    decreases s.len(),
{
    if s.len() > 0 {
        let t = s.drop_last();
        law_joined_pieces(t, c);
        lemma_split_nonempty(t, c);
        let p = split_at_char(t, c);
        if s.last() == c {
            let q = p.push(Seq::empty());
            assert(q.drop_last() =~= p);
            assert(joined(q, seq![c]) =~= t.push(c));
        } else {
            let last = p.last().push(s.last());
            let q = p.drop_last().push(last);
            assert(q.drop_last() =~= p.drop_last());
            if p.len() == 1 {
                assert(joined(q, seq![c]) =~= t.push(s.last()));
            } else {
                assert(joined(q, seq![c]) =~= joined(p.drop_last(), seq![c]) + seq![c] + last);
                assert(joined(q, seq![c]) =~= t.push(s.last()));
            }
        }
        assert(t.push(s.last()) =~= s);
    }
}

/// Texts are joined in their order, with the separator between each two of them.
pub proof fn law_joined(parts: Seq<Seq<char>>, sep: Seq<char>, x: Seq<char>)
    ensures
        joined(seq![x], sep) == x,
        parts.len() > 0 ==> joined(parts.push(x), sep) == joined(parts, sep) + sep + x,
{
    assert(parts.push(x).drop_last() =~= parts);
}

/// What stands behind the last `c` is the end of the text from there on, without
/// any `c`; and a text without `c` is all of it.
pub proof fn law_after_last(s: Seq<char>, c: char, w: Seq<char>)
    requires
        !w.contains(c),
    ensures
        after_last(w, c) == w,
        after_last(s + seq![c] + w, c) == w,
{
    let t = s + seq![c] + w;
    assert forall|k: int| 0 <= k < w.len() implies w[k] != c by {
        if w[k] == c {
            assert(w.contains(c));
        }
    }
    lemma_after_last_at(w, c, 0);
    assert(w.skip(0) =~= w);
    assert forall|k: int| s.len() + 1 <= k < t.len() implies t[k] != c by {
        assert(t[k] == w[k - s.len() - 1]);
    }
    lemma_after_last_at(t, c, s.len() as int + 1);
    assert(t.skip(s.len() as int + 1) =~= w);
}

/// What stands in front of the first `c` is the beginning of the text up to there,
/// without any `c`; and a text without `c` is all of it.
pub proof fn law_until_first(w: Seq<char>, c: char, s: Seq<char>)
    requires
        !w.contains(c),
    ensures
        until(w, c) == w,
        until(w + seq![c] + s, c) == w,
{
    let t = w + seq![c] + s;
    assert forall|k: int| 0 <= k < w.len() implies w[k] != c by {
        if w[k] == c {
            assert(w.contains(c));
        }
    }
    lemma_until_at(w, c, w.len() as int);
    assert(w.take(w.len() as int) =~= w);
    assert forall|k: int| 0 <= k < w.len() implies t[k] != c by {
        assert(t[k] == w[k]);
    }
    lemma_until_at(t, c, w.len() as int);
    assert(t.take(w.len() as int) =~= w);
}

/// A text that is too long is cut to its beginning, with an ellipsis in the place of
/// the rest; a shorter one stays as it is.
pub proof fn law_shortened(s: Seq<char>, max: int)
    requires
        max > 0,
    ensures
        s.len() <= max ==> shortened(s, max) == s,
        s.len() > max ==> shortened(s, max).len() == max && shortened(s, max).last() == '…' && forall|i: int|
            0 <= i < max - 1 ==> shortened(s, max)[i] == s[i],
{
}

/// Padding keeps the text at the left and fills it up with spaces.
pub proof fn law_padded(s: Seq<char>, w: int)
    ensures
        has_prefix(padded_right(s, w), s),
        s.len() <= w ==> padded_right(s, w).len() == w,
        s.len() >= w ==> padded_right(s, w) == s,
        forall|i: int| s.len() <= i < padded_right(s, w).len() ==> padded_right(s, w)[i] == ' ',
{
    assert(padded_right(s, w).take(s.len() as int) =~= s);
    if s.len() >= w {
        assert(padded_right(s, w) =~= s);
    }
}

/// Making letters small touches ASCII capitals only.
pub proof fn law_ascii_lower(s: Seq<char>, i: int)
    requires
        0 <= i < s.len(),
    ensures
        ascii_lower(s).len() == s.len(),
        !('A' <= s[i] <= 'Z') ==> ascii_lower(s)[i] == s[i],
        s[i] == 'A' ==> ascii_lower(s)[i] == 'a',
        s[i] == 'E' ==> ascii_lower(s)[i] == 'e',
        s[i] == 'Z' ==> ascii_lower(s)[i] == 'z',
        'A' <= s[i] <= 'Z' ==> 'a' <= ascii_lower(s)[i] <= 'z' && ascii_lower(s)[i] as int - s[i] as int == 'a' as int
            - 'A' as int,
{
}

/// What stands between two texts is a part of the whole; what comes first or last is
/// its beginning or its end.
pub proof fn law_part_of_a_text(a: Seq<char>, p: Seq<char>, b: Seq<char>)
    ensures
        has_part(a + p + b, p),
        has_prefix(a + p, a),
        has_suffix(a + p, p),
        without_prefix(a + p, a) == Some(p),
        without_suffix(a + p, p) == Some(a),
{
    let t = a + p + b;
    let i = a.len() as int;
    assert(t.subrange(i, i + p.len()) =~= p);
    assert(part_at(t, p, i));
    assert((a + p).take(i) =~= a);
    assert((a + p).skip(i) =~= p);
}

/// What is a part of a text is found in it, character by character, at some place.
pub proof fn law_parts_are_found(s: Seq<char>, p: Seq<char>)
    ensures
        has_part(s, p) <==> exists|a: Seq<char>, b: Seq<char>| s == #[trigger] (a + p + b),
        has_prefix(s, p) <==> exists|b: Seq<char>| s == #[trigger] (p + b),
        has_suffix(s, p) <==> exists|a: Seq<char>| s == #[trigger] (a + p),
{
    if has_part(s, p) {
        let i = choose|i: int| part_at(s, p, i);
        assert(s =~= s.take(i) + p + s.skip(i + p.len()));
    }
    if exists|a: Seq<char>, b: Seq<char>| s == #[trigger] (a + p + b) {
        let (a, b) = choose|a: Seq<char>, b: Seq<char>| s == #[trigger] (a + p + b);
        law_part_of_a_text(a, p, b);
    }
    if has_prefix(s, p) {
        assert(s =~= p + s.skip(p.len() as int));
    }
    if exists|b: Seq<char>| s == #[trigger] (p + b) {
        let b = choose|b: Seq<char>| s == #[trigger] (p + b);
        law_part_of_a_text(p, b, b);
    }
    if has_suffix(s, p) {
        assert(s =~= s.take(s.len() - p.len()) + p);
    }
    if exists|a: Seq<char>| s == #[trigger] (a + p) {
        let a = choose|a: Seq<char>| s == #[trigger] (a + p);
        law_part_of_a_text(a, p, p);
    }
}

} // verus!
