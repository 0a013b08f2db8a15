//! Places in a text, counted in bytes and in characters.

use vstd::prelude::*;
use vstd::string::*;
use vstd::utf8::*;

use crate::text;
use crate::text::{byte_len, chars_of};

verus! {

/// The byte offset of the place behind the first `p` characters.
pub open spec fn byte_offset(text: Seq<char>, p: int) -> nat {
    encode_utf8(text.take(p)).len()
}

/// `cursor` is the byte offset of the place behind the first `p` characters.
pub open spec fn stands_at(text: Seq<char>, cursor: int, p: int) -> bool {
    0 <= p <= text.len() && cursor == byte_offset(text, p)
}

/// `cursor` stands between two characters of `text`, or at one of its ends.
pub open spec fn on_boundary(text: Seq<char>, cursor: int) -> bool {
    exists|p: int| stands_at(text, cursor, p)
}

/// How many characters stand in front of `cursor`.
pub open spec fn char_pos(text: Seq<char>, cursor: int) -> int {
    choose|p: int| stands_at(text, cursor, p)
}

pub proof fn lemma_encode_concat(a: Seq<char>, b: Seq<char>)
    ensures
        encode_utf8(a + b) == encode_utf8(a) + encode_utf8(b),
    decreases a.len(),
{
    if a.len() == 0 {
        assert(a + b =~= b);
        assert(encode_utf8(a) =~= Seq::<u8>::empty());
        assert(encode_utf8(a) + encode_utf8(b) =~= encode_utf8(b));
    } else {
        lemma_encode_concat(a.drop_first(), b);
        assert((a + b).drop_first() =~= a.drop_first() + b);
        assert(encode_utf8(a + b) =~= encode_utf8(a) + encode_utf8(b));
    }
}

pub proof fn lemma_offset_step(text: Seq<char>, p: int)
    requires
        0 <= p < text.len(),
    ensures
        byte_offset(text, p + 1) == byte_offset(text, p) + encode_scalar(text[p] as u32).len(),
        encode_scalar(text[p] as u32).len() >= 1,
{
    let one = seq![text[p]];
    assert(text.take(p + 1) =~= text.take(p) + one);
    lemma_encode_concat(text.take(p), one);
    assert(one.drop_first() =~= Seq::empty());
    assert(encode_utf8(one.drop_first()) =~= Seq::<u8>::empty());
    assert(encode_utf8(one) =~= encode_scalar(text[p] as u32));
}

pub proof fn lemma_offset_monotone(text: Seq<char>, p: int, q: int)
    requires
        0 <= p <= q <= text.len(),
    ensures
        byte_offset(text, p) + (q - p) <= byte_offset(text, q),
    decreases q - p,
{
    if p < q {
        lemma_offset_step(text, q - 1);
        lemma_offset_monotone(text, p, q - 1);
    }
}

/// A cursor stands at one place only.
pub proof fn lemma_char_pos(text: Seq<char>, cursor: int, p: int)
    requires
        stands_at(text, cursor, p),
    ensures
        on_boundary(text, cursor),
        char_pos(text, cursor) == p,
{
    let q = char_pos(text, cursor);
    assert(stands_at(text, cursor, q));
    if p < q {
        lemma_offset_monotone(text, p, q);
    } else if q < p {
        lemma_offset_monotone(text, q, p);
    }
}

/// How many bytes a character takes.
fn char_bytes(c: char) -> (r: usize)
    ensures
        r == encode_scalar(c as u32).len(),
{
    let n: u32 = c as u32;
    if n < 0x80 {
        1
    } else if n < 0x800 {
        2
    } else if n < 0x10000 {
        3
    } else {
        4
    }
}

/// How many characters of `v` stand in front of the byte offset `cursor`.
pub fn pos_of(v: &Vec<char>, cursor: usize) -> (r: usize)
    requires
        on_boundary(v@, cursor as int),
    ensures
        r == char_pos(v@, cursor as int),
        stands_at(v@, cursor as int, r as int),
{
    let ghost p = char_pos(v@, cursor as int);
    let mut i: usize = 0;
    let mut off: usize = 0;
    assert(v@.take(0) =~= Seq::empty());
    assert(encode_utf8(Seq::<char>::empty()) =~= Seq::<u8>::empty());
    while off < cursor
        invariant
            stands_at(v@, cursor as int, p),
            0 <= i <= p,
            p <= v.len(),
            off == byte_offset(v@, i as int),
            off <= cursor,
        decreases cursor - off,
    {
        assert(i < p);
        proof {
            lemma_offset_step(v@, i as int);
            lemma_offset_monotone(v@, i + 1, p);
        }
        off = off + char_bytes(v[i]);
        i = i + 1;
    }
    proof {
        lemma_offset_monotone(v@, i as int, p);
    }
    i
}

/// The byte offset of the place behind the first `p` characters of `s`.
pub fn offset_of(s: &str, p: usize) -> (r: usize)
    requires
        p <= s@.len(),
    ensures
        r == byte_offset(s@, p as int),
        stands_at(s@, r as int, p as int),
{
    let part = s.substring_char(0, p);
    assert(part@ =~= s@.take(p as int));
    byte_len(part)
}

/// The longest beginning of a text that takes no more than `max` bytes.
pub open spec fn within_bytes(s: Seq<char>, max: int) -> Seq<char>
    decreases s.len(),
{
    if s.len() == 0 || encode_utf8(s).len() <= max {
        s
    } else {
        within_bytes(s.drop_last(), max)
    }
}

proof fn lemma_within_bytes(s: Seq<char>, max: int, p: int)
    requires
        0 <= p <= s.len(),
        byte_offset(s, p) <= max,
        p == s.len() || byte_offset(s, p + 1) > max,
    ensures
        within_bytes(s, max) == s.take(p),
    decreases s.len(),
{
    assert(s.take(s.len() as int) =~= s);
    if p < s.len() {
        lemma_offset_monotone(s, p + 1, s.len() as int);
        let t = s.drop_last();
        assert(t.take(p) =~= s.take(p));
        if p + 1 <= t.len() {
            assert(t.take(p + 1) =~= s.take(p + 1));
        }
        lemma_within_bytes(t, max, p);
    }
}

pub proof fn lemma_within_bytes_fits(s: Seq<char>, max: int)
    requires
        max >= 0,
    ensures
        encode_utf8(within_bytes(s, max)).len() <= max,
    decreases s.len(),
{
    if s.len() == 0 {
        assert(encode_utf8(s) =~= Seq::<u8>::empty());
    } else if encode_utf8(s).len() > max {
        lemma_within_bytes_fits(s.drop_last(), max);
    }
}

/// The longest beginning of a text that takes no more than `max` bytes.
pub fn keep_bytes<'a>(s: &'a str, max: usize) -> (r: &'a str)
    ensures
        r@ == within_bytes(s@, max as int),
{
    let v = chars_of(s);
    let mut i: usize = 0;
    let mut room: usize = max;
    assert(v@.take(0) =~= Seq::empty());
    assert(encode_utf8(Seq::<char>::empty()) =~= Seq::<u8>::empty());
    while i < v.len() && char_bytes(v[i]) <= room
        invariant
            i <= v.len(),
            room <= max,
            byte_offset(v@, i as int) == max - room,
        decreases v.len() - i,
    {
        proof {
            lemma_offset_step(v@, i as int);
        }
        room = room - char_bytes(v[i]);
        i = i + 1;
    }
    proof {
        if i < v.len() {
            lemma_offset_step(v@, i as int);
        }
        lemma_within_bytes(s@, max as int, i as int);
    }
    let part = s.substring_char(0, i);
    assert(part@ =~= s@.take(i as int));
    part
}

/// The first `n` bytes of a text, where they end between two characters.
pub open spec fn first_bytes(s: Seq<char>, n: int) -> Option<Seq<char>> {
    if on_boundary(s, n) {
        Some(s.take(char_pos(s, n)))
    } else {
        None
    }
}

/// The first `n` bytes of a text, where they end between two characters.
pub fn take_bytes<'a>(s: &'a str, n: usize) -> (r: Option<&'a str>)
    ensures
        text::opt_str_view(r) == first_bytes(s@, n as int),
{
    if !is_boundary(s, n) {
        return None;
    }
    let v = chars_of(s);
    let p: usize = pos_of(&v, n);
    let part = s.substring_char(0, p);
    assert(part@ =~= s@.take(p as int));
    Some(part)
}

/// Whether a byte offset lies between two characters of a text, or at one of its
/// ends.
pub fn is_boundary(s: &str, n: usize) -> (r: bool)
    ensures
        r == on_boundary(s@, n as int),
{
    let v = chars_of(s);
    let total: usize = byte_len(s);
    assert(v@.take(v@.len() as int) =~= s@);
    let mut i: usize = 0;
    let mut off: usize = 0;
    assert(v@.take(0) =~= Seq::empty());
    assert(encode_utf8(Seq::<char>::empty()) =~= Seq::<u8>::empty());
    while i < v.len() && off < n
        invariant
            v@ == s@,
            i <= v.len(),
            off == byte_offset(v@, i as int),
            byte_offset(v@, v@.len() as int) == total,
            forall|p: int| 0 <= p < i ==> byte_offset(v@, p) < n,
        decreases v.len() - i,
    {
        proof {
            lemma_offset_step(v@, i as int);
            lemma_offset_monotone(v@, i + 1, v@.len() as int);
        }
        off = off + char_bytes(v[i]);
        i = i + 1;
    }
    proof {
        if off == n {
            assert(stands_at(s@, n as int, i as int));
        } else if on_boundary(s@, n as int) {
            let p = char_pos(s@, n as int);
            assert(stands_at(s@, n as int, p));
            if p > i {
                lemma_offset_monotone(v@, i as int, p);
            } else if p < i {
                assert(byte_offset(v@, p) < n);
            }
        }
    }
    off == n
}

/// In a text of ASCII characters the bytes are the characters.
pub proof fn law_first_bytes_of_plain_text(s: Seq<char>, n: int)
    requires
        vstd::utf8::is_ascii_chars(s),
        0 <= n,
    ensures
        n <= s.len() ==> first_bytes(s, n) == Some(s.take(n)),
        n > s.len() ==> first_bytes(s, n) is None,
{
    if n <= s.len() {
        assert(vstd::utf8::is_ascii_chars(s.take(n)));
        vstd::utf8::is_ascii_chars_encode_utf8(s.take(n));
        assert(stands_at(s, n, n));
        lemma_char_pos(s, n, n);
    } else if on_boundary(s, n) {
        let p = choose|p: int| stands_at(s, n, p);
        assert(vstd::utf8::is_ascii_chars(s.take(p)));
        vstd::utf8::is_ascii_chars_encode_utf8(s.take(p));
    }
}

/// What is kept of a text within a number of bytes is its longest beginning that fits.
pub proof fn law_longest_beginning(s: Seq<char>, max: int)
    requires
        max >= 0,
    ensures
        ({
            let k = within_bytes(s, max);
            &&& k.len() <= s.len() && s.take(k.len() as int) == k
            &&& encode_utf8(k).len() <= max
            &&& k.len() < s.len() ==> encode_utf8(s.take(1int + k.len())).len() > max
        }),
    decreases s.len(),
{
    lemma_within_bytes_fits(s, max);
    assert(s.take(s.len() as int) =~= s);
    if s.len() > 0 && encode_utf8(s).len() > max {
        let t = s.drop_last();
        law_longest_beginning(t, max);
        let k = within_bytes(t, max);
        assert(s.take(k.len() as int) =~= t.take(k.len() as int));
        if k.len() < t.len() {
            assert(s.take(1int + k.len()) =~= t.take(1int + k.len()));
        } else {
            assert(s.take(1int + k.len()) =~= s);
        }
    }
}

} // verus!
