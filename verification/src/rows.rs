//! Lists whose rows take several lines: where a row is on the screen, and how
//! far a list can be scrolled.

use vstd::prelude::*;

use crate::screen;
use crate::screen::{color, line1, Color, Line};
use crate::text;
use crate::text::{cat3, chars_of};

verus! {

/// The part of a row that is on the screen: the list is scrolled by `scroll`
/// lines, and its part on the screen begins at line `y` and has `height` lines.
pub open spec fn hit_on_screen(i: int, from: int, to: int, scroll: int, y: int, height: int) -> Option<
    (usize, u16, u16),
> {
    if to <= scroll || from >= scroll + height {
        None
    } else {
        let top = y + (if from > scroll {
            from - scroll
        } else {
            0
        });
        let bottom = y + (to - scroll);
        Some(
            (
                i as usize,
                top as u16,
                (if bottom <= y + height {
                    bottom
                } else {
                    y + height
                }) as u16,
            ),
        )
    }
}

/// The first `n` rows that are on the screen, where row `i` takes the lines from
/// `end(i)` to `end(i + 1)`.
pub open spec fn hits(end: spec_fn(int) -> int, n: int, scroll: int, y: int, height: int) -> Seq<
    (usize, u16, u16),
>
    decreases n,
{
    if n <= 0 {
        Seq::empty()
    } else {
        let rest = hits(end, n - 1, scroll, y, height);
        match hit_on_screen(n - 1, end(n - 1), end(n), scroll, y, height) {
            Some(h) => rest.push(h),
            None => rest,
        }
    }
}

/// The scroll offset, cut down to what there is to scroll.
pub open spec fn clamped_scroll(scroll: int, total: int, height: int) -> int {
    let most = if total > height {
        total - height
    } else {
        0
    };
    if scroll > most {
        most
    } else {
        scroll
    }
}

/// Cuts a scroll offset down to what there is to scroll.
pub fn clamp_scroll(scroll: u16, total: usize, height: u16) -> (r: u16)
    ensures
        r == clamped_scroll(scroll as int, total as int, height as int),
{
    let h: usize = height as usize;
    let most: usize = if total > h { total - h } else { 0 };
    if scroll as usize > most {
        most as u16
    } else {
        scroll
    }
}

/// Where the rows are on the screen; `bounds` holds where each row begins, and
/// where the last one ends.
pub fn rows_on_screen(
    bounds: &Vec<usize>,
    scroll: u16,
    y: u16,
    height: u16,
    Ghost(end): Ghost<spec_fn(int) -> int>,
) -> (r: Vec<(usize, u16, u16)>)
    requires
        bounds.len() > 0,
        forall|i: int| 0 <= i < bounds.len() ==> (#[trigger] bounds@[i]) == end(i),
        forall|i: int| 0 <= i < bounds.len() - 1 ==> #[trigger] end(i) <= end(i + 1),
        y + height <= u16::MAX,
    ensures
        r@ == hits(end, bounds.len() - 1, scroll as int, y as int, height as int),
{
    let n: usize = bounds.len() - 1;
    let s: usize = scroll as usize;
    let h: usize = height as usize;
    let mut out: Vec<(usize, u16, u16)> = Vec::new();
    let mut k: usize = 0;
    while k < n
        invariant
            k <= n,
            n == bounds.len() - 1,
            s == scroll,
            h == height,
            forall|i: int| 0 <= i < bounds.len() ==> (#[trigger] bounds@[i]) == end(i),
            forall|i: int| 0 <= i < bounds.len() - 1 ==> #[trigger] end(i) <= end(i + 1),
            y + height <= u16::MAX,
            out@ == hits(end, k as int, scroll as int, y as int, height as int),
        decreases n - k,
    {
        let from: usize = bounds[k];
        let to: usize = bounds[k + 1];
        assert(end(k as int) <= end(k + 1));
        if !(to <= s || from >= s + h) {
            let top: usize = (y as usize) + if from > s { from - s } else { 0 };
            let shown: usize = if to - s <= h { to - s } else { h };
            let bottom: usize = (y as usize) + shown;
            out.push((k, top as u16, bottom as u16));
        }
        k = k + 1;
    }
    out
}

/// The row on the screen that has the line `y`, if there is one.
pub open spec fn row_hit(hits: Seq<(usize, u16, u16)>, y: u16) -> Option<usize>
    decreases hits.len(),
{
    if hits.len() == 0 {
        None
    } else if hits[0].1 <= y < hits[0].2 {
        Some(hits[0].0)
    } else {
        row_hit(hits.drop_first(), y)
    }
}

/// Finds the row on the screen that has the line `y`.
pub fn find_row(hits: &Vec<(usize, u16, u16)>, y: u16) -> (r: Option<usize>)
    ensures
        r == row_hit(hits@, y),
{
    let mut i: usize = 0;
    assert(hits@.skip(0) =~= hits@);
    while i < hits.len()
        invariant
            i <= hits.len(),
            row_hit(hits@, y) == row_hit(hits@.skip(i as int), y),
        decreases hits.len() - i,
    {
        assert(hits@.skip(i as int).drop_first() =~= hits@.skip(i + 1));
        if hits[i].1 <= y && y < hits[i].2 {
            return Some(hits[i].0);
        }
        i = i + 1;
    }
    None
}

/// A scroll offset moved down by the mouse wheel.
pub open spec fn scrolled_down(scroll: int) -> int {
    if scroll + 3 > u16::MAX {
        u16::MAX as int
    } else {
        scroll + 3
    }
}

/// A scroll offset moved up by the mouse wheel.
pub open spec fn scrolled_up(scroll: int) -> int {
    if scroll < 3 {
        0
    } else {
        scroll - 3
    }
}

/// The region at the right of the status line.
pub open spec fn region_text(region: Option<Seq<char>>) -> Seq<char> {
    " "@ + (match region {
        Some(r) => r,
        None => "(aws default)"@,
    }) + " "@
}

/// The region at the right of the status line.
pub fn region_line(region: &Option<String>) -> (r: Line)
    ensures
        r@ == seq![(region_text(text::opt_view(*region)), screen::colored(Color::Yellow))],
{
    let t = match region {
        Some(r) => cat3(" ", r.as_str(), " "),
        None => cat3(" ", "(aws default)", " "),
    };
    line1(t.as_str(), color(Color::Yellow))
}

/// How a status line of `width` columns is split: the region's width, counted
/// modulo two to the sixteenth, and what it leaves.
pub fn split_status(region: &Option<String>, width: u16) -> (r: (u16, u16))
    ensures
        r.1 == region_text(text::opt_view(*region)).len() % 0x1_0000,
        r.0 == (if width >= r.1 {
            width - r.1
        } else {
            0
        }),
{
    let t = match region {
        Some(r) => cat3(" ", r.as_str(), " "),
        None => cat3(" ", "(aws default)", " "),
    };
    let w: u16 = (chars_of(t.as_str()).len() % 0x1_0000) as u16;
    (width.saturating_sub(w), w)
}

/// However far the list was scrolled, drawing it stops at its end.
pub proof fn law_scroll_stops_at_the_end(scroll: int, total: int, height: int)
    requires
        0 <= scroll,
        0 <= total,
        0 <= height,
    ensures
        0 <= clamped_scroll(scroll, total, height) <= scroll,
        total <= height ==> clamped_scroll(scroll, total, height) == 0,
        total > height ==> clamped_scroll(scroll, total, height) + height <= total,
{
}

/// The lines of the screen that a row has are those on which its lines are drawn.
pub proof fn law_hit_covers_the_row(i: int, from: int, to: int, scroll: int, y: int, height: int, l: int)
    requires
        0 <= i <= usize::MAX,
        0 <= from <= to,
        0 <= scroll,
        0 <= y,
        0 <= height,
        y + height <= u16::MAX,
        scroll <= l < scroll + height,
    ensures
        ({
            let h = hit_on_screen(i, from, to, scroll, y, height);
            &&& from <= l < to ==> h is Some && (h->0).0 == i && (h->0).1 <= y + l - scroll < (h->0).2
            &&& h is Some && (h->0).1 <= y + l - scroll < (h->0).2 ==> from <= l < to
        }),
{
}

/// The row that is found at a line is one that has this line, and no row is found
/// exactly where none has it.
pub proof fn law_found_row_has_the_line(hits: Seq<(usize, u16, u16)>, y: u16)
    ensures
        row_hit(hits, y) is Some ==> exists|k: int|
            0 <= k < hits.len() && (#[trigger] hits[k]).0 == row_hit(hits, y)->0 && hits[k].1 <= y < hits[k].2,
        row_hit(hits, y) is None ==> forall|k: int| 0 <= k < hits.len() ==> !((#[trigger] hits[k]).1 <= y < hits[k].2),
    decreases hits.len(),
{
    if hits.len() > 0 && !(hits[0].1 <= y < hits[0].2) {
        let t = hits.drop_first();
        law_found_row_has_the_line(t, y);
        if row_hit(t, y) is Some {
            let k = choose|k: int| 0 <= k < t.len() && (#[trigger] t[k]).0 == row_hit(t, y)->0 && t[k].1 <= y < t[k].2;
            assert(hits[k + 1] == t[k]);
        } else {
            assert forall|k: int| 0 <= k < hits.len() implies !((#[trigger] hits[k]).1 <= y < hits[k].2) by {
                if k > 0 {
                    assert(hits[k] == t[k - 1]);
                }
            }
        }
    } else if hits.len() > 0 {
        assert(hits[0].0 == row_hit(hits, y)->0);
    }
}

/// A scroll position that leaves the screen full stays as it is; one beyond goes back
/// as far as it has to. The wheel scrolls by three lines.
pub proof fn law_scrolling_by_lines(scroll: int, total: int, height: int)
    requires
        0 <= scroll <= u16::MAX,
    ensures
        scroll + height <= total ==> clamped_scroll(scroll, total, height) == scroll,
        scroll + height > total >= height ==> clamped_scroll(scroll, total, height) == total - height,
        scroll + 3 <= u16::MAX ==> scrolled_down(scroll) == scroll + 3,
        scroll >= 3 ==> scrolled_up(scroll) == scroll - 3,
        scroll < 3 ==> scrolled_up(scroll) == 0,
{
}

/// The region that is shown is the one that is set.
pub proof fn law_region_is_shown(r: Seq<char>)
    ensures
        region_text(Some(r)) == " "@ + r + " "@,
        region_text(None) == " "@ + "(aws default)"@ + " "@,
{
}

proof fn lemma_hit_behind(s: Seq<(usize, u16, u16)>, h: (usize, u16, u16), y: u16)
    ensures
        row_hit(s, y) is Some ==> row_hit(s.push(h), y) == row_hit(s, y),
        row_hit(s, y) is None && h.1 <= y < h.2 ==> row_hit(s.push(h), y) == Some(h.0),
        row_hit(s, y) is None && !(h.1 <= y < h.2) ==> row_hit(s.push(h), y) is None,
    decreases s.len(),
{
    let p = s.push(h);
    if s.len() == 0 {
        assert(p[0] == h);
        assert(p.drop_first().len() == 0);
        assert(row_hit(p.drop_first(), y) is None);
    } else {
        assert(p[0] == s[0]);
        assert(p.drop_first() =~= s.drop_first().push(h));
        lemma_hit_behind(s.drop_first(), h, y);
    }
}

proof fn lemma_ends(end: spec_fn(int) -> int, i: int, j: int)
    requires
        0 <= i <= j,
        forall|k: int| 0 <= k ==> #[trigger] end(k) <= end(k + 1),
    ensures
        end(i) <= end(j),
    decreases j - i,
{
    if i < j {
        lemma_ends(end, i, j - 1);
        assert(end(j - 1) <= end(j - 1 + 1));
    }
}

/// The row that is found on a line of the screen is the one that is drawn there.
pub proof fn law_row_on_a_line(end: spec_fn(int) -> int, n: int, scroll: int, y: int, height: int, i: int, l: int)
    requires
        0 <= n <= usize::MAX,
        0 <= end(0),
        forall|k: int| 0 <= k ==> #[trigger] end(k) <= end(k + 1),
        0 <= scroll,
        0 <= y,
        0 <= height,
        y + height <= u16::MAX,
        scroll <= l < scroll + height,
        0 <= i,
        end(i) <= l < end(i + 1),
    ensures
        i < n ==> row_hit(hits(end, n, scroll, y, height), (y + l - scroll) as u16) == Some(i as usize),
        i >= n ==> row_hit(hits(end, n, scroll, y, height), (y + l - scroll) as u16) is None,
    decreases n,
{
    if n > 0 {
        law_row_on_a_line(end, n - 1, scroll, y, height, i, l);
        let rest = hits(end, n - 1, scroll, y, height);
        let h = hit_on_screen(n - 1, end(n - 1), end(n), scroll, y, height);
        lemma_ends(end, 0, n - 1);
        assert(end(n - 1) <= end(n - 1 + 1));
        law_hit_covers_the_row(n - 1, end(n - 1), end(n), scroll, y, height, l);
        if i < n - 1 {
            lemma_ends(end, i + 1, n - 1);
        } else if i > n - 1 {
            lemma_ends(end, n, i);
        }
        if h is Some {
            lemma_hit_behind(rest, h->0, (y + l - scroll) as u16);
        }
    }
}

} // verus!
