//! Keys and mouse events, as the browsers know them.

use vstd::prelude::*;

verus! {

/// A key.
#[derive(Clone, Copy, Debug, PartialEq, Eq, Structural)]
pub enum Key {
    Char(char),
    Enter,
    Esc,
    Tab,
    BackTab,
    Backspace,
    Delete,
    Up,
    Down,
    Left,
    Right,
    Home,
    End,
    PageUp,
    PageDown,
    Other,
}

/// What the mouse did.
#[derive(Clone, Copy, Debug, PartialEq, Eq, Structural)]
pub enum Mouse {
    /// The left button went down.
    Press,
    /// The right button went down.
    RightPress,
    ScrollUp,
    ScrollDown,
    Other,
}

/// `x` moved by `delta`, kept between 0 and `n - 1`.
pub open spec fn clamped(x: int, delta: int, n: int) -> int {
    let y = x + delta;
    if y < 0 {
        0
    } else if y > n - 1 {
        n - 1
    } else {
        y
    }
}

/// A selection among `n` rows, moved by `delta`: it stops at the first and at
/// the last row.
pub fn clamp_selection(selected: usize, delta: isize, n: usize) -> (r: usize)
    requires
        n > 0,
    ensures
        r == clamped(selected as int, delta as int, n as int),
        r < n,
{
    let y: i128 = (selected as i128) + (delta as i128);
    if y < 0 {
        0
    } else if y > (n as i128) - 1 {
        n - 1
    } else {
        y as usize
    }
}

/// `selected`, or the last of `n` rows where there are not so many.
pub open spec fn kept(selected: int, n: int) -> int {
    if n == 0 {
        0
    } else if selected > n - 1 {
        n - 1
    } else {
        selected
    }
}

pub fn keep_selection(selected: usize, n: usize) -> (r: usize)
    ensures
        r == kept(selected as int, n as int),
{
    if n == 0 {
        0
    } else if selected > n - 1 {
        n - 1
    } else {
        selected
    }
}

/// Wherever a selection is moved, it ends on a row.
pub proof fn law_clamped_in_range(selected: int, delta: int, n: int)
    requires
        n > 0,
    ensures
        0 <= clamped(selected, delta, n) < n,
        0 <= selected + delta < n ==> clamped(selected, delta, n) == selected + delta,
{
}

/// What a key does in a browser with tabs, whatever it lists.
#[derive(Clone, Copy, Debug, PartialEq, Eq, Structural)]
pub enum Common {
    Quit,
    /// Move the selection.
    Move(isize),
    /// Show a tab.
    Tab(usize),
    Refresh,
    /// Open the page of the selected item.
    Open,
    /// Nothing that all browsers know.
    Other,
}

/// The tab behind `active`; the first one behind the last.
pub open spec fn next_tab(active: int, tabs: int) -> int {
    if active + 1 < tabs {
        active + 1
    } else {
        0
    }
}

/// The tab in front of `active`; the last one in front of the first.
pub open spec fn previous_tab(active: int, tabs: int) -> int {
    if active == 0 {
        tabs - 1
    } else {
        active - 1
    }
}

/// What a key does, with tab `active` of `tabs` shown.
pub open spec fn common(key: Key, ctrl: bool, active: int, tabs: int) -> Common {
    match key {
        Key::Char(c) => if c == 'q' || (c == 'c' && ctrl) {
            Common::Quit
        } else if c == 'k' {
            Common::Move(-1 as isize)
        } else if c == 'j' {
            Common::Move(1)
        } else if c == 'g' {
            Common::Move(-0x7fff_ffff as isize)
        } else if c == 'G' {
            Common::Move(0x7fff_ffff)
        } else if c == 'o' {
            Common::Open
        } else if c == 'r' {
            Common::Refresh
        } else if '1' <= c && c <= '9' {
            Common::Tab((c as int - '1' as int) as usize)
        } else {
            Common::Other
        },
        Key::Up => Common::Move(-1 as isize),
        Key::Down => Common::Move(1),
        Key::PageUp => Common::Move(-10 as isize),
        Key::PageDown => Common::Move(10),
        Key::Home => Common::Move(-0x7fff_ffff as isize),
        Key::End => Common::Move(0x7fff_ffff),
        Key::Enter => Common::Open,
        Key::Tab => Common::Tab(next_tab(active, tabs) as usize),
        Key::BackTab => Common::Tab(previous_tab(active, tabs) as usize),
        _ => Common::Other,
    }
}

/// What a key does, with tab `active` of `tabs` shown.
pub fn common_of(key: Key, ctrl: bool, active: usize, tabs: usize) -> (r: Common)
    requires
        active < tabs,
    ensures
        r == common(key, ctrl, active as int, tabs as int),
{
    match key {
        Key::Char(c) => {
            if c == 'q' || (c == 'c' && ctrl) {
                Common::Quit
            } else if c == 'k' {
                Common::Move(-1)
            } else if c == 'j' {
                Common::Move(1)
            } else if c == 'g' {
                Common::Move(-0x7fff_ffff)
            } else if c == 'G' {
                Common::Move(0x7fff_ffff)
            } else if c == 'o' {
                Common::Open
            } else if c == 'r' {
                Common::Refresh
            } else if '1' <= c && c <= '9' {
                let n: u32 = (c as u32) - ('1' as u32);
                Common::Tab(n as usize)
            } else {
                Common::Other
            }
        },
        Key::Up => Common::Move(-1),
        Key::Down => Common::Move(1),
        Key::PageUp => Common::Move(-10),
        Key::PageDown => Common::Move(10),
        Key::Home => Common::Move(-0x7fff_ffff),
        Key::End => Common::Move(0x7fff_ffff),
        Key::Enter => Common::Open,
        Key::Tab => Common::Tab(if active + 1 < tabs { active + 1 } else { 0 }),
        Key::BackTab => Common::Tab(if active == 0 { tabs - 1 } else { active - 1 }),
        _ => Common::Other,
    }
}

/// Going to the next tab and back ends at the same tab, and both stay among the
/// tabs.
pub proof fn law_next_tab_and_back(active: int, tabs: int)
    requires
        0 <= active < tabs,
    ensures
        0 <= next_tab(active, tabs) < tabs,
        0 <= previous_tab(active, tabs) < tabs,
        previous_tab(next_tab(active, tabs), tabs) == active,
        next_tab(previous_tab(active, tabs), tabs) == active,
{
}

/// A selection stops at the first and at the last row, and one that is still in the
/// list stays where it is.
pub proof fn law_selection_stops_at_the_ends(selected: int, delta: int, n: int)
    requires
        n > 0,
    ensures
        selected + delta <= 0 ==> clamped(selected, delta, n) == 0,
        selected + delta >= n - 1 ==> clamped(selected, delta, n) == n - 1,
        0 <= selected < n ==> kept(selected, n) == selected,
        selected >= n ==> kept(selected, n) == n - 1,
        kept(selected, 0) == 0,
{
}

/// What the keys do that all browsers with tabs know.
pub proof fn law_common_keys(active: int, tabs: int, ctrl: bool)
    requires
        0 <= active < tabs <= usize::MAX,
    ensures
        common(Key::Char('q'), ctrl, active, tabs) == Common::Quit,
        common(Key::Char('c'), true, active, tabs) == Common::Quit,
        common(Key::Char('c'), false, active, tabs) == Common::Other,
        common(Key::Down, ctrl, active, tabs) == Common::Move(1),
        common(Key::Char('j'), ctrl, active, tabs) == Common::Move(1),
        common(Key::PageDown, ctrl, active, tabs) == Common::Move(10),
        common(Key::Up, ctrl, active, tabs) matches Common::Move(d) && d == -1,
        common(Key::Char('k'), ctrl, active, tabs) matches Common::Move(d) && d == -1,
        common(Key::PageUp, ctrl, active, tabs) matches Common::Move(d) && d == -10,
        common(Key::Home, ctrl, active, tabs) matches Common::Move(d) && d == -0x7fff_ffff,
        common(Key::Char('g'), ctrl, active, tabs) matches Common::Move(d) && d == -0x7fff_ffff,
        common(Key::End, ctrl, active, tabs) matches Common::Move(d) && d == 0x7fff_ffff,
        common(Key::Char('G'), ctrl, active, tabs) matches Common::Move(d) && d == 0x7fff_ffff,
        common(Key::Enter, ctrl, active, tabs) == Common::Open,
        common(Key::Char('o'), ctrl, active, tabs) == Common::Open,
        common(Key::Char('r'), ctrl, active, tabs) == Common::Refresh,
        common(Key::Char('1'), ctrl, active, tabs) == Common::Tab(0),
        common(Key::Char('2'), ctrl, active, tabs) == Common::Tab(1),
        common(Key::Char('9'), ctrl, active, tabs) == Common::Tab(8),
        common(Key::Char('0'), ctrl, active, tabs) == Common::Other,
        common(Key::Esc, ctrl, active, tabs) == Common::Other,
        common(Key::Tab, ctrl, active, tabs) matches Common::Tab(i) && (i == active + 1 || i == 0 && active == tabs - 1),
        common(Key::BackTab, ctrl, active, tabs) matches Common::Tab(i) && (i == active - 1 || i == tabs - 1 && active
            == 0),
{
}

/// The digits from 1 on show the tabs in their order.
pub proof fn law_digits_show_tabs(c: char, ctrl: bool, active: int, tabs: int)
    requires
        '1' <= c <= '9',
    ensures
        common(Key::Char(c), ctrl, active, tabs) matches Common::Tab(i) && i + 1 == c as int - '0' as int,
{
}

} // verus!
