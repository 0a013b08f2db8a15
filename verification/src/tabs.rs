//! Tabs that each show a list: what the browsers of several services have in
//! common.
//!
//! A list is loaded in two steps: `begin_load` notes that it is being loaded,
//! and `finish_load` takes in what came. Points in time are milliseconds of a
//! clock that never goes back.

use vstd::prelude::*;

use crate::keys;
use crate::keys::{clamp_selection, keep_selection};
use crate::numeral;
use crate::numeral::dec_size;
use crate::screen;
use crate::screen::{color, dim, line1, line2, Color, Line, Style};
use crate::text;
use crate::text::{cat2, cat3, cat4, cat5, owned};

verus! {

/// A list with a selection.
pub struct ListTab<T> {
    pub items: Vec<T>,
    pub selected: usize,
    pub last_loaded: Option<u64>,
    pub last_error: Option<String>,
    pub loading: bool,
}

/// A `ListTab` by its contents.
#[verifier::ext_equal]
pub struct ListV<T> {
    pub items: Seq<T>,
    pub selected: int,
    pub last_loaded: Option<u64>,
    pub last_error: Option<Seq<char>>,
    pub loading: bool,
}

/// A tab: its name, what it lists, and the list.
pub struct TabState<S, T> {
    pub name: String,
    pub spec: S,
    pub data: ListTab<T>,
}

/// A `TabState` by its contents.
#[verifier::ext_equal]
pub struct TabV<S, T> {
    pub name: Seq<char>,
    pub spec: S,
    pub data: ListV<T>,
}

/// Tabs, the one that is shown, and the status line.
#[verifier::ext_equal]
pub struct BrowserV<S, T> {
    pub tabs: Seq<TabV<S, T>>,
    pub active_tab: int,
    pub status: Seq<char>,
}

impl<T> View for ListTab<T> {
    type V = ListV<T>;

    open spec fn view(&self) -> ListV<T> {
        ListV {
            items: self.items@,
            selected: self.selected as int,
            last_loaded: self.last_loaded,
            last_error: text::opt_view(self.last_error),
            loading: self.loading,
        }
    }
}

impl<S, T> View for TabState<S, T> {
    type V = TabV<S, T>;

    open spec fn view(&self) -> TabV<S, T> {
        TabV { name: self.name@, spec: self.spec, data: self.data@ }
    }
}

/// The contents of a sequence of tabs.
pub open spec fn tab_views<S, T>(tabs: Seq<TabState<S, T>>) -> Seq<TabV<S, T>> {
    Seq::new(tabs.len(), |i: int| tabs[i]@)
}

impl<T> ListV<T> {
    /// The list before anything was loaded.
    pub open spec fn empty() -> ListV<T> {
        ListV { items: Seq::empty(), selected: 0, last_loaded: None, last_error: None, loading: false }
    }

    /// With the selection moved; it stops at the first and at the last row.
    pub open spec fn moved(self, delta: int) -> ListV<T> {
        if self.items.len() == 0 {
            self
        } else {
            ListV { selected: keys::clamped(self.selected, delta, self.items.len() as int), ..self }
        }
    }

    /// While it is being loaded.
    pub open spec fn begun(self) -> ListV<T> {
        ListV { loading: true, ..self }
    }

    /// With what was loaded; the selection stays where it can.
    pub open spec fn loaded(self, items: Seq<T>, now: u64) -> ListV<T> {
        ListV {
            items,
            selected: keys::kept(self.selected, items.len() as int),
            last_loaded: Some(now),
            last_error: None,
            loading: false,
        }
    }

    /// With the reason why nothing was loaded; what was there stays.
    pub open spec fn failed(self, error: Seq<char>) -> ListV<T> {
        ListV { loading: false, last_error: Some(error), ..self }
    }

    /// Neither loaded nor failed yet.
    pub open spec fn untouched(self) -> bool {
        self.items.len() == 0 && self.last_error is None
    }

    /// The selected item.
    pub open spec fn focused(self) -> Option<T> {
        if 0 <= self.selected < self.items.len() {
            Some(self.items[self.selected])
        } else {
            None
        }
    }

    /// With another item in the place of one.
    pub open spec fn with_item(self, i: int, item: T) -> ListV<T> {
        ListV { items: self.items.update(i, item), ..self }
    }

    /// The selection is a row of the list, or 0 where the list is empty.
    pub open spec fn selection_in_list(self) -> bool {
        &&& 0 <= self.selected
        &&& self.items.len() > 0 ==> self.selected < self.items.len()
        &&& self.items.len() == 0 ==> self.selected == 0
    }

    /// Last loaded at least `interval` seconds ago, or never.
    pub open spec fn stale(self, interval: u64, now: u64) -> bool {
        match self.last_loaded {
            None => true,
            Some(t) => (if now >= t {
                (now - t) / 1000
            } else {
                0
            }) >= interval,
        }
    }
}

impl<S, T> BrowserV<S, T> {
    /// One of the tabs is shown.
    pub open spec fn valid(self) -> bool {
        0 <= self.active_tab < self.tabs.len()
    }

    /// The tab that is shown.
    pub open spec fn active(self) -> TabV<S, T> {
        self.tabs[self.active_tab]
    }

    /// The list that is shown.
    pub open spec fn list(self) -> ListV<T> {
        self.active().data
    }

    /// With another list in the place of the one that is shown.
    pub open spec fn with_list(self, data: ListV<T>) -> BrowserV<S, T> {
        BrowserV {
            tabs: self.tabs.update(self.active_tab, TabV { data, ..self.active() }),
            ..self
        }
    }

    pub open spec fn with_status(self, status: Seq<char>) -> BrowserV<S, T> {
        BrowserV { status, ..self }
    }

    pub open spec fn moved(self, delta: int) -> BrowserV<S, T> {
        self.with_list(self.list().moved(delta))
    }

    /// While the list that is shown is being loaded.
    pub open spec fn begun(self) -> BrowserV<S, T> {
        self.with_list(self.list().begun()).with_status("loading "@ + self.active().name + "…"@)
    }

    /// With the outcome of loading; `label` says what was loaded.
    pub open spec fn finished(self, result: Result<Seq<T>, Seq<char>>, now: u64, label: Seq<char>) -> BrowserV<
        S,
        T,
    > {
        match result {
            Ok(items) => self.with_list(self.list().loaded(items, now)).with_status(
                self.active().name + ": "@ + numeral::decimal(items.len()) + " "@ + label,
            ),
            Err(e) => self.with_list(self.list().failed(e)).with_status("error: "@ + e),
        }
    }

    /// Tab `i` was never loaded, and is to be loaded when it is shown.
    pub open spec fn due_on_switch(self, i: int) -> bool {
        0 <= i < self.tabs.len() && self.tabs[i].data.untouched()
    }

    /// The list that is shown was last loaded `interval` seconds ago, and is
    /// not being loaded. An interval of 0 is never over.
    pub open spec fn due(self, interval: u64, now: u64) -> bool {
        interval != 0 && self.list().stale(interval, now) && !self.list().loading
    }

    /// With tab `i` shown, if there is one.
    pub open spec fn switched(self, i: int) -> BrowserV<S, T> {
        if 0 <= i < self.tabs.len() {
            BrowserV { active_tab: i, ..self }
        } else {
            self
        }
    }
}

impl<T> ListTab<T> {
    /// The list before anything was loaded.
    pub fn empty() -> (r: Self)
        ensures
            r@ == ListV::<T>::empty(),
    {
        ListTab { items: Vec::new(), selected: 0, last_loaded: None, last_error: None, loading: false }
    }

    /// Moves the selection.
    pub fn move_selection(&mut self, delta: isize)
        ensures
            final(self)@ == old(self)@.moved(delta as int),
    {
        let n: usize = self.items.len();
        if n > 0 {
            self.selected = clamp_selection(self.selected, delta, n);
        }
    }

    /// Takes in what was loaded, or why nothing was.
    pub fn finish(&mut self, result: Result<Vec<T>, String>, now: u64)
        ensures
            final(self)@ == (match result {
                Ok(items) => old(self)@.loaded(items@, now),
                Err(e) => old(self)@.failed(e@),
            }),
    {
        self.loading = false;
        match result {
            Ok(items) => {
                let n: usize = items.len();
                self.items = items;
                self.selected = keep_selection(self.selected, n);
                self.last_loaded = Some(now);
                self.last_error = None;
            },
            Err(e) => {
                self.last_error = Some(e);
            },
        }
    }

    /// The selected item.
    pub fn focused(&self) -> (r: Option<&T>)
        ensures
            match r {
                Some(x) => self@.focused() == Some(*x),
                None => self@.focused() is None,
            },
    {
        if self.selected < self.items.len() {
            Some(&self.items[self.selected])
        } else {
            None
        }
    }

    /// Whether the list was last loaded at least `interval` seconds ago.
    pub fn is_stale(&self, interval: u64, now: u64) -> (r: bool)
        ensures
            r == self@.stale(interval, now),
    {
        match self.last_loaded {
            None => true,
            Some(t) => {
                let ms: u64 = now.saturating_sub(t);
                ms / 1000 >= interval
            },
        }
    }
}

/// Moves the selection of the tab `active`.
pub fn move_active<S, T>(tabs: &mut Vec<TabState<S, T>>, active: usize, delta: isize)
    requires
        active < old(tabs).len(),
    ensures
        final(tabs).len() == old(tabs).len(),
        final(tabs)@[active as int].spec == old(tabs)@[active as int].spec,
        tab_views(final(tabs)@) == tab_views(old(tabs)@).update(
            active as int,
            TabV {
                data: tab_views(old(tabs)@)[active as int].data.moved(delta as int),
                ..tab_views(old(tabs)@)[active as int]
            },
        ),
{
    let t = &mut tabs[active];
    t.data.move_selection(delta);
    assert(tab_views(tabs@) =~= tab_views(old(tabs)@).update(
        active as int,
        TabV {
            data: tab_views(old(tabs)@)[active as int].data.moved(delta as int),
            ..tab_views(old(tabs)@)[active as int]
        },
    ));
}

/// Notes that the tab `active` is being loaded.
pub fn begin_load<S, T>(tabs: &mut Vec<TabState<S, T>>, active: usize, status: &mut String)
    requires
        active < old(tabs).len(),
    ensures
        final(tabs).len() == old(tabs).len(),
        final(tabs)@[active as int].spec == old(tabs)@[active as int].spec,
        tab_views(final(tabs)@) == tab_views(old(tabs)@).update(
            active as int,
            TabV {
                data: tab_views(old(tabs)@)[active as int].data.begun(),
                ..tab_views(old(tabs)@)[active as int]
            },
        ),
        final(status)@ == "loading "@ + tab_views(old(tabs)@)[active as int].name + "…"@,
{
    *status = cat3("loading ", tabs[active].name.as_str(), "…");
    let t = &mut tabs[active];
    t.data.loading = true;
    assert(tab_views(tabs@) =~= tab_views(old(tabs)@).update(
        active as int,
        TabV {
            data: tab_views(old(tabs)@)[active as int].data.begun(),
            ..tab_views(old(tabs)@)[active as int]
        },
    ));
}

/// The contents of a result with a list or an error text.
pub open spec fn result_view<T>(r: Result<Vec<T>, String>) -> Result<Seq<T>, Seq<char>> {
    match r {
        Ok(v) => Ok(v@),
        Err(e) => Err(e@),
    }
}

/// Takes in what was loaded for the tab `active`.
pub fn finish_load<S, T>(
    tabs: &mut Vec<TabState<S, T>>,
    active: usize,
    status: &mut String,
    result: Result<Vec<T>, String>,
    now: u64,
    label: &str,
)
    requires
        active < old(tabs).len(),
    ensures
        final(tabs).len() == old(tabs).len(),
        final(tabs)@[active as int].spec == old(tabs)@[active as int].spec,
        ({
            let b = BrowserV {
                tabs: tab_views(old(tabs)@),
                active_tab: active as int,
                status: old(status)@,
            };
            let f = b.finished(result_view(result), now, label@);
            tab_views(final(tabs)@) == f.tabs && final(status)@ == f.status
        }),
{
    let ghost before = tab_views(tabs@);
    *status = match &result {
        Ok(items) => cat5(
            tabs[active].name.as_str(),
            ": ",
            dec_size(items.len()).as_str(),
            " ",
            label,
        ),
        Err(e) => cat2("error: ", e.as_str()),
    };
    let t = &mut tabs[active];
    t.data.finish(result, now);
    assert(tab_views(tabs@) =~= before.update(
        active as int,
        TabV {
            data: match result_view(result) {
                Ok(items) => before[active as int].data.loaded(items, now),
                Err(e) => before[active as int].data.failed(e),
            },
            ..before[active as int]
        },
    ));
}

/// The status after a page was opened in the browser.
pub open spec fn opened(url: Seq<char>, result: Result<(), String>) -> Seq<char> {
    match result {
        Ok(_) => "opened "@ + url,
        Err(e) => "open failed: "@ + e@,
    }
}

pub fn opened_status(url: &str, result: &Result<(), String>) -> (r: String)
    ensures
        r@ == opened(url@, *result),
{
    match result {
        Ok(_) => cat2("opened ", url),
        Err(e) => cat2("open failed: ", e.as_str()),
    }
}

/// The status after something was put on the clipboard: `done` says what.
pub open spec fn copied(done: Seq<char>, result: Result<(), String>) -> Seq<char> {
    match result {
        Ok(_) => done,
        Err(e) => "copy failed: "@ + e@,
    }
}

pub fn copied_status(done: &str, result: &Result<(), String>) -> (r: String)
    ensures
        r@ == copied(done@, *result),
{
    match result {
        Ok(_) => owned(done),
        Err(e) => cat2("copy failed: ", e.as_str()),
    }
}

/// The label of a tab: its number, its name, and how many items it lists.
pub open spec fn tab_label<S, T>(i: int, t: TabV<S, T>) -> Seq<char> {
    let badge = if t.data.loading {
        " (…)"@
    } else if t.data.last_error is Some {
        " (err)"@
    } else {
        " ("@ + numeral::decimal(t.data.items.len()) + ")"@
    };
    numeral::decimal((i + 1) as nat) + "."@ + t.name + badge
}

/// The labels of all tabs.
pub fn tab_labels<S, T>(tabs: &Vec<TabState<S, T>>) -> (r: Vec<String>)
    ensures
        r.len() == tabs.len(),
        forall|i: int| 0 <= i < r.len() ==> (#[trigger] r@[i])@ == tab_label(i, tabs@[i]@),
{
    let mut out: Vec<String> = Vec::new();
    let mut i: usize = 0;
    while i < tabs.len()
        invariant
            i <= tabs.len(),
            out.len() == i,
            forall|k: int| 0 <= k < i ==> (#[trigger] out@[k])@ == tab_label(k, tabs@[k]@),
        decreases tabs.len() - i,
    {
        let t = &tabs[i];
        let badge = if t.data.loading {
            owned(" (…)")
        } else if t.data.last_error.is_some() {
            owned(" (err)")
        } else {
            cat3(" (", dec_size(t.data.items.len()).as_str(), ")")
        };
        out.push(cat4(dec_size(i + 1).as_str(), ".", t.name.as_str(), badge.as_str()));
        i = i + 1;
    }
    out
}

/// The first row that is shown of `total` rows, where `rows` fit: the selected
/// row is kept in the middle where that is possible.
pub open spec fn first_shown(selected: int, total: int, rows: int) -> int {
    if total <= rows {
        0
    } else {
        let lo = if selected >= rows / 2 {
            selected - rows / 2
        } else {
            0
        };
        if lo <= total - rows {
            lo
        } else {
            total - rows
        }
    }
}

pub fn first_row(selected: usize, total: usize, rows: usize) -> (r: usize)
    ensures
        r == first_shown(selected as int, total as int, rows as int),
        r <= total,
{
    if total <= rows {
        0
    } else {
        let lo: usize = selected.saturating_sub(rows / 2);
        if lo <= total - rows {
            lo
        } else {
            total - rows
        }
    }
}

/// How many rows fit into a frame that is `height` lines high.
pub fn body_rows(height: u16) -> (r: usize)
    ensures
        r == (if height >= 2 {
            height - 2
        } else {
            0
        }),
{
    height.saturating_sub(2) as usize
}

/// The selected row is on the screen, wherever at least one row fits.
pub proof fn law_selection_is_shown(selected: int, total: int, rows: int)
    requires
        0 <= selected < total,
        rows > 0,
    ensures
        first_shown(selected, total, rows) <= selected < first_shown(selected, total, rows) + rows,
        0 <= first_shown(selected, total, rows),
        total > rows ==> first_shown(selected, total, rows) + rows <= total,
{
}

/// What is shown in a list's frame.
pub struct Pane {
    pub title: String,
    pub lines: Vec<Line>,
}

/// The style of the selected row.
pub open spec fn selected_style() -> Style {
    screen::backed(screen::colored(Color::Black), Color::Cyan)
}

pub fn selected_row_style() -> (r: Style)
    ensures
        r == selected_style(),
{
    screen::on(color(Color::Black), Color::Cyan)
}

/// The one line that takes the list's place after an error, or while there is
/// nothing to list; `none` says that there is nothing.
pub open spec fn placeholder<T>(l: ListV<T>, none: Seq<char>) -> Option<Seq<(Seq<char>, Style)>> {
    if l.last_error is Some {
        Some(seq![("error: "@ + l.last_error->0, screen::colored(Color::Red))])
    } else if l.items.len() == 0 {
        Some(
            seq![
                (
                    if l.loading {
                        "(loading…)"@
                    } else {
                        none
                    },
                    screen::colored(Color::DarkGray),
                ),
            ],
        )
    } else {
        None
    }
}

pub fn placeholder_line<T>(l: &ListTab<T>, none: &str) -> (r: Option<Line>)
    ensures
        match r {
            Some(x) => placeholder(l@, none@) == Some(x@),
            None => placeholder(l@, none@) is None,
        },
{
    if let Some(e) = &l.last_error {
        let t = cat2("error: ", e.as_str());
        return Some(line1(t.as_str(), color(Color::Red)));
    }
    if l.items.len() == 0 {
        let t = if l.loading { "(loading…)" } else { none };
        return Some(line1(t, color(Color::DarkGray)));
    }
    None
}

/// The mark in front of a row.
pub open spec fn cursor_mark(selected: bool) -> Seq<char> {
    if selected {
        "▸ "@
    } else {
        "  "@
    }
}

pub fn mark(selected: bool) -> (r: &'static str)
    ensures
        r@ == cursor_mark(selected),
{
    if selected {
        "▸ "
    } else {
        "  "
    }
}

/// The status line: the status, and the keys that can be pressed.
pub open spec fn status_row(status: Seq<char>, hint: Seq<char>) -> Seq<(Seq<char>, Style)> {
    seq![
        (" "@ + status + " "@, screen::colored(Color::White)),
        (hint, screen::dimmed(screen::colored(Color::DarkGray))),
    ]
}

pub fn status_line(status: &str, hint: &str) -> (r: Line)
    ensures
        r@ == status_row(status@, hint@),
{
    let s = cat3(" ", status, " ");
    line2(s.as_str(), color(Color::White), hint, dim(color(Color::DarkGray)))
}

/// A name and a value in the frame of details.
pub open spec fn detail_row(name: Seq<char>, width: int, value: Seq<char>) -> Seq<(Seq<char>, Style)> {
    seq![
        (" "@ + text::padded_right(name, width), screen::colored(Color::DarkGray)),
        (value, screen::colored(Color::White)),
    ]
}

pub fn detail_line(name: &str, width: usize, value: &str) -> (r: Line)
    ensures
        r@ == detail_row(name@, width as int, value@),
{
    let n = text::pad_right(name, width);
    let k = cat2(" ", n.as_str());
    line2(k.as_str(), color(Color::DarkGray), value, color(Color::White))
}

/// The line without text that parts two sections.
pub open spec fn gap() -> Seq<(Seq<char>, Style)> {
    seq![(""@, screen::colored(Color::Plain))]
}

pub fn gap_line() -> (r: Line)
    ensures
        r@ == gap(),
{
    line1("", color(Color::Plain))
}

/// The lines of a section about one long value.
pub open spec fn section(heading: Seq<char>, value: Seq<char>, style: Style) -> Seq<Seq<(Seq<char>, Style)>> {
    seq![
        gap(),
        seq![(heading, screen::colored(Color::DarkGray))],
        seq![(" "@ + value, style)],
    ]
}

pub fn add_section(out: &mut Vec<Line>, heading: &str, value: &str, style: Style)
    ensures
        screen::drawn(final(out)@) == screen::drawn(old(out)@) + section(heading@, value@, style),
{
    screen::add_line(out, gap_line());
    screen::add_line(out, line1(heading, color(Color::DarkGray)));
    let v = cat2(" ", value);
    screen::add_line(out, line1(v.as_str(), style));
    assert(screen::drawn(out@) =~= screen::drawn(old(out)@) + section(heading@, value@, style));
}

/// No lines.
pub open spec fn no_lines() -> Seq<Seq<(Seq<char>, Style)>> {
    Seq::empty()
}

/// Begins a list of lines.
pub fn start_lines() -> (r: Vec<Line>)
    ensures
        screen::drawn(r@) == no_lines(),
{
    let r: Vec<Line> = Vec::new();
    assert(screen::drawn(r@) =~= no_lines());
    r
}

/// Appends one line.
pub fn add_row(out: &mut Vec<Line>, l: Line)
    ensures
        screen::drawn(final(out)@) == screen::drawn(old(out)@) + seq![l@],
{
    screen::add_line(out, l);
    assert(screen::drawn(out@) =~= screen::drawn(old(out)@) + seq![l@]);
}

/// A name and a value, where there is a value.
pub open spec fn opt_row(name: Seq<char>, width: int, value: Option<Seq<char>>) -> Seq<Seq<(Seq<char>, Style)>> {
    match value {
        Some(v) => seq![detail_row(name, width, v)],
        None => no_lines(),
    }
}

/// Appends a name and a value, where there is a value.
pub fn add_opt(out: &mut Vec<Line>, name: &str, width: usize, value: Option<&str>)
    ensures
        screen::drawn(final(out)@) == screen::drawn(old(out)@) + opt_row(
            name@,
            width as int,
            text::opt_str_view(value),
        ),
{
    match value {
        Some(v) => add_row(out, detail_line(name, width, v)),
        None => {
            assert(screen::drawn(out@) + no_lines() =~= screen::drawn(out@));
        },
    }
}

/// Appends a name and a value.
pub fn add_detail(out: &mut Vec<Line>, name: &str, width: usize, value: &str)
    ensures
        screen::drawn(final(out)@) == screen::drawn(old(out)@) + seq![
            detail_row(name@, width as int, value@),
        ],
{
    add_row(out, detail_line(name, width, value));
}

/// The first lines of a text, each moved to the right by one column.
pub open spec fn indented(ls: Seq<Seq<char>>, most: int, style: Style) -> Seq<Seq<(Seq<char>, Style)>> {
    Seq::new(
        if ls.len() <= most {
            ls.len()
        } else {
            most as nat
        },
        |i: int| seq![(" "@ + ls[i], style)],
    )
}

/// Appends the first lines of a text.
pub fn add_indented(out: &mut Vec<Line>, ls: &Vec<String>, most: usize, style: Style)
    ensures
        screen::drawn(final(out)@) == screen::drawn(old(out)@) + indented(
            text::views(ls@),
            most as int,
            style,
        ),
{
    let ghost start = screen::drawn(out@);
    let ghost all = indented(text::views(ls@), most as int, style);
    let n: usize = if ls.len() <= most { ls.len() } else { most };
    let mut i: usize = 0;
    assert(start + all.take(0) =~= start);
    while i < n
        invariant
            i <= n,
            n <= ls.len(),
            n == all.len(),
            all == indented(text::views(ls@), most as int, style),
            screen::drawn(out@) == start + all.take(i as int),
        decreases n - i,
    {
        let t = cat2(" ", ls[i].as_str());
        add_row(out, line1(t.as_str(), style));
        assert(all[i as int] =~= seq![(t@, style)]);
        assert(all.take(i + 1) =~= all.take(i as int) + seq![all[i as int]]);
        assert(screen::drawn(out@) =~= start + all.take(i + 1));
        i = i + 1;
    }
    assert(all.take(n as int) =~= all);
}

/// The rows of a list that are on the screen, `row` giving the line of each.
pub open spec fn shown_rows(
    row: spec_fn(int) -> Seq<(Seq<char>, Style)>,
    selected: int,
    total: int,
    rows: int,
) -> Seq<Seq<(Seq<char>, Style)>> {
    let start = first_shown(selected, total, rows);
    Seq::new(
        (if total - start <= rows {
            total - start
        } else {
            rows
        }) as nat,
        |i: int| row(start + i),
    )
}

/// Draws the rows of a list that are on the screen; `draw` draws the row with
/// a number.
pub fn show_rows<F: Fn(usize) -> Line>(
    total: usize,
    selected: usize,
    rows: usize,
    draw: F,
    Ghost(row): Ghost<spec_fn(int) -> Seq<(Seq<char>, Style)>>,
) -> (r: Vec<Line>)
    requires
        forall|i: usize| i < total ==> call_requires(draw, (i,)),
        forall|i: usize, l: Line| call_ensures(draw, (i,), l) ==> l@ == row(i as int),
    ensures
        screen::drawn(r@) == shown_rows(row, selected as int, total as int, rows as int),
{
    let start: usize = first_row(selected, total, rows);
    let n: usize = if total - start <= rows { total - start } else { rows };
    let ghost all = shown_rows(row, selected as int, total as int, rows as int);
    let mut out: Vec<Line> = Vec::new();
    let mut i: usize = 0;
    assert(screen::drawn(out@) =~= all.take(0));
    while i < n
        invariant
            i <= n,
            start + n <= total,
            start == first_shown(selected as int, total as int, rows as int),
            n == all.len(),
            all == shown_rows(row, selected as int, total as int, rows as int),
            forall|i: usize| i < total ==> call_requires(draw, (i,)),
            forall|i: usize, l: Line| call_ensures(draw, (i,), l) ==> l@ == row(i as int),
            screen::drawn(out@) == all.take(i as int),
        decreases n - i,
    {
        let l = draw(start + i);
        screen::add_line(&mut out, l);
        assert(all.take(i + 1) =~= all.take(i as int).push(all[i as int]));
        i = i + 1;
    }
    assert(all.take(n as int) =~= all);
    out
}

/// The line of a row: a mark, a name of a fixed width, and a description.
pub open spec fn plain_row(
    selected: bool,
    name: Seq<char>,
    width: int,
    about: Seq<char>,
    style: Style,
) -> Seq<(Seq<char>, Style)> {
    seq![
        (
            cursor_mark(selected) + text::padded_right(text::shortened(name, width), width) + "  "@ + about,
            if selected {
                selected_style()
            } else {
                style
            },
        ),
    ]
}

pub fn row_line(selected: bool, name: &str, width: usize, about: &str, style: Style) -> (r: Line)
    ensures
        r@ == plain_row(selected, name@, width as int, about@, style),
{
    let short = text::shorten(name, width);
    let padded = text::pad_right(short.as_str(), width);
    let t = cat4(mark(selected), padded.as_str(), "  ", about);
    line1(t.as_str(), if selected { selected_row_style() } else { style })
}

/// The first of two regions that is named.
pub open spec fn region_or(region: Option<Seq<char>>, default: Option<Seq<char>>) -> Option<Seq<char>> {
    match region {
        Some(r) => Some(r),
        None => default,
    }
}

/// The first of two regions that is named.
pub fn pick_region(region: &Option<String>, default: Option<&str>) -> (r: Option<String>)
    ensures
        text::opt_view(r) == region_or(text::opt_view(*region), text::opt_str_view(default)),
{
    match region {
        Some(r) => Some(r.clone()),
        None => match default {
            Some(r) => Some(owned(r)),
            None => None,
        },
    }
}

/// The region in an address: the one that is named, or `us-east-1`.
pub open spec fn region_in_url(region: Option<Seq<char>>) -> Seq<char> {
    match region {
        Some(r) => r,
        None => "us-east-1"@,
    }
}

pub fn url_region(region: &Option<String>) -> (r: &str)
    ensures
        r@ == region_in_url(text::opt_view(*region)),
{
    match region {
        Some(r) => r.as_str(),
        None => "us-east-1",
    }
}

/// Loading, moving and failing keep the selection in the list.
pub proof fn law_selection_stays_in_list<T>(l: ListV<T>, delta: int, items: Seq<T>, now: u64, e: Seq<char>)
    requires
        l.selection_in_list(),
    ensures
        l.moved(delta).selection_in_list(),
        l.begun().selection_in_list(),
        l.loaded(items, now).selection_in_list(),
        l.failed(e).selection_in_list(),
        ListV::<T>::empty().selection_in_list(),
{
}

/// A load that fails loses nothing of what was loaded before.
pub proof fn law_failure_keeps_items<T>(l: ListV<T>, e: Seq<char>)
    ensures
        l.begun().failed(e).items == l.items,
        l.begun().failed(e).selected == l.selected,
        l.begun().failed(e).last_loaded == l.last_loaded,
{
}

/// What was just loaded is not loaded again before the interval is over.
pub proof fn law_not_stale_at_once<T>(l: ListV<T>, items: Seq<T>, now: u64, later: u64, interval: u64)
    requires
        interval > 0,
        now <= later,
        later - now < 1000 * interval,
    ensures
        !l.loaded(items, now).stale(interval, later),
{
    assert((later - now) / 1000 < interval) by (nonlinear_arith)
        requires
            0 <= later - now,
            later - now < 1000 * interval,
    ;
}

/// Whatever happens in the tab that is shown leaves the other tabs alone.
pub proof fn law_other_tabs_untouched<S, T>(
    b: BrowserV<S, T>,
    i: int,
    delta: int,
    result: Result<Seq<T>, Seq<char>>,
    now: u64,
    label: Seq<char>,
)
    requires
        b.valid(),
        0 <= i < b.tabs.len(),
        i != b.active_tab,
    ensures
        b.moved(delta).tabs[i] == b.tabs[i],
        b.begun().tabs[i] == b.tabs[i],
        b.finished(result, now, label).tabs[i] == b.tabs[i],
        b.switched(i).tabs == b.tabs,
{
}

/// The selection moves by as many rows as are asked for while there are rows; in an
/// empty list nothing moves.
pub proof fn law_moving<T>(l: ListV<T>, delta: int)
    ensures
        0 <= l.selected + delta < l.items.len() ==> l.moved(delta).selected == l.selected + delta,
        l.items.len() > 0 && l.selected + delta < 0 ==> l.moved(delta).selected == 0,
        l.items.len() > 0 && l.selected + delta >= l.items.len() ==> l.moved(delta).selected == l.items.len() - 1,
        l.items.len() == 0 ==> l.moved(delta) == l,
        l.moved(delta).items == l.items,
        l.moved(delta).last_error == l.last_error,
{
}

/// What was loaded is what is listed, without an error; a load that failed shows its
/// error and keeps the list.
pub proof fn law_loading<T>(l: ListV<T>, items: Seq<T>, now: u64, e: Seq<char>)
    ensures
        l.loaded(items, now).items == items,
        l.loaded(items, now).last_error is None,
        l.loaded(items, now).last_loaded == Some(now),
        !l.loaded(items, now).loading,
        0 <= l.selected < items.len() ==> l.loaded(items, now).selected == l.selected,
        l.selected >= items.len() > 0 ==> l.loaded(items, now).selected == items.len() - 1,
        l.begun().loading,
        l.begun().items == l.items,
        l.failed(e).last_error == Some(e),
        !l.failed(e).loading,
        l.failed(e).items == l.items,
{
}

/// What was loaded is stale exactly when as many seconds have gone by as the interval
/// has; what was never loaded is stale at once.
pub proof fn law_stale_after_the_interval<T>(l: ListV<T>, t: u64, interval: u64, now: u64)
    ensures
        l.last_loaded == Some(t) && now >= t ==> (l.stale(interval, now) <==> now - t >= 1000 * interval),
        l.last_loaded is None ==> l.stale(interval, now),
{
    if now >= t {
        let d = (now - t) as int;
        assert(d / 1000 >= interval <==> d >= 1000 * interval) by (nonlinear_arith)
            requires
                d >= 0,
                interval >= 0,
        ;
    }
}

/// A list is loaded by itself only where an interval is set, it is stale, and it is
/// not being loaded; on the way to a tab where nothing was loaded yet and nothing
/// went wrong.
pub proof fn law_when_lists_are_loaded<S, T>(b: BrowserV<S, T>, interval: u64, now: u64, i: int)
    ensures
        b.due(0, now) == false,
        b.list().loading ==> !b.due(interval, now),
        interval > 0 && !b.list().loading && b.list().last_loaded is None ==> b.due(interval, now),
        !b.list().stale(interval, now) ==> !b.due(interval, now),
        0 <= i < b.tabs.len() ==> (b.due_on_switch(i) <==> b.tabs[i].data.items.len() == 0 && b.tabs[i].data.last_error is None),
        !(0 <= i < b.tabs.len()) ==> !b.due_on_switch(i),
{
}

/// The tab that is asked for is shown, if there is such a tab.
pub proof fn law_switching<S, T>(b: BrowserV<S, T>, i: int)
    ensures
        0 <= i < b.tabs.len() ==> b.switched(i).active_tab == i,
        !(0 <= i < b.tabs.len()) ==> b.switched(i) == b,
        b.switched(i).tabs == b.tabs,
        b.switched(i).status == b.status,
{
}

/// The status line tells what is being loaded, how many items were, or the error.
pub proof fn law_status_of_a_load<S, T>(
    b: BrowserV<S, T>,
    items: Seq<T>,
    e: Seq<char>,
    now: u64,
    label: Seq<char>,
)
    requires
        b.valid(),
    ensures
        b.begun().status == "loading "@ + b.tabs[b.active_tab].name + "…"@,
        b.finished(Ok(items), now, label).status == b.tabs[b.active_tab].name + ": "@ + numeral::decimal(items.len())
            + " "@ + label,
        b.finished(Err(e), now, label).status == "error: "@ + e,
        b.finished(Ok(items), now, label).tabs[b.active_tab].data.items == items,
        b.finished(Err(e), now, label).tabs[b.active_tab].data.items == b.tabs[b.active_tab].data.items,
        b.finished(Err(e), now, label).tabs[b.active_tab].data.last_error == Some(e),
        b.finished(Ok(items), now, label).active_tab == b.active_tab,
{
}

/// The label of a tab: its number from one on, its name, and how many items it has,
/// or that it is being loaded or has an error.
pub proof fn law_label_of_a_tab<S, T>(i: int, t: TabV<S, T>)
    requires
        i >= 0,
    ensures
        t.data.loading ==> tab_label(i, t) == numeral::decimal((i + 1) as nat) + "."@ + t.name + " (…)"@,
        !t.data.loading && t.data.last_error is Some ==> tab_label(i, t) == numeral::decimal((i + 1) as nat) + "."@
            + t.name + " (err)"@,
        !t.data.loading && t.data.last_error is None ==> tab_label(i, t) == numeral::decimal((i + 1) as nat) + "."@
            + t.name + (" ("@ + numeral::decimal(t.data.items.len()) + ")"@),
{
}

/// What the focused item is, and when there is none.
pub proof fn law_focused<T>(l: ListV<T>)
    ensures
        0 <= l.selected < l.items.len() ==> l.focused() == Some(l.items[l.selected]),
        !(0 <= l.selected < l.items.len()) ==> l.focused() is None,
{
}

/// The messages behind opening a page and behind copying a text.
pub proof fn law_messages(url: Seq<char>, done: Seq<char>, e: String)
    ensures
        opened(url, Ok(())) == "opened "@ + url,
        opened(url, Err(e)) == "open failed: "@ + e@,
        copied(done, Ok(())) == done,
        copied(done, Err(e)) == "copy failed: "@ + e@,
{
}

/// A row of a list has its mark, its name and what is said about it, in this order;
/// the selected row is marked and stands out.
pub proof fn law_row_of_a_list(name: Seq<char>, width: int, about: Seq<char>, style: Style)
    requires
        0 < width,
    ensures
        ({
            let r = plain_row(true, name, width, about, style);
            let s = plain_row(false, name, width, about, style);
            &&& r.len() == 1 && s.len() == 1
            &&& text::has_prefix(r[0].0, "▸ "@) && text::has_prefix(s[0].0, "  "@)
            &&& text::has_suffix(r[0].0, about) && text::has_suffix(s[0].0, about)
            &&& name.len() <= width ==> text::has_part(r[0].0, name) && text::has_part(s[0].0, name)
            &&& s[0].1 == style
            &&& r[0].1.bg == Color::Cyan && r[0].1.fg == Color::Black
            &&& r[0].0.len() == 2 + width + 2 + about.len()
        }),
{
    reveal_strlit("▸ ");
    reveal_strlit("  ");
    let cut = text::shortened(name, width);
    text::law_shortened(name, width);
    text::law_padded(cut, width);
    let mid = text::padded_right(cut, width);
    text::law_part_of_a_text("▸ "@, mid + "  "@ + about, about);
    text::law_part_of_a_text("  "@, mid + "  "@ + about, about);
    text::law_part_of_a_text("▸ "@ + mid + "  "@, about, about);
    text::law_part_of_a_text("  "@ + mid + "  "@, about, about);
    assert("▸ "@ + (mid + "  "@ + about) =~= "▸ "@ + mid + "  "@ + about);
    assert("  "@ + (mid + "  "@ + about) =~= "  "@ + mid + "  "@ + about);
    if name.len() <= width {
        let pad = mid.skip(name.len() as int);
        assert(mid.take(name.len() as int) =~= name);
        assert(mid =~= name + pad);
        text::law_part_of_a_text("▸ "@, name, pad + "  "@ + about);
        text::law_part_of_a_text("  "@, name, pad + "  "@ + about);
        assert("▸ "@ + name + (pad + "  "@ + about) =~= "▸ "@ + mid + "  "@ + about);
        assert("  "@ + name + (pad + "  "@ + about) =~= "  "@ + mid + "  "@ + about);
    }
}

/// A line of the details has a name and a value, in this order.
pub proof fn law_line_of_the_details(name: Seq<char>, width: int, value: Seq<char>)
    ensures
        detail_row(name, width, value).len() == 2,
        text::has_prefix(detail_row(name, width, value)[0].0, " "@ + name),
        detail_row(name, width, value)[1].0 == value,
        opt_row(name, width, Some(value)) == seq![detail_row(name, width, value)],
        opt_row(name, width, None).len() == 0,
{
    text::law_padded(name, width);
    let a = " "@ + text::padded_right(name, width);
    assert(a.take((" "@ + name).len() as int) =~= " "@ + name) by {
        assert(text::padded_right(name, width).take(name.len() as int) == name);
        assert forall|i: int| 0 <= i < name.len() implies a[i + " "@.len()] == name[i] by {
            assert(text::padded_right(name, width).take(name.len() as int)[i] == text::padded_right(name, width)[i]);
        }
    }
}

/// Instead of an empty list its state is told: an error, that it is being loaded, or
/// that there is nothing.
pub proof fn law_instead_of_a_list<T>(l: ListV<T>, none: Seq<char>)
    ensures
        l.last_error is Some ==> placeholder(l, none) is Some && placeholder(l, none)->0[0].0 == "error: "@ + l.last_error->0
            && placeholder(l, none)->0[0].1.fg == Color::Red,
        l.last_error is None && l.items.len() == 0 && l.loading ==> placeholder(l, none) is Some && placeholder(
            l,
            none,
        )->0[0].0 == "(loading…)"@,
        l.last_error is None && l.items.len() == 0 && !l.loading ==> placeholder(l, none) is Some && placeholder(
            l,
            none,
        )->0[0].0 == none,
        l.last_error is None && l.items.len() > 0 ==> placeholder(l, none) is None,
{
}

/// A tab has the region of its own, else that of the settings; a page in the console
/// lies in that region, or in the usual one.
pub proof fn law_regions(a: Seq<char>, b: Option<Seq<char>>)
    ensures
        region_or(Some(a), b) == Some(a),
        region_or(None, b) == b,
        region_in_url(Some(a)) == a,
        region_in_url(None) == "us-east-1"@,
{
}

/// The rows that are shown follow each other in the list, from the first one on.
pub proof fn law_rows_follow_each_other(
    row: spec_fn(int) -> Seq<(Seq<char>, Style)>,
    selected: int,
    total: int,
    rows: int,
)
    requires
        0 <= selected < total,
        rows > 0,
    ensures
        ({
            let s = shown_rows(row, selected, total, rows);
            let k = selected - first_shown(selected, total, rows);
            &&& 0 <= k < s.len() && s[k] == row(selected)
            &&& s.len() == (if total <= rows {
                total
            } else {
                rows
            })
            &&& forall|i: int| 0 <= i < s.len() ==> #[trigger] s[i] == row(selected - k + i)
            &&& total <= rows ==> k == selected
        }),
{
    law_selection_is_shown(selected, total, rows);
}

/// A list that is too long for its frame is shown round the selected row, as far as its
/// ends allow.
pub proof fn law_selection_in_the_middle(selected: int, total: int, rows: int)
    requires
        0 <= selected < total,
        0 < rows < total,
    ensures
        selected < rows / 2 ==> first_shown(selected, total, rows) == 0,
        rows / 2 <= selected && selected - rows / 2 <= total - rows ==> first_shown(selected, total, rows) == selected
            - rows / 2,
        selected - rows / 2 > total - rows ==> first_shown(selected, total, rows) == total - rows,
{
}

/// The status line has the status and then the hint.
pub proof fn law_status_line(status: Seq<char>, hint: Seq<char>)
    ensures
        status_row(status, hint).len() == 2,
        status_row(status, hint)[0].0 == " "@ + status + " "@,
        status_row(status, hint)[1].0 == hint,
{
}

} // verus!
