//! What the mouse does in the apps browser.

use vstd::prelude::*;

use crate::amplify::app;
use crate::amplify::app::{App, AppV, VisibleRow};
use crate::amplify::keys;
use crate::amplify::keys::{ask, save, Effect, EffectV};
use crate::amplify::laws;
use crate::amplify::ui;
use crate::amplify::ui::{scroll_for, visible_row_line_starts};
use crate::keys::Mouse;
use crate::text;

verus! {

/// A part of the screen.
#[derive(Clone, Copy, Debug, PartialEq, Eq, Structural)]
pub struct Area {
    pub x: u16,
    pub y: u16,
    pub width: u16,
    pub height: u16,
}

impl Area {
    /// The place is in this part of the screen.
    pub open spec fn holds(self, column: int, row: int) -> bool {
        self.x <= column < self.x + self.width && self.y <= row < self.y + self.height
    }

    pub fn contains(&self, column: u16, row: u16) -> (r: bool)
        ensures
            r == self.holds(column as int, row as int),
    {
        self.x <= column && (column as u32) < (self.x as u32) + (self.width as u32) && self.y <= row
            && (row as u32) < (self.y as u32) + (self.height as u32)
    }
}

/// The row of the list that has a line, if one has: a row ends where the next
/// one begins.
pub open spec fn row_with_line(a: AppV, rows: Seq<VisibleRow>, line: int, from: int) -> Option<int>
    decreases rows.len() - from,
{
    if from >= rows.len() {
        None
    } else if ui::line_start(a, rows, from) <= line && (from + 1 >= rows.len() || line < ui::line_start(
        a,
        rows,
        from + 1,
    )) {
        Some(from)
    } else {
        row_with_line(a, rows, line, from + 1)
    }
}

/// How many lines of the list are scrolled out at the top.
pub open spec fn scrolled_out(a: AppV, rows: Seq<VisibleRow>, height: int) -> int {
    ui::scroll_to(
        match ui::selected_line(a, rows) {
            Some(l) => l,
            None => 0,
        },
        height,
    )
}

/// The row of the list at a line of the screen; a frame takes the first line.
pub open spec fn row_at(a: AppV, rows: Seq<VisibleRow>, row: int, body: Area, inside_mnml: bool) -> Option<
    int,
> {
    let top = body.y + (if inside_mnml {
        0int
    } else {
        1
    });
    let line = if row > top {
        row - top
    } else {
        0
    };
    row_with_line(a, rows, line + scrolled_out(a, rows, body.height as int), 0)
}

/// What a press of the left button on row `i` does: on the mark of a branch it
/// shows and hides its deployments; elsewhere it does what Enter does.
pub open spec fn pressed(a: AppV, i: int, column: int, now: Option<u64>) -> (AppV, EffectV) {
    let b = a.at_row(i);
    match a.rows(now)[i] {
        VisibleRow::Branch { app_id, branch_name } => if 4 <= column <= 5 {
            (
                b.branch_toggled((app_id@, branch_name@)),
                keys::asking(b.branch_request((app_id@, branch_name@))),
            )
        } else {
            (b.entered(now), keys::asking(b.enter_request(now)))
        },
        _ => (b.entered(now), keys::asking(b.enter_request(now))),
    }
}

/// What a press of the right button on row `i` does: an app is hidden or shown
/// again; elsewhere it does what Enter does.
pub open spec fn right_pressed(a: AppV, i: int, now: Option<u64>) -> (AppV, EffectV) {
    let b = a.at_row(i);
    match a.rows(now)[i] {
        VisibleRow::AppHeader { items_index, expanded } => (
            b.hide_toggled(now),
            EffectV { save: b.hide_saving(now), ..keys::idle() },
        ),
        _ => (b.entered(now), keys::asking(b.enter_request(now))),
    }
}

/// What the mouse does at a place of the screen. Logs that are shown, and
/// deployments that are shown, are scrolled and nothing else. In the list only
/// what happens on a row counts.
pub open spec fn moused(
    a: AppV,
    mouse: Mouse,
    column: int,
    row: int,
    body: Area,
    inside_mnml: bool,
    now: Option<u64>,
) -> (AppV, EffectV) {
    if a.logs is Some {
        match mouse {
            Mouse::ScrollUp => (a.logs_scrolled(-3), keys::idle()),
            Mouse::ScrollDown => (a.logs_scrolled(3), keys::idle()),
            _ => (a, keys::idle()),
        }
    } else if a.history is Some {
        match mouse {
            Mouse::ScrollUp => (a.history_moved(-3), keys::idle()),
            Mouse::ScrollDown => (a.history_moved(3), keys::idle()),
            _ => (a, keys::idle()),
        }
    } else if !body.holds(column, row) {
        (a, keys::idle())
    } else {
        match row_at(a, a.rows(now), row, body, inside_mnml) {
            None => (a, keys::idle()),
            Some(i) => match mouse {
                Mouse::Press => pressed(a, i, column - body.x, now),
                Mouse::RightPress => right_pressed(a, i, now),
                Mouse::ScrollUp => (a.moved(-3, now), keys::idle()),
                Mouse::ScrollDown => (a.moved(3, now), keys::idle()),
                Mouse::Other => (a, keys::idle()),
            },
        }
    }
}

fn find_row_at(app: &App, rows: &Vec<VisibleRow>, row: u16, body: Area, inside_mnml: bool) -> (r: Option<usize>)
    requires
        app.wf(),
    ensures
        match r {
            Some(i) => row_at(app@, rows@, row as int, body, inside_mnml) == Some(i as int) && i < rows.len(),
            None => row_at(app@, rows@, row as int, body, inside_mnml) is None,
        },
{
    let ghost a = app@;
    let starts = visible_row_line_starts(app, rows);
    let selected: usize = app.selected_index();
    let selected_line: usize = if selected < starts.len() { starts[selected] } else { 0 };
    let scroll: u16 = scroll_for(selected_line, body.height);
    let top: u32 = (body.y as u32) + if inside_mnml { 0u32 } else { 1 };
    let seen: u32 = if (row as u32) > top { (row as u32) - top } else { 0 };
    let line: usize = (seen as usize) + (scroll as usize);
    let mut i: usize = 0;
    while i < rows.len()
        invariant
            a == app@,
            i <= rows.len(),
            starts.len() == rows.len(),
            line < 0x2_0000,
            row_at(a, rows@, row as int, body, inside_mnml) == row_with_line(a, rows@, line as int, 0),
            forall|k: int|
                0 <= k < rows.len() ==> (#[trigger] starts@[k]) == ui::countable(ui::line_start(a, rows@, k)),
            row_with_line(a, rows@, line as int, 0) == row_with_line(a, rows@, line as int, i as int),
        decreases rows.len() - i,
    {
        assert(starts@[i as int] == ui::countable(ui::line_start(a, rows@, i as int)));
        if i + 1 < rows.len() {
            assert(starts@[i + 1] == ui::countable(ui::line_start(a, rows@, i + 1)));
        }
        if starts[i] <= line && (i + 1 >= rows.len() || line < starts[i + 1]) {
            return Some(i);
        }
        i = i + 1;
    }
    None
}

/// Does what the mouse does, and says what is to be done outside. `body` is the
/// part of the screen that has the list, with its frame.
pub fn handle_mouse(
    app: &mut App,
    mouse: Mouse,
    column: u16,
    row: u16,
    body: Area,
    inside_mnml: bool,
    now: Option<u64>,
) -> (r: Effect)
    requires
        old(app).wf(),
    ensures
        final(app).wf(),
        (final(app)@, r@) == moused(
            old(app)@,
            mouse,
            column as int,
            row as int,
            body,
            inside_mnml,
            now,
        ),
{
    if app.logs_view.is_some() {
        match mouse {
            Mouse::ScrollUp => app.logs_scroll(-3),
            Mouse::ScrollDown => app.logs_scroll(3),
            _ => {},
        }
        return ask(None);
    }
    if app.deployment_history.is_some() {
        match mouse {
            Mouse::ScrollUp => app.deployment_history_move(-3),
            Mouse::ScrollDown => app.deployment_history_move(3),
            _ => {},
        }
        return ask(None);
    }
    if !body.contains(column, row) {
        return ask(None);
    }
    let rows = app.visible_rows_at(now);
    let i: usize = match find_row_at(app, &rows, row, body, inside_mnml) {
        Some(i) => i,
        None => {
            return ask(None);
        },
    };
    match mouse {
        Mouse::Press => {
            app.select(i);
            let column: u16 = column - body.x;
            if let VisibleRow::Branch { app_id, branch_name } = &rows[i] {
                if 4 <= column && column <= 5 {
                    return ask(app.toggle_branch_expand(app_id.as_str(), branch_name.as_str()));
                }
            }
            ask(app.enter_focused(now))
        },
        Mouse::RightPress => {
            app.select(i);
            if let VisibleRow::AppHeader { .. } = &rows[i] {
                return save(app.toggle_hide_selected(now));
            }
            ask(app.enter_focused(now))
        },
        Mouse::ScrollUp => {
            app.move_selection(-3, now);
            ask(None)
        },
        Mouse::ScrollDown => {
            app.move_selection(3, now);
            ask(None)
        },
        Mouse::Other => ask(None),
    }
}

/// A press of the right button on the header of an app hides that app, or shows
/// it again, and no other one.
pub proof fn law_right_press_hides_pressed_app(
    a: AppV,
    i: int,
    items_index: usize,
    expanded: bool,
    other: Seq<char>,
    now: Option<u64>,
)
    requires
        0 <= i < a.rows(now).len(),
        a.rows(now)[i] == (VisibleRow::AppHeader { items_index, expanded }),
    ensures
        ({
            let id = a.apps.items[items_index as int].app_id@;
            let b = right_pressed(a, i, now).0;
            &&& text::among(b.cfg.hidden, id) == !text::among(a.cfg.hidden, id)
            &&& other != id ==> text::among(b.cfg.hidden, other) == text::among(a.cfg.hidden, other)
        }),
{
    laws::lemma_rows_at(a, i, now);
    laws::law_selected_app_is_hidden(a.at_row(i), items_index, expanded, other, now);
}

/// While logs are shown, or the deployments of a branch, the mouse changes
/// nothing in the list.
pub proof fn law_overlay_takes_the_mouse(
    a: AppV,
    mouse: Mouse,
    column: int,
    row: int,
    body: Area,
    inside_mnml: bool,
    now: Option<u64>,
)
    requires
        a.logs is Some || a.history is Some,
    ensures
        moused(a, mouse, column, row, body, inside_mnml, now).0.apps == a.apps,
        moused(a, mouse, column, row, body, inside_mnml, now).1 == keys::idle(),
{
}

} // verus!
