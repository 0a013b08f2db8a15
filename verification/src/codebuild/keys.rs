//! What the keys and the mouse do in the projects browser.

use vstd::prelude::*;

use crate::codebuild::app;
use crate::codebuild::app::{App, AppV, Request, RequestV};
use crate::keys::{Key, Mouse};
use crate::rows;
use crate::rows::find_row;

verus! {

/// What a key does.
pub open spec fn handled(a: AppV, key: Key, ctrl: bool) -> (AppV, Option<RequestV>) {
    match key {
        Key::Char(c) => if (c == 'c' && ctrl) || c == 'q' {
            (AppV { should_quit: true, ..a }, None)
        } else if c == 'r' {
            (a.refreshed(), Some(RequestV::Projects))
        } else if c == 'j' {
            (a.moved(1), None)
        } else if c == 'k' {
            (a.moved(-1), None)
        } else if c == 'l' {
            (a.expand_selected(), None)
        } else if c == 'h' {
            (a.collapse_selected(), None)
        } else if c == ' ' {
            (a.toggled(a.selected), None)
        } else if c == 's' {
            (a.start_build(), a.start_request())
        } else {
            (a, None)
        },
        Key::Down => (a.moved(1), None),
        Key::Up => (a.moved(-1), None),
        Key::PageDown => (a.moved(10), None),
        Key::PageUp => (a.moved(-10), None),
        Key::Right => (a.expand_selected(), None),
        Key::Left => (a.collapse_selected(), None),
        Key::Enter => (a.toggled(a.selected), None),
        _ => (a, None),
    }
}

/// Does what a key does, and says what is to be asked of AWS.
pub fn handle(app: &mut App, key: Key, ctrl: bool) -> (r: Option<Request>)
    ensures
        (final(app)@, app::opt_request(r)) == handled(old(app)@, key, ctrl),
{
    match key {
        Key::Char(c) => {
            if (c == 'c' && ctrl) || c == 'q' {
                app.should_quit = true;
            } else if c == 'r' {
                return Some(app.refresh());
            } else if c == 'j' {
                app.move_selection(1);
            } else if c == 'k' {
                app.move_selection(-1);
            } else if c == 'l' {
                app.expand_selected();
            } else if c == 'h' {
                app.collapse_selected();
            } else if c == ' ' {
                app.toggle_expand_at(app.selected);
            } else if c == 's' {
                return app.start_build();
            }
        },
        Key::Down => app.move_selection(1),
        Key::Up => app.move_selection(-1),
        Key::PageDown => app.move_selection(10),
        Key::PageUp => app.move_selection(-10),
        Key::Right => app.expand_selected(),
        Key::Left => app.collapse_selected(),
        Key::Enter => app.toggle_expand_at(app.selected),
        _ => {},
    }
    None
}

/// What the mouse does at line `y`: a press selects a row, or shows and hides
/// what the selected one has; the wheel scrolls.
pub open spec fn clicked(a: AppV, mouse: Mouse, y: u16) -> AppV {
    match mouse {
        Mouse::Press => match rows::row_hit(a.row_hits, y) {
            Some(i) => if a.selected == i {
                a.toggled(i as int)
            } else {
                AppV { selected: i as int, ..a }
            },
            None => a,
        },
        Mouse::ScrollDown => AppV { scroll_offset: rows::scrolled_down(a.scroll_offset), ..a },
        Mouse::ScrollUp => AppV { scroll_offset: rows::scrolled_up(a.scroll_offset), ..a },
        _ => a,
    }
}

/// Does what the mouse does.
pub fn handle_mouse(app: &mut App, mouse: Mouse, y: u16)
    ensures
        final(app)@ == clicked(old(app)@, mouse, y),
{
    match mouse {
        Mouse::Press => {
            if let Some(i) = find_row(&app.row_hits, y) {
                if app.selected == i {
                    app.toggle_expand_at(i);
                } else {
                    app.selected = i;
                }
            }
        },
        Mouse::ScrollDown => {
            app.scroll_offset = app.scroll_offset.saturating_add(3);
        },
        Mouse::ScrollUp => {
            app.scroll_offset = app.scroll_offset.saturating_sub(3);
        },
        _ => {},
    }
}

/// A key keeps the selection in the list.
pub proof fn law_keys_keep_selection(a: AppV, key: Key, ctrl: bool)
    requires
        app::selection_in_list(a),
    ensures
        app::selection_in_list(handled(a, key, ctrl).0),
{
}

} // verus!
