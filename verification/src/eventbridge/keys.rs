//! What the keys and the mouse do in the schedules browser.

use vstd::prelude::*;

use crate::eventbridge::app;
use crate::eventbridge::app::{App, AppV, Mode, Request, RequestV};
use crate::keys;
use crate::keys::{Key, Mouse};
use crate::rows;
use crate::rows::find_row;
use crate::text::owned;

verus! {

/// The state with the selection moved by `delta`, before the schedule there is
/// looked up.
pub open spec fn moved(a: AppV, delta: int) -> AppV {
    a.at_row(keys::clamped(a.selected, delta, a.schedules.len() as int))
}

/// A move of the selection.
pub open spec fn move_to(a: AppV, delta: int) -> (AppV, Option<RequestV>) {
    if a.schedules.len() == 0 {
        (a, None)
    } else {
        (moved(a, delta).refresh_detail(), moved(a, delta).detail_request())
    }
}

/// What a key does while the list is browsed.
pub open spec fn browsed(a: AppV, key: Key, ctrl: bool) -> (AppV, Option<RequestV>) {
    match key {
        Key::Char(c) => if (c == 'c' && ctrl) || c == 'q' {
            (AppV { should_quit: true, ..a }, None)
        } else if c == 'r' {
            (a.refresh_list(), Some(RequestV::List))
        } else if c == 'j' {
            move_to(a, 1)
        } else if c == 'k' {
            move_to(a, -1)
        } else if c == 'l' {
            (a.expand_selected(), None)
        } else if c == 'h' {
            (a.collapse_selected(), None)
        } else if c == ' ' {
            (a.toggled(a.selected), None)
        } else if c == 'e' {
            (a.enter_edit(), None)
        } else if c == 't' {
            (a.toggle_state(), a.toggle_request())
        } else {
            (a, None)
        },
        Key::Down => move_to(a, 1),
        Key::Up => move_to(a, -1),
        Key::PageDown => move_to(a, 10),
        Key::PageUp => move_to(a, -10),
        Key::Right => (a.expand_selected(), None),
        Key::Left => (a.collapse_selected(), None),
        Key::Enter => (a.toggled(a.selected), None),
        _ => (a, None),
    }
}

/// What a key does while a schedule is edited.
pub open spec fn edited(a: AppV, key: Key, ctrl: bool) -> (AppV, Option<RequestV>) {
    let e = a.edit;
    match key {
        Key::Esc => (a.cancel_edit(), None),
        Key::Tab => (AppV { edit: e.switched(), ..a }, None),
        Key::Left => (AppV { edit: e.left(), ..a }, None),
        Key::Right => (AppV { edit: e.right(), ..a }, None),
        Key::Up => (AppV { edit: e.up(), ..a }, None),
        Key::Down => (AppV { edit: e.down(), ..a }, None),
        Key::Home => (AppV { edit: e.home(), ..a }, None),
        Key::End => (AppV { edit: e.end(), ..a }, None),
        Key::Delete => (AppV { edit: e.deleted(), ..a }, None),
        Key::Backspace => (AppV { edit: e.backspaced(), ..a }, None),
        Key::Enter => (AppV { edit: e.new_line(), ..a }, None),
        Key::Char(c) => if !ctrl {
            (AppV { edit: e.inserted(c), ..a }, None)
        } else if c == 's' {
            (a.save_edit(), a.save_request())
        } else if c == 'a' {
            (AppV { edit: e.home(), ..a }, None)
        } else if c == 'e' {
            (AppV { edit: e.end(), ..a }, None)
        } else {
            (a, None)
        },
        _ => (a, None),
    }
}

/// What a key does.
pub open spec fn handled(a: AppV, key: Key, ctrl: bool) -> (AppV, Option<RequestV>) {
    match a.mode {
        Mode::Browse => browsed(a, key, ctrl),
        Mode::Edit => edited(a, key, ctrl),
        Mode::Saving => if key == Key::Esc {
            (AppV { status: "waiting for save to complete…"@, ..a }, None)
        } else {
            (a, None)
        },
    }
}

/// Does what a key does, and says what is to be asked of AWS.
pub fn handle(app: &mut App, key: Key, ctrl: bool) -> (r: Option<Request>)
    requires
        old(app).edit.wf(),
    ensures
        (final(app)@, app::opt_request(r)) == handled(old(app)@, key, ctrl),
        final(app).edit.wf(),
{
    match app.mode {
        Mode::Browse => browse(app, key, ctrl),
        Mode::Edit => edit(app, key, ctrl),
        Mode::Saving => {
            if key == Key::Esc {
                app.status = owned("waiting for save to complete…");
            }
            None
        },
    }
}

fn browse(app: &mut App, key: Key, ctrl: bool) -> (r: Option<Request>)
    requires
        old(app).edit.wf(),
    ensures
        (final(app)@, app::opt_request(r)) == browsed(old(app)@, key, ctrl),
        final(app).edit.wf(),
{
    match key {
        Key::Char(c) => {
            if (c == 'c' && ctrl) || c == 'q' {
                app.should_quit = true;
                None
            } else if c == 'r' {
                Some(app.refresh_list())
            } else if c == 'j' {
                app.move_selection(1)
            } else if c == 'k' {
                app.move_selection(-1)
            } else if c == 'l' {
                app.expand_selected();
                None
            } else if c == 'h' {
                app.collapse_selected();
                None
            } else if c == ' ' {
                let selected: usize = app.selected;
                app.toggle_expand_at(selected);
                None
            } else if c == 'e' {
                app.enter_edit();
                None
            } else if c == 't' {
                app.toggle_state()
            } else {
                None
            }
        },
        Key::Down => app.move_selection(1),
        Key::Up => app.move_selection(-1),
        Key::PageDown => app.move_selection(10),
        Key::PageUp => app.move_selection(-10),
        Key::Right => {
            app.expand_selected();
            None
        },
        Key::Left => {
            app.collapse_selected();
            None
        },
        Key::Enter => {
            let selected: usize = app.selected;
            app.toggle_expand_at(selected);
            None
        },
        _ => None,
    }
}

fn edit(app: &mut App, key: Key, ctrl: bool) -> (r: Option<Request>)
    requires
        old(app).edit.wf(),
    ensures
        (final(app)@, app::opt_request(r)) == edited(old(app)@, key, ctrl),
        final(app).edit.wf(),
{
    match key {
        Key::Esc => app.cancel_edit(),
        Key::Tab => app.edit.switch_focus(),
        Key::Left => app.edit.move_left(),
        Key::Right => app.edit.move_right(),
        Key::Up => app.edit.move_up(),
        Key::Down => app.edit.move_down(),
        Key::Home => app.edit.move_home(),
        Key::End => app.edit.move_end(),
        Key::Delete => app.edit.delete_forward(),
        Key::Backspace => app.edit.backspace(),
        Key::Enter => app.edit.insert_newline(),
        Key::Char(c) => {
            if !ctrl {
                app.edit.insert_char(c);
            } else if c == 's' {
                return app.save_edit();
            } else if c == 'a' {
                app.edit.move_home();
            } else if c == 'e' {
                app.edit.move_end();
            }
        },
        _ => {},
    }
    None
}

/// What the mouse does at line `y`: a press selects a row, or shows and hides
/// what the selected one has; the wheel scrolls. While a schedule is edited
/// the mouse does nothing.
pub open spec fn clicked(a: AppV, mouse: Mouse, y: u16) -> (AppV, Option<RequestV>) {
    if a.mode != Mode::Browse {
        (a, None)
    } else {
        match mouse {
            Mouse::Press => match rows::row_hit(a.row_hits, y) {
                Some(i) => if a.selected == i {
                    (a.toggled(i as int), None)
                } else {
                    (a.at_row(i as int).refresh_detail(), a.at_row(i as int).detail_request())
                },
                None => (a, None),
            },
            Mouse::ScrollDown => (
                AppV { scroll_offset: rows::scrolled_down(a.scroll_offset), ..a },
                None,
            ),
            Mouse::ScrollUp => (
                AppV { scroll_offset: rows::scrolled_up(a.scroll_offset), ..a },
                None,
            ),
            _ => (a, None),
        }
    }
}

/// Does what the mouse does, and says what is to be asked of AWS.
pub fn handle_mouse(app: &mut App, mouse: Mouse, y: u16) -> (r: Option<Request>)
    requires
        old(app).edit.wf(),
    ensures
        (final(app)@, app::opt_request(r)) == clicked(old(app)@, mouse, y),
        final(app).edit.wf(),
{
    if app.mode != Mode::Browse {
        return None;
    }
    match mouse {
        Mouse::Press => {
            match find_row(&app.row_hits, y) {
                Some(i) => {
                    if app.selected == i {
                        app.toggle_expand_at(i);
                        None
                    } else {
                        app.select(i)
                    }
                },
                None => None,
            }
        },
        Mouse::ScrollDown => {
            app.scroll_offset = app.scroll_offset.saturating_add(3);
            None
        },
        Mouse::ScrollUp => {
            app.scroll_offset = app.scroll_offset.saturating_sub(3);
            None
        },
        _ => None,
    }
}

/// While a change is being saved, no key changes anything but the status.
pub proof fn law_saving_ignores_keys(a: AppV, key: Key, ctrl: bool)
    requires
        a.mode == Mode::Saving,
    ensures
        handled(a, key, ctrl).1 is None,
        handled(a, key, ctrl).0 == (AppV { status: handled(a, key, ctrl).0.status, ..a }),
{
}

/// Escape leaves the editor and changes no schedule.
pub proof fn law_escape_cancels(a: AppV, ctrl: bool)
    requires
        a.mode == Mode::Edit,
    ensures
        handled(a, Key::Esc, ctrl).0.mode == Mode::Browse,
        handled(a, Key::Esc, ctrl).0.detail_cache == a.detail_cache,
        handled(a, Key::Esc, ctrl).0.detail == a.detail,
        handled(a, Key::Esc, ctrl).1 is None,
{
}

/// A key keeps the selection in the list.
pub proof fn law_keys_keep_selection(a: AppV, key: Key, ctrl: bool)
    requires
        app::selection_in_list(a),
    ensures
        app::selection_in_list(handled(a, key, ctrl).0),
{
    match a.mode {
        Mode::Browse => lemma_browsing_keeps_selection(a, key, ctrl),
        Mode::Edit => lemma_editing_keeps_selection(a, key, ctrl),
        Mode::Saving => {},
    }
}

#[verifier::spinoff_prover]
proof fn lemma_browsing_keeps_selection(a: AppV, key: Key, ctrl: bool)
    requires
        app::selection_in_list(a),
    ensures
        app::selection_in_list(browsed(a, key, ctrl).0),
{
}

#[verifier::spinoff_prover]
proof fn lemma_editing_keeps_selection(a: AppV, key: Key, ctrl: bool)
    ensures
        edited(a, key, ctrl).0.selected == a.selected,
        edited(a, key, ctrl).0.schedules == a.schedules,
{
}

} // verus!
