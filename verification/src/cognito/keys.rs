//! What the keys do in the users browser.

use vstd::prelude::*;

use crate::cognito::app::App;
use crate::keys;
use crate::keys::{common_of, Common, Key};

verus! {

/// What a key asks for.
#[derive(Clone, Copy, Debug, PartialEq, Eq, Structural)]
pub enum Action {
    /// What all browsers with tabs know.
    Common(Common),
    /// Copy the id of the selected item.
    YankId,
    /// Start to type a query.
    EnterSearch,
    SearchChar(char),
    SearchBackspace,
    /// List what the query finds.
    SearchCommit,
    /// Drop the query, and the filter with it.
    SearchCancel,
}

/// What a key asks for while a query is typed: all keys go to it.
pub open spec fn searching_action(key: Key, ctrl: bool) -> Option<Action> {
    match key {
        Key::Enter => Some(Action::SearchCommit),
        Key::Esc => Some(Action::SearchCancel),
        Key::Backspace => Some(Action::SearchBackspace),
        Key::Char(c) => if ctrl {
            None
        } else {
            Some(Action::SearchChar(c))
        },
        _ => None,
    }
}

/// What a key asks for that only this browser knows.
pub open spec fn own_action(key: Key) -> Option<Action> {
    match key {
        Key::Char(c) => if c == 'y' {
            Some(Action::YankId)
        } else if c == '/' {
            Some(Action::EnterSearch)
        } else {
            None
        },
        Key::Esc => Some(Action::SearchCancel),
        _ => None,
    }
}

/// What a key asks for, with tab `active` of `tabs` shown.
pub open spec fn action(key: Key, ctrl: bool, searching: bool, active: int, tabs: int) -> Option<Action> {
    if searching {
        searching_action(key, ctrl)
    } else {
        match keys::common(key, ctrl, active, tabs) {
            Common::Other => own_action(key),
            what => Some(Action::Common(what)),
        }
    }
}

/// What a key asks for; nothing where it is not bound.
pub fn handle(key: Key, ctrl: bool, app: &App) -> (r: Option<Action>)
    requires
        app.active_tab < app.tabs@.len(),
    ensures
        r == action(
            key,
            ctrl,
            app.query_editing is Some,
            app.active_tab as int,
            app.tabs@.len() as int,
        ),
{
    if app.query_editing.is_some() {
        return match key {
            Key::Enter => Some(Action::SearchCommit),
            Key::Esc => Some(Action::SearchCancel),
            Key::Backspace => Some(Action::SearchBackspace),
            Key::Char(c) => {
                if ctrl {
                    None
                } else {
                    Some(Action::SearchChar(c))
                }
            },
            _ => None,
        };
    }
    match common_of(key, ctrl, app.active_tab, app.tabs.len()) {
        Common::Other => match key {
            Key::Char(c) => {
                if c == 'y' {
                    Some(Action::YankId)
                } else if c == '/' {
                    Some(Action::EnterSearch)
                } else {
                    None
                }
            },
            Key::Esc => Some(Action::SearchCancel),
            _ => None,
        },
        what => Some(Action::Common(what)),
    }
}

/// While a query is typed no key moves the selection, shows another tab or
/// quits: each character typed goes to the query.
pub proof fn law_typing_stays_in_the_query(key: Key, ctrl: bool, active: int, tabs: int)
    ensures
        !(action(key, ctrl, true, active, tabs) matches Some(Action::Common(_))),
        !ctrl && key is Char ==> action(key, ctrl, true, active, tabs) == Some(
            Action::SearchChar(key->Char_0),
        ),
{
}

} // verus!
