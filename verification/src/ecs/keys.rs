//! What the keys do in the services browser.

use vstd::prelude::*;

use crate::ecs::app::App;
use crate::keys;
use crate::keys::{common_of, Common, Key};

verus! {

/// What a key asks for.
#[derive(Clone, Copy, Debug, PartialEq, Eq, Structural)]
pub enum Action {
    /// What all browsers with tabs know.
    Common(Common),
    /// Copy the ARN of the selected item.
    YankArn,
    /// Follow the logs of the selected service.
    TailLogs,
    /// Show the repository of the selected service.
    HandoffEcr,
}

/// What a key asks for that only this browser knows.
pub open spec fn own_action(key: Key) -> Option<Action> {
    match key {
        Key::Char(c) => if c == 'y' {
            Some(Action::YankArn)
        } else if c == 'L' {
            Some(Action::TailLogs)
        } else if c == 'R' {
            Some(Action::HandoffEcr)
        } else {
            None
        },
        _ => None,
    }
}

/// What a key asks for, with tab `active` of `tabs` shown.
pub open spec fn action(key: Key, ctrl: bool, active: int, tabs: int) -> Option<Action> {
    match keys::common(key, ctrl, active, tabs) {
        Common::Other => own_action(key),
        what => Some(Action::Common(what)),
    }
}

/// What a key asks for; nothing where it is not bound.
pub fn handle(key: Key, ctrl: bool, app: &App) -> (r: Option<Action>)
    requires
        app.active_tab < app.tabs@.len(),
    ensures
        r == action(key, ctrl, app.active_tab as int, app.tabs@.len() as int),
{
    match common_of(key, ctrl, app.active_tab, app.tabs.len()) {
        Common::Other => match key {
            Key::Char(c) => {
                if c == 'y' {
                    Some(Action::YankArn)
                } else if c == 'L' {
                    Some(Action::TailLogs)
                } else if c == 'R' {
                    Some(Action::HandoffEcr)
                } else {
                    None
                }
            },
            _ => None,
        },
        what => Some(Action::Common(what)),
    }
}

} // verus!
