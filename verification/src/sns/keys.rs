//! What the keys do in the topics browser.

use vstd::prelude::*;

use crate::command::Launch;
use crate::keys::Key;
use crate::sns::app;
use crate::sns::app::{App, Fetch, Publish, Wanted};
use crate::text;

verus! {

/// What a key asks for.
#[derive(Clone, Copy, Debug, PartialEq, Eq, Structural)]
pub enum Action {
    Quit,
    Up,
    Down,
    PageUp,
    PageDown,
    Home,
    End,
    OpenConsole,
    YankArn,
    YankEndpoint,
    HandoffEndpoint,
    EnterPublish,
    PublishChar(char),
    PublishBackspace,
    PublishCommit,
    PublishCancel,
    Refresh,
    SwitchTab(usize),
    NextTab,
    PrevTab,
}

/// What a key asks for while a test message is written: all keys go to it.
pub open spec fn writing_action(key: Key, ctrl: bool) -> Option<Action> {
    match key {
        Key::Enter => Some(Action::PublishCommit),
        Key::Esc => Some(Action::PublishCancel),
        Key::Backspace => Some(Action::PublishBackspace),
        Key::Char(c) => if ctrl {
            None
        } else {
            Some(Action::PublishChar(c))
        },
        _ => None,
    }
}

/// What a key asks for while a list is browsed.
pub open spec fn browsing_action(key: Key, ctrl: bool) -> Option<Action> {
    match key {
        Key::Up => Some(Action::Up),
        Key::Down => Some(Action::Down),
        Key::PageUp => Some(Action::PageUp),
        Key::PageDown => Some(Action::PageDown),
        Key::Home => Some(Action::Home),
        Key::End => Some(Action::End),
        Key::Enter => Some(Action::OpenConsole),
        Key::Tab => Some(Action::NextTab),
        Key::BackTab => Some(Action::PrevTab),
        Key::Char(c) => if c == 'q' {
            Some(Action::Quit)
        } else if c == 'c' && ctrl {
            Some(Action::Quit)
        } else if c == 'k' {
            Some(Action::Up)
        } else if c == 'j' {
            Some(Action::Down)
        } else if c == 'g' {
            Some(Action::Home)
        } else if c == 'G' {
            Some(Action::End)
        } else if c == 'o' {
            Some(Action::OpenConsole)
        } else if c == 'y' {
            Some(Action::YankArn)
        } else if c == 'Y' {
            Some(Action::YankEndpoint)
        } else if c == 'L' {
            Some(Action::HandoffEndpoint)
        } else if c == 'P' {
            Some(Action::EnterPublish)
        } else if c == 'r' {
            Some(Action::Refresh)
        } else if '1' <= c <= '9' {
            Some(Action::SwitchTab((c as int - '1' as int) as usize))
        } else {
            None
        },
        _ => None,
    }
}

/// What a key asks for.
pub fn handle(key: Key, ctrl: bool, app: &App) -> (r: Option<Action>)
    ensures
        r == (if app.publish_editing is Some {
            writing_action(key, ctrl)
        } else {
            browsing_action(key, ctrl)
        }),
{
    if app.publish_editing.is_some() {
        return match key {
            Key::Enter => Some(Action::PublishCommit),
            Key::Esc => Some(Action::PublishCancel),
            Key::Backspace => Some(Action::PublishBackspace),
            Key::Char(c) => {
                if ctrl {
                    None
                } else {
                    Some(Action::PublishChar(c))
                }
            },
            _ => None,
        };
    }
    match key {
        Key::Up => Some(Action::Up),
        Key::Down => Some(Action::Down),
        Key::PageUp => Some(Action::PageUp),
        Key::PageDown => Some(Action::PageDown),
        Key::Home => Some(Action::Home),
        Key::End => Some(Action::End),
        Key::Enter => Some(Action::OpenConsole),
        Key::Tab => Some(Action::NextTab),
        Key::BackTab => Some(Action::PrevTab),
        Key::Char(c) => {
            if c == 'q' || (c == 'c' && ctrl) {
                Some(Action::Quit)
            } else if c == 'k' {
                Some(Action::Up)
            } else if c == 'j' {
                Some(Action::Down)
            } else if c == 'g' {
                Some(Action::Home)
            } else if c == 'G' {
                Some(Action::End)
            } else if c == 'o' {
                Some(Action::OpenConsole)
            } else if c == 'y' {
                Some(Action::YankArn)
            } else if c == 'Y' {
                Some(Action::YankEndpoint)
            } else if c == 'L' {
                Some(Action::HandoffEndpoint)
            } else if c == 'P' {
                Some(Action::EnterPublish)
            } else if c == 'r' {
                Some(Action::Refresh)
            } else if '1' <= c && c <= '9' {
                let b: u8 = c as u8;
                Some(Action::SwitchTab((b - 49) as usize))
            } else {
                None
            }
        },
        _ => None,
    }
}

/// What is to be done outside after an action.
pub enum Effect {
    Nothing,
    Quit,
    /// Load a list, and then ask for the attributes of the selected topic
    /// where `then_attributes` says so.
    Load { fetch: Fetch, then_attributes: bool },
    /// Read the attributes of a topic.
    Attributes(Wanted),
    /// Open a page.
    Open(String),
    CopyArn(String),
    CopyEndpoint(String),
    Start(Launch),
    Send(Publish),
}

fn want(w: Option<Wanted>) -> (r: Effect)
    ensures
        r == (match w {
            Some(x) => Effect::Attributes(x),
            None => Effect::Nothing,
        }),
{
    match w {
        Some(x) => Effect::Attributes(x),
        None => Effect::Nothing,
    }
}

/// The number of the tab behind the one that is shown, round in a circle.
pub open spec fn next_tab(active: int, n: int) -> int {
    (active + 1) % n
}

/// The number of the tab in front of the one that is shown, round in a circle.
pub open spec fn prev_tab(active: int, n: int) -> int {
    if active == 0 {
        n - 1
    } else {
        active - 1
    }
}

/// How far an action moves the selection.
pub open spec fn step_of(action: Action) -> Option<int> {
    match action {
        Action::Up => Some(-1),
        Action::Down => Some(1),
        Action::PageUp => Some(-10),
        Action::PageDown => Some(10),
        Action::Home => Some(-(i32::MAX as int)),
        Action::End => Some(i32::MAX as int),
        _ => None,
    }
}

/// The tab that an action shows.
pub open spec fn tab_of(action: Action, active: int, n: int) -> Option<int> {
    match action {
        Action::SwitchTab(i) => Some(i as int),
        Action::NextTab => Some(next_tab(active, n)),
        Action::PrevTab => Some(prev_tab(active, n)),
        _ => None,
    }
}

/// The effect of moving the selection, or of showing another tab.
pub open spec fn is_wanted(e: Effect, w: Option<app::WantedV>) -> bool {
    match w {
        Some(v) => e matches Effect::Attributes(x) && app::wanted_view(Some(x)) == w,
        None => e is Nothing,
    }
}

/// Nothing is selected: the status says so.
pub open spec fn nothing_there(e: Effect, before: App, after: App) -> bool {
    e is Nothing && after.browser() == before.browser().with_status("no item under cursor"@)
}

/// Does what an action asks for, and says what is to be done outside.
pub fn apply(action: Action, app: &mut App) -> (r: Effect)
    requires
        old(app).wf(),
    ensures
        final(app).wf(),
        final(app).cfg == old(app).cfg,
        (r is Quit) == (action == Action::Quit),
        action == Action::Quit ==> *final(app) == *old(app),
        step_of(action) matches Some(d) ==> {
            &&& final(app).same_aside(*old(app))
            &&& final(app).browser() == old(app).browser().moved(d)
            &&& is_wanted(r, app::attributes_due(old(app).browser().moved(d)))
        },
        tab_of(action, old(app).active_tab as int, old(app).tabs.len() as int) matches Some(i) ==> {
            let b = old(app).browser().switched(i);
            &&& final(app).same_aside(*old(app))
            &&& if old(app).browser().due_on_switch(i) {
                &&& final(app).browser() == b.begun()
                &&& r matches Effect::Load { fetch, then_attributes }
                &&& fetch@ == app::fetch_for(b.active().spec@)
                &&& then_attributes
            } else {
                &&& final(app).browser() == b
                &&& is_wanted(
                    r,
                    if 0 <= i < old(app).tabs.len() {
                        app::attributes_due(b)
                    } else {
                        None
                    },
                )
            }
        },
        action == Action::Refresh ==> {
            &&& final(app).same_aside(*old(app))
            &&& final(app).browser() == old(app).browser().begun()
            &&& r matches Effect::Load { fetch, then_attributes }
            &&& fetch@ == app::fetch_for(old(app).browser().active().spec@)
            &&& !then_attributes
        },
        action == Action::OpenConsole ==> {
            &&& final(app).publish_editing == old(app).publish_editing
            &&& match old(app).browser().list().focused() {
                Some(x) => {
                    &&& final(app).browser() == old(app).browser()
                    &&& r matches Effect::Open(u)
                    &&& u@ == app::console_url(old(app).browser().active().spec@.region, x)
                },
                None => nothing_there(r, *old(app), *final(app)),
            }
        },
        action == Action::YankArn ==> {
            &&& final(app).publish_editing == old(app).publish_editing
            &&& match old(app).browser().list().focused() {
                Some(x) => match app::arn_to_copy(x) {
                    Ok(a) => {
                        &&& final(app).browser() == old(app).browser()
                        &&& r matches Effect::CopyArn(t)
                        &&& t@ == a
                    },
                    Err(m) => r is Nothing && final(app).browser() == old(app).browser().with_status(m),
                },
                None => nothing_there(r, *old(app), *final(app)),
            }
        },
        action == Action::YankEndpoint ==> {
            &&& final(app).publish_editing == old(app).publish_editing
            &&& match old(app).browser().list().focused() {
                Some(x) => if app::endpoint_to_copy(x).len() > 0 {
                    &&& final(app).browser() == old(app).browser()
                    &&& r matches Effect::CopyEndpoint(t)
                    &&& t@ == app::endpoint_to_copy(x)
                } else {
                    r is Nothing && final(app).browser() == old(app).browser().with_status(
                        "no endpoint to copy"@,
                    )
                },
                None => nothing_there(r, *old(app), *final(app)),
            }
        },
        action == Action::HandoffEndpoint ==> {
            &&& final(app).publish_editing == old(app).publish_editing
            &&& match old(app).browser().list().focused() {
                Some(x) => match app::endpoint_launch(x) {
                    Ok(l) => {
                        &&& final(app).browser() == old(app).browser()
                        &&& r matches Effect::Start(s)
                        &&& s@ == l
                    },
                    Err(m) => r is Nothing && final(app).browser() == old(app).browser().with_status(m),
                },
                None => nothing_there(r, *old(app), *final(app)),
            }
        },
        action == Action::EnterPublish ==> {
            let b = old(app).browser();
            &&& r is Nothing
            &&& final(app).browser() == app::publish_entered(b)
            &&& text::opt_view(final(app).publish_editing) == (if app::on_topic(b) {
                Some(Seq::<char>::empty())
            } else {
                text::opt_view(old(app).publish_editing)
            })
        },
        action matches Action::PublishChar(c) ==> {
            &&& r is Nothing
            &&& final(app).browser() == old(app).browser()
            &&& text::opt_view(final(app).publish_editing) == app::message_pushed(
                text::opt_view(old(app).publish_editing),
                c,
            )
        },
        action == Action::PublishBackspace ==> {
            &&& r is Nothing
            &&& final(app).browser() == old(app).browser()
            &&& text::opt_view(final(app).publish_editing) == app::message_popped(
                text::opt_view(old(app).publish_editing),
            )
        },
        action == Action::PublishCancel ==> {
            &&& r is Nothing
            &&& final(app).publish_editing is None
            &&& final(app).browser() == (if old(app).publish_editing is Some {
                old(app).browser().with_status("publish cancelled"@)
            } else {
                old(app).browser()
            })
        },
        action == Action::PublishCommit ==> {
            let b = old(app).browser();
            let message = text::opt_view(old(app).publish_editing);
            &&& final(app).publish_editing is None
            &&& final(app).browser() == app::publish_committed(b, message)
            &&& match app::publish_due(b, message) {
                Some(due) => r matches Effect::Send(p) && app::publish_view(Some(p)) == Some(due),
                None => r is Nothing,
            }
        },
{
    match action {
        Action::Quit => Effect::Quit,
        Action::Up => want(app.move_selection(-1)),
        Action::Down => want(app.move_selection(1)),
        Action::PageUp => want(app.move_selection(-10)),
        Action::PageDown => want(app.move_selection(10)),
        Action::Home => want(app.move_selection(-(i32::MAX as isize))),
        Action::End => want(app.move_selection(i32::MAX as isize)),
        Action::OpenConsole => match app.open_console() {
            Some(u) => Effect::Open(u),
            None => Effect::Nothing,
        },
        Action::YankArn => match app.yank_arn() {
            Some(t) => Effect::CopyArn(t),
            None => Effect::Nothing,
        },
        Action::YankEndpoint => match app.yank_endpoint() {
            Some(t) => Effect::CopyEndpoint(t),
            None => Effect::Nothing,
        },
        Action::HandoffEndpoint => match app.handoff_endpoint() {
            Some(l) => Effect::Start(l),
            None => Effect::Nothing,
        },
        Action::EnterPublish => {
            app.enter_publish_mode();
            Effect::Nothing
        },
        Action::PublishChar(c) => {
            app.publish_input_char(c);
            Effect::Nothing
        },
        Action::PublishBackspace => {
            app.publish_input_backspace();
            Effect::Nothing
        },
        Action::PublishCommit => match app.publish_commit() {
            Some(p) => Effect::Send(p),
            None => Effect::Nothing,
        },
        Action::PublishCancel => {
            app.publish_cancel();
            Effect::Nothing
        },
        Action::Refresh => Effect::Load { fetch: app.refresh_active(), then_attributes: false },
        Action::NextTab => {
            let n: usize = app.tabs.len();
            let next: usize = if app.active_tab + 1 == n { 0 } else { app.active_tab + 1 };
            proof {
                law_next_then_previous(app.active_tab as int, n as int);
            }
            show(app, next)
        },
        Action::PrevTab => {
            let prev: usize = if app.active_tab == 0 { app.tabs.len() - 1 } else { app.active_tab - 1 };
            show(app, prev)
        },
        Action::SwitchTab(i) => show(app, i),
    }
}

fn show(app: &mut App, i: usize) -> (r: Effect)
    requires
        old(app).wf(),
    ensures
        final(app).wf(),
        final(app).same_aside(*old(app)),
        ({
            let b = old(app).browser().switched(i as int);
            if old(app).browser().due_on_switch(i as int) {
                &&& final(app).browser() == b.begun()
                &&& r matches Effect::Load { fetch, then_attributes }
                &&& fetch@ == app::fetch_for(b.active().spec@)
                &&& then_attributes
            } else {
                &&& final(app).browser() == b
                &&& is_wanted(
                    r,
                    if i < old(app).tabs.len() {
                        app::attributes_due(b)
                    } else {
                        None
                    },
                )
            }
        }),
{
    let known = i < app.tabs.len();
    match app.switch_tab(i) {
        Some(fetch) => Effect::Load { fetch, then_attributes: true },
        None => {
            if known {
                want(app.ensure_focused_loaded())
            } else {
                Effect::Nothing
            }
        },
    }
}

/// While a test message is written, no key quits, moves or loads: every key
/// goes to the message.
pub proof fn law_writing_takes_all_keys(key: Key, ctrl: bool)
    ensures
        match writing_action(key, ctrl) {
            None => true,
            Some(a) => a is PublishChar || a is PublishBackspace || a is PublishCommit || a is PublishCancel,
        },
{
}

/// Going to the next tab and back again ends at the same tab.
pub proof fn law_next_then_previous(active: int, n: int)
    requires
        0 <= active < n,
    ensures
        next_tab(active, n) == (if active + 1 == n {
            0
        } else {
            active + 1
        }),
        prev_tab(next_tab(active, n), n) == active,
        next_tab(prev_tab(active, n), n) == active,
        0 <= next_tab(active, n) < n,
        0 <= prev_tab(active, n) < n,
{
    if active + 1 < n {
        assert((active + 1) % n == active + 1) by (nonlinear_arith)
            requires
                0 <= active + 1 < n,
        ;
    } else {
        assert((active + 1) % n == 0) by (nonlinear_arith)
            requires
                active + 1 == n,
                n > 0,
        ;
    }
    if active == 0 {
        assert(n % n == 0) by (nonlinear_arith)
            requires
                n > 0,
        ;
    } else {
        assert(active % n == active) by (nonlinear_arith)
            requires
                0 <= active < n,
        ;
    }
}

} // verus!
