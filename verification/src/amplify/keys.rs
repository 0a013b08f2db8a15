//! What the keys do in the apps browser.

use vstd::prelude::*;

use crate::amplify::actions;
use crate::amplify::amplify::AmplifyBranch;
use crate::amplify::app;
use crate::amplify::app::{App, AppV, HistoryV, LogsV, Request, RequestV, Saving, SavingV};
use crate::command;
use crate::command::{Launch, LaunchV};
use crate::keys;
use crate::keys::Key;
use crate::text;

verus! {

/// What a key asks for.
#[derive(Clone, Copy, Debug, PartialEq, Eq, Structural)]
pub enum Action {
    Quit,
    Refresh,
    Up,
    Down,
    /// Shows the branches of the selected app, or the deployments of the
    /// selected branch.
    ExpandFocused,
    /// Hides what is below the selected row, or goes to the row above it.
    CollapseFocused,
    /// Shows the deployments of the selected branch, or hides them.
    ToggleBranchExpand,
    ExpandAll,
    CollapseAll,
    /// Moves the selected app one place up in the order.
    MoveAppUp,
    /// Moves the selected app one place down in the order.
    MoveAppDown,
    PageUp,
    PageDown,
    Home,
    End,
    EnterFocused,
    OpenInBrowser,
    YankUrl,
    HandoffLogs,
    SwitchTab(usize),
    NextTab,
    PrevTab,
    /// Hides the selected app, or shows it again.
    ToggleHideSelected,
    /// Shows hidden apps too, or not any more.
    ToggleShowHidden,
    /// Shows all hidden apps again.
    UnhideAll,
    CloseLogsView,
    LogsScroll(i32),
    CloseDeploymentHistory,
    DeploymentHistoryMove(isize),
    DeploymentHistoryEnter,
}

/// What a key asks for while logs are shown.
pub open spec fn logs_action(key: Key, ctrl: bool) -> Option<Action> {
    match key {
        Key::Esc => Some(Action::CloseLogsView),
        Key::Up => Some(Action::LogsScroll(-1 as i32)),
        Key::Down => Some(Action::LogsScroll(1)),
        Key::PageUp => Some(Action::LogsScroll(-20 as i32)),
        Key::PageDown => Some(Action::LogsScroll(20)),
        Key::Home => Some(Action::LogsScroll(-9999 as i32)),
        Key::End => Some(Action::LogsScroll(9999)),
        Key::Char(c) => if c == 'c' && ctrl {
            Some(Action::Quit)
        } else if c == 'q' {
            Some(Action::CloseLogsView)
        } else if c == 'k' {
            Some(Action::LogsScroll(-1 as i32))
        } else if c == 'j' {
            Some(Action::LogsScroll(1))
        } else if c == 'g' {
            Some(Action::LogsScroll(-9999 as i32))
        } else if c == 'G' {
            Some(Action::LogsScroll(9999))
        } else {
            None
        },
        _ => None,
    }
}

/// What a key asks for while the deployments of a branch are shown.
pub open spec fn history_action(key: Key, ctrl: bool) -> Option<Action> {
    match key {
        Key::Esc => Some(Action::CloseDeploymentHistory),
        Key::Up => Some(Action::DeploymentHistoryMove(-1 as isize)),
        Key::Down => Some(Action::DeploymentHistoryMove(1)),
        Key::PageUp => Some(Action::DeploymentHistoryMove(-10 as isize)),
        Key::PageDown => Some(Action::DeploymentHistoryMove(10)),
        Key::Home => Some(Action::DeploymentHistoryMove(-9999 as isize)),
        Key::End => Some(Action::DeploymentHistoryMove(9999)),
        Key::Enter => Some(Action::DeploymentHistoryEnter),
        Key::Char(c) => if c == 'c' && ctrl {
            Some(Action::Quit)
        } else if c == 'q' {
            Some(Action::CloseDeploymentHistory)
        } else if c == 'k' {
            Some(Action::DeploymentHistoryMove(-1 as isize))
        } else if c == 'j' {
            Some(Action::DeploymentHistoryMove(1))
        } else if c == 'g' {
            Some(Action::DeploymentHistoryMove(-9999 as isize))
        } else if c == 'G' {
            Some(Action::DeploymentHistoryMove(9999))
        } else {
            None
        },
        _ => None,
    }
}

/// What a character asks for in the list.
pub open spec fn char_action(c: char, ctrl: bool) -> Option<Action> {
    if c == 'q' || (c == 'c' && ctrl) {
        Some(Action::Quit)
    } else if c == 'r' {
        Some(Action::Refresh)
    } else if c == 'k' {
        Some(Action::Up)
    } else if c == 'j' {
        Some(Action::Down)
    } else if c == 'l' {
        Some(Action::ExpandFocused)
    } else if c == 'h' {
        Some(Action::CollapseFocused)
    } else if c == ' ' {
        Some(Action::ToggleBranchExpand)
    } else if c == 'E' {
        Some(Action::ExpandAll)
    } else if c == 'C' {
        Some(Action::CollapseAll)
    } else if c == 'g' {
        Some(Action::Home)
    } else if c == 'G' {
        Some(Action::End)
    } else if c == 'o' {
        Some(Action::OpenInBrowser)
    } else if c == 'y' {
        Some(Action::YankUrl)
    } else if c == 'L' {
        Some(Action::HandoffLogs)
    } else if c == 'x' {
        Some(Action::ToggleHideSelected)
    } else if c == 'H' {
        Some(Action::ToggleShowHidden)
    } else if c == 'X' {
        Some(Action::UnhideAll)
    } else if '1' <= c <= '9' {
        Some(Action::SwitchTab((c as int - '1' as int) as usize))
    } else {
        None
    }
}

/// What a key asks for in the list.
pub open spec fn list_action(key: Key, ctrl: bool, alt: bool) -> Option<Action> {
    match key {
        Key::Up => Some(
            if alt {
                Action::MoveAppUp
            } else {
                Action::Up
            },
        ),
        Key::Down => Some(
            if alt {
                Action::MoveAppDown
            } else {
                Action::Down
            },
        ),
        Key::Right => Some(Action::ExpandFocused),
        Key::Left => Some(Action::CollapseFocused),
        Key::PageUp => Some(Action::PageUp),
        Key::PageDown => Some(Action::PageDown),
        Key::Home => Some(Action::Home),
        Key::End => Some(Action::End),
        Key::Enter => Some(Action::EnterFocused),
        Key::Tab => Some(Action::NextTab),
        Key::BackTab => Some(Action::PrevTab),
        Key::Char(c) => char_action(c, ctrl),
        _ => None,
    }
}

fn action_of_char(c: char, ctrl: bool) -> (r: Option<Action>)
    ensures
        r == char_action(c, ctrl),
{
    if c == 'q' || (c == 'c' && ctrl) {
        Some(Action::Quit)
    } else if c == 'r' {
        Some(Action::Refresh)
    } else if c == 'k' {
        Some(Action::Up)
    } else if c == 'j' {
        Some(Action::Down)
    } else if c == 'l' {
        Some(Action::ExpandFocused)
    } else if c == 'h' {
        Some(Action::CollapseFocused)
    } else if c == ' ' {
        Some(Action::ToggleBranchExpand)
    } else if c == 'E' {
        Some(Action::ExpandAll)
    } else if c == 'C' {
        Some(Action::CollapseAll)
    } else if c == 'g' {
        Some(Action::Home)
    } else if c == 'G' {
        Some(Action::End)
    } else if c == 'o' {
        Some(Action::OpenInBrowser)
    } else if c == 'y' {
        Some(Action::YankUrl)
    } else if c == 'L' {
        Some(Action::HandoffLogs)
    } else if c == 'x' {
        Some(Action::ToggleHideSelected)
    } else if c == 'H' {
        Some(Action::ToggleShowHidden)
    } else if c == 'X' {
        Some(Action::UnhideAll)
    } else if '1' <= c && c <= '9' {
        let b: u8 = c as u8;
        Some(Action::SwitchTab((b - 49) as usize))
    } else {
        None
    }
}

/// What a key asks for: logs that are shown take all keys, and so do
/// deployments that are shown.
pub fn handle(key: Key, ctrl: bool, alt: bool, app: &App) -> (r: Option<Action>)
    ensures
        r == (if app.logs_view is Some {
            logs_action(key, ctrl)
        } else if app.deployment_history is Some {
            history_action(key, ctrl)
        } else {
            list_action(key, ctrl, alt)
        }),
{
    if app.logs_view.is_some() {
        return match key {
            Key::Esc => Some(Action::CloseLogsView),
            Key::Up => Some(Action::LogsScroll(-1)),
            Key::Down => Some(Action::LogsScroll(1)),
            Key::PageUp => Some(Action::LogsScroll(-20)),
            Key::PageDown => Some(Action::LogsScroll(20)),
            Key::Home => Some(Action::LogsScroll(-9999)),
            Key::End => Some(Action::LogsScroll(9999)),
            Key::Char(c) => {
                if c == 'c' && ctrl {
                    Some(Action::Quit)
                } else if c == 'q' {
                    Some(Action::CloseLogsView)
                } else if c == 'k' {
                    Some(Action::LogsScroll(-1))
                } else if c == 'j' {
                    Some(Action::LogsScroll(1))
                } else if c == 'g' {
                    Some(Action::LogsScroll(-9999))
                } else if c == 'G' {
                    Some(Action::LogsScroll(9999))
                } else {
                    None
                }
            },
            _ => None,
        };
    }
    if app.deployment_history.is_some() {
        return match key {
            Key::Esc => Some(Action::CloseDeploymentHistory),
            Key::Up => Some(Action::DeploymentHistoryMove(-1)),
            Key::Down => Some(Action::DeploymentHistoryMove(1)),
            Key::PageUp => Some(Action::DeploymentHistoryMove(-10)),
            Key::PageDown => Some(Action::DeploymentHistoryMove(10)),
            Key::Home => Some(Action::DeploymentHistoryMove(-9999)),
            Key::End => Some(Action::DeploymentHistoryMove(9999)),
            Key::Enter => Some(Action::DeploymentHistoryEnter),
            Key::Char(c) => {
                if c == 'c' && ctrl {
                    Some(Action::Quit)
                } else if c == 'q' {
                    Some(Action::CloseDeploymentHistory)
                } else if c == 'k' {
                    Some(Action::DeploymentHistoryMove(-1))
                } else if c == 'j' {
                    Some(Action::DeploymentHistoryMove(1))
                } else if c == 'g' {
                    Some(Action::DeploymentHistoryMove(-9999))
                } else if c == 'G' {
                    Some(Action::DeploymentHistoryMove(9999))
                } else {
                    None
                }
            },
            _ => None,
        };
    }
    match key {
        Key::Up => Some(if alt { Action::MoveAppUp } else { Action::Up }),
        Key::Down => Some(if alt { Action::MoveAppDown } else { Action::Down }),
        Key::Right => Some(Action::ExpandFocused),
        Key::Left => Some(Action::CollapseFocused),
        Key::PageUp => Some(Action::PageUp),
        Key::PageDown => Some(Action::PageDown),
        Key::Home => Some(Action::Home),
        Key::End => Some(Action::End),
        Key::Enter => Some(Action::EnterFocused),
        Key::Tab => Some(Action::NextTab),
        Key::BackTab => Some(Action::PrevTab),
        Key::Char(c) => action_of_char(c, ctrl),
        _ => None,
    }
}

/// What is to be done outside after an action.
pub struct Effect {
    /// What is to be asked of AWS.
    pub requests: Vec<Request>,
    /// The settings are to be saved.
    pub save: Option<Saving>,
    /// An address that is to be opened in the browser.
    pub open: Option<String>,
    /// A text for the clipboard.
    pub copy: Option<String>,
    /// A program that is to be started.
    pub start: Option<Launch>,
    pub quit: bool,
}

/// An `Effect` by its contents.
#[verifier::ext_equal]
pub struct EffectV {
    pub requests: Seq<RequestV>,
    pub save: Option<SavingV>,
    pub open: Option<Seq<char>>,
    pub copy: Option<Seq<char>>,
    pub start: Option<LaunchV>,
    pub quit: bool,
}

impl View for Effect {
    type V = EffectV;

    open spec fn view(&self) -> EffectV {
        EffectV {
            requests: app::request_views(self.requests@),
            save: app::opt_saving(self.save),
            open: text::opt_view(self.open),
            copy: text::opt_view(self.copy),
            start: command::opt_launch(self.start),
            quit: self.quit,
        }
    }
}

/// Nothing is to be done.
pub open spec fn idle() -> EffectV {
    EffectV {
        requests: Seq::empty(),
        save: None,
        open: None,
        copy: None,
        start: None,
        quit: false,
    }
}

/// The request, where there is one, is to be made.
pub open spec fn asking(r: Option<RequestV>) -> EffectV {
    EffectV {
        requests: match r {
            Some(x) => seq![x],
            None => Seq::empty(),
        },
        ..idle()
    }
}

fn no_effect() -> (r: Effect)
    ensures
        r@ == idle(),
{
    let r = Effect {
        requests: Vec::new(),
        save: None,
        open: None,
        copy: None,
        start: None,
        quit: false,
    };
    assert(r@ =~= idle());
    r
}

pub(crate) fn ask(q: Option<Request>) -> (r: Effect)
    ensures
        r@ == asking(app::opt_request(q)),
{
    let mut requests: Vec<Request> = Vec::new();
    let ghost before = app::opt_request(q);
    if let Some(x) = q {
        requests.push(x);
    }
    let r = Effect { requests, save: None, open: None, copy: None, start: None, quit: false };
    assert(r@ =~= asking(before));
    r
}

fn ask_all(requests: Vec<Request>) -> (r: Effect)
    ensures
        r@ == (EffectV { requests: app::request_views(requests@), ..idle() }),
{
    Effect { requests, save: None, open: None, copy: None, start: None, quit: false }
}

pub(crate) fn save(s: Option<Saving>) -> (r: Effect)
    ensures
        r@ == (EffectV { save: app::opt_saving(s), ..idle() }),
{
    let mut r = no_effect();
    r.save = s;
    r
}

impl AppV {
    /// With another deployment selected.
    pub open spec fn history_moved(self, delta: int) -> AppV {
        AppV {
            history: match self.history {
                Some(h) => Some(
                    if h.jobs.len() == 0 {
                        h
                    } else {
                        HistoryV {
                            selected: keys::clamped(h.selected, delta, h.jobs.len() as int),
                            ..h
                        }
                    },
                ),
                None => None,
            },
            ..self
        }
    }

    /// With the logs scrolled.
    pub open spec fn logs_scrolled(self, delta: int) -> AppV {
        AppV {
            logs: match self.logs {
                Some(l) => Some(LogsV { scroll: actions::scrolled(l.scroll, delta), ..l }),
                None => None,
            },
            ..self
        }
    }

    /// With the logs of the selected deployment shown.
    pub open spec fn history_entered(self) -> AppV {
        match self.history {
            Some(h) => if 0 <= h.selected < h.jobs.len() {
                let j = h.jobs[h.selected];
                self.logs_opened(h.branch_name, j.job_id@, text::opt_view(j.commit_message))
            } else {
                self
            },
            None => self,
        }
    }

    pub open spec fn history_request(self) -> Option<RequestV> {
        match self.history {
            Some(h) => if 0 <= h.selected < h.jobs.len() {
                Some(
                    RequestV::Detail {
                        app_id: h.app_id,
                        branch_name: h.branch_name,
                        job_id: h.jobs[h.selected].job_id@,
                    },
                )
            } else {
                None
            },
            None => None,
        }
    }

    /// With the remark that no row is selected, where there is no address.
    pub open spec fn unless_url(self, now: Option<u64>) -> AppV {
        if self.focused_url(now) is Some {
            self
        } else {
            self.with_status("no row under cursor"@)
        }
    }
}

/// What an action leads to; `e` holds the branches of all apps.
pub open spec fn acted(
    a: AppV,
    action: Action,
    now: Option<u64>,
    e: Seq<(String, Vec<AmplifyBranch>)>,
) -> (AppV, EffectV) {
    let refresh = (a.refreshed(e), (EffectV { requests: a.refresh_requests(e), ..idle() }));
    match action {
        Action::Quit => (a, EffectV { quit: true, ..idle() }),
        Action::Refresh => refresh,
        Action::NextTab => refresh,
        Action::PrevTab => refresh,
        Action::SwitchTab(i) => if i == 0 {
            refresh
        } else {
            (a, idle())
        },
        Action::Up => (a.moved(-1, now), idle()),
        Action::Down => (a.moved(1, now), idle()),
        Action::PageUp => (a.moved(-10, now), idle()),
        Action::PageDown => (a.moved(10, now), idle()),
        Action::Home => (a.moved(-(i32::MAX as int), now), idle()),
        Action::End => (a.moved(i32::MAX as int, now), idle()),
        Action::ExpandFocused => (a.focus_expanded(now), asking(a.focus_expand_request(now))),
        Action::CollapseFocused => (a.focus_collapsed(now), idle()),
        Action::ToggleBranchExpand => (
            a.focus_toggled(now),
            asking(a.focus_toggle_request(now)),
        ),
        Action::ExpandAll => (
            a.all_expanded(),
            EffectV { requests: a.all_requests(), ..idle() },
        ),
        Action::CollapseAll => (a.all_collapsed(), idle()),
        Action::MoveAppUp => (
            a.app_moved(-1, now),
            EffectV { save: a.move_saving(-1, now), ..idle() },
        ),
        Action::MoveAppDown => (
            a.app_moved(1, now),
            EffectV { save: a.move_saving(1, now), ..idle() },
        ),
        Action::EnterFocused => (a.entered(now), asking(a.enter_request(now))),
        Action::OpenInBrowser => (
            a.unless_url(now),
            EffectV { open: a.focused_url(now), ..idle() },
        ),
        Action::YankUrl => (a.unless_url(now), EffectV { copy: a.focused_url(now), ..idle() }),
        Action::HandoffLogs => match a.logs_launch(now) {
            Ok(l) => (a, EffectV { start: Some(l), ..idle() }),
            Err(m) => (a.with_status(m), idle()),
        },
        Action::ToggleHideSelected => (
            a.hide_toggled(now),
            EffectV { save: a.hide_saving(now), ..idle() },
        ),
        Action::ToggleShowHidden => (a.show_toggled(), idle()),
        Action::UnhideAll => (a.unhidden(), EffectV { save: a.unhide_saving(), ..idle() }),
        Action::CloseLogsView => (AppV { logs: None, ..a }, idle()),
        Action::LogsScroll(d) => (a.logs_scrolled(d as int), idle()),
        Action::CloseDeploymentHistory => (AppV { history: None, ..a }, idle()),
        Action::DeploymentHistoryMove(d) => (a.history_moved(d as int), idle()),
        Action::DeploymentHistoryEnter => (a.history_entered(), asking(a.history_request())),
    }
}

/// Does what an action asks for, and says what is to be done outside; `now` is
/// the time in seconds since the epoch.
pub fn apply(action: Action, app: &mut App, now: Option<u64>) -> (r: Effect)
    requires
        old(app).wf(),
    ensures
        final(app).wf(),
        exists|e: Seq<(String, Vec<AmplifyBranch>)>|
            {
                &&& actions::lists_branches(e, old(app)@)
                &&& #[trigger] acted(old(app)@, action, now, e) == (final(app)@, r@)
            },
{
    let ghost a = app@;
    let entries = app.apps().branches_by_app.entries();
    let ghost listed = entries@;
    assert(actions::lists_branches(listed, a));
    let turn_to: Option<usize> = match action {
        Action::NextTab => Some(0),
        Action::PrevTab => Some(0),
        Action::SwitchTab(i) => Some(i),
        _ => None,
    };
    if let Some(i) = turn_to {
        let requests = app.switch_tab(i);
        proof {
            if i == 0 {
                let e = choose|e: Seq<(String, Vec<AmplifyBranch>)>|
                    {
                        &&& actions::lists_branches(e, a)
                        &&& #[trigger] a.refreshed(e) == app@
                        &&& a.refresh_requests(e) == app::request_views(requests@)
                    };
                assert(acted(a, action, now, e).0 == app@);
            } else {
                assert(app::request_views(requests@) =~= Seq::empty());
                assert(acted(a, action, now, listed) == (app@, idle()));
            }
        }
        return ask_all(requests);
    }
    if matches!(action, Action::Refresh) {
        let requests = app.refresh_active();
        proof {
            let e = choose|e: Seq<(String, Vec<AmplifyBranch>)>|
                {
                    &&& actions::lists_branches(e, a)
                    &&& #[trigger] a.refreshed(e) == app@
                    &&& a.refresh_requests(e) == app::request_views(requests@)
                };
            assert(acted(a, action, now, e).0 == app@);
        }
        return ask_all(requests);
    }
    let r = act(action, app, now);
    assert(acted(a, action, now, listed) == (app@, r@));
    r
}

/// Does what any action asks for that does not read the list anew.
fn act(action: Action, app: &mut App, now: Option<u64>) -> (r: Effect)
    requires
        old(app).wf(),
        !(action is Refresh || action is NextTab || action is PrevTab || action is SwitchTab),
    ensures
        final(app).wf(),
        (final(app)@, r@) == acted(old(app)@, action, now, Seq::empty()),
{
    match action {
        Action::Quit => {
            let mut r = no_effect();
            r.quit = true;
            return r;
        },
        Action::Up => app.move_selection(-1, now),
        Action::Down => app.move_selection(1, now),
        Action::PageUp => app.move_selection(-10, now),
        Action::PageDown => app.move_selection(10, now),
        Action::Home => app.move_selection(-2_147_483_647, now),
        Action::End => app.move_selection(2_147_483_647, now),
        Action::ExpandFocused => {
            return ask(app.expand_focused(now));
        },
        Action::CollapseFocused => app.collapse_focused(now),
        Action::ToggleBranchExpand => {
            return ask(app.toggle_branch_expand_selected(now));
        },
        Action::ExpandAll => {
            return ask_all(app.expand_all());
        },
        Action::CollapseAll => app.collapse_all(),
        Action::MoveAppUp => {
            return save(app.move_app_up(now));
        },
        Action::MoveAppDown => {
            return save(app.move_app_down(now));
        },
        Action::EnterFocused => {
            return ask(app.enter_focused(now));
        },
        Action::OpenInBrowser => {
            let url = app.open_focused(now);
            let mut r = no_effect();
            r.open = url;
            return r;
        },
        Action::YankUrl => {
            let url = app.yank_focused_url(now);
            let mut r = no_effect();
            r.copy = url;
            return r;
        },
        Action::HandoffLogs => {
            let l = app.handoff_logs(now);
            let mut r = no_effect();
            r.start = l;
            return r;
        },
        Action::ToggleHideSelected => {
            return save(app.toggle_hide_selected(now));
        },
        Action::ToggleShowHidden => app.toggle_show_hidden(),
        Action::UnhideAll => {
            return save(app.unhide_all());
        },
        Action::CloseLogsView => app.close_logs_view(),
        Action::LogsScroll(d) => app.logs_scroll(d),
        Action::CloseDeploymentHistory => app.close_deployment_history(),
        Action::DeploymentHistoryMove(d) => app.deployment_history_move(d),
        Action::DeploymentHistoryEnter => {
            return ask(app.deployment_history_enter());
        },
        _ => {},
    }
    no_effect()
}

/// The action is about logs, about the deployments of a branch, or ends the
/// browser.
spec fn about_overlay(x: Action) -> bool {
    ||| x is Quit
    ||| x is CloseLogsView
    ||| x is LogsScroll
    ||| x is CloseDeploymentHistory
    ||| x is DeploymentHistoryMove
    ||| x is DeploymentHistoryEnter
}

#[verifier::spinoff_prover]
proof fn lemma_overlay_keeps_list(
    a: AppV,
    x: Action,
    now: Option<u64>,
    e: Seq<(String, Vec<AmplifyBranch>)>,
)
    requires
        about_overlay(x),
    ensures
        acted(a, x, now, e).0.apps == a.apps,
{
    match x {
        Action::LogsScroll(d) => {
            assert(a.logs_scrolled(d as int).apps == a.apps);
        },
        Action::DeploymentHistoryMove(d) => {
            assert(a.history_moved(d as int).apps == a.apps);
        },
        Action::DeploymentHistoryEnter => {
            assert(a.history_entered().apps == a.apps);
        },
        _ => {},
    }
}

/// While logs are shown, or the deployments of a branch, no key changes the
/// list, and only Ctrl-C ends the browser.
#[verifier::spinoff_prover]
pub proof fn law_overlay_takes_all_keys(
    a: AppV,
    key: Key,
    ctrl: bool,
    now: Option<u64>,
    e: Seq<(String, Vec<AmplifyBranch>)>,
)
    ensures
        logs_action(key, ctrl) matches Some(x) ==> acted(a, x, now, e).0.apps == a.apps,
        history_action(key, ctrl) matches Some(x) ==> acted(a, x, now, e).0.apps == a.apps,
        logs_action(key, ctrl) == Some(Action::Quit) <==> key == Key::Char('c') && ctrl,
        history_action(key, ctrl) == Some(Action::Quit) <==> key == Key::Char('c') && ctrl,
{
    if let Some(x) = logs_action(key, ctrl) {
        assert(about_overlay(x));
        lemma_overlay_keeps_list(a, x, now, e);
    }
    if let Some(x) = history_action(key, ctrl) {
        assert(about_overlay(x));
        lemma_overlay_keeps_list(a, x, now, e);
    }
}

/// In the list, Esc does nothing.
pub proof fn law_esc_does_nothing_in_list(ctrl: bool, alt: bool)
    ensures
        list_action(Key::Esc, ctrl, alt) is None,
{
}

} // verus!
