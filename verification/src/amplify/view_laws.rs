//! What holds of the keys of the apps browser, and of what it draws.

use vstd::prelude::*;

use crate::amplify::amplify::AmplifyJob;
use crate::amplify::app::{AppV, LogsV, VisibleRow};
use crate::amplify::branches;
use crate::amplify::keys;
use crate::amplify::keys::Action;
use crate::amplify::ui;
use crate::clock;
use crate::keys::Key;
use crate::numeral;
use crate::screen::Color;
use crate::text;

verus! {

/// What the keys do while the list is shown.
pub proof fn law_keys_of_the_list(ctrl: bool)
    ensures
        keys::list_action(Key::Char('q'), ctrl, false) == Some(Action::Quit),
        keys::list_action(Key::Char('c'), true, false) == Some(Action::Quit),
        keys::list_action(Key::Char('r'), ctrl, false) == Some(Action::Refresh),
        keys::list_action(Key::Up, ctrl, false) == Some(Action::Up),
        keys::list_action(Key::Down, ctrl, false) == Some(Action::Down),
        keys::list_action(Key::Char('k'), ctrl, false) == Some(Action::Up),
        keys::list_action(Key::Char('j'), ctrl, false) == Some(Action::Down),
        keys::list_action(Key::Up, ctrl, true) == Some(Action::MoveAppUp),
        keys::list_action(Key::Down, ctrl, true) == Some(Action::MoveAppDown),
        keys::list_action(Key::Right, ctrl, false) == Some(Action::ExpandFocused),
        keys::list_action(Key::Left, ctrl, false) == Some(Action::CollapseFocused),
        keys::list_action(Key::Char('l'), ctrl, false) == Some(Action::ExpandFocused),
        keys::list_action(Key::Char('h'), ctrl, false) == Some(Action::CollapseFocused),
        keys::list_action(Key::Char(' '), ctrl, false) == Some(Action::ToggleBranchExpand),
        keys::list_action(Key::Char('E'), ctrl, false) == Some(Action::ExpandAll),
        keys::list_action(Key::Char('C'), ctrl, false) == Some(Action::CollapseAll),
        keys::list_action(Key::Char('g'), ctrl, false) == Some(Action::Home),
        keys::list_action(Key::Char('G'), ctrl, false) == Some(Action::End),
        keys::list_action(Key::Home, ctrl, false) == Some(Action::Home),
        keys::list_action(Key::End, ctrl, false) == Some(Action::End),
        keys::list_action(Key::PageUp, ctrl, false) == Some(Action::PageUp),
        keys::list_action(Key::PageDown, ctrl, false) == Some(Action::PageDown),
        keys::list_action(Key::Enter, ctrl, false) == Some(Action::EnterFocused),
        keys::list_action(Key::Char('o'), ctrl, false) == Some(Action::OpenInBrowser),
        keys::list_action(Key::Char('y'), ctrl, false) == Some(Action::YankUrl),
        keys::list_action(Key::Char('L'), ctrl, false) == Some(Action::HandoffLogs),
        keys::list_action(Key::Char('x'), ctrl, false) == Some(Action::ToggleHideSelected),
        keys::list_action(Key::Char('H'), ctrl, false) == Some(Action::ToggleShowHidden),
        keys::list_action(Key::Char('X'), ctrl, false) == Some(Action::UnhideAll),
        keys::list_action(Key::Char('1'), ctrl, false) == Some(Action::SwitchTab(0)),
        keys::list_action(Key::Tab, ctrl, false) == Some(Action::NextTab),
        keys::list_action(Key::BackTab, ctrl, false) == Some(Action::PrevTab),
{
}

/// What the keys do over the list: they scroll, move, close and enter.
pub proof fn law_keys_over_the_list(ctrl: bool)
    ensures
        keys::logs_action(Key::Esc, ctrl) == Some(Action::CloseLogsView),
        keys::logs_action(Key::Char('q'), ctrl) == Some(Action::CloseLogsView),
        keys::logs_action(Key::Down, ctrl) == Some(Action::LogsScroll(1)),
        keys::logs_action(Key::Char('j'), ctrl) == Some(Action::LogsScroll(1)),
        keys::logs_action(Key::PageDown, ctrl) == Some(Action::LogsScroll(20)),
        keys::logs_action(Key::Up, ctrl) matches Some(Action::LogsScroll(d)) && d == -1,
        keys::logs_action(Key::Char('k'), ctrl) matches Some(Action::LogsScroll(d)) && d == -1,
        keys::logs_action(Key::PageUp, ctrl) matches Some(Action::LogsScroll(d)) && d == -20,
        keys::logs_action(Key::Char('c'), true) == Some(Action::Quit),
        keys::history_action(Key::Esc, ctrl) == Some(Action::CloseDeploymentHistory),
        keys::history_action(Key::Char('q'), ctrl) == Some(Action::CloseDeploymentHistory),
        keys::history_action(Key::Enter, ctrl) == Some(Action::DeploymentHistoryEnter),
        keys::history_action(Key::Down, ctrl) == Some(Action::DeploymentHistoryMove(1)),
        keys::history_action(Key::Char('j'), ctrl) == Some(Action::DeploymentHistoryMove(1)),
        keys::history_action(Key::PageDown, ctrl) == Some(Action::DeploymentHistoryMove(10)),
        keys::history_action(Key::Up, ctrl) matches Some(Action::DeploymentHistoryMove(d)) && d == -1,
        keys::history_action(Key::Char('k'), ctrl) matches Some(Action::DeploymentHistoryMove(d)) && d == -1,
        keys::history_action(Key::PageUp, ctrl) matches Some(Action::DeploymentHistoryMove(d)) && d == -10,
        keys::history_action(Key::Char('c'), true) == Some(Action::Quit),
{
}

/// What the actions that leave the list alone do: to open a page is to open the page
/// of the row, to copy is to copy it, and to quit is to quit.
pub proof fn law_effects_of_actions(a: AppV, now: Option<u64>)
    ensures
        keys::acted(a, Action::Quit, now, Seq::empty()).1.quit,
        keys::acted(a, Action::OpenInBrowser, now, Seq::empty()).1.open == a.focused_url(now),
        keys::acted(a, Action::YankUrl, now, Seq::empty()).1.copy == a.focused_url(now),
        keys::acted(a, Action::OpenInBrowser, now, Seq::empty()).1.copy is None,
        keys::acted(a, Action::YankUrl, now, Seq::empty()).1.open is None,
        keys::acted(a, Action::Up, now, Seq::empty()).0 == a.moved(-1, now),
        keys::acted(a, Action::Down, now, Seq::empty()).0 == a.moved(1, now),
        keys::acted(a, Action::PageUp, now, Seq::empty()).0 == a.moved(-10, now),
        keys::acted(a, Action::PageDown, now, Seq::empty()).0 == a.moved(10, now),
        keys::acted(a, Action::CloseLogsView, now, Seq::empty()).0.logs is None,
        keys::acted(a, Action::CloseDeploymentHistory, now, Seq::empty()).0.history is None,
        keys::acted(a, Action::ExpandAll, now, Seq::empty()).0 == a.all_expanded(),
        keys::acted(a, Action::CollapseAll, now, Seq::empty()).0 == a.all_collapsed(),
        keys::acted(a, Action::ExpandFocused, now, Seq::empty()).0 == a.focus_expanded(now),
        keys::acted(a, Action::CollapseFocused, now, Seq::empty()).0 == a.focus_collapsed(now),
        keys::acted(a, Action::EnterFocused, now, Seq::empty()).0 == a.entered(now),
        keys::acted(a, Action::ToggleHideSelected, now, Seq::empty()).0 == a.hide_toggled(now),
        keys::acted(a, Action::ToggleShowHidden, now, Seq::empty()).0 == a.show_toggled(),
        keys::acted(a, Action::UnhideAll, now, Seq::empty()).0 == a.unhidden(),
        keys::acted(a, Action::MoveAppUp, now, Seq::empty()).0 == a.app_moved(-1, now),
        keys::acted(a, Action::MoveAppDown, now, Seq::empty()).0 == a.app_moved(1, now),
        a.logs_launch(now) is Ok ==> keys::acted(a, Action::HandoffLogs, now, Seq::empty()).1.start == Some(
            a.logs_launch(now)->Ok_0,
        ),
{
}

/// The cursor moves by rows and stops at the first and at the last one.
pub proof fn law_cursor_moves_by_rows(a: AppV, delta: int, now: Option<u64>)
    ensures
        ({
            let n = a.rows(now).len();
            let m = a.moved(delta, now);
            &&& 0 <= a.apps.selected + delta < n ==> m.apps.selected == a.apps.selected + delta
            &&& n > 0 && a.apps.selected + delta < 0 ==> m.apps.selected == 0
            &&& n > 0 && a.apps.selected + delta >= n ==> m.apps.selected == n - 1
            &&& m.apps.items == a.apps.items && m.apps.expanded == a.apps.expanded && m.cfg == a.cfg
        }),
{
}

proof fn lemma_words()
    ensures
        "SUCCEED"@.len() == 7 && "FAILED"@.len() == 6 && "CANCELLED"@.len() == 9 && "RUNNING"@.len() == 7 && "PENDING"@.len()
            == 7 && "PROVISIONING"@.len() == 12,
        "SUCCEED"@[0] == 'S' && "RUNNING"@[0] == 'R' && "PENDING"@[0] == 'P',
{
    reveal_strlit("SUCCEED");
    reveal_strlit("FAILED");
    reveal_strlit("CANCELLED");
    reveal_strlit("RUNNING");
    reveal_strlit("PENDING");
    reveal_strlit("PROVISIONING");
}

/// How a deployment ended is told by its sign and its colour.
pub proof fn law_signs_of_deployments(status: &str, r: (&'static str, Color))
    requires
        call_ensures(ui::deploy_status_glyph, (status,), r),
    ensures
        status@ == "SUCCEED"@ ==> r.0@ == "✓"@ && r.1 == Color::Green,
        status@ == "FAILED"@ ==> r.0@ == "✗"@ && r.1 == Color::Red,
        status@ == "CANCELLED"@ ==> r.0@ == "⊘"@ && r.1 == Color::Red,
        status@ == "RUNNING"@ ==> r.0@ == "●"@ && r.1 == Color::Cyan,
        status@ == "PENDING"@ ==> r.0@ == "○"@ && r.1 == Color::Cyan,
        status@ == "PROVISIONING"@ ==> r.0@ == "◐"@ && r.1 == Color::Cyan,
        r.1 == Color::Green <==> status@ == "SUCCEED"@,
        r.1 == Color::Red <==> status@ == "FAILED"@ || status@ == "CANCELLED"@,
{
    lemma_words();
}

/// A deployment that has ended is green, red or gray, as it went; one that is under
/// way is none of the first two.
pub proof fn law_colours_of_branches(status: Seq<char>)
    ensures
        ui::ended_shade(status) == Color::Green <==> status == "SUCCEED"@,
        ui::ended_shade(status) == Color::Red <==> status == "FAILED"@ || status == "CANCELLED"@,
        ui::under_way(status) <==> status == "RUNNING"@ || status == "PENDING"@ || status == "PROVISIONING"@,
{
    lemma_words();
}

/// The stage of a branch is told by its colour.
pub proof fn law_colours_of_stages(stage: Seq<char>)
    ensures
        ui::stage_shade(stage) == Color::Green <==> stage == "PRODUCTION"@,
        ui::stage_shade(stage) == Color::Yellow <==> stage == "BETA"@,
        ui::stage_shade(stage) == Color::Cyan <==> stage == "DEVELOPMENT"@,
{
    reveal_strlit("PRODUCTION");
    reveal_strlit("BETA");
    reveal_strlit("DEVELOPMENT");
    assert("PRODUCTION"@.len() == 10 && "BETA"@.len() == 4 && "DEVELOPMENT"@.len() == 11);
}

/// A time that a deployment took is told in minutes and seconds; from its start to its
/// end, and not at all where one of them is missing.
pub proof fn law_time_of_a_deployment(j: AmplifyJob, m: nat, s: nat)
    requires
        s < 60,
    ensures
        j.start_time is Some && j.end_time is Some && clock::rfc3339_gap(j.start_time->0@, j.end_time->0@) is Some
            && clock::rfc3339_gap(j.start_time->0@, j.end_time->0@)->0 == m * 60 + s ==> ui::job_time(j)
            == numeral::decimal(m) + "m "@ + numeral::decimal(s) + "s"@,
        j.start_time is None || j.end_time is None ==> ui::job_time(j) == "—"@,
{
}

/// The newest deployment that is not under way is the one that a branch is told by.
pub proof fn law_last_ended_deployment(js: Seq<AmplifyJob>)
    ensures
        js.len() == 0 ==> ui::last_ended(js) is None,
        js.len() > 0 && !ui::under_way(js[0].status@) ==> ui::last_ended(js) == Some(js[0]),
        js.len() > 1 && ui::under_way(js[0].status@) ==> ui::last_ended(js) == Some(js[1]),
        js.len() == 1 && ui::under_way(js[0].status@) ==> ui::last_ended(js) is None,
{
}

/// The line of an app has its name, and marks whether it is expanded, hidden or still
/// being read.
pub proof fn law_line_of_an_app(name: Seq<char>, hidden: bool, expanded: bool, waiting: bool)
    requires
        name.len() <= 27,
    ensures
        ({
            let l = ui::app_line(name, hidden, expanded, waiting);
            &&& l[0].0 == (if expanded {
                " "@ + "▼"@ + " "@
            } else {
                " "@ + "▶"@ + " "@
            })
            &&& !hidden ==> text::has_prefix(l[1].0, name) && l[1].1.bold
            &&& hidden ==> l[1].1.italic && l[1].1.fg == Color::Gray
            &&& waiting ==> l.len() == 4 && l[3].0 == "loading branches…"@
            &&& !waiting ==> l.len() == 2
        }),
{
    text::law_padded(text::shortened(name, 27), 28);
}

/// The line of a branch has its name, its stage, and what is known of its last
/// deployment.
pub proof fn law_line_of_a_branch(name: Seq<char>, stage: Seq<char>, expanded: bool, remark: (Seq<char>, crate::screen::Style))
    requires
        name.len() <= 24,
        stage.len() <= 13,
    ensures
        ({
            let l = ui::branch_line(name, stage, expanded, remark);
            &&& l.len() == 5
            &&& l[1].0 == (if expanded {
                "▼"@ + " "@
            } else {
                "▶"@ + " "@
            })
            &&& text::has_prefix(l[2].0, name)
            &&& text::has_prefix(l[3].0, stage)
            &&& l[4] == remark
        }),
{
    text::law_padded(text::shortened(name, 24), 25);
    text::law_padded(text::shortened(stage, 13), 14);
}

/// What is told of a branch: its last deployment that has ended, why there is none, or
/// that it is being read.
pub proof fn law_remark_on_a_branch(jobs: Vec<AmplifyJob>, e: String, busy: bool)
    ensures
        ui::last_ended(jobs@) is Some ==> ui::branch_remark(Some(jobs), None, busy).0 == ui::job_columns(
            ui::last_ended(jobs@)->0,
        ),
        ui::last_ended(jobs@) is None ==> ui::branch_remark(Some(jobs), None, busy).0 == "(no deploys)"@,
        ui::branch_remark(None, Some(e), busy).1.fg == Color::Red,
        ui::branch_remark(None, None, true).0 == "fetching…"@,
        ui::branch_remark(None, None, false).0 == "queued"@,
{
}

/// The columns of a deployment: its number, its status, the day it ended, how long it
/// took and the first line of its commit.
pub proof fn law_columns_of_a_deployment(j: AmplifyJob)
    ensures
        ({
            let c = ui::job_columns(j);
            &&& text::has_prefix(c, "#"@ + j.job_id@)
            &&& j.job_id@.len() <= 6 && j.status@.len() <= 13 ==> c.len() >= 20 && text::has_prefix(c.skip(7), j.status@)
        }),
{
    reveal_strlit("#");
    let a = text::padded_right(j.job_id@, 6);
    let b = text::padded_right(j.status@, 13);
    text::law_padded(j.job_id@, 6);
    text::law_padded(j.status@, 13);
    let c = ui::job_columns(j);
    let rest = text::padded_right(text::until(text::or_empty(j.end_time), 'T'), 11) + text::padded_right(
        ui::job_time(j),
        9,
    ) + text::shortened(ui::commit_line(j), 30);
    assert(c =~= "#"@ + a + b + rest);
    assert(c.take(1int + j.job_id@.len()) =~= "#"@ + j.job_id@) by {
        assert(a.take(j.job_id@.len() as int) == j.job_id@);
        assert forall|i: int| 0 <= i < j.job_id@.len() implies c[i + 1] == j.job_id@[i] by {
            assert(a.take(j.job_id@.len() as int)[i] == a[i]);
        }
    }
    if j.job_id@.len() <= 6 && j.status@.len() <= 13 {
        assert(c.skip(7) =~= b + rest);
        assert(b.take(j.status@.len() as int) == j.status@);
        assert((b + rest).take(j.status@.len() as int) =~= j.status@) by {
            assert forall|i: int| 0 <= i < j.status@.len() implies (b + rest)[i] == j.status@[i] by {
                assert(b.take(j.status@.len() as int)[i] == b[i]);
            }
        }
    }
}

/// Instead of the list its state is told: an error with a hint, that it is being
/// loaded, or that there is nothing.
pub proof fn law_instead_of_the_apps(
    a: AppV,
    rows: Seq<VisibleRow>,
    starts: Seq<Seq<char>>,
    height: int,
    inside: bool,
)
    ensures
        ({
            let p = ui::list_pane(a, rows, starts, height, inside);
            &&& a.apps.last_error is Some ==> p is Message && p->shade == Color::Red && p->text == "error: "@
                + a.apps.last_error->0 + "\n\nPress `r` to retry."@
            &&& a.apps.last_error is None && a.apps.items.len() == 0 && a.apps.loading ==> p is Message && p->text
                == "loading apps…"@
            &&& a.apps.last_error is None && a.apps.items.len() == 0 && !a.apps.loading ==> p is Message && p->text
                == "(no Amplify apps in this region)"@
            &&& a.apps.last_error is None && a.apps.items.len() > 0 ==> p is List && p->lines == ui::lines_to(
                a,
                rows,
                starts,
                rows.len() as int,
            )
        }),
{
}

/// The logs of a deployment: its branch and its number, then the state it is in or its
/// steps.
pub proof fn law_logs_of_a_deployment(l: LogsV, j: Seq<char>)
    requires
        l.job_id == Some(j),
    ensures
        ({
            let s = ui::logs_lines(l);
            &&& s[0][0].0 == " "@ + l.branch_name + " "@
            &&& s[0][2].0 == j
            &&& l.loading_detail ==> s.last() == seq![
                ("loading job detail…"@, crate::screen::colored(Color::DarkGray)),
            ]
            &&& !l.loading_detail && l.error is Some ==> s.last()[0].0 == "error: "@ + l.error->0 && s.last()[0].1.fg
                == Color::Red
            &&& !l.loading_detail && l.error is None && l.steps.len() == 0 ==> s.last()[0].0 == "(no steps in this job)"@
        }),
{
}

/// A step of a deployment has its name and its log line by line.
pub proof fn law_log_lines_of_a_step(name: Seq<char>, log: Seq<char>, i: int)
    requires
        log.len() > 0,
        0 <= i < text::text_lines(log).len(),
    ensures
        ui::step_lines(name, log)[0][0].0 == "── "@ + name + " "@,
        ui::step_lines(name, log)[i + 1] == seq![(text::text_lines(log)[i], ui::plain())],
{
}

/// A row of the deployments of a branch: number, status, time, commit and day.
pub proof fn law_row_of_a_deployment(j: AmplifyJob)
    ensures
        ui::history_row(j).len() == 5,
        ui::history_row(j)[0].0 == "#"@ + j.job_id@,
        ui::history_row(j)[1].0 == j.status@,
        ui::history_row(j)[1].1.fg == ui::status_shade(j.status@),
        ui::history_row(j)[2].0 == ui::job_time(j),
{
}

/// The first of January 1970 is the day from which the days are counted, and each day
/// is one more than the day before.
pub proof fn law_days_are_counted(y: int, m: int, d: int)
    requires
        y >= 1,
        1 <= m <= 12,
    ensures
        branches::julian_of(1970, 1, 1) == crate::amplify::amplify::julian_day(0),
        branches::julian_of(y, m, d + 1) == branches::julian_of(y, m, d) + 1,
        branches::julian_of(y + 1, 1, 1) == branches::julian_of(y, 12, 31) + 1,
{
}

} // verus!
