//! What holds of the deployments browser as it is run: which branches are given out, what
//! the commands are, and what the operations do.

use vstd::prelude::*;

use crate::amplify::amplify;
use crate::amplify::amplify::{AmplifyBranch, AmplifyEvent, AmplifyJob, AmplifyJobDetail, AmplifyJobStep};
use crate::amplify::app;
use crate::amplify::app::{App, AppV, HistoryV, LogsV, Request, RequestV, VisibleRow};
use crate::amplify::branches;
use crate::amplify::config;
use crate::amplify::config::{Config, Tab};
use crate::amplify::drain;
use crate::amplify::drain::Recv;
use crate::amplify::keys;
use crate::amplify::keys::{Action, Effect};
use crate::amplify::laws;
use crate::amplify::mouse;
use crate::amplify::mouse::Area;
use crate::amplify::ui;
use crate::amplify::ui::{HistoryPane, LogsPane};
use crate::command::Launch;
use crate::keys::{Key, Mouse};
use crate::numeral;
use crate::screen;
use crate::screen::Color;
use crate::table::Table;
use crate::text;

verus! {

/// Of the branches of one kind that are not stale the one is given out that was deployed
/// last.
pub proof fn law_branch_that_is_given_out(
    all: &Vec<AmplifyBranch>,
    jobs: &Table<(String, String), Vec<AmplifyJob>>,
    app_id: &str,
    now: Option<u64>,
    r: Vec<&AmplifyBranch>,
    b: AmplifyBranch,
)
    requires
        call_ensures(branches::choose_branches, (all, jobs, app_id, now), r),
        all@.contains(b),
        branches::kind_of(b) != 0,
        !branches::stale(jobs@, app_id@, b, now),
    ensures
        exists|i: int| 0 <= i < r@.len() && branches::kind_of(*#[trigger] r@[i]) == branches::kind_of(b),
        forall|i: int|
            0 <= i < r@.len() && branches::kind_of(*#[trigger] r@[i]) == branches::kind_of(b) ==> !text::before(
                branches::last_deploy(jobs@, app_id@, r@[i].branch_name@),
                branches::last_deploy(jobs@, app_id@, b.branch_name@),
            ),
{
    laws::law_latest_branch_is_shown(all@, jobs@, app_id@, now, b);
    let s = branches::shown_branches(all@, jobs@, app_id@, now);
    assert(branches::pointed(r@) == s);
    let k = choose|i: int| 0 <= i < s.len() && branches::kind_of(#[trigger] s[i]) == branches::kind_of(b);
    assert(branches::pointed(r@)[k] == *r@[k]);
    assert forall|i: int|
        0 <= i < r@.len() && branches::kind_of(*#[trigger] r@[i]) == branches::kind_of(b) implies !text::before(
        branches::last_deploy(jobs@, app_id@, r@[i].branch_name@),
        branches::last_deploy(jobs@, app_id@, b.branch_name@),
    ) by {
        assert(s[i] == *r@[i]);
    }
}

/// The last deploy of a branch, and whether its name is one of those that matter, as they
/// are given out.
pub proof fn law_branches_given_out(
    jobs: &Table<(String, String), Vec<AmplifyJob>>,
    app_id: &str,
    branch: &str,
    r: String,
    name: &str,
    p: bool,
)
    requires
        call_ensures(branches::last_deploy_of, (jobs, app_id, branch), r),
        call_ensures(branches::is_primary_branch, (name,), p),
    ensures
        r@ == branches::last_deploy(jobs@, app_id@, branch@),
        p <==> branches::release(name@) || branches::essential(name@),
{
}

/// The command lines of this browser.
pub proof fn law_command_lines(
    app_id: &str,
    branch: &str,
    job: &str,
    region: &str,
    a: Vec<String>,
    b: Vec<String>,
    c: Vec<String>,
    d: Vec<String>,
)
    requires
        call_ensures(amplify::list_apps_args, (Some(region),), a),
        call_ensures(amplify::list_branches_args, (app_id, Some(region)), b),
        call_ensures(amplify::list_jobs_args, (app_id, branch, Some(region)), c),
        call_ensures(amplify::get_job_args, (app_id, branch, job, Some(region)), d),
    ensures
        text::views(a@) =~= seq![
            "--region"@,
            region@,
            "amplify"@,
            "list-apps"@,
            "--max-results"@,
            "100"@,
            "--output"@,
            "json"@,
        ],
        text::views(b@) =~= seq![
            "--region"@,
            region@,
            "amplify"@,
            "list-branches"@,
            "--app-id"@,
            app_id@,
            "--max-results"@,
            "50"@,
            "--output"@,
            "json"@,
        ],
        text::views(c@) =~= seq![
            "--region"@,
            region@,
            "amplify"@,
            "list-jobs"@,
            "--app-id"@,
            app_id@,
            "--branch-name"@,
            branch@,
            "--max-results"@,
            "50"@,
            "--output"@,
            "json"@,
        ],
        text::views(d@) =~= seq![
            "--region"@,
            region@,
            "amplify"@,
            "get-job"@,
            "--app-id"@,
            app_id@,
            "--branch-name"@,
            branch@,
            "--job-id"@,
            job@,
            "--output"@,
            "json"@,
        ],
{
}

/// A log that was fetched is shown under the name of its step; a failure is told with it.
pub proof fn law_fetched_log(name: String, body: String, e: String, r: AmplifyEvent, s: AmplifyEvent)
    requires
        call_ensures(amplify::fetched_log, (name, Ok::<String, String>(body)), r),
        call_ensures(amplify::fetched_log, (name, Err::<String, String>(e)), s),
    ensures
        r is Log && r->step_name@ == name@ && r->text@ == amplify::shown_log(body@),
        s is Failed && s->Failed_0@ == "log fetch "@ + name@ + ": "@ + e@,
{
}

/// The pages of apps and branches, and a short reason of an error, as they are given out.
pub proof fn law_texts_given_out(
    app_id: &str,
    branch: &str,
    region: Option<&str>,
    a: String,
    b: String,
    error: &str,
    e: String,
    j: &AmplifyJob,
    t: String,
)
    requires
        call_ensures(amplify::console_url_app, (app_id, region), a),
        call_ensures(amplify::console_url_branch, (app_id, branch, region), b),
        call_ensures(amplify::short_error_reason, (error,), e),
        call_ensures(ui::job_duration_str, (j,), t),
    ensures
        a@ == amplify::app_url(app_id@, text::opt_str_view(region)),
        b@ == amplify::branch_url(app_id@, branch@, text::opt_str_view(region)),
        e@ == amplify::short_reason(error@),
        t@ == ui::job_time(*j),
{
}

/// A key goes to the log where one is open, else to the deployments where they are open,
/// and else to the list.
pub proof fn law_key_that_is_pressed(key: Key, ctrl: bool, alt: bool, a: &App, r: Option<Action>)
    requires
        call_ensures(keys::handle, (key, ctrl, alt, a), r),
    ensures
        a.logs_view is Some ==> r == keys::logs_action(key, ctrl),
        a.logs_view is None && a.deployment_history is Some ==> r == keys::history_action(key, ctrl),
        a.logs_view is None && a.deployment_history is None ==> r == keys::list_action(key, ctrl, alt),
{
}

/// The browser begins with the list of all apps, and asks for them.
pub proof fn law_fresh_browser(cfg: Config, r: (App, Vec<Request>))
    requires
        call_ensures(App::new, (cfg,), r),
    ensures
        app::request_views(r.1@) =~= seq![RequestV::Apps],
        r.0.cfg == cfg,
        r.0@.apps.loading && r.0@.apps.pending,
        r.0@.apps.items.len() == 0,
        r.0@.status == "refreshing All apps…"@,
        r.0@.logs is None && r.0@.history is None,
{
}

/// The apps are loaded again once they were idle for as long as the interval says; an
/// interval of nothing is never over.
pub proof fn law_loading_again(a: &App, idle: u64, r: bool)
    requires
        call_ensures(App::refresh_due, (a, idle), r),
    ensures
        a.cfg.refresh_interval_secs == 0 ==> !r,
        a.cfg.refresh_interval_secs > 0 ==> (r <==> idle >= a.cfg.refresh_interval_secs),
{
}

/// Among the deployments of a branch the cursor moves by that many, but not out of them.
pub proof fn law_moving_among_deployments(a: &mut App, delta: isize)
    requires
        call_ensures(App::deployment_history_move, (a, delta), ()),
        old(a)@.history is Some,
        0 <= old(a)@.history->0.selected < old(a)@.history->0.jobs.len(),
    ensures
        ({
            let h = old(a)@.history->0;
            let r = final(a)@.history;
            &&& r is Some && r->0.jobs == h.jobs
            &&& 0 <= h.selected + delta < h.jobs.len() ==> r->0.selected == h.selected + delta
            &&& h.selected + delta < 0 ==> r->0.selected == 0
            &&& h.selected + delta >= h.jobs.len() ==> r->0.selected == h.jobs.len() - 1
        }),
{
}

/// The deployment under the cursor is asked for, by its app, its branch and its number.
pub proof fn law_deployment_that_is_opened(a: &mut App, r: Option<Request>)
    requires
        call_ensures(App::deployment_history_enter, (a,), r),
        old(a)@.history is Some,
        0 <= old(a)@.history->0.selected < old(a)@.history->0.jobs.len(),
    ensures
        ({
            let h = old(a)@.history->0;
            let j = h.jobs[h.selected];
            &&& r is Some
            &&& r->0@ == (RequestV::Detail {
                app_id: h.app_id,
                branch_name: h.branch_name,
                job_id: j.job_id@,
            })
            &&& final(a)@.logs is Some
        }),
{
}

/// For the logs of a branch its newest deployment is asked for; without one it is told
/// that there is none.
pub proof fn law_newest_deployment_is_opened(
    a: &mut App,
    app_id: &str,
    branch: &str,
    jobs: Vec<AmplifyJob>,
    r: Option<Request>,
)
    requires
        call_ensures(App::open_logs_for_branch, (a, app_id, branch), r),
    ensures
        old(a)@.apps.jobs.dom().contains((app_id@, branch@)) && old(a)@.apps.jobs[(app_id@, branch@)] == jobs
            && jobs@.len() > 0 ==> r is Some && r->0@ == (RequestV::Detail {
            app_id: app_id@,
            branch_name: branch@,
            job_id: jobs@[0].job_id@,
        }),
        !old(a)@.apps.jobs.dom().contains((app_id@, branch@)) ==> r is None && final(a)@.status
            == "no deploys yet for "@ + branch@,
{
}

/// What lies over the list can be closed.
pub proof fn law_closing(a: &mut App, b: &mut App)
    requires
        call_ensures(App::close_logs_view, (a,), ()),
        call_ensures(App::close_deployment_history, (b,), ()),
    ensures
        final(a)@.logs is None && final(a)@.history == old(a)@.history,
        final(b)@.history is None && final(b)@.logs == old(b)@.logs,
{
}

/// The page of the row under the cursor is opened, or copied; without a row that is told.
pub proof fn law_page_of_the_row(a: &mut App, b: &mut App, now: Option<u64>, r: Option<String>, s: Option<String>)
    requires
        call_ensures(App::open_focused, (a, now), r),
        call_ensures(App::yank_focused_url, (b, now), s),
    ensures
        text::opt_view(r) == old(a)@.focused_url(now),
        text::opt_view(s) == old(b)@.focused_url(now),
        old(a)@.focused_url(now) is None ==> final(a)@.status == "no row under cursor"@,
        old(b)@.focused_url(now) is None ==> final(b)@.status == "no row under cursor"@,
{
}

/// It is told what was opened, copied or started, or why nothing was.
pub proof fn law_outcomes_are_told(
    a: &mut App,
    b: &mut App,
    c: &mut App,
    url: &str,
    l: &Launch,
    ok: &Result<(), String>,
    e: String,
    bad: &Result<(), String>,
)
    requires
        *ok == Ok::<(), String>(()),
        *bad == Err::<(), String>(e),
        call_ensures(App::opened, (a, url, bad), ()),
        call_ensures(App::url_copied, (b, url, ok), ()),
        call_ensures(App::launched, (c, l, bad), ()),
    ensures
        final(a)@.status == "open failed: "@ + e@,
        final(b)@.status == "copied "@ + url@,
        final(c)@.status == l.failed@ + e@,
{
}

proof fn lemma_first_error(t: Seq<Tab>, n: int)
    requires
        0 <= n <= t.len(),
    ensures
        config::first_error(t, n) is None <==> forall|i: int|
            0 <= i < n ==> (#[trigger] config::tab_error(t[i], i)) is None,
    decreases n,
{
    if n > 0 {
        lemma_first_error(t, n - 1);
        if config::first_error(t, n) is None {
            assert forall|i: int| 0 <= i < n implies (#[trigger] config::tab_error(t[i], i)) is None by {
                if i == n - 1 {
                    assert(config::tab_error(t[n - 1], n - 1) is None);
                }
            }
        } else if config::first_error(t, n - 1) is None {
            assert(config::tab_error(t[n - 1], n - 1) is Some);
        }
    }
}

/// Settings are good where there is a tab and each of them is good: it lists all apps, or
/// names the one that it shows.
pub proof fn law_good_settings(c: &Config, r: Result<(), String>, t: Tab, i: int)
    requires
        call_ensures(Config::validate, (c,), r),
    ensures
        r is Ok <==> c.tabs@.len() > 0 && forall|k: int|
            0 <= k < c.tabs@.len() ==> (#[trigger] config::tab_error(c.tabs@[k], k)) is None,
        t.kind@ == "apps"@ ==> config::tab_error(t, i) is None,
        t.kind@ == "app"@ ==> (config::tab_error(t, i) is None <==> t.app_id is Some && text::trimmed(t.app_id->0@).len()
            > 0),
        t.kind@ != "apps"@ && t.kind@ != "app"@ ==> config::tab_error(t, i) is Some,
{
    lemma_first_error(c.tabs@, c.tabs@.len() as int);
    reveal_strlit("apps");
    reveal_strlit("app");
    reveal_strlit("");
    assert("apps"@.len() == 4 && "app"@.len() == 3);
    text::law_trimmed_text_stays(Seq::empty());
    assert(text::trimmed(""@) =~= Seq::<char>::empty());
}

/// A log is shown as it is while it is short; of a longer one the beginning is shown, as
/// much as fits, with a remark behind it.
pub proof fn law_long_logs_are_cut(body: String, r: String)
    requires
        call_ensures(amplify::trim_log, (body,), r),
    ensures
        vstd::utf8::encode_utf8(body@).len() <= 204_800 ==> r@ == body@,
        vstd::utf8::encode_utf8(body@).len() > 204_800 ==> exists|n: int|
            0 <= n < body@.len() && vstd::utf8::encode_utf8(body@.take(n)).len() <= 204_800 && vstd::utf8::encode_utf8(
                body@.take(n + 1),
            ).len() > 204_800 && r@ == #[trigger] body@.take(n) + "\n\n… (truncated at 204800 bytes)"@,
{
    if vstd::utf8::encode_utf8(body@).len() > 204_800 {
        crate::offsets::law_longest_beginning(body@, 204_800);
        let k = crate::offsets::within_bytes(body@, 204_800);
        assert(body@.take(body@.len() as int) =~= body@);
        assert(k.len() < body@.len());
        assert(r@ == body@.take(k.len() as int) + "\n\n… (truncated at 204800 bytes)"@);
    }
}

/// Of the branches for stages the main one comes first, then the one for development and
/// then the one for staging; branches of other kinds come behind them.
pub proof fn law_order_of_stages(
    all: &Vec<AmplifyBranch>,
    jobs: &Table<(String, String), Vec<AmplifyJob>>,
    app_id: &str,
    now: Option<u64>,
    r: Vec<&AmplifyBranch>,
    i: int,
    j: int,
)
    requires
        call_ensures(branches::choose_branches, (all, jobs, app_id, now), r),
        0 <= i < j < r@.len(),
    ensures
        branches::kind_of(*r@[j]) == 0 ==> branches::kind_of(*r@[i]) == 0,
        branches::kind_of(*r@[j]) == 0 && (r@[j].branch_name@ == "main"@ || r@[j].branch_name@ == "master"@) ==> r@[i].branch_name@
            == "main"@ || r@[i].branch_name@ == "master"@,
        branches::kind_of(*r@[j]) == 0 && r@[j].branch_name@ == "develop"@ ==> r@[i].branch_name@ != "staging"@,
{
    let p = branches::by_stage(branches::of_kind(all@, 0));
    let s = branches::shown_branches(all@, jobs@, app_id@, now);
    let less = |x: AmplifyBranch, y: AmplifyBranch|
        branches::primary_key(x.branch_name@) < branches::primary_key(y.branch_name@);
    assert(crate::order::orders(less));
    crate::order::law_sorted(branches::of_kind(all@, 0), less);
    assert(branches::pointed(r@)[i] == *r@[i]);
    assert(branches::pointed(r@)[j] == *r@[j]);
    laws::lemma_kinds_in_their_places(all@, jobs@, app_id@, now, i);
    laws::lemma_kinds_in_their_places(all@, jobs@, app_id@, now, j);
    reveal_strlit("main");
    reveal_strlit("master");
    reveal_strlit("develop");
    reveal_strlit("staging");
    assert("main"@[2] == 'i' && "master"@[2] == 's' && "develop"@[0] == 'd' && "staging"@[0] == 's' && "main"@[0] == 'm'
        && "master"@[0] == 'm');
    if branches::kind_of(*r@[j]) == 0 {
        assert(j < p.len());
        assert(s[i] == p[i] && s[j] == p[j]);
        assert(!less(p[j], p[i]));
    }
}

/// A press on the list selects the row that is drawn there and enters it; a press of the
/// mouse outside of the list does nothing.
pub proof fn law_press_on_the_list(
    a: &mut App,
    mouse: Mouse,
    column: u16,
    row: u16,
    body: Area,
    inside: bool,
    now: Option<u64>,
    r: Effect,
)
    requires
        old(a).wf(),
        call_ensures(mouse::handle_mouse, (a, mouse, column, row, body, inside, now), r),
        old(a)@.logs is None,
        old(a)@.history is None,
    ensures
        column < body.x || column >= body.x + body.width || row < body.y || row >= body.y + body.height ==> final(a)@
            == old(a)@,
        ({
            let i = mouse::row_at(old(a)@, old(a)@.rows(now), row as int, body, inside);
            let b = old(a)@.at_row(i->0);
            &&& body.x <= column < body.x + body.width && body.y <= row < body.y + body.height && i is Some && mouse
                == Mouse::Press && !(old(a)@.rows(now)[i->0] is Branch) ==> final(a)@ == b.entered(now)
            &&& body.x <= column < body.x + body.width && body.y <= row < body.y + body.height && i is Some && mouse
                == Mouse::ScrollDown ==> final(a)@ == old(a)@.moved(3, now)
            &&& body.x <= column < body.x + body.width && body.y <= row < body.y + body.height && i is Some && mouse
                == Mouse::ScrollUp ==> final(a)@ == old(a)@.moved(-3, now)
        }),
{
}

proof fn lemma_steps_begun(steps: Seq<AmplifyJobStep>, n: int, i: int)
    requires
        0 <= i < n <= steps.len(),
    ensures
        drain::steps_begun(steps, n).len() == n,
        drain::steps_begun(steps, n)[i].0 == steps[i].step_name@,
        steps[i].log_url is Some ==> drain::steps_begun(steps, n)[i].1.len() == 0,
        steps[i].log_url is None ==> drain::steps_begun(steps, n)[i].1 == "(no log URL for step; status="@
            + steps[i].status@ + ")"@,
        steps[i].log_url is Some ==> drain::log_requests(steps, n).contains(
            RequestV::Log { step_name: steps[i].step_name@, url: steps[i].log_url->0@ },
        ),
    decreases n,
{
    let rest = drain::log_requests(steps, n - 1);
    if n > 1 {
        lemma_steps_begun(steps, n - 1, if i < n - 1 {
            i
        } else {
            0
        });
    } else {
        assert(drain::steps_begun(steps, 0).len() == 0);
    }
    let all = drain::log_requests(steps, n);
    if steps[i].log_url is Some {
        let x = RequestV::Log { step_name: steps[i].step_name@, url: steps[i].log_url->0@ };
        if i == n - 1 {
            assert(all[rest.len() as int] == x);
        } else {
            let k = choose|k: int| 0 <= k < rest.len() && rest[k] == x;
            assert(all[k] == x);
        }
    }
}

/// The steps of a deployment that arrives are listed in their order; the log of each that
/// has one is asked for, and of the others it is told that there is none.
pub proof fn law_steps_arrive(l: LogsV, d: AmplifyJobDetail, e: String, i: int)
    requires
        l.pending_detail,
        0 <= i < d.steps@.len(),
    ensures
        ({
            let r = drain::detail_arrived(l, Recv::Got(AmplifyEvent::JobDetail(d)));
            let s = d.steps@[i];
            let at = l.steps.len() + i;
            &&& !r.0.loading_detail && !r.0.pending_detail
            &&& r.0.steps.len() == l.steps.len() + d.steps@.len()
            &&& r.0.steps[at].0 == s.step_name@
            &&& s.log_url is None ==> r.0.steps[at].1 == "(no log URL for step; status="@ + s.status@ + ")"@
            &&& s.log_url is Some ==> r.1.contains(RequestV::Log { step_name: s.step_name@, url: s.log_url->0@ })
            &&& r.0.pending_logs == l.pending_logs + r.1.len()
            &&& r.2
        }),
        ({
            let f = drain::detail_arrived(l, Recv::Got(AmplifyEvent::Failed(e)));
            f.0.error == Some(e@) && !f.0.loading_detail && f.0.steps == l.steps && f.1.len() == 0
        }),
{
    lemma_steps_begun(d.steps@, d.steps@.len() as int, i);
}

/// A log that arrives is put where its step stands; what did not arrive yet is still
/// waited for.
pub proof fn law_logs_arrive(steps: Seq<(Seq<char>, Seq<char>)>, name: String, log: String)
    ensures
        drain::logs_arrived(steps, seq![Recv::Got(AmplifyEvent::Log { step_name: name, text: log })], 1)
            == drain::with_log(steps, name@, log@),
        drain::logs_arrived(steps, seq![Recv::Empty], 1) == steps,
        drain::unanswered(seq![Recv::Empty], 1) == 1,
        drain::unanswered(seq![Recv::Got(AmplifyEvent::Log { step_name: name, text: log })], 1) == 0,
{
    let a = seq![Recv::Got(AmplifyEvent::Log { step_name: name, text: log })];
    let b = seq![Recv::Empty];
    assert(drain::logs_arrived(steps, a, 0) == steps);
    assert(drain::logs_arrived(steps, b, 0) == steps);
    assert(drain::recv_at(a, 0) == a[0]);
    assert(drain::recv_at(b, 0) == b[0]);
    assert(drain::unanswered(a, 0) == 0);
    assert(drain::unanswered(b, 0) == 0);
}

/// Everything that arrived is taken in: first the apps, then what belongs to them, then
/// what lies over the list.
pub proof fn law_all_is_taken_in(
    a: &mut App,
    apps: Recv,
    branches: Vec<(String, Recv)>,
    jobs: Vec<Recv>,
    history: Recv,
    detail: Recv,
    logs: Vec<Recv>,
    now: u64,
    r: (bool, Vec<Request>),
)
    requires
        old(a).room_for(detail),
        call_ensures(App::drain, (a, apps, branches, jobs, history, detail, logs, now), r),
    ensures
        final(a)@.apps.items == old(a)@.on_apps(apps, now).app.apps.items,
        old(a)@.logs is None ==> final(a)@.logs is None,
        old(a)@.history is None ==> final(a)@.history is None,
        old(a)@.history is Some ==> final(a)@.history is Some && final(a)@.history->0 == drain::history_arrived(
            old(a)@.history->0,
            history,
        ).0,
        old(a)@.logs is Some ==> final(a)@.logs is Some && final(a)@.logs->0.steps == drain::logs_arrived(
            drain::detail_arrived(old(a)@.logs->0, detail).0.steps,
            logs@,
            drain::detail_arrived(old(a)@.logs->0, detail).0.pending_logs,
        ),
        final(a)@.status == old(a)@.on_apps(apps, now).app.status,
{
    let s1 = old(a)@.on_apps(apps, now);
    assert(s1.app.logs == old(a)@.logs && s1.app.history == old(a)@.history);
    drain::lemma_lists_keep_the_rest(s1.app, branches@, old(a)@.fresh_ids(apps), jobs@);
}

/// How many apps are shown, and how many are hidden, is told when they arrive.
pub proof fn law_hidden_apps_are_counted(total: nat, visible: nat)
    ensures
        total > visible ==> drain::hidden_note(total, visible) == " ("@ + numeral::decimal((total - visible) as nat)
            + " hidden)"@,
        total <= visible ==> drain::hidden_note(total, visible).len() == 0,
{
}

/// The line of a deployment: its sign and status, its number, how long it took and when
/// it began.
pub proof fn law_line_of_a_deployment(j: AmplifyJob, started: Seq<char>)
    ensures
        ({
            let l = ui::job_line(j, started);
            &&& l.len() == 6
            &&& text::has_prefix(l[1].0, ui::status_mark(j.status@) + " "@)
            &&& text::has_prefix(l[2].0, "#"@ + j.job_id@)
            &&& text::has_prefix(l[3].0, ui::job_time(j))
            &&& text::has_prefix(l[4].0, started)
            &&& l[1].1.fg == ui::status_shade(j.status@)
        }),
{
    let l = ui::job_line(j, started);
    text::law_padded(j.job_id@, 6);
    text::law_padded(ui::job_time(j), 9);
    text::law_padded(started, 20);
    let a = ui::status_mark(j.status@) + " "@;
    assert(l[1].0.take(a.len() as int) =~= a);
    let b = "#"@ + j.job_id@;
    let p = text::padded_right(j.job_id@, 6);
    assert(p.take(j.job_id@.len() as int) == j.job_id@);
    assert forall|k: int| 0 <= k < j.job_id@.len() implies p[k] == j.job_id@[k] by {
        assert(p.take(j.job_id@.len() as int)[k] == p[k]);
    }
    assert(l[2].0.take(b.len() as int) =~= b);
    let q = text::padded_right(started, 20);
    assert((q + " "@).take(started.len() as int) =~= q.take(started.len() as int));
}

proof fn lemma_job_named(js: Seq<AmplifyJob>, i: int)
    requires
        0 <= i < js.len(),
        forall|k: int| 0 <= k < i ==> (#[trigger] js[k]).job_id@ != js[i].job_id@,
    ensures
        ui::job_named(js, js[i].job_id@) == Some(js[i]),
    decreases i,
{
    if i > 0 {
        assert(js[0].job_id@ != js[i].job_id@);
        let t = js.drop_first();
        assert forall|k: int| 0 <= k < i - 1 implies (#[trigger] t[k]).job_id@ != t[i - 1].job_id@ by {
            assert(t[k] == js[k + 1]);
        }
        lemma_job_named(t, i - 1);
    }
}

/// The row of a deployment is drawn with the deployment that has its number.
pub proof fn law_row_shows_its_deployment(a: AppV, app_id: String, branch: String, jobs: Vec<AmplifyJob>, i: int, started: Seq<char>)
    requires
        a.apps.jobs.dom().contains((app_id@, branch@)),
        a.apps.jobs[(app_id@, branch@)] == jobs,
        0 <= i < jobs@.len(),
        forall|k: int| 0 <= k < i ==> (#[trigger] jobs@[k]).job_id@ != jobs@[i].job_id@,
    ensures
        ui::row_lines(
            a,
            VisibleRow::Deployment { app_id, branch_name: branch, job_id: jobs@[i].job_id },
            started,
        ) =~= seq![ui::job_line(jobs@[i], started)],
{
    lemma_job_named(jobs@, i);
}

/// Where a branch has no deployments that is told in a line below it.
pub proof fn law_branch_without_deployments(jobs: Option<Vec<AmplifyJob>>, e: String)
    ensures
        ui::branch_gap(None, None)[1].0 == "(loading…)"@,
        jobs is Some ==> ui::branch_gap(jobs, None)[1].0 == "(no deployments yet)"@,
        ui::branch_gap(jobs, Some(e))[1].1.fg == Color::Red,
        text::has_prefix(ui::branch_gap(jobs, Some(e))[1].0, "error: "@),
{
    let t = ui::branch_gap(jobs, Some(e))[1].0;
    assert(t.take("error: "@.len() as int) =~= "error: "@);
}

/// What lies over the list is drawn as it stands.
pub proof fn law_overlays_are_drawn(a: &App, h: Option<HistoryPane>, l: Option<LogsPane>, i: int)
    requires
        call_ensures(ui::draw_deployment_history, (a,), h),
        call_ensures(ui::draw_logs_view, (a,), l),
    ensures
        h is Some <==> a.deployment_history is Some,
        l is Some <==> a.logs_view is Some,
        h is Some ==> screen::drawn(h->0.rows@).len() == a.deployment_history->0@.jobs.len() && h->0.selected
            == a.deployment_history->0@.selected,
        h is Some && 0 <= i < a.deployment_history->0@.jobs.len() ==> screen::drawn(h->0.rows@)[i][0].0 == "#"@
            + a.deployment_history->0@.jobs[i].job_id@,
        l is Some ==> screen::drawn(l->0.lines@) == ui::logs_lines(a.logs_view->0@) && l->0.scroll
            == a.logs_view->0@.scroll,
{
}

/// What the settings say where nothing is set.
pub proof fn law_defaults(n: u64, k: String)
    requires
        call_ensures(config::default_refresh, (), n),
        call_ensures(config::default_kind, (), k),
    ensures
        n == 0,
        k@ == "apps"@,
{
}

/// What is told of the newest deployment of a branch: its number and status, when it
/// began, how long it took and what it deployed.
pub proof fn law_summary_of_a_deployment(j: AmplifyJob)
    ensures
        ({
            let s = ui::job_summary(j);
            &&& s.len() >= 5
            &&& s[0][0].0 == "Deployment #"@ + j.job_id@ && s[0][2].0 == j.status@
            &&& s[0][2].1.fg == ui::status_shade(j.status@)
            &&& s[2][0].0 == "Started    "@ && (j.start_time is Some ==> s[2][1].0 == j.start_time->0@)
            &&& s[3][0].0 == "Duration   "@ && s[3][1].0 == ui::job_time(j)
            &&& s[4][0].0 == "Commit     "@ && (j.commit_message is None ==> s[4][1].0 == "(no message)"@)
            &&& j.commit_message is Some ==> s[4][1].0 == amplify::first_line(j.commit_message->0@)
            &&& j.commit_id is Some && j.commit_id->0@.len() <= 12 ==> s.len() == 6 && s[5][1].0 == j.commit_id->0@
        }),
{
    if j.commit_id is Some && j.commit_id->0@.len() <= 12 {
        assert(text::first_chars(j.commit_id->0@, 12) =~= j.commit_id->0@);
    }
}

/// Above the deployments of a branch stands its newest one, or why there is none.
pub proof fn law_above_the_deployments(h: HistoryV, e: Seq<char>)
    ensures
        h.loading && h.jobs.len() == 0 ==> ui::summary_lines(h)[0][0].0 == "loading deployments…"@,
        !h.loading && h.error == Some(e) ==> ui::summary_lines(h)[0][0].0 == "error: "@ + e,
        !h.loading && h.error is None && h.jobs.len() > 0 ==> ui::summary_lines(h) == ui::job_summary(h.jobs[0]),
        !h.loading && h.error is None && h.jobs.len() == 0 ==> ui::summary_lines(h)[0][0].0 == "(no deployments)"@,
{
}

} // verus!
