//! What holds of the list of apps: which rows it has, and what is done with them.

use vstd::prelude::*;

use crate::amplify::actions;
use crate::amplify::amplify;
use crate::amplify::amplify::{AmplifyApp, AmplifyBranch, AmplifyEvent, AmplifyJob};
use crate::amplify::app;
use crate::amplify::app::{AppV, AppsV, HistoryV, RequestV, TabKind, VisibleRow};
use crate::amplify::config;
use crate::amplify::config::Tab;
use crate::amplify::drain;
use crate::amplify::drain::Recv;
use crate::text;

verus! {

proof fn lemma_place_of(items: Seq<AmplifyApp>, id: Seq<char>)
    ensures
        app::place_of(items, id) is Some ==> 0 <= app::place_of(items, id)->0 < items.len() && items[app::place_of(
            items,
            id,
        )->0].app_id@ == id,
        app::place_of(items, id) is None ==> forall|i: int| 0 <= i < items.len() ==> (#[trigger] items[i]).app_id@ != id,
    decreases items.len(),
{
    if items.len() > 0 {
        let t = items.drop_last();
        lemma_place_of(t, id);
        if app::place_of(items, id) is None {
            assert forall|i: int| 0 <= i < items.len() implies (#[trigger] items[i]).app_id@ != id by {
                if i < t.len() {
                    assert(t[i] == items[i]);
                }
            }
        }
    }
}

proof fn lemma_chosen(items: Seq<AmplifyApp>, order: Seq<String>)
    ensures
        forall|k: int|
            0 <= k < app::chosen_places(items, order).len() ==> 0 <= #[trigger] app::chosen_places(items, order)[k]
                < items.len(),
    decreases order.len(),
{
    if order.len() > 0 {
        lemma_chosen(items, order.drop_last());
        lemma_place_of(items, order.last()@);
        let t = app::chosen_places(items, order.drop_last());
        let s = app::chosen_places(items, order);
        assert forall|k: int| 0 <= k < s.len() implies 0 <= #[trigger] s[k] < items.len() by {
            if k < t.len() {
                assert(s[k] == t[k]);
            }
        }
    }
}

proof fn lemma_others(used: Seq<int>, n: int, i: int)
    ensures
        app::other_places(used, n).contains(i) <==> 0 <= i < n && !used.contains(i),
        forall|k: int| 0 <= k < app::other_places(used, n).len() ==> 0 <= #[trigger] app::other_places(used, n)[k] < n,
        forall|k: int, l: int|
            0 <= k < l < app::other_places(used, n).len() ==> #[trigger] app::other_places(used, n)[k]
                < #[trigger] app::other_places(used, n)[l],
    decreases n,
{
    if n > 0 {
        lemma_others(used, n - 1, i);
        let rest = app::other_places(used, n - 1);
        if !used.contains(n - 1) {
            let s = rest.push(n - 1);
            assert(s[s.len() - 1] == n - 1);
            if rest.contains(i) {
                let k = choose|k: int| 0 <= k < rest.len() && rest[k] == i;
                assert(s[k] == i);
            }
            if s.contains(i) && i != n - 1 {
                let k = choose|k: int| 0 <= k < s.len() && s[k] == i;
                assert(rest[k] == i);
            }
        }
    }
}

/// Every app has a place in the list, and every place is that of an app.
pub proof fn law_every_app_has_a_place(items: Seq<AmplifyApp>, order: Seq<String>, i: int)
    ensures
        app::ordered_places(items, order).contains(i) <==> 0 <= i < items.len(),
{
    let c = app::chosen_places(items, order);
    let o = app::other_places(c, items.len() as int);
    let s = app::ordered_places(items, order);
    lemma_chosen(items, order);
    lemma_others(c, items.len() as int, i);
    if c.contains(i) {
        let k = choose|k: int| 0 <= k < c.len() && c[k] == i;
        assert(s[k] == i);
    }
    if o.contains(i) {
        let k = choose|k: int| 0 <= k < o.len() && o[k] == i;
        assert(s[c.len() + k] == i);
    }
    if s.contains(i) {
        let k = choose|k: int| 0 <= k < s.len() && s[k] == i;
        if k < c.len() {
            assert(c[k] == i);
        } else {
            assert(o[k - c.len()] == i);
        }
    }
}

proof fn lemma_chosen_follow(items: Seq<AmplifyApp>, order: Seq<String>)
    requires
        forall|k: int| 0 <= k < order.len() ==> app::place_of(items, (#[trigger] order[k])@) is Some,
    ensures
        app::chosen_places(items, order).len() == order.len(),
        forall|k: int|
            0 <= k < order.len() ==> items[#[trigger] app::chosen_places(items, order)[k]].app_id@ == order[k]@,
    decreases order.len(),
{
    if order.len() > 0 {
        let t = order.drop_last();
        assert forall|k: int| 0 <= k < t.len() implies app::place_of(items, (#[trigger] t[k])@) is Some by {
            assert(t[k] == order[k]);
        }
        lemma_chosen_follow(items, t);
        lemma_place_of(items, order.last()@);
        assert(app::place_of(items, order[order.len() - 1]@) is Some);
        assert forall|k: int| 0 <= k < order.len() implies items[#[trigger] app::chosen_places(items, order)[k]].app_id@
            == order[k]@ by {
            if k < t.len() {
                assert(t[k] == order[k]);
            }
        }
    }
}

/// The apps that the settings put in an order come first, in that order; the others
/// follow as they came.
pub proof fn law_order_of_the_settings(items: Seq<AmplifyApp>, order: Seq<String>, k: int, l: int)
    requires
        forall|j: int| 0 <= j < order.len() ==> app::place_of(items, (#[trigger] order[j])@) is Some,
    ensures
        0 <= k < order.len() ==> app::ordered_places(items, order).len() >= order.len() && items[app::ordered_places(
            items,
            order,
        )[k]].app_id@ == order[k]@,
        order.len() <= k < l < app::ordered_places(items, order).len() ==> app::ordered_places(items, order)[k]
            < app::ordered_places(items, order)[l],
{
    let c = app::chosen_places(items, order);
    lemma_chosen_follow(items, order);
    lemma_others(c, items.len() as int, 0);
    let o = app::other_places(c, items.len() as int);
    let s = app::ordered_places(items, order);
    if 0 <= k < order.len() {
        assert(s[k] == c[k]);
    }
    if order.len() <= k < l < s.len() {
        assert(s[k] == o[k - c.len()] && s[l] == o[l - c.len()]);
    }
}

proof fn lemma_branch_rows(a: AppV, app_id: String, brs: Seq<AmplifyBranch>, n: int, j: int)
    requires
        0 <= n <= brs.len(),
    ensures
        forall|k: int|
            0 <= k < a.branch_rows(app_id, brs, n).len() ==> !(#[trigger] a.branch_rows(app_id, brs, n)[k] is AppHeader),
        0 <= j < n ==> a.branch_rows(app_id, brs, n).contains(
            VisibleRow::Branch { app_id, branch_name: brs[j].branch_name },
        ),
    decreases n,
{
    if n > 0 {
        lemma_branch_rows(a, app_id, brs, n - 1, j);
        let rest = a.branch_rows(app_id, brs, n - 1);
        let name = brs[n - 1].branch_name;
        let row = VisibleRow::Branch { app_id, branch_name: name };
        let d = a.deployment_rows(app_id, name);
        let s = rest.push(row) + d;
        assert(s[rest.len() as int] == row);
        assert forall|k: int| 0 <= k < s.len() implies !(#[trigger] s[k] is AppHeader) by {
            if k < rest.len() {
                assert(s[k] == rest[k]);
            } else if k > rest.len() {
                assert(s[k] == d[k - rest.len() - 1]);
            }
        }
        if 0 <= j < n - 1 {
            let r = VisibleRow::Branch { app_id, branch_name: brs[j].branch_name };
            let k = choose|k: int| 0 <= k < rest.len() && rest[k] == r;
            assert(s[k] == r);
        }
    }
}

proof fn lemma_rows_to(a: AppV, now: Option<u64>, n: int, row: VisibleRow)
    requires
        0 <= n <= app::ordered_places(a.apps.items, a.cfg.order).len(),
    ensures
        a.rows_to(n, now).contains(row) <==> exists|k: int|
            0 <= k < n && a.app_rows(#[trigger] app::ordered_places(a.apps.items, a.cfg.order)[k], now).contains(row),
    decreases n,
{
    if n > 0 {
        lemma_rows_to(a, now, n - 1, row);
        let p = app::ordered_places(a.apps.items, a.cfg.order);
        let x = a.rows_to(n - 1, now);
        let y = a.app_rows(p[n - 1], now);
        let s = x + y;
        if x.contains(row) {
            let k = choose|k: int| 0 <= k < x.len() && x[k] == row;
            assert(s[k] == row);
        }
        if y.contains(row) {
            let k = choose|k: int| 0 <= k < y.len() && y[k] == row;
            assert(s[x.len() + k] == row);
        }
        if s.contains(row) {
            let k = choose|k: int| 0 <= k < s.len() && s[k] == row;
            if k < x.len() {
                assert(x[k] == row);
            } else {
                assert(y[k - x.len()] == row);
            }
        }
    }
}

/// An app has a row exactly where it is not hidden, or the hidden ones are shown; the
/// row tells whether the app is expanded.
pub proof fn law_apps_that_are_not_hidden_have_a_row(a: AppV, now: Option<u64>, i: int)
    requires
        0 <= i < a.apps.items.len() <= usize::MAX,
    ensures
        ({
            let id = a.apps.items[i].app_id@;
            let shown = a.apps.show_hidden || forall|k: int|
                0 <= k < a.cfg.hidden.len() ==> (#[trigger] a.cfg.hidden[k])@ != id;
            &&& shown ==> a.rows(now).contains(
                VisibleRow::AppHeader { items_index: i as usize, expanded: a.apps.expanded.contains(id) },
            )
            &&& !shown ==> !a.rows(now).contains(VisibleRow::AppHeader { items_index: i as usize, expanded: true })
                && !a.rows(now).contains(VisibleRow::AppHeader { items_index: i as usize, expanded: false })
        }),
{
    let p = app::ordered_places(a.apps.items, a.cfg.order);
    let id = a.apps.items[i].app_id@;
    let yes = VisibleRow::AppHeader { items_index: i as usize, expanded: a.apps.expanded.contains(id) };
    let t = VisibleRow::AppHeader { items_index: i as usize, expanded: true };
    let f = VisibleRow::AppHeader { items_index: i as usize, expanded: false };
    lemma_rows_to(a, now, p.len() as int, yes);
    lemma_rows_to(a, now, p.len() as int, t);
    lemma_rows_to(a, now, p.len() as int, f);
    law_every_app_has_a_place(a.apps.items, a.cfg.order, i);
    let k = choose|k: int| 0 <= k < p.len() && p[k] == i;
    assert(a.shown(a.apps.items[i]) <==> a.apps.show_hidden || !text::among(a.cfg.hidden, id));
    if a.shown(a.apps.items[i]) {
        assert(a.app_rows(i, now)[0] == yes);
        assert(a.app_rows(p[k], now).contains(yes));
    } else {
        assert forall|j: int| 0 <= j < p.len() implies !a.app_rows(#[trigger] p[j], now).contains(t) && !a.app_rows(
            p[j],
            now,
        ).contains(f) by {
            lemma_header_is_own(a, now, p[j], i, p, j);
        }
    }
}

proof fn lemma_header_is_own(a: AppV, now: Option<u64>, place: int, i: int, p: Seq<int>, j: int)
    requires
        p == app::ordered_places(a.apps.items, a.cfg.order),
        0 <= j < p.len(),
        place == p[j],
        0 <= i < a.apps.items.len() <= usize::MAX,
        !a.shown(a.apps.items[i]),
    ensures
        !a.app_rows(place, now).contains(VisibleRow::AppHeader { items_index: i as usize, expanded: true }),
        !a.app_rows(place, now).contains(VisibleRow::AppHeader { items_index: i as usize, expanded: false }),
{
    assert(p.contains(place));
    law_every_app_has_a_place(a.apps.items, a.cfg.order, place);
    let item = a.apps.items[place];
    if a.shown(item) {
        let brs = a.branches_of(item.app_id@, now);
        lemma_branch_rows(a, item.app_id, brs, brs.len() as int, 0);
        let s = a.app_rows(place, now);
        let rest = a.branch_rows(item.app_id, brs, brs.len() as int);
        assert forall|k: int| 0 <= k < s.len() && #[trigger] s[k] is AppHeader implies s[k]->items_index == place as usize by {
            if k > 0 {
                assert(s[k] == rest[k - 1]);
            }
        }
    }
}

/// The branches of an app that is expanded have rows, and those of one that is
/// collapsed have none.
pub proof fn law_branches_of_expanded_apps_have_rows(a: AppV, now: Option<u64>, i: int, j: int)
    requires
        0 <= i < a.apps.items.len(),
        a.shown(a.apps.items[i]),
    ensures
        ({
            let x = a.apps.items[i];
            let brs = a.branches_of(x.app_id@, now);
            &&& !a.apps.expanded.contains(x.app_id@) ==> a.app_rows(i, now).len() == 1
            &&& a.apps.expanded.contains(x.app_id@) && 0 <= j < brs.len() ==> a.rows(now).contains(
                VisibleRow::Branch { app_id: x.app_id, branch_name: brs[j].branch_name },
            )
        }),
{
    let x = a.apps.items[i];
    let brs = a.branches_of(x.app_id@, now);
    if a.apps.expanded.contains(x.app_id@) && 0 <= j < brs.len() {
        let p = app::ordered_places(a.apps.items, a.cfg.order);
        let row = VisibleRow::Branch { app_id: x.app_id, branch_name: brs[j].branch_name };
        lemma_branch_rows(a, x.app_id, brs, brs.len() as int, j);
        let rest = a.branch_rows(x.app_id, brs, brs.len() as int);
        let k = choose|k: int| 0 <= k < rest.len() && rest[k] == row;
        assert(a.app_rows(i, now)[k + 1] == row);
        lemma_rows_to(a, now, p.len() as int, row);
        law_every_app_has_a_place(a.apps.items, a.cfg.order, i);
        let m = choose|m: int| 0 <= m < p.len() && p[m] == i;
        assert(a.app_rows(p[m], now).contains(row));
    }
}

/// Behind a branch that is open its newest deployments have rows, at most three of
/// them; behind one that is closed there is none.
pub proof fn law_newest_deployments_have_rows(a: AppV, app_id: String, branch_name: String, i: int)
    ensures
        ({
            let key = (app_id@, branch_name@);
            let rows = a.deployment_rows(app_id, branch_name);
            &&& !a.open.contains(key) ==> rows.len() == 0
            &&& a.open.contains(key) && a.apps.jobs.dom().contains(key) ==> {
                let js = a.apps.jobs[key]@;
                &&& rows.len() <= 3 && rows.len() <= js.len()
                &&& js.len() >= 3 ==> rows.len() == 3
                &&& js.len() < 3 ==> rows.len() == js.len()
                &&& 0 <= i < rows.len() ==> rows[i] == (VisibleRow::Deployment {
                    app_id,
                    branch_name,
                    job_id: js[i].job_id,
                })
            }
        }),
{
}

/// To expand or collapse an app changes that app alone, and its branches are asked
/// for exactly where they are needed and nobody has asked for them.
pub proof fn law_expanding_an_app(a: AppV, i: int, other: Seq<char>)
    requires
        0 <= i < a.apps.items.len(),
    ensures
        ({
            let id = a.apps.items[i].app_id@;
            let b = a.expand_toggled(i);
            let known = a.apps.branches.dom().contains(id);
            let waited = a.apps.pending_branches.contains(id);
            &&& b.apps.expanded.contains(id) != a.apps.expanded.contains(id)
            &&& other != id ==> b.apps.expanded.contains(other) == a.apps.expanded.contains(other)
            &&& b.apps.items == a.apps.items && b.apps.branches == a.apps.branches && b.apps.jobs == a.apps.jobs
            &&& a.expand_request(i) is Some <==> !a.apps.expanded.contains(id) && !known && !waited
            &&& a.expand_request(i) is Some ==> a.expand_request(i)->0 == (RequestV::Branches { app_id: id })
                && b.apps.pending_branches.contains(id)
        }),
{
}

/// To open or close a branch changes that branch alone, and its deployments are asked
/// for exactly where none are known and nobody has asked for them.
pub proof fn law_opening_a_branch(a: AppV, key: (Seq<char>, Seq<char>), other: (Seq<char>, Seq<char>))
    ensures
        ({
            let b = a.branch_toggled(key);
            let known = a.apps.jobs.dom().contains(key) && a.apps.jobs[key]@.len() > 0;
            &&& b.open.contains(key) != a.open.contains(key)
            &&& other != key ==> b.open.contains(other) == a.open.contains(other)
            &&& b.apps.expanded == a.apps.expanded && b.apps.jobs == a.apps.jobs
            &&& a.branch_request(key) is Some <==> !a.open.contains(key) && !known && !a.apps.pending_jobs.contains(key)
            &&& a.branch_request(key) is Some ==> a.branch_request(key)->0 == (RequestV::Jobs {
                app_id: key.0,
                branch_name: key.1,
            })
        }),
{
}

proof fn lemma_shown_places(a: AppV, n: int, i: int)
    requires
        0 <= n <= a.apps.items.len(),
    ensures
        actions::shown_places(a, n).contains(i) <==> 0 <= i < n && a.shown(a.apps.items[i]),
    decreases n,
{
    if n > 0 {
        lemma_shown_places(a, n - 1, i);
        let rest = actions::shown_places(a, n - 1);
        if a.shown(a.apps.items[n - 1]) {
            let s = rest.push(n - 1);
            assert(s[rest.len() as int] == n - 1);
            if rest.contains(i) {
                let k = choose|k: int| 0 <= k < rest.len() && rest[k] == i;
                assert(s[k] == i);
            }
            if s.contains(i) && i != n - 1 {
                let k = choose|k: int| 0 <= k < s.len() && s[k] == i;
                assert(rest[k] == i);
            }
        }
    }
}

proof fn lemma_expanded_to(a: AppV, places: Seq<int>, n: int, id: Seq<char>)
    requires
        0 <= n <= places.len(),
    ensures
        a.expanded_to(places, n).expanded.contains(id) <==> a.apps.expanded.contains(id) || exists|k: int|
            0 <= k < n && a.apps.items[#[trigger] places[k]].app_id@ == id,
        a.expanded_to(places, n).items == a.apps.items,
        a.expanded_to(places, n).branches == a.apps.branches,
    decreases n,
{
    if n > 0 {
        lemma_expanded_to(a, places, n - 1, id);
        if a.apps.items[places[n - 1]].app_id@ == id {
            assert(a.apps.items[places[n - 1]].app_id@ == id);
        }
    }
}

/// To expand all is to expand every app that is shown, and to collapse all is to
/// leave none expanded.
pub proof fn law_expanding_all(a: AppV, i: int, id: Seq<char>)
    requires
        0 <= i < a.apps.items.len(),
    ensures
        a.shown(a.apps.items[i]) ==> a.all_expanded().apps.expanded.contains(a.apps.items[i].app_id@),
        a.apps.expanded.contains(id) ==> a.all_expanded().apps.expanded.contains(id),
        a.all_expanded().apps.expanded.contains(id) && !a.apps.expanded.contains(id) ==> exists|k: int|
            0 <= k < a.apps.items.len() && (#[trigger] a.apps.items[k]).app_id@ == id && a.shown(a.apps.items[k]),
        !a.all_collapsed().apps.expanded.contains(id),
        a.all_collapsed().apps.items == a.apps.items,
{
    let p = actions::shown_places(a, a.apps.items.len() as int);
    let mine = a.apps.items[i].app_id@;
    lemma_shown_places(a, a.apps.items.len() as int, i);
    lemma_expanded_to(a, p, p.len() as int, mine);
    lemma_expanded_to(a, p, p.len() as int, id);
    if a.shown(a.apps.items[i]) {
        let k = choose|k: int| 0 <= k < p.len() && p[k] == i;
        assert(a.apps.items[p[k]].app_id@ == mine);
    }
    if a.all_expanded().apps.expanded.contains(id) && !a.apps.expanded.contains(id) {
        let k = choose|k: int| 0 <= k < p.len() && a.apps.items[#[trigger] p[k]].app_id@ == id;
        assert(p.contains(p[k]));
        lemma_shown_places(a, a.apps.items.len() as int, p[k]);
    }
}

/// The key that enters a row expands or collapses an app, shows the deployments of a
/// branch, and shows the logs of a deployment.
pub proof fn law_entering_a_row(a: AppV, now: Option<u64>)
    ensures
        ({
            let b = a.entered(now);
            let q = a.enter_request(now);
            match a.selected_row(now) {
                Some(VisibleRow::AppHeader { items_index, expanded }) => b == a.expand_toggled(items_index as int)
                    && b.history == a.history && b.logs == a.logs,
                Some(VisibleRow::Branch { app_id, branch_name }) => {
                    &&& b.history is Some && b.history->0.app_id == app_id@ && b.history->0.branch_name == branch_name@
                    &&& b.history->0.selected == 0
                    &&& a.apps.jobs.dom().contains((app_id@, branch_name@)) ==> b.history->0.jobs == a.apps.jobs[(
                        app_id@,
                        branch_name@,
                    )]@
                    &&& q == Some(RequestV::History { app_id: app_id@, branch_name: branch_name@ })
                    &&& b.apps == a.apps
                },
                Some(VisibleRow::Deployment { app_id, branch_name, job_id }) => {
                    &&& b.logs is Some && b.logs->0.branch_name == branch_name@ && b.logs->0.job_id == Some(job_id@)
                    &&& q == Some(
                        RequestV::Detail { app_id: app_id@, branch_name: branch_name@, job_id: job_id@ },
                    )
                    &&& b.apps == a.apps
                },
                None => q is None && b.apps == a.apps && b.status == "nothing under cursor"@,
            }
        }),
{
}

/// The key to the right only expands and the key to the left only collapses; from a
/// row that has nothing to collapse it goes back to the row above it.
pub proof fn law_right_expands_and_left_collapses(a: AppV, now: Option<u64>, id: Seq<char>)
    ensures
        a.apps.expanded.contains(id) && a.selected_row(now) is Some && (a.selected_row(now)->0 is AppHeader ==> (
        a.selected_row(now)->0->expanded <==> a.apps.expanded.contains(
            a.apps.items[a.selected_row(now)->0->items_index as int].app_id@,
        ))) ==> a.focus_expanded(now).apps.expanded.contains(id),
        !a.apps.expanded.contains(id) && a.selected_row(now) is Some && (a.selected_row(now)->0 is AppHeader ==> (
        a.selected_row(now)->0->expanded <==> a.apps.expanded.contains(
            a.apps.items[a.selected_row(now)->0->items_index as int].app_id@,
        ))) ==> !a.focus_collapsed(now).apps.expanded.contains(id),
        a.selected_row(now) is None ==> a.focus_expanded(now) == a && a.focus_collapsed(now) == a,
{
}

proof fn lemma_last_header(rows: Seq<VisibleRow>, items: Seq<AmplifyApp>, id: Seq<char>, n: int, default: int)
    requires
        0 <= n <= rows.len(),
    ensures
        ({
            let r = actions::last_header(rows, items, id, n, default);
            ||| 0 <= r < n && actions::is_header_of(rows[r], items, id)
            ||| r == default && forall|k: int| 0 <= k < n ==> !actions::is_header_of(#[trigger] rows[k], items, id)
        }),
    decreases n,
{
    if n > 0 && !actions::is_header_of(rows[n - 1], items, id) {
        lemma_last_header(rows, items, id, n - 1, default);
    }
}

/// From a branch that is closed the key to the left goes to the row of its app.
pub proof fn law_left_goes_to_the_app(a: AppV, now: Option<u64>, k: int)
    requires
        a.selected_row(now) matches Some(VisibleRow::Branch { app_id, branch_name }) && !a.open.contains(
            (app_id@, branch_name@),
        ) && 0 <= k < a.apps.selected && actions::is_header_of(a.rows(now)[k], a.apps.items, app_id@),
    ensures
        ({
            let r = a.focus_collapsed(now).apps.selected;
            0 <= r < a.apps.selected && actions::is_header_of(
                a.rows(now)[r],
                a.apps.items,
                a.selected_row(now)->0->Branch_app_id@,
            )
        }),
{
    let id = a.selected_row(now)->0->Branch_app_id@;
    lemma_last_header(a.rows(now), a.apps.items, id, a.apps.selected, a.apps.selected);
}

/// The page of a row in the console: that of its app, or of its branch, in the region
/// of the tab.
pub proof fn law_page_of_a_row(a: AppV, now: Option<u64>, r: Seq<char>)
    requires
        a.spec@.region == Some(r),
    ensures
        ({
            let head = "https://"@ + r + ".console.aws.amazon.com/amplify/apps/"@;
            match a.selected_row(now) {
                Some(VisibleRow::AppHeader { items_index, expanded }) => a.focused_url(now) == Some(
                    head + a.apps.items[items_index as int].app_id@,
                ),
                Some(VisibleRow::Branch { app_id, branch_name }) => a.focused_url(now) == Some(
                    head + app_id@ + "/branches/"@ + branch_name@,
                ),
                Some(VisibleRow::Deployment { app_id, branch_name, job_id }) => a.focused_url(now) == Some(
                    head + app_id@ + "/branches/"@ + branch_name@,
                ),
                None => a.focused_url(now) is None,
            }
        }),
{
}

/// The logs of a branch that was deployed are followed in the group that Amplify
/// writes for the app and the branch; without a deployment there is nothing to
/// follow.
pub proof fn law_logs_of_a_branch(a: AppV, app_id: Seq<char>, branch: Seq<char>)
    ensures
        ({
            let l = a.branch_logs(app_id, branch);
            let group = "/aws/amplify/"@ + app_id + "/"@ + branch;
            let known = a.apps.jobs.dom().contains((app_id, branch)) && a.apps.jobs[(app_id, branch)]@.len() > 0;
            &&& l is Ok <==> known
            &&& known ==> l->Ok_0.program == "mnml-aws-cloudwatch-logs"@ && l->Ok_0.args[0] == "--log-group"@
                && l->Ok_0.args[1] == group && l->Ok_0.args[2] == "--log-group-name"@ && l->Ok_0.args[3] == branch
        }),
{
}

/// The hidden apps are shown or not shown in turn, and unhiding all leaves none
/// hidden.
pub proof fn law_hidden_apps(a: AppV)
    ensures
        a.show_toggled().apps.show_hidden == !a.apps.show_hidden,
        a.show_toggled().cfg == a.cfg,
        a.unhidden().cfg.hidden.len() == 0,
        a.cfg.hidden.len() > 0 ==> !a.unhidden().apps.show_hidden,
        a.unhide_saving() is Some <==> a.cfg.hidden.len() > 0,
{
}

/// The cursor among the deployments of a branch moves by rows and stops at the ends;
/// the deployment it is on is the one whose logs are shown.
pub proof fn law_among_the_deployments(a: AppV, delta: int)
    requires
        a.history is Some,
        a.history->0.jobs.len() > 0,
        0 <= a.history->0.selected < a.history->0.jobs.len(),
    ensures
        ({
            let h = a.history->0;
            let m = a.history_moved(delta).history->0;
            &&& 0 <= h.selected + delta < h.jobs.len() ==> m.selected == h.selected + delta
            &&& h.selected + delta < 0 ==> m.selected == 0
            &&& h.selected + delta >= h.jobs.len() ==> m.selected == h.jobs.len() - 1
            &&& m.jobs == h.jobs
            &&& a.history_entered().logs is Some
            &&& a.history_entered().logs->0.job_id == Some(h.jobs[h.selected].job_id@)
            &&& a.history_entered().logs->0.branch_name == h.branch_name
            &&& a.history_request() == Some(
                RequestV::Detail {
                    app_id: h.app_id,
                    branch_name: h.branch_name,
                    job_id: h.jobs[h.selected].job_id@,
                },
            )
        }),
{
}

/// Scrolling down and up again ends where it began.
pub proof fn law_scrolling_logs(a: AppV, delta: int)
    requires
        a.logs is Some,
        0 <= a.logs->0.scroll,
        0 <= delta,
        a.logs->0.scroll + delta <= u16::MAX,
    ensures
        a.logs_scrolled(delta).logs->0.scroll == a.logs->0.scroll + delta,
        a.logs_scrolled(delta).logs_scrolled(-delta).logs->0.scroll == a.logs->0.scroll,
        a.logs->0.scroll < delta ==> a.logs_scrolled(-delta).logs->0.scroll == 0,
{
}

proof fn lemma_visible_ids(items: Seq<AmplifyApp>, hidden: Seq<String>, n: int, id: Seq<char>)
    requires
        0 <= n <= items.len(),
    ensures
        drain::visible_ids(items, hidden, n).contains(id) <==> !text::among(hidden, id) && exists|i: int|
            0 <= i < n && (#[trigger] items[i]).app_id@ == id,
    decreases n,
{
    if n > 0 {
        lemma_visible_ids(items, hidden, n - 1, id);
        let rest = drain::visible_ids(items, hidden, n - 1);
        let last = items[n - 1].app_id@;
        if !text::among(hidden, last) {
            let s = rest.push(last);
            assert(s[rest.len() as int] == last);
            if rest.contains(id) {
                let k = choose|k: int| 0 <= k < rest.len() && rest[k] == id;
                assert(s[k] == id);
            }
            if s.contains(id) && id != last {
                let k = choose|k: int| 0 <= k < s.len() && s[k] == id;
                assert(rest[k] == id);
            }
        }
        if exists|i: int| 0 <= i < n && (#[trigger] items[i]).app_id@ == id {
            let i = choose|i: int| 0 <= i < n && (#[trigger] items[i]).app_id@ == id;
            if i < n - 1 {
                assert(items[i].app_id@ == id);
            }
        }
    }
}

proof fn lemma_with_ids(s: Set<Seq<char>>, ids: Seq<Seq<char>>, id: Seq<char>)
    ensures
        drain::with_ids(s, ids).contains(id) <==> s.contains(id) || ids.contains(id),
    decreases ids.len(),
{
    if ids.len() > 0 {
        let t = ids.drop_last();
        lemma_with_ids(s, t, id);
        assert(ids[ids.len() - 1] == ids.last());
        if t.contains(id) {
            let k = choose|k: int| 0 <= k < t.len() && t[k] == id;
            assert(ids[k] == id);
        }
        if ids.contains(id) && id != ids.last() {
            let k = choose|k: int| 0 <= k < ids.len() && ids[k] == id;
            assert(t[k] == id);
        }
    }
}

/// The apps that were asked for are listed, and the first time those that are not
/// hidden are expanded and their branches asked for. An error keeps the list.
pub proof fn law_apps_arrive(a: AppV, items: Vec<AmplifyApp>, e: String, now: u64, i: int)
    requires
        a.apps.pending,
    ensures
        ({
            let s = a.on_apps(Recv::Got(AmplifyEvent::Apps(items)), now);
            let f = a.on_apps(Recv::Got(AmplifyEvent::Failed(e)), now);
            &&& s.app.apps.items == items@
            &&& s.app.apps.last_error is None && !s.app.apps.loading && !s.app.apps.pending
            &&& s.app.apps.last_fetched == Some(now)
            &&& s.changed && f.changed
            &&& a.apps.items.len() > 0 ==> s.requests.len() == 0 && s.app.apps.expanded == a.apps.expanded
            &&& a.apps.items.len() == 0 && 0 <= i < items@.len() && !text::among(a.cfg.hidden, items@[i].app_id@) ==> {
                &&& s.app.apps.expanded.contains(items@[i].app_id@)
                &&& s.app.apps.pending_branches.contains(items@[i].app_id@)
                &&& s.requests.contains(RequestV::Branches { app_id: items@[i].app_id@ })
            }
            &&& a.apps.items.len() == 0 && 0 <= i < items@.len() && text::among(a.cfg.hidden, items@[i].app_id@)
                && !a.apps.expanded.contains(items@[i].app_id@) ==> !s.app.apps.expanded.contains(items@[i].app_id@)
            &&& f.app.apps.last_error == Some(e@) && f.app.apps.items == a.apps.items && !f.app.apps.loading
            &&& f.app.status == "error: "@ + e@
        }),
{
    let s = a.on_apps(Recv::Got(AmplifyEvent::Apps(items)), now);
    let ids = drain::visible_ids(items@, a.cfg.hidden, items@.len() as int);
    if a.apps.items.len() == 0 && 0 <= i < items@.len() {
        let id = items@[i].app_id@;
        lemma_visible_ids(items@, a.cfg.hidden, items@.len() as int, id);
        lemma_with_ids(a.apps.expanded, ids, id);
        lemma_with_ids(a.apps.pending_branches, ids, id);
        if !text::among(a.cfg.hidden, id) {
            let k = choose|k: int| 0 <= k < ids.len() && ids[k] == id;
            assert(s.requests[k] == (RequestV::Branches { app_id: id }));
        }
    }
}

/// The branches of an app that were asked for are kept, and the deployments of each
/// are asked for.
pub proof fn law_branches_arrive(a: AppsV, id: String, brs: Vec<AmplifyBranch>, i: int)
    requires
        a.pending_branches.contains(id@),
    ensures
        ({
            let r = drain::branches_arrived(
                a,
                seq![(id, Recv::Got(AmplifyEvent::Branches(brs)))],
                Seq::empty(),
                1,
            );
            &&& r.changed
            &&& r.apps.branches.dom().contains(id@) && r.apps.branches[id@] == brs
            &&& !r.apps.pending_branches.contains(id@)
            &&& r.fanout.len() == brs@.len()
            &&& 0 <= i < brs@.len() ==> r.fanout[i] == (id@, brs@[i].branch_name@)
        }),
{
    reveal_with_fuel(drain::branches_arrived, 2);
}

/// Deployments that arrive replace those that were known, without an error; an empty
/// list replaces nothing, and an error is kept only where nothing is known.
pub proof fn law_jobs_arrive(a: AppsV, key: (Seq<char>, Seq<char>), jobs: Vec<AmplifyJob>, e: String)
    ensures
        ({
            let b = drain::with_jobs(a, key, jobs);
            let c = drain::with_error(a, key, e);
            let known = a.jobs.dom().contains(key) && a.jobs[key]@.len() > 0;
            &&& jobs@.len() > 0 ==> b.jobs.dom().contains(key) && b.jobs[key] == jobs
            &&& jobs@.len() == 0 && known ==> b.jobs[key] == a.jobs[key]
            &&& !b.job_errors.dom().contains(key)
            &&& known ==> c == a
            &&& !known ==> c.job_errors.dom().contains(key) && c.job_errors[key] == e && c.jobs == a.jobs
        }),
{
}

/// The deployments of a branch that were asked for are shown; an error is told.
pub proof fn law_history_arrives(h: HistoryV, branch_name: String, jobs: Vec<AmplifyJob>, e: String)
    requires
        h.pending,
    ensures
        ({
            let r = drain::history_arrived(h, Recv::Got(AmplifyEvent::Jobs { branch_name, jobs })).0;
            let f = drain::history_arrived(h, Recv::Got(AmplifyEvent::Failed(e))).0;
            &&& r.jobs == jobs@ && !r.loading && !r.pending
            &&& 0 <= h.selected < jobs@.len() ==> r.selected == h.selected
            &&& f.error == Some(e@) && !f.loading && f.jobs == h.jobs
        }),
{
}

/// The log of a step is put where the step stands, and the logs of the other steps
/// stay.
pub proof fn law_log_of_a_step(steps: Seq<(Seq<char>, Seq<char>)>, name: Seq<char>, log: Seq<char>, i: int)
    ensures
        ({
            let s = drain::with_log(steps, name, log);
            &&& exists|k: int| 0 <= k < s.len() && #[trigger] s[k] == (name, log)
            &&& 0 <= i < steps.len() && steps[i].0 != name ==> i < s.len() && s[i] == steps[i]
        }),
{
    lemma_step_place(steps, name);
    let s = drain::with_log(steps, name, log);
    match drain::step_place(steps, name) {
        Some(k) => {
            assert(s[k] == (name, log));
        },
        None => {
            assert(s[steps.len() as int] == (name, log));
        },
    }
}

proof fn lemma_step_place(steps: Seq<(Seq<char>, Seq<char>)>, name: Seq<char>)
    ensures
        drain::step_place(steps, name) matches Some(k) ==> 0 <= k < steps.len() && steps[k].0 == name,
    decreases steps.len(),
{
    if steps.len() > 0 && steps[0].0 != name {
        lemma_step_place(steps.drop_first(), name);
    }
}

/// A tab for all apps has the region of its own or of the settings; a tab for one app
/// names that app; no other kind is known.
pub proof fn law_tabs_of_the_settings(t: Tab, region: Option<Seq<char>>)
    ensures
        t.kind@ == "apps"@ ==> app::resolved(t, region) is Ok && app::resolved(t, region)->Ok_0.kind == TabKind::Apps
            && app::resolved(t, region)->Ok_0.app_id is None,
        t.kind@ == "app"@ && t.app_id is Some ==> app::resolved(t, region) is Ok && app::resolved(t, region)->Ok_0.kind
            == TabKind::App && app::resolved(t, region)->Ok_0.app_id == Some(t.app_id->0@),
        t.kind@ == "app"@ && t.app_id is None ==> app::resolved(t, region) == Err::<app::SpecV, Seq<char>>(
            "`app_id` required for kind `app`"@,
        ),
        t.kind@ != "apps"@ && t.kind@ != "app"@ ==> app::resolved(t, region) == Err::<app::SpecV, Seq<char>>(
            "unknown tab kind: "@ + t.kind@,
        ),
        app::resolved(t, region) is Ok ==> app::resolved(t, region)->Ok_0.region == (if t.region is Some {
            Some(t.region->0@)
        } else {
            region
        }),
        config::tab_error(t, 0) is None <==> t.kind@ == "apps"@ || t.kind@ == "app"@ && t.app_id is Some && text::trimmed(
            t.app_id->0@,
        ).len() > 0,
{
    reveal_strlit("apps");
    reveal_strlit("app");
    reveal_strlit("");
    assert("apps"@.len() == 4 && "app"@.len() == 3);
}

/// What went wrong is told in short: that there were too many requests, that access
/// is denied, that nothing was found, or the beginning of the error.
pub proof fn law_errors_in_short(e: Seq<char>)
    ensures
        ({
            let r = amplify::short_reason(e);
            let busy = text::has_part(e, "Throttling"@) || text::has_part(e, "TooManyRequests"@) || text::has_part(
                e,
                "Rate exceeded"@,
            );
            let denied = text::has_part(e, "AccessDenied"@) || text::has_part(e, "not authorized"@);
            &&& busy ==> r == "throttled"@
            &&& !busy && denied ==> r == "no access"@
            &&& !busy && !denied && text::has_part(e, "NotFound"@) ==> r == "not found"@
            &&& !busy && !denied && !text::has_part(e, "NotFound"@) ==> text::has_prefix(r, "err: "@)
        }),
{
    let rest = text::first_chars(amplify::first_line(e), 40);
    text::law_part_of_a_text("err: "@, rest, rest);
}

} // verus!
