//! What holds of the apps browser as a whole.

use vstd::prelude::*;

use crate::amplify::actions;
use crate::amplify::amplify::{AmplifyApp, AmplifyBranch, AmplifyJob};
use crate::amplify::app;
use crate::amplify::app::{AppV, AppsV, VisibleRow};
use crate::amplify::branches;
use crate::amplify::drain;
use crate::amplify::drain::Recv;
use crate::order;
use crate::text;

verus! {

proof fn lemma_of_kind(s: Seq<AmplifyBranch>, k: int, b: AmplifyBranch)
    ensures
        branches::of_kind(s, k).contains(b) <==> s.contains(b) && branches::kind_of(b) == k,
    decreases s.len(),
{
    if s.len() > 0 {
        let t = s.drop_last();
        lemma_of_kind(t, k, b);
        assert(s =~= t.push(s.last()));
        assert(s.contains(b) <==> t.contains(b) || b == s.last()) by {
            if t.contains(b) {
                let i = choose|i: int| 0 <= i < t.len() && t[i] == b;
                assert(s[i] == b);
            }
            if b == s.last() {
                assert(s[s.len() - 1] == b);
            }
            if s.contains(b) && b != s.last() {
                let i = choose|i: int| 0 <= i < s.len() && s[i] == b;
                assert(t[i] == b);
            }
        }
        let rest = branches::of_kind(t, k);
        lemma_push_contains(rest, s.last(), b);
    }
}

proof fn lemma_push_contains<T>(s: Seq<T>, x: T, b: T)
    ensures
        s.push(x).contains(b) <==> s.contains(b) || x == b,
{
    if s.contains(b) {
        let i = choose|i: int| 0 <= i < s.len() && s[i] == b;
        assert(s.push(x)[i] == b);
    }
    if x == b {
        assert(s.push(x)[s.len() as int] == b);
    }
    if s.push(x).contains(b) && x != b {
        let i = choose|i: int| 0 <= i < s.push(x).len() && s.push(x)[i] == b;
        assert(s[i] == b);
    }
}

proof fn lemma_put_contains<T>(s: Seq<T>, x: T, less: spec_fn(T, T) -> bool, b: T)
    ensures
        order::put(s, x, less).contains(b) <==> s.contains(b) || x == b,
    decreases s.len(),
{
    if s.len() == 0 || !less(x, s.last()) {
        lemma_push_contains(s, x, b);
    } else {
        let t = s.drop_last();
        lemma_put_contains(t, x, less, b);
        lemma_push_contains(order::put(t, x, less), s.last(), b);
        lemma_push_contains(t, s.last(), b);
        assert(s =~= t.push(s.last()));
    }
}

proof fn lemma_sorted_contains<T>(s: Seq<T>, less: spec_fn(T, T) -> bool, b: T)
    ensures
        order::sorted(s, less).contains(b) <==> s.contains(b),
    decreases s.len(),
{
    if s.len() > 0 {
        let t = s.drop_last();
        lemma_sorted_contains(t, less, b);
        lemma_put_contains(order::sorted(t, less), s.last(), less, b);
        lemma_push_contains(t, s.last(), b);
        assert(s =~= t.push(s.last()));
    }
}

proof fn lemma_first_fresh(s: Seq<AmplifyBranch>, jobs: branches::Jobs, app_id: Seq<char>, now: Option<u64>)
    ensures
        branches::first_fresh(s, jobs, app_id, now).len() <= 1,
        forall|i: int|
            0 <= i < branches::first_fresh(s, jobs, app_id, now).len() ==> {
                let b = #[trigger] branches::first_fresh(s, jobs, app_id, now)[i];
                s.contains(b) && !branches::stale(jobs, app_id, b, now)
            },
    decreases s.len(),
{
    if s.len() > 0 {
        if branches::stale(jobs, app_id, s[0], now) {
            let t = s.drop_first();
            lemma_first_fresh(t, jobs, app_id, now);
            let f = branches::first_fresh(t, jobs, app_id, now);
            assert forall|i: int| 0 <= i < f.len() implies s.contains(#[trigger] f[i]) by {
                let k = choose|k: int| 0 <= k < t.len() && t[k] == f[i];
                assert(s[k + 1] == f[i]);
            }
        } else {
            assert(s.contains(s[0]));
        }
    }
}

/// Every branch for a stage is shown.
pub proof fn law_stages_are_shown(
    all: Seq<AmplifyBranch>,
    jobs: branches::Jobs,
    app_id: Seq<char>,
    now: Option<u64>,
    b: AmplifyBranch,
)
    requires
        all.contains(b),
        branches::essential(b.branch_name@),
    ensures
        branches::shown_branches(all, jobs, app_id, now).contains(b),
{
    let kept = branches::of_kind(all, 0);
    lemma_of_kind(all, 0, b);
    let less = |x: AmplifyBranch, y: AmplifyBranch|
        branches::primary_key(x.branch_name@) < branches::primary_key(y.branch_name@);
    lemma_sorted_contains(kept, less, b);
    assert(branches::by_stage(kept) == order::sorted(kept, less));
    let s = branches::by_stage(kept);
    let i = choose|i: int| 0 <= i < s.len() && s[i] == b;
    assert(branches::shown_branches(all, jobs, app_id, now)[i] == b);
}

/// What is shown is one of the branches; of those that are for no stage it is not
/// stale, and there is at most one release and at most one other.
pub proof fn law_few_other_branches_are_shown(
    all: Seq<AmplifyBranch>,
    jobs: branches::Jobs,
    app_id: Seq<char>,
    now: Option<u64>,
)
    ensures
        ({
            let s = branches::shown_branches(all, jobs, app_id, now);
            &&& forall|i: int| 0 <= i < s.len() ==> all.contains(#[trigger] s[i])
            &&& forall|i: int|
                0 <= i < s.len() && branches::kind_of(#[trigger] s[i]) != 0 ==> !branches::stale(
                    jobs,
                    app_id,
                    s[i],
                    now,
                )
            &&& forall|i: int, j: int|
                0 <= i < j < s.len() && branches::kind_of(#[trigger] s[i]) == branches::kind_of(
                    #[trigger] s[j],
                ) ==> branches::kind_of(s[i]) == 0
        }),
{
    let p = branches::by_stage(branches::of_kind(all, 0));
    let less = |x: AmplifyBranch, y: AmplifyBranch|
        branches::primary_key(x.branch_name@) < branches::primary_key(y.branch_name@);
    let later = |x: AmplifyBranch, y: AmplifyBranch| branches::more_recent(jobs, app_id, x, y);
    let r1 = branches::by_deploy(branches::of_kind(all, 1), jobs, app_id);
    let r2 = branches::by_deploy(branches::of_kind(all, 2), jobs, app_id);
    let f1 = branches::first_fresh(r1, jobs, app_id, now);
    let f2 = branches::first_fresh(r2, jobs, app_id, now);
    let s = branches::shown_branches(all, jobs, app_id, now);
    lemma_first_fresh(r1, jobs, app_id, now);
    lemma_first_fresh(r2, jobs, app_id, now);
    assert(p == order::sorted(branches::of_kind(all, 0), less));
    assert(r1 == order::sorted(branches::of_kind(all, 1), later));
    assert(r2 == order::sorted(branches::of_kind(all, 2), later));
    assert forall|i: int| 0 <= i < p.len() implies all.contains(#[trigger] p[i]) && branches::kind_of(p[i])
        == 0 by {
        assert(p.contains(p[i]));
        lemma_sorted_contains(branches::of_kind(all, 0), less, p[i]);
        lemma_of_kind(all, 0, p[i]);
    }
    if f1.len() > 0 {
        lemma_sorted_contains(branches::of_kind(all, 1), later, f1[0]);
        lemma_of_kind(all, 1, f1[0]);
    }
    if f2.len() > 0 {
        lemma_sorted_contains(branches::of_kind(all, 2), later, f2[0]);
        lemma_of_kind(all, 2, f2[0]);
    }
    assert(s =~= p + f1 + f2);
    assert forall|i: int| 0 <= i < s.len() implies s[i] == (if i < p.len() {
        p[i]
    } else if i < p.len() + f1.len() {
        f1[0]
    } else {
        f2[0]
    }) by {}
}

proof fn lemma_jobs_kept(
    a: AppsV,
    s: Seq<((Seq<char>, Seq<char>), Vec<AmplifyJob>)>,
    key: (Seq<char>, Seq<char>),
)
    requires
        drain::has_jobs(a, key),
    ensures
        drain::has_jobs(drain::with_all_jobs(a, s), key),
    decreases s.len(),
{
    if s.len() > 0 {
        lemma_jobs_kept(a, s.drop_last(), key);
    }
}

proof fn lemma_errors_keep_jobs(a: AppsV, s: Seq<((Seq<char>, Seq<char>), String)>)
    ensures
        drain::with_all_errors(a, s).jobs == a.jobs,
    decreases s.len(),
{
    if s.len() > 0 {
        lemma_errors_keep_jobs(a, s.drop_last());
    }
}

/// Deployments that are known stay known: whatever is replied, an empty list or
/// an error included, a branch that had deployments has some afterwards.
pub proof fn law_known_jobs_stay(a: AppsV, r: Seq<Recv>, key: (Seq<char>, Seq<char>))
    requires
        drain::has_jobs(a, key),
    ensures
        drain::has_jobs(drain::jobs_arrived(a, r).0, key),
{
    let n = a.pending_jobs.len() as int;
    let b = AppsV { pending_jobs: drain::jobs_kept(a.pending_jobs, r, n), ..a };
    let jobs = drain::jobs_brought(a.pending_jobs, r, n);
    lemma_jobs_kept(b, jobs, key);
    lemma_errors_keep_jobs(drain::with_all_jobs(b, jobs), drain::errors_brought(a.pending_jobs, r, n));
}

/// No error is kept for a branch of which deployments are known.
pub open spec fn errors_without_jobs(a: AppsV) -> bool {
    forall|key: (Seq<char>, Seq<char>)| #[trigger]
        a.job_errors.dom().contains(key) ==> !drain::has_jobs(a, key)
}

proof fn lemma_jobs_without_errors(a: AppsV, s: Seq<((Seq<char>, Seq<char>), Vec<AmplifyJob>)>)
    requires
        errors_without_jobs(a),
    ensures
        errors_without_jobs(drain::with_all_jobs(a, s)),
    decreases s.len(),
{
    if s.len() > 0 {
        lemma_jobs_without_errors(a, s.drop_last());
        let b = drain::with_all_jobs(a, s.drop_last());
        let c = drain::with_jobs(b, s.last().0, s.last().1);
        assert forall|key: (Seq<char>, Seq<char>)| #[trigger]
            c.job_errors.dom().contains(key) implies !drain::has_jobs(c, key) by {
            assert(b.job_errors.dom().contains(key) && key != s.last().0);
        }
    }
}

proof fn lemma_errors_without_jobs(a: AppsV, s: Seq<((Seq<char>, Seq<char>), String)>)
    requires
        errors_without_jobs(a),
    ensures
        errors_without_jobs(drain::with_all_errors(a, s)),
    decreases s.len(),
{
    if s.len() > 0 {
        lemma_errors_without_jobs(a, s.drop_last());
        let b = drain::with_all_errors(a, s.drop_last());
        let c = drain::with_error(b, s.last().0, s.last().1);
        assert forall|key: (Seq<char>, Seq<char>)| #[trigger]
            c.job_errors.dom().contains(key) implies !drain::has_jobs(c, key) by {
            if key != s.last().0 {
                assert(b.job_errors.dom().contains(key));
            } else if b.job_errors.dom().contains(key) {
                assert(!drain::has_jobs(b, key));
            }
        }
    }
}

/// An error is shown only for a branch of which no deployments are known, and
/// the replies about jobs keep it so.
pub proof fn law_no_error_over_known_jobs(a: AppsV, r: Seq<Recv>)
    requires
        errors_without_jobs(a),
    ensures
        errors_without_jobs(drain::jobs_arrived(a, r).0),
{
    let n = a.pending_jobs.len() as int;
    let b = AppsV { pending_jobs: drain::jobs_kept(a.pending_jobs, r, n), ..a };
    assert(errors_without_jobs(b)) by {
        assert forall|key: (Seq<char>, Seq<char>)| #[trigger]
            b.job_errors.dom().contains(key) implies !drain::has_jobs(b, key) by {
            assert(a.job_errors.dom().contains(key));
            assert(!drain::has_jobs(a, key));
        }
    }
    let jobs = drain::jobs_brought(a.pending_jobs, r, n);
    lemma_jobs_without_errors(b, jobs);
    lemma_errors_without_jobs(
        drain::with_all_jobs(b, jobs),
        drain::errors_brought(a.pending_jobs, r, n),
    );
}

proof fn lemma_idle_branches(
    app_id: Seq<char>,
    brs: Seq<AmplifyBranch>,
    n: int,
    busy: Seq<(Seq<char>, Seq<char>)>,
)
    ensures
        forall|i: int|
            0 <= i < actions::idle_branches(app_id, brs, n, busy).len() ==> !busy.contains(
                #[trigger] actions::idle_branches(app_id, brs, n, busy)[i],
            ),
    decreases n,
{
    if n > 0 {
        lemma_idle_branches(app_id, brs, n - 1, busy);
        let rest = actions::idle_branches(app_id, brs, n - 1, busy);
        let all = actions::idle_branches(app_id, brs, n, busy);
        assert forall|i: int| 0 <= i < all.len() implies !busy.contains(#[trigger] all[i]) by {
            if i < rest.len() {
                assert(all[i] == rest[i]);
            }
        }
    }
}

/// Asking anew asks for no jobs that are on their way already.
pub proof fn law_refresh_asks_nothing_twice(
    e: Seq<(String, Vec<AmplifyBranch>)>,
    busy: Seq<(Seq<char>, Seq<char>)>,
)
    ensures
        forall|i: int|
            0 <= i < actions::idle_pairs(e, busy).len() ==> !busy.contains(
                #[trigger] actions::idle_pairs(e, busy)[i],
            ),
    decreases e.len(),
{
    if e.len() > 0 {
        law_refresh_asks_nothing_twice(e.drop_last(), busy);
        lemma_idle_branches(e.last().0@, e.last().1@, e.last().1@.len() as int, busy);
        let rest = actions::idle_pairs(e.drop_last(), busy);
        let more = actions::idle_branches(e.last().0@, e.last().1@, e.last().1@.len() as int, busy);
        let all = actions::idle_pairs(e, busy);
        assert forall|i: int| 0 <= i < all.len() implies !busy.contains(#[trigger] all[i]) by {
            if i < rest.len() {
                assert(all[i] == rest[i]);
            } else {
                assert(all[i] == more[i - rest.len()]);
            }
        }
    }
}

/// Showing the branches of an app and hiding them again, or the other way
/// round, leaves the same apps shown with their branches.
pub proof fn law_toggle_app_twice(a: AppV, i: int)
    requires
        0 <= i < a.apps.items.len(),
    ensures
        a.expand_toggled(i).expand_toggled(i).apps.expanded == a.apps.expanded,
        a.expand_toggled(i).expand_toggled(i).apps.items == a.apps.items,
{
    let id = a.apps.items[i].app_id@;
    if a.apps.expanded.contains(id) {
        assert(a.apps.expanded.remove(id).insert(id) =~= a.apps.expanded);
    } else {
        assert(a.apps.expanded.insert(id).remove(id) =~= a.apps.expanded);
    }
}

/// The same of a branch and its deployments.
pub proof fn law_toggle_branch_twice(a: AppV, key: (Seq<char>, Seq<char>))
    ensures
        a.branch_toggled(key).branch_toggled(key).open == a.open,
{
    if a.open.contains(key) {
        assert(a.open.remove(key).insert(key) =~= a.open);
    } else {
        assert(a.open.insert(key).remove(key) =~= a.open);
    }
}

/// Showing hidden apps and ceasing to show them leaves them as they were.
pub proof fn law_toggle_hidden_twice(a: AppV)
    ensures
        a.show_toggled().show_toggled().apps.show_hidden == a.apps.show_hidden,
        a.show_toggled().show_toggled().cfg == a.cfg,
{
}

proof fn lemma_without_absent(s: Seq<String>, x: Seq<char>)
    requires
        !text::among(s, x),
    ensures
        actions::without(s, x) == s,
    decreases s.len(),
{
    if s.len() > 0 {
        let t = s.drop_last();
        assert(s.last()@ != x) by {
            assert(s[s.len() - 1]@ != x);
        }
        assert(!text::among(t, x)) by {
            if text::among(t, x) {
                let i = choose|i: int| 0 <= i < t.len() && (#[trigger] t[i])@ == x;
                assert(s[i]@ == x);
            }
        }
        lemma_without_absent(t, x);
        assert(t.push(s.last()) =~= s);
    }
}

/// An app that is hidden and shown again is no longer hidden, and nothing else
/// has changed in what is hidden.
pub proof fn law_hide_then_unhide(hidden: Seq<String>, id: String)
    requires
        !text::among(hidden, id@),
    ensures
        actions::without(hidden.push(id), id@) == hidden,
{
    assert(hidden.push(id).drop_last() =~= hidden);
    lemma_without_absent(hidden, id@);
}

proof fn lemma_among_push(s: Seq<String>, y: String, x: Seq<char>)
    ensures
        text::among(s.push(y), x) == (text::among(s, x) || y@ == x),
{
    let t = s.push(y);
    if text::among(s, x) {
        let i = choose|i: int| 0 <= i < s.len() && (#[trigger] s[i])@ == x;
        assert(t[i]@ == x);
    }
    if y@ == x {
        assert(t[s.len() as int]@ == x);
    }
    if text::among(t, x) {
        let i = choose|i: int| 0 <= i < t.len() && (#[trigger] t[i])@ == x;
        if i < s.len() {
            assert(s[i]@ == x);
        }
    }
}

proof fn lemma_without(s: Seq<String>, y: Seq<char>, x: Seq<char>)
    ensures
        text::among(actions::without(s, y), x) == (text::among(s, x) && x != y),
    decreases s.len(),
{
    if s.len() > 0 {
        let t = s.drop_last();
        lemma_without(t, y, x);
        assert(t.push(s.last()) =~= s);
        lemma_among_push(t, s.last(), x);
        lemma_among_push(actions::without(t, y), s.last(), x);
    }
}

proof fn lemma_branch_rows_at(a: AppV, i: int, app_id: String, brs: Seq<AmplifyBranch>, n: int)
    ensures
        a.at_row(i).branch_rows(app_id, brs, n) == a.branch_rows(app_id, brs, n),
    decreases n,
{
    if n > 0 {
        lemma_branch_rows_at(a, i, app_id, brs, n - 1);
        assert(a.at_row(i).deployment_rows(app_id, brs[n - 1].branch_name) =~= a.deployment_rows(
            app_id,
            brs[n - 1].branch_name,
        ));
    }
}

proof fn lemma_rows_to_at(a: AppV, i: int, n: int, now: Option<u64>)
    ensures
        a.at_row(i).rows_to(n, now) == a.rows_to(n, now),
    decreases n,
{
    if n > 0 {
        lemma_rows_to_at(a, i, n - 1, now);
        let k = app::ordered_places(a.apps.items, a.cfg.order)[n - 1];
        let app = a.apps.items[k];
        let brs = a.branches_of(app.app_id@, now);
        lemma_branch_rows_at(a, i, app.app_id, brs, brs.len() as int);
        assert(a.at_row(i).app_rows(k, now) == a.app_rows(k, now));
    }
}

/// Which row is selected makes no difference to the rows.
pub(crate) proof fn lemma_rows_at(a: AppV, i: int, now: Option<u64>)
    ensures
        a.at_row(i).rows(now) == a.rows(now),
{
    lemma_rows_to_at(a, i, app::ordered_places(a.apps.items, a.cfg.order).len() as int, now);
}

/// To hide concerns the app whose header is selected, whatever stands above it
/// and in whatever order the apps are shown: it is hidden afterwards if and only
/// if it was not before, every other app stays as it was, and the selection is
/// on one of the rows that are left.
pub proof fn law_selected_app_is_hidden(
    a: AppV,
    items_index: usize,
    expanded: bool,
    other: Seq<char>,
    now: Option<u64>,
)
    requires
        a.selected_row(now) == Some(VisibleRow::AppHeader { items_index, expanded }),
    ensures
        ({
            let id = a.apps.items[items_index as int].app_id@;
            let b = a.hide_toggled(now);
            &&& text::among(b.cfg.hidden, id) == !text::among(a.cfg.hidden, id)
            &&& other != id ==> text::among(b.cfg.hidden, other) == text::among(a.cfg.hidden, other)
            &&& b.apps.selected < b.rows(now).len() || (b.apps.selected == 0 && b.rows(now).len() == 0)
        }),
{
    let app = a.apps.items[items_index as int];
    let id = app.app_id@;
    lemma_without(a.cfg.hidden, id, id);
    lemma_without(a.cfg.hidden, id, other);
    lemma_among_push(a.cfg.hidden, app.app_id, id);
    lemma_among_push(a.cfg.hidden, app.app_id, other);
    let c = if text::among(a.cfg.hidden, id) {
        a.with_hidden(actions::without(a.cfg.hidden, id))
    } else {
        a.with_hidden(a.cfg.hidden.push(app.app_id))
    };
    lemma_rows_at(c, actions::held(c.apps.selected, c.rows(now).len() as int), now);
}

/// Nothing is hidden while a branch or a deployment is selected.
pub proof fn law_only_apps_are_hidden(a: AppV, now: Option<u64>)
    requires
        !(a.selected_row(now) matches Some(VisibleRow::AppHeader { .. })),
    ensures
        a.hide_toggled(now).cfg == a.cfg,
        a.hide_saving(now) is None,
{
}

/// No two apps have the same id.
pub open spec fn distinct_ids(items: Seq<AmplifyApp>) -> bool {
    forall|i: int, j: int|
        0 <= i < j < items.len() ==> (#[trigger] items[i]).app_id@ != (#[trigger] items[j]).app_id@
}

proof fn lemma_place_found(items: Seq<AmplifyApp>, i: int)
    requires
        distinct_ids(items),
        0 <= i < items.len(),
    ensures
        app::place_of(items, items[i].app_id@) == Some(i),
    decreases items.len(),
{
    if i < items.len() - 1 {
        let t = items.drop_last();
        assert(items[i].app_id@ != items[items.len() - 1].app_id@);
        assert(distinct_ids(t)) by {
            assert forall|x: int, y: int| 0 <= x < y < t.len() implies (#[trigger] t[x]).app_id@ != (
            #[trigger] t[y]).app_id@ by {
                assert(items[x].app_id@ != items[y].app_id@);
            }
        }
        lemma_place_found(t, i);
        assert(t[i] == items[i]);
    }
}

/// Every text in `o` is the id of an app that is shown.
spec fn names_shown(a: AppV, o: Seq<String>) -> bool {
    forall|k: int|
        0 <= k < o.len() ==> exists|i: int|
            {
                &&& 0 <= i < a.apps.items.len()
                &&& a.shown(#[trigger] a.apps.items[i])
                &&& a.apps.items[i].app_id@ == (#[trigger] o[k])@
            }
}

/// Every app that is shown has its id in `o`.
spec fn covers_shown(a: AppV, o: Seq<String>) -> bool {
    forall|i: int|
        0 <= i < a.apps.items.len() && a.shown(#[trigger] a.apps.items[i]) ==> text::among(
            o,
            a.apps.items[i].app_id@,
        )
}

proof fn lemma_chosen(a: AppV, o: Seq<String>)
    requires
        distinct_ids(a.apps.items),
        names_shown(a, o),
    ensures
        ({
            let c = app::chosen_places(a.apps.items, o);
            &&& c.len() == o.len()
            &&& forall|k: int|
                0 <= k < o.len() ==> {
                    &&& 0 <= #[trigger] c[k] < a.apps.items.len()
                    &&& a.shown(a.apps.items[c[k]])
                    &&& a.apps.items[c[k]].app_id@ == o[k]@
                }
        }),
    decreases o.len(),
{
    if o.len() > 0 {
        let t = o.drop_last();
        assert(names_shown(a, t)) by {
            assert forall|k: int| 0 <= k < t.len() implies exists|i: int|
                {
                    &&& 0 <= i < a.apps.items.len()
                    &&& a.shown(#[trigger] a.apps.items[i])
                    &&& a.apps.items[i].app_id@ == (#[trigger] t[k])@
                } by {
                assert(o[k] == t[k]);
            }
        }
        lemma_chosen(a, t);
        let last = o[o.len() - 1];
        let i = choose|i: int|
            {
                &&& 0 <= i < a.apps.items.len()
                &&& a.shown(#[trigger] a.apps.items[i])
                &&& a.apps.items[i].app_id@ == last@
            };
        lemma_place_found(a.apps.items, i);
        let c = app::chosen_places(a.apps.items, o);
        let d = app::chosen_places(a.apps.items, t);
        assert(c == d.push(i));
        assert forall|k: int| 0 <= k < o.len() implies {
            &&& 0 <= #[trigger] c[k] < a.apps.items.len()
            &&& a.shown(a.apps.items[c[k]])
            &&& a.apps.items[c[k]].app_id@ == o[k]@
        } by {
            if k < t.len() {
                assert(c[k] == d[k] && o[k] == t[k]);
            }
        }
    }
}

proof fn lemma_shown_ids_all(a: AppV, places: Seq<int>)
    requires
        forall|k: int| 0 <= k < places.len() ==> a.shown(a.apps.items[#[trigger] places[k]]),
    ensures
        actions::shown_ids(a, places).len() == places.len(),
        forall|k: int|
            0 <= k < places.len() ==> #[trigger] actions::shown_ids(a, places)[k]
                == a.apps.items[places[k]].app_id,
    decreases places.len(),
{
    if places.len() > 0 {
        let t = places.drop_last();
        assert forall|k: int| 0 <= k < t.len() implies a.shown(a.apps.items[#[trigger] t[k]]) by {
            assert(places[k] == t[k]);
        }
        lemma_shown_ids_all(a, t);
        assert(a.shown(a.apps.items[places[places.len() - 1]]));
        let s = actions::shown_ids(a, places);
        assert forall|k: int| 0 <= k < places.len() implies #[trigger] s[k]
            == a.apps.items[places[k]].app_id by {
            if k < t.len() {
                assert(s[k] == actions::shown_ids(a, t)[k]);
            }
        }
    }
}

proof fn lemma_shown_ids_none(a: AppV, p: Seq<int>, q: Seq<int>)
    requires
        forall|k: int| 0 <= k < q.len() ==> !a.shown(a.apps.items[#[trigger] q[k]]),
    ensures
        actions::shown_ids(a, p + q) == actions::shown_ids(a, p),
    decreases q.len(),
{
    if q.len() == 0 {
        assert(p + q =~= p);
    } else {
        let t = q.drop_last();
        assert forall|k: int| 0 <= k < t.len() implies !a.shown(a.apps.items[#[trigger] t[k]]) by {
            assert(q[k] == t[k]);
        }
        lemma_shown_ids_none(a, p, t);
        assert((p + q).drop_last() =~= p + t);
        assert(!a.shown(a.apps.items[q[q.len() - 1]]));
    }
}

proof fn lemma_other(used: Seq<int>, n: int, i: int)
    ensures
        app::other_places(used, n).contains(i) <==> 0 <= i < n && !used.contains(i),
    decreases n,
{
    if n > 0 {
        lemma_other(used, n - 1, i);
        lemma_push_contains(app::other_places(used, n - 1), n - 1, i);
    }
}

/// Where the settings name exactly the apps that are shown, the apps are shown
/// in the order of the settings.
proof fn lemma_order_is_seen(a: AppV)
    requires
        distinct_ids(a.apps.items),
        names_shown(a, a.cfg.order),
        covers_shown(a, a.cfg.order),
    ensures
        text::views(a.order_seen()) == text::views(a.cfg.order),
{
    let items = a.apps.items;
    let o = a.cfg.order;
    let c = app::chosen_places(items, o);
    let q = app::other_places(c, items.len() as int);
    lemma_chosen(a, o);
    lemma_shown_ids_all(a, c);
    assert forall|k: int| 0 <= k < q.len() implies !a.shown(items[#[trigger] q[k]]) by {
        let i = q[k];
        assert(q.contains(i));
        lemma_other(c, items.len() as int, i);
        if a.shown(items[i]) {
            assert(text::among(o, items[i].app_id@));
            let m = choose|m: int| 0 <= m < o.len() && (#[trigger] o[m])@ == items[i].app_id@;
            lemma_place_found(items, i);
            lemma_place_found(items, c[m]);
            assert(c[m] == i);
            assert(c.contains(i));
        }
    }
    lemma_shown_ids_none(a, c, q);
    assert(app::ordered_places(items, o) == c + q);
    assert(a.order_seen() == actions::shown_ids(a, c));
    assert(text::views(a.order_seen()) =~= text::views(o)) by {
        assert forall|k: int| 0 <= k < o.len() implies text::views(a.order_seen())[k] == text::views(o)[k] by {
            assert(actions::shown_ids(a, c)[k] == items[c[k]].app_id);
        }
    }
}

proof fn lemma_shown_ids_named(a: AppV, places: Seq<int>)
    requires
        forall|k: int| 0 <= k < places.len() ==> 0 <= #[trigger] places[k] < a.apps.items.len(),
    ensures
        names_shown(a, actions::shown_ids(a, places)),
        forall|k: int|
            0 <= k < places.len() && a.shown(a.apps.items[#[trigger] places[k]]) ==> text::among(
                actions::shown_ids(a, places),
                a.apps.items[places[k]].app_id@,
            ),
    decreases places.len(),
{
    if places.len() > 0 {
        let t = places.drop_last();
        assert forall|k: int| 0 <= k < t.len() implies 0 <= #[trigger] t[k] < a.apps.items.len() by {
            assert(places[k] == t[k]);
        }
        lemma_shown_ids_named(a, t);
        let r = actions::shown_ids(a, t);
        let s = actions::shown_ids(a, places);
        let last = places[places.len() - 1];
        assert forall|k: int| 0 <= k < s.len() implies exists|i: int|
            {
                &&& 0 <= i < a.apps.items.len()
                &&& a.shown(#[trigger] a.apps.items[i])
                &&& a.apps.items[i].app_id@ == (#[trigger] s[k])@
            } by {
            if k < r.len() {
                assert(s[k] == r[k]);
            } else {
                assert(a.shown(a.apps.items[last]));
                assert(a.apps.items[last].app_id@ == s[k]@);
            }
        }
        assert forall|k: int|
            0 <= k < places.len() && a.shown(a.apps.items[#[trigger] places[k]]) implies text::among(
            s,
            a.apps.items[places[k]].app_id@,
        ) by {
            let id = a.apps.items[places[k]].app_id@;
            if k < t.len() {
                assert(t[k] == places[k]);
                assert(text::among(r, id));
                let m = choose|m: int| 0 <= m < r.len() && (#[trigger] r[m])@ == id;
                assert(s[m]@ == id);
            } else {
                assert(s[s.len() - 1]@ == id);
            }
        }
    }
}

proof fn lemma_seen(a: AppV)
    ensures
        names_shown(a, a.order_seen()),
        covers_shown(a, a.order_seen()),
{
    let items = a.apps.items;
    let places = app::ordered_places(items, a.cfg.order);
    app::lemma_ordered_in_range(items, a.cfg.order);
    lemma_shown_ids_named(a, places);
    assert forall|i: int|
        0 <= i < items.len() && a.shown(#[trigger] items[i]) implies text::among(
        a.order_seen(),
        items[i].app_id@,
    ) by {
        let c = app::chosen_places(items, a.cfg.order);
        let q = app::other_places(c, items.len() as int);
        lemma_other(c, items.len() as int, i);
        if c.contains(i) {
            let k = choose|k: int| 0 <= k < c.len() && c[k] == i;
            assert(places[k] == i);
        } else {
            let k = choose|k: int| 0 <= k < q.len() && q[k] == i;
            assert(places[c.len() + k] == i);
        }
    }
}

/// `s` with two elements exchanged.
pub open spec fn swapped<T>(s: Seq<T>, i: int, j: int) -> Seq<T> {
    s.update(i, s[j]).update(j, s[i])
}

/// Moving an app moves it one place in the order that is seen, and changes
/// places with the app that stood there; all others stay.
pub proof fn law_moved_app_changes_places(a: AppV, delta: int, now: Option<u64>, pos: int)
    requires
        distinct_ids(a.apps.items),
        delta == 1 || delta == -1,
        a.selected_row(now) matches Some(VisibleRow::AppHeader { items_index, expanded })
            && actions::first_place(a.order_seen(), a.apps.items[items_index as int].app_id@) == Some(pos),
        0 <= pos < a.order_seen().len(),
        0 <= pos + delta < a.order_seen().len(),
    ensures
        text::views(a.app_moved(delta, now).order_seen()) == swapped(
            text::views(a.order_seen()),
            pos,
            pos + delta,
        ),
{
    let seen = a.order_seen();
    let o = swapped(seen, pos, pos + delta);
    let b = AppV { cfg: app::CfgV { order: o, ..a.cfg }, ..a };
    lemma_seen(a);
    assert(names_shown(b, o)) by {
        assert forall|k: int| 0 <= k < o.len() implies exists|i: int|
            {
                &&& 0 <= i < b.apps.items.len()
                &&& b.shown(#[trigger] b.apps.items[i])
                &&& b.apps.items[i].app_id@ == (#[trigger] o[k])@
            } by {
            let m = if k == pos {
                pos + delta
            } else if k == pos + delta {
                pos
            } else {
                k
            };
            assert(o[k] == seen[m]);
            let i = choose|i: int|
                {
                    &&& 0 <= i < a.apps.items.len()
                    &&& a.shown(#[trigger] a.apps.items[i])
                    &&& a.apps.items[i].app_id@ == seen[m]@
                };
            assert(b.shown(b.apps.items[i]));
        }
    }
    assert(covers_shown(b, o)) by {
        assert forall|i: int|
            0 <= i < b.apps.items.len() && b.shown(#[trigger] b.apps.items[i]) implies text::among(
            o,
            b.apps.items[i].app_id@,
        ) by {
            let id = a.apps.items[i].app_id@;
            assert(a.shown(a.apps.items[i]));
            assert(text::among(seen, id));
            let m = choose|m: int| 0 <= m < seen.len() && (#[trigger] seen[m])@ == id;
            let k = if m == pos {
                pos + delta
            } else if m == pos + delta {
                pos
            } else {
                m
            };
            assert(o[k] == seen[m]);
        }
    }
    lemma_order_is_seen(b);
    assert(text::views(o) =~= swapped(text::views(seen), pos, pos + delta));
    let c = a.app_moved(delta, now);
    assert(c.apps.items == b.apps.items && c.cfg == b.cfg && c.apps.show_hidden == b.apps.show_hidden);
    lemma_same_order(b, c);
}

proof fn lemma_same_shown(b: AppV, c: AppV, places: Seq<int>)
    requires
        c.apps.items == b.apps.items,
        c.cfg == b.cfg,
        c.apps.show_hidden == b.apps.show_hidden,
    ensures
        actions::shown_ids(b, places) == actions::shown_ids(c, places),
    decreases places.len(),
{
    if places.len() > 0 {
        lemma_same_shown(b, c, places.drop_last());
    }
}

proof fn lemma_same_order(b: AppV, c: AppV)
    requires
        c.apps.items == b.apps.items,
        c.cfg == b.cfg,
        c.apps.show_hidden == b.apps.show_hidden,
    ensures
        b.order_seen() == c.order_seen(),
{
    lemma_same_shown(b, c, app::ordered_places(b.apps.items, b.cfg.order));
}

/// The newest job of a branch is the first one, and its end counts before its start.
pub proof fn law_last_deploy_is_newest_job(
    jobs: branches::Jobs,
    app_id: Seq<char>,
    name: Seq<char>,
)
    ensures
        ({
            let key = (app_id, name);
            let known = jobs.dom().contains(key) && jobs[key]@.len() > 0;
            let newest = jobs[key]@[0];
            let r = branches::last_deploy(jobs, app_id, name);
            &&& known && newest.end_time is Some ==> r == newest.end_time->0@
            &&& known && newest.end_time is None && newest.start_time is Some ==> r == newest.start_time->0@
            &&& known && newest.end_time is None && newest.start_time is None ==> r.len() == 0
            &&& !known ==> r.len() == 0
        }),
{
}

/// A branch is for a stage exactly where it has one of five names; a branch of a
/// release begins with `release/`.
pub proof fn law_kinds_of_branches(b: AmplifyBranch)
    ensures
        branches::kind_of(b) == 0 <==> b.branch_name@ == "main"@ || b.branch_name@ == "master"@ || b.branch_name@
            == "develop"@ || b.branch_name@ == "staging"@ || b.branch_name@ == "production"@,
        branches::kind_of(b) == 1 <==> text::has_prefix(b.branch_name@, "release/"@),
        branches::kind_of(b) == 2 || branches::kind_of(b) == 1 || branches::kind_of(b) == 0,
{
    reveal_strlit("main");
    reveal_strlit("master");
    reveal_strlit("develop");
    reveal_strlit("staging");
    reveal_strlit("production");
    reveal_strlit("release/");
    let n = b.branch_name@;
    if text::has_prefix(n, "release/"@) {
        assert(n.take(8)[0] == n[0] && "release/"@[0] == 'r');
        assert("main"@[0] == 'm' && "master"@[0] == 'm' && "develop"@[0] == 'd' && "staging"@[0] == 's'
            && "production"@[0] == 'p');
    }
}

/// A branch is stale exactly where its last deployment, or its last change where it
/// was never deployed, lies more than fourteen days back.
pub proof fn law_stale_after_two_weeks(
    jobs: branches::Jobs,
    app_id: Seq<char>,
    b: AmplifyBranch,
    now: Option<u64>,
)
    ensures
        ({
            let t = branches::last_deploy(jobs, app_id, b.branch_name@);
            let stale = branches::stale(jobs, app_id, b, now);
            &&& t.len() > 0 ==> (stale <==> branches::days_since(t, now) is Some && branches::days_since(t, now)->0 > 14)
            &&& t.len() == 0 && b.update_time is Some ==> (stale <==> branches::days_since(
                b.update_time->0@,
                now,
            ) is Some && branches::days_since(b.update_time->0@, now)->0 > 14)
            &&& t.len() == 0 && b.update_time is None ==> !stale
        }),
{
}

proof fn lemma_first_fresh_is_first(
    s: Seq<AmplifyBranch>,
    jobs: branches::Jobs,
    app_id: Seq<char>,
    now: Option<u64>,
    b: AmplifyBranch,
)
    requires
        s.contains(b),
        !branches::stale(jobs, app_id, b, now),
        order::in_order(s, |x: AmplifyBranch, y: AmplifyBranch| branches::more_recent(jobs, app_id, x, y)),
    ensures
        branches::first_fresh(s, jobs, app_id, now).len() == 1,
        !branches::more_recent(jobs, app_id, b, branches::first_fresh(s, jobs, app_id, now)[0]),
    decreases s.len(),
{
    let later = |x: AmplifyBranch, y: AmplifyBranch| branches::more_recent(jobs, app_id, x, y);
    let k = choose|k: int| 0 <= k < s.len() && s[k] == b;
    if branches::stale(jobs, app_id, s[0], now) {
        let t = s.drop_first();
        assert(t[k - 1] == b);
        assert forall|i: int, j: int| 0 <= i < j < t.len() implies !later(#[trigger] t[j], #[trigger] t[i]) by {
            assert(!later(s[j + 1], s[i + 1]));
        }
        lemma_first_fresh_is_first(t, jobs, app_id, now, b);
    } else if k > 0 {
        assert(!later(s[k], s[0]));
    } else {
        text::lemma_before_irreflexive(branches::last_deploy(jobs, app_id, b.branch_name@));
    }
}

proof fn lemma_by_deploy(s: Seq<AmplifyBranch>, jobs: branches::Jobs, app_id: Seq<char>)
    ensures
        order::in_order(
            branches::by_deploy(s, jobs, app_id),
            |x: AmplifyBranch, y: AmplifyBranch| branches::more_recent(jobs, app_id, x, y),
        ),
{
    let later = |x: AmplifyBranch, y: AmplifyBranch| branches::more_recent(jobs, app_id, x, y);
    let key = |x: AmplifyBranch| branches::last_deploy(jobs, app_id, x.branch_name@);
    assert forall|a: AmplifyBranch| !(#[trigger] later(a, a)) by {
        text::lemma_before_irreflexive(key(a));
    }
    assert forall|a: AmplifyBranch, b: AmplifyBranch, c: AmplifyBranch|
        !(#[trigger] later(b, a)) && !(#[trigger] later(c, b)) implies !later(c, a) by {
        text::lemma_before_transitive(key(c), key(b), key(a));
    }
    assert forall|a: AmplifyBranch, b: AmplifyBranch| #[trigger] later(a, b) implies !later(b, a) by {
        text::lemma_before_total(key(a), key(b));
    }
    order::law_sorted(s, later);
    assert(branches::by_deploy(s, jobs, app_id) == order::sorted(s, later));
}

/// Of the releases, and of the other branches, the one that was deployed last is
/// shown: no fresh branch of the same kind was deployed later than it. Where there
/// is a fresh branch of a kind, one of that kind is shown.
pub proof fn law_latest_branch_is_shown(
    all: Seq<AmplifyBranch>,
    jobs: branches::Jobs,
    app_id: Seq<char>,
    now: Option<u64>,
    b: AmplifyBranch,
)
    requires
        all.contains(b),
        branches::kind_of(b) != 0,
        !branches::stale(jobs, app_id, b, now),
    ensures
        ({
            let s = branches::shown_branches(all, jobs, app_id, now);
            &&& exists|i: int| 0 <= i < s.len() && branches::kind_of(#[trigger] s[i]) == branches::kind_of(b)
            &&& forall|i: int|
                0 <= i < s.len() && branches::kind_of(#[trigger] s[i]) == branches::kind_of(b) ==> !text::before(
                    branches::last_deploy(jobs, app_id, s[i].branch_name@),
                    branches::last_deploy(jobs, app_id, b.branch_name@),
                )
        }),
{
    law_kinds_of_branches(b);
    law_few_other_branches_are_shown(all, jobs, app_id, now);
    let k = branches::kind_of(b);
    let p = branches::by_stage(branches::of_kind(all, 0));
    let later = |x: AmplifyBranch, y: AmplifyBranch| branches::more_recent(jobs, app_id, x, y);
    let r = branches::by_deploy(branches::of_kind(all, k), jobs, app_id);
    let f = branches::first_fresh(r, jobs, app_id, now);
    let f1 = branches::first_fresh(
        branches::by_deploy(branches::of_kind(all, 1), jobs, app_id),
        jobs,
        app_id,
        now,
    );
    let s = branches::shown_branches(all, jobs, app_id, now);
    lemma_of_kind(all, k, b);
    lemma_by_deploy(branches::of_kind(all, k), jobs, app_id);
    assert(r == order::sorted(branches::of_kind(all, k), later));
    lemma_sorted_contains(branches::of_kind(all, k), later, b);
    lemma_first_fresh_is_first(r, jobs, app_id, now, b);
    lemma_first_fresh(r, jobs, app_id, now);
    assert(r.contains(f[0]));
    lemma_sorted_contains(branches::of_kind(all, k), later, f[0]);
    lemma_of_kind(all, k, f[0]);
    let at = if k == 1 {
        p.len() as int
    } else {
        (p.len() + f1.len()) as int
    };
    assert(s[at] == f[0]);
    assert forall|i: int| 0 <= i < s.len() && branches::kind_of(#[trigger] s[i]) == k implies !text::before(
        branches::last_deploy(jobs, app_id, s[i].branch_name@),
        branches::last_deploy(jobs, app_id, b.branch_name@),
    ) by {
        if i < at {
            assert(branches::kind_of(s[i]) == branches::kind_of(s[at]));
        } else if at < i {
            assert(branches::kind_of(s[at]) == branches::kind_of(s[i]));
        }
        assert(i == at);
    }
}

proof fn lemma_kept_kind(all: Seq<AmplifyBranch>, k: int, less: spec_fn(AmplifyBranch, AmplifyBranch) -> bool, x: AmplifyBranch)
    requires
        order::sorted(branches::of_kind(all, k), less).contains(x),
    ensures
        branches::kind_of(x) == k,
{
    lemma_sorted_contains(branches::of_kind(all, k), less, x);
    lemma_of_kind(all, k, x);
}

/// The branches for stages stand in front, and no other one among them.
pub proof fn lemma_kinds_in_their_places(
    all: Seq<AmplifyBranch>,
    jobs: branches::Jobs,
    app_id: Seq<char>,
    now: Option<u64>,
    i: int,
)
    requires
        0 <= i < branches::shown_branches(all, jobs, app_id, now).len(),
    ensures
        branches::kind_of(branches::shown_branches(all, jobs, app_id, now)[i]) == 0 <==> i < branches::by_stage(
            branches::of_kind(all, 0),
        ).len(),
{
    let p = branches::by_stage(branches::of_kind(all, 0));
    let s = branches::shown_branches(all, jobs, app_id, now);
    let x = s[i];
    if i < p.len() {
        let less = |x: AmplifyBranch, y: AmplifyBranch|
            branches::primary_key(x.branch_name@) < branches::primary_key(y.branch_name@);
        assert(p == order::sorted(branches::of_kind(all, 0), less));
        assert(p[i] == x);
        assert(p.contains(x));
        lemma_kept_kind(all, 0, less, x);
    } else {
        let later = |x: AmplifyBranch, y: AmplifyBranch| branches::more_recent(jobs, app_id, x, y);
        let d1 = branches::by_deploy(branches::of_kind(all, 1), jobs, app_id);
        let d2 = branches::by_deploy(branches::of_kind(all, 2), jobs, app_id);
        let f1 = branches::first_fresh(d1, jobs, app_id, now);
        let f2 = branches::first_fresh(d2, jobs, app_id, now);
        lemma_first_fresh(d1, jobs, app_id, now);
        lemma_first_fresh(d2, jobs, app_id, now);
        if i < p.len() + f1.len() {
            assert(x == f1[i - p.len()]);
            assert(d1.contains(x));
            lemma_kept_kind(all, 1, later, x);
        } else {
            assert(x == f2[i - p.len() - f1.len()]);
            assert(d2.contains(x));
            lemma_kept_kind(all, 2, later, x);
        }
    }
}

} // verus!
