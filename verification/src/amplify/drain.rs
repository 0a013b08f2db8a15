//! What the replies to the requests of the apps browser lead to.

use vstd::prelude::*;

use crate::amplify::actions;
use crate::amplify::actions::push_jobs_requests;
use crate::amplify::amplify::{
    AmplifyApp, AmplifyBranch, AmplifyEvent, AmplifyJob, AmplifyJobDetail, AmplifyJobStep,
};
use crate::amplify::app;
use crate::amplify::app::{
    App, AppV, AppsTab, AppsV, DeploymentHistoryView, HistoryV, LogsV, LogsView, Request, RequestV,
};
use crate::numeral;
use crate::numeral::dec_size;
use crate::text;
use crate::text::{cat2, cat3, is_among, owned, str_eq};

verus! {

/// What a background request has brought so far.
pub enum Recv {
    /// Nothing yet.
    Empty,
    /// It ended without bringing anything.
    Closed,
    Got(AmplifyEvent),
}

/// What the request number `i` has brought.
pub open spec fn recv_at(r: Seq<Recv>, i: int) -> Recv {
    if 0 <= i < r.len() {
        r[i]
    } else {
        Recv::Empty
    }
}

/// What an event leads to.
#[verifier::ext_equal]
pub struct Step {
    pub app: AppV,
    pub requests: Seq<RequestV>,
    pub changed: bool,
}

/// The ids of the first `n` apps that are not hidden.
pub open spec fn visible_ids(items: Seq<AmplifyApp>, hidden: Seq<String>, n: int) -> Seq<Seq<char>>
    decreases n,
{
    if n <= 0 {
        Seq::empty()
    } else if text::among(hidden, items[n - 1].app_id@) {
        visible_ids(items, hidden, n - 1)
    } else {
        visible_ids(items, hidden, n - 1).push(items[n - 1].app_id@)
    }
}

/// A set with some more ids.
pub open spec fn with_ids(s: Set<Seq<char>>, ids: Seq<Seq<char>>) -> Set<Seq<char>>
    decreases ids.len(),
{
    if ids.len() == 0 {
        s
    } else {
        with_ids(s, ids.drop_last()).insert(ids.last())
    }
}

/// The requests for the branches of some apps.
pub open spec fn branches_requests(ids: Seq<Seq<char>>) -> Seq<RequestV> {
    ids.map_values(|id: Seq<char>| RequestV::Branches { app_id: id })
}

/// The remark on how many apps are hidden.
pub open spec fn hidden_note(total: nat, visible: nat) -> Seq<char> {
    if total > visible {
        " ("@ + numeral::decimal((total - visible) as nat) + " hidden)"@
    } else {
        Seq::empty()
    }
}

/// The branches of an app, as pairs.
pub open spec fn pairs_of(app_id: Seq<char>, brs: Seq<AmplifyBranch>) -> Seq<(Seq<char>, Seq<char>)> {
    Seq::new(brs.len(), |i: int| (app_id, brs[i].branch_name@))
}

/// What replies about the branches of apps lead to: the list, the branches whose
/// jobs are to be asked for, and whether anything has come.
#[verifier::ext_equal]
pub struct Arrived {
    pub apps: AppsV,
    pub fanout: Seq<(Seq<char>, Seq<char>)>,
    pub changed: bool,
}

/// What the first `n` replies about the branches of apps lead to. A reply counts
/// if it is waited for and was not asked for just now (`fresh`).
pub open spec fn branches_arrived(
    a: AppsV,
    replies: Seq<(String, Recv)>,
    fresh: Seq<Seq<char>>,
    n: int,
) -> Arrived
    decreases n,
{
    if n <= 0 {
        Arrived { apps: a, fanout: Seq::empty(), changed: false }
    } else {
        let before = branches_arrived(a, replies, fresh, n - 1);
        let id = replies[n - 1].0@;
        if !before.apps.pending_branches.contains(id) || fresh.contains(id) {
            before
        } else {
            let ended = AppsV {
                pending_branches: before.apps.pending_branches.remove(id),
                ..before.apps
            };
            match replies[n - 1].1 {
                Recv::Empty => before,
                Recv::Got(AmplifyEvent::Branches(brs)) => Arrived {
                    apps: AppsV { branches: ended.branches.insert(id, brs), ..ended },
                    fanout: before.fanout + pairs_of(id, brs@),
                    changed: true,
                },
                _ => Arrived { apps: ended, ..before },
            }
        }
    }
}

/// The first `n` requests for jobs that have not been answered yet.
pub open spec fn jobs_kept(
    pending: Seq<(Seq<char>, Seq<char>)>,
    r: Seq<Recv>,
    n: int,
) -> Seq<(Seq<char>, Seq<char>)>
    decreases n,
{
    if n <= 0 {
        Seq::empty()
    } else if recv_at(r, n - 1) is Empty {
        jobs_kept(pending, r, n - 1).push(pending[n - 1])
    } else {
        jobs_kept(pending, r, n - 1)
    }
}

/// The jobs that the first `n` replies bring, by app and branch.
pub open spec fn jobs_brought(
    pending: Seq<(Seq<char>, Seq<char>)>,
    r: Seq<Recv>,
    n: int,
) -> Seq<((Seq<char>, Seq<char>), Vec<AmplifyJob>)>
    decreases n,
{
    if n <= 0 {
        Seq::empty()
    } else {
        let rest = jobs_brought(pending, r, n - 1);
        match recv_at(r, n - 1) {
            Recv::Got(AmplifyEvent::Jobs { branch_name, jobs }) => rest.push(
                ((pending[n - 1].0, branch_name@), jobs),
            ),
            _ => rest,
        }
    }
}

/// The errors that the first `n` replies bring, by app and branch.
pub open spec fn errors_brought(
    pending: Seq<(Seq<char>, Seq<char>)>,
    r: Seq<Recv>,
    n: int,
) -> Seq<((Seq<char>, Seq<char>), String)>
    decreases n,
{
    if n <= 0 {
        Seq::empty()
    } else {
        let rest = errors_brought(pending, r, n - 1);
        match recv_at(r, n - 1) {
            Recv::Got(AmplifyEvent::Failed(e)) => rest.push((pending[n - 1], e)),
            _ => rest,
        }
    }
}

/// There are jobs of a branch.
pub open spec fn has_jobs(a: AppsV, key: (Seq<char>, Seq<char>)) -> bool {
    a.jobs.dom().contains(key) && a.jobs[key]@.len() > 0
}

/// With the jobs of a branch taken in. An empty list never takes the place of
/// jobs; an error is forgotten.
pub open spec fn with_jobs(a: AppsV, key: (Seq<char>, Seq<char>), jobs: Vec<AmplifyJob>) -> AppsV {
    AppsV {
        jobs: if jobs@.len() > 0 || !has_jobs(a, key) {
            a.jobs.insert(key, jobs)
        } else {
            a.jobs
        },
        job_errors: a.job_errors.remove(key),
        ..a
    }
}

/// With an error noted for a branch, unless there are jobs of it.
pub open spec fn with_error(a: AppsV, key: (Seq<char>, Seq<char>), error: String) -> AppsV {
    if has_jobs(a, key) {
        a
    } else {
        AppsV { job_errors: a.job_errors.insert(key, error), ..a }
    }
}

/// With the jobs of some branches taken in.
pub open spec fn with_all_jobs(a: AppsV, s: Seq<((Seq<char>, Seq<char>), Vec<AmplifyJob>)>) -> AppsV
    decreases s.len(),
{
    if s.len() == 0 {
        a
    } else {
        with_jobs(with_all_jobs(a, s.drop_last()), s.last().0, s.last().1)
    }
}

/// With the errors of some branches noted.
pub open spec fn with_all_errors(a: AppsV, s: Seq<((Seq<char>, Seq<char>), String)>) -> AppsV
    decreases s.len(),
{
    if s.len() == 0 {
        a
    } else {
        with_error(with_all_errors(a, s.drop_last()), s.last().0, s.last().1)
    }
}

/// What the replies about jobs lead to: the list, and whether anything has come.
pub open spec fn jobs_arrived(a: AppsV, r: Seq<Recv>) -> (AppsV, bool) {
    let n = a.pending_jobs.len() as int;
    let jobs = jobs_brought(a.pending_jobs, r, n);
    let errors = errors_brought(a.pending_jobs, r, n);
    let b = AppsV { pending_jobs: jobs_kept(a.pending_jobs, r, n), ..a };
    (with_all_errors(with_all_jobs(b, jobs), errors), jobs.len() > 0 || errors.len() > 0)
}

/// What a reply about all deployments of a branch leads to.
pub open spec fn history_arrived(h: HistoryV, r: Recv) -> (HistoryV, bool) {
    if !h.pending {
        (h, false)
    } else {
        let ended = HistoryV { pending: false, ..h };
        match r {
            Recv::Empty => (h, false),
            Recv::Closed => (HistoryV { loading: false, ..ended }, false),
            Recv::Got(AmplifyEvent::Jobs { branch_name, jobs }) => (
                HistoryV {
                    jobs: jobs@,
                    loading: false,
                    selected: actions::held(h.selected, jobs@.len() as int),
                    ..ended
                },
                true,
            ),
            Recv::Got(AmplifyEvent::Failed(e)) => (
                HistoryV { loading: false, error: Some(e@), ..ended },
                true,
            ),
            Recv::Got(_) => (ended, false),
        }
    }
}

/// The log of a step that has none.
pub open spec fn no_log(status: Seq<char>) -> Seq<char> {
    "(no log URL for step; status="@ + status + ")"@
}

/// The first `n` steps with their logs: still empty where the log has to be
/// asked for.
pub open spec fn steps_begun(steps: Seq<AmplifyJobStep>, n: int) -> Seq<(Seq<char>, Seq<char>)>
    decreases n,
{
    if n <= 0 {
        Seq::empty()
    } else {
        let s = steps[n - 1];
        steps_begun(steps, n - 1).push(
            (
                s.step_name@,
                if s.log_url is Some {
                    Seq::empty()
                } else {
                    no_log(s.status@)
                },
            ),
        )
    }
}

/// The requests for the logs of the first `n` steps.
pub open spec fn log_requests(steps: Seq<AmplifyJobStep>, n: int) -> Seq<RequestV>
    decreases n,
{
    if n <= 0 {
        Seq::empty()
    } else {
        let rest = log_requests(steps, n - 1);
        match steps[n - 1].log_url {
            Some(url) => rest.push(
                RequestV::Log { step_name: steps[n - 1].step_name@, url: url@ },
            ),
            None => rest,
        }
    }
}

/// What a reply about the steps of a deployment leads to.
pub open spec fn detail_arrived(l: LogsV, r: Recv) -> (LogsV, Seq<RequestV>, bool) {
    if !l.pending_detail {
        (l, Seq::empty(), false)
    } else {
        match r {
            Recv::Got(AmplifyEvent::JobDetail(d)) => {
                let asked = log_requests(d.steps@, d.steps@.len() as int);
                (
                    LogsV {
                        loading_detail: false,
                        pending_detail: false,
                        pending_logs: l.pending_logs + asked.len(),
                        steps: l.steps + steps_begun(d.steps@, d.steps@.len() as int),
                        ..l
                    },
                    asked,
                    true,
                )
            },
            Recv::Got(AmplifyEvent::Failed(e)) => (
                LogsV { loading_detail: false, pending_detail: false, error: Some(e@), ..l },
                Seq::empty(),
                true,
            ),
            Recv::Closed => (LogsV { pending_detail: false, ..l }, Seq::empty(), false),
            _ => (l, Seq::empty(), false),
        }
    }
}

/// The place of the first step with a name.
pub open spec fn step_place(steps: Seq<(Seq<char>, Seq<char>)>, name: Seq<char>) -> Option<int>
    decreases steps.len(),
{
    if steps.len() == 0 {
        None
    } else if steps[0].0 == name {
        Some(0)
    } else {
        match step_place(steps.drop_first(), name) {
            Some(i) => Some(i + 1),
            None => None,
        }
    }
}

/// With the log of a step put in its place; a step that is not known comes
/// behind the others.
pub open spec fn with_log(
    steps: Seq<(Seq<char>, Seq<char>)>,
    name: Seq<char>,
    log: Seq<char>,
) -> Seq<(Seq<char>, Seq<char>)> {
    match step_place(steps, name) {
        Some(i) => steps.update(i, (steps[i].0, log)),
        None => steps.push((name, log)),
    }
}

/// The step and the log that a reply brings.
pub open spec fn log_in(r: Recv) -> Option<(Seq<char>, Seq<char>)> {
    match r {
        Recv::Got(AmplifyEvent::Log { step_name, text }) => Some((step_name@, text@)),
        Recv::Got(AmplifyEvent::Failed(e)) => Some(("(unknown)"@, "log fetch failed: "@ + e@)),
        _ => None,
    }
}

/// With the logs that the first `n` replies bring.
pub open spec fn logs_arrived(
    steps: Seq<(Seq<char>, Seq<char>)>,
    r: Seq<Recv>,
    n: int,
) -> Seq<(Seq<char>, Seq<char>)>
    decreases n,
{
    if n <= 0 {
        steps
    } else {
        let rest = logs_arrived(steps, r, n - 1);
        match log_in(recv_at(r, n - 1)) {
            Some((name, log)) => with_log(rest, name, log),
            None => rest,
        }
    }
}

/// How many of the first `n` requests have not been answered yet.
pub open spec fn unanswered(r: Seq<Recv>, n: int) -> int
    decreases n,
{
    if n <= 0 {
        0
    } else {
        unanswered(r, n - 1) + (if recv_at(r, n - 1) is Empty {
            1int
        } else {
            0
        })
    }
}

/// One of the first `n` replies brings a log.
pub open spec fn any_log(r: Seq<Recv>, n: int) -> bool
    decreases n,
{
    n > 0 && (any_log(r, n - 1) || log_in(recv_at(r, n - 1)) is Some)
}

impl AppV {
    /// What a reply about the apps leads to. The first apps to come are shown
    /// with their branches, but for hidden ones. Where all are hidden, hidden
    /// apps are shown too.
    pub open spec fn on_apps(self, r: Recv, now: u64) -> Step {
        let still = Step { app: self, requests: Seq::empty(), changed: false };
        let a = self.apps;
        if !a.pending {
            still
        } else {
            match r {
                Recv::Got(AmplifyEvent::Apps(items)) => {
                    let ids = visible_ids(items@, self.cfg.hidden, items@.len() as int);
                    let first = a.items.len() == 0;
                    Step {
                        app: self.with_apps(
                            AppsV {
                                items: items@,
                                show_hidden: a.show_hidden || (items@.len() > 0 && ids.len() == 0),
                                expanded: if first {
                                    with_ids(a.expanded, ids)
                                } else {
                                    a.expanded
                                },
                                pending_branches: if first {
                                    with_ids(a.pending_branches, ids)
                                } else {
                                    a.pending_branches
                                },
                                loading: false,
                                last_error: None,
                                last_fetched: Some(now),
                                pending: false,
                                ..a
                            },
                        ).with_status(
                            numeral::decimal(ids.len()) + " apps"@ + hidden_note(items@.len(), ids.len()),
                        ),
                        requests: if first {
                            branches_requests(ids)
                        } else {
                            Seq::empty()
                        },
                        changed: true,
                    }
                },
                Recv::Got(AmplifyEvent::Failed(e)) => Step {
                    app: self.with_apps(
                        AppsV { last_error: Some(e@), loading: false, pending: false, ..a },
                    ).with_status("error: "@ + e@),
                    requests: Seq::empty(),
                    changed: true,
                },
                Recv::Closed => Step {
                    app: self.with_apps(AppsV { pending: false, ..a }),
                    requests: Seq::empty(),
                    changed: false,
                },
                _ => still,
            }
        }
    }

    /// The ids of the apps whose branches a step asks for.
    pub open spec fn fresh_ids(self, r: Recv) -> Seq<Seq<char>> {
        match r {
            Recv::Got(AmplifyEvent::Apps(items)) => if self.apps.pending && self.apps.items.len() == 0 {
                visible_ids(items@, self.cfg.hidden, items@.len() as int)
            } else {
                Seq::empty()
            },
            _ => Seq::empty(),
        }
    }

    /// What replies about branches and about jobs lead to: the jobs of branches
    /// that have come are asked for.
    pub open spec fn on_lists(
        self,
        branches: Seq<(String, Recv)>,
        fresh: Seq<Seq<char>>,
        jobs: Seq<Recv>,
    ) -> Step {
        let b = branches_arrived(self.apps, branches, fresh, branches.len() as int);
        let (a, changed) = jobs_arrived(b.apps, jobs);
        Step {
            app: self.with_apps(AppsV { pending_jobs: a.pending_jobs + b.fanout, ..a }),
            requests: actions::jobs_requests(b.fanout),
            changed: b.changed || changed,
        }
    }

    pub open spec fn on_history(self, r: Recv) -> Step {
        match self.history {
            None => Step { app: self, requests: Seq::empty(), changed: false },
            Some(h) => Step {
                app: AppV { history: Some(history_arrived(h, r).0), ..self },
                requests: Seq::empty(),
                changed: history_arrived(h, r).1,
            },
        }
    }

    pub open spec fn on_logs(self, detail: Recv, logs: Seq<Recv>) -> Step {
        match self.logs {
            None => Step { app: self, requests: Seq::empty(), changed: false },
            Some(l) => {
                let (d, asked, changed) = detail_arrived(l, detail);
                Step {
                    app: AppV {
                        logs: Some(
                            LogsV {
                                steps: logs_arrived(d.steps, logs, d.pending_logs),
                                pending_logs: unanswered(logs, d.pending_logs),
                                ..d
                            },
                        ),
                        ..self
                    },
                    requests: asked,
                    changed: changed || any_log(logs, d.pending_logs),
                }
            },
        }
    }

    /// What the replies of all requests lead to, taken one after the other.
    pub open spec fn drained(
        self,
        apps: Recv,
        branches: Seq<(String, Recv)>,
        jobs: Seq<Recv>,
        history: Recv,
        detail: Recv,
        logs: Seq<Recv>,
        now: u64,
    ) -> Step {
        let s1 = self.on_apps(apps, now);
        let s2 = s1.app.on_lists(branches, self.fresh_ids(apps), jobs);
        let s3 = s2.app.on_history(history);
        let s4 = s3.app.on_logs(detail, logs);
        Step {
            app: s4.app,
            requests: s1.requests + s2.requests + s4.requests,
            changed: s1.changed || s2.changed || s3.changed || s4.changed,
        }
    }
}

fn find_visible(items: &Vec<AmplifyApp>, hidden: &Vec<String>) -> (r: Vec<String>)
    ensures
        text::views(r@) == visible_ids(items@, hidden@, items@.len() as int),
{
    let mut out: Vec<String> = Vec::new();
    let mut i: usize = 0;
    assert(text::views(out@) =~= Seq::empty());
    while i < items.len()
        invariant
            i <= items.len(),
            text::views(out@) == visible_ids(items@, hidden@, i as int),
        decreases items.len() - i,
    {
        if !is_among(hidden, items[i].app_id.as_str()) {
            text::push_str(&mut out, items[i].app_id.as_str());
        }
        i = i + 1;
    }
    out
}

fn note_of(total: usize, visible: usize) -> (r: String)
    ensures
        r@ == hidden_note(total as nat, visible as nat),
{
    if total > visible {
        cat3(" (", dec_size(total - visible).as_str(), " hidden)")
    } else {
        String::new()
    }
}

impl AppsTab {
    fn open_all(&mut self, ids: &Vec<String>)
        ensures
            final(self)@ == (AppsV {
                expanded: with_ids(old(self)@.expanded, text::views(ids@)),
                pending_branches: with_ids(old(self)@.pending_branches, text::views(ids@)),
                ..old(self)@
            }),
    {
        let ghost v = self@;
        let ghost all = text::views(ids@);
        let mut i: usize = 0;
        assert(all.take(0) =~= Seq::empty());
        assert(self@ =~= AppsV {
            expanded: with_ids(v.expanded, all.take(0)),
            pending_branches: with_ids(v.pending_branches, all.take(0)),
            ..v
        });
        while i < ids.len()
            invariant
                i <= ids.len(),
                all == text::views(ids@),
                self@ == (AppsV {
                    expanded: with_ids(v.expanded, all.take(i as int)),
                    pending_branches: with_ids(v.pending_branches, all.take(i as int)),
                    ..v
                }),
            decreases ids.len() - i,
        {
            assert(all.take(i + 1).drop_last() =~= all.take(i as int));
            assert(all.take(i + 1).last() == ids@[i as int]@);
            self.expanded.insert(ids[i].clone());
            self.pending_branches.insert(ids[i].clone());
            i = i + 1;
        }
        assert(all.take(all.len() as int) =~= all);
    }

    fn take_branches(&mut self, replies: Vec<(String, Recv)>, fresh: &Vec<String>) -> (r: (
        Vec<(String, String)>,
        bool,
    ))
        ensures
            ({
                let b = branches_arrived(
                    old(self)@,
                    replies@,
                    text::views(fresh@),
                    replies@.len() as int,
                );
                &&& final(self)@ == b.apps
                &&& app::pair_views(r.0@) == b.fanout
                &&& r.1 == b.changed
            }),
    {
        let ghost v = self@;
        let ghost all = replies@;
        let ghost new = text::views(fresh@);
        let mut rest = replies;
        let mut fanout: Vec<(String, String)> = Vec::new();
        let mut changed = false;
        let mut n: usize = 0;
        let total: usize = rest.len();
        assert(all.skip(0) =~= all);
        assert(app::pair_views(fanout@) =~= Seq::empty());
        while n < total
            invariant
                n <= total,
                total == all.len(),
                rest@ == all.skip(n as int),
                new == text::views(fresh@),
                self@ == branches_arrived(v, all, new, n as int).apps,
                app::pair_views(fanout@) == branches_arrived(v, all, new, n as int).fanout,
                changed == branches_arrived(v, all, new, n as int).changed,
            decreases total - n,
        {
            let ghost before = branches_arrived(v, all, new, n as int);
            let (id, recv) = rest.remove(0);
            assert(rest@ =~= all.skip(n + 1));
            assert(all[n as int] == (id, recv));
            proof {
                lemma_among_views(fresh@, id@);
            }
            if self.pending_branches.contains(&id) && !is_among(fresh, id.as_str()) {
                match recv {
                    Recv::Empty => {},
                    Recv::Got(AmplifyEvent::Branches(brs)) => {
                        self.pending_branches.remove(&id);
                        changed = true;
                        let ghost start = app::pair_views(fanout@);
                        let ghost more = pairs_of(id@, brs@);
                        let mut b: usize = 0;
                        assert(start + more.take(0) =~= start);
                        while b < brs.len()
                            invariant
                                b <= brs.len(),
                                more == pairs_of(id@, brs@),
                                app::pair_views(fanout@) == start + more.take(b as int),
                            decreases brs.len() - b,
                        {
                            let ghost mid = app::pair_views(fanout@);
                            fanout.push((id.clone(), brs[b].branch_name.clone()));
                            assert(app::pair_views(fanout@) =~= mid.push(more[b as int]));
                            assert(more.take(b + 1) =~= more.take(b as int).push(more[b as int]));
                            assert(app::pair_views(fanout@) =~= start + more.take(b + 1));
                            b = b + 1;
                        }
                        assert(more.take(brs@.len() as int) =~= more);
                        self.branches_by_app.insert(id, brs);
                    },
                    _ => {
                        self.pending_branches.remove(&id);
                    },
                }
            }
            n = n + 1;
        }
        (fanout, changed)
    }

    fn take_jobs(&mut self, replies: Vec<Recv>) -> (r: bool)
        ensures
            final(self)@ == jobs_arrived(old(self)@, replies@).0,
            r == jobs_arrived(old(self)@, replies@).1,
    {
        let ghost v = self@;
        let ghost p = v.pending_jobs;
        let ghost all = replies@;
        let total: usize = self.pending_jobs.len();
        let mut rest = replies;
        let mut kept: Vec<(String, String)> = Vec::new();
        let mut jobs: Vec<((String, String), Vec<AmplifyJob>)> = Vec::new();
        let mut errors: Vec<((String, String), String)> = Vec::new();
        let mut n: usize = 0;
        assert(all.skip(0) =~= all);
        assert(app::pair_views(kept@) =~= Seq::empty());
        assert(jobs_view(jobs@) =~= Seq::empty());
        assert(errors_view(errors@) =~= Seq::empty());
        while n < total
            invariant
                n <= total,
                self@ == v,
                p == v.pending_jobs,
                total == p.len(),
                n <= all.len() ==> rest@ == all.skip(n as int),
                n > all.len() ==> rest.len() == 0,
                app::pair_views(kept@) == jobs_kept(p, all, n as int),
                jobs_view(jobs@) == jobs_brought(p, all, n as int),
                errors_view(errors@) == errors_brought(p, all, n as int),
            decreases total - n,
        {
            assert(p[n as int] == (self.pending_jobs@[n as int].0@, self.pending_jobs@[n as int].1@));
            let app_id = self.pending_jobs[n].0.clone();
            let branch = self.pending_jobs[n].1.clone();
            let recv = if rest.len() > 0 { rest.remove(0) } else { Recv::Empty };
            assert(recv == recv_at(all, n as int));
            assert(n < all.len() ==> rest@ =~= all.skip(n + 1));
            match recv {
                Recv::Empty => {
                    let ghost before = app::pair_views(kept@);
                    kept.push((app_id, branch));
                    assert(app::pair_views(kept@) =~= before.push(p[n as int]));
                },
                Recv::Got(AmplifyEvent::Jobs { branch_name, jobs: js }) => {
                    let ghost before = jobs_view(jobs@);
                    jobs.push(((app_id, branch_name), js));
                    assert(jobs_view(jobs@) =~= before.push(((app_id@, branch_name@), js)));
                },
                Recv::Got(AmplifyEvent::Failed(e)) => {
                    let ghost before = errors_view(errors@);
                    errors.push(((app_id, branch), e));
                    assert(errors_view(errors@) =~= before.push((p[n as int], e)));
                },
                _ => {},
            }
            n = n + 1;
        }
        let any = jobs.len() > 0 || errors.len() > 0;
        self.pending_jobs = kept;
        let ghost b = self@;
        self.store_jobs(jobs);
        self.store_errors(errors);
        any
    }

    fn store_jobs(&mut self, jobs: Vec<((String, String), Vec<AmplifyJob>)>)
        ensures
            final(self)@ == with_all_jobs(old(self)@, jobs_view(jobs@)),
    {
        let ghost v = self@;
        let ghost all = jobs_view(jobs@);
        let mut rest = jobs;
        let ghost items = jobs@;
        assert(all.take(0) =~= Seq::empty());
        assert(items.skip(0) =~= items);
        while rest.len() > 0
            invariant
                rest.len() <= items.len(),
                all == jobs_view(items),
                rest@ == items.skip(items.len() - rest.len()),
                self@ == with_all_jobs(v, all.take(items.len() - rest.len())),
            decreases rest.len(),
        {
            let ghost n = items.len() - rest.len();
            let (key, js) = rest.remove(0);
            assert(rest@ =~= items.skip(n + 1));
            assert(all.take(n + 1).drop_last() =~= all.take(n));
            assert(all.take(n + 1).last() == all[n]);
            assert(all[n] == ((key.0@, key.1@), js));
            let known = match self.jobs_by_key.get(&key) {
                Some(old_jobs) => old_jobs.len() > 0,
                None => false,
            };
            let ghost before = self@;
            self.jobs_error_by_key.remove(&key);
            if js.len() > 0 || !known {
                self.jobs_by_key.insert(key, js);
            }
            assert(self@ =~= with_jobs(before, (key.0@, key.1@), js));
        }
        assert(all.take(all.len() as int) =~= all);
    }

    fn store_errors(&mut self, errors: Vec<((String, String), String)>)
        ensures
            final(self)@ == with_all_errors(old(self)@, errors_view(errors@)),
    {
        let ghost v = self@;
        let ghost all = errors_view(errors@);
        let mut rest = errors;
        let ghost items = errors@;
        assert(all.take(0) =~= Seq::empty());
        assert(items.skip(0) =~= items);
        while rest.len() > 0
            invariant
                rest.len() <= items.len(),
                all == errors_view(items),
                rest@ == items.skip(items.len() - rest.len()),
                self@ == with_all_errors(v, all.take(items.len() - rest.len())),
            decreases rest.len(),
        {
            let ghost n = items.len() - rest.len();
            let (key, e) = rest.remove(0);
            assert(rest@ =~= items.skip(n + 1));
            assert(all.take(n + 1).drop_last() =~= all.take(n));
            assert(all.take(n + 1).last() == all[n]);
            assert(all[n] == ((key.0@, key.1@), e));
            let known = match self.jobs_by_key.get(&key) {
                Some(old_jobs) => old_jobs.len() > 0,
                None => false,
            };
            let ghost before = self@;
            if !known {
                self.jobs_error_by_key.insert(key, e);
            }
            assert(self@ =~= with_error(before, (key.0@, key.1@), e));
        }
        assert(all.take(all.len() as int) =~= all);
    }
}

/// The contents of some jobs by app and branch.
pub open spec fn jobs_view(s: Seq<((String, String), Vec<AmplifyJob>)>) -> Seq<
    ((Seq<char>, Seq<char>), Vec<AmplifyJob>),
> {
    Seq::new(s.len(), |i: int| ((s[i].0.0@, s[i].0.1@), s[i].1))
}

/// The contents of some errors by app and branch.
pub open spec fn errors_view(s: Seq<((String, String), String)>) -> Seq<((Seq<char>, Seq<char>), String)> {
    Seq::new(s.len(), |i: int| ((s[i].0.0@, s[i].0.1@), s[i].1))
}

proof fn lemma_among_views(s: Seq<String>, x: Seq<char>)
    ensures
        text::among(s, x) == text::views(s).contains(x),
{
    if text::among(s, x) {
        let i = choose|i: int| 0 <= i < s.len() && (#[trigger] s[i])@ == x;
        assert(text::views(s)[i] == x);
    }
    if text::views(s).contains(x) {
        let i = choose|i: int| 0 <= i < s.len() && text::views(s)[i] == x;
        assert(s[i]@ == x);
    }
}

impl DeploymentHistoryView {
    fn take_history(&mut self, r: Recv) -> (changed: bool)
        ensures
            final(self)@ == history_arrived(old(self)@, r).0,
            changed == history_arrived(old(self)@, r).1,
    {
        if !self.pending {
            return false;
        }
        match r {
            Recv::Empty => false,
            Recv::Closed => {
                self.pending = false;
                self.loading = false;
                false
            },
            Recv::Got(AmplifyEvent::Jobs { branch_name: _, jobs }) => {
                self.pending = false;
                self.loading = false;
                let n: usize = jobs.len();
                self.jobs = jobs;
                if self.selected >= n {
                    self.selected = n.saturating_sub(1);
                }
                true
            },
            Recv::Got(AmplifyEvent::Failed(e)) => {
                self.pending = false;
                self.loading = false;
                self.error = Some(e);
                true
            },
            Recv::Got(_) => {
                self.pending = false;
                false
            },
        }
    }
}

fn find_step(steps: &Vec<(String, String)>, name: &str) -> (r: Option<usize>)
    ensures
        match r {
            Some(i) => step_place(app::pair_views(steps@), name@) == Some(i as int) && i < steps.len(),
            None => step_place(app::pair_views(steps@), name@) is None,
        },
{
    let ghost all = app::pair_views(steps@);
    let mut i: usize = 0;
    assert(all.skip(0) =~= all);
    while i < steps.len()
        invariant
            i <= steps.len(),
            all == app::pair_views(steps@),
            match step_place(all.skip(i as int), name@) {
                Some(k) => step_place(all, name@) == Some(i + k),
                None => step_place(all, name@) is None,
            },
        decreases steps.len() - i,
    {
        assert(all.skip(i as int).drop_first() =~= all.skip(i + 1));
        assert(all.skip(i as int)[0] == (steps@[i as int].0@, steps@[i as int].1@));
        if str_eq(steps[i].0.as_str(), name) {
            return Some(i);
        }
        i = i + 1;
    }
    assert(all.skip(steps@.len() as int) =~= Seq::empty());
    None
}

impl LogsView {
    fn put_log(&mut self, name: String, log: String)
        ensures
            final(self)@ == (LogsV { steps: with_log(old(self)@.steps, name@, log@), ..old(self)@ }),
    {
        let ghost before = self@.steps;
        match find_step(&self.steps, name.as_str()) {
            Some(i) => {
                let kept = self.steps[i].0.clone();
                self.steps.set(i, (kept, log));
                assert(self@.steps =~= before.update(i as int, (before[i as int].0, log@)));
            },
            None => {
                self.steps.push((name, log));
                assert(self@.steps =~= before.push((name@, log@)));
            },
        }
    }

    fn begin_steps(&mut self, d: AmplifyJobDetail, requests: &mut Vec<Request>)
        requires
            old(self).pending_logs + d.steps@.len() <= usize::MAX,
        ensures
            ({
                let asked = log_requests(d.steps@, d.steps@.len() as int);
                &&& final(self)@ == (LogsV {
                    pending_logs: old(self)@.pending_logs + asked.len(),
                    steps: old(self)@.steps + steps_begun(d.steps@, d.steps@.len() as int),
                    ..old(self)@
                })
                &&& app::request_views(final(requests)@) == app::request_views(old(requests)@) + asked
            }),
    {
        let ghost v = self@;
        let ghost start = app::request_views(requests@);
        let steps = d.steps;
        let mut i: usize = 0;
        assert(v.steps + steps_begun(steps@, 0) =~= v.steps);
        assert(start + log_requests(steps@, 0) =~= start);
        assert(self@ =~= LogsV {
            pending_logs: v.pending_logs + log_requests(steps@, 0).len(),
            steps: v.steps + steps_begun(steps@, 0),
            ..v
        });
        while i < steps.len()
            invariant
                i <= steps.len(),
                v.pending_logs + steps@.len() <= usize::MAX,
                log_requests(steps@, i as int).len() <= i,
                self@ == (LogsV {
                    pending_logs: v.pending_logs + log_requests(steps@, i as int).len(),
                    steps: v.steps + steps_begun(steps@, i as int),
                    ..v
                }),
                app::request_views(requests@) == start + log_requests(steps@, i as int),
            decreases steps.len() - i,
        {
            let s = &steps[i];
            let ghost before = self@.steps;
            match &s.log_url {
                Some(url) => {
                    let ghost asked = app::request_views(requests@);
                    requests.push(
                        Request::Log { step_name: s.step_name.clone(), url: url.clone() },
                    );
                    assert(app::request_views(requests@) =~= asked.push(
                        RequestV::Log { step_name: s.step_name@, url: url@ },
                    ));
                    self.pending_logs = self.pending_logs + 1;
                    let none = String::new();
                    self.steps.push((s.step_name.clone(), none));
                    assert(self@.steps =~= before.push((s.step_name@, Seq::empty())));
                },
                None => {
                    let t = cat3("(no log URL for step; status=", s.status.as_str(), ")");
                    self.steps.push((s.step_name.clone(), t));
                    assert(self@.steps =~= before.push((s.step_name@, no_log(s.status@))));
                },
            }
            assert(self@.steps =~= v.steps + steps_begun(steps@, i + 1));
            assert(app::request_views(requests@) =~= start + log_requests(steps@, i + 1));
            i = i + 1;
        }
    }

    fn take_detail(&mut self, r: Recv, requests: &mut Vec<Request>) -> (changed: bool)
        requires
            match r {
                Recv::Got(AmplifyEvent::JobDetail(d)) => old(self).pending_logs + d.steps@.len() <= usize::MAX,
                _ => true,
            },
        ensures
            ({
                let (l, asked, c) = detail_arrived(old(self)@, r);
                &&& final(self)@ == l
                &&& app::request_views(final(requests)@) == app::request_views(old(requests)@) + asked
                &&& changed == c
            }),
    {
        let ghost start = app::request_views(requests@);
        assert(start + Seq::<RequestV>::empty() =~= start);
        if !self.pending_detail {
            return false;
        }
        match r {
            Recv::Got(AmplifyEvent::JobDetail(d)) => {
                self.loading_detail = false;
                self.pending_detail = false;
                self.begin_steps(d, requests);
                true
            },
            Recv::Got(AmplifyEvent::Failed(e)) => {
                self.loading_detail = false;
                self.pending_detail = false;
                self.error = Some(e);
                true
            },
            Recv::Closed => {
                self.pending_detail = false;
                false
            },
            _ => false,
        }
    }

    fn take_logs(&mut self, replies: Vec<Recv>) -> (changed: bool)
        ensures
            final(self)@ == (LogsV {
                steps: logs_arrived(old(self)@.steps, replies@, old(self)@.pending_logs),
                pending_logs: unanswered(replies@, old(self)@.pending_logs),
                ..old(self)@
            }),
            changed == any_log(replies@, old(self)@.pending_logs),
    {
        let ghost v = self@;
        let ghost all = replies@;
        let total: usize = self.pending_logs;
        let mut rest = replies;
        let mut open: usize = 0;
        let mut changed = false;
        let mut n: usize = 0;
        assert(all.skip(0) =~= all);
        while n < total
            invariant
                n <= total,
                open <= n,
                total == v.pending_logs,
                n <= all.len() ==> rest@ == all.skip(n as int),
                n > all.len() ==> rest.len() == 0,
                self@ == (LogsV { steps: logs_arrived(v.steps, all, n as int), ..v }),
                open == unanswered(all, n as int),
                changed == any_log(all, n as int),
            decreases total - n,
        {
            let recv = if rest.len() > 0 { rest.remove(0) } else { Recv::Empty };
            assert(recv == recv_at(all, n as int));
            assert(n < all.len() ==> rest@ =~= all.skip(n + 1));
            match recv {
                Recv::Empty => {
                    open = open + 1;
                },
                Recv::Got(AmplifyEvent::Log { step_name, text }) => {
                    changed = true;
                    self.put_log(step_name, text);
                },
                Recv::Got(AmplifyEvent::Failed(e)) => {
                    changed = true;
                    self.put_log(owned("(unknown)"), cat2("log fetch failed: ", e.as_str()));
                },
                _ => {},
            }
            n = n + 1;
        }
        self.pending_logs = open;
        changed
    }
}

impl App {
    fn on_apps(&mut self, r: Recv, now: u64) -> (out: (bool, Vec<Request>, Vec<String>))
        requires
            old(self).wf(),
        ensures
            final(self).wf(),
            final(self)@ == old(self)@.on_apps(r, now).app,
            out.0 == old(self)@.on_apps(r, now).changed,
            app::request_views(out.1@) == old(self)@.on_apps(r, now).requests,
            text::views(out.2@) == old(self)@.fresh_ids(r),
    {
        let mut requests: Vec<Request> = Vec::new();
        let none: Vec<String> = Vec::new();
        assert(app::request_views(requests@) =~= Seq::empty());
        assert(text::views(none@) =~= Seq::empty());
        if !self.apps().pending {
            return (false, requests, none);
        }
        match r {
            Recv::Got(AmplifyEvent::Apps(items)) => {
                let ids = find_visible(&items, &self.cfg.hidden_app_ids);
                let total: usize = items.len();
                let visible: usize = ids.len();
                let ghost v = self@;
                let ghost shown = text::views(ids@);
                let first = self.apps().items.len() == 0;
                let a = self.apps_mut();
                a.items = items;
                if total > 0 && visible == 0 {
                    a.show_hidden = true;
                }
                if first {
                    a.open_all(&ids);
                }
                a.loading = false;
                a.last_error = None;
                a.last_fetched = Some(now);
                a.pending = false;
                self.status = cat3(
                    dec_size(visible).as_str(),
                    " apps",
                    note_of(total, visible).as_str(),
                );
                assert(self@ =~= v.on_apps(r, now).app);
                if !first {
                    return (true, requests, none);
                }
                let mut i: usize = 0;
                let ghost wanted = branches_requests(shown);
                assert(wanted.take(0) =~= Seq::empty());
                while i < ids.len()
                    invariant
                        i <= ids.len(),
                        shown == text::views(ids@),
                        wanted == branches_requests(shown),
                        app::request_views(requests@) == wanted.take(i as int),
                    decreases ids.len() - i,
                {
                    let ghost before = app::request_views(requests@);
                    requests.push(Request::Branches { app_id: ids[i].clone() });
                    assert(app::request_views(requests@) =~= before.push(wanted[i as int]));
                    assert(wanted.take(i + 1) =~= wanted.take(i as int).push(wanted[i as int]));
                    i = i + 1;
                }
                assert(wanted.take(wanted.len() as int) =~= wanted);
                (true, requests, ids)
            },
            Recv::Got(AmplifyEvent::Failed(e)) => {
                self.status = cat2("error: ", e.as_str());
                let a = self.apps_mut();
                a.last_error = Some(e);
                a.loading = false;
                a.pending = false;
                (true, requests, none)
            },
            Recv::Closed => {
                let a = self.apps_mut();
                a.pending = false;
                (false, requests, none)
            },
            _ => (false, requests, none),
        }
    }

    fn on_lists(
        &mut self,
        branches: Vec<(String, Recv)>,
        fresh: &Vec<String>,
        jobs: Vec<Recv>,
        requests: &mut Vec<Request>,
    ) -> (changed: bool)
        requires
            old(self).wf(),
        ensures
            final(self).wf(),
            ({
                let s = old(self)@.on_lists(branches@, text::views(fresh@), jobs@);
                &&& final(self)@ == s.app
                &&& app::request_views(final(requests)@) == app::request_views(old(requests)@) + s.requests
                &&& changed == s.changed
            }),
    {
        let ghost v = self@;
        let a = self.apps_mut();
        let (fanout, c1) = a.take_branches(branches, fresh);
        let c2 = a.take_jobs(jobs);
        let ghost kept = a@;
        let ghost pairs = app::pair_views(fanout@);
        push_jobs_requests(requests, &fanout);
        let mut more = fanout;
        a.pending_jobs.append(&mut more);
        assert(a@.pending_jobs =~= kept.pending_jobs + pairs);
        assert(a@ =~= AppsV { pending_jobs: kept.pending_jobs + pairs, ..kept });
        c1 || c2
    }

    fn on_history(&mut self, r: Recv) -> (changed: bool)
        requires
            old(self).wf(),
        ensures
            final(self).wf(),
            final(self)@ == old(self)@.on_history(r).app,
            changed == old(self)@.on_history(r).changed,
    {
        match self.deployment_history.take() {
            Some(h) => {
                let mut h = h;
                let changed = h.take_history(r);
                self.deployment_history = Some(h);
                changed
            },
            None => false,
        }
    }

    fn on_logs(&mut self, detail: Recv, logs: Vec<Recv>, requests: &mut Vec<Request>) -> (changed: bool)
        requires
            old(self).wf(),
            old(self).room_for(detail),
        ensures
            final(self).wf(),
            ({
                let s = old(self)@.on_logs(detail, logs@);
                &&& final(self)@ == s.app
                &&& app::request_views(final(requests)@) == app::request_views(old(requests)@) + s.requests
                &&& changed == s.changed
            }),
    {
        match self.logs_view.take() {
            Some(l) => {
                let mut l = l;
                let c1 = l.take_detail(detail, requests);
                let c2 = l.take_logs(logs);
                self.logs_view = Some(l);
                c1 || c2
            },
            None => {
                assert(app::request_views(requests@) + Seq::<RequestV>::empty() =~= app::request_views(
                    requests@,
                ));
                false
            },
        }
    }

    /// The logs that are waited for, with those of the steps of a deployment,
    /// can be counted.
    pub open spec fn room_for(self, detail: Recv) -> bool {
        match (self.logs_view, detail) {
            (Some(l), Recv::Got(AmplifyEvent::JobDetail(d))) => l.pending_logs + d.steps@.len() <= usize::MAX,
            _ => true,
        }
    }

    /// Whether the logs that are waited for can be counted with those of the
    /// steps of a deployment.
    pub fn has_room_for(&self, detail: &Recv) -> (r: bool)
        ensures
            r == self.room_for(*detail),
    {
        match (&self.logs_view, detail) {
            (Some(l), Recv::Got(AmplifyEvent::JobDetail(d))) => d.steps.len() <= usize::MAX - l.pending_logs,
            _ => true,
        }
    }

    /// Takes in what the background requests have brought, and says whether
    /// anything has to be drawn anew and what is to be asked next. The replies
    /// about jobs and about logs come in the order of their requests; `now` is
    /// the time.
    pub fn drain(
        &mut self,
        apps: Recv,
        branches: Vec<(String, Recv)>,
        jobs: Vec<Recv>,
        history: Recv,
        detail: Recv,
        logs: Vec<Recv>,
        now: u64,
    ) -> (r: (bool, Vec<Request>))
        requires
            old(self).wf(),
            old(self).room_for(detail),
        ensures
            final(self).wf(),
            ({
                let s = old(self)@.drained(apps, branches@, jobs@, history, detail, logs@, now);
                &&& final(self)@ == s.app
                &&& app::request_views(r.1@) == s.requests
                &&& r.0 == s.changed
            }),
    {
        let (c1, mut requests, fresh) = self.on_apps(apps, now);
        assert(self@.logs == old(self)@.logs);
        let c2 = self.on_lists(branches, &fresh, jobs, &mut requests);
        let c3 = self.on_history(history);
        assert(self@.logs == old(self)@.logs);
        let c4 = self.on_logs(detail, logs, &mut requests);
        (c1 || c2 || c3 || c4, requests)
    }
}

/// What arrives for the list leaves the status and what lies over the list alone.
pub proof fn lemma_lists_keep_the_rest(
    a: AppV,
    branches: Seq<(String, Recv)>,
    fresh: Seq<Seq<char>>,
    jobs: Seq<Recv>,
)
    ensures
        ({
            let r = a.on_lists(branches, fresh, jobs).app;
            &&& r.logs == a.logs
            &&& r.history == a.history
            &&& r.status == a.status
            &&& r.apps.items == a.apps.items
        }),
{
    lemma_branches_keep_items(a.apps, branches, fresh, branches.len() as int);
    let b = branches_arrived(a.apps, branches, fresh, branches.len() as int);
    lemma_jobs_keep_items(b.apps, jobs);
}

proof fn lemma_branches_keep_items(a: AppsV, branches: Seq<(String, Recv)>, fresh: Seq<Seq<char>>, n: int)
    ensures
        branches_arrived(a, branches, fresh, n).apps.items == a.items,
    decreases n,
{
    if n > 0 {
        lemma_branches_keep_items(a, branches, fresh, n - 1);
    }
}

proof fn lemma_jobs_keep_items(a: AppsV, jobs: Seq<Recv>)
    ensures
        jobs_arrived(a, jobs).0.items == a.items,
{
    let n = a.pending_jobs.len() as int;
    let b = AppsV { pending_jobs: jobs_kept(a.pending_jobs, jobs, n), ..a };
    let s = jobs_brought(a.pending_jobs, jobs, n);
    lemma_all_jobs_keep_items(b, s);
    lemma_all_errors_keep_items(with_all_jobs(b, s), errors_brought(a.pending_jobs, jobs, n));
}

proof fn lemma_all_jobs_keep_items(a: AppsV, s: Seq<((Seq<char>, Seq<char>), Vec<AmplifyJob>)>)
    ensures
        with_all_jobs(a, s).items == a.items,
    decreases s.len(),
{
    if s.len() > 0 {
        lemma_all_jobs_keep_items(a, s.drop_last());
    }
}

proof fn lemma_all_errors_keep_items(a: AppsV, s: Seq<((Seq<char>, Seq<char>), String)>)
    ensures
        with_all_errors(a, s).items == a.items,
    decreases s.len(),
{
    if s.len() > 0 {
        lemma_all_errors_keep_items(a, s.drop_last());
    }
}

} // verus!
