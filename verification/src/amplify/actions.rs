//! What the user can do in the apps browser.

use vstd::prelude::*;

use crate::amplify::amplify;
use crate::amplify::amplify::{
    console_url_app, console_url_branch, copy_jobs, same_text, AmplifyApp, AmplifyBranch, AmplifyJob,
};
use crate::amplify::app;
use crate::amplify::app::{
    App, AppTab, AppV, AppsTab, AppsV, DeploymentHistoryView, HistoryV, LogsV, LogsView, Request, RequestV,
    Saving, SavingV, TabData, TabKind, TabSpec, TabState, VisibleRow,
};
use crate::amplify::config::{Config, Tab};
use crate::command;
use crate::command::{as_slice, launched_status, tail_launch_of, Launch};
use crate::keys;
use crate::keys::clamp_selection;
use crate::numeral;
use crate::numeral::dec_size;
use crate::table;
use crate::table::KeySet;
use crate::tabs;
use crate::tabs::{copied_status, opened_status};
use crate::text;
use crate::text::{cat2, cat3, cat4, cat5, is_among, owned, str_eq};

verus! {

/// The requests for the jobs of some branches.
pub open spec fn jobs_requests(pairs: Seq<(Seq<char>, Seq<char>)>) -> Seq<RequestV> {
    pairs.map_values(
        |p: (Seq<char>, Seq<char>)| RequestV::Jobs { app_id: p.0, branch_name: p.1 },
    )
}

/// The first `n` branches of an app, but for those whose jobs are on their way.
pub open spec fn idle_branches(
    app_id: Seq<char>,
    brs: Seq<AmplifyBranch>,
    n: int,
    busy: Seq<(Seq<char>, Seq<char>)>,
) -> Seq<(Seq<char>, Seq<char>)>
    decreases n,
{
    if n <= 0 {
        Seq::empty()
    } else {
        let p = (app_id, brs[n - 1].branch_name@);
        let rest = idle_branches(app_id, brs, n - 1, busy);
        if busy.contains(p) {
            rest
        } else {
            rest.push(p)
        }
    }
}

/// All known branches, but for those whose jobs are on their way, in the order
/// of the apps `e`.
pub open spec fn idle_pairs(
    e: Seq<(String, Vec<AmplifyBranch>)>,
    busy: Seq<(Seq<char>, Seq<char>)>,
) -> Seq<(Seq<char>, Seq<char>)>
    decreases e.len(),
{
    if e.len() == 0 {
        Seq::empty()
    } else {
        idle_pairs(e.drop_last(), busy) + idle_branches(
            e.last().0@,
            e.last().1@,
            e.last().1@.len() as int,
            busy,
        )
    }
}

/// `e` holds the branches of all apps, each app once.
pub open spec fn lists_branches(e: Seq<(String, Vec<AmplifyBranch>)>, a: AppV) -> bool {
    table::distinct_keys(e) && table::entries_map(e) == a.apps.branches
}

/// The ids that the settings' tabs for one app name.
pub open spec fn named_apps(tabs: Seq<Tab>, n: int) -> Set<Seq<char>>
    decreases n,
{
    if n <= 0 {
        Set::empty()
    } else {
        let rest = named_apps(tabs, n - 1);
        match tabs[n - 1].app_id {
            Some(a) => if tabs[n - 1].kind@ == "app"@ {
                rest.insert(a@)
            } else {
                rest
            },
            None => rest,
        }
    }
}

/// The places of the first `n` apps that are shown, in the order of AWS.
pub open spec fn shown_places(a: AppV, n: int) -> Seq<int>
    decreases n,
{
    if n <= 0 {
        Seq::empty()
    } else if a.shown(a.apps.items[n - 1]) {
        shown_places(a, n - 1).push(n - 1)
    } else {
        shown_places(a, n - 1)
    }
}

/// A list of texts without `x`.
pub open spec fn without(s: Seq<String>, x: Seq<char>) -> Seq<String>
    decreases s.len(),
{
    if s.len() == 0 {
        s
    } else if s.last()@ == x {
        without(s.drop_last(), x)
    } else {
        without(s.drop_last(), x).push(s.last())
    }
}

/// The selection, or the last of `n` rows where there are not so many.
pub open spec fn held(selected: int, n: int) -> int {
    if selected >= n {
        if n > 0 {
            n - 1
        } else {
            0
        }
    } else {
        selected
    }
}

/// The ids of the apps that are shown, in the order in which they are shown.
pub open spec fn shown_ids(a: AppV, places: Seq<int>) -> Seq<String>
    decreases places.len(),
{
    if places.len() == 0 {
        Seq::empty()
    } else {
        let rest = shown_ids(a, places.drop_last());
        let app = a.apps.items[places.last()];
        if a.shown(app) {
            rest.push(app.app_id)
        } else {
            rest
        }
    }
}

/// The first place of `x` in `s`.
pub open spec fn first_place(s: Seq<String>, x: Seq<char>) -> Option<int>
    decreases s.len(),
{
    if s.len() == 0 {
        None
    } else if s[0]@ == x {
        Some(0)
    } else {
        match first_place(s.drop_first(), x) {
            Some(i) => Some(i + 1),
            None => None,
        }
    }
}

/// The row is the header of the app with an id.
pub open spec fn is_header_of(r: VisibleRow, items: Seq<AmplifyApp>, id: Seq<char>) -> bool {
    r matches VisibleRow::AppHeader { items_index, expanded } && items_index < items.len()
        && items[items_index as int].app_id@ == id
}

/// The first row that is the header of the app with an id.
pub open spec fn first_header(rows: Seq<VisibleRow>, items: Seq<AmplifyApp>, id: Seq<char>) -> Option<int>
    decreases rows.len(),
{
    if rows.len() == 0 {
        None
    } else if is_header_of(rows[0], items, id) {
        Some(0)
    } else {
        match first_header(rows.drop_first(), items, id) {
            Some(i) => Some(i + 1),
            None => None,
        }
    }
}

/// The last of the first `n` rows that is the header of the app with an id, or
/// `default`.
pub open spec fn last_header(
    rows: Seq<VisibleRow>,
    items: Seq<AmplifyApp>,
    id: Seq<char>,
    n: int,
    default: int,
) -> int
    decreases n,
{
    if n <= 0 {
        default
    } else if is_header_of(rows[n - 1], items, id) {
        n - 1
    } else {
        last_header(rows, items, id, n - 1, default)
    }
}

/// The row is the one of a branch.
pub open spec fn is_branch_row(r: VisibleRow, key: (Seq<char>, Seq<char>)) -> bool {
    r matches VisibleRow::Branch { app_id, branch_name } && (app_id@, branch_name@) == key
}

/// The last of the first `n` rows that is the one of a branch, or `default`.
pub open spec fn last_branch_row(
    rows: Seq<VisibleRow>,
    key: (Seq<char>, Seq<char>),
    n: int,
    default: int,
) -> int
    decreases n,
{
    if n <= 0 {
        default
    } else if is_branch_row(rows[n - 1], key) {
        n - 1
    } else {
        last_branch_row(rows, key, n - 1, default)
    }
}

/// The name of the first app with an id, or the id.
pub open spec fn name_of(items: Seq<AmplifyApp>, id: Seq<char>) -> Seq<char>
    decreases items.len(),
{
    if items.len() == 0 {
        id
    } else if items[0].app_id@ == id {
        items[0].name@
    } else {
        name_of(items.drop_first(), id)
    }
}

/// The message of the commit of the first job with an id.
pub open spec fn message_of(jobs: Seq<AmplifyJob>, job_id: Seq<char>) -> Option<Seq<char>>
    decreases jobs.len(),
{
    if jobs.len() == 0 {
        None
    } else if jobs[0].job_id@ == job_id {
        text::opt_view(jobs[0].commit_message)
    } else {
        message_of(jobs.drop_first(), job_id)
    }
}

impl AppV {
    /// With everything asked for anew: the apps, and the jobs of every known
    /// branch whose jobs are not on their way.
    pub open spec fn refreshed(self, e: Seq<(String, Vec<AmplifyBranch>)>) -> AppV {
        AppV {
            status: "refreshing "@ + self.name@ + "…"@,
            apps: AppsV {
                loading: true,
                last_error: None,
                pending: true,
                pending_jobs: self.apps.pending_jobs + idle_pairs(e, self.apps.pending_jobs),
                ..self.apps
            },
            ..self
        }
    }

    pub open spec fn refresh_requests(self, e: Seq<(String, Vec<AmplifyBranch>)>) -> Seq<RequestV> {
        seq![RequestV::Apps] + jobs_requests(idle_pairs(e, self.apps.pending_jobs))
    }

    /// The place of the app whose header is the selected row.
    pub open spec fn focused(self, now: Option<u64>) -> Option<int> {
        match self.selected_row(now) {
            Some(VisibleRow::AppHeader { items_index, expanded }) => Some(items_index as int),
            _ => None,
        }
    }

    /// How many apps are shown.
    pub open spec fn shown_count(self) -> int {
        shown_places(self, self.apps.items.len() as int).len() as int
    }

    pub open spec fn with_hidden(self, hidden: Seq<String>) -> AppV {
        AppV { cfg: app::CfgV { hidden, ..self.cfg }, ..self }
    }

    /// With no app hidden.
    pub open spec fn unhidden(self) -> AppV {
        if self.cfg.hidden.len() == 0 {
            self.with_status("no hidden apps to restore"@)
        } else {
            self.with_hidden(Seq::empty()).with_apps(AppsV { show_hidden: false, ..self.apps })
        }
    }

    pub open spec fn unhide_saving(self) -> Option<SavingV> {
        let n = numeral::decimal(self.cfg.hidden.len());
        if self.cfg.hidden.len() == 0 {
            None
        } else {
            Some(
                SavingV {
                    done: "restored "@ + n + " previously-hidden apps"@,
                    failed: "restored "@ + n + " apps in memory (save failed: "@,
                },
            )
        }
    }

    /// With the selected app hidden, or shown again; the selection stays among the
    /// rows that are left.
    pub open spec fn hide_toggled(self, now: Option<u64>) -> AppV {
        match self.focused(now) {
            None => self.with_status("no app selected to hide"@),
            Some(i) => {
                let app = self.apps.items[i];
                let b = if text::among(self.cfg.hidden, app.app_id@) {
                    self.with_hidden(without(self.cfg.hidden, app.app_id@))
                } else {
                    self.with_hidden(self.cfg.hidden.push(app.app_id))
                };
                b.at_row(held(b.apps.selected, b.rows(now).len() as int))
            },
        }
    }

    pub open spec fn hide_saving(self, now: Option<u64>) -> Option<SavingV> {
        match self.focused(now) {
            None => None,
            Some(i) => {
                let app = self.apps.items[i];
                Some(
                    SavingV {
                        done: if text::among(self.cfg.hidden, app.app_id@) {
                            "unhidden "@ + app.name@ + "  (H to show/hide the hidden view)"@
                        } else {
                            "hidden "@ + app.name@ + "  (H to see hidden, `x` to unhide)"@
                        },
                        failed: "hide toggled in memory (save failed: "@,
                    },
                )
            },
        }
    }

    /// With hidden apps shown too, or not any more.
    pub open spec fn show_toggled(self) -> AppV {
        self.with_apps(
            AppsV { show_hidden: !self.apps.show_hidden, selected: 0, ..self.apps },
        ).with_status(
            if self.apps.show_hidden {
                "show-hidden OFF  (hidden apps filtered)"@
            } else {
                "show-hidden ON  (hidden apps appear dimmed; `x` to unhide)"@
            },
        )
    }

    /// The ids of the apps in the order that the user sees.
    pub open spec fn order_seen(self) -> Seq<String> {
        shown_ids(self, app::ordered_places(self.apps.items, self.cfg.order))
    }

    /// With the selected app moved in the order, and the selection with it.
    pub open spec fn app_moved(self, delta: int, now: Option<u64>) -> AppV {
        match self.selected_row(now) {
            Some(VisibleRow::AppHeader { items_index, expanded }) => {
                let id = self.apps.items[items_index as int].app_id@;
                match first_place(self.order_seen(), id) {
                    Some(pos) => if 0 <= pos + delta < self.order_seen().len() {
                        let seen = self.order_seen();
                        let b = AppV {
                            cfg: app::CfgV {
                                order: seen.update(pos, seen[pos + delta]).update(pos + delta, seen[pos]),
                                ..self.cfg
                            },
                            ..self
                        };
                        match first_header(b.rows(now), b.apps.items, id) {
                            Some(i) => b.at_row(i),
                            None => b,
                        }
                    } else {
                        self
                    },
                    None => self,
                }
            },
            _ => self.with_status("reorder is only on an app header row"@),
        }
    }

    pub open spec fn move_saving(self, delta: int, now: Option<u64>) -> Option<SavingV> {
        match self.selected_row(now) {
            Some(VisibleRow::AppHeader { items_index, expanded }) => {
                let app = self.apps.items[items_index as int];
                match first_place(self.order_seen(), app.app_id@) {
                    Some(pos) => if 0 <= pos + delta < self.order_seen().len() {
                        Some(
                            SavingV {
                                done: "moved "@ + app.name@ + " "@ + (if delta < 0 {
                                    "up"@
                                } else {
                                    "down"@
                                }),
                                failed: "reordered "@ + app.name@ + " in memory (save failed: "@,
                            },
                        )
                    } else {
                        None
                    },
                    None => None,
                }
            },
            _ => None,
        }
    }

    /// The branches of an app are to be asked for when it is shown with them.
    pub open spec fn branches_due(self, id: Seq<char>) -> bool {
        !self.apps.branches.dom().contains(id) && !self.apps.pending_branches.contains(id)
    }

    /// With the branches of the app at place `i` shown, or hidden.
    pub open spec fn expand_toggled(self, i: int) -> AppV {
        let app = self.apps.items[i];
        let id = app.app_id@;
        if self.apps.expanded.contains(id) {
            self.with_apps(
                AppsV { expanded: self.apps.expanded.remove(id), ..self.apps },
            ).with_status("collapsed "@ + app.name@)
        } else if self.branches_due(id) {
            self.with_apps(
                AppsV {
                    expanded: self.apps.expanded.insert(id),
                    pending_branches: self.apps.pending_branches.insert(id),
                    ..self.apps
                },
            ).with_status("expanded "@ + app.name@ + " — loading branches…"@)
        } else {
            self.with_apps(
                AppsV { expanded: self.apps.expanded.insert(id), ..self.apps },
            ).with_status("expanded "@ + app.name@)
        }
    }

    pub open spec fn expand_request(self, i: int) -> Option<RequestV> {
        let id = self.apps.items[i].app_id@;
        if !self.apps.expanded.contains(id) && self.branches_due(id) {
            Some(RequestV::Branches { app_id: id })
        } else {
            None
        }
    }

    /// The jobs of a branch have been read, and there are some.
    pub open spec fn has_jobs(self, key: (Seq<char>, Seq<char>)) -> bool {
        self.apps.jobs.dom().contains(key) && self.apps.jobs[key]@.len() > 0
    }

    /// The jobs of a branch are to be asked for when it is shown with them.
    pub open spec fn jobs_due(self, key: (Seq<char>, Seq<char>)) -> bool {
        !self.has_jobs(key) && !self.apps.pending_jobs.contains(key)
    }

    /// With the deployments of a branch shown, or hidden.
    pub open spec fn branch_toggled(self, key: (Seq<char>, Seq<char>)) -> AppV {
        if self.open.contains(key) {
            (AppV { open: self.open.remove(key), ..self }).with_status("collapsed "@ + key.1)
        } else {
            let b = (AppV { open: self.open.insert(key), ..self }).with_status("expanded "@ + key.1);
            if self.jobs_due(key) {
                b.with_apps(
                    AppsV {
                        job_errors: self.apps.job_errors.remove(key),
                        pending_jobs: self.apps.pending_jobs.push(key),
                        ..self.apps
                    },
                )
            } else {
                b
            }
        }
    }

    /// With the deployments of the selected branch shown, or not any more; other
    /// rows stay as they are.
    pub open spec fn focus_toggled(self, now: Option<u64>) -> AppV {
        match self.selected_row(now) {
            Some(VisibleRow::Branch { app_id, branch_name }) => self.branch_toggled(
                (app_id@, branch_name@),
            ),
            _ => self,
        }
    }

    pub open spec fn focus_toggle_request(self, now: Option<u64>) -> Option<RequestV> {
        match self.selected_row(now) {
            Some(VisibleRow::Branch { app_id, branch_name }) => self.branch_request(
                (app_id@, branch_name@),
            ),
            _ => None,
        }
    }

    pub open spec fn branch_request(self, key: (Seq<char>, Seq<char>)) -> Option<RequestV> {
        if !self.open.contains(key) && self.jobs_due(key) {
            Some(RequestV::Jobs { app_id: key.0, branch_name: key.1 })
        } else {
            None
        }
    }

    /// With the first `n` of the apps at some places shown with their branches.
    pub open spec fn expanded_to(self, places: Seq<int>, n: int) -> AppsV
        decreases n,
    {
        if n <= 0 {
            self.apps
        } else {
            let a = self.expanded_to(places, n - 1);
            let id = self.apps.items[places[n - 1]].app_id@;
            let due = !a.expanded.contains(id) && !a.branches.dom().contains(id)
                && !a.pending_branches.contains(id);
            AppsV {
                expanded: a.expanded.insert(id),
                pending_branches: if due {
                    a.pending_branches.insert(id)
                } else {
                    a.pending_branches
                },
                ..a
            }
        }
    }

    pub open spec fn expand_requests(self, places: Seq<int>, n: int) -> Seq<RequestV>
        decreases n,
    {
        if n <= 0 {
            Seq::empty()
        } else {
            let a = self.expanded_to(places, n - 1);
            let id = self.apps.items[places[n - 1]].app_id@;
            let rest = self.expand_requests(places, n - 1);
            if !a.expanded.contains(id) && !a.branches.dom().contains(id)
                && !a.pending_branches.contains(id) {
                rest.push(RequestV::Branches { app_id: id })
            } else {
                rest
            }
        }
    }

    /// With all apps shown with their branches.
    pub open spec fn all_expanded(self) -> AppV {
        let places = shown_places(self, self.apps.items.len() as int);
        self.with_apps(self.expanded_to(places, places.len() as int)).with_status(
            "expanded "@ + numeral::decimal(places.len()) + " apps"@,
        )
    }

    pub open spec fn all_requests(self) -> Seq<RequestV> {
        let places = shown_places(self, self.apps.items.len() as int);
        self.expand_requests(places, places.len() as int)
    }

    /// With no app shown with its branches.
    pub open spec fn all_collapsed(self) -> AppV {
        let n = if self.shown_count() > 1 {
            self.shown_count()
        } else {
            1
        };
        self.with_apps(
            AppsV {
                expanded: Set::empty(),
                selected: held(self.apps.selected, n),
                ..self.apps
            },
        ).with_status("collapsed all"@)
    }

    /// With the history of a branch shown: first what is known, until all
    /// deployments have come.
    pub open spec fn history_opened(self, key: (Seq<char>, Seq<char>)) -> AppV {
        let jobs = if self.apps.jobs.dom().contains(key) {
            self.apps.jobs[key]@
        } else {
            Seq::empty()
        };
        AppV {
            history: Some(
                HistoryV {
                    app_id: key.0,
                    app_name: name_of(self.apps.items, key.0),
                    branch_name: key.1,
                    loading: jobs.len() == 0,
                    pending: true,
                    jobs,
                    selected: 0,
                    scroll: 0,
                    error: None,
                },
            ),
            status: "deployments · "@ + key.1,
            ..self
        }
    }

    /// With the logs of a job shown, once they come.
    pub open spec fn logs_opened(
        self,
        branch_name: Seq<char>,
        job_id: Seq<char>,
        message: Option<Seq<char>>,
    ) -> AppV {
        AppV {
            logs: Some(
                LogsV {
                    branch_name,
                    job_id: Some(job_id),
                    commit_message: message,
                    loading_detail: true,
                    pending_detail: true,
                    pending_logs: 0,
                    steps: Seq::empty(),
                    error: None,
                    scroll: 0,
                },
            ),
            status: "fetching logs for "@ + branch_name + " #"@ + job_id + "…"@,
            ..self
        }
    }

    /// With the logs of a job of the list shown.
    pub open spec fn job_logs_opened(self, key: (Seq<char>, Seq<char>), job_id: Seq<char>) -> AppV {
        self.logs_opened(
            key.1,
            job_id,
            if self.apps.jobs.dom().contains(key) {
                message_of(self.apps.jobs[key]@, job_id)
            } else {
                None
            },
        )
    }

    /// What Enter does on the selected row: an app is shown with its branches or
    /// without, of a branch the history is shown, of a deployment the logs.
    pub open spec fn entered(self, now: Option<u64>) -> AppV {
        match self.selected_row(now) {
            None => self.with_status("nothing under cursor"@),
            Some(VisibleRow::AppHeader { items_index, expanded }) => self.expand_toggled(
                items_index as int,
            ),
            Some(VisibleRow::Branch { app_id, branch_name }) => self.history_opened(
                (app_id@, branch_name@),
            ),
            Some(VisibleRow::Deployment { app_id, branch_name, job_id }) => self.job_logs_opened(
                (app_id@, branch_name@),
                job_id@,
            ),
        }
    }

    pub open spec fn enter_request(self, now: Option<u64>) -> Option<RequestV> {
        match self.selected_row(now) {
            None => None,
            Some(VisibleRow::AppHeader { items_index, expanded }) => self.expand_request(
                items_index as int,
            ),
            Some(VisibleRow::Branch { app_id, branch_name }) => Some(
                RequestV::History { app_id: app_id@, branch_name: branch_name@ },
            ),
            Some(VisibleRow::Deployment { app_id, branch_name, job_id }) => Some(
                RequestV::Detail { app_id: app_id@, branch_name: branch_name@, job_id: job_id@ },
            ),
        }
    }

    /// What the right arrow does: what is hidden below the selected row is shown.
    pub open spec fn focus_expanded(self, now: Option<u64>) -> AppV {
        match self.selected_row(now) {
            Some(VisibleRow::AppHeader { items_index, expanded }) => if expanded {
                self
            } else {
                self.expand_toggled(items_index as int)
            },
            Some(VisibleRow::Branch { app_id, branch_name }) => if self.open.contains(
                (app_id@, branch_name@),
            ) {
                self
            } else {
                self.branch_toggled((app_id@, branch_name@))
            },
            _ => self,
        }
    }

    pub open spec fn focus_expand_request(self, now: Option<u64>) -> Option<RequestV> {
        match self.selected_row(now) {
            Some(VisibleRow::AppHeader { items_index, expanded }) => if expanded {
                None
            } else {
                self.expand_request(items_index as int)
            },
            Some(VisibleRow::Branch { app_id, branch_name }) => self.branch_request(
                (app_id@, branch_name@),
            ),
            _ => None,
        }
    }

    /// What the left arrow does: what is shown below the selected row is hidden;
    /// where nothing is, the selection goes up to the row above in the tree.
    pub open spec fn focus_collapsed(self, now: Option<u64>) -> AppV {
        let sel = self.apps.selected;
        match self.selected_row(now) {
            Some(VisibleRow::AppHeader { items_index, expanded }) => if expanded {
                self.expand_toggled(items_index as int)
            } else {
                self
            },
            Some(VisibleRow::Branch { app_id, branch_name }) => if self.open.contains(
                (app_id@, branch_name@),
            ) {
                self.branch_toggled((app_id@, branch_name@))
            } else {
                self.at_row(last_header(self.rows(now), self.apps.items, app_id@, sel, sel))
            },
            Some(VisibleRow::Deployment { app_id, branch_name, job_id }) => self.at_row(
                last_branch_row(self.rows(now), (app_id@, branch_name@), sel, sel),
            ),
            None => self,
        }
    }

    /// The page of the selected row in the console.
    pub open spec fn focused_url(self, now: Option<u64>) -> Option<Seq<char>> {
        let region = self.spec@.region;
        match self.selected_row(now) {
            None => None,
            Some(VisibleRow::AppHeader { items_index, expanded }) => Some(
                amplify::app_url(self.apps.items[items_index as int].app_id@, region),
            ),
            Some(VisibleRow::Branch { app_id, branch_name }) => Some(
                amplify::branch_url(app_id@, branch_name@, region),
            ),
            Some(VisibleRow::Deployment { app_id, branch_name, job_id }) => Some(
                amplify::branch_url(app_id@, branch_name@, region),
            ),
        }
    }

    /// The logs browser for the selected branch, or what the status says where
    /// there is none.
    pub open spec fn logs_launch(self, now: Option<u64>) -> Result<command::LaunchV, Seq<char>> {
        match self.selected_row(now) {
            None => Err("no row under cursor"@),
            Some(VisibleRow::AppHeader { items_index, expanded }) => Err(
                "L opens CloudWatch Logs — pick a branch row first"@,
            ),
            Some(VisibleRow::Branch { app_id, branch_name }) => self.branch_logs(app_id@, branch_name@),
            Some(VisibleRow::Deployment { app_id, branch_name, job_id }) => self.branch_logs(
                app_id@,
                branch_name@,
            ),
        }
    }

    pub open spec fn branch_logs(self, app_id: Seq<char>, branch: Seq<char>) -> Result<
        command::LaunchV,
        Seq<char>,
    > {
        let group = "/aws/amplify/"@ + app_id + "/"@ + branch;
        if self.has_jobs((app_id, branch)) {
            Ok(
                command::tail_launch(
                    group,
                    branch,
                    self.spec@.region,
                    "launched cloudwatch-logs → "@ + group,
                ),
            )
        } else {
            Err("no builds yet on `"@ + branch + "` — no CloudWatch log group"@)
        }
    }
}

proof fn lemma_branch_rows_no_header(a: AppV, app_id: String, brs: Seq<AmplifyBranch>, n: int)
    ensures
        forall|k: int|
            0 <= k < a.branch_rows(app_id, brs, n).len() ==> !(#[trigger] a.branch_rows(
                app_id,
                brs,
                n,
            )[k] is AppHeader),
    decreases n,
{
    if n > 0 {
        lemma_branch_rows_no_header(a, app_id, brs, n - 1);
        let rest = a.branch_rows(app_id, brs, n - 1);
        let all = a.branch_rows(app_id, brs, n);
        assert forall|k: int| 0 <= k < all.len() implies !(#[trigger] all[k] is AppHeader) by {
            if k < rest.len() {
                assert(all[k] == rest[k]);
            }
        }
    }
}

/// The header of an app tells where the app is.
pub proof fn lemma_headers_valid(a: AppV, n: int, now: Option<u64>)
    requires
        0 <= n <= app::ordered_places(a.apps.items, a.cfg.order).len(),
        a.apps.items.len() <= usize::MAX,
    ensures
        forall|k: int|
            0 <= k < a.rows_to(n, now).len() ==> (#[trigger] a.rows_to(
                n,
                now,
            )[k] matches VisibleRow::AppHeader { items_index, expanded } ==> items_index < a.apps.items.len()
                && expanded == a.apps.expanded.contains(a.apps.items[items_index as int].app_id@)),
    decreases n,
{
    if n > 0 {
        lemma_headers_valid(a, n - 1, now);
        app::lemma_ordered_in_range(a.apps.items, a.cfg.order);
        let place = app::ordered_places(a.apps.items, a.cfg.order)[n - 1];
        let rest = a.rows_to(n - 1, now);
        let more = a.app_rows(place, now);
        let id = a.apps.items[place].app_id;
        let brs = a.branches_of(id@, now);
        lemma_branch_rows_no_header(a, id, brs, brs.len() as int);
        let all = a.rows_to(n, now);
        assert forall|k: int| 0 <= k < all.len() implies (#[trigger] all[k] matches VisibleRow::AppHeader {
            items_index,
            expanded,
        } ==> items_index < a.apps.items.len() && expanded == a.apps.expanded.contains(
            a.apps.items[items_index as int].app_id@,
        )) by {
            if k < rest.len() {
                assert(all[k] == rest[k]);
            } else {
                assert(all[k] == more[k - rest.len()]);
                if k > rest.len() {
                    assert(more[k - rest.len()] == a.branch_rows(id, brs, brs.len() as int)[k - rest.len() - 1]);
                }
            }
        }
    }
}

fn is_busy(busy: &Vec<(String, String)>, app_id: &str, branch: &str) -> (r: bool)
    ensures
        r == app::pair_views(busy@).contains((app_id@, branch@)),
{
    let mut i: usize = 0;
    while i < busy.len()
        invariant
            i <= busy.len(),
            forall|k: int| 0 <= k < i ==> app::pair_views(busy@)[k] != (app_id@, branch@),
        decreases busy.len() - i,
    {
        if str_eq(busy[i].0.as_str(), app_id) && str_eq(busy[i].1.as_str(), branch) {
            assert(app::pair_views(busy@)[i as int] == (app_id@, branch@));
            return true;
        }
        i = i + 1;
    }
    false
}

/// All known branches, but for those whose jobs are on their way.
fn find_idle(a: &AppsTab) -> (r: Vec<(String, String)>)
    ensures
        exists|e: Seq<(String, Vec<AmplifyBranch>)>|
            {
                &&& table::distinct_keys(e)
                &&& table::entries_map(e) == a@.branches
                &&& #[trigger] idle_pairs(e, a@.pending_jobs) == app::pair_views(r@)
            },
{
    let e = a.branches_by_app.entries();
    let ghost all = e@;
    let ghost busy = a@.pending_jobs;
    let mut out: Vec<(String, String)> = Vec::new();
    let mut i: usize = 0;
    assert(all.take(0) =~= Seq::empty());
    assert(app::pair_views(out@) =~= Seq::empty());
    while i < e.len()
        invariant
            i <= e.len(),
            all == e@,
            busy == app::pair_views(a.pending_jobs@),
            app::pair_views(out@) == idle_pairs(all.take(i as int), busy),
        decreases e.len() - i,
    {
        assert(all.take(i + 1).drop_last() =~= all.take(i as int));
        assert(all.take(i + 1).last() == all[i as int]);
        let id = &e[i].0;
        let brs = &e[i].1;
        let ghost start = app::pair_views(out@);
        let mut b: usize = 0;
        assert(start + idle_branches(id@, brs@, 0, busy) =~= start);
        while b < brs.len()
            invariant
                b <= brs.len(),
                busy == app::pair_views(a.pending_jobs@),
                app::pair_views(out@) == start + idle_branches(id@, brs@, b as int, busy),
            decreases brs.len() - b,
        {
            let name = &brs[b].branch_name;
            if !is_busy(&a.pending_jobs, id.as_str(), name.as_str()) {
                let ghost before = app::pair_views(out@);
                out.push((id.clone(), name.clone()));
                assert(app::pair_views(out@) =~= before.push((id@, name@)));
                assert(app::pair_views(out@) =~= start + idle_branches(id@, brs@, b + 1, busy));
            }
            b = b + 1;
        }
        i = i + 1;
    }
    assert(all.take(all.len() as int) =~= all);
    assert(idle_pairs(all, a@.pending_jobs) == app::pair_views(out@));
    out
}

/// Copies of some pairs.
fn copy_pairs(v: &Vec<(String, String)>) -> (r: Vec<(String, String)>)
    ensures
        app::pair_views(r@) == app::pair_views(v@),
{
    let mut out: Vec<(String, String)> = Vec::new();
    let mut i: usize = 0;
    while i < v.len()
        invariant
            i <= v.len(),
            out.len() == i,
            forall|k: int| 0 <= k < i ==> (#[trigger] out@[k]).0@ == v@[k].0@ && out@[k].1@ == v@[k].1@,
        decreases v.len() - i,
    {
        out.push((v[i].0.clone(), v[i].1.clone()));
        i = i + 1;
    }
    assert(app::pair_views(out@) =~= app::pair_views(v@));
    out
}

/// Appends the requests for the jobs of some branches.
pub(crate) fn push_jobs_requests(requests: &mut Vec<Request>, pairs: &Vec<(String, String)>)
    ensures
        app::request_views(final(requests)@) == app::request_views(old(requests)@) + jobs_requests(
            app::pair_views(pairs@),
        ),
{
    let ghost start = app::request_views(requests@);
    let ghost all = jobs_requests(app::pair_views(pairs@));
    let mut i: usize = 0;
    assert(start + all.take(0) =~= start);
    while i < pairs.len()
        invariant
            i <= pairs.len(),
            all == jobs_requests(app::pair_views(pairs@)),
            app::request_views(requests@) == start + all.take(i as int),
        decreases pairs.len() - i,
    {
        let ghost before = app::request_views(requests@);
        requests.push(
            Request::Jobs { app_id: pairs[i].0.clone(), branch_name: pairs[i].1.clone() },
        );
        assert(app::request_views(requests@) =~= before.push(all[i as int]));
        assert(all.take(i + 1) =~= all.take(i as int).push(all[i as int]));
        assert(app::request_views(requests@) =~= start + all.take(i + 1));
        i = i + 1;
    }
    assert(all.take(pairs@.len() as int) =~= all);
}

fn one_request(r: Request) -> (v: Vec<Request>)
    ensures
        app::request_views(v@) == seq![r@],
{
    let v = vec![r];
    assert(app::request_views(v@) =~= seq![r@]);
    v
}

fn apps_named(tabs: &Vec<Tab>) -> (r: KeySet<String>)
    ensures
        r@ == named_apps(tabs@, tabs@.len() as int),
{
    let mut out: KeySet<String> = KeySet::new();
    let mut i: usize = 0;
    while i < tabs.len()
        invariant
            i <= tabs.len(),
            out@ == named_apps(tabs@, i as int),
        decreases tabs.len() - i,
    {
        if let Some(a) = &tabs[i].app_id {
            if str_eq(tabs[i].kind.as_str(), "app") {
                out.insert(a.clone());
            }
        }
        i = i + 1;
    }
    out
}

fn hold(selected: usize, n: usize) -> (r: usize)
    ensures
        r == held(selected as int, n as int),
{
    if selected >= n {
        if n > 0 {
            n - 1
        } else {
            0
        }
    } else {
        selected
    }
}

fn find_text(s: &Vec<String>, x: &str) -> (r: Option<usize>)
    ensures
        match r {
            Some(i) => first_place(s@, x@) == Some(i as int) && i < s.len(),
            None => first_place(s@, x@) is None,
        },
{
    let mut i: usize = 0;
    assert(s@.skip(0) =~= s@);
    while i < s.len()
        invariant
            i <= s.len(),
            match first_place(s@.skip(i as int), x@) {
                Some(k) => first_place(s@, x@) == Some(i + k),
                None => first_place(s@, x@) is None,
            },
        decreases s.len() - i,
    {
        assert(s@.skip(i as int).drop_first() =~= s@.skip(i + 1));
        if str_eq(s[i].as_str(), x) {
            return Some(i);
        }
        i = i + 1;
    }
    None
}

fn header_of(row: &VisibleRow, items: &Vec<AmplifyApp>, id: &str) -> (r: bool)
    ensures
        r == is_header_of(*row, items@, id@),
{
    match row {
        VisibleRow::AppHeader { items_index, expanded: _ } => *items_index < items.len() && str_eq(
            items[*items_index].app_id.as_str(),
            id,
        ),
        _ => false,
    }
}

fn find_header(rows: &Vec<VisibleRow>, items: &Vec<AmplifyApp>, id: &str) -> (r: Option<usize>)
    ensures
        match r {
            Some(i) => first_header(rows@, items@, id@) == Some(i as int),
            None => first_header(rows@, items@, id@) is None,
        },
{
    let mut i: usize = 0;
    assert(rows@.skip(0) =~= rows@);
    while i < rows.len()
        invariant
            i <= rows.len(),
            match first_header(rows@.skip(i as int), items@, id@) {
                Some(k) => first_header(rows@, items@, id@) == Some(i + k),
                None => first_header(rows@, items@, id@) is None,
            },
        decreases rows.len() - i,
    {
        assert(rows@.skip(i as int).drop_first() =~= rows@.skip(i + 1));
        if header_of(&rows[i], items, id) {
            return Some(i);
        }
        i = i + 1;
    }
    None
}

fn find_name(items: &Vec<AmplifyApp>, id: &str) -> (r: String)
    ensures
        r@ == name_of(items@, id@),
{
    let mut i: usize = 0;
    assert(items@.skip(0) =~= items@);
    while i < items.len()
        invariant
            i <= items.len(),
            name_of(items@, id@) == name_of(items@.skip(i as int), id@),
        decreases items.len() - i,
    {
        assert(items@.skip(i as int).drop_first() =~= items@.skip(i + 1));
        if str_eq(items[i].app_id.as_str(), id) {
            return items[i].name.clone();
        }
        i = i + 1;
    }
    owned(id)
}

fn find_message(jobs: &Vec<AmplifyJob>, job_id: &str) -> (r: Option<String>)
    ensures
        text::opt_view(r) == message_of(jobs@, job_id@),
{
    let mut i: usize = 0;
    assert(jobs@.skip(0) =~= jobs@);
    while i < jobs.len()
        invariant
            i <= jobs.len(),
            message_of(jobs@, job_id@) == message_of(jobs@.skip(i as int), job_id@),
        decreases jobs.len() - i,
    {
        assert(jobs@.skip(i as int).drop_first() =~= jobs@.skip(i + 1));
        if str_eq(jobs[i].job_id.as_str(), job_id) {
            return same_text(&jobs[i].commit_message);
        }
        i = i + 1;
    }
    None
}

impl App {
    /// The header of an app tells where the app is.
    pub(crate) proof fn lemma_rows_valid(&self, now: Option<u64>)
        ensures
            forall|k: int|
                0 <= k < self@.rows(now).len() ==> (#[trigger] self@.rows(
                    now,
                )[k] matches VisibleRow::AppHeader { items_index, expanded } ==> items_index
                    < self@.apps.items.len() && expanded == self@.apps.expanded.contains(
                    self@.apps.items[items_index as int].app_id@,
                )),
    {
        let v = self@;
        assert(self.list().items.len() == v.apps.items.len());
        lemma_headers_valid(v, app::ordered_places(v.apps.items, v.cfg.order).len() as int, now);
    }
}

impl AppTab {
    /// Asks for the branches of the app anew.
    pub fn begin_refresh(&mut self, spec: &TabSpec) -> (r: Request)
        ensures
            r@ == (RequestV::Branches {
                app_id: match spec.app_id {
                    Some(a) => a@,
                    None => Seq::empty(),
                },
            }),
            *final(self) == (AppTab { loading: true, last_error: None, pending: true, ..*old(self) }),
    {
        self.loading = true;
        self.last_error = None;
        self.pending = true;
        Request::Branches {
            app_id: match &spec.app_id {
                Some(a) => a.clone(),
                None => String::new(),
            },
        }
    }
}

impl App {
    /// A browser that has just asked for the apps. The apps that have a tab in
    /// the settings are shown with their branches.
    pub fn new(cfg: Config) -> (r: (App, Vec<Request>))
        ensures
            r.0.wf(),
            app::request_views(r.1@) == seq![RequestV::Apps],
            r.0.cfg == cfg,
            r.0@.name@ == "All apps"@,
            r.0@.spec == (TabSpec { kind: TabKind::Apps, region: cfg.region, app_id: None }),
            r.0@.apps == (AppsV {
                loading: true,
                pending: true,
                expanded: named_apps(cfg.tabs@, cfg.tabs@.len() as int),
                ..app::no_apps()
            }),
            r.0@.status == "refreshing All apps…"@,
            r.0@.logs is None,
            r.0@.history is None,
            r.0@.open == Set::<(Seq<char>, Seq<char>)>::empty(),
    {
        let mut list = AppsTab::empty();
        list.expanded = apps_named(&cfg.tabs);
        let tab = TabState {
            name: owned("All apps"),
            spec: TabSpec { kind: TabKind::Apps, region: same_text(&cfg.region), app_id: None },
            data: TabData::Apps(list),
        };
        let mut app = App {
            cfg,
            tabs: vec![tab],
            active_tab: 0,
            status: String::new(),
            logs_view: None,
            deployment_history: None,
            expanded_branches: KeySet::new(),
        };
        let ghost before = app@;
        let requests = app.refresh_active();
        proof {
            let e = choose|e: Seq<(String, Vec<AmplifyBranch>)>|
                {
                    &&& lists_branches(e, before)
                    &&& #[trigger] before.refreshed(e) == app@
                    &&& before.refresh_requests(e) == app::request_views(requests@)
                };
            lemma_nothing_listed(e);
            assert(idle_pairs(e, before.apps.pending_jobs) =~= Seq::empty());
            assert(app::request_views(requests@) =~= seq![RequestV::Apps]);
            reveal_strlit("refreshing ");
            reveal_strlit("All apps");
            reveal_strlit("…");
            reveal_strlit("refreshing All apps…");
            assert("refreshing "@ + "All apps"@ + "…"@ =~= "refreshing All apps…"@);
            assert(app@.apps =~= AppsV {
                loading: true,
                pending: true,
                expanded: named_apps(cfg.tabs@, cfg.tabs@.len() as int),
                ..app::no_apps()
            });
        }
        (app, requests)
    }

    /// Whether everything is to be asked for anew, after `idle` seconds without a
    /// key, the mouse or a refresh.
    pub fn refresh_due(&self, idle: u64) -> (r: bool)
        ensures
            r == (self.cfg.refresh_interval_secs > 0 && idle >= self.cfg.refresh_interval_secs),
    {
        self.cfg.refresh_interval_secs > 0 && idle >= self.cfg.refresh_interval_secs
    }

    /// Asks for everything anew. In which order the apps of the known branches
    /// come is left open.
    pub fn refresh_active(&mut self) -> (r: Vec<Request>)
        requires
            old(self).wf(),
        ensures
            final(self).wf(),
            final(self).cfg == old(self).cfg,
            exists|e: Seq<(String, Vec<AmplifyBranch>)>|
                {
                    &&& lists_branches(e, old(self)@)
                    &&& #[trigger] old(self)@.refreshed(e) == final(self)@
                    &&& old(self)@.refresh_requests(e) == app::request_views(r@)
                },
    {
        let ghost v = self@;
        self.status = cat3("refreshing ", self.tabs[0].name.as_str(), "…");
        let idle = find_idle(self.apps());
        let mut requests = one_request(Request::Apps);
        push_jobs_requests(&mut requests, &idle);
        let ghost e = choose|e: Seq<(String, Vec<AmplifyBranch>)>|
            {
                &&& table::distinct_keys(e)
                &&& table::entries_map(e) == v.apps.branches
                &&& #[trigger] idle_pairs(e, v.apps.pending_jobs) == app::pair_views(idle@)
            };
        let mut more = copy_pairs(&idle);
        let a = self.apps_mut();
        a.loading = true;
        a.last_error = None;
        a.pending = true;
        a.pending_jobs.append(&mut more);
        assert(self@.apps.pending_jobs =~= v.apps.pending_jobs + idle_pairs(e, v.apps.pending_jobs));
        assert(lists_branches(e, v));
        assert(v.refreshed(e) =~= self@);
        requests
    }

    /// Shows a tab and asks for everything anew, if there is such a tab.
    pub fn switch_tab(&mut self, idx: usize) -> (r: Vec<Request>)
        requires
            old(self).wf(),
        ensures
            final(self).wf(),
            final(self).cfg == old(self).cfg,
            idx > 0 ==> final(self)@ == old(self)@ && r@ == Seq::<Request>::empty(),
            idx == 0 ==> exists|e: Seq<(String, Vec<AmplifyBranch>)>|
                {
                    &&& lists_branches(e, old(self)@)
                    &&& #[trigger] old(self)@.refreshed(e) == final(self)@
                    &&& old(self)@.refresh_requests(e) == app::request_views(r@)
                },
    {
        if idx < self.tabs.len() {
            self.active_tab = idx;
            self.refresh_active()
        } else {
            Vec::new()
        }
    }

    /// The app whose header is selected, with its place.
    pub fn focused_app(&self, now: Option<u64>) -> (r: Option<(usize, &AmplifyApp)>)
        requires
            self.wf(),
        ensures
            match r {
                Some((i, app)) => self@.focused(now) == Some(i as int) && i < self@.apps.items.len()
                    && self@.apps.items[i as int] == *app,
                None => self@.focused(now) is None,
            },
    {
        proof {
            self.lemma_rows_valid(now);
        }
        match self.selected_row(now) {
            Some(VisibleRow::AppHeader { items_index, expanded: _ }) => Some(
                (items_index, &self.apps().items[items_index]),
            ),
            _ => None,
        }
    }

    /// How many rows there are.
    fn apps_visible_len(&self, now: Option<u64>) -> (r: usize)
        requires
            self.wf(),
        ensures
            r == self@.rows(now).len(),
    {
        self.visible_rows_at(now).len()
    }

    /// How many apps are shown.
    fn shown_len(&self) -> (r: usize)
        requires
            self.wf(),
        ensures
            r == self@.shown_count(),
    {
        let a = self.apps();
        let ghost v = self@;
        let mut n: usize = 0;
        let mut i: usize = 0;
        while i < a.items.len()
            invariant
                i <= a.items.len(),
                self.wf(),
                v == self@,
                *a == self.list(),
                n == shown_places(v, i as int).len(),
                n <= i,
            decreases a.items.len() - i,
        {
            if self.is_shown(a.items[i].app_id.as_str()) {
                n = n + 1;
            }
            i = i + 1;
        }
        n
    }

    /// Shows all apps again. The settings are to be saved.
    pub fn unhide_all(&mut self) -> (r: Option<Saving>)
        requires
            old(self).wf(),
        ensures
            final(self).wf(),
            final(self)@ == old(self)@.unhidden(),
            app::opt_saving(r) == old(self)@.unhide_saving(),
    {
        let n: usize = self.cfg.hidden_app_ids.len();
        if n == 0 {
            self.say("no hidden apps to restore");
            return None;
        }
        self.cfg.hidden_app_ids = Vec::new();
        let a = self.apps_mut();
        a.show_hidden = false;
        let d = dec_size(n);
        assert(self@ =~= old(self)@.unhidden());
        Some(
            Saving {
                done: cat3("restored ", d.as_str(), " previously-hidden apps"),
                failed: cat3("restored ", d.as_str(), " apps in memory (save failed: "),
            },
        )
    }

    /// Hides the selected app, or shows it again. The settings are to be saved.
    pub fn toggle_hide_selected(&mut self, now: Option<u64>) -> (r: Option<Saving>)
        requires
            old(self).wf(),
        ensures
            final(self).wf(),
            final(self)@ == old(self)@.hide_toggled(now),
            app::opt_saving(r) == old(self)@.hide_saving(now),
    {
        let ghost v = self@;
        let (id, name) = match self.focused_app(now) {
            Some((_, app)) => (app.app_id.clone(), app.name.clone()),
            None => {
                self.say("no app selected to hide");
                return None;
            },
        };
        let was_hidden = is_among(&self.cfg.hidden_app_ids, id.as_str());
        if was_hidden {
            self.cfg.hidden_app_ids = take_away(&self.cfg.hidden_app_ids, id.as_str());
        } else {
            self.cfg.hidden_app_ids.push(id);
        }
        let ghost b = self@;
        assert(b =~= if was_hidden {
            v.with_hidden(without(v.cfg.hidden, id@))
        } else {
            v.with_hidden(v.cfg.hidden.push(id))
        });
        let n: usize = self.apps_visible_len(now);
        let i: usize = hold(self.selected_index(), n);
        self.select(i);
        Some(
            Saving {
                done: if was_hidden {
                    cat3("unhidden ", name.as_str(), "  (H to show/hide the hidden view)")
                } else {
                    cat3("hidden ", name.as_str(), "  (H to see hidden, `x` to unhide)")
                },
                failed: owned("hide toggled in memory (save failed: "),
            },
        )
    }

    /// Notes how saving the settings went.
    pub fn saved(&mut self, s: &Saving, result: &Result<(), String>)
        requires
            old(self).wf(),
        ensures
            final(self).wf(),
            final(self)@ == old(self)@.with_status(
                match *result {
                    Ok(_) => s.done@,
                    Err(e) => s.failed@ + e@ + ")"@,
                },
            ),
    {
        self.status = match result {
            Ok(_) => s.done.clone(),
            Err(e) => cat3(s.failed.as_str(), e.as_str(), ")"),
        };
    }

    /// Shows hidden apps too, or not any more.
    pub fn toggle_show_hidden(&mut self)
        requires
            old(self).wf(),
        ensures
            final(self).wf(),
            final(self)@ == old(self)@.show_toggled(),
    {
        let was = self.apps().show_hidden;
        self.status = if was {
            owned("show-hidden OFF  (hidden apps filtered)")
        } else {
            owned("show-hidden ON  (hidden apps appear dimmed; `x` to unhide)")
        };
        let a = self.apps_mut();
        a.show_hidden = !was;
        a.selected = 0;
    }
}

/// The places of fewer apps come first.
proof fn lemma_shown_prefix(a: AppV, i: int, n: int)
    requires
        0 <= i <= n,
    ensures
        shown_places(a, i).len() <= shown_places(a, n).len(),
        forall|k: int|
            0 <= k < shown_places(a, i).len() ==> #[trigger] shown_places(a, i)[k] == shown_places(a, n)[k],
    decreases n - i,
{
    if i < n {
        lemma_shown_prefix(a, i, n - 1);
        assert forall|k: int| 0 <= k < shown_places(a, i).len() implies #[trigger] shown_places(a, i)[k]
            == shown_places(a, n)[k] by {
            assert(shown_places(a, i)[k] == shown_places(a, n - 1)[k]);
        }
    }
}

proof fn lemma_nothing_listed(e: Seq<(String, Vec<AmplifyBranch>)>)
    requires
        table::entries_map(e) == Map::<Seq<char>, Vec<AmplifyBranch>>::empty(),
    ensures
        e.len() == 0,
{
    if e.len() > 0 {
        let k = e.last().0@;
        assert(table::place(e, k) >= 0);
        assert(table::entries_map(e).dom().contains(k));
    }
}

fn take_away(s: &Vec<String>, x: &str) -> (r: Vec<String>)
    ensures
        r@ == without(s@, x@),
{
    let mut out: Vec<String> = Vec::new();
    let mut i: usize = 0;
    assert(s@.take(0) =~= Seq::empty());
    while i < s.len()
        invariant
            i <= s.len(),
            out@ == without(s@.take(i as int), x@),
        decreases s.len() - i,
    {
        assert(s@.take(i + 1).drop_last() =~= s@.take(i as int));
        if !str_eq(s[i].as_str(), x) {
            out.push(s[i].clone());
        }
        i = i + 1;
    }
    assert(s@.take(s@.len() as int) =~= s@);
    out
}

impl App {
    /// Moves the selected app up in the order. The settings are to be saved.
    pub fn move_app_up(&mut self, now: Option<u64>) -> (r: Option<Saving>)
        requires
            old(self).wf(),
        ensures
            final(self).wf(),
            final(self)@ == old(self)@.app_moved(-1, now),
            app::opt_saving(r) == old(self)@.move_saving(-1, now),
    {
        self.move_app_in_order(false, now)
    }

    /// Moves the selected app down in the order. The settings are to be saved.
    pub fn move_app_down(&mut self, now: Option<u64>) -> (r: Option<Saving>)
        requires
            old(self).wf(),
        ensures
            final(self).wf(),
            final(self)@ == old(self)@.app_moved(1, now),
            app::opt_saving(r) == old(self)@.move_saving(1, now),
    {
        self.move_app_in_order(true, now)
    }

    /// The ids of the apps in the order that the user sees.
    fn order_seen(&self) -> (r: Vec<String>)
        requires
            self.wf(),
        ensures
            r@ == self@.order_seen(),
    {
        let a = self.apps();
        let ghost v = self@;
        let places = self.ordered_items_indices();
        let ghost all = app::ordered_places(v.apps.items, v.cfg.order);
        proof {
            app::lemma_ordered_in_range(v.apps.items, v.cfg.order);
        }
        let mut out: Vec<String> = Vec::new();
        let mut k: usize = 0;
        assert(all.take(0) =~= Seq::empty());
        while k < places.len()
            invariant
                k <= places.len(),
                self.wf(),
                v == self@,
                *a == self.list(),
                app::ints(places@) == all,
                forall|j: int| 0 <= j < all.len() ==> 0 <= #[trigger] all[j] < v.apps.items.len(),
                out@ == shown_ids(v, all.take(k as int)),
            decreases places.len() - k,
        {
            let i: usize = places[k];
            assert(all[k as int] == i as int);
            assert(all.take(k + 1).drop_last() =~= all.take(k as int));
            assert(all.take(k + 1).last() == i as int);
            if self.is_shown(a.items[i].app_id.as_str()) {
                out.push(a.items[i].app_id.clone());
            }
            k = k + 1;
        }
        assert(all.take(all.len() as int) =~= all);
        out
    }

    fn move_app_in_order(&mut self, down: bool, now: Option<u64>) -> (r: Option<Saving>)
        requires
            old(self).wf(),
        ensures
            final(self).wf(),
            final(self)@ == old(self)@.app_moved(
                if down {
                    1
                } else {
                    -1
                },
                now,
            ),
            app::opt_saving(r) == old(self)@.move_saving(
                if down {
                    1
                } else {
                    -1
                },
                now,
            ),
    {
        let ghost v = self@;
        proof {
            self.lemma_rows_valid(now);
        }
        let items_index: usize = match self.selected_row(now) {
            Some(row) => match row {
                VisibleRow::AppHeader { items_index, expanded: _ } => items_index,
                _ => {
                    self.say("reorder is only on an app header row");
                    return None;
                },
            },
            None => {
                self.say("reorder is only on an app header row");
                return None;
            },
        };
        let id = self.apps().items[items_index].app_id.clone();
        let name = self.apps().items[items_index].name.clone();
        let mut seen = self.order_seen();
        let ghost before = seen@;
        let pos: usize = match find_text(&seen, id.as_str()) {
            Some(p) => p,
            None => {
                return None;
            },
        };
        if down {
            if pos + 1 >= seen.len() {
                return None;
            }
        } else if pos == 0 {
            return None;
        }
        let other: usize = if down { pos + 1 } else { pos - 1 };
        let x = seen[pos].clone();
        let y = seen[other].clone();
        seen.set(pos, y);
        seen.set(other, x);
        assert(seen@ =~= before.update(pos as int, before[other as int]).update(
            other as int,
            before[pos as int],
        ));
        self.cfg.app_order = seen;
        let rows = self.visible_rows_at(now);
        let found: Option<usize> = find_header(&rows, &self.apps().items, id.as_str());
        if let Some(i) = found {
            self.select(i);
        }
        Some(
            Saving {
                done: cat4("moved ", name.as_str(), " ", if down { "down" } else { "up" }),
                failed: cat3("reordered ", name.as_str(), " in memory (save failed: "),
            },
        )
    }

    /// Shows the app at place `items_index` with its branches, or without.
    fn toggle_expand(&mut self, items_index: usize) -> (r: Option<Request>)
        requires
            old(self).wf(),
            items_index < old(self)@.apps.items.len(),
        ensures
            final(self).wf(),
            final(self)@ == old(self)@.expand_toggled(items_index as int),
            app::opt_request(r) == old(self)@.expand_request(items_index as int),
    {
        let id = self.apps().items[items_index].app_id.clone();
        let name = self.apps().items[items_index].name.clone();
        if self.apps().expanded.contains(&id) {
            let a = self.apps_mut();
            a.expanded.remove(&id);
            self.status = cat2("collapsed ", name.as_str());
            return None;
        }
        let due = !self.apps().branches_by_app.contains(&id) && !self.apps().pending_branches.contains(&id);
        let a = self.apps_mut();
        a.expanded.insert(id.clone());
        if due {
            a.pending_branches.insert(id.clone());
            self.status = cat3("expanded ", name.as_str(), " — loading branches…");
            Some(Request::Branches { app_id: id })
        } else {
            self.status = cat2("expanded ", name.as_str());
            None
        }
    }

    /// Shows the deployments of a branch, or hides them.
    pub fn toggle_branch_expand(&mut self, app_id: &str, branch_name: &str) -> (r: Option<Request>)
        requires
            old(self).wf(),
        ensures
            final(self).wf(),
            final(self)@ == old(self)@.branch_toggled((app_id@, branch_name@)),
            app::opt_request(r) == old(self)@.branch_request((app_id@, branch_name@)),
    {
        let key = (owned(app_id), owned(branch_name));
        if self.expanded_branches.contains(&key) {
            self.expanded_branches.remove(&key);
            self.status = cat2("collapsed ", branch_name);
            return None;
        }
        let has_data = match self.apps().jobs_by_key.get(&key) {
            Some(v) => v.len() > 0,
            None => false,
        };
        let busy = is_busy(&self.apps().pending_jobs, app_id, branch_name);
        self.expanded_branches.insert((owned(app_id), owned(branch_name)));
        self.status = cat2("expanded ", branch_name);
        if has_data || busy {
            return None;
        }
        let ghost pending = old(self)@.apps.pending_jobs;
        let a = self.apps_mut();
        a.jobs_error_by_key.remove(&key);
        a.pending_jobs.push((owned(app_id), owned(branch_name)));
        assert(self@.apps.pending_jobs =~= pending.push((app_id@, branch_name@)));
        Some(Request::Jobs { app_id: owned(app_id), branch_name: owned(branch_name) })
    }

    /// Shows the deployments of the selected branch, or hides them.
    pub fn toggle_branch_expand_selected(&mut self, now: Option<u64>) -> (r: Option<Request>)
        requires
            old(self).wf(),
        ensures
            final(self).wf(),
            final(self)@ == old(self)@.focus_toggled(now),
            app::opt_request(r) == old(self)@.focus_toggle_request(now),
    {
        match self.selected_row(now) {
            Some(row) => match row {
                VisibleRow::Branch { app_id, branch_name } => self.toggle_branch_expand(
                    app_id.as_str(),
                    branch_name.as_str(),
                ),
                _ => None,
            },
            None => None,
        }
    }

    /// Shows all apps with their branches.
    pub fn expand_all(&mut self) -> (r: Vec<Request>)
        requires
            old(self).wf(),
        ensures
            final(self).wf(),
            final(self)@ == old(self)@.all_expanded(),
            app::request_views(r@) == old(self)@.all_requests(),
    {
        let ghost v = self@;
        let ghost places = shown_places(v, v.apps.items.len() as int);
        let mut requests: Vec<Request> = Vec::new();
        let mut n: usize = 0;
        let mut i: usize = 0;
        let total: usize = self.apps().items.len();
        assert(app::request_views(requests@) =~= Seq::empty());
        while i < total
            invariant
                i <= total,
                n <= i,
                self.wf(),
                total == v.apps.items.len(),
                v == old(self)@,
                places == shown_places(v, v.apps.items.len() as int),
                n == shown_places(v, i as int).len(),
                self@ == v.with_apps(v.expanded_to(places, n as int)),
                self@.apps.items == v.apps.items,
                self@.apps.branches == v.apps.branches,
                self@.apps.show_hidden == v.apps.show_hidden,
                app::request_views(requests@) == v.expand_requests(places, n as int),
            decreases total - i,
        {
            let id = self.apps().items[i].app_id.clone();
            assert(self@.cfg == v.cfg);
            let visible = self.is_shown(id.as_str());
            assert(visible == v.shown(v.apps.items[i as int]));
            if visible {
                proof {
                    lemma_shown_prefix(v, i + 1, v.apps.items.len() as int);
                    assert(shown_places(v, i + 1)[n as int] == i);
                    assert(places[n as int] == i);
                }
                let due = !self.apps().expanded.contains(&id) && !self.apps().branches_by_app.contains(&id)
                    && !self.apps().pending_branches.contains(&id);
                let a = self.apps_mut();
                a.expanded.insert(id.clone());
                if due {
                    a.pending_branches.insert(id.clone());
                    let ghost before = app::request_views(requests@);
                    requests.push(Request::Branches { app_id: id });
                    assert(app::request_views(requests@) =~= before.push(
                        RequestV::Branches { app_id: v.apps.items[i as int].app_id@ },
                    ));
                }
                n = n + 1;
                assert(self@ =~= v.with_apps(v.expanded_to(places, n as int)));
            }
            i = i + 1;
        }
        self.status = cat3("expanded ", dec_size(n).as_str(), " apps");
        requests
    }

    /// Shows no app with its branches.
    pub fn collapse_all(&mut self)
        requires
            old(self).wf(),
        ensures
            final(self).wf(),
            final(self)@ == old(self)@.all_collapsed(),
    {
        let count: usize = self.shown_len();
        let n: usize = if count > 1 { count } else { 1 };
        let a = self.apps_mut();
        a.expanded.clear();
        a.selected = hold(a.selected, n);
        self.status = owned("collapsed all");
    }

    /// Does what Enter does on the selected row.
    pub fn enter_focused(&mut self, now: Option<u64>) -> (r: Option<Request>)
        requires
            old(self).wf(),
        ensures
            final(self).wf(),
            final(self)@ == old(self)@.entered(now),
            app::opt_request(r) == old(self)@.enter_request(now),
    {
        let ghost v = self@;
        proof {
            self.lemma_rows_valid(now);
        }
        match self.selected_row(now) {
            Some(row) => match row {
                VisibleRow::AppHeader { items_index, expanded: _ } => self.toggle_expand(items_index),
                VisibleRow::Branch { app_id, branch_name } => Some(
                    self.open_deployment_history(app_id.as_str(), branch_name.as_str()),
                ),
                VisibleRow::Deployment { app_id, branch_name, job_id } => Some(
                    self.open_logs_for_job(app_id.as_str(), branch_name.as_str(), job_id.as_str()),
                ),
            },
            None => {
                self.say("nothing under cursor");
                None
            },
        }
    }

    /// Shows what is hidden below the selected row.
    pub fn expand_focused(&mut self, now: Option<u64>) -> (r: Option<Request>)
        requires
            old(self).wf(),
        ensures
            final(self).wf(),
            final(self)@ == old(self)@.focus_expanded(now),
            app::opt_request(r) == old(self)@.focus_expand_request(now),
    {
        let ghost v = self@;
        proof {
            self.lemma_rows_valid(now);
        }
        match self.selected_row(now) {
            Some(row) => match row {
                VisibleRow::AppHeader { items_index, expanded } => {
                    if expanded {
                        None
                    } else {
                        self.toggle_expand(items_index)
                    }
                },
                VisibleRow::Branch { app_id, branch_name } => {
                    let key = (app_id.clone(), branch_name.clone());
                    if self.expanded_branches.contains(&key) {
                        None
                    } else {
                        self.toggle_branch_expand(app_id.as_str(), branch_name.as_str())
                    }
                },
                VisibleRow::Deployment { app_id: _, branch_name: _, job_id: _ } => None,
            },
            None => None,
        }
    }

    /// Hides what is shown below the selected row, or goes up in the tree.
    pub fn collapse_focused(&mut self, now: Option<u64>)
        requires
            old(self).wf(),
        ensures
            final(self).wf(),
            final(self)@ == old(self)@.focus_collapsed(now),
    {
        let ghost v = self@;
        proof {
            self.lemma_rows_valid(now);
        }
        let rows = self.visible_rows_at(now);
        let sel: usize = self.selected_index();
        if sel >= rows.len() {
            return;
        }
        match rows[sel].copy() {
            VisibleRow::AppHeader { items_index, expanded } => {
                if expanded {
                    let _ = self.toggle_expand(items_index);
                }
            },
            VisibleRow::Branch { app_id, branch_name } => {
                let key = (app_id.clone(), branch_name.clone());
                if self.expanded_branches.contains(&key) {
                    let _ = self.toggle_branch_expand(app_id.as_str(), branch_name.as_str());
                    return;
                }
                let mut i: usize = sel;
                while i > 0 && !header_of(&rows[i - 1], &self.apps().items, app_id.as_str())
                    invariant
                        i <= sel < rows.len(),
                        self.wf(),
                        self@ == v,
                        last_header(rows@, v.apps.items, app_id@, sel as int, sel as int) == last_header(
                            rows@,
                            v.apps.items,
                            app_id@,
                            i as int,
                            sel as int,
                        ),
                    decreases i,
                {
                    i = i - 1;
                }
                self.select(if i > 0 { i - 1 } else { sel });
            },
            VisibleRow::Deployment { app_id, branch_name, job_id: _ } => {
                let ghost key = (app_id@, branch_name@);
                let mut i: usize = sel;
                while i > 0 && !branch_row(&rows[i - 1], app_id.as_str(), branch_name.as_str())
                    invariant
                        i <= sel < rows.len(),
                        key == (app_id@, branch_name@),
                        last_branch_row(rows@, key, sel as int, sel as int) == last_branch_row(
                            rows@,
                            key,
                            i as int,
                            sel as int,
                        ),
                    decreases i,
                {
                    i = i - 1;
                }
                self.select(if i > 0 { i - 1 } else { sel });
            },
        }
    }

    /// Shows the history of a branch and asks for all its deployments.
    fn open_deployment_history(&mut self, app_id: &str, branch_name: &str) -> (r: Request)
        requires
            old(self).wf(),
        ensures
            final(self).wf(),
            final(self)@ == old(self)@.history_opened((app_id@, branch_name@)),
            r@ == (RequestV::History { app_id: app_id@, branch_name: branch_name@ }),
    {
        let key = (owned(app_id), owned(branch_name));
        let app_name = find_name(&self.apps().items, app_id);
        let jobs = match self.apps().jobs_by_key.get(&key) {
            Some(v) => copy_jobs(v),
            None => Vec::new(),
        };
        self.deployment_history = Some(
            DeploymentHistoryView {
                app_id: owned(app_id),
                app_name,
                branch_name: owned(branch_name),
                loading: jobs.len() == 0,
                pending: true,
                jobs,
                selected: 0,
                scroll: 0,
                error: None,
            },
        );
        self.status = cat2("deployments · ", branch_name);
        Request::History { app_id: owned(app_id), branch_name: owned(branch_name) }
    }

    /// Hides the history.
    pub fn close_deployment_history(&mut self)
        requires
            old(self).wf(),
        ensures
            final(self).wf(),
            final(self)@ == (AppV { history: None, ..old(self)@ }),
    {
        self.deployment_history = None;
    }

    /// Moves the selection in the history; it stops at the first and at the last
    /// row.
    pub fn deployment_history_move(&mut self, delta: isize)
        requires
            old(self).wf(),
        ensures
            final(self).wf(),
            final(self)@ == (AppV {
                history: match old(self)@.history {
                    Some(h) => Some(
                        if h.jobs.len() == 0 {
                            h
                        } else {
                            HistoryV {
                                selected: keys::clamped(h.selected, delta as int, h.jobs.len() as int),
                                ..h
                            }
                        },
                    ),
                    None => None,
                },
                ..old(self)@
            }),
    {
        if let Some(h) = self.deployment_history.take() {
            let mut h = h;
            let n: usize = h.jobs.len();
            if n > 0 {
                h.selected = clamp_selection(h.selected, delta, n);
            }
            self.deployment_history = Some(h);
        }
    }

    /// Shows the logs of the selected deployment of the history, and asks for
    /// its steps.
    pub fn deployment_history_enter(&mut self) -> (r: Option<Request>)
        requires
            old(self).wf(),
        ensures
            final(self).wf(),
            match old(self)@.history {
                Some(h) => if 0 <= h.selected < h.jobs.len() {
                    let j = h.jobs[h.selected];
                    &&& final(self)@ == old(self)@.logs_opened(
                        h.branch_name,
                        j.job_id@,
                        text::opt_view(j.commit_message),
                    )
                    &&& app::opt_request(r) == Some(
                        RequestV::Detail {
                            app_id: h.app_id,
                            branch_name: h.branch_name,
                            job_id: j.job_id@,
                        },
                    )
                } else {
                    final(self)@ == old(self)@ && r is None
                },
                None => final(self)@ == old(self)@ && r is None,
            },
    {
        let (app_id, branch_name, job_id, message) = match &self.deployment_history {
            Some(h) => {
                if h.selected < h.jobs.len() {
                    let j = &h.jobs[h.selected];
                    (
                        h.app_id.clone(),
                        h.branch_name.clone(),
                        j.job_id.clone(),
                        same_text(&j.commit_message),
                    )
                } else {
                    return None;
                }
            },
            None => {
                return None;
            },
        };
        self.show_logs(branch_name.as_str(), job_id.as_str(), message);
        Some(Request::Detail { app_id, branch_name, job_id })
    }

    fn show_logs(&mut self, branch_name: &str, job_id: &str, message: Option<String>)
        requires
            old(self).wf(),
        ensures
            final(self).wf(),
            final(self)@ == old(self)@.logs_opened(branch_name@, job_id@, text::opt_view(message)),
    {
        self.status = cat5("fetching logs for ", branch_name, " #", job_id, "…");
        let steps: Vec<(String, String)> = Vec::new();
        assert(app::pair_views(steps@) =~= Seq::empty());
        self.logs_view = Some(
            LogsView {
                branch_name: owned(branch_name),
                job_id: Some(owned(job_id)),
                commit_message: message,
                loading_detail: true,
                pending_detail: true,
                pending_logs: 0,
                steps,
                error: None,
                scroll: 0,
            },
        );
    }

    /// Shows the logs of the newest deployment of a branch, and asks for its
    /// steps.
    pub fn open_logs_for_branch(&mut self, app_id: &str, branch_name: &str) -> (r: Option<Request>)
        requires
            old(self).wf(),
        ensures
            final(self).wf(),
            ({
                let key = (app_id@, branch_name@);
                if old(self)@.has_jobs(key) {
                    let j = old(self)@.apps.jobs[key]@[0];
                    &&& final(self)@ == old(self)@.logs_opened(
                        branch_name@,
                        j.job_id@,
                        text::opt_view(j.commit_message),
                    )
                    &&& app::opt_request(r) == Some(
                        RequestV::Detail {
                            app_id: app_id@,
                            branch_name: branch_name@,
                            job_id: j.job_id@,
                        },
                    )
                } else {
                    &&& r is None
                    &&& final(self)@ == old(self)@.with_status("no deploys yet for "@ + branch_name@)
                }
            }),
    {
        let key = (owned(app_id), owned(branch_name));
        let found = match self.apps().jobs_by_key.get(&key) {
            Some(v) => {
                if v.len() > 0 {
                    Some((v[0].job_id.clone(), same_text(&v[0].commit_message)))
                } else {
                    None
                }
            },
            None => None,
        };
        match found {
            Some((job_id, message)) => {
                self.show_logs(branch_name, job_id.as_str(), message);
                Some(
                    Request::Detail {
                        app_id: owned(app_id),
                        branch_name: owned(branch_name),
                        job_id,
                    },
                )
            },
            None => {
                self.status = cat2("no deploys yet for ", branch_name);
                None
            },
        }
    }

    /// Shows the logs of a deployment, and asks for its steps.
    pub fn open_logs_for_job(&mut self, app_id: &str, branch_name: &str, job_id: &str) -> (r: Request)
        requires
            old(self).wf(),
        ensures
            final(self).wf(),
            final(self)@ == old(self)@.job_logs_opened((app_id@, branch_name@), job_id@),
            r@ == (RequestV::Detail {
                app_id: app_id@,
                branch_name: branch_name@,
                job_id: job_id@,
            }),
    {
        let key = (owned(app_id), owned(branch_name));
        let message = match self.apps().jobs_by_key.get(&key) {
            Some(v) => find_message(v, job_id),
            None => None,
        };
        self.show_logs(branch_name, job_id, message);
        Request::Detail {
            app_id: owned(app_id),
            branch_name: owned(branch_name),
            job_id: owned(job_id),
        }
    }

    /// Hides the logs.
    pub fn close_logs_view(&mut self)
        requires
            old(self).wf(),
        ensures
            final(self).wf(),
            final(self)@ == (AppV { logs: None, ..old(self)@ }),
    {
        self.logs_view = None;
    }

    /// Scrolls the logs; they stop at the top. Lines are counted modulo two to
    /// the sixteenth, as a terminal counts.
    pub fn logs_scroll(&mut self, delta: i32)
        requires
            old(self).wf(),
        ensures
            final(self).wf(),
            final(self)@ == (AppV {
                logs: match old(self)@.logs {
                    Some(l) => Some(LogsV { scroll: scrolled(l.scroll, delta as int), ..l }),
                    None => None,
                },
                ..old(self)@
            }),
    {
        if let Some(l) = self.logs_view.take() {
            let mut l = l;
            let y: i64 = (l.scroll as i64) + (delta as i64);
            l.scroll = if y < 0 { 0 } else { (y % 0x1_0000) as u16 };
            self.logs_view = Some(l);
        }
    }

    fn focused_url(&self, now: Option<u64>) -> (r: Option<String>)
        requires
            self.wf(),
        ensures
            text::opt_view(r) == self@.focused_url(now),
    {
        let ghost v = self@;
        proof {
            self.lemma_rows_valid(now);
        }
        let region = as_slice(&self.tabs[0].spec.region);
        match self.selected_row(now) {
            Some(row) => match row {
                VisibleRow::AppHeader { items_index, expanded: _ } => Some(
                    console_url_app(self.apps().items[items_index].app_id.as_str(), region),
                ),
                VisibleRow::Branch { app_id, branch_name } => Some(
                    console_url_branch(app_id.as_str(), branch_name.as_str(), region),
                ),
                VisibleRow::Deployment { app_id, branch_name, job_id: _ } => Some(
                    console_url_branch(app_id.as_str(), branch_name.as_str(), region),
                ),
            },
            None => None,
        }
    }

    /// The page of the selected row in the console, to be opened.
    pub fn open_focused(&mut self, now: Option<u64>) -> (r: Option<String>)
        requires
            old(self).wf(),
        ensures
            final(self).wf(),
            text::opt_view(r) == old(self)@.focused_url(now),
            final(self)@ == (if old(self)@.focused_url(now) is Some {
                old(self)@
            } else {
                old(self)@.with_status("no row under cursor"@)
            }),
    {
        let url = self.focused_url(now);
        if url.is_none() {
            self.say("no row under cursor");
        }
        url
    }

    /// Notes how opening a page went.
    pub fn opened(&mut self, url: &str, result: &Result<(), String>)
        requires
            old(self).wf(),
        ensures
            final(self).wf(),
            final(self)@ == old(self)@.with_status(tabs::opened(url@, *result)),
    {
        self.status = opened_status(url, result);
    }

    /// The page of the selected row in the console, to be copied.
    pub fn yank_focused_url(&mut self, now: Option<u64>) -> (r: Option<String>)
        requires
            old(self).wf(),
        ensures
            final(self).wf(),
            text::opt_view(r) == old(self)@.focused_url(now),
            final(self)@ == (if old(self)@.focused_url(now) is Some {
                old(self)@
            } else {
                old(self)@.with_status("no row under cursor"@)
            }),
    {
        self.open_focused(now)
    }

    /// Notes how copying a page's address went.
    pub fn url_copied(&mut self, url: &str, result: &Result<(), String>)
        requires
            old(self).wf(),
        ensures
            final(self).wf(),
            final(self)@ == old(self)@.with_status(tabs::copied("copied "@ + url@, *result)),
    {
        let done = cat2("copied ", url);
        self.status = copied_status(done.as_str(), result);
    }

    /// The logs browser for the selected branch.
    pub fn handoff_logs(&mut self, now: Option<u64>) -> (r: Option<Launch>)
        requires
            old(self).wf(),
        ensures
            final(self).wf(),
            match old(self)@.logs_launch(now) {
                Ok(l) => final(self)@ == old(self)@ && command::opt_launch(r) == Some(l),
                Err(m) => final(self)@ == old(self)@.with_status(m) && r is None,
            },
    {
        let (app_id, branch_name) = match self.selected_row(now) {
            Some(row) => match row {
                VisibleRow::Branch { app_id, branch_name } => (app_id, branch_name),
                VisibleRow::Deployment { app_id, branch_name, job_id: _ } => (app_id, branch_name),
                VisibleRow::AppHeader { items_index: _, expanded: _ } => {
                    self.say("L opens CloudWatch Logs — pick a branch row first");
                    return None;
                },
            },
            None => {
                self.say("no row under cursor");
                return None;
            },
        };
        let group = cat4("/aws/amplify/", app_id.as_str(), "/", branch_name.as_str());
        let key = (app_id, branch_name);
        let has_deploys = match self.apps().jobs_by_key.get(&key) {
            Some(v) => v.len() > 0,
            None => false,
        };
        if !has_deploys {
            self.status = cat3(
                "no builds yet on `",
                key.1.as_str(),
                "` — no CloudWatch log group",
            );
            return None;
        }
        let done = cat2("launched cloudwatch-logs → ", group.as_str());
        let region = as_slice(&self.tabs[0].spec.region);
        Some(tail_launch_of(group.as_str(), key.1.as_str(), region, done))
    }

    /// Notes how starting another program went.
    pub fn launched(&mut self, l: &Launch, result: &Result<(), String>)
        requires
            old(self).wf(),
        ensures
            final(self).wf(),
            final(self)@ == old(self)@.with_status(command::launch_status(l@, *result)),
    {
        self.status = launched_status(l, result);
    }
}

/// A scroll offset moved by `delta`.
pub open spec fn scrolled(scroll: int, delta: int) -> int {
    if scroll + delta < 0 {
        0
    } else {
        (scroll + delta) % 0x1_0000
    }
}

fn branch_row(row: &VisibleRow, app: &str, branch: &str) -> (r: bool)
    ensures
        r == is_branch_row(*row, (app@, branch@)),
{
    match row {
        VisibleRow::Branch { app_id, branch_name } => str_eq(app_id.as_str(), app) && str_eq(
            branch_name.as_str(),
            branch,
        ),
        _ => false,
    }
}

} // verus!
