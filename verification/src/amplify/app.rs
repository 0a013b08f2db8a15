//! The state of the apps browser.
//!
//! What has to be asked of AWS is handed out as requests; what comes back is
//! handed in through `drain`. The methods that need to know which branches are
//! shown take the time, in seconds since the epoch.

use vstd::prelude::*;

use crate::amplify::amplify::{AmplifyApp, AmplifyBranch, AmplifyJob};
use crate::amplify::branches;
use crate::amplify::branches::{choose_branches, last_deploy_of};
use crate::amplify::config::{Config, Tab};
use crate::clock::secs_since_epoch;
use crate::keys;
use crate::keys::clamp_selection;
use crate::table::{KeySet, Table};
use crate::tabs;
use crate::tabs::pick_region;
use crate::text;
use crate::text::{cat2, is_among, owned, str_eq};

verus! {

/// A row of the list: an app, one of its branches, or a deployment of a branch.
pub enum VisibleRow {
    AppHeader { items_index: usize, expanded: bool },
    Branch { app_id: String, branch_name: String },
    Deployment { app_id: String, branch_name: String, job_id: String },
}

impl VisibleRow {
    /// The same row again.
    pub fn copy(&self) -> (r: VisibleRow)
        ensures
            r == *self,
    {
        match self {
            VisibleRow::AppHeader { items_index, expanded } => VisibleRow::AppHeader {
                items_index: *items_index,
                expanded: *expanded,
            },
            VisibleRow::Branch { app_id, branch_name } => VisibleRow::Branch {
                app_id: app_id.clone(),
                branch_name: branch_name.clone(),
            },
            VisibleRow::Deployment { app_id, branch_name, job_id } => VisibleRow::Deployment {
                app_id: app_id.clone(),
                branch_name: branch_name.clone(),
                job_id: job_id.clone(),
            },
        }
    }
}

/// What a tab lists: all apps, or the branches of one.
#[derive(Clone, Copy, Debug, PartialEq, Eq, Structural)]
pub enum TabKind {
    Apps,
    App,
}

/// The kind that a word stands for.
pub open spec fn kind_named(s: Seq<char>) -> Result<TabKind, Seq<char>> {
    if s == "apps"@ {
        Ok(TabKind::Apps)
    } else if s == "app"@ {
        Ok(TabKind::App)
    } else {
        Err("unknown tab kind: "@ + s)
    }
}

impl TabKind {
    pub fn from_str(s: &str) -> (r: Result<TabKind, String>)
        ensures
            match r {
                Ok(k) => kind_named(s@) == Ok::<TabKind, Seq<char>>(k),
                Err(e) => kind_named(s@) == Err::<TabKind, Seq<char>>(e@),
            },
    {
        if str_eq(s, "apps") {
            Ok(TabKind::Apps)
        } else if str_eq(s, "app") {
            Ok(TabKind::App)
        } else {
            Err(cat2("unknown tab kind: ", s))
        }
    }
}

/// What a tab lists, and where.
pub struct TabSpec {
    pub kind: TabKind,
    pub region: Option<String>,
    pub app_id: Option<String>,
}

/// A `TabSpec` by its contents.
pub struct SpecV {
    pub kind: TabKind,
    pub region: Option<Seq<char>>,
    pub app_id: Option<Seq<char>>,
}

impl View for TabSpec {
    type V = SpecV;

    open spec fn view(&self) -> SpecV {
        SpecV {
            kind: self.kind,
            region: text::opt_view(self.region),
            app_id: text::opt_view(self.app_id),
        }
    }
}

/// What a tab of the settings lists, or why it cannot be.
pub open spec fn resolved(t: Tab, default_region: Option<Seq<char>>) -> Result<SpecV, Seq<char>> {
    let region = tabs::region_or(text::opt_view(t.region), default_region);
    match kind_named(t.kind@) {
        Err(e) => Err(e),
        Ok(TabKind::Apps) => Ok(SpecV { kind: TabKind::Apps, region, app_id: None }),
        Ok(TabKind::App) => match t.app_id {
            Some(a) => Ok(SpecV { kind: TabKind::App, region, app_id: Some(a@) }),
            None => Err("`app_id` required for kind `app`"@),
        },
    }
}

impl TabSpec {
    pub fn resolve(t: &Tab, default_region: Option<&str>) -> (r: Result<TabSpec, String>)
        ensures
            match r {
                Ok(s) => resolved(*t, text::opt_str_view(default_region)) == Ok::<SpecV, Seq<char>>(s@),
                Err(e) => resolved(*t, text::opt_str_view(default_region)) == Err::<SpecV, Seq<char>>(e@),
            },
    {
        let kind = match TabKind::from_str(t.kind.as_str()) {
            Ok(k) => k,
            Err(e) => {
                return Err(e);
            },
        };
        let region = pick_region(&t.region, default_region);
        match kind {
            TabKind::Apps => Ok(TabSpec { kind, region, app_id: None }),
            TabKind::App => match &t.app_id {
                Some(a) => Ok(TabSpec { kind, region, app_id: Some(a.clone()) }),
                None => Err(owned("`app_id` required for kind `app`")),
            },
        }
    }
}

/// A list of all apps.
pub struct AppsTab {
    pub items: Vec<AmplifyApp>,
    pub selected: usize,
    pub last_error: Option<String>,
    pub loading: bool,
    /// The apps have been asked for.
    pub pending: bool,
    pub last_fetched: Option<u64>,
    /// Hidden apps are shown too.
    pub show_hidden: bool,
    /// The apps that are shown with their branches.
    pub expanded: KeySet<String>,
    /// The branches of the apps, by app, as far as they have been read.
    pub branches_by_app: Table<String, Vec<AmplifyBranch>>,
    /// The jobs of the branches, by app and branch, as far as they have been
    /// read.
    pub jobs_by_key: Table<(String, String), Vec<AmplifyJob>>,
    /// Why the jobs of a branch could not be read.
    pub jobs_error_by_key: Table<(String, String), String>,
    /// The apps whose branches have been asked for.
    pub pending_branches: KeySet<String>,
    /// The branches whose jobs have been asked for, in the order of the
    /// requests.
    pub pending_jobs: Vec<(String, String)>,
}

/// The branches of one app.
pub struct AppTab {
    pub branches: Vec<AmplifyBranch>,
    pub jobs_for_selected_branch: Vec<AmplifyJob>,
    pub jobs_by_branch: Table<String, Vec<AmplifyJob>>,
    pub selected: usize,
    pub last_error: Option<String>,
    pub loading: bool,
    /// The branches have been asked for.
    pub pending: bool,
    pub last_fetched: Option<u64>,
}

/// What a tab holds.
pub enum TabData {
    Apps(AppsTab),
    App(AppTab),
}

/// The contents of a sequence of pairs.
pub open spec fn pair_views(s: Seq<(String, String)>) -> Seq<(Seq<char>, Seq<char>)> {
    Seq::new(s.len(), |i: int| (s[i].0@, s[i].1@))
}

/// An `AppsTab` by its contents.
#[verifier::ext_equal]
pub struct AppsV {
    pub items: Seq<AmplifyApp>,
    pub selected: int,
    pub last_error: Option<Seq<char>>,
    pub loading: bool,
    pub pending: bool,
    pub last_fetched: Option<u64>,
    pub show_hidden: bool,
    pub expanded: Set<Seq<char>>,
    pub branches: Map<Seq<char>, Vec<AmplifyBranch>>,
    pub jobs: Map<(Seq<char>, Seq<char>), Vec<AmplifyJob>>,
    pub job_errors: Map<(Seq<char>, Seq<char>), String>,
    pub pending_branches: Set<Seq<char>>,
    pub pending_jobs: Seq<(Seq<char>, Seq<char>)>,
}

impl View for AppsTab {
    type V = AppsV;

    open spec fn view(&self) -> AppsV {
        AppsV {
            items: self.items@,
            selected: self.selected as int,
            last_error: text::opt_view(self.last_error),
            loading: self.loading,
            pending: self.pending,
            last_fetched: self.last_fetched,
            show_hidden: self.show_hidden,
            expanded: self.expanded@,
            branches: self.branches_by_app@,
            jobs: self.jobs_by_key@,
            job_errors: self.jobs_error_by_key@,
            pending_branches: self.pending_branches@,
            pending_jobs: pair_views(self.pending_jobs@),
        }
    }
}

/// A list of apps of which nothing is known.
pub open spec fn no_apps() -> AppsV {
    AppsV {
        items: Seq::empty(),
        selected: 0,
        last_error: None,
        loading: false,
        pending: false,
        last_fetched: None,
        show_hidden: false,
        expanded: Set::empty(),
        branches: Map::empty(),
        jobs: Map::empty(),
        job_errors: Map::empty(),
        pending_branches: Set::empty(),
        pending_jobs: Seq::empty(),
    }
}

impl AppsTab {
    /// A list of apps of which nothing is known.
    pub fn empty() -> (r: AppsTab)
        ensures
            r@ == no_apps(),
    {
        let r = AppsTab {
            items: Vec::new(),
            selected: 0,
            last_error: None,
            loading: false,
            pending: false,
            last_fetched: None,
            show_hidden: false,
            expanded: KeySet::new(),
            branches_by_app: Table::new(),
            jobs_by_key: Table::new(),
            jobs_error_by_key: Table::new(),
            pending_branches: KeySet::new(),
            pending_jobs: Vec::new(),
        };
        assert(r@ =~= no_apps());
        r
    }
}

impl TabData {
    /// What a tab holds before anything was read.
    pub fn empty_for(kind: TabKind) -> (r: TabData)
        ensures
            match kind {
                TabKind::Apps => r matches TabData::Apps(a) && a@ == no_apps(),
                TabKind::App => {
                    &&& r matches TabData::App(a)
                    &&& a.branches@ == Seq::<AmplifyBranch>::empty()
                    &&& a.jobs_for_selected_branch@ == Seq::<AmplifyJob>::empty()
                    &&& a.jobs_by_branch@ == Map::<Seq<char>, Vec<AmplifyJob>>::empty()
                    &&& a.selected == 0
                    &&& a.last_error is None
                    &&& !a.loading
                    &&& !a.pending
                    &&& a.last_fetched is None
                },
            },
    {
        match kind {
            TabKind::Apps => TabData::Apps(AppsTab::empty()),
            TabKind::App => TabData::App(
                AppTab {
                    branches: Vec::new(),
                    jobs_for_selected_branch: Vec::new(),
                    jobs_by_branch: Table::new(),
                    selected: 0,
                    last_error: None,
                    loading: false,
                    pending: false,
                    last_fetched: None,
                },
            ),
        }
    }
}

/// A tab: its name, what it lists, and what it holds.
pub struct TabState {
    pub name: String,
    pub spec: TabSpec,
    pub data: TabData,
}

/// The logs of a deployment, as far as they have been read.
pub struct LogsView {
    pub branch_name: String,
    pub job_id: Option<String>,
    pub commit_message: Option<String>,
    pub loading_detail: bool,
    /// The steps of the deployment have been asked for.
    pub pending_detail: bool,
    /// How many logs of steps have been asked for and have not come.
    pub pending_logs: usize,
    /// The names of the steps with their logs.
    pub steps: Vec<(String, String)>,
    pub error: Option<String>,
    /// How many lines are scrolled out at the top.
    pub scroll: u16,
}

/// A `LogsView` by its contents.
#[verifier::ext_equal]
pub struct LogsV {
    pub branch_name: Seq<char>,
    pub job_id: Option<Seq<char>>,
    pub commit_message: Option<Seq<char>>,
    pub loading_detail: bool,
    pub pending_detail: bool,
    pub pending_logs: int,
    pub steps: Seq<(Seq<char>, Seq<char>)>,
    pub error: Option<Seq<char>>,
    pub scroll: int,
}

impl View for LogsView {
    type V = LogsV;

    open spec fn view(&self) -> LogsV {
        LogsV {
            branch_name: self.branch_name@,
            job_id: text::opt_view(self.job_id),
            commit_message: text::opt_view(self.commit_message),
            loading_detail: self.loading_detail,
            pending_detail: self.pending_detail,
            pending_logs: self.pending_logs as int,
            steps: pair_views(self.steps@),
            error: text::opt_view(self.error),
            scroll: self.scroll as int,
        }
    }
}

/// All deployments of a branch.
pub struct DeploymentHistoryView {
    pub app_id: String,
    pub app_name: String,
    pub branch_name: String,
    pub loading: bool,
    /// The deployments have been asked for.
    pub pending: bool,
    pub jobs: Vec<AmplifyJob>,
    pub selected: usize,
    pub scroll: u16,
    pub error: Option<String>,
}

/// A `DeploymentHistoryView` by its contents.
#[verifier::ext_equal]
pub struct HistoryV {
    pub app_id: Seq<char>,
    pub app_name: Seq<char>,
    pub branch_name: Seq<char>,
    pub loading: bool,
    pub pending: bool,
    pub jobs: Seq<AmplifyJob>,
    pub selected: int,
    pub scroll: int,
    pub error: Option<Seq<char>>,
}

impl View for DeploymentHistoryView {
    type V = HistoryV;

    open spec fn view(&self) -> HistoryV {
        HistoryV {
            app_id: self.app_id@,
            app_name: self.app_name@,
            branch_name: self.branch_name@,
            loading: self.loading,
            pending: self.pending,
            jobs: self.jobs@,
            selected: self.selected as int,
            scroll: self.scroll as int,
            error: text::opt_view(self.error),
        }
    }
}

/// Something to be asked of AWS in the background.
pub enum Request {
    /// All apps.
    Apps,
    /// The branches of an app.
    Branches { app_id: String },
    /// The jobs of a branch, for the list.
    Jobs { app_id: String, branch_name: String },
    /// The jobs of a branch, for the history that is shown.
    History { app_id: String, branch_name: String },
    /// The steps of a job, for the logs that are shown.
    Detail { app_id: String, branch_name: String, job_id: String },
    /// The log of a step, for the logs that are shown.
    Log { step_name: String, url: String },
}

/// A `Request` by its contents.
pub enum RequestV {
    Apps,
    Branches { app_id: Seq<char> },
    Jobs { app_id: Seq<char>, branch_name: Seq<char> },
    History { app_id: Seq<char>, branch_name: Seq<char> },
    Detail { app_id: Seq<char>, branch_name: Seq<char>, job_id: Seq<char> },
    Log { step_name: Seq<char>, url: Seq<char> },
}

impl View for Request {
    type V = RequestV;

    open spec fn view(&self) -> RequestV {
        match *self {
            Request::Apps => RequestV::Apps,
            Request::Branches { app_id } => RequestV::Branches { app_id: app_id@ },
            Request::Jobs { app_id, branch_name } => RequestV::Jobs {
                app_id: app_id@,
                branch_name: branch_name@,
            },
            Request::History { app_id, branch_name } => RequestV::History {
                app_id: app_id@,
                branch_name: branch_name@,
            },
            Request::Detail { app_id, branch_name, job_id } => RequestV::Detail {
                app_id: app_id@,
                branch_name: branch_name@,
                job_id: job_id@,
            },
            Request::Log { step_name, url } => RequestV::Log { step_name: step_name@, url: url@ },
        }
    }
}

/// The contents of a sequence of requests.
pub open spec fn request_views(r: Seq<Request>) -> Seq<RequestV> {
    r.map_values(|x: Request| x@)
}

/// The contents of an optional request.
pub open spec fn opt_request(r: Option<Request>) -> Option<RequestV> {
    match r {
        Some(x) => Some(x@),
        None => None,
    }
}

/// Settings that are to be written to their file, and what the status says then.
pub struct Saving {
    /// The status once they are written.
    pub done: String,
    /// The status if they cannot be written, in front of the reason and a
    /// closing bracket.
    pub failed: String,
}

/// A `Saving` by its contents.
pub struct SavingV {
    pub done: Seq<char>,
    pub failed: Seq<char>,
}

/// The contents of an optional `Saving`.
pub open spec fn opt_saving(s: Option<Saving>) -> Option<SavingV> {
    match s {
        Some(x) => Some(SavingV { done: x.done@, failed: x.failed@ }),
        None => None,
    }
}

/// The state of the browser.
pub struct App {
    pub cfg: Config,
    pub tabs: Vec<TabState>,
    pub active_tab: usize,
    pub status: String,
    pub logs_view: Option<LogsView>,
    pub deployment_history: Option<DeploymentHistoryView>,
    /// The branches that are shown with their deployments, by app and branch.
    pub expanded_branches: KeySet<(String, String)>,
}

/// The settings by their contents.
#[verifier::ext_equal]
pub struct CfgV {
    pub region: Option<String>,
    pub refresh_interval_secs: u64,
    pub tabs: Vec<Tab>,
    pub hidden: Seq<String>,
    pub order: Seq<String>,
}

/// The state of the browser by its contents.
#[verifier::ext_equal]
pub struct AppV {
    pub cfg: CfgV,
    pub name: String,
    pub spec: TabSpec,
    pub apps: AppsV,
    pub status: Seq<char>,
    pub logs: Option<LogsV>,
    pub history: Option<HistoryV>,
    pub open: Set<(Seq<char>, Seq<char>)>,
}

impl View for Config {
    type V = CfgV;

    open spec fn view(&self) -> CfgV {
        CfgV {
            region: self.region,
            refresh_interval_secs: self.refresh_interval_secs,
            tabs: self.tabs,
            hidden: self.hidden_app_ids@,
            order: self.app_order@,
        }
    }
}

impl App {
    /// There is one tab, and it lists all apps.
    pub open spec fn wf(self) -> bool {
        &&& self.tabs@.len() == 1
        &&& self.active_tab == 0
        &&& self.tabs@[0].data is Apps
        &&& self.tabs@[0].spec.kind == TabKind::Apps
    }

    /// The list of apps.
    pub open spec fn list(self) -> AppsTab {
        self.tabs@[0].data->Apps_0
    }

    /// Everything but the list of apps is the same.
    pub open spec fn same_but_list(self, other: App) -> bool {
        &&& self.cfg == other.cfg
        &&& self.tabs@[0].name == other.tabs@[0].name
        &&& self.tabs@[0].spec == other.tabs@[0].spec
        &&& self.status == other.status
        &&& self.logs_view == other.logs_view
        &&& self.deployment_history == other.deployment_history
        &&& self.expanded_branches == other.expanded_branches
    }
}

impl View for App {
    type V = AppV;

    open spec fn view(&self) -> AppV {
        AppV {
            cfg: self.cfg@,
            name: self.tabs@[0].name,
            spec: self.tabs@[0].spec,
            apps: self.list()@,
            status: self.status@,
            logs: match self.logs_view {
                Some(l) => Some(l@),
                None => None,
            },
            history: match self.deployment_history {
                Some(h) => Some(h@),
                None => None,
            },
            open: self.expanded_branches@,
        }
    }
}

/// When a branch was last deployed.
pub fn last_deploy_ts_key(a: &AppsTab, app_id: &str, branch: &str) -> (r: String)
    ensures
        r@ == branches::last_deploy(a@.jobs, app_id@, branch@),
{
    last_deploy_of(&a.jobs_by_key, app_id, branch)
}

/// The last place of the app with an id.
pub open spec fn place_of(items: Seq<AmplifyApp>, id: Seq<char>) -> Option<int>
    decreases items.len(),
{
    if items.len() == 0 {
        None
    } else if items.last().app_id@ == id {
        Some(items.len() - 1)
    } else {
        place_of(items.drop_last(), id)
    }
}

fn find_place(items: &Vec<AmplifyApp>, id: &str) -> (r: Option<usize>)
    ensures
        match r {
            Some(i) => place_of(items@, id@) == Some(i as int) && i < items.len(),
            None => place_of(items@, id@) is None,
        },
{
    let mut i: usize = items.len();
    assert(items@.take(i as int) =~= items@);
    while i > 0
        invariant
            i <= items.len(),
            place_of(items@, id@) == place_of(items@.take(i as int), id@),
        decreases i,
    {
        assert(items@.take(i as int).drop_last() =~= items@.take(i - 1));
        if str_eq(items[i - 1].app_id.as_str(), id) {
            return Some(i - 1);
        }
        i = i - 1;
    }
    None
}

/// The places of the apps that the settings put in an order, in that order.
pub open spec fn chosen_places(items: Seq<AmplifyApp>, order: Seq<String>) -> Seq<int>
    decreases order.len(),
{
    if order.len() == 0 {
        Seq::empty()
    } else {
        match place_of(items, order.last()@) {
            Some(i) => chosen_places(items, order.drop_last()).push(i),
            None => chosen_places(items, order.drop_last()),
        }
    }
}

/// The first `n` places that are not among `used`.
pub open spec fn other_places(used: Seq<int>, n: int) -> Seq<int>
    decreases n,
{
    if n <= 0 {
        Seq::empty()
    } else if used.contains(n - 1) {
        other_places(used, n - 1)
    } else {
        other_places(used, n - 1).push(n - 1)
    }
}

/// The places of all apps: first those that the settings put in an order, then
/// the others.
pub open spec fn ordered_places(items: Seq<AmplifyApp>, order: Seq<String>) -> Seq<int> {
    let chosen = chosen_places(items, order);
    chosen + other_places(chosen, items.len() as int)
}

/// Places as numbers.
pub open spec fn ints(v: Seq<usize>) -> Seq<int> {
    v.map_values(|i: usize| i as int)
}

proof fn lemma_place_in_range(items: Seq<AmplifyApp>, id: Seq<char>)
    ensures
        place_of(items, id) matches Some(i) ==> 0 <= i < items.len() && items[i].app_id@ == id,
    decreases items.len(),
{
    if items.len() > 0 && items.last().app_id@ != id {
        lemma_place_in_range(items.drop_last(), id);
    }
}

proof fn lemma_chosen_in_range(items: Seq<AmplifyApp>, order: Seq<String>)
    ensures
        forall|k: int|
            0 <= k < chosen_places(items, order).len() ==> 0 <= #[trigger] chosen_places(items, order)[k]
                < items.len(),
    decreases order.len(),
{
    if order.len() > 0 {
        let rest = chosen_places(items, order.drop_last());
        lemma_chosen_in_range(items, order.drop_last());
        lemma_place_in_range(items, order.last()@);
        assert forall|k: int| 0 <= k < chosen_places(items, order).len() implies 0
            <= #[trigger] chosen_places(items, order)[k] < items.len() by {
            if k < rest.len() {
                assert(chosen_places(items, order)[k] == rest[k]);
            }
        }
    }
}

proof fn lemma_other_in_range(used: Seq<int>, n: int)
    ensures
        forall|k: int|
            0 <= k < other_places(used, n).len() ==> 0 <= #[trigger] other_places(used, n)[k] < n,
    decreases n,
{
    if n > 0 {
        let rest = other_places(used, n - 1);
        lemma_other_in_range(used, n - 1);
        assert forall|k: int| 0 <= k < other_places(used, n).len() implies 0 <= #[trigger] other_places(
            used,
            n,
        )[k] < n by {
            if k < rest.len() {
                assert(other_places(used, n)[k] == rest[k]);
            }
        }
    }
}

/// Every place in the order is one of an app.
pub proof fn lemma_ordered_in_range(items: Seq<AmplifyApp>, order: Seq<String>)
    ensures
        forall|k: int|
            0 <= k < ordered_places(items, order).len() ==> 0 <= #[trigger] ordered_places(items, order)[k]
                < items.len(),
{
    lemma_chosen_in_range(items, order);
    lemma_other_in_range(chosen_places(items, order), items.len() as int);
}

fn is_used(used: &Vec<usize>, i: usize) -> (r: bool)
    ensures
        r == ints(used@).contains(i as int),
{
    let mut k: usize = 0;
    while k < used.len()
        invariant
            k <= used.len(),
            forall|j: int| 0 <= j < k ==> used@[j] != i,
        decreases used.len() - k,
    {
        if used[k] == i {
            assert(ints(used@)[k as int] == i as int);
            return true;
        }
        k = k + 1;
    }
    assert(!ints(used@).contains(i as int));
    false
}

fn order_places(items: &Vec<AmplifyApp>, order: &Vec<String>) -> (r: Vec<usize>)
    ensures
        ints(r@) == ordered_places(items@, order@),
{
    let mut chosen: Vec<usize> = Vec::new();
    let mut k: usize = 0;
    assert(order@.take(0) =~= Seq::empty());
    assert(ints(chosen@) =~= Seq::empty());
    while k < order.len()
        invariant
            k <= order.len(),
            ints(chosen@) == chosen_places(items@, order@.take(k as int)),
        decreases order.len() - k,
    {
        assert(order@.take(k + 1).drop_last() =~= order@.take(k as int));
        if let Some(i) = find_place(items, order[k].as_str()) {
            let ghost before = ints(chosen@);
            chosen.push(i);
            assert(ints(chosen@) =~= before.push(i as int));
        }
        k = k + 1;
    }
    assert(order@.take(order@.len() as int) =~= order@);
    let ghost used = ints(chosen@);
    let mut out: Vec<usize> = Vec::new();
    let mut j: usize = 0;
    while j < chosen.len()
        invariant
            j <= chosen.len(),
            out@ == chosen@.take(j as int),
        decreases chosen.len() - j,
    {
        out.push(chosen[j]);
        assert(chosen@.take(j + 1) =~= chosen@.take(j as int).push(chosen@[j as int]));
        j = j + 1;
    }
    assert(chosen@.take(chosen@.len() as int) =~= chosen@);
    assert(ints(out@) =~= used + other_places(used, 0));
    let mut i: usize = 0;
    while i < items.len()
        invariant
            i <= items.len(),
            used == ints(chosen@),
            ints(out@) == used + other_places(used, i as int),
        decreases items.len() - i,
    {
        if !is_used(&chosen, i) {
            let ghost before = ints(out@);
            out.push(i);
            assert(ints(out@) =~= before.push(i as int));
            assert(ints(out@) =~= used + other_places(used, i + 1));
        }
        i = i + 1;
    }
    out
}

impl AppV {
    /// The app is not hidden, or hidden apps are shown too.
    pub open spec fn shown(self, app: AmplifyApp) -> bool {
        self.apps.show_hidden || !text::among(self.cfg.hidden, app.app_id@)
    }

    /// The deployments of a branch that are shown below it.
    pub open spec fn deployment_rows(self, app_id: String, branch_name: String) -> Seq<VisibleRow> {
        let key = (app_id@, branch_name@);
        if self.open.contains(key) && self.apps.jobs.dom().contains(key) {
            let js = self.apps.jobs[key]@;
            Seq::new(
                if js.len() <= 3 {
                    js.len()
                } else {
                    3
                },
                |i: int| VisibleRow::Deployment { app_id, branch_name, job_id: js[i].job_id },
            )
        } else {
            Seq::empty()
        }
    }

    /// The rows of the first `n` of some branches.
    pub open spec fn branch_rows(self, app_id: String, brs: Seq<AmplifyBranch>, n: int) -> Seq<VisibleRow>
        decreases n,
    {
        if n <= 0 {
            Seq::empty()
        } else {
            let name = brs[n - 1].branch_name;
            self.branch_rows(app_id, brs, n - 1).push(VisibleRow::Branch { app_id, branch_name: name })
                + self.deployment_rows(app_id, name)
        }
    }

    /// The branches of an app that are shown.
    pub open spec fn branches_of(self, app_id: Seq<char>, now: Option<u64>) -> Seq<AmplifyBranch> {
        if self.apps.branches.dom().contains(app_id) {
            branches::shown_branches(self.apps.branches[app_id]@, self.apps.jobs, app_id, now)
        } else {
            Seq::empty()
        }
    }

    /// The rows of the app at place `i`.
    pub open spec fn app_rows(self, i: int, now: Option<u64>) -> Seq<VisibleRow> {
        let app = self.apps.items[i];
        if self.shown(app) {
            let expanded = self.apps.expanded.contains(app.app_id@);
            let brs = self.branches_of(app.app_id@, now);
            seq![VisibleRow::AppHeader { items_index: i as usize, expanded }] + (if expanded {
                self.branch_rows(app.app_id, brs, brs.len() as int)
            } else {
                Seq::empty()
            })
        } else {
            Seq::empty()
        }
    }

    /// The rows of the first `n` apps in the order in which they are shown.
    pub open spec fn rows_to(self, n: int, now: Option<u64>) -> Seq<VisibleRow>
        decreases n,
    {
        if n <= 0 {
            Seq::empty()
        } else {
            self.rows_to(n - 1, now) + self.app_rows(
                ordered_places(self.apps.items, self.cfg.order)[n - 1],
                now,
            )
        }
    }

    /// The rows of the list.
    pub open spec fn rows(self, now: Option<u64>) -> Seq<VisibleRow> {
        self.rows_to(ordered_places(self.apps.items, self.cfg.order).len() as int, now)
    }

    /// The selected row.
    pub open spec fn selected_row(self, now: Option<u64>) -> Option<VisibleRow> {
        if 0 <= self.apps.selected < self.rows(now).len() {
            Some(self.rows(now)[self.apps.selected])
        } else {
            None
        }
    }

    pub open spec fn with_status(self, status: Seq<char>) -> AppV {
        AppV { status, ..self }
    }

    pub open spec fn with_apps(self, apps: AppsV) -> AppV {
        AppV { apps, ..self }
    }

    pub open spec fn at_row(self, i: int) -> AppV {
        self.with_apps(AppsV { selected: i, ..self.apps })
    }

    /// With the selection moved; it stops at the first and at the last row.
    pub open spec fn moved(self, delta: int, now: Option<u64>) -> AppV {
        let n = self.rows(now).len() as int;
        if n == 0 {
            self
        } else {
            self.at_row(keys::clamped(self.apps.selected, delta, n))
        }
    }
}

impl App {
    /// The list of apps.
    pub(crate) fn apps(&self) -> (r: &AppsTab)
        requires
            self.wf(),
        ensures
            *r == self.list(),
    {
        match &self.tabs[0].data {
            TabData::Apps(a) => a,
            TabData::App(_) => vstd::pervasive::unreached(),
        }
    }

    /// The list of apps, to be changed.
    pub(crate) fn apps_mut(&mut self) -> (r: &mut AppsTab)
        requires
            old(self).wf(),
        ensures
            *r == old(self).list(),
            final(self).wf(),
            final(self).list() == *final(r),
            final(self).same_but_list(*old(self)),
    {
        match &mut self.tabs[0].data {
            TabData::Apps(a) => a,
            TabData::App(_) => vstd::pervasive::unreached(),
        }
    }

    /// The branches of an app that are shown.
    pub fn filtered_branches_for<'a>(a: &'a AppsTab, app_id: &str, now: Option<u64>) -> (r: Vec<
        &'a AmplifyBranch,
    >)
        ensures
            branches::pointed(r@) == (if a@.branches.dom().contains(app_id@) {
                branches::shown_branches(a@.branches[app_id@]@, a@.jobs, app_id@, now)
            } else {
                Seq::empty()
            }),
    {
        match a.branches_by_app.get(&owned(app_id)) {
            Some(all) => choose_branches(all, &a.jobs_by_key, app_id, now),
            None => {
                let none: Vec<&'a AmplifyBranch> = Vec::new();
                assert(branches::pointed(none@) =~= Seq::empty());
                none
            },
        }
    }

    pub(crate) fn is_shown(&self, app_id: &str) -> (r: bool)
        requires
            self.wf(),
        ensures
            r == (self@.apps.show_hidden || !text::among(self@.cfg.hidden, app_id@)),
    {
        self.apps().show_hidden || !is_among(&self.cfg.hidden_app_ids, app_id)
    }

    fn push_deployments(&self, rows: &mut Vec<VisibleRow>, app_id: &String, branch_name: &String)
        requires
            self.wf(),
        ensures
            final(rows)@ == old(rows)@ + self@.deployment_rows(*app_id, *branch_name),
    {
        let key = (app_id.clone(), branch_name.clone());
        let ghost all = self@.deployment_rows(*app_id, *branch_name);
        let ghost start = rows@;
        if self.expanded_branches.contains(&key) {
            if let Some(js) = self.apps().jobs_by_key.get(&key) {
                let n: usize = if js.len() <= 3 { js.len() } else { 3 };
                let mut i: usize = 0;
                assert(start + all.take(0) =~= start);
                while i < n
                    invariant
                        i <= n <= js.len(),
                        n == all.len(),
                        forall|k: int|
                            0 <= k < n ==> #[trigger] all[k] == (VisibleRow::Deployment {
                                app_id: *app_id,
                                branch_name: *branch_name,
                                job_id: js@[k].job_id,
                            }),
                        rows@ == start + all.take(i as int),
                    decreases n - i,
                {
                    rows.push(
                        VisibleRow::Deployment {
                            app_id: app_id.clone(),
                            branch_name: branch_name.clone(),
                            job_id: js[i].job_id.clone(),
                        },
                    );
                    assert(all.take(i + 1) =~= all.take(i as int).push(all[i as int]));
                    assert(rows@ =~= start + all.take(i + 1));
                    i = i + 1;
                }
                assert(all.take(n as int) =~= all);
                return;
            }
        }
        assert(start + all =~= start);
    }

    /// The rows of the list at a time.
    pub fn visible_rows_at(&self, now: Option<u64>) -> (r: Vec<VisibleRow>)
        requires
            self.wf(),
        ensures
            r@ == self@.rows(now),
    {
        let a = self.apps();
        let ghost v = self@;
        let ordered = self.ordered_items_indices();
        let ghost places = ordered_places(v.apps.items, v.cfg.order);
        proof {
            lemma_ordered_in_range(v.apps.items, v.cfg.order);
        }
        let mut rows: Vec<VisibleRow> = Vec::new();
        let mut k: usize = 0;
        while k < ordered.len()
            invariant
                k <= ordered.len(),
                self.wf(),
                v == self@,
                *a == self.list(),
                ints(ordered@) == places,
                places == ordered_places(v.apps.items, v.cfg.order),
                forall|j: int| 0 <= j < places.len() ==> 0 <= #[trigger] places[j] < v.apps.items.len(),
                rows@ == v.rows_to(k as int, now),
            decreases ordered.len() - k,
        {
            let i: usize = ordered[k];
            assert(places[k as int] == i as int);
            let ghost before = rows@;
            let app = &a.items[i];
            if self.is_shown(app.app_id.as_str()) {
                let expanded = a.expanded.contains(&app.app_id);
                rows.push(VisibleRow::AppHeader { items_index: i, expanded });
                if expanded {
                    let brs = App::filtered_branches_for(a, app.app_id.as_str(), now);
                    let ghost seen = branches::pointed(brs@);
                    let ghost head = rows@;
                    let mut b: usize = 0;
                    assert(head + v.branch_rows(app.app_id, seen, 0) =~= head);
                    while b < brs.len()
                        invariant
                            b <= brs.len(),
                            self.wf(),
                            v == self@,
                            seen == branches::pointed(brs@),
                            rows@ == head + v.branch_rows(app.app_id, seen, b as int),
                        decreases brs.len() - b,
                    {
                        assert(seen[b as int] == *brs@[b as int]);
                        let name = &brs[b].branch_name;
                        let ghost mid = rows@;
                        rows.push(
                            VisibleRow::Branch { app_id: app.app_id.clone(), branch_name: name.clone() },
                        );
                        self.push_deployments(&mut rows, &app.app_id, name);
                        assert(rows@ =~= head + v.branch_rows(app.app_id, seen, b + 1));
                        b = b + 1;
                    }
                }
            }
            assert(rows@ =~= before + v.app_rows(i as int, now));
            k = k + 1;
        }
        rows
    }

    /// The rows of the list, by the clock of the machine.
    pub fn visible_rows(&self) -> (r: Vec<VisibleRow>)
        requires
            self.wf(),
        ensures
            exists|now: Option<u64>| r@ == #[trigger] self@.rows(now),
    {
        let now: Option<u64> = secs_since_epoch();
        let r = self.visible_rows_at(now);
        assert(r@ == self@.rows(now));
        r
    }

    /// The places of all apps in the order in which they are shown.
    pub(crate) fn ordered_items_indices(&self) -> (r: Vec<usize>)
        requires
            self.wf(),
        ensures
            ints(r@) == ordered_places(self@.apps.items, self@.cfg.order),
    {
        order_places(&self.apps().items, &self.cfg.app_order)
    }

    /// The tab that is shown.
    pub fn active(&self) -> (r: &TabState)
        requires
            self.wf(),
        ensures
            *r == self.tabs@[0],
    {
        &self.tabs[self.active_tab]
    }

    /// The tab that is shown, to be changed.
    pub fn active_mut(&mut self) -> (r: &mut TabState)
        requires
            old(self).wf(),
        ensures
            *r == old(self).tabs@[0],
            final(self).tabs@ == old(self).tabs@.update(0, *final(r)),
            final(self).active_tab == old(self).active_tab,
            final(self).cfg == old(self).cfg,
            final(self).status == old(self).status,
            final(self).logs_view == old(self).logs_view,
            final(self).deployment_history == old(self).deployment_history,
            final(self).expanded_branches == old(self).expanded_branches,
    {
        let i: usize = self.active_tab;
        &mut self.tabs[i]
    }

    /// The selected row.
    pub(crate) fn selected_row(&self, now: Option<u64>) -> (r: Option<VisibleRow>)
        requires
            self.wf(),
        ensures
            r == self@.selected_row(now),
    {
        let rows = self.visible_rows_at(now);
        let i: usize = self.selected_index();
        if i < rows.len() {
            Some(rows[i].copy())
        } else {
            None
        }
    }

    pub(crate) fn selected_index(&self) -> (r: usize)
        requires
            self.wf(),
        ensures
            r == self@.apps.selected,
    {
        self.apps().selected
    }

    pub(crate) fn select(&mut self, i: usize)
        requires
            old(self).wf(),
        ensures
            final(self).wf(),
            final(self)@ == old(self)@.at_row(i as int),
    {
        let a = self.apps_mut();
        a.selected = i;
    }

    pub(crate) fn say(&mut self, status: &str)
        requires
            old(self).wf(),
        ensures
            final(self).wf(),
            final(self)@ == old(self)@.with_status(status@),
    {
        self.status = owned(status);
    }

    /// Moves the selection; it stops at the first and at the last row.
    pub fn move_selection(&mut self, delta: isize, now: Option<u64>)
        requires
            old(self).wf(),
        ensures
            final(self).wf(),
            final(self)@ == old(self)@.moved(delta as int, now),
    {
        let n: usize = self.visible_rows_at(now).len();
        if n > 0 {
            let i: usize = clamp_selection(self.selected_index(), delta, n);
            self.select(i);
        }
    }
}

} // verus!
