//! The state of the services browser.

use vstd::prelude::*;

use crate::command;
use crate::command::{as_slice, launched_status, tail_launch_of, with_region, Launch};
use crate::ecs::config::{Config, Tab};
use crate::ecs::ecs;
use crate::ecs::ecs::{
    awslogs_group_for_task_def, image_for_task_def, repository_label_of, Item, Service, TaskDefinition,
};
use crate::numeral;
use crate::numeral::dec_size;
use crate::tabs;
use crate::tabs::{
    begin_load, copied_status, finish_load, move_active, opened_status, pick_region, url_region, BrowserV,
    ListTab, ListV,
};
use crate::text;
use crate::text::{
    byte_len, cat2, cat3, cat4, cat5, cat6, copy_opt, last_piece, owned, quote, str_eq, text_or_empty, trim,
};

verus! {

/// What a tab lists.
pub struct TabSpec {
    pub kind: String,
    pub cluster: Option<String>,
    pub region: Option<String>,
}

/// A `TabSpec` by its contents.
#[verifier::ext_equal]
pub struct SpecV {
    pub kind: Seq<char>,
    pub cluster: Option<Seq<char>>,
    pub region: Option<Seq<char>>,
}

impl View for TabSpec {
    type V = SpecV;

    open spec fn view(&self) -> SpecV {
        SpecV {
            kind: self.kind@,
            cluster: text::opt_view(self.cluster),
            region: text::opt_view(self.region),
        }
    }
}

/// The tab names no cluster.
pub open spec fn lacks_cluster(t: Tab) -> bool {
    text::trimmed(text::or_empty(t.cluster)).len() == 0
}

/// What a tab of the settings lists, or why it cannot be.
pub open spec fn resolved(t: Tab, default_region: Option<Seq<char>>) -> Result<SpecV, Seq<char>> {
    let region = tabs::region_or(text::opt_view(t.region), default_region);
    if t.kind@ == "clusters"@ {
        Ok(SpecV { kind: "clusters"@, cluster: None, region })
    } else if t.kind@ == "services"@ {
        if lacks_cluster(t) {
            Err("tab `"@ + t.name@ + "`: kind=\"services\" requires `cluster`"@)
        } else {
            Ok(SpecV { kind: "services"@, cluster: Some(text::or_empty(t.cluster)), region })
        }
    } else {
        Err("tab `"@ + t.name@ + "`: unknown kind "@ + text::quoted(t.kind@))
    }
}

/// The tab lists something known.
pub open spec fn valid_spec(s: SpecV) -> bool {
    s.kind == "clusters"@ || (s.kind == "services"@ && s.cluster is Some)
}

impl TabSpec {
    pub fn resolve(t: &Tab, default_region: Option<&str>) -> (r: Result<TabSpec, String>)
        ensures
            spec_result(r) == resolved(*t, text::opt_str_view(default_region)),
    {
        let region = pick_region(&t.region, default_region);
        if str_eq(t.kind.as_str(), "clusters") {
            Ok(TabSpec { kind: owned("clusters"), cluster: None, region })
        } else if str_eq(t.kind.as_str(), "services") {
            let cluster = text_or_empty(&t.cluster);
            if trim(cluster).is_empty() {
                Err(cat3("tab `", t.name.as_str(), "`: kind=\"services\" requires `cluster`"))
            } else {
                Ok(TabSpec { kind: owned("services"), cluster: Some(owned(cluster)), region })
            }
        } else {
            let kind = quote(t.kind.as_str());
            Err(cat4("tab `", t.name.as_str(), "`: unknown kind ", kind.as_str()))
        }
    }
}

/// A list of clusters or services.
pub type ItemsTab = ListTab<Item>;

/// A tab of clusters or services.
pub type TabState = tabs::TabState<TabSpec, Item>;

/// The contents of a result with a `TabSpec` or an error text.
pub open spec fn spec_result(r: Result<TabSpec, String>) -> Result<SpecV, Seq<char>> {
    match r {
        Ok(s) => Ok(s@),
        Err(e) => Err(e@),
    }
}

/// The first error among the first `i` tabs of the settings.
pub open spec fn tabs_error(t: Seq<Tab>, region: Option<Seq<char>>, i: int) -> Option<Seq<char>>
    decreases i,
{
    if i <= 0 {
        None
    } else {
        match tabs_error(t, region, i - 1) {
            Some(e) => Some(e),
            None => match resolved(t[i - 1], region) {
                Ok(_) => None,
                Err(e) => Some(e),
            },
        }
    }
}

proof fn lemma_first_error(t: Seq<Tab>, region: Option<Seq<char>>, i: int, n: int)
    requires
        0 <= i <= n,
        tabs_error(t, region, i) is Some,
    ensures
        tabs_error(t, region, n) == tabs_error(t, region, i),
    decreases n - i,
{
    if i < n {
        lemma_first_error(t, region, i, n - 1);
    }
}

/// `s` is a tab that was made of `t` and has not been loaded.
pub open spec fn fresh_tab(s: TabState, t: Tab, region: Option<Seq<char>>) -> bool {
    &&& s.name@ == t.name@
    &&& resolved(t, region) == Ok::<SpecV, Seq<char>>(s.spec@)
    &&& s.data@ == ListV::<Item>::empty()
}

/// The tabs that the settings describe, none of them loaded; or the first
/// error among them.
fn make_tabs(cfg: &Config) -> (r: Result<Vec<TabState>, String>)
    ensures
        match r {
            Ok(tabs) => {
                &&& tabs.len() == cfg.tabs.len()
                &&& tabs_error(cfg.tabs@, text::opt_view(cfg.region), cfg.tabs.len() as int) is None
                &&& forall|i: int|
                    0 <= i < tabs.len() ==> fresh_tab(
                        #[trigger] tabs@[i],
                        cfg.tabs@[i],
                        text::opt_view(cfg.region),
                    )
            },
            Err(e) => tabs_error(cfg.tabs@, text::opt_view(cfg.region), cfg.tabs.len() as int) == Some(e@),
        },
{
    let ghost region = text::opt_view(cfg.region);
    let mut tabs: Vec<TabState> = Vec::new();
    let mut i: usize = 0;
    while i < cfg.tabs.len()
        invariant
            i <= cfg.tabs.len(),
            region == text::opt_view(cfg.region),
            tabs.len() == i,
            tabs_error(cfg.tabs@, region, i as int) is None,
            forall|k: int| 0 <= k < i ==> fresh_tab(#[trigger] tabs@[k], cfg.tabs@[k], region),
        decreases cfg.tabs.len() - i,
    {
        let t = &cfg.tabs[i];
        match TabSpec::resolve(t, as_slice(&cfg.region)) {
            Ok(spec) => {
                tabs.push(tabs::TabState { name: t.name.clone(), spec, data: ListTab::empty() });
            },
            Err(e) => {
                proof {
                    lemma_first_error(cfg.tabs@, region, i + 1, cfg.tabs.len() as int);
                }
                return Err(e);
            },
        }
        i = i + 1;
    }
    Ok(tabs)
}

/// What is to be loaded.
pub enum Fetch {
    /// All clusters.
    Clusters { region: Option<String> },
    /// The services of a cluster.
    Services { cluster: String, region: Option<String> },
}

/// `f` asks for what `spec` lists.
pub open spec fn is_fetch(f: Fetch, spec: SpecV) -> bool {
    match f {
        Fetch::Clusters { region } => spec.kind == "clusters"@ && text::opt_view(region) == spec.region,
        Fetch::Services { cluster, region } => {
            &&& spec.kind != "clusters"@
            &&& cluster@ == spec.cluster->0
            &&& text::opt_view(region) == spec.region
        },
    }
}

fn fetch_of(spec: &TabSpec) -> (r: Fetch)
    requires
        valid_spec(spec@),
    ensures
        is_fetch(r, spec@),
{
    if str_eq(spec.kind.as_str(), "clusters") {
        Fetch::Clusters { region: copy_opt(&spec.region) }
    } else {
        Fetch::Services {
            cluster: owned(text_or_empty(&spec.cluster)),
            region: copy_opt(&spec.region),
        }
    }
}

/// What is counted in the status.
pub open spec fn count_label(spec: SpecV) -> Seq<char> {
    if spec.kind == "clusters"@ {
        "clusters"@
    } else if spec.kind == "services"@ {
        "services"@
    } else {
        "items"@
    }
}

fn label_of(spec: &TabSpec) -> (r: &'static str)
    ensures
        r@ == count_label(spec@),
{
    if str_eq(spec.kind.as_str(), "clusters") {
        "clusters"
    } else if str_eq(spec.kind.as_str(), "services") {
        "services"
    } else {
        "items"
    }
}

/// The state of the browser.
pub struct App {
    pub cfg: Config,
    pub tabs: Vec<TabState>,
    pub active_tab: usize,
    pub status: String,
}

/// The name of a cluster at the end of its ARN.
pub open spec fn cluster_name(arn: Seq<char>) -> Seq<char> {
    if text::after_last(arn, '/').len() > 0 {
        text::after_last(arn, '/')
    } else {
        "default"@
    }
}

/// The page of an item in the console.
pub open spec fn console_url(region: Option<Seq<char>>, x: Item) -> Seq<char> {
    let r = tabs::region_in_url(region);
    let head = "https://"@ + r + ".console.aws.amazon.com/ecs/v2/clusters/"@;
    match x {
        Item::Cluster(c) => head + c.name@ + "/services?region="@ + r,
        Item::Service(s) => head + cluster_name(s.cluster_arn@) + "/services/"@ + s.name@ + "?region="@ + r,
    }
}

/// A task definition that is to be read, for a service.
pub struct Describe {
    pub task_definition: String,
    /// The name of the service.
    pub label: String,
    pub region: Option<String>,
}

/// The task definition of the selected service, or why there is none; `other` is
/// said where a cluster is selected.
pub open spec fn to_describe(b: BrowserV<TabSpec, Item>, other: Seq<char>) -> Result<
    (Seq<char>, Seq<char>),
    Seq<char>,
> {
    match b.list().focused() {
        None => Err("no item under cursor"@),
        Some(Item::Cluster(_)) => Err(other),
        Some(Item::Service(s)) => match s.task_definition {
            None => Err("service has no task definition reference"@),
            Some(td) => Ok((td@, s.name@)),
        },
    }
}

/// The logs browser on the logs of a task definition, or why it is not started.
pub open spec fn logs_launch(
    label: Seq<char>,
    region: Option<Seq<char>>,
    result: Result<TaskDefinition, String>,
) -> Result<command::LaunchV, Seq<char>> {
    match result {
        Err(e) => Err("describe-task-definition: "@ + e@),
        Ok(td) => match ecs::task_log_group(td) {
            None => Err("no awslogs container in task definition — uses a non-CloudWatch driver"@),
            Some(g) => Ok(command::tail_launch(g, label, region, "tailing "@ + g)),
        },
    }
}

/// The images browser for a task definition, or why it is not started.
pub open spec fn ecr_launch(
    label: Seq<char>,
    region: Option<Seq<char>>,
    result: Result<TaskDefinition, String>,
) -> Result<command::LaunchV, Seq<char>> {
    match result {
        Err(e) => Err("describe-task-definition: "@ + e@),
        Ok(td) => match ecs::task_image(td) {
            None => Err("no container image in task definition"@),
            Some(image) => Ok(
                command::LaunchV {
                    program: "mnml-aws-ecr"@,
                    args: command::region_option(region),
                    done: "launched mnml-aws-ecr — navigate to "@ + ecs::repository_label(image)
                        + " (service "@ + label + ", auto-scope is v0.x)"@,
                    failed: "spawn mnml-aws-ecr failed (install it?): "@,
                },
            ),
        },
    }
}

impl App {
    /// The settings are the same.
    pub open spec fn same_aside(self, other: App) -> bool {
        self.cfg == other.cfg
    }

    /// The tabs, the one that is shown, and the status.
    pub open spec fn browser(self) -> BrowserV<TabSpec, Item> {
        BrowserV {
            tabs: tabs::tab_views(self.tabs@),
            active_tab: self.active_tab as int,
            status: self.status@,
        }
    }

    /// One of the tabs is shown, and every tab lists something known.
    pub open spec fn wf(self) -> bool {
        &&& self.active_tab < self.tabs@.len()
        &&& forall|i: int| 0 <= i < self.tabs@.len() ==> valid_spec((#[trigger] self.tabs@[i]).spec@)
    }

    /// The browser of some settings, before anything was loaded; or the first
    /// error in the settings.
    pub fn new(cfg: Config) -> (r: Result<App, String>)
        requires
            cfg.tabs.len() > 0,
        ensures
            match r {
                Ok(app) => {
                    &&& app.wf()
                    &&& app.cfg == cfg
                    &&& app.active_tab == 0
                    &&& app.status@ == Seq::<char>::empty()
                    &&& app.tabs.len() == cfg.tabs.len()
                    &&& tabs_error(cfg.tabs@, text::opt_view(cfg.region), cfg.tabs.len() as int) is None
                    &&& forall|i: int|
                        0 <= i < app.tabs.len() ==> fresh_tab(
                            #[trigger] app.tabs@[i],
                            cfg.tabs@[i],
                            text::opt_view(cfg.region),
                        )
                },
                Err(e) => tabs_error(cfg.tabs@, text::opt_view(cfg.region), cfg.tabs.len() as int) == Some(e@),
            },
    {
        match make_tabs(&cfg) {
            Ok(tabs) => {
                let app = App { cfg, tabs, active_tab: 0, status: String::new() };
                assert(forall|i: int| 0 <= i < app.tabs@.len() ==> fresh_tab(
                    #[trigger] app.tabs@[i],
                    cfg.tabs@[i],
                    text::opt_view(cfg.region),
                ) ==> valid_spec(app.tabs@[i].spec@));
                Ok(app)
            },
            Err(e) => Err(e),
        }
    }

    /// The tab that is shown.
    pub fn active(&self) -> (r: &TabState)
        requires
            self.wf(),
        ensures
            *r == self.tabs@[self.active_tab as int],
    {
        &self.tabs[self.active_tab]
    }

    /// The tab that is shown, to be changed.
    pub fn active_mut(&mut self) -> (r: &mut TabState)
        requires
            old(self).wf(),
        ensures
            *r == old(self).tabs@[old(self).active_tab as int],
            final(self).tabs@ == old(self).tabs@.update(old(self).active_tab as int, *final(r)),
            final(self).active_tab == old(self).active_tab,
            final(self).status == old(self).status,
            final(self).same_aside(*old(self)),
    {
        &mut self.tabs[self.active_tab]
    }

    /// Shows the tab `idx`, if there is one. A tab that was never loaded is to
    /// be loaded.
    pub fn switch_tab(&mut self, idx: usize) -> (r: Option<Fetch>)
        requires
            old(self).wf(),
        ensures
            final(self).wf(),
            final(self).same_aside(*old(self)),
            ({
                let b = old(self).browser().switched(idx as int);
                if old(self).browser().due_on_switch(idx as int) {
                    &&& r is Some
                    &&& final(self).browser() == b.begun()
                    &&& is_fetch(r->0, b.active().spec@)
                } else {
                    r is None && final(self).browser() == b
                }
            }),
    {
        if idx < self.tabs.len() {
            self.active_tab = idx;
            let data = &self.tabs[idx].data;
            if data.items.len() == 0 && data.last_error.is_none() {
                return Some(self.refresh_active());
            }
        }
        None
    }

    /// Moves the selection; it stops at the first and at the last row.
    pub fn move_selection(&mut self, delta: isize)
        requires
            old(self).wf(),
        ensures
            final(self).wf(),
            final(self).same_aside(*old(self)),
            final(self).browser() == old(self).browser().moved(delta as int),
    {
        move_active(&mut self.tabs, self.active_tab, delta);
        proof {
            self.lemma_same_specs(*old(self));
        }
    }

    /// Tabs with the same contents list the same.
    proof fn lemma_same_specs(self, before: App)
        requires
            before.wf(),
            self.active_tab == before.active_tab,
            self.tabs@.len() == before.tabs@.len(),
            forall|i: int|
                0 <= i < self.tabs@.len() ==> tabs::tab_views(self.tabs@)[i].spec == tabs::tab_views(
                    before.tabs@,
                )[i].spec,
        ensures
            self.wf(),
    {
        assert forall|i: int| 0 <= i < self.tabs@.len() implies valid_spec((#[trigger] self.tabs@[i]).spec@) by {
            assert(tabs::tab_views(self.tabs@)[i].spec == tabs::tab_views(before.tabs@)[i].spec);
            assert(valid_spec(before.tabs@[i].spec@));
        }
    }

    /// Notes that the tab that is shown is being loaded, and says what is to
    /// be loaded.
    pub fn refresh_active(&mut self) -> (r: Fetch)
        requires
            old(self).wf(),
        ensures
            final(self).wf(),
            final(self).same_aside(*old(self)),
            final(self).browser() == old(self).browser().begun(),
            is_fetch(r, old(self).browser().active().spec@),
    {
        begin_load(&mut self.tabs, self.active_tab, &mut self.status);
        proof {
            self.lemma_same_specs(*old(self));
        }
        fetch_of(&self.tabs[self.active_tab].spec)
    }

    /// Takes in what was loaded, or why nothing was.
    pub fn refresh_done(&mut self, result: Result<Vec<Item>, String>, now: u64)
        requires
            old(self).wf(),
        ensures
            final(self).wf(),
            final(self).same_aside(*old(self)),
            final(self).browser() == old(self).browser().finished(
                tabs::result_view(result),
                now,
                count_label(old(self).browser().active().spec@),
            ),
    {
        let label = label_of(&self.tabs[self.active_tab].spec);
        finish_load(&mut self.tabs, self.active_tab, &mut self.status, result, now, label);
        proof {
            self.lemma_same_specs(*old(self));
        }
    }

    /// Says what is to be loaded where the tab that is shown was last loaded
    /// too long ago.
    pub fn tick(&mut self, now: u64) -> (r: Option<Fetch>)
        requires
            old(self).wf(),
        ensures
            final(self).wf(),
            final(self).same_aside(*old(self)),
            ({
                let b = old(self).browser();
                if b.due(old(self).cfg.refresh_interval_secs, now) {
                    r is Some && final(self).browser() == b.begun() && is_fetch(r->0, b.active().spec@)
                } else {
                    r is None && final(self).browser() == b
                }
            }),
    {
        let interval: u64 = self.cfg.refresh_interval_secs;
        if interval == 0 {
            return None;
        }
        let data = &self.tabs[self.active_tab].data;
        if data.is_stale(interval, now) && !data.loading {
            Some(self.refresh_active())
        } else {
            None
        }
    }

    /// Nothing arrives in the background here.
    pub fn drain(&mut self) -> (r: bool)
        ensures
            !r,
            *final(self) == *old(self),
    {
        false
    }

    /// The selected item.
    pub fn focused_item(&self) -> (r: Option<&Item>)
        requires
            self.wf(),
        ensures
            match r {
                Some(x) => self.browser().list().focused() == Some(*x),
                None => self.browser().list().focused() is None,
            },
    {
        self.tabs[self.active_tab].data.focused()
    }

    /// Notes how opening a page went.
    pub fn opened(&mut self, url: &str, result: &Result<(), String>)
        ensures
            final(self).same_aside(*old(self)),
            final(self).browser() == old(self).browser().with_status(tabs::opened(url@, *result)),
            old(self).wf() ==> final(self).wf(),
    {
        self.status = opened_status(url, result);
    }

    /// Sets the status where nothing can be done with the selection.
    fn say(&mut self, status: &str)
        requires
            old(self).wf(),
        ensures
            final(self).wf(),
            final(self).same_aside(*old(self)),
            final(self).browser() == old(self).browser().with_status(status@),
    {
        self.status = owned(status);
    }

    /// The page of the selected item in the console.
    pub fn open_console(&mut self) -> (r: Option<String>)
        requires
            old(self).wf(),
        ensures
            final(self).wf(),
            final(self).same_aside(*old(self)),
            ({
                let b = old(self).browser();
                match b.list().focused() {
                    Some(x) => {
                        &&& final(self).browser() == b
                        &&& text::opt_view(r) == Some(console_url(b.active().spec@.region, x))
                    },
                    None => r is None && final(self).browser() == b.with_status("no item under cursor"@),
                }
            }),
    {
        let spec = &self.tabs[self.active_tab].spec;
        let region = url_region(&spec.region);
        let url = match self.focused_item() {
            Some(Item::Cluster(c)) => cat6(
                "https://",
                region,
                ".console.aws.amazon.com/ecs/v2/clusters/",
                c.name.as_str(),
                "/services?region=",
                region,
            ),
            Some(Item::Service(s)) => {
                let last = last_piece(s.cluster_arn.as_str(), '/');
                let cluster = if last.is_empty() { "default" } else { last };
                let first = cat4(
                    "https://",
                    region,
                    ".console.aws.amazon.com/ecs/v2/clusters/",
                    cluster,
                );
                cat5(first.as_str(), "/services/", s.name.as_str(), "?region=", region)
            },
            None => {
                self.say("no item under cursor");
                return None;
            },
        };
        Some(url)
    }

    /// The ARN of the selected item, to be copied.
    pub fn yank_arn(&mut self) -> (r: Option<String>)
        requires
            old(self).wf(),
        ensures
            final(self).wf(),
            final(self).same_aside(*old(self)),
            ({
                let b = old(self).browser();
                match b.list().focused() {
                    Some(x) => final(self).browser() == b && text::opt_view(r) == Some(ecs::item_arn(x)),
                    None => r is None && final(self).browser() == b.with_status("no item under cursor"@),
                }
            }),
    {
        match self.focused_item() {
            Some(x) => Some(owned(x.arn())),
            None => {
                self.say("no item under cursor");
                None
            },
        }
    }

    /// Notes how copying an ARN went; the status counts its bytes.
    pub fn arn_copied(&mut self, arn: &str, result: &Result<(), String>)
        ensures
            final(self).same_aside(*old(self)),
            final(self).browser() == old(self).browser().with_status(
                tabs::copied(
                    "copied ARN ("@ + numeral::decimal(vstd::utf8::encode_utf8(arn@).len()) + " chars)"@,
                    *result,
                ),
            ),
            old(self).wf() ==> final(self).wf(),
    {
        let n = dec_size(byte_len(arn));
        let done = cat3("copied ARN (", n.as_str(), " chars)");
        self.status = copied_status(done.as_str(), result);
    }

    /// The task definition of the selected service; `other` is said where a
    /// cluster is selected.
    fn describe_focused(&mut self, other: &str) -> (r: Option<Describe>)
        requires
            old(self).wf(),
        ensures
            final(self).wf(),
            final(self).same_aside(*old(self)),
            ({
                let b = old(self).browser();
                match to_describe(b, other@) {
                    Ok((td, label)) => {
                        &&& final(self).browser() == b
                        &&& r matches Some(d) && d.task_definition@ == td && d.label@ == label
                            && text::opt_view(d.region) == b.active().spec@.region
                    },
                    Err(m) => r is None && final(self).browser() == b.with_status(m),
                }
            }),
    {
        let region = copy_opt(&self.tabs[self.active_tab].spec.region);
        match self.focused_item() {
            None => {
                self.say("no item under cursor");
                None
            },
            Some(Item::Cluster(_)) => {
                self.say(other);
                None
            },
            Some(Item::Service(s)) => match &s.task_definition {
                None => {
                    self.say("service has no task definition reference");
                    None
                },
                Some(td) => Some(
                    Describe { task_definition: td.clone(), label: s.name.clone(), region },
                ),
            },
        }
    }

    /// The task definition that is to be read for the logs of the selected
    /// service.
    pub fn tail_logs(&mut self) -> (r: Option<Describe>)
        requires
            old(self).wf(),
        ensures
            final(self).wf(),
            final(self).same_aside(*old(self)),
            ({
                let b = old(self).browser();
                match to_describe(b, "tail logs is only available on services"@) {
                    Ok((td, label)) => {
                        &&& final(self).browser() == b
                        &&& r matches Some(d) && d.task_definition@ == td && d.label@ == label
                            && text::opt_view(d.region) == b.active().spec@.region
                    },
                    Err(m) => r is None && final(self).browser() == b.with_status(m),
                }
            }),
    {
        self.describe_focused("tail logs is only available on services")
    }

    /// The logs browser that is to be started, once the task definition has been
    /// read.
    pub fn logs_described(&mut self, d: &Describe, result: Result<TaskDefinition, String>) -> (r: Option<
        Launch,
    >)
        requires
            old(self).wf(),
        ensures
            final(self).wf(),
            final(self).same_aside(*old(self)),
            match logs_launch(d.label@, text::opt_view(d.region), result) {
                Ok(l) => final(self).browser() == old(self).browser() && command::opt_launch(r) == Some(l),
                Err(m) => r is None && final(self).browser() == old(self).browser().with_status(m),
            },
    {
        let td = match result {
            Ok(td) => td,
            Err(e) => {
                let m = cat2("describe-task-definition: ", e.as_str());
                self.say(m.as_str());
                return None;
            },
        };
        match awslogs_group_for_task_def(&td) {
            None => {
                self.say("no awslogs container in task definition — uses a non-CloudWatch driver");
                None
            },
            Some(g) => {
                let done = cat2("tailing ", g.as_str());
                Some(tail_launch_of(g.as_str(), d.label.as_str(), as_slice(&d.region), done))
            },
        }
    }

    /// The task definition that is to be read for the image of the selected
    /// service.
    pub fn handoff_ecr(&mut self) -> (r: Option<Describe>)
        requires
            old(self).wf(),
        ensures
            final(self).wf(),
            final(self).same_aside(*old(self)),
            ({
                let b = old(self).browser();
                match to_describe(b, "R registry-jump is only available on services"@) {
                    Ok((td, label)) => {
                        &&& final(self).browser() == b
                        &&& r matches Some(d) && d.task_definition@ == td && d.label@ == label
                            && text::opt_view(d.region) == b.active().spec@.region
                    },
                    Err(m) => r is None && final(self).browser() == b.with_status(m),
                }
            }),
    {
        self.describe_focused("R registry-jump is only available on services")
    }

    /// The images browser that is to be started, once the task definition has
    /// been read.
    pub fn ecr_described(&mut self, d: &Describe, result: Result<TaskDefinition, String>) -> (r: Option<
        Launch,
    >)
        requires
            old(self).wf(),
        ensures
            final(self).wf(),
            final(self).same_aside(*old(self)),
            match ecr_launch(d.label@, text::opt_view(d.region), result) {
                Ok(l) => final(self).browser() == old(self).browser() && command::opt_launch(r) == Some(l),
                Err(m) => r is None && final(self).browser() == old(self).browser().with_status(m),
            },
    {
        let td = match result {
            Ok(td) => td,
            Err(e) => {
                let m = cat2("describe-task-definition: ", e.as_str());
                self.say(m.as_str());
                return None;
            },
        };
        match image_for_task_def(&td) {
            None => {
                self.say("no container image in task definition");
                None
            },
            Some(image) => {
                let none: Vec<String> = Vec::new();
                assert(text::views(none@) =~= Seq::empty());
                let args = with_region(none, as_slice(&d.region));
                assert(text::views(args@) =~= command::region_option(text::opt_view(d.region)));
                let repo = repository_label_of(image.as_str());
                Some(
                    Launch {
                        program: owned("mnml-aws-ecr"),
                        args,
                        done: cat5(
                            "launched mnml-aws-ecr — navigate to ",
                            repo.as_str(),
                            " (service ",
                            d.label.as_str(),
                            ", auto-scope is v0.x)",
                        ),
                        failed: owned("spawn mnml-aws-ecr failed (install it?): "),
                    },
                )
            },
        }
    }

    /// Notes how starting another browser went.
    pub fn launched(&mut self, l: &Launch, result: &Result<(), String>)
        ensures
            final(self).same_aside(*old(self)),
            final(self).browser() == old(self).browser().with_status(command::launch_status(l@, *result)),
            old(self).wf() ==> final(self).wf(),
    {
        self.status = launched_status(l, result);
    }
}

/// What is resolved lists something known: a list of services has its cluster.
pub proof fn law_resolved_is_valid(t: Tab, region: Option<Seq<char>>)
    ensures
        resolved(t, region) matches Ok(s) ==> valid_spec(s),
{
}

/// A service always has a page in the console, even where its ARN does not name a
/// cluster.
pub proof fn law_service_page_names_a_cluster(s: Service)
    ensures
        cluster_name(s.cluster_arn@).len() > 0,
{
    reveal_strlit("default");
}

} // verus!
