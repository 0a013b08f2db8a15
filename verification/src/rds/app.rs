//! The state of the databases browser.

use vstd::prelude::*;

use crate::command;
use crate::command::{as_slice, launched_status, tail_launch_of, Launch};
use crate::numeral;
use crate::numeral::dec_size;
use crate::rds::config::{Config, Tab};
use crate::rds::rds::Item;
use crate::tabs;
use crate::tabs::{
    begin_load, copied_status, finish_load, move_active, opened_status, pick_region, url_region, BrowserV,
    ListTab, ListV,
};
use crate::text;
use crate::text::{
    byte_len, cat2, cat3, cat4, cat5, cat7, copy_opt, owned, quote, starts_with, str_eq, to_ascii_lower,
};

verus! {

/// What a tab lists.
pub struct TabSpec {
    pub kind: String,
    pub region: Option<String>,
}

/// A `TabSpec` by its contents.
pub struct SpecV {
    pub kind: Seq<char>,
    pub region: Option<Seq<char>>,
}

impl View for TabSpec {
    type V = SpecV;

    open spec fn view(&self) -> SpecV {
        SpecV { kind: self.kind@, region: text::opt_view(self.region) }
    }
}

/// What a tab of the settings lists, or why it cannot be.
pub open spec fn resolved(t: Tab, default_region: Option<Seq<char>>) -> Result<SpecV, Seq<char>> {
    if t.kind@ == "instances"@ || t.kind@ == "clusters"@ {
        Ok(
            SpecV {
                kind: t.kind@,
                region: tabs::region_or(text::opt_view(t.region), default_region),
            },
        )
    } else {
        Err("tab `"@ + t.name@ + "`: unknown kind "@ + text::quoted(t.kind@))
    }
}

/// The tab lists something known.
pub open spec fn valid_spec(s: SpecV) -> bool {
    s.kind == "instances"@ || s.kind == "clusters"@
}

impl TabSpec {
    pub fn resolve(t: &Tab, default_region: Option<&str>) -> (r: Result<TabSpec, String>)
        ensures
            spec_result(r) == resolved(*t, text::opt_str_view(default_region)),
    {
        let region = pick_region(&t.region, default_region);
        if str_eq(t.kind.as_str(), "instances") || str_eq(t.kind.as_str(), "clusters") {
            Ok(TabSpec { kind: t.kind.clone(), region })
        } else {
            let kind = quote(t.kind.as_str());
            Err(cat4("tab `", t.name.as_str(), "`: unknown kind ", kind.as_str()))
        }
    }
}

/// A list of items.
pub type ItemsTab = ListTab<Item>;

/// A tab of items.
pub type TabState = tabs::TabState<TabSpec, Item>;

/// The contents of a result with a `TabSpec` or an error text.
pub open spec fn spec_result(r: Result<TabSpec, String>) -> Result<SpecV, Seq<char>> {
    match r {
        Ok(s) => Ok(s@),
        Err(e) => Err(e@),
    }
}

/// The first error among the first `i` tabs of the settings.
pub open spec fn tabs_error(t: Seq<Tab>, region: Option<Seq<char>>, i: int) -> Option<Seq<char>>
    decreases i,
{
    if i <= 0 {
        None
    } else {
        match tabs_error(t, region, i - 1) {
            Some(e) => Some(e),
            None => match resolved(t[i - 1], region) {
                Ok(_) => None,
                Err(e) => Some(e),
            },
        }
    }
}

proof fn lemma_first_error(t: Seq<Tab>, region: Option<Seq<char>>, i: int, n: int)
    requires
        0 <= i <= n,
        tabs_error(t, region, i) is Some,
    ensures
        tabs_error(t, region, n) == tabs_error(t, region, i),
    decreases n - i,
{
    if i < n {
        lemma_first_error(t, region, i, n - 1);
    }
}

/// `s` is a tab that was made of `t` and has not been loaded.
pub open spec fn fresh_tab(s: TabState, t: Tab, region: Option<Seq<char>>) -> bool {
    &&& s.name@ == t.name@
    &&& resolved(t, region) == Ok::<SpecV, Seq<char>>(s.spec@)
    &&& s.data@ == ListV::<Item>::empty()
}

/// The tabs that the settings describe, none of them loaded; or the first
/// error among them.
fn make_tabs(cfg: &Config) -> (r: Result<Vec<TabState>, String>)
    ensures
        match r {
            Ok(tabs) => {
                &&& tabs.len() == cfg.tabs.len()
                &&& tabs_error(cfg.tabs@, text::opt_view(cfg.region), cfg.tabs.len() as int) is None
                &&& forall|i: int|
                    0 <= i < tabs.len() ==> fresh_tab(
                        #[trigger] tabs@[i],
                        cfg.tabs@[i],
                        text::opt_view(cfg.region),
                    )
            },
            Err(e) => tabs_error(cfg.tabs@, text::opt_view(cfg.region), cfg.tabs.len() as int) == Some(e@),
        },
{
    let ghost region = text::opt_view(cfg.region);
    let mut tabs: Vec<TabState> = Vec::new();
    let mut i: usize = 0;
    while i < cfg.tabs.len()
        invariant
            i <= cfg.tabs.len(),
            region == text::opt_view(cfg.region),
            tabs.len() == i,
            tabs_error(cfg.tabs@, region, i as int) is None,
            forall|k: int| 0 <= k < i ==> fresh_tab(#[trigger] tabs@[k], cfg.tabs@[k], region),
        decreases cfg.tabs.len() - i,
    {
        let t = &cfg.tabs[i];
        match TabSpec::resolve(t, as_slice(&cfg.region)) {
            Ok(spec) => {
                tabs.push(tabs::TabState { name: t.name.clone(), spec, data: ListTab::empty() });
            },
            Err(e) => {
                proof {
                    lemma_first_error(cfg.tabs@, region, i + 1, cfg.tabs.len() as int);
                }
                return Err(e);
            },
        }
        i = i + 1;
    }
    Ok(tabs)
}

/// What is to be loaded.
pub enum Fetch {
    Instances { region: Option<String> },
    Clusters { region: Option<String> },
}

/// `f` asks for what `spec` lists.
pub open spec fn is_fetch(f: Fetch, spec: SpecV) -> bool {
    match f {
        Fetch::Instances { region } => spec.kind == "instances"@ && text::opt_view(region) == spec.region,
        Fetch::Clusters { region } => spec.kind != "instances"@ && text::opt_view(region) == spec.region,
    }
}

fn fetch_of(spec: &TabSpec) -> (r: Fetch)
    ensures
        is_fetch(r, spec@),
{
    if str_eq(spec.kind.as_str(), "instances") {
        Fetch::Instances { region: copy_opt(&spec.region) }
    } else {
        Fetch::Clusters { region: copy_opt(&spec.region) }
    }
}

/// What is counted in the status.
pub open spec fn count_label(spec: SpecV) -> Seq<char> {
    if spec.kind == "instances"@ {
        "instances"@
    } else if spec.kind == "clusters"@ {
        "clusters"@
    } else {
        "items"@
    }
}

fn label_of(spec: &TabSpec) -> (r: &'static str)
    ensures
        r@ == count_label(spec@),
{
    if str_eq(spec.kind.as_str(), "instances") {
        "instances"
    } else if str_eq(spec.kind.as_str(), "clusters") {
        "clusters"
    } else {
        "items"
    }
}

/// The state of the browser.
pub struct App {
    pub cfg: Config,
    pub tabs: Vec<TabState>,
    pub active_tab: usize,
    pub status: String,
}

/// The page of an item in the console.
pub open spec fn console_url(region: Option<Seq<char>>, item: Item) -> Seq<char> {
    let r = tabs::region_in_url(region);
    "https://"@ + r + ".console.aws.amazon.com/rds/home?region="@ + r + "#database:id="@ + item.id() + (
    match item {
        Item::Instance(_) => ";is-cluster=false"@,
        Item::Cluster(_) => ";is-cluster=true"@,
    })
}

/// The engine in lower case, or nothing.
pub open spec fn engine_lower(engine: Option<Seq<char>>) -> Seq<char> {
    text::ascii_lower(
        match engine {
            Some(e) => e,
            None => ""@,
        },
    )
}

/// The stream that holds the errors of an engine.
pub open spec fn log_stream(engine: Option<Seq<char>>) -> Seq<char> {
    let e = engine_lower(engine);
    if text::has_prefix(e, "postgres"@) || text::has_prefix(e, "aurora-postgres"@) {
        "postgresql"@
    } else if text::has_prefix(e, "oracle"@) {
        "trace"@
    } else {
        "error"@
    }
}

/// The log group of an instance.
pub open spec fn log_group(identifier: Seq<char>, engine: Option<Seq<char>>) -> Seq<char> {
    "/aws/rds/instance/"@ + identifier + "/"@ + log_stream(engine)
}

pub fn log_group_for(identifier: &str, engine: Option<&str>) -> (r: String)
    ensures
        r@ == log_group(identifier@, text::opt_str_view(engine)),
{
    let e = to_ascii_lower(
        match engine {
            Some(e) => e,
            None => "",
        },
    );
    let stream = if starts_with(e.as_str(), "postgres") || starts_with(e.as_str(), "aurora-postgres") {
        "postgresql"
    } else if starts_with(e.as_str(), "oracle") {
        "trace"
    } else {
        "error"
    };
    cat4("/aws/rds/instance/", identifier, "/", stream)
}

/// The browser for an engine's databases.
pub open spec fn db_browser(engine: Option<Seq<char>>) -> Option<Seq<char>> {
    let e = engine_lower(engine);
    if text::has_prefix(e, "postgres"@) || text::has_prefix(e, "aurora-postgres"@) {
        Some("mnml-db-postgres"@)
    } else if text::has_prefix(e, "mariadb"@) || text::has_prefix(e, "mysql"@) || text::has_prefix(
        e,
        "aurora-mysql"@,
    ) {
        Some("mnml-db-mariadb"@)
    } else {
        None
    }
}

fn db_browser_of(engine: Option<&str>) -> (r: Option<&'static str>)
    ensures
        text::opt_str_view(r) == db_browser(text::opt_str_view(engine)),
{
    let e = to_ascii_lower(
        match engine {
            Some(e) => e,
            None => "",
        },
    );
    let e = e.as_str();
    if starts_with(e, "postgres") || starts_with(e, "aurora-postgres") {
        Some("mnml-db-postgres")
    } else if starts_with(e, "mariadb") || starts_with(e, "mysql") || starts_with(e, "aurora-mysql") {
        Some("mnml-db-mariadb")
    } else {
        None
    }
}

/// The start of a database browser, in which the user goes on to connect to
/// `id`; or what the status says where there is none for the engine.
pub open spec fn db_launch(id: Seq<char>, engine: Option<Seq<char>>) -> Result<command::LaunchV, Seq<char>> {
    match db_browser(engine) {
        Some(binary) => Ok(
            command::LaunchV {
                program: binary,
                args: Seq::empty(),
                done: "launched "@ + binary + " — connect to "@ + id + " (auto-connect is v0.x)"@,
                failed: "spawn "@ + binary + " failed (install it?): "@,
            },
        ),
        None => Err(
            "no db sibling for engine `"@ + (match engine {
                Some(e) => e,
                None => Seq::empty(),
            }) + "` — supported: postgres, mariadb, mysql"@,
        ),
    }
}

fn db_launch_of(id: &str, engine: Option<&str>) -> (r: Result<Launch, String>)
    ensures
        match (r, db_launch(id@, text::opt_str_view(engine))) {
            (Ok(l), Ok(v)) => l@ == v,
            (Err(e), Err(m)) => e@ == m,
            _ => false,
        },
{
    match db_browser_of(engine) {
        Some(binary) => {
            let args: Vec<String> = Vec::new();
            assert(text::views(args@) =~= Seq::empty());
            Ok(
                Launch {
                    program: owned(binary),
                    args,
                    done: cat5("launched ", binary, " — connect to ", id, " (auto-connect is v0.x)"),
                    failed: cat3("spawn ", binary, " failed (install it?): "),
                },
            )
        },
        None => {
            let name = match engine {
                Some(e) => owned(e),
                None => String::new(),
            };
            Err(
                cat3(
                    "no db sibling for engine `",
                    name.as_str(),
                    "` — supported: postgres, mariadb, mysql",
                ),
            )
        },
    }
}

/// The name of an item in the logs browser.
pub open spec fn tail_name(item: Item) -> Seq<char> {
    match item {
        Item::Instance(i) => i.identifier@,
        Item::Cluster(c) => c.identifier@ + " (cluster)"@,
    }
}

fn engine_slice(item: &Item) -> (r: Option<&str>)
    ensures
        text::opt_str_view(r) == text::opt_view(item.engine()),
{
    match item {
        Item::Instance(i) => as_slice(&i.engine),
        Item::Cluster(c) => as_slice(&c.engine),
    }
}

impl App {
    /// The settings are the same.
    pub open spec fn same_aside(self, other: App) -> bool {
        self.cfg == other.cfg
    }

    /// The tabs, the one that is shown, and the status.
    pub open spec fn browser(self) -> BrowserV<TabSpec, Item> {
        BrowserV {
            tabs: tabs::tab_views(self.tabs@),
            active_tab: self.active_tab as int,
            status: self.status@,
        }
    }

    /// One of the tabs is shown, and every tab lists something known.
    pub open spec fn wf(self) -> bool {
        &&& self.active_tab < self.tabs@.len()
        &&& forall|i: int| 0 <= i < self.tabs@.len() ==> valid_spec((#[trigger] self.tabs@[i]).spec@)
    }

    /// The browser of some settings, before anything was loaded; or the first
    /// error in the settings.
    pub fn new(cfg: Config) -> (r: Result<App, String>)
        requires
            cfg.tabs.len() > 0,
        ensures
            match r {
                Ok(app) => {
                    &&& app.wf()
                    &&& app.cfg == cfg
                    &&& app.active_tab == 0
                    &&& app.status@ == Seq::<char>::empty()
                    &&& app.tabs.len() == cfg.tabs.len()
                    &&& tabs_error(cfg.tabs@, text::opt_view(cfg.region), cfg.tabs.len() as int) is None
                    &&& forall|i: int|
                        0 <= i < app.tabs.len() ==> fresh_tab(
                            #[trigger] app.tabs@[i],
                            cfg.tabs@[i],
                            text::opt_view(cfg.region),
                        )
                },
                Err(e) => tabs_error(cfg.tabs@, text::opt_view(cfg.region), cfg.tabs.len() as int) == Some(e@),
            },
    {
        match make_tabs(&cfg) {
            Ok(tabs) => {
                let app = App { cfg, tabs, active_tab: 0, status: String::new() };
                assert(forall|i: int| 0 <= i < app.tabs@.len() ==> fresh_tab(
                    #[trigger] app.tabs@[i],
                    cfg.tabs@[i],
                    text::opt_view(cfg.region),
                ) ==> valid_spec(app.tabs@[i].spec@));
                Ok(app)
            },
            Err(e) => Err(e),
        }
    }

    /// The tab that is shown.
    pub fn active(&self) -> (r: &TabState)
        requires
            self.wf(),
        ensures
            *r == self.tabs@[self.active_tab as int],
    {
        &self.tabs[self.active_tab]
    }

    /// The tab that is shown, to be changed.
    pub fn active_mut(&mut self) -> (r: &mut TabState)
        requires
            old(self).wf(),
        ensures
            *r == old(self).tabs@[old(self).active_tab as int],
            final(self).tabs@ == old(self).tabs@.update(old(self).active_tab as int, *final(r)),
            final(self).active_tab == old(self).active_tab,
            final(self).status == old(self).status,
            final(self).same_aside(*old(self)),
    {
        &mut self.tabs[self.active_tab]
    }

    /// Shows the tab `idx`, if there is one. A tab that was never loaded is to
    /// be loaded.
    pub fn switch_tab(&mut self, idx: usize) -> (r: Option<Fetch>)
        requires
            old(self).wf(),
        ensures
            final(self).wf(),
            final(self).same_aside(*old(self)),
            ({
                let b = old(self).browser().switched(idx as int);
                if old(self).browser().due_on_switch(idx as int) {
                    &&& r is Some
                    &&& final(self).browser() == b.begun()
                    &&& is_fetch(r->0, b.active().spec@)
                } else {
                    r is None && final(self).browser() == b
                }
            }),
    {
        if idx < self.tabs.len() {
            self.active_tab = idx;
            let data = &self.tabs[idx].data;
            if data.items.len() == 0 && data.last_error.is_none() {
                return Some(self.refresh_active());
            }
        }
        None
    }

    /// Moves the selection; it stops at the first and at the last row.
    pub fn move_selection(&mut self, delta: isize)
        requires
            old(self).wf(),
        ensures
            final(self).wf(),
            final(self).same_aside(*old(self)),
            final(self).browser() == old(self).browser().moved(delta as int),
    {
        move_active(&mut self.tabs, self.active_tab, delta);
        proof {
            self.lemma_same_specs(*old(self));
        }
    }

    /// Tabs with the same contents list the same.
    proof fn lemma_same_specs(self, before: App)
        requires
            before.wf(),
            self.active_tab == before.active_tab,
            self.tabs@.len() == before.tabs@.len(),
            forall|i: int|
                0 <= i < self.tabs@.len() ==> tabs::tab_views(self.tabs@)[i].spec == tabs::tab_views(
                    before.tabs@,
                )[i].spec,
        ensures
            self.wf(),
    {
        assert forall|i: int| 0 <= i < self.tabs@.len() implies valid_spec((#[trigger] self.tabs@[i]).spec@) by {
            assert(tabs::tab_views(self.tabs@)[i].spec == tabs::tab_views(before.tabs@)[i].spec);
            assert(valid_spec(before.tabs@[i].spec@));
        }
    }

    /// Notes that the tab that is shown is being loaded, and says what is to
    /// be loaded.
    pub fn refresh_active(&mut self) -> (r: Fetch)
        requires
            old(self).wf(),
        ensures
            final(self).wf(),
            final(self).same_aside(*old(self)),
            final(self).browser() == old(self).browser().begun(),
            is_fetch(r, old(self).browser().active().spec@),
    {
        begin_load(&mut self.tabs, self.active_tab, &mut self.status);
        proof {
            self.lemma_same_specs(*old(self));
        }
        fetch_of(&self.tabs[self.active_tab].spec)
    }

    /// Takes in what was loaded, or why nothing was.
    pub fn refresh_done(&mut self, result: Result<Vec<Item>, String>, now: u64)
        requires
            old(self).wf(),
        ensures
            final(self).wf(),
            final(self).same_aside(*old(self)),
            final(self).browser() == old(self).browser().finished(
                tabs::result_view(result),
                now,
                count_label(old(self).browser().active().spec@),
            ),
    {
        let label = label_of(&self.tabs[self.active_tab].spec);
        finish_load(&mut self.tabs, self.active_tab, &mut self.status, result, now, label);
        proof {
            self.lemma_same_specs(*old(self));
        }
    }

    /// Says what is to be loaded where the tab that is shown was last loaded
    /// too long ago.
    pub fn tick(&mut self, now: u64) -> (r: Option<Fetch>)
        requires
            old(self).wf(),
        ensures
            final(self).wf(),
            final(self).same_aside(*old(self)),
            ({
                let b = old(self).browser();
                if b.due(old(self).cfg.refresh_interval_secs, now) {
                    r is Some && final(self).browser() == b.begun() && is_fetch(r->0, b.active().spec@)
                } else {
                    r is None && final(self).browser() == b
                }
            }),
    {
        let interval: u64 = self.cfg.refresh_interval_secs;
        if interval == 0 {
            return None;
        }
        let data = &self.tabs[self.active_tab].data;
        if data.is_stale(interval, now) && !data.loading {
            Some(self.refresh_active())
        } else {
            None
        }
    }

    /// Nothing arrives in the background here.
    pub fn drain(&mut self) -> (r: bool)
        ensures
            !r,
            *final(self) == *old(self),
    {
        false
    }

    /// The selected item.
    pub fn focused_item(&self) -> (r: Option<&Item>)
        requires
            self.wf(),
        ensures
            match r {
                Some(x) => self.browser().list().focused() == Some(*x),
                None => self.browser().list().focused() is None,
            },
    {
        self.tabs[self.active_tab].data.focused()
    }

    /// Notes how opening a page went.
    pub fn opened(&mut self, url: &str, result: &Result<(), String>)
        ensures
            final(self).same_aside(*old(self)),
            final(self).browser() == old(self).browser().with_status(tabs::opened(url@, *result)),
            old(self).wf() ==> final(self).wf(),
    {
        self.status = opened_status(url, result);
    }

    /// Sets the status where no item is selected.
    fn no_item(&mut self)
        requires
            old(self).wf(),
        ensures
            final(self).wf(),
            final(self).same_aside(*old(self)),
            final(self).browser() == old(self).browser().with_status("no item under cursor"@),
    {
        self.status = owned("no item under cursor");
    }

    /// The page of the selected item in the console.
    pub fn open_console(&mut self) -> (r: Option<String>)
        requires
            old(self).wf(),
        ensures
            final(self).wf(),
            final(self).same_aside(*old(self)),
            ({
                let b = old(self).browser();
                match b.list().focused() {
                    Some(x) => {
                        &&& final(self).browser() == b
                        &&& text::opt_view(r) == Some(console_url(b.active().spec@.region, x))
                    },
                    None => r is None && final(self).browser() == b.with_status("no item under cursor"@),
                }
            }),
    {
        let (id, tail) = match self.focused_item() {
            Some(x) => (
                owned(x.primary_label()),
                match x {
                    Item::Instance(_) => ";is-cluster=false",
                    Item::Cluster(_) => ";is-cluster=true",
                },
            ),
            None => {
                self.no_item();
                return None;
            },
        };
        let region = url_region(&self.tabs[self.active_tab].spec.region);
        Some(
            cat7(
                "https://",
                region,
                ".console.aws.amazon.com/rds/home?region=",
                region,
                "#database:id=",
                id.as_str(),
                tail,
            ),
        )
    }

    /// The ARN of the selected item, to be copied.
    pub fn yank_arn(&mut self) -> (r: Option<String>)
        requires
            old(self).wf(),
        ensures
            final(self).wf(),
            final(self).same_aside(*old(self)),
            ({
                let b = old(self).browser();
                match b.list().focused() {
                    Some(x) => final(self).browser() == b && text::opt_view(r) == Some(x.arn_text()),
                    None => r is None && final(self).browser() == b.with_status("no item under cursor"@),
                }
            }),
    {
        match self.focused_item() {
            Some(x) => Some(owned(x.arn())),
            None => {
                self.no_item();
                None
            },
        }
    }

    /// Notes how copying an ARN went; the status counts its bytes.
    pub fn arn_copied(&mut self, arn: &str, result: &Result<(), String>)
        ensures
            final(self).same_aside(*old(self)),
            final(self).browser() == old(self).browser().with_status(
                tabs::copied(
                    "copied ARN ("@ + numeral::decimal(vstd::utf8::encode_utf8(arn@).len()) + " chars)"@,
                    *result,
                ),
            ),
            old(self).wf() ==> final(self).wf(),
    {
        let n = dec_size(byte_len(arn));
        let done = cat3("copied ARN (", n.as_str(), " chars)");
        self.status = copied_status(done.as_str(), result);
    }

    /// Where the selected item can be reached, to be copied.
    pub fn yank_endpoint(&mut self) -> (r: Option<String>)
        requires
            old(self).wf(),
        ensures
            final(self).wf(),
            final(self).same_aside(*old(self)),
            ({
                let b = old(self).browser();
                match b.list().focused() {
                    Some(x) => match x.reached_at() {
                        Some(e) => final(self).browser() == b && text::opt_view(r) == Some(e),
                        None => r is None && final(self).browser() == b.with_status(
                            "no endpoint exposed for the focused item"@,
                        ),
                    },
                    None => r is None && final(self).browser() == b.with_status("no item under cursor"@),
                }
            }),
    {
        let found = match self.focused_item() {
            Some(x) => x.endpoint(),
            None => {
                self.no_item();
                return None;
            },
        };
        if found.is_none() {
            self.status = owned("no endpoint exposed for the focused item");
        }
        found
    }

    /// Notes how copying an endpoint went.
    pub fn endpoint_copied(&mut self, endpoint: &str, result: &Result<(), String>)
        ensures
            final(self).same_aside(*old(self)),
            final(self).browser() == old(self).browser().with_status(
                tabs::copied("copied endpoint: "@ + endpoint@, *result),
            ),
            old(self).wf() ==> final(self).wf(),
    {
        let done = cat2("copied endpoint: ", endpoint);
        self.status = copied_status(done.as_str(), result);
    }

    /// The logs browser on the selected item's log group.
    pub fn tail_logs(&mut self) -> (r: Option<Launch>)
        requires
            old(self).wf(),
        ensures
            final(self).wf(),
            final(self).same_aside(*old(self)),
            ({
                let b = old(self).browser();
                match b.list().focused() {
                    Some(x) => {
                        let group = log_group(x.id(), text::opt_view(x.engine()));
                        &&& final(self).browser() == b
                        &&& command::opt_launch(r) == Some(
                            command::tail_launch(
                                group,
                                tail_name(x),
                                b.active().spec@.region,
                                "tailing "@ + group,
                            ),
                        )
                    },
                    None => r is None && final(self).browser() == b.with_status("no item under cursor"@),
                }
            }),
    {
        let (group, name) = match self.focused_item() {
            Some(x) => (
                log_group_for(x.primary_label(), engine_slice(x)),
                match x {
                    Item::Instance(i) => i.identifier.clone(),
                    Item::Cluster(c) => cat2(c.identifier.as_str(), " (cluster)"),
                },
            ),
            None => {
                self.no_item();
                return None;
            },
        };
        let done = cat2("tailing ", group.as_str());
        let region = as_slice(&self.tabs[self.active_tab].spec.region);
        Some(tail_launch_of(group.as_str(), name.as_str(), region, done))
    }

    /// The browser for the databases of the selected item's engine.
    pub fn handoff_db(&mut self) -> (r: Option<Launch>)
        requires
            old(self).wf(),
        ensures
            final(self).wf(),
            final(self).same_aside(*old(self)),
            ({
                let b = old(self).browser();
                match b.list().focused() {
                    Some(x) => match db_launch(x.id(), text::opt_view(x.engine())) {
                        Ok(l) => final(self).browser() == b && command::opt_launch(r) == Some(l),
                        Err(m) => r is None && final(self).browser() == b.with_status(m),
                    },
                    None => r is None && final(self).browser() == b.with_status("no item under cursor"@),
                }
            }),
    {
        let result = match self.focused_item() {
            Some(x) => db_launch_of(x.primary_label(), engine_slice(x)),
            None => {
                self.no_item();
                return None;
            },
        };
        match result {
            Ok(l) => Some(l),
            Err(m) => {
                self.status = m;
                None
            },
        }
    }

    /// Notes how starting another program went.
    pub fn launched(&mut self, l: &Launch, result: &Result<(), String>)
        ensures
            final(self).same_aside(*old(self)),
            final(self).browser() == old(self).browser().with_status(command::launch_status(l@, *result)),
            old(self).wf() ==> final(self).wf(),
    {
        self.status = launched_status(l, result);
    }
}

} // verus!
