//! The state of the user pools browser.

use vstd::prelude::*;

use crate::cognito::cognito;
use crate::cognito::cognito::{build_user_filter, Item};
use crate::cognito::config;
use crate::cognito::config::{Config, Tab};
use crate::command::as_slice;
use crate::tabs;
use crate::tabs::{
    begin_load, copied_status, finish_load, move_active, opened_status, pick_region, url_region, BrowserV,
    ListTab, ListV,
};
use crate::text;
use crate::text::{cat2, cat3, cat4, cat8, copy_opt, owned, quote, str_eq, text_or_empty, trim};

verus! {

/// What a tab lists.
pub struct TabSpec {
    pub kind: String,
    pub user_pool_id: Option<String>,
    pub user_limit: u32,
    pub region: Option<String>,
}

/// A `TabSpec` by its contents.
#[verifier::ext_equal]
pub struct SpecV {
    pub kind: Seq<char>,
    pub user_pool_id: Option<Seq<char>>,
    pub user_limit: u32,
    pub region: Option<Seq<char>>,
}

impl View for TabSpec {
    type V = SpecV;

    open spec fn view(&self) -> SpecV {
        SpecV {
            kind: self.kind@,
            user_pool_id: text::opt_view(self.user_pool_id),
            user_limit: self.user_limit,
            region: text::opt_view(self.region),
        }
    }
}

/// What a tab of the settings lists, or why it cannot be.
pub open spec fn resolved(t: Tab, default_region: Option<Seq<char>>) -> Result<SpecV, Seq<char>> {
    let region = tabs::region_or(text::opt_view(t.region), default_region);
    if t.kind@ == "pools"@ {
        Ok(SpecV { kind: "pools"@, user_pool_id: None, user_limit: t.user_limit, region })
    } else if t.kind@ == "users"@ {
        if config::lacks_pool(t) {
            Err("tab `"@ + t.name@ + "`: kind=\"users\" requires `user_pool_id`"@)
        } else {
            Ok(
                SpecV {
                    kind: "users"@,
                    user_pool_id: Some(text::or_empty(t.user_pool_id)),
                    user_limit: if t.user_limit == 0 {
                        1
                    } else {
                        t.user_limit
                    },
                    region,
                },
            )
        }
    } else {
        Err("tab `"@ + t.name@ + "`: unknown kind "@ + text::quoted(t.kind@))
    }
}

/// The tab lists something known.
pub open spec fn valid_spec(s: SpecV) -> bool {
    s.kind == "pools"@ || (s.kind == "users"@ && s.user_pool_id is Some)
}

impl TabSpec {
    pub fn resolve(t: &Tab, default_region: Option<&str>) -> (r: Result<TabSpec, String>)
        ensures
            spec_result(r) == resolved(*t, text::opt_str_view(default_region)),
    {
        let region = pick_region(&t.region, default_region);
        if str_eq(t.kind.as_str(), "pools") {
            Ok(TabSpec { kind: owned("pools"), user_pool_id: None, user_limit: t.user_limit, region })
        } else if str_eq(t.kind.as_str(), "users") {
            let pool = text_or_empty(&t.user_pool_id);
            if trim(pool).is_empty() {
                Err(cat3("tab `", t.name.as_str(), "`: kind=\"users\" requires `user_pool_id`"))
            } else {
                Ok(
                    TabSpec {
                        kind: owned("users"),
                        user_pool_id: Some(owned(pool)),
                        user_limit: if t.user_limit == 0 { 1 } else { t.user_limit },
                        region,
                    },
                )
            }
        } else {
            let kind = quote(t.kind.as_str());
            Err(cat4("tab `", t.name.as_str(), "`: unknown kind ", kind.as_str()))
        }
    }
}

/// A list of user pools or users.
pub type ItemsTab = ListTab<Item>;

/// A tab of user pools or users.
pub type TabState = tabs::TabState<TabSpec, Item>;

/// The contents of a result with a `TabSpec` or an error text.
pub open spec fn spec_result(r: Result<TabSpec, String>) -> Result<SpecV, Seq<char>> {
    match r {
        Ok(s) => Ok(s@),
        Err(e) => Err(e@),
    }
}

/// The first error among the first `i` tabs of the settings.
pub open spec fn tabs_error(t: Seq<Tab>, region: Option<Seq<char>>, i: int) -> Option<Seq<char>>
    decreases i,
{
    if i <= 0 {
        None
    } else {
        match tabs_error(t, region, i - 1) {
            Some(e) => Some(e),
            None => match resolved(t[i - 1], region) {
                Ok(_) => None,
                Err(e) => Some(e),
            },
        }
    }
}

proof fn lemma_first_error(t: Seq<Tab>, region: Option<Seq<char>>, i: int, n: int)
    requires
        0 <= i <= n,
        tabs_error(t, region, i) is Some,
    ensures
        tabs_error(t, region, n) == tabs_error(t, region, i),
    decreases n - i,
{
    if i < n {
        lemma_first_error(t, region, i, n - 1);
    }
}

/// `s` is a tab that was made of `t` and has not been loaded.
pub open spec fn fresh_tab(s: TabState, t: Tab, region: Option<Seq<char>>) -> bool {
    &&& s.name@ == t.name@
    &&& resolved(t, region) == Ok::<SpecV, Seq<char>>(s.spec@)
    &&& s.data@ == ListV::<Item>::empty()
}

/// The tabs that the settings describe, none of them loaded; or the first
/// error among them.
fn make_tabs(cfg: &Config) -> (r: Result<Vec<TabState>, String>)
    ensures
        match r {
            Ok(tabs) => {
                &&& tabs.len() == cfg.tabs.len()
                &&& tabs_error(cfg.tabs@, text::opt_view(cfg.region), cfg.tabs.len() as int) is None
                &&& forall|i: int|
                    0 <= i < tabs.len() ==> fresh_tab(
                        #[trigger] tabs@[i],
                        cfg.tabs@[i],
                        text::opt_view(cfg.region),
                    )
            },
            Err(e) => tabs_error(cfg.tabs@, text::opt_view(cfg.region), cfg.tabs.len() as int) == Some(e@),
        },
{
    let ghost region = text::opt_view(cfg.region);
    let mut tabs: Vec<TabState> = Vec::new();
    let mut i: usize = 0;
    while i < cfg.tabs.len()
        invariant
            i <= cfg.tabs.len(),
            region == text::opt_view(cfg.region),
            tabs.len() == i,
            tabs_error(cfg.tabs@, region, i as int) is None,
            forall|k: int| 0 <= k < i ==> fresh_tab(#[trigger] tabs@[k], cfg.tabs@[k], region),
        decreases cfg.tabs.len() - i,
    {
        let t = &cfg.tabs[i];
        match TabSpec::resolve(t, as_slice(&cfg.region)) {
            Ok(spec) => {
                tabs.push(tabs::TabState { name: t.name.clone(), spec, data: ListTab::empty() });
            },
            Err(e) => {
                proof {
                    lemma_first_error(cfg.tabs@, region, i + 1, cfg.tabs.len() as int);
                }
                return Err(e);
            },
        }
        i = i + 1;
    }
    Ok(tabs)
}

/// What is to be loaded.
pub enum Fetch {
    /// All user pools.
    Pools { region: Option<String> },
    /// The users of a pool.
    Users {
        user_pool_id: String,
        limit: u32,
        region: Option<String>,
        filter: Option<String>,
    },
}

/// `f` asks for what `spec` lists, with a filter for users.
pub open spec fn is_fetch(f: Fetch, spec: SpecV, filter: Option<Seq<char>>) -> bool {
    match f {
        Fetch::Pools { region } => spec.kind == "pools"@ && text::opt_view(region) == spec.region,
        Fetch::Users { user_pool_id, limit, region, filter: f } => {
            &&& spec.kind != "pools"@
            &&& user_pool_id@ == spec.user_pool_id->0
            &&& limit == spec.user_limit
            &&& text::opt_view(region) == spec.region
            &&& text::opt_view(f) == filter
        },
    }
}

fn fetch_of(spec: &TabSpec, filter: &Option<String>) -> (r: Fetch)
    requires
        valid_spec(spec@),
    ensures
        is_fetch(r, spec@, text::opt_view(*filter)),
{
    if str_eq(spec.kind.as_str(), "pools") {
        Fetch::Pools { region: copy_opt(&spec.region) }
    } else {
        Fetch::Users {
            user_pool_id: owned(text_or_empty(&spec.user_pool_id)),
            limit: spec.user_limit,
            region: copy_opt(&spec.region),
            filter: copy_opt(filter),
        }
    }
}

/// What is counted in the status.
pub open spec fn count_label(spec: SpecV) -> Seq<char> {
    if spec.kind == "pools"@ {
        "pools"@
    } else if spec.kind == "users"@ {
        "users"@
    } else {
        "items"@
    }
}

fn label_of(spec: &TabSpec) -> (r: &'static str)
    ensures
        r@ == count_label(spec@),
{
    if str_eq(spec.kind.as_str(), "pools") {
        "pools"
    } else if str_eq(spec.kind.as_str(), "users") {
        "users"
    } else {
        "items"
    }
}

/// The state of the browser.
pub struct App {
    pub cfg: Config,
    pub tabs: Vec<TabState>,
    pub active_tab: usize,
    pub status: String,
    /// What has been typed of a query, while one is typed.
    pub query_editing: Option<String>,
    /// The filter by which users are listed.
    pub active_filter: Option<String>,
}

/// The page of an item in the console; `pool` is the pool of the tab.
pub open spec fn console_url(region: Option<Seq<char>>, pool: Option<Seq<char>>, x: Item) -> Seq<char> {
    let r = tabs::region_in_url(region);
    let head = "https://"@ + r + ".console.aws.amazon.com/cognito/v2/idp/user-pools/"@;
    match x {
        Item::Pool(p) => head + p.id@ + "/users"@ + "?region="@ + r,
        Item::User(u) => head + (match pool {
            Some(id) => id,
            None => ""@,
        }) + "/users/"@ + u.username@ + "?region="@ + r,
    }
}

/// A text to be copied, and what it is called.
pub struct Yank {
    pub payload: String,
    pub label: String,
}

/// What is copied of an item: the id of a pool; the unchanging name of a user, or
/// their name where it is not known.
pub open spec fn yanked(x: Item) -> Seq<char> {
    match x {
        Item::Pool(p) => p.id@,
        Item::User(u) => match cognito::attribute_value(u.attributes@, "sub"@) {
            Some(s) => s,
            None => u.username@,
        },
    }
}

/// What it is called.
pub open spec fn yank_label(x: Item) -> Seq<char> {
    match x {
        Item::Pool(_) => "User Pool ID"@,
        Item::User(_) => "user sub"@,
    }
}

impl App {
    /// The settings, the query and the filter are the same.
    pub open spec fn same_aside(self, other: App) -> bool {
        &&& self.cfg == other.cfg
        &&& self.query_editing == other.query_editing
        &&& self.active_filter == other.active_filter
    }

    /// The tabs, the one that is shown, and the status.
    pub open spec fn browser(self) -> BrowserV<TabSpec, Item> {
        BrowserV {
            tabs: tabs::tab_views(self.tabs@),
            active_tab: self.active_tab as int,
            status: self.status@,
        }
    }

    /// One of the tabs is shown, and every tab lists something known.
    pub open spec fn wf(self) -> bool {
        &&& self.active_tab < self.tabs@.len()
        &&& forall|i: int| 0 <= i < self.tabs@.len() ==> valid_spec((#[trigger] self.tabs@[i]).spec@)
    }

    /// The browser of some settings, before anything was loaded; or the first
    /// error in the settings.
    pub fn new(cfg: Config) -> (r: Result<App, String>)
        requires
            cfg.tabs.len() > 0,
        ensures
            match r {
                Ok(app) => {
                    &&& app.wf()
                    &&& app.cfg == cfg
                    &&& app.active_tab == 0
                    &&& app.status@ == Seq::<char>::empty()
                    &&& app.query_editing is None
                    &&& app.active_filter is None
                    &&& app.tabs.len() == cfg.tabs.len()
                    &&& tabs_error(cfg.tabs@, text::opt_view(cfg.region), cfg.tabs.len() as int) is None
                    &&& forall|i: int|
                        0 <= i < app.tabs.len() ==> fresh_tab(
                            #[trigger] app.tabs@[i],
                            cfg.tabs@[i],
                            text::opt_view(cfg.region),
                        )
                },
                Err(e) => tabs_error(cfg.tabs@, text::opt_view(cfg.region), cfg.tabs.len() as int) == Some(e@),
            },
    {
        match make_tabs(&cfg) {
            Ok(tabs) => {
                let app = App { cfg, tabs, active_tab: 0, status: String::new(), query_editing: None, active_filter: None };
                assert(forall|i: int| 0 <= i < app.tabs@.len() ==> fresh_tab(
                    #[trigger] app.tabs@[i],
                    cfg.tabs@[i],
                    text::opt_view(cfg.region),
                ) ==> valid_spec(app.tabs@[i].spec@));
                Ok(app)
            },
            Err(e) => Err(e),
        }
    }

    /// The tab that is shown.
    pub fn active(&self) -> (r: &TabState)
        requires
            self.wf(),
        ensures
            *r == self.tabs@[self.active_tab as int],
    {
        &self.tabs[self.active_tab]
    }

    /// The tab that is shown, to be changed.
    pub fn active_mut(&mut self) -> (r: &mut TabState)
        requires
            old(self).wf(),
        ensures
            *r == old(self).tabs@[old(self).active_tab as int],
            final(self).tabs@ == old(self).tabs@.update(old(self).active_tab as int, *final(r)),
            final(self).active_tab == old(self).active_tab,
            final(self).status == old(self).status,
            final(self).same_aside(*old(self)),
    {
        &mut self.tabs[self.active_tab]
    }

    /// Shows the tab `idx`, if there is one. A tab that was never loaded is to
    /// be loaded.
    pub fn switch_tab(&mut self, idx: usize) -> (r: Option<Fetch>)
        requires
            old(self).wf(),
        ensures
            final(self).wf(),
            final(self).same_aside(*old(self)),
            ({
                let b = old(self).browser().switched(idx as int);
                if old(self).browser().due_on_switch(idx as int) {
                    &&& r is Some
                    &&& final(self).browser() == b.begun()
                    &&& is_fetch(r->0, b.active().spec@, text::opt_view(old(self).active_filter))
                } else {
                    r is None && final(self).browser() == b
                }
            }),
    {
        if idx < self.tabs.len() {
            self.active_tab = idx;
            let data = &self.tabs[idx].data;
            if data.items.len() == 0 && data.last_error.is_none() {
                return Some(self.refresh_active());
            }
        }
        None
    }

    /// Moves the selection; it stops at the first and at the last row.
    pub fn move_selection(&mut self, delta: isize)
        requires
            old(self).wf(),
        ensures
            final(self).wf(),
            final(self).same_aside(*old(self)),
            final(self).browser() == old(self).browser().moved(delta as int),
    {
        move_active(&mut self.tabs, self.active_tab, delta);
        proof {
            self.lemma_same_specs(*old(self));
        }
    }

    /// Tabs with the same contents list the same.
    proof fn lemma_same_specs(self, before: App)
        requires
            before.wf(),
            self.active_tab == before.active_tab,
            self.tabs@.len() == before.tabs@.len(),
            forall|i: int|
                0 <= i < self.tabs@.len() ==> tabs::tab_views(self.tabs@)[i].spec == tabs::tab_views(
                    before.tabs@,
                )[i].spec,
        ensures
            self.wf(),
    {
        assert forall|i: int| 0 <= i < self.tabs@.len() implies valid_spec((#[trigger] self.tabs@[i]).spec@) by {
            assert(tabs::tab_views(self.tabs@)[i].spec == tabs::tab_views(before.tabs@)[i].spec);
            assert(valid_spec(before.tabs@[i].spec@));
        }
    }

    /// Notes that the tab that is shown is being loaded, and says what is to
    /// be loaded.
    pub fn refresh_active(&mut self) -> (r: Fetch)
        requires
            old(self).wf(),
        ensures
            final(self).wf(),
            final(self).same_aside(*old(self)),
            final(self).browser() == old(self).browser().begun(),
            is_fetch(
                r,
                old(self).browser().active().spec@,
                text::opt_view(old(self).active_filter),
            ),
    {
        begin_load(&mut self.tabs, self.active_tab, &mut self.status);
        proof {
            self.lemma_same_specs(*old(self));
        }
        fetch_of(&self.tabs[self.active_tab].spec, &self.active_filter)
    }

    /// Takes in what was loaded, or why nothing was.
    pub fn refresh_done(&mut self, result: Result<Vec<Item>, String>, now: u64)
        requires
            old(self).wf(),
        ensures
            final(self).wf(),
            final(self).same_aside(*old(self)),
            final(self).browser() == old(self).browser().finished(
                tabs::result_view(result),
                now,
                count_label(old(self).browser().active().spec@),
            ),
    {
        let label = label_of(&self.tabs[self.active_tab].spec);
        finish_load(&mut self.tabs, self.active_tab, &mut self.status, result, now, label);
        proof {
            self.lemma_same_specs(*old(self));
        }
    }

    /// Says what is to be loaded where the tab that is shown was last loaded
    /// too long ago.
    pub fn tick(&mut self, now: u64) -> (r: Option<Fetch>)
        requires
            old(self).wf(),
        ensures
            final(self).wf(),
            final(self).same_aside(*old(self)),
            ({
                let b = old(self).browser();
                if b.due(old(self).cfg.refresh_interval_secs, now) {
                    r is Some && final(self).browser() == b.begun() && is_fetch(r->0, b.active().spec@, text::opt_view(old(self).active_filter))
                } else {
                    r is None && final(self).browser() == b
                }
            }),
    {
        let interval: u64 = self.cfg.refresh_interval_secs;
        if interval == 0 {
            return None;
        }
        let data = &self.tabs[self.active_tab].data;
        if data.is_stale(interval, now) && !data.loading {
            Some(self.refresh_active())
        } else {
            None
        }
    }

    /// Nothing arrives in the background here.
    pub fn drain(&mut self) -> (r: bool)
        ensures
            !r,
            *final(self) == *old(self),
    {
        false
    }

    /// The selected item.
    pub fn focused_item(&self) -> (r: Option<&Item>)
        requires
            self.wf(),
        ensures
            match r {
                Some(x) => self.browser().list().focused() == Some(*x),
                None => self.browser().list().focused() is None,
            },
    {
        self.tabs[self.active_tab].data.focused()
    }

    /// Notes how opening a page went.
    pub fn opened(&mut self, url: &str, result: &Result<(), String>)
        ensures
            final(self).same_aside(*old(self)),
            final(self).browser() == old(self).browser().with_status(tabs::opened(url@, *result)),
            old(self).wf() ==> final(self).wf(),
    {
        self.status = opened_status(url, result);
    }

    /// Sets the status where no item is selected.
    fn no_item(&mut self)
        requires
            old(self).wf(),
        ensures
            final(self).wf(),
            final(self).same_aside(*old(self)),
            final(self).browser() == old(self).browser().with_status("no item under cursor"@),
    {
        self.status = owned("no item under cursor");
    }

    /// The page of the selected item in the console.
    pub fn open_console(&mut self) -> (r: Option<String>)
        requires
            old(self).wf(),
        ensures
            final(self).wf(),
            final(self).same_aside(*old(self)),
            ({
                let b = old(self).browser();
                match b.list().focused() {
                    Some(x) => {
                        &&& final(self).browser() == b
                        &&& text::opt_view(r) == Some(
                            console_url(
                                b.active().spec@.region,
                                b.active().spec@.user_pool_id,
                                x,
                            ),
                        )
                    },
                    None => r is None && final(self).browser() == b.with_status("no item under cursor"@),
                }
            }),
    {
        let spec = &self.tabs[self.active_tab].spec;
        let region = url_region(&spec.region);
        let url = match self.focused_item() {
            Some(Item::Pool(p)) => cat8(
                "https://",
                region,
                ".console.aws.amazon.com/cognito/v2/idp/user-pools/",
                p.id.as_str(),
                "/users",
                "?region=",
                region,
                "",
            ),
            Some(Item::User(u)) => {
                let first = cat4(
                    "https://",
                    region,
                    ".console.aws.amazon.com/cognito/v2/idp/user-pools/",
                    text_or_empty(&spec.user_pool_id),
                );
                let rest = cat4("/users/", u.username.as_str(), "?region=", region);
                cat2(first.as_str(), rest.as_str())
            },
            None => {
                self.no_item();
                return None;
            },
        };
        proof {
            let b = old(self).browser();
            let x = b.list().focused()->0;
            reveal_strlit("");
            assert(url@ =~= console_url(b.active().spec@.region, b.active().spec@.user_pool_id, x));
        }
        Some(url)
    }

    /// Begins a query, in a list of users.
    pub fn enter_search_mode(&mut self)
        requires
            old(self).wf(),
        ensures
            final(self).wf(),
            final(self).cfg == old(self).cfg,
            final(self).active_filter == old(self).active_filter,
            if old(self).browser().active().spec@.kind == "users"@ {
                &&& text::opt_view(final(self).query_editing) == Some(Seq::<char>::empty())
                &&& final(self).browser() == old(self).browser().with_status(
                    "search: type a prefix, Enter to apply"@,
                )
            } else {
                &&& final(self).query_editing == old(self).query_editing
                &&& final(self).browser() == old(self).browser().with_status(
                    "search only available on users tabs"@,
                )
            },
    {
        if str_eq(self.tabs[self.active_tab].spec.kind.as_str(), "users") {
            self.query_editing = Some(String::new());
            self.status = owned("search: type a prefix, Enter to apply");
        } else {
            self.status = owned("search only available on users tabs");
        }
    }

    /// Everything but the query is the same.
    pub open spec fn same_but_query(self, other: App) -> bool {
        &&& self.cfg == other.cfg
        &&& self.active_filter == other.active_filter
        &&& self.browser() == other.browser()
        &&& other.wf() ==> self.wf()
    }

    /// Adds a character to the query that is typed.
    pub fn search_input_char(&mut self, c: char)
        ensures
            final(self).same_but_query(*old(self)),
            text::opt_view(final(self).query_editing) == (match old(self).query_editing {
                Some(q) => Some(q@.push(c)),
                None => None,
            }),
    {
        match self.query_editing.take() {
            Some(buf) => {
                let mut q = buf;
                q.push(c);
                self.query_editing = Some(q);
            },
            None => {},
        }
    }

    /// Takes the last character off the query that is typed.
    pub fn search_input_backspace(&mut self)
        ensures
            final(self).same_but_query(*old(self)),
            text::opt_view(final(self).query_editing) == (match old(self).query_editing {
                Some(q) => Some(
                    if q@.len() > 0 {
                        q@.drop_last()
                    } else {
                        q@
                    },
                ),
                None => None,
            }),
    {
        match self.query_editing.take() {
            Some(buf) => {
                let n: usize = text::chars_of(buf.as_str()).len();
                if n > 0 {
                    let q = text::take_chars(buf.as_str(), n - 1);
                    assert(q@ =~= buf@.drop_last());
                    self.query_editing = Some(q);
                } else {
                    self.query_editing = Some(buf);
                }
            },
            None => {},
        }
    }

    /// Applies the query that was typed: users are loaded by its filter, or all of
    /// them where it asks for nothing.
    pub fn search_commit(&mut self) -> (r: Option<Fetch>)
        requires
            old(self).wf(),
        ensures
            final(self).wf(),
            final(self).cfg == old(self).cfg,
            final(self).query_editing is None,
            match old(self).query_editing {
                Some(q) => {
                    let f = cognito::live_filter(Some(cognito::user_filter(q@)));
                    &&& text::opt_view(final(self).active_filter) == f
                    &&& final(self).browser() == old(self).browser().begun()
                    &&& r is Some
                    &&& is_fetch(r->0, old(self).browser().active().spec@, f)
                },
                None => {
                    &&& r is None
                    &&& final(self).active_filter == old(self).active_filter
                    &&& final(self).browser() == old(self).browser()
                },
            },
    {
        let query = match self.query_editing.take() {
            Some(q) => q,
            None => {
                return None;
            },
        };
        let filter = build_user_filter(query.as_str());
        self.active_filter = if filter.as_str().is_empty() { None } else { Some(filter) };
        Some(self.refresh_active())
    }

    /// Gives up the query that is typed, and the filter: where users were loaded
    /// by one, all of them are loaded again.
    pub fn search_cancel(&mut self) -> (r: Option<Fetch>)
        requires
            old(self).wf(),
        ensures
            final(self).wf(),
            final(self).cfg == old(self).cfg,
            final(self).query_editing is None,
            final(self).active_filter is None,
            if old(self).active_filter is Some {
                &&& final(self).browser() == old(self).browser().begun()
                &&& r is Some
                &&& is_fetch(r->0, old(self).browser().active().spec@, None)
            } else if old(self).query_editing is Some {
                &&& r is None
                &&& final(self).browser() == old(self).browser().with_status("search cancelled"@)
            } else {
                &&& r is None
                &&& final(self).browser() == old(self).browser()
            },
    {
        let typing = self.query_editing.is_some();
        self.query_editing = None;
        if self.active_filter.is_some() {
            self.active_filter = None;
            return Some(self.refresh_active());
        }
        if typing {
            self.status = owned("search cancelled");
        }
        None
    }

    /// What is to be copied of the selected item.
    pub fn yank_id(&mut self) -> (r: Option<Yank>)
        requires
            old(self).wf(),
        ensures
            final(self).wf(),
            final(self).same_aside(*old(self)),
            ({
                let b = old(self).browser();
                match b.list().focused() {
                    Some(x) => {
                        &&& final(self).browser() == b
                        &&& r matches Some(y) && y.payload@ == yanked(x) && y.label@ == yank_label(x)
                    },
                    None => r is None && final(self).browser() == b.with_status("no item under cursor"@),
                }
            }),
    {
        match self.focused_item() {
            Some(Item::Pool(p)) => Some(
                Yank { payload: p.id.clone(), label: owned("User Pool ID") },
            ),
            Some(Item::User(u)) => {
                let payload = match u.sub() {
                    Some(s) => owned(s),
                    None => u.username.clone(),
                };
                Some(Yank { payload, label: owned("user sub") })
            },
            None => {
                self.no_item();
                None
            },
        }
    }

    /// Notes how copying went.
    pub fn id_copied(&mut self, y: &Yank, result: &Result<(), String>)
        ensures
            final(self).same_aside(*old(self)),
            final(self).browser() == old(self).browser().with_status(
                tabs::copied("copied "@ + y.label@ + ": "@ + y.payload@, *result),
            ),
            old(self).wf() ==> final(self).wf(),
    {
        let done = cat4("copied ", y.label.as_str(), ": ", y.payload.as_str());
        self.status = copied_status(done.as_str(), result);
    }
}

/// A tab that was made of settings without an error lists something known.
pub proof fn law_resolved_is_valid(t: Tab, region: Option<Seq<char>>)
    ensures
        resolved(t, region) matches Ok(s) ==> valid_spec(s),
        config::tab_error(t, 0) is None ==> resolved(t, region) is Ok,
{
}

} // verus!
