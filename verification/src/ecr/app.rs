//! The state of the images browser.

use vstd::prelude::*;

use crate::command::as_slice;
use crate::ecr::config;
use crate::ecr::config::{Config, Tab};
use crate::ecr::ecr::{ImageDetail, Item};
use crate::numeral;
use crate::numeral::dec_size;
use crate::tabs;
use crate::tabs::{
    begin_load, copied_status, finish_load, move_active, opened_status, pick_region, url_region,
    BrowserV, ListTab, ListV,
};
use crate::text;
use crate::text::{byte_len, cat3, cat4, cat5, copy_opt, owned, quote, str_eq, text_or_empty, trim};

verus! {

/// What a tab lists.
pub struct TabSpec {
    pub kind: String,
    pub repository: Option<String>,
    pub region: Option<String>,
}

/// A `TabSpec` by its contents.
#[verifier::ext_equal]
pub struct SpecV {
    pub kind: Seq<char>,
    pub repository: Option<Seq<char>>,
    pub region: Option<Seq<char>>,
}

impl View for TabSpec {
    type V = SpecV;

    open spec fn view(&self) -> SpecV {
        SpecV {
            kind: self.kind@,
            repository: text::opt_view(self.repository),
            region: text::opt_view(self.region),
        }
    }
}

/// What a tab of the settings lists, or why it cannot be.
pub open spec fn resolved(t: Tab, default_region: Option<Seq<char>>) -> Result<SpecV, Seq<char>> {
    let region = tabs::region_or(text::opt_view(t.region), default_region);
    if t.kind@ == "repositories"@ {
        Ok(SpecV { kind: "repositories"@, repository: None, region })
    } else if t.kind@ == "images"@ {
        if config::lacks_repository(t) {
            Err("tab `"@ + t.name@ + "`: kind=\"images\" requires `repository`"@)
        } else {
            Ok(
                SpecV {
                    kind: "images"@,
                    repository: Some(text::or_empty(t.repository)),
                    region,
                },
            )
        }
    } else {
        Err("tab `"@ + t.name@ + "`: unknown kind "@ + text::quoted(t.kind@))
    }
}

/// The tab lists something known.
pub open spec fn valid_spec(s: SpecV) -> bool {
    s.kind == "repositories"@ || (s.kind == "images"@ && s.repository is Some)
}

impl TabSpec {
    pub fn resolve(t: &Tab, default_region: Option<&str>) -> (r: Result<TabSpec, String>)
        ensures
            spec_result(r) == resolved(*t, text::opt_str_view(default_region)),
    {
        let region = pick_region(&t.region, default_region);
        if str_eq(t.kind.as_str(), "repositories") {
            Ok(TabSpec { kind: owned("repositories"), repository: None, region })
        } else if str_eq(t.kind.as_str(), "images") {
            let repo = text_or_empty(&t.repository);
            if trim(repo).is_empty() {
                Err(cat3("tab `", t.name.as_str(), "`: kind=\"images\" requires `repository`"))
            } else {
                Ok(TabSpec { kind: owned("images"), repository: Some(owned(repo)), region })
            }
        } else {
            let kind = quote(t.kind.as_str());
            Err(cat4("tab `", t.name.as_str(), "`: unknown kind ", kind.as_str()))
        }
    }
}

/// A list of repositories or images.
pub type ItemsTab = ListTab<Item>;

/// A tab of repositories or images.
pub type TabState = tabs::TabState<TabSpec, Item>;

/// The contents of a result with a `TabSpec` or an error text.
pub open spec fn spec_result(r: Result<TabSpec, String>) -> Result<SpecV, Seq<char>> {
    match r {
        Ok(s) => Ok(s@),
        Err(e) => Err(e@),
    }
}

/// The first error among the first `i` tabs of the settings.
pub open spec fn tabs_error(t: Seq<Tab>, region: Option<Seq<char>>, i: int) -> Option<Seq<char>>
    decreases i,
{
    if i <= 0 {
        None
    } else {
        match tabs_error(t, region, i - 1) {
            Some(e) => Some(e),
            None => match resolved(t[i - 1], region) {
                Ok(_) => None,
                Err(e) => Some(e),
            },
        }
    }
}

proof fn lemma_first_error(t: Seq<Tab>, region: Option<Seq<char>>, i: int, n: int)
    requires
        0 <= i <= n,
        tabs_error(t, region, i) is Some,
    ensures
        tabs_error(t, region, n) == tabs_error(t, region, i),
    decreases n - i,
{
    if i < n {
        lemma_first_error(t, region, i, n - 1);
    }
}

/// `s` is a tab that was made of `t` and has not been loaded.
pub open spec fn fresh_tab(s: TabState, t: Tab, region: Option<Seq<char>>) -> bool {
    &&& s.name@ == t.name@
    &&& resolved(t, region) == Ok::<SpecV, Seq<char>>(s.spec@)
    &&& s.data@ == ListV::<Item>::empty()
}

/// The tabs that the settings describe, none of them loaded; or the first
/// error among them.
fn make_tabs(cfg: &Config) -> (r: Result<Vec<TabState>, String>)
    ensures
        match r {
            Ok(tabs) => {
                &&& tabs.len() == cfg.tabs.len()
                &&& tabs_error(cfg.tabs@, text::opt_view(cfg.region), cfg.tabs.len() as int) is None
                &&& forall|i: int|
                    0 <= i < tabs.len() ==> fresh_tab(
                        #[trigger] tabs@[i],
                        cfg.tabs@[i],
                        text::opt_view(cfg.region),
                    )
            },
            Err(e) => tabs_error(cfg.tabs@, text::opt_view(cfg.region), cfg.tabs.len() as int) == Some(e@),
        },
{
    let ghost region = text::opt_view(cfg.region);
    let mut tabs: Vec<TabState> = Vec::new();
    let mut i: usize = 0;
    while i < cfg.tabs.len()
        invariant
            i <= cfg.tabs.len(),
            region == text::opt_view(cfg.region),
            tabs.len() == i,
            tabs_error(cfg.tabs@, region, i as int) is None,
            forall|k: int| 0 <= k < i ==> fresh_tab(#[trigger] tabs@[k], cfg.tabs@[k], region),
        decreases cfg.tabs.len() - i,
    {
        let t = &cfg.tabs[i];
        match TabSpec::resolve(t, as_slice(&cfg.region)) {
            Ok(spec) => {
                tabs.push(tabs::TabState { name: t.name.clone(), spec, data: ListTab::empty() });
            },
            Err(e) => {
                proof {
                    lemma_first_error(cfg.tabs@, region, i + 1, cfg.tabs.len() as int);
                }
                return Err(e);
            },
        }
        i = i + 1;
    }
    Ok(tabs)
}

/// What is to be loaded.
pub enum Fetch {
    /// All repositories.
    Repositories { region: Option<String> },
    /// The images of a repository.
    Images { repository: String, region: Option<String> },
}

/// `f` asks for what `spec` lists.
pub open spec fn is_fetch(f: Fetch, spec: SpecV) -> bool {
    match f {
        Fetch::Repositories { region } => spec.kind == "repositories"@ && text::opt_view(region)
            == spec.region,
        Fetch::Images { repository, region } => {
            &&& spec.kind != "repositories"@
            &&& repository@ == spec.repository->0
            &&& text::opt_view(region) == spec.region
        },
    }
}

fn fetch_of(spec: &TabSpec) -> (r: Fetch)
    requires
        valid_spec(spec@),
    ensures
        is_fetch(r, spec@),
{
    if str_eq(spec.kind.as_str(), "repositories") {
        Fetch::Repositories { region: copy_opt(&spec.region) }
    } else {
        Fetch::Images {
            repository: owned(text_or_empty(&spec.repository)),
            region: copy_opt(&spec.region),
        }
    }
}

/// What is counted in the status.
pub open spec fn count_label(spec: SpecV) -> Seq<char> {
    if spec.kind == "repositories"@ {
        "repositories"@
    } else if spec.kind == "images"@ {
        "images"@
    } else {
        "items"@
    }
}

fn label_of(spec: &TabSpec) -> (r: &'static str)
    ensures
        r@ == count_label(spec@),
{
    if str_eq(spec.kind.as_str(), "repositories") {
        "repositories"
    } else if str_eq(spec.kind.as_str(), "images") {
        "images"
    } else {
        "items"
    }
}

/// The state of the browser.
pub struct App {
    pub cfg: Config,
    pub tabs: Vec<TabState>,
    pub active_tab: usize,
    pub status: String,
}

/// The page of an item in the console.
pub open spec fn console_url(region: Option<Seq<char>>, x: Item) -> Seq<char> {
    let r = tabs::region_in_url(region);
    match x {
        Item::Repository(p) => "https://"@ + r
            + ".console.aws.amazon.com/ecr/private-registry/repositories/private/"@ + (match p.registry_id {
            Some(id) => id@,
            None => "registry"@,
        }) + "/"@ + p.name@ + "?region="@ + r,
        Item::Image(i) => "https://"@ + r
            + ".console.aws.amazon.com/ecr/repositories/private/registry/"@ + i.repository_name@
            + "/_/image?region="@ + r,
    }
}

/// What an image is pulled by: its repository with its first tag, or with its
/// digest.
pub open spec fn pull_words(i: ImageDetail) -> Seq<char> {
    if i.tags@.len() > 0 {
        i.repository_name@ + ":"@ + i.tags@[0]@
    } else {
        match i.digest {
            Some(d) => i.repository_name@ + "@"@ + d@,
            None => i.repository_name@,
        }
    }
}

/// What an image is pulled by.
pub fn image_pull_string(i: &ImageDetail) -> (r: String)
    ensures
        r@ == pull_words(*i),
{
    let repo = i.repository_name.as_str();
    if i.tags.len() > 0 {
        return cat3(repo, ":", i.tags[0].as_str());
    }
    if let Some(d) = &i.digest {
        return cat3(repo, "@", d.as_str());
    }
    owned(repo)
}

/// A text to be copied, and what it is called.
pub struct Yank {
    pub payload: String,
    pub label: String,
}

/// What is copied of an item: the ARN of a repository, what an image is pulled by.
pub open spec fn yanked(x: Item) -> Seq<char> {
    match x {
        Item::Repository(p) => p.arn@,
        Item::Image(i) => pull_words(i),
    }
}

/// What it is called.
pub open spec fn yank_label(x: Item) -> Seq<char> {
    match x {
        Item::Repository(_) => "ARN"@,
        Item::Image(_) => "image pull URI"@,
    }
}

impl App {
    /// The settings are the same.
    pub open spec fn same_aside(self, other: App) -> bool {
        self.cfg == other.cfg
    }

    /// The tabs, the one that is shown, and the status.
    pub open spec fn browser(self) -> BrowserV<TabSpec, Item> {
        BrowserV {
            tabs: tabs::tab_views(self.tabs@),
            active_tab: self.active_tab as int,
            status: self.status@,
        }
    }

    /// One of the tabs is shown, and every tab lists something known.
    pub open spec fn wf(self) -> bool {
        &&& self.active_tab < self.tabs@.len()
        &&& forall|i: int| 0 <= i < self.tabs@.len() ==> valid_spec((#[trigger] self.tabs@[i]).spec@)
    }

    /// The browser of some settings, before anything was loaded; or the first
    /// error in the settings.
    pub fn new(cfg: Config) -> (r: Result<App, String>)
        requires
            cfg.tabs.len() > 0,
        ensures
            match r {
                Ok(app) => {
                    &&& app.wf()
                    &&& app.cfg == cfg
                    &&& app.active_tab == 0
                    &&& app.status@ == Seq::<char>::empty()
                    &&& app.tabs.len() == cfg.tabs.len()
                    &&& tabs_error(cfg.tabs@, text::opt_view(cfg.region), cfg.tabs.len() as int) is None
                    &&& forall|i: int|
                        0 <= i < app.tabs.len() ==> fresh_tab(
                            #[trigger] app.tabs@[i],
                            cfg.tabs@[i],
                            text::opt_view(cfg.region),
                        )
                },
                Err(e) => tabs_error(cfg.tabs@, text::opt_view(cfg.region), cfg.tabs.len() as int) == Some(e@),
            },
    {
        match make_tabs(&cfg) {
            Ok(tabs) => {
                let app = App { cfg, tabs, active_tab: 0, status: String::new() };
                assert(forall|i: int| 0 <= i < app.tabs@.len() ==> fresh_tab(
                    #[trigger] app.tabs@[i],
                    cfg.tabs@[i],
                    text::opt_view(cfg.region),
                ) ==> valid_spec(app.tabs@[i].spec@));
                Ok(app)
            },
            Err(e) => Err(e),
        }
    }

    /// The tab that is shown.
    pub fn active(&self) -> (r: &TabState)
        requires
            self.wf(),
        ensures
            *r == self.tabs@[self.active_tab as int],
    {
        &self.tabs[self.active_tab]
    }

    /// The tab that is shown, to be changed.
    pub fn active_mut(&mut self) -> (r: &mut TabState)
        requires
            old(self).wf(),
        ensures
            *r == old(self).tabs@[old(self).active_tab as int],
            final(self).tabs@ == old(self).tabs@.update(old(self).active_tab as int, *final(r)),
            final(self).active_tab == old(self).active_tab,
            final(self).status == old(self).status,
            final(self).same_aside(*old(self)),
    {
        &mut self.tabs[self.active_tab]
    }

    /// Shows the tab `idx`, if there is one. A tab that was never loaded is to
    /// be loaded.
    pub fn switch_tab(&mut self, idx: usize) -> (r: Option<Fetch>)
        requires
            old(self).wf(),
        ensures
            final(self).wf(),
            final(self).same_aside(*old(self)),
            ({
                let b = old(self).browser().switched(idx as int);
                if old(self).browser().due_on_switch(idx as int) {
                    &&& r is Some
                    &&& final(self).browser() == b.begun()
                    &&& is_fetch(r->0, b.active().spec@)
                } else {
                    r is None && final(self).browser() == b
                }
            }),
    {
        if idx < self.tabs.len() {
            self.active_tab = idx;
            let data = &self.tabs[idx].data;
            if data.items.len() == 0 && data.last_error.is_none() {
                return Some(self.refresh_active());
            }
        }
        None
    }

    /// Moves the selection; it stops at the first and at the last row.
    pub fn move_selection(&mut self, delta: isize)
        requires
            old(self).wf(),
        ensures
            final(self).wf(),
            final(self).same_aside(*old(self)),
            final(self).browser() == old(self).browser().moved(delta as int),
    {
        move_active(&mut self.tabs, self.active_tab, delta);
        proof {
            self.lemma_same_specs(*old(self));
        }
    }

    /// Tabs with the same contents list the same.
    proof fn lemma_same_specs(self, before: App)
        requires
            before.wf(),
            self.active_tab == before.active_tab,
            self.tabs@.len() == before.tabs@.len(),
            forall|i: int|
                0 <= i < self.tabs@.len() ==> tabs::tab_views(self.tabs@)[i].spec == tabs::tab_views(
                    before.tabs@,
                )[i].spec,
        ensures
            self.wf(),
    {
        assert forall|i: int| 0 <= i < self.tabs@.len() implies valid_spec((#[trigger] self.tabs@[i]).spec@) by {
            assert(tabs::tab_views(self.tabs@)[i].spec == tabs::tab_views(before.tabs@)[i].spec);
            assert(valid_spec(before.tabs@[i].spec@));
        }
    }

    /// Notes that the tab that is shown is being loaded, and says what is to
    /// be loaded.
    pub fn refresh_active(&mut self) -> (r: Fetch)
        requires
            old(self).wf(),
        ensures
            final(self).wf(),
            final(self).same_aside(*old(self)),
            final(self).browser() == old(self).browser().begun(),
            is_fetch(r, old(self).browser().active().spec@),
    {
        begin_load(&mut self.tabs, self.active_tab, &mut self.status);
        proof {
            self.lemma_same_specs(*old(self));
        }
        fetch_of(&self.tabs[self.active_tab].spec)
    }

    /// Takes in what was loaded, or why nothing was.
    pub fn refresh_done(&mut self, result: Result<Vec<Item>, String>, now: u64)
        requires
            old(self).wf(),
        ensures
            final(self).wf(),
            final(self).same_aside(*old(self)),
            final(self).browser() == old(self).browser().finished(
                tabs::result_view(result),
                now,
                count_label(old(self).browser().active().spec@),
            ),
    {
        let label = label_of(&self.tabs[self.active_tab].spec);
        finish_load(&mut self.tabs, self.active_tab, &mut self.status, result, now, label);
        proof {
            self.lemma_same_specs(*old(self));
        }
    }

    /// Says what is to be loaded where the tab that is shown was last loaded
    /// too long ago.
    pub fn tick(&mut self, now: u64) -> (r: Option<Fetch>)
        requires
            old(self).wf(),
        ensures
            final(self).wf(),
            final(self).same_aside(*old(self)),
            ({
                let b = old(self).browser();
                if b.due(old(self).cfg.refresh_interval_secs, now) {
                    r is Some && final(self).browser() == b.begun() && is_fetch(r->0, b.active().spec@)
                } else {
                    r is None && final(self).browser() == b
                }
            }),
    {
        let interval: u64 = self.cfg.refresh_interval_secs;
        if interval == 0 {
            return None;
        }
        let data = &self.tabs[self.active_tab].data;
        if data.is_stale(interval, now) && !data.loading {
            Some(self.refresh_active())
        } else {
            None
        }
    }

    /// Nothing arrives in the background here.
    pub fn drain(&mut self) -> (r: bool)
        ensures
            !r,
            *final(self) == *old(self),
    {
        false
    }

    /// The selected item.
    pub fn focused_item(&self) -> (r: Option<&Item>)
        requires
            self.wf(),
        ensures
            match r {
                Some(x) => self.browser().list().focused() == Some(*x),
                None => self.browser().list().focused() is None,
            },
    {
        self.tabs[self.active_tab].data.focused()
    }

    /// Notes how opening a page went.
    pub fn opened(&mut self, url: &str, result: &Result<(), String>)
        ensures
            final(self).same_aside(*old(self)),
            final(self).browser() == old(self).browser().with_status(tabs::opened(url@, *result)),
            old(self).wf() ==> final(self).wf(),
    {
        self.status = opened_status(url, result);
    }

    /// Sets the status where nothing can be done with the selection.
    fn say(&mut self, status: &str)
        requires
            old(self).wf(),
        ensures
            final(self).wf(),
            final(self).same_aside(*old(self)),
            final(self).browser() == old(self).browser().with_status(status@),
    {
        self.status = owned(status);
    }

    /// The page of the selected item in the console.
    pub fn open_console(&mut self) -> (r: Option<String>)
        requires
            old(self).wf(),
        ensures
            final(self).wf(),
            final(self).same_aside(*old(self)),
            ({
                let b = old(self).browser();
                match b.list().focused() {
                    Some(x) => {
                        &&& final(self).browser() == b
                        &&& text::opt_view(r) == Some(console_url(b.active().spec@.region, x))
                    },
                    None => r is None && final(self).browser() == b.with_status("no item under cursor"@),
                }
            }),
    {
        let spec = &self.tabs[self.active_tab].spec;
        let region = url_region(&spec.region);
        let url = match self.focused_item() {
            Some(Item::Repository(p)) => {
                let registry = match &p.registry_id {
                    Some(id) => id.as_str(),
                    None => "registry",
                };
                let first = cat4(
                    "https://",
                    region,
                    ".console.aws.amazon.com/ecr/private-registry/repositories/private/",
                    registry,
                );
                cat5(first.as_str(), "/", p.name.as_str(), "?region=", region)
            },
            Some(Item::Image(i)) => {
                let first = cat4(
                    "https://",
                    region,
                    ".console.aws.amazon.com/ecr/repositories/private/registry/",
                    i.repository_name.as_str(),
                );
                cat3(first.as_str(), "/_/image?region=", region)
            },
            None => {
                self.say("no item under cursor");
                return None;
            },
        };
        Some(url)
    }

    /// What is to be copied of the selected item.
    pub fn yank_arn(&mut self) -> (r: Option<Yank>)
        requires
            old(self).wf(),
        ensures
            final(self).wf(),
            final(self).same_aside(*old(self)),
            ({
                let b = old(self).browser();
                match b.list().focused() {
                    Some(x) => if yanked(x).len() > 0 {
                        &&& final(self).browser() == b
                        &&& r matches Some(y) && y.payload@ == yanked(x) && y.label@ == yank_label(x)
                    } else {
                        r is None && final(self).browser() == b.with_status(
                            "nothing to copy for this item"@,
                        )
                    },
                    None => r is None && final(self).browser() == b.with_status("no item under cursor"@),
                }
            }),
    {
        let y = match self.focused_item() {
            Some(Item::Repository(p)) => Yank { payload: p.arn.clone(), label: owned("ARN") },
            Some(Item::Image(i)) => Yank {
                payload: image_pull_string(i),
                label: owned("image pull URI"),
            },
            None => {
                self.say("no item under cursor");
                return None;
            },
        };
        if y.payload.as_str().is_empty() {
            self.say("nothing to copy for this item");
            return None;
        }
        Some(y)
    }

    /// Notes how copying went; the status counts bytes.
    pub fn arn_copied(&mut self, y: &Yank, result: &Result<(), String>)
        ensures
            final(self).same_aside(*old(self)),
            final(self).browser() == old(self).browser().with_status(
                tabs::copied(
                    "copied "@ + y.label@ + " ("@ + numeral::decimal(
                        vstd::utf8::encode_utf8(y.payload@).len(),
                    ) + " chars)"@,
                    *result,
                ),
            ),
            old(self).wf() ==> final(self).wf(),
    {
        let n = dec_size(byte_len(y.payload.as_str()));
        let done = cat5("copied ", y.label.as_str(), " (", n.as_str(), " chars)");
        self.status = copied_status(done.as_str(), result);
    }
}

/// A tab that was made of settings without an error lists something known.
pub proof fn law_resolved_is_valid(t: Tab, region: Option<Seq<char>>)
    ensures
        resolved(t, region) matches Ok(s) ==> valid_spec(s),
        config::tab_error(t, 0) is None <==> resolved(t, region) is Ok,
{
}

} // verus!
