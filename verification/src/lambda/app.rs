//! The state of the functions browser.

use vstd::prelude::*;

use crate::command;
use crate::command::{as_slice, launched_status, tail_launch_of, Launch};
use crate::lambda::config::{Config, Tab};
use crate::lambda::lambda::{log_group_for, Function};
use crate::numeral;
use crate::numeral::dec_size;
use crate::tabs;
use crate::tabs::{
    begin_load, copied_status, finish_load, move_active, opened_status, pick_region, url_region, BrowserV,
    ListTab, ListV,
};
use crate::text;
use crate::text::{
    byte_len, cat2, cat3, cat4, cat5, cat6, copy_all, copy_opt, join, last_piece, owned, quote, split, str_eq,
};

verus! {

/// What a tab lists.
pub struct TabSpec {
    pub kind: String,
    pub watched: Vec<String>,
    pub region: Option<String>,
}

/// A `TabSpec` by its contents.
#[verifier::ext_equal]
pub struct SpecV {
    pub kind: Seq<char>,
    pub watched: Seq<Seq<char>>,
    pub region: Option<Seq<char>>,
}

impl View for TabSpec {
    type V = SpecV;

    open spec fn view(&self) -> SpecV {
        SpecV {
            kind: self.kind@,
            watched: text::views(self.watched@),
            region: text::opt_view(self.region),
        }
    }
}

/// What a tab of the settings lists, or why it cannot be.
pub open spec fn resolved(t: Tab, default_region: Option<Seq<char>>) -> Result<SpecV, Seq<char>> {
    let region = tabs::region_or(text::opt_view(t.region), default_region);
    if t.kind@ == "all"@ {
        Ok(SpecV { kind: "all"@, watched: Seq::empty(), region })
    } else if t.kind@ == "watched"@ {
        if t.watched@.len() == 0 {
            Err("tab `"@ + t.name@ + "`: kind=\"watched\" requires `watched`"@)
        } else {
            Ok(SpecV { kind: "watched"@, watched: text::views(t.watched@), region })
        }
    } else {
        Err("tab `"@ + t.name@ + "`: unknown kind "@ + text::quoted(t.kind@))
    }
}

/// The tab lists something known.
pub open spec fn valid_spec(s: SpecV) -> bool {
    s.kind == "all"@ || s.kind == "watched"@
}

impl TabSpec {
    pub fn resolve(t: &Tab, default_region: Option<&str>) -> (r: Result<TabSpec, String>)
        ensures
            spec_result(r) == resolved(*t, text::opt_str_view(default_region)),
    {
        let region = pick_region(&t.region, default_region);
        if str_eq(t.kind.as_str(), "all") {
            let none: Vec<String> = Vec::new();
            assert(text::views(none@) =~= Seq::empty());
            Ok(TabSpec { kind: owned("all"), watched: none, region })
        } else if str_eq(t.kind.as_str(), "watched") {
            if t.watched.len() == 0 {
                Err(cat3("tab `", t.name.as_str(), "`: kind=\"watched\" requires `watched`"))
            } else {
                Ok(TabSpec { kind: owned("watched"), watched: copy_all(&t.watched), region })
            }
        } else {
            let kind = quote(t.kind.as_str());
            Err(cat4("tab `", t.name.as_str(), "`: unknown kind ", kind.as_str()))
        }
    }
}

/// A list of functions.
pub type FunctionsTab = ListTab<Function>;

/// A tab of functions.
pub type TabState = tabs::TabState<TabSpec, Function>;

/// The contents of a result with a `TabSpec` or an error text.
pub open spec fn spec_result(r: Result<TabSpec, String>) -> Result<SpecV, Seq<char>> {
    match r {
        Ok(s) => Ok(s@),
        Err(e) => Err(e@),
    }
}

/// The first error among the first `i` tabs of the settings.
pub open spec fn tabs_error(t: Seq<Tab>, region: Option<Seq<char>>, i: int) -> Option<Seq<char>>
    decreases i,
{
    if i <= 0 {
        None
    } else {
        match tabs_error(t, region, i - 1) {
            Some(e) => Some(e),
            None => match resolved(t[i - 1], region) {
                Ok(_) => None,
                Err(e) => Some(e),
            },
        }
    }
}

proof fn lemma_first_error(t: Seq<Tab>, region: Option<Seq<char>>, i: int, n: int)
    requires
        0 <= i <= n,
        tabs_error(t, region, i) is Some,
    ensures
        tabs_error(t, region, n) == tabs_error(t, region, i),
    decreases n - i,
{
    if i < n {
        lemma_first_error(t, region, i, n - 1);
    }
}

/// `s` is a tab that was made of `t` and has not been loaded.
pub open spec fn fresh_tab(s: TabState, t: Tab, region: Option<Seq<char>>) -> bool {
    &&& s.name@ == t.name@
    &&& resolved(t, region) == Ok::<SpecV, Seq<char>>(s.spec@)
    &&& s.data@ == ListV::<Function>::empty()
}

/// The tabs that the settings describe, none of them loaded; or the first
/// error among them.
fn make_tabs(cfg: &Config) -> (r: Result<Vec<TabState>, String>)
    ensures
        match r {
            Ok(tabs) => {
                &&& tabs.len() == cfg.tabs.len()
                &&& tabs_error(cfg.tabs@, text::opt_view(cfg.region), cfg.tabs.len() as int) is None
                &&& forall|i: int|
                    0 <= i < tabs.len() ==> fresh_tab(
                        #[trigger] tabs@[i],
                        cfg.tabs@[i],
                        text::opt_view(cfg.region),
                    )
            },
            Err(e) => tabs_error(cfg.tabs@, text::opt_view(cfg.region), cfg.tabs.len() as int) == Some(e@),
        },
{
    let ghost region = text::opt_view(cfg.region);
    let mut tabs: Vec<TabState> = Vec::new();
    let mut i: usize = 0;
    while i < cfg.tabs.len()
        invariant
            i <= cfg.tabs.len(),
            region == text::opt_view(cfg.region),
            tabs.len() == i,
            tabs_error(cfg.tabs@, region, i as int) is None,
            forall|k: int| 0 <= k < i ==> fresh_tab(#[trigger] tabs@[k], cfg.tabs@[k], region),
        decreases cfg.tabs.len() - i,
    {
        let t = &cfg.tabs[i];
        match TabSpec::resolve(t, as_slice(&cfg.region)) {
            Ok(spec) => {
                tabs.push(tabs::TabState { name: t.name.clone(), spec, data: ListTab::empty() });
            },
            Err(e) => {
                proof {
                    lemma_first_error(cfg.tabs@, region, i + 1, cfg.tabs.len() as int);
                }
                return Err(e);
            },
        }
        i = i + 1;
    }
    Ok(tabs)
}

/// What is to be loaded.
pub enum Fetch {
    /// All functions.
    All { region: Option<String> },
    /// Some functions, by name.
    Watched { names: Vec<String>, region: Option<String> },
}

/// `f` asks for what `spec` lists.
pub open spec fn is_fetch(f: Fetch, spec: SpecV) -> bool {
    match f {
        Fetch::All { region } => spec.kind == "all"@ && text::opt_view(region) == spec.region,
        Fetch::Watched { names, region } => {
            &&& spec.kind != "all"@
            &&& text::views(names@) == spec.watched
            &&& text::opt_view(region) == spec.region
        },
    }
}

fn fetch_of(spec: &TabSpec) -> (r: Fetch)
    ensures
        is_fetch(r, spec@),
{
    if str_eq(spec.kind.as_str(), "all") {
        Fetch::All { region: copy_opt(&spec.region) }
    } else {
        Fetch::Watched { names: copy_all(&spec.watched), region: copy_opt(&spec.region) }
    }
}

/// What is counted in the status.
pub open spec fn count_label(spec: SpecV) -> Seq<char> {
    "functions"@
}

fn label_of(spec: &TabSpec) -> (r: &'static str)
    ensures
        r@ == count_label(spec@),
{
    "functions"
}

/// The functions that were read, in order.
pub open spec fn read_ones(r: Seq<(String, Result<Function, String>)>) -> Seq<Function>
    decreases r.len(),
{
    if r.len() == 0 {
        Seq::empty()
    } else {
        match r.last().1 {
            Ok(f) => read_ones(r.drop_last()).push(f),
            Err(_) => read_ones(r.drop_last()),
        }
    }
}

/// The errors of the functions that were not read, in order.
pub open spec fn errors(r: Seq<(String, Result<Function, String>)>) -> Seq<Seq<char>>
    decreases r.len(),
{
    if r.len() == 0 {
        Seq::empty()
    } else {
        match r.last().1 {
            Ok(_) => errors(r.drop_last()),
            Err(e) => errors(r.drop_last()).push(r.last().0@ + ": "@ + e@),
        }
    }
}

/// The outcome of reading functions one by one: those that were read; an error
/// only where none was.
pub open spec fn merged(r: Seq<(String, Result<Function, String>)>) -> Result<Seq<Function>, Seq<char>> {
    if read_ones(r).len() == 0 && errors(r).len() > 0 {
        Err(text::joined(errors(r), "; "@))
    } else {
        Ok(read_ones(r))
    }
}

/// Puts together what reading functions one by one gave.
pub fn merge_watched(results: Vec<(String, Result<Function, String>)>) -> (r: Result<Vec<Function>, String>)
    ensures
        tabs::result_view(r) == merged(results@),
{
    let ghost all = results@;
    let mut rest = results;
    let mut out: Vec<Function> = Vec::new();
    let mut errs: Vec<String> = Vec::new();
    assert(all.take(0) =~= Seq::empty());
    assert(all.skip(0) =~= all);
    assert(text::views(errs@) =~= Seq::empty());
    while rest.len() > 0
        invariant
            rest.len() <= all.len(),
            rest@ == all.skip(all.len() - rest.len()),
            out@ == read_ones(all.take(all.len() - rest.len())),
            text::views(errs@) == errors(all.take(all.len() - rest.len())),
        decreases rest.len(),
    {
        let ghost n = all.len() - rest.len();
        let (name, result) = rest.remove(0);
        assert(rest@ =~= all.skip(n + 1));
        assert(all.take(n + 1).drop_last() =~= all.take(n));
        assert(all.take(n + 1).last() == all[n]);
        match result {
            Ok(f) => out.push(f),
            Err(e) => {
                let m = cat3(name.as_str(), ": ", e.as_str());
                text::push_str(&mut errs, m.as_str());
            },
        }
    }
    assert(all.take(all.len() as int) =~= all);
    if out.len() == 0 && errs.len() > 0 {
        Err(join(&errs, "; "))
    } else {
        Ok(out)
    }
}

/// The state of the browser.
pub struct App {
    pub cfg: Config,
    pub tabs: Vec<TabState>,
    pub active_tab: usize,
    pub status: String,
}

/// The page of a function in the console.
pub open spec fn console_url(region: Option<Seq<char>>, name: Seq<char>) -> Seq<char> {
    let r = tabs::region_in_url(region);
    "https://"@ + r + ".console.aws.amazon.com/lambda/home?region="@ + r + "#/functions/"@ + name
}

/// The part of an ARN that names the service.
pub open spec fn arn_service(arn: Seq<char>) -> Seq<char> {
    let parts = text::split_at_char(arn, ':');
    if parts.len() > 2 {
        parts[2]
    } else {
        ""@
    }
}

/// What the status says where the selected function has no dead letter queue
/// to go to, and otherwise which browser is to be started.
pub open spec fn dlq_launch(f: Function) -> Result<command::LaunchV, Seq<char>> {
    match f.dead_letter_config {
        None => Err("no DLQ configured on this function"@),
        Some(d) => match d.target_arn {
            None => Err("no DLQ configured on this function"@),
            Some(arn) => {
                let service = arn_service(arn@);
                let resource = text::after_last(arn@, ':');
                if service == "sqs"@ {
                    Ok(sibling_launch("mnml-aws-sqs"@, resource))
                } else if service == "sns"@ {
                    Ok(sibling_launch("mnml-aws-sns"@, resource))
                } else {
                    Err("no sibling for `"@ + service + "` DLQ — supported: sqs, sns"@)
                }
            },
        },
    }
}

/// The start of another browser, in which the user goes on to `resource`.
pub open spec fn sibling_launch(binary: Seq<char>, resource: Seq<char>) -> command::LaunchV {
    command::LaunchV {
        program: binary,
        args: Seq::empty(),
        done: "launched "@ + binary + " — navigate to "@ + resource + " (auto-scope is v0.x)"@,
        failed: "spawn "@ + binary + " failed (install it?): "@,
    }
}

fn sibling(binary: &str, resource: &str) -> (r: Launch)
    ensures
        r@ == sibling_launch(binary@, resource@),
{
    let args: Vec<String> = Vec::new();
    assert(text::views(args@) =~= Seq::empty());
    Launch {
        program: owned(binary),
        args,
        done: cat5("launched ", binary, " — navigate to ", resource, " (auto-scope is v0.x)"),
        failed: cat3("spawn ", binary, " failed (install it?): "),
    }
}

fn dlq_launch_of(f: &Function) -> (r: Result<Launch, String>)
    ensures
        match (r, dlq_launch(*f)) {
            (Ok(l), Ok(v)) => l@ == v,
            (Err(e), Err(m)) => e@ == m,
            _ => false,
        },
{
    let arn = match &f.dead_letter_config {
        None => {
            return Err(owned("no DLQ configured on this function"));
        },
        Some(d) => match &d.target_arn {
            None => {
                return Err(owned("no DLQ configured on this function"));
            },
            Some(a) => a.as_str(),
        },
    };
    let parts = split(arn, ':');
    assert(forall|i: int| 0 <= i < parts.len() ==> text::views(parts@)[i] == parts@[i]@);
    let service = if parts.len() > 2 { parts[2].as_str() } else { "" };
    let resource = last_piece(arn, ':');
    if str_eq(service, "sqs") {
        Ok(sibling("mnml-aws-sqs", resource))
    } else if str_eq(service, "sns") {
        Ok(sibling("mnml-aws-sns", resource))
    } else {
        Err(cat3("no sibling for `", service, "` DLQ — supported: sqs, sns"))
    }
}

impl App {
    /// The settings are the same.
    pub open spec fn same_aside(self, other: App) -> bool {
        self.cfg == other.cfg
    }

    /// The tabs, the one that is shown, and the status.
    pub open spec fn browser(self) -> BrowserV<TabSpec, Function> {
        BrowserV {
            tabs: tabs::tab_views(self.tabs@),
            active_tab: self.active_tab as int,
            status: self.status@,
        }
    }

    /// One of the tabs is shown, and every tab lists something known.
    pub open spec fn wf(self) -> bool {
        &&& self.active_tab < self.tabs@.len()
        &&& forall|i: int| 0 <= i < self.tabs@.len() ==> valid_spec((#[trigger] self.tabs@[i]).spec@)
    }

    /// The browser of some settings, before anything was loaded; or the first
    /// error in the settings.
    pub fn new(cfg: Config) -> (r: Result<App, String>)
        requires
            cfg.tabs.len() > 0,
        ensures
            match r {
                Ok(app) => {
                    &&& app.wf()
                    &&& app.cfg == cfg
                    &&& app.active_tab == 0
                    &&& app.status@ == Seq::<char>::empty()
                    &&& app.tabs.len() == cfg.tabs.len()
                    &&& tabs_error(cfg.tabs@, text::opt_view(cfg.region), cfg.tabs.len() as int) is None
                    &&& forall|i: int|
                        0 <= i < app.tabs.len() ==> fresh_tab(
                            #[trigger] app.tabs@[i],
                            cfg.tabs@[i],
                            text::opt_view(cfg.region),
                        )
                },
                Err(e) => tabs_error(cfg.tabs@, text::opt_view(cfg.region), cfg.tabs.len() as int) == Some(e@),
            },
    {
        match make_tabs(&cfg) {
            Ok(tabs) => {
                let app = App { cfg, tabs, active_tab: 0, status: String::new() };
                assert(forall|i: int| 0 <= i < app.tabs@.len() ==> fresh_tab(
                    #[trigger] app.tabs@[i],
                    cfg.tabs@[i],
                    text::opt_view(cfg.region),
                ) ==> valid_spec(app.tabs@[i].spec@));
                Ok(app)
            },
            Err(e) => Err(e),
        }
    }

    /// The tab that is shown.
    pub fn active(&self) -> (r: &TabState)
        requires
            self.wf(),
        ensures
            *r == self.tabs@[self.active_tab as int],
    {
        &self.tabs[self.active_tab]
    }

    /// The tab that is shown, to be changed.
    pub fn active_mut(&mut self) -> (r: &mut TabState)
        requires
            old(self).wf(),
        ensures
            *r == old(self).tabs@[old(self).active_tab as int],
            final(self).tabs@ == old(self).tabs@.update(old(self).active_tab as int, *final(r)),
            final(self).active_tab == old(self).active_tab,
            final(self).status == old(self).status,
            final(self).same_aside(*old(self)),
    {
        &mut self.tabs[self.active_tab]
    }

    /// Shows the tab `idx`, if there is one. A tab that was never loaded is to
    /// be loaded.
    pub fn switch_tab(&mut self, idx: usize) -> (r: Option<Fetch>)
        requires
            old(self).wf(),
        ensures
            final(self).wf(),
            final(self).same_aside(*old(self)),
            ({
                let b = old(self).browser().switched(idx as int);
                if old(self).browser().due_on_switch(idx as int) {
                    &&& r is Some
                    &&& final(self).browser() == b.begun()
                    &&& is_fetch(r->0, b.active().spec@)
                } else {
                    r is None && final(self).browser() == b
                }
            }),
    {
        if idx < self.tabs.len() {
            self.active_tab = idx;
            let data = &self.tabs[idx].data;
            if data.items.len() == 0 && data.last_error.is_none() {
                return Some(self.refresh_active());
            }
        }
        None
    }

    /// Moves the selection; it stops at the first and at the last row.
    pub fn move_selection(&mut self, delta: isize)
        requires
            old(self).wf(),
        ensures
            final(self).wf(),
            final(self).same_aside(*old(self)),
            final(self).browser() == old(self).browser().moved(delta as int),
    {
        move_active(&mut self.tabs, self.active_tab, delta);
        proof {
            self.lemma_same_specs(*old(self));
        }
    }

    /// Tabs with the same contents list the same.
    proof fn lemma_same_specs(self, before: App)
        requires
            before.wf(),
            self.active_tab == before.active_tab,
            self.tabs@.len() == before.tabs@.len(),
            forall|i: int|
                0 <= i < self.tabs@.len() ==> tabs::tab_views(self.tabs@)[i].spec == tabs::tab_views(
                    before.tabs@,
                )[i].spec,
        ensures
            self.wf(),
    {
        assert forall|i: int| 0 <= i < self.tabs@.len() implies valid_spec((#[trigger] self.tabs@[i]).spec@) by {
            assert(tabs::tab_views(self.tabs@)[i].spec == tabs::tab_views(before.tabs@)[i].spec);
            assert(valid_spec(before.tabs@[i].spec@));
        }
    }

    /// Notes that the tab that is shown is being loaded, and says what is to
    /// be loaded.
    pub fn refresh_active(&mut self) -> (r: Fetch)
        requires
            old(self).wf(),
        ensures
            final(self).wf(),
            final(self).same_aside(*old(self)),
            final(self).browser() == old(self).browser().begun(),
            is_fetch(r, old(self).browser().active().spec@),
    {
        begin_load(&mut self.tabs, self.active_tab, &mut self.status);
        proof {
            self.lemma_same_specs(*old(self));
        }
        fetch_of(&self.tabs[self.active_tab].spec)
    }

    /// Takes in what was loaded, or why nothing was.
    pub fn refresh_done(&mut self, result: Result<Vec<Function>, String>, now: u64)
        requires
            old(self).wf(),
        ensures
            final(self).wf(),
            final(self).same_aside(*old(self)),
            final(self).browser() == old(self).browser().finished(
                tabs::result_view(result),
                now,
                count_label(old(self).browser().active().spec@),
            ),
    {
        let label = label_of(&self.tabs[self.active_tab].spec);
        finish_load(&mut self.tabs, self.active_tab, &mut self.status, result, now, label);
        proof {
            self.lemma_same_specs(*old(self));
        }
    }

    /// Says what is to be loaded where the tab that is shown was last loaded
    /// too long ago.
    pub fn tick(&mut self, now: u64) -> (r: Option<Fetch>)
        requires
            old(self).wf(),
        ensures
            final(self).wf(),
            final(self).same_aside(*old(self)),
            ({
                let b = old(self).browser();
                if b.due(old(self).cfg.refresh_interval_secs, now) {
                    r is Some && final(self).browser() == b.begun() && is_fetch(r->0, b.active().spec@)
                } else {
                    r is None && final(self).browser() == b
                }
            }),
    {
        let interval: u64 = self.cfg.refresh_interval_secs;
        if interval == 0 {
            return None;
        }
        let data = &self.tabs[self.active_tab].data;
        if data.is_stale(interval, now) && !data.loading {
            Some(self.refresh_active())
        } else {
            None
        }
    }

    /// Nothing arrives in the background here.
    pub fn drain(&mut self) -> (r: bool)
        ensures
            !r,
            *final(self) == *old(self),
    {
        false
    }

    /// The selected function.
    pub fn focused_function(&self) -> (r: Option<&Function>)
        requires
            self.wf(),
        ensures
            match r {
                Some(x) => self.browser().list().focused() == Some(*x),
                None => self.browser().list().focused() is None,
            },
    {
        self.tabs[self.active_tab].data.focused()
    }

    /// Notes how opening a page went.
    pub fn opened(&mut self, url: &str, result: &Result<(), String>)
        ensures
            final(self).same_aside(*old(self)),
            final(self).browser() == old(self).browser().with_status(tabs::opened(url@, *result)),
            old(self).wf() ==> final(self).wf(),
    {
        self.status = opened_status(url, result);
    }

    /// Sets the status where no function is selected.
    fn no_function(&mut self)
        requires
            old(self).wf(),
        ensures
            final(self).wf(),
            final(self).same_aside(*old(self)),
            final(self).browser() == old(self).browser().with_status("no function under cursor"@),
    {
        self.status = owned("no function under cursor");
    }

    /// The page of the selected function in the console.
    pub fn open_console(&mut self) -> (r: Option<String>)
        requires
            old(self).wf(),
        ensures
            final(self).wf(),
            final(self).same_aside(*old(self)),
            ({
                let b = old(self).browser();
                match b.list().focused() {
                    Some(f) => {
                        &&& final(self).browser() == b
                        &&& text::opt_view(r) == Some(
                            console_url(b.active().spec@.region, f.function_name@),
                        )
                    },
                    None => r is None && final(self).browser() == b.with_status(
                        "no function under cursor"@,
                    ),
                }
            }),
    {
        let name = match self.focused_function() {
            Some(f) => f.function_name.clone(),
            None => {
                self.no_function();
                return None;
            },
        };
        let region = url_region(&self.tabs[self.active_tab].spec.region);
        Some(
            cat6(
                "https://",
                region,
                ".console.aws.amazon.com/lambda/home?region=",
                region,
                "#/functions/",
                name.as_str(),
            ),
        )
    }

    /// The ARN of the selected function, to be copied.
    pub fn yank_arn(&mut self) -> (r: Option<String>)
        requires
            old(self).wf(),
        ensures
            final(self).wf(),
            final(self).same_aside(*old(self)),
            ({
                let b = old(self).browser();
                match b.list().focused() {
                    Some(f) => final(self).browser() == b && text::opt_view(r) == Some(f.function_arn@),
                    None => r is None && final(self).browser() == b.with_status(
                        "no function under cursor"@,
                    ),
                }
            }),
    {
        match self.focused_function() {
            Some(f) => Some(f.function_arn.clone()),
            None => {
                self.no_function();
                None
            },
        }
    }

    /// Notes how copying an ARN went; the status counts its bytes.
    pub fn arn_copied(&mut self, arn: &str, result: &Result<(), String>)
        ensures
            final(self).same_aside(*old(self)),
            final(self).browser() == old(self).browser().with_status(
                tabs::copied(
                    "copied ARN ("@ + numeral::decimal(vstd::utf8::encode_utf8(arn@).len()) + " chars)"@,
                    *result,
                ),
            ),
            old(self).wf() ==> final(self).wf(),
    {
        let n = dec_size(byte_len(arn));
        let done = cat3("copied ARN (", n.as_str(), " chars)");
        self.status = copied_status(done.as_str(), result);
    }

    /// The logs browser on the selected function's log group.
    pub fn tail_logs(&mut self) -> (r: Option<Launch>)
        requires
            old(self).wf(),
        ensures
            final(self).wf(),
            final(self).same_aside(*old(self)),
            ({
                let b = old(self).browser();
                match b.list().focused() {
                    Some(f) => {
                        &&& final(self).browser() == b
                        &&& command::opt_launch(r) == Some(
                            command::tail_launch(
                                "/aws/lambda/"@ + f.function_name@,
                                f.function_name@,
                                b.active().spec@.region,
                                "tailing /aws/lambda/"@ + f.function_name@,
                            ),
                        )
                    },
                    None => r is None && final(self).browser() == b.with_status(
                        "no function under cursor"@,
                    ),
                }
            }),
    {
        let name = match self.focused_function() {
            Some(f) => f.function_name.clone(),
            None => {
                self.no_function();
                return None;
            },
        };
        let group = log_group_for(name.as_str());
        let done = cat2("tailing /aws/lambda/", name.as_str());
        let region = as_slice(&self.tabs[self.active_tab].spec.region);
        Some(tail_launch_of(group.as_str(), name.as_str(), region, done))
    }

    /// The browser of the selected function's dead letter queue or topic.
    pub fn handoff_dlq(&mut self) -> (r: Option<Launch>)
        requires
            old(self).wf(),
        ensures
            final(self).wf(),
            final(self).same_aside(*old(self)),
            ({
                let b = old(self).browser();
                match b.list().focused() {
                    Some(f) => match dlq_launch(f) {
                        Ok(l) => final(self).browser() == b && command::opt_launch(r) == Some(l),
                        Err(m) => r is None && final(self).browser() == b.with_status(m),
                    },
                    None => r is None && final(self).browser() == b.with_status(
                        "no function under cursor"@,
                    ),
                }
            }),
    {
        let result = match self.focused_function() {
            Some(f) => dlq_launch_of(f),
            None => {
                self.no_function();
                return None;
            },
        };
        match result {
            Ok(l) => Some(l),
            Err(m) => {
                self.status = m;
                None
            },
        }
    }

    /// Notes how starting another program went.
    pub fn launched(&mut self, l: &Launch, result: &Result<(), String>)
        ensures
            final(self).same_aside(*old(self)),
            final(self).browser() == old(self).browser().with_status(command::launch_status(l@, *result)),
            old(self).wf() ==> final(self).wf(),
    {
        self.status = launched_status(l, result);
    }
}

/// Where one function could be read, those that could not do not make the load
/// fail.
pub proof fn law_one_success_suffices(r: Seq<(String, Result<Function, String>)>, i: int)
    requires
        0 <= i < r.len(),
        r[i].1 is Ok,
    ensures
        merged(r) is Ok,
{
    lemma_read_ones_nonempty(r, i);
}

proof fn lemma_read_ones_nonempty(r: Seq<(String, Result<Function, String>)>, i: int)
    requires
        0 <= i < r.len(),
        r[i].1 is Ok,
    ensures
        read_ones(r).len() > 0,
    decreases r.len(),
{
    if i < r.len() - 1 {
        lemma_read_ones_nonempty(r.drop_last(), i);
    }
}

} // verus!
