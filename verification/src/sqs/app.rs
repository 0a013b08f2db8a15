//! The state of the queues browser.

use vstd::prelude::*;

use crate::command::as_slice;
use crate::numeral;
use crate::numeral::dec_size;
use crate::order;
use crate::order::sort_texts;
use crate::sqs::config::{Config, Tab};
use crate::sqs::sqs;
use crate::sqs::sqs::{dlq_target_arn, DlqStats, Queue, QueueAttributes};
use crate::tabs;
use crate::tabs::{
    begin_load, copied_status, finish_load, move_active, opened_status, pick_region, url_region,
    BrowserV, ListTab, ListV,
};
use crate::text;
use crate::text::{cat2, cat3, cat4, cat5, cat6, copy_opt, owned, quote, str_eq, trim};
use crate::url;
use crate::url::urlencode_path;

verus! {

/// What a tab lists.
pub struct TabSpec {
    pub kind: String,
    pub prefix: Option<String>,
    pub region: Option<String>,
}

/// A `TabSpec` by its contents.
pub struct SpecV {
    pub kind: Seq<char>,
    pub prefix: Option<Seq<char>>,
    pub region: Option<Seq<char>>,
}

impl View for TabSpec {
    type V = SpecV;

    open spec fn view(&self) -> SpecV {
        SpecV {
            kind: self.kind@,
            prefix: text::opt_view(self.prefix),
            region: text::opt_view(self.region),
        }
    }
}

/// What a tab of the settings lists, or why it cannot be.
pub open spec fn resolved(t: Tab, default_region: Option<Seq<char>>) -> Result<SpecV, Seq<char>> {
    let region = tabs::region_or(text::opt_view(t.region), default_region);
    if t.kind@ == "all"@ {
        Ok(SpecV { kind: "all"@, prefix: None, region })
    } else if t.kind@ == "prefix"@ {
        let prefix = match t.prefix {
            Some(p) => p@,
            None => Seq::empty(),
        };
        if text::trimmed(prefix).len() == 0 {
            Err("tab `"@ + t.name@ + "`: kind=\"prefix\" requires `prefix`"@)
        } else {
            Ok(SpecV { kind: "prefix"@, prefix: Some(prefix), region })
        }
    } else {
        Err("tab `"@ + t.name@ + "`: unknown kind "@ + text::quoted(t.kind@))
    }
}

/// The contents of a result with a `TabSpec` or an error text.
pub open spec fn spec_result(r: Result<TabSpec, String>) -> Result<SpecV, Seq<char>> {
    match r {
        Ok(s) => Ok(s@),
        Err(e) => Err(e@),
    }
}

impl TabSpec {
    pub fn resolve(t: &Tab, default_region: Option<&str>) -> (r: Result<TabSpec, String>)
        ensures
            spec_result(r) == resolved(*t, text::opt_str_view(default_region)),
    {
        let region = pick_region(&t.region, default_region);
        if str_eq(t.kind.as_str(), "all") {
            Ok(TabSpec { kind: owned("all"), prefix: None, region })
        } else if str_eq(t.kind.as_str(), "prefix") {
            let prefix = match &t.prefix {
                Some(p) => p.clone(),
                None => String::new(),
            };
            if trim(prefix.as_str()).is_empty() {
                Err(cat3("tab `", t.name.as_str(), "`: kind=\"prefix\" requires `prefix`"))
            } else {
                Ok(TabSpec { kind: owned("prefix"), prefix: Some(prefix), region })
            }
        } else {
            let kind = quote(t.kind.as_str());
            Err(cat4("tab `", t.name.as_str(), "`: unknown kind ", kind.as_str()))
        }
    }
}

/// A list of queues.
pub type ItemsTab = ListTab<Queue>;

/// A tab of queues.
pub type TabState = tabs::TabState<TabSpec, Queue>;

/// The state of the browser.
pub struct App {
    pub cfg: Config,
    pub tabs: Vec<TabState>,
    pub active_tab: usize,
    pub status: String,
}

/// A list of queues that is to be loaded.
pub struct Fetch {
    pub prefix: Option<String>,
    pub region: Option<String>,
}

/// Attributes that are to be read.
pub struct Wanted {
    pub index: usize,
    pub url: String,
    pub region: Option<String>,
}

/// A `Wanted` by its contents.
#[verifier::ext_equal]
pub struct WantedV {
    pub index: int,
    pub url: Seq<char>,
    pub region: Option<Seq<char>>,
}

/// The contents of an optional `Wanted`.
pub open spec fn wanted_view(w: Option<Wanted>) -> Option<WantedV> {
    match w {
        Some(x) => Some(
            WantedV { index: x.index as int, url: x.url@, region: text::opt_view(x.region) },
        ),
        None => None,
    }
}

/// The attributes that are to be read for the selected queue; none where they
/// have been read.
pub open spec fn attributes_due(b: BrowserV<TabSpec, Queue>) -> Option<WantedV> {
    match b.list().focused() {
        Some(q) => if q.attributes is None {
            Some(
                WantedV {
                    index: b.list().selected,
                    url: q.url@,
                    region: b.active().spec@.region,
                },
            )
        } else {
            None
        },
        None => None,
    }
}

/// The tabs that the settings describe, or the first error among them.
pub open spec fn tabs_of(t: Seq<Tab>, region: Option<Seq<char>>, i: int) -> Option<Seq<char>>
    decreases i,
{
    if i <= 0 {
        None
    } else {
        match tabs_of(t, region, i - 1) {
            Some(e) => Some(e),
            None => match resolved(t[i - 1], region) {
                Ok(_) => None,
                Err(e) => Some(e),
            },
        }
    }
}

/// `s` is a tab that was made of `t` and has not been loaded.
pub open spec fn fresh_tab(s: TabState, t: Tab, region: Option<Seq<char>>) -> bool {
    &&& s.name@ == t.name@
    &&& resolved(t, region) == Ok::<SpecV, Seq<char>>(s.spec@)
    &&& s.data@ == ListV::<Queue>::empty()
}

/// The dead letter queue that a queue's policy names.
pub open spec fn target(q: Queue) -> Option<Seq<char>> {
    match q.attributes {
        Some(a) => match a.attr("RedrivePolicy"@) {
            Some(p) => sqs::policy_target(p),
            None => None,
        },
        None => None,
    }
}

/// The ARN of a queue whose attributes have been read.
pub open spec fn arn(q: Queue) -> Option<Seq<char>> {
    match q.attributes {
        Some(a) => a.attr("QueueArn"@),
        None => None,
    }
}

/// The names of the queues whose dead letter queue is `target_arn`, in the
/// order of the list.
pub open spec fn names_pointing_at(q: Seq<Queue>, target_arn: Seq<char>) -> Seq<Seq<char>>
    decreases q.len(),
{
    if q.len() == 0 {
        Seq::empty()
    } else {
        let rest = names_pointing_at(q.drop_last(), target_arn);
        if target(q.last()) == Some(target_arn) {
            rest.push(text::after_last(q.last().url@, '/'))
        } else {
            rest
        }
    }
}

/// The messages of a queue whose attributes are `a`.
pub open spec fn stats(a: QueueAttributes) -> DlqStats {
    DlqStats {
        visible: sqs::or_zero(sqs::as_number(a.attr("ApproximateNumberOfMessages"@))) as u64,
        in_flight: sqs::or_zero(sqs::as_number(a.attr("ApproximateNumberOfMessagesNotVisible"@))) as u64,
    }
}

/// The messages of the queue whose ARN is `a`: of the last one in the list
/// that has it.
pub open spec fn stats_at(q: Seq<Queue>, a: Seq<char>) -> Option<DlqStats>
    decreases q.len(),
{
    if q.len() == 0 {
        None
    } else if arn(q.last()) == Some(a) {
        Some(stats(q.last().attributes->0))
    } else {
        stats_at(q.drop_last(), a)
    }
}

/// The sources of the queue `q` among the queues `all`, in order.
pub open spec fn sources_of(all: Seq<Queue>, q: Queue) -> Seq<Seq<char>> {
    match arn(q) {
        Some(a) => order::sorted_texts(names_pointing_at(all, a)),
        None => Seq::empty(),
    }
}

/// The messages in the dead letter queue of `q`, where that one is among the
/// queues `all` and `q` itself has been read.
pub open spec fn dlq_of(all: Seq<Queue>, q: Queue) -> Option<DlqStats> {
    if arn(q) is Some {
        match target(q) {
            Some(t) => stats_at(all, t),
            None => None,
        }
    } else {
        None
    }
}

/// `after` is `before` with its sources and its dead letter queue worked out.
pub open spec fn correlated(all: Seq<Queue>, before: Queue, after: Queue) -> bool {
    &&& after.url == before.url
    &&& after.attributes == before.attributes
    &&& text::views(after.redrive_sources@) == sources_of(all, before)
    &&& after.dlq_stats == dlq_of(all, before)
}

fn target_of(q: &Queue) -> (r: Option<String>)
    ensures
        text::opt_view(r) == target(*q),
{
    match &q.attributes {
        Some(a) => match a.redrive_policy() {
            Some(p) => dlq_target_arn(p),
            None => None,
        },
        None => None,
    }
}

fn arn_of(q: &Queue) -> (r: Option<String>)
    ensures
        text::opt_view(r) == arn(*q),
{
    match &q.attributes {
        Some(a) => match a.arn() {
            Some(s) => Some(owned(s)),
            None => None,
        },
        None => None,
    }
}

fn same_text(a: &Option<String>, b: &str) -> (r: bool)
    ensures
        r == (text::opt_view(*a) == Some(b@)),
{
    match a {
        Some(s) => str_eq(s.as_str(), b),
        None => false,
    }
}

fn find_sources(q: &Vec<Queue>, targets: &Vec<Option<String>>, target_arn: &str) -> (r: Vec<String>)
    requires
        targets.len() == q.len(),
        forall|i: int| 0 <= i < q.len() ==> text::opt_view(#[trigger] targets@[i]) == target(q@[i]),
    ensures
        text::views(r@) == order::sorted_texts(names_pointing_at(q@, target_arn@)),
{
    let mut names: Vec<String> = Vec::new();
    let mut i: usize = 0;
    assert(q@.take(0) =~= Seq::empty());
    assert(text::views(names@) =~= Seq::empty());
    while i < q.len()
        invariant
            i <= q.len(),
            targets.len() == q.len(),
            forall|i: int| 0 <= i < q.len() ==> text::opt_view(#[trigger] targets@[i]) == target(q@[i]),
            text::views(names@) == names_pointing_at(q@.take(i as int), target_arn@),
        decreases q.len() - i,
    {
        assert(q@.take(i + 1).drop_last() =~= q@.take(i as int));
        assert(q@.take(i + 1).last() == q@[i as int]);
        assert(text::opt_view(targets@[i as int]) == target(q@[i as int]));
        if same_text(&targets[i], target_arn) {
            text::push_str(&mut names, q[i].name());
        }
        i = i + 1;
    }
    assert(q@.take(q@.len() as int) =~= q@);
    sort_texts(names)
}

fn stats_of(a: &QueueAttributes) -> (r: DlqStats)
    ensures
        r == stats(*a),
{
    DlqStats {
        visible: match a.approximate_messages() {
            Some(n) => n,
            None => 0,
        },
        in_flight: match a.approximate_messages_not_visible() {
            Some(n) => n,
            None => 0,
        },
    }
}

proof fn lemma_stats_at(q: Seq<Queue>, a: Seq<char>, i: int)
    requires
        0 <= i < q.len(),
        arn(q[i]) == Some(a),
        forall|j: int| i < j < q.len() ==> arn(#[trigger] q[j]) != Some(a),
    ensures
        stats_at(q, a) == Some(stats(q[i].attributes->0)),
    decreases q.len(),
{
    if i < q.len() - 1 {
        assert(arn(q[q.len() - 1]) != Some(a));
        lemma_stats_at(q.drop_last(), a, i);
    }
}

proof fn lemma_stats_nowhere(q: Seq<Queue>, a: Seq<char>)
    requires
        forall|j: int| 0 <= j < q.len() ==> arn(#[trigger] q[j]) != Some(a),
    ensures
        stats_at(q, a) is None,
    decreases q.len(),
{
    if q.len() > 0 {
        assert(arn(q[q.len() - 1]) != Some(a));
        lemma_stats_nowhere(q.drop_last(), a);
    }
}

fn find_stats(q: &Vec<Queue>, arns: &Vec<Option<String>>, a: &str) -> (r: Option<DlqStats>)
    requires
        arns.len() == q.len(),
        forall|i: int| 0 <= i < q.len() ==> text::opt_view(#[trigger] arns@[i]) == arn(q@[i]),
    ensures
        r == stats_at(q@, a@),
{
    let mut i: usize = q.len();
    while i > 0
        invariant
            i <= q.len(),
            arns.len() == q.len(),
            forall|i: int| 0 <= i < q.len() ==> text::opt_view(#[trigger] arns@[i]) == arn(q@[i]),
            forall|j: int| i <= j < q.len() ==> arn(#[trigger] q@[j]) != Some(a@),
        decreases i,
    {
        i = i - 1;
        assert(text::opt_view(arns@[i as int]) == arn(q@[i as int]));
        if same_text(&arns[i], a) {
            proof {
                lemma_stats_at(q@, a@, i as int);
            }
            if let Some(attrs) = &q[i].attributes {
                return Some(stats_of(attrs));
            }
        }
    }
    proof {
        lemma_stats_nowhere(q@, a@);
    }
    None
}

/// Works out, for every queue, which queues it is the dead letter queue of,
/// and how many messages its own dead letter queue holds.
pub fn correlate(queues: &mut Vec<Queue>)
    ensures
        final(queues)@.len() == old(queues)@.len(),
        forall|i: int|
            0 <= i < old(queues)@.len() ==> correlated(
                old(queues)@,
                old(queues)@[i],
                #[trigger] final(queues)@[i],
            ),
{
    let ghost all = queues@;
    let n: usize = queues.len();
    let mut targets: Vec<Option<String>> = Vec::new();
    let mut arns: Vec<Option<String>> = Vec::new();
    let mut i: usize = 0;
    while i < n
        invariant
            i <= n,
            n == queues.len(),
            queues@ == all,
            targets.len() == i,
            arns.len() == i,
            forall|k: int| 0 <= k < i ==> text::opt_view(#[trigger] targets@[k]) == target(all[k]),
            forall|k: int| 0 <= k < i ==> text::opt_view(#[trigger] arns@[k]) == arn(all[k]),
        decreases n - i,
    {
        targets.push(target_of(&queues[i]));
        arns.push(arn_of(&queues[i]));
        i = i + 1;
    }
    let mut sources: Vec<Vec<String>> = Vec::new();
    let mut found: Vec<Option<DlqStats>> = Vec::new();
    let mut j: usize = 0;
    while j < n
        invariant
            j <= n,
            n == queues.len(),
            queues@ == all,
            targets.len() == n,
            arns.len() == n,
            sources.len() == j,
            found.len() == j,
            forall|k: int| 0 <= k < n ==> text::opt_view(#[trigger] targets@[k]) == target(all[k]),
            forall|k: int| 0 <= k < n ==> text::opt_view(#[trigger] arns@[k]) == arn(all[k]),
            forall|k: int| 0 <= k < j ==> text::views((#[trigger] sources@[k])@) == sources_of(all, all[k]),
            forall|k: int| 0 <= k < j ==> (#[trigger] found@[k]) == dlq_of(all, all[k]),
        decreases n - j,
    {
        assert(text::opt_view(targets@[j as int]) == target(all[j as int]));
        assert(text::opt_view(arns@[j as int]) == arn(all[j as int]));
        match &arns[j] {
            Some(a) => {
                sources.push(find_sources(queues, &targets, a.as_str()));
                match &targets[j] {
                    Some(t) => found.push(find_stats(queues, &arns, t.as_str())),
                    None => found.push(None),
                }
            },
            None => {
                let none: Vec<String> = Vec::new();
                assert(text::views(none@) =~= Seq::empty());
                sources.push(none);
                found.push(None);
            },
        }
        j = j + 1;
    }
    let mut k: usize = n;
    while k > 0
        invariant
            k <= n,
            n == queues.len(),
            n == all.len(),
            sources.len() == k,
            found.len() == n,
            forall|m: int| 0 <= m < k ==> text::views((#[trigger] sources@[m])@) == sources_of(all, all[m]),
            forall|m: int| 0 <= m < n ==> (#[trigger] found@[m]) == dlq_of(all, all[m]),
            forall|m: int| 0 <= m < k ==> #[trigger] queues@[m] == all[m],
            forall|m: int| k <= m < n ==> correlated(all, all[m], #[trigger] queues@[m]),
        decreases k,
    {
        k = k - 1;
        let s = sources.pop();
        let q = &mut queues[k];
        if let Some(s) = s {
            q.redrive_sources = s;
        }
        q.dlq_stats = found[k];
    }
}

impl App {
    /// The tabs, the one that is shown, and the status.
    pub open spec fn browser(self) -> BrowserV<TabSpec, Queue> {
        BrowserV {
            tabs: tabs::tab_views(self.tabs@),
            active_tab: self.active_tab as int,
            status: self.status@,
        }
    }

    /// One of the tabs is shown.
    pub open spec fn wf(self) -> bool {
        self.active_tab < self.tabs@.len()
    }

    /// The browser of some settings, before anything was loaded; or the first
    /// error in the settings.
    pub fn new(cfg: Config) -> (r: Result<App, String>)
        requires
            cfg.tabs.len() > 0,
        ensures
            match r {
                Ok(app) => {
                    &&& app.wf()
                    &&& app.cfg == cfg
                    &&& app.active_tab == 0
                    &&& app.status@ == Seq::<char>::empty()
                    &&& app.tabs.len() == cfg.tabs.len()
                    &&& forall|i: int|
                        0 <= i < app.tabs.len() ==> fresh_tab(
                            #[trigger] app.tabs@[i],
                            cfg.tabs@[i],
                            text::opt_view(cfg.region),
                        )
                },
                Err(e) => tabs_of(cfg.tabs@, text::opt_view(cfg.region), cfg.tabs.len() as int) == Some(e@),
            },
            r is Ok == (tabs_of(cfg.tabs@, text::opt_view(cfg.region), cfg.tabs.len() as int) is None),
    {
        let ghost region = text::opt_view(cfg.region);
        let mut tabs: Vec<TabState> = Vec::new();
        let mut i: usize = 0;
        while i < cfg.tabs.len()
            invariant
                i <= cfg.tabs.len(),
                region == text::opt_view(cfg.region),
                tabs.len() == i,
                tabs_of(cfg.tabs@, region, i as int) is None,
                forall|k: int| 0 <= k < i ==> fresh_tab(#[trigger] tabs@[k], cfg.tabs@[k], region),
            decreases cfg.tabs.len() - i,
        {
            let t = &cfg.tabs[i];
            match TabSpec::resolve(t, as_slice(&cfg.region)) {
                Ok(spec) => {
                    tabs.push(tabs::TabState { name: t.name.clone(), spec, data: ListTab::empty() });
                },
                Err(e) => {
                    proof {
                        lemma_first_error(cfg.tabs@, region, i + 1, cfg.tabs.len() as int);
                    }
                    return Err(e);
                },
            }
            i = i + 1;
        }
        Ok(App { cfg, tabs, active_tab: 0, status: String::new() })
    }

    /// The tab that is shown.
    pub fn active(&self) -> (r: &TabState)
        requires
            self.wf(),
        ensures
            *r == self.tabs@[self.active_tab as int],
    {
        &self.tabs[self.active_tab]
    }

    /// The tab that is shown, to be changed.
    pub fn active_mut(&mut self) -> (r: &mut TabState)
        requires
            old(self).wf(),
        ensures
            *r == old(self).tabs@[old(self).active_tab as int],
            final(self).tabs@ == old(self).tabs@.update(old(self).active_tab as int, *final(r)),
            final(self).cfg == old(self).cfg,
            final(self).active_tab == old(self).active_tab,
            final(self).status == old(self).status,
    {
        &mut self.tabs[self.active_tab]
    }

    /// Shows the tab `idx`, if there is one. A tab that was never loaded is to
    /// be loaded; afterwards `ensure_focused_loaded` is due.
    pub fn switch_tab(&mut self, idx: usize) -> (r: Option<Fetch>)
        requires
            old(self).wf(),
        ensures
            final(self).wf(),
            final(self).cfg == old(self).cfg,
            ({
                let b = old(self).browser().switched(idx as int);
                if old(self).browser().due_on_switch(idx as int) {
                    &&& r is Some
                    &&& final(self).browser() == b.begun()
                    &&& is_fetch(r->0, b.active().spec@)
                } else {
                    r is None && final(self).browser() == b
                }
            }),
    {
        if idx < self.tabs.len() {
            self.active_tab = idx;
            let data = &self.tabs[idx].data;
            if data.items.len() == 0 && data.last_error.is_none() {
                return Some(self.refresh_active());
            }
        }
        None
    }

    /// Moves the selection, and says what is to be read for it.
    pub fn move_selection(&mut self, delta: isize) -> (r: Option<Wanted>)
        requires
            old(self).wf(),
        ensures
            final(self).wf(),
            final(self).cfg == old(self).cfg,
            final(self).browser() == old(self).browser().moved(delta as int),
            wanted_view(r) == attributes_due(old(self).browser().moved(delta as int)),
    {
        move_active(&mut self.tabs, self.active_tab, delta);
        self.ensure_focused_loaded()
    }

    /// Notes that the tab that is shown is being loaded, and says what is to
    /// be loaded.
    pub fn refresh_active(&mut self) -> (r: Fetch)
        requires
            old(self).wf(),
        ensures
            final(self).wf(),
            final(self).cfg == old(self).cfg,
            final(self).browser() == old(self).browser().begun(),
            is_fetch(r, old(self).browser().active().spec@),
    {
        begin_load(&mut self.tabs, self.active_tab, &mut self.status);
        let spec = &self.tabs[self.active_tab].spec;
        let prefix = if str_eq(spec.kind.as_str(), "prefix") {
            copy_opt(&spec.prefix)
        } else {
            None
        };
        Fetch { prefix, region: copy_opt(&spec.region) }
    }

    /// Takes in the queues that were loaded, or why none were.
    pub fn refresh_done(&mut self, result: Result<Vec<String>, String>, now: u64)
        requires
            old(self).wf(),
        ensures
            final(self).wf(),
            final(self).cfg == old(self).cfg,
            ({
                let b = old(self).browser();
                match result {
                    Ok(urls) => exists|items: Seq<Queue>|
                        {
                            &&& #[trigger] named_queues(items, urls@)
                            &&& final(self).browser() == b.finished(Ok(items), now, "queues"@)
                        },
                    Err(e) => final(self).browser() == b.finished(Err(e@), now, "queues"@),
                }
            }),
    {
        let result: Result<Vec<Queue>, String> = match result {
            Ok(urls) => Ok(queues_of(urls)),
            Err(e) => Err(e),
        };
        finish_load(&mut self.tabs, self.active_tab, &mut self.status, result, now, "queues");
    }

    /// The selected queue, where its attributes have not been read yet.
    pub fn ensure_focused_loaded(&self) -> (r: Option<Wanted>)
        requires
            self.wf(),
        ensures
            wanted_view(r) == attributes_due(self.browser()),
    {
        let t = &self.tabs[self.active_tab];
        let i: usize = t.data.selected;
        if i >= t.data.items.len() {
            return None;
        }
        let q = &t.data.items[i];
        if q.attributes.is_some() {
            return None;
        }
        Some(Wanted { index: i, url: q.url.clone(), region: copy_opt(&t.spec.region) })
    }

    /// Takes in the attributes of the queue at row `i`, or why they were not
    /// read.
    pub fn attributes_done(&mut self, i: usize, result: Result<QueueAttributes, String>)
        requires
            old(self).wf(),
            i < old(self).browser().list().items.len(),
        ensures
            final(self).wf(),
            final(self).cfg == old(self).cfg,
            final(self).browser() == (match result {
                Ok(a) => old(self).browser().with_list(
                    old(self).browser().list().with_item(
                        i as int,
                        (Queue { attributes: Some(a), ..old(self).browser().list().items[i as int] }),
                    ),
                ),
                Err(e) => old(self).browser().with_status("attrs: "@ + e@),
            }),
    {
        match result {
            Ok(a) => {
                let active: usize = self.active_tab;
                let t = &mut self.tabs[active];
                let q = &mut t.data.items[i];
                q.attributes = Some(a);
                assert(self.browser() =~= old(self).browser().with_list(
                    old(self).browser().list().with_item(
                        i as int,
                        (Queue { attributes: Some(a), ..old(self).browser().list().items[i as int] }),
                    ),
                ));
            },
            Err(e) => {
                self.status = cat2("attrs: ", e.as_str());
            },
        }
    }

    /// Says what is to be loaded where the tab that is shown was last loaded
    /// too long ago.
    pub fn tick(&mut self, now: u64) -> (r: Option<Fetch>)
        requires
            old(self).wf(),
        ensures
            final(self).wf(),
            final(self).cfg == old(self).cfg,
            ({
                let b = old(self).browser();
                if b.due(old(self).cfg.refresh_interval_secs, now) {
                    r is Some && final(self).browser() == b.begun() && is_fetch(r->0, b.active().spec@)
                } else {
                    r is None && final(self).browser() == b
                }
            }),
    {
        let interval: u64 = self.cfg.refresh_interval_secs;
        if interval == 0 {
            return None;
        }
        let data = &self.tabs[self.active_tab].data;
        if data.is_stale(interval, now) && !data.loading {
            Some(self.refresh_active())
        } else {
            None
        }
    }

    /// The selected queue.
    pub fn focused_queue(&self) -> (r: Option<&Queue>)
        requires
            self.wf(),
        ensures
            match r {
                Some(q) => self.browser().list().focused() == Some(*q),
                None => self.browser().list().focused() is None,
            },
    {
        self.tabs[self.active_tab].data.focused()
    }

    /// The page of the selected queue in the console; the status says so where
    /// no queue is selected.
    pub fn open_console(&mut self) -> (r: Option<String>)
        requires
            old(self).wf(),
        ensures
            final(self).wf(),
            final(self).cfg == old(self).cfg,
            ({
                let b = old(self).browser();
                match b.list().focused() {
                    Some(q) => {
                        &&& final(self).browser() == b
                        &&& text::opt_view(r) == Some(console_url(b.active().spec@.region, q.url@))
                    },
                    None => r is None && final(self).browser() == b.with_status("no queue under cursor"@),
                }
            }),
    {
        let url = match self.focused_queue() {
            Some(q) => Some(q.url.clone()),
            None => None,
        };
        match url {
            Some(u) => {
                let region = url_region(&self.tabs[self.active_tab].spec.region);
                let path = urlencode_path(u.as_str());
                Some(
                    cat6(
                        "https://",
                        region,
                        ".console.aws.amazon.com/sqs/v3/home?region=",
                        region,
                        "#/queues/",
                        path.as_str(),
                    ),
                )
            },
            None => {
                self.status = owned("no queue under cursor");
                None
            },
        }
    }

    /// Notes how opening a page went.
    pub fn opened(&mut self, url: &str, result: &Result<(), String>)
        ensures
            final(self).cfg == old(self).cfg,
            final(self).browser() == old(self).browser().with_status(tabs::opened(url@, *result)),
    {
        self.status = opened_status(url, result);
    }

    /// The URL of the selected queue, to be copied.
    pub fn yank_url(&mut self) -> (r: Option<String>)
        requires
            old(self).wf(),
        ensures
            final(self).wf(),
            final(self).cfg == old(self).cfg,
            match old(self).browser().list().focused() {
                Some(q) => final(self).browser() == old(self).browser() && text::opt_view(r) == Some(q.url@),
                None => r is None && final(self).browser() == old(self).browser().with_status(
                    "no queue under cursor"@,
                ),
            },
    {
        let url = match self.focused_queue() {
            Some(q) => Some(q.url.clone()),
            None => None,
        };
        if url.is_none() {
            self.status = owned("no queue under cursor");
        }
        url
    }

    /// Notes how copying a queue's URL went.
    pub fn url_copied(&mut self, url: &str, result: &Result<(), String>)
        ensures
            final(self).cfg == old(self).cfg,
            final(self).browser() == old(self).browser().with_status(
                tabs::copied("copied queue URL: "@ + url@, *result),
            ),
    {
        let done = cat2("copied queue URL: ", url);
        self.status = copied_status(done.as_str(), result);
    }

    /// The ARN of the selected queue, to be copied.
    pub fn yank_arn(&mut self) -> (r: Option<String>)
        requires
            old(self).wf(),
        ensures
            final(self).wf(),
            final(self).cfg == old(self).cfg,
            ({
                let b = old(self).browser();
                match b.list().focused() {
                    Some(q) => match arn(q) {
                        Some(a) => final(self).browser() == b && text::opt_view(r) == Some(a),
                        None => r is None && final(self).browser() == b.with_status(
                            "ARN not loaded yet — wait for attribute fetch to finish then retry"@,
                        ),
                    },
                    None => r is None && final(self).browser() == b.with_status("no queue under cursor"@),
                }
            }),
    {
        let found = match self.focused_queue() {
            Some(q) => Some(arn_of(q)),
            None => None,
        };
        match found {
            Some(Some(a)) => Some(a),
            Some(None) => {
                self.status = owned("ARN not loaded yet — wait for attribute fetch to finish then retry");
                None
            },
            None => {
                self.status = owned("no queue under cursor");
                None
            },
        }
    }

    /// Notes how copying an ARN went.
    pub fn arn_copied(&mut self, a: &str, result: &Result<(), String>)
        ensures
            final(self).cfg == old(self).cfg,
            final(self).browser() == old(self).browser().with_status(
                tabs::copied("copied ARN: "@ + a@, *result),
            ),
    {
        let done = cat2("copied ARN: ", a);
        self.status = copied_status(done.as_str(), result);
    }

    /// The queues of the tab whose attributes have not been read; the status
    /// says so where the tab has no queues.
    pub fn load_all_attributes(&mut self) -> (r: Vec<Wanted>)
        requires
            old(self).wf(),
        ensures
            final(self).wf(),
            final(self).cfg == old(self).cfg,
            old(self).browser().list().items.len() > 0 ==> final(self).browser() == old(self).browser(),
            old(self).browser().list().items.len() == 0 ==> final(self).browser()
                == old(self).browser().with_status("no queues to load"@),
            wanted_rows(r@) == unread(old(self).browser().list().items),
            forall|i: int|
                0 <= i < r.len() ==> {
                    &&& (#[trigger] r@[i]).index < old(self).browser().list().items.len()
                    &&& r@[i].url@ == old(self).browser().list().items[r@[i].index as int].url@
                    &&& text::opt_view(r@[i].region) == old(self).browser().active().spec@.region
                },
    {
        let mut out: Vec<Wanted> = Vec::new();
        let t = &self.tabs[self.active_tab];
        let n: usize = t.data.items.len();
        let ghost items = t.data.items@;
        if n == 0 {
            self.status = owned("no queues to load");
            assert(wanted_rows(out@) =~= unread(items));
            return out;
        }
        let mut i: usize = 0;
        assert(items.take(0) =~= Seq::empty());
        assert(wanted_rows(out@) =~= unread(items.take(0)));
        while i < n
            invariant
                i <= n,
                *self == *old(self),
                *t == self.tabs@[self.active_tab as int],
                items == t.data.items@,
                n == items.len(),
                wanted_rows(out@) == unread(items.take(i as int)),
                forall|k: int|
                    0 <= k < out.len() ==> {
                        &&& (#[trigger] out@[k]).index < n
                        &&& out@[k].url@ == items[out@[k].index as int].url@
                        &&& text::opt_view(out@[k].region) == t.spec@.region
                    },
            decreases n - i,
        {
            assert(items.take(i + 1).drop_last() =~= items.take(i as int));
            let q = &t.data.items[i];
            let ghost before = wanted_rows(out@);
            if q.attributes.is_none() {
                out.push(Wanted { index: i, url: q.url.clone(), region: copy_opt(&t.spec.region) });
                assert(wanted_rows(out@) =~= before.push(i as int));
            }
            i = i + 1;
        }
        assert(items.take(items.len() as int) =~= items);
        out
    }

    /// Takes in the attributes of many queues, and works out which queue is
    /// the dead letter queue of which. Attributes that could not be read are
    /// passed over.
    pub fn all_attributes_done(&mut self, results: Vec<(usize, Result<QueueAttributes, String>)>)
        requires
            old(self).wf(),
            old(self).browser().list().items.len() > 0,
            forall|i: int|
                0 <= i < results.len() ==> (#[trigger] results@[i]).0
                    < old(self).browser().list().items.len(),
        ensures
            final(self).wf(),
            final(self).cfg == old(self).cfg,
            ({
                let before = with_attributes(old(self).browser().list().items, results@);
                let after = final(self).browser().list().items;
                &&& after.len() == before.len()
                &&& forall|i: int|
                    0 <= i < before.len() ==> correlated(before, before[i], #[trigger] after[i])
                &&& final(self).browser() == old(self).browser().with_list(
                    (ListV { items: after, ..old(self).browser().list() }),
                ).with_status(
                    "loaded "@ + numeral::decimal(read_count(results@)) + " new · "@ + numeral::decimal(
                        after.len(),
                    ) + " total · "@ + numeral::decimal(dlq_count(after)) + " queues are DLQs"@,
                )
            }),
    {
        let active: usize = self.active_tab;
        let ghost items0 = self.browser().list().items;
        let ghost all = results@;
        let total: usize = results.len();
        let mut rest = results;
        let mut loaded: usize = 0;
        assert(all.take(0) =~= Seq::empty());
        assert(all.skip(0) =~= all);
        while rest.len() > 0
            invariant
                self.wf(),
                self.cfg == old(self).cfg,
                active == self.active_tab,
                total == all.len(),
                rest.len() <= all.len(),
                rest@ == all.skip(all.len() - rest.len()),
                loaded == read_count(all.take(all.len() - rest.len())),
                loaded <= all.len() - rest.len(),
                forall|i: int| 0 <= i < all.len() ==> (#[trigger] all[i]).0 < items0.len(),
                items0 == old(self).browser().list().items,
                with_attributes(items0, all.take(all.len() - rest.len())).len() == items0.len(),
                self.browser() == old(self).browser().with_list(
                    (ListV {
                        items: with_attributes(items0, all.take(all.len() - rest.len())),
                        ..old(self).browser().list()
                    }),
                ),
                old(self).wf(),
            decreases rest.len(),
        {
            let ghost n = all.len() - rest.len();
            let ghost b = self.browser();
            let (i, result) = rest.remove(0);
            assert(rest@ =~= all.skip(n + 1));
            assert(all.take(n + 1).drop_last() =~= all.take(n));
            assert(all.take(n + 1).last() == all[n]);
            if let Ok(a) = result {
                loaded = loaded + 1;
                let t = &mut self.tabs[active];
                let q = &mut t.data.items[i];
                q.attributes = Some(a);
                assert(self.browser() =~= b.with_list(
                    b.list().with_item(
                        i as int,
                        (Queue { attributes: Some(a), ..b.list().items[i as int] }),
                    ),
                ));
                assert(self.browser() =~= old(self).browser().with_list(
                    (ListV { items: with_attributes(items0, all.take(n + 1)), ..old(self).browser().list() }),
                ));
            }
        }
        assert(all.take(all.len() as int) =~= all);
        self.recompute_redrive_sources();
        let n: usize = self.tabs[active].data.items.len();
        let d: usize = count_dlqs(&self.tabs[active].data.items);
        let head = cat5("loaded ", dec_size(loaded).as_str(), " new · ", dec_size(n).as_str(), " total · ");
        self.status = cat3(head.as_str(), dec_size(d).as_str(), " queues are DLQs");
        assert(self.browser() =~= old(self).browser().with_list(
            (ListV { items: self.browser().list().items, ..old(self).browser().list() }),
        ).with_status(self.status@));
    }

    /// Jumps from a queue to its dead letter queue, or from a dead letter
    /// queue to the first of its sources.
    pub fn jump_to_dlq(&mut self)
        requires
            old(self).wf(),
        ensures
            final(self).wf(),
            final(self).cfg == old(self).cfg,
            final(self).browser() == jumped(old(self).browser()),
    {
        let active: usize = self.active_tab;
        let sel: usize = self.tabs[active].data.selected;
        if sel >= self.tabs[active].data.items.len() {
            self.status = owned("no queue under cursor");
            return;
        }
        let q = &self.tabs[active].data.items[sel];
        if let Some(t) = target_of(q) {
            let found = find_arn(&self.tabs[active].data.items, t.as_str());
            match found {
                Some(i) => {
                    let name = owned(self.tabs[active].data.items[i].name());
                    self.select(i);
                    self.status = cat2("jumped to DLQ: ", name.as_str());
                },
                None => {
                    self.status = cat3(
                        "DLQ ",
                        t.as_str(),
                        " not loaded in this tab — switch to All Queues + press A",
                    );
                },
            }
            return;
        }
        if q.redrive_sources.len() > 0 {
            let source = q.redrive_sources[0].clone();
            let found = find_name(&self.tabs[active].data.items, source.as_str());
            match found {
                Some(i) => {
                    self.select(i);
                    self.status = cat2("jumped to DLQ source: ", source.as_str());
                },
                None => {
                    self.status = cat3("source ", source.as_str(), " not in tab — press A first");
                },
            }
            return;
        }
        let read = q.attributes.is_some();
        self.status = if read {
            owned("no DLQ relationship — queue has no RedrivePolicy and isn't referenced as one")
        } else {
            owned("attributes not loaded — press A first")
        };
    }

    fn select(&mut self, i: usize)
        requires
            old(self).wf(),
        ensures
            final(self).cfg == old(self).cfg,
            final(self).wf(),
            final(self).browser() == old(self).browser().with_list(
                (ListV { selected: i as int, ..old(self).browser().list() }),
            ),
    {
        let active: usize = self.active_tab;
        let t = &mut self.tabs[active];
        t.data.selected = i;
        assert(self.browser() =~= old(self).browser().with_list(
            (ListV { selected: i as int, ..old(self).browser().list() }),
        ));
    }

    /// Works out, for every queue of the tab, which queues it is the dead
    /// letter queue of, and how many messages its own dead letter queue holds.
    pub fn recompute_redrive_sources(&mut self)
        requires
            old(self).wf(),
        ensures
            final(self).wf(),
            final(self).cfg == old(self).cfg,
            ({
                let before = old(self).browser().list().items;
                let after = final(self).browser().list().items;
                &&& after.len() == before.len()
                &&& forall|i: int|
                    0 <= i < before.len() ==> correlated(before, before[i], #[trigger] after[i])
                &&& final(self).browser() == old(self).browser().with_list(
                    (ListV { items: after, ..old(self).browser().list() }),
                )
            }),
    {
        let active: usize = self.active_tab;
        let t = &mut self.tabs[active];
        correlate(&mut t.data.items);
        assert(self.browser() =~= old(self).browser().with_list(
            (ListV { items: self.browser().list().items, ..old(self).browser().list() }),
        ));
    }
}

/// The state after a jump between a queue and its dead letter queue. From a
/// queue with a policy the jump goes to the queue that the policy names, from
/// another one to the first of its sources; the status says why where neither
/// can be reached.
pub open spec fn jumped(b: BrowserV<TabSpec, Queue>) -> BrowserV<TabSpec, Queue> {
    let l = b.list();
    match l.focused() {
        None => b.with_status("no queue under cursor"@),
        Some(q) => match target(q) {
            Some(t) => match first_arn(l.items, t) {
                Some(i) => b.with_list(ListV { selected: i, ..l }).with_status(
                    "jumped to DLQ: "@ + text::after_last(l.items[i].url@, '/'),
                ),
                None => b.with_status(
                    "DLQ "@ + t + " not loaded in this tab — switch to All Queues + press A"@,
                ),
            },
            None => if q.redrive_sources@.len() > 0 {
                let s = q.redrive_sources@[0]@;
                match first_name(l.items, s) {
                    Some(i) => b.with_list(ListV { selected: i, ..l }).with_status(
                        "jumped to DLQ source: "@ + s,
                    ),
                    None => b.with_status("source "@ + s + " not in tab — press A first"@),
                }
            } else if q.attributes is Some {
                b.with_status(
                    "no DLQ relationship — queue has no RedrivePolicy and isn't referenced as one"@,
                )
            } else {
                b.with_status("attributes not loaded — press A first"@)
            },
        },
    }
}

/// The first queue with the ARN `a`.
pub open spec fn first_arn(q: Seq<Queue>, a: Seq<char>) -> Option<int>
    decreases q.len(),
{
    if q.len() == 0 {
        None
    } else {
        match first_arn(q.drop_last(), a) {
            Some(i) => Some(i),
            None => if arn(q.last()) == Some(a) {
                Some(q.len() - 1)
            } else {
                None
            },
        }
    }
}

/// The first queue with the name `n`.
pub open spec fn first_name(q: Seq<Queue>, n: Seq<char>) -> Option<int>
    decreases q.len(),
{
    if q.len() == 0 {
        None
    } else {
        match first_name(q.drop_last(), n) {
            Some(i) => Some(i),
            None => if text::after_last(q.last().url@, '/') == n {
                Some(q.len() - 1)
            } else {
                None
            },
        }
    }
}

proof fn lemma_first_later(q: Seq<Queue>, a: Seq<char>, i: int)
    requires
        0 <= i <= q.len(),
    ensures
        first_arn(q.take(i), a) is Some ==> first_arn(q, a) == first_arn(q.take(i), a),
        first_name(q.take(i), a) is Some ==> first_name(q, a) == first_name(q.take(i), a),
    decreases q.len(),
{
    if i == q.len() {
        assert(q.take(i) =~= q);
    } else {
        assert(q.drop_last().take(i) =~= q.take(i));
        lemma_first_later(q.drop_last(), a, i);
    }
}

fn find_arn(q: &Vec<Queue>, a: &str) -> (r: Option<usize>)
    ensures
        match r {
            Some(i) => first_arn(q@, a@) == Some(i as int) && i < q.len(),
            None => first_arn(q@, a@) is None,
        },
{
    let mut i: usize = 0;
    assert(q@.take(0) =~= Seq::empty());
    while i < q.len()
        invariant
            i <= q.len(),
            first_arn(q@.take(i as int), a@) is None,
        decreases q.len() - i,
    {
        assert(q@.take(i + 1).drop_last() =~= q@.take(i as int));
        assert(q@.take(i + 1).last() == q@[i as int]);
        if same_text(&arn_of(&q[i]), a) {
            proof {
                lemma_first_later(q@, a@, i + 1);
            }
            return Some(i);
        }
        i = i + 1;
    }
    assert(q@.take(q@.len() as int) =~= q@);
    None
}

fn find_name(q: &Vec<Queue>, n: &str) -> (r: Option<usize>)
    ensures
        match r {
            Some(i) => first_name(q@, n@) == Some(i as int) && i < q.len(),
            None => first_name(q@, n@) is None,
        },
{
    let mut i: usize = 0;
    assert(q@.take(0) =~= Seq::empty());
    while i < q.len()
        invariant
            i <= q.len(),
            first_name(q@.take(i as int), n@) is None,
        decreases q.len() - i,
    {
        assert(q@.take(i + 1).drop_last() =~= q@.take(i as int));
        assert(q@.take(i + 1).last() == q@[i as int]);
        if str_eq(q[i].name(), n) {
            proof {
                lemma_first_later(q@, n@, i + 1);
            }
            return Some(i);
        }
        i = i + 1;
    }
    assert(q@.take(q@.len() as int) =~= q@);
    None
}

/// The page of a queue in the console.
pub open spec fn console_url(region: Option<Seq<char>>, queue_url: Seq<char>) -> Seq<char> {
    let r = tabs::region_in_url(region);
    "https://"@ + r + ".console.aws.amazon.com/sqs/v3/home?region="@ + r + "#/queues/"@
        + url::encoded_path(queue_url)
}

/// `f` asks for what `spec` lists.
pub open spec fn is_fetch(f: Fetch, spec: SpecV) -> bool {
    &&& text::opt_view(f.prefix) == (if spec.kind == "prefix"@ {
        spec.prefix
    } else {
        None
    })
    &&& text::opt_view(f.region) == spec.region
}

/// The rows of the attributes that are to be read.
pub open spec fn wanted_rows(w: Seq<Wanted>) -> Seq<int> {
    Seq::new(w.len(), |i: int| w[i].index as int)
}

/// The rows of the queues whose attributes have not been read, from the top.
pub open spec fn unread(q: Seq<Queue>) -> Seq<int>
    decreases q.len(),
{
    if q.len() == 0 {
        Seq::empty()
    } else if q.last().attributes is None {
        unread(q.drop_last()).push(q.len() - 1)
    } else {
        unread(q.drop_last())
    }
}

/// The queues with the attributes that were read.
pub open spec fn with_attributes(
    q: Seq<Queue>,
    results: Seq<(usize, Result<QueueAttributes, String>)>,
) -> Seq<Queue>
    decreases results.len(),
{
    if results.len() == 0 {
        q
    } else {
        let before = with_attributes(q, results.drop_last());
        let i = results.last().0 as int;
        match results.last().1 {
            Ok(a) => before.update(i, Queue { attributes: Some(a), ..before[i] }),
            Err(_) => before,
        }
    }
}

/// How many attributes were read.
pub open spec fn read_count(results: Seq<(usize, Result<QueueAttributes, String>)>) -> nat
    decreases results.len(),
{
    if results.len() == 0 {
        0
    } else {
        read_count(results.drop_last()) + (if results.last().1 is Ok {
            1nat
        } else {
            0
        })
    }
}

/// How many queues are the dead letter queue of another one.
pub open spec fn dlq_count(q: Seq<Queue>) -> nat
    decreases q.len(),
{
    if q.len() == 0 {
        0
    } else {
        dlq_count(q.drop_last()) + (if q.last().redrive_sources@.len() > 0 {
            1nat
        } else {
            0
        })
    }
}

fn count_dlqs(q: &Vec<Queue>) -> (r: usize)
    ensures
        r == dlq_count(q@),
{
    let mut n: usize = 0;
    let mut i: usize = 0;
    assert(q@.take(0) =~= Seq::empty());
    while i < q.len()
        invariant
            i <= q.len(),
            n == dlq_count(q@.take(i as int)),
            n <= i,
        decreases q.len() - i,
    {
        assert(q@.take(i + 1).drop_last() =~= q@.take(i as int));
        assert(q@.take(i + 1).last() == q@[i as int]);
        if q[i].redrive_sources.len() > 0 {
            n = n + 1;
        }
        i = i + 1;
    }
    assert(q@.take(q@.len() as int) =~= q@);
    n
}

/// `q` are the queues with the URLs `urls`, of which nothing else is known.
pub open spec fn named_queues(q: Seq<Queue>, urls: Seq<String>) -> bool {
    &&& q.len() == urls.len()
    &&& forall|i: int|
        0 <= i < q.len() ==> {
            &&& (#[trigger] q[i]).url == urls[i]
            &&& q[i].attributes is None
            &&& q[i].redrive_sources@.len() == 0
            &&& q[i].dlq_stats is None
        }
}

fn queues_of(urls: Vec<String>) -> (r: Vec<Queue>)
    ensures
        named_queues(r@, urls@),
{
    let mut out: Vec<Queue> = Vec::new();
    let mut i: usize = 0;
    while i < urls.len()
        invariant
            i <= urls.len(),
            out.len() == i,
            named_queues(out@, urls@.take(i as int)),
        decreases urls.len() - i,
    {
        out.push(Queue::named(urls[i].clone()));
        i = i + 1;
    }
    assert(urls@.take(urls@.len() as int) =~= urls@);
    out
}

proof fn lemma_first_error(t: Seq<Tab>, region: Option<Seq<char>>, i: int, n: int)
    requires
        0 <= i <= n,
        tabs_of(t, region, i) is Some,
    ensures
        tabs_of(t, region, n) == tabs_of(t, region, i),
    decreases n - i,
{
    if i < n {
        lemma_first_error(t, region, i, n - 1);
    }
}

/// A queue is a source of another one exactly if its policy names that one.
pub proof fn law_sources(q: Seq<Queue>, a: Seq<char>, name: Seq<char>)
    ensures
        names_pointing_at(q, a).contains(name) <==> exists|i: int|
            0 <= i < q.len() && target(#[trigger] q[i]) == Some(a) && text::after_last(q[i].url@, '/') == name,
    decreases q.len(),
{
    let names = names_pointing_at(q, a);
    if q.len() > 0 {
        let rest = names_pointing_at(q.drop_last(), a);
        law_sources(q.drop_last(), a, name);
        if names.contains(name) {
            let k = choose|k: int| 0 <= k < names.len() && names[k] == name;
            if k < rest.len() {
                assert(rest[k] == name);
                assert(rest.contains(name));
                let i = choose|i: int|
                    0 <= i < q.drop_last().len() && target(#[trigger] q.drop_last()[i]) == Some(a)
                        && text::after_last(q.drop_last()[i].url@, '/') == name;
                assert(target(q[i]) == Some(a));
            } else {
                assert(target(q[q.len() - 1]) == Some(a));
            }
        }
        if exists|i: int|
            0 <= i < q.len() && target(#[trigger] q[i]) == Some(a) && text::after_last(q[i].url@, '/') == name {
            let i = choose|i: int|
                0 <= i < q.len() && target(#[trigger] q[i]) == Some(a) && text::after_last(q[i].url@, '/') == name;
            if i < q.len() - 1 {
                assert(target(q.drop_last()[i]) == Some(a));
                assert(rest.contains(name));
                let k = choose|k: int| 0 <= k < rest.len() && rest[k] == name;
                assert(names[k] == name);
            } else {
                assert(names[names.len() - 1] == name);
            }
        }
    }
}

/// To work the dead letter queues out once more changes nothing: it does not
/// depend on what was worked out before.
pub proof fn law_correlation_is_stable(before: Seq<Queue>, after: Seq<Queue>, again: Seq<Queue>)
    requires
        after.len() == before.len(),
        again.len() == before.len(),
        forall|i: int| 0 <= i < before.len() ==> correlated(before, before[i], #[trigger] after[i]),
        forall|i: int| 0 <= i < before.len() ==> correlated(after, after[i], #[trigger] again[i]),
    ensures
        forall|i: int|
            0 <= i < before.len() ==> {
                &&& text::views((#[trigger] again[i]).redrive_sources@) == text::views(
                    after[i].redrive_sources@,
                )
                &&& again[i].dlq_stats == after[i].dlq_stats
            },
{
    assert forall|i: int| 0 <= i < before.len() implies {
        &&& text::views((#[trigger] again[i]).redrive_sources@) == text::views(after[i].redrive_sources@)
        &&& again[i].dlq_stats == after[i].dlq_stats
    } by {
        assert(correlated(before, before[i], after[i]));
        if let Some(a) = arn(before[i]) {
            lemma_same_reading(before, after, a);
        }
        if let Some(t) = target(before[i]) {
            lemma_same_reading(before, after, t);
        }
    }
}

proof fn lemma_same_reading(before: Seq<Queue>, after: Seq<Queue>, a: Seq<char>)
    requires
        after.len() == before.len(),
        forall|i: int|
            0 <= i < before.len() ==> (#[trigger] after[i]).url == before[i].url && after[i].attributes
                == before[i].attributes,
    ensures
        names_pointing_at(before, a) == names_pointing_at(after, a),
        stats_at(before, a) == stats_at(after, a),
    decreases before.len(),
{
    if before.len() > 0 {
        assert(after[after.len() - 1].url == before[before.len() - 1].url);
        assert forall|i: int| 0 <= i < before.len() - 1 implies (#[trigger] after.drop_last()[i]).url
            == before.drop_last()[i].url && after.drop_last()[i].attributes == before.drop_last()[i].attributes by {
            assert(after[i].url == before[i].url);
        }
        lemma_same_reading(before.drop_last(), after.drop_last(), a);
    }
}

} // verus!
