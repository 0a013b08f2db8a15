//! The state of the logs browser.
//!
//! A log is followed by a program that runs outside. Its arguments are handed
//! out; what it prints is handed in through `drain`.

use vstd::prelude::*;

use crate::cloudwatch_logs::config;
use crate::cloudwatch_logs::config::{Config, Tab};
use crate::cloudwatch_logs::log_tail;
use crate::cloudwatch_logs::log_tail::{keep_newest, LineSeverity, LogLine, LogTailEvent, LogTailPane, PaneV};
use crate::command::as_slice;
use crate::numeral;
use crate::numeral::{dec_size, hex};
use crate::tabs;
use crate::tabs::{copied_status, opened_status, pick_region, url_region};
use crate::text;
use crate::text::{byte_len, cat2, cat3, cat6, copy_opt, owned, trim};

verus! {

/// What a tab follows.
pub struct TabSpec {
    pub region: Option<String>,
    pub log_group: String,
    pub log_stream: Option<String>,
    /// The pattern that lines have to meet, as CloudWatch knows it.
    pub filter: Option<String>,
}

/// A `TabSpec` by its contents.
pub struct SpecV {
    pub region: Option<Seq<char>>,
    pub log_group: Seq<char>,
    pub log_stream: Option<Seq<char>>,
    pub filter: Option<Seq<char>>,
}

impl View for TabSpec {
    type V = SpecV;

    open spec fn view(&self) -> SpecV {
        SpecV {
            region: text::opt_view(self.region),
            log_group: self.log_group@,
            log_stream: text::opt_view(self.log_stream),
            filter: text::opt_view(self.filter),
        }
    }
}

/// What a tab of the settings follows, or why it cannot be.
pub open spec fn resolved(t: Tab, default_region: Option<Seq<char>>) -> Result<SpecV, Seq<char>> {
    if config::lacks_group(t) {
        Err("tab `"@ + t.name@ + "`: log_group is required"@)
    } else {
        Ok(
            SpecV {
                region: tabs::region_or(text::opt_view(t.region), default_region),
                log_group: t.log_group@,
                log_stream: text::opt_view(t.log_stream),
                filter: text::opt_view(t.filter),
            },
        )
    }
}

/// The contents of a result with a `TabSpec` or an error text.
pub open spec fn spec_result(r: Result<TabSpec, String>) -> Result<SpecV, Seq<char>> {
    match r {
        Ok(s) => Ok(s@),
        Err(e) => Err(e@),
    }
}

impl TabSpec {
    pub fn resolve(t: &Tab, default_region: Option<&str>) -> (r: Result<TabSpec, String>)
        ensures
            spec_result(r) == resolved(*t, text::opt_str_view(default_region)),
    {
        let region = pick_region(&t.region, default_region);
        if trim(t.log_group.as_str()).is_empty() {
            return Err(cat3("tab `", t.name.as_str(), "`: log_group is required"));
        }
        Ok(
            TabSpec {
                region,
                log_group: t.log_group.clone(),
                log_stream: copy_opt(&t.log_stream),
                filter: copy_opt(&t.filter),
            },
        )
    }
}

/// What a tab holds.
pub struct LogsTab {
    pub pane: Option<LogTailPane>,
    /// More may come.
    pub pending: bool,
    pub last_error: Option<String>,
}

/// A tab: its name, what it follows, and what it holds.
pub struct TabState {
    pub name: String,
    pub spec: TabSpec,
    pub data: LogsTab,
}

/// A `TabState` by its contents.
#[verifier::ext_equal]
pub struct TabV {
    pub name: Seq<char>,
    pub spec: SpecV,
    pub pane: Option<PaneV>,
    pub pending: bool,
    pub last_error: Option<Seq<char>>,
}

impl View for TabState {
    type V = TabV;

    open spec fn view(&self) -> TabV {
        TabV {
            name: self.name@,
            spec: self.spec@,
            pane: match self.data.pane {
                Some(p) => Some(p@),
                None => None,
            },
            pending: self.data.pending,
            last_error: text::opt_view(self.data.last_error),
        }
    }
}

/// The contents of a sequence of tabs.
pub open spec fn tab_views(s: Seq<TabState>) -> Seq<TabV> {
    Seq::new(s.len(), |i: int| s[i]@)
}

/// The state of the browser.
pub struct App {
    pub cfg: Config,
    pub tabs: Vec<TabState>,
    pub active_tab: usize,
    pub status: String,
}

/// The state of the browser by its contents.
#[verifier::ext_equal]
pub struct AppV {
    pub tabs: Seq<TabV>,
    pub active: int,
    pub status: Seq<char>,
}

impl View for App {
    type V = AppV;

    open spec fn view(&self) -> AppV {
        AppV { tabs: tab_views(self.tabs@), active: self.active_tab as int, status: self.status@ }
    }
}

/// How many lines a log keeps while it is followed.
pub const KEPT: usize = 5000;

impl TabV {
    /// With a line of the log, and the oldest dropped where there are too many.
    pub open spec fn with_line(self, line: Seq<char>) -> TabV {
        match self.pane {
            Some(p) => TabV {
                pane: Some(
                    PaneV {
                        lines: log_tail::newest(p.lines.push(log_tail::line_of(line)), KEPT as int),
                        ..p
                    },
                ),
                ..self
            },
            None => self,
        }
    }

    /// With what the first `n` events bring.
    pub open spec fn with_events(self, events: Seq<LogTailEvent>, n: int) -> TabV
        decreases n,
    {
        if n <= 0 {
            self
        } else {
            let t = self.with_events(events, n - 1);
            match events[n - 1] {
                LogTailEvent::Line(line) => t.with_line(line@),
                LogTailEvent::Failed(e) => TabV { last_error: Some(e@), pending: false, ..t },
                LogTailEvent::Exited => TabV { pending: false, ..t },
            }
        }
    }
}

/// The status after the first `n` events.
pub open spec fn status_after(status: Seq<char>, events: Seq<LogTailEvent>, n: int) -> Seq<char>
    decreases n,
{
    if n <= 0 {
        status
    } else {
        match events[n - 1] {
            LogTailEvent::Failed(e) => "error: "@ + e@,
            _ => status_after(status, events, n - 1),
        }
    }
}

/// Some of the first `n` events change what is shown; lines do where there is a
/// log to take them.
pub open spec fn any_change(t: TabV, events: Seq<LogTailEvent>, n: int) -> bool
    decreases n,
{
    n > 0 && (any_change(t, events, n - 1) || t.pane is Some || !(events[n - 1] is Line))
}

/// What has come from one log: its events, and whether no more can come.
pub struct Batch {
    pub events: Vec<LogTailEvent>,
    pub closed: bool,
}

/// What has come from the log of tab `i`.
pub open spec fn events_at(b: Seq<Batch>, i: int) -> Seq<LogTailEvent> {
    if 0 <= i < b.len() {
        b[i].events@
    } else {
        Seq::empty()
    }
}

/// No more can come from the log of tab `i`.
pub open spec fn closed_at(b: Seq<Batch>, i: int) -> bool {
    0 <= i < b.len() && b[i].closed
}

/// A tab with what has come from its log; a tab that waits for nothing is left
/// as it is.
pub open spec fn tab_drained(t: TabV, events: Seq<LogTailEvent>, closed: bool) -> TabV {
    if t.pending {
        let u = t.with_events(events, events.len() as int);
        TabV { pending: u.pending && !closed, ..u }
    } else {
        t
    }
}

/// The tabs with what has come from the first `n` logs.
pub open spec fn tabs_drained(tabs: Seq<TabV>, b: Seq<Batch>, n: int) -> Seq<TabV> {
    Seq::new(
        tabs.len(),
        |i: int|
            if i < n {
                tab_drained(tabs[i], events_at(b, i), closed_at(b, i))
            } else {
                tabs[i]
            },
    )
}

/// The status after what has come from the first `n` logs.
pub open spec fn status_drained(a: AppV, b: Seq<Batch>, n: int) -> Seq<char>
    decreases n,
{
    if n <= 0 {
        a.status
    } else {
        let s = status_drained(a, b, n - 1);
        if a.tabs[n - 1].pending {
            let e = events_at(b, n - 1);
            status_after(s, e, e.len() as int)
        } else {
            s
        }
    }
}

/// What has come from the first `n` logs changes what is shown.
pub open spec fn any_drained(a: AppV, b: Seq<Batch>, n: int) -> bool
    decreases n,
{
    n > 0 && (any_drained(a, b, n - 1) || (a.tabs[n - 1].pending && any_change(
        a.tabs[n - 1],
        events_at(b, n - 1),
        events_at(b, n - 1).len() as int,
    )))
}

impl AppV {
    /// There is a tab, and one of them is shown.
    pub open spec fn valid(self) -> bool {
        0 <= self.active < self.tabs.len()
    }

    /// The tab that is shown.
    pub open spec fn tab(self) -> TabV {
        self.tabs[self.active]
    }

    pub open spec fn with_tab(self, t: TabV) -> AppV {
        AppV { tabs: self.tabs.update(self.active, t), ..self }
    }

    pub open spec fn with_status(self, status: Seq<char>) -> AppV {
        AppV { status, ..self }
    }

    /// With the log of the tab about to be followed, where it is not yet.
    pub open spec fn begun(self) -> AppV {
        if self.tab().pane is None {
            self.with_status("starting "@ + self.tab().name + "…"@)
        } else {
            self
        }
    }

    /// The arguments of the AWS command line that follow the log of the tab,
    /// where it is not followed yet.
    pub open spec fn command(self) -> Option<Seq<Seq<char>>> {
        let s = self.tab().spec;
        if self.tab().pane is None {
            Some(log_tail::tail_command(s.log_group, s.log_stream, s.filter, s.region))
        } else {
            None
        }
    }

    /// With the log of the tab followed, or with the reason why it is not.
    pub open spec fn tailed(self, result: Result<(), String>) -> AppV {
        let t = self.tab();
        match result {
            Ok(_) => self.with_tab(
                TabV {
                    pane: Some(log_tail::fresh_pane(t.spec.log_group, t.spec.log_stream)),
                    pending: true,
                    last_error: None,
                    ..t
                },
            ),
            Err(e) => self.with_tab(TabV { last_error: Some(e@), ..t }).with_status("error: "@ + e@),
        }
    }

    pub open spec fn drained(self, b: Seq<Batch>) -> AppV {
        AppV {
            tabs: tabs_drained(self.tabs, b, self.tabs.len() as int),
            status: status_drained(self, b, self.tabs.len() as int),
            ..self
        }
    }

    /// With the log scrolled.
    pub open spec fn moved(self, delta: int) -> AppV {
        match self.tab().pane {
            Some(p) => self.with_tab(
                TabV { pane: Some(PaneV { scroll: scrolled(p, delta), ..p }), ..self.tab() },
            ),
            None => self,
        }
    }

    /// The line that is copied: the one at the scroll position, or the newest.
    pub open spec fn focused_line(self) -> Result<Seq<char>, Seq<char>> {
        match self.tab().pane {
            None => Err("no log buffer for this tab"@),
            Some(p) => {
                let row = if p.scroll == usize::MAX {
                    last_line(p)
                } else {
                    p.scroll
                };
                if row < p.lines.len() {
                    Ok(p.lines[row].text)
                } else {
                    Err("no line under cursor"@)
                }
            },
        }
    }
}

/// The newest line.
pub open spec fn last_line(p: PaneV) -> int {
    if p.lines.len() > 0 {
        p.lines.len() - 1
    } else {
        0
    }
}

/// A scroll position moved by `delta`: up from the newest line if the log is
/// followed; down to the end it is followed again.
pub open spec fn scrolled(p: PaneV, delta: int) -> int {
    if delta < 0 {
        let from = if p.scroll == usize::MAX {
            last_line(p)
        } else {
            p.scroll
        };
        if from + delta > 0 {
            from + delta
        } else {
            0
        }
    } else if p.scroll == usize::MAX || p.scroll + delta >= p.lines.len() {
        usize::MAX as int
    } else {
        p.scroll + delta
    }
}

/// The bytes that stand for themselves in the console's addresses.
pub open spec fn plain_byte(b: u8) -> bool {
    ||| 65 <= b <= 90
    ||| 97 <= b <= 122
    ||| 48 <= b <= 57
    ||| b == 45
    ||| b == 95
    ||| b == 46
    ||| b == 126
}

/// A byte in the console's addresses: itself, or a percent sign and two
/// hexadecimal digits; a slash is escaped twice over.
pub open spec fn encoded_byte(b: u8) -> Seq<char> {
    if plain_byte(b) {
        seq![b as char]
    } else if b == 47 {
        "$252F"@
    } else {
        "%"@ + numeral::hex_byte(b)
    }
}

/// The bytes of a text in the console's addresses.
pub open spec fn encoded_bytes(s: Seq<u8>) -> Seq<char>
    decreases s.len(),
{
    if s.len() == 0 {
        Seq::empty()
    } else {
        encoded_bytes(s.drop_last()) + encoded_byte(s.last())
    }
}

/// A text in the console's addresses.
pub open spec fn encoded(s: Seq<char>) -> Seq<char> {
    encoded_bytes(vstd::utf8::encode_utf8(s))
}

/// Writes a text so that it can stand in the console's addresses.
pub fn urlencode(s: &str) -> (r: String)
    ensures
        r@ == encoded(s@),
{
    let bytes = s.as_bytes();
    let mut out = String::new();
    let mut i: usize = 0;
    assert(bytes@.take(0) =~= Seq::empty());
    while i < bytes.len()
        invariant
            i <= bytes.len(),
            out@ == encoded_bytes(bytes@.take(i as int)),
        decreases bytes.len() - i,
    {
        let b: u8 = bytes[i];
        assert(bytes@.take(i + 1).drop_last() =~= bytes@.take(i as int));
        if (65 <= b && b <= 90) || (97 <= b && b <= 122) || (48 <= b && b <= 57) || b == 45 || b == 95 || b == 46
            || b == 126 {
            let ghost before = out@;
            out.push(b as char);
            assert(out@ =~= before + encoded_byte(b));
        } else if b == 47 {
            out = cat2(out.as_str(), "$252F");
        } else {
            let e = cat2("%", hex(b).as_str());
            out = cat2(out.as_str(), e.as_str());
        }
        i = i + 1;
    }
    assert(bytes@.take(bytes@.len() as int) =~= bytes@);
    out
}

/// The page of a log in the console.
pub open spec fn console_url(s: SpecV) -> Seq<char> {
    let r = tabs::region_in_url(s.region);
    let group = "https://"@ + r + ".console.aws.amazon.com/cloudwatch/home?region="@ + r
        + "#logsV2:log-groups/log-group/"@ + encoded(s.log_group);
    match s.log_stream {
        Some(stream) => group + "/log-events/"@ + encoded(stream),
        None => group,
    }
}

/// The first error among the first `i` tabs of the settings.
pub open spec fn tabs_error(t: Seq<Tab>, region: Option<Seq<char>>, i: int) -> Option<Seq<char>>
    decreases i,
{
    if i <= 0 {
        None
    } else {
        match tabs_error(t, region, i - 1) {
            Some(e) => Some(e),
            None => match resolved(t[i - 1], region) {
                Ok(_) => None,
                Err(e) => Some(e),
            },
        }
    }
}

proof fn lemma_first_error(t: Seq<Tab>, region: Option<Seq<char>>, i: int, n: int)
    requires
        0 <= i <= n,
        tabs_error(t, region, i) is Some,
    ensures
        tabs_error(t, region, n) == tabs_error(t, region, i),
    decreases n - i,
{
    if i < n {
        lemma_first_error(t, region, i, n - 1);
    }
}

/// A tab of the settings before anything was read.
pub open spec fn fresh_tab(t: Tab, region: Option<Seq<char>>) -> TabV {
    TabV {
        name: t.name@,
        spec: resolved(t, region)->Ok_0,
        pane: None,
        pending: false,
        last_error: None,
    }
}

/// The tabs of the settings before anything was read.
pub open spec fn fresh_tabs(c: Config) -> Seq<TabV> {
    Seq::new(c.tabs@.len(), |i: int| fresh_tab(c.tabs@[i], text::opt_view(c.region)))
}

fn make_tabs(cfg: &Config) -> (r: Result<Vec<TabState>, String>)
    ensures
        match r {
            Ok(tabs) => {
                &&& tabs_error(cfg.tabs@, text::opt_view(cfg.region), cfg.tabs.len() as int) is None
                &&& tab_views(tabs@) == fresh_tabs(*cfg)
            },
            Err(e) => tabs_error(cfg.tabs@, text::opt_view(cfg.region), cfg.tabs.len() as int) == Some(e@),
        },
{
    let ghost region = text::opt_view(cfg.region);
    let mut tabs: Vec<TabState> = Vec::new();
    let mut i: usize = 0;
    while i < cfg.tabs.len()
        invariant
            i <= cfg.tabs.len(),
            region == text::opt_view(cfg.region),
            tabs.len() == i,
            tabs_error(cfg.tabs@, region, i as int) is None,
            forall|k: int| 0 <= k < i ==> (#[trigger] tabs@[k])@ == fresh_tab(cfg.tabs@[k], region),
        decreases cfg.tabs.len() - i,
    {
        let t = &cfg.tabs[i];
        match TabSpec::resolve(t, as_slice(&cfg.region)) {
            Ok(spec) => {
                let data = LogsTab { pane: None, pending: false, last_error: None };
                tabs.push(TabState { name: t.name.clone(), spec, data });
            },
            Err(e) => {
                proof {
                    lemma_first_error(cfg.tabs@, region, i + 1, cfg.tabs.len() as int);
                }
                return Err(e);
            },
        }
        i = i + 1;
    }
    assert(tab_views(tabs@) =~= fresh_tabs(*cfg));
    Ok(tabs)
}

impl TabState {
    fn take_events(&mut self, events: Vec<LogTailEvent>, status: &mut String) -> (r: bool)
        ensures
            final(self)@ == old(self)@.with_events(events@, events@.len() as int),
            final(status)@ == status_after(old(status)@, events@, events@.len() as int),
            r == any_change(old(self)@, events@, events@.len() as int),
    {
        let ghost t = self@;
        let ghost s = status@;
        let ghost all = events@;
        let mut rest = events;
        let total: usize = rest.len();
        let mut n: usize = 0;
        let mut any = false;
        assert(all.skip(0) =~= all);
        while n < total
            invariant
                n <= total,
                total == all.len(),
                rest@ == all.skip(n as int),
                self@ == t.with_events(all, n as int),
                status@ == status_after(s, all, n as int),
                any == any_change(t, all, n as int),
                t.pane is Some == self@.pane is Some,
            decreases total - n,
        {
            let e = rest.remove(0);
            assert(rest@ =~= all.skip(n + 1));
            assert(e == all[n as int]);
            match e {
                LogTailEvent::Line(line) => {
                    if self.push_capped(line) {
                        any = true;
                    }
                },
                LogTailEvent::Failed(e) => {
                    *status = cat2("error: ", e.as_str());
                    self.data.last_error = Some(e);
                    self.data.pending = false;
                    any = true;
                },
                LogTailEvent::Exited => {
                    self.data.pending = false;
                    any = true;
                },
            }
            n = n + 1;
        }
        any
    }

    fn push_capped(&mut self, line: String) -> (r: bool)
        ensures
            final(self)@ == old(self)@.with_line(line@),
            r == old(self)@.pane is Some,
    {
        let ghost before = self@;
        match self.data.pane.take() {
            Some(pane) => {
                let mut p = pane;
                let ghost v = p@;
                let severity = LineSeverity::classify(line.as_str());
                p.lines.push(LogLine { text: line, severity });
                assert(log_tail::line_views(p.lines@) =~= v.lines.push(log_tail::line_of(line@)));
                keep_newest(&mut p.lines, KEPT);
                self.data.pane = Some(p);
                true
            },
            None => false,
        }
    }
}

impl App {
    /// The browser for some settings, and the arguments of the AWS command line
    /// that follow the log of the first tab.
    pub fn new(cfg: Config) -> (r: Result<(App, Option<Vec<String>>), String>)
        requires
            cfg.tabs.len() > 0,
        ensures
            match r {
                Ok((app, args)) => {
                    let first = AppV { tabs: fresh_tabs(cfg), active: 0, status: Seq::empty() };
                    &&& tabs_error(cfg.tabs@, text::opt_view(cfg.region), cfg.tabs.len() as int) is None
                    &&& app.cfg == cfg
                    &&& app@ == first.begun()
                    &&& args matches Some(v) && Some(text::views(v@)) == first.command()
                },
                Err(e) => tabs_error(cfg.tabs@, text::opt_view(cfg.region), cfg.tabs.len() as int) == Some(
                    e@,
                ),
            },
    {
        let made = match make_tabs(&cfg) {
            Ok(t) => t,
            Err(e) => {
                return Err(e);
            },
        };
        let mut app = App { cfg, tabs: made, active_tab: 0, status: String::new() };
        assert(app@.tab().pane is None);
        let args = app.refresh_active();
        Ok((app, args))
    }

    /// The tab that is shown.
    pub fn active(&self) -> (r: &TabState)
        requires
            self@.valid(),
        ensures
            *r == self.tabs@[self.active_tab as int],
    {
        &self.tabs[self.active_tab]
    }

    /// The tab that is shown, to be changed.
    pub fn active_mut(&mut self) -> (r: &mut TabState)
        requires
            old(self)@.valid(),
        ensures
            *r == old(self).tabs@[old(self).active_tab as int],
            final(self).tabs@ == old(self).tabs@.update(old(self).active_tab as int, *final(r)),
            final(self).active_tab == old(self).active_tab,
            final(self).cfg == old(self).cfg,
            final(self).status == old(self).status,
    {
        let i: usize = self.active_tab;
        &mut self.tabs[i]
    }

    /// Shows another tab, if there is one of that number, and gives the
    /// arguments of the AWS command line that follow its log, where it is not
    /// followed yet.
    pub fn switch_tab(&mut self, idx: usize) -> (r: Option<Vec<String>>)
        ensures
            final(self).cfg == old(self).cfg,
            ({
                let b = AppV { active: idx as int, ..old(self)@ };
                if idx < old(self)@.tabs.len() {
                    &&& final(self)@ == b.begun()
                    &&& match r {
                        Some(v) => b.command() == Some(text::views(v@)),
                        None => b.command() is None,
                    }
                } else {
                    final(self)@ == old(self)@ && r is None
                }
            }),
    {
        if idx < self.tabs.len() {
            self.active_tab = idx;
            self.refresh_active()
        } else {
            None
        }
    }

    /// Scrolls the log. Up from the end it is no longer followed; down to the end
    /// it is followed again.
    pub fn move_selection(&mut self, delta: isize)
        requires
            old(self)@.valid(),
        ensures
            final(self).cfg == old(self).cfg,
            final(self)@ == old(self)@.moved(delta as int),
    {
        let ghost a = self@;
        let ghost before = self.tabs@;
        let i: usize = self.active_tab;
        let tab = self.active_mut();
        match tab.data.pane.take() {
            Some(pane) => {
                let mut p = pane;
                let total: usize = p.lines.len();
                if delta < 0 {
                    let from: usize = if p.scroll == usize::MAX {
                        total.saturating_sub(1)
                    } else {
                        p.scroll
                    };
                    let to: i128 = (from as i128) + (delta as i128);
                    p.scroll = if to > 0 { to as usize } else { 0 };
                } else {
                    let n: usize = delta as usize;
                    if p.scroll == usize::MAX || p.scroll.saturating_add(n) >= total {
                        p.scroll = usize::MAX;
                    } else {
                        p.scroll = p.scroll + n;
                    }
                }
                tab.data.pane = Some(p);
            },
            None => {},
        }
        assert(self@ =~= a.moved(delta as int));
    }

    /// Gives the arguments of the AWS command line that follow the log of the
    /// tab that is shown, where it is not followed yet.
    pub fn refresh_active(&mut self) -> (r: Option<Vec<String>>)
        requires
            old(self)@.valid(),
        ensures
            final(self).cfg == old(self).cfg,
            final(self)@ == old(self)@.begun(),
            match r {
                Some(v) => old(self)@.command() == Some(text::views(v@)),
                None => old(self)@.command() is None,
            },
    {
        let tab = &self.tabs[self.active_tab];
        if tab.data.pane.is_some() {
            return None;
        }
        let spec = &tab.spec;
        let (_, args) = LogTailPane::spawn_with_filter(
            spec.log_group.clone(),
            copy_opt(&spec.log_stream),
            copy_opt(&spec.filter),
            copy_opt(&spec.region),
        );
        let status = cat3("starting ", tab.name.as_str(), "…");
        self.status = status;
        Some(args)
    }

    /// Takes note of whether the program that follows the log of the tab that is
    /// shown could be started.
    pub fn tailed(&mut self, result: Result<(), String>)
        requires
            old(self)@.valid(),
        ensures
            final(self).cfg == old(self).cfg,
            final(self)@ == old(self)@.tailed(result),
    {
        let ghost a = self@;
        let tab = self.active_mut();
        match result {
            Ok(_) => {
                let (pane, _) = LogTailPane::spawn_with_filter(
                    tab.spec.log_group.clone(),
                    copy_opt(&tab.spec.log_stream),
                    None,
                    None,
                );
                tab.data.pane = Some(pane);
                tab.data.pending = true;
                tab.data.last_error = None;
            },
            Err(e) => {
                let status = cat2("error: ", e.as_str());
                tab.data.last_error = Some(e);
                self.status = status;
            },
        }
        assert(self@ =~= a.tailed(result));
    }

    /// Takes in what the logs have brought, one batch per tab, and says whether
    /// anything has to be drawn anew.
    pub fn drain(&mut self, batches: Vec<Batch>) -> (r: bool)
        ensures
            final(self).cfg == old(self).cfg,
            final(self)@ == old(self)@.drained(batches@),
            r == any_drained(old(self)@, batches@, old(self)@.tabs.len() as int),
    {
        let ghost a = self@;
        let ghost all = batches@;
        let mut rest = batches;
        let total: usize = self.tabs.len();
        let mut n: usize = 0;
        let mut any = false;
        assert(all.skip(0) =~= all);
        assert(tab_views(self.tabs@) =~= tabs_drained(a.tabs, all, 0));
        while n < total
            invariant
                n <= total,
                total == self.tabs.len(),
                total == a.tabs.len(),
                self.cfg == old(self).cfg,
                self@.active == a.active,
                n <= all.len() ==> rest@ == all.skip(n as int),
                n > all.len() ==> rest.len() == 0,
                tab_views(self.tabs@) == tabs_drained(a.tabs, all, n as int),
                self.status@ == status_drained(a, all, n as int),
                any == any_drained(a, all, n as int),
            decreases total - n,
        {
            let batch = if rest.len() > 0 {
                rest.remove(0)
            } else {
                Batch { events: Vec::new(), closed: false }
            };
            assert(n < all.len() ==> rest@ =~= all.skip(n + 1));
            assert(batch.events@ =~= events_at(all, n as int));
            assert(batch.closed == closed_at(all, n as int));
            assert(self.tabs@[n as int]@ == tabs_drained(a.tabs, all, n as int)[n as int]);
            let ghost before = self.tabs@;
            if self.tabs[n].data.pending {
                let tab = &mut self.tabs[n];
                if tab.take_events(batch.events, &mut self.status) {
                    any = true;
                }
                if batch.closed {
                    tab.data.pending = false;
                }
            }
            assert forall|k: int| 0 <= k < total && k != n implies #[trigger] self.tabs@[k] == before[k] by {}
            assert(tab_views(self.tabs@) =~= tabs_drained(a.tabs, all, n + 1)) by {
                assert forall|k: int| 0 <= k < total implies #[trigger] tab_views(self.tabs@)[k]
                    == tabs_drained(a.tabs, all, n + 1)[k] by {
                    assert(tab_views(before)[k] == tabs_drained(a.tabs, all, n as int)[k]);
                }
            }
            n = n + 1;
        }
        any
    }

    /// The page in the console that is to be opened in the browser.
    pub fn open_console(&self) -> (r: String)
        requires
            self@.valid(),
        ensures
            r@ == console_url(self@.tab().spec),
    {
        let spec = &self.tabs[self.active_tab].spec;
        assert(self@.tab().spec == spec@);
        let region = url_region(&spec.region);
        let group = urlencode(spec.log_group.as_str());
        let url = cat6(
            "https://",
            region,
            ".console.aws.amazon.com/cloudwatch/home?region=",
            region,
            "#logsV2:log-groups/log-group/",
            group.as_str(),
        );
        match &spec.log_stream {
            Some(stream) => cat3(url.as_str(), "/log-events/", urlencode(stream.as_str()).as_str()),
            None => url,
        }
    }

    /// Takes note of whether a page could be opened.
    pub fn opened(&mut self, url: &str, result: &Result<(), String>)
        ensures
            final(self).cfg == old(self).cfg,
            final(self)@ == old(self)@.with_status(tabs::opened(url@, *result)),
    {
        self.status = opened_status(url, result);
    }

    /// The line that is to be copied: the one at the scroll position, or the
    /// newest while the log is followed.
    pub fn yank_focused_line(&mut self) -> (r: Option<String>)
        requires
            old(self)@.valid(),
        ensures
            final(self).cfg == old(self).cfg,
            match old(self)@.focused_line() {
                Ok(l) => final(self)@ == old(self)@ && text::opt_view(r) == Some(l),
                Err(m) => final(self)@ == old(self)@.with_status(m) && r is None,
            },
    {
        let ghost a = self@;
        let tab = &self.tabs[self.active_tab];
        assert(a.tab() == tab@);
        let pane = match &tab.data.pane {
            Some(p) => p,
            None => {
                self.status = owned("no log buffer for this tab");
                return None;
            },
        };
        let row: usize = if pane.scroll == usize::MAX {
            pane.lines.len().saturating_sub(1)
        } else {
            pane.scroll
        };
        if row < pane.lines.len() {
            assert(pane@.lines[row as int] == pane.lines@[row as int]@);
            Some(pane.lines[row].text.clone())
        } else {
            self.status = owned("no line under cursor");
            None
        }
    }

    /// Takes note of whether a line could be copied.
    pub fn line_copied(&mut self, line: &str, result: &Result<(), String>)
        ensures
            final(self).cfg == old(self).cfg,
            final(self)@ == old(self)@.with_status(
                tabs::copied(
                    "copied 1 line ("@ + numeral::decimal(vstd::utf8::encode_utf8(line@).len())
                        + " chars)"@,
                    *result,
                ),
            ),
    {
        let done = cat3("copied 1 line (", dec_size(byte_len(line)).as_str(), " chars)");
        self.status = copied_status(done.as_str(), result);
    }
}

/// However many lines a log brings, no more than its share are kept.
pub proof fn law_log_stays_small(t: TabV, events: Seq<LogTailEvent>, n: int)
    requires
        t.pane matches Some(p) ==> p.lines.len() <= KEPT,
    ensures
        t.with_events(events, n).pane matches Some(p) ==> p.lines.len() <= KEPT,
    decreases n,
{
    if n > 0 {
        law_log_stays_small(t, events, n - 1);
    }
}

proof fn lemma_no_slash(s: Seq<u8>, k: int)
    requires
        0 <= k < encoded_bytes(s).len(),
    ensures
        encoded_bytes(s)[k] != '/',
    decreases s.len(),
{
    if s.len() > 0 {
        let rest = encoded_bytes(s.drop_last());
        let e = encoded_byte(s.last());
        if k < rest.len() {
            lemma_no_slash(s.drop_last(), k);
        } else {
            assert(encoded_bytes(s)[k] == e[k - rest.len()]);
            reveal_strlit("$252F");
            reveal_strlit("%");
        }
    }
}

/// No slash is left in what stands in the console's addresses.
pub proof fn law_no_slash_left(s: Seq<char>)
    ensures
        !encoded(s).contains('/'),
{
    let e = encoded(s);
    assert forall|k: int| 0 <= k < e.len() implies e[k] != '/' by {
        lemma_no_slash(vstd::utf8::encode_utf8(s), k);
    }
}

/// Scrolling up stops following the log, and stays among its lines; scrolling
/// down far enough follows it again.
pub proof fn law_scrolling(p: PaneV, delta: int)
    requires
        0 <= p.scroll,
        p.lines.len() < usize::MAX,
    ensures
        delta < 0 && (p.scroll == usize::MAX || p.scroll < p.lines.len()) ==> 0 <= scrolled(p, delta)
            <= last_line(p),
        delta >= p.lines.len() ==> scrolled(p, delta) == usize::MAX,
{
}

} // verus!
