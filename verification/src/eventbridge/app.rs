//! The state of the schedules browser.
//!
//! What has to be asked of AWS is handed out as requests; what comes back is
//! handed in through `poll_background`.

use vstd::prelude::*;

use crate::command::Poll;
use crate::eventbridge::config::Config;
use crate::eventbridge::edit::{Edit, EditFocus, EditV, Field};
use crate::eventbridge::schedules;
use crate::eventbridge::schedules::{toggle_state, update_schedule, DetailV, ScheduleDetail, ScheduleSummary};
use crate::json;
use crate::json::Json;
use crate::keys;
use crate::keys::{clamp_selection, keep_selection};
use crate::numeral;
use crate::numeral::dec_size;
use crate::table::{KeySet, Table};
use crate::text;
use crate::text::{cat2, cat3, owned, str_eq};

verus! {

/// What the keys do.
#[derive(Clone, Copy, Debug, PartialEq, Eq, Structural)]
pub enum Mode {
    Browse,
    Edit,
    Saving,
}

/// Something to be asked of AWS in the background.
pub enum Request {
    /// All schedules.
    List,
    /// One schedule.
    Detail { name: String, group: String },
    /// Some schedules, one after the other.
    Prefetch { keys: Vec<(String, String)> },
    /// A change of a schedule.
    Send { payload: Json },
}

/// A `Request` by its contents.
pub enum RequestV {
    List,
    Detail { name: Seq<char>, group: Seq<char> },
    Prefetch { keys: Seq<(Seq<char>, Seq<char>)> },
    Send { payload: json::JsonV },
}

/// The contents of a sequence of keys.
pub open spec fn key_views(k: Seq<(String, String)>) -> Seq<(Seq<char>, Seq<char>)> {
    Seq::new(k.len(), |i: int| (k[i].0@, k[i].1@))
}

impl View for Request {
    type V = RequestV;

    open spec fn view(&self) -> RequestV {
        match *self {
            Request::List => RequestV::List,
            Request::Detail { name, group } => RequestV::Detail { name: name@, group: group@ },
            Request::Prefetch { keys } => RequestV::Prefetch { keys: key_views(keys@) },
            Request::Send { payload } => RequestV::Send { payload: payload@ },
        }
    }
}

/// The contents of a sequence of requests.
pub open spec fn request_views(r: Seq<Request>) -> Seq<RequestV> {
    Seq::new(r.len(), |i: int| r[i]@)
}

/// The state of the browser.
pub struct App {
    pub cfg: Config,
    pub schedules: Vec<ScheduleSummary>,
    pub selected: usize,
    /// The selected schedule, once it has been read.
    pub detail: Option<ScheduleDetail>,
    pub detail_loading: bool,
    /// The schedules that have been read, by name and group.
    pub detail_cache: Table<(String, String), ScheduleDetail>,
    /// The schedules that are shown with all they have, by name and group.
    pub expanded: KeySet<(String, String)>,
    /// The rows on the screen: schedule, first line, line behind the last.
    pub row_hits: Vec<(usize, u16, u16)>,
    /// How many lines are scrolled out at the top.
    pub scroll_offset: u16,
    pub status: String,
    pub last_error: Option<String>,
    pub mode: Mode,
    pub edit: Edit,
    /// The list has been asked for.
    pub pending_list: bool,
    /// This schedule has been asked for.
    pub pending_detail: Option<(String, String)>,
    /// The schedules of the list have been asked for.
    pub pending_prefetch: bool,
    /// A change has been sent.
    pub pending_save: bool,
    pub should_quit: bool,
}

/// The state of the browser by its contents.
#[verifier::ext_equal]
pub struct AppV {
    pub cfg: Config,
    pub schedules: Seq<ScheduleSummary>,
    pub selected: int,
    pub detail: Option<DetailV>,
    pub detail_loading: bool,
    pub detail_cache: Map<(Seq<char>, Seq<char>), DetailV>,
    pub expanded: Set<(Seq<char>, Seq<char>)>,
    pub row_hits: Seq<(usize, u16, u16)>,
    pub scroll_offset: int,
    pub status: Seq<char>,
    pub last_error: Option<Seq<char>>,
    pub mode: Mode,
    pub edit: EditV,
    pub pending_list: bool,
    pub pending_detail: Option<(Seq<char>, Seq<char>)>,
    pub pending_prefetch: bool,
    pub pending_save: bool,
    pub should_quit: bool,
}

/// The contents of an optional schedule.
pub open spec fn detail_view(d: Option<ScheduleDetail>) -> Option<DetailV> {
    match d {
        Some(d) => Some(d@),
        None => None,
    }
}

impl View for App {
    type V = AppV;

    open spec fn view(&self) -> AppV {
        AppV {
            cfg: self.cfg,
            schedules: self.schedules@,
            selected: self.selected as int,
            detail: detail_view(self.detail),
            detail_loading: self.detail_loading,
            detail_cache: self.detail_cache@.map_values(|d: ScheduleDetail| d@),
            expanded: self.expanded@,
            row_hits: self.row_hits@,
            scroll_offset: self.scroll_offset as int,
            status: self.status@,
            last_error: text::opt_view(self.last_error),
            mode: self.mode,
            edit: self.edit@,
            pending_list: self.pending_list,
            pending_detail: match self.pending_detail {
                Some(k) => Some((k.0@, k.1@)),
                None => None,
            },
            pending_prefetch: self.pending_prefetch,
            pending_save: self.pending_save,
            should_quit: self.should_quit,
        }
    }
}

/// The name and the group of a schedule.
pub open spec fn key_of(s: ScheduleSummary) -> (Seq<char>, Seq<char>) {
    (s.name@, s.group_name@)
}

/// The names and the groups of some schedules.
pub open spec fn keys_of(s: Seq<ScheduleSummary>) -> Seq<(Seq<char>, Seq<char>)> {
    Seq::new(s.len(), |i: int| key_of(s[i]))
}

/// What an event leads to.
pub struct Step {
    pub app: AppV,
    pub requests: Seq<RequestV>,
    pub changed: bool,
}

impl AppV {
    /// The name and the group of the selected schedule.
    pub open spec fn selected_key(self) -> Option<(Seq<char>, Seq<char>)> {
        if 0 <= self.selected < self.schedules.len() {
            Some(key_of(self.schedules[self.selected]))
        } else {
            None
        }
    }

    /// The name of the selected schedule, or nothing.
    pub open spec fn selected_name(self) -> Seq<char> {
        match self.selected_key() {
            Some(k) => k.0,
            None => Seq::empty(),
        }
    }

    /// With the details of one schedule shown, or hidden.
    pub open spec fn toggled(self, i: int) -> AppV {
        if 0 <= i < self.schedules.len() {
            let k = key_of(self.schedules[i]);
            AppV {
                expanded: if self.expanded.contains(k) {
                    self.expanded.remove(k)
                } else {
                    self.expanded.insert(k)
                },
                ..self
            }
        } else {
            self
        }
    }

    pub open spec fn expand_selected(self) -> AppV {
        match self.selected_key() {
            Some(k) => AppV { expanded: self.expanded.insert(k), ..self },
            None => self,
        }
    }

    pub open spec fn collapse_selected(self) -> AppV {
        match self.selected_key() {
            Some(k) => AppV { expanded: self.expanded.remove(k), ..self },
            None => self,
        }
    }

    /// With the list asked for anew: what has been read is forgotten, and what
    /// is still on its way will not count.
    pub open spec fn refresh_list(self) -> AppV {
        AppV {
            pending_list: true,
            detail_cache: Map::empty(),
            pending_prefetch: false,
            pending_detail: None,
            status: "refreshing…"@,
            ..self
        }
    }

    /// With the selected schedule shown: from what has been read, or asked
    /// for.
    pub open spec fn refresh_detail(self) -> AppV {
        match self.selected_key() {
            None => self,
            Some(k) => if self.detail_cache.dom().contains(k) {
                AppV { detail: Some(self.detail_cache[k]), detail_loading: false, ..self }
            } else {
                AppV { pending_detail: Some(k), detail_loading: true, ..self }
            },
        }
    }

    /// The request that showing the selected schedule takes, if it takes one.
    pub open spec fn detail_request(self) -> Option<RequestV> {
        match self.selected_key() {
            None => None,
            Some(k) => if self.detail_cache.dom().contains(k) {
                None
            } else {
                Some(RequestV::Detail { name: k.0, group: k.1 })
            },
        }
    }

    /// With the selection at row `i` and the schedule there not yet shown.
    pub open spec fn at_row(self, i: int) -> AppV {
        AppV { selected: i, detail: None, ..self }
    }

    pub open spec fn enter_edit(self) -> AppV {
        match self.detail {
            None => AppV { status: "load a schedule first (wait for detail)"@, ..self },
            Some(d) => {
                let input = match d.target.input {
                    Some(s) => s,
                    None => Seq::empty(),
                };
                AppV {
                    edit: EditV {
                        focus: EditFocus::Expression,
                        expression: Field {
                            text: d.schedule_expression,
                            pos: d.schedule_expression.len() as int,
                        },
                        input: Field { text: input, pos: input.len() as int },
                    },
                    mode: Mode::Edit,
                    status: "editing — Tab switches field · Ctrl+S save · Esc cancel"@,
                    ..self
                }
            },
        }
    }

    pub open spec fn cancel_edit(self) -> AppV {
        AppV { mode: Mode::Browse, status: "cancelled edit of "@ + self.selected_name(), ..self }
    }

    /// With a change of the selected schedule's state under way, if it has
    /// been read.
    pub open spec fn toggle_state(self) -> AppV {
        match self.selected_key() {
            None => self,
            Some(k) => if self.detail_cache.dom().contains(k) {
                AppV {
                    pending_save: true,
                    mode: Mode::Saving,
                    status: "toggling "@ + k.0 + "…"@,
                    ..self
                }
            } else {
                AppV { status: "load detail first (wait for prefetch)"@, ..self }
            },
        }
    }

    pub open spec fn toggle_request(self) -> Option<RequestV> {
        match self.selected_key() {
            None => None,
            Some(k) => if self.detail_cache.dom().contains(k) {
                let d = self.detail_cache[k];
                Some(RequestV::Send { payload: schedules::toggle_payload(d.raw, d.state) })
            } else {
                None
            },
        }
    }

    pub open spec fn save_edit(self) -> AppV {
        match self.detail {
            None => self,
            Some(_) => AppV { pending_save: true, mode: Mode::Saving, status: "saving…"@, ..self },
        }
    }

    pub open spec fn save_request(self) -> Option<RequestV> {
        match self.detail {
            None => None,
            Some(d) => Some(
                RequestV::Send {
                    payload: schedules::update_payload(
                        d.raw,
                        self.edit.expression.text,
                        self.edit.input.text,
                    ),
                },
            ),
        }
    }

    /// Nothing happens.
    pub open spec fn still(self) -> Step {
        Step { app: self, requests: Seq::empty(), changed: false }
    }

    /// What the reply to a request for the list leads to.
    pub open spec fn on_list(self, reply: Poll<Vec<ScheduleSummary>>) -> Step {
        if !self.pending_list {
            self.still()
        } else {
            match reply {
                Poll::Empty => self.still(),
                Poll::Closed => (AppV { pending_list: false, ..self }).still(),
                Poll::Ready(Ok(list)) => {
                    let a = AppV {
                        schedules: list@,
                        selected: keys::kept(self.selected, list@.len() as int),
                        status: numeral::decimal(list@.len()) + " schedules"@,
                        pending_list: false,
                        detail: None,
                        ..self
                    };
                    Step {
                        app: AppV { pending_prefetch: true, ..a.refresh_detail() },
                        requests: one(a.detail_request()).push(
                            RequestV::Prefetch { keys: keys_of(list@) },
                        ),
                        changed: true,
                    }
                },
                Poll::Ready(Err(e)) => Step {
                    app: AppV {
                        last_error: Some(e@),
                        status: "list error: "@ + e@,
                        pending_list: false,
                        ..self
                    },
                    requests: Seq::empty(),
                    changed: true,
                },
            }
        }
    }

    /// What the reply to a request for one schedule leads to: it is shown if it
    /// is still the selected one.
    pub open spec fn on_detail(self, reply: Poll<ScheduleDetail>) -> Step {
        match self.pending_detail {
            None => self.still(),
            Some(k) => match reply {
                Poll::Empty => self.still(),
                Poll::Closed => (AppV { pending_detail: None, ..self }).still(),
                Poll::Ready(Ok(d)) => Step {
                    app: AppV {
                        detail: if self.selected_key() == Some(k) {
                            Some(d@)
                        } else {
                            self.detail
                        },
                        detail_loading: false,
                        pending_detail: None,
                        ..self
                    },
                    requests: Seq::empty(),
                    changed: true,
                },
                Poll::Ready(Err(e)) => Step {
                    app: AppV {
                        last_error: Some(e@),
                        status: "detail error: "@ + e@,
                        detail_loading: false,
                        pending_detail: None,
                        ..self
                    },
                    requests: Seq::empty(),
                    changed: true,
                },
            },
        }
    }

    /// With the schedules of a batch kept, and the selected one shown where
    /// none was. Schedules that could not be read are passed over.
    pub open spec fn with_batch(self, batch: Seq<(String, String, Result<ScheduleDetail, String>)>) -> AppV
        decreases batch.len(),
    {
        if batch.len() == 0 {
            self
        } else {
            let a = self.with_batch(batch.drop_last());
            let (name, group, r) = batch.last();
            match r {
                Err(_) => a,
                Ok(d) => {
                    let shown = a.detail is None && a.selected_key() == Some((name@, group@));
                    AppV {
                        detail: if shown {
                            Some(d@)
                        } else {
                            a.detail
                        },
                        detail_loading: if shown {
                            false
                        } else {
                            a.detail_loading
                        },
                        detail_cache: a.detail_cache.insert((name@, group@), d@),
                        ..a
                    }
                },
            }
        }
    }

    /// What a batch of read schedules leads to, if they are still waited for.
    pub open spec fn on_prefetch(
        self,
        batch: Seq<(String, String, Result<ScheduleDetail, String>)>,
        closed: bool,
    ) -> Step {
        if !self.pending_prefetch {
            self.still()
        } else {
            Step {
                app: AppV {
                    pending_prefetch: !closed,
                    ..self.with_batch(batch)
                },
                requests: Seq::empty(),
                changed: exists|i: int| 0 <= i < batch.len() && (#[trigger] batch[i]).2 is Ok,
            }
        }
    }

    /// What the reply to a change leads to: the list is asked for anew.
    pub open spec fn on_save(self, reply: Poll<()>) -> Step {
        if !self.pending_save {
            self.still()
        } else {
            match reply {
                Poll::Empty => self.still(),
                Poll::Closed => (AppV { pending_save: false, ..self }).still(),
                Poll::Ready(Ok(_)) => {
                    let a = AppV {
                        mode: Mode::Browse,
                        status: "saved "@ + self.selected_name(),
                        pending_save: false,
                        detail_cache: match self.selected_key() {
                            Some(k) => self.detail_cache.remove(k),
                            None => self.detail_cache,
                        },
                        detail: None,
                        ..self
                    };
                    Step {
                        app: a.refresh_detail().refresh_list(),
                        requests: one(a.detail_request()).push(RequestV::List),
                        changed: true,
                    }
                },
                Poll::Ready(Err(e)) => Step {
                    app: AppV {
                        last_error: Some(e@),
                        status: "save error: "@ + e@,
                        mode: Mode::Edit,
                        pending_save: false,
                        ..self
                    },
                    requests: Seq::empty(),
                    changed: true,
                },
            }
        }
    }

    /// What the replies of all requests lead to, taken one after the other. A
    /// request that a step starts anew has not been answered yet: what its
    /// predecessor brought does not count.
    pub open spec fn polled(
        self,
        list: Poll<Vec<ScheduleSummary>>,
        detail: Poll<ScheduleDetail>,
        batch: Seq<(String, String, Result<ScheduleDetail, String>)>,
        closed: bool,
        save: Poll<()>,
    ) -> Step {
        let s1 = self.on_list(list);
        let restarted = s1.requests.len() > 0;
        let s2 = s1.app.on_detail(
            if s1.requests.len() > 1 {
                Poll::Empty
            } else {
                detail
            },
        );
        let s3 = s2.app.on_prefetch(
            if restarted {
                Seq::empty()
            } else {
                batch
            },
            closed && !restarted,
        );
        let s4 = s3.app.on_save(save);
        Step {
            app: s4.app,
            requests: s1.requests + s4.requests,
            changed: s1.changed || s2.changed || s3.changed || s4.changed,
        }
    }
}

/// The sequence of a request, if there is one.
pub open spec fn one(r: Option<RequestV>) -> Seq<RequestV> {
    match r {
        Some(x) => seq![x],
        None => Seq::empty(),
    }
}

/// The contents of an optional request.
pub open spec fn opt_request(r: Option<Request>) -> Option<RequestV> {
    match r {
        Some(x) => Some(x@),
        None => None,
    }
}

fn requests_of(r: Option<Request>) -> (v: Vec<Request>)
    ensures
        request_views(v@) == one(opt_request(r)),
{
    let mut v: Vec<Request> = Vec::new();
    if let Some(x) = r {
        v.push(x);
    }
    assert(request_views(v@) =~= one(opt_request(r)));
    v
}

fn push_request(v: &mut Vec<Request>, r: Request)
    ensures
        request_views(final(v)@) == request_views(old(v)@).push(r@),
{
    v.push(r);
    assert(request_views(v@) =~= request_views(old(v)@).push(r@));
}

impl App {
    /// A browser that has just asked for the list.
    pub fn new(cfg: Config) -> (r: (App, Request))
        ensures
            r.0.edit.wf(),
            r.1@ == RequestV::List,
            r.0@ == (AppV {
                cfg,
                schedules: Seq::empty(),
                selected: 0,
                detail: None,
                detail_loading: false,
                detail_cache: Map::empty(),
                expanded: Set::empty(),
                row_hits: Seq::empty(),
                scroll_offset: 0,
                status: "refreshing…"@,
                last_error: None,
                mode: Mode::Browse,
                edit: EditV {
                    focus: EditFocus::Expression,
                    expression: Field { text: Seq::empty(), pos: 0 },
                    input: Field { text: Seq::empty(), pos: 0 },
                },
                pending_list: true,
                pending_detail: None,
                pending_prefetch: false,
                pending_save: false,
                should_quit: false,
            }),
    {
        let mut app = App {
            cfg,
            schedules: Vec::new(),
            selected: 0,
            detail: None,
            detail_loading: false,
            detail_cache: Table::new(),
            expanded: KeySet::new(),
            row_hits: Vec::new(),
            scroll_offset: 0,
            status: owned("loading schedules…"),
            last_error: None,
            mode: Mode::Browse,
            edit: Edit::of(String::new(), String::new()),
            pending_list: false,
            pending_detail: None,
            pending_prefetch: false,
            pending_save: false,
            should_quit: false,
        };
        let request = app.refresh_list();
        (app, request)
    }

    /// The name and the group of the selected schedule.
    pub fn selected_key(&self) -> (r: Option<(String, String)>)
        ensures
            match r {
                Some(k) => self@.selected_key() == Some((k.0@, k.1@)),
                None => self@.selected_key() is None,
            },
    {
        if self.selected < self.schedules.len() {
            let s = &self.schedules[self.selected];
            Some((s.name.clone(), s.group_name.clone()))
        } else {
            None
        }
    }

    /// Shows or hides all that the schedule at row `idx` has.
    pub fn toggle_expand_at(&mut self, idx: usize)
        ensures
            final(self)@ == old(self)@.toggled(idx as int),
            final(self).edit == old(self).edit,
    {
        if idx < self.schedules.len() {
            let s = &self.schedules[idx];
            let key = (s.name.clone(), s.group_name.clone());
            if self.expanded.contains(&key) {
                self.expanded.remove(&key);
            } else {
                self.expanded.insert(key);
            }
        }
    }

    /// Shows all that the selected schedule has.
    pub fn expand_selected(&mut self)
        ensures
            final(self)@ == old(self)@.expand_selected(),
            final(self).edit == old(self).edit,
    {
        if let Some(key) = self.selected_key() {
            self.expanded.insert(key);
        }
    }

    /// Hides what the selected schedule has.
    pub fn collapse_selected(&mut self)
        ensures
            final(self)@ == old(self)@.collapse_selected(),
            final(self).edit == old(self).edit,
    {
        if let Some(key) = self.selected_key() {
            self.expanded.remove(&key);
        }
    }

    /// Asks for the list anew.
    pub fn refresh_list(&mut self) -> (r: Request)
        ensures
            r@ == RequestV::List,
            final(self)@ == old(self)@.refresh_list(),
            final(self).edit == old(self).edit,
    {
        self.pending_list = true;
        self.detail_cache.clear();
        self.pending_prefetch = false;
        self.pending_detail = None;
        self.status = owned("refreshing…");
        assert(self@.detail_cache =~= Map::empty());
        Request::List
    }

    /// Asks for the schedules of the list, one after the other.
    pub fn start_prefetch(&mut self) -> (r: Request)
        ensures
            r@ == (RequestV::Prefetch { keys: keys_of(old(self)@.schedules) }),
            final(self)@ == (AppV { pending_prefetch: true, ..old(self)@ }),
            final(self).edit == old(self).edit,
    {
        let mut keys: Vec<(String, String)> = Vec::new();
        let mut i: usize = 0;
        while i < self.schedules.len()
            invariant
                i <= self.schedules.len(),
                *self == *old(self),
                keys.len() == i,
                forall|j: int| 0 <= j < i ==> ((#[trigger] keys@[j]).0@, keys@[j].1@) == key_of(self.schedules@[j]),
            decreases self.schedules.len() - i,
        {
            let s = &self.schedules[i];
            keys.push((s.name.clone(), s.group_name.clone()));
            i = i + 1;
        }
        assert(key_views(keys@) =~= keys_of(self.schedules@));
        self.pending_prefetch = true;
        Request::Prefetch { keys }
    }

    /// Shows the selected schedule, or asks for it.
    pub fn refresh_detail(&mut self) -> (r: Option<Request>)
        ensures
            opt_request(r) == old(self)@.detail_request(),
            final(self)@ == old(self)@.refresh_detail(),
            final(self).edit == old(self).edit,
    {
        let key = match self.selected_key() {
            Some(k) => k,
            None => {
                return None;
            },
        };
        let found = match self.detail_cache.get(&key) {
            Some(d) => Some(d.copy()),
            None => None,
        };
        match found {
            Some(d) => {
                self.detail = Some(d);
                self.detail_loading = false;
                None
            },
            None => {
                let request = Request::Detail { name: key.0.clone(), group: key.1.clone() };
                self.pending_detail = Some(key);
                self.detail_loading = true;
                Some(request)
            },
        }
    }

    /// Moves the selection; it stops at the first and at the last row.
    pub fn move_selection(&mut self, delta: isize) -> (r: Option<Request>)
        ensures
            old(self)@.schedules.len() == 0 ==> r is None && final(self)@ == old(self)@,
            old(self)@.schedules.len() > 0 ==> {
                let a = old(self)@.at_row(
                    keys::clamped(old(self)@.selected, delta as int, old(self)@.schedules.len() as int),
                );
                &&& opt_request(r) == a.detail_request()
                &&& final(self)@ == a.refresh_detail()
            },
            final(self).edit == old(self).edit,
    {
        let n: usize = self.schedules.len();
        if n == 0 {
            return None;
        }
        self.selected = clamp_selection(self.selected, delta, n);
        self.detail = None;
        self.refresh_detail()
    }

    /// Puts the selection on row `idx`.
    pub fn select(&mut self, idx: usize) -> (r: Option<Request>)
        ensures
            opt_request(r) == old(self)@.at_row(idx as int).detail_request(),
            final(self)@ == old(self)@.at_row(idx as int).refresh_detail(),
            final(self).edit == old(self).edit,
    {
        self.selected = idx;
        self.detail = None;
        self.refresh_detail()
    }

    /// Begins to edit the schedule that is shown.
    pub fn enter_edit(&mut self)
        ensures
            final(self)@ == old(self)@.enter_edit(),
            old(self).edit.wf() ==> final(self).edit.wf(),
    {
        let fields = match &self.detail {
            Some(d) => Some(
                (
                    d.schedule_expression.clone(),
                    match &d.target.input {
                        Some(s) => s.clone(),
                        None => String::new(),
                    },
                ),
            ),
            None => None,
        };
        match fields {
            Some((expression, input)) => {
                self.edit = Edit::of(expression, input);
                self.mode = Mode::Edit;
                self.status = owned("editing — Tab switches field · Ctrl+S save · Esc cancel");
            },
            None => {
                self.status = owned("load a schedule first (wait for detail)");
            },
        }
    }

    /// Stops editing without a change.
    pub fn cancel_edit(&mut self)
        ensures
            final(self)@ == old(self)@.cancel_edit(),
            final(self).edit == old(self).edit,
    {
        self.mode = Mode::Browse;
        let name = self.selected_name();
        self.status = cat2("cancelled edit of ", name.as_str());
    }

    /// Turns the selected schedule on or off.
    pub fn toggle_state(&mut self) -> (r: Option<Request>)
        ensures
            opt_request(r) == old(self)@.toggle_request(),
            final(self)@ == old(self)@.toggle_state(),
            final(self).edit == old(self).edit,
    {
        let key = match self.selected_key() {
            Some(k) => k,
            None => {
                return None;
            },
        };
        let payload = match self.detail_cache.get(&key) {
            Some(d) => Some(toggle_state(d).0),
            None => None,
        };
        match payload {
            Some(payload) => {
                self.pending_save = true;
                self.mode = Mode::Saving;
                self.status = cat3("toggling ", key.0.as_str(), "…");
                Some(Request::Send { payload })
            },
            None => {
                self.status = owned("load detail first (wait for prefetch)");
                None
            },
        }
    }

    /// Sends what has been edited.
    pub fn save_edit(&mut self) -> (r: Option<Request>)
        ensures
            opt_request(r) == old(self)@.save_request(),
            final(self)@ == old(self)@.save_edit(),
            final(self).edit == old(self).edit,
    {
        let payload = match &self.detail {
            Some(d) => update_schedule(d, self.edit.expression.as_str(), self.edit.input.as_str()),
            None => {
                return None;
            },
        };
        self.pending_save = true;
        self.mode = Mode::Saving;
        self.status = owned("saving…");
        Some(Request::Send { payload })
    }

    /// The name of the selected schedule, or nothing.
    pub fn selected_name(&self) -> (r: String)
        ensures
            r@ == self@.selected_name(),
    {
        if self.selected < self.schedules.len() {
            self.schedules[self.selected].name.clone()
        } else {
            String::new()
        }
    }

    /// Takes in the reply to a request for the list.
    pub fn on_list(&mut self, reply: Poll<Vec<ScheduleSummary>>) -> (r: (bool, Vec<Request>))
        ensures
            ({
                let s = old(self)@.on_list(reply);
                &&& final(self)@ == s.app
                &&& request_views(r.1@) == s.requests
                &&& r.0 == s.changed
            }),
            final(self).edit == old(self).edit,
    {
        let none: Vec<Request> = Vec::new();
        assert(request_views(none@) =~= Seq::empty());
        if !self.pending_list {
            return (false, none);
        }
        match reply {
            Poll::Empty => (false, none),
            Poll::Closed => {
                self.pending_list = false;
                (false, none)
            },
            Poll::Ready(Ok(list)) => {
                let n: usize = list.len();
                self.schedules = list;
                self.selected = keep_selection(self.selected, n);
                self.status = cat2(dec_size(n).as_str(), " schedules");
                self.pending_list = false;
                self.detail = None;
                let first = self.refresh_detail();
                let mut requests = requests_of(first);
                let prefetch = self.start_prefetch();
                push_request(&mut requests, prefetch);
                (true, requests)
            },
            Poll::Ready(Err(e)) => {
                self.status = cat2("list error: ", e.as_str());
                self.last_error = Some(e);
                self.pending_list = false;
                (true, none)
            },
        }
    }

    /// Takes in the reply to a request for one schedule.
    pub fn on_detail(&mut self, reply: Poll<ScheduleDetail>) -> (r: bool)
        ensures
            final(self)@ == old(self)@.on_detail(reply).app,
            r == old(self)@.on_detail(reply).changed,
            final(self).edit == old(self).edit,
    {
        let current = match &self.pending_detail {
            None => {
                return false;
            },
            Some(k) => self.is_selected(k.0.as_str(), k.1.as_str()),
        };
        match reply {
            Poll::Empty => false,
            Poll::Closed => {
                self.pending_detail = None;
                false
            },
            Poll::Ready(Ok(d)) => {
                if current {
                    self.detail = Some(d);
                }
                self.detail_loading = false;
                self.pending_detail = None;
                true
            },
            Poll::Ready(Err(e)) => {
                self.status = cat2("detail error: ", e.as_str());
                self.last_error = Some(e);
                self.detail_loading = false;
                self.pending_detail = None;
                true
            },
        }
    }

    fn is_selected(&self, name: &str, group: &str) -> (r: bool)
        ensures
            r == (self@.selected_key() == Some((name@, group@))),
    {
        if self.selected < self.schedules.len() {
            let s = &self.schedules[self.selected];
            str_eq(s.name.as_str(), name) && str_eq(s.group_name.as_str(), group)
        } else {
            false
        }
    }

    /// Takes in a batch of schedules that have been read.
    pub fn on_prefetch(
        &mut self,
        batch: Vec<(String, String, Result<ScheduleDetail, String>)>,
        closed: bool,
    ) -> (r: bool)
        ensures
            final(self)@ == old(self)@.on_prefetch(batch@, closed).app,
            r == old(self)@.on_prefetch(batch@, closed).changed,
            final(self).edit == old(self).edit,
    {
        if !self.pending_prefetch {
            return false;
        }
        let ghost start = self@;
        let ghost all = batch@;
        let mut rest = batch;
        let mut any = false;
        assert(all.take(0) =~= Seq::empty());
        assert(all.skip(0) =~= all);
        while rest.len() > 0
            invariant
                rest.len() <= all.len(),
                rest@ == all.skip(all.len() - rest.len()),
                self@ == start.with_batch(all.take(all.len() - rest.len())),
                self.edit == old(self).edit,
                any == exists|i: int| 0 <= i < all.len() - rest.len() && (#[trigger] all[i]).2 is Ok,
            decreases rest.len(),
        {
            let ghost n = all.len() - rest.len();
            let ghost before = self@;
            let (name, group, result) = rest.remove(0);
            assert(rest@ =~= all.skip(n + 1));
            assert(all.take(n + 1).drop_last() =~= all.take(n));
            assert(all.take(n + 1).last() == all[n]);
            if let Ok(d) = result {
                any = true;
                assert(all[n].2 is Ok);
                if self.detail.is_none() && self.is_selected(name.as_str(), group.as_str()) {
                    self.detail = Some(d.copy());
                    self.detail_loading = false;
                }
                self.detail_cache.insert((name, group), d);
                assert(self@.detail_cache =~= before.detail_cache.insert((name@, group@), d@));
                assert(self@ =~= start.with_batch(all.take(n + 1)));
            } else {
                assert(self@ =~= start.with_batch(all.take(n + 1)));
            }
        }
        assert(all.take(all.len() as int) =~= all);
        if closed {
            self.pending_prefetch = false;
        }
        proof {
            lemma_batch_keeps(start, all);
        }
        any
    }

    /// Takes in the reply to a change.
    pub fn on_save(&mut self, reply: Poll<()>) -> (r: (bool, Vec<Request>))
        ensures
            ({
                let s = old(self)@.on_save(reply);
                &&& final(self)@ == s.app
                &&& request_views(r.1@) == s.requests
                &&& r.0 == s.changed
            }),
            final(self).edit == old(self).edit,
    {
        let none: Vec<Request> = Vec::new();
        assert(request_views(none@) =~= Seq::empty());
        if !self.pending_save {
            return (false, none);
        }
        match reply {
            Poll::Empty => (false, none),
            Poll::Closed => {
                self.pending_save = false;
                (false, none)
            },
            Poll::Ready(Ok(_)) => {
                self.mode = Mode::Browse;
                let name = self.selected_name();
                self.status = cat2("saved ", name.as_str());
                self.pending_save = false;
                if let Some(key) = self.selected_key() {
                    self.detail_cache.remove(&key);
                    assert(self@.detail_cache =~= old(self)@.detail_cache.remove((key.0@, key.1@)));
                }
                self.detail = None;
                let first = self.refresh_detail();
                let mut requests = requests_of(first);
                let list = self.refresh_list();
                push_request(&mut requests, list);
                (true, requests)
            },
            Poll::Ready(Err(e)) => {
                self.status = cat2("save error: ", e.as_str());
                self.last_error = Some(e);
                self.mode = Mode::Edit;
                self.pending_save = false;
                (true, none)
            },
        }
    }

    /// Takes in what the background requests have brought, and says whether
    /// anything has to be drawn anew and what is to be asked next.
    pub fn poll_background(
        &mut self,
        list: Poll<Vec<ScheduleSummary>>,
        detail: Poll<ScheduleDetail>,
        prefetch: Vec<(String, String, Result<ScheduleDetail, String>)>,
        prefetch_closed: bool,
        save: Poll<()>,
    ) -> (r: (bool, Vec<Request>))
        ensures
            ({
                let s = old(self)@.polled(list, detail, prefetch@, prefetch_closed, save);
                &&& final(self)@ == s.app
                &&& request_views(r.1@) == s.requests
                &&& r.0 == s.changed
            }),
            final(self).edit == old(self).edit,
    {
        let (c1, mut requests) = self.on_list(list);
        let ghost r1 = request_views(requests@);
        let restarted = requests.len() > 0;
        let detail = if requests.len() > 1 { Poll::Empty } else { detail };
        let batch = if restarted { Vec::new() } else { prefetch };
        let c2 = self.on_detail(detail);
        let c3 = self.on_prefetch(batch, prefetch_closed && !restarted);
        let (c4, mut more) = self.on_save(save);
        let ghost r4 = request_views(more@);
        requests.append(&mut more);
        assert(request_views(requests@) =~= r1 + r4);
        (c1 || c2 || c3 || c4, requests)
    }
}

proof fn lemma_batch_keeps(a: AppV, batch: Seq<(String, String, Result<ScheduleDetail, String>)>)
    ensures
        ({
            let b = a.with_batch(batch);
            b.pending_prefetch == a.pending_prefetch && b.schedules == a.schedules && b.selected == a.selected
        }),
    decreases batch.len(),
{
    if batch.len() > 0 {
        lemma_batch_keeps(a, batch.drop_last());
    }
}

/// What was still on its way when the list was asked for anew never counts:
/// neither a schedule nor a batch of schedules changes anything.
pub proof fn law_refresh_discards_late_replies(
    a: AppV,
    detail: Poll<ScheduleDetail>,
    batch: Seq<(String, String, Result<ScheduleDetail, String>)>,
    closed: bool,
)
    ensures
        a.refresh_list().on_detail(detail).app == a.refresh_list(),
        a.refresh_list().on_prefetch(batch, closed).app == a.refresh_list(),
        a.refresh_list().detail_cache == Map::<(Seq<char>, Seq<char>), DetailV>::empty(),
{
}

/// A schedule is shown in the place of another only while it is the selected
/// one.
pub proof fn law_detail_only_for_selected(a: AppV, d: ScheduleDetail)
    requires
        a.pending_detail is Some,
        a.pending_detail != a.selected_key(),
    ensures
        a.on_detail(Poll::Ready(Ok(d))).app.detail == a.detail,
{
}

/// The selection is a row of the list, or 0 where the list is empty.
pub open spec fn selection_in_list(a: AppV) -> bool {
    &&& 0 <= a.selected
    &&& a.schedules.len() > 0 ==> a.selected < a.schedules.len()
    &&& a.schedules.len() == 0 ==> a.selected == 0
}

/// No reply takes the selection out of the list.
pub proof fn law_polls_keep_selection(
    a: AppV,
    list: Poll<Vec<ScheduleSummary>>,
    detail: Poll<ScheduleDetail>,
    batch: Seq<(String, String, Result<ScheduleDetail, String>)>,
    closed: bool,
    save: Poll<()>,
)
    requires
        selection_in_list(a),
    ensures
        selection_in_list(a.polled(list, detail, batch, closed, save).app),
{
    let s1 = a.on_list(list);
    let restarted = s1.requests.len() > 0;
    let s2 = s1.app.on_detail(
        if s1.requests.len() > 1 {
            Poll::Empty
        } else {
            detail
        },
    );
    lemma_batch_keeps(
        s2.app,
        if restarted {
            Seq::empty()
        } else {
            batch
        },
    );
}

/// To show and hide a schedule's details again leaves the state as it was.
pub proof fn law_toggle_twice(a: AppV, i: int)
    ensures
        a.toggled(i).toggled(i) == a,
{
    if 0 <= i < a.schedules.len() {
        let k = key_of(a.schedules[i]);
        if a.expanded.contains(k) {
            assert(a.expanded.remove(k).insert(k) =~= a.expanded);
        } else {
            assert(a.expanded.insert(k).remove(k) =~= a.expanded);
        }
        assert(a.toggled(i).toggled(i) =~= a);
    }
}

/// After a change was taken, the selected schedule is read anew: what had been
/// read of it is forgotten.
pub proof fn law_saved_is_read_anew(a: AppV)
    requires
        a.pending_save,
    ensures
        a.on_save(Poll::Ready(Ok(()))).app.detail is None,
        a.on_save(Poll::Ready(Ok(()))).app.pending_list,
        a.on_save(Poll::Ready(Ok(()))).requests.last() == RequestV::List,
        a.selected_key() matches Some(k) ==> a.on_save(Poll::Ready(Ok(()))).requests[0]
            == (RequestV::Detail { name: k.0, group: k.1 }),
{
}

} // verus!
