//! The state of the projects browser.
//!
//! What has to be asked of AWS is handed out as requests; what comes back is
//! handed in through `poll_background`.

use vstd::prelude::*;

use crate::codebuild::codebuild::{CodeBuildRecord, ProjectDetail};
use crate::codebuild::config::Config;
use crate::command::Poll;
use crate::keys;
use crate::keys::{clamp_selection, keep_selection};
use crate::numeral;
use crate::numeral::dec_size;
use crate::table::{KeySet, Table};
use crate::text;
use crate::text::{cat2, cat3, cat4, copy_all, is_among, owned};

verus! {

/// Something to be asked of AWS in the background.
pub enum Request {
    /// The names of all projects.
    Projects,
    /// What some projects are made of.
    Details { names: Vec<String> },
    /// The recent builds of some projects, one after the other.
    Builds { names: Vec<String>, limit: usize },
    /// The recent builds of one project.
    Refetch { name: String, limit: usize },
    /// The start of a build.
    Start { name: String },
}

/// A `Request` by its contents.
pub enum RequestV {
    Projects,
    Details { names: Seq<Seq<char>> },
    Builds { names: Seq<Seq<char>>, limit: usize },
    Refetch { name: Seq<char>, limit: usize },
    Start { name: Seq<char> },
}

impl View for Request {
    type V = RequestV;

    open spec fn view(&self) -> RequestV {
        match *self {
            Request::Projects => RequestV::Projects,
            Request::Details { names } => RequestV::Details { names: text::views(names@) },
            Request::Builds { names, limit } => RequestV::Builds { names: text::views(names@), limit },
            Request::Refetch { name, limit } => RequestV::Refetch { name: name@, limit },
            Request::Start { name } => RequestV::Start { name: name@ },
        }
    }
}

/// The contents of a sequence of requests.
pub open spec fn request_views(r: Seq<Request>) -> Seq<RequestV> {
    Seq::new(r.len(), |i: int| r[i]@)
}

/// The contents of an optional request.
pub open spec fn opt_request(r: Option<Request>) -> Option<RequestV> {
    match r {
        Some(x) => Some(x@),
        None => None,
    }
}

/// The state of the browser.
pub struct App {
    pub cfg: Config,
    /// The names of the projects.
    pub projects: Vec<String>,
    pub selected: usize,
    /// What the projects are made of, by name.
    pub detail_cache: Table<String, ProjectDetail>,
    /// The recent builds of the projects, by name.
    pub builds_cache: Table<String, Vec<CodeBuildRecord>>,
    /// The projects that are shown with all they have.
    pub expanded: KeySet<String>,
    /// The rows on the screen: project, first line, line behind the last.
    pub row_hits: Vec<(usize, u16, u16)>,
    /// How many lines are scrolled out at the top.
    pub scroll_offset: u16,
    pub status: String,
    pub last_error: Option<String>,
    /// The names of the projects have been asked for.
    pub pending_projects: bool,
    /// What the projects are made of has been asked for.
    pub pending_details: bool,
    /// The builds of all projects have been asked for.
    pub pending_builds: bool,
    /// The builds of this project have been asked for again.
    pub pending_single_refetch: Option<String>,
    /// A build of this project is being started.
    pub pending_start: Option<String>,
    pub should_quit: bool,
}

/// The state of the browser by its contents.
#[verifier::ext_equal]
pub struct AppV {
    pub cfg: Config,
    pub projects: Seq<String>,
    pub selected: int,
    pub detail_cache: Map<Seq<char>, ProjectDetail>,
    pub builds_cache: Map<Seq<char>, Vec<CodeBuildRecord>>,
    pub expanded: Set<Seq<char>>,
    pub row_hits: Seq<(usize, u16, u16)>,
    pub scroll_offset: int,
    pub status: Seq<char>,
    pub last_error: Option<Seq<char>>,
    pub pending_projects: bool,
    pub pending_details: bool,
    pub pending_builds: bool,
    pub pending_single_refetch: Option<Seq<char>>,
    pub pending_start: Option<Seq<char>>,
    pub should_quit: bool,
}

impl View for App {
    type V = AppV;

    open spec fn view(&self) -> AppV {
        AppV {
            cfg: self.cfg,
            projects: self.projects@,
            selected: self.selected as int,
            detail_cache: self.detail_cache@,
            builds_cache: self.builds_cache@,
            expanded: self.expanded@,
            row_hits: self.row_hits@,
            scroll_offset: self.scroll_offset as int,
            status: self.status@,
            last_error: text::opt_view(self.last_error),
            pending_projects: self.pending_projects,
            pending_details: self.pending_details,
            pending_builds: self.pending_builds,
            pending_single_refetch: text::opt_view(self.pending_single_refetch),
            pending_start: text::opt_view(self.pending_start),
            should_quit: self.should_quit,
        }
    }
}

/// What an event leads to.
pub struct Step {
    pub app: AppV,
    pub requests: Seq<RequestV>,
    pub changed: bool,
}

/// The projects that the settings let through, in their order.
pub open spec fn allowed(list: Seq<String>, filter: Seq<String>) -> Seq<String>
    decreases list.len(),
{
    if filter.len() == 0 || list.len() == 0 {
        list
    } else if text::among(filter, list.last()@) {
        allowed(list.drop_last(), filter).push(list.last())
    } else {
        allowed(list.drop_last(), filter)
    }
}

/// The table with some projects put in, each under its name.
pub open spec fn with_details(
    m: Map<Seq<char>, ProjectDetail>,
    details: Seq<ProjectDetail>,
) -> Map<Seq<char>, ProjectDetail>
    decreases details.len(),
{
    if details.len() == 0 {
        m
    } else {
        with_details(m, details.drop_last()).insert(details.last().name@, details.last())
    }
}

/// The table with the builds of some projects put in; projects whose builds
/// could not be read are passed over.
pub open spec fn with_builds(
    m: Map<Seq<char>, Vec<CodeBuildRecord>>,
    batch: Seq<(String, Result<Vec<CodeBuildRecord>, String>)>,
) -> Map<Seq<char>, Vec<CodeBuildRecord>>
    decreases batch.len(),
{
    if batch.len() == 0 {
        m
    } else {
        let rest = with_builds(m, batch.drop_last());
        match batch.last().1 {
            Ok(builds) => rest.insert(batch.last().0@, builds),
            Err(_) => rest,
        }
    }
}

impl AppV {
    /// The name of the selected project.
    pub open spec fn selected_name(self) -> Option<Seq<char>> {
        if 0 <= self.selected < self.projects.len() {
            Some(self.projects[self.selected]@)
        } else {
            None
        }
    }

    /// With everything asked for anew: what has been read is forgotten, and what
    /// is still on its way will not count.
    pub open spec fn refreshed(self) -> AppV {
        AppV {
            detail_cache: Map::empty(),
            builds_cache: Map::empty(),
            pending_details: false,
            pending_builds: false,
            pending_single_refetch: None,
            pending_projects: true,
            status: "refreshing…"@,
            ..self
        }
    }

    /// With the selection moved; it stops at the first and at the last row.
    pub open spec fn moved(self, delta: int) -> AppV {
        if self.projects.len() == 0 {
            self
        } else {
            AppV { selected: keys::clamped(self.selected, delta, self.projects.len() as int), ..self }
        }
    }

    /// With what the project at row `i` has shown, or hidden.
    pub open spec fn toggled(self, i: int) -> AppV {
        if 0 <= i < self.projects.len() {
            let n = self.projects[i]@;
            AppV {
                expanded: if self.expanded.contains(n) {
                    self.expanded.remove(n)
                } else {
                    self.expanded.insert(n)
                },
                ..self
            }
        } else {
            self
        }
    }

    pub open spec fn expand_selected(self) -> AppV {
        match self.selected_name() {
            Some(n) => AppV { expanded: self.expanded.insert(n), ..self },
            None => self,
        }
    }

    pub open spec fn collapse_selected(self) -> AppV {
        match self.selected_name() {
            Some(n) => AppV { expanded: self.expanded.remove(n), ..self },
            None => self,
        }
    }

    /// With a build of the selected project being started, unless one is being
    /// started already.
    pub open spec fn start_build(self) -> AppV {
        if self.pending_start is Some {
            AppV { status: "start-build already in flight"@, ..self }
        } else {
            match self.selected_name() {
                None => AppV { status: "no project under cursor"@, ..self },
                Some(n) => AppV {
                    pending_start: Some(n),
                    status: "starting build for "@ + n + "…"@,
                    ..self
                },
            }
        }
    }

    pub open spec fn start_request(self) -> Option<RequestV> {
        if self.pending_start is Some {
            None
        } else {
            match self.selected_name() {
                None => None,
                Some(n) => Some(RequestV::Start { name: n }),
            }
        }
    }

    /// Nothing happens.
    pub open spec fn still(self) -> Step {
        Step { app: self, requests: Seq::empty(), changed: false }
    }

    /// Something has changed, and nothing is to be asked.
    pub open spec fn changed(self) -> Step {
        Step { app: self, requests: Seq::empty(), changed: true }
    }

    /// What the names of the projects lead to: what they are made of and their
    /// builds are asked for.
    pub open spec fn on_projects(self, reply: Poll<Vec<String>>) -> Step {
        if !self.pending_projects {
            self.still()
        } else {
            match reply {
                Poll::Empty => self.still(),
                Poll::Closed => (AppV { pending_projects: false, ..self }).still(),
                Poll::Ready(Ok(list)) => {
                    let projects = allowed(list@, self.cfg.projects@);
                    Step {
                        app: AppV {
                            projects,
                            selected: keys::kept(self.selected, projects.len() as int),
                            status: numeral::decimal(projects.len()) + " projects"@,
                            pending_projects: false,
                            pending_details: true,
                            pending_builds: true,
                            ..self
                        },
                        requests: seq![
                            RequestV::Details { names: text::views(projects) },
                            RequestV::Builds {
                                names: text::views(projects),
                                limit: self.cfg.recent_builds,
                            },
                        ],
                        changed: true,
                    }
                },
                Poll::Ready(Err(e)) => (AppV {
                    last_error: Some(e@),
                    status: "list error: "@ + e@,
                    pending_projects: false,
                    ..self
                }).changed(),
            }
        }
    }

    /// What the details of the projects lead to.
    pub open spec fn on_details(self, reply: Poll<Vec<ProjectDetail>>) -> Step {
        if !self.pending_details {
            self.still()
        } else {
            match reply {
                Poll::Empty => self.still(),
                Poll::Closed => (AppV { pending_details: false, ..self }).still(),
                Poll::Ready(Ok(details)) => (AppV {
                    detail_cache: with_details(self.detail_cache, details@),
                    pending_details: false,
                    ..self
                }).changed(),
                Poll::Ready(Err(e)) => (AppV {
                    last_error: Some(e@),
                    status: "detail error: "@ + e@,
                    pending_details: false,
                    ..self
                }).changed(),
            }
        }
    }

    /// What the builds of some projects lead to.
    pub open spec fn on_builds(
        self,
        batch: Seq<(String, Result<Vec<CodeBuildRecord>, String>)>,
        closed: bool,
    ) -> Step {
        if !self.pending_builds {
            self.still()
        } else {
            Step {
                app: AppV {
                    builds_cache: with_builds(self.builds_cache, batch),
                    pending_builds: !closed,
                    ..self
                },
                requests: Seq::empty(),
                changed: exists|i: int| 0 <= i < batch.len() && (#[trigger] batch[i]).1 is Ok,
            }
        }
    }

    /// What the builds of one project, read again, lead to.
    pub open spec fn on_refetch(self, reply: Poll<Vec<CodeBuildRecord>>) -> Step {
        match self.pending_single_refetch {
            None => self.still(),
            Some(name) => match reply {
                Poll::Empty => self.still(),
                Poll::Closed => (AppV { pending_single_refetch: None, ..self }).still(),
                Poll::Ready(Ok(builds)) => (AppV {
                    builds_cache: self.builds_cache.insert(name, builds),
                    pending_single_refetch: None,
                    ..self
                }).changed(),
                Poll::Ready(Err(e)) => (AppV {
                    status: "refetch "@ + name + ": "@ + e@,
                    pending_single_refetch: None,
                    ..self
                }).changed(),
            },
        }
    }

    /// What the start of a build leads to: the builds of its project are read
    /// again.
    pub open spec fn on_start(self, reply: Poll<String>) -> Step {
        match self.pending_start {
            None => self.still(),
            Some(name) => match reply {
                Poll::Empty => self.still(),
                Poll::Closed => (AppV { pending_start: None, ..self }).still(),
                Poll::Ready(Ok(id)) => Step {
                    app: AppV {
                        status: "started "@ + name + " — build id "@ + id@,
                        pending_start: None,
                        pending_single_refetch: Some(name),
                        ..self
                    },
                    requests: seq![RequestV::Refetch { name, limit: self.cfg.recent_builds }],
                    changed: true,
                },
                Poll::Ready(Err(e)) => (AppV {
                    status: "start-build "@ + name + " failed: "@ + e@,
                    pending_start: None,
                    ..self
                }).changed(),
            },
        }
    }

    /// What the replies of all requests lead to, taken one after the other.
    /// Where the names of the projects have come, the other requests are only
    /// made now: what their predecessors brought does not count.
    pub open spec fn polled(
        self,
        projects: Poll<Vec<String>>,
        details: Poll<Vec<ProjectDetail>>,
        batch: Seq<(String, Result<Vec<CodeBuildRecord>, String>)>,
        closed: bool,
        refetch: Poll<Vec<CodeBuildRecord>>,
        start: Poll<String>,
    ) -> Step {
        let s1 = self.on_projects(projects);
        let restarted = s1.requests.len() > 0;
        let s2 = s1.app.on_details(
            if restarted {
                Poll::Empty
            } else {
                details
            },
        );
        let s3 = s2.app.on_builds(
            if restarted {
                Seq::empty()
            } else {
                batch
            },
            closed && !restarted,
        );
        let s4 = s3.app.on_refetch(refetch);
        let s5 = s4.app.on_start(start);
        Step {
            app: s5.app,
            requests: s1.requests + s5.requests,
            changed: s1.changed || s2.changed || s3.changed || s4.changed || s5.changed,
        }
    }
}

fn keep_allowed(list: Vec<String>, filter: &Vec<String>) -> (r: Vec<String>)
    ensures
        r@ == allowed(list@, filter@),
{
    if filter.len() == 0 {
        return list;
    }
    let mut out: Vec<String> = Vec::new();
    let mut i: usize = 0;
    assert(list@.take(0) =~= Seq::empty());
    while i < list.len()
        invariant
            i <= list.len(),
            filter.len() > 0,
            out@ == allowed(list@.take(i as int), filter@),
        decreases list.len() - i,
    {
        assert(list@.take(i + 1).drop_last() =~= list@.take(i as int));
        if is_among(filter, list[i].as_str()) {
            out.push(list[i].clone());
        }
        i = i + 1;
    }
    assert(list@.take(list@.len() as int) =~= list@);
    out
}

impl App {
    /// A browser that has just asked for the projects.
    pub fn new(cfg: Config) -> (r: (App, Request))
        ensures
            r.1@ == RequestV::Projects,
            r.0@ == (AppV {
                cfg,
                projects: Seq::empty(),
                selected: 0,
                detail_cache: Map::empty(),
                builds_cache: Map::empty(),
                expanded: Set::empty(),
                row_hits: Seq::empty(),
                scroll_offset: 0,
                status: "refreshing…"@,
                last_error: None,
                pending_projects: true,
                pending_details: false,
                pending_builds: false,
                pending_single_refetch: None,
                pending_start: None,
                should_quit: false,
            }),
    {
        let mut app = App {
            cfg,
            projects: Vec::new(),
            selected: 0,
            detail_cache: Table::new(),
            builds_cache: Table::new(),
            expanded: KeySet::new(),
            row_hits: Vec::new(),
            scroll_offset: 0,
            status: owned("loading projects…"),
            last_error: None,
            pending_projects: false,
            pending_details: false,
            pending_builds: false,
            pending_single_refetch: None,
            pending_start: None,
            should_quit: false,
        };
        let request = app.refresh();
        (app, request)
    }

    /// Asks for everything anew.
    pub fn refresh(&mut self) -> (r: Request)
        ensures
            r@ == RequestV::Projects,
            final(self)@ == old(self)@.refreshed(),
    {
        self.detail_cache.clear();
        self.builds_cache.clear();
        self.pending_details = false;
        self.pending_builds = false;
        self.pending_single_refetch = None;
        self.pending_projects = true;
        self.status = owned("refreshing…");
        Request::Projects
    }

    /// Asks what the projects are made of, and for their builds.
    fn start_details_and_builds(&mut self) -> (r: Vec<Request>)
        ensures
            final(self)@ == (AppV { pending_details: true, pending_builds: true, ..old(self)@ }),
            request_views(r@) == seq![
                RequestV::Details { names: text::views(old(self)@.projects) },
                RequestV::Builds {
                    names: text::views(old(self)@.projects),
                    limit: old(self)@.cfg.recent_builds,
                },
            ],
    {
        let mut out: Vec<Request> = Vec::new();
        out.push(Request::Details { names: copy_all(&self.projects) });
        out.push(
            Request::Builds { names: copy_all(&self.projects), limit: self.cfg.recent_builds },
        );
        self.pending_details = true;
        self.pending_builds = true;
        assert(request_views(out@) =~= seq![
            RequestV::Details { names: text::views(old(self)@.projects) },
            RequestV::Builds {
                names: text::views(old(self)@.projects),
                limit: old(self)@.cfg.recent_builds,
            },
        ]);
        out
    }

    /// Starts a build of the selected project, unless one is being started.
    pub fn start_build(&mut self) -> (r: Option<Request>)
        ensures
            final(self)@ == old(self)@.start_build(),
            opt_request(r) == old(self)@.start_request(),
    {
        if self.pending_start.is_some() {
            self.status = owned("start-build already in flight");
            return None;
        }
        if self.selected >= self.projects.len() {
            self.status = owned("no project under cursor");
            return None;
        }
        let name = self.projects[self.selected].clone();
        self.status = cat3("starting build for ", name.as_str(), "…");
        self.pending_start = Some(name.clone());
        Some(Request::Start { name })
    }

    /// Moves the selection; it stops at the first and at the last row.
    pub fn move_selection(&mut self, delta: isize)
        ensures
            final(self)@ == old(self)@.moved(delta as int),
    {
        let n: usize = self.projects.len();
        if n > 0 {
            self.selected = clamp_selection(self.selected, delta, n);
        }
    }

    /// Shows or hides what the project at row `idx` has.
    pub fn toggle_expand_at(&mut self, idx: usize)
        ensures
            final(self)@ == old(self)@.toggled(idx as int),
    {
        if idx < self.projects.len() {
            let name = self.projects[idx].clone();
            if self.expanded.contains(&name) {
                self.expanded.remove(&name);
            } else {
                self.expanded.insert(name);
            }
        }
    }

    /// Shows what the selected project has.
    pub fn expand_selected(&mut self)
        ensures
            final(self)@ == old(self)@.expand_selected(),
    {
        if self.selected < self.projects.len() {
            let name = self.projects[self.selected].clone();
            self.expanded.insert(name);
        }
    }

    /// Hides what the selected project has.
    pub fn collapse_selected(&mut self)
        ensures
            final(self)@ == old(self)@.collapse_selected(),
    {
        if self.selected < self.projects.len() {
            let name = self.projects[self.selected].clone();
            self.expanded.remove(&name);
        }
    }

    /// Takes in the names of the projects.
    pub fn on_projects(&mut self, reply: Poll<Vec<String>>) -> (r: (bool, Vec<Request>))
        ensures
            ({
                let s = old(self)@.on_projects(reply);
                &&& final(self)@ == s.app
                &&& request_views(r.1@) == s.requests
                &&& r.0 == s.changed
            }),
    {
        let none: Vec<Request> = Vec::new();
        assert(request_views(none@) =~= Seq::empty());
        if !self.pending_projects {
            return (false, none);
        }
        match reply {
            Poll::Empty => (false, none),
            Poll::Closed => {
                self.pending_projects = false;
                (false, none)
            },
            Poll::Ready(Ok(list)) => {
                self.projects = keep_allowed(list, &self.cfg.projects);
                let n: usize = self.projects.len();
                self.selected = keep_selection(self.selected, n);
                self.status = cat2(dec_size(n).as_str(), " projects");
                self.pending_projects = false;
                let requests = self.start_details_and_builds();
                (true, requests)
            },
            Poll::Ready(Err(e)) => {
                self.status = cat2("list error: ", e.as_str());
                self.last_error = Some(e);
                self.pending_projects = false;
                (true, none)
            },
        }
    }

    /// Takes in what the projects are made of.
    pub fn on_details(&mut self, reply: Poll<Vec<ProjectDetail>>) -> (r: bool)
        ensures
            final(self)@ == old(self)@.on_details(reply).app,
            r == old(self)@.on_details(reply).changed,
    {
        if !self.pending_details {
            return false;
        }
        match reply {
            Poll::Empty => false,
            Poll::Closed => {
                self.pending_details = false;
                false
            },
            Poll::Ready(Ok(details)) => {
                let ghost start = self@;
                let ghost all = details@;
                let mut rest = details;
                assert(all.take(0) =~= Seq::empty());
                assert(all.skip(0) =~= all);
                while rest.len() > 0
                    invariant
                        rest.len() <= all.len(),
                        rest@ == all.skip(all.len() - rest.len()),
                        self@ == (AppV {
                            detail_cache: with_details(
                                start.detail_cache,
                                all.take(all.len() - rest.len()),
                            ),
                            ..start
                        }),
                    decreases rest.len(),
                {
                    let ghost n = all.len() - rest.len();
                    let d = rest.remove(0);
                    assert(rest@ =~= all.skip(n + 1));
                    assert(all.take(n + 1).drop_last() =~= all.take(n));
                    assert(all.take(n + 1).last() == d);
                    let name = d.name.clone();
                    self.detail_cache.insert(name, d);
                }
                assert(all.take(all.len() as int) =~= all);
                self.pending_details = false;
                true
            },
            Poll::Ready(Err(e)) => {
                self.status = cat2("detail error: ", e.as_str());
                self.last_error = Some(e);
                self.pending_details = false;
                true
            },
        }
    }

    /// Takes in the builds of some projects.
    pub fn on_builds(
        &mut self,
        batch: Vec<(String, Result<Vec<CodeBuildRecord>, String>)>,
        closed: bool,
    ) -> (r: bool)
        ensures
            final(self)@ == old(self)@.on_builds(batch@, closed).app,
            r == old(self)@.on_builds(batch@, closed).changed,
    {
        if !self.pending_builds {
            return false;
        }
        let ghost start = self@;
        let ghost all = batch@;
        let mut rest = batch;
        let mut any = false;
        assert(all.take(0) =~= Seq::empty());
        assert(all.skip(0) =~= all);
        while rest.len() > 0
            invariant
                rest.len() <= all.len(),
                rest@ == all.skip(all.len() - rest.len()),
                self@ == (AppV {
                    builds_cache: with_builds(start.builds_cache, all.take(all.len() - rest.len())),
                    ..start
                }),
                any == exists|i: int| 0 <= i < all.len() - rest.len() && (#[trigger] all[i]).1 is Ok,
            decreases rest.len(),
        {
            let ghost n = all.len() - rest.len();
            let (name, result) = rest.remove(0);
            assert(rest@ =~= all.skip(n + 1));
            assert(all.take(n + 1).drop_last() =~= all.take(n));
            assert(all.take(n + 1).last() == all[n]);
            if let Ok(builds) = result {
                any = true;
                assert(all[n].1 is Ok);
                self.builds_cache.insert(name, builds);
            }
        }
        assert(all.take(all.len() as int) =~= all);
        if closed {
            self.pending_builds = false;
        }
        any
    }

    /// Takes in the builds of one project, read again.
    pub fn on_refetch(&mut self, reply: Poll<Vec<CodeBuildRecord>>) -> (r: bool)
        ensures
            final(self)@ == old(self)@.on_refetch(reply).app,
            r == old(self)@.on_refetch(reply).changed,
    {
        let name = match &self.pending_single_refetch {
            Some(n) => n.clone(),
            None => {
                return false;
            },
        };
        match reply {
            Poll::Empty => false,
            Poll::Closed => {
                self.pending_single_refetch = None;
                false
            },
            Poll::Ready(Ok(builds)) => {
                self.pending_single_refetch = None;
                self.builds_cache.insert(name, builds);
                true
            },
            Poll::Ready(Err(e)) => {
                self.pending_single_refetch = None;
                self.status = cat4("refetch ", name.as_str(), ": ", e.as_str());
                true
            },
        }
    }

    /// Takes in how the start of a build went.
    pub fn on_start(&mut self, reply: Poll<String>) -> (r: (bool, Vec<Request>))
        ensures
            ({
                let s = old(self)@.on_start(reply);
                &&& final(self)@ == s.app
                &&& request_views(r.1@) == s.requests
                &&& r.0 == s.changed
            }),
    {
        let mut requests: Vec<Request> = Vec::new();
        assert(request_views(requests@) =~= Seq::empty());
        let name = match &self.pending_start {
            Some(n) => n.clone(),
            None => {
                return (false, requests);
            },
        };
        match reply {
            Poll::Empty => (false, requests),
            Poll::Closed => {
                self.pending_start = None;
                (false, requests)
            },
            Poll::Ready(Ok(id)) => {
                self.pending_start = None;
                self.status = cat4("started ", name.as_str(), " — build id ", id.as_str());
                self.pending_single_refetch = Some(name.clone());
                requests.push(Request::Refetch { name, limit: self.cfg.recent_builds });
                assert(request_views(requests@) =~= old(self)@.on_start(reply).requests);
                (true, requests)
            },
            Poll::Ready(Err(e)) => {
                self.pending_start = None;
                self.status = cat4("start-build ", name.as_str(), " failed: ", e.as_str());
                (true, requests)
            },
        }
    }

    /// Takes in what the background requests have brought, and says whether
    /// anything has to be drawn anew and what is to be asked next.
    pub fn poll_background(
        &mut self,
        projects: Poll<Vec<String>>,
        details: Poll<Vec<ProjectDetail>>,
        builds: Vec<(String, Result<Vec<CodeBuildRecord>, String>)>,
        builds_closed: bool,
        refetch: Poll<Vec<CodeBuildRecord>>,
        start: Poll<String>,
    ) -> (r: (bool, Vec<Request>))
        ensures
            ({
                let s = old(self)@.polled(projects, details, builds@, builds_closed, refetch, start);
                &&& final(self)@ == s.app
                &&& request_views(r.1@) == s.requests
                &&& r.0 == s.changed
            }),
    {
        let (c1, mut requests) = self.on_projects(projects);
        let ghost r1 = request_views(requests@);
        let restarted = requests.len() > 0;
        let details = if restarted { Poll::Empty } else { details };
        let batch = if restarted { Vec::new() } else { builds };
        let c2 = self.on_details(details);
        let c3 = self.on_builds(batch, builds_closed && !restarted);
        let c4 = self.on_refetch(refetch);
        let (c5, mut more) = self.on_start(start);
        let ghost r5 = request_views(more@);
        requests.append(&mut more);
        assert(request_views(requests@) =~= r1 + r5);
        (c1 || c2 || c3 || c4 || c5, requests)
    }
}

/// What was still on its way when everything was asked for anew never counts.
pub proof fn law_refresh_discards_late_replies(
    a: AppV,
    details: Poll<Vec<ProjectDetail>>,
    batch: Seq<(String, Result<Vec<CodeBuildRecord>, String>)>,
    closed: bool,
    refetch: Poll<Vec<CodeBuildRecord>>,
)
    ensures
        a.refreshed().on_details(details).app == a.refreshed(),
        a.refreshed().on_builds(batch, closed).app == a.refreshed(),
        a.refreshed().on_refetch(refetch).app == a.refreshed(),
        a.refreshed().detail_cache == Map::<Seq<char>, ProjectDetail>::empty(),
        a.refreshed().builds_cache == Map::<Seq<char>, Vec<CodeBuildRecord>>::empty(),
{
}

/// A build that was started, and the builds of its project that are read again
/// then, leave the reading of all projects' builds alone.
pub proof fn law_start_keeps_prefetch(a: AppV, start: Poll<String>, refetch: Poll<Vec<CodeBuildRecord>>)
    ensures
        a.on_start(start).app.pending_builds == a.pending_builds,
        a.on_start(start).app.builds_cache == a.builds_cache,
        a.on_refetch(refetch).app.pending_builds == a.pending_builds,
{
}

/// While a build is being started, no other is.
pub proof fn law_one_start_at_a_time(a: AppV)
    ensures
        a.start_build().pending_start is Some ==> a.start_build().start_request() is None,
        a.start_request() is Some ==> a.start_build().pending_start is Some,
{
}

/// The selection is a row of the list, or 0 where the list is empty.
pub open spec fn selection_in_list(a: AppV) -> bool {
    &&& 0 <= a.selected
    &&& a.projects.len() > 0 ==> a.selected < a.projects.len()
    &&& a.projects.len() == 0 ==> a.selected == 0
}

/// No reply and no move takes the selection out of the list.
pub proof fn law_selection_stays_in_list(
    a: AppV,
    projects: Poll<Vec<String>>,
    details: Poll<Vec<ProjectDetail>>,
    batch: Seq<(String, Result<Vec<CodeBuildRecord>, String>)>,
    closed: bool,
    refetch: Poll<Vec<CodeBuildRecord>>,
    start: Poll<String>,
    delta: int,
)
    requires
        selection_in_list(a),
    ensures
        selection_in_list(a.polled(projects, details, batch, closed, refetch, start).app),
        selection_in_list(a.moved(delta)),
{
}

/// To show and hide what a project has again leaves the state as it was.
pub proof fn law_toggle_twice(a: AppV, i: int)
    ensures
        a.toggled(i).toggled(i) == a,
{
    if 0 <= i < a.projects.len() {
        let n = a.projects[i]@;
        if a.expanded.contains(n) {
            assert(a.expanded.remove(n).insert(n) =~= a.expanded);
        } else {
            assert(a.expanded.insert(n).remove(n) =~= a.expanded);
        }
        assert(a.toggled(i).toggled(i) =~= a);
    }
}

/// Where the settings name projects, only those are shown; where they name
/// none, all are.
pub proof fn law_only_allowed_projects(list: Seq<String>, filter: Seq<String>, i: int)
    requires
        0 <= i < allowed(list, filter).len(),
    ensures
        list.contains(allowed(list, filter)[i]),
        filter.len() > 0 ==> text::among(filter, allowed(list, filter)[i]@),
        filter.len() == 0 ==> allowed(list, filter) == list,
    decreases list.len(),
{
    if filter.len() > 0 && list.len() > 0 {
        let rest = allowed(list.drop_last(), filter);
        if i < rest.len() {
            law_only_allowed_projects(list.drop_last(), filter, i);
            let k = choose|k: int| 0 <= k < list.drop_last().len() && list.drop_last()[k] == rest[i];
            assert(list[k] == rest[i]);
        } else {
            assert(list[list.len() - 1] == allowed(list, filter)[i]);
        }
    }
}

} // verus!
