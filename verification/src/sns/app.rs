//! The state of the topics browser.

use vstd::prelude::*;

use crate::command;
use crate::command::{as_slice, launched_status, with_region, Launch, Ran};
use crate::json;
use crate::json::parse_json;
use crate::sns::config::{Config, Tab};
use crate::sns::sns;
use crate::sns::sns::{Subscription, Topic, TopicAttributes};
use crate::tabs;
use crate::tabs::{
    begin_load, copied_status, finish_load, move_active, opened_status, pick_region, url_region, BrowserV,
    ListTab, ListV,
};
use crate::text;
use crate::text::{
    cat2, cat3, cat4, cat5, cat6, chars_of, copy_opt, last_piece, list_of, owned, quote, str_eq, string_of, trim,
};
use crate::url;
use crate::url::urlencode_path;

verus! {

/// What a tab lists.
pub struct TabSpec {
    pub kind: String,
    pub topic_arn: Option<String>,
    pub prefix: Option<String>,
    pub region: Option<String>,
}

/// A `TabSpec` by its contents.
pub struct SpecV {
    pub kind: Seq<char>,
    pub topic_arn: Option<Seq<char>>,
    pub prefix: Option<Seq<char>>,
    pub region: Option<Seq<char>>,
}

impl View for TabSpec {
    type V = SpecV;

    open spec fn view(&self) -> SpecV {
        SpecV {
            kind: self.kind@,
            topic_arn: text::opt_view(self.topic_arn),
            prefix: text::opt_view(self.prefix),
            region: text::opt_view(self.region),
        }
    }
}

/// What a tab of the settings lists, or why it cannot be.
pub open spec fn resolved(t: Tab, default_region: Option<Seq<char>>) -> Result<SpecV, Seq<char>> {
    let region = tabs::region_or(text::opt_view(t.region), default_region);
    if t.kind@ == "topics"@ {
        Ok(SpecV { kind: "topics"@, topic_arn: None, prefix: text::opt_view(t.prefix), region })
    } else if t.kind@ == "subscriptions"@ {
        let arn = match t.topic_arn {
            Some(a) => a@,
            None => Seq::empty(),
        };
        if text::trimmed(arn).len() == 0 {
            Err("tab `"@ + t.name@ + "`: kind=\"subscriptions\" requires `topic_arn`"@)
        } else {
            Ok(SpecV { kind: "subscriptions"@, topic_arn: Some(arn), prefix: None, region })
        }
    } else {
        Err("tab `"@ + t.name@ + "`: unknown kind "@ + text::quoted(t.kind@))
    }
}

/// The tab lists something known, and its topic is named where it needs one.
pub open spec fn valid_spec(s: SpecV) -> bool {
    s.kind == "topics"@ || (s.kind == "subscriptions"@ && s.topic_arn is Some)
}

impl TabSpec {
    pub fn resolve(t: &Tab, default_region: Option<&str>) -> (r: Result<TabSpec, String>)
        ensures
            spec_result(r) == resolved(*t, text::opt_str_view(default_region)),
    {
        let region = pick_region(&t.region, default_region);
        if str_eq(t.kind.as_str(), "topics") {
            Ok(TabSpec { kind: owned("topics"), topic_arn: None, prefix: copy_opt(&t.prefix), region })
        } else if str_eq(t.kind.as_str(), "subscriptions") {
            let arn = match &t.topic_arn {
                Some(a) => a.clone(),
                None => String::new(),
            };
            if trim(arn.as_str()).is_empty() {
                Err(cat3("tab `", t.name.as_str(), "`: kind=\"subscriptions\" requires `topic_arn`"))
            } else {
                Ok(TabSpec { kind: owned("subscriptions"), topic_arn: Some(arn), prefix: None, region })
            }
        } else {
            let kind = quote(t.kind.as_str());
            Err(cat4("tab `", t.name.as_str(), "`: unknown kind ", kind.as_str()))
        }
    }
}

/// What a tab lists.
pub enum Item {
    Topic(Topic),
    Subscription(Subscription),
}

/// The name of an item in the list.
pub open spec fn item_name(x: Item) -> Seq<char> {
    match x {
        Item::Topic(t) => text::after_last(t.arn@, ':'),
        Item::Subscription(s) => match s.protocol {
            Some(p) => p@,
            None => "—"@,
        },
    }
}

/// The description of an item in the list.
pub open spec fn item_label(x: Item) -> Seq<char> {
    match x {
        Item::Topic(t) => sns::topic_label(t),
        Item::Subscription(s) => if sns::pending(s) {
            sns::short_endpoint(s) + "  ⚠ pending confirmation"@
        } else {
            sns::short_endpoint(s)
        },
    }
}

impl Item {
    pub fn primary_label(&self) -> (r: String)
        ensures
            r@ == item_name(*self),
    {
        match self {
            Item::Topic(t) => owned(t.name()),
            Item::Subscription(s) => match &s.protocol {
                Some(p) => p.clone(),
                None => owned("—"),
            },
        }
    }

    pub fn secondary_label(&self) -> (r: String)
        ensures
            r@ == item_label(*self),
    {
        match self {
            Item::Topic(t) => t.secondary_label(),
            Item::Subscription(s) => {
                let endpoint = s.endpoint_short();
                if s.is_pending_confirmation() {
                    cat2(endpoint, "  ⚠ pending confirmation")
                } else {
                    owned(endpoint)
                }
            },
        }
    }
}

/// A list of items.
pub type ItemsTab = ListTab<Item>;

/// A tab of items.
pub type TabState = tabs::TabState<TabSpec, Item>;

/// The contents of a result with a `TabSpec` or an error text.
pub open spec fn spec_result(r: Result<TabSpec, String>) -> Result<SpecV, Seq<char>> {
    match r {
        Ok(s) => Ok(s@),
        Err(e) => Err(e@),
    }
}

/// The first error among the first `i` tabs of the settings.
pub open spec fn tabs_error(t: Seq<Tab>, region: Option<Seq<char>>, i: int) -> Option<Seq<char>>
    decreases i,
{
    if i <= 0 {
        None
    } else {
        match tabs_error(t, region, i - 1) {
            Some(e) => Some(e),
            None => match resolved(t[i - 1], region) {
                Ok(_) => None,
                Err(e) => Some(e),
            },
        }
    }
}

proof fn lemma_first_error(t: Seq<Tab>, region: Option<Seq<char>>, i: int, n: int)
    requires
        0 <= i <= n,
        tabs_error(t, region, i) is Some,
    ensures
        tabs_error(t, region, n) == tabs_error(t, region, i),
    decreases n - i,
{
    if i < n {
        lemma_first_error(t, region, i, n - 1);
    }
}

/// `s` is a tab that was made of `t` and has not been loaded.
pub open spec fn fresh_tab(s: TabState, t: Tab, region: Option<Seq<char>>) -> bool {
    &&& s.name@ == t.name@
    &&& resolved(t, region) == Ok::<SpecV, Seq<char>>(s.spec@)
    &&& s.data@ == ListV::<Item>::empty()
}

/// The tabs that the settings describe, none of them loaded; or the first
/// error among them.
fn make_tabs(cfg: &Config) -> (r: Result<Vec<TabState>, String>)
    ensures
        match r {
            Ok(tabs) => {
                &&& tabs.len() == cfg.tabs.len()
                &&& tabs_error(cfg.tabs@, text::opt_view(cfg.region), cfg.tabs.len() as int) is None
                &&& forall|i: int|
                    0 <= i < tabs.len() ==> fresh_tab(
                        #[trigger] tabs@[i],
                        cfg.tabs@[i],
                        text::opt_view(cfg.region),
                    )
            },
            Err(e) => tabs_error(cfg.tabs@, text::opt_view(cfg.region), cfg.tabs.len() as int) == Some(e@),
        },
{
    let ghost region = text::opt_view(cfg.region);
    let mut tabs: Vec<TabState> = Vec::new();
    let mut i: usize = 0;
    while i < cfg.tabs.len()
        invariant
            i <= cfg.tabs.len(),
            region == text::opt_view(cfg.region),
            tabs.len() == i,
            tabs_error(cfg.tabs@, region, i as int) is None,
            forall|k: int| 0 <= k < i ==> fresh_tab(#[trigger] tabs@[k], cfg.tabs@[k], region),
        decreases cfg.tabs.len() - i,
    {
        let t = &cfg.tabs[i];
        match TabSpec::resolve(t, as_slice(&cfg.region)) {
            Ok(spec) => {
                tabs.push(tabs::TabState { name: t.name.clone(), spec, data: ListTab::empty() });
            },
            Err(e) => {
                proof {
                    lemma_first_error(cfg.tabs@, region, i + 1, cfg.tabs.len() as int);
                }
                return Err(e);
            },
        }
        i = i + 1;
    }
    Ok(tabs)
}

/// What is to be loaded.
pub enum Fetch {
    Topics { prefix: Option<String>, region: Option<String> },
    Subscriptions { topic_arn: String, region: Option<String> },
}

/// A `Fetch` by its contents.
pub enum FetchV {
    Topics { prefix: Option<Seq<char>>, region: Option<Seq<char>> },
    Subscriptions { topic_arn: Seq<char>, region: Option<Seq<char>> },
}

impl View for Fetch {
    type V = FetchV;

    open spec fn view(&self) -> FetchV {
        match *self {
            Fetch::Topics { prefix, region } => FetchV::Topics {
                prefix: text::opt_view(prefix),
                region: text::opt_view(region),
            },
            Fetch::Subscriptions { topic_arn, region } => FetchV::Subscriptions {
                topic_arn: topic_arn@,
                region: text::opt_view(region),
            },
        }
    }
}

/// What is to be loaded for `spec`.
pub open spec fn fetch_for(spec: SpecV) -> FetchV {
    if spec.kind == "topics"@ {
        FetchV::Topics { prefix: spec.prefix, region: spec.region }
    } else {
        FetchV::Subscriptions {
            topic_arn: match spec.topic_arn {
                Some(a) => a,
                None => Seq::empty(),
            },
            region: spec.region,
        }
    }
}

/// `f` asks for what `spec` lists.
pub open spec fn is_fetch(f: Fetch, spec: SpecV) -> bool {
    f@ == fetch_for(spec)
}

fn fetch_of(spec: &TabSpec) -> (r: Fetch)
    ensures
        is_fetch(r, spec@),
{
    if str_eq(spec.kind.as_str(), "topics") {
        Fetch::Topics { prefix: copy_opt(&spec.prefix), region: copy_opt(&spec.region) }
    } else {
        Fetch::Subscriptions {
            topic_arn: match &spec.topic_arn {
                Some(a) => a.clone(),
                None => String::new(),
            },
            region: copy_opt(&spec.region),
        }
    }
}

/// What is counted in the status.
pub open spec fn count_label(spec: SpecV) -> Seq<char> {
    if spec.kind == "topics"@ {
        "topics"@
    } else if spec.kind == "subscriptions"@ {
        "subscriptions"@
    } else {
        "items"@
    }
}

fn label_of(spec: &TabSpec) -> (r: &'static str)
    ensures
        r@ == count_label(spec@),
{
    if str_eq(spec.kind.as_str(), "topics") {
        "topics"
    } else if str_eq(spec.kind.as_str(), "subscriptions") {
        "subscriptions"
    } else {
        "items"
    }
}

/// The topics of a list, of which nothing but the ARN is known.
pub open spec fn topic_items(arns: Seq<String>) -> Seq<Item> {
    Seq::new(arns.len(), |i: int| Item::Topic(Topic { arn: arns[i], attributes: None }))
}

/// Topics as items of a list.
pub fn items_of_topics(arns: Vec<String>) -> (r: Vec<Item>)
    ensures
        r@ == topic_items(arns@),
{
    let mut out: Vec<Item> = Vec::new();
    let mut i: usize = 0;
    while i < arns.len()
        invariant
            i <= arns.len(),
            out@ == topic_items(arns@.take(i as int)),
        decreases arns.len() - i,
    {
        out.push(Item::Topic(Topic { arn: arns[i].clone(), attributes: None }));
        assert(out@ =~= topic_items(arns@.take(i + 1)));
        i = i + 1;
    }
    assert(arns@.take(arns@.len() as int) =~= arns@);
    out
}

/// Subscriptions as items of a list.
pub fn items_of_subscriptions(s: Vec<Subscription>) -> (r: Vec<Item>)
    ensures
        r@ == Seq::new(s@.len(), |i: int| Item::Subscription(s@[i])),
{
    let ghost all = s@;
    let mut rest = s;
    let mut out: Vec<Item> = Vec::new();
    assert(all.skip(0) =~= all);
    while rest.len() > 0
        invariant
            rest.len() <= all.len(),
            rest@ == all.skip(all.len() - rest.len()),
            out@ == Seq::new((all.len() - rest.len()) as nat, |i: int| Item::Subscription(all[i])),
        decreases rest.len(),
    {
        let ghost n = all.len() - rest.len();
        let x = rest.remove(0);
        assert(rest@ =~= all.skip(n + 1));
        out.push(Item::Subscription(x));
        assert(out@ =~= Seq::new((n + 1) as nat, |i: int| Item::Subscription(all[i])));
    }
    out
}

/// The state of the browser.
pub struct App {
    pub cfg: Config,
    pub tabs: Vec<TabState>,
    pub active_tab: usize,
    pub status: String,
    /// The test message that is being written, if one is.
    pub publish_editing: Option<String>,
}

/// Attributes that are to be read.
pub struct Wanted {
    pub index: usize,
    pub arn: String,
    pub region: Option<String>,
}

/// A `Wanted` by its contents.
pub struct WantedV {
    pub index: int,
    pub arn: Seq<char>,
    pub region: Option<Seq<char>>,
}

/// The contents of an optional `Wanted`.
pub open spec fn wanted_view(w: Option<Wanted>) -> Option<WantedV> {
    match w {
        Some(x) => Some(
            WantedV { index: x.index as int, arn: x.arn@, region: text::opt_view(x.region) },
        ),
        None => None,
    }
}

/// The attributes that are to be read for the selected topic; none for a
/// subscription, or where they have been read.
pub open spec fn attributes_due(b: BrowserV<TabSpec, Item>) -> Option<WantedV> {
    match b.list().focused() {
        Some(Item::Topic(t)) => if t.attributes is None {
            Some(
                WantedV {
                    index: b.list().selected,
                    arn: t.arn@,
                    region: b.active().spec@.region,
                },
            )
        } else {
            None
        },
        _ => None,
    }
}

/// A test message that is to be sent.
pub struct Publish {
    pub args: Vec<String>,
    pub topic_name: String,
}

/// The arguments of `aws` that send a message to a topic.
pub open spec fn publish_command(
    topic_arn: Seq<char>,
    message: Seq<char>,
    region: Option<Seq<char>>,
) -> Seq<Seq<char>> {
    seq![
        "sns"@,
        "publish"@,
        "--topic-arn"@,
        topic_arn,
        "--message"@,
        message,
        "--output"@,
        "json"@,
    ] + command::region_option(region)
}

fn publish_args(topic_arn: &str, message: &str, region: Option<&str>) -> (r: Vec<String>)
    ensures
        text::views(r@) == publish_command(topic_arn@, message@, text::opt_str_view(region)),
{
    let head = list_of(
        vec!["sns", "publish", "--topic-arn", topic_arn, "--message", message, "--output", "json"],
    );
    assert(text::views(head@) =~= seq![
        "sns"@,
        "publish"@,
        "--topic-arn"@,
        topic_arn@,
        "--message"@,
        message@,
        "--output"@,
        "json"@,
    ]);
    with_region(head, region)
}

/// The contents of a message that is to be sent: the arguments, and the name of
/// the topic.
pub open spec fn publish_view(p: Option<Publish>) -> Option<(Seq<Seq<char>>, Seq<char>)> {
    match p {
        Some(x) => Some((text::views(x.args@), x.topic_name@)),
        None => None,
    }
}

/// A topic is selected, so that a test message can be written to it.
pub open spec fn on_topic(b: BrowserV<TabSpec, Item>) -> bool {
    b.list().focused() is Some && b.list().focused()->0 is Topic
}

/// The browser once writing has begun, or was refused.
pub open spec fn publish_entered(b: BrowserV<TabSpec, Item>) -> BrowserV<TabSpec, Item> {
    match b.list().focused() {
        Some(Item::Topic(_)) => b.with_status("publish: type message, Enter to send"@),
        Some(Item::Subscription(_)) => b.with_status("publish only available on topics"@),
        None => b.with_status("no item under cursor"@),
    }
}

/// What is to be sent when writing ends: the message, unless it is empty, to
/// the selected topic.
pub open spec fn publish_due(
    b: BrowserV<TabSpec, Item>,
    message: Option<Seq<char>>,
) -> Option<(Seq<Seq<char>>, Seq<char>)> {
    match (message, b.list().focused()) {
        (Some(m), Some(Item::Topic(t))) => if m.len() == 0 {
            None
        } else {
            Some(
                (
                    publish_command(t.arn@, m, b.active().spec@.region),
                    text::after_last(t.arn@, ':'),
                ),
            )
        },
        _ => None,
    }
}

/// The browser when writing ends.
pub open spec fn publish_committed(
    b: BrowserV<TabSpec, Item>,
    message: Option<Seq<char>>,
) -> BrowserV<TabSpec, Item> {
    match message {
        None => b,
        Some(m) => if m.len() == 0 {
            b.with_status("publish cancelled (empty message)"@)
        } else {
            match b.list().focused() {
                None => b.with_status("no topic under cursor"@),
                Some(Item::Subscription(_)) => b.with_status("publish only available on topics"@),
                Some(Item::Topic(_)) => b,
            }
        },
    }
}

/// The message with one more character, while one is written.
pub open spec fn message_pushed(m: Option<Seq<char>>, c: char) -> Option<Seq<char>> {
    match m {
        Some(b) => Some(b.push(c)),
        None => None,
    }
}

/// The message without its last character, while one is written.
pub open spec fn message_popped(m: Option<Seq<char>>) -> Option<Seq<char>> {
    match m {
        Some(b) => Some(
            if b.len() > 0 {
                b.drop_last()
            } else {
                b
            },
        ),
        None => None,
    }
}

/// The status after a message was sent; `id` is the message's number where the
/// reply names it.
pub open spec fn published(topic_name: Seq<char>, id: Option<Seq<char>>) -> Seq<char> {
    match id {
        Some(i) => "published to "@ + topic_name + " · MessageId "@ + i,
        None => "published to "@ + topic_name,
    }
}

pub fn published_status(topic_name: &str, id: Option<&str>) -> (r: String)
    ensures
        r@ == published(topic_name@, text::opt_str_view(id)),
{
    match id {
        Some(i) => cat4("published to ", topic_name, " · MessageId ", i),
        None => cat2("published to ", topic_name),
    }
}

/// The status after an attempt to send a message.
pub open spec fn publish_outcome(topic_name: Seq<char>, ran: Ran) -> Seq<char> {
    match ran {
        Ran::NotStarted(e) => "publish failed (aws CLI: "@ + e@ + ")"@,
        Ran::Failed(e) => "publish failed: "@ + text::trimmed(e@),
        Ran::Done(out) => published(
            topic_name,
            match json::json_in_text(out@) {
                Some(v) => json::text_member(v, "MessageId"@),
                None => None,
            },
        ),
    }
}

/// The page of an item's topic in the console.
pub open spec fn console_url(region: Option<Seq<char>>, x: Item) -> Seq<char> {
    let r = tabs::region_in_url(region);
    let arn = match x {
        Item::Topic(t) => t.arn@,
        Item::Subscription(s) => match s.topic_arn {
            Some(a) => a@,
            None => ""@,
        },
    };
    "https://"@ + r + ".console.aws.amazon.com/sns/v3/home?region="@ + r + "#/topic/"@ + url::encoded_path(
        arn,
    )
}

/// The start of another browser, in which the user goes on to `resource`.
pub open spec fn sibling_launch(binary: Seq<char>, resource: Seq<char>) -> command::LaunchV {
    command::LaunchV {
        program: binary,
        args: Seq::empty(),
        done: "launched "@ + binary + " — navigate to "@ + resource + " (auto-scope is v0.x)"@,
        failed: "spawn "@ + binary + " failed (install it?): "@,
    }
}

fn sibling(binary: &str, resource: &str) -> (r: Launch)
    ensures
        r@ == sibling_launch(binary@, resource@),
{
    let args: Vec<String> = Vec::new();
    assert(text::views(args@) =~= Seq::empty());
    Launch {
        program: owned(binary),
        args,
        done: cat5("launched ", binary, " — navigate to ", resource, " (auto-scope is v0.x)"),
        failed: cat3("spawn ", binary, " failed (install it?): "),
    }
}

/// The browser for the endpoint of a subscription, or what the status says
/// where there is none.
pub open spec fn endpoint_launch(x: Item) -> Result<command::LaunchV, Seq<char>> {
    match x {
        Item::Topic(_) => Err("L jump is only available on subscriptions"@),
        Item::Subscription(s) => match s.endpoint {
            None => Err("subscription has no endpoint to jump to"@),
            Some(e) => {
                let protocol = match s.protocol {
                    Some(p) => p@,
                    None => ""@,
                };
                if protocol == "sqs"@ {
                    Ok(sibling_launch("mnml-aws-sqs"@, text::after_last(e@, ':')))
                } else if protocol == "lambda"@ {
                    Ok(sibling_launch("mnml-aws-lambda"@, text::after_last(e@, ':')))
                } else {
                    Err("no sibling for `"@ + protocol + "` endpoints — supported: sqs, lambda"@)
                }
            },
        },
    }
}

fn endpoint_launch_of(x: &Item) -> (r: Result<Launch, String>)
    ensures
        match (r, endpoint_launch(*x)) {
            (Ok(l), Ok(v)) => l@ == v,
            (Err(e), Err(m)) => e@ == m,
            _ => false,
        },
{
    match x {
        Item::Topic(_) => Err(owned("L jump is only available on subscriptions")),
        Item::Subscription(s) => match &s.endpoint {
            None => Err(owned("subscription has no endpoint to jump to")),
            Some(e) => {
                let protocol = match &s.protocol {
                    Some(p) => p.as_str(),
                    None => "",
                };
                if str_eq(protocol, "sqs") {
                    Ok(sibling("mnml-aws-sqs", last_piece(e.as_str(), ':')))
                } else if str_eq(protocol, "lambda") {
                    Ok(sibling("mnml-aws-lambda", last_piece(e.as_str(), ':')))
                } else {
                    Err(cat3("no sibling for `", protocol, "` endpoints — supported: sqs, lambda"))
                }
            },
        },
    }
}

/// The ARN of an item, or what the status says where it has none yet.
pub open spec fn arn_to_copy(x: Item) -> Result<Seq<char>, Seq<char>> {
    match x {
        Item::Topic(t) => Ok(t.arn@),
        Item::Subscription(s) => if sns::pending(s) {
            Err("subscription is pending — no ARN yet"@)
        } else {
            Ok(s.arn@)
        },
    }
}

/// The endpoint of a subscription, or the ARN of a topic.
pub open spec fn endpoint_to_copy(x: Item) -> Seq<char> {
    match x {
        Item::Topic(t) => t.arn@,
        Item::Subscription(s) => match s.endpoint {
            Some(e) => e@,
            None => Seq::empty(),
        },
    }
}

impl App {
    /// The settings and the test message are the same.
    pub open spec fn same_aside(self, other: App) -> bool {
        self.cfg == other.cfg && self.publish_editing == other.publish_editing
    }

    /// The tabs, the one that is shown, and the status.
    pub open spec fn browser(self) -> BrowserV<TabSpec, Item> {
        BrowserV {
            tabs: tabs::tab_views(self.tabs@),
            active_tab: self.active_tab as int,
            status: self.status@,
        }
    }

    /// One of the tabs is shown, and every tab lists something known.
    pub open spec fn wf(self) -> bool {
        &&& self.active_tab < self.tabs@.len()
        &&& forall|i: int| 0 <= i < self.tabs@.len() ==> valid_spec((#[trigger] self.tabs@[i]).spec@)
    }

    /// The browser of some settings, before anything was loaded; or the first
    /// error in the settings.
    pub fn new(cfg: Config) -> (r: Result<App, String>)
        requires
            cfg.tabs.len() > 0,
        ensures
            match r {
                Ok(app) => {
                    &&& app.wf()
                    &&& app.cfg == cfg
                    &&& app.active_tab == 0
                    &&& app.status@ == Seq::<char>::empty()
                    &&& app.publish_editing is None
                    &&& app.tabs.len() == cfg.tabs.len()
                    &&& tabs_error(cfg.tabs@, text::opt_view(cfg.region), cfg.tabs.len() as int) is None
                    &&& forall|i: int|
                        0 <= i < app.tabs.len() ==> fresh_tab(
                            #[trigger] app.tabs@[i],
                            cfg.tabs@[i],
                            text::opt_view(cfg.region),
                        )
                },
                Err(e) => tabs_error(cfg.tabs@, text::opt_view(cfg.region), cfg.tabs.len() as int) == Some(e@),
            },
    {
        match make_tabs(&cfg) {
            Ok(tabs) => {
                let app = App { cfg, tabs, active_tab: 0, status: String::new(), publish_editing: None };
                assert(forall|i: int| 0 <= i < app.tabs@.len() ==> fresh_tab(
                    #[trigger] app.tabs@[i],
                    cfg.tabs@[i],
                    text::opt_view(cfg.region),
                ) ==> valid_spec(app.tabs@[i].spec@));
                Ok(app)
            },
            Err(e) => Err(e),
        }
    }

    /// The tab that is shown.
    pub fn active(&self) -> (r: &TabState)
        requires
            self.wf(),
        ensures
            *r == self.tabs@[self.active_tab as int],
    {
        &self.tabs[self.active_tab]
    }

    /// The tab that is shown, to be changed.
    pub fn active_mut(&mut self) -> (r: &mut TabState)
        requires
            old(self).wf(),
        ensures
            *r == old(self).tabs@[old(self).active_tab as int],
            final(self).tabs@ == old(self).tabs@.update(old(self).active_tab as int, *final(r)),
            final(self).active_tab == old(self).active_tab,
            final(self).status == old(self).status,
            final(self).same_aside(*old(self)),
    {
        &mut self.tabs[self.active_tab]
    }

    /// Shows the tab `idx`, if there is one. A tab that was never loaded is to
    /// be loaded.
    pub fn switch_tab(&mut self, idx: usize) -> (r: Option<Fetch>)
        requires
            old(self).wf(),
        ensures
            final(self).wf(),
            final(self).same_aside(*old(self)),
            ({
                let b = old(self).browser().switched(idx as int);
                if old(self).browser().due_on_switch(idx as int) {
                    &&& r is Some
                    &&& final(self).browser() == b.begun()
                    &&& is_fetch(r->0, b.active().spec@)
                } else {
                    r is None && final(self).browser() == b
                }
            }),
    {
        if idx < self.tabs.len() {
            self.active_tab = idx;
            let data = &self.tabs[idx].data;
            if data.items.len() == 0 && data.last_error.is_none() {
                return Some(self.refresh_active());
            }
        }
        None
    }

    /// Moves the selection; it stops at the first and at the last row. The
    /// attributes of the topic there are to be read, if they have not been.
    pub fn move_selection(&mut self, delta: isize) -> (r: Option<Wanted>)
        requires
            old(self).wf(),
        ensures
            final(self).wf(),
            final(self).same_aside(*old(self)),
            final(self).browser() == old(self).browser().moved(delta as int),
            wanted_view(r) == attributes_due(old(self).browser().moved(delta as int)),
    {
        move_active(&mut self.tabs, self.active_tab, delta);
        proof {
            self.lemma_same_specs(*old(self));
        }
        self.ensure_focused_loaded()
    }

    /// Tabs with the same contents list the same.
    proof fn lemma_same_specs(self, before: App)
        requires
            before.wf(),
            self.active_tab == before.active_tab,
            self.tabs@.len() == before.tabs@.len(),
            forall|i: int|
                0 <= i < self.tabs@.len() ==> tabs::tab_views(self.tabs@)[i].spec == tabs::tab_views(
                    before.tabs@,
                )[i].spec,
        ensures
            self.wf(),
    {
        assert forall|i: int| 0 <= i < self.tabs@.len() implies valid_spec((#[trigger] self.tabs@[i]).spec@) by {
            assert(tabs::tab_views(self.tabs@)[i].spec == tabs::tab_views(before.tabs@)[i].spec);
            assert(valid_spec(before.tabs@[i].spec@));
        }
    }

    /// Notes that the tab that is shown is being loaded, and says what is to
    /// be loaded.
    pub fn refresh_active(&mut self) -> (r: Fetch)
        requires
            old(self).wf(),
        ensures
            final(self).wf(),
            final(self).same_aside(*old(self)),
            final(self).browser() == old(self).browser().begun(),
            is_fetch(r, old(self).browser().active().spec@),
    {
        begin_load(&mut self.tabs, self.active_tab, &mut self.status);
        proof {
            self.lemma_same_specs(*old(self));
        }
        fetch_of(&self.tabs[self.active_tab].spec)
    }

    /// Takes in what was loaded, or why nothing was.
    pub fn refresh_done(&mut self, result: Result<Vec<Item>, String>, now: u64)
        requires
            old(self).wf(),
        ensures
            final(self).wf(),
            final(self).same_aside(*old(self)),
            final(self).browser() == old(self).browser().finished(
                tabs::result_view(result),
                now,
                count_label(old(self).browser().active().spec@),
            ),
    {
        let label = label_of(&self.tabs[self.active_tab].spec);
        finish_load(&mut self.tabs, self.active_tab, &mut self.status, result, now, label);
        proof {
            self.lemma_same_specs(*old(self));
        }
    }

    /// Says what is to be loaded where the tab that is shown was last loaded
    /// too long ago.
    pub fn tick(&mut self, now: u64) -> (r: Option<Fetch>)
        requires
            old(self).wf(),
        ensures
            final(self).wf(),
            final(self).same_aside(*old(self)),
            ({
                let b = old(self).browser();
                if b.due(old(self).cfg.refresh_interval_secs, now) {
                    r is Some && final(self).browser() == b.begun() && is_fetch(r->0, b.active().spec@)
                } else {
                    r is None && final(self).browser() == b
                }
            }),
    {
        let interval: u64 = self.cfg.refresh_interval_secs;
        if interval == 0 {
            return None;
        }
        let data = &self.tabs[self.active_tab].data;
        if data.is_stale(interval, now) && !data.loading {
            Some(self.refresh_active())
        } else {
            None
        }
    }

    /// Nothing arrives in the background here.
    pub fn drain(&mut self) -> (r: bool)
        ensures
            !r,
            *final(self) == *old(self),
    {
        false
    }

    /// The selected item.
    pub fn focused_item(&self) -> (r: Option<&Item>)
        requires
            self.wf(),
        ensures
            match r {
                Some(x) => self.browser().list().focused() == Some(*x),
                None => self.browser().list().focused() is None,
            },
    {
        self.tabs[self.active_tab].data.focused()
    }

    /// Notes how opening a page went.
    pub fn opened(&mut self, url: &str, result: &Result<(), String>)
        ensures
            final(self).same_aside(*old(self)),
            final(self).browser() == old(self).browser().with_status(tabs::opened(url@, *result)),
            old(self).wf() ==> final(self).wf(),
    {
        self.status = opened_status(url, result);
    }

    /// Sets the status.
    fn say(&mut self, status: &str)
        requires
            old(self).wf(),
        ensures
            final(self).wf(),
            final(self).same_aside(*old(self)),
            final(self).browser() == old(self).browser().with_status(status@),
    {
        self.status = owned(status);
    }

    /// The selected topic, where its attributes have not been read yet.
    pub fn ensure_focused_loaded(&self) -> (r: Option<Wanted>)
        requires
            self.wf(),
        ensures
            wanted_view(r) == attributes_due(self.browser()),
    {
        let t = &self.tabs[self.active_tab];
        let i: usize = t.data.selected;
        if i >= t.data.items.len() {
            return None;
        }
        match &t.data.items[i] {
            Item::Topic(x) => {
                if x.attributes.is_some() {
                    None
                } else {
                    Some(Wanted { index: i, arn: x.arn.clone(), region: copy_opt(&t.spec.region) })
                }
            },
            Item::Subscription(_) => None,
        }
    }

    /// Takes in the attributes of the topic at row `i`, or why they were not
    /// read.
    pub fn attributes_done(&mut self, i: usize, result: Result<TopicAttributes, String>)
        requires
            old(self).wf(),
            i < old(self).browser().list().items.len(),
        ensures
            final(self).wf(),
            final(self).same_aside(*old(self)),
            ({
                let b = old(self).browser();
                final(self).browser() == (match result {
                    Ok(a) => match b.list().items[i as int] {
                        Item::Topic(t) => b.with_list(
                            b.list().with_item(
                                i as int,
                                Item::Topic((Topic { attributes: Some(a), ..t })),
                            ),
                        ),
                        Item::Subscription(_) => b,
                    },
                    Err(e) => b.with_status("attrs: "@ + e@),
                })
            }),
    {
        match result {
            Ok(a) => {
                let active: usize = self.active_tab;
                let arn = match &self.tabs[active].data.items[i] {
                    Item::Topic(t) => t.arn.clone(),
                    Item::Subscription(_) => {
                        return;
                    },
                };
                let ghost b = self.browser();
                let t = &mut self.tabs[active];
                let new = Item::Topic(Topic { arn, attributes: Some(a) });
                t.data.items.set(i, new);
                assert(self.browser() =~= b.with_list(b.list().with_item(i as int, new)));
                proof {
                    self.lemma_same_specs(*old(self));
                }
            },
            Err(e) => {
                self.status = cat2("attrs: ", e.as_str());
            },
        }
    }

    /// The page of the selected item's topic in the console.
    pub fn open_console(&mut self) -> (r: Option<String>)
        requires
            old(self).wf(),
        ensures
            final(self).wf(),
            final(self).same_aside(*old(self)),
            ({
                let b = old(self).browser();
                match b.list().focused() {
                    Some(x) => {
                        &&& final(self).browser() == b
                        &&& text::opt_view(r) == Some(console_url(b.active().spec@.region, x))
                    },
                    None => r is None && final(self).browser() == b.with_status("no item under cursor"@),
                }
            }),
    {
        let path = match self.focused_item() {
            Some(x) => match x {
                Item::Topic(t) => urlencode_path(t.arn.as_str()),
                Item::Subscription(s) => match &s.topic_arn {
                    Some(a) => urlencode_path(a.as_str()),
                    None => urlencode_path(""),
                },
            },
            None => {
                self.say("no item under cursor");
                return None;
            },
        };
        let region = url_region(&self.tabs[self.active_tab].spec.region);
        Some(
            cat6(
                "https://",
                region,
                ".console.aws.amazon.com/sns/v3/home?region=",
                region,
                "#/topic/",
                path.as_str(),
            ),
        )
    }

    /// The ARN of the selected item, to be copied.
    pub fn yank_arn(&mut self) -> (r: Option<String>)
        requires
            old(self).wf(),
        ensures
            final(self).wf(),
            final(self).same_aside(*old(self)),
            ({
                let b = old(self).browser();
                match b.list().focused() {
                    Some(x) => match arn_to_copy(x) {
                        Ok(a) => final(self).browser() == b && text::opt_view(r) == Some(a),
                        Err(m) => r is None && final(self).browser() == b.with_status(m),
                    },
                    None => r is None && final(self).browser() == b.with_status("no item under cursor"@),
                }
            }),
    {
        let arn = match self.focused_item() {
            Some(x) => match x {
                Item::Topic(t) => Some(t.arn.clone()),
                Item::Subscription(s) => {
                    if s.is_pending_confirmation() {
                        None
                    } else {
                        Some(s.arn.clone())
                    }
                },
            },
            None => {
                self.say("no item under cursor");
                return None;
            },
        };
        if arn.is_none() {
            self.say("subscription is pending — no ARN yet");
        }
        arn
    }

    /// Notes how copying an ARN went.
    pub fn arn_copied(&mut self, arn: &str, result: &Result<(), String>)
        ensures
            final(self).same_aside(*old(self)),
            final(self).browser() == old(self).browser().with_status(
                tabs::copied("copied ARN: "@ + arn@, *result),
            ),
            old(self).wf() ==> final(self).wf(),
    {
        let done = cat2("copied ARN: ", arn);
        self.status = copied_status(done.as_str(), result);
    }

    /// Begins to write a test message to the selected topic.
    pub fn enter_publish_mode(&mut self)
        requires
            old(self).wf(),
        ensures
            final(self).wf(),
            final(self).cfg == old(self).cfg,
            final(self).browser() == publish_entered(old(self).browser()),
            on_topic(old(self).browser()) ==> text::opt_view(final(self).publish_editing) == Some(
                Seq::<char>::empty(),
            ),
            !on_topic(old(self).browser()) ==> final(self).publish_editing == old(self).publish_editing,
    {
        let topic = match self.focused_item() {
            Some(x) => match x {
                Item::Topic(_) => true,
                Item::Subscription(_) => false,
            },
            None => {
                self.say("no item under cursor");
                return;
            },
        };
        if topic {
            self.publish_editing = Some(String::new());
            self.status = owned("publish: type message, Enter to send");
        } else {
            self.say("publish only available on topics");
        }
    }

    /// Appends a character to the test message, if one is being written.
    pub fn publish_input_char(&mut self, c: char)
        ensures
            final(self).cfg == old(self).cfg,
            final(self).browser() == old(self).browser(),
            old(self).wf() ==> final(self).wf(),
            text::opt_view(final(self).publish_editing) == message_pushed(
                text::opt_view(old(self).publish_editing),
                c,
            ),
    {
        if let Some(b) = self.publish_editing.take() {
            let mut b = b;
            b.push(c);
            self.publish_editing = Some(b);
        }
    }

    /// Takes the last character of the test message away, if there is one.
    pub fn publish_input_backspace(&mut self)
        ensures
            final(self).cfg == old(self).cfg,
            final(self).browser() == old(self).browser(),
            old(self).wf() ==> final(self).wf(),
            text::opt_view(final(self).publish_editing) == message_popped(
                text::opt_view(old(self).publish_editing),
            ),
    {
        if let Some(b) = self.publish_editing.take() {
            let v = chars_of(b.as_str());
            if v.len() > 0 {
                let shorter = string_of(&v, 0, v.len() - 1);
                assert(shorter@ =~= b@.drop_last());
                self.publish_editing = Some(shorter);
            } else {
                self.publish_editing = Some(b);
            }
        }
    }

    /// Ends writing and says what is to be sent. An empty message is not sent.
    pub fn publish_commit(&mut self) -> (r: Option<Publish>)
        requires
            old(self).wf(),
        ensures
            final(self).wf(),
            final(self).cfg == old(self).cfg,
            final(self).publish_editing is None,
            final(self).browser() == publish_committed(
                old(self).browser(),
                text::opt_view(old(self).publish_editing),
            ),
            publish_view(r) == publish_due(
                old(self).browser(),
                text::opt_view(old(self).publish_editing),
            ),
    {
        let message = match self.publish_editing.take() {
            Some(m) => m,
            None => {
                return None;
            },
        };
        if message.as_str().is_empty() {
            self.status = owned("publish cancelled (empty message)");
            return None;
        }
        let arn = match self.focused_item() {
            Some(x) => match x {
                Item::Topic(t) => Some(t.arn.clone()),
                Item::Subscription(_) => None,
            },
            None => {
                self.status = owned("no topic under cursor");
                return None;
            },
        };
        match arn {
            Some(a) => {
                let region = as_slice(&self.tabs[self.active_tab].spec.region);
                Some(
                    Publish {
                        args: publish_args(a.as_str(), message.as_str(), region),
                        topic_name: owned(last_piece(a.as_str(), ':')),
                    },
                )
            },
            None => {
                self.status = owned("publish only available on topics");
                None
            },
        }
    }

    /// Notes how sending a message went.
    pub fn publish_done(&mut self, topic_name: &str, ran: &Ran)
        ensures
            final(self).same_aside(*old(self)),
            final(self).browser() == old(self).browser().with_status(publish_outcome(topic_name@, *ran)),
            old(self).wf() ==> final(self).wf(),
    {
        self.status = match ran {
            Ran::NotStarted(e) => cat3("publish failed (aws CLI: ", e.as_str(), ")"),
            Ran::Failed(e) => cat2("publish failed: ", trim(e.as_str())),
            Ran::Done(out) => {
                let id = match parse_json(out.as_str()) {
                    Some(v) => v.text_at("MessageId"),
                    None => None,
                };
                published_status(topic_name, as_slice(&id))
            },
        };
    }

    /// Ends writing without sending.
    pub fn publish_cancel(&mut self)
        ensures
            final(self).cfg == old(self).cfg,
            final(self).publish_editing is None,
            final(self).browser() == (if old(self).publish_editing is Some {
                old(self).browser().with_status("publish cancelled"@)
            } else {
                old(self).browser()
            }),
            old(self).wf() ==> final(self).wf(),
    {
        if self.publish_editing.is_some() {
            self.publish_editing = None;
            self.status = owned("publish cancelled");
        }
    }

    /// The browser for the selected subscription's endpoint.
    pub fn handoff_endpoint(&mut self) -> (r: Option<Launch>)
        requires
            old(self).wf(),
        ensures
            final(self).wf(),
            final(self).same_aside(*old(self)),
            ({
                let b = old(self).browser();
                match b.list().focused() {
                    Some(x) => match endpoint_launch(x) {
                        Ok(l) => final(self).browser() == b && command::opt_launch(r) == Some(l),
                        Err(m) => r is None && final(self).browser() == b.with_status(m),
                    },
                    None => r is None && final(self).browser() == b.with_status("no item under cursor"@),
                }
            }),
    {
        let result = match self.focused_item() {
            Some(x) => endpoint_launch_of(x),
            None => {
                self.say("no item under cursor");
                return None;
            },
        };
        match result {
            Ok(l) => Some(l),
            Err(m) => {
                self.status = m;
                None
            },
        }
    }

    /// Notes how starting another program went.
    pub fn launched(&mut self, l: &Launch, result: &Result<(), String>)
        ensures
            final(self).same_aside(*old(self)),
            final(self).browser() == old(self).browser().with_status(command::launch_status(l@, *result)),
            old(self).wf() ==> final(self).wf(),
    {
        self.status = launched_status(l, result);
    }

    /// The endpoint of the selected subscription, or the ARN of the selected
    /// topic, to be copied.
    pub fn yank_endpoint(&mut self) -> (r: Option<String>)
        requires
            old(self).wf(),
        ensures
            final(self).wf(),
            final(self).same_aside(*old(self)),
            ({
                let b = old(self).browser();
                match b.list().focused() {
                    Some(x) => if endpoint_to_copy(x).len() == 0 {
                        r is None && final(self).browser() == b.with_status("no endpoint to copy"@)
                    } else {
                        final(self).browser() == b && text::opt_view(r) == Some(endpoint_to_copy(x))
                    },
                    None => r is None && final(self).browser() == b.with_status("no item under cursor"@),
                }
            }),
    {
        let payload = match self.focused_item() {
            Some(x) => match x {
                Item::Topic(t) => t.arn.clone(),
                Item::Subscription(s) => match &s.endpoint {
                    Some(e) => e.clone(),
                    None => String::new(),
                },
            },
            None => {
                self.say("no item under cursor");
                return None;
            },
        };
        if payload.as_str().is_empty() {
            self.say("no endpoint to copy");
            None
        } else {
            Some(payload)
        }
    }

    /// Notes how copying an endpoint went.
    pub fn endpoint_copied(&mut self, endpoint: &str, result: &Result<(), String>)
        ensures
            final(self).same_aside(*old(self)),
            final(self).browser() == old(self).browser().with_status(
                tabs::copied("copied endpoint: "@ + endpoint@, *result),
            ),
            old(self).wf() ==> final(self).wf(),
    {
        let done = cat2("copied endpoint: ", endpoint);
        self.status = copied_status(done.as_str(), result);
    }
}

} // verus!
