//! What holds of the topics browser: what is told of topics and subscriptions, how a
//! message is published, and what the browser does.

use vstd::prelude::*;

use crate::command::{Launch, Ran};
use crate::json;
use crate::json::JsonV;
use crate::keys::Key;
use crate::numeral;
use crate::order;
use crate::screen;
use crate::screen::{Color, Line, Style};
use crate::sns::app;
use crate::sns::app::{App, Fetch, Item, Publish, SpecV, TabSpec, TabState, Wanted};
use crate::sns::config;
use crate::sns::config::{Config, Tab};
use crate::sns::keys;
use crate::sns::keys::Action;
use crate::sns::sns;
use crate::sns::sns::{Subscription, Topic, TopicAttributes};
use crate::sns::ui;
use crate::tabs;
use crate::tabs::Pane;
use crate::text;

verus! {

/// The label of a topic counts its subscriptions, those that wait to be confirmed only
/// where there are any, and marks a topic that keeps the order.
pub proof fn law_label_of_a_topic(t: &Topic, confirmed: nat, waiting: nat, r: String)
    requires
        call_ensures(Topic::secondary_label, (t,), r),
        t.attributes is Some,
        t.attributes->0.attr("SubscriptionsConfirmed"@) == Some(numeral::decimal(confirmed)),
        t.attributes->0.attr("SubscriptionsPending"@) == Some(numeral::decimal(waiting)),
        confirmed <= u64::MAX,
        waiting <= u64::MAX,
    ensures
        waiting == 0 && !text::has_suffix(t.arn@, ".fifo"@) && t.attributes->0.attr("FifoTopic"@) is None ==> r@
            == numeral::decimal(confirmed) + " sub"@,
        waiting > 0 && !text::has_suffix(t.arn@, ".fifo"@) && t.attributes->0.attr("FifoTopic"@) is None ==> r@
            == numeral::decimal(confirmed) + " sub · "@ + numeral::decimal(waiting) + " pending"@,
        waiting == 0 && text::has_suffix(t.arn@, ".fifo"@) ==> r@ == numeral::decimal(confirmed) + " sub"@ + " · FIFO"@,
{
    reveal_strlit("");
    numeral::law_reading_keeps_the_bound(confirmed, u64::MAX as nat);
    numeral::law_reading_keeps_the_bound(waiting, u64::MAX as nat);
    let a = numeral::decimal(confirmed) + " sub"@;
    assert(a + ""@ =~= a);
    let b = numeral::decimal(confirmed) + " sub · "@ + numeral::decimal(waiting) + " pending"@;
    assert(b + ""@ =~= b);
}

/// A topic has the name behind the last colon of its ARN, and keeps the order where its
/// ARN or its attributes say so.
pub proof fn law_names_of_topics(t: &Topic, arn: &str, name: &str, n: &str, fifo: bool, r: String)
    requires
        call_ensures(Topic::name, (t,), name),
        call_ensures(sns::topic_name_from_arn, (arn,), n),
        call_ensures(Topic::is_fifo, (t,), fifo),
        call_ensures(Topic::secondary_label, (t,), r),
    ensures
        name@ == text::after_last(t.arn@, ':'),
        n@ == text::after_last(arn@, ':'),
        text::has_suffix(t.arn@, ".fifo"@) ==> fifo,
        t.attributes is Some && t.attributes->0.attr("FifoTopic"@) == Some("true"@) ==> fifo,
        t.attributes is None ==> fifo == text::has_suffix(t.arn@, ".fifo"@) && r@ == "(attrs not loaded)"@,
{
}

/// Each attribute of a topic is read under its name.
pub proof fn law_attributes_of_a_topic(
    a: &TopicAttributes,
    n: nat,
    name: Option<&str>,
    owner: Option<&str>,
    confirmed: Option<u64>,
    waiting: Option<u64>,
    deleted: Option<u64>,
    key: Option<&str>,
    version: Option<&str>,
    policy: Option<&str>,
)
    requires
        n <= u64::MAX,
        call_ensures(TopicAttributes::display_name, (a,), name),
        call_ensures(TopicAttributes::owner, (a,), owner),
        call_ensures(TopicAttributes::subscriptions_confirmed, (a,), confirmed),
        call_ensures(TopicAttributes::subscriptions_pending, (a,), waiting),
        call_ensures(TopicAttributes::subscriptions_deleted, (a,), deleted),
        call_ensures(TopicAttributes::kms_master_key_id, (a,), key),
        call_ensures(TopicAttributes::signature_version, (a,), version),
        call_ensures(TopicAttributes::delivery_policy, (a,), policy),
    ensures
        text::opt_str_view(name) == a.attr("DisplayName"@),
        text::opt_str_view(owner) == a.attr("Owner"@),
        a.attr("SubscriptionsConfirmed"@) == Some(numeral::decimal(n)) ==> confirmed == Some(n as u64),
        a.attr("SubscriptionsPending"@) == Some(numeral::decimal(n)) ==> waiting == Some(n as u64),
        a.attr("SubscriptionsDeleted"@) == Some(numeral::decimal(n)) ==> deleted == Some(n as u64),
        text::opt_str_view(key) == a.attr("KmsMasterKeyId"@),
        text::opt_str_view(version) == a.attr("SignatureVersion"@),
        text::opt_str_view(policy) == a.attr("DeliveryPolicy"@),
        forall|k: Seq<char>| #[trigger] a.raw@.dom().contains(k) ==> a.attr(k) == Some(a.raw@[k]@),
        forall|k: Seq<char>| !#[trigger] a.raw@.dom().contains(k) ==> a.attr(k) is None,
{
    numeral::law_reading_keeps_the_bound(n, u64::MAX as nat);
}

/// A subscription waits to be confirmed while it has no ARN of its own; its endpoint is
/// shown without what stands in front of the last colon of an ARN.
pub proof fn law_subscriptions(s: &Subscription, waits: bool, e: &str)
    requires
        call_ensures(Subscription::is_pending_confirmation, (s,), waits),
        call_ensures(Subscription::endpoint_short, (s,), e),
    ensures
        waits <==> s.arn@ == "PendingConfirmation"@ || s.arn@.len() == 0,
        s.endpoint is None ==> e@ == "—"@,
        s.endpoint is Some && text::has_prefix(s.endpoint->0@, "arn:"@) ==> e@ == text::after_last(s.endpoint->0@, ':'),
        s.endpoint is Some && !text::has_prefix(s.endpoint->0@, "arn:"@) ==> e@ == s.endpoint->0@,
{
}

/// In the list a topic has its name and its label; a subscription has its protocol and
/// its endpoint, with a mark where it waits to be confirmed.
pub proof fn law_labels_in_the_list(x: &Item, name: String, label: String)
    requires
        call_ensures(Item::primary_label, (x,), name),
        call_ensures(Item::secondary_label, (x,), label),
    ensures
        x is Topic ==> name@ == text::after_last(x->Topic_0.arn@, ':') && label@ == sns::topic_label(x->Topic_0),
        x is Subscription ==> ({
            let s = x->Subscription_0;
            &&& s.protocol is Some ==> name@ == s.protocol->0@
            &&& s.protocol is None ==> name@ == "—"@
            &&& s.arn@.len() == 0 || s.arn@ == "PendingConfirmation"@ ==> label@ == sns::short_endpoint(s)
                + "  ⚠ pending confirmation"@
            &&& s.arn@.len() > 0 && s.arn@ != "PendingConfirmation"@ ==> label@ == sns::short_endpoint(s)
        }),
{
}

proof fn lemma_scoped(arns: Seq<String>, prefix: Option<Seq<char>>, x: String)
    ensures
        sns::scoped(arns, prefix).contains(x) <==> arns.contains(x) && sns::in_scope(x@, prefix),
    decreases arns.len(),
{
    if arns.len() > 0 {
        let t = arns.drop_last();
        lemma_scoped(t, prefix, x);
        assert(arns =~= t.push(arns.last()));
        lemma_pushed(t, arns.last(), x);
        lemma_pushed(sns::scoped(t, prefix), arns.last(), x);
    }
}

proof fn lemma_pushed(s: Seq<String>, y: String, x: String)
    ensures
        s.push(y).contains(x) <==> s.contains(x) || x == y,
{
    let p = s.push(y);
    assert(p[s.len() as int] == y);
    if s.contains(x) {
        let k = choose|k: int| 0 <= k < s.len() && s[k] == x;
        assert(p[k] == x);
    }
    if p.contains(x) && x != y {
        let k = choose|k: int| 0 <= k < p.len() && p[k] == x;
        assert(s[k] == x);
    }
}

/// The topics of a tab are those whose names begin with its prefix, in the order of
/// their names.
pub proof fn law_topics_of_a_tab(
    arns: Vec<String>,
    prefix: &str,
    r: Vec<String>,
    all: Vec<String>,
    x: String,
    i: int,
    j: int,
)
    requires
        call_ensures(sns::arrange_topics, (arns, Some(prefix)), r),
        call_ensures(sns::arrange_topics, (arns, None::<&str>), all),
    ensures
        r@.contains(x) <==> arns@.contains(x) && text::has_prefix(text::after_last(x@, ':'), prefix@),
        all@.contains(x) <==> arns@.contains(x),
        0 <= i < j < r@.len() ==> !text::before(
            text::lowercased(text::after_last(r@[j]@, ':')),
            text::lowercased(text::after_last(r@[i]@, ':')),
        ),
{
    let less = |a: String, b: String| order::lower_before(text::after_last(a@, ':'), text::after_last(b@, ':'));
    order::lemma_key_orders(less, |a: String| text::lowercased(text::after_last(a@, ':')));
    let s = sns::scoped(arns@, Some(prefix@));
    let t = sns::scoped(arns@, None);
    order::law_sorted(s, less);
    order::law_sorted(t, less);
    lemma_scoped(arns@, Some(prefix@), x);
    lemma_scoped(arns@, None, x);
    vstd::seq_lib::to_multiset_contains(s, x);
    vstd::seq_lib::to_multiset_contains(r@, x);
    vstd::seq_lib::to_multiset_contains(t, x);
    vstd::seq_lib::to_multiset_contains(all@, x);
    if 0 <= i < j < r@.len() {
        assert(!less(r@[j], r@[i]));
    }
}

/// Topics become the items of the list without attributes, and subscriptions as they
/// are.
pub proof fn law_items_of_the_list(
    arns: Vec<String>,
    r: Vec<Item>,
    s: Vec<Subscription>,
    q: Vec<Item>,
    i: int,
)
    requires
        call_ensures(app::items_of_topics, (arns,), r),
        call_ensures(app::items_of_subscriptions, (s,), q),
    ensures
        r@.len() == arns@.len(),
        q@.len() == s@.len(),
        0 <= i < r@.len() ==> r@[i] == Item::Topic(Topic { arn: arns@[i], attributes: None }),
        0 <= i < q@.len() ==> q@[i] == Item::Subscription(s@[i]),
{
}

/// Which of two subscriptions is listed first: that of the lower protocol, and of one
/// protocol that of the lower endpoint.
pub proof fn law_order_of_subscriptions(a: Subscription, b: Subscription)
    requires
        a.protocol is Some && b.protocol is Some,
        a.endpoint is Some && b.endpoint is Some,
    ensures
        text::before(a.protocol->0@, b.protocol->0@) ==> sns::subscription_before(a, b),
        a.protocol->0@ == b.protocol->0@ && text::before(a.endpoint->0@, b.endpoint->0@) ==> sns::subscription_before(
            a,
            b,
        ),
        text::before(b.protocol->0@, a.protocol->0@) && !text::before(a.protocol->0@, b.protocol->0@)
            ==> !sns::subscription_before(a, b),
{
    text::lemma_before_irreflexive(a.protocol->0@);
}

/// Subscriptions are sorted in that order.
pub proof fn law_subscriptions_are_sorted(s: Vec<Subscription>, r: Vec<Subscription>)
    requires
        call_ensures(sns::sort_subscriptions, (s,), r),
    ensures
        r@ == order::sorted(s@, |a: Subscription, b: Subscription| sns::subscription_before(a, b)),
{
}

/// The command lines of this browser.
pub proof fn law_command_lines(
    arn: &str,
    region: &str,
    token: &str,
    a: Vec<String>,
    b: Vec<String>,
    c: Vec<String>,
)
    requires
        call_ensures(sns::list_topics_args, (Some(region), Some(token)), a),
        call_ensures(sns::get_topic_attributes_args, (arn, Some(region)), b),
        call_ensures(sns::list_subscriptions_args, (arn, Some(region), Some(token)), c),
    ensures
        text::views(a@) =~= seq![
            "sns"@,
            "list-topics"@,
            "--output"@,
            "json"@,
            "--region"@,
            region@,
            "--next-token"@,
            token@,
        ],
        text::views(b@) =~= seq![
            "sns"@,
            "get-topic-attributes"@,
            "--topic-arn"@,
            arn@,
            "--output"@,
            "json"@,
            "--region"@,
            region@,
        ],
        text::views(c@) =~= seq![
            "sns"@,
            "list-subscriptions-by-topic"@,
            "--topic-arn"@,
            arn@,
            "--output"@,
            "json"@,
            "--region"@,
            region@,
            "--next-token"@,
            token@,
        ],
{
}

/// A message that is committed is published to the topic under the cursor, word for
/// word; an empty one is not.
pub proof fn law_message_is_published(a: &mut App, m: String, region: Seq<char>, r: Option<Publish>)
    requires
        old(a).wf(),
        call_ensures(App::publish_commit, (a,), r),
        old(a).publish_editing == Some(m),
        old(a).browser().list().focused() is Some,
        old(a).browser().list().focused()->0 is Topic,
        old(a).browser().active().spec@.region == Some(region),
    ensures
        final(a).publish_editing is None,
        m@.len() == 0 ==> r is None && final(a).status@ == "publish cancelled (empty message)"@,
        m@.len() > 0 ==> ({
            let arn = old(a).browser().list().focused()->0->Topic_0.arn@;
            &&& r is Some
            &&& r->0.topic_name@ == text::after_last(arn, ':')
            &&& text::views(r->0.args@) =~= seq![
                "sns"@,
                "publish"@,
                "--topic-arn"@,
                arn,
                "--message"@,
                m@,
                "--output"@,
                "json"@,
                "--region"@,
                region,
            ]
        }),
{
    assert(final(a).browser().status == final(a).status@);
    if r is Some {
        assert(app::publish_view(r) == Some((text::views(r->0.args@), r->0.topic_name@)));
    }
}

/// To a subscription nothing is published, nor where no message is written.
pub proof fn law_only_topics_are_published_to(a: &mut App, r: Option<Publish>)
    requires
        old(a).wf(),
        call_ensures(App::publish_commit, (a,), r),
        old(a).publish_editing is None || old(a).browser().list().focused() is None
            || old(a).browser().list().focused()->0 is Subscription,
    ensures
        r is None,
        final(a).publish_editing is None,
{
}

/// A message is written from nothing, on a topic only; a character joins its end, and
/// the key for it takes the last one away.
pub proof fn law_writing_a_message(a: &mut App, b: &mut App, ch: char, c: &mut App, d: &mut App)
    requires
        old(a).wf(),
        call_ensures(App::enter_publish_mode, (a,), ()),
        call_ensures(App::publish_input_char, (b, ch), ()),
        call_ensures(App::publish_input_backspace, (c,), ()),
        call_ensures(App::publish_cancel, (d,), ()),
    ensures
        old(a).browser().list().focused() is Some && old(a).browser().list().focused()->0 is Topic ==> final(a).publish_editing is Some && final(a).publish_editing->0@.len() == 0,
        old(a).browser().list().focused() is Some && old(a).browser().list().focused()->0 is Subscription ==> final(a).publish_editing == old(a).publish_editing,
        old(b).publish_editing is Some ==> final(b).publish_editing is Some && final(b).publish_editing->0@
            == old(b).publish_editing->0@.push(ch),
        old(b).publish_editing is None ==> final(b).publish_editing is None,
        old(c).publish_editing is Some && old(c).publish_editing->0@.len() > 0 ==> final(c).publish_editing is Some
            && final(c).publish_editing->0@ == old(c).publish_editing->0@.drop_last(),
        final(d).publish_editing is None,
        old(d).publish_editing is Some ==> final(d).status@ == "publish cancelled"@,
{
    assert(final(d).browser().status == final(d).status@);
}

/// What came of a message is told with the topic and, where one is given, its id.
pub proof fn law_outcome_of_a_message(a: &mut App, topic: &str, ran: &Ran, out: String, v: JsonV, e: String)
    requires
        call_ensures(App::publish_done, (a, topic, ran), ()),
    ensures
        *ran == Ran::Failed(e) ==> final(a).status@ == "publish failed: "@ + text::trimmed(e@),
        *ran == Ran::NotStarted(e) ==> final(a).status@ == "publish failed (aws CLI: "@ + e@ + ")"@,
        *ran == Ran::Done(out) && json::json_in_text(out@) == Some(v) && json::text_member(v, "MessageId"@) is Some
            ==> final(a).status@ == "published to "@ + topic@ + " · MessageId "@ + json::text_member(
            v,
            "MessageId"@,
        )->0,
        *ran == Ran::Done(out) && json::json_in_text(out@) is None ==> final(a).status@ == "published to "@ + topic@,
{
    assert(final(a).browser().status == final(a).status@);
}

/// From a subscription the browser of its protocol is started: for a queue or for a
/// function; for others there is none.
pub proof fn law_endpoint_is_shown(a: &mut App, r: Option<Launch>)
    requires
        old(a).wf(),
        call_ensures(App::handoff_endpoint, (a,), r),
        old(a).browser().list().focused() is Some,
    ensures
        ({
            let x = old(a).browser().list().focused()->0;
            let s = x->Subscription_0;
            &&& x is Topic ==> r is None
            &&& x is Subscription && s.endpoint is None ==> r is None
            &&& x is Subscription && s.endpoint is Some && s.protocol is Some && s.protocol->0@ == "sqs"@ ==> r is Some
                && r->0.program@ == "mnml-aws-sqs"@
            &&& x is Subscription && s.endpoint is Some && s.protocol is Some && s.protocol->0@ == "lambda"@ ==> r
                is Some && r->0.program@ == "mnml-aws-lambda"@
            &&& x is Subscription && s.endpoint is Some && s.protocol is Some && s.protocol->0@ == "email"@ ==> r
                is None
        }),
{
    reveal_strlit("sqs");
    reveal_strlit("lambda");
    reveal_strlit("email");
    assert("sqs"@[0] == 's' && "lambda"@[0] == 'l' && "email"@[0] == 'e');
    if r is Some {
        assert(r->0@.program == r->0.program@);
    }
}

/// What is copied: the ARN of a topic or of a confirmed subscription, and the endpoint
/// of a subscription.
pub proof fn law_what_is_copied(a: &mut App, b: &mut App, r: Option<String>, s: Option<String>)
    requires
        old(a).wf(),
        old(b).wf(),
        call_ensures(App::yank_arn, (a,), r),
        call_ensures(App::yank_endpoint, (b,), s),
        old(a).browser().list().focused() is Some,
        old(b).browser().list().focused() is Some,
    ensures
        ({
            let x = old(a).browser().list().focused()->0;
            let t = x->Subscription_0;
            &&& x is Topic ==> r is Some && r->0@ == x->Topic_0.arn@
            &&& x is Subscription && (t.arn@ == "PendingConfirmation"@ || t.arn@.len() == 0) ==> r is None
            &&& x is Subscription && t.arn@ != "PendingConfirmation"@ && t.arn@.len() > 0 ==> r is Some && r->0@ == t.arn@
        }),
        ({
            let x = old(b).browser().list().focused()->0;
            let t = x->Subscription_0;
            &&& x is Topic && x->Topic_0.arn@.len() > 0 ==> s is Some && s->0@ == x->Topic_0.arn@
            &&& x is Subscription && t.endpoint is Some && t.endpoint->0@.len() > 0 ==> s is Some && s->0@
                == t.endpoint->0@
            &&& x is Subscription && t.endpoint is None ==> s is None
        }),
{
}

/// The page that is opened is that of the topic.
pub proof fn law_page_that_is_opened(a: &mut App, region: Seq<char>, r: Option<String>)
    requires
        old(a).wf(),
        call_ensures(App::open_console, (a,), r),
        old(a).browser().active().spec@.region == Some(region),
        old(a).browser().list().focused() is Some,
    ensures
        ({
            let x = old(a).browser().list().focused()->0;
            let head = "https://"@ + region + ".console.aws.amazon.com/sns/v3/home?region="@ + region + "#/topic/"@;
            &&& r is Some
            &&& x is Topic ==> r->0@ == head + crate::url::encoded_path(x->Topic_0.arn@)
            &&& x is Subscription && x->Subscription_0.topic_arn is Some ==> r->0@ == head + crate::url::encoded_path(
                x->Subscription_0.topic_arn->0@,
            )
        }),
{
}

/// The attributes of the topic under the cursor are asked for where it has none.
pub proof fn law_attributes_are_asked_for(a: &App, r: Option<Wanted>)
    requires
        a.wf(),
        call_ensures(App::ensure_focused_loaded, (a,), r),
        a.browser().list().focused() is Some,
    ensures
        ({
            let x = a.browser().list().focused()->0;
            &&& x is Subscription ==> r is None
            &&& x is Topic && x->Topic_0.attributes is Some ==> r is None
            &&& x is Topic && x->Topic_0.attributes is None ==> r is Some && r->0.arn@ == x->Topic_0.arn@ && r->0.index
                == a.browser().list().selected && text::opt_view(r->0.region) == a.browser().active().spec@.region
        }),
{
}

/// Attributes that were read belong to the topic they were asked for, and no other item
/// changes; an error is told.
pub proof fn law_attributes_arrive(
    a: &mut App,
    b: &mut App,
    i: usize,
    attributes: TopicAttributes,
    e: String,
)
    requires
        old(a).wf(),
        old(b).wf(),
        i < old(a).browser().list().items.len(),
        i < old(b).browser().list().items.len(),
        old(a).browser().list().items[i as int] is Topic,
        call_ensures(App::attributes_done, (a, i, Ok::<TopicAttributes, String>(attributes)), ()),
        call_ensures(App::attributes_done, (b, i, Err::<TopicAttributes, String>(e)), ()),
    ensures
        ({
            let s = old(a).browser().list().items;
            let r = final(a).browser().list().items;
            &&& r.len() == s.len()
            &&& r[i as int] is Topic && r[i as int]->Topic_0.attributes == Some(attributes)
            &&& r[i as int]->Topic_0.arn == s[i as int]->Topic_0.arn
            &&& forall|j: int| 0 <= j < s.len() && j != i ==> r[j] == #[trigger] s[j]
        }),
        final(b).browser().list().items == old(b).browser().list().items,
        final(b).status@ == "attrs: "@ + e@,
{
    assert(final(b).browser().status == final(b).status@);
}

/// A topic or a subscription that waits for a confirmation stands out.
pub proof fn law_colours(x: &Item, n: nat, r: Style)
    requires
        call_ensures(ui::state_color_for, (x,), r),
        n <= u64::MAX,
    ensures
        x is Subscription && (x->Subscription_0.arn@ == "PendingConfirmation"@ || x->Subscription_0.arn@.len() == 0)
            ==> r.fg == Color::Yellow,
        x is Subscription && x->Subscription_0.arn@ != "PendingConfirmation"@ && x->Subscription_0.arn@.len() > 0
            ==> r.fg == Color::Gray,
        x is Topic && x->Topic_0.attributes is None ==> r.fg == Color::DarkGray,
        x is Topic && x->Topic_0.attributes is Some && x->Topic_0.attributes->0.attr("SubscriptionsPending"@) == Some(
            numeral::decimal(n),
        ) ==> r.fg == (if n > 0 {
            Color::Yellow
        } else {
            Color::Gray
        }),
{
    numeral::law_reading_keeps_the_bound(n, u64::MAX as nat);
}

/// The details of a subscription: its protocol, its endpoint and whether it is
/// confirmed.
pub proof fn law_details_of_a_subscription(x: &Item, s: Subscription, r: Vec<Line>)
    requires
        call_ensures(ui::draw_detail, (Some(x),), r),
        *x == Item::Subscription(s),
        s.protocol is Some,
        s.endpoint is Some,
    ensures
        ({
            let d = screen::drawn(r@);
            &&& d.len() >= 3
            &&& d[0] == tabs::detail_row("Protocol"@, 18, s.protocol->0@)
            &&& d[1] == tabs::detail_row("Endpoint"@, 18, s.endpoint->0@)
            &&& s.arn@ == "PendingConfirmation"@ ==> d[2] == tabs::detail_row("Status"@, 18, "Pending confirmation"@)
            &&& s.arn@ != "PendingConfirmation"@ && s.arn@.len() > 0 ==> d[2] == tabs::detail_row(
                "Status"@,
                18,
                "Confirmed"@,
            )
        }),
{
}

/// The details of a topic begin with its name and its type.
pub proof fn law_details_of_a_topic(x: &Item, t: Topic, r: Vec<Line>)
    requires
        call_ensures(ui::draw_detail, (Some(x),), r),
        *x == Item::Topic(t),
    ensures
        ({
            let d = screen::drawn(r@);
            &&& d.len() >= 4
            &&& d[0] == tabs::detail_row("Name"@, 18, text::after_last(t.arn@, ':'))
            &&& text::has_suffix(t.arn@, ".fifo"@) ==> d[1] == tabs::detail_row("Type"@, 18, "FIFO"@)
            &&& t.attributes is None && !text::has_suffix(t.arn@, ".fifo"@) ==> d[1] == tabs::detail_row(
                "Type"@,
                18,
                "Standard"@,
            )
            &&& t.attributes is Some ==> d[d.len() - 1][0].0 == " "@ + t.arn@
        }),
{
}

/// A tab lists topics or the subscriptions of one; of another kind there is none.
pub proof fn law_tabs_of_the_settings(t: &Tab, region: Option<&str>, r: Result<TabSpec, String>)
    requires
        call_ensures(TabSpec::resolve, (t, region), r),
    ensures
        t.kind@ == "topics"@ ==> r is Ok && r->Ok_0.kind@ == "topics"@ && text::opt_view(r->Ok_0.prefix)
            == text::opt_view(t.prefix),
        t.kind@ == "subscriptions"@ && t.topic_arn is Some && text::trimmed(t.topic_arn->0@).len() > 0 ==> r is Ok
            && r->Ok_0.kind@ == "subscriptions"@ && text::opt_view(r->Ok_0.topic_arn) == Some(t.topic_arn->0@),
        t.kind@ == "subscriptions"@ && t.topic_arn is None ==> r is Err,
        t.kind@ != "topics"@ && t.kind@ != "subscriptions"@ ==> r is Err,
        r is Ok && t.region is Some ==> text::opt_view(r->Ok_0.region) == Some(t.region->0@),
        r is Ok && t.region is None ==> text::opt_view(r->Ok_0.region) == text::opt_str_view(region),
{
    reveal_strlit("topics");
    reveal_strlit("subscriptions");
    assert("topics"@[0] == 't' && "subscriptions"@[0] == 's');
    text::law_trimmed_text_stays(Seq::empty());
    if r is Ok {
        let v = r->Ok_0@;
        assert(v.kind == r->Ok_0.kind@);
    }
}

/// What a tab asks for.
pub proof fn law_request_of_a_tab(f: Fetch, spec: SpecV)
    requires
        app::is_fetch(f, spec),
    ensures
        spec.kind == "topics"@ <==> f is Topics,
        f is Topics ==> text::opt_view(f->prefix) == spec.prefix && text::opt_view(f->Topics_region) == spec.region,
        f is Subscriptions && spec.topic_arn is Some ==> f->topic_arn@ == spec.topic_arn->0 && text::opt_view(
            f->Subscriptions_region,
        ) == spec.region,
        spec.kind == "topics"@ ==> app::count_label(spec) == "topics"@,
        spec.kind == "subscriptions"@ ==> app::count_label(spec) == "subscriptions"@,
{
    reveal_strlit("topics");
    reveal_strlit("subscriptions");
    assert("topics"@[0] == 't' && "subscriptions"@[0] == 's');
}

/// What the keys do: while a message is written all of them go to it.
pub proof fn law_keys(ctrl: bool, c: char)
    ensures
        keys::writing_action(Key::Char(c), false) == Some(Action::PublishChar(c)),
        keys::writing_action(Key::Enter, ctrl) == Some(Action::PublishCommit),
        keys::writing_action(Key::Esc, ctrl) == Some(Action::PublishCancel),
        keys::writing_action(Key::Backspace, ctrl) == Some(Action::PublishBackspace),
        keys::browsing_action(Key::Char('q'), ctrl) == Some(Action::Quit),
        keys::browsing_action(Key::Char('c'), true) == Some(Action::Quit),
        keys::browsing_action(Key::Char('j'), ctrl) == Some(Action::Down),
        keys::browsing_action(Key::Char('k'), ctrl) == Some(Action::Up),
        keys::browsing_action(Key::Up, ctrl) == Some(Action::Up),
        keys::browsing_action(Key::Down, ctrl) == Some(Action::Down),
        keys::browsing_action(Key::Char('g'), ctrl) == Some(Action::Home),
        keys::browsing_action(Key::Char('G'), ctrl) == Some(Action::End),
        keys::browsing_action(Key::Char('o'), ctrl) == Some(Action::OpenConsole),
        keys::browsing_action(Key::Char('y'), ctrl) == Some(Action::YankArn),
        keys::browsing_action(Key::Char('Y'), ctrl) == Some(Action::YankEndpoint),
        keys::browsing_action(Key::Char('L'), ctrl) == Some(Action::HandoffEndpoint),
        keys::browsing_action(Key::Char('P'), ctrl) == Some(Action::EnterPublish),
        keys::browsing_action(Key::Char('r'), ctrl) == Some(Action::Refresh),
        keys::browsing_action(Key::Tab, ctrl) == Some(Action::NextTab),
        keys::browsing_action(Key::BackTab, ctrl) == Some(Action::PrevTab),
{
}

/// The key that is pressed goes to the message while one is written.
pub proof fn law_key_that_is_pressed(key: Key, ctrl: bool, a: &App, r: Option<Action>)
    requires
        call_ensures(keys::handle, (key, ctrl, a), r),
    ensures
        a.publish_editing is Some ==> r == keys::writing_action(key, ctrl),
        a.publish_editing is None ==> r == keys::browsing_action(key, ctrl),
{
}

/// Moving takes the cursor that far, but not out of the list, and leaves the list and
/// the tab alone.
pub proof fn law_moving_the_cursor(a: &mut App, delta: isize, w: Option<Wanted>)
    requires
        old(a).wf(),
        call_ensures(App::move_selection, (a, delta), w),
    ensures
        ({
            let l = old(a).browser().list();
            let r = final(a).browser().list();
            &&& final(a).browser().active_tab == old(a).browser().active_tab
            &&& r.items == l.items
            &&& 0 <= l.selected + delta < l.items.len() ==> r.selected == l.selected + delta
            &&& l.items.len() > 0 && l.selected + delta < 0 ==> r.selected == 0
            &&& l.items.len() > 0 && l.selected + delta >= l.items.len() ==> r.selected == l.items.len() - 1
        }),
{
}

/// A tab that is chosen is shown; a number behind the last tab changes nothing.
pub proof fn law_choosing_a_tab(a: &mut App, i: usize, r: Option<Fetch>)
    requires
        old(a).wf(),
        call_ensures(App::switch_tab, (a, i), r),
    ensures
        i < old(a).tabs@.len() ==> final(a).active_tab == i,
        i >= old(a).tabs@.len() ==> final(a).active_tab == old(a).active_tab && r is None,
        i < old(a).tabs@.len() ==> (r is Some <==> old(a).tabs@[i as int].data@.items.len() == 0
            && old(a).tabs@[i as int].data@.last_error is None),
{
    assert(final(a).browser().active_tab == final(a).active_tab);
    if i < old(a).tabs@.len() {
        assert(old(a).browser().tabs[i as int].data == old(a).tabs@[i as int].data@);
    }
}

/// A load that is begun is shown as such, and nothing is lost.
pub proof fn law_begun_load(a: &mut App, r: Fetch)
    requires
        old(a).wf(),
        call_ensures(App::refresh_active, (a,), r),
    ensures
        final(a).browser().list().loading,
        final(a).browser().list().items == old(a).browser().list().items,
        final(a).status@ == "loading "@ + old(a).browser().active().name + "…"@,
{
    assert(final(a).browser().status == final(a).status@);
}

/// What was loaded takes the place of the list; an error is told and keeps the list.
pub proof fn law_ended_load(a: &mut App, items: Vec<Item>, b: &mut App, e: String, now: u64)
    requires
        old(a).wf(),
        old(b).wf(),
        call_ensures(App::refresh_done, (a, Ok::<Vec<Item>, String>(items), now), ()),
        call_ensures(App::refresh_done, (b, Err::<Vec<Item>, String>(e), now), ()),
    ensures
        final(a).browser().list().items == items@,
        final(a).browser().list().last_loaded == Some(now),
        !final(a).browser().list().loading,
        final(a).browser().list().last_error is None,
        final(a).status@ == old(a).browser().active().name + ": "@ + numeral::decimal(items@.len()) + " "@
            + app::count_label(old(a).browser().active().spec@),
        final(b).browser().list().items == old(b).browser().list().items,
        !final(b).browser().list().loading,
        final(b).browser().list().last_error == Some(e@),
        final(b).status@ == "error: "@ + e@,
{
    assert(final(a).browser().status == final(a).status@);
    assert(final(b).browser().status == final(b).status@);
}

/// The list is loaded again by itself once it is as old as the interval says, unless the
/// interval is nothing or a load is under way.
pub proof fn law_loading_again(a: &mut App, now: u64, r: Option<Fetch>)
    requires
        old(a).wf(),
        call_ensures(App::tick, (a, now), r),
    ensures
        ({
            let l = old(a).browser().list();
            let every = old(a).cfg.refresh_interval_secs;
            &&& every == 0 || l.loading ==> r is None
            &&& every > 0 && !l.loading && l.last_loaded is None ==> r is Some
            &&& every > 0 && !l.loading && l.last_loaded is Some && now >= l.last_loaded->0 ==> (r is Some <==> now
                - l.last_loaded->0 >= 1000 * every)
            &&& final(a).browser().list().items == l.items
        }),
{
    let l = old(a).browser().list();
    if l.last_loaded is Some && now >= l.last_loaded->0 {
        let d = now - l.last_loaded->0;
        assert(d / 1000 >= old(a).cfg.refresh_interval_secs <==> d >= 1000 * old(a).cfg.refresh_interval_secs);
    }
}

proof fn lemma_tabs_error(t: Seq<Tab>, region: Option<Seq<char>>, n: int)
    requires
        0 <= n <= t.len(),
    ensures
        app::tabs_error(t, region, n) is None <==> forall|i: int|
            0 <= i < n ==> (#[trigger] app::resolved(t[i], region)) is Ok,
    decreases n,
{
    if n > 0 {
        lemma_tabs_error(t, region, n - 1);
        if app::tabs_error(t, region, n) is None {
            assert forall|i: int| 0 <= i < n implies (#[trigger] app::resolved(t[i], region)) is Ok by {
                if i == n - 1 {
                    assert(app::resolved(t[n - 1], region) is Ok);
                }
            }
        } else if app::tabs_error(t, region, n - 1) is None {
            assert(app::resolved(t[n - 1], region) is Err);
        }
    }
}

/// A browser begins with the first of its tabs, each under its name and empty; it does
/// not begin where one of them is refused.
pub proof fn law_fresh_browser(cfg: Config, r: Result<App, String>, i: int)
    requires
        cfg.tabs@.len() > 0,
        call_ensures(App::new, (cfg,), r),
    ensures
        r is Ok <==> forall|j: int|
            0 <= j < cfg.tabs@.len() ==> (#[trigger] app::resolved(cfg.tabs@[j], text::opt_view(cfg.region))) is Ok,
        r is Ok ==> r->Ok_0.active_tab == 0 && r->Ok_0.tabs@.len() == cfg.tabs@.len() && r->Ok_0.status@.len() == 0,
        r is Ok && 0 <= i < cfg.tabs@.len() ==> r->Ok_0.tabs@[i].name@ == cfg.tabs@[i].name@
            && r->Ok_0.tabs@[i].data@.items.len() == 0 && r->Ok_0.tabs@[i].data@.last_loaded is None
            && !r->Ok_0.tabs@[i].data@.loading,
{
    lemma_tabs_error(cfg.tabs@, text::opt_view(cfg.region), cfg.tabs@.len() as int);
    if r is Ok && 0 <= i < cfg.tabs@.len() {
        assert(app::fresh_tab(r->Ok_0.tabs@[i], cfg.tabs@[i], text::opt_view(cfg.region)));
    }
}

/// It is told which page was opened, or why none was.
pub proof fn law_opened_page_is_told(a: &mut App, url: &str, ok: &Result<(), String>, b: &mut App, e: String, bad: &Result<(), String>)
    requires
        *ok == Ok::<(), String>(()),
        *bad == Err::<(), String>(e),
        call_ensures(App::opened, (a, url, ok), ()),
        call_ensures(App::opened, (b, url, bad), ()),
    ensures
        final(a).status@ == "opened "@ + url@,
        final(b).status@ == "open failed: "@ + e@,
        final(a).active_tab == old(a).active_tab,
{
    assert(final(a).browser().status == final(a).status@);
    assert(final(b).browser().status == final(b).status@);
    assert(final(a).browser().active_tab == final(a).active_tab);
    assert(old(a).browser().active_tab == old(a).active_tab);
}

/// In place of a list stands its error; a list that fits is drawn row by row.
pub proof fn law_list_is_drawn(t: &TabState, height: u16, r: Pane, i: int)
    requires
        call_ensures(ui::draw_list, (t, height), r),
    ensures
        t.data@.last_error is Some ==> screen::drawn(r.lines@) == seq![
            seq![("error: "@ + t.data@.last_error->0, screen::colored(Color::Red))],
        ],
        t.data@.last_error is None && t.data@.items.len() == 0 && t.data@.loading ==> screen::drawn(r.lines@)[0][0].0
            == "(loading…)"@,
        t.data@.last_error is None && 0 < t.data@.items.len() <= height - 2 && 0 <= t.data@.selected
            < t.data@.items.len() ==> screen::drawn(r.lines@).len() == t.data@.items.len() && (0 <= i
            < t.data@.items.len() ==> screen::drawn(r.lines@)[i] == ui::item_row(
            t.data@.items,
            t.data@.selected,
            i,
        )),
{
}

proof fn lemma_first_error(t: Seq<Tab>, n: int)
    requires
        0 <= n <= t.len(),
    ensures
        config::first_error(t, n) is None <==> forall|i: int|
            0 <= i < n ==> (#[trigger] config::tab_error(t[i], i)) is None,
    decreases n,
{
    if n > 0 {
        lemma_first_error(t, n - 1);
        if config::first_error(t, n) is None {
            assert forall|i: int| 0 <= i < n implies (#[trigger] config::tab_error(t[i], i)) is None by {
                if i == n - 1 {
                    assert(config::tab_error(t[n - 1], n - 1) is None);
                }
            }
        } else if config::first_error(t, n - 1) is None {
            assert(config::tab_error(t[n - 1], n - 1) is Some);
        }
    }
}

/// Settings are good where there is a tab and each of them is good.
pub proof fn law_good_settings(c: &Config, r: Result<(), String>)
    requires
        call_ensures(Config::validate, (c,), r),
    ensures
        r is Ok <==> c.tabs@.len() > 0 && forall|i: int|
            0 <= i < c.tabs@.len() ==> (#[trigger] config::tab_error(c.tabs@[i], i)) is None,
        c.tabs@.len() == 0 ==> r is Err && r->Err_0@ == "config: at least one [[tabs]] entry required"@,
{
    lemma_first_error(c.tabs@, c.tabs@.len() as int);
}

/// A tab is good where it lists topics, or names the one whose subscriptions it lists.
pub proof fn law_good_tabs(t: Tab, i: int)
    ensures
        t.kind@ == "topics"@ ==> config::tab_error(t, i) is None,
        t.kind@ == "subscriptions"@ ==> (config::tab_error(t, i) is None <==> t.topic_arn is Some && text::trimmed(
            t.topic_arn->0@,
        ).len() > 0),
        t.kind@ != "topics"@ && t.kind@ != "subscriptions"@ ==> config::tab_error(t, i) is Some,
{
    reveal_strlit("topics");
    reveal_strlit("subscriptions");
    reveal_strlit("");
    assert("topics"@[0] == 't' && "subscriptions"@[0] == 's');
    text::law_trimmed_text_stays(Seq::empty());
    assert(text::trimmed(""@) =~= Seq::<char>::empty());
}

/// The title of a list names what it lists and counts it.
pub proof fn law_titles(s: SpecV, n: nat)
    ensures
        s.kind == "topics"@ ==> ui::list_title(s, n) == " topics ("@ + numeral::decimal(n) + ") "@,
        s.kind == "subscriptions"@ && s.topic_arn is Some ==> ui::list_title(s, n) == " subs · "@ + text::after_last(
            s.topic_arn->0,
            ':',
        ) + " ("@ + numeral::decimal(n) + ") "@,
{
    reveal_strlit("topics");
    reveal_strlit("subscriptions");
    assert("topics"@[0] == 't' && "subscriptions"@[0] == 's');
}

/// While a message is written it is shown.
pub proof fn law_message_is_shown(a: &App, r: Option<Line>)
    requires
        call_ensures(ui::draw_publish_bar, (a,), r),
    ensures
        a.publish_editing is None ==> r is None,
        a.publish_editing is Some ==> r is Some && r->0@.len() == 4 && r->0@[1].0 == a.publish_editing->0@,
{
}

/// It is told what was copied, or why nothing was.
pub proof fn law_copy_is_told(
    a: &mut App,
    x: &str,
    ok: &Result<(), String>,
    b: &mut App,
    e: String,
    bad: &Result<(), String>,
)
    requires
        *ok == Ok::<(), String>(()),
        *bad == Err::<(), String>(e),
        call_ensures(App::arn_copied, (a, x, ok), ()),
        call_ensures(App::arn_copied, (b, x, bad), ()),
    ensures
        final(a).status@ == "copied ARN: "@ + x@,
        final(b).status@ == "copy failed: "@ + e@,
{
    assert(final(a).browser().status == final(a).status@);
    assert(final(b).browser().status == final(b).status@);
}

/// It is told what was copied, or why nothing was.
pub proof fn law_copied_endpoint_is_told(
    a: &mut App,
    x: &str,
    ok: &Result<(), String>,
    b: &mut App,
    e: String,
    bad: &Result<(), String>,
)
    requires
        *ok == Ok::<(), String>(()),
        *bad == Err::<(), String>(e),
        call_ensures(App::endpoint_copied, (a, x, ok), ()),
        call_ensures(App::endpoint_copied, (b, x, bad), ()),
    ensures
        final(a).status@ == "copied endpoint: "@ + x@,
        final(b).status@ == "copy failed: "@ + e@,
{
    assert(final(a).browser().status == final(a).status@);
    assert(final(b).browser().status == final(b).status@);
}

/// What failed is told with what the command wrote.
pub proof fn law_failure_of_list_topics(ran: &Ran, e: String, r: Option<String>)
    requires
        call_ensures(sns::list_topics_error, (ran,), r),
    ensures
        r is None <==> ran is Done,
        *ran == Ran::Failed(e) ==> r is Some && r->0@ == "aws sns list-topics failed: "@ + text::trimmed(e@),
        *ran == Ran::NotStarted(e) ==> r is Some && r->0@ == "spawn `aws sns list-topics`"@,
{
}

/// What failed is told with what the command wrote.
pub proof fn law_failure_of_get_topic_attributes(arn: &str, ran: &Ran, e: String, r: Option<String>)
    requires
        call_ensures(sns::get_topic_attributes_error, (arn, ran), r),
    ensures
        r is None <==> ran is Done,
        *ran == Ran::Failed(e) ==> r is Some && r->0@ == "aws sns get-topic-attributes failed for "@ + arn@ + ": "@ + text::trimmed(e@),
        *ran == Ran::NotStarted(e) ==> r is Some && r->0@ == "spawn `aws sns get-topic-attributes` for "@ + arn@,
{
}

/// What failed is told with what the command wrote.
pub proof fn law_failure_of_list_subscriptions(arn: &str, ran: &Ran, e: String, r: Option<String>)
    requires
        call_ensures(sns::list_subscriptions_error, (arn, ran), r),
    ensures
        r is None <==> ran is Done,
        *ran == Ran::Failed(e) ==> r is Some && r->0@ == "aws sns list-subscriptions-by-topic failed for "@ + arn@ + ": "@ + text::trimmed(e@),
        *ran == Ran::NotStarted(e) ==> r is Some && r->0@ == "spawn `aws sns list-subscriptions-by-topic` for "@ + arn@,
{
}

/// Why a tab is refused, with its name.
pub proof fn law_refused_tabs(t: &Tab, region: Option<&str>, r: Result<TabSpec, String>)
    requires
        call_ensures(TabSpec::resolve, (t, region), r),
    ensures
        t.kind@ != "topics"@ && t.kind@ != "subscriptions"@ ==> r is Err && r->Err_0@ == "tab `"@ + t.name@ + "`: unknown kind "@ + text::quoted(
            t.kind@,
        ),
        t.kind@ == "subscriptions"@ && t.topic_arn is None ==> r is Err && r->Err_0@ == "tab `"@ + t.name@
            + "`: kind=\"subscriptions\" requires `topic_arn`"@,
{
    reveal_strlit("topics");
    reveal_strlit("subscriptions");
    assert("topics"@[0] == 't' && "subscriptions"@[0] == 's');
    text::law_trimmed_text_stays(Seq::empty());
    reveal_strlit("");
    assert(text::trimmed(""@) =~= Seq::<char>::empty());
}

proof fn lemma_refused_first(t: Seq<Tab>, region: Option<Seq<char>>, n: int, i: int)
    requires
        0 <= i < n <= t.len(),
        forall|j: int| 0 <= j < i ==> (#[trigger] app::resolved(t[j], region)) is Ok,
        app::resolved(t[i], region) is Err,
    ensures
        app::tabs_error(t, region, n) == Some(app::resolved(t[i], region)->Err_0),
    decreases n,
{
    if n - 1 > i {
        lemma_refused_first(t, region, n - 1, i);
    } else {
        lemma_tabs_error(t, region, i);
    }
}

/// Of several refused tabs the first is told.
pub proof fn law_first_refused_tab_is_told(cfg: Config, r: Result<App, String>, i: int)
    requires
        0 <= i < cfg.tabs@.len(),
        call_ensures(App::new, (cfg,), r),
        forall|j: int| 0 <= j < i ==> (#[trigger] app::resolved(cfg.tabs@[j], text::opt_view(cfg.region))) is Ok,
        app::resolved(cfg.tabs@[i], text::opt_view(cfg.region)) is Err,
    ensures
        r is Err,
        r->Err_0@ == app::resolved(cfg.tabs@[i], text::opt_view(cfg.region))->Err_0,
{
    lemma_refused_first(cfg.tabs@, text::opt_view(cfg.region), cfg.tabs@.len() as int, i);
}

/// What the actions do: they move the cursor, show the tab behind or in front, round in a
/// circle, load, and leave.
pub proof fn law_actions(a: &mut App, b: &mut App, c: &mut App, d: &mut App, r: keys::Effect, s: keys::Effect, t: keys::Effect, u: keys::Effect)
    requires
        old(a).wf() && old(b).wf() && old(c).wf() && old(d).wf(),
        call_ensures(keys::apply, (Action::Down, a), r),
        call_ensures(keys::apply, (Action::NextTab, b), s),
        call_ensures(keys::apply, (Action::PrevTab, c), t),
        call_ensures(keys::apply, (Action::Refresh, d), u),
    ensures
        ({
            let l = old(a).browser().list();
            l.items.len() > 0 && 0 <= l.selected < l.items.len() - 1 ==> final(a).browser().list().selected == l.selected
                + 1
        }),
        old(b).active_tab + 1 < old(b).tabs@.len() ==> final(b).active_tab == old(b).active_tab + 1,
        old(b).active_tab + 1 == old(b).tabs@.len() ==> final(b).active_tab == 0,
        old(c).active_tab > 0 ==> final(c).active_tab == old(c).active_tab - 1,
        old(c).active_tab == 0 ==> final(c).active_tab == old(c).tabs@.len() - 1,
        u is Load && final(d).browser().list().loading,
{
    assert(final(b).browser().active_tab == final(b).active_tab);
    assert(final(c).browser().active_tab == final(c).active_tab);
    assert(old(b).browser().active_tab == old(b).active_tab);
    let n = old(b).tabs@.len() as int;
    let k = old(b).active_tab + 1;
    if k == n {
        vstd::arithmetic::div_mod::lemma_mod_self_0(n);
    } else {
        vstd::arithmetic::div_mod::lemma_small_mod(k as nat, n as nat);
    }
}

/// How far the actions move the cursor.
pub proof fn law_steps()
    ensures
        keys::step_of(Action::Up) == Some(-1int),
        keys::step_of(Action::Down) == Some(1int),
        keys::step_of(Action::PageUp) == Some(-10int),
        keys::step_of(Action::PageDown) == Some(10int),
        keys::step_of(Action::Home) == Some(-0x7fff_ffffint),
        keys::step_of(Action::End) == Some(0x7fff_ffffint),
{
}

/// What is handed out for the actions on the item under the cursor.
pub proof fn law_effects(
    a: &mut App,
    b: &mut App,
    c: &mut App,
    r: keys::Effect,
    s: keys::Effect,
    t: keys::Effect,
)
    requires
        old(a).wf() && old(b).wf() && old(c).wf(),
        call_ensures(keys::apply, (Action::OpenConsole, a), r),
        call_ensures(keys::apply, (Action::YankArn, b), s),
        call_ensures(keys::apply, (Action::Quit, c), t),
        old(a).browser().list().focused() is Some,
        old(b).browser().list().focused() is Some,
    ensures
        r is Open && r->Open_0@ == app::console_url(
            old(a).browser().active().spec@.region,
            old(a).browser().list().focused()->0,
        ),
        old(b).browser().list().focused()->0 is Topic ==> s is CopyArn && s->CopyArn_0@
            == old(b).browser().list().focused()->0->Topic_0.arn@,
        t is Quit,
{
}

/// The details of a topic that has them: its name for people, its owner and its
/// subscriptions.
pub proof fn law_more_details_of_a_topic(x: &Item, t: Topic, confirmed: nat, waiting: nat, r: Vec<Line>)
    requires
        call_ensures(ui::draw_detail, (Some(x),), r),
        *x == Item::Topic(t),
        t.attributes is Some,
        t.attributes->0.attr("DisplayName"@) is Some,
        t.attributes->0.attr("Owner"@) is Some,
        t.attributes->0.attr("SubscriptionsConfirmed"@) == Some(numeral::decimal(confirmed)),
        t.attributes->0.attr("SubscriptionsPending"@) == Some(numeral::decimal(waiting)),
        0 < waiting <= u64::MAX,
        confirmed <= u64::MAX,
    ensures
        ({
            let d = screen::drawn(r@);
            &&& d.len() >= 9
            &&& d[2] == tabs::detail_row("Display name"@, 18, t.attributes->0.attr("DisplayName"@)->0)
            &&& d[3] == tabs::detail_row("Owner"@, 18, t.attributes->0.attr("Owner"@)->0)
            &&& d[4] == tabs::detail_row("Confirmed subs"@, 18, numeral::decimal(confirmed))
            &&& d[5] == tabs::detail_row("Pending subs"@, 18, numeral::decimal(waiting))
        }),
{
    numeral::law_reading_keeps_the_bound(confirmed, u64::MAX as nat);
    numeral::law_reading_keeps_the_bound(waiting, u64::MAX as nat);
}

/// What the settings say where nothing is set.
pub proof fn law_defaults(n: u64, k: String)
    requires
        call_ensures(config::default_refresh, (), n),
        call_ensures(config::default_kind, (), k),
    ensures
        n == 60,
        k@ == "topics"@,
{
}

} // verus!
