//! Topics and subscriptions, and the command lines by which they are read.

use vstd::prelude::*;

use crate::command;
use crate::command::{with_option, with_region, Ran};
use crate::numeral;
use crate::numeral::{dec, parse_u64};
use crate::order;
use crate::order::{name_before, sort_by};
use crate::table::Table;
use crate::text;
use crate::text::{
    cat2, cat3, cat4, cat5, ends_with, last_piece, list_of, owned, starts_with, str_before, str_eq, trim,
};

verus! {

/// A subscription to a topic.
pub struct Subscription {
    pub arn: String,
    pub owner: Option<String>,
    pub protocol: Option<String>,
    pub endpoint: Option<String>,
    pub topic_arn: Option<String>,
}

/// A subscription that has not been confirmed has no ARN yet: in its place
/// stands this word, or nothing.
pub open spec fn pending(s: Subscription) -> bool {
    s.arn@ == "PendingConfirmation"@ || s.arn@.len() == 0
}

/// The endpoint of a subscription: of an ARN only the last part, a dash where
/// there is none.
pub open spec fn short_endpoint(s: Subscription) -> Seq<char> {
    match s.endpoint {
        Some(e) => if text::has_prefix(e@, "arn:"@) {
            text::after_last(e@, ':')
        } else {
            e@
        },
        None => "—"@,
    }
}

impl Subscription {
    pub fn is_pending_confirmation(&self) -> (r: bool)
        ensures
            r == pending(*self),
    {
        str_eq(self.arn.as_str(), "PendingConfirmation") || self.arn.as_str().is_empty()
    }

    pub fn endpoint_short(&self) -> (r: &str)
        ensures
            r@ == short_endpoint(*self),
    {
        match &self.endpoint {
            Some(e) => {
                if starts_with(e.as_str(), "arn:") {
                    last_piece(e.as_str(), ':')
                } else {
                    e.as_str()
                }
            },
            None => "—",
        }
    }
}

/// The attributes of a topic, by name.
pub struct TopicAttributes {
    pub raw: Table<String, String>,
}

impl Default for TopicAttributes {
    fn default() -> (r: Self)
        ensures
            r.raw@ == Map::<Seq<char>, String>::empty(),
    {
        TopicAttributes { raw: Table::new() }
    }
}

/// A number read from a text.
pub open spec fn as_number(s: Option<Seq<char>>) -> Option<nat> {
    match s {
        Some(t) => numeral::parsed_unsigned(t, u64::MAX as nat),
        None => None,
    }
}

/// `r` is the number `n`.
pub open spec fn is_u64(r: Option<u64>, n: Option<nat>) -> bool {
    match n {
        Some(k) => r == Some(k as u64) && k <= u64::MAX,
        None => r is None,
    }
}

/// `n`, or 0.
pub open spec fn or_zero(n: Option<nat>) -> nat {
    match n {
        Some(k) => k,
        None => 0,
    }
}

fn u64_or_zero(n: Option<u64>) -> (r: u64)
    ensures
        r == (match n {
            Some(k) => k,
            None => 0,
        }),
{
    match n {
        Some(k) => k,
        None => 0,
    }
}

impl TopicAttributes {
    /// The attribute `key`.
    pub open spec fn attr(self, key: Seq<char>) -> Option<Seq<char>> {
        if self.raw@.dom().contains(key) {
            Some(self.raw@[key]@)
        } else {
            None
        }
    }

    /// The topic keeps the order of its messages.
    pub open spec fn fifo(self) -> bool {
        self.attr("FifoTopic"@) == Some("true"@)
    }

    pub fn from_map(raw: Table<String, String>) -> (r: Self)
        ensures
            r.raw == raw,
    {
        TopicAttributes { raw }
    }

    pub fn get(&self, key: &str) -> (r: Option<&str>)
        ensures
            text::opt_str_view(r) == self.attr(key@),
    {
        match self.raw.get(&owned(key)) {
            Some(s) => Some(s.as_str()),
            None => None,
        }
    }

    fn number(&self, key: &str) -> (r: Option<u64>)
        ensures
            is_u64(r, as_number(self.attr(key@))),
    {
        match self.get(key) {
            Some(s) => parse_u64(s),
            None => None,
        }
    }

    pub fn display_name(&self) -> (r: Option<&str>)
        ensures
            text::opt_str_view(r) == self.attr("DisplayName"@),
    {
        self.get("DisplayName")
    }

    pub fn owner(&self) -> (r: Option<&str>)
        ensures
            text::opt_str_view(r) == self.attr("Owner"@),
    {
        self.get("Owner")
    }

    pub fn subscriptions_confirmed(&self) -> (r: Option<u64>)
        ensures
            is_u64(r, as_number(self.attr("SubscriptionsConfirmed"@))),
    {
        self.number("SubscriptionsConfirmed")
    }

    pub fn subscriptions_pending(&self) -> (r: Option<u64>)
        ensures
            is_u64(r, as_number(self.attr("SubscriptionsPending"@))),
    {
        self.number("SubscriptionsPending")
    }

    pub fn subscriptions_deleted(&self) -> (r: Option<u64>)
        ensures
            is_u64(r, as_number(self.attr("SubscriptionsDeleted"@))),
    {
        self.number("SubscriptionsDeleted")
    }

    pub fn kms_master_key_id(&self) -> (r: Option<&str>)
        ensures
            text::opt_str_view(r) == self.attr("KmsMasterKeyId"@),
    {
        self.get("KmsMasterKeyId")
    }

    pub fn fifo_topic(&self) -> (r: bool)
        ensures
            r == self.fifo(),
    {
        match self.get("FifoTopic") {
            Some(s) => str_eq(s, "true"),
            None => false,
        }
    }

    pub fn signature_version(&self) -> (r: Option<&str>)
        ensures
            text::opt_str_view(r) == self.attr("SignatureVersion"@),
    {
        self.get("SignatureVersion")
    }

    pub fn delivery_policy(&self) -> (r: Option<&str>)
        ensures
            text::opt_str_view(r) == self.attr("DeliveryPolicy"@),
    {
        self.get("DeliveryPolicy")
    }
}

/// The name of a topic: the last part of its ARN.
pub fn topic_name_from_arn(arn: &str) -> (r: &str)
    ensures
        r@ == text::after_last(arn@, ':'),
{
    last_piece(arn, ':')
}

/// A topic.
pub struct Topic {
    pub arn: String,
    /// The attributes, once they have been read.
    pub attributes: Option<TopicAttributes>,
}

/// The topic keeps the order of its messages.
pub open spec fn is_fifo_topic(t: Topic) -> bool {
    ||| text::has_suffix(t.arn@, ".fifo"@)
    ||| match t.attributes {
        Some(a) => a.fifo(),
        None => false,
    }
}

/// How a topic is described in the list.
pub open spec fn topic_label(t: Topic) -> Seq<char> {
    match t.attributes {
        None => "(attrs not loaded)"@,
        Some(a) => {
            let confirmed = or_zero(as_number(a.attr("SubscriptionsConfirmed"@)));
            let waiting = or_zero(as_number(a.attr("SubscriptionsPending"@)));
            let fifo = if is_fifo_topic(t) {
                " · FIFO"@
            } else {
                ""@
            };
            if waiting > 0 {
                numeral::decimal(confirmed) + " sub · "@ + numeral::decimal(waiting) + " pending"@ + fifo
            } else {
                numeral::decimal(confirmed) + " sub"@ + fifo
            }
        },
    }
}

impl Topic {
    pub fn name(&self) -> (r: &str)
        ensures
            r@ == text::after_last(self.arn@, ':'),
    {
        topic_name_from_arn(self.arn.as_str())
    }

    pub fn is_fifo(&self) -> (r: bool)
        ensures
            r == is_fifo_topic(*self),
    {
        if ends_with(self.arn.as_str(), ".fifo") {
            return true;
        }
        match &self.attributes {
            Some(a) => a.fifo_topic(),
            None => false,
        }
    }

    pub fn secondary_label(&self) -> (r: String)
        ensures
            r@ == topic_label(*self),
    {
        let a = match &self.attributes {
            None => {
                return owned("(attrs not loaded)");
            },
            Some(a) => a,
        };
        let confirmed: u64 = u64_or_zero(a.subscriptions_confirmed());
        let waiting: u64 = u64_or_zero(a.subscriptions_pending());
        let fifo = if self.is_fifo() { " · FIFO" } else { "" };
        if waiting > 0 {
            cat5(dec(confirmed).as_str(), " sub · ", dec(waiting).as_str(), " pending", fifo)
        } else {
            cat3(dec(confirmed).as_str(), " sub", fifo)
        }
    }
}

/// The arguments of `aws` for a page of the list of topics.
pub open spec fn topics_command(region: Option<Seq<char>>, token: Option<Seq<char>>) -> Seq<Seq<char>> {
    seq!["sns"@, "list-topics"@, "--output"@, "json"@] + command::region_option(region)
        + command::option_with("--next-token"@, token)
}

pub fn list_topics_args(region: Option<&str>, token: Option<&str>) -> (r: Vec<String>)
    ensures
        text::views(r@) == topics_command(text::opt_str_view(region), text::opt_str_view(token)),
{
    let head = list_of(vec!["sns", "list-topics", "--output", "json"]);
    assert(text::views(head@) =~= seq!["sns"@, "list-topics"@, "--output"@, "json"@]);
    with_option(with_region(head, region), "--next-token", token)
}

/// The error of a run that listed no topics.
pub open spec fn topics_error(ran: Ran) -> Option<Seq<char>> {
    match ran {
        Ran::NotStarted(_) => Some("spawn `aws sns list-topics`"@),
        Ran::Failed(e) => Some("aws sns list-topics failed: "@ + text::trimmed(e@)),
        Ran::Done(_) => None,
    }
}

pub fn list_topics_error(ran: &Ran) -> (r: Option<String>)
    ensures
        text::opt_view(r) == topics_error(*ran),
{
    match ran {
        Ran::NotStarted(_) => Some(owned("spawn `aws sns list-topics`")),
        Ran::Failed(e) => Some(cat2("aws sns list-topics failed: ", trim(e.as_str()))),
        Ran::Done(_) => None,
    }
}

/// The name of the topic begins with the prefix, where there is one.
pub open spec fn in_scope(arn: Seq<char>, prefix: Option<Seq<char>>) -> bool {
    match prefix {
        Some(p) => text::has_prefix(text::after_last(arn, ':'), p),
        None => true,
    }
}

/// The topics whose names begin with the prefix, in the same order.
pub open spec fn scoped(arns: Seq<String>, prefix: Option<Seq<char>>) -> Seq<String>
    decreases arns.len(),
{
    if arns.len() == 0 {
        Seq::empty()
    } else if in_scope(arns.last()@, prefix) {
        scoped(arns.drop_last(), prefix).push(arns.last())
    } else {
        scoped(arns.drop_last(), prefix)
    }
}

/// The topics that are listed: those whose names begin with the prefix, by
/// name, in lower case.
pub open spec fn listed_topics(arns: Seq<String>, prefix: Option<Seq<char>>) -> Seq<String> {
    order::sorted(
        scoped(arns, prefix),
        |a: String, b: String|
            order::lower_before(text::after_last(a@, ':'), text::after_last(b@, ':')),
    )
}

/// Chooses the topics that are listed and puts them in order.
pub fn arrange_topics(arns: Vec<String>, prefix: Option<&str>) -> (r: Vec<String>)
    ensures
        r@ == listed_topics(arns@, text::opt_str_view(prefix)),
{
    let ghost p = text::opt_str_view(prefix);
    let mut kept: Vec<String> = Vec::new();
    let mut i: usize = 0;
    assert(arns@.take(0) =~= Seq::empty());
    while i < arns.len()
        invariant
            i <= arns.len(),
            p == text::opt_str_view(prefix),
            kept@ == scoped(arns@.take(i as int), p),
        decreases arns.len() - i,
    {
        assert(arns@.take(i + 1).drop_last() =~= arns@.take(i as int));
        let keep = match prefix {
            Some(x) => starts_with(topic_name_from_arn(arns[i].as_str()), x),
            None => true,
        };
        if keep {
            kept.push(arns[i].clone());
        }
        i = i + 1;
    }
    assert(arns@.take(arns@.len() as int) =~= arns@);
    let comes_before = |a: &String, b: &String| -> (o: bool)
        ensures
            o == order::lower_before(text::after_last(a@, ':'), text::after_last(b@, ':')),
    {
        name_before(topic_name_from_arn(a.as_str()), topic_name_from_arn(b.as_str()))
    };
    sort_by(
        kept,
        comes_before,
        Ghost(
            |a: String, b: String|
                order::lower_before(text::after_last(a@, ':'), text::after_last(b@, ':')),
        ),
    )
}

/// The arguments of `aws` for the attributes of a topic.
pub open spec fn attributes_command(arn: Seq<char>, region: Option<Seq<char>>) -> Seq<Seq<char>> {
    seq!["sns"@, "get-topic-attributes"@, "--topic-arn"@, arn, "--output"@, "json"@]
        + command::region_option(region)
}

pub fn get_topic_attributes_args(arn: &str, region: Option<&str>) -> (r: Vec<String>)
    ensures
        text::views(r@) == attributes_command(arn@, text::opt_str_view(region)),
{
    let head = list_of(vec!["sns", "get-topic-attributes", "--topic-arn", arn, "--output", "json"]);
    assert(text::views(head@) =~= seq![
        "sns"@,
        "get-topic-attributes"@,
        "--topic-arn"@,
        arn@,
        "--output"@,
        "json"@,
    ]);
    with_region(head, region)
}

/// The error of a run that read no attributes.
pub open spec fn attributes_error(arn: Seq<char>, ran: Ran) -> Option<Seq<char>> {
    match ran {
        Ran::NotStarted(_) => Some("spawn `aws sns get-topic-attributes` for "@ + arn),
        Ran::Failed(e) => Some(
            "aws sns get-topic-attributes failed for "@ + arn + ": "@ + text::trimmed(e@),
        ),
        Ran::Done(_) => None,
    }
}

pub fn get_topic_attributes_error(arn: &str, ran: &Ran) -> (r: Option<String>)
    ensures
        text::opt_view(r) == attributes_error(arn@, *ran),
{
    match ran {
        Ran::NotStarted(_) => Some(cat2("spawn `aws sns get-topic-attributes` for ", arn)),
        Ran::Failed(e) => Some(
            cat4("aws sns get-topic-attributes failed for ", arn, ": ", trim(e.as_str())),
        ),
        Ran::Done(_) => None,
    }
}

/// The arguments of `aws` for a page of the subscriptions to a topic.
pub open spec fn subscriptions_command(
    arn: Seq<char>,
    region: Option<Seq<char>>,
    token: Option<Seq<char>>,
) -> Seq<Seq<char>> {
    seq!["sns"@, "list-subscriptions-by-topic"@, "--topic-arn"@, arn, "--output"@, "json"@]
        + command::region_option(region) + command::option_with("--next-token"@, token)
}

pub fn list_subscriptions_args(arn: &str, region: Option<&str>, token: Option<&str>) -> (r: Vec<String>)
    ensures
        text::views(r@) == subscriptions_command(
            arn@,
            text::opt_str_view(region),
            text::opt_str_view(token),
        ),
{
    let head = list_of(
        vec!["sns", "list-subscriptions-by-topic", "--topic-arn", arn, "--output", "json"],
    );
    assert(text::views(head@) =~= seq![
        "sns"@,
        "list-subscriptions-by-topic"@,
        "--topic-arn"@,
        arn@,
        "--output"@,
        "json"@,
    ]);
    with_option(with_region(head, region), "--next-token", token)
}

/// The error of a run that listed no subscriptions.
pub open spec fn subscriptions_error(arn: Seq<char>, ran: Ran) -> Option<Seq<char>> {
    match ran {
        Ran::NotStarted(_) => Some("spawn `aws sns list-subscriptions-by-topic` for "@ + arn),
        Ran::Failed(e) => Some(
            "aws sns list-subscriptions-by-topic failed for "@ + arn + ": "@ + text::trimmed(e@),
        ),
        Ran::Done(_) => None,
    }
}

pub fn list_subscriptions_error(arn: &str, ran: &Ran) -> (r: Option<String>)
    ensures
        text::opt_view(r) == subscriptions_error(arn@, *ran),
{
    match ran {
        Ran::NotStarted(_) => Some(cat2("spawn `aws sns list-subscriptions-by-topic` for ", arn)),
        Ran::Failed(e) => Some(
            cat4("aws sns list-subscriptions-by-topic failed for ", arn, ": ", trim(e.as_str())),
        ),
        Ran::Done(_) => None,
    }
}

/// The order of optional strings: nothing comes first.
pub open spec fn opt_before(a: Option<Seq<char>>, b: Option<Seq<char>>) -> bool {
    match (a, b) {
        (None, Some(_)) => true,
        (Some(x), Some(y)) => text::before(x, y),
        _ => false,
    }
}

fn opt_comes_before(a: &Option<String>, b: &Option<String>) -> (r: bool)
    ensures
        r == opt_before(text::opt_view(*a), text::opt_view(*b)),
{
    match (a, b) {
        (None, Some(_)) => true,
        (Some(x), Some(y)) => str_before(x.as_str(), y.as_str()),
        _ => false,
    }
}

/// The order of subscriptions: by protocol, then by endpoint.
pub open spec fn subscription_before(a: Subscription, b: Subscription) -> bool {
    ||| opt_before(text::opt_view(a.protocol), text::opt_view(b.protocol))
    ||| !opt_before(text::opt_view(b.protocol), text::opt_view(a.protocol)) && opt_before(
        text::opt_view(a.endpoint),
        text::opt_view(b.endpoint),
    )
}

/// The subscriptions in the order in which they are listed.
pub open spec fn listed_subscriptions(s: Seq<Subscription>) -> Seq<Subscription> {
    order::sorted(s, |a: Subscription, b: Subscription| subscription_before(a, b))
}

/// Puts subscriptions in the order of the list.
pub fn sort_subscriptions(s: Vec<Subscription>) -> (r: Vec<Subscription>)
    ensures
        r@ == listed_subscriptions(s@),
{
    let comes_before = |a: &Subscription, b: &Subscription| -> (o: bool)
        ensures
            o == subscription_before(*a, *b),
    {
        opt_comes_before(&a.protocol, &b.protocol) || (!opt_comes_before(&b.protocol, &a.protocol)
            && opt_comes_before(&a.endpoint, &b.endpoint))
    };
    sort_by(s, comes_before, Ghost(|a: Subscription, b: Subscription| subscription_before(a, b)))
}

/// Every listed topic was among those that were read, and begins with the
/// prefix.
pub proof fn law_scoped(arns: Seq<String>, prefix: Option<Seq<char>>, i: int)
    requires
        0 <= i < scoped(arns, prefix).len(),
    ensures
        in_scope(scoped(arns, prefix)[i]@, prefix),
        arns.contains(scoped(arns, prefix)[i]),
    decreases arns.len(),
{
    if arns.len() > 0 {
        let rest = scoped(arns.drop_last(), prefix);
        if i < rest.len() {
            law_scoped(arns.drop_last(), prefix, i);
            let k = choose|k: int| 0 <= k < arns.drop_last().len() && arns.drop_last()[k] == rest[i];
            assert(arns[k] == rest[i]);
        } else {
            assert(arns[arns.len() - 1] == scoped(arns, prefix)[i]);
        }
    }
}

/// Topics are listed by name, whatever the case of its letters, and of those with
/// the prefix none is lost or added.
pub proof fn law_topics_in_order(arns: Seq<String>, prefix: Option<Seq<char>>)
    ensures
        order::in_order(
            listed_topics(arns, prefix),
            |a: String, b: String|
                order::lower_before(text::after_last(a@, ':'), text::after_last(b@, ':')),
        ),
        listed_topics(arns, prefix).to_multiset() == scoped(arns, prefix).to_multiset(),
{
    let less = |a: String, b: String|
        order::lower_before(text::after_last(a@, ':'), text::after_last(b@, ':'));
    order::lemma_key_orders(less, |a: String| text::lowercased(text::after_last(a@, ':')));
    order::law_sorted(scoped(arns, prefix), less);
}

proof fn lemma_opt_before(a: Option<Seq<char>>, b: Option<Seq<char>>, c: Option<Seq<char>>)
    ensures
        !opt_before(a, a),
        !opt_before(b, a) && !opt_before(c, b) ==> !opt_before(c, a),
        opt_before(a, b) ==> !opt_before(b, a),
{
    if let Some(x) = a {
        text::lemma_before_irreflexive(x);
        if let Some(y) = b {
            text::lemma_before_total(x, y);
            if let Some(z) = c {
                text::lemma_before_transitive(x, y, z);
            }
        }
    }
}

/// Subscriptions are listed by protocol and then by endpoint, and none is lost or
/// added.
pub proof fn law_subscriptions_in_order(s: Seq<Subscription>)
    ensures
        order::in_order(
            listed_subscriptions(s),
            |a: Subscription, b: Subscription| subscription_before(a, b),
        ),
        listed_subscriptions(s).to_multiset() == s.to_multiset(),
{
    let less = |a: Subscription, b: Subscription| subscription_before(a, b);
    assert forall|a: Subscription| !(#[trigger] less(a, a)) by {
        lemma_opt_before(text::opt_view(a.protocol), text::opt_view(a.protocol), text::opt_view(a.protocol));
        lemma_opt_before(text::opt_view(a.endpoint), text::opt_view(a.endpoint), text::opt_view(a.endpoint));
    }
    assert forall|a: Subscription, b: Subscription| #[trigger] less(a, b) implies !less(b, a) by {
        lemma_opt_before(text::opt_view(a.protocol), text::opt_view(b.protocol), text::opt_view(b.protocol));
        lemma_opt_before(text::opt_view(b.protocol), text::opt_view(a.protocol), text::opt_view(a.protocol));
        lemma_opt_before(text::opt_view(a.endpoint), text::opt_view(b.endpoint), text::opt_view(b.endpoint));
    }
    assert forall|a: Subscription, b: Subscription, c: Subscription| !(#[trigger] less(b, a)) && !(
    #[trigger] less(c, b)) implies !less(c, a) by {
        let (p, q, r) = (text::opt_view(a.protocol), text::opt_view(b.protocol), text::opt_view(c.protocol));
        lemma_opt_before(p, q, r);
        lemma_opt_before(q, r, p);
        lemma_opt_before(r, p, q);
        lemma_opt_before(r, q, p);
        lemma_opt_before(q, p, r);
        lemma_opt_before(p, r, q);
        lemma_opt_before(
            text::opt_view(a.endpoint),
            text::opt_view(b.endpoint),
            text::opt_view(c.endpoint),
        );
    }
    order::law_sorted(s, less);
}

} // verus!
