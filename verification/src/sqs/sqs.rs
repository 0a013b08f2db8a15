//! Queues and their attributes, and the command lines by which they are read.

use vstd::prelude::*;

use crate::clock;
use crate::clock::{span_text, utc_minute_text};
use crate::command;
use crate::command::{with_option, with_region, Ran};
use crate::json;
use crate::json::{parse_json, Json};
use crate::numeral;
use crate::numeral::{dec, dec_size, parse_i64, parse_u64};
use crate::order;
use crate::order::{name_before, sort_by};
use crate::table::Table;
use crate::text;
use crate::text::{cat2, cat3, cat4, cat5, ends_with, last_piece, list_of, owned, trim};

verus! {

/// The attributes of a queue, by name.
pub struct QueueAttributes {
    pub raw: Table<String, String>,
}

/// How many messages wait in a dead letter queue, and how many are in flight.
#[derive(Clone, Copy, Debug, PartialEq, Eq, Structural)]
pub struct DlqStats {
    pub visible: u64,
    pub in_flight: u64,
}

/// A queue.
pub struct Queue {
    pub url: String,
    /// The attributes, once they have been read.
    pub attributes: Option<QueueAttributes>,
    /// The names of the queues whose dead letter queue this one is.
    pub redrive_sources: Vec<String>,
    /// The messages in this queue's own dead letter queue, where that one has
    /// been read.
    pub dlq_stats: Option<DlqStats>,
}

/// A number read from a text.
pub open spec fn as_number(s: Option<Seq<char>>) -> Option<nat> {
    match s {
        Some(t) => numeral::parsed_unsigned(t, u64::MAX as nat),
        None => None,
    }
}

/// `r` is the number `n`.
pub open spec fn is_u64(r: Option<u64>, n: Option<nat>) -> bool {
    match n {
        Some(k) => r == Some(k as u64) && k <= u64::MAX,
        None => r is None,
    }
}

/// `n`, or 0.
pub open spec fn or_zero(n: Option<nat>) -> nat {
    match n {
        Some(k) => k,
        None => 0,
    }
}

fn u64_or_zero(n: Option<u64>) -> (r: u64)
    ensures
        r == (match n {
            Some(k) => k,
            None => 0,
        }),
{
    match n {
        Some(k) => k,
        None => 0,
    }
}

impl QueueAttributes {
    /// The attribute `key`.
    pub open spec fn attr(self, key: Seq<char>) -> Option<Seq<char>> {
        if self.raw@.dom().contains(key) {
            Some(self.raw@[key]@)
        } else {
            None
        }
    }

    pub fn from_map(raw: Table<String, String>) -> (r: Self)
        ensures
            r.raw == raw,
    {
        QueueAttributes { raw }
    }

    pub fn get(&self, key: &str) -> (r: Option<&str>)
        ensures
            text::opt_str_view(r) == self.attr(key@),
    {
        match self.raw.get(&owned(key)) {
            Some(s) => Some(s.as_str()),
            None => None,
        }
    }

    fn number(&self, key: &str) -> (r: Option<u64>)
        ensures
            is_u64(r, as_number(self.attr(key@))),
    {
        match self.get(key) {
            Some(s) => parse_u64(s),
            None => None,
        }
    }

    pub fn approximate_messages(&self) -> (r: Option<u64>)
        ensures
            is_u64(r, as_number(self.attr("ApproximateNumberOfMessages"@))),
    {
        self.number("ApproximateNumberOfMessages")
    }

    pub fn approximate_messages_not_visible(&self) -> (r: Option<u64>)
        ensures
            is_u64(r, as_number(self.attr("ApproximateNumberOfMessagesNotVisible"@))),
    {
        self.number("ApproximateNumberOfMessagesNotVisible")
    }

    pub fn approximate_messages_delayed(&self) -> (r: Option<u64>)
        ensures
            is_u64(r, as_number(self.attr("ApproximateNumberOfMessagesDelayed"@))),
    {
        self.number("ApproximateNumberOfMessagesDelayed")
    }

    pub fn visibility_timeout(&self) -> (r: Option<u64>)
        ensures
            is_u64(r, as_number(self.attr("VisibilityTimeout"@))),
    {
        self.number("VisibilityTimeout")
    }

    pub fn message_retention_period(&self) -> (r: Option<u64>)
        ensures
            is_u64(r, as_number(self.attr("MessageRetentionPeriod"@))),
    {
        self.number("MessageRetentionPeriod")
    }

    pub fn delay_seconds(&self) -> (r: Option<u64>)
        ensures
            is_u64(r, as_number(self.attr("DelaySeconds"@))),
    {
        self.number("DelaySeconds")
    }

    pub fn maximum_message_size(&self) -> (r: Option<u64>)
        ensures
            is_u64(r, as_number(self.attr("MaximumMessageSize"@))),
    {
        self.number("MaximumMessageSize")
    }

    pub fn receive_message_wait_time_seconds(&self) -> (r: Option<u64>)
        ensures
            is_u64(r, as_number(self.attr("ReceiveMessageWaitTimeSeconds"@))),
    {
        self.number("ReceiveMessageWaitTimeSeconds")
    }

    pub fn arn(&self) -> (r: Option<&str>)
        ensures
            text::opt_str_view(r) == self.attr("QueueArn"@),
    {
        self.get("QueueArn")
    }

    pub fn redrive_policy(&self) -> (r: Option<&str>)
        ensures
            text::opt_str_view(r) == self.attr("RedrivePolicy"@),
    {
        self.get("RedrivePolicy")
    }

    /// Whether this queue has a dead letter queue.
    pub fn has_dlq(&self) -> (r: bool)
        ensures
            r == (self.attr("RedrivePolicy"@) is Some),
    {
        self.redrive_policy().is_some()
    }
}

/// The name of a queue: the last part of its URL.
pub fn queue_name_from_url(url: &str) -> (r: &str)
    ensures
        r@ == text::after_last(url@, '/'),
{
    last_piece(url, '/')
}

/// How a queue is described in the list.
pub open spec fn queue_label(q: Queue) -> Seq<char> {
    match q.attributes {
        None => "(attrs not loaded)"@,
        Some(a) => {
            let visible = or_zero(as_number(a.attr("ApproximateNumberOfMessages"@)));
            let in_flight = or_zero(as_number(a.attr("ApproximateNumberOfMessagesNotVisible"@)));
            let delayed = or_zero(as_number(a.attr("ApproximateNumberOfMessagesDelayed"@)));
            let down = if a.attr("RedrivePolicy"@) is Some {
                " · ↓ DLQ"@
            } else {
                ""@
            };
            let up = if q.redrive_sources@.len() == 0 {
                ""@
            } else if q.redrive_sources@.len() == 1 {
                " · ↑ DLQ"@
            } else {
                " · ↑ DLQ x"@ + numeral::decimal(q.redrive_sources@.len())
            };
            let fifo = if text::has_suffix(q.url@, ".fifo"@) {
                " · FIFO"@
            } else {
                ""@
            };
            let counts = numeral::decimal(visible) + " msg · "@ + numeral::decimal(in_flight)
                + " in-flight"@;
            let late = if delayed > 0 {
                " · "@ + numeral::decimal(delayed) + " delayed"@
            } else {
                ""@
            };
            counts + late + fifo + down + up
        },
    }
}

impl Queue {
    /// A queue of which nothing but the URL is known.
    pub fn named(url: String) -> (r: Queue)
        ensures
            r.url == url,
            r.attributes is None,
            r.redrive_sources@ == Seq::<String>::empty(),
            r.dlq_stats is None,
    {
        Queue { url, attributes: None, redrive_sources: Vec::new(), dlq_stats: None }
    }

    pub fn name(&self) -> (r: &str)
        ensures
            r@ == text::after_last(self.url@, '/'),
    {
        queue_name_from_url(self.url.as_str())
    }

    pub fn primary_label(&self) -> (r: String)
        ensures
            r@ == text::after_last(self.url@, '/'),
    {
        owned(self.name())
    }

    /// The counts of messages, and marks for a queue that keeps the order, has
    /// a dead letter queue, or is one.
    pub fn secondary_label(&self) -> (r: String)
        ensures
            r@ == queue_label(*self),
    {
        let a = match &self.attributes {
            None => {
                return owned("(attrs not loaded)");
            },
            Some(a) => a,
        };
        let visible: u64 = u64_or_zero(a.approximate_messages());
        let in_flight: u64 = u64_or_zero(a.approximate_messages_not_visible());
        let delayed: u64 = u64_or_zero(a.approximate_messages_delayed());
        let down = if a.has_dlq() { " · ↓ DLQ" } else { "" };
        let n: usize = self.redrive_sources.len();
        let up = if n == 0 {
            owned("")
        } else if n == 1 {
            owned(" · ↑ DLQ")
        } else {
            cat2(" · ↑ DLQ x", dec_size(n).as_str())
        };
        let fifo = if self.is_fifo() { " · FIFO" } else { "" };
        let counts = cat4(dec(visible).as_str(), " msg · ", dec(in_flight).as_str(), " in-flight");
        let late = if delayed > 0 {
            cat3(" · ", dec(delayed).as_str(), " delayed")
        } else {
            owned("")
        };
        cat5(counts.as_str(), late.as_str(), fifo, down, up.as_str())
    }

    /// Whether the queue keeps the order of its messages.
    pub fn is_fifo(&self) -> (r: bool)
        ensures
            r == text::has_suffix(self.url@, ".fifo"@),
    {
        ends_with(self.url.as_str(), ".fifo")
    }
}

/// The dead letter queue that a policy names.
pub open spec fn policy_target(policy: Seq<char>) -> Option<Seq<char>> {
    match json::json_in_text(policy) {
        Some(v) => json::text_member(v, "deadLetterTargetArn"@),
        None => None,
    }
}

/// The dead letter queue that a policy names, once it has been read.
pub fn target_in_policy(policy: &Json) -> (r: Option<String>)
    ensures
        text::opt_view(r) == json::text_member(policy@, "deadLetterTargetArn"@),
{
    policy.text_at("deadLetterTargetArn")
}

/// The dead letter queue that a policy names. There is none where the policy
/// is no JSON, or does not name it.
pub fn dlq_target_arn(redrive_policy: &str) -> (r: Option<String>)
    ensures
        text::opt_view(r) == policy_target(redrive_policy@),
{
    match parse_json(redrive_policy) {
        Some(v) => target_in_policy(&v),
        None => None,
    }
}

/// The arguments of `aws` for a page of the list of queues.
pub open spec fn list_command(
    prefix: Option<Seq<char>>,
    region: Option<Seq<char>>,
    token: Option<Seq<char>>,
) -> Seq<Seq<char>> {
    seq!["sqs"@, "list-queues"@, "--max-results"@, "1000"@, "--output"@, "json"@]
        + command::option_with("--queue-name-prefix"@, prefix) + command::region_option(region)
        + command::option_with("--next-token"@, token)
}

pub fn list_queues_args(prefix: Option<&str>, region: Option<&str>, token: Option<&str>) -> (r: Vec<String>)
    ensures
        text::views(r@) == list_command(
            text::opt_str_view(prefix),
            text::opt_str_view(region),
            text::opt_str_view(token),
        ),
{
    let head = list_of(vec!["sqs", "list-queues", "--max-results", "1000", "--output", "json"]);
    assert(text::views(head@) =~= seq![
        "sqs"@,
        "list-queues"@,
        "--max-results"@,
        "1000"@,
        "--output"@,
        "json"@,
    ]);
    with_option(with_region(with_option(head, "--queue-name-prefix", prefix), region), "--next-token", token)
}

/// Queues in the order in which they are listed: by their names, in lower
/// case.
pub open spec fn listed(urls: Seq<String>) -> Seq<String> {
    order::sorted(
        urls,
        |a: String, b: String|
            order::lower_before(text::after_last(a@, '/'), text::after_last(b@, '/')),
    )
}

/// Puts the URLs of queues in the order of the list.
pub fn sort_queues(urls: Vec<String>) -> (r: Vec<String>)
    ensures
        r@ == listed(urls@),
{
    let comes_before = |a: &String, b: &String| -> (o: bool)
        ensures
            o == order::lower_before(text::after_last(a@, '/'), text::after_last(b@, '/')),
    {
        name_before(queue_name_from_url(a.as_str()), queue_name_from_url(b.as_str()))
    };
    sort_by(
        urls,
        comes_before,
        Ghost(
            |a: String, b: String|
                order::lower_before(text::after_last(a@, '/'), text::after_last(b@, '/')),
        ),
    )
}

/// The arguments of `aws` for the attributes of a queue.
pub open spec fn attributes_command(url: Seq<char>, region: Option<Seq<char>>) -> Seq<Seq<char>> {
    seq![
        "sqs"@,
        "get-queue-attributes"@,
        "--queue-url"@,
        url,
        "--attribute-names"@,
        "All"@,
        "--output"@,
        "json"@,
    ] + command::region_option(region)
}

pub fn get_attributes_args(url: &str, region: Option<&str>) -> (r: Vec<String>)
    ensures
        text::views(r@) == attributes_command(url@, text::opt_str_view(region)),
{
    let head = list_of(
        vec![
            "sqs",
            "get-queue-attributes",
            "--queue-url",
            url,
            "--attribute-names",
            "All",
            "--output",
            "json",
        ],
    );
    assert(text::views(head@) =~= seq![
        "sqs"@,
        "get-queue-attributes"@,
        "--queue-url"@,
        url@,
        "--attribute-names"@,
        "All"@,
        "--output"@,
        "json"@,
    ]);
    with_region(head, region)
}

/// The error of a run that listed no queues.
pub open spec fn list_error(ran: Ran) -> Option<Seq<char>> {
    match ran {
        Ran::NotStarted(_) => Some("spawn `aws sqs list-queues`"@),
        Ran::Failed(e) => Some("aws sqs list-queues failed: "@ + text::trimmed(e@)),
        Ran::Done(_) => None,
    }
}

pub fn list_queues_error(ran: &Ran) -> (r: Option<String>)
    ensures
        text::opt_view(r) == list_error(*ran),
{
    match ran {
        Ran::NotStarted(_) => Some(owned("spawn `aws sqs list-queues`")),
        Ran::Failed(e) => Some(cat2("aws sqs list-queues failed: ", trim(e.as_str()))),
        Ran::Done(_) => None,
    }
}

/// The error of a run that read no attributes.
pub open spec fn attributes_error(url: Seq<char>, ran: Ran) -> Option<Seq<char>> {
    match ran {
        Ran::NotStarted(_) => Some("spawn `aws sqs get-queue-attributes` for "@ + url),
        Ran::Failed(e) => Some(
            "aws sqs get-queue-attributes failed for "@ + url + ": "@ + text::trimmed(e@),
        ),
        Ran::Done(_) => None,
    }
}

pub fn get_attributes_error(url: &str, ran: &Ran) -> (r: Option<String>)
    ensures
        text::opt_view(r) == attributes_error(url@, *ran),
{
    match ran {
        Ran::NotStarted(_) => Some(cat2("spawn `aws sqs get-queue-attributes` for ", url)),
        Ran::Failed(e) => Some(
            cat4("aws sqs get-queue-attributes failed for ", url, ": ", trim(e.as_str())),
        ),
        Ran::Done(_) => None,
    }
}

/// A number of seconds since the epoch as a date with the minute.
pub fn fmt_epoch_secs(s: &str) -> (r: Option<String>)
    ensures
        text::opt_view(r) == (match numeral::parsed_signed(s@) {
            Some(n) => clock::utc_minute(n as i64),
            None => None,
        }),
{
    match parse_i64(s) {
        Some(n) => utc_minute_text(n),
        None => None,
    }
}

/// A number of seconds as a short span of time.
pub fn fmt_duration_secs(s: u64) -> (r: String)
    ensures
        r@ == clock::span_words(s as nat),
{
    span_text(s)
}

/// Queues are listed by name, whatever the case of its letters, and none is lost
/// or added.
pub proof fn law_queues_in_order(urls: Seq<String>)
    ensures
        order::in_order(listed(urls), |a: String, b: String| order::lower_before(text::after_last(a@, '/'), text::after_last(b@, '/'))),
        listed(urls).to_multiset() == urls.to_multiset(),
{
    let less = |a: String, b: String| order::lower_before(text::after_last(a@, '/'), text::after_last(b@, '/'));
    order::lemma_key_orders(less, |a: String| text::lowercased(text::after_last(a@, '/')));
    order::law_sorted(urls, less);
}

/// The label of a queue whose attributes are read counts first the messages that
/// wait and then those in flight; an attribute that is missing or no number counts
/// as none.
pub proof fn law_label_counts_messages(q: Queue, visible: nat, in_flight: nat)
    requires
        q.attributes is Some,
        q.attributes->0.attr("ApproximateNumberOfMessages"@) matches Some(s) && s == numeral::decimal(visible) && visible
            <= u64::MAX,
        q.attributes->0.attr("ApproximateNumberOfMessagesNotVisible"@) matches Some(s) && s == numeral::decimal(
            in_flight,
        ) && in_flight <= u64::MAX,
    ensures
        text::has_prefix(
            queue_label(q),
            numeral::decimal(visible) + " msg · "@ + numeral::decimal(in_flight) + " in-flight"@,
        ),
{
    numeral::law_reading_keeps_the_bound(visible, u64::MAX as nat);
    numeral::law_reading_keeps_the_bound(in_flight, u64::MAX as nat);
    let p = numeral::decimal(visible) + " msg · "@ + numeral::decimal(in_flight) + " in-flight"@;
    let l = queue_label(q);
    assert(l.take(p.len() as int) =~= p);
}

/// The whole label: the counts, the messages that are delayed, and marks for a queue
/// that keeps the order, has a dead letter queue, or is one.
pub proof fn law_label_of_a_queue(q: Queue, visible: nat, in_flight: nat)
    requires
        q.attributes is Some,
        q.attributes->0.attr("ApproximateNumberOfMessages"@) matches Some(s) && s == numeral::decimal(visible) && visible
            <= u64::MAX,
        q.attributes->0.attr("ApproximateNumberOfMessagesNotVisible"@) matches Some(s) && s == numeral::decimal(
            in_flight,
        ) && in_flight <= u64::MAX,
    ensures
        ({
            let a = q.attributes->0;
            let counts = numeral::decimal(visible) + " msg · "@ + numeral::decimal(in_flight) + " in-flight"@;
            let l = queue_label(q);
            let n = q.redrive_sources@.len();
            let plain = a.attr("ApproximateNumberOfMessagesDelayed"@) is None || a.attr(
                "ApproximateNumberOfMessagesDelayed"@,
            ) == Some("0"@);
            let fifo = text::has_suffix(q.url@, ".fifo"@);
            let down = a.attr("RedrivePolicy"@) is Some;
            &&& plain && !fifo && !down && n == 0 ==> l == counts
            &&& plain && fifo && !down && n == 0 ==> l == counts + " · FIFO"@
            &&& plain && !fifo && down && n == 0 ==> l == counts + " · ↓ DLQ"@
            &&& plain && !fifo && !down && n == 1 ==> l == counts + " · ↑ DLQ"@
            &&& plain && !fifo && !down && n > 1 ==> l == counts + (" · ↑ DLQ x"@ + numeral::decimal(n))
            &&& forall|d: nat|
                0 < d <= u64::MAX && a.attr("ApproximateNumberOfMessagesDelayed"@) == Some(
                    #[trigger] numeral::decimal(d),
                ) && !fifo && !down && n == 0 ==> l == counts + (" · "@ + numeral::decimal(d) + " delayed"@)
            &&& fifo ==> text::has_part(l, " · FIFO"@)
            &&& down ==> text::has_part(l, " · ↓ DLQ"@)
            &&& n > 0 ==> text::has_part(l, " · ↑ DLQ"@)
        }),
{
    reveal_strlit("");
    reveal_strlit("0");
    reveal_strlit(" · ↑ DLQ");
    reveal_strlit(" · ↑ DLQ x");
    numeral::law_reading_keeps_the_bound(visible, u64::MAX as nat);
    numeral::law_reading_keeps_the_bound(in_flight, u64::MAX as nat);
    numeral::law_reading_keeps_the_bound(0, u64::MAX as nat);
    assert(numeral::decimal(0) =~= "0"@);
    let a = q.attributes->0;
    let counts = numeral::decimal(visible) + " msg · "@ + numeral::decimal(in_flight) + " in-flight"@;
    let l = queue_label(q);
    let n = q.redrive_sources@.len();
    let delayed = or_zero(as_number(a.attr("ApproximateNumberOfMessagesDelayed"@)));
    let fifo = text::has_suffix(q.url@, ".fifo"@);
    let down = a.attr("RedrivePolicy"@) is Some;
    let late = if delayed > 0 {
        " · "@ + numeral::decimal(delayed) + " delayed"@
    } else {
        ""@
    };
    let f = if fifo {
        " · FIFO"@
    } else {
        ""@
    };
    let d = if down {
        " · ↓ DLQ"@
    } else {
        ""@
    };
    let u = if n == 0 {
        ""@
    } else if n == 1 {
        " · ↑ DLQ"@
    } else {
        " · ↑ DLQ x"@ + numeral::decimal(n)
    };
    assert(l == counts + late + f + d + u);
    assert(counts + ""@ =~= counts);
    assert(l =~= counts + (late + (f + (d + u))));
    assert(""@ + ""@ =~= ""@);
    assert(f + ""@ =~= f && d + ""@ =~= d && late + ""@ =~= late && ""@ + u =~= u && ""@ + d =~= d && ""@ + f =~= f);
    assert forall|k: nat|
        0 < k <= u64::MAX && a.attr("ApproximateNumberOfMessagesDelayed"@) == Some(#[trigger] numeral::decimal(k))
            && !fifo && !down && n == 0 implies l == counts + (" · "@ + numeral::decimal(k) + " delayed"@) by {
        numeral::law_reading_keeps_the_bound(k, u64::MAX as nat);
    }
    if fifo {
        text::law_part_of_a_text(counts + late, f, d + u);
        assert(l =~= counts + late + f + (d + u));
    }
    if down {
        text::law_part_of_a_text(counts + late + f, d, u);
    }
    if n > 0 {
        let up = " · ↑ DLQ"@;
        let rest = u.skip(up.len() as int);
        assert(" · ↑ DLQ x"@.take(up.len() as int) =~= up);
        assert(u.take(up.len() as int) =~= up);
        assert(u =~= up + rest);
        text::law_part_of_a_text(counts + late + f + d, up, rest);
        assert(l =~= counts + late + f + d + up + rest);
    }
}

/// Of a queue whose attributes are not read nothing is counted.
pub proof fn law_label_of_unread_queue(q: Queue)
    ensures
        queue_label(q) == "(attrs not loaded)"@ <== q.attributes is None,
{
}

/// A queue is named by what stands behind the last slash of its URL.
pub proof fn law_queue_has_its_name(head: Seq<char>, name: Seq<char>, url: &str, r: &str)
    requires
        call_ensures(queue_name_from_url, (url,), r),
        url@ == head + seq!['/'] + name,
        !name.contains('/'),
    ensures
        r@ == name,
{
    text::law_after_last(head, '/', name);
}

} // verus!
