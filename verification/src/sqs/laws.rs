//! What holds of the queues browser: what is read of a queue, which queue is the dead
//! letter queue of which, and what is drawn.

use vstd::prelude::*;

use crate::clock;
use crate::command::Ran;
use crate::json;
use crate::json::JsonV;
use crate::keys::Key;
use crate::numeral;
use crate::order;
use crate::screen;
use crate::screen::{Color, Line, Style};
use crate::sqs::app;
use crate::sqs::app::{App, Fetch, SpecV, TabSpec, TabState, Wanted};
use crate::sqs::config::{Config, Tab};
use crate::sqs::keys;
use crate::sqs::keys::Action;
use crate::sqs::sqs;
use crate::sqs::sqs::{DlqStats, Queue, QueueAttributes};
use crate::sqs::ui;
use crate::tabs;
use crate::tabs::BrowserV;
use crate::tabs::Pane;
use crate::text;

verus! {

/// Each number of a queue is read from the attribute of its name.
pub proof fn law_numbers_of_a_queue(
    a: &QueueAttributes,
    n: nat,
    waiting: Option<u64>,
    in_flight: Option<u64>,
    delayed: Option<u64>,
    timeout: Option<u64>,
    retention: Option<u64>,
    delay: Option<u64>,
    size: Option<u64>,
    wait: Option<u64>,
)
    requires
        n <= u64::MAX,
        call_ensures(QueueAttributes::approximate_messages, (a,), waiting),
        call_ensures(QueueAttributes::approximate_messages_not_visible, (a,), in_flight),
        call_ensures(QueueAttributes::approximate_messages_delayed, (a,), delayed),
        call_ensures(QueueAttributes::visibility_timeout, (a,), timeout),
        call_ensures(QueueAttributes::message_retention_period, (a,), retention),
        call_ensures(QueueAttributes::delay_seconds, (a,), delay),
        call_ensures(QueueAttributes::maximum_message_size, (a,), size),
        call_ensures(QueueAttributes::receive_message_wait_time_seconds, (a,), wait),
    ensures
        a.attr("ApproximateNumberOfMessages"@) == Some(numeral::decimal(n)) ==> waiting == Some(n as u64),
        a.attr("ApproximateNumberOfMessages"@) is None ==> waiting is None,
        a.attr("ApproximateNumberOfMessagesNotVisible"@) == Some(numeral::decimal(n)) ==> in_flight == Some(n as u64),
        a.attr("ApproximateNumberOfMessagesNotVisible"@) is None ==> in_flight is None,
        a.attr("ApproximateNumberOfMessagesDelayed"@) == Some(numeral::decimal(n)) ==> delayed == Some(n as u64),
        a.attr("VisibilityTimeout"@) == Some(numeral::decimal(n)) ==> timeout == Some(n as u64),
        a.attr("MessageRetentionPeriod"@) == Some(numeral::decimal(n)) ==> retention == Some(n as u64),
        a.attr("DelaySeconds"@) == Some(numeral::decimal(n)) ==> delay == Some(n as u64),
        a.attr("MaximumMessageSize"@) == Some(numeral::decimal(n)) ==> size == Some(n as u64),
        a.attr("ReceiveMessageWaitTimeSeconds"@) == Some(numeral::decimal(n)) ==> wait == Some(n as u64),
{
    numeral::law_reading_keeps_the_bound(n, u64::MAX as nat);
}

/// The name by which a queue is known, its policy, and whether it has a dead letter
/// queue are read from their attributes too.
pub proof fn law_texts_of_a_queue(a: &QueueAttributes, arn: Option<&str>, policy: Option<&str>, has: bool)
    requires
        call_ensures(QueueAttributes::arn, (a,), arn),
        call_ensures(QueueAttributes::redrive_policy, (a,), policy),
        call_ensures(QueueAttributes::has_dlq, (a,), has),
    ensures
        text::opt_str_view(arn) == a.attr("QueueArn"@),
        text::opt_str_view(policy) == a.attr("RedrivePolicy"@),
        has <==> a.attr("RedrivePolicy"@) is Some,
{
}

/// An attribute is what the table of attributes holds under its name.
pub proof fn law_attributes_by_name(a: QueueAttributes, k: Seq<char>)
    ensures
        a.raw@.dom().contains(k) ==> a.attr(k) == Some(a.raw@[k]@),
        !a.raw@.dom().contains(k) ==> a.attr(k) is None,
{
}

/// A queue keeps the order of its messages exactly where its URL says so.
pub proof fn law_queues_that_keep_the_order(q: &Queue, r: bool)
    requires
        call_ensures(Queue::is_fifo, (q,), r),
    ensures
        r <==> text::has_suffix(q.url@, ".fifo"@),
{
}

/// A number of seconds is told as a span of time.
pub proof fn law_seconds_as_a_span(s: u64, r: String)
    requires
        call_ensures(sqs::fmt_duration_secs, (s,), r),
    ensures
        r@ == clock::span_words(s as nat),
{
}

/// The dead letter queue of a queue is the one that its policy names.
pub proof fn law_policy_names_the_dead_letter_queue(q: Queue, policy: Seq<char>, v: JsonV)
    requires
        q.attributes is Some,
        q.attributes->0.attr("RedrivePolicy"@) == Some(policy),
        json::json_in_text(policy) == Some(v),
    ensures
        app::target(q) == json::text_member(v, "deadLetterTargetArn"@),
{
}

/// A queue without attributes, or without a policy, has no dead letter queue; its own
/// name is read from its attributes.
pub proof fn law_queues_without_policy(q: Queue)
    ensures
        q.attributes is None ==> app::target(q) is None && app::arn(q) is None,
        q.attributes is Some && q.attributes->0.attr("RedrivePolicy"@) is None ==> app::target(q) is None,
        q.attributes is Some ==> app::arn(q) == q.attributes->0.attr("QueueArn"@),
{
}

/// The queues that a queue serves are those whose policy names it, by name and in
/// order.
pub proof fn law_served_queues(all: Seq<Queue>, q: Queue, name: Seq<char>)
    ensures
        app::arn(q) is Some ==> (app::sources_of(all, q).contains(name) <==> exists|i: int|
            0 <= i < all.len() && app::target(#[trigger] all[i]) == app::arn(q) && text::after_last(all[i].url@, '/')
                == name),
        app::arn(q) is None ==> app::sources_of(all, q).len() == 0,
        order::in_order(app::sources_of(all, q), |a: Seq<char>, b: Seq<char>| text::before(a, b)),
{
    if app::arn(q) is Some {
        let names = app::names_pointing_at(all, app::arn(q)->0);
        app::law_sources(all, app::arn(q)->0, name);
        order::law_texts_in_order(names);
        let s = order::sorted_texts(names);
        vstd::seq_lib::to_multiset_contains(names, name);
        vstd::seq_lib::to_multiset_contains(s, name);
    }
}

/// The messages of the dead letter queue are those of the queue that is named as such:
/// first those that wait, then those in flight.
pub proof fn law_messages_of_the_dead_letter_queue(
    all: Seq<Queue>,
    q: Queue,
    i: int,
    waiting: nat,
    in_flight: nat,
)
    requires
        0 <= i < all.len(),
        app::arn(q) is Some,
        app::target(q) is Some,
        app::arn(all[i]) == app::target(q),
        forall|j: int| i < j < all.len() ==> app::arn(#[trigger] all[j]) != app::target(q),
        all[i].attributes->0.attr("ApproximateNumberOfMessages"@) == Some(numeral::decimal(waiting)),
        all[i].attributes->0.attr("ApproximateNumberOfMessagesNotVisible"@) == Some(numeral::decimal(in_flight)),
        waiting <= u64::MAX,
        in_flight <= u64::MAX,
    ensures
        app::dlq_of(all, q) == Some(DlqStats { visible: waiting as u64, in_flight: in_flight as u64 }),
{
    numeral::law_reading_keeps_the_bound(waiting, u64::MAX as nat);
    numeral::law_reading_keeps_the_bound(in_flight, u64::MAX as nat);
    lemma_stats_at(all, app::target(q)->0, i);
}

proof fn lemma_stats_at(q: Seq<Queue>, a: Seq<char>, i: int)
    requires
        0 <= i < q.len(),
        app::arn(q[i]) == Some(a),
        forall|j: int| i < j < q.len() ==> app::arn(#[trigger] q[j]) != Some(a),
    ensures
        app::stats_at(q, a) == Some(app::stats(q[i].attributes->0)),
    decreases q.len(),
{
    if i < q.len() - 1 {
        assert(app::arn(q[q.len() - 1]) != Some(a));
        assert forall|j: int| i < j < q.drop_last().len() implies app::arn(#[trigger] q.drop_last()[j]) != Some(a) by {
            assert(q.drop_last()[j] == q[j]);
        }
        lemma_stats_at(q.drop_last(), a, i);
    }
}

proof fn lemma_first_arn(q: Seq<Queue>, a: Seq<char>)
    ensures
        app::first_arn(q, a) matches Some(i) ==> 0 <= i < q.len() && app::arn(q[i]) == Some(a),
        app::first_arn(q, a) is None ==> forall|j: int| 0 <= j < q.len() ==> app::arn(#[trigger] q[j]) != Some(a),
    decreases q.len(),
{
    if q.len() > 0 {
        let t = q.drop_last();
        lemma_first_arn(t, a);
        if app::first_arn(q, a) is None {
            assert forall|j: int| 0 <= j < q.len() implies app::arn(#[trigger] q[j]) != Some(a) by {
                if j < t.len() {
                    assert(t[j] == q[j]);
                }
            }
        }
    }
}

proof fn lemma_first_name(q: Seq<Queue>, n: Seq<char>)
    ensures
        app::first_name(q, n) matches Some(i) ==> 0 <= i < q.len() && text::after_last(q[i].url@, '/') == n,
        app::first_name(q, n) is None ==> forall|j: int|
            0 <= j < q.len() ==> text::after_last((#[trigger] q[j]).url@, '/') != n,
    decreases q.len(),
{
    if q.len() > 0 {
        let t = q.drop_last();
        lemma_first_name(t, n);
        if app::first_name(q, n) is None {
            assert forall|j: int| 0 <= j < q.len() implies text::after_last((#[trigger] q[j]).url@, '/') != n by {
                if j < t.len() {
                    assert(t[j] == q[j]);
                }
            }
        }
    }
}

/// From a queue the cursor jumps to its dead letter queue, if that one is listed; from a
/// queue without one to the first queue that it serves. Nothing else moves.
pub proof fn law_jump_to_the_dead_letter_queue(b: BrowserV<TabSpec, Queue>, j: int)
    requires
        b.valid(),
        0 <= b.list().selected < b.list().items.len(),
    ensures
        ({
            let l = b.list();
            let q = l.items[l.selected];
            let r = app::jumped(b).list();
            &&& r.items == l.items
            &&& app::target(q) is Some && 0 <= j < l.items.len() && app::arn(l.items[j]) == app::target(q) ==> 0
                <= r.selected < l.items.len() && app::arn(l.items[r.selected]) == app::target(q)
            &&& app::target(q) is Some && (forall|k: int|
                0 <= k < l.items.len() ==> app::arn(#[trigger] l.items[k]) != app::target(q)) ==> r.selected == l.selected
            &&& app::target(q) is None && q.redrive_sources@.len() > 0 && 0 <= j < l.items.len() && text::after_last(
                l.items[j].url@,
                '/',
            ) == q.redrive_sources@[0]@ ==> 0 <= r.selected < l.items.len() && text::after_last(
                l.items[r.selected].url@,
                '/',
            ) == q.redrive_sources@[0]@
            &&& app::target(q) is None && q.redrive_sources@.len() == 0 ==> r.selected == l.selected
        }),
{
    let l = b.list();
    let q = l.items[l.selected];
    assert(l.focused() == Some(q));
    if app::target(q) is Some {
        lemma_first_arn(l.items, app::target(q)->0);
    } else if q.redrive_sources@.len() > 0 {
        lemma_first_name(l.items, q.redrive_sources@[0]@);
    }
}

proof fn lemma_unread(q: Seq<Queue>, i: int)
    ensures
        app::unread(q).contains(i) <==> 0 <= i < q.len() && q[i].attributes is None,
    decreases q.len(),
{
    if q.len() > 0 {
        let t = q.drop_last();
        lemma_unread(t, i);
        let rest = app::unread(t);
        if q.last().attributes is None {
            let s = rest.push(q.len() - 1);
            assert(s[rest.len() as int] == q.len() - 1);
            if rest.contains(i) {
                let k = choose|k: int| 0 <= k < rest.len() && rest[k] == i;
                assert(s[k] == i);
            }
            if s.contains(i) && i != q.len() - 1 {
                let k = choose|k: int| 0 <= k < s.len() && s[k] == i;
                assert(rest[k] == i);
            }
        }
    }
}

/// The attributes of exactly those queues are asked for that have none.
pub proof fn law_unread_queues_are_asked_for(q: Seq<Queue>, i: int, b: BrowserV<TabSpec, Queue>)
    ensures
        app::unread(q).contains(i) <==> 0 <= i < q.len() && q[i].attributes is None,
        b.list().focused() is Some && b.list().focused()->0.attributes is None ==> app::attributes_due(b) is Some
            && app::attributes_due(b)->0.url == b.list().focused()->0.url@ && app::attributes_due(b)->0.index
            == b.list().selected && app::attributes_due(b)->0.region == b.active().spec@.region,
        b.list().focused() is Some && b.list().focused()->0.attributes is Some ==> app::attributes_due(b) is None,
{
    lemma_unread(q, i);
}

/// Attributes that were read belong to the queue they were asked for; an error changes
/// nothing.
pub proof fn law_attributes_arrive(
    q: Seq<Queue>,
    results: Seq<(usize, Result<QueueAttributes, String>)>,
    i: usize,
    a: QueueAttributes,
    e: String,
)
    requires
        i < app::with_attributes(q, results).len(),
    ensures
        app::with_attributes(q, results.push((i, Ok(a))))[i as int].attributes == Some(a),
        app::with_attributes(q, results.push((i, Ok(a))))[i as int].url == app::with_attributes(q, results)[i as int].url,
        app::with_attributes(q, results.push((i, Err(e)))) == app::with_attributes(q, results),
        app::read_count(results.push((i, Ok(a)))) == app::read_count(results) + 1,
        app::read_count(results.push((i, Err(e)))) == app::read_count(results),
{
    assert(results.push((i, Ok::<QueueAttributes, String>(a))).drop_last() =~= results);
    assert(results.push((i, Err::<QueueAttributes, String>(e))).drop_last() =~= results);
}

/// Queues that serve others are counted, one by one.
pub proof fn law_dead_letter_queues_are_counted(q: Seq<Queue>, x: Queue)
    ensures
        app::dlq_count(Seq::<Queue>::empty()) == 0,
        x.redrive_sources@.len() > 0 ==> app::dlq_count(q.push(x)) == app::dlq_count(q) + 1,
        x.redrive_sources@.len() == 0 ==> app::dlq_count(q.push(x)) == app::dlq_count(q),
{
    assert(q.push(x).drop_last() =~= q);
}

/// A tab lists all queues or those whose names begin in a certain way; of another kind
/// there is none.
pub proof fn law_tabs_of_the_settings(t: Tab, region: Option<Seq<char>>)
    ensures
        ({
            let r = app::resolved(t, region);
            &&& t.kind@ == "all"@ ==> r is Ok && r->Ok_0.kind == "all"@ && r->Ok_0.prefix is None
            &&& t.kind@ == "prefix"@ && t.prefix is Some && text::trimmed(t.prefix->0@).len() > 0 ==> r is Ok
                && r->Ok_0.kind == "prefix"@ && r->Ok_0.prefix == Some(t.prefix->0@)
            &&& t.kind@ == "prefix"@ && t.prefix is None ==> r is Err
            &&& t.kind@ != "all"@ && t.kind@ != "prefix"@ ==> r is Err
            &&& r is Ok && t.region is Some ==> r->Ok_0.region == Some(t.region->0@)
            &&& r is Ok && t.region is None ==> r->Ok_0.region == region
        }),
{
    reveal_strlit("all");
    reveal_strlit("prefix");
    assert("all"@.len() == 3 && "prefix"@.len() == 6);
    text::law_trimmed_text_stays(Seq::empty());
}

/// What a tab asks for: its prefix where it has one, in its region.
pub proof fn law_request_of_a_tab(f: Fetch, spec: SpecV)
    requires
        app::is_fetch(f, spec),
    ensures
        spec.kind == "prefix"@ ==> text::opt_view(f.prefix) == spec.prefix,
        spec.kind == "all"@ ==> f.prefix is None,
        text::opt_view(f.region) == spec.region,
{
    reveal_strlit("all");
    reveal_strlit("prefix");
    assert("all"@.len() == 3 && "prefix"@.len() == 6);
}

/// The page of a queue in the console.
pub proof fn law_page_of_a_queue(r: Seq<char>, url: Seq<char>)
    ensures
        app::console_url(Some(r), url) == "https://"@ + r + ".console.aws.amazon.com/sqs/v3/home?region="@ + r
            + "#/queues/"@ + crate::url::encoded_path(url),
{
}

/// The command lines for the queues and for the attributes of one.
pub proof fn law_command_lines(prefix: Seq<char>, r: Seq<char>, token: Seq<char>, url: Seq<char>)
    ensures
        sqs::list_command(Some(prefix), Some(r), Some(token)) =~= seq![
            "sqs"@,
            "list-queues"@,
            "--max-results"@,
            "1000"@,
            "--output"@,
            "json"@,
            "--queue-name-prefix"@,
            prefix,
            "--region"@,
            r,
            "--next-token"@,
            token,
        ],
        sqs::attributes_command(url, Some(r)) =~= seq![
            "sqs"@,
            "get-queue-attributes"@,
            "--queue-url"@,
            url,
            "--attribute-names"@,
            "All"@,
            "--output"@,
            "json"@,
            "--region"@,
            r,
        ],
{
}

/// A queue with many messages that wait or are in flight stands out.
pub proof fn law_colours_of_queues(q: Queue, waiting: nat, in_flight: nat)
    requires
        q.attributes is Some,
        q.attributes->0.attr("ApproximateNumberOfMessages"@) == Some(numeral::decimal(waiting)),
        q.attributes->0.attr("ApproximateNumberOfMessagesNotVisible"@) == Some(numeral::decimal(in_flight)),
        waiting <= u64::MAX,
        in_flight <= u64::MAX,
    ensures
        ui::queue_color(q) == Color::Yellow <==> waiting > 1000 || in_flight > 100,
        ui::queue_color(q) == Color::Gray <==> waiting <= 1000 && in_flight <= 100,
{
    numeral::law_reading_keeps_the_bound(waiting, u64::MAX as nat);
    numeral::law_reading_keeps_the_bound(in_flight, u64::MAX as nat);
}

/// The row of a queue has its name and its label.
pub proof fn law_row_of_a_queue(q: Seq<Queue>, selected: int, i: int)
    requires
        0 <= i < q.len(),
    ensures
        ({
            let r = ui::queue_row(q, selected, i);
            let name = text::after_last(q[i].url@, '/');
            &&& r.len() == 1
            &&& text::has_suffix(r[0].0, sqs::queue_label(q[i]))
            &&& name.len() <= 28 ==> text::has_part(r[0].0, name)
            &&& i == selected ==> text::has_prefix(r[0].0, "▸ "@)
            &&& i != selected ==> r[0].1.fg == ui::queue_color(q[i])
        }),
{
    tabs::law_row_of_a_list(
        text::after_last(q[i].url@, '/'),
        28,
        sqs::queue_label(q[i]),
        crate::screen::colored(ui::queue_color(q[i])),
    );
}

/// The details of a queue begin with its name and its type, and then count the messages
/// that wait and those in flight.
pub proof fn law_details_of_a_queue(q: Queue, waiting: nat, in_flight: nat)
    requires
        q.attributes is Some,
        q.attributes->0.attr("ApproximateNumberOfMessages"@) == Some(numeral::decimal(waiting)),
        q.attributes->0.attr("ApproximateNumberOfMessagesNotVisible"@) == Some(numeral::decimal(in_flight)),
        waiting <= u64::MAX,
        in_flight <= u64::MAX,
    ensures
        ({
            let d = ui::detail_lines(q);
            &&& d.len() >= 6
            &&& d[0] == tabs::detail_row("Name"@, 22, text::after_last(q.url@, '/'))
            &&& d[1] == tabs::detail_row(
                "Type"@,
                22,
                if text::has_suffix(q.url@, ".fifo"@) {
                    "FIFO"@
                } else {
                    "Standard"@
                },
            )
            &&& d[4] == tabs::detail_row("ApproxNumMessages"@, 22, numeral::decimal(waiting))
            &&& d[5] == tabs::detail_row("ApproxNotVisible"@, 22, numeral::decimal(in_flight))
        }),
{
    numeral::law_reading_keeps_the_bound(waiting, u64::MAX as nat);
    numeral::law_reading_keeps_the_bound(in_flight, u64::MAX as nat);
}

/// What the keys do that only this browser knows.
pub proof fn law_keys(ctrl: bool, active: int, tabs: int)
    ensures
        keys::action(Key::Char('y'), ctrl, active, tabs) == Some(Action::YankUrl),
        keys::action(Key::Char('Y'), ctrl, active, tabs) == Some(Action::YankArn),
        keys::action(Key::Char('A'), ctrl, active, tabs) == Some(Action::LoadAll),
        keys::action(Key::Char('L'), ctrl, active, tabs) == Some(Action::JumpToDlq),
        keys::action(Key::Char('q'), ctrl, active, tabs) == Some(Action::Common(crate::keys::Common::Quit)),
{
}

/// Moving takes the cursor that far, but not out of the list, and leaves the list and
/// the tab alone.
pub proof fn law_moving_the_cursor(a: &mut App, delta: isize, w: Option<Wanted>)
    requires
        old(a).wf(),
        call_ensures(App::move_selection, (a, delta), w),
    ensures
        ({
            let l = old(a).browser().list();
            let r = final(a).browser().list();
            &&& final(a).browser().active_tab == old(a).browser().active_tab
            &&& r.items == l.items
            &&& 0 <= l.selected + delta < l.items.len() ==> r.selected == l.selected + delta
            &&& l.items.len() > 0 && l.selected + delta < 0 ==> r.selected == 0
            &&& l.items.len() > 0 && l.selected + delta >= l.items.len() ==> r.selected == l.items.len() - 1
        }),
{
}

/// A tab that is chosen is shown; a number behind the last tab changes nothing.
pub proof fn law_choosing_a_tab(a: &mut App, i: usize, r: Option<Fetch>)
    requires
        old(a).wf(),
        call_ensures(App::switch_tab, (a, i), r),
    ensures
        i < old(a).tabs@.len() ==> final(a).active_tab == i,
        i >= old(a).tabs@.len() ==> final(a).active_tab == old(a).active_tab && r is None,
        i < old(a).tabs@.len() ==> (r is Some <==> old(a).tabs@[i as int].data@.items.len() == 0
            && old(a).tabs@[i as int].data@.last_error is None),
{
    assert(final(a).browser().active_tab == final(a).active_tab);
    if i < old(a).tabs@.len() {
        assert(old(a).browser().tabs[i as int].data == old(a).tabs@[i as int].data@);
    }
}

/// A load that is begun is shown as such, and nothing is lost.
pub proof fn law_begun_load(a: &mut App, r: Fetch)
    requires
        old(a).wf(),
        call_ensures(App::refresh_active, (a,), r),
    ensures
        final(a).browser().list().loading,
        final(a).browser().list().items == old(a).browser().list().items,
        final(a).status@ == "loading "@ + old(a).browser().active().name + "…"@,
{
    assert(final(a).browser().status == final(a).status@);
}

/// The queues that were loaded take the place of the list, by their URLs and without
/// attributes; an error is told and keeps the list.
pub proof fn law_ended_load(a: &mut App, urls: Vec<String>, b: &mut App, e: String, now: u64, i: int)
    requires
        old(a).wf(),
        old(b).wf(),
        call_ensures(App::refresh_done, (a, Ok::<Vec<String>, String>(urls), now), ()),
        call_ensures(App::refresh_done, (b, Err::<Vec<String>, String>(e), now), ()),
    ensures
        final(a).browser().list().items.len() == urls@.len(),
        0 <= i < urls@.len() ==> final(a).browser().list().items[i].url@ == urls@[i]@
            && final(a).browser().list().items[i].attributes is None,
        final(a).browser().list().last_loaded == Some(now),
        !final(a).browser().list().loading,
        final(a).status@ == old(a).browser().active().name + ": "@ + numeral::decimal(urls@.len()) + " "@ + "queues"@,
        final(b).browser().list().items == old(b).browser().list().items,
        !final(b).browser().list().loading,
        final(b).browser().list().last_error == Some(e@),
        final(b).status@ == "error: "@ + e@,
{
    assert(final(a).browser().status == final(a).status@);
    assert(final(b).browser().status == final(b).status@);
}

/// The list is loaded again by itself once it is as old as the interval says, unless the
/// interval is nothing or a load is under way.
pub proof fn law_loading_again(a: &mut App, now: u64, r: Option<Fetch>)
    requires
        old(a).wf(),
        call_ensures(App::tick, (a, now), r),
    ensures
        ({
            let l = old(a).browser().list();
            let every = old(a).cfg.refresh_interval_secs;
            &&& every == 0 || l.loading ==> r is None
            &&& every > 0 && !l.loading && l.last_loaded is None ==> r is Some
            &&& every > 0 && !l.loading && l.last_loaded is Some && now >= l.last_loaded->0 ==> (r is Some <==> now
                - l.last_loaded->0 >= 1000 * every)
            &&& final(a).browser().list().items == l.items
        }),
{
    let l = old(a).browser().list();
    if l.last_loaded is Some && now >= l.last_loaded->0 {
        let d = now - l.last_loaded->0;
        assert(d / 1000 >= old(a).cfg.refresh_interval_secs <==> d >= 1000 * old(a).cfg.refresh_interval_secs);
    }
}

/// What is copied is the URL or the ARN of the queue under the cursor.
pub proof fn law_what_is_copied(a: &mut App, b: &mut App, r: Option<String>, s: Option<String>)
    requires
        old(a).wf(),
        old(b).wf(),
        call_ensures(App::yank_url, (a,), r),
        call_ensures(App::yank_arn, (b,), s),
        old(a).browser().list().focused() is Some,
        old(b).browser().list().focused() is Some,
    ensures
        r is Some && r->0@ == old(a).browser().list().focused()->0.url@,
        ({
            let q = old(b).browser().list().focused()->0;
            &&& q.attributes is None ==> s is None
            &&& q.attributes is Some ==> text::opt_view(s) == q.attributes->0.attr("QueueArn"@)
        }),
{
}

/// The page that is opened is that of the queue under the cursor.
pub proof fn law_page_that_is_opened(a: &mut App, region: Seq<char>, r: Option<String>)
    requires
        old(a).wf(),
        call_ensures(App::open_console, (a,), r),
        old(a).browser().active().spec@.region == Some(region),
        old(a).browser().list().focused() is Some,
    ensures
        r is Some,
        r->0@ == "https://"@ + region + ".console.aws.amazon.com/sqs/v3/home?region="@ + region + "#/queues/"@
            + crate::url::encoded_path(old(a).browser().list().focused()->0.url@),
{
}

/// The jump of the browser is the jump from one queue to the other.
pub proof fn law_jump_of_the_browser(a: &mut App)
    requires
        old(a).wf(),
        call_ensures(App::jump_to_dlq, (a,), ()),
    ensures
        final(a).browser() == app::jumped(old(a).browser()),
{
}

/// Attributes that were read belong to the queue they were asked for, and no other queue
/// changes; an error is told.
pub proof fn law_attributes_of_one_queue_arrive(
    a: &mut App,
    b: &mut App,
    i: usize,
    attributes: QueueAttributes,
    e: String,
)
    requires
        old(a).wf(),
        old(b).wf(),
        i < old(a).browser().list().items.len(),
        i < old(b).browser().list().items.len(),
        call_ensures(App::attributes_done, (a, i, Ok::<QueueAttributes, String>(attributes)), ()),
        call_ensures(App::attributes_done, (b, i, Err::<QueueAttributes, String>(e)), ()),
    ensures
        ({
            let s = old(a).browser().list().items;
            let r = final(a).browser().list().items;
            &&& r.len() == s.len()
            &&& r[i as int].attributes == Some(attributes) && r[i as int].url == s[i as int].url
            &&& forall|j: int| 0 <= j < s.len() && j != i ==> r[j] == #[trigger] s[j]
        }),
        final(b).browser().list().items == old(b).browser().list().items,
        final(b).status@ == "attrs: "@ + e@,
{
    assert(final(b).browser().status == final(b).status@);
}

/// The attributes of a queue without any are asked for, by its URL.
pub proof fn law_attributes_are_asked_for(a: &App, r: Option<Wanted>)
    requires
        a.wf(),
        call_ensures(App::ensure_focused_loaded, (a,), r),
        a.browser().list().focused() is Some,
    ensures
        ({
            let q = a.browser().list().focused()->0;
            &&& q.attributes is Some ==> r is None
            &&& q.attributes is None ==> r is Some && r->0.url@ == q.url@ && r->0.index == a.browser().list().selected
                && text::opt_view(r->0.region) == a.browser().active().spec@.region
        }),
{
}

/// Once the queues are correlated each knows the names of the queues that it serves.
pub proof fn law_correlated_queues(a: &mut App, i: int, name: Seq<char>)
    requires
        old(a).wf(),
        call_ensures(App::recompute_redrive_sources, (a,), ()),
        0 <= i < old(a).browser().list().items.len(),
        app::arn(old(a).browser().list().items[i]) is Some,
    ensures
        ({
            let s = old(a).browser().list().items;
            let r = final(a).browser().list().items;
            &&& r.len() == s.len()
            &&& r[i].url == s[i].url && r[i].attributes == s[i].attributes
            &&& text::views(r[i].redrive_sources@).contains(name) <==> exists|j: int|
                0 <= j < s.len() && app::target(#[trigger] s[j]) == app::arn(s[i]) && text::after_last(s[j].url@, '/')
                    == name
        }),
{
    let s = old(a).browser().list().items;
    let r = final(a).browser().list().items;
    assert(app::correlated(s, s[i], r[i]));
    law_served_queues(s, s[i], name);
}

proof fn lemma_tabs_error(t: Seq<Tab>, region: Option<Seq<char>>, n: int)
    requires
        0 <= n <= t.len(),
    ensures
        app::tabs_of(t, region, n) is None <==> forall|i: int|
            0 <= i < n ==> (#[trigger] app::resolved(t[i], region)) is Ok,
    decreases n,
{
    if n > 0 {
        lemma_tabs_error(t, region, n - 1);
        if app::tabs_of(t, region, n) is None {
            assert forall|i: int| 0 <= i < n implies (#[trigger] app::resolved(t[i], region)) is Ok by {
                if i == n - 1 {
                    assert(app::resolved(t[n - 1], region) is Ok);
                }
            }
        } else if app::tabs_of(t, region, n - 1) is None {
            assert(app::resolved(t[n - 1], region) is Err);
        }
    }
}

/// A browser begins with the first of its tabs, each under its name and empty; it does
/// not begin where one of them is refused.
pub proof fn law_fresh_browser(cfg: Config, r: Result<App, String>, i: int)
    requires
        cfg.tabs@.len() > 0,
        call_ensures(App::new, (cfg,), r),
    ensures
        r is Ok <==> forall|j: int|
            0 <= j < cfg.tabs@.len() ==> (#[trigger] app::resolved(cfg.tabs@[j], text::opt_view(cfg.region))) is Ok,
        r is Ok ==> r->Ok_0.active_tab == 0 && r->Ok_0.tabs@.len() == cfg.tabs@.len() && r->Ok_0.status@.len() == 0,
        r is Ok && 0 <= i < cfg.tabs@.len() ==> r->Ok_0.tabs@[i].name@ == cfg.tabs@[i].name@
            && r->Ok_0.tabs@[i].data@.items.len() == 0 && r->Ok_0.tabs@[i].data@.last_loaded is None
            && !r->Ok_0.tabs@[i].data@.loading,
{
    lemma_tabs_error(cfg.tabs@, text::opt_view(cfg.region), cfg.tabs@.len() as int);
    if r is Ok && 0 <= i < cfg.tabs@.len() {
        assert(app::fresh_tab(r->Ok_0.tabs@[i], cfg.tabs@[i], text::opt_view(cfg.region)));
    }
}

/// It is told which page was opened, or why none was.
pub proof fn law_opened_page_is_told(a: &mut App, url: &str, ok: &Result<(), String>, b: &mut App, e: String, bad: &Result<(), String>)
    requires
        *ok == Ok::<(), String>(()),
        *bad == Err::<(), String>(e),
        call_ensures(App::opened, (a, url, ok), ()),
        call_ensures(App::opened, (b, url, bad), ()),
    ensures
        final(a).status@ == "opened "@ + url@,
        final(b).status@ == "open failed: "@ + e@,
        final(a).active_tab == old(a).active_tab,
{
    assert(final(a).browser().status == final(a).status@);
    assert(final(b).browser().status == final(b).status@);
    assert(final(a).browser().active_tab == final(a).active_tab);
    assert(old(a).browser().active_tab == old(a).active_tab);
}

/// In place of a list stands its error; a list that fits is drawn row by row.
pub proof fn law_list_is_drawn(t: &TabState, height: u16, r: Pane, i: int)
    requires
        call_ensures(ui::draw_list, (t, height), r),
    ensures
        t.data@.last_error is Some ==> screen::drawn(r.lines@) == seq![
            seq![("error: "@ + t.data@.last_error->0, screen::colored(Color::Red))],
        ],
        t.data@.last_error is None && t.data@.items.len() == 0 && t.data@.loading ==> screen::drawn(r.lines@)[0][0].0
            == "(loading…)"@,
        t.data@.last_error is None && 0 < t.data@.items.len() <= height - 2 && 0 <= t.data@.selected
            < t.data@.items.len() ==> screen::drawn(r.lines@).len() == t.data@.items.len() && (0 <= i
            < t.data@.items.len() ==> screen::drawn(r.lines@)[i] == ui::queue_row(
            t.data@.items,
            t.data@.selected,
            i,
        )),
{
}

/// It is told what was copied, or why nothing was.
pub proof fn law_copy_is_told(
    a: &mut App,
    x: &str,
    ok: &Result<(), String>,
    b: &mut App,
    e: String,
    bad: &Result<(), String>,
)
    requires
        *ok == Ok::<(), String>(()),
        *bad == Err::<(), String>(e),
        call_ensures(App::arn_copied, (a, x, ok), ()),
        call_ensures(App::arn_copied, (b, x, bad), ()),
    ensures
        final(a).status@ == "copied ARN: "@ + x@,
        final(b).status@ == "copy failed: "@ + e@,
{
    assert(final(a).browser().status == final(a).status@);
    assert(final(b).browser().status == final(b).status@);
}

/// The label of a queue begins with its messages that wait and those in flight.
pub proof fn law_label_as_given_out(q: &Queue, waiting: nat, in_flight: nat, r: String, name: String)
    requires
        call_ensures(Queue::secondary_label, (q,), r),
        call_ensures(Queue::primary_label, (q,), name),
        q.attributes is Some,
        q.attributes->0.attr("ApproximateNumberOfMessages"@) == Some(numeral::decimal(waiting)),
        q.attributes->0.attr("ApproximateNumberOfMessagesNotVisible"@) == Some(numeral::decimal(in_flight)),
        waiting <= u64::MAX,
        in_flight <= u64::MAX,
    ensures
        text::has_prefix(
            r@,
            numeral::decimal(waiting) + " msg · "@ + numeral::decimal(in_flight) + " in-flight"@,
        ),
        name@ == text::after_last(q.url@, '/'),
{
    sqs::law_label_counts_messages(*q, waiting, in_flight);
}

/// What is asked for is every queue without attributes, by its place and its URL.
pub proof fn law_all_attributes_are_asked_for(a: &mut App, r: Vec<Wanted>, i: int)
    requires
        old(a).wf(),
        call_ensures(App::load_all_attributes, (a,), r),
    ensures
        ({
            let s = old(a).browser().list().items;
            &&& s.len() == 0 ==> r@.len() == 0 && final(a).status@ == "no queues to load"@
            &&& 0 <= i < r@.len() ==> r@[i].index < s.len() && r@[i].url@ == s[r@[i].index as int].url@ && s[r@[i].index as
                int].attributes is None
        }),
{
    assert(final(a).browser().status == final(a).status@);
    let s = old(a).browser().list().items;
    if s.len() == 0 {
        assert(app::unread(s) =~= Seq::empty());
        assert(app::wanted_rows(r@).len() == r@.len());
    }
    if 0 <= i < r@.len() {
        assert(app::wanted_rows(r@)[i] == r@[i].index);
        assert(app::unread(s).contains(r@[i].index as int));
        lemma_unread(s, r@[i].index as int);
    }
}

/// The command lines, as they are given out.
pub proof fn law_command_lines_given_out(
    prefix: &str,
    region: &str,
    token: &str,
    url: &str,
    r: Vec<String>,
    s: Vec<String>,
)
    requires
        call_ensures(sqs::list_queues_args, (Some(prefix), Some(region), Some(token)), r),
        call_ensures(sqs::get_attributes_args, (url, Some(region)), s),
    ensures
        text::views(r@) == sqs::list_command(Some(prefix@), Some(region@), Some(token@)),
        text::views(s@) == sqs::attributes_command(url@, Some(region@)),
{
}

/// The colour and the details of a queue, as they are drawn.
pub proof fn law_queue_as_drawn(q: &Queue, c: Style, r: Vec<Line>)
    requires
        call_ensures(ui::state_color_for, (q,), c),
        call_ensures(ui::draw_detail, (Some(q),), r),
    ensures
        c.fg == ui::queue_color(*q),
        screen::drawn(r@) == ui::detail_lines(*q),
{
}

/// Queues come in the order of their names, and none is lost.
pub proof fn law_queues_by_name(urls: Vec<String>, r: Vec<String>, i: int, j: int)
    requires
        call_ensures(sqs::sort_queues, (urls,), r),
        0 <= i < j < r@.len(),
    ensures
        !text::before(
            text::lowercased(text::after_last(r@[j]@, '/')),
            text::lowercased(text::after_last(r@[i]@, '/')),
        ),
        r@.to_multiset() == urls@.to_multiset(),
{
    let less = |a: String, b: String| order::lower_before(text::after_last(a@, '/'), text::after_last(b@, '/'));
    order::lemma_key_orders(less, |a: String| text::lowercased(text::after_last(a@, '/')));
    order::law_sorted(urls@, less);
    assert(!less(r@[j], r@[i]));
}

/// The dead letter queue in a policy, as it is given out.
pub proof fn law_target_given_out(policy: &str, v: JsonV, r: Option<String>)
    requires
        call_ensures(sqs::dlq_target_arn, (policy,), r),
    ensures
        json::json_in_text(policy@) is None ==> r is None,
        json::json_in_text(policy@) == Some(v) ==> text::opt_view(r) == json::text_member(v, "deadLetterTargetArn"@),
{
}

/// A tab is resolved as its settings say, and keys do what they are for.
pub proof fn law_tab_is_resolved(t: &Tab, region: Option<&str>, r: Result<TabSpec, String>, key: Key, ctrl: bool, a: &App, k: Option<Action>)
    requires
        a.wf(),
        call_ensures(TabSpec::resolve, (t, region), r),
        call_ensures(keys::handle, (key, ctrl, a), k),
    ensures
        app::spec_result(r) == app::resolved(*t, text::opt_str_view(region)),
        k == keys::action(key, ctrl, a.active_tab as int, a.tabs@.len() as int),
{
}

/// It is told which URL was copied.
pub proof fn law_copied_url_is_told(a: &mut App, url: &str, ok: &Result<(), String>)
    requires
        *ok == Ok::<(), String>(()),
        call_ensures(App::url_copied, (a, url, ok), ()),
    ensures
        final(a).status@ == "copied queue URL: "@ + url@,
{
    assert(final(a).browser().status == final(a).status@);
}

/// Attributes that were read for all queues are told by their number, with the number of
/// dead letter queues.
pub proof fn law_all_attributes_arrive(
    a: &mut App,
    results: Vec<(usize, Result<QueueAttributes, String>)>,
    i: int,
    name: Seq<char>,
)
    requires
        old(a).wf(),
        old(a).browser().list().items.len() > 0,
        forall|k: int|
            0 <= k < results@.len() ==> (#[trigger] results@[k]).0 < old(a).browser().list().items.len(),
        call_ensures(App::all_attributes_done, (a, results), ()),
        0 <= i < old(a).browser().list().items.len(),
        0 <= i < app::with_attributes(old(a).browser().list().items, results@).len(),
    ensures
        ({
            let s = app::with_attributes(old(a).browser().list().items, results@);
            let r = final(a).browser().list().items;
            &&& r.len() == s.len()
            &&& r[i].url == s[i].url && r[i].attributes == s[i].attributes
            &&& app::arn(s[i]) is Some ==> (text::views(r[i].redrive_sources@).contains(name) <==> exists|j: int|
                0 <= j < s.len() && app::target(#[trigger] s[j]) == app::arn(s[i]) && text::after_last(s[j].url@, '/')
                    == name)
            &&& final(a).status@ == "loaded "@ + numeral::decimal(app::read_count(results@)) + " new · "@
                + numeral::decimal(r.len()) + " total · "@ + numeral::decimal(app::dlq_count(r)) + " queues are DLQs"@
        }),
{
    assert(final(a).browser().status == final(a).status@);
    let s = app::with_attributes(old(a).browser().list().items, results@);
    let r = final(a).browser().list().items;
    assert(app::correlated(s, s[i], r[i]));
    law_served_queues(s, s[i], name);
}

/// What failed is told with what the command wrote.
pub proof fn law_failure_of_list_queues(ran: &Ran, e: String, r: Option<String>)
    requires
        call_ensures(sqs::list_queues_error, (ran,), r),
    ensures
        r is None <==> ran is Done,
        *ran == Ran::Failed(e) ==> r is Some && r->0@ == "aws sqs list-queues failed: "@ + text::trimmed(e@),
        *ran == Ran::NotStarted(e) ==> r is Some && r->0@ == "spawn `aws sqs list-queues`"@,
{
}

/// What failed is told with what the command wrote.
pub proof fn law_failure_of_get_attributes(url: &str, ran: &Ran, e: String, r: Option<String>)
    requires
        call_ensures(sqs::get_attributes_error, (url, ran), r),
    ensures
        r is None <==> ran is Done,
        *ran == Ran::Failed(e) ==> r is Some && r->0@ == "aws sqs get-queue-attributes failed for "@ + url@ + ": "@ + text::trimmed(e@),
        *ran == Ran::NotStarted(e) ==> r is Some && r->0@ == "spawn `aws sqs get-queue-attributes` for "@ + url@,
{
}

proof fn lemma_refused_first(t: Seq<Tab>, region: Option<Seq<char>>, n: int, i: int)
    requires
        0 <= i < n <= t.len(),
        forall|j: int| 0 <= j < i ==> (#[trigger] app::resolved(t[j], region)) is Ok,
        app::resolved(t[i], region) is Err,
    ensures
        app::tabs_of(t, region, n) == Some(app::resolved(t[i], region)->Err_0),
    decreases n,
{
    if n - 1 > i {
        lemma_refused_first(t, region, n - 1, i);
    } else {
        lemma_tabs_error(t, region, i);
    }
}

/// Of several refused tabs the first is told.
pub proof fn law_first_refused_tab_is_told(cfg: Config, r: Result<App, String>, i: int)
    requires
        0 <= i < cfg.tabs@.len(),
        call_ensures(App::new, (cfg,), r),
        forall|j: int| 0 <= j < i ==> (#[trigger] app::resolved(cfg.tabs@[j], text::opt_view(cfg.region))) is Ok,
        app::resolved(cfg.tabs@[i], text::opt_view(cfg.region)) is Err,
    ensures
        r is Err,
        r->Err_0@ == app::resolved(cfg.tabs@[i], text::opt_view(cfg.region))->Err_0,
{
    lemma_refused_first(cfg.tabs@, text::opt_view(cfg.region), cfg.tabs@.len() as int, i);
}

/// The settings of a queue are told as spans of time, and its largest message in
/// kilobytes.
pub proof fn law_settings_of_a_queue(q: Queue, a: nat, b: nat, c: nat, w: nat, n: nat)
    requires
        q.attributes is Some,
        q.attributes->0.attr("ApproximateNumberOfMessagesDelayed"@) is None,
        q.attributes->0.attr("VisibilityTimeout"@) == Some(numeral::decimal(a)),
        q.attributes->0.attr("MessageRetentionPeriod"@) == Some(numeral::decimal(b)),
        q.attributes->0.attr("DelaySeconds"@) == Some(numeral::decimal(c)),
        q.attributes->0.attr("ReceiveMessageWaitTimeSeconds"@) == Some(numeral::decimal(w)),
        q.attributes->0.attr("MaximumMessageSize"@) == Some(numeral::decimal(n)),
        a <= u64::MAX && b <= u64::MAX && c <= u64::MAX && w <= u64::MAX && n <= u64::MAX,
    ensures
        ({
            let d = ui::detail_lines(q);
            &&& d.len() >= 13
            &&& d[7][0].0 == " Config "@
            &&& d[8] == tabs::detail_row("VisibilityTimeout"@, 22, clock::span_words(a))
            &&& d[9] == tabs::detail_row("MessageRetention"@, 22, clock::span_words(b))
            &&& d[10] == tabs::detail_row("DelaySeconds"@, 22, clock::span_words(c))
            &&& d[11] == tabs::detail_row("ReceiveWait"@, 22, clock::span_words(w))
            &&& d[12] == tabs::detail_row("MaxMessageSize"@, 22, numeral::decimal(n / 1024) + " KB"@)
        }),
{
    numeral::law_reading_keeps_the_bound(a, u64::MAX as nat);
    numeral::law_reading_keeps_the_bound(b, u64::MAX as nat);
    numeral::law_reading_keeps_the_bound(c, u64::MAX as nat);
    numeral::law_reading_keeps_the_bound(w, u64::MAX as nat);
    numeral::law_reading_keeps_the_bound(n, u64::MAX as nat);
}

/// When a queue was made, and when it was changed, is told to the minute.
pub proof fn law_times_of_a_queue(q: Queue, a: Seq<char>, b: Seq<char>)
    requires
        q.attributes is Some,
        q.attributes->0.attr("ApproximateNumberOfMessagesDelayed"@) is None,
        q.attributes->0.attr("VisibilityTimeout"@) is None,
        q.attributes->0.attr("MessageRetentionPeriod"@) is None,
        q.attributes->0.attr("DelaySeconds"@) is None,
        q.attributes->0.attr("ReceiveMessageWaitTimeSeconds"@) is None,
        q.attributes->0.attr("MaximumMessageSize"@) is None,
        q.attributes->0.attr("CreatedTimestamp"@) == Some(a),
        q.attributes->0.attr("LastModifiedTimestamp"@) == Some(b),
        ui::time_of(Some(a)) is Some,
        ui::time_of(Some(b)) is Some,
    ensures
        ui::detail_lines(q).len() >= 10,
        ui::detail_lines(q)[8] == tabs::detail_row("Created"@, 22, ui::time_of(Some(a))->0),
        ui::detail_lines(q)[9] == tabs::detail_row("LastModified"@, 22, ui::time_of(Some(b))->0),
        numeral::parsed_signed(a) is Some ==> ui::time_of(Some(a)) == clock::utc_minute(
            numeral::parsed_signed(a)->0 as i64,
        ),
{
}

/// The queues that a queue serves are listed below its settings.
pub proof fn law_served_queues_are_listed(s: Seq<Seq<char>>)
    ensures
        s.len() == 0 ==> ui::source_lines(s).len() == 0,
        s.len() > 0 ==> ui::source_lines(s)[1][0].0 == " ↑ DLQ for ("@ + numeral::decimal(s.len()) + ") "@,
{
}

} // verus!
