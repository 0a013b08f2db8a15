//! What holds of the users browser: how users are searched for, what is read of them,
//! and what is drawn.

use vstd::prelude::*;

use crate::clock;
use crate::cognito::app;
use crate::cognito::app::{App, Fetch, SpecV, TabState, Yank};
use crate::cognito::cognito;
use crate::cognito::cognito::{AttributeType, Item, User, UserPool};
use crate::cognito::config;
use crate::cognito::config::{Config, Tab};
use crate::cognito::keys;
use crate::cognito::keys::Action;
use crate::cognito::ui;
use crate::command::Ran;
use crate::keys::Key;
use crate::numeral;
use crate::order;
use crate::screen;
use crate::screen::{Color, Line, Style};
use crate::tabs;
use crate::tabs::Pane;
use crate::text;

verus! {

/// Without quotes in it a text is not escaped.
proof fn lemma_escaped_plain(s: Seq<char>)
    requires
        !s.contains('"'),
    ensures
        cognito::escaped(s) == s,
    decreases s.len(),
{
    if s.len() > 0 {
        let t = s.drop_last();
        assert(s[s.len() - 1] != '"');
        assert(!t.contains('"')) by {
            if t.contains('"') {
                let i = choose|i: int| 0 <= i < t.len() && t[i] == '"';
                assert(s[i] == '"');
            }
        }
        lemma_escaped_plain(t);
        assert(t.push(s.last()) =~= s);
    }
}

/// What is searched for: with an at sign an address that begins so, with the form of an
/// id exactly that id, and else a name that begins so. Nothing typed is no filter.
pub proof fn law_what_is_searched_for(query: &str, r: String)
    requires
        call_ensures(cognito::build_user_filter, (query,), r),
        !query@.contains('"'),
        text::trimmed(query@) == query@,
    ensures
        query@.len() == 0 ==> r@.len() == 0,
        query@.contains('@') ==> r@ == "email ^= \""@ + query@ + "\""@,
        query@.len() > 0 && !query@.contains('@') && cognito::is_uuid(query@) ==> r@ == "sub = \""@ + query@ + "\""@,
        query@.len() > 0 && !query@.contains('@') && !cognito::is_uuid(query@) ==> r@ == "username ^= \""@ + query@
            + "\""@,
{
    lemma_escaped_plain(query@);
    reveal_strlit("@");
    let q = query@;
    if q.contains('@') {
        let i = choose|i: int| 0 <= i < q.len() && q[i] == '@';
        assert(q.subrange(i, i + 1) =~= "@"@);
        assert(text::part_at(q, "@"@, i));
    }
    if text::has_part(q, "@"@) {
        let i = choose|i: int| text::part_at(q, "@"@, i);
        assert(q.subrange(i, i + 1)[0] == q[i]);
        assert("@"@[0] == '@');
    }
}

/// An id has thirty-six characters: dashes at four places, and hexadecimal digits at the
/// others.
pub proof fn law_form_of_an_id(s: &str, r: bool)
    requires
        call_ensures(cognito::looks_like_uuid, (s,), r),
    ensures
        r ==> s@.len() == 36 && s@[8] == '-' && s@[13] == '-' && s@[18] == '-' && s@[23] == '-',
        r ==> forall|i: int|
            0 <= i < 36 && i != 8 && i != 13 && i != 18 && i != 23 ==> '0' <= #[trigger] s@[i] <= '9' || 'a' <= s@[i] <= 'f'
                || 'A' <= s@[i] <= 'F',
        !r && s@.len() == 36 && s@[8] == '-' && s@[13] == '-' && s@[18] == '-' && s@[23] == '-' ==> exists|i: int|
            0 <= i < 36 && i != 8 && i != 13 && i != 18 && i != 23 && !('0' <= #[trigger] s@[i] <= '9' || 'a' <= s@[i]
                <= 'f' || 'A' <= s@[i] <= 'F'),
{
    if r {
        assert(cognito::dash_at(8) && cognito::dash_at(13) && cognito::dash_at(18) && cognito::dash_at(23));
        assert(s@[8] == '-' && s@[13] == '-' && s@[18] == '-' && s@[23] == '-');
        assert forall|i: int| 0 <= i < 36 && i != 8 && i != 13 && i != 18 && i != 23 implies '0' <= #[trigger] s@[i] <= '9'
            || 'a' <= s@[i] <= 'f' || 'A' <= s@[i] <= 'F' by {
            assert(!cognito::dash_at(i));
        }
    } else if s@.len() == 36 && s@[8] == '-' && s@[13] == '-' && s@[18] == '-' && s@[23] == '-' {
        let i = choose|i: int|
            0 <= i < 36 && !(if cognito::dash_at(i) {
                #[trigger] s@[i] == '-'
            } else {
                cognito::hex_char(s@[i])
            });
        assert(!cognito::dash_at(i));
    }
}

/// An attribute of a user is found by its name.
pub proof fn law_attribute_by_name(a: Seq<AttributeType>, name: Seq<char>, i: int)
    requires
        0 <= i <= a.len(),
        forall|j: int| 0 <= j < i ==> (#[trigger] a[j]).name@ != name,
    ensures
        i < a.len() && a[i].name@ == name ==> cognito::attribute_value(a, name) == text::opt_view(a[i].value),
        i == a.len() ==> cognito::attribute_value(a, name) is None,
    decreases a.len(),
{
    if i > 0 {
        assert(a[0].name@ != name);
        let t = a.drop_first();
        assert forall|j: int| 0 <= j < i - 1 implies (#[trigger] t[j]).name@ != name by {
            assert(t[j] == a[j + 1]);
        }
        law_attribute_by_name(t, name, i - 1);
        if i < a.len() {
            assert(t[i - 1] == a[i]);
        }
    }
}

/// A user is named by their address, or by their name where they have none; a pool by
/// its name.
pub proof fn law_names_in_the_list(u: User, p: UserPool)
    ensures
        cognito::attribute_value(u.attributes@, "email"@) is Some ==> cognito::primary(Item::User(u))
            == cognito::attribute_value(u.attributes@, "email"@)->0,
        cognito::attribute_value(u.attributes@, "email"@) is None ==> cognito::primary(Item::User(u)) == u.username@,
        cognito::primary(Item::Pool(p)) == p.name@,
{
}

/// Beside its name a pool has its status and its id; a user has their status, and a mark
/// exactly where they are disabled.
pub proof fn law_labels_in_the_list(u: User, p: UserPool)
    ensures
        p.status is Some ==> cognito::secondary(Item::Pool(p)) == p.status->0@ + " · "@ + p.id@,
        p.status is None ==> cognito::secondary(Item::Pool(p)) == "?"@ + " · "@ + p.id@,
        u.status is Some && u.enabled == Some(false) ==> cognito::secondary(Item::User(u)) == u.status->0@
            + " · DISABLED"@,
        u.status is Some && u.enabled != Some(false) ==> cognito::secondary(Item::User(u)) == u.status->0@,
{
    reveal_strlit("");
    if u.status is Some {
        assert(u.status->0@ + ""@ =~= u.status->0@);
    }
}

/// What is copied is the id of a pool; of a user the id, or the name where there is none.
pub proof fn law_what_is_copied(u: User, p: UserPool)
    ensures
        app::yanked(Item::Pool(p)) == p.id@,
        cognito::attribute_value(u.attributes@, "sub"@) is Some ==> app::yanked(Item::User(u)) == cognito::attribute_value(
            u.attributes@,
            "sub"@,
        )->0,
        cognito::attribute_value(u.attributes@, "sub"@) is None ==> app::yanked(Item::User(u)) == u.username@,
        app::yank_label(Item::Pool(p)) == "User Pool ID"@,
        app::yank_label(Item::User(u)) == "user sub"@,
{
}

/// The pages of pools and users in the console.
pub proof fn law_pages(r: Seq<char>, pool: Seq<char>, u: User, p: UserPool)
    ensures
        app::console_url(Some(r), Some(pool), Item::Pool(p)) == "https://"@ + r
            + ".console.aws.amazon.com/cognito/v2/idp/user-pools/"@ + p.id@ + "/users"@ + "?region="@ + r,
        app::console_url(Some(r), Some(pool), Item::User(u)) == "https://"@ + r
            + ".console.aws.amazon.com/cognito/v2/idp/user-pools/"@ + pool + "/users/"@ + u.username@ + "?region="@ + r,
{
}

/// Users are asked for by pool, by pages of at most sixty, and by the filter where there
/// is one.
pub proof fn law_command_lines(pool: Seq<char>, limit: u32, r: Seq<char>, f: Seq<char>, token: Seq<char>)
    requires
        f.len() > 0,
    ensures
        cognito::users_command(pool, limit, Some(r), Some(f), Some(token)) =~= seq![
            "cognito-idp"@,
            "list-users"@,
            "--user-pool-id"@,
            pool,
            "--limit"@,
            numeral::decimal(if limit <= 60 {
                limit as nat
            } else {
                60
            }),
            "--output"@,
            "json"@,
            "--filter"@,
            f,
            "--region"@,
            r,
            "--pagination-token"@,
            token,
        ],
        cognito::users_command(pool, limit, None, None, None) =~= seq![
            "cognito-idp"@,
            "list-users"@,
            "--user-pool-id"@,
            pool,
            "--limit"@,
            numeral::decimal(if limit <= 60 {
                limit as nat
            } else {
                60
            }),
            "--output"@,
            "json"@,
        ],
        cognito::live_filter(Some(Seq::empty())) is None,
        cognito::pools_command(Some(r), Some(token)) =~= seq![
            "cognito-idp"@,
            "list-user-pools"@,
            "--max-results"@,
            "60"@,
            "--output"@,
            "json"@,
            "--region"@,
            r,
            "--next-token"@,
            token,
        ],
{
}

/// A tab lists pools, or the users of one pool; of another kind there is none.
pub proof fn law_tabs_of_the_settings(t: Tab, region: Option<Seq<char>>)
    ensures
        ({
            let r = app::resolved(t, region);
            &&& t.kind@ == "pools"@ ==> r is Ok && r->Ok_0.kind == "pools"@
            &&& t.kind@ == "users"@ && r is Ok ==> r->Ok_0.kind == "users"@ && t.user_pool_id is Some
                && r->Ok_0.user_pool_id == Some(t.user_pool_id->0@)
            &&& t.kind@ == "users"@ && t.user_pool_id is None ==> r is Err
            &&& t.kind@ == "users"@ && t.user_pool_id is Some && text::trimmed(t.user_pool_id->0@).len() > 0 ==> r is Ok
            &&& t.kind@ != "pools"@ && t.kind@ != "users"@ ==> r is Err
            &&& t.kind@ == "users"@ && r is Ok && t.user_limit > 0 ==> r->Ok_0.user_limit == t.user_limit
            &&& t.kind@ == "users"@ && r is Ok && t.user_limit == 0 ==> r->Ok_0.user_limit == 1
            &&& r is Ok && t.region is Some ==> r->Ok_0.region == Some(t.region->0@)
            &&& r is Ok && t.region is None ==> r->Ok_0.region == region
        }),
{
    reveal_strlit("pools");
    reveal_strlit("users");
    reveal_strlit("");
    assert("pools"@[0] == 'p' && "users"@[0] == 'u');
    text::law_trimmed_text_stays(Seq::empty());
    assert(text::trimmed(""@) =~= Seq::<char>::empty());
}

/// What a tab asks for: pools, or the users of its pool, as many as it wants and by the
/// filter.
pub proof fn law_request_of_a_tab(f: Fetch, spec: SpecV, filter: Option<Seq<char>>)
    requires
        app::is_fetch(f, spec, filter),
    ensures
        spec.kind == "pools"@ ==> f is Pools,
        spec.kind == "users"@ && spec.user_pool_id is Some ==> f is Users && f->user_pool_id@ == spec.user_pool_id->0
            && f->limit == spec.user_limit && text::opt_view(f->filter) == filter,
        f is Pools ==> text::opt_view(f->Pools_region) == spec.region,
        f is Users ==> text::opt_view(f->Users_region) == spec.region,
{
    reveal_strlit("pools");
    reveal_strlit("users");
    assert("pools"@[0] == 'p' && "users"@[0] == 'u');
}

/// Users come with the newest in front, and no more of them than are wanted.
pub proof fn law_newest_users(u: Seq<User>, limit: u32, i: int, j: int)
    ensures
        cognito::listed_users(u, limit).len() <= limit,
        u.len() <= limit ==> cognito::listed_users(u, limit).len() == u.len(),
        u.len() > limit ==> cognito::listed_users(u, limit).len() == limit,
        0 <= i < j < cognito::listed_users(u, limit).len() && cognito::listed_users(u, limit)[i].create_date is Some
            && cognito::listed_users(u, limit)[j].create_date is Some ==> cognito::listed_users(
            u,
            limit,
        )[i].create_date->0.rank >= cognito::listed_users(u, limit)[j].create_date->0.rank,
{
    let less = |a: User, b: User| clock::later(a.create_date, b.create_date);
    assert(order::orders(less));
    order::law_sorted(u, less);
    let s = order::sorted(u, less);
    assert(cognito::newest_first(u) == s);
    if 0 <= i < j < s.len() {
        assert(!less(s[j], s[i]));
    }
}

/// What the keys do that only this browser knows.
pub proof fn law_keys(ctrl: bool, active: int, tabs: int, c: char)
    ensures
        keys::action(Key::Char('y'), ctrl, false, active, tabs) == Some(Action::YankId),
        keys::action(Key::Char('/'), ctrl, false, active, tabs) == Some(Action::EnterSearch),
        keys::action(Key::Esc, ctrl, false, active, tabs) == Some(Action::SearchCancel),
        keys::action(Key::Esc, ctrl, true, active, tabs) == Some(Action::SearchCancel),
        keys::action(Key::Enter, ctrl, true, active, tabs) == Some(Action::SearchCommit),
        keys::action(Key::Backspace, ctrl, true, active, tabs) == Some(Action::SearchBackspace),
        keys::action(Key::Char(c), false, true, active, tabs) == Some(Action::SearchChar(c)),
{
}

/// Moving takes the cursor that far, but not out of the list, and leaves the list and
/// the tab alone.
pub proof fn law_moving_the_cursor(a: &mut App, delta: isize)
    requires
        old(a).wf(),
        call_ensures(App::move_selection, (a, delta), ()),
    ensures
        ({
            let l = old(a).browser().list();
            let r = final(a).browser().list();
            &&& final(a).browser().active_tab == old(a).browser().active_tab
            &&& r.items == l.items
            &&& 0 <= l.selected + delta < l.items.len() ==> r.selected == l.selected + delta
            &&& l.items.len() > 0 && l.selected + delta < 0 ==> r.selected == 0
            &&& l.items.len() > 0 && l.selected + delta >= l.items.len() ==> r.selected == l.items.len() - 1
        }),
{
}

/// A tab that is chosen is shown; a number behind the last tab changes nothing.
pub proof fn law_choosing_a_tab(a: &mut App, i: usize, r: Option<Fetch>)
    requires
        old(a).wf(),
        call_ensures(App::switch_tab, (a, i), r),
    ensures
        i < old(a).tabs@.len() ==> final(a).active_tab == i,
        i >= old(a).tabs@.len() ==> final(a).active_tab == old(a).active_tab && r is None,
        i < old(a).tabs@.len() ==> (r is Some <==> old(a).tabs@[i as int].data@.items.len() == 0
            && old(a).tabs@[i as int].data@.last_error is None),
{
    assert(final(a).browser().active_tab == final(a).active_tab);
    if i < old(a).tabs@.len() {
        assert(old(a).browser().tabs[i as int].data == old(a).tabs@[i as int].data@);
    }
}

/// A load that is begun is shown as such, and nothing is lost.
pub proof fn law_begun_load(a: &mut App, r: Fetch)
    requires
        old(a).wf(),
        call_ensures(App::refresh_active, (a,), r),
    ensures
        final(a).browser().list().loading,
        final(a).browser().list().items == old(a).browser().list().items,
        final(a).status@ == "loading "@ + old(a).browser().active().name + "…"@,
{
    assert(final(a).browser().status == final(a).status@);
}

/// What was loaded takes the place of the list; an error is told and keeps the list.
pub proof fn law_ended_load(a: &mut App, items: Vec<Item>, b: &mut App, e: String, now: u64)
    requires
        old(a).wf(),
        old(b).wf(),
        call_ensures(App::refresh_done, (a, Ok::<Vec<Item>, String>(items), now), ()),
        call_ensures(App::refresh_done, (b, Err::<Vec<Item>, String>(e), now), ()),
    ensures
        final(a).browser().list().items == items@,
        final(a).browser().list().last_loaded == Some(now),
        !final(a).browser().list().loading,
        final(a).browser().list().last_error is None,
        final(a).status@ == old(a).browser().active().name + ": "@ + numeral::decimal(items@.len()) + " "@
            + app::count_label(old(a).browser().active().spec@),
        final(b).browser().list().items == old(b).browser().list().items,
        !final(b).browser().list().loading,
        final(b).browser().list().last_error == Some(e@),
        final(b).status@ == "error: "@ + e@,
{
    assert(final(a).browser().status == final(a).status@);
    assert(final(b).browser().status == final(b).status@);
}

/// The list is loaded again by itself once it is as old as the interval says, unless the
/// interval is nothing or a load is under way.
pub proof fn law_loading_again(a: &mut App, now: u64, r: Option<Fetch>)
    requires
        old(a).wf(),
        call_ensures(App::tick, (a, now), r),
    ensures
        ({
            let l = old(a).browser().list();
            let every = old(a).cfg.refresh_interval_secs;
            &&& every == 0 || l.loading ==> r is None
            &&& every > 0 && !l.loading && l.last_loaded is None ==> r is Some
            &&& every > 0 && !l.loading && l.last_loaded is Some && now >= l.last_loaded->0 ==> (r is Some <==> now
                - l.last_loaded->0 >= 1000 * every)
            &&& final(a).browser().list().items == l.items
        }),
{
    let l = old(a).browser().list();
    if l.last_loaded is Some && now >= l.last_loaded->0 {
        let d = now - l.last_loaded->0;
        assert(d / 1000 >= old(a).cfg.refresh_interval_secs <==> d >= 1000 * old(a).cfg.refresh_interval_secs);
    }
}

/// A search is typed from nothing, in a list of users only; a character joins its end,
/// and the key for it takes the last one away.
pub proof fn law_typing_a_search(a: &mut App, b: &mut App, ch: char, c: &mut App)
    requires
        old(a).wf(),
        call_ensures(App::enter_search_mode, (a,), ()),
        call_ensures(App::search_input_char, (b, ch), ()),
        call_ensures(App::search_input_backspace, (c,), ()),
    ensures
        old(a).browser().active().spec@.kind == "users"@ ==> final(a).query_editing is Some
            && final(a).query_editing->0@.len() == 0,
        old(a).browser().active().spec@.kind != "users"@ ==> final(a).query_editing == old(a).query_editing,
        old(b).query_editing is Some ==> final(b).query_editing is Some && final(b).query_editing->0@
            == old(b).query_editing->0@.push(ch),
        old(b).query_editing is None ==> final(b).query_editing is None,
        old(c).query_editing is Some && old(c).query_editing->0@.len() > 0 ==> final(c).query_editing is Some
            && final(c).query_editing->0@ == old(c).query_editing->0@.drop_last(),
{
}

/// A search that is committed asks for the users that it finds, and stays in force; one
/// that is cancelled asks for all of them again where one was in force.
pub proof fn law_searching(a: &mut App, r: Option<Fetch>, b: &mut App, s: Option<Fetch>)
    requires
        old(a).wf(),
        old(b).wf(),
        call_ensures(App::search_commit, (a,), r),
        call_ensures(App::search_cancel, (b,), s),
    ensures
        final(a).query_editing is None,
        old(a).query_editing is None ==> r is None && final(a).active_filter == old(a).active_filter,
        old(a).query_editing is Some && cognito::user_filter(old(a).query_editing->0@).len() > 0 ==> r is Some
            && final(a).active_filter is Some && final(a).active_filter->0@ == cognito::user_filter(
            old(a).query_editing->0@,
        ),
        old(a).query_editing is Some && cognito::user_filter(old(a).query_editing->0@).len() == 0 ==> r is Some
            && final(a).active_filter is None,
        final(b).query_editing is None && final(b).active_filter is None,
        s is Some <==> old(b).active_filter is Some,
{
}

/// What is copied names the item under the cursor.
pub proof fn law_item_that_is_copied(a: &mut App, r: Option<Yank>)
    requires
        old(a).wf(),
        call_ensures(App::yank_id, (a,), r),
        old(a).browser().list().focused() is Some,
    ensures
        ({
            let x = old(a).browser().list().focused()->0;
            &&& r is Some
            &&& x is Pool ==> r->0.payload@ == x->Pool_0.id@ && r->0.label@ == "User Pool ID"@
            &&& x is User && cognito::attribute_value(x->User_0.attributes@, "sub"@) is Some ==> r->0.payload@
                == cognito::attribute_value(x->User_0.attributes@, "sub"@)->0 && r->0.label@ == "user sub"@
        }),
{
}

/// The page that is opened is that of the item under the cursor.
pub proof fn law_page_that_is_opened(a: &mut App, region: Seq<char>, r: Option<String>)
    requires
        old(a).wf(),
        call_ensures(App::open_console, (a,), r),
        old(a).browser().active().spec@.region == Some(region),
        old(a).browser().list().focused() is Some,
    ensures
        ({
            let x = old(a).browser().list().focused()->0;
            let pool = old(a).browser().active().spec@.user_pool_id;
            let head = "https://"@ + region + ".console.aws.amazon.com/cognito/v2/idp/user-pools/"@;
            &&& r is Some
            &&& x is Pool ==> r->0@ == head + x->Pool_0.id@ + "/users"@ + "?region="@ + region
            &&& x is User && pool is Some ==> r->0@ == head + pool->0 + "/users/"@ + x->User_0.username@ + "?region="@
                + region
        }),
{
}

proof fn lemma_tabs_error(t: Seq<Tab>, region: Option<Seq<char>>, n: int)
    requires
        0 <= n <= t.len(),
    ensures
        app::tabs_error(t, region, n) is None <==> forall|i: int|
            0 <= i < n ==> (#[trigger] app::resolved(t[i], region)) is Ok,
    decreases n,
{
    if n > 0 {
        lemma_tabs_error(t, region, n - 1);
        if app::tabs_error(t, region, n) is None {
            assert forall|i: int| 0 <= i < n implies (#[trigger] app::resolved(t[i], region)) is Ok by {
                if i == n - 1 {
                    assert(app::resolved(t[n - 1], region) is Ok);
                }
            }
        } else if app::tabs_error(t, region, n - 1) is None {
            assert(app::resolved(t[n - 1], region) is Err);
        }
    }
}

/// A browser begins with the first of its tabs, each under its name and empty; it does
/// not begin where one of them is refused.
pub proof fn law_fresh_browser(cfg: Config, r: Result<App, String>, i: int)
    requires
        cfg.tabs@.len() > 0,
        call_ensures(App::new, (cfg,), r),
    ensures
        r is Ok <==> forall|j: int|
            0 <= j < cfg.tabs@.len() ==> (#[trigger] app::resolved(cfg.tabs@[j], text::opt_view(cfg.region))) is Ok,
        r is Ok ==> r->Ok_0.active_tab == 0 && r->Ok_0.tabs@.len() == cfg.tabs@.len() && r->Ok_0.status@.len() == 0,
        r is Ok && 0 <= i < cfg.tabs@.len() ==> r->Ok_0.tabs@[i].name@ == cfg.tabs@[i].name@
            && r->Ok_0.tabs@[i].data@.items.len() == 0 && r->Ok_0.tabs@[i].data@.last_loaded is None
            && !r->Ok_0.tabs@[i].data@.loading,
{
    lemma_tabs_error(cfg.tabs@, text::opt_view(cfg.region), cfg.tabs@.len() as int);
    if r is Ok && 0 <= i < cfg.tabs@.len() {
        assert(app::fresh_tab(r->Ok_0.tabs@[i], cfg.tabs@[i], text::opt_view(cfg.region)));
    }
}

/// It is told which page was opened, or why none was.
pub proof fn law_opened_page_is_told(a: &mut App, url: &str, ok: &Result<(), String>, b: &mut App, e: String, bad: &Result<(), String>)
    requires
        *ok == Ok::<(), String>(()),
        *bad == Err::<(), String>(e),
        call_ensures(App::opened, (a, url, ok), ()),
        call_ensures(App::opened, (b, url, bad), ()),
    ensures
        final(a).status@ == "opened "@ + url@,
        final(b).status@ == "open failed: "@ + e@,
        final(a).active_tab == old(a).active_tab,
{
    assert(final(a).browser().status == final(a).status@);
    assert(final(b).browser().status == final(b).status@);
    assert(final(a).browser().active_tab == final(a).active_tab);
    assert(old(a).browser().active_tab == old(a).active_tab);
}

/// In place of a list stands its error; a list that fits is drawn row by row.
pub proof fn law_list_is_drawn(t: &TabState, height: u16, r: Pane, i: int)
    requires
        call_ensures(ui::draw_list, (t, height), r),
    ensures
        t.data@.last_error is Some ==> screen::drawn(r.lines@) == seq![
            seq![("error: "@ + t.data@.last_error->0, screen::colored(Color::Red))],
        ],
        t.data@.last_error is None && t.data@.items.len() == 0 && t.data@.loading ==> screen::drawn(r.lines@)[0][0].0
            == "(loading…)"@,
        t.data@.last_error is None && 0 < t.data@.items.len() <= height - 2 && 0 <= t.data@.selected
            < t.data@.items.len() ==> screen::drawn(r.lines@).len() == t.data@.items.len() && (0 <= i
            < t.data@.items.len() ==> screen::drawn(r.lines@)[i] == ui::item_row(
            t.data@.items,
            t.data@.selected,
            i,
        )),
{
}

proof fn lemma_first_error(t: Seq<Tab>, n: int)
    requires
        0 <= n <= t.len(),
    ensures
        config::first_error(t, n) is None <==> forall|i: int|
            0 <= i < n ==> (#[trigger] config::tab_error(t[i], i)) is None,
    decreases n,
{
    if n > 0 {
        lemma_first_error(t, n - 1);
        if config::first_error(t, n) is None {
            assert forall|i: int| 0 <= i < n implies (#[trigger] config::tab_error(t[i], i)) is None by {
                if i == n - 1 {
                    assert(config::tab_error(t[n - 1], n - 1) is None);
                }
            }
        } else if config::first_error(t, n - 1) is None {
            assert(config::tab_error(t[n - 1], n - 1) is Some);
        }
    }
}

/// Settings are good where there is a tab and each of them is good.
pub proof fn law_good_settings(c: &Config, r: Result<(), String>)
    requires
        call_ensures(Config::validate, (c,), r),
    ensures
        r is Ok <==> c.tabs@.len() > 0 && forall|i: int|
            0 <= i < c.tabs@.len() ==> (#[trigger] config::tab_error(c.tabs@[i], i)) is None,
        c.tabs@.len() == 0 ==> r is Err && r->Err_0@ == "config: at least one [[tabs]] entry required"@,
{
    lemma_first_error(c.tabs@, c.tabs@.len() as int);
}

/// A tab is good where it lists pools, or names the one whose users it lists and wants
/// from one to six hundred of them.
pub proof fn law_good_tabs(t: Tab, i: int)
    ensures
        t.kind@ == "pools"@ ==> config::tab_error(t, i) is None,
        t.kind@ == "users"@ ==> (config::tab_error(t, i) is None <==> t.user_pool_id is Some && text::trimmed(
            t.user_pool_id->0@,
        ).len() > 0 && 1 <= t.user_limit <= 600),
        t.kind@ != "pools"@ && t.kind@ != "users"@ ==> config::tab_error(t, i) is Some,
{
    reveal_strlit("pools");
    reveal_strlit("users");
    reveal_strlit("");
    assert("pools"@[0] == 'p' && "users"@[0] == 'u');
    text::law_trimmed_text_stays(Seq::empty());
    assert(text::trimmed(""@) =~= Seq::<char>::empty());
}

/// The title of a list names what it lists and counts it.
pub proof fn law_titles(s: SpecV, n: nat)
    ensures
        s.kind == "pools"@ ==> ui::list_title(s, n) == " pools ("@ + numeral::decimal(n) + ") "@,
        s.kind == "users"@ && s.user_pool_id is Some ==> ui::list_title(s, n) == " users · "@ + s.user_pool_id->0
            + " ("@ + numeral::decimal(n) + ") "@,
        s.kind == "pools"@ ==> app::count_label(s) == "pools"@,
        s.kind == "users"@ ==> app::count_label(s) == "users"@,
{
    reveal_strlit("pools");
    reveal_strlit("users");
    assert("pools"@[0] == 'p' && "users"@[0] == 'u');
}

/// A user who is disabled is dark, and one who has to do something is yellow.
pub proof fn law_colours_of_users(x: &Item, u: User, r: Style)
    requires
        call_ensures(ui::state_color_for, (x,), r),
        *x == Item::User(u),
    ensures
        u.enabled == Some(false) ==> r.fg == Color::DarkGray,
        u.enabled != Some(false) && u.status is Some && (u.status->0@ == "FORCE_CHANGE_PASSWORD"@ || u.status->0@
            == "RESET_REQUIRED"@ || u.status->0@ == "UNCONFIRMED"@ || u.status->0@ == "UNKNOWN"@) ==> r.fg
            == Color::Yellow,
        u.enabled != Some(false) && u.status is Some && u.status->0@ == "CONFIRMED"@ ==> r.fg == Color::Gray,
{
    reveal_strlit("CONFIRMED");
    reveal_strlit("FORCE_CHANGE_PASSWORD");
    reveal_strlit("RESET_REQUIRED");
    reveal_strlit("UNCONFIRMED");
    reveal_strlit("UNKNOWN");
    assert("CONFIRMED"@[0] == 'C' && "FORCE_CHANGE_PASSWORD"@[0] == 'F' && "RESET_REQUIRED"@[0] == 'R'
        && "UNCONFIRMED"@[0] == 'U' && "UNKNOWN"@[0] == 'U');
}

/// What is searched for is shown while it is typed, and then what is in force.
pub proof fn law_search_is_shown(a: &App, r: Option<Line>)
    requires
        call_ensures(ui::draw_search_bar, (a,), r),
    ensures
        a.query_editing is Some ==> r is Some && r->0@[0].0 == " / "@ && r->0@[1].0 == a.query_editing->0@,
        a.query_editing is None && a.active_filter is Some ==> r is Some && r->0@[0].0 == " filter: "@ && r->0@[1].0
            == a.active_filter->0@,
        a.query_editing is None && a.active_filter is None ==> r is None,
{
}

/// The details of a pool begin with its name, its id and its status.
pub proof fn law_details_of_a_pool(x: &Item, p: UserPool, r: Vec<Line>)
    requires
        call_ensures(ui::draw_detail, (Some(x),), r),
        *x == Item::Pool(p),
        p.status is Some,
    ensures
        ({
            let d = screen::drawn(r@);
            &&& d.len() >= 3
            &&& d[0] == tabs::detail_row("Name"@, 16, p.name@)
            &&& d[1] == tabs::detail_row("ID"@, 16, p.id@)
            &&& d[2] == tabs::detail_row("Status"@, 16, p.status->0@)
        }),
{
}

/// Names and labels in the list, as they are given out.
pub proof fn law_labels_given_out(x: &Item, name: &str, label: String, u: &User, key: &str, v: Option<&str>, e: Option<&str>, s: Option<&str>)
    requires
        call_ensures(Item::primary_label, (x,), name),
        call_ensures(Item::secondary_label, (x,), label),
        call_ensures(User::attribute, (u, key), v),
        call_ensures(User::email, (u,), e),
        call_ensures(User::sub, (u,), s),
    ensures
        name@ == cognito::primary(*x),
        label@ == cognito::secondary(*x),
        text::opt_str_view(v) == cognito::attribute_value(u.attributes@, key@),
        text::opt_str_view(e) == cognito::attribute_value(u.attributes@, "email"@),
        text::opt_str_view(s) == cognito::attribute_value(u.attributes@, "sub"@),
{
}

/// It is told what was copied, or why nothing was.
pub proof fn law_copy_is_told(
    a: &mut App,
    x: &Yank,
    ok: &Result<(), String>,
    b: &mut App,
    e: String,
    bad: &Result<(), String>,
)
    requires
        *ok == Ok::<(), String>(()),
        *bad == Err::<(), String>(e),
        call_ensures(App::id_copied, (a, x, ok), ()),
        call_ensures(App::id_copied, (b, x, bad), ()),
    ensures
        final(a).status@ == "copied "@ + x.label@ + ": "@ + x.payload@,
        final(b).status@ == "copy failed: "@ + e@,
{
    assert(final(a).browser().status == final(a).status@);
    assert(final(b).browser().status == final(b).status@);
}

/// Users are given out with the newest in front, and pools in the order of their names.
pub proof fn law_lists_given_out(u: Vec<User>, limit: u32, r: Vec<User>, p: Vec<UserPool>, q: Vec<UserPool>, i: int, j: int)
    requires
        call_ensures(cognito::sort_users, (u, limit), r),
        call_ensures(cognito::sort_pools, (p,), q),
    ensures
        r@.len() == (if u@.len() <= limit {
            u@.len() as int
        } else {
            limit as int
        }),
        0 <= i < j < r@.len() && r@[i].create_date is Some && r@[j].create_date is Some ==> r@[i].create_date->0.rank
            >= r@[j].create_date->0.rank,
        0 <= i < j < q@.len() ==> !text::before(text::lowercased(q@[j].name@), text::lowercased(q@[i].name@)),
        q@.to_multiset() == p@.to_multiset(),
{
    law_newest_users(u@, limit, i, j);
    let less = |a: UserPool, b: UserPool| order::lower_before(a.name@, b.name@);
    order::lemma_key_orders(less, |a: UserPool| text::lowercased(a.name@));
    order::law_sorted(p@, less);
    if 0 <= i < j < q@.len() {
        assert(!less(q@[j], q@[i]));
    }
}

/// The command lines, as they are given out.
pub proof fn law_command_lines_given_out(
    pool: &str,
    limit: u32,
    region: Option<&str>,
    filter: Option<&str>,
    token: Option<&str>,
    r: Vec<String>,
    s: Vec<String>,
)
    requires
        call_ensures(cognito::list_users_args, (pool, limit, region, filter, token), r),
        call_ensures(cognito::list_user_pools_args, (region, token), s),
    ensures
        text::views(r@) == cognito::users_command(
            pool@,
            limit,
            text::opt_str_view(region),
            text::opt_str_view(filter),
            text::opt_str_view(token),
        ),
        text::views(s@) == cognito::pools_command(text::opt_str_view(region), text::opt_str_view(token)),
{
}

/// A tab is resolved as its settings say.
pub proof fn law_tab_is_resolved(t: &Tab, region: Option<&str>, r: Result<app::TabSpec, String>)
    requires
        call_ensures(app::TabSpec::resolve, (t, region), r),
    ensures
        app::spec_result(r) == app::resolved(*t, text::opt_str_view(region)),
        r is Ok <==> app::resolved(*t, text::opt_str_view(region)) is Ok,
{
}

/// The key that is pressed goes to the search while one is typed.
pub proof fn law_key_that_is_pressed(key: Key, ctrl: bool, a: &App, r: Option<Action>)
    requires
        a.wf(),
        call_ensures(keys::handle, (key, ctrl, a), r),
    ensures
        r == keys::action(key, ctrl, a.query_editing is Some, a.active_tab as int, a.tabs@.len() as int),
{
}

/// What failed is told with what the command wrote.
pub proof fn law_failure_of_list_user_pools(ran: &Ran, e: String, r: Option<String>)
    requires
        call_ensures(cognito::list_user_pools_error, (ran,), r),
    ensures
        r is None <==> ran is Done,
        *ran == Ran::Failed(e) ==> r is Some && r->0@ == "aws cognito-idp list-user-pools failed: "@ + text::trimmed(e@),
        *ran == Ran::NotStarted(e) ==> r is Some && r->0@ == "spawn `aws cognito-idp list-user-pools`"@,
{
}

/// What failed is told with what the command wrote.
pub proof fn law_failure_of_list_users(pool: &str, ran: &Ran, e: String, r: Option<String>)
    requires
        call_ensures(cognito::list_users_error, (pool, ran), r),
    ensures
        r is None <==> ran is Done,
        *ran == Ran::Failed(e) ==> r is Some && r->0@ == "aws cognito-idp list-users failed for pool "@ + pool@ + ": "@ + text::trimmed(e@),
        *ran == Ran::NotStarted(e) ==> r is Some && r->0@ == "spawn `aws cognito-idp list-users` for pool "@ + pool@,
{
}

/// Why a tab is refused, with its name.
pub proof fn law_refused_tabs(t: &Tab, region: Option<&str>, r: Result<app::TabSpec, String>)
    requires
        call_ensures(app::TabSpec::resolve, (t, region), r),
    ensures
        t.kind@ != "pools"@ && t.kind@ != "users"@ ==> r is Err && r->Err_0@ == "tab `"@ + t.name@ + "`: unknown kind "@ + text::quoted(
            t.kind@,
        ),
        t.kind@ == "users"@ && t.user_pool_id is None ==> r is Err && r->Err_0@ == "tab `"@ + t.name@
            + "`: kind=\"users\" requires `user_pool_id`"@,
{
    reveal_strlit("pools");
    reveal_strlit("users");
    assert("pools"@[0] == 'p' && "users"@[0] == 'u');
    text::law_trimmed_text_stays(Seq::empty());
    reveal_strlit("");
    assert(text::trimmed(""@) =~= Seq::<char>::empty());
}

proof fn lemma_refused_first(t: Seq<Tab>, region: Option<Seq<char>>, n: int, i: int)
    requires
        0 <= i < n <= t.len(),
        forall|j: int| 0 <= j < i ==> (#[trigger] app::resolved(t[j], region)) is Ok,
        app::resolved(t[i], region) is Err,
    ensures
        app::tabs_error(t, region, n) == Some(app::resolved(t[i], region)->Err_0),
    decreases n,
{
    if n - 1 > i {
        lemma_refused_first(t, region, n - 1, i);
    } else {
        lemma_tabs_error(t, region, i);
    }
}

/// Of several refused tabs the first is told.
pub proof fn law_first_refused_tab_is_told(cfg: Config, r: Result<App, String>, i: int)
    requires
        0 <= i < cfg.tabs@.len(),
        call_ensures(App::new, (cfg,), r),
        forall|j: int| 0 <= j < i ==> (#[trigger] app::resolved(cfg.tabs@[j], text::opt_view(cfg.region))) is Ok,
        app::resolved(cfg.tabs@[i], text::opt_view(cfg.region)) is Err,
    ensures
        r is Err,
        r->Err_0@ == app::resolved(cfg.tabs@[i], text::opt_view(cfg.region))->Err_0,
{
    lemma_refused_first(cfg.tabs@, text::opt_view(cfg.region), cfg.tabs@.len() as int, i);
}

/// The details of a user: the name, the status, whether they are enabled, and then the
/// attributes.
pub proof fn law_details_of_a_user(x: &Item, u: User, r: Vec<Line>, i: int)
    requires
        call_ensures(ui::draw_detail, (Some(x),), r),
        *x == Item::User(u),
        u.status is Some,
        u.create_date is None,
        u.last_modified_date is None,
        0 < u.attributes@.len() <= 15,
        0 <= i < u.attributes@.len(),
    ensures
        ({
            let d = screen::drawn(r@);
            let a = u.attributes@[i];
            &&& d.len() == 5 + u.attributes@.len()
            &&& d[0] == tabs::detail_row("Username"@, 16, u.username@)
            &&& d[1] == tabs::detail_row("Status"@, 16, u.status->0@)
            &&& u.enabled == Some(true) ==> d[2] == tabs::detail_row("Enabled"@, 16, "true"@)
            &&& u.enabled == Some(false) ==> d[2] == tabs::detail_row("Enabled"@, 16, "FALSE"@)
            &&& d[4][0].0 == " Attributes ("@ + numeral::decimal(u.attributes@.len()) + ") "@
            &&& a.value is Some ==> d[5 + i][1].0 == a.value->0@
            &&& a.name@.len() <= 22 ==> d[5 + i][0].0 == " "@ + text::padded_right(a.name@, 22)
        }),
{
    text::law_shortened(u.attributes@[i].name@, 22);
}

/// What the settings say where nothing is set.
pub proof fn law_defaults(n: u64, k: String, m: u32)
    requires
        call_ensures(config::default_refresh, (), n),
        call_ensures(config::default_kind, (), k),
        call_ensures(config::default_user_limit, (), m),
    ensures
        n == 60,
        k@ == "pools"@,
        m == 60,
{
}

/// When a pool or a user was made, and when they were changed, is told.
pub proof fn law_times(p: UserPool, u: User)
    requires
        p.creation_date is Some && p.last_modified_date is Some,
        u.create_date is Some && u.last_modified_date is Some,
    ensures
        ui::pool_lines(p).len() >= 5,
        ui::pool_lines(p)[3] == tabs::detail_row("Created"@, 16, clock::moment_words(p.creation_date->0)),
        ui::pool_lines(p)[4] == tabs::detail_row("Last modified"@, 16, clock::moment_words(p.last_modified_date->0)),
        ui::user_lines(u).len() >= 5,
        ui::user_lines(u)[3] == tabs::detail_row("Created"@, 16, clock::moment_words(u.create_date->0)),
        ui::user_lines(u)[4] == tabs::detail_row("Modified"@, 16, clock::moment_words(u.last_modified_date->0)),
{
}

} // verus!
