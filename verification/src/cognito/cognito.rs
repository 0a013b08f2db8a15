//! User pools and users, and the command lines by which they are read.

use vstd::prelude::*;

use crate::clock;
use crate::clock::{is_later, moment_text, Moment};
use crate::command;
use crate::command::{with_option, with_region, Ran};
use crate::json::Json;
use crate::numeral;
use crate::numeral::dec;
use crate::order;
use crate::order::{name_before, sort_by};
use crate::text;
use crate::text::{cat2, cat3, cat4, chars_of, contains, list_of, owned, str_eq, trim};

verus! {

/// A user pool.
pub struct UserPool {
    pub id: String,
    pub name: String,
    pub status: Option<String>,
    /// The functions that are called on certain occasions.
    pub lambda_config: Option<Json>,
    pub creation_date: Option<Moment>,
    pub last_modified_date: Option<Moment>,
}

/// A user pool as the list of all user pools has it.
pub struct UserPoolDescriptionType {
    pub id: String,
    pub name: String,
    pub status: Option<String>,
    pub lambda_config: Option<Json>,
    pub creation_date: Option<Moment>,
    pub last_modified_date: Option<Moment>,
}

impl UserPoolDescriptionType {
    /// The user pool.
    pub fn into_pool(self) -> (r: UserPool)
        ensures
            r == (UserPool {
                id: self.id,
                name: self.name,
                status: self.status,
                lambda_config: self.lambda_config,
                creation_date: self.creation_date,
                last_modified_date: self.last_modified_date,
            }),
    {
        UserPool {
            id: self.id,
            name: self.name,
            status: self.status,
            lambda_config: self.lambda_config,
            creation_date: self.creation_date,
            last_modified_date: self.last_modified_date,
        }
    }
}

/// What is known of a user under a name.
pub struct AttributeType {
    pub name: String,
    pub value: Option<String>,
}

/// A user.
pub struct User {
    pub username: String,
    pub attributes: Vec<AttributeType>,
    pub create_date: Option<Moment>,
    pub last_modified_date: Option<Moment>,
    pub enabled: Option<bool>,
    pub status: Option<String>,
}

/// What the first attribute of a name says.
pub open spec fn attribute_value(a: Seq<AttributeType>, name: Seq<char>) -> Option<Seq<char>>
    decreases a.len(),
{
    if a.len() == 0 {
        None
    } else if a[0].name@ == name {
        text::opt_view(a[0].value)
    } else {
        attribute_value(a.drop_first(), name)
    }
}

impl User {
    /// What the first attribute of a name says.
    pub fn attribute(&self, name: &str) -> (r: Option<&str>)
        ensures
            text::opt_str_view(r) == attribute_value(self.attributes@, name@),
    {
        let a = &self.attributes;
        let mut i: usize = 0;
        assert(a@.skip(0) =~= a@);
        while i < a.len()
            invariant
                i <= a.len(),
                *a == self.attributes,
                attribute_value(a@, name@) == attribute_value(a@.skip(i as int), name@),
            decreases a.len() - i,
        {
            assert(a@.skip(i as int).drop_first() =~= a@.skip(i + 1));
            if str_eq(a[i].name.as_str(), name) {
                return command::as_slice(&a[i].value);
            }
            i = i + 1;
        }
        None
    }

    pub fn email(&self) -> (r: Option<&str>)
        ensures
            text::opt_str_view(r) == attribute_value(self.attributes@, "email"@),
    {
        self.attribute("email")
    }

    /// The name of the user that never changes.
    pub fn sub(&self) -> (r: Option<&str>)
        ensures
            text::opt_str_view(r) == attribute_value(self.attributes@, "sub"@),
    {
        self.attribute("sub")
    }
}

/// What a tab lists.
pub enum Item {
    Pool(UserPool),
    User(User),
}

/// The name of an item: that of the pool; the address of the user, or their
/// name where none is known.
pub open spec fn primary(x: Item) -> Seq<char> {
    match x {
        Item::Pool(p) => p.name@,
        Item::User(u) => match attribute_value(u.attributes@, "email"@) {
            Some(e) => e,
            None => u.username@,
        },
    }
}

/// A text, or a question mark.
pub open spec fn or_unknown(o: Option<String>) -> Seq<char> {
    match o {
        Some(s) => s@,
        None => "?"@,
    }
}

fn text_or_unknown(o: &Option<String>) -> (r: &str)
    ensures
        r@ == or_unknown(*o),
{
    match o {
        Some(s) => s.as_str(),
        None => "?",
    }
}

/// What is said of an item beside its name.
pub open spec fn secondary(x: Item) -> Seq<char> {
    match x {
        Item::Pool(p) => or_unknown(p.status) + " · "@ + p.id@,
        Item::User(u) => or_unknown(u.status) + (if u.enabled == Some(false) {
            " · DISABLED"@
        } else {
            ""@
        }),
    }
}

impl Item {
    pub fn primary_label(&self) -> (r: &str)
        ensures
            r@ == primary(*self),
    {
        match self {
            Item::Pool(p) => p.name.as_str(),
            Item::User(u) => match u.email() {
                Some(e) => e,
                None => u.username.as_str(),
            },
        }
    }

    pub fn secondary_label(&self) -> (r: String)
        ensures
            r@ == secondary(*self),
    {
        match self {
            Item::Pool(p) => cat3(text_or_unknown(&p.status), " · ", p.id.as_str()),
            Item::User(u) => {
                let mark = match u.enabled {
                    Some(false) => " · DISABLED",
                    _ => "",
                };
                cat2(text_or_unknown(&u.status), mark)
            },
        }
    }
}

/// The arguments of `aws` for a page of the list of user pools.
pub open spec fn pools_command(region: Option<Seq<char>>, token: Option<Seq<char>>) -> Seq<Seq<char>> {
    seq!["cognito-idp"@, "list-user-pools"@, "--max-results"@, "60"@, "--output"@, "json"@]
        + command::region_option(region) + command::option_with("--next-token"@, token)
}

pub fn list_user_pools_args(region: Option<&str>, token: Option<&str>) -> (r: Vec<String>)
    ensures
        text::views(r@) == pools_command(text::opt_str_view(region), text::opt_str_view(token)),
{
    let head = list_of(
        vec!["cognito-idp", "list-user-pools", "--max-results", "60", "--output", "json"],
    );
    assert(text::views(head@) =~= seq![
        "cognito-idp"@,
        "list-user-pools"@,
        "--max-results"@,
        "60"@,
        "--output"@,
        "json"@,
    ]);
    with_option(with_region(head, region), "--next-token", token)
}

/// The error of a run that listed no user pools.
pub open spec fn pools_error(ran: Ran) -> Option<Seq<char>> {
    match ran {
        Ran::NotStarted(_) => Some("spawn `aws cognito-idp list-user-pools`"@),
        Ran::Failed(e) => Some("aws cognito-idp list-user-pools failed: "@ + text::trimmed(e@)),
        Ran::Done(_) => None,
    }
}

pub fn list_user_pools_error(ran: &Ran) -> (r: Option<String>)
    ensures
        text::opt_view(r) == pools_error(*ran),
{
    match ran {
        Ran::NotStarted(_) => Some(owned("spawn `aws cognito-idp list-user-pools`")),
        Ran::Failed(e) => Some(
            cat2("aws cognito-idp list-user-pools failed: ", trim(e.as_str())),
        ),
        Ran::Done(_) => None,
    }
}

/// User pools in the order in which they are listed: by name, in lower case.
pub open spec fn listed_pools(p: Seq<UserPool>) -> Seq<UserPool> {
    order::sorted(p, |a: UserPool, b: UserPool| order::lower_before(a.name@, b.name@))
}

/// Puts user pools in the order of the list.
pub fn sort_pools(p: Vec<UserPool>) -> (r: Vec<UserPool>)
    ensures
        r@ == listed_pools(p@),
{
    let comes_before = |a: &UserPool, b: &UserPool| -> (o: bool)
        ensures
            o == order::lower_before(a.name@, b.name@),
    {
        name_before(a.name.as_str(), b.name.as_str())
    };
    sort_by(
        p,
        comes_before,
        Ghost(|a: UserPool, b: UserPool| order::lower_before(a.name@, b.name@)),
    )
}

/// A filter that filters something.
pub open spec fn live_filter(filter: Option<Seq<char>>) -> Option<Seq<char>> {
    match filter {
        Some(f) => if f.len() > 0 {
            Some(f)
        } else {
            None
        },
        None => None,
    }
}

/// How many users are asked for at once.
pub open spec fn page_size(limit: u32) -> nat {
    (if limit < 60 {
        limit
    } else {
        60
    }) as nat
}

/// The arguments of `aws` for a page of the list of users of a pool.
pub open spec fn users_command(
    pool: Seq<char>,
    limit: u32,
    region: Option<Seq<char>>,
    filter: Option<Seq<char>>,
    token: Option<Seq<char>>,
) -> Seq<Seq<char>> {
    seq![
        "cognito-idp"@,
        "list-users"@,
        "--user-pool-id"@,
        pool,
        "--limit"@,
        numeral::decimal(page_size(limit)),
        "--output"@,
        "json"@,
    ] + command::option_with("--filter"@, live_filter(filter)) + command::region_option(region)
        + command::option_with("--pagination-token"@, token)
}

pub fn list_users_args(
    pool: &str,
    limit: u32,
    region: Option<&str>,
    filter: Option<&str>,
    token: Option<&str>,
) -> (r: Vec<String>)
    ensures
        text::views(r@) == users_command(
            pool@,
            limit,
            text::opt_str_view(region),
            text::opt_str_view(filter),
            text::opt_str_view(token),
        ),
{
    let size = dec(if limit < 60 { limit as u64 } else { 60 });
    let head = list_of(
        vec![
            "cognito-idp",
            "list-users",
            "--user-pool-id",
            pool,
            "--limit",
            size.as_str(),
            "--output",
            "json",
        ],
    );
    assert(text::views(head@) =~= seq![
        "cognito-idp"@,
        "list-users"@,
        "--user-pool-id"@,
        pool@,
        "--limit"@,
        size@,
        "--output"@,
        "json"@,
    ]);
    let live = match filter {
        Some(f) => if f.is_empty() { None } else { Some(f) },
        None => None,
    };
    with_option(
        with_region(with_option(head, "--filter", live), region),
        "--pagination-token",
        token,
    )
}

/// The error of a run that listed no users.
pub open spec fn users_error(pool: Seq<char>, ran: Ran) -> Option<Seq<char>> {
    match ran {
        Ran::NotStarted(_) => Some("spawn `aws cognito-idp list-users` for pool "@ + pool),
        Ran::Failed(e) => Some(
            "aws cognito-idp list-users failed for pool "@ + pool + ": "@ + text::trimmed(e@),
        ),
        Ran::Done(_) => None,
    }
}

pub fn list_users_error(pool: &str, ran: &Ran) -> (r: Option<String>)
    ensures
        text::opt_view(r) == users_error(pool@, *ran),
{
    match ran {
        Ran::NotStarted(_) => Some(cat2("spawn `aws cognito-idp list-users` for pool ", pool)),
        Ran::Failed(e) => Some(
            cat4("aws cognito-idp list-users failed for pool ", pool, ": ", trim(e.as_str())),
        ),
        Ran::Done(_) => None,
    }
}

/// Users in the order in which they are listed: the newest first.
pub open spec fn newest_first(u: Seq<User>) -> Seq<User> {
    order::sorted(u, |a: User, b: User| clock::later(a.create_date, b.create_date))
}

/// The newest `limit` users, the newest first.
pub open spec fn listed_users(u: Seq<User>, limit: u32) -> Seq<User> {
    let s = newest_first(u);
    if s.len() > limit {
        s.take(limit as int)
    } else {
        s
    }
}

/// Puts users in the order of the list, and leaves `limit` of them.
pub fn sort_users(u: Vec<User>, limit: u32) -> (r: Vec<User>)
    ensures
        r@ == listed_users(u@, limit),
{
    let comes_before = |a: &User, b: &User| -> (o: bool)
        ensures
            o == clock::later(a.create_date, b.create_date),
    {
        is_later(&a.create_date, &b.create_date)
    };
    let mut s = sort_by(
        u,
        comes_before,
        Ghost(|a: User, b: User| clock::later(a.create_date, b.create_date)),
    );
    let n: usize = limit as usize;
    if s.len() > n {
        s.truncate(n);
    }
    s
}

/// A text with a backslash in front of every quotation mark.
pub open spec fn escaped(s: Seq<char>) -> Seq<char>
    decreases s.len(),
{
    if s.len() == 0 {
        Seq::empty()
    } else if s.last() == '"' {
        escaped(s.drop_last()).push('\\').push('"')
    } else {
        escaped(s.drop_last()).push(s.last())
    }
}

fn escape(s: &str) -> (r: String)
    ensures
        r@ == escaped(s@),
{
    let v = chars_of(s);
    let mut out = String::new();
    let mut i: usize = 0;
    assert(v@.take(0) =~= Seq::empty());
    while i < v.len()
        invariant
            i <= v.len(),
            out@ == escaped(v@.take(i as int)),
        decreases v.len() - i,
    {
        assert(v@.take(i + 1).drop_last() =~= v@.take(i as int));
        if v[i] == '"' {
            out.push('\\');
        }
        out.push(v[i]);
        i = i + 1;
    }
    assert(v@.take(v@.len() as int) =~= s@);
    out
}

/// The places of the dashes in a unique identifier.
pub open spec fn dash_at(i: int) -> bool {
    i == 8 || i == 13 || i == 18 || i == 23
}

/// A hexadecimal digit.
pub open spec fn hex_char(c: char) -> bool {
    '0' <= c <= '9' || 'a' <= c <= 'f' || 'A' <= c <= 'F'
}

/// The text has the form of a unique identifier: hexadecimal digits in groups of
/// eight, four, four, four and twelve, with dashes between them.
pub open spec fn is_uuid(s: Seq<char>) -> bool {
    &&& s.len() == 36
    &&& forall|i: int|
        0 <= i < 36 ==> if dash_at(i) {
            #[trigger] s[i] == '-'
        } else {
            hex_char(s[i])
        }
}

pub fn looks_like_uuid(s: &str) -> (r: bool)
    ensures
        r == is_uuid(s@),
{
    let v = chars_of(s);
    if v.len() != 36 {
        return false;
    }
    let mut i: usize = 0;
    while i < 36
        invariant
            i <= 36,
            v.len() == 36,
            v@ == s@,
            forall|k: int|
                0 <= k < i ==> if dash_at(k) {
                    #[trigger] s@[k] == '-'
                } else {
                    hex_char(s@[k])
                },
        decreases 36 - i,
    {
        let c = v[i];
        assert(c == s@[i as int]);
        let fits = if i == 8 || i == 13 || i == 18 || i == 23 {
            c == '-'
        } else {
            ('0' <= c && c <= '9') || ('a' <= c && c <= 'f') || ('A' <= c && c <= 'F')
        };
        if !fits {
            return false;
        }
        i = i + 1;
    }
    true
}

/// The filter that a query stands for: an address begins so, the unique
/// identifier is this, or the name begins so.
pub open spec fn user_filter(query: Seq<char>) -> Seq<char> {
    let q = text::trimmed(query);
    if q.len() == 0 {
        Seq::empty()
    } else if text::has_part(q, "@"@) {
        "email ^= \""@ + escaped(q) + "\""@
    } else if is_uuid(q) {
        "sub = \""@ + escaped(q) + "\""@
    } else {
        "username ^= \""@ + escaped(q) + "\""@
    }
}

/// The filter that a query stands for.
pub fn build_user_filter(query: &str) -> (r: String)
    ensures
        r@ == user_filter(query@),
{
    let q = trim(query);
    if q.is_empty() {
        return String::new();
    }
    let e = escape(q);
    let field = if contains(q, "@") {
        "email ^= \""
    } else if looks_like_uuid(q) {
        "sub = \""
    } else {
        "username ^= \""
    };
    cat3(field, e.as_str(), "\"")
}

/// A point in time in words.
pub fn fmt_epoch(m: &Moment) -> (r: String)
    ensures
        r@ == clock::moment_words(*m),
{
    moment_text(m)
}

proof fn lemma_escaped_quote(s: Seq<char>, k: int)
    requires
        0 <= k < escaped(s).len(),
        escaped(s)[k] == '"',
    ensures
        k > 0,
        escaped(s)[k - 1] == '\\',
    decreases s.len(),
{
    if s.len() > 0 {
        let rest = escaped(s.drop_last());
        if k < rest.len() {
            lemma_escaped_quote(s.drop_last(), k);
        }
    }
}

/// No quotation mark of a query ends the text in its filter: each has a backslash
/// in front of it.
pub proof fn law_quotes_are_escaped(query: Seq<char>, k: int)
    requires
        0 <= k < escaped(query).len(),
        escaped(query)[k] == '"',
    ensures
        k > 0,
        escaped(query)[k - 1] == '\\',
{
    lemma_escaped_quote(query, k);
}

/// No more users are listed than are wanted.
pub proof fn law_limit_is_kept(u: Seq<User>, limit: u32)
    ensures
        listed_users(u, limit).len() <= limit,
{
}

/// User pools are listed by name, whatever the case of its letters, and none is
/// lost or added.
pub proof fn law_pools_in_order(p: Seq<UserPool>)
    ensures
        order::in_order(listed_pools(p), |a: UserPool, b: UserPool| order::lower_before(a.name@, b.name@)),
        listed_pools(p).to_multiset() == p.to_multiset(),
{
    let less = |a: UserPool, b: UserPool| order::lower_before(a.name@, b.name@);
    order::lemma_key_orders(less, |a: UserPool| text::lowercased(a.name@));
    order::law_sorted(p, less);
}

/// The newest user comes first, and none is lost or added.
pub proof fn law_newest_user_first(u: Seq<User>)
    ensures
        order::in_order(newest_first(u), |a: User, b: User| clock::later(a.create_date, b.create_date)),
        newest_first(u).to_multiset() == u.to_multiset(),
{
    let less = |a: User, b: User| clock::later(a.create_date, b.create_date);
    assert(order::orders(less));
    order::law_sorted(u, less);
}

} // verus!
