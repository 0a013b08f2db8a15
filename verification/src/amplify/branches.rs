//! Which branches of an app are shown, and in what order.

use vstd::prelude::*;

use crate::amplify::amplify;
use crate::amplify::amplify::{AmplifyBranch, AmplifyJob};
use crate::clock::secs_since_epoch;
use crate::numeral;
use crate::numeral::parse_u32;
use crate::order;
use crate::order::sort_by;
use crate::table::Table;
use crate::text;
use crate::text::{split, starts_with, str_before, str_eq, str_until};

verus! {

/// After so many days without a change a branch is not shown any more.
pub const STALE_AFTER_DAYS: i64 = 14;

/// A branch that is always there: one for a stage.
pub open spec fn essential(name: Seq<char>) -> bool {
    name == "main"@ || name == "master"@ || name == "develop"@ || name == "staging"@ || name
        == "production"@
}

fn is_essential(name: &str) -> (r: bool)
    ensures
        r == essential(name@),
{
    str_eq(name, "main") || str_eq(name, "master") || str_eq(name, "develop") || str_eq(name, "staging")
        || str_eq(name, "production")
}

/// A branch of a release.
pub open spec fn release(name: Seq<char>) -> bool {
    text::has_prefix(name, "release/"@)
}

/// Whether a branch is one for a stage or for a release.
pub fn is_primary_branch(name: &str) -> (r: bool)
    ensures
        r == (release(name@) || essential(name@)),
{
    starts_with(name, "release/") || is_essential(name)
}

/// The place of a branch among those for stages and releases.
pub open spec fn primary_key(name: Seq<char>) -> u8 {
    if name == "main"@ || name == "master"@ {
        0
    } else if name == "develop"@ {
        1
    } else if name == "staging"@ {
        2
    } else if release(name) {
        3
    } else {
        4
    }
}

pub fn primary_sort_key(name: &str) -> (r: u8)
    ensures
        r == primary_key(name@),
{
    if str_eq(name, "main") || str_eq(name, "master") {
        0
    } else if str_eq(name, "develop") {
        1
    } else if str_eq(name, "staging") {
        2
    } else if starts_with(name, "release/") {
        3
    } else {
        4
    }
}

/// The jobs of branches, by app and branch.
pub type Jobs = Map<(Seq<char>, Seq<char>), Vec<AmplifyJob>>;

/// When a branch was last deployed: the end of its newest job, or its start; the
/// empty text where there is none.
pub open spec fn last_deploy(jobs: Jobs, app_id: Seq<char>, branch: Seq<char>) -> Seq<char> {
    if jobs.dom().contains((app_id, branch)) && jobs[(app_id, branch)]@.len() > 0 {
        let j = jobs[(app_id, branch)]@[0];
        match j.end_time {
            Some(e) => e@,
            None => match j.start_time {
                Some(s) => s@,
                None => Seq::empty(),
            },
        }
    } else {
        Seq::empty()
    }
}

pub fn last_deploy_of(
    jobs: &Table<(String, String), Vec<AmplifyJob>>,
    app_id: &str,
    branch: &str,
) -> (r: String)
    ensures
        r@ == last_deploy(jobs@, app_id@, branch@),
{
    let key = (text::owned(app_id), text::owned(branch));
    match jobs.get(&key) {
        Some(v) => {
            if v.len() > 0 {
                match &v[0].end_time {
                    Some(e) => e.clone(),
                    None => match &v[0].start_time {
                        Some(s) => s.clone(),
                        None => String::new(),
                    },
                }
            } else {
                String::new()
            }
        },
        None => String::new(),
    }
}

/// The number of a day of the Gregorian calendar in the Julian count.
pub open spec fn julian_of(y: int, m: int, d: int) -> int {
    let year = if m <= 2 {
        y - 1
    } else {
        y
    };
    let month = if m <= 2 {
        m + 12
    } else {
        m
    };
    let century = amplify::quotient(year, 100);
    amplify::quotient(1461 * (year + 4716), 4) + 306_001 * (month + 1) / 10_000 + d + (2 - century
        + amplify::quotient(century, 4)) - 1524
}

/// The day that a point in time in the form of ISO 8601 falls on: year, month
/// and day in front of the `T`, with a `-` between them.
pub open spec fn date_in(iso: Seq<char>) -> Option<(nat, nat, nat)> {
    let parts = text::split_at_char(text::until(iso, 'T'), '-');
    if parts.len() < 3 {
        None
    } else {
        match (
            numeral::parsed_unsigned(parts[0], i32::MAX as nat),
            numeral::parsed_unsigned(parts[1], u32::MAX as nat),
            numeral::parsed_unsigned(parts[2], u32::MAX as nat),
        ) {
            (Some(y), Some(m), Some(d)) => Some((y, m, d)),
            _ => None,
        }
    }
}

/// How many days before `now`, in seconds since the epoch, a point in time lies;
/// nothing where it cannot be read or the time is not known.
pub open spec fn days_since(iso: Seq<char>, now: Option<u64>) -> Option<int> {
    match (date_in(iso), now) {
        (Some((y, m, d)), Some(t)) => Some(
            amplify::julian_day((t / 86_400) as int) - julian_of(y as int, m as int, d as int),
        ),
        _ => None,
    }
}

fn julian_number(y: u32, m: u32, d: u32) -> (r: i64)
    requires
        y <= i32::MAX,
    ensures
        r == julian_of(y as int, m as int, d as int),
        -10_000_000_000_000 <= r <= 10_000_000_000_000,
{
    let year: i64 = if m <= 2 { (y as i64) - 1 } else { y as i64 };
    let month: u64 = if m <= 2 { (m as u64) + 12 } else { m as u64 };
    let century: i64 = if year < 0 { 0 } else { ((year as u64) / 100) as i64 };
    let leaps: i64 = 2 - century + ((century as u64) / 4) as i64;
    let years: i64 = ((1461 * ((year + 4716) as u64)) / 4) as i64;
    let months: i64 = (306_001 * (month + 1) / 10_000) as i64;
    years + months + (d as i64) + leaps - 1524
}

/// How many days before `now` a point in time lies.
pub fn days_since_iso_at(iso: &str, now: Option<u64>) -> (r: Option<i64>)
    ensures
        match days_since(iso@, now) {
            Some(n) => r == Some(n as i64) && i64::MIN <= n <= i64::MAX,
            None => r is None,
        },
{
    let date = str_until(iso, 'T');
    let parts = split(date.as_str(), '-');
    let ghost views = text::split_at_char(date@, '-');
    if parts.len() < 3 {
        return None;
    }
    assert(views[0] == parts@[0]@ && views[1] == parts@[1]@ && views[2] == parts@[2]@);
    let y: u32 = match parse_u32(parts[0].as_str()) {
        Some(y) => y,
        None => {
            return None;
        },
    };
    if y > 0x7fff_ffff {
        return None;
    }
    match (parse_u32(parts[1].as_str()), parse_u32(parts[2].as_str()), now) {
        (Some(m), Some(d), Some(t)) => {
            let today: i64 = 2_440_588 + (t / 86_400) as i64;
            Some(today - julian_number(y, m, d))
        },
        _ => None,
    }
}

/// How many days ago a point in time lies, by the clock of the machine.
pub fn days_since_iso(iso: &str) -> (r: Option<i64>)
    ensures
        date_in(iso@) is None ==> r is None,
        exists|now: Option<u64>|
            match #[trigger] days_since(iso@, now) {
                Some(n) => r == Some(n as i64) && i64::MIN <= n <= i64::MAX,
                None => r is None,
            },
{
    let now: Option<u64> = secs_since_epoch();
    let r: Option<i64> = days_since_iso_at(iso, now);
    assert(match days_since(iso@, now) {
        Some(n) => r == Some(n as i64) && i64::MIN <= n <= i64::MAX,
        None => r is None,
    });
    r
}

/// The last sign of life of a branch: its last deployment, or its last change.
pub open spec fn last_sign(jobs: Jobs, app_id: Seq<char>, b: AmplifyBranch) -> Option<Seq<char>> {
    let ts = last_deploy(jobs, app_id, b.branch_name@);
    if ts.len() == 0 {
        text::opt_view(b.update_time)
    } else {
        Some(ts)
    }
}

/// A branch has shown no sign of life for too long. One whose age is not known
/// has not.
pub open spec fn stale(jobs: Jobs, app_id: Seq<char>, b: AmplifyBranch, now: Option<u64>) -> bool {
    match last_sign(jobs, app_id, b) {
        Some(ts) => match days_since(ts, now) {
            Some(d) => d > STALE_AFTER_DAYS,
            None => false,
        },
        None => false,
    }
}

fn is_stale(
    jobs: &Table<(String, String), Vec<AmplifyJob>>,
    app_id: &str,
    b: &AmplifyBranch,
    now: Option<u64>,
) -> (r: bool)
    ensures
        r == stale(jobs@, app_id@, *b, now),
{
    let ts = last_deploy_of(jobs, app_id, b.branch_name.as_str());
    let days: Option<i64> = if ts.as_str().is_empty() {
        match &b.update_time {
            Some(t) => days_since_iso_at(t.as_str(), now),
            None => None,
        }
    } else {
        days_since_iso_at(ts.as_str(), now)
    };
    match days {
        Some(d) => d > STALE_AFTER_DAYS,
        None => false,
    }
}

/// Of two branches the first was deployed later.
pub open spec fn more_recent(jobs: Jobs, app_id: Seq<char>, x: AmplifyBranch, y: AmplifyBranch) -> bool {
    text::before(
        last_deploy(jobs, app_id, y.branch_name@),
        last_deploy(jobs, app_id, x.branch_name@),
    )
}

/// What kind of branch it is: for a stage, for a release, or another.
pub open spec fn kind_of(b: AmplifyBranch) -> int {
    if essential(b.branch_name@) {
        0
    } else if release(b.branch_name@) {
        1
    } else {
        2
    }
}

/// The branches of one kind, in their order.
pub open spec fn of_kind(s: Seq<AmplifyBranch>, k: int) -> Seq<AmplifyBranch>
    decreases s.len(),
{
    if s.len() == 0 {
        Seq::empty()
    } else if kind_of(s.last()) == k {
        of_kind(s.drop_last(), k).push(s.last())
    } else {
        of_kind(s.drop_last(), k)
    }
}

/// The first branch that is not stale, if there is one.
pub open spec fn first_fresh(
    s: Seq<AmplifyBranch>,
    jobs: Jobs,
    app_id: Seq<char>,
    now: Option<u64>,
) -> Seq<AmplifyBranch>
    decreases s.len(),
{
    if s.len() == 0 {
        Seq::empty()
    } else if !stale(jobs, app_id, s[0], now) {
        seq![s[0]]
    } else {
        first_fresh(s.drop_first(), jobs, app_id, now)
    }
}

/// The branches in the order of their stages.
pub open spec fn by_stage(s: Seq<AmplifyBranch>) -> Seq<AmplifyBranch> {
    order::sorted(
        s,
        |x: AmplifyBranch, y: AmplifyBranch| primary_key(x.branch_name@) < primary_key(y.branch_name@),
    )
}

/// The branches with the one that was deployed last in front.
pub open spec fn by_deploy(s: Seq<AmplifyBranch>, jobs: Jobs, app_id: Seq<char>) -> Seq<AmplifyBranch> {
    order::sorted(s, |x: AmplifyBranch, y: AmplifyBranch| more_recent(jobs, app_id, x, y))
}

/// The branches of an app that are shown: all those for stages, and of the
/// releases and of the others the one that was deployed last, if it is not
/// stale.
pub open spec fn shown_branches(
    all: Seq<AmplifyBranch>,
    jobs: Jobs,
    app_id: Seq<char>,
    now: Option<u64>,
) -> Seq<AmplifyBranch> {
    by_stage(of_kind(all, 0)) + first_fresh(by_deploy(of_kind(all, 1), jobs, app_id), jobs, app_id, now)
        + first_fresh(by_deploy(of_kind(all, 2), jobs, app_id), jobs, app_id, now)
}

/// What some references point at.
pub open spec fn pointed(s: Seq<&AmplifyBranch>) -> Seq<AmplifyBranch> {
    s.map_values(|b: &AmplifyBranch| *b)
}

fn find_kind<'a>(all: &'a Vec<AmplifyBranch>, k: u8) -> (r: Vec<&'a AmplifyBranch>)
    requires
        k <= 2,
    ensures
        pointed(r@) == of_kind(all@, k as int),
{
    let mut out: Vec<&'a AmplifyBranch> = Vec::new();
    let mut i: usize = 0;
    assert(all@.take(0) =~= Seq::empty());
    assert(pointed(out@) =~= Seq::empty());
    while i < all.len()
        invariant
            i <= all.len(),
            k <= 2,
            pointed(out@) == of_kind(all@.take(i as int), k as int),
        decreases all.len() - i,
    {
        let b = &all[i];
        assert(all@.take(i + 1).drop_last() =~= all@.take(i as int));
        let name = b.branch_name.as_str();
        let kind: u8 = if is_essential(name) {
            0
        } else if starts_with(name, "release/") {
            1
        } else {
            2
        };
        if kind == k {
            let ghost before = pointed(out@);
            out.push(b);
            assert(pointed(out@) =~= before.push(*b));
        }
        i = i + 1;
    }
    assert(all@.take(all@.len() as int) =~= all@);
    out
}

fn sort_by_stage<'a>(s: Vec<&'a AmplifyBranch>) -> (r: Vec<&'a AmplifyBranch>)
    ensures
        pointed(r@) == by_stage(pointed(s@)),
{
    let ghost less = |x: &'a AmplifyBranch, y: &'a AmplifyBranch|
        primary_key(x.branch_name@) < primary_key(y.branch_name@);
    let comes_before = |x: &&'a AmplifyBranch, y: &&'a AmplifyBranch| -> (o: bool)
        ensures
            o == (primary_key(x.branch_name@) < primary_key(y.branch_name@)),
    {
        primary_sort_key(x.branch_name.as_str()) < primary_sort_key(y.branch_name.as_str())
    };
    let r = sort_by(s, comes_before, Ghost(less));
    proof {
        order::lemma_sorted_map(
            s@,
            less,
            |b: &AmplifyBranch| *b,
            |x: AmplifyBranch, y: AmplifyBranch|
                primary_key(x.branch_name@) < primary_key(y.branch_name@),
        );
    }
    r
}

fn sort_by_deploy<'a>(
    s: Vec<&'a AmplifyBranch>,
    jobs: &Table<(String, String), Vec<AmplifyJob>>,
    app_id: &str,
) -> (r: Vec<&'a AmplifyBranch>)
    ensures
        pointed(r@) == by_deploy(pointed(s@), jobs@, app_id@),
{
    let ghost less = |x: &'a AmplifyBranch, y: &'a AmplifyBranch| more_recent(jobs@, app_id@, *x, *y);
    let comes_before = |x: &&'a AmplifyBranch, y: &&'a AmplifyBranch| -> (o: bool)
        ensures
            o == more_recent(jobs@, app_id@, **x, **y),
    {
        let tx = last_deploy_of(jobs, app_id, x.branch_name.as_str());
        let ty = last_deploy_of(jobs, app_id, y.branch_name.as_str());
        str_before(ty.as_str(), tx.as_str())
    };
    let r = sort_by(s, comes_before, Ghost(less));
    proof {
        order::lemma_sorted_map(
            s@,
            less,
            |b: &AmplifyBranch| *b,
            |x: AmplifyBranch, y: AmplifyBranch| more_recent(jobs@, app_id@, x, y),
        );
    }
    r
}

fn push_first_fresh<'a>(
    out: &mut Vec<&'a AmplifyBranch>,
    s: &Vec<&'a AmplifyBranch>,
    jobs: &Table<(String, String), Vec<AmplifyJob>>,
    app_id: &str,
    now: Option<u64>,
)
    ensures
        pointed(final(out)@) == pointed(old(out)@) + first_fresh(pointed(s@), jobs@, app_id@, now),
{
    let ghost all = pointed(s@);
    let ghost start = pointed(out@);
    let mut i: usize = 0;
    assert(all.skip(0) =~= all);
    while i < s.len()
        invariant
            i <= s.len(),
            all == pointed(s@),
            start == pointed(out@),
            start == pointed(old(out)@),
            first_fresh(all, jobs@, app_id@, now) == first_fresh(all.skip(i as int), jobs@, app_id@, now),
        decreases s.len() - i,
    {
        assert(all.skip(i as int).drop_first() =~= all.skip(i + 1));
        assert(all.skip(i as int)[0] == *s@[i as int]);
        if !is_stale(jobs, app_id, s[i], now) {
            out.push(s[i]);
            assert(pointed(out@) =~= start + seq![all[i as int]]);
            return;
        }
        i = i + 1;
    }
    assert(all.skip(s@.len() as int) =~= Seq::empty());
    assert(start + first_fresh(all, jobs@, app_id@, now) =~= start);
}

/// The branches of an app that are shown, of all its branches.
pub fn choose_branches<'a>(
    all: &'a Vec<AmplifyBranch>,
    jobs: &Table<(String, String), Vec<AmplifyJob>>,
    app_id: &str,
    now: Option<u64>,
) -> (r: Vec<&'a AmplifyBranch>)
    ensures
        pointed(r@) == shown_branches(all@, jobs@, app_id@, now),
{
    let mut out = sort_by_stage(find_kind(all, 0));
    let releases = sort_by_deploy(find_kind(all, 1), jobs, app_id);
    let others = sort_by_deploy(find_kind(all, 2), jobs, app_id);
    push_first_fresh(&mut out, &releases, jobs, app_id, now);
    push_first_fresh(&mut out, &others, jobs, app_id, now);
    out
}

} // verus!
