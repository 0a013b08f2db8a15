//! Repositories and images, and the command lines by which they are read.

use vstd::prelude::*;

use crate::command;
use crate::command::{with_option, with_region, Ran};
use crate::json::Json;
use crate::numeral;
use crate::numeral::{byte_count_text, dec, dec_size};
use crate::offsets;
use crate::offsets::take_bytes;
use crate::order;
use crate::order::{name_before, sort_by};
use crate::table;
use crate::table::Table;
use crate::text;
use crate::text::{
    cat2, cat3, cat4, cat6, change_char, list_of, owned, str_before, strip_prefix, to_ascii_lower, trim,
};

verus! {

/// Whether the images of a repository are scanned.
pub struct ImageScanningConfiguration {
    pub scan_on_push: Option<bool>,
}

/// A repository.
pub struct Repository {
    pub name: String,
    pub arn: String,
    pub registry_id: Option<String>,
    pub uri: Option<String>,
    pub created_at: Option<String>,
    pub tag_mutability: Option<String>,
    pub scanning: Option<ImageScanningConfiguration>,
    pub encryption: Option<Json>,
}

/// An image.
pub struct ImageDetail {
    pub repository_name: String,
    pub digest: Option<String>,
    pub tags: Vec<String>,
    pub size_bytes: Option<u64>,
    pub pushed_at: Option<String>,
    pub manifest_media_type: Option<String>,
    pub artifact_media_type: Option<String>,
    pub scan_summary: Option<ScanFindingsSummary>,
    pub scan_status: Option<ScanStatus>,
}

/// What a scan has found, by severity; a severity that is not named has nothing.
pub struct ScanFindingsSummary {
    pub completed_at: Option<String>,
    pub vuln_source_updated_at: Option<String>,
    pub counts: Table<String, u64>,
}

/// How many findings of a severity there are.
pub open spec fn findings(s: ScanFindingsSummary, severity: Seq<char>) -> u64 {
    match table::looked_up(s.counts@, severity) {
        Some(n) => n,
        None => 0,
    }
}

/// How many findings of the severities that are shown there are.
pub open spec fn all_findings(s: ScanFindingsSummary) -> int {
    findings(s, "CRITICAL"@) + findings(s, "HIGH"@) + findings(s, "MEDIUM"@) + findings(s, "LOW"@)
        + findings(s, "INFORMATIONAL"@)
}

impl ScanFindingsSummary {
    fn count(&self, severity: &str) -> (r: u64)
        ensures
            r == findings(*self, severity@),
    {
        match self.counts.get(&owned(severity)) {
            Some(n) => *n,
            None => 0,
        }
    }

    pub fn critical(&self) -> (r: u64)
        ensures
            r == findings(*self, "CRITICAL"@),
    {
        self.count("CRITICAL")
    }

    pub fn high(&self) -> (r: u64)
        ensures
            r == findings(*self, "HIGH"@),
    {
        self.count("HIGH")
    }

    pub fn medium(&self) -> (r: u64)
        ensures
            r == findings(*self, "MEDIUM"@),
    {
        self.count("MEDIUM")
    }

    pub fn low(&self) -> (r: u64)
        ensures
            r == findings(*self, "LOW"@),
    {
        self.count("LOW")
    }

    pub fn informational(&self) -> (r: u64)
        ensures
            r == findings(*self, "INFORMATIONAL"@),
    {
        self.count("INFORMATIONAL")
    }

    /// How many findings there are, where so many can be counted.
    pub fn total(&self) -> (r: u64)
        requires
            all_findings(*self) <= u64::MAX,
        ensures
            r == all_findings(*self),
    {
        self.critical() + self.high() + self.medium() + self.low() + self.informational()
    }

    /// How many findings there are, however many they be.
    pub fn wide_total(&self) -> (r: u128)
        ensures
            r == all_findings(*self),
    {
        (self.critical() as u128) + (self.high() as u128) + (self.medium() as u128) + (self.low() as u128)
            + (self.informational() as u128)
    }
}

/// How far a scan has come.
pub struct ScanStatus {
    pub status: Option<String>,
    pub description: Option<String>,
}

/// What a tab lists.
pub enum Item {
    Repository(Repository),
    Image(ImageDetail),
}

/// A digest without its kind, and not more than its first twelve bytes.
pub open spec fn digest_words(digest: Seq<char>) -> Seq<char> {
    let d = match text::without_prefix(digest, "sha256:"@) {
        Some(rest) => rest,
        None => digest,
    };
    match offsets::first_bytes(d, 12) {
        Some(head) => head,
        None => d,
    }
}

/// A digest without its kind, and not more than its first twelve bytes.
pub fn short_digest(digest: &str) -> (r: String)
    ensures
        r@ == digest_words(digest@),
{
    let d = match strip_prefix(digest, "sha256:") {
        Some(rest) => rest,
        None => owned(digest),
    };
    match take_bytes(d.as_str(), 12) {
        Some(head) => owned(head),
        None => d,
    }
}

/// A point in time to the minute, with a space in front of the hour; a text that
/// is too short stays as it is.
pub open spec fn minute_words(ts: Seq<char>) -> Seq<char> {
    match offsets::first_bytes(ts, 16) {
        Some(head) => text::with_char(head, 'T', ' '),
        None => ts,
    }
}

/// A point in time to the minute.
pub fn short_timestamp(ts: &str) -> (r: String)
    ensures
        r@ == minute_words(ts@),
{
    match take_bytes(ts, 16) {
        Some(head) => change_char(head, 'T', ' '),
        None => owned(ts),
    }
}

/// A number of bytes in words.
pub fn fmt_bytes(n: u64) -> (r: String)
    ensures
        r@ == numeral::byte_count(n as nat),
{
    byte_count_text(n)
}

/// The name of an item: that of the repository; the first tag of the image, or
/// the beginning of its digest.
pub open spec fn primary(x: Item) -> Seq<char> {
    match x {
        Item::Repository(r) => r.name@,
        Item::Image(i) => if i.tags@.len() > 0 {
            i.tags@[0]@
        } else {
            digest_words(
                match i.digest {
                    Some(d) => d@,
                    None => "(untagged)"@,
                },
            )
        },
    }
}

/// Whether images are scanned when they are pushed, in a word.
pub open spec fn scan_word(s: Option<ImageScanningConfiguration>) -> Seq<char> {
    match s {
        Some(c) => match c.scan_on_push {
            Some(true) => "scan-on-push"@,
            Some(false) => "no-scan"@,
            None => "?"@,
        },
        None => "?"@,
    }
}

/// The mark of an image with critical findings, or with high ones.
pub open spec fn scan_chip(s: Option<ScanFindingsSummary>) -> Seq<char> {
    match s {
        Some(s) => if findings(s, "CRITICAL"@) > 0 {
            " · ⚠ "@ + numeral::decimal(findings(s, "CRITICAL"@) as nat) + "c"@
        } else if findings(s, "HIGH"@) > 0 {
            " · ⚠ "@ + numeral::decimal(findings(s, "HIGH"@) as nat) + "h"@
        } else {
            Seq::empty()
        },
        None => Seq::empty(),
    }
}

/// What is said of an item beside its name.
pub open spec fn secondary(x: Item) -> Seq<char> {
    match x {
        Item::Repository(r) => text::ascii_lower(
            match r.tag_mutability {
                Some(m) => m@,
                None => "?"@,
            },
        ) + " · "@ + scan_word(r.scanning),
        Item::Image(i) => {
            let size = match i.size_bytes {
                Some(n) => numeral::byte_count(n as nat),
                None => "—"@,
            };
            let pushed = match i.pushed_at {
                Some(t) => minute_words(t@),
                None => "—"@,
            };
            if i.tags@.len() > 1 {
                size + " · "@ + pushed + " · +"@ + numeral::decimal((i.tags@.len() - 1) as nat)
                    + " tag(s)"@ + scan_chip(i.scan_summary)
            } else {
                size + " · "@ + pushed + scan_chip(i.scan_summary)
            }
        },
    }
}

fn chip_of(s: &Option<ScanFindingsSummary>) -> (r: String)
    ensures
        r@ == scan_chip(*s),
{
    match s {
        Some(s) => {
            let c: u64 = s.critical();
            let h: u64 = s.high();
            if c > 0 {
                cat3(" · ⚠ ", dec(c).as_str(), "c")
            } else if h > 0 {
                cat3(" · ⚠ ", dec(h).as_str(), "h")
            } else {
                String::new()
            }
        },
        None => String::new(),
    }
}

impl Item {
    pub fn primary_label(&self) -> (r: String)
        ensures
            r@ == primary(*self),
    {
        match self {
            Item::Repository(r) => r.name.clone(),
            Item::Image(i) => {
                if i.tags.len() > 0 {
                    i.tags[0].clone()
                } else {
                    short_digest(
                        match &i.digest {
                            Some(d) => d.as_str(),
                            None => "(untagged)",
                        },
                    )
                }
            },
        }
    }

    pub fn secondary_label(&self) -> (r: String)
        ensures
            r@ == secondary(*self),
    {
        match self {
            Item::Repository(r) => {
                let m = to_ascii_lower(
                    match &r.tag_mutability {
                        Some(m) => m.as_str(),
                        None => "?",
                    },
                );
                let scan = match &r.scanning {
                    Some(c) => match c.scan_on_push {
                        Some(true) => "scan-on-push",
                        Some(false) => "no-scan",
                        None => "?",
                    },
                    None => "?",
                };
                cat3(m.as_str(), " · ", scan)
            },
            Item::Image(i) => {
                let size = match i.size_bytes {
                    Some(n) => fmt_bytes(n),
                    None => owned("—"),
                };
                let pushed = match &i.pushed_at {
                    Some(t) => short_timestamp(t.as_str()),
                    None => owned("—"),
                };
                let chip = chip_of(&i.scan_summary);
                if i.tags.len() > 1 {
                    let extra = dec_size(i.tags.len() - 1);
                    let first = cat6(
                        size.as_str(),
                        " · ",
                        pushed.as_str(),
                        " · +",
                        extra.as_str(),
                        " tag(s)",
                    );
                    cat2(first.as_str(), chip.as_str())
                } else {
                    cat4(size.as_str(), " · ", pushed.as_str(), chip.as_str())
                }
            },
        }
    }
}

/// The arguments of `aws` for a page of the list of repositories.
pub open spec fn repositories_command(region: Option<Seq<char>>, token: Option<Seq<char>>) -> Seq<Seq<char>> {
    seq!["ecr"@, "describe-repositories"@, "--output"@, "json"@] + command::region_option(region)
        + command::option_with("--next-token"@, token)
}

pub fn describe_repositories_args(region: Option<&str>, token: Option<&str>) -> (r: Vec<String>)
    ensures
        text::views(r@) == repositories_command(text::opt_str_view(region), text::opt_str_view(token)),
{
    let head = list_of(vec!["ecr", "describe-repositories", "--output", "json"]);
    assert(text::views(head@) =~= seq!["ecr"@, "describe-repositories"@, "--output"@, "json"@]);
    with_option(with_region(head, region), "--next-token", token)
}

/// The error of a run that listed no repositories.
pub open spec fn repositories_error(ran: Ran) -> Option<Seq<char>> {
    match ran {
        Ran::NotStarted(_) => Some("spawn `aws ecr describe-repositories`"@),
        Ran::Failed(e) => Some("aws ecr describe-repositories failed: "@ + text::trimmed(e@)),
        Ran::Done(_) => None,
    }
}

pub fn describe_repositories_error(ran: &Ran) -> (r: Option<String>)
    ensures
        text::opt_view(r) == repositories_error(*ran),
{
    match ran {
        Ran::NotStarted(_) => Some(owned("spawn `aws ecr describe-repositories`")),
        Ran::Failed(e) => Some(cat2("aws ecr describe-repositories failed: ", trim(e.as_str()))),
        Ran::Done(_) => None,
    }
}

/// Repositories in the order in which they are listed: by name, in lower case.
pub open spec fn listed_repositories(p: Seq<Repository>) -> Seq<Repository> {
    order::sorted(p, |a: Repository, b: Repository| order::lower_before(a.name@, b.name@))
}

/// Puts repositories in the order of the list.
pub fn sort_repositories(p: Vec<Repository>) -> (r: Vec<Repository>)
    ensures
        r@ == listed_repositories(p@),
{
    let comes_before = |a: &Repository, b: &Repository| -> (o: bool)
        ensures
            o == order::lower_before(a.name@, b.name@),
    {
        name_before(a.name.as_str(), b.name.as_str())
    };
    sort_by(
        p,
        comes_before,
        Ghost(|a: Repository, b: Repository| order::lower_before(a.name@, b.name@)),
    )
}

/// The arguments of `aws` for a page of the list of images of a repository.
pub open spec fn images_command(
    repository: Seq<char>,
    region: Option<Seq<char>>,
    token: Option<Seq<char>>,
) -> Seq<Seq<char>> {
    seq!["ecr"@, "describe-images"@, "--repository-name"@, repository, "--output"@, "json"@]
        + command::region_option(region) + command::option_with("--next-token"@, token)
}

pub fn describe_images_args(repository: &str, region: Option<&str>, token: Option<&str>) -> (r: Vec<String>)
    ensures
        text::views(r@) == images_command(
            repository@,
            text::opt_str_view(region),
            text::opt_str_view(token),
        ),
{
    let head = list_of(
        vec!["ecr", "describe-images", "--repository-name", repository, "--output", "json"],
    );
    assert(text::views(head@) =~= seq![
        "ecr"@,
        "describe-images"@,
        "--repository-name"@,
        repository@,
        "--output"@,
        "json"@,
    ]);
    with_option(with_region(head, region), "--next-token", token)
}

/// The error of a run that listed no images.
pub open spec fn images_error(repository: Seq<char>, ran: Ran) -> Option<Seq<char>> {
    match ran {
        Ran::NotStarted(_) => Some("spawn `aws ecr describe-images` for "@ + repository),
        Ran::Failed(e) => Some(
            "aws ecr describe-images failed for "@ + repository + ": "@ + text::trimmed(e@),
        ),
        Ran::Done(_) => None,
    }
}

pub fn describe_images_error(repository: &str, ran: &Ran) -> (r: Option<String>)
    ensures
        text::opt_view(r) == images_error(repository@, *ran),
{
    match ran {
        Ran::NotStarted(_) => Some(cat2("spawn `aws ecr describe-images` for ", repository)),
        Ran::Failed(e) => Some(
            cat4("aws ecr describe-images failed for ", repository, ": ", trim(e.as_str())),
        ),
        Ran::Done(_) => None,
    }
}

/// Of two texts, which may be missing, the first comes later in the order of
/// texts; a missing one comes in front of all others.
pub open spec fn text_later(a: Option<String>, b: Option<String>) -> bool {
    match (a, b) {
        (Some(x), Some(y)) => text::before(y@, x@),
        (Some(_), None) => true,
        _ => false,
    }
}

/// Images in the order in which they are listed: the one that was pushed last
/// comes first.
pub open spec fn listed_images(p: Seq<ImageDetail>) -> Seq<ImageDetail> {
    order::sorted(p, |a: ImageDetail, b: ImageDetail| text_later(a.pushed_at, b.pushed_at))
}

/// Puts images in the order of the list.
pub fn sort_images(p: Vec<ImageDetail>) -> (r: Vec<ImageDetail>)
    ensures
        r@ == listed_images(p@),
{
    let comes_before = |a: &ImageDetail, b: &ImageDetail| -> (o: bool)
        ensures
            o == text_later(a.pushed_at, b.pushed_at),
    {
        match (&a.pushed_at, &b.pushed_at) {
            (Some(x), Some(y)) => str_before(y.as_str(), x.as_str()),
            (Some(_), None) => true,
            _ => false,
        }
    };
    sort_by(
        p,
        comes_before,
        Ghost(|a: ImageDetail, b: ImageDetail| text_later(a.pushed_at, b.pushed_at)),
    )
}

/// The newest image comes first: no image in the list was pushed later than one
/// in front of it.
pub proof fn law_newest_image_first(p: Seq<ImageDetail>, i: int, j: int)
    requires
        0 <= i < j < listed_images(p).len(),
    ensures
        !text_later(listed_images(p)[j].pushed_at, listed_images(p)[i].pushed_at),
{
    let less = |a: ImageDetail, b: ImageDetail| text_later(a.pushed_at, b.pushed_at);
    assert(order::orders(less)) by {
        assert forall|a: ImageDetail| !(#[trigger] less(a, a)) by {
            if let Some(x) = a.pushed_at {
                text::lemma_before_irreflexive(x@);
            }
        }
        assert forall|a: ImageDetail, b: ImageDetail, c: ImageDetail| #[trigger]
            less(a, b) && #[trigger] less(b, c) implies less(a, c) by {
            lemma_later_transitive(a.pushed_at, b.pushed_at, c.pushed_at);
        }
        assert forall|a: ImageDetail, b: ImageDetail, c: ImageDetail| !(#[trigger] less(a, b)) && !(
        #[trigger] less(b, c)) implies !less(a, c) by {
            lemma_not_later_transitive(a.pushed_at, b.pushed_at, c.pushed_at);
        }
    }
    order::law_sorted(p, less);
    assert(listed_images(p) == order::sorted(p, less));
    assert(!less(listed_images(p)[j], listed_images(p)[i]));
}

proof fn lemma_later_transitive(a: Option<String>, b: Option<String>, c: Option<String>)
    requires
        text_later(a, b),
        text_later(b, c),
    ensures
        text_later(a, c),
{
    if let (Some(x), Some(y)) = (a, b) {
        if let Some(z) = c {
            text::lemma_before_transitive(z@, y@, x@);
        }
    }
}

proof fn lemma_not_later_transitive(a: Option<String>, b: Option<String>, c: Option<String>)
    requires
        !text_later(a, b),
        !text_later(b, c),
    ensures
        !text_later(a, c),
{
    if let (Some(x), Some(z)) = (a, c) {
        if let Some(y) = b {
            text::lemma_before_total(x@, y@);
            text::lemma_before_total(y@, z@);
            text::lemma_before_irreflexive(x@);
            if text::before(z@, x@) {
                if x@ == y@ {
                } else if y@ == z@ {
                } else {
                    text::lemma_before_transitive(x@, y@, z@);
                    text::lemma_before_transitive(x@, z@, x@);
                }
            }
        }
    }
}

/// Repositories are listed by name, whatever the case of its letters, and none is
/// lost or added.
pub proof fn law_repositories_in_order(p: Seq<Repository>)
    ensures
        order::in_order(listed_repositories(p), |a: Repository, b: Repository| order::lower_before(a.name@, b.name@)),
        listed_repositories(p).to_multiset() == p.to_multiset(),
{
    let less = |a: Repository, b: Repository| order::lower_before(a.name@, b.name@);
    order::lemma_key_orders(less, |a: Repository| text::lowercased(a.name@));
    order::law_sorted(p, less);
}

} // verus!
