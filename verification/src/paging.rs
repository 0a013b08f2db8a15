//! Lists that come page by page.

use vstd::prelude::*;

use crate::text;

verus! {

/// What has been read of a list that comes page by page.
pub struct Pages<T> {
    pub items: Vec<T>,
    /// By what the next page is asked for; nothing for the first one.
    pub token: Option<String>,
    /// There is no further page to be read.
    pub done: bool,
}

/// A `Pages` by its contents.
#[verifier::ext_equal]
pub struct PagesV<T> {
    pub items: Seq<T>,
    pub token: Option<Seq<char>>,
    pub done: bool,
}

impl<T> View for Pages<T> {
    type V = PagesV<T>;

    open spec fn view(&self) -> PagesV<T> {
        PagesV { items: self.items@, token: text::opt_view(self.token), done: self.done }
    }
}

/// By what the next page is asked for: an empty text asks for nothing.
pub open spec fn live_token(token: Option<Seq<char>>) -> Option<Seq<char>> {
    match token {
        Some(t) => if t.len() > 0 {
            Some(t)
        } else {
            None
        },
        None => None,
    }
}

/// There are enough items: `limit` of them, counted modulo two to the
/// thirty-second.
pub open spec fn enough(n: int, limit: u32) -> bool {
    n % 0x1_0000_0000 >= limit
}

impl<T> PagesV<T> {
    /// Before the first page.
    pub open spec fn begun() -> PagesV<T> {
        PagesV { items: Seq::empty(), token: None, done: false }
    }

    /// With a page more.
    pub open spec fn taken(self, page: Seq<T>, token: Option<Seq<char>>) -> PagesV<T> {
        PagesV {
            items: self.items + page,
            token: live_token(token),
            done: live_token(token) is None,
        }
    }

    /// With a page more of a list in which an empty text names a further page
    /// too.
    pub open spec fn taken_as_named(self, page: Seq<T>, token: Option<Seq<char>>) -> PagesV<T> {
        PagesV { items: self.items + page, token, done: token is None }
    }

    /// With a page more of a list of which only some items are wanted.
    pub open spec fn taken_up_to(self, page: Seq<T>, token: Option<Seq<char>>, limit: u32) -> PagesV<T> {
        let t = self.taken(page, token);
        PagesV { done: t.done || enough(t.items.len() as int, limit), ..t }
    }

    /// A page is to be asked for, where only `limit` items are wanted.
    pub open spec fn wanting(self, limit: u32) -> bool {
        limit > 0 && !self.done
    }
}

/// What is read of the pages of a list, of which only `limit` items are wanted:
/// the pages are asked for one by one until no further one is wanted.
pub open spec fn read_pages<T>(pages: Seq<(Seq<T>, Option<Seq<char>>)>, limit: u32) -> PagesV<T>
    decreases pages.len(),
{
    if pages.len() == 0 {
        PagesV::begun()
    } else {
        let p = read_pages(pages.drop_last(), limit);
        if p.wanting(limit) {
            p.taken_up_to(pages.last().0, pages.last().1, limit)
        } else {
            p
        }
    }
}

impl<T> Pages<T> {
    /// Before the first page.
    pub fn new() -> (r: Pages<T>)
        ensures
            r@ == PagesV::<T>::begun(),
    {
        let r: Pages<T> = Pages { items: Vec::new(), token: None, done: false };
        assert(r@ =~= PagesV::<T>::begun());
        r
    }

    /// Takes in a page and by what the next one is asked for.
    pub fn take(&mut self, page: Vec<T>, token: Option<String>)
        ensures
            final(self)@ == old(self)@.taken(page@, text::opt_view(token)),
    {
        let ghost before = self@;
        let mut rest = page;
        self.items.append(&mut rest);
        self.token = match token {
            Some(t) => {
                if t.as_str().is_empty() {
                    None
                } else {
                    Some(t)
                }
            },
            None => None,
        };
        self.done = self.token.is_none();
        assert(self@ =~= before.taken(page@, text::opt_view(token)));
    }

    /// Takes in a page of a list that has ended only where no token is named at
    /// all.
    pub fn take_as_named(&mut self, page: Vec<T>, token: Option<String>)
        ensures
            final(self)@ == old(self)@.taken_as_named(page@, text::opt_view(token)),
    {
        let ghost before = self@;
        let mut rest = page;
        self.items.append(&mut rest);
        self.done = token.is_none();
        self.token = token;
        assert(self@ =~= before.taken_as_named(page@, text::opt_view(token)));
    }

    /// Takes in a page of a list of which only `limit` items are wanted.
    pub fn take_up_to(&mut self, page: Vec<T>, token: Option<String>, limit: u32)
        ensures
            final(self)@ == old(self)@.taken_up_to(page@, text::opt_view(token), limit),
    {
        self.take(page, token);
        if (self.items.len() as u64) % 0x1_0000_0000 >= limit as u64 {
            self.done = true;
        }
    }

    /// Whether a page is to be asked for, where only `limit` items are wanted:
    /// none is where nothing is wanted.
    pub fn wants_more(&self, limit: u32) -> (r: bool)
        ensures
            r == self@.wanting(limit),
    {
        limit > 0 && !self.done
    }
}

/// A page adds its items behind those of the pages before it, and reading ends
/// exactly where no further page is named.
pub proof fn law_page_adds_its_items<T>(p: PagesV<T>, page: Seq<T>, token: Option<Seq<char>>)
    ensures
        p.taken(page, token).items.take(p.items.len() as int) == p.items,
        p.taken(page, token).items.skip(p.items.len() as int) == page,
        p.taken(page, token).done <==> p.taken(page, token).token is None,
        token == Some(Seq::<char>::empty()) ==> p.taken(page, token).done,
{
    assert((p.items + page).take(p.items.len() as int) =~= p.items);
    assert((p.items + page).skip(p.items.len() as int) =~= page);
}

/// Where an empty token names a page too, a page adds the same items, and reading
/// ends exactly where there is no token.
pub proof fn law_named_page_adds_its_items<T>(p: PagesV<T>, page: Seq<T>, token: Option<Seq<char>>)
    ensures
        p.taken_as_named(page, token).items == p.taken(page, token).items,
        p.taken_as_named(page, token).token == token,
        p.taken_as_named(page, token).done <==> token is None,
        token != Some(Seq::<char>::empty()) ==> p.taken_as_named(page, token) == p.taken(page, token),
{
    if token is Some && token->0.len() == 0 {
        assert(token->0 =~= Seq::<char>::empty());
    }
}

/// Where nothing is wanted nothing is read, whatever pages there are.
pub proof fn law_nothing_wanted_nothing_read<T>(pages: Seq<(Seq<T>, Option<Seq<char>>)>)
    ensures
        read_pages(pages, 0) == PagesV::<T>::begun(),
    decreases pages.len(),
{
    if pages.len() > 0 {
        law_nothing_wanted_nothing_read(pages.drop_last());
    }
}

/// A page is read exactly where items are still wanted, the pages before it have
/// not brought as many as are wanted, and the last of them names a further one.
pub proof fn law_reading_ends<T>(
    pages: Seq<(Seq<T>, Option<Seq<char>>)>,
    next: (Seq<T>, Option<Seq<char>>),
    limit: u32,
)
    requires
        read_pages(pages, limit).items.len() < 0x1_0000_0000,
    ensures
        ({
            let p = read_pages(pages, limit);
            let q = read_pages(pages.push(next), limit);
            &&& p.wanting(limit) ==> q.items == p.items + next.0
            &&& !p.wanting(limit) ==> q == p
            &&& p.wanting(limit) == (limit > 0 && p.items.len() < limit && (pages.len() == 0 || p.token is Some))
        }),
    decreases pages.len(),
{
    assert(pages.push(next).drop_last() =~= pages);
    if pages.len() > 0 {
        let t = pages.drop_last();
        let p = read_pages(t, limit);
        assert(t.push(pages.last()) =~= pages);
        if p.items.len() < 0x1_0000_0000 {
            law_reading_ends(t, pages.last(), limit);
        }
    }
}

/// A page joins the end of what was read; the token of the next page is kept, and where
/// there is none, or an empty one, all is read.
pub proof fn law_pages_follow_each_other<T>(p: &mut Pages<T>, page: Vec<T>, token: Option<String>)
    requires
        call_ensures(Pages::<T>::take, (p, page, token), ()),
    ensures
        final(p)@.items == old(p)@.items + page@,
        token is Some && token->0@.len() > 0 ==> final(p)@.token == Some(token->0@) && !final(p)@.done,
        token is Some && token->0@.len() == 0 ==> final(p)@.token is None && final(p)@.done,
        token is None ==> final(p)@.token is None && final(p)@.done,
{
}

/// Where a number of items is wanted no further page is once there are as many.
pub proof fn law_enough_is_read<T>(p: &mut Pages<T>, page: Vec<T>, token: Option<String>, limit: u32, q: &Pages<T>, r: bool)
    requires
        call_ensures(Pages::<T>::take_up_to, (p, page, token, limit), ()),
        call_ensures(Pages::<T>::wants_more, (q, limit), r),
        old(p)@.items.len() + page@.len() <= u32::MAX,
    ensures
        final(p)@.items == old(p)@.items + page@,
        old(p)@.items.len() + page@.len() >= limit ==> final(p)@.done,
        old(p)@.items.len() + page@.len() < limit && token is Some && token->0@.len() > 0 ==> !final(p)@.done,
        r <==> limit > 0 && !q@.done,
{
}

} // verus!
