//! Walking a paginated list: 1-based pages, requested one at a time, until a
//! page comes back empty.
use vstd::prelude::*;

verus! {

/// Where a walk stands: the page to request next, or the end.
pub struct PageCursor {
    pub page: nat,
    pub done: bool,
}

/// The cursor before the first request.
pub open spec fn first_cursor() -> PageCursor {
    PageCursor { page: 1, done: false }
}

/// The cursor after page `c.page` came back with `len` items. An empty page
/// ends the walk; so does a page number that would pass `u32::MAX`.
pub open spec fn after_page(c: PageCursor, len: nat) -> PageCursor {
    if len == 0 || c.page >= u32::MAX {
        PageCursor { page: c.page, done: true }
    } else {
        PageCursor { page: c.page + 1, done: false }
    }
}

/// The requests made and the items received from `c` on, when the source
/// answers the successive requests with pages of the lengths in `lens`.
pub open spec fn walk(c: PageCursor, lens: Seq<nat>) -> (nat, nat)
    decreases lens.len(),
{
    if c.done || lens.len() == 0 {
        (0, 0)
    } else {
        let rest = walk(after_page(c, lens[0]), lens.drop_first());
        (rest.0 + 1, rest.1 + lens[0])
    }
}

/// `n` full pages of 100 items, then an empty page.
pub open spec fn full_pages(n: nat) -> Seq<nat> {
    Seq::new(n, |k: int| 100nat).push(0nat)
}

/// A paginated walk in progress.
#[derive(Debug, Clone, Copy, PartialEq, Eq, Structural)]
pub struct Pager {
    page: u32,
    finished: bool,
}

impl View for Pager {
    type V = PageCursor;

    closed spec fn view(&self) -> PageCursor {
        PageCursor { page: self.page as nat, done: self.finished }
    }
}

impl Pager {
    /// The page numbers stay in `1..=u32::MAX`.
    pub closed spec fn wf(&self) -> bool {
        self.page >= 1
    }

    /// A walk that starts at page 1.
    pub fn new() -> (r: Pager)
        ensures
            r.wf(),
            r@ == first_cursor(),
    {
        Pager { page: 1, finished: false }
    }

    /// The page to request next, or `None` once the walk has ended.
    pub fn next_page(&self) -> (r: Option<u32>)
        requires
            self.wf(),
        ensures
            self@.done <==> r is None,
            r matches Some(p) ==> p as nat == self@.page,
    {
        if self.finished {
            None
        } else {
            Some(self.page)
        }
    }

    /// Records that the page last requested came back with `len` items.
    pub fn record_page(&mut self, len: usize)
        requires
            old(self).wf(),
            !old(self)@.done,
        ensures
            final(self).wf(),
            final(self)@ == after_page(old(self)@, len as nat),
    {
        if len == 0 || self.page == u32::MAX {
            self.finished = true;
        } else {
            self.page = self.page + 1;
        }
    }
}

/// From page `p` on, `n` full pages and an empty one take `n + 1` requests
/// and give `100 * n` items.
proof fn lemma_full_pages_from(p: nat, n: nat)
    requires
        p >= 1,
        p + n <= u32::MAX,
    ensures
        walk(PageCursor { page: p, done: false }, full_pages(n)).0 == n + 1,
        walk(PageCursor { page: p, done: false }, full_pages(n)).1 == 100 * n,
    decreases n,
{
    let c = PageCursor { page: p, done: false };
    let lens = full_pages(n);
    if n == 0 {
        assert(lens[0] == 0);
        assert(lens.drop_first() =~= Seq::<nat>::empty());
        assert(after_page(c, lens[0]).done);
        assert(walk(after_page(c, lens[0]), lens.drop_first()) == (0nat, 0nat));
    } else {
        assert(lens[0] == 100);
        assert(lens.drop_first() =~= full_pages((n - 1) as nat));
        lemma_full_pages_from(p + 1, (n - 1) as nat);
        assert(after_page(c, lens[0]) == PageCursor { page: p + 1, done: false });
        assert(100 * (n - 1) + 100 == 100 * n) by (nonlinear_arith)
            requires
                n >= 1,
        ;
        let rest = walk(after_page(c, lens[0]), lens.drop_first());
        assert(rest.0 == n && rest.1 == 100 * (n - 1));
    }
}

/// A source that answers `n` full pages of 100 items and then an empty page
/// is asked exactly `n + 1` times, and the walk receives `100 * n` items.
pub proof fn lemma_full_pages_then_empty(n: nat)
    requires
        n < u32::MAX,
    ensures
        walk(first_cursor(), full_pages(n)).0 == n + 1,
        walk(first_cursor(), full_pages(n)).1 == 100 * n,
{
    lemma_full_pages_from(1, n);
}

} // verus!
