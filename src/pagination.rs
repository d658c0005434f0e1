use vstd::arithmetic::div_mod::{lemma_fundamental_div_mod, lemma_mod_pos_bound};
use vstd::prelude::*;

verus! {

/// The number of pages of `size` items that hold `total` items: the quotient,
/// plus one when there is a remainder.
pub open spec fn page_count(total: nat, size: nat) -> nat
    recommends
        size > 0,
{
    if total % size == 0 {
        total / size
    } else {
        total / size + 1
    }
}

/// `page_count` is the ceiling of `total / size`: the pages cover every item,
/// and one page fewer would not.
pub proof fn lemma_page_count_is_ceiling(total: nat, size: nat)
    requires
        size > 0,
    ensures
        page_count(total, size) * size >= total,
        total > 0 ==> (page_count(total, size) - 1) * size < total,
        total == 0 <==> page_count(total, size) == 0,
        page_count(total, size) <= total,
{
    lemma_fundamental_div_mod(total as int, size as int);
    lemma_mod_pos_bound(total as int, size as int);
    let q = total / size;
    let r = total % size;
    assert(total == size * q + r);
    assert(q * size == size * q) by (nonlinear_arith);
    assert(q <= total) by (nonlinear_arith)
        requires
            total == size * q + r,
            size > 0,
            r >= 0,
            q >= 0,
    ;
    if r != 0 {
        assert((q + 1) * size == q * size + size) by (nonlinear_arith);
        assert(q + 1 <= total) by (nonlinear_arith)
            requires
                total == size * q + r,
                size > 0,
                r > 0,
                r < size,
                q >= 0,
        ;
    } else if total > 0 {
        assert(q > 0) by (nonlinear_arith)
            requires
                total == size * q,
                total > 0,
                q >= 0,
        ;
        assert((q - 1) * size == q * size - size) by (nonlinear_arith);
    } else {
        assert(q == 0) by (nonlinear_arith)
            requires
                0 == size * q,
                size > 0,
        ;
    }
}

/// The number of pages needed to fetch `total` items, `page_size` at a time.
pub fn pages_for(total: u64, page_size: u64) -> (r: u64)
    requires
        page_size > 0,
    ensures
        r == page_count(total as nat, page_size as nat),
{
    proof {
        lemma_page_count_is_ceiling(total as nat, page_size as nat);
    }
    let pages = total / page_size;
    if total % page_size > 0 {
        pages + 1
    } else {
        pages
    }
}

/// Where a walk over the pages of a collection stands: the offset of the
/// first page, the page size, whether every page is wanted or only the first,
/// the number of pages (known once the first page has come back) and the
/// number of pages received so far.
#[derive(Debug, Clone, Copy, PartialEq, Eq, Structural)]
pub struct PageCursor {
    pub start: u64,
    pub page_size: u64,
    pub fetch_all: bool,
    pub pages: u64,
    pub received: u64,
}

impl PageCursor {
    /// A walk that has not issued any request yet.
    pub open spec fn fresh(start: u64, page_size: u64, fetch_all: bool) -> PageCursor {
        PageCursor { start, page_size, fetch_all, pages: 0, received: 0 }
    }

    pub open spec fn wf(self) -> bool {
        &&& self.page_size > 0
        &&& self.received == 0 ==> self.pages == 0
        &&& !self.fetch_all ==> self.pages <= 1
    }

    /// The offset of the `k`-th page.
    pub open spec fn offset_of(self, k: nat) -> int {
        self.start + k * self.page_size
    }

    /// The offset to request next, or `None` once the walk is over. The first
    /// page is always requested; after it, the pages that remain, as long as
    /// their offset can be expressed.
    pub open spec fn next_spec(self) -> Option<u64> {
        if self.received == 0 {
            Some(self.start)
        } else if self.received < self.pages && self.offset_of(self.received as nat) <= u64::MAX {
            Some(self.offset_of(self.received as nat) as u64)
        } else {
            None
        }
    }

    /// The walk after a page whose envelope reports `total` items. The first
    /// page fixes the number of pages; later totals are not read.
    pub open spec fn after_page(self, total: u64) -> PageCursor {
        PageCursor {
            pages: if self.received == 0 {
                if self.fetch_all {
                    page_count(total as nat, self.page_size as nat) as u64
                } else {
                    1
                }
            } else {
                self.pages
            },
            received: (self.received + 1) as u64,
            ..self
        }
    }

    /// The offsets requested in a walk from `self` whose replies report the
    /// totals in `totals`, one per reply, until the walk ends or the replies
    /// run out.
    pub open spec fn requests(self, totals: Seq<u64>) -> Seq<u64>
        decreases totals.len(),
    {
        match self.next_spec() {
            None => seq![],
            Some(o) => if totals.len() == 0 {
                seq![]
            } else {
                seq![o] + self.after_page(totals[0]).requests(totals.drop_first())
            },
        }
    }

    pub fn new(start: u64, page_size: u64, fetch_all: bool) -> (r: PageCursor)
        requires
            page_size > 0,
        ensures
            r == PageCursor::fresh(start, page_size, fetch_all),
            r.wf(),
    {
        PageCursor { start, page_size, fetch_all, pages: 0, received: 0 }
    }

    /// The offset of the next page to request, or `None` when done.
    pub fn next_offset(&self) -> (r: Option<u64>)
        requires
            self.wf(),
        ensures
            r == self.next_spec(),
    {
        if self.received == 0 {
            return Some(self.start);
        }
        if self.received >= self.pages {
            return None;
        }
        match self.received.checked_mul(self.page_size) {
            None => {
                assert(self.offset_of(self.received as nat) > u64::MAX) by (nonlinear_arith)
                    requires
                        self.received * self.page_size > u64::MAX,
                ;
                None
            },
            Some(skip) => self.start.checked_add(skip),
        }
    }

    /// Records a page whose envelope reports `total` items.
    pub fn record_page(&mut self, total: u64)
        requires
            old(self).wf(),
            old(self).next_spec() is Some,
        ensures
            *final(self) == old(self).after_page(total),
            final(self).wf(),
    {
        if self.received == 0 {
            if self.fetch_all {
                self.pages = pages_for(total, self.page_size);
            } else {
                self.pages = 1;
            }
        }
        self.received = self.received + 1;
    }
}

/// Once the number of pages is known, the walk requests each remaining page
/// once, in order, at its own offset.
proof fn lemma_remaining_requests(c: PageCursor, totals: Seq<u64>)
    requires
        c.wf(),
        c.received >= 1,
        c.received <= c.pages,
        c.pages > c.received ==> c.offset_of((c.pages - 1) as nat) <= u64::MAX,
        totals.len() >= c.pages - c.received,
    ensures
        c.requests(totals) == Seq::new(
            (c.pages - c.received) as nat,
            |k: int| c.offset_of((c.received + k) as nat) as u64,
        ),
    decreases c.pages - c.received,
{
    let expected = Seq::new(
        (c.pages - c.received) as nat,
        |k: int| c.offset_of((c.received + k) as nat) as u64,
    );
    if c.received == c.pages {
        assert(c.requests(totals) =~= expected);
    } else {
        let r = c.received as int;
        let last = (c.pages - 1) as int;
        assert(r * c.page_size <= last * c.page_size) by (nonlinear_arith)
            requires
                r <= last,
        ;
        let next = c.after_page(totals[0]);
        lemma_remaining_requests(next, totals.drop_first());
        assert(c.requests(totals) =~= expected);
    }
}

/// A walk over every page issues one request per page, at offsets `start`,
/// `start + page_size`, `start + 2 * page_size`, ..., as many as the first
/// reply's total calls for; a total of zero still costs the one request that
/// reports it.
pub proof fn lemma_fetch_all_requests(start: u64, page_size: u64, totals: Seq<u64>)
    requires
        page_size > 0,
        totals.len() >= 1,
        totals.len() >= page_count(totals[0] as nat, page_size as nat),
        start + totals[0] <= u64::MAX,
    ensures
        ({
            let n = page_count(totals[0] as nat, page_size as nat);
            let requests = PageCursor::fresh(start, page_size, true).requests(totals);
            &&& n == 0 ==> requests == seq![start]
            &&& n > 0 ==> requests == Seq::new(n, |k: int| (start + k * page_size) as u64)
        }),
{
    let t = totals[0];
    let n = page_count(t as nat, page_size as nat);
    lemma_page_count_is_ceiling(t as nat, page_size as nat);
    let c0 = PageCursor::fresh(start, page_size, true);
    let c1 = c0.after_page(t);
    let rest = totals.drop_first();
    if n == 0 {
        assert(c1.requests(rest) =~= seq![]);
        assert(c0.requests(totals) =~= seq![start]);
    } else {
        lemma_remaining_requests(c1, rest);
        assert(c1.offset_of((n - 1) as nat) <= u64::MAX);
        let tail = c1.requests(rest);
        let expected = Seq::new(n, |k: int| (start + k * page_size) as u64);
        assert(c0.requests(totals) == seq![start] + tail);
        assert forall|k: int| 0 <= k < n implies (seq![start] + tail)[k] == expected[k] by {
            assert(c1.pages == n && c1.received == 1 && tail.len() == n - 1);
            if k == 0 {
                assert(0 * page_size == 0) by (nonlinear_arith);
                assert(expected[0] == (start + 0 * page_size) as u64);
            } else {
                let j = (1 + (k - 1)) as nat;
                assert(j == k);
                assert(tail[k - 1] == c1.offset_of(j) as u64);
                assert(c1.offset_of(j) == start + k * page_size);
                assert(expected[k] == (start + k * page_size) as u64);
            }
        }
        assert(c0.requests(totals) =~= expected);
    }
}

/// Without full pagination only the first page is requested, whatever total
/// it reports.
pub proof fn lemma_first_page_only(start: u64, page_size: u64, totals: Seq<u64>)
    requires
        page_size > 0,
        totals.len() >= 1,
    ensures
        PageCursor::fresh(start, page_size, false).requests(totals) == seq![start],
{
    let c1 = PageCursor::fresh(start, page_size, false).after_page(totals[0]);
    assert(c1.requests(totals.drop_first()) =~= seq![]);
    assert(PageCursor::fresh(start, page_size, false).requests(totals) =~= seq![start]);
}

/// Pages a collection: hands out the offsets to request and gathers the items
/// of each page, in the order the pages came back.
pub struct Pager<T> {
    pub cursor: PageCursor,
    pub items: Vec<T>,
}

impl<T> Pager<T> {
    pub open spec fn wf(&self) -> bool {
        self.cursor.wf()
    }

    /// A walk starting at offset `start`, `page_size` items per page; with
    /// `fetch_all` unset only the first page is fetched.
    pub fn new(start: u64, page_size: u64, fetch_all: bool) -> (r: Pager<T>)
        requires
            page_size > 0,
        ensures
            r.cursor == PageCursor::fresh(start, page_size, fetch_all),
            r.items@ == Seq::<T>::empty(),
            r.wf(),
    {
        Pager { cursor: PageCursor::new(start, page_size, fetch_all), items: Vec::new() }
    }

    /// The offset of the next page to request, or `None` when every page is in.
    pub fn next_offset(&self) -> (r: Option<u64>)
        requires
            self.wf(),
        ensures
            r == self.cursor.next_spec(),
    {
        self.cursor.next_offset()
    }

    /// Takes in the page just requested: its envelope's total and its items,
    /// which are appended after those already gathered.
    pub fn on_page(&mut self, total: u64, items: Vec<T>)
        requires
            old(self).wf(),
            old(self).cursor.next_spec() is Some,
        ensures
            final(self).cursor == old(self).cursor.after_page(total),
            final(self).items@ == old(self).items@ + items@,
            final(self).wf(),
    {
        let mut items = items;
        self.cursor.record_page(total);
        self.items.append(&mut items);
    }

    /// The items gathered so far.
    pub fn into_items(self) -> (r: Vec<T>)
        ensures
            r@ == self.items@,
    {
        self.items
    }
}

} // verus!
