//! The paging rules of collection queries: which page to ask for next,
//! when to stop, and which records the caller gets back.
//!
//! The records themselves come from the API server; what is decided here is
//! a function of the pages that came back, and it is the same whatever the
//! server answers.
use vstd::prelude::*;

verus! {

/// The page size of the first list request: large, so that most
/// collections come back in one page.
pub const PER_PAGE_START: i32 = 1000;

/// One page of records, as the API server sends it back.
pub struct ListPage<T> {
    /// The number of the page, counting from 1.
    pub page: i32,
    /// The page size that the server used.
    pub per_page: i32,
    /// The number of records in the whole collection.
    pub total_items: i32,
    /// The records of this page.
    pub items: Vec<T>,
}

/// A list request: which page, of which size.
#[derive(Clone, Copy, Debug, PartialEq, Eq, Structural)]
pub struct PageRequest {
    pub page: i32,
    pub per_page: i32,
}

/// What a page contributes to the history of a collection: its number, its
/// size and its records.
pub type PageRecord<T> = (i32, i32, Seq<T>);

/// A page is short when it holds other than `per_page` records; a short page
/// is the last one of its collection. (A negative page size makes every
/// page short.)
pub open spec fn is_short(per_page: i32, count: nat) -> bool {
    per_page < 0 || count != per_page
}

/// All records of the pages, in the order in which they came.
pub open spec fn all_records<T>(pages: Seq<PageRecord<T>>) -> Seq<T> {
    pages.map_values(|p: PageRecord<T>| p.2).flatten()
}

/// The first `limit` elements of `s`, or all of them where there are fewer.
pub open spec fn at_most<T>(s: Seq<T>, limit: nat) -> Seq<T> {
    if s.len() <= limit {
        s
    } else {
        s.take(limit as int)
    }
}

/// The records that a query keeps of the pages: all of them, or the first
/// `amount` where it takes only `amount`.
pub open spec fn kept_records<T>(limit: Option<usize>, pages: Seq<PageRecord<T>>) -> Seq<T> {
    match limit {
        Some(amount) => at_most(all_records(pages), amount as nat),
        None => all_records(pages),
    }
}

/// Whether a query that has the pages `before` stops when `page` comes
/// back. It never stops at the first page; after that it stops at a short
/// page, or, where it takes `amount` records, once it holds `amount` of
/// them before this page.
pub open spec fn stops_at<T>(limit: Option<usize>, before: Seq<PageRecord<T>>, page: PageRecord<T>) -> bool {
    &&& before.len() > 0
    &&& {
        ||| (limit matches Some(amount) && kept_records(limit, before).len() == amount)
        ||| is_short(page.1, page.2.len())
    }
}

/// Whether a query that received the pages `pages` has stopped.
pub open spec fn has_stopped<T>(limit: Option<usize>, pages: Seq<PageRecord<T>>) -> bool {
    pages.len() > 0 && stops_at(limit, pages.drop_last(), pages.last())
}

/// A query receives pages only until it stops.
pub open spec fn continues_until_last<T>(limit: Option<usize>, pages: Seq<PageRecord<T>>) -> bool {
    forall|k: int| 0 <= k < pages.len() - 1 ==> !#[trigger] has_stopped(limit, pages.take(k + 1))
}

/// The request of the first page.
pub open spec fn first_request() -> PageRequest {
    PageRequest { page: 1, per_page: PER_PAGE_START }
}

/// The request that follows a page: the page after it, of the same size.
pub open spec fn request_after<T>(last: PageRecord<T>) -> PageRequest {
    PageRequest { page: (last.0 + 1) as i32, per_page: last.1 }
}

/// The request that a query sends after receiving `pages`: the first at the
/// start, else the one after the last page.
pub open spec fn next_request_of<T>(pages: Seq<PageRecord<T>>) -> PageRequest {
    if pages.len() == 0 {
        first_request()
    } else {
        request_after(pages.last())
    }
}

/// Collects the records of a query page by page: it says which page to ask
/// for, takes each page that comes back, and says when the query is done.
pub struct PageCollector<T> {
    limit: Option<usize>,
    items: Vec<T>,
    last: Option<(i32, i32)>,
    stopped: bool,
    pages: Ghost<Seq<PageRecord<T>>>,
}

impl<T> PageCollector<T> {
    /// At most how many records the query keeps (`None`: all of them).
    pub closed spec fn limit(&self) -> Option<usize> {
        self.limit
    }

    /// The pages received so far, in order.
    pub closed spec fn pages(&self) -> Seq<PageRecord<T>> {
        self.pages@
    }

    /// Whether the query is done.
    pub closed spec fn is_done(&self) -> bool {
        self.stopped
    }

    /// What a collector always keeps: the records of the pages received,
    /// whether it stopped, and the number and size of its last page.
    #[verifier::type_invariant]
    closed spec fn wf(&self) -> bool {
        &&& self.items@ == kept_records(self.limit, self.pages@)
        &&& self.stopped == has_stopped(self.limit, self.pages@)
        &&& continues_until_last(self.limit, self.pages@)
        &&& match self.last {
            None => self.pages@.len() == 0,
            Some(l) => self.pages@.len() > 0 && l.0 == self.pages@.last().0 && l.1 == self.pages@.last().1,
        }
    }

    /// A fresh query that keeps at most `limit` records (`None`: all).
    fn fresh(limit: Option<usize>) -> (c: Self)
        ensures
            c.limit() == limit,
            c.pages() == Seq::<PageRecord<T>>::empty(),
            !c.is_done(),
    {
        PageCollector { limit, items: Vec::new(), last: None, stopped: false, pages: Ghost(Seq::empty()) }
    }

    /// A query that keeps at most `amount` records.
    pub fn taking(amount: usize) -> (c: Self)
        ensures
            c.limit() == Some(amount),
            c.pages() == Seq::<PageRecord<T>>::empty(),
            !c.is_done(),
    {
        Self::fresh(Some(amount))
    }

    /// A query that keeps every record.
    pub fn collecting() -> (c: Self)
        ensures
            c.limit() is None,
            c.pages() == Seq::<PageRecord<T>>::empty(),
            !c.is_done(),
    {
        Self::fresh(None)
    }

    /// Whether the query is done.
    pub fn is_finished(&self) -> (done: bool)
        ensures
            done == self.is_done(),
            done == has_stopped(self.limit(), self.pages()),
            continues_until_last(self.limit(), self.pages()),
    {
        proof {
            use_type_invariant(self);
        }
        self.stopped
    }

    /// The number of the last page received, if any.
    pub fn last_page(&self) -> (p: Option<i32>)
        ensures
            self.pages().len() == 0 ==> p is None,
            self.pages().len() > 0 ==> p == Some(self.pages().last().0),
    {
        proof {
            use_type_invariant(self);
        }
        match self.last {
            Some(l) => Some(l.0),
            None => None,
        }
    }

    /// The request to send next: none once the query is done; the first
    /// page, of size [`PER_PAGE_START`], at the start; else the page after
    /// the last one received, of the size that it had.
    pub fn next_request(&self) -> (r: Option<PageRequest>)
        requires
            self.pages().len() > 0 ==> self.pages().last().0 < i32::MAX,
        ensures
            self.is_done() ==> r is None,
            !self.is_done() ==> r == Some(next_request_of(self.pages())),
            !self.is_done() && self.pages().len() == 0 ==> r == Some(first_request()),
            !self.is_done() && self.pages().len() > 0 ==> r == Some(request_after(self.pages().last())),
    {
        proof {
            use_type_invariant(self);
        }
        if self.stopped {
            return None;
        }
        match self.last {
            None => Some(PageRequest { page: 1, per_page: PER_PAGE_START }),
            Some(l) => Some(PageRequest { page: l.0 + 1, per_page: l.1 }),
        }
    }

    /// Takes the page that came back for the last request.
    pub fn receive(&mut self, page: ListPage<T>)
        requires
            !old(self).is_done(),
        ensures
            final(self).limit() == old(self).limit(),
            final(self).pages() == old(self).pages().push((page.page, page.per_page, page.items@)),
            final(self).is_done() == stops_at(old(self).limit(), old(self).pages(), (page.page, page.per_page, page.items@)),
    {
        proof {
            use_type_invariant(&*self);
        }
        let ghost old_pages = self.pages@;
        let ghost record: PageRecord<T> = (page.page, page.per_page, page.items@);
        let ghost new_pages = old_pages.push(record);
        let limit = self.limit;
        let first = self.last.is_none();
        let mut taken_out = Self::fresh(limit);
        std::mem::swap(self, &mut taken_out);
        let PageCollector { limit: _, items: mut kept, last: _, stopped: _, pages: _ } = taken_out;
        let ListPage { page: number, per_page, total_items: _, items } = page;
        let mut items = items;
        let short = per_page < 0 || items.len() != per_page as usize;
        proof {
            lemma_all_records_push(old_pages, record);
            assert(new_pages.drop_last() =~= old_pages);
            assert forall|k: int| 0 <= k < new_pages.len() - 1 implies !#[trigger] has_stopped(limit, new_pages.take(k + 1)) by {
                assert(new_pages.take(k + 1) =~= old_pages.take(k + 1));
                if k == old_pages.len() - 1 {
                    assert(old_pages.take(k + 1) =~= old_pages);
                }
            }
            lemma_kept_records_push(limit, old_pages, record);
            if first {
                assert(all_records(old_pages) =~= Seq::<T>::empty()) by {
                    reveal_with_fuel(Seq::flatten, 2);
                }
            }
        }
        let stopped;
        match limit {
            Some(amount) => {
                if !first && kept.len() == amount {
                    stopped = true;
                } else {
                    let room = amount - kept.len();
                    items.truncate(room);
                    assert(items@ == at_most(record.2, room as nat));
                    kept.append(&mut items);
                    stopped = !first && short;
                }
            },
            None => {
                kept.append(&mut items);
                stopped = !first && short;
            },
        }
        *self = PageCollector { limit, items: kept, last: Some((number, per_page)), stopped, pages: Ghost(new_pages) };
    }

    /// The records kept: those of the pages received, in order, cut to the
    /// limit.
    pub fn into_items(self) -> (items: Vec<T>)
        ensures
            items@ == kept_records(self.limit(), self.pages()),
            continues_until_last(self.limit(), self.pages()),
            self.is_done() == has_stopped(self.limit(), self.pages()),
    {
        proof {
            use_type_invariant(&self);
        }
        self.items
    }
}

/// How the records kept change when one more page comes in: where the
/// limit was already reached they stay; else the page's records are added,
/// as many as fit.
pub proof fn lemma_kept_records_push<T>(limit: Option<usize>, pages: Seq<PageRecord<T>>, page: PageRecord<T>)
    ensures
        limit matches Some(amount) ==> (kept_records(limit, pages).len() == amount ==>
            kept_records(limit, pages.push(page)) == kept_records(limit, pages)),
        limit matches Some(amount) ==> (kept_records(limit, pages).len() < amount ==>
            kept_records(limit, pages.push(page)) == kept_records(limit, pages) + at_most(page.2, (amount - kept_records(limit, pages).len()) as nat)),
        limit is None ==> kept_records(limit, pages.push(page)) == kept_records(limit, pages) + page.2,
{
    lemma_all_records_push(pages, page);
    let before = all_records(pages);
    let after = all_records(pages.push(page));
    if let Some(amount) = limit {
        let a = amount as nat;
        if at_most(before, a).len() == a {
            assert(at_most(after, a) =~= at_most(before, a));
        } else if at_most(before, a).len() < a {
            assert(before.len() < a);
            assert(at_most(after, a) =~= before + at_most(page.2, (a - before.len()) as nat));
        }
    }
}

/// The records of the pages after one more page are those before it,
/// followed by its own.
pub proof fn lemma_all_records_push<T>(pages: Seq<PageRecord<T>>, page: PageRecord<T>)
    ensures
        all_records(pages.push(page)) == all_records(pages) + page.2,
{
    let f = |p: PageRecord<T>| p.2;
    assert(pages.push(page).map_values(f) =~= pages.map_values(f).push(page.2));
    pages.map_values(f).lemma_flatten_push(page.2);
}

} // verus!

verus! {

/// A query that takes `amount` records never holds more than `amount`.
pub proof fn law_take_holds_at_most<T>(amount: usize, pages: Seq<PageRecord<T>>)
    ensures
        kept_records(Some(amount), pages).len() <= amount,
{
}

/// From the same pages, a query that takes `amount` records keeps the
/// first `amount` of those that a query collecting all of them keeps, in
/// the same order.
pub proof fn law_take_is_prefix_of_collect<T>(amount: usize, pages: Seq<PageRecord<T>>)
    ensures
        kept_records(Some(amount), pages) == at_most(kept_records(None, pages), amount as nat),
        kept_records(Some(amount), pages).is_prefix_of(kept_records(None, pages)),
{
    let all = all_records(pages);
    if all.len() > amount {
        assert(all.take(amount as int).is_prefix_of(all));
    } else {
        assert(all.is_prefix_of(all));
    }
}

/// The records that a query holds stay, in order, as more pages come in.
pub proof fn law_kept_records_only_grow<T>(limit: Option<usize>, pages: Seq<PageRecord<T>>, page: PageRecord<T>)
    ensures
        kept_records(limit, pages).is_prefix_of(kept_records(limit, pages.push(page))),
{
    lemma_kept_records_push(limit, pages, page);
    let before = kept_records(limit, pages);
    let after = kept_records(limit, pages.push(page));
    match limit {
        Some(amount) => {
            if before.len() == amount {
                assert(before.is_prefix_of(after));
            } else {
                assert(after.take(before.len() as int) =~= before);
            }
        },
        None => {
            assert(after.take(before.len() as int) =~= before);
        },
    }
}

/// A query that collects every record keeps all records of all pages, in
/// order; it stops at the first short page after the first page, and only
/// there.
pub proof fn law_collect_stops_at_first_short_page<T>(pages: Seq<PageRecord<T>>, page: PageRecord<T>)
    ensures
        kept_records(None, pages.push(page)) == kept_records(None, pages) + page.2,
        stops_at(None, pages, page) <==> (pages.len() > 0 && is_short(page.1, page.2.len())),
{
    lemma_all_records_push(pages, page);
}

/// A query that takes `amount` records stops at a page after the first
/// when it already held `amount` records before that page, or when the page
/// is short.
pub proof fn law_take_stops_when_full_or_short<T>(amount: usize, pages: Seq<PageRecord<T>>, page: PageRecord<T>)
    ensures
        stops_at(Some(amount), pages, page) <==> (pages.len() > 0 && (kept_records(Some(amount), pages).len() == amount
            || is_short(page.1, page.2.len()))),
{
}

} // verus!

verus! {

/// The records of a page sequence start with those of any of its prefixes.
pub proof fn lemma_all_records_of_prefix<T>(pages: Seq<PageRecord<T>>, longer: Seq<PageRecord<T>>)
    requires
        pages.is_prefix_of(longer),
    ensures
        all_records(pages).is_prefix_of(all_records(longer)),
    decreases longer.len(),
{
    if longer.len() == pages.len() {
        assert(longer =~= pages);
    } else {
        let front = longer.drop_last();
        assert(pages.is_prefix_of(front)) by {
            assert forall|i: int| 0 <= i < pages.len() implies pages[i] == front[i] by {
                assert(pages[i] == longer[i]);
            }
        }
        lemma_all_records_of_prefix(pages, front);
        lemma_all_records_push(front, longer.last());
        assert(front.push(longer.last()) =~= longer);
        let a = all_records(pages);
        let b = all_records(front);
        assert forall|i: int| 0 <= i < a.len() implies a[i] == all_records(longer)[i] by {
            assert(a[i] == b[i]);
        }
    }
}

/// On the same server state, a query that takes `amount` records gets the
/// first `amount` of what a query that collects every record gets: where
/// the pages that the taking query received, up to its stop, are a prefix of
/// those that the collecting query received (both ask for the same pages
/// while both go on), what the one keeps is the first `amount` of what the
/// other keeps.
pub proof fn law_take_run_is_prefix_of_collect_run<T>(
    amount: usize,
    taken: Seq<PageRecord<T>>,
    collected: Seq<PageRecord<T>>,
)
    requires
        has_stopped(Some(amount), taken),
        continues_until_last(None, collected),
        taken.is_prefix_of(collected),
    ensures
        kept_records(Some(amount), taken) == at_most(kept_records(None, collected), amount as nat),
{
    let t = all_records(taken);
    let c = all_records(collected);
    lemma_all_records_of_prefix(taken, collected);
    if t.len() >= amount {
        assert(t.take(amount as int) =~= c.take(amount as int));
    } else {
        // The taking query was never full, so it stopped at a short page;
        // the collecting query stops there too.
        let k = taken.len() - 1;
        assert(taken.drop_last().is_prefix_of(taken));
        lemma_all_records_of_prefix(taken.drop_last(), taken);
        assert(is_short(taken.last().1, taken.last().2.len()));
        assert(collected.take(k + 1) =~= taken);
        if collected.len() > taken.len() {
            assert(0 <= k < collected.len() - 1);
            assert(!has_stopped(None, collected.take(k + 1)));
            assert(false);
        }
        assert(collected =~= taken);
    }
}

} // verus!

verus! {

/// Whether `pages` are the answers of a server that answers each request
/// with `server(request)`, to the requests that a query sends: each page is
/// the answer to the request sent after the pages before it.
pub open spec fn answered_by<T>(server: spec_fn(PageRequest) -> PageRecord<T>, pages: Seq<PageRecord<T>>) -> bool {
    forall|i: int| 0 <= i < pages.len() ==> #[trigger] pages[i] == server(next_request_of(pages.take(i)))
}

/// Two queries that a server answers alike, one that takes `amount` records
/// and has stopped and one that collects every record and has stopped,
/// received the same pages up to where the first stopped.
proof fn lemma_runs_agree<T>(
    amount: usize,
    server: spec_fn(PageRequest) -> PageRecord<T>,
    taken: Seq<PageRecord<T>>,
    collected: Seq<PageRecord<T>>,
    i: int,
)
    requires
        answered_by(server, taken),
        answered_by(server, collected),
        continues_until_last(Some(amount), taken),
        has_stopped(None, collected),
        0 <= i <= taken.len(),
    ensures
        i <= collected.len(),
        taken.take(i) == collected.take(i),
    decreases i,
{
    if i == 0 {
        assert(taken.take(0) =~= collected.take(0));
    } else {
        lemma_runs_agree(amount, server, taken, collected, i - 1);
        let j = i - 1;
        if collected.len() == j {
            // The collecting query stopped at a short page that the taking
            // query received too, and then went on: it cannot have.
            assert(collected.take(j) =~= collected);
            let front = taken.take(j);
            assert(front.drop_last() =~= taken.take(j - 1 + 1).drop_last());
            assert(has_stopped(Some(amount), taken.take((j - 1) + 1)));
            assert(false);
        }
        assert(taken[j] == server(next_request_of(taken.take(j))));
        assert(collected[j] == server(next_request_of(collected.take(j))));
        assert(taken.take(i) =~= taken.take(j).push(taken[j]));
        assert(collected.take(i) =~= collected.take(j).push(collected[j]));
    }
}

/// On a server that answers each request always alike, a query that takes
/// `amount` records gets, once done, the first `amount` of what a query
/// that collects every record gets, once done: the pages that the first
/// received are the first pages that the second received.
pub proof fn law_take_is_prefix_of_collect_on_one_server<T>(
    amount: usize,
    server: spec_fn(PageRequest) -> PageRecord<T>,
    taken: Seq<PageRecord<T>>,
    collected: Seq<PageRecord<T>>,
)
    requires
        answered_by(server, taken),
        answered_by(server, collected),
        has_stopped(Some(amount), taken),
        continues_until_last(Some(amount), taken),
        has_stopped(None, collected),
        continues_until_last(None, collected),
    ensures
        taken.is_prefix_of(collected),
        kept_records(Some(amount), taken) == at_most(kept_records(None, collected), amount as nat),
{
    lemma_runs_agree(amount, server, taken, collected, taken.len() as int);
    assert(taken.take(taken.len() as int) =~= taken);
    assert forall|k: int| 0 <= k < taken.len() implies taken[k] == collected[k] by {
        assert(taken[k] == taken.take(taken.len() as int)[k]);
        assert(collected.take(taken.len() as int)[k] == collected[k]);
    }
    law_take_run_is_prefix_of_collect_run(amount, taken, collected);
}

} // verus!

verus! {

/// `at` where it lies within `len`, else `len`.
pub open spec fn clip(at: int, len: nat) -> int {
    if at <= len {
        at
    } else {
        len as int
    }
}

/// The records that a server holding `records`, in the query's order,
/// answers page `page` of size `per_page` with: those from
/// `(page - 1) * per_page` on, at most `per_page` of them; none for a page
/// below 1 or a size below 1.
pub open spec fn served_records<T>(records: Seq<T>, page: int, per_page: int) -> Seq<T> {
    if page < 1 || per_page < 1 {
        Seq::<T>::empty()
    } else {
        records.subrange(clip((page - 1) * per_page, records.len()), clip(page * per_page, records.len()))
    }
}

/// The page that a server holding `records` answers `request` with: the
/// number and size asked for, and the records of that page.
pub open spec fn served_page<T>(records: Seq<T>, request: PageRequest) -> PageRecord<T> {
    (request.page, request.per_page, served_records(records, request.page as int, request.per_page as int))
}

/// A server that holds `records` and answers each list request with the
/// page of them that it asks for.
pub open spec fn holding<T>(records: Seq<T>) -> spec_fn(PageRequest) -> PageRecord<T> {
    |request: PageRequest| served_page(records, request)
}

/// The first `k` pages that a server holding `records` gives a query are
/// pages `1..=k` of the first page size, and together they hold the
/// records up to `k` times that size.
proof fn lemma_served_run<T>(records: Seq<T>, pages: Seq<PageRecord<T>>, k: int)
    requires
        answered_by(holding(records), pages),
        pages.len() < i32::MAX,
        0 <= k <= pages.len(),
    ensures
        forall|i: int| 0 <= i < k ==> #[trigger] pages[i] == (
            (i + 1) as i32,
            PER_PAGE_START,
            records.subrange(clip(i * 1000, records.len()), clip((i + 1) * 1000, records.len())),
        ),
        all_records(pages.take(k)) == records.subrange(0, clip(k * 1000, records.len())),
    decreases k,
{
    let n = records.len();
    if k == 0 {
        assert(pages.take(0) =~= Seq::<PageRecord<T>>::empty());
        assert(all_records(Seq::<PageRecord<T>>::empty()) =~= Seq::<T>::empty()) by {
            let f = |p: PageRecord<T>| p.2;
            assert(Seq::<PageRecord<T>>::empty().map_values(f) =~= Seq::<Seq<T>>::empty());
        }
        assert(records.subrange(0, clip(0, n)) =~= Seq::<T>::empty());
    } else {
        let j = k - 1;
        lemma_served_run(records, pages, j);
        let request = next_request_of(pages.take(j));
        assert(pages[j] == holding(records)(request));
        if j == 0 {
            assert(request == first_request());
        } else {
            assert(pages.take(j).last() == pages[j - 1]);
            assert(request == PageRequest { page: (j + 1) as i32, per_page: PER_PAGE_START });
        }
        assert(request.page == j + 1);
        assert(request.per_page == 1000);
        let page: int = request.page as int;
        let size: int = request.per_page as int;
        assert((page - 1) * size == j * 1000 && page * size == (j + 1) * 1000) by (nonlinear_arith)
            requires
                page == j + 1,
                size == 1000,
        ;
        assert(pages[j] == ((j + 1) as i32, PER_PAGE_START, records.subrange(clip(j * 1000, n), clip((j + 1) * 1000, n))));
        assert(pages.take(k) =~= pages.take(j).push(pages[j]));
        lemma_all_records_push(pages.take(j), pages[j]);
        assert(records.subrange(0, clip(j * 1000, n)) + records.subrange(clip(j * 1000, n), clip(k * 1000, n))
            =~= records.subrange(0, clip(k * 1000, n)));
    }
}

/// A query that collects every record from a server holding `records`, in
/// the order in which the server sorts them, gets back exactly those
/// records. (The page counter is an `i32`: the run is shorter than
/// `i32::MAX` pages.)
pub proof fn law_collect_gets_every_record_of_the_server<T>(records: Seq<T>, pages: Seq<PageRecord<T>>)
    requires
        answered_by(holding(records), pages),
        has_stopped(None, pages),
        pages.len() < i32::MAX,
    ensures
        kept_records(None, pages) == records,
{
    let m = pages.len() as int;
    let n = records.len();
    lemma_served_run(records, pages, m);
    assert(pages.take(m) =~= pages);
    let last = pages[m - 1];
    assert(pages.last() == last);
    assert(last.2 == records.subrange(clip((m - 1) * 1000, n), clip(m * 1000, n)));
    // The last page is short, so it reaches past the last record.
    if m * 1000 <= n {
        assert(last.2.len() == 1000);
        assert(!is_short(last.1, last.2.len()));
    }
    assert(records.subrange(0, clip(m * 1000, n)) =~= records);
}

/// The length of a collection that the server reports (`total_items`,
/// which [`collection_len`](super::collection::collection_len) reads) is,
/// for a server holding `records`, the number of records that a collecting
/// query gets; and a server holding the same records in another order (the
/// same collection under other sort options) gives a collecting query the
/// same records, as many of them.
pub proof fn law_len_counts_what_collect_gets<T>(
    records: Seq<T>,
    pages: Seq<PageRecord<T>>,
    total_items: i32,
    resorted: Seq<T>,
    resorted_pages: Seq<PageRecord<T>>,
)
    requires
        total_items == records.len(),
        answered_by(holding(records), pages),
        has_stopped(None, pages),
        pages.len() < i32::MAX,
        resorted.to_multiset() == records.to_multiset(),
        answered_by(holding(resorted), resorted_pages),
        has_stopped(None, resorted_pages),
        resorted_pages.len() < i32::MAX,
    ensures
        total_items as usize == kept_records(None, pages).len(),
        kept_records(None, resorted_pages).len() == kept_records(None, pages).len(),
        kept_records(None, resorted_pages).to_multiset() == kept_records(None, pages).to_multiset(),
{
    law_collect_gets_every_record_of_the_server(records, pages);
    law_collect_gets_every_record_of_the_server(resorted, resorted_pages);
    vstd::seq_lib::to_multiset_len(records);
    vstd::seq_lib::to_multiset_len(resorted);
}

} // verus!

verus! {

/// A query that takes `amount` records keeps the first records of the
/// pages, as many as there are up to `amount`: all of them where the pages
/// hold fewer, else exactly `amount`.
pub proof fn law_take_keeps_as_many_as_there_are<T>(amount: usize, pages: Seq<PageRecord<T>>)
    ensures
        kept_records(Some(amount), pages).len() == (if all_records(pages).len() <= amount {
            all_records(pages).len()
        } else {
            amount as nat
        }),
        kept_records(Some(amount), pages) == all_records(pages).take(kept_records(Some(amount), pages).len() as int),
{
    let all = all_records(pages);
    if all.len() <= amount {
        assert(all.take(all.len() as int) =~= all);
    }
}

/// A query that takes `amount` records from a server holding `records`, in
/// the order in which the server sorts them, gets back the first `amount`
/// of them, or all of them where there are fewer. (The page counter is an
/// `i32`: the run is shorter than `i32::MAX` pages.)
pub proof fn law_take_gets_the_first_records_of_the_server<T>(amount: usize, records: Seq<T>, pages: Seq<PageRecord<T>>)
    requires
        answered_by(holding(records), pages),
        has_stopped(Some(amount), pages),
        pages.len() < i32::MAX,
    ensures
        kept_records(Some(amount), pages) == records.take(
            if amount <= records.len() { amount as int } else { records.len() as int },
        ),
{
    let m = pages.len() as int;
    let n = records.len();
    let a = amount as nat;
    let want: int = if amount <= n { amount as int } else { n as int };
    lemma_served_run(records, pages, m);
    lemma_served_run(records, pages, m - 1);
    assert(pages.take(m) =~= pages);
    let before = pages.drop_last();
    assert(before =~= pages.take(m - 1));
    let last = pages.last();
    assert(pages =~= before.push(last));
    lemma_kept_records_push(Some(amount), before, last);
    let all_before = all_records(before);
    assert(all_before == records.subrange(0, clip((m - 1) * 1000, n)));
    if kept_records(Some(amount), before).len() == amount {
        // Full before the last page: the first `amount` records were in.
        assert(all_before.len() >= a);
        assert(kept_records(Some(amount), pages) == kept_records(Some(amount), before));
        assert(want == amount);
        if all_before.len() == a {
            assert(at_most(all_before, a) =~= records.take(want));
        } else {
            assert(at_most(all_before, a) =~= records.take(want));
        }
    } else {
        // The last page is short: it reaches past the last record.
        assert(last == pages[m - 1]);
        assert(last.2 == records.subrange(clip((m - 1) * 1000, n), clip(m * 1000, n)));
        if m * 1000 <= n {
            assert(last.2.len() == 1000);
            assert(!is_short(last.1, last.2.len()));
        }
        assert(all_records(pages) =~= records);
        if n <= a {
            assert(at_most(records, a) =~= records.take(want));
        } else {
            assert(at_most(records, a) =~= records.take(want));
        }
    }
}

} // verus!
