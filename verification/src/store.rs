//! What the library asks of the seed store, and what those requests mean.
//!
//! The store itself lives elsewhere. Here a store is the sequence of the seed
//! records it holds; a replacement and a query are plain values whose meaning
//! is given over such sequences. `SeedTable` is a store kept in memory that
//! does what the meaning says.

use vstd::prelude::*;

use crate::model::{PageRequest, TvSeed, TvSeedView};
use crate::resolver::{data_views, Data, DataView};

verus! {

/// The views of a sequence of seed records.
pub open spec fn seed_views(v: Seq<TvSeed>) -> Seq<TvSeedView> {
    v.map_values(|s: TvSeed| s@)
}

/// The test for the seeds of a show.
pub open spec fn of_show(tv_id: i64) -> spec_fn(TvSeedView) -> bool {
    |s: TvSeedView| s.tv_id == Some(tv_id)
}

/// The test for the seeds of every other show.
pub open spec fn of_others(tv_id: i64) -> spec_fn(TvSeedView) -> bool {
    |s: TvSeedView| s.tv_id != Some(tv_id)
}

/// The seeds of a show, in the store's order.
pub open spec fn seeds_of(store: Seq<TvSeedView>, tv_id: i64) -> Seq<TvSeedView> {
    store.filter(of_show(tv_id))
}

/// The store after the seeds of a show were replaced: every seed of the show
/// deleted, then the fresh ones added.
pub open spec fn replaced(store: Seq<TvSeedView>, tv_id: i64, fresh: Seq<TvSeedView>) -> Seq<
    TvSeedView,
> {
    store.filter(of_others(tv_id)) + fresh
}

/// The seed that a normalized entry of a show becomes. The store gives it
/// its id.
pub open spec fn seed_for(tv_id: i64, d: DataView) -> TvSeedView {
    TvSeedView { id: None, tv_id: Some(tv_id), ep: Some(d.ep), url: Some(d.url), name: Some(d.name) }
}

/// The seeds that the normalized entries of a show become.
pub open spec fn seeds_for(tv_id: i64, entries: Seq<DataView>) -> Seq<TvSeedView> {
    entries.map_values(|d: DataView| seed_for(tv_id, d))
}

/// Makes the seed for a normalized entry of a show.
pub fn seed_from(tv_id: i64, d: &Data) -> (r: TvSeed)
    ensures
        r@ == seed_for(tv_id, d@),
{
    TvSeed {
        id: None,
        tv_id: Some(tv_id),
        ep: Some(d.ep),
        url: Some(d.url.clone()),
        name: Some(d.name.clone()),
    }
}

/// Makes the seeds for the normalized entries of a show, in their order.
pub fn seeds_from(tv_id: i64, entries: &Vec<Data>) -> (r: Vec<TvSeed>)
    ensures
        seed_views(r@) == seeds_for(tv_id, data_views(entries@)),
{
    let mut out: Vec<TvSeed> = Vec::new();
    let mut i: usize = 0;
    while i < entries.len()
        invariant
            i <= entries.len(),
            out@.len() == i,
            forall|j: int| 0 <= j < i ==> (#[trigger] out@[j])@ == seed_for(tv_id, entries@[j]@),
        decreases entries.len() - i,
    {
        out.push(seed_from(tv_id, &entries[i]));
        i += 1;
    }
    assert(seed_views(out@) =~= seeds_for(tv_id, data_views(entries@)));
    out
}

/// A request for one page of the seeds of a show, or of one episode of it.
#[derive(Debug)]
pub struct SeedQuery {
    pub tv_id: i64,
    pub ep: Option<i64>,
    pub page: PageRequest,
}

/// Whether the query asks for the seed: a seed of the show, and, where an
/// episode is asked for, of that episode.
pub open spec fn wanted(tv_id: i64, ep: Option<i64>) -> spec_fn(TvSeedView) -> bool {
    |s: TvSeedView| s.tv_id == Some(tv_id) && (ep is Some ==> s.ep == ep)
}

/// The part of a listing that the page holds: it begins after the pages
/// before it and is at most one page long.
pub open spec fn page_of(rows: Seq<TvSeedView>, page: PageRequest) -> Seq<TvSeedView> {
    let skip = page.skipped();
    if skip >= rows.len() {
        Seq::empty()
    } else if skip + page.page_size >= rows.len() {
        rows.subrange(skip, rows.len() as int)
    } else {
        rows.subrange(skip, skip + page.page_size)
    }
}

/// What the store answers to a query: the asked page of the seeds asked for,
/// in the store's order.
pub open spec fn answer(store: Seq<TvSeedView>, q: SeedQuery) -> Seq<TvSeedView> {
    page_of(store.filter(wanted(q.tv_id, q.ep)), q.page)
}

/// A seed store kept in memory.
#[derive(Debug)]
pub struct SeedTable {
    pub rows: Vec<TvSeed>,
}

impl View for SeedTable {
    type V = Seq<TvSeedView>;

    open spec fn view(&self) -> Seq<TvSeedView> {
        seed_views(self.rows@)
    }
}

impl SeedTable {
    /// A store without seeds.
    pub fn new() -> (r: SeedTable)
        ensures
            r@ == Seq::<TvSeedView>::empty(),
    {
        let r = SeedTable { rows: Vec::new() };
        assert(r@ =~= Seq::<TvSeedView>::empty());
        r
    }

    /// Adds one seed at the end.
    pub fn save(&mut self, seed: TvSeed)
        ensures
            final(self)@ == old(self)@.push(seed@),
    {
        self.rows.push(seed);
        assert(self@ =~= old(self)@.push(seed@));
    }

    /// Replaces the seeds of a show: deletes every seed of the show, then
    /// adds the fresh ones in their order. Returns how many were deleted.
    pub fn replace(&mut self, tv_id: i64, fresh: Vec<TvSeed>) -> (deleted: usize)
        ensures
            final(self)@ == replaced(old(self)@, tv_id, seed_views(fresh@)),
            deleted == seeds_of(old(self)@, tv_id).len(),
    {
        let mut kept: Vec<TvSeed> = Vec::new();
        let mut deleted: usize = 0;
        let mut i: usize = 0;
        let n = self.rows.len();
        assert(seed_views(kept@) =~= Seq::<TvSeedView>::empty());
        assert(self@.take(0) =~= Seq::<TvSeedView>::empty());
        while i < n
            invariant
                n == self.rows.len(),
                *self == *old(self),
                i <= n,
                deleted <= i,
                seed_views(kept@) == self@.take(i as int).filter(of_others(tv_id)),
                deleted == self@.take(i as int).filter(of_show(tv_id)).len(),
            decreases n - i,
        {
            let ghost before = kept@;
            proof {
                let row = self.rows@[i as int]@;
                assert(self@.take(i + 1) =~= self@.take(i as int).push(row));
                self@.take(i as int).lemma_filter_push(row, of_others(tv_id));
                self@.take(i as int).lemma_filter_push(row, of_show(tv_id));
            }
            if self.rows[i].tv_id == Some(tv_id) {
                deleted += 1;
            } else {
                kept.push(self.rows[i].duplicate());
                assert(seed_views(kept@) =~= seed_views(before).push(self.rows@[i as int]@));
            }
            i += 1;
        }
        assert(self@.take(n as int) =~= self@);
        let ghost kept_before = kept@;
        let ghost added = fresh@;
        let mut fresh = fresh;
        kept.append(&mut fresh);
        assert(seed_views(kept@) =~= seed_views(kept_before) + seed_views(added));
        self.rows = kept;
        deleted
    }

    /// Answers a query: the asked page of the seeds asked for.
    pub fn select(&self, q: &SeedQuery) -> (r: Vec<TvSeed>)
        ensures
            seed_views(r@) == answer(self@, *q),
    {
        let mut found: Vec<TvSeed> = Vec::new();
        let mut i: usize = 0;
        let n = self.rows.len();
        assert(seed_views(found@) =~= Seq::<TvSeedView>::empty());
        assert(self@.take(0) =~= Seq::<TvSeedView>::empty());
        while i < n
            invariant
                n == self.rows.len(),
                i <= n,
                seed_views(found@) == self@.take(i as int).filter(wanted(q.tv_id, q.ep)),
            decreases n - i,
        {
            let ghost before = found@;
            proof {
                let row = self.rows@[i as int]@;
                assert(self@.take(i + 1) =~= self@.take(i as int).push(row));
                self@.take(i as int).lemma_filter_push(row, wanted(q.tv_id, q.ep));
            }
            let row = &self.rows[i];
            let of_show = row.tv_id == Some(q.tv_id);
            let of_episode = match q.ep {
                Some(e) => row.ep == Some(e),
                None => true,
            };
            if of_show && of_episode {
                found.push(row.duplicate());
                assert(seed_views(found@) =~= seed_views(before).push(self.rows@[i as int]@));
            }
            i += 1;
        }
        assert(self@.take(n as int) =~= self@);
        let total = found.len();
        let ghost rows = seed_views(found@);
        let skip = q.page.offset();
        let mut out: Vec<TvSeed> = Vec::new();
        if skip >= total as u64 {
            assert(seed_views(out@) =~= Seq::<TvSeedView>::empty());
            return out;
        }
        let from: usize = skip as usize;
        let to: usize = if q.page.page_size >= (total - from) as u64 {
            total
        } else {
            from + q.page.page_size as usize
        };
        let mut k: usize = from;
        assert(seed_views(out@) =~= rows.subrange(from as int, from as int));
        while k < to
            invariant
                from <= k <= to <= total,
                total == found@.len(),
                rows == seed_views(found@),
                seed_views(out@) == rows.subrange(from as int, k as int),
            decreases to - k,
        {
            let ghost before = out@;
            out.push(found[k].duplicate());
            assert(seed_views(out@) =~= seed_views(before).push(found@[k as int]@));
            assert(rows.subrange(from as int, k + 1) =~= rows.subrange(from as int, k as int).push(
                rows[k as int],
            ));
            k += 1;
        }
        out
    }
}

/// After a replacement the show has exactly the fresh seeds: every seed it
/// had before is gone.
pub proof fn lemma_replaced_installs(store: Seq<TvSeedView>, tv_id: i64, fresh: Seq<TvSeedView>)
    requires
        forall|i: int| 0 <= i < fresh.len() ==> (#[trigger] fresh[i]).tv_id == Some(tv_id),
    ensures
        seeds_of(replaced(store, tv_id, fresh), tv_id) == fresh,
{
    let others = store.filter(of_others(tv_id));
    Seq::filter_distributes_over_add(others, fresh, of_show(tv_id));
    assert forall|i: int| 0 <= i < others.len() implies !of_show(tv_id)(#[trigger] others[i]) by {
        store.lemma_filter_pred(of_others(tv_id), i);
    }
    lemma_filter_drops_all(others, of_show(tv_id));
    lemma_filter_keeps_all(fresh, of_show(tv_id));
}

/// A replacement leaves the seeds of every other show as they were.
pub proof fn lemma_replaced_spares_others(
    store: Seq<TvSeedView>,
    tv_id: i64,
    fresh: Seq<TvSeedView>,
    other: i64,
)
    requires
        other != tv_id,
        forall|i: int| 0 <= i < fresh.len() ==> (#[trigger] fresh[i]).tv_id == Some(tv_id),
    ensures
        seeds_of(replaced(store, tv_id, fresh), other) == seeds_of(store, other),
{
    let others = store.filter(of_others(tv_id));
    Seq::filter_distributes_over_add(others, fresh, of_show(other));
    lemma_filter_drops_all(fresh, of_show(other));
    lemma_others_keep_show(store, tv_id, other);
}

/// A filter that no element passes leaves nothing.
pub proof fn lemma_filter_drops_all(s: Seq<TvSeedView>, pred: spec_fn(TvSeedView) -> bool)
    requires
        forall|i: int| 0 <= i < s.len() ==> !pred(#[trigger] s[i]),
    ensures
        s.filter(pred) == Seq::<TvSeedView>::empty(),
    decreases s.len(),
{
    reveal(Seq::filter);
    if s.len() > 0 {
        lemma_filter_drops_all(s.drop_last(), pred);
    }
}

/// A filter that every element passes changes nothing.
pub proof fn lemma_filter_keeps_all(s: Seq<TvSeedView>, pred: spec_fn(TvSeedView) -> bool)
    requires
        forall|i: int| 0 <= i < s.len() ==> pred(#[trigger] s[i]),
    ensures
        s.filter(pred) == s,
    decreases s.len(),
{
    reveal(Seq::filter);
    if s.len() > 0 {
        lemma_filter_keeps_all(s.drop_last(), pred);
        assert(s.drop_last().push(s.last()) =~= s);
    }
}

/// Deleting the seeds of one show does not touch the seeds of another.
pub proof fn lemma_others_keep_show(s: Seq<TvSeedView>, tv_id: i64, other: i64)
    requires
        other != tv_id,
    ensures
        s.filter(of_others(tv_id)).filter(of_show(other)) == s.filter(of_show(other)),
    decreases s.len(),
{
    broadcast use Seq::lemma_filter_push;

    if s.len() == 0 {
        assert(s.filter(of_others(tv_id)) =~= s);
    } else {
        lemma_others_keep_show(s.drop_last(), tv_id, other);
        assert(s.drop_last().push(s.last()) =~= s);
    }
}

/// Every page has a number of records before it that is not negative.
pub proof fn lemma_skipped_not_negative(page: PageRequest)
    ensures
        page.skipped() >= 0,
{
    if page.page_no != 0 {
        assert((page.page_no - 1) * page.page_size >= 0) by (nonlinear_arith)
            requires
                page.page_no >= 1,
                page.page_size >= 0,
        ;
    }
}

/// Every seed in the answer to a query is a seed of the show, and, where an
/// episode was asked for, of that episode.
pub proof fn lemma_answer_wanted(store: Seq<TvSeedView>, q: SeedQuery, i: int)
    requires
        0 <= i < answer(store, q).len(),
    ensures
        answer(store, q)[i].tv_id == Some(q.tv_id),
        q.ep is Some ==> answer(store, q)[i].ep == q.ep,
{
    let rows = store.filter(wanted(q.tv_id, q.ep));
    let skip = q.page.skipped();
    lemma_skipped_not_negative(q.page);
    assert(answer(store, q)[i] == rows[skip + i]);
    store.lemma_filter_pred(wanted(q.tv_id, q.ep), skip + i);
}

/// With no episode asked for, the answer is the asked page of all the seeds
/// of the show.
pub proof fn lemma_answer_without_episode(store: Seq<TvSeedView>, q: SeedQuery)
    requires
        q.ep is None,
    ensures
        answer(store, q) == page_of(seeds_of(store, q.tv_id), q.page),
{
    assert(wanted(q.tv_id, q.ep) =~= of_show(q.tv_id));
}

/// A first page that is long enough holds the whole listing.
pub proof fn lemma_first_page_holds_all(rows: Seq<TvSeedView>, page: PageRequest)
    requires
        page.page_no <= 1,
        page.page_size >= rows.len(),
    ensures
        page_of(rows, page) == rows,
{
    assert(page.skipped() == 0) by {
        if page.page_no == 1 {
            assert((page.page_no - 1) * page.page_size == 0) by (nonlinear_arith)
                requires
                    page.page_no - 1 == 0,
            ;
        }
    }
    assert(rows.subrange(0, rows.len() as int) =~= rows);
    assert(rows.len() == 0 ==> rows =~= Seq::<TvSeedView>::empty());
}

/// A page never holds more records than its size.
pub proof fn lemma_page_len(rows: Seq<TvSeedView>, page: PageRequest)
    ensures
        page_of(rows, page).len() <= page.page_size,
        page_of(rows, page).len() <= rows.len(),
{
    lemma_skipped_not_negative(page);
}

} // verus!
