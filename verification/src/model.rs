//! Records kept in the store and the shapes in which they are given out.

use vstd::prelude::*;

verus! {

/// The view of an optional string.
pub open spec fn opt_text(o: Option<String>) -> Option<Seq<char>> {
    match o {
        Some(s) => Some(s@),
        None => None,
    }
}

/// A copy of an optional string.
pub fn copy_opt_text(o: &Option<String>) -> (r: Option<String>)
    ensures
        r == *o,
{
    match o {
        Some(s) => Some(s.clone()),
        None => None,
    }
}

/// A tracked show. Every field is optional in the store's row format; a row
/// read back from the store has all of them.
#[derive(Clone, Debug)]
pub struct Tv {
    pub id: Option<i64>,
    pub tvdbid: Option<String>,
    pub tvname: Option<String>,
    pub url: Option<String>,
    pub name: Option<String>,
}

/// What a show record says.
pub struct TvView {
    pub id: Option<i64>,
    pub tvdbid: Option<Seq<char>>,
    pub tvname: Option<Seq<char>>,
    pub url: Option<Seq<char>>,
    pub name: Option<Seq<char>>,
}

impl View for Tv {
    type V = TvView;

    open spec fn view(&self) -> TvView {
        TvView {
            id: self.id,
            tvdbid: opt_text(self.tvdbid),
            tvname: opt_text(self.tvname),
            url: opt_text(self.url),
            name: opt_text(self.name),
        }
    }
}

impl Tv {
    /// Whether the record has every field, as a row read from the store does.
    pub open spec fn complete(&self) -> bool {
        &&& self.id is Some
        &&& self.tvdbid is Some
        &&& self.tvname is Some
        &&& self.url is Some
        &&& self.name is Some
    }

    /// Tests whether the record has every field.
    pub fn is_complete(&self) -> (r: bool)
        ensures
            r == self.complete(),
    {
        self.id.is_some() && self.tvdbid.is_some() && self.tvname.is_some() && self.url.is_some()
            && self.name.is_some()
    }

    /// Whether the record has what a resolution needs: the id, whose seeds
    /// are replaced, the address of the listing and the display title.
    pub open spec fn resolvable(&self) -> bool {
        &&& self.id is Some
        &&& self.tvname is Some
        &&& self.url is Some
    }

    /// Tests whether the record has what a resolution needs.
    pub fn is_resolvable(&self) -> (r: bool)
        ensures
            r == self.resolvable(),
    {
        self.id.is_some() && self.tvname.is_some() && self.url.is_some()
    }

    /// A copy of the record.
    pub fn duplicate(&self) -> (r: Tv)
        ensures
            r == *self,
    {
        Tv {
            id: self.id,
            tvdbid: copy_opt_text(&self.tvdbid),
            tvname: copy_opt_text(&self.tvname),
            url: copy_opt_text(&self.url),
            name: copy_opt_text(&self.name),
        }
    }
}

/// One downloadable release of a show.
#[derive(Clone, Debug)]
pub struct TvSeed {
    pub id: Option<i64>,
    pub tv_id: Option<i64>,
    pub ep: Option<i64>,
    pub url: Option<String>,
    pub name: Option<String>,
}

/// What a seed record says.
pub struct TvSeedView {
    pub id: Option<i64>,
    pub tv_id: Option<i64>,
    pub ep: Option<i64>,
    pub url: Option<Seq<char>>,
    pub name: Option<Seq<char>>,
}

impl View for TvSeed {
    type V = TvSeedView;

    open spec fn view(&self) -> TvSeedView {
        TvSeedView {
            id: self.id,
            tv_id: self.tv_id,
            ep: self.ep,
            url: opt_text(self.url),
            name: opt_text(self.name),
        }
    }
}

impl TvSeed {
    /// Whether the record has every field, as a row read from the store does.
    pub open spec fn complete(&self) -> bool {
        &&& self.id is Some
        &&& self.tv_id is Some
        &&& self.ep is Some
        &&& self.url is Some
        &&& self.name is Some
    }

    /// Tests whether the record has every field.
    pub fn is_complete(&self) -> (r: bool)
        ensures
            r == self.complete(),
    {
        self.id.is_some() && self.tv_id.is_some() && self.ep.is_some() && self.url.is_some()
            && self.name.is_some()
    }

    /// A copy of the record.
    pub fn duplicate(&self) -> (r: TvSeed)
        ensures
            r == *self,
    {
        TvSeed {
            id: self.id,
            tv_id: self.tv_id,
            ep: self.ep,
            url: copy_opt_text(&self.url),
            name: copy_opt_text(&self.name),
        }
    }
}

/// Which page of a listing is asked for. Pages are numbered from one.
#[derive(Clone, Copy, Debug, PartialEq, Eq, Structural)]
pub struct PageRequest {
    pub page_no: u64,
    pub page_size: u64,
}

impl PageRequest {
    /// The request for page `page_no` of pages of `page_size` records. A page
    /// number of zero asks for the first page.
    pub fn new(page_no: u64, page_size: u64) -> (r: PageRequest)
        ensures
            r.page_no == (if page_no < 1 {
                1
            } else {
                page_no
            }),
            r.page_size == page_size,
    {
        PageRequest { page_no: if page_no < 1 { 1 } else { page_no }, page_size }
    }

    /// The number of records that come before this page. Page zero counts
    /// as the first page.
    pub open spec fn skipped(&self) -> int {
        if self.page_no == 0 {
            0
        } else {
            (self.page_no - 1) * self.page_size
        }
    }

    /// The number of records that come before this page, or the largest
    /// number there is where that is less.
    pub fn offset(&self) -> (r: u64)
        ensures
            r == (if self.skipped() <= u64::MAX {
                self.skipped()
            } else {
                u64::MAX as int
            }),
    {
        if self.page_no == 0 {
            return 0;
        }
        assert(0 <= (self.page_no - 1) * self.page_size <= 0xffff_ffff_ffff_ffff
            * 0xffff_ffff_ffff_ffff) by (nonlinear_arith)
            requires
                0 <= self.page_no - 1 <= 0xffff_ffff_ffff_ffff,
                0 <= self.page_size <= 0xffff_ffff_ffff_ffff,
        ;
        let skip: u128 = (self.page_no - 1) as u128 * self.page_size as u128;
        if skip > 0xffff_ffff_ffff_ffff {
            0xffff_ffff_ffff_ffff
        } else {
            skip as u64
        }
    }
}

/// One page of records, with the number of records in the whole listing.
#[derive(Debug)]
pub struct Page<T> {
    pub records: Vec<T>,
    pub total: u64,
}

/// A show as the administration interface gives it out.
#[derive(Debug)]
pub struct TvResponse {
    pub id: i64,
    pub tvdbid: String,
    pub tvname: String,
    pub url: String,
    pub name: String,
}

/// What a show response says.
pub struct TvResponseView {
    pub id: i64,
    pub tvdbid: Seq<char>,
    pub tvname: Seq<char>,
    pub url: Seq<char>,
    pub name: Seq<char>,
}

impl View for TvResponse {
    type V = TvResponseView;

    open spec fn view(&self) -> TvResponseView {
        TvResponseView {
            id: self.id,
            tvdbid: self.tvdbid@,
            tvname: self.tvname@,
            url: self.url@,
            name: self.name@,
        }
    }
}

/// The response for a complete show record.
pub open spec fn tv_response_of(tv: TvView) -> TvResponseView
    recommends
        tv.id is Some,
        tv.tvdbid is Some,
        tv.tvname is Some,
        tv.url is Some,
        tv.name is Some,
{
    TvResponseView {
        id: tv.id->0,
        tvdbid: tv.tvdbid->0,
        tvname: tv.tvname->0,
        url: tv.url->0,
        name: tv.name->0,
    }
}

impl TvResponse {
    /// The response for a show record that has every field.
    pub fn from(o: Tv) -> (r: TvResponse)
        requires
            o.complete(),
        ensures
            r@ == tv_response_of(o@),
    {
        TvResponse {
            id: o.id.unwrap(),
            tvdbid: o.tvdbid.unwrap(),
            tvname: o.tvname.unwrap(),
            url: o.url.unwrap(),
            name: o.name.unwrap(),
        }
    }
}

/// A seed as the administration interface gives it out.
#[derive(Debug)]
pub struct TvSeedResponse {
    pub id: i64,
    pub tv_id: i64,
    pub ep: i64,
    pub url: String,
    pub name: String,
}

/// What a seed response says.
pub struct TvSeedResponseView {
    pub id: i64,
    pub tv_id: i64,
    pub ep: i64,
    pub url: Seq<char>,
    pub name: Seq<char>,
}

impl View for TvSeedResponse {
    type V = TvSeedResponseView;

    open spec fn view(&self) -> TvSeedResponseView {
        TvSeedResponseView {
            id: self.id,
            tv_id: self.tv_id,
            ep: self.ep,
            url: self.url@,
            name: self.name@,
        }
    }
}

/// The response for a complete seed record.
pub open spec fn seed_response_of(s: TvSeedView) -> TvSeedResponseView
    recommends
        s.id is Some,
        s.tv_id is Some,
        s.ep is Some,
        s.url is Some,
        s.name is Some,
{
    TvSeedResponseView {
        id: s.id->0,
        tv_id: s.tv_id->0,
        ep: s.ep->0,
        url: s.url->0,
        name: s.name->0,
    }
}

impl TvSeedResponse {
    /// The response for a seed record that has every field.
    pub fn from(s: TvSeed) -> (r: TvSeedResponse)
        requires
            s.complete(),
        ensures
            r@ == seed_response_of(s@),
    {
        TvSeedResponse {
            id: s.id.unwrap(),
            tv_id: s.tv_id.unwrap(),
            ep: s.ep.unwrap(),
            url: s.url.unwrap(),
            name: s.name.unwrap(),
        }
    }
}

/// The records of one page and the size of the whole listing.
#[derive(Debug)]
pub struct PageDataResponse<T> {
    pub items: Vec<T>,
    pub total: u64,
}

/// The answer to a listing request.
#[derive(Debug)]
pub struct PageResponse<T> {
    pub status: u8,
    pub msg: String,
    pub data: PageDataResponse<T>,
}

impl PageResponse<TvResponse> {
    /// Answers with a page of show records, each of which has every field: status
    /// zero, no message, the records in their order and the listing's total.
    pub fn from(o: Page<Tv>) -> (r: PageResponse<TvResponse>)
        requires
            forall|i: int| 0 <= i < o.records@.len() ==> (#[trigger] o.records@[i]).complete(),
        ensures
            r.status == 0,
            r.msg@ == Seq::<char>::empty(),
            r.data.total == o.total,
            r.data.items@.len() == o.records@.len(),
            forall|i: int|
                0 <= i < o.records@.len() ==> (#[trigger] r.data.items@[i])@ == tv_response_of(
                    o.records@[i]@,
                ),
    {
        let total = o.total;
        let records = o.records;
        let n = records.len();
        let mut tvs: Vec<TvResponse> = Vec::new();
        let mut i: usize = 0;
        while i < n
            invariant
                records@.len() == n,
                i <= n,
                tvs@.len() == i,
                forall|j: int| 0 <= j < n ==> (#[trigger] records@[j]).complete(),
                forall|j: int| 0 <= j < i ==> (#[trigger] tvs@[j])@ == tv_response_of(records@[j]@),
            decreases n - i,
        {
            let tv = records[i].duplicate();
            tvs.push(TvResponse::from(tv));
            i += 1;
        }
        PageResponse {
            status: 0,
            msg: String::new(),
            data: PageDataResponse { items: tvs, total },
        }
    }
}

impl PageResponse<TvSeedResponse> {
    /// Answers with a page of seed records, each of which has every field: status
    /// zero, no message, the records in their order and the listing's total.
    pub fn from(o: Page<TvSeed>) -> (r: PageResponse<TvSeedResponse>)
        requires
            forall|i: int| 0 <= i < o.records@.len() ==> (#[trigger] o.records@[i]).complete(),
        ensures
            r.status == 0,
            r.msg@ == Seq::<char>::empty(),
            r.data.total == o.total,
            r.data.items@.len() == o.records@.len(),
            forall|i: int|
                0 <= i < o.records@.len() ==> (#[trigger] r.data.items@[i])@ == seed_response_of(
                    o.records@[i]@,
                ),
    {
        let total = o.total;
        let records = o.records;
        let n = records.len();
        let mut seeds: Vec<TvSeedResponse> = Vec::new();
        let mut i: usize = 0;
        while i < n
            invariant
                records@.len() == n,
                i <= n,
                seeds@.len() == i,
                forall|j: int| 0 <= j < n ==> (#[trigger] records@[j]).complete(),
                forall|j: int|
                    0 <= j < i ==> (#[trigger] seeds@[j])@ == seed_response_of(records@[j]@),
            decreases n - i,
        {
            let seed = records[i].duplicate();
            seeds.push(TvSeedResponse::from(seed));
            i += 1;
        }
        PageResponse {
            status: 0,
            msg: String::new(),
            data: PageDataResponse { items: seeds, total },
        }
    }
}

/// The answer to a request that changes something.
#[derive(Debug)]
pub struct OperationResponse {
    pub status: u8,
    pub msg: String,
}

impl Default for OperationResponse {
    fn default() -> (r: OperationResponse)
        ensures
            r.status == 0,
            r.msg@ == Seq::<char>::empty(),
    {
        OperationResponse { status: 0, msg: String::new() }
    }
}

impl OperationResponse {
    /// The answer that tells of success: status zero and no message.
    pub fn success() -> (r: OperationResponse)
        ensures
            r.status == 0,
            r.msg@ == Seq::<char>::empty(),
    {
        let r: OperationResponse = Default::default();
        r
    }
}

} // verus!
