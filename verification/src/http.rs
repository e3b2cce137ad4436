//! The requests of the administration and indexer interfaces, as plain
//! values, and what each asks of the store.

use vstd::prelude::*;

use crate::model::{PageRequest, Tv, TvView};
use crate::store::SeedQuery;

verus! {

/// A request to the indexer interface.
#[derive(Debug)]
pub struct ApiRequest {
    /// What is asked: `caps` for the capabilities, anything else for a search.
    pub t: String,
    pub q: Option<String>,
    /// The catalog id of the show to search.
    pub tvdbid: Option<String>,
    pub season: Option<i32>,
    /// The episode to search for.
    pub ep: Option<i32>,
    pub offset: Option<u64>,
    pub limit: Option<u64>,
}

/// A request for a page of the shows.
#[derive(Debug)]
pub struct TvsRequest {
    pub per_page: Option<u64>,
    pub page: Option<u64>,
}

/// A request for a page of seeds.
#[derive(Debug)]
pub struct SeedsRequest {
    pub per_page: Option<u64>,
    pub page: Option<u64>,
}

/// The show whose seeds are asked for.
#[derive(Debug)]
pub struct SeedsPathRequest {
    pub tvid: u64,
}

/// A request to delete a show.
#[derive(Debug)]
pub struct TvDeleteRequest {
    pub id: u64,
}

/// A request to add a show.
#[derive(Debug)]
pub struct TvAddRequest {
    pub name: String,
    pub tvdbid: String,
    pub tvname: String,
    pub url: String,
}

/// The page that a listing request asks for: the first page where none is
/// named, ten records a page where no size is named.
pub open spec fn listing_page(page: Option<u64>, per_page: Option<u64>) -> PageRequest {
    PageRequest {
        page_no: match page {
            Some(p) => if p < 1 {
                1
            } else {
                p
            },
            None => 1,
        },
        page_size: match per_page {
            Some(n) => n,
            None => 10,
        },
    }
}

/// Builds the page that a listing request asks for.
pub fn page_request(page: Option<u64>, per_page: Option<u64>) -> (r: PageRequest)
    ensures
        r == listing_page(page, per_page),
{
    let page_no: u64 = match page {
        Some(p) => p,
        None => 1,
    };
    let page_size: u64 = match per_page {
        Some(n) => n,
        None => 10,
    };
    PageRequest::new(page_no, page_size)
}

impl TvsRequest {
    /// The page of shows asked for.
    pub fn page_request(&self) -> (r: PageRequest)
        ensures
            r == listing_page(self.page, self.per_page),
    {
        page_request(self.page, self.per_page)
    }
}

impl SeedsRequest {
    /// The page of seeds asked for.
    pub fn page_request(&self) -> (r: PageRequest)
        ensures
            r == listing_page(self.page, self.per_page),
    {
        page_request(self.page, self.per_page)
    }

    /// The query for the asked page of the seeds of the show, whatever their
    /// episode. Nothing where the show's number is none that a show can have.
    pub fn seed_query(&self, path: &SeedsPathRequest) -> (r: Option<SeedQuery>)
        ensures
            r is Some <==> path.tvid <= i64::MAX,
            r matches Some(q) ==> q.tv_id == path.tvid && q.ep is None && q.page == listing_page(
                self.page,
                self.per_page,
            ),
    {
        if path.tvid <= 0x7fff_ffff_ffff_ffff {
            Some(SeedQuery { tv_id: path.tvid as i64, ep: None, page: self.page_request() })
        } else {
            None
        }
    }
}

impl TvAddRequest {
    /// The record of the show to add. The store gives it its id.
    pub fn to_tv(&self) -> (r: Tv)
        ensures
            r@ == (TvView {
                id: None,
                tvdbid: Some(self.tvdbid@),
                tvname: Some(self.tvname@),
                url: Some(self.url@),
                name: Some(self.name@),
            }),
    {
        Tv {
            id: None,
            tvdbid: Some(self.tvdbid.clone()),
            tvname: Some(self.tvname.clone()),
            url: Some(self.url.clone()),
            name: Some(self.name.clone()),
        }
    }
}

} // verus!
