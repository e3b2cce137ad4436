//! The resolution pipeline: choosing the site definition for a show, taking
//! the listing's rows out of the fetched page, normalizing them, and deciding
//! step by step what the resolution of a show asks of the world outside.

use vstd::prelude::*;

use crate::markup::{
    firsts, row_attr_pairs, row_text_attr_pairs, seconds, selected_attrs, selected_texts,
    selector_ok, selector_parses, RowPair,
};
use crate::model::{Tv, TvSeed, TvSeedView};
use crate::normalizer::{normalize_entry, normalized_all};
use crate::store::{
    lemma_replaced_installs, lemma_replaced_spares_others, replaced, seed_views, seeds_for,
    seeds_from, seeds_of,
};
use crate::text::{chars_of, starts_with};

verus! {

/// One entry of a listing: a title, a link and an episode number. An entry
/// as it was taken from a page has the episode number -1.
#[derive(Debug)]
pub struct Data {
    pub name: String,
    pub url: String,
    pub ep: i64,
}

/// What an entry says.
pub struct DataView {
    pub name: Seq<char>,
    pub url: Seq<char>,
    pub ep: i64,
}

impl View for Data {
    type V = DataView;

    open spec fn view(&self) -> DataView {
        DataView { name: self.name@, url: self.url@, ep: self.ep }
    }
}

/// The views of a sequence of entries.
pub open spec fn data_views(v: Seq<Data>) -> Seq<DataView> {
    v.map_values(|d: Data| d@)
}

impl Data {
    /// An entry as taken from a page: its episode is not known yet.
    pub fn new(name: &str, url: &str) -> (r: Data)
        ensures
            r@ == (DataView { name: name@, url: url@, ep: -1i64 }),
    {
        Data { name: name.to_owned(), url: url.to_owned(), ep: -1 }
    }
}

/// How fetching a page can fail.
#[derive(Debug)]
pub enum FetchError {
    /// The request failed in transport, or was answered with a failure.
    Http(String),
    /// The page was not ready within the definition's timeout.
    Timeout,
    /// The browser could not be driven.
    Automation(String),
}

/// Why a resolution, or a step of it, came to nothing.
#[derive(Debug)]
pub enum ResolveError {
    /// No episode number can be read from the title.
    EpParseFailure(String),
    /// A site definition is not usable: its row selector, given here, does
    /// not parse.
    DefinitionParse(String),
    /// No site definition serves the show's address.
    NoDefinitionMatched,
    /// The page could not be fetched.
    Fetch(FetchError),
    /// There is no such show, or its record lacks the id, the address or
    /// the display title.
    NotFound,
    /// An event came that the resolution was not waiting for.
    OutOfTurn,
}

/// What the message of an episode failure begins with.
pub const EP_FAILURE_PREFIX: &'static str = "Can't parse ep for name: ";

/// A fetch failure in words.
pub open spec fn fetch_error_text(e: FetchError) -> Seq<char> {
    match e {
        FetchError::Http(what) => "Fetch failed: "@ + what@,
        FetchError::Timeout => "Page was not ready in time"@,
        FetchError::Automation(what) => "Browser failed: "@ + what@,
    }
}

/// A failure in words.
pub open spec fn resolve_error_text(e: ResolveError) -> Seq<char> {
    match e {
        ResolveError::EpParseFailure(name) => EP_FAILURE_PREFIX@ + name@,
        ResolveError::DefinitionParse(selector) => "Can't parse selector: "@ + selector@,
        ResolveError::NoDefinitionMatched => "No site definition matches the show's url"@,
        ResolveError::Fetch(e) => fetch_error_text(e),
        ResolveError::NotFound => "Show not found"@,
        ResolveError::OutOfTurn => "Event out of turn"@,
    }
}

impl FetchError {
    /// The failure in words.
    pub fn message(&self) -> (r: String)
        ensures
            r@ == fetch_error_text(*self),
    {
        match self {
            FetchError::Http(what) => "Fetch failed: ".to_owned().concat(what.as_str()),
            FetchError::Timeout => "Page was not ready in time".to_owned(),
            FetchError::Automation(what) => "Browser failed: ".to_owned().concat(what.as_str()),
        }
    }
}

impl ResolveError {
    /// The failure in words, for the log.
    pub fn message(&self) -> (r: String)
        ensures
            r@ == resolve_error_text(*self),
    {
        match self {
            ResolveError::EpParseFailure(name) => EP_FAILURE_PREFIX.to_owned().concat(
                name.as_str(),
            ),
            ResolveError::DefinitionParse(selector) => "Can't parse selector: ".to_owned().concat(
                selector.as_str(),
            ),
            ResolveError::NoDefinitionMatched => {
                "No site definition matches the show's url".to_owned()
            },
            ResolveError::Fetch(e) => e.message(),
            ResolveError::NotFound => "Show not found".to_owned(),
            ResolveError::OutOfTurn => "Event out of turn".to_owned(),
        }
    }
}

/// How a site's pages are fetched.
#[derive(Clone, Copy, Debug, PartialEq, Eq, Structural)]
pub enum ContentProviderType {
    /// By a browser that renders the page.
    Chrome,
    /// By a plain request.
    Reqwest,
}

/// How one value is taken from a row: from the named attribute, or, with no
/// attribute named, from what the rule falls back to.
#[derive(Debug)]
pub struct ResolverRowSelectorDefine {
    pub attr: Option<String>,
}

/// How the rows of a listing are found, and how title and link are taken
/// from each.
#[derive(Debug)]
pub struct ResolverRowsDefine {
    pub selector: String,
    pub title: ResolverRowSelectorDefine,
    pub url: ResolverRowSelectorDefine,
}

/// How a listing page is read: what to wait for, where a browser renders the
/// page, and the rows.
#[derive(Debug)]
pub struct ResolverSearchDefine {
    pub wait: Option<String>,
    pub rows: ResolverRowsDefine,
}

/// The rules for one site.
#[derive(Debug)]
pub struct ResolverDefine {
    pub id: String,
    pub name: String,
    /// The address prefixes that the site's listings begin with.
    pub domains: Vec<String>,
    /// How many seconds to wait for the page to be ready.
    pub timeout: u64,
    pub search: ResolverSearchDefine,
    /// How to fetch; a browser where nothing is said.
    pub provider: Option<ContentProviderType>,
}

/// The site definitions, in the order in which they were loaded.
#[derive(Debug)]
pub struct DefaultResolver {
    pub defines: Vec<ResolverDefine>,
}

/// The browser identification sent with a plain request.
pub const USER_AGENT: &'static str =
    "Mozilla/5.0 (Macintosh; Intel Mac OS X 10_15_7) AppleWebKit/537.36 (KHTML, like Gecko) Chrome/112.0.0.0 Safari/537.36";

/// What a browser waits for before the page is read.
#[derive(Debug)]
pub struct ReadyWait {
    pub selector: String,
    pub timeout_secs: u64,
}

/// What is to be fetched, and how.
#[derive(Debug)]
pub enum FetchRequest {
    /// A plain GET with the given browser identification.
    PlainHttp { url: String, user_agent: String },
    /// A page rendered by a browser, read once what is waited for is there.
    BrowserRendered { url: String, wait: Option<ReadyWait> },
}

/// What a fetch request says.
pub enum FetchRequestView {
    PlainHttp { url: Seq<char>, user_agent: Seq<char> },
    BrowserRendered { url: Seq<char>, wait: Option<(Seq<char>, u64)> },
}

impl View for FetchRequest {
    type V = FetchRequestView;

    open spec fn view(&self) -> FetchRequestView {
        match *self {
            FetchRequest::PlainHttp { url, user_agent } => FetchRequestView::PlainHttp {
                url: url@,
                user_agent: user_agent@,
            },
            FetchRequest::BrowserRendered { url, wait } => FetchRequestView::BrowserRendered {
                url: url@,
                wait: match wait {
                    Some(w) => Some((w.selector@, w.timeout_secs)),
                    None => None,
                },
            },
        }
    }
}

/// Whether the definition serves the address: one of its prefixes begins it.
pub open spec fn serves(define: ResolverDefine, url: Seq<char>) -> bool {
    exists|k: int|
        0 <= k < define.domains@.len() && (#[trigger] define.domains@[k])@.is_prefix_of(url)
}

/// Whether `i` is the first definition that serves the address.
pub open spec fn first_serving(defines: Seq<ResolverDefine>, url: Seq<char>, i: int) -> bool {
    &&& 0 <= i < defines.len()
    &&& serves(defines[i], url)
    &&& forall|j: int| 0 <= j < i ==> !serves(#[trigger] defines[j], url)
}

/// Whether no definition serves the address.
pub open spec fn none_serving(defines: Seq<ResolverDefine>, url: Seq<char>) -> bool {
    forall|j: int| 0 <= j < defines.len() ==> !serves(#[trigger] defines[j], url)
}

/// The request by which the definition has the address fetched.
pub open spec fn request_for(define: ResolverDefine, url: Seq<char>) -> FetchRequestView {
    if define.provider == Some(ContentProviderType::Reqwest) {
        FetchRequestView::PlainHttp { url, user_agent: USER_AGENT@ }
    } else {
        FetchRequestView::BrowserRendered {
            url,
            wait: match define.search.wait {
                Some(w) => Some((w@, define.timeout)),
                None => None,
            },
        }
    }
}

/// The entries of the first `k` rows: a row gives an entry where it has both
/// a title and a link, and is passed over where it lacks either.
pub open spec fn rows_upto(
    titles: Seq<Option<Seq<char>>>,
    links: Seq<Option<Seq<char>>>,
    k: nat,
) -> Seq<DataView>
    decreases k,
{
    if k == 0 {
        Seq::empty()
    } else {
        let head = rows_upto(titles, links, (k - 1) as nat);
        if k <= titles.len() && k <= links.len() && titles[k - 1] is Some && links[k
            - 1] is Some {
            head.push(DataView { name: titles[k - 1]->0, url: links[k - 1]->0, ep: -1i64 })
        } else {
            head
        }
    }
}

/// The entries of a listing, given the title and the link found in each row.
pub open spec fn paired(
    titles: Seq<Option<Seq<char>>>,
    links: Seq<Option<Seq<char>>>,
) -> Seq<DataView> {
    rows_upto(titles, links, titles.len())
}

/// The title found in each selected row: the title attribute where the rule
/// names one, else the row's first piece of text.
pub open spec fn row_titles(markup: Seq<char>, rows: ResolverRowsDefine) -> Seq<
    Option<Seq<char>>,
> {
    match rows.title.attr {
        Some(a) => selected_attrs(markup, rows.selector@, a@),
        None => selected_texts(markup, rows.selector@),
    }
}

/// The link found in each selected row: the link attribute where the rule
/// names one; with no attribute named no row has a link.
pub open spec fn row_links(markup: Seq<char>, rows: ResolverRowsDefine) -> Seq<
    Option<Seq<char>>,
> {
    match rows.url.attr {
        Some(a) => selected_attrs(markup, rows.selector@, a@),
        None => Seq::empty(),
    }
}

/// The entries that the rows rule takes out of a page.
pub open spec fn extracted(markup: Seq<char>, rows: ResolverRowsDefine) -> Seq<DataView> {
    paired(row_titles(markup, rows), row_links(markup, rows))
}

/// Pairs the title and the link found in each row into entries, passing over
/// the rows that lack either.
pub fn pair_rows(rows: &Vec<RowPair>) -> (r: Vec<Data>)
    ensures
        data_views(r@) == paired(firsts(rows@), seconds(rows@)),
{
    let mut out: Vec<Data> = Vec::new();
    let mut k: usize = 0;
    assert(data_views(out@) =~= Seq::<DataView>::empty());
    while k < rows.len()
        invariant
            k <= rows.len(),
            data_views(out@) == rows_upto(firsts(rows@), seconds(rows@), k as nat),
        decreases rows.len() - k,
    {
        let ghost before = out@;
        match (&rows[k].0, &rows[k].1) {
            (Some(t), Some(l)) => {
                out.push(Data::new(t.as_str(), l.as_str()));
                assert(data_views(out@) =~= data_views(before).push(out@.last()@));
            },
            _ => {},
        }
        k += 1;
    }
    out
}

/// Rows without links give no entries.
pub proof fn lemma_no_links_no_rows(titles: Seq<Option<Seq<char>>>, k: nat)
    ensures
        rows_upto(titles, Seq::empty(), k) == Seq::<DataView>::empty(),
    decreases k,
{
    if k > 0 {
        lemma_no_links_no_rows(titles, (k - 1) as nat);
    }
}

impl DefaultResolver {
    /// The registry of the given definitions, in their order. A definition
    /// whose row selector does not parse is refused, the first such by its
    /// selector.
    pub fn new(defines: Vec<ResolverDefine>) -> (r: Result<DefaultResolver, ResolveError>)
        ensures
            r is Ok <==> forall|i: int|
                0 <= i < defines@.len() ==> selector_parses(
                    (#[trigger] defines@[i]).search.rows.selector@,
                ),
            r matches Ok(d) ==> d.defines == defines,
            r matches Err(e) ==> exists|i: int|
                0 <= i < defines@.len() && !selector_parses(
                    (#[trigger] defines@[i]).search.rows.selector@,
                ) && (forall|j: int|
                    0 <= j < i ==> selector_parses((#[trigger] defines@[j]).search.rows.selector@))
                    && (e matches ResolveError::DefinitionParse(s) && s@
                    == defines@[i].search.rows.selector@),
    {
        let mut i: usize = 0;
        while i < defines.len()
            invariant
                i <= defines.len(),
                forall|j: int|
                    0 <= j < i ==> selector_parses((#[trigger] defines@[j]).search.rows.selector@),
            decreases defines.len() - i,
        {
            if !selector_ok(defines[i].search.rows.selector.as_str()) {
                let e = ResolveError::DefinitionParse(defines[i].search.rows.selector.clone());
                return Err(e);
            }
            i += 1;
        }
        Ok(DefaultResolver { defines })
    }

    /// Tests whether the definition at `i` serves the address.
    fn serves_at(&self, i: usize, url: &Vec<char>) -> (r: bool)
        requires
            i < self.defines@.len(),
        ensures
            r == serves(self.defines@[i as int], url@),
    {
        let domains = &self.defines[i].domains;
        let mut k: usize = 0;
        while k < domains.len()
            invariant
                k <= domains.len(),
                domains == &self.defines@[i as int].domains,
                forall|j: int| 0 <= j < k ==> !(#[trigger] domains@[j])@.is_prefix_of(url@),
            decreases domains.len() - k,
        {
            let prefix = chars_of(domains[k].as_str());
            if starts_with(url, &prefix) {
                return true;
            }
            k += 1;
        }
        false
    }

    /// The first definition, in load order, one of whose prefixes begins the
    /// address; nothing where no definition serves it.
    pub fn find_define(&self, url: &str) -> (r: Option<usize>)
        ensures
            r matches Some(i) ==> first_serving(self.defines@, url@, i as int),
            r is None ==> none_serving(self.defines@, url@),
    {
        let text = chars_of(url);
        let mut i: usize = 0;
        while i < self.defines.len()
            invariant
                i <= self.defines.len(),
                text@ == url@,
                forall|j: int| 0 <= j < i ==> !serves(#[trigger] self.defines@[j], url@),
            decreases self.defines.len() - i,
        {
            if self.serves_at(i, &text) {
                return Some(i);
            }
            i += 1;
        }
        None
    }

    /// The entries that the rows rule takes out of a page: one for each
    /// selected row that has both a title and a link, in document order.
    /// Fails where the row selector does not parse.
    pub fn extract(&self, markup: &str, search: &ResolverSearchDefine) -> (r: Result<
        Vec<Data>,
        ResolveError,
    >)
        ensures
            r is Ok <==> selector_parses(search.rows.selector@),
            r matches Ok(v) ==> data_views(v@) == extracted(markup@, search.rows),
            r matches Err(e) ==> (e matches ResolveError::DefinitionParse(s) && s@
                == search.rows.selector@),
    {
        let selector = search.rows.selector.as_str();
        let rows = match (&search.rows.title.attr, &search.rows.url.attr) {
            (Some(title), Some(link)) => row_attr_pairs(
                markup,
                selector,
                title.as_str(),
                link.as_str(),
            ),
            (None, Some(link)) => row_text_attr_pairs(markup, selector, link.as_str()),
            (_, None) => {
                if selector_ok(selector) {
                    Some(Vec::new())
                } else {
                    None
                }
            },
        };
        match rows {
            Some(rows) => {
                proof {
                    if search.rows.url.attr is None {
                        let titles = row_titles(markup@, search.rows);
                        lemma_no_links_no_rows(titles, titles.len());
                        assert(firsts(rows@) =~= Seq::<Option<Seq<char>>>::empty());
                    }
                }
                Ok(pair_rows(&rows))
            },
            None => Err(ResolveError::DefinitionParse(search.rows.selector.clone())),
        }
    }

    /// The normalized entries of a show's listing: each entry cleaned up,
    /// numbered and given its canonical link, in the order of the listing;
    /// entries without episode number or magnet link are dropped.
    pub fn normalize(&self, tv: &Tv, datas: Vec<Data>) -> (r: Vec<Data>)
        requires
            tv.tvname is Some,
        ensures
            data_views(r@) == normalized_all(tv.tvname->0@, data_views(datas@)),
    {
        let show = tv.tvname.as_ref().unwrap().as_str();
        let mut out: Vec<Data> = Vec::new();
        let mut i: usize = 0;
        assert(data_views(out@) =~= Seq::<DataView>::empty());
        assert(data_views(datas@).take(0) =~= Seq::<DataView>::empty());
        while i < datas.len()
            invariant
                i <= datas.len(),
                show@ == tv.tvname->0@,
                data_views(out@) == normalized_all(show@, data_views(datas@).take(i as int)),
            decreases datas.len() - i,
        {
            let ghost before = out@;
            proof {
                let all = data_views(datas@);
                assert(all.take(i + 1).drop_last() =~= all.take(i as int));
                assert(all.take(i + 1).last() == datas@[i as int]@);
            }
            match normalize_entry(show, &datas[i]) {
                Some(e) => {
                    out.push(e);
                    assert(data_views(out@) =~= data_views(before).push(out@.last()@));
                },
                None => {},
            }
            i += 1;
        }
        assert(data_views(datas@).take(datas.len() as int) =~= data_views(datas@));
        out
    }
}

/// Builds the request by which the definition has the address fetched: a
/// plain request where the definition asks for one, else a browser, which
/// waits for the definition's readiness selector, where it has one, for at
/// most the definition's timeout.
pub fn fetch_request(define: &ResolverDefine, url: &str) -> (r: FetchRequest)
    ensures
        r@ == request_for(*define, url@),
{
    let plain = match define.provider {
        Some(ContentProviderType::Reqwest) => true,
        _ => false,
    };
    if plain {
        FetchRequest::PlainHttp { url: url.to_owned(), user_agent: USER_AGENT.to_owned() }
    } else {
        let wait = match &define.search.wait {
            Some(w) => Some(ReadyWait { selector: w.clone(), timeout_secs: define.timeout }),
            None => None,
        };
        FetchRequest::BrowserRendered { url: url.to_owned(), wait }
    }
}

/// Where the resolution of one show stands.
#[derive(Debug)]
pub enum ResolveState {
    /// No resolution is under way.
    Idle,
    /// The show's page is being fetched for the definition at `define`.
    Fetching { tv: Tv, define: usize },
    /// The page is here; its rows are to be taken out.
    Extracting { tv: Tv, define: usize, markup: String },
    /// The rows are here; they are to be normalized.
    Normalizing { tv: Tv, entries: Vec<Data> },
    /// The store is replacing the show's seeds by `count` fresh ones.
    Persisting { count: usize },
}

/// What happened outside since the last step.
#[derive(Debug)]
pub enum ResolveEvent {
    /// A resolution was asked for; the store was asked for the show and
    /// answered this.
    Requested(Option<Tv>),
    /// The fetch ended.
    Fetched(Result<String, FetchError>),
    /// Nothing happened outside: the last step asked to go on.
    Continued,
    /// The store has replaced the seeds.
    Persisted,
}

/// What is to be done outside before the next step.
#[derive(Debug)]
pub enum ResolveAction {
    /// Fetch the page and report `Fetched`.
    Fetch(FetchRequest),
    /// Nothing; report `Continued`.
    Continue,
    /// Delete every seed of the show, save these, and report `Persisted`.
    Replace { tv_id: i64, seeds: Vec<TvSeed> },
    /// The resolution is over: it wrote this many seeds, or failed. Failures
    /// are for the log; the store was not touched.
    Finish(Result<usize, ResolveError>),
}

/// The store after the action was carried out.
pub open spec fn store_after(action: ResolveAction, store: Seq<TvSeedView>) -> Seq<TvSeedView> {
    match action {
        ResolveAction::Replace { tv_id, seeds } => replaced(store, tv_id, seed_views(seeds@)),
        _ => store,
    }
}

/// Whether the step ends the resolution with the failure `e`.
pub open spec fn fails_with(next: ResolveState, action: ResolveAction, e: ResolveError) -> bool {
    next is Idle && action == ResolveAction::Finish(Err(e))
}

/// The step from `Idle` on a request for a show that the store has.
pub open spec fn begins(
    defines: Seq<ResolverDefine>,
    tv: Tv,
    next: ResolveState,
    action: ResolveAction,
) -> bool {
    if !tv.resolvable() {
        fails_with(next, action, ResolveError::NotFound)
    } else if none_serving(defines, tv.url->0@) {
        fails_with(next, action, ResolveError::NoDefinitionMatched)
    } else {
        &&& next matches ResolveState::Fetching { tv: t, define }
        &&& t == tv
        &&& first_serving(defines, tv.url->0@, define as int)
        &&& action matches ResolveAction::Fetch(req)
        &&& req@ == request_for(defines[define as int], tv.url->0@)
    }
}

/// The step that takes the rows out of the fetched page.
pub open spec fn extracts(
    defines: Seq<ResolverDefine>,
    tv: Tv,
    define: usize,
    markup: String,
    next: ResolveState,
    action: ResolveAction,
) -> bool {
    if define >= defines.len() {
        fails_with(next, action, ResolveError::OutOfTurn)
    } else if !selector_parses(defines[define as int].search.rows.selector@) {
        &&& next is Idle
        &&& action matches ResolveAction::Finish(Err(ResolveError::DefinitionParse(s)))
        &&& s@ == defines[define as int].search.rows.selector@
    } else {
        &&& next matches ResolveState::Normalizing { tv: t, entries }
        &&& t == tv
        &&& data_views(entries@) == extracted(markup@, defines[define as int].search.rows)
        &&& action is Continue
    }
}

/// The step that normalizes the rows and decides what the store is asked:
/// nothing where no entry is left, else to replace the show's seeds by the
/// seeds of the normalized entries.
pub open spec fn normalizes(
    tv: Tv,
    entries: Vec<Data>,
    next: ResolveState,
    action: ResolveAction,
) -> bool {
    if !tv.resolvable() {
        fails_with(next, action, ResolveError::NotFound)
    } else {
        let fresh = normalized_all(tv.tvname->0@, data_views(entries@));
        if fresh.len() == 0 {
            next is Idle && action == ResolveAction::Finish(Ok(0usize))
        } else {
            &&& next == (ResolveState::Persisting { count: fresh.len() as usize })
            &&& action matches ResolveAction::Replace { tv_id, seeds }
            &&& tv_id == tv.id->0
            &&& seed_views(seeds@) == seeds_for(tv.id->0, fresh)
        }
    }
}

/// Whether `next` and `action` are what follows from `state` on `event`.
/// A resolution goes from `Idle` through `Fetching`, `Extracting`,
/// `Normalizing` and `Persisting` back to `Idle`; every failure, and every
/// event that the state does not wait for, leads straight back to `Idle`.
pub open spec fn follows(
    defines: Seq<ResolverDefine>,
    state: ResolveState,
    event: ResolveEvent,
    next: ResolveState,
    action: ResolveAction,
) -> bool {
    match (state, event) {
        (ResolveState::Idle, ResolveEvent::Requested(None)) => fails_with(
            next,
            action,
            ResolveError::NotFound,
        ),
        (ResolveState::Idle, ResolveEvent::Requested(Some(tv))) => begins(
            defines,
            tv,
            next,
            action,
        ),
        (ResolveState::Fetching { tv, define }, ResolveEvent::Fetched(Ok(markup))) => {
            &&& next == (ResolveState::Extracting { tv, define, markup })
            &&& action is Continue
        },
        (ResolveState::Fetching { tv, define }, ResolveEvent::Fetched(Err(e))) => fails_with(
            next,
            action,
            ResolveError::Fetch(e),
        ),
        (ResolveState::Extracting { tv, define, markup }, ResolveEvent::Continued) => extracts(
            defines,
            tv,
            define,
            markup,
            next,
            action,
        ),
        (ResolveState::Normalizing { tv, entries }, ResolveEvent::Continued) => normalizes(
            tv,
            entries,
            next,
            action,
        ),
        (ResolveState::Persisting { count }, ResolveEvent::Persisted) => {
            &&& next is Idle
            &&& action == ResolveAction::Finish(Ok(count))
        },
        _ => fails_with(next, action, ResolveError::OutOfTurn),
    }
}

/// Drives the resolution of a show, step by step.
#[derive(Debug)]
pub struct Resolver {}

impl Resolver {
    pub fn new() -> (r: Resolver) {
        Resolver {  }
    }

    /// The step from `Idle` on a request for a show that the store has.
    fn begin(&self, sites: &DefaultResolver, tv: Tv) -> (r: (ResolveState, ResolveAction))
        ensures
            begins(sites.defines@, tv, r.0, r.1),
    {
        if !tv.is_resolvable() {
            return (ResolveState::Idle, ResolveAction::Finish(Err(ResolveError::NotFound)));
        }
        let url = tv.url.as_ref().unwrap().as_str();
        match sites.find_define(url) {
            Some(define) => {
                let req = fetch_request(&sites.defines[define], url);
                (ResolveState::Fetching { tv, define }, ResolveAction::Fetch(req))
            },
            None => (
                ResolveState::Idle,
                ResolveAction::Finish(Err(ResolveError::NoDefinitionMatched)),
            ),
        }
    }

    /// The step that takes the rows out of the fetched page.
    fn extract(&self, sites: &DefaultResolver, tv: Tv, define: usize, markup: String) -> (r: (
        ResolveState,
        ResolveAction,
    ))
        ensures
            extracts(sites.defines@, tv, define, markup, r.0, r.1),
    {
        if define >= sites.defines.len() {
            return (ResolveState::Idle, ResolveAction::Finish(Err(ResolveError::OutOfTurn)));
        }
        match sites.extract(markup.as_str(), &sites.defines[define].search) {
            Ok(entries) => (ResolveState::Normalizing { tv, entries }, ResolveAction::Continue),
            Err(e) => (ResolveState::Idle, ResolveAction::Finish(Err(e))),
        }
    }

    /// The step that normalizes the rows and decides what the store is asked.
    fn normalize(&self, sites: &DefaultResolver, tv: Tv, entries: Vec<Data>) -> (r: (
        ResolveState,
        ResolveAction,
    ))
        ensures
            normalizes(tv, entries, r.0, r.1),
    {
        if !tv.is_resolvable() {
            return (ResolveState::Idle, ResolveAction::Finish(Err(ResolveError::NotFound)));
        }
        let tv_id = tv.id.unwrap();
        let fresh = sites.normalize(&tv, entries);
        if fresh.len() == 0 {
            (ResolveState::Idle, ResolveAction::Finish(Ok(0)))
        } else {
            let seeds = seeds_from(tv_id, &fresh);
            (
                ResolveState::Persisting { count: fresh.len() },
                ResolveAction::Replace { tv_id, seeds },
            )
        }
    }

    /// One step of the resolution of a show: from where it stands and what
    /// happened outside to where it stands next and what is to be done
    /// outside. A resolution starts in `Idle` with `Requested` and is over
    /// when the action is `Finish`.
    pub fn fetch_by_tv(
        &self,
        sites: &DefaultResolver,
        state: ResolveState,
        event: ResolveEvent,
    ) -> (r: (ResolveState, ResolveAction))
        ensures
            follows(sites.defines@, state, event, r.0, r.1),
    {
        match (state, event) {
            (ResolveState::Idle, ResolveEvent::Requested(None)) => (
                ResolveState::Idle,
                ResolveAction::Finish(Err(ResolveError::NotFound)),
            ),
            (ResolveState::Idle, ResolveEvent::Requested(Some(tv))) => self.begin(sites, tv),
            (ResolveState::Fetching { tv, define }, ResolveEvent::Fetched(Ok(markup))) => (
                ResolveState::Extracting { tv, define, markup },
                ResolveAction::Continue,
            ),
            (ResolveState::Fetching { tv, define }, ResolveEvent::Fetched(Err(e))) => (
                ResolveState::Idle,
                ResolveAction::Finish(Err(ResolveError::Fetch(e))),
            ),
            (ResolveState::Extracting { tv, define, markup }, ResolveEvent::Continued) => {
                self.extract(sites, tv, define, markup)
            },
            (ResolveState::Normalizing { tv, entries }, ResolveEvent::Continued) => {
                self.normalize(sites, tv, entries)
            },
            (ResolveState::Persisting { count }, ResolveEvent::Persisted) => (
                ResolveState::Idle,
                ResolveAction::Finish(Ok(count)),
            ),
            _ => (ResolveState::Idle, ResolveAction::Finish(Err(ResolveError::OutOfTurn))),
        }
    }
}

/// Only a step that normalizes a listing with entries left asks the store
/// for anything: after every other step the store is as it was.
pub proof fn lemma_only_fresh_entries_touch_store(
    defines: Seq<ResolverDefine>,
    state: ResolveState,
    event: ResolveEvent,
    next: ResolveState,
    action: ResolveAction,
    store: Seq<TvSeedView>,
)
    requires
        follows(defines, state, event, next, action),
        !(state is Normalizing && event is Continued),
    ensures
        store_after(action, store) == store,
{
}

/// A show whose address no definition serves is not resolved: the step
/// reports that no definition matched, and the store is as it was.
pub proof fn lemma_unserved_show_keeps_seeds(
    defines: Seq<ResolverDefine>,
    tv: Tv,
    next: ResolveState,
    action: ResolveAction,
    store: Seq<TvSeedView>,
)
    requires
        tv.resolvable(),
        none_serving(defines, tv.url->0@),
        follows(defines, ResolveState::Idle, ResolveEvent::Requested(Some(tv)), next, action),
    ensures
        next is Idle,
        action == ResolveAction::Finish(Err(ResolveError::NoDefinitionMatched)),
        store_after(action, store) == store,
{
}

/// A listing that leaves no normalized entry does not wipe the show's
/// seeds: the resolution ends, and the store is as it was.
pub proof fn lemma_empty_listing_keeps_seeds(
    defines: Seq<ResolverDefine>,
    tv: Tv,
    entries: Vec<Data>,
    next: ResolveState,
    action: ResolveAction,
    store: Seq<TvSeedView>,
)
    requires
        tv.resolvable(),
        normalized_all(tv.tvname->0@, data_views(entries@)).len() == 0,
        follows(
            defines,
            ResolveState::Normalizing { tv, entries },
            ResolveEvent::Continued,
            next,
            action,
        ),
    ensures
        next is Idle,
        action == ResolveAction::Finish(Ok(0usize)),
        store_after(action, store) == store,
{
}

/// A listing that leaves `n` normalized entries, `n` not zero, replaces the
/// show's seeds: once the action is carried out the show has exactly the `n`
/// seeds of those entries, none of its earlier seeds, and the seeds of every
/// other show are as they were.
pub proof fn lemma_listing_replaces_seeds(
    defines: Seq<ResolverDefine>,
    tv: Tv,
    entries: Vec<Data>,
    next: ResolveState,
    action: ResolveAction,
    store: Seq<TvSeedView>,
    other: i64,
)
    requires
        tv.resolvable(),
        normalized_all(tv.tvname->0@, data_views(entries@)).len() > 0,
        follows(
            defines,
            ResolveState::Normalizing { tv, entries },
            ResolveEvent::Continued,
            next,
            action,
        ),
    ensures
        seeds_of(store_after(action, store), tv.id->0) == seeds_for(
            tv.id->0,
            normalized_all(tv.tvname->0@, data_views(entries@)),
        ),
        seeds_of(store_after(action, store), tv.id->0).len() == normalized_all(
            tv.tvname->0@,
            data_views(entries@),
        ).len(),
        other != tv.id->0 ==> seeds_of(store_after(action, store), other) == seeds_of(
            store,
            other,
        ),
{
    let fresh = seeds_for(tv.id->0, normalized_all(tv.tvname->0@, data_views(entries@)));
    lemma_replaced_installs(store, tv.id->0, fresh);
    if other != tv.id->0 {
        lemma_replaced_spares_others(store, tv.id->0, fresh, other);
    }
}

/// The normalized entries that the definition at `define` finds for the
/// show on a page.
pub open spec fn found_entries(
    defines: Seq<ResolverDefine>,
    tv: Tv,
    define: int,
    markup: Seq<char>,
) -> Seq<DataView> {
    normalized_all(tv.tvname->0@, extracted(markup, defines[define].search.rows))
}

/// Only one definition is the first that serves an address.
pub proof fn lemma_first_serving_unique(
    defines: Seq<ResolverDefine>,
    url: Seq<char>,
    i: int,
    j: int,
)
    requires
        first_serving(defines, url, i),
        first_serving(defines, url, j),
    ensures
        i == j,
{
    if i < j {
        assert(!serves(defines[i], url));
    } else if j < i {
        assert(!serves(defines[j], url));
    }
}

/// A whole resolution, from the request to the decision about the store: for
/// a show that the store has, whose address is served and whose page was
/// fetched, the four steps fetch with the first serving definition, take the
/// rows out, normalize them, and touch the store only in the last step. With
/// no entry found the store stays as it was; with entries found the show has
/// afterwards exactly the seeds of those entries.
pub proof fn lemma_resolution_end_to_end(
    defines: Seq<ResolverDefine>,
    tv: Tv,
    define: int,
    markup: String,
    fetching: ResolveState,
    fetch: ResolveAction,
    extracting: ResolveState,
    go_on: ResolveAction,
    normalizing: ResolveState,
    go_further: ResolveAction,
    last: ResolveState,
    decision: ResolveAction,
    store: Seq<TvSeedView>,
)
    requires
        tv.resolvable(),
        first_serving(defines, tv.url->0@, define),
        selector_parses(defines[define].search.rows.selector@),
        follows(defines, ResolveState::Idle, ResolveEvent::Requested(Some(tv)), fetching, fetch),
        follows(defines, fetching, ResolveEvent::Fetched(Ok(markup)), extracting, go_on),
        follows(defines, extracting, ResolveEvent::Continued, normalizing, go_further),
        follows(defines, normalizing, ResolveEvent::Continued, last, decision),
    ensures
        fetch matches ResolveAction::Fetch(req) && req@ == request_for(
            defines[define],
            tv.url->0@,
        ),
        store_after(fetch, store) == store,
        store_after(go_on, store) == store,
        store_after(go_further, store) == store,
        found_entries(defines, tv, define, markup@).len() == 0 ==> last is Idle && decision
            == ResolveAction::Finish(Ok(0usize)) && store_after(decision, store) == store,
        found_entries(defines, tv, define, markup@).len() > 0 ==> seeds_of(
            store_after(decision, store),
            tv.id->0,
        ) == seeds_for(tv.id->0, found_entries(defines, tv, define, markup@)),
{
    assert(!none_serving(defines, tv.url->0@)) by {
        assert(serves(defines[define], tv.url->0@));
    }
    let chosen = fetching->Fetching_define;
    lemma_first_serving_unique(defines, tv.url->0@, define, chosen as int);
    let entries = normalizing->Normalizing_entries;
    let fresh = seeds_for(tv.id->0, found_entries(defines, tv, define, markup@));
    if found_entries(defines, tv, define, markup@).len() > 0 {
        lemma_replaced_installs(store, tv.id->0, fresh);
    }
}

/// The entries of a listing are at most as many as its rows.
pub proof fn lemma_rows_upto_len(
    titles: Seq<Option<Seq<char>>>,
    links: Seq<Option<Seq<char>>>,
    k: nat,
)
    ensures
        rows_upto(titles, links, k).len() <= k,
    decreases k,
{
    if k > 0 {
        lemma_rows_upto_len(titles, links, (k - 1) as nat);
    }
}

} // verus!
