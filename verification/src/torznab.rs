//! The indexer interface: the capabilities document, the page that a search
//! asks the store for, and the feed that answers a search.

use vstd::prelude::*;
use xml::writer::EventWriter;

use crate::clock::{has_mail_date, mail_date, mail_date_text, unix_now, MAIL_DATE_MAX, MAIL_DATE_MIN};
use crate::http::ApiRequest;
use crate::xml_writer::{
    bindings_view, close_element, document_text, escape_attribute, escaped, finish, indenting,
    new_writer, open_depth, open_element, put_text, written, Binding, Markup,
};
use crate::model::{opt_text, PageRequest, Tv, TvSeed, TvSeedView};
use crate::store::{seed_views, wanted, SeedQuery};
use crate::text::same_text;

verus! {

/// The capabilities document.
pub const CAPS: &'static str = r#"<caps>
   <server version="1.1" title="..." strapline="..."
         email="..." url="http://indexer.local/"
         image="http://indexer.local/content/banner.jpg" />
   <limits max="100" default="50" />
   <retention days="400" />
   <registration available="yes" open="yes" />

   <searching>
      <search available="yes" supportedParams="q" />
      <tv-search available="yes" supportedParams="q,rid,tvdbid,season,ep" />
      <movie-search available="no" supportedParams="q,imdbid,genre" />
      <audio-search available="no" supportedParams="q" />
      <book-search available="no" supportedParams="q" />
   </searching>

   <categories>
      <category id="5000" name="TV">
      </category>
   </categories>

   <groups>
      <group id="1" name="alt.binaries...." description="..." lastupdate="..." />
   </groups>

   <genres>
      <genre id="1" categoryid="5000" name="Kids" />
   </genres>

   <tags>
      <tag name="anonymous" description="Uploader is anonymous" />
      <tag name="trusted" description="Uploader has high reputation" />
      <tag name="internal" description="Uploader is an internal release group" />
   </tags>
</caps>
        "#;

/// The request type that asks for the capabilities.
pub const CAPS_REQUEST: &'static str = "caps";

/// The page size of a search that names none.
pub const DEFAULT_LIMIT: u64 = 50;

/// The offset from which on a search is answered with nothing.
pub const OFFSET_CAP: u64 = 1000;

/// The page number and size that stand for a page beyond every listing.
pub const BEYOND: u64 = 9999;

/// The seconds of one day.
pub const DAY: i64 = 86_400;

/// The page that holds the record at `offset`, in pages of `page_size`
/// records, numbered from one. From the offset cap on it is the page beyond
/// every listing.
pub open spec fn page_for(offset: u64, page_size: u64) -> PageRequest {
    if offset >= OFFSET_CAP {
        PageRequest { page_no: BEYOND, page_size: BEYOND }
    } else {
        PageRequest { page_no: (offset / page_size + 1) as u64, page_size }
    }
}

/// The page request of a search by offset and page size. Below the offset
/// cap the page size must not be zero.
pub fn page(offset: u64, page_size: u64) -> (r: PageRequest)
    requires
        offset >= OFFSET_CAP || page_size > 0,
    ensures
        r == page_for(offset, page_size),
{
    if offset >= OFFSET_CAP {
        return PageRequest::new(BEYOND, BEYOND);
    }
    let page_no = offset / page_size;
    PageRequest::new(page_no + 1, page_size)
}

/// The date given to every item of a feed made at `now`: the instant one day
/// before, where that has an RFC 2822 notation.
pub open spec fn pub_date_text(now: i64) -> Option<Seq<char>> {
    if has_mail_date(now - DAY) {
        Some(mail_date_text(now - DAY))
    } else {
        None
    }
}

/// The date given to every item of a feed made at `now`, counted in seconds
/// from the Unix epoch.
pub fn pub_date_at(now: i64) -> (r: Option<String>)
    ensures
        opt_text(r) == pub_date_text(now),
{
    if now >= MAIL_DATE_MIN + DAY && now <= MAIL_DATE_MAX + DAY {
        Some(mail_date(now - DAY))
    } else {
        None
    }
}

/// The date given to every item of a feed made now. Nothing where the clock
/// shows a time whose day before cannot be written.
pub fn pub_date() -> (r: Option<String>)
    ensures
        r is Some ==> exists|now: i64| opt_text(r) == #[trigger] pub_date_text(now),
{
    let now = unix_now();
    let r = pub_date_at(now);
    assert(opt_text(r) == pub_date_text(now));
    r
}

/// Which show a search is about.
#[derive(Debug)]
pub enum ShowLookup {
    /// The show with this catalog id.
    ByCatalogId(String),
    /// Whichever show the store gives first.
    Any,
}

/// What is to be done for a request.
#[derive(Debug)]
pub enum ApiAction {
    /// Answer with this document.
    Respond(String),
    /// Ask the store for the show, then its seeds, and answer with the feed.
    FindShow(ShowLookup),
}

/// The lookup that a search request asks for.
pub open spec fn lookup_matches(info: ApiRequest, lookup: ShowLookup) -> bool {
    match info.tvdbid {
        Some(id) => lookup matches ShowLookup::ByCatalogId(s) && s@ == id@,
        None => lookup is Any,
    }
}

/// The page that a search asks for: offset zero and fifty records a page
/// where the request names none.
pub open spec fn search_page(info: ApiRequest) -> PageRequest {
    page_for(
        match info.offset {
            Some(o) => o,
            None => 0,
        },
        match info.limit {
            Some(l) => l,
            None => DEFAULT_LIMIT,
        },
    )
}

/// Whether a search request asks for pages of no records below the offset
/// cap; such a request has no page.
pub open spec fn pageless(info: ApiRequest) -> bool {
    info.limit == Some(0u64) && (match info.offset {
        Some(o) => o < OFFSET_CAP,
        None => true,
    })
}

/// An element without attributes that holds text.
pub open spec fn leaf(name: Seq<char>, text: Seq<char>) -> Seq<Markup> {
    seq![
        Markup::Open { name, attrs: Seq::empty(), spaces: Seq::empty() },
        Markup::Text(text),
        Markup::Close,
    ]
}

/// An element with attributes and nothing inside.
pub open spec fn hollow(name: Seq<char>, attrs: Seq<(Seq<char>, Seq<char>)>) -> Seq<Markup> {
    seq![Markup::Open { name, attrs, spaces: Seq::empty() }, Markup::Close]
}

/// The start of the feed: the document element, the channel and what
/// describes it.
pub open spec fn feed_head() -> Seq<Markup> {
    seq![
        Markup::Open {
            name: "rss"@,
            attrs: seq![("version"@, "2.0"@)],
            spaces: seq![("torznab"@, "http://torznab.com/schemas/2015/feed"@)],
        },
        Markup::Open { name: "channel"@, attrs: Seq::empty(), spaces: Seq::empty() },
    ] + leaf("title"@, "wkavu"@) + leaf("description"@, "wkavu"@) + leaf("language"@, "zh-CN"@)
        + leaf("category"@, "search"@)
}

/// One item of the feed: the release's name, its link as guid, link and
/// enclosure, the date, size zero and the TV category.
pub open spec fn feed_item(name: Seq<char>, url: Seq<char>, date: Seq<char>) -> Seq<Markup> {
    seq![Markup::Open { name: "item"@, attrs: Seq::empty(), spaces: Seq::empty() }] + leaf(
        "title"@,
        name,
    ) + leaf("guid"@, escaped(url)) + leaf("pubDate"@, date) + leaf("size"@, "0"@) + leaf(
        "link"@,
        escaped(url),
    ) + leaf("category"@, "5000"@) + hollow(
        "enclosure"@,
        seq![
            ("url"@, escaped(url)),
            ("type"@, "application/x-bittorrent"@),
            ("length"@, "0"@),
        ],
    ) + hollow("torznab:attr"@, seq![("name"@, "category"@), ("value"@, "5000"@)]) + seq![
        Markup::Close,
    ]
}

/// The items of the feed, one for each seed, in order.
pub open spec fn feed_items(seeds: Seq<TvSeedView>, date: Seq<char>) -> Seq<Markup>
    decreases seeds.len(),
{
    if seeds.len() == 0 {
        Seq::empty()
    } else {
        feed_items(seeds.drop_last(), date) + feed_item(
            seeds.last().name->0,
            seeds.last().url->0,
            date,
        )
    }
}

/// Everything that is handed to the writer for the feed of the seeds.
pub open spec fn feed_events(seeds: Seq<TvSeedView>, date: Seq<char>) -> Seq<Markup> {
    feed_head() + feed_items(seeds, date) + seq![Markup::Close, Markup::Close]
}

/// The feed of the seeds: the indented document of its events.
pub open spec fn feed_text(seeds: Seq<TvSeedView>, date: Seq<char>) -> Seq<char> {
    document_text(true, feed_events(seeds, date))
}

/// The feed without items: the channel and what describes it, and nothing
/// else.
pub open spec fn empty_feed_text() -> Seq<char> {
    document_text(true, feed_head() + seq![Markup::Close, Markup::Close])
}

/// A feed without items is the same whatever its date.
pub proof fn lemma_feed_without_items(date: Seq<char>)
    ensures
        feed_text(Seq::empty(), date) == empty_feed_text(),
{
    assert(feed_head() + feed_items(Seq::empty(), date) =~= feed_head());
}

/// Whether every seed has a name and a link.
pub open spec fn listable(seeds: Seq<TvSeed>) -> bool {
    forall|i: int|
        0 <= i < seeds.len() ==> (#[trigger] seeds[i]).name is Some && seeds[i].url is Some
}

/// How many elements are open after one more event.
pub proof fn lemma_depth_push(events: Seq<Markup>, e: Markup)
    ensures
        open_depth(events.push(e)) == open_depth(events) + match e {
            Markup::Open { .. } => 1int,
            Markup::Text(_) => 0int,
            Markup::Close => -1int,
        },
{
    assert(events.push(e).drop_last() =~= events);
}

/// The elements open after two runs of events are those open after the first
/// and those open after the second together.
pub proof fn lemma_depth_concat(first: Seq<Markup>, second: Seq<Markup>)
    ensures
        open_depth(first + second) == open_depth(first) + open_depth(second),
    decreases second.len(),
{
    if second.len() == 0 {
        assert(first + second =~= first);
    } else {
        lemma_depth_concat(first, second.drop_last());
        assert((first + second).drop_last() =~= first + second.drop_last());
        assert((first + second).last() == second.last());
    }
}

/// An element with text inside leaves open what was open.
pub proof fn lemma_leaf_closed(name: Seq<char>, text: Seq<char>)
    ensures
        open_depth(leaf(name, text)) == 0,
{
    let opened = Markup::Open { name, attrs: Seq::empty(), spaces: Seq::empty() };
    let e = Seq::<Markup>::empty();
    lemma_depth_push(e, opened);
    lemma_depth_push(e.push(opened), Markup::Text(text));
    lemma_depth_push(e.push(opened).push(Markup::Text(text)), Markup::Close);
    assert(leaf(name, text) =~= e.push(opened).push(Markup::Text(text)).push(Markup::Close));
}

/// An element with nothing inside leaves open what was open.
pub proof fn lemma_hollow_closed(name: Seq<char>, attrs: Seq<(Seq<char>, Seq<char>)>)
    ensures
        open_depth(hollow(name, attrs)) == 0,
{
    let opened = Markup::Open { name, attrs, spaces: Seq::empty() };
    let e = Seq::<Markup>::empty();
    lemma_depth_push(e, opened);
    lemma_depth_push(e.push(opened), Markup::Close);
    assert(hollow(name, attrs) =~= e.push(opened).push(Markup::Close));
}

/// An item of the feed leaves open what was open.
pub proof fn lemma_item_closed(name: Seq<char>, url: Seq<char>, date: Seq<char>)
    ensures
        open_depth(feed_item(name, url, date)) == 0,
{
    let open = seq![Markup::Open { name: "item"@, attrs: Seq::empty(), spaces: Seq::empty() }];
    let a = leaf("title"@, name);
    let b = leaf("guid"@, escaped(url));
    let c = leaf("pubDate"@, date);
    let d = leaf("size"@, "0"@);
    let e = leaf("link"@, escaped(url));
    let f = leaf("category"@, "5000"@);
    let g = hollow(
        "enclosure"@,
        seq![
            ("url"@, escaped(url)),
            ("type"@, "application/x-bittorrent"@),
            ("length"@, "0"@),
        ],
    );
    let h = hollow("torznab:attr"@, seq![("name"@, "category"@), ("value"@, "5000"@)]);
    let close = seq![Markup::Close];
    lemma_depth_push(Seq::<Markup>::empty(), open[0]);
    assert(open =~= Seq::<Markup>::empty().push(open[0]));
    lemma_depth_push(Seq::<Markup>::empty(), Markup::Close);
    assert(close =~= Seq::<Markup>::empty().push(Markup::Close));
    lemma_leaf_closed("title"@, name);
    lemma_leaf_closed("guid"@, escaped(url));
    lemma_leaf_closed("pubDate"@, date);
    lemma_leaf_closed("size"@, "0"@);
    lemma_leaf_closed("link"@, escaped(url));
    lemma_leaf_closed("category"@, "5000"@);
    lemma_hollow_closed(
        "enclosure"@,
        seq![
            ("url"@, escaped(url)),
            ("type"@, "application/x-bittorrent"@),
            ("length"@, "0"@),
        ],
    );
    lemma_hollow_closed("torznab:attr"@, seq![("name"@, "category"@), ("value"@, "5000"@)]);
    lemma_depth_concat(open, a);
    lemma_depth_concat(open + a, b);
    lemma_depth_concat(open + a + b, c);
    lemma_depth_concat(open + a + b + c, d);
    lemma_depth_concat(open + a + b + c + d, e);
    lemma_depth_concat(open + a + b + c + d + e, f);
    lemma_depth_concat(open + a + b + c + d + e + f, g);
    lemma_depth_concat(open + a + b + c + d + e + f + g, h);
    lemma_depth_concat(open + a + b + c + d + e + f + g + h, close);
}

/// The items of a feed leave open what was open.
pub proof fn lemma_items_closed(seeds: Seq<TvSeedView>, date: Seq<char>)
    ensures
        open_depth(feed_items(seeds, date)) == 0,
    decreases seeds.len(),
{
    if seeds.len() > 0 {
        lemma_items_closed(seeds.drop_last(), date);
        lemma_item_closed(seeds.last().name->0, seeds.last().url->0, date);
        lemma_depth_concat(
            feed_items(seeds.drop_last(), date),
            feed_item(seeds.last().name->0, seeds.last().url->0, date),
        );
    }
}

/// Every feed, with or without items, closes every element that it opens.
pub proof fn lemma_feed_balanced(seeds: Seq<TvSeedView>, date: Seq<char>)
    ensures
        open_depth(feed_events(seeds, date)) == 0,
{
    let rss = Markup::Open {
        name: "rss"@,
        attrs: seq![("version"@, "2.0"@)],
        spaces: seq![("torznab"@, "http://torznab.com/schemas/2015/feed"@)],
    };
    let channel = Markup::Open { name: "channel"@, attrs: Seq::empty(), spaces: Seq::empty() };
    let e = Seq::<Markup>::empty();
    let opening = seq![rss, channel];
    lemma_depth_push(e, rss);
    lemma_depth_push(e.push(rss), channel);
    assert(opening =~= e.push(rss).push(channel));
    lemma_leaf_closed("title"@, "wkavu"@);
    lemma_leaf_closed("description"@, "wkavu"@);
    lemma_leaf_closed("language"@, "zh-CN"@);
    lemma_leaf_closed("category"@, "search"@);
    let a = leaf("title"@, "wkavu"@);
    let b = leaf("description"@, "wkavu"@);
    let c = leaf("language"@, "zh-CN"@);
    let d = leaf("category"@, "search"@);
    lemma_depth_concat(opening, a);
    lemma_depth_concat(opening + a, b);
    lemma_depth_concat(opening + a + b, c);
    lemma_depth_concat(opening + a + b + c, d);
    assert(open_depth(feed_head()) == 2);
    lemma_items_closed(seeds, date);
    let closing = seq![Markup::Close, Markup::Close];
    lemma_depth_push(e, Markup::Close);
    lemma_depth_push(e.push(Markup::Close), Markup::Close);
    assert(closing =~= e.push(Markup::Close).push(Markup::Close));
    lemma_depth_concat(feed_head(), feed_items(seeds, date));
    lemma_depth_concat(feed_head() + feed_items(seeds, date), closing);
}

/// Writes an element without attributes that holds `text`.
fn write_leaf(w: &mut EventWriter<Vec<u8>>, name: &str, text: &str)
    requires
        open_depth(written(*old(w))) >= 0,
    ensures
        written(*final(w)) == written(*old(w)) + leaf(name@, text@),
        open_depth(written(*final(w))) == open_depth(written(*old(w))),
        indenting(*final(w)) == indenting(*old(w)),
{
    let none: Vec<Binding> = Vec::new();
    let ghost start = written(*w);
    open_element(w, name, &none, &none);
    put_text(w, text);
    proof {
        assert(bindings_view(none@) =~= Seq::<(Seq<char>, Seq<char>)>::empty());
        let opened = Markup::Open { name: name@, attrs: Seq::empty(), spaces: Seq::empty() };
        lemma_depth_push(start, opened);
        lemma_depth_push(start.push(opened), Markup::Text(text@));
        lemma_depth_push(start.push(opened).push(Markup::Text(text@)), Markup::Close);
    }
    close_element(w);
    assert(written(*w) =~= start + leaf(name@, text@));
}

/// Writes an element with the given attributes and nothing inside.
fn write_hollow(w: &mut EventWriter<Vec<u8>>, name: &str, attrs: &Vec<Binding>)
    requires
        open_depth(written(*old(w))) >= 0,
    ensures
        written(*final(w)) == written(*old(w)) + hollow(name@, bindings_view(attrs@)),
        open_depth(written(*final(w))) == open_depth(written(*old(w))),
        indenting(*final(w)) == indenting(*old(w)),
{
    let none: Vec<Binding> = Vec::new();
    let ghost start = written(*w);
    open_element(w, name, attrs, &none);
    proof {
        assert(bindings_view(none@) =~= Seq::<(Seq<char>, Seq<char>)>::empty());
        let opened = Markup::Open {
            name: name@,
            attrs: bindings_view(attrs@),
            spaces: Seq::empty(),
        };
        lemma_depth_push(start, opened);
        lemma_depth_push(start.push(opened), Markup::Close);
    }
    close_element(w);
    assert(written(*w) =~= start + hollow(name@, bindings_view(attrs@)));
}

/// A binding of the given name and value.
fn bind(name: &str, value: &str) -> (r: Binding)
    ensures
        r@ == (name@, value@),
{
    Binding { name: name.to_owned(), value: value.to_owned() }
}

/// Writes the start of the feed.
fn write_head(w: &mut EventWriter<Vec<u8>>)
    requires
        open_depth(written(*old(w))) >= 0,
    ensures
        written(*final(w)) == written(*old(w)) + feed_head(),
        open_depth(written(*final(w))) == open_depth(written(*old(w))) + 2,
        indenting(*final(w)) == indenting(*old(w)),
{
    let none: Vec<Binding> = Vec::new();
    let mut version: Vec<Binding> = Vec::new();
    version.push(bind("version", "2.0"));
    let mut spaces: Vec<Binding> = Vec::new();
    spaces.push(bind("torznab", "http://torznab.com/schemas/2015/feed"));
    let ghost start = written(*w);
    let ghost rss = Markup::Open {
        name: "rss"@,
        attrs: seq![("version"@, "2.0"@)],
        spaces: seq![("torznab"@, "http://torznab.com/schemas/2015/feed"@)],
    };
    let ghost channel = Markup::Open {
        name: "channel"@,
        attrs: Seq::empty(),
        spaces: Seq::empty(),
    };
    proof {
        assert(bindings_view(none@) =~= Seq::<(Seq<char>, Seq<char>)>::empty());
        assert(bindings_view(version@) =~= seq![("version"@, "2.0"@)]);
        assert(bindings_view(spaces@) =~= seq![
            ("torznab"@, "http://torznab.com/schemas/2015/feed"@),
        ]);
        lemma_depth_push(start, rss);
        lemma_depth_push(start.push(rss), channel);
    }
    open_element(w, "rss", &version, &spaces);
    open_element(w, "channel", &none, &none);
    write_leaf(w, "title", "wkavu");
    write_leaf(w, "description", "wkavu");
    write_leaf(w, "language", "zh-CN");
    write_leaf(w, "category", "search");
    assert(written(*w) =~= start + feed_head());
}

/// Writes one item of the feed.
fn write_item(w: &mut EventWriter<Vec<u8>>, name: &str, url: &str, date: &str)
    requires
        open_depth(written(*old(w))) >= 0,
    ensures
        written(*final(w)) == written(*old(w)) + feed_item(name@, url@, date@),
        open_depth(written(*final(w))) == open_depth(written(*old(w))),
        indenting(*final(w)) == indenting(*old(w)),
{
    let none: Vec<Binding> = Vec::new();
    let link = escape_attribute(url);
    let mut enclosure: Vec<Binding> = Vec::new();
    enclosure.push(bind("url", link.as_str()));
    enclosure.push(bind("type", "application/x-bittorrent"));
    enclosure.push(bind("length", "0"));
    let mut category: Vec<Binding> = Vec::new();
    category.push(bind("name", "category"));
    category.push(bind("value", "5000"));
    let ghost start = written(*w);
    let ghost item = Markup::Open { name: "item"@, attrs: Seq::empty(), spaces: Seq::empty() };
    proof {
        assert(bindings_view(none@) =~= Seq::<(Seq<char>, Seq<char>)>::empty());
        assert(bindings_view(enclosure@) =~= seq![
            ("url"@, escaped(url@)),
            ("type"@, "application/x-bittorrent"@),
            ("length"@, "0"@),
        ]);
        assert(bindings_view(category@) =~= seq![("name"@, "category"@), ("value"@, "5000"@)]);
        lemma_depth_push(start, item);
    }
    open_element(w, "item", &none, &none);
    write_leaf(w, "title", name);
    write_leaf(w, "guid", link.as_str());
    write_leaf(w, "pubDate", date);
    write_leaf(w, "size", "0");
    write_leaf(w, "link", link.as_str());
    write_leaf(w, "category", "5000");
    write_hollow(w, "enclosure", &enclosure);
    write_hollow(w, "torznab:attr", &category);
    proof {
        lemma_depth_push(written(*w), Markup::Close);
    }
    close_element(w);
    assert(written(*w) =~= start + feed_item(name@, url@, date@));
}

/// Answers requests to the indexer interface.
#[derive(Debug)]
pub struct TorznabProvider {}

impl TorznabProvider {
    pub fn new() -> (r: TorznabProvider) {
        TorznabProvider {  }
    }

    /// The capabilities document. It is always the same.
    pub fn caps(&self) -> (r: String)
        ensures
            r@ == CAPS@,
    {
        CAPS.to_owned()
    }

    /// What is to be done for a request: a request for the capabilities is
    /// answered with the capabilities document, whatever else it says; every
    /// other request is a search, which begins by finding its show.
    pub fn handle(&self, info: &ApiRequest) -> (r: ApiAction)
        ensures
            info.t@ == CAPS_REQUEST@ ==> (r matches ApiAction::Respond(s) && s@ == CAPS@),
            info.t@ != CAPS_REQUEST@ ==> (r matches ApiAction::FindShow(l) && lookup_matches(
                *info,
                l,
            )),
    {
        if same_text(info.t.as_str(), CAPS_REQUEST) {
            ApiAction::Respond(self.caps())
        } else {
            match &info.tvdbid {
                Some(id) => ApiAction::FindShow(ShowLookup::ByCatalogId(id.clone())),
                None => ApiAction::FindShow(ShowLookup::Any),
            }
        }
    }

    /// The query for the seeds that a search of the show asks for: the
    /// show's seeds, of the asked episode where one is asked for, on the
    /// asked page.
    pub fn seed_query(&self, info: &ApiRequest, tv: &Tv) -> (r: SeedQuery)
        requires
            tv.id is Some,
            !pageless(*info),
        ensures
            r.tv_id == tv.id->0,
            r.ep == (match info.ep {
                Some(e) => Some(e as i64),
                None => None,
            }),
            r.page == search_page(*info),
    {
        let tv_id: i64 = tv.id.unwrap();
        let offset: u64 = match info.offset {
            Some(o) => o,
            None => 0,
        };
        let limit: u64 = match info.limit {
            Some(l) => l,
            None => DEFAULT_LIMIT,
        };
        let ep: Option<i64> = match info.ep {
            Some(e) => Some(e as i64),
            None => None,
        };
        SeedQuery { tv_id, ep, page: page(offset, limit) }
    }

    /// The feed of the given seeds, each item dated `date`.
    pub fn feed(&self, seeds: &Vec<TvSeed>, date: &str) -> (r: String)
        requires
            listable(seeds@),
        ensures
            r@ == feed_text(seed_views(seeds@), date@),
    {
        let mut w = new_writer(true);
        write_head(&mut w);
        let ghost head = written(w);
        let mut i: usize = 0;
        proof {
            assert(head =~= feed_head());
            assert(seed_views(seeds@).take(0) =~= Seq::<TvSeedView>::empty());
            assert(head + feed_items(Seq::<TvSeedView>::empty(), date@) =~= head);
        }
        while i < seeds.len()
            invariant
                i <= seeds.len(),
                listable(seeds@),
                indenting(w),
                open_depth(written(w)) == 2,
                written(w) == feed_head() + feed_items(
                    seed_views(seeds@).take(i as int),
                    date@,
                ),
            decreases seeds.len() - i,
        {
            let seed = &seeds[i];
            proof {
                let all = seed_views(seeds@);
                assert(all.take(i + 1).drop_last() =~= all.take(i as int));
                assert(all.take(i + 1).last() == seed@);
            }
            let name = seed.name.as_ref().unwrap().as_str();
            let url = seed.url.as_ref().unwrap().as_str();
            write_item(&mut w, name, url, date);
            assert(written(w) =~= feed_head() + feed_items(
                seed_views(seeds@).take(i + 1),
                date@,
            ));
            i += 1;
        }
        proof {
            assert(seed_views(seeds@).take(seeds.len() as int) =~= seed_views(seeds@));
            lemma_depth_push(written(w), Markup::Close);
        }
        let ghost body = written(w);
        close_element(&mut w);
        close_element(&mut w);
        assert(written(w) =~= body + seq![Markup::Close, Markup::Close]);
        finish(w)
    }

    /// The feed of the given seeds, each item dated one day before now. A
    /// feed without items bears no date, so an empty listing is answered
    /// whatever the clock shows. With items to date, nothing is returned
    /// where the clock shows a time whose day before cannot be written.
    pub fn search(&self, seeds: &Vec<TvSeed>) -> (r: Option<String>)
        requires
            listable(seeds@),
        ensures
            seeds@.len() == 0 ==> opt_text(r) == Some(empty_feed_text()),
            seeds@.len() > 0 ==> (r matches Some(s) ==> exists|now: i64|
                pub_date_text(now) is Some && s@ == feed_text(
                    seed_views(seeds@),
                    (#[trigger] pub_date_text(now))->0,
                )),
    {
        if seeds.len() == 0 {
            let s = self.feed(seeds, "");
            proof {
                assert(seed_views(seeds@) =~= Seq::<TvSeedView>::empty());
                lemma_feed_without_items(""@);
            }
            return Some(s);
        }
        match pub_date() {
            Some(date) => {
                let s = self.feed(seeds, date.as_str());
                proof {
                    let now = choose|now: i64| Some(date@) == #[trigger] pub_date_text(now);
                    assert(pub_date_text(now) is Some);
                }
                Some(s)
            },
            None => None,
        }
    }
}

/// With an episode asked for, the query wants only seeds of that episode;
/// with none asked for, it wants every seed of the show.
pub proof fn lemma_query_wants(info: ApiRequest, tv_id: i64, q: SeedQuery, s: TvSeedView)
    requires
        q.tv_id == tv_id,
        q.ep == (match info.ep {
            Some(e) => Some(e as i64),
            None => None,
        }),
    ensures
        info.ep is Some ==> (wanted(q.tv_id, q.ep)(s) <==> s.tv_id == Some(tv_id) && s.ep == Some(
            info.ep->0 as i64,
        )),
        info.ep is None ==> (wanted(q.tv_id, q.ep)(s) <==> s.tv_id == Some(tv_id)),
{
}

} // verus!
