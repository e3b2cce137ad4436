use wkavu::model::{Tv, TvSeed};
use wkavu::resolver::{
    fetch_request, pair_rows, ContentProviderType, Data, DefaultResolver, FetchError,
    FetchRequest, ResolveAction, ResolveError, ResolveEvent, ResolveState, Resolver,
    ResolverDefine, ResolverRowSelectorDefine, ResolverRowsDefine, ResolverSearchDefine,
    USER_AGENT,
};
use wkavu::store::SeedTable;

const LINK_A: &str = "magnet:?xt=urn:btih:aaaaaaaaaaaaaaaaaaaaaaaaaaaaaaaaaaaaaaaa&dn=a&tr=udp%3A%2F%2Ft.example%3A1";
const LINK_B: &str = "magnet:?xt=urn:btih:bbbbbbbbbbbbbbbbbbbbbbbbbbbbbbbbbbbbbbbb&dn=b";
const CANON_A: &str = "magnet:?xt=urn:btih:aaaaaaaaaaaaaaaaaaaaaaaaaaaaaaaaaaaaaaaa";
const CANON_B: &str = "magnet:?xt=urn:btih:bbbbbbbbbbbbbbbbbbbbbbbbbbbbbbbbbbbbbbbb";

fn define(id: &str, domains: &[&str], provider: Option<ContentProviderType>) -> ResolverDefine {
    ResolverDefine {
        id: id.to_string(),
        name: id.to_string(),
        domains: domains.iter().map(|d| d.to_string()).collect(),
        timeout: 15,
        search: ResolverSearchDefine {
            wait: Some("div.list".to_string()),
            rows: ResolverRowsDefine {
                selector: "ul.list li a".to_string(),
                title: ResolverRowSelectorDefine { attr: Some("title".to_string()) },
                url: ResolverRowSelectorDefine { attr: Some("href".to_string()) },
            },
        },
        provider,
    }
}

fn registry() -> DefaultResolver {
    DefaultResolver::new(vec![
        define("first", &["https://a.example/", "https://b.example/"], None),
        define("second", &["https://a.example/shows/", "https://c.example/"], Some(ContentProviderType::Reqwest)),
    ])
    .unwrap()
}

fn show_at(id: i64, url: &str) -> Tv {
    Tv {
        id: Some(id),
        tvdbid: Some("81189".to_string()),
        tvname: Some("Show".to_string()),
        url: Some(url.to_string()),
        name: Some("show".to_string()),
    }
}

fn page_of(rows: &[(&str, Option<&str>)]) -> String {
    let mut s = String::from("<html><body><div class=\"list\"><ul class=\"list\">");
    for (title, link) in rows {
        match link {
            Some(l) => s.push_str(&format!("<li><a title=\"{}\" href=\"{}\">text of {}</a></li>", title, l, title)),
            None => s.push_str(&format!("<li><a title=\"{}\">text of {}</a></li>", title, title)),
        }
    }
    s.push_str("</ul></div></body></html>");
    s
}

fn old_seed(tv_id: i64, ep: i64) -> TvSeed {
    TvSeed {
        id: Some(100 + ep),
        tv_id: Some(tv_id),
        ep: Some(ep),
        url: Some(format!("magnet:?xt=urn:btih:old{}", ep)),
        name: Some(format!("old {}", ep)),
    }
}

fn run(sites: &DefaultResolver, tv: Option<Tv>, fetched: Result<String, FetchError>, store: &mut SeedTable) -> Result<usize, ResolveError> {
    let resolver = Resolver::new();
    let (mut state, mut action) = resolver.fetch_by_tv(sites, ResolveState::Idle, ResolveEvent::Requested(tv));
    let mut fetched = Some(fetched);
    loop {
        let event = match action {
            ResolveAction::Fetch(_) => ResolveEvent::Fetched(fetched.take().unwrap()),
            ResolveAction::Continue => ResolveEvent::Continued,
            ResolveAction::Replace { tv_id, seeds } => {
                store.replace(tv_id, seeds);
                ResolveEvent::Persisted
            },
            ResolveAction::Finish(outcome) => {
                assert!(matches!(state, ResolveState::Idle));
                return outcome;
            },
        };
        let next = resolver.fetch_by_tv(sites, state, event);
        state = next.0;
        action = next.1;
    }
}

#[test]
fn test_load() {
    let resolver = DefaultResolver::new(vec![define("domp4", &["https://www.domp4.cc/"], None)]);
    // Ensure that the resolver is created successfully
    assert!(resolver.is_ok());
    assert_eq!(resolver.unwrap().defines.len(), 1);
}

#[test]
fn load_keeps_the_order_of_the_definitions() {
    let r = registry();
    assert_eq!(r.defines.len(), 2);
    assert_eq!(r.defines[0].id, "first");
    assert_eq!(r.defines[1].id, "second");
    assert!(DefaultResolver::new(Vec::new()).unwrap().defines.is_empty());
}

#[test]
fn load_refuses_a_selector_that_does_not_parse() {
    let mut bad = define("bad", &["https://x.example/"], None);
    bad.search.rows.selector = "ul li >".to_string();
    let mut worse = define("worse", &["https://y.example/"], None);
    worse.search.rows.selector = "[[".to_string();
    let r = DefaultResolver::new(vec![define("good", &["https://a.example/"], None), bad, worse]);
    match r {
        Err(ResolveError::DefinitionParse(what)) => assert_eq!(what, "ul li >"),
        other => panic!("{:?}", other),
    }
}

#[test]
fn first_definition_in_load_order_wins() {
    let r = registry();
    assert_eq!(r.find_define("https://a.example/shows/12"), Some(0));
    assert_eq!(r.find_define("https://b.example/x"), Some(0));
    assert_eq!(r.find_define("https://c.example/"), Some(1));
    assert_eq!(r.find_define("https://c.example/list?page=2"), Some(1));
}

#[test]
fn address_that_no_prefix_begins_has_no_definition() {
    let r = registry();
    assert_eq!(r.find_define("https://d.example/"), None);
    assert_eq!(r.find_define("https://a.example"), None);
    assert_eq!(r.find_define("x https://a.example/"), None);
    assert_eq!(r.find_define(""), None);
    assert_eq!(DefaultResolver::new(Vec::new()).unwrap().find_define("https://a.example/"), None);
}

#[test]
fn empty_prefix_serves_every_address() {
    let r = DefaultResolver::new(vec![
        define("none", &[], None),
        define("all", &["https://q.example/", ""], None),
    ])
    .unwrap();
    assert_eq!(r.find_define("anything"), Some(1));
    assert_eq!(r.find_define(""), Some(1));
}

#[test]
fn browser_is_the_default_provider() {
    let d = define("d", &["https://a.example/"], None);
    match fetch_request(&d, "https://a.example/1") {
        FetchRequest::BrowserRendered { url, wait } => {
            assert_eq!(url, "https://a.example/1");
            let wait = wait.unwrap();
            assert_eq!(wait.selector, "div.list");
            assert_eq!(wait.timeout_secs, 15);
        },
        other => panic!("{:?}", other),
    }
    let mut d = define("d", &["https://a.example/"], Some(ContentProviderType::Chrome));
    d.search.wait = None;
    match fetch_request(&d, "https://a.example/1") {
        FetchRequest::BrowserRendered { url, wait } => {
            assert_eq!(url, "https://a.example/1");
            assert!(wait.is_none());
        },
        other => panic!("{:?}", other),
    }
}

#[test]
fn plain_request_carries_the_browser_identification() {
    let d = define("d", &["https://a.example/"], Some(ContentProviderType::Reqwest));
    match fetch_request(&d, "https://a.example/1") {
        FetchRequest::PlainHttp { url, user_agent } => {
            assert_eq!(url, "https://a.example/1");
            assert_eq!(user_agent, USER_AGENT);
            assert!(user_agent.starts_with("Mozilla/5.0 (Macintosh;"));
        },
        other => panic!("{:?}", other),
    }
}

#[test]
fn extract_takes_title_and_link_from_attributes() {
    let r = registry();
    let markup = page_of(&[("第1集", Some(LINK_A)), ("第2集", Some(LINK_B))]);
    let rows = r.extract(&markup, &r.defines[0].search).unwrap();
    assert_eq!(rows.len(), 2);
    assert_eq!(rows[0].name, "第1集");
    assert_eq!(rows[0].url, LINK_A);
    assert_eq!(rows[0].ep, -1);
    assert_eq!(rows[1].name, "第2集");
    assert_eq!(rows[1].url, LINK_B);
}

#[test]
fn extract_takes_the_title_from_the_text_where_no_attribute_is_named() {
    let r = registry();
    let mut search = define("d", &[], None).search;
    search.rows.title.attr = None;
    let markup = page_of(&[("第1集", Some(LINK_A))]);
    let rows = r.extract(&markup, &search).unwrap();
    assert_eq!(rows.len(), 1);
    assert_eq!(rows[0].name, "text of 第1集");
    assert_eq!(rows[0].url, LINK_A);
}

#[test]
fn extract_drops_rows_without_link() {
    let r = registry();
    let markup = page_of(&[("第1集", None), ("第2集", Some(LINK_B)), ("第3集", None)]);
    let rows = r.extract(&markup, &r.defines[0].search).unwrap();
    assert_eq!(rows.len(), 1);
    assert_eq!(rows[0].name, "第2集");
    let mut search = define("d", &[], None).search;
    search.rows.url.attr = None;
    assert!(r.extract(&markup, &search).unwrap().is_empty());
}

#[test]
fn extract_of_a_page_without_rows_is_empty() {
    let r = registry();
    assert!(r.extract("<html><body><p>nothing</p></body></html>", &r.defines[0].search).unwrap().is_empty());
    assert!(r.extract("", &r.defines[0].search).unwrap().is_empty());
}

#[test]
fn extract_fails_on_a_selector_that_does_not_parse() {
    let r = registry();
    let mut search = define("d", &[], None).search;
    search.rows.selector = "a[".to_string();
    match r.extract(&page_of(&[("第1集", Some(LINK_A))]), &search) {
        Err(ResolveError::DefinitionParse(what)) => assert_eq!(what, "a["),
        other => panic!("{:?}", other),
    }
    search.rows.title.attr = None;
    assert!(r.extract("", &search).is_err());
    search.rows.url.attr = None;
    assert!(r.extract("", &search).is_err());
}

#[test]
fn pair_rows_passes_over_rows_that_lack_title_or_link() {
    let t = |s: &str| Some(s.to_string());
    let rows = vec![(t("a"), t("1")), (None, t("2")), (t("c"), None), (t("d"), t("4")), (None, None)];
    let entries = pair_rows(&rows);
    assert_eq!(entries.len(), 2);
    assert_eq!((entries[0].name.as_str(), entries[0].url.as_str(), entries[0].ep), ("a", "1", -1));
    assert_eq!((entries[1].name.as_str(), entries[1].url.as_str(), entries[1].ep), ("d", "4", -1));
    assert!(pair_rows(&Vec::new()).is_empty());
}

#[test]
fn resolution_replaces_the_seeds_of_the_show() {
    let sites = registry();
    let mut store = SeedTable::new();
    store.save(old_seed(7, 1));
    store.save(old_seed(8, 1));
    store.save(old_seed(7, 2));
    let markup = page_of(&[("第3集.mp4", Some(LINK_A)), ("预告", Some(LINK_A)), ("第4集", Some(LINK_B)), ("第5集", None)]);
    let outcome = run(&sites, Some(show_at(7, "https://a.example/shows/7")), Ok(markup), &mut store);
    assert_eq!(outcome.unwrap(), 2);
    assert_eq!(store.rows.len(), 3);
    assert_eq!(store.rows[0].tv_id, Some(8));
    assert_eq!(store.rows[0].name.as_deref(), Some("old 1"));
    let fresh: Vec<&TvSeed> = store.rows.iter().filter(|s| s.tv_id == Some(7)).collect();
    assert_eq!(fresh.len(), 2);
    assert_eq!(fresh[0].id, None);
    assert_eq!(fresh[0].ep, Some(3));
    assert_eq!(fresh[0].name.as_deref(), Some("Show S01E3 - 3 - [chinese] - 第3集 - Wkavu"));
    assert_eq!(fresh[0].url.as_deref(), Some(CANON_A));
    assert_eq!(fresh[1].ep, Some(4));
    assert_eq!(fresh[1].name.as_deref(), Some("Show S01E4 - 4 - [chinese] - 第4集 - Wkavu"));
    assert_eq!(fresh[1].url.as_deref(), Some(CANON_B));
}

#[test]
fn show_without_definition_keeps_its_seeds() {
    let sites = registry();
    let mut store = SeedTable::new();
    store.save(old_seed(7, 1));
    store.save(old_seed(7, 2));
    let outcome = run(&sites, Some(show_at(7, "https://unknown.example/7")), Ok(page_of(&[("第3集", Some(LINK_A))])), &mut store);
    assert!(matches!(outcome, Err(ResolveError::NoDefinitionMatched)));
    assert_eq!(store.rows.len(), 2);
    assert_eq!(store.rows[0].name.as_deref(), Some("old 1"));
    assert_eq!(store.rows[1].name.as_deref(), Some("old 2"));
}

#[test]
fn empty_listing_does_not_wipe_the_seeds() {
    let sites = registry();
    let mut store = SeedTable::new();
    store.save(old_seed(7, 1));
    store.save(old_seed(7, 2));
    let outcome = run(&sites, Some(show_at(7, "https://a.example/7")), Ok(page_of(&[])), &mut store);
    assert_eq!(outcome.unwrap(), 0);
    assert_eq!(store.rows.len(), 2);
    let outcome = run(&sites, Some(show_at(7, "https://a.example/7")), Ok(page_of(&[("预告", Some(LINK_A)), ("第1集", Some("https://no.magnet/"))])), &mut store);
    assert_eq!(outcome.unwrap(), 0);
    assert_eq!(store.rows.len(), 2);
    assert_eq!(store.rows[0].name.as_deref(), Some("old 1"));
    assert_eq!(store.rows[1].name.as_deref(), Some("old 2"));
}

#[test]
fn failed_fetch_keeps_the_seeds() {
    let sites = registry();
    let mut store = SeedTable::new();
    store.save(old_seed(7, 1));
    for e in [FetchError::Timeout, FetchError::Http("503".to_string()), FetchError::Automation("no tab".to_string())] {
        let outcome = run(&sites, Some(show_at(7, "https://a.example/7")), Err(e), &mut store);
        assert!(matches!(outcome, Err(ResolveError::Fetch(_))));
        assert_eq!(store.rows.len(), 1);
    }
    match run(&sites, Some(show_at(7, "https://a.example/7")), Err(FetchError::Http("503".to_string())), &mut store) {
        Err(ResolveError::Fetch(FetchError::Http(what))) => assert_eq!(what, "503"),
        other => panic!("{:?}", other),
    }
}

#[test]
fn missing_show_is_not_found() {
    let sites = registry();
    let mut store = SeedTable::new();
    store.save(old_seed(7, 1));
    let outcome = run(&sites, None, Ok(String::new()), &mut store);
    assert!(matches!(outcome, Err(ResolveError::NotFound)));
    let mut incomplete = show_at(7, "https://a.example/7");
    incomplete.tvname = None;
    let outcome = run(&sites, Some(incomplete), Ok(String::new()), &mut store);
    assert!(matches!(outcome, Err(ResolveError::NotFound)));
    assert_eq!(store.rows.len(), 1);
    let mut bare = show_at(7, "https://a.example/7");
    bare.tvdbid = None;
    bare.name = None;
    assert!(bare.is_resolvable());
    assert!(!bare.is_complete());
    let outcome = run(&sites, Some(bare), Ok(page_of(&[("第1集", Some(LINK_A))])), &mut store);
    assert_eq!(outcome.unwrap(), 1);
}

#[test]
fn resolution_goes_through_its_states_in_order() {
    let sites = registry();
    let resolver = Resolver::new();
    let (state, action) = resolver.fetch_by_tv(&sites, ResolveState::Idle, ResolveEvent::Requested(Some(show_at(7, "https://c.example/7"))));
    match &state {
        ResolveState::Fetching { tv, define } => {
            assert_eq!(tv.id, Some(7));
            assert_eq!(*define, 1);
        },
        other => panic!("{:?}", other),
    }
    match action {
        ResolveAction::Fetch(FetchRequest::PlainHttp { url, .. }) => assert_eq!(url, "https://c.example/7"),
        other => panic!("{:?}", other),
    }
    let markup = page_of(&[("EP1", Some(LINK_A))]);
    let (state, action) = resolver.fetch_by_tv(&sites, state, ResolveEvent::Fetched(Ok(markup.clone())));
    assert!(matches!(action, ResolveAction::Continue));
    match &state {
        ResolveState::Extracting { define, markup: m, .. } => {
            assert_eq!(*define, 1);
            assert_eq!(m, &markup);
        },
        other => panic!("{:?}", other),
    }
    let (state, action) = resolver.fetch_by_tv(&sites, state, ResolveEvent::Continued);
    assert!(matches!(action, ResolveAction::Continue));
    match &state {
        ResolveState::Normalizing { entries, .. } => {
            assert_eq!(entries.len(), 1);
            assert_eq!(entries[0].name, "EP1");
        },
        other => panic!("{:?}", other),
    }
    let (state, action) = resolver.fetch_by_tv(&sites, state, ResolveEvent::Continued);
    assert!(matches!(state, ResolveState::Persisting { count: 1 }));
    match action {
        ResolveAction::Replace { tv_id, seeds } => {
            assert_eq!(tv_id, 7);
            assert_eq!(seeds.len(), 1);
            assert_eq!(seeds[0].tv_id, Some(7));
            assert_eq!(seeds[0].ep, Some(1));
        },
        other => panic!("{:?}", other),
    }
    let (state, action) = resolver.fetch_by_tv(&sites, state, ResolveEvent::Persisted);
    assert!(matches!(state, ResolveState::Idle));
    assert!(matches!(action, ResolveAction::Finish(Ok(1))));
}

#[test]
fn event_out_of_turn_ends_the_resolution() {
    let sites = registry();
    let resolver = Resolver::new();
    let (state, action) = resolver.fetch_by_tv(&sites, ResolveState::Idle, ResolveEvent::Persisted);
    assert!(matches!(state, ResolveState::Idle));
    assert!(matches!(action, ResolveAction::Finish(Err(ResolveError::OutOfTurn))));
    let (state, action) = resolver.fetch_by_tv(&sites, ResolveState::Persisting { count: 3 }, ResolveEvent::Continued);
    assert!(matches!(state, ResolveState::Idle));
    assert!(matches!(action, ResolveAction::Finish(Err(ResolveError::OutOfTurn))));
    let stale = ResolveState::Extracting { tv: show_at(7, "https://a.example/7"), define: 5, markup: String::new() };
    let (state, action) = resolver.fetch_by_tv(&sites, stale, ResolveEvent::Continued);
    assert!(matches!(state, ResolveState::Idle));
    assert!(matches!(action, ResolveAction::Finish(Err(ResolveError::OutOfTurn))));
    let stale = ResolveState::Normalizing { tv: show_at(7, "https://a.example/7"), entries: vec![Data::new("EP1", LINK_A)] };
    let (state, action) = resolver.fetch_by_tv(&sites, stale, ResolveEvent::Fetched(Ok(String::new())));
    assert!(matches!(state, ResolveState::Idle));
    assert!(matches!(action, ResolveAction::Finish(Err(ResolveError::OutOfTurn))));
}

#[test]
fn failures_have_messages_for_the_log() {
    assert_eq!(ResolveError::EpParseFailure("第x集".to_string()).message(), "Can't parse ep for name: 第x集");
    assert_eq!(ResolveError::DefinitionParse("a[".to_string()).message(), "Can't parse selector: a[");
    assert_eq!(ResolveError::NoDefinitionMatched.message(), "No site definition matches the show's url");
    assert_eq!(ResolveError::NotFound.message(), "Show not found");
    assert_eq!(ResolveError::OutOfTurn.message(), "Event out of turn");
    assert_eq!(ResolveError::Fetch(FetchError::Timeout).message(), "Page was not ready in time");
    assert_eq!(ResolveError::Fetch(FetchError::Http("404".to_string())).message(), "Fetch failed: 404");
    assert_eq!(FetchError::Automation("no tab".to_string()).message(), "Browser failed: no tab");
}

#[test]
fn extract_reads_rows_in_document_order() {
    let r = registry();
    let markup = "<ul class=\"list\"><li><a title=\"b\" href=\"2\">x</a></li><li><a title=\"a\" href=\"1\">y</a><a title=\"c\" href=\"3\">z</a></li></ul><a title=\"out\" href=\"0\">w</a>";
    let rows = r.extract(markup, &r.defines[0].search).unwrap();
    let got: Vec<(&str, &str)> = rows.iter().map(|d| (d.name.as_str(), d.url.as_str())).collect();
    assert_eq!(got, vec![("b", "2"), ("a", "1"), ("c", "3")]);
}
