use wkavu::magnet;
use wkavu::model::Tv;
use wkavu::normalizer::{
    assemble, cleanup, entry_from, extra_ep, normalize_entry, parse_episode, pick_episode,
};
use wkavu::resolver::{Data, DefaultResolver, ResolveError};
use wkavu::text::{chars_of, decimal_digits, parse_u64, replace, string_of};

const SINTEL: &str = "magnet:?xt=urn:btih:08ada5a7a6183aae1e09d831df6748d566095a10&dn=Sintel&tr=udp%3A%2F%2Fexplodie.org%3A6969&tr=udp%3A%2F%2Ftracker.coppersurfer.tk%3A6969&ws=https%3A%2F%2Fwebtorrent.io%2Ftorrents%2F";

const SINTEL_CANONICAL: &str = "magnet:?xt=urn:btih:08ada5a7a6183aae1e09d831df6748d566095a10&ws=https%3A%2F%2Fwebtorrent.io%2Ftorrents%2F";

fn show_titled(title: &str) -> Tv {
    Tv {
        id: Some(7),
        tvdbid: Some("81189".to_string()),
        tvname: Some(title.to_string()),
        url: Some("https://example.org/list/7".to_string()),
        name: Some("local name".to_string()),
    }
}

fn sites() -> DefaultResolver {
    match DefaultResolver::new(Vec::new()) {
        Ok(r) => r,
        Err(e) => panic!("{:?}", e),
    }
}

#[test]
fn cleanup_rewrites_token_and_deletes_suffix() {
    assert_eq!(cleanup("Show.HD1080p.mp4"), "Show.[HDTV-1080p]");
}

#[test]
fn cleanup_is_the_same_in_either_order_on_the_example() {
    let text = chars_of("Show.HD1080p.mp4");
    let token = chars_of("HD1080p");
    let tag = chars_of("[HDTV-1080p]");
    let suffix = chars_of(".mp4");
    let nothing: Vec<char> = Vec::new();
    let tag_first = replace(&replace(&text, &token, &tag), &suffix, &nothing);
    let suffix_first = replace(&replace(&text, &suffix, &nothing), &token, &tag);
    assert_eq!(string_of(&tag_first), "Show.[HDTV-1080p]");
    assert_eq!(string_of(&suffix_first), "Show.[HDTV-1080p]");
    assert_eq!(cleanup("Show.HD1080p.mp4"), cleanup("Show.HD1080p.mp4"));
}

#[test]
fn cleanup_deletes_every_suffix() {
    assert_eq!(cleanup("a.mp4b.mp4"), "ab");
    assert_eq!(cleanup("plain title"), "plain title");
    assert_eq!(cleanup(""), "");
}

#[test]
fn replace_goes_left_to_right_without_overlap() {
    let text = chars_of("aaaa");
    let from = chars_of("aa");
    let to = chars_of("b");
    assert_eq!(string_of(&replace(&text, &from, &to)), "bb");
    let text = chars_of("aaa");
    assert_eq!(string_of(&replace(&text, &from, &to)), "ba");
    let none: Vec<char> = Vec::new();
    assert_eq!(string_of(&replace(&text, &none, &to)), "aaa");
}

#[test]
fn chinese_rule_gives_its_number() {
    assert_eq!(extra_ep("某剧 第12集 HD1080p").unwrap(), 12);
    assert_eq!(extra_ep("第3集").unwrap(), 3);
}

#[test]
fn chinese_rule_wins_over_later_rules() {
    assert_eq!(extra_ep("S01E09 EP08 第7集").unwrap(), 7);
    assert_eq!(extra_ep("EP08 第7集 E09").unwrap(), 7);
}

#[test]
fn ep_rule_wins_over_bare_e() {
    assert_eq!(extra_ep("S01E09 EP08").unwrap(), 8);
    assert_eq!(extra_ep("Show EP15").unwrap(), 15);
}

#[test]
fn bare_e_rule_is_the_last_resort() {
    assert_eq!(extra_ep("Show.S01E04.mkv").unwrap(), 4);
    assert_eq!(extra_ep("E0").unwrap(), 0);
}

#[test]
fn title_without_episode_fails_with_its_name() {
    match extra_ep("no number here") {
        Err(ResolveError::EpParseFailure(name)) => assert_eq!(name, "no number here"),
        other => panic!("{:?}", other),
    }
}

#[test]
fn episode_too_large_is_a_failure() {
    assert!(extra_ep("EP99999999999999999999").is_err());
    assert_eq!(extra_ep("EP9223372036854775807").unwrap(), 9223372036854775807);
    assert!(extra_ep("EP9223372036854775808").is_err());
}

#[test]
fn parse_episode_reads_decimal_digits_only() {
    assert_eq!(parse_episode("12"), Some(12));
    assert_eq!(parse_episode("007"), Some(7));
    assert_eq!(parse_episode(""), None);
    assert_eq!(parse_episode("1a"), None);
    assert_eq!(parse_episode("+1"), None);
    assert_eq!(parse_episode("٣"), None);
    assert_eq!(parse_episode("9223372036854775808"), None);
}

#[test]
fn parse_u64_has_the_limit_of_the_type() {
    assert_eq!(parse_u64(&chars_of("18446744073709551615")), Some(u64::MAX));
    assert_eq!(parse_u64(&chars_of("18446744073709551616")), None);
    assert_eq!(parse_u64(&chars_of("000000000000000000000000000001")), Some(1));
}

#[test]
fn decimal_digits_writes_numbers() {
    assert_eq!(string_of(&decimal_digits(0)), "0");
    assert_eq!(string_of(&decimal_digits(9)), "9");
    assert_eq!(string_of(&decimal_digits(10)), "10");
    assert_eq!(string_of(&decimal_digits(1234567890)), "1234567890");
    assert_eq!(string_of(&decimal_digits(u64::MAX)), "18446744073709551615");
    assert_eq!(parse_u64(&decimal_digits(40213)), Some(40213));
}

#[test]
fn canonical_magnet_has_no_name_and_no_trackers() {
    assert_eq!(magnet::canonical(SINTEL).as_deref(), Some(SINTEL_CANONICAL));
}

#[test]
fn canonical_magnet_is_a_fixed_point() {
    let once = magnet::canonical(SINTEL).unwrap();
    let twice = magnet::canonical(&once).unwrap();
    assert_eq!(once, twice);
    assert_eq!(magnet::canonical(SINTEL_CANONICAL).as_deref(), Some(SINTEL_CANONICAL));
}

#[test]
fn same_content_from_two_listings_has_one_canonical_link() {
    let a = "magnet:?xt=urn:btih:da826adb2ba4933500d83c19bbdfa73ee28f34d5&dn=one&tr=udp%3A%2F%2Fa.example%3A1";
    let b = "magnet:?xt=urn:btih:da826adb2ba4933500d83c19bbdfa73ee28f34d5&dn=two&tr=udp%3A%2F%2Fb.example%3A2&tr=udp%3A%2F%2Fc.example%3A3";
    assert_eq!(magnet::canonical(a), magnet::canonical(b));
    assert_eq!(
        magnet::canonical(a).as_deref(),
        Some("magnet:?xt=urn:btih:da826adb2ba4933500d83c19bbdfa73ee28f34d5")
    );
}

#[test]
fn canonical_magnet_keeps_the_length() {
    let link = "magnet:?xt=urn:btih:da826adb2ba4933500d83c19bbdfa73ee28f34d5&dn=x&xl=1048576&tr=udp%3A%2F%2Fa.example%3A1";
    assert_eq!(
        magnet::canonical(link).as_deref(),
        Some("magnet:?xt=urn:btih:da826adb2ba4933500d83c19bbdfa73ee28f34d5&xl=1048576")
    );
}

#[test]
fn text_that_is_no_magnet_has_no_canonical_form() {
    assert_eq!(magnet::canonical("https://example.com"), None);
    assert_eq!(magnet::canonical(""), None);
    assert!(magnet::parse("https://example.com").is_none());
}

#[test]
fn magnet_with_unreadable_length_has_no_canonical_form() {
    assert!(!magnet::length_is_readable("magnet:?xt=urn:btih:abc&xl=&dn=x"));
    assert!(!magnet::length_is_readable("magnet:?xl=99999999999999999999999&dn=x"));
    assert!(magnet::length_is_readable("magnet:?xt=urn:btih:abc&xl=12&dn=x"));
    assert!(magnet::length_is_readable("magnet:?xt=urn:btih:abc&dn=x"));
    assert_eq!(magnet::canonical("magnet:?xt=urn:btih:abc&xl=&dn=x"), None);
    assert_eq!(magnet::canonical("magnet:?xl=99999999999999999999999"), None);
}

#[test]
fn magnet_fields_are_read() {
    let p = magnet::parse(SINTEL).unwrap();
    assert_eq!(p.dn.as_deref(), Some("Sintel"));
    assert_eq!(p.hash_type.as_deref(), Some("btih"));
    assert_eq!(p.xt.as_deref(), Some("08ada5a7a6183aae1e09d831df6748d566095a10"));
    assert_eq!(p.xl, None);
    assert_eq!(p.tr.len(), 2);
    assert_eq!(p.tr[0], "udp%3A%2F%2Fexplodie.org%3A6969");
    let s = p.strip();
    assert_eq!(s.dn, None);
    assert!(s.tr.is_empty());
    assert_eq!(s.xt.as_deref(), Some("08ada5a7a6183aae1e09d831df6748d566095a10"));
    assert_eq!(s.ws.as_deref(), Some("https%3A%2F%2Fwebtorrent.io%2Ftorrents%2F"));
}

#[test]
fn release_name_follows_the_formula() {
    let d = assemble("Some Show", "第3集.[HDTV-1080p]", 3, "magnet:?xt=urn:btih:abc".to_string());
    assert_eq!(d.name, "Some Show S01E3 - 3 - [chinese] - 第3集.[HDTV-1080p] - Wkavu");
    assert_eq!(d.ep, 3);
    assert_eq!(d.url, "magnet:?xt=urn:btih:abc");
    let d = assemble("Some Show", "t", 120, String::new());
    assert_eq!(d.name, "Some Show S01E120 - 120 - [chinese] - t - Wkavu");
}

#[test]
fn episode_zero_keeps_the_cleaned_title() {
    let d = assemble("Some Show", "E0 special", 0, "magnet:?xt=urn:btih:abc".to_string());
    assert_eq!(d.name, "E0 special");
    assert_eq!(d.ep, 0);
}

#[test]
fn new_entry_has_no_episode_yet() {
    let d = Data::new("title", "link");
    assert_eq!(d.name, "title");
    assert_eq!(d.url, "link");
    assert_eq!(d.ep, -1);
}

#[test]
fn normalize_entry_does_all_four_steps() {
    let d = Data::new("某剧.第12集.HD1080p.mp4", SINTEL);
    let n = normalize_entry("某剧", &d).unwrap();
    assert_eq!(n.ep, 12);
    assert_eq!(n.name, "某剧 S01E12 - 12 - [chinese] - 某剧.第12集.[HDTV-1080p] - Wkavu");
    assert_eq!(n.url, SINTEL_CANONICAL);
}

#[test]
fn normalize_entry_reads_the_episode_from_the_cleaned_title() {
    let d = Data::new("E1.mp42", SINTEL);
    let n = normalize_entry("S", &d).unwrap();
    assert_eq!(n.ep, 12);
    assert_eq!(n.name, "S S01E12 - 12 - [chinese] - E12 - Wkavu");
}

#[test]
fn normalize_drops_unparsed_entries_and_keeps_the_order() {
    let datas = vec![
        Data::new("第2集", SINTEL),
        Data::new("trailer", SINTEL),
        Data::new("第1集", "https://example.com/not-a-magnet"),
        Data::new("EP3.mp4", SINTEL),
    ];
    let out = sites().normalize(&show_titled("Show"), datas);
    assert_eq!(out.len(), 2);
    assert_eq!(out[0].ep, 2);
    assert_eq!(out[0].name, "Show S01E2 - 2 - [chinese] - 第2集 - Wkavu");
    assert_eq!(out[0].url, SINTEL_CANONICAL);
    assert_eq!(out[1].ep, 3);
    assert_eq!(out[1].name, "Show S01E3 - 3 - [chinese] - EP3 - Wkavu");
}

#[test]
fn normalize_of_nothing_is_nothing() {
    let out = sites().normalize(&show_titled("Show"), Vec::new());
    assert!(out.is_empty());
}

#[test]
fn first_capture_decides_the_episode() {
    let c = |s: &str| Some(s.to_string());
    assert_eq!(pick_episode(c("7"), c("8"), c("9")), Some(7));
    assert_eq!(pick_episode(None, c("8"), c("9")), Some(8));
    assert_eq!(pick_episode(None, None, c("9")), Some(9));
    assert_eq!(pick_episode(None, None, None), None);
    assert_eq!(pick_episode(c("x"), c("8"), c("9")), None);
    assert_eq!(pick_episode(c(""), c("8"), None), None);
    assert_eq!(pick_episode(None, c("99999999999999999999"), c("9")), None);
}

#[test]
fn entry_without_episode_or_link_is_dropped() {
    let link = || Some("magnet:?xt=urn:btih:abc".to_string());
    let e = entry_from("Show", "第2集", Some(2), link()).unwrap();
    assert_eq!(e.name, "Show S01E2 - 2 - [chinese] - 第2集 - Wkavu");
    assert_eq!(e.url, "magnet:?xt=urn:btih:abc");
    assert_eq!(e.ep, 2);
    assert!(entry_from("Show", "第2集", None, link()).is_none());
    assert!(entry_from("Show", "第2集", Some(2), None).is_none());
    assert!(entry_from("Show", "第2集", None, None).is_none());
    let e = entry_from("Show", "E0", Some(0), link()).unwrap();
    assert_eq!(e.name, "E0");
}

#[test]
fn canonical_magnet_writes_every_other_field_in_its_place() {
    let link = "magnet:?xt=urn:sha1:ABCDEF&dn=n&xl=5&tr=t1&tr=t2&ws=w&xs=x1&kt=k&as=a1&mt=m1";
    let p = magnet::parse(link).unwrap();
    assert_eq!(p.hash_type.as_deref(), Some("sha1"));
    assert_eq!(p.xl, Some(5));
    assert_eq!(p.tr, vec!["t1".to_string(), "t2".to_string()]);
    assert_eq!(p.acceptable_source.as_deref(), Some("a1"));
    assert_eq!(p.mt.as_deref(), Some("m1"));
    assert_eq!(
        magnet::canonical(link).as_deref(),
        Some("magnet:?xt=urn:sha1:ABCDEF&xl=5&ws=w&xs=x1&kt=k&as=a1&mt=m1")
    );
    assert_eq!(magnet::canonical("magnet:?").as_deref(), Some("magnet:?"));
    assert_eq!(magnet::canonical("magnet:?xl=0").as_deref(), Some("magnet:?&xl=0"));
}

#[test]
fn canonical_form_is_not_always_a_fixed_point() {
    // The reader finds fields anywhere in the text, so a field that stands
    // inside another one can come out differently the second time.
    let once = magnet::canonical("magnet:?kt=v1&ws=kt=v2").unwrap();
    assert_eq!(once, "magnet:?&ws=kt=v2&kt=v1");
    let twice = magnet::canonical(&once).unwrap();
    assert_eq!(twice, "magnet:?&ws=kt=v2&kt=v2");
    assert_eq!(magnet::canonical(&twice).unwrap(), twice);
}
