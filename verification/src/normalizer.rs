//! The normalizer: cleaning titles, reading episode numbers by an ordered
//! cascade of rules, and building the entry that becomes a seed.

use vstd::prelude::*;

use crate::magnet::canonical_text;
use crate::model::opt_text;
use crate::pattern::{first_group, regex_capture};
use crate::resolver::{Data, DataView, ResolveError};
use crate::text::{
    chars_of, decimal, decimal_digits, decimal_value, lemma_decimal_round_trip,
    lemma_replace_absent, occurs_at, parse_u64, push_all, push_str, replace, replace_all,
    string_of,
};

verus! {

/// The episode rule of Chinese listings: the number between the ordinal
/// prefix and the word for episode.
pub const CHINESE_RULE: &'static str = "第(\\d+)集";

/// The episode rule `EP` and a number.
pub const EP_RULE: &'static str = "EP(\\d+)";

/// The episode rule `E` and a number.
pub const E_RULE: &'static str = "E(\\d+)";

/// The resolution token that listings use.
pub const RESOLUTION_TOKEN: &'static str = "HD1080p";

/// What the resolution token is rewritten to.
pub const RESOLUTION_TAG: &'static str = "[HDTV-1080p]";

/// The file suffix that is deleted from titles.
pub const FILE_SUFFIX: &'static str = ".mp4";

/// The episode number that a captured run of digits denotes: nothing unless
/// it is a decimal number that fits the episode type.
pub open spec fn parsed_episode(digits: Seq<char>) -> Option<i64> {
    match decimal_value(digits, i64::MAX as nat) {
        Some(n) => Some(n as i64),
        None => None,
    }
}

/// The capture that decides: that of the first rule that matched.
pub open spec fn deciding_capture(
    first: Option<Seq<char>>,
    second: Option<Seq<char>>,
    third: Option<Seq<char>>,
) -> Option<Seq<char>> {
    if first is Some {
        first
    } else if second is Some {
        second
    } else {
        third
    }
}

/// The episode number, given what each of the three rules captured.
pub open spec fn episode_from(
    first: Option<Seq<char>>,
    second: Option<Seq<char>>,
    third: Option<Seq<char>>,
) -> Option<i64> {
    match deciding_capture(first, second, third) {
        Some(digits) => parsed_episode(digits),
        None => None,
    }
}

/// The episode number of a title: the rules are tried in the order Chinese,
/// `EP`, `E`, and the first that matches decides.
pub open spec fn episode_of(title: Seq<char>) -> Option<i64> {
    episode_from(
        regex_capture(CHINESE_RULE@, title),
        regex_capture(EP_RULE@, title),
        regex_capture(E_RULE@, title),
    )
}

/// Reads a captured run of digits as an episode number.
pub fn parse_episode(digits: &str) -> (r: Option<i64>)
    ensures
        r == parsed_episode(digits@),
{
    let d = chars_of(digits);
    match parse_u64(&d) {
        Some(n) => {
            if n <= 0x7fff_ffff_ffff_ffff {
                Some(n as i64)
            } else {
                None
            }
        },
        None => None,
    }
}

/// The episode number, given what each of the three rules captured: the
/// capture of the first rule that matched is read as a number.
pub fn pick_episode(
    first: Option<String>,
    second: Option<String>,
    third: Option<String>,
) -> (r: Option<i64>)
    ensures
        r == episode_from(opt_text(first), opt_text(second), opt_text(third)),
{
    match first {
        Some(digits) => parse_episode(digits.as_str()),
        None => match second {
            Some(digits) => parse_episode(digits.as_str()),
            None => match third {
                Some(digits) => parse_episode(digits.as_str()),
                None => None,
            },
        },
    }
}

/// The episode number of a title, or the failure that names the title. A
/// rule is tried only where no rule before it matched.
pub fn extra_ep(name: &str) -> (r: Result<i64, ResolveError>)
    ensures
        r matches Ok(n) ==> episode_of(name@) == Some(n),
        r matches Err(e) ==> episode_of(name@) is None && (e matches ResolveError::EpParseFailure(
            s,
        ) && s@ == name@),
{
    let first = first_group(CHINESE_RULE, name);
    let second = if first.is_none() {
        first_group(EP_RULE, name)
    } else {
        None
    };
    let third = if first.is_none() && second.is_none() {
        first_group(E_RULE, name)
    } else {
        None
    };
    match pick_episode(first, second, third) {
        Some(n) => Ok(n),
        None => Err(ResolveError::EpParseFailure(name.to_owned())),
    }
}

/// Where the first rule captures something, that capture alone decides:
/// nothing that a later rule captures changes the result.
pub proof fn lemma_first_rule_decides(
    digits: Seq<char>,
    second: Option<Seq<char>>,
    third: Option<Seq<char>>,
)
    ensures
        episode_from(Some(digits), second, third) == parsed_episode(digits),
{
}

/// A title in which the Chinese rule captures the decimal notation of `n`
/// has the episode number `n`.
pub proof fn lemma_chinese_rule_wins(title: Seq<char>, n: i64)
    requires
        n >= 0,
        regex_capture(CHINESE_RULE@, title) == Some(decimal(n as nat)),
    ensures
        episode_of(title) == Some(n),
{
    lemma_decimal_round_trip(n as nat);
}

/// The title cleaned up: the resolution token rewritten to its tag, then
/// every file suffix deleted.
pub open spec fn cleaned(title: Seq<char>) -> Seq<char> {
    replace_all(
        replace_all(title, RESOLUTION_TOKEN@, RESOLUTION_TAG@),
        FILE_SUFFIX@,
        Seq::empty(),
    )
}

/// Cleans up a title.
pub fn cleanup(title: &str) -> (r: String)
    ensures
        r@ == cleaned(title@),
{
    let text = chars_of(title);
    let token = chars_of(RESOLUTION_TOKEN);
    let tag = chars_of(RESOLUTION_TAG);
    let suffix = chars_of(FILE_SUFFIX);
    let nothing: Vec<char> = Vec::new();
    let tagged = replace(&text, &token, &tag);
    let bare = replace(&tagged, &suffix, &nothing);
    string_of(&bare)
}

/// A title that holds neither the resolution token nor the file suffix is
/// clean as it is.
pub proof fn lemma_plain_title_is_clean(title: Seq<char>)
    requires
        forall|at: int| !occurs_at(title, at, RESOLUTION_TOKEN@),
        forall|at: int| !occurs_at(title, at, FILE_SUFFIX@),
    ensures
        cleaned(title) == title,
{
    lemma_replace_absent(title, RESOLUTION_TOKEN@, RESOLUTION_TAG@);
    lemma_replace_absent(title, FILE_SUFFIX@, Seq::empty());
}

/// The release name of episode `ep` of a show. The season is always the
/// first.
pub open spec fn release_name(show: Seq<char>, ep: i64, title: Seq<char>) -> Seq<char> {
    show + " S01E"@ + decimal(ep as nat) + " - "@ + decimal(ep as nat) + " - [chinese] - "@
        + title + " - Wkavu"@
}

/// The name of a normalized entry: the release name where the episode is
/// positive, else the cleaned title as it is.
pub open spec fn entry_name(show: Seq<char>, ep: i64, title: Seq<char>) -> Seq<char> {
    if ep > 0 {
        release_name(show, ep, title)
    } else {
        title
    }
}

/// Builds the normalized entry from a cleaned title, its episode number and
/// its canonical link.
pub fn assemble(show: &str, title: &str, ep: i64, link: String) -> (r: Data)
    ensures
        r@ == (DataView { name: entry_name(show@, ep, title@), url: link@, ep }),
{
    if ep > 0 {
        let number = decimal_digits(ep as u64);
        let mut name: Vec<char> = Vec::new();
        push_str(&mut name, show);
        push_str(&mut name, " S01E");
        push_all(&mut name, &number);
        push_str(&mut name, " - ");
        push_all(&mut name, &number);
        push_str(&mut name, " - [chinese] - ");
        push_str(&mut name, title);
        push_str(&mut name, " - Wkavu");
        assert(name@ =~= release_name(show@, ep, title@));
        Data { name: string_of(&name), url: link, ep }
    } else {
        Data { name: title.to_owned(), url: link, ep }
    }
}

/// The normalized entry, given the cleaned title and what was read from it
/// and from the link: nothing where either is missing.
pub open spec fn entry_of(
    show: Seq<char>,
    title: Seq<char>,
    ep: Option<i64>,
    link: Option<Seq<char>>,
) -> Option<DataView> {
    match (ep, link) {
        (Some(ep), Some(link)) => Some(
            DataView { name: entry_name(show, ep, title), url: link, ep },
        ),
        _ => None,
    }
}

/// Builds the normalized entry from a cleaned title, the episode number read
/// from it and the canonical form of the link. An entry without episode
/// number or without canonical link is dropped.
pub fn entry_from(show: &str, title: &str, ep: Option<i64>, link: Option<String>) -> (r: Option<
    Data,
>)
    ensures
        r is Some <==> ep is Some && link is Some,
        r matches Some(e) ==> Some(e@) == entry_of(show@, title@, ep, opt_text(link)),
{
    match (ep, link) {
        (Some(ep), Some(link)) => Some(assemble(show, title, ep, link)),
        _ => None,
    }
}

/// The normalized form of one entry of a show's listing: nothing where no
/// episode number can be read from the cleaned title, or where the link is
/// no magnet link.
pub open spec fn normalized(show: Seq<char>, d: DataView) -> Option<DataView> {
    let title = cleaned(d.name);
    entry_of(show, title, episode_of(title), canonical_text(d.url))
}

/// The normalized forms of the entries that have one, in the order of the
/// listing.
pub open spec fn normalized_all(show: Seq<char>, entries: Seq<DataView>) -> Seq<DataView>
    decreases entries.len(),
{
    if entries.len() == 0 {
        Seq::empty()
    } else {
        let head = normalized_all(show, entries.drop_last());
        match normalized(show, entries.last()) {
            Some(e) => head.push(e),
            None => head,
        }
    }
}

/// Normalizes one entry of a show's listing. The link is read only where
/// the title has an episode number.
pub fn normalize_entry(show: &str, d: &Data) -> (r: Option<Data>)
    ensures
        r is Some <==> normalized(show@, d@) is Some,
        r matches Some(e) ==> Some(e@) == normalized(show@, d@),
{
    let title = cleanup(d.name.as_str());
    let ep = match extra_ep(title.as_str()) {
        Ok(ep) => Some(ep),
        Err(_) => None,
    };
    let link = if ep.is_some() {
        crate::magnet::canonical(d.url.as_str())
    } else {
        None
    };
    entry_from(show, title.as_str(), ep, link)
}

/// Normalizing drops entries and adds none.
pub proof fn lemma_normalized_all_len(show: Seq<char>, entries: Seq<DataView>)
    ensures
        normalized_all(show, entries).len() <= entries.len(),
    decreases entries.len(),
{
    if entries.len() > 0 {
        lemma_normalized_all_len(show, entries.drop_last());
    }
}

/// Normalizing keeps the order of the listing: the normalized form of two
/// listings one after the other is the normalized form of the first followed
/// by that of the second.
pub proof fn lemma_normalized_all_concat(
    show: Seq<char>,
    first: Seq<DataView>,
    second: Seq<DataView>,
)
    ensures
        normalized_all(show, first + second) == normalized_all(show, first) + normalized_all(
            show,
            second,
        ),
    decreases second.len(),
{
    if second.len() == 0 {
        assert(first + second =~= first);
        assert(normalized_all(show, first) + normalized_all(show, second) =~= normalized_all(
            show,
            first,
        ));
    } else {
        lemma_normalized_all_concat(show, first, second.drop_last());
        assert((first + second).drop_last() =~= first + second.drop_last());
        assert((first + second).last() == second.last());
        let head = normalized_all(show, first) + normalized_all(show, second.drop_last());
        match normalized(show, second.last()) {
            Some(e) => {
                assert(head.push(e) =~= normalized_all(show, first) + normalized_all(
                    show,
                    second.drop_last(),
                ).push(e));
            },
            None => {},
        }
    }
}

/// Every normalized entry carries the episode number read from its cleaned
/// title, which is never negative.
pub proof fn lemma_normalized_episode(show: Seq<char>, d: DataView)
    requires
        normalized(show, d) is Some,
    ensures
        Some(normalized(show, d)->0.ep) == episode_of(cleaned(d.name)),
        normalized(show, d)->0.ep >= 0,
{
}

} // verus!
