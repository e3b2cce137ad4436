//! Selecting rows from page markup, done by the `scraper` crate.
//!
//! A parsed document cannot be held by verified code, so each function here
//! goes from text to text: markup and selector in, what was asked of each
//! selected element out.

use scraper::{Html, Selector};
use vstd::prelude::*;

use crate::model::opt_text;

verus! {

/// Two values taken from one selected element, each of which may be missing.
pub type RowPair = (Option<String>, Option<String>);

/// The first value of each pair.
pub open spec fn firsts(rows: Seq<RowPair>) -> Seq<Option<Seq<char>>> {
    rows.map_values(|p: RowPair| opt_text(p.0))
}

/// The second value of each pair.
pub open spec fn seconds(rows: Seq<RowPair>) -> Seq<Option<Seq<char>>> {
    rows.map_values(|p: RowPair| opt_text(p.1))
}

/// Whether the text is a selector group that the selector parser accepts.
pub uninterp spec fn selector_parses(selector: Seq<char>) -> bool;

/// For each element of the parsed markup that the selector selects, in
/// document order, the value of its attribute `attr`, where it has that
/// attribute.
pub uninterp spec fn selected_attrs(
    markup: Seq<char>,
    selector: Seq<char>,
    attr: Seq<char>,
) -> Seq<Option<Seq<char>>>;

/// For each element of the parsed markup that the selector selects, in
/// document order, the first piece of text inside it, where there is any.
pub uninterp spec fn selected_texts(markup: Seq<char>, selector: Seq<char>) -> Seq<
    Option<Seq<char>>,
>;

/// `Selector::parse`, asked only whether it succeeds.
#[verifier::external_body]
pub(crate) fn selector_ok(selector: &str) -> (r: bool)
    ensures
        r == selector_parses(selector@),
{
    Selector::parse(selector).is_ok()
}

/// `Html::parse_document`, `Selector::parse` and `Html::select`, then
/// `Element::attr` twice on each selected element. Nothing where the
/// selector does not parse. Otherwise one pair for each selected element;
/// the contract names what the pairs hold and claims nothing else of it.
#[verifier::external_body]
pub(crate) fn row_attr_pairs(markup: &str, selector: &str, first: &str, second: &str) -> (r:
    Option<Vec<RowPair>>)
    ensures
        r is Some <==> selector_parses(selector@),
        r matches Some(v) ==> firsts(v@) == selected_attrs(markup@, selector@, first@),
        r matches Some(v) ==> seconds(v@) == selected_attrs(markup@, selector@, second@),
{
    let rows = Selector::parse(selector).ok()?;
    let pair = |row: scraper::ElementRef| {
        (
            row.value().attr(first).map(|v| v.to_string()),
            row.value().attr(second).map(|v| v.to_string()),
        )
    };
    Some(Html::parse_document(markup).select(&rows).map(pair).collect())
}

/// `Html::parse_document`, `Selector::parse` and `Html::select`, then the
/// first item of `ElementRef::text` and `Element::attr` on each selected
/// element. Nothing where the selector does not parse. Otherwise one pair
/// for each selected element; the contract names what the pairs hold and
/// claims nothing else of it.
#[verifier::external_body]
pub(crate) fn row_text_attr_pairs(markup: &str, selector: &str, attr: &str) -> (r: Option<
    Vec<RowPair>,
>)
    ensures
        r is Some <==> selector_parses(selector@),
        r matches Some(v) ==> firsts(v@) == selected_texts(markup@, selector@),
        r matches Some(v) ==> seconds(v@) == selected_attrs(markup@, selector@, attr@),
{
    let rows = Selector::parse(selector).ok()?;
    let pair = |row: scraper::ElementRef| {
        (
            row.text().next().map(|v| v.to_string()),
            row.value().attr(attr).map(|v| v.to_string()),
        )
    };
    Some(Html::parse_document(markup).select(&rows).map(pair).collect())
}

} // verus!
