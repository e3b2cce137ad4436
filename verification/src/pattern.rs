//! Regular-expression matching, done by the `regex` crate.

use regex::Regex;
use vstd::prelude::*;

use crate::model::opt_text;

verus! {

/// What the first capture group of the leftmost match of `pattern` in `text`
/// holds. Nothing where the pattern does not compile, where it matches
/// nowhere in the text, or where the group took no part in the match.
pub uninterp spec fn regex_capture(pattern: Seq<char>, text: Seq<char>) -> Option<Seq<char>>;

/// Compiles `pattern` with `Regex::new`, searches `text` with
/// `Regex::captures` and hands out group one of the match found. The result
/// depends on the two arguments alone; the contract gives it its name and
/// claims nothing else of it.
#[verifier::external_body]
pub(crate) fn first_group(pattern: &str, text: &str) -> (r: Option<String>)
    ensures
        opt_text(r) == regex_capture(pattern@, text@),
{
    match Regex::new(pattern) {
        Ok(re) => re.captures(text).and_then(|found| found.get(1)).map(|m| m.as_str().to_string()),
        Err(_) => None,
    }
}

} // verus!
