//! Magnet links: reading them into their fields, dropping what names a
//! listing rather than the content, and writing them out again. Reading and
//! writing are done by the `magnet-url` crate.

use magnet_url::Magnet;
use vstd::prelude::*;

use crate::model::opt_text;
use crate::pattern::{first_group, regex_capture};
use crate::text::{chars_of, decimal, decimal_value, parse_u64};

verus! {

/// How every magnet link begins.
pub const MAGNET_SCHEME: &'static str = "magnet:?";

/// The rule by which the reader finds the length field of a link. Group one
/// of its match is what the reader takes for a number.
pub const LENGTH_RULE: &'static str = "xl=(\\d*)(&|$|\\s)";

/// The fields of a magnet link.
#[derive(Debug)]
pub struct MagnetParts {
    /// Display name.
    pub dn: Option<String>,
    /// The kind of hash in the exact topic.
    pub hash_type: Option<String>,
    /// Exact topic: the hash of the content.
    pub xt: Option<String>,
    /// Exact length in bytes.
    pub xl: Option<u64>,
    /// Exact source.
    pub xs: Option<String>,
    /// Tracker addresses.
    pub tr: Vec<String>,
    /// Keyword topic.
    pub kt: Option<String>,
    /// Web seed.
    pub ws: Option<String>,
    /// Acceptable source.
    pub acceptable_source: Option<String>,
    /// Topic that links to a list of links.
    pub mt: Option<String>,
}

/// What the fields of a magnet link say.
pub struct MagnetView {
    pub dn: Option<Seq<char>>,
    pub hash_type: Option<Seq<char>>,
    pub xt: Option<Seq<char>>,
    pub xl: Option<u64>,
    pub xs: Option<Seq<char>>,
    pub tr: Seq<Seq<char>>,
    pub kt: Option<Seq<char>>,
    pub ws: Option<Seq<char>>,
    pub acceptable_source: Option<Seq<char>>,
    pub mt: Option<Seq<char>>,
}

impl View for MagnetParts {
    type V = MagnetView;

    open spec fn view(&self) -> MagnetView {
        MagnetView {
            dn: opt_text(self.dn),
            hash_type: opt_text(self.hash_type),
            xt: opt_text(self.xt),
            xl: self.xl,
            xs: opt_text(self.xs),
            tr: self.tr@.map_values(|t: String| t@),
            kt: opt_text(self.kt),
            ws: opt_text(self.ws),
            acceptable_source: opt_text(self.acceptable_source),
            mt: opt_text(self.mt),
        }
    }
}

/// The fields that the reader finds in a link that begins as a magnet link
/// does.
pub uninterp spec fn magnet_fields(link: Seq<char>) -> MagnetView;

/// Whether the reader can take the link's length field for a number: the
/// link has no such field, or what stands there is an unsigned decimal
/// number that fits in 64 bits.
pub open spec fn length_readable(link: Seq<char>) -> bool {
    match regex_capture(LENGTH_RULE@, link) {
        Some(digits) => decimal_value(digits, u64::MAX as nat) is Some,
        None => true,
    }
}

/// The fields without those that name a listing: no display name and no
/// trackers.
pub open spec fn stripped(p: MagnetView) -> MagnetView {
    MagnetView { dn: None, tr: Seq::empty(), ..p }
}

/// `&key=value` for a field that is there, nothing for one that is not.
pub open spec fn param_text(key: Seq<char>, value: Option<Seq<char>>) -> Seq<char> {
    match value {
        Some(v) => "&"@ + key + "="@ + v,
        None => Seq::empty(),
    }
}

/// `&tr=address` for each tracker, in order.
pub open spec fn trackers_text(tr: Seq<Seq<char>>) -> Seq<char>
    decreases tr.len(),
{
    if tr.len() == 0 {
        Seq::empty()
    } else {
        trackers_text(tr.drop_last()) + "&tr="@ + tr.last()
    }
}

/// The exact topic with its hash kind, where the link has an exact topic.
pub open spec fn topic_text(hash_type: Option<Seq<char>>, xt: Option<Seq<char>>) -> Seq<char> {
    match xt {
        Some(x) => "xt=urn:"@ + (match hash_type {
            Some(h) => h,
            None => Seq::empty(),
        }) + ":"@ + x,
        None => Seq::empty(),
    }
}

/// The length field, where the link has one.
pub open spec fn length_text(xl: Option<u64>) -> Seq<char> {
    match xl {
        Some(n) => "&xl="@ + decimal(n as nat),
        None => Seq::empty(),
    }
}

/// The link that the fields are written out as.
pub open spec fn magnet_text(p: MagnetView) -> Seq<char> {
    MAGNET_SCHEME@ + topic_text(p.hash_type, p.xt) + param_text("dn"@, p.dn) + length_text(p.xl)
        + trackers_text(p.tr) + param_text("ws"@, p.ws) + param_text("xs"@, p.xs) + param_text(
        "kt"@,
        p.kt,
    ) + param_text("as"@, p.acceptable_source) + param_text("mt"@, p.mt)
}

/// The canonical form of a link: its fields without display name and
/// trackers, written out again. A text that does not begin as a magnet link
/// does, or whose length field cannot be read, has none.
pub open spec fn canonical_text(link: Seq<char>) -> Option<Seq<char>> {
    if MAGNET_SCHEME@.is_prefix_of(link) && length_readable(link) {
        Some(magnet_text(stripped(magnet_fields(link))))
    } else {
        None
    }
}

/// `Magnet::new` of the `magnet-url` crate, its fields moved one by one into
/// the library's own type. The crate returns an error exactly for a text that
/// does not begin with `magnet:?`. It takes the length field, found by
/// `LENGTH_RULE`, for a 64-bit number and panics where it is none, so such
/// links are kept away by the precondition. The fields found are given a
/// name and nothing else is claimed of them.
#[verifier::external_body]
fn read_magnet(link: &str) -> (r: Option<MagnetParts>)
    requires
        length_readable(link@),
    ensures
        r is Some <==> MAGNET_SCHEME@.is_prefix_of(link@),
        r matches Some(p) ==> p@ == magnet_fields(link@),
{
    let m = Magnet::new(link).ok()?;
    Some(
        MagnetParts {
            dn: m.dn,
            hash_type: m.hash_type,
            xt: m.xt,
            xl: m.xl,
            xs: m.xs,
            tr: m.tr,
            kt: m.kt,
            ws: m.ws,
            acceptable_source: m.acceptable_source,
            mt: m.mt,
        },
    )
}

/// `Magnet`'s `to_string` of the `magnet-url` crate, on a `Magnet` with the
/// given fields. The crate writes `magnet:?`, then the exact topic as
/// `xt=urn:`, hash kind, `:` and hash, then `&dn=`, `&xl=`, one `&tr=` for
/// each tracker, `&ws=`, `&xs=`, `&kt=`, `&as=` and `&mt=`, each only where
/// the field is there.
#[verifier::external_body]
fn write_magnet(p: &MagnetParts) -> (r: String)
    ensures
        r@ == magnet_text(p@),
{
    Magnet {
        dn: p.dn.clone(),
        hash_type: p.hash_type.clone(),
        xt: p.xt.clone(),
        xl: p.xl,
        xs: p.xs.clone(),
        tr: p.tr.clone(),
        kt: p.kt.clone(),
        ws: p.ws.clone(),
        acceptable_source: p.acceptable_source.clone(),
        mt: p.mt.clone(),
    }.to_string()
}

impl MagnetParts {
    /// Drops the display name and every tracker; the other fields stay.
    pub fn strip(self) -> (r: MagnetParts)
        ensures
            r@ == stripped(self@),
    {
        let r = MagnetParts {
            dn: None,
            hash_type: self.hash_type,
            xt: self.xt,
            xl: self.xl,
            xs: self.xs,
            tr: Vec::new(),
            kt: self.kt,
            ws: self.ws,
            acceptable_source: self.acceptable_source,
            mt: self.mt,
        };
        assert(r@.tr =~= Seq::<Seq<char>>::empty());
        r
    }
}

/// Tests whether the reader can take the link's length field for a number.
pub fn length_is_readable(link: &str) -> (r: bool)
    ensures
        r == length_readable(link@),
{
    match first_group(LENGTH_RULE, link) {
        Some(digits) => {
            let d = chars_of(digits.as_str());
            parse_u64(&d).is_some()
        },
        None => true,
    }
}

/// Reads a magnet link into its fields. Nothing for a text that does not
/// begin as a magnet link does, or whose length field cannot be read.
pub fn parse(link: &str) -> (r: Option<MagnetParts>)
    ensures
        r is Some <==> MAGNET_SCHEME@.is_prefix_of(link@) && length_readable(link@),
        r matches Some(p) ==> p@ == magnet_fields(link@),
{
    if length_is_readable(link) {
        read_magnet(link)
    } else {
        None
    }
}

/// The canonical form of a magnet link: the link written out again from its
/// fields, without display name and without trackers.
pub fn canonical(link: &str) -> (r: Option<String>)
    ensures
        opt_text(r) == canonical_text(link@),
{
    match parse(link) {
        Some(p) => Some(write_magnet(&p.strip())),
        None => None,
    }
}

/// Dropping display name and trackers a second time changes nothing.
pub proof fn lemma_strip_idempotent(p: MagnetView)
    ensures
        stripped(stripped(p)) == stripped(p),
{
}

/// A canonical link begins as a magnet link does.
pub proof fn lemma_canonical_is_magnet(link: Seq<char>)
    requires
        canonical_text(link) is Some,
    ensures
        MAGNET_SCHEME@.is_prefix_of(canonical_text(link)->0),
{
    let p = stripped(magnet_fields(link));
    let rest = topic_text(p.hash_type, p.xt) + param_text("dn"@, p.dn) + length_text(p.xl)
        + trackers_text(p.tr) + param_text("ws"@, p.ws) + param_text("xs"@, p.xs) + param_text(
        "kt"@,
        p.kt,
    ) + param_text("as"@, p.acceptable_source) + param_text("mt"@, p.mt);
    assert(magnet_text(p) =~= MAGNET_SCHEME@ + rest);
}

/// Canonicalizing is idempotent wherever the reader finds in the canonical
/// link the fields it was written from: then the canonical form of a
/// canonical link is that link itself.
pub proof fn lemma_canonical_idempotent(link: Seq<char>)
    requires
        canonical_text(link) is Some,
        length_readable(canonical_text(link)->0),
        stripped(magnet_fields(canonical_text(link)->0)) == stripped(magnet_fields(link)),
    ensures
        canonical_text(canonical_text(link)->0) == canonical_text(link),
{
    lemma_canonical_is_magnet(link);
}

} // verus!
