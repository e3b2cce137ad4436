//! Writing a document element by element, done by the `xml-rs` crate.
//!
//! The writer is the crate's own `EventWriter` over a byte vector. What has
//! been handed to it so far is modelled as a sequence of `Markup` events; the
//! text that comes out in the end is a function of that sequence and of the
//! writer's indenting.

use vstd::prelude::*;
use xml::writer::{EmitterConfig, EventWriter, XmlEvent};

verus! {

#[verifier::external_type_specification]
#[verifier::external_body]
#[verifier::reject_recursive_types(W)]
pub struct ExEventWriter<W>(EventWriter<W>);

/// A name with a value: an attribute of an element, or a namespace prefix
/// with its address.
#[derive(Debug)]
pub struct Binding {
    pub name: String,
    pub value: String,
}

impl View for Binding {
    type V = (Seq<char>, Seq<char>);

    open spec fn view(&self) -> (Seq<char>, Seq<char>) {
        (self.name@, self.value@)
    }
}

/// The views of a sequence of bindings.
pub open spec fn bindings_view(v: Seq<Binding>) -> Seq<(Seq<char>, Seq<char>)> {
    v.map_values(|b: Binding| b@)
}

/// One thing handed to the writer.
pub enum Markup {
    /// The start of an element, with its attributes and the namespaces it
    /// declares.
    Open { name: Seq<char>, attrs: Seq<(Seq<char>, Seq<char>)>, spaces: Seq<(Seq<char>, Seq<char>)> },
    /// Character data.
    Text(Seq<char>),
    /// The end of the innermost open element.
    Close,
}

/// What has been handed to the writer so far, in order.
pub uninterp spec fn written(w: EventWriter<Vec<u8>>) -> Seq<Markup>;

/// Whether the writer was made to indent its output.
pub uninterp spec fn indenting(w: EventWriter<Vec<u8>>) -> bool;

/// The document that a writer gives out after the given events.
pub uninterp spec fn document_text(indent: bool, events: Seq<Markup>) -> Seq<char>;

/// How many elements are open after the given events.
pub open spec fn open_depth(events: Seq<Markup>) -> int
    decreases events.len(),
{
    if events.len() == 0 {
        0
    } else {
        open_depth(events.drop_last()) + match events.last() {
            Markup::Open { .. } => 1int,
            Markup::Text(_) => 0int,
            Markup::Close => -1int,
        }
    }
}

/// `EmitterConfig::new`, `perform_indent` and `create_writer` on an empty
/// byte vector: a writer to which nothing has been handed yet.
#[verifier::external_body]
pub(crate) fn new_writer(indent: bool) -> (w: EventWriter<Vec<u8>>)
    ensures
        written(w) == Seq::<Markup>::empty(),
        indenting(w) == indent,
{
    EmitterConfig::new().perform_indent(indent).create_writer(Vec::new())
}

/// `EventWriter::write` of a start-element event built by
/// `XmlEvent::start_element`, `attr` and `ns`. On a byte vector the call
/// cannot fail; the writer has taken the event.
#[verifier::external_body]
pub(crate) fn open_element(
    w: &mut EventWriter<Vec<u8>>,
    name: &str,
    attrs: &Vec<Binding>,
    spaces: &Vec<Binding>,
)
    ensures
        written(*final(w)) == written(*old(w)).push(
            Markup::Open {
                name: name@,
                attrs: bindings_view(attrs@),
                spaces: bindings_view(spaces@),
            },
        ),
        indenting(*final(w)) == indenting(*old(w)),
{
    let start = attrs.iter().fold(
        XmlEvent::start_element(name),
        |e, a| e.attr(a.name.as_str(), a.value.as_str()),
    );
    let start = spaces.iter().fold(start, |e, s| e.ns(s.name.as_str(), s.value.as_str()));
    let _ = w.write(start);
}

/// `EventWriter::write` of `XmlEvent::characters`. On a byte vector the call
/// cannot fail; the writer has taken the text.
#[verifier::external_body]
pub(crate) fn put_text(w: &mut EventWriter<Vec<u8>>, text: &str)
    ensures
        written(*final(w)) == written(*old(w)).push(Markup::Text(text@)),
        indenting(*final(w)) == indenting(*old(w)),
{
    let _ = w.write(XmlEvent::characters(text));
}

/// `EventWriter::write` of `XmlEvent::end_element`. The writer refuses the
/// event where no element is open, which the precondition keeps away; else
/// it closes the innermost one.
#[verifier::external_body]
pub(crate) fn close_element(w: &mut EventWriter<Vec<u8>>)
    requires
        open_depth(written(*old(w))) > 0,
    ensures
        written(*final(w)) == written(*old(w)).push(Markup::Close),
        indenting(*final(w)) == indenting(*old(w)),
{
    let _ = w.write(XmlEvent::end_element());
}

/// `EventWriter::into_inner`, and the bytes taken as text: the document
/// written. It is a function of the events and of the indenting alone; the
/// contract gives it its name.
#[verifier::external_body]
pub(crate) fn finish(w: EventWriter<Vec<u8>>) -> (r: String)
    ensures
        r@ == document_text(indenting(w), written(w)),
{
    String::from_utf8_lossy(&w.into_inner()).into_owned()
}

/// `escape_str_attribute` of the `xml-rs` crate: the text with `<`, `>`,
/// `"`, `'`, `&`, line feed and carriage return replaced by their entities.
#[verifier::external_body]
pub(crate) fn escape_attribute(text: &str) -> (r: String)
    ensures
        r@ == escaped(text@),
{
    xml::escape::escape_str_attribute(text).into_owned()
}

/// What stands for one character in an attribute value.
pub open spec fn escaped_char(c: char) -> Seq<char> {
    if c == '<' {
        "&lt;"@
    } else if c == '>' {
        "&gt;"@
    } else if c == '"' {
        "&quot;"@
    } else if c == '\'' {
        "&apos;"@
    } else if c == '&' {
        "&amp;"@
    } else if c == '\n' {
        "&#xA;"@
    } else if c == '\r' {
        "&#xD;"@
    } else {
        seq![c]
    }
}

/// The text with each character replaced by what stands for it in an
/// attribute value.
pub open spec fn escaped(text: Seq<char>) -> Seq<char>
    decreases text.len(),
{
    if text.len() == 0 {
        Seq::empty()
    } else {
        escaped(text.drop_last()) + escaped_char(text.last())
    }
}

} // verus!
