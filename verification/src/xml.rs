//! Writing XML through `quick_xml`.
//!
//! The writer and the tags it takes are `quick_xml`'s own.  What each call
//! appends is stated here over three names for the writer's state and one for
//! a tag's text; nothing in this file is proved, the rest of the crate is
//! proved from it.
//!
//! The writer writes into a byte vector.  A write into a byte vector
//! appends and cannot fail, and `quick_xml` reports no failure but that of
//! the write, so each call here has its effect on every input.
use vstd::prelude::*;
use quick_xml::events::{BytesDecl, BytesEnd, BytesStart, Event};
use quick_xml::writer::Writer;

verus! {

/// `quick_xml::writer::Writer`, whose inside is not looked at.
#[verifier::external_type_specification]
#[verifier::external_body]
#[verifier::reject_recursive_types(W)]
pub struct ExWriter<W>(Writer<W>);

/// `quick_xml::events::BytesStart`, whose inside is not looked at.
#[verifier::external_type_specification]
#[verifier::external_body]
pub struct ExBytesStart<'a>(BytesStart<'a>);

/// The text a writer has produced so far.
pub uninterp spec fn written(writer: Writer<Vec<u8>>) -> Seq<char>;

/// The number of indentation characters a writer puts at the start of a line.
pub uninterp spec fn indentation(writer: Writer<Vec<u8>>) -> nat;

/// Whether a writer starts a new line before the next element it writes.
pub uninterp spec fn breaks_line(writer: Writer<Vec<u8>>) -> bool;

/// The text of a tag: its name followed by its attributes.
pub uninterp spec fn tag_text(tag: BytesStart<'static>) -> Seq<char>;

/// The number of spaces by which one level of nesting indents.
pub open spec fn indent_step() -> nat {
    4
}

/// A run of `n` spaces.
pub open spec fn spaces(n: nat) -> Seq<char> {
    Seq::new(n, |i: int| ' ')
}

/// A line feed followed by `depth` spaces.
pub open spec fn fresh_line(depth: nat) -> Seq<char> {
    "\n"@ + spaces(depth)
}

/// What precedes an element: a fresh line if the writer is due to break the
/// line, nothing otherwise.
pub open spec fn line_start(breaks: bool, depth: nat) -> Seq<char> {
    if breaks {
        fresh_line(depth)
    } else {
        Seq::empty()
    }
}

/// The indentation after closing an element: one step less, never below zero.
pub open spec fn outdented(depth: nat) -> nat {
    if depth >= indent_step() {
        (depth - indent_step()) as nat
    } else {
        0
    }
}

/// How a single character appears inside an attribute value.
pub open spec fn escaped_char(c: char) -> Seq<char> {
    if c == '<' {
        "&lt;"@
    } else if c == '>' {
        "&gt;"@
    } else if c == '&' {
        "&amp;"@
    } else if c == '\'' {
        "&apos;"@
    } else if c == '"' {
        "&quot;"@
    } else {
        seq![c]
    }
}

/// How a text appears inside an attribute value: each of `< > & ' "` is
/// replaced by its entity, every other character stands for itself.
pub open spec fn escaped(text: Seq<char>) -> Seq<char>
    decreases text.len(),
{
    if text.len() == 0 {
        Seq::empty()
    } else {
        escaped(text.drop_last()) + escaped_char(text.last())
    }
}

/// The text by which an attribute extends a tag.
pub open spec fn attribute_text(key: Seq<char>, value: Seq<char>) -> Seq<char> {
    " "@ + key + "=\""@ + escaped(value) + "\""@
}

/// The text of an XML declaration with a version and an encoding.
pub open spec fn declaration_text(version: Seq<char>, encoding: Seq<char>) -> Seq<char> {
    "<?xml version=\""@ + version + "\" encoding=\""@ + encoding + "\"?>"@
}

/// `Writer::new_with_indent` over an empty byte vector, indenting by four
/// spaces per level: nothing is written yet, the indentation is zero and the
/// first element does not start a new line.
#[verifier::external_body]
pub(crate) fn writer_new() -> (writer: Writer<Vec<u8>>)
    ensures
        written(writer) == Seq::<char>::empty(),
        indentation(writer) == 0,
        !breaks_line(writer),
{
    Writer::new_with_indent(Vec::new(), b' ', 4)
}

/// `BytesStart::new`: a tag that consists of its name alone.
#[verifier::external_body]
pub(crate) fn tag_new(name: &str) -> (tag: BytesStart<'static>)
    ensures
        tag_text(tag) == name@,
{
    BytesStart::new(name.to_owned())
}

/// `BytesStart::push_attribute` with a key and a value given as text: the
/// tag grows by a space, the key as it is, `="`, the escaped value and `"`.
#[verifier::external_body]
pub(crate) fn tag_push_attribute(tag: &mut BytesStart<'static>, key: &str, value: &str)
    ensures
        tag_text(*final(tag)) == tag_text(*old(tag)) + attribute_text(key@, value@),
{
    tag.push_attribute((key, value));
}

/// `Writer::write_event` on a declaration made by `BytesDecl::new` without a
/// standalone flag.  The declaration is appended after the line start, the
/// indentation is unchanged and the next element starts a new line.
#[verifier::external_body]
pub(crate) fn write_declaration(writer: &mut Writer<Vec<u8>>, version: &str, encoding: &str)
    ensures
        written(*final(writer)) == written(*old(writer)) + line_start(
            breaks_line(*old(writer)),
            indentation(*old(writer)),
        ) + declaration_text(version@, encoding@),
        indentation(*final(writer)) == indentation(*old(writer)),
        breaks_line(*final(writer)),
{
    let _ = writer.write_event(Event::Decl(BytesDecl::new(version, Some(encoding), None)));
}

/// `Writer::write_event` on `Event::Start`.  The opening tag is appended
/// after the line start, the indentation grows by one step and the next
/// element starts a new line.
#[verifier::external_body]
pub(crate) fn write_start(writer: &mut Writer<Vec<u8>>, tag: BytesStart<'static>)
    ensures
        written(*final(writer)) == written(*old(writer)) + line_start(
            breaks_line(*old(writer)),
            indentation(*old(writer)),
        ) + "<"@ + tag_text(tag) + ">"@,
        indentation(*final(writer)) == indentation(*old(writer)) + indent_step(),
        breaks_line(*final(writer)),
{
    let _ = writer.write_event(Event::Start(tag));
}

/// `Writer::write_event` on `Event::Empty`.  The self-closing tag is
/// appended after the line start, the indentation is unchanged and the next
/// element starts a new line.
#[verifier::external_body]
pub(crate) fn write_empty(writer: &mut Writer<Vec<u8>>, tag: BytesStart<'static>)
    ensures
        written(*final(writer)) == written(*old(writer)) + line_start(
            breaks_line(*old(writer)),
            indentation(*old(writer)),
        ) + "<"@ + tag_text(tag) + "/>"@,
        indentation(*final(writer)) == indentation(*old(writer)),
        breaks_line(*final(writer)),
{
    let _ = writer.write_event(Event::Empty(tag));
}

/// `Writer::write_event` on `Event::End` with a tag made by `BytesEnd::new`.
/// The indentation shrinks by one step first; the closing tag is appended
/// after a line start at the new indentation, and the next element starts a
/// new line.
#[verifier::external_body]
pub(crate) fn write_end(writer: &mut Writer<Vec<u8>>, name: &str)
    ensures
        written(*final(writer)) == written(*old(writer)) + line_start(
            breaks_line(*old(writer)),
            outdented(indentation(*old(writer))),
        ) + "</"@ + name@ + ">"@,
        indentation(*final(writer)) == outdented(indentation(*old(writer))),
        breaks_line(*final(writer)),
{
    let _ = writer.write_event(Event::End(BytesEnd::new(name)));
}

/// `Writer::write_indent`.  A line feed and the current indentation are
/// appended; the writer's layout stays as it was.
#[verifier::external_body]
pub(crate) fn write_indent(writer: &mut Writer<Vec<u8>>)
    ensures
        written(*final(writer)) == written(*old(writer)) + fresh_line(indentation(*old(writer))),
        indentation(*final(writer)) == indentation(*old(writer)),
        breaks_line(*final(writer)) == breaks_line(*old(writer)),
{
    let _ = writer.write_indent();
}

/// `Writer::into_inner`, the bytes read as UTF-8: the text that was written.
#[verifier::external_body]
pub(crate) fn writer_into_text(writer: Writer<Vec<u8>>) -> (text: String)
    ensures
        text@ == written(writer),
{
    String::from_utf8_lossy(&writer.into_inner()).into_owned()
}

} // verus!
