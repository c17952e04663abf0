//! Documents as sequences of markup events, and their rendering to text.
//!
//! A document is built as plain data first: a list of events, each a
//! declaration, an opening, closing or self-closing tag, or an explicit line
//! break.  `page_of` says what text such a list stands for; `render` produces
//! that text.
use vstd::prelude::*;
use vstd::string::*;
use quick_xml::events::BytesStart;
use quick_xml::writer::Writer;
use crate::xml::{
    attribute_text, breaks_line, declaration_text, fresh_line, indent_step, indentation,
    line_start, outdented, tag_new, tag_push_attribute, tag_text, write_declaration, write_empty,
    write_end, write_indent, write_start, writer_into_text, writer_new, written,
};

verus! {

/// An attribute as mathematical data.
pub struct AttributeText {
    pub key: Seq<char>,
    pub value: Seq<char>,
}

/// A key and the value it is given, both unescaped.
#[derive(Clone, Debug)]
pub struct Attribute {
    pub key: String,
    pub value: String,
}

impl View for Attribute {
    type V = AttributeText;

    open spec fn view(&self) -> AttributeText {
        AttributeText { key: self.key@, value: self.value@ }
    }
}

impl DeepView for Attribute {
    type V = AttributeText;

    open spec fn deep_view(&self) -> AttributeText {
        self@
    }
}

/// An element as mathematical data.
pub struct ElementText {
    pub name: Seq<char>,
    pub attributes: Seq<AttributeText>,
}

impl ElementText {
    /// The same element with one more attribute at the end.
    pub open spec fn with(self, key: Seq<char>, value: Seq<char>) -> ElementText {
        ElementText {
            name: self.name,
            attributes: self.attributes.push(AttributeText { key, value }),
        }
    }
}

/// An element without attributes.
pub open spec fn tag(name: Seq<char>) -> ElementText {
    ElementText { name, attributes: Seq::empty() }
}

/// An element's name and its attributes, in the order they were given.
#[derive(Clone, Debug)]
pub struct Element {
    pub name: String,
    pub attributes: Vec<Attribute>,
}

impl View for Element {
    type V = ElementText;

    open spec fn view(&self) -> ElementText {
        ElementText { name: self.name@, attributes: self.attributes.deep_view() }
    }
}

impl Element {
    pub fn new(name: &str) -> (element: Element)
        ensures
            element@ == tag(name@),
    {
        let element = Element { name: String::from_str(name), attributes: Vec::new() };
        assert(element.attributes.deep_view() =~= Seq::<AttributeText>::empty());
        element
    }

    /// Adds an attribute after those the element already has.
    pub fn with(self, key: &str, value: &str) -> (element: Element)
        ensures
            element@ == self@.with(key@, value@),
    {
        let mut element = self;
        let attribute = Attribute { key: String::from_str(key), value: String::from_str(value) };
        element.attributes.push(attribute);
        assert(element.attributes.deep_view() =~= self.attributes.deep_view().push(attribute@));
        element
    }
}

/// An event as mathematical data.
pub enum EventText {
    Declaration { version: Seq<char>, encoding: Seq<char> },
    Start(ElementText),
    End(Seq<char>),
    Empty(ElementText),
    Indent,
}

/// One step in writing a document.
#[derive(Clone, Debug)]
pub enum XmlEvent {
    /// The XML declaration with its version and encoding.
    Declaration { version: String, encoding: String },
    /// The opening tag of an element.
    Start(Element),
    /// The closing tag of the element with the given name.
    End(String),
    /// A self-closing element.
    Empty(Element),
    /// A line break followed by the current indentation.
    Indent,
}

impl View for XmlEvent {
    type V = EventText;

    open spec fn view(&self) -> EventText {
        match self {
            XmlEvent::Declaration { version, encoding } => EventText::Declaration {
                version: version@,
                encoding: encoding@,
            },
            XmlEvent::Start(element) => EventText::Start(element@),
            XmlEvent::End(name) => EventText::End(name@),
            XmlEvent::Empty(element) => EventText::Empty(element@),
            XmlEvent::Indent => EventText::Indent,
        }
    }
}

impl DeepView for XmlEvent {
    type V = EventText;

    open spec fn deep_view(&self) -> EventText {
        self@
    }
}

/// The text of a list of attributes inside a tag.
pub open spec fn attributes_text(attributes: Seq<AttributeText>) -> Seq<char>
    decreases attributes.len(),
{
    if attributes.len() == 0 {
        Seq::empty()
    } else {
        attributes_text(attributes.drop_last()) + attribute_text(
            attributes.last().key,
            attributes.last().value,
        )
    }
}

/// The text of an element inside its tag: the name, then the attributes.
pub open spec fn element_text(element: ElementText) -> Seq<char> {
    element.name + attributes_text(element.attributes)
}

/// A document in the making: its text so far, the indentation of the next
/// line, and whether the next element starts a new line.
pub struct Page {
    pub text: Seq<char>,
    pub indentation: nat,
    pub breaks_line: bool,
}

/// The page before anything is written.
pub open spec fn blank_page() -> Page {
    Page { text: Seq::empty(), indentation: 0, breaks_line: false }
}

/// The page after one more event.
///
/// Every tag is preceded by the line start.  An opening tag indents what
/// follows by one step; a closing tag takes the step back before it is
/// written.  An explicit line break leaves the layout as it is.
pub open spec fn page_after(page: Page, event: EventText) -> Page {
    let start = line_start(page.breaks_line, page.indentation);
    match event {
        EventText::Declaration { version, encoding } => Page {
            text: page.text + start + declaration_text(version, encoding),
            indentation: page.indentation,
            breaks_line: true,
        },
        EventText::Start(element) => Page {
            text: page.text + start + "<"@ + element_text(element) + ">"@,
            indentation: page.indentation + indent_step(),
            breaks_line: true,
        },
        EventText::End(name) => Page {
            text: page.text + line_start(page.breaks_line, outdented(page.indentation)) + "</"@
                + name + ">"@,
            indentation: outdented(page.indentation),
            breaks_line: true,
        },
        EventText::Empty(element) => Page {
            text: page.text + start + "<"@ + element_text(element) + "/>"@,
            indentation: page.indentation,
            breaks_line: true,
        },
        EventText::Indent => Page {
            text: page.text + fresh_line(page.indentation),
            indentation: page.indentation,
            breaks_line: page.breaks_line,
        },
    }
}

/// The page that a list of events produces, starting from a blank one.
pub open spec fn page_of(events: Seq<EventText>) -> Page
    decreases events.len(),
{
    if events.len() == 0 {
        blank_page()
    } else {
        page_after(page_of(events.drop_last()), events.last())
    }
}

/// The text that a list of events stands for.
pub open spec fn rendered(events: Seq<EventText>) -> Seq<char> {
    page_of(events).text
}

/// The page that a writer has produced.
pub open spec fn page_shown(writer: Writer<Vec<u8>>) -> Page {
    Page {
        text: written(writer),
        indentation: indentation(writer),
        breaks_line: breaks_line(writer),
    }
}

fn build_tag(element: &Element) -> (built: BytesStart<'static>)
    ensures
        tag_text(built) == element_text(element@),
{
    let mut built = tag_new(element.name.as_str());
    let ghost attributes = element.attributes.deep_view();
    let mut i: usize = 0;
    while i < element.attributes.len()
        invariant
            i <= element.attributes.len(),
            attributes == element.attributes.deep_view(),
            tag_text(built) == element.name@ + attributes_text(attributes.take(i as int)),
        decreases element.attributes.len() - i,
    {
        let attribute = &element.attributes[i];
        proof {
            assert(attributes.take(i + 1).drop_last() =~= attributes.take(i as int));
            assert(attributes.take(i + 1).last() == attribute@);
        }
        tag_push_attribute(&mut built, attribute.key.as_str(), attribute.value.as_str());
        i += 1;
    }
    proof {
        assert(attributes.take(element.attributes.len() as int) =~= attributes);
    }
    built
}

/// Writes one event.
fn write_event(writer: &mut Writer<Vec<u8>>, event: &XmlEvent)
    ensures
        page_shown(*final(writer)) == page_after(page_shown(*old(writer)), event@),
{
    match event {
        XmlEvent::Declaration { version, encoding } => write_declaration(
            writer,
            version.as_str(),
            encoding.as_str(),
        ),
        XmlEvent::Start(element) => {
            let built = build_tag(element);
            write_start(writer, built)
        },
        XmlEvent::End(name) => write_end(writer, name.as_str()),
        XmlEvent::Empty(element) => {
            let built = build_tag(element);
            write_empty(writer, built)
        },
        XmlEvent::Indent => write_indent(writer),
    }
}

/// Renders a list of events to the text that `rendered` gives for them.
pub fn render(events: &Vec<XmlEvent>) -> (text: String)
    ensures
        text@ == rendered(events.deep_view()),
{
    let mut writer = writer_new();
    let ghost all = events.deep_view();
    let mut i: usize = 0;
    proof {
        assert(all.take(0) =~= Seq::<EventText>::empty());
    }
    while i < events.len()
        invariant
            i <= events.len(),
            all == events.deep_view(),
            page_shown(writer) == page_of(all.take(i as int)),
        decreases events.len() - i,
    {
        proof {
            assert(all.take(i + 1).drop_last() =~= all.take(i as int));
            assert(all.take(i + 1).last() == events[i as int]@);
        }
        write_event(&mut writer, &events[i]);
        i += 1;
    }
    proof {
        assert(all.take(events.len() as int) =~= all);
    }
    writer_into_text(writer)
}

} // verus!
