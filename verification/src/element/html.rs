//! The document: a head and a body inside the root element, after the
//! document type declaration.

use crate::element::{render_to_string, Absent, ClosingTag, HtmlElement, OpeningTag};
use crate::sink::{Sink, WriteError};
use vstd::prelude::*;

verus! {

/// What a document type declaration holds between its brackets: the keyword,
/// a space, and the name of the root element.
struct Doctype<'a>(&'a str);

impl<'a> HtmlElement for Doctype<'a> {
    closed spec fn text(&self) -> Seq<char> {
        "!DOCTYPE "@ + self.0@
    }

    fn render<S: Sink>(&self, sink: &mut S) -> (r: Result<(), WriteError>) {
        sink.write_str("!DOCTYPE ")?;
        sink.write_str(self.0)
    }
}

/// A document with a head and a body. A slot that was not set holds the
/// element without text.
pub struct Html<Head = Absent, Body = Absent> where Head: HtmlElement, Body: HtmlElement {
    head: Head,
    body: Body,
}

impl<Head, Body> Html<Head, Body> where Head: HtmlElement, Body: HtmlElement {
    /// The element in the head slot.
    pub closed spec fn head_slot(&self) -> Head {
        self.head
    }

    /// The element in the body slot.
    pub closed spec fn body_slot(&self) -> Body {
        self.body
    }

    /// The whole document, in a string of its own.
    pub fn to_string(&self) -> (s: String)
        ensures
            s@ == "<!DOCTYPE html><html>"@ + self.head_slot().text() + self.body_slot().text()
                + "</html>"@,
    {
        render_to_string(self)
    }
}

impl Html {
    /// A document with the given head and no body yet.
    pub fn head<Head>(head: Head) -> (doc: Html<Head>) where Head: HtmlElement
        ensures
            doc.head_slot() == head,
            doc.body_slot() == Absent,
    {
        Html { head, body: Absent }
    }
}

impl<Head> Html<Head> where Head: HtmlElement {
    /// The document with the same head and the given body.
    pub fn body<Body>(self, body: Body) -> (doc: Html<Head, Body>) where Body: HtmlElement
        ensures
            doc.head_slot() == self.head_slot(),
            doc.body_slot() == body,
    {
        Html { head: self.head, body }
    }
}

impl<Head, Body> HtmlElement for Html<Head, Body> where Head: HtmlElement, Body: HtmlElement {
    const ELEMENT_NAME: &'static str = "html";

    open spec fn text(&self) -> Seq<char> {
        "<!DOCTYPE html><html>"@ + self.head_slot().text() + self.body_slot().text() + "</html>"@
    }

    fn render<S: Sink>(&self, sink: &mut S) -> (r: Result<(), WriteError>) {
        proof {
            reveal_strlit("<");
            reveal_strlit("</");
            reveal_strlit(">");
            reveal_strlit("!DOCTYPE ");
            reveal_strlit("html");
            reveal_strlit("<!DOCTYPE html><html>");
            reveal_strlit("</html>");
        }
        OpeningTag::from(Doctype(Self::ELEMENT_NAME)).render(sink)?;
        OpeningTag::from(Self::ELEMENT_NAME).render(sink)?;
        self.head.render(sink)?;
        self.body.render(sink)?;
        ClosingTag::from(Self::ELEMENT_NAME).render(sink)
    }
}

/// A document with a head and a body renders as the document type
/// declaration, the opening root tag, the head, the body, and the closing root
/// tag, with nothing in between.
pub proof fn lemma_document_text<H: HtmlElement, B: HtmlElement>(
    head: H,
    body: B,
    started: Html<H>,
    doc: Html<H, B>,
)
    requires
        call_ensures(Html::head::<H>, (head,), started),
        call_ensures(Html::<H>::body::<B>, (started, body), doc),
    ensures
        doc.text() == "<!DOCTYPE html><html>"@ + head.text() + body.text() + "</html>"@,
{
}

/// A document whose body was never set renders with nothing between its head
/// and the closing root tag.
pub proof fn lemma_head_only_text<H: HtmlElement>(head: H, doc: Html<H>)
    requires
        call_ensures(Html::head::<H>, (head,), doc),
    ensures
        doc.text() == "<!DOCTYPE html><html>"@ + head.text() + "</html>"@,
{
    assert(doc.text() =~= "<!DOCTYPE html><html>"@ + head.text() + "</html>"@);
}

/// A document with nothing in either slot is the document type declaration
/// and the two root tags.
pub proof fn lemma_empty_document(doc: Html<Absent, Absent>)
    ensures
        doc.text() == "<!DOCTYPE html><html></html>"@,
{
    reveal_strlit("<!DOCTYPE html><html>");
    reveal_strlit("</html>");
    reveal_strlit("<!DOCTYPE html><html></html>");
    assert(doc.text() =~= "<!DOCTYPE html><html></html>"@);
}

/// The text of a document whose root element is called `name`: the document
/// type declaration in an opening tag, then the head and the body between the
/// opening and the closing tag of the root.
pub open spec fn document_text(name: Seq<char>, head: Seq<char>, body: Seq<char>) -> Seq<char> {
    "<"@ + "!DOCTYPE "@ + name + ">"@ + "<"@ + name + ">"@ + head + body + "</"@ + name + ">"@
}

/// A document generates its tags from the name that its type declares, which
/// is `html`.
pub proof fn lemma_document_uses_element_name<H: HtmlElement, B: HtmlElement>(doc: Html<H, B>)
    ensures
        Html::<H, B>::ELEMENT_NAME@ == "html"@,
        doc.text() == document_text(
            Html::<H, B>::ELEMENT_NAME@,
            doc.head_slot().text(),
            doc.body_slot().text(),
        ),
{
    reveal_strlit("<");
    reveal_strlit("</");
    reveal_strlit(">");
    reveal_strlit("!DOCTYPE ");
    reveal_strlit("html");
    reveal_strlit("<!DOCTYPE html><html>");
    reveal_strlit("</html>");
    assert(doc.text() =~= document_text(
        Html::<H, B>::ELEMENT_NAME@,
        doc.head_slot().text(),
        doc.body_slot().text(),
    ));
}

} // verus!
