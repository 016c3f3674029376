//! Elements: values that can be rendered as text, and the tag wrappers that
//! put brackets round them.

pub mod html;
mod tag_type;

use crate::sink::{fits, room_after, wrote_part_of, Sink, WriteError};
use std::marker::PhantomData;
use vstd::prelude::*;
use vstd::std_specs::convert::FromSpecImpl;

verus! {

/// A value that has a textual form and can append it to a sink.
///
/// The textual form depends on the value alone, so rendering changes nothing
/// but the sink and can be repeated at will.
pub trait HtmlElement {
    /// The name under which composite elements generate their tags.
    const ELEMENT_NAME: &'static str = "";

    /// The textual form of this element.
    spec fn text(&self) -> Seq<char>;

    /// Appends the textual form of this element to `sink`.
    ///
    /// Rendering succeeds where the sink has room for the text, and fails
    /// where a strict sink has not. It fails only where the sink does, and
    /// then hands the failure on: the sink is left with what it held and the
    /// part of the text that was written before it failed.
    fn render<S: Sink>(&self, sink: &mut S) -> (r: Result<(), WriteError>)
        ensures
            fits(old(sink).room(), self.text().len()) ==> r is Ok,
            S::strict() && !fits(old(sink).room(), self.text().len()) ==> r is Err,
            r is Ok ==> final(sink).written() == old(sink).written() + self.text(),
            r is Ok ==> final(sink).room() == room_after(old(sink).room(), self.text().len()),
            r is Err ==> wrote_part_of(old(sink).written(), self.text(), final(sink).written()),
    ;
}

/// The textual form of `element`, in a string of its own.
pub fn render_to_string<E: HtmlElement>(element: &E) -> (s: String)
    ensures
        s@ == element.text(),
{
    let mut out = String::new();
    let _ = element.render(&mut out);
    out
}

/// Plain text is an element: its textual form is itself, verbatim.
impl HtmlElement for &str {
    open spec fn text(&self) -> Seq<char> {
        self@
    }

    fn render<S: Sink>(&self, sink: &mut S) -> (r: Result<(), WriteError>) {
        sink.write_str(self)
    }
}

/// The element without text: what a slot holds until it is set.
pub struct Absent;

impl Absent {
    /// The empty string.
    pub fn to_string(&self) -> (s: String)
        ensures
            s@ == Seq::<char>::empty(),
    {
        render_to_string(self)
    }
}

impl HtmlElement for Absent {
    open spec fn text(&self) -> Seq<char> {
        Seq::empty()
    }

    fn render<S: Sink>(&self, sink: &mut S) -> (r: Result<(), WriteError>)
        ensures
            r is Ok,
            final(sink).written() == old(sink).written(),
            final(sink).room() == old(sink).room(),
    {
        Ok(())
    }
}

/// An element in brackets. The role `TagType` decides which brackets; it is
/// part of the type and no value is stored for it.
pub struct HtmlTag<TagContent, TagType>(TagContent, PhantomData<TagType>) where
    TagContent: HtmlElement,
    TagType: tag_type::HtmlTagType,
;

impl<TagContent, TagType> HtmlTag<TagContent, TagType> where
    TagContent: HtmlElement,
    TagType: tag_type::HtmlTagType,
 {
    /// The element between the brackets.
    pub closed spec fn content(&self) -> TagContent {
        self.0
    }
}

impl<TagContent, TagType> From<TagContent> for HtmlTag<TagContent, TagType> where
    TagContent: HtmlElement,
    TagType: tag_type::HtmlTagType,
 {
    /// Puts `content` in brackets.
    fn from(content: TagContent) -> (tag: Self)
        ensures
            tag.content() == content,
    {
        Self(content, PhantomData)
    }
}

impl<TagContent, TagType> FromSpecImpl<TagContent> for HtmlTag<TagContent, TagType> where
    TagContent: HtmlElement,
    TagType: tag_type::HtmlTagType,
 {
    open spec fn obeys_from_spec() -> bool {
        true
    }

    closed spec fn from_spec(content: TagContent) -> Self {
        HtmlTag(content, PhantomData)
    }
}

/// An element between `<` and `>`.
pub type OpeningTag<TagContent> = HtmlTag<TagContent, tag_type::OpeningTag>;

impl<TagContent> OpeningTag<TagContent> where TagContent: HtmlElement {
    /// The textual form of this tag, in a string of its own.
    pub fn to_string(&self) -> (s: String)
        ensures
            s@ == self.text(),
    {
        render_to_string(self)
    }
}

impl<TagContent> HtmlElement for OpeningTag<TagContent> where TagContent: HtmlElement {
    open spec fn text(&self) -> Seq<char> {
        "<"@ + self.content().text() + ">"@
    }

    fn render<S: Sink>(&self, sink: &mut S) -> (r: Result<(), WriteError>) {
        sink.write_str("<")?;
        self.0.render(sink)?;
        sink.write_str(">")
    }
}

/// An element between `</` and `>`.
pub type ClosingTag<TagContent> = HtmlTag<TagContent, tag_type::ClosingTag>;

impl<TagContent> ClosingTag<TagContent> where TagContent: HtmlElement {
    /// The textual form of this tag, in a string of its own.
    pub fn to_string(&self) -> (s: String)
        ensures
            s@ == self.text(),
    {
        render_to_string(self)
    }
}

impl<TagContent> HtmlElement for ClosingTag<TagContent> where TagContent: HtmlElement {
    open spec fn text(&self) -> Seq<char> {
        "</"@ + self.content().text() + ">"@
    }

    fn render<S: Sink>(&self, sink: &mut S) -> (r: Result<(), WriteError>) {
        sink.write_str("</")?;
        self.0.render(sink)?;
        sink.write_str(">")
    }
}

/// Rendering is repeatable: two renderings of one element give the same text.
pub proof fn lemma_render_repeatable<E: HtmlElement>(element: &E, first: String, second: String)
    requires
        call_ensures(render_to_string::<E>, (element,), first),
        call_ensures(render_to_string::<E>, (element,), second),
    ensures
        first@ == second@,
{
}

/// What a successful rendering appends does not depend on the sink: from two
/// sinks that an element was rendered into, taking away what each held before
/// leaves the same text, and sinks that held the same hold the same afterwards.
pub proof fn lemma_render_appends_same_text<E: HtmlElement>(
    element: &E,
    before1: Seq<char>,
    after1: Seq<char>,
    before2: Seq<char>,
    after2: Seq<char>,
)
    requires
        after1 == before1 + element.text(),
        after2 == before2 + element.text(),
    ensures
        after1.skip(before1.len() as int) == after2.skip(before2.len() as int),
        before1 == before2 ==> after1 == after2,
{
    assert(after1.skip(before1.len() as int) =~= element.text());
    assert(after2.skip(before2.len() as int) =~= element.text());
}

/// The element without text renders as the empty string, and adds nothing to
/// whatever stands before and after it.
pub proof fn lemma_absent_renders_nothing(
    absent: Absent,
    rendered: String,
    before: Seq<char>,
    after: Seq<char>,
)
    requires
        call_ensures(render_to_string::<Absent>, (&absent,), rendered),
    ensures
        rendered@ == Seq::<char>::empty(),
        absent.text() == Seq::<char>::empty(),
        before + absent.text() + after == before + after,
{
    assert(before + absent.text() + after =~= before + after);
}

/// Brackets round the element without text hold nothing.
pub proof fn lemma_absent_in_tags(opening: OpeningTag<Absent>, closing: ClosingTag<Absent>)
    ensures
        opening.text() == "<>"@,
        closing.text() == "</>"@,
{
    reveal_strlit("<");
    reveal_strlit("</");
    reveal_strlit(">");
    reveal_strlit("<>");
    reveal_strlit("</>");
    assert(opening.text() =~= "<>"@);
    assert(closing.text() =~= "</>"@);
}

/// An opening tag renders as `<`, the text of its content, and `>`.
pub proof fn lemma_opening_tag_text<C: HtmlElement>(content: C, tag: OpeningTag<C>)
    requires
        call_ensures(OpeningTag::<C>::from, (content,), tag),
    ensures
        tag.text() == seq!['<'] + content.text() + seq!['>'],
{
    reveal_strlit("<");
    reveal_strlit(">");
    assert("<"@ =~= seq!['<']);
    assert(">"@ =~= seq!['>']);
}

/// A closing tag renders as `</`, the text of its content, and `>`.
pub proof fn lemma_closing_tag_text<C: HtmlElement>(content: C, tag: ClosingTag<C>)
    requires
        call_ensures(ClosingTag::<C>::from, (content,), tag),
    ensures
        tag.text() == seq!['<', '/'] + content.text() + seq!['>'],
{
    reveal_strlit("</");
    reveal_strlit(">");
    assert("</"@ =~= seq!['<', '/']);
    assert(">"@ =~= seq!['>']);
}

/// Tags nest: a tag whose content is a tag renders the inner tag, brackets
/// and all, between its own brackets.
pub proof fn lemma_nested_opening_tags<C: HtmlElement>(
    content: C,
    inner: OpeningTag<C>,
    outer: OpeningTag<OpeningTag<C>>,
)
    requires
        call_ensures(OpeningTag::<C>::from, (content,), inner),
        call_ensures(OpeningTag::<OpeningTag<C>>::from, (inner,), outer),
    ensures
        outer.text() == seq!['<', '<'] + content.text() + seq!['>', '>'],
{
    lemma_opening_tag_text(content, inner);
    lemma_opening_tag_text(inner, outer);
    assert(outer.text() =~= seq!['<', '<'] + content.text() + seq!['>', '>']);
}

} // verus!
