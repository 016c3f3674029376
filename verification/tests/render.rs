use typed_markup::element::html::Html;
use typed_markup::element::{render_to_string, Absent, ClosingTag, HtmlElement, OpeningTag};
use typed_markup::sink::{BoundedString, Sink, WriteError};

#[test]
pub fn render_basic_html() {
    let head = "<head></head>";
    let body = "<body></body>";

    let html = Html::head(head).body(body);

    assert_eq!(
        html.to_string(),
        format!("<!DOCTYPE html><html>{}{}</html>", head, body)
    );
}

#[test]
fn document_with_head_and_body_is_one_unbroken_text() {
    let html = Html::head("<head></head>").body("<body></body>");
    assert_eq!(
        html.to_string(),
        "<!DOCTYPE html><html><head></head><body></body></html>"
    );
}

#[test]
fn head_only_document_has_an_empty_body() {
    let html = Html::head("<head><title>t</title></head>");
    assert_eq!(
        html.to_string(),
        "<!DOCTYPE html><html><head><title>t</title></head></html>"
    );
}

#[test]
fn document_without_head_or_body() {
    let html = Html::head(Absent);
    assert_eq!(html.to_string(), "<!DOCTYPE html><html></html>");
}

#[test]
fn document_with_absent_body_set_explicitly() {
    let html = Html::head("h").body(Absent);
    assert_eq!(html.to_string(), "<!DOCTYPE html><html>h</html>");
}

#[test]
fn document_slots_take_tags() {
    let head: OpeningTag<&str> = OpeningTag::from("head");
    let body: ClosingTag<&str> = ClosingTag::from("body");
    let html = Html::head(head).body(body);
    assert_eq!(html.to_string(), "<!DOCTYPE html><html><head></body></html>");
}

#[test]
fn document_nests_in_a_document() {
    let inner = Html::head("a").body("b");
    let outer = Html::head(inner).body("c");
    assert_eq!(
        outer.to_string(),
        "<!DOCTYPE html><html><!DOCTYPE html><html>ab</html>c</html>"
    );
}

#[test]
fn absent_renders_as_the_empty_string() {
    assert_eq!(Absent.to_string(), "");
    assert_eq!(render_to_string(&Absent), "");
}

#[test]
fn absent_leaves_the_sink_as_it_was() {
    let mut out = String::from("kept");
    assert_eq!(Absent.render(&mut out), Ok(()));
    assert_eq!(out, "kept");
}

#[test]
fn absent_in_tags_gives_empty_tags() {
    let open: OpeningTag<Absent> = OpeningTag::from(Absent);
    let close: ClosingTag<Absent> = ClosingTag::from(Absent);
    assert_eq!(open.to_string(), "<>");
    assert_eq!(close.to_string(), "</>");
}

#[test]
fn plain_text_renders_verbatim() {
    assert_eq!(render_to_string(&"a < b & c"), "a < b & c");
    assert_eq!(render_to_string(&""), "");
    assert_eq!(render_to_string(&"h\u{e9}llo \u{4e16}\u{754c}"), "h\u{e9}llo \u{4e16}\u{754c}");
}

#[test]
fn opening_tag_puts_content_in_angle_brackets() {
    let tag: OpeningTag<&str> = OpeningTag::from("div");
    assert_eq!(tag.to_string(), "<div>");
}

#[test]
fn closing_tag_puts_a_slash_before_the_content() {
    let tag: ClosingTag<&str> = ClosingTag::from("div");
    assert_eq!(tag.to_string(), "</div>");
}

#[test]
fn tag_content_is_not_escaped() {
    let tag: OpeningTag<&str> = OpeningTag::from("a href=\"x>y\"");
    assert_eq!(tag.to_string(), "<a href=\"x>y\">");
}

#[test]
fn nested_opening_tags_render_inner_first() {
    let inner: OpeningTag<&str> = OpeningTag::from("div");
    let outer: OpeningTag<OpeningTag<&str>> = OpeningTag::from(inner);
    assert_eq!(outer.to_string(), "<<div>>");
}

#[test]
fn tags_nest_to_any_depth_and_mix_roles() {
    let a: ClosingTag<&str> = ClosingTag::from("span");
    let b: OpeningTag<ClosingTag<&str>> = OpeningTag::from(a);
    let c: ClosingTag<OpeningTag<ClosingTag<&str>>> = ClosingTag::from(b);
    assert_eq!(c.to_string(), "</<</span>>>");
}

#[test]
fn rendering_twice_gives_the_same_text() {
    let html = Html::head("<head></head>").body("<body></body>");
    let first = html.to_string();
    let second = html.to_string();
    assert_eq!(first, second);

    let mut a = String::new();
    let mut b = String::new();
    assert_eq!(html.render(&mut a), Ok(()));
    assert_eq!(html.render(&mut b), Ok(()));
    assert_eq!(a, b);
    assert_eq!(a, first);
}

#[test]
fn rendering_appends_to_what_the_sink_holds() {
    let tag: OpeningTag<&str> = OpeningTag::from("p");
    let mut out = String::from("before");
    assert_eq!(tag.render(&mut out), Ok(()));
    assert_eq!(out, "before<p>");
    assert_eq!(tag.render(&mut out), Ok(()));
    assert_eq!(out, "before<p><p>");
}

#[test]
fn string_sink_appends_a_fragment() {
    let mut out = String::from("ab");
    assert_eq!(out.write_str("cd"), Ok(()));
    assert_eq!(out, "abcd");
    assert_eq!(out.write_str(""), Ok(()));
    assert_eq!(out, "abcd");
}

#[test]
fn element_names() {
    assert_eq!(<Html as HtmlElement>::ELEMENT_NAME, "html");
    assert_eq!(<Html<&str, &str> as HtmlElement>::ELEMENT_NAME, "html");
    assert_eq!(<Absent as HtmlElement>::ELEMENT_NAME, "");
    assert_eq!(<&str as HtmlElement>::ELEMENT_NAME, "");
    assert_eq!(<OpeningTag<&str> as HtmlElement>::ELEMENT_NAME, "");
    assert_eq!(<ClosingTag<&str> as HtmlElement>::ELEMENT_NAME, "");
}

#[test]
fn sink_with_room_takes_the_whole_document() {
    let html = Html::head("h").body("b");
    let mut sink = BoundedString::new(30);
    assert_eq!(html.render(&mut sink), Ok(()));
    assert_eq!(sink.as_str(), "<!DOCTYPE html><html>hb</html>");
    assert_eq!(sink.remaining(), 0);
}

#[test]
fn failure_of_the_sink_is_handed_on() {
    let html = Html::head("h").body("b");
    let mut sink = BoundedString::new(29);
    assert_eq!(html.render(&mut sink), Err(WriteError));
    assert_eq!(sink.as_str(), "<!DOCTYPE html><html>hb</html");
}

#[test]
fn failed_rendering_leaves_a_prefix_of_the_text() {
    let html = Html::head("<head></head>").body("<body></body>");
    let full = html.to_string();
    let total = full.chars().count();
    for room in 0..total {
        let mut sink = BoundedString::new(room);
        assert_eq!(html.render(&mut sink), Err(WriteError));
        assert!(sink.as_str().chars().count() <= room);
        assert!(full.starts_with(sink.as_str()));
        assert_eq!(sink.as_str().chars().count() + sink.remaining(), room);
    }
    let mut sink = BoundedString::new(total);
    assert_eq!(html.render(&mut sink), Ok(()));
    assert_eq!(sink.as_str(), full);
}

#[test]
fn failure_inside_a_tag_stops_the_rendering() {
    let tag: ClosingTag<&str> = ClosingTag::from("section");
    let mut sink = BoundedString::new(4);
    assert_eq!(tag.render(&mut sink), Err(WriteError));
    assert_eq!(sink.as_str(), "</");
    assert_eq!(sink.remaining(), 2);

    let mut none = BoundedString::new(0);
    assert_eq!(tag.render(&mut none), Err(WriteError));
    assert_eq!(none.as_str(), "");
}

#[test]
fn rendering_again_after_a_failure_is_correct() {
    let html = Html::head("h");
    let mut small = BoundedString::new(3);
    assert_eq!(html.render(&mut small), Err(WriteError));
    let mut fresh = String::new();
    assert_eq!(html.render(&mut fresh), Ok(()));
    assert_eq!(fresh, "<!DOCTYPE html><html>h</html>");
}

#[test]
fn absent_succeeds_on_a_full_sink() {
    let mut sink = BoundedString::new(0);
    assert_eq!(Absent.render(&mut sink), Ok(()));
    assert_eq!(sink.as_str(), "");
}

#[test]
fn bounded_string_starts_empty() {
    let sink = BoundedString::new(7);
    assert_eq!(sink.as_str(), "");
    assert_eq!(sink.remaining(), 7);
}

#[test]
fn bounded_string_takes_a_fragment_whole_or_not_at_all() {
    let mut sink = BoundedString::new(5);
    assert_eq!(sink.write_str("abc"), Ok(()));
    assert_eq!(sink.as_str(), "abc");
    assert_eq!(sink.remaining(), 2);
    assert_eq!(sink.write_str("def"), Err(WriteError));
    assert_eq!(sink.as_str(), "abc");
    assert_eq!(sink.remaining(), 2);
    assert_eq!(sink.write_str("de"), Ok(()));
    assert_eq!(sink.as_str(), "abcde");
    assert_eq!(sink.remaining(), 0);
    assert_eq!(sink.write_str(""), Ok(()));
    assert_eq!(sink.write_str("f"), Err(WriteError));
    assert_eq!(sink.as_str(), "abcde");
}

#[test]
fn bounded_string_counts_characters() {
    let mut sink = BoundedString::new(3);
    assert_eq!(sink.write_str("\u{e9}\u{4e16}\u{1f600}"), Ok(()));
    assert_eq!(sink.as_str(), "\u{e9}\u{4e16}\u{1f600}");
    assert_eq!(sink.remaining(), 0);
}

#[test]
fn text_that_fits_exactly_is_rendered() {
    let tag: OpeningTag<&str> = OpeningTag::from("div");
    let mut sink = BoundedString::new(5);
    assert_eq!(tag.render(&mut sink), Ok(()));
    assert_eq!(sink.as_str(), "<div>");
    assert_eq!(sink.remaining(), 0);
    assert_eq!(Absent.render(&mut sink), Ok(()));
    assert_eq!(tag.render(&mut sink), Err(WriteError));
    assert_eq!(sink.as_str(), "<div>");
}
