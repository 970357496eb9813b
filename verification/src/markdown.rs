//! Release notes: Markdown in, HTML out, with raw HTML shown as text.

use pulldown_cmark::{html, Event, Options, Parser};
use vstd::prelude::*;
use vstd::string::*;

use crate::text;

verus! {

/// A part of a Markdown text, as far as its rendering here depends on it.
#[derive(Debug)]
pub enum NoteEvent {
    /// A line of a raw HTML block.
    Html(String),
    /// A raw HTML tag within a line.
    InlineHtml(String),
    /// Plain text.
    Text(String),
    /// The part that the parser finds at this place.
    Other,
}

/// The model of a part of a Markdown text.
pub enum NoteEventView {
    Html(Seq<char>),
    InlineHtml(Seq<char>),
    Text(Seq<char>),
    Other,
}

impl View for NoteEvent {
    type V = NoteEventView;

    open spec fn view(&self) -> NoteEventView {
        match self {
            NoteEvent::Html(s) => NoteEventView::Html(s@),
            NoteEvent::InlineHtml(s) => NoteEventView::InlineHtml(s@),
            NoteEvent::Text(s) => NoteEventView::Text(s@),
            NoteEvent::Other => NoteEventView::Other,
        }
    }
}

/// The models of the parts of a Markdown text.
pub open spec fn events_view(events: Seq<NoteEvent>) -> Seq<NoteEventView> {
    Seq::new(events.len(), |i: int| events[i]@)
}

/// The parts that `pulldown_cmark::Parser` finds in a text, with strikethrough and tables
/// switched on or off and every other extension off.
pub uninterp spec fn markdown_events(
    s: Seq<char>,
    strikethrough: bool,
    tables: bool,
) -> Seq<NoteEventView>;

/// What `pulldown_cmark::html::push_html` writes for the parts of a text, where each part that
/// is not `Other` in `events` stands in place of the part that the parser finds there.
pub uninterp spec fn markdown_html(
    s: Seq<char>,
    strikethrough: bool,
    tables: bool,
    events: Seq<NoteEventView>,
) -> Seq<char>;

/// Whether a rendering with `events` passes on no raw HTML: every part is plain text, or one
/// that the parser itself found and that is no raw HTML.
pub open spec fn passes_no_raw_html(
    found: Seq<NoteEventView>,
    events: Seq<NoteEventView>,
) -> bool {
    &&& events.len() <= found.len()
    &&& forall|i: int|
        0 <= i < events.len() ==> ((#[trigger] events[i]) is Text || (events[i] is Other && found[i]
            is Other))
}

/// The elements that the renderer writes without attributes.
pub open spec fn is_own_element(name: Seq<char>) -> bool {
    ||| name == "p"@ || name == "h1"@ || name == "h2"@ || name == "h3"@ || name == "h4"@
    ||| name == "h5"@ || name == "h6"@ || name == "table"@ || name == "thead"@ || name == "tbody"@
    ||| name == "tr"@ || name == "th"@ || name == "td"@ || name == "blockquote"@ || name == "pre"@
    ||| name == "code"@ || name == "ol"@ || name == "ul"@ || name == "li"@ || name == "em"@
    ||| name == "strong"@ || name == "del"@
}

/// Whether a text can stand between the quotes of an attribute: it holds neither a quote nor an
/// angle bracket.
pub open spec fn is_attribute_text(value: Seq<char>) -> bool {
    !value.contains('"') && !value.contains('<') && !value.contains('>')
}

/// A start tag of the renderer with one attribute, which ends with `value`.
pub open spec fn is_one_attribute_tag(tag: Seq<char>, value: Seq<char>) -> bool {
    ||| tag == "<a href=\""@ + value + "\">"@
    ||| tag == "<ol start=\""@ + value + "\">"@
    ||| tag == "<code class=\"language-"@ + value + "\">"@
    ||| tag == "<th style=\"text-align: "@ + value + "\">"@
    ||| tag == "<td style=\"text-align: "@ + value + "\">"@
}

/// Whether a text is a tag of the renderer's own: one of an element without attributes, a line
/// break or rule, the end of a link, or the start of an element with the attributes that the
/// renderer gives it, and with no others.
pub open spec fn is_own_tag(tag: Seq<char>) -> bool {
    ||| tag == "<br />"@ || tag == "<hr />"@ || tag == "</a>"@
    ||| exists|name: Seq<char>|
        #[trigger] is_own_element(name) && (tag == "<"@ + name + ">"@ || tag == "</"@ + name
            + ">"@)
    ||| exists|value: Seq<char>|
        is_attribute_text(value) && #[trigger] is_one_attribute_tag(tag, value)
    ||| exists|href: Seq<char>, title: Seq<char>|
        #[trigger] is_attribute_text(href) && #[trigger] is_attribute_text(title) && tag
            == "<a href=\""@ + href + "\" title=\""@ + title + "\">"@
    ||| exists|src: Seq<char>, alt: Seq<char>|
        #[trigger] is_attribute_text(src) && #[trigger] is_attribute_text(alt) && tag
            == "<img src=\""@ + src + "\" alt=\""@ + alt + "\" />"@
    ||| exists|src: Seq<char>, alt: Seq<char>, title: Seq<char>|
        #[trigger] is_attribute_text(src) && #[trigger] is_attribute_text(alt)
            && #[trigger] is_attribute_text(title) && tag == "<img src=\""@ + src + "\" alt=\""@
            + alt + "\" title=\""@ + title + "\" />"@
}

/// Whether a tag of the renderer's own stands in an HTML text from position `i` to position `j`.
pub open spec fn own_tag_at(s: Seq<char>, i: int, j: int) -> bool {
    i < j <= s.len() && is_own_tag(s.subrange(i, j))
}

/// Whether every angle bracket that opens in an HTML text opens a tag of the renderer's own.
pub open spec fn holds_only_own_tags(s: Seq<char>) -> bool {
    forall|i: int|
        0 <= i < s.len() && (#[trigger] s[i]) == '<' ==> exists|j: int| own_tag_at(s, i, j)
}

/// The letter `c` in lower case, where it is an ASCII letter.
pub open spec fn ascii_lower(c: char) -> char {
    if 'A' <= c <= 'Z' {
        (c as u32 + 0x20) as char
    } else {
        c
    }
}

/// Whether a `script` tag opens at position `i` of an HTML text.
pub open spec fn opens_script(s: Seq<char>, i: int) -> bool {
    &&& 0 <= i <= s.len() - 7
    &&& s[i] == '<'
    &&& ascii_lower(s[i + 1]) == 's'
    &&& ascii_lower(s[i + 2]) == 'c'
    &&& ascii_lower(s[i + 3]) == 'r'
    &&& ascii_lower(s[i + 4]) == 'i'
    &&& ascii_lower(s[i + 5]) == 'p'
    &&& ascii_lower(s[i + 6]) == 't'
}

/// Whether no `script` tag opens anywhere in an HTML text.
pub open spec fn opens_no_script(s: Seq<char>) -> bool {
    forall|i: int| !#[trigger] opens_script(s, i)
}

/// Calls `pulldown_cmark::Parser::new_ext` and collects what the parser yields. The result is a
/// function of the arguments alone.
#[verifier::external_body]
pub(crate) fn parse_markdown(s: &str, strikethrough: bool, tables: bool) -> (r: Vec<NoteEvent>)
    ensures
        events_view(r@) == markdown_events(s@, strikethrough, tables),
{
    let mut options = Options::empty();
    options.set(Options::ENABLE_STRIKETHROUGH, strikethrough);
    options.set(Options::ENABLE_TABLES, tables);
    let convert = |event| match event {
        Event::Html(s) => NoteEvent::Html(s.into_string()),
        Event::InlineHtml(s) => NoteEvent::InlineHtml(s.into_string()),
        Event::Text(s) => NoteEvent::Text(s.into_string()),
        _ => NoteEvent::Other,
    };
    Parser::new_ext(s, options).map(convert).collect()
}

/// Calls `pulldown_cmark::html::push_html` on what the parser yields for the text, with the parts
/// that `events` replaces. The result is a function of the arguments alone. Everything that
/// `push_html` writes is a tag of its own or escaped text, except for raw HTML, which it copies.
/// In text it escapes angle brackets, in an attribute also quotes. Its tags are those of
/// `is_own_tag`; it has others for extensions of Markdown that are off here.
#[verifier::external_body]
pub(crate) fn render_markdown(
    s: &str,
    strikethrough: bool,
    tables: bool,
    events: Vec<NoteEvent>,
) -> (r: String)
    ensures
        r@ == markdown_html(s@, strikethrough, tables, events_view(events@)),
        passes_no_raw_html(markdown_events(s@, strikethrough, tables), events_view(events@))
            ==> holds_only_own_tags(r@),
{
    let mut options = Options::empty();
    options.set(Options::ENABLE_STRIKETHROUGH, strikethrough);
    options.set(Options::ENABLE_TABLES, tables);
    let replace = |(found, event)| match event {
        NoteEvent::Html(s) => Event::Html(s.into()),
        NoteEvent::InlineHtml(s) => Event::InlineHtml(s.into()),
        NoteEvent::Text(s) => Event::Text(s.into()),
        NoteEvent::Other => found,
    };
    let mut out = String::new();
    html::push_html(&mut out, Parser::new_ext(s, options).zip(events).map(replace));
    out
}

/// A part of a Markdown text with raw HTML turned into plain text.
pub open spec fn as_text(event: NoteEventView) -> NoteEventView {
    match event {
        NoteEventView::Html(s) => NoteEventView::Text(s),
        NoteEventView::InlineHtml(s) => NoteEventView::Text(s),
        other => other,
    }
}

/// The parts of a Markdown text with raw HTML turned into plain text.
pub open spec fn demoted(events: Seq<NoteEventView>) -> Seq<NoteEventView> {
    Seq::new(events.len(), |i: int| as_text(events[i]))
}

/// Turns raw HTML into plain text, which the renderer escapes.
pub fn demote_raw_html(events: Vec<NoteEvent>) -> (r: Vec<NoteEvent>)
    ensures
        events_view(r@) == demoted(events_view(events@)),
{
    let ghost expected = demoted(events_view(events@));
    let mut out: Vec<NoteEvent> = Vec::new();
    for event in it: events
        invariant
            it.seq() == events@,
            expected == demoted(events_view(events@)),
            out@.len() == it.index(),
            forall|k: int| 0 <= k < out@.len() ==> (#[trigger] out@[k])@ == expected[k],
    {
        let part = match event {
            NoteEvent::Html(s) => NoteEvent::Text(s),
            NoteEvent::InlineHtml(s) => NoteEvent::Text(s),
            other => other,
        };
        out.push(part);
    }
    assert(events_view(out@) == expected);
    out
}

/// The HTML of release notes: nothing for blank notes; otherwise what the renderer makes of them
/// with strikethrough, tables, and raw HTML turned into plain text.
pub open spec fn notes_html(notes: Seq<char>) -> Seq<char> {
    let content = text::trimmed(notes);
    if content.len() == 0 {
        seq![]
    } else {
        markdown_html(content, true, true, demoted(markdown_events(content, true, true)))
    }
}

/// No tag of the renderer's own begins as that of a script does.
proof fn lemma_own_tag_is_no_script(tag: Seq<char>)
    requires
        is_own_tag(tag),
        tag.len() > 2,
    ensures
        !(ascii_lower(tag[1]) == 's' && ascii_lower(tag[2]) == 'c'),
{
    lemma_tag_literals();
    lemma_element_literals();
    if exists|name: Seq<char>|
        #[trigger] is_own_element(name) && (tag == "<"@ + name + ">"@ || tag == "</"@ + name
            + ">"@) {
        let name = choose|name: Seq<char>|
            #[trigger] is_own_element(name) && (tag == "<"@ + name + ">"@ || tag == "</"@ + name
                + ">"@);
        if tag == "<"@ + name + ">"@ {
            assert(tag[1] == name[0]);
            if name[0] == 's' {
                assert(name == "strong"@);
                assert(tag[2] == name[1]);
            }
        } else {
            assert(tag[1] == '/');
        }
    }
}

/// What the tags with attributes, and those of no element, begin with.
proof fn lemma_tag_literals()
    ensures
        "<"@ == seq!['<'],
        "</"@ == seq!['<', '/'],
        ">"@ == seq!['>'],
        "<br />"@.len() > 2 && "<br />"@[1] == 'b',
        "<hr />"@.len() > 2 && "<hr />"@[1] == 'h',
        "</a>"@.len() > 2 && "</a>"@[1] == '/',
        "<a href=\""@.len() > 2 && "<a href=\""@[1] == 'a',
        "<ol start=\""@.len() > 2 && "<ol start=\""@[1] == 'o',
        "<code class=\"language-"@.len() > 2 && "<code class=\"language-"@[1] == 'c',
        "<th style=\"text-align: "@.len() > 2 && "<th style=\"text-align: "@[1] == 't',
        "<td style=\"text-align: "@.len() > 2 && "<td style=\"text-align: "@[1] == 't',
        "<img src=\""@.len() > 2 && "<img src=\""@[1] == 'i',
{
    reveal_strlit("<");
    reveal_strlit("</");
    reveal_strlit(">");
    reveal_strlit("<br />");
    reveal_strlit("<hr />");
    reveal_strlit("</a>");
    reveal_strlit("<a href=\"");
    reveal_strlit("<ol start=\"");
    reveal_strlit("<code class=\"language-");
    reveal_strlit("<th style=\"text-align: ");
    reveal_strlit("<td style=\"text-align: ");
    reveal_strlit("<img src=\"");
    assert("<"@ == seq!['<']);
    assert("</"@ == seq!['<', '/']);
    assert(">"@ == seq!['>']);
}

/// What the elements without attributes begin with.
proof fn lemma_element_literals()
    ensures
        forall|name: Seq<char>| #[trigger]
            is_own_element(name) ==> name.len() > 0 && 'a' <= name[0] <= 'z' && (name[0] == 's'
                ==> name == "strong"@),
        "strong"@.len() == 6 && "strong"@[1] == 't',
{
    reveal_strlit("p");
    reveal_strlit("h1");
    reveal_strlit("h2");
    reveal_strlit("h3");
    reveal_strlit("h4");
    reveal_strlit("h5");
    reveal_strlit("h6");
    reveal_strlit("table");
    reveal_strlit("thead");
    reveal_strlit("tbody");
    reveal_strlit("tr");
    reveal_strlit("th");
    reveal_strlit("td");
    reveal_strlit("blockquote");
    reveal_strlit("pre");
    reveal_strlit("code");
    reveal_strlit("ol");
    reveal_strlit("ul");
    reveal_strlit("li");
    reveal_strlit("em");
    reveal_strlit("strong");
    reveal_strlit("del");
}

/// A text that holds only the renderer's own tags opens no script.
pub proof fn law_own_tags_open_no_script(s: Seq<char>)
    requires
        holds_only_own_tags(s),
    ensures
        opens_no_script(s),
{
    assert forall|i: int| !#[trigger] opens_script(s, i) by {
        if opens_script(s, i) {
            assert(s[i] == '<');
            let j = choose|j: int| own_tag_at(s, i, j);
            let tag = s.subrange(i, j);
            lemma_own_tag_is_long(tag);
            lemma_own_tag_is_no_script(tag);
            assert(tag[1] == s[i + 1] && tag[2] == s[i + 2]);
        }
    }
}

proof fn lemma_own_tag_is_long(tag: Seq<char>)
    requires
        is_own_tag(tag),
    ensures
        tag.len() > 2,
{
    lemma_tag_literals();
    lemma_element_literals();
}

/// Renders release notes from Markdown to HTML. Raw HTML in them is shown as it is written and
/// never becomes part of the page: whatever tag the page gets is one of the renderer's own, with
/// the renderer's own attributes.
pub fn render_notes(notes: &str) -> (r: String)
    ensures
        r@ == notes_html(notes@),
        holds_only_own_tags(r@),
        opens_no_script(r@),
{
    let content = text::trim(notes);
    if content.is_empty() {
        return String::new();
    }
    let found = parse_markdown(content, true, true);
    let ghost before = events_view(found@);
    let events = demote_raw_html(found);
    proof {
        assert(events_view(events@).len() == demoted(before).len());
        assert forall|i: int| 0 <= i < events@.len() implies ((#[trigger] events_view(
            events@,
        )[i]) is Text || (events_view(events@)[i] is Other && before[i] is Other)) by {
            assert(events_view(events@)[i] == as_text(before[i]));
        }
    }
    let html = render_markdown(content, true, true, events);
    proof {
        law_own_tags_open_no_script(html@);
    }
    html
}

/// Once raw HTML is turned into plain text none is left, and nothing else has changed.
pub proof fn law_no_raw_html_is_left(events: Seq<NoteEventView>, i: int)
    requires
        0 <= i < events.len(),
    ensures
        demoted(events).len() == events.len(),
        !(demoted(events)[i] is Html) && !(demoted(events)[i] is InlineHtml),
        events[i] matches NoteEventView::Html(s) ==> demoted(events)[i] == NoteEventView::Text(s),
        events[i] matches NoteEventView::InlineHtml(s) ==> demoted(events)[i]
            == NoteEventView::Text(s),
        events[i] is Text || events[i] is Other ==> demoted(events)[i] == events[i],
{
}

/// White space around notes does not matter, blank notes show nothing, and all others are what the
/// renderer writes for their parts, with raw HTML turned into text.
pub proof fn law_notes_are_rendered_whole(notes: Seq<char>)
    ensures
        text::trimmed(notes).len() == 0 ==> notes_html(notes) == Seq::<char>::empty(),
        text::trimmed(notes).len() > 0 ==> notes_html(notes) == markdown_html(
            text::trimmed(notes),
            true,
            true,
            demoted(markdown_events(text::trimmed(notes), true, true)),
        ),
{
}

/// The model of the parts of a text holds each of them in turn.
pub proof fn law_model_of_the_parts_is_complete(events: Seq<NoteEvent>, i: int)
    requires
        0 <= i < events.len(),
    ensures
        events_view(events).len() == events.len(),
        events_view(events)[i] == events[i]@,
        match events[i] {
            NoteEvent::Html(s) => events[i]@ == NoteEventView::Html(s@),
            NoteEvent::InlineHtml(s) => events[i]@ == NoteEventView::InlineHtml(s@),
            NoteEvent::Text(s) => events[i]@ == NoteEventView::Text(s@),
            NoteEvent::Other => events[i]@ == NoteEventView::Other,
        },
{
}

} // verus!
