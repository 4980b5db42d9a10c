//! What holds of the Pango markup of every document.
use vstd::prelude::*;
use crate::escape::{escaped, law_nul_ends_the_text};
use crate::markdown::{is_balanced, open_spans, MarkdownEvent, Span};
use crate::markup::{
    is_character_data, is_style, is_well_formed, law_escaped_text_is_shown_verbatim, leads,
    lemma_data_chars, lemma_escaped_is_data,
    lemma_leads_concat, lemma_leads_data, lemma_leads_empty, lemma_leads_tag, lemma_shows_concat,
    lemma_shows_escaped, lemma_shows_nothing, lemma_shows_plain, lemma_shows_tag, link_tag,
    open_elements, shown_text, shows,
};
use crate::pango::{end_markup, event_markup, pango_markup, start_markup};

verus! {

/// The element that shows a part.
pub open spec fn element(span: Span) -> Option<Seq<char>> {
    match span {
        Span::Heading => Some("b"@),
        Span::Strong => Some("b"@),
        Span::Emphasis => Some("i"@),
        Span::BlockQuote => Some("i"@),
        Span::Strikethrough => Some("s"@),
        Span::CodeBlock => Some("tt"@),
        Span::Link => Some("a"@),
        _ => None,
    }
}

/// The elements that show the open parts.
pub open spec fn elements(open: Seq<Span>) -> Seq<Seq<char>>
    decreases open.len(),
{
    if open.len() == 0 {
        Seq::empty()
    } else {
        match element(open.last()) {
            Some(name) => elements(open.drop_last()).push(name),
            None => elements(open.drop_last()),
        }
    }
}

/// The tags that open the elements without attributes.
proof fn lemma_leads_open(piece: Seq<char>, name: Seq<char>, open: Seq<Seq<char>>)
    requires
        is_style(name),
        piece =~= seq!['<'] + name + seq!['>'],
    ensures
        leads(piece, open, open.push(name)),
{
    reveal_strlit("b");
    reveal_strlit("i");
    reveal_strlit("s");
    reveal_strlit("tt");
    lemma_leads_tag(name, open, open.push(name));
}

/// The tags that close elements.
proof fn lemma_leads_close(piece: Seq<char>, name: Seq<char>, open: Seq<Seq<char>>)
    requires
        is_style(name) || name == "a"@,
        piece =~= seq!['<', '/'] + name + seq!['>'],
    ensures
        leads(piece, open.push(name), open),
{
    reveal_strlit("b");
    reveal_strlit("i");
    reveal_strlit("s");
    reveal_strlit("tt");
    reveal_strlit("a");
    let tag = seq!['/'] + name;
    assert(tag.skip(1) == name);
    assert(open.push(name).drop_last() == open);
    lemma_leads_tag(tag, open.push(name), open);
    assert(piece == seq!['<'] + tag + seq!['>']);
}

/// The tag that opens a link.
proof fn lemma_leads_link(dest_url: Seq<char>, open: Seq<Seq<char>>)
    ensures
        leads("<a href=\""@ + escaped(dest_url) + "\">"@, open, open.push("a"@)),
{
    reveal_strlit("<a href=\"");
    reveal_strlit("\">");
    reveal_strlit("a href=\"");
    reveal_strlit("\"");
    reveal_strlit("b");
    reveal_strlit("i");
    reveal_strlit("s");
    reveal_strlit("tt");
    let target = escaped(dest_url);
    lemma_escaped_is_data(dest_url);
    lemma_data_chars(target);
    let tag = link_tag(target);
    assert(tag[0] == 'a');
    lemma_leads_tag(tag, open, open.push("a"@));
    assert("<a href=\""@ + target + "\">"@ == seq!['<'] + tag + seq!['>']);
}

/// A few fixed texts without markup.
proof fn lemma_fixed_data()
    ensures
        is_character_data("\n"@),
        is_character_data("• "@),
        is_character_data("│ "@),
{
    reveal_with_fuel(is_character_data, 3);
    reveal_strlit("\n");
    reveal_strlit("• ");
    reveal_strlit("│ ");
}

/// The beginning of a part opens its element.
proof fn lemma_start_markup(span: Span, dest_url: Seq<char>, at_start: bool, open: Seq<Span>)
    ensures
        leads(start_markup(span, dest_url, at_start), elements(open), elements(open.push(span))),
{
    let inner = open.push(span);
    assert(inner.drop_last() == open);
    let e = elements(open);
    lemma_fixed_data();
    lemma_leads_empty(e);
    reveal_strlit("<b>");
    reveal_strlit("<i>");
    reveal_strlit("<s>");
    reveal_strlit("<tt>");
    reveal_strlit("<i>│ ");
    reveal_strlit("│ ");
    reveal_strlit("b");
    reveal_strlit("i");
    reveal_strlit("s");
    reveal_strlit("tt");
    match span {
        Span::Paragraph => {
            lemma_leads_data("\n"@, e);
        },
        Span::Heading => {
            lemma_leads_open("<b>"@, "b"@, e);
        },
        Span::Strong => {
            lemma_leads_open("<b>"@, "b"@, e);
        },
        Span::Emphasis => {
            lemma_leads_open("<i>"@, "i"@, e);
        },
        Span::Strikethrough => {
            lemma_leads_open("<s>"@, "s"@, e);
        },
        Span::CodeBlock => {
            lemma_leads_open("<tt>"@, "tt"@, e);
        },
        Span::Link => {
            lemma_leads_link(dest_url, e);
        },
        Span::Item => {
            lemma_leads_data("• "@, e);
        },
        Span::BlockQuote => {
            lemma_leads_open("<i>"@, "i"@, e);
            lemma_leads_data("│ "@, e.push("i"@));
            lemma_leads_concat("<i>"@, "│ "@, e, e.push("i"@), e.push("i"@));
            assert("<i>│ "@ == "<i>"@ + "│ "@);
        },
        _ => {},
    }
}

/// The end of a part closes its element.
proof fn lemma_end_markup(span: Span, open: Seq<Span>)
    requires
        open.len() > 0,
        open.last() == span,
    ensures
        leads(end_markup(span), elements(open), elements(open.drop_last())),
{
    let e = elements(open.drop_last());
    lemma_fixed_data();
    lemma_leads_empty(e);
    lemma_leads_data("\n"@, e);
    reveal_strlit("\n");
    reveal_strlit("</b>\n");
    reveal_strlit("</b>");
    reveal_strlit("</i>");
    reveal_strlit("</s>");
    reveal_strlit("</a>");
    reveal_strlit("</i>\n");
    reveal_strlit("</tt>\n");
    reveal_strlit("</tt>");
    reveal_strlit("b");
    reveal_strlit("i");
    reveal_strlit("s");
    reveal_strlit("tt");
    reveal_strlit("a");
    match span {
        Span::Heading => {
            lemma_leads_close("</b>"@, "b"@, e);
            lemma_leads_concat("</b>"@, "\n"@, e.push("b"@), e, e);
            assert("</b>\n"@ == "</b>"@ + "\n"@);
        },
        Span::Strong => {
            lemma_leads_close("</b>"@, "b"@, e);
        },
        Span::Emphasis => {
            lemma_leads_close("</i>"@, "i"@, e);
        },
        Span::Strikethrough => {
            lemma_leads_close("</s>"@, "s"@, e);
        },
        Span::Link => {
            lemma_leads_close("</a>"@, "a"@, e);
        },
        Span::BlockQuote => {
            lemma_leads_close("</i>"@, "i"@, e);
            lemma_leads_concat("</i>"@, "\n"@, e.push("i"@), e, e);
            assert("</i>\n"@ == "</i>"@ + "\n"@);
        },
        Span::CodeBlock => {
            lemma_leads_close("</tt>"@, "tt"@, e);
            lemma_leads_concat("</tt>"@, "\n"@, e.push("tt"@), e, e);
            assert("</tt>\n"@ == "</tt>"@ + "\n"@);
        },
        _ => {},
    }
}

/// Inline code opens an element and closes it again.
proof fn lemma_code_markup(code: Seq<char>, open: Seq<Seq<char>>)
    ensures
        leads("<tt>"@ + escaped(code) + "</tt>"@, open, open),
{
    reveal_strlit("<tt>");
    reveal_strlit("</tt>");
    reveal_strlit("tt");
    let inner = open.push("tt"@);
    lemma_escaped_is_data(code);
    lemma_leads_open("<tt>"@, "tt"@, open);
    lemma_leads_data(escaped(code), inner);
    lemma_leads_close("</tt>"@, "tt"@, open);
    lemma_leads_concat("<tt>"@, escaped(code), open, inner, inner);
    lemma_leads_concat("<tt>"@ + escaped(code), "</tt>"@, open, inner, open);
}

/// The markup of the events so far leads to the elements of the parts that are open.
proof fn lemma_pango_leads(events: Seq<MarkdownEvent<Seq<char>>>)
    requires
        open_spans(events) is Some,
    ensures
        leads(pango_markup(events), Seq::empty(), elements(open_spans(events)->0)),
    decreases events.len(),
{
    if events.len() == 0 {
        lemma_leads_empty(Seq::empty());
    } else {
        let earlier = events.drop_last();
        let open = open_spans(earlier)->0;
        let before = pango_markup(earlier);
        let e = elements(open);
        lemma_pango_leads(earlier);
        let piece = event_markup(events.last(), before.len() == 0);
        match events.last() {
            MarkdownEvent::Start { span, dest_url } => {
                lemma_start_markup(span, dest_url, before.len() == 0, open);
            },
            MarkdownEvent::End(span) => {
                lemma_end_markup(span, open);
            },
            MarkdownEvent::Text(text) => {
                lemma_escaped_is_data(text);
                lemma_leads_data(escaped(text), e);
            },
            MarkdownEvent::Code(code) => {
                lemma_code_markup(code, e);
            },
            MarkdownEvent::SoftBreak => {
                lemma_fixed_data();
                lemma_leads_data("\n"@, e);
            },
            MarkdownEvent::HardBreak => {
                lemma_fixed_data();
                lemma_leads_data("\n"@, e);
            },
            MarkdownEvent::Other => {
                lemma_leads_empty(e);
            },
        }
        lemma_leads_concat(before, piece, Seq::empty(), e, elements(open_spans(events)->0));
    }
}

/// Where every part of a document that begins also ends, in the opposite order, the markup
/// is well-formed: its elements nest, and no text of the document is taken for markup.
pub proof fn law_balanced_events_give_well_formed_markup(events: Seq<MarkdownEvent<Seq<char>>>)
    requires
        is_balanced(events),
    ensures
        is_well_formed(pango_markup(events)),
{
    let pango = pango_markup(events);
    lemma_pango_leads(events);
    assert(open_elements(pango + Seq::<char>::empty(), Seq::empty()) == open_elements(
        Seq::<char>::empty(),
        elements(Seq::empty()),
    ));
}

/// What an event adds to the text that is shown. A paragraph begins on a new line, unless it
/// is the first thing in the markup.
pub open spec fn event_text(event: MarkdownEvent<Seq<char>>, at_start: bool) -> Seq<char> {
    match event {
        MarkdownEvent::Start { span: Span::Paragraph, .. } => if at_start {
            Seq::empty()
        } else {
            "\n"@
        },
        MarkdownEvent::Start { span: Span::Item, .. } => "• "@,
        MarkdownEvent::Start { span: Span::BlockQuote, .. } => "│ "@,
        MarkdownEvent::Start { .. } => Seq::empty(),
        MarkdownEvent::End(span) => match span {
            Span::Heading | Span::List | Span::Item | Span::BlockQuote | Span::CodeBlock => "\n"@,
            _ => Seq::empty(),
        },
        MarkdownEvent::Text(text) => text,
        MarkdownEvent::Code(code) => code,
        MarkdownEvent::SoftBreak => "\n"@,
        MarkdownEvent::HardBreak => "\n"@,
        MarkdownEvent::Other => Seq::empty(),
    }
}

/// The text of a document as it is shown, without its styles.
pub open spec fn plain_text(events: Seq<MarkdownEvent<Seq<char>>>) -> Seq<char>
    decreases events.len(),
{
    if events.len() == 0 {
        Seq::empty()
    } else {
        plain_text(events.drop_last()) + event_text(
            events.last(),
            pango_markup(events.drop_last()).len() == 0,
        )
    }
}

/// No text of the event holds the NUL that ends a text.
pub open spec fn is_nul_free(event: MarkdownEvent<Seq<char>>) -> bool {
    match event {
        MarkdownEvent::Text(text) => !text.contains('\0'),
        MarkdownEvent::Code(code) => !code.contains('\0'),
        _ => true,
    }
}

/// A tag written out shows nothing.
proof fn lemma_shows_literal_tag(piece: Seq<char>)
    requires
        piece.len() >= 2,
        piece[0] == '<',
        piece.last() == '>',
        forall|i: int| 0 <= i < piece.len() - 1 ==> piece[i] != '>',
    ensures
        shows(piece, Seq::empty()),
{
    let tag = piece.subrange(1, piece.len() - 1);
    lemma_shows_tag(tag);
    assert(seq!['<'] + tag + seq!['>'] =~= piece);
}

/// The fixed texts show themselves.
proof fn lemma_shows_fixed()
    ensures
        shows("\n"@, "\n"@),
        shows("• "@, "• "@),
        shows("│ "@, "│ "@),
{
    reveal_strlit("\n");
    reveal_strlit("• ");
    reveal_strlit("│ ");
    lemma_shows_plain('\n');
    lemma_shows_plain('•');
    lemma_shows_plain('│');
    lemma_shows_plain(' ');
    assert("\n"@ =~= seq!['\n']);
    lemma_shows_concat(seq!['•'], seq![' '], seq!['•'], seq![' ']);
    assert("• "@ =~= seq!['•'] + seq![' ']);
    lemma_shows_concat(seq!['│'], seq![' '], seq!['│'], seq![' ']);
    assert("│ "@ =~= seq!['│'] + seq![' ']);
}

/// The beginning of a part shows its mark, if it has one.
proof fn lemma_start_shows(span: Span, dest_url: Seq<char>, at_start: bool)
    ensures
        shows(
            start_markup(span, dest_url, at_start),
            event_text(MarkdownEvent::Start { span, dest_url }, at_start),
        ),
{
    lemma_shows_fixed();
    lemma_shows_nothing();
    reveal_strlit("<b>");
    reveal_strlit("<i>");
    reveal_strlit("<s>");
    reveal_strlit("<tt>");
    reveal_strlit("<i>│ ");
    reveal_strlit("│ ");
    match span {
        Span::Heading => {
            lemma_shows_literal_tag("<b>"@);
        },
        Span::Strong => {
            lemma_shows_literal_tag("<b>"@);
        },
        Span::Emphasis => {
            lemma_shows_literal_tag("<i>"@);
        },
        Span::Strikethrough => {
            lemma_shows_literal_tag("<s>"@);
        },
        Span::CodeBlock => {
            lemma_shows_literal_tag("<tt>"@);
        },
        Span::BlockQuote => {
            lemma_shows_literal_tag("<i>"@);
            lemma_shows_concat("<i>"@, "│ "@, Seq::empty(), "│ "@);
            assert("<i>│ "@ =~= "<i>"@ + "│ "@);
        },
        Span::Link => {
            reveal_strlit("<a href=\"");
            reveal_strlit("\">");
            let target = escaped(dest_url);
            lemma_escaped_is_data(dest_url);
            lemma_data_chars(target);
            let piece = "<a href=\""@ + target + "\">"@;
            lemma_shows_literal_tag(piece);
        },
        _ => {},
    }
}

/// The end of a part shows a line break, if it ends a line.
proof fn lemma_end_shows(span: Span)
    ensures
        shows(end_markup(span), event_text(MarkdownEvent::End(span), true)),
{
    lemma_shows_fixed();
    lemma_shows_nothing();
    reveal_strlit("\n");
    reveal_strlit("</b>\n");
    reveal_strlit("</b>");
    reveal_strlit("</i>");
    reveal_strlit("</s>");
    reveal_strlit("</a>");
    reveal_strlit("</i>\n");
    reveal_strlit("</tt>\n");
    reveal_strlit("</tt>");
    match span {
        Span::Heading => {
            lemma_shows_literal_tag("</b>"@);
            lemma_shows_concat("</b>"@, "\n"@, Seq::empty(), "\n"@);
            assert("</b>\n"@ =~= "</b>"@ + "\n"@);
        },
        Span::BlockQuote => {
            lemma_shows_literal_tag("</i>"@);
            lemma_shows_concat("</i>"@, "\n"@, Seq::empty(), "\n"@);
            assert("</i>\n"@ =~= "</i>"@ + "\n"@);
        },
        Span::CodeBlock => {
            lemma_shows_literal_tag("</tt>"@);
            lemma_shows_concat("</tt>"@, "\n"@, Seq::empty(), "\n"@);
            assert("</tt>\n"@ =~= "</tt>"@ + "\n"@);
        },
        Span::Strong => {
            lemma_shows_literal_tag("</b>"@);
        },
        Span::Emphasis => {
            lemma_shows_literal_tag("</i>"@);
        },
        Span::Strikethrough => {
            lemma_shows_literal_tag("</s>"@);
        },
        Span::Link => {
            lemma_shows_literal_tag("</a>"@);
        },
        _ => {},
    }
}

/// Inline code shows the code.
proof fn lemma_code_shows(code: Seq<char>)
    requires
        !code.contains('\0'),
    ensures
        shows("<tt>"@ + escaped(code) + "</tt>"@, code),
{
    reveal_strlit("<tt>");
    reveal_strlit("</tt>");
    let none = Seq::<char>::empty();
    lemma_shows_literal_tag("<tt>"@);
    lemma_shows_literal_tag("</tt>"@);
    lemma_shows_escaped(code);
    lemma_shows_concat("<tt>"@, escaped(code), none, code);
    lemma_shows_concat("<tt>"@ + escaped(code), "</tt>"@, none + code, none);
}

/// The markup of the events so far shows their text.
proof fn lemma_pango_shows(events: Seq<MarkdownEvent<Seq<char>>>)
    requires
        forall|i: int| 0 <= i < events.len() ==> is_nul_free(#[trigger] events[i]),
    ensures
        shows(pango_markup(events), plain_text(events)),
    decreases events.len(),
{
    if events.len() == 0 {
        lemma_shows_nothing();
    } else {
        let earlier = events.drop_last();
        lemma_pango_shows(earlier);
        let at_start = pango_markup(earlier).len() == 0;
        let event = events.last();
        lemma_shows_fixed();
        lemma_shows_nothing();
        match event {
            MarkdownEvent::Start { span, dest_url } => {
                lemma_start_shows(span, dest_url, at_start);
            },
            MarkdownEvent::End(span) => {
                lemma_end_shows(span);
            },
            MarkdownEvent::Text(text) => {
                lemma_shows_escaped(text);
            },
            MarkdownEvent::Code(code) => {
                lemma_code_shows(code);
            },
            _ => {},
        }
        lemma_shows_concat(
            pango_markup(earlier),
            event_markup(event, at_start),
            plain_text(earlier),
            event_text(event, at_start),
        );
    }
}

/// The markup shows the texts of the document verbatim and in their order, with a line break
/// where a line ends and a mark before each list item and each quotation. This holds of every
/// document whose texts are free of the NUL that ends a text.
pub proof fn law_markup_shows_the_text(events: Seq<MarkdownEvent<Seq<char>>>)
    requires
        forall|i: int| 0 <= i < events.len() ==> is_nul_free(#[trigger] events[i]),
    ensures
        shown_text(pango_markup(events)) == plain_text(events),
{
    let pango = pango_markup(events);
    lemma_pango_shows(events);
    assert(shown_text(pango + Seq::<char>::empty()) == plain_text(events) + shown_text(
        Seq::<char>::empty(),
    ));
}

/// What each step of a walk through a document adds to the markup, whatever came before it: the
/// beginning of a part its tag or its mark, and its end the tag that closes it.
pub proof fn law_parts_have_their_tags(events: Seq<MarkdownEvent<Seq<char>>>, url: Seq<char>)
    ensures
        ({
            let markup = pango_markup(events);
            let begun = |span: Span|
                pango_markup(events.push(MarkdownEvent::Start { span, dest_url: url }));
            let ended = |span: Span| pango_markup(events.push(MarkdownEvent::End(span)));
            &&& markup.len() == 0 ==> begun(Span::Paragraph) == Seq::<char>::empty()
            &&& markup.len() > 0 ==> begun(Span::Paragraph) == markup + "\n"@
            &&& begun(Span::Heading) == markup + "<b>"@
            &&& begun(Span::Strong) == markup + "<b>"@
            &&& begun(Span::Emphasis) == markup + "<i>"@
            &&& begun(Span::Strikethrough) == markup + "<s>"@
            &&& begun(Span::List) == markup
            &&& begun(Span::Item) == markup + "• "@
            &&& begun(Span::BlockQuote) == markup + "<i>│ "@
            &&& begun(Span::CodeBlock) == markup + "<tt>"@
            &&& begun(Span::Other) == markup
            &&& ended(Span::Paragraph) == markup
            &&& ended(Span::Heading) == markup + "</b>\n"@
            &&& ended(Span::Strong) == markup + "</b>"@
            &&& ended(Span::Emphasis) == markup + "</i>"@
            &&& ended(Span::Strikethrough) == markup + "</s>"@
            &&& ended(Span::Link) == markup + "</a>"@
            &&& ended(Span::List) == markup + "\n"@
            &&& ended(Span::Item) == markup + "\n"@
            &&& ended(Span::BlockQuote) == markup + "</i>\n"@
            &&& ended(Span::CodeBlock) == markup + "</tt>\n"@
            &&& ended(Span::Other) == markup
        }),
{
    assert forall|event: MarkdownEvent<Seq<char>>| #[trigger]
        pango_markup(events.push(event)) == pango_markup(events) + event_markup(
            event,
            pango_markup(events).len() == 0,
        ) by {
        lemma_next_event(events, event);
    }
}

/// Without events there is no markup.
pub proof fn law_nothing_has_no_markup()
    ensures
        pango_markup(Seq::empty()) == Seq::<char>::empty(),
{
}

proof fn lemma_next_event(
    events: Seq<MarkdownEvent<Seq<char>>>,
    event: MarkdownEvent<Seq<char>>,
)
    ensures
        pango_markup(events.push(event)) == pango_markup(events) + event_markup(
            event,
            pango_markup(events).len() == 0,
        ),
{
    assert(events.push(event).drop_last() =~= events);
}

/// A text that holds no NUL adds character data that shows exactly that text, code adds the same
/// between the tags of monospaced text, every break adds a new line, and what is not shown adds
/// nothing. All of it stands behind the markup so far.
pub proof fn law_texts_are_added_verbatim(events: Seq<MarkdownEvent<Seq<char>>>, text: Seq<char>)
    ensures
        ({
            let markup = pango_markup(events);
            &&& !text.contains('\0') ==> exists|data: Seq<char>|
                {
                    &&& #[trigger] is_character_data(data)
                    &&& shown_text(data) == text
                    &&& pango_markup(events.push(MarkdownEvent::Text(text))) == markup + data
                    &&& pango_markup(events.push(MarkdownEvent::Code(text))) == markup + "<tt>"@
                        + data + "</tt>"@
                }
            &&& pango_markup(events.push(MarkdownEvent::Text(text))) == markup + escaped(text)
            &&& pango_markup(events.push(MarkdownEvent::Code(text))) == markup + "<tt>"@ + escaped(
                text,
            ) + "</tt>"@
            &&& pango_markup(events.push(MarkdownEvent::SoftBreak)) == markup + "\n"@
            &&& pango_markup(events.push(MarkdownEvent::HardBreak)) == markup + "\n"@
            &&& pango_markup(events.push(MarkdownEvent::Other)) == markup
        }),
{
    lemma_next_event(events, MarkdownEvent::Text(text));
    lemma_next_event(events, MarkdownEvent::Code(text));
    lemma_next_event(events, MarkdownEvent::SoftBreak);
    lemma_next_event(events, MarkdownEvent::HardBreak);
    lemma_next_event(events, MarkdownEvent::Other);
    if !text.contains('\0') {
        law_escaped_text_is_shown_verbatim(text);
        assert(is_character_data(escaped(text)));
    }
}

/// A link leads where the document says: the value of the attribute in its opening tag, with the
/// references resolved, is the target of the link. This holds of every target without a NUL; a
/// NUL ends it.
pub proof fn law_links_lead_to_their_targets(
    events: Seq<MarkdownEvent<Seq<char>>>,
    dest_url: Seq<char>,
    lost: Seq<char>,
)
    requires
        !dest_url.contains('\0'),
    ensures
        exists|target: Seq<char>|
            {
                &&& #[trigger] is_character_data(target)
                &&& shown_text(target) == dest_url
                &&& pango_markup(events.push(MarkdownEvent::Start { span: Span::Link, dest_url }))
                    == pango_markup(events) + "<a href=\""@ + target + "\">"@
            },
        pango_markup(events.push(MarkdownEvent::Start { span: Span::Link, dest_url }))
            == pango_markup(events) + "<a href=\""@ + escaped(dest_url) + "\">"@,
        pango_markup(
            events.push(
                MarkdownEvent::Start {
                    span: Span::Link,
                    dest_url: dest_url + seq!['\0'] + lost,
                },
            ),
        ) == pango_markup(events.push(MarkdownEvent::Start { span: Span::Link, dest_url })),
{
    let target = escaped(dest_url);
    law_escaped_text_is_shown_verbatim(dest_url);
    law_nul_ends_the_text(dest_url, lost);
    lemma_next_event(events, MarkdownEvent::Start { span: Span::Link, dest_url });
    lemma_next_event(
        events,
        MarkdownEvent::Start { span: Span::Link, dest_url: dest_url + seq!['\0'] + lost },
    );
    assert(is_character_data(target));
    assert(pango_markup(events) + ("<a href=\""@ + target + "\">"@) =~= pango_markup(events)
        + "<a href=\""@ + target + "\">"@);
}

} // verus!
