//! Markdown events rendered as Pango markup.
use vstd::prelude::*;
use crate::escape::{escaped, markup_escape_text};
use crate::markdown::{event_views, markdown_events, parse_markdown, MarkdownEvent, Span};
use crate::markup::is_well_formed;
use crate::pango_laws::law_balanced_events_give_well_formed_markup;

verus! {

/// What the beginning of a part adds to the markup. A paragraph begins on a new line,
/// unless it is the first thing in the markup.
pub open spec fn start_markup(span: Span, dest_url: Seq<char>, at_start: bool) -> Seq<char> {
    match span {
        Span::Paragraph => if at_start {
            Seq::empty()
        } else {
            "\n"@
        },
        Span::Heading => "<b>"@,
        Span::Strong => "<b>"@,
        Span::Emphasis => "<i>"@,
        Span::Strikethrough => "<s>"@,
        Span::Link => "<a href=\""@ + escaped(dest_url) + "\">"@,
        Span::Item => "• "@,
        Span::BlockQuote => "<i>│ "@,
        Span::CodeBlock => "<tt>"@,
        Span::List => Seq::empty(),
        Span::Other => Seq::empty(),
    }
}

/// What the end of a part adds to the markup.
pub open spec fn end_markup(span: Span) -> Seq<char> {
    match span {
        Span::Heading => "</b>\n"@,
        Span::Strong => "</b>"@,
        Span::Emphasis => "</i>"@,
        Span::Strikethrough => "</s>"@,
        Span::Link => "</a>"@,
        Span::List => "\n"@,
        Span::Item => "\n"@,
        Span::BlockQuote => "</i>\n"@,
        Span::CodeBlock => "</tt>\n"@,
        Span::Paragraph => Seq::empty(),
        Span::Other => Seq::empty(),
    }
}

/// What one event adds to the markup.
pub open spec fn event_markup(event: MarkdownEvent<Seq<char>>, at_start: bool) -> Seq<char> {
    match event {
        MarkdownEvent::Start { span, dest_url } => start_markup(span, dest_url, at_start),
        MarkdownEvent::End(span) => end_markup(span),
        MarkdownEvent::Code(code) => "<tt>"@ + escaped(code) + "</tt>"@,
        MarkdownEvent::Text(text) => escaped(text),
        MarkdownEvent::SoftBreak => "\n"@,
        MarkdownEvent::HardBreak => "\n"@,
        MarkdownEvent::Other => Seq::empty(),
    }
}

/// The markup of a sequence of events.
pub open spec fn pango_markup(events: Seq<MarkdownEvent<Seq<char>>>) -> Seq<char>
    decreases events.len(),
{
    if events.len() == 0 {
        Seq::empty()
    } else {
        let before = pango_markup(events.drop_last());
        before + event_markup(events.last(), before.len() == 0)
    }
}

fn push_start(pango: &mut String, span: Span, dest_url: &str)
    ensures
        final(pango)@ == old(pango)@ + start_markup(span, dest_url@, old(pango)@.len() == 0),
{
    match span {
        Span::Paragraph => {
            if !pango.as_str().is_empty() {
                pango.append("\n");
            }
        },
        Span::Heading => pango.append("<b>"),
        Span::Strong => pango.append("<b>"),
        Span::Emphasis => pango.append("<i>"),
        Span::Strikethrough => pango.append("<s>"),
        Span::Link => {
            let target: String = markup_escape_text(dest_url);
            pango.append("<a href=\"");
            pango.append(target.as_str());
            pango.append("\">");
        },
        Span::Item => pango.append("• "),
        Span::BlockQuote => pango.append("<i>│ "),
        Span::CodeBlock => pango.append("<tt>"),
        Span::List => {},
        Span::Other => {},
    }
}

fn push_end(pango: &mut String, span: Span)
    ensures
        final(pango)@ == old(pango)@ + end_markup(span),
{
    match span {
        Span::Heading => pango.append("</b>\n"),
        Span::Strong => pango.append("</b>"),
        Span::Emphasis => pango.append("</i>"),
        Span::Strikethrough => pango.append("</s>"),
        Span::Link => pango.append("</a>"),
        Span::List => pango.append("\n"),
        Span::Item => pango.append("\n"),
        Span::BlockQuote => pango.append("</i>\n"),
        Span::CodeBlock => pango.append("</tt>\n"),
        Span::Paragraph => {},
        Span::Other => {},
    }
}

fn push_event(pango: &mut String, event: &MarkdownEvent<String>)
    ensures
        final(pango)@ == old(pango)@ + event_markup(event@, old(pango)@.len() == 0),
{
    match event {
        MarkdownEvent::Start { span, dest_url } => push_start(pango, *span, dest_url.as_str()),
        MarkdownEvent::End(span) => push_end(pango, *span),
        MarkdownEvent::Code(code) => {
            let text: String = markup_escape_text(code.as_str());
            pango.append("<tt>");
            pango.append(text.as_str());
            pango.append("</tt>");
        },
        MarkdownEvent::Text(text) => {
            let text: String = markup_escape_text(text.as_str());
            pango.append(text.as_str());
        },
        MarkdownEvent::SoftBreak => pango.append("\n"),
        MarkdownEvent::HardBreak => pango.append("\n"),
        MarkdownEvent::Other => {},
    }
}

/// The Pango markup of a walk through a document.
pub fn events_to_pango(events: &Vec<MarkdownEvent<String>>) -> (pango: String)
    ensures
        pango@ == pango_markup(event_views(events@)),
{
    let mut pango: String = String::new();
    let mut i: usize = 0;
    while i < events.len()
        invariant
            i <= events@.len(),
            pango@ == pango_markup(event_views(events@).take(i as int)),
        decreases events.len() - i,
    {
        let ghost next = event_views(events@).take(i + 1);
        assert(next.drop_last() == event_views(events@).take(i as int));
        push_event(&mut pango, &events[i]);
        i += 1;
    }
    assert(event_views(events@).take(i as int) == event_views(events@));
    pango
}

/// A Markdown text as Pango markup. The markup is well-formed, whatever the text.
pub fn markdown_to_pango(markdown: &str) -> (pango: String)
    ensures
        pango@ == pango_markup(markdown_events(markdown@)),
        is_well_formed(pango@),
{
    let events: Vec<MarkdownEvent<String>> = parse_markdown(markdown);
    proof {
        law_balanced_events_give_well_formed_markup(event_views(events@));
    }
    events_to_pango(&events)
}

} // verus!
