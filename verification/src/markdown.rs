//! Markdown message bodies as a sequence of events.
use vstd::prelude::*;
use pulldown_cmark::{CowStr, Event, Parser, Tag, TagEnd};

verus! {

/// An event of `pulldown_cmark`. Its variants are read as that crate declares them.
#[verifier::external_type_specification]
pub struct ExEvent<'a>(pulldown_cmark::Event<'a>);

/// The start tag that an event of `pulldown_cmark` carries, with its variants.
#[verifier::external_type_specification]
pub struct ExTag<'a>(pulldown_cmark::Tag<'a>);

/// The end tag that an event of `pulldown_cmark` carries, with its variants.
#[verifier::external_type_specification]
pub struct ExTagEnd(pulldown_cmark::TagEnd);

/// A string of `pulldown_cmark`, known by its text only.
#[verifier::external_type_specification]
#[verifier::external_body]
pub struct ExCowStr<'a>(pulldown_cmark::CowStr<'a>);

/// Carried by heading tags and never looked into.
#[verifier::external_type_specification]
#[verifier::external_body]
pub struct ExHeadingLevel(pulldown_cmark::HeadingLevel);

/// Carried by block quote tags and never looked into.
#[verifier::external_type_specification]
#[verifier::external_body]
pub struct ExBlockQuoteKind(pulldown_cmark::BlockQuoteKind);

/// Carried by code block tags and never looked into.
#[verifier::external_type_specification]
#[verifier::external_body]
pub struct ExCodeBlockKind<'a>(pulldown_cmark::CodeBlockKind<'a>);

/// Carried by metadata tags and never looked into.
#[verifier::external_type_specification]
#[verifier::external_body]
pub struct ExMetadataBlockKind(pulldown_cmark::MetadataBlockKind);

/// Carried by link tags and never looked into.
#[verifier::external_type_specification]
#[verifier::external_body]
pub struct ExLinkType(pulldown_cmark::LinkType);

/// Carried by table tags and never looked into.
#[verifier::external_type_specification]
#[verifier::external_body]
pub struct ExAlignment(pulldown_cmark::Alignment);

/// A part of a document that has a start and an end.
#[derive(Clone, Copy, Debug, PartialEq, Eq, Structural)]
pub enum Span {
    Paragraph,
    Heading,
    BlockQuote,
    CodeBlock,
    List,
    Item,
    Emphasis,
    Strong,
    Strikethrough,
    Link,
    /// Any part that is shown without markup of its own.
    Other,
}

/// One step of a walk through a document. `S` is the type of its texts: `String` when the
/// walk is made, `Seq<char>` when it is spoken of.
#[derive(Debug, PartialEq)]
pub enum MarkdownEvent<S> {
    /// A part begins. `dest_url` is where a link leads, and empty for other parts.
    Start { span: Span, dest_url: S },
    /// The part that began last among those still open ends.
    End(Span),
    Text(S),
    Code(S),
    SoftBreak,
    HardBreak,
    /// Anything that is not shown.
    Other,
}

impl View for MarkdownEvent<String> {
    type V = MarkdownEvent<Seq<char>>;

    open spec fn view(&self) -> MarkdownEvent<Seq<char>> {
        match *self {
            MarkdownEvent::Start { span, dest_url } => MarkdownEvent::Start {
                span,
                dest_url: dest_url@,
            },
            MarkdownEvent::End(span) => MarkdownEvent::End(span),
            MarkdownEvent::Text(text) => MarkdownEvent::Text(text@),
            MarkdownEvent::Code(code) => MarkdownEvent::Code(code@),
            MarkdownEvent::SoftBreak => MarkdownEvent::SoftBreak,
            MarkdownEvent::HardBreak => MarkdownEvent::HardBreak,
            MarkdownEvent::Other => MarkdownEvent::Other,
        }
    }
}

/// The events of a list, with their texts as sequences of characters.
pub open spec fn event_views(events: Seq<MarkdownEvent<String>>) -> Seq<MarkdownEvent<Seq<char>>> {
    events.map_values(|event: MarkdownEvent<String>| event@)
}

/// The parts that are open after `events`, the innermost one last. There are none where a
/// part ends that is not the innermost open one.
pub open spec fn open_spans(events: Seq<MarkdownEvent<Seq<char>>>) -> Option<Seq<Span>>
    decreases events.len(),
{
    if events.len() == 0 {
        Some(Seq::empty())
    } else {
        match open_spans(events.drop_last()) {
            Some(open) => match events.last() {
                MarkdownEvent::Start { span, .. } => Some(open.push(span)),
                MarkdownEvent::End(span) => if open.len() > 0 && open.last() == span {
                    Some(open.drop_last())
                } else {
                    None
                },
                _ => Some(open),
            },
            None => None,
        }
    }
}

/// Every part that begins ends, and parts end in the opposite order.
pub open spec fn is_balanced(events: Seq<MarkdownEvent<Seq<char>>>) -> bool {
    open_spans(events) == Some(Seq::<Span>::empty())
}

/// The characters of a string of `pulldown_cmark`.
pub uninterp spec fn cow_text(text: CowStr<'_>) -> Seq<char>;

/// The events that `pulldown_cmark::Parser::new` gives for a document, in order.
pub uninterp spec fn markdown_events(markdown: Seq<char>) -> Seq<MarkdownEvent<Seq<char>>>;

/// `CowStr::into_string` gives a string of the same characters.
pub assume_specification<'a>[ CowStr::<'a>::into_string ](text: CowStr<'a>) -> (string: String)
    ensures
        string@ == cow_text(text),
;

/// The part that a start tag begins.
pub open spec fn tag_span(tag: Tag<'_>) -> Span {
    match tag {
        Tag::Paragraph => Span::Paragraph,
        Tag::Heading { .. } => Span::Heading,
        Tag::BlockQuote(_) => Span::BlockQuote,
        Tag::CodeBlock(_) => Span::CodeBlock,
        Tag::List(_) => Span::List,
        Tag::Item => Span::Item,
        Tag::Emphasis => Span::Emphasis,
        Tag::Strong => Span::Strong,
        Tag::Strikethrough => Span::Strikethrough,
        Tag::Link { .. } => Span::Link,
        _ => Span::Other,
    }
}

/// The part that an end tag ends.
pub open spec fn tag_end_span(tag: TagEnd) -> Span {
    match tag {
        TagEnd::Paragraph => Span::Paragraph,
        TagEnd::Heading(_) => Span::Heading,
        TagEnd::BlockQuote(_) => Span::BlockQuote,
        TagEnd::CodeBlock => Span::CodeBlock,
        TagEnd::List(_) => Span::List,
        TagEnd::Item => Span::Item,
        TagEnd::Emphasis => Span::Emphasis,
        TagEnd::Strong => Span::Strong,
        TagEnd::Strikethrough => Span::Strikethrough,
        TagEnd::Link => Span::Link,
        _ => Span::Other,
    }
}

/// What an event of `pulldown_cmark` says.
pub open spec fn event_of(event: Event<'_>) -> MarkdownEvent<Seq<char>> {
    match event {
        Event::Start(tag) => MarkdownEvent::Start {
            span: tag_span(tag),
            dest_url: match tag {
                Tag::Link { dest_url, .. } => cow_text(dest_url),
                _ => Seq::empty(),
            },
        },
        Event::End(tag) => MarkdownEvent::End(tag_end_span(tag)),
        Event::Text(text) => MarkdownEvent::Text(cow_text(text)),
        Event::Code(code) => MarkdownEvent::Code(cow_text(code)),
        Event::SoftBreak => MarkdownEvent::SoftBreak,
        Event::HardBreak => MarkdownEvent::HardBreak,
        _ => MarkdownEvent::Other,
    }
}

/// What the events of `pulldown_cmark` say, in order.
pub open spec fn events_of(events: Seq<Event<'_>>) -> Seq<MarkdownEvent<Seq<char>>> {
    events.map_values(|event: Event<'_>| event_of(event))
}

/// `pulldown_cmark::Parser::new`, run to its end. The events are determined by the document,
/// and that crate documents them as balanced.
#[verifier::external_body]
fn collect_events<'a>(markdown: &'a str) -> (events: Vec<Event<'a>>)
    ensures
        events_of(events@) == markdown_events(markdown@),
        is_balanced(events_of(events@)),
{
    Parser::new(markdown).collect()
}

fn start_event(tag: Tag<'_>) -> (event: MarkdownEvent<String>)
    ensures
        event@ == event_of(Event::Start(tag)),
{
    let span: Span = match &tag {
        Tag::Paragraph => Span::Paragraph,
        Tag::Heading { .. } => Span::Heading,
        Tag::BlockQuote(_) => Span::BlockQuote,
        Tag::CodeBlock(_) => Span::CodeBlock,
        Tag::List(_) => Span::List,
        Tag::Item => Span::Item,
        Tag::Emphasis => Span::Emphasis,
        Tag::Strong => Span::Strong,
        Tag::Strikethrough => Span::Strikethrough,
        Tag::Link { .. } => Span::Link,
        _ => Span::Other,
    };
    match tag {
        Tag::Link { dest_url, .. } => MarkdownEvent::Start {
            span,
            dest_url: dest_url.into_string(),
        },
        _ => MarkdownEvent::Start { span, dest_url: String::new() },
    }
}

fn end_event(tag: TagEnd) -> (event: MarkdownEvent<String>)
    ensures
        event@ == event_of(Event::End(tag)),
{
    MarkdownEvent::End(
        match tag {
            TagEnd::Paragraph => Span::Paragraph,
            TagEnd::Heading(_) => Span::Heading,
            TagEnd::BlockQuote(_) => Span::BlockQuote,
            TagEnd::CodeBlock => Span::CodeBlock,
            TagEnd::List(_) => Span::List,
            TagEnd::Item => Span::Item,
            TagEnd::Emphasis => Span::Emphasis,
            TagEnd::Strong => Span::Strong,
            TagEnd::Strikethrough => Span::Strikethrough,
            TagEnd::Link => Span::Link,
            _ => Span::Other,
        },
    )
}

fn convert_event(event: Event<'_>) -> (converted: MarkdownEvent<String>)
    ensures
        converted@ == event_of(event),
{
    match event {
        Event::Start(tag) => start_event(tag),
        Event::End(tag) => end_event(tag),
        Event::Text(text) => MarkdownEvent::Text(text.into_string()),
        Event::Code(code) => MarkdownEvent::Code(code.into_string()),
        Event::SoftBreak => MarkdownEvent::SoftBreak,
        Event::HardBreak => MarkdownEvent::HardBreak,
        _ => MarkdownEvent::Other,
    }
}

/// The events of a Markdown document.
pub fn parse_markdown(markdown: &str) -> (events: Vec<MarkdownEvent<String>>)
    ensures
        event_views(events@) == markdown_events(markdown@),
        is_balanced(event_views(events@)),
{
    let parsed: Vec<Event<'_>> = collect_events(markdown);
    let ghost all = parsed@;
    let mut events: Vec<MarkdownEvent<String>> = Vec::new();
    for event in it: parsed
        invariant
            it.seq() == all,
            event_views(events@) == events_of(all.take(it.index())),
    {
        events.push(convert_event(event));
        assert(events_of(all.take(it.index() + 1)) == events_of(all.take(it.index())).push(
            event_of(event),
        ));
    }
    events
}

/// Every start of a part is read as what it is, with the target of a link and of nothing else.
pub proof fn law_starts_are_read(tag: Tag<'_>)
    ensures
        ({
            let read = event_of(Event::Start(tag));
            let start = |span: Span|
                MarkdownEvent::Start { span, dest_url: Seq::<char>::empty() };
            &&& tag is Paragraph ==> read == start(Span::Paragraph)
            &&& tag is Heading ==> read == start(Span::Heading)
            &&& tag is BlockQuote ==> read == start(Span::BlockQuote)
            &&& tag is CodeBlock ==> read == start(Span::CodeBlock)
            &&& tag is List ==> read == start(Span::List)
            &&& tag is Item ==> read == start(Span::Item)
            &&& tag is Emphasis ==> read == start(Span::Emphasis)
            &&& tag is Strong ==> read == start(Span::Strong)
            &&& tag is Strikethrough ==> read == start(Span::Strikethrough)
            &&& tag matches Tag::Link { dest_url, .. } ==> read == (MarkdownEvent::Start {
                span: Span::Link,
                dest_url: cow_text(dest_url),
            })
            &&& !(tag is Paragraph || tag is Heading || tag is BlockQuote || tag is CodeBlock
                || tag is List || tag is Item || tag is Emphasis || tag is Strong
                || tag is Strikethrough || tag is Link) ==> read == start(Span::Other)
        }),
{
}

/// Every end of a part is read as what it is.
pub proof fn law_ends_are_read(tag: TagEnd)
    ensures
        ({
            let read = event_of(Event::End(tag));
            let end = |span: Span| MarkdownEvent::<Seq<char>>::End(span);
            &&& tag is Paragraph ==> read == end(Span::Paragraph)
            &&& tag is Heading ==> read == end(Span::Heading)
            &&& tag is BlockQuote ==> read == end(Span::BlockQuote)
            &&& tag is CodeBlock ==> read == end(Span::CodeBlock)
            &&& tag is List ==> read == end(Span::List)
            &&& tag is Item ==> read == end(Span::Item)
            &&& tag is Emphasis ==> read == end(Span::Emphasis)
            &&& tag is Strong ==> read == end(Span::Strong)
            &&& tag is Strikethrough ==> read == end(Span::Strikethrough)
            &&& tag is Link ==> read == end(Span::Link)
            &&& !(tag is Paragraph || tag is Heading || tag is BlockQuote || tag is CodeBlock
                || tag is List || tag is Item || tag is Emphasis || tag is Strong
                || tag is Strikethrough || tag is Link) ==> read == end(Span::Other)
        }),
{
}

/// Texts, code and breaks are read as what they are, and what is none of these and neither starts
/// nor ends a part is not shown.
pub proof fn law_texts_are_read(event: Event<'_>)
    ensures
        event matches Event::Text(text) ==> event_of(event) == MarkdownEvent::Text(cow_text(text)),
        event matches Event::Code(code) ==> event_of(event) == MarkdownEvent::Code(cow_text(code)),
        event is SoftBreak ==> event_of(event) == MarkdownEvent::<Seq<char>>::SoftBreak,
        event is HardBreak ==> event_of(event) == MarkdownEvent::<Seq<char>>::HardBreak,
        !(event is Start || event is End || event is Text || event is Code || event is SoftBreak
            || event is HardBreak) ==> event_of(event) == MarkdownEvent::<Seq<char>>::Other,
{
}

/// The events of a document are read one by one, in order.
pub proof fn law_events_are_read_in_order(events: Seq<Event<'_>>, i: int)
    requires
        0 <= i < events.len(),
    ensures
        events_of(events).len() == events.len(),
        events_of(events)[i] == event_of(events[i]),
{
}

/// Events are spoken of as they are, one by one and in order.
pub proof fn law_events_are_spoken_of_as_they_are(
    events: Seq<MarkdownEvent<String>>,
    span: Span,
    text: String,
    i: int,
)
    ensures
        event_views(events).len() == events.len(),
        0 <= i < events.len() ==> event_views(events)[i] == events[i]@,
        (MarkdownEvent::Start { span, dest_url: text })@ == (MarkdownEvent::Start {
            span,
            dest_url: text@,
        }),
        MarkdownEvent::<String>::End(span)@ == MarkdownEvent::<Seq<char>>::End(span),
        MarkdownEvent::Text(text)@ == MarkdownEvent::Text(text@),
        MarkdownEvent::Code(text)@ == MarkdownEvent::Code(text@),
        MarkdownEvent::<String>::SoftBreak@ == MarkdownEvent::<Seq<char>>::SoftBreak,
        MarkdownEvent::<String>::HardBreak@ == MarkdownEvent::<Seq<char>>::HardBreak,
        MarkdownEvent::<String>::Other@ == MarkdownEvent::<Seq<char>>::Other,
{
}

} // verus!
