use message_row::escape::markup_escape_text;
use message_row::markdown::{parse_markdown, MarkdownEvent, Span};
use message_row::pango::{events_to_pango, markdown_to_pango};

#[test]
fn test_markdown_to_pango() {
    assert_eq!(markdown_to_pango("hello"), "hello");
    assert_eq!(markdown_to_pango("**bold**"), "<b>bold</b>");
    assert_eq!(markdown_to_pango("*italic*"), "<i>italic</i>");
    assert_eq!(
        markdown_to_pango("[link](https://example.com)"),
        "<a href=\"https://example.com\">link</a>"
    );
    assert_eq!(markdown_to_pango("`code`"), "<tt>code</tt>");
    assert_eq!(
        markdown_to_pango("multiple **lines**\n*and* formats"),
        "multiple <b>lines</b>\n<i>and</i> formats"
    );
}

fn start(span: Span) -> MarkdownEvent<String> {
    MarkdownEvent::Start { span, dest_url: String::new() }
}

#[test]
fn parsing_gives_the_events_of_a_document() {
    assert_eq!(
        parse_markdown("**bold** [go](http://a.b/c)"),
        vec![
            start(Span::Paragraph),
            start(Span::Strong),
            MarkdownEvent::Text("bold".to_string()),
            MarkdownEvent::End(Span::Strong),
            MarkdownEvent::Text(" ".to_string()),
            MarkdownEvent::Start { span: Span::Link, dest_url: "http://a.b/c".to_string() },
            MarkdownEvent::Text("go".to_string()),
            MarkdownEvent::End(Span::Link),
            MarkdownEvent::End(Span::Paragraph),
        ]
    );
    assert_eq!(
        parse_markdown("a  \nb\nc `d`"),
        vec![
            start(Span::Paragraph),
            MarkdownEvent::Text("a".to_string()),
            MarkdownEvent::HardBreak,
            MarkdownEvent::Text("b".to_string()),
            MarkdownEvent::SoftBreak,
            MarkdownEvent::Text("c ".to_string()),
            MarkdownEvent::Code("d".to_string()),
            MarkdownEvent::End(Span::Paragraph),
        ]
    );
    assert_eq!(parse_markdown("***").len(), 1);
    assert_eq!(parse_markdown("***")[0], MarkdownEvent::Other);
    assert_eq!(parse_markdown(""), vec![]);
}

#[test]
fn parts_without_markup_are_still_parts() {
    assert_eq!(
        parse_markdown("![alt](http://a.b/c.png)"),
        vec![
            start(Span::Paragraph),
            start(Span::Other),
            MarkdownEvent::Text("alt".to_string()),
            MarkdownEvent::End(Span::Other),
            MarkdownEvent::End(Span::Paragraph),
        ]
    );
    assert_eq!(markdown_to_pango("![alt](http://a.b/c.png)"), "alt");
}

#[test]
fn blocks_are_rendered() {
    assert_eq!(markdown_to_pango("# Title"), "<b>Title</b>\n");
    assert_eq!(markdown_to_pango("### Title\n\ntext"), "<b>Title</b>\n\ntext");
    assert_eq!(markdown_to_pango("one\n\ntwo"), "one\ntwo");
    assert_eq!(markdown_to_pango("- a\n- b"), "• a\n• b\n\n");
    assert_eq!(markdown_to_pango("1. a\n2. b"), "• a\n• b\n\n");
    assert_eq!(markdown_to_pango("> quoted"), "<i>│ \nquoted</i>\n");
    assert_eq!(markdown_to_pango("```\nlet x = 1;\n```"), "<tt>let x = 1;\n</tt>\n");
    assert_eq!(markdown_to_pango("    indented"), "<tt>indented</tt>\n");
    assert_eq!(markdown_to_pango("a  \nb"), "a\nb");
}

#[test]
fn strikethrough_is_rendered_where_it_is_parsed() {
    assert_eq!(markdown_to_pango("~~gone~~"), "~~gone~~");
    assert_eq!(
        events_to_pango(&vec![
            start(Span::Strikethrough),
            MarkdownEvent::Text("gone".to_string()),
            MarkdownEvent::End(Span::Strikethrough),
        ]),
        "<s>gone</s>"
    );
}

#[test]
fn a_paragraph_breaks_the_line_unless_it_comes_first() {
    assert_eq!(events_to_pango(&vec![start(Span::Paragraph)]), "");
    assert_eq!(
        events_to_pango(&vec![MarkdownEvent::Text("a".to_string()), start(Span::Paragraph)]),
        "a\n"
    );
    assert_eq!(events_to_pango(&vec![start(Span::Strong), start(Span::Paragraph)]), "<b>\n");
}

#[test]
fn html_is_not_shown_and_text_is_never_markup() {
    assert_eq!(markdown_to_pango("a <b>c</b>"), "a c");
    assert_eq!(markdown_to_pango("1 < 2 && 3 > 2"), "1 &lt; 2 &amp;&amp; 3 &gt; 2");
    assert_eq!(markdown_to_pango("`<i>`"), "<tt>&lt;i&gt;</tt>");
    assert_eq!(
        markdown_to_pango("[x](<http://a.b/?q=\"1\"&r='2'>)"),
        "<a href=\"http://a.b/?q=&quot;1&quot;&amp;r=&apos;2&apos;\">x</a>"
    );
}

#[test]
fn nested_parts_close_in_the_opposite_order() {
    assert_eq!(
        markdown_to_pango("**bold *both* `code`**"),
        "<b>bold <i>both</i> <tt>code</tt></b>"
    );
    assert_eq!(
        markdown_to_pango("> **a** [b](http://c.d)"),
        "<i>│ \n<b>a</b> <a href=\"http://c.d\">b</a></i>\n"
    );
}

#[test]
fn escaping_replaces_what_means_something() {
    assert_eq!(markup_escape_text("plain tëxt"), "plain tëxt");
    assert_eq!(markup_escape_text("<a href=\"x\">'&'</a>"),
        "&lt;a href=&quot;x&quot;&gt;&apos;&amp;&apos;&lt;/a&gt;");
    assert_eq!(markup_escape_text(""), "");
}

#[test]
fn escaping_numbers_control_characters() {
    assert_eq!(markup_escape_text("\u{1}\u{8}"), "&#x1;&#x8;");
    assert_eq!(markup_escape_text("\t\n\r\u{85}"), "\t\n\r\u{85}");
    assert_eq!(markup_escape_text("\u{b}\u{c}\u{e}\u{1f}"), "&#xb;&#xc;&#xe;&#x1f;");
    assert_eq!(markup_escape_text("\u{7f}\u{84}\u{86}\u{9f}"), "&#x7f;&#x84;&#x86;&#x9f;");
    assert_eq!(markup_escape_text("\u{7e}\u{a0}"), "\u{7e}\u{a0}");
}

#[test]
fn a_nul_ends_the_text() {
    assert_eq!(markup_escape_text("a<\0b"), "a&lt;");
}

/// The text that markup shows: what stands between the tags, with the references resolved.
fn shown(markup: &str) -> String {
    let mut text = String::new();
    let mut rest = markup;
    while let Some(first) = rest.chars().next() {
        if first == '<' {
            rest = &rest[rest.find('>').unwrap() + 1..];
        } else if first == '&' {
            let end = rest.find(';').unwrap();
            text.push(match &rest[1..end] {
                "amp" => '&',
                "lt" => '<',
                "gt" => '>',
                "apos" => '\'',
                "quot" => '"',
                number => {
                    let digits = number.strip_prefix("#x").unwrap();
                    char::from_u32(u32::from_str_radix(digits, 16).unwrap()).unwrap()
                }
            });
            rest = &rest[end + 1..];
        } else {
            text.push(first);
            rest = &rest[first.len_utf8()..];
        }
    }
    text
}

#[test]
fn escaped_text_is_shown_as_it_was() {
    for text in ["", "plain", "<b>&amp;</b>", "\"it's\" &#x41; \u{1}\u{1f}\u{7f}\u{9f}\u{85}", "é > ü"] {
        assert_eq!(shown(&markup_escape_text(text)), text);
    }
}

#[test]
fn markup_shows_the_text_of_the_document() {
    assert_eq!(shown(&markdown_to_pango("**a < b** [c & d](http://e.f/?g&h)")), "a < b c & d");
    assert_eq!(shown(&markdown_to_pango("# T\n\n- `<x>`")), "T\n• <x>\n\n");
}
