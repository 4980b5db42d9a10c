use message_row::actions::{build_action_btn, Action, ActionButton};
use message_row::catalog::Catalog;
use message_row::events::{report, Report, RowEvent};
use message_row::icons::{notification_icon_candidates, themed_notification_icon};
use message_row::row::{
    build_controls, build_date, build_priority_badge, cell_classes, Attachment, Cell, CellContent,
    Content, FooterPart, MessageRow, Part, Reaction, ReceivedMessage, RowContext,
};
use message_row::style::{class_list, ClassChange, Styled};
use message_row::text::{join, replace_once};
use message_row::time::displayed_instant;

fn context() -> RowContext {
    RowContext {
        follow_accent: false,
        local_time: Some("12:00".to_string()),
        icons: None,
        catalog: Catalog::untranslated(),
    }
}

fn empty() -> ReceivedMessage {
    ReceivedMessage {
        time: 0,
        sequence_id: None,
        priority: None,
        title: None,
        message: None,
        markdown: false,
        attachment: None,
        actions: vec![],
        tags: vec![],
    }
}

fn full_width(content: Content, row: usize, classes: Vec<&'static str>) -> Cell {
    Cell { content, css_classes: class_list(classes), column: 0, row, width: 4, height: 1 }
}

fn date(row: usize, parts: Vec<Part>) -> Cell {
    let css_classes = vec![text("message-footer-date")];
    Cell { content: CellContent::Date(parts), css_classes, column: 0, row, width: 1, height: 1 }
}

fn controls(row: usize, parts: Vec<Part>) -> Cell {
    let content = CellContent::Controls(parts);
    Cell { content, css_classes: vec![], column: 1, row, width: 3, height: 1 }
}

fn time(label: &str) -> Part {
    Styled { item: FooterPart::Time(text(label)), css_classes: vec![text("caption")] }
}

fn edited() -> Part {
    Styled {
        item: FooterPart::Edited(text("Edited")),
        css_classes: vec![text("caption"), text("chip")],
    }
}

fn badge(label: &str, class: &str) -> Part {
    Styled {
        item: FooterPart::Priority(text(label)),
        css_classes: vec![text("caption"), text("priority-badge"), text(class)],
    }
}

fn icon(name: &str, tooltip: &str, opacity: u8) -> Part {
    Styled {
        item: FooterPart::Icon { name: text(name), tooltip: text(tooltip), opacity },
        css_classes: vec![text("unseen-indicator")],
    }
}

fn delete_button() -> Part {
    Styled {
        item: FooterPart::DeleteButton {
            icon_name: text("user-trash-symbolic"),
            tooltip: text("Delete notification"),
        },
        css_classes: vec![text("flat"), text("circular")],
    }
}

fn text(s: &str) -> String {
    s.to_string()
}

#[test]
fn an_empty_message_has_a_footer_only() {
    let row = MessageRow::new(&empty(), false, &context());
    assert_eq!(
        row.cells,
        vec![
            date(0, vec![time("12:00")]),
            controls(
                0,
                vec![icon("dialog-information-symbolic", "Seen notification", 35), delete_button()]
            ),
        ]
    );
    assert_eq!(row.css_classes, vec!["message-card"]);
}

#[test]
fn a_full_message_is_laid_out_from_top_to_bottom() {
    let message = ReceivedMessage {
        time: 0,
        sequence_id: Some(text("s")),
        priority: Some(4),
        title: Some(text("Title")),
        message: Some(text("**b** ![p](http://a.b/1.png)![q](https://a.b/2.png)")),
        markdown: true,
        attachment: Some(Attachment { url: text("file:///x.png"), image: true }),
        actions: vec![Action::View { label: text("Open"), url: text("http://c.d") }],
        tags: vec![text("one"), text("two")],
    };
    let mut context = context();
    context.follow_accent = true;
    context.icons = Some(vec![text("alarm-symbolic")]);
    let row = MessageRow::new(&message, true, &context);
    assert_eq!(
        row.cells,
        vec![
            full_width(CellContent::Title(text("Title")), 0, vec!["heading", "message-title"]),
            full_width(
                CellContent::Body { text: text("<b>b</b> pq"), markup: true },
                1,
                vec!["message-body"]
            ),
            full_width(CellContent::Picture(text("http://a.b/1.png")), 2, vec!["message-image"]),
            full_width(CellContent::Picture(text("https://a.b/2.png")), 3, vec!["message-image"]),
            full_width(CellContent::Picture(text("file:///x.png")), 4, vec!["message-image"]),
            full_width(
                CellContent::Actions(vec![Styled {
                    item: ActionButton {
                        label: text("Open"),
                        tooltip: text("Go to http://c.d"),
                        action_name: Some(text("app.message-action")),
                        sensitive: true,
                    },
                    css_classes: vec![text("pill")],
                }]),
                5,
                vec![]
            ),
            full_width(CellContent::Tags(text("tags: one, two")), 6, vec![]),
            date(7, vec![time("12:00"), edited()]),
            controls(
                7,
                vec![
                    badge("Priority: High", "priority-4"),
                    icon("alarm-symbolic", "Unread notification", 100),
                    delete_button(),
                ]
            ),
        ]
    );
    assert_eq!(
        row.css_classes,
        vec!["message-card", "message-unseen", "follow-accent", "message-priority-4"]
    );
}

#[test]
fn plain_messages_are_shown_as_they_are_with_their_pictures() {
    let mut message = empty();
    message.message = Some(text("**b** ![p](http://a.b/1.png)"));
    message.attachment = Some(Attachment { url: text("http://a.b/x.zip"), image: false });
    let row = MessageRow::new(&message, false, &context());
    assert_eq!(
        row.cells[0],
        full_width(
            CellContent::Body { text: text("**b** ![p](http://a.b/1.png)"), markup: false },
            0,
            vec!["message-body"]
        )
    );
    assert_eq!(
        row.cells[1],
        full_width(CellContent::Picture(text("http://a.b/1.png")), 1, vec!["message-image"])
    );
    assert_eq!(row.cells.len(), 4);
}

#[test]
fn a_message_without_a_date_has_an_empty_time() {
    let mut context = context();
    context.local_time = None;
    assert_eq!(build_date(&empty(), &context), vec![time("")]);
    context.local_time = Some("12:00".to_string());
    let mut message = empty();
    message.time = 8_210_266_876_800;
    assert_eq!(build_date(&message, &context), vec![time("")]);
    message.time = 8_210_266_876_799;
    assert_eq!(build_date(&message, &context), vec![time("12:00")]);
}

#[test]
fn cells_do_not_overlap() {
    let mut message = empty();
    message.title = Some(text("t"));
    message.message = Some(text("![a](http://a.b/1) and ![b](http://a.b/2)"));
    message.tags = vec![text("tag")];
    let cells = MessageRow::new(&message, true, &context()).cells;
    assert_eq!(cells.len(), 7);
    for (i, a) in cells.iter().enumerate() {
        assert!(a.column >= 0 && a.column + a.width <= 4);
        assert!(a.row <= cells[6].row);
        for b in cells.iter().skip(i + 1) {
            assert!(
                a.row + 1 <= b.row || a.column + a.width <= b.column || b.column + b.width <= a.column
            );
        }
    }
}

#[test]
fn dates_end_with_the_calendar() {
    assert_eq!(displayed_instant(0), Some(0));
    assert_eq!(displayed_instant(1_700_000_000), Some(1_700_000_000));
    assert_eq!(displayed_instant(8_210_266_876_799), Some(8_210_266_876_799));
    assert_eq!(displayed_instant(8_210_266_876_800), None);
    assert_eq!(displayed_instant(u64::MAX), Some(-1));
    assert_eq!(displayed_instant(8_334_601_228_800u64.wrapping_neg()), Some(-8_334_601_228_800));
    assert_eq!(displayed_instant(8_334_601_228_801u64.wrapping_neg()), None);
    assert_eq!(displayed_instant(i64::MAX as u64), None);
    let mut message = empty();
    message.time = 5;
    assert_eq!(message.instant(), Some(5));
}

#[test]
fn priorities_have_words_and_classes() {
    let catalog = Catalog::untranslated();
    let expected: [(i8, &str, &str); 8] = [
        (5, "Priority: Max", "priority-5"),
        (4, "Priority: High", "priority-4"),
        (3, "Priority: Medium", "priority-3"),
        (2, "Priority: Low", "priority-2"),
        (1, "Priority: Min", "priority-1"),
        (0, "Priority: Invalid", "priority-1"),
        (-128, "Priority: Invalid", "priority-1"),
        (127, "Priority: Invalid", "priority-5"),
    ];
    for (priority, words, class) in expected {
        assert_eq!(build_priority_badge(priority, &catalog), badge(words, class));
    }
}

#[test]
fn pressing_and_settings_change_the_style() {
    let mut message = empty();
    message.priority = Some(9);
    let mut row = MessageRow::new(&message, true, &context());
    assert_eq!(row.css_classes, vec!["message-card", "message-unseen", "message-priority-5"]);
    assert_eq!(
        row.handle(RowEvent::AccentChanged(true)),
        Reaction { change: Some(ClassChange::Add("follow-accent")), report: None }
    );
    assert_eq!(
        row.css_classes,
        vec!["message-card", "message-unseen", "message-priority-5", "follow-accent"]
    );
    row.handle(RowEvent::AccentChanged(true));
    assert_eq!(row.css_classes.len(), 4);
    assert_eq!(
        row.handle(RowEvent::Pressed),
        Reaction {
            change: Some(ClassChange::Remove("message-unseen")),
            report: Some(Report::Seen),
        }
    );
    row.handle(RowEvent::Pressed);
    assert_eq!(row.css_classes, vec!["message-card", "message-priority-5", "follow-accent"]);
    assert_eq!(
        row.handle(RowEvent::AccentChanged(false)),
        Reaction { change: Some(ClassChange::Remove("follow-accent")), report: None }
    );
    assert_eq!(row.css_classes, vec!["message-card", "message-priority-5"]);
    assert_eq!(
        row.handle(RowEvent::DeleteClicked),
        Reaction { change: None, report: Some(Report::Delete) }
    );
    assert_eq!(row.css_classes, vec!["message-card", "message-priority-5"]);
}

#[test]
fn each_press_is_reported_as_seen_and_none_as_deletion() {
    for unseen in [true, false] {
        let mut row = MessageRow::new(&empty(), unseen, &context());
        for _ in 0..3 {
            assert_eq!(row.handle(RowEvent::Pressed).report, Some(Report::Seen));
            assert!(!row.css_classes.contains(&text("message-unseen")));
        }
    }
    assert_eq!(report(RowEvent::Pressed), Some(Report::Seen));
    assert_eq!(report(RowEvent::DeleteClicked), Some(Report::Delete));
    assert_eq!(report(RowEvent::AccentChanged(true)), None);
}

#[test]
fn the_badge_is_on_the_right_of_the_footer() {
    let mut message = empty();
    message.priority = Some(0);
    let right = build_controls(&message, true, &context());
    assert_eq!(
        right,
        vec![
            badge("Priority: Invalid", "priority-1"),
            icon("dialog-information-symbolic", "Unread notification", 100),
            delete_button(),
        ]
    );
    assert_eq!(build_date(&message, &context()), vec![time("12:00")]);
}

#[test]
fn the_icon_is_the_first_that_the_theme_has() {
    assert_eq!(
        notification_icon_candidates(true),
        vec![
            "alarm-symbolic",
            "preferences-system-notifications-symbolic",
            "notification-symbolic",
            "dialog-information-symbolic",
        ]
    );
    assert_eq!(
        notification_icon_candidates(false),
        vec![
            "notifications-disabled-symbolic",
            "preferences-system-notifications-symbolic",
            "dialog-information-symbolic",
        ]
    );
    let theme = Some(vec![text("notification-symbolic"), text("preferences-system-notifications-symbolic")]);
    assert_eq!(themed_notification_icon(true, &theme), "preferences-system-notifications-symbolic");
    let theme = Some(vec![text("notification-symbolic")]);
    assert_eq!(themed_notification_icon(true, &theme), "notification-symbolic");
    assert_eq!(themed_notification_icon(false, &theme), "dialog-information-symbolic");
    assert_eq!(themed_notification_icon(true, &Some(vec![])), "dialog-information-symbolic");
    assert_eq!(themed_notification_icon(true, &None), "dialog-information-symbolic");
}

#[test]
fn buttons_say_what_they_do() {
    let catalog = Catalog::untranslated();
    let http = Action::Http { label: text("Off"), method: text("PUT"), url: text("http://a.b") };
    assert_eq!(
        build_action_btn(&http, &catalog),
        ActionButton {
            label: text("Off"),
            tooltip: text("Send HTTP PUT to http://a.b"),
            action_name: Some(text("app.message-action")),
            sensitive: true,
        }
    );
    let broadcast = Action::Broadcast { label: text("Cast") };
    assert_eq!(
        build_action_btn(&broadcast, &catalog),
        ActionButton {
            label: text("Cast"),
            tooltip: text("Broadcast action only available on Android"),
            action_name: None,
            sensitive: false,
        }
    );
    let odd = Action::Http { label: text("x"), method: text("{}"), url: text("u") };
    assert_eq!(build_action_btn(&odd, &catalog).tooltip, "Send HTTP u to {}");
}

#[test]
fn translations_need_not_hold_the_placeholder() {
    let mut catalog = Catalog::untranslated();
    catalog.go_to = text("Aller");
    let view = Action::View { label: text("x"), url: text("u") };
    assert_eq!(build_action_btn(&view, &catalog).tooltip, "Aller");
    catalog.send_http = text("{} ← {}");
    let http = Action::Http { label: text("x"), method: text("GET"), url: text("u") };
    assert_eq!(build_action_btn(&http, &catalog).tooltip, "GET ← u");
}

#[test]
fn texts_are_replaced_once_and_joined() {
    assert_eq!(replace_once("a{}b{}", "{}", "X"), "aXb{}");
    assert_eq!(replace_once("ab", "{}", "X"), "ab");
    assert_eq!(replace_once("é{}", "{}", "{}"), "é{}");
    assert_eq!(join(&vec![], ", "), "");
    assert_eq!(join(&vec![text("a")], ", "), "a");
    assert_eq!(join(&vec![text("a"), text(""), text("c")], ", "), "a, , c");
}

#[test]
fn cells_are_styled_by_what_they_show() {
    assert_eq!(cell_classes(&CellContent::Title(text("t"))), vec!["heading", "message-title"]);
    let body = CellContent::Body { text: text("b"), markup: false };
    assert_eq!(cell_classes(&body), vec!["message-body"]);
    assert_eq!(cell_classes(&CellContent::Picture(text("p"))), vec!["message-image"]);
    assert!(cell_classes(&CellContent::Actions(vec![])).is_empty());
    assert!(cell_classes(&CellContent::Tags(text("t"))).is_empty());
    assert_eq!(cell_classes(&CellContent::Date(vec![])), vec!["message-footer-date"]);
    assert!(cell_classes(&CellContent::Controls(vec![])).is_empty());
}
