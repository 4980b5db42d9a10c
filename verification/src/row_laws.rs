//! What holds of the row of every notification.
use vstd::prelude::*;
use crate::actions::action_button;
use crate::catalog::Catalog;
use crate::icons::notification_icon;
use crate::images::image_urls;
use crate::markdown::markdown_events;
use crate::pango::pango_markup;
use crate::row::{
    buttons_view, cells_view, contents_view, controls_parts, date_parts, parts_view,
    priority_badge, row_cells, Button, Cell, CellContent, Content, ContentView, FooterPart, Part,
    ReceivedMessage, RowContext,
};
use crate::style::badge_class;
use crate::text::{joined, law_leftmost_is_replaced, law_nothing_is_replaced, texts};
use crate::time::instant_of;

verus! {

/// A row has one cell for the title, one for the message and one for each picture that it refers
/// to, one for an attached picture, one for all the buttons and one for all the tags, each where
/// there is any, and two for the footer. The cells above the footer stand one below the other, each
/// as wide as the four columns.
pub proof fn law_places_of_the_cells(message: ReceivedMessage, unseen: bool, context: RowContext)
    ensures
        ({
            let title = if message.title is Some {
                1int
            } else {
                0
            };
            let body = match message.message {
                Some(text) => 1 + image_urls(text@).len() as int,
                None => 0,
            };
            let attached = if message.attachment is Some && message.attachment->0.image {
                1int
            } else {
                0
            };
            let buttons = if message.actions@.len() > 0 {
                1int
            } else {
                0
            };
            let tags = if message.tags@.len() > 0 {
                1int
            } else {
                0
            };
            let cells = row_cells(message, unseen, context);
            &&& cells.len() == title + body + attached + buttons + tags + 2
            &&& forall|i: int|
                0 <= i < cells.len() - 2 ==> {
                    &&& (#[trigger] cells[i]).column == 0
                    &&& cells[i].row == i
                    &&& cells[i].width == 4
                    &&& cells[i].height == 1
                }
        }),
{
}

/// The footer stands in the line below all other cells: the date in the first column and the
/// controls in the other three.
pub proof fn law_place_of_the_footer(message: ReceivedMessage, unseen: bool, context: RowContext)
    ensures
        ({
            let cells = row_cells(message, unseen, context);
            let n = cells.len() - 2;
            &&& n >= 0
            &&& cells[n].content == ContentView::Date(date_parts(message, context))
            &&& cells[n].column == 0
            &&& cells[n].row == n
            &&& cells[n].width == 1
            &&& cells[n].height == 1
            &&& cells[n].css_classes == seq!["message-footer-date"@]
            &&& cells[n + 1].content == ContentView::Controls(
                controls_parts(message, unseen, context),
            )
            &&& cells[n + 1].column == 1
            &&& cells[n + 1].row == n
            &&& cells[n + 1].width == 3
            &&& cells[n + 1].height == 1
            &&& cells[n + 1].css_classes == Seq::<Seq<char>>::empty()
        }),
{
}

/// A title stands at the top, as it is.
pub proof fn law_title_is_at_the_top(message: ReceivedMessage, unseen: bool, context: RowContext)
    requires
        message.title is Some,
    ensures
        ({
            let cell = row_cells(message, unseen, context)[0];
            &&& cell.content is Title
            &&& cell.content->Title_0 == message.title->0@
            &&& cell.css_classes == seq!["heading"@, "message-title"@]
        }),
{
}

/// The message stands below the title: as Pango markup where it is Markdown, and as it is where it
/// is not. Below it stand the pictures that it refers to, in their order.
pub proof fn law_message_is_below_the_title(
    message: ReceivedMessage,
    unseen: bool,
    context: RowContext,
)
    requires
        message.message is Some,
    ensures
        ({
            let text = message.message->0@;
            let cells = row_cells(message, unseen, context);
            let at = if message.title is Some {
                1int
            } else {
                0
            };
            let body = cells[at];
            &&& body.content is Body
            &&& body.content->markup == message.markdown
            &&& message.markdown ==> body.content->text == pango_markup(markdown_events(text))
            &&& !message.markdown ==> body.content->text == text
            &&& body.css_classes == seq!["message-body"@]
            &&& forall|k: int|
                0 <= k < image_urls(text).len() ==> {
                    let picture = #[trigger] cells[at + 1 + k];
                    &&& picture.content is Picture
                    &&& picture.content->Picture_0 == image_urls(text)[k]
                    &&& picture.css_classes == seq!["message-image"@]
                }
        }),
{
}

/// An attached picture stands below the message and its pictures.
pub proof fn law_attached_picture_is_shown(
    message: ReceivedMessage,
    unseen: bool,
    context: RowContext,
)
    requires
        message.attachment is Some,
        message.attachment->0.image,
    ensures
        ({
            let file = message.attachment->0;
            let cells = row_cells(message, unseen, context);
            let title = if message.title is Some {
                1int
            } else {
                0
            };
            let body = match message.message {
                Some(text) => 1 + image_urls(text@).len() as int,
                None => 0,
            };
            let cell = cells[title + body];
            &&& cell.content is Picture
            &&& cell.content->Picture_0 == file.url@
            &&& cell.css_classes == seq!["message-image"@]
        }),
{
}

/// The buttons stand below that: one for each action, in their order, in the shape of a pill.
pub proof fn law_buttons_are_shown(message: ReceivedMessage, unseen: bool, context: RowContext)
    requires
        message.actions@.len() > 0,
    ensures
        ({
            let title = if message.title is Some {
                1int
            } else {
                0
            };
            let body = match message.message {
                Some(text) => 1 + image_urls(text@).len() as int,
                None => 0,
            };
            let attached = if message.attachment is Some && message.attachment->0.image {
                1int
            } else {
                0
            };
            let cell = row_cells(message, unseen, context)[title + body + attached];
            let buttons = cell.content->Actions_0;
            &&& cell.content is Actions
            &&& cell.css_classes == Seq::<Seq<char>>::empty()
            &&& buttons.len() == message.actions@.len()
            &&& forall|k: int|
                0 <= k < buttons.len() ==> {
                    &&& (#[trigger] buttons[k]).item == action_button(
                        message.actions@[k]@,
                        context.catalog,
                    )
                    &&& buttons[k].css_classes == seq!["pill"@]
                }
        }),
{
}

/// The tags stand below that, behind their heading and with commas between them.
pub proof fn law_tags_are_shown(message: ReceivedMessage, unseen: bool, context: RowContext)
    requires
        message.tags@.len() > 0,
    ensures
        ({
            let title = if message.title is Some {
                1int
            } else {
                0
            };
            let body = match message.message {
                Some(text) => 1 + image_urls(text@).len() as int,
                None => 0,
            };
            let attached = if message.attachment is Some && message.attachment->0.image {
                1int
            } else {
                0
            };
            let buttons = if message.actions@.len() > 0 {
                1int
            } else {
                0
            };
            let cell = row_cells(message, unseen, context)[title + body + attached + buttons];
            &&& cell.content is Tags
            &&& cell.content->Tags_0 == context.catalog.tags@ + joined(texts(message.tags@), ", "@)
            &&& cell.css_classes == Seq::<Seq<char>>::empty()
        }),
{
}

/// On the left of the footer stands the time in the user's format, empty where there is no date,
/// and behind it the chip if and only if the notification is an edited one.
pub proof fn law_left_of_the_footer(message: ReceivedMessage, context: RowContext)
    ensures
        ({
            let parts = date_parts(message, context);
            &&& parts.len() == 1 + if message.sequence_id is Some {
                1int
            } else {
                0
            }
            &&& parts[0].item is Time
            &&& parts[0].css_classes == seq!["caption"@]
            &&& instant_of(message.time) is Some && context.local_time is Some
                ==> parts[0].item->Time_0 == context.local_time->0@
            &&& instant_of(message.time) is None || context.local_time is None
                ==> parts[0].item->Time_0 == Seq::<char>::empty()
            &&& message.sequence_id is Some ==> {
                &&& parts[1].item is Edited
                &&& parts[1].item->Edited_0 == context.catalog.edited@
                &&& parts[1].css_classes == seq!["caption"@, "chip"@]
            }
        }),
{
}

/// On the right of the footer stand the badge of the priority, if and only if there is one, the
/// icon, and the button that deletes the notification. The icon of an unseen notification is
/// opaque and says that it is unread; that of a seen one is pale and says that it was seen.
pub proof fn law_right_of_the_footer(message: ReceivedMessage, unseen: bool, context: RowContext)
    ensures
        ({
            let parts = controls_parts(message, unseen, context);
            let at = if message.priority is Some {
                1int
            } else {
                0
            };
            let icon = parts[at];
            let button = parts[at + 1];
            let theme = match context.icons {
                Some(names) => Some(texts(names@)),
                None => None,
            };
            &&& parts.len() == at + 2
            &&& message.priority is Some ==> parts[0] == priority_badge(
                message.priority->0,
                context.catalog,
            )
            &&& icon.item is Icon
            &&& icon.item->name == notification_icon(unseen, theme)
            &&& unseen ==> icon.item->Icon_tooltip == context.catalog.unread_notification@
            &&& !unseen ==> icon.item->Icon_tooltip == context.catalog.seen_notification@
            &&& unseen ==> icon.item->opacity == 100
            &&& !unseen ==> icon.item->opacity == 35
            &&& icon.css_classes == seq!["unseen-indicator"@]
            &&& button.item is DeleteButton
            &&& button.item->icon_name == "user-trash-symbolic"@
            &&& button.item->DeleteButton_tooltip == context.catalog.delete_notification@
            &&& button.css_classes == seq!["flat"@, "circular"@]
        }),
{
}

/// The badge of a priority is styled as a caption, as a badge and by the priority, and it holds the
/// translated text with the word for the priority in the place of its first `{}`, or as it is where
/// it has none. Only the priorities from 1 to 5 have words of their own.
pub proof fn law_badges_name_their_priorities(
    priority: i8,
    catalog: Catalog,
    before: Seq<char>,
    after: Seq<char>,
)
    ensures
        ({
            let badge = priority_badge(priority, catalog);
            let fills = catalog.priority@ == before + "{}"@ + after && forall|j: int|
                0 <= j < before.len() ==> #[trigger] catalog.priority@.subrange(j, j + 2) != "{}"@;
            let fixed = forall|j: int|
                0 <= j <= catalog.priority@.len() - 2 ==> #[trigger] catalog.priority@.subrange(
                    j,
                    j + 2,
                ) != "{}"@;
            &&& badge.css_classes == seq!["caption"@, "priority-badge"@, badge_class(priority)]
            &&& badge.item is Priority
            &&& fixed ==> badge.item->Priority_0 == catalog.priority@
            &&& fills && priority == 1 ==> badge.item->Priority_0 == before + catalog.min@ + after
            &&& fills && priority == 2 ==> badge.item->Priority_0 == before + catalog.low@ + after
            &&& fills && priority == 3 ==> badge.item->Priority_0 == before + catalog.medium@
                + after
            &&& fills && priority == 4 ==> badge.item->Priority_0 == before + catalog.high@ + after
            &&& fills && priority == 5 ==> badge.item->Priority_0 == before + catalog.max@ + after
            &&& fills && (priority < 1 || priority > 5) ==> badge.item->Priority_0 == before
                + catalog.invalid@ + after
        }),
{
    reveal_strlit("{}");
    if catalog.priority@ == before + "{}"@ + after && forall|j: int|
        0 <= j < before.len() ==> #[trigger] catalog.priority@.subrange(j, j + 2) != "{}"@ {
        law_leftmost_is_replaced(before, "{}"@, after, catalog.min@);
        law_leftmost_is_replaced(before, "{}"@, after, catalog.low@);
        law_leftmost_is_replaced(before, "{}"@, after, catalog.medium@);
        law_leftmost_is_replaced(before, "{}"@, after, catalog.high@);
        law_leftmost_is_replaced(before, "{}"@, after, catalog.max@);
        law_leftmost_is_replaced(before, "{}"@, after, catalog.invalid@);
    }
    if forall|j: int|
        0 <= j <= catalog.priority@.len() - 2 ==> #[trigger] catalog.priority@.subrange(j, j + 2)
            != "{}"@ {
        law_nothing_is_replaced(catalog.priority@, "{}"@, catalog.min@);
        law_nothing_is_replaced(catalog.priority@, "{}"@, catalog.low@);
        law_nothing_is_replaced(catalog.priority@, "{}"@, catalog.medium@);
        law_nothing_is_replaced(catalog.priority@, "{}"@, catalog.high@);
        law_nothing_is_replaced(catalog.priority@, "{}"@, catalog.max@);
        law_nothing_is_replaced(catalog.priority@, "{}"@, catalog.invalid@);
    }
}

/// Cells, buttons and parts of the footer are spoken of as they are: nothing about them is left
/// out or taken for something else.
pub proof fn law_rows_are_spoken_of_as_they_are(
    cells: Seq<Cell>,
    parts: Seq<Part>,
    buttons: Seq<Button>,
    contents: Seq<Content>,
    a: String,
    b: String,
    flag: bool,
    opacity: u8,
    k: int,
)
    ensures
        cells_view(cells).len() == cells.len(),
        0 <= k < cells.len() ==> ({
            let cell = cells_view(cells)[k];
            &&& cell.content == cells[k].content@
            &&& cell.css_classes == texts(cells[k].css_classes@)
            &&& cell.column == cells[k].column
            &&& cell.row == cells[k].row
            &&& cell.width == cells[k].width
            &&& cell.height == cells[k].height
        }),
        contents_view(contents).len() == contents.len(),
        0 <= k < contents.len() ==> contents_view(contents)[k] == contents[k]@,
        parts_view(parts).len() == parts.len(),
        0 <= k < parts.len() ==> parts_view(parts)[k].item == parts[k].item@
            && parts_view(parts)[k].css_classes == texts(parts[k].css_classes@),
        buttons_view(buttons).len() == buttons.len(),
        0 <= k < buttons.len() ==> buttons_view(buttons)[k].item == buttons[k].item@
            && buttons_view(buttons)[k].css_classes == texts(buttons[k].css_classes@),
        FooterPart::Time(a)@ == FooterPart::Time(a@),
        FooterPart::Edited(a)@ == FooterPart::Edited(a@),
        FooterPart::Priority(a)@ == FooterPart::Priority(a@),
        (FooterPart::Icon { name: a, tooltip: b, opacity })@ == (FooterPart::Icon {
            name: a@,
            tooltip: b@,
            opacity,
        }),
        (FooterPart::DeleteButton { icon_name: a, tooltip: b })@ == (FooterPart::DeleteButton {
            icon_name: a@,
            tooltip: b@,
        }),
        Content::Title(a)@ == ContentView::Title(a@),
        (Content::Body { text: a, markup: flag })@ == (ContentView::Body {
            text: a@,
            markup: flag,
        }),
        Content::Picture(a)@ == ContentView::Picture(a@),
        Content::Tags(a)@ == ContentView::Tags(a@),
        0 <= k < contents.len() ==> (contents[k] matches CellContent::Actions(shown)
            ==> contents[k]@ == ContentView::Actions(buttons_view(shown@))),
        0 <= k < contents.len() ==> (contents[k] matches CellContent::Date(shown) ==> contents[k]@
            == ContentView::Date(parts_view(shown@))),
        0 <= k < contents.len() ==> (contents[k] matches CellContent::Controls(shown)
            ==> contents[k]@ == ContentView::Controls(parts_view(shown@))),
{
}

} // verus!
