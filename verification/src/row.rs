//! The row of a notification: what it shows and where.
use vstd::prelude::*;
use crate::actions::{action_button, build_action_btn, Action, ActionButton};
use crate::catalog::Catalog;
use crate::events::{report, report_of, reports_of, Report, RowEvent};
use crate::icons::{notification_icon, themed_notification_icon};
use crate::images::{image_urls, markdown_image_urls};
use crate::markdown::markdown_events;
use crate::pango::{markdown_to_pango, pango_markup};
use crate::style::{
    apply_event, badge_class, build_classes, change_of, changed, classes_after, digit_of,
    class_list, first_classes, law_classes_follow_events, ClassChange, Styled,
};
use crate::text::{join, joined, replace_once, replaced_once, texts};
use crate::time::{displayed_instant, instant_of};

verus! {

/// The columns of the row's grid.
pub const COLUMNS: i32 = 4;

/// The icon of the button that deletes a notification.
pub const DELETE_ICON: &'static str = "user-trash-symbolic";

/// A file that comes with a message.
#[derive(Debug)]
pub struct Attachment {
    pub url: String,
    pub image: bool,
}

/// A notification, as far as its row shows it.
#[derive(Debug)]
pub struct ReceivedMessage {
    /// Seconds since the beginning of 1970.
    pub time: u64,
    /// Links an edited notification to the one that it replaces.
    pub sequence_id: Option<String>,
    pub priority: Option<i8>,
    pub title: Option<String>,
    pub message: Option<String>,
    /// Whether `message` is Markdown.
    pub markdown: bool,
    pub attachment: Option<Attachment>,
    pub actions: Vec<Action<String>>,
    pub tags: Vec<String>,
}

impl ReceivedMessage {
    /// The second at which the notification was sent, where there is a date for it.
    pub fn instant(&self) -> (instant: Option<i64>)
        ensures
            instant == instant_of(self.time),
    {
        displayed_instant(self.time)
    }
}

/// What a row takes from the desktop.
#[derive(Debug)]
pub struct RowContext {
    /// Whether rows take up the accent color.
    pub follow_accent: bool,
    /// The time of the message in the user's time zone and format, where there is a date.
    pub local_time: Option<String>,
    /// The icons of the theme, or `None` where there is no display.
    pub icons: Option<Vec<String>>,
    pub catalog: Catalog,
}

/// A part of the footer: `S` is the type of its texts.
#[derive(Debug, PartialEq)]
pub enum FooterPart<S> {
    /// The time of the message.
    Time(S),
    /// The chip that marks an edited notification.
    Edited(S),
    /// The badge for the priority of the message.
    Priority(S),
    /// The icon that tells an unread notification from a seen one. Its opacity is in percent.
    Icon { name: S, tooltip: S, opacity: u8 },
    /// The button that deletes the notification.
    DeleteButton { icon_name: S, tooltip: S },
}

impl View for FooterPart<String> {
    type V = FooterPart<Seq<char>>;

    open spec fn view(&self) -> FooterPart<Seq<char>> {
        match *self {
            FooterPart::Time(text) => FooterPart::Time(text@),
            FooterPart::Edited(text) => FooterPart::Edited(text@),
            FooterPart::Priority(text) => FooterPart::Priority(text@),
            FooterPart::Icon { name, tooltip, opacity } => FooterPart::Icon {
                name: name@,
                tooltip: tooltip@,
                opacity,
            },
            FooterPart::DeleteButton { icon_name, tooltip } => FooterPart::DeleteButton {
                icon_name: icon_name@,
                tooltip: tooltip@,
            },
        }
    }
}

/// A part of the footer with its style classes.
pub type Part = Styled<FooterPart<String>, Vec<String>>;

/// A part of the footer with its style classes, as it is spoken of.
pub type PartView = Styled<FooterPart<Seq<char>>, Seq<Seq<char>>>;

/// The button for an action with its style classes.
pub type Button = Styled<ActionButton<String>, Vec<String>>;

/// The button for an action with its style classes, as it is spoken of.
pub type ButtonView = Styled<ActionButton<Seq<char>>, Seq<Seq<char>>>;

/// The footer's parts of a list.
pub open spec fn parts_view(parts: Seq<Part>) -> Seq<PartView> {
    parts.map_values(|part: Part| part@)
}

/// What a cell of the grid shows: `S` is the type of texts, `B` that of lists of buttons, `P`
/// that of lists of the footer's parts.
#[derive(Debug, PartialEq)]
pub enum CellContent<S, B, P> {
    Title(S),
    /// The message, as plain text or as Pango markup.
    Body { text: S, markup: bool },
    Picture(S),
    Actions(B),
    Tags(S),
    /// The left part of the footer, from left to right.
    Date(P),
    /// The right part of the footer, from left to right.
    Controls(P),
}

/// What a cell of a row shows.
pub type Content = CellContent<String, Vec<Button>, Vec<Part>>;

/// What a cell shows, as it is spoken of.
pub type ContentView = CellContent<Seq<char>, Seq<ButtonView>, Seq<PartView>>;

/// A cell of the grid: what it shows, its style classes, its upper left corner and its size.
#[derive(Debug, PartialEq)]
pub struct Cell {
    pub content: Content,
    pub css_classes: Vec<String>,
    pub column: i32,
    pub row: usize,
    pub width: i32,
    pub height: i32,
}

/// A cell, as it is spoken of.
pub struct CellView {
    pub content: ContentView,
    pub css_classes: Seq<Seq<char>>,
    pub column: int,
    pub row: int,
    pub width: int,
    pub height: int,
}

/// The buttons of a list.
pub open spec fn buttons_view(buttons: Seq<Button>) -> Seq<ButtonView> {
    buttons.map_values(|button: Button| button@)
}

impl View for Content {
    type V = ContentView;

    open spec fn view(&self) -> ContentView {
        match *self {
            CellContent::Title(text) => CellContent::Title(text@),
            CellContent::Body { text, markup } => CellContent::Body { text: text@, markup },
            CellContent::Picture(url) => CellContent::Picture(url@),
            CellContent::Actions(buttons) => CellContent::Actions(buttons_view(buttons@)),
            CellContent::Tags(text) => CellContent::Tags(text@),
            CellContent::Date(parts) => CellContent::Date(parts_view(parts@)),
            CellContent::Controls(parts) => CellContent::Controls(parts_view(parts@)),
        }
    }
}

impl View for Cell {
    type V = CellView;

    open spec fn view(&self) -> CellView {
        CellView {
            content: self.content@,
            css_classes: texts(self.css_classes@),
            column: self.column as int,
            row: self.row as int,
            width: self.width as int,
            height: self.height as int,
        }
    }
}

/// The contents of a list.
pub open spec fn contents_view(contents: Seq<Content>) -> Seq<ContentView> {
    contents.map_values(|content: Content| content@)
}

/// The cells of a list.
pub open spec fn cells_view(cells: Seq<Cell>) -> Seq<CellView> {
    cells.map_values(|cell: Cell| cell@)
}

/// The actions of a list.
pub open spec fn actions_view(actions: Seq<Action<String>>) -> Seq<Action<Seq<char>>> {
    actions.map_values(|action: Action<String>| action@)
}

/// The title, where there is one.
pub open spec fn title_contents(title: Option<String>) -> Seq<ContentView> {
    match title {
        Some(text) => seq![CellContent::Title(text@)],
        None => Seq::empty(),
    }
}

/// The message, where there is one, and below it the pictures that it refers to.
pub open spec fn body_contents(message: Option<String>, markdown: bool) -> Seq<ContentView> {
    match message {
        Some(text) => seq![
            CellContent::Body {
                text: if markdown {
                    pango_markup(markdown_events(text@))
                } else {
                    text@
                },
                markup: markdown,
            },
        ] + pictures(image_urls(text@)),
        None => Seq::empty(),
    }
}

/// Pictures one below the other.
pub open spec fn pictures(urls: Seq<Seq<char>>) -> Seq<ContentView> {
    urls.map_values(|url: Seq<char>| ContentView::Picture(url))
}

/// The attachment, if it is a picture.
pub open spec fn attachment_contents(attachment: Option<Attachment>) -> Seq<ContentView> {
    match attachment {
        Some(file) => if file.image {
            seq![CellContent::Picture(file.url@)]
        } else {
            Seq::empty()
        },
        None => Seq::empty(),
    }
}

/// The button for an action, in the shape of a pill.
pub open spec fn pill_button(action: Action<Seq<char>>, catalog: Catalog) -> ButtonView {
    Styled { item: action_button(action, catalog), css_classes: seq!["pill"@] }
}

/// The buttons of the actions, if there are any.
pub open spec fn actions_contents(actions: Seq<Action<String>>, catalog: Catalog) -> Seq<
    ContentView,
> {
    if actions.len() > 0 {
        seq![
            CellContent::Actions(
                actions_view(actions).map_values(
                    |action: Action<Seq<char>>| pill_button(action, catalog),
                ),
            ),
        ]
    } else {
        Seq::empty()
    }
}

/// The tags, if there are any.
pub open spec fn tags_contents(tags: Seq<String>, catalog: Catalog) -> Seq<ContentView> {
    if tags.len() > 0 {
        seq![CellContent::Tags(catalog.tags@ + joined(texts(tags), ", "@))]
    } else {
        Seq::empty()
    }
}

/// What a row shows above its footer, from top to bottom.
pub open spec fn contents(message: ReceivedMessage, catalog: Catalog) -> Seq<ContentView> {
    title_contents(message.title) + body_contents(message.message, message.markdown)
        + attachment_contents(message.attachment) + actions_contents(message.actions@, catalog)
        + tags_contents(message.tags@, catalog)
}

/// The style classes of a cell.
pub open spec fn classes_of(content: ContentView) -> Seq<Seq<char>> {
    match content {
        CellContent::Title(_) => seq!["heading"@, "message-title"@],
        CellContent::Body { .. } => seq!["message-body"@],
        CellContent::Picture(_) => seq!["message-image"@],
        CellContent::Actions(_) => Seq::empty(),
        CellContent::Tags(_) => Seq::empty(),
        CellContent::Date(_) => seq!["message-footer-date"@],
        CellContent::Controls(_) => Seq::empty(),
    }
}

/// A cell that shows `content`.
pub open spec fn cell(content: ContentView, column: int, row: int, width: int) -> CellView {
    CellView { content, css_classes: classes_of(content), column, row, width, height: 1 }
}

/// Contents laid out one below the other over the whole width, with a footer below them:
/// `date` on the left and `controls` on the right.
pub open spec fn laid_out(
    contents: Seq<ContentView>,
    date: Seq<PartView>,
    controls: Seq<PartView>,
) -> Seq<CellView> {
    contents.map(|i: int, content: ContentView| cell(content, 0, i, COLUMNS as int)) + seq![
        cell(CellContent::Date(date), 0, contents.len() as int, 1),
        cell(CellContent::Controls(controls), 1, contents.len() as int, 3),
    ]
}

/// The word for a priority.
pub open spec fn priority_level(priority: i8, catalog: Catalog) -> Seq<char> {
    if priority == 5 {
        catalog.max@
    } else if priority == 4 {
        catalog.high@
    } else if priority == 3 {
        catalog.medium@
    } else if priority == 2 {
        catalog.low@
    } else if priority == 1 {
        catalog.min@
    } else {
        catalog.invalid@
    }
}

/// The text of the badge for a priority.
pub open spec fn priority_text(priority: i8, catalog: Catalog) -> Seq<char> {
    replaced_once(catalog.priority@, "{}"@, priority_level(priority, catalog))
}

/// The badge for a priority.
pub open spec fn priority_badge(priority: i8, catalog: Catalog) -> PartView {
    Styled {
        item: FooterPart::Priority(priority_text(priority, catalog)),
        css_classes: seq!["caption"@, "priority-badge"@, badge_class(priority)],
    }
}

/// The text for the time of a message, which is empty where there is no date.
pub open spec fn time_text(message: ReceivedMessage, context: RowContext) -> Seq<char> {
    match (instant_of(message.time), context.local_time) {
        (Some(_), Some(text)) => text@,
        _ => Seq::empty(),
    }
}

/// The time of a message.
pub open spec fn time_label(message: ReceivedMessage, context: RowContext) -> PartView {
    Styled {
        item: FooterPart::Time(time_text(message, context)),
        css_classes: seq!["caption"@],
    }
}

/// The chip of an edited notification.
pub open spec fn edited_chip(catalog: Catalog) -> PartView {
    Styled {
        item: FooterPart::Edited(catalog.edited@),
        css_classes: seq!["caption"@, "chip"@],
    }
}

/// The left part of the footer: the time, and behind it the chip of an edited notification.
pub open spec fn date_parts(message: ReceivedMessage, context: RowContext) -> Seq<PartView> {
    let time = time_label(message, context);
    match message.sequence_id {
        Some(_) => seq![time, edited_chip(context.catalog)],
        None => seq![time],
    }
}

/// The icon of a row.
pub open spec fn row_icon(unseen: bool, context: RowContext) -> PartView {
    Styled {
        item: FooterPart::Icon {
            name: notification_icon(unseen, icons_view(context.icons)),
            tooltip: if unseen {
                context.catalog.unread_notification@
            } else {
                context.catalog.seen_notification@
            },
            opacity: if unseen {
                100
            } else {
                35
            },
        },
        css_classes: seq!["unseen-indicator"@],
    }
}

/// The button that deletes a notification.
pub open spec fn delete_button(catalog: Catalog) -> PartView {
    Styled {
        item: FooterPart::DeleteButton {
            icon_name: DELETE_ICON@,
            tooltip: catalog.delete_notification@,
        },
        css_classes: seq!["flat"@, "circular"@],
    }
}

/// The right part of the footer: the badge of the priority, where there is one, and behind it
/// the icon and the button that deletes the notification.
pub open spec fn controls_parts(
    message: ReceivedMessage,
    unseen: bool,
    context: RowContext,
) -> Seq<PartView> {
    let icon = row_icon(unseen, context);
    let button = delete_button(context.catalog);
    match message.priority {
        Some(p) => seq![priority_badge(p, context.catalog), icon, button],
        None => seq![icon, button],
    }
}

/// The row of a notification.
#[derive(Debug)]
pub struct MessageRow {
    pub css_classes: Vec<String>,
    pub cells: Vec<Cell>,
}

/// What a row does about an event: it changes its style, and then tells its owner.
#[derive(Clone, Copy, Debug, PartialEq, Eq)]
pub struct Reaction {
    pub change: Option<ClassChange>,
    pub report: Option<Report>,
}

fn push_title(contents: &mut Vec<Content>, title: &Option<String>)
    ensures
        contents_view(final(contents)@) == contents_view(old(contents)@) + title_contents(*title),
{
    if let Some(text) = title {
        contents.push(CellContent::Title(text.clone()));
    }
}

fn push_pictures(contents: &mut Vec<Content>, urls: Vec<String>)
    ensures
        contents_view(final(contents)@) == contents_view(old(contents)@) + pictures(
            texts(urls@),
        ),
{
    let mut i: usize = 0;
    while i < urls.len()
        invariant
            i <= urls@.len(),
            contents_view(contents@) == contents_view(old(contents)@) + pictures(
                texts(urls@).take(i as int),
            ),
        decreases urls.len() - i,
    {
        let ghost before = contents@;
        let content: Content = CellContent::Picture(urls[i].clone());
        contents.push(content);
        assert(contents_view(contents@) =~= contents_view(before).push(content@));
        i += 1;
    }
}

fn push_body(contents: &mut Vec<Content>, message: &Option<String>, markdown: bool)
    ensures
        contents_view(final(contents)@) == contents_view(old(contents)@) + body_contents(
            *message,
            markdown,
        ),
{
    if let Some(message) = message {
        let text: String = if markdown {
            markdown_to_pango(message.as_str())
        } else {
            message.clone()
        };
        let body: Content = CellContent::Body { text, markup: markdown };
        contents.push(body);
        push_pictures(contents, markdown_image_urls(message.as_str()));
    }
}

fn push_attachment(contents: &mut Vec<Content>, attachment: &Option<Attachment>)
    ensures
        contents_view(final(contents)@) == contents_view(old(contents)@) + attachment_contents(
            *attachment,
        ),
{
    if let Some(file) = attachment {
        if file.image {
            contents.push(CellContent::Picture(file.url.clone()));
        }
    }
}

fn build_buttons(actions: &Vec<Action<String>>, catalog: &Catalog) -> (buttons: Vec<Button>)
    ensures
        buttons_view(buttons@) == actions_view(actions@).map_values(
            |action: Action<Seq<char>>| pill_button(action, *catalog),
        ),
{
    let mut buttons: Vec<Button> = Vec::new();
    let mut i: usize = 0;
    while i < actions.len()
        invariant
            i == buttons@.len(),
            i <= actions@.len(),
            forall|j: int|
                0 <= j < i ==> (#[trigger] buttons@[j])@ == pill_button(
                    actions@[j]@,
                    *catalog,
                ),
        decreases actions.len() - i,
    {
        let css_classes: Vec<String> = class_list(vec!["pill"]);
        assert(texts(css_classes@) =~= seq!["pill"@]);
        buttons.push(Styled { item: build_action_btn(&actions[i], catalog), css_classes });
        i += 1;
    }
    buttons
}

fn push_actions(contents: &mut Vec<Content>, actions: &Vec<Action<String>>, catalog: &Catalog)
    ensures
        contents_view(final(contents)@) == contents_view(old(contents)@) + actions_contents(
            actions@,
            *catalog,
        ),
{
    if actions.len() > 0 {
        contents.push(CellContent::Actions(build_buttons(actions, catalog)));
    }
}

fn push_tags(contents: &mut Vec<Content>, tags: &Vec<String>, catalog: &Catalog)
    ensures
        contents_view(final(contents)@) == contents_view(old(contents)@) + tags_contents(
            tags@,
            *catalog,
        ),
{
    if tags.len() > 0 {
        let mut text: String = catalog.tags.clone();
        text.append(join(tags, ", ").as_str());
        contents.push(CellContent::Tags(text));
    }
}

/// What a row shows above its footer.
pub fn build_contents(message: &ReceivedMessage, catalog: &Catalog) -> (built: Vec<Content>)
    ensures
        contents_view(built@) == contents(*message, *catalog),
{
    let mut built: Vec<Content> = Vec::new();
    push_title(&mut built, &message.title);
    push_body(&mut built, &message.message, message.markdown);
    push_attachment(&mut built, &message.attachment);
    push_actions(&mut built, &message.actions, catalog);
    push_tags(&mut built, &message.tags, catalog);
    built
}

/// The style classes of a cell that shows `content`.
pub fn cell_classes(content: &Content) -> (classes: Vec<String>)
    ensures
        texts(classes@) == classes_of(content@),
{
    match content {
        CellContent::Title(_) => class_list(vec!["heading", "message-title"]),
        CellContent::Body { .. } => class_list(vec!["message-body"]),
        CellContent::Picture(_) => class_list(vec!["message-image"]),
        CellContent::Actions(_) => Vec::new(),
        CellContent::Tags(_) => Vec::new(),
        CellContent::Date(_) => class_list(vec!["message-footer-date"]),
        CellContent::Controls(_) => Vec::new(),
    }
}

fn place(content: Content, column: i32, row: usize, width: i32) -> (placed: Cell)
    ensures
        placed@ == cell(content@, column as int, row as int, width as int),
{
    let css_classes: Vec<String> = cell_classes(&content);
    Cell { content, css_classes, column, row, width, height: 1 }
}

/// The cells of a row that shows `contents` above its footer, with `date` on the left of the
/// footer and `controls` on the right.
pub fn lay_out(contents: Vec<Content>, date: Vec<Part>, controls: Vec<Part>) -> (cells: Vec<Cell>)
    ensures
        cells_view(cells@) == laid_out(
            contents_view(contents@),
            parts_view(date@),
            parts_view(controls@),
        ),
{
    let ghost all = contents@;
    let mut cells: Vec<Cell> = Vec::new();
    for content in it: contents
        invariant
            it.seq() == all,
            cells@.len() == it.index(),
            forall|j: int|
                0 <= j < it.index() ==> (#[trigger] cells@[j])@ == laid_out(
                    contents_view(all),
                    parts_view(date@),
                    parts_view(controls@),
                )[j],
    {
        let row: usize = cells.len();
        cells.push(place(content, 0, row, COLUMNS));
    }
    let row: usize = cells.len();
    cells.push(place(CellContent::Date(date), 0, row, 1));
    cells.push(place(CellContent::Controls(controls), 1, row, 3));
    cells
}

/// The badge for a priority.
pub fn build_priority_badge(priority: i8, catalog: &Catalog) -> (badge: Part)
    ensures
        badge@ == priority_badge(priority, *catalog),
{
    let level: &String = match priority {
        5 => &catalog.max,
        4 => &catalog.high,
        3 => &catalog.medium,
        2 => &catalog.low,
        1 => &catalog.min,
        _ => &catalog.invalid,
    };
    let text: String = replace_once(catalog.priority.as_str(), "{}", level.as_str());
    let mut css_class: String = "priority-".to_owned();
    css_class.push(digit_of(priority));
    let mut css_classes: Vec<String> = class_list(vec!["caption", "priority-badge"]);
    assert(texts(css_classes@) =~= seq!["caption"@, "priority-badge"@]);
    css_classes.push(css_class);
    assert(texts(css_classes@) =~= seq!["caption"@, "priority-badge"@, badge_class(priority)]);
    Styled { item: FooterPart::Priority(text), css_classes }
}

/// The icons of a theme.
pub open spec fn icons_view(icons: Option<Vec<String>>) -> Option<Seq<Seq<char>>> {
    match icons {
        Some(names) => Some(texts(names@)),
        None => None,
    }
}

/// The left part of the footer.
pub fn build_date(message: &ReceivedMessage, context: &RowContext) -> (parts: Vec<Part>)
    ensures
        parts_view(parts@) == date_parts(*message, *context),
{
    let time: String = match (message.instant(), &context.local_time) {
        (Some(_), Some(text)) => text.clone(),
        _ => String::new(),
    };
    let caption: Vec<String> = class_list(vec!["caption"]);
    assert(texts(caption@) =~= seq!["caption"@]);
    let mut parts: Vec<Part> = Vec::new();
    parts.push(Styled { item: FooterPart::Time(time), css_classes: caption });
    if message.sequence_id.is_some() {
        let chip: Vec<String> = class_list(vec!["caption", "chip"]);
        assert(texts(chip@) =~= seq!["caption"@, "chip"@]);
        let text: String = context.catalog.edited.clone();
        parts.push(Styled { item: FooterPart::Edited(text), css_classes: chip });
    }
    parts
}

fn build_icon(unseen: bool, context: &RowContext) -> (icon: Part)
    ensures
        icon@ == row_icon(unseen, *context),
{
    let name: String = themed_notification_icon(unseen, &context.icons).to_owned();
    let item: FooterPart<String> = if unseen {
        let tooltip: String = context.catalog.unread_notification.clone();
        FooterPart::Icon { name, tooltip, opacity: 100 }
    } else {
        let tooltip: String = context.catalog.seen_notification.clone();
        FooterPart::Icon { name, tooltip, opacity: 35 }
    };
    let css_classes: Vec<String> = class_list(vec!["unseen-indicator"]);
    assert(texts(css_classes@) =~= seq!["unseen-indicator"@]);
    Styled { item, css_classes }
}

fn build_delete_button(catalog: &Catalog) -> (button: Part)
    ensures
        button@ == delete_button(*catalog),
{
    let css_classes: Vec<String> = class_list(vec!["flat", "circular"]);
    assert(texts(css_classes@) =~= seq!["flat"@, "circular"@]);
    let item: FooterPart<String> = FooterPart::DeleteButton {
        icon_name: DELETE_ICON.to_owned(),
        tooltip: catalog.delete_notification.clone(),
    };
    Styled { item, css_classes }
}

/// The right part of the footer.
pub fn build_controls(message: &ReceivedMessage, unseen: bool, context: &RowContext) -> (parts: Vec<
    Part,
>)
    ensures
        parts_view(parts@) == controls_parts(*message, unseen, *context),
{
    let mut parts: Vec<Part> = Vec::new();
    if let Some(p) = message.priority {
        parts.push(build_priority_badge(p, &context.catalog));
    }
    parts.push(build_icon(unseen, context));
    parts.push(build_delete_button(&context.catalog));
    parts
}

/// The cells of the row of a notification.
pub open spec fn row_cells(message: ReceivedMessage, unseen: bool, context: RowContext) -> Seq<
    CellView,
> {
    laid_out(
        contents(message, context.catalog),
        date_parts(message, context),
        controls_parts(message, unseen, context),
    )
}

impl MessageRow {
    /// The row of a notification.
    pub fn new(message: &ReceivedMessage, unseen: bool, context: &RowContext) -> (row: MessageRow)
        ensures
            cells_view(row.cells@) == row_cells(*message, unseen, *context),
            texts(row.css_classes@) == first_classes(
                unseen,
                context.follow_accent,
                message.priority,
            ),
    {
        MessageRow {
            css_classes: build_classes(unseen, context.follow_accent, message.priority),
            cells: lay_out(
                build_contents(message, &context.catalog),
                build_date(message, context),
                build_controls(message, unseen, context),
            ),
        }
    }

    /// Takes note of an event: changes the style of the row as it asks for, and says what was
    /// changed and what to tell the owner. Nothing else about the row changes.
    pub fn handle(&mut self, event: RowEvent) -> (reaction: Reaction)
        ensures
            reaction.change == change_of(event),
            reaction.report == report_of(event),
            texts(final(self).css_classes@) == changed(
                texts(old(self).css_classes@),
                change_of(event),
            ),
            final(self).cells == old(self).cells,
    {
        Reaction { change: apply_event(&mut self.css_classes, event), report: report(event) }
    }
}

/// Two cells that do not overlap.
pub open spec fn are_apart(a: CellView, b: CellView) -> bool {
    ||| a.row + a.height <= b.row
    ||| b.row + b.height <= a.row
    ||| a.column + a.width <= b.column
    ||| b.column + b.width <= a.column
}

/// The cells of a row lie within the columns of the grid and do not overlap.
pub proof fn law_cells_do_not_overlap(
    contents: Seq<ContentView>,
    date: Seq<PartView>,
    controls: Seq<PartView>,
    i: int,
    j: int,
)
    requires
        0 <= i < laid_out(contents, date, controls).len(),
        0 <= j < laid_out(contents, date, controls).len(),
        i != j,
    ensures
        ({
            let cells = laid_out(contents, date, controls);
            &&& are_apart(cells[i], cells[j])
            &&& 0 <= cells[i].column
            &&& cells[i].column + cells[i].width <= COLUMNS
        }),
{
}

/// The footer is the last line of a row and fills it: nothing is below it, the line holds the
/// date on the left and the controls on the right of it and no more, and every line above it
/// holds one cell of full width.
pub proof fn law_footer_is_below_everything(
    contents: Seq<ContentView>,
    date: Seq<PartView>,
    controls: Seq<PartView>,
)
    ensures
        ({
            let cells = laid_out(contents, date, controls);
            let left = cells[contents.len() as int];
            let right = cells[contents.len() + 1int];
            &&& cells.len() == contents.len() + 2
            &&& forall|i: int|
                0 <= i < contents.len() ==> {
                    &&& (#[trigger] cells[i]).row == i
                    &&& cells[i].column == 0
                    &&& cells[i].width == COLUMNS
                    &&& cells[i].content == contents[i]
                }
            &&& left.content == ContentView::Date(date)
            &&& right.content == ContentView::Controls(controls)
            &&& left.row == contents.len()
            &&& right.row == contents.len()
            &&& left.column == 0
            &&& right.column == left.column + left.width
            &&& right.column + right.width == COLUMNS
        }),
{
}

/// The footer holds the time on the left, at its very beginning, and on the right the icon and
/// the button that deletes the notification, at its very end. The badge of a priority is on the
/// right, before them, and never on the left; the chip of an edited notification is on the left,
/// behind the time, and never on the right.
pub proof fn law_footer_parts(message: ReceivedMessage, unseen: bool, context: RowContext)
    ensures
        ({
            let cells = row_cells(message, unseen, context);
            let last = cells.len() - 1;
            let date = date_parts(message, context);
            let controls = controls_parts(message, unseen, context);
            &&& cells.len() >= 2
            &&& cells[last - 1].content == ContentView::Date(date)
            &&& cells[last - 1].column == 0
            &&& cells[last].content == ContentView::Controls(controls)
            &&& cells[last].column == 1
            &&& cells[last].row == cells[last - 1].row
            &&& date[0] == time_label(message, context)
            &&& forall|k: int| 0 < k < date.len() ==> #[trigger] date[k] == edited_chip(
                context.catalog,
            )
            &&& date.len() == if message.sequence_id is Some {
                2int
            } else {
                1
            }
            &&& controls.len() == if message.priority is Some {
                3int
            } else {
                2
            }
            &&& message.priority matches Some(p) ==> controls[0] == priority_badge(
                p,
                context.catalog,
            )
            &&& controls[controls.len() - 2] == row_icon(unseen, context)
            &&& controls[controls.len() - 1] == delete_button(context.catalog)
        }),
{
}

/// The badge of a priority is styled as a caption, as a badge and by the priority; the chip of
/// an edited notification as a caption and as a chip; and every button of an action as a pill.
pub proof fn law_parts_are_styled(
    message: ReceivedMessage,
    unseen: bool,
    context: RowContext,
    i: int,
)
    requires
        0 <= i < row_cells(message, unseen, context).len(),
    ensures
        match row_cells(message, unseen, context)[i].content {
            CellContent::Date(parts) => forall|k: int|
                0 <= k < parts.len() && #[trigger] parts[k].item is Edited ==> parts[k].css_classes
                    == seq!["caption"@, "chip"@],
            CellContent::Controls(parts) => forall|k: int|
                0 <= k < parts.len() && #[trigger] parts[k].item is Priority
                    ==> message.priority is Some && parts[k].css_classes == seq![
                    "caption"@,
                    "priority-badge"@,
                    badge_class(message.priority->0),
                ],
            CellContent::Actions(buttons) => {
                &&& buttons.len() == message.actions@.len()
                &&& forall|k: int|
                    0 <= k < buttons.len() ==> (#[trigger] buttons[k]).css_classes == seq!["pill"@]
                        && buttons[k].item == action_button(message.actions@[k]@, context.catalog)
            },
            _ => true,
        },
{
}

/// The pictures that a message refers to are shown below its text, right behind it and in
/// their order, whether or not the message is Markdown.
pub proof fn law_pictures_are_below_the_text(message: ReceivedMessage, catalog: Catalog, k: int)
    requires
        message.message is Some,
        0 <= k < image_urls(message.message->0@).len(),
    ensures
        ({
            let body = title_contents(message.title).len() as int;
            let all = contents(message, catalog);
            &&& body + 1 + k < all.len()
            &&& all[body] is Body
            &&& all[body + 1 + k] == ContentView::Picture(image_urls(message.message->0@)[k])
        }),
{
}

/// However often a row is pressed, and whether or not it was seen before, its owner is told each
/// time that it was seen and never that it is to be deleted, and the row is no longer marked as
/// unseen.
pub proof fn law_presses_are_reported_each_time(
    unseen: bool,
    follow_accent: bool,
    priority: Option<i8>,
    n: nat,
)
    requires
        n >= 1,
    ensures
        reports_of(presses(n)) == Seq::new(n, |k: int| Report::Seen),
        !classes_after(first_classes(unseen, follow_accent, priority), presses(n)).contains(
            "message-unseen"@,
        ),
{
    lemma_press_reports(n);
    law_classes_follow_events(unseen, follow_accent, priority, presses(n));
    assert(presses(n)[0] == RowEvent::Pressed);
}

/// A row that is pressed `n` times.
pub open spec fn presses(n: nat) -> Seq<RowEvent> {
    Seq::new(n, |k: int| RowEvent::Pressed)
}

proof fn lemma_press_reports(n: nat)
    ensures
        reports_of(presses(n)) == Seq::new(n, |k: int| Report::Seen),
    decreases n,
{
    if n > 0 {
        lemma_press_reports((n - 1) as nat);
        assert(presses(n).drop_last() =~= presses((n - 1) as nat));
    }
}

} // verus!
