//! The buttons for the actions of a message.
use vstd::prelude::*;
use crate::catalog::Catalog;
use crate::text::{
    law_leftmost_is_replaced, law_nothing_is_replaced, lemma_find_is, occurs_at, replace_once,
    replaced_once,
};

verus! {

/// The application action that runs an action of a message.
pub const MESSAGE_ACTION: &'static str = "app.message-action";

/// What a message offers to do: `S` is the type of its texts.
#[derive(Debug, PartialEq)]
pub enum Action<S> {
    /// Opens a page.
    View { label: S, url: S },
    /// Sends a request.
    Http { label: S, method: S, url: S },
    /// Sends a broadcast, which only Android knows.
    Broadcast { label: S },
}

impl View for Action<String> {
    type V = Action<Seq<char>>;

    open spec fn view(&self) -> Action<Seq<char>> {
        match *self {
            Action::View { label, url } => Action::View { label: label@, url: url@ },
            Action::Http { label, method, url } => Action::Http {
                label: label@,
                method: method@,
                url: url@,
            },
            Action::Broadcast { label } => Action::Broadcast { label: label@ },
        }
    }
}

/// A button: `S` is the type of its texts.
#[derive(Debug, PartialEq)]
pub struct ActionButton<S> {
    pub label: S,
    pub tooltip: S,
    /// The application action that the button runs, with the message's action as its target.
    pub action_name: Option<S>,
    pub sensitive: bool,
}

impl View for ActionButton<String> {
    type V = ActionButton<Seq<char>>;

    open spec fn view(&self) -> ActionButton<Seq<char>> {
        ActionButton {
            label: self.label@,
            tooltip: self.tooltip@,
            action_name: match self.action_name {
                Some(name) => Some(name@),
                None => None,
            },
            sensitive: self.sensitive,
        }
    }
}

/// The tooltip of the button for an action.
pub open spec fn action_tooltip(action: Action<Seq<char>>, catalog: Catalog) -> Seq<char> {
    match action {
        Action::View { label: _, url } => replaced_once(catalog.go_to@, "{}"@, url),
        Action::Http { label: _, method, url } => replaced_once(
            replaced_once(catalog.send_http@, "{}"@, method),
            "{}"@,
            url,
        ),
        Action::Broadcast { label: _ } => catalog.broadcast_only@,
    }
}

/// The button for an action. A broadcast cannot be sent, so its button runs nothing and
/// cannot be pressed.
pub open spec fn action_button(action: Action<Seq<char>>, catalog: Catalog) -> ActionButton<
    Seq<char>,
> {
    ActionButton {
        label: match action {
            Action::View { label, url: _ } => label,
            Action::Http { label, method: _, url: _ } => label,
            Action::Broadcast { label } => label,
        },
        tooltip: action_tooltip(action, catalog),
        action_name: if action is Broadcast {
            None
        } else {
            Some(MESSAGE_ACTION@)
        },
        sensitive: !(action is Broadcast),
    }
}

/// The button for an action of a message.
pub fn build_action_btn(action: &Action<String>, catalog: &Catalog) -> (button: ActionButton<
    String,
>)
    ensures
        button@ == action_button(action@, *catalog),
{
    match action {
        Action::View { label, url } => ActionButton {
            label: label.clone(),
            tooltip: replace_once(catalog.go_to.as_str(), "{}", url.as_str()),
            action_name: Some(MESSAGE_ACTION.to_owned()),
            sensitive: true,
        },
        Action::Http { label, method, url } => {
            let with_method: String = replace_once(
                catalog.send_http.as_str(),
                "{}",
                method.as_str(),
            );
            ActionButton {
                label: label.clone(),
                tooltip: replace_once(with_method.as_str(), "{}", url.as_str()),
                action_name: Some(MESSAGE_ACTION.to_owned()),
                sensitive: true,
            }
        },
        Action::Broadcast { label } => ActionButton {
            label: label.clone(),
            tooltip: catalog.broadcast_only.clone(),
            action_name: None,
            sensitive: false,
        },
    }
}

/// A button runs an action if and only if it can be pressed.
pub proof fn law_pressable_buttons_run_an_action(action: Action<Seq<char>>, catalog: Catalog)
    ensures
        action_button(action, catalog).sensitive <==> action_button(action, catalog).action_name
            is Some,
{
}

/// Replacing a placeholder that nothing before it holds.
proof fn lemma_replaced(before: Seq<char>, after: Seq<char>, value: Seq<char>)
    requires
        forall|i: int| !occurs_at(before, "{}"@, i),
        before.len() > 0 ==> before.last() != '{',
    ensures
        replaced_once(before + "{}"@ + after, "{}"@, value) == before + value + after,
{
    reveal_strlit("{}");
    let text = before + "{}"@ + after;
    let at = before.len() as int;
    assert(text.subrange(at, at + 2) =~= "{}"@);
    assert forall|j: int| 0 <= j < at implies !occurs_at(text, "{}"@, j) by {
        if occurs_at(text, "{}"@, j) {
            assert(text.subrange(j, j + 2)[1] == '}');
            if j + 2 <= at {
                assert(before.subrange(j, j + 2) =~= "{}"@);
                assert(occurs_at(before, "{}"@, j));
            }
        }
    }
    lemma_find_is(text, "{}"@, at);
}

/// In the untranslated texts the tooltip of a button that opens a page names the page.
pub proof fn law_view_tooltip_names_the_page(label: Seq<char>, url: Seq<char>, catalog: Catalog)
    requires
        catalog.go_to@ == "Go to {}"@,
    ensures
        action_tooltip(Action::View { label, url }, catalog) == "Go to "@ + url,
{
    reveal_strlit("{}");
    reveal_strlit("Go to {}");
    reveal_strlit("Go to ");
    let none = Seq::<char>::empty();
    assert forall|i: int| !occurs_at("Go to "@, "{}"@, i) by {
        if occurs_at("Go to "@, "{}"@, i) {
            assert("Go to "@.subrange(i, i + 2)[0] == '{');
        }
    }
    lemma_replaced("Go to "@, none, url);
    assert("Go to {}"@ =~= "Go to "@ + "{}"@ + none);
}

/// The tooltip of a request before its address is filled in.
proof fn lemma_method_filled_in(method: Seq<char>)
    ensures
        replaced_once("Send HTTP {} to {}"@, "{}"@, method) == "Send HTTP "@ + method + " to {}"@,
{
    reveal_strlit("{}");
    reveal_strlit("Send HTTP {} to {}");
    reveal_strlit("Send HTTP ");
    reveal_strlit(" to {}");
    assert forall|i: int| !occurs_at("Send HTTP "@, "{}"@, i) by {
        if occurs_at("Send HTTP "@, "{}"@, i) {
            assert("Send HTTP "@.subrange(i, i + 2)[0] == '{');
        }
    }
    lemma_replaced("Send HTTP "@, " to {}"@, method);
    assert("Send HTTP {} to {}"@ =~= "Send HTTP "@ + "{}"@ + " to {}"@);
}

/// No placeholder comes in with a method that holds none.
proof fn lemma_no_placeholder(method: Seq<char>)
    requires
        forall|i: int| !occurs_at(method, "{}"@, i),
    ensures
        forall|i: int| !occurs_at("Send HTTP "@ + method + " to "@, "{}"@, i),
{
    reveal_strlit("{}");
    reveal_strlit("Send HTTP ");
    reveal_strlit(" to ");
    let before = "Send HTTP "@ + method + " to "@;
    assert forall|i: int| !occurs_at(before, "{}"@, i) by {
        if occurs_at(before, "{}"@, i) {
            let pair = before.subrange(i, i + 2);
            assert(pair[0] == '{' && pair[1] == '}');
            let k = i - 10;
            if 0 <= k && k + 2 <= method.len() {
                assert(method.subrange(k, k + 2) =~= "{}"@);
                assert(occurs_at(method, "{}"@, k));
            }
        }
    }
}

/// In the untranslated texts the tooltip of a button that sends a request names the method
/// and the address. This holds of every method that does not itself hold the placeholder.
pub proof fn law_http_tooltip_names_the_request(
    label: Seq<char>,
    method: Seq<char>,
    url: Seq<char>,
    catalog: Catalog,
)
    requires
        catalog.send_http@ == "Send HTTP {} to {}"@,
        forall|i: int| !occurs_at(method, "{}"@, i),
    ensures
        action_tooltip(Action::Http { label, method, url }, catalog) == "Send HTTP "@ + method
            + " to "@ + url,
{
    lemma_method_filled_in(method);
    lemma_no_placeholder(method);
    reveal_strlit("{}");
    reveal_strlit(" to {}");
    reveal_strlit(" to ");
    let none = Seq::<char>::empty();
    let before = "Send HTTP "@ + method + " to "@;
    lemma_replaced(before, none, url);
    assert("Send HTTP "@ + method + " to {}"@ =~= before + "{}"@ + none);
}

/// Whatever they say, the buttons that open a page or send a request can be pressed and run the
/// application's action for messages, and the button of a broadcast cannot and runs nothing.
/// Each carries the label of its action.
pub proof fn law_buttons_by_kind_of_action(
    label: Seq<char>,
    method: Seq<char>,
    url: Seq<char>,
    catalog: Catalog,
)
    ensures
        ({
            let view = action_button(Action::View { label, url }, catalog);
            let http = action_button(Action::Http { label, method, url }, catalog);
            let broadcast = action_button(Action::Broadcast { label }, catalog);
            &&& view.label == label
            &&& view.sensitive
            &&& view.action_name == Some("app.message-action"@)
            &&& http.label == label
            &&& http.sensitive
            &&& http.action_name == Some("app.message-action"@)
            &&& broadcast.label == label
            &&& !broadcast.sensitive
            &&& broadcast.action_name is None
            &&& broadcast.tooltip == catalog.broadcast_only@
        }),
{
}

/// The tooltip of a button that opens a page is the translated text with the page in the place of
/// its first `{}`, or as it is where it has none.
pub proof fn law_view_tooltip_fills_the_text(
    label: Seq<char>,
    url: Seq<char>,
    catalog: Catalog,
    before: Seq<char>,
    after: Seq<char>,
)
    ensures
        (catalog.go_to@ == before + "{}"@ + after && forall|j: int|
            0 <= j < before.len() ==> #[trigger] catalog.go_to@.subrange(j, j + 2) != "{}"@)
            ==> action_button(Action::View { label, url }, catalog).tooltip == before + url + after,
        (forall|j: int|
            0 <= j <= catalog.go_to@.len() - 2 ==> #[trigger] catalog.go_to@.subrange(j, j + 2)
                != "{}"@) ==> action_button(Action::View { label, url }, catalog).tooltip
            == catalog.go_to@,
{
    reveal_strlit("{}");
    lemma_fills(catalog.go_to@, before, after, url);
}

/// The tooltip of a button that sends a request is the translated text with the method in the
/// place of its first `{}` and then the address in the place of the first one that is left.
pub proof fn law_http_tooltip_fills_the_text(
    label: Seq<char>,
    method: Seq<char>,
    url: Seq<char>,
    catalog: Catalog,
    before: Seq<char>,
    between: Seq<char>,
    after: Seq<char>,
)
    requires
        catalog.send_http@ == before + "{}"@ + between + "{}"@ + after,
        forall|j: int|
            0 <= j < before.len() ==> #[trigger] catalog.send_http@.subrange(j, j + 2) != "{}"@,
        forall|j: int|
            0 <= j < before.len() + method.len() + between.len() ==> #[trigger] (before + method
                + between + "{}"@ + after).subrange(j, j + 2) != "{}"@,
    ensures
        action_button(Action::Http { label, method, url }, catalog).tooltip == before + method
            + between + url + after,
{
    reveal_strlit("{}");
    let rest = between + "{}"@ + after;
    assert(catalog.send_http@ =~= before + "{}"@ + rest);
    lemma_fills(catalog.send_http@, before, rest, method);
    let filled = before + method + rest;
    assert(filled =~= before + method + between + "{}"@ + after);
    lemma_fills(filled, before + method + between, after, url);
}

/// Where the translated text has one `{}` only, the method takes it; where it has none, the text
/// stays as it is.
pub proof fn law_http_tooltip_of_short_texts(
    label: Seq<char>,
    method: Seq<char>,
    url: Seq<char>,
    catalog: Catalog,
    before: Seq<char>,
    after: Seq<char>,
)
    ensures
        (catalog.send_http@ == before + "{}"@ + after && (forall|j: int|
            0 <= j < before.len() ==> #[trigger] catalog.send_http@.subrange(j, j + 2) != "{}"@)
            && (forall|j: int|
            0 <= j <= (before + method + after).len() - 2 ==> #[trigger] (before + method
                + after).subrange(j, j + 2) != "{}"@)) ==> action_button(
            Action::Http { label, method, url },
            catalog,
        ).tooltip == before + method + after,
        (forall|j: int|
            0 <= j <= catalog.send_http@.len() - 2 ==> #[trigger] catalog.send_http@.subrange(
                j,
                j + 2,
            ) != "{}"@) ==> action_button(Action::Http { label, method, url }, catalog).tooltip
            == catalog.send_http@,
{
    reveal_strlit("{}");
    let none = Seq::<char>::empty();
    lemma_fills(catalog.send_http@, before, after, method);
    lemma_fills(catalog.send_http@, none, none, url);
    lemma_fills(before + method + after, none, none, url);
}

/// Filling a text at its first `{}`, and leaving one without it alone.
proof fn lemma_fills(text: Seq<char>, before: Seq<char>, after: Seq<char>, value: Seq<char>)
    ensures
        (text == before + "{}"@ + after && forall|j: int|
            0 <= j < before.len() ==> #[trigger] text.subrange(j, j + 2) != "{}"@)
            ==> replaced_once(text, "{}"@, value) == before + value + after,
        (forall|j: int| 0 <= j <= text.len() - 2 ==> #[trigger] text.subrange(j, j + 2) != "{}"@)
            ==> replaced_once(text, "{}"@, value) == text,
{
    reveal_strlit("{}");
    if text == before + "{}"@ + after && forall|j: int|
        0 <= j < before.len() ==> #[trigger] text.subrange(j, j + 2) != "{}"@ {
        law_leftmost_is_replaced(before, "{}"@, after, value);
    }
    if forall|j: int| 0 <= j <= text.len() - 2 ==> #[trigger] text.subrange(j, j + 2) != "{}"@ {
        law_nothing_is_replaced(text, "{}"@, value);
    }
}

/// Actions and buttons are spoken of as they are.
pub proof fn law_actions_are_spoken_of_as_they_are(
    label: String,
    method: String,
    url: String,
    button: ActionButton<String>,
)
    ensures
        (Action::View { label, url })@ == (Action::View { label: label@, url: url@ }),
        (Action::Http { label, method, url })@ == (Action::Http {
            label: label@,
            method: method@,
            url: url@,
        }),
        (Action::Broadcast { label })@ == (Action::Broadcast { label: label@ }),
        button@.label == button.label@,
        button@.tooltip == button.tooltip@,
        button.action_name matches Some(name) ==> button@.action_name == Some(name@),
        button.action_name is None ==> button@.action_name is None,
        button@.sensitive == button.sensitive,
{
}

} // verus!
