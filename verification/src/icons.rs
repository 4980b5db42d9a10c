//! The icon that tells an unread notification from a seen one.
use vstd::prelude::*;
use crate::text::{same_text, texts};

verus! {

/// The icon that every theme is taken to have.
pub const FALLBACK_ICON: &'static str = "dialog-information-symbolic";

/// The icons that suit a notification, the best one first.
pub open spec fn candidates(unseen: bool) -> Seq<Seq<char>> {
    if unseen {
        seq![
            "alarm-symbolic"@,
            "preferences-system-notifications-symbolic"@,
            "notification-symbolic"@,
            "dialog-information-symbolic"@,
        ]
    } else {
        seq![
            "notifications-disabled-symbolic"@,
            "preferences-system-notifications-symbolic"@,
            "dialog-information-symbolic"@,
        ]
    }
}

/// The first of `names` that is among `available`, or the fallback icon.
pub open spec fn first_available(names: Seq<Seq<char>>, available: Seq<Seq<char>>) -> Seq<char>
    decreases names.len(),
{
    if names.len() == 0 {
        FALLBACK_ICON@
    } else if available.contains(names[0]) {
        names[0]
    } else {
        first_available(names.drop_first(), available)
    }
}

/// The icon of a notification, given the icons of the theme, if there is a display at all.
pub open spec fn notification_icon(unseen: bool, theme: Option<Seq<Seq<char>>>) -> Seq<char> {
    match theme {
        Some(available) => first_available(candidates(unseen), available),
        None => FALLBACK_ICON@,
    }
}

/// The icons to ask the theme for, the best one first.
pub fn notification_icon_candidates(unseen: bool) -> (names: Vec<&'static str>)
    ensures
        names@.map_values(|name: &'static str| name@) == candidates(unseen),
{
    let names: Vec<&'static str> = if unseen {
        vec![
            "alarm-symbolic",
            "preferences-system-notifications-symbolic",
            "notification-symbolic",
            "dialog-information-symbolic",
        ]
    } else {
        vec![
            "notifications-disabled-symbolic",
            "preferences-system-notifications-symbolic",
            "dialog-information-symbolic",
        ]
    };
    names
}

fn is_available(name: &str, available: &Vec<String>) -> (found: bool)
    ensures
        found == texts(available@).contains(name@),
{
    let mut i: usize = 0;
    while i < available.len()
        invariant
            i <= available@.len(),
            forall|j: int| 0 <= j < i ==> available@[j]@ != name@,
        decreases available.len() - i,
    {
        if same_text(available[i].as_str(), name) {
            assert(texts(available@)[i as int] == name@);
            return true;
        }
        i += 1;
    }
    false
}

/// The icon of a notification. `theme` lists the icons that the theme has, or is `None` where
/// there is no display.
pub fn themed_notification_icon(unseen: bool, theme: &Option<Vec<String>>) -> (name: &'static str)
    ensures
        name@ == notification_icon(
            unseen,
            match *theme {
                Some(available) => Some(texts(available@)),
                None => None,
            },
        ),
{
    let Some(available) = theme else {
        return FALLBACK_ICON;
    };
    let names: Vec<&'static str> = notification_icon_candidates(unseen);
    let ghost all = names@.map_values(|name: &'static str| name@);
    let mut i: usize = 0;
    assert(all.skip(0) =~= all);
    while i < names.len()
        invariant
            i <= names@.len(),
            all == names@.map_values(|name: &'static str| name@),
            all == candidates(unseen),
            *theme == Some(*available),
            first_available(all, texts(available@)) == first_available(
                all.skip(i as int),
                texts(available@),
            ),
        decreases names.len() - i,
    {
        assert(all.skip(i as int).drop_first() =~= all.skip(i + 1));
        if is_available(names[i], available) {
            return names[i];
        }
        i += 1;
    }
    FALLBACK_ICON
}

/// The chosen icon is one that suits the notification, and one that the theme has if it has
/// any of them.
pub proof fn law_icon_is_a_candidate(unseen: bool, available: Seq<Seq<char>>)
    ensures
        candidates(unseen).contains(notification_icon(unseen, Some(available))),
        candidates(unseen).contains(notification_icon(unseen, None)),
        (exists|i: int|
            0 <= i < candidates(unseen).len() && available.contains(
                #[trigger] candidates(unseen)[i],
            )) ==> available.contains(notification_icon(unseen, Some(available))),
{
    lemma_first_available(candidates(unseen), available);
}

/// The first of a list that is available is in the list, or else the fallback icon; and where
/// one of the list is available, so is it.
proof fn lemma_first_available(names: Seq<Seq<char>>, available: Seq<Seq<char>>)
    ensures
        names.contains(first_available(names, available)) || first_available(names, available)
            == FALLBACK_ICON@,
        forall|i: int|
            0 <= i < names.len() && available.contains(#[trigger] names[i]) ==> available.contains(
                first_available(names, available),
            ),
    decreases names.len(),
{
    if names.len() > 0 && !available.contains(names[0]) {
        let rest = names.drop_first();
        lemma_first_available(rest, available);
        assert forall|i: int|
            0 <= i < names.len() && available.contains(
                #[trigger] names[i],
            ) implies available.contains(first_available(names, available)) by {
            assert(rest[i - 1] == names[i]);
        }
    }
}

/// The chosen icon is the first one that the theme has in the order of preference.
pub proof fn law_first_available_icon_is_chosen(
    unseen: bool,
    available: Seq<Seq<char>>,
    i: int,
)
    requires
        0 <= i < candidates(unseen).len(),
        available.contains(candidates(unseen)[i]),
        forall|j: int| 0 <= j < i ==> !available.contains(#[trigger] candidates(unseen)[j]),
    ensures
        notification_icon(unseen, Some(available)) == candidates(unseen)[i],
{
    lemma_first_available_at(candidates(unseen), available, i);
}

proof fn lemma_first_available_at(names: Seq<Seq<char>>, available: Seq<Seq<char>>, i: int)
    requires
        0 <= i < names.len(),
        available.contains(names[i]),
        forall|j: int| 0 <= j < i ==> !available.contains(#[trigger] names[j]),
    ensures
        first_available(names, available) == names[i],
    decreases names.len(),
{
    if i > 0 {
        let rest = names.drop_first();
        assert(!available.contains(names[0]));
        assert forall|j: int| 0 <= j < i - 1 implies !available.contains(#[trigger] rest[j]) by {
            assert(rest[j] == names[j + 1]);
        }
        assert(rest[i - 1] == names[i]);
        lemma_first_available_at(rest, available, i - 1);
    }
}

/// An unread notification has the alarm wherever the theme has it, then the icon of the system's
/// notifications, then that of a notification; a seen one has that of disabled notifications,
/// then that of the system's. Without any of them, and without a display, each has the icon of an
/// information.
pub proof fn law_icons_in_order_of_preference(available: Seq<Seq<char>>)
    ensures
        available.contains("alarm-symbolic"@) ==> notification_icon(true, Some(available))
            == "alarm-symbolic"@,
        !available.contains("alarm-symbolic"@) && available.contains(
            "preferences-system-notifications-symbolic"@,
        ) ==> notification_icon(true, Some(available))
            == "preferences-system-notifications-symbolic"@,
        !available.contains("alarm-symbolic"@) && !available.contains(
            "preferences-system-notifications-symbolic"@,
        ) && available.contains("notification-symbolic"@) ==> notification_icon(
            true,
            Some(available),
        ) == "notification-symbolic"@,
        !available.contains("alarm-symbolic"@) && !available.contains(
            "preferences-system-notifications-symbolic"@,
        ) && !available.contains("notification-symbolic"@) ==> notification_icon(
            true,
            Some(available),
        ) == "dialog-information-symbolic"@,
        available.contains("notifications-disabled-symbolic"@) ==> notification_icon(
            false,
            Some(available),
        ) == "notifications-disabled-symbolic"@,
        !available.contains("notifications-disabled-symbolic"@) && available.contains(
            "preferences-system-notifications-symbolic"@,
        ) ==> notification_icon(false, Some(available))
            == "preferences-system-notifications-symbolic"@,
        !available.contains("notifications-disabled-symbolic"@) && !available.contains(
            "preferences-system-notifications-symbolic"@,
        ) ==> notification_icon(false, Some(available)) == "dialog-information-symbolic"@,
        forall|unseen: bool| #[trigger]
            notification_icon(unseen, None) == "dialog-information-symbolic"@,
        candidates(true) == seq![
            "alarm-symbolic"@,
            "preferences-system-notifications-symbolic"@,
            "notification-symbolic"@,
            "dialog-information-symbolic"@,
        ],
        candidates(false) == seq![
            "notifications-disabled-symbolic"@,
            "preferences-system-notifications-symbolic"@,
            "dialog-information-symbolic"@,
        ],
{
    reveal_with_fuel(first_available, 5);
    assert(candidates(true).drop_first() =~= seq![
        "preferences-system-notifications-symbolic"@,
        "notification-symbolic"@,
        "dialog-information-symbolic"@,
    ]);
    assert(candidates(true).drop_first().drop_first() =~= seq![
        "notification-symbolic"@,
        "dialog-information-symbolic"@,
    ]);
    assert(candidates(true).drop_first().drop_first().drop_first() =~= seq![
        "dialog-information-symbolic"@,
    ]);
    assert(candidates(false).drop_first() =~= seq![
        "preferences-system-notifications-symbolic"@,
        "dialog-information-symbolic"@,
    ]);
    assert(candidates(false).drop_first().drop_first() =~= seq!["dialog-information-symbolic"@]);
}

/// The icons that a theme is asked for are the ones that can be chosen: knowing which of them it
/// has is enough, whatever else it has.
pub proof fn law_only_candidates_matter(
    unseen: bool,
    available: Seq<Seq<char>>,
    others: Seq<Seq<char>>,
)
    requires
        forall|i: int|
            0 <= i < candidates(unseen).len() ==> (available.contains(
                #[trigger] candidates(unseen)[i],
            ) <==> others.contains(candidates(unseen)[i])),
    ensures
        notification_icon(unseen, Some(available)) == notification_icon(unseen, Some(others)),
{
    lemma_only_names_matter(candidates(unseen), available, others);
}

proof fn lemma_only_names_matter(
    names: Seq<Seq<char>>,
    available: Seq<Seq<char>>,
    others: Seq<Seq<char>>,
)
    requires
        forall|i: int|
            0 <= i < names.len() ==> (available.contains(#[trigger] names[i]) <==> others.contains(
                names[i],
            )),
    ensures
        first_available(names, available) == first_available(names, others),
    decreases names.len(),
{
    if names.len() > 0 {
        let rest = names.drop_first();
        assert forall|i: int| 0 <= i < rest.len() implies (available.contains(#[trigger] rest[i])
            <==> others.contains(rest[i])) by {
            assert(rest[i] == names[i + 1]);
        }
        assert(available.contains(names[0]) <==> others.contains(names[0]));
        lemma_only_names_matter(rest, available, others);
    }
}

} // verus!
