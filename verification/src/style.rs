//! The style classes of a row.
use vstd::prelude::*;
use crate::events::RowEvent;
use crate::text::{same_text, texts};

verus! {

/// The priority from 1 to 5 that is nearest to a given one.
pub open spec fn nearest_priority(priority: i8) -> int {
    if priority < 1 {
        1
    } else if priority > 5 {
        5
    } else {
        priority as int
    }
}

/// The nearest priority from 1 to 5, as a digit.
pub open spec fn priority_digit(priority: i8) -> char {
    "12345"@[nearest_priority(priority) - 1]
}

/// The style class of the badge for a priority.
pub open spec fn badge_class(priority: i8) -> Seq<char> {
    "priority-"@.push(priority_digit(priority))
}

/// The style class of a row with a priority.
pub open spec fn row_priority_class(priority: i8) -> Seq<char> {
    "message-priority-"@.push(priority_digit(priority))
}

/// Something that is shown with style classes: `T` is what is shown, `C` the type of the list
/// of the classes.
#[derive(Debug, PartialEq)]
pub struct Styled<T, C> {
    pub item: T,
    pub css_classes: C,
}

impl<T: View> View for Styled<T, Vec<String>> {
    type V = Styled<T::V, Seq<Seq<char>>>;

    open spec fn view(&self) -> Styled<T::V, Seq<Seq<char>>> {
        Styled { item: self.item@, css_classes: texts(self.css_classes@) }
    }
}

/// The style classes that a row begins with.
pub open spec fn first_classes(
    unseen: bool,
    follow_accent: bool,
    priority: Option<i8>,
) -> Seq<Seq<char>> {
    let card = seq!["message-card"@];
    let seen = if unseen {
        card.push("message-unseen"@)
    } else {
        card
    };
    let accented = if follow_accent {
        seen.push("follow-accent"@)
    } else {
        seen
    };
    match priority {
        Some(p) => accented.push(row_priority_class(p)),
        None => accented,
    }
}

/// `classes` with `name` among them, behind the others where it is new.
pub open spec fn with_class(classes: Seq<Seq<char>>, name: Seq<char>) -> Seq<Seq<char>> {
    if classes.contains(name) {
        classes
    } else {
        classes.push(name)
    }
}

/// `classes` without `name`.
pub open spec fn without_class(classes: Seq<Seq<char>>, name: Seq<char>) -> Seq<Seq<char>>
    decreases classes.len(),
{
    if classes.len() == 0 {
        classes
    } else {
        let earlier = without_class(classes.drop_last(), name);
        if classes.last() == name {
            earlier
        } else {
            earlier.push(classes.last())
        }
    }
}

/// A change to the style classes of a row.
#[derive(Clone, Copy, Debug, PartialEq, Eq)]
pub enum ClassChange {
    Add(&'static str),
    Remove(&'static str),
}

/// The style classes after a change, if there is one.
pub open spec fn changed(classes: Seq<Seq<char>>, change: Option<ClassChange>) -> Seq<Seq<char>> {
    match change {
        Some(ClassChange::Add(name)) => with_class(classes, name@),
        Some(ClassChange::Remove(name)) => without_class(classes, name@),
        None => classes,
    }
}

/// What an event changes.
pub open spec fn change_of(event: RowEvent) -> Option<ClassChange> {
    match event {
        RowEvent::Pressed => Some(ClassChange::Remove("message-unseen")),
        RowEvent::DeleteClicked => None,
        RowEvent::AccentChanged(true) => Some(ClassChange::Add("follow-accent")),
        RowEvent::AccentChanged(false) => Some(ClassChange::Remove("follow-accent")),
    }
}

/// The style classes after a sequence of events.
pub open spec fn classes_after(classes: Seq<Seq<char>>, events: Seq<RowEvent>) -> Seq<Seq<char>>
    decreases events.len(),
{
    if events.len() == 0 {
        classes
    } else {
        changed(classes_after(classes, events.drop_last()), change_of(events.last()))
    }
}

/// A list of style classes.
pub fn class_list(names: Vec<&'static str>) -> (classes: Vec<String>)
    ensures
        texts(classes@) == names@.map_values(|name: &'static str| name@),
{
    let mut classes: Vec<String> = Vec::new();
    let mut i: usize = 0;
    while i < names.len()
        invariant
            i == classes@.len(),
            i <= names@.len(),
            forall|j: int| 0 <= j < i ==> (#[trigger] classes@[j])@ == names@[j]@,
        decreases names.len() - i,
    {
        classes.push(names[i].to_owned());
        i += 1;
    }
    classes
}

/// The nearest priority from 1 to 5, as a digit.
pub fn digit_of(priority: i8) -> (digit: char)
    ensures
        digit == priority_digit(priority),
{
    proof {
        reveal_strlit("12345");
    }
    if priority <= 1 {
        '1'
    } else if priority == 2 {
        '2'
    } else if priority == 3 {
        '3'
    } else if priority == 4 {
        '4'
    } else {
        '5'
    }
}

/// The style classes that a row begins with.
pub fn build_classes(unseen: bool, follow_accent: bool, priority: Option<i8>) -> (classes: Vec<
    String,
>)
    ensures
        texts(classes@) == first_classes(unseen, follow_accent, priority),
{
    let mut classes: Vec<String> = Vec::new();
    classes.push("message-card".to_owned());
    if unseen {
        classes.push("message-unseen".to_owned());
    }
    if follow_accent {
        classes.push("follow-accent".to_owned());
    }
    if let Some(p) = priority {
        let mut class: String = "message-priority-".to_owned();
        class.push(digit_of(p));
        classes.push(class);
    }
    classes
}

fn has_class(classes: &Vec<String>, name: &str) -> (found: bool)
    ensures
        found == texts(classes@).contains(name@),
{
    let mut i: usize = 0;
    while i < classes.len()
        invariant
            i <= classes@.len(),
            forall|j: int| 0 <= j < i ==> classes@[j]@ != name@,
        decreases classes.len() - i,
    {
        if same_text(classes[i].as_str(), name) {
            assert(texts(classes@)[i as int] == name@);
            return true;
        }
        i += 1;
    }
    false
}

fn add_class(classes: &mut Vec<String>, name: &str)
    ensures
        texts(final(classes)@) == with_class(texts(old(classes)@), name@),
{
    if !has_class(classes, name) {
        let class: String = name.to_owned();
        classes.push(class);
    }
}

fn remove_class(classes: &mut Vec<String>, name: &str)
    ensures
        texts(final(classes)@) == without_class(texts(old(classes)@), name@),
{
    let mut kept: Vec<String> = Vec::new();
    let mut i: usize = 0;
    while i < classes.len()
        invariant
            i <= classes@.len(),
            classes@ == old(classes)@,
            texts(kept@) == without_class(texts(classes@).take(i as int), name@),
        decreases classes.len() - i,
    {
        let ghost next = texts(classes@).take(i + 1);
        assert(next.drop_last() =~= texts(classes@).take(i as int));
        if !same_text(classes[i].as_str(), name) {
            kept.push(classes[i].clone());
        }
        i += 1;
    }
    assert(texts(classes@).take(i as int) =~= texts(classes@));
    *classes = kept;
}

/// Carries out what an event changes, and says what it was.
pub fn apply_event(classes: &mut Vec<String>, event: RowEvent) -> (change: Option<
    ClassChange,
>)
    ensures
        change == change_of(event),
        texts(final(classes)@) == changed(texts(old(classes)@), change_of(event)),
{
    match event {
        RowEvent::Pressed => {
            remove_class(classes, "message-unseen");
            Some(ClassChange::Remove("message-unseen"))
        },
        RowEvent::DeleteClicked => None,
        RowEvent::AccentChanged(true) => {
            add_class(classes, "follow-accent");
            Some(ClassChange::Add("follow-accent"))
        },
        RowEvent::AccentChanged(false) => {
            remove_class(classes, "follow-accent");
            Some(ClassChange::Remove("follow-accent"))
        },
    }
}

/// Whether a row counts as unseen after a sequence of events: from the beginning, and until
/// it is pressed.
pub open spec fn is_unseen_after(unseen: bool, events: Seq<RowEvent>) -> bool {
    unseen && !events.contains(RowEvent::Pressed)
}

/// Whether a row takes up the accent color after a sequence of events: as the setting was
/// last known.
pub open spec fn follows_accent_after(follow_accent: bool, events: Seq<RowEvent>) -> bool
    decreases events.len(),
{
    if events.len() == 0 {
        follow_accent
    } else {
        match events.last() {
            RowEvent::AccentChanged(follow) => follow,
            _ => follows_accent_after(follow_accent, events.drop_last()),
        }
    }
}

/// Taking a class out takes out no other.
proof fn lemma_without_class(classes: Seq<Seq<char>>, name: Seq<char>, class: Seq<char>)
    ensures
        without_class(classes, name).contains(class) <==> classes.contains(class) && class != name,
    decreases classes.len(),
{
    if classes.len() > 0 {
        let init = classes.drop_last();
        let earlier = without_class(init, name);
        let left = without_class(classes, name);
        lemma_without_class(init, name, class);
        if left.contains(class) {
            let k = choose|k: int| 0 <= k < left.len() && left[k] == class;
            if k < earlier.len() {
                let j = choose|j: int| 0 <= j < init.len() && init[j] == class;
                assert(classes[j] == class);
            }
        }
        if classes.contains(class) && class != name {
            let j = choose|j: int| 0 <= j < classes.len() && classes[j] == class;
            if j < init.len() {
                assert(init[j] == class);
                let k = choose|k: int| 0 <= k < earlier.len() && earlier[k] == class;
                assert(left[k] == class);
            } else {
                assert(left[left.len() - 1] == class);
            }
        }
    }
}

/// Taking a class out leaves none twice.
proof fn lemma_without_class_distinct(classes: Seq<Seq<char>>, name: Seq<char>)
    requires
        classes.no_duplicates(),
    ensures
        without_class(classes, name).no_duplicates(),
    decreases classes.len(),
{
    if classes.len() > 0 {
        let init = classes.drop_last();
        let last = classes.last();
        lemma_without_class_distinct(init, name);
        lemma_without_class(init, name, last);
    }
}

/// Putting a class in puts in no other.
proof fn lemma_with_class(classes: Seq<Seq<char>>, name: Seq<char>, class: Seq<char>)
    ensures
        with_class(classes, name).contains(class) <==> classes.contains(class) || class == name,
{
    let more = with_class(classes, name);
    if !classes.contains(name) {
        assert(more[classes.len() as int] == name);
        if classes.contains(class) {
            let k = choose|k: int| 0 <= k < classes.len() && classes[k] == class;
            assert(more[k] == class);
        }
    }
}

/// The classes after an event.
proof fn lemma_changed(classes: Seq<Seq<char>>, event: RowEvent, class: Seq<char>)
    ensures
        changed(classes, change_of(event)).contains(class) <==> match event {
            RowEvent::Pressed => classes.contains(class) && class != "message-unseen"@,
            RowEvent::DeleteClicked => classes.contains(class),
            RowEvent::AccentChanged(true) => classes.contains(class) || class == "follow-accent"@,
            RowEvent::AccentChanged(false) => classes.contains(class) && class
                != "follow-accent"@,
        },
{
    match event {
        RowEvent::Pressed => {
            lemma_without_class(classes, "message-unseen"@, class);
        },
        RowEvent::DeleteClicked => {},
        RowEvent::AccentChanged(true) => {
            lemma_with_class(classes, "follow-accent"@, class);
        },
        RowEvent::AccentChanged(false) => {
            lemma_without_class(classes, "follow-accent"@, class);
        },
    }
}

/// No event brings in a class twice.
proof fn lemma_changed_distinct(classes: Seq<Seq<char>>, event: RowEvent)
    requires
        classes.no_duplicates(),
    ensures
        changed(classes, change_of(event)).no_duplicates(),
{
    match event {
        RowEvent::Pressed => {
            lemma_without_class_distinct(classes, "message-unseen"@);
        },
        RowEvent::DeleteClicked => {},
        RowEvent::AccentChanged(true) => {},
        RowEvent::AccentChanged(false) => {
            lemma_without_class_distinct(classes, "follow-accent"@);
        },
    }
}

/// The classes that a row begins with.
proof fn lemma_first_classes(unseen: bool, follow_accent: bool, priority: Option<i8>)
    ensures
        first_classes(unseen, follow_accent, priority).no_duplicates(),
        first_classes(unseen, follow_accent, priority).contains("message-card"@),
        first_classes(unseen, follow_accent, priority).contains("message-unseen"@) == unseen,
        first_classes(unseen, follow_accent, priority).contains("follow-accent"@) == follow_accent,
        priority matches Some(p) ==> first_classes(unseen, follow_accent, priority).contains(
            row_priority_class(p),
        ),
        distinct_classes(priority),
{
    reveal_strlit("message-card");
    reveal_strlit("message-unseen");
    reveal_strlit("follow-accent");
    reveal_strlit("message-priority-");
    let classes = first_classes(unseen, follow_accent, priority);
    assert("follow-accent"@.len() == 13);
    assert(classes[0] == "message-card"@);
    if unseen {
        assert(classes[1] == "message-unseen"@);
    }
    if follow_accent {
        assert(classes[if unseen {
            2int
        } else {
            1
        }] == "follow-accent"@);
    }
    if priority is Some {
        assert(classes[classes.len() - 1] == row_priority_class(priority->0));
    }
}

/// The classes that events touch are not those that a row keeps.
spec fn distinct_classes(priority: Option<i8>) -> bool {
    &&& "message-card"@ != "message-unseen"@
    &&& "message-card"@ != "follow-accent"@
    &&& "message-unseen"@ != "follow-accent"@
    &&& priority matches Some(p) ==> row_priority_class(p) != "message-unseen"@
        && row_priority_class(p) != "follow-accent"@
}

/// Whatever happens to a row, it stays a card and keeps the class of its priority; it is
/// marked as unseen until it is first pressed and never after that; it takes up the accent
/// color as the setting was last known; and no class is there twice.
pub proof fn law_classes_follow_events(
    unseen: bool,
    follow_accent: bool,
    priority: Option<i8>,
    events: Seq<RowEvent>,
)
    ensures
        ({
            let classes = classes_after(first_classes(unseen, follow_accent, priority), events);
            &&& classes.no_duplicates()
            &&& classes.contains("message-card"@)
            &&& classes.contains("message-unseen"@) == is_unseen_after(unseen, events)
            &&& classes.contains("follow-accent"@) == follows_accent_after(follow_accent, events)
            &&& priority matches Some(p) ==> classes.contains(row_priority_class(p))
        }),
    decreases events.len(),
{
    lemma_first_classes(unseen, follow_accent, priority);
    if events.len() > 0 {
        let earlier = events.drop_last();
        law_classes_follow_events(unseen, follow_accent, priority, earlier);
        let before = classes_after(first_classes(unseen, follow_accent, priority), earlier);
        lemma_changed_distinct(before, events.last());
        lemma_changed(before, events.last(), "message-card"@);
        lemma_changed(before, events.last(), "message-unseen"@);
        lemma_changed(before, events.last(), "follow-accent"@);
        if priority is Some {
            lemma_changed(before, events.last(), row_priority_class(priority->0));
        }
        assert(events.contains(RowEvent::Pressed) == (earlier.contains(RowEvent::Pressed)
            || events.last() == RowEvent::Pressed)) by {
            if events.contains(RowEvent::Pressed) {
                let k = choose|k: int| 0 <= k < events.len() && events[k] == RowEvent::Pressed;
                if k < earlier.len() {
                    assert(earlier[k] == RowEvent::Pressed);
                }
            }
        }
    }
}

/// The badge and the row of a priority are styled by the nearest priority from 1 to 5.
pub proof fn law_classes_of_priorities(priority: i8)
    ensures
        priority <= 1 ==> badge_class(priority) == "priority-1"@ && row_priority_class(priority)
            == "message-priority-1"@,
        priority == 2 ==> badge_class(priority) == "priority-2"@ && row_priority_class(priority)
            == "message-priority-2"@,
        priority == 3 ==> badge_class(priority) == "priority-3"@ && row_priority_class(priority)
            == "message-priority-3"@,
        priority == 4 ==> badge_class(priority) == "priority-4"@ && row_priority_class(priority)
            == "message-priority-4"@,
        priority >= 5 ==> badge_class(priority) == "priority-5"@ && row_priority_class(priority)
            == "message-priority-5"@,
{
    reveal_strlit("12345");
    reveal_strlit("priority-");
    reveal_strlit("message-priority-");
    reveal_strlit("priority-1");
    reveal_strlit("priority-2");
    reveal_strlit("priority-3");
    reveal_strlit("priority-4");
    reveal_strlit("priority-5");
    reveal_strlit("message-priority-1");
    reveal_strlit("message-priority-2");
    reveal_strlit("message-priority-3");
    reveal_strlit("message-priority-4");
    reveal_strlit("message-priority-5");
    let badge = badge_class(priority);
    let row = row_priority_class(priority);
    if priority <= 1 {
        assert(badge =~= "priority-1"@);
        assert(row =~= "message-priority-1"@);
    } else if priority == 2 {
        assert(badge =~= "priority-2"@);
        assert(row =~= "message-priority-2"@);
    } else if priority == 3 {
        assert(badge =~= "priority-3"@);
        assert(row =~= "message-priority-3"@);
    } else if priority == 4 {
        assert(badge =~= "priority-4"@);
        assert(row =~= "message-priority-4"@);
    } else {
        assert(badge =~= "priority-5"@);
        assert(row =~= "message-priority-5"@);
    }
}

/// A row begins as a card and nothing else, but for the mark of an unseen notification, that of
/// the accent color and that of the priority, each where it belongs.
pub proof fn law_first_classes(unseen: bool, follow_accent: bool, priority: i8)
    ensures
        first_classes(false, false, None) == seq!["message-card"@],
        first_classes(true, false, None) == seq!["message-card"@, "message-unseen"@],
        first_classes(false, true, None) == seq!["message-card"@, "follow-accent"@],
        first_classes(true, true, None) == seq![
            "message-card"@,
            "message-unseen"@,
            "follow-accent"@,
        ],
        first_classes(unseen, follow_accent, Some(priority)) == first_classes(
            unseen,
            follow_accent,
            None,
        ).push(row_priority_class(priority)),
{
}

/// A press takes the mark of an unseen notification away and keeps all other classes in their
/// order; the setting of the accent color puts its mark behind the others, once, or takes it
/// away; a click on the button that deletes the notification changes nothing.
pub proof fn law_events_change_one_class(classes: Seq<Seq<char>>)
    ensures
        change_of(RowEvent::Pressed) == Some(ClassChange::Remove("message-unseen")),
        change_of(RowEvent::AccentChanged(true)) == Some(ClassChange::Add("follow-accent")),
        change_of(RowEvent::AccentChanged(false)) == Some(ClassChange::Remove("follow-accent")),
        change_of(RowEvent::DeleteClicked) is None,
        changed(classes, change_of(RowEvent::Pressed)) == classes.filter(
            |class: Seq<char>| class != "message-unseen"@,
        ),
        changed(classes, change_of(RowEvent::AccentChanged(false))) == classes.filter(
            |class: Seq<char>| class != "follow-accent"@,
        ),
        classes.contains("follow-accent"@) ==> changed(
            classes,
            change_of(RowEvent::AccentChanged(true)),
        ) == classes,
        !classes.contains("follow-accent"@) ==> changed(
            classes,
            change_of(RowEvent::AccentChanged(true)),
        ) == classes.push("follow-accent"@),
        changed(classes, change_of(RowEvent::DeleteClicked)) == classes,
{
    lemma_without_class_filters(
        classes,
        "message-unseen"@,
        |class: Seq<char>| class != "message-unseen"@,
    );
    lemma_without_class_filters(
        classes,
        "follow-accent"@,
        |class: Seq<char>| class != "follow-accent"@,
    );
}

/// Taking a class out is keeping the others.
proof fn lemma_without_class_filters(
    classes: Seq<Seq<char>>,
    name: Seq<char>,
    is_other: spec_fn(Seq<char>) -> bool,
)
    requires
        forall|class: Seq<char>| #[trigger] is_other(class) == (class != name),
    ensures
        without_class(classes, name) == classes.filter(is_other),
    decreases classes.len(),
{
    reveal(Seq::filter);
    if classes.len() > 0 {
        lemma_without_class_filters(classes.drop_last(), name, is_other);
    }
}

} // verus!
