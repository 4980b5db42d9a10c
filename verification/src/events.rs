//! What happens to a row that is shown, and what it tells its owner.
use vstd::prelude::*;

verus! {

/// What happens to a row that is shown.
#[derive(Clone, Copy, Debug, PartialEq, Eq)]
pub enum RowEvent {
    /// The row was pressed, so the user has seen it.
    Pressed,
    /// The button that deletes the notification was clicked.
    DeleteClicked,
    /// The setting of whether rows take up the accent color changed to this.
    AccentChanged(bool),
}

/// What a row tells its owner.
#[derive(Clone, Copy, Debug, PartialEq, Eq)]
pub enum Report {
    /// The user has seen the notification.
    Seen,
    /// The notification is to be deleted.
    Delete,
}

/// What the owner is told of an event. A press is reported also where the row was seen before.
pub open spec fn report_of(event: RowEvent) -> Option<Report> {
    match event {
        RowEvent::Pressed => Some(Report::Seen),
        RowEvent::DeleteClicked => Some(Report::Delete),
        RowEvent::AccentChanged(_) => None,
    }
}

/// What the owner is told of a sequence of events, in order.
pub open spec fn reports_of(events: Seq<RowEvent>) -> Seq<Report>
    decreases events.len(),
{
    if events.len() == 0 {
        Seq::empty()
    } else {
        let earlier = reports_of(events.drop_last());
        match report_of(events.last()) {
            Some(report) => earlier.push(report),
            None => earlier,
        }
    }
}

/// How often `item` is among `items`.
pub open spec fn times<T>(items: Seq<T>, item: T) -> nat
    decreases items.len(),
{
    if items.len() == 0 {
        0
    } else {
        times(items.drop_last(), item) + if items.last() == item {
            1nat
        } else {
            0
        }
    }
}

/// What to tell the owner of an event.
pub fn report(event: RowEvent) -> (told: Option<Report>)
    ensures
        told == report_of(event),
{
    match event {
        RowEvent::Pressed => Some(Report::Seen),
        RowEvent::DeleteClicked => Some(Report::Delete),
        RowEvent::AccentChanged(_) => None,
    }
}

/// Whatever happens to a row, its owner is told that the notification was seen once for each
/// press, and that it is to be deleted once for each click on the button for that.
pub proof fn law_each_event_is_reported_once(events: Seq<RowEvent>)
    ensures
        times(reports_of(events), Report::Seen) == times(events, RowEvent::Pressed),
        times(reports_of(events), Report::Delete) == times(events, RowEvent::DeleteClicked),
    decreases events.len(),
{
    if events.len() > 0 {
        let earlier = reports_of(events.drop_last());
        law_each_event_is_reported_once(events.drop_last());
        if let Some(report) = report_of(events.last()) {
            assert(earlier.push(report).drop_last() =~= earlier);
        }
    }
}

/// A press tells the owner that the notification was seen, a click on the button that it is to
/// be deleted, and a change of the setting nothing.
pub proof fn law_what_is_reported(follow: bool)
    ensures
        report_of(RowEvent::Pressed) == Some(Report::Seen),
        report_of(RowEvent::DeleteClicked) == Some(Report::Delete),
        report_of(RowEvent::AccentChanged(follow)) is None,
{
}

} // verus!
