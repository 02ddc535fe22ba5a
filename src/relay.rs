use vstd::prelude::*;

verus! {

/// What the relay task observes next: a frame, the end of the stream, or
/// the cancellation signal.
pub enum RelayEvent {
    Text(String),
    /// A binary or control frame.
    NonText,
    ReceiveError,
    Closed,
    Cancelled,
}

/// What the relay task does about an event.
#[derive(Debug)]
pub enum RelayAction {
    /// Hand the text to the subscriber, then wait for the next event.
    Publish(String),
    /// Wait for the next event.
    Continue,
    /// End the task.
    Stop,
}

/// The plain-value view of an event: `None` for one that ends the task,
/// `Some(Some(t))` for a text frame, `Some(None)` for a frame to skip.
pub open spec fn event_view(e: RelayEvent) -> Option<Option<Seq<char>>> {
    match e {
        RelayEvent::Text(t) => Some(Some(t@)),
        RelayEvent::NonText => Some(None),
        _ => None,
    }
}

pub open spec fn action_view(a: RelayAction) -> Option<Option<Seq<char>>> {
    match a {
        RelayAction::Publish(t) => Some(Some(t@)),
        RelayAction::Continue => Some(None),
        RelayAction::Stop => None,
    }
}

/// Decides what the relay task does about one event: text is published,
/// other frames are skipped, and an error, the end of the stream or the
/// cancellation signal ends the task.
pub fn relay_step(event: RelayEvent) -> (r: RelayAction)
    ensures
        action_view(r) == event_view(event),
        event is Cancelled ==> r is Stop,
{
    match event {
        RelayEvent::Text(t) => RelayAction::Publish(t),
        RelayEvent::NonText => RelayAction::Continue,
        RelayEvent::ReceiveError => RelayAction::Stop,
        RelayEvent::Closed => RelayAction::Stop,
        RelayEvent::Cancelled => RelayAction::Stop,
    }
}

/// How many events of `events` the relay task takes in before it ends
/// (all of them if none ends it).
pub open spec fn events_consumed(events: Seq<Option<Option<Seq<char>>>>) -> nat
    decreases events.len(),
{
    if events.len() == 0 {
        0
    } else if events[0] is None {
        1
    } else {
        1 + events_consumed(events.drop_first())
    }
}

/// The texts the relay task publishes for `events`, in order.
pub open spec fn published(events: Seq<Option<Option<Seq<char>>>>) -> Seq<Seq<char>>
    decreases events.len(),
{
    if events.len() == 0 {
        seq![]
    } else {
        match events[0] {
            None => seq![],
            Some(None) => published(events.drop_first()),
            Some(Some(t)) => seq![t] + published(events.drop_first()),
        }
    }
}

/// Once the cancellation signal is among the events, the relay task ends at
/// it or earlier: it takes in no event after it, whatever frames would follow.
pub proof fn law_cancel_ends_relay(events: Seq<RelayEvent>, k: int)
    requires
        0 <= k < events.len(),
        events[k] is Cancelled,
    ensures
        events_consumed(events.map_values(|e: RelayEvent| event_view(e))) <= k + 1,
    decreases k,
{
    let views = events.map_values(|e: RelayEvent| event_view(e));
    if k > 0 && views[0] is Some {
        law_cancel_ends_relay(events.drop_first(), k - 1);
        assert(views.drop_first() =~= events.drop_first().map_values(|e: RelayEvent| event_view(e)));
    }
}

} // verus!
