use coco_ws::relay::{relay_step, RelayAction, RelayEvent};

#[test]
fn text_is_published() {
    assert!(matches!(relay_step(RelayEvent::Text("hi".to_string())), RelayAction::Publish(t) if t == "hi"));
}

#[test]
fn non_text_is_skipped() {
    assert!(matches!(relay_step(RelayEvent::NonText), RelayAction::Continue));
}

#[test]
fn errors_and_close_end_the_relay() {
    assert!(matches!(relay_step(RelayEvent::ReceiveError), RelayAction::Stop));
    assert!(matches!(relay_step(RelayEvent::Closed), RelayAction::Stop));
}

#[test]
fn cancellation_ends_the_relay() {
    assert!(matches!(relay_step(RelayEvent::Cancelled), RelayAction::Stop));
}
