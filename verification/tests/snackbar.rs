use moonveil::token::{Intent, SemanticIntent};
use moonveil::widget::snackbar::{Action, Entry, Message, Position, State, Variant};

#[derive(Debug, Clone, PartialEq, Eq)]
enum TestMessage {
    Retry,
}

#[test]
fn push_assigns_unique_ids() {
    let mut state = State::<()>::default();

    let first = state.push(Entry::new("First"));
    let second = state.push(Entry::new("Second"));

    assert_ne!(first, second);
    assert_eq!(state.entries().len(), 2);
    assert_eq!(state.entries()[0].id(), first);
    assert_eq!(state.entries()[1].id(), second);
}

#[test]
fn remove_deletes_only_matching_entry() {
    let mut state = State::<()>::default();

    let first = state.push(Entry::new("First"));
    let second = state.push(Entry::new("Second"));
    let removed = state.remove(first);

    assert!(removed.is_some());
    assert_eq!(state.entries().len(), 1);
    assert_eq!(state.entries()[0].id(), second);
}

#[test]
fn update_action_dismisses_and_returns_message() {
    let mut state = State::<TestMessage>::default();
    let id = state.push(Entry::new("Retry").action("Retry", TestMessage::Retry));

    let message = state.update(Message::Action(id));

    assert_eq!(message, Some(TestMessage::Retry));
    assert!(state.is_empty());
}

#[test]
fn removing_newest_does_not_retarget_animation_to_older_entry() {
    let mut state = State::<()>::default().with_position(Position::TopRight);

    let first = state.push(Entry::new("First"));
    let second = state.push(Entry::new("Second"));

    assert_eq!(state.animating_id(), Some(second));

    state.remove(second);

    assert_eq!(state.animating_id(), None);
    assert_eq!(state.entries()[0].id(), first);
}

#[test]
fn dismissing_returns_nothing_and_removes_the_entry() {
    let mut state = State::<TestMessage>::default();
    let keep = state.push(Entry::new("Keep"));
    let id = state.push(Entry::new("Retry").action("Retry", TestMessage::Retry));
    assert_eq!(state.update(Message::Dismiss(id)), None);
    assert_eq!(state.entries().len(), 1);
    assert_eq!(state.entries()[0].id(), keep);
    assert_eq!(state.update(Message::Dismiss(id)), None);
    assert_eq!(state.entries().len(), 1);
}

#[test]
fn an_action_without_a_message_only_dismisses() {
    let mut state = State::<TestMessage>::default();
    let id = state.push(Entry::new("Saved"));
    assert_eq!(state.update(Message::Action(id)), None);
    assert!(state.is_empty());
}

#[test]
fn removing_an_unknown_id_changes_nothing() {
    let mut state = State::<()>::default();
    let first = state.push(Entry::new("First"));
    state.remove(first);
    assert!(state.remove(first).is_none());
    assert!(state.is_empty());
}

#[test]
fn clear_empties_the_stack() {
    let mut state = State::<()>::default();
    state.push(Entry::new("First"));
    state.push(Entry::new("Second"));
    state.clear();
    assert!(state.is_empty());
    assert_eq!(state.animating_id(), None);
    let third = state.push(Entry::new("Third"));
    assert_eq!(state.entries()[0].id(), third);
}

#[test]
fn positions_place_the_stack_in_a_corner() {
    assert!(Position::TopLeft.is_top() && Position::TopLeft.is_left());
    assert!(Position::TopRight.is_top() && !Position::TopRight.is_left());
    assert!(!Position::BottomLeft.is_top() && Position::BottomLeft.is_left());
    assert!(!Position::BottomRight.is_top() && !Position::BottomRight.is_left());
    assert_eq!(Position::BottomRight.name(), "Bottom Right");
    assert_eq!(Position::TopLeft.name(), "Top Left");
    assert_eq!(State::<()>::default().position(), Position::BottomRight);
    let mut state = State::<()>::default();
    state.set_position(Position::TopLeft);
    assert_eq!(state.position(), Position::TopLeft);
}

#[test]
fn newest_entries_show_nearest_the_edge() {
    let mut state = State::<()>::default();
    state.push(Entry::new("First"));
    state.push(Entry::new("Second"));
    state.push(Entry::new("Third"));
    assert_eq!(state.display_order(), vec![2, 1, 0]);
    state.set_position(Position::TopRight);
    assert_eq!(state.display_order(), vec![0, 1, 2]);
}

#[test]
fn entries_keep_what_they_were_built_with() {
    let entry = Entry::new("Upload failed")
        .description("The server did not answer")
        .variant(Variant::Semantic(SemanticIntent::Danger))
        .action("Retry", TestMessage::Retry);
    assert_eq!(entry.title(), "Upload failed");
    assert_eq!(
        entry.description_text().map(|text| text.as_str()),
        Some("The server did not answer")
    );
    assert_eq!(entry.variant_of(), Variant::Semantic(Intent::Danger));
    let action = entry.action_of().expect("an action");
    assert_eq!(action.label(), "Retry");
    assert_eq!(action.message(), &TestMessage::Retry);
    let plain = Action::new("Undo", 7u8);
    assert_eq!(plain.label(), "Undo");
    assert_eq!(*plain.message(), 7);
    assert_eq!(
        Entry::<()>::new("Plain").variant_of(),
        Variant::Semantic(Intent::Success)
    );
}

#[test]
fn identifiers_stay_fresh_after_clearing() {
    let mut state = State::<()>::default().with_position(Position::TopLeft);
    let first = state.push(Entry::new("First"));
    let second = state.push(Entry::new("Second"));
    state.clear();
    assert!(state.is_empty());
    assert!(state.entries().is_empty());
    assert_eq!(state.position(), Position::TopLeft);
    assert_eq!(state.animating_id(), None);
    let third = state.push(Entry::new("Third"));
    assert_ne!(third, first);
    assert_ne!(third, second);
}

#[test]
fn entries_remember_when_they_were_pushed() {
    let mut state = State::<()>::default();
    let before = Entry::<()>::new("Probe").created_at();
    state.push(Entry::new("Stamped"));
    assert!(state.entries()[0].created_at() >= before);
}
