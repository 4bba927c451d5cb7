use moonveil::widget::dropdown::menu::Hit;
use moonveil::widget::dropdown::{
    item, item_maybe, section, separator, status, Item, KeyOutcome, Navigation, PressOutcome,
    Status,
};
use moonveil::widget::keyboard::KeyName;

#[derive(Debug, Clone, PartialEq, Eq)]
enum Message {
    One,
    Two,
    Three,
}

fn menu() -> Vec<Item<Message, char>> {
    vec![
        section("Primary"),
        item("One", Message::One).leading('*'),
        separator(),
        item("Disabled", Message::Two).disabled(true),
        item("Three", Message::Three),
    ]
}

#[test]
fn opening_selects_first_enabled_action() {
    let items = menu();
    let mut state = Navigation::new();
    state.open(&items);
    assert_eq!(state.active_index, Some(1));
}

#[test]
fn keyboard_navigation_skips_headers_separators_and_disabled_items() {
    let items = menu();
    let mut state = Navigation::new();
    state.open(&items);
    state.move_next(&items);
    assert_eq!(state.active_index, Some(4));
    state.move_next(&items);
    assert_eq!(state.active_index, Some(1));
    state.move_previous(&items);
    assert_eq!(state.active_index, Some(4));
}

#[test]
fn disabled_items_have_no_message() {
    let items = menu();
    assert_eq!(items[3].message(), None);
}

#[test]
fn trigger_status_prefers_disabled_then_open_then_hover() {
    assert_eq!(status(true, true, true), Status::Disabled);
    assert_eq!(status(false, true, true), Status::Opened);
    assert_eq!(status(false, false, true), Status::Hovered);
    assert_eq!(status(false, false, false), Status::Active);
}

#[test]
fn arrows_start_from_the_ends_without_an_active_row() {
    let items = menu();
    let mut state = Navigation { is_open: true, active_index: None };
    state.move_previous(&items);
    assert_eq!(state.active_index, Some(4));
    state.active_index = None;
    state.move_next(&items);
    assert_eq!(state.active_index, Some(1));
}

#[test]
fn hovering_tracks_enabled_rows_only() {
    let items = menu();
    let mut state = Navigation::new();
    state.open(&items);
    assert!(state.hover(&items, Hit::Row(4)));
    assert_eq!(state.active_index, Some(4));
    assert!(!state.hover(&items, Hit::Outside));
    assert_eq!(state.active_index, Some(4));
    assert!(state.hover(&items, Hit::Row(3)));
    assert_eq!(state.active_index, None);
    assert!(!state.hover(&items, Hit::Chrome));
}

#[test]
fn clicks_activate_enabled_actions_and_close_outside() {
    let items = menu();
    let mut state = Navigation::new();
    state.open(&items);
    assert!(matches!(state.press(&items, Hit::Row(3)), PressOutcome::Stay));
    assert!(state.is_open);
    assert_eq!(state.active_index, None);
    assert!(matches!(
        state.press(&items, Hit::Row(4)),
        PressOutcome::Activate(&Message::Three)
    ));
    assert!(!state.is_open);

    state.open(&items);
    assert!(matches!(state.press(&items, Hit::Chrome), PressOutcome::Stay));
    assert_eq!(state.active_index, None);
    assert!(matches!(state.press(&items, Hit::Outside), PressOutcome::Close));
    assert_eq!(state, Navigation::new());
}

#[test]
fn keys_move_jump_activate_and_close() {
    let items = menu();
    let mut state = Navigation::new();
    state.open(&items);
    assert!(matches!(state.key(&items, KeyName::End), KeyOutcome::Navigate));
    assert_eq!(state.active_index, Some(4));
    assert!(matches!(state.key(&items, KeyName::Home), KeyOutcome::Navigate));
    assert_eq!(state.active_index, Some(1));
    assert!(matches!(state.key(&items, KeyName::Tab), KeyOutcome::Ignored));
    assert!(matches!(
        state.key(&items, KeyName::Enter),
        KeyOutcome::Activate(&Message::One)
    ));
    assert!(!state.is_open);

    state.open(&items);
    state.active_index = Some(3);
    assert!(matches!(state.key(&items, KeyName::Space), KeyOutcome::Consume));
    assert!(state.is_open);
    assert!(matches!(state.key(&items, KeyName::Escape), KeyOutcome::Close));
    assert_eq!(state, Navigation::new());
}

#[test]
fn controlled_open_state_is_followed() {
    let items = menu();
    let mut state = Navigation::new();
    state.sync(&items, None);
    assert!(!state.is_open);
    state.sync(&items, Some(true));
    assert_eq!(state, Navigation { is_open: true, active_index: Some(1) });
    state.active_index = Some(4);
    state.sync(&items, Some(true));
    assert_eq!(state.active_index, Some(4));
    state.sync(&items, Some(false));
    assert_eq!(state, Navigation::new());
}

#[test]
fn disabled_triggers_do_not_open() {
    let items = menu();
    let mut state = Navigation::new();
    assert!(!state.press_trigger(&items, true));
    assert!(!state.is_open);
    assert!(state.press_trigger(&items, false));
    assert_eq!(state.active_index, Some(1));
}

#[test]
fn menus_without_enabled_actions_have_no_active_row() {
    let items: Vec<Item<Message, char>> = vec![section("Empty"), item_maybe("Off", None)];
    let mut state = Navigation::new();
    state.open(&items);
    assert_eq!(state.active_index, None);
    state.move_next(&items);
    assert_eq!(state.active_index, None);
    assert!(!items[1].is_enabled());
    assert!(items[0].message().is_none());
    assert!(!items[1].has_leading());
    assert!(menu()[1].has_leading());
}
