use moonveil::widget::dialog::{captures_backdrop_press, is_showing, route, Routing};
use moonveil::widget::dialog::{Action, Lifecycle, Message, State, Status};

#[test]
fn open_no_animation() {
    let mut state = State::default().animated(false);
    state.open();
    assert_eq!(state.status(), Status::Open);
}

#[test]
fn open_animated() {
    let mut state = State::default().animated(true);
    state.open();
    assert_eq!(state.status(), Status::Opening);
}

#[test]
fn update_close_no_animation() {
    let mut state = State::default().animated(false);
    state.open();
    assert_eq!(state.status(), Status::Open);
    assert!(!state.is_animated());
    let action = state.update(Message::Close);
    assert_eq!(state.status(), Status::Closed);
    assert_eq!(action, Some(Action::Closed));
}

#[test]
fn update_close_animated() {
    let mut state = State::default().animated(true);
    state.open();
    assert_eq!(state.update(Message::Opened), None);
    assert_eq!(state.status(), Status::Open);
    assert!(state.is_animated());
    let action = state.update(Message::Close);
    assert_eq!(state.status(), Status::Closing);
    assert_eq!(action, None);

    let action = state.update(Message::Closed);
    assert_eq!(state.status(), Status::Closed);
    assert_eq!(action, Some(Action::Closed));
}

#[test]
fn default_state_is_closed_and_animated() {
    let state = State::default();
    assert_eq!(state.status(), Status::Closed);
    assert!(state.is_animated());
    assert!(!state.is_open());
    assert!(!state.is_visible());
}

#[test]
fn visibility_follows_status() {
    let mut state = State::default();
    state.open();
    assert!(state.is_open());
    assert!(state.is_visible());
    state.close();
    assert_eq!(state.status(), Status::Closing);
    assert!(!state.is_open());
    assert!(state.is_visible());

    let mut instant = State::default().animated(false);
    instant.open();
    instant.close();
    assert_eq!(instant.status(), Status::Closed);
    assert!(!instant.is_visible());
}

#[test]
fn lifecycle_announces_each_opening_and_closing_once() {
    let mut lifecycle = Lifecycle::new();
    let first = lifecycle.advance(true, true, false, false);
    assert!(!first.opened && !first.closed);
    let settled = lifecycle.advance(true, true, true, false);
    assert!(settled.opened && !settled.closed);
    let again = lifecycle.advance(true, true, true, false);
    assert!(!again.opened);

    let closing = lifecycle.advance(false, true, false, false);
    assert!(!closing.closed);
    let closed = lifecycle.advance(false, true, false, true);
    assert!(closed.closed && !closed.opened);
    let after = lifecycle.advance(false, true, false, true);
    assert!(!after.closed);
}

#[test]
fn unanimated_lifecycle_announces_opening_at_once() {
    let mut lifecycle = Lifecycle::new();
    let notices = lifecycle.advance(true, false, false, false);
    assert!(notices.opened);
    let closed = lifecycle.advance(false, false, false, true);
    assert!(!closed.closed);
}

#[test]
fn shown_dialogs_keep_events_from_the_base() {
    assert!(is_showing(false, true, true, false));
    assert!(is_showing(false, false, true, true));
    assert!(!is_showing(false, false, false, true));
    assert!(is_showing(true, false, false, false));
    assert_eq!(
        route(false, false, false),
        Routing { backdrop: false, panel: false, base: true, escape: false }
    );
    assert_eq!(
        route(true, false, false),
        Routing { backdrop: true, panel: true, base: false, escape: true }
    );
    assert_eq!(
        route(true, false, true),
        Routing { backdrop: false, panel: true, base: false, escape: true }
    );
    assert_eq!(
        route(true, true, false),
        Routing { backdrop: false, panel: false, base: false, escape: false }
    );
    assert!(captures_backdrop_press(true, true, false));
    assert!(!captures_backdrop_press(true, true, true));
    assert!(!captures_backdrop_press(false, true, false));
}
