use moonveil::widget::context_menu::item::{
    active_message, can_move, first_navigable_path, item_at_path, shortcut_message,
};
use moonveil::widget::context_menu::{
    item, item_maybe, separator, submenu, Item, Key, KeyOutcome, Navigation, PointerTrail,
    PressOutcome, SafetyHoverAdvance, Shortcut, POINTER_TRAIL_LEN, SAFETY_HOVER_DELAY,
};
use moonveil::widget::keyboard::{KeyName, Modifiers, Pressed};

#[derive(Debug, Clone, PartialEq, Eq)]
enum Message {
    One,
    Two,
    Three,
}

fn menu() -> Vec<Item<Message>> {
    vec![
        item("One", Message::One),
        separator(),
        item("Disabled", Message::Two).disabled(true),
        submenu(
            "More",
            vec![
                item("Two", Message::Two),
                item("Three", Message::Three).shortcut(Shortcut::command(Key::Character('k'))),
            ],
        ),
    ]
}

fn opened(items: &[Item<Message>]) -> Navigation {
    let mut navigation = Navigation::new();
    navigation.open(items);
    navigation
}

#[test]
fn keyboard_navigation_skips_separators_and_disabled_items() {
    let items = menu();
    let mut state = opened(&items);
    assert_eq!(state.active_path, vec![0]);

    state.move_next(&items);
    assert_eq!(state.active_path, vec![3]);

    state.move_previous(&items);
    assert_eq!(state.active_path, vec![0]);
}

#[test]
fn keyboard_navigation_starts_from_ends_when_none_is_active() {
    let items = menu();
    let mut state = opened(&items);

    state.active_path.clear();
    state.move_next(&items);
    assert_eq!(state.active_path, vec![0]);

    state.active_path.clear();
    state.move_previous(&items);
    assert_eq!(state.active_path, vec![3]);
}

#[test]
fn keyboard_navigation_enters_and_leaves_submenus() {
    let items = menu();
    let mut state = opened(&items);
    state.move_next(&items);
    state.enter_submenu(&items);
    assert_eq!(state.active_path, vec![3, 0]);

    state.move_next(&items);
    assert_eq!(state.active_path, vec![3, 1]);

    state.leave_submenu();
    assert_eq!(state.active_path, vec![3]);
}

#[test]
fn disabled_submenus_cannot_be_entered() {
    let items = vec![submenu("More", vec![item("Two", Message::Two)]).disabled(true)];
    let mut state = opened(&items);
    state.active_path = vec![0];
    state.enter_submenu(&items);

    assert_eq!(state.active_path, vec![0]);
    assert!(!items[0].is_enabled());
}

#[test]
fn shortcuts_find_nested_enabled_actions() {
    let items = menu();
    let key = Pressed::Character("K".into());

    assert_eq!(
        shortcut_message(&items, &key, Modifiers::command()),
        Some(&Message::Three)
    );
}

#[test]
fn shortcuts_ignore_disabled_actions() {
    let items = vec![item("Disabled", Message::One)
        .shortcut(Shortcut::command(Key::Character('d')))
        .disabled(true)];
    let key = Pressed::Character("d".into());

    assert_eq!(shortcut_message(&items, &key, Modifiers::command()), None);
}

#[test]
fn shortcut_labels_do_not_repeat_the_platform_command_modifier() {
    let label = Shortcut::shift_command(Key::Character('p')).to_string();
    let command = if Modifiers::command().logo() {
        "Cmd"
    } else {
        "Ctrl"
    };

    assert_eq!(label.matches(command).count(), 1);
    assert!(label.contains("Shift+"));
    assert!(label.ends_with("+P"));
}

#[test]
fn pointer_trail_returns_oldest_recent_position() {
    let mut trail = PointerTrail::<(f32, f32)>::new();

    assert_eq!(trail.record((0.0, 0.0)), None);
    for x in 1..POINTER_TRAIL_LEN {
        assert_eq!(trail.record((x as f32, 0.0)), Some((0.0, 0.0)));
    }
    assert_eq!(
        trail.record((POINTER_TRAIL_LEN as f32, 0.0)),
        Some((0.0, 0.0))
    );
    assert_eq!(
        trail.record((POINTER_TRAIL_LEN as f32 + 1.0, 0.0)),
        Some((1.0, 0.0))
    );
}

#[test]
fn safety_hover_delay_keeps_current_path_until_timeout() {
    let mut state = Navigation::new();
    state.active_path = vec![0, 2];
    state.track_pending_safety_hover(vec![1]);
    let start: u64 = 5_000_000_000;
    let until = start + SAFETY_HOVER_DELAY;

    assert_eq!(
        state.advance_pending_safety_hover(start),
        SafetyHoverAdvance::Waiting { until }
    );
    assert_eq!(
        state.advance_pending_safety_hover(start + SAFETY_HOVER_DELAY / 2),
        SafetyHoverAdvance::Waiting { until }
    );
    assert_eq!(state.active_path, vec![0, 2]);

    assert_eq!(
        state.advance_pending_safety_hover(until),
        SafetyHoverAdvance::Activated
    );
    assert_eq!(state.active_path, vec![1]);
    assert_eq!(
        state.advance_pending_safety_hover(until),
        SafetyHoverAdvance::Idle
    );
}

#[test]
fn safety_hover_delay_restarts_for_new_candidate() {
    let mut state = Navigation::new();
    state.active_path = vec![0, 2];
    state.track_pending_safety_hover(vec![1]);
    let start: u64 = 5_000_000_000;
    let _ = state.advance_pending_safety_hover(start);

    state.track_pending_safety_hover(vec![3]);

    let restarted = start + SAFETY_HOVER_DELAY;
    assert_eq!(
        state.advance_pending_safety_hover(restarted),
        SafetyHoverAdvance::Waiting {
            until: restarted + SAFETY_HOVER_DELAY
        }
    );
    assert_eq!(state.active_path, vec![0, 2]);
    assert_eq!(
        state.advance_pending_safety_hover(restarted + SAFETY_HOVER_DELAY),
        SafetyHoverAdvance::Activated
    );
    assert_eq!(state.active_path, vec![3]);
}

#[test]
fn same_hover_target_keeps_its_delay() {
    let mut state = Navigation::new();
    state.track_pending_safety_hover(vec![1]);
    let start: u64 = 1_000;
    let _ = state.advance_pending_safety_hover(start);

    state.track_pending_safety_hover(vec![1]);
    assert_eq!(
        state.advance_pending_safety_hover(start + 1),
        SafetyHoverAdvance::Waiting {
            until: start + SAFETY_HOVER_DELAY
        }
    );
}

#[test]
fn previous_undoes_next_from_an_enabled_row() {
    let items = menu();
    let mut state = opened(&items);
    state.active_path = vec![3, 1];
    state.move_next(&items);
    assert_eq!(state.active_path, vec![3, 0]);
    state.move_previous(&items);
    assert_eq!(state.active_path, vec![3, 1]);
}

#[test]
fn leaving_a_submenu_just_entered_restores_the_path() {
    let items = menu();
    let mut state = opened(&items);
    state.active_path = vec![3];
    state.enter_submenu(&items);
    assert_eq!(state.active_path, vec![3, 0]);
    state.leave_submenu();
    assert_eq!(state.active_path, vec![3]);
    state.leave_submenu();
    assert_eq!(state.active_path, vec![3]);
}

#[test]
fn opening_a_menu_without_enabled_rows_leaves_nothing_active() {
    let items: Vec<Item<Message>> = vec![separator(), item_maybe("Off", None)];
    let state = opened(&items);
    assert!(state.active_path.is_empty());
    assert_eq!(first_navigable_path(&items), None);
}

#[test]
fn paths_reach_items_through_enabled_submenus_only() {
    let items = menu();
    assert_eq!(item_at_path(&items, &[3, 1]).and_then(|item| item.title()), Some("Three"));
    assert!(item_at_path(&items, &[]).is_none());
    assert!(item_at_path(&items, &[0, 0]).is_none());
    assert!(item_at_path(&items, &[9]).is_none());
    assert_eq!(active_message(&items, &[3, 0]), Some(&Message::Two));
    assert_eq!(active_message(&items, &[3]), None);
    assert_eq!(active_message(&items, &[2]), None);
}

#[test]
fn stale_paths_are_reported_before_moving() {
    let items = menu();
    assert!(can_move(&items, &[3, 1], -1));
    assert!(!can_move(&items, &[3, 7], -1));
    assert!(can_move(&items, &[3, 7], 1));
    assert!(can_move(&items, &[], -1));
}

#[test]
fn keys_navigate_activate_and_close() {
    let items = menu();
    let mut state = opened(&items);

    assert!(matches!(
        state.navigate(&items, KeyName::ArrowDown),
        KeyOutcome::Navigate { reveal: true }
    ));
    assert_eq!(state.active_path, vec![3]);
    assert!(matches!(
        state.navigate(&items, KeyName::Enter),
        KeyOutcome::Navigate { reveal: true }
    ));
    assert_eq!(state.active_path, vec![3, 0]);
    assert!(matches!(
        state.navigate(&items, KeyName::Tab),
        KeyOutcome::Ignored
    ));
    assert_eq!(state.active_path, vec![3, 0]);
    assert!(matches!(
        state.navigate(&items, KeyName::Space),
        KeyOutcome::Activate(&Message::Two)
    ));
    assert!(state.active_path.is_empty());

    let mut state = opened(&items);
    assert!(matches!(
        state.navigate(&items, KeyName::Escape),
        KeyOutcome::Close
    ));
    assert!(state.active_path.is_empty());
}

#[test]
fn a_matching_shortcut_wins_over_navigation() {
    let items = menu();
    let mut state = opened(&items);
    let key = Pressed::Character("k".into());
    assert!(matches!(
        state.key(&items, &key, Modifiers::command()),
        KeyOutcome::Activate(&Message::Three)
    ));
    assert!(state.active_path.is_empty());

    let mut state = opened(&items);
    assert!(matches!(
        state.key(&items, &Pressed::Unidentified, Modifiers::none()),
        KeyOutcome::Ignored
    ));
    assert_eq!(state.active_path, vec![0]);
}

#[test]
fn clicks_activate_hover_or_close() {
    let items = menu();
    let mut state = opened(&items);
    assert!(matches!(state.press(&items, Some(vec![3])), PressOutcome::Hover));
    assert_eq!(state.active_path, vec![3]);
    assert!(matches!(
        state.press(&items, Some(vec![3, 1])),
        PressOutcome::Activate(&Message::Three)
    ));
    assert!(state.active_path.is_empty());

    let mut state = opened(&items);
    assert!(matches!(state.press(&items, None), PressOutcome::Close));
    assert!(state.active_path.is_empty());
}

#[test]
fn hovering_holds_back_targets_while_aiming() {
    let items = menu();
    let mut state = opened(&items);
    assert!(state.hover(Some(vec![3]), false));
    assert_eq!(state.active_path, vec![3]);
    assert!(state.hover(Some(vec![0]), true));
    assert_eq!(state.active_path, vec![3]);
    assert!(state.pending_safety_hover.is_some());
    assert!(!state.hover(Some(vec![3]), true));
    assert!(state.pending_safety_hover.is_none());
    assert!(!state.hover(None, false));
    assert_eq!(state.active_path, vec![3]);
}

#[test]
fn shortcut_labels_name_modifiers_per_platform() {
    let shortcut = Shortcut::new(
        Modifiers::from_bits(Modifiers::CTRL | Modifiers::ALT | Modifiers::SHIFT | Modifiers::LOGO),
        Key::Character('x'),
    );
    assert_eq!(shortcut.label(true), "Ctrl+Opt+Shift+Cmd+X");
    assert_eq!(shortcut.label(false), "Ctrl+Alt+Shift+Super+X");
    let named = Shortcut::control(Key::named(iced_core::keyboard::key::Named::Escape));
    assert_eq!(named.label(false), "Ctrl+Esc");
}

#[test]
fn shortcuts_need_exact_modifiers() {
    let shortcut = Shortcut::control(Key::Character('s'));
    let key = Pressed::Character("S".into());
    assert!(shortcut.matches(&key, Modifiers::from_bits(Modifiers::CTRL)));
    assert!(!shortcut.matches(&key, Modifiers::from_bits(Modifiers::CTRL | Modifiers::SHIFT)));
    assert!(!shortcut.matches(&Pressed::Character(String::new()), Modifiers::from_bits(Modifiers::CTRL)));
    let escape = Shortcut::new(Modifiers::none(), Key::named(iced_core::keyboard::key::Named::Escape));
    assert!(escape.matches(&Pressed::named(iced_core::keyboard::key::Named::Escape), Modifiers::none()));
    assert!(!escape.matches(&Pressed::named(iced_core::keyboard::key::Named::Enter), Modifiers::none()));
}
