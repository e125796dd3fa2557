use roder_tui::keys::{roadmap_key_action, RoadmapKey};
use roder_tui::keys::{
    active_turn_prompt_shortcut, composer_queue_key, diff_key_from_event,
    is_dialog_menu_next_key, is_dialog_menu_previous_key, is_help_key,
    is_plan_panel_toggle_key, is_policy_mode_shortcut_key, should_handle_key_event,
    ActiveTurnPromptShortcut, DiffKey, KeyCode, KeyEvent, KeyEventKind, KeyModifiers,
};

#[test]
fn key_release_events_are_ignored() {
    let press = KeyEvent::new_with_kind(
        KeyCode::Char('p'),
        KeyModifiers::control(),
        KeyEventKind::Press,
    );
    let repeat = KeyEvent::new_with_kind(
        KeyCode::Char('p'),
        KeyModifiers::control(),
        KeyEventKind::Repeat,
    );
    let release = KeyEvent::new_with_kind(
        KeyCode::Char('p'),
        KeyModifiers::control(),
        KeyEventKind::Release,
    );

    assert!(should_handle_key_event(press));
    assert!(should_handle_key_event(repeat));
    assert!(!should_handle_key_event(release));
}

#[test]
fn plan_panel_toggle_key_uses_ctrl_t() {
    assert!(is_plan_panel_toggle_key(KeyEvent::new(
        KeyCode::Char('t'),
        KeyModifiers::control()
    )));
    assert!(!is_plan_panel_toggle_key(KeyEvent::new(
        KeyCode::Char('t'),
        KeyModifiers::none()
    )));
    assert!(!is_plan_panel_toggle_key(KeyEvent::new(
        KeyCode::Char('l'),
        KeyModifiers::control()
    )));
}

#[test]
fn dialog_menu_ctrl_j_and_ctrl_k_match_arrow_navigation() {
    assert!(is_dialog_menu_previous_key(KeyEvent::new(
        KeyCode::Up,
        KeyModifiers::none()
    )));
    assert!(is_dialog_menu_previous_key(KeyEvent::new(
        KeyCode::Char('k'),
        KeyModifiers::control()
    )));
    assert!(is_dialog_menu_next_key(KeyEvent::new(
        KeyCode::Down,
        KeyModifiers::none()
    )));
    assert!(is_dialog_menu_next_key(KeyEvent::new(
        KeyCode::Char('j'),
        KeyModifiers::control()
    )));
    assert!(!is_dialog_menu_next_key(KeyEvent::new(
        KeyCode::Char('j'),
        KeyModifiers::none()
    )));
}

#[test]
fn shift_tab_is_policy_mode_shortcut() {
    assert!(is_policy_mode_shortcut_key(KeyEvent::new(
        KeyCode::BackTab,
        KeyModifiers::none()
    )));
    assert!(is_policy_mode_shortcut_key(KeyEvent::new(
        KeyCode::Tab,
        KeyModifiers::shift()
    )));
    assert!(!is_policy_mode_shortcut_key(KeyEvent::new(
        KeyCode::Tab,
        KeyModifiers::none()
    )));
}

#[test]
fn question_mark_opens_help() {
    assert!(is_help_key(KeyEvent::new(
        KeyCode::Char('?'),
        KeyModifiers::none()
    )));
    assert!(!is_help_key(KeyEvent::new(
        KeyCode::Char('?'),
        KeyModifiers::control()
    )));
}

#[test]
fn active_turn_prompt_shortcuts_queue_tab_only() {
    assert_eq!(
        active_turn_prompt_shortcut(KeyEvent::new(KeyCode::Tab, KeyModifiers::none()), true),
        Some(ActiveTurnPromptShortcut::Queue)
    );
    assert_eq!(
        active_turn_prompt_shortcut(KeyEvent::new(KeyCode::Enter, KeyModifiers::none()), true),
        None
    );
}

#[test]
fn active_turn_prompt_shortcuts_do_not_steal_empty_or_modified_keys() {
    assert_eq!(
        active_turn_prompt_shortcut(KeyEvent::new(KeyCode::Tab, KeyModifiers::none()), false),
        None
    );
    assert_eq!(
        active_turn_prompt_shortcut(KeyEvent::new(KeyCode::Enter, KeyModifiers::shift()), true),
        None
    );
    assert_eq!(
        active_turn_prompt_shortcut(KeyEvent::new(KeyCode::Enter, KeyModifiers::control()), true),
        None
    );
}

#[test]
fn composer_tab_queues_only_when_prompt_is_prepared() {
    assert!(composer_queue_key(
        KeyEvent::new(KeyCode::Tab, KeyModifiers::none()),
        true
    ));
    assert!(!composer_queue_key(
        KeyEvent::new(KeyCode::Tab, KeyModifiers::none()),
        false
    ));
    assert!(!composer_queue_key(
        KeyEvent::new(KeyCode::Tab, KeyModifiers::shift()),
        true
    ));
}

#[test]
fn diff_view_key_mapping_covers_documented_keys() {
    assert_eq!(
        diff_key_from_event(KeyEvent::new(KeyCode::Char('j'), KeyModifiers::none())),
        Some(DiffKey::NextHunk)
    );
    assert_eq!(
        diff_key_from_event(KeyEvent::new(KeyCode::Char('s'), KeyModifiers::none())),
        Some(DiffKey::ToggleView)
    );
    assert_eq!(
        diff_key_from_event(KeyEvent::new(KeyCode::Esc, KeyModifiers::none())),
        Some(DiffKey::Close)
    );
}

#[test]
fn diff_view_maps_every_hunk_action() {
    let cases = [
        (KeyCode::Up, Some(DiffKey::PreviousHunk)),
        (KeyCode::Char('Y'), Some(DiffKey::AcceptHunk)),
        (KeyCode::Char('n'), Some(DiffKey::RejectHunk)),
        (KeyCode::Char('A'), Some(DiffKey::AcceptAll)),
        (KeyCode::Char('r'), Some(DiffKey::RejectAll)),
        (KeyCode::Char('x'), None),
        (KeyCode::Enter, None),
    ];
    for (code, expected) in cases {
        assert_eq!(diff_key_from_event(KeyEvent::from(code)), expected);
    }
}

#[test]
fn key_event_from_code_is_an_unmodified_press() {
    let key = KeyEvent::from(KeyCode::Enter);
    assert!(key.modifiers.is_none());
    assert_eq!(key.kind, KeyEventKind::Press);
    let both = KeyModifiers::control().union(KeyModifiers::shift());
    assert!(both.control && both.shift && !both.alt);
}

#[test]
fn roadmap_keys_map_to_actions() {
    let plain = |code| KeyEvent::new(code, KeyModifiers::none());
    assert_eq!(roadmap_key_action(plain(KeyCode::Esc), false), Some(RoadmapKey::Leave));
    assert_eq!(roadmap_key_action(plain(KeyCode::Char('q')), false), Some(RoadmapKey::Leave));
    assert_eq!(roadmap_key_action(plain(KeyCode::Char('j')), false), Some(RoadmapKey::MoveFocus(true)));
    assert_eq!(roadmap_key_action(plain(KeyCode::Up), false), Some(RoadmapKey::MoveFocus(false)));
    assert_eq!(roadmap_key_action(plain(KeyCode::BackTab), false), Some(RoadmapKey::PreviousPane));
    assert_eq!(roadmap_key_action(plain(KeyCode::Char('S')), false), Some(RoadmapKey::FanOutWorkers));
    assert_eq!(roadmap_key_action(plain(KeyCode::Char('s')), false), Some(RoadmapKey::SpawnWorker));
    assert_eq!(roadmap_key_action(plain(KeyCode::Enter), true), Some(RoadmapKey::MonitorWorker));
    assert_eq!(roadmap_key_action(plain(KeyCode::Char('e')), false), Some(RoadmapKey::ExecuteTask));
    assert_eq!(roadmap_key_action(plain(KeyCode::Char('x')), false), None);
    assert_eq!(
        roadmap_key_action(KeyEvent::new(KeyCode::Char('j'), KeyModifiers::control()), false),
        None
    );
}
