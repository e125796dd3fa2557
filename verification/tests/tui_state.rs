use roder_tui::key_route::KeyRoute;
use roder_tui::keys::{KeyCode, KeyEvent, KeyModifiers};
use roder_tui::tui_state::{
    note_text, ConfirmKind, EventNote, KeyContext, ServerEventKind, TuiAction, TuiEvent, TuiState,
    UiFlags,
};
use roder_tui::turn::{TurnState, STUCK_TURN_RECOVERY_TIMEOUT};

fn state() -> TuiState {
    TuiState {
        ui: UiFlags {
            show_event_log: false,
            show_provider_popup: false,
            show_shortcuts_dialog: false,
            confirm_dialog: None,
            plugin_browser_open: false,
            chrome_panel_open: false,
        },
        turn: TurnState {
            active_turn_id: None,
            lagged_during_active_turn: false,
            last_event_at: 0,
            input_tokens: 0,
            output_tokens: 0,
            reasoning_tokens: None,
            total_tokens: 0,
            compaction_active: false,
            working_status_override: None,
        },
    }
}

fn context() -> KeyContext {
    KeyContext {
        tool_detail_open: false,
        user_input_dialog_open: false,
        confirm_allows_policy_switch: false,
        workflow_overlay_visible: false,
        palette_open: false,
        pending_plan_exit: false,
        roadmap_mode: false,
        palette_open_key: false,
        shortcuts_close_key: false,
    }
}

fn key(code: KeyCode, modifiers: KeyModifiers) -> TuiEvent {
    TuiEvent::Key { key: KeyEvent::new(code, modifiers), context: context() }
}

#[test]
fn ctrl_l_toggles_the_event_log_and_says_so() {
    let mut s = state();
    let acts = s.step(key(KeyCode::Char('l'), KeyModifiers::control()));
    assert!(s.ui.show_event_log);
    assert_eq!(acts, vec![TuiAction::Redraw, TuiAction::Note(EventNote::EventLogShown)]);
    let acts = s.step(key(KeyCode::Char('l'), KeyModifiers::control()));
    assert!(!s.ui.show_event_log);
    assert_eq!(acts[1], TuiAction::Note(EventNote::EventLogHidden));
    assert_eq!(note_text(EventNote::EventLogShown), "event log shown");
    assert_eq!(note_text(EventNote::StreamLagged(7)), "event stream lagged; dropped 7 events");
}

#[test]
fn ctrl_c_asks_to_exit_and_other_keys_are_handed_on() {
    let mut s = state();
    s.ui.show_shortcuts_dialog = true;
    let acts = s.step(key(KeyCode::Char('c'), KeyModifiers::control()));
    assert!(!s.ui.show_shortcuts_dialog);
    assert_eq!(s.ui.confirm_dialog, Some(ConfirmKind::Exit));
    assert_eq!(acts, vec![TuiAction::Redraw]);
    let acts = s.step(key(KeyCode::Enter, KeyModifiers::none()));
    assert_eq!(acts, vec![TuiAction::Redraw, TuiAction::Route(KeyRoute::ConfirmDialog)]);
    let mut t = state();
    let acts = t.step(key(KeyCode::Char('x'), KeyModifiers::none()));
    assert_eq!(acts, vec![TuiAction::Redraw, TuiAction::Route(KeyRoute::Composer)]);
}

#[test]
fn server_events_start_and_end_the_running_turn() {
    let mut s = state();
    let acts = s.step(TuiEvent::Server { now: 5, kind: ServerEventKind::TurnStarted("turn-1".to_string()) });
    assert_eq!(s.turn.active_turn_id.as_deref(), Some("turn-1"));
    assert_eq!(s.turn.last_event_at, 5);
    assert_eq!(acts, vec![TuiAction::Redraw, TuiAction::LogServerEvent, TuiAction::TurnBegan]);
    let acts = s.step(TuiEvent::StreamLagged(3));
    assert!(s.turn.lagged_during_active_turn);
    assert_eq!(acts, vec![TuiAction::Note(EventNote::StreamLagged(3))]);
    s.step(TuiEvent::Server { now: 6, kind: ServerEventKind::TurnCompleted("other".to_string()) });
    assert_eq!(s.turn.active_turn_id.as_deref(), Some("turn-1"));
    let acts = s.step(TuiEvent::Server { now: 7, kind: ServerEventKind::TurnInterrupted("turn-1".to_string()) });
    assert_eq!(s.turn.active_turn_id, None);
    assert!(!s.turn.lagged_during_active_turn);
    assert_eq!(acts[2], TuiAction::TurnEnded { completed: false });
}

#[test]
fn tick_gives_up_on_a_stuck_turn() {
    let mut s = state();
    s.step(TuiEvent::Server { now: 10, kind: ServerEventKind::TurnStarted("t".to_string()) });
    s.step(TuiEvent::StreamLagged(1));
    assert_eq!(s.step(TuiEvent::Tick(11)), Vec::new());
    let acts = s.step(TuiEvent::Tick(10 + STUCK_TURN_RECOVERY_TIMEOUT));
    assert_eq!(acts, vec![TuiAction::RecoveredTurn, TuiAction::Redraw]);
    assert_eq!(s.turn.active_turn_id, None);
}
