use roder_tui::turn::{
    record_usage_counters, recovered_turn_notice, TurnState, STUCK_TURN_RECOVERY_TIMEOUT,
};

const SECOND: u64 = 1_000_000_000;

fn running(lagged: bool, last_event_at: u64) -> TurnState {
    TurnState {
        active_turn_id: Some("turn-1".to_string()),
        lagged_during_active_turn: lagged,
        last_event_at,
        input_tokens: 5,
        output_tokens: 6,
        reasoning_tokens: Some(2),
        total_tokens: 11,
        compaction_active: true,
        working_status_override: Some("Thinking".to_string()),
    }
}

#[test]
fn watchdog_recovers_stuck_turn_after_lag_and_quiet_gap() {
    let now = 100 * SECOND;
    let mut turn = running(true, now - (STUCK_TURN_RECOVERY_TIMEOUT + SECOND));
    assert!(turn.recover_stuck_turn_if_needed(now));
    assert!(turn.active_turn_id.is_none(), "stuck turn should be cleared");
    assert!(!turn.lagged_during_active_turn);
    assert_eq!(turn.total_tokens, 0);
    assert_eq!(turn.reasoning_tokens, None);
    assert!(!turn.compaction_active);
    assert_eq!(turn.working_status_override, None);
    assert!(recovered_turn_notice().starts_with("recovered UI"));
}

#[test]
fn watchdog_keeps_turn_without_observed_lag() {
    let now = 100 * SECOND;
    let mut turn = running(false, now - (STUCK_TURN_RECOVERY_TIMEOUT + SECOND));
    assert!(!turn.recover_stuck_turn_if_needed(now));
    assert_eq!(
        turn.active_turn_id.as_deref(),
        Some("turn-1"),
        "a quiet turn with no observed lag must not be cleared"
    );
}

#[test]
fn watchdog_keeps_turn_with_recent_events() {
    let now = 100 * SECOND;
    let mut turn = running(true, now);
    assert!(!turn.recover_stuck_turn_if_needed(now));
    assert_eq!(
        turn.active_turn_id.as_deref(),
        Some("turn-1"),
        "a turn that is still emitting events must not be cleared"
    );
    let before = turn.clone();
    assert!(!turn.recover_stuck_turn_if_needed(now + STUCK_TURN_RECOVERY_TIMEOUT - 1));
    assert_eq!(turn, before);
}

#[test]
fn usage_accounting_tracks_latest_context_window_separately_from_thread_total() {
    let mut input = 0;
    let mut output = 0;
    let mut turn_total = 0;
    let mut thread_total = 0;
    let mut context_total = 0;

    record_usage_counters(
        &mut input, &mut output, &mut turn_total, &mut thread_total, &mut context_total,
        10_000, 1_000, 11_000,
    );
    record_usage_counters(
        &mut input, &mut output, &mut turn_total, &mut thread_total, &mut context_total,
        10_500, 1_500, 12_000,
    );

    assert_eq!(input, 10_500);
    assert_eq!(output, 1_500);
    assert_eq!(turn_total, 12_000);
    assert_eq!(thread_total, 12_000);
    assert_eq!(context_total, 12_000);

    input = 0;
    output = 0;
    turn_total = 0;
    record_usage_counters(
        &mut input, &mut output, &mut turn_total, &mut thread_total, &mut context_total,
        20_000, 2_000, 22_000,
    );

    assert_eq!(thread_total, 34_000);
    assert_eq!(context_total, 22_000);
}

#[test]
fn usage_total_falls_back_to_prompt_plus_completion() {
    let (mut i, mut o, mut t, mut th, mut c) = (0u32, 0u32, 0u32, 0u64, 7u64);
    record_usage_counters(&mut i, &mut o, &mut t, &mut th, &mut c, 100, 50, 0);
    assert_eq!((t, th, c), (150, 150, 150));
    record_usage_counters(&mut i, &mut o, &mut t, &mut th, &mut c, 100, 50, 0);
    assert_eq!((t, th, c), (150, 150, 150));
    let (mut i2, mut o2, mut t2, mut th2, mut c2) = (0u32, 0u32, 0u32, 0u64, 7u64);
    record_usage_counters(&mut i2, &mut o2, &mut t2, &mut th2, &mut c2, 0, 0, 0);
    assert_eq!(c2, 7);
}
