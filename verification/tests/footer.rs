use roder_tui::footer::{footer_events_text, footer_status_line};

#[test]
fn footer_omits_policy_mode_label() {
    let footer = footer_status_line(false, 0, None, false, "", None, None, "ctrl-c quit");
    assert!(footer.contains("ready"));
    assert!(!footer.contains("mode:"));
    assert_eq!(footer, " ready  ctrl-c quit");
}

#[test]
fn footer_lists_queue_pending_exit_and_hints() {
    let steps = vec!["write the migration for the new accounts table".to_string()];
    let footer = footer_status_line(
        false,
        2,
        Some((None, &steps)),
        true,
        "  voice ready",
        Some("plans"),
        Some("ship it"),
        "tab queue",
    );
    assert_eq!(
        footer,
        " queued  queued 2 prompts  exit plan? y approve / n reject: write the migration for the new acco...  shell mode  voice ready  roadmap:plans  goal:ship it  tab queue"
    );
    let empty: Vec<String> = Vec::new();
    let running = footer_status_line(true, 0, Some((None, &empty)), false, "", None, None, "x");
    assert_eq!(running, " running  exit plan? y approve / n reject: plan exit  x");
    let summary = footer_status_line(true, 0, Some((Some("short"), &steps)), false, "", None, None, "x");
    assert_eq!(summary, " running  exit plan? y approve / n reject: short  x");
    assert_eq!(footer_events_text(12), "events 12 ");
}
