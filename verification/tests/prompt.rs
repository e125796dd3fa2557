use roder_tui::paste::ImageAttachment;
use roder_tui::prompt::{active_agent_mode_label, prepared_prompt};

#[test]
fn swarm_mode_on_does_not_prefix_reminder_client_side() {
    // The reminder is added by the server, so the message stays as typed.
    let pending = prepared_prompt("split this across files", &Vec::new()).expect("prepared prompt");
    assert_eq!(pending.message, "split this across files");
    assert!(!pending.message.contains("agent_swarm"));
    assert_eq!(pending.display, "split this across files");
}

#[test]
fn swarm_mode_off_leaves_prompt_unchanged() {
    let pending = prepared_prompt("hello world", &Vec::new()).expect("prepared prompt");
    assert_eq!(pending.message, "hello world");
    assert!(!pending.message.contains("agent_swarm"));
}

#[test]
fn active_agent_mode_label_is_agent_swarm_when_on() {
    assert_eq!(active_agent_mode_label(false), None);
    assert_eq!(active_agent_mode_label(true), Some("Agent Swarm"));
}

#[test]
fn prepared_prompt_trims_and_names_images() {
    assert_eq!(prepared_prompt("   ", &Vec::new()), None);
    let images = vec![ImageAttachment::new("/tmp/a.png".to_string())];
    let p = prepared_prompt("  look  ", &images).unwrap();
    assert_eq!(p.message, "look");
    assert_eq!(p.display, "look\nattached image: a.png");
    let only = prepared_prompt("", &images).unwrap();
    assert_eq!(only.message, "");
    assert_eq!(only.display, "attached image: a.png");
}
