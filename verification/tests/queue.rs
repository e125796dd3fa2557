use roder_tui::queue::{queue_status, InputImage, PendingPrompt, PromptQueue};

fn prompt(display: &str, message: &str) -> PendingPrompt {
    PendingPrompt::with_images(display.to_string(), message.to_string(), Vec::new())
}

#[test]
fn queue_preserves_order_and_status() {
    let mut queue = PromptQueue::default();
    queue.push(prompt("first", "first message"));
    queue.push(prompt("second", "second message"));

    assert_eq!(queue.len(), 2);
    assert_eq!(queue_status(queue.len()), "queued 2 prompts");
    assert_eq!(queue.pop_front().unwrap().message, "first message");
    assert_eq!(queue.pop_front().unwrap().message, "second message");
    assert!(queue.pop_front().is_none());
}

#[test]
fn queue_allows_editing_latest_prompt_first() {
    let mut queue = PromptQueue::default();
    queue.push(prompt("first", "first message"));
    queue.push(prompt("second", "second message"));

    assert_eq!(queue.pop_back().unwrap().message, "second message");
    assert_eq!(queue.pop_front().unwrap().message, "first message");
}

#[test]
fn queue_clear_returns_removed_count() {
    let mut queue = PromptQueue::default();
    queue.push(prompt("first", "first"));
    queue.push(prompt("second", "second"));

    assert_eq!(queue.clear(), 2);
    assert_eq!(queue.len(), 0);
    assert!(queue.pop_front().is_none());
}

#[test]
fn queue_status_uses_singular_for_one_prompt() {
    assert_eq!(queue_status(1), "queued 1 prompt");
    assert_eq!(queue_status(0), "queued 0 prompts");
}

#[test]
fn queued_prompts_keep_their_images_and_displays() {
    let mut queue = PromptQueue::new();
    assert!(queue.is_empty());
    queue.push(PendingPrompt::with_images(
        "look".to_string(),
        "look at this".to_string(),
        vec![InputImage { image_url: "data:image/png;base64,YWJj".to_string() }],
    ));
    queue.push(prompt("two", "second"));
    assert_eq!(queue.displays(), vec!["look".to_string(), "two".to_string()]);
    let first = queue.pop_front().unwrap();
    assert_eq!(first.images.len(), 1);
    assert_eq!(first.images[0].image_url, "data:image/png;base64,YWJj");
}
