use roder_tui::timeline_rows::{StyledLine, TextRole};
use roder_tui::transcript::{classify_message, message_line, message_lines, split_lines, MessageStyle};

fn rendered(line: &StyledLine) -> String {
    line.iter().map(|(text, _)| text.as_str()).collect::<String>()
}

#[test]
fn message_line_assigns_semantic_prefixes() {
    let line = message_line("assistant: hello");
    assert_eq!(rendered(&line), "hello");
}

#[test]
fn message_lines_preserve_multiline_assistant_output() {
    let lines = message_lines("assistant: Created files:\n\n- `Package.swift`");
    let rendered = lines.iter().map(rendered).collect::<Vec<_>>();
    assert_eq!(rendered, vec!["Created files:", "", "- `Package.swift`"]);
}

#[test]
fn message_lines_format_tool_messages() {
    let lines = message_lines("tool: write_file completed");
    assert_eq!(rendered(&lines[0]), "◆ write_file completed");
}

#[test]
fn message_lines_format_running_and_failed_tool_messages() {
    let running = message_line("tool_running: Search query: rust");
    let failed = message_line("tool_failed: Search query: rust");
    assert_eq!(rendered(&running), "◆ Search query: rust");
    assert_eq!(rendered(&failed), "◆ Search query: rust");
    assert_eq!(failed[0].1, TextRole::Error);
    assert_eq!(failed[1].1, TextRole::Error);
}

#[test]
fn message_line_formats_shell_messages() {
    let line = message_line("shell: !echo hi");
    assert_eq!(rendered(&line), "$ !echo hi");
}

#[test]
fn message_lines_indent_continuation_lines_under_the_marker() {
    let lines = message_lines("error: first\nsecond");
    assert_eq!(lines.len(), 2);
    assert_eq!(lines[0], vec![("! ".to_string(), TextRole::Error), ("first".to_string(), TextRole::Error)]);
    assert_eq!(lines[1], vec![("  ".to_string(), TextRole::Error), ("second".to_string(), TextRole::Error)]);
    let user = message_lines("user: hi\nthere");
    assert_eq!(
        user[0],
        vec![
            (String::new(), TextRole::Accent),
            (String::new(), TextRole::Accent),
            ("hi".to_string(), TextRole::Text),
        ]
    );
    assert_eq!(user[1], vec![(String::new(), TextRole::Accent), ("there".to_string(), TextRole::Text)]);
}

#[test]
fn message_styles_follow_their_prefixes() {
    assert_eq!(classify_message("user: x"), MessageStyle::User);
    assert_eq!(classify_message("executed slash command: /model"), MessageStyle::SlashCommand);
    assert_eq!(classify_message("shell output: ok"), MessageStyle::ShellOutput);
    assert_eq!(classify_message("system: note"), MessageStyle::System);
    assert_eq!(classify_message("tool:missing space"), MessageStyle::Plain);
    let plain = message_lines("just text");
    assert_eq!(plain, vec![vec![("just text".to_string(), TextRole::Text)]]);
    let output = message_line("shell output: done");
    assert_eq!(output, vec![("↳ ".to_string(), TextRole::Subtle), ("done".to_string(), TextRole::Muted)]);
}

#[test]
fn split_lines_keeps_every_piece() {
    assert_eq!(split_lines(""), vec![String::new()]);
    assert_eq!(split_lines("a\n"), vec!["a".to_string(), String::new()]);
    assert_eq!(split_lines("a\r\nb"), vec!["a\r".to_string(), "b".to_string()]);
}
