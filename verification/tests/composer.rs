use roder_tui::composer::{
    action_from_modified, composer_key_inserts_newline, composer_key_plan,
    composer_mode_from_text, inline_completion_matches, inline_completion_query,
    matching_file_completions, shell_command_from_input, ComposerKeyAction, ComposerKeyPlan,
    ComposerMode, FileCompletionItem, InlineCompletionItem, InlineCompletionKind,
    InlineCompletionQuery, SkillCompletion, MAX_VISIBLE_INLINE_COMPLETIONS,
};
use roder_tui::keys::{KeyCode, KeyEvent, KeyModifiers};

fn skill(name: &str, disabled: bool) -> SkillCompletion {
    SkillCompletion {
        name: name.to_string(),
        description: format!("{name} helper"),
        disabled,
    }
}

#[test]
fn shell_command_requires_non_empty_bang_prefix() {
    assert_eq!(
        shell_command_from_input("!echo hi").as_deref(),
        Some("echo hi")
    );
    assert_eq!(
        shell_command_from_input("!  echo hi  ").as_deref(),
        Some("echo hi")
    );
    assert_eq!(shell_command_from_input("!"), None);
    assert_eq!(shell_command_from_input("echo hi"), None);
}

#[test]
fn composer_mode_tracks_shell_prefix() {
    assert_eq!(composer_mode_from_text("!echo hi"), ComposerMode::Shell);
    assert_eq!(composer_mode_from_text("echo hi"), ComposerMode::Chat);
}

#[test]
fn composer_modes_have_their_placeholders() {
    assert!(ComposerMode::Shell.is_shell());
    assert!(!ComposerMode::Chat.is_shell());
    assert_eq!(ComposerMode::Chat.placeholder(), "Ask Roder to work on this repo");
    assert_eq!(ComposerMode::Shell.placeholder(), "Run a shell command");
}

#[test]
fn inline_completion_query_parses_only_leading_at_or_dollar_tokens() {
    assert_eq!(
        inline_completion_query("@src/li").unwrap(),
        InlineCompletionQuery {
            kind: InlineCompletionKind::File,
            term: "src/li".to_string()
        }
    );
    assert_eq!(
        inline_completion_query("$rust").unwrap(),
        InlineCompletionQuery {
            kind: InlineCompletionKind::Skill,
            term: "rust".to_string()
        }
    );
    assert!(inline_completion_query("look @src/lib.rs").is_none());
    assert!(inline_completion_query("@src/lib.rs extra").is_none());
}

#[test]
fn inline_file_completion_matches_and_inserts_mentions() {
    let files = vec![
        FileCompletionItem {
            path: "src/lib.rs".to_string(),
        },
        FileCompletionItem {
            path: "README.md".to_string(),
        },
    ];

    let matches = inline_completion_matches("@lib", &files, &Vec::new()).unwrap();
    assert_eq!(matches.len(), 1);
    assert_eq!(matches[0].insertion_text(), "@src/lib.rs ");
}

#[test]
fn inline_skill_completion_ignores_disabled_skills() {
    let enabled = skill("rust-workspace", false);
    let disabled = skill("rust-clippy", true);
    let skills = vec![disabled, enabled.clone()];

    let matches = inline_completion_matches("$rust", &Vec::new(), &skills).unwrap();
    assert_eq!(matches.len(), 1);
    assert_eq!(matches[0].insertion_text(), "$rust-workspace ");
    assert!(matches[0].insertion_text().contains(&enabled.name));
}

#[test]
fn file_completion_matches_fold_ascii_case_and_stop_at_the_menu_size() {
    let files = (0..20)
        .map(|i| FileCompletionItem { path: format!("Docs/Page{i}.md") })
        .collect::<Vec<_>>();
    let matches = matching_file_completions(&files, "docs/page");
    assert_eq!(matches.len(), MAX_VISIBLE_INLINE_COMPLETIONS);
    match &matches[11] {
        InlineCompletionItem::File(item) => assert_eq!(item.path, "Docs/Page11.md"),
        other => panic!("unexpected {other:?}"),
    }
    assert_eq!(matching_file_completions(&files, "").len(), MAX_VISIBLE_INLINE_COMPLETIONS);
    assert!(inline_completion_matches("plain text", &files, &Vec::new()).is_none());
}

#[test]
fn shift_enter_plans_a_newline_instead_of_submitting() {
    let key = KeyEvent::new(KeyCode::Enter, KeyModifiers::shift());
    assert!(composer_key_inserts_newline(key));
    assert_eq!(composer_key_plan(key), ComposerKeyPlan::InsertNewline);
    let ctrl_shift_m = KeyEvent::new(
        KeyCode::Char('M'),
        KeyModifiers::control().union(KeyModifiers::shift()),
    );
    assert_eq!(composer_key_plan(ctrl_shift_m), ComposerKeyPlan::InsertNewline);
}

#[test]
fn enter_plans_submit_only_without_modifiers() {
    assert_eq!(
        composer_key_plan(KeyEvent::new(KeyCode::Enter, KeyModifiers::none())),
        ComposerKeyPlan::Submit
    );
    assert_eq!(
        composer_key_plan(KeyEvent::new(KeyCode::Enter, KeyModifiers::control())),
        ComposerKeyPlan::Ignore
    );
}

#[test]
fn command_key_plans_edit_whole_lines_or_ignore() {
    let command = KeyModifiers::super_key();
    assert_eq!(
        composer_key_plan(KeyEvent::new(KeyCode::Backspace, command)),
        ComposerKeyPlan::Clear
    );
    assert_eq!(
        composer_key_plan(KeyEvent::new(KeyCode::Delete, command)),
        ComposerKeyPlan::DeleteToLineEnd
    );
    assert_eq!(
        composer_key_plan(KeyEvent::new(KeyCode::Char('a'), command)),
        ComposerKeyPlan::Ignore
    );
    assert_eq!(
        composer_key_plan(KeyEvent::new(KeyCode::Up, command)),
        ComposerKeyPlan::MoveTop
    );
    assert_eq!(
        composer_key_plan(KeyEvent::new(KeyCode::Char('w'), KeyModifiers::control())),
        ComposerKeyPlan::Input
    );
    assert_eq!(action_from_modified(true), ComposerKeyAction::Edited);
    assert_eq!(action_from_modified(false), ComposerKeyAction::Ignored);
}
