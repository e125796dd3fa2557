use roder_tui::dialog::{
    confirm_dialog_key, ConfirmOutcome,
    apply_user_input_action, confirm_action_for_key, confirm_dialog_allows_policy_switch,
    dialog_copy, tool_approval_dialog_matches, user_input_action_for_key, ConfirmChoice,
    ConfirmDialog, ConfirmDialogState, ConfirmKeyAction, RawOption, RawQuestion,
    UserInputDialogState, UserInputKeyAction, UserInputOutcome,
};
use roder_tui::keys::{is_policy_mode_shortcut_key, KeyCode, KeyEvent, KeyModifiers};

fn option(label: &str, description: &str) -> RawOption {
    RawOption {
        label: Some(label.to_string()),
        description: Some(description.to_string()),
    }
}

fn sample_user_input_questions() -> Option<Vec<RawQuestion>> {
    Some(vec![
        RawQuestion {
            header: Some("Failing e2e test before release".to_string()),
            id: Some("release".to_string()),
            question: Some("How do you want to handle it?".to_string()),
            options: Some(vec![
                option("fix-first", "Fix the test before releasing."),
                option("ship-anyway", "Release and follow up."),
            ]),
        },
        RawQuestion {
            header: Some("Scope".to_string()),
            id: Some("scope".to_string()),
            question: Some("Which path?".to_string()),
            options: Some(vec![
                option("core-only", "Only the core path."),
                option("all", "Every provider."),
            ]),
        },
    ])
}

fn answer<'a>(state: &'a UserInputDialogState, id: &str) -> &'a str {
    state
        .answers
        .iter()
        .rev()
        .find(|(question, _)| question == id)
        .map(|(_, value)| value.as_str())
        .expect("question answered")
}

#[test]
fn interrupt_dialog_copy_is_actionable() {
    let copy = dialog_copy(&ConfirmDialog::Interrupt);

    assert_eq!(copy.title, "Interrupt turn");
    assert_eq!(copy.confirm_label, "Interrupt");
    assert!(copy.heading.contains("Stop"));
    assert!(copy.detail.contains("thread stays open"));
}

#[test]
fn confirm_dialog_defaults_to_yes_to_preserve_enter_confirm() {
    let state = ConfirmDialogState::new(ConfirmDialog::Interrupt);

    assert_eq!(state.selected, ConfirmChoice::Yes);
    assert_eq!(
        confirm_action_for_key(KeyCode::Enter, state.selected),
        ConfirmKeyAction::Confirm
    );
}

#[test]
fn confirm_dialog_arrow_keys_select_yes_and_no() {
    assert_eq!(
        confirm_action_for_key(KeyCode::Left, ConfirmChoice::No),
        ConfirmKeyAction::Select(ConfirmChoice::Yes)
    );
    assert_eq!(
        confirm_action_for_key(KeyCode::Right, ConfirmChoice::Yes),
        ConfirmKeyAction::Select(ConfirmChoice::No)
    );
    assert_eq!(
        confirm_action_for_key(KeyCode::Enter, ConfirmChoice::No),
        ConfirmKeyAction::Cancel
    );
}

#[test]
fn confirm_dialog_keeps_y_and_n_quickbinds() {
    assert_eq!(
        confirm_action_for_key(KeyCode::Char('y'), ConfirmChoice::No),
        ConfirmKeyAction::Confirm
    );
    assert_eq!(
        confirm_action_for_key(KeyCode::Char('n'), ConfirmChoice::Yes),
        ConfirmKeyAction::Cancel
    );
}

#[test]
fn approval_confirm_dialog_allows_policy_mode_shortcut() {
    let approval = ConfirmDialogState::new(ConfirmDialog::ToolApproval {
        approval_id: "approval-1".to_string(),
        tool_name: "write_file".to_string(),
        reason: None,
    });
    let exit = ConfirmDialogState::new(ConfirmDialog::Exit);

    assert!(confirm_dialog_allows_policy_switch(&approval));
    assert!(!confirm_dialog_allows_policy_switch(&exit));
    assert!(is_policy_mode_shortcut_key(KeyEvent::new(
        KeyCode::BackTab,
        KeyModifiers::shift()
    )));
}

#[test]
fn tool_approval_dialog_matches_only_matching_approval_id() {
    let approval = ConfirmDialogState::new(ConfirmDialog::ToolApproval {
        approval_id: "approval-1".to_string(),
        tool_name: "write_file".to_string(),
        reason: None,
    });
    let interrupt = ConfirmDialogState::new(ConfirmDialog::Interrupt);

    assert!(tool_approval_dialog_matches(&approval, "approval-1"));
    assert!(!tool_approval_dialog_matches(&approval, "approval-2"));
    assert!(!tool_approval_dialog_matches(&interrupt, "approval-1"));
}

#[test]
fn user_input_dialog_parses_questions_and_options() {
    let state = UserInputDialogState::from_event(
        "req-1".to_string(),
        "turn-1".to_string(),
        &sample_user_input_questions(),
    )
    .expect("dialog parses");
    assert_eq!(state.questions.len(), 2);
    assert_eq!(state.current_question().id, "release");
    assert_eq!(state.current_question().options[0].label, "fix-first");
    assert_eq!(
        state.current_question().options[1].description,
        "Release and follow up."
    );
}

#[test]
fn user_input_dialog_ignores_questions_without_options() {
    let state = UserInputDialogState::from_event(
        "req-1".to_string(),
        "turn-1".to_string(),
        &Some(vec![RawQuestion {
            id: Some("free".to_string()),
            header: None,
            question: Some("Anything?".to_string()),
            options: None,
        }]),
    );
    assert!(state.is_none(), "questions without options are not answerable");
}

#[test]
fn user_input_dialog_defaults_missing_fields() {
    let state = UserInputDialogState::from_event(
        "req-2".to_string(),
        "turn-2".to_string(),
        &Some(vec![RawQuestion {
            id: None,
            header: None,
            question: None,
            options: Some(vec![
                RawOption { label: None, description: Some("skipped".to_string()) },
                RawOption { label: Some("only".to_string()), description: None },
            ]),
        }]),
    )
    .expect("one labelled option is enough");
    let question = state.current_question();
    assert_eq!(question.id, "answer");
    assert_eq!(question.header, "");
    assert_eq!(question.question, "Select an option");
    assert_eq!(question.options.len(), 1);
    assert_eq!(question.options[0].label, "only");
    assert_eq!(question.options[0].description, "");
    assert!(UserInputDialogState::from_event("r".to_string(), "t".to_string(), &None).is_none());
}

#[test]
fn user_input_dialog_navigation_wraps() {
    let mut state = UserInputDialogState::from_event(
        "req-1".to_string(),
        "turn-1".to_string(),
        &sample_user_input_questions(),
    )
    .unwrap();
    assert_eq!(state.selected, 0);
    state.select_previous();
    assert_eq!(state.selected, 1, "up from the first option wraps to the last");
    state.select_next();
    assert_eq!(state.selected, 0, "down wraps back to the first option");
}

#[test]
fn user_input_dialog_collects_answers_across_questions() {
    let mut state = UserInputDialogState::from_event(
        "req-1".to_string(),
        "turn-1".to_string(),
        &sample_user_input_questions(),
    )
    .unwrap();
    state.select_next();
    assert!(!state.commit_current(), "more questions remain");
    assert_eq!(state.current, 1);
    assert_eq!(state.selected, 0, "selection resets for the next question");
    assert!(state.commit_current(), "all questions answered");
    assert_eq!(answer(&state, "release"), "ship-anyway");
    assert_eq!(answer(&state, "scope"), "core-only");
}

#[test]
fn user_input_key_mapping_matches_navigation_and_selection() {
    assert_eq!(
        user_input_action_for_key(KeyEvent::from(KeyCode::Up)),
        UserInputKeyAction::SelectPrevious
    );
    assert_eq!(
        user_input_action_for_key(KeyEvent::from(KeyCode::Down)),
        UserInputKeyAction::SelectNext
    );
    assert_eq!(
        user_input_action_for_key(KeyEvent::from(KeyCode::Char('2'))),
        UserInputKeyAction::SelectIndex(1)
    );
    assert_eq!(
        user_input_action_for_key(KeyEvent::from(KeyCode::Enter)),
        UserInputKeyAction::Confirm
    );
    assert_eq!(
        user_input_action_for_key(KeyEvent::from(KeyCode::Esc)),
        UserInputKeyAction::Cancel
    );
}

#[test]
fn user_input_actions_resolve_after_the_last_answer_or_a_cancel() {
    let mut state = UserInputDialogState::from_event(
        "req-1".to_string(),
        "turn-1".to_string(),
        &sample_user_input_questions(),
    )
    .unwrap();
    assert_eq!(
        apply_user_input_action(&mut state, UserInputKeyAction::SelectIndex(1)),
        UserInputOutcome::Stay
    );
    assert_eq!(state.selected, 1);
    assert_eq!(
        apply_user_input_action(&mut state, UserInputKeyAction::SelectIndex(7)),
        UserInputOutcome::Stay
    );
    assert_eq!(state.selected, 1);
    assert_eq!(
        apply_user_input_action(&mut state, UserInputKeyAction::Confirm),
        UserInputOutcome::Stay
    );
    assert_eq!(
        apply_user_input_action(&mut state, UserInputKeyAction::Cancel),
        UserInputOutcome::Resolve
    );
    assert_eq!(answer(&state, "release"), "ship-anyway");
}

#[test]
fn confirm_dialog_keys_carry_out_or_dismiss() {
    let approval = ConfirmDialogState::new(ConfirmDialog::ToolApproval {
        approval_id: "ap-1".to_string(),
        tool_name: "shell".to_string(),
        reason: None,
    });
    assert_eq!(
        confirm_dialog_key(&approval, KeyCode::Enter),
        ConfirmOutcome::ResolveApproval { approval_id: "ap-1".to_string(), approved: true }
    );
    assert_eq!(
        confirm_dialog_key(&approval, KeyCode::Esc),
        ConfirmOutcome::ResolveApproval { approval_id: "ap-1".to_string(), approved: false }
    );
    let exit = ConfirmDialogState::new(ConfirmDialog::Exit);
    assert_eq!(confirm_dialog_key(&exit, KeyCode::Char('y')), ConfirmOutcome::Exit);
    assert_eq!(confirm_dialog_key(&exit, KeyCode::Char('n')), ConfirmOutcome::Dismiss);
    assert_eq!(confirm_dialog_key(&exit, KeyCode::Right), ConfirmOutcome::Select(ConfirmChoice::No));
    assert_eq!(confirm_dialog_key(&exit, KeyCode::Char('x')), ConfirmOutcome::Ignore);
    let interrupt = ConfirmDialogState { dialog: ConfirmDialog::Interrupt, selected: ConfirmChoice::No };
    assert_eq!(confirm_dialog_key(&interrupt, KeyCode::Enter), ConfirmOutcome::Dismiss);
}
