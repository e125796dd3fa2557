use roder_tui::dialog::{UserInputDialogState, UserInputOption, UserInputQuestion};
use roder_tui::dialog_view::{dialog_title, user_input_dialog_height, user_input_dialog_view};
use roder_tui::timeline_rows::{StyledLine, TextRole};

fn text(l: &StyledLine) -> String {
    l.iter().map(|(t, _)| t.as_str()).collect::<String>()
}

fn question(header: &str) -> UserInputQuestion {
    UserInputQuestion {
        id: "q".to_string(),
        header: header.to_string(),
        question: "Which one?".to_string(),
        options: vec![
            UserInputOption { label: "Fast".to_string(), description: "quick run".to_string() },
            UserInputOption { label: "Slow".to_string(), description: "  ".to_string() },
        ],
    }
}

#[test]
fn question_dialog_lists_numbered_answers() {
    let state = UserInputDialogState {
        request_id: "r".to_string(),
        turn_id: "t".to_string(),
        questions: vec![question(" "), question("Mode")],
        current: 0,
        selected: 1,
        answers: Vec::new(),
    };
    let v = user_input_dialog_view(&state, 40);
    assert_eq!(v.title, " Your input (1/2) ");
    assert_eq!(v.context, "model needs your input");
    assert_eq!(v.heading, "Which one?");
    assert_eq!(v.height, 10);
    let lines: Vec<String> = v.options.iter().map(text).collect();
    assert_eq!(lines, vec!["  1. Fast", "    quick run", "› 2. Slow"]);
    assert_eq!(v.options[2][1].1, TextRole::Accent);
    assert_eq!(v.options[0][1].1, TextRole::DialogSurface);
    assert_eq!(v.controls, "↑/↓ move · 1-9 jump · Enter select · Esc skip");
}

#[test]
fn question_dialog_height_fits_the_screen() {
    assert_eq!(user_input_dialog_height(2, 40), 10);
    assert_eq!(user_input_dialog_height(10, 12), 10);
    assert_eq!(user_input_dialog_height(0, 3), 7);
    assert_eq!(dialog_title(0, 1), " Your input ");
}
