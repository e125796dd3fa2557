use roder_tui::selection::{
    normalized_selection, selected_text, selection_columns_for_row, MouseSelection,
    SelectableLine, SelectionPoint,
};

#[test]
fn mouse_selection_extracts_text_across_rows() {
    let lines = vec![
        SelectableLine {
            row: 2,
            text: "hello world".to_string(),
        },
        SelectableLine {
            row: 3,
            text: "second line".to_string(),
        },
    ];
    let selection = MouseSelection {
        anchor: SelectionPoint { row: 2, column: 6 },
        cursor: SelectionPoint { row: 3, column: 5 },
        dragging: true,
    };

    assert_eq!(
        selected_text(&lines, &selection).as_deref(),
        Some("world\nsecond")
    );
}

#[test]
fn mouse_selection_normalizes_reverse_drags() {
    let lines = vec![SelectableLine {
        row: 4,
        text: "abcdef".to_string(),
    }];
    let selection = MouseSelection {
        anchor: SelectionPoint { row: 4, column: 4 },
        cursor: SelectionPoint { row: 4, column: 1 },
        dragging: true,
    };

    assert_eq!(selected_text(&lines, &selection).as_deref(), Some("bcde"));
}

#[test]
fn selection_over_blank_cells_copies_nothing() {
    let lines = vec![SelectableLine {
        row: 1,
        text: "ab    ".to_string(),
    }];
    let selection = MouseSelection {
        anchor: SelectionPoint { row: 1, column: 3 },
        cursor: SelectionPoint { row: 1, column: 9 },
        dragging: false,
    };
    assert_eq!(selected_text(&lines, &selection), None);
}

#[test]
fn selection_columns_cover_whole_middle_rows_and_trim_trailing_space() {
    let start = SelectionPoint { row: 1, column: 2 };
    let end = SelectionPoint { row: 3, column: 1 };
    assert_eq!(selection_columns_for_row(0, "abc", (start, end)), None);
    assert_eq!(selection_columns_for_row(1, "abcdef", (start, end)), Some((2, 6)));
    assert_eq!(selection_columns_for_row(2, "xyz", (start, end)), Some((0, 3)));
    assert_eq!(selection_columns_for_row(3, "xyz", (start, end)), Some((0, 2)));
    assert_eq!(selection_columns_for_row(1, "a", (start, end)), None);
    let lines = vec![
        SelectableLine { row: 1, text: "ab cd   ".to_string() },
        SelectableLine { row: 2, text: "middle".to_string() },
        SelectableLine { row: 3, text: "xyz".to_string() },
    ];
    let selection = MouseSelection { anchor: end, cursor: start, dragging: true };
    assert_eq!(normalized_selection(&selection), (start, end));
    assert_eq!(selected_text(&lines, &selection).as_deref(), Some(" cd\nmiddle\nxy"));
}
