use roder_tui::body_layout::{
    body_rows, find_panel, top_layout_constraints, LayoutHeights, Panel, RowSize,
};

fn heights() -> LayoutHeights {
    LayoutHeights {
        event_log: 0,
        image_attachments: 0,
        queued_prompts: 0,
        plan_panel: 0,
        workflow_trigger: 0,
        inline_completion: 0,
        slash_preview: 0,
        composer: 3,
        workflow_progress: 0,
        slash_menu: 0,
        mention_menu: 0,
    }
}

#[test]
fn top_layout_starts_with_header_and_transcript() {
    assert_eq!(top_layout_constraints(), [RowSize::Length(1), RowSize::Min(5)]);
}

#[test]
fn body_rows_without_optional_panels() {
    let rows = body_rows(&heights(), false);
    assert_eq!(
        rows,
        vec![
            (Panel::Header, RowSize::Length(1)),
            (Panel::Transcript, RowSize::Min(5)),
            (Panel::Composer, RowSize::Length(3)),
            (Panel::Footer, RowSize::Length(1)),
        ]
    );
}

#[test]
fn shown_panels_keep_their_order() {
    let mut h = heights();
    h.event_log = 4;
    h.queued_prompts = 2;
    h.slash_preview = 1;
    h.slash_menu = 8;
    let rows = body_rows(&h, true);
    let panels: Vec<Panel> = rows.iter().map(|(p, _)| *p).collect();
    assert_eq!(
        panels,
        vec![
            Panel::Header,
            Panel::Transcript,
            Panel::EventLog,
            Panel::QueuedPrompts,
            Panel::WorkingLine,
            Panel::SlashPreview,
            Panel::Composer,
            Panel::SlashMenu,
            Panel::Footer,
        ]
    );
    assert_eq!(rows[2].1, RowSize::Length(4));
    assert_eq!(find_panel(&rows, Panel::Composer), Some(6));
    assert_eq!(find_panel(&rows, Panel::MentionMenu), None);
}
