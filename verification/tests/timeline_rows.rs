use roder_tui::timeline_rows::{
    HunkDiffLine, HunkDiffLineKind, HunkRecord, HunkRollbackState, HunkTrackerRow, MediaArtifact,
    MediaKind, MediaPreview, MediaPreviewStrategy, MediaTimelineRow, StyledLine, TextRole,
    MAX_HUNK_DIFF_LINES,
};

fn line_text(line: &StyledLine) -> String {
    line.iter().map(|(text, _)| text.as_str()).collect::<String>()
}

fn all_text(lines: &[StyledLine]) -> String {
    lines.iter().map(line_text).collect::<Vec<_>>().join("\n")
}

fn artifact() -> MediaArtifact {
    MediaArtifact {
        id: "media-1".to_string(),
        kind: MediaKind::Image,
        mime_type: "image/png".to_string(),
        byte_size: 3,
        provider: "fake".to_string(),
        store_path: "/tmp/media.png".to_string(),
    }
}

#[test]
fn media_row_renders_fallback_preview_and_path() {
    let row = MediaTimelineRow::new(
        artifact(),
        Some(MediaPreview {
            artifact_id: "media-1".to_string(),
            strategy: MediaPreviewStrategy::MetadataOnly,
            fallback_label: "fake image/png".to_string(),
        }),
    );
    let mut lines = Vec::new();
    row.render(&mut lines);
    let text = all_text(&lines);
    assert!(text.contains("/tmp/media.png"));
    assert!(text.contains("fake image/png"));
}

#[test]
fn media_row_lines_are_exact() {
    let row = MediaTimelineRow::new(
        artifact(),
        Some(MediaPreview {
            artifact_id: "media-1".to_string(),
            strategy: MediaPreviewStrategy::Thumbnail,
            fallback_label: "fake image/png".to_string(),
        }),
    );
    let mut lines = vec![vec![("earlier".to_string(), TextRole::Text)]];
    row.render(&mut lines);
    assert_eq!(lines.len(), 4);
    assert_eq!(line_text(&lines[0]), "earlier");
    assert_eq!(line_text(&lines[1]), "  media image image/png 3 bytes");
    assert_eq!(lines[1][0].1, TextRole::Tool);
    assert_eq!(line_text(&lines[2]), "    fake · /tmp/media.png");
    assert_eq!(lines[2][1].1, TextRole::Muted);
    assert_eq!(line_text(&lines[3]), "    thumbnail: fake image/png");
}

#[test]
fn media_row_without_preview_has_two_lines() {
    let mut a = artifact();
    a.kind = MediaKind::Other;
    a.byte_size = 1024;
    let row = MediaTimelineRow::new(a, None);
    let mut lines = Vec::new();
    row.render(&mut lines);
    assert_eq!(lines.len(), 2);
    assert_eq!(line_text(&lines[0]), "  media media image/png 1024 bytes");
}

fn hunk(diff_len: usize, rollback: HunkRollbackState) -> HunkRecord {
    let mut diff = Vec::new();
    for i in 0..diff_len {
        let kind = match i % 3 {
            0 => HunkDiffLineKind::Context,
            1 => HunkDiffLineKind::Added,
            _ => HunkDiffLineKind::Removed,
        };
        diff.push(HunkDiffLine { kind, text: format!("line {i}") });
    }
    HunkRecord { id: "h1".to_string(), path: "src/a.rs".to_string(), rollback, diff }
}

#[test]
fn hunk_row_title_names_id_state_and_path() {
    let row = HunkTrackerRow::new(hunk(2, HunkRollbackState::Available));
    let mut lines = Vec::new();
    row.render(true, false, &mut lines);
    assert_eq!(lines.len(), 1);
    assert_eq!(line_text(&lines[0]), "  Δ hunk h1 rollback available in src/a.rs");
    assert_eq!(lines[0][1].1, TextRole::TextBold);
    let mut plain = Vec::new();
    row.render(false, false, &mut plain);
    assert_eq!(plain[0][1].1, TextRole::Text);
    assert_eq!(row.hunk_id(), "h1");
    assert!(row.can_expand());
}

#[test]
fn hunk_row_asks_before_rollback_and_shows_diff_when_expanded() {
    let mut row = HunkTrackerRow::new(hunk(3, HunkRollbackState::Conflict));
    row.start_rollback_confirmation();
    let mut lines = Vec::new();
    row.render(false, true, &mut lines);
    assert_eq!(lines.len(), 5);
    assert_eq!(line_text(&lines[0]), "  Δ hunk h1 rollback conflict in src/a.rs");
    assert_eq!(line_text(&lines[1]), "    confirm rollback? y / n");
    assert_eq!(lines[1][0].1, TextRole::ErrorBold);
    assert_eq!(line_text(&lines[2]), "     line 0");
    assert_eq!(lines[2][1].1, TextRole::Muted);
    assert_eq!(line_text(&lines[3]), "    +line 1");
    assert_eq!(lines[3][1].1, TextRole::Tool);
    assert_eq!(line_text(&lines[4]), "    -line 2");
    assert_eq!(lines[4][1].1, TextRole::Error);
}

#[test]
fn hunk_row_caps_expanded_diff() {
    let row = HunkTrackerRow::new(hunk(30, HunkRollbackState::Applied));
    let mut lines = Vec::new();
    row.render(false, true, &mut lines);
    assert_eq!(lines.len(), 1 + MAX_HUNK_DIFF_LINES);
    assert_eq!(line_text(&lines[0]), "  Δ hunk h1 rolled back in src/a.rs");
    let empty = HunkTrackerRow::new(hunk(0, HunkRollbackState::Unavailable));
    assert!(!empty.can_expand());
    let mut lines = Vec::new();
    empty.render(false, true, &mut lines);
    assert_eq!(line_text(&lines[0]), "  Δ hunk h1 rollback unavailable in src/a.rs");
    assert_eq!(lines.len(), 1);
}
