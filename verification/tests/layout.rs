use roder_tui::commands::{built_in_command_catalog, CommandDescriptor};
use roder_tui::composer::FileCompletionItem;
use roder_tui::layout::{
    centered_rect, chrome_dialog_rect, context_window_popup_area, copied_helper_area,
    copied_helper_width, dialog_width, event_log_height, image_attachment_height,
    image_attachment_remove_buttons, inline_completion_height_when_mentions_hidden,
    inline_completion_menu_height, queued_prompt_action_label, queued_prompt_buttons,
    queued_prompt_height, rect_contains, right_pad_for_popup, shadow_rect,
    slash_command_menu_height, slash_command_preview_height, transcript_scroll_offset,
    voice_helper_area, voice_helper_width, ImageAttachmentRemoveButton, QueuedPromptAction,
    Rect, MAX_VISIBLE_SLASH_COMMANDS,
};

#[test]
fn event_log_height_only_allocates_space_when_toggled_on() {
    assert_eq!(event_log_height(false, 10), 0);
    assert_eq!(event_log_height(true, 0), 3);
    assert_eq!(event_log_height(true, 3), 5);
    assert_eq!(event_log_height(true, 100), 8);
}

#[test]
fn transcript_scroll_offset_follows_latest_lines() {
    assert_eq!(transcript_scroll_offset(3, 10), 0);
    assert_eq!(transcript_scroll_offset(10, 10), 0);
    assert_eq!(transcript_scroll_offset(14, 10), 4);
}

#[test]
fn image_attachment_height_only_allocates_when_images_are_attached() {
    assert_eq!(image_attachment_height(0), 0);
    assert_eq!(image_attachment_height(1), 2);
    assert_eq!(image_attachment_height(3), 4);
    assert_eq!(image_attachment_height(10), 4);
}

#[test]
fn queued_prompt_height_tracks_visible_rows_and_overflow() {
    assert_eq!(queued_prompt_height(0), 0);
    assert_eq!(queued_prompt_height(1), 2);
    assert_eq!(queued_prompt_height(3), 4);
    assert_eq!(queued_prompt_height(4), 5);
}

#[test]
fn copied_helper_area_sits_above_prompt_right_edge() {
    let composer = Rect::new(0, 20, 100, 3);
    let area = copied_helper_area(composer).expect("helper should fit above composer");

    assert_eq!(area.y, 19);
    assert_eq!(area.height, 1);
    assert_eq!(area.width, copied_helper_width());
    assert_eq!(area.x + area.width, 98);
}

#[test]
fn copied_helper_area_is_absent_on_top_row() {
    assert_eq!(copied_helper_area(Rect::new(0, 0, 100, 3)), None);
}

#[test]
fn voice_helper_sits_inside_composer_top_right() {
    let composer = Rect::new(4, 5, 80, 3);
    let area = voice_helper_area(composer).expect("voice helper should fit");

    assert_eq!(area.y, composer.y);
    assert_eq!(area.height, 1);
    assert_eq!(area.width, voice_helper_width());
    assert!(area.x >= composer.x);
    assert!(area.x + area.width <= composer.x + composer.width);
}

#[test]
fn rect_contains_uses_half_open_bounds() {
    let area = Rect::new(10, 20, 5, 3);

    assert!(rect_contains(area, 10, 20));
    assert!(rect_contains(area, 14, 22));
    assert!(!rect_contains(area, 15, 22));
    assert!(!rect_contains(area, 14, 23));
    assert!(!rect_contains(area, 9, 20));
    assert!(!rect_contains(area, 10, 19));
}

#[test]
fn rect_new_clamps_size_to_the_coordinate_range() {
    let r = Rect::new(65_530, 65_000, 100, 1_000);
    assert_eq!(r.width, 5);
    assert_eq!(r.height, 535);
    assert_eq!(r.right(), 65_535);
    assert!(Rect::new(3, 3, 0, 4).is_empty());
}

#[test]
fn image_attachment_remove_buttons_track_visible_rows() {
    let buttons = image_attachment_remove_buttons(Rect::new(10, 20, 80, 4), 5);

    assert_eq!(
        buttons,
        vec![
            ImageAttachmentRemoveButton {
                index: 2,
                area: Rect::new(87, 21, 3, 1),
            },
            ImageAttachmentRemoveButton {
                index: 3,
                area: Rect::new(87, 22, 3, 1),
            },
            ImageAttachmentRemoveButton {
                index: 4,
                area: Rect::new(87, 23, 3, 1),
            },
        ]
    );
}

#[test]
fn queued_prompt_buttons_create_actions_for_visible_rows() {
    let buttons = queued_prompt_buttons(Rect::new(10, 20, 100, 5), 2);

    assert_eq!(buttons.len(), 6);
    assert_eq!(buttons[0].index, 0);
    assert_eq!(buttons[0].action, QueuedPromptAction::Edit);
    assert_eq!(buttons[1].action, QueuedPromptAction::Steer);
    assert_eq!(buttons[2].action, QueuedPromptAction::Delete);
    assert_eq!(buttons[3].index, 1);
    assert_eq!(buttons[3].area.y, 22);
}

#[test]
fn queued_prompt_action_labels_are_short_words() {
    assert_eq!(queued_prompt_action_label(QueuedPromptAction::Edit), "edit");
    assert_eq!(queued_prompt_action_label(QueuedPromptAction::Steer), "steer");
    assert_eq!(queued_prompt_action_label(QueuedPromptAction::Delete), "del");
}

#[test]
fn slash_command_menu_height_tracks_visible_matches() {
    let commands = built_in_command_catalog();
    let matches = commands.iter().collect::<Vec<_>>();

    assert_eq!(slash_command_menu_height(None::<&[CommandDescriptor]>), 0);
    assert_eq!(
        slash_command_menu_height(Some(&[] as &[CommandDescriptor])),
        0
    );
    assert_eq!(slash_command_menu_height(Some(&matches[..1])), 2);
    assert_eq!(
        slash_command_menu_height(Some(&matches)),
        1 + MAX_VISIBLE_SLASH_COMMANDS as u16
    );
    assert_eq!(
        slash_command_menu_height(Some(&matches[..2])),
        1 + MAX_VISIBLE_SLASH_COMMANDS as u16
    );
    let many = vec![0u8; 40];
    assert_eq!(
        slash_command_menu_height(Some(&many[..])),
        1 + MAX_VISIBLE_SLASH_COMMANDS as u16
    );
}

#[test]
fn slash_command_preview_height_is_collapsed_to_one_line() {
    let commands = built_in_command_catalog();
    assert_eq!(
        slash_command_preview_height(None::<&[CommandDescriptor]>),
        0
    );
    assert_eq!(
        slash_command_preview_height(Some(&[] as &[CommandDescriptor])),
        0
    );
    assert_eq!(slash_command_preview_height(Some(&commands)), 1);
}

#[test]
fn open_mention_popup_suppresses_legacy_inline_completion_height() {
    let matches = [FileCompletionItem {
        path: "src/lib.rs".to_string(),
    }];

    assert_eq!(
        inline_completion_height_when_mentions_hidden(Some(&matches), false),
        2
    );
    assert_eq!(
        inline_completion_height_when_mentions_hidden(Some(&matches), true),
        0
    );
    let many = vec![0u8; 30];
    assert_eq!(inline_completion_menu_height(Some(&many[..])), 13);
}

#[test]
fn context_window_popup_area_sits_top_right_and_clamps() {
    assert_eq!(
        context_window_popup_area(Rect::new(0, 0, 120, 40)),
        Some(Rect::new(66, 0, 54, 14))
    );
    assert_eq!(
        context_window_popup_area(Rect::new(5, 2, 30, 8)),
        Some(Rect::new(5, 2, 30, 8))
    );
    assert_eq!(context_window_popup_area(Rect::new(0, 0, 20, 8)), None);
}

#[test]
fn dialog_width_keeps_margin_when_roomy() {
    assert_eq!(dialog_width(Rect::new(0, 0, 118, 40)), 64);
}

#[test]
fn shadow_stays_inside_bounds() {
    let bounds = Rect::new(0, 0, 20, 8);
    let shadow = shadow_rect(Rect::new(2, 2, 16, 5), bounds);

    assert_eq!(shadow, Rect::new(4, 3, 16, 5));
}

#[test]
fn centered_and_chrome_dialog_rects_fit_the_area() {
    let area = Rect::new(0, 0, 100, 40);
    let centered = centered_rect(area, 20, 10);
    assert_eq!(centered, Rect::new(40, 15, 20, 10));
    let dialog = chrome_dialog_rect(area);
    assert!(dialog.x >= area.x && dialog.right() <= area.right());
    assert!(dialog.y >= area.y && dialog.bottom() <= area.bottom());
}

#[test]
fn popup_padding_fills_the_width_with_at_least_one_space() {
    assert_eq!(right_pad_for_popup("left", "right", 12), "   ");
    assert_eq!(right_pad_for_popup("left", "right", 3), " ");
}
