use roder_tui::status::{
    advance_top_status_animation, format_working_elapsed, padded_spinner_frame, spinner_frame,
    spinner_frame_width, top_status_animation_interval, top_status_animation_poll_timeout,
    working_sheen_index, working_status_label, CopiedHelper, WorkingSpinner,
    COPIED_HELPER_DURATION, TOP_STATUS_ANIMATION_FPS, WORKING_SHEEN_ACTIVE_FRAMES,
    WORKING_SHEEN_LOOP_FRAMES,
};

#[test]
fn working_status_label_reflects_server_side_compaction() {
    assert_eq!(working_status_label(false), "Working");
    assert_eq!(working_status_label(true), "Compacting context");
}

#[test]
fn working_elapsed_formats_like_status_text() {
    assert_eq!(format_working_elapsed(9), "9s");
    assert_eq!(format_working_elapsed(175), "2m 55s");
    assert_eq!(format_working_elapsed(3_725), "1h 2m 5s");
}

#[test]
fn working_elapsed_keeps_zero_units_inside_larger_ones() {
    assert_eq!(format_working_elapsed(0), "0s");
    assert_eq!(format_working_elapsed(60), "1m 0s");
    assert_eq!(format_working_elapsed(3_600), "1h 0m 0s");
    assert_eq!(format_working_elapsed(90_061), "25h 1m 1s");
}

#[test]
fn spinner_frame_cycles_configured_frames() {
    assert_eq!(spinner_frame(WorkingSpinner::Line, 0), "-");
    assert_eq!(spinner_frame(WorkingSpinner::Line, 1), "\\");
    assert_eq!(spinner_frame(WorkingSpinner::Line, 4), "-");
}

#[test]
fn padded_spinner_frames_keep_status_width_stable() {
    for spinner in WorkingSpinner::all() {
        let width = spinner_frame_width(*spinner);
        for frame in 0..16 {
            assert_eq!(padded_spinner_frame(*spinner, frame).chars().count(), width);
        }
    }
}

#[test]
fn spinner_widths_are_the_widest_frames() {
    assert_eq!(spinner_frame_width(WorkingSpinner::Dots), 3);
    assert_eq!(spinner_frame_width(WorkingSpinner::Line), 1);
    assert_eq!(spinner_frame_width(WorkingSpinner::Arc), 3);
    assert_eq!(spinner_frame_width(WorkingSpinner::Pulse), 1);
    assert_eq!(padded_spinner_frame(WorkingSpinner::Dots, 0), ".  ");
    assert_eq!(padded_spinner_frame(WorkingSpinner::Arc, 4), ")  ");
}

#[test]
fn working_spinner_parses_config_ids() {
    assert_eq!(
        WorkingSpinner::from_config(Some("line")),
        WorkingSpinner::Line
    );
    assert_eq!(
        WorkingSpinner::from_config(Some("unknown")),
        WorkingSpinner::Dots
    );
    assert_eq!(WorkingSpinner::from_config(None), WorkingSpinner::Dots);
}

#[test]
fn spinner_ids_round_trip_through_config() {
    for spinner in WorkingSpinner::all() {
        assert_eq!(WorkingSpinner::from_config(Some(spinner.id())), *spinner);
    }
    assert_eq!(WorkingSpinner::Pulse.label(), "Pulse");
    assert_eq!(WorkingSpinner::Arc.frames().len(), 6);
}

#[test]
fn top_status_animation_interval_is_locked_to_calm_6fps() {
    assert_eq!(TOP_STATUS_ANIMATION_FPS, 6);
    assert_eq!(top_status_animation_interval(), 166_666_666);
}

#[test]
fn top_status_animation_advances_at_most_one_frame_per_tick() {
    let start: u64 = 5_000_000_000;
    let mut next_tick = start + top_status_animation_interval();
    let mut frame = 10;

    advance_top_status_animation(&mut frame, &mut next_tick, start);
    assert_eq!(frame, 10);
    assert_eq!(
        top_status_animation_poll_timeout(next_tick, start),
        top_status_animation_interval()
    );

    let delayed = start + 1_000_000_000;
    advance_top_status_animation(&mut frame, &mut next_tick, delayed);
    assert_eq!(frame, 11);
    assert_eq!(next_tick, delayed + top_status_animation_interval());
}

#[test]
fn second_check_at_the_same_instant_does_not_advance() {
    let now: u64 = 1_000;
    let mut next_tick: u64 = 0;
    let mut frame: u64 = u64::MAX;
    advance_top_status_animation(&mut frame, &mut next_tick, now);
    assert_eq!(frame, 0);
    advance_top_status_animation(&mut frame, &mut next_tick, now);
    assert_eq!(frame, 0);
    assert_eq!(top_status_animation_poll_timeout(next_tick, now + 200_000_000), 0);
}

#[test]
fn working_status_sheen_sweeps_then_rests() {
    assert_eq!(WORKING_SHEEN_LOOP_FRAMES, TOP_STATUS_ANIMATION_FPS);
    assert!(WORKING_SHEEN_ACTIVE_FRAMES < TOP_STATUS_ANIMATION_FPS);
    assert_eq!(working_sheen_index("Working", 0), Some(0));
    assert_eq!(working_sheen_index("Working", 1), Some(1));
    assert_eq!(working_sheen_index("Working", 3), Some(5));
    assert_eq!(working_sheen_index("Working", WORKING_SHEEN_ACTIVE_FRAMES), None);
    assert_eq!(
        working_sheen_index("Working", WORKING_SHEEN_LOOP_FRAMES),
        working_sheen_index("Working", 0)
    );
    assert_eq!(working_sheen_index("", 0), None);
    assert_eq!(working_sheen_index("ab", 3), Some(1));
}

#[test]
fn copied_helper_expires_after_duration() {
    let start: u64 = 7_000_000_000;
    let helper = CopiedHelper { shown_at: start };

    assert!(helper.visible(start + COPIED_HELPER_DURATION - 1_000_000));
    assert!(!helper.visible(start + COPIED_HELPER_DURATION));
    assert!(helper.visible(start - 1));
}
