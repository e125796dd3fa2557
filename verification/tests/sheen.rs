use roder_tui::sheen::{split_text_with_sheen, working_status_runs};
use roder_tui::status::{
    TOP_STATUS_ANIMATION_FPS, WORKING_SHEEN_ACTIVE_FRAMES, WORKING_SHEEN_LOOP_FRAMES,
};
use roder_tui::theme::{Theme, ThemeColor};

fn runs(list: &[(&str, bool)]) -> Vec<(String, bool)> {
    list.iter().map(|(t, lit)| (t.to_string(), *lit)).collect()
}

#[test]
fn sheen_lights_characters_near_its_centre() {
    assert_eq!(
        split_text_with_sheen("Working", 3),
        runs(&[("W", false), ("orkin", true), ("g", false)])
    );
    assert_eq!(split_text_with_sheen("Working", 0), runs(&[("Wor", true), ("king", false)]));
    assert_eq!(split_text_with_sheen("ab", 9), runs(&[("ab", false)]));
    assert_eq!(split_text_with_sheen("", 0), Vec::new());
}

#[test]
fn working_status_sheen_sweeps_then_rests_as_runs() {
    let lit = working_status_runs("Working", 0);
    assert_eq!(lit.iter().map(|(t, _)| t.as_str()).collect::<String>(), "Working");
    assert!(lit.iter().any(|(_, l)| *l));
    assert!(lit.iter().any(|(_, l)| !*l));

    let resting = working_status_runs("Working", WORKING_SHEEN_ACTIVE_FRAMES);
    assert_eq!(resting, runs(&[("Working", false)]));

    let looped = working_status_runs("Working", WORKING_SHEEN_LOOP_FRAMES);
    assert_eq!(looped, lit);
    assert_eq!(working_status_runs("", 0), runs(&[("", false)]));
}

#[test]
fn working_status_sheen_highlights_one_character_then_loops() {
    let theme = Theme::for_dark_background(true);
    assert_eq!(WORKING_SHEEN_LOOP_FRAMES, TOP_STATUS_ANIMATION_FPS);
    assert!(WORKING_SHEEN_ACTIVE_FRAMES < TOP_STATUS_ANIMATION_FPS);
    assert_ne!(theme.working_sheen, ThemeColor::Indexed(231));
    let colour = |lit: bool| if lit { theme.working_sheen } else { theme.working };
    let spans = working_status_runs("Working", 0);
    assert_eq!(spans.iter().map(|(t, _)| t.as_str()).collect::<String>(), "Working");
    assert!(spans.iter().any(|(_, lit)| colour(*lit) == theme.working_sheen));
    assert!(spans.iter().any(|(_, lit)| colour(*lit) == theme.working));

    let resting = working_status_runs("Working", WORKING_SHEEN_ACTIVE_FRAMES);
    assert_eq!(resting.iter().map(|(t, _)| t.as_str()).collect::<String>(), "Working");
    assert!(resting.iter().all(|(_, lit)| colour(*lit) == theme.working));

    let looped = working_status_runs("Working", WORKING_SHEEN_LOOP_FRAMES);
    assert_eq!(looped, spans);
}
