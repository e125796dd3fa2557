use roder_tui::terminal::{color_depth_from_env, dark_background_from_colorfgbg};
use roder_tui::theme::TerminalColorDepth;
use roder_tui::terminal::{should_ask_tmux, tmux_info_has_truecolor};

#[test]
fn tmux_truecolor_detection_accepts_rgb_or_tc_capabilities() {
    assert!(tmux_info_has_truecolor(" 199: RGB: (flag) true\n"));
    assert!(tmux_info_has_truecolor(" 227: Tc: (flag) true\n"));
    assert!(!tmux_info_has_truecolor(" 199: RGB: [missing]\n"));
    assert!(!tmux_info_has_truecolor(" 227: Tc: [missing]\n"));
}

#[test]
fn tmux_truecolor_detection_reads_unnumbered_and_later_lines() {
    assert!(tmux_info_has_truecolor("Tc: ENABLED"));
    assert!(tmux_info_has_truecolor("12: colors: 256\r\n13: RGB: True\r\n"));
    assert!(!tmux_info_has_truecolor("x1: RGB: true"));
    assert!(!tmux_info_has_truecolor("RGB"));
    assert!(!tmux_info_has_truecolor(""));
}

#[test]
fn colorfgbg_decides_dark_background() {
    assert!(dark_background_from_colorfgbg(Some("15;0")));
    assert!(!dark_background_from_colorfgbg(Some("0;15")));
    assert!(dark_background_from_colorfgbg(Some("0;default;8")));
    assert!(!dark_background_from_colorfgbg(Some("0;7")));
    assert!(dark_background_from_colorfgbg(Some("0;300")));
    assert!(dark_background_from_colorfgbg(Some("garbage")));
    assert!(dark_background_from_colorfgbg(Some("0;")));
    assert!(dark_background_from_colorfgbg(None));
}

#[test]
fn color_depth_reads_colorterm_tmux_then_term() {
    assert_eq!(color_depth_from_env("TrueColor", false, "xterm"), TerminalColorDepth::TrueColor);
    assert_eq!(color_depth_from_env("", true, "xterm"), TerminalColorDepth::TrueColor);
    assert_eq!(color_depth_from_env("", false, "xterm-24bit"), TerminalColorDepth::TrueColor);
    assert_eq!(color_depth_from_env("", false, "xterm-256color"), TerminalColorDepth::Ansi256);
}

#[test]
fn tmux_is_asked_only_when_colorterm_does_not_name_truecolor() {
    assert!(!should_ask_tmux("TrueColor"));
    assert!(!should_ask_tmux("24bit"));
    assert!(should_ask_tmux(""));
    assert!(should_ask_tmux("256color"));
}
