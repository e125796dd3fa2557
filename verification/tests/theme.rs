use roder_tui::policy::PolicyMode;
use roder_tui::theme::{
    user_message_bg_for, BorderOverride, BorderShape, TerminalColorDepth, Theme, ThemeColor,
    ThemeOverrides,
};

#[test]
fn theme_primary_text_uses_terminal_default_for_contrast() {
    for dark in [true, false] {
        let theme = Theme::for_dark_background(dark);
        assert_eq!(theme.text, ThemeColor::Reset);
        assert_eq!(theme.text_strong, ThemeColor::Reset);
    }
}

#[test]
fn baseline_dialog_surface_uses_terminal_background() {
    for dark in [true, false] {
        let theme = Theme::for_dark_background(dark);
        assert_eq!(theme.body_background, None);
        assert_eq!(theme.dialog_bg, ThemeColor::Reset);
        assert_eq!(theme.dialog_shadow, ThemeColor::Reset);
    }
}

#[test]
fn commentary_theme_role_uses_white_on_dark_backgrounds() {
    assert_eq!(
        Theme::for_dark_background(true).commentary,
        ThemeColor::Indexed(15)
    );
    assert_eq!(
        Theme::for_dark_background(false).commentary,
        ThemeColor::Indexed(16)
    );
}

#[test]
fn user_message_background_has_ansi_fallback_and_truecolor_upgrade() {
    assert_eq!(
        Theme::for_terminal_capabilities(true, TerminalColorDepth::Ansi256).user_message_bg,
        ThemeColor::Indexed(236)
    );
    assert_eq!(
        Theme::for_terminal_capabilities(true, TerminalColorDepth::TrueColor).user_message_bg,
        ThemeColor::Rgb(0x2c, 0x2c, 0x2c)
    );
    assert_eq!(
        Theme::for_terminal_capabilities(false, TerminalColorDepth::Ansi256).user_message_bg,
        ThemeColor::Indexed(254)
    );
    assert_eq!(
        Theme::for_terminal_capabilities(false, TerminalColorDepth::TrueColor).user_message_bg,
        ThemeColor::Rgb(0xef, 0xef, 0xef)
    );
    assert_eq!(user_message_bg_for(false, TerminalColorDepth::Ansi256), ThemeColor::Indexed(254));
}

#[test]
fn semantic_theme_roles_do_not_use_named_black_or_white() {
    for dark in [true, false] {
        let theme = Theme::for_dark_background(dark);
        let colors = [
            theme.text,
            theme.text_strong,
            theme.commentary,
            theme.muted,
            theme.subtle,
            theme.accent,
            theme.accent_soft,
            theme.tool,
            theme.tool_running,
            theme.working,
            theme.working_sheen,
            theme.diff_added,
            theme.diff_added_bg,
            theme.diff_removed,
            theme.diff_removed_bg,
            theme.diff_line_number,
            theme.shell,
            theme.error,
            theme.border,
            theme.mode_default,
            theme.mode_accept_all,
            theme.mode_plan,
            theme.mode_bypass,
            theme.dialog,
            theme.dialog_bg,
            theme.dialog_shadow,
            theme.dialog_key_bg,
            theme.selection_fg,
            theme.selection_bg,
        ];
        assert!(!colors.contains(&ThemeColor::White));
        assert!(!colors.contains(&ThemeColor::Black));
    }
}

#[test]
fn policy_mode_styles_are_distinct() {
    for dark in [true, false] {
        let theme = Theme::for_dark_background(dark);
        let colors = [
            theme.policy_mode_color(PolicyMode::Default),
            theme.policy_mode_color(PolicyMode::AcceptAll),
            theme.policy_mode_color(PolicyMode::Plan),
            theme.policy_mode_color(PolicyMode::Bypass),
        ];

        for (index, color) in colors.iter().enumerate() {
            assert!(
                colors
                    .iter()
                    .enumerate()
                    .all(|(other_index, other)| index == other_index || color != other),
                "{colors:?}"
            );
        }
    }
}

fn no_overrides() -> ThemeOverrides {
    ThemeOverrides {
        text: None,
        commentary: None,
        thinking: None,
        muted: None,
        subtle: None,
        accent: None,
        accent_soft: None,
        tool: None,
        working: None,
        working_sheen: None,
        diff_added: None,
        diff_added_bg: None,
        diff_removed: None,
        diff_removed_bg: None,
        shell: None,
        error: None,
        border: None,
        mode_plan: None,
        mode_default: None,
        mode_accept_all: None,
        mode_bypass: None,
        selection_bg: None,
        selection_fg: None,
        user_message_bg: None,
        dialog: None,
        dialog_key_bg: None,
        hides_thinking: false,
        background: None,
        border_shape: None,
    }
}

#[test]
fn theme_overrides_replace_only_declared_colours() {
    let base = Theme::for_dark_background(true);
    let mut o = no_overrides();
    o.text = Some(ThemeColor::Rgb(1, 2, 3));
    o.tool = Some(ThemeColor::Indexed(9));
    o.dialog_key_bg = Some(ThemeColor::Indexed(7));
    let t = base.apply_overrides(&o);
    assert_eq!(t.text, ThemeColor::Rgb(1, 2, 3));
    assert_eq!(t.text_strong, ThemeColor::Rgb(1, 2, 3));
    assert_eq!(t.tool, ThemeColor::Indexed(9));
    assert_eq!(t.tool_running, ThemeColor::Indexed(9));
    assert_eq!(t.dialog_key_bg, ThemeColor::Indexed(7));
    assert_eq!(t.accent, base.accent);
    assert_eq!(t.diff_line_number, base.diff_line_number);
    assert!(!t.hide_thinking);
    assert_eq!(base.apply_overrides(&no_overrides()), base);
}

#[test]
fn theme_overrides_sync_popup_surface_with_body() {
    let base = Theme::for_dark_background(false);
    let mut o = no_overrides();
    o.background = Some(ThemeColor::Rgb(10, 10, 10));
    o.hides_thinking = true;
    o.border_shape = Some(BorderOverride::Double);
    let t = base.with_overrides(&o);
    assert_eq!(t.body_background, Some(ThemeColor::Rgb(10, 10, 10)));
    assert_eq!(t.dialog_bg, ThemeColor::Rgb(10, 10, 10));
    assert_eq!(t.dialog_shadow, ThemeColor::Rgb(10, 10, 10));
    assert!(t.hide_thinking);
    assert_eq!(t.border_type, BorderShape::Double);
    assert!(t.borders_visible);
    assert_eq!(t.palette().surface_bg, ThemeColor::Rgb(10, 10, 10));
    assert_eq!(t.palette().border, t.dialog);

    let mut hidden = no_overrides();
    hidden.border_shape = Some(BorderOverride::Hidden);
    let h = base.apply_overrides(&hidden);
    assert!(!h.borders_visible);
    assert_eq!(h.border_type, base.border_type);
    assert_eq!(h.dialog_bg, ThemeColor::Reset);
    assert_eq!(base.palette().surface_bg, ThemeColor::Reset);
}
