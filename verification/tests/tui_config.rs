use roder_tui::tui_config::{
    empty_tui_config, tui_config_from_text, TuiScrollAccelerationConfig, TuiTimelineConfig,
    TuiUserConfigCore,
};

#[test]
fn scroll_acceleration_is_enabled_by_default() {
    assert!(empty_tui_config().scroll_acceleration_enabled());
}

#[test]
fn scroll_acceleration_can_be_disabled_in_config() {
    let config = TuiUserConfigCore {
        scroll_acceleration: Some(TuiScrollAccelerationConfig { enabled: Some(false) }),
        ..empty_tui_config()
    };
    assert!(!config.scroll_acceleration_enabled());
}

#[test]
fn message_folding_is_disabled_by_default() {
    assert!(!empty_tui_config().timeline_settings().message_folding);
}

#[test]
fn message_folding_can_be_enabled_in_config() {
    let config = TuiUserConfigCore {
        timeline: Some(TuiTimelineConfig { message_folding: Some(true) }),
        ..empty_tui_config()
    };
    assert!(config.timeline_settings().message_folding);
}

#[test]
fn config_text_sets_tui_settings() {
    let text = "model = \"x\"\n[tui]\nspinner = \"line\"\nscroll_speed = 2.5\n[tui.scroll_acceleration]\nenabled = false\n[tui.timeline]\nmessage_folding = true\n[tui.voice]\nenabled = true\nmode = \"hold\"\nmodel = \"whisper\"\nhold_idle_stop_millis = 1500\n";
    let c = tui_config_from_text(text);
    assert_eq!(c.spinner.as_deref(), Some("line"));
    assert_eq!(c.scroll_acceleration, Some(TuiScrollAccelerationConfig { enabled: Some(false) }));
    assert_eq!(c.timeline, Some(TuiTimelineConfig { message_folding: Some(true) }));
    let voice = c.voice.expect("voice table");
    assert_eq!(voice.enabled, Some(true));
    assert_eq!(voice.mode.as_deref(), Some("hold"));
    assert_eq!(voice.model.as_deref(), Some("whisper"));
    assert_eq!(voice.provider, None);
    assert_eq!(voice.hold_idle_stop_millis, Some(1500));
}

#[test]
fn config_values_of_the_wrong_type_are_ignored() {
    let text = "[tui]\nspinner = 3\ntimeline = \"no\"\n[tui.voice]\nenabled = \"yes\"\nhold_idle_stop_millis = -5\n";
    let c = tui_config_from_text(text);
    assert_eq!(c.spinner, None);
    assert_eq!(c.timeline, None);
    let voice = c.voice.expect("voice table");
    assert_eq!(voice.enabled, None);
    assert_eq!(voice.hold_idle_stop_millis, None);
    assert_eq!(tui_config_from_text(""), empty_tui_config());
}

#[test]
fn unparsable_config_falls_back_to_voice_lines() {
    let text = "[tui]\nspinner = \n[tui.voice]\nmode = \"toggle\"\nenabled = true\n";
    let c = tui_config_from_text(text);
    assert_eq!(c.spinner, None);
    assert_eq!(c.scroll_acceleration, None);
    let voice = c.voice.expect("voice lines");
    assert_eq!(voice.mode.as_deref(), Some("toggle"));
    assert_eq!(voice.enabled, Some(true));
}

#[test]
fn setting_edits_need_a_table_path() {
    let segs = vec!["timeline".to_string(), "message_folding".to_string()];
    assert!(roder_tui::tui_config::tui_config_table_shape_ok("[tui.timeline]\nmessage_folding = false\n", &segs));
    assert!(roder_tui::tui_config::tui_config_table_shape_ok("model = \"x\"\n", &segs));
    assert!(!roder_tui::tui_config::tui_config_table_shape_ok("tui = 3\n", &segs));
    assert!(!roder_tui::tui_config::tui_config_table_shape_ok("[tui]\ntimeline = \"x\"\n", &segs));
    assert!(!roder_tui::tui_config::tui_config_table_shape_ok("[tui\n", &segs));
    assert!(!roder_tui::tui_config::tui_config_table_shape_ok("[tui]\n", &Vec::new()));
    assert!(roder_tui::tui_config::tui_config_table_shape_ok("[tui]\nspinner = 1\n", &vec!["spinner".to_string()]));
}
