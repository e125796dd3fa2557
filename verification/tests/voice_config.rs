use roder_tui::voice_config::{fallback_voice_config_from_text, VoiceConfig};

#[test]
fn fallback_voice_config_reads_voice_table_by_hand() {
    let contents = "[tui]\nspinner = \"dots\"\n[tui.voice]\nenabled = true\nmode = \"hold\"\nprovider = 'openai-speech'\nmodel = \"gpt-4o-mini-transcribe\"\nhold_idle_stop_millis = 1500\nlanguage = en\n[other]\nmodel = \"x\"\n";
    let config = fallback_voice_config_from_text(contents).unwrap();
    assert_eq!(
        config,
        VoiceConfig {
            enabled: Some(true),
            mode: Some("hold".to_string()),
            record_command: None,
            provider: Some("openai-speech".to_string()),
            model: Some("gpt-4o-mini-transcribe".to_string()),
            language: None,
            mime_type: None,
            hold_idle_stop_millis: Some(1500),
        }
    );
}

#[test]
fn fallback_voice_config_is_none_without_voice_settings() {
    assert_eq!(fallback_voice_config_from_text("[tui]\nspinner = \"dots\"\n"), None);
    assert_eq!(fallback_voice_config_from_text("[tui.voice]\n# nothing\n"), None);
    let odd = fallback_voice_config_from_text("[tui.voice]\nenabled = yes\nhold_idle_stop_millis = -3\n").unwrap();
    assert_eq!(odd.enabled, None);
    assert_eq!(odd.hold_idle_stop_millis, None);
}

#[test]
fn settings_numbers_parse_like_std() {
    use_parse();
}

fn use_parse() {
    for text in ["0", "42", "+7", "007", "18446744073709551615", "18446744073709551616", "", "+", "-1", "1 2", "x"] {
        let chars: Vec<char> = text.chars().collect();
        assert_eq!(
            roder_tui::tools::parse_u64_range(&chars, 0, chars.len()),
            text.parse::<u64>().ok(),
            "{text}"
        );
    }
}
