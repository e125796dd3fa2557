use roder_tui::settings::{
    patch_tui_config_literal, patch_tui_config_text, toml_value_literal, ConfigPatchError,
    ConfigValue,
};

fn path(segments: &[&str]) -> Vec<String> {
    segments.iter().map(|s| s.to_string()).collect()
}

#[test]
fn patch_replaces_existing_key_in_tui_table() {
    let contents = "[tui]\nspinner = \"dots\"\ntheme = \"x\"\n";
    let updated = patch_tui_config_text(
        contents,
        &path(&["spinner"]),
        &ConfigValue::Text("line".to_string()),
    )
    .unwrap();
    assert_eq!(updated, "[tui]\nspinner = \"line\"\ntheme = \"x\"\n");
}

#[test]
fn patch_adds_key_at_end_of_its_table() {
    let contents = "[tui]\ntheme = 1\n[other]\nspinner = 2";
    let updated =
        patch_tui_config_text(contents, &path(&["spinner"]), &ConfigValue::Integer(7)).unwrap();
    assert_eq!(updated, "[tui]\ntheme = 1\nspinner = 7\n[other]\nspinner = 2\n");
}

#[test]
fn patch_appends_missing_nested_table_after_blank_line() {
    let contents = "model = \"x\"";
    let updated = patch_tui_config_text(
        contents,
        &path(&["timeline", "message_folding"]),
        &ConfigValue::Boolean(true),
    )
    .unwrap();
    assert_eq!(updated, "model = \"x\"\n\n[tui.timeline]\nmessage_folding = true\n");
}

#[test]
fn patch_appends_table_without_extra_blank_line() {
    let updated = patch_tui_config_text(
        "a = 1\n\n",
        &path(&["spinner"]),
        &ConfigValue::Text("dots".to_string()),
    )
    .unwrap();
    assert_eq!(updated, "a = 1\n\n[tui]\nspinner = \"dots\"\n");
    let empty = patch_tui_config_text(
        "",
        &path(&["spinner"]),
        &ConfigValue::Text("dots".to_string()),
    )
    .unwrap();
    assert_eq!(empty, "[tui]\nspinner = \"dots\"\n");
}

#[test]
fn patch_ignores_comments_and_other_tables_with_the_same_key() {
    let contents = "[other]\nspinner = 1\n[tui]\n# spinner = 2\n  [ tui.timeline ]\nspinner = 3\n";
    let updated =
        patch_tui_config_literal(contents, &path(&["spinner"]), "false").unwrap();
    assert_eq!(
        updated,
        "[other]\nspinner = 1\n[tui]\n# spinner = 2\nspinner = false\n  [ tui.timeline ]\nspinner = 3\n"
    );
}

#[test]
fn patch_finds_indented_header_and_drops_carriage_returns() {
    let contents = "  [tui]  \r\n spinner=\"a\"\r\n";
    let updated = patch_tui_config_literal(contents, &path(&["spinner"]), "\"b\"").unwrap();
    assert_eq!(updated, "  [tui]  \nspinner = \"b\"\n");
}

#[test]
fn patch_rejects_empty_key_path() {
    let r = patch_tui_config_literal("[tui]\n", &Vec::new(), "1");
    assert_eq!(r, Err(ConfigPatchError::EmptyKeyPath));
    let r = patch_tui_config_text("[tui]\n", &Vec::new(), &ConfigValue::Boolean(false));
    assert_eq!(r, Err(ConfigPatchError::EmptyKeyPath));
}

#[test]
fn value_literals_follow_toml_forms() {
    assert_eq!(toml_value_literal(&ConfigValue::Boolean(true)), "true");
    assert_eq!(toml_value_literal(&ConfigValue::Boolean(false)), "false");
    assert_eq!(toml_value_literal(&ConfigValue::Integer(0)), "0");
    assert_eq!(toml_value_literal(&ConfigValue::Integer(-42)), "-42");
    assert_eq!(toml_value_literal(&ConfigValue::Integer(i64::MIN)), "-9223372036854775808");
    assert_eq!(toml_value_literal(&ConfigValue::Integer(i64::MAX)), "9223372036854775807");
    assert_eq!(toml_value_literal(&ConfigValue::Text("dots".to_string())), "\"dots\"");
    assert_eq!(
        toml_value_literal(&ConfigValue::Text("a\"b\\c\n".to_string())),
        "\"a\\\"b\\\\c\\n\""
    );
}

#[test]
fn patching_twice_gives_the_text_of_patching_once() {
    let cases = [
        "[tui]\nspinner = \"dots\"\ntheme = \"x\"\n",
        "[tui]\ntheme = 1\n[other]\nspinner = 2",
        "model = \"x\"",
        "",
        "[tui.timeline]\r\nmessage_folding = false\r\n",
    ];
    for contents in cases {
        for segments in [path(&["spinner"]), path(&["timeline", "message_folding"])] {
            let once = patch_tui_config_literal(contents, &segments, "true").unwrap();
            let twice = patch_tui_config_literal(&once, &segments, "true").unwrap();
            assert_eq!(once, twice);
        }
    }
}
