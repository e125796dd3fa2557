use roder_tui::config::{
    fallback_toml_string, fallback_toml_table_assignments, parse_bold_heading_line,
    reasoning_heading_from_delta, toml_assignment_key, yaml_scalar,
};
use roder_tui::plural_s;
use roder_tui::text::{
    roadmap_slash_path, short_id, slash_command_suffix, slice_chars, truncate,
    truncate_for_transcript,
};
use roder_tui::tools::{
    aggregated_output_from_tool_result, is_exec_session_tool, is_raw_tool_name, is_stdin_tool,
    session_id_from_tool_arguments, session_id_from_tool_result, tool_result_is_running,
};

#[test]
fn raw_tool_name_accepts_plain_tool_ids_only() {
    assert!(is_raw_tool_name("update_plan"));
    assert!(is_raw_tool_name("web-search.v1"));
    assert!(!is_raw_tool_name(""));
    assert!(!is_raw_tool_name("Update Plan awaiting approval"));
    assert!(!is_raw_tool_name("Grep path: crates query: thing"));
}

#[test]
fn session_tool_helpers_accept_namespaced_tool_ids() {
    assert!(is_stdin_tool("write_stdin"));
    assert!(is_stdin_tool("functions.write_stdin"));
    assert!(is_exec_session_tool("exec_command"));
    assert!(is_exec_session_tool("functions.exec_command"));
    assert!(!is_exec_session_tool("shell"));
}

#[test]
fn session_tool_names_fold_case_and_accept_underscored_namespaces() {
    assert!(is_stdin_tool("MCP_WRITE_STDIN"));
    assert!(is_exec_session_tool("Exec_Command"));
    assert!(!is_stdin_tool("write_stdin2"));
}

#[test]
fn tool_results_yield_output_session_and_status() {
    let result = "Session id: 42\nStatus: Running\nOutput:\nhello\n  \n";
    assert_eq!(aggregated_output_from_tool_result(result).as_deref(), Some("hello"));
    assert_eq!(session_id_from_tool_result(result), Some(42));
    assert!(tool_result_is_running(result));
    assert!(!tool_result_is_running("Status: done"));
    assert_eq!(aggregated_output_from_tool_result("Output:\n   "), None);
    assert_eq!(aggregated_output_from_tool_result("no marker"), None);
    assert_eq!(session_id_from_tool_result("  Session id: +7 \n"), Some(7));
    assert_eq!(session_id_from_tool_result("Session id: 99999999999999999999"), None);
}

#[test]
fn tool_arguments_carry_a_numeric_session_id() {
    assert_eq!(session_id_from_tool_arguments("{\"session_id\": 12, \"chars\": \"y\"}"), Some(12));
    assert_eq!(session_id_from_tool_arguments("{\"session_id\": \"12\"}"), None);
    assert_eq!(session_id_from_tool_arguments("not json"), None);
}

#[test]
fn reasoning_heading_parses_for_working_status_override() {
    assert_eq!(
        reasoning_heading_from_delta("\n**Analyzing potential app-server issues**\n\nBody")
            .as_deref(),
        Some("Analyzing potential app-server issues")
    );
    assert_eq!(reasoning_heading_from_delta("regular thinking"), None);
}

#[test]
fn bold_heading_lines_need_text_between_the_markers() {
    assert_eq!(parse_bold_heading_line("  ** Plan **  ").as_deref(), Some("Plan"));
    assert_eq!(parse_bold_heading_line("****"), None);
    assert_eq!(parse_bold_heading_line("**open"), None);
}

#[test]
fn fallback_toml_reads_one_table_and_quoted_strings() {
    let contents = "spinner = \"line\"\n[tui]\nspinner = \"arc\"\n# note = 1\nscroll_speed = 3\n[other]\nspinner = \"x\"\n[tui]\nspinner = 'pulse'\n";
    let table = fallback_toml_table_assignments(contents, "tui");
    assert_eq!(table.get("spinner").as_deref(), Some("'pulse'"));
    assert_eq!(table.get("scroll_speed").as_deref(), Some("3"));
    assert_eq!(table.get("note"), None);
    assert!(fallback_toml_table_assignments(contents, "missing").is_empty());
    assert_eq!(fallback_toml_string(" \"line\" ").as_deref(), Some("line"));
    assert_eq!(fallback_toml_string("'arc'").as_deref(), Some("arc"));
    assert_eq!(fallback_toml_string("plain"), None);
    assert_eq!(toml_assignment_key("  spinner = \"x\"").as_deref(), Some("spinner"));
    assert_eq!(toml_assignment_key("# spinner = 1"), None);
    assert_eq!(toml_assignment_key("[tui]"), None);
    assert_eq!(toml_assignment_key(" = 1"), None);
}

#[test]
fn yaml_scalars_are_read_from_front_matter() {
    let front = "name: \"rust-workspace\"\ndescription: 'Helps with Rust'\nempty:\n";
    assert_eq!(yaml_scalar(front, "name").as_deref(), Some("rust-workspace"));
    assert_eq!(yaml_scalar(front, "description").as_deref(), Some("Helps with Rust"));
    assert_eq!(yaml_scalar(front, "empty"), None);
    assert_eq!(yaml_scalar(front, "missing"), None);
}

#[test]
fn text_helpers_cut_and_slice_by_characters() {
    assert_eq!(truncate("héllo", 2), "hé...");
    assert_eq!(truncate("hi", 2), "hi");
    assert_eq!(truncate_for_transcript("abcdef", 3), "abc\n... output truncated ...");
    assert_eq!(slice_chars("héllo", 1, 3), "él");
    assert_eq!(slice_chars("abc", 2, 10), "c");
    assert_eq!(slice_chars("abc", 3, 5), "");
    assert_eq!(slash_command_suffix("  api  "), " api");
    assert_eq!(slash_command_suffix("   "), "");
    assert_eq!(short_id("0123456789"), "01234567");
    assert_eq!(short_id("abc"), "abc");
    assert_eq!(roadmap_slash_path("roadmap/a.md"), "roadmap/a.md");
    assert_eq!(roadmap_slash_path("b.md"), "roadmap/b.md");
    assert_eq!(roadmap_slash_path("c"), "roadmap/c.md");
    assert_eq!(plural_s(1), "");
    assert_eq!(plural_s(2), "s");
}
