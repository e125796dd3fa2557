use roder_tui::policy::HostedWebSearchMode;
use roder_tui::session::{
    resumed_thread_parts, selected_model, session_settings, started_thread_parts,
    team_member_parts, thread_message_count, thread_start_model, SettingsReply, ThreadItemKind,
};

#[test]
fn team_member_session_prefers_member_model_and_names_the_team() {
    let p = team_member_parts(
        "thread-9", "builder", "team-1234567890", Some("  "), None, Some("gpt-5"), Some("codex"),
        "default", 3,
    );
    assert_eq!(p.thread_id, "thread-9");
    assert_eq!(p.thread_model, "gpt-5");
    assert_eq!(p.provider, "codex");
    assert_eq!(p.thread_title.as_deref(), Some("builder (team-123)"));
    assert_eq!(p.reasoning, "medium");
    assert_eq!(p.requested_model, "");
    assert_eq!(p.thread_message_count, 3);
    let q = team_member_parts("t", "n", "x", Some("opus"), Some("mock"), None, None, "default", 0);
    assert_eq!(q.thread_model, "opus");
    assert_eq!(q.provider, "mock");
    let r = team_member_parts("t", "n", "x", None, None, None, None, "default", 0);
    assert_eq!(r.thread_model, "default");
    assert_eq!(r.provider, "");
}

#[test]
fn resumed_session_takes_name_or_preview_as_title() {
    let p = resumed_thread_parts("t1", "mock", " ", Some(""), "first prompt", "fallback", 4);
    assert_eq!(p.thread_model, "fallback");
    assert_eq!(p.thread_title.as_deref(), Some("first prompt"));
    let q = resumed_thread_parts("t1", "mock", "m", Some("Named"), "preview", "fallback", 0);
    assert_eq!(q.thread_model, "m");
    assert_eq!(q.thread_title.as_deref(), Some("Named"));
    let r = resumed_thread_parts("t1", "mock", "m", None, "  ", "fallback", 0);
    assert_eq!(r.thread_title, None);
}

#[test]
fn new_session_model_falls_back_in_order() {
    let p = started_thread_parts("t", "mock", "", "server", "asked", "high");
    assert_eq!(p.thread_model, "server");
    assert_eq!(p.requested_model, "asked");
    assert_eq!(selected_model(&p), "asked");
    let q = started_thread_parts("t", "mock", "thread", "server", "", "low");
    assert_eq!(q.thread_model, "thread");
    assert_eq!(selected_model(&q), "thread");
    assert_eq!(thread_start_model("  "), None);
    assert_eq!(thread_start_model("gpt").as_deref(), Some("gpt"));
}

#[test]
fn message_count_counts_user_and_agent_messages() {
    let turns = vec![
        vec![ThreadItemKind::UserMessage, ThreadItemKind::Other, ThreadItemKind::AgentMessage],
        vec![ThreadItemKind::Other],
        vec![ThreadItemKind::UserMessage],
    ];
    assert_eq!(thread_message_count(Some(&turns)), 3);
    assert_eq!(thread_message_count(None), 0);
}

#[test]
fn session_settings_default_when_the_server_gave_none() {
    let s = session_settings(None, "zsh".to_string(), vec!["zsh".to_string(), "bash".to_string()]);
    assert_eq!(s.web_search_mode, HostedWebSearchMode::Cached);
    assert!(s.search_index_enabled);
    assert!(s.file_backed_dynamic_context);
    assert_eq!(s.shell, "zsh");
    assert_eq!(s.shell_options.len(), 2);
    let reply = SettingsReply {
        web_search_mode: HostedWebSearchMode::Live,
        web_search_external_provider: Some("exa".to_string()),
        web_search_providers: Vec::new(),
        search_index_enabled: false,
        shell: "fish".to_string(),
        shell_options: Vec::new(),
        file_backed_dynamic_context: false,
    };
    assert_eq!(session_settings(Some(reply.clone()), "zsh".to_string(), Vec::new()), reply);
}
