use roder_tui::reports::{plan_exit_report, tool_approval_report, user_input_report};
use roder_tui::menu::{ProviderAuthType, ProviderChoice};
use roder_tui::policy::{HostedWebSearchMode, PolicyMode};
use roder_tui::providers::{ProviderAuthFlow, ProviderAuthResult};
use roder_tui::reports::{
    api_key_report, auth_opening_message, command_shell_report, default_mode_report,
    file_backed_context_report, message_folding_report, policy_mode_report, provider_auth_report,
    remove_all, search_index_report, swarm_mode_report, swarm_mode_unchanged,
    web_search_mode_report, web_search_provider_report, Report,
};

fn done(system: &str, event: &str) -> Report {
    Report { system: Some(system.to_string()), event: Some(event.to_string()), error: None }
}

fn failed(error: &str) -> Report {
    Report { system: None, event: None, error: Some(error.to_string()) }
}

#[test]
fn settings_reports_name_the_new_setting_or_the_failure() {
    assert_eq!(
        search_index_report(&Ok(true)),
        done("instant regex search enabled.", "instant regex search: enabled")
    );
    assert_eq!(
        search_index_report(&Err("boom".to_string())),
        failed("failed to set instant regex search: boom")
    );
    assert_eq!(
        web_search_mode_report(&Ok(HostedWebSearchMode::Cached)),
        done("web search provider set to Cached hosted.", "web search provider selected: Cached hosted")
    );
    assert_eq!(
        web_search_provider_report("exa", &Ok(())),
        done(
            "web search provider set to exa (external). Restart Roder to apply.",
            "web search provider selected: exa (external)"
        )
    );
    assert_eq!(
        default_mode_report(&Ok(PolicyMode::AcceptAll)),
        done("default mode set to accept_all.", "default mode selected: accept_all")
    );
    assert_eq!(
        policy_mode_report(&Err("nope".to_string())),
        failed("thread/set_mode failed: nope")
    );
    assert_eq!(
        command_shell_report(&Ok("zsh".to_string())),
        done("shell command shell set to zsh.", "shell command shell selected: zsh")
    );
    assert_eq!(
        file_backed_context_report(&Ok(false)),
        done("file-backed dynamic context disabled.", "file-backed dynamic context disabled")
    );
    assert_eq!(
        message_folding_report(true, &Ok(())),
        done("long message folding enabled.", "message folding saved: true")
    );
    assert_eq!(
        message_folding_report(false, &Err("read-only".to_string())),
        failed("failed to save long message folding setting: read-only")
    );
}

#[test]
fn swarm_mode_reports() {
    assert_eq!(swarm_mode_unchanged(true, true), Some("Agent-swarm mode is already on.".to_string()));
    assert_eq!(swarm_mode_unchanged(true, false), None);
    assert_eq!(
        swarm_mode_report(&Ok(false)),
        done("Agent-swarm mode off.", "slash command: /agent-swarm off")
    );
    let on = swarm_mode_report(&Ok(true));
    assert!(on.system.unwrap().starts_with("Agent-swarm mode on. Turns now nudge"));
}

#[test]
fn api_key_and_sign_in_reports() {
    let provider = ProviderChoice {
        provider_id: "google".to_string(),
        name: "Google".to_string(),
        description: None,
        auth_type: ProviderAuthType::ApiKey,
        authenticated: false,
        auth_detail: None,
        default_model: None,
        recommended: false,
    };
    assert_eq!(
        api_key_report(&provider, &Ok(())),
        done("configured API key for Google.", "provider configured: google")
    );
    let flow = ProviderAuthFlow::for_provider("codex").unwrap();
    assert_eq!(auth_opening_message(&flow), "opening browser for Codex sign-in.");
    let signed_in = ProviderAuthResult { signed_in: true, account_id: Some("a1".to_string()) };
    assert_eq!(
        provider_auth_report(&flow, &Ok(signed_in)),
        done("signed in with Codex account a1.", "codex auth: signed in")
    );
    assert_eq!(
        provider_auth_report(&flow, &Err("closed".to_string())),
        failed("Codex auth failed: closed")
    );
}

#[test]
fn remove_all_takes_out_every_occurrence() {
    assert_eq!(remove_all("system: a system: b", "system: "), "a b");
    assert_eq!(remove_all("aaa", "aa"), "a");
    assert_eq!(remove_all("abc", ""), "abc");
    assert_eq!(remove_all("", "x"), "");
}

#[test]
fn resolve_reports_use_short_ids() {
    assert_eq!(
        plan_exit_report("req-0123456789", true, &Ok(())),
        Report { system: Some("approved plan exit request req-0123.".to_string()), event: None, error: None }
    );
    assert_eq!(
        plan_exit_report("r1", false, &Err("x".to_string())),
        failed("thread/exit_plan failed: x")
    );
    assert_eq!(user_input_report("req-1", &Ok(true)), Report { system: None, event: None, error: None });
    assert_eq!(user_input_report("abcdefghijk", &Ok(false)), failed("user input not pending: abcdefgh"));
    assert_eq!(tool_approval_report("ap-1", &Ok(false)), failed("approval not pending: ap-1"));
    assert_eq!(
        tool_approval_report("ap-1", &Err("gone".to_string())),
        failed("thread/resolve_approval failed: gone")
    );
}
