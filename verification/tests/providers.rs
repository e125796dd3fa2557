use roder_tui::providers::{
    provider_auth_event, provider_auth_message, ProviderAuthResult,
    fuzzy_word_match_score, lowered_match_score, normalize_provider_search_text,
    provider_api_key_url, provider_model_label, text_match_score, ProviderAuthFlow,
};

#[test]
fn provider_model_label_drops_redundant_provider_prefix() {
    assert_eq!(
        provider_model_label("roder-cloud", "roder.cloud/free"),
        "roder.cloud/free"
    );
    assert_eq!(
        provider_model_label("openrouter", "x-ai/grok-build-0.1"),
        "openrouter/x-ai/grok-build-0.1"
    );
    assert_eq!(provider_model_label("codex", "gpt-5.5"), "codex/gpt-5.5");
    assert_eq!(provider_model_label("mock", "mock"), "mock/mock");
}

#[test]
fn provider_model_label_folds_case_and_separators_only() {
    assert_eq!(provider_model_label("Open_Router", "open-router/m"), "open-router/m");
    assert_eq!(provider_model_label("openrouter", "/m"), "openrouter//m");
    assert_eq!(provider_model_label("x", "xy/m"), "x/xy/m");
}

#[test]
fn provider_api_key_url_uses_cursor_integrations_page() {
    assert_eq!(
        provider_api_key_url("cursor"),
        "https://cursor.com/dashboard/integrations"
    );
}

#[test]
fn provider_api_key_urls_fall_back_to_the_auth_page() {
    assert_eq!(
        provider_api_key_url("poolside"),
        "https://platform.poolside.ai/api-keys"
    );
    assert_eq!(provider_api_key_url("openrouter"), "https://opencode.ai/auth");
}

#[test]
fn provider_auth_flows_exist_for_server_login_providers() {
    let codex = ProviderAuthFlow::for_provider("codex").unwrap();
    assert_eq!(codex.display_name, "Codex");
    assert_eq!(codex.login_method, "auth/codex/login");
    assert_eq!(codex.logout_method, "auth/codex/logout");
    let kimi = ProviderAuthFlow::for_provider("kimi-code").unwrap();
    assert_eq!(kimi.display_name, "Kimi Code");
    assert_eq!(kimi.login_method, "auth/kimi-code/login");
    assert!(ProviderAuthFlow::for_provider("supergrok").is_some());
    assert!(ProviderAuthFlow::for_provider("openrouter").is_none());
}

#[test]
fn search_text_is_trimmed_and_lower_cased() {
    assert_eq!(normalize_provider_search_text("  GPT-5 Mini "), "gpt-5 mini");
    assert_eq!(normalize_provider_search_text("ÄRGER"), "ärger");
}

#[test]
fn text_match_scores_rank_exact_prefix_substring_and_fuzzy_matches() {
    assert_eq!(text_match_score("GPT", "gpt"), Some(400));
    assert_eq!(text_match_score("gpt-5", "gpt"), Some(315));
    assert_eq!(text_match_score("openai gpt", "gpt"), Some(213));
    assert_eq!(text_match_score("mistral large", "mi lar"), Some(114));
    assert_eq!(text_match_score("mistral large", "mis rge"), Some(113));
    assert_eq!(text_match_score("mistral large", "lar mis"), None);
    assert_eq!(text_match_score("Mistral Large", "istral arge"), Some(117));
}

#[test]
fn fuzzy_word_scores_subtract_gaps_capped_at_forty() {
    assert_eq!(fuzzy_word_match_score("abc def", "abc def"), Some(119));
    assert_eq!(fuzzy_word_match_score("abc def", "b f"), Some(115));
    assert_eq!(fuzzy_word_match_score("abc def", "f b"), None);
    assert_eq!(fuzzy_word_match_score("anything", "   "), Some(120));
    let far = format!("{}x", " ".repeat(100));
    assert_eq!(fuzzy_word_match_score(&far, "x"), Some(80));
    assert_eq!(lowered_match_score("é-x", "x"), Some(217));
}

#[test]
fn provider_auth_messages_reflect_status() {
    let signed_in = ProviderAuthResult {
        signed_in: true,
        account_id: Some("acct".to_string()),
    };
    assert_eq!(
        provider_auth_message("Codex", "auth/codex/logout", "auth/codex/status", &signed_in),
        "system: signed in with Codex account acct."
    );

    let signed_out = ProviderAuthResult {
        signed_in: false,
        account_id: None,
    };
    assert_eq!(
        provider_auth_message(
            "SuperGrok",
            "auth/supergrok/logout",
            "auth/supergrok/status",
            &signed_out
        ),
        "system: signed out of SuperGrok."
    );
    assert_eq!(
        provider_auth_message("Codex", "auth/codex/logout", "auth/codex/logout", &signed_in),
        "system: signed out of Codex."
    );
    let anonymous = ProviderAuthResult { signed_in: true, account_id: None };
    assert_eq!(
        provider_auth_message("Kimi Code", "auth/kimi-code/logout", "auth/kimi-code/login", &anonymous),
        "system: signed in with Kimi Code."
    );
    assert_eq!(provider_auth_event(&anonymous), "signed in");
    assert_eq!(provider_auth_event(&signed_out), "signed out");
}

#[test]
fn exact_match_outranks_contained_and_fuzzy_matches() {
    assert_eq!(text_match_score("Codex", "codex"), Some(400));
    let prefix = text_match_score("codex-mini", "codex").unwrap();
    assert!((100..=320).contains(&prefix) && prefix < 400);
    let inner = text_match_score("openai codex", "codex").unwrap();
    assert!((100..=320).contains(&inner));
    let fuzzy = text_match_score("gpt five mini", "gpt mini").unwrap();
    assert!(fuzzy <= 120);
    assert_eq!(text_match_score("gpt", "zebra"), None);
}
