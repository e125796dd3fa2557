use roder_tui::menu_item::ProviderMenuItem;
use roder_tui::menu::{
    filter_provider_menu_items, model_match_score, provider_choice_match_score,
    provider_menu_match_score, ProviderAuthType, ProviderChoice, ProviderOption,
};

fn test_provider_option(provider_id: &str, provider_name: &str, model_id: &str) -> ProviderOption {
    ProviderOption {
        provider_id: provider_id.to_string(),
        provider_name: provider_name.to_string(),
        provider_auth_type: ProviderAuthType::ApiKey,
        provider_authenticated: true,
        model_id: model_id.to_string(),
        routing_option_id: None,
        label: format!("{provider_id}/{model_id}"),
        context_window: None,
        default_reasoning: None,
    }
}

fn section(label: &str) -> ProviderMenuItem {
    ProviderMenuItem::Section(label.to_string())
}

fn model(provider_id: &str, provider_name: &str, model_id: &str) -> ProviderMenuItem {
    ProviderMenuItem::Model(test_provider_option(provider_id, provider_name, model_id))
}

fn codex_choice() -> ProviderChoice {
    ProviderChoice {
        provider_id: "codex".to_string(),
        name: "Codex".to_string(),
        description: Some("ChatGPT account provider".to_string()),
        auth_type: ProviderAuthType::OAuth,
        authenticated: false,
        auth_detail: None,
        default_model: Some("gpt-5.5".to_string()),
        recommended: true,
    }
}

#[test]
fn provider_menu_filter_matches_labels_case_insensitively() {
    let items = vec![
        ProviderMenuItem::Provider(codex_choice()),
        ProviderMenuItem::Back,
    ];
    let filtered = filter_provider_menu_items(&items, "CODEX");
    assert_eq!(filtered.len(), 1);
    assert!(filtered.iter().all(|&index| match &items[index] {
        ProviderMenuItem::Provider(provider) => provider.label().to_lowercase().contains("codex"),
        _ => false,
    }));
}

#[test]
fn provider_menu_filter_keeps_models_submenu_searchable() {
    let items = vec![
        ProviderMenuItem::Models,
        section("Codex"),
        model("codex", "Codex", "gpt-5.5"),
    ];
    let filtered = filter_provider_menu_items(&items, "5.5");
    assert_eq!(filtered.len(), 2);
    assert!(matches!(items[filtered[0]], ProviderMenuItem::Section(_)));
    assert!(matches!(items[filtered[1]], ProviderMenuItem::Model(_)));
}

#[test]
fn provider_menu_filter_does_not_return_section_headers() {
    let items = vec![
        section("OpenCode"),
        model("opencode-go", "OpenCode", "qwen3.6-plus"),
    ];

    let filtered = filter_provider_menu_items(&items, "opencode");

    assert_eq!(filtered.len(), 2);
    assert!(matches!(items[filtered[0]], ProviderMenuItem::Section(_)));
    assert!(matches!(items[filtered[1]], ProviderMenuItem::Model(_)));
}

#[test]
fn provider_menu_filter_ranks_model_id_matches_above_provider_matches() {
    let items = vec![
        section("OpenAI"),
        model("openai", "OpenAI", "gpt-5.5"),
        model("openai", "OpenAI", "codex-mini"),
    ];

    let filtered = filter_provider_menu_items(&items, "codex");

    assert_eq!(filtered.len(), 2);
    assert!(matches!(items[filtered[0]], ProviderMenuItem::Section(_)));
    assert!(matches!(
        &items[filtered[1]],
        ProviderMenuItem::Model(option) if option.model_id == "codex-mini"
    ));
}

#[test]
fn provider_menu_filter_keeps_provider_grouping_for_matching_models() {
    let items = vec![
        section("OpenAI"),
        model("openai", "OpenAI", "gpt-5.5"),
        section("Mistral"),
        model("mistral", "Mistral", "magistral-large"),
    ];

    let filtered = filter_provider_menu_items(&items, "large");

    assert_eq!(filtered.len(), 2);
    assert!(matches!(
        &items[filtered[0]],
        ProviderMenuItem::Section(label) if label == "Mistral"
    ));
    assert!(matches!(
        &items[filtered[1]],
        ProviderMenuItem::Model(option) if option.provider_id == "mistral"
    ));
}

#[test]
fn provider_menu_filter_moves_best_matching_provider_group_to_top() {
    let items = vec![
        section("OpenAI"),
        model("openai", "OpenAI", "gpt-5.5"),
        section("Codex"),
        model("codex", "Codex", "codex-pro"),
    ];

    let filtered = filter_provider_menu_items(&items, "codex");

    assert!(matches!(
        &items[filtered[0]],
        ProviderMenuItem::Section(label) if label == "Codex"
    ));
    assert!(matches!(
        &items[filtered[1]],
        ProviderMenuItem::Model(option) if option.provider_id == "codex"
    ));
}

#[test]
fn provider_menu_filter_puts_ungrouped_matches_first_then_groups_by_best_match() {
    let items = vec![
        ProviderMenuItem::Theme("alpha".to_string()),
        ProviderMenuItem::Theme("alpha beta".to_string()),
        section("S1"),
        ProviderMenuItem::Theme("xalpha".to_string()),
        section("S2"),
        ProviderMenuItem::Theme("alpha".to_string()),
        section("S3"),
        ProviderMenuItem::Theme("nothing".to_string()),
    ];
    assert_eq!(filter_provider_menu_items(&items, " Alpha "), vec![0, 1, 4, 5, 2, 3]);
    assert_eq!(filter_provider_menu_items(&items, "   "), (0..items.len()).collect::<Vec<_>>());
    assert_eq!(filter_provider_menu_items(&items, ""), (0..items.len()).collect::<Vec<_>>());
    assert!(filter_provider_menu_items(&items, "zzz").is_empty());
}

#[test]
fn provider_choice_label_prompts_for_missing_api_key() {
    let provider = ProviderChoice {
        provider_id: "opencode".to_string(),
        name: "OpenCode".to_string(),
        description: None,
        auth_type: ProviderAuthType::ApiKey,
        authenticated: false,
        auth_detail: None,
        default_model: Some("gpt-5.5".to_string()),
        recommended: false,
    };

    assert_eq!(provider.label(), "OpenCode - paste API key");
    assert!(provider.requires_authentication());
}

#[test]
fn provider_choice_labels_describe_recommendation_and_sign_in() {
    let codex = codex_choice();
    assert_eq!(codex.label(), "Codex (Recommended) - sign in");
    let mut signed_in = codex.clone();
    signed_in.authenticated = true;
    signed_in.recommended = false;
    signed_in.auth_detail = Some("me@example.com".to_string());
    assert_eq!(signed_in.label(), "Codex (ChatGPT account provider) - signed in");
    assert!(!signed_in.requires_authentication());
    let mut keyed = signed_in.clone();
    keyed.auth_type = ProviderAuthType::ApiKey;
    keyed.description = None;
    assert_eq!(keyed.label(), "Codex - API key configured");
    keyed.auth_type = ProviderAuthType::NoAuth;
    assert_eq!(keyed.label(), "Codex");
}

#[test]
fn menu_scores_prefer_model_ids_then_provider_ids() {
    let option = test_provider_option("codex", "Codex", "codex-pro");
    assert_eq!(model_match_score(&option, "codex"), Some(400 + 45));
    assert_eq!(provider_choice_match_score(&codex_choice(), "codex"), Some(420));
    assert_eq!(provider_choice_match_score(&codex_choice(), "recommended"), Some(213));
    assert_eq!(provider_menu_match_score(&section("codex"), "codex"), None);
    assert_eq!(
        provider_menu_match_score(&ProviderMenuItem::Back, "back"),
        Some(400)
    );
}
