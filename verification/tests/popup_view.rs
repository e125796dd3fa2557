use roder_tui::menu::{ProviderAuthType, ProviderChoice, ProviderOption};
use roder_tui::menu_item::ProviderMenuItem;
use roder_tui::policy::{HostedWebSearchMode, PolicyMode};
use roder_tui::popup::ProviderPopupScreen;
use roder_tui::popup_view::{
    provider_menu_item_label_role, provider_menu_item_marker_role, provider_menu_item_render_label,
    provider_menu_marker, provider_popup_rows, MarkerContext,
};
use roder_tui::status::WorkingSpinner;
use roder_tui::timeline_rows::TextRole;

fn test_provider_option(provider_id: &str, provider_name: &str, model_id: &str) -> ProviderOption {
    ProviderOption {
        provider_id: provider_id.to_string(),
        provider_name: provider_name.to_string(),
        provider_auth_type: ProviderAuthType::ApiKey,
        provider_authenticated: true,
        model_id: model_id.to_string(),
        routing_option_id: None,
        label: format!("{provider_id}/{model_id}"),
        context_window: None,
        default_reasoning: None,
    }
}

fn ctx() -> MarkerContext {
    MarkerContext {
        policy_mode: PolicyMode::Plan,
        working_spinner: WorkingSpinner::Dots,
        web_search_mode: HostedWebSearchMode::Cached,
        web_search_external_provider_set: false,
        voice_provider: None,
        voice_model: None,
        command_shell: "zsh".to_string(),
        thread_id: "t1".to_string(),
        active_theme_id: Some("dark".to_string()),
    }
}

#[test]
fn provider_menu_styles_unconfigured_providers_as_disabled() {
    let provider = ProviderMenuItem::Provider(ProviderChoice {
        provider_id: "opencode".to_string(),
        name: "OpenCode".to_string(),
        description: None,
        auth_type: ProviderAuthType::ApiKey,
        authenticated: false,
        auth_detail: None,
        default_model: Some("gpt-5.5".to_string()),
        recommended: false,
    });
    let mut model = test_provider_option("opencode", "OpenCode", "gpt-5.5");
    model.provider_authenticated = false;
    let model = ProviderMenuItem::Model(model);

    assert_eq!(provider_menu_item_label_role(&provider), TextRole::Subtle);
    assert_eq!(provider_menu_item_label_role(&model), TextRole::Subtle);
    assert_eq!(provider_menu_item_marker_role(&model), TextRole::Subtle);
}

#[test]
fn markers_check_what_is_in_use() {
    let c = ctx();
    assert_eq!(provider_menu_marker(&ProviderMenuItem::DefaultMode(PolicyMode::Plan), &c, false), "✓ ");
    assert_eq!(provider_menu_marker(&ProviderMenuItem::DefaultMode(PolicyMode::Bypass), &c, false), "• ");
    assert_eq!(provider_menu_marker(&ProviderMenuItem::ShellChoice("zsh".to_string()), &c, false), "✓ ");
    assert_eq!(provider_menu_marker(&ProviderMenuItem::Theme("dark".to_string()), &c, false), "✓ ");
    assert_eq!(provider_menu_marker(&ProviderMenuItem::WebSearchMode(HostedWebSearchMode::Cached), &c, false), "✓ ");
    let model = ProviderMenuItem::Model(test_provider_option("openai", "OpenAI", "gpt"));
    assert_eq!(provider_menu_marker(&model, &c, true), "› ");
    assert_eq!(provider_menu_marker(&model, &c, false), "• ");
    assert_eq!(provider_menu_marker(&ProviderMenuItem::Settings, &c, false), "› ");
    assert_eq!(provider_menu_marker(&ProviderMenuItem::Back, &c, false), "‹ ");
    assert_eq!(provider_menu_marker(&ProviderMenuItem::Section("Codex".to_string()), &c, false), "  ");
    assert_eq!(provider_menu_item_render_label(&ProviderMenuItem::Section("Codex".to_string())), "─ Codex ─");
    assert_eq!(provider_menu_item_label_role(&ProviderMenuItem::Section("Codex".to_string())), TextRole::AccentBold);
}

#[test]
fn popup_rows_show_no_matches_and_the_key_prompt() {
    let c = ctx();
    let empty = provider_popup_rows(ProviderPopupScreen::Models, &Vec::new(), &c, &Vec::new(), None, "zz");
    assert_eq!(empty, vec![vec![("No matches".to_string(), TextRole::Muted)]]);
    let key = provider_popup_rows(ProviderPopupScreen::ApiKey, &Vec::new(), &c, &Vec::new(), None, "");
    assert_eq!(key.len(), 4);
    let rows = provider_popup_rows(
        ProviderPopupScreen::Main,
        &vec![ProviderMenuItem::Models, ProviderMenuItem::Back],
        &c,
        &Vec::new(),
        None,
        "",
    );
    assert_eq!(rows.len(), 2);
    assert_eq!(rows[0][0].0, "› ");
    assert_eq!(rows[1][0].0, "‹ ");
    assert_eq!(rows[1][1].1, TextRole::Text);
}
