use roder_tui::menu::{ProviderAuthType, ProviderChoice, ProviderOption};
use roder_tui::menu_action::{
    model_selection, provider_menu_action, provider_reset_plan, provider_reset_report,
    reselect_after_refresh, ModelSelection, ProviderMenuAction, ProviderReset,
};
use roder_tui::menu_item::{ProviderMenuItem, ThreadSummary};
use roder_tui::popup::ProviderPopupScreen;

fn choice(provider_id: &str, name: &str, auth_type: ProviderAuthType) -> ProviderChoice {
    ProviderChoice {
        provider_id: provider_id.to_string(),
        name: name.to_string(),
        description: None,
        auth_type,
        authenticated: true,
        auth_detail: None,
        default_model: None,
        recommended: false,
    }
}

fn option(routing: Option<&str>) -> ProviderOption {
    ProviderOption {
        provider_id: "openai".to_string(),
        provider_name: "OpenAI".to_string(),
        provider_auth_type: ProviderAuthType::ApiKey,
        provider_authenticated: true,
        model_id: "gpt-5.5".to_string(),
        routing_option_id: routing.map(|s| s.to_string()),
        label: "openai/gpt-5.5".to_string(),
        context_window: None,
        default_reasoning: Some("medium".to_string()),
    }
}

#[test]
fn choosing_rows_maps_to_actions() {
    let items = vec![
        ProviderMenuItem::PlanModeToggle(false),
        ProviderMenuItem::Models,
        ProviderMenuItem::Section("x".to_string()),
        ProviderMenuItem::MarketplaceInstallDefault { selection: "codex", label: "Install Codex default marketplace" },
        ProviderMenuItem::MarketplaceDefault { id: "cursor-plugins", kind: "Cursor", label: "Cursor Marketplace" },
        ProviderMenuItem::SearchIndexToggle(true),
        ProviderMenuItem::Thread(ThreadSummary { id: "t9".to_string(), name: None, cwd: String::new(), updated_at: 0 }),
        ProviderMenuItem::Back,
    ];
    assert_eq!(provider_menu_action(&items, Some(0)), ProviderMenuAction::SetPlanMode(true));
    assert_eq!(
        provider_menu_action(&items, Some(1)),
        ProviderMenuAction::Open(ProviderPopupScreen::Models)
    );
    assert_eq!(provider_menu_action(&items, Some(2)), ProviderMenuAction::Stay);
    assert_eq!(
        provider_menu_action(&items, Some(3)),
        ProviderMenuAction::ComposeCommand("/marketplace install-default codex".to_string())
    );
    assert_eq!(
        provider_menu_action(&items, Some(4)),
        ProviderMenuAction::ComposeCommand("/marketplace refresh cursor-plugins".to_string())
    );
    assert_eq!(provider_menu_action(&items, Some(5)), ProviderMenuAction::SetSearchIndex(false));
    assert_eq!(provider_menu_action(&items, Some(6)), ProviderMenuAction::LoadThread("t9".to_string()));
    assert_eq!(provider_menu_action(&items, Some(7)), ProviderMenuAction::Back);
    assert_eq!(provider_menu_action(&items, Some(8)), ProviderMenuAction::Close);
    assert_eq!(provider_menu_action(&items, None), ProviderMenuAction::Close);
}

#[test]
fn choosing_a_model_picks_routing_reasoning_or_direct_selection() {
    assert_eq!(model_selection(&option(Some("auto-1")), true), ModelSelection::Auto("auto-1".to_string()));
    assert_eq!(model_selection(&option(None), true), ModelSelection::ChooseReasoning);
    assert_eq!(
        model_selection(&option(None), false),
        ModelSelection::Select {
            provider_id: "openai".to_string(),
            model_id: "gpt-5.5".to_string(),
            reasoning: Some("medium".to_string()),
        }
    );
}

#[test]
fn provider_reset_signs_out_clears_or_keeps() {
    let codex = choice("codex", "Codex", ProviderAuthType::OAuth);
    let plan = provider_reset_plan(&codex);
    assert!(matches!(&plan, ProviderReset::Logout(flow) if flow.logout_method == "auth/codex/logout"));
    let report = provider_reset_report(&codex, &plan, &Ok(()));
    assert_eq!(report.system.as_deref(), Some("Logged out of Codex."));
    assert_eq!(report.event.as_deref(), Some("logged out of: codex"));
    let failed = provider_reset_report(&codex, &plan, &Err("boom".to_string()));
    assert_eq!(failed.error.as_deref(), Some("Logout failed: boom"));

    let other = choice("acme", "Acme", ProviderAuthType::OAuth);
    let plan = provider_reset_plan(&other);
    assert_eq!(plan, ProviderReset::NoLogoutFlow);
    assert_eq!(
        provider_reset_report(&other, &plan, &Ok(())).error.as_deref(),
        Some("provider acme requires OAuth; no logout flow is available")
    );

    let google = choice("google", "Google", ProviderAuthType::ApiKey);
    let plan = provider_reset_plan(&google);
    assert_eq!(plan, ProviderReset::ClearKey);
    let report = provider_reset_report(&google, &plan, &Ok(()));
    assert_eq!(report.system.as_deref(), Some("Cleared API key for Google."));
    assert_eq!(report.event.as_deref(), Some("provider cleared: google"));
    assert_eq!(
        provider_reset_report(&google, &plan, &Err("x".to_string())).error.as_deref(),
        Some("providers/clear failed: x")
    );

    let local = choice("local", "Local", ProviderAuthType::NoAuth);
    assert_eq!(provider_reset_plan(&local), ProviderReset::Keep);
}

#[test]
fn providers_highlight_after_refresh() {
    assert_eq!(reselect_after_refresh(Some(2), 5), Some(2));
    assert_eq!(reselect_after_refresh(Some(7), 5), Some(4));
    assert_eq!(reselect_after_refresh(Some(0), 0), None);
    assert_eq!(reselect_after_refresh(None, 5), None);
}
