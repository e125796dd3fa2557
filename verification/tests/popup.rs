use roder_tui::menu_item::ProviderMenuItem;
use roder_tui::menu::{ProviderAuthType, ProviderChoice};
use roder_tui::popup::{provider_popup_back, provider_popup_title, PopupBack, ProviderPopupScreen};

fn provider(provider_id: &str, name: &str, auth_type: ProviderAuthType, authenticated: bool) -> ProviderChoice {
    ProviderChoice {
        provider_id: provider_id.to_string(),
        name: name.to_string(),
        description: None,
        auth_type,
        authenticated,
        auth_detail: None,
        default_model: None,
        recommended: false,
    }
}

#[test]
fn provider_popup_header_displays_correct_action_for_selected_provider() {
    let screen = ProviderPopupScreen::Providers;

    // 1. Unauthenticated provider selected -> reset
    let unauth_provider = provider("google", "Google", ProviderAuthType::ApiKey, false);
    let items = vec![ProviderMenuItem::Provider(unauth_provider)];
    let title = provider_popup_title(screen, &items, Some(0), "");
    assert!(title.contains("Delete reset"));

    // 2. Authenticated API key provider selected -> clear
    let mut api_key_provider = provider("google", "Google", ProviderAuthType::ApiKey, true);
    api_key_provider.auth_detail = Some("configured".to_string());
    let items = vec![ProviderMenuItem::Provider(api_key_provider)];
    let title = provider_popup_title(screen, &items, Some(0), "");
    assert!(title.contains("Delete clear"));

    // 3. Authenticated OAuth provider selected -> sign out
    let mut oauth_provider = provider("codex", "Codex", ProviderAuthType::OAuth, true);
    oauth_provider.auth_detail = Some("signed in".to_string());
    oauth_provider.recommended = true;
    let items = vec![ProviderMenuItem::Provider(oauth_provider)];
    let title = provider_popup_title(screen, &items, Some(0), "");
    assert!(title.contains("Delete sign out"));
}

#[test]
fn provider_popup_title_while_filtering_and_on_other_screens() {
    let items = vec![ProviderMenuItem::Provider(provider("codex", "Codex", ProviderAuthType::OAuth, true))];
    assert_eq!(
        provider_popup_title(ProviderPopupScreen::Providers, &items, Some(0), "co"),
        " Providers (Enter select, Ctrl-R sign out, Esc back) "
    );
    assert_eq!(
        provider_popup_title(ProviderPopupScreen::Providers, &items, Some(4), ""),
        " Providers (Enter select, Delete reset, Esc back) "
    );
    assert_eq!(
        provider_popup_title(ProviderPopupScreen::Providers, &items, None, ""),
        " Providers (Enter select, Delete reset, Esc back) "
    );
    assert_eq!(
        provider_popup_title(ProviderPopupScreen::Main, &items, Some(0), ""),
        " Menu (Enter select, Esc close) "
    );
    assert_eq!(
        provider_popup_title(ProviderPopupScreen::ApiKey, &items, None, ""),
        " Paste API key (Enter save, Esc back) "
    );
    assert_eq!(
        provider_popup_title(ProviderPopupScreen::Marketplaces, &items, None, ""),
        " Plugin marketplaces (Enter select, Esc back) "
    );
}

#[test]
fn escape_clears_filter_then_walks_back_to_main_and_closes() {
    assert_eq!(provider_popup_back(ProviderPopupScreen::Reasoning, "high"), PopupBack::ClearFilter);
    assert_eq!(
        provider_popup_back(ProviderPopupScreen::Reasoning, ""),
        PopupBack::Show(ProviderPopupScreen::Models)
    );
    assert_eq!(
        provider_popup_back(ProviderPopupScreen::Models, ""),
        PopupBack::Show(ProviderPopupScreen::Main)
    );
    assert_eq!(provider_popup_back(ProviderPopupScreen::ApiKey, ""), PopupBack::LeaveApiKey);
    assert_eq!(provider_popup_back(ProviderPopupScreen::VoiceModels, ""), PopupBack::LeaveVoiceModels);
    assert_eq!(
        provider_popup_back(ProviderPopupScreen::Shell, ""),
        PopupBack::Show(ProviderPopupScreen::Settings)
    );
    assert_eq!(provider_popup_back(ProviderPopupScreen::Themes, ""), PopupBack::LeaveThemes);
    assert_eq!(provider_popup_back(ProviderPopupScreen::Main, ""), PopupBack::Close);
}
