use roder_tui::menu_item::ProviderMenuItem;
use roder_tui::menu::{ProviderAuthType, ProviderChoice, ProviderOption};
use roder_tui::menu_cursor::{
    clamp_provider_menu_selection, first_selectable_provider_menu_index,
    step_provider_menu_selection,
};

fn test_provider_option(provider_id: &str, provider_name: &str, model_id: &str) -> ProviderOption {
    ProviderOption {
        provider_id: provider_id.to_string(),
        provider_name: provider_name.to_string(),
        provider_auth_type: ProviderAuthType::ApiKey,
        provider_authenticated: true,
        model_id: model_id.to_string(),
        routing_option_id: None,
        label: format!("{provider_id}/{model_id}"),
        context_window: None,
        default_reasoning: None,
    }
}

fn section(label: &str) -> ProviderMenuItem {
    ProviderMenuItem::Section(label.to_string())
}

fn back() -> ProviderMenuItem {
    ProviderMenuItem::Back
}

#[test]
fn provider_menu_navigation_skips_section_headers() {
    let items = vec![
        section("Codex"),
        ProviderMenuItem::Model(test_provider_option("codex", "Codex", "gpt-5.5")),
        back(),
    ];
    let selected = Some(1);

    let selected = step_provider_menu_selection(&items, selected, -1);
    assert_eq!(selected, Some(2));

    let selected = step_provider_menu_selection(&items, selected, 1);
    assert_eq!(selected, Some(1));
}

#[test]
fn menu_step_wraps_and_holds_selection_to_last_row() {
    let items = vec![back(), section("A"), back(), section("B")];
    assert_eq!(step_provider_menu_selection(&items, Some(2), 1), Some(0));
    assert_eq!(step_provider_menu_selection(&items, Some(0), -1), Some(2));
    // a highlight past the end is held to the last row before stepping
    assert_eq!(step_provider_menu_selection(&items, Some(9), 1), Some(0));
    assert_eq!(step_provider_menu_selection(&items, Some(9), -1), Some(2));
    // one selectable row: stepping comes back to it
    let single = vec![section("A"), back()];
    assert_eq!(step_provider_menu_selection(&single, Some(1), 1), Some(1));
    assert_eq!(step_provider_menu_selection(&single, Some(1), -1), Some(1));
}

#[test]
fn menu_step_without_highlight_or_rows() {
    let items = vec![section("A"), section("B"), back()];
    assert_eq!(step_provider_menu_selection(&items, None, 1), Some(2));
    assert_eq!(step_provider_menu_selection(&items, None, -1), Some(2));
    assert_eq!(step_provider_menu_selection(&Vec::new(), Some(0), 1), None);
    let titles = vec![section("A"), section("B")];
    assert_eq!(step_provider_menu_selection(&titles, Some(0), 1), None);
    assert_eq!(step_provider_menu_selection(&titles, None, 1), None);
}

#[test]
fn menu_step_down_then_up_returns_to_row() {
    let items = vec![back(), section("A"), back(), back(), section("B")];
    for start in [0usize, 2, 3] {
        let down = step_provider_menu_selection(&items, Some(start), 1);
        assert_eq!(step_provider_menu_selection(&items, down, -1), Some(start));
        let up = step_provider_menu_selection(&items, Some(start), -1);
        assert_eq!(step_provider_menu_selection(&items, up, 1), Some(start));
    }
}

#[test]
fn menu_clamp_keeps_selectable_rows_and_skips_titles() {
    let items = vec![section("A"), back(), back()];
    assert_eq!(clamp_provider_menu_selection(&items, Some(2)), Some(2));
    assert_eq!(clamp_provider_menu_selection(&items, Some(7)), Some(2));
    assert_eq!(clamp_provider_menu_selection(&items, Some(0)), Some(1));
    assert_eq!(clamp_provider_menu_selection(&items, None), Some(1));
    assert_eq!(clamp_provider_menu_selection(&Vec::new(), Some(3)), None);
    assert_eq!(clamp_provider_menu_selection(&vec![section("A")], None), None);
}

#[test]
fn first_selectable_row_skips_titles() {
    assert_eq!(first_selectable_provider_menu_index(&vec![section("A"), back()]), Some(1));
    assert_eq!(first_selectable_provider_menu_index(&vec![section("A")]), None);
    assert_eq!(first_selectable_provider_menu_index(&Vec::new()), None);
}

#[test]
fn unauthenticated_providers_and_models_are_disabled() {
    let provider = ProviderMenuItem::Provider(ProviderChoice {
        provider_id: "opencode".to_string(),
        name: "OpenCode".to_string(),
        description: None,
        auth_type: ProviderAuthType::ApiKey,
        authenticated: false,
        auth_detail: None,
        default_model: Some("gpt-5.5".to_string()),
        recommended: false,
    });
    let mut option = test_provider_option("opencode", "OpenCode", "gpt-5.5");
    option.provider_authenticated = false;
    let model = ProviderMenuItem::Model(option);
    assert!(provider.is_disabled());
    assert!(model.is_disabled());
    assert!(!ProviderMenuItem::Model(test_provider_option("openai", "OpenAI", "gpt-5.5")).is_disabled());
    assert!(!back().is_disabled());
    assert!(!section("A").is_selectable());
    assert!(back().is_selectable());
}
