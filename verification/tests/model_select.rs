use roder_tui::menu::{ProviderAuthType, ProviderOption};
use roder_tui::model_select::{
    active_model_message, context_window_from_options, find_named_model, model_not_found_message,
    model_selection_mode_label, model_slash_argument, model_switch_messages, ModelSelectionMode,
    ProviderModels,
};

fn option(provider_id: &str, model_id: &str, context_window: Option<u32>) -> ProviderOption {
    ProviderOption {
        provider_id: provider_id.to_string(),
        provider_name: provider_id.to_string(),
        provider_auth_type: ProviderAuthType::ApiKey,
        provider_authenticated: true,
        model_id: model_id.to_string(),
        routing_option_id: None,
        label: format!("{provider_id}/{model_id}"),
        context_window,
        default_reasoning: None,
    }
}

#[test]
fn selection_labels_use_routing_label_or_provider_model() {
    let auto = ModelSelectionMode::Auto { label: "Fast routing".to_string() };
    assert_eq!(model_selection_mode_label(&auto, "openai", "gpt-5.5"), "Fast routing");
    assert_eq!(
        model_selection_mode_label(&ModelSelectionMode::Manual, "openai", "gpt-5.5"),
        "openai/gpt-5.5"
    );
    assert_eq!(
        model_selection_mode_label(&ModelSelectionMode::Manual, "openrouter", "openrouter/auto"),
        "openrouter/auto"
    );
}

#[test]
fn context_window_comes_from_first_matching_option() {
    let options = vec![
        option("openai", "gpt-5.5", None),
        option("openai", "gpt-5.5", Some(400_000)),
        option("cursor", "composer-2.5", Some(200_000)),
    ];
    assert_eq!(context_window_from_options(&options, "cursor", "composer-2.5"), Some(200_000));
    assert_eq!(context_window_from_options(&options, "openai", "gpt-5.5"), None);
    assert_eq!(context_window_from_options(&options, "x", "y"), None);
}

#[test]
fn model_slash_command_finds_model_by_id_or_qualified_name() {
    let providers = vec![
        ProviderModels { id: "openai".to_string(), model_ids: vec!["gpt-5.5".to_string()] },
        ProviderModels {
            id: "azure".to_string(),
            model_ids: vec!["gpt-5.5".to_string(), "o4".to_string()],
        },
    ];
    assert_eq!(
        find_named_model(&providers, "gpt-5.5"),
        Some(("openai".to_string(), "gpt-5.5".to_string()))
    );
    assert_eq!(
        find_named_model(&providers, "azure/gpt-5.5"),
        Some(("azure".to_string(), "gpt-5.5".to_string()))
    );
    assert_eq!(find_named_model(&providers, "o5"), None);
    assert_eq!(model_slash_argument("  azure/o4  "), Some("azure/o4".to_string()));
    assert_eq!(model_slash_argument("   "), None);
    assert_eq!(model_not_found_message("o5"), "model not found for /model o5");
    assert_eq!(
        active_model_message("openai", "gpt-5.5"),
        "Active model: openai/gpt-5.5. Opening model settings."
    );
}

#[test]
fn model_switch_reports_label_and_reasoning() {
    let (system, event) = model_switch_messages("openai/gpt-5.5", "high");
    assert_eq!(system, "switched model to openai/gpt-5.5 with reasoning high.");
    assert_eq!(event, "model selected: openai/gpt-5.5 (high)");
}
