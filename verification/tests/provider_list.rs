use roder_tui::menu::{ProviderAuthType, ReasoningEffort};
use roder_tui::provider_list::{
    catalog_window_for, provider_choices_from_list, provider_options_from_list, CatalogWindow,
    ModelDescriptor, ProviderDescriptor, ProvidersListResult, RoutingOptionDescriptor,
};

fn mock_provider(models: Vec<ModelDescriptor>) -> ProviderDescriptor {
    ProviderDescriptor {
        id: "mock".to_string(),
        name: "Mock".to_string(),
        description: Some("Local".to_string()),
        auth_type: ProviderAuthType::NoAuth,
        authenticated: true,
        auth_detail: None,
        recommended: false,
        models,
    }
}

fn list(routing_options: Vec<RoutingOptionDescriptor>, providers: Vec<ProviderDescriptor>) -> ProvidersListResult {
    ProvidersListResult {
        active_provider: "mock".to_string(),
        active_model: "mock".to_string(),
        active_reasoning: "medium".to_string(),
        routing_options,
        providers,
    }
}

#[test]
fn provider_options_include_provider_models() {
    let list = list(
        Vec::new(),
        vec![mock_provider(vec![ModelDescriptor {
            id: "mock".to_string(),
            name: "Mock".to_string(),
            context_window: Some(123_000),
            default_reasoning: Some("medium".to_string()),
            supported_reasoning: vec![ReasoningEffort {
                effort: "medium".to_string(),
                description: "Balanced reasoning".to_string(),
            }],
        }])],
    );

    let options = provider_options_from_list(&list, &Vec::new());
    assert_eq!(options.len(), 1);
    assert_eq!(options[0].0.provider_id, "mock");
    assert_eq!(options[0].0.model_id, "mock");
    assert_eq!(options[0].0.context_window, Some(123_000));
    assert_eq!(options[0].0.default_reasoning.as_deref(), Some("medium"));
    assert_eq!(options[0].1.len(), 1);
}

#[test]
fn provider_options_include_auto_routing_options() {
    let list = list(
        vec![RoutingOptionDescriptor {
            id: "test-router:coding".to_string(),
            label: "Auto: Coding".to_string(),
            baseline_provider: "mock".to_string(),
            baseline_model: "mock".to_string(),
            reasoning: None,
        }],
        vec![mock_provider(Vec::new())],
    );

    let options = provider_options_from_list(&list, &Vec::new());

    assert_eq!(options.len(), 2);
    assert_eq!(options[0].0.routing_option_id.as_deref(), Some("test-router:coding"));
    assert_eq!(options[0].0.label, "Auto: Coding");
    assert_eq!(options[0].0.provider_id, "mock");
    assert_eq!(options[0].0.model_id, "mock");
}

#[test]
fn provider_options_fill_labels_reasoning_and_catalogue_windows() {
    let catalog = vec![
        CatalogWindow { provider: "mock".to_string(), model: "mock".to_string(), context_window: 64_000 },
        CatalogWindow { provider: "other".to_string(), model: "big".to_string(), context_window: 0 },
    ];
    let list = list(
        vec![RoutingOptionDescriptor {
            id: "r".to_string(),
            label: "Auto".to_string(),
            baseline_provider: "unlisted".to_string(),
            baseline_model: "m".to_string(),
            reasoning: Some("high".to_string()),
        }],
        vec![
            mock_provider(Vec::new()),
            ProviderDescriptor {
                id: "other".to_string(),
                name: "Other".to_string(),
                description: None,
                auth_type: ProviderAuthType::ApiKey,
                authenticated: false,
                auth_detail: None,
                recommended: true,
                models: vec![
                    ModelDescriptor {
                        id: "big".to_string(),
                        name: String::new(),
                        context_window: None,
                        default_reasoning: None,
                        supported_reasoning: Vec::new(),
                    },
                    ModelDescriptor {
                        id: "small".to_string(),
                        name: "Small".to_string(),
                        context_window: Some(8),
                        default_reasoning: None,
                        supported_reasoning: Vec::new(),
                    },
                ],
            },
        ],
    );
    let options = provider_options_from_list(&list, &catalog);
    assert_eq!(options.len(), 4);
    let routed = &options[0].0;
    assert_eq!(routed.provider_name, "unlisted");
    assert_eq!(routed.provider_auth_type, ProviderAuthType::NoAuth);
    assert!(routed.provider_authenticated);
    assert_eq!(routed.default_reasoning.as_deref(), Some("high"));
    assert_eq!(routed.context_window, None);
    let fallback = &options[1].0;
    assert_eq!(fallback.label, "mock/mock");
    assert_eq!(fallback.context_window, Some(64_000));
    assert_eq!(fallback.default_reasoning.as_deref(), Some("medium"));
    assert_eq!(options[2].0.label, "other/big");
    assert_eq!(options[2].0.context_window, None);
    assert!(!options[2].0.provider_authenticated);
    assert_eq!(options[3].0.label, "other/small (Small)");
    assert_eq!(options[3].0.context_window, Some(8));
}

#[test]
fn catalogue_window_takes_the_first_matching_entry() {
    let catalog = vec![
        CatalogWindow { provider: "a".to_string(), model: "m".to_string(), context_window: 0 },
        CatalogWindow { provider: "a".to_string(), model: "m".to_string(), context_window: 9 },
        CatalogWindow { provider: "b".to_string(), model: "m".to_string(), context_window: 7 },
    ];
    assert_eq!(catalog_window_for(&catalog, "a", "m"), None);
    assert_eq!(catalog_window_for(&catalog, "b", "m"), Some(7));
    assert_eq!(catalog_window_for(&catalog, "c", "m"), None);
}

#[test]
fn provider_choices_take_the_first_model_as_default() {
    let list = list(
        Vec::new(),
        vec![
            mock_provider(Vec::new()),
            mock_provider(vec![ModelDescriptor {
                id: "first".to_string(),
                name: String::new(),
                context_window: None,
                default_reasoning: None,
                supported_reasoning: Vec::new(),
            }]),
        ],
    );
    let choices = provider_choices_from_list(&list);
    assert_eq!(choices.len(), 2);
    assert_eq!(choices[0].default_model, None);
    assert_eq!(choices[1].default_model.as_deref(), Some("first"));
    assert_eq!(choices[0].description.as_deref(), Some("Local"));
}
