use roder_tui::menu::{ProviderAuthType, ProviderChoice, ProviderOption, ReasoningEffort};
use roder_tui::menu_item::{ProviderMenuItem, ReasoningOptionChoice, ThreadSummary, VoiceModelChoice};
use roder_tui::menus::{
    main_provider_menu_items, models_menu_items, providers_menu_items,
    providers_menu_selection, reasoning_submenu, resume_submenu, settings_menu_items,
    settings_menu_selection, shell_submenu, spinner_submenu, theme_submenu,
    voice_model_menu_items, web_search_submenu, SpeechModel, SpeechProvider, TimelineSettings,
};
use roder_tui::policy::{settings_policy_mode_label, HostedWebSearchMode, PolicyMode, WebSearchProviderStatus};
use roder_tui::status::WorkingSpinner;

fn test_provider_option(provider_id: &str, provider_name: &str, model_id: &str) -> ProviderOption {
    ProviderOption {
        provider_id: provider_id.to_string(),
        provider_name: provider_name.to_string(),
        provider_auth_type: ProviderAuthType::ApiKey,
        provider_authenticated: true,
        model_id: model_id.to_string(),
        routing_option_id: None,
        label: format!("{provider_id}/{model_id}"),
        context_window: None,
        default_reasoning: None,
    }
}

fn choice(provider_id: &str, name: &str, default_model: &str) -> ProviderChoice {
    ProviderChoice {
        provider_id: provider_id.to_string(),
        name: name.to_string(),
        description: None,
        auth_type: ProviderAuthType::ApiKey,
        authenticated: true,
        auth_detail: None,
        default_model: Some(default_model.to_string()),
        recommended: false,
    }
}

#[test]
fn settings_menu_labels_default_modes_for_users() {
    assert_eq!(ProviderMenuItem::Settings.label(), "Settings");
    assert_eq!(
        ProviderMenuItem::DefaultMode(PolicyMode::AcceptAll).label(),
        "Default mode: Accept edits"
    );
    assert_eq!(
        ProviderMenuItem::MessageFoldingToggle(false).label(),
        "Fold long messages: off"
    );
    assert_eq!(
        ProviderMenuItem::SearchIndexToggle(true).label(),
        "Instant regex search: on"
    );
    assert_eq!(
        ProviderMenuItem::ShellSettings("bash".to_string()).label(),
        "Shell command shell: bash"
    );
    assert_eq!(ProviderMenuItem::VoiceModelSettings.label(), "Voice model");
    assert_eq!(
        ProviderMenuItem::FileBackedDynamicContextToggle(true).label(),
        "File-backed dynamic context: on"
    );
    assert_eq!(settings_policy_mode_label(PolicyMode::Default), "Default");
}

#[test]
fn themes_submenu_label_matches_theme_id() {
    let item = ProviderMenuItem::Theme("midnight".to_string());
    assert_eq!(item.label(), "midnight");
    assert_eq!(ProviderMenuItem::ThemesSettings.label(), "Themes");
}

#[test]
fn web_search_settings_menu_lists_hosted_modes() {
    let items = [
        HostedWebSearchMode::Cached,
        HostedWebSearchMode::Live,
        HostedWebSearchMode::Disabled,
    ]
    .into_iter()
    .map(ProviderMenuItem::WebSearchMode)
    .chain(std::iter::once(ProviderMenuItem::Back))
    .collect::<Vec<_>>();

    assert_eq!(items[0].label(), "Cached hosted");
    assert_eq!(items[1].label(), "Live hosted");
    assert_eq!(items[2].label(), "Disabled");
    assert!(matches!(items[3], ProviderMenuItem::Back));
}

#[test]
fn other_row_labels() {
    assert_eq!(ProviderMenuItem::PlanModeToggle(true).label(), "Plan mode: on");
    assert_eq!(ProviderMenuItem::RoadmapMode.label(), "Roadmaps");
    assert_eq!(ProviderMenuItem::PluginBrowser.label(), "Browse installable plugins");
    assert_eq!(ProviderMenuItem::Spinner(WorkingSpinner::Pulse).label(), "Pulse");
    let reasoning = ProviderMenuItem::Reasoning(ReasoningOptionChoice {
        provider_id: "openai".to_string(),
        model_id: "gpt-5.5".to_string(),
        effort: "high".to_string(),
        description: "thorough".to_string(),
    });
    assert_eq!(reasoning.label(), "high - thorough");
    let market = ProviderMenuItem::MarketplaceDefault { id: "codex-plugins", kind: "Codex", label: "Codex Plugins" };
    assert_eq!(market.label(), "Codex Plugins - Codex (codex-plugins)");
    let voice = ProviderMenuItem::VoiceModel(VoiceModelChoice {
        provider_id: "p".to_string(),
        model_id: "m".to_string(),
        label: "P / M".to_string(),
    });
    assert_eq!(voice.label(), "P / M");
    assert_eq!(ProviderMenuItem::Back.label(), "Back");
}

#[test]
fn thread_rows_show_time_short_id_title_and_workspace() {
    let named = ProviderMenuItem::Thread(ThreadSummary {
        id: "0123456789abcdef".to_string(),
        name: Some("Fix the build".to_string()),
        cwd: "/w/repo".to_string(),
        updated_at: 1700000000,
    });
    assert_eq!(named.label(), "1700000000 [01234567] Fix the build - /w/repo");
    let unnamed = ProviderMenuItem::Thread(ThreadSummary {
        id: "abc".to_string(),
        name: Some("   ".to_string()),
        cwd: " ".to_string(),
        updated_at: -5,
    });
    assert_eq!(unnamed.label(), "-5 [abc] Thread abc - (unknown)");
}

#[test]
fn provider_menu_starts_with_models_then_plan_toggle_and_submenus() {
    let items = main_provider_menu_items(&Vec::new(), false);
    assert!(matches!(items.first(), Some(ProviderMenuItem::Models)));
    assert!(matches!(items.get(1), Some(ProviderMenuItem::PlanModeToggle(false))));
    assert!(matches!(items.get(2), Some(ProviderMenuItem::Providers)));
    assert!(matches!(items.get(3), Some(ProviderMenuItem::Settings)));
    assert!(matches!(items.get(4), Some(ProviderMenuItem::RoadmapMode)));
    assert!(matches!(items.get(5), Some(ProviderMenuItem::RunnerSettings)));
    assert!(matches!(items.get(6), Some(ProviderMenuItem::ResumeThreads)));
    assert!(matches!(items.get(7), Some(ProviderMenuItem::WebSearchSettings)));
    assert!(matches!(items.get(8), Some(ProviderMenuItem::SpinnerSettings)));
    assert!(matches!(items.get(9), Some(ProviderMenuItem::ThemesSettings)));
    assert!(matches!(items.get(10), Some(ProviderMenuItem::MarketplacesSettings)));

    let enabled_items = main_provider_menu_items(&Vec::new(), true);
    assert!(matches!(enabled_items.get(1), Some(ProviderMenuItem::PlanModeToggle(true))));
}

#[test]
fn settings_menu_includes_toggles_before_back() {
    let items = settings_menu_items(TimelineSettings::default(), true, "bash", true);

    assert!(matches!(items.get(4), Some(ProviderMenuItem::SearchIndexToggle(true))));
    assert!(matches!(
        items.get(5),
        Some(ProviderMenuItem::ShellSettings(shell)) if shell == "bash"
    ));
    assert!(matches!(items.get(6), Some(ProviderMenuItem::VoiceModelSettings)));
    assert!(matches!(
        items.get(7),
        Some(ProviderMenuItem::FileBackedDynamicContextToggle(true))
    ));
    assert!(matches!(items.get(8), Some(ProviderMenuItem::MessageFoldingToggle(false))));
    assert!(matches!(items.get(9), Some(ProviderMenuItem::Back)));
    assert_eq!(settings_menu_selection(PolicyMode::Plan), 2);
}

#[test]
fn voice_model_menu_groups_speech_models_by_provider() {
    let items = voice_model_menu_items(&vec![SpeechProvider {
        id: "openai-speech".to_string(),
        name: "OpenAI".to_string(),
        models: vec![SpeechModel {
            id: "gpt-4o-mini-transcribe".to_string(),
            name: "GPT-4o Mini Transcribe".to_string(),
        }],
    }]);

    assert!(matches!(
        items.first(),
        Some(ProviderMenuItem::Section(label)) if label == "OpenAI"
    ));
    assert!(matches!(
        &items[1],
        ProviderMenuItem::VoiceModel(choice)
            if choice.provider_id == "openai-speech"
                && choice.model_id == "gpt-4o-mini-transcribe"
                && choice.label.contains("GPT-4o Mini Transcribe")
    ));
    assert!(matches!(items.last(), Some(ProviderMenuItem::Back)));
}

#[test]
fn voice_model_menu_skips_providers_without_models() {
    let items = voice_model_menu_items(&vec![
        SpeechProvider { id: "a".to_string(), name: "A".to_string(), models: Vec::new() },
        SpeechProvider {
            id: "b".to_string(),
            name: "B".to_string(),
            models: vec![
                SpeechModel { id: "b1".to_string(), name: "One".to_string() },
                SpeechModel { id: "b2".to_string(), name: "Two".to_string() },
            ],
        },
    ]);
    assert_eq!(items.len(), 4);
    assert_eq!(items[0], ProviderMenuItem::Section("B".to_string()));
    assert_eq!(items[2].label(), "B / Two");
    assert_eq!(items[3], ProviderMenuItem::Back);
}

#[test]
fn provider_choices_live_under_providers_submenu() {
    let mut provider = choice("codex", "Codex", "gpt-5.5");
    provider.description = Some("ChatGPT account provider".to_string());
    provider.auth_type = ProviderAuthType::OAuth;
    provider.authenticated = false;
    provider.recommended = true;

    let main = main_provider_menu_items(&vec![provider.clone()], false);
    assert!(!main.iter().any(|item| matches!(item, ProviderMenuItem::Provider(_))));

    let submenu = providers_menu_items(&vec![provider]);
    assert!(matches!(submenu.first(), Some(ProviderMenuItem::Provider(_))));
    assert!(matches!(submenu.last(), Some(ProviderMenuItem::Back)));
}

#[test]
fn providers_submenu_opens_on_provider_in_use() {
    let providers = vec![choice("a", "A", "m"), choice("b", "B", "m")];
    assert_eq!(providers_menu_selection(&providers, "b"), 1);
    assert_eq!(providers_menu_selection(&providers, "zzz"), 0);
}

#[test]
fn model_menu_groups_models_under_provider_sections() {
    let providers = vec![
        choice("opencode", "OpenCode Zen", "big-pickle"),
        choice("opencode-go", "OpenCode Go", "qwen3.6-plus"),
        choice("anthropic", "Anthropic", "opus-4.1"),
    ];
    let models = vec![
        test_provider_option("opencode", "OpenCode Zen", "big-pickle"),
        test_provider_option("opencode-go", "OpenCode Go", "qwen3.6-plus"),
        test_provider_option("anthropic", "Anthropic", "opus-4.1"),
    ];

    let items = models_menu_items(&models, &providers);

    assert!(matches!(&items[0], ProviderMenuItem::Section(label) if label == "OpenCode Zen"));
    assert!(matches!(
        &items[1],
        ProviderMenuItem::Model(option)
            if option.provider_id == "opencode" && option.model_id == "big-pickle"
    ));
    assert!(matches!(&items[2], ProviderMenuItem::Section(label) if label == "OpenCode Go"));
    assert!(matches!(
        &items[3],
        ProviderMenuItem::Model(option)
            if option.provider_id == "opencode-go" && option.model_id == "qwen3.6-plus"
    ));
    assert!(matches!(&items[4], ProviderMenuItem::Section(label) if label == "Anthropic"));
    assert!(matches!(
        &items[5],
        ProviderMenuItem::Model(option)
            if option.provider_id == "anthropic" && option.model_id == "opus-4.1"
    ));
    assert!(matches!(items.last(), Some(ProviderMenuItem::Back)));
}

#[test]
fn model_menu_groups_unlisted_providers_by_id_in_first_seen_order() {
    let providers = vec![choice("b", "Bee", "b1"), choice("empty", "Empty", "x")];
    let models = vec![
        test_provider_option("z", "Zed", "z1"),
        test_provider_option("b", "Bee", "b1"),
        test_provider_option("y", "Why", "y1"),
        test_provider_option("z", "Zed", "z2"),
    ];
    let items = models_menu_items(&models, &providers);
    let labels: Vec<String> = items.iter().map(|item| item.label()).collect();
    assert_eq!(labels, vec!["Bee", "b/b1", "z", "z/z1", "z/z2", "y", "y/y1", "Back"]);
}

#[test]
fn spinner_menu_items_include_all_spinners_and_back() {
    let (mut items, selected) = spinner_submenu(WorkingSpinner::Arc);

    assert_eq!(items.len(), WorkingSpinner::all().len() + 1);
    assert_eq!(items[selected], ProviderMenuItem::Spinner(WorkingSpinner::Arc));
    assert!(matches!(items.pop(), Some(ProviderMenuItem::Back)));
}

#[test]
fn web_search_submenu_lists_providers_and_opens_on_setting_in_use() {
    let statuses = vec![
        WebSearchProviderStatus { id: "exa".to_string(), configured: true, enabled: true, active: false },
        WebSearchProviderStatus { id: "brave".to_string(), configured: true, enabled: true, active: true },
    ];
    let (items, selected) = web_search_submenu(&statuses, HostedWebSearchMode::Live, true);
    assert_eq!(items.len(), 8);
    assert_eq!(items[4], ProviderMenuItem::Section("External providers (applies on restart)".to_string()));
    assert_eq!(selected, 6);
    let (_, selected) = web_search_submenu(&statuses, HostedWebSearchMode::Live, false);
    assert_eq!(selected, 2);
    let (items, selected) = web_search_submenu(&Vec::new(), HostedWebSearchMode::Disabled, true);
    assert_eq!(items.len(), 5);
    assert_eq!(selected, 1);
}

#[test]
fn fixed_and_listed_submenus() {
    let (shells, selected) = shell_submenu(&vec!["sh".to_string(), "zsh".to_string()], "zsh");
    assert_eq!(shells.len(), 3);
    assert_eq!(selected, 1);

    let (themes, selected) = theme_submenu(&vec!["dark".to_string(), "light".to_string()], Some("nope"));
    assert_eq!(themes[1], ProviderMenuItem::Theme("light".to_string()));
    assert_eq!(selected, 0);

    let threads = vec![ThreadSummary {
        id: "t1".to_string(),
        name: None,
        cwd: "/w".to_string(),
        updated_at: 0,
    }];
    let (rows, selected) = resume_submenu(&threads, "t1");
    assert_eq!(rows.len(), 2);
    assert_eq!(selected, 0);
}

#[test]
fn reasoning_submenu_opens_on_effort_in_use_then_default() {
    let mut option = test_provider_option("openai", "OpenAI", "gpt-5.5");
    option.default_reasoning = Some("high".to_string());
    let efforts = vec![
        ReasoningEffort { effort: "low".to_string(), description: "low".to_string() },
        ReasoningEffort { effort: "high".to_string(), description: "high".to_string() },
    ];
    let (items, selected) = reasoning_submenu(&option, &efforts, "medium");
    assert_eq!(items.len(), 3);
    assert_eq!(selected, 1);
    assert!(matches!(&items[0], ProviderMenuItem::Reasoning(c) if c.effort == "low" && c.model_id == "gpt-5.5"));
    let (_, selected) = reasoning_submenu(&option, &efforts, "low");
    assert_eq!(selected, 0);
    option.default_reasoning = None;
    let (_, selected) = reasoning_submenu(&option, &efforts, "medium");
    assert_eq!(selected, 0);
}
