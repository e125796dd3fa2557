use roder_tui::policy::{
    next_policy_mode, plan_exit_request_text, policy_mode_label, pretty_policy_mode_label,
    settings_policy_mode_label, web_search_mode_label, web_search_provider_label,
    HostedWebSearchMode, PolicyMode, WebSearchProviderStatus,
};

#[test]
fn policy_mode_switcher_cycles_all_modes() {
    assert_eq!(next_policy_mode(PolicyMode::Default), PolicyMode::AcceptAll);
    assert_eq!(next_policy_mode(PolicyMode::AcceptAll), PolicyMode::Plan);
    assert_eq!(next_policy_mode(PolicyMode::Plan), PolicyMode::Bypass);
    assert_eq!(next_policy_mode(PolicyMode::Bypass), PolicyMode::Default);
}

#[test]
fn policy_mode_labels_match_protocol_values() {
    assert_eq!(policy_mode_label(PolicyMode::Default), "default");
    assert_eq!(policy_mode_label(PolicyMode::AcceptAll), "accept_all");
    assert_eq!(policy_mode_label(PolicyMode::Plan), "plan");
    assert_eq!(policy_mode_label(PolicyMode::Bypass), "bypass");
}

#[test]
fn plan_exit_request_text_includes_plan_and_approval_keys() {
    let text = plan_exit_request_text(
        Some("## Plan\nImplement the feature."),
        &vec!["edit files".to_string(), "run tests".to_string()],
        PolicyMode::Default,
    );

    assert!(text.contains("Approve with y"));
    assert!(text.contains("reject with n"));
    assert!(text.contains("## Plan"));
    assert!(text.contains("- edit files"));
    assert!(text.contains("- run tests"));
}

#[test]
fn plan_exit_request_text_skips_blank_summary_and_steps() {
    assert_eq!(
        plan_exit_request_text(Some("   "), &Vec::new(), PolicyMode::AcceptAll),
        "Plan ready for approval. Approve with y to enter accept_all mode; reject with n."
    );
    assert_eq!(
        plan_exit_request_text(None, &vec![" a ".to_string(), "  ".to_string()], PolicyMode::Plan),
        "Plan ready for approval. Approve with y to enter plan mode; reject with n.\n\nNext steps:\n- a"
    );
}

#[test]
fn pretty_policy_mode_labels_are_human_readable() {
    assert_eq!(pretty_policy_mode_label(PolicyMode::Default), "Default");
    assert_eq!(
        pretty_policy_mode_label(PolicyMode::AcceptAll),
        "Accept All"
    );
    assert_eq!(pretty_policy_mode_label(PolicyMode::Plan), "Plan");
    assert_eq!(pretty_policy_mode_label(PolicyMode::Bypass), "Bypass");
    assert_eq!(settings_policy_mode_label(PolicyMode::AcceptAll), "Accept edits");
}

#[test]
fn web_search_labels_name_mode_and_provider_state() {
    assert_eq!(web_search_mode_label(HostedWebSearchMode::Disabled), "Disabled");
    assert_eq!(web_search_mode_label(HostedWebSearchMode::Cached), "Cached hosted");
    assert_eq!(web_search_mode_label(HostedWebSearchMode::Live), "Live hosted");
    let status = WebSearchProviderStatus { id: "exa".to_string(), configured: false, enabled: true, active: false };
    assert_eq!(web_search_provider_label(&status), "Exa - enabled, no API key");
    let other = WebSearchProviderStatus { id: "élan".to_string(), configured: true, enabled: false, active: false };
    assert_eq!(web_search_provider_label(&other), "élan - disabled, key configured");
}
